//! Limpeza por LLM: o prompt de sistema que orienta o LLM a remover
//! hesitações e corrigir gramática/pontuação, pelas Instruções da Limpeza e
//! pelo Vocabulário do usuário; a Tradução fundida na mesma chamada; e o que
//! fazer com a resposta do provedor.

use vstd::prelude::*;
use crate::texto::{aparado, aparar, juntado, juntar, vistas};

verus! {

/// Nomes dos provedores sob os quais as chaves de API são salvas no GNOME
/// Keyring. O provedor `openai` é o mesmo do Engine cloud: é a mesma conta.
pub const PROVEDOR_OPENAI: &'static str = "openai";

pub const PROVEDOR_ANTHROPIC: &'static str = "anthropic";

/// O começo de todo prompt de Limpeza: restrito a limpar, nunca
/// parafrasear, resumir ou inventar conteúdo.
pub const PROMPT_BASE: &'static str = "Você limpa transcrições de fala em texto: remove hesitações (\"éé\", \"tipo\", \"né\"), corrige gramática e pontuação. Nunca parafraseia, resume, traduz ou inventa conteúdo que não esteja no texto original — apenas limpa, preservando o significado e as palavras do usuário. Responda somente com o texto limpo, sem comentários, aspas ou explicações adicionais.";

pub const CABECALHO_INSTRUCOES: &'static str = "\n\nInstruções adicionais do usuário: ";

pub const CABECALHO_VOCABULARIO: &'static str = "\n\nVocabulário do usuário (use esta grafia quando esses termos aparecerem): ";

pub const SEPARADOR_VOCABULARIO: &'static str = ", ";

pub const CONVERTER_PONTUACAO: &'static str = "\n\nConverta pontuação falada em caracteres: \"vírgula\" -> \",\", \"ponto\" -> \".\", \"ponto de interrogação\" -> \"?\", \"ponto de exclamação\" -> \"!\", \"dois pontos\" -> \":\", \"nova linha\" -> quebra de linha.";

pub const MANTER_PONTUACAO: &'static str = "\n\nNão converta palavras de pontuação faladas (\"vírgula\", \"ponto\" etc.) em caracteres; mantenha-as como texto.";

/// Parâmetros do usuário que orientam a Limpeza: texto livre (Instruções
/// da Limpeza), grafia de termos (Vocabulário) e se a Pontuação falada deve
/// virar os caracteres correspondentes.
#[derive(Debug, Clone, PartialEq, Eq)]
pub struct ContextoLimpeza {
    pub instrucoes: String,
    pub vocabulario: Vec<String>,
    pub pontuacao_falada: bool,
}

impl Default for ContextoLimpeza {
    fn default() -> (contexto: Self)
        ensures
            contexto.instrucoes@ == Seq::<char>::empty(),
            contexto.vocabulario@ == Seq::<String>::empty(),
            !contexto.pontuacao_falada,
    {
        ContextoLimpeza { instrucoes: String::new(), vocabulario: Vec::new(), pontuacao_falada: false }
    }
}

/// O prompt de sistema da Limpeza para estas instruções, este vocabulário e
/// esta escolha de Pontuação falada.
pub open spec fn prompt_de_limpeza(
    instrucoes: Seq<char>,
    vocabulario: Seq<Seq<char>>,
    pontuacao_falada: bool,
) -> Seq<char> {
    PROMPT_BASE@ + (if aparado(instrucoes).len() > 0 {
        CABECALHO_INSTRUCOES@ + aparado(instrucoes)
    } else {
        Seq::empty()
    }) + (if vocabulario.len() > 0 {
        CABECALHO_VOCABULARIO@ + juntado(vocabulario, SEPARADOR_VOCABULARIO@)
    } else {
        Seq::empty()
    }) + (if pontuacao_falada {
        CONVERTER_PONTUACAO@
    } else {
        MANTER_PONTUACAO@
    })
}

/// O prompt de sistema da Limpeza para um contexto.
pub open spec fn prompt_do_contexto(contexto: ContextoLimpeza) -> Seq<char> {
    prompt_de_limpeza(contexto.instrucoes@, vistas(contexto.vocabulario@), contexto.pontuacao_falada)
}

/// Monta o prompt de sistema a partir do [`ContextoLimpeza`]: restrito a
/// limpar (nunca parafrasear, resumir ou inventar conteúdo).
pub fn prompt_sistema(contexto: &ContextoLimpeza) -> (prompt: String)
    ensures
        prompt@ == prompt_do_contexto(*contexto),
{
    let mut prompt = String::from_str(PROMPT_BASE);
    let instrucoes = aparar(contexto.instrucoes.as_str());
    if instrucoes.as_str().unicode_len() > 0 {
        prompt.append(CABECALHO_INSTRUCOES);
        prompt.append(instrucoes.as_str());
    }
    let ghost apos_instrucoes = prompt@;
    if contexto.vocabulario.len() > 0 {
        let lista = juntar(contexto.vocabulario.as_slice(), SEPARADOR_VOCABULARIO);
        prompt.append(CABECALHO_VOCABULARIO);
        prompt.append(lista.as_str());
    }
    if contexto.pontuacao_falada {
        prompt.append(CONVERTER_PONTUACAO);
    } else {
        prompt.append(MANTER_PONTUACAO);
    }
    proof {
        let instr = if aparado(contexto.instrucoes@).len() > 0 {
            CABECALHO_INSTRUCOES@ + aparado(contexto.instrucoes@)
        } else {
            Seq::empty()
        };
        let voc = if vistas(contexto.vocabulario@).len() > 0 {
            CABECALHO_VOCABULARIO@ + juntado(vistas(contexto.vocabulario@), SEPARADOR_VOCABULARIO@)
        } else {
            Seq::empty()
        };
        assert(apos_instrucoes =~= PROMPT_BASE@ + instr);
        assert(prompt@ =~= prompt_do_contexto(*contexto));
    }
    prompt
}


/// A Pontuação falada decide sozinha como o prompt termina, quaisquer que
/// sejam as Instruções e o Vocabulário: ligada, ele termina pedindo que a
/// pontuação falada vire caracteres; desligada, pedindo que fique como texto.
pub proof fn lei_prompt_termina_pela_pontuacao(contexto: ContextoLimpeza)
    ensures
        contexto.pontuacao_falada ==> CONVERTER_PONTUACAO@.is_suffix_of(prompt_do_contexto(contexto)),
        !contexto.pontuacao_falada ==> MANTER_PONTUACAO@.is_suffix_of(prompt_do_contexto(contexto)),
{
    let p = prompt_do_contexto(contexto);
    let fim = if contexto.pontuacao_falada { CONVERTER_PONTUACAO@ } else { MANTER_PONTUACAO@ };
    assert(p.subrange(p.len() - fim.len(), p.len() as int) =~= fim);
}

pub const PREFIXO_TRADUCAO: &'static str = "Você traduz transcrições de fala para o idioma de código \"";

pub const SUFIXO_TRADUCAO: &'static str = "\". Traduza fielmente, preservando o significado, sem resumir, parafrasear ou inventar conteúdo. Responda somente com o texto traduzido, sem comentários, aspas ou explicações adicionais.";

pub const PREFIXO_TRADUCAO_FUNDIDA: &'static str = "\n\nDepois de limpar, traduza o texto limpo para o idioma de código \"";

pub const SUFIXO_TRADUCAO_FUNDIDA: &'static str = "\": esta é a única tradução permitida. Responda somente com o texto limpo e traduzido.";

/// O que a chamada de LLM de um Ditado faz: limpar, traduzir ou as duas
/// coisas numa única chamada.
#[derive(Debug, Clone, PartialEq, Eq)]
pub enum Instrucao {
    Limpar(ContextoLimpeza),
    Traduzir { idioma_saida: String },
    LimparETraduzir { contexto: ContextoLimpeza, idioma_saida: String },
}

/// O prompt de sistema de uma instrução.
pub open spec fn prompt_da_instrucao(instrucao: Instrucao) -> Seq<char> {
    match instrucao {
        Instrucao::Limpar(contexto) => prompt_do_contexto(contexto),
        Instrucao::Traduzir { idioma_saida } => PREFIXO_TRADUCAO@ + idioma_saida@ + SUFIXO_TRADUCAO@,
        Instrucao::LimparETraduzir { contexto, idioma_saida } => prompt_do_contexto(contexto)
            + PREFIXO_TRADUCAO_FUNDIDA@ + idioma_saida@ + SUFIXO_TRADUCAO_FUNDIDA@,
    }
}

/// Monta o prompt de sistema da chamada de LLM para a instrução.
pub fn prompt_instrucao(instrucao: &Instrucao) -> (prompt: String)
    ensures
        prompt@ == prompt_da_instrucao(*instrucao),
{
    match instrucao {
        Instrucao::Limpar(contexto) => prompt_sistema(contexto),
        Instrucao::Traduzir { idioma_saida } => {
            let mut prompt = String::from_str(PREFIXO_TRADUCAO);
            prompt.append(idioma_saida.as_str());
            prompt.append(SUFIXO_TRADUCAO);
            prompt
        },
        Instrucao::LimparETraduzir { contexto, idioma_saida } => {
            let mut prompt = prompt_sistema(contexto);
            prompt.append(PREFIXO_TRADUCAO_FUNDIDA);
            prompt.append(idioma_saida.as_str());
            prompt.append(SUFIXO_TRADUCAO_FUNDIDA);
            prompt
        },
    }
}

/// Todo prompt que envolve limpar começa pela restrição de só limpar,
/// nunca parafrasear, resumir ou inventar conteúdo.
pub proof fn lei_prompt_de_limpeza_comeca_pela_restricao(instrucao: Instrucao)
    requires
        !(instrucao is Traduzir),
    ensures
        PROMPT_BASE@.is_prefix_of(prompt_da_instrucao(instrucao)),
{
    let p = prompt_da_instrucao(instrucao);
    assert(p.subrange(0, PROMPT_BASE@.len() as int) =~= PROMPT_BASE@);
}

/// Falha da Limpeza (rede, API, resposta inesperada), com uma mensagem que
/// nunca contém a chave de API.
#[derive(Debug, Clone, PartialEq, Eq)]
pub struct ErroLimpeza(pub String);

/// Porta da Limpeza: pós-processa a Transcrição crua.
pub trait Limpeza {
    fn limpar(&mut self, texto: &str) -> Result<String, ErroLimpeza>;
}

/// Usada quando nem a Limpeza nem a Tradução estão ligadas: devolve o texto
/// intacto, sem exigir chave de API.
pub struct LimpezaDesativada;

impl Limpeza for LimpezaDesativada {
    fn limpar(&mut self, texto: &str) -> (resultado: Result<String, ErroLimpeza>)
        ensures
            resultado matches Ok(limpo) && limpo@ == texto@,
    {
        Ok(String::from_str(texto))
    }
}

/// Mensagem de uma falha de rede ao chamar a API de `servico`.
pub fn mensagem_falha_de_rede(servico: &str, detalhe: &str) -> (mensagem: String)
    ensures
        mensagem@ == "falha de rede ao chamar a API da "@ + servico@ + ": "@ + detalhe@,
{
    let mut mensagem = String::from_str("falha de rede ao chamar a API da ");
    mensagem.append(servico);
    mensagem.append(": ");
    mensagem.append(detalhe);
    mensagem
}

/// Mensagem de uma recusa da API de `servico`, com o status HTTP e o corpo
/// da resposta de erro.
pub fn mensagem_recusa(servico: &str, status: &str, corpo: &str) -> (mensagem: String)
    ensures
        mensagem@ == "API da "@ + servico@ + " recusou a limpeza ("@ + status@ + "): "@ + corpo@,
{
    let mut mensagem = String::from_str("API da ");
    mensagem.append(servico);
    mensagem.append(" recusou a limpeza (");
    mensagem.append(status);
    mensagem.append("): ");
    mensagem.append(corpo);
    mensagem
}

/// Escolhe o texto limpo na resposta do provedor: o primeiro conteúdo
/// devolvido; sem nenhum, um erro que diz que a resposta veio vazia.
pub fn primeira_resposta(servico: &str, conteudos: Vec<String>) -> (resultado: Result<String, ErroLimpeza>)
    ensures
        conteudos@.len() > 0 ==> resultado == Ok::<String, ErroLimpeza>(conteudos@[0]),
        conteudos@.len() == 0 ==> (resultado matches Err(erro) && erro.0@ == "resposta da API da "@
            + servico@ + " sem conteúdo"@),
{
    let mut conteudos = conteudos;
    if conteudos.len() > 0 {
        Ok(conteudos.swap_remove(0))
    } else {
        let mut mensagem = String::from_str("resposta da API da ");
        mensagem.append(servico);
        mensagem.append(" sem conteúdo");
        Err(ErroLimpeza(mensagem))
    }
}

} // verus!
