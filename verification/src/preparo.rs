//! Preparo do Daemon a partir da config: o que a chamada de LLM faz
//! (Limpeza, Tradução ou as duas fundidas), qual provedor e qual chave do
//! Keyring ela exige, e de onde vem o modelo do Engine local.

use vstd::prelude::*;
use crate::config::{Config, ProvedorLimpeza};
use crate::limpeza::{ContextoLimpeza, Instrucao, PROVEDOR_ANTHROPIC, PROVEDOR_OPENAI};

verus! {

/// A Tradução está ligada quando o Idioma de saída difere do Idioma de
/// entrada: não há flag própria de liga/desliga, o par de idiomas já é a
/// fonte da verdade.
pub open spec fn traducao_esta_ligada(config: Config) -> bool {
    config.idioma_entrada@ != config.idioma_saida@
}

pub fn traducao_ligada(config: &Config) -> (ligada: bool)
    ensures
        ligada == traducao_esta_ligada(*config),
{
    !(config.idioma_entrada == config.idioma_saida)
}

/// A Tradução liga exatamente quando os dois idiomas são textos diferentes,
/// caractere a caractere: idiomas iguais nunca traduzem, e quaisquer dois
/// idiomas distintos (mesmo com o mesmo tamanho ou a mesma inicial) sempre
/// traduzem.
pub proof fn lei_traducao_liga_com_idiomas_diferentes(config: Config)
    ensures
        config.idioma_entrada@ == config.idioma_saida@ ==> !traducao_esta_ligada(config),
        config.idioma_entrada@ != config.idioma_saida@ ==> traducao_esta_ligada(config),
{
}

/// Se o contexto da Limpeza é o que a config descreve: as Instruções e a
/// Pontuação falada da seção `[limpeza]` e o Vocabulário da raiz.
pub open spec fn contexto_da_config(contexto: ContextoLimpeza, config: Config) -> bool {
    &&& contexto.instrucoes@ == config.limpeza.instrucoes@
    &&& contexto.vocabulario@ == config.vocabulario@
    &&& contexto.pontuacao_falada == config.limpeza.pontuacao_falada
}

fn copiar_lista(lista: &Vec<String>) -> (copia: Vec<String>)
    ensures
        copia@ == lista@,
{
    let mut copia: Vec<String> = Vec::new();
    let mut i: usize = 0;
    while i < lista.len()
        invariant
            i <= lista.len(),
            copia@ == lista@.take(i as int),
        decreases lista.len() - i,
    {
        copia.push(lista[i].clone());
        assert(copia@ =~= lista@.take(i + 1));
        i = i + 1;
    }
    assert(lista@.take(lista.len() as int) =~= lista@);
    copia
}

pub fn contexto_limpeza(config: &Config) -> (contexto: ContextoLimpeza)
    ensures
        contexto_da_config(contexto, *config),
{
    ContextoLimpeza {
        instrucoes: config.limpeza.instrucoes.clone(),
        vocabulario: copiar_lista(&config.vocabulario),
        pontuacao_falada: config.limpeza.pontuacao_falada,
    }
}

/// Se a instrução é a que a combinação Limpeza/Tradução pede para esta
/// config: só limpar, só traduzir para o Idioma de saída, ou as duas
/// fundidas numa única chamada.
pub open spec fn instrucao_da_config(instrucao: Instrucao, config: Config, limpar: bool, traduzir: bool) -> bool {
    match instrucao {
        Instrucao::Limpar(contexto) => limpar && !traduzir && contexto_da_config(contexto, config),
        Instrucao::Traduzir { idioma_saida } => !limpar && traduzir && idioma_saida@
            == config.idioma_saida@,
        Instrucao::LimparETraduzir { contexto, idioma_saida } => limpar && traduzir
            && contexto_da_config(contexto, config) && idioma_saida@ == config.idioma_saida@,
    }
}

/// Decide o que a chamada de LLM deve fazer a partir da combinação
/// Limpeza/Tradução ligadas; nunca é chamada com as duas desligadas (nesse
/// caso a Limpeza fica desativada, sem chave de API).
pub fn instrucao_llm(config: &Config, limpar: bool, traduzir: bool) -> (instrucao: Instrucao)
    requires
        limpar || traduzir,
    ensures
        instrucao_da_config(instrucao, *config, limpar, traduzir),
{
    if limpar && !traduzir {
        Instrucao::Limpar(contexto_limpeza(config))
    } else if !limpar {
        Instrucao::Traduzir { idioma_saida: config.idioma_saida.clone() }
    } else {
        Instrucao::LimparETraduzir {
            contexto: contexto_limpeza(config),
            idioma_saida: config.idioma_saida.clone(),
        }
    }
}

/// Como a Limpeza/Tradução será executada neste Daemon.
#[derive(Debug, Clone, PartialEq, Eq)]
pub enum PlanoLimpeza {
    /// Nem Limpeza nem Tradução: o texto segue intacto, sem chave de API.
    Desativada,
    /// Uma única chamada de LLM ao provedor configurado, com esta instrução.
    Chamar { provedor: ProvedorLimpeza, instrucao: Instrucao },
}

/// Prepara a Limpeza e/ou a Tradução escolhidas pela config. As duas são
/// independentes, mas, ligadas juntas, compartilham uma única chamada de
/// LLM, com o provedor da Limpeza. Com as duas desligadas a Limpeza fica
/// desativada e nenhuma chave é exigida.
pub fn planejar_limpeza(config: &Config) -> (plano: PlanoLimpeza)
    ensures
        (plano is Desativada) <==> (!config.limpeza.habilitada && !traducao_esta_ligada(*config)),
        plano matches PlanoLimpeza::Chamar { provedor, instrucao } ==> {
            &&& provedor == config.limpeza.provedor
            &&& instrucao_da_config(
                instrucao,
                *config,
                config.limpeza.habilitada,
                traducao_esta_ligada(*config),
            )
        },
{
    let limpar = config.limpeza.habilitada;
    let traduzir = traducao_ligada(config);
    if !limpar && !traduzir {
        PlanoLimpeza::Desativada
    } else {
        PlanoLimpeza::Chamar { provedor: config.limpeza.provedor, instrucao: instrucao_llm(config, limpar, traduzir) }
    }
}

/// Se o núcleo executa a etapa de Limpeza/Tradução nos Ditados.
pub fn limpeza_executa(config: &Config) -> (executa: bool)
    ensures
        executa == (config.limpeza.habilitada || traducao_esta_ligada(*config)),
{
    config.limpeza.habilitada || traducao_ligada(config)
}

/// O nome sob o qual a chave de API do provedor fica no Keyring.
pub open spec fn chave_do_provedor(provedor: ProvedorLimpeza) -> Seq<char> {
    match provedor {
        ProvedorLimpeza::Openai => PROVEDOR_OPENAI@,
        ProvedorLimpeza::Anthropic => PROVEDOR_ANTHROPIC@,
    }
}

pub fn nome_da_chave(provedor: ProvedorLimpeza) -> (nome: &'static str)
    ensures
        nome@ == chave_do_provedor(provedor),
{
    match provedor {
        ProvedorLimpeza::Openai => PROVEDOR_OPENAI,
        ProvedorLimpeza::Anthropic => PROVEDOR_ANTHROPIC,
    }
}

/// O nome do serviço do provedor nas mensagens ao usuário.
pub open spec fn servico_do_provedor(provedor: ProvedorLimpeza) -> Seq<char> {
    match provedor {
        ProvedorLimpeza::Openai => "OpenAI"@,
        ProvedorLimpeza::Anthropic => "Anthropic"@,
    }
}

pub fn nome_do_servico(provedor: ProvedorLimpeza) -> (nome: &'static str)
    ensures
        nome@ == servico_do_provedor(provedor),
{
    match provedor {
        ProvedorLimpeza::Openai => "OpenAI",
        ProvedorLimpeza::Anthropic => "Anthropic",
    }
}

/// A mensagem de falha de inicialização quando falta a chave de API do
/// serviço, instruindo a rodar `evervox set-key`.
pub fn mensagem_chave_ausente(servico: &str, chave: &str) -> (mensagem: String)
    ensures
        mensagem@ == "chave da "@ + servico@ + " ausente: rode `evervox set-key "@ + chave@ + "`"@,
{
    let mut mensagem = String::from_str("chave da ");
    mensagem.append(servico);
    mensagem.append(" ausente: rode `evervox set-key ");
    mensagem.append(chave);
    mensagem.append("`");
    mensagem
}

/// De onde o Daemon baixa os modelos GGML do whisper.cpp.
pub const URL_BASE_MODELOS: &'static str = "https://huggingface.co/ggerganov/whisper.cpp/resolve/main";

/// O arquivo do modelo `nome` (ex.: `base`, `small`): `ggml-{nome}.bin`.
pub open spec fn arquivo_do_modelo(nome: Seq<char>) -> Seq<char> {
    "ggml-"@ + nome + ".bin"@
}

pub fn nome_arquivo_modelo(nome: &str) -> (arquivo: String)
    ensures
        arquivo@ == arquivo_do_modelo(nome@),
{
    let mut arquivo = String::from_str("ggml-");
    arquivo.append(nome);
    arquivo.append(".bin");
    arquivo
}

/// O endereço de download do modelo `nome`.
pub fn url_modelo(nome: &str) -> (url: String)
    ensures
        url@ == URL_BASE_MODELOS@ + "/"@ + arquivo_do_modelo(nome@),
{
    let mut url = String::from_str(URL_BASE_MODELOS);
    url.append("/");
    let arquivo = nome_arquivo_modelo(nome);
    url.append(arquivo.as_str());
    url
}

} // verus!
