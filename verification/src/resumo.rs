//! Os textos que o Daemon mostra ao usuário: o resumo de `evervox status`,
//! as notificações do Ditado e a resposta do Toggle via D-Bus.

use vstd::prelude::*;
use crate::config::{Config, Engine};
use crate::nucleo::{estado_do_resultado, nome_do_estado, DitadoState, ErroMicrofone, ResultadoToggle};
use crate::preparo::{chave_do_provedor, nome_da_chave, traducao_esta_ligada, traducao_ligada};

verus! {

/// Tamanho máximo, em caracteres, do trecho da Transcrição exibido numa
/// notificação: notificações não são o lugar para o Ditado inteiro, e o
/// texto completo já está no clipboard.
pub const TAMANHO_MAXIMO_NA_NOTIFICACAO: usize = 80;

/// O trecho de um texto mostrado na notificação: o próprio texto se couber,
/// senão os primeiros caracteres seguidos de uma elipse.
pub open spec fn resumo_de(texto: Seq<char>) -> Seq<char> {
    if texto.len() <= TAMANHO_MAXIMO_NA_NOTIFICACAO {
        texto
    } else {
        texto.subrange(0, TAMANHO_MAXIMO_NA_NOTIFICACAO as int) + "…"@
    }
}

pub fn resumir_para_notificacao(texto: &str) -> (resumo: String)
    ensures
        resumo@ == resumo_de(texto@),
{
    if texto.unicode_len() <= TAMANHO_MAXIMO_NA_NOTIFICACAO {
        return String::from_str(texto);
    }
    let mut resumo = String::from_str(texto.substring_char(0, TAMANHO_MAXIMO_NA_NOTIFICACAO));
    resumo.append("…");
    resumo
}

/// Um resumo nunca passa do tamanho máximo mais a elipse, e um texto curto
/// fica intacto. Um texto longo é cortado no fim: o resumo é o começo do
/// texto, até o tamanho máximo, seguido da elipse.
pub proof fn lei_resumo_e_curto(texto: Seq<char>)
    ensures
        resumo_de(texto).len() <= TAMANHO_MAXIMO_NA_NOTIFICACAO + 1,
        texto.len() <= TAMANHO_MAXIMO_NA_NOTIFICACAO ==> resumo_de(texto) == texto,
        texto.len() > TAMANHO_MAXIMO_NA_NOTIFICACAO ==> {
            &&& resumo_de(texto).len() == TAMANHO_MAXIMO_NA_NOTIFICACAO + 1
            &&& resumo_de(texto).last() == '…'
            &&& forall|i: int|
                0 <= i < TAMANHO_MAXIMO_NA_NOTIFICACAO ==> #[trigger] resumo_de(texto)[i] == texto[i]
        },
{
    reveal_strlit("…");
}

/// A linha do Engine em `evervox status`.
pub open spec fn resumo_do_engine(config: Config) -> Seq<char> {
    match config.engine {
        Engine::Local => "engine: local (modelo '"@ + config.modelo_local@ + "', carregado)"@,
        Engine::Cloud => "engine: cloud (OpenAI)"@,
    }
}

pub fn resumir_engine(config: &Config) -> (resumo: String)
    ensures
        resumo@ == resumo_do_engine(*config),
{
    match config.engine {
        Engine::Local => {
            let mut resumo = String::from_str("engine: local (modelo '");
            resumo.append(config.modelo_local.as_str());
            resumo.append("', carregado)");
            resumo
        },
        Engine::Cloud => String::from_str("engine: cloud (OpenAI)"),
    }
}

/// A linha da Limpeza em `evervox status`.
pub open spec fn resumo_da_limpeza(config: Config) -> Seq<char> {
    if !config.limpeza.habilitada {
        "limpeza: desligada"@
    } else {
        "limpeza: ligada (provedor '"@ + chave_do_provedor(config.limpeza.provedor) + "', modelo '"@
            + config.limpeza.modelo@ + "')"@
    }
}

pub fn resumir_limpeza(config: &Config) -> (resumo: String)
    ensures
        resumo@ == resumo_da_limpeza(*config),
{
    if !config.limpeza.habilitada {
        return String::from_str("limpeza: desligada");
    }
    let mut resumo = String::from_str("limpeza: ligada (provedor '");
    resumo.append(nome_da_chave(config.limpeza.provedor));
    resumo.append("', modelo '");
    resumo.append(config.limpeza.modelo.as_str());
    resumo.append("')");
    resumo
}

/// A linha da Tradução em `evervox status`: ligada sempre que o Idioma de
/// saída difere do Idioma de entrada.
pub open spec fn resumo_da_traducao(config: Config) -> Seq<char> {
    if !traducao_esta_ligada(config) {
        "tradução: desligada"@
    } else {
        "tradução: ligada ("@ + config.idioma_entrada@ + " -> "@ + config.idioma_saida@ + ")"@
    }
}

pub fn resumir_traducao(config: &Config) -> (resumo: String)
    ensures
        resumo@ == resumo_da_traducao(*config),
{
    if !traducao_ligada(config) {
        return String::from_str("tradução: desligada");
    }
    let mut resumo = String::from_str("tradução: ligada (");
    resumo.append(config.idioma_entrada.as_str());
    resumo.append(" -> ");
    resumo.append(config.idioma_saida.as_str());
    resumo.append(")");
    resumo
}

/// O resumo de saúde devolvido pelo método `Status` do Daemon: as linhas do
/// Engine, da Limpeza e da Tradução.
pub fn resumo_status(engine: &str, limpeza: &str, traducao: &str) -> (resumo: String)
    ensures
        resumo@ == engine@ + "\n"@ + limpeza@ + "\n"@ + traducao@,
{
    let mut resumo = String::from_str(engine);
    resumo.append("\n");
    resumo.append(limpeza);
    resumo.append("\n");
    resumo.append(traducao);
    resumo
}

/// A notificação de Ditado concluído.
pub fn mensagem_conclusao(texto: &str) -> (mensagem: String)
    ensures
        mensagem@ == "Ditado concluído: \""@ + resumo_de(texto@) + "\""@,
{
    let resumo = resumir_para_notificacao(texto);
    let mut mensagem = String::from_str("Ditado concluído: \"");
    mensagem.append(resumo.as_str());
    mensagem.append("\"");
    mensagem
}

/// A notificação de quando o colar automático falhou e o texto ficou no
/// clipboard.
pub fn mensagem_sem_colar(texto: &str) -> (mensagem: String)
    ensures
        mensagem@ == "Não foi possível colar automaticamente: \""@ + resumo_de(texto@)
            + "\" está no clipboard, cole com Ctrl+V."@,
{
    let resumo = resumir_para_notificacao(texto);
    let mut mensagem = String::from_str("Não foi possível colar automaticamente: \"");
    mensagem.append(resumo.as_str());
    mensagem.append("\" está no clipboard, cole com Ctrl+V.");
    mensagem
}

/// A notificação de falha do Ditado.
pub fn mensagem_falha(detalhe: &str) -> (mensagem: String)
    ensures
        mensagem@ == "O Ditado falhou: "@ + detalhe@,
{
    let mut mensagem = String::from_str("O Ditado falhou: ");
    mensagem.append(detalhe);
    mensagem
}

/// O estado que o método `Toggle` do Daemon responde: o estado anunciado
/// pelo Toggle, ou Ocioso quando o microfone não abriu.
pub open spec fn estado_respondido(resultado: Result<ResultadoToggle, ErroMicrofone>) -> DitadoState {
    match resultado {
        Ok(r) => estado_do_resultado(r),
        Err(_) => DitadoState::Ocioso,
    }
}

pub fn resposta_do_toggle(resultado: &Result<ResultadoToggle, ErroMicrofone>) -> (resposta: &'static str)
    ensures
        resposta@ == nome_do_estado(estado_respondido(*resultado)),
{
    match resultado {
        Ok(r) => r.estado().as_str(),
        Err(_) => DitadoState::Ocioso.as_str(),
    }
}

/// A situação da chave de API de um provedor no Keyring, para
/// `evervox status`.
#[derive(Debug, Clone, Copy, PartialEq, Eq, Structural)]
pub enum SituacaoChave {
    Salva,
    NaoConfigurada,
    ErroNoKeyring,
}

impl SituacaoChave {
    pub fn rotulo(&self) -> (rotulo: &'static str)
        ensures
            rotulo@ == match *self {
                SituacaoChave::Salva => "salva"@,
                SituacaoChave::NaoConfigurada => "não configurada"@,
                SituacaoChave::ErroNoKeyring => "erro ao consultar o Keyring"@,
            },
    {
        match self {
            SituacaoChave::Salva => "salva",
            SituacaoChave::NaoConfigurada => "não configurada",
            SituacaoChave::ErroNoKeyring => "erro ao consultar o Keyring",
        }
    }
}

} // verus!
