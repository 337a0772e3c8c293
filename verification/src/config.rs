//! Config do Daemon: Engine, idiomas, modelo local, Limpeza, Vocabulário e
//! terminais conhecidos. Criada com os defaults na primeira execução; o
//! Daemon lê o arquivo, e aqui se decide o que fazer com o que foi lido.

use vstd::prelude::*;

verus! {

/// O motor de STT escolhido por configuração estática.
#[derive(Debug, Clone, Copy, PartialEq, Eq, Structural)]
pub enum Engine {
    Local,
    Cloud,
}

/// O provedor de LLM da Limpeza (e da Tradução).
#[derive(Debug, Clone, Copy, PartialEq, Eq, Structural)]
pub enum ProvedorLimpeza {
    Openai,
    Anthropic,
}

/// A seção `[limpeza]` da config.
#[derive(Debug, Clone, PartialEq)]
pub struct LimpezaConfig {
    pub habilitada: bool,
    pub provedor: ProvedorLimpeza,
    pub modelo: String,
    pub instrucoes: String,
    pub pontuacao_falada: bool,
    pub timeout_ms: u64,
}

#[derive(Debug, Clone, PartialEq)]
pub struct Config {
    pub idioma_entrada: String,
    pub idioma_saida: String,
    pub modelo_local: String,
    pub engine: Engine,
    pub limpeza: LimpezaConfig,
    pub vocabulario: Vec<String>,
    pub terminais_conhecidos: Vec<String>,
}

/// Os terminais conhecidos por padrão: apps em que colar é `Ctrl+Shift+V`.
pub open spec fn terminais_padrao() -> Seq<Seq<char>> {
    seq!["gnome-terminal-server"@, "org.gnome.Console"@, "kitty"@, "Alacritty"@, "tilix"@]
}

/// Os valores da seção `[limpeza]` quando o arquivo não diz nada: Limpeza
/// desligada, OpenAI `gpt-4o-mini`, Pontuação falada ligada e 4000 ms de
/// timeout.
pub open spec fn e_limpeza_padrao(limpeza: LimpezaConfig) -> bool {
    &&& !limpeza.habilitada
    &&& limpeza.provedor == ProvedorLimpeza::Openai
    &&& limpeza.modelo@ == "gpt-4o-mini"@
    &&& limpeza.instrucoes@ == Seq::<char>::empty()
    &&& limpeza.pontuacao_falada
    &&& limpeza.timeout_ms == 4000
}

/// A config de fábrica: Engine local com o modelo `base`, português na
/// entrada e na saída (sem Tradução), Limpeza desligada, sem Vocabulário.
pub open spec fn e_config_padrao(config: Config) -> bool {
    &&& config.idioma_entrada@ == "pt"@
    &&& config.idioma_saida@ == "pt"@
    &&& config.modelo_local@ == "base"@
    &&& config.engine == Engine::Local
    &&& e_limpeza_padrao(config.limpeza)
    &&& config.vocabulario@ == Seq::<String>::empty()
    &&& config.terminais_conhecidos@.map_values(|t: String| t@) == terminais_padrao()
}

impl Default for LimpezaConfig {
    fn default() -> (limpeza: Self)
        ensures
            e_limpeza_padrao(limpeza),
    {
        LimpezaConfig {
            habilitada: false,
            provedor: ProvedorLimpeza::Openai,
            modelo: String::from_str("gpt-4o-mini"),
            instrucoes: String::new(),
            pontuacao_falada: true,
            timeout_ms: 4000,
        }
    }
}

impl Default for Config {
    fn default() -> (config: Self)
        ensures
            e_config_padrao(config),
    {
        let terminais = vec![
            String::from_str("gnome-terminal-server"),
            String::from_str("org.gnome.Console"),
            String::from_str("kitty"),
            String::from_str("Alacritty"),
            String::from_str("tilix"),
        ];
        assert(terminais@.map_values(|t: String| t@) =~= terminais_padrao());
        Config {
            idioma_entrada: String::from_str("pt"),
            idioma_saida: String::from_str("pt"),
            modelo_local: String::from_str("base"),
            engine: Engine::Local,
            limpeza: LimpezaConfig::default(),
            vocabulario: Vec::new(),
            terminais_conhecidos: terminais,
        }
    }
}

/// Falha ao ler a config: o arquivo existe mas não é uma config válida.
#[derive(Debug, Clone, PartialEq, Eq)]
pub struct ErroConfig(pub String);

/// O que resulta de carregar a config: a config em vigor, e se o Daemon
/// deve gravá-la em disco (quando o arquivo ainda não existia).
#[derive(Debug, Clone, PartialEq)]
pub struct CargaConfig {
    pub config: Config,
    pub gravar_no_disco: bool,
}

/// Decide a config a partir do que o Daemon leu do disco: `None` quando o
/// arquivo não pôde ser lido (ainda não existe), `Some(Ok(..))` com a config
/// lida, `Some(Err(..))` com o motivo de o arquivo não ser uma config
/// válida. Sem arquivo, vale a config de fábrica, que deve então ser gravada.
pub fn carregar_ou_criar(lido: Option<Result<Config, String>>) -> (carga: Result<CargaConfig, ErroConfig>)
    ensures
        lido is None ==> (carga matches Ok(c) && e_config_padrao(c.config) && c.gravar_no_disco),
        lido matches Some(Ok(config)) ==> carga == Ok::<CargaConfig, ErroConfig>(
            CargaConfig { config, gravar_no_disco: false },
        ),
        lido matches Some(Err(motivo)) ==> carga == Err::<CargaConfig, ErroConfig>(ErroConfig(motivo)),
{
    match lido {
        None => Ok(CargaConfig { config: Config::default(), gravar_no_disco: true }),
        Some(Ok(config)) => Ok(CargaConfig { config, gravar_no_disco: false }),
        Some(Err(motivo)) => Err(ErroConfig(motivo)),
    }
}

} // verus!
