use evervox::config::{Config, Engine, ProvedorLimpeza};
use evervox::limpeza::{ContextoLimpeza, Instrucao};
use evervox::nucleo::{AudioGravado, ErroMicrofone, ResultadoToggle};
use evervox::preparo::{
    contexto_limpeza, instrucao_llm, limpeza_executa, mensagem_chave_ausente, nome_arquivo_modelo,
    nome_da_chave, nome_do_servico, planejar_limpeza, traducao_ligada, url_modelo, PlanoLimpeza,
};
use evervox::resumo::{
    mensagem_conclusao, mensagem_falha, mensagem_sem_colar, resposta_do_toggle,
    resumir_engine, resumir_limpeza, resumir_para_notificacao, resumir_traducao, resumo_status,
    SituacaoChave, TAMANHO_MAXIMO_NA_NOTIFICACAO,
};

#[test]
fn resumo_curto_fica_intacto() {
    assert_eq!(resumir_para_notificacao("oi mundo"), "oi mundo");
}

#[test]
fn resumo_longo_e_truncado_com_elipse() {
    let texto = "a".repeat(TAMANHO_MAXIMO_NA_NOTIFICACAO + 10);
    let resumo = resumir_para_notificacao(&texto);
    assert_eq!(
        resumo.chars().count(),
        TAMANHO_MAXIMO_NA_NOTIFICACAO + 1 // +1 pelo caractere de elipse
    );
    assert!(resumo.ends_with('…'));
}

fn config_com_idiomas(entrada: &str, saida: &str) -> Config {
    Config {
        idioma_entrada: entrada.to_string(),
        idioma_saida: saida.to_string(),
        ..Config::default()
    }
}

#[test]
fn traducao_desligada_quando_idiomas_sao_iguais() {
    assert!(!traducao_ligada(&config_com_idiomas("pt", "pt")));
}

#[test]
fn traducao_ligada_quando_idiomas_diferem() {
    assert!(traducao_ligada(&config_com_idiomas("pt", "en")));
}

#[test]
fn resumo_de_traducao_desligada() {
    assert_eq!(
        resumir_traducao(&config_com_idiomas("pt", "pt")),
        "tradução: desligada"
    );
}

#[test]
fn resumo_de_traducao_ligada_mostra_o_par_de_idiomas() {
    assert_eq!(
        resumir_traducao(&config_com_idiomas("pt", "en")),
        "tradução: ligada (pt -> en)"
    );
}

#[test]
fn instrucao_traduzir_quando_so_a_traducao_esta_ligada() {
    let config = config_com_idiomas("pt", "en");

    let instrucao = instrucao_llm(&config, false, true);

    assert_eq!(
        instrucao,
        Instrucao::Traduzir {
            idioma_saida: "en".to_string()
        }
    );
}

#[test]
fn instrucao_limpar_quando_so_a_limpeza_esta_ligada() {
    let config = config_com_idiomas("pt", "pt");

    let instrucao = instrucao_llm(&config, true, false);

    assert_eq!(instrucao, Instrucao::Limpar(contexto_limpeza(&config)));
}

#[test]
fn instrucao_funde_limpeza_e_traducao_quando_ambas_ligadas() {
    let config = config_com_idiomas("pt", "en");

    let instrucao = instrucao_llm(&config, true, true);

    assert_eq!(
        instrucao,
        Instrucao::LimparETraduzir {
            contexto: contexto_limpeza(&config),
            idioma_saida: "en".to_string(),
        }
    );
}

#[test]
fn contexto_vem_da_secao_limpeza_e_do_vocabulario() {
    let mut config = Config::default();
    config.limpeza.instrucoes = "expanda siglas".to_string();
    config.limpeza.pontuacao_falada = false;
    config.vocabulario = vec!["EverVox".to_string()];
    assert_eq!(
        contexto_limpeza(&config),
        ContextoLimpeza {
            instrucoes: "expanda siglas".to_string(),
            vocabulario: vec!["EverVox".to_string()],
            pontuacao_falada: false,
        }
    );
}

#[test]
fn limpeza_e_traducao_desligadas_nao_exigem_chamada() {
    let config = Config::default();
    assert_eq!(planejar_limpeza(&config), PlanoLimpeza::Desativada);
    assert!(!limpeza_executa(&config));
}

#[test]
fn plano_usa_o_provedor_da_limpeza_inclusive_para_so_traduzir() {
    let mut config = config_com_idiomas("pt", "en");
    config.limpeza.provedor = ProvedorLimpeza::Anthropic;
    assert!(limpeza_executa(&config));
    assert_eq!(
        planejar_limpeza(&config),
        PlanoLimpeza::Chamar {
            provedor: ProvedorLimpeza::Anthropic,
            instrucao: Instrucao::Traduzir {
                idioma_saida: "en".to_string()
            },
        }
    );
    config.limpeza.habilitada = true;
    assert_eq!(
        planejar_limpeza(&config),
        PlanoLimpeza::Chamar {
            provedor: ProvedorLimpeza::Anthropic,
            instrucao: Instrucao::LimparETraduzir {
                contexto: contexto_limpeza(&config),
                idioma_saida: "en".to_string(),
            },
        }
    );
}

#[test]
fn chaves_e_servicos_dos_provedores() {
    assert_eq!(nome_da_chave(ProvedorLimpeza::Openai), "openai");
    assert_eq!(nome_da_chave(ProvedorLimpeza::Anthropic), "anthropic");
    assert_eq!(nome_do_servico(ProvedorLimpeza::Anthropic), "Anthropic");
    assert_eq!(
        mensagem_chave_ausente("OpenAI", "openai"),
        "chave da OpenAI ausente: rode `evervox set-key openai`"
    );
}

#[test]
fn arquivo_e_url_do_modelo() {
    assert_eq!(nome_arquivo_modelo("base"), "ggml-base.bin");
    assert_eq!(
        url_modelo("small"),
        "https://huggingface.co/ggerganov/whisper.cpp/resolve/main/ggml-small.bin"
    );
}

#[test]
fn resumos_de_engine_e_limpeza() {
    let mut config = Config::default();
    assert_eq!(
        resumir_engine(&config),
        "engine: local (modelo 'base', carregado)"
    );
    config.engine = Engine::Cloud;
    assert_eq!(resumir_engine(&config), "engine: cloud (OpenAI)");
    assert_eq!(resumir_limpeza(&config), "limpeza: desligada");
    config.limpeza.habilitada = true;
    config.limpeza.provedor = ProvedorLimpeza::Anthropic;
    config.limpeza.modelo = "haiku-rapido".to_string();
    assert_eq!(
        resumir_limpeza(&config),
        "limpeza: ligada (provedor 'anthropic', modelo 'haiku-rapido')"
    );
    assert_eq!(resumo_status("a", "b", "c"), "a\nb\nc");
}

#[test]
fn mensagens_de_notificacao() {
    assert_eq!(mensagem_conclusao("oi"), "Ditado concluído: \"oi\"");
    assert_eq!(
        mensagem_sem_colar("oi"),
        "Não foi possível colar automaticamente: \"oi\" está no clipboard, cole com Ctrl+V."
    );
    assert_eq!(mensagem_falha("sem rede"), "O Ditado falhou: sem rede");
    let longo = "b".repeat(100);
    assert_eq!(
        mensagem_conclusao(&longo),
        format!("Ditado concluído: \"{}…\"", "b".repeat(80))
    );
}

#[test]
fn resposta_do_toggle_segue_o_estado() {
    assert_eq!(resposta_do_toggle(&Ok(ResultadoToggle::Gravando)), "gravando");
    let audio = AudioGravado {
        amostras: vec![],
        taxa_amostragem_hz: 16_000,
    };
    assert_eq!(
        resposta_do_toggle(&Ok(ResultadoToggle::Ocioso { audio })),
        "ocioso"
    );
    assert_eq!(
        resposta_do_toggle(&Err(ErroMicrofone("x".to_string()))),
        "ocioso"
    );
}

#[test]
fn rotulos_da_situacao_da_chave() {
    assert_eq!(SituacaoChave::Salva.rotulo(), "salva");
    assert_eq!(SituacaoChave::NaoConfigurada.rotulo(), "não configurada");
    assert_eq!(
        SituacaoChave::ErroNoKeyring.rotulo(),
        "erro ao consultar o Keyring"
    );
}
