use evervox::limpeza::{
    mensagem_falha_de_rede, mensagem_recusa, primeira_resposta, prompt_instrucao, prompt_sistema,
    ContextoLimpeza, ErroLimpeza, Instrucao, Limpeza, LimpezaDesativada, PROMPT_BASE,
};

#[test]
fn prompt_de_sistema_inclui_instrucoes_vocabulario_e_pontuacao_falada() {
    let contexto = ContextoLimpeza {
        instrucoes: "expanda siglas".to_string(),
        vocabulario: vec!["EverVox".to_string(), "GNOME".to_string()],
        pontuacao_falada: true,
    };

    let prompt = prompt_sistema(&contexto);

    assert!(prompt.contains("expanda siglas"));
    assert!(prompt.contains("EverVox, GNOME"));
    assert!(prompt.contains("vírgula"));
    assert!(prompt.contains("Nunca parafraseia"));
}

#[test]
fn prompt_de_sistema_sem_pontuacao_falada_instrui_a_nao_converter() {
    let contexto = ContextoLimpeza {
        pontuacao_falada: false,
        ..ContextoLimpeza::default()
    };

    let prompt = prompt_sistema(&contexto);

    assert!(prompt.contains("Não converta palavras de pontuação faladas"));
}

#[test]
fn limpeza_desativada_devolve_o_texto_intacto() {
    let texto = LimpezaDesativada.limpar("oi mundo").unwrap();
    assert_eq!(texto, "oi mundo");
}

#[test]
fn prompt_apara_instrucoes_e_omite_secoes_vazias() {
    let contexto = ContextoLimpeza {
        instrucoes: "  \t mantenha tom informal \n".to_string(),
        vocabulario: vec![],
        pontuacao_falada: false,
    };
    let prompt = prompt_sistema(&contexto);
    assert!(prompt.starts_with(PROMPT_BASE));
    assert!(prompt.contains("Instruções adicionais do usuário: mantenha tom informal\n\nNão converta"));
    assert!(!prompt.contains("Vocabulário do usuário"));

    let so_espacos = ContextoLimpeza {
        instrucoes: "   ".to_string(),
        ..ContextoLimpeza::default()
    };
    assert!(!prompt_sistema(&so_espacos).contains("Instruções adicionais"));
}

#[test]
fn prompt_exato_sem_instrucoes_nem_vocabulario() {
    let contexto = ContextoLimpeza {
        pontuacao_falada: true,
        ..ContextoLimpeza::default()
    };
    let esperado = format!(
        "{PROMPT_BASE}\n\nConverta pontuação falada em caracteres: \"vírgula\" -> \",\", \"ponto\" -> \".\", \"ponto de interrogação\" -> \"?\", \"ponto de exclamação\" -> \"!\", \"dois pontos\" -> \":\", \"nova linha\" -> quebra de linha."
    );
    assert_eq!(prompt_sistema(&contexto), esperado);
}

#[test]
fn instrucao_de_traducao_nomeia_o_idioma_de_saida() {
    let prompt = prompt_instrucao(&Instrucao::Traduzir {
        idioma_saida: "en".to_string(),
    });
    assert!(prompt.contains("\"en\""));
    assert!(!prompt.starts_with(PROMPT_BASE));
}

#[test]
fn instrucao_fundida_limpa_e_traduz() {
    let contexto = ContextoLimpeza::default();
    let prompt = prompt_instrucao(&Instrucao::LimparETraduzir {
        contexto: contexto.clone(),
        idioma_saida: "en".to_string(),
    });
    assert!(prompt.starts_with(&prompt_sistema(&contexto)));
    assert!(prompt.contains("traduza o texto limpo para o idioma de código \"en\""));
    assert_eq!(
        prompt_instrucao(&Instrucao::Limpar(contexto.clone())),
        prompt_sistema(&contexto)
    );
}

#[test]
fn mensagens_de_erro_da_limpeza() {
    assert_eq!(
        mensagem_falha_de_rede("OpenAI", "timed out"),
        "falha de rede ao chamar a API da OpenAI: timed out"
    );
    let recusa = mensagem_recusa("Anthropic", "401 Unauthorized", "{\"error\":\"invalid_api_key\"}");
    assert_eq!(
        recusa,
        "API da Anthropic recusou a limpeza (401 Unauthorized): {\"error\":\"invalid_api_key\"}"
    );
    assert!(recusa.contains("401"));
}

#[test]
fn primeira_resposta_escolhe_o_primeiro_conteudo() {
    assert_eq!(
        primeira_resposta("OpenAI", vec!["Oi, mundo.".to_string(), "outro".to_string()]),
        Ok("Oi, mundo.".to_string())
    );
    assert_eq!(
        primeira_resposta("OpenAI", vec![]),
        Err(ErroLimpeza("resposta da API da OpenAI sem conteúdo".to_string()))
    );
}
