use evervox::limpeza::ErroLimpeza;
use evervox::pipeline::{proximo_passo, AcaoDitado, EtapaDitado, EventoDitado, Passo};

#[test]
fn falha_do_engine_encerra_com_aviso_de_falha() {
    let passo = proximo_passo(
        EtapaDitado::Transcrevendo { limpar: true },
        EventoDitado::Transcrito(Err("sem rede".to_string())),
    );
    assert_eq!(
        passo,
        Passo {
            etapa: EtapaDitado::Concluido,
            acao: AcaoDitado::AvisarFalha { mensagem: "sem rede".to_string() },
        }
    );
}

#[test]
fn transcricao_em_branco_encerra_como_silencio() {
    let passo = proximo_passo(
        EtapaDitado::Transcrevendo { limpar: true },
        EventoDitado::Transcrito(Ok("  \n ".to_string())),
    );
    assert_eq!(passo.etapa, EtapaDitado::Concluido);
    assert_eq!(passo.acao, AcaoDitado::AvisarSilencio);
}

#[test]
fn com_limpeza_ligada_a_transcricao_vai_para_a_limpeza() {
    let passo = proximo_passo(
        EtapaDitado::Transcrevendo { limpar: true },
        EventoDitado::Transcrito(Ok("olá mundo".to_string())),
    );
    assert_eq!(passo.etapa, EtapaDitado::Limpando { crua: "olá mundo".to_string() });
    assert_eq!(passo.acao, AcaoDitado::Limpar { texto: "olá mundo".to_string() });
}

#[test]
fn com_limpeza_desligada_a_transcricao_crua_e_entregue() {
    let passo = proximo_passo(
        EtapaDitado::Transcrevendo { limpar: false },
        EventoDitado::Transcrito(Ok("olá mundo".to_string())),
    );
    assert_eq!(passo.etapa, EtapaDitado::Entregando { texto: "olá mundo".to_string() });
    assert_eq!(
        passo.acao,
        AcaoDitado::Entregar { texto: "olá mundo".to_string(), aviso: None }
    );
}

#[test]
fn apos_limpeza_bem_sucedida_o_passo_entrega_o_limpo() {
    let passo = proximo_passo(
        EtapaDitado::Limpando { crua: "é tipo olá".to_string() },
        EventoDitado::Limpo(Ok("Olá.".to_string())),
    );
    assert_eq!(passo.etapa, EtapaDitado::Entregando { texto: "Olá.".to_string() });
    assert_eq!(passo.acao, AcaoDitado::Entregar { texto: "Olá.".to_string(), aviso: None });
}

#[test]
fn falha_da_limpeza_entrega_a_crua_com_aviso() {
    let passo = proximo_passo(
        EtapaDitado::Limpando { crua: "é tipo olá".to_string() },
        EventoDitado::Limpo(Err(ErroLimpeza("timeout".to_string()))),
    );
    assert_eq!(passo.etapa, EtapaDitado::Entregando { texto: "é tipo olá".to_string() });
    assert_eq!(
        passo.acao,
        AcaoDitado::Entregar {
            texto: "é tipo olá".to_string(),
            aviso: Some("A Limpeza falhou, a Transcrição crua foi entregue: timeout".to_string()),
        }
    );
}

#[test]
fn entrega_bem_sucedida_conclui_o_ditado() {
    let passo = proximo_passo(
        EtapaDitado::Entregando { texto: "Olá.".to_string() },
        EventoDitado::Entregue(Ok(())),
    );
    assert_eq!(passo.etapa, EtapaDitado::Concluido);
    assert_eq!(passo.acao, AcaoDitado::AvisarConclusao { texto: "Olá.".to_string() });
}

#[test]
fn falha_da_entrega_encerra_com_aviso_de_falha() {
    let passo = proximo_passo(
        EtapaDitado::Entregando { texto: "Olá.".to_string() },
        EventoDitado::Entregue(Err("wl-copy ausente".to_string())),
    );
    assert_eq!(passo.etapa, EtapaDitado::Concluido);
    assert_eq!(passo.acao, AcaoDitado::AvisarFalha { mensagem: "wl-copy ausente".to_string() });
}

#[test]
fn ditado_concluido_ignora_eventos() {
    let passo = proximo_passo(EtapaDitado::Concluido, EventoDitado::Entregue(Ok(())));
    assert_eq!(passo.etapa, EtapaDitado::Concluido);
    assert_eq!(passo.acao, AcaoDitado::Nenhuma);
}

#[test]
fn evento_fora_da_etapa_nao_muda_nada() {
    let etapa = EtapaDitado::Limpando { crua: "oi".to_string() };
    let passo = proximo_passo(etapa.clone(), EventoDitado::Entregue(Ok(())));
    assert_eq!(passo.etapa, etapa);
    assert_eq!(passo.acao, AcaoDitado::Nenhuma);
}
