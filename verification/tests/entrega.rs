use evervox::entrega::{e_ditado_silencioso, texto_para_entrega, TextoParaEntrega};
use evervox::limpeza::ErroLimpeza;
use evervox::texto::{aparar, iguais_sem_caixa, juntar};

#[test]
fn limpeza_bem_sucedida_entrega_o_texto_limpo() {
    let entrega = texto_para_entrega("éé oi mundo".to_string(), Some(Ok("Oi, mundo.".to_string())));
    assert_eq!(
        entrega,
        TextoParaEntrega {
            texto: "Oi, mundo.".to_string(),
            aviso: None
        }
    );
}

#[test]
fn falha_da_limpeza_entrega_a_transcricao_crua_com_aviso() {
    let entrega = texto_para_entrega(
        "éé oi mundo".to_string(),
        Some(Err(ErroLimpeza("falha de rede ao chamar a API da OpenAI: timeout".to_string()))),
    );
    assert_eq!(entrega.texto, "éé oi mundo");
    assert_eq!(
        entrega.aviso.as_deref(),
        Some("A Limpeza falhou, a Transcrição crua foi entregue: falha de rede ao chamar a API da OpenAI: timeout")
    );
}

#[test]
fn limpeza_nao_executada_entrega_a_transcricao_crua() {
    let entrega = texto_para_entrega("oi".to_string(), None);
    assert_eq!(entrega.texto, "oi");
    assert_eq!(entrega.aviso, None);
}

#[test]
fn ditado_silencioso_e_o_que_so_tem_espacos() {
    assert!(e_ditado_silencioso(""));
    assert!(e_ditado_silencioso(" \n\t\u{3000}"));
    assert!(!e_ditado_silencioso(" oi "));
}

#[test]
fn operacoes_de_texto() {
    assert_eq!(aparar("\u{a0} oi  mundo \u{2003}"), "oi  mundo");
    assert_eq!(aparar("   "), "");
    assert_eq!(juntar(&[], ", "), "");
    assert_eq!(juntar(&["a".to_string()], ", "), "a");
    assert_eq!(juntar(&["a".to_string(), "b".to_string(), "c".to_string()], "-"), "a-b-c");
    assert!(iguais_sem_caixa("GNOME-Shell", "gnome-shell"));
    assert!(!iguais_sem_caixa("gnome", "gnomes"));
}
