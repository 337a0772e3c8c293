use evervox::nucleo::{
    juntar_blocos, AudioGravado, DitadoState, ErroMicrofone, Feedback, FonteDeAudio, Machine,
    ResultadoToggle, TAXA_AMOSTRAGEM_HZ,
};

#[derive(Debug, PartialEq, Eq)]
enum Event {
    Iniciou,
    Encerrou,
}

#[derive(Default)]
struct FakeFeedback {
    events: Vec<Event>,
}

impl Feedback for FakeFeedback {
    fn iniciou_gravacao(&mut self) {
        self.events.push(Event::Iniciou);
    }

    fn encerrou_gravacao(&mut self) {
        self.events.push(Event::Encerrou);
    }
}

/// Fonte de áudio fake: entrega os blocos de amostras pré-programados ao
/// encerrar, simulando o que o dispositivo real produziria ao longo da
/// Gravação. Pode ser configurada para falhar, simulando um microfone
/// indisponível.
#[derive(Default)]
struct FakeFonteDeAudio {
    blocos: Vec<Vec<i16>>,
    falha: Option<String>,
}

impl FonteDeAudio for FakeFonteDeAudio {
    fn iniciar(&mut self) -> Result<(), ErroMicrofone> {
        if let Some(motivo) = &self.falha {
            return Err(ErroMicrofone(motivo.clone()));
        }
        Ok(())
    }

    fn encerrar(&mut self) -> Vec<Vec<i16>> {
        self.blocos.clone()
    }
}

fn nova_machine(fonte: FakeFonteDeAudio) -> Machine<FakeFeedback, FakeFonteDeAudio> {
    Machine::new(FakeFeedback::default(), fonte)
}

#[test]
fn comeca_ocioso() {
    let machine = nova_machine(FakeFonteDeAudio::default());
    assert_eq!(machine.state(), DitadoState::Ocioso);
}

#[test]
fn primeiro_toggle_inicia_gravacao_e_notifica() {
    let mut machine = nova_machine(FakeFonteDeAudio::default());

    let resultado = machine.toggle().unwrap();

    assert_eq!(resultado, ResultadoToggle::Gravando);
    assert_eq!(machine.feedback().events, vec![Event::Iniciou]);
}

#[test]
fn toggle_duplo_alterna_estados_e_volta_ao_ocioso() {
    let mut machine = nova_machine(FakeFonteDeAudio::default());

    let apos_primeiro = machine.toggle().unwrap();
    let apos_segundo = machine.toggle().unwrap();

    assert_eq!(apos_primeiro.estado(), DitadoState::Gravando);
    assert_eq!(apos_segundo.estado(), DitadoState::Ocioso);
    assert_eq!(
        machine.feedback().events,
        vec![Event::Iniciou, Event::Encerrou]
    );
}

#[test]
fn tres_toggles_termina_gravando() {
    let mut machine = nova_machine(FakeFonteDeAudio::default());

    machine.toggle().unwrap();
    machine.toggle().unwrap();
    let terceiro = machine.toggle().unwrap();

    assert_eq!(terceiro.estado(), DitadoState::Gravando);
    assert_eq!(
        machine.feedback().events,
        vec![Event::Iniciou, Event::Encerrou, Event::Iniciou]
    );
}

#[test]
fn ao_encerrar_o_audio_completo_chega_a_proxima_etapa() {
    let fonte = FakeFonteDeAudio {
        blocos: vec![vec![1, 2, 3], vec![4, 5]],
        falha: None,
    };
    let mut machine = nova_machine(fonte);

    machine.toggle().unwrap(); // inicia a gravação
    let resultado = machine.toggle().unwrap(); // encerra: a fonte entrega os blocos

    match resultado {
        ResultadoToggle::Ocioso { audio } => {
            assert_eq!(audio.amostras, vec![1, 2, 3, 4, 5]);
            assert_eq!(audio.taxa_amostragem_hz, TAXA_AMOSTRAGEM_HZ);
        }
        other => panic!("esperava Ocioso com áudio, obteve {other:?}"),
    }
}

#[test]
fn falha_de_microfone_mantem_ocioso_e_nao_notifica() {
    let fonte = FakeFonteDeAudio {
        blocos: vec![],
        falha: Some("dispositivo indisponível".to_string()),
    };
    let mut machine = nova_machine(fonte);

    let erro = machine.toggle().unwrap_err();

    assert_eq!(erro, ErroMicrofone("dispositivo indisponível".to_string()));
    assert_eq!(machine.state(), DitadoState::Ocioso);
    assert!(machine.feedback().events.is_empty());
}

#[test]
fn as_str_nomeia_os_estados_do_overlay() {
    assert_eq!(DitadoState::Ocioso.as_str(), "ocioso");
    assert_eq!(DitadoState::Gravando.as_str(), "gravando");
}

#[test]
fn mensagem_do_erro_de_microfone() {
    let erro = ErroMicrofone("sem dispositivo".to_string());
    assert_eq!(erro.mensagem(), "microfone indisponível: sem dispositivo");
}

#[test]
fn juntar_blocos_concatena_em_ordem() {
    assert_eq!(juntar_blocos(&vec![]), Vec::<i16>::new());
    assert_eq!(juntar_blocos(&vec![vec![], vec![7]]), vec![7]);
    assert_eq!(
        juntar_blocos(&vec![vec![1, 2], vec![], vec![3], vec![4, 5, 6]]),
        vec![1, 2, 3, 4, 5, 6]
    );
}

#[test]
fn quatro_toggles_voltam_ao_ocioso_com_avisos_alternados() {
    let fonte = FakeFonteDeAudio {
        blocos: vec![vec![9]],
        falha: None,
    };
    let mut machine = nova_machine(fonte);
    for _ in 0..4 {
        machine.toggle().unwrap();
    }
    assert_eq!(machine.state(), DitadoState::Ocioso);
    assert_eq!(
        machine.feedback().events,
        vec![Event::Iniciou, Event::Encerrou, Event::Iniciou, Event::Encerrou]
    );
}

#[test]
fn nova_gravacao_entrega_apenas_os_blocos_dela() {
    let mut machine = nova_machine(FakeFonteDeAudio {
        blocos: vec![vec![1]],
        falha: None,
    });
    machine.toggle().unwrap();
    let primeiro = machine.toggle().unwrap();
    machine.toggle().unwrap();
    let segundo = machine.toggle().unwrap();
    let esperado = ResultadoToggle::Ocioso {
        audio: AudioGravado {
            amostras: vec![1],
            taxa_amostragem_hz: TAXA_AMOSTRAGEM_HZ,
        },
    };
    assert_eq!(primeiro, esperado);
    assert_eq!(segundo, esperado);
}
