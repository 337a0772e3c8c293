//! Núcleo do Ditado: a máquina de estados acionada pelo Toggle.
//!
//! O núcleo conhece Ocioso <-> Gravando e a captura de áudio da Gravação.
//! As portas de feedback (som, notificação) e de captura de áudio (o
//! microfone) são traits implementadas fora do núcleo.

use vstd::prelude::*;

verus! {

/// Taxa de amostragem exigida do áudio do Ditado: formato adequado para STT.
pub const TAXA_AMOSTRAGEM_HZ: u32 = 16000;

/// Estado do Ditado visto pelo Toggle.
#[derive(Debug, Clone, Copy, PartialEq, Eq, Structural)]
pub enum DitadoState {
    Ocioso,
    Gravando,
}

/// Nome do estado como publicado no sinal D-Bus do Overlay.
pub open spec fn nome_do_estado(estado: DitadoState) -> Seq<char> {
    match estado {
        DitadoState::Ocioso => "ocioso"@,
        DitadoState::Gravando => "gravando"@,
    }
}

impl DitadoState {
    pub fn as_str(&self) -> (nome: &'static str)
        ensures
            nome@ == nome_do_estado(*self),
    {
        match self {
            DitadoState::Ocioso => "ocioso",
            DitadoState::Gravando => "gravando",
        }
    }
}

/// Os dois nomes de estado são distintos: o Overlay nunca confunde um com o
/// outro.
pub proof fn lei_nomes_de_estado_distintos()
    ensures
        nome_do_estado(DitadoState::Ocioso) != nome_do_estado(DitadoState::Gravando),
{
    reveal_strlit("ocioso");
    reveal_strlit("gravando");
    assert(nome_do_estado(DitadoState::Ocioso).len() != nome_do_estado(DitadoState::Gravando).len());
}

/// Porta de feedback sensorial do Ditado (som, notificação).
/// Implementações reais ficam no Daemon; testes usam um fake. O que a
/// máquina prova dos avisos vale para implementações que cumprem os
/// contratos abaixo: as que ficam fora da verificação não são checadas.
pub trait Feedback {
    /// Os avisos de Gravação que esta porta recebeu até agora, em ordem.
    /// Uma implementação verificada define a sua visão. A definição padrão
    /// (nenhum aviso) não cumpre os contratos dos métodos abaixo: existe só
    /// para que implementações escritas fora do Verus, que não têm como
    /// definir uma visão de especificação, compilem.
    open spec fn avisos(&self) -> Seq<EventoFeedback> {
        Seq::empty()
    }

    /// Avisa que a Gravação começou.
    fn iniciou_gravacao(&mut self)
        ensures
            final(self).avisos() == old(self).avisos().push(EventoFeedback::Iniciou),
    ;

    /// Avisa que a Gravação terminou.
    fn encerrou_gravacao(&mut self)
        ensures
            final(self).avisos() == old(self).avisos().push(EventoFeedback::Encerrou),
    ;
}

/// O áudio completo de uma Gravação, pronto para a próxima etapa do Ditado.
#[derive(Debug, Clone, PartialEq)]
pub struct AudioGravado {
    pub amostras: Vec<i16>,
    pub taxa_amostragem_hz: u32,
}

/// Falha ao acessar o microfone para iniciar ou manter a Gravação.
#[derive(Debug, Clone, PartialEq, Eq)]
pub struct ErroMicrofone(pub String);

impl ErroMicrofone {
    /// Texto do erro para o usuário (log e notificação).
    pub fn mensagem(&self) -> (texto: String)
        ensures
            texto@ == "microfone indisponível: "@ + self.0@,
    {
        let mut texto = String::from_str("microfone indisponível: ");
        texto.append(self.0.as_str());
        texto
    }
}

/// Porta para o dispositivo de captura de áudio (o microfone).
/// Implementações reais ficam no Daemon; testes usam um fake. O que a
/// máquina prova do áudio entregue vale para implementações que cumprem os
/// contratos abaixo: as que ficam fora da verificação não são checadas.
///
/// O modelo da fonte: se a captura está aberta, o que a fonte responde a um
/// pedido de início, o que uma captura aberta agora capturaria, e o que a
/// captura aberta já capturou. Abrir e fechar a captura não muda a resposta
/// a um início; fechar, ou não conseguir abrir, deixa a fonte sem nada
/// capturado, de modo que uma Gravação nunca leva amostras de outra.
pub trait FonteDeAudio {
    // Uma implementação verificada define as quatro visões abaixo. As
    // definições padrão não cumprem os contratos de `iniciar` e `encerrar`:
    // existem só para que implementações escritas fora do Verus, que não têm
    // como definir visões de especificação, compilem.

    /// Se a captura está aberta.
    open spec fn aberta(&self) -> bool {
        false
    }

    /// O que esta fonte responde a um pedido de início: captura aberta, ou
    /// o erro do dispositivo.
    open spec fn resposta_ao_iniciar(&self) -> Result<(), ErroMicrofone> {
        Ok(())
    }

    /// Os blocos de amostras, em ordem, em [`TAXA_AMOSTRAGEM_HZ`] mono, que
    /// uma captura aberta agora entregaria até ser encerrada.
    open spec fn proxima_captura(&self) -> Seq<Seq<i16>> {
        Seq::empty()
    }

    /// Os blocos de amostras que a captura aberta capturou, em ordem, em
    /// [`TAXA_AMOSTRAGEM_HZ`] mono; nenhum quando a captura está fechada.
    open spec fn capturado(&self) -> Seq<Seq<i16>> {
        Seq::empty()
    }

    /// Abre o dispositivo e inicia a captura, em taxa e formato já
    /// normalizados para [`TAXA_AMOSTRAGEM_HZ`] mono. A captura fica aberta
    /// exatamente quando o início dá certo, e então captura o que a fonte
    /// tinha por capturar; quando falha, nada fica capturado.
    fn iniciar(&mut self) -> (resultado: Result<(), ErroMicrofone>)
        requires
            !old(self).aberta(),
        ensures
            resultado == old(self).resposta_ao_iniciar(),
            final(self).aberta() == (resultado is Ok),
            final(self).resposta_ao_iniciar() == old(self).resposta_ao_iniciar(),
            final(self).capturado() == if resultado is Ok {
                old(self).proxima_captura()
            } else {
                Seq::<Seq<i16>>::empty()
            },
    ;

    /// Encerra a captura aberta, libera o dispositivo e devolve, em ordem, os
    /// blocos de amostras produzidos desde o último `iniciar`; depois disso a
    /// fonte não guarda nada capturado.
    fn encerrar(&mut self) -> (blocos: Vec<Vec<i16>>)
        requires
            old(self).aberta(),
        ensures
            vistas_dos_blocos(blocos@) == old(self).capturado(),
            !final(self).aberta(),
            final(self).capturado() == Seq::<Seq<i16>>::empty(),
            final(self).resposta_ao_iniciar() == old(self).resposta_ao_iniciar(),
    ;
}

/// As amostras de cada bloco, vistas como sequências.
pub open spec fn vistas_dos_blocos(blocos: Seq<Vec<i16>>) -> Seq<Seq<i16>> {
    blocos.map_values(|bloco: Vec<i16>| bloco@)
}

/// Concatena, em ordem, os blocos de amostras de uma Gravação.
pub fn juntar_blocos(blocos: &Vec<Vec<i16>>) -> (amostras: Vec<i16>)
    ensures
        amostras@ == vistas_dos_blocos(blocos@).flatten(),
{
    let mut amostras: Vec<i16> = Vec::new();
    let mut i: usize = 0;
    while i < blocos.len()
        invariant
            i <= blocos.len(),
            amostras@ == vistas_dos_blocos(blocos@).take(i as int).flatten_alt(),
        decreases blocos.len() - i,
    {
        let mut bloco = blocos[i].clone();
        assert(bloco@ == blocos@[i as int]@);
        proof {
            let vistas = vistas_dos_blocos(blocos@);
            assert(vistas.take(i + 1).drop_last() =~= vistas.take(i as int));
            assert(vistas.take(i + 1).last() == bloco@);
        }
        amostras.append(&mut bloco);
        i = i + 1;
    }
    proof {
        let vistas = vistas_dos_blocos(blocos@);
        assert(vistas.take(blocos.len() as int) =~= vistas);
        vistas.lemma_flatten_and_flatten_alt_are_equivalent();
    }
    amostras
}


/// Acumula as amostras produzidas por uma [`FonteDeAudio`] durante uma
/// Gravação, entregando o áudio completo quando ela é encerrada.
struct Gravador<G: FonteDeAudio> {
    fonte: G,
}

impl<G: FonteDeAudio> Gravador<G> {
    fn new(fonte: G) -> (gravador: Self)
        ensures
            gravador.fonte == fonte,
    {
        Gravador { fonte }
    }

    /// Pede à fonte que abra a captura e devolve a resposta dela.
    fn iniciar(&mut self) -> (resultado: Result<(), ErroMicrofone>)
        requires
            !old(self).fonte.aberta(),
        ensures
            resultado == old(self).fonte.resposta_ao_iniciar(),
            final(self).fonte.aberta() == (resultado is Ok),
            final(self).fonte.resposta_ao_iniciar() == old(self).fonte.resposta_ao_iniciar(),
            final(self).fonte.capturado() == if resultado is Ok {
                old(self).fonte.proxima_captura()
            } else {
                Seq::<Seq<i16>>::empty()
            },
    {
        self.fonte.iniciar()
    }

    /// Encerra a captura aberta e entrega o áudio que a fonte capturou.
    fn encerrar(&mut self) -> (audio: AudioGravado)
        requires
            old(self).fonte.aberta(),
        ensures
            !final(self).fonte.aberta(),
            final(self).fonte.capturado() == Seq::<Seq<i16>>::empty(),
            final(self).fonte.resposta_ao_iniciar() == old(self).fonte.resposta_ao_iniciar(),
            audio.taxa_amostragem_hz == TAXA_AMOSTRAGEM_HZ,
            audio.amostras@ == old(self).fonte.capturado().flatten(),
    {
        let blocos = self.fonte.encerrar();
        let amostras = juntar_blocos(&blocos);
        AudioGravado { amostras, taxa_amostragem_hz: TAXA_AMOSTRAGEM_HZ }
    }
}

/// Resultado de um Toggle bem-sucedido.
#[derive(Debug, Clone, PartialEq)]
pub enum ResultadoToggle {
    Gravando,
    Ocioso { audio: AudioGravado },
}

/// O estado do Ditado que um resultado de Toggle anuncia.
pub open spec fn estado_do_resultado(resultado: ResultadoToggle) -> DitadoState {
    match resultado {
        ResultadoToggle::Gravando => DitadoState::Gravando,
        ResultadoToggle::Ocioso { .. } => DitadoState::Ocioso,
    }
}

impl ResultadoToggle {
    pub fn estado(&self) -> (estado: DitadoState)
        ensures
            estado == estado_do_resultado(*self),
    {
        match self {
            ResultadoToggle::Gravando => DitadoState::Gravando,
            ResultadoToggle::Ocioso { .. } => DitadoState::Ocioso,
        }
    }
}

/// Um aviso de feedback que a máquina deu ao Toggle.
#[derive(Debug, Clone, Copy, PartialEq, Eq, Structural)]
pub enum EventoFeedback {
    Iniciou,
    Encerrou,
}

/// O estado em que o Toggle deixa o Ditado: de Ocioso vai a Gravando se o
/// microfone abriu, e fica Ocioso se não abriu; de Gravando sempre volta a
/// Ocioso.
pub open spec fn estado_apos_toggle(estado: DitadoState, microfone_abriu: bool) -> DitadoState {
    match estado {
        DitadoState::Ocioso => if microfone_abriu {
            DitadoState::Gravando
        } else {
            DitadoState::Ocioso
        },
        DitadoState::Gravando => DitadoState::Ocioso,
    }
}

/// O aviso que acompanha a chegada a um estado.
pub open spec fn evento_ao_entrar(estado: DitadoState) -> EventoFeedback {
    match estado {
        DitadoState::Gravando => EventoFeedback::Iniciou,
        DitadoState::Ocioso => EventoFeedback::Encerrou,
    }
}

/// Os avisos alternam início e fim, começando por um início.
pub open spec fn eventos_alternados(eventos: Seq<EventoFeedback>) -> bool {
    forall|i: int|
        0 <= i < eventos.len() ==> #[trigger] eventos[i] == if i % 2 == 0 {
            EventoFeedback::Iniciou
        } else {
            EventoFeedback::Encerrou
        }
}

pub struct Machine<F: Feedback, G: FonteDeAudio> {
    state: DitadoState,
    feedback: F,
    gravador: Gravador<G>,
    /// Os avisos dados ao feedback desde a criação, em ordem.
    eventos: Ghost<Seq<EventoFeedback>>,
    /// Os avisos que a porta de feedback já tinha ao ser entregue à máquina.
    avisos_anteriores: Ghost<Seq<EventoFeedback>>,
}

impl<F: Feedback, G: FonteDeAudio> Machine<F, G> {
    /// O estado corrente do Ditado.
    pub closed spec fn estado_atual(&self) -> DitadoState {
        self.state
    }

    /// Os avisos dados ao feedback desde a criação da máquina, em ordem.
    pub closed spec fn eventos(&self) -> Seq<EventoFeedback> {
        self.eventos@
    }

    /// A porta de feedback, como está agora.
    pub closed spec fn feedback_atual(&self) -> F {
        self.feedback
    }

    /// A fonte de áudio, como está agora.
    pub closed spec fn fonte_atual(&self) -> G {
        self.gravador.fonte
    }

    /// Boa formação: os avisos alternam início e fim, o Ditado está
    /// Gravando exatamente quando o último aviso foi um início, a porta de
    /// feedback recebeu exatamente esses avisos desde a criação, a captura de
    /// áudio está aberta exatamente enquanto o Ditado está Gravando, e um
    /// Ditado Ocioso não guarda nada capturado.
    pub closed spec fn wf(&self) -> bool {
        &&& eventos_alternados(self.eventos@)
        &&& (self.state == DitadoState::Gravando <==> self.eventos@.len() % 2 == 1)
        &&& self.feedback.avisos() == self.avisos_anteriores@ + self.eventos@
        &&& (self.state == DitadoState::Gravando <==> self.gravador.fonte.aberta())
        &&& (self.state == DitadoState::Ocioso ==> self.gravador.fonte.capturado()
            == Seq::<Seq<i16>>::empty())
    }

    /// Cria a máquina, Ociosa, com a porta de feedback e a fonte de áudio
    /// como foram entregues; a fonte chega com a captura fechada e vazia.
    pub fn new(feedback: F, fonte_de_audio: G) -> (machine: Self)
        requires
            !fonte_de_audio.aberta(),
            fonte_de_audio.capturado() == Seq::<Seq<i16>>::empty(),
        ensures
            machine.wf(),
            machine.estado_atual() == DitadoState::Ocioso,
            machine.eventos() == Seq::<EventoFeedback>::empty(),
            machine.feedback_atual() == feedback,
            machine.fonte_atual() == fonte_de_audio,
    {
        let ghost anteriores = feedback.avisos();
        let machine = Machine {
            state: DitadoState::Ocioso,
            feedback,
            gravador: Gravador::new(fonte_de_audio),
            eventos: Ghost(Seq::empty()),
            avisos_anteriores: Ghost(anteriores),
        };
        assert(machine.feedback.avisos() =~= machine.avisos_anteriores@ + machine.eventos@);
        machine
    }

    pub fn state(&self) -> (estado: DitadoState)
        ensures
            estado == self.estado_atual(),
    {
        self.state
    }

    /// A porta de feedback da máquina, para inspeção.
    pub fn feedback(&self) -> (feedback: &F)
        ensures
            *feedback == self.feedback_atual(),
    {
        &self.feedback
    }

    /// Aciona o Toggle: Ocioso -> Gravando ou Gravando -> Ocioso.
    ///
    /// De Ocioso, pede à fonte de áudio que abra a captura: se ela abrir, o
    /// Ditado passa a Gravando e o feedback recebe um aviso de início; se o
    /// microfone estiver indisponível, o erro da fonte é devolvido, o estado
    /// permanece Ocioso e nenhum feedback é disparado. De Gravando, encerra
    /// a captura, entrega o áudio que ela capturou, volta a Ocioso e o
    /// feedback recebe um aviso de fim.
    pub fn toggle(&mut self) -> (resultado: Result<ResultadoToggle, ErroMicrofone>)
        requires
            old(self).wf(),
        ensures
            final(self).wf(),
            final(self).estado_atual() == estado_apos_toggle(old(self).estado_atual(), resultado is Ok),
            old(self).estado_atual() == DitadoState::Ocioso ==> match old(self).fonte_atual().resposta_ao_iniciar() {
                Ok(()) => resultado == Ok::<ResultadoToggle, ErroMicrofone>(ResultadoToggle::Gravando),
                Err(erro) => resultado == Err::<ResultadoToggle, ErroMicrofone>(erro),
            },
            old(self).estado_atual() == DitadoState::Ocioso && resultado is Ok ==> {
                &&& final(self).fonte_atual().aberta()
                &&& final(self).fonte_atual().capturado() == old(self).fonte_atual().proxima_captura()
            },
            final(self).fonte_atual().resposta_ao_iniciar() == old(self).fonte_atual().resposta_ao_iniciar(),
            old(self).estado_atual() == DitadoState::Gravando ==> {
                &&& resultado matches Ok(ResultadoToggle::Ocioso { audio })
                &&& audio.taxa_amostragem_hz == TAXA_AMOSTRAGEM_HZ
                &&& audio.amostras@ == old(self).fonte_atual().capturado().flatten()
                &&& !final(self).fonte_atual().aberta()
                &&& final(self).fonte_atual().capturado() == Seq::<Seq<i16>>::empty()
            },
            resultado matches Ok(r) ==> estado_do_resultado(r) == final(self).estado_atual(),
            resultado is Ok ==> final(self).feedback_atual().avisos() == old(self).feedback_atual().avisos().push(
                evento_ao_entrar(final(self).estado_atual()),
            ),
            resultado is Ok ==> final(self).eventos() == old(self).eventos().push(
                evento_ao_entrar(final(self).estado_atual()),
            ),
            resultado is Err ==> final(self).eventos() == old(self).eventos() && final(self).feedback_atual()
                == old(self).feedback_atual(),
            resultado is Err ==> !final(self).fonte_atual().aberta() && final(self).fonte_atual().capturado()
                == Seq::<Seq<i16>>::empty(),
    {
        match self.state {
            DitadoState::Ocioso => {
                self.gravador.iniciar()?;
                self.state = DitadoState::Gravando;
                self.feedback.iniciou_gravacao();
                self.eventos = Ghost(self.eventos@.push(EventoFeedback::Iniciou));
                assert(self.feedback.avisos() =~= self.avisos_anteriores@ + self.eventos@);
                Ok(ResultadoToggle::Gravando)
            },
            DitadoState::Gravando => {
                let audio = self.gravador.encerrar();
                self.state = DitadoState::Ocioso;
                self.feedback.encerrou_gravacao();
                self.eventos = Ghost(self.eventos@.push(EventoFeedback::Encerrou));
                assert(self.feedback.avisos() =~= self.avisos_anteriores@ + self.eventos@);
                Ok(ResultadoToggle::Ocioso { audio })
            },
        }
    }
}

/// Dois Toggles bem-sucedidos seguidos devolvem o Ditado ao estado de
/// partida.
pub proof fn lei_toggle_duplo_volta_ao_inicio(estado: DitadoState)
    ensures
        estado_apos_toggle(estado_apos_toggle(estado, true), true) == estado,
{
}

/// Encerrar uma Gravação nunca depende do microfone: de Gravando, o Toggle
/// sempre leva a Ocioso.
pub proof fn lei_encerrar_sempre_volta_ao_ocioso(microfone_abriu: bool)
    ensures
        estado_apos_toggle(DitadoState::Gravando, microfone_abriu) == DitadoState::Ocioso,
{
}

/// Numa máquina bem formada, o último aviso dado ao feedback corresponde ao
/// estado corrente: um início quando Gravando, um fim (ou nenhum aviso)
/// quando Ocioso.
pub proof fn lei_ultimo_aviso_reflete_o_estado<F: Feedback, G: FonteDeAudio>(machine: &Machine<F, G>)
    requires
        machine.wf(),
    ensures
        machine.estado_atual() == DitadoState::Gravando ==> machine.eventos().last()
            == EventoFeedback::Iniciou,
        machine.estado_atual() == DitadoState::Ocioso && machine.eventos().len() > 0
            ==> machine.eventos().last() == EventoFeedback::Encerrou,
{
    let ev = machine.eventos();
    if ev.len() > 0 {
        assert(ev[ev.len() - 1] == ev.last());
    }
}

} // verus!
