//! O pipeline do Ditado depois da Gravação, como máquina de passos: o
//! Daemon executa a ação pedida (transcrever, limpar, entregar, notificar)
//! e devolve o que ela deu; a decisão do próximo passo fica aqui.
//!
//! A ordem é sempre Engine, depois a Limpeza (se ligada), depois a Entrega.
//! Falha do Engine ou da Entrega encerra o Ditado com um aviso de falha; uma
//! Transcrição vazia encerra com o aviso de silêncio; falha da Limpeza nunca
//! encerra o Ditado: a Transcrição crua é entregue com um aviso discreto.

use vstd::prelude::*;
use crate::entrega::{e_ditado_silencioso, texto_para_entrega, AVISO_LIMPEZA_FALHOU};
use crate::limpeza::ErroLimpeza;
use crate::texto::aparado;

verus! {

/// Em que ponto do pipeline o Ditado está.
#[derive(Debug, Clone, PartialEq, Eq)]
pub enum EtapaDitado {
    /// Esperando a Transcrição crua do Engine; `limpar` diz se a Limpeza
    /// roda depois dela.
    Transcrevendo { limpar: bool },
    /// Esperando a Limpeza da Transcrição crua.
    Limpando { crua: String },
    /// Esperando a Entrega deste texto.
    Entregando { texto: String },
    /// O Ditado terminou.
    Concluido,
}

/// O que a ação pedida pelo último passo deu.
#[derive(Debug, PartialEq, Eq)]
pub enum EventoDitado {
    /// O Engine transcreveu (o texto cru) ou falhou (a mensagem).
    Transcrito(Result<String, String>),
    /// A Limpeza devolveu o texto limpo ou falhou.
    Limpo(Result<String, ErroLimpeza>),
    /// A Entrega deu certo ou falhou (a mensagem).
    Entregue(Result<(), String>),
}

/// O que o Daemon faz a seguir.
#[derive(Debug, Clone, PartialEq, Eq)]
pub enum AcaoDitado {
    /// Passar este texto pela Limpeza.
    Limpar { texto: String },
    /// Mostrar o aviso, se houver, e entregar o texto ao app focado.
    Entregar { texto: String, aviso: Option<String> },
    /// Avisar que nenhuma fala foi detectada; o Ditado termina.
    AvisarSilencio,
    /// Avisar a falha; o Ditado termina.
    AvisarFalha { mensagem: String },
    /// Avisar que o texto foi entregue; o Ditado termina.
    AvisarConclusao { texto: String },
    /// Nada: o evento não cabe na etapa (ou o Ditado já terminou).
    Nenhuma,
}

/// Um passo do pipeline: a nova etapa e a ação que o Daemon executa.
#[derive(Debug, Clone, PartialEq, Eq)]
pub struct Passo {
    pub etapa: EtapaDitado,
    pub acao: AcaoDitado,
}

/// Se o passo entrega este texto, sem aviso, e passa a esperar a Entrega.
pub open spec fn entrega_sem_aviso(passo: Passo, texto: Seq<char>) -> bool {
    &&& passo.etapa matches EtapaDitado::Entregando { texto: t } && t@ == texto
    &&& passo.acao matches AcaoDitado::Entregar { texto: t, aviso } && t@ == texto && aviso is None
}

/// Se o passo encerra o Ditado avisando esta falha.
pub open spec fn encerra_com_falha(passo: Passo, mensagem: Seq<char>) -> bool {
    &&& passo.etapa is Concluido
    &&& passo.acao matches AcaoDitado::AvisarFalha { mensagem: m } && m@ == mensagem
}

/// Se o evento é o resultado da ação que a etapa espera.
pub open spec fn evento_cabe(etapa: EtapaDitado, evento: EventoDitado) -> bool {
    match (etapa, evento) {
        (EtapaDitado::Transcrevendo { .. }, EventoDitado::Transcrito(_)) => true,
        (EtapaDitado::Limpando { .. }, EventoDitado::Limpo(_)) => true,
        (EtapaDitado::Entregando { .. }, EventoDitado::Entregue(_)) => true,
        _ => false,
    }
}

/// Quantos passos, no máximo, faltam para o Ditado terminar.
pub open spec fn passos_restantes(etapa: EtapaDitado) -> nat {
    match etapa {
        EtapaDitado::Transcrevendo { limpar } => if limpar { 3 } else { 2 },
        EtapaDitado::Limpando { .. } => 2,
        EtapaDitado::Entregando { .. } => 1,
        EtapaDitado::Concluido => 0,
    }
}

/// Se a ação avisa o usuário do fim do Ditado.
pub open spec fn avisa_o_fim(acao: AcaoDitado) -> bool {
    acao is AvisarSilencio || acao is AvisarFalha || acao is AvisarConclusao
}

/// Decide o próximo passo do pipeline a partir da etapa e do resultado da
/// última ação.
pub fn proximo_passo(etapa: EtapaDitado, evento: EventoDitado) -> (passo: Passo)
    ensures
        match (etapa, evento) {
            (EtapaDitado::Transcrevendo { limpar }, EventoDitado::Transcrito(Err(mensagem))) =>
                encerra_com_falha(passo, mensagem@),
            (EtapaDitado::Transcrevendo { limpar }, EventoDitado::Transcrito(Ok(crua))) =>
                if aparado(crua@).len() == 0 {
                    passo.etapa is Concluido && passo.acao is AvisarSilencio
                } else if limpar {
                    &&& passo.etapa matches EtapaDitado::Limpando { crua: c } && c@ == crua@
                    &&& passo.acao matches AcaoDitado::Limpar { texto } && texto@ == crua@
                } else {
                    entrega_sem_aviso(passo, crua@)
                },
            (EtapaDitado::Limpando { crua }, EventoDitado::Limpo(Ok(limpo))) =>
                entrega_sem_aviso(passo, limpo@),
            (EtapaDitado::Limpando { crua }, EventoDitado::Limpo(Err(erro))) => {
                &&& passo.etapa matches EtapaDitado::Entregando { texto: t } && t@ == crua@
                &&& passo.acao matches AcaoDitado::Entregar { texto, aviso } && texto@ == crua@
                    && (aviso matches Some(a) && a@ == AVISO_LIMPEZA_FALHOU@ + erro.0@)
            },
            (EtapaDitado::Entregando { texto }, EventoDitado::Entregue(Ok(()))) => {
                &&& passo.etapa is Concluido
                &&& passo.acao matches AcaoDitado::AvisarConclusao { texto: t } && t@ == texto@
            },
            (EtapaDitado::Entregando { texto }, EventoDitado::Entregue(Err(mensagem))) =>
                encerra_com_falha(passo, mensagem@),
            _ => passo.etapa == etapa && passo.acao is Nenhuma,
        },
        // O Ditado sempre termina: cada resultado esperado aproxima o fim.
        evento_cabe(etapa, evento) ==> passos_restantes(passo.etapa) < passos_restantes(etapa),
        // Nenhum Ditado termina calado: o passo que o encerra avisa o usuário.
        etapa !is Concluido && passo.etapa is Concluido ==> avisa_o_fim(passo.acao),
        // Um resultado esperado sempre leva a uma ação.
        passo.acao is Nenhuma ==> !evento_cabe(etapa, evento),
{
    match (etapa, evento) {
        (EtapaDitado::Transcrevendo { limpar }, EventoDitado::Transcrito(Err(mensagem))) => {
            Passo { etapa: EtapaDitado::Concluido, acao: AcaoDitado::AvisarFalha { mensagem } }
        },
        (EtapaDitado::Transcrevendo { limpar }, EventoDitado::Transcrito(Ok(crua))) => {
            if e_ditado_silencioso(crua.as_str()) {
                Passo { etapa: EtapaDitado::Concluido, acao: AcaoDitado::AvisarSilencio }
            } else if limpar {
                let texto = crua.clone();
                Passo { etapa: EtapaDitado::Limpando { crua }, acao: AcaoDitado::Limpar { texto } }
            } else {
                let entrega = texto_para_entrega(crua, None);
                let texto = entrega.texto.clone();
                Passo {
                    etapa: EtapaDitado::Entregando { texto },
                    acao: AcaoDitado::Entregar { texto: entrega.texto, aviso: entrega.aviso },
                }
            }
        },
        (EtapaDitado::Limpando { crua }, EventoDitado::Limpo(resultado)) => {
            let entrega = texto_para_entrega(crua, Some(resultado));
            let texto = entrega.texto.clone();
            Passo {
                etapa: EtapaDitado::Entregando { texto },
                acao: AcaoDitado::Entregar { texto: entrega.texto, aviso: entrega.aviso },
            }
        },
        (EtapaDitado::Entregando { texto }, EventoDitado::Entregue(Ok(()))) => {
            Passo { etapa: EtapaDitado::Concluido, acao: AcaoDitado::AvisarConclusao { texto } }
        },
        (EtapaDitado::Entregando { texto }, EventoDitado::Entregue(Err(mensagem))) => {
            Passo { etapa: EtapaDitado::Concluido, acao: AcaoDitado::AvisarFalha { mensagem } }
        },
        (etapa, _) => Passo { etapa, acao: AcaoDitado::Nenhuma },
    }
}

} // verus!
