//! O que o Ditado entrega ao app focado: a Transcrição limpa quando a
//! Limpeza deu certo, a Transcrição crua quando ela estava desligada,
//! falhou ou estourou o timeout. O Ditado nunca fica refém da rede.

use vstd::prelude::*;
use crate::limpeza::ErroLimpeza;
use crate::texto::{aparado, vazio_ao_aparar};

verus! {

/// Um Ditado é silencioso quando a Transcrição crua, aparada, fica vazia:
/// nada é entregue e o usuário é avisado de que nenhuma fala foi detectada.
pub fn e_ditado_silencioso(transcricao: &str) -> (silencioso: bool)
    ensures
        silencioso == (aparado(transcricao@).len() == 0),
{
    vazio_ao_aparar(transcricao)
}

/// O texto a entregar e, se a Limpeza falhou, o aviso discreto ao usuário.
#[derive(Debug, Clone, PartialEq, Eq)]
pub struct TextoParaEntrega {
    pub texto: String,
    pub aviso: Option<String>,
}

/// O começo do aviso de quando a Limpeza falha ou estoura o timeout.
pub const AVISO_LIMPEZA_FALHOU: &'static str = "A Limpeza falhou, a Transcrição crua foi entregue: ";

/// Decide o texto entregue a partir da Transcrição crua e do resultado da
/// Limpeza (`None` quando ela não foi executada): o texto limpo se ela deu
/// certo; senão a Transcrição crua, com um aviso quando ela falhou.
pub fn texto_para_entrega(
    transcricao_crua: String,
    limpeza: Option<Result<String, ErroLimpeza>>,
) -> (entrega: TextoParaEntrega)
    ensures
        limpeza is None ==> entrega.texto@ == transcricao_crua@ && entrega.aviso is None,
        limpeza matches Some(Ok(limpo)) ==> entrega.texto@ == limpo@ && entrega.aviso is None,
        limpeza matches Some(Err(erro)) ==> entrega.texto@ == transcricao_crua@ && (entrega.aviso matches Some(
            aviso,
        ) && aviso@ == AVISO_LIMPEZA_FALHOU@ + erro.0@),
{
    match limpeza {
        None => TextoParaEntrega { texto: transcricao_crua, aviso: None },
        Some(Ok(limpo)) => TextoParaEntrega { texto: limpo, aviso: None },
        Some(Err(erro)) => {
            let mut aviso = String::from_str(AVISO_LIMPEZA_FALHOU);
            aviso.append(erro.0.as_str());
            TextoParaEntrega { texto: transcricao_crua, aviso: Some(aviso) }
        },
    }
}

} // verus!
