//! Escolha do atalho de colar da Entrega: `Ctrl+Shift+V` quando o app
//! focado é um terminal conhecido, `Ctrl+V` nos demais casos.

use vstd::prelude::*;
use crate::texto::{iguais_ignorando_caixa, iguais_sem_caixa};

verus! {

/// O atalho de colar simulado na Entrega.
#[derive(Debug, Clone, Copy, PartialEq, Eq, Structural)]
pub enum Atalho {
    /// `Ctrl+V`.
    Padrao,
    /// `Ctrl+Shift+V`, o colar dos terminais.
    Terminal,
}

/// Se o app é um dos terminais conhecidos, ignorando maiúsculas/minúsculas
/// ASCII.
pub open spec fn e_terminal(app: Seq<char>, terminais: Seq<String>) -> bool {
    exists|i: int| 0 <= i < terminais.len() && iguais_ignorando_caixa(#[trigger] terminais[i]@, app)
}

/// O atalho para o app focado. Sem app conhecido (extensão indisponível ou
/// consulta falhou), vale o atalho padrão, como para um app fora da lista.
pub open spec fn atalho_para(app_focado: Option<Seq<char>>, terminais: Seq<String>) -> Atalho {
    match app_focado {
        Some(app) => if e_terminal(app, terminais) {
            Atalho::Terminal
        } else {
            Atalho::Padrao
        },
        None => Atalho::Padrao,
    }
}

/// A vista de um app focado opcional.
pub open spec fn vista_do_app(app_focado: Option<&str>) -> Option<Seq<char>> {
    match app_focado {
        Some(app) => Some(app@),
        None => None,
    }
}

/// Decide o [`Atalho`] a partir do identificador do app focado (WM_CLASS,
/// como devolvido pela extensão GNOME) e da lista de terminais conhecidos
/// da config. A comparação ignora maiúsculas/minúsculas: o GNOME Shell não
/// é consistente entre versões sobre a capitalização do WM_CLASS.
pub fn decidir_atalho(app_focado: Option<&str>, terminais_conhecidos: &[String]) -> (atalho: Atalho)
    ensures
        atalho == atalho_para(vista_do_app(app_focado), terminais_conhecidos@),
{
    match app_focado {
        None => Atalho::Padrao,
        Some(app) => {
            let mut i: usize = 0;
            while i < terminais_conhecidos.len()
                invariant
                    i <= terminais_conhecidos@.len(),
                    app_focado == Some(app),
                    forall|k: int|
                        0 <= k < i ==> !iguais_ignorando_caixa(#[trigger] terminais_conhecidos@[k]@, app@),
                decreases terminais_conhecidos@.len() - i,
            {
                if iguais_sem_caixa(terminais_conhecidos[i].as_str(), app) {
                    assert(iguais_ignorando_caixa(terminais_conhecidos@[i as int]@, app@));
                    return Atalho::Terminal;
                }
                i = i + 1;
            }
            Atalho::Padrao
        },
    }
}

/// A decisão não depende da caixa do identificador: dois identificadores
/// iguais a menos de maiúsculas/minúsculas ASCII levam ao mesmo atalho.
pub proof fn lei_atalho_ignora_caixa(a: Seq<char>, b: Seq<char>, terminais: Seq<String>)
    requires
        iguais_ignorando_caixa(a, b),
    ensures
        atalho_para(Some(a), terminais) == atalho_para(Some(b), terminais),
{
    if e_terminal(a, terminais) {
        let i = choose|i: int| 0 <= i < terminais.len() && iguais_ignorando_caixa(#[trigger] terminais[i]@, a);
        assert(iguais_ignorando_caixa(terminais[i]@, b));
    }
    if e_terminal(b, terminais) {
        let i = choose|i: int| 0 <= i < terminais.len() && iguais_ignorando_caixa(#[trigger] terminais[i]@, b);
        assert(iguais_ignorando_caixa(terminais[i]@, a));
    }
}

/// Um app fora da lista de terminais sempre recebe o atalho padrão, e um
/// app da lista, o de terminal.
pub proof fn lei_terminal_da_lista(app: Seq<char>, terminais: Seq<String>, i: int)
    requires
        0 <= i < terminais.len(),
        terminais[i]@ == app,
    ensures
        atalho_para(Some(app), terminais) == Atalho::Terminal,
{
    assert(iguais_ignorando_caixa(terminais[i]@, app));
}

} // verus!
