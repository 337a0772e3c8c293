//! Regras da transcrição (Engine): o que conta como trecho sem fala, como
//! os trechos viram a Transcrição crua, e o hint de Vocabulário e idioma
//! enviado ao Engine cloud.

use vstd::prelude::*;
use crate::texto::{aparado, aparar, juntado, juntar, vistas};

verus! {

/// Abaixo disso (um décimo de segundo a 16 kHz) não há amostras suficientes
/// para o whisper.cpp processar de forma confiável (ex.: um Toggle duplo
/// quase instantâneo): o Ditado é tratado como silencioso sem chamar o
/// Engine.
pub const AMOSTRAS_MINIMAS: usize = 1600;

/// Se há amostras suficientes para transcrever.
pub fn amostras_suficientes(amostras: &Vec<i16>) -> (suficientes: bool)
    ensures
        suficientes == (amostras@.len() >= AMOSTRAS_MINIMAS),
{
    amostras.len() >= AMOSTRAS_MINIMAS
}

/// Se o trecho, aparado, é vazio ou está todo entre colchetes ou entre
/// parênteses: os marcadores que o whisper.cpp emite para trechos sem
/// fala, como `[BLANK_AUDIO]` ou `(silêncio)`.
pub open spec fn marcador_sem_fala(trecho: Seq<char>) -> bool {
    let t = aparado(trecho);
    ||| t.len() == 0
    ||| (t[0] == '[' && t.last() == ']')
    ||| (t[0] == '(' && t.last() == ')')
}

/// Reconhece os marcadores de trecho sem fala do whisper.cpp; sem filtrá-los,
/// o Ditado silencioso nunca seria detectado com o Engine real.
pub fn e_marcador_sem_fala(trecho: &str) -> (marcador: bool)
    ensures
        marcador == marcador_sem_fala(trecho@),
{
    let t = aparar(trecho);
    let n = t.as_str().unicode_len();
    if n == 0 {
        return true;
    }
    let primeiro = t.as_str().get_char(0);
    let ultimo = t.as_str().get_char(n - 1);
    (primeiro == '[' && ultimo == ']') || (primeiro == '(' && ultimo == ')')
}

/// A Transcrição crua: os trechos em ordem, sem separador, pulando os
/// marcadores sem fala.
pub open spec fn texto_dos_trechos(trechos: Seq<Seq<char>>) -> Seq<char>
    decreases trechos.len(),
{
    if trechos.len() == 0 {
        Seq::empty()
    } else {
        texto_dos_trechos(trechos.drop_last()) + if marcador_sem_fala(trechos.last()) {
            Seq::empty()
        } else {
            trechos.last()
        }
    }
}

/// Junta os trechos (segmentos) devolvidos pelo whisper.cpp na Transcrição
/// crua.
pub fn juntar_trechos(trechos: &Vec<String>) -> (texto: String)
    ensures
        texto@ == texto_dos_trechos(vistas(trechos@)),
{
    let mut texto = String::new();
    let mut i: usize = 0;
    while i < trechos.len()
        invariant
            i <= trechos.len(),
            texto@ == texto_dos_trechos(vistas(trechos@).take(i as int)),
        decreases trechos.len() - i,
    {
        let ghost antes = vistas(trechos@).take(i as int);
        assert(vistas(trechos@).take(i + 1).drop_last() =~= antes);
        if !e_marcador_sem_fala(trechos[i].as_str()) {
            texto.append(trechos[i].as_str());
        } else {
            assert(texto@ + Seq::<char>::empty() =~= texto@);
        }
        i = i + 1;
    }
    assert(vistas(trechos@).take(trechos.len() as int) =~= vistas(trechos@));
    texto
}

/// Só é marcador sem fala um trecho que, aparado, fica vazio ou vem todo
/// entre colchetes ou todo entre parênteses (primeiro e último caractere um
/// par): um trecho com texto que apenas começa por `(` ou `[`, ou só termina
/// por `)` ou `]`, é fala.
pub proof fn lei_so_e_marcador_o_que_vem_entre_delimitadores(trecho: Seq<char>)
    ensures
        ({
            let t = aparado(trecho);
            &&& t.len() > 0 && !(t[0] == '[' && t[t.len() - 1] == ']') && !(t[0] == '(' && t[t.len() - 1]
                == ')') ==> !marcador_sem_fala(trecho)
            &&& t.len() == 0 ==> marcador_sem_fala(trecho)
            &&& t.len() > 0 && t[0] == '[' && t[t.len() - 1] == ']' ==> marcador_sem_fala(trecho)
            &&& t.len() > 0 && t[0] == '(' && t[t.len() - 1] == ')' ==> marcador_sem_fala(trecho)
        }),
{
}

/// Um trecho de fala chega inteiro à Transcrição, logo depois do que os
/// trechos anteriores deram; um marcador sem fala não acrescenta nada.
pub proof fn lei_trecho_de_fala_chega_a_transcricao(anteriores: Seq<Seq<char>>, trecho: Seq<char>)
    ensures
        !marcador_sem_fala(trecho) ==> texto_dos_trechos(anteriores.push(trecho))
            == texto_dos_trechos(anteriores) + trecho,
        marcador_sem_fala(trecho) ==> texto_dos_trechos(anteriores.push(trecho))
            == texto_dos_trechos(anteriores),
{
    let todos = anteriores.push(trecho);
    assert(todos.drop_last() =~= anteriores);
    assert(texto_dos_trechos(anteriores) + Seq::<char>::empty() =~= texto_dos_trechos(anteriores));
}

/// Sem marcadores entre os trechos, a Transcrição é exatamente todos os
/// trechos concatenados, em ordem: nenhum texto falado se perde.
pub proof fn lei_trechos_de_fala_chegam_todos(trechos: Seq<Seq<char>>)
    requires
        forall|i: int| 0 <= i < trechos.len() ==> !marcador_sem_fala(#[trigger] trechos[i]),
    ensures
        texto_dos_trechos(trechos) == trechos.flatten(),
    decreases trechos.len(),
{
    if trechos.len() > 0 {
        let anteriores = trechos.drop_last();
        assert forall|i: int| 0 <= i < anteriores.len() implies !marcador_sem_fala(#[trigger] anteriores[i]) by {
            assert(anteriores[i] == trechos[i]);
        }
        lei_trechos_de_fala_chegam_todos(anteriores);
        assert(!marcador_sem_fala(trechos[trechos.len() - 1]));
        anteriores.lemma_flatten_and_flatten_alt_are_equivalent();
        trechos.lemma_flatten_and_flatten_alt_are_equivalent();
    }
}

/// O modelo de transcrição da API da OpenAI.
pub const MODELO_TRANSCRICAO: &'static str = "whisper-1";

/// O hint de transcrição enviado ao Engine cloud: o Idioma de entrada e o
/// Vocabulário do usuário, que orienta a grafia de nomes próprios e jargão.
#[derive(Debug, Clone, PartialEq, Eq)]
pub struct HintTranscricao {
    pub idioma: String,
    /// O Vocabulário separado por vírgulas; vazio sem Vocabulário.
    pub prompt_vocabulario: String,
}

/// O Vocabulário como hint de transcrição.
pub open spec fn prompt_do_vocabulario(vocabulario: Seq<String>) -> Seq<char> {
    juntado(vistas(vocabulario), ", "@)
}

impl HintTranscricao {
    pub fn nova(idioma: &str, vocabulario: &[String]) -> (hint: Self)
        ensures
            hint.idioma@ == idioma@,
            hint.prompt_vocabulario@ == prompt_do_vocabulario(vocabulario@),
    {
        HintTranscricao { idioma: String::from_str(idioma), prompt_vocabulario: juntar(vocabulario, ", ") }
    }

    /// Troca o Idioma de entrada e o Vocabulário (campos quentes, aplicados
    /// sem reconstruir o Engine).
    pub fn atualizar(&mut self, idioma: &str, vocabulario: &[String])
        ensures
            final(self).idioma@ == idioma@,
            final(self).prompt_vocabulario@ == prompt_do_vocabulario(vocabulario@),
    {
        *self = HintTranscricao::nova(idioma, vocabulario);
    }

    /// Os campos de texto do formulário da transcrição, além do arquivo:
    /// o modelo, o idioma e, só quando há Vocabulário, o prompt.
    pub fn campos_formulario(&self) -> (campos: Vec<(String, String)>)
        ensures
            campos@.len() == if self.prompt_vocabulario@.len() > 0 { 3int } else { 2int },
            campos@[0].0@ == "model"@ && campos@[0].1@ == MODELO_TRANSCRICAO@,
            campos@[1].0@ == "language"@ && campos@[1].1@ == self.idioma@,
            self.prompt_vocabulario@.len() > 0 ==> campos@[2].0@ == "prompt"@ && campos@[2].1@
                == self.prompt_vocabulario@,
    {
        let mut campos: Vec<(String, String)> = Vec::new();
        campos.push((String::from_str("model"), String::from_str(MODELO_TRANSCRICAO)));
        campos.push((String::from_str("language"), self.idioma.clone()));
        if self.prompt_vocabulario.as_str().unicode_len() > 0 {
            campos.push((String::from_str("prompt"), self.prompt_vocabulario.clone()));
        }
        campos
    }
}

/// Mensagem de uma recusa da API de transcrição, com o status HTTP e o
/// corpo da resposta de erro.
pub fn mensagem_recusa_transcricao(status: &str, corpo: &str) -> (mensagem: String)
    ensures
        mensagem@ == "API da OpenAI recusou a transcrição ("@ + status@ + "): "@ + corpo@,
{
    let mut mensagem = String::from_str("API da OpenAI recusou a transcrição (");
    mensagem.append(status);
    mensagem.append("): ");
    mensagem.append(corpo);
    mensagem
}

} // verus!
