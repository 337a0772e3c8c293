//! Operações de texto usadas pelas regras do Ditado: aparar espaços,
//! juntar listas, comparar ignorando maiúsculas ASCII.

use vstd::prelude::*;

verus! {

/// Os caracteres com a propriedade Unicode `White_Space`, os que
/// `char::is_whitespace` reconhece.
pub open spec fn e_espaco(c: char) -> bool {
    let n = c as u32;
    ||| 0x09 <= n <= 0x0d
    ||| n == 0x20
    ||| n == 0x85
    ||| n == 0xa0
    ||| n == 0x1680
    ||| 0x2000 <= n <= 0x200a
    ||| n == 0x2028
    ||| n == 0x2029
    ||| n == 0x202f
    ||| n == 0x205f
    ||| n == 0x3000
}

pub fn espaco(c: char) -> (r: bool)
    ensures
        r == e_espaco(c),
{
    let n = c as u32;
    (0x09 <= n && n <= 0x0d) || n == 0x20 || n == 0x85 || n == 0xa0 || n == 0x1680 || (0x2000
        <= n && n <= 0x200a) || n == 0x2028 || n == 0x2029 || n == 0x202f || n == 0x205f || n
        == 0x3000
}

/// O texto sem os espaços do começo.
pub open spec fn sem_espacos_iniciais(s: Seq<char>) -> Seq<char>
    decreases s.len(),
{
    if s.len() > 0 && e_espaco(s[0]) {
        sem_espacos_iniciais(s.drop_first())
    } else {
        s
    }
}

/// O texto sem os espaços do fim.
pub open spec fn sem_espacos_finais(s: Seq<char>) -> Seq<char>
    decreases s.len(),
{
    if s.len() > 0 && e_espaco(s.last()) {
        sem_espacos_finais(s.drop_last())
    } else {
        s
    }
}

/// O texto sem espaços no começo nem no fim, como `str::trim`.
pub open spec fn aparado(s: Seq<char>) -> Seq<char> {
    sem_espacos_finais(sem_espacos_iniciais(s))
}

/// Apara os espaços do começo e do fim de `s`.
pub fn aparar(s: &str) -> (r: String)
    ensures
        r@ == aparado(s@),
{
    let n = s.unicode_len();
    let mut i: usize = 0;
    assert(s@.subrange(0, n as int) =~= s@);
    while i < n && espaco(s.get_char(i))
        invariant
            n == s@.len(),
            i <= n,
            sem_espacos_iniciais(s@) == sem_espacos_iniciais(s@.subrange(i as int, n as int)),
        decreases n - i,
    {
        let ghost resto = s@.subrange(i as int, n as int);
        assert(resto.drop_first() =~= s@.subrange(i + 1, n as int));
        i = i + 1;
    }
    assert(sem_espacos_iniciais(s@) == s@.subrange(i as int, n as int));
    let mut j: usize = n;
    while j > i && espaco(s.get_char(j - 1))
        invariant
            n == s@.len(),
            i <= j <= n,
            sem_espacos_finais(s@.subrange(i as int, n as int)) == sem_espacos_finais(
                s@.subrange(i as int, j as int),
            ),
        decreases j - i,
    {
        let ghost parte = s@.subrange(i as int, j as int);
        assert(parte.drop_last() =~= s@.subrange(i as int, j - 1));
        j = j - 1;
    }
    assert(sem_espacos_finais(s@.subrange(i as int, j as int)) == s@.subrange(i as int, j as int));
    String::from_str(s.substring_char(i, j))
}

/// Se o texto, aparado, fica vazio.
pub fn vazio_ao_aparar(s: &str) -> (r: bool)
    ensures
        r == (aparado(s@).len() == 0),
{
    let aparado_ = aparar(s);
    aparado_.as_str().unicode_len() == 0
}

/// Os itens da lista, separados por `sep`, como `[String]::join`.
pub open spec fn juntado(itens: Seq<Seq<char>>, sep: Seq<char>) -> Seq<char>
    decreases itens.len(),
{
    if itens.len() == 0 {
        Seq::empty()
    } else if itens.len() == 1 {
        itens[0]
    } else {
        juntado(itens.drop_last(), sep) + sep + itens.last()
    }
}

/// As vistas de uma lista de textos.
pub open spec fn vistas(textos: Seq<String>) -> Seq<Seq<char>> {
    textos.map_values(|t: String| t@)
}

/// Junta os itens de `itens` separados por `sep`.
pub fn juntar(itens: &[String], sep: &str) -> (r: String)
    ensures
        r@ == juntado(vistas(itens@), sep@),
{
    let mut r = String::new();
    let mut i: usize = 0;
    while i < itens.len()
        invariant
            i <= itens.len(),
            r@ == juntado(vistas(itens@).take(i as int), sep@),
        decreases itens.len() - i,
    {
        let ghost anteriores = vistas(itens@).take(i as int);
        let ghost com_este = vistas(itens@).take(i + 1);
        assert(com_este.drop_last() =~= anteriores);
        if i > 0 {
            r.append(sep);
        } else {
            assert(r@ + itens@[i as int]@ =~= itens@[i as int]@);
        }
        r.append(itens[i].as_str());
        i = i + 1;
    }
    assert(vistas(itens@).take(itens.len() as int) =~= vistas(itens@));
    r
}

/// O código do caractere com as letras ASCII maiúsculas trocadas por
/// minúsculas (os demais caracteres ficam como estão).
pub open spec fn minuscula_ascii(c: char) -> u32 {
    if 65 <= c as u32 <= 90 {
        (c as u32 + 32) as u32
    } else {
        c as u32
    }
}

/// Se dois textos são iguais ignorando maiúsculas/minúsculas ASCII, como
/// `str::eq_ignore_ascii_case`.
pub open spec fn iguais_ignorando_caixa(a: Seq<char>, b: Seq<char>) -> bool {
    &&& a.len() == b.len()
    &&& forall|i: int| 0 <= i < a.len() ==> minuscula_ascii(#[trigger] a[i]) == minuscula_ascii(b[i])
}

fn minuscula(c: char) -> (r: u32)
    ensures
        r == minuscula_ascii(c),
{
    let n = c as u32;
    if 65 <= n && n <= 90 {
        n + 32
    } else {
        n
    }
}

pub fn iguais_sem_caixa(a: &str, b: &str) -> (r: bool)
    ensures
        r == iguais_ignorando_caixa(a@, b@),
{
    let n = a.unicode_len();
    if n != b.unicode_len() {
        return false;
    }
    let mut i: usize = 0;
    while i < n
        invariant
            n == a@.len() == b@.len(),
            i <= n,
            forall|k: int| 0 <= k < i ==> minuscula_ascii(#[trigger] a@[k]) == minuscula_ascii(b@[k]),
        decreases n - i,
    {
        if minuscula(a.get_char(i)) != minuscula(b.get_char(i)) {
            return false;
        }
        i = i + 1;
    }
    true
}

} // verus!
