//! Codificação do áudio de um Ditado como WAV (PCM 16 bits, mono), feita
//! pelo `hound`, para enviar ao Engine cloud e para salvar em disco.

use vstd::prelude::*;
use crate::nucleo::AudioGravado;

verus! {

#[verifier::external_type_specification]
#[verifier::external_body]
pub struct ExErroHound(hound::Error);

/// Um inteiro sem sinal de 16 bits em little-endian.
pub open spec fn u16_le(x: int) -> Seq<u8> {
    seq![(x % 256) as u8, ((x / 256) % 256) as u8]
}

/// Um inteiro sem sinal de 32 bits em little-endian.
pub open spec fn u32_le(x: int) -> Seq<u8> {
    seq![
        (x % 256) as u8,
        ((x / 256) % 256) as u8,
        ((x / 65536) % 256) as u8,
        ((x / 16777216) % 256) as u8,
    ]
}

/// Uma amostra de 16 bits com sinal, em complemento de dois, little-endian.
pub open spec fn amostra_le(amostra: i16) -> Seq<u8> {
    u16_le(if amostra < 0 { amostra + 65536 } else { amostra as int })
}

/// Os quatro caracteres ASCII de uma marca de bloco RIFF.
pub open spec fn marca(texto: Seq<char>) -> Seq<u8> {
    texto.map_values(|c: char| c as u8)
}

/// O cabeçalho de 44 bytes de um WAV PCM inteiro de 16 bits, um canal, com
/// `n` amostras a `taxa_hz`: o bloco RIFF com o tamanho do arquivo, o bloco
/// `fmt ` de 16 bytes (formato 1, um canal, a taxa, a taxa de bytes, o
/// alinhamento de 2 bytes, 16 bits) e o início do bloco `data` com o seu
/// tamanho.
pub open spec fn cabecalho_wav(taxa_hz: u32, n: int) -> Seq<u8> {
    marca("RIFF"@) + u32_le(36 + 2 * n) + marca("WAVE"@) + marca("fmt "@) + u32_le(16) + u16_le(1)
        + u16_le(1) + u32_le(taxa_hz as int) + u32_le(2 * taxa_hz) + u16_le(2) + u16_le(16)
        + marca("data"@) + u32_le(2 * n)
}

/// O arquivo WAV inteiro: o cabeçalho seguido das amostras, em ordem, cada
/// uma em dois bytes little-endian.
pub open spec fn wav_pcm16_mono(taxa_hz: u32, amostras: Seq<i16>) -> Seq<u8> {
    cabecalho_wav(taxa_hz, amostras.len() as int) + amostras.map_values(|a: i16| amostra_le(a)).flatten()
}

/// Quantas amostras cabem num WAV: o tamanho do arquivo, 36 bytes de
/// cabeçalho mais 2 por amostra, é um `u32`.
pub const MAXIMO_DE_AMOSTRAS: usize = 2147483629;

/// Maior taxa de amostragem que o `hound` aceita em 16 bits mono: a taxa
/// de bytes, o dobro dela, é um `u32`.
pub const MAXIMA_TAXA_HZ: u32 = 2147483647;

/// Se um áudio pode ser escrito como WAV: taxa positiva cuja taxa de bytes
/// cabe num `u32`, tamanho de arquivo que cabe num `u32`, e um buffer do
/// tamanho do arquivo que a máquina consegue alocar.
pub open spec fn cabe_num_wav(taxa_hz: u32, n: int) -> bool {
    &&& 0 < taxa_hz <= MAXIMA_TAXA_HZ
    &&& n <= MAXIMO_DE_AMOSTRAS
    &&& 44 + 2 * n <= isize::MAX
}

/// Um áudio cabe num WAV exatamente quando os campos `u32` do cabeçalho
/// comportam os seus valores (a taxa, a taxa de bytes, o tamanho do arquivo
/// e o dos dados), a taxa é positiva e o arquivo inteiro cabe num buffer:
/// não há outro limite de duração.
pub proof fn lei_cabe_num_wav_quando_o_cabecalho_comporta(taxa_hz: u32, n: int)
    requires
        0 <= n,
    ensures
        cabe_num_wav(taxa_hz, n) <==> {
            &&& taxa_hz > 0
            &&& 2 * taxa_hz <= u32::MAX
            &&& 36 + 2 * n <= u32::MAX
            &&& 44 + 2 * n <= isize::MAX
        },
{
}

/// Escreve as amostras como WAV (16 bits, mono) num `Cursor<Vec<u8>>` em
/// memória com `hound::WavWriter::new`, `write_sample` e `finalize`, e
/// devolve o buffer. O `hound` escreve o cabeçalho PCM de 44 bytes (marcas,
/// formato, taxa, taxa de bytes, alinhamento, bits, com os dois tamanhos
/// acertados por `finalize`) e cada amostra em little-endian; os seus erros
/// vêm só de E/S do destino, e num buffer em memória, com posições dentro do
/// que já foi escrito, nenhuma escrita ou busca falha. As condições evitam
/// os pânicos do `hound` (divisão por taxa zero, estouro dos tamanhos `u32`
/// do cabeçalho) e o estouro da capacidade do `Vec`.
#[verifier::external_body]
fn codificar_wav_mono16(amostras: &[i16], taxa_hz: u32) -> (bytes: Result<Vec<u8>, hound::Error>)
    requires
        cabe_num_wav(taxa_hz, amostras@.len() as int),
    ensures
        bytes is Ok,
        bytes matches Ok(b) ==> b@ == wav_pcm16_mono(taxa_hz, amostras@),
{
    let formato = hound::WavSpec {
        channels: 1,
        sample_rate: taxa_hz,
        bits_per_sample: 16,
        sample_format: hound::SampleFormat::Int,
    };
    let mut destino = std::io::Cursor::new(Vec::new());
    let mut escritor = hound::WavWriter::new(&mut destino, formato)?;
    for &amostra in amostras {
        escritor.write_sample(amostra)?;
    }
    escritor.finalize()?;
    Ok(destino.into_inner())
}

/// Diz se o áudio pode ser escrito como WAV (ver [`cabe_num_wav`]).
pub fn cabe_em_wav(audio: &AudioGravado) -> (cabe: bool)
    ensures
        cabe == cabe_num_wav(audio.taxa_amostragem_hz, audio.amostras@.len() as int),
{
    audio.taxa_amostragem_hz > 0 && audio.taxa_amostragem_hz <= MAXIMA_TAXA_HZ
        && audio.amostras.len() <= MAXIMO_DE_AMOSTRAS
        && audio.amostras.len() <= (isize::MAX as usize - 44) / 2
}

/// Codifica o áudio de uma Gravação como WAV 16 bits mono, na taxa em que
/// foi gravado: o cabeçalho de 44 bytes seguido das amostras em
/// little-endian.
pub fn para_bytes(audio: &AudioGravado) -> (bytes: Vec<u8>)
    requires
        cabe_num_wav(audio.taxa_amostragem_hz, audio.amostras@.len() as int),
    ensures
        bytes@ == wav_pcm16_mono(audio.taxa_amostragem_hz, audio.amostras@),
{
    match codificar_wav_mono16(audio.amostras.as_slice(), audio.taxa_amostragem_hz) {
        Ok(bytes) => bytes,
        Err(_) => {
            proof {
                assert(false);
            }
            Vec::new()
        },
    }
}

} // verus!
