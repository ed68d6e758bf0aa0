//! Contêiner GLB (glTF binário): cabeçalho, bloco JSON e bloco binário, cada bloco
//! alinhado a 4 bytes, e os pedaços de JSON que o exportador escreve à mão.

use vstd::prelude::*;
use vstd::string::StringSliceAdditionalSpecFns;
use crate::texto::{decimal, empurrar_decimal, string_de, algarismo_hex, empurrar_texto, chars_de};

verus! {

/// Tipo do bloco JSON (`"JSON"` em little-endian).
pub const CHUNK_JSON: u32 = 0x4E4F_534A;
/// Tipo do bloco binário (`"BIN\0"` em little-endian).
pub const CHUNK_BIN: u32 = 0x004E_4942;
/// `glTF` em little-endian.
pub const MAGIC: u32 = 0x4654_6C67;

/// Os quatro bytes de `v` em little-endian.
pub open spec fn le32(v: u32) -> Seq<u8> {
    seq![(v % 256) as u8, ((v / 256) % 256) as u8, ((v / 65536) % 256) as u8, (v / 16777216) as u8]
}

/// Quantos bytes de enchimento levam `n` ao próximo múltiplo de 4.
pub open spec fn enchimento(n: nat) -> nat {
    ((4 - n % 4) % 4) as nat
}

/// `s` completado com `b` até um múltiplo de 4.
pub open spec fn alinhado(s: Seq<u8>, b: u8) -> Seq<u8> {
    s + Seq::new(enchimento(s.len()), |_i: int| b)
}

/// O arquivo GLB com o JSON `json` e o binário `bin`: cabeçalho de 12 bytes
/// (mágica, versão 2, tamanho total), bloco JSON completado com espaços e bloco
/// binário completado com zeros. O tamanho total vai truncado a 32 bits.
pub open spec fn glb_spec(json: Seq<u8>, bin: Seq<u8>) -> Seq<u8> {
    let j = alinhado(json, 0x20);
    let b = alinhado(bin, 0);
    let total = 12 + 8 + j.len() + 8 + b.len();
    le32(MAGIC) + le32(2) + le32(total as u32) + le32(j.len() as u32) + le32(CHUNK_JSON) + j
        + le32(b.len() as u32) + le32(CHUNK_BIN) + b
}

fn empurrar_le32(v: u32, out: &mut Vec<u8>)
    ensures
        final(out)@ == old(out)@ + le32(v),
{
    let b0 = (v & 0xff) as u8;
    let b1 = ((v >> 8) & 0xff) as u8;
    let b2 = ((v >> 16) & 0xff) as u8;
    let b3 = (v >> 24) as u8;
    assert(v & 0xff == v % 256) by (bit_vector);
    assert((v >> 8) & 0xff == (v / 256) % 256) by (bit_vector);
    assert((v >> 16) & 0xff == (v / 65536) % 256) by (bit_vector);
    assert(v >> 24 == v / 16777216) by (bit_vector);
    out.push(b0);
    out.push(b1);
    out.push(b2);
    out.push(b3);
    assert(out@ =~= old(out)@ + le32(v));
}

fn empurrar_bytes(src: &[u8], out: &mut Vec<u8>)
    ensures
        final(out)@ == old(out)@ + src@,
{
    let mut i: usize = 0;
    while i < src.len()
        invariant
            i <= src.len(),
            out@ == old(out)@ + src@.take(i as int),
        decreases src.len() - i,
    {
        out.push(src[i]);
        i = i + 1;
        assert(out@ =~= old(out)@ + src@.take(i as int));
    }
    assert(src@.take(src.len() as int) =~= src@);
}

/// Completa `v` com `b` até um múltiplo de 4.
fn completar(v: &mut Vec<u8>, b: u8)
    ensures
        final(v)@ == alinhado(old(v)@, b),
{
    let ghost n = v@.len();
    while v.len() % 4 != 0
        invariant
            n == old(v)@.len(),
            n <= v@.len() <= n + enchimento(n),
            v@ == old(v)@ + Seq::new((v@.len() - n) as nat, |_i: int| b),
        decreases n + enchimento(n) - v@.len(),
    {
        v.push(b);
        assert(v@ =~= old(v)@ + Seq::new((v@.len() - n) as nat, |_i: int| b));
    }
    assert(v@.len() - n == enchimento(n));
    assert(v@ =~= alinhado(old(v)@, b));
}

/// Alinha o buffer a 4 bytes (com zeros) e devolve o deslocamento resultante.
pub fn alinhar(bin: &mut Vec<u8>) -> (r: usize)
    ensures
        final(bin)@ == alinhado(old(bin)@, 0),
        r == final(bin)@.len(),
{
    completar(bin, 0);
    bin.len()
}

/// Monta o contêiner GLB a partir dos dois blocos.
pub fn montar_glb(json: &str, bin: &[u8]) -> (r: Vec<u8>)
    requires
        json.spec_bytes().len() + bin@.len() + 40 <= usize::MAX,
    ensures
        r@ == glb_spec(json.spec_bytes(), bin@),
{
    let mut j: Vec<u8> = Vec::new();
    empurrar_bytes(json.as_bytes(), &mut j);
    completar(&mut j, 0x20);
    let mut b: Vec<u8> = Vec::new();
    empurrar_bytes(bin, &mut b);
    completar(&mut b, 0);
    let total = 12 + 8 + j.len() + 8 + b.len();
    let mut out: Vec<u8> = Vec::new();
    empurrar_le32(MAGIC, &mut out);
    empurrar_le32(2u32, &mut out);
    empurrar_le32(total as u32, &mut out);
    empurrar_le32(j.len() as u32, &mut out);
    empurrar_le32(CHUNK_JSON, &mut out);
    empurrar_bytes(j.as_slice(), &mut out);
    empurrar_le32(b.len() as u32, &mut out);
    empurrar_le32(CHUNK_BIN, &mut out);
    empurrar_bytes(b.as_slice(), &mut out);
    assert(out@ =~= glb_spec(json.spec_bytes(), bin@));
    out
}

/// Descrição JSON de um `bufferView`.
pub open spec fn view_spec(offset: nat, length: nat, alvo: nat) -> Seq<char> {
    "{\"buffer\":0,\"byteOffset\":"@ + decimal(offset) + ",\"byteLength\":"@ + decimal(length)
        + ",\"target\":"@ + decimal(alvo) + "}"@
}

/// Descrição JSON de um `bufferView` sobre o buffer 0.
pub fn view(offset: usize, length: usize, alvo: u32) -> (r: String)
    ensures
        r@ == view_spec(offset as nat, length as nat, alvo as nat),
{
    let mut v: Vec<char> = Vec::new();
    empurrar_texto(&mut v, "{\"buffer\":0,\"byteOffset\":");
    empurrar_decimal(offset as u64, &mut v);
    empurrar_texto(&mut v, ",\"byteLength\":");
    empurrar_decimal(length as u64, &mut v);
    empurrar_texto(&mut v, ",\"target\":");
    empurrar_decimal(alvo as u64, &mut v);
    empurrar_texto(&mut v, "}");
    string_de(&v)
}

/// Um caractere dentro de uma string JSON: aspas, barra invertida e controles
/// escapados (`\n`, `\r`, `\t` pelo nome, os demais como `\u00XX`).
pub open spec fn escapado(c: char) -> Seq<char> {
    if c == '"' {
        seq!['\\', '"']
    } else if c == '\\' {
        seq!['\\', '\\']
    } else if c == '\n' {
        seq!['\\', 'n']
    } else if c == '\r' {
        seq!['\\', 'r']
    } else if c == '\t' {
        seq!['\\', 't']
    } else if (c as u32) < 0x20 {
        seq!['\\', 'u', '0', '0', algarismo_hex(((c as u32) / 16) as nat), algarismo_hex(((c as u32) % 16) as nat)]
    } else {
        seq![c]
    }
}

/// Corpo escapado de um texto.
pub open spec fn corpo_escapado(s: Seq<char>) -> Seq<char>
    decreases s.len(),
{
    if s.len() == 0 {
        Seq::empty()
    } else {
        corpo_escapado(s.drop_last()) + escapado(s.last())
    }
}

/// String JSON (entre aspas) com o texto `s`.
pub open spec fn escapar_spec(s: Seq<char>) -> Seq<char> {
    seq!['"'] + corpo_escapado(s) + seq!['"']
}

fn hex_exec(d: u32) -> (c: char)
    requires
        d < 16,
    ensures
        c == algarismo_hex(d as nat),
{
    let b = d as u8;
    if b < 10 { (48u8 + b) as char } else { (87u8 + b) as char }
}

/// String JSON com aspas e barras escapadas.
pub fn escapar(s: &str) -> (r: String)
    ensures
        r@ == escapar_spec(s@),
{
    let c = chars_de(s);
    let mut v: Vec<char> = Vec::new();
    v.push('"');
    let mut i: usize = 0;
    while i < c.len()
        invariant
            i <= c.len(),
            c@ == s@,
            v@ == seq!['"'] + corpo_escapado(c@.take(i as int)),
        decreases c.len() - i,
    {
        let x = c[i];
        let ghost antes = v@;
        if x == '"' {
            v.push('\\');
            v.push('"');
        } else if x == '\\' {
            v.push('\\');
            v.push('\\');
        } else if x == '\n' {
            v.push('\\');
            v.push('n');
        } else if x == '\r' {
            v.push('\\');
            v.push('r');
        } else if x == '\t' {
            v.push('\\');
            v.push('t');
        } else if (x as u32) < 0x20 {
            v.push('\\');
            v.push('u');
            v.push('0');
            v.push('0');
            v.push(hex_exec((x as u32) / 16));
            v.push(hex_exec((x as u32) % 16));
        } else {
            v.push(x);
        }
        proof {
            assert(v@ =~= antes + escapado(x));
            assert(c@.take(i + 1).drop_last() =~= c@.take(i as int));
        }
        i = i + 1;
    }
    v.push('"');
    assert(c@.take(c.len() as int) =~= c@);
    string_de(&v)
}

} // verus!
