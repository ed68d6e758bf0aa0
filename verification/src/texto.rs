//! Utilidades de texto: conversão entre `str`/`String` e sequências de caracteres.

use vstd::prelude::*;

verus! {

/// Caracteres de `s`, na ordem.
pub fn chars_de(s: &str) -> (v: Vec<char>)
    ensures
        v@ == s@,
{
    let mut v: Vec<char> = Vec::new();
    for c in it: s.chars()
        invariant
            v@ == it.seq().take(it.index() as int), it.seq() == s@,
    {
        v.push(c);
    }
    v
}

/// Acrescenta um caractere ao fim de `s` (`String::push`).
#[verifier::external_body]
pub(crate) fn empurrar_char(s: &mut String, c: char)
    ensures
        final(s)@ == old(s)@.push(c),
{
    s.push(c);
}

/// `String` com exatamente os caracteres de `v`.
pub fn string_de(v: &Vec<char>) -> (s: String)
    ensures
        s@ == v@,
{
    let mut s = String::new();
    let mut i: usize = 0;
    while i < v.len()
        invariant
            i <= v.len(),
            s@ == v@.take(i as int),
        decreases v.len() - i,
    {
        empurrar_char(&mut s, v[i]);
        i = i + 1;
        assert(v@.take(i as int) == v@.take((i - 1) as int).push(v@[i - 1]));
    }
    assert(v@.take(v.len() as int) == v@);
    s
}


/// `p` aparece em `s` a partir da posição `i`.
pub open spec fn ocorre_em(s: Seq<char>, p: Seq<char>, i: int) -> bool {
    0 <= i && i + p.len() <= s.len() && s.subrange(i, i + p.len()) == p
}

/// Posição da primeira ocorrência de `p` em `s` a partir de `k`.
pub open spec fn primeira_desde(s: Seq<char>, p: Seq<char>, k: int) -> Option<int>
    decreases s.len() + 1 - k,
{
    if k < 0 || k + p.len() > s.len() {
        None
    } else if ocorre_em(s, p, k) {
        Some(k)
    } else {
        primeira_desde(s, p, k + 1)
    }
}

/// Posição da primeira ocorrência de `p` em `s` (o `str::find` da biblioteca padrão,
/// contado em caracteres).
pub open spec fn primeira(s: Seq<char>, p: Seq<char>) -> Option<int> {
    primeira_desde(s, p, 0)
}

/// `v[i..i+p.len()] == p`.
pub fn ocorre_em_exec(v: &Vec<char>, p: &Vec<char>, i: usize) -> (r: bool)
    ensures
        r == ocorre_em(v@, p@, i as int),
{
    if i > v.len() || p.len() > v.len() - i {
        return false;
    }
    let mut j: usize = 0;
    while j < p.len()
        invariant
            i + p.len() <= v.len(),
            j <= p.len(),
            forall|k: int| 0 <= k < j ==> v@[i + k] == p@[k],
        decreases p.len() - j,
    {
        if v[i + j] != p[j] {
            assert(v@.subrange(i as int, i + p.len())[j as int] != p@[j as int]);
            return false;
        }
        j = j + 1;
    }
    assert(v@.subrange(i as int, i + p.len()) =~= p@);
    true
}

/// Primeira ocorrência de `p` em `v` a partir de `de`.
pub fn encontrar(v: &Vec<char>, p: &Vec<char>, de: usize) -> (r: Option<usize>)
    ensures
        r is None <==> primeira_desde(v@, p@, de as int) is None,
        r matches Some(k) ==> primeira_desde(v@, p@, de as int) == Some(k as int),
        r matches Some(k) ==> de <= k && k + p.len() <= v.len() && ocorre_em(v@, p@, k as int),
{
    if p.len() > v.len() || de > v.len() - p.len() {
        return None;
    }
    let mut k: usize = de;
    while k <= v.len() - p.len()
        invariant
            p.len() <= v.len(),
            de <= k <= v.len() - p.len() + 1,
            primeira_desde(v@, p@, de as int) == primeira_desde(v@, p@, k as int),
        decreases v.len() - p.len() + 1 - k,
    {
        if ocorre_em_exec(v, p, k) {
            return Some(k);
        }
        if k == v.len() - p.len() {
            assert(primeira_desde(v@, p@, k + 1) is None);
            return None;
        }
        k = k + 1;
    }
    None
}

/// `v[a..b]`.
pub fn fatia(v: &Vec<char>, a: usize, b: usize) -> (r: Vec<char>)
    requires
        a <= b <= v.len(),
    ensures
        r@ == v@.subrange(a as int, b as int),
{
    let mut r: Vec<char> = Vec::new();
    let mut i = a;
    while i < b
        invariant
            a <= i <= b <= v.len(),
            r@ == v@.subrange(a as int, i as int),
        decreases b - i,
    {
        r.push(v[i]);
        i = i + 1;
    }
    r
}

/// Concatenação de dois textos.
pub fn concatenar(a: &str, b: &str) -> (r: String)
    ensures
        r@ == a@ + b@,
{
    let mut r = String::new();
    r.append(a);
    r.append(b);
    r
}

/// Algarismo decimal de `d` (0 a 9).
pub open spec fn algarismo(d: nat) -> char {
    ((48 + d) as u8) as char
}

/// Representação decimal de `n`, sem zeros à esquerda.
pub open spec fn decimal(n: nat) -> Seq<char>
    decreases n,
{
    if n < 10 {
        seq![algarismo(n)]
    } else {
        decimal(n / 10).push(algarismo(n % 10))
    }
}

/// `n` em decimal completado com zeros à esquerda até `largura` caracteres
/// (o `{:0largura}` da formatação de Rust para inteiros não negativos).
pub open spec fn com_zeros(n: nat, largura: nat) -> Seq<char> {
    let d = decimal(n);
    if d.len() >= largura {
        d
    } else {
        Seq::new((largura - d.len()) as nat, |_i: int| '0') + d
    }
}

fn algarismo_exec(d: u64) -> (c: char)
    requires
        d < 10,
    ensures
        c == algarismo(d as nat),
{
    let b: u8 = 48u8 + (d as u8);
    b as char
}

/// Acrescenta a `saida` os algarismos decimais de `n`.
pub fn empurrar_decimal(n: u64, saida: &mut Vec<char>)
    ensures
        final(saida)@ == old(saida)@ + decimal(n as nat),
    decreases n,
{
    if n >= 10 {
        empurrar_decimal(n / 10, saida);
    }
    let c = algarismo_exec(n % 10);
    let ghost antes = saida@;
    saida.push(c);
    proof {
        if n >= 10 {
            assert(saida@ == old(saida)@ + decimal(n as nat)) by {
                assert(antes == old(saida)@ + decimal((n / 10) as nat));
                assert((old(saida)@ + decimal((n / 10) as nat)).push(c)
                    =~= old(saida)@ + decimal((n / 10) as nat).push(c));
            }
        } else {
            assert(saida@ =~= old(saida)@ + decimal(n as nat));
        }
    }
}

/// Acrescenta a `saida` o número `n` com zeros à esquerda até `largura`.
pub fn empurrar_com_zeros(n: u64, largura: usize, saida: &mut Vec<char>)
    ensures
        final(saida)@ == old(saida)@ + com_zeros(n as nat, largura as nat),
{
    let mut digitos: Vec<char> = Vec::new();
    empurrar_decimal(n, &mut digitos);
    assert(digitos@ =~= decimal(n as nat));
    let ghost inicio = saida@;
    let mut k: usize = digitos.len();
    while k < largura
        invariant
            digitos@ == decimal(n as nat),
            digitos.len() <= k <= largura || k == digitos.len(),
            saida@ == inicio + Seq::new((k - digitos.len()) as nat, |_i: int| '0'),
        decreases largura - k,
    {
        saida.push('0');
        k = k + 1;
        assert(saida@ =~= inicio + Seq::new((k - digitos.len()) as nat, |_i: int| '0'));
    }
    let mut i: usize = 0;
    let ghost meio = saida@;
    while i < digitos.len()
        invariant
            i <= digitos.len(),
            saida@ == meio + digitos@.take(i as int),
        decreases digitos.len() - i,
    {
        saida.push(digitos[i]);
        i = i + 1;
        assert(saida@ =~= meio + digitos@.take(i as int));
    }
    assert(digitos@.take(digitos.len() as int) =~= digitos@);
    if digitos.len() >= largura {
        assert(meio =~= inicio);
        assert(saida@ =~= old(saida)@ + com_zeros(n as nat, largura as nat));
    } else {
        assert(saida@ =~= old(saida)@ + com_zeros(n as nat, largura as nat));
    }
}

/// Algarismo hexadecimal minúsculo de `d` (0 a 15).
pub open spec fn algarismo_hex(d: nat) -> char {
    if d < 10 { ((48 + d) as u8) as char } else { ((87 + d) as u8) as char }
}

/// Bytes em hexadecimal minúsculo, dois algarismos por byte (`{:02x}`).
pub open spec fn hex(s: Seq<u8>) -> Seq<char>
    decreases s.len(),
{
    if s.len() == 0 {
        Seq::empty()
    } else {
        hex(s.drop_last()) + seq![algarismo_hex((s.last() / 16) as nat), algarismo_hex((s.last() % 16) as nat)]
    }
}

fn algarismo_hex_exec(d: u8) -> (c: char)
    requires
        d < 16,
    ensures
        c == algarismo_hex(d as nat),
{
    if d < 10 {
        (48u8 + d) as char
    } else {
        (87u8 + d) as char
    }
}

/// `bytes` em hexadecimal minúsculo.
pub fn hex_de(bytes: &[u8]) -> (r: String)
    ensures
        r@ == hex(bytes@),
{
    let mut v: Vec<char> = Vec::new();
    let mut i: usize = 0;
    while i < bytes.len()
        invariant
            i <= bytes.len(),
            v@ == hex(bytes@.take(i as int)),
        decreases bytes.len() - i,
    {
        let b = bytes[i];
        v.push(algarismo_hex_exec(b / 16));
        v.push(algarismo_hex_exec(b % 16));
        i = i + 1;
        proof {
            let t = bytes@.take(i as int);
            assert(t.drop_last() =~= bytes@.take(i - 1));
            assert(t.last() == b);
            assert(v@ =~= hex(t));
        }
    }
    assert(bytes@.take(bytes.len() as int) =~= bytes@);
    string_de(&v)
}

/// Acrescenta a `v` os caracteres de `s`.
pub fn empurrar_texto(v: &mut Vec<char>, s: &str)
    ensures
        final(v)@ == old(v)@ + s@,
{
    let c = chars_de(s);
    let mut i: usize = 0;
    while i < c.len()
        invariant
            i <= c.len(),
            c@ == s@,
            v@ == old(v)@ + c@.take(i as int),
        decreases c.len() - i,
    {
        v.push(c[i]);
        i = i + 1;
        assert(v@ =~= old(v)@ + c@.take(i as int));
    }
    assert(c@.take(c.len() as int) =~= c@);
}

/// Ordem lexicográfica estrita a partir da posição `i` (a ordem de `String`).
pub open spec fn lex_menor_desde(a: Seq<char>, b: Seq<char>, i: int) -> bool
    decreases a.len() - i,
{
    if i < 0 || i > a.len() || i > b.len() {
        false
    } else if i == a.len() {
        i < b.len()
    } else if i == b.len() {
        false
    } else if a[i] != b[i] {
        a[i] < b[i]
    } else {
        lex_menor_desde(a, b, i + 1)
    }
}

/// `a` vem antes de `b` na ordem de `String`.
pub open spec fn lex_menor(a: Seq<char>, b: Seq<char>) -> bool {
    lex_menor_desde(a, b, 0)
}

pub proof fn lema_lex_total(a: Seq<char>, b: Seq<char>, i: int)
    requires
        0 <= i <= a.len(),
        i <= b.len(),
        forall|k: int| 0 <= k < i ==> a[k] == b[k],
        a != b,
    ensures
        lex_menor_desde(a, b, i) || lex_menor_desde(b, a, i),
    decreases a.len() - i,
{
    if i == a.len() && i == b.len() {
        assert(a =~= b);
    } else if i == a.len() {
        assert(lex_menor_desde(a, b, i));
    } else if i == b.len() {
        assert(lex_menor_desde(b, a, i));
    } else if a[i] == b[i] {
        lema_lex_total(a, b, i + 1);
    }
}

pub proof fn lema_lex_transitivo(a: Seq<char>, b: Seq<char>, c: Seq<char>, i: int)
    requires
        0 <= i,
        lex_menor_desde(a, b, i),
        lex_menor_desde(b, c, i),
    ensures
        lex_menor_desde(a, c, i),
    decreases a.len() - i,
{
    if i < a.len() && i < b.len() && i < c.len() && a[i] == b[i] && b[i] == c[i] {
        lema_lex_transitivo(a, b, c, i + 1);
    }
}

pub proof fn lema_lex_irreflexivo(a: Seq<char>, i: int)
    requires
        0 <= i,
    ensures
        !lex_menor_desde(a, a, i),
    decreases a.len() - i,
{
    if i < a.len() {
        lema_lex_irreflexivo(a, i + 1);
    }
}

pub fn lex_menor_exec(a: &Vec<char>, b: &Vec<char>) -> (r: bool)
    ensures
        r == lex_menor(a@, b@),
{
    let mut i: usize = 0;
    while i < a.len() && i < b.len() && a[i] == b[i]
        invariant
            i <= a.len(),
            i <= b.len(),
            lex_menor(a@, b@) == lex_menor_desde(a@, b@, i as int),
        decreases a.len() - i,
    {
        i = i + 1;
    }
    if i == a.len() {
        i < b.len()
    } else if i == b.len() {
        false
    } else {
        a[i] < b[i]
    }
}

} // verus!
