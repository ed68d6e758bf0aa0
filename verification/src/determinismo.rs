//! Gerador pseudoaleatório determinístico (SplitMix64): pequeno, rápido e
//! totalmente especificado, para que a mesma semente reproduza a mesma cena.

use vstd::prelude::*;
use vstd::wrapping::u64_specs;
use sha2::Digest;
use crate::texto::{hex, hex_de};

verus! {

/// Incremento de Weyl do SplitMix64; também é o estado de uma semente nula.
pub const GAMA: u64 = 0x9e3779b97f4a7c15;
/// Primeiro multiplicador do finalizador.
pub const MULT_1: u64 = 0xbf58476d1ce4e5b9;
/// Segundo multiplicador do finalizador.
pub const MULT_2: u64 = 0x94d049bb133111eb;

/// Finalizador do SplitMix64: espalha os bits de `z`.
#[verifier::opaque]
pub open spec fn finalizar(z: u64) -> u64 {
    let a = u64_specs::wrapping_mul(z ^ (z >> 30u64), MULT_1);
    let b = u64_specs::wrapping_mul(a ^ (a >> 27u64), MULT_2);
    b ^ (b >> 31u64)
}

/// Próximo estado do gerador.
pub open spec fn avancar(estado: u64) -> u64 {
    u64_specs::wrapping_add(estado, GAMA)
}

/// Valor sorteado ao avançar a partir de `estado`.
pub open spec fn sorteio(estado: u64) -> u64 {
    finalizar(avancar(estado))
}

/// Estado inicial para uma semente: a semente nula é trocada por `GAMA`.
pub open spec fn estado_inicial(semente: u64) -> u64 {
    if semente == 0 { GAMA } else { semente }
}

/// Os `n` primeiros valores sorteados a partir de `estado`.
pub open spec fn sorteios(estado: u64, n: nat) -> Seq<u64>
    decreases n,
{
    if n == 0 {
        Seq::empty()
    } else {
        seq![sorteio(estado)] + sorteios(avancar(estado), (n - 1) as nat)
    }
}

proof fn lema_xorshift_injetivo(x: u64, y: u64)
    ensures
        x ^ (x >> 30u64) == y ^ (y >> 30u64) ==> x == y,
        x ^ (x >> 27u64) == y ^ (y >> 27u64) ==> x == y,
        x ^ (x >> 31u64) == y ^ (y >> 31u64) ==> x == y,
{
    assert(x ^ (x >> 30u64) == y ^ (y >> 30u64) ==> x == y) by (bit_vector);
    assert(x ^ (x >> 27u64) == y ^ (y >> 27u64) ==> x == y) by (bit_vector);
    assert(x ^ (x >> 31u64) == y ^ (y >> 31u64) ==> x == y) by (bit_vector);
}

/// Multiplicar por `m` é desfeito por `inv` quando `m * inv ≡ 1 (mod 2^64)`.
proof fn lema_mul_desfeita(x: u64, m: u64, inv: u64, k: int)
    requires
        k >= 0,
        m as int * inv as int == 1 + k * 0x1_0000_0000_0000_0000,
    ensures
        (u64_specs::wrapping_mul(x, m) as int * inv as int) % 0x1_0000_0000_0000_0000 == x as int,
{
    let n: int = 0x1_0000_0000_0000_0000;
    let xm = x as int * m as int;
    assert(u64_specs::wrapping_mul(x, m) as int == xm % n);
    vstd::arithmetic::div_mod::lemma_mul_mod_noop_left(xm, inv as int, n);
    assert(xm * inv as int == x as int + (x as int * k) * n) by (nonlinear_arith)
        requires
            xm == x as int * m as int,
            m as int * inv as int == 1 + k * n,
    ;
    vstd::arithmetic::div_mod::lemma_mod_multiples_vanish(x as int * k, x as int, n);
    vstd::arithmetic::div_mod::lemma_small_mod(x as nat, n as nat);
}

proof fn lema_mul_injetiva(x: u64, y: u64, m: u64, inv: u64, k: int)
    requires
        k >= 0,
        m as int * inv as int == 1 + k * 0x1_0000_0000_0000_0000,
        u64_specs::wrapping_mul(x, m) == u64_specs::wrapping_mul(y, m),
    ensures
        x == y,
{
    lema_mul_desfeita(x, m, inv, k);
    lema_mul_desfeita(y, m, inv, k);
}

/// O finalizador do SplitMix64 é injetivo: estados distintos dão sorteios distintos.
pub proof fn lei_finalizador_injetivo(x: u64, y: u64)
    requires
        x != y,
    ensures
        finalizar(x) != finalizar(y),
{
    reveal(finalizar);
    let (ax, ay) = (u64_specs::wrapping_mul(x ^ (x >> 30u64), MULT_1), u64_specs::wrapping_mul(y ^ (y >> 30u64), MULT_1));
    let (bx, by) = (u64_specs::wrapping_mul(ax ^ (ax >> 27u64), MULT_2), u64_specs::wrapping_mul(ay ^ (ay >> 27u64), MULT_2));
    if finalizar(x) == finalizar(y) {
        lema_xorshift_injetivo(bx, by);
        assert(bx == by);
        lema_mul_injetiva(ax ^ (ax >> 27u64), ay ^ (ay >> 27u64), MULT_2, MULT_2_INVERSO, 2077064247507883091);
        lema_xorshift_injetivo(ax, ay);
        lema_mul_injetiva(x ^ (x >> 30u64), y ^ (y >> 30u64), MULT_1, MULT_1_INVERSO, 8125545580553827436);
        lema_xorshift_injetivo(x, y);
    }
}

/// A semente nula e a semente `GAMA` dão o mesmo gerador; fora esse par, sementes
/// distintas dão primeiros sorteios distintos.
pub proof fn lei_primeiro_sorteio_distingue_sementes(a: u64, b: u64, n: nat)
    ensures
        sorteios(estado_inicial(0), n) == sorteios(estado_inicial(GAMA), n),
        a != b && !(a == 0 && b == GAMA) && !(a == GAMA && b == 0)
            ==> sorteio(estado_inicial(a)) != sorteio(estado_inicial(b)),
{
    if a != b && !(a == 0 && b == GAMA) && !(a == GAMA && b == 0) {
        let (ea, eb) = (estado_inicial(a), estado_inicial(b));
        assert(ea != eb);
        assert(avancar(ea) != avancar(eb));
        lei_finalizador_injetivo(avancar(ea), avancar(eb));
    }
}

/// Limite de rejeição de `range_usize`: valores a partir dele são descartados
/// para que o resto da divisão por `vao` não tenha viés.
pub open spec fn zona(vao: u64) -> u64
    recommends vao > 0,
{
    (u64::MAX - (u64::MAX % vao)) as u64
}

/// Primeiro sorteio abaixo de `limite` em até `passos` tentativas a partir de
/// `estado`: o estado depois dele e o valor sorteado.
pub open spec fn primeiro_aceito(estado: u64, limite: u64, passos: nat) -> Option<(u64, u64)>
    decreases passos,
{
    if passos == 0 {
        None
    } else if sorteio(estado) < limite {
        Some((avancar(estado), sorteio(estado)))
    } else {
        primeiro_aceito(avancar(estado), limite, (passos - 1) as nat)
    }
}

/// Inverso multiplicativo de `GAMA` módulo 2^64.
pub const GAMA_INVERSO: u64 = 0xf1de83e19937733d;
/// Inverso multiplicativo de `MULT_1` módulo 2^64.
pub const MULT_1_INVERSO: u64 = 0x96de1b173f119089;
/// Inverso multiplicativo de `MULT_2` módulo 2^64.
pub const MULT_2_INVERSO: u64 = 0x319642b2d24d8ec3;

/// O estado que o finalizador leva em `t`: cada passo do finalizador desfeito.
pub open spec fn inverso_do_finalizador(t: u64) -> u64 {
    let b = t ^ (t >> 31u64) ^ (t >> 62u64);
    let a0 = u64_specs::wrapping_mul(b, MULT_2_INVERSO);
    let a = a0 ^ (a0 >> 27u64) ^ (a0 >> 54u64);
    let z0 = u64_specs::wrapping_mul(a, MULT_1_INVERSO);
    z0 ^ (z0 >> 30u64) ^ (z0 >> 60u64)
}

proof fn lema_xorshift_desfeito(y: u64)
    ensures
        (y ^ (y >> 30u64) ^ (y >> 60u64)) ^ ((y ^ (y >> 30u64) ^ (y >> 60u64)) >> 30u64) == y,
        (y ^ (y >> 27u64) ^ (y >> 54u64)) ^ ((y ^ (y >> 27u64) ^ (y >> 54u64)) >> 27u64) == y,
        (y ^ (y >> 31u64) ^ (y >> 62u64)) ^ ((y ^ (y >> 31u64) ^ (y >> 62u64)) >> 31u64) == y,
{
    assert((y ^ (y >> 30u64) ^ (y >> 60u64)) ^ ((y ^ (y >> 30u64) ^ (y >> 60u64)) >> 30u64) == y) by (bit_vector);
    assert((y ^ (y >> 27u64) ^ (y >> 54u64)) ^ ((y ^ (y >> 27u64) ^ (y >> 54u64)) >> 27u64) == y) by (bit_vector);
    assert((y ^ (y >> 31u64) ^ (y >> 62u64)) ^ ((y ^ (y >> 31u64) ^ (y >> 62u64)) >> 31u64) == y) by (bit_vector);
}

/// O finalizador é sobrejetivo: todo valor de 64 bits é sorteado a partir de
/// algum estado.
pub proof fn lei_finalizador_sobrejetivo(t: u64)
    ensures
        finalizar(inverso_do_finalizador(t)) == t,
{
    reveal(finalizar);
    let b = t ^ (t >> 31u64) ^ (t >> 62u64);
    let a0 = u64_specs::wrapping_mul(b, MULT_2_INVERSO);
    let a = a0 ^ (a0 >> 27u64) ^ (a0 >> 54u64);
    let z0 = u64_specs::wrapping_mul(a, MULT_1_INVERSO);
    let z = z0 ^ (z0 >> 30u64) ^ (z0 >> 60u64);
    lema_xorshift_desfeito(z0);
    assert(z ^ (z >> 30u64) == z0);
    lema_mul_desfeita(a, MULT_1_INVERSO, MULT_1, 8125545580553827436);
    assert(u64_specs::wrapping_mul(z0, MULT_1) == a);
    lema_xorshift_desfeito(a0);
    assert(a ^ (a >> 27u64) == a0);
    lema_mul_desfeita(b, MULT_2_INVERSO, MULT_2, 2077064247507883091);
    assert(u64_specs::wrapping_mul(a0, MULT_2) == b);
    lema_xorshift_desfeito(t);
    assert(b ^ (b >> 31u64) == t);
}

/// Estado depois de `j` avanços a partir de `s`.
pub open spec fn estado_apos(s: u64, j: nat) -> u64
    decreases j,
{
    if j == 0 { s } else { avancar(estado_apos(s, (j - 1) as nat)) }
}

proof fn lema_estado_apos_fechado(s: u64, j: nat)
    ensures
        estado_apos(s, j) as int == (s as int + j * GAMA as int) % 0x1_0000_0000_0000_0000,
    decreases j,
{
    let n: int = 0x1_0000_0000_0000_0000;
    if j == 0 {
        vstd::arithmetic::div_mod::lemma_small_mod(s as nat, n as nat);
    } else {
        lema_estado_apos_fechado(s, (j - 1) as nat);
        let x = estado_apos(s, (j - 1) as nat);
        let y = x as int + GAMA as int;
        if y > u64::MAX {
            vstd::arithmetic::div_mod::lemma_mod_multiples_vanish(1, y - n, n);
            vstd::arithmetic::div_mod::lemma_small_mod((y - n) as nat, n as nat);
        } else {
            vstd::arithmetic::div_mod::lemma_small_mod(y as nat, n as nat);
        }
        assert(avancar(x) as int == y % n);
        vstd::arithmetic::div_mod::lemma_small_mod(GAMA as nat, n as nat);
        vstd::arithmetic::div_mod::lemma_add_mod_noop(s as int + (j - 1) * GAMA as int, GAMA as int, n);
        assert(s as int + (j - 1) * GAMA as int + GAMA as int == s as int + j * GAMA as int) by (nonlinear_arith);
    }
}

proof fn lema_estado_apos_desloca(s: u64, j: nat)
    ensures
        estado_apos(avancar(s), j) == estado_apos(s, j + 1),
    decreases j,
{
    assert(estado_apos(s, 0) == s);
    if j > 0 {
        lema_estado_apos_desloca(s, (j - 1) as nat);
        assert(estado_apos(s, j + 1) == avancar(estado_apos(s, j)));
    } else {
        assert(estado_apos(s, 1) == avancar(estado_apos(s, 0)));
    }
}

/// Todo estado é alcançado a partir de `s` em menos de 2^64 avanços.
proof fn lema_estado_alcancado(s: u64, w: u64) -> (j: nat)
    ensures
        j < 0x1_0000_0000_0000_0000,
        estado_apos(s, j) == w,
{
    let n: int = 0x1_0000_0000_0000_0000;
    let g: int = GAMA as int;
    let gi: int = GAMA_INVERSO as int;
    let kg: int = 10771413168148108919;
    assert(g * gi == 1 + kg * n);
    let e: int = w as int - s as int;
    let d: int = e % n;
    let c: int = e / n;
    vstd::arithmetic::div_mod::lemma_fundamental_div_mod(e, n);
    vstd::arithmetic::div_mod::lemma_mod_bound(e, n);
    let q: int = (d * gi) / n;
    let j: int = (d * gi) % n;
    vstd::arithmetic::div_mod::lemma_fundamental_div_mod(d * gi, n);
    vstd::arithmetic::div_mod::lemma_mod_bound(d * gi, n);
    assert(s as int + j * g == w as int + n * (d * kg - q * g - c)) by (nonlinear_arith)
        requires
            e == w as int - s as int,
            e == n * c + d,
            d * gi == n * q + j,
            g * gi == 1 + kg * n,
    ;
    vstd::arithmetic::div_mod::lemma_mod_multiples_vanish(d * kg - q * g - c, w as int, n);
    vstd::arithmetic::div_mod::lemma_small_mod(w as nat, n as nat);
    lema_estado_apos_fechado(s, j as nat);
    j as nat
}

proof fn lema_aceito_ate(s: u64, limite: u64, passos: nat, j: nat)
    requires
        1 <= j <= passos,
        finalizar(estado_apos(s, j)) < limite,
    ensures
        primeiro_aceito(s, limite, passos) is Some,
    decreases passos,
{
    if sorteio(s) >= limite {
        lema_estado_apos_desloca(s, (j - 1) as nat);
        if j == 1 {
            assert(estado_apos(s, 1) == avancar(s));
        } else {
            lema_aceito_ate(avancar(s), limite, (passos - 1) as nat, (j - 1) as nat);
        }
    }
}

/// A partir de qualquer estado, com um limite de pelo menos 2, algum dos
/// primeiros 2^64 - 1 sorteios fica abaixo do limite: `range_usize` sempre
/// termina com um sorteio aceito.
pub proof fn lei_rejeicao_sempre_aceita(s: u64, limite: u64)
    requires
        limite >= 2,
    ensures
        primeiro_aceito(s, limite, u64::MAX as nat) is Some,
{
    let w0 = inverso_do_finalizador(0);
    let w1 = inverso_do_finalizador(1);
    lei_finalizador_sobrejetivo(0);
    lei_finalizador_sobrejetivo(1);
    let w = if w0 != s { w0 } else { w1 };
    assert(w != s);
    assert(finalizar(w) < 2);
    let j = lema_estado_alcancado(s, w);
    assert(j != 0);
    lema_aceito_ate(s, limite, u64::MAX as nat, j);
}

/// A zona de aceitação tem ao menos dois valores.
proof fn lema_zona_ao_menos_dois(vao: u64)
    requires
        vao > 0,
    ensures
        zona(vao) >= 2,
{
    let m: int = u64::MAX as int;
    let v: int = vao as int;
    vstd::arithmetic::div_mod::lemma_fundamental_div_mod(m, v);
    vstd::arithmetic::div_mod::lemma_mod_bound(m, v);
    let q = m / v;
    let r = m % v;
    if v == 1 {
        assert(r == 0);
    } else {
        assert(q >= 1) by (nonlinear_arith)
            requires
                m == v * q + r,
                0 <= r < v,
                v <= m,
        ;
        assert(v * q >= v) by (nonlinear_arith)
            requires
                q >= 1,
                v > 0,
        ;
    }
}

/// Gerador SplitMix64.
#[derive(Debug, Clone)]
pub struct DeterministicRng {
    state: u64,
}

impl DeterministicRng {
    /// Estado interno (o acumulador de Weyl).
    pub closed spec fn estado(&self) -> u64 {
        self.state
    }

    pub fn new(seed: u64) -> (r: Self)
        ensures
            r.estado() == estado_inicial(seed),
    {
        Self { state: if seed == 0 { GAMA } else { seed } }
    }

    pub fn next_u64(&mut self) -> (v: u64)
        ensures
            final(self).estado() == avancar(old(self).estado()),
            v == sorteio(old(self).estado()),
    {
        proof { reveal(finalizar); }
        self.state = self.state.wrapping_add(GAMA);
        let mut z = self.state;
        z = (z ^ (z >> 30)).wrapping_mul(MULT_1);
        z = (z ^ (z >> 27)).wrapping_mul(MULT_2);
        z ^ (z >> 31)
    }

    /// Inteiro uniforme em `[start, end_exclusive)`, por rejeição (sem viés de
    /// módulo). Os sorteios a partir de `zona` são descartados.
    pub fn range_usize(&mut self, start: usize, end_exclusive: usize) -> (r: usize)
        requires
            start < end_exclusive,
        ensures
            start <= r < end_exclusive,
            primeiro_aceito(old(self).estado(), zona((end_exclusive - start) as u64), u64::MAX as nat)
                matches Some((e, v)) && r == start + v % ((end_exclusive - start) as u64) && final(self).estado() == e,
    {
        let span = (end_exclusive - start) as u64;
        let zone = u64::MAX - (u64::MAX % span);
        let ghost inicio = self.state;
        let mut restantes: u64 = u64::MAX;
        let mut ultimo: u64 = 0;
        while restantes > 0
            invariant
                span == (end_exclusive - start) as u64,
                span > 0,
                zone == zona(span),
                start < end_exclusive,
                inicio == old(self).estado(),
                primeiro_aceito(inicio, zone, u64::MAX as nat)
                    == primeiro_aceito(self.estado(), zone, restantes as nat),
            decreases restantes,
        {
            let ghost antes = self.estado();
            let value = self.next_u64();
            ultimo = value;
            if value < zone {
                assert(value % span < span);
                assert(primeiro_aceito(antes, zone, restantes as nat) == Some((avancar(antes), value)));
                let r = start + (value % span) as usize;
                return r;
            }
            restantes = restantes - 1;
        }
        proof {
            lema_zona_ao_menos_dois(span);
            lei_rejeicao_sempre_aceita(inicio, zone);
        }
        start + (ultimo % span) as usize
    }
}

/// Resumo SHA-256 de `dados` (32 bytes), tal como a crate `sha2` o calcula.
pub uninterp spec fn sha256_de(dados: Seq<u8>) -> Seq<u8>;

/// Chama `sha2::Sha256::digest`. Afirma só que o resultado é o resumo SHA-256
/// dos bytes dados (um valor de 32 bytes que depende apenas deles); o algoritmo
/// não é descrito aqui.
#[verifier::external_body]
pub(crate) fn sha256(dados: &[u8]) -> (r: Vec<u8>)
    ensures
        r@ == sha256_de(dados@),
        r@.len() == 32,
{
    sha2::Sha256::digest(dados).to_vec()
}

/// SHA-256 de `bytes` em hexadecimal minúsculo (64 caracteres).
pub fn sha256_hex(bytes: &[u8]) -> (r: String)
    ensures
        r@ == hex(sha256_de(bytes@)),
{
    let d = sha256(bytes);
    hex_de(d.as_slice())
}

} // verus!
