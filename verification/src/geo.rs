//! Indexação de tiles no esquema slippy/XYZ (Web Mercator): zoom, coluna e linha,
//! com o eixo Y crescendo para o sul.

use vstd::prelude::*;
use vstd::arithmetic::power2::pow2;
use vstd::bits::{lemma_u32_shl_is_mul, lemma_u32_pow2_no_overflow};
use vstd::arithmetic::div_mod::{lemma_fundamental_div_mod_converse, lemma_fundamental_div_mod};

verus! {

/// Erros de um retângulo geográfico.
#[derive(Debug, Clone, Copy, PartialEq, Eq, Structural)]
pub enum BBoxError {
    /// west >= east, ou o retângulo cruza o antimeridiano.
    LongitudeInvalida,
    /// south >= north.
    LatitudeInvalida,
    /// Fora do domínio do Web Mercator.
    ForaDoMercator,
}

impl BBoxError {
    /// Mensagem do erro.
    pub fn mensagem(&self) -> (r: &'static str)
        ensures
            r@ == match *self {
                BBoxError::LongitudeInvalida => "west deve ser menor que east (antimeridiano nao suportado)"@,
                BBoxError::LatitudeInvalida => "south deve ser menor que north"@,
                BBoxError::ForaDoMercator => "latitude fora do dominio do Web Mercator (|lat| <= 85.0511)"@,
            },
    {
        match self {
            BBoxError::LongitudeInvalida => "west deve ser menor que east (antimeridiano nao suportado)",
            BBoxError::LatitudeInvalida => "south deve ser menor que north",
            BBoxError::ForaDoMercator => "latitude fora do dominio do Web Mercator (|lat| <= 85.0511)",
        }
    }
}

/// Identificador de um tile: zoom, coluna (x, oeste→leste), linha (y, norte→sul).
#[derive(Debug, Clone, Copy, PartialEq, Eq, Structural, Hash)]
pub struct TileId {
    pub z: u8,
    pub x: u32,
    pub y: u32,
}

/// O tile está dentro da grade do seu zoom.
pub open spec fn tile_valido(t: TileId) -> bool {
    t.z < 32 && t.x < pow2(t.z as nat) && t.y < pow2(t.z as nat)
}

/// Linha na convenção TMS (y crescendo para o norte).
pub open spec fn tms_y(z: u8, y: u32) -> int {
    pow2(z as nat) - 1 - y
}

impl TileId {
    pub fn new(z: u8, x: u32, y: u32) -> (r: Self)
        ensures
            r == (TileId { z, x, y }),
    {
        TileId { z, x, y }
    }

    /// Quantidade de tiles por eixo neste zoom (2^z).
    pub fn count_per_axis(z: u8) -> (r: u32)
        requires
            z < 32,
        ensures
            r == pow2(z as nat),
    {
        proof {
            lemma_u32_pow2_no_overflow(z as nat);
            lemma_u32_shl_is_mul(1, z as u32);
        }
        1u32 << (z as u32)
    }

    /// Converte a linha para a convenção TMS (y crescendo para o norte).
    pub fn to_tms_y(&self) -> (r: u32)
        requires
            self.z < 32,
            self.y < pow2(self.z as nat),
        ensures
            r == tms_y(self.z, self.y),
    {
        Self::count_per_axis(self.z) - 1 - self.y
    }

    /// Tile do zoom anterior que contém este; o zoom 0 não tem pai.
    pub fn parent(&self) -> (r: Option<TileId>)
        ensures
            self.z == 0 ==> r is None,
            self.z > 0 ==> r == Some(TileId { z: (self.z - 1) as u8, x: self.x / 2, y: self.y / 2 }),
    {
        if self.z == 0 {
            None
        } else {
            Some(TileId::new(self.z - 1, self.x / 2, self.y / 2))
        }
    }
}

/// `v` preso ao intervalo `[0, 2^z - 1]` da grade do zoom `z`.
pub open spec fn na_grade(z: u8, v: i64) -> int {
    if v < 0 { 0 } else if v >= pow2(z as nat) { pow2(z as nat) - 1 } else { v as int }
}

fn prender(n: i64, v: i64) -> (w: u32)
    requires
        1 <= n <= 0x1_0000_0000,
    ensures
        w == (if v < 0 { 0 } else if v >= n { n - 1 } else { v as int }),
{
    if v < 0 {
        0u32
    } else if v >= n {
        (n - 1) as u32
    } else {
        v as u32
    }
}

impl TileId {
    /// Tile de coluna e linha já calculadas (podem cair fora da grade): cada
    /// índice é preso à grade do zoom, em vez de produzir um tile inválido.
    pub fn na_grade_do_zoom(z: u8, x: i64, y: i64) -> (r: Self)
        requires
            z < 32,
        ensures
            r.z == z,
            r.x == na_grade(z, x),
            r.y == na_grade(z, y),
            tile_valido(r),
    {
        let n = Self::count_per_axis(z) as i64;
        proof {
            lemma_u32_pow2_no_overflow(z as nat);
            vstd::arithmetic::power2::lemma_pow2_pos(z as nat);
        }
        TileId { z, x: prender(n, x), y: prender(n, y) }
    }
}

/// Converter a linha para TMS duas vezes devolve a linha original, e a linha TMS
/// fica dentro da grade.
pub proof fn lei_tms_involucao(z: u8, y: u32)
    requires
        z < 32,
        y < pow2(z as nat),
    ensures
        0 <= tms_y(z, y) < pow2(z as nat),
        tms_y(z, tms_y(z, y) as u32) == y,
{
    lemma_u32_pow2_no_overflow(z as nat);
}

/// O pai de um tile válido é válido e contém o filho: o filho é um dos quatro
/// tiles `2·pai + {0,1}` em cada eixo.
pub proof fn lei_pai_contem_filho(t: TileId)
    requires
        tile_valido(t),
        t.z > 0,
    ensures
        tile_valido(TileId { z: (t.z - 1) as u8, x: t.x / 2, y: t.y / 2 }),
        2 * (t.x / 2) <= t.x < 2 * (t.x / 2) + 2,
        2 * (t.y / 2) <= t.y < 2 * (t.y / 2) + 2,
{
    vstd::arithmetic::power2::lemma_pow2_unfold(t.z as nat);
}

/// Faixa retangular de tiles num mesmo zoom.
#[derive(Debug, Clone, Copy, PartialEq, Eq, Structural)]
pub struct TileRange {
    pub z: u8,
    pub x_min: u32,
    pub x_max: u32,
    pub y_min: u32,
    pub y_max: u32,
}

/// A faixa é bem formada: mínimos até os máximos, e largura e altura cabem em `u32`.
pub open spec fn faixa_valida(r: TileRange) -> bool {
    r.x_min <= r.x_max && r.y_min <= r.y_max
        && r.x_max - r.x_min < u32::MAX && r.y_max - r.y_min < u32::MAX
}

/// Largura da faixa, em tiles.
pub open spec fn largura(r: TileRange) -> int {
    r.x_max - r.x_min + 1
}

/// Altura da faixa, em tiles.
pub open spec fn altura(r: TileRange) -> int {
    r.y_max - r.y_min + 1
}

/// `k`-ésimo tile da faixa, linha a linha (norte→sul), cada linha de oeste a leste.
pub open spec fn tile_da_faixa(r: TileRange, k: int) -> TileId {
    TileId { z: r.z, x: (r.x_min + k % largura(r)) as u32, y: (r.y_min + k / largura(r)) as u32 }
}

/// Os tiles da faixa, na ordem de percurso.
pub open spec fn tiles_da_faixa(r: TileRange) -> Seq<TileId> {
    Seq::new((largura(r) * altura(r)) as nat, |k: int| tile_da_faixa(r, k))
}

/// Menor faixa que contém dois tiles do mesmo zoom.
pub open spec fn faixa_entre_spec(a: TileId, b: TileId) -> TileRange {
    TileRange {
        z: a.z,
        x_min: if a.x <= b.x { a.x } else { b.x },
        x_max: if a.x <= b.x { b.x } else { a.x },
        y_min: if a.y <= b.y { a.y } else { b.y },
        y_max: if a.y <= b.y { b.y } else { a.y },
    }
}

/// O tile está na faixa.
pub open spec fn na_faixa(r: TileRange, t: TileId) -> bool {
    t.z == r.z && r.x_min <= t.x <= r.x_max && r.y_min <= t.y <= r.y_max
}

impl TileRange {
    /// Menor faixa que contém os dois tiles (os cantos de um retângulo).
    pub fn entre(a: TileId, b: TileId) -> (r: Self)
        requires
            a.z == b.z,
        ensures
            r == faixa_entre_spec(a, b),
    {
        TileRange {
            z: a.z,
            x_min: if a.x <= b.x { a.x } else { b.x },
            x_max: if a.x <= b.x { b.x } else { a.x },
            y_min: if a.y <= b.y { a.y } else { b.y },
            y_max: if a.y <= b.y { b.y } else { a.y },
        }
    }

    /// Quantidade de tiles da faixa.
    pub fn count(&self) -> (r: u64)
        requires
            faixa_valida(*self),
        ensures
            r == largura(*self) * altura(*self),
    {
        let w = (self.x_max - self.x_min + 1) as u64;
        let h = (self.y_max - self.y_min + 1) as u64;
        assert(w * h <= 0xffff_ffffu64 * 0xffff_ffffu64) by (nonlinear_arith)
            requires
                w <= 0xffff_ffffu64,
                h <= 0xffff_ffffu64,
        ;
        w * h
    }

    /// Todos os tiles da faixa, linha a linha do norte para o sul, cada linha de
    /// oeste para leste.
    pub fn tiles(&self) -> (r: Vec<TileId>)
        requires
            faixa_valida(*self),
            largura(*self) * altura(*self) <= usize::MAX,
        ensures
            r@ == tiles_da_faixa(*self),
    {
        let w: u64 = (self.x_max - self.x_min) as u64 + 1;
        let h: u64 = (self.y_max - self.y_min) as u64 + 1;
        let mut r: Vec<TileId> = Vec::new();
        let mut j: u64 = 0;
        while j < h
            invariant
                w == largura(*self),
                h == altura(*self),
                faixa_valida(*self),
                largura(*self) * altura(*self) <= usize::MAX,
                j <= h,
                r@.len() == j * w,
                forall|k: int| 0 <= k < r@.len() ==> r@[k] == tile_da_faixa(*self, k),
            decreases h - j,
        {
            let mut i: u64 = 0;
            while i < w
                invariant
                    w == largura(*self),
                    h == altura(*self),
                    faixa_valida(*self),
                    largura(*self) * altura(*self) <= usize::MAX,
                    j < h,
                    i <= w,
                    r@.len() == j * w + i,
                    forall|k: int| 0 <= k < r@.len() ==> r@[k] == tile_da_faixa(*self, k),
                decreases w - i,
            {
                proof {
                    let k = j * w + i;
                    lemma_fundamental_div_mod_converse(k as int, w as int, j as int, i as int);
                    assert(k < largura(*self) * altura(*self)) by (nonlinear_arith)
                        requires
                            k == j * w + i,
                            i < w,
                            j < h,
                            w == largura(*self),
                            h == altura(*self),
                    ;
                }
                let x = self.x_min + (i as u32);
                let y = self.y_min + (j as u32);
                r.push(TileId::new(self.z, x, y));
                i = i + 1;
            }
            proof {
                assert(r@.len() == (j + 1) * w) by (nonlinear_arith)
                    requires
                        r@.len() == j * w + w,
                ;
            }
            j = j + 1;
        }
        assert(j * w == largura(*self) * altura(*self)) by (nonlinear_arith)
            requires
                j == h,
                w == largura(*self),
                h == altura(*self),
        ;
        assert(r@ =~= tiles_da_faixa(*self));
        r
    }
}

/// A faixa percorre exatamente `count()` tiles, todos distintos.
pub proof fn lei_faixa_sem_repeticao(r: TileRange)
    requires
        faixa_valida(r),
    ensures
        tiles_da_faixa(r).len() == largura(r) * altura(r),
        tiles_da_faixa(r).no_duplicates(),
{
    let s = tiles_da_faixa(r);
    let w = largura(r);
    assert(w > 0 && altura(r) > 0);
    assert(w * altura(r) >= 0) by (nonlinear_arith)
        requires w > 0, altura(r) > 0;
    assert forall|a: int, b: int| 0 <= a < s.len() && 0 <= b < s.len() && a != b implies s[a] != s[b] by {
        lemma_fundamental_div_mod(a, w);
        lemma_fundamental_div_mod(b, w);
        let h = altura(r);
        assert(0 <= a / w < h && 0 <= b / w < h) by (nonlinear_arith)
            requires
                0 <= a < w * h,
                0 <= b < w * h,
                w > 0,
                a == w * (a / w) + a % w,
                b == w * (b / w) + b % w,
                0 <= a % w < w,
                0 <= b % w < w,
        ;
        if s[a] == s[b] {
            assert(a % w == b % w);
            assert(a / w == b / w);
            assert(false);
        }
    }
}

/// A faixa entre dois tiles é a menor que contém os dois: ela os contém, e toda
/// faixa do mesmo zoom que contém os dois contém cada tile dela. Entre tiles
/// válidos ela é bem formada.
pub proof fn lei_faixa_entre_e_a_menor(a: TileId, b: TileId, outra: TileRange, t: TileId)
    requires
        a.z == b.z,
    ensures
        na_faixa(faixa_entre_spec(a, b), a),
        na_faixa(faixa_entre_spec(a, b), b),
        na_faixa(outra, a) && na_faixa(outra, b) && na_faixa(faixa_entre_spec(a, b), t) ==> na_faixa(outra, t),
        tile_valido(a) && tile_valido(b) ==> faixa_valida(faixa_entre_spec(a, b)),
{
    if tile_valido(a) && tile_valido(b) {
        lemma_u32_pow2_no_overflow(a.z as nat);
    }
}

} // verus!
