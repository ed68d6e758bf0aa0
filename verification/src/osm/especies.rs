//! Escolha determinística de espécie para cada árvore: a mesma posição dá sempre
//! a mesma árvore, sem guardar nada. Os modelos são do Kenney Nature Kit (CC0).

use vstd::prelude::*;
use crate::determinismo::{sorteio, finalizar, GAMA, MULT_1, MULT_2};

verus! {

/// Como a árvore se parece. O nome é o prefixo do arquivo no kit.
#[derive(Debug, Clone, Copy, PartialEq, Eq, Structural, Hash)]
pub enum Especie {
    /// Copa arredondada e densa. A mais comum em rua de bairro.
    Comum,
    /// Copa cônica, tipo araucária ou pinheiro.
    Conica,
    /// Copa larga e baixa, de praça.
    Larga,
    /// Palmeira, dominante no litoral catarinense.
    Palmeira,
    /// Arbusto alto, para bordas e canteiros.
    Arbusto,
}

/// Nome-base do arquivo GLB da espécie no kit.
pub open spec fn arquivo_spec(e: Especie) -> Seq<char> {
    match e {
        Especie::Comum => "tree_default"@,
        Especie::Conica => "tree_cone"@,
        Especie::Larga => "tree_oak"@,
        Especie::Palmeira => "tree_palm"@,
        Especie::Arbusto => "tree_thin"@,
    }
}

impl Especie {
    /// Nome-base do arquivo GLB, sem extensão nem variação de estação.
    pub fn arquivo(self) -> (r: &'static str)
        ensures
            r@ == arquivo_spec(self),
    {
        match self {
            Especie::Comum => "tree_default",
            Especie::Conica => "tree_cone",
            Especie::Larga => "tree_oak",
            Especie::Palmeira => "tree_palm",
            Especie::Arbusto => "tree_thin",
        }
    }
}

/// Todo arquivo do kit começa por `tree_` e vem sem extensão `.glb`.
pub proof fn lei_arquivo_do_kit(e: Especie)
    ensures
        arquivo_spec(e).len() > 5,
        arquivo_spec(e).take(5) == "tree_"@,
        arquivo_spec(e).last() != 'b',
{
    reveal_strlit("tree_default");
    reveal_strlit("tree_cone");
    reveal_strlit("tree_oak");
    reveal_strlit("tree_palm");
    reveal_strlit("tree_thin");
    reveal_strlit("tree_");
    assert(arquivo_spec(e).take(5) =~= "tree_"@);
}

/// SplitMix64: espalha os bits do inteiro de entrada.
pub fn mistura(z: u64) -> (r: u64)
    ensures
        r == sorteio(z),
{
    proof { reveal(finalizar); }
    let z = z.wrapping_add(GAMA);
    let z = (z ^ (z >> 30)).wrapping_mul(MULT_1);
    let z = (z ^ (z >> 27)).wrapping_mul(MULT_2);
    z ^ (z >> 31)
}

/// Rotação de 32 bits para a esquerda de um `u64`.
pub open spec fn rotacao_32(v: u64) -> u64 {
    (v << 32u64) | (v >> 32u64)
}

/// Semente de uma árvore: posição quantizada em centímetros e semente da
/// superfície, misturadas.
pub open spec fn semente_da_posicao_spec(x_cm: i64, y_cm: i64, semente: u64) -> u64 {
    sorteio((x_cm as u64) ^ rotacao_32(y_cm as u64) ^ semente)
}

/// Semente de uma árvore a partir da posição já quantizada em centímetros: a
/// mesma posição dá sempre a mesma semente.
pub fn semente_da_posicao(x_cm: i64, y_cm: i64, semente: u64) -> (r: u64)
    ensures
        r == semente_da_posicao_spec(x_cm, y_cm, semente),
{
    let y = y_cm as u64;
    let rot = (y << 32u64) | (y >> 32u64);
    mistura((x_cm as u64) ^ rot ^ semente)
}

/// Cada espécie usa o seu arquivo do kit de árvores.
pub proof fn lei_tabela_das_especies()
    ensures
        arquivo_spec(Especie::Comum) == "tree_default"@,
        arquivo_spec(Especie::Conica) == "tree_cone"@,
        arquivo_spec(Especie::Larga) == "tree_oak"@,
        arquivo_spec(Especie::Palmeira) == "tree_palm"@,
        arquivo_spec(Especie::Arbusto) == "tree_thin"@,
{
}

} // verus!
