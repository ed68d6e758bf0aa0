//! Ajustes do gerador de malha do entorno e a origem de cada malha.

use vstd::prelude::*;
use crate::osm::entidade::{ClasseVia, ClasseSuperficie};

verus! {

/// De onde uma malha veio.
#[derive(Debug, Clone, Copy, PartialEq, Eq, Structural)]
pub enum Origem {
    Edificio(i64),
    Vias(ClasseVia),
    Superficie(ClasseSuperficie),
    Vegetacao,
}

/// Ajustes do gerador.
#[derive(Debug, Clone, Copy, PartialEq, Eq, Structural)]
pub struct Opcoes {
    /// Semear árvores dentro dos polígonos de mata/grama, além das mapeadas.
    pub semear_vegetacao: bool,
    /// Teto de árvores geradas, para não explodir a cena numa área florestada.
    pub max_arvores: usize,
    /// Gerar as superfícies de uso do solo (parque, praia, água).
    pub superficies: bool,
    /// Gerar as faixas de via.
    pub vias: bool,
}

impl Default for Opcoes {
    fn default() -> (r: Self)
        ensures
            r == (Opcoes { semear_vegetacao: true, max_arvores: 4_000, superficies: true, vias: true }),
    {
        Opcoes { semear_vegetacao: true, max_arvores: 4_000, superficies: true, vias: true }
    }
}

/// Nome de uma classe de via no nome da malha.
pub open spec fn nome_classe_via_spec(c: ClasseVia) -> Seq<char> {
    match c {
        ClasseVia::Rodovia => "rodovia"@,
        ClasseVia::Arterial => "arterial"@,
        ClasseVia::Coletora => "coletora"@,
        ClasseVia::Local => "local"@,
        ClasseVia::Servico => "servico"@,
        ClasseVia::Pedestre => "calcada"@,
        ClasseVia::Trilha => "trilha"@,
    }
}

/// Nome de uma classe de via no nome da malha.
pub fn nome_classe_via(c: ClasseVia) -> (r: &'static str)
    ensures
        r@ == nome_classe_via_spec(c),
{
    match c {
        ClasseVia::Rodovia => "rodovia",
        ClasseVia::Arterial => "arterial",
        ClasseVia::Coletora => "coletora",
        ClasseVia::Local => "local",
        ClasseVia::Servico => "servico",
        ClasseVia::Pedestre => "calcada",
        ClasseVia::Trilha => "trilha",
    }
}

/// Nome de uma classe de superfície no nome da malha.
pub open spec fn nome_classe_superficie_spec(c: ClasseSuperficie) -> Seq<char> {
    match c {
        ClasseSuperficie::Mata => "mata"@,
        ClasseSuperficie::Grama => "grama"@,
        ClasseSuperficie::Praia => "areia"@,
        ClasseSuperficie::Agua => "agua"@,
        ClasseSuperficie::Quadra => "quadra"@,
    }
}

/// Nome de uma classe de superfície no nome da malha.
pub fn nome_classe_superficie(c: ClasseSuperficie) -> (r: &'static str)
    ensures
        r@ == nome_classe_superficie_spec(c),
{
    match c {
        ClasseSuperficie::Mata => "mata",
        ClasseSuperficie::Grama => "grama",
        ClasseSuperficie::Praia => "areia",
        ClasseSuperficie::Agua => "agua",
        ClasseSuperficie::Quadra => "quadra",
    }
}

/// Cada classe de via e de superfície tem o seu nome fixo no nome da malha.
pub proof fn lei_tabela_dos_nomes_de_malha()
    ensures
        nome_classe_via_spec(ClasseVia::Rodovia) == "rodovia"@,
        nome_classe_via_spec(ClasseVia::Arterial) == "arterial"@,
        nome_classe_via_spec(ClasseVia::Coletora) == "coletora"@,
        nome_classe_via_spec(ClasseVia::Local) == "local"@,
        nome_classe_via_spec(ClasseVia::Servico) == "servico"@,
        nome_classe_via_spec(ClasseVia::Pedestre) == "calcada"@,
        nome_classe_via_spec(ClasseVia::Trilha) == "trilha"@,
        nome_classe_superficie_spec(ClasseSuperficie::Mata) == "mata"@,
        nome_classe_superficie_spec(ClasseSuperficie::Grama) == "grama"@,
        nome_classe_superficie_spec(ClasseSuperficie::Praia) == "areia"@,
        nome_classe_superficie_spec(ClasseSuperficie::Agua) == "agua"@,
        nome_classe_superficie_spec(ClasseSuperficie::Quadra) == "quadra"@,
{
}

} // verus!
