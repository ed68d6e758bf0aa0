//! Pedido de região: fontes ligadas, contexto ambiental e erros de validação.

use vstd::prelude::*;

verus! {

/// Fontes de dados ligadas num pedido.
#[derive(Debug, Clone, Copy, PartialEq, Eq, Structural, Default)]
pub struct SourceFlags {
    pub osm: bool,
    pub overture: bool,
    pub dem: bool,
    pub imagery: bool,
    pub street: bool,
}

/// Contexto ambiental da região.
#[derive(Debug, Clone, PartialEq, Eq)]
pub struct EnvironmentContext {
    pub biome: String,
    pub climate_profile: String,
    pub soil_profile: String,
}

/// Erros de um pedido de região.
#[derive(Debug, Clone, PartialEq, Eq)]
pub enum RegionError {
    NonFinite,
    InvalidBbox,
    InvalidFocus,
    InvalidRadius,
    NoProfiles,
    ProfileIdentity,
    MissingDistribution(String),
    InvalidDistribution(String),
}

} // verus!
