//! Contratos do ARCZ Earth: modo de operação e artefatos de um pacote regional.

use vstd::prelude::*;

verus! {

/// Modo de operação do sistema.
#[derive(Debug, Clone, Copy, PartialEq, Eq, Structural)]
pub enum OperatingMode {
    OfflineStrict,
    OfflineFirst,
    HybridOptional,
}

impl Default for OperatingMode {
    /// O padrão seguro é não depender de rede, mas sem proibi-la: `OfflineFirst`.
    fn default() -> (r: Self)
        ensures
            r == OperatingMode::OfflineFirst,
    {
        OperatingMode::OfflineFirst
    }
}

/// Artefatos de um pacote regional offline.
#[derive(Debug, Clone, PartialEq, Eq)]
pub struct RegionalPackageArtifacts {
    pub basemap_pmtiles: Option<String>,
    pub terrain_tileset: Option<String>,
    pub buildings_tileset: Option<String>,
}

} // verus!
