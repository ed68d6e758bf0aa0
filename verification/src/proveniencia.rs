//! Rastreabilidade de proveniência e licenças das fontes externas.

use vstd::prelude::*;

verus! {

/// Licença de uma fonte externa.
#[derive(Debug, Clone, Copy, PartialEq, Eq, Structural)]
pub enum LicenseType {
    /// OpenStreetMap.
    ODbL,
    /// Poly Haven, Kenney.
    CC0,
    /// Creative Commons Attribution 4.0.
    CcBy40,
    /// CesiumJS.
    Apache20,
    MIT,
    Proprietary,
    Unknown,
}

/// Licenças que permitem uso comercial.
pub open spec fn licenca_segura(l: LicenseType) -> bool {
    l == LicenseType::ODbL || l == LicenseType::CC0 || l == LicenseType::CcBy40
        || l == LicenseType::Apache20 || l == LicenseType::MIT
}

/// Licenças cujo conteúdo pode ir para o cache local: todas menos a proprietária.
pub open spec fn cache_permitido(l: LicenseType) -> bool {
    l != LicenseType::Proprietary
}

/// Registro de uma fonte externa.
#[derive(Debug, Clone)]
pub struct ExternalSourceRecord {
    pub source_id: String,
    pub provider_name: String,
    pub license: LicenseType,
    pub version: String,
    pub checksum_sha256: String,
    pub cache_allowed: bool,
    pub confidence_level: String,
}

impl ExternalSourceRecord {
    /// Registro novo: versão `2026.07`, confiança `High`, e cache permitido salvo
    /// para fonte proprietária.
    pub fn new(source_id: &str, provider_name: &str, license: LicenseType, checksum: &str) -> (r: Self)
        ensures
            r.source_id@ == source_id@,
            r.provider_name@ == provider_name@,
            r.license == license,
            r.version@ == "2026.07"@,
            r.checksum_sha256@ == checksum@,
            r.cache_allowed == cache_permitido(license),
            r.confidence_level@ == "High"@,
    {
        ExternalSourceRecord {
            source_id: source_id.to_owned(),
            provider_name: provider_name.to_owned(),
            license,
            version: "2026.07".to_owned(),
            checksum_sha256: checksum.to_owned(),
            cache_allowed: license != LicenseType::Proprietary,
            confidence_level: "High".to_owned(),
        }
    }

    /// `true` se a licença permite uso comercial.
    pub fn is_commercially_safe(&self) -> (r: bool)
        ensures
            r == licenca_segura(self.license),
    {
        match self.license {
            LicenseType::ODbL | LicenseType::CC0 | LicenseType::CcBy40 | LicenseType::Apache20 | LicenseType::MIT => true,
            _ => false,
        }
    }
}

/// Todo registro de fonte comercialmente segura permite cache: uma licença
/// segura nunca é proprietária.
pub proof fn lei_fonte_segura_pode_ir_ao_cache(l: LicenseType)
    requires
        licenca_segura(l),
    ensures
        cache_permitido(l),
{
}

} // verus!
