//! Entorno a partir do OpenStreetMap: classificação das tags, espécies de
//! árvore, consulta Overpass e o contêiner GLB do exportador.

pub mod entidade;
pub mod especies;
pub mod malha;
pub mod gltf_saida;
pub mod overpass;

use vstd::prelude::*;

verus! {

/// Registro de proveniência de uma fonte de dados.
#[derive(Debug, Clone, Copy)]
pub struct Proveniencia {
    pub fonte: &'static str,
    pub licenca: &'static str,
    pub atribuicao_obrigatoria: bool,
    /// A ODbL torna share-alike qualquer base de dados derivada que seja
    /// redistribuída; imagens renderizadas não são afetadas.
    pub share_alike_em_dados: bool,
    pub url: &'static str,
}

/// Proveniência dos dados do entorno: OpenStreetMap sob ODbL 1.0, com atribuição
/// obrigatória e share-alike sobre os dados.
pub fn proveniencia() -> (r: Proveniencia)
    ensures
        r.fonte@ == "OpenStreetMap via Overpass API"@,
        r.licenca@ == "ODbL 1.0"@,
        r.atribuicao_obrigatoria,
        r.share_alike_em_dados,
        r.url@ == "https://www.openstreetmap.org/copyright"@,
{
    Proveniencia {
        fonte: "OpenStreetMap via Overpass API",
        licenca: "ODbL 1.0",
        atribuicao_obrigatoria: true,
        share_alike_em_dados: true,
        url: "https://www.openstreetmap.org/copyright",
    }
}

} // verus!
