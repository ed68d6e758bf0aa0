//! Parâmetros do gerador procedural: nível de qualidade, categorias, modo de
//! transparência e os valores padrão dos campos omitidos no pedido.

use vstd::prelude::*;

verus! {

/// Nível de qualidade da geração.
#[derive(Debug, Clone, Copy, PartialEq, Eq, Structural)]
pub enum Quality {
    Leve,
    Equilibrado,
    Alto,
    Cinematico,
}

impl Default for Quality {
    fn default() -> (r: Self)
        ensures
            r == Quality::Equilibrado,
    {
        Quality::Equilibrado
    }
}

/// O nível detalha a fachada: todos a partir do equilibrado.
pub open spec fn detalha_fachada(q: Quality) -> bool {
    q != Quality::Leve
}

/// O nível detalha as sacadas: só o alto e o cinemático.
pub open spec fn detalha_sacadas(q: Quality) -> bool {
    q == Quality::Alto || q == Quality::Cinematico
}

impl Quality {
    /// Fachada detalhada a partir do nível equilibrado.
    pub fn facade_detail(self) -> (r: bool)
        ensures
            r == detalha_fachada(self),
    {
        match self {
            Quality::Equilibrado | Quality::Alto | Quality::Cinematico => true,
            Quality::Leve => false,
        }
    }

    /// Sacadas detalhadas só nos níveis alto e cinemático.
    pub fn balcony_detail(self) -> (r: bool)
        ensures
            r == detalha_sacadas(self),
    {
        match self {
            Quality::Alto | Quality::Cinematico => true,
            Quality::Leve | Quality::Equilibrado => false,
        }
    }
}

/// Quem detalha sacadas também detalha a fachada.
pub proof fn lei_sacada_implica_fachada(q: Quality)
    ensures
        detalha_sacadas(q) ==> detalha_fachada(q),
{
}

/// Categoria de uma edificação gerada.
#[derive(Debug, Clone, Copy, PartialEq, Eq, Structural)]
pub enum BuildingCategory {
    House,
    Building,
    Commercial,
    Industrial,
}

impl Default for BuildingCategory {
    fn default() -> (r: Self)
        ensures
            r == BuildingCategory::House,
    {
        BuildingCategory::House
    }
}

/// Modo de transparência de um material.
#[derive(Debug, Clone, Copy, PartialEq, Eq, Structural)]
pub enum AlphaMode {
    Opaque,
    Mask,
    Blend,
}

impl Default for AlphaMode {
    fn default() -> (r: Self)
        ensures
            r == AlphaMode::Opaque,
    {
        AlphaMode::Opaque
    }
}

/// Padrão dos campos booleanos ligados.
pub fn default_true() -> (r: bool)
    ensures
        r,
{
    true
}

/// Material padrão do terreno.
pub fn default_terrain_material() -> (r: String)
    ensures
        r@ == "terrain.grass"@,
{
    "terrain.grass".to_owned()
}

/// Resolução padrão do terreno plano de reserva.
pub fn default_flat_resolution() -> (r: usize)
    ensures
        r == 2,
{
    2
}

/// Material padrão dos lotes.
pub fn default_parcel_material() -> (r: String)
    ensures
        r@ == "parcel.surface"@,
{
    "parcel.surface".to_owned()
}

/// Material padrão das vias.
pub fn default_road_material() -> (r: String)
    ensures
        r@ == "road.asphalt"@,
{
    "road.asphalt".to_owned()
}

/// Material padrão das calçadas.
pub fn default_sidewalk_material() -> (r: String)
    ensures
        r@ == "sidewalk.concrete"@,
{
    "sidewalk.concrete".to_owned()
}

/// Número padrão de pavimentos.
pub fn default_floors() -> (r: u32)
    ensures
        r == 1,
{
    1
}

/// Material padrão das paredes.
pub fn default_wall_material() -> (r: String)
    ensures
        r@ == "facade.offwhite"@,
{
    "facade.offwhite".to_owned()
}

/// Material padrão do telhado.
pub fn default_roof_material() -> (r: String)
    ensures
        r@ == "roof.ceramic"@,
{
    "roof.ceramic".to_owned()
}

/// Material padrão do vidro.
pub fn default_glass_material() -> (r: String)
    ensures
        r@ == "glass.window"@,
{
    "glass.window".to_owned()
}

/// Material padrão das sacadas.
pub fn default_balcony_material() -> (r: String)
    ensures
        r@ == "balcony.concrete"@,
{
    "balcony.concrete".to_owned()
}

/// Métricas de uma cena gerada.
#[derive(Debug, Clone, Copy, PartialEq, Eq, Structural)]
pub struct SceneMetrics {
    pub primitives: usize,
    pub instance_batches: usize,
    pub instances: usize,
    pub vertices: usize,
    pub triangles: usize,
    pub base_triangles: usize,
    pub materials: usize,
    pub geometry_bytes: usize,
}

/// Um edifício de categoria `valor` entra num pedido pela categoria `pedida`:
/// "casa" aceita só casas; "edifício" aceita tudo que não é casa; as demais,
/// só a mesma categoria.
pub fn category_matches(valor: BuildingCategory, pedida: BuildingCategory) -> (r: bool)
    ensures
        r == match pedida {
            BuildingCategory::House => valor == BuildingCategory::House,
            BuildingCategory::Building => valor != BuildingCategory::House,
            _ => valor == pedida,
        },
{
    match pedida {
        BuildingCategory::House => matches!(valor, BuildingCategory::House),
        BuildingCategory::Building => !matches!(valor, BuildingCategory::House),
        BuildingCategory::Commercial => matches!(valor, BuildingCategory::Commercial),
        BuildingCategory::Industrial => matches!(valor, BuildingCategory::Industrial),
    }
}

} // verus!
