//! Fachada modular: o tipo de cada módulo da grade.

use vstd::prelude::*;

verus! {

/// Tipo de módulo da fachada.
#[derive(Debug, Clone, Copy, PartialEq, Eq, Structural)]
pub enum ModuleKind {
    Wall,
    Window,
    Balcony,
    Shopfront,
    Entrance,
    Service,
}

/// Erros do gerador de fachada.
#[derive(Debug, Clone, Copy, PartialEq, Eq, Structural)]
pub enum FacadeError {
    InvalidParameter,
}

/// Módulo do térreo comercial na coluna `column` de `columns`: a entrada fica
/// na coluna central e o resto é vitrine.
pub open spec fn modulo_terreo_spec(column: u32, columns: u32) -> ModuleKind {
    if column == columns / 2 { ModuleKind::Entrance } else { ModuleKind::Shopfront }
}

/// Módulo do térreo comercial.
pub fn modulo_do_terreo_comercial(column: u32, columns: u32) -> (r: ModuleKind)
    ensures
        r == modulo_terreo_spec(column, columns),
{
    if column == columns / 2 { ModuleKind::Entrance } else { ModuleKind::Shopfront }
}

/// Todo térreo comercial com ao menos uma coluna tem exatamente uma entrada, e
/// ela cai dentro da fachada.
pub proof fn lei_uma_entrada_por_terreo(columns: u32, a: u32)
    requires
        columns >= 1,
        a < columns,
    ensures
        columns / 2 < columns,
        modulo_terreo_spec(columns / 2, columns) == ModuleKind::Entrance,
        modulo_terreo_spec(a, columns) == ModuleKind::Entrance <==> a == columns / 2,
{
}

} // verus!
