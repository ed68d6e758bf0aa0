//! Quantitativos BIM: unidade de custo e erros do levantamento.

use vstd::prelude::*;

verus! {

/// Unidade de um item de custo.
#[derive(Debug, Clone, Copy, PartialEq, Eq, Structural)]
pub enum CostUnit {
    SquareMeterWall,
    CubicMeterWall,
    SquareMeterFloor,
    Unit,
}

/// Erros do levantamento de quantitativos que não vêm do documento CAD.
#[derive(Debug, Clone, PartialEq, Eq)]
pub enum BimError {
    MissingGeometry(String),
    InvalidQuantity { node: String, field: String },
    InvalidUnitCost(String),
}

} // verus!
