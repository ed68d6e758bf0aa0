//! Núcleo verificado do ARCZ: regras, formatos e máquinas de estado do
//! editor e do gerador de entorno, com contratos provados.

pub mod determinismo;
pub mod earth;
pub mod fachada;
pub mod texto;
pub mod workspace;
pub mod calendario;
pub mod geracao;
pub mod biblioteca;
pub mod bim;
pub mod cad;
pub mod geo;
pub mod jobs;
pub mod modelo;
pub mod orcamento;
pub mod osm;
pub mod plugins;
pub mod procedural;
pub mod proveniencia;
pub mod regiao;
