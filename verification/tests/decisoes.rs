use arcz::earth::OperatingMode;
use arcz::fachada::{modulo_do_terreo_comercial, ModuleKind};
use arcz::orcamento::{decidir, Decision, Recurso};

#[test]
fn excedente_geometrico_pode_dividir() {
    assert_eq!(decidir(&[Recurso::Triangles]), Decision::Split);
}

#[test]
fn decisao_do_orcamento() {
    assert_eq!(decidir(&[]), Decision::Accept);
    assert_eq!(decidir(&[Recurso::Triangles, Recurso::CacheMb]), Decision::Split);
    assert_eq!(decidir(&[Recurso::Triangles, Recurso::CpuMs]), Decision::Reject);
    assert_eq!(Recurso::DrawCalls.nome(), "draw_calls");
}

#[test]
fn terreo_comercial_tem_uma_entrada_no_meio() {
    let kinds: Vec<ModuleKind> = (0..4).map(|c| modulo_do_terreo_comercial(c, 4)).collect();
    assert_eq!(kinds.iter().filter(|k| **k == ModuleKind::Entrance).count(), 1);
    assert_eq!(kinds[2], ModuleKind::Entrance);
}

#[test]
fn modo_padrao_e_offline_first() {
    assert_eq!(OperatingMode::default(), OperatingMode::OfflineFirst);
}
