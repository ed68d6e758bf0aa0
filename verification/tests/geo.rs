use arcz::geo::{BBoxError, TileId, TileRange};

#[test]
fn tms_inverte_o_eixo_y() {
    let t = TileId::new(2, 1, 0);
    assert_eq!(t.to_tms_y(), 3);
    assert_eq!(TileId::new(2, 1, 3).to_tms_y(), 0);
}

#[test]
fn tiles_por_eixo() {
    assert_eq!(TileId::count_per_axis(0), 1);
    assert_eq!(TileId::count_per_axis(14), 16384);
    assert_eq!(TileId::count_per_axis(31), 1 << 31);
}

#[test]
fn parent_contem_o_filho() {
    let t = TileId::new(14, 6070, 9298);
    let p = t.parent().unwrap();
    assert_eq!(p.z, 13);
    assert_eq!(p, TileId::new(13, 3035, 4649));
    assert!(TileId::new(0, 0, 0).parent().is_none());
}

#[test]
fn range_devolve_count_tiles_distintos() {
    let range = TileRange { z: 14, x_min: 6068, x_max: 6072, y_min: 9296, y_max: 9299 };
    assert_eq!(range.count(), 20);
    let tiles = range.tiles();
    assert_eq!(tiles.len() as u64, range.count());
    let unicos: std::collections::HashSet<_> = tiles.iter().collect();
    assert_eq!(unicos.len(), tiles.len());
    assert_eq!(tiles[0], TileId::new(14, 6068, 9296));
    assert_eq!(tiles[5], TileId::new(14, 6068, 9297));
    assert_eq!(tiles[19], TileId::new(14, 6072, 9299));
}

#[test]
fn mensagens_de_bbox() {
    assert_eq!(BBoxError::LatitudeInvalida.mensagem(), "south deve ser menor que north");
}

#[test]
fn indices_fora_da_grade_sao_presos_ao_zoom() {
    let t = TileId::na_grade_do_zoom(3, -5, 99);
    assert_eq!(t, TileId::new(3, 0, 7));
    assert_eq!(TileId::na_grade_do_zoom(3, 4, 2), TileId::new(3, 4, 2));
    assert_eq!(TileId::na_grade_do_zoom(0, 1, -1), TileId::new(0, 0, 0));
}

#[test]
fn faixa_entre_dois_cantos_em_qualquer_ordem() {
    let a = TileId::new(10, 300, 50);
    let b = TileId::new(10, 290, 60);
    let r = TileRange::entre(a, b);
    assert_eq!(r, TileRange { z: 10, x_min: 290, x_max: 300, y_min: 50, y_max: 60 });
    assert_eq!(TileRange::entre(b, a), r);
    assert_eq!(r.count(), 11 * 11);
}
