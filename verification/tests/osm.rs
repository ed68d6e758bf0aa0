use arcz::osm::entidade::{classe_de_superficie, classificar_tags, ClasseEdificio, ClasseSuperficie, ClasseVia, Destino};
use arcz::osm::especies::{semente_da_posicao, Especie};
use arcz::osm::gltf_saida::{alinhar, escapar, montar_glb, view, CHUNK_BIN, CHUNK_JSON, MAGIC};
use arcz::osm::malha::{nome_classe_superficie, nome_classe_via, Opcoes};
use arcz::osm::overpass::{
    bbox_overpass, espelhos, montar_consulta, montar_consulta_do_retangulo, Camadas, ClienteOverpass, ATRIBUICAO,
};
use arcz::osm::proveniencia;

fn ler_u32(b: &[u8], off: usize) -> u32 {
    u32::from_le_bytes([b[off], b[off + 1], b[off + 2], b[off + 3]])
}

#[test]
fn classe_de_via_ignora_o_que_nao_e_via() {
    assert_eq!(ClasseVia::da_tag("residential"), Some(ClasseVia::Local));
    assert_eq!(ClasseVia::da_tag("bus_stop"), None);
    assert_eq!(ClasseVia::da_tag("street_lamp"), None);
}

#[test]
fn classe_de_edificio_pela_tag() {
    assert_eq!(ClasseEdificio::da_tag("apartments"), ClasseEdificio::Apartamentos);
    assert_eq!(ClasseEdificio::da_tag("church"), ClasseEdificio::Religioso);
    assert_eq!(ClasseEdificio::da_tag("yes"), ClasseEdificio::Outro);
}

#[test]
fn classificacao_de_way() {
    assert_eq!(
        classificar_tags(Some("house"), None, Some("residential"), None, None, None, None),
        Destino::Edificio(ClasseEdificio::Residencial)
    );
    assert_eq!(
        classificar_tags(Some("no"), None, Some("primary"), None, None, None, None),
        Destino::Via(Some(ClasseVia::Arterial))
    );
    assert_eq!(
        classificar_tags(None, Some("roof"), None, None, None, None, None),
        Destino::Edificio(ClasseEdificio::Garagem)
    );
    assert_eq!(
        classificar_tags(None, None, None, None, Some("forest"), Some("park"), None),
        Destino::Superficie(Some(ClasseSuperficie::Mata))
    );
    assert_eq!(classe_de_superficie(None, None, None, Some("riverbank")), Some(ClasseSuperficie::Agua));
    assert_eq!(classe_de_superficie(Some("tree_row"), None, Some("pitch"), None), Some(ClasseSuperficie::Quadra));
    assert_eq!(classe_de_superficie(None, None, None, None), None);
}

#[test]
fn cada_especie_aponta_para_um_arquivo_do_kit() {
    for e in [Especie::Comum, Especie::Conica, Especie::Larga, Especie::Palmeira, Especie::Arbusto] {
        assert!(e.arquivo().starts_with("tree_"), "{:?}", e);
        assert!(!e.arquivo().ends_with(".glb"), "sem extensao: {:?}", e);
    }
}

#[test]
fn a_mesma_posicao_devolve_sempre_a_mesma_semente() {
    assert_eq!(semente_da_posicao(1234, -5678, 42), semente_da_posicao(1234, -5678, 42));
    assert_ne!(semente_da_posicao(1234, -5678, 42), semente_da_posicao(1235, -5678, 42));
}

#[test]
fn o_cabecalho_do_glb_esta_correto() {
    let glb = montar_glb("{\"asset\":{\"version\":\"2.0\"}}", &[1, 2, 3]);
    assert_eq!(&glb[0..4], b"glTF");
    assert_eq!(ler_u32(&glb, 0), MAGIC);
    assert_eq!(ler_u32(&glb, 4), 2);
    assert_eq!(ler_u32(&glb, 8) as usize, glb.len());
    assert_eq!(ler_u32(&glb, 16), CHUNK_JSON);
}

#[test]
fn os_chunks_terminam_em_multiplo_de_quatro() {
    let glb = montar_glb("{}", &[9, 9, 9, 9, 9]);
    let len_json = ler_u32(&glb, 12) as usize;
    assert_eq!(len_json % 4, 0);
    assert_eq!(&glb[20..24], b"{}  ");
    let off_bin = 20 + len_json;
    let len_bin = ler_u32(&glb, off_bin) as usize;
    assert_eq!(len_bin % 4, 0);
    assert_eq!(len_bin, 8);
    assert_eq!(ler_u32(&glb, off_bin + 4), CHUNK_BIN);
    assert_eq!(&glb[off_bin + 8..], &[9, 9, 9, 9, 9, 0, 0, 0]);
}

#[test]
fn lista_vazia_gera_glb_valido() {
    let glb = montar_glb("", &[]);
    assert_eq!(glb.len(), 28);
    assert_eq!(ler_u32(&glb, 0), MAGIC);
}

#[test]
fn alinhar_completa_com_zeros() {
    let mut b = vec![1u8, 2, 3, 4, 5];
    assert_eq!(alinhar(&mut b), 8);
    assert_eq!(b, vec![1, 2, 3, 4, 5, 0, 0, 0]);
    let mut c = vec![7u8; 4];
    assert_eq!(alinhar(&mut c), 4);
}

#[test]
fn view_e_escapar() {
    assert_eq!(view(16, 36, 34962), r#"{"buffer":0,"byteOffset":16,"byteLength":36,"target":34962}"#);
    assert_eq!(escapar("Casa"), "\"Casa\"");
    assert_eq!(escapar("a\"b\\c\nd\te\u{1}"), "\"a\\\"b\\\\c\\nd\\te\\u0001\"");
}

#[test]
fn nomes_das_malhas() {
    assert_eq!(nome_classe_via(ClasseVia::Pedestre), "calcada");
    assert_eq!(nome_classe_superficie(ClasseSuperficie::Praia), "areia");
    let o = Opcoes::default();
    assert!(o.semear_vegetacao && o.superficies && o.vias);
    assert_eq!(o.max_arvores, 4_000);
}

#[test]
fn a_consulta_usa_a_ordem_sul_oeste_norte_leste() {
    let b = "-27.1580000,-48.5060000,-27.1510000,-48.4985000";
    let q = montar_consulta(b, Camadas::apenas_edificios());
    assert!(q.contains("(-27.1580000,-48.5060000,-27.1510000,-48.4985000)"), "ordem da bbox errada em:\n{q}");
    assert!(q.contains("way[\"building\"]"));
    assert!(!q.contains("highway"));
    assert!(q.starts_with("[out:json][timeout:90];\n(\n"));
    assert!(q.ends_with(");\nout geom;\n"));
    let todas = montar_consulta(b, Camadas::default());
    assert!(todas.contains("node[\"natural\"=\"tree\"]"));
    assert_eq!(todas.matches(b).count(), 8);
}

#[test]
fn camadas_e_cache() {
    assert!(Camadas { edificios: false, vias: false, superficies: false, arvores: false }.nenhuma());
    assert!(!Camadas::apenas_edificios().nenhuma());
    let c = ClienteOverpass::novo("/cache");
    let a = c.caminho_cache("consulta");
    assert!(a.starts_with("/cache/overpass-"));
    assert!(a.ends_with(".json"));
    assert_eq!(a.len(), "/cache/overpass-".len() + 64 + ".json".len());
    assert_eq!(a, c.caminho_cache("consulta"));
    assert_ne!(a, c.caminho_cache("outra"));
    assert_eq!(espelhos().len(), 3);
    assert_eq!(c.timeout_s(), 120);
}

#[test]
fn a_proveniencia_declara_a_odbl() {
    let p = proveniencia();
    assert!(p.atribuicao_obrigatoria);
    assert!(p.share_alike_em_dados);
    assert_eq!(p.licenca, "ODbL 1.0");
    assert!(ATRIBUICAO.contains("OpenStreetMap"));
}

#[test]
fn retangulo_oeste_sul_leste_norte_vira_sul_oeste_norte_leste() {
    // GeoBBox de Bombinhas: oeste -48.506, sul -27.158, leste -48.4985, norte -27.151.
    let b = bbox_overpass("-48.5060000", "-27.1580000", "-48.4985000", "-27.1510000");
    assert_eq!(b, "-27.1580000,-48.5060000,-27.1510000,-48.4985000");
    let q = montar_consulta_do_retangulo("-48.5060000", "-27.1580000", "-48.4985000", "-27.1510000", Camadas::apenas_edificios());
    assert!(q.contains("(-27.1580000,-48.5060000,-27.1510000,-48.4985000)"), "ordem da bbox errada em:\n{q}");
}
