use arcz::geracao::{civil_from_days, utc_from_seconds};

#[test]
fn epoch_e_utc() {
    assert_eq!(civil_from_days(0), (1970, 1, 1));
}

#[test]
fn leap_day() {
    assert_eq!(civil_from_days(18_321), (2020, 2, 29));
}

#[test]
fn utc_formata_o_instante() {
    assert_eq!(utc_from_seconds(0), "1970-01-01T00:00:00Z");
    assert_eq!(utc_from_seconds(1_785_396_600), "2026-07-30T07:30:00Z");
    assert_eq!(utc_from_seconds(951_782_399), "2000-02-28T23:59:59Z");
}

use arcz::geracao::{arquivo_de_resultado, caminho_com_barras, envelope_suportado, nome_do_gerador, semente_do_resumo};

#[test]
fn arquivo_de_resultado_por_tipo() {
    assert_eq!(arquivo_de_resultado("materials.generate"), "materials.json");
    assert_eq!(arquivo_de_resultado("tiles.generate"), "tile-plan.json");
    assert_eq!(arquivo_de_resultado("region.context.generate"), "region-context.json");
    assert_eq!(arquivo_de_resultado("buildings.generate"), "result.json");
}

#[test]
fn semente_vem_dos_16_primeiros_hex() {
    let h = "ba7816bf8f01cfea414140de5dae2223b00361a396177a9cb410ff61f20015ad";
    assert_eq!(semente_do_resumo(h), Some(0xba7816bf8f01cfea));
    assert_eq!(semente_do_resumo("FFFFFFFFFFFFFFFF"), Some(u64::MAX));
    assert_eq!(semente_do_resumo("zz7816bf8f01cfea414140"), None);
}

#[test]
fn gerador_caminho_e_envelope() {
    assert_eq!(nome_do_gerador("arcz.worker", "0.0.0"), "arcz.worker@0.0.0");
    assert_eq!(caminho_com_barras("a\\b\\c.glb"), "a/b/c.glb");
    assert!(envelope_suportado(1));
    assert!(!envelope_suportado(2));
}

#[test]
fn semente_le_os_16_primeiros_bytes_como_from_str_radix() {
    assert_eq!(semente_do_resumo("+00000000000000fabc"), Some(0xf));
    assert_eq!(semente_do_resumo("+fffffffffffffffff"), Some(0x0fff_ffff_ffff_ffff));
    assert_eq!(semente_do_resumo("-000000000000001"), None);
    assert_eq!(semente_do_resumo("00000000000000+1"), None);
    // Dezoito bytes, nove caracteres: o corte em 16 bytes cai numa fronteira e o
    // trecho não é hexadecimal.
    assert_eq!(semente_do_resumo("ééééééééé"), None);
    assert_eq!(semente_do_resumo("0123456789abcdef"), Some(0x0123_4567_89ab_cdef));
}
