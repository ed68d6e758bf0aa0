use std::io::Write;

use arcz::modelo::{campos_do_kml, kml_do_kmz, KmzError};

fn zip_com(entradas: &[(&str, &[u8])]) -> Vec<u8> {
    let mut w = zip::ZipWriter::new(std::io::Cursor::new(Vec::new()));
    let opcoes = zip::write::SimpleFileOptions::default().compression_method(zip::CompressionMethod::Stored);
    for (nome, conteudo) in entradas {
        w.start_file(*nome, opcoes).unwrap();
        w.write_all(conteudo).unwrap();
    }
    w.finish().unwrap().into_inner()
}

const KML: &str = "<kml><Model><Location><latitude>-27.1</latitude><longitude>-48.5</longitude></Location></Model></kml>";

#[test]
fn kmz_devolve_o_primeiro_kml() {
    let dados = zip_com(&[
        ("files/textura.png", b"png"),
        ("Modelo.KML", KML.as_bytes()),
        ("outro.kml", b"<kml/>"),
    ]);
    let texto = kml_do_kmz(&dados).unwrap();
    assert_eq!(texto, KML);
    assert_eq!(campos_do_kml(&texto).unwrap().latitude.as_deref(), Some("-27.1"));
}

#[test]
fn kmz_sem_kml_e_recusado() {
    let dados = zip_com(&[("files/textura.png", b"png"), ("doc.kmz", b"x")]);
    assert_eq!(kml_do_kmz(&dados), Err(KmzError::SemKml));
}

#[test]
fn bytes_que_nao_sao_zip_sao_recusados() {
    assert_eq!(kml_do_kmz(b"isto nao e um zip"), Err(KmzError::ZipInvalido));
    assert_eq!(kml_do_kmz(&[]), Err(KmzError::ZipInvalido));
}

#[test]
fn kml_que_nao_e_texto_e_recusado() {
    let dados = zip_com(&[("doc.kml", &[0xff, 0xfe, 0x00, 0xc3])]);
    assert_eq!(kml_do_kmz(&dados), Err(KmzError::EntradaIlegivel));
}
