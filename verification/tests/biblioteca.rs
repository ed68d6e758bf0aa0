use arcz::biblioteca::catalogo::{
    catalogo, por_ambiente, por_chave, por_papel, Ambiente, Fonte, Licenca, Papel,
};
use arcz::biblioteca::parametrico::Peca;
use arcz::biblioteca::polyhaven::{
    destino_seguro, linha_manifesto, nome_do_url, ordem_de_resolucao, texto_da_licenca, url_api, url_pagina,
    BibliotecaError, Resolucao, MARCADOR,
};
use arcz::biblioteca::{itens_a_montar, raiz_padrao, texto_da_licenca_local, Resumo};

#[test]
fn toda_licenca_e_comercialmente_livre() {
    for item in catalogo() {
        assert!(
            item.licenca.comercialmente_livre(),
            "{} tem licenca que impede uso comercial",
            item.chave
        );
    }
}

#[test]
fn chave_serve_de_nome_de_pasta() {
    for item in catalogo() {
        assert!(
            item.chave.chars().all(|c| c.is_ascii_lowercase() || c.is_ascii_digit() || c == '-'),
            "chave invalida como pasta: {}",
            item.chave
        );
    }
}

#[test]
fn chaves_sao_unicas() {
    let mut vistas = std::collections::HashSet::new();
    for item in catalogo() {
        assert!(vistas.insert(item.chave), "chave duplicada: {}", item.chave);
    }
}

#[test]
fn dimensoes_sao_plausiveis() {
    for item in catalogo() {
        for (eixo, v) in item.dimensao_mm.iter().enumerate() {
            assert!(*v > 5 && *v < 6000, "{}: dimensao[{eixo}] = {v} mm fora do plausivel", item.chave);
        }
    }
}

#[test]
fn todo_item_declara_ao_menos_um_ambiente() {
    for item in catalogo() {
        assert!(!item.ambientes.is_empty(), "{} sem ambiente", item.chave);
    }
}

#[test]
fn os_papeis_essenciais_do_apartamento_tem_item() {
    for papel in [
        Papel::CamaCasal,
        Papel::Criado,
        Papel::GuardaRoupa,
        Papel::SofaTresLugares,
        Papel::MesaCentro,
        Papel::MesaJantar,
        Papel::CadeiraJantar,
        Papel::BancadaCozinha,
        Papel::Geladeira,
        Papel::Tv,
        Papel::VasoSanitario,
        Papel::CubaBanheiro,
        Papel::BoxChuveiro,
    ] {
        assert!(!por_papel(papel).is_empty(), "nenhum item para o papel {papel:?}");
    }
}

#[test]
fn busca_por_chave_e_por_ambiente() {
    assert_eq!(por_chave("sofa-3-lugares").unwrap().papel, Papel::SofaTresLugares);
    assert!(por_chave("nao-existe").is_none());
    assert!(por_ambiente(Ambiente::Rooftop).len() >= 5);
}

#[test]
fn itens_parametricos_nao_sao_remotos() {
    for item in catalogo() {
        match item.fonte {
            Fonte::Parametrica(_) => assert!(!item.remoto()),
            Fonte::PolyHaven { slug } => {
                assert!(item.remoto());
                assert!(!slug.is_empty());
            }
        }
    }
}

#[test]
fn licenca_segue_a_origem() {
    for item in catalogo() {
        match item.fonte {
            Fonte::Parametrica(_) => assert_eq!(item.licenca, Licenca::Proprio),
            Fonte::PolyHaven { .. } => assert_eq!(item.licenca, Licenca::Cc0),
        }
    }
    assert_eq!(Licenca::Cc0.texto(), "CC0 1.0 (dominio publico) — Poly Haven");
}

#[test]
fn url_da_api_e_da_pagina() {
    assert_eq!(url_api("sofa_02"), "https://api.polyhaven.com/files/sofa_02");
    assert_eq!(url_pagina("sofa_02"), "https://polyhaven.com/a/sofa_02");
}

#[test]
fn destino_aceita_caminho_relativo_normal() {
    let pasta = "/tmp/bib/sofa";
    let d = destino_seguro(pasta, "textures/sofa_02_diff_2k.jpg").unwrap();
    assert!(d.ends_with("textures/sofa_02_diff_2k.jpg") || d.ends_with("textures\\sofa_02_diff_2k.jpg"));
    assert_eq!(d, "/tmp/bib/sofa/textures/sofa_02_diff_2k.jpg");
    assert_eq!(destino_seguro(pasta, "a\\b.bin").unwrap(), "/tmp/bib/sofa/a/b.bin");
}

#[test]
fn destino_recusa_escapar_da_pasta() {
    let pasta = "/tmp/bib/sofa";
    for ruim in [
        "../fora.txt",
        "textures/../../fora.txt",
        "/etc/passwd",
        "\\\\servidor\\share",
        "C:/Windows/system32/x.dll",
        "",
    ] {
        assert!(destino_seguro(pasta, ruim).is_err(), "deveria recusar: {ruim:?}");
    }
    assert_eq!(
        destino_seguro(pasta, "a//b"),
        Err(BibliotecaError::CaminhoInvalido("a//b".to_string()))
    );
    assert!(destino_seguro(pasta, "./x").is_err());
    assert!(destino_seguro(pasta, "x/").is_err());
    assert!(destino_seguro(pasta, "..x/y").is_ok());
}

#[test]
fn nome_do_arquivo_sai_do_url() {
    assert_eq!(
        nome_do_url("https://dl.polyhaven.org/file/ph-assets/Models/gltf/2k/sofa_02/sofa_02_2k.gltf"),
        "sofa_02_2k.gltf"
    );
    assert_eq!(nome_do_url("sem-barra.gltf"), "sem-barra.gltf");
    assert_eq!(nome_do_url("termina/"), "");
}

#[test]
fn ordem_de_resolucao_comeca_pela_pedida_e_cobre_todas() {
    assert_eq!(ordem_de_resolucao(Resolucao::R1k), vec![Resolucao::R1k, Resolucao::R2k, Resolucao::R4k]);
    assert_eq!(ordem_de_resolucao(Resolucao::R2k), vec![Resolucao::R2k, Resolucao::R1k, Resolucao::R4k]);
    assert_eq!(ordem_de_resolucao(Resolucao::R4k).len(), 3);
    assert_eq!(ordem_de_resolucao(Resolucao::R4k), vec![Resolucao::R4k, Resolucao::R2k, Resolucao::R1k]);
}

#[test]
fn resolucao_vai_e_volta() {
    for r in [Resolucao::R1k, Resolucao::R2k, Resolucao::R4k] {
        assert_eq!(Resolucao::de_texto(r.chave()), Some(r));
    }
    assert_eq!(Resolucao::de_texto("8k"), None);
}

#[test]
fn linha_de_manifesto_tem_sha256_dos_dados() {
    let item = por_chave("sofa-3-lugares").unwrap();
    let l = linha_manifesto(&item, "/bib/sofa-3-lugares/sofa_02_2k.gltf", b"abc");
    assert_eq!(l.sha256, "ba7816bf8f01cfea414140de5dae2223b00361a396177a9cb410ff61f20015ad");
    assert_eq!(l.sha256.len(), 64);
    assert_eq!(l.bytes, 3);
    assert_eq!(l.origem, "https://polyhaven.com/a/sofa_02");
    assert_eq!(l.licenca, "CC0 1.0 (dominio publico) — Poly Haven");
    let cama = catalogo().into_iter().find(|i| matches!(i.fonte, Fonte::Parametrica(Peca::CamaCasal))).unwrap();
    let l = linha_manifesto(&cama, "x.glb", b"");
    assert_eq!(l.origem, "arcz://parametrico/cama-casal");
    assert_eq!(l.sha256, "e3b0c44298fc1c149afbf4c8996fb92427ae41e4649b934ca495991b7852b855");
}

#[test]
fn texto_da_licenca_cita_a_pagina() {
    let item = por_chave("sofa-3-lugares").unwrap();
    let t = texto_da_licenca(&item, "sofa_02");
    assert!(t.starts_with("Item: Sofa 3 lugares (sofa-3-lugares)\nLicenca: CC0 1.0"));
    assert!(t.contains("Origem: https://polyhaven.com/a/sofa_02\n"));
    let cama = catalogo().into_iter().find(|i| matches!(i.fonte, Fonte::Parametrica(_))).unwrap();
    assert!(texto_da_licenca_local(&cama).contains("Origem: gerado pelo ARCZ"));
}

#[test]
fn montar_so_locais_pega_todas_as_pecas_parametricas() {
    let esperadas = catalogo().iter().filter(|i| matches!(i.fonte, Fonte::Parametrica(_))).count();
    let itens = itens_a_montar(None, true);
    assert_eq!(itens.len(), esperadas);
    assert!(itens.iter().all(|i| !i.remoto()));
    assert_eq!(itens_a_montar(None, false).len(), catalogo().len());
}

#[test]
fn filtro_por_ambiente_reduz_o_conjunto() {
    let itens = itens_a_montar(Some(Ambiente::Rooftop), true);
    assert!(itens.iter().any(|i| i.chave == "guarda-sol"));
    assert!(!itens.iter().any(|i| i.chave == "vaso-sanitario"));
}

#[test]
fn pecas_tem_nome_de_arquivo_distinto() {
    let todas = Peca::todas();
    assert_eq!(todas.len(), 14);
    let nomes: std::collections::HashSet<_> = todas.iter().map(|p| p.nome_arquivo()).collect();
    assert_eq!(nomes.len(), 14);
    assert_eq!(Peca::RackTv.nome_arquivo(), "rack-tv");
}

#[test]
fn raiz_e_resumo() {
    assert_eq!(raiz_padrao(), "biblioteca");
    let mut r = Resumo::default();
    r.gerados.push("a".to_string());
    r.gerados.push("b".to_string());
    assert_eq!(r.total(), 2);
    assert_eq!(MARCADOR, ".completo");
}

#[test]
fn nome_de_arquivo_de_peca_e_o_proprio_slug() {
    for p in arcz::biblioteca::parametrico::Peca::todas() {
        let n = p.nome_arquivo();
        assert!(!n.is_empty());
        assert!(n.chars().all(|c| c.is_ascii_lowercase() || c == '-'), "{n}");
        assert_eq!(arcz::workspace::slug(n), n);
    }
    assert_eq!(arcz::biblioteca::parametrico::Peca::CamaCasal.nome_arquivo(), "cama-casal");
}
