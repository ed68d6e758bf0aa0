use arcz::cad::{CadNodeKind, ValidationSummary};
use arcz::jobs::{JobQueue, JobStatus, JobTask};
use arcz::modelo::{
    campos_do_kml, eh_kml, eh_kmz, expandir_para_rgba, extensao_apenas_de_material, precisa_reduzir, primeiro_kml,
    recortar, textura_reduzida, trecho_da_tag, FormatoImagem, KmzError, Textura,
};
use arcz::procedural::{category_matches, default_floors, default_wall_material, AlphaMode, BuildingCategory, Quality};
use arcz::proveniencia::{ExternalSourceRecord, LicenseType};

#[test]
fn test_provenance_commercial_safety() {
    let osm_source = ExternalSourceRecord::new("osm-1", "OpenStreetMap", LicenseType::ODbL, "a1b2c3d4");
    assert!(osm_source.is_commercially_safe());
    let unknown_source = ExternalSourceRecord::new("unk-1", "ThirdParty", LicenseType::Proprietary, "12345678");
    assert!(!unknown_source.is_commercially_safe());
    assert!(!unknown_source.cache_allowed);
    assert!(osm_source.cache_allowed);
    assert_eq!(osm_source.version, "2026.07");
}

#[test]
fn test_job_queue_enqueue_and_progress() {
    let mut queue = JobQueue::new();
    let job = JobTask::new("job-1", "Render Take 01", "render");
    queue.enqueue(job);
    assert!(queue.update_progress("job-1", 50));
    assert_eq!(queue.get("job-1").unwrap().status, JobStatus::Running);
    queue.update_progress("job-1", 100);
    assert_eq!(queue.get("job-1").unwrap().status, JobStatus::Completed);
}

#[test]
fn test_recover_orphans_after_crash() {
    let mut queue = JobQueue::new();
    let mut job = JobTask::new("job-2", "Reconstrução 3D", "reconstruct");
    job.status = JobStatus::Running;
    queue.enqueue(job);
    assert_eq!(queue.recover_orphans(), 1);
    assert_eq!(queue.get("job-2").unwrap().status, JobStatus::Pending);
}

#[test]
fn progresso_acima_de_cem_e_limitado_e_cancelar() {
    let mut q = JobQueue::new();
    q.enqueue(JobTask::new("a", "A", "render"));
    assert!(q.update_progress("a", 250));
    assert_eq!(q.get("a").unwrap().progress, 100);
    assert_eq!(q.get("a").unwrap().status, JobStatus::Completed);
    assert!(!q.update_progress("b", 10));
    assert!(q.cancel("a"));
    assert_eq!(q.get("a").unwrap().status, JobStatus::Cancelled);
    assert!(!q.cancel("b"));
    // O mesmo id substitui o job anterior.
    q.enqueue(JobTask::new("a", "A2", "render"));
    assert_eq!(q.get("a").unwrap().name, "A2");
    assert_eq!(q.get("a").unwrap().status, JobStatus::Pending);
}

#[test]
fn recuperar_orfaos_conta_so_os_em_execucao() {
    let mut q = JobQueue::new();
    for (id, st) in [("1", JobStatus::Running), ("2", JobStatus::Paused), ("3", JobStatus::Running)] {
        let mut j = JobTask::new(id, id, "k");
        j.status = st;
        q.enqueue(j);
    }
    assert_eq!(q.recover_orphans(), 2);
    assert_eq!(q.recover_orphans(), 0);
    assert_eq!(q.get("2").unwrap().status, JobStatus::Paused);
}

#[test]
fn discriminador_do_cad_vai_e_volta() {
    assert_eq!(CadNodeKind::from_name("site-boundary"), CadNodeKind::SiteBoundary);
    assert_eq!(CadNodeKind::SiteBoundary.as_name(), "site-boundary");
    let ext = CadNodeKind::from_name("community:facade");
    assert_eq!(ext, CadNodeKind::Extension("community:facade".to_string()));
    assert_eq!(ext.as_name(), "community:facade");
    for nome in ["wall", "roof-segment", "terrain", "plugin:x", ""] {
        assert_eq!(CadNodeKind::from_name(nome).as_name(), nome);
    }
    let r = ValidationSummary { node_count: 3, root_count: 1, warnings: vec![] };
    assert_eq!(r.node_count, 3);
}

#[test]
fn qualidade_e_padroes() {
    assert_eq!(Quality::default(), Quality::Equilibrado);
    assert!(Quality::Equilibrado.facade_detail());
    assert!(!Quality::Leve.facade_detail());
    assert!(Quality::Alto.balcony_detail());
    assert!(!Quality::Equilibrado.balcony_detail());
    assert_eq!(BuildingCategory::default(), BuildingCategory::House);
    assert_eq!(AlphaMode::default(), AlphaMode::Opaque);
    assert_eq!(default_floors(), 1);
    assert_eq!(default_wall_material(), "facade.offwhite");
}

const KML_ZENITE: &str = r#"<?xml version="1.0" encoding="UTF-8" standalone="no" ?>
<kml xmlns="http://www.opengis.net/kml/2.2"><Folder><name>ARQ-AP-Zenit Bombinhas</name>
<LookAt><heading>76.270918191028045</heading><tilt>70.666375361662276</tilt>
<latitude>-26.983000030858463</latitude><longitude>-49.099703302266988</longitude>
<range>60.000000000010566</range><altitude>25.764131470101233</altitude></LookAt>
<Placemark><name>Model</name><Model><altitudeMode>absolute</altitudeMode>
<Location><latitude>-26.983333333333334</latitude><longitude>-49.100000000000001</longitude>
<altitude>0</altitude></Location>
<Orientation><heading>59.981632572390822</heading><tilt>0</tilt><roll>0</roll></Orientation>
<Scale><x>1</x><y>1</y><z>1</z></Scale>
<Link><href>models/untitled.dae</href></Link></Model></Placemark></Folder></kml>"#;

#[test]
fn le_o_georreferenciamento_do_zenite() {
    let c = campos_do_kml(KML_ZENITE).unwrap();
    assert_eq!(c.latitude.as_deref(), Some("-26.983333333333334"));
    assert_eq!(c.longitude.as_deref(), Some("-49.100000000000001"));
    assert_eq!(c.altitude.as_deref(), Some("0"));
    assert_eq!(c.heading.as_deref(), Some("59.981632572390822"));
    assert_eq!(c.x.as_deref(), Some("1"));
}

#[test]
fn ignora_o_lookat_e_usa_o_location_do_model() {
    let c = campos_do_kml(KML_ZENITE).unwrap();
    assert_ne!(c.latitude.as_deref(), Some("-26.983000030858463"));
    assert_ne!(c.heading.as_deref(), Some("76.270918191028045"));
}

#[test]
fn kml_sem_location_e_recusado() {
    assert_eq!(campos_do_kml("<kml><Model></Model></kml>"), Err(KmzError::SemLocation));
    let so_latitude = campos_do_kml("<Location><latitude>1</latitude></Location>").unwrap();
    assert_eq!(so_latitude.latitude.as_deref(), Some("1"));
    assert_eq!(so_latitude.longitude, None);
    assert_eq!(so_latitude.altitude, None);
}

#[test]
fn recortes_de_texto() {
    assert_eq!(recortar("a<b>c</b>d", "<b>", "</b>").as_deref(), Some("<b>c"));
    assert_eq!(recortar("abc", "x", "c"), None);
    assert_eq!(trecho_da_tag("<x>  12 \n</x>", "x").as_deref(), Some("12"));
    assert_eq!(trecho_da_tag("<x>12", "x"), None);
}

#[test]
fn extensao_so_de_material_pelo_texto_do_erro() {
    assert!(extensao_apenas_de_material("Unsupported extension: KHR_materials_volume"));
    assert!(!extensao_apenas_de_material("Unsupported extension: KHR_draco_mesh_compression"));
    assert!(!extensao_apenas_de_material("KHR_materials_volume"));
}

#[test]
fn bytes_da_textura() {
    let t = Textura { nome: "t".into(), largura: 2, altura: 2, rgba: vec![0; 16] };
    assert_eq!(t.bytes(), 16);
}

#[test]
fn rgb_vira_rgba_opaco() {
    let t = expandir_para_rgba(FormatoImagem::R8G8B8, &[10, 20, 30, 40, 50, 60], 2, 1);
    assert_eq!(t, vec![10, 20, 30, 255, 40, 50, 60, 255]);
    assert!(!precisa_reduzir(2, 1, 4096));
}

#[test]
fn rgba_passa_intacto() {
    let px = vec![1, 2, 3, 4, 5, 6, 7, 8];
    assert_eq!(expandir_para_rgba(FormatoImagem::R8G8B8A8, &px, 2, 1), px);
}

#[test]
fn cinza_vira_rgba_replicado() {
    let t = expandir_para_rgba(FormatoImagem::R8, &[77, 200], 2, 1);
    assert_eq!(t, vec![77, 77, 77, 255, 200, 200, 200, 255]);
}

#[test]
fn textura_pequena_nao_e_tocada() {
    assert!(!precisa_reduzir(64, 64, 2048));
    assert_eq!(expandir_para_rgba(FormatoImagem::R8G8B8, &vec![9; 64 * 64 * 3], 64, 64).len(), 64 * 64 * 4);
}

#[test]
fn buffer_truncado_nao_causa_panico() {
    // Declara 4 pixels mas manda dados de 1: o resto vira preenchimento.
    let t = expandir_para_rgba(FormatoImagem::R8G8B8, &[1, 2, 3], 2, 2);
    assert_eq!(t.len(), 2 * 2 * 4);
    assert_eq!(&t[..4], &[1, 2, 3, 255]);
    assert!(t[4..].iter().all(|b| *b == 255));
}

#[test]
fn canais_de_dezesseis_bits_guardam_o_byte_alto() {
    let t = expandir_para_rgba(FormatoImagem::R16G16B16A16, &[1, 2, 3, 4, 5, 6, 7, 8], 1, 1);
    assert_eq!(t, vec![2, 4, 6, 8]);
    let t = expandir_para_rgba(FormatoImagem::R16G16, &[0, 9, 0, 7, 1], 1, 1);
    assert_eq!(t, vec![9, 9, 9, 7]);
    let t = expandir_para_rgba(FormatoImagem::R16, &[0, 9], 1, 1);
    assert_eq!(t, vec![9, 9, 9, 255]);
    let t = expandir_para_rgba(FormatoImagem::R16G16B16, &[0, 1, 0, 2, 0, 3], 1, 1);
    assert_eq!(t, vec![1, 2, 3, 255]);
    let t = expandir_para_rgba(FormatoImagem::R8G8, &[5, 6], 1, 1);
    assert_eq!(t, vec![5, 5, 5, 6]);
}

#[test]
fn pixels_a_mais_sao_cortados_e_grande_precisa_reduzir() {
    let t = expandir_para_rgba(FormatoImagem::R8G8B8A8, &[1, 2, 3, 4, 5, 6, 7, 8], 1, 1);
    assert_eq!(t, vec![1, 2, 3, 4]);
    assert!(precisa_reduzir(1024, 512, 256));
    assert!(!precisa_reduzir(0, 5000, 256));
    assert!(!precisa_reduzir(256, 100, 256));
}

#[test]
fn kml_dentro_do_kmz_e_achado_pelo_nome() {
    assert!(eh_kml("doc.kml"));
    assert!(eh_kml("Modelos/Casa.KML"));
    assert!(!eh_kml("kml"));
    assert!(!eh_kml("textura.png"));
    assert!(eh_kmz("kmz") && eh_kmz("KMZ") && eh_kmz("Kmz"));
    assert!(!eh_kmz("kml") && !eh_kmz("kmzz"));
    let nomes = vec!["files/textura.jpg".to_string(), String::new(), "doc.kml".to_string(), "outro.kml".to_string()];
    assert_eq!(primeiro_kml(&nomes), Some(2));
    assert_eq!(primeiro_kml(&nomes[..2]), None);
}

#[test]
fn categoria_pedida_filtra_as_edificacoes() {
    assert!(category_matches(BuildingCategory::House, BuildingCategory::House));
    assert!(!category_matches(BuildingCategory::Commercial, BuildingCategory::House));
    assert!(category_matches(BuildingCategory::Commercial, BuildingCategory::Building));
    assert!(category_matches(BuildingCategory::Industrial, BuildingCategory::Building));
    assert!(category_matches(BuildingCategory::Building, BuildingCategory::Building));
    assert!(!category_matches(BuildingCategory::House, BuildingCategory::Building));
    assert!(category_matches(BuildingCategory::Industrial, BuildingCategory::Industrial));
    assert!(!category_matches(BuildingCategory::Commercial, BuildingCategory::Industrial));
}

#[test]
fn textura_grande_e_reduzida_ate_o_limite() {
    // 1024x512 com limite 256 -> 256x128, preservando a proporcao.
    let rgba = expandir_para_rgba(FormatoImagem::R8G8B8, &vec![128; 1024 * 512 * 3], 1024, 512);
    assert!(precisa_reduzir(1024, 512, 256));
    let t = textura_reduzida("grande".to_string(), rgba, 1024, 512, 256, 128);
    assert_eq!((t.largura, t.altura), (256, 128));
    assert_eq!(t.rgba.len(), 256 * 128 * 4);
    assert_eq!(t.nome, "grande");
}

#[test]
fn rgba8_guarda_a_sobra_de_um_pixel_incompleto() {
    let t = expandir_para_rgba(FormatoImagem::R8G8B8A8, &[1, 2, 3, 4, 5, 6], 2, 1);
    assert_eq!(t, vec![1, 2, 3, 4, 5, 6, 255, 255]);
}
