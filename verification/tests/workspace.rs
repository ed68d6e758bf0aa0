use arcz::calendario::civil_de_dias;
use arcz::workspace::{
    carimbo_de_segundos, nome_do_json, partes_do_snapshot, slug, slug_da_lixeira, Workspace, WorkspaceErro,
};

#[test]
fn a_raiz_padrao_e_absoluta() {
    let p = Workspace::raiz_padrao(None, None, Some("/home/ana"), "/tmp");
    assert!(p.starts_with('/'), "raiz relativa ao cwd: {p:?}");
    assert!(p.ends_with("ARCZ"));
    assert_eq!(p, "/home/ana/.local/share/ARCZ");
}

#[test]
fn raiz_padrao_prefere_localappdata_depois_xdg() {
    assert_eq!(Workspace::raiz_padrao(Some("/dados"), Some("/xdg"), Some("/home/a"), "/tmp"), "/dados/ARCZ");
    assert_eq!(Workspace::raiz_padrao(None, Some("/xdg/"), Some("/home/a"), "/tmp"), "/xdg/ARCZ");
    assert_eq!(Workspace::raiz_padrao(None, None, None, "/tmp"), "/tmp/ARCZ");
}

#[test]
fn a_conversao_de_data_bate_com_epocas_conhecidas() {
    assert_eq!(civil_de_dias(0), (1970, 1, 1));
    assert_eq!(civil_de_dias(19_723), (2024, 1, 1));
    // 2024 e bissexto: 29 de fevereiro tem que existir.
    assert_eq!(civil_de_dias(19_782), (2024, 2, 29));
}

#[test]
fn conversao_de_data_antes_da_epoca() {
    assert_eq!(civil_de_dias(-1), (1969, 12, 31));
    assert_eq!(civil_de_dias(-719_468), (0, 3, 1));
    assert_eq!(civil_de_dias(11_016), (2000, 2, 29));
}

#[test]
fn o_nome_e_lido_sem_desserializar_o_projeto_inteiro() {
    assert_eq!(
        nome_do_json(r#"{"versao":1,"nome":"Zenite","lat":0}"#).as_deref(),
        Some("Zenite")
    );
    assert_eq!(nome_do_json("{}"), None);
    assert_eq!(nome_do_json("lixo"), None);
}

#[test]
fn slug_gera_nome_de_arquivo_seguro() {
    assert_eq!(slug("Zênite by Salinet"), "z-nite-by-salinet");
    assert_eq!(slug("  Projeto   Novo  "), "projeto-novo");
    for perigoso in ["../../etc/passwd", "..\\..\\windows", "C:/Windows"] {
        let s = slug(perigoso);
        assert!(!s.contains('/') && !s.contains('\\') && !s.contains(".."), "{s}");
    }
    assert_eq!(slug("!@#$"), "projeto", "nome so de simbolos precisa de fallback");
    assert!(slug(&"a".repeat(200)).len() <= 64);
}

#[test]
fn o_carimbo_tem_formato_ordenavel() {
    // 2026-07-30 07:30:00 UTC
    let c = carimbo_de_segundos(1_785_396_600);
    assert_eq!(c.len(), 15, "AAAAMMDD-hhmmss: {c}");
    assert_eq!(&c[8..9], "-");
    assert!(c.chars().filter(|c| c.is_ascii_digit()).count() == 14);
    let ano: i32 = c[0..4].parse().unwrap();
    assert!((2020..2100).contains(&ano), "ano {ano}");
    assert_eq!(c, "20260730-073000");
    assert_eq!(carimbo_de_segundos(0), "19700101-000000");
}

#[test]
fn caminhos_do_workspace() {
    let w = Workspace::new("/dados/ARCZ");
    assert_eq!(w.raiz(), "/dados/ARCZ");
    assert_eq!(w.pasta_de("casa"), "/dados/ARCZ/projetos/casa");
    assert_eq!(w.arquivo_de("casa"), "/dados/ARCZ/projetos/casa/projeto.arcz");
    assert_eq!(w.autosave_de("casa"), "/dados/ARCZ/projetos/casa/autosave.arcz");
    assert_eq!(w.pasta_snapshots("casa"), "/dados/ARCZ/projetos/casa/snapshots");
    assert_eq!(
        w.criar_snapshot_em("casa", "20260730-073000", "Antes de Mobiliar"),
        "/dados/ARCZ/projetos/casa/snapshots/20260730-073000_antes-de-mobiliar.arcz"
    );
    assert_eq!(w.destino_na_lixeira("casa", "20260730-073000"), "/dados/ARCZ/lixeira/casa__20260730-073000");
}

#[test]
fn excluir_move_para_a_lixeira_sem_apagar() {
    let w = Workspace::new("/w");
    let m = w.excluir("obra", true, "20260101-000000").unwrap();
    assert_eq!(m.de, "/w/projetos/obra");
    assert_eq!(m.para, "/w/lixeira/obra__20260101-000000");
    assert_eq!(
        w.excluir("obra", false, "20260101-000000"),
        Err(WorkspaceErro::NaoEncontrado("obra".to_string()))
    );
}

#[test]
fn restaurar_da_lixeira_nao_atropela_projeto_existente() {
    let w = Workspace::new("/w");
    assert_eq!(
        w.restaurar_da_lixeira("/w/lixeira/obra__1", "obra__1", true, true),
        Err(WorkspaceErro::JaExiste("obra".to_string()))
    );
    let m = w.restaurar_da_lixeira("/w/lixeira/obra__1", "obra__1", true, false).unwrap();
    assert_eq!(m.para, "/w/projetos/obra");
    assert_eq!(slug_da_lixeira("obra__20260101-000000"), "obra");
    assert_eq!(slug_da_lixeira("sem-separador"), "sem-separador");
}

#[test]
fn autosave_nao_sobrescreve_o_projeto() {
    let w = Workspace::new("/w");
    let a = w.autosave("obra", true).unwrap();
    assert_eq!(a, "/w/projetos/obra/autosave.arcz");
    assert_ne!(a, w.arquivo_de("obra"));
}

#[test]
fn recuperar_promove_o_autosave_e_guarda_o_anterior() {
    let w = Workspace::new("/w");
    let r = w.recuperar("obra", true, true, "20260101-000000").unwrap();
    assert_eq!(r.ler_autosave, "/w/projetos/obra/autosave.arcz");
    assert_eq!(
        r.snapshot_do_atual.as_deref(),
        Some("/w/projetos/obra/snapshots/20260101-000000_antes-da-recuperacao.arcz")
    );
    assert_eq!(r.salvamento.gravar_em, "/w/projetos/obra/projeto.arcz");
    assert_eq!(
        w.recuperar("obra", false, true, "x"),
        Err(WorkspaceErro::SemRecuperacao("obra".to_string()))
    );
}

#[test]
fn salvar_descarta_o_autosave_obsoleto() {
    let w = Workspace::new("/w");
    let s = w.salvar("obra", true).unwrap();
    assert_eq!(s.remover_autosave, "/w/projetos/obra/autosave.arcz");
    assert_eq!(s.gravar_em, "/w/projetos/obra/projeto.arcz");
}

#[test]
fn criar_duas_vezes_o_mesmo_nome_e_recusado() {
    let w = Workspace::new("/w");
    assert_eq!(w.criar("Projeto Exemplo", false), Ok("projeto-exemplo".to_string()));
    assert_eq!(
        w.criar("Projeto Exemplo", true),
        Err(WorkspaceErro::JaExiste("projeto-exemplo".to_string()))
    );
}

#[test]
fn renomear_move_a_pasta_e_atualiza_o_nome() {
    let w = Workspace::new("/w");
    let (novo, m) = w.renomear("antigo", "Nome Novo", false).unwrap();
    assert_eq!(novo, "nome-novo");
    let m = m.unwrap();
    assert_eq!(m.de, "/w/projetos/antigo");
    assert_eq!(m.para, "/w/projetos/nome-novo");
    let (mesmo, nada) = w.renomear("nome-novo", "Nome Novo", true).unwrap();
    assert_eq!(mesmo, "nome-novo");
    assert!(nada.is_none());
}

#[test]
fn nome_do_snapshot_separa_carimbo_e_rotulo() {
    assert_eq!(
        partes_do_snapshot("20260730-073000_antes-de-mobiliar"),
        ("20260730-073000".to_string(), "antes-de-mobiliar".to_string())
    );
    assert_eq!(partes_do_snapshot("solto"), (String::new(), "solto".to_string()));
}

use arcz::workspace::{
    comeca_com, escolher_da_lixeira, escolher_snapshot, nome_para_resumo, ordenar_projetos, ordenar_snapshots,
    ResumoProjeto, ResumoSnapshot,
};

fn snap(carimbo: &str, rotulo: &str) -> ResumoSnapshot {
    ResumoSnapshot { arquivo: format!("{carimbo}_{rotulo}.arcz"), rotulo: rotulo.into(), carimbo: carimbo.into(), bytes: 1 }
}

#[test]
fn snapshots_ficam_do_mais_novo_para_o_mais_velho() {
    let lista = ordenar_snapshots(vec![
        snap("20260730-080000", "primeiro"),
        snap("20260730-100000", "terceiro"),
        snap("20260730-090000", "segundo"),
    ]);
    assert_eq!(lista.len(), 3);
    assert_eq!(lista[0].rotulo, "terceiro", "o mais novo tem que vir antes");
    assert_eq!(lista[2].rotulo, "primeiro");
    assert_eq!(lista[0].carimbo, "20260730-100000");
}

#[test]
fn snapshots_com_o_mesmo_carimbo_mantem_a_ordem() {
    let lista = ordenar_snapshots(vec![snap("1", "a"), snap("2", "b"), snap("1", "c")]);
    let r: Vec<&str> = lista.iter().map(|s| s.rotulo.as_str()).collect();
    assert_eq!(r, vec!["b", "a", "c"]);
}

fn proj(slug: &str, t: u64) -> ResumoProjeto {
    ResumoProjeto {
        slug: slug.into(),
        nome: slug.into(),
        caminho: String::new(),
        bytes: 0,
        modificado_em: t,
        tem_miniatura: false,
        recuperavel: false,
        snapshots: 0,
    }
}

#[test]
fn catalogo_do_mais_recente_para_o_mais_antigo() {
    let l = ordenar_projetos(vec![proj("a", 5), proj("b", 9), proj("c", 1), proj("d", 9)]);
    let r: Vec<&str> = l.iter().map(|p| p.slug.as_str()).collect();
    assert_eq!(r, vec!["b", "d", "a", "c"]);
}

#[test]
fn nome_do_resumo_cai_no_identificador() {
    assert_eq!(nome_para_resumo("obra", Some(r#"{"nome":"Obra Grande"}"#)), "Obra Grande");
    assert_eq!(nome_para_resumo("obra", Some("{}")), "obra");
    assert_eq!(nome_para_resumo("obra", None), "obra");
}

#[test]
fn restaurar_snapshot_volta_o_estado_e_e_reversivel() {
    let w = Workspace::new("/w");
    let r = w.restaurar_snapshot("obra", true, true, "20260101-000000").unwrap();
    assert_eq!(
        r.snapshot_do_atual.as_deref(),
        Some("/w/projetos/obra/snapshots/20260101-000000_antes-de-restaurar.arcz")
    );
    assert_eq!(r.salvamento.gravar_em, "/w/projetos/obra/projeto.arcz");
    assert!(w.restaurar_snapshot("obra", true, false, "x").unwrap().snapshot_do_atual.is_none());
    assert_eq!(
        w.restaurar_snapshot("obra", false, false, "x"),
        Err(WorkspaceErro::NaoEncontrado("obra".to_string()))
    );
}

#[test]
fn duplicar_cria_copia_independente() {
    let w = Workspace::new("/w");
    let (origem, novo) = w.duplicar("original", "Copia", true, false).unwrap();
    assert_eq!(origem, "/w/projetos/original/projeto.arcz");
    assert_eq!(novo, "copia");
    assert_eq!(w.duplicar("nada", "Copia", false, false), Err(WorkspaceErro::NaoEncontrado("nada".to_string())));
    assert_eq!(w.duplicar("original", "Copia", true, true), Err(WorkspaceErro::JaExiste("copia".to_string())));
}

#[test]
fn snapshot_carimbado_pelo_relogio() {
    let w = Workspace::new("/w");
    assert_eq!(
        w.criar_snapshot("obra", 1_785_396_600, "Antes"),
        "/w/projetos/obra/snapshots/20260730-073000_antes.arcz"
    );
}

#[test]
fn operacoes_em_projeto_inexistente_devolvem_erro_claro() {
    let w = Workspace::new("/w");
    let nao = WorkspaceErro::NaoEncontrado("fantasma".to_string());
    assert_eq!(w.abrir("fantasma", false).unwrap_err(), nao);
    assert_eq!(w.salvar("fantasma", false).unwrap_err(), nao);
    assert_eq!(w.autosave("fantasma", false).unwrap_err(), nao);
    assert_eq!(w.excluir("fantasma", false, "1").unwrap_err(), nao);
}

#[test]
fn restauracao_escolhe_o_primeiro_pelo_comeco() {
    assert!(comeca_com("20260730-080000", "20260730"));
    assert!(comeca_com("abc", ""));
    assert!(!comeca_com("ab", "abc"));
    assert!(!comeca_com("abd", "abc"));

    let lista = vec![snap("20260731-090000", "b"), snap("20260730-080000", "a"), snap("20260730-070000", "c")];
    assert_eq!(escolher_snapshot(&lista, "20260730"), Ok(1));
    assert_eq!(escolher_snapshot(&lista, ""), Ok(0));
    assert_eq!(escolher_snapshot(&lista, "2025"), Err(WorkspaceErro::NaoEncontrado("2025".to_string())));

    let lixeira = vec![proj("casa-praia", 1), proj("casa", 2)];
    assert_eq!(escolher_da_lixeira(&lixeira, "casa"), Ok(0));
    assert_eq!(escolher_da_lixeira(&lixeira, "casa-p"), Ok(0));
    assert_eq!(escolher_da_lixeira(&lixeira, "loja"), Err(WorkspaceErro::NaoEncontrado("loja".to_string())));
}

#[test]
fn slug_de_um_slug_nao_muda_salvo_o_hifen_do_corte() {
    for nome in ["Zênite by Salinet", "  Projeto   Novo  ", "!@#$", "--a--b--"] {
        let s = slug(nome);
        assert!(!s.starts_with('-') && !s.contains("--"));
        assert_eq!(slug(&s), s);
    }
    let cortado = slug(&format!("{} b", "a".repeat(63)));
    assert_eq!(cortado, format!("{}-", "a".repeat(63)));
    assert_eq!(slug(&cortado), "a".repeat(63));
}
