use arcz::cad::{
    criar_comodo, validar_estrutura, CabecalhoCad, descendentes, excluir_em_cascata, ids_do_comodo, inserir, planejar_ids_do_comodo, rotulos_do_comodo,
    validar_ancestralidade, validar_cabecalho, validar_no, verificar_nivel, CadError, CadNodeKind, NoCad,
};

fn no(id: &str, kind: CadNodeKind, pai: Option<&str>) -> NoCad {
    NoCad { chave: id.to_string(), id: id.to_string(), kind, parent_id: pai.map(|p| p.to_string()) }
}

fn cab() -> CabecalhoCad {
    CabecalhoCad { schema_version: 1, id: "doc".to_string(), name: "Teste".to_string() }
}

fn documento_base() -> Vec<NoCad> {
    vec![
        no("building", CadNodeKind::Building, Some("site")),
        no("level", CadNodeKind::Level, Some("building")),
        no("site", CadNodeKind::Site, None),
    ]
}

fn chaves(d: &[NoCad]) -> Vec<String> {
    d.iter().map(|n| n.chave.clone()).collect()
}

#[test]
fn descendentes_em_largura_a_partir_do_no() {
    let d = documento_base();
    assert_eq!(descendentes(&d, "site").unwrap(), vec!["site", "building", "level"]);
    assert_eq!(descendentes(&d, "building").unwrap(), vec!["building", "level"]);
    assert_eq!(descendentes(&d, "level").unwrap(), vec!["level"]);
    assert_eq!(descendentes(&d, "nada"), Err(CadError::NodeNotFound("nada".to_string())));
}

#[test]
fn descendentes_com_irmaos_seguem_a_ordem_das_chaves() {
    let mut d = documento_base();
    d.push(no("level:a", CadNodeKind::Wall, Some("level")));
    d.push(no("level:b", CadNodeKind::Door, Some("level:a")));
    d.push(no("level:c", CadNodeKind::Wall, Some("level")));
    assert_eq!(
        descendentes(&d, "building").unwrap(),
        vec!["building", "level", "level:a", "level:c", "level:b"]
    );
}

#[test]
fn exclusao_em_cascata_apaga_a_subarvore_e_avanca_a_revisao() {
    let mut d = documento_base();
    let mut raizes = vec!["site".to_string()];
    let mut revisao = 0u64;
    let apagados = excluir_em_cascata(&cab(), &mut d, &mut raizes, &mut revisao, "building").unwrap();
    assert_eq!(apagados, vec!["building", "level"]);
    assert_eq!(chaves(&d), vec!["site"]);
    assert_eq!(raizes, vec!["site"]);
    assert_eq!(revisao, 1);

    let tudo = excluir_em_cascata(&cab(), &mut d, &mut raizes, &mut revisao, "site").unwrap();
    assert_eq!(tudo, vec!["site"]);
    assert!(d.is_empty());
    assert!(raizes.is_empty());
    assert_eq!(revisao, 2);
}

#[test]
fn exclusao_de_no_inexistente_nao_muda_nada() {
    let mut d = documento_base();
    let mut raizes = vec!["site".to_string()];
    let mut revisao = 7u64;
    let r = excluir_em_cascata(&cab(), &mut d, &mut raizes, &mut revisao, "fantasma");
    assert_eq!(r, Err(CadError::NodeNotFound("fantasma".to_string())));
    assert_eq!(d, documento_base());
    assert_eq!(raizes, vec!["site"]);
    assert_eq!(revisao, 7);
}

#[test]
fn revisao_satura_no_maximo() {
    let mut d = documento_base();
    let mut raizes = vec!["site".to_string()];
    let mut revisao = u64::MAX;
    excluir_em_cascata(&cab(), &mut d, &mut raizes, &mut revisao, "level").unwrap();
    assert_eq!(revisao, u64::MAX);
}

#[test]
fn insercao_recusa_repetido_e_pai_inexistente_sem_mudar_nada() {
    let mut d = documento_base();
    let mut raizes = vec!["site".to_string()];
    let mut revisao = 3u64;
    let r = inserir(&cab(), &mut d, &mut raizes, &mut revisao, "level".to_string(), CadNodeKind::Level, Some("building".to_string()));
    assert_eq!(r, Err(CadError::DuplicateNode("level".to_string())));
    let r = inserir(&cab(), &mut d, &mut raizes, &mut revisao, "wall".to_string(), CadNodeKind::Wall, Some("sumido".to_string()));
    assert_eq!(
        r,
        Err(CadError::MissingParent { node: "wall".to_string(), parent: "sumido".to_string() })
    );
    assert_eq!(d, documento_base());
    assert_eq!(raizes, vec!["site"]);
    assert_eq!(revisao, 3);
}

#[test]
fn insercao_de_raiz_entra_na_lista_de_raizes() {
    let mut d = documento_base();
    let mut raizes = vec!["site".to_string()];
    let mut revisao = 0u64;
    inserir(&cab(), &mut d, &mut raizes, &mut revisao, "terreno".to_string(), CadNodeKind::Terrain, None).unwrap();
    assert_eq!(chaves(&d), vec!["building", "level", "site", "terreno"]);
    assert_eq!(raizes, vec!["site", "terreno"]);
    assert_eq!(revisao, 1);
    inserir(&cab(), &mut d, &mut raizes, &mut revisao, "parede".to_string(), CadNodeKind::Wall, Some("level".to_string())).unwrap();
    assert_eq!(raizes, vec!["site", "terreno"]);
    assert_eq!(d[4].parent_id.as_deref(), Some("level"));
    assert_eq!(d[4].kind, CadNodeKind::Wall);
    assert_eq!(revisao, 2);
}

#[test]
fn excluir_desfaz_inserir() {
    let mut d = documento_base();
    let mut raizes = vec!["site".to_string()];
    let mut revisao = 0u64;
    inserir(&cab(), &mut d, &mut raizes, &mut revisao, "janela".to_string(), CadNodeKind::Window, Some("level".to_string())).unwrap();
    let apagados = excluir_em_cascata(&cab(), &mut d, &mut raizes, &mut revisao, "janela").unwrap();
    assert_eq!(apagados, vec!["janela"]);
    assert_eq!(d, documento_base());
    assert_eq!(raizes, vec!["site"]);

    inserir(&cab(), &mut d, &mut raizes, &mut revisao, "anexo".to_string(), CadNodeKind::Building, None).unwrap();
    excluir_em_cascata(&cab(), &mut d, &mut raizes, &mut revisao, "anexo").unwrap();
    assert_eq!(d, documento_base());
    assert_eq!(raizes, vec!["site"]);
    assert_eq!(revisao, 4);
}

#[test]
fn ancestralidade_com_ciclo_e_recusada() {
    let d = vec![
        no("a", CadNodeKind::Zone, Some("b")),
        no("b", CadNodeKind::Zone, Some("c")),
        no("c", CadNodeKind::Zone, Some("a")),
    ];
    assert_eq!(validar_ancestralidade(&d, "a"), Err(CadError::ParentCycle("a".to_string())));
    assert_eq!(validar_ancestralidade(&documento_base(), "level"), Ok(()));
    let laco = vec![no("x", CadNodeKind::Zone, Some("x"))];
    assert_eq!(validar_ancestralidade(&laco, "x"), Err(CadError::ParentCycle("x".to_string())));
}

#[test]
fn cabecalho_verifica_versao_campos_e_raizes_nesta_ordem() {
    let d = documento_base();
    let raizes = vec!["site".to_string()];
    assert_eq!(validar_cabecalho(1, "doc", "Teste", &d, &raizes), Ok(()));
    assert_eq!(validar_cabecalho(2, " ", "Teste", &d, &[]), Err(CadError::UnsupportedSchema(2)));
    assert_eq!(validar_cabecalho(1, "  \t", "Teste", &d, &raizes), Err(CadError::RequiredField("id/name")));
    assert_eq!(validar_cabecalho(1, "doc", "", &d, &raizes), Err(CadError::RequiredField("id/name")));
    assert_eq!(validar_cabecalho(1, "doc", "Teste", &d, &[]), Err(CadError::RootMismatch));
    let a_mais = vec!["site".to_string(), "level".to_string()];
    assert_eq!(validar_cabecalho(1, "doc", "Teste", &d, &a_mais), Err(CadError::RootMismatch));
}

#[test]
fn no_sob_outra_chave_ou_sem_pai_e_recusado() {
    let mut d = documento_base();
    assert_eq!(validar_no(&d, 0), Ok(()));
    d.push(NoCad { chave: "k".to_string(), id: "outro".to_string(), kind: CadNodeKind::Item, parent_id: None });
    assert_eq!(validar_no(&d, 3), Err(CadError::NodeKeyMismatch("k".to_string())));
    d.push(no("orfao", CadNodeKind::Item, Some("ninguem")));
    assert_eq!(
        validar_no(&d, 4),
        Err(CadError::MissingParent { node: "orfao".to_string(), parent: "ninguem".to_string() })
    );
}

#[test]
fn ids_e_rotulos_de_um_comodo() {
    assert_eq!(
        ids_do_comodo("room-1", 4),
        vec![
            "room-1",
            "room-1:slab",
            "room-1:ceiling",
            "room-1:wall:0",
            "room-1:wall:1",
            "room-1:wall:2",
            "room-1:wall:3"
        ]
    );
    assert_eq!(ids_do_comodo("r", 12)[14], "r:wall:11");
    assert_eq!(
        rotulos_do_comodo("Sala", 2),
        vec!["Sala", "Laje Sala", "Forro Sala", "Parede 1", "Parede 2"]
    );
}

#[test]
fn comodo_com_id_repetido_e_recusado_pelo_primeiro_repetido() {
    let mut d = documento_base();
    assert_eq!(planejar_ids_do_comodo(&d, "room-duplicate", 4).unwrap().len(), 7);
    d.push(no("room-duplicate:ceiling", CadNodeKind::Ceiling, Some("level")));
    d.push(no("room-duplicate:wall:2", CadNodeKind::Wall, Some("level")));
    assert_eq!(
        planejar_ids_do_comodo(&d, "room-duplicate", 4),
        Err(CadError::DuplicateNode("room-duplicate:ceiling".to_string()))
    );
    assert_eq!(
        planejar_ids_do_comodo(&d, "room-duplicate", 2),
        Err(CadError::DuplicateNode("room-duplicate:ceiling".to_string()))
    );
}

#[test]
fn comodo_so_vai_em_um_nivel_existente() {
    let d = documento_base();
    assert_eq!(verificar_nivel(&d, "level"), Ok(()));
    assert_eq!(
        verificar_nivel(&d, "site"),
        Err(CadError::WrongParentKind { node_kind: "zone".to_string(), expected: "level".to_string() })
    );
    assert_eq!(verificar_nivel(&d, "nivel-2"), Err(CadError::NodeNotFound("nivel-2".to_string())));
}

#[test]
fn duplicate_room_identifiers_do_not_overwrite_existing_nodes() {
    let mut d = documento_base();
    let raizes = vec!["site".to_string()];
    let mut revisao = 0u64;
    criar_comodo(&cab(), &mut d, &raizes, &mut revisao, "level", "room-duplicate", 4).unwrap();
    let antes = d.clone();
    let r = criar_comodo(&cab(), &mut d, &raizes, &mut revisao, "level", "room-duplicate", 4);
    assert!(matches!(r, Err(CadError::DuplicateNode(_))));
    assert_eq!(d, antes);
    assert_eq!(revisao, 1);
}

#[test]
fn creates_room_atomically() {
    let mut d = documento_base();
    let raizes = vec!["site".to_string()];
    let mut revisao = 0u64;
    let c = criar_comodo(&cab(), &mut d, &raizes, &mut revisao, "level", "room-1", 4).unwrap();
    assert_eq!(c.wall_ids.len(), 4);
    assert_eq!(revisao, 1);
    assert_eq!(validar_estrutura(&cab(), &d, &raizes), Ok(()));
    assert_eq!(c.zone_id, "room-1");
    assert_eq!(c.slab_id, "room-1:slab");
    assert_eq!(c.ceiling_id, "room-1:ceiling");
    assert_eq!(c.wall_ids[3], "room-1:wall:3");
    assert_eq!(d.len(), 3 + 7);
    assert_eq!(d[3].kind, CadNodeKind::Zone);
    assert_eq!(d[5].kind, CadNodeKind::Ceiling);
    assert_eq!(d[9].kind, CadNodeKind::Wall);
    assert_eq!(d[9].parent_id.as_deref(), Some("level"));
}

#[test]
fn comodo_fora_de_um_nivel_e_recusado_sem_mudar_nada() {
    let mut d = documento_base();
    let raizes = vec!["site".to_string()];
    let mut revisao = 0u64;
    let r = criar_comodo(&cab(), &mut d, &raizes, &mut revisao, "site", "room-1", 4);
    assert_eq!(r, Err(CadError::WrongParentKind { node_kind: "zone".to_string(), expected: "level".to_string() }));
    let r = criar_comodo(&cab(), &mut d, &raizes, &mut revisao, "nivel-9", "room-1", 4);
    assert_eq!(r, Err(CadError::NodeNotFound("nivel-9".to_string())));
    // Documento de trabalho com raiz não declarada: a validação final recusa tudo.
    let r = criar_comodo(&cab(), &mut d, &[], &mut revisao, "level", "room-1", 3);
    assert_eq!(r, Err(CadError::RootMismatch));
    assert_eq!(d, documento_base());
    assert_eq!(revisao, 0);
}

#[test]
fn validacao_estrutural_do_documento_inteiro() {
    let d = documento_base();
    let raizes = vec!["site".to_string()];
    assert_eq!(validar_estrutura(&cab(), &d, &raizes), Ok(()));
    let velho = CabecalhoCad { schema_version: 2, ..cab() };
    assert_eq!(validar_estrutura(&velho, &d, &raizes), Err(CadError::UnsupportedSchema(2)));
    assert_eq!(validar_estrutura(&cab(), &d, &[]), Err(CadError::RootMismatch));
    let mut ciclo = d.clone();
    ciclo.push(no("a", CadNodeKind::Zone, Some("b")));
    ciclo.push(no("b", CadNodeKind::Zone, Some("a")));
    assert_eq!(validar_estrutura(&cab(), &ciclo, &raizes), Err(CadError::ParentCycle("a".to_string())));
    let mut chave_errada = d.clone();
    chave_errada.insert(0, NoCad { chave: "k".to_string(), id: "outro".to_string(), kind: CadNodeKind::Item, parent_id: None });
    assert_eq!(
        validar_estrutura(&cab(), &chave_errada, &["site".to_string(), "k".to_string()]),
        Err(CadError::NodeKeyMismatch("k".to_string()))
    );
}

#[test]
fn insercao_recusada_pela_validacao_nao_muda_nada() {
    // O documento de trabalho tem uma raiz não declarada: a validação do
    // documento resultante recusa a inserção e nada muda.
    let mut d = documento_base();
    d.push(no("solta", CadNodeKind::Item, None));
    let antes = d.clone();
    let mut raizes = vec!["site".to_string()];
    let mut revisao = 5u64;
    let r = inserir(&cab(), &mut d, &mut raizes, &mut revisao, "invalid-wall".to_string(), CadNodeKind::Wall, Some("level".to_string()));
    assert!(r.is_err());
    assert_eq!(r, Err(CadError::RootMismatch));
    assert_eq!(d, antes);
    assert_eq!(raizes, vec!["site"]);
    assert_eq!(revisao, 5);
    let velho = CabecalhoCad { schema_version: 3, ..cab() };
    let r = inserir(&velho, &mut documento_base(), &mut vec!["site".to_string()], &mut revisao, "x".to_string(), CadNodeKind::Item, None);
    assert_eq!(r, Err(CadError::UnsupportedSchema(3)));
}

#[test]
fn exclusao_recusada_pela_validacao_nao_muda_nada() {
    let mut d = documento_base();
    let mut raizes = vec!["site".to_string(), "sobra".to_string()];
    let mut revisao = 5u64;
    let r = excluir_em_cascata(&cab(), &mut d, &mut raizes, &mut revisao, "level");
    assert_eq!(r, Err(CadError::RootMismatch));
    assert_eq!(d, documento_base());
    assert_eq!(raizes, vec!["site", "sobra"]);
    assert_eq!(revisao, 5);

    let mut raizes = vec!["site".to_string()];
    let ruim = CabecalhoCad { schema_version: 2, ..cab() };
    let r = excluir_em_cascata(&ruim, &mut d, &mut raizes, &mut revisao, "level");
    assert_eq!(r, Err(CadError::UnsupportedSchema(2)));
    assert_eq!(d, documento_base());
    assert_eq!(revisao, 5);
}

#[test]
fn exclusao_com_chave_diferente_do_id_segue_os_ids_e_valida() {
    let torto = NoCad { chave: "x".to_string(), id: "y".to_string(), kind: CadNodeKind::Site, parent_id: None };
    let mut d = vec![torto];
    let mut raizes = vec!["x".to_string()];
    let mut revisao = 0u64;
    let r = excluir_em_cascata(&cab(), &mut d, &mut raizes, &mut revisao, "x");
    assert_eq!(r, Ok(vec!["x".to_string()]));
    assert!(d.is_empty() && raizes.is_empty());
    assert_eq!(revisao, 1);

    let filho = NoCad { chave: "k".to_string(), id: "z".to_string(), kind: CadNodeKind::Wall, parent_id: Some("a".to_string()) };
    let mut d = vec![no("a", CadNodeKind::Site, None), filho.clone()];
    let mut raizes = vec!["a".to_string()];
    let r = excluir_em_cascata(&cab(), &mut d, &mut raizes, &mut revisao, "a");
    assert_eq!(r, Err(CadError::NodeKeyMismatch("k".to_string())));
    assert_eq!(d, vec![no("a", CadNodeKind::Site, None), filho]);
    assert_eq!(raizes, vec!["a"]);
    assert_eq!(revisao, 1);
}
