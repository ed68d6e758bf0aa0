use arcz::modelo::{conferir_malha, juntar_por_material, sem_triangulos, ModelError, Submesh};

#[test]
fn indices_viram_um_buffer_com_uma_faixa_por_material_nao_vazio() {
    let grupos = vec![vec![], vec![0, 1, 2], vec![], vec![3, 4, 5, 5, 4, 6]];
    let (indices, faixas) = juntar_por_material(&grupos);
    assert_eq!(indices, vec![0, 1, 2, 3, 4, 5, 5, 4, 6]);
    assert_eq!(
        faixas,
        vec![
            Submesh { material: 1, offset: 0, count: 3 },
            Submesh { material: 3, offset: 3, count: 6 },
        ]
    );
    let (vazio, sem_faixas) = juntar_por_material(&[]);
    assert!(vazio.is_empty() && sem_faixas.is_empty());
}

#[test]
fn malha_sem_triangulos_e_recusada() {
    assert!(sem_triangulos(&[vec![], vec![]]));
    assert!(sem_triangulos(&[]));
    assert!(!sem_triangulos(&[vec![], vec![7]]));
    assert_eq!(conferir_malha(false, &[vec![], vec![]]), Err(ModelError::SemMalha));
    assert_eq!(conferir_malha(true, &[vec![0, 1, 2]]), Err(ModelError::SemMalha));
    assert_eq!(conferir_malha(false, &[vec![0, 1, 2]]), Ok(()));
}
