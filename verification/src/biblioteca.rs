//! Biblioteca de mobiliário e decoração: curadoria, download dos assets CC0 e
//! peças paramétricas. O disco e a rede ficam com quem chama.

pub mod catalogo;
pub mod parametrico;
pub mod polyhaven;

use vstd::prelude::*;
use crate::biblioteca::catalogo::{Item, Ambiente, Fonte, catalogo, catalogo_spec, texto_spec};
use crate::biblioteca::polyhaven::Relatorio;

verus! {

/// Raiz padrão da biblioteca dentro do projeto.
pub fn raiz_padrao() -> (r: String)
    ensures
        r@ == "biblioteca"@,
{
    "biblioteca".to_owned()
}

/// Resultado de montar a biblioteca.
#[derive(Debug, Default)]
pub struct Resumo {
    pub gerados: Vec<String>,
    pub baixados: Vec<Relatorio>,
    pub falhas: Vec<(String, String)>,
    pub bytes: u64,
}

impl Resumo {
    /// Itens gerados mais itens baixados.
    pub fn total(&self) -> (r: usize)
        requires
            self.gerados.len() + self.baixados.len() <= usize::MAX,
        ensures
            r == self.gerados.len() + self.baixados.len(),
    {
        self.gerados.len() + self.baixados.len()
    }
}

/// O item entra numa montagem com esse filtro de ambiente e essa restrição a
/// peças locais.
pub open spec fn entra_na_montagem(it: Item, filtro: Option<Ambiente>, somente_locais: bool) -> bool {
    &&& (filtro matches Some(a) ==> it.ambientes@.contains(a))
    &&& (somente_locais ==> it.fonte is Parametrica)
}

fn contem(amb: &[Ambiente], a: Ambiente) -> (r: bool)
    ensures
        r == amb@.contains(a),
{
    let mut i: usize = 0;
    while i < amb.len()
        invariant
            i <= amb.len(),
            forall|j: int| 0 <= j < i ==> amb@[j] != a,
        decreases amb.len() - i,
    {
        if amb[i] == a {
            return true;
        }
        i = i + 1;
    }
    false
}

/// Itens do catálogo que uma montagem processa, na ordem do catálogo: os do
/// ambiente filtrado (todos, sem filtro) e, com `somente_locais`, só os
/// paramétricos.
pub fn itens_a_montar(filtro: Option<Ambiente>, somente_locais: bool) -> (r: Vec<Item>)
    ensures
        r@ == catalogo_spec().filter(|it: Item| entra_na_montagem(it, filtro, somente_locais)),
{
    let c = catalogo();
    let mut r: Vec<Item> = Vec::new();
    let mut i: usize = 0;
    while i < c.len()
        invariant
            c@ == catalogo_spec(),
            i <= c.len(),
            r@ == c@.take(i as int).filter(|it: Item| entra_na_montagem(it, filtro, somente_locais)),
        decreases c.len() - i,
    {
        proof {
            assert(c@.take(i + 1).drop_last() =~= c@.take(i as int));
            reveal(Seq::filter);
        }
        let it = c[i];
        let no_ambiente = match filtro {
            Some(a) => contem(it.ambientes, a),
            None => true,
        };
        let local = match it.fonte {
            Fonte::Parametrica(_) => true,
            Fonte::PolyHaven { .. } => false,
        };
        if no_ambiente && (!somente_locais || local) {
            r.push(it);
        }
        i = i + 1;
    }
    assert(c@.take(c.len() as int) =~= c@);
    r
}

/// Texto de `LICENCA.txt` de uma peça gerada pelo ARCZ.
pub open spec fn licenca_local_spec(item: Item) -> Seq<char> {
    "Item: "@ + item.nome@ + " ("@ + item.chave@ + ")\nLicenca: "@ + texto_spec(item.licenca)
        + "\nOrigem: gerado pelo ARCZ (crate arcz-biblioteca)\n\n"@
        + "Geometria propria, sem dependencia de terceiros. Pode ser usada, alterada e\n"@
        + "distribuida sem restricao.\n"@
}

/// Texto de `LICENCA.txt` de uma peça gerada pelo ARCZ.
pub fn texto_da_licenca_local(item: &Item) -> (r: String)
    ensures
        r@ == licenca_local_spec(*item),
{
    let mut t = String::new();
    t.append("Item: ");
    t.append(item.nome);
    t.append(" (");
    t.append(item.chave);
    t.append(")\nLicenca: ");
    t.append(item.licenca.texto());
    t.append("\nOrigem: gerado pelo ARCZ (crate arcz-biblioteca)\n\n");
    t.append("Geometria propria, sem dependencia de terceiros. Pode ser usada, alterada e\n");
    t.append("distribuida sem restricao.\n");
    t
}

} // verus!
