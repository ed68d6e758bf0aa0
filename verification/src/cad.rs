//! Domínio CAD: o discriminador persistido de cada tipo de nó, que preserva
//! tipos futuros ou de plugin em vez de descartá-los, e o resumo de validação.

use vstd::prelude::*;
use crate::modelo::aparar;
use crate::texto::decimal;

verus! {

/// `a` e `b` têm o mesmo texto.
fn mesmo_texto(a: &str, b: &str) -> (r: bool)
    ensures
        r == (a@ == b@),
{
    a.to_owned() == b.to_owned()
}

/// Tipo de um nó do documento CAD.
#[derive(Debug, Clone, PartialEq, Eq)]
pub enum CadNodeKind {
    Site,
    SiteBoundary,
    Building,
    Level,
    Wall,
    Door,
    Window,
    Opening,
    Zone,
    Slab,
    Ceiling,
    Roof,
    RoofSegment,
    Stair,
    StairSegment,
    Item,
    Fence,
    Column,
    Elevator,
    StructuralGrid,
    Measurement,
    Terrain,
    Extension(String),
}

/// Discriminador persistido de um tipo.
pub open spec fn as_name_spec(k: CadNodeKind) -> Seq<char> {
    match k {
        CadNodeKind::Site => "site"@,
        CadNodeKind::SiteBoundary => "site-boundary"@,
        CadNodeKind::Building => "building"@,
        CadNodeKind::Level => "level"@,
        CadNodeKind::Wall => "wall"@,
        CadNodeKind::Door => "door"@,
        CadNodeKind::Window => "window"@,
        CadNodeKind::Opening => "opening"@,
        CadNodeKind::Zone => "zone"@,
        CadNodeKind::Slab => "slab"@,
        CadNodeKind::Ceiling => "ceiling"@,
        CadNodeKind::Roof => "roof"@,
        CadNodeKind::RoofSegment => "roof-segment"@,
        CadNodeKind::Stair => "stair"@,
        CadNodeKind::StairSegment => "stair-segment"@,
        CadNodeKind::Item => "item"@,
        CadNodeKind::Fence => "fence"@,
        CadNodeKind::Column => "column"@,
        CadNodeKind::Elevator => "elevator"@,
        CadNodeKind::StructuralGrid => "structural-grid"@,
        CadNodeKind::Measurement => "measurement"@,
        CadNodeKind::Terrain => "terrain"@,
        CadNodeKind::Extension(value) => value@,
    }
}

/// Nome reservado a um tipo nativo.
pub open spec fn nome_nativo(v: Seq<char>) -> bool {
    v == "site"@ || v == "site-boundary"@ || v == "building"@ || v == "level"@ || v == "wall"@ || v == "door"@ || v == "window"@ || v == "opening"@ || v == "zone"@ || v == "slab"@ || v == "ceiling"@ || v == "roof"@ || v == "roof-segment"@ || v == "stair"@ || v == "stair-segment"@ || v == "item"@ || v == "fence"@ || v == "column"@ || v == "elevator"@ || v == "structural-grid"@ || v == "measurement"@ || v == "terrain"@
}

/// `k` é o tipo que se lê do discriminador `v`: o nativo com esse nome, ou, se
/// o nome não é de nenhum nativo, uma extensão que guarda o texto.
pub open spec fn lido_de(v: Seq<char>, k: CadNodeKind) -> bool {
    if nome_nativo(v) {
        !(k is Extension) && as_name_spec(k) == v
    } else {
        k matches CadNodeKind::Extension(e) && e@ == v
    }
}

impl CadNodeKind {
    /// Lê um discriminador persistido sem descartar tipos futuros ou de plugin.
    pub fn from_name(value: &str) -> (r: Self)
        ensures
            lido_de(value@, r),
    {
        if mesmo_texto(value, "site") {
            CadNodeKind::Site
        } else if mesmo_texto(value, "site-boundary") {
            CadNodeKind::SiteBoundary
        } else if mesmo_texto(value, "building") {
            CadNodeKind::Building
        } else if mesmo_texto(value, "level") {
            CadNodeKind::Level
        } else if mesmo_texto(value, "wall") {
            CadNodeKind::Wall
        } else if mesmo_texto(value, "door") {
            CadNodeKind::Door
        } else if mesmo_texto(value, "window") {
            CadNodeKind::Window
        } else if mesmo_texto(value, "opening") {
            CadNodeKind::Opening
        } else if mesmo_texto(value, "zone") {
            CadNodeKind::Zone
        } else if mesmo_texto(value, "slab") {
            CadNodeKind::Slab
        } else if mesmo_texto(value, "ceiling") {
            CadNodeKind::Ceiling
        } else if mesmo_texto(value, "roof") {
            CadNodeKind::Roof
        } else if mesmo_texto(value, "roof-segment") {
            CadNodeKind::RoofSegment
        } else if mesmo_texto(value, "stair") {
            CadNodeKind::Stair
        } else if mesmo_texto(value, "stair-segment") {
            CadNodeKind::StairSegment
        } else if mesmo_texto(value, "item") {
            CadNodeKind::Item
        } else if mesmo_texto(value, "fence") {
            CadNodeKind::Fence
        } else if mesmo_texto(value, "column") {
            CadNodeKind::Column
        } else if mesmo_texto(value, "elevator") {
            CadNodeKind::Elevator
        } else if mesmo_texto(value, "structural-grid") {
            CadNodeKind::StructuralGrid
        } else if mesmo_texto(value, "measurement") {
            CadNodeKind::Measurement
        } else if mesmo_texto(value, "terrain") {
            CadNodeKind::Terrain
        } else {
            CadNodeKind::Extension(value.to_owned())
        }
    }

    /// Discriminador persistido do tipo.
    pub fn as_name(&self) -> (r: &str)
        ensures
            r@ == as_name_spec(*self),
    {
        match self {
            CadNodeKind::Site => "site",
            CadNodeKind::SiteBoundary => "site-boundary",
            CadNodeKind::Building => "building",
            CadNodeKind::Level => "level",
            CadNodeKind::Wall => "wall",
            CadNodeKind::Door => "door",
            CadNodeKind::Window => "window",
            CadNodeKind::Opening => "opening",
            CadNodeKind::Zone => "zone",
            CadNodeKind::Slab => "slab",
            CadNodeKind::Ceiling => "ceiling",
            CadNodeKind::Roof => "roof",
            CadNodeKind::RoofSegment => "roof-segment",
            CadNodeKind::Stair => "stair",
            CadNodeKind::StairSegment => "stair-segment",
            CadNodeKind::Item => "item",
            CadNodeKind::Fence => "fence",
            CadNodeKind::Column => "column",
            CadNodeKind::Elevator => "elevator",
            CadNodeKind::StructuralGrid => "structural-grid",
            CadNodeKind::Measurement => "measurement",
            CadNodeKind::Terrain => "terrain",
            CadNodeKind::Extension(value) => value.as_str(),
        }
    }
}

/// Cada tipo nativo se grava com o seu próprio nome fixo, e ler esse nome dá de
/// volta o mesmo tipo: `door` é porta, `window` é janela, e assim por diante.
pub proof fn lei_tabela_dos_tipos(lido: CadNodeKind)
    ensures
        as_name_spec(CadNodeKind::Site) == "site"@,
        as_name_spec(CadNodeKind::SiteBoundary) == "site-boundary"@,
        as_name_spec(CadNodeKind::Building) == "building"@,
        as_name_spec(CadNodeKind::Level) == "level"@,
        as_name_spec(CadNodeKind::Wall) == "wall"@,
        as_name_spec(CadNodeKind::Door) == "door"@,
        as_name_spec(CadNodeKind::Window) == "window"@,
        as_name_spec(CadNodeKind::Opening) == "opening"@,
        as_name_spec(CadNodeKind::Zone) == "zone"@,
        as_name_spec(CadNodeKind::Slab) == "slab"@,
        as_name_spec(CadNodeKind::Ceiling) == "ceiling"@,
        as_name_spec(CadNodeKind::Roof) == "roof"@,
        as_name_spec(CadNodeKind::RoofSegment) == "roof-segment"@,
        as_name_spec(CadNodeKind::Stair) == "stair"@,
        as_name_spec(CadNodeKind::StairSegment) == "stair-segment"@,
        as_name_spec(CadNodeKind::Item) == "item"@,
        as_name_spec(CadNodeKind::Fence) == "fence"@,
        as_name_spec(CadNodeKind::Column) == "column"@,
        as_name_spec(CadNodeKind::Elevator) == "elevator"@,
        as_name_spec(CadNodeKind::StructuralGrid) == "structural-grid"@,
        as_name_spec(CadNodeKind::Measurement) == "measurement"@,
        as_name_spec(CadNodeKind::Terrain) == "terrain"@,
        lido_de("site"@, lido) ==> lido == CadNodeKind::Site,
        lido_de("site-boundary"@, lido) ==> lido == CadNodeKind::SiteBoundary,
        lido_de("building"@, lido) ==> lido == CadNodeKind::Building,
        lido_de("level"@, lido) ==> lido == CadNodeKind::Level,
        lido_de("wall"@, lido) ==> lido == CadNodeKind::Wall,
        lido_de("door"@, lido) ==> lido == CadNodeKind::Door,
        lido_de("window"@, lido) ==> lido == CadNodeKind::Window,
        lido_de("opening"@, lido) ==> lido == CadNodeKind::Opening,
        lido_de("zone"@, lido) ==> lido == CadNodeKind::Zone,
        lido_de("slab"@, lido) ==> lido == CadNodeKind::Slab,
        lido_de("ceiling"@, lido) ==> lido == CadNodeKind::Ceiling,
        lido_de("roof"@, lido) ==> lido == CadNodeKind::Roof,
        lido_de("roof-segment"@, lido) ==> lido == CadNodeKind::RoofSegment,
        lido_de("stair"@, lido) ==> lido == CadNodeKind::Stair,
        lido_de("stair-segment"@, lido) ==> lido == CadNodeKind::StairSegment,
        lido_de("item"@, lido) ==> lido == CadNodeKind::Item,
        lido_de("fence"@, lido) ==> lido == CadNodeKind::Fence,
        lido_de("column"@, lido) ==> lido == CadNodeKind::Column,
        lido_de("elevator"@, lido) ==> lido == CadNodeKind::Elevator,
        lido_de("structural-grid"@, lido) ==> lido == CadNodeKind::StructuralGrid,
        lido_de("measurement"@, lido) ==> lido == CadNodeKind::Measurement,
        lido_de("terrain"@, lido) ==> lido == CadNodeKind::Terrain,
{
    if lido_de("site"@, lido) && lido != CadNodeKind::Site {
        lei_nomes_nativos_distintos(lido, CadNodeKind::Site);
    }
    if lido_de("site-boundary"@, lido) && lido != CadNodeKind::SiteBoundary {
        lei_nomes_nativos_distintos(lido, CadNodeKind::SiteBoundary);
    }
    if lido_de("building"@, lido) && lido != CadNodeKind::Building {
        lei_nomes_nativos_distintos(lido, CadNodeKind::Building);
    }
    if lido_de("level"@, lido) && lido != CadNodeKind::Level {
        lei_nomes_nativos_distintos(lido, CadNodeKind::Level);
    }
    if lido_de("wall"@, lido) && lido != CadNodeKind::Wall {
        lei_nomes_nativos_distintos(lido, CadNodeKind::Wall);
    }
    if lido_de("door"@, lido) && lido != CadNodeKind::Door {
        lei_nomes_nativos_distintos(lido, CadNodeKind::Door);
    }
    if lido_de("window"@, lido) && lido != CadNodeKind::Window {
        lei_nomes_nativos_distintos(lido, CadNodeKind::Window);
    }
    if lido_de("opening"@, lido) && lido != CadNodeKind::Opening {
        lei_nomes_nativos_distintos(lido, CadNodeKind::Opening);
    }
    if lido_de("zone"@, lido) && lido != CadNodeKind::Zone {
        lei_nomes_nativos_distintos(lido, CadNodeKind::Zone);
    }
    if lido_de("slab"@, lido) && lido != CadNodeKind::Slab {
        lei_nomes_nativos_distintos(lido, CadNodeKind::Slab);
    }
    if lido_de("ceiling"@, lido) && lido != CadNodeKind::Ceiling {
        lei_nomes_nativos_distintos(lido, CadNodeKind::Ceiling);
    }
    if lido_de("roof"@, lido) && lido != CadNodeKind::Roof {
        lei_nomes_nativos_distintos(lido, CadNodeKind::Roof);
    }
    if lido_de("roof-segment"@, lido) && lido != CadNodeKind::RoofSegment {
        lei_nomes_nativos_distintos(lido, CadNodeKind::RoofSegment);
    }
    if lido_de("stair"@, lido) && lido != CadNodeKind::Stair {
        lei_nomes_nativos_distintos(lido, CadNodeKind::Stair);
    }
    if lido_de("stair-segment"@, lido) && lido != CadNodeKind::StairSegment {
        lei_nomes_nativos_distintos(lido, CadNodeKind::StairSegment);
    }
    if lido_de("item"@, lido) && lido != CadNodeKind::Item {
        lei_nomes_nativos_distintos(lido, CadNodeKind::Item);
    }
    if lido_de("fence"@, lido) && lido != CadNodeKind::Fence {
        lei_nomes_nativos_distintos(lido, CadNodeKind::Fence);
    }
    if lido_de("column"@, lido) && lido != CadNodeKind::Column {
        lei_nomes_nativos_distintos(lido, CadNodeKind::Column);
    }
    if lido_de("elevator"@, lido) && lido != CadNodeKind::Elevator {
        lei_nomes_nativos_distintos(lido, CadNodeKind::Elevator);
    }
    if lido_de("structural-grid"@, lido) && lido != CadNodeKind::StructuralGrid {
        lei_nomes_nativos_distintos(lido, CadNodeKind::StructuralGrid);
    }
    if lido_de("measurement"@, lido) && lido != CadNodeKind::Measurement {
        lei_nomes_nativos_distintos(lido, CadNodeKind::Measurement);
    }
    if lido_de("terrain"@, lido) && lido != CadNodeKind::Terrain {
        lei_nomes_nativos_distintos(lido, CadNodeKind::Terrain);
    }
}

/// Ler e escrever o discriminador devolve o mesmo texto, para qualquer texto:
/// nada se perde, nem os tipos que esta versão não conhece.
pub proof fn lei_nome_vai_e_volta(v: Seq<char>, k: CadNodeKind)
    requires
        lido_de(v, k),
    ensures
        as_name_spec(k) == v,
{
}

/// Escrever e ler o discriminador devolve o mesmo tipo: o mesmo nativo, ou uma
/// extensão com o mesmo texto (desde que a extensão não use o nome de um nativo).
pub proof fn lei_tipo_vai_e_volta(k: CadNodeKind, lido: CadNodeKind)
    requires
        !(k matches CadNodeKind::Extension(e) && nome_nativo(e@)),
        lido_de(as_name_spec(k), lido),
    ensures
        !(k is Extension) ==> lido == k,
        k matches CadNodeKind::Extension(e) ==> (lido matches CadNodeKind::Extension(f) && f@ == e@),
{
    if !(k is Extension) {
        assert(nome_nativo(as_name_spec(k)));
        if lido != k {
            lei_nomes_nativos_distintos(k, lido);
        }
    }
}

/// Os discriminadores nativos são distintos: dois tipos nativos diferentes nunca
/// se gravam com o mesmo nome.
pub proof fn lei_nomes_nativos_distintos(a: CadNodeKind, b: CadNodeKind)
    requires
        !(a is Extension),
        !(b is Extension),
        a != b,
    ensures
        as_name_spec(a) != as_name_spec(b),
{
    reveal_strlit("site");
    reveal_strlit("site-boundary");
    reveal_strlit("building");
    reveal_strlit("level");
    reveal_strlit("wall");
    reveal_strlit("door");
    reveal_strlit("window");
    reveal_strlit("opening");
    reveal_strlit("zone");
    reveal_strlit("slab");
    reveal_strlit("ceiling");
    reveal_strlit("roof");
    reveal_strlit("roof-segment");
    reveal_strlit("stair");
    reveal_strlit("stair-segment");
    reveal_strlit("item");
    reveal_strlit("fence");
    reveal_strlit("column");
    reveal_strlit("elevator");
    reveal_strlit("structural-grid");
    reveal_strlit("measurement");
    reveal_strlit("terrain");
    let (x, y) = (as_name_spec(a), as_name_spec(b));
    if x == y {
        assert(x.len() == y.len() && x[0] == y[0] && x[1] == y[1] && x[2] == y[2] && x[3] == y[3]
            && x[x.len() - 1] == y[y.len() - 1] && x[x.len() - 3] == y[y.len() - 3]);
        assert(false);
    }
}

/// Resultado de uma validação bem-sucedida.
#[derive(Debug, Clone, PartialEq, Eq)]
pub struct ValidationSummary {
    pub node_count: usize,
    pub root_count: usize,
    pub warnings: Vec<String>,
}

/// Erros do documento CAD que não vêm da geometria nem da serialização.
#[derive(Debug, Clone, PartialEq, Eq)]
pub enum CadError {
    UnsupportedSchema(u32),
    RequiredField(&'static str),
    RootMismatch,
    NodeKeyMismatch(String),
    DuplicateNode(String),
    NodeNotFound(String),
    MissingParent { node: String, parent: String },
    ParentCycle(String),
    NonFinite(String),
    RotationLength(String),
    ZeroScale(String),
    InvalidGeometry(String),
    WallTooShort(String),
    NonPositiveDimension,
    OpeningParameter(String),
    WrongParentKind { node_kind: String, expected: String },
}

/// O que a validação estrutural lê de um nó: a chave sob a qual ele está no
/// documento, o id, o tipo e o pai.
#[derive(Debug, Clone, PartialEq, Eq)]
pub struct NoCad {
    pub chave: String,
    pub id: String,
    pub kind: CadNodeKind,
    pub parent_id: Option<String>,
}

/// Vista de um texto opcional.
pub open spec fn vista_opt(o: Option<String>) -> Option<Seq<char>> {
    match o {
        Some(s) => Some(s@),
        None => None,
    }
}

/// Há um nó sob a chave `k`.
pub open spec fn tem_chave(d: Seq<NoCad>, k: Seq<char>) -> bool {
    exists|i: int| 0 <= i < d.len() && #[trigger] d[i].chave@ == k
}

/// Posição do primeiro nó sob a chave `k`, a partir de `i`.
pub open spec fn posicao_da_chave(d: Seq<NoCad>, k: Seq<char>, i: int) -> Option<int>
    decreases d.len() - i,
{
    if i < 0 || i >= d.len() {
        None
    } else if d[i].chave@ == k {
        Some(i)
    } else {
        posicao_da_chave(d, k, i + 1)
    }
}

/// Pai do nó sob a chave `k` (nenhum, se não houver nó com essa chave).
pub open spec fn pai_de(d: Seq<NoCad>, k: Seq<char>) -> Option<Seq<char>> {
    match posicao_da_chave(d, k, 0) {
        Some(i) => vista_opt(d[i].parent_id),
        None => None,
    }
}

/// `n`-ésimo elo da cadeia de ancestrais a partir de `id` (o próprio `id` é o elo 0).
pub open spec fn ancestral(d: Seq<NoCad>, id: Seq<char>, n: nat) -> Option<Seq<char>>
    decreases n,
{
    if n == 0 {
        Some(id)
    } else {
        match ancestral(d, id, (n - 1) as nat) {
            Some(x) => pai_de(d, x),
            None => None,
        }
    }
}

/// Os elos `0..m` da cadeia são todos distintos.
pub open spec fn elos_distintos(d: Seq<NoCad>, id: Seq<char>, m: nat) -> bool {
    forall|j: nat, k: nat| j < k < m ==> #[trigger] ancestral(d, id, j) != #[trigger] ancestral(d, id, k)
}

/// A cadeia de ancestrais de `id` termina sem repetir nenhum nó.
pub open spec fn cadeia_termina(d: Seq<NoCad>, id: Seq<char>) -> bool {
    exists|m: nat| #[trigger] ancestral(d, id, m) is None && elos_distintos(d, id, m)
}

/// A cadeia de ancestrais de `id` volta a um nó já visitado.
pub open spec fn cadeia_repete(d: Seq<NoCad>, id: Seq<char>) -> bool {
    exists|m: nat| #[trigger] ancestral(d, id, m) is Some
        && exists|k: nat| k < m && #[trigger] ancestral(d, id, k) == ancestral(d, id, m)
}

fn iguais(a: &str, b: &str) -> (r: bool)
    ensures
        r == (a@ == b@),
{
    a.to_owned() == b.to_owned()
}

fn busca(d: &[NoCad], k: &str) -> (r: Option<usize>)
    ensures
        match r {
            Some(i) => posicao_da_chave(d@, k@, 0) == Some(i as int),
            None => posicao_da_chave(d@, k@, 0) is None,
        },
        r is None <==> !tem_chave(d@, k@),
        r matches Some(i) ==> i < d@.len() && d@[i as int].chave@ == k@,
{
    let mut i: usize = 0;
    while i < d.len()
        invariant
            i <= d.len(),
            posicao_da_chave(d@, k@, 0) == posicao_da_chave(d@, k@, i as int),
            forall|j: int| 0 <= j < i ==> d@[j].chave@ != k@,
        decreases d.len() - i,
    {
        if iguais(d[i].chave.as_str(), k) {
            return Some(i);
        }
        i = i + 1;
    }
    None
}

proof fn lema_pombos(v: Seq<Seq<char>>, d: Seq<NoCad>)
    requires
        v.no_duplicates(),
        forall|j: int| 0 <= j < v.len() ==> #[trigger] tem_chave(d, v[j]),
    ensures
        v.len() <= d.len(),
{
    let chaves = d.map_values(|n: NoCad| n.chave@);
    assert(v.to_set().subset_of(chaves.to_set())) by {
        assert forall|x: Seq<char>| v.to_set().contains(x) implies chaves.to_set().contains(x) by {
            let j = choose|j: int| 0 <= j < v.len() && v[j] == x;
            assert(tem_chave(d, v[j]));
            let i = choose|i: int| 0 <= i < d.len() && #[trigger] d[i].chave@ == v[j];
            assert(chaves[i] == x);
        }
    }
    v.unique_seq_to_set();
    chaves.lemma_cardinality_of_set();
    vstd::set_lib::lemma_len_subset(v.to_set(), chaves.to_set());
}

proof fn lema_nenhum_absorve(d: Seq<NoCad>, id: Seq<char>, a: nat, b: nat)
    requires
        a <= b,
        ancestral(d, id, a) is None,
    ensures
        ancestral(d, id, b) is None,
    decreases b - a,
{
    if a < b {
        lema_nenhum_absorve(d, id, a, (b - 1) as nat);
    }
}

/// Uma cadeia de ancestrais não pode ao mesmo tempo terminar sem repetir e
/// repetir um nó.
proof fn lema_termina_ou_repete(d: Seq<NoCad>, id: Seq<char>)
    ensures
        !(cadeia_termina(d, id) && cadeia_repete(d, id)),
{
    if cadeia_termina(d, id) && cadeia_repete(d, id) {
        let m = choose|m: nat| #[trigger] ancestral(d, id, m) is None && elos_distintos(d, id, m);
        let m2 = choose|m2: nat| #[trigger] ancestral(d, id, m2) is Some
            && exists|k: nat| k < m2 && #[trigger] ancestral(d, id, k) == ancestral(d, id, m2);
        let k = choose|k: nat| k < m2 && #[trigger] ancestral(d, id, k) == ancestral(d, id, m2);
        if m <= m2 {
            lema_nenhum_absorve(d, id, m, m2);
        } else {
            assert(ancestral(d, id, k) != ancestral(d, id, m2));
        }
    }
}

/// A cadeia de ancestrais de `id` não tem ciclo. A caminhada termina: cada passo
/// visita um nó novo do documento.
pub fn validar_ancestralidade(d: &[NoCad], id: &str) -> (r: Result<(), CadError>)
    ensures
        r is Ok ==> cadeia_termina(d@, id@),
        r is Err ==> cadeia_repete(d@, id@) && (r matches Err(CadError::ParentCycle(s)) && s@ == id@),
        !(cadeia_termina(d@, id@) && cadeia_repete(d@, id@)),
{
    let mut visitados: Vec<String> = Vec::new();
    let mut atual: Option<String> = Some(id.to_owned());
    let ghost mut vistos: Seq<Seq<char>> = Seq::empty();
    while atual.is_some()
        invariant
            vistos.len() == visitados@.len(),
            forall|j: int| 0 <= j < vistos.len() ==> #[trigger] vistos[j] == visitados@[j]@,
            forall|j: int| 0 <= j < vistos.len() ==> Some(#[trigger] vistos[j]) == ancestral(d@, id@, j as nat),
            vistos.no_duplicates(),
            vista_opt(atual) == ancestral(d@, id@, vistos.len()),
            atual is Some ==> forall|j: int| 0 <= j < vistos.len() ==> #[trigger] tem_chave(d@, vistos[j]),
            atual is Some ==> vistos.len() <= d@.len(),
        decreases d@.len() + 1 - vistos.len(),
    {
        let x = match atual {
            Some(x) => x,
            None => String::new(),
        };
        assert(Some(x@) == ancestral(d@, id@, vistos.len() as nat));
        let mut j: usize = 0;
        while j < visitados.len()
            invariant
                Some(x@) == ancestral(d@, id@, vistos.len() as nat),
                forall|t: int| 0 <= t < vistos.len() ==> Some(#[trigger] vistos[t]) == ancestral(d@, id@, t as nat),
                j <= visitados@.len(),
                vistos.len() == visitados@.len(),
                forall|t: int| 0 <= t < vistos.len() ==> #[trigger] vistos[t] == visitados@[t]@,
                forall|t: int| 0 <= t < j ==> vistos[t] != x@,
            decreases visitados@.len() - j,
        {
            if iguais(visitados[j].as_str(), x.as_str()) {
                proof {
                    let m = vistos.len() as nat;
                    assert(vistos[j as int] == x@);
                    assert(ancestral(d@, id@, j as nat) == ancestral(d@, id@, m));
                }
                proof { lema_termina_ou_repete(d@, id@); }
                return Err(CadError::ParentCycle(id.to_owned()));
            }
            j = j + 1;
        }
        let proximo = match busca(d, x.as_str()) {
            Some(i) => d[i].parent_id.clone(),
            None => None,
        };
        proof {
            assert(ancestral(d@, id@, (vistos.len() + 1) as nat) == pai_de(d@, x@));
            vistos = vistos.push(x@);
        }
        visitados.push(x);
        atual = proximo;
        proof {
            if atual is Some {
                assert(tem_chave(d@, vistos[vistos.len() - 1]));
                lema_pombos(vistos, d@);
            }
        }
    }
    proof {
        lema_termina_ou_repete(d@, id@);
        let m = vistos.len() as nat;
        assert(ancestral(d@, id@, m) is None);
        assert(elos_distintos(d@, id@, m)) by {
            assert forall|j: nat, k: nat| j < k < m implies #[trigger] ancestral(d@, id@, j) != #[trigger] ancestral(d@, id@, k) by {
                assert(Some(vistos[j as int]) == ancestral(d@, id@, j));
                assert(Some(vistos[k as int]) == ancestral(d@, id@, k));
            }
        }
    }
    Ok(())
}

/// Chaves dos nós sem pai: as raízes de fato.
pub open spec fn raizes_reais(d: Seq<NoCad>) -> Set<Seq<char>> {
    Set::new(|k: Seq<char>| exists|i: int| 0 <= i < d.len() && #[trigger] d[i].chave@ == k && d[i].parent_id is None)
}

/// Raízes declaradas pelo documento.
pub open spec fn raizes_declaradas(r: Seq<String>) -> Set<Seq<char>> {
    Set::new(|k: Seq<char>| exists|j: int| 0 <= j < r.len() && #[trigger] r[j]@ == k)
}

fn raiz_real(d: &[NoCad], k: &str) -> (r: bool)
    ensures
        r == raizes_reais(d@).contains(k@),
{
    let mut i: usize = 0;
    while i < d.len()
        invariant
            i <= d.len(),
            forall|t: int| 0 <= t < i ==> !(d@[t].chave@ == k@ && d@[t].parent_id is None),
        decreases d.len() - i,
    {
        if d[i].parent_id.is_none() && iguais(d[i].chave.as_str(), k) {
            return true;
        }
        i = i + 1;
    }
    false
}

fn raiz_declarada(r: &[String], k: &str) -> (b: bool)
    ensures
        b == raizes_declaradas(r@).contains(k@),
{
    let mut j: usize = 0;
    while j < r.len()
        invariant
            j <= r.len(),
            forall|t: int| 0 <= t < j ==> r@[t]@ != k@,
        decreases r.len() - j,
    {
        if iguais(r[j].as_str(), k) {
            return true;
        }
        j = j + 1;
    }
    false
}

/// Versão do esquema de documento CAD que este código entende.
pub const VERSAO_DO_ESQUEMA: u32 = 1;

/// Verificações do documento antes dos nós, nesta ordem: versão do esquema, id e
/// nome não vazios (depois de aparar), e raízes declaradas iguais às de fato.
#[verifier::loop_isolation(false)]
pub fn validar_cabecalho(schema_version: u32, id: &str, name: &str, d: &[NoCad], raizes: &[String])
    -> (r: Result<(), CadError>)
    ensures
        schema_version != VERSAO_DO_ESQUEMA ==> r == Err::<(), CadError>(CadError::UnsupportedSchema(schema_version)),
        schema_version == VERSAO_DO_ESQUEMA && (aparar(id@).len() == 0 || aparar(name@).len() == 0)
            ==> r == Err::<(), CadError>(CadError::RequiredField("id/name")),
        schema_version == VERSAO_DO_ESQUEMA && aparar(id@).len() > 0 && aparar(name@).len() > 0
            ==> (r is Ok <==> raizes_reais(d@) == raizes_declaradas(raizes@))
                && (r is Err ==> r == Err::<(), CadError>(CadError::RootMismatch)),
{
    if schema_version != VERSAO_DO_ESQUEMA {
        return Err(CadError::UnsupportedSchema(schema_version));
    }
    let vid = crate::modelo::aparar_chars(&crate::texto::chars_de(id));
    let vnome = crate::modelo::aparar_chars(&crate::texto::chars_de(name));
    if vid.len() == 0 || vnome.len() == 0 {
        return Err(CadError::RequiredField("id/name"));
    }
    let mut i: usize = 0;
    while i < d.len()
        invariant
            i <= d.len(),
            forall|t: int| 0 <= t < i && d@[t].parent_id is None ==> raizes_declaradas(raizes@).contains(#[trigger] d@[t].chave@),
        decreases d.len() - i,
    {
        if d[i].parent_id.is_none() && !raiz_declarada(raizes, d[i].chave.as_str()) {
            assert(raizes_reais(d@).contains(d@[i as int].chave@));
            assert(raizes_reais(d@) != raizes_declaradas(raizes@));
            return Err(CadError::RootMismatch);
        }
        i = i + 1;
    }
    let mut j: usize = 0;
    while j < raizes.len()
        invariant
            j <= raizes.len(),
            forall|t: int| 0 <= t < d@.len() && d@[t].parent_id is None ==> raizes_declaradas(raizes@).contains(#[trigger] d@[t].chave@),
            forall|t: int| 0 <= t < j ==> raizes_reais(d@).contains(#[trigger] raizes@[t]@),
        decreases raizes.len() - j,
    {
        if !raiz_real(d, raizes[j].as_str()) {
            assert(raizes_declaradas(raizes@).contains(raizes@[j as int]@));
            assert(raizes_reais(d@) != raizes_declaradas(raizes@));
            return Err(CadError::RootMismatch);
        }
        j = j + 1;
    }
    assert(raizes_reais(d@) =~= raizes_declaradas(raizes@));
    Ok(())
}

/// O nó está sob a chave do próprio id e o pai, se houver, existe.
pub open spec fn no_consistente(d: Seq<NoCad>, i: int) -> bool {
    &&& d[i].chave@ == d[i].id@
    &&& (d[i].parent_id matches Some(p) ==> tem_chave(d, p@))
}

/// Verificações de um nó: a chave é o próprio id, e o pai, se declarado, existe.
pub fn validar_no(d: &[NoCad], i: usize) -> (r: Result<(), CadError>)
    requires
        i < d@.len(),
    ensures
        r is Ok <==> no_consistente(d@, i as int),
        d@[i as int].chave@ != d@[i as int].id@ ==> (r matches Err(CadError::NodeKeyMismatch(k)) && k@ == d@[i as int].chave@),
        d@[i as int].chave@ == d@[i as int].id@ && !no_consistente(d@, i as int) ==>
            (r matches Err(CadError::MissingParent { node, parent }) && node@ == d@[i as int].id@
                && vista_opt(d@[i as int].parent_id) == Some(parent@)),
{
    let no = &d[i];
    if !iguais(no.chave.as_str(), no.id.as_str()) {
        return Err(CadError::NodeKeyMismatch(no.chave.clone()));
    }
    match &no.parent_id {
        Some(p) => {
            if busca(d, p.as_str()).is_none() {
                return Err(CadError::MissingParent { node: no.id.clone(), parent: p.clone() });
            }
        },
        None => {},
    }
    Ok(())
}

proof fn lema_posicao(d: Seq<NoCad>, k: Seq<char>, i: int)
    requires
        0 <= i,
    ensures
        match posicao_da_chave(d, k, i) {
            Some(j) => i <= j < d.len() && d[j].chave@ == k,
            None => forall|t: int| i <= t < d.len() ==> d[t].chave@ != k,
        },
    decreases d.len() - i,
{
    if i < d.len() && d[i].chave@ != k {
        lema_posicao(d, k, i + 1);
    }
}

proof fn lema_elos_sao_chaves(d: Seq<NoCad>, i: int, k: nat)
    requires
        0 <= i < d.len(),
        forall|t: int| 0 <= t < d.len() ==> no_consistente(d, t),
        ancestral(d, d[i].id@, k) is Some,
    ensures
        tem_chave(d, ancestral(d, d[i].id@, k).unwrap()),
    decreases k,
{
    let id = d[i].id@;
    if k == 0 {
        assert(no_consistente(d, i));
        assert(d[i].chave@ == id);
    } else {
        let anterior = ancestral(d, id, (k - 1) as nat);
        lema_elos_sao_chaves(d, i, (k - 1) as nat);
        let x = anterior.unwrap();
        lema_posicao(d, x, 0);
        let j = posicao_da_chave(d, x, 0).unwrap();
        assert(no_consistente(d, j));
    }
}

/// Num documento com cabeçalho válido e nós consistentes, a cadeia de ancestrais
/// de qualquer nó que termina acaba numa raiz declarada: o documento é uma
/// floresta pendurada nas raízes que ele mesmo lista.
pub proof fn lei_todo_no_chega_a_uma_raiz(d: Seq<NoCad>, raizes: Seq<String>, i: int, m: nat)
    requires
        raizes_reais(d) == raizes_declaradas(raizes),
        forall|t: int| 0 <= t < d.len() ==> no_consistente(d, t),
        0 <= i < d.len(),
        m > 0,
        ancestral(d, d[i].id@, m) is None,
        ancestral(d, d[i].id@, (m - 1) as nat) is Some,
    ensures
        raizes_declaradas(raizes).contains(ancestral(d, d[i].id@, (m - 1) as nat).unwrap()),
{
    let id = d[i].id@;
    let x = ancestral(d, id, (m - 1) as nat).unwrap();
    lema_elos_sao_chaves(d, i, (m - 1) as nat);
    lema_posicao(d, x, 0);
    let j = posicao_da_chave(d, x, 0).unwrap();
    assert(pai_de(d, x) is None);
    assert(d[j].parent_id is None);
    assert(raizes_reais(d).contains(x));
}

/// Cada chave aparece uma vez (o documento é um mapa por chave).
pub open spec fn chaves_unicas(d: Seq<NoCad>) -> bool {
    forall|a: int, b: int| 0 <= a < d.len() && 0 <= b < d.len() && a != b ==> #[trigger] d[a].chave@ != #[trigger] d[b].chave@
}

/// Cada nó está sob a chave do próprio id.
pub open spec fn chaves_sao_ids(d: Seq<NoCad>) -> bool {
    forall|t: int| 0 <= t < d.len() ==> #[trigger] d[t].chave@ == d[t].id@
}

/// Nenhuma cadeia de ancestrais do documento tem ciclo.
pub open spec fn documento_sem_ciclos(d: Seq<NoCad>) -> bool {
    forall|i: int| 0 <= i < d.len() ==> #[trigger] cadeia_termina(d, d[i].chave@)
}

/// `x` é `id` ou descende dele.
pub open spec fn eh_descendente(d: Seq<NoCad>, x: Seq<char>, id: Seq<char>) -> bool {
    exists|k: nat| #[trigger] ancestral(d, x, k) == Some(id)
}

/// Textos de uma lista de `String`.
pub open spec fn textos(v: Seq<String>) -> Seq<Seq<char>> {
    v.map_values(|s: String| s@)
}

proof fn lema_ancestral_desloca(d: Seq<NoCad>, x: Seq<char>, k: nat)
    requires
        k >= 1,
    ensures
        ancestral(d, x, k) == match pai_de(d, x) {
            Some(y) => ancestral(d, y, (k - 1) as nat),
            None => None::<Seq<char>>,
        },
    decreases k,
{
    assert(ancestral(d, x, 0) == Some(x));
    if k == 1 {
        match pai_de(d, x) {
            Some(y) => {
                assert(ancestral(d, y, 0) == Some(y));
            },
            None => {},
        }
    } else {
        lema_ancestral_desloca(d, x, (k - 1) as nat);
        match pai_de(d, x) {
            Some(y) => {
                assert(ancestral(d, x, (k - 1) as nat) == ancestral(d, y, (k - 2) as nat));
                assert(ancestral(d, y, (k - 1) as nat) == match ancestral(d, y, (k - 2) as nat) {
                    Some(z) => pai_de(d, z),
                    None => None,
                });
            },
            None => {
                assert(ancestral(d, x, (k - 1) as nat) is None);
            },
        }
    }
}

proof fn lema_pai_do_no(d: Seq<NoCad>, c: int)
    requires
        chaves_unicas(d),
        0 <= c < d.len(),
    ensures
        pai_de(d, d[c].chave@) == vista_opt(d[c].parent_id),
{
    lema_posicao(d, d[c].chave@, 0);
    let j = posicao_da_chave(d, d[c].chave@, 0).unwrap();
    assert(j == c);
}

/// Posição no documento do nó sob a chave `k`.
pub open spec fn posicao_no_documento(d: Seq<NoCad>, k: Seq<char>) -> int {
    posicao_da_chave(d, k, 0).unwrap()
}

/// `t` está em ordem de largura, com `pais[j]` a posição em `t` do pai de `t[j]`:
/// cada elemento depois do primeiro tem o pai antes dele, e os elementos vêm
/// ordenados pela posição do pai em `t` e, entre irmãos, pela posição no
/// documento.
pub open spec fn em_largura(d: Seq<NoCad>, t: Seq<Seq<char>>, pais: Seq<int>) -> bool {
    &&& pais.len() == t.len()
    &&& forall|j: int| 1 <= j < t.len() ==> 0 <= #[trigger] pais[j] < j && pai_de(d, t[j]) == Some(t[pais[j]])
    &&& forall|a: int, b: int| 1 <= a < b < t.len() ==> #[trigger] pais[a] < #[trigger] pais[b]
        || (pais[a] == pais[b] && posicao_no_documento(d, t[a]) < posicao_no_documento(d, t[b]))
}

proof fn lema_posicao_do_no(d: Seq<NoCad>, c: int)
    requires
        chaves_unicas(d),
        0 <= c < d.len(),
    ensures
        posicao_da_chave(d, d[c].chave@, 0) == Some(c),
{
    lema_posicao(d, d[c].chave@, 0);
    let j = posicao_da_chave(d, d[c].chave@, 0).unwrap();
    assert(j == c);
}

/// `id` e todos os seus descendentes, cada um uma vez, começando por `id`: o que
/// uma exclusão em cascata apaga. Em largura; os filhos de cada nó vêm na ordem de
/// `d` (num documento guardado por chave, a ordem das chaves).
#[verifier::rlimit(60)]
pub fn descendentes(d: &[NoCad], id: &str) -> (r: Result<Vec<String>, CadError>)
    requires
        chaves_unicas(d@),
        chaves_sao_ids(d@),
        cadeia_termina(d@, id@),
    ensures
        !tem_chave(d@, id@) ==> (r matches Err(CadError::NodeNotFound(s)) && s@ == id@),
        tem_chave(d@, id@) ==> (r matches Ok(v) && v@.len() >= 1 && v@[0]@ == id@ && textos(v@).no_duplicates()
            && (forall|x: Seq<char>| #[trigger] textos(v@).contains(x) <==> (tem_chave(d@, x) && eh_descendente(d@, x, id@)))
            && exists|pais: Seq<int>| em_largura(d@, textos(v@), pais)),
{
    if busca(d, id).is_none() {
        return Err(CadError::NodeNotFound(id.to_owned()));
    }
    let ghost idv = id@;
    let mut v: Vec<String> = Vec::new();
    v.push(id.to_owned());
    let ghost mut pais: Seq<int> = seq![0int];
    proof {
        assert(ancestral(d@, idv, 0) == Some(idv));
    }
    let mut indice: usize = 0;
    while indice < v.len()
        invariant
            idv == id@,
            chaves_unicas(d@),
            chaves_sao_ids(d@),
            cadeia_termina(d@, idv),
            tem_chave(d@, idv),
            v@.len() >= 1,
            v@[0]@ == idv,
            indice <= v@.len(),
            textos(v@).no_duplicates(),
            forall|j: int| 0 <= j < v@.len() ==> #[trigger] tem_chave(d@, textos(v@)[j]),
            forall|j: int| 0 <= j < v@.len() ==> eh_descendente(d@, #[trigger] textos(v@)[j], idv),
            pais.len() == v@.len(),
            forall|j: int| 1 <= j < v@.len() ==> 0 <= #[trigger] pais[j] < indice && pais[j] < j
                && pai_de(d@, textos(v@)[j]) == Some(textos(v@)[pais[j]]),
            forall|a: int, b: int| 1 <= a < b < v@.len() ==> #[trigger] pais[a] < #[trigger] pais[b]
                || (pais[a] == pais[b] && posicao_no_documento(d@, textos(v@)[a]) < posicao_no_documento(d@, textos(v@)[b])),
            forall|t: int, c: int| 0 <= t < indice && 0 <= c < d@.len()
                && vista_opt(d@[c].parent_id) == Some(#[trigger] textos(v@)[t]) ==> textos(v@).contains(#[trigger] d@[c].chave@),
        decreases d@.len() - indice,
    {
        proof {
            lema_pombos(textos(v@), d@);
        }
        let pai = v[indice].clone();
        let mut c: usize = 0;
        let ghost inicio_rodada = v@.len();
        while c < d.len()
            invariant
                idv == id@,
                chaves_unicas(d@),
                chaves_sao_ids(d@),
                cadeia_termina(d@, idv),
                tem_chave(d@, idv),
                indice < inicio_rodada <= v@.len(),
                pai@ == textos(v@)[indice as int],
                v@.len() >= 1,
                v@[0]@ == idv,
                c <= d@.len(),
                textos(v@).no_duplicates(),
                forall|j: int| 0 <= j < v@.len() ==> #[trigger] tem_chave(d@, textos(v@)[j]),
                forall|j: int| 0 <= j < v@.len() ==> eh_descendente(d@, #[trigger] textos(v@)[j], idv),
                pais.len() == v@.len(),
                forall|j: int| 1 <= j < inicio_rodada ==> 0 <= #[trigger] pais[j] < indice && pais[j] < j
                    && pai_de(d@, textos(v@)[j]) == Some(textos(v@)[pais[j]]),
                forall|j: int| inicio_rodada <= j < v@.len() ==> #[trigger] pais[j] == indice,
                forall|j: int| inicio_rodada <= j < v@.len() ==> pai_de(d@, #[trigger] textos(v@)[j]) == Some(pai@)
                    && 0 <= posicao_no_documento(d@, textos(v@)[j]) < c
                    && d@[posicao_no_documento(d@, textos(v@)[j])].chave@ == textos(v@)[j],
                forall|a: int, b: int| 1 <= a < b < v@.len() ==> #[trigger] pais[a] < #[trigger] pais[b]
                    || (pais[a] == pais[b] && posicao_no_documento(d@, textos(v@)[a]) < posicao_no_documento(d@, textos(v@)[b])),
                forall|t: int, cc: int| 0 <= t < indice && 0 <= cc < d@.len()
                    && vista_opt(d@[cc].parent_id) == Some(#[trigger] textos(v@)[t]) ==> textos(v@).contains(#[trigger] d@[cc].chave@),
                forall|cc: int| 0 <= cc < c && vista_opt(d@[cc].parent_id) == Some(pai@) ==> textos(v@).contains(#[trigger] d@[cc].chave@),
            decreases d@.len() - c,
        {
            let eh_filho = match &d[c].parent_id {
                Some(q) => iguais(q.as_str(), pai.as_str()),
                None => false,
            };
            if eh_filho {
                let novo = d[c].id.clone();
                proof {
                    let t = textos(v@);
                    let x = d@[c as int].chave@;
                    assert(d@[c as int].chave@ == d@[c as int].id@);
                    assert(novo@ == x);
                    lema_pai_do_no(d@, c as int);
                    lema_posicao_do_no(d@, c as int);
                    assert(pai_de(d@, x) == Some(pai@));
                    // o filho ainda não está na lista
                    if t.contains(x) {
                        let j = choose|j: int| 0 <= j < t.len() && t[j] == x;
                        if j == 0 {
                            // o próprio id teria o pai como descendente: ciclo
                            assert(eh_descendente(d@, pai@, idv));
                            let k = choose|k: nat| #[trigger] ancestral(d@, pai@, k) == Some(idv);
                            lema_ancestral_desloca(d@, idv, k + 1);
                            assert(ancestral(d@, idv, k + 1) == Some(idv));
                            assert(ancestral(d@, idv, 0) == Some(idv));
                            assert(cadeia_repete(d@, idv));
                            lema_termina_ou_repete(d@, idv);
                        } else if j < inicio_rodada {
                            assert(pais[j] < indice);
                            assert(t[pais[j]] == t[indice as int]);
                        } else {
                            assert(pais[j] == indice);
                            assert(posicao_no_documento(d@, t[j]) < c);
                        }
                    }
                    // e descende de id
                    let k = choose|k: nat| #[trigger] ancestral(d@, pai@, k) == Some(idv);
                    lema_ancestral_desloca(d@, x, k + 1);
                    assert(ancestral(d@, x, k + 1) == Some(idv));
                }
                let ghost antes = textos(v@);
                let ghost pais_antes = pais;
                v.push(novo);
                proof {
                    pais = pais.push(indice as int);
                    let t = textos(v@);
                    let x = d@[c as int].chave@;
                    assert(t =~= antes.push(x));
                    assert(t[t.len() - 1] == x);
                    assert forall|j: int| 0 <= j < t.len() - 1 implies t[j] == antes[j] by {}
                    assert forall|j: int| 0 <= j < pais.len() - 1 implies pais[j] == pais_antes[j] by {}
                    assert(posicao_no_documento(d@, x) == c);
                    assert forall|j: int| inicio_rodada <= j < v@.len() implies #[trigger] pais[j] == indice by {
                        if j < v@.len() - 1 {
                            assert(pais_antes[j] == indice);
                        }
                    }
                    assert forall|j: int| inicio_rodada <= j < v@.len() implies pai_de(d@, #[trigger] t[j]) == Some(pai@)
                        && 0 <= posicao_no_documento(d@, t[j]) <= c
                        && d@[posicao_no_documento(d@, t[j])].chave@ == t[j] by {
                        if j < v@.len() - 1 {
                            assert(t[j] == antes[j]);
                        }
                    }
                    assert forall|a: int, b: int| 1 <= a < b < v@.len() implies #[trigger] pais[a] < #[trigger] pais[b]
                        || (pais[a] == pais[b] && posicao_no_documento(d@, t[a]) < posicao_no_documento(d@, t[b])) by {
                        if b == v@.len() - 1 {
                            if a >= inicio_rodada {
                                assert(pais_antes[a] == indice);
                                assert(posicao_no_documento(d@, antes[a]) < c);
                            } else {
                                assert(pais_antes[a] < indice);
                            }
                        } else {
                            assert(pais_antes[a] < pais_antes[b]
                                || (pais_antes[a] == pais_antes[b]
                                    && posicao_no_documento(d@, antes[a]) < posicao_no_documento(d@, antes[b])));
                        }
                    }
                }
            }
            c = c + 1;
        }
        indice = indice + 1;
    }
    proof {
        let t = textos(v@);
        assert forall|x: Seq<char>| #[trigger] t.contains(x) <==> (tem_chave(d@, x) && eh_descendente(d@, x, idv)) by {
            if tem_chave(d@, x) && eh_descendente(d@, x, idv) {
                let k = choose|k: nat| #[trigger] ancestral(d@, x, k) == Some(idv);
                lema_completo(d@, v@, x, idv, k);
            }
        }
        assert(em_largura(d@, t, pais));
    }
    Ok(v)
}

proof fn lema_completo(d: Seq<NoCad>, v: Seq<String>, x: Seq<char>, id: Seq<char>, k: nat)
    requires
        chaves_unicas(d),
        tem_chave(d, id),
        v.len() >= 1,
        v[0]@ == id,
        tem_chave(d, x),
        ancestral(d, x, k) == Some(id),
        forall|t: int, c: int| 0 <= t < v.len() && 0 <= c < d.len()
            && vista_opt(d[c].parent_id) == Some(#[trigger] textos(v)[t]) ==> textos(v).contains(#[trigger] d[c].chave@),
    ensures
        textos(v).contains(x),
    decreases k,
{
    let t = textos(v);
    if k == 0 {
        assert(t[0] == id);
    } else {
        lema_ancestral_desloca(d, x, k);
        let i = choose|i: int| 0 <= i < d.len() && #[trigger] d[i].chave@ == x;
        lema_pai_do_no(d, i);
        let y = pai_de(d, x).unwrap();
        if !tem_chave(d, y) {
            // um pai que não está no documento não tem pai: a cadeia acabaria nele
            if k > 1 {
                lema_ancestral_desloca(d, y, (k - 1) as nat);
                lema_posicao(d, y, 0);
                assert(pai_de(d, y) is None);
            }
            assert(false);
        }
        lema_completo(d, v, y, id, (k - 1) as nat);
        let j = choose|j: int| 0 <= j < t.len() && t[j] == y;
        assert(vista_opt(d[i].parent_id) == Some(t[j]));
    }
}


/// `k` está entre os textos de `v`.
fn esta_entre(v: &[String], k: &str) -> (b: bool)
    ensures
        b == textos(v@).contains(k@),
{
    let mut j: usize = 0;
    while j < v.len()
        invariant
            j <= v.len(),
            forall|t: int| 0 <= t < j ==> textos(v@)[t] != k@,
        decreases v.len() - j,
    {
        if iguais(v[j].as_str(), k) {
            assert(textos(v@)[j as int] == k@);
            return true;
        }
        j = j + 1;
    }
    false
}

/// O nó fica no documento: sua chave não está entre as apagadas.
pub open spec fn no_fica(apagados: Seq<Seq<char>>) -> spec_fn(NoCad) -> bool {
    |n: NoCad| !apagados.contains(n.chave@)
}

/// A raiz fica na lista: não está entre as apagadas.
pub open spec fn raiz_fica(apagados: Seq<Seq<char>>) -> spec_fn(String) -> bool {
    |r: String| !apagados.contains(r@)
}

/// Cópia de um tipo de nó.
fn copiar_tipo(k: &CadNodeKind) -> (r: CadNodeKind)
    ensures
        r == *k,
{
    match k {
        CadNodeKind::Site => CadNodeKind::Site,
        CadNodeKind::SiteBoundary => CadNodeKind::SiteBoundary,
        CadNodeKind::Building => CadNodeKind::Building,
        CadNodeKind::Level => CadNodeKind::Level,
        CadNodeKind::Wall => CadNodeKind::Wall,
        CadNodeKind::Door => CadNodeKind::Door,
        CadNodeKind::Window => CadNodeKind::Window,
        CadNodeKind::Opening => CadNodeKind::Opening,
        CadNodeKind::Zone => CadNodeKind::Zone,
        CadNodeKind::Slab => CadNodeKind::Slab,
        CadNodeKind::Ceiling => CadNodeKind::Ceiling,
        CadNodeKind::Roof => CadNodeKind::Roof,
        CadNodeKind::RoofSegment => CadNodeKind::RoofSegment,
        CadNodeKind::Stair => CadNodeKind::Stair,
        CadNodeKind::StairSegment => CadNodeKind::StairSegment,
        CadNodeKind::Item => CadNodeKind::Item,
        CadNodeKind::Fence => CadNodeKind::Fence,
        CadNodeKind::Column => CadNodeKind::Column,
        CadNodeKind::Elevator => CadNodeKind::Elevator,
        CadNodeKind::StructuralGrid => CadNodeKind::StructuralGrid,
        CadNodeKind::Measurement => CadNodeKind::Measurement,
        CadNodeKind::Terrain => CadNodeKind::Terrain,
        CadNodeKind::Extension(s) => CadNodeKind::Extension(s.clone()),
    }
}

/// Cópia de um nó.
fn copiar_no(n: &NoCad) -> (r: NoCad)
    ensures
        r == *n,
{
    let parent_id = match &n.parent_id {
        Some(p) => Some(p.clone()),
        None => None,
    };
    NoCad { chave: n.chave.clone(), id: n.id.clone(), kind: copiar_tipo(&n.kind), parent_id }
}

/// Os nós do documento cujas chaves não estão em `apagados`, na mesma ordem.
pub fn nos_que_ficam(d: &[NoCad], apagados: &[String]) -> (r: Vec<NoCad>)
    ensures
        r@ == d@.filter(no_fica(textos(apagados@))),
{
    let ghost p = no_fica(textos(apagados@));
    let mut r: Vec<NoCad> = Vec::new();
    let mut i: usize = 0;
    proof {
        assert(d@.subrange(0, 0).filter(p) =~= Seq::<NoCad>::empty()) by {
            reveal(Seq::filter);
        }
    }
    while i < d.len()
        invariant
            p == no_fica(textos(apagados@)),
            i <= d@.len(),
            r@ == d@.subrange(0, i as int).filter(p),
        decreases d.len() - i,
    {
        proof {
            assert(d@.subrange(0, i + 1) =~= d@.subrange(0, i as int).push(d@[i as int]));
            d@.subrange(0, i as int).lemma_filter_push(d@[i as int], p);
        }
        if !esta_entre(apagados, d[i].chave.as_str()) {
            r.push(copiar_no(&d[i]));
        }
        i = i + 1;
    }
    assert(d@.subrange(0, d@.len() as int) =~= d@);
    r
}

/// As raízes que não estão em `apagados`, na mesma ordem.
pub fn raizes_que_ficam(raizes: &[String], apagados: &[String]) -> (r: Vec<String>)
    ensures
        r@ == raizes@.filter(raiz_fica(textos(apagados@))),
{
    let ghost p = raiz_fica(textos(apagados@));
    let mut r: Vec<String> = Vec::new();
    let mut i: usize = 0;
    proof {
        assert(raizes@.subrange(0, 0).filter(p) =~= Seq::<String>::empty()) by {
            reveal(Seq::filter);
        }
    }
    while i < raizes.len()
        invariant
            p == raiz_fica(textos(apagados@)),
            i <= raizes@.len(),
            r@ == raizes@.subrange(0, i as int).filter(p),
        decreases raizes.len() - i,
    {
        proof {
            assert(raizes@.subrange(0, i + 1) =~= raizes@.subrange(0, i as int).push(raizes@[i as int]));
            raizes@.subrange(0, i as int).lemma_filter_push(raizes@[i as int], p);
        }
        if !esta_entre(apagados, raizes[i].as_str()) {
            r.push(raizes[i].clone());
        }
        i = i + 1;
    }
    assert(raizes@.subrange(0, raizes@.len() as int) =~= raizes@);
    r
}

/// Revisão seguinte, saturando no máximo.
pub open spec fn revisao_seguinte(r: u64) -> u64 {
    if r < u64::MAX { (r + 1) as u64 } else { r }
}

/// As chaves `v` são as que uma exclusão em cascata de `id` apaga de `d`: começam
/// por `id`, não se repetem, são exatamente `id` e seus descendentes, e vêm em
/// ordem de largura.
pub open spec fn apagados_da_cascata(d: Seq<NoCad>, id: Seq<char>, v: Seq<String>) -> bool {
    &&& v.len() >= 1 && v[0]@ == id && textos(v).no_duplicates()
    &&& forall|x: Seq<char>| #[trigger] textos(v).contains(x) <==> (tem_chave(d, x) && eh_descendente(d, x, id))
    &&& exists|pais: Seq<int>| em_largura(d, textos(v), pais)
}

/// Ids dos nós de `d` cujo pai declarado é `p`, na ordem de `d`.
pub open spec fn filhos_de(d: Seq<NoCad>, p: Seq<char>) -> Seq<Seq<char>>
    decreases d.len(),
{
    if d.len() == 0 {
        Seq::empty()
    } else {
        let r = filhos_de(d.drop_last(), p);
        if vista_opt(d.last().parent_id) == Some(p) { r.push(d.last().id@) } else { r }
    }
}

/// A lista da busca em largura pelos ids, a partir de `id`, depois de examinar
/// `n` elementos: cada elemento examinado acrescenta os ids dos nós que o têm
/// como pai.
pub open spec fn busca_em_largura(d: Seq<NoCad>, id: Seq<char>, n: nat) -> Seq<Seq<char>>
    decreases n,
{
    if n == 0 {
        seq![id]
    } else {
        let l = busca_em_largura(d, id, (n - 1) as nat);
        if n - 1 < l.len() { l + filhos_de(d, l[n - 1]) } else { l }
    }
}

/// A busca em largura pelos ids chega ao fim: em algum momento todos os
/// elementos da lista foram examinados.
pub open spec fn busca_termina(d: Seq<NoCad>, id: Seq<char>) -> bool {
    exists|n: nat| #[trigger] busca_em_largura(d, id, n).len() == n
}

/// A lista final da busca em largura pelos ids.
pub open spec fn lista_da_busca(d: Seq<NoCad>, id: Seq<char>) -> Seq<Seq<char>> {
    busca_em_largura(d, id, choose|n: nat| #[trigger] busca_em_largura(d, id, n).len() == n)
}

proof fn lema_busca_parada(d: Seq<NoCad>, id: Seq<char>, n: nat, m: nat)
    requires
        busca_em_largura(d, id, n).len() == n,
        n <= m,
    ensures
        busca_em_largura(d, id, m) == busca_em_largura(d, id, n),
    decreases m,
{
    if m > n {
        lema_busca_parada(d, id, n, (m - 1) as nat);
    }
}

proof fn lema_busca_final(d: Seq<NoCad>, id: Seq<char>, n: nat)
    requires
        busca_em_largura(d, id, n).len() == n,
    ensures
        lista_da_busca(d, id) == busca_em_largura(d, id, n),
{
    let m = choose|m: nat| #[trigger] busca_em_largura(d, id, m).len() == m;
    if m <= n {
        lema_busca_parada(d, id, m, n);
    } else {
        lema_busca_parada(d, id, n, m);
    }
}

/// A busca em largura da exclusão em cascata, pelos ids: começa em `id` e
/// acrescenta, para cada elemento da lista, os ids dos nós cujo pai é ele.
pub fn busca_por_ids(d: &[NoCad], id: &str) -> (r: Vec<String>)
    requires
        busca_termina(d@, id@),
    ensures
        textos(r@) == lista_da_busca(d@, id@),
{
    let ghost n = choose|n: nat| #[trigger] busca_em_largura(d@, id@, n).len() == n;
    let mut v: Vec<String> = Vec::new();
    v.push(id.to_owned());
    assert(textos(v@) =~= busca_em_largura(d@, id@, 0));
    let mut indice: usize = 0;
    while indice < v.len()
        invariant
            busca_em_largura(d@, id@, n).len() == n,
            indice <= n,
            indice <= v@.len(),
            textos(v@) == busca_em_largura(d@, id@, indice as nat),
        decreases n - indice,
    {
        proof {
            if indice >= n {
                lema_busca_parada(d@, id@, n, indice as nat);
                assert(false);
            }
        }
        let ghost l = textos(v@);
        let pai = v[indice].clone();
        assert(pai@ == l[indice as int]);
        let mut c: usize = 0;
        while c < d.len()
            invariant
                c <= d@.len(),
                indice < l.len(),
                pai@ == l[indice as int],
                textos(v@) == l + filhos_de(d@.take(c as int), pai@),
            decreases d.len() - c,
        {
            let ghost antes = v@;
            assert(d@.take(c + 1).drop_last() =~= d@.take(c as int));
            assert(d@.take(c + 1).last() == d@[c as int]);
            let eh_filho = match &d[c].parent_id {
                Some(q) => iguais(q.as_str(), pai.as_str()),
                None => false,
            };
            if eh_filho {
                v.push(d[c].id.clone());
                assert(textos(v@) =~= textos(antes).push(d@[c as int].id@));
            }
            assert(textos(v@) =~= l + filhos_de(d@.take(c + 1), pai@));
            c = c + 1;
        }
        assert(d@.take(d@.len() as int) =~= d@);
        indice = indice + 1;
    }
    proof {
        lema_busca_final(d@, id@, indice as nat);
    }
    v
}

/// Todas as chaves do documento são os próprios ids.
fn chaves_sao_os_ids(d: &[NoCad]) -> (r: bool)
    ensures
        r == chaves_sao_ids(d@),
{
    let mut i: usize = 0;
    while i < d.len()
        invariant
            i <= d.len(),
            forall|t: int| 0 <= t < i ==> #[trigger] d@[t].chave@ == d@[t].id@,
        decreases d.len() - i,
    {
        if !iguais(d[i].chave.as_str(), d[i].id.as_str()) {
            return false;
        }
        i = i + 1;
    }
    true
}

/// Exclusão em cascata sobre a cópia de trabalho de um documento: apaga `id` e
/// todos os nós que a busca em largura pelos ids encontra abaixo dele, tira das
/// raízes as apagadas, valida a estrutura do documento resultante e, se ela está
/// bem, efetiva a exclusão e avança a revisão. Devolve as chaves apagadas,
/// começando por `id`. Em qualquer recusa nada muda. Quando cada chave é o
/// próprio id e a cadeia de ancestrais de `id` não tem ciclo, as apagadas são
/// exatamente `id` e seus descendentes, em ordem de largura.
pub fn excluir_em_cascata(
    cabecalho: &CabecalhoCad,
    nos: &mut Vec<NoCad>,
    raizes: &mut Vec<String>,
    revisao: &mut u64,
    id: &str,
) -> (r: Result<Vec<String>, CadError>)
    requires
        chaves_unicas(old(nos)@),
        (chaves_sao_ids(old(nos)@) && cadeia_termina(old(nos)@, id@)) || busca_termina(old(nos)@, id@),
    ensures
        !tem_chave(old(nos)@, id@) ==> (r matches Err(CadError::NodeNotFound(s)) && s@ == id@),
        tem_chave(old(nos)@, id@) ==> exists|v: Seq<String>| {
            &&& (chaves_sao_ids(old(nos)@) && cadeia_termina(old(nos)@, id@) ==> apagados_da_cascata(old(nos)@, id@, v))
            &&& (!(chaves_sao_ids(old(nos)@) && cadeia_termina(old(nos)@, id@))
                ==> textos(v) == lista_da_busca(old(nos)@, id@))
            &&& (r is Ok <==> estrutura_valida(*cabecalho, old(nos)@.filter(no_fica(textos(v))),
                old(raizes)@.filter(raiz_fica(textos(v)))))
            &&& (r matches Err(e) ==> erro_da_estrutura(*cabecalho, old(nos)@.filter(no_fica(textos(v))),
                old(raizes)@.filter(raiz_fica(textos(v))), e))
            &&& (r matches Ok(w) ==> w@ == v
                && final(nos)@ == old(nos)@.filter(no_fica(textos(v)))
                && final(raizes)@ == old(raizes)@.filter(raiz_fica(textos(v))))
        },
        r is Err ==> final(nos)@ == old(nos)@ && final(raizes)@ == old(raizes)@ && *final(revisao) == *old(revisao),
        r is Ok ==> *final(revisao) == revisao_seguinte(*old(revisao)),
        estrutura_valida(*cabecalho, old(nos)@, old(raizes)@) && tem_chave(old(nos)@, id@) ==> r is Ok,
{
    if busca(nos.as_slice(), id).is_none() {
        return Err(CadError::NodeNotFound(id.to_owned()));
    }
    let pelas_chaves = chaves_sao_os_ids(nos.as_slice()) && validar_ancestralidade(nos.as_slice(), id).is_ok();
    proof {
        if estrutura_valida(*cabecalho, nos@, raizes@) {
            let i = choose|i: int| 0 <= i < nos@.len() && #[trigger] nos@[i].chave@ == id@;
            assert(no_valido(nos@, i));
            assert forall|t: int| 0 <= t < nos@.len() implies #[trigger] nos@[t].chave@ == nos@[t].id@ by {
                assert(no_valido(nos@, t));
            }
            assert(cadeia_termina(nos@, id@));
        }
    }
    let apagados = if pelas_chaves {
        match descendentes(nos.as_slice(), id) {
            Ok(v) => v,
            Err(e) => {
                return Err(e);
            },
        }
    } else {
        busca_por_ids(nos.as_slice(), id)
    };
    let ghost v = apagados@;
    assert(pelas_chaves <==> (chaves_sao_ids(nos@) && cadeia_termina(nos@, id@)));
    assert(pelas_chaves ==> apagados_da_cascata(nos@, id@, v));
    let ficam = nos_que_ficam(nos.as_slice(), apagados.as_slice());
    let raizes_ficam = raizes_que_ficam(raizes.as_slice(), apagados.as_slice());
    proof {
        if estrutura_valida(*cabecalho, nos@, raizes@) {
            lei_cascata_mantem_o_documento_valido(*cabecalho, nos@, raizes@, apagados@, id@);
        }
    }
    match validar_estrutura(cabecalho, ficam.as_slice(), raizes_ficam.as_slice()) {
        Err(e) => {
            assert(erro_da_estrutura(*cabecalho, nos@.filter(no_fica(textos(v))),
                raizes@.filter(raiz_fica(textos(v))), e));
            return Err(e);
        },
        Ok(()) => {},
    }
    *nos = ficam;
    *raizes = raizes_ficam;
    *revisao = revisao.saturating_add(1);
    Ok(apagados)
}

/// Uma exclusão em cascata não deixa órfãos nem desfaz o acordo das raízes: em
/// um documento consistente, depois de tirar `id` e todos os seus descendentes,
/// todo nó que ficou tem a chave do próprio id e um pai que também ficou, e as
/// raízes declaradas que ficaram são exatamente os nós sem pai que ficaram.
pub proof fn lei_cascata_mantem_o_documento_consistente(
    d: Seq<NoCad>,
    raizes: Seq<String>,
    apagados: Seq<String>,
    id: Seq<char>,
)
    requires
        chaves_unicas(d),
        forall|t: int| 0 <= t < d.len() ==> no_consistente(d, t),
        raizes_reais(d) == raizes_declaradas(raizes),
        forall|x: Seq<char>| #[trigger] textos(apagados).contains(x)
            <==> (tem_chave(d, x) && eh_descendente(d, x, id)),
    ensures
        forall|t: int| 0 <= t < d.filter(no_fica(textos(apagados))).len()
            ==> no_consistente(#[trigger] d.filter(no_fica(textos(apagados))), t),
        raizes_reais(d.filter(no_fica(textos(apagados))))
            == raizes_declaradas(raizes.filter(raiz_fica(textos(apagados)))),
{
    let a = textos(apagados);
    let p = no_fica(a);
    let q = raiz_fica(a);
    let f = d.filter(p);
    let g = raizes.filter(q);
    broadcast use Seq::lemma_filter_pred, Seq::lemma_filter_contains, Seq::lemma_filter_contains_rev;
    assert forall|t: int| 0 <= t < f.len() implies no_consistente(f, t) by {
        assert(p(f[t]));
        assert(f.contains(f[t]));
        let i = choose|i: int| 0 <= i < d.len() && d[i] == f[t];
        assert(no_consistente(d, i));
        if let Some(pai) = f[t].parent_id {
            let pv = pai@;
            assert(tem_chave(d, pv));
            let j = choose|j: int| 0 <= j < d.len() && #[trigger] d[j].chave@ == pv;
            if a.contains(pv) {
                // o pai foi apagado, logo descende de id, e o filho também
                let k = choose|k: nat| #[trigger] ancestral(d, pv, k) == Some(id);
                lema_pai_do_no(d, i);
                lema_ancestral_desloca(d, d[i].chave@, k + 1);
                assert(ancestral(d, d[i].chave@, k + 1) == Some(id));
                assert(eh_descendente(d, d[i].chave@, id));
                assert(tem_chave(d, d[i].chave@));
                assert(a.contains(d[i].chave@));
                assert(false);
            }
            assert(p(d[j]));
            assert(f.contains(d[j]));
            let jj = choose|jj: int| 0 <= jj < f.len() && f[jj] == d[j];
            assert(f[jj].chave@ == pv);
        }
    }
    assert forall|k: Seq<char>| raizes_reais(f).contains(k) <==> raizes_declaradas(g).contains(k) by {
        if raizes_reais(f).contains(k) {
            let t = choose|t: int| 0 <= t < f.len() && #[trigger] f[t].chave@ == k && f[t].parent_id is None;
            assert(p(f[t]));
            assert(f.contains(f[t]));
            let i = choose|i: int| 0 <= i < d.len() && d[i] == f[t];
            assert(raizes_reais(d).contains(d[i].chave@));
            assert(raizes_declaradas(raizes).contains(k));
            let j = choose|j: int| 0 <= j < raizes.len() && #[trigger] raizes[j]@ == k;
            assert(q(raizes[j]));
            assert(g.contains(raizes[j]));
            let jj = choose|jj: int| 0 <= jj < g.len() && g[jj] == raizes[j];
            assert(g[jj]@ == k);
        }
        if raizes_declaradas(g).contains(k) {
            let jj = choose|jj: int| 0 <= jj < g.len() && #[trigger] g[jj]@ == k;
            assert(q(g[jj]));
            assert(g.contains(g[jj]));
            let j = choose|j: int| 0 <= j < raizes.len() && raizes[j] == g[jj];
            assert(raizes_declaradas(raizes).contains(raizes[j]@));
            assert(raizes_reais(d).contains(k));
            let i = choose|i: int| 0 <= i < d.len() && #[trigger] d[i].chave@ == k && d[i].parent_id is None;
            assert(p(d[i]));
            assert(f.contains(d[i]));
            let t = choose|t: int| 0 <= t < f.len() && f[t] == d[i];
            assert(f[t].chave@ == k && f[t].parent_id is None);
        }
    }
    assert(raizes_reais(f) =~= raizes_declaradas(g));
}

proof fn lema_ancestral_compoe(d: Seq<NoCad>, x: Seq<char>, y: Seq<char>, k: nat, m: nat)
    requires
        ancestral(d, x, k) == Some(y),
    ensures
        ancestral(d, x, k + m) == ancestral(d, y, m),
    decreases m,
{
    if m > 0 {
        lema_ancestral_compoe(d, x, y, k, (m - 1) as nat);
        assert(ancestral(d, x, k + m) == match ancestral(d, x, (k + m - 1) as nat) {
            Some(z) => pai_de(d, z),
            None => None,
        });
    }
}

proof fn lema_pai_filtrado(d: Seq<NoCad>, a: Seq<Seq<char>>, y: Seq<char>)
    requires
        chaves_unicas(d),
        !a.contains(y),
    ensures
        pai_de(d.filter(no_fica(a)), y) == pai_de(d, y),
{
    let p = no_fica(a);
    let f = d.filter(p);
    broadcast use Seq::lemma_filter_pred, Seq::lemma_filter_contains, Seq::lemma_filter_contains_rev;
    lema_posicao(d, y, 0);
    lema_posicao(f, y, 0);
    match posicao_da_chave(d, y, 0) {
        Some(j) => {
            assert(p(d[j]));
            assert(f.contains(d[j]));
            let t0 = choose|t0: int| 0 <= t0 < f.len() && f[t0] == d[j];
            assert(f[t0].chave@ == y);
            let t = posicao_da_chave(f, y, 0).unwrap();
            assert(f.contains(f[t]));
            let i = choose|i: int| 0 <= i < d.len() && d[i] == f[t];
            assert(d[i].chave@ == y);
            assert(i == j);
        },
        None => {
            if let Some(t) = posicao_da_chave(f, y, 0) {
                assert(f.contains(f[t]));
                let i = choose|i: int| 0 <= i < d.len() && d[i] == f[t];
                assert(d[i].chave@ == y);
                assert(false);
            }
        },
    }
}

proof fn lema_ancestral_filtrado(d: Seq<NoCad>, a: Seq<Seq<char>>, id: Seq<char>, x: Seq<char>, k: nat)
    requires
        chaves_unicas(d),
        forall|z: Seq<char>| #[trigger] a.contains(z) <==> (tem_chave(d, z) && eh_descendente(d, z, id)),
        tem_chave(d, x),
        !a.contains(x),
    ensures
        ancestral(d.filter(no_fica(a)), x, k) == ancestral(d, x, k),
    decreases k,
{
    if k > 0 {
        let f = d.filter(no_fica(a));
        lema_ancestral_filtrado(d, a, id, x, (k - 1) as nat);
        if let Some(y) = ancestral(d, x, (k - 1) as nat) {
            if a.contains(y) {
                let m = choose|m: nat| #[trigger] ancestral(d, y, m) == Some(id);
                lema_ancestral_compoe(d, x, y, (k - 1) as nat, m);
                assert(ancestral(d, x, (k - 1 + m) as nat) == Some(id));
                assert(eh_descendente(d, x, id));
                assert(false);
            }
            lema_pai_filtrado(d, a, y);
        }
    }
}

/// Uma exclusão em cascata guarda a validade estrutural: se o documento era
/// válido, o que fica depois de tirar `id` e todos os seus descendentes (e as
/// raízes apagadas) também é — chaves, pais, raízes e cadeias sem ciclo.
pub proof fn lei_cascata_mantem_o_documento_valido(
    c: CabecalhoCad,
    d: Seq<NoCad>,
    raizes: Seq<String>,
    apagados: Seq<String>,
    id: Seq<char>,
)
    requires
        chaves_unicas(d),
        estrutura_valida(c, d, raizes),
        forall|x: Seq<char>| #[trigger] textos(apagados).contains(x)
            <==> (tem_chave(d, x) && eh_descendente(d, x, id)),
    ensures
        estrutura_valida(c, d.filter(no_fica(textos(apagados))), raizes.filter(raiz_fica(textos(apagados)))),
{
    let a = textos(apagados);
    let p = no_fica(a);
    let f = d.filter(p);
    let g = raizes.filter(raiz_fica(a));
    assert forall|t: int| 0 <= t < d.len() implies no_consistente(d, t) by {
        assert(no_valido(d, t));
    }
    lei_cascata_mantem_o_documento_consistente(d, raizes, apagados, id);
    broadcast use Seq::lemma_filter_pred, Seq::lemma_filter_contains, Seq::lemma_filter_contains_rev;
    assert forall|t: int| 0 <= t < f.len() implies #[trigger] no_valido(f, t) by {
        assert(no_consistente(f, t));
        assert(p(f[t]));
        assert(f.contains(f[t]));
        let i = choose|i: int| 0 <= i < d.len() && d[i] == f[t];
        assert(no_valido(d, i));
        let x = d[i].id@;
        assert(d[i].chave@ == x);
        assert(tem_chave(d, x));
        let m = choose|m: nat| #[trigger] ancestral(d, x, m) is None && elos_distintos(d, x, m);
        lema_ancestral_filtrado(d, a, id, x, m);
        assert forall|j: nat, k: nat| j < k < m implies #[trigger] ancestral(f, x, j) != #[trigger] ancestral(f, x, k) by {
            lema_ancestral_filtrado(d, a, id, x, j);
            lema_ancestral_filtrado(d, a, id, x, k);
        }
        assert(ancestral(f, x, m) is None && elos_distintos(f, x, m));
    }
}

/// Raízes depois de inserir um nó: a raiz nova entra no fim se o nó não tem pai.
pub open spec fn raizes_apos(r: Seq<String>, parent_id: Option<String>, raiz: String) -> Seq<String> {
    if parent_id is None { r.push(raiz) } else { r }
}

/// A inserção é aceita antes da validação: o id é novo e o pai, se declarado, existe.
pub open spec fn insercao_aceita(d: Seq<NoCad>, id: Seq<char>, parent_id: Option<String>) -> bool {
    !tem_chave(d, id) && (parent_id matches Some(p) ==> tem_chave(d, p@))
}

/// Inserção sobre a cópia de trabalho de um documento: recusa um id que já existe
/// e um pai que não existe; senão acrescenta o nó sob a chave do próprio id,
/// registra-o entre as raízes se não tem pai, valida a estrutura do documento
/// resultante e, se ela está bem, avança a revisão. Em qualquer recusa nada muda.
pub fn inserir(
    cabecalho: &CabecalhoCad,
    nos: &mut Vec<NoCad>,
    raizes: &mut Vec<String>,
    revisao: &mut u64,
    id: String,
    kind: CadNodeKind,
    parent_id: Option<String>,
) -> (r: Result<(), CadError>)
    ensures
        tem_chave(old(nos)@, id@) ==> (r matches Err(CadError::DuplicateNode(s)) && s@ == id@),
        !tem_chave(old(nos)@, id@) && (parent_id matches Some(p) && !tem_chave(old(nos)@, p@))
            ==> (r matches Err(CadError::MissingParent { node, parent }) && node@ == id@
                && vista_opt(parent_id) == Some(parent@)),
        insercao_aceita(old(nos)@, id@, parent_id) ==> exists|x: NoCad, y: String| {
            &&& x.chave@ == id@ && x.id == id && x.kind == kind && x.parent_id == parent_id && y@ == id@
            &&& (r is Ok <==> estrutura_valida(*cabecalho, old(nos)@.push(x), raizes_apos(old(raizes)@, parent_id, y)))
            &&& (r matches Err(e) ==> erro_da_estrutura(*cabecalho, old(nos)@.push(x),
                raizes_apos(old(raizes)@, parent_id, y), e))
            &&& (r is Ok ==> final(nos)@ == old(nos)@.push(x)
                && final(raizes)@ == raizes_apos(old(raizes)@, parent_id, y))
        },
        r is Ok ==> insercao_aceita(old(nos)@, id@, parent_id),
        chaves_unicas(old(nos)@) && estrutura_valida(*cabecalho, old(nos)@, old(raizes)@)
            && insercao_aceita(old(nos)@, id@, parent_id) ==> r is Ok,
        r is Err ==> final(nos)@ == old(nos)@ && final(raizes)@ == old(raizes)@ && *final(revisao) == *old(revisao),
        r is Ok ==> *final(revisao) == revisao_seguinte(*old(revisao)),
{
    if busca(nos.as_slice(), id.as_str()).is_some() {
        return Err(CadError::DuplicateNode(id));
    }
    match &parent_id {
        Some(p) => {
            if busca(nos.as_slice(), p.as_str()).is_none() {
                return Err(CadError::MissingParent { node: id.clone(), parent: p.clone() });
            }
        },
        None => {},
    }
    let ghost nos_antes = nos@;
    let ghost raizes_antes = raizes@;
    let raiz = id.clone();
    let ghost y = raiz;
    let sem_pai = parent_id.is_none();
    if sem_pai {
        raizes.push(raiz);
    }
    let chave = id.clone();
    nos.push(NoCad { chave, id, kind, parent_id });
    let ghost x = nos@.last();
    proof {
        assert(nos@ =~= nos_antes.push(x));
        assert(raizes@ =~= raizes_apos(raizes_antes, parent_id, y));
        if chaves_unicas(nos_antes) && estrutura_valida(*cabecalho, nos_antes, raizes_antes) {
            assert forall|i: int| 0 <= i < nos_antes.len() implies #[trigger] cadeia_termina(nos_antes, nos_antes[i].chave@) by {
                assert(no_valido(nos_antes, i));
            }
            assert forall|t: int| 0 <= t < nos_antes.len() implies no_consistente(nos_antes, t) by {
                assert(no_valido(nos_antes, t));
            }
            lei_insercao_mantem_o_documento_valido(nos_antes, raizes_antes, x, y);
            let d2 = nos_antes.push(x);
            assert forall|i: int| 0 <= i < d2.len() implies #[trigger] no_valido(d2, i) by {
                assert(no_consistente(d2, i));
                assert(cadeia_termina(d2, d2[i].chave@));
            }
            assert(estrutura_valida(*cabecalho, d2, raizes_apos(raizes_antes, parent_id, y)));
        }
    }
    match validar_estrutura(cabecalho, nos.as_slice(), raizes.as_slice()) {
        Err(e) => {
            nos.pop();
            if sem_pai {
                raizes.pop();
            }
            proof {
                assert(nos@ =~= nos_antes);
                assert(raizes@ =~= raizes_antes);
            }
            return Err(e);
        },
        Ok(()) => {},
    }
    *revisao = revisao.saturating_add(1);
    Ok(())
}

proof fn lema_posicao_sem_o_novo(d: Seq<NoCad>, n: NoCad, x: Seq<char>, i: int)
    requires
        x != n.chave@,
        0 <= i,
    ensures
        posicao_da_chave(d.push(n), x, i) == posicao_da_chave(d, x, i),
    decreases d.len() - i,
{
    let d2 = d.push(n);
    if i < d.len() {
        assert(d2[i] == d[i]);
        if d[i].chave@ != x {
            lema_posicao_sem_o_novo(d, n, x, i + 1);
        }
    } else if i == d.len() {
        assert(d2[i] == n);
        assert(posicao_da_chave(d2, x, i + 1) is None);
    }
}

proof fn lema_pai_sem_o_novo(d: Seq<NoCad>, n: NoCad, x: Seq<char>)
    requires
        x != n.chave@,
    ensures
        pai_de(d.push(n), x) == pai_de(d, x),
{
    lema_posicao_sem_o_novo(d, n, x, 0);
    lema_posicao(d, x, 0);
    if let Some(j) = posicao_da_chave(d, x, 0) {
        assert(d.push(n)[j] == d[j]);
    }
}

proof fn lema_cadeia_sem_o_novo(d: Seq<NoCad>, n: NoCad, i: int, k: nat)
    requires
        0 <= i < d.len(),
        forall|t: int| 0 <= t < d.len() ==> no_consistente(d, t),
        !tem_chave(d, n.chave@),
    ensures
        ancestral(d.push(n), d[i].id@, k) == ancestral(d, d[i].id@, k),
    decreases k,
{
    if k > 0 {
        lema_cadeia_sem_o_novo(d, n, i, (k - 1) as nat);
        if let Some(y) = ancestral(d, d[i].id@, (k - 1) as nat) {
            lema_elos_sao_chaves(d, i, (k - 1) as nat);
            assert(y != n.chave@);
            lema_pai_sem_o_novo(d, n, y);
        }
    }
}

/// Uma inserção aceita mantém o documento estruturalmente válido: chaves únicas,
/// cada nó sob o próprio id com pai existente, nenhuma cadeia de ancestrais com
/// ciclo, e as raízes declaradas iguais às de fato.
pub proof fn lei_insercao_mantem_o_documento_valido(d: Seq<NoCad>, raizes: Seq<String>, n: NoCad, raiz: String)
    requires
        chaves_unicas(d),
        forall|t: int| 0 <= t < d.len() ==> no_consistente(d, t),
        documento_sem_ciclos(d),
        raizes_reais(d) == raizes_declaradas(raizes),
        n.chave@ == n.id@,
        raiz@ == n.id@,
        !tem_chave(d, n.chave@),
        n.parent_id matches Some(p) ==> tem_chave(d, p@),
    ensures
        chaves_unicas(d.push(n)),
        forall|t: int| 0 <= t < d.len() + 1 ==> #[trigger] no_consistente(d.push(n), t),
        documento_sem_ciclos(d.push(n)),
        raizes_reais(d.push(n)) == raizes_declaradas(if n.parent_id is None { raizes.push(raiz) } else { raizes }),
{
    let d2 = d.push(n);
    let nova = n.chave@;
    assert forall|a: int, b: int| 0 <= a < d2.len() && 0 <= b < d2.len() && a != b
        implies #[trigger] d2[a].chave@ != #[trigger] d2[b].chave@ by {
        if a == d.len() {
            assert(d2[b] == d[b]);
        } else if b == d.len() {
            assert(d2[a] == d[a]);
        } else {
            assert(d2[a] == d[a] && d2[b] == d[b]);
        }
    }
    assert forall|t: int| 0 <= t < d.len() + 1 implies #[trigger] no_consistente(d2, t) by {
        if t < d.len() {
            assert(d2[t] == d[t]);
            assert(no_consistente(d, t));
            if let Some(p) = d[t].parent_id {
                let j = choose|j: int| 0 <= j < d.len() && #[trigger] d[j].chave@ == p@;
                assert(d2[j] == d[j]);
            }
        } else {
            assert(d2[t] == n);
            if let Some(p) = n.parent_id {
                let j = choose|j: int| 0 <= j < d.len() && #[trigger] d[j].chave@ == p@;
                assert(d2[j] == d[j]);
            }
        }
    }
    assert forall|i: int| 0 <= i < d2.len() implies #[trigger] cadeia_termina(d2, d2[i].chave@) by {
        if i < d.len() {
            assert(d2[i] == d[i]);
            assert(no_consistente(d, i));
            assert(cadeia_termina(d, d[i].chave@));
            let m = choose|m: nat| #[trigger] ancestral(d, d[i].chave@, m) is None && elos_distintos(d, d[i].chave@, m);
            assert forall|k: nat| #[trigger] ancestral(d2, d[i].id@, k) == ancestral(d, d[i].id@, k) by {
                lema_cadeia_sem_o_novo(d, n, i, k);
            }
            assert(ancestral(d2, d2[i].chave@, m) is None);
            assert(elos_distintos(d2, d2[i].chave@, m));
        } else {
            assert(d2[i] == n);
            lema_posicao(d2, nova, 0);
            assert(posicao_da_chave(d2, nova, 0) == Some(d.len() as int)) by {
                let j = posicao_da_chave(d2, nova, 0).unwrap();
                if j < d.len() {
                    assert(d2[j] == d[j]);
                    assert(tem_chave(d, nova));
                }
            }
            assert(pai_de(d2, nova) == vista_opt(n.parent_id));
            assert(ancestral(d2, nova, 0) == Some(nova));
            match n.parent_id {
                None => {
                    assert(ancestral(d2, nova, 1) is None);
                    assert(elos_distintos(d2, nova, 1));
                },
                Some(p) => {
                    let jp = choose|jp: int| 0 <= jp < d.len() && #[trigger] d[jp].chave@ == p@;
                    assert(no_consistente(d, jp));
                    assert(cadeia_termina(d, d[jp].chave@));
                    let pv = d[jp].id@;
                    let m = choose|m: nat| #[trigger] ancestral(d, pv, m) is None && elos_distintos(d, pv, m);
                    assert forall|k: nat| k >= 1 implies #[trigger] ancestral(d2, nova, k) == ancestral(d, pv, (k - 1) as nat) by {
                        lema_ancestral_desloca(d2, nova, k);
                        lema_cadeia_sem_o_novo(d, n, jp, (k - 1) as nat);
                    }
                    assert(ancestral(d2, nova, m + 1) is None);
                    assert forall|j: nat, k: nat| j < k < m + 1
                        implies #[trigger] ancestral(d2, nova, j) != #[trigger] ancestral(d2, nova, k) by {
                        assert(ancestral(d2, nova, k) == ancestral(d, pv, (k - 1) as nat));
                        if j == 0 {
                            if let Some(y) = ancestral(d, pv, (k - 1) as nat) {
                                lema_elos_sao_chaves(d, jp, (k - 1) as nat);
                                assert(y != nova);
                            }
                        } else {
                            assert(ancestral(d2, nova, j) == ancestral(d, pv, (j - 1) as nat));
                            assert(ancestral(d, pv, (j - 1) as nat) != ancestral(d, pv, (k - 1) as nat));
                        }
                    }
                    assert(elos_distintos(d2, nova, m + 1));
                },
            }
        }
    }
    let r2 = if n.parent_id is None { raizes.push(raiz) } else { raizes };
    assert forall|k: Seq<char>| raizes_reais(d2).contains(k) <==> raizes_declaradas(r2).contains(k) by {
        if raizes_reais(d2).contains(k) {
            let t = choose|t: int| 0 <= t < d2.len() && #[trigger] d2[t].chave@ == k && d2[t].parent_id is None;
            if t < d.len() {
                assert(d2[t] == d[t]);
                assert(raizes_reais(d).contains(k));
                let j = choose|j: int| 0 <= j < raizes.len() && #[trigger] raizes[j]@ == k;
                assert(r2[j] == raizes[j]);
            } else {
                assert(d2[t] == n);
                assert(r2[raizes.len() as int] == raiz);
            }
        }
        if raizes_declaradas(r2).contains(k) {
            let j = choose|j: int| 0 <= j < r2.len() && #[trigger] r2[j]@ == k;
            if j < raizes.len() {
                assert(r2[j] == raizes[j]);
                assert(raizes_declaradas(raizes).contains(k));
                let t = choose|t: int| 0 <= t < d.len() && #[trigger] d[t].chave@ == k && d[t].parent_id is None;
                assert(d2[t] == d[t]);
            } else {
                assert(d2[d.len() as int] == n);
            }
        }
    }
    assert(raizes_reais(d2) =~= raizes_declaradas(r2));
}

proof fn lema_filtro_que_tudo_aceita<A>(s: Seq<A>, p: spec_fn(A) -> bool)
    requires
        forall|i: int| 0 <= i < s.len() ==> #[trigger] p(s[i]),
    ensures
        s.filter(p) == s,
    decreases s.len(),
{
    reveal(Seq::filter);
    if s.len() > 0 {
        let u = s.drop_last();
        assert forall|i: int| 0 <= i < u.len() implies #[trigger] p(u[i]) by {
            assert(u[i] == s[i]);
        }
        lema_filtro_que_tudo_aceita(u, p);
        assert(p(s.last()));
        assert(u.push(s.last()) =~= s);
    }
}

/// A exclusão em cascata de um nó recém-inserido desfaz a inserção: o nó novo
/// não tem descendentes, só ele é apagado, e os nós e as raízes voltam a ser
/// exatamente os de antes.
pub proof fn lei_excluir_desfaz_inserir(
    d: Seq<NoCad>,
    raizes: Seq<String>,
    n: NoCad,
    raiz: String,
    apagados: Seq<String>,
)
    requires
        chaves_unicas(d),
        forall|t: int| 0 <= t < d.len() ==> no_consistente(d, t),
        raizes_reais(d) == raizes_declaradas(raizes),
        n.chave@ == n.id@,
        raiz@ == n.id@,
        !tem_chave(d, n.chave@),
        n.parent_id matches Some(p) ==> tem_chave(d, p@),
        forall|x: Seq<char>| #[trigger] textos(apagados).contains(x)
            <==> (tem_chave(d.push(n), x) && eh_descendente(d.push(n), x, n.id@)),
    ensures
        forall|x: Seq<char>| #[trigger] textos(apagados).contains(x) <==> x == n.id@,
        d.push(n).filter(no_fica(textos(apagados))) == d,
        (if n.parent_id is None { raizes.push(raiz) } else { raizes }).filter(raiz_fica(textos(apagados))) == raizes,
{
    let d2 = d.push(n);
    let nova = n.chave@;
    let a = textos(apagados);
    assert(d2[d.len() as int] == n);
    assert(ancestral(d2, nova, 0) == Some(nova));
    assert(tem_chave(d2, nova));
    assert(eh_descendente(d2, nova, nova));
    assert forall|i: int| 0 <= i < d.len() implies !#[trigger] a.contains(d[i].chave@) by {
        assert(no_consistente(d, i));
        assert(d2[i] == d[i]);
        if a.contains(d[i].chave@) {
            let k = choose|k: nat| #[trigger] ancestral(d2, d[i].chave@, k) == Some(nova);
            lema_cadeia_sem_o_novo(d, n, i, k);
            lema_elos_sao_chaves(d, i, k);
            assert(false);
        }
    }
    assert forall|x: Seq<char>| #[trigger] a.contains(x) <==> x == nova by {
        if a.contains(x) && x != nova {
            let t = choose|t: int| 0 <= t < d2.len() && #[trigger] d2[t].chave@ == x;
            assert(t < d.len());
            assert(d2[t] == d[t]);
            assert(!a.contains(d[t].chave@));
        }
    }
    let p = no_fica(a);
    d.lemma_filter_push(n, p);
    assert forall|i: int| 0 <= i < d.len() implies #[trigger] p(d[i]) by {
        assert(!a.contains(d[i].chave@));
    }
    lema_filtro_que_tudo_aceita(d, p);
    let q = raiz_fica(a);
    assert forall|j: int| 0 <= j < raizes.len() implies #[trigger] q(raizes[j]) by {
        assert(raizes_declaradas(raizes).contains(raizes[j]@));
        assert(raizes_reais(d).contains(raizes[j]@));
        if raizes[j]@ == nova {
            assert(tem_chave(d, nova));
        }
    }
    lema_filtro_que_tudo_aceita(raizes, q);
    if n.parent_id is None {
        raizes.lemma_filter_push(raiz, q);
        assert(!q(raiz));
    }
}

/// Id da parede `i` de um cômodo.
pub open spec fn id_da_parede(comodo: Seq<char>, i: nat) -> Seq<char> {
    comodo + ":wall:"@ + decimal(i)
}

/// Ids que um cômodo com `n` paredes ocupa, nesta ordem: a zona (o próprio id),
/// a laje, o forro e as paredes `0..n`.
pub open spec fn ids_do_comodo_spec(comodo: Seq<char>, n: nat) -> Seq<Seq<char>> {
    seq![comodo, comodo + ":slab"@, comodo + ":ceiling"@]
        + Seq::new(n, |i: int| id_da_parede(comodo, i as nat))
}

/// Rótulos dos nós de um cômodo, na ordem dos ids: o nome, "Laje nome",
/// "Forro nome" e "Parede 1" a "Parede n".
pub open spec fn rotulos_do_comodo_spec(nome: Seq<char>, n: nat) -> Seq<Seq<char>> {
    seq![nome, "Laje "@ + nome, "Forro "@ + nome]
        + Seq::new(n, |i: int| "Parede "@ + decimal((i + 1) as nat))
}

/// Os ids que um cômodo com `n` paredes ocupa (ver [`ids_do_comodo_spec`]).
pub fn ids_do_comodo(comodo: &str, n: usize) -> (r: Vec<String>)
    ensures
        textos(r@) == ids_do_comodo_spec(comodo@, n as nat),
{
    let mut r: Vec<String> = Vec::new();
    r.push(comodo.to_owned());
    r.push(crate::texto::concatenar(comodo, ":slab"));
    r.push(crate::texto::concatenar(comodo, ":ceiling"));
    let mut i: usize = 0;
    while i < n
        invariant
            i <= n,
            r@.len() == 3 + i,
            textos(r@) == ids_do_comodo_spec(comodo@, i as nat),
        decreases n - i,
    {
        let mut v: Vec<char> = Vec::new();
        crate::texto::empurrar_texto(&mut v, comodo);
        crate::texto::empurrar_texto(&mut v, ":wall:");
        crate::texto::empurrar_decimal(i as u64, &mut v);
        let id = crate::texto::string_de(&v);
        let ghost antes = textos(r@);
        r.push(id);
        proof {
            assert(v@ =~= id_da_parede(comodo@, i as nat));
            assert(textos(r@) =~= antes.push(id_da_parede(comodo@, i as nat)));
            assert(ids_do_comodo_spec(comodo@, (i + 1) as nat) =~= ids_do_comodo_spec(comodo@, i as nat).push(
                id_da_parede(comodo@, i as nat),
            ));
        }
        i = i + 1;
    }
    r
}

/// Os rótulos dos nós de um cômodo com `n` paredes (ver [`rotulos_do_comodo_spec`]).
pub fn rotulos_do_comodo(nome: &str, n: usize) -> (r: Vec<String>)
    requires
        n < u64::MAX,
    ensures
        textos(r@) == rotulos_do_comodo_spec(nome@, n as nat),
{
    let mut r: Vec<String> = Vec::new();
    r.push(nome.to_owned());
    r.push(crate::texto::concatenar("Laje ", nome));
    r.push(crate::texto::concatenar("Forro ", nome));
    let mut i: usize = 0;
    while i < n
        invariant
            i <= n,
            n < u64::MAX,
            r@.len() == 3 + i,
            textos(r@) == rotulos_do_comodo_spec(nome@, i as nat),
        decreases n - i,
    {
        let mut v: Vec<char> = Vec::new();
        crate::texto::empurrar_texto(&mut v, "Parede ");
        crate::texto::empurrar_decimal((i as u64) + 1, &mut v);
        let rotulo = crate::texto::string_de(&v);
        let ghost antes = textos(r@);
        r.push(rotulo);
        proof {
            let esperado = "Parede "@ + decimal((i + 1) as nat);
            assert(v@ =~= esperado);
            assert(textos(r@) =~= antes.push(esperado));
            assert(rotulos_do_comodo_spec(nome@, (i + 1) as nat) =~= rotulos_do_comodo_spec(nome@, i as nat).push(
                esperado,
            ));
        }
        i = i + 1;
    }
    r
}

/// O nível que recebe um cômodo existe e é de fato um nível.
pub fn verificar_nivel(d: &[NoCad], nivel: &str) -> (r: Result<(), CadError>)
    ensures
        !tem_chave(d@, nivel@) ==> (r matches Err(CadError::NodeNotFound(s)) && s@ == nivel@),
        tem_chave(d@, nivel@) ==> (r is Ok <==> d@[posicao_da_chave(d@, nivel@, 0).unwrap()].kind is Level),
        tem_chave(d@, nivel@) && r is Err ==> (r matches Err(CadError::WrongParentKind { node_kind, expected })
            && node_kind@ == "zone"@ && expected@ == "level"@),
{
    match busca(d, nivel) {
        None => Err(CadError::NodeNotFound(nivel.to_owned())),
        Some(i) => {
            if matches!(d[i].kind, CadNodeKind::Level) {
                Ok(())
            } else {
                Err(CadError::WrongParentKind { node_kind: "zone".to_owned(), expected: "level".to_owned() })
            }
        },
    }
}

/// Os ids de um cômodo novo, recusados se algum já existe no documento: o erro
/// nomeia o primeiro que existe, na ordem de [`ids_do_comodo_spec`].
pub fn planejar_ids_do_comodo(d: &[NoCad], comodo: &str, n: usize) -> (r: Result<Vec<String>, CadError>)
    ensures
        (forall|j: int| 0 <= j < 3 + n ==> !tem_chave(d@, #[trigger] ids_do_comodo_spec(comodo@, n as nat)[j]))
            ==> (r matches Ok(v) && textos(v@) == ids_do_comodo_spec(comodo@, n as nat)),
        r is Err ==> exists|j: int| 0 <= j < 3 + n
            && tem_chave(d@, #[trigger] ids_do_comodo_spec(comodo@, n as nat)[j])
            && (forall|t: int| 0 <= t < j ==> !tem_chave(d@, #[trigger] ids_do_comodo_spec(comodo@, n as nat)[t]))
            && (r matches Err(CadError::DuplicateNode(s)) && s@ == ids_do_comodo_spec(comodo@, n as nat)[j]),
        r matches Ok(v) ==> textos(v@) == ids_do_comodo_spec(comodo@, n as nat)
            && forall|j: int| 0 <= j < 3 + n ==> !tem_chave(d@, #[trigger] ids_do_comodo_spec(comodo@, n as nat)[j]),
{
    let ids = ids_do_comodo(comodo, n);
    let ghost esperado = ids_do_comodo_spec(comodo@, n as nat);
    assert(esperado.len() == 3 + n);
    assert(textos(ids@).len() == ids@.len());
    let mut j: usize = 0;
    while j < ids.len()
        invariant
            esperado == ids_do_comodo_spec(comodo@, n as nat),
            textos(ids@) == esperado,
            ids@.len() == 3 + n,
            j <= ids.len(),
            forall|t: int| 0 <= t < j ==> !tem_chave(d@, #[trigger] esperado[t]),
        decreases ids.len() - j,
    {
        if busca(d, ids[j].as_str()).is_some() {
            let repetido = ids[j].clone();
            assert(esperado[j as int] == ids@[j as int]@);
            assert(repetido@ == esperado[j as int]);
            assert(tem_chave(d@, ids_do_comodo_spec(comodo@, n as nat)[j as int]));
            assert(forall|t: int| 0 <= t < j ==> !tem_chave(d@, #[trigger] ids_do_comodo_spec(comodo@, n as nat)[t]));
            return Err(CadError::DuplicateNode(repetido));
        }
        assert(esperado[j as int] == ids@[j as int]@);
        j = j + 1;
    }
    Ok(ids)
}

/// Cabeçalho de um documento CAD: versão do esquema, id e nome.
#[derive(Debug, Clone, PartialEq, Eq)]
pub struct CabecalhoCad {
    pub schema_version: u32,
    pub id: String,
    pub name: String,
}

/// O erro que o cabeçalho e as raízes dão, na ordem da validação; `None` se estão bem.
pub open spec fn erro_de_cabecalho(c: CabecalhoCad, d: Seq<NoCad>, raizes: Seq<String>) -> Option<CadError> {
    if c.schema_version != VERSAO_DO_ESQUEMA {
        Some(CadError::UnsupportedSchema(c.schema_version))
    } else if aparar(c.id@).len() == 0 || aparar(c.name@).len() == 0 {
        Some(CadError::RequiredField("id/name"))
    } else if raizes_reais(d) != raizes_declaradas(raizes) {
        Some(CadError::RootMismatch)
    } else {
        None
    }
}

/// O nó `i` passa nas verificações estruturais: sob a chave do próprio id, com o
/// pai presente, e com a cadeia de ancestrais sem ciclo.
pub open spec fn no_valido(d: Seq<NoCad>, i: int) -> bool {
    no_consistente(d, i) && cadeia_termina(d, d[i].id@)
}

/// `e` é o erro que o nó `i` dá: chave que não é o id, pai ausente, ou ciclo.
pub open spec fn erro_do_no(d: Seq<NoCad>, i: int, e: CadError) -> bool {
    if d[i].chave@ != d[i].id@ {
        e matches CadError::NodeKeyMismatch(s) && s@ == d[i].chave@
    } else if !no_consistente(d, i) {
        e matches CadError::MissingParent { node, parent } && node@ == d[i].id@
            && vista_opt(d[i].parent_id) == Some(parent@)
    } else {
        e matches CadError::ParentCycle(s) && s@ == d[i].id@
    }
}

/// O documento é estruturalmente válido.
pub open spec fn estrutura_valida(c: CabecalhoCad, d: Seq<NoCad>, raizes: Seq<String>) -> bool {
    erro_de_cabecalho(c, d, raizes) is None && forall|i: int| 0 <= i < d.len() ==> #[trigger] no_valido(d, i)
}

/// `e` é o erro que a validação estrutural dá: o do cabeçalho, ou o do primeiro
/// nó inválido (na ordem de `d`).
pub open spec fn erro_da_estrutura(c: CabecalhoCad, d: Seq<NoCad>, raizes: Seq<String>, e: CadError) -> bool {
    match erro_de_cabecalho(c, d, raizes) {
        Some(h) => e == h,
        None => exists|k: int| 0 <= k < d.len() && !no_valido(d, k)
            && (forall|j: int| 0 <= j < k ==> #[trigger] no_valido(d, j))
            && erro_do_no(d, k, e),
    }
}

/// Validação estrutural do documento inteiro: o cabeçalho e as raízes, e depois
/// cada nó na ordem de `d` — chave igual ao id, pai presente, cadeia de ancestrais
/// sem ciclo. (A geometria e as transformações, em ponto flutuante, ficam com
/// quem chama.)
pub fn validar_estrutura(c: &CabecalhoCad, d: &[NoCad], raizes: &[String]) -> (r: Result<(), CadError>)
    ensures
        r is Ok <==> estrutura_valida(*c, d@, raizes@),
        r matches Err(e) ==> erro_da_estrutura(*c, d@, raizes@, e),
{
    match validar_cabecalho(c.schema_version, c.id.as_str(), c.name.as_str(), d, raizes) {
        Err(e) => {
            return Err(e);
        },
        Ok(()) => {},
    }
    assert(erro_de_cabecalho(*c, d@, raizes@) is None);
    let mut i: usize = 0;
    while i < d.len()
        invariant
            i <= d@.len(),
            erro_de_cabecalho(*c, d@, raizes@) is None,
            forall|j: int| 0 <= j < i ==> #[trigger] no_valido(d@, j),
        decreases d.len() - i,
    {
        match validar_no(d, i) {
            Err(e) => {
                assert(erro_do_no(d@, i as int, e));
                assert(!no_valido(d@, i as int));
                return Err(e);
            },
            Ok(()) => {},
        }
        match validar_ancestralidade(d, d[i].id.as_str()) {
            Err(e) => {
                assert(!cadeia_termina(d@, d@[i as int].id@));
                assert(erro_do_no(d@, i as int, e));
                assert(!no_valido(d@, i as int));
                return Err(e);
            },
            Ok(()) => {},
        }
        assert(no_valido(d@, i as int));
        i = i + 1;
    }
    Ok(())
}

proof fn lema_decimal_nao_vazio(n: nat)
    ensures
        decimal(n).len() >= 1,
        n >= 10 ==> decimal(n).len() >= 2,
    decreases n,
{
    if n >= 10 {
        lema_decimal_nao_vazio(n / 10);
    }
}

proof fn lema_decimal_injetivo(a: nat, b: nat)
    requires
        decimal(a) == decimal(b),
    ensures
        a == b,
    decreases a,
{
    lema_decimal_nao_vazio(a);
    lema_decimal_nao_vazio(b);
    if a < 10 && b < 10 {
        assert(decimal(a) == seq![crate::texto::algarismo(a)]);
        assert(decimal(b) == seq![crate::texto::algarismo(b)]);
        let (x, y) = (crate::texto::algarismo(a), crate::texto::algarismo(b));
        assert(seq![x][0] == x);
        assert(seq![y][0] == y);
        assert(decimal(a)[0] == decimal(b)[0]);
        assert(x == y);
        assert(crate::texto::algarismo(a) as u32 == 48 + a);
        assert(crate::texto::algarismo(b) as u32 == 48 + b);
        assert(a == b);
    } else if a >= 10 && b >= 10 {
        assert(decimal(a).drop_last() =~= decimal(a / 10));
        assert(decimal(b).drop_last() =~= decimal(b / 10));
        lema_decimal_injetivo(a / 10, b / 10);
        assert(decimal(a) == decimal(a / 10).push(crate::texto::algarismo(a % 10)));
        assert(decimal(b) == decimal(b / 10).push(crate::texto::algarismo(b % 10)));
        let (x, y) = (crate::texto::algarismo(a % 10), crate::texto::algarismo(b % 10));
        assert(decimal(a / 10).push(x).last() == x);
        assert(decimal(b / 10).push(y).last() == y);
        assert(decimal(a).last() == decimal(b).last());
        assert(x == y);
        assert(crate::texto::algarismo(a % 10) as u32 == 48 + a % 10);
        assert(crate::texto::algarismo(b % 10) as u32 == 48 + b % 10);
        assert(a == 10 * (a / 10) + a % 10);
        assert(b == 10 * (b / 10) + b % 10);
        assert(a % 10 == b % 10);
        assert(a == b);
    } else if a < 10 {
        assert(decimal(a).len() == 1);
        assert(false);
    } else {
        assert(decimal(b).len() == 1);
        assert(false);
    }
}

/// Os ids de um cômodo são todos distintos.
proof fn lema_ids_do_comodo_distintos(c: Seq<char>, n: nat)
    ensures
        ids_do_comodo_spec(c, n).no_duplicates(),
{
    reveal_strlit(":slab");
    reveal_strlit(":ceiling");
    reveal_strlit(":wall:");
    let ids = ids_do_comodo_spec(c, n);
    assert forall|i: int, j: int| 0 <= i < ids.len() && 0 <= j < ids.len() && i != j implies ids[i] != ids[j] by {
        let (a, b) = if i < j { (i, j) } else { (j, i) };
        if b >= 3 {
            lema_decimal_nao_vazio((b - 3) as nat);
        }
        if a >= 3 {
            lema_decimal_nao_vazio((a - 3) as nat);
        }
        if ids[a] == ids[b] {
            if a == 0 {
                assert(ids[a].len() < ids[b].len());
            } else if a == 1 {
                assert(ids[a].len() < ids[b].len());
            } else if a == 2 {
                if ids[b].len() == ids[a].len() {
                    assert(ids[a][c.len() as int + 1] == 'c');
                    assert(ids[b][c.len() as int + 1] == 'w');
                }
            } else {
                let (da, db) = (decimal((a - 3) as nat), decimal((b - 3) as nat));
                assert(ids[a].subrange(c.len() as int + 6, ids[a].len() as int) =~= da);
                assert(ids[b].subrange(c.len() as int + 6, ids[b].len() as int) =~= db);
                lema_decimal_injetivo((a - 3) as nat, (b - 3) as nat);
            }
        }
    }
}

/// Tipo do `j`-ésimo nó de um cômodo, na ordem dos ids: zona, laje, forro e paredes.
pub open spec fn tipo_no_comodo(j: int) -> CadNodeKind {
    if j == 0 {
        CadNodeKind::Zone
    } else if j == 1 {
        CadNodeKind::Slab
    } else if j == 2 {
        CadNodeKind::Ceiling
    } else {
        CadNodeKind::Wall
    }
}

/// `depois` é `antes` com os nós de um cômodo acrescentados no fim: um nó por id,
/// sob a chave do id, do tipo da sua posição, com o nível como pai.
pub open spec fn com_nos_do_comodo(antes: Seq<NoCad>, depois: Seq<NoCad>, ids: Seq<Seq<char>>, nivel: Seq<char>) -> bool {
    &&& depois.len() == antes.len() + ids.len()
    &&& depois.subrange(0, antes.len() as int) == antes
    &&& forall|k: int| antes.len() <= k < depois.len() ==> {
        &&& (#[trigger] depois[k]).chave@ == ids[k - antes.len()]
        &&& depois[k].id@ == ids[k - antes.len()]
        &&& depois[k].kind == tipo_no_comodo(k - antes.len())
        &&& vista_opt(depois[k].parent_id) == Some(nivel)
    }
}

proof fn lema_comodo_prefixo(d: Seq<NoCad>, raizes: Seq<String>, d2: Seq<NoCad>, ids: Seq<Seq<char>>, nivel: Seq<char>, k: int)
    requires
        chaves_unicas(d),
        forall|t: int| 0 <= t < d.len() ==> no_consistente(d, t),
        documento_sem_ciclos(d),
        raizes_reais(d) == raizes_declaradas(raizes),
        tem_chave(d, nivel),
        ids.no_duplicates(),
        forall|j: int| 0 <= j < ids.len() ==> !tem_chave(d, #[trigger] ids[j]),
        com_nos_do_comodo(d, d2, ids, nivel),
        0 <= k <= ids.len(),
    ensures
        chaves_unicas(d2.take(d.len() + k)),
        forall|t: int| 0 <= t < d.len() + k ==> #[trigger] no_consistente(d2.take(d.len() + k), t),
        documento_sem_ciclos(d2.take(d.len() + k)),
        raizes_reais(d2.take(d.len() + k)) == raizes_declaradas(raizes),
    decreases k,
{
    let m = d.len() as int;
    if k == 0 {
        assert(d2.take(m) =~= d);
    } else {
        lema_comodo_prefixo(d, raizes, d2, ids, nivel, k - 1);
        let dk = d2.take(m + k - 1);
        let n = d2[m + k - 1];
        assert(d2.take(m + k) =~= dk.push(n));
        assert(n.chave@ == ids[k - 1] && n.id@ == ids[k - 1]);
        let i = choose|i: int| 0 <= i < d.len() && #[trigger] d[i].chave@ == nivel;
        assert(dk[i] == d2.subrange(0, m)[i]);
        assert(tem_chave(dk, nivel));
        if tem_chave(dk, n.chave@) {
            let t = choose|t: int| 0 <= t < dk.len() && #[trigger] dk[t].chave@ == n.chave@;
            if t < m {
                assert(dk[t] == d2.subrange(0, m)[t]);
                assert(tem_chave(d, ids[k - 1]));
            } else {
                assert(dk[t] == d2[t]);
                assert(ids[t - m] == ids[k - 1]);
            }
        }
        lei_insercao_mantem_o_documento_valido(dk, raizes, n, n.id);
    }
}

/// Num documento válido, criar um cômodo sob um nível que existe, com ids que
/// ainda não existem e distintos entre si, deixa o documento válido: a criação
/// estrutural é sempre aceita.
pub proof fn lei_comodo_mantem_o_documento_valido(
    c: CabecalhoCad,
    d: Seq<NoCad>,
    raizes: Seq<String>,
    d2: Seq<NoCad>,
    ids: Seq<Seq<char>>,
    nivel: Seq<char>,
)
    requires
        chaves_unicas(d),
        estrutura_valida(c, d, raizes),
        tem_chave(d, nivel),
        ids.no_duplicates(),
        forall|j: int| 0 <= j < ids.len() ==> !tem_chave(d, #[trigger] ids[j]),
        com_nos_do_comodo(d, d2, ids, nivel),
    ensures
        estrutura_valida(c, d2, raizes),
{
    assert forall|t: int| 0 <= t < d.len() implies no_consistente(d, t) by {
        assert(no_valido(d, t));
    }
    assert forall|i: int| 0 <= i < d.len() implies #[trigger] cadeia_termina(d, d[i].chave@) by {
        assert(no_valido(d, i));
    }
    lema_comodo_prefixo(d, raizes, d2, ids, nivel, ids.len() as int);
    assert(d2.take(d.len() + ids.len() as int) =~= d2);
    assert forall|i: int| 0 <= i < d2.len() implies #[trigger] no_valido(d2, i) by {
        assert(no_consistente(d2, i));
        assert(cadeia_termina(d2, d2[i].chave@));
    }
}

/// Ids de um cômodo recém-criado.
#[derive(Debug, Clone, PartialEq, Eq)]
pub struct CriacaoComodo {
    pub zone_id: String,
    pub slab_id: String,
    pub ceiling_id: String,
    pub wall_ids: Vec<String>,
}

fn tipo_no_comodo_exec(j: usize) -> (r: CadNodeKind)
    ensures
        r == tipo_no_comodo(j as int),
{
    if j == 0 {
        CadNodeKind::Zone
    } else if j == 1 {
        CadNodeKind::Slab
    } else if j == 2 {
        CadNodeKind::Ceiling
    } else {
        CadNodeKind::Wall
    }
}

/// Criação estrutural de um cômodo sobre a cópia de trabalho de um documento: o
/// nível precisa existir e ser um nível; nenhum dos ids do cômodo pode existir;
/// então zona, laje, forro e as `n_paredes` paredes entram sob o nível, o
/// documento resultante é validado e, se está bem, a revisão avança. Tudo ou
/// nada: em qualquer recusa nada muda. (O polígono, as dimensões e a geometria,
/// em ponto flutuante, ficam com quem chama.)
pub fn criar_comodo(
    cabecalho: &CabecalhoCad,
    nos: &mut Vec<NoCad>,
    raizes: &[String],
    revisao: &mut u64,
    nivel: &str,
    comodo: &str,
    n_paredes: usize,
) -> (r: Result<CriacaoComodo, CadError>)
    ensures
        !tem_chave(old(nos)@, nivel@) ==> (r matches Err(CadError::NodeNotFound(s)) && s@ == nivel@),
        tem_chave(old(nos)@, nivel@) && !(old(nos)@[posicao_da_chave(old(nos)@, nivel@, 0).unwrap()].kind is Level)
            ==> (r matches Err(CadError::WrongParentKind { node_kind, expected })
                && node_kind@ == "zone"@ && expected@ == "level"@),
        tem_chave(old(nos)@, nivel@) && old(nos)@[posicao_da_chave(old(nos)@, nivel@, 0).unwrap()].kind is Level
            && (exists|j: int| 0 <= j < 3 + n_paredes
                && tem_chave(old(nos)@, #[trigger] ids_do_comodo_spec(comodo@, n_paredes as nat)[j]))
            ==> exists|j: int| 0 <= j < 3 + n_paredes
                && tem_chave(old(nos)@, #[trigger] ids_do_comodo_spec(comodo@, n_paredes as nat)[j])
                && (forall|t: int| 0 <= t < j ==> !tem_chave(old(nos)@, #[trigger] ids_do_comodo_spec(comodo@, n_paredes as nat)[t]))
                && (r matches Err(CadError::DuplicateNode(s)) && s@ == ids_do_comodo_spec(comodo@, n_paredes as nat)[j]),
        tem_chave(old(nos)@, nivel@) && old(nos)@[posicao_da_chave(old(nos)@, nivel@, 0).unwrap()].kind is Level
            && (forall|j: int| 0 <= j < 3 + n_paredes
                ==> !tem_chave(old(nos)@, #[trigger] ids_do_comodo_spec(comodo@, n_paredes as nat)[j]))
            ==> exists|d2: Seq<NoCad>| {
                &&& com_nos_do_comodo(old(nos)@, d2, ids_do_comodo_spec(comodo@, n_paredes as nat), nivel@)
                &&& (r is Ok <==> estrutura_valida(*cabecalho, d2, raizes@))
                &&& (r matches Err(e) ==> erro_da_estrutura(*cabecalho, d2, raizes@, e))
                &&& (r is Ok ==> final(nos)@ == d2)
            },
        r matches Ok(c) ==> {
            &&& c.zone_id@ == ids_do_comodo_spec(comodo@, n_paredes as nat)[0]
            &&& c.slab_id@ == ids_do_comodo_spec(comodo@, n_paredes as nat)[1]
            &&& c.ceiling_id@ == ids_do_comodo_spec(comodo@, n_paredes as nat)[2]
            &&& textos(c.wall_ids@) == ids_do_comodo_spec(comodo@, n_paredes as nat).subrange(3, 3 + n_paredes)
        },
        r is Err ==> final(nos)@ == old(nos)@ && *final(revisao) == *old(revisao),
        r is Ok ==> *final(revisao) == revisao_seguinte(*old(revisao)),
        r is Ok && chaves_unicas(old(nos)@) ==> chaves_unicas(final(nos)@),
        chaves_unicas(old(nos)@) && estrutura_valida(*cabecalho, old(nos)@, raizes@)
            && tem_chave(old(nos)@, nivel@) && old(nos)@[posicao_da_chave(old(nos)@, nivel@, 0).unwrap()].kind is Level
            && (forall|j: int| 0 <= j < 3 + n_paredes
                ==> !tem_chave(old(nos)@, #[trigger] ids_do_comodo_spec(comodo@, n_paredes as nat)[j]))
            ==> r is Ok,
{
    verificar_nivel(nos.as_slice(), nivel)?;
    let ids = planejar_ids_do_comodo(nos.as_slice(), comodo, n_paredes)?;
    let ghost antes = nos@;
    let ghost esperado = ids_do_comodo_spec(comodo@, n_paredes as nat);
    assert(textos(ids@).len() == ids@.len());
    let mut j: usize = 0;
    while j < ids.len()
        invariant
            textos(ids@) == esperado,
            esperado.len() == ids@.len(),
            j <= ids@.len(),
            nos@.len() == antes.len() + j,
            nos@.subrange(0, antes.len() as int) == antes,
            forall|k: int| antes.len() <= k < nos@.len() ==> {
                &&& (#[trigger] nos@[k]).chave@ == esperado[k - antes.len()]
                &&& nos@[k].id@ == esperado[k - antes.len()]
                &&& nos@[k].kind == tipo_no_comodo(k - antes.len())
                &&& vista_opt(nos@[k].parent_id) == Some(nivel@)
            },
        decreases ids.len() - j,
    {
        let ghost n0 = nos@;
        let novo = NoCad {
            chave: ids[j].clone(),
            id: ids[j].clone(),
            kind: tipo_no_comodo_exec(j),
            parent_id: Some(nivel.to_owned()),
        };
        assert(esperado[j as int] == ids@[j as int]@);
        nos.push(novo);
        proof {
            assert(nos@.subrange(0, antes.len() as int) =~= n0.subrange(0, antes.len() as int));
            assert forall|k: int| antes.len() <= k < nos@.len() implies {
                &&& (#[trigger] nos@[k]).chave@ == esperado[k - antes.len()]
                &&& nos@[k].id@ == esperado[k - antes.len()]
                &&& nos@[k].kind == tipo_no_comodo(k - antes.len())
                &&& vista_opt(nos@[k].parent_id) == Some(nivel@)
            } by {
                if k < nos@.len() - 1 {
                    assert(nos@[k] == n0[k]);
                }
            }
        }
        j = j + 1;
    }
    let ghost d2 = nos@;
    assert(com_nos_do_comodo(antes, d2, esperado, nivel@));
    proof {
        if chaves_unicas(antes) && estrutura_valida(*cabecalho, antes, raizes@) {
            lema_ids_do_comodo_distintos(comodo@, n_paredes as nat);
            lei_comodo_mantem_o_documento_valido(*cabecalho, antes, raizes@, d2, esperado, nivel@);
        }
    }
    match validar_estrutura(cabecalho, nos.as_slice(), raizes) {
        Err(e) => {
            let mut k: usize = 0;
            while k < ids.len()
                invariant
                    d2.len() == antes.len() + ids@.len(),
                    k <= ids@.len(),
                    nos@ == d2.subrange(0, d2.len() - k),
                decreases ids.len() - k,
            {
                nos.pop();
                k = k + 1;
                assert(nos@ =~= d2.subrange(0, d2.len() - k));
            }
            assert(nos@ =~= antes);
            return Err(e);
        },
        Ok(()) => {},
    }
    proof {
        if chaves_unicas(antes) {
            lema_ids_do_comodo_distintos(comodo@, n_paredes as nat);
            assert forall|a: int, b: int| 0 <= a < d2.len() && 0 <= b < d2.len() && a != b
                implies #[trigger] d2[a].chave@ != #[trigger] d2[b].chave@ by {
                let m = antes.len() as int;
                if a < m && b < m {
                    assert(d2[a] == d2.subrange(0, m)[a] && d2[b] == d2.subrange(0, m)[b]);
                } else if a < m {
                    assert(d2[a] == d2.subrange(0, m)[a]);
                    assert(!tem_chave(antes, esperado[b - m]));
                } else if b < m {
                    assert(d2[b] == d2.subrange(0, m)[b]);
                    assert(!tem_chave(antes, esperado[a - m]));
                } else {
                    assert(esperado[a - m] != esperado[b - m]);
                }
            }
        }
    }
    *revisao = revisao.saturating_add(1);
    let mut paredes: Vec<String> = Vec::new();
    let mut w: usize = 3;
    while w < ids.len()
        invariant
            textos(ids@) == esperado,
            esperado.len() == ids@.len(),
            3 <= w <= ids@.len(),
            textos(paredes@) == esperado.subrange(3, w as int),
        decreases ids.len() - w,
    {
        let ghost p0 = textos(paredes@);
        paredes.push(ids[w].clone());
        assert(textos(paredes@) =~= p0.push(esperado[w as int]));
        assert(esperado.subrange(3, w + 1) =~= esperado.subrange(3, w as int).push(esperado[w as int]));
        w = w + 1;
    }
    assert(esperado[0] == ids@[0]@ && esperado[1] == ids@[1]@ && esperado[2] == ids@[2]@);
    Ok(CriacaoComodo {
        zone_id: ids[0].clone(),
        slab_id: ids[1].clone(),
        ceiling_id: ids[2].clone(),
        wall_ids: paredes,
    })
}

} // verus!
