//! Contrato dos plugins (manifesto e sua validação) e o registro do host, indexado
//! por capacidade, com a porta de permissões. Plugins nunca são donos da cena.

use vstd::prelude::*;
use crate::modelo::aparar;
use crate::texto::{chars_de, lex_menor, lema_lex_total, lema_lex_transitivo, lema_lex_irreflexivo, lex_menor_exec};

verus! {

/// Valor JSON livre, carregado sem ser interpretado.
#[verifier::external_type_specification]
#[verifier::external_body]
pub struct ExValorJson(serde_json::Value);

/// Versão da ABI de plugins que este host entende.
pub const PLUGIN_API_VERSION: u32 = 1;

/// Como o plugin roda.
#[derive(Debug, Clone, Copy, PartialEq, Eq, Structural)]
pub enum RuntimeKind {
    BuiltinRust,
    WasmComponent,
    LocalProcess,
    WebSidecar,
}

/// Capacidade declarada por um plugin.
#[derive(Debug, Clone, PartialEq, Eq)]
pub struct Capability(pub String);

/// Política de rede de um plugin.
#[derive(Debug, Clone, Copy, PartialEq, Eq, Structural)]
pub enum NetworkPolicy {
    Disabled,
    Localhost,
    Lan,
    ExplicitRemote,
}

impl Default for NetworkPolicy {
    fn default() -> (r: Self)
        ensures
            r == NetworkPolicy::Disabled,
    {
        NetworkPolicy::Disabled
    }
}

/// Manifesto de um plugin.
#[derive(Debug)]
pub struct PluginManifest {
    pub id: String,
    pub name: String,
    pub version: String,
    pub api_version: u32,
    pub runtime: RuntimeKind,
    pub entrypoint: String,
    pub capabilities: Vec<Capability>,
    pub reads: Vec<String>,
    pub writes: Vec<String>,
    pub network: NetworkPolicy,
    pub deterministic: bool,
    pub gpu_optional: bool,
    pub metadata: serde_json::Value,
}

/// Pedido de ferramenta a um plugin.
#[derive(Debug)]
pub struct ToolRequest {
    pub tool: String,
    pub project_id: String,
    pub expected_revision: u64,
    pub payload: serde_json::Value,
    pub dry_run: bool,
}

/// Artefato produzido por um plugin.
#[derive(Debug, Clone, PartialEq, Eq)]
pub struct ArtifactRef {
    pub kind: String,
    pub uri: String,
    pub sha256: String,
}

/// Diagnóstico emitido por um plugin.
#[derive(Debug, Clone, PartialEq, Eq)]
pub struct Diagnostic {
    pub severity: String,
    pub code: String,
    pub message: String,
}

/// Resultado de uma ferramenta.
#[derive(Debug)]
pub struct ToolResult {
    pub tool: String,
    pub source_revision: u64,
    pub resulting_revision: Option<u64>,
    pub changed_node_ids: Vec<String>,
    pub artifacts: Vec<ArtifactRef>,
    pub diagnostics: Vec<Diagnostic>,
    pub output: serde_json::Value,
}

/// Violações do contrato de plugin.
#[derive(Debug, Clone, PartialEq, Eq)]
pub enum PluginContractError {
    MissingIdentity,
    UnsupportedApi(u32),
    MissingEntrypoint,
    EmptyCapability,
    DuplicateCapability(String),
    RemoteNetworkWithoutCapability,
}

/// Capacidades do manifesto, como texto.
pub open spec fn caps(m: PluginManifest) -> Seq<Seq<char>> {
    m.capabilities@.map_values(|c: Capability| c.0@)
}

/// Primeiro problema nas capacidades a partir da posição `k`: o valor aparado de
/// uma capacidade vazia (então vazio) ou repetida (então o valor repetido).
pub open spec fn problema_capacidades(c: Seq<Seq<char>>, k: int) -> Option<Seq<char>>
    decreases c.len() - k,
{
    if k < 0 || k >= c.len() {
        None
    } else if aparar(c[k]).len() == 0 {
        Some(Seq::empty())
    } else if exists|j: int| 0 <= j < k && aparar(c[j]) == aparar(c[k]) {
        Some(aparar(c[k]))
    } else {
        problema_capacidades(c, k + 1)
    }
}

/// Falta identidade: id, nome ou versão em branco.
pub open spec fn sem_identidade(m: PluginManifest) -> bool {
    aparar(m.id@).len() == 0 || aparar(m.name@).len() == 0 || aparar(m.version@).len() == 0
}

/// Rede remota explícita sem a capacidade `network.remote` (comparada sem aparar).
pub open spec fn remoto_sem_capacidade(m: PluginManifest) -> bool {
    m.network == NetworkPolicy::ExplicitRemote && !caps(m).contains("network.remote"@)
}

fn aparado(s: &str) -> (r: Vec<char>)
    ensures
        r@ == aparar(s@),
{
    let v = chars_de(s);
    crate::modelo::aparar_chars(&v)
}

fn iguais(a: &Vec<char>, b: &Vec<char>) -> (r: bool)
    ensures
        r == (a@ == b@),
{
    if a.len() != b.len() {
        return false;
    }
    let mut i: usize = 0;
    while i < a.len()
        invariant
            a.len() == b.len(),
            i <= a.len(),
            forall|k: int| 0 <= k < i ==> a@[k] == b@[k],
        decreases a.len() - i,
    {
        if a[i] != b[i] {
            return false;
        }
        i = i + 1;
    }
    assert(a@ =~= b@);
    true
}

fn mesmo_texto(a: &str, b: &str) -> (r: bool)
    ensures
        r == (a@ == b@),
{
    a.to_owned() == b.to_owned()
}

/// Valida um manifesto; os erros são verificados nesta ordem: identidade, versão
/// da API, ponto de entrada, capacidades (vazia ou repetida, depois de aparar) e
/// rede remota sem a capacidade correspondente.
pub fn validate_manifest(manifest: &PluginManifest) -> (r: Result<(), PluginContractError>)
    ensures
        sem_identidade(*manifest) ==> r == Err::<(), PluginContractError>(PluginContractError::MissingIdentity),
        !sem_identidade(*manifest) && manifest.api_version != PLUGIN_API_VERSION
            ==> r == Err::<(), PluginContractError>(PluginContractError::UnsupportedApi(manifest.api_version)),
        !sem_identidade(*manifest) && manifest.api_version == PLUGIN_API_VERSION
            && aparar(manifest.entrypoint@).len() == 0
            ==> r == Err::<(), PluginContractError>(PluginContractError::MissingEntrypoint),
        !sem_identidade(*manifest) && manifest.api_version == PLUGIN_API_VERSION
            && aparar(manifest.entrypoint@).len() > 0 ==> match problema_capacidades(caps(*manifest), 0) {
                Some(v) => if v.len() == 0 {
                    r == Err::<(), PluginContractError>(PluginContractError::EmptyCapability)
                } else {
                    r matches Err(PluginContractError::DuplicateCapability(s)) && s@ == v
                },
                None => if remoto_sem_capacidade(*manifest) {
                    r == Err::<(), PluginContractError>(PluginContractError::RemoteNetworkWithoutCapability)
                } else {
                    r is Ok
                },
            },
        r is Ok <==> validate_manifest_ok(*manifest),
        r matches Err(e) ==> erro_de_validacao(*manifest, e),
        aparar(manifest.id@).len() == 0 || aparar(manifest.name@).len() == 0 || aparar(manifest.version@).len() == 0
            ==> r == Err::<(), PluginContractError>(PluginContractError::MissingIdentity),
{
    let id = aparado(manifest.id.as_str());
    let nome = aparado(manifest.name.as_str());
    let versao = aparado(manifest.version.as_str());
    if id.len() == 0 || nome.len() == 0 || versao.len() == 0 {
        return Err(PluginContractError::MissingIdentity);
    }
    if manifest.api_version != PLUGIN_API_VERSION {
        return Err(PluginContractError::UnsupportedApi(manifest.api_version));
    }
    let entrada = aparado(manifest.entrypoint.as_str());
    if entrada.len() == 0 {
        return Err(PluginContractError::MissingEntrypoint);
    }
    let ghost c = caps(*manifest);
    let mut vistos: Vec<Vec<char>> = Vec::new();
    let mut k: usize = 0;
    while k < manifest.capabilities.len()
        invariant
            c == caps(*manifest),
            !sem_identidade(*manifest),
            manifest.api_version == PLUGIN_API_VERSION,
            aparar(manifest.entrypoint@).len() > 0,
            k <= manifest.capabilities.len(),
            vistos@.len() == k,
            forall|j: int| 0 <= j < k ==> #[trigger] vistos@[j]@ == aparar(c[j]),
            problema_capacidades(c, 0) == problema_capacidades(c, k as int),
        decreases manifest.capabilities.len() - k,
    {
        let v = aparado(manifest.capabilities[k].0.as_str());
        assert(v@ == aparar(c[k as int]));
        if v.len() == 0 {
            return Err(PluginContractError::EmptyCapability);
        }
        let mut j: usize = 0;
        while j < k
            invariant
                c == caps(*manifest),
                !sem_identidade(*manifest),
                manifest.api_version == PLUGIN_API_VERSION,
                aparar(manifest.entrypoint@).len() > 0,
                problema_capacidades(c, 0) == problema_capacidades(c, k as int),
                k < manifest.capabilities.len(),
                j <= k,
                vistos@.len() == k,
                v@ == aparar(c[k as int]),
                v@.len() > 0,
                forall|t: int| 0 <= t < k ==> #[trigger] vistos@[t]@ == aparar(c[t]),
                forall|t: int| 0 <= t < j ==> aparar(c[t]) != aparar(c[k as int]),
            decreases k - j,
        {
            if iguais(&vistos[j], &v) {
                assert(aparar(c[j as int]) == aparar(c[k as int]));
                assert(problema_capacidades(c, k as int) == Some(aparar(c[k as int])));
                return Err(PluginContractError::DuplicateCapability(crate::texto::string_de(&v)));
            }
            j = j + 1;
        }
        vistos.push(v);
        k = k + 1;
    }
    if manifest.network == NetworkPolicy::ExplicitRemote {
        let mut i: usize = 0;
        let mut achou = false;
        while i < manifest.capabilities.len()
            invariant
                c == caps(*manifest),
                !sem_identidade(*manifest),
                manifest.api_version == PLUGIN_API_VERSION,
                aparar(manifest.entrypoint@).len() > 0,
                problema_capacidades(c, 0) is None,
                manifest.network == NetworkPolicy::ExplicitRemote,
                i <= manifest.capabilities.len(),
                achou == (exists|t: int| 0 <= t < i && c[t] == "network.remote"@),
            decreases manifest.capabilities.len() - i,
        {
            assert(c[i as int] == manifest.capabilities@[i as int].0@);
            if mesmo_texto(manifest.capabilities[i].0.as_str(), "network.remote") {
                achou = true;
            }
            i = i + 1;
        }
        if !achou {
            assert(!c.contains("network.remote"@));
            return Err(PluginContractError::RemoteNetworkWithoutCapability);
        }
        assert(c.contains("network.remote"@));
    }
    Ok(())
}

/// Permissões concedidas a um plugin; cada lista funciona como um conjunto.
#[derive(Debug, Clone, PartialEq, Eq, Default)]
pub struct PermissionGrant {
    pub capabilities: Vec<String>,
    pub readable_domains: Vec<String>,
    pub writable_domains: Vec<String>,
}

/// Textos de uma lista de `String`.
pub open spec fn textos(v: Seq<String>) -> Seq<Seq<char>> {
    v.map_values(|s: String| s@)
}

fn contem_texto(v: &Vec<String>, t: &str) -> (r: bool)
    ensures
        r == textos(v@).contains(t@),
{
    let mut i: usize = 0;
    while i < v.len()
        invariant
            i <= v.len(),
            forall|k: int| 0 <= k < i ==> v@[k]@ != t@,
        decreases v.len() - i,
    {
        if v[i].as_str().to_owned() == t.to_owned() {
            assert(textos(v@)[i as int] == t@);
            return true;
        }
        i = i + 1;
    }
    assert(!textos(v@).contains(t@)) by {
        assert forall|k: int| 0 <= k < textos(v@).len() implies textos(v@)[k] != t@ by {
            assert(textos(v@)[k] == v@[k]@);
        }
    }
    false
}

impl PermissionGrant {
    /// Concede uma capacidade; `true` se ela ainda não estava concedida.
    pub fn conceder(&mut self, capability: &str) -> (r: bool)
        ensures
            r == !textos(old(self).capabilities@).contains(capability@),
            textos(final(self).capabilities@).contains(capability@),
            forall|c: Seq<char>| #[trigger] textos(final(self).capabilities@).contains(c)
                <==> (textos(old(self).capabilities@).contains(c) || c == capability@),
            final(self).readable_domains == old(self).readable_domains,
            final(self).writable_domains == old(self).writable_domains,
    {
        if contem_texto(&self.capabilities, capability) {
            return false;
        }
        let ghost antes = self.capabilities@;
        self.capabilities.push(capability.to_owned());
        proof {
            let t = textos(self.capabilities@);
            let ta = textos(antes);
            assert(t =~= ta.push(capability@));
            assert(t[t.len() - 1] == capability@);
            assert forall|c: Seq<char>| #[trigger] t.contains(c) <==> (ta.contains(c) || c == capability@) by {
                if t.contains(c) {
                    let k = choose|k: int| 0 <= k < t.len() && t[k] == c;
                    if k < ta.len() {
                        assert(ta[k] == c);
                    }
                }
                if ta.contains(c) {
                    let k = choose|k: int| 0 <= k < ta.len() && ta[k] == c;
                    assert(t[k] == c);
                }
            }
        }
        true
    }

    /// A capacidade foi concedida.
    pub fn concede(&self, capability: &str) -> (r: bool)
        ensures
            r == textos(self.capabilities@).contains(capability@),
    {
        contem_texto(&self.capabilities, capability)
    }
}

/// Erros do host de plugins.
#[derive(Debug, Clone, PartialEq, Eq)]
pub enum PluginHostError {
    InvalidManifest(PluginContractError),
    DuplicatePlugin(String),
    UnknownPlugin(String),
    CapabilityNotDeclared { plugin: String, capability: String },
    CapabilityNotGranted { plugin: String, capability: String },
}

/// Registro de plugins, em ordem de id (a ordem em que os provedores de uma
/// capacidade são devolvidos).
pub struct PluginRegistry {
    manifests: Vec<PluginManifest>,
}

/// Os manifestos estão em ordem estrita de id.
pub open spec fn em_ordem_de_id(s: Seq<PluginManifest>) -> bool {
    forall|i: int, j: int| 0 <= i < j < s.len() ==> lex_menor(#[trigger] s[i].id@, #[trigger] s[j].id@)
}

/// O manifesto declara a capacidade `c` (comparada sem aparar).
pub open spec fn declara(m: PluginManifest, c: Seq<char>) -> bool {
    caps(m).contains(c)
}

impl PluginRegistry {
    /// Manifestos registrados, em ordem de id.
    pub closed spec fn vista(&self) -> Seq<PluginManifest> {
        self.manifests@
    }

    /// Os manifestos estão em ordem estrita de id.
    pub open spec fn bem_formado(&self) -> bool {
        em_ordem_de_id(self.vista())
    }

    /// Invariante do registro: ids em ordem estrita.
    #[verifier::type_invariant]
    spec fn invariante(self) -> bool {
        em_ordem_de_id(self.manifests@)
    }

    /// Há um plugin com esse id.
    pub open spec fn tem_id(&self, id: Seq<char>) -> bool {
        exists|i: int| 0 <= i < self.vista().len() && #[trigger] self.vista()[i].id@ == id
    }

    /// Registro vazio.
    pub fn new() -> (r: Self)
        ensures
            r.bem_formado(),
            r.vista().len() == 0,
    {
        PluginRegistry { manifests: Vec::new() }
    }

    fn posicao(&self, id: &str) -> (r: Option<usize>)
        ensures
            match r {
                Some(i) => i < self.vista().len() && self.vista()[i as int].id@ == id@,
                None => !self.tem_id(id@),
            },
    {
        let mut i: usize = 0;
        while i < self.manifests.len()
            invariant
                i <= self.manifests.len(),
                forall|k: int| 0 <= k < i ==> self.manifests@[k].id@ != id@,
            decreases self.manifests.len() - i,
        {
            if self.manifests[i].id.as_str().to_owned() == id.to_owned() {
                return Some(i);
            }
            i = i + 1;
        }
        None
    }

    /// Registra um manifesto válido cujo id ainda não existe, na sua posição pela
    /// ordem de id.
    pub fn register(&mut self, manifest: PluginManifest) -> (r: Result<(), PluginHostError>)
        ensures
            final(self).bem_formado(),
            match r {
                Ok(()) => validate_manifest_ok(manifest) && !old(self).tem_id(manifest.id@)
                    && exists|p: int| 0 <= p <= old(self).vista().len()
                        && final(self).vista() == old(self).vista().insert(p, manifest),
                Err(e) => final(self).vista() == old(self).vista() && (
                    (!validate_manifest_ok(manifest)
                        && (e matches PluginHostError::InvalidManifest(v) && erro_de_validacao(manifest, v)))
                    || (validate_manifest_ok(manifest) && old(self).tem_id(manifest.id@)
                        && (e matches PluginHostError::DuplicatePlugin(s) && s@ == manifest.id@))),
            },
    {
        proof { use_type_invariant(&*self); }
        match validate_manifest(&manifest) {
            Err(e) => return Err(PluginHostError::InvalidManifest(e)),
            Ok(()) => {},
        }
        if let Some(_) = self.posicao(manifest.id.as_str()) {
            return Err(PluginHostError::DuplicatePlugin(manifest.id.clone()));
        }
        let novo = chars_de(manifest.id.as_str());
        let mut manifests: Vec<PluginManifest> = Vec::new();
        std::mem::swap(&mut manifests, &mut self.manifests);
        let ghost antes = manifests@;
        let mut p: usize = 0;
        let mut parar = false;
        while p < manifests.len() && !parar
            invariant
                manifests@ == antes,
                em_ordem_de_id(antes),
                forall|k: int| 0 <= k < antes.len() ==> #[trigger] antes[k].id@ != novo@,
                novo@ == manifest.id@,
                p <= manifests.len(),
                forall|k: int| 0 <= k < p ==> lex_menor(#[trigger] antes[k].id@, novo@),
                parar ==> p < manifests.len() && lex_menor(novo@, antes[p as int].id@),
            decreases manifests.len() - p, if parar { 0int } else { 1int },
        {
            let atual = chars_de(manifests[p].id.as_str());
            if lex_menor_exec(&novo, &atual) {
                parar = true;
            } else {
                proof {
                    assert(antes[p as int].id@ != novo@);
                    let a = antes[p as int].id@;
                    lema_lex_total(a, novo@, 0);
                }
                p = p + 1;
            }
        }
        proof {
            assert forall|k: int| p <= k < antes.len() implies lex_menor(novo@, #[trigger] antes[k].id@) by {
                if k > p {
                    lema_lex_transitivo(novo@, antes[p as int].id@, antes[k].id@, 0);
                }
            }
        }
        manifests.insert(p, manifest);
        proof {
            let s = manifests@;
            assert(s == antes.insert(p as int, manifest));
            assert forall|i: int, j: int| 0 <= i < j < s.len() implies lex_menor(#[trigger] s[i].id@, #[trigger] s[j].id@) by {
                if i < p && j < p {
                    assert(s[i] == antes[i] && s[j] == antes[j]);
                } else if i < p && j == p {
                    assert(s[i] == antes[i]);
                } else if i < p && j > p {
                    assert(s[i] == antes[i] && s[j] == antes[j - 1]);
                    lema_lex_transitivo(antes[i].id@, novo@, antes[j - 1].id@, 0);
                } else if i == p {
                    assert(s[j] == antes[j - 1]);
                } else {
                    assert(s[i] == antes[i - 1] && s[j] == antes[j - 1]);
                }
            }
        }
        self.manifests = manifests;
        Ok(())
    }

    /// Manifesto de id `id`, se registrado.
    pub fn get(&self, id: &str) -> (r: Option<&PluginManifest>)
        ensures
            match r {
                Some(m) => self.tem_id(id@) && self.vista().contains(*m) && m.id@ == id@,
                None => !self.tem_id(id@),
            },
    {
        match self.posicao(id) {
            Some(i) => Some(&self.manifests[i]),
            None => None,
        }
    }

    /// Plugins que declaram a capacidade, em ordem de id.
    pub fn providers_for(&self, capability: &str) -> (r: Vec<&PluginManifest>)
        ensures
            r@.len() == self.vista().filter(|m: PluginManifest| declara(m, capability@)).len(),
            forall|i: int| 0 <= i < r@.len() ==>
                *#[trigger] r@[i] == self.vista().filter(|m: PluginManifest| declara(m, capability@))[i],
    {
        let ghost f = |m: PluginManifest| declara(m, capability@);
        let mut r: Vec<&PluginManifest> = Vec::new();
        let mut i: usize = 0;
        while i < self.manifests.len()
            invariant
                i <= self.manifests.len(),
                f == (|m: PluginManifest| declara(m, capability@)),
                r@.len() == self.manifests@.take(i as int).filter(f).len(),
                forall|k: int| 0 <= k < r@.len() ==> *#[trigger] r@[k] == self.manifests@.take(i as int).filter(f)[k],
            decreases self.manifests.len() - i,
        {
            proof {
                assert(self.manifests@.take(i + 1).drop_last() =~= self.manifests@.take(i as int));
                reveal(Seq::filter);
            }
            let m = &self.manifests[i];
            if declara_exec(m, capability) {
                r.push(m);
            }
            i = i + 1;
        }
        assert(self.manifests@.take(self.manifests.len() as int) =~= self.manifests@);
        r
    }

    /// Autoriza o uso de uma capacidade: o plugin precisa existir, tê-la declarado e
    /// tê-la recebido na concessão.
    pub fn authorize(&self, plugin_id: &str, requested_capability: &str, grant: &PermissionGrant)
        -> (r: Result<(), PluginHostError>)
        ensures
            !self.tem_id(plugin_id@) ==> (r matches Err(PluginHostError::UnknownPlugin(s)) && s@ == plugin_id@),
            self.tem_id(plugin_id@) ==> match r {
                Ok(()) => (exists|i: int| 0 <= i < self.vista().len() && self.vista()[i].id@ == plugin_id@
                        && declara(self.vista()[i], requested_capability@))
                    && textos(grant.capabilities@).contains(requested_capability@),
                Err(e) => e is CapabilityNotDeclared || e is CapabilityNotGranted,
            },
            r matches Err(PluginHostError::CapabilityNotDeclared { plugin, capability }) ==>
                plugin@ == plugin_id@ && capability@ == requested_capability@
                && forall|i: int| 0 <= i < self.vista().len() && self.vista()[i].id@ == plugin_id@
                    ==> !declara(self.vista()[i], requested_capability@),
            r matches Err(PluginHostError::CapabilityNotGranted { plugin, capability }) ==>
                plugin@ == plugin_id@ && capability@ == requested_capability@
                && !textos(grant.capabilities@).contains(requested_capability@)
                && exists|i: int| 0 <= i < self.vista().len() && self.vista()[i].id@ == plugin_id@
                    && declara(self.vista()[i], requested_capability@),
    {
        proof { use_type_invariant(self); }
        let i = match self.posicao(plugin_id) {
            Some(i) => i,
            None => return Err(PluginHostError::UnknownPlugin(plugin_id.to_owned())),
        };
        proof {
            assert forall|j: int| 0 <= j < self.vista().len() && self.vista()[j].id@ == plugin_id@ implies j == i by {
                if j != i {
                    let (a, b) = if j < i { (j, i as int) } else { (i as int, j) };
                    assert(lex_menor(self.vista()[a].id@, self.vista()[b].id@));
                    lema_lex_irreflexivo(plugin_id@, 0);
                }
            }
        }
        if !declara_exec(&self.manifests[i], requested_capability) {
            return Err(PluginHostError::CapabilityNotDeclared {
                plugin: plugin_id.to_owned(),
                capability: requested_capability.to_owned(),
            });
        }
        if !grant.concede(requested_capability) {
            return Err(PluginHostError::CapabilityNotGranted {
                plugin: plugin_id.to_owned(),
                capability: requested_capability.to_owned(),
            });
        }
        Ok(())
    }

    /// Quantidade de plugins registrados.
    pub fn len(&self) -> (r: usize)
        ensures
            r == self.vista().len(),
    {
        self.manifests.len()
    }

    /// Nenhum plugin registrado.
    pub fn is_empty(&self) -> (r: bool)
        ensures
            r == (self.vista().len() == 0),
    {
        self.manifests.len() == 0
    }
}

/// `e` é o erro que a validação aponta no manifesto `m`: o primeiro problema, na
/// ordem de [`validate_manifest`].
pub open spec fn erro_de_validacao(m: PluginManifest, e: PluginContractError) -> bool {
    if sem_identidade(m) {
        e == PluginContractError::MissingIdentity
    } else if m.api_version != PLUGIN_API_VERSION {
        e == PluginContractError::UnsupportedApi(m.api_version)
    } else if aparar(m.entrypoint@).len() == 0 {
        e == PluginContractError::MissingEntrypoint
    } else {
        match problema_capacidades(caps(m), 0) {
            Some(v) => if v.len() == 0 {
                e == PluginContractError::EmptyCapability
            } else {
                e matches PluginContractError::DuplicateCapability(s) && s@ == v
            },
            None => remoto_sem_capacidade(m) && e == PluginContractError::RemoteNetworkWithoutCapability,
        }
    }
}

/// Identidade obrigatória: um manifesto com id, nome ou versão em branco (depois
/// de aparar) é recusado com `MissingIdentity`, antes de qualquer outra
/// verificação; um manifesto aceito tem id, nome, versão e ponto de entrada, a
/// versão de API suportada e, se pede rede remota explícita, declara
/// `network.remote`.
pub proof fn lei_identidade_obrigatoria(m: PluginManifest, e: PluginContractError)
    ensures
        aparar(m.id@).len() == 0 || aparar(m.name@).len() == 0 || aparar(m.version@).len() == 0
            ==> !validate_manifest_ok(m) && (erro_de_validacao(m, e) <==> e == PluginContractError::MissingIdentity),
        validate_manifest_ok(m) ==> {
            &&& aparar(m.id@).len() > 0
            &&& aparar(m.name@).len() > 0
            &&& aparar(m.version@).len() > 0
            &&& aparar(m.entrypoint@).len() > 0
            &&& m.api_version == PLUGIN_API_VERSION
            &&& (m.network == NetworkPolicy::ExplicitRemote ==> caps(m).contains("network.remote"@))
        },
{
}

/// O manifesto passa na validação.
pub open spec fn validate_manifest_ok(m: PluginManifest) -> bool {
    &&& !sem_identidade(m)
    &&& m.api_version == PLUGIN_API_VERSION
    &&& aparar(m.entrypoint@).len() > 0
    &&& problema_capacidades(caps(m), 0) is None
    &&& !remoto_sem_capacidade(m)
}

fn declara_exec(m: &PluginManifest, c: &str) -> (r: bool)
    ensures
        r == declara(*m, c@),
{
    let mut i: usize = 0;
    while i < m.capabilities.len()
        invariant
            i <= m.capabilities.len(),
            forall|k: int| 0 <= k < i ==> caps(*m)[k] != c@,
        decreases m.capabilities.len() - i,
    {
        assert(caps(*m)[i as int] == m.capabilities@[i as int].0@);
        if mesmo_texto(m.capabilities[i].0.as_str(), c) {
            return true;
        }
        i = i + 1;
    }
    false
}

} // verus!
