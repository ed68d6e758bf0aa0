//! Consulta à Overpass API e o cache em disco: o texto da consulta Overpass QL e
//! o nome do arquivo de cache, derivado da própria consulta.

use vstd::prelude::*;
use vstd::string::StringSliceAdditionalSpecFns;
use crate::texto::{hex, hex_de, empurrar_texto, string_de, chars_de};
use crate::determinismo::{sha256, sha256_de};
use crate::biblioteca::polyhaven::juntar;

verus! {

/// Atribuição exigida pela ODbL; precisa aparecer em qualquer imagem publicada.
pub const ATRIBUICAO: &'static str = "\u{a9} colaboradores do OpenStreetMap";

/// Espelhos públicos da Overpass, na ordem de tentativa.
pub open spec fn espelhos_spec() -> Seq<Seq<char>> {
    seq![
        "https://overpass-api.de/api/interpreter"@,
        "https://overpass.kumi.systems/api/interpreter"@,
        "https://maps.mail.ru/osm/tools/overpass/api/interpreter"@,
    ]
}

/// Espelhos públicos da Overpass, na ordem de tentativa: quando um responde `429`
/// ou cai, o próximo assume.
pub fn espelhos() -> (r: Vec<String>)
    ensures
        r@.len() == 3,
        forall|i: int| 0 <= i < 3 ==> #[trigger] r@[i]@ == espelhos_spec()[i],
{
    let mut r: Vec<String> = Vec::new();
    r.push("https://overpass-api.de/api/interpreter".to_owned());
    r.push("https://overpass.kumi.systems/api/interpreter".to_owned());
    r.push("https://maps.mail.ru/osm/tools/overpass/api/interpreter".to_owned());
    r
}

/// O que buscar: cada camada custa tempo de servidor.
#[derive(Debug, Clone, Copy, PartialEq, Eq, Structural)]
pub struct Camadas {
    pub edificios: bool,
    pub vias: bool,
    pub superficies: bool,
    pub arvores: bool,
}

impl Default for Camadas {
    fn default() -> (r: Self)
        ensures
            r == (Camadas { edificios: true, vias: true, superficies: true, arvores: true }),
    {
        Camadas { edificios: true, vias: true, superficies: true, arvores: true }
    }
}

impl Camadas {
    pub fn apenas_edificios() -> (r: Self)
        ensures
            r == (Camadas { edificios: true, vias: false, superficies: false, arvores: false }),
    {
        Camadas { edificios: true, vias: false, superficies: false, arvores: false }
    }

    pub fn nenhuma(&self) -> (r: bool)
        ensures
            r == (!self.edificios && !self.vias && !self.superficies && !self.arvores),
    {
        !self.edificios && !self.vias && !self.superficies && !self.arvores
    }
}

/// Uma linha da consulta: `  {prefixo}({bbox});`.
pub open spec fn linha(prefixo: Seq<char>, b: Seq<char>) -> Seq<char> {
    "  "@ + prefixo + "("@ + b + ");\n"@
}

/// Linhas dos prédios.
pub open spec fn bloco_edificios(b: Seq<char>) -> Seq<char> {
    linha("way[\"building\"]"@, b) + linha("way[\"building:part\"]"@, b)
}

/// Linhas das superfícies.
pub open spec fn bloco_superficies(b: Seq<char>) -> Seq<char> {
    linha("way[\"natural\"~\"^(water|wood|scrub|beach|sand)$\"]"@, b)
    + linha("way[\"landuse\"~\"^(forest|grass|meadow|village_green|recreation_ground)$\"]"@, b)
    + linha("way[\"leisure\"~\"^(park|garden|pitch)$\"]"@, b)
    + linha("way[\"waterway\"=\"riverbank\"]"@, b)
}

/// `s` se `sim`, vazio senão.
pub open spec fn se(sim: bool, s: Seq<char>) -> Seq<char> {
    if sim { s } else { Seq::empty() }
}

/// Corpo da consulta: uma linha por filtro das camadas pedidas.
pub open spec fn corpo_spec(b: Seq<char>, c: Camadas) -> Seq<char> {
    se(c.edificios, bloco_edificios(b)) + se(c.vias, linha("way[\"highway\"]"@, b))
        + se(c.superficies, bloco_superficies(b)) + se(c.arvores, linha("node[\"natural\"=\"tree\"]"@, b))
}

/// Consulta Overpass QL completa.
pub open spec fn consulta_spec(b: Seq<char>, c: Camadas) -> Seq<char> {
    "[out:json][timeout:90];\n(\n"@ + corpo_spec(b, c) + ");\nout geom;\n"@
}

fn empurrar_linha(v: &mut Vec<char>, prefixo: &str, b: &str)
    ensures
        final(v)@ == old(v)@ + linha(prefixo@, b@),
{
    empurrar_texto(v, "  ");
    empurrar_texto(v, prefixo);
    empurrar_texto(v, "(");
    empurrar_texto(v, b);
    empurrar_texto(v, ");\n");
    assert(v@ =~= old(v)@ + linha(prefixo@, b@));
}

fn empurrar_edificios(v: &mut Vec<char>, b: &str)
    ensures
        final(v)@ == old(v)@ + bloco_edificios(b@),
{
    empurrar_linha(v, "way[\"building\"]", b);
    empurrar_linha(v, "way[\"building:part\"]", b);
    assert(v@ =~= old(v)@ + bloco_edificios(b@));
}

fn empurrar_superficies(v: &mut Vec<char>, b: &str)
    ensures
        final(v)@ == old(v)@ + bloco_superficies(b@),
{
    empurrar_linha(v, "way[\"natural\"~\"^(water|wood|scrub|beach|sand)$\"]", b);
    empurrar_linha(v, "way[\"landuse\"~\"^(forest|grass|meadow|village_green|recreation_ground)$\"]", b);
    empurrar_linha(v, "way[\"leisure\"~\"^(park|garden|pitch)$\"]", b);
    empurrar_linha(v, "way[\"waterway\"=\"riverbank\"]", b);
    assert(v@ =~= old(v)@ + bloco_superficies(b@));
}

/// A bbox na ordem que a Overpass espera, `sul,oeste,norte,leste` — o contrário
/// da convenção `(oeste, sul, leste, norte)` de um retângulo geográfico. Cada
/// coordenada chega já formatada com sete casas decimais.
pub open spec fn bbox_overpass_spec(oeste: Seq<char>, sul: Seq<char>, leste: Seq<char>, norte: Seq<char>) -> Seq<char> {
    sul + ","@ + oeste + ","@ + norte + ","@ + leste
}

/// Texto da bbox da consulta a partir das coordenadas na ordem
/// `(oeste, sul, leste, norte)`: trocar a ordem traria dados do lugar errado sem
/// erro nenhum.
pub fn bbox_overpass(oeste: &str, sul: &str, leste: &str, norte: &str) -> (r: String)
    ensures
        r@ == bbox_overpass_spec(oeste@, sul@, leste@, norte@),
{
    let mut v: Vec<char> = Vec::new();
    empurrar_texto(&mut v, sul);
    empurrar_texto(&mut v, ",");
    empurrar_texto(&mut v, oeste);
    empurrar_texto(&mut v, ",");
    empurrar_texto(&mut v, norte);
    empurrar_texto(&mut v, ",");
    empurrar_texto(&mut v, leste);
    proof {
        reveal_strlit(",");
    }
    assert(v@ =~= bbox_overpass_spec(oeste@, sul@, leste@, norte@));
    string_de(&v)
}

/// A consulta completa para um retângulo dado na ordem `(oeste, sul, leste,
/// norte)`, com as coordenadas já formatadas.
pub fn montar_consulta_do_retangulo(oeste: &str, sul: &str, leste: &str, norte: &str, camadas: Camadas) -> (r: String)
    ensures
        r@ == consulta_spec(bbox_overpass_spec(oeste@, sul@, leste@, norte@), camadas),
{
    let b = bbox_overpass(oeste, sul, leste, norte);
    montar_consulta(b.as_str(), camadas)
}

/// Monta a consulta Overpass QL. `bbox` já vem na ordem da Overpass,
/// `sul,oeste,norte,leste`, com sete casas decimais.
pub fn montar_consulta(bbox: &str, camadas: Camadas) -> (r: String)
    ensures
        r@ == consulta_spec(bbox@, camadas),
{
    let mut v: Vec<char> = Vec::new();
    empurrar_texto(&mut v, "[out:json][timeout:90];\n(\n");
    let ghost v0 = v@;
    if camadas.edificios {
        empurrar_edificios(&mut v, bbox);
    }
    assert(v@ =~= v0 + se(camadas.edificios, bloco_edificios(bbox@)));
    let ghost v1 = v@;
    if camadas.vias {
        empurrar_linha(&mut v, "way[\"highway\"]", bbox);
    }
    assert(v@ =~= v1 + se(camadas.vias, linha("way[\"highway\"]"@, bbox@)));
    let ghost v2 = v@;
    if camadas.superficies {
        empurrar_superficies(&mut v, bbox);
    }
    assert(v@ =~= v2 + se(camadas.superficies, bloco_superficies(bbox@)));
    let ghost v3 = v@;
    if camadas.arvores {
        empurrar_linha(&mut v, "node[\"natural\"=\"tree\"]", bbox);
    }
    assert(v@ =~= v3 + se(camadas.arvores, linha("node[\"natural\"=\"tree\"]"@, bbox@)));
    let ghost v4 = v@;
    empurrar_texto(&mut v, ");\nout geom;\n");
    assert(v4 =~= v0 + corpo_spec(bbox@, camadas));
    assert(v@ =~= consulta_spec(bbox@, camadas));
    string_de(&v)
}

/// Cliente da Overpass com cache em disco.
pub struct ClienteOverpass {
    cache: String,
    espelhos: Vec<String>,
    timeout_s: u64,
}

/// Nome do arquivo de cache de uma consulta: o SHA-256 do texto da consulta.
pub open spec fn arquivo_cache_spec(consulta: Seq<u8>) -> Seq<char> {
    "overpass-"@ + hex(sha256_de(consulta)) + ".json"@
}

impl ClienteOverpass {
    pub closed spec fn pasta_cache(&self) -> Seq<char> {
        self.cache@
    }

    pub closed spec fn espelhos_usados(&self) -> Seq<String> {
        self.espelhos@
    }

    pub closed spec fn tempo_limite_s(&self) -> u64 {
        self.timeout_s
    }

    /// Cliente com cache em `cache`, os espelhos públicos e 120 s de tempo limite.
    pub fn novo(cache: &str) -> (r: Self)
        ensures
            r.pasta_cache() == cache@,
            r.espelhos_usados().len() == 3,
            forall|i: int| 0 <= i < 3 ==> #[trigger] r.espelhos_usados()[i]@ == espelhos_spec()[i],
            r.tempo_limite_s() == 120,
    {
        ClienteOverpass { cache: cache.to_owned(), espelhos: espelhos(), timeout_s: 120 }
    }

    /// Espelhos, na ordem de tentativa.
    pub fn espelhos(&self) -> (r: &Vec<String>)
        ensures
            r@ == self.espelhos_usados(),
    {
        &self.espelhos
    }

    /// Tempo limite de cada requisição, em segundos.
    pub fn timeout_s(&self) -> (r: u64)
        ensures
            r == self.tempo_limite_s(),
    {
        self.timeout_s
    }

    /// Arquivo de cache de uma consulta: a mesma consulta cai sempre no mesmo
    /// arquivo, e a segunda chamada nunca sai da máquina.
    pub fn caminho_cache(&self, consulta: &str) -> (r: String)
        ensures
            r@ == juntar(self.pasta_cache(), arquivo_cache_spec(consulta.spec_bytes())),
    {
        let d = sha256(consulta.as_bytes());
        let h = hex_de(d.as_slice());
        let mut nome: Vec<char> = Vec::new();
        empurrar_texto(&mut nome, "overpass-");
        empurrar_texto(&mut nome, h.as_str());
        empurrar_texto(&mut nome, ".json");
        let mut caminho = chars_de(self.cache.as_str());
        if caminho.len() > 0 && caminho[caminho.len() - 1] != '/' {
            caminho.push('/');
        }
        let ghost base = caminho@;
        let mut i: usize = 0;
        while i < nome.len()
            invariant
                i <= nome.len(),
                caminho@ == base + nome@.take(i as int),
            decreases nome.len() - i,
        {
            caminho.push(nome[i]);
            i = i + 1;
            assert(caminho@ =~= base + nome@.take(i as int));
        }
        assert(nome@.take(nome.len() as int) =~= nome@);
        proof {
            let p = self.cache@;
            if p.len() == 0 || p.last() == '/' {
                assert(base == p);
            } else {
                assert(base == p + seq!['/']);
            }
            assert(caminho@ =~= juntar(self.pasta_cache(), arquivo_cache_spec(consulta.spec_bytes())));
        }
        string_de(&caminho)
    }
}

/// De onde veio o entorno.
#[derive(Debug, Clone, Copy, PartialEq, Eq, Structural)]
pub enum Origem {
    Cache,
    Rede,
}

} // verus!
