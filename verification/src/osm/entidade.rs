//! O que o ARCZ extrai do OpenStreetMap: classes de edificação, via e superfície
//! deduzidas das tags livres do OSM (dados sob ODbL 1.0).

use vstd::prelude::*;

verus! {

/// `a` e `b` têm o mesmo texto.
pub fn mesmo_texto(a: &str, b: &str) -> (r: bool)
    ensures
        r == (a@ == b@),
{
    a.to_owned() == b.to_owned()
}

/// Categoria de uso, usada para escolher cor, altura de fallback e material.
#[derive(Debug, Clone, Copy, PartialEq, Eq, Structural)]
pub enum ClasseEdificio {
    Residencial,
    Apartamentos,
    Comercial,
    Industrial,
    Publico,
    Religioso,
    Garagem,
    Outro,
}

/// Classe deduzida do valor da tag `building`.
pub open spec fn classe_edificio_spec(v: Seq<char>) -> ClasseEdificio {
    if v == "house"@ || v == "detached"@ || v == "residential"@ || v == "bungalow"@ || v == "terrace"@ || v == "semidetached_house"@ || v == "hut"@ || v == "cabin"@ {
        ClasseEdificio::Residencial
    } else if v == "apartments"@ || v == "dormitory"@ || v == "hotel"@ || v == "residential_tower"@ {
        ClasseEdificio::Apartamentos
    } else if v == "commercial"@ || v == "retail"@ || v == "supermarket"@ || v == "shop"@ || v == "office"@ || v == "kiosk"@ || v == "restaurant"@ {
        ClasseEdificio::Comercial
    } else if v == "industrial"@ || v == "warehouse"@ || v == "factory"@ || v == "hangar"@ {
        ClasseEdificio::Industrial
    } else if v == "school"@ || v == "hospital"@ || v == "university"@ || v == "civic"@ || v == "public"@ || v == "government"@ || v == "college"@ || v == "kindergarten"@ {
        ClasseEdificio::Publico
    } else if v == "church"@ || v == "cathedral"@ || v == "chapel"@ || v == "mosque"@ || v == "temple"@ || v == "synagogue"@ {
        ClasseEdificio::Religioso
    } else if v == "garage"@ || v == "garages"@ || v == "carport"@ || v == "shed"@ || v == "roof"@ {
        ClasseEdificio::Garagem
    } else {
        ClasseEdificio::Outro
    }
}

impl ClasseEdificio {
    /// Deduz a classe a partir do valor da tag `building`.
    pub fn da_tag(valor: &str) -> (r: Self)
        ensures
            r == classe_edificio_spec(valor@),
    {
        if mesmo_texto(valor, "house") || mesmo_texto(valor, "detached") || mesmo_texto(valor, "residential") || mesmo_texto(valor, "bungalow") || mesmo_texto(valor, "terrace") || mesmo_texto(valor, "semidetached_house") || mesmo_texto(valor, "hut") || mesmo_texto(valor, "cabin") {
            ClasseEdificio::Residencial
        } else if mesmo_texto(valor, "apartments") || mesmo_texto(valor, "dormitory") || mesmo_texto(valor, "hotel") || mesmo_texto(valor, "residential_tower") {
            ClasseEdificio::Apartamentos
        } else if mesmo_texto(valor, "commercial") || mesmo_texto(valor, "retail") || mesmo_texto(valor, "supermarket") || mesmo_texto(valor, "shop") || mesmo_texto(valor, "office") || mesmo_texto(valor, "kiosk") || mesmo_texto(valor, "restaurant") {
            ClasseEdificio::Comercial
        } else if mesmo_texto(valor, "industrial") || mesmo_texto(valor, "warehouse") || mesmo_texto(valor, "factory") || mesmo_texto(valor, "hangar") {
            ClasseEdificio::Industrial
        } else if mesmo_texto(valor, "school") || mesmo_texto(valor, "hospital") || mesmo_texto(valor, "university") || mesmo_texto(valor, "civic") || mesmo_texto(valor, "public") || mesmo_texto(valor, "government") || mesmo_texto(valor, "college") || mesmo_texto(valor, "kindergarten") {
            ClasseEdificio::Publico
        } else if mesmo_texto(valor, "church") || mesmo_texto(valor, "cathedral") || mesmo_texto(valor, "chapel") || mesmo_texto(valor, "mosque") || mesmo_texto(valor, "temple") || mesmo_texto(valor, "synagogue") {
            ClasseEdificio::Religioso
        } else if mesmo_texto(valor, "garage") || mesmo_texto(valor, "garages") || mesmo_texto(valor, "carport") || mesmo_texto(valor, "shed") || mesmo_texto(valor, "roof") {
            ClasseEdificio::Garagem
        } else {
            ClasseEdificio::Outro
        }
    }
}

/// De onde a altura de um prédio veio: medida, derivada dos pavimentos ou
/// estimada pela classe de uso.
#[derive(Debug, Clone, Copy, PartialEq, Eq, Structural)]
pub enum FonteAltura {
    /// Tag `height` explícita.
    Medida,
    /// Derivada de `building:levels`.
    PorPavimentos,
    /// Fallback pela classe de uso.
    Estimada,
}

/// Tipo de via, que determina largura e cor do asfalto.
#[derive(Debug, Clone, Copy, PartialEq, Eq, Structural)]
pub enum ClasseVia {
    Rodovia,
    Arterial,
    Coletora,
    Local,
    Servico,
    Pedestre,
    Trilha,
}

/// Classe da via para o valor da tag `highway`; `None` para o que não é via
/// trafegável nem caminho (`bus_stop`, `street_lamp`, `crossing`...).
pub open spec fn classe_via_spec(v: Seq<char>) -> Option<ClasseVia> {
    if v == "motorway"@ || v == "motorway_link"@ || v == "trunk"@ || v == "trunk_link"@ {
        Some(ClasseVia::Rodovia)
    } else if v == "primary"@ || v == "primary_link"@ {
        Some(ClasseVia::Arterial)
    } else if v == "secondary"@ || v == "secondary_link"@ || v == "tertiary"@ || v == "tertiary_link"@ {
        Some(ClasseVia::Coletora)
    } else if v == "residential"@ || v == "unclassified"@ || v == "living_street"@ || v == "road"@ {
        Some(ClasseVia::Local)
    } else if v == "service"@ || v == "track"@ {
        Some(ClasseVia::Servico)
    } else if v == "pedestrian"@ || v == "footway"@ || v == "steps"@ || v == "cycleway"@ {
        Some(ClasseVia::Pedestre)
    } else if v == "path"@ || v == "bridleway"@ {
        Some(ClasseVia::Trilha)
    } else {
        None
    }
}

impl ClasseVia {
    /// Traduz a tag `highway`.
    pub fn da_tag(valor: &str) -> (r: Option<Self>)
        ensures
            r == classe_via_spec(valor@),
    {
        if mesmo_texto(valor, "motorway") || mesmo_texto(valor, "motorway_link") || mesmo_texto(valor, "trunk") || mesmo_texto(valor, "trunk_link") {
            Some(ClasseVia::Rodovia)
        } else if mesmo_texto(valor, "primary") || mesmo_texto(valor, "primary_link") {
            Some(ClasseVia::Arterial)
        } else if mesmo_texto(valor, "secondary") || mesmo_texto(valor, "secondary_link") || mesmo_texto(valor, "tertiary") || mesmo_texto(valor, "tertiary_link") {
            Some(ClasseVia::Coletora)
        } else if mesmo_texto(valor, "residential") || mesmo_texto(valor, "unclassified") || mesmo_texto(valor, "living_street") || mesmo_texto(valor, "road") {
            Some(ClasseVia::Local)
        } else if mesmo_texto(valor, "service") || mesmo_texto(valor, "track") {
            Some(ClasseVia::Servico)
        } else if mesmo_texto(valor, "pedestrian") || mesmo_texto(valor, "footway") || mesmo_texto(valor, "steps") || mesmo_texto(valor, "cycleway") {
            Some(ClasseVia::Pedestre)
        } else if mesmo_texto(valor, "path") || mesmo_texto(valor, "bridleway") {
            Some(ClasseVia::Trilha)
        } else {
            None
        }
    }
}

/// Cobertura do solo.
#[derive(Debug, Clone, Copy, PartialEq, Eq, Structural)]
pub enum ClasseSuperficie {
    Mata,
    Grama,
    Praia,
    Agua,
    Quadra,
}

/// Classe de superfície pela tag `natural`.
pub open spec fn por_natural(v: Seq<char>) -> Option<ClasseSuperficie> {
    if v == "water"@ {
        Some(ClasseSuperficie::Agua)
    } else if v == "wood"@ || v == "scrub"@ {
        Some(ClasseSuperficie::Mata)
    } else if v == "beach"@ || v == "sand"@ {
        Some(ClasseSuperficie::Praia)
    } else {
        None
    }
}

/// Classe de superfície pela tag `landuse`.
pub open spec fn por_landuse(v: Seq<char>) -> Option<ClasseSuperficie> {
    if v == "forest"@ {
        Some(ClasseSuperficie::Mata)
    } else if v == "grass"@ || v == "meadow"@ || v == "village_green"@ || v == "recreation_ground"@ {
        Some(ClasseSuperficie::Grama)
    } else {
        None
    }
}

/// Classe de superfície pela tag `leisure`.
pub open spec fn por_leisure(v: Seq<char>) -> Option<ClasseSuperficie> {
    if v == "park"@ || v == "garden"@ {
        Some(ClasseSuperficie::Grama)
    } else if v == "pitch"@ {
        Some(ClasseSuperficie::Quadra)
    } else {
        None
    }
}

/// Classe de superfície de um `way`: `natural`, depois `landuse`, depois
/// `leisure`, depois `waterway=riverbank`; a primeira tag que classifica vence.
pub open spec fn classe_superficie_spec(
    natural: Option<Seq<char>>,
    landuse: Option<Seq<char>>,
    leisure: Option<Seq<char>>,
    waterway: Option<Seq<char>>,
) -> Option<ClasseSuperficie> {
    let a = match natural { Some(v) => por_natural(v), None => None };
    let b = match landuse { Some(v) => por_landuse(v), None => None };
    let c = match leisure { Some(v) => por_leisure(v), None => None };
    if a is Some {
        a
    } else if b is Some {
        b
    } else if c is Some {
        c
    } else if waterway == Some("riverbank"@) {
        Some(ClasseSuperficie::Agua)
    } else {
        None
    }
}

/// Vista de uma tag opcional.
pub open spec fn vista_tag(t: Option<&str>) -> Option<Seq<char>> {
    match t {
        Some(s) => Some(s@),
        None => None,
    }
}

fn natural_exec(valor: &str) -> (r: Option<ClasseSuperficie>)
    ensures
        r == por_natural(valor@),
{
    if mesmo_texto(valor, "water") {
        Some(ClasseSuperficie::Agua)
    } else if mesmo_texto(valor, "wood") || mesmo_texto(valor, "scrub") {
        Some(ClasseSuperficie::Mata)
    } else if mesmo_texto(valor, "beach") || mesmo_texto(valor, "sand") {
        Some(ClasseSuperficie::Praia)
    } else {
        None
    }
}

fn landuse_exec(valor: &str) -> (r: Option<ClasseSuperficie>)
    ensures
        r == por_landuse(valor@),
{
    if mesmo_texto(valor, "forest") {
        Some(ClasseSuperficie::Mata)
    } else if mesmo_texto(valor, "grass") || mesmo_texto(valor, "meadow")
        || mesmo_texto(valor, "village_green") || mesmo_texto(valor, "recreation_ground") {
        Some(ClasseSuperficie::Grama)
    } else {
        None
    }
}

fn leisure_exec(valor: &str) -> (r: Option<ClasseSuperficie>)
    ensures
        r == por_leisure(valor@),
{
    if mesmo_texto(valor, "park") || mesmo_texto(valor, "garden") {
        Some(ClasseSuperficie::Grama)
    } else if mesmo_texto(valor, "pitch") {
        Some(ClasseSuperficie::Quadra)
    } else {
        None
    }
}

/// Classe de superfície a partir das tags `natural`, `landuse`, `leisure` e
/// `waterway` de um `way`.
pub fn classe_de_superficie(
    natural: Option<&str>,
    landuse: Option<&str>,
    leisure: Option<&str>,
    waterway: Option<&str>,
) -> (r: Option<ClasseSuperficie>)
    ensures
        r == classe_superficie_spec(vista_tag(natural), vista_tag(landuse), vista_tag(leisure), vista_tag(waterway)),
{
    let a = match natural { Some(v) => natural_exec(v), None => None };
    if a.is_some() {
        return a;
    }
    let b = match landuse { Some(v) => landuse_exec(v), None => None };
    if b.is_some() {
        return b;
    }
    let c = match leisure { Some(v) => leisure_exec(v), None => None };
    if c.is_some() {
        return c;
    }
    match waterway {
        Some(w) => if mesmo_texto(w, "riverbank") { Some(ClasseSuperficie::Agua) } else { None },
        None => None,
    }
}

/// O que um `way` do OSM vira, pelas tags.
#[derive(Debug, Clone, Copy, PartialEq, Eq, Structural)]
pub enum Destino {
    /// Prédio (se o contorno fechar), com a classe de uso.
    Edificio(ClasseEdificio),
    /// Via, quando a tag `highway` é de via; `None` descarta o `way`.
    Via(Option<ClasseVia>),
    /// Superfície, quando alguma tag de cobertura classifica; `None` descarta.
    Superficie(Option<ClasseSuperficie>),
}

/// Classificação de um `way`: `building` (ou `building:part`) diferente de `no`
/// faz prédio; senão `highway` faz via; senão as tags de cobertura decidem.
pub open spec fn destino_spec(
    building: Option<Seq<char>>,
    building_part: Option<Seq<char>>,
    highway: Option<Seq<char>>,
    natural: Option<Seq<char>>,
    landuse: Option<Seq<char>>,
    leisure: Option<Seq<char>>,
    waterway: Option<Seq<char>>,
) -> Destino {
    let predio = if building is Some { building } else { building_part };
    if predio is Some && predio.unwrap() != "no"@ {
        Destino::Edificio(classe_edificio_spec(predio.unwrap()))
    } else if highway is Some {
        Destino::Via(classe_via_spec(highway.unwrap()))
    } else {
        Destino::Superficie(classe_superficie_spec(natural, landuse, leisure, waterway))
    }
}

/// Decide o que um `way` vira a partir das suas tags.
pub fn classificar_tags(
    building: Option<&str>,
    building_part: Option<&str>,
    highway: Option<&str>,
    natural: Option<&str>,
    landuse: Option<&str>,
    leisure: Option<&str>,
    waterway: Option<&str>,
) -> (r: Destino)
    ensures
        r == destino_spec(vista_tag(building), vista_tag(building_part), vista_tag(highway),
            vista_tag(natural), vista_tag(landuse), vista_tag(leisure), vista_tag(waterway)),
{
    let predio = match building {
        Some(b) => Some(b),
        None => building_part,
    };
    if let Some(v) = predio {
        if !mesmo_texto(v, "no") {
            return Destino::Edificio(ClasseEdificio::da_tag(v));
        }
    }
    if let Some(h) = highway {
        return Destino::Via(ClasseVia::da_tag(h));
    }
    Destino::Superficie(classe_de_superficie(natural, landuse, leisure, waterway))
}

/// Cada valor de via da tag `highway` tem a sua classe: rodovias, arteriais,
/// coletoras, locais, de serviço, de pedestres e trilhas.
pub proof fn lei_tabela_das_vias()
    ensures
        classe_via_spec("motorway"@) == Some(ClasseVia::Rodovia),
        classe_via_spec("motorway_link"@) == Some(ClasseVia::Rodovia),
        classe_via_spec("trunk"@) == Some(ClasseVia::Rodovia),
        classe_via_spec("trunk_link"@) == Some(ClasseVia::Rodovia),
        classe_via_spec("primary"@) == Some(ClasseVia::Arterial),
        classe_via_spec("primary_link"@) == Some(ClasseVia::Arterial),
        classe_via_spec("secondary"@) == Some(ClasseVia::Coletora),
        classe_via_spec("secondary_link"@) == Some(ClasseVia::Coletora),
        classe_via_spec("tertiary"@) == Some(ClasseVia::Coletora),
        classe_via_spec("tertiary_link"@) == Some(ClasseVia::Coletora),
        classe_via_spec("residential"@) == Some(ClasseVia::Local),
        classe_via_spec("unclassified"@) == Some(ClasseVia::Local),
        classe_via_spec("living_street"@) == Some(ClasseVia::Local),
        classe_via_spec("road"@) == Some(ClasseVia::Local),
        classe_via_spec("service"@) == Some(ClasseVia::Servico),
        classe_via_spec("track"@) == Some(ClasseVia::Servico),
        classe_via_spec("pedestrian"@) == Some(ClasseVia::Pedestre),
        classe_via_spec("footway"@) == Some(ClasseVia::Pedestre),
        classe_via_spec("steps"@) == Some(ClasseVia::Pedestre),
        classe_via_spec("cycleway"@) == Some(ClasseVia::Pedestre),
        classe_via_spec("path"@) == Some(ClasseVia::Trilha),
        classe_via_spec("bridleway"@) == Some(ClasseVia::Trilha),
        classe_via_spec("bus_stop"@) is None,
        classe_via_spec("street_lamp"@) is None,
        classe_via_spec("crossing"@) is None,
{
    reveal_strlit("bus_stop");
    assert("bus_stop"@.len() == 8 && "bus_stop"@[0] == 'b' && "bus_stop"@[1] == 'u' && "bus_stop"@[2] == 's' && "bus_stop"@[3] == '_' && "bus_stop"@[4] == 's' && "bus_stop"@[5] == 't' && "bus_stop"@[6] == 'o' && "bus_stop"@[7] == 'p');
    reveal_strlit("street_lamp");
    assert("street_lamp"@.len() == 11 && "street_lamp"@[0] == 's' && "street_lamp"@[1] == 't' && "street_lamp"@[2] == 'r' && "street_lamp"@[3] == 'e' && "street_lamp"@[4] == 'e' && "street_lamp"@[5] == 't' && "street_lamp"@[6] == '_' && "street_lamp"@[7] == 'l' && "street_lamp"@[8] == 'a' && "street_lamp"@[9] == 'm' && "street_lamp"@[10] == 'p');
    reveal_strlit("crossing");
    assert("crossing"@.len() == 8 && "crossing"@[0] == 'c' && "crossing"@[1] == 'r' && "crossing"@[2] == 'o' && "crossing"@[3] == 's' && "crossing"@[4] == 's' && "crossing"@[5] == 'i' && "crossing"@[6] == 'n' && "crossing"@[7] == 'g');
    reveal_strlit("motorway");
    assert("motorway"@.len() == 8 && "motorway"@[0] == 'm' && "motorway"@[1] == 'o' && "motorway"@[2] == 't' && "motorway"@[3] == 'o' && "motorway"@[4] == 'r' && "motorway"@[5] == 'w' && "motorway"@[6] == 'a' && "motorway"@[7] == 'y');
    reveal_strlit("motorway_link");
    assert("motorway_link"@.len() == 13 && "motorway_link"@[0] == 'm' && "motorway_link"@[1] == 'o' && "motorway_link"@[2] == 't' && "motorway_link"@[3] == 'o' && "motorway_link"@[4] == 'r' && "motorway_link"@[5] == 'w' && "motorway_link"@[6] == 'a' && "motorway_link"@[7] == 'y' && "motorway_link"@[8] == '_' && "motorway_link"@[9] == 'l' && "motorway_link"@[10] == 'i' && "motorway_link"@[11] == 'n' && "motorway_link"@[12] == 'k');
    reveal_strlit("trunk");
    assert("trunk"@.len() == 5 && "trunk"@[0] == 't' && "trunk"@[1] == 'r' && "trunk"@[2] == 'u' && "trunk"@[3] == 'n' && "trunk"@[4] == 'k');
    reveal_strlit("trunk_link");
    assert("trunk_link"@.len() == 10 && "trunk_link"@[0] == 't' && "trunk_link"@[1] == 'r' && "trunk_link"@[2] == 'u' && "trunk_link"@[3] == 'n' && "trunk_link"@[4] == 'k' && "trunk_link"@[5] == '_' && "trunk_link"@[6] == 'l' && "trunk_link"@[7] == 'i' && "trunk_link"@[8] == 'n' && "trunk_link"@[9] == 'k');
    reveal_strlit("primary");
    assert("primary"@.len() == 7 && "primary"@[0] == 'p' && "primary"@[1] == 'r' && "primary"@[2] == 'i' && "primary"@[3] == 'm' && "primary"@[4] == 'a' && "primary"@[5] == 'r' && "primary"@[6] == 'y');
    reveal_strlit("primary_link");
    assert("primary_link"@.len() == 12 && "primary_link"@[0] == 'p' && "primary_link"@[1] == 'r' && "primary_link"@[2] == 'i' && "primary_link"@[3] == 'm' && "primary_link"@[4] == 'a' && "primary_link"@[5] == 'r' && "primary_link"@[6] == 'y' && "primary_link"@[7] == '_' && "primary_link"@[8] == 'l' && "primary_link"@[9] == 'i' && "primary_link"@[10] == 'n' && "primary_link"@[11] == 'k');
    reveal_strlit("secondary");
    assert("secondary"@.len() == 9 && "secondary"@[0] == 's' && "secondary"@[1] == 'e' && "secondary"@[2] == 'c' && "secondary"@[3] == 'o' && "secondary"@[4] == 'n' && "secondary"@[5] == 'd' && "secondary"@[6] == 'a' && "secondary"@[7] == 'r' && "secondary"@[8] == 'y');
    reveal_strlit("secondary_link");
    assert("secondary_link"@.len() == 14 && "secondary_link"@[0] == 's' && "secondary_link"@[1] == 'e' && "secondary_link"@[2] == 'c' && "secondary_link"@[3] == 'o' && "secondary_link"@[4] == 'n' && "secondary_link"@[5] == 'd' && "secondary_link"@[6] == 'a' && "secondary_link"@[7] == 'r' && "secondary_link"@[8] == 'y' && "secondary_link"@[9] == '_' && "secondary_link"@[10] == 'l' && "secondary_link"@[11] == 'i' && "secondary_link"@[12] == 'n' && "secondary_link"@[13] == 'k');
    reveal_strlit("tertiary");
    assert("tertiary"@.len() == 8 && "tertiary"@[0] == 't' && "tertiary"@[1] == 'e' && "tertiary"@[2] == 'r' && "tertiary"@[3] == 't' && "tertiary"@[4] == 'i' && "tertiary"@[5] == 'a' && "tertiary"@[6] == 'r' && "tertiary"@[7] == 'y');
    reveal_strlit("tertiary_link");
    assert("tertiary_link"@.len() == 13 && "tertiary_link"@[0] == 't' && "tertiary_link"@[1] == 'e' && "tertiary_link"@[2] == 'r' && "tertiary_link"@[3] == 't' && "tertiary_link"@[4] == 'i' && "tertiary_link"@[5] == 'a' && "tertiary_link"@[6] == 'r' && "tertiary_link"@[7] == 'y' && "tertiary_link"@[8] == '_' && "tertiary_link"@[9] == 'l' && "tertiary_link"@[10] == 'i' && "tertiary_link"@[11] == 'n' && "tertiary_link"@[12] == 'k');
    reveal_strlit("residential");
    assert("residential"@.len() == 11 && "residential"@[0] == 'r' && "residential"@[1] == 'e' && "residential"@[2] == 's' && "residential"@[3] == 'i' && "residential"@[4] == 'd' && "residential"@[5] == 'e' && "residential"@[6] == 'n' && "residential"@[7] == 't' && "residential"@[8] == 'i' && "residential"@[9] == 'a' && "residential"@[10] == 'l');
    reveal_strlit("unclassified");
    assert("unclassified"@.len() == 12 && "unclassified"@[0] == 'u' && "unclassified"@[1] == 'n' && "unclassified"@[2] == 'c' && "unclassified"@[3] == 'l' && "unclassified"@[4] == 'a' && "unclassified"@[5] == 's' && "unclassified"@[6] == 's' && "unclassified"@[7] == 'i' && "unclassified"@[8] == 'f' && "unclassified"@[9] == 'i' && "unclassified"@[10] == 'e' && "unclassified"@[11] == 'd');
    reveal_strlit("living_street");
    assert("living_street"@.len() == 13 && "living_street"@[0] == 'l' && "living_street"@[1] == 'i' && "living_street"@[2] == 'v' && "living_street"@[3] == 'i' && "living_street"@[4] == 'n' && "living_street"@[5] == 'g' && "living_street"@[6] == '_' && "living_street"@[7] == 's' && "living_street"@[8] == 't' && "living_street"@[9] == 'r' && "living_street"@[10] == 'e' && "living_street"@[11] == 'e' && "living_street"@[12] == 't');
    reveal_strlit("road");
    assert("road"@.len() == 4 && "road"@[0] == 'r' && "road"@[1] == 'o' && "road"@[2] == 'a' && "road"@[3] == 'd');
    reveal_strlit("service");
    assert("service"@.len() == 7 && "service"@[0] == 's' && "service"@[1] == 'e' && "service"@[2] == 'r' && "service"@[3] == 'v' && "service"@[4] == 'i' && "service"@[5] == 'c' && "service"@[6] == 'e');
    reveal_strlit("track");
    assert("track"@.len() == 5 && "track"@[0] == 't' && "track"@[1] == 'r' && "track"@[2] == 'a' && "track"@[3] == 'c' && "track"@[4] == 'k');
    reveal_strlit("pedestrian");
    assert("pedestrian"@.len() == 10 && "pedestrian"@[0] == 'p' && "pedestrian"@[1] == 'e' && "pedestrian"@[2] == 'd' && "pedestrian"@[3] == 'e' && "pedestrian"@[4] == 's' && "pedestrian"@[5] == 't' && "pedestrian"@[6] == 'r' && "pedestrian"@[7] == 'i' && "pedestrian"@[8] == 'a' && "pedestrian"@[9] == 'n');
    reveal_strlit("footway");
    assert("footway"@.len() == 7 && "footway"@[0] == 'f' && "footway"@[1] == 'o' && "footway"@[2] == 'o' && "footway"@[3] == 't' && "footway"@[4] == 'w' && "footway"@[5] == 'a' && "footway"@[6] == 'y');
    reveal_strlit("steps");
    assert("steps"@.len() == 5 && "steps"@[0] == 's' && "steps"@[1] == 't' && "steps"@[2] == 'e' && "steps"@[3] == 'p' && "steps"@[4] == 's');
    reveal_strlit("cycleway");
    assert("cycleway"@.len() == 8 && "cycleway"@[0] == 'c' && "cycleway"@[1] == 'y' && "cycleway"@[2] == 'c' && "cycleway"@[3] == 'l' && "cycleway"@[4] == 'e' && "cycleway"@[5] == 'w' && "cycleway"@[6] == 'a' && "cycleway"@[7] == 'y');
    reveal_strlit("path");
    assert("path"@.len() == 4 && "path"@[0] == 'p' && "path"@[1] == 'a' && "path"@[2] == 't' && "path"@[3] == 'h');
    reveal_strlit("bridleway");
    assert("bridleway"@.len() == 9 && "bridleway"@[0] == 'b' && "bridleway"@[1] == 'r' && "bridleway"@[2] == 'i' && "bridleway"@[3] == 'd' && "bridleway"@[4] == 'l' && "bridleway"@[5] == 'e' && "bridleway"@[6] == 'w' && "bridleway"@[7] == 'a' && "bridleway"@[8] == 'y');
}

/// Cada valor conhecido da tag `building` tem a sua classe de uso.
pub proof fn lei_tabela_dos_edificios()
    ensures
        classe_edificio_spec("house"@) == ClasseEdificio::Residencial,
        classe_edificio_spec("detached"@) == ClasseEdificio::Residencial,
        classe_edificio_spec("residential"@) == ClasseEdificio::Residencial,
        classe_edificio_spec("bungalow"@) == ClasseEdificio::Residencial,
        classe_edificio_spec("terrace"@) == ClasseEdificio::Residencial,
        classe_edificio_spec("semidetached_house"@) == ClasseEdificio::Residencial,
        classe_edificio_spec("hut"@) == ClasseEdificio::Residencial,
        classe_edificio_spec("cabin"@) == ClasseEdificio::Residencial,
        classe_edificio_spec("apartments"@) == ClasseEdificio::Apartamentos,
        classe_edificio_spec("dormitory"@) == ClasseEdificio::Apartamentos,
        classe_edificio_spec("hotel"@) == ClasseEdificio::Apartamentos,
        classe_edificio_spec("residential_tower"@) == ClasseEdificio::Apartamentos,
        classe_edificio_spec("commercial"@) == ClasseEdificio::Comercial,
        classe_edificio_spec("retail"@) == ClasseEdificio::Comercial,
        classe_edificio_spec("supermarket"@) == ClasseEdificio::Comercial,
        classe_edificio_spec("shop"@) == ClasseEdificio::Comercial,
        classe_edificio_spec("office"@) == ClasseEdificio::Comercial,
        classe_edificio_spec("kiosk"@) == ClasseEdificio::Comercial,
        classe_edificio_spec("restaurant"@) == ClasseEdificio::Comercial,
        classe_edificio_spec("industrial"@) == ClasseEdificio::Industrial,
        classe_edificio_spec("warehouse"@) == ClasseEdificio::Industrial,
        classe_edificio_spec("factory"@) == ClasseEdificio::Industrial,
        classe_edificio_spec("hangar"@) == ClasseEdificio::Industrial,
        classe_edificio_spec("school"@) == ClasseEdificio::Publico,
        classe_edificio_spec("hospital"@) == ClasseEdificio::Publico,
        classe_edificio_spec("university"@) == ClasseEdificio::Publico,
        classe_edificio_spec("civic"@) == ClasseEdificio::Publico,
        classe_edificio_spec("public"@) == ClasseEdificio::Publico,
        classe_edificio_spec("government"@) == ClasseEdificio::Publico,
        classe_edificio_spec("college"@) == ClasseEdificio::Publico,
        classe_edificio_spec("kindergarten"@) == ClasseEdificio::Publico,
        classe_edificio_spec("church"@) == ClasseEdificio::Religioso,
        classe_edificio_spec("cathedral"@) == ClasseEdificio::Religioso,
        classe_edificio_spec("chapel"@) == ClasseEdificio::Religioso,
        classe_edificio_spec("mosque"@) == ClasseEdificio::Religioso,
        classe_edificio_spec("temple"@) == ClasseEdificio::Religioso,
        classe_edificio_spec("synagogue"@) == ClasseEdificio::Religioso,
        classe_edificio_spec("garage"@) == ClasseEdificio::Garagem,
        classe_edificio_spec("garages"@) == ClasseEdificio::Garagem,
        classe_edificio_spec("carport"@) == ClasseEdificio::Garagem,
        classe_edificio_spec("shed"@) == ClasseEdificio::Garagem,
        classe_edificio_spec("roof"@) == ClasseEdificio::Garagem,
{
    reveal_strlit("house");
    assert("house"@.len() == 5 && "house"@[0] == 'h' && "house"@[1] == 'o' && "house"@[2] == 'u' && "house"@[3] == 's' && "house"@[4] == 'e');
    reveal_strlit("detached");
    assert("detached"@.len() == 8 && "detached"@[0] == 'd' && "detached"@[1] == 'e' && "detached"@[2] == 't' && "detached"@[3] == 'a' && "detached"@[4] == 'c' && "detached"@[5] == 'h' && "detached"@[6] == 'e' && "detached"@[7] == 'd');
    reveal_strlit("residential");
    assert("residential"@.len() == 11 && "residential"@[0] == 'r' && "residential"@[1] == 'e' && "residential"@[2] == 's' && "residential"@[3] == 'i' && "residential"@[4] == 'd' && "residential"@[5] == 'e' && "residential"@[6] == 'n' && "residential"@[7] == 't' && "residential"@[8] == 'i' && "residential"@[9] == 'a' && "residential"@[10] == 'l');
    reveal_strlit("bungalow");
    assert("bungalow"@.len() == 8 && "bungalow"@[0] == 'b' && "bungalow"@[1] == 'u' && "bungalow"@[2] == 'n' && "bungalow"@[3] == 'g' && "bungalow"@[4] == 'a' && "bungalow"@[5] == 'l' && "bungalow"@[6] == 'o' && "bungalow"@[7] == 'w');
    reveal_strlit("terrace");
    assert("terrace"@.len() == 7 && "terrace"@[0] == 't' && "terrace"@[1] == 'e' && "terrace"@[2] == 'r' && "terrace"@[3] == 'r' && "terrace"@[4] == 'a' && "terrace"@[5] == 'c' && "terrace"@[6] == 'e');
    reveal_strlit("semidetached_house");
    assert("semidetached_house"@.len() == 18 && "semidetached_house"@[0] == 's' && "semidetached_house"@[1] == 'e' && "semidetached_house"@[2] == 'm' && "semidetached_house"@[3] == 'i' && "semidetached_house"@[4] == 'd' && "semidetached_house"@[5] == 'e' && "semidetached_house"@[6] == 't' && "semidetached_house"@[7] == 'a' && "semidetached_house"@[8] == 'c' && "semidetached_house"@[9] == 'h' && "semidetached_house"@[10] == 'e' && "semidetached_house"@[11] == 'd' && "semidetached_house"@[12] == '_' && "semidetached_house"@[13] == 'h' && "semidetached_house"@[14] == 'o' && "semidetached_house"@[15] == 'u' && "semidetached_house"@[16] == 's' && "semidetached_house"@[17] == 'e');
    reveal_strlit("hut");
    assert("hut"@.len() == 3 && "hut"@[0] == 'h' && "hut"@[1] == 'u' && "hut"@[2] == 't');
    reveal_strlit("cabin");
    assert("cabin"@.len() == 5 && "cabin"@[0] == 'c' && "cabin"@[1] == 'a' && "cabin"@[2] == 'b' && "cabin"@[3] == 'i' && "cabin"@[4] == 'n');
    reveal_strlit("apartments");
    assert("apartments"@.len() == 10 && "apartments"@[0] == 'a' && "apartments"@[1] == 'p' && "apartments"@[2] == 'a' && "apartments"@[3] == 'r' && "apartments"@[4] == 't' && "apartments"@[5] == 'm' && "apartments"@[6] == 'e' && "apartments"@[7] == 'n' && "apartments"@[8] == 't' && "apartments"@[9] == 's');
    reveal_strlit("dormitory");
    assert("dormitory"@.len() == 9 && "dormitory"@[0] == 'd' && "dormitory"@[1] == 'o' && "dormitory"@[2] == 'r' && "dormitory"@[3] == 'm' && "dormitory"@[4] == 'i' && "dormitory"@[5] == 't' && "dormitory"@[6] == 'o' && "dormitory"@[7] == 'r' && "dormitory"@[8] == 'y');
    reveal_strlit("hotel");
    assert("hotel"@.len() == 5 && "hotel"@[0] == 'h' && "hotel"@[1] == 'o' && "hotel"@[2] == 't' && "hotel"@[3] == 'e' && "hotel"@[4] == 'l');
    reveal_strlit("residential_tower");
    assert("residential_tower"@.len() == 17 && "residential_tower"@[0] == 'r' && "residential_tower"@[1] == 'e' && "residential_tower"@[2] == 's' && "residential_tower"@[3] == 'i' && "residential_tower"@[4] == 'd' && "residential_tower"@[5] == 'e' && "residential_tower"@[6] == 'n' && "residential_tower"@[7] == 't' && "residential_tower"@[8] == 'i' && "residential_tower"@[9] == 'a' && "residential_tower"@[10] == 'l' && "residential_tower"@[11] == '_' && "residential_tower"@[12] == 't' && "residential_tower"@[13] == 'o' && "residential_tower"@[14] == 'w' && "residential_tower"@[15] == 'e' && "residential_tower"@[16] == 'r');
    reveal_strlit("commercial");
    assert("commercial"@.len() == 10 && "commercial"@[0] == 'c' && "commercial"@[1] == 'o' && "commercial"@[2] == 'm' && "commercial"@[3] == 'm' && "commercial"@[4] == 'e' && "commercial"@[5] == 'r' && "commercial"@[6] == 'c' && "commercial"@[7] == 'i' && "commercial"@[8] == 'a' && "commercial"@[9] == 'l');
    reveal_strlit("retail");
    assert("retail"@.len() == 6 && "retail"@[0] == 'r' && "retail"@[1] == 'e' && "retail"@[2] == 't' && "retail"@[3] == 'a' && "retail"@[4] == 'i' && "retail"@[5] == 'l');
    reveal_strlit("supermarket");
    assert("supermarket"@.len() == 11 && "supermarket"@[0] == 's' && "supermarket"@[1] == 'u' && "supermarket"@[2] == 'p' && "supermarket"@[3] == 'e' && "supermarket"@[4] == 'r' && "supermarket"@[5] == 'm' && "supermarket"@[6] == 'a' && "supermarket"@[7] == 'r' && "supermarket"@[8] == 'k' && "supermarket"@[9] == 'e' && "supermarket"@[10] == 't');
    reveal_strlit("shop");
    assert("shop"@.len() == 4 && "shop"@[0] == 's' && "shop"@[1] == 'h' && "shop"@[2] == 'o' && "shop"@[3] == 'p');
    reveal_strlit("office");
    assert("office"@.len() == 6 && "office"@[0] == 'o' && "office"@[1] == 'f' && "office"@[2] == 'f' && "office"@[3] == 'i' && "office"@[4] == 'c' && "office"@[5] == 'e');
    reveal_strlit("kiosk");
    assert("kiosk"@.len() == 5 && "kiosk"@[0] == 'k' && "kiosk"@[1] == 'i' && "kiosk"@[2] == 'o' && "kiosk"@[3] == 's' && "kiosk"@[4] == 'k');
    reveal_strlit("restaurant");
    assert("restaurant"@.len() == 10 && "restaurant"@[0] == 'r' && "restaurant"@[1] == 'e' && "restaurant"@[2] == 's' && "restaurant"@[3] == 't' && "restaurant"@[4] == 'a' && "restaurant"@[5] == 'u' && "restaurant"@[6] == 'r' && "restaurant"@[7] == 'a' && "restaurant"@[8] == 'n' && "restaurant"@[9] == 't');
    reveal_strlit("industrial");
    assert("industrial"@.len() == 10 && "industrial"@[0] == 'i' && "industrial"@[1] == 'n' && "industrial"@[2] == 'd' && "industrial"@[3] == 'u' && "industrial"@[4] == 's' && "industrial"@[5] == 't' && "industrial"@[6] == 'r' && "industrial"@[7] == 'i' && "industrial"@[8] == 'a' && "industrial"@[9] == 'l');
    reveal_strlit("warehouse");
    assert("warehouse"@.len() == 9 && "warehouse"@[0] == 'w' && "warehouse"@[1] == 'a' && "warehouse"@[2] == 'r' && "warehouse"@[3] == 'e' && "warehouse"@[4] == 'h' && "warehouse"@[5] == 'o' && "warehouse"@[6] == 'u' && "warehouse"@[7] == 's' && "warehouse"@[8] == 'e');
    reveal_strlit("factory");
    assert("factory"@.len() == 7 && "factory"@[0] == 'f' && "factory"@[1] == 'a' && "factory"@[2] == 'c' && "factory"@[3] == 't' && "factory"@[4] == 'o' && "factory"@[5] == 'r' && "factory"@[6] == 'y');
    reveal_strlit("hangar");
    assert("hangar"@.len() == 6 && "hangar"@[0] == 'h' && "hangar"@[1] == 'a' && "hangar"@[2] == 'n' && "hangar"@[3] == 'g' && "hangar"@[4] == 'a' && "hangar"@[5] == 'r');
    reveal_strlit("school");
    assert("school"@.len() == 6 && "school"@[0] == 's' && "school"@[1] == 'c' && "school"@[2] == 'h' && "school"@[3] == 'o' && "school"@[4] == 'o' && "school"@[5] == 'l');
    reveal_strlit("hospital");
    assert("hospital"@.len() == 8 && "hospital"@[0] == 'h' && "hospital"@[1] == 'o' && "hospital"@[2] == 's' && "hospital"@[3] == 'p' && "hospital"@[4] == 'i' && "hospital"@[5] == 't' && "hospital"@[6] == 'a' && "hospital"@[7] == 'l');
    reveal_strlit("university");
    assert("university"@.len() == 10 && "university"@[0] == 'u' && "university"@[1] == 'n' && "university"@[2] == 'i' && "university"@[3] == 'v' && "university"@[4] == 'e' && "university"@[5] == 'r' && "university"@[6] == 's' && "university"@[7] == 'i' && "university"@[8] == 't' && "university"@[9] == 'y');
    reveal_strlit("civic");
    assert("civic"@.len() == 5 && "civic"@[0] == 'c' && "civic"@[1] == 'i' && "civic"@[2] == 'v' && "civic"@[3] == 'i' && "civic"@[4] == 'c');
    reveal_strlit("public");
    assert("public"@.len() == 6 && "public"@[0] == 'p' && "public"@[1] == 'u' && "public"@[2] == 'b' && "public"@[3] == 'l' && "public"@[4] == 'i' && "public"@[5] == 'c');
    reveal_strlit("government");
    assert("government"@.len() == 10 && "government"@[0] == 'g' && "government"@[1] == 'o' && "government"@[2] == 'v' && "government"@[3] == 'e' && "government"@[4] == 'r' && "government"@[5] == 'n' && "government"@[6] == 'm' && "government"@[7] == 'e' && "government"@[8] == 'n' && "government"@[9] == 't');
    reveal_strlit("college");
    assert("college"@.len() == 7 && "college"@[0] == 'c' && "college"@[1] == 'o' && "college"@[2] == 'l' && "college"@[3] == 'l' && "college"@[4] == 'e' && "college"@[5] == 'g' && "college"@[6] == 'e');
    reveal_strlit("kindergarten");
    assert("kindergarten"@.len() == 12 && "kindergarten"@[0] == 'k' && "kindergarten"@[1] == 'i' && "kindergarten"@[2] == 'n' && "kindergarten"@[3] == 'd' && "kindergarten"@[4] == 'e' && "kindergarten"@[5] == 'r' && "kindergarten"@[6] == 'g' && "kindergarten"@[7] == 'a' && "kindergarten"@[8] == 'r' && "kindergarten"@[9] == 't' && "kindergarten"@[10] == 'e' && "kindergarten"@[11] == 'n');
    reveal_strlit("church");
    assert("church"@.len() == 6 && "church"@[0] == 'c' && "church"@[1] == 'h' && "church"@[2] == 'u' && "church"@[3] == 'r' && "church"@[4] == 'c' && "church"@[5] == 'h');
    reveal_strlit("cathedral");
    assert("cathedral"@.len() == 9 && "cathedral"@[0] == 'c' && "cathedral"@[1] == 'a' && "cathedral"@[2] == 't' && "cathedral"@[3] == 'h' && "cathedral"@[4] == 'e' && "cathedral"@[5] == 'd' && "cathedral"@[6] == 'r' && "cathedral"@[7] == 'a' && "cathedral"@[8] == 'l');
    reveal_strlit("chapel");
    assert("chapel"@.len() == 6 && "chapel"@[0] == 'c' && "chapel"@[1] == 'h' && "chapel"@[2] == 'a' && "chapel"@[3] == 'p' && "chapel"@[4] == 'e' && "chapel"@[5] == 'l');
    reveal_strlit("mosque");
    assert("mosque"@.len() == 6 && "mosque"@[0] == 'm' && "mosque"@[1] == 'o' && "mosque"@[2] == 's' && "mosque"@[3] == 'q' && "mosque"@[4] == 'u' && "mosque"@[5] == 'e');
    reveal_strlit("temple");
    assert("temple"@.len() == 6 && "temple"@[0] == 't' && "temple"@[1] == 'e' && "temple"@[2] == 'm' && "temple"@[3] == 'p' && "temple"@[4] == 'l' && "temple"@[5] == 'e');
    reveal_strlit("synagogue");
    assert("synagogue"@.len() == 9 && "synagogue"@[0] == 's' && "synagogue"@[1] == 'y' && "synagogue"@[2] == 'n' && "synagogue"@[3] == 'a' && "synagogue"@[4] == 'g' && "synagogue"@[5] == 'o' && "synagogue"@[6] == 'g' && "synagogue"@[7] == 'u' && "synagogue"@[8] == 'e');
    reveal_strlit("garage");
    assert("garage"@.len() == 6 && "garage"@[0] == 'g' && "garage"@[1] == 'a' && "garage"@[2] == 'r' && "garage"@[3] == 'a' && "garage"@[4] == 'g' && "garage"@[5] == 'e');
    reveal_strlit("garages");
    assert("garages"@.len() == 7 && "garages"@[0] == 'g' && "garages"@[1] == 'a' && "garages"@[2] == 'r' && "garages"@[3] == 'a' && "garages"@[4] == 'g' && "garages"@[5] == 'e' && "garages"@[6] == 's');
    reveal_strlit("carport");
    assert("carport"@.len() == 7 && "carport"@[0] == 'c' && "carport"@[1] == 'a' && "carport"@[2] == 'r' && "carport"@[3] == 'p' && "carport"@[4] == 'o' && "carport"@[5] == 'r' && "carport"@[6] == 't');
    reveal_strlit("shed");
    assert("shed"@.len() == 4 && "shed"@[0] == 's' && "shed"@[1] == 'h' && "shed"@[2] == 'e' && "shed"@[3] == 'd');
    reveal_strlit("roof");
    assert("roof"@.len() == 4 && "roof"@[0] == 'r' && "roof"@[1] == 'o' && "roof"@[2] == 'o' && "roof"@[3] == 'f');
}

/// Cada valor conhecido da tag `natural` tem a sua cobertura.
pub proof fn lei_tabela_natural()
    ensures
        por_natural("water"@) == Some(ClasseSuperficie::Agua),
        por_natural("wood"@) == Some(ClasseSuperficie::Mata),
        por_natural("scrub"@) == Some(ClasseSuperficie::Mata),
        por_natural("beach"@) == Some(ClasseSuperficie::Praia),
        por_natural("sand"@) == Some(ClasseSuperficie::Praia),
{
    reveal_strlit("water");
    assert("water"@.len() == 5 && "water"@[0] == 'w' && "water"@[1] == 'a' && "water"@[2] == 't' && "water"@[3] == 'e' && "water"@[4] == 'r');
    reveal_strlit("wood");
    assert("wood"@.len() == 4 && "wood"@[0] == 'w' && "wood"@[1] == 'o' && "wood"@[2] == 'o' && "wood"@[3] == 'd');
    reveal_strlit("scrub");
    assert("scrub"@.len() == 5 && "scrub"@[0] == 's' && "scrub"@[1] == 'c' && "scrub"@[2] == 'r' && "scrub"@[3] == 'u' && "scrub"@[4] == 'b');
    reveal_strlit("beach");
    assert("beach"@.len() == 5 && "beach"@[0] == 'b' && "beach"@[1] == 'e' && "beach"@[2] == 'a' && "beach"@[3] == 'c' && "beach"@[4] == 'h');
    reveal_strlit("sand");
    assert("sand"@.len() == 4 && "sand"@[0] == 's' && "sand"@[1] == 'a' && "sand"@[2] == 'n' && "sand"@[3] == 'd');
}

/// Cada valor conhecido da tag `landuse` tem a sua cobertura.
pub proof fn lei_tabela_landuse()
    ensures
        por_landuse("forest"@) == Some(ClasseSuperficie::Mata),
        por_landuse("grass"@) == Some(ClasseSuperficie::Grama),
        por_landuse("meadow"@) == Some(ClasseSuperficie::Grama),
        por_landuse("village_green"@) == Some(ClasseSuperficie::Grama),
        por_landuse("recreation_ground"@) == Some(ClasseSuperficie::Grama),
{
    reveal_strlit("forest");
    assert("forest"@.len() == 6 && "forest"@[0] == 'f' && "forest"@[1] == 'o' && "forest"@[2] == 'r' && "forest"@[3] == 'e' && "forest"@[4] == 's' && "forest"@[5] == 't');
    reveal_strlit("grass");
    assert("grass"@.len() == 5 && "grass"@[0] == 'g' && "grass"@[1] == 'r' && "grass"@[2] == 'a' && "grass"@[3] == 's' && "grass"@[4] == 's');
    reveal_strlit("meadow");
    assert("meadow"@.len() == 6 && "meadow"@[0] == 'm' && "meadow"@[1] == 'e' && "meadow"@[2] == 'a' && "meadow"@[3] == 'd' && "meadow"@[4] == 'o' && "meadow"@[5] == 'w');
    reveal_strlit("village_green");
    assert("village_green"@.len() == 13 && "village_green"@[0] == 'v' && "village_green"@[1] == 'i' && "village_green"@[2] == 'l' && "village_green"@[3] == 'l' && "village_green"@[4] == 'a' && "village_green"@[5] == 'g' && "village_green"@[6] == 'e' && "village_green"@[7] == '_' && "village_green"@[8] == 'g' && "village_green"@[9] == 'r' && "village_green"@[10] == 'e' && "village_green"@[11] == 'e' && "village_green"@[12] == 'n');
    reveal_strlit("recreation_ground");
    assert("recreation_ground"@.len() == 17 && "recreation_ground"@[0] == 'r' && "recreation_ground"@[1] == 'e' && "recreation_ground"@[2] == 'c' && "recreation_ground"@[3] == 'r' && "recreation_ground"@[4] == 'e' && "recreation_ground"@[5] == 'a' && "recreation_ground"@[6] == 't' && "recreation_ground"@[7] == 'i' && "recreation_ground"@[8] == 'o' && "recreation_ground"@[9] == 'n' && "recreation_ground"@[10] == '_' && "recreation_ground"@[11] == 'g' && "recreation_ground"@[12] == 'r' && "recreation_ground"@[13] == 'o' && "recreation_ground"@[14] == 'u' && "recreation_ground"@[15] == 'n' && "recreation_ground"@[16] == 'd');
}

/// Cada valor conhecido da tag `leisure` tem a sua cobertura.
pub proof fn lei_tabela_leisure()
    ensures
        por_leisure("park"@) == Some(ClasseSuperficie::Grama),
        por_leisure("garden"@) == Some(ClasseSuperficie::Grama),
        por_leisure("pitch"@) == Some(ClasseSuperficie::Quadra),
{
    reveal_strlit("park");
    assert("park"@.len() == 4 && "park"@[0] == 'p' && "park"@[1] == 'a' && "park"@[2] == 'r' && "park"@[3] == 'k');
    reveal_strlit("garden");
    assert("garden"@.len() == 6 && "garden"@[0] == 'g' && "garden"@[1] == 'a' && "garden"@[2] == 'r' && "garden"@[3] == 'd' && "garden"@[4] == 'e' && "garden"@[5] == 'n');
    reveal_strlit("pitch");
    assert("pitch"@.len() == 5 && "pitch"@[0] == 'p' && "pitch"@[1] == 'i' && "pitch"@[2] == 't' && "pitch"@[3] == 'c' && "pitch"@[4] == 'h');
}

/// Como um `way` é classificado: a tag `building` (ou, sem ela,
/// `building:part`) com qualquer valor que não seja `no` faz prédio, seja qual
/// for a `highway`; sem prédio, a `highway` faz via (descartada se o valor não é
/// de via); sem prédio nem via, a cobertura decide, e `natural` vence `landuse`,
/// que vence `leisure`, que vence `waterway=riverbank` (água).
pub proof fn lei_destino_de_um_way(
    b: Seq<char>,
    h: Option<Seq<char>>,
    natural: Option<Seq<char>>,
    landuse: Option<Seq<char>>,
    leisure: Option<Seq<char>>,
    waterway: Option<Seq<char>>,
)
    ensures
        b != "no"@ ==> destino_spec(Some(b), None, h, natural, landuse, leisure, waterway)
            == Destino::Edificio(classe_edificio_spec(b)),
        b != "no"@ ==> destino_spec(None, Some(b), h, natural, landuse, leisure, waterway)
            == Destino::Edificio(classe_edificio_spec(b)),
        h is Some ==> destino_spec(Some("no"@), None, h, natural, landuse, leisure, waterway)
            == Destino::Via(classe_via_spec(h.unwrap())),
        h is Some ==> destino_spec(None, None, h, natural, landuse, leisure, waterway)
            == Destino::Via(classe_via_spec(h.unwrap())),
        destino_spec(None, None, None, natural, landuse, leisure, waterway)
            == Destino::Superficie(classe_superficie_spec(natural, landuse, leisure, waterway)),
        natural is Some && por_natural(natural.unwrap()) is Some
            ==> classe_superficie_spec(natural, landuse, leisure, waterway) == por_natural(natural.unwrap()),
        natural is None && landuse is Some && por_landuse(landuse.unwrap()) is Some
            ==> classe_superficie_spec(natural, landuse, leisure, waterway) == por_landuse(landuse.unwrap()),
        natural is None && landuse is None && leisure is Some && por_leisure(leisure.unwrap()) is Some
            ==> classe_superficie_spec(natural, landuse, leisure, waterway) == por_leisure(leisure.unwrap()),
        classe_superficie_spec(None, None, None, Some("riverbank"@)) == Some(ClasseSuperficie::Agua),
        classe_superficie_spec(None, None, None, None) is None,
{
}

} // verus!
