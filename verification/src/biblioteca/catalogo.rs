//! Catálogo curado de mobiliário e decoração.
//!
//! Cada item declara a licença no tipo: o ARCZ é de uso comercial, então nada entra
//! aqui sem ser CC0 (domínio público) ou gerado pelo próprio ARCZ. Duas origens:
//! modelos fotorreais do Poly Haven, baixados sob demanda, e peças paramétricas
//! geradas na medida da planta.

use vstd::prelude::*;
use crate::biblioteca::parametrico::Peca;

verus! {

/// Classe de licença de um asset.
#[derive(Debug, Clone, Copy, PartialEq, Eq, Structural)]
pub enum Licenca {
    /// CC0 / domínio público. Uso comercial livre, sem crédito obrigatório.
    Cc0,
    /// Gerado pelo próprio ARCZ. Sem terceiro envolvido.
    Proprio,
}

/// Texto da licença, como vai para o manifesto e para `LICENCA.txt`.
pub open spec fn texto_spec(l: Licenca) -> Seq<char> {
    match l {
        Licenca::Cc0 => "CC0 1.0 (dominio publico) — Poly Haven"@,
        Licenca::Proprio => "Gerado pelo ARCZ (parametrico)"@,
    }
}

impl Licenca {
    /// `true` se pode entrar num produto comercial sem negociação nem crédito:
    /// toda licença que o tipo admite é livre.
    pub fn comercialmente_livre(self) -> (r: bool)
        ensures
            r,
    {
        match self {
            Licenca::Cc0 => true,
            Licenca::Proprio => true,
        }
    }

    pub fn texto(self) -> (r: &'static str)
        ensures
            r@ == texto_spec(self),
    {
        match self {
            Licenca::Cc0 => "CC0 1.0 (dominio publico) — Poly Haven",
            Licenca::Proprio => "Gerado pelo ARCZ (parametrico)",
        }
    }
}

/// De onde o arquivo do item vem.
#[derive(Debug, Clone, Copy, PartialEq, Eq)]
pub enum Fonte {
    /// Slug do asset em `https://polyhaven.com/a/{slug}`.
    PolyHaven { slug: &'static str },
    /// Peça gerada localmente em glTF.
    Parametrica(Peca),
}

/// Onde o item é usado no empreendimento.
#[derive(Debug, Clone, Copy, PartialEq, Eq, Structural)]
pub enum Ambiente {
    /// Interior das unidades (sala, quartos, cozinha, banhos, sacada).
    Apartamento,
    /// Hall, recepção e circulação do embasamento.
    Recepcao,
    /// Cafeteria do térreo.
    Cafeteria,
    /// Mercado/loja do térreo.
    Mercado,
    /// Rooftop: convívio, gourmet, piscina e deck.
    Rooftop,
}

/// Papel do item na planta: a planta pede "um sofá de três lugares", não um
/// modelo específico; trocar o modelo não mexe na planta.
#[derive(Debug, Clone, Copy, PartialEq, Eq, Structural)]
pub enum Papel {
    // dormir
    CamaCasal,
    CamaSolteiro,
    Criado,
    GuardaRoupa,
    // estar
    SofaTresLugares,
    SofaDoisLugares,
    Poltrona,
    Puff,
    MesaCentro,
    MesaLateral,
    Rack,
    Tv,
    Tapete,
    Estante,
    // jantar / cozinha
    MesaJantar,
    CadeiraJantar,
    BancadaCozinha,
    Cooktop,
    Geladeira,
    MicroOndas,
    Banqueta,
    // banho
    VasoSanitario,
    CubaBanheiro,
    BoxChuveiro,
    // decoracao
    Vaso,
    PlantaVaso,
    Quadro,
    Espelho,
    Luminaria,
    LuminariaPendente,
    Almofadas,
    Livros,
    Relogio,
    // externo / comum
    BalcaoRecepcao,
    Poltronalounge,
    MesaExterna,
    Espreguicadeira,
    GuardaSol,
    Floreira,
    Banco,
    Churrasqueira,
    // comercial
    BalcaoCafe,
    Caixa,
    JogoDeCha,
    PrateleiraLoja,
}

/// Um item do catálogo.
#[derive(Debug, Clone, Copy)]
pub struct Item {
    /// Chave estável, usada nas plantas e no nome da pasta em disco.
    pub chave: &'static str,
    pub nome: &'static str,
    pub papel: Papel,
    pub fonte: Fonte,
    pub licenca: Licenca,
    pub ambientes: &'static [Ambiente],
    /// Medida nominal (largura, altura, profundidade) em milímetros.
    pub dimensao_mm: [u32; 3],
}

/// Licença que cada origem impõe: Poly Haven é CC0, paramétrico é próprio.
pub open spec fn licenca_da_fonte(f: Fonte) -> Licenca {
    match f {
        Fonte::PolyHaven { .. } => Licenca::Cc0,
        Fonte::Parametrica(_) => Licenca::Proprio,
    }
}

/// Item coerente: a licença é a da origem.
pub open spec fn item_coerente(i: Item) -> bool {
    i.licenca == licenca_da_fonte(i.fonte)
}

impl Item {
    /// Nome da pasta do item dentro da biblioteca.
    pub fn pasta(&self) -> (r: String)
        ensures
            r@ == self.chave@,
    {
        self.chave.to_owned()
    }

    /// `true` se o arquivo precisa ser baixado da internet.
    pub fn remoto(&self) -> (r: bool)
        ensures
            r == (self.fonte is PolyHaven),
    {
        match self.fonte {
            Fonte::PolyHaven { .. } => true,
            Fonte::Parametrica(_) => false,
        }
    }
}


/// Item do Poly Haven, como valor.
pub open spec fn ph_spec(
    chave: &'static str,
    nome: &'static str,
    slug: &'static str,
    papel: Papel,
    ambientes: &'static [Ambiente],
    dimensao_mm: [u32; 3],
) -> Item {
    Item { chave, nome, papel, fonte: Fonte::PolyHaven { slug }, licenca: Licenca::Cc0, ambientes, dimensao_mm }
}

/// Peça paramétrica, como valor.
pub open spec fn par_spec(
    chave: &'static str,
    nome: &'static str,
    peca: Peca,
    papel: Papel,
    ambientes: &'static [Ambiente],
    dimensao_mm: [u32; 3],
) -> Item {
    Item { chave, nome, papel, fonte: Fonte::Parametrica(peca), licenca: Licenca::Proprio, ambientes, dimensao_mm }
}

/// O conteúdo do catálogo, na ordem da curadoria.
pub open spec fn catalogo_spec() -> Seq<Item> {
    seq![
        ph_spec("sofa-3-lugares", "Sofa 3 lugares", "sofa_02", Papel::SofaTresLugares, &[Ambiente::Apartamento], [2200, 850, 900]),
        ph_spec("sofa-2-lugares", "Sofa 2 lugares", "sofa_03", Papel::SofaDoisLugares, &[Ambiente::Apartamento], [1700, 850, 900]),
        ph_spec("sofa-modular", "Sofa modular", "Sofa_01", Papel::SofaTresLugares, &[Ambiente::Apartamento, Ambiente::Recepcao], [2400, 800, 950]),
        ph_spec("poltrona-moderna", "Poltrona moderna", "modern_arm_chair_01", Papel::Poltrona, &[Ambiente::Apartamento, Ambiente::Recepcao], [750, 800, 800]),
        ph_spec("poltrona-mid-century", "Poltrona mid-century", "mid_century_lounge_chair", Papel::Poltrona, &[Ambiente::Apartamento, Ambiente::Recepcao], [800, 780, 850]),
        ph_spec("poltrona-braco", "Poltrona de braco", "ArmChair_01", Papel::Poltrona, &[Ambiente::Apartamento], [850, 850, 900]),
        ph_spec("puff", "Puff", "Ottoman_01", Papel::Puff, &[Ambiente::Apartamento], [600, 420, 600]),
        ph_spec("mesa-centro-1", "Mesa de centro retangular", "modern_coffee_table_01", Papel::MesaCentro, &[Ambiente::Apartamento], [1100, 400, 600]),
        ph_spec("mesa-centro-2", "Mesa de centro baixa", "modern_coffee_table_02", Papel::MesaCentro, &[Ambiente::Apartamento], [1200, 350, 650]),
        ph_spec("mesa-centro-redonda", "Mesa de centro redonda", "coffee_table_round_01", Papel::MesaCentro, &[Ambiente::Apartamento, Ambiente::Recepcao], [800, 400, 800]),
        ph_spec("mesa-lateral", "Mesa lateral", "side_table_01", Papel::MesaLateral, &[Ambiente::Apartamento], [450, 500, 450]),
        ph_spec("mesa-lateral-alta", "Mesa lateral alta", "side_table_tall_01", Papel::MesaLateral, &[Ambiente::Apartamento], [400, 650, 400]),
        ph_spec("almofadas", "Almofadas", "throw_pillows_01", Papel::Almofadas, &[Ambiente::Apartamento], [500, 150, 500]),
        ph_spec("livros", "Livros decorativos", "book_encyclopedia_set_01", Papel::Livros, &[Ambiente::Apartamento, Ambiente::Recepcao], [300, 120, 200]),
        ph_spec("estante", "Estante", "Shelf_01", Papel::Estante, &[Ambiente::Apartamento], [900, 1800, 350]),
        ph_spec("armario-madeira", "Armario de madeira", "modern_wooden_cabinet", Papel::Rack, &[Ambiente::Apartamento], [1600, 600, 450]),
        ph_spec("gaveteiro", "Gaveteiro", "drawer_cabinet", Papel::Rack, &[Ambiente::Apartamento], [1000, 800, 450]),
        ph_spec("mesa-jantar", "Mesa de jantar", "dining_table", Papel::MesaJantar, &[Ambiente::Apartamento], [1800, 750, 900]),
        ph_spec("cadeira-jantar", "Cadeira de jantar", "dining_chair_02", Papel::CadeiraJantar, &[Ambiente::Apartamento], [450, 900, 500]),
        ph_spec("mesa-redonda", "Mesa redonda", "round_wooden_table_01", Papel::MesaJantar, &[Ambiente::Apartamento, Ambiente::Cafeteria, Ambiente::Rooftop], [1000, 750, 1000]),
        ph_spec("mesa-redonda-2", "Mesa redonda pequena", "round_wooden_table_02", Papel::MesaJantar, &[Ambiente::Cafeteria], [800, 740, 800]),
        ph_spec("banqueta-alta", "Banqueta alta", "bar_chair_round_01", Papel::Banqueta, &[Ambiente::Apartamento, Ambiente::Cafeteria, Ambiente::Rooftop], [400, 1050, 400]),
        ph_spec("banqueta-metal", "Banqueta de metal", "metal_stool_01", Papel::Banqueta, &[Ambiente::Cafeteria], [350, 750, 350]),
        ph_spec("cooktop", "Cooktop / fogao", "electric_stove", Papel::Cooktop, &[Ambiente::Apartamento], [600, 900, 600]),
        ph_spec("micro-ondas", "Micro-ondas", "vintage_microwave", Papel::MicroOndas, &[Ambiente::Apartamento], [500, 300, 380]),
        ph_spec("jogo-cha", "Jogo de cha", "tea_set_01", Papel::JogoDeCha, &[Ambiente::Apartamento, Ambiente::Cafeteria], [350, 150, 300]),
        par_spec("cama-casal", "Cama de casal", Peca::CamaCasal, Papel::CamaCasal, &[Ambiente::Apartamento], [1700, 1000, 2100]),
        par_spec("cama-solteiro", "Cama de solteiro", Peca::CamaSolteiro, Papel::CamaSolteiro, &[Ambiente::Apartamento], [1000, 1000, 2000]),
        par_spec("guarda-roupa", "Guarda-roupa", Peca::GuardaRoupa, Papel::GuardaRoupa, &[Ambiente::Apartamento], [2000, 2400, 640]),
        ph_spec("criado-mudo", "Criado-mudo", "ClassicNightstand_01", Papel::Criado, &[Ambiente::Apartamento], [450, 550, 400]),
        ph_spec("criado-mudo-2", "Criado-mudo pintado", "painted_wooden_nightstand", Papel::Criado, &[Ambiente::Apartamento], [500, 600, 400]),
        ph_spec("relogio-mesa", "Relogio de mesa", "alarm_clock_01", Papel::Relogio, &[Ambiente::Apartamento], [120, 140, 80]),
        par_spec("bancada-cozinha", "Bancada de cozinha com cuba", Peca::BancadaCozinha, Papel::BancadaCozinha, &[Ambiente::Apartamento], [2440, 2200, 640]),
        par_spec("geladeira", "Geladeira", Peca::Geladeira, Papel::Geladeira, &[Ambiente::Apartamento], [700, 1850, 700]),
        par_spec("rack-tv", "Painel de TV", Peca::RackTv, Papel::Tv, &[Ambiente::Apartamento], [1800, 1600, 380]),
        par_spec("tapete", "Tapete", Peca::Tapete, Papel::Tapete, &[Ambiente::Apartamento, Ambiente::Recepcao], [2400, 20, 1700]),
        par_spec("vaso-sanitario", "Vaso sanitario", Peca::VasoSanitario, Papel::VasoSanitario, &[Ambiente::Apartamento], [380, 780, 660]),
        par_spec("cuba-banheiro", "Bancada com cuba", Peca::CubaBanheiro, Papel::CubaBanheiro, &[Ambiente::Apartamento], [940, 1650, 530]),
        par_spec("box-chuveiro", "Box de vidro", Peca::BoxChuveiro, Papel::BoxChuveiro, &[Ambiente::Apartamento], [900, 2000, 900]),
        ph_spec("planta-vaso-1", "Planta em vaso (grande)", "potted_plant_01", Papel::PlantaVaso, &[Ambiente::Apartamento, Ambiente::Recepcao, Ambiente::Cafeteria, Ambiente::Mercado, Ambiente::Rooftop], [600, 1300, 600]),
        ph_spec("planta-vaso-2", "Planta em vaso (media)", "potted_plant_02", Papel::PlantaVaso, &[Ambiente::Apartamento, Ambiente::Recepcao, Ambiente::Cafeteria, Ambiente::Mercado, Ambiente::Rooftop], [500, 900, 500]),
        ph_spec("suculenta", "Suculenta", "potted_plant_04", Papel::PlantaVaso, &[Ambiente::Apartamento, Ambiente::Recepcao, Ambiente::Cafeteria, Ambiente::Mercado, Ambiente::Rooftop], [200, 250, 200]),
        ph_spec("vaso-ceramica-1", "Vaso de ceramica", "ceramic_vase_01", Papel::Vaso, &[Ambiente::Apartamento, Ambiente::Recepcao], [200, 300, 200]),
        ph_spec("vaso-ceramica-2", "Vaso de ceramica alto", "ceramic_vase_03", Papel::Vaso, &[Ambiente::Apartamento, Ambiente::Recepcao], [220, 420, 220]),
        ph_spec("quadro-1", "Quadro emoldurado", "hanging_picture_frame_01", Papel::Quadro, &[Ambiente::Apartamento, Ambiente::Recepcao], [600, 800, 40]),
        ph_spec("quadro-2", "Quadro emoldurado (paisagem)", "hanging_picture_frame_02", Papel::Quadro, &[Ambiente::Apartamento, Ambiente::Recepcao], [900, 600, 40]),
        ph_spec("espelho", "Espelho", "ornate_mirror_01", Papel::Espelho, &[Ambiente::Apartamento], [700, 1100, 50]),
        ph_spec("relogio-parede", "Relogio de parede", "wall_clock", Papel::Relogio, &[Ambiente::Apartamento, Ambiente::Recepcao], [300, 300, 50]),
        ph_spec("luminaria-teto", "Luminaria de teto", "modern_ceiling_lamp_01", Papel::LuminariaPendente, &[Ambiente::Apartamento, Ambiente::Recepcao], [400, 350, 400]),
        ph_spec("pendente-cafe", "Pendente industrial", "hanging_industrial_lamp", Papel::LuminariaPendente, &[Ambiente::Cafeteria], [300, 450, 300]),
        ph_spec("luminaria-mesa", "Luminaria de mesa", "desk_lamp_arm_01", Papel::Luminaria, &[Ambiente::Apartamento], [400, 500, 200]),
        par_spec("balcao-recepcao", "Balcao de recepcao", Peca::BalcaoRecepcao, Papel::BalcaoRecepcao, &[Ambiente::Recepcao], [3080, 1100, 1390]),
        ph_spec("mesa-escritorio", "Mesa de escritorio", "metal_office_desk", Papel::BalcaoRecepcao, &[Ambiente::Recepcao], [1600, 750, 800]),
        ph_spec("banco-modular", "Banco modular", "modular_street_seating", Papel::Banco, &[Ambiente::Recepcao, Ambiente::Rooftop], [1800, 450, 600]),
        ph_spec("balcao-cafe", "Balcao de cafe", "CoffeeCart_01", Papel::BalcaoCafe, &[Ambiente::Cafeteria], [1400, 1100, 700]),
        ph_spec("caixa-registradora", "Caixa registradora", "CashRegister_01", Papel::Caixa, &[Ambiente::Cafeteria, Ambiente::Mercado], [400, 300, 350]),
        ph_spec("prateleira-loja", "Prateleira de loja", "steel_frame_shelves_03", Papel::PrateleiraLoja, &[Ambiente::Mercado, Ambiente::Cafeteria], [1200, 1900, 450]),
        ph_spec("mesa-cadeiras-externa", "Conjunto mesa e cadeiras externo", "outdoor_table_chair_set_01", Papel::MesaExterna, &[Ambiente::Rooftop], [1600, 750, 1000]),
        ph_spec("banco-madeira", "Banco de madeira", "painted_wooden_bench", Papel::Banco, &[Ambiente::Rooftop], [1500, 850, 600]),
        ph_spec("floreira-1", "Floreira", "planter_box_01", Papel::Floreira, &[Ambiente::Rooftop, Ambiente::Recepcao], [1000, 500, 400]),
        ph_spec("floreira-2", "Floreira redonda", "planter_box_02", Papel::Floreira, &[Ambiente::Rooftop, Ambiente::Recepcao], [700, 550, 700]),
        ph_spec("floreira-3", "Floreira alta", "planter_box_03", Papel::Floreira, &[Ambiente::Rooftop, Ambiente::Recepcao], [600, 800, 600]),
        par_spec("espreguicadeira", "Espreguicadeira", Peca::Espreguicadeira, Papel::Espreguicadeira, &[Ambiente::Rooftop], [700, 750, 2000]),
        par_spec("guarda-sol", "Guarda-sol", Peca::GuardaSol, Papel::GuardaSol, &[Ambiente::Rooftop], [2600, 2400, 2600]),
        par_spec("churrasqueira", "Bancada gourmet com churrasqueira", Peca::Churrasqueira, Papel::Churrasqueira, &[Ambiente::Rooftop], [3000, 1100, 700]),
        ph_spec("poltrona-lounge-externa", "Poltrona lounge externa", "GreenChair_01", Papel::Poltronalounge, &[Ambiente::Apartamento, Ambiente::Rooftop], [700, 800, 750]),
    ]
}

/// Item vindo do Poly Haven (CC0).
fn ph(
    chave: &'static str,
    nome: &'static str,
    slug: &'static str,
    papel: Papel,
    ambientes: &'static [Ambiente],
    dimensao_mm: [u32; 3],
) -> (r: Item)
    ensures
        r == ph_spec(chave, nome, slug, papel, ambientes, dimensao_mm),
{
    Item { chave, nome, papel, fonte: Fonte::PolyHaven { slug }, licenca: Licenca::Cc0, ambientes, dimensao_mm }
}

/// Peça gerada pelo ARCZ.
fn par(
    chave: &'static str,
    nome: &'static str,
    peca: Peca,
    papel: Papel,
    ambientes: &'static [Ambiente],
    dimensao_mm: [u32; 3],
) -> (r: Item)
    ensures
        r == par_spec(chave, nome, peca, papel, ambientes, dimensao_mm),
{
    Item { chave, nome, papel, fonte: Fonte::Parametrica(peca), licenca: Licenca::Proprio, ambientes, dimensao_mm }
}

/// O catálogo. Curadoria: linhas retas, madeira clara/média, tecido cinza e
/// off-white.
#[verifier::rlimit(60)]
pub fn catalogo() -> (v: Vec<Item>)
    ensures
        v@ == catalogo_spec(),
{
    let v: Vec<Item> = vec![
        ph("sofa-3-lugares", "Sofa 3 lugares", "sofa_02", Papel::SofaTresLugares, &[Ambiente::Apartamento], [2200, 850, 900]),
        ph("sofa-2-lugares", "Sofa 2 lugares", "sofa_03", Papel::SofaDoisLugares, &[Ambiente::Apartamento], [1700, 850, 900]),
        ph("sofa-modular", "Sofa modular", "Sofa_01", Papel::SofaTresLugares, &[Ambiente::Apartamento, Ambiente::Recepcao], [2400, 800, 950]),
        ph("poltrona-moderna", "Poltrona moderna", "modern_arm_chair_01", Papel::Poltrona, &[Ambiente::Apartamento, Ambiente::Recepcao], [750, 800, 800]),
        ph("poltrona-mid-century", "Poltrona mid-century", "mid_century_lounge_chair", Papel::Poltrona, &[Ambiente::Apartamento, Ambiente::Recepcao], [800, 780, 850]),
        ph("poltrona-braco", "Poltrona de braco", "ArmChair_01", Papel::Poltrona, &[Ambiente::Apartamento], [850, 850, 900]),
        ph("puff", "Puff", "Ottoman_01", Papel::Puff, &[Ambiente::Apartamento], [600, 420, 600]),
        ph("mesa-centro-1", "Mesa de centro retangular", "modern_coffee_table_01", Papel::MesaCentro, &[Ambiente::Apartamento], [1100, 400, 600]),
        ph("mesa-centro-2", "Mesa de centro baixa", "modern_coffee_table_02", Papel::MesaCentro, &[Ambiente::Apartamento], [1200, 350, 650]),
        ph("mesa-centro-redonda", "Mesa de centro redonda", "coffee_table_round_01", Papel::MesaCentro, &[Ambiente::Apartamento, Ambiente::Recepcao], [800, 400, 800]),
        ph("mesa-lateral", "Mesa lateral", "side_table_01", Papel::MesaLateral, &[Ambiente::Apartamento], [450, 500, 450]),
        ph("mesa-lateral-alta", "Mesa lateral alta", "side_table_tall_01", Papel::MesaLateral, &[Ambiente::Apartamento], [400, 650, 400]),
        ph("almofadas", "Almofadas", "throw_pillows_01", Papel::Almofadas, &[Ambiente::Apartamento], [500, 150, 500]),
        ph("livros", "Livros decorativos", "book_encyclopedia_set_01", Papel::Livros, &[Ambiente::Apartamento, Ambiente::Recepcao], [300, 120, 200]),
        ph("estante", "Estante", "Shelf_01", Papel::Estante, &[Ambiente::Apartamento], [900, 1800, 350]),
        ph("armario-madeira", "Armario de madeira", "modern_wooden_cabinet", Papel::Rack, &[Ambiente::Apartamento], [1600, 600, 450]),
        ph("gaveteiro", "Gaveteiro", "drawer_cabinet", Papel::Rack, &[Ambiente::Apartamento], [1000, 800, 450]),
        ph("mesa-jantar", "Mesa de jantar", "dining_table", Papel::MesaJantar, &[Ambiente::Apartamento], [1800, 750, 900]),
        ph("cadeira-jantar", "Cadeira de jantar", "dining_chair_02", Papel::CadeiraJantar, &[Ambiente::Apartamento], [450, 900, 500]),
        ph("mesa-redonda", "Mesa redonda", "round_wooden_table_01", Papel::MesaJantar, &[Ambiente::Apartamento, Ambiente::Cafeteria, Ambiente::Rooftop], [1000, 750, 1000]),
        ph("mesa-redonda-2", "Mesa redonda pequena", "round_wooden_table_02", Papel::MesaJantar, &[Ambiente::Cafeteria], [800, 740, 800]),
        ph("banqueta-alta", "Banqueta alta", "bar_chair_round_01", Papel::Banqueta, &[Ambiente::Apartamento, Ambiente::Cafeteria, Ambiente::Rooftop], [400, 1050, 400]),
        ph("banqueta-metal", "Banqueta de metal", "metal_stool_01", Papel::Banqueta, &[Ambiente::Cafeteria], [350, 750, 350]),
        ph("cooktop", "Cooktop / fogao", "electric_stove", Papel::Cooktop, &[Ambiente::Apartamento], [600, 900, 600]),
        ph("micro-ondas", "Micro-ondas", "vintage_microwave", Papel::MicroOndas, &[Ambiente::Apartamento], [500, 300, 380]),
        ph("jogo-cha", "Jogo de cha", "tea_set_01", Papel::JogoDeCha, &[Ambiente::Apartamento, Ambiente::Cafeteria], [350, 150, 300]),
        par("cama-casal", "Cama de casal", Peca::CamaCasal, Papel::CamaCasal, &[Ambiente::Apartamento], [1700, 1000, 2100]),
        par("cama-solteiro", "Cama de solteiro", Peca::CamaSolteiro, Papel::CamaSolteiro, &[Ambiente::Apartamento], [1000, 1000, 2000]),
        par("guarda-roupa", "Guarda-roupa", Peca::GuardaRoupa, Papel::GuardaRoupa, &[Ambiente::Apartamento], [2000, 2400, 640]),
        ph("criado-mudo", "Criado-mudo", "ClassicNightstand_01", Papel::Criado, &[Ambiente::Apartamento], [450, 550, 400]),
        ph("criado-mudo-2", "Criado-mudo pintado", "painted_wooden_nightstand", Papel::Criado, &[Ambiente::Apartamento], [500, 600, 400]),
        ph("relogio-mesa", "Relogio de mesa", "alarm_clock_01", Papel::Relogio, &[Ambiente::Apartamento], [120, 140, 80]),
        par("bancada-cozinha", "Bancada de cozinha com cuba", Peca::BancadaCozinha, Papel::BancadaCozinha, &[Ambiente::Apartamento], [2440, 2200, 640]),
        par("geladeira", "Geladeira", Peca::Geladeira, Papel::Geladeira, &[Ambiente::Apartamento], [700, 1850, 700]),
        par("rack-tv", "Painel de TV", Peca::RackTv, Papel::Tv, &[Ambiente::Apartamento], [1800, 1600, 380]),
        par("tapete", "Tapete", Peca::Tapete, Papel::Tapete, &[Ambiente::Apartamento, Ambiente::Recepcao], [2400, 20, 1700]),
        par("vaso-sanitario", "Vaso sanitario", Peca::VasoSanitario, Papel::VasoSanitario, &[Ambiente::Apartamento], [380, 780, 660]),
        par("cuba-banheiro", "Bancada com cuba", Peca::CubaBanheiro, Papel::CubaBanheiro, &[Ambiente::Apartamento], [940, 1650, 530]),
        par("box-chuveiro", "Box de vidro", Peca::BoxChuveiro, Papel::BoxChuveiro, &[Ambiente::Apartamento], [900, 2000, 900]),
        ph("planta-vaso-1", "Planta em vaso (grande)", "potted_plant_01", Papel::PlantaVaso, &[Ambiente::Apartamento, Ambiente::Recepcao, Ambiente::Cafeteria, Ambiente::Mercado, Ambiente::Rooftop], [600, 1300, 600]),
        ph("planta-vaso-2", "Planta em vaso (media)", "potted_plant_02", Papel::PlantaVaso, &[Ambiente::Apartamento, Ambiente::Recepcao, Ambiente::Cafeteria, Ambiente::Mercado, Ambiente::Rooftop], [500, 900, 500]),
        ph("suculenta", "Suculenta", "potted_plant_04", Papel::PlantaVaso, &[Ambiente::Apartamento, Ambiente::Recepcao, Ambiente::Cafeteria, Ambiente::Mercado, Ambiente::Rooftop], [200, 250, 200]),
        ph("vaso-ceramica-1", "Vaso de ceramica", "ceramic_vase_01", Papel::Vaso, &[Ambiente::Apartamento, Ambiente::Recepcao], [200, 300, 200]),
        ph("vaso-ceramica-2", "Vaso de ceramica alto", "ceramic_vase_03", Papel::Vaso, &[Ambiente::Apartamento, Ambiente::Recepcao], [220, 420, 220]),
        ph("quadro-1", "Quadro emoldurado", "hanging_picture_frame_01", Papel::Quadro, &[Ambiente::Apartamento, Ambiente::Recepcao], [600, 800, 40]),
        ph("quadro-2", "Quadro emoldurado (paisagem)", "hanging_picture_frame_02", Papel::Quadro, &[Ambiente::Apartamento, Ambiente::Recepcao], [900, 600, 40]),
        ph("espelho", "Espelho", "ornate_mirror_01", Papel::Espelho, &[Ambiente::Apartamento], [700, 1100, 50]),
        ph("relogio-parede", "Relogio de parede", "wall_clock", Papel::Relogio, &[Ambiente::Apartamento, Ambiente::Recepcao], [300, 300, 50]),
        ph("luminaria-teto", "Luminaria de teto", "modern_ceiling_lamp_01", Papel::LuminariaPendente, &[Ambiente::Apartamento, Ambiente::Recepcao], [400, 350, 400]),
        ph("pendente-cafe", "Pendente industrial", "hanging_industrial_lamp", Papel::LuminariaPendente, &[Ambiente::Cafeteria], [300, 450, 300]),
        ph("luminaria-mesa", "Luminaria de mesa", "desk_lamp_arm_01", Papel::Luminaria, &[Ambiente::Apartamento], [400, 500, 200]),
        par("balcao-recepcao", "Balcao de recepcao", Peca::BalcaoRecepcao, Papel::BalcaoRecepcao, &[Ambiente::Recepcao], [3080, 1100, 1390]),
        ph("mesa-escritorio", "Mesa de escritorio", "metal_office_desk", Papel::BalcaoRecepcao, &[Ambiente::Recepcao], [1600, 750, 800]),
        ph("banco-modular", "Banco modular", "modular_street_seating", Papel::Banco, &[Ambiente::Recepcao, Ambiente::Rooftop], [1800, 450, 600]),
        ph("balcao-cafe", "Balcao de cafe", "CoffeeCart_01", Papel::BalcaoCafe, &[Ambiente::Cafeteria], [1400, 1100, 700]),
        ph("caixa-registradora", "Caixa registradora", "CashRegister_01", Papel::Caixa, &[Ambiente::Cafeteria, Ambiente::Mercado], [400, 300, 350]),
        ph("prateleira-loja", "Prateleira de loja", "steel_frame_shelves_03", Papel::PrateleiraLoja, &[Ambiente::Mercado, Ambiente::Cafeteria], [1200, 1900, 450]),
        ph("mesa-cadeiras-externa", "Conjunto mesa e cadeiras externo", "outdoor_table_chair_set_01", Papel::MesaExterna, &[Ambiente::Rooftop], [1600, 750, 1000]),
        ph("banco-madeira", "Banco de madeira", "painted_wooden_bench", Papel::Banco, &[Ambiente::Rooftop], [1500, 850, 600]),
        ph("floreira-1", "Floreira", "planter_box_01", Papel::Floreira, &[Ambiente::Rooftop, Ambiente::Recepcao], [1000, 500, 400]),
        ph("floreira-2", "Floreira redonda", "planter_box_02", Papel::Floreira, &[Ambiente::Rooftop, Ambiente::Recepcao], [700, 550, 700]),
        ph("floreira-3", "Floreira alta", "planter_box_03", Papel::Floreira, &[Ambiente::Rooftop, Ambiente::Recepcao], [600, 800, 600]),
        par("espreguicadeira", "Espreguicadeira", Peca::Espreguicadeira, Papel::Espreguicadeira, &[Ambiente::Rooftop], [700, 750, 2000]),
        par("guarda-sol", "Guarda-sol", Peca::GuardaSol, Papel::GuardaSol, &[Ambiente::Rooftop], [2600, 2400, 2600]),
        par("churrasqueira", "Bancada gourmet com churrasqueira", Peca::Churrasqueira, Papel::Churrasqueira, &[Ambiente::Rooftop], [3000, 1100, 700]),
        ph("poltrona-lounge-externa", "Poltrona lounge externa", "GreenChair_01", Papel::Poltronalounge, &[Ambiente::Apartamento, Ambiente::Rooftop], [700, 800, 750]),
    ];
    assert(v@ =~= catalogo_spec());
    v
}

/// Todo item do catálogo tem a licença da sua origem, e toda licença do catálogo
/// é comercialmente livre.
pub proof fn lei_catalogo_coerente()
    ensures
        catalogo_spec().len() == 66,
        forall|i: int| 0 <= i < catalogo_spec().len() ==> #[trigger] item_coerente(catalogo_spec()[i]),
{
    assert forall|i: int| 0 <= i < catalogo_spec().len() implies #[trigger] item_coerente(catalogo_spec()[i]) by {
        let c = catalogo_spec();
        assert(item_coerente(c[i]));
    }
}

/// Primeiro item de `s`, a partir da posição `k`, cuja chave é `chave`.
pub open spec fn primeiro_com_chave(s: Seq<Item>, chave: Seq<char>, k: int) -> Option<Item>
    decreases s.len() - k,
{
    if k < 0 || k >= s.len() {
        None
    } else if s[k].chave@ == chave {
        Some(s[k])
    } else {
        primeiro_com_chave(s, chave, k + 1)
    }
}

/// `a` e `b` têm o mesmo texto.
pub fn mesmo_texto(a: &str, b: &str) -> (r: bool)
    ensures
        r == (a@ == b@),
{
    a.to_owned() == b.to_owned()
}

/// Procura um item pela chave.
pub fn por_chave(chave: &str) -> (r: Option<Item>)
    ensures
        r == primeiro_com_chave(catalogo_spec(), chave@, 0),
{
    let c = catalogo();
    let mut i: usize = 0;
    while i < c.len()
        invariant
            c@ == catalogo_spec(),
            i <= c.len(),
            primeiro_com_chave(c@, chave@, 0) == primeiro_com_chave(c@, chave@, i as int),
        decreases c.len() - i,
    {
        if mesmo_texto(c[i].chave, chave) {
            return Some(c[i]);
        }
        i = i + 1;
    }
    None
}

/// O item serve para o papel `p`.
pub open spec fn serve_para(p: Papel) -> spec_fn(Item) -> bool {
    |it: Item| it.papel == p
}

/// O item é usado no ambiente `a`.
pub open spec fn usado_em(a: Ambiente) -> spec_fn(Item) -> bool {
    |it: Item| it.ambientes@.contains(a)
}

/// Todos os itens que servem para um papel, na ordem do catálogo.
pub fn por_papel(papel: Papel) -> (r: Vec<Item>)
    ensures
        r@ == catalogo_spec().filter(serve_para(papel)),
{
    let c = catalogo();
    let mut r: Vec<Item> = Vec::new();
    let mut i: usize = 0;
    while i < c.len()
        invariant
            c@ == catalogo_spec(),
            i <= c.len(),
            r@ == c@.take(i as int).filter(serve_para(papel)),
        decreases c.len() - i,
    {
        proof {
            assert(c@.take(i + 1).drop_last() =~= c@.take(i as int));
            reveal(Seq::filter);
        }
        if c[i].papel == papel {
            r.push(c[i]);
        }
        i = i + 1;
    }
    assert(c@.take(c.len() as int) =~= c@);
    r
}

/// O ambiente `a` está na lista `amb`.
fn contem_ambiente(amb: &[Ambiente], a: Ambiente) -> (r: bool)
    ensures
        r == amb@.contains(a),
{
    let mut i: usize = 0;
    while i < amb.len()
        invariant
            i <= amb.len(),
            forall|j: int| 0 <= j < i ==> amb@[j] != a,
        decreases amb.len() - i,
    {
        if amb[i] == a {
            return true;
        }
        i = i + 1;
    }
    false
}

/// Todos os itens usados num ambiente, na ordem do catálogo.
pub fn por_ambiente(amb: Ambiente) -> (r: Vec<Item>)
    ensures
        r@ == catalogo_spec().filter(usado_em(amb)),
{
    let c = catalogo();
    let mut r: Vec<Item> = Vec::new();
    let mut i: usize = 0;
    while i < c.len()
        invariant
            c@ == catalogo_spec(),
            i <= c.len(),
            r@ == c@.take(i as int).filter(usado_em(amb)),
        decreases c.len() - i,
    {
        proof {
            assert(c@.take(i + 1).drop_last() =~= c@.take(i as int));
            reveal(Seq::filter);
        }
        if contem_ambiente(c[i].ambientes, amb) {
            r.push(c[i]);
        }
        i = i + 1;
    }
    assert(c@.take(c.len() as int) =~= c@);
    r
}

} // verus!
