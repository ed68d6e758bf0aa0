//! Peças geradas pelo próprio ARCZ (as que nenhum acervo CC0 fotorreal cobre).

use vstd::prelude::*;
use crate::workspace::{canonico_desde, lei_slug_de_um_slug, slug_canonico, slug_spec};

verus! {

/// Peça paramétrica, gerada em glTF na medida exata da planta.
#[derive(Debug, Clone, Copy, PartialEq, Eq, Structural)]
pub enum Peca {
    CamaCasal,
    CamaSolteiro,
    GuardaRoupa,
    BancadaCozinha,
    Geladeira,
    RackTv,
    Tapete,
    VasoSanitario,
    CubaBanheiro,
    BoxChuveiro,
    BalcaoRecepcao,
    Espreguicadeira,
    GuardaSol,
    Churrasqueira,
}

/// Nome de arquivo (sem extensão) de cada peça.
pub open spec fn nome_arquivo_spec(p: Peca) -> Seq<char> {
    match p {
        Peca::CamaCasal => "cama-casal"@,
        Peca::CamaSolteiro => "cama-solteiro"@,
        Peca::GuardaRoupa => "guarda-roupa"@,
        Peca::BancadaCozinha => "bancada-cozinha"@,
        Peca::Geladeira => "geladeira"@,
        Peca::RackTv => "rack-tv"@,
        Peca::Tapete => "tapete"@,
        Peca::VasoSanitario => "vaso-sanitario"@,
        Peca::CubaBanheiro => "cuba-banheiro"@,
        Peca::BoxChuveiro => "box-chuveiro"@,
        Peca::BalcaoRecepcao => "balcao-recepcao"@,
        Peca::Espreguicadeira => "espreguicadeira"@,
        Peca::GuardaSol => "guarda-sol"@,
        Peca::Churrasqueira => "churrasqueira"@,
    }
}

/// Todas as peças, na ordem da declaração.
pub open spec fn todas_spec() -> Seq<Peca> {
    seq![
        Peca::CamaCasal,
        Peca::CamaSolteiro,
        Peca::GuardaRoupa,
        Peca::BancadaCozinha,
        Peca::Geladeira,
        Peca::RackTv,
        Peca::Tapete,
        Peca::VasoSanitario,
        Peca::CubaBanheiro,
        Peca::BoxChuveiro,
        Peca::BalcaoRecepcao,
        Peca::Espreguicadeira,
        Peca::GuardaSol,
        Peca::Churrasqueira,
    ]
}

impl Peca {
    /// Nome do arquivo `.glb` da peça, sem extensão.
    pub fn nome_arquivo(self) -> (r: &'static str)
        ensures
            r@ == nome_arquivo_spec(self),
    {
        match self {
            Peca::CamaCasal => "cama-casal",
            Peca::CamaSolteiro => "cama-solteiro",
            Peca::GuardaRoupa => "guarda-roupa",
            Peca::BancadaCozinha => "bancada-cozinha",
            Peca::Geladeira => "geladeira",
            Peca::RackTv => "rack-tv",
            Peca::Tapete => "tapete",
            Peca::VasoSanitario => "vaso-sanitario",
            Peca::CubaBanheiro => "cuba-banheiro",
            Peca::BoxChuveiro => "box-chuveiro",
            Peca::BalcaoRecepcao => "balcao-recepcao",
            Peca::Espreguicadeira => "espreguicadeira",
            Peca::GuardaSol => "guarda-sol",
            Peca::Churrasqueira => "churrasqueira",
        }
    }

    /// Todas as peças, para gerar a biblioteca inteira de uma vez.
    pub fn todas() -> (r: Vec<Peca>)
        ensures
            r@ == todas_spec(),
    {
        let r = vec![
            Peca::CamaCasal,
            Peca::CamaSolteiro,
            Peca::GuardaRoupa,
            Peca::BancadaCozinha,
            Peca::Geladeira,
            Peca::RackTv,
            Peca::Tapete,
            Peca::VasoSanitario,
            Peca::CubaBanheiro,
            Peca::BoxChuveiro,
            Peca::BalcaoRecepcao,
            Peca::Espreguicadeira,
            Peca::GuardaSol,
            Peca::Churrasqueira,
        ];
        r
    }
}

/// Nomes de arquivo distintos: cada peça tem o seu `.glb`.
pub proof fn lei_nomes_de_arquivo_distintos(a: Peca, b: Peca)
    requires
        a != b,
    ensures
        nome_arquivo_spec(a) != nome_arquivo_spec(b),
{
    reveal_strlit("cama-casal");
    reveal_strlit("cama-solteiro");
    reveal_strlit("guarda-roupa");
    reveal_strlit("bancada-cozinha");
    reveal_strlit("geladeira");
    reveal_strlit("rack-tv");
    reveal_strlit("tapete");
    reveal_strlit("vaso-sanitario");
    reveal_strlit("cuba-banheiro");
    reveal_strlit("box-chuveiro");
    reveal_strlit("balcao-recepcao");
    reveal_strlit("espreguicadeira");
    reveal_strlit("guarda-sol");
    reveal_strlit("churrasqueira");
    let (x, y) = (nome_arquivo_spec(a), nome_arquivo_spec(b));
    if x == y {
        assert(x.len() == y.len() && x[0] == y[0] && x[1] == y[1] && x[2] == y[2]);
        assert(false);
    }
}

/// Todo nome de arquivo de peça é um slug canônico — não vazio, só letras
/// minúsculas, dígitos e `-` entre palavras — e portanto igual ao próprio slug.
pub proof fn lei_nome_de_arquivo_e_slug(p: Peca)
    ensures
        slug_canonico(nome_arquivo_spec(p)),
        slug_spec(nome_arquivo_spec(p)) == nome_arquivo_spec(p),
{
    reveal_strlit("cama-casal");
    reveal_strlit("cama-solteiro");
    reveal_strlit("guarda-roupa");
    reveal_strlit("bancada-cozinha");
    reveal_strlit("geladeira");
    reveal_strlit("rack-tv");
    reveal_strlit("tapete");
    reveal_strlit("vaso-sanitario");
    reveal_strlit("cuba-banheiro");
    reveal_strlit("box-chuveiro");
    reveal_strlit("balcao-recepcao");
    reveal_strlit("espreguicadeira");
    reveal_strlit("guarda-sol");
    reveal_strlit("churrasqueira");
    reveal_with_fuel(canonico_desde, 17);
    assert(slug_canonico(nome_arquivo_spec(p)));
    lei_slug_de_um_slug(nome_arquivo_spec(p));
}

/// Cada peça paramétrica tem o seu nome de arquivo fixo.
pub proof fn lei_tabela_das_pecas()
    ensures
        nome_arquivo_spec(Peca::CamaCasal) == "cama-casal"@,
        nome_arquivo_spec(Peca::CamaSolteiro) == "cama-solteiro"@,
        nome_arquivo_spec(Peca::GuardaRoupa) == "guarda-roupa"@,
        nome_arquivo_spec(Peca::BancadaCozinha) == "bancada-cozinha"@,
        nome_arquivo_spec(Peca::Geladeira) == "geladeira"@,
        nome_arquivo_spec(Peca::RackTv) == "rack-tv"@,
        nome_arquivo_spec(Peca::Tapete) == "tapete"@,
        nome_arquivo_spec(Peca::VasoSanitario) == "vaso-sanitario"@,
        nome_arquivo_spec(Peca::CubaBanheiro) == "cuba-banheiro"@,
        nome_arquivo_spec(Peca::BoxChuveiro) == "box-chuveiro"@,
        nome_arquivo_spec(Peca::BalcaoRecepcao) == "balcao-recepcao"@,
        nome_arquivo_spec(Peca::Espreguicadeira) == "espreguicadeira"@,
        nome_arquivo_spec(Peca::GuardaSol) == "guarda-sol"@,
        nome_arquivo_spec(Peca::Churrasqueira) == "churrasqueira"@,
{
}

} // verus!
