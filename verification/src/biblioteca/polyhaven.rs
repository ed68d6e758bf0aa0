//! Regras do download dos assets CC0 do Poly Haven: URLs, resolução, nomes de
//! arquivo vindos do servidor (entrada não confiável), manifesto e licença.
//!
//! A rede e o disco ficam com quem chama; aqui está o que decide.

use vstd::prelude::*;
use crate::biblioteca::catalogo::{Item, Fonte, texto_spec};
use crate::biblioteca::parametrico::nome_arquivo_spec;
use crate::texto::{chars_de, string_de, concatenar, fatia, hex};
use crate::determinismo::{sha256, sha256_de};

verus! {

/// Resolução de textura pedida ao Poly Haven.
#[derive(Debug, Clone, Copy, PartialEq, Eq, Structural)]
pub enum Resolucao {
    /// ~350 kB por modelo. Suficiente para mobiliário visto de longe.
    R1k,
    /// ~1,3 MB por modelo. Padrão: lê bem em close de interior.
    R2k,
    /// ~5 MB por modelo. Só para peça herói em primeiro plano.
    R4k,
}

/// Chave textual de cada resolução.
pub open spec fn chave_spec(r: Resolucao) -> Seq<char> {
    match r {
        Resolucao::R1k => "1k"@,
        Resolucao::R2k => "2k"@,
        Resolucao::R4k => "4k"@,
    }
}

/// Resolução cuja chave é `s`, se houver.
pub open spec fn de_texto_spec(s: Seq<char>) -> Option<Resolucao> {
    if s == "1k"@ {
        Some(Resolucao::R1k)
    } else if s == "2k"@ {
        Some(Resolucao::R2k)
    } else if s == "4k"@ {
        Some(Resolucao::R4k)
    } else {
        None
    }
}

fn mesmo_texto(a: &str, b: &str) -> (r: bool)
    ensures
        r == (a@ == b@),
{
    a.to_owned() == b.to_owned()
}

impl Resolucao {
    pub fn chave(self) -> (r: &'static str)
        ensures
            r@ == chave_spec(self),
    {
        match self {
            Resolucao::R1k => "1k",
            Resolucao::R2k => "2k",
            Resolucao::R4k => "4k",
        }
    }

    pub fn de_texto(s: &str) -> (r: Option<Resolucao>)
        ensures
            r == de_texto_spec(s@),
    {
        if mesmo_texto(s, "1k") {
            Some(Resolucao::R1k)
        } else if mesmo_texto(s, "2k") {
            Some(Resolucao::R2k)
        } else if mesmo_texto(s, "4k") {
            Some(Resolucao::R4k)
        } else {
            None
        }
    }
}

/// A chave de uma resolução lida de volta dá a mesma resolução.
pub proof fn lei_resolucao_vai_e_volta(r: Resolucao)
    ensures
        de_texto_spec(chave_spec(r)) == Some(r),
{
    reveal_strlit("1k");
    reveal_strlit("2k");
    reveal_strlit("4k");
    assert("1k"@ != "2k"@ && "1k"@ != "4k"@ && "2k"@ != "4k"@) by {
        assert("1k"@[0] != "2k"@[0] && "1k"@[0] != "4k"@[0] && "2k"@[0] != "4k"@[0]);
    }
}

/// Erros das regras da biblioteca.
#[derive(Debug, Clone, PartialEq, Eq)]
pub enum BibliotecaError {
    /// O item não vem do Poly Haven.
    NaoRemoto(String),
    /// O asset não tem glTF em nenhuma resolução; `res` é a pedida.
    SemResolucao { slug: String, res: &'static str },
    /// O caminho dado pelo servidor tenta escapar da pasta do item.
    CaminhoInvalido(String),
    /// Resposta HTTP sem sucesso.
    Http { status: u16, url: String },
}

/// O que foi baixado (ou reaproveitado) para um item.
#[derive(Debug, Clone, PartialEq, Eq)]
pub struct Relatorio {
    pub chave: String,
    pub modelo: String,
    pub arquivos: usize,
    pub bytes: u64,
    /// `true` se já estava em disco e nada foi pela rede.
    pub reaproveitado: bool,
}

/// URL da API de arquivos de um asset.
pub fn url_api(slug: &str) -> (r: String)
    ensures
        r@ == "https://api.polyhaven.com/files/"@ + slug@,
{
    concatenar("https://api.polyhaven.com/files/", slug)
}

/// Página pública do asset, usada no manifesto de licença.
pub open spec fn url_pagina_spec(slug: Seq<char>) -> Seq<char> {
    "https://polyhaven.com/a/"@ + slug
}

/// Página pública do asset, usada no manifesto de licença.
pub fn url_pagina(slug: &str) -> (r: String)
    ensures
        r@ == url_pagina_spec(slug@),
{
    concatenar("https://polyhaven.com/a/", slug)
}

/// Separador de caminho aceito nos nomes vindos do servidor.
pub open spec fn separador(c: char) -> bool {
    c == '/' || c == '\\'
}

/// Uma parte do caminho começa na posição `i`.
pub open spec fn inicia_parte(s: Seq<char>, i: int) -> bool {
    i == 0 || separador(s[i - 1])
}

/// Uma parte do caminho termina antes da posição `j`.
pub open spec fn termina_parte(s: Seq<char>, j: int) -> bool {
    j == s.len() || separador(s[j])
}

/// Há uma parte vazia, `.` ou `..` começando na posição `i`.
pub open spec fn parte_proibida_em(s: Seq<char>, i: int) -> bool {
    &&& 0 <= i <= s.len()
    &&& inicia_parte(s, i)
    &&& {
        ||| termina_parte(s, i)
        ||| (i < s.len() && s[i] == '.' && termina_parte(s, i + 1))
        ||| (i + 1 < s.len() && s[i] == '.' && s[i + 1] == '.' && termina_parte(s, i + 2))
    }
}

/// Caminho relativo recusado: vazio, absoluto, com `:` (unidade ou URL), ou com
/// alguma parte vazia, `.` ou `..`.
pub open spec fn relativo_invalido(s: Seq<char>) -> bool {
    ||| s.len() == 0
    ||| s[0] == '/'
    ||| s[0] == '\\'
    ||| s.contains(':')
    ||| exists|i: int| #[trigger] parte_proibida_em(s, i)
}

/// `\` passa a `/`.
pub open spec fn normalizar(s: Seq<char>) -> Seq<char> {
    s.map_values(|c: char| if c == '\\' { '/' } else { c })
}

/// `pasta` seguida de `rel`, com uma barra entre eles quando `pasta` não está
/// vazia nem termina em barra (o `PathBuf::push` de um caminho relativo).
pub open spec fn juntar(pasta: Seq<char>, rel: Seq<char>) -> Seq<char> {
    if pasta.len() == 0 || pasta.last() == '/' {
        pasta + rel
    } else {
        pasta + seq!['/'] + rel
    }
}

fn parte_proibida_exec(v: &Vec<char>, i: usize) -> (r: bool)
    requires
        i <= v.len(),
    ensures
        r == parte_proibida_em(v@, i as int),
{
    let n = v.len();
    let inicia = i == 0 || v[i - 1] == '/' || v[i - 1] == '\\';
    if !inicia {
        return false;
    }
    let vazia = i == n || v[i] == '/' || v[i] == '\\';
    let ponto = i < n && v[i] == '.' && (i + 1 == n || v[i + 1] == '/' || v[i + 1] == '\\');
    let dois = i < n && i + 1 < n && v[i] == '.' && v[i + 1] == '.'
        && (i + 2 == n || v[i + 2] == '/' || v[i + 2] == '\\');
    vazia || ponto || dois
}

fn relativo_invalido_exec(v: &Vec<char>) -> (r: bool)
    ensures
        r == relativo_invalido(v@),
{
    if v.len() == 0 || v[0] == '/' || v[0] == '\\' {
        return true;
    }
    let mut i: usize = 0;
    while i < v.len()
        invariant
            i <= v.len(),
            forall|j: int| 0 <= j < i ==> v@[j] != ':',
        decreases v.len() - i,
    {
        if v[i] == ':' {
            assert(v@.contains(':')) by { assert(v@[i as int] == ':'); }
            return true;
        }
        i = i + 1;
    }
    let mut k: usize = 0;
    while k < v.len()
        invariant
            k <= v.len(),
            forall|j: int| 0 <= j < k ==> !parte_proibida_em(v@, j),
        decreases v.len() - k,
    {
        if parte_proibida_exec(v, k) {
            return true;
        }
        k = k + 1;
    }
    if parte_proibida_exec(v, v.len()) {
        return true;
    }
    assert(!(exists|j: int| #[trigger] parte_proibida_em(v@, j)));
    false
}

/// Resolve `relativo` dentro de `pasta`, recusando qualquer coisa que escape. O
/// nome vem do servidor: `../../.ssh/id_rsa` não pode virar caminho válido.
pub fn destino_seguro(pasta: &str, relativo: &str) -> (r: Result<String, BibliotecaError>)
    ensures
        match r {
            Ok(d) => !relativo_invalido(relativo@) && d@ == juntar(pasta@, normalizar(relativo@)),
            Err(e) => relativo_invalido(relativo@)
                && (e matches BibliotecaError::CaminhoInvalido(s) && s@ == relativo@),
        },
{
    let rel = chars_de(relativo);
    if relativo_invalido_exec(&rel) {
        return Err(BibliotecaError::CaminhoInvalido(relativo.to_owned()));
    }
    let mut d = chars_de(pasta);
    if d.len() > 0 && d[d.len() - 1] != '/' {
        d.push('/');
    }
    let ghost base = d@;
    let mut i: usize = 0;
    while i < rel.len()
        invariant
            i <= rel.len(),
            d@ == base + normalizar(rel@).take(i as int),
        decreases rel.len() - i,
    {
        let c = if rel[i] == '\\' { '/' } else { rel[i] };
        d.push(c);
        i = i + 1;
        assert(d@ =~= base + normalizar(rel@).take(i as int));
    }
    assert(normalizar(rel@).take(rel.len() as int) =~= normalizar(rel@));
    proof {
        let p = pasta@;
        if p.len() == 0 || p.last() == '/' {
            assert(base == p);
        } else {
            assert(base == p + seq!['/']);
        }
        assert(d@ =~= juntar(pasta@, normalizar(relativo@)));
    }
    Ok(string_de(&d))
}

/// Resolução pedida primeiro, depois as outras da maior para a menor.
pub open spec fn ordem_spec(pedida: Resolucao) -> Seq<Resolucao> {
    match pedida {
        Resolucao::R1k => seq![Resolucao::R1k, Resolucao::R2k, Resolucao::R4k],
        Resolucao::R2k => seq![Resolucao::R2k, Resolucao::R1k, Resolucao::R4k],
        Resolucao::R4k => seq![Resolucao::R4k, Resolucao::R2k, Resolucao::R1k],
    }
}

/// Resolução pedida primeiro, depois as outras da maior para a menor: se o item
/// não tem 2k, cair para 1k mantém o arquivo leve; cair para 4k só acontece quando
/// é a única que existe.
pub fn ordem_de_resolucao(pedida: Resolucao) -> (r: Vec<Resolucao>)
    ensures
        r@ == ordem_spec(pedida),
{
    let mut ordem = vec![pedida];
    let candidatas = [Resolucao::R2k, Resolucao::R1k, Resolucao::R4k];
    let mut i: usize = 0;
    while i < 3
        invariant
            i <= 3,
            candidatas@ == seq![Resolucao::R2k, Resolucao::R1k, Resolucao::R4k],
            ordem@ == seq![pedida] + candidatas@.take(i as int).filter(|r: Resolucao| r != pedida),
        decreases 3 - i,
    {
        proof {
            assert(candidatas@.take(i + 1).drop_last() =~= candidatas@.take(i as int));
            reveal(Seq::filter);
        }
        let r = candidatas[i];
        if r != pedida {
            ordem.push(r);
        }
        i = i + 1;
    }
    proof {
        reveal_with_fuel(Seq::filter, 4);
        assert(candidatas@.take(3) =~= candidatas@);
    }
    assert(ordem@ =~= ordem_spec(pedida));
    ordem
}

/// A ordem começa pela pedida e cobre as três resoluções, cada uma uma vez.
pub proof fn lei_ordem_cobre_todas(pedida: Resolucao, r: Resolucao)
    ensures
        ordem_spec(pedida).len() == 3,
        ordem_spec(pedida)[0] == pedida,
        ordem_spec(pedida).contains(r),
        ordem_spec(pedida).no_duplicates(),
{
    let s = ordem_spec(pedida);
    match r {
        Resolucao::R1k => assert(s[0] == r || s[1] == r || s[2] == r),
        Resolucao::R2k => assert(s[0] == r || s[1] == r || s[2] == r),
        Resolucao::R4k => assert(s[0] == r || s[1] == r || s[2] == r),
    }
}

/// Arquivo escrito ao fim de um download bem-sucedido; só a presença dele diz que
/// a pasta do item está inteira.
pub const MARCADOR: &'static str = ".completo";

/// Início do último trecho de `s[..j]` sem `/`.
pub open spec fn inicio_do_ultimo_trecho(s: Seq<char>, j: int) -> int
    decreases j,
{
    if j <= 0 {
        0
    } else if s[j - 1] == '/' {
        j
    } else {
        inicio_do_ultimo_trecho(s, j - 1)
    }
}

/// O que vem depois da última `/` de `s` (tudo, se não houver barra).
pub open spec fn ultimo_trecho(s: Seq<char>) -> Seq<char> {
    s.subrange(inicio_do_ultimo_trecho(s, s.len() as int), s.len() as int)
}

proof fn lema_inicio_do_ultimo_trecho(s: Seq<char>, j: int)
    requires
        0 <= j <= s.len(),
    ensures
        0 <= inicio_do_ultimo_trecho(s, j) <= j,
    decreases j,
{
    if j > 0 && s[j - 1] != '/' {
        lema_inicio_do_ultimo_trecho(s, j - 1);
    }
}

/// Nome do arquivo principal a partir do seu URL: o que vem depois da última `/`.
pub fn nome_do_url(url: &str) -> (r: String)
    ensures
        r@ == ultimo_trecho(url@),
{
    let v = chars_de(url);
    let mut j: usize = v.len();
    proof { lema_inicio_do_ultimo_trecho(v@, v@.len() as int); }
    while j > 0 && v[j - 1] != '/'
        invariant
            j <= v.len(),
            inicio_do_ultimo_trecho(v@, v@.len() as int) == inicio_do_ultimo_trecho(v@, j as int),
        decreases j,
    {
        j = j - 1;
    }
    let n = fatia(&v, j, v.len());
    string_de(&n)
}

/// Linha do manifesto da biblioteca.
#[derive(Debug, Clone, PartialEq, Eq)]
pub struct LinhaManifesto {
    pub chave: String,
    pub nome: String,
    pub origem: String,
    pub licenca: String,
    pub modelo: String,
    pub sha256: String,
    pub bytes: u64,
}

/// Origem de um item, como vai para o manifesto.
pub open spec fn origem_spec(f: Fonte) -> Seq<char> {
    match f {
        Fonte::PolyHaven { slug } => url_pagina_spec(slug@),
        Fonte::Parametrica(p) => "arcz://parametrico/"@ + nome_arquivo_spec(p),
    }
}

/// Monta a linha de manifesto de um modelo cujos bytes são `dados`.
pub fn linha_manifesto(item: &Item, modelo: &str, dados: &[u8]) -> (r: LinhaManifesto)
    ensures
        r.chave@ == item.chave@,
        r.nome@ == item.nome@,
        r.origem@ == origem_spec(item.fonte),
        r.licenca@ == texto_spec(item.licenca),
        r.modelo@ == modelo@,
        r.sha256@ == hex(sha256_de(dados@)),
        r.bytes == dados@.len(),
{
    let origem = match item.fonte {
        Fonte::PolyHaven { slug } => url_pagina(slug),
        Fonte::Parametrica(p) => concatenar("arcz://parametrico/", p.nome_arquivo()),
    };
    let sha = sha256(dados);
    LinhaManifesto {
        chave: item.chave.to_owned(),
        nome: item.nome.to_owned(),
        origem,
        licenca: item.licenca.texto().to_owned(),
        modelo: modelo.to_owned(),
        sha256: crate::texto::hex_de(sha.as_slice()),
        bytes: dados.len() as u64,
    }
}

/// Texto de `LICENCA.txt` de um item do Poly Haven.
pub open spec fn texto_da_licenca_spec(item: Item, slug: Seq<char>) -> Seq<char> {
    "Item: "@ + item.nome@ + " ("@ + item.chave@ + ")\nLicenca: "@ + texto_spec(item.licenca)
        + "\nOrigem: "@ + url_pagina_spec(slug) + "\nBaixado por: arcz-biblioteca\n\n"@
        + "CC0 1.0 Universal: o autor abriu mao dos direitos patrimoniais. Uso comercial\n"@
        + "livre, sem necessidade de credito. Detalhes: https://creativecommons.org/publicdomain/zero/1.0/\n"@
}

/// Texto de `LICENCA.txt` de um item do Poly Haven.
pub fn texto_da_licenca(item: &Item, slug: &str) -> (r: String)
    ensures
        r@ == texto_da_licenca_spec(*item, slug@),
{
    let mut t = String::new();
    t.append("Item: ");
    t.append(item.nome);
    t.append(" (");
    t.append(item.chave);
    t.append(")\nLicenca: ");
    t.append(item.licenca.texto());
    t.append("\nOrigem: ");
    let pagina = url_pagina(slug);
    t.append(pagina.as_str());
    t.append("\nBaixado por: arcz-biblioteca\n\n");
    t.append("CC0 1.0 Universal: o autor abriu mao dos direitos patrimoniais. Uso comercial\n");
    t.append("livre, sem necessidade de credito. Detalhes: https://creativecommons.org/publicdomain/zero/1.0/\n");
    t
}

/// Cada resolução tem a sua chave (`1k`, `2k`, `4k`), e ler a chave dá a
/// mesma resolução.
pub proof fn lei_tabela_das_resolucoes()
    ensures
        chave_spec(Resolucao::R1k) == "1k"@,
        chave_spec(Resolucao::R2k) == "2k"@,
        chave_spec(Resolucao::R4k) == "4k"@,
        de_texto_spec("1k"@) == Some(Resolucao::R1k),
        de_texto_spec("2k"@) == Some(Resolucao::R2k),
        de_texto_spec("4k"@) == Some(Resolucao::R4k),
{
    reveal_strlit("1k");
    assert("1k"@.len() == 2 && "1k"@[0] == '1' && "1k"@[1] == 'k');
    reveal_strlit("2k");
    assert("2k"@.len() == 2 && "2k"@[0] == '2' && "2k"@[1] == 'k');
    reveal_strlit("4k");
    assert("4k"@.len() == 2 && "4k"@[0] == '4' && "4k"@[1] == 'k');
}

} // verus!
