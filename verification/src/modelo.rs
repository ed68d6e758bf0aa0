//! Modelo 3D importado: erros, texturas, faixas de índices e a leitura do
//! georreferenciamento que o SketchUp grava no KML (`<Model><Location>...`).
//!
//! Aqui fica a localização dos campos no texto; a conversão dos números e a
//! leitura do arquivo ficam com quem chama.

use std::io::Read;
use vstd::prelude::*;
use crate::texto::{chars_de, string_de, encontrar, fatia, primeira, empurrar_texto};

verus! {

/// Erros da importação de modelos que não dependem do sistema de arquivos.
#[derive(Debug, Clone, PartialEq, Eq)]
pub enum ModelError {
    /// O arquivo não contém nenhuma malha triangular.
    SemMalha,
    /// Primitiva sem atributo POSITION.
    SemPosicao,
    /// Não foi possível reabrir o arquivo.
    Formato(String),
    /// Extensão de arquivo que o ARCZ não lê.
    ExtensaoDesconhecida(String),
}

/// Textura em RGBA8, pronta para virar textura de GPU.
#[derive(Debug, Clone)]
pub struct Textura {
    pub nome: String,
    pub largura: u32,
    pub altura: u32,
    pub rgba: Vec<u8>,
}

impl Textura {
    /// Bytes ocupados pelos pixels.
    pub fn bytes(&self) -> (r: usize)
        ensures
            r == self.rgba@.len(),
    {
        self.rgba.len()
    }
}

/// Formato dos pixels de uma imagem embutida num modelo, nos canais inteiros de
/// 8 e 16 bits. (Os formatos de ponto flutuante chegam já convertidos para os de
/// 8 bits correspondentes.)
#[derive(Debug, Clone, Copy, PartialEq, Eq, Structural)]
pub enum FormatoImagem {
    R8,
    R8G8,
    R8G8B8,
    R8G8B8A8,
    R16,
    R16G16,
    R16G16B16,
    R16G16B16A16,
}

/// Bytes de um pixel em cada formato.
pub open spec fn bytes_por_pixel(f: FormatoImagem) -> nat {
    match f {
        FormatoImagem::R8 => 1,
        FormatoImagem::R8G8 => 2,
        FormatoImagem::R8G8B8 => 3,
        FormatoImagem::R8G8B8A8 => 4,
        FormatoImagem::R16 => 2,
        FormatoImagem::R16G16 => 4,
        FormatoImagem::R16G16B16 => 6,
        FormatoImagem::R16G16B16A16 => 8,
    }
}

/// RGBA de um pixel `b`: o cinza se replica nos três canais de cor, a falta de
/// alfa vira opaco (255), e dos canais de 16 bits fica o byte alto.
pub open spec fn rgba_do_pixel(f: FormatoImagem, b: Seq<u8>) -> Seq<u8> {
    match f {
        FormatoImagem::R8 => seq![b[0], b[0], b[0], 255u8],
        FormatoImagem::R8G8 => seq![b[0], b[0], b[0], b[1]],
        FormatoImagem::R8G8B8 => seq![b[0], b[1], b[2], 255u8],
        FormatoImagem::R8G8B8A8 => seq![b[0], b[1], b[2], b[3]],
        FormatoImagem::R16 => seq![b[1], b[1], b[1], 255u8],
        FormatoImagem::R16G16 => seq![b[1], b[1], b[1], b[3]],
        FormatoImagem::R16G16B16 => seq![b[1], b[3], b[5], 255u8],
        FormatoImagem::R16G16B16A16 => seq![b[1], b[3], b[5], b[7]],
    }
}

/// RGBA dos pixels completos de `p`, em ordem; uma sobra menor que um pixel é
/// ignorada.
pub open spec fn rgba_dos_pixels(f: FormatoImagem, p: Seq<u8>) -> Seq<u8>
    decreases p.len(),
{
    let n = bytes_por_pixel(f);
    if p.len() < n {
        Seq::empty()
    } else {
        rgba_do_pixel(f, p.take(n as int)) + rgba_dos_pixels(f, p.skip(n as int))
    }
}

/// RGBA8 de todos os bytes da imagem: em RGBA8 os bytes passam inteiros (uma
/// sobra menor que um pixel fica); nos demais formatos, os pixels completos.
pub open spec fn rgba_expandido(f: FormatoImagem, p: Seq<u8>) -> Seq<u8> {
    if f == FormatoImagem::R8G8B8A8 {
        p
    } else {
        rgba_dos_pixels(f, p)
    }
}

/// `s` com exatamente `n` bytes: cortado, ou completado com 255.
pub open spec fn com_tamanho(s: Seq<u8>, n: nat) -> Seq<u8> {
    if s.len() >= n {
        s.take(n as int)
    } else {
        s + Seq::new((n - s.len()) as nat, |_i: int| 255u8)
    }
}

fn rgba_do_pixel_exec(f: FormatoImagem, p: &[u8], i: usize, saida: &mut Vec<u8>)
    requires
        i + bytes_por_pixel(f) <= p@.len(),
    ensures
        final(saida)@ == old(saida)@ + rgba_do_pixel(f, p@.skip(i as int).take(bytes_por_pixel(f) as int)),
{
    let ghost b = p@.skip(i as int).take(bytes_por_pixel(f) as int);
    assert(p@.len() == p.len());
    let (c0, c1, c2, c3): (u8, u8, u8, u8) = match f {
        FormatoImagem::R8 => (p[i], p[i], p[i], 255u8),
        FormatoImagem::R8G8 => (p[i], p[i], p[i], p[i + 1]),
        FormatoImagem::R8G8B8 => (p[i], p[i + 1], p[i + 2], 255u8),
        FormatoImagem::R8G8B8A8 => (p[i], p[i + 1], p[i + 2], p[i + 3]),
        FormatoImagem::R16 => (p[i + 1], p[i + 1], p[i + 1], 255u8),
        FormatoImagem::R16G16 => (p[i + 1], p[i + 1], p[i + 1], p[i + 3]),
        FormatoImagem::R16G16B16 => (p[i + 1], p[i + 3], p[i + 5], 255u8),
        FormatoImagem::R16G16B16A16 => (p[i + 1], p[i + 3], p[i + 5], p[i + 7]),
    };
    saida.push(c0);
    saida.push(c1);
    saida.push(c2);
    saida.push(c3);
    assert(saida@ =~= old(saida)@ + rgba_do_pixel(f, b));
}

fn copia_dos_bytes(p: &[u8]) -> (r: Vec<u8>)
    ensures
        r@ == p@,
{
    let mut r: Vec<u8> = Vec::new();
    let mut i: usize = 0;
    while i < p.len()
        invariant
            i <= p@.len(),
            r@ == p@.take(i as int),
        decreases p.len() - i,
    {
        r.push(p[i]);
        i = i + 1;
        assert(r@ =~= p@.take(i as int));
    }
    assert(p@.take(p@.len() as int) =~= p@);
    r
}

fn pixels_completos(f: FormatoImagem, pixels: &[u8]) -> (r: Vec<u8>)
    ensures
        r@ == rgba_dos_pixels(f, pixels@),
{
    let n: usize = match f {
        FormatoImagem::R8 => 1,
        FormatoImagem::R8G8 => 2,
        FormatoImagem::R8G8B8 => 3,
        FormatoImagem::R8G8B8A8 => 4,
        FormatoImagem::R16 => 2,
        FormatoImagem::R16G16 => 4,
        FormatoImagem::R16G16B16 => 6,
        FormatoImagem::R16G16B16A16 => 8,
    };
    assert(n == bytes_por_pixel(f));
    let mut r: Vec<u8> = Vec::new();
    let mut i: usize = 0;
    assert(pixels@.skip(0) =~= pixels@);
    while i <= pixels.len() && n <= pixels.len() - i
        invariant
            n == bytes_por_pixel(f),
            i <= pixels@.len(),
            r@ + rgba_dos_pixels(f, pixels@.skip(i as int)) == rgba_dos_pixels(f, pixels@),
        decreases pixels@.len() - i,
    {
        let ghost resto = pixels@.skip(i as int);
        let ghost antes = r@;
        rgba_do_pixel_exec(f, pixels, i, &mut r);
        proof {
            assert(resto.skip(n as int) =~= pixels@.skip(i + n));
            assert(resto.take(n as int) =~= pixels@.skip(i as int).take(n as int));
            assert(rgba_dos_pixels(f, resto) == rgba_do_pixel(f, resto.take(n as int)) + rgba_dos_pixels(f, resto.skip(n as int)));
            assert(r@ + rgba_dos_pixels(f, pixels@.skip(i + n)) =~= antes + rgba_dos_pixels(f, resto));
        }
        i = i + n;
    }
    proof {
        assert(pixels@.skip(i as int).len() < n);
        assert(rgba_dos_pixels(f, pixels@.skip(i as int)) =~= Seq::<u8>::empty());
        assert(r@ =~= rgba_dos_pixels(f, pixels@));
    }
    r
}

/// Expande os pixels de uma imagem para RGBA8 e deixa o resultado com
/// `largura * altura * 4` bytes: um arquivo truncado é completado com 255 (fica
/// visível na tela em vez de virar textura preta), um com sobra é cortado.
pub fn expandir_para_rgba(f: FormatoImagem, pixels: &[u8], largura: u32, altura: u32) -> (r: Vec<u8>)
    requires
        largura * altura * 4 <= usize::MAX,
    ensures
        r@ == com_tamanho(rgba_expandido(f, pixels@), (largura * altura * 4) as nat),
{
    let mut r: Vec<u8> = if matches!(f, FormatoImagem::R8G8B8A8) {
        copia_dos_bytes(pixels)
    } else {
        pixels_completos(f, pixels)
    };
    let alvo: usize = (largura as usize) * (altura as usize) * 4;
    if r.len() >= alvo {
        r.truncate(alvo);
        assert(r@ =~= com_tamanho(rgba_expandido(f, pixels@), alvo as nat));
    } else {
        let ghost base = r@;
        while r.len() < alvo
            invariant
                base.len() <= r@.len() <= alvo,
                r@ == base + Seq::new((r@.len() - base.len()) as nat, |_i: int| 255u8),
            decreases alvo - r@.len(),
        {
            r.push(255u8);
            assert(r@ =~= base + Seq::new((r@.len() - base.len()) as nat, |_i: int| 255u8));
        }
    }
    r
}

/// RGBA8 de uma imagem `largura × altura` reduzida para `nova_largura ×
/// nova_altura` com o filtro triangular da crate `image`.
pub uninterp spec fn reduzido(rgba: Seq<u8>, largura: u32, altura: u32, nova_largura: u32, nova_altura: u32) -> Seq<u8>;

/// Chama `image::RgbaImage::from_raw` e `image::imageops::resize` com o filtro
/// `Triangle`. Afirma que o resultado é a imagem reduzida dos bytes dados (um valor
/// que depende só dos argumentos) e que tem `nova_largura * nova_altura * 4` bytes;
/// a conta do filtro não é descrita aqui. Com o tamanho exigido, `from_raw` nunca
/// recusa o buffer.
#[verifier::external_body]
pub(crate) fn reduzir_rgba(rgba: Vec<u8>, largura: u32, altura: u32, nova_largura: u32, nova_altura: u32) -> (r: Vec<u8>)
    requires
        rgba@.len() == largura * altura * 4,
        nova_largura * nova_altura * 4 <= usize::MAX,
    ensures
        r@ == reduzido(rgba@, largura, altura, nova_largura, nova_altura),
        r@.len() == nova_largura * nova_altura * 4,
{
    match image::RgbaImage::from_raw(largura, altura, rgba) {
        Some(buf) => image::imageops::resize(&buf, nova_largura, nova_altura, image::imageops::FilterType::Triangle).into_raw(),
        None => Vec::new(),
    }
}

/// Textura com os pixels reduzidos para as dimensões novas (calculadas por quem
/// chama a partir do limite de lado).
pub fn textura_reduzida(nome: String, rgba: Vec<u8>, largura: u32, altura: u32, nova_largura: u32, nova_altura: u32)
    -> (r: Textura)
    requires
        rgba@.len() == largura * altura * 4,
        nova_largura * nova_altura * 4 <= usize::MAX,
    ensures
        r.nome == nome,
        r.largura == nova_largura,
        r.altura == nova_altura,
        r.rgba@ == reduzido(rgba@, largura, altura, nova_largura, nova_altura),
        r.rgba@.len() == nova_largura * nova_altura * 4,
{
    let pixels = reduzir_rgba(rgba, largura, altura, nova_largura, nova_altura);
    Textura { nome, largura: nova_largura, altura: nova_altura, rgba: pixels }
}

/// A textura precisa ser reduzida: o lado maior passa de `max_lado` e a imagem
/// não é vazia.
pub fn precisa_reduzir(largura: u32, altura: u32, max_lado: u32) -> (r: bool)
    ensures
        r == !((if largura >= altura { largura } else { altura }) <= max_lado || largura == 0 || altura == 0),
{
    let maior = if largura >= altura { largura } else { altura };
    !(maior <= max_lado || largura == 0 || altura == 0)
}

/// Faixa de índices que compartilha o mesmo material.
#[derive(Debug, Clone, Copy, PartialEq, Eq, Structural)]
pub struct Submesh {
    pub material: usize,
    pub offset: u32,
    pub count: u32,
}

/// Os índices de cada grupo, como sequências.
pub open spec fn vistas_dos_grupos(g: Seq<Vec<u32>>) -> Seq<Seq<u32>> {
    g.map_values(|v: Vec<u32>| v@)
}

/// Nenhum grupo tem índices: a malha não tem triângulos.
pub open spec fn sem_triangulos_spec(g: Seq<Seq<u32>>) -> bool {
    forall|i: int| 0 <= i < g.len() ==> #[trigger] g[i].len() == 0
}

/// A malha não tem nenhum triângulo: toda lista de índices está vazia.
pub fn sem_triangulos(grupos: &[Vec<u32>]) -> (r: bool)
    ensures
        r == sem_triangulos_spec(vistas_dos_grupos(grupos@)),
{
    let ghost g = vistas_dos_grupos(grupos@);
    let mut i: usize = 0;
    while i < grupos.len()
        invariant
            i <= grupos.len(),
            g == vistas_dos_grupos(grupos@),
            forall|t: int| 0 <= t < i ==> #[trigger] g[t].len() == 0,
        decreases grupos.len() - i,
    {
        if grupos[i].len() > 0 {
            assert(g[i as int].len() > 0);
            return false;
        }
        i = i + 1;
    }
    true
}

/// Um modelo importado precisa de vértices e de ao menos um triângulo; senão a
/// importação falha com `SemMalha`.
pub fn conferir_malha(sem_vertices: bool, por_material: &[Vec<u32>]) -> (r: Result<(), ModelError>)
    ensures
        r is Err <==> sem_vertices || sem_triangulos_spec(vistas_dos_grupos(por_material@)),
        r is Err ==> r == Err::<(), ModelError>(ModelError::SemMalha),
{
    if sem_vertices || sem_triangulos(por_material) {
        Err(ModelError::SemMalha)
    } else {
        Ok(())
    }
}

/// Os índices de todos os grupos, um grupo depois do outro.
pub open spec fn concatenados(g: Seq<Seq<u32>>) -> Seq<u32>
    decreases g.len(),
{
    if g.len() == 0 { Seq::empty() } else { concatenados(g.drop_last()) + g.last() }
}

/// Uma faixa para cada material que tem índices, na ordem dos materiais: cada
/// faixa começa onde os grupos anteriores terminam no buffer concatenado, com
/// posição e tamanho guardados em `u32`.
pub open spec fn faixas_por_material(g: Seq<Seq<u32>>) -> Seq<Submesh>
    decreases g.len(),
{
    if g.len() == 0 {
        Seq::empty()
    } else {
        let r = faixas_por_material(g.drop_last());
        if g.last().len() == 0 {
            r
        } else {
            r.push(Submesh {
                material: (g.len() - 1) as usize,
                offset: concatenados(g.drop_last()).len() as u32,
                count: g.last().len() as u32,
            })
        }
    }
}

/// Concatena os índices agrupados por material num buffer único e devolve, com
/// ele, uma faixa por material não vazio.
pub fn juntar_por_material(por_material: &[Vec<u32>]) -> (r: (Vec<u32>, Vec<Submesh>))
    ensures
        r.0@ == concatenados(vistas_dos_grupos(por_material@)),
        r.1@ == faixas_por_material(vistas_dos_grupos(por_material@)),
{
    let ghost g = vistas_dos_grupos(por_material@);
    let mut indices: Vec<u32> = Vec::new();
    let mut faixas: Vec<Submesh> = Vec::new();
    let mut k: usize = 0;
    assert(g.take(0) =~= Seq::<Seq<u32>>::empty());
    while k < por_material.len()
        invariant
            k <= por_material.len(),
            g == vistas_dos_grupos(por_material@),
            indices@ == concatenados(g.take(k as int)),
            faixas@ == faixas_por_material(g.take(k as int)),
        decreases por_material.len() - k,
    {
        let grupo = &por_material[k];
        assert(g.take(k + 1).drop_last() =~= g.take(k as int));
        assert(g.take(k + 1).last() == grupo@);
        if grupo.len() > 0 {
            faixas.push(Submesh { material: k, offset: indices.len() as u32, count: grupo.len() as u32 });
        }
        let ghost base = indices@;
        let mut j: usize = 0;
        while j < grupo.len()
            invariant
                j <= grupo.len(),
                indices@ == base + grupo@.take(j as int),
            decreases grupo.len() - j,
        {
            indices.push(grupo[j]);
            assert(indices@ =~= base + grupo@.take(j + 1));
            j = j + 1;
        }
        assert(grupo@.take(grupo.len() as int) =~= grupo@);
        k = k + 1;
    }
    assert(g.take(por_material.len() as int) =~= g);
    (indices, faixas)
}

/// Extensões glTF que só afetam o material: recusar o arquivo por elas faria a
/// peça sumir da cena, quando o que se perde é só o modelo de reflexão.
pub open spec fn extensoes_so_de_material() -> Seq<Seq<char>> {
    seq![
        "KHR_materials_pbrSpecularGlossiness"@,
        "KHR_materials_specular"@,
        "KHR_materials_sheen"@,
        "KHR_materials_clearcoat"@,
        "KHR_materials_transmission"@,
        "KHR_materials_volume"@,
        "KHR_materials_ior"@,
        "KHR_materials_iridescence"@,
        "KHR_materials_anisotropy"@,
        "KHR_materials_emissive_strength"@,
    ]
}

/// `p` aparece em `s`.
pub open spec fn contem(s: Seq<char>, p: Seq<char>) -> bool {
    primeira(s, p) is Some
}

fn contem_exec(s: &Vec<char>, p: &str) -> (r: bool)
    ensures
        r == contem(s@, p@),
{
    let pv = chars_de(p);
    encontrar(s, &pv, 0).is_some()
}

/// A mensagem de erro do importador é de "extensão não suportada" de uma extensão
/// que só afeta material.
pub open spec fn extensao_so_de_material_spec(texto: Seq<char>) -> bool {
    contem(texto, "Unsupported extension"@)
        && exists|i: int| 0 <= i < 10 && #[trigger] contem(texto, extensoes_so_de_material()[i])
}

/// Decide, pela mensagem do erro do importador glTF, se o arquivo foi recusado só
/// por uma extensão de material (e pode ser reimportado sem ela).
pub fn extensao_apenas_de_material(mensagem: &str) -> (r: bool)
    ensures
        r == extensao_so_de_material_spec(mensagem@),
{
    let t = chars_de(mensagem);
    if !contem_exec(&t, "Unsupported extension") {
        return false;
    }
    let ghost l = extensoes_so_de_material();
    let achou =
        contem_exec(&t, "KHR_materials_pbrSpecularGlossiness")
        || contem_exec(&t, "KHR_materials_specular")
        || contem_exec(&t, "KHR_materials_sheen")
        || contem_exec(&t, "KHR_materials_clearcoat")
        || contem_exec(&t, "KHR_materials_transmission")
        || contem_exec(&t, "KHR_materials_volume")
        || contem_exec(&t, "KHR_materials_ior")
        || contem_exec(&t, "KHR_materials_iridescence")
        || contem_exec(&t, "KHR_materials_anisotropy")
        || contem_exec(&t, "KHR_materials_emissive_strength");
    proof {
        if achou {
            if contem(t@, l[0]) {} else if contem(t@, l[1]) {} else if contem(t@, l[2]) {}
            else if contem(t@, l[3]) {} else if contem(t@, l[4]) {} else if contem(t@, l[5]) {}
            else if contem(t@, l[6]) {} else if contem(t@, l[7]) {} else if contem(t@, l[8]) {}
            else { assert(contem(t@, l[9])); }
        } else {
            assert forall|i: int| 0 <= i < 10 implies !#[trigger] contem(t@, l[i]) by {
                if i == 0 {} else if i == 1 {} else if i == 2 {} else if i == 3 {} else if i == 4 {}
                else if i == 5 {} else if i == 6 {} else if i == 7 {} else if i == 8 {} else {}
            }
        }
    }
    achou
}

/// Trecho de `t` da primeira ocorrência de `ini` até (sem incluir) a primeira
/// ocorrência de `fim` depois dela.
pub open spec fn recortar_spec(t: Seq<char>, ini: Seq<char>, fim: Seq<char>) -> Option<Seq<char>> {
    match primeira(t, ini) {
        None => None,
        Some(a) => {
            let resto = t.subrange(a, t.len() as int);
            match primeira(resto, fim) {
                None => None,
                Some(b) => Some(resto.subrange(0, b)),
            }
        },
    }
}

fn recortar_v(v: &Vec<char>, inicio: &str, fim: &str) -> (r: Option<Vec<char>>)
    ensures
        match r {
            Some(s) => recortar_spec(v@, inicio@, fim@) == Some(s@),
            None => recortar_spec(v@, inicio@, fim@) is None,
        },
{
    let pi = chars_de(inicio);
    let pf = chars_de(fim);
    match encontrar(v, &pi, 0) {
        None => None,
        Some(a) => {
            let resto = fatia(v, a, v.len());
            match encontrar(&resto, &pf, 0) {
                None => None,
                Some(b) => Some(fatia(&resto, 0, b)),
            }
        },
    }
}

/// Recorta o trecho entre a abertura de `inicio` e o fechamento `fim`.
pub fn recortar(texto: &str, inicio: &str, fim: &str) -> (r: Option<String>)
    ensures
        match r {
            Some(s) => recortar_spec(texto@, inicio@, fim@) == Some(s@),
            None => recortar_spec(texto@, inicio@, fim@) is None,
        },
{
    let v = chars_de(texto);
    match recortar_v(&v, inicio, fim) {
        Some(s) => Some(string_de(&s)),
        None => None,
    }
}

/// Espaço em branco Unicode (a propriedade `White_Space`, a mesma de `str::trim`).
pub open spec fn espaco_branco(c: char) -> bool {
    ('\u{9}' <= c && c <= '\u{d}') || c == ' ' || c == '\u{85}' || c == '\u{a0}' || c == '\u{1680}'
        || ('\u{2000}' <= c && c <= '\u{200a}') || c == '\u{2028}' || c == '\u{2029}'
        || c == '\u{202f}' || c == '\u{205f}' || c == '\u{3000}'
}

fn espaco_branco_exec(c: char) -> (r: bool)
    ensures
        r == espaco_branco(c),
{
    ('\u{9}' <= c && c <= '\u{d}') || c == ' ' || c == '\u{85}' || c == '\u{a0}' || c == '\u{1680}'
        || ('\u{2000}' <= c && c <= '\u{200a}') || c == '\u{2028}' || c == '\u{2029}'
        || c == '\u{202f}' || c == '\u{205f}' || c == '\u{3000}'
}

/// Primeira posição a partir de `i` que não é espaço (ou o fim).
pub open spec fn primeiro_util(s: Seq<char>, i: int) -> int
    decreases s.len() - i,
{
    if i < 0 || i >= s.len() {
        s.len() as int
    } else if espaco_branco(s[i]) {
        primeiro_util(s, i + 1)
    } else {
        i
    }
}

/// Fim do trecho útil: recua de `j` sobre espaços, sem passar de `lo`.
pub open spec fn fim_util(s: Seq<char>, j: int, lo: int) -> int
    decreases j - lo,
{
    if j <= lo || j > s.len() {
        lo
    } else if espaco_branco(s[j - 1]) {
        fim_util(s, j - 1, lo)
    } else {
        j
    }
}

/// `s` sem os espaços das pontas.
pub open spec fn aparar(s: Seq<char>) -> Seq<char> {
    let a = primeiro_util(s, 0);
    s.subrange(a, fim_util(s, s.len() as int, a))
}

proof fn lema_primeiro_util(s: Seq<char>, i: int)
    requires
        0 <= i <= s.len(),
    ensures
        i <= primeiro_util(s, i) <= s.len(),
    decreases s.len() - i,
{
    if i < s.len() && espaco_branco(s[i]) {
        lema_primeiro_util(s, i + 1);
    }
}

proof fn lema_fim_util(s: Seq<char>, j: int, lo: int)
    requires
        0 <= lo <= j <= s.len(),
    ensures
        lo <= fim_util(s, j, lo) <= j,
    decreases j - lo,
{
    if j > lo && espaco_branco(s[j - 1]) {
        lema_fim_util(s, j - 1, lo);
    }
}

/// `v` sem os espaços das pontas.
pub fn aparar_chars(v: &Vec<char>) -> (r: Vec<char>)
    ensures
        r@ == aparar(v@),
{
    let mut a: usize = 0;
    proof { lema_primeiro_util(v@, 0); }
    while a < v.len() && espaco_branco_exec(v[a])
        invariant
            a <= v.len(),
            primeiro_util(v@, 0) == primeiro_util(v@, a as int),
        decreases v.len() - a,
    {
        a = a + 1;
    }
    let mut b: usize = v.len();
    proof { lema_fim_util(v@, v@.len() as int, a as int); }
    while b > a && espaco_branco_exec(v[b - 1])
        invariant
            a <= b <= v.len(),
            a == primeiro_util(v@, 0),
            fim_util(v@, v@.len() as int, a as int) == fim_util(v@, b as int, a as int),
        decreases b - a,
    {
        b = b - 1;
    }
    fatia(v, a, b)
}

/// Conteúdo, sem espaços nas pontas, da primeira `<tag>...</tag>` de `t`.
pub open spec fn trecho_da_tag_spec(t: Seq<char>, tag: Seq<char>) -> Option<Seq<char>> {
    let abre = "<"@ + tag + ">"@;
    let fecha = "</"@ + tag + ">"@;
    match primeira(t, abre) {
        None => None,
        Some(a) => {
            let resto = t.subrange(a + abre.len(), t.len() as int);
            match primeira(resto, fecha) {
                None => None,
                Some(b) => Some(aparar(resto.subrange(0, b))),
            }
        },
    }
}

fn trecho_v(v: &Vec<char>, tag: &str) -> (r: Option<Vec<char>>)
    ensures
        match r {
            Some(s) => trecho_da_tag_spec(v@, tag@) == Some(s@),
            None => trecho_da_tag_spec(v@, tag@) is None,
        },
{
    let mut abre: Vec<char> = Vec::new();
    empurrar_texto(&mut abre, "<");
    empurrar_texto(&mut abre, tag);
    empurrar_texto(&mut abre, ">");
    let mut fecha: Vec<char> = Vec::new();
    empurrar_texto(&mut fecha, "</");
    empurrar_texto(&mut fecha, tag);
    empurrar_texto(&mut fecha, ">");
    assert(abre@ =~= "<"@ + tag@ + ">"@);
    assert(fecha@ =~= "</"@ + tag@ + ">"@);
    match encontrar(v, &abre, 0) {
        None => None,
        Some(a) => {
            let resto = fatia(v, a + abre.len(), v.len());
            match encontrar(&resto, &fecha, 0) {
                None => None,
                Some(b) => {
                    let bruto = fatia(&resto, 0, b);
                    Some(aparar_chars(&bruto))
                },
            }
        },
    }
}

/// Texto cru, sem espaços nas pontas, da primeira `<tag>...</tag>` de `texto`.
pub fn trecho_da_tag(texto: &str, tag: &str) -> (r: Option<String>)
    ensures
        match r {
            Some(s) => trecho_da_tag_spec(texto@, tag@) == Some(s@),
            None => trecho_da_tag_spec(texto@, tag@) is None,
        },
{
    let v = chars_de(texto);
    match trecho_v(&v, tag) {
        Some(s) => Some(string_de(&s)),
        None => None,
    }
}

/// Erros da leitura do georreferenciamento que não vêm do disco nem do ZIP.
#[derive(Debug, Clone, PartialEq, Eq)]
pub enum KmzError {
    /// O KMZ não contém nenhum `.kml`.
    SemKml,
    /// O KML não tem `<Location>` com `<latitude>` e `<longitude>`.
    SemLocation,
    /// Valor não numérico numa tag.
    ValorInvalido(&'static str, String),
    /// O KMZ não é um ZIP que se consiga abrir.
    ZipInvalido,
    /// A entrada do `.kml` no ZIP não se lê como texto.
    EntradaIlegivel,
}

/// Textos crus dos campos de georreferenciamento de um KML.
#[derive(Debug, Clone, PartialEq, Eq)]
pub struct CamposKml {
    pub latitude: Option<String>,
    pub longitude: Option<String>,
    pub altitude: Option<String>,
    pub heading: Option<String>,
    pub tilt: Option<String>,
    pub roll: Option<String>,
    pub x: Option<String>,
    pub y: Option<String>,
    pub z: Option<String>,
}

/// Vista de um texto opcional.
pub open spec fn vista_opt(o: Option<String>) -> Option<Seq<char>> {
    match o {
        Some(s) => Some(s@),
        None => None,
    }
}

/// `o`, ou `d` se ausente.
pub open spec fn ou(o: Option<Seq<char>>, d: Seq<char>) -> Seq<char> {
    match o {
        Some(s) => s,
        None => d,
    }
}

/// O bloco `<Model>` do KML (o KML inteiro, se não houver): o `<LookAt>` da câmera
/// das cenas fica de fora.
pub open spec fn bloco_modelo(xml: Seq<char>) -> Seq<char> {
    ou(recortar_spec(xml, "<Model"@, "</Model>"@), xml)
}

/// O bloco `<Location>` dentro do modelo.
pub open spec fn bloco_location(xml: Seq<char>) -> Option<Seq<char>> {
    recortar_spec(bloco_modelo(xml), "<Location"@, "</Location>"@)
}

/// O bloco `<Orientation>` dentro do modelo (vazio, se não houver).
pub open spec fn bloco_orientacao(xml: Seq<char>) -> Seq<char> {
    ou(recortar_spec(bloco_modelo(xml), "<Orientation"@, "</Orientation>"@), Seq::empty())
}

/// O bloco `<Scale>` dentro do modelo (vazio, se não houver).
pub open spec fn bloco_escala(xml: Seq<char>) -> Seq<char> {
    ou(recortar_spec(bloco_modelo(xml), "<Scale"@, "</Scale>"@), Seq::empty())
}


fn ou_v(o: Option<Vec<char>>, d: &Vec<char>) -> (r: Vec<char>)
    ensures
        r@ == ou(match o { Some(s) => Some(s@), None => None }, d@),
{
    match o {
        Some(s) => s,
        None => {
            let mut c: Vec<char> = Vec::new();
            let mut i: usize = 0;
            while i < d.len()
                invariant
                    i <= d.len(),
                    c@ == d@.take(i as int),
                decreases d.len() - i,
            {
                c.push(d[i]);
                i = i + 1;
                assert(c@ =~= d@.take(i as int));
            }
            assert(d@.take(d.len() as int) =~= d@);
            c
        },
    }
}

fn para_string(o: Option<Vec<char>>) -> (r: Option<String>)
    ensures
        vista_opt(r) == match o { Some(s) => Some(s@), None => None::<Seq<char>> },
{
    match o {
        Some(s) => Some(string_de(&s)),
        None => None,
    }
}

/// Localiza no KML os textos do georreferenciamento do modelo: o `<Location>` de
/// dentro do `<Model>` (nunca o da câmera), o `<Orientation>` e o `<Scale>`. Sem
/// `<Location>` o KML é recusado; cada tag ausente fica `None` (latitude e
/// longitude são obrigatórias para quem converte os números).
pub fn campos_do_kml(xml: &str) -> (r: Result<CamposKml, KmzError>)
    ensures
        match r {
            Ok(c) => {
                &&& bloco_location(xml@) matches Some(l)
                    && trecho_da_tag_spec(l, "latitude"@) == vista_opt(c.latitude)
                    && trecho_da_tag_spec(l, "longitude"@) == vista_opt(c.longitude)
                    && trecho_da_tag_spec(l, "altitude"@) == vista_opt(c.altitude)
                &&& trecho_da_tag_spec(bloco_orientacao(xml@), "heading"@) == vista_opt(c.heading)
                &&& trecho_da_tag_spec(bloco_orientacao(xml@), "tilt"@) == vista_opt(c.tilt)
                &&& trecho_da_tag_spec(bloco_orientacao(xml@), "roll"@) == vista_opt(c.roll)
                &&& trecho_da_tag_spec(bloco_escala(xml@), "x"@) == vista_opt(c.x)
                &&& trecho_da_tag_spec(bloco_escala(xml@), "y"@) == vista_opt(c.y)
                &&& trecho_da_tag_spec(bloco_escala(xml@), "z"@) == vista_opt(c.z)
            },
            Err(e) => e == KmzError::SemLocation && bloco_location(xml@) is None,
        },
{
    let v = chars_de(xml);
    let bm = recortar_v(&v, "<Model", "</Model>");
    let bloco = ou_v(bm, &v);
    let location = match recortar_v(&bloco, "<Location", "</Location>") {
        Some(l) => l,
        None => return Err(KmzError::SemLocation),
    };
    let lat = trecho_v(&location, "latitude");
    let lon = trecho_v(&location, "longitude");
    let alt = trecho_v(&location, "altitude");
    let vazio: Vec<char> = Vec::new();
    let orientacao = ou_v(recortar_v(&bloco, "<Orientation", "</Orientation>"), &vazio);
    let escala = ou_v(recortar_v(&bloco, "<Scale", "</Scale>"), &vazio);
    assert(vazio@ =~= Seq::<char>::empty());
    Ok(CamposKml {
        latitude: para_string(lat),
        longitude: para_string(lon),
        altitude: para_string(alt),
        heading: para_string(trecho_v(&orientacao, "heading")),
        tilt: para_string(trecho_v(&orientacao, "tilt")),
        roll: para_string(trecho_v(&orientacao, "roll")),
        x: para_string(trecho_v(&escala, "x")),
        y: para_string(trecho_v(&escala, "y")),
        z: para_string(trecho_v(&escala, "z")),
    })
}

/// `c` em minúscula, só nas letras ASCII.
pub open spec fn minuscula_ascii(c: char) -> char {
    if 'A' <= c && c <= 'Z' { ((c as u32) + 32) as char } else { c }
}

/// `a` e `b` são iguais ignorando maiúsculas ASCII.
pub open spec fn iguais_sem_caixa(a: Seq<char>, b: Seq<char>) -> bool {
    a.len() == b.len() && forall|i: int| 0 <= i < a.len() ==> #[trigger] minuscula_ascii(a[i]) == minuscula_ascii(b[i])
}

fn minuscula_ascii_exec(c: char) -> (r: char)
    ensures
        r == minuscula_ascii(c),
{
    if 'A' <= c && c <= 'Z' {
        let u: u32 = (c as u32) + 32;
        let b: u8 = u as u8;
        b as char
    } else {
        c
    }
}

fn termina_sem_caixa(nome: &str, sufixo: &str) -> (r: bool)
    ensures
        r == (nome@.len() >= sufixo@.len() && iguais_sem_caixa(nome@.skip(nome@.len() - sufixo@.len()), sufixo@)),
{
    let v = chars_de(nome);
    let s = chars_de(sufixo);
    if v.len() < s.len() {
        return false;
    }
    let total = v.len();
    let base = total - s.len();
    let ghost fim = v@.skip(base as int);
    let mut i: usize = 0;
    while i < s.len()
        invariant
            v@ == nome@,
            s@ == sufixo@,
            base == v@.len() - s@.len(),
            v@.len() == base + s@.len(),
            total == v@.len(),
            fim == v@.skip(base as int),
            i <= s@.len(),
            forall|j: int| 0 <= j < i ==> #[trigger] minuscula_ascii(fim[j]) == minuscula_ascii(s@[j]),
        decreases s.len() - i,
    {
        if minuscula_ascii_exec(v[base + i]) != minuscula_ascii_exec(s[i]) {
            assert(minuscula_ascii(fim[i as int]) != minuscula_ascii(s@[i as int]));
            return false;
        }
        i = i + 1;
    }
    true
}

/// O nome termina em `.kml`, sem distinguir maiúsculas.
pub open spec fn nome_de_kml(nome: Seq<char>) -> bool {
    nome.len() >= 4 && iguais_sem_caixa(nome.skip(nome.len() - 4), ".kml"@)
}

/// O nome de uma entrada do KMZ é de um `.kml` (sem distinguir maiúsculas).
pub fn eh_kml(nome: &str) -> (r: bool)
    ensures
        r == nome_de_kml(nome@),
{
    proof {
        reveal_strlit(".kml");
    }
    termina_sem_caixa(nome, ".kml")
}

/// A extensão de um arquivo pede a leitura de KMZ (ZIP): `kmz` sem distinguir
/// maiúsculas.
pub fn eh_kmz(extensao: &str) -> (r: bool)
    ensures
        r == iguais_sem_caixa(extensao@, "kmz"@),
{
    proof {
        reveal_strlit("kmz");
    }
    if chars_de(extensao).len() != 3 {
        return false;
    }
    let r = termina_sem_caixa(extensao, "kmz");
    proof {
        assert(extensao@.skip(0) =~= extensao@);
    }
    r
}

/// Entrada do KMZ com o KML: a primeira (na ordem do arquivo) cujo nome termina
/// em `.kml`; `doc.kml` é o nome canônico, mas qualquer uma serve.
pub fn primeiro_kml(nomes: &[String]) -> (r: Option<usize>)
    ensures
        match r {
            Some(i) => i < nomes@.len() && nomes@[i as int]@.len() >= 4
                && iguais_sem_caixa(nomes@[i as int]@.skip(nomes@[i as int]@.len() - 4), ".kml"@)
                && forall|j: int| 0 <= j < i ==> !(#[trigger] nomes@[j]@.len() >= 4
                    && iguais_sem_caixa(nomes@[j]@.skip(nomes@[j]@.len() - 4), ".kml"@)),
            None => forall|j: int| 0 <= j < nomes@.len() ==> !(#[trigger] nomes@[j]@.len() >= 4
                && iguais_sem_caixa(nomes@[j]@.skip(nomes@[j]@.len() - 4), ".kml"@)),
        },
{
    let mut i: usize = 0;
    while i < nomes.len()
        invariant
            i <= nomes@.len(),
            forall|j: int| 0 <= j < i ==> !(#[trigger] nomes@[j]@.len() >= 4
                && iguais_sem_caixa(nomes@[j]@.skip(nomes@[j]@.len() - 4), ".kml"@)),
        decreases nomes.len() - i,
    {
        if eh_kml(nomes[i].as_str()) {
            return Some(i);
        }
        i = i + 1;
    }
    None
}

/// Nomes das entradas de um ZIP, na ordem do arquivo, como a crate `zip` os lê
/// dos bytes: `None` se o arquivo não abre; uma entrada que não se abre aparece
/// como `None`.
pub uninterp spec fn entradas_zip(dados: Seq<u8>) -> Option<Seq<Option<Seq<char>>>>;

/// Texto da entrada `i` de um ZIP, como a crate `zip` a lê dos bytes: `None` se o
/// arquivo ou a entrada não abrem, ou se o conteúdo não é UTF-8.
pub uninterp spec fn texto_entrada_zip(dados: Seq<u8>, i: nat) -> Option<Seq<char>>;

/// Nomes vistos como texto.
pub open spec fn vistas_dos_nomes(v: Seq<Option<String>>) -> Seq<Option<Seq<char>>> {
    v.map_values(|o: Option<String>| vista_opt(o))
}

/// Chama `zip::ZipArchive::new` sobre os bytes e, para cada índice, `by_index` e
/// `name`. Afirma que o resultado são os nomes que a crate lê desses bytes.
#[verifier::external_body]
fn nomes_no_zip(dados: &[u8]) -> (r: Option<Vec<Option<String>>>)
    ensures
        match r {
            Some(v) => entradas_zip(dados@) == Some(vistas_dos_nomes(v@)),
            None => entradas_zip(dados@) is None,
        },
{
    let mut zip = match zip::ZipArchive::new(std::io::Cursor::new(dados)) {
        Ok(z) => z,
        Err(_) => return None,
    };
    Some((0..zip.len()).map(|i| zip.by_index(i).ok().map(|e| e.name().to_string())).collect())
}

/// Chama `zip::ZipArchive::new`, `by_index(i)` e `read_to_string`. Afirma que o
/// resultado é o texto que a crate lê da entrada `i` desses bytes.
#[verifier::external_body]
fn ler_entrada_zip(dados: &[u8], i: usize) -> (r: Option<String>)
    ensures
        vista_opt(r) == texto_entrada_zip(dados@, i as nat),
{
    let mut zip = zip::ZipArchive::new(std::io::Cursor::new(dados)).ok()?;
    let mut entrada = zip.by_index(i).ok()?;
    let mut texto = String::new();
    entrada.read_to_string(&mut texto).ok()?;
    Some(texto)
}

/// Nenhuma entrada tem nome que termina em `.kml`.
pub open spec fn nenhuma_entrada_kml(n: Seq<Option<Seq<char>>>) -> bool {
    forall|j: int| 0 <= j < n.len() ==> !(#[trigger] n[j] matches Some(x) && nome_de_kml(x))
}

/// A entrada `k` é a primeira cujo nome termina em `.kml`.
pub open spec fn primeira_entrada_kml(n: Seq<Option<Seq<char>>>, k: int) -> bool {
    &&& 0 <= k < n.len()
    &&& n[k] matches Some(x) && nome_de_kml(x)
    &&& forall|j: int| 0 <= j < k ==> !(#[trigger] n[j] matches Some(x) && nome_de_kml(x))
}

/// Texto do KML de dentro de um KMZ: o da primeira entrada (na ordem do arquivo)
/// cujo nome termina em `.kml` — `doc.kml` é o canônico, mas qualquer uma serve.
pub fn kml_do_kmz(dados: &[u8]) -> (r: Result<String, KmzError>)
    ensures
        entradas_zip(dados@) is None ==> r == Err::<String, KmzError>(KmzError::ZipInvalido),
        entradas_zip(dados@) matches Some(n) ==> {
            &&& nenhuma_entrada_kml(n) ==> r == Err::<String, KmzError>(KmzError::SemKml)
            &&& forall|k: int| #[trigger] primeira_entrada_kml(n, k) ==> match texto_entrada_zip(dados@, k as nat) {
                Some(t) => r matches Ok(s) && s@ == t,
                None => r == Err::<String, KmzError>(KmzError::EntradaIlegivel),
            }
        },
{
    let nomes = match nomes_no_zip(dados) {
        Some(v) => v,
        None => return Err(KmzError::ZipInvalido),
    };
    let ghost n = vistas_dos_nomes(nomes@);
    let mut i: usize = 0;
    while i < nomes.len()
        invariant
            n == vistas_dos_nomes(nomes@),
            n.len() == nomes@.len(),
            entradas_zip(dados@) == Some(n),
            i <= nomes@.len(),
            forall|j: int| 0 <= j < i ==> !(#[trigger] n[j] matches Some(x) && nome_de_kml(x)),
        decreases nomes.len() - i,
    {
        let achou = match &nomes[i] {
            Some(nome) => eh_kml(nome.as_str()),
            None => false,
        };
        if achou {
            proof {
                assert(primeira_entrada_kml(n, i as int));
                assert forall|k: int| #[trigger] primeira_entrada_kml(n, k) implies k == i by {
                    if k < i {
                    } else if k > i {
                        assert(!(n[i as int] matches Some(x) && nome_de_kml(x)));
                    }
                }
            }
            let lido = ler_entrada_zip(dados, i);
            let r: Result<String, KmzError> = match lido {
                Some(t) => Ok(t),
                None => Err(KmzError::EntradaIlegivel),
            };
            proof {
                assert(!nenhuma_entrada_kml(n));
            }
            return r;
        }
        i = i + 1;
    }
    proof {
        assert forall|k: int| #[trigger] primeira_entrada_kml(n, k) implies false by {}
    }
    Err(KmzError::SemKml)
}

} // verus!
