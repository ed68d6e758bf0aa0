//! Gestão de projetos: identificadores seguros, caminhos, carimbos de data e o
//! catálogo de projetos com lixeira, snapshots e autosave.

use vstd::prelude::*;
use crate::texto::{chars_de, string_de, encontrar, fatia, primeira, primeira_desde, com_zeros, empurrar_com_zeros};
use crate::calendario::{civil, civil_de_dias, lema_ano_da_era};
use crate::biblioteca::polyhaven::juntar;
use crate::texto::{empurrar_texto, lex_menor, lex_menor_exec, lema_lex_total, lema_lex_transitivo, lema_lex_irreflexivo};

verus! {

/// Letra ou dígito ASCII.
pub open spec fn ascii_alnum(c: char) -> bool {
    ('a' <= c && c <= 'z') || ('A' <= c && c <= 'Z') || ('0' <= c && c <= '9')
}

/// Minúscula ASCII de `c` (os demais caracteres ficam como estão).
pub open spec fn minuscula(c: char) -> char {
    if 'A' <= c && c <= 'Z' { ((c as u32) + 32) as char } else { c }
}

/// Cada letra ou dígito ASCII vira minúscula; o resto vira `-`.
pub open spec fn limpar(s: Seq<char>) -> Seq<char> {
    Seq::new(s.len(), |i: int| if ascii_alnum(s[i]) { minuscula(s[i]) } else { '-' })
}

/// Colapsa separadores: um `-` só sobrevive logo depois de um caractere que não é `-`.
pub open spec fn colapsar(s: Seq<char>) -> Seq<char>
    decreases s.len(),
{
    if s.len() == 0 {
        Seq::empty()
    } else {
        let i = s.len() - 1;
        let r = colapsar(s.drop_last());
        if s[i] != '-' || (i > 0 && s[i - 1] != '-') { r.push(s[i]) } else { r }
    }
}

/// Remove os `-` do fim.
pub open spec fn aparar_fim(s: Seq<char>) -> Seq<char>
    decreases s.len(),
{
    if s.len() > 0 && s.last() == '-' { aparar_fim(s.drop_last()) } else { s }
}

/// Identificador de arquivo derivado de um título qualquer.
pub open spec fn slug_spec(nome: Seq<char>) -> Seq<char> {
    let r = aparar_fim(colapsar(limpar(nome)));
    if r.len() == 0 {
        seq!['p', 'r', 'o', 'j', 'e', 't', 'o']
    } else if r.len() <= 64 {
        r
    } else {
        r.take(64)
    }
}

fn ascii_alnum_exec(c: char) -> (r: bool)
    ensures r == ascii_alnum(c),
{
    ('a' <= c && c <= 'z') || ('A' <= c && c <= 'Z') || ('0' <= c && c <= '9')
}

fn minuscula_exec(c: char) -> (r: char)
    ensures r == minuscula(c),
{
    if 'A' <= c && c <= 'Z' {
        ((c as u8) + 32) as char
    } else {
        c
    }
}


/// Nome de arquivo seguro a partir de um título qualquer: letras e dígitos ASCII
/// em minúscula, separados por um único `-`, no máximo 64 caracteres; um título
/// sem nenhum deles vira `projeto`.
pub fn slug(nome: &str) -> (r: String)
    ensures
        r@ == slug_spec(nome@),
{
    let cs = chars_de(nome);
    let mut limpo: Vec<char> = Vec::new();
    let mut i: usize = 0;
    while i < cs.len()
        invariant
            i <= cs.len(),
            limpo@ == limpar(cs@).take(i as int),
        decreases cs.len() - i,
    {
        let c = cs[i];
        let d = if ascii_alnum_exec(c) { minuscula_exec(c) } else { '-' };
        limpo.push(d);
        i = i + 1;
        assert(limpo@ =~= limpar(cs@).take(i as int));
    }
    assert(limpo@ =~= limpar(cs@));

    let mut out: Vec<char> = Vec::new();
    let mut anterior_hifen = false;
    let mut j: usize = 0;
    while j < limpo.len()
        invariant
            j <= limpo.len(),
            out@ == colapsar(limpo@.take(j as int)),
            anterior_hifen == (j > 0 && limpo@[j - 1] == '-'),
            (j > 0 && limpo@[j - 1] != '-') ==> out@.len() > 0,
        decreases limpo.len() - j,
    {
        let c = limpo[j];
        assert(limpo@.take(j + 1).drop_last() =~= limpo@.take(j as int));
        if c == '-' {
            if !anterior_hifen && out.len() > 0 {
                out.push('-');
            }
            anterior_hifen = true;
        } else {
            out.push(c);
            anterior_hifen = false;
        }
        j = j + 1;
    }
    assert(limpo@.take(limpo.len() as int) =~= limpo@);

    let ghost colapsado = out@;
    while out.len() > 0 && out[out.len() - 1] == '-'
        invariant
            aparar_fim(out@) == aparar_fim(colapsado),
        decreases out.len(),
    {
        out.pop();
    }

    if out.len() == 0 {
        let r = "projeto".to_owned();
        proof {
            reveal_strlit("projeto");
            assert(r@ =~= seq!['p', 'r', 'o', 'j', 'e', 't', 'o']);
        }
        r
    } else {
        let n = if out.len() < 64 { out.len() } else { 64 };
        let pedaco = fatia(&out, 0, n);
        assert(n == out.len() ==> pedaco@ =~= out@);
        string_de(&pedaco)
    }
}


/// O texto do campo `"nome"` de um documento JSON, lido sem interpretar o
/// documento: o trecho entre as duas primeiras aspas que seguem a chave.
pub open spec fn nome_do_json_spec(texto: Seq<char>) -> Option<Seq<char>> {
    let aspa = seq!['"'];
    match primeira(texto, seq!['"', 'n', 'o', 'm', 'e', '"']) {
        None => None,
        Some(i) => {
            let resto = texto.skip(i + 6);
            match primeira(resto, aspa) {
                None => None,
                Some(a0) => match primeira_desde(resto, aspa, a0 + 1) {
                    None => None,
                    Some(b) => Some(resto.subrange(a0 + 1, b)),
                },
            }
        },
    }
}

/// Extrai `"nome"` de um JSON sem desserializar o documento inteiro.
pub fn nome_do_json(texto: &str) -> (r: Option<String>)
    ensures
        match nome_do_json_spec(texto@) {
            None => r is None,
            Some(n) => r matches Some(s) && s@ == n,
        },
{
    let t = chars_de(texto);
    let chave = chars_de("\"nome\"");
    let aspa = chars_de("\"");
    proof {
        reveal_strlit("\"nome\"");
        reveal_strlit("\"");
        assert(chave@ =~= seq!['"', 'n', 'o', 'm', 'e', '"']);
        assert(aspa@ =~= seq!['"']);
    }
    let ghost q = seq!['"'];
    let i = match encontrar(&t, &chave, 0) {
        Some(i) => i,
        None => return None,
    };
    assert(primeira(texto@, seq!['"', 'n', 'o', 'm', 'e', '"']) == Some(i as int));
    let resto = fatia(&t, i + 6, t.len());
    assert(resto@ =~= t@.skip(i + 6));
    let a0 = match encontrar(&resto, &aspa, 0) {
        Some(a) => a,
        None => {
            assert(primeira(texto@.skip(i + 6), q) is None);
            return None;
        },
    };
    assert(primeira(texto@.skip(i + 6), q) == Some(a0 as int));
    let b = match encontrar(&resto, &aspa, a0 + 1) {
        Some(b) => b,
        None => {
            assert(primeira_desde(texto@.skip(i + 6), q, a0 + 1) is None);
            return None;
        },
    };
    let nome = fatia(&resto, a0 + 1, b);
    Some(string_de(&nome))
}

/// Carimbo `AAAAMMDD-hhmmss` (UTC) do instante `s`, em segundos desde 1970-01-01.
pub open spec fn carimbo_spec(s: int) -> Seq<char> {
    let (a, m, d) = civil(s / 86400);
    let r = s % 86400;
    com_zeros(a as nat, 4) + com_zeros(m as nat, 2) + com_zeros(d as nat, 2) + seq!['-']
        + com_zeros((r / 3600) as nat, 2) + com_zeros(((r % 3600) / 60) as nat, 2)
        + com_zeros((r % 60) as nat, 2)
}

/// Carimbo `AAAAMMDD-hhmmss` em UTC do instante `s` (segundos desde 1970-01-01),
/// que nomeia snapshots; o relógio fica com quem chama.
pub fn carimbo_de_segundos(s: u64) -> (r: String)
    ensures
        r@ == carimbo_spec(s as int),
{
    let dias = s / 86_400;
    let resto = s % 86_400;
    let h = resto / 3600;
    let mi = (resto % 3600) / 60;
    let sec = resto % 60;
    let (ano, mes, dia) = civil_de_dias(dias as i64);
    assert(ano >= 0) by {
        lema_ano_da_era((dias + 719468) as int % 146097);
    }
    let mut v: Vec<char> = Vec::new();
    empurrar_com_zeros(ano as u64, 4, &mut v);
    empurrar_com_zeros(mes as u64, 2, &mut v);
    empurrar_com_zeros(dia as u64, 2, &mut v);
    v.push('-');
    empurrar_com_zeros(h, 2, &mut v);
    empurrar_com_zeros(mi, 2, &mut v);
    empurrar_com_zeros(sec, 2, &mut v);
    string_de(&v)
}

/// Caractere que pode aparecer num identificador de projeto.
pub open spec fn char_de_slug(c: char) -> bool {
    ('a' <= c && c <= 'z') || ('0' <= c && c <= '9') || c == '-'
}

proof fn lema_colapsar_preserva(s: Seq<char>)
    requires
        forall|i: int| 0 <= i < s.len() ==> #[trigger] char_de_slug(s[i]),
    ensures
        forall|i: int| 0 <= i < colapsar(s).len() ==> #[trigger] char_de_slug(colapsar(s)[i]),
        colapsar(s).len() <= s.len(),
    decreases s.len(),
{
    if s.len() > 0 {
        let d = s.drop_last();
        assert forall|i: int| 0 <= i < d.len() implies #[trigger] char_de_slug(d[i]) by {
            assert(d[i] == s[i]);
        }
        lema_colapsar_preserva(d);
        let r = colapsar(d);
        let i = s.len() - 1;
        assert(char_de_slug(s[i]));
        if s[i] != '-' || (i > 0 && s[i - 1] != '-') {
            assert forall|k: int| 0 <= k < r.push(s[i]).len() implies #[trigger] char_de_slug(r.push(s[i])[k]) by {
                if k < r.len() {
                    assert(r.push(s[i])[k] == r[k]);
                }
            }
        }
    }
}

proof fn lema_aparar_fim(s: Seq<char>)
    ensures
        aparar_fim(s).len() <= s.len(),
        aparar_fim(s) == s.take(aparar_fim(s).len() as int),
        aparar_fim(s).len() > 0 ==> aparar_fim(s).last() != '-',
    decreases s.len(),
{
    if s.len() > 0 && s.last() == '-' {
        lema_aparar_fim(s.drop_last());
        let r = aparar_fim(s.drop_last());
        assert(s.drop_last().take(r.len() as int) =~= s.take(r.len() as int));
    } else {
        assert(s.take(s.len() as int) =~= s);
    }
}

/// `s` já está na forma de um slug a partir da posição `i`: só letras minúsculas,
/// dígitos e `-`, e cada `-` fica entre dois caracteres que não são `-`.
pub open spec fn canonico_desde(s: Seq<char>, i: int) -> bool
    decreases s.len() - i,
{
    if i < 0 || i >= s.len() {
        true
    } else {
        &&& char_de_slug(s[i])
        &&& (s[i] == '-' ==> 0 < i && i + 1 < s.len() && s[i - 1] != '-' && s[i + 1] != '-')
        &&& canonico_desde(s, i + 1)
    }
}

/// `s` é um slug canônico: de 1 a 64 caracteres, na forma que `slug` produz.
pub open spec fn slug_canonico(s: Seq<char>) -> bool {
    1 <= s.len() <= 64 && canonico_desde(s, 0)
}

proof fn lema_canonico_desde(s: Seq<char>, i: int, j: int)
    requires
        0 <= i <= j < s.len(),
        canonico_desde(s, i),
    ensures
        char_de_slug(s[j]),
        s[j] == '-' ==> 0 < j && j + 1 < s.len() && s[j - 1] != '-' && s[j + 1] != '-',
    decreases j - i,
{
    if i < j {
        lema_canonico_desde(s, i + 1, j);
    }
}

proof fn lema_colapsar_canonico(s: Seq<char>, t: Seq<char>)
    requires
        t.len() <= s.len(),
        t == s.take(t.len() as int),
        canonico_desde(s, 0),
    ensures
        colapsar(t) == t,
    decreases t.len(),
{
    if t.len() > 0 {
        let i = t.len() - 1;
        let u = t.drop_last();
        assert(u == s.take(u.len() as int));
        lema_colapsar_canonico(s, u);
        lema_canonico_desde(s, 0, i);
        if t[i] == '-' {
            assert(t[i - 1] == s[i - 1]);
        }
        assert(u.push(t[i]) =~= t);
    }
}

/// O slug de um slug canônico é ele mesmo: um nome já na forma de slug passa por
/// `slug` sem mudar.
pub proof fn lei_slug_de_um_slug(s: Seq<char>)
    requires
        slug_canonico(s),
    ensures
        slug_spec(s) == s,
{
    assert forall|j: int| 0 <= j < s.len() implies #[trigger] limpar(s)[j] == s[j] by {
        lema_canonico_desde(s, 0, j);
    }
    assert(limpar(s) =~= s);
    assert(s.take(s.len() as int) =~= s);
    lema_colapsar_canonico(s, s);
    lema_canonico_desde(s, 0, s.len() - 1);
}

proof fn lema_colapsar_forma(s: Seq<char>)
    ensures
        colapsar(s).len() > 0 ==> colapsar(s)[0] != '-',
        forall|j: int| 0 < j < colapsar(s).len() ==> (#[trigger] colapsar(s)[j] == '-' ==> colapsar(s)[j - 1] != '-'),
        s.len() > 0 && s.last() != '-' ==> colapsar(s).len() > 0 && colapsar(s).last() == s.last(),
        (forall|i: int| 0 <= i < s.len() ==> #[trigger] s[i] == '-') ==> colapsar(s).len() == 0,
    decreases s.len(),
{
    if s.len() > 0 {
        let d = s.drop_last();
        let i = s.len() - 1;
        lema_colapsar_forma(d);
        let r = colapsar(d);
        if (forall|k: int| 0 <= k < s.len() ==> #[trigger] s[k] == '-') {
            assert forall|k: int| 0 <= k < d.len() implies #[trigger] d[k] == '-' by {
                assert(s[k] == '-');
            }
            assert(s[i] == '-');
            if i > 0 {
                assert(s[i - 1] == '-');
            }
        }
        if s[i] != '-' || (i > 0 && s[i - 1] != '-') {
            let c = r.push(s[i]);
            assert(colapsar(s) == c);
            if s[i] == '-' {
                assert(d.last() == s[i - 1]);
                assert(r.len() > 0 && r.last() != '-');
            }
            assert forall|j: int| 0 < j < c.len() implies (#[trigger] c[j] == '-' ==> c[j - 1] != '-') by {
                if j < r.len() {
                    assert(c[j] == r[j] && c[j - 1] == r[j - 1]);
                } else {
                    assert(c[j - 1] == r.last());
                }
            }
            if r.len() > 0 {
                assert(c[0] == r[0]);
            }
        }
    }
}

/// `s` não começa por `-` e não tem dois `-` seguidos.
pub open spec fn hifens_isolados(s: Seq<char>) -> bool {
    &&& s.len() > 0 ==> s[0] != '-'
    &&& forall|j: int| 0 < j < s.len() ==> (#[trigger] s[j] == '-' ==> s[j - 1] != '-')
}

proof fn lema_prefixo_isolado(s: Seq<char>, k: int)
    requires
        hifens_isolados(s),
        0 <= k <= s.len(),
    ensures
        hifens_isolados(s.take(k)),
{
    let t = s.take(k);
    assert forall|j: int| 0 < j < t.len() implies (#[trigger] t[j] == '-' ==> t[j - 1] != '-') by {
        assert(t[j] == s[j] && t[j - 1] == s[j - 1]);
    }
    if t.len() > 0 {
        assert(t[0] == s[0]);
    }
}

proof fn lema_limpar_chars(nome: Seq<char>)
    ensures
        forall|i: int| 0 <= i < limpar(nome).len() ==> #[trigger] char_de_slug(limpar(nome)[i]),
{
    let l = limpar(nome);
    assert forall|i: int| 0 <= i < l.len() implies #[trigger] char_de_slug(l[i]) by {
        let c = nome[i];
        if ascii_alnum(c) {
            if 'A' <= c && c <= 'Z' {
                assert(minuscula(c) == ((c as u32) + 32) as char);
            }
        }
    }
}

/// Forma do identificador: não começa por `-` nem tem `-` seguidos, e um título
/// sem nenhuma letra ou dígito ASCII vira `projeto`.
proof fn lema_slug_forma(nome: Seq<char>)
    ensures
        hifens_isolados(slug_spec(nome)),
        (forall|i: int| 0 <= i < nome.len() ==> !ascii_alnum(#[trigger] nome[i]))
            ==> slug_spec(nome) == seq!['p', 'r', 'o', 'j', 'e', 't', 'o'],
{
    let l = limpar(nome);
    let c = colapsar(l);
    lema_colapsar_forma(l);
    lema_aparar_fim(c);
    let r = aparar_fim(c);
    assert(hifens_isolados(c));
    lema_prefixo_isolado(c, r.len() as int);
    assert(hifens_isolados(r));
    if r.len() > 64 {
        lema_prefixo_isolado(r, 64);
    }
    let p = seq!['p', 'r', 'o', 'j', 'e', 't', 'o'];
    assert forall|j: int| 0 < j < p.len() implies (#[trigger] p[j] == '-' ==> p[j - 1] != '-') by {}
    if forall|i: int| 0 <= i < nome.len() ==> !ascii_alnum(#[trigger] nome[i]) {
        assert forall|i: int| 0 <= i < l.len() implies #[trigger] l[i] == '-' by {
            assert(!ascii_alnum(nome[i]));
        }
    }
}

proof fn lema_canonico_por_partes(s: Seq<char>, i: int)
    requires
        0 <= i,
        s.len() > 0 && s.last() != '-',
        hifens_isolados(s),
        forall|j: int| 0 <= j < s.len() ==> #[trigger] char_de_slug(s[j]),
    ensures
        canonico_desde(s, i),
    decreases s.len() - i,
{
    if i < s.len() {
        lema_canonico_por_partes(s, i + 1);
        assert(char_de_slug(s[i]));
        if s[i] == '-' {
            assert(i != 0);
            assert(s[i - 1] != '-');
            assert(i + 1 < s.len());
            if s[i + 1] == '-' {
                assert(s[i + 1] == '-' ==> s[i] != '-');
            }
        }
    }
}

/// Aplicar `slug` ao próprio resultado não muda nada, a menos que o resultado
/// termine em `-` (o corte em 64 caracteres, feito depois de aparar as pontas,
/// pode deixá-lo assim); nesse caso o `-` final cai.
pub proof fn lei_slug_idempotente(nome: Seq<char>)
    ensures
        slug_spec(slug_spec(nome)) == slug_spec(nome) <==> slug_spec(nome).last() != '-',
{
    let s = slug_spec(nome);
    lei_slug_seguro(nome);
    if s.last() != '-' {
        lema_canonico_por_partes(s, 0);
        lei_slug_de_um_slug(s);
    } else {
        lema_limpar_chars(s);
        lema_colapsar_preserva(limpar(s));
        let r = aparar_fim(colapsar(limpar(s)));
        lema_aparar_fim(colapsar(limpar(s)));
        if r.len() == 0 {
            assert(slug_spec(s).last() == 'o');
        } else {
            assert(r.len() <= 64);
            assert(slug_spec(s) == r);
        }
    }
}

/// O identificador é sempre seguro como nome de pasta: de 1 a 64 caracteres, só
/// letras minúsculas, dígitos e `-`, sem `-` no começo nem dois `-` seguidos; um
/// título sem nenhuma letra ou dígito ASCII vira `projeto`. Não há barra, barra
/// invertida nem ponto, e portanto nenhuma travessia de caminho sobrevive.
pub proof fn lei_slug_seguro(nome: Seq<char>)
    ensures
        1 <= slug_spec(nome).len() <= 64,
        forall|i: int| 0 <= i < slug_spec(nome).len() ==> #[trigger] char_de_slug(slug_spec(nome)[i]),
        !slug_spec(nome).contains('/'),
        !slug_spec(nome).contains('\\'),
        !slug_spec(nome).contains('.'),
        slug_spec(nome)[0] != '-',
        forall|j: int| 0 < j < slug_spec(nome).len()
            ==> !(#[trigger] slug_spec(nome)[j] == '-' && slug_spec(nome)[j - 1] == '-'),
        (forall|i: int| 0 <= i < nome.len() ==> !ascii_alnum(#[trigger] nome[i]))
            ==> slug_spec(nome) == seq!['p', 'r', 'o', 'j', 'e', 't', 'o'],
{
    let l = limpar(nome);
    lema_limpar_chars(nome);
    lema_slug_forma(nome);
    lema_colapsar_preserva(l);
    let c = colapsar(l);
    lema_aparar_fim(c);
    let r = aparar_fim(c);
    assert forall|i: int| 0 <= i < r.len() implies #[trigger] char_de_slug(r[i]) by {
        assert(r[i] == c.take(r.len() as int)[i]);
    }
    let s = slug_spec(nome);
    if r.len() == 0 {
        assert forall|i: int| 0 <= i < s.len() implies #[trigger] char_de_slug(s[i]) by {}
    } else if r.len() > 64 {
        assert forall|i: int| 0 <= i < s.len() implies #[trigger] char_de_slug(s[i]) by {
            assert(s[i] == r[i]);
        }
    }
    assert forall|i: int| 0 <= i < s.len() implies s[i] != '/' && s[i] != '\\' && s[i] != '.' by {
        assert(char_de_slug(s[i]));
    }
}

/// `PathBuf::join`: um caminho absoluto substitui a base; um relativo é anexado
/// com uma barra entre os dois quando preciso.
pub open spec fn caminho(base: Seq<char>, p: Seq<char>) -> Seq<char> {
    if p.len() > 0 && p[0] == '/' { p } else { juntar(base, p) }
}

/// `base` unido a `p`, como `Path::join`.
pub fn juntar_caminho(base: &str, p: &str) -> (r: String)
    ensures
        r@ == caminho(base@, p@),
{
    let pv = chars_de(p);
    if pv.len() > 0 && pv[0] == '/' {
        return string_de(&pv);
    }
    let mut v = chars_de(base);
    if v.len() > 0 && v[v.len() - 1] != '/' {
        v.push('/');
    }
    let ghost b = v@;
    empurrar_texto(&mut v, p);
    proof {
        let q = base@;
        if q.len() == 0 || q.last() == '/' {
            assert(b == q);
        } else {
            assert(b == q + seq!['/']);
        }
        assert(v@ =~= caminho(base@, p@));
    }
    string_de(&v)
}

/// Erros da gestão de projetos.
#[derive(Debug, Clone, PartialEq, Eq)]
pub enum WorkspaceErro {
    /// Não existe projeto com esse identificador.
    NaoEncontrado(String),
    /// Já existe um projeto com esse identificador.
    JaExiste(String),
    /// Não há autosave a recuperar.
    SemRecuperacao(String),
}

/// Resumo de um projeto para a tela inicial, sem abrir o arquivo inteiro.
#[derive(Debug, Clone, PartialEq, Eq)]
pub struct ResumoProjeto {
    pub slug: String,
    pub nome: String,
    pub caminho: String,
    pub bytes: u64,
    /// Segundos desde a época Unix; `0` se o sistema não informar.
    pub modificado_em: u64,
    pub tem_miniatura: bool,
    /// `true` quando há autosave pendente, sinal de queda antes de salvar.
    pub recuperavel: bool,
    pub snapshots: usize,
}

/// Um snapshot guardado de um projeto.
#[derive(Debug, Clone, PartialEq, Eq)]
pub struct ResumoSnapshot {
    pub arquivo: String,
    pub rotulo: String,
    pub carimbo: String,
    pub bytes: u64,
}

/// Operação de catálogo pedida na linha de comando.
#[derive(Debug, Clone, PartialEq, Eq)]
pub enum ComandoProjeto {
    Listar,
    Lixeira,
    Excluir(String),
    Restaurar(String),
    Snapshots(String),
    /// Cria um projeto com a região que estiver na configuração atual.
    Novo(String),
    Duplicar(String, String),
    Renomear(String, String),
    /// Snapshot do estado salvo de um projeto.
    Snapshot(String, String),
    RestaurarSnapshot(String, String),
    /// Promove o autosave, se houver.
    Recuperar(String),
    EsvaziarLixeira,
}

/// A pasta de trabalho onde os projetos vivem:
/// `<raiz>/projetos/<slug>/{projeto.arcz, autosave.arcz, snapshots/}` e
/// `<raiz>/lixeira/<slug>__<carimbo>/`.
pub struct Workspace {
    raiz: String,
}

/// Pasta de um projeto.
pub open spec fn pasta_spec(raiz: Seq<char>, slug: Seq<char>) -> Seq<char> {
    caminho(caminho(raiz, "projetos"@), slug)
}

/// Arquivo do projeto.
pub open spec fn arquivo_spec(raiz: Seq<char>, slug: Seq<char>) -> Seq<char> {
    caminho(pasta_spec(raiz, slug), "projeto.arcz"@)
}

/// Arquivo de autosave, ao lado do projeto.
pub open spec fn autosave_spec(raiz: Seq<char>, slug: Seq<char>) -> Seq<char> {
    caminho(pasta_spec(raiz, slug), "autosave.arcz"@)
}

/// Pasta dos snapshots do projeto.
pub open spec fn snapshots_spec(raiz: Seq<char>, slug: Seq<char>) -> Seq<char> {
    caminho(pasta_spec(raiz, slug), "snapshots"@)
}

/// Pasta da lixeira.
pub open spec fn lixeira_spec(raiz: Seq<char>) -> Seq<char> {
    caminho(raiz, "lixeira"@)
}

/// Nome do arquivo de um snapshot: `<carimbo>_<slug do rótulo>.arcz`.
pub open spec fn nome_snapshot_spec(carimbo: Seq<char>, rotulo: Seq<char>) -> Seq<char> {
    carimbo + "_"@ + slug_spec(rotulo) + ".arcz"@
}

/// Destino de um projeto excluído: `<raiz>/lixeira/<slug>__<carimbo>`.
pub open spec fn destino_lixeira_spec(raiz: Seq<char>, slug: Seq<char>, carimbo: Seq<char>) -> Seq<char> {
    caminho(lixeira_spec(raiz), slug + "__"@ + carimbo)
}

impl Workspace {
    /// Raiz do workspace.
    pub closed spec fn raiz_spec(&self) -> Seq<char> {
        self.raiz@
    }

    /// Workspace com raiz `raiz`; as pastas `projetos` e `lixeira` ficam a cargo
    /// de quem cria.
    pub fn new(raiz: &str) -> (r: Self)
        ensures
            r.raiz_spec() == raiz@,
    {
        Workspace { raiz: raiz.to_owned() }
    }

    /// Pasta padrão do usuário, nunca relativa ao diretório de execução:
    /// `LOCALAPPDATA`, senão `XDG_DATA_HOME`, senão `$HOME/.local/share`, senão a
    /// pasta temporária; sempre com `ARCZ` no fim.
    pub fn raiz_padrao(localappdata: Option<&str>, xdg_data_home: Option<&str>, home: Option<&str>, temp: &str) -> (r: String)
        ensures
            r@ == caminho(
                match localappdata {
                    Some(l) => l@,
                    None => match xdg_data_home {
                        Some(x) => x@,
                        None => match home {
                            Some(h) => caminho(h@, ".local/share"@),
                            None => temp@,
                        },
                    },
                },
                "ARCZ"@,
            ),
    {
        let base = match localappdata {
            Some(l) => l.to_owned(),
            None => match xdg_data_home {
                Some(x) => x.to_owned(),
                None => match home {
                    Some(h) => juntar_caminho(h, ".local/share"),
                    None => temp.to_owned(),
                },
            },
        };
        juntar_caminho(base.as_str(), "ARCZ")
    }

    pub fn raiz(&self) -> (r: &str)
        ensures
            r@ == self.raiz_spec(),
    {
        self.raiz.as_str()
    }

    pub fn pasta_de(&self, slug: &str) -> (r: String)
        ensures
            r@ == pasta_spec(self.raiz_spec(), slug@),
    {
        let p = juntar_caminho(self.raiz.as_str(), "projetos");
        juntar_caminho(p.as_str(), slug)
    }

    pub fn arquivo_de(&self, slug: &str) -> (r: String)
        ensures
            r@ == arquivo_spec(self.raiz_spec(), slug@),
    {
        let p = self.pasta_de(slug);
        juntar_caminho(p.as_str(), "projeto.arcz")
    }

    pub fn autosave_de(&self, slug: &str) -> (r: String)
        ensures
            r@ == autosave_spec(self.raiz_spec(), slug@),
    {
        let p = self.pasta_de(slug);
        juntar_caminho(p.as_str(), "autosave.arcz")
    }

    pub fn pasta_snapshots(&self, slug: &str) -> (r: String)
        ensures
            r@ == snapshots_spec(self.raiz_spec(), slug@),
    {
        let p = self.pasta_de(slug);
        juntar_caminho(p.as_str(), "snapshots")
    }

    pub fn pasta_lixeira(&self) -> (r: String)
        ensures
            r@ == lixeira_spec(self.raiz_spec()),
    {
        juntar_caminho(self.raiz.as_str(), "lixeira")
    }

    /// Arquivo de um snapshot novo.
    pub fn criar_snapshot_em(&self, slug: &str, carimbo: &str, rotulo: &str) -> (r: String)
        ensures
            r@ == caminho(snapshots_spec(self.raiz_spec(), slug@), nome_snapshot_spec(carimbo@, rotulo@)),
    {
        let pasta = self.pasta_snapshots(slug);
        let s = self::slug(rotulo);
        let mut nome: Vec<char> = Vec::new();
        empurrar_texto(&mut nome, carimbo);
        empurrar_texto(&mut nome, "_");
        empurrar_texto(&mut nome, s.as_str());
        empurrar_texto(&mut nome, ".arcz");
        assert(nome@ =~= nome_snapshot_spec(carimbo@, rotulo@));
        let n = string_de(&nome);
        juntar_caminho(pasta.as_str(), n.as_str())
    }

    /// Para onde vai um projeto excluído com o carimbo `carimbo`.
    pub fn destino_na_lixeira(&self, slug: &str, carimbo: &str) -> (r: String)
        ensures
            r@ == destino_lixeira_spec(self.raiz_spec(), slug@, carimbo@),
    {
        let lixeira = self.pasta_lixeira();
        let mut nome: Vec<char> = Vec::new();
        empurrar_texto(&mut nome, slug);
        empurrar_texto(&mut nome, "__");
        empurrar_texto(&mut nome, carimbo);
        assert(nome@ =~= slug@ + "__"@ + carimbo@);
        let n = string_de(&nome);
        juntar_caminho(lixeira.as_str(), n.as_str())
    }
}

/// O autosave nunca é o arquivo do projeto: gravar o autosave não toca no
/// projeto salvo.
pub proof fn lei_autosave_e_arquivo_a_parte(raiz: Seq<char>, slug: Seq<char>)
    ensures
        autosave_spec(raiz, slug) != arquivo_spec(raiz, slug),
{
    reveal_strlit("projeto.arcz");
    reveal_strlit("autosave.arcz");
    let p = pasta_spec(raiz, slug);
    let a = autosave_spec(raiz, slug);
    let b = arquivo_spec(raiz, slug);
    assert(a.len() != b.len());
}

/// Mudança de uma pasta de lugar (nunca apaga).
#[derive(Debug, Clone, PartialEq, Eq)]
pub struct Mudanca {
    pub de: String,
    pub para: String,
}

/// O que salvar faz: grava o projeto e descarta o autosave, que ficou obsoleto.
#[derive(Debug, Clone, PartialEq, Eq)]
pub struct Salvamento {
    pub gravar_em: String,
    pub remover_autosave: String,
}

/// O que recuperar faz, em ordem: lê o autosave; se havia projeto salvo, guarda-o
/// como snapshot; grava o autosave como projeto e remove o autosave.
#[derive(Debug, Clone, PartialEq, Eq)]
pub struct Recuperacao {
    pub ler_autosave: String,
    pub snapshot_do_atual: Option<String>,
    pub salvamento: Salvamento,
}

/// Trecho de `s` antes da primeira ocorrência de `sep` (tudo, se não houver).
pub open spec fn antes_de(s: Seq<char>, sep: Seq<char>) -> Seq<char> {
    match primeira(s, sep) {
        Some(k) => s.take(k),
        None => s,
    }
}

/// Identificador de um projeto na lixeira: o nome da pasta antes do primeiro `__`.
pub fn slug_da_lixeira(nome_da_pasta: &str) -> (r: String)
    ensures
        r@ == antes_de(nome_da_pasta@, "__"@),
{
    let v = chars_de(nome_da_pasta);
    let sep = chars_de("__");
    match encontrar(&v, &sep, 0) {
        Some(k) => string_de(&fatia(&v, 0, k)),
        None => string_de(&v),
    }
}

/// Carimbo e rótulo de um snapshot, pelo nome do arquivo sem extensão: o que vem
/// antes e depois do primeiro `_` (carimbo vazio, se não houver).
pub open spec fn partes_do_snapshot_spec(nome: Seq<char>) -> (Seq<char>, Seq<char>) {
    match primeira(nome, "_"@) {
        Some(k) => (nome.take(k), nome.subrange(k + 1, nome.len() as int)),
        None => (Seq::empty(), nome),
    }
}

/// Carimbo e rótulo de um snapshot a partir do nome do arquivo sem extensão.
pub fn partes_do_snapshot(nome: &str) -> (r: (String, String))
    ensures
        (r.0@, r.1@) == partes_do_snapshot_spec(nome@),
{
    let v = chars_de(nome);
    let sep = chars_de("_");
    match encontrar(&v, &sep, 0) {
        Some(k) => {
            proof { reveal_strlit("_"); }
            (string_de(&fatia(&v, 0, k)), string_de(&fatia(&v, k + 1, v.len())))
        },
        None => (String::new(), string_de(&v)),
    }
}

impl Workspace {
    /// Criar: recusa se já existe projeto com o identificador derivado do nome.
    pub fn criar(&self, nome: &str, arquivo_existe: bool) -> (r: Result<String, WorkspaceErro>)
        ensures
            match r {
                Ok(s) => !arquivo_existe && s@ == slug_spec(nome@),
                Err(e) => arquivo_existe && (e matches WorkspaceErro::JaExiste(s) && s@ == slug_spec(nome@)),
            },
    {
        let s = self::slug(nome);
        if arquivo_existe {
            Err(WorkspaceErro::JaExiste(s))
        } else {
            Ok(s)
        }
    }

    /// Salvar: grava o projeto e descarta o autosave; projeto inexistente é erro.
    pub fn salvar(&self, slug: &str, pasta_existe: bool) -> (r: Result<Salvamento, WorkspaceErro>)
        ensures
            match r {
                Ok(p) => pasta_existe
                    && p.gravar_em@ == arquivo_spec(self.raiz_spec(), slug@)
                    && p.remover_autosave@ == autosave_spec(self.raiz_spec(), slug@),
                Err(e) => !pasta_existe && (e matches WorkspaceErro::NaoEncontrado(s) && s@ == slug@),
            },
    {
        if !pasta_existe {
            return Err(WorkspaceErro::NaoEncontrado(slug.to_owned()));
        }
        Ok(Salvamento { gravar_em: self.arquivo_de(slug), remover_autosave: self.autosave_de(slug) })
    }

    /// Abrir: só um projeto cujo arquivo existe.
    pub fn abrir(&self, slug: &str, arquivo_existe: bool) -> (r: Result<String, WorkspaceErro>)
        ensures
            match r {
                Ok(a) => arquivo_existe && a@ == arquivo_spec(self.raiz_spec(), slug@),
                Err(e) => !arquivo_existe && (e matches WorkspaceErro::NaoEncontrado(s) && s@ == slug@),
            },
    {
        if !arquivo_existe {
            return Err(WorkspaceErro::NaoEncontrado(slug.to_owned()));
        }
        Ok(self.arquivo_de(slug))
    }

    /// Autosave: grava num arquivo separado, sem tocar no projeto.
    pub fn autosave(&self, slug: &str, pasta_existe: bool) -> (r: Result<String, WorkspaceErro>)
        ensures
            match r {
                Ok(a) => pasta_existe && a@ == autosave_spec(self.raiz_spec(), slug@)
                    && a@ != arquivo_spec(self.raiz_spec(), slug@),
                Err(e) => !pasta_existe && (e matches WorkspaceErro::NaoEncontrado(s) && s@ == slug@),
            },
    {
        if !pasta_existe {
            return Err(WorkspaceErro::NaoEncontrado(slug.to_owned()));
        }
        proof { lei_autosave_e_arquivo_a_parte(self.raiz_spec(), slug@); }
        Ok(self.autosave_de(slug))
    }

    /// Recuperar: exige autosave; o projeto salvo, se houver, vira snapshot antes
    /// de ser substituído. Recuperar nunca destrói o que estava salvo.
    pub fn recuperar(&self, slug: &str, tem_autosave: bool, projeto_existe: bool, carimbo: &str)
        -> (r: Result<Recuperacao, WorkspaceErro>)
        ensures
            match r {
                Ok(p) => {
                    &&& tem_autosave
                    &&& p.ler_autosave@ == autosave_spec(self.raiz_spec(), slug@)
                    &&& (projeto_existe <==> p.snapshot_do_atual is Some)
                    &&& (p.snapshot_do_atual matches Some(a) ==> a@ == caminho(snapshots_spec(self.raiz_spec(), slug@),
                        nome_snapshot_spec(carimbo@, "antes-da-recuperacao"@)))
                    &&& p.salvamento.gravar_em@ == arquivo_spec(self.raiz_spec(), slug@)
                    &&& p.salvamento.remover_autosave@ == autosave_spec(self.raiz_spec(), slug@)
                },
                Err(e) => !tem_autosave && (e matches WorkspaceErro::SemRecuperacao(s) && s@ == slug@),
            },
    {
        if !tem_autosave {
            return Err(WorkspaceErro::SemRecuperacao(slug.to_owned()));
        }
        let snapshot = if projeto_existe {
            Some(self.criar_snapshot_em(slug, carimbo, "antes-da-recuperacao"))
        } else {
            None
        };
        Ok(Recuperacao {
            ler_autosave: self.autosave_de(slug),
            snapshot_do_atual: snapshot,
            salvamento: Salvamento { gravar_em: self.arquivo_de(slug), remover_autosave: self.autosave_de(slug) },
        })
    }

    /// Excluir: move a pasta do projeto para a lixeira. Nunca apaga.
    pub fn excluir(&self, slug: &str, pasta_existe: bool, carimbo: &str) -> (r: Result<Mudanca, WorkspaceErro>)
        ensures
            match r {
                Ok(m) => pasta_existe && m.de@ == pasta_spec(self.raiz_spec(), slug@)
                    && m.para@ == destino_lixeira_spec(self.raiz_spec(), slug@, carimbo@),
                Err(e) => !pasta_existe && (e matches WorkspaceErro::NaoEncontrado(s) && s@ == slug@),
            },
    {
        if !pasta_existe {
            return Err(WorkspaceErro::NaoEncontrado(slug.to_owned()));
        }
        Ok(Mudanca { de: self.pasta_de(slug), para: self.destino_na_lixeira(slug, carimbo) })
    }

    /// Restaurar da lixeira: a pasta volta para `projetos/<slug>`, com o slug tirado
    /// do nome da pasta; nunca por cima de um projeto existente.
    pub fn restaurar_da_lixeira(&self, pasta: &str, nome_da_pasta: &str, pasta_existe: bool, destino_existe: bool)
        -> (r: Result<Mudanca, WorkspaceErro>)
        ensures
            match r {
                Ok(m) => pasta_existe && !destino_existe && m.de@ == pasta@
                    && m.para@ == pasta_spec(self.raiz_spec(), antes_de(nome_da_pasta@, "__"@)),
                Err(e) => (!pasta_existe && (e matches WorkspaceErro::NaoEncontrado(s) && s@ == pasta@))
                    || (pasta_existe && destino_existe && (e matches WorkspaceErro::JaExiste(s)
                        && s@ == antes_de(nome_da_pasta@, "__"@))),
            },
    {
        if !pasta_existe {
            return Err(WorkspaceErro::NaoEncontrado(pasta.to_owned()));
        }
        let s = slug_da_lixeira(nome_da_pasta);
        if destino_existe {
            return Err(WorkspaceErro::JaExiste(s));
        }
        Ok(Mudanca { de: pasta.to_owned(), para: self.pasta_de(s.as_str()) })
    }

    /// Renomear: o identificador acompanha o nome; recusa se o novo identificador
    /// já é de outro projeto. Devolve o novo identificador e, se mudou, a mudança
    /// de pasta.
    pub fn renomear(&self, slug: &str, novo_nome: &str, pasta_nova_existe: bool)
        -> (r: Result<(String, Option<Mudanca>), WorkspaceErro>)
        ensures
            match r {
                Ok((novo, m)) => novo@ == slug_spec(novo_nome@)
                    && (novo@ == slug@ ==> m is None)
                    && (novo@ != slug@ ==> !pasta_nova_existe && (m matches Some(mm)
                        && mm.de@ == pasta_spec(self.raiz_spec(), slug@)
                        && mm.para@ == pasta_spec(self.raiz_spec(), novo@))),
                Err(e) => slug_spec(novo_nome@) != slug@ && pasta_nova_existe
                    && (e matches WorkspaceErro::JaExiste(s) && s@ == slug_spec(novo_nome@)),
            },
    {
        let novo = self::slug(novo_nome);
        let igual = novo.as_str().to_owned() == slug.to_owned();
        if !igual && pasta_nova_existe {
            return Err(WorkspaceErro::JaExiste(novo));
        }
        if igual {
            return Ok((novo, None));
        }
        let m = Mudanca { de: self.pasta_de(slug), para: self.pasta_de(novo.as_str()) };
        Ok((novo, Some(m)))
    }
}

/// Insere `x` antes do primeiro snapshot de carimbo menor (depois dos de carimbo
/// maior ou igual).
pub open spec fn inserir_snapshot(s: Seq<ResumoSnapshot>, x: ResumoSnapshot) -> Seq<ResumoSnapshot>
    decreases s.len(),
{
    if s.len() == 0 {
        seq![x]
    } else if lex_menor(s[0].carimbo@, x.carimbo@) {
        seq![x] + s
    } else {
        seq![s[0]] + inserir_snapshot(s.drop_first(), x)
    }
}

/// Snapshots do mais novo para o mais velho (carimbo decrescente); carimbos iguais
/// ficam na ordem em que vieram.
pub open spec fn ordenar_snapshots_spec(s: Seq<ResumoSnapshot>) -> Seq<ResumoSnapshot>
    decreases s.len(),
{
    if s.len() == 0 {
        Seq::empty()
    } else {
        inserir_snapshot(ordenar_snapshots_spec(s.drop_last()), s.last())
    }
}

/// Carimbos em ordem não crescente.
pub open spec fn do_mais_novo_ao_mais_velho(s: Seq<ResumoSnapshot>) -> bool {
    forall|i: int, j: int| 0 <= i < j < s.len() ==> !lex_menor(#[trigger] s[i].carimbo@, #[trigger] s[j].carimbo@)
}

proof fn lema_inserir_posicao(s: Seq<ResumoSnapshot>, x: ResumoSnapshot, j: int)
    requires
        0 <= j <= s.len(),
        forall|k: int| 0 <= k < j ==> !lex_menor(#[trigger] s[k].carimbo@, x.carimbo@),
        j == s.len() || lex_menor(s[j].carimbo@, x.carimbo@),
    ensures
        s.insert(j, x) == inserir_snapshot(s, x),
    decreases s.len(),
{
    if s.len() == 0 {
        assert(s.insert(j, x) =~= seq![x]);
    } else if j == 0 {
        assert(s.insert(0, x) =~= seq![x] + s);
    } else {
        let r = s.drop_first();
        assert forall|k: int| 0 <= k < j - 1 implies !lex_menor(#[trigger] r[k].carimbo@, x.carimbo@) by {
            assert(r[k] == s[k + 1]);
        }
        lema_inserir_posicao(r, x, j - 1);
        assert(!lex_menor(s[0].carimbo@, x.carimbo@));
        assert(s.insert(j, x) =~= seq![s[0]] + r.insert(j - 1, x));
    }
}

proof fn lema_inserir_elementos(s: Seq<ResumoSnapshot>, x: ResumoSnapshot)
    ensures
        inserir_snapshot(s, x).len() == s.len() + 1,
        inserir_snapshot(s, x).to_multiset() == s.to_multiset().insert(x),
        forall|k: int| 0 <= k < inserir_snapshot(s, x).len() ==>
            (#[trigger] inserir_snapshot(s, x)[k] == x || s.contains(inserir_snapshot(s, x)[k])),
    decreases s.len(),
{
    broadcast use vstd::seq_lib::group_to_multiset_ensures;
    let r = inserir_snapshot(s, x);
    if s.len() == 0 {
        assert(r =~= seq![x]);
        assert(r =~= Seq::<ResumoSnapshot>::empty().push(x));
        vstd::seq_lib::to_multiset_build(Seq::<ResumoSnapshot>::empty(), x);
    } else if lex_menor(s[0].carimbo@, x.carimbo@) {
        assert(r =~= s.insert(0, x));
        vstd::seq_lib::to_multiset_insert(s, 0, x);
        assert forall|k: int| 0 <= k < r.len() implies (#[trigger] r[k] == x || s.contains(r[k])) by {
            if k > 0 {
                assert(r[k] == s[k - 1]);
            }
        }
    } else {
        let d = s.drop_first();
        lema_inserir_elementos(d, x);
        let t = inserir_snapshot(d, x);
        let j = choose|j: int| 0 <= j <= d.len() && d.insert(j, x) == t;
        assert(exists|j: int| 0 <= j <= d.len() && d.insert(j, x) == t) by {
            lema_inserir_existe(d, x);
        }
        assert(r =~= s.insert(j + 1, x)) by {
            assert(s =~= seq![s[0]] + d);
        }
        vstd::seq_lib::to_multiset_insert(s, j + 1, x);
        assert forall|k: int| 0 <= k < r.len() implies (#[trigger] r[k] == x || s.contains(r[k])) by {
            if k == 0 {
                assert(r[0] == s[0]);
            } else {
                assert(r[k] == t[k - 1]);
                if t[k - 1] != x {
                    let m = choose|m: int| 0 <= m < d.len() && d[m] == t[k - 1];
                    assert(s[m + 1] == d[m]);
                }
            }
        }
    }
}

proof fn lema_inserir_existe(s: Seq<ResumoSnapshot>, x: ResumoSnapshot)
    ensures
        exists|j: int| 0 <= j <= s.len() && s.insert(j, x) == inserir_snapshot(s, x),
    decreases s.len(),
{
    if s.len() == 0 {
        assert(s.insert(0, x) =~= inserir_snapshot(s, x));
    } else if lex_menor(s[0].carimbo@, x.carimbo@) {
        assert(s.insert(0, x) =~= inserir_snapshot(s, x));
    } else {
        let d = s.drop_first();
        lema_inserir_existe(d, x);
        let j = choose|j: int| 0 <= j <= d.len() && d.insert(j, x) == inserir_snapshot(d, x);
        assert(s.insert(j + 1, x) =~= inserir_snapshot(s, x)) by {
            assert(s =~= seq![s[0]] + d);
        }
    }
}

proof fn lema_nao_menor(a: Seq<char>, b: Seq<char>)
    requires
        !lex_menor(a, b),
    ensures
        a == b || lex_menor(b, a),
{
    if a != b {
        lema_lex_total(a, b, 0);
    }
}

proof fn lema_inserir_ordena(s: Seq<ResumoSnapshot>, x: ResumoSnapshot)
    requires
        do_mais_novo_ao_mais_velho(s),
    ensures
        do_mais_novo_ao_mais_velho(inserir_snapshot(s, x)),
    decreases s.len(),
{
    let r = inserir_snapshot(s, x);
    if s.len() == 0 {
    } else if lex_menor(s[0].carimbo@, x.carimbo@) {
        assert forall|i: int, j: int| 0 <= i < j < r.len() implies !lex_menor(#[trigger] r[i].carimbo@, #[trigger] r[j].carimbo@) by {
            if i == 0 {
                let y = s[j - 1];
                assert(r[j] == y);
                if j - 1 > 0 {
                    assert(!lex_menor(s[0].carimbo@, y.carimbo@));
                    lema_nao_menor(s[0].carimbo@, y.carimbo@);
                }
                if lex_menor(x.carimbo@, y.carimbo@) {
                    if j - 1 > 0 && y.carimbo@ != s[0].carimbo@ {
                        lema_lex_transitivo(x.carimbo@, y.carimbo@, s[0].carimbo@, 0);
                        lema_lex_transitivo(x.carimbo@, s[0].carimbo@, x.carimbo@, 0);
                    } else {
                        lema_lex_transitivo(x.carimbo@, s[0].carimbo@, x.carimbo@, 0);
                    }
                    lema_lex_irreflexivo(x.carimbo@, 0);
                }
            } else {
                assert(r[i] == s[i - 1] && r[j] == s[j - 1]);
            }
        }
    } else {
        let d = s.drop_first();
        assert(do_mais_novo_ao_mais_velho(d)) by {
            assert forall|i: int, j: int| 0 <= i < j < d.len() implies !lex_menor(#[trigger] d[i].carimbo@, #[trigger] d[j].carimbo@) by {
                assert(d[i] == s[i + 1] && d[j] == s[j + 1]);
            }
        }
        lema_inserir_ordena(d, x);
        lema_inserir_elementos(d, x);
        let t = inserir_snapshot(d, x);
        assert(r =~= seq![s[0]] + t);
        assert forall|i: int, j: int| 0 <= i < j < r.len() implies !lex_menor(#[trigger] r[i].carimbo@, #[trigger] r[j].carimbo@) by {
            if i == 0 {
                let y = t[j - 1];
                assert(r[j] == y);
                if y != x {
                    assert(d.contains(y));
                    let m = choose|m: int| 0 <= m < d.len() && d[m] == y;
                    assert(s[m + 1] == y);
                }
            } else {
                assert(r[i] == t[i - 1] && r[j] == t[j - 1]);
            }
        }
    }
}

/// A ordenação dos snapshots: do mais novo para o mais velho, e nenhum snapshot
/// some nem aparece.
pub proof fn lei_snapshots_do_mais_novo_para_o_mais_velho(s: Seq<ResumoSnapshot>)
    ensures
        do_mais_novo_ao_mais_velho(ordenar_snapshots_spec(s)),
        ordenar_snapshots_spec(s).to_multiset() == s.to_multiset(),
    decreases s.len(),
{
    broadcast use vstd::seq_lib::group_to_multiset_ensures;
    if s.len() > 0 {
        lei_snapshots_do_mais_novo_para_o_mais_velho(s.drop_last());
        lema_inserir_ordena(ordenar_snapshots_spec(s.drop_last()), s.last());
        lema_inserir_elementos(ordenar_snapshots_spec(s.drop_last()), s.last());
        vstd::seq_lib::to_multiset_build(s.drop_last(), s.last());
        assert(s.drop_last().push(s.last()) =~= s);
    } else {
        assert(s.to_multiset() =~= vstd::multiset::Multiset::<ResumoSnapshot>::empty());
        assert(ordenar_snapshots_spec(s).to_multiset() =~= vstd::multiset::Multiset::<ResumoSnapshot>::empty());
    }
}

/// Snapshots do mais novo para o mais velho: o carimbo `AAAAMMDD-hhmmss` faz a
/// ordem lexicográfica coincidir com a cronológica.
pub fn ordenar_snapshots(v: Vec<ResumoSnapshot>) -> (r: Vec<ResumoSnapshot>)
    ensures
        r@ == ordenar_snapshots_spec(v@),
{
    let ghost orig = v@;
    let mut entrada = v;
    let mut out: Vec<ResumoSnapshot> = Vec::new();
    let ghost mut k: int = 0;
    while entrada.len() > 0
        invariant
            0 <= k <= orig.len(),
            entrada@ == orig.subrange(k, orig.len() as int),
            out@ == ordenar_snapshots_spec(orig.take(k)),
        decreases entrada.len(),
    {
        let x = entrada.remove(0);
        let cx = chars_de(x.carimbo.as_str());
        let mut j: usize = 0;
        let mut parar = false;
        while j < out.len() && !parar
            invariant
                j <= out.len(),
                cx@ == x.carimbo@,
                forall|t: int| 0 <= t < j ==> !lex_menor(#[trigger] out@[t].carimbo@, x.carimbo@),
                parar ==> j < out.len() && lex_menor(out@[j as int].carimbo@, x.carimbo@),
            decreases out.len() - j, if parar { 0int } else { 1int },
        {
            let cj = chars_de(out[j].carimbo.as_str());
            if lex_menor_exec(&cj, &cx) {
                parar = true;
            } else {
                j = j + 1;
            }
        }
        proof {
            lema_inserir_posicao(out@, x, j as int);
            assert(orig.take(k + 1).drop_last() =~= orig.take(k));
            assert(orig.take(k + 1).last() == x);
        }
        out.insert(j, x);
        proof {
            k = k + 1;
        }
    }
    assert(orig.take(k) =~= orig);
    out
}

/// Insere `x` antes do primeiro projeto modificado há mais tempo.
pub open spec fn inserir_projeto(s: Seq<ResumoProjeto>, x: ResumoProjeto) -> Seq<ResumoProjeto>
    decreases s.len(),
{
    if s.len() == 0 {
        seq![x]
    } else if s[0].modificado_em < x.modificado_em {
        seq![x] + s
    } else {
        seq![s[0]] + inserir_projeto(s.drop_first(), x)
    }
}

/// Catálogo do mais recente para o mais antigo; empates na ordem em que vieram.
pub open spec fn ordenar_projetos_spec(s: Seq<ResumoProjeto>) -> Seq<ResumoProjeto>
    decreases s.len(),
{
    if s.len() == 0 {
        Seq::empty()
    } else {
        inserir_projeto(ordenar_projetos_spec(s.drop_last()), s.last())
    }
}

proof fn lema_inserir_projeto_posicao(s: Seq<ResumoProjeto>, x: ResumoProjeto, j: int)
    requires
        0 <= j <= s.len(),
        forall|k: int| 0 <= k < j ==> (#[trigger] s[k]).modificado_em >= x.modificado_em,
        j == s.len() || s[j].modificado_em < x.modificado_em,
    ensures
        s.insert(j, x) == inserir_projeto(s, x),
    decreases s.len(),
{
    if s.len() == 0 {
        assert(s.insert(j, x) =~= seq![x]);
    } else if j == 0 {
        assert(s.insert(0, x) =~= seq![x] + s);
    } else {
        let r = s.drop_first();
        assert forall|k: int| 0 <= k < j - 1 implies (#[trigger] r[k]).modificado_em >= x.modificado_em by {
            assert(r[k] == s[k + 1]);
        }
        lema_inserir_projeto_posicao(r, x, j - 1);
        assert(s.insert(j, x) =~= seq![s[0]] + r.insert(j - 1, x));
    }
}

proof fn lema_inserir_projeto(s: Seq<ResumoProjeto>, x: ResumoProjeto)
    requires
        forall|i: int, j: int| 0 <= i < j < s.len() ==> (#[trigger] s[i]).modificado_em >= (#[trigger] s[j]).modificado_em,
    ensures
        forall|i: int, j: int| 0 <= i < j < inserir_projeto(s, x).len()
            ==> (#[trigger] inserir_projeto(s, x)[i]).modificado_em >= (#[trigger] inserir_projeto(s, x)[j]).modificado_em,
        inserir_projeto(s, x).to_multiset() == s.to_multiset().insert(x),
        forall|k: int| 0 <= k < inserir_projeto(s, x).len() ==>
            (#[trigger] inserir_projeto(s, x)[k] == x || s.contains(inserir_projeto(s, x)[k])),
        inserir_projeto(s, x).len() == s.len() + 1,
    decreases s.len(),
{
    broadcast use vstd::seq_lib::group_to_multiset_ensures;
    let r = inserir_projeto(s, x);
    if s.len() == 0 {
        assert(r =~= Seq::<ResumoProjeto>::empty().push(x));
        vstd::seq_lib::to_multiset_build(Seq::<ResumoProjeto>::empty(), x);
    } else if s[0].modificado_em < x.modificado_em {
        assert(r =~= s.insert(0, x));
        vstd::seq_lib::to_multiset_insert(s, 0, x);
        assert forall|k: int| 0 <= k < r.len() implies (#[trigger] r[k] == x || s.contains(r[k])) by {
            if k > 0 {
                assert(r[k] == s[k - 1]);
            }
        }
        assert forall|i: int, j: int| 0 <= i < j < r.len() implies (#[trigger] r[i]).modificado_em >= (#[trigger] r[j]).modificado_em by {
            if i > 0 {
                assert(r[i] == s[i - 1] && r[j] == s[j - 1]);
            } else {
                assert(r[j] == s[j - 1]);
                if j > 1 {
                    assert(s[0].modificado_em >= s[j - 1].modificado_em);
                }
            }
        }
    } else {
        let d = s.drop_first();
        assert forall|i: int, j: int| 0 <= i < j < d.len() implies (#[trigger] d[i]).modificado_em >= (#[trigger] d[j]).modificado_em by {
            assert(d[i] == s[i + 1] && d[j] == s[j + 1]);
        }
        lema_inserir_projeto(d, x);
        let t = inserir_projeto(d, x);
        assert(r =~= seq![s[0]] + t);
        assert forall|k: int| 0 <= k < r.len() implies (#[trigger] r[k] == x || s.contains(r[k])) by {
            if k == 0 {
                assert(r[0] == s[0]);
            } else {
                assert(r[k] == t[k - 1]);
                if t[k - 1] != x {
                    let m = choose|m: int| 0 <= m < d.len() && d[m] == t[k - 1];
                    assert(s[m + 1] == d[m]);
                }
            }
        }
        assert forall|i: int, j: int| 0 <= i < j < r.len() implies (#[trigger] r[i]).modificado_em >= (#[trigger] r[j]).modificado_em by {
            if i > 0 {
                assert(r[i] == t[i - 1] && r[j] == t[j - 1]);
            } else {
                let y = t[j - 1];
                assert(r[j] == y);
                if y != x {
                    let m = choose|m: int| 0 <= m < d.len() && d[m] == y;
                    assert(s[m + 1] == y);
                }
            }
        }
        assert(s =~= seq![s[0]] + d);
        assert(r.to_multiset() == s.to_multiset().insert(x)) by {
            lema_multiset_cons(s[0], t);
            lema_multiset_cons(s[0], d);
        }
    }
}

proof fn lema_multiset_cons(a: ResumoProjeto, t: Seq<ResumoProjeto>)
    ensures
        (seq![a] + t).to_multiset() == t.to_multiset().insert(a),
{
    broadcast use vstd::seq_lib::group_to_multiset_ensures;
    vstd::seq_lib::to_multiset_insert(t, 0, a);
    assert(t.insert(0, a) =~= seq![a] + t);
}

/// A ordenação do catálogo: do mais recente para o mais antigo, sem perder nem
/// inventar projeto.
pub proof fn lei_catalogo_do_mais_recente(s: Seq<ResumoProjeto>)
    ensures
        forall|i: int, j: int| 0 <= i < j < ordenar_projetos_spec(s).len()
            ==> (#[trigger] ordenar_projetos_spec(s)[i]).modificado_em >= (#[trigger] ordenar_projetos_spec(s)[j]).modificado_em,
        ordenar_projetos_spec(s).to_multiset() == s.to_multiset(),
    decreases s.len(),
{
    broadcast use vstd::seq_lib::group_to_multiset_ensures;
    if s.len() > 0 {
        lei_catalogo_do_mais_recente(s.drop_last());
        lema_inserir_projeto(ordenar_projetos_spec(s.drop_last()), s.last());
        vstd::seq_lib::to_multiset_build(s.drop_last(), s.last());
        assert(s.drop_last().push(s.last()) =~= s);
    } else {
        assert(s.to_multiset() =~= vstd::multiset::Multiset::<ResumoProjeto>::empty());
        assert(ordenar_projetos_spec(s).to_multiset() =~= vstd::multiset::Multiset::<ResumoProjeto>::empty());
    }
}

/// Catálogo para a tela inicial, do mais recente para o mais antigo.
pub fn ordenar_projetos(v: Vec<ResumoProjeto>) -> (r: Vec<ResumoProjeto>)
    ensures
        r@ == ordenar_projetos_spec(v@),
{
    let ghost orig = v@;
    let mut entrada = v;
    let mut out: Vec<ResumoProjeto> = Vec::new();
    let ghost mut k: int = 0;
    while entrada.len() > 0
        invariant
            0 <= k <= orig.len(),
            entrada@ == orig.subrange(k, orig.len() as int),
            out@ == ordenar_projetos_spec(orig.take(k)),
        decreases entrada.len(),
    {
        let x = entrada.remove(0);
        let mut j: usize = 0;
        while j < out.len() && out[j].modificado_em >= x.modificado_em
            invariant
                j <= out.len(),
                forall|t: int| 0 <= t < j ==> (#[trigger] out@[t]).modificado_em >= x.modificado_em,
            decreases out.len() - j,
        {
            j = j + 1;
        }
        proof {
            lema_inserir_projeto_posicao(out@, x, j as int);
            assert(orig.take(k + 1).drop_last() =~= orig.take(k));
            assert(orig.take(k + 1).last() == x);
        }
        out.insert(j, x);
        proof {
            k = k + 1;
        }
    }
    assert(orig.take(k) =~= orig);
    out
}

/// Nome mostrado na tela inicial: o campo `nome` do arquivo, ou o identificador
/// quando o arquivo não pôde ser lido ou não tem o campo.
pub fn nome_para_resumo(slug: &str, texto: Option<&str>) -> (r: String)
    ensures
        r@ == match texto {
            Some(t) => match nome_do_json_spec(t@) {
                Some(n) => n,
                None => slug@,
            },
            None => slug@,
        },
{
    match texto {
        Some(t) => match nome_do_json(t) {
            Some(n) => n,
            None => slug.to_owned(),
        },
        None => slug.to_owned(),
    }
}

/// O que restaurar um snapshot faz: guarda o projeto atual como snapshot (se
/// houver) e salva o conteúdo do snapshot como projeto.
#[derive(Debug, Clone, PartialEq, Eq)]
pub struct Restauracao {
    pub snapshot_do_atual: Option<String>,
    pub salvamento: Salvamento,
}

impl Workspace {
    /// Snapshot carimbado pelo relógio: `agora` em segundos desde 1970-01-01.
    pub fn criar_snapshot(&self, slug: &str, agora: u64, rotulo: &str) -> (r: String)
        ensures
            r@ == caminho(snapshots_spec(self.raiz_spec(), slug@), nome_snapshot_spec(carimbo_spec(agora as int), rotulo@)),
    {
        let c = carimbo_de_segundos(agora);
        self.criar_snapshot_em(slug, c.as_str(), rotulo)
    }

    /// Restaurar um snapshot: o estado atual, se legível, vira snapshot antes; a
    /// restauração também é reversível. Projeto inexistente é erro.
    pub fn restaurar_snapshot(&self, slug: &str, pasta_existe: bool, atual_legivel: bool, carimbo: &str)
        -> (r: Result<Restauracao, WorkspaceErro>)
        ensures
            match r {
                Ok(p) => {
                    &&& pasta_existe
                    &&& (atual_legivel <==> p.snapshot_do_atual is Some)
                    &&& (p.snapshot_do_atual matches Some(a) ==> a@ == caminho(snapshots_spec(self.raiz_spec(), slug@),
                        nome_snapshot_spec(carimbo@, "antes-de-restaurar"@)))
                    &&& p.salvamento.gravar_em@ == arquivo_spec(self.raiz_spec(), slug@)
                    &&& p.salvamento.remover_autosave@ == autosave_spec(self.raiz_spec(), slug@)
                },
                Err(e) => !pasta_existe && (e matches WorkspaceErro::NaoEncontrado(s) && s@ == slug@),
            },
    {
        let salvamento = match self.salvar(slug, pasta_existe) {
            Ok(s) => s,
            Err(e) => return Err(e),
        };
        let snapshot = if atual_legivel {
            Some(self.criar_snapshot_em(slug, carimbo, "antes-de-restaurar"))
        } else {
            None
        };
        Ok(Restauracao { snapshot_do_atual: snapshot, salvamento })
    }

    /// Duplicar: abre o original (que precisa existir) e cria um projeto novo com o
    /// nome novo; recusa se o identificador novo já existe. Devolve o arquivo a
    /// ler e o identificador novo.
    pub fn duplicar(&self, slug: &str, novo_nome: &str, original_existe: bool, destino_existe: bool)
        -> (r: Result<(String, String), WorkspaceErro>)
        ensures
            match r {
                Ok((origem, novo)) => original_existe && !destino_existe
                    && origem@ == arquivo_spec(self.raiz_spec(), slug@) && novo@ == slug_spec(novo_nome@),
                Err(e) => (!original_existe && (e matches WorkspaceErro::NaoEncontrado(s) && s@ == slug@))
                    || (original_existe && destino_existe
                        && (e matches WorkspaceErro::JaExiste(s) && s@ == slug_spec(novo_nome@))),
            },
    {
        let origem = match self.abrir(slug, original_existe) {
            Ok(a) => a,
            Err(e) => return Err(e),
        };
        match self.criar(novo_nome, destino_existe) {
            Ok(novo) => Ok((origem, novo)),
            Err(e) => Err(e),
        }
    }
}

/// `s` começa com `p`.
pub fn comeca_com(s: &str, p: &str) -> (r: bool)
    ensures
        r == p@.is_prefix_of(s@),
{
    let vs = chars_de(s);
    let vp = chars_de(p);
    if vp.len() > vs.len() {
        return false;
    }
    let mut i: usize = 0;
    while i < vp.len()
        invariant
            vs@ == s@,
            vp@ == p@,
            vp.len() <= vs.len(),
            i <= vp.len(),
            forall|j: int| 0 <= j < i ==> vp@[j] == vs@[j],
        decreases vp.len() - i,
    {
        if vp[i] != vs[i] {
            assert(p@[i as int] != s@.subrange(0, p@.len() as int)[i as int]);
            return false;
        }
        i = i + 1;
    }
    assert(p@ =~= s@.subrange(0, p@.len() as int));
    true
}

/// O snapshot que uma restauração pede pelo começo do carimbo: o primeiro da
/// lista (que vem do mais novo para o mais velho) cujo carimbo começa com
/// `prefixo`.
pub fn escolher_snapshot(lista: &[ResumoSnapshot], prefixo: &str) -> (r: Result<usize, WorkspaceErro>)
    ensures
        match r {
            Ok(i) => i < lista@.len() && prefixo@.is_prefix_of(lista@[i as int].carimbo@)
                && forall|j: int| 0 <= j < i ==> !prefixo@.is_prefix_of(#[trigger] lista@[j].carimbo@),
            Err(e) => (e matches WorkspaceErro::NaoEncontrado(s) && s@ == prefixo@)
                && forall|j: int| 0 <= j < lista@.len() ==> !prefixo@.is_prefix_of(#[trigger] lista@[j].carimbo@),
        },
{
    let mut i: usize = 0;
    while i < lista.len()
        invariant
            i <= lista@.len(),
            forall|j: int| 0 <= j < i ==> !prefixo@.is_prefix_of(#[trigger] lista@[j].carimbo@),
        decreases lista.len() - i,
    {
        if comeca_com(lista[i].carimbo.as_str(), prefixo) {
            return Ok(i);
        }
        i = i + 1;
    }
    Err(WorkspaceErro::NaoEncontrado(prefixo.to_owned()))
}

/// O projeto da lixeira que uma restauração pede pelo começo do identificador:
/// o primeiro da lista cujo identificador começa com `prefixo`.
pub fn escolher_da_lixeira(lista: &[ResumoProjeto], prefixo: &str) -> (r: Result<usize, WorkspaceErro>)
    ensures
        match r {
            Ok(i) => i < lista@.len() && prefixo@.is_prefix_of(lista@[i as int].slug@)
                && forall|j: int| 0 <= j < i ==> !prefixo@.is_prefix_of(#[trigger] lista@[j].slug@),
            Err(e) => (e matches WorkspaceErro::NaoEncontrado(s) && s@ == prefixo@)
                && forall|j: int| 0 <= j < lista@.len() ==> !prefixo@.is_prefix_of(#[trigger] lista@[j].slug@),
        },
{
    let mut i: usize = 0;
    while i < lista.len()
        invariant
            i <= lista@.len(),
            forall|j: int| 0 <= j < i ==> !prefixo@.is_prefix_of(#[trigger] lista@[j].slug@),
        decreases lista.len() - i,
    {
        if comeca_com(lista[i].slug.as_str(), prefixo) {
            return Ok(i);
        }
        i = i + 1;
    }
    Err(WorkspaceErro::NaoEncontrado(prefixo.to_owned()))
}

} // verus!
