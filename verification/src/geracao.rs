//! Regras do executor de geração em lote: data de criação do manifesto.

use vstd::prelude::*;
use crate::calendario::{civil, lema_civil, lema_ano_da_era, lema_mes, dia_do_ano};
use vstd::arithmetic::div_mod::lemma_fundamental_div_mod_converse;
use crate::texto::{com_zeros, empurrar_com_zeros, string_de, chars_de, empurrar_texto};

verus! {

/// Divisão inteira truncada em direção a zero, como o `/` de Rust.
pub open spec fn div_trunc(a: int, b: int) -> int {
    if a >= 0 { a / b } else { -((-a) / b) }
}

/// Data civil pela variante do algoritmo usada no executor: a era é tirada de
/// `z` deslocado quando `z` é negativo, e toda divisão trunca em direção a zero.
pub open spec fn civil_do_executor(dias: int) -> (int, int, int) {
    let z = dias + 719468;
    let era = (if z >= 0 { z } else { z - 146096 }) / 146097;
    let doe = z - era * 146097;
    let yoe = div_trunc(doe - div_trunc(doe, 1460) + div_trunc(doe, 36524) - div_trunc(doe, 146096), 365);
    let doy = doe - (365 * yoe + div_trunc(yoe, 4) - div_trunc(yoe, 100));
    let mp = div_trunc(5 * doy + 2, 153);
    let d = doy - div_trunc(153 * mp + 2, 5) + 1;
    let m = mp + if mp < 10 { 3int } else { -9int };
    let a = yoe + era * 400;
    (a + if m <= 2 { 1int } else { 0int }, m, d)
}

/// Para todo dia a partir de 0000-02-29 (dia −719469), a variante do executor
/// dá a mesma data que o algoritmo de referência. (Antes disso ela desloca a era:
/// no dia −719470 o dia da era passa de 146096.)
pub proof fn lei_executor_concorda_com_calendario(dias: int)
    requires
        dias >= -719469,
    ensures
        civil_do_executor(dias) == civil(dias),
{
    let z = dias + 719468;
    if z == -1 {
        assert((z - 146096) / 146097 == -1);
        assert(z / 146097 == -1);
    }
    let era = z / 146097;
    let doe = z % 146097;
    lemma_fundamental_div_mod_converse(z, 146097, era, doe);
    assert(z - era * 146097 == doe);
    lema_ano_da_era(doe);
    lema_mes(dia_do_ano(doe));
}

/// Dias desde 1970-01-01 para `(ano, mês, dia)`, como o executor calcula.
pub fn civil_from_days(days_since_epoch: i64) -> (r: (i64, i64, i64))
    requires
        days_since_epoch <= i64::MAX - 719468,
    ensures
        r.0 == civil_do_executor(days_since_epoch as int).0,
        r.1 == civil_do_executor(days_since_epoch as int).1,
        r.2 == civil_do_executor(days_since_epoch as int).2,
{
    let z = days_since_epoch + 719_468;
    let base = if z >= 0 { z } else { z - 146_096 };
    let era = base.checked_div_euclid(146_097).unwrap();
    let day_of_era = z - era * 146_097;
    assert(0 <= day_of_era < 2 * 146097);
    let year_of_era = (day_of_era - day_of_era / 1_460 + day_of_era / 36_524 - day_of_era / 146_096) / 365;
    let mut year = year_of_era + era * 400;
    let day_of_year = day_of_era - (365 * year_of_era + year_of_era / 4 - year_of_era / 100);
    let month_prime = (5 * day_of_year + 2) / 153;
    let day = day_of_year - (153 * month_prime + 2) / 5 + 1;
    let month = month_prime + if month_prime < 10 { 3 } else { -9 };
    year += if month <= 2 { 1 } else { 0 };
    (year, month, day)
}

/// Instante `segundos` (desde 1970-01-01T00:00:00Z) no formato
/// `AAAA-MM-DDThh:mm:ssZ`.
pub open spec fn utc_spec(segundos: int) -> Seq<char> {
    let (a, m, d) = civil(segundos / 86400);
    let r = segundos % 86400;
    com_zeros(a as nat, 4) + seq!['-'] + com_zeros(m as nat, 2) + seq!['-'] + com_zeros(d as nat, 2)
        + seq!['T'] + com_zeros((r / 3600) as nat, 2) + seq![':'] + com_zeros(((r % 3600) / 60) as nat, 2)
        + seq![':'] + com_zeros((r % 60) as nat, 2) + seq!['Z']
}

/// Carimbo de criação do manifesto para o instante `seconds` (o relógio fica com
/// quem chama).
pub fn utc_from_seconds(seconds: i64) -> (r: String)
    requires
        seconds >= 0,
    ensures
        r@ == utc_spec(seconds as int),
{
    let days = seconds.checked_div_euclid(86_400).unwrap();
    let day_seconds = seconds.checked_rem_euclid(86_400).unwrap();
    proof {
        lei_executor_concorda_com_calendario(days as int);
        lema_civil(days as int);
    }
    let (year, month, day) = civil_from_days(days);
    let hour = day_seconds / 3_600;
    let minute = (day_seconds % 3_600) / 60;
    let second = day_seconds % 60;
    assert(year >= 0) by {
        lema_ano_da_era((days + 719468) as int % 146097);
    }
    let mut v: Vec<char> = Vec::new();
    empurrar_com_zeros(year as u64, 4, &mut v);
    v.push('-');
    empurrar_com_zeros(month as u64, 2, &mut v);
    v.push('-');
    empurrar_com_zeros(day as u64, 2, &mut v);
    v.push('T');
    empurrar_com_zeros(hour as u64, 2, &mut v);
    v.push(':');
    empurrar_com_zeros(minute as u64, 2, &mut v);
    v.push(':');
    empurrar_com_zeros(second as u64, 2, &mut v);
    v.push('Z');
    string_de(&v)
}

/// Arquivo em que o resultado JSON de cada tipo de geração é gravado.
pub open spec fn arquivo_de_resultado_spec(kind: Seq<char>) -> Seq<char> {
    if kind == "materials.generate"@ {
        "materials.json"@
    } else if kind == "tiles.generate"@ {
        "tile-plan.json"@
    } else if kind == "region.context.generate"@ {
        "region-context.json"@
    } else {
        "result.json"@
    }
}

fn mesmo_texto(a: &str, b: &str) -> (r: bool)
    ensures
        r == (a@ == b@),
{
    a.to_owned() == b.to_owned()
}

/// Nome do arquivo do resultado JSON de um tipo de geração.
pub fn arquivo_de_resultado(kind: &str) -> (r: &'static str)
    ensures
        r@ == arquivo_de_resultado_spec(kind@),
{
    if mesmo_texto(kind, "materials.generate") {
        "materials.json"
    } else if mesmo_texto(kind, "tiles.generate") {
        "tile-plan.json"
    } else if mesmo_texto(kind, "region.context.generate") {
        "region-context.json"
    } else {
        "result.json"
    }
}

/// Identificação do gerador no relatório: `<plugin>@<versão>`.
pub fn nome_do_gerador(plugin_id: &str, plugin_version: &str) -> (r: String)
    ensures
        r@ == plugin_id@ + "@"@ + plugin_version@,
{
    let mut v: Vec<char> = Vec::new();
    empurrar_texto(&mut v, plugin_id);
    empurrar_texto(&mut v, "@");
    empurrar_texto(&mut v, plugin_version);
    string_de(&v)
}

/// Valor de um algarismo hexadecimal (maiúsculo ou minúsculo).
pub open spec fn valor_hex(c: char) -> Option<nat> {
    if '0' <= c && c <= '9' {
        Some((c as nat - '0' as nat) as nat)
    } else if 'a' <= c && c <= 'f' {
        Some((c as nat - 'a' as nat + 10) as nat)
    } else if 'A' <= c && c <= 'F' {
        Some((c as nat - 'A' as nat + 10) as nat)
    } else {
        None
    }
}

/// Valor de `s` lido em base 16 (todos os caracteres precisam ser algarismos).
pub open spec fn numero_hex(s: Seq<char>) -> Option<nat>
    decreases s.len(),
{
    if s.len() == 0 {
        Some(0)
    } else {
        match (numero_hex(s.drop_last()), valor_hex(s.last())) {
            (Some(a), Some(d)) => Some(a * 16 + d),
            _ => None,
        }
    }
}

fn valor_hex_exec(c: char) -> (r: Option<u64>)
    ensures
        match r {
            Some(v) => valor_hex(c) == Some(v as nat) && v < 16,
            None => valor_hex(c) is None,
        },
{
    if '0' <= c && c <= '9' {
        Some((c as u64) - ('0' as u64))
    } else if 'a' <= c && c <= 'f' {
        Some((c as u64) - ('a' as u64) + 10)
    } else if 'A' <= c && c <= 'F' {
        Some((c as u64) - ('A' as u64) + 10)
    } else {
        None
    }
}

/// `16^n`.
pub open spec fn pot16(n: nat) -> nat
    decreases n,
{
    if n == 0 { 1 } else { 16 * pot16((n - 1) as nat) }
}

proof fn lema_pot16(n: nat)
    requires
        n <= 15,
    ensures
        pot16(n) <= 0x1000_0000_0000_0000,
    decreases 15 - n,
{
    if n < 15 {
        lema_pot16(n + 1);
    } else {
        reveal_with_fuel(pot16, 16);
    }
}

/// Bytes de um caractere em UTF-8.
pub open spec fn bytes_utf8(c: char) -> nat {
    if (c as u32) < 0x80 {
        1
    } else if (c as u32) < 0x800 {
        2
    } else if (c as u32) < 0x10000 {
        3
    } else {
        4
    }
}

/// Tamanho de um texto em UTF-8.
pub open spec fn tam_utf8(s: Seq<char>) -> nat
    decreases s.len(),
{
    if s.len() == 0 { 0 } else { tam_utf8(s.drop_last()) + bytes_utf8(s.last()) }
}

/// Os 16 primeiros bytes do texto terminam numa fronteira de caractere (o corte
/// `[..16]` é válido).
pub open spec fn corta_em_16_bytes(s: Seq<char>) -> bool {
    exists|k: int| 0 <= k <= s.len() && #[trigger] tam_utf8(s.take(k)) == 16
}

/// Leitura em base 16 à maneira de `u64::from_str_radix`: um `+` opcional seguido
/// de ao menos um algarismo hexadecimal.
pub open spec fn ler_hex(t: Seq<char>) -> Option<nat> {
    if t.len() > 0 && t[0] == '+' {
        if t.len() == 1 { None } else { numero_hex(t.drop_first()) }
    } else if t.len() == 0 {
        None
    } else {
        numero_hex(t)
    }
}

/// Semente lida dos 16 primeiros bytes do resumo: se eles são os 16 primeiros
/// caracteres (todos ASCII), a leitura em base 16; senão o trecho tem um caractere
/// que não é algarismo e não há semente.
pub open spec fn semente_spec(s: Seq<char>) -> Option<nat> {
    if s.len() >= 16 && forall|i: int| 0 <= i < 16 ==> (#[trigger] s[i] as u32) < 0x80 {
        ler_hex(s.take(16))
    } else {
        None
    }
}

/// Valor bruto de onde parte a semente de um pedido sem `params.seed`: os 16
/// primeiros bytes do resumo lidos em base 16 (com `+` opcional), ou `None` se o
/// trecho não for um número hexadecimal. A derivação por rótulo que o gerador
/// aplica depois sobre esse valor não faz parte desta função.
pub fn semente_do_resumo(request_hash: &str) -> (r: Option<u64>)
    requires
        corta_em_16_bytes(request_hash@),
    ensures
        match r {
            Some(v) => semente_spec(request_hash@) == Some(v as nat),
            None => semente_spec(request_hash@) is None,
        },
{
    let v = chars_de(request_hash);
    let mut acc: u64 = 0;
    let mut i: usize = 0;
    let mut sinal = false;
    let ghost s = request_hash@;
    if v.len() > 0 && v[0] == '+' {
        sinal = true;
        i = 1;
    }
    while i < 16
        invariant
            v@ == s,
            s == request_hash@,
            sinal == (s.len() > 0 && s[0] == '+'),
            sinal ==> 1 <= i <= 16,
            !sinal ==> i <= 16,
            i <= v@.len() || (i == 1 && sinal),
            forall|j: int| 0 <= j < i ==> (#[trigger] s[j] as u32) < 0x80,
            sinal ==> numero_hex(s.take(i as int).drop_first()) == Some(acc as nat) && acc < pot16((i - 1) as nat),
            !sinal ==> numero_hex(s.take(i as int)) == Some(acc as nat) && acc < pot16(i as nat),
        decreases 16 - i,
    {
        if i >= v.len() {
            proof {
                assert(s.len() < 16);
            }
            return None;
        }
        let ghost base: Seq<char> = if sinal { s.take(i as int).drop_first() } else { s.take(i as int) };
        let ghost base1: Seq<char> = if sinal { s.take(i + 1).drop_first() } else { s.take(i + 1) };
        assert(base1.drop_last() =~= base);
        assert(base1.last() == s[i as int]);
        match valor_hex_exec(v[i]) {
            Some(d) => {
                let ghost n: nat = if sinal { (i - 1) as nat } else { i as nat };
                proof {
                    let p = pot16(n);
                    lema_pot16(n);
                    assert(acc * 16 + d < p * 16) by (nonlinear_arith)
                        requires
                            acc < p,
                            d < 16,
                    ;
                    assert((s[i as int] as u32) < 0x80);
                }
                acc = acc * 16 + d;
            },
            None => {
                proof {
                    if s.len() >= 16 && forall|j: int| 0 <= j < 16 ==> (#[trigger] s[j] as u32) < 0x80 {
                        let t = s.take(16);
                        if sinal {
                            assert(t.drop_first().take(i as int) =~= base1);
                            lema_nenhum_prefixo(t.drop_first(), i as int);
                        } else {
                            assert(t.take(i + 1) =~= base1);
                            lema_nenhum_prefixo(t, i as int + 1);
                        }
                    }
                }
                return None;
            },
        }
        i = i + 1;
    }
    proof {
        let t = s.take(16);
        assert(s.len() >= 16);
        if sinal {
            assert(t.drop_first() =~= s.take(16).drop_first());
        } else {
            assert(t =~= s.take(16));
        }
    }
    Some(acc)
}

proof fn lema_nenhum_prefixo(s: Seq<char>, n: int)
    requires
        0 <= n <= s.len(),
        numero_hex(s.take(n)) is None,
    ensures
        numero_hex(s) is None,
    decreases s.len() - n,
{
    if n < s.len() {
        assert(s.take(n + 1).drop_last() =~= s.take(n));
        lema_nenhum_prefixo(s, n + 1);
    } else {
        assert(s.take(n) =~= s);
    }
}

/// Caminho relativo com `/` como separador, como vai para o manifesto.
pub fn caminho_com_barras(relativo: &str) -> (r: String)
    ensures
        r@ == relativo@.map_values(|c: char| if c == '\\' { '/' } else { c }),
{
    let v = chars_de(relativo);
    let mut out: Vec<char> = Vec::new();
    let mut i: usize = 0;
    while i < v.len()
        invariant
            i <= v.len(),
            v@ == relativo@,
            out@ == v@.take(i as int).map_values(|c: char| if c == '\\' { '/' } else { c }),
        decreases v.len() - i,
    {
        out.push(if v[i] == '\\' { '/' } else { v[i] });
        i = i + 1;
        assert(out@ =~= v@.take(i as int).map_values(|c: char| if c == '\\' { '/' } else { c }));
    }
    assert(v@.take(v.len() as int) =~= v@);
    string_de(&out)
}

/// Versão de envelope que o executor aceita.
pub const VERSAO_DO_ENVELOPE: u32 = 1;

/// O executor só aceita envelopes na versão que conhece.
pub fn envelope_suportado(schema_version: u32) -> (r: bool)
    ensures
        r == (schema_version == VERSAO_DO_ENVELOPE),
{
    schema_version == VERSAO_DO_ENVELOPE
}

/// Cada tipo de geração grava o seu resultado no seu arquivo; os demais em
/// `result.json`.
pub proof fn lei_tabela_dos_resultados()
    ensures
        arquivo_de_resultado_spec("materials.generate"@) == "materials.json"@,
        arquivo_de_resultado_spec("tiles.generate"@) == "tile-plan.json"@,
        arquivo_de_resultado_spec("region.context.generate"@) == "region-context.json"@,
        arquivo_de_resultado_spec("buildings.generate"@) == "result.json"@,
{
    reveal_strlit("materials.generate");
    assert("materials.generate"@.len() == 18 && "materials.generate"@[0] == 'm' && "materials.generate"@[1] == 'a' && "materials.generate"@[2] == 't' && "materials.generate"@[3] == 'e' && "materials.generate"@[4] == 'r' && "materials.generate"@[5] == 'i' && "materials.generate"@[6] == 'a' && "materials.generate"@[7] == 'l' && "materials.generate"@[8] == 's' && "materials.generate"@[9] == '.' && "materials.generate"@[10] == 'g' && "materials.generate"@[11] == 'e' && "materials.generate"@[12] == 'n' && "materials.generate"@[13] == 'e' && "materials.generate"@[14] == 'r' && "materials.generate"@[15] == 'a' && "materials.generate"@[16] == 't' && "materials.generate"@[17] == 'e');
    reveal_strlit("tiles.generate");
    assert("tiles.generate"@.len() == 14 && "tiles.generate"@[0] == 't' && "tiles.generate"@[1] == 'i' && "tiles.generate"@[2] == 'l' && "tiles.generate"@[3] == 'e' && "tiles.generate"@[4] == 's' && "tiles.generate"@[5] == '.' && "tiles.generate"@[6] == 'g' && "tiles.generate"@[7] == 'e' && "tiles.generate"@[8] == 'n' && "tiles.generate"@[9] == 'e' && "tiles.generate"@[10] == 'r' && "tiles.generate"@[11] == 'a' && "tiles.generate"@[12] == 't' && "tiles.generate"@[13] == 'e');
    reveal_strlit("region.context.generate");
    assert("region.context.generate"@.len() == 23 && "region.context.generate"@[0] == 'r' && "region.context.generate"@[1] == 'e' && "region.context.generate"@[2] == 'g' && "region.context.generate"@[3] == 'i' && "region.context.generate"@[4] == 'o' && "region.context.generate"@[5] == 'n' && "region.context.generate"@[6] == '.' && "region.context.generate"@[7] == 'c' && "region.context.generate"@[8] == 'o' && "region.context.generate"@[9] == 'n' && "region.context.generate"@[10] == 't' && "region.context.generate"@[11] == 'e' && "region.context.generate"@[12] == 'x' && "region.context.generate"@[13] == 't' && "region.context.generate"@[14] == '.' && "region.context.generate"@[15] == 'g' && "region.context.generate"@[16] == 'e' && "region.context.generate"@[17] == 'n' && "region.context.generate"@[18] == 'e' && "region.context.generate"@[19] == 'r' && "region.context.generate"@[20] == 'a' && "region.context.generate"@[21] == 't' && "region.context.generate"@[22] == 'e');
    reveal_strlit("buildings.generate");
    assert("buildings.generate"@.len() == 18 && "buildings.generate"@[0] == 'b' && "buildings.generate"@[1] == 'u' && "buildings.generate"@[2] == 'i' && "buildings.generate"@[3] == 'l' && "buildings.generate"@[4] == 'd' && "buildings.generate"@[5] == 'i' && "buildings.generate"@[6] == 'n' && "buildings.generate"@[7] == 'g' && "buildings.generate"@[8] == 's' && "buildings.generate"@[9] == '.' && "buildings.generate"@[10] == 'g' && "buildings.generate"@[11] == 'e' && "buildings.generate"@[12] == 'n' && "buildings.generate"@[13] == 'e' && "buildings.generate"@[14] == 'r' && "buildings.generate"@[15] == 'a' && "buildings.generate"@[16] == 't' && "buildings.generate"@[17] == 'e');
}

} // verus!
