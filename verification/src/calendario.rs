//! Calendário gregoriano proléptico: datas civis a partir de dias corridos desde
//! 1970-01-01, pelo algoritmo de Howard Hinnant, provado contra a contagem direta
//! de dias.

use vstd::prelude::*;
use vstd::arithmetic::div_mod::lemma_fundamental_div_mod_converse;

verus! {

/// Ano bissexto do calendário gregoriano.
pub open spec fn bissexto(a: int) -> bool {
    a % 4 == 0 && (a % 100 != 0 || a % 400 == 0)
}

/// Dias do mês `m` (1 a 12) no ano `a`.
pub open spec fn dias_no_mes(a: int, m: int) -> int {
    if m == 2 {
        if bissexto(a) { 29 } else { 28 }
    } else if m == 4 || m == 6 || m == 9 || m == 11 {
        30
    } else {
        31
    }
}

/// Dias do ano `a` antes do primeiro dia do mês `m`.
pub open spec fn dias_antes_do_mes(a: int, m: int) -> int {
    let base: int = if m == 1 {
        0
    } else if m == 2 {
        31
    } else if m == 3 {
        59
    } else if m == 4 {
        90
    } else if m == 5 {
        120
    } else if m == 6 {
        151
    } else if m == 7 {
        181
    } else if m == 8 {
        212
    } else if m == 9 {
        243
    } else if m == 10 {
        273
    } else if m == 11 {
        304
    } else {
        334
    };
    if m > 2 && bissexto(a) { base + 1 } else { base }
}

/// Quantos anos bissextos há de 1 até `a` (contagem estendida aos inteiros pela
/// divisão arredondada para baixo).
pub open spec fn bissextos_ate(a: int) -> int {
    a / 4 - a / 100 + a / 400
}

/// Dias de 1970-01-01 até o primeiro dia do ano `a`.
pub open spec fn dias_antes_do_ano(a: int) -> int {
    365 * (a - 1970) + bissextos_ate(a - 1) - bissextos_ate(1969)
}

/// Dias de 1970-01-01 até a data `(a, m, d)`.
pub open spec fn dias_desde_epoca(a: int, m: int, d: int) -> int {
    dias_antes_do_ano(a) + dias_antes_do_mes(a, m) + d - 1
}

/// `(a, m, d)` é uma data que existe.
pub open spec fn data_valida(a: int, m: int, d: int) -> bool {
    1 <= m <= 12 && 1 <= d <= dias_no_mes(a, m)
}

/// Ano dentro de uma era de 400 anos (contada a partir de 1º de março).
pub open spec fn ano_da_era(doe: int) -> int {
    (doe - doe / 1460 + doe / 36524 - doe / 146096) / 365
}

/// Dia do ano (contado a partir de 1º de março) de um dia da era.
pub open spec fn dia_do_ano(doe: int) -> int {
    let yoe = ano_da_era(doe);
    doe - (365 * yoe + yoe / 4 - yoe / 100)
}

proof fn lema_ano_da_era_bits(doe: u32)
    by (bit_vector)
    requires
        doe <= 146096,
    ensures
        ((doe - doe / 1460 + doe / 36524 - doe / 146096) / 365) <= 399,
        365 * ((doe - doe / 1460 + doe / 36524 - doe / 146096) / 365)
            + ((doe - doe / 1460 + doe / 36524 - doe / 146096) / 365) / 4
            - ((doe - doe / 1460 + doe / 36524 - doe / 146096) / 365) / 100 <= doe,
        doe - (365 * ((doe - doe / 1460 + doe / 36524 - doe / 146096) / 365)
            + ((doe - doe / 1460 + doe / 36524 - doe / 146096) / 365) / 4
            - ((doe - doe / 1460 + doe / 36524 - doe / 146096) / 365) / 100) <= 365,
        doe - (365 * ((doe - doe / 1460 + doe / 36524 - doe / 146096) / 365)
            + ((doe - doe / 1460 + doe / 36524 - doe / 146096) / 365) / 4
            - ((doe - doe / 1460 + doe / 36524 - doe / 146096) / 365) / 100) == 365
            ==> ((((doe - doe / 1460 + doe / 36524 - doe / 146096) / 365) + 1) % 4 == 0
                && ((((doe - doe / 1460 + doe / 36524 - doe / 146096) / 365) + 1) % 100 != 0
                    || ((doe - doe / 1460 + doe / 36524 - doe / 146096) / 365) == 399)),
{
}

/// O ano da era fica em `0..=399` e o dia do ano em `0..=365`; o dia 365 só existe
/// quando o ano seguinte (o que contém fevereiro) é bissexto.
pub proof fn lema_ano_da_era(doe: int)
    requires
        0 <= doe <= 146096,
    ensures
        0 <= ano_da_era(doe) <= 399,
        0 <= dia_do_ano(doe) <= 365,
        dia_do_ano(doe) == 365 ==> ((ano_da_era(doe) + 1) % 4 == 0
            && ((ano_da_era(doe) + 1) % 100 != 0 || ano_da_era(doe) == 399)),
{
    let d = doe as u32;
    lema_ano_da_era_bits(d);
    assert(d as int == doe);
}

/// Deslocamento do mês `mp` (0 = março) dentro do ano contado a partir de março.
pub open spec fn inicio_do_mes(mp: int) -> int {
    (153 * mp + 2) / 5
}

/// O mês (contado a partir de março) e o dia que saem do dia do ano são válidos.
pub proof fn lema_mes(doy: int)
    requires
        0 <= doy <= 365,
    ensures
        0 <= (5 * doy + 2) / 153 <= 11,
        1 <= doy - inicio_do_mes((5 * doy + 2) / 153) + 1 <= 31,
        ({
            let mp = (5 * doy + 2) / 153;
            let d = doy - inicio_do_mes(mp) + 1;
            &&& (mp == 1 || mp == 3 || mp == 6 || mp == 8) ==> d <= 30
            &&& mp == 11 ==> d <= 29
            &&& (mp == 11 && d == 29) ==> doy == 365
        }),
{
    let x = doy as u32;
    assert(x as int == doy);
}

/// Contagem de bissextos numa era de 400 anos: `bissextos_ate(400 e + y) = 97 e + y/4 - y/100`.
pub proof fn lema_bissextos_da_era(era: int, yoe: int)
    requires
        0 <= yoe < 400,
    ensures
        bissextos_ate(400 * era + yoe) == 97 * era + yoe / 4 - yoe / 100,
        bissexto(400 * era + yoe) == bissexto(yoe),
{
    let x = 400 * era + yoe;
    lemma_fundamental_div_mod_converse(x, 4, 100 * era + yoe / 4, yoe % 4);
    lemma_fundamental_div_mod_converse(x, 100, 4 * era + yoe / 100, yoe % 100);
    lemma_fundamental_div_mod_converse(x, 400, era, yoe);
}

/// Data civil do dia `z` (dias desde 1970-01-01), passo a passo como no algoritmo:
/// era de 400 anos, dia da era, ano e dia do ano contados a partir de março.
pub open spec fn civil(z: int) -> (int, int, int) {
    let zz = z + 719468;
    let era = zz / 146097;
    let doe = zz % 146097;
    let yoe = ano_da_era(doe);
    let doy = dia_do_ano(doe);
    let mp = (5 * doy + 2) / 153;
    let d = doy - inicio_do_mes(mp) + 1;
    let m = if mp < 10 { mp + 3 } else { mp - 9 };
    let a = yoe + era * 400;
    (if m <= 2 { a + 1 } else { a }, m, d)
}

/// A data calculada pelo algoritmo existe e fica exatamente `z` dias depois de
/// 1970-01-01.
#[verifier::spinoff_prover]
#[verifier::rlimit(60)]
pub proof fn lema_civil(z: int)
    ensures
        data_valida(civil(z).0, civil(z).1, civil(z).2),
        dias_desde_epoca(civil(z).0, civil(z).1, civil(z).2) == z,
{
    let zz = z + 719468;
    let era = zz / 146097;
    let doe = zz % 146097;
    lemma_fundamental_div_mod_converse(zz, 146097, era, doe);
    lema_ano_da_era(doe);
    let yoe = ano_da_era(doe);
    let doy = dia_do_ano(doe);
    lema_mes(doy);
    let mp = (5 * doy + 2) / 153;
    let a0 = 400 * era + yoe;
    lema_bissextos_da_era(era, yoe);
    if yoe < 399 {
        lema_bissextos_da_era(era, yoe + 1);
    } else {
        lema_bissextos_da_era(era + 1, 0);
    }
    assert(zz == 146097 * era + doe);
    assert(bissextos_ate(1969) == 477);
    if mp < 10 {
        assert(bissextos_ate(a0 - 1) + (if bissexto(a0) { 1int } else { 0 }) == bissextos_ate(a0));
    } else {
        assert(bissexto(a0 + 1) == ((yoe + 1) % 4 == 0 && ((yoe + 1) % 100 != 0 || yoe == 399)));
    }
}

/// Dias desde 1970-01-01 para `(ano, mês, dia)`.
pub fn civil_de_dias(z: i64) -> (r: (i64, u32, u32))
    requires
        z <= i64::MAX - 719468,
    ensures
        r.0 == civil(z as int).0,
        r.1 == civil(z as int).1,
        r.2 == civil(z as int).2,
        data_valida(r.0 as int, r.1 as int, r.2 as int),
        dias_desde_epoca(r.0 as int, r.1 as int, r.2 as int) == z,
{
    proof {
        lema_civil(z as int);
    }
    let zz = z + 719468;
    let era = zz.checked_div_euclid(146097).unwrap();
    let doe = zz.checked_rem_euclid(146097).unwrap();
    proof {
        lema_ano_da_era(doe as int);
        lema_mes(dia_do_ano(doe as int));
    }
    let yoe = (doe - doe / 1460 + doe / 36524 - doe / 146096) / 365;
    let y = yoe + era * 400;
    let doy = doe - (365 * yoe + yoe / 4 - yoe / 100);
    let mp = (5 * doy + 2) / 153;
    let d = (doy - (153 * mp + 2) / 5 + 1) as u32;
    let m = (if mp < 10 { mp + 3 } else { mp - 9 }) as u32;
    (if m <= 2 { y + 1 } else { y }, m, d)
}

} // verus!
