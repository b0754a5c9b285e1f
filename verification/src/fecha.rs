//! Calendar dates and their conversion to timestamps.

use vstd::prelude::*;
use crate::cuenta::Timestamp;

verus! {

/// Milliseconds in one day.
pub const MILIS_POR_DIA: u64 = 86_400_000;

/// Number of distinct `u32` values: the modulus of a wrapping `u32` count.
pub open spec fn modulo_u32() -> int {
    0x1_0000_0000
}

/// A calendar date: day, month and year.
#[derive(Clone, Copy, Debug)]
pub struct Fecha {
    pub dia: u32,
    pub mes: u32,
    pub anio: i32,
}

/// Gregorian leap-year rule.
pub open spec fn es_bisiesto(anio: int) -> bool {
    (anio % 4 == 0 && anio % 100 != 0) || anio % 400 == 0
}

/// Length of month `mes` (1 to 12) of year `anio`; 0 for any other month.
pub open spec fn dias_del_mes(mes: int, anio: int) -> int {
    if mes == 1 || mes == 3 || mes == 5 || mes == 7 || mes == 8 || mes == 10 || mes == 12 {
        31
    } else if mes == 4 || mes == 6 || mes == 9 || mes == 11 {
        30
    } else if mes == 2 {
        if es_bisiesto(anio) {
            29
        } else {
            28
        }
    } else {
        0
    }
}

/// Length of year `anio`.
pub open spec fn dias_del_anio(anio: int) -> int {
    if es_bisiesto(anio) {
        366
    } else {
        365
    }
}

/// Days in the years `desde`, `desde + 1`, ..., `hasta - 1`.
pub open spec fn dias_anios(desde: int, hasta: int) -> int
    decreases hasta - desde,
{
    if hasta <= desde {
        0
    } else {
        dias_anios(desde, hasta - 1) + dias_del_anio(hasta - 1)
    }
}

/// Days in the months `1..=n` of year `anio`.
pub open spec fn dias_meses(n: int, anio: int) -> int
    decreases n,
{
    if n <= 0 {
        0
    } else {
        dias_meses(n - 1, anio) + dias_del_mes(n, anio)
    }
}

/// Number of the day `f` counted from 1970-01-01, which is day 1.
pub open spec fn dias_totales(f: Fecha) -> int {
    dias_anios(1970, f.anio as int) + dias_meses(f.mes - 1, f.anio as int) + f.dia
}

/// The day count as kept in a wrapping `u32`.
pub open spec fn dias_desde_epoch_spec(f: Fecha) -> u32 {
    (dias_totales(f) % modulo_u32()) as u32
}

/// The timestamp of a date: its day count times the milliseconds of a day.
pub open spec fn timestamp_de(f: Fecha) -> Timestamp {
    (dias_desde_epoch_spec(f) * MILIS_POR_DIA) as Timestamp
}

/// A real calendar date from 1970 on.
pub open spec fn fecha_valida(f: Fecha) -> bool {
    &&& 1 <= f.mes <= 12
    &&& 1 <= f.dia
    &&& f.dia <= dias_del_mes(f.mes as int, f.anio as int)
    &&& f.anio >= 1970
}

/// `a` is a later date than `b`: by year, then month, then day.
pub open spec fn fecha_mayor(a: Fecha, b: Fecha) -> bool {
    ||| a.anio > b.anio
    ||| a.anio == b.anio && a.mes > b.mes
    ||| a.anio == b.anio && a.mes == b.mes && a.dia > b.dia
}

impl Fecha {
    /// A date with the given day, month and year.
    pub fn new(dia: u32, mes: u32, anio: i32) -> (f: Fecha)
        ensures
            f.dia == dia,
            f.mes == mes,
            f.anio == anio,
    {
        Fecha { dia, mes, anio }
    }

    /// Whether the date is a real calendar date from 1970 on.
    pub fn es_fecha_valida(&self) -> (r: bool)
        ensures
            r == fecha_valida(*self),
    {
        if (self.mes > 0) && (self.mes <= 12) && (self.dia > 0) && (self.dia <= 31) && (self.anio
            >= 1970) {
            if self.mes == 2 {
                if self.is_leap_year(self.anio) {
                    return self.dia <= 29;
                } else {
                    return self.dia <= 28;
                }
            }
            return self.dia <= self.days_in_month(self.mes);
        }
        false
    }

    /// Milliseconds from the epoch to the start of the day after this date
    /// (day 1 of 1970 ends at one day's worth of milliseconds).
    pub fn to_timestamp(&self) -> (t: Timestamp)
        requires
            self.mes <= 13,
        ensures
            t == timestamp_de(*self),
    {
        let dias = self.days_since_epoch();
        assert(dias * MILIS_POR_DIA <= u32::MAX * MILIS_POR_DIA) by (nonlinear_arith)
            requires
                dias <= u32::MAX,
        ;
        (dias as u64) * MILIS_POR_DIA
    }

    /// The day count of the date, kept in a wrapping `u32`.
    pub fn days_since_epoch(&self) -> (d: u32)
        requires
            self.mes <= 13,
        ensures
            d == dias_desde_epoch_spec(*self),
    {
        let mut days: u32 = 0;
        let anio = self.anio;
        let mut year: i32 = 1970;
        while year < anio
            invariant
                1970 <= year,
                anio < 1970 ==> year == 1970,
                anio >= 1970 ==> year <= anio,
                days == dias_anios(1970, year as int) % modulo_u32(),
            decreases anio - year,
        {
            let n: u32 = if self.is_leap_year(year) {
                366
            } else {
                365
            };
            proof {
                lemma_suma_modular(dias_anios(1970, year as int), n as int);
            }
            days = days.wrapping_add(n);
            year = year + 1;
        }
        assert(dias_anios(1970, year as int) == dias_anios(1970, anio as int)) by {
            if anio < 1970 {
                assert(year == 1970);
            }
        }
        let mut month: u32 = 1;
        while month < self.mes
            invariant
                1 <= month,
                self.mes <= 13,
                self.mes < 1 ==> month == 1,
                self.mes >= 1 ==> month <= self.mes,
                anio == self.anio,
                days == (dias_anios(1970, anio as int) + dias_meses(month - 1, anio as int))
                    % modulo_u32(),
            decreases self.mes - month,
        {
            let n = self.days_in_month(month);
            proof {
                lemma_suma_modular(
                    dias_anios(1970, anio as int) + dias_meses(month - 1, anio as int),
                    n as int,
                );
            }
            days = days.wrapping_add(n);
            month = month + 1;
        }
        assert(dias_meses(month - 1, anio as int) == dias_meses(self.mes - 1, anio as int)) by {
            if self.mes < 1 {
                assert(month == 1);
            }
        }
        proof {
            lemma_suma_modular(
                dias_anios(1970, anio as int) + dias_meses(self.mes - 1, anio as int),
                self.dia as int,
            );
        }
        days = days.wrapping_add(self.dia);
        days
    }

    /// Gregorian leap-year rule.
    pub fn is_leap_year(&self, year: i32) -> (r: bool)
        ensures
            r == es_bisiesto(year as int),
    {
        (year % 4 == 0 && year % 100 != 0) || (year % 400 == 0)
    }

    /// Length of month `month` of this date's year.
    pub fn days_in_month(&self, month: u32) -> (r: u32)
        requires
            1 <= month <= 12,
        ensures
            r == dias_del_mes(month as int, self.anio as int),
    {
        if month == 1 || month == 3 || month == 5 || month == 7 || month == 8 || month == 10
            || month == 12 {
            31
        } else if month == 4 || month == 6 || month == 9 || month == 11 {
            30
        } else if self.is_leap_year(self.anio) {
            29
        } else {
            28
        }
    }

    /// Whether this date is later than `otra_fecha`.
    pub fn es_mayor(&self, otra_fecha: &Fecha) -> (r: bool)
        ensures
            r == fecha_mayor(*self, *otra_fecha),
    {
        if self.anio > otra_fecha.anio {
            true
        } else if self.anio == otra_fecha.anio {
            if self.mes > otra_fecha.mes {
                true
            } else if self.mes == otra_fecha.mes {
                self.dia > otra_fecha.dia
            } else {
                false
            }
        } else {
            false
        }
    }
}

/// "Later than" is a strict total order on dates: irreflexive, asymmetric,
/// transitive, and any two different dates are ordered one way or the other.
pub proof fn lemma_orden_fechas(a: Fecha, b: Fecha, c: Fecha)
    ensures
        !fecha_mayor(a, a),
        fecha_mayor(a, b) ==> !fecha_mayor(b, a),
        fecha_mayor(a, b) && fecha_mayor(b, c) ==> fecha_mayor(a, c),
        a != b ==> fecha_mayor(a, b) || fecha_mayor(b, a),
{
}

proof fn lemma_dias_meses_monotono(a: int, b: int, anio: int)
    requires
        a <= b,
    ensures
        dias_meses(a, anio) <= dias_meses(b, anio),
    decreases b - a,
{
    if a < b {
        lemma_dias_meses_monotono(a, b - 1, anio);
    }
}

proof fn lemma_dias_meses_anio(anio: int)
    ensures
        dias_meses(12, anio) == dias_del_anio(anio),
{
    reveal_with_fuel(dias_meses, 13);
}

proof fn lemma_dias_anios_monotono(desde: int, a: int, b: int)
    requires
        a <= b,
    ensures
        dias_anios(desde, a) <= dias_anios(desde, b),
    decreases b - a,
{
    if a < b {
        lemma_dias_anios_monotono(desde, a, b - 1);
    }
}

/// On real dates, a later date has a larger day count.
pub proof fn lemma_dias_totales_creciente(f1: Fecha, f2: Fecha)
    requires
        fecha_valida(f1),
        fecha_valida(f2),
        fecha_mayor(f2, f1),
    ensures
        1 <= dias_totales(f1) < dias_totales(f2),
{
    let y1 = f1.anio as int;
    let y2 = f2.anio as int;
    lemma_dias_anios_monotono(1970, 1970, y1);
    lemma_dias_meses_monotono(0, f1.mes - 1, y1);
    // the days counted in f1's own year stay within that year
    lemma_dias_meses_monotono(f1.mes as int, 12, y1);
    lemma_dias_meses_anio(y1);
    assert(dias_meses(f1.mes as int, y1) == dias_meses(f1.mes - 1, y1) + dias_del_mes(
        f1.mes as int,
        y1,
    ));
    if y1 < y2 {
        lemma_dias_anios_monotono(1970, y1 + 1, y2);
        lemma_dias_meses_monotono(0, f2.mes - 1, y2);
    } else if f1.mes < f2.mes {
        lemma_dias_meses_monotono(f1.mes as int, f2.mes - 1, y1);
    }
}

/// On real dates whose day count does not wrap a `u32`, a later date has a
/// larger timestamp: the check that an election ends after it starts orders
/// their timestamps too.
pub proof fn lemma_timestamp_creciente(f1: Fecha, f2: Fecha)
    requires
        fecha_valida(f1),
        fecha_valida(f2),
        fecha_mayor(f2, f1),
        dias_totales(f2) < modulo_u32(),
    ensures
        timestamp_de(f1) < timestamp_de(f2),
{
    lemma_dias_totales_creciente(f1, f2);
    let d1 = dias_totales(f1);
    let d2 = dias_totales(f2);
    vstd::arithmetic::div_mod::lemma_small_mod(d1 as nat, modulo_u32() as nat);
    vstd::arithmetic::div_mod::lemma_small_mod(d2 as nat, modulo_u32() as nat);
    assert(d1 * MILIS_POR_DIA < d2 * MILIS_POR_DIA) by (nonlinear_arith)
        requires
            d1 < d2,
    ;
}

proof fn lemma_dias_anios_cota(desde: int, hasta: int)
    requires
        desde <= hasta,
    ensures
        0 <= dias_anios(desde, hasta) <= 366 * (hasta - desde),
    decreases hasta - desde,
{
    if desde < hasta {
        lemma_dias_anios_cota(desde, hasta - 1);
    }
}

proof fn lemma_dias_meses_cota(n: int, anio: int)
    requires
        0 <= n,
    ensures
        0 <= dias_meses(n, anio) <= 31 * n,
    decreases n,
{
    if n > 0 {
        lemma_dias_meses_cota(n - 1, anio);
    }
}

/// The day count of a real date up to year 10000 fits a `u32`.
proof fn lemma_dias_totales_acotados(f: Fecha)
    requires
        fecha_valida(f),
        f.anio <= 10000,
    ensures
        1 <= dias_totales(f) < modulo_u32(),
{
    lemma_dias_anios_cota(1970, f.anio as int);
    lemma_dias_meses_cota(f.mes - 1, f.anio as int);
}

/// On real dates up to year 9999, timestamps order dates as "later than"
/// does, and equal timestamps mean the same date.
pub proof fn lemma_timestamp_orden(a: Fecha, b: Fecha)
    requires
        fecha_valida(a),
        fecha_valida(b),
        a.anio <= 9999,
        b.anio <= 9999,
    ensures
        fecha_mayor(a, b) <==> timestamp_de(a) > timestamp_de(b),
        a == b <==> timestamp_de(a) == timestamp_de(b),
{
    lemma_dias_totales_acotados(a);
    lemma_dias_totales_acotados(b);
    lemma_orden_fechas(a, b, a);
    if fecha_mayor(a, b) {
        lemma_timestamp_creciente(b, a);
    } else if fecha_mayor(b, a) {
        lemma_timestamp_creciente(a, b);
    }
}

/// Every timestamp of a date is a whole number of days.
pub proof fn lemma_timestamp_multiplo(f: Fecha)
    ensures
        timestamp_de(f) % MILIS_POR_DIA == 0,
{
    let d = dias_desde_epoch_spec(f);
    assert(d * MILIS_POR_DIA <= u32::MAX * MILIS_POR_DIA) by (nonlinear_arith)
        requires
            d <= u32::MAX,
    ;
    vstd::arithmetic::div_mod::lemma_mod_multiples_basic(d as int, MILIS_POR_DIA as int);
    vstd::arithmetic::mul::lemma_mul_is_commutative(d as int, MILIS_POR_DIA as int);
}

/// The calendar day after `f`.
pub open spec fn dia_siguiente(f: Fecha) -> Fecha {
    if f.dia < dias_del_mes(f.mes as int, f.anio as int) {
        Fecha { dia: (f.dia + 1) as u32, ..f }
    } else if f.mes < 12 {
        Fecha { dia: 1, mes: (f.mes + 1) as u32, anio: f.anio }
    } else {
        Fecha { dia: 1, mes: 1, anio: (f.anio + 1) as i32 }
    }
}

/// 1 January 1970 is day 1: its timestamp is one day's worth of
/// milliseconds. With the law of the following day, this fixes the timestamp
/// of every real date up to year 9999.
pub proof fn lemma_primer_dia()
    ensures
        dias_totales(Fecha { dia: 1, mes: 1, anio: 1970 }) == 1,
        timestamp_de(Fecha { dia: 1, mes: 1, anio: 1970 }) == MILIS_POR_DIA,
{
    let f = Fecha { dia: 1, mes: 1, anio: 1970 };
    assert(dias_anios(1970, 1970) == 0);
    assert(dias_meses(0, 1970) == 0);
    assert(dias_totales(f) == 1);
    assert(dias_desde_epoch_spec(f) == 1);
}

/// The day after a real date up to year 9999 is a real date, one day's worth
/// of milliseconds later.
pub proof fn lemma_dia_siguiente(f: Fecha)
    requires
        fecha_valida(f),
        f.anio <= 9999,
    ensures
        fecha_valida(dia_siguiente(f)),
        fecha_mayor(dia_siguiente(f), f),
        timestamp_de(dia_siguiente(f)) == timestamp_de(f) + MILIS_POR_DIA,
{
    let g = dia_siguiente(f);
    let y = f.anio as int;
    if f.dia < dias_del_mes(f.mes as int, y) {
        assert(dias_totales(g) == dias_totales(f) + 1);
    } else if f.mes < 12 {
        assert(dias_meses(f.mes as int, y) == dias_meses(f.mes - 1, y) + dias_del_mes(
            f.mes as int,
            y,
        ));
        assert(dias_totales(g) == dias_totales(f) + 1);
    } else {
        lemma_dias_meses_anio(y);
        assert(dias_meses(12, y) == dias_meses(11, y) + dias_del_mes(12, y));
        assert(dias_anios(1970, y + 1) == dias_anios(1970, y) + dias_del_anio(y));
        assert(dias_totales(g) == dias_totales(f) + 1);
    }
    lemma_dias_totales_acotados(f);
    lemma_dias_totales_acotados(g);
    let d = dias_totales(f);
    vstd::arithmetic::div_mod::lemma_small_mod(d as nat, modulo_u32() as nat);
    vstd::arithmetic::div_mod::lemma_small_mod((d + 1) as nat, modulo_u32() as nat);
    assert((d + 1) * MILIS_POR_DIA == d * MILIS_POR_DIA + MILIS_POR_DIA) by (nonlinear_arith);
    assert(d * MILIS_POR_DIA <= u32::MAX * MILIS_POR_DIA) by (nonlinear_arith)
        requires
            d <= u32::MAX,
    ;
}

/// Adding to a wrapping `u32` count adds modulo 2^32.
pub proof fn lemma_suma_modular(x: int, n: int)
    requires
        0 <= n <= u32::MAX,
    ensures
        vstd::wrapping::u32_specs::wrapping_add((x % modulo_u32()) as u32, n as u32) == (x + n)
            % modulo_u32(),
{
    let m = modulo_u32();
    vstd::arithmetic::div_mod::lemma_add_mod_noop(x, n, m);
    vstd::arithmetic::div_mod::lemma_small_mod(n as nat, m as nat);
    let r = x % m;
    vstd::arithmetic::div_mod::lemma_mod_bound(x, m);
    if r + n >= m {
        vstd::arithmetic::div_mod::lemma_fundamental_div_mod_converse_mod(r + n, m, 1, r + n - m);
    } else {
        vstd::arithmetic::div_mod::lemma_small_mod((r + n) as nat, m as nat);
    }
}

} // verus!
