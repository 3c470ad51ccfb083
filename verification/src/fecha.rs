//! Instantes y fechas: lectura de fechas de texto con chrono y la diferencia en
//! minutos entre dos instantes, con las mismas reglas que `TimeDelta` de chrono.

use vstd::prelude::*;

verus! {

/// Un instante UTC como lo describe chrono: segundos desde la época Unix
/// (`timestamp`) y la fracción del segundo en nanosegundos
/// (`timestamp_subsec_nanos`, que llega a 1_999_999_999 en un segundo intercalar).
#[derive(Clone, Copy)]
pub struct Instante {
    pub segundos: i64,
    pub nanos: u32,
}

/// Par (segundos, nanos) de un instante opcional.
pub open spec fn par(i: Option<Instante>) -> Option<(i64, u32)> {
    match i {
        Some(t) => Some((t.segundos, t.nanos)),
        None => None,
    }
}

/// Lo que `chrono::NaiveDateTime::parse_from_str(texto, "%Y-%m-%dT%H:%M:%S")`
/// interpreta, tomado como hora UTC (`and_utc`): segundos y nanos, o `None` si no
/// lo acepta.
pub uninterp spec fn fecha_naive(texto: Seq<char>) -> Option<(i64, u32)>;

/// Lo que `chrono::DateTime::parse_from_str(texto, "%Y-%m-%dT%H:%M:%S%.3f%z")`
/// interpreta (fecha con zona horaria), llevado a UTC: segundos y nanos, o `None`
/// si no lo acepta.
pub uninterp spec fn fecha_con_zona(texto: Seq<char>) -> Option<(i64, u32)>;

/// El texto RFC 3339 que escribe `DateTime::<Utc>::to_rfc3339` para el instante
/// `DateTime::<Utc>::from_timestamp(segundos, nanos)`, o `None` si chrono no
/// puede representar ese instante.
pub uninterp spec fn rfc3339(segundos: i64, nanos: u32) -> Option<Seq<char>>;

/// Llama a `std::time::SystemTime::now().duration_since(UNIX_EPOCH)`: `None` si el
/// reloj del sistema está antes de 1970; si no, los segundos enteros y los
/// nanosegundos del `Duration` (`as_secs`, `subsec_nanos`), que según su
/// documentación son menos de un segundo. Qué hora es no se afirma.
#[verifier::external_body]
fn tiempo_desde_epoca() -> (r: Option<(u64, u32)>)
    ensures
        r matches Some(d) ==> d.1 < 1_000_000_000,
{
    match std::time::SystemTime::now().duration_since(std::time::UNIX_EPOCH) {
        Ok(d) => Some((d.as_secs(), d.subsec_nanos())),
        Err(_) => None,
    }
}

/// Llama a `chrono::NaiveDateTime::parse_from_str` con el formato
/// `%Y-%m-%dT%H:%M:%S` (sin marca de tiempo `%s`, así que chrono no llega a la
/// resta de un segundo intercalar que puede abortar); el resultado, leído como
/// UTC, es el que nombra `fecha_naive`.
#[verifier::external_body]
pub(crate) fn leer_fecha_naive(texto: &str) -> (r: Option<Instante>)
    ensures
        par(r) == fecha_naive(texto@),
{
    match chrono::NaiveDateTime::parse_from_str(texto, "%Y-%m-%dT%H:%M:%S") {
        Ok(n) => {
            let t = n.and_utc();
            Some(Instante { segundos: t.timestamp(), nanos: t.timestamp_subsec_nanos() })
        },
        Err(_) => None,
    }
}

/// Llama a `chrono::DateTime::parse_from_str` con el formato
/// `%Y-%m-%dT%H:%M:%S%.3f%z` (tampoco con `%s`); el resultado, en UTC, es el que
/// nombra `fecha_con_zona`.
#[verifier::external_body]
pub(crate) fn leer_fecha_con_zona(texto: &str) -> (r: Option<Instante>)
    ensures
        par(r) == fecha_con_zona(texto@),
{
    match chrono::DateTime::parse_from_str(texto, "%Y-%m-%dT%H:%M:%S%.3f%z") {
        Ok(t) => Some(Instante { segundos: t.timestamp(), nanos: t.timestamp_subsec_nanos() }),
        Err(_) => None,
    }
}

/// Llama a `DateTime::<Utc>::from_timestamp` y, si da un instante, a `to_rfc3339`;
/// el resultado es el que nombra `rfc3339`.
#[verifier::external_body]
pub(crate) fn escribir_rfc3339(t: &Instante) -> (r: Option<String>)
    ensures
        match r {
            Some(s) => rfc3339(t.segundos, t.nanos) == Some(s@),
            None => rfc3339(t.segundos, t.nanos) is None,
        },
{
    match chrono::DateTime::<chrono::Utc>::from_timestamp(t.segundos, t.nanos) {
        Some(d) => Some(d.to_rfc3339()),
        None => None,
    }
}

/// Primer segundo Unix que chrono ya no representa: el 1 de enero del año 262143
/// (`MAX_YEAR` es 262142). `DateTime::<Utc>::from_timestamp` da `None` desde aquí.
pub const LIMITE_RELOJ: i64 = 8_210_266_876_800;

/// El instante de una lectura del reloj (segundos y nanosegundos desde 1970, o
/// `None` si el reloj estaba antes): `None` si la lectura falta o no cabe en el
/// rango de chrono.
pub fn instante_de(lectura: Option<(u64, u32)>) -> (r: Option<Instante>)
    ensures
        match lectura {
            Some(d) => if d.0 < LIMITE_RELOJ {
                r == Some(Instante { segundos: d.0 as i64, nanos: d.1 })
            } else {
                r is None
            },
            None => r is None,
        },
{
    match lectura {
        Some(d) => if d.0 < LIMITE_RELOJ as u64 {
            Some(Instante { segundos: d.0 as i64, nanos: d.1 })
        } else {
            None
        },
        None => None,
    }
}

/// La hora del reloj del sistema, la misma que leería `chrono::Utc::now`, para las
/// decisiones que la reciben como argumento. `None` si el reloj está antes de 1970
/// o en `LIMITE_RELOJ` o más allá, los casos en que `Utc::now` aborta.
pub fn reloj() -> (r: Option<Instante>)
    ensures
        r matches Some(t) ==> 0 <= t.segundos < LIMITE_RELOJ && t.nanos < 1_000_000_000,
{
    instante_de(tiempo_desde_epoca())
}

/// División entera truncando hacia cero, como `/` con enteros con signo en Rust.
pub open spec fn div_trunc(a: int, b: int) -> int {
    if a >= 0 {
        a / b
    } else {
        -((-a) / b)
    }
}

/// Nanosegundos de `hasta.signed_duration_since(desde)` en chrono. La resta se
/// hace por días y por segundo del día; si uno de los dos extremos es un segundo
/// intercalar (fracción de un segundo o más), chrono cuenta ese segundo como en
/// `NaiveTime::signed_duration_since`.
pub open spec fn duracion_ns(desde: (i64, u32), hasta: (i64, u32)) -> int {
    let ta = hasta.0 % 86400;
    let tb = desde.0 % 86400;
    let correccion: int = if ta > tb && desde.1 >= 1_000_000_000 {
        1
    } else if ta < tb && hasta.1 >= 1_000_000_000 {
        -1
    } else {
        0
    };
    (hasta.0 - desde.0 + correccion) * 1_000_000_000 + (hasta.1 - desde.1)
}

/// Minutos enteros de una duración (`TimeDelta::num_minutes`): se trunca hacia cero
/// a segundos y luego a minutos.
pub open spec fn minutos_de(ns: int) -> int {
    div_trunc(div_trunc(ns, 1_000_000_000), 60)
}

/// `hasta.signed_duration_since(desde).num_minutes()` en chrono.
pub open spec fn minutos_entre(desde: (i64, u32), hasta: (i64, u32)) -> int {
    minutos_de(duracion_ns(desde, hasta))
}

proof fn lema_cotas(s: int, f: int)
    requires
        -0x1_0000_0000_0000_0001 <= s <= 0x1_0000_0000_0000_0001,
        -0x1_0000_0000 < f < 0x1_0000_0000,
    ensures
        -0x1_0000_0000_0000_0000_0000_0000 < s * 1_000_000_000 + f < 0x1_0000_0000_0000_0000_0000_0000,
        -0x7000_0000_0000_0000 < div_trunc(div_trunc(s * 1_000_000_000 + f, 1_000_000_000), 60)
            < 0x7000_0000_0000_0000,
{
    let ns = s * 1_000_000_000 + f;
    assert(-0x1_0000_0000_0000_0001 * 1_000_000_000 <= s * 1_000_000_000 <= 0x1_0000_0000_0000_0001 * 1_000_000_000) by (nonlinear_arith)
        requires -0x1_0000_0000_0000_0001 <= s <= 0x1_0000_0000_0000_0001;
    let q = div_trunc(ns, 1_000_000_000);
    assert(-0x1_0000_0000_0000_0010 <= q <= 0x1_0000_0000_0000_0010) by (nonlinear_arith)
        requires
            q == (if ns >= 0 { ns / 1_000_000_000 } else { -((-ns) / 1_000_000_000) }),
            -0x1_0000_0000_0000_0001 * 1_000_000_000 - 0x1_0000_0000 < ns < 0x1_0000_0000_0000_0001 * 1_000_000_000 + 0x1_0000_0000;
    let m = div_trunc(q, 60);
    assert(-0x7000_0000_0000_0000 < m < 0x7000_0000_0000_0000) by (nonlinear_arith)
        requires
            m == (if q >= 0 { q / 60 } else { -((-q) / 60) }),
            -0x1_0000_0000_0000_0010 <= q <= 0x1_0000_0000_0000_0010;
}

/// Minutos enteros transcurridos de `desde` a `hasta` (negativos si `hasta` es antes),
/// como `(hasta - desde).num_minutes()` en chrono.
#[verifier::spinoff_prover]
#[verifier::rlimit(40)]
pub fn minutos_transcurridos(desde: &Instante, hasta: &Instante) -> (m: i64)
    ensures
        m == minutos_entre((desde.segundos, desde.nanos), (hasta.segundos, hasta.nanos)),
{
    let ta = hasta.segundos % 86400;
    let ta = if ta < 0 { ta + 86400 } else { ta };
    let tb = desde.segundos % 86400;
    let tb = if tb < 0 { tb + 86400 } else { tb };
    let correccion: i128 = if ta > tb && desde.nanos >= 1_000_000_000 {
        1
    } else if ta < tb && hasta.nanos >= 1_000_000_000 {
        -1
    } else {
        0
    };
    let s: i128 = hasta.segundos as i128 - desde.segundos as i128 + correccion;
    let f: i128 = hasta.nanos as i128 - desde.nanos as i128;
    proof {
        lema_cotas(s as int, f as int);
    }
    let ns: i128 = s * 1_000_000_000 + f;
    let segundos: i128 = ns / 1_000_000_000;
    let minutos: i128 = segundos / 60;
    minutos as i64
}

} // verus!
