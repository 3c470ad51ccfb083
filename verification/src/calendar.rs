//! Calendario (estado "meeting_soon"): qué reunión es la próxima, cuándo avisar,
//! y las decisiones del inicio de sesión en Microsoft (token guardado, refresco y
//! flujo device-code). Sin `azure_client_id` el monitor funciona en modo
//! simulación: una reunión de prueba a los 20 s y nada más.

use vstd::prelude::*;
use vstd::utf8::{decode_utf8, encode_utf8, is_char_boundary};
use crate::fecha::{escribir_rfc3339, LIMITE_RELOJ, fecha_naive, leer_fecha_naive, minutos_entre, minutos_transcurridos, rfc3339, div_trunc, Instante};
use crate::texto::{recortado, vacio_tras_recortar};
use crate::settings::{calendario_listo, Settings};

verus! {

/// Reunión que se envía al frontend.
#[derive(Clone, Debug)]
pub struct Reunion {
    pub titulo: String,
    pub minutos: i64,
}

/// Instrucción de login que se envía al frontend (para mostrarla en el bocadillo).
#[derive(Clone, Debug)]
pub struct Login {
    pub codigo: String,
    pub url: String,
}

/// Permisos que se piden a Microsoft Graph.
pub const GRAPH_SCOPE: &'static str = "offline_access Calendars.Read User.Read";

/// Título de una reunión sin asunto.
pub open spec fn titulo_por_defecto() -> Seq<char> {
    "Reunión"@
}

/// ¿Hay que avisar de esta reunión? Solo si empieza dentro de la antelación
/// configurada y no ha empezado ya.
pub open spec fn hay_que_avisar(minutos: i64, aviso_min: i64) -> bool {
    minutos <= aviso_min && minutos >= 0
}

/// ¿Hay que avisar de esta reunión? (ver `hay_que_avisar`)
pub fn debe_avisar(r: &Reunion, aviso_min: i64) -> (b: bool)
    ensures
        b == hay_que_avisar(r.minutos, aviso_min),
{
    r.minutos <= aviso_min && r.minutos >= 0
}

// ======================= Calendario de Microsoft Graph =======================

/// Un evento de `calendarView` tal como viene en la respuesta; `None` donde falta
/// el campo o no es del tipo esperado.
pub struct EventoGraph {
    /// `isCancelled`
    pub cancelado: Option<bool>,
    /// `subject`
    pub asunto: Option<String>,
    /// `start.dateTime`
    pub inicio: Option<String>,
}

pub struct EventoVista {
    pub cancelado: Option<bool>,
    pub asunto: Option<Seq<char>>,
    pub inicio: Option<Seq<char>>,
}

impl View for EventoGraph {
    type V = EventoVista;

    open spec fn view(&self) -> EventoVista {
        EventoVista {
            cancelado: self.cancelado,
            asunto: match self.asunto {
                Some(s) => Some(s@),
                None => None,
            },
            inicio: match self.inicio {
                Some(s) => Some(s@),
                None => None,
            },
        }
    }
}

/// Los primeros 19 bytes del texto (o el texto entero si es más corto), que es
/// donde acaba la parte `AAAA-MM-DDTHH:MM:SS` de la fecha.
pub open spec fn fragmento_fecha(s: Seq<char>) -> Seq<char> {
    let b = encode_utf8(s);
    if b.len() <= 19 {
        s
    } else {
        decode_utf8(b.subrange(0, 19))
    }
}

/// El texto se puede cortar en el byte 19 (es corto, o el byte 19 empieza un carácter).
pub open spec fn cortable(s: Seq<char>) -> bool {
    encode_utf8(s).len() <= 19 || is_char_boundary(encode_utf8(s), 19)
}

/// Minutos que faltan para el inicio de un evento, si su fecha se entiende.
pub open spec fn minutos_para(inicio: Seq<char>, ahora: Instante) -> Option<int> {
    match fecha_naive(fragmento_fecha(inicio)) {
        Some(t) => Some(minutos_entre((ahora.segundos, ahora.nanos), t)),
        None => None,
    }
}

/// Título de un evento: su asunto, o "Reunión" si no tiene.
pub open spec fn titulo_evento(e: EventoVista) -> Seq<char> {
    match e.asunto {
        Some(s) => s,
        None => titulo_por_defecto(),
    }
}

/// ¿Se salta el evento? Los cancelados y los que no traen inicio.
pub open spec fn se_salta(e: EventoVista) -> bool {
    e.cancelado == Some(true) || e.inicio is None
}

/// La próxima reunión: el primer evento, en el orden de la respuesta, no cancelado,
/// con fecha de inicio legible y que no haya empezado (título y minutos que faltan).
pub open spec fn primera_reunion(evs: Seq<EventoVista>, ahora: Instante) -> Option<(Seq<char>, int)>
    decreases evs.len(),
{
    if evs.len() == 0 {
        None
    } else {
        let e = evs[0];
        if se_salta(e) {
            primera_reunion(evs.drop_first(), ahora)
        } else {
            match minutos_para(e.inicio->0, ahora) {
                Some(m) => if m >= 0 {
                    Some((titulo_evento(e), m))
                } else {
                    primera_reunion(evs.drop_first(), ahora)
                },
                None => primera_reunion(evs.drop_first(), ahora),
            }
        }
    }
}

/// El recorrido de `primera_reunion` nunca tiene que cortar una fecha por la mitad
/// de un carácter (en ese caso, cortar el texto aborta).
pub open spec fn recorrido_cortable(evs: Seq<EventoVista>, ahora: Instante) -> bool
    decreases evs.len(),
{
    if evs.len() == 0 {
        true
    } else {
        let e = evs[0];
        if se_salta(e) {
            recorrido_cortable(evs.drop_first(), ahora)
        } else if !cortable(e.inicio->0) {
            false
        } else {
            match minutos_para(e.inicio->0, ahora) {
                Some(m) => m >= 0 || recorrido_cortable(evs.drop_first(), ahora),
                None => recorrido_cortable(evs.drop_first(), ahora),
            }
        }
    }
}

pub open spec fn vista_reunion(r: Option<Reunion>) -> Option<(Seq<char>, int)> {
    match r {
        Some(x) => Some((x.titulo@, x.minutos as int)),
        None => None,
    }
}

pub open spec fn eventos_vista(evs: Seq<EventoGraph>) -> Seq<EventoVista> {
    evs.map_values(|e: EventoGraph| e@)
}

/// El trozo de la fecha que se interpreta (ver `fragmento_fecha`).
fn fragmento(s: &str) -> (r: &str)
    requires
        cortable(s@),
    ensures
        r@ == fragmento_fecha(s@),
{
    broadcast use vstd::utf8::encode_utf8_valid_utf8;

    if s.is_char_boundary(19) {
        let (a, _) = s.split_at(19);
        proof {
            let b = encode_utf8(s@);
            assert(b.len() >= 19);
            vstd::utf8::encode_utf8_decode_utf8(a@);
            if b.len() == 19 {
                assert(b.subrange(0, 19) =~= b);
                vstd::utf8::encode_utf8_decode_utf8(s@);
            }
        }
        a
    } else {
        s
    }
}

/// Minutos que faltan para el inicio de un evento, si su fecha se entiende.
fn minutos_hasta(inicio: &str, ahora: &Instante) -> (m: Option<i64>)
    requires
        cortable(inicio@),
    ensures
        match m {
            Some(x) => minutos_para(inicio@, *ahora) == Some(x as int),
            None => minutos_para(inicio@, *ahora) is None,
        },
{
    match leer_fecha_naive(fragmento(inicio)) {
        Some(t) => Some(minutos_transcurridos(ahora, &t)),
        None => None,
    }
}

/// La próxima reunión de la respuesta de Graph (ver `primera_reunion`), vista en
/// el instante `ahora`. Sin lista de eventos en la respuesta no hay reunión.
pub fn proxima_reunion(eventos_param: &Option<Vec<EventoGraph>>, ahora: &Instante) -> (r: Option<Reunion>)
    requires
        eventos_param matches Some(v) ==> recorrido_cortable(eventos_vista(v@), *ahora),
    ensures
        match eventos_param {
            Some(v) => vista_reunion(r) == primera_reunion(eventos_vista(v@), *ahora),
            None => r is None,
        },
{
    let eventos = match eventos_param {
        Some(v) => v,
        None => return None,
    };
    assert(*eventos_param == Some(*eventos));
    let ghost evs = eventos_vista(eventos@);
    let mut i: usize = 0;
    assert(evs.skip(0) =~= evs);
    while i < eventos.len()
        invariant
            i <= eventos.len(),
            evs == eventos_vista(eventos@),
            *eventos_param == Some(*eventos),
            primera_reunion(evs, *ahora) == primera_reunion(evs.skip(i as int), *ahora),
            recorrido_cortable(evs.skip(i as int), *ahora),
        decreases eventos.len() - i,
    {
        let ev = &eventos[i];
        proof {
            assert(evs.skip(i as int)[0] == ev@);
            assert(evs.skip(i as int).drop_first() =~= evs.skip(i + 1));
        }
        let cancelado = match ev.cancelado {
            Some(c) => c,
            None => false,
        };
        if !cancelado {
            if let Some(s) = &ev.inicio {
                if let Some(minutos) = minutos_hasta(s.as_str(), ahora) {
                    if minutos >= 0 {
                        let titulo = match &ev.asunto {
                            Some(t) => t.clone(),
                            None => String::from_str("Reunión"),
                        };
                        proof {
                            let e = evs.skip(i as int)[0];
                            assert(!se_salta(e));
                            assert(e.inicio->0 == s@);
                            assert(titulo_evento(e) == titulo@);
                            assert(primera_reunion(evs.skip(i as int), *ahora) == Some((titulo@, minutos as int)));
                        }
                        return Some(Reunion { titulo, minutos });
                    }
                }
            }
        }
        i = i + 1;
    }
    assert(evs.skip(i as int) =~= Seq::<EventoVista>::empty());
    None
}

/// ¿Se puede cortar el texto en el byte 19? (ver `cortable`)
fn cortable_exec(s: &str) -> (b: bool)
    ensures
        b == cortable(s@),
{
    broadcast use vstd::utf8::encode_utf8_valid_utf8;

    if s.is_char_boundary(19) {
        true
    } else {
        proof {
            let b = encode_utf8(s@);
            vstd::utf8::is_char_boundary_start_end_of_seq(b);
        }
        s.as_bytes().len() < 19
    }
}

/// ¿Se puede calcular la próxima reunión de esta respuesta sin cortar una fecha
/// por la mitad de un carácter? (la condición de `proxima_reunion`)
pub fn reunion_calculable(eventos_param: &Option<Vec<EventoGraph>>, ahora: &Instante) -> (b: bool)
    ensures
        b == (eventos_param matches Some(v) ==> recorrido_cortable(eventos_vista(v@), *ahora)),
{
    let eventos = match eventos_param {
        Some(v) => v,
        None => return true,
    };
    assert(*eventos_param == Some(*eventos));
    let ghost evs = eventos_vista(eventos@);
    let mut i: usize = 0;
    assert(evs.skip(0) =~= evs);
    while i < eventos.len()
        invariant
            i <= eventos.len(),
            evs == eventos_vista(eventos@),
            *eventos_param == Some(*eventos),
            recorrido_cortable(evs, *ahora) == recorrido_cortable(evs.skip(i as int), *ahora),
        decreases eventos.len() - i,
    {
        let ev = &eventos[i];
        proof {
            assert(evs.skip(i as int)[0] == ev@);
            assert(evs.skip(i as int).drop_first() =~= evs.skip(i + 1));
        }
        let cancelado = match ev.cancelado {
            Some(c) => c,
            None => false,
        };
        if !cancelado {
            if let Some(s) = &ev.inicio {
                if !cortable_exec(s.as_str()) {
                    return false;
                }
                if let Some(minutos) = minutos_hasta(s.as_str(), ahora) {
                    if minutos >= 0 {
                        return true;
                    }
                }
            }
        }
        i = i + 1;
    }
    assert(evs.skip(i as int) =~= Seq::<EventoVista>::empty());
    true
}

/// La fecha de algún evento habría que cortarla por la mitad de un carácter.
pub struct FechaPartida;

/// La próxima reunión de la respuesta de Graph, comprobando antes que ninguna
/// fecha que haya que leer se corta por la mitad de un carácter (`Err` si pasa).
pub fn intentar_proxima_reunion(eventos: &Option<Vec<EventoGraph>>, ahora: &Instante) -> (r: Result<Option<Reunion>, FechaPartida>)
    ensures
        match r {
            Ok(x) => {
                &&& eventos matches Some(v) ==> recorrido_cortable(eventos_vista(v@), *ahora)
                &&& match eventos {
                    Some(v) => vista_reunion(x) == primera_reunion(eventos_vista(v@), *ahora),
                    None => x is None,
                }
            },
            Err(_) => eventos matches Some(v) && !recorrido_cortable(eventos_vista(v@), *ahora),
        },
{
    if reunion_calculable(eventos, ahora) {
        Ok(proxima_reunion(eventos, ahora))
    } else {
        Err(FechaPartida)
    }
}

/// URL de `calendarView` entre dos instantes escritos en RFC 3339.
pub open spec fn url_vista(desde: Seq<char>, hasta: Seq<char>) -> Seq<char> {
    "https://graph.microsoft.com/v1.0/me/calendarView?startDateTime="@ + desde + "&endDateTime="@ + hasta
        + "&$orderby=start/dateTime&$top=3&$select=subject,start,isCancelled"@
}

/// URL de la consulta a Graph de la hora que sigue a `ahora` (ordenada por inicio).
/// `None` si chrono no puede escribir alguno de los dos extremos de la ventana.
pub fn url_calendario(ahora: &Instante) -> (u: Option<String>)
    requires
        ahora.segundos <= i64::MAX - 3600,
        ahora.nanos < 1_000_000_000,
    ensures
        match (rfc3339(ahora.segundos, ahora.nanos), rfc3339((ahora.segundos + 3600) as i64, ahora.nanos)) {
            (Some(a), Some(b)) => u matches Some(x) && x@ == url_vista(a, b),
            _ => u is None,
        },
{
    let fin = Instante { segundos: ahora.segundos + 3600, nanos: ahora.nanos };
    match (escribir_rfc3339(ahora), escribir_rfc3339(&fin)) {
        (Some(a), Some(b)) => {
            let mut u = String::from_str("https://graph.microsoft.com/v1.0/me/calendarView?startDateTime=");
            u.append(a.as_str());
            u.append("&endDateTime=");
            u.append(b.as_str());
            u.append("&$orderby=start/dateTime&$top=3&$select=subject,start,isCancelled");
            Some(u)
        },
        _ => None,
    }
}

/// La petición a Graph de la hora que sigue a `ahora`: un GET a `url`, con la
/// cabecera `Authorization` (el token de acceso como `Bearer`) y la cabecera
/// `Prefer` que pide las horas en UTC.
pub struct PeticionCalendario {
    pub url: String,
    pub autorizacion: String,
    pub preferencia: String,
}

/// Valor de la cabecera `Prefer` de la consulta: horas en UTC.
pub open spec fn preferencia_utc() -> Seq<char> {
    "outlook.timezone=\"UTC\""@
}

/// La petición de la consulta a Graph (ver `url_calendario`) con el token de acceso.
/// `None` si chrono no puede escribir alguno de los dos extremos de la ventana.
pub fn peticion_calendario(ahora: &Instante, token: &str) -> (p: Option<PeticionCalendario>)
    requires
        ahora.segundos <= i64::MAX - 3600,
        ahora.nanos < 1_000_000_000,
    ensures
        match (rfc3339(ahora.segundos, ahora.nanos), rfc3339((ahora.segundos + 3600) as i64, ahora.nanos)) {
            (Some(a), Some(b)) => p matches Some(x) && x.url@ == url_vista(a, b)
                && x.autorizacion@ == "Bearer "@ + token@ && x.preferencia@ == preferencia_utc(),
            _ => p is None,
        },
{
    match url_calendario(ahora) {
        Some(url) => {
            let mut autorizacion = String::from_str("Bearer ");
            autorizacion.append(token);
            Some(PeticionCalendario {
                url,
                autorizacion,
                preferencia: String::from_str("outlook.timezone=\"UTC\""),
            })
        },
        None => None,
    }
}

/// La reunión, si la hay y hay que avisar de ella (ver `hay_que_avisar`).
pub fn filtrar_aviso(r: Option<Reunion>, aviso_min: i64) -> (a: Option<Reunion>)
    ensures
        match r {
            Some(x) => if hay_que_avisar(x.minutos, aviso_min) {
                a == Some(x)
            } else {
                a is None
            },
            None => a is None,
        },
{
    match r {
        Some(x) => if debe_avisar(&x, aviso_min) {
            Some(x)
        } else {
            None
        },
        None => None,
    }
}

// ======================= Calendario local de Windows ========================

/// Diferencia en segundos entre 1601-01-01 (época de WinRT/FILETIME) y 1970-01-01.
pub const EPOCH_DIFF_SECS: i64 = 11_644_473_600;

/// Marcas de 100 ns por segundo en las fechas de WinRT.
pub const TICKS_POR_SEGUNDO: i64 = 10_000_000;

/// Una cita del almacén de Windows tal como se lee; `None` donde la lectura falló.
pub struct CitaWindows {
    /// `AllDay()`
    pub todo_el_dia: Option<bool>,
    /// `StartTime().UniversalTime`, en marcas de 100 ns desde 1601.
    pub inicio: Option<i64>,
    /// `Subject()`
    pub asunto: Option<String>,
}

pub struct CitaVista {
    pub todo_el_dia: Option<bool>,
    pub inicio: Option<i64>,
    pub asunto: Seq<char>,
}

impl View for CitaWindows {
    type V = CitaVista;

    open spec fn view(&self) -> CitaVista {
        CitaVista {
            todo_el_dia: self.todo_el_dia,
            inicio: self.inicio,
            asunto: match self.asunto {
                Some(s) => s@,
                None => Seq::empty(),
            },
        }
    }
}

/// Minutos enteros (truncados hacia cero) que faltan para una cita que empieza en
/// `ticks`, vistos en el segundo Unix `ahora`.
pub open spec fn minutos_cita(ticks: i64, ahora: i64) -> int {
    div_trunc(div_trunc(ticks as int, TICKS_POR_SEGUNDO as int) - EPOCH_DIFF_SECS - ahora, 60)
}

/// Cuenta como reunión: no es de día completo, tiene inicio y no ha empezado.
pub open spec fn es_candidata(c: CitaVista, ahora: i64) -> bool {
    &&& c.todo_el_dia != Some(true)
    &&& c.inicio is Some
    &&& minutos_cita(c.inicio->0, ahora) >= 0
}

/// Título de una cita: su asunto, o "Reunión" si está vacío o es solo espacios.
pub open spec fn titulo_cita(c: CitaVista) -> Seq<char> {
    if recortado(c.asunto).len() == 0 {
        titulo_por_defecto()
    } else {
        c.asunto
    }
}

/// La cita más próxima (minutos y título): la candidata con menos minutos y, entre
/// las empatadas, la primera.
pub open spec fn mejor_cita(cs: Seq<CitaVista>, ahora: i64) -> Option<(int, Seq<char>)>
    decreases cs.len(),
{
    if cs.len() == 0 {
        None
    } else {
        let previa = mejor_cita(cs.drop_last(), ahora);
        let c = cs.last();
        if !es_candidata(c, ahora) {
            previa
        } else {
            let m = minutos_cita(c.inicio->0, ahora);
            match previa {
                Some(p) => if m < p.0 {
                    Some((m, titulo_cita(c)))
                } else {
                    previa
                },
                None => Some((m, titulo_cita(c))),
            }
        }
    }
}

pub open spec fn citas_vista(cs: Seq<CitaWindows>) -> Seq<CitaVista> {
    cs.map_values(|c: CitaWindows| c@)
}

pub open spec fn vista_cita(r: Option<Reunion>) -> Option<(int, Seq<char>)> {
    match r {
        Some(x) => Some((x.minutos as int, x.titulo@)),
        None => None,
    }
}

/// La reunión más próxima entre las citas leídas de Windows, vista en el segundo
/// Unix `ahora` (que está en el rango del reloj de chrono).
pub fn proxima_reunion_windows(citas: &Vec<CitaWindows>, ahora: i64) -> (r: Option<Reunion>)
    requires
        0 <= ahora < LIMITE_RELOJ,
    ensures
        vista_cita(r) == mejor_cita(citas_vista(citas@), ahora),
{
    let ghost cs = citas_vista(citas@);
    let mut mejor: Option<Reunion> = None;
    for i in 0..citas.len()
        invariant
            cs == citas_vista(citas@),
            0 <= ahora < LIMITE_RELOJ,
            vista_cita(mejor) == mejor_cita(cs.take(i as int), ahora),
    {
        let cita = &citas[i];
        proof {
            assert(cs.take(i + 1).drop_last() =~= cs.take(i as int));
            assert(cs.take(i + 1).last() == cita@);
        }
        let todo_el_dia = match cita.todo_el_dia {
            Some(b) => b,
            None => false,
        };
        if !todo_el_dia {
            if let Some(ticks) = cita.inicio {
                let secs = ticks / TICKS_POR_SEGUNDO - EPOCH_DIFF_SECS;
                let minutos = (secs - ahora) / 60;
                if minutos >= 0 {
                    let titulo = match &cita.asunto {
                        Some(t) => t.clone(),
                        None => String::new(),
                    };
                    let titulo = if vacio_tras_recortar(titulo.as_str()) {
                        String::from_str("Reunión")
                    } else {
                        titulo
                    };
                    let mejora = match &mejor {
                        Some(m) => minutos < m.minutos,
                        None => true,
                    };
                    if mejora {
                        mejor = Some(Reunion { titulo, minutos });
                    }
                }
            }
        }
    }
    proof {
        assert(cs.take(citas.len() as int) =~= cs);
    }
    mejor
}


/// Segundos que espera la simulación antes de su reunión de prueba.
pub const ESPERA_SIMULACION_S: u64 = 20;

/// Cómo funciona el monitor del calendario.
pub enum ModoCalendario {
    /// Sin `azure_client_id`: tras `espera_s` segundos, avisar una vez de `reunion`
    /// (la reunión de prueba) y parar, sin hablar con Microsoft Graph.
    Simulacion { espera_s: u64, reunion: Reunion },
    /// Con `azure_client_id`: iniciar sesión y consultar Graph en cada sondeo.
    Graph,
}

/// El modo del monitor según los ajustes: simulación si no hay client id de Azure.
pub fn modo_calendario(cfg: &Settings) -> (m: ModoCalendario)
    ensures
        if calendario_listo(cfg@) {
            m is Graph
        } else {
            m matches ModoCalendario::Simulacion { espera_s, reunion }
                && espera_s == ESPERA_SIMULACION_S
                && reunion.titulo@ == "Daily del equipo"@
                && reunion.minutos == cfg.aviso_reunion_min
        },
{
    if cfg.calendario_configurado() {
        ModoCalendario::Graph
    } else {
        ModoCalendario::Simulacion {
            espera_s: ESPERA_SIMULACION_S,
            reunion: reunion_simulada(cfg.aviso_reunion_min),
        }
    }
}

/// La reunión de prueba de la simulación.
pub fn reunion_simulada(aviso_min: i64) -> (r: Reunion)
    ensures
        r.titulo@ == "Daily del equipo"@,
        r.minutos == aviso_min,
{
    Reunion { titulo: String::from_str("Daily del equipo"), minutos: aviso_min }
}

// ============================ Sesión de Microsoft ============================

/// Token guardado en el llavero.
pub struct TokenGuardado {
    pub access_token: String,
    pub refresh_token: String,
    /// Segundo Unix en el que caduca el access_token.
    pub expira_en: i64,
}

/// Respuesta del endpoint de token.
pub struct RespuestaToken {
    pub access_token: Option<String>,
    pub refresh_token: Option<String>,
    pub expires_in: Option<i64>,
    pub error: Option<String>,
}

/// Margen, en segundos, con el que un token se da por caducado.
pub const MARGEN_TOKEN_S: i64 = 120;

/// Qué hacer para tener un access_token válido.
pub enum AccionToken {
    /// El token guardado vale todavía.
    Usar { access_token: String },
    /// Caduca pronto: intentar refrescarlo (y, si falla, iniciar sesión).
    Refrescar { refresh_token: String },
    /// No hay token guardado: flujo device-code.
    IniciarSesion,
}

/// Decide qué hacer con el token guardado en el segundo Unix `ahora`.
pub fn decidir_token(guardado: Option<TokenGuardado>, ahora: i64) -> (a: AccionToken)
    requires
        guardado matches Some(t) ==> i64::MIN <= t.expira_en - ahora <= i64::MAX,
    ensures
        match guardado {
            Some(t) => if t.expira_en - ahora > MARGEN_TOKEN_S {
                a matches AccionToken::Usar { access_token } && access_token == t.access_token
            } else {
                a matches AccionToken::Refrescar { refresh_token } && refresh_token == t.refresh_token
            },
            None => a is IniciarSesion,
        },
{
    match guardado {
        Some(t) => if t.expira_en - ahora > MARGEN_TOKEN_S {
            AccionToken::Usar { access_token: t.access_token }
        } else {
            AccionToken::Refrescar { refresh_token: t.refresh_token }
        },
        None => AccionToken::IniciarSesion,
    }
}

/// Texto del error de un refresco sin access_token.
pub open spec fn texto_refresco_fallido() -> Seq<char> {
    "refresh sin access_token"@
}

/// El token nuevo tras un refresco, en el segundo Unix `ahora`: hace falta
/// access_token y caducidad; si Microsoft no devuelve refresh_token nuevo se
/// reutiliza el anterior.
pub fn tras_refresco(tr: RespuestaToken, refresh_anterior: &str, ahora: i64) -> (r: Result<TokenGuardado, String>)
    requires
        tr.access_token is Some && tr.expires_in is Some ==> i64::MIN <= ahora + tr.expires_in->0 <= i64::MAX,
    ensures
        match (tr.access_token, tr.expires_in) {
            (Some(at), Some(exp)) => r matches Ok(t) && t.access_token == at && t.expira_en == ahora + exp
                && t.refresh_token@ == (match tr.refresh_token {
                    Some(rt) => rt@,
                    None => refresh_anterior@,
                }),
            _ => r matches Err(e) && e@ == texto_refresco_fallido(),
        },
{
    match (tr.access_token, tr.expires_in) {
        (Some(at), Some(exp)) => {
            let refresh_token = match tr.refresh_token {
                Some(rt) => rt,
                None => String::from_str(refresh_anterior),
            };
            Ok(TokenGuardado { access_token: at, refresh_token, expira_en: ahora + exp })
        },
        _ => Err(String::from_str("refresh sin access_token")),
    }
}

/// Qué hacer después de intentar refrescar el token.
pub enum TrasRefresco {
    /// Guardar el token nuevo en el llavero y usar su access_token.
    Guardar(TokenGuardado),
    /// El refresco falló (la petición o la respuesta): iniciar sesión con el flujo
    /// device-code.
    IniciarSesion,
}

/// Decide qué hacer con el resultado del refresco: el token nuevo si lo hubo; si
/// no, volver a iniciar sesión.
pub fn tras_intento_refresco(resultado: Result<TokenGuardado, String>) -> (a: TrasRefresco)
    ensures
        match resultado {
            Ok(t) => a == TrasRefresco::Guardar(t),
            Err(_) => a is IniciarSesion,
        },
{
    match resultado {
        Ok(t) => TrasRefresco::Guardar(t),
        Err(_) => TrasRefresco::IniciarSesion,
    }
}

/// Paso del sondeo del flujo device-code.
pub enum PasoDeviceCode {
    /// El usuario aún no ha autorizado: esperar el intervalo y volver a preguntar.
    Esperar,
    /// Microsoft pide ir más despacio: esperar un intervalo más.
    EsperarMas,
    /// Error definitivo.
    Fallo(String),
    /// Sesión iniciada.
    Listo(TokenGuardado),
}

/// Intervalo de sondeo del flujo device-code: el que indica Microsoft (5 s si no
/// dice nada), nunca menos de 1 s.
pub fn intervalo_device(interval: Option<u64>) -> (r: u64)
    ensures
        r == (match interval {
            Some(i) => if i >= 1 { i } else { 1 },
            None => 5,
        }),
{
    let i = match interval {
        Some(i) => i,
        None => 5,
    };
    if i >= 1 { i } else { 1 }
}

/// Decide el siguiente paso del flujo device-code a la vista de la respuesta de
/// token, en el segundo Unix `ahora`.
pub fn tras_sondeo_device(tr: RespuestaToken, ahora: i64) -> (p: PasoDeviceCode)
    requires
        tr.error is None && tr.access_token is Some && tr.refresh_token is Some && tr.expires_in is Some
            ==> i64::MIN <= ahora + tr.expires_in->0 <= i64::MAX,
    ensures
        match tr.error {
            Some(e) => if e@ == "authorization_pending"@ {
                p is Esperar
            } else if e@ == "slow_down"@ {
                p is EsperarMas
            } else {
                p matches PasoDeviceCode::Fallo(m) && m@ == "device-code: "@ + e@
            },
            None => match (tr.access_token, tr.refresh_token, tr.expires_in) {
                (Some(at), Some(rt), Some(exp)) => p matches PasoDeviceCode::Listo(t)
                    && t.access_token == at && t.refresh_token == rt && t.expira_en == ahora + exp,
                _ => p is Esperar,
            },
        },
{
    match tr.error {
        Some(e) => {
            if e == String::from_str("authorization_pending") {
                PasoDeviceCode::Esperar
            } else if e == String::from_str("slow_down") {
                PasoDeviceCode::EsperarMas
            } else {
                let mut m = String::from_str("device-code: ");
                m.append(e.as_str());
                PasoDeviceCode::Fallo(m)
            }
        },
        None => match (tr.access_token, tr.refresh_token, tr.expires_in) {
            (Some(at), Some(rt), Some(exp)) => PasoDeviceCode::Listo(
                TokenGuardado { access_token: at, refresh_token: rt, expira_en: ahora + exp },
            ),
            _ => PasoDeviceCode::Esperar,
        },
    }
}

/// Base de las URL de OAuth del tenant.
pub fn base_oauth(tenant: &str) -> (r: String)
    ensures
        r@ == "https://login.microsoftonline.com/"@ + tenant@ + "/oauth2/v2.0"@,
{
    let mut r = String::from_str("https://login.microsoftonline.com/");
    r.append(tenant);
    r.append("/oauth2/v2.0");
    r
}

// ================================== Leyes ===================================

/// La próxima reunión de Graph no ha empezado: faltan cero minutos o más.
pub proof fn ley_reunion_no_empezada(evs: Seq<EventoVista>, ahora: Instante)
    ensures
        primera_reunion(evs, ahora) matches Some(r) ==> r.1 >= 0,
    decreases evs.len(),
{
    if evs.len() > 0 {
        ley_reunion_no_empezada(evs.drop_first(), ahora);
    }
}

/// Un evento con `isCancelled: false` cuenta igual que uno sin ese campo: solo se
/// descarta un evento marcado como cancelado.
pub proof fn ley_no_cancelado_cuenta(e: EventoVista, resto: Seq<EventoVista>, ahora: Instante)
    requires
        e.cancelado != Some(true),
    ensures
        primera_reunion(seq![e] + resto, ahora) == primera_reunion(
            seq![EventoVista { cancelado: None, ..e }] + resto,
            ahora,
        ),
        primera_reunion(seq![EventoVista { cancelado: Some(true), ..e }] + resto, ahora)
            == primera_reunion(resto, ahora),
{
    let a = seq![e] + resto;
    let b = seq![EventoVista { cancelado: None, ..e }] + resto;
    let c = seq![EventoVista { cancelado: Some(true), ..e }] + resto;
    assert(a[0] == e);
    assert(a.drop_first() =~= resto);
    assert(b.drop_first() =~= resto);
    assert(c.drop_first() =~= resto);
}

/// El primer evento no cancelado, con un inicio que se entiende y que todavía no
/// ha empezado, es la próxima reunión, con su título y los minutos que faltan
/// para él, sea cual sea el resto de la respuesta.
pub proof fn ley_primer_evento_valido(e: EventoVista, resto: Seq<EventoVista>, ahora: Instante, m: int)
    requires
        e.cancelado != Some(true),
        e.inicio is Some,
        minutos_para(e.inicio->0, ahora) == Some(m),
        m >= 0,
    ensures
        primera_reunion(seq![e] + resto, ahora) == Some((titulo_evento(e), m)),
        titulo_evento(e) == (match e.asunto {
            Some(s) => s,
            None => "Reunión"@,
        }),
{
    let a = seq![e] + resto;
    assert(a[0] == e);
}

/// Se avisa de una reunión exactamente cuando no ha empezado y empieza dentro de
/// la antelación configurada; cuanta más antelación, más reuniones se avisan.
pub proof fn ley_antelacion_configurada(minutos: i64, aviso_min: i64, mas: i64)
    ensures
        hay_que_avisar(minutos, aviso_min) ==> 0 <= minutos <= aviso_min,
        0 <= minutos <= aviso_min ==> hay_que_avisar(minutos, aviso_min),
        aviso_min >= 0 ==> hay_que_avisar(aviso_min, aviso_min),
        hay_que_avisar(minutos, aviso_min) && aviso_min <= mas ==> hay_que_avisar(minutos, mas),
{
}

/// La reunión de Windows elegida es una de las citas candidatas, la que menos
/// minutos tiene por delante y, entre las empatadas, la primera; si no hay
/// ninguna candidata no hay reunión.
pub proof fn ley_cita_mas_proxima(cs: Seq<CitaVista>, ahora: i64)
    ensures
        match mejor_cita(cs, ahora) {
            None => forall|i: int| 0 <= i < cs.len() ==> !es_candidata(#[trigger] cs[i], ahora),
            Some(r) => exists|i: int| {
                &&& 0 <= i < cs.len()
                &&& es_candidata(#[trigger] cs[i], ahora)
                &&& minutos_cita(cs[i].inicio->0, ahora) == r.0
                &&& titulo_cita(cs[i]) == r.1
                &&& forall|j: int| 0 <= j < i && es_candidata(#[trigger] cs[j], ahora) ==> r.0 < minutos_cita(cs[j].inicio->0, ahora)
                &&& forall|j: int| 0 <= j < cs.len() && es_candidata(#[trigger] cs[j], ahora) ==> r.0 <= minutos_cita(cs[j].inicio->0, ahora)
            },
        },
    decreases cs.len(),
{
    if cs.len() > 0 {
        let previas = cs.drop_last();
        ley_cita_mas_proxima(previas, ahora);
        let n = cs.len() - 1;
        let c = cs.last();
        assert(forall|j: int| 0 <= j < n ==> previas[j] == cs[j]);
        match mejor_cita(previas, ahora) {
            None => {
                if es_candidata(c, ahora) {
                    assert(cs[n] == c);
                } else {
                    assert forall|i: int| 0 <= i < cs.len() implies !es_candidata(#[trigger] cs[i], ahora) by {
                        if i < n {
                            assert(previas[i] == cs[i]);
                        }
                    }
                }
            },
            Some(p) => {
                let i = choose|i: int| {
                    &&& 0 <= i < previas.len()
                    &&& es_candidata(#[trigger] previas[i], ahora)
                    &&& minutos_cita(previas[i].inicio->0, ahora) == p.0
                    &&& titulo_cita(previas[i]) == p.1
                    &&& forall|j: int| 0 <= j < i && es_candidata(#[trigger] previas[j], ahora) ==> p.0 < minutos_cita(previas[j].inicio->0, ahora)
                    &&& forall|j: int| 0 <= j < previas.len() && es_candidata(#[trigger] previas[j], ahora) ==> p.0 <= minutos_cita(previas[j].inicio->0, ahora)
                };
                if es_candidata(c, ahora) && minutos_cita(c.inicio->0, ahora) < p.0 {
                    assert(cs[n] == c);
                    assert forall|j: int| 0 <= j < n && es_candidata(#[trigger] cs[j], ahora) implies minutos_cita(c.inicio->0, ahora) < minutos_cita(cs[j].inicio->0, ahora) by {
                        assert(previas[j] == cs[j]);
                    }
                } else {
                    assert(cs[i] == previas[i]);
                    assert forall|j: int| 0 <= j < i && es_candidata(#[trigger] cs[j], ahora) implies p.0 < minutos_cita(cs[j].inicio->0, ahora) by {
                        assert(previas[j] == cs[j]);
                    }
                    assert forall|j: int| 0 <= j < cs.len() && es_candidata(#[trigger] cs[j], ahora) implies p.0 <= minutos_cita(cs[j].inicio->0, ahora) by {
                        if j < n {
                            assert(previas[j] == cs[j]);
                        }
                    }
                }
            },
        }
    }
}

} // verus!
