//! Novedades de Jira Cloud: qué se consulta, cómo se resume cada incidencia
//! actualizada y qué avisos salen de cada sondeo.

use vstd::prelude::*;
use crate::fecha::{fecha_con_zona, par, leer_fecha_con_zona, minutos_entre, minutos_transcurridos, Instante};
use crate::settings::Settings;
use crate::texto::{
    caracteres, cadena_de, contiene, contiene_texto, decimal, en_decimal, prefijo, primeros,
    quitar_final_repetido, recortado, empujar, recortar_espacios, sin_final_repetido, vacio_tras_recortar,
};

verus! {

/// Aviso de Jira que se envía al frontend.
#[derive(Clone, Debug)]
pub struct AvisoJira {
    pub texto: String,
}

/// Último comentario de una incidencia.
pub struct Comentario {
    /// accountId del autor.
    pub autor: String,
    /// Cuerpo del comentario (el documento JSON, como texto).
    pub cuerpo: String,
    /// Fecha de creación, p. ej. "2026-06-09T10:30:00.000+0200".
    pub creado: String,
}

/// Datos de una incidencia actualizada.
pub struct IssueEv {
    pub key: String,
    pub summary: String,
    pub status: String,
    pub updated: String,
    pub ultimo_comentario: Option<Comentario>,
}

/// Los campos de una incidencia tal como vienen en la respuesta de búsqueda;
/// `None` donde falta el campo o no es texto.
pub struct ComentarioCrudo {
    pub autor: Option<String>,
    pub cuerpo: Option<String>,
    pub creado: Option<String>,
}

/// Los campos de una incidencia tal como vienen en la respuesta de búsqueda.
pub struct IssueCrudo {
    pub key: Option<String>,
    pub summary: Option<String>,
    pub status: Option<String>,
    pub updated: Option<String>,
    /// El último elemento de `comment.comments`, si lo hay.
    pub ultimo_comentario: Option<ComentarioCrudo>,
}

pub struct ComentarioVista {
    pub autor: Seq<char>,
    pub cuerpo: Seq<char>,
    pub creado: Seq<char>,
}

pub struct IssueVista {
    pub key: Seq<char>,
    pub summary: Seq<char>,
    pub status: Seq<char>,
    pub updated: Seq<char>,
    pub ultimo_comentario: Option<ComentarioVista>,
}

impl View for Comentario {
    type V = ComentarioVista;

    open spec fn view(&self) -> ComentarioVista {
        ComentarioVista { autor: self.autor@, cuerpo: self.cuerpo@, creado: self.creado@ }
    }
}

impl View for IssueEv {
    type V = IssueVista;

    open spec fn view(&self) -> IssueVista {
        IssueVista {
            key: self.key@,
            summary: self.summary@,
            status: self.status@,
            updated: self.updated@,
            ultimo_comentario: match self.ultimo_comentario {
                Some(c) => Some(c@),
                None => None,
            },
        }
    }
}

/// Texto opcional, o vacío si falta.
pub open spec fn o_vacio(s: Option<String>) -> Seq<char> {
    match s {
        Some(t) => t@,
        None => Seq::empty(),
    }
}

/// La incidencia que resulta de los campos leídos (vacíos donde faltan).
pub open spec fn issue_de(c: IssueCrudo) -> IssueVista {
    IssueVista {
        key: o_vacio(c.key),
        summary: o_vacio(c.summary),
        status: o_vacio(c.status),
        updated: o_vacio(c.updated),
        ultimo_comentario: match c.ultimo_comentario {
            Some(k) => Some(
                ComentarioVista { autor: o_vacio(k.autor), cuerpo: o_vacio(k.cuerpo), creado: o_vacio(k.creado) },
            ),
            None => None,
        },
    }
}

/// Las incidencias de una búsqueda, en orden, sin las que no traen clave.
pub open spec fn issues_validas(c: Seq<IssueCrudo>) -> Seq<IssueVista>
    decreases c.len(),
{
    if c.len() == 0 {
        Seq::empty()
    } else {
        let previas = issues_validas(c.drop_last());
        let ultima = issue_de(c.last());
        if ultima.key.len() == 0 {
            previas
        } else {
            previas.push(ultima)
        }
    }
}

/// ¿El comentario se creó dentro de los últimos `mins` minutos (o hasta uno en el
/// futuro, por relojes desajustados), visto en el instante `ahora`?
pub open spec fn reciente(creado: Seq<char>, mins: u64, ahora: Instante) -> bool {
    match fecha_con_zona(creado) {
        Some(t) => {
            let m = minutos_entre(t, (ahora.segundos, ahora.nanos));
            m <= (mins as i64) && m >= -1
        },
        None => false,
    }
}

/// Resumen de un texto para el bocadillo: sin espacios a los lados y, si pasa de
/// `max` caracteres, cortado a `max - 1` y con "…" al final.
pub open spec fn resumen(s: Seq<char>, max: nat) -> Seq<char> {
    let t = recortado(s);
    if t.len() <= max {
        t
    } else {
        t.take(max - 1).push('…')
    }
}

/// Largo máximo del resumen de una incidencia en un aviso.
pub open spec fn largo_resumen() -> nat {
    40
}

/// Texto del aviso de una incidencia actualizada, según el tipo de novedad: mención
/// o comentario nuevo de otra persona dentro de la ventana, o si no, cambio de
/// estado o actualización.
pub open spec fn texto_aviso(ev: IssueVista, mi_id: Seq<char>, mins: u64, ahora: Instante) -> Seq<char> {
    let r = resumen(ev.summary, largo_resumen());
    let comentario_nuevo = match ev.ultimo_comentario {
        Some(c) => reciente(c.creado, mins, ahora) && c.autor != mi_id,
        None => false,
    };
    if comentario_nuevo {
        let c = ev.ultimo_comentario->0;
        if mi_id.len() > 0 && contiene(c.cuerpo, mi_id) {
            "💬 Te han mencionado en "@ + ev.key + " — "@ + r
        } else {
            "💬 Nuevo comentario en "@ + ev.key + " — "@ + r
        }
    } else if ev.status.len() == 0 {
        "✏️ "@ + ev.key + " actualizada — "@ + r
    } else {
        "🔄 "@ + ev.key + " → "@ + ev.status + " — "@ + r
    }
}

/// Clave con la que se recuerda una novedad ya avisada: `ISSUE@updated`.
pub open spec fn clave(ev: IssueVista) -> Seq<char> {
    ev.key + "@"@ + ev.updated
}

/// Une textos con un separador entre cada dos.
pub open spec fn juntar(lista: Seq<Seq<char>>, sep: Seq<char>) -> Seq<char>
    decreases lista.len(),
{
    if lista.len() == 0 {
        Seq::empty()
    } else if lista.len() == 1 {
        lista[0]
    } else {
        juntar(lista.drop_last(), sep) + sep + lista.last()
    }
}

/// Los datos que faltan para usar Jira, en orden: sitio, email y token.
pub open spec fn faltan(a: crate::settings::AjustesVista) -> Seq<Seq<char>> {
    let s1: Seq<Seq<char>> = if recortado(a.jira_site).len() == 0 { seq!["sitio"@] } else { Seq::empty() };
    let s2: Seq<Seq<char>> = if recortado(a.jira_email).len() == 0 { s1.push("email"@) } else { s1 };
    if recortado(a.jira_token).len() == 0 { s2.push("token"@) } else { s2 }
}

/// Texto del aviso de Jira sin configurar.
pub open spec fn texto_sin_configurar(a: crate::settings::AjustesVista) -> Seq<char> {
    "⚙️ Jira sin configurar: falta "@ + juntar(faltan(a), ", "@) + ". Clic derecho en mi icono → Ajustes."@
}

/// Filtro JQL de las incidencias a vigilar.
pub open spec fn filtro_jql(proyecto: Seq<char>) -> Seq<char> {
    let p = recortado(proyecto);
    if p.len() == 0 {
        "(assignee = currentUser() OR watcher = currentUser())"@
    } else {
        "(assignee = currentUser() OR watcher = currentUser() OR project = "@ + p + ")"@
    }
}

/// Consulta JQL: lo vigilado actualizado en los últimos `mins` minutos, lo más reciente primero.
pub open spec fn jql(proyecto: Seq<char>, mins: u64) -> Seq<char> {
    filtro_jql(proyecto) + " AND updated >= -"@ + decimal(mins as nat) + "m ORDER BY updated DESC"@
}

/// Intervalo efectivo de sondeo: el configurado, pero nunca menos de 20 s.
pub open spec fn intervalo_efectivo(a: crate::settings::AjustesVista) -> u64 {
    if a.jira_intervalo_s >= 20 {
        a.jira_intervalo_s
    } else {
        20
    }
}

/// Ventana de búsqueda en minutos: el intervalo en minutos (al menos uno) más uno de margen.
pub open spec fn ventana_de(intervalo: u64) -> u64 {
    let m = intervalo / 60;
    if m >= 1 {
        (m + 1) as u64
    } else {
        2
    }
}

/// Endpoints de búsqueda, en el orden en que se prueban: el nuevo y, si está
/// retirado, el clásico.
pub open spec fn endpoint(i: int) -> Seq<char> {
    if i == 0 {
        "/rest/api/3/search/jql"@
    } else {
        "/rest/api/3/search"@
    }
}

/// Número de endpoints de búsqueda.
pub const NUM_ENDPOINTS: usize = 2;

/// Mensaje de error de una búsqueda que respondió con un código HTTP de error.
pub open spec fn texto_error_http(codigo: u16, intento: int, cuerpo: Seq<char>) -> Seq<char> {
    "HTTP "@ + decimal(codigo as nat) + " en "@ + endpoint(intento) + " — "@ + prefijo(cuerpo, 140)
}

/// Qué hacer tras una respuesta de error del endpoint de búsqueda.
pub enum DecisionBusqueda {
    /// Ese endpoint no existe aquí: probar el siguiente.
    ProbarOtro { endpoint: String },
    /// No hay más que probar: la búsqueda falla con este error.
    Fallar { error: String },
}

/// Texto del aviso de conexión correcta.
pub open spec fn texto_conectado() -> Seq<char> {
    "✅ Jira conectado — vigilo tus incidencias"@
}

/// Número de novedades recordadas a partir del cual se olvidan todas.
pub const MAX_VISTOS: usize = 500;

/// Resultado de repasar las incidencias de un sondeo en orden: las claves vistas
/// tras el repaso y los textos de los avisos. Una incidencia cuya clave ya se vio
/// no da aviso; en la primera vuelta solo se anotan las claves.
pub open spec fn repaso(
    vistos: Seq<Seq<char>>,
    primera_vuelta: bool,
    evs: Seq<IssueVista>,
    mi_id: Seq<char>,
    mins: u64,
    ahora: Instante,
) -> (Seq<Seq<char>>, Seq<Seq<char>>)
    decreases evs.len(),
{
    if evs.len() == 0 {
        (vistos, Seq::empty())
    } else {
        let (v, a) = repaso(vistos, primera_vuelta, evs.drop_last(), mi_id, mins, ahora);
        let ev = evs.last();
        if v.contains(clave(ev)) {
            (v, a)
        } else if primera_vuelta {
            (v.push(clave(ev)), a)
        } else {
            (v.push(clave(ev)), a.push(texto_aviso(ev, mi_id, mins, ahora)))
        }
    }
}

pub open spec fn textos(avisos: Seq<AvisoJira>) -> Seq<Seq<char>> {
    avisos.map_values(|a: AvisoJira| a.texto@)
}

/// Modelo del estado del sondeo de Jira.
pub struct EstadoJiraVista {
    /// Claves de las novedades ya vistas, en el orden en que se vieron.
    pub vistos: Seq<Seq<char>>,
    /// En la primera vuelta (o tras olvidar lo visto) solo se siembra.
    pub primera_vuelta: bool,
    /// El último sondeo falló y su error ya se avisó.
    pub error_avisado: bool,
    /// Ya se avisó de que la conexión funciona.
    pub conexion_avisada: bool,
}

/// Estado al arrancar el sondeo.
pub open spec fn estado_jira_inicial() -> EstadoJiraVista {
    EstadoJiraVista {
        vistos: Seq::empty(),
        primera_vuelta: true,
        error_avisado: false,
        conexion_avisada: false,
    }
}

/// Lo que pasa en una vuelta del sondeo: una búsqueda que funcionó, con sus
/// incidencias, o una que falló, con su error.
pub enum Suceso {
    Sondeo { issues: Seq<IssueVista>, mi_id: Seq<char>, mins: u64, ahora: Instante },
    Fallo { error: Seq<char> },
}

/// Lo que se avisa en una vuelta.
pub struct Salida {
    /// Aviso de conexión correcta.
    pub conexion: bool,
    /// Claves de las novedades avisadas, en orden.
    pub claves: Seq<Seq<char>>,
    /// Textos de los avisos de esas novedades.
    pub textos: Seq<Seq<char>>,
    /// Aviso de error.
    pub error: Option<Seq<char>>,
}

/// Una vuelta del sondeo: el estado siguiente y lo que se avisa.
pub open spec fn paso_jira(e: EstadoJiraVista, s: Suceso) -> (EstadoJiraVista, Salida) {
    match s {
        Suceso::Sondeo { issues, mi_id, mins, ahora } => {
            let (v, a) = repaso(e.vistos, e.primera_vuelta, issues, mi_id, mins, ahora);
            let reinicio = v.len() > MAX_VISTOS;
            (
                EstadoJiraVista {
                    vistos: if reinicio { Seq::empty() } else { v },
                    primera_vuelta: reinicio,
                    error_avisado: false,
                    conexion_avisada: true,
                },
                Salida {
                    conexion: !e.conexion_avisada,
                    claves: if e.primera_vuelta { Seq::empty() } else { v.skip(e.vistos.len() as int) },
                    textos: a,
                    error: None,
                },
            )
        },
        Suceso::Fallo { error } => (
            EstadoJiraVista { error_avisado: true, ..e },
            Salida {
                conexion: false,
                claves: Seq::empty(),
                textos: Seq::empty(),
                error: if e.error_avisado { None } else { Some("⚠️ Jira: "@ + error) },
            },
        ),
    }
}

/// Estado tras una serie de vueltas desde el arranque.
pub open spec fn estado_jira_tras(ss: Seq<Suceso>) -> EstadoJiraVista
    decreases ss.len(),
{
    if ss.len() == 0 {
        estado_jira_inicial()
    } else {
        paso_jira(estado_jira_tras(ss.drop_last()), ss.last()).0
    }
}

/// Lo que se avisa en la vuelta `i` de una serie que empieza en el arranque.
pub open spec fn salida_en(ss: Seq<Suceso>, i: int) -> Salida {
    paso_jira(estado_jira_tras(ss.take(i)), ss[i]).1
}

/// En la vuelta `k` se olvidó todo lo visto (y se vuelve a sembrar).
pub open spec fn reinicia_en(ss: Seq<Suceso>, k: int) -> bool {
    ss[k] is Sondeo && paso_jira(estado_jira_tras(ss.take(k)), ss[k]).0.primera_vuelta
}

/// Estado del sondeo de Jira entre una vuelta y la siguiente.
pub struct EstadoJira {
    vistos: Vec<String>,
    primera_vuelta: bool,
    error_avisado: bool,
    conexion_avisada: bool,
}

pub open spec fn vistas(v: Seq<String>) -> Seq<Seq<char>> {
    v.map_values(|s: String| s@)
}

impl EstadoJira {
    /// Invariante: cada novedad se recuerda una sola vez.
    pub closed spec fn bien_formado(&self) -> bool {
        vistas(self.vistos@).no_duplicates()
    }

    /// Claves de las novedades ya vistas, en el orden en que se vieron.
    pub closed spec fn vistos(&self) -> Seq<Seq<char>> {
        vistas(self.vistos@)
    }

    pub closed spec fn en_primera_vuelta(&self) -> bool {
        self.primera_vuelta
    }

    pub closed spec fn error_ya_avisado(&self) -> bool {
        self.error_avisado
    }

    pub closed spec fn conexion_ya_avisada(&self) -> bool {
        self.conexion_avisada
    }

    /// El estado como modelo.
    pub closed spec fn modelo(&self) -> EstadoJiraVista {
        EstadoJiraVista {
            vistos: self.vistos(),
            primera_vuelta: self.primera_vuelta,
            error_avisado: self.error_avisado,
            conexion_avisada: self.conexion_avisada,
        }
    }

    /// Estado inicial: nada visto, primera vuelta, nada avisado.
    pub fn nuevo() -> (e: EstadoJira)
        ensures
            e.bien_formado(),
            e.modelo() == estado_jira_inicial(),
            e.vistos() == Seq::<Seq<char>>::empty(),
            e.en_primera_vuelta(),
            !e.error_ya_avisado(),
            !e.conexion_ya_avisada(),
    {
        let e = EstadoJira { vistos: Vec::new(), primera_vuelta: true, error_avisado: false, conexion_avisada: false };
        assert(e.vistos() =~= Seq::<Seq<char>>::empty());
        e
    }

    /// Un sondeo que falló: el error se avisa solo la primera vez, hasta que
    /// vuelva a funcionar.
    pub fn tras_error(&mut self, error: &str) -> (a: Option<AvisoJira>)
        requires
            old(self).bien_formado(),
        ensures
            final(self).bien_formado(),
            final(self).vistos() == old(self).vistos(),
            final(self).en_primera_vuelta() == old(self).en_primera_vuelta(),
            final(self).conexion_ya_avisada() == old(self).conexion_ya_avisada(),
            final(self).error_ya_avisado(),
            old(self).error_ya_avisado() ==> a is None,
            !old(self).error_ya_avisado() ==> a is Some && a->0.texto@ == "⚠️ Jira: "@ + error@,
            ({
                let (e, sal) = paso_jira(old(self).modelo(), Suceso::Fallo { error: error@ });
                &&& final(self).modelo() == e
                &&& match a {
                    Some(x) => sal.error == Some(x.texto@),
                    None => sal.error is None,
                }
            }),
    {
        if self.error_avisado {
            None
        } else {
            self.error_avisado = true;
            let mut t = String::from_str("⚠️ Jira: ");
            t.append(error);
            Some(AvisoJira { texto: t })
        }
    }

    /// Un sondeo que funcionó: avisa de la conexión la primera vez y, después, de
    /// cada novedad no vista antes (salvo en la primera vuelta, que solo siembra lo
    /// ya existente). Si se recuerdan más de 500 novedades se olvidan todas y se
    /// vuelve a sembrar.
    pub fn tras_sondeo(&mut self, issues: &Vec<IssueEv>, mi_id: &str, mins: u64, ahora: &Instante) -> (avisos: Vec<AvisoJira>)
        requires
            old(self).bien_formado(),
        ensures
            final(self).bien_formado(),
            !final(self).error_ya_avisado(),
            final(self).conexion_ya_avisada(),
            final(self).vistos().len() <= MAX_VISTOS,
            ({
                let s = Suceso::Sondeo { issues: issues@.map_values(|e: IssueEv| e@), mi_id: mi_id@, mins, ahora: *ahora };
                let (e, sal) = paso_jira(old(self).modelo(), s);
                &&& final(self).modelo() == e
                &&& textos(avisos@) == (if sal.conexion { seq![texto_conectado()] + sal.textos } else { sal.textos })
            }),
            ({
                let (v, a) = repaso(
                    old(self).vistos(),
                    old(self).en_primera_vuelta(),
                    issues@.map_values(|e: IssueEv| e@),
                    mi_id@,
                    mins,
                    *ahora,
                );
                &&& textos(avisos@) == (if old(self).conexion_ya_avisada() {
                    a
                } else {
                    seq![texto_conectado()] + a
                })
                &&& if v.len() > MAX_VISTOS {
                    final(self).vistos() == Seq::<Seq<char>>::empty() && final(self).en_primera_vuelta()
                } else {
                    final(self).vistos() == v && !final(self).en_primera_vuelta()
                }
            }),
    {
        let mut avisos: Vec<AvisoJira> = Vec::new();
        self.error_avisado = false;
        if !self.conexion_avisada {
            self.conexion_avisada = true;
            avisos.push(AvisoJira { texto: String::from_str("✅ Jira conectado — vigilo tus incidencias") });
        }
        let ghost inicio = textos(avisos@);
        let ghost evs = issues@.map_values(|e: IssueEv| e@);
        let ghost vistos0 = self.vistos();
        let primera = self.primera_vuelta;
        for i in 0..issues.len()
            invariant
                evs == issues@.map_values(|e: IssueEv| e@),
                self.bien_formado(),
                primera == self.primera_vuelta,
                !self.error_avisado,
                self.conexion_avisada,
                ({
                    let (v, a) = repaso(vistos0, primera, evs.take(i as int), mi_id@, mins, *ahora);
                    &&& self.vistos() == v
                    &&& textos(avisos@) == inicio + a
                }),
        {
            let ev = &issues[i];
            proof {
                assert(evs.take(i + 1).drop_last() =~= evs.take(i as int));
                assert(evs.take(i + 1).last() == ev@);
            }
            let mut c = ev.key.clone();
            c.append("@");
            c.append(ev.updated.as_str());
            let ya = contiene_clave(&self.vistos, &c);
            if !ya {
                let ghost antes = self.vistos@;
                let ghost avisos_antes = avisos@;
                self.vistos.push(c);
                proof {
                    assert(vistas(self.vistos@) =~= vistas(antes).push(clave(ev@)));
                }
                if !primera {
                    if let Some(texto) = mensaje(ev, mi_id, mins, ahora) {
                        avisos.push(AvisoJira { texto });
                        proof {
                            assert(textos(avisos@) =~= textos(avisos_antes).push(texto_aviso(ev@, mi_id@, mins, *ahora)));
                        }
                    }
                }
            }
        }
        proof {
            assert(evs.take(issues.len() as int) =~= evs);
        }
        self.primera_vuelta = false;
        if self.vistos.len() > MAX_VISTOS {
            self.vistos = Vec::new();
            self.primera_vuelta = true;
        }
        proof {
            let (v, a) = repaso(vistos0, primera, evs, mi_id@, mins, *ahora);
            if v.len() > MAX_VISTOS {
                assert(self.vistos() =~= Seq::<Seq<char>>::empty());
            }
        }
        avisos
    }
}

/// ¿Está ya la clave `c` entre las vistas?
fn contiene_clave(vistos: &Vec<String>, c: &String) -> (b: bool)
    ensures
        b == vistas(vistos@).contains(c@),
{
    let mut i: usize = 0;
    while i < vistos.len()
        invariant
            i <= vistos.len(),
            forall|k: int| 0 <= k < i ==> vistas(vistos@)[k] != c@,
        decreases vistos.len() - i,
    {
        if vistos[i] == *c {
            assert(vistas(vistos@)[i as int] == c@);
            return true;
        }
        i = i + 1;
    }
    false
}

/// Resumen de un texto para el bocadillo (ver `resumen`).
pub fn recortar(s: &str, max: usize) -> (r: String)
    requires
        max > 0 || recortado(s@).len() == 0,
    ensures
        r@ == resumen(s@, max as nat),
{
    let t = recortar_espacios(s);
    let v = caracteres(t.as_str());
    if v.len() <= max {
        proof {
            assert(v@.subrange(0, v.len() as int) =~= v@);
        }
        cadena_de(&v, 0, v.len())
    } else {
        let mut corto = cadena_de(&v, 0, max - 1);
        empujar(&mut corto, '…');
        proof {
            assert(v@.subrange(0, max - 1) =~= v@.take(max - 1));
        }
        corto
    }
}

/// ¿Se creó en el instante `creado` (si se pudo leer) dentro de los últimos `mins`
/// minutos, visto en `ahora`? Hasta un minuto en el futuro también cuenta.
pub fn es_reciente(creado: &Option<Instante>, mins: u64, ahora: &Instante) -> (b: bool)
    ensures
        b == (match par(*creado) {
            Some(t) => {
                let m = minutos_entre(t, (ahora.segundos, ahora.nanos));
                m <= (mins as i64) && m >= -1
            },
            None => false,
        }),
{
    match creado {
        Some(t) => {
            let m = minutos_transcurridos(t, ahora);
            m <= mins as i64 && m >= -1
        },
        None => false,
    }
}

/// ¿El comentario se creó dentro de los últimos `mins` minutos, visto en `ahora`?
pub fn comentario_reciente(creado: &str, mins: u64, ahora: &Instante) -> (b: bool)
    ensures
        b == reciente(creado@, mins, *ahora),
{
    let t = leer_fecha_con_zona(creado);
    es_reciente(&t, mins, ahora)
}

/// `a + b + c + d`, con `a` y `c` literales.
fn cuatro(a: &str, b: &str, c: &str, d: &str) -> (r: String)
    ensures
        r@ == a@ + b@ + c@ + d@,
{
    let mut r = String::from_str(a);
    r.append(b);
    r.append(c);
    r.append(d);
    r
}

/// Construye el texto del aviso según el tipo de novedad, visto en el instante `ahora`.
pub fn mensaje(ev: &IssueEv, mi_id: &str, mins: u64, ahora: &Instante) -> (r: Option<String>)
    ensures
        r is Some,
        r->0@ == texto_aviso(ev@, mi_id@, mins, *ahora),
{
    let resumen = recortar(ev.summary.as_str(), 40);

    // ¿El último comentario es reciente (dentro de la ventana) y no es mío?
    if let Some(c) = &ev.ultimo_comentario {
        let yo = String::from_str(mi_id);
        if comentario_reciente(c.creado.as_str(), mins, ahora) && c.autor != yo {
            if !mi_id.is_empty() && contiene_texto(c.cuerpo.as_str(), mi_id) {
                return Some(cuatro("💬 Te han mencionado en ", ev.key.as_str(), " — ", resumen.as_str()));
            }
            return Some(cuatro("💬 Nuevo comentario en ", ev.key.as_str(), " — ", resumen.as_str()));
        }
    }

    // Si no hay comentario nuevo, es una actualización (estado o campos).
    if ev.status.as_str().is_empty() {
        Some(cuatro("✏️ ", ev.key.as_str(), " actualizada — ", resumen.as_str()))
    } else {
        let mut t = cuatro("🔄 ", ev.key.as_str(), " → ", ev.status.as_str());
        t.append(" — ");
        t.append(resumen.as_str());
        Some(t)
    }
}


fn texto_o_vacio(s: &Option<String>) -> (r: String)
    ensures
        r@ == o_vacio(*s),
{
    match s {
        Some(t) => t.clone(),
        None => String::new(),
    }
}

/// Convierte las incidencias leídas de la búsqueda: los campos que faltan quedan
/// vacíos y se descartan las incidencias sin clave.
pub fn issues_de(crudos: &Vec<IssueCrudo>) -> (r: Vec<IssueEv>)
    ensures
        r@.map_values(|e: IssueEv| e@) == issues_validas(crudos@),
{
    let mut out: Vec<IssueEv> = Vec::new();
    for i in 0..crudos.len()
        invariant
            out@.map_values(|e: IssueEv| e@) == issues_validas(crudos@.take(i as int)),
    {
        let c = &crudos[i];
        proof {
            assert(crudos@.take(i + 1).drop_last() =~= crudos@.take(i as int));
            assert(crudos@.take(i + 1).last() == *c);
        }
        let key = texto_o_vacio(&c.key);
        let ultimo_comentario = match &c.ultimo_comentario {
            Some(k) => Some(
                Comentario {
                    autor: texto_o_vacio(&k.autor),
                    cuerpo: texto_o_vacio(&k.cuerpo),
                    creado: texto_o_vacio(&k.creado),
                },
            ),
            None => None,
        };
        let ev = IssueEv {
            key,
            summary: texto_o_vacio(&c.summary),
            status: texto_o_vacio(&c.status),
            updated: texto_o_vacio(&c.updated),
            ultimo_comentario,
        };
        assert(ev@ == issue_de(*c));
        if !ev.key.as_str().is_empty() {
            let ghost antes = out@;
            out.push(ev);
            assert(out@.map_values(|e: IssueEv| e@) =~= antes.map_values(|e: IssueEv| e@).push(issue_de(*c)));
        }
    }
    assert(crudos@.take(crudos.len() as int) =~= crudos@);
    out
}

/// Une textos con un separador entre cada dos (`join`).
pub fn juntar_con(lista: &Vec<String>, sep: &str) -> (r: String)
    ensures
        r@ == juntar(vistas(lista@), sep@),
{
    let mut r = String::new();
    let ghost l = vistas(lista@);
    for i in 0..lista.len()
        invariant
            l == vistas(lista@),
            r@ == juntar(l.take(i as int), sep@),
    {
        assert(l.take(i + 1).drop_last() =~= l.take(i as int));
        if i > 0 {
            r.append(sep);
        }
        r.append(lista[i].as_str());
    }
    assert(l.take(lista.len() as int) =~= l);
    r
}

/// El aviso que se da cuando Jira no está configurado: qué datos faltan.
pub fn aviso_sin_configurar(cfg: &Settings) -> (a: AvisoJira)
    ensures
        a.texto@ == texto_sin_configurar(cfg@),
{
    let mut faltan_v: Vec<String> = Vec::new();
    if vacio_tras_recortar(cfg.jira_site.as_str()) {
        faltan_v.push(String::from_str("sitio"));
    }
    if vacio_tras_recortar(cfg.jira_email.as_str()) {
        faltan_v.push(String::from_str("email"));
    }
    if vacio_tras_recortar(cfg.jira_token.as_str()) {
        faltan_v.push(String::from_str("token"));
    }
    assert(vistas(faltan_v@) =~= faltan(cfg@));
    let lista = juntar_con(&faltan_v, ", ");
    let mut t = String::from_str("⚙️ Jira sin configurar: falta ");
    t.append(lista.as_str());
    t.append(". Clic derecho en mi icono → Ajustes.");
    AvisoJira { texto: t }
}

/// URL base del sitio: `https://` y el dominio sin barras al final.
pub fn url_base(cfg: &Settings) -> (r: String)
    ensures
        r@ == "https://"@ + sin_final_repetido(cfg@.jira_site, '/'),
{
    let sitio = quitar_final_repetido(cfg.jira_site.as_str(), '/');
    let mut r = String::from_str("https://");
    r.append(sitio.as_str());
    r
}

/// Cada cuántos segundos sondear: el intervalo configurado, mínimo 20.
pub fn intervalo_sondeo(cfg: &Settings) -> (r: u64)
    ensures
        r == intervalo_efectivo(cfg@),
{
    if cfg.jira_intervalo_s >= 20 {
        cfg.jira_intervalo_s
    } else {
        20
    }
}

/// Ventana de búsqueda en minutos: el intervalo más un minuto de margen.
pub fn ventana_minutos(intervalo: u64) -> (r: u64)
    ensures
        r == ventana_de(intervalo),
{
    let m = intervalo / 60;
    let m = if m >= 1 { m } else { 1 };
    m + 1
}

/// Consulta JQL: incidencias asignadas a mí o que sigo (y, si hay proyecto, las
/// suyas) actualizadas en los últimos `mins` minutos.
pub fn consulta_jql(proyecto: &str, mins: u64) -> (r: String)
    ensures
        r@ == jql(proyecto@, mins),
{
    let p = recortar_espacios(proyecto);
    let mut r = if p.as_str().is_empty() {
        String::from_str("(assignee = currentUser() OR watcher = currentUser())")
    } else {
        let mut f = String::from_str("(assignee = currentUser() OR watcher = currentUser() OR project = ");
        f.append(p.as_str());
        f.append(")");
        f
    };
    r.append(" AND updated >= -");
    let n = en_decimal(mins);
    r.append(n.as_str());
    r.append("m ORDER BY updated DESC");
    r
}

/// El endpoint de búsqueda número `i`.
pub fn endpoint_busqueda(i: usize) -> (r: String)
    requires
        i < NUM_ENDPOINTS,
    ensures
        r@ == endpoint(i as int),
{
    if i == 0 {
        String::from_str("/rest/api/3/search/jql")
    } else {
        String::from_str("/rest/api/3/search")
    }
}

/// Tras una respuesta de error (código `codigo`, cuerpo `cuerpo`) del endpoint
/// número `intento`: si es 404 o 410 (endpoint retirado) y queda otro, se prueba
/// ese; si no, la búsqueda falla con el código, el endpoint y el principio del cuerpo.
pub fn tras_error_http(intento: usize, codigo: u16, cuerpo: &str) -> (d: DecisionBusqueda)
    requires
        intento < NUM_ENDPOINTS,
    ensures
        match d {
            DecisionBusqueda::ProbarOtro { endpoint: e } => {
                &&& codigo == 404 || codigo == 410
                &&& intento + 1 < NUM_ENDPOINTS
                &&& e@ == endpoint(intento + 1)
            },
            DecisionBusqueda::Fallar { error } => {
                &&& !((codigo == 404 || codigo == 410) && intento + 1 < NUM_ENDPOINTS)
                &&& error@ == texto_error_http(codigo, intento as int, cuerpo@)
            },
        },
{
    if (codigo == 404 || codigo == 410) && intento + 1 < NUM_ENDPOINTS {
        return DecisionBusqueda::ProbarOtro { endpoint: endpoint_busqueda(intento + 1) };
    }
    let corto = primeros(cuerpo, 140);
    let mut e = String::from_str("HTTP ");
    let n = en_decimal(codigo as u64);
    e.append(n.as_str());
    e.append(" en ");
    let ep = endpoint_busqueda(intento);
    e.append(ep.as_str());
    e.append(" — ");
    e.append(corto.as_str());
    DecisionBusqueda::Fallar { error: e }
}

// ================================== Leyes ===================================

/// En la primera vuelta solo se siembran las novedades ya existentes: no sale
/// ningún aviso de incidencia.
pub proof fn ley_primera_vuelta_sin_avisos(
    vistos: Seq<Seq<char>>,
    evs: Seq<IssueVista>,
    mi_id: Seq<char>,
    mins: u64,
    ahora: Instante,
)
    ensures
        repaso(vistos, true, evs, mi_id, mins, ahora).1.len() == 0,
    decreases evs.len(),
{
    if evs.len() > 0 {
        ley_primera_vuelta_sin_avisos(vistos, evs.drop_last(), mi_id, mins, ahora);
    }
}

/// El repaso conserva lo ya visto (al principio y en el mismo orden), anota la
/// clave de cada incidencia repasada, no repite claves y, fuera de la primera
/// vuelta, da exactamente un aviso por clave nueva.
pub proof fn ley_repaso(
    vistos: Seq<Seq<char>>,
    primera_vuelta: bool,
    evs: Seq<IssueVista>,
    mi_id: Seq<char>,
    mins: u64,
    ahora: Instante,
)
    ensures
        ({
            let (v, a) = repaso(vistos, primera_vuelta, evs, mi_id, mins, ahora);
            &&& vistos.len() <= v.len()
            &&& v.take(vistos.len() as int) == vistos
            &&& forall|i: int| 0 <= i < evs.len() ==> v.contains(#[trigger] clave(evs[i]))
            &&& vistos.no_duplicates() ==> v.no_duplicates()
            &&& !primera_vuelta ==> a.len() == v.len() - vistos.len()
        }),
    decreases evs.len(),
{
    if evs.len() == 0 {
        assert(vistos.take(vistos.len() as int) =~= vistos);
    } else {
        let previos = evs.drop_last();
        ley_repaso(vistos, primera_vuelta, previos, mi_id, mins, ahora);
        let (v0, a0) = repaso(vistos, primera_vuelta, previos, mi_id, mins, ahora);
        let ev = evs.last();
        if !v0.contains(clave(ev)) {
            let v = v0.push(clave(ev));
            assert(v.take(vistos.len() as int) =~= v0.take(vistos.len() as int));
            assert(v[v0.len() as int] == clave(ev));
            assert forall|i: int| 0 <= i < evs.len() implies v.contains(#[trigger] clave(evs[i])) by {
                if i < previos.len() {
                    assert(previos[i] == evs[i]);
                    let j = choose|j: int| 0 <= j < v0.len() && v0[j] == clave(previos[i]);
                    assert(v[j] == v0[j]);
                }
            }
        } else {
            assert forall|i: int| 0 <= i < evs.len() implies v0.contains(#[trigger] clave(evs[i])) by {
                if i < previos.len() {
                    assert(previos[i] == evs[i]);
                }
            }
        }
    }
}

/// Si todas las incidencias ya se vieron, el repaso no anota nada ni avisa.
pub proof fn ley_todo_visto(
    vistos: Seq<Seq<char>>,
    primera_vuelta: bool,
    evs: Seq<IssueVista>,
    mi_id: Seq<char>,
    mins: u64,
    ahora: Instante,
)
    requires
        forall|i: int| 0 <= i < evs.len() ==> vistos.contains(#[trigger] clave(evs[i])),
    ensures
        repaso(vistos, primera_vuelta, evs, mi_id, mins, ahora) == (vistos, Seq::<Seq<char>>::empty()),
    decreases evs.len(),
{
    if evs.len() > 0 {
        let previos = evs.drop_last();
        assert forall|i: int| 0 <= i < previos.len() implies vistos.contains(#[trigger] clave(previos[i])) by {
            assert(previos[i] == evs[i]);
        }
        ley_todo_visto(vistos, primera_vuelta, previos, mi_id, mins, ahora);
        assert(vistos.contains(clave(evs[evs.len() - 1])));
    }
}

/// Para no repetir el mismo aviso: repasar otra vez las mismas incidencias (sin
/// que hayan vuelto a actualizarse) no da ningún aviso ni cambia lo visto.
pub proof fn ley_sin_avisos_repetidos(
    vistos: Seq<Seq<char>>,
    primera_vuelta: bool,
    evs: Seq<IssueVista>,
    mi_id: Seq<char>,
    mins: u64,
    ahora: Instante,
    otra_vuelta: bool,
    otro_mi_id: Seq<char>,
    otros_mins: u64,
    mas_tarde: Instante,
)
    ensures
        ({
            let v = repaso(vistos, primera_vuelta, evs, mi_id, mins, ahora).0;
            repaso(v, otra_vuelta, evs, otro_mi_id, otros_mins, mas_tarde) == (v, Seq::<Seq<char>>::empty())
        }),
{
    ley_repaso(vistos, primera_vuelta, evs, mi_id, mins, ahora);
    let v = repaso(vistos, primera_vuelta, evs, mi_id, mins, ahora).0;
    ley_todo_visto(v, otra_vuelta, evs, otro_mi_id, otros_mins, mas_tarde);
}

/// Solo se dice que falta algo cuando Jira no está configurado.
pub proof fn ley_faltan(a: crate::settings::AjustesVista)
    ensures
        faltan(a).len() == 0 <==> crate::settings::jira_listo(a),
{
}

/// Un resumen nunca pasa de `max` caracteres.
pub proof fn ley_resumen_acotado(s: Seq<char>, max: nat)
    requires
        max > 0,
    ensures
        resumen(s, max).len() <= max,
{
}

/// Resumir un resumen lo deja igual.
pub proof fn ley_resumen_estable(s: Seq<char>, max: nat)
    requires
        max > 0,
    ensures
        resumen(resumen(s, max), max) == resumen(s, max),
{
    let t = recortado(s);
    crate::texto::ley_recortar_idempotente(s);
    if t.len() > max {
        let r = t.take(max - 1).push('…');
        crate::texto::lema_extremos_recortado(s);
        if max - 1 > 0 {
            assert(r[0] == t[0]);
        }
        assert(r.last() == '…');
        crate::texto::lema_recortado_fijo(r);
    }
}

proof fn lema_take_jira(ss: Seq<Suceso>, i: int)
    requires
        0 <= i < ss.len(),
    ensures
        estado_jira_tras(ss.take(i + 1)) == paso_jira(estado_jira_tras(ss.take(i)), ss[i]).0,
{
    assert(ss.take(i + 1).drop_last() =~= ss.take(i));
    assert(ss.take(i + 1).last() == ss[i]);
}

/// Lo que el estado recuerda de las vueltas anteriores.
proof fn lema_invariante_jira(ss: Seq<Suceso>, n: int)
    requires
        0 <= n <= ss.len(),
    ensures
        estado_jira_tras(ss.take(n)).vistos.no_duplicates(),
        estado_jira_tras(ss.take(n)).conexion_avisada == (exists|j: int| 0 <= j < n && #[trigger] ss[j] is Sondeo),
        estado_jira_tras(ss.take(n)).error_avisado == (n > 0 && ss[n - 1] is Fallo),
        (forall|j: int| 0 <= j < n ==> #[trigger] ss[j] is Fallo) ==> estado_jira_tras(ss.take(n)).primera_vuelta,
    decreases n,
{
    if n == 0 {
        assert(ss.take(0) =~= Seq::<Suceso>::empty());
    } else {
        lema_invariante_jira(ss, n - 1);
        lema_take_jira(ss, n - 1);
        let e0 = estado_jira_tras(ss.take(n - 1));
        match ss[n - 1] {
            Suceso::Sondeo { issues, mi_id, mins, ahora } => {
                ley_repaso(e0.vistos, e0.primera_vuelta, issues, mi_id, mins, ahora);
                assert(Seq::<Seq<char>>::empty().no_duplicates());
            },
            Suceso::Fallo { error } => {
                if (forall|j: int| 0 <= j < n ==> #[trigger] ss[j] is Fallo) {
                    assert(forall|j: int| 0 <= j < n - 1 ==> #[trigger] ss[j] is Fallo);
                }
                if exists|j: int| 0 <= j < n && #[trigger] ss[j] is Sondeo {
                    let j = choose|j: int| 0 <= j < n && #[trigger] ss[j] is Sondeo;
                    assert(j < n - 1);
                }
            },
        }
    }
}

/// El aviso de conexión sale una sola vez: en el primer sondeo que funciona.
pub proof fn ley_conexion_una_vez(ss: Seq<Suceso>, i: int)
    requires
        0 <= i < ss.len(),
    ensures
        salida_en(ss, i).conexion <==> (ss[i] is Sondeo && forall|j: int| 0 <= j < i ==> #[trigger] ss[j] is Fallo),
{
    lema_invariante_jira(ss, i);
    if ss[i] is Sondeo && !(forall|j: int| 0 <= j < i ==> #[trigger] ss[j] is Fallo) {
        let j = choose|j: int| 0 <= j < i && !(#[trigger] ss[j] is Fallo);
        assert(ss[j] is Sondeo);
    }
}

/// Un error se avisa una vez por cada racha de sondeos fallidos: en el primer
/// fallo tras el arranque o tras un sondeo que funcionó.
pub proof fn ley_error_una_vez_por_racha(ss: Seq<Suceso>, i: int)
    requires
        0 <= i < ss.len(),
    ensures
        salida_en(ss, i).error is Some <==> (ss[i] is Fallo && (i == 0 || ss[i - 1] is Sondeo)),
{
    lema_invariante_jira(ss, i);
}

/// El primer sondeo que funciona solo siembra lo existente: no avisa de ninguna
/// incidencia.
pub proof fn ley_primer_sondeo_siembra(ss: Seq<Suceso>, i: int)
    requires
        0 <= i < ss.len(),
        ss[i] is Sondeo,
        forall|j: int| 0 <= j < i ==> #[trigger] ss[j] is Fallo,
    ensures
        salida_en(ss, i).claves.len() == 0,
        salida_en(ss, i).textos.len() == 0,
{
    lema_invariante_jira(ss, i);
    let e = estado_jira_tras(ss.take(i));
    match ss[i] {
        Suceso::Sondeo { issues, mi_id, mins, ahora } => {
            ley_primera_vuelta_sin_avisos(e.vistos, issues, mi_id, mins, ahora);
        },
        Suceso::Fallo { .. } => {},
    }
}

/// En cada vuelta hay un aviso por novedad y ninguna novedad se avisa dos veces.
pub proof fn ley_un_aviso_por_novedad(ss: Seq<Suceso>, i: int)
    requires
        0 <= i < ss.len(),
    ensures
        salida_en(ss, i).textos.len() == salida_en(ss, i).claves.len(),
        salida_en(ss, i).claves.no_duplicates(),
{
    lema_invariante_jira(ss, i);
    let e = estado_jira_tras(ss.take(i));
    match ss[i] {
        Suceso::Sondeo { issues, mi_id, mins, ahora } => {
            ley_repaso(e.vistos, e.primera_vuelta, issues, mi_id, mins, ahora);
            if e.primera_vuelta {
                ley_primera_vuelta_sin_avisos(e.vistos, issues, mi_id, mins, ahora);
            } else {
                let v = repaso(e.vistos, e.primera_vuelta, issues, mi_id, mins, ahora).0;
                let nuevas = v.skip(e.vistos.len() as int);
                assert forall|a: int, b: int| 0 <= a < nuevas.len() && 0 <= b < nuevas.len() && a != b
                    implies nuevas[a] != nuevas[b] by {
                    assert(nuevas[a] == v[a + e.vistos.len()]);
                    assert(nuevas[b] == v[b + e.vistos.len()]);
                }
            }
        },
        Suceso::Fallo { .. } => {},
    }
}

/// Lo avisado en la vuelta `i` sigue entre lo visto en las vueltas siguientes
/// mientras no se olvide todo.
proof fn lema_avisado_queda_visto(ss: Seq<Suceso>, i: int, k: int, c: Seq<char>)
    requires
        0 <= i < k <= ss.len(),
        forall|m: int| i <= m < k ==> !reinicia_en(ss, m),
        salida_en(ss, i).claves.contains(c),
    ensures
        estado_jira_tras(ss.take(k)).vistos.contains(c),
    decreases k - i,
{
    lema_invariante_jira(ss, k - 1);
    lema_take_jira(ss, k - 1);
    let e = estado_jira_tras(ss.take(k - 1));
    assert(!reinicia_en(ss, k - 1));
    if k - 1 == i {
        match ss[i] {
            Suceso::Sondeo { issues, mi_id, mins, ahora } => {
                ley_repaso(e.vistos, e.primera_vuelta, issues, mi_id, mins, ahora);
                let v = repaso(e.vistos, e.primera_vuelta, issues, mi_id, mins, ahora).0;
                if !e.primera_vuelta {
                    let nuevas = v.skip(e.vistos.len() as int);
                    let m = choose|m: int| 0 <= m < nuevas.len() && nuevas[m] == c;
                    assert(nuevas[m] == v[m + e.vistos.len()]);
                    assert(v.contains(c));
                }
            },
            Suceso::Fallo { .. } => {},
        }
    } else {
        lema_avisado_queda_visto(ss, i, k - 1, c);
        match ss[k - 1] {
            Suceso::Sondeo { issues, mi_id, mins, ahora } => {
                ley_repaso(e.vistos, e.primera_vuelta, issues, mi_id, mins, ahora);
                let v = repaso(e.vistos, e.primera_vuelta, issues, mi_id, mins, ahora).0;
                let p = choose|p: int| 0 <= p < e.vistos.len() && e.vistos[p] == c;
                assert(v.take(e.vistos.len() as int)[p] == v[p]);
            },
            Suceso::Fallo { .. } => {},
        }
    }
}

/// Para no repetir avisos: una novedad (`ISSUE@updated`) avisada en una vuelta no
/// se vuelve a avisar en ninguna vuelta posterior mientras no se olvide todo lo
/// visto (al pasar de 500 novedades).
pub proof fn ley_novedad_una_vez(ss: Seq<Suceso>, i: int, j: int, c: Seq<char>)
    requires
        0 <= i < j < ss.len(),
        forall|m: int| i <= m < j ==> !reinicia_en(ss, m),
        salida_en(ss, i).claves.contains(c),
    ensures
        !salida_en(ss, j).claves.contains(c),
{
    lema_avisado_queda_visto(ss, i, j, c);
    lema_invariante_jira(ss, j);
    let e = estado_jira_tras(ss.take(j));
    match ss[j] {
        Suceso::Sondeo { issues, mi_id, mins, ahora } => {
            ley_repaso(e.vistos, e.primera_vuelta, issues, mi_id, mins, ahora);
            if !e.primera_vuelta {
                let v = repaso(e.vistos, e.primera_vuelta, issues, mi_id, mins, ahora).0;
                let nuevas = v.skip(e.vistos.len() as int);
                if nuevas.contains(c) {
                    let m = choose|m: int| 0 <= m < nuevas.len() && nuevas[m] == c;
                    let p = choose|p: int| 0 <= p < e.vistos.len() && e.vistos[p] == c;
                    assert(v.take(e.vistos.len() as int)[p] == v[p]);
                    assert(v[m + e.vistos.len()] == c);
                    assert(v[p] == v[m + e.vistos.len()]);
                }
            }
        },
        Suceso::Fallo { .. } => {},
    }
}

/// La clave de una novedad es la clave de la incidencia, `@` y la fecha de
/// actualización entera: dos actualizaciones distintas de una misma incidencia
/// nunca comparten clave.
pub proof fn ley_clave_distingue_actualizaciones(a: IssueVista, b: IssueVista)
    ensures
        clave(a).len() == a.key.len() + 1 + a.updated.len(),
        clave(a).take(a.key.len() as int) == a.key,
        clave(a)[a.key.len() as int] == '@',
        clave(a).skip(a.key.len() as int + 1) == a.updated,
        a.key == b.key && a.updated != b.updated ==> clave(a) != clave(b),
{
    reveal_strlit("@");
    let k = a.key.len() as int;
    assert(("@"@)[0] == '@');
    assert(clave(a).take(k) =~= a.key);
    assert(clave(a).skip(k + 1) =~= a.updated);
    if a.key == b.key && clave(a) == clave(b) {
        assert(clave(b).skip(k + 1) =~= b.updated);
    }
}

/// Una actualización nueva de una incidencia ya vista se avisa: si un sondeo
/// (tras el que siembra) trae la misma incidencia con otra fecha de
/// actualización, da exactamente un aviso, el de esa actualización.
pub proof fn ley_actualizacion_nueva_se_avisa(
    ev1: IssueVista,
    ev2: IssueVista,
    mi_id: Seq<char>,
    mins: u64,
    ahora: Instante,
    mi_id2: Seq<char>,
    mins2: u64,
    ahora2: Instante,
)
    requires
        ev1.key == ev2.key,
        ev1.updated != ev2.updated,
    ensures
        ({
            let ss = seq![
                Suceso::Sondeo { issues: seq![ev1], mi_id, mins, ahora },
                Suceso::Sondeo { issues: seq![ev2], mi_id: mi_id2, mins: mins2, ahora: ahora2 },
            ];
            &&& salida_en(ss, 0).textos.len() == 0
            &&& salida_en(ss, 1).textos == seq![texto_aviso(ev2, mi_id2, mins2, ahora2)]
            &&& salida_en(ss, 1).claves == seq![clave(ev2)]
        }),
{
    let ss = seq![
        Suceso::Sondeo { issues: seq![ev1], mi_id, mins, ahora },
        Suceso::Sondeo { issues: seq![ev2], mi_id: mi_id2, mins: mins2, ahora: ahora2 },
    ];
    ley_clave_distingue_actualizaciones(ev1, ev2);
    assert(ss.take(0) =~= Seq::<Suceso>::empty());
    assert(seq![ev1].drop_last() =~= Seq::<IssueVista>::empty());
    assert(seq![ev2].drop_last() =~= Seq::<IssueVista>::empty());
    let v0: Seq<Seq<char>> = Seq::empty();
    assert(!v0.contains(clave(ev1)));
    assert(seq![ev1].last() == ev1);
    assert(seq![ev2].last() == ev2);
    assert(repaso(v0, true, Seq::<IssueVista>::empty(), mi_id, mins, ahora) == (v0, Seq::<Seq<char>>::empty()));
    assert(repaso(v0, true, seq![ev1], mi_id, mins, ahora) == (v0.push(clave(ev1)), Seq::<Seq<char>>::empty()));
    assert(ss.take(1).drop_last() =~= Seq::<Suceso>::empty());
    assert(ss.take(1).last() == ss[0]);
    let e1 = estado_jira_tras(ss.take(1));
    assert(e1.vistos == seq![clave(ev1)]);
    assert(!e1.primera_vuelta);
    assert(!e1.vistos.contains(clave(ev2))) by {
        if e1.vistos.contains(clave(ev2)) {
            let p = choose|p: int| 0 <= p < e1.vistos.len() && e1.vistos[p] == clave(ev2);
            assert(p == 0);
        }
    }
    assert(repaso(e1.vistos, false, Seq::<IssueVista>::empty(), mi_id2, mins2, ahora2)
        == (e1.vistos, Seq::<Seq<char>>::empty()));
    let r = repaso(e1.vistos, false, seq![ev2], mi_id2, mins2, ahora2);
    assert(r == (e1.vistos.push(clave(ev2)), seq![texto_aviso(ev2, mi_id2, mins2, ahora2)]));
    assert(r.0.skip(1) =~= seq![clave(ev2)]);
}

/// Sin comentario nuevo de otra persona (no hay comentario, o es viejo, o es mío),
/// el aviso solo depende del estado: "✏️ … actualizada" si no tiene, y si lo
/// tiene "🔄 clave → estado".
pub proof fn ley_aviso_sin_comentario_nuevo(ev: IssueVista, mi_id: Seq<char>, mins: u64, ahora: Instante)
    requires
        match ev.ultimo_comentario {
            Some(c) => !reciente(c.creado, mins, ahora) || c.autor == mi_id,
            None => true,
        },
    ensures
        texto_aviso(ev, mi_id, mins, ahora) == (if ev.status.len() == 0 {
            "✏️ "@ + ev.key + " actualizada — "@ + resumen(ev.summary, 40)
        } else {
            "🔄 "@ + ev.key + " → "@ + ev.status + " — "@ + resumen(ev.summary, 40)
        }),
        texto_aviso(ev, mi_id, mins, ahora) == texto_aviso(
            IssueVista { ultimo_comentario: None, ..ev },
            mi_id,
            mins,
            ahora,
        ),
{
}

/// La ventana de búsqueda siempre cubre el intervalo entre sondeos: con un
/// intervalo de un minuto o más es el número de minutos enteros del intervalo más
/// uno de margen; por debajo de un minuto, dos minutos.
pub proof fn ley_ventana_cubre_intervalo(intervalo: u64)
    ensures
        ventana_de(intervalo) * 60 > intervalo,
        intervalo >= 60 ==> (ventana_de(intervalo) - 1) * 60 <= intervalo,
        intervalo < 60 ==> ventana_de(intervalo) == 2,
{
}

/// Con un comentario reciente de otra persona, el aviso es de mención si el
/// comentario contiene mi identificador (y lo tengo) y de comentario nuevo si no,
/// sea cual sea el estado de la incidencia.
pub proof fn ley_aviso_comentario_nuevo(ev: IssueVista, mi_id: Seq<char>, mins: u64, ahora: Instante)
    requires
        ev.ultimo_comentario matches Some(c) && reciente(c.creado, mins, ahora) && c.autor != mi_id,
    ensures
        texto_aviso(ev, mi_id, mins, ahora) == (if mi_id.len() > 0 && contiene(ev.ultimo_comentario->0.cuerpo, mi_id) {
            "💬 Te han mencionado en "@ + ev.key + " — "@ + resumen(ev.summary, 40)
        } else {
            "💬 Nuevo comentario en "@ + ev.key + " — "@ + resumen(ev.summary, 40)
        }),
{
}

} // verus!
