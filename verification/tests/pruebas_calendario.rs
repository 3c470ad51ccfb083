use joaquincillo::calendar::{
    base_oauth, decidir_token, filtrar_aviso, intervalo_device, proxima_reunion, proxima_reunion_windows,
    peticion_calendario, reunion_calculable, reunion_simulada, tras_refresco, url_calendario,
    modo_calendario, tras_intento_refresco, tras_sondeo_device, AccionToken, CitaWindows, EventoGraph, ModoCalendario,
    PasoDeviceCode, TrasRefresco,
    RespuestaToken, Reunion, TokenGuardado, EPOCH_DIFF_SECS,
};
use joaquincillo::settings::Settings;
use joaquincillo::fecha::{instante_de, reloj, Instante, LIMITE_RELOJ};

// 2026-06-09T08:30:00Z
const T0: i64 = 1_780_993_800;

fn evento(cancelado: Option<bool>, asunto: Option<&str>, inicio: Option<&str>) -> EventoGraph {
    EventoGraph { cancelado, asunto: asunto.map(|s| s.to_string()), inicio: inicio.map(|s| s.to_string()) }
}

#[test]
fn proxima_reunion_de_graph() {
    let ahora = Instante { segundos: T0, nanos: 0 };
    let eventos = Some(vec![
        evento(Some(true), Some("Cancelada"), Some("2026-06-09T08:35:00.0000000")),
        evento(None, Some("Sin inicio"), None),
        evento(Some(false), Some("Pasada"), Some("2026-06-09T08:00:00.0000000")),
        evento(None, None, Some("2026-06-09T08:40:00.0000000")),
        evento(None, Some("Otra"), Some("2026-06-09T08:35:00.0000000")),
    ]);
    assert!(reunion_calculable(&eventos, &ahora));
    let r = proxima_reunion(&eventos, &ahora).unwrap();
    assert_eq!(r.titulo, "Reunión");
    assert_eq!(r.minutos, 10);
    assert!(proxima_reunion(&None, &ahora).is_none());
    assert!(proxima_reunion(&Some(vec![]), &ahora).is_none());
}

#[test]
fn minutos_de_graph_truncan() {
    // Quedan 4 min 59.5 s: se cuentan 4 minutos.
    let ahora = Instante { segundos: T0, nanos: 500_000_000 };
    let eventos = Some(vec![evento(None, Some("Daily"), Some("2026-06-09T08:35:00"))]);
    let r = proxima_reunion(&eventos, &ahora).unwrap();
    assert_eq!(r.titulo, "Daily");
    assert_eq!(r.minutos, 4);
    // Empezada hace medio segundo: cero minutos, todavía cuenta.
    let ahora = Instante { segundos: T0 + 300, nanos: 500_000_000 };
    assert_eq!(proxima_reunion(&eventos, &ahora).unwrap().minutos, 0);
    // Fecha ilegible: no hay reunión.
    let eventos = Some(vec![evento(None, Some("Mal"), Some("mañana"))]);
    assert!(proxima_reunion(&eventos, &ahora).is_none());
}

#[test]
fn fecha_que_no_se_puede_cortar() {
    let ahora = Instante { segundos: T0, nanos: 0 };
    // 18 bytes de fecha y una "é" de dos bytes: el byte 19 cae a mitad de carácter.
    let eventos = Some(vec![evento(None, Some("Rara"), Some("2026-06-09T08:35:0é"))]);
    assert!(!reunion_calculable(&eventos, &ahora));
    // Si antes hay una reunión válida, ya no se llega a cortar la rara.
    let eventos = Some(vec![
        evento(None, Some("Buena"), Some("2026-06-09T08:35:00")),
        evento(None, Some("Rara"), Some("2026-06-09T08:35:0é")),
    ]);
    assert!(reunion_calculable(&eventos, &ahora));
    assert_eq!(proxima_reunion(&eventos, &ahora).unwrap().titulo, "Buena");
}

fn ticks(unix: i64) -> i64 {
    (unix + EPOCH_DIFF_SECS) * 10_000_000
}

fn cita(todo_el_dia: Option<bool>, inicio: Option<i64>, asunto: Option<&str>) -> CitaWindows {
    CitaWindows { todo_el_dia, inicio, asunto: asunto.map(|s| s.to_string()) }
}

#[test]
fn reunion_mas_proxima_de_windows() {
    let citas = vec![
        cita(Some(true), Some(ticks(T0 + 60)), Some("Vacaciones")),
        cita(None, Some(ticks(T0 + 900)), Some("Comité")),
        cita(Some(false), Some(ticks(T0 + 300)), Some("  ")),
        cita(Some(false), Some(ticks(T0 + 300)), Some("Empatada")),
        cita(None, Some(ticks(T0 - 120)), Some("Pasada")),
        cita(None, None, Some("Sin hora")),
    ];
    let r = proxima_reunion_windows(&citas, T0).unwrap();
    assert_eq!(r.titulo, "Reunión");
    assert_eq!(r.minutos, 5);
    assert!(proxima_reunion_windows(&vec![], T0).is_none());
}

#[test]
fn minutos_de_windows_truncan_hacia_cero() {
    // Empezó hace 30 s: (-30) / 60 es 0 en Rust, así que todavía cuenta.
    let citas = vec![cita(None, Some(ticks(T0 - 30)), Some("Recién empezada"))];
    let r = proxima_reunion_windows(&citas, T0).unwrap();
    assert_eq!(r.minutos, 0);
    let citas = vec![cita(None, Some(ticks(T0 - 60)), Some("Empezada"))];
    assert!(proxima_reunion_windows(&citas, T0).is_none());
    // Una fecha lejana del futuro siempre cuenta, con el reloj de verdad.
    let ahora = reloj().unwrap().segundos;
    let citas = vec![cita(None, Some(i64::MAX), None)];
    assert_eq!(proxima_reunion_windows(&citas, ahora).unwrap().titulo, "Reunión");
}

#[test]
fn cuando_avisar() {
    let r = |m| Reunion { titulo: "x".to_string(), minutos: m };
    assert!(filtrar_aviso(Some(r(5)), 5).is_some());
    assert!(filtrar_aviso(Some(r(0)), 5).is_some());
    assert!(filtrar_aviso(Some(r(6)), 5).is_none());
    assert!(filtrar_aviso(Some(r(-1)), 5).is_none());
    assert!(filtrar_aviso(None, 5).is_none());
}

#[test]
fn sin_client_id_se_simula() {
    let mut cfg = Settings::default();
    cfg.aviso_reunion_min = 7;
    match modo_calendario(&cfg) {
        ModoCalendario::Simulacion { espera_s, reunion } => {
            assert_eq!(espera_s, 20);
            assert_eq!(reunion.titulo, "Daily del equipo");
            assert_eq!(reunion.minutos, 7);
        },
        ModoCalendario::Graph => panic!("sin client id debía simular"),
    }
    // Un client id de espacios tampoco cuenta.
    cfg.azure_client_id = "   ".to_string();
    assert!(matches!(modo_calendario(&cfg), ModoCalendario::Simulacion { .. }));
    cfg.azure_client_id = "0000-aaaa".to_string();
    assert!(matches!(modo_calendario(&cfg), ModoCalendario::Graph));
    let s = reunion_simulada(5);
    assert_eq!(s.titulo, "Daily del equipo");
    assert_eq!(s.minutos, 5);
}

#[test]
fn refresco_fallido_vuelve_al_login() {
    match tras_intento_refresco(Ok(token(500))) {
        TrasRefresco::Guardar(t) => {
            assert_eq!(t.access_token, "acc");
            assert_eq!(t.expira_en, 500);
        },
        TrasRefresco::IniciarSesion => panic!("debía guardar el token nuevo"),
    }
    assert!(matches!(tras_intento_refresco(Err("refresh sin access_token".to_string())), TrasRefresco::IniciarSesion));
}

fn token(expira_en: i64) -> TokenGuardado {
    TokenGuardado { access_token: "acc".to_string(), refresh_token: "ref".to_string(), expira_en }
}

#[test]
fn decisiones_de_token() {
    match decidir_token(Some(token(1000)), 800) {
        AccionToken::Usar { access_token } => assert_eq!(access_token, "acc"),
        _ => panic!("todavía válido"),
    }
    match decidir_token(Some(token(1000)), 880) {
        AccionToken::Refrescar { refresh_token } => assert_eq!(refresh_token, "ref"),
        _ => panic!("caduca pronto"),
    }
    assert!(matches!(decidir_token(None, 0), AccionToken::IniciarSesion));
}

fn respuesta(at: Option<&str>, rt: Option<&str>, exp: Option<i64>, err: Option<&str>) -> RespuestaToken {
    RespuestaToken {
        access_token: at.map(|s| s.to_string()),
        refresh_token: rt.map(|s| s.to_string()),
        expires_in: exp,
        error: err.map(|s| s.to_string()),
    }
}

#[test]
fn refresco_de_token() {
    let t = tras_refresco(respuesta(Some("nuevo"), None, Some(3600), None), "viejo", 1000).unwrap();
    assert_eq!(t.access_token, "nuevo");
    assert_eq!(t.refresh_token, "viejo");
    assert_eq!(t.expira_en, 4600);
    let t = tras_refresco(respuesta(Some("nuevo"), Some("otro"), Some(10), None), "viejo", 0).unwrap();
    assert_eq!(t.refresh_token, "otro");
    let e = tras_refresco(respuesta(None, Some("otro"), Some(10), None), "viejo", 0).err().unwrap();
    assert_eq!(e, "refresh sin access_token");
    assert!(tras_refresco(respuesta(Some("a"), None, None, None), "viejo", 0).is_err());
}

#[test]
fn pasos_device_code() {
    assert!(matches!(
        tras_sondeo_device(respuesta(None, None, None, Some("authorization_pending")), 0),
        PasoDeviceCode::Esperar
    ));
    assert!(matches!(tras_sondeo_device(respuesta(None, None, None, Some("slow_down")), 0), PasoDeviceCode::EsperarMas));
    match tras_sondeo_device(respuesta(None, None, None, Some("expired_token")), 0) {
        PasoDeviceCode::Fallo(m) => assert_eq!(m, "device-code: expired_token"),
        _ => panic!("debía fallar"),
    }
    match tras_sondeo_device(respuesta(Some("a"), Some("r"), Some(60), None), 100) {
        PasoDeviceCode::Listo(t) => {
            assert_eq!(t.access_token, "a");
            assert_eq!(t.refresh_token, "r");
            assert_eq!(t.expira_en, 160);
        },
        _ => panic!("debía terminar"),
    }
    assert!(matches!(tras_sondeo_device(respuesta(Some("a"), None, Some(60), None), 100), PasoDeviceCode::Esperar));
    assert_eq!(intervalo_device(None), 5);
    assert_eq!(intervalo_device(Some(0)), 1);
    assert_eq!(intervalo_device(Some(8)), 8);
}

#[test]
fn urls_de_microsoft() {
    assert_eq!(base_oauth("common"), "https://login.microsoftonline.com/common/oauth2/v2.0");
    let url = url_calendario(&Instante { segundos: T0, nanos: 0 }).unwrap();
    assert_eq!(
        url,
        "https://graph.microsoft.com/v1.0/me/calendarView?startDateTime=2026-06-09T08:30:00+00:00\
         &endDateTime=2026-06-09T09:30:00+00:00&$orderby=start/dateTime&$top=3&$select=subject,start,isCancelled"
    );
    // Las fracciones de segundo se escriben con los dígitos que hagan falta.
    let url = url_calendario(&Instante { segundos: T0, nanos: 500_000_000 }).unwrap();
    assert!(url.contains("startDateTime=2026-06-09T08:30:00.500+00:00&endDateTime=2026-06-09T09:30:00.500+00:00&"));
    // Fuera del rango de chrono no hay consulta.
    assert!(url_calendario(&Instante { segundos: LIMITE_RELOJ, nanos: 0 }).is_none());
}

#[test]
fn peticion_a_graph() {
    let ahora = Instante { segundos: T0, nanos: 0 };
    let p = peticion_calendario(&ahora, "tok123").unwrap();
    assert_eq!(p.url, url_calendario(&ahora).unwrap());
    assert_eq!(p.autorizacion, "Bearer tok123");
    assert_eq!(p.preferencia, "outlook.timezone=\"UTC\"");
    assert!(peticion_calendario(&Instante { segundos: LIMITE_RELOJ, nanos: 0 }, "t").is_none());
}

#[test]
fn reloj_del_sistema() {
    let t = reloj().unwrap();
    assert!(t.segundos > T0 - 365 * 86400 * 10);
    assert!(t.segundos < LIMITE_RELOJ);
    assert!(t.nanos < 1_000_000_000);
}

#[test]
fn instante_de_una_lectura() {
    let t = instante_de(Some((T0 as u64, 7))).unwrap();
    assert_eq!((t.segundos, t.nanos), (T0, 7));
    assert!(instante_de(None).is_none());
    assert!(instante_de(Some((LIMITE_RELOJ as u64, 0))).is_none());
    let t = instante_de(Some((LIMITE_RELOJ as u64 - 1, 999_999_999))).unwrap();
    assert_eq!(t.segundos, LIMITE_RELOJ - 1);
}

#[test]
fn reunion_con_fecha_partida() {
    let ahora = Instante { segundos: T0, nanos: 0 };
    let eventos = Some(vec![evento(None, Some("Rara"), Some("2026-06-09T08:35:0é"))]);
    assert!(joaquincillo::calendar::intentar_proxima_reunion(&eventos, &ahora).is_err());
    let eventos = Some(vec![evento(None, Some("Buena"), Some("2026-06-09T08:31:00"))]);
    let r = joaquincillo::calendar::intentar_proxima_reunion(&eventos, &ahora).ok().unwrap().unwrap();
    assert_eq!(r.titulo, "Buena");
    assert_eq!(r.minutos, 1);
    assert!(joaquincillo::calendar::intentar_proxima_reunion(&None, &ahora).ok().unwrap().is_none());
}
