use joaquincillo::fecha::Instante;
use joaquincillo::jira::{
    aviso_sin_configurar, comentario_reciente, consulta_jql, endpoint_busqueda, intervalo_sondeo, issues_de,
    es_reciente, mensaje, recortar, tras_error_http, url_base, ventana_minutos, Comentario, ComentarioCrudo,
    DecisionBusqueda, EstadoJira, IssueCrudo, IssueEv,
};
use joaquincillo::settings::Settings;

// 2026-06-09T10:30:00.000+0200 es 2026-06-09T08:30:00Z.
const CREADO: &str = "2026-06-09T10:30:00.000+0200";
const CREADO_S: i64 = 1_780_993_800;

fn en(segundos: i64) -> Instante {
    Instante { segundos, nanos: 0 }
}

fn issue(key: &str, status: &str, updated: &str, comentario: Option<Comentario>) -> IssueEv {
    IssueEv {
        key: key.to_string(),
        summary: "  Arreglar el login de la intranet  ".to_string(),
        status: status.to_string(),
        updated: updated.to_string(),
        ultimo_comentario: comentario,
    }
}

fn comentario(autor: &str, cuerpo: &str) -> Comentario {
    Comentario { autor: autor.to_string(), cuerpo: cuerpo.to_string(), creado: CREADO.to_string() }
}

#[test]
fn recortar_resumenes() {
    assert_eq!(recortar("  hola mundo  ", 40), "hola mundo");
    assert_eq!(recortar("abcdefgh", 5), "abcd…");
    assert_eq!(recortar("abcde", 5), "abcde");
    assert_eq!(recortar("ñandúes veloces", 4), "ñan…");
    assert_eq!(recortar("abc", 1), "…");
    assert_eq!(recortar("   ", 0), "");
    // Resumir un resumen lo deja igual.
    let r = recortar("una frase bastante larga para el bocadillo", 10);
    assert_eq!(recortar(&r, 10), r);
    assert!(r.chars().count() <= 10);
}

#[test]
fn comentario_reciente_segun_la_ventana() {
    assert!(comentario_reciente(CREADO, 2, &en(CREADO_S + 60)));
    assert!(comentario_reciente(CREADO, 2, &en(CREADO_S + 179)));
    assert!(!comentario_reciente(CREADO, 2, &en(CREADO_S + 180)));
    // Hasta un minuto en el futuro (relojes desajustados) cuenta.
    assert!(comentario_reciente(CREADO, 2, &en(CREADO_S - 119)));
    assert!(!comentario_reciente(CREADO, 2, &en(CREADO_S - 120)));
    assert!(!comentario_reciente("ayer por la tarde", 2, &en(CREADO_S)));
    assert!(!comentario_reciente("2026-06-09 10:30", 2, &en(CREADO_S)));
}

#[test]
fn reciente_sobre_el_instante_ya_leido() {
    let creado = Some(en(CREADO_S));
    assert!(es_reciente(&creado, 2, &en(CREADO_S + 179)));
    assert!(!es_reciente(&creado, 2, &en(CREADO_S + 180)));
    assert!(es_reciente(&creado, 2, &en(CREADO_S - 119)));
    assert!(!es_reciente(&creado, 2, &en(CREADO_S - 120)));
    // Una fecha que no se pudo leer nunca es reciente.
    assert!(!es_reciente(&None, 2, &en(CREADO_S)));
    // Con ventana cero solo vale el mismo minuto, hacia delante o hacia atrás.
    assert!(es_reciente(&creado, 0, &en(CREADO_S + 59)));
    assert!(!es_reciente(&creado, 0, &en(CREADO_S + 60)));
}

#[test]
fn mensaje_de_mencion() {
    let ev = issue("ABC-1", "En curso", "x", Some(comentario("otra", "{\"text\":\"hola 557058:yo\"}")));
    let m = mensaje(&ev, "557058:yo", 2, &en(CREADO_S + 30));
    assert_eq!(m.as_deref(), Some("💬 Te han mencionado en ABC-1 — Arreglar el login de la intranet"));
}

#[test]
fn mensaje_de_comentario_nuevo() {
    let ev = issue("ABC-1", "En curso", "x", Some(comentario("otra", "{\"text\":\"hola\"}")));
    let m = mensaje(&ev, "557058:yo", 2, &en(CREADO_S + 30));
    assert_eq!(m.as_deref(), Some("💬 Nuevo comentario en ABC-1 — Arreglar el login de la intranet"));
    // Sin identidad propia no hay menciones, solo comentarios.
    let ev = issue("ABC-1", "", "x", Some(comentario("otra", "")));
    let m = mensaje(&ev, "", 2, &en(CREADO_S + 30));
    assert_eq!(m.as_deref(), Some("💬 Nuevo comentario en ABC-1 — Arreglar el login de la intranet"));
}

#[test]
fn mensaje_de_cambio_de_estado() {
    // Mi propio comentario no cuenta.
    let ev = issue("ABC-2", "Hecho", "x", Some(comentario("557058:yo", "557058:yo")));
    let m = mensaje(&ev, "557058:yo", 2, &en(CREADO_S + 30));
    assert_eq!(m.as_deref(), Some("🔄 ABC-2 → Hecho — Arreglar el login de la intranet"));
    // Un comentario viejo tampoco.
    let ev = issue("ABC-2", "Hecho", "x", Some(comentario("otra", "557058:yo")));
    let m = mensaje(&ev, "557058:yo", 2, &en(CREADO_S + 3600));
    assert_eq!(m.as_deref(), Some("🔄 ABC-2 → Hecho — Arreglar el login de la intranet"));
}

#[test]
fn mensaje_de_actualizacion() {
    let ev = issue("ABC-3", "", "x", None);
    let m = mensaje(&ev, "557058:yo", 2, &en(CREADO_S));
    assert_eq!(m.as_deref(), Some("✏️ ABC-3 actualizada — Arreglar el login de la intranet"));
}

#[test]
fn resumen_largo_en_el_aviso() {
    let mut ev = issue("K-9", "", "x", None);
    ev.summary = "Un resumen de incidencia muchísimo más largo que cuarenta caracteres".to_string();
    let m = mensaje(&ev, "", 2, &en(0)).unwrap();
    assert_eq!(m, "✏️ K-9 actualizada — Un resumen de incidencia muchísimo más …");
}

fn textos(v: &[joaquincillo::jira::AvisoJira]) -> Vec<String> {
    v.iter().map(|a| a.texto.clone()).collect()
}

#[test]
fn primera_vuelta_solo_siembra() {
    let mut e = EstadoJira::nuevo();
    let issues = vec![issue("A-1", "", "t1", None), issue("A-2", "Hecho", "t1", None)];
    let avisos = e.tras_sondeo(&issues, "yo", 2, &en(0));
    assert_eq!(textos(&avisos), vec!["✅ Jira conectado — vigilo tus incidencias".to_string()]);
    // Lo mismo otra vez: nada nuevo.
    let avisos = e.tras_sondeo(&issues, "yo", 2, &en(60));
    assert!(avisos.is_empty());
    // Una incidencia se vuelve a actualizar: un aviso, y solo una vez.
    let issues2 = vec![issue("A-1", "", "t2", None), issue("A-2", "Hecho", "t1", None)];
    let avisos = e.tras_sondeo(&issues2, "yo", 2, &en(120));
    assert_eq!(textos(&avisos), vec!["✏️ A-1 actualizada — Arreglar el login de la intranet".to_string()]);
    let avisos = e.tras_sondeo(&issues2, "yo", 2, &en(180));
    assert!(avisos.is_empty());
}

#[test]
fn la_misma_novedad_dos_veces_en_un_sondeo() {
    let mut e = EstadoJira::nuevo();
    e.tras_sondeo(&vec![], "yo", 2, &en(0));
    let issues = vec![issue("B-1", "", "t", None), issue("B-1", "", "t", None)];
    let avisos = e.tras_sondeo(&issues, "yo", 2, &en(60));
    assert_eq!(avisos.len(), 1);
}

#[test]
fn demasiadas_novedades_se_olvidan() {
    let mut e = EstadoJira::nuevo();
    e.tras_sondeo(&vec![], "yo", 2, &en(0));
    let muchas: Vec<IssueEv> = (0..501).map(|i| issue(&format!("C-{i}"), "", "t", None)).collect();
    let avisos = e.tras_sondeo(&muchas, "yo", 2, &en(60));
    assert_eq!(avisos.len(), 501);
    // Se olvidaron y se vuelve a sembrar: la siguiente vuelta no avisa.
    let avisos = e.tras_sondeo(&muchas, "yo", 2, &en(120));
    assert!(avisos.is_empty());
}

#[test]
fn error_avisado_una_sola_vez() {
    let mut e = EstadoJira::nuevo();
    assert_eq!(e.tras_error("HTTP 401").map(|a| a.texto), Some("⚠️ Jira: HTTP 401".to_string()));
    assert!(e.tras_error("HTTP 401").is_none());
    let avisos = e.tras_sondeo(&vec![], "yo", 2, &en(0));
    assert_eq!(avisos.len(), 1);
    assert_eq!(e.tras_error("caído").map(|a| a.texto), Some("⚠️ Jira: caído".to_string()));
    // La confirmación de conexión no se repite.
    assert!(e.tras_sondeo(&vec![], "yo", 2, &en(60)).is_empty());
}

#[test]
fn aviso_de_configuracion() {
    let s = Settings::default();
    assert_eq!(
        aviso_sin_configurar(&s).texto,
        "⚙️ Jira sin configurar: falta sitio, email, token. Clic derecho en mi icono → Ajustes."
    );
    let mut s = Settings::default();
    s.jira_site = "x.atlassian.net".to_string();
    s.jira_email = "a@b.c".to_string();
    assert_eq!(aviso_sin_configurar(&s).texto, "⚙️ Jira sin configurar: falta token. Clic derecho en mi icono → Ajustes.");
}

#[test]
fn parametros_del_sondeo() {
    let mut s = Settings::default();
    s.jira_site = "cexpress.atlassian.net/".to_string();
    assert_eq!(url_base(&s), "https://cexpress.atlassian.net");
    assert_eq!(intervalo_sondeo(&s), 60);
    s.jira_intervalo_s = 5;
    assert_eq!(intervalo_sondeo(&s), 20);
    assert_eq!(ventana_minutos(20), 2);
    assert_eq!(ventana_minutos(60), 2);
    assert_eq!(ventana_minutos(180), 4);
}

#[test]
fn consulta_jql_con_y_sin_proyecto() {
    assert_eq!(
        consulta_jql("", 2),
        "(assignee = currentUser() OR watcher = currentUser()) AND updated >= -2m ORDER BY updated DESC"
    );
    assert_eq!(
        consulta_jql(" ABC ", 3),
        "(assignee = currentUser() OR watcher = currentUser() OR project = ABC) AND updated >= -3m ORDER BY updated DESC"
    );
}

#[test]
fn endpoints_de_busqueda() {
    assert_eq!(endpoint_busqueda(0), "/rest/api/3/search/jql");
    assert_eq!(endpoint_busqueda(1), "/rest/api/3/search");
    match tras_error_http(0, 404, "no existe") {
        DecisionBusqueda::ProbarOtro { endpoint } => assert_eq!(endpoint, "/rest/api/3/search"),
        DecisionBusqueda::Fallar { .. } => panic!("debía probar el otro endpoint"),
    }
    match tras_error_http(0, 410, "") {
        DecisionBusqueda::ProbarOtro { endpoint } => assert_eq!(endpoint, "/rest/api/3/search"),
        DecisionBusqueda::Fallar { .. } => panic!("debía probar el otro endpoint"),
    }
    match tras_error_http(1, 404, "tampoco") {
        DecisionBusqueda::Fallar { error } => assert_eq!(error, "HTTP 404 en /rest/api/3/search — tampoco"),
        DecisionBusqueda::ProbarOtro { .. } => panic!("no quedan endpoints"),
    }
    let largo = "x".repeat(200);
    match tras_error_http(0, 401, &largo) {
        DecisionBusqueda::Fallar { error } => {
            assert_eq!(error, format!("HTTP 401 en /rest/api/3/search/jql — {}", "x".repeat(140)))
        },
        DecisionBusqueda::ProbarOtro { .. } => panic!("un 401 no se reintenta"),
    }
}

#[test]
fn incidencias_leidas() {
    let crudos = vec![
        IssueCrudo { key: None, summary: Some("sin clave".into()), status: None, updated: None, ultimo_comentario: None },
        IssueCrudo {
            key: Some("D-1".into()),
            summary: None,
            status: Some("Hecho".into()),
            updated: Some("u".into()),
            ultimo_comentario: Some(ComentarioCrudo { autor: None, cuerpo: Some("{}".into()), creado: None }),
        },
        IssueCrudo { key: Some("".into()), summary: None, status: None, updated: None, ultimo_comentario: None },
    ];
    let evs = issues_de(&crudos);
    assert_eq!(evs.len(), 1);
    assert_eq!(evs[0].key, "D-1");
    assert_eq!(evs[0].summary, "");
    assert_eq!(evs[0].status, "Hecho");
    let c = evs[0].ultimo_comentario.as_ref().unwrap();
    assert_eq!(c.autor, "");
    assert_eq!(c.cuerpo, "{}");
    assert_eq!(c.creado, "");
}
