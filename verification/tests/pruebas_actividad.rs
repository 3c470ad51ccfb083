use joaquincillo::activity::MonitorActividad;
use joaquincillo::ventana::{posicion_ancla, sobre_sprite, tamano_ventana, ClickThrough};

#[test]
fn on_fire_al_cruzar_el_umbral() {
    let mut m = MonitorActividad::nuevo(5);
    let a = m.tick(3);
    assert_eq!(a.on_fire, None);
    let a = m.tick(6);
    assert_eq!(a.on_fire, Some(true));
    let a = m.tick(7);
    assert_eq!(a.on_fire, None);
}

#[test]
fn la_ventana_olvida_pasado_un_minuto() {
    let mut m = MonitorActividad::nuevo(10);
    let a = m.tick(10);
    assert_eq!(a.on_fire, Some(true));
    // 59 segundos sin pulsaciones: las 10 siguen dentro de la ventana.
    for _ in 0..59 {
        let a = m.tick(10);
        assert_eq!(a.on_fire, None);
    }
    // El segundo 60 las saca.
    let a = m.tick(10);
    assert_eq!(a.on_fire, Some(false));
}

#[test]
fn senal_de_actividad_cada_tres_segundos() {
    let mut m = MonitorActividad::nuevo(1000);
    let mut total = 0u64;
    let mut senales = Vec::new();
    for _ in 0..7 {
        total += 1;
        senales.push(m.tick(total).actividad);
    }
    assert_eq!(senales, vec![true, false, false, true, false, false, true]);
    // Sin pulsaciones no hay señal aunque haya pasado el tiempo.
    let a = m.tick(total);
    assert!(!a.actividad);
}

#[test]
fn contador_que_baja_cuenta_cero() {
    let mut m = MonitorActividad::nuevo(1);
    let a = m.tick(50);
    assert_eq!(a.on_fire, Some(true));
    let a = m.tick(20);
    assert!(!a.actividad);
    assert_eq!(a.on_fire, None);
}

#[test]
fn umbral_cero_se_activa_en_el_primer_segundo() {
    let mut m = MonitorActividad::nuevo(0);
    let a = m.tick(0);
    assert_eq!(a.on_fire, Some(true));
}

#[test]
fn suma_que_no_cabe() {
    let mut m = MonitorActividad::nuevo(1);
    assert!(m.suma_cabe(u64::MAX));
    m.tick(u64::MAX);
    // Un contador que vuelve a cero y sube otra vez al máximo desbordaría la suma.
    m.tick(0);
    assert!(!m.suma_cabe(u64::MAX));
    assert!(m.suma_cabe(0));
}

#[test]
fn anclaje_abajo_a_la_izquierda() {
    assert_eq!(posicion_ancla((0, 0), 1080, 440), (24, 616));
    assert_eq!(posicion_ancla((0, 0), 400, 440), (24, 0));
    // Un alto que no cabe en i32 se lee negativo, como `as i32`.
    assert_eq!(posicion_ancla((0, 0), u32::MAX, 0), (24, 0));
}

#[test]
fn anclaje_en_un_segundo_monitor() {
    // Monitor a la derecha del principal.
    assert_eq!(posicion_ancla((1920, 0), 1080, 440), (1944, 616));
    // Monitor a la izquierda y más arriba.
    assert_eq!(posicion_ancla((-1280, -200), 1024, 440), (-1256, 360));
}

#[test]
fn tamano_segun_duerma() {
    assert_eq!(tamano_ventana(false), (280, 440));
    assert_eq!(tamano_ventana(true), (380, 440));
}

#[test]
fn zona_clicable() {
    // Ventana en (100, 200); cursor sobre el sprite.
    assert!(sobre_sprite((150, 300), (100, 200), 280, 440, false));
    // Dentro de la ventana pero fuera del sprite.
    assert!(!sobre_sprite((105, 205), (100, 200), 280, 440, false));
    // Durmiendo, toda la ventana.
    assert!(sobre_sprite((105, 205), (100, 200), 380, 440, true));
    // Fuera de la ventana.
    assert!(!sobre_sprite((90, 205), (100, 200), 380, 440, true));
}

#[test]
fn click_through_solo_avisa_al_cambiar() {
    // La ventana empieza ignorando el ratón.
    let mut c = ClickThrough::nuevo();
    assert_eq!(c.tras_cursor(false), None);
    assert_eq!(c.tras_cursor(true), Some(false));
    assert_eq!(c.tras_cursor(true), None);
    assert_eq!(c.tras_cursor(false), Some(true));
    assert_eq!(c.tras_cursor(false), None);
}

#[test]
fn click_through_cursor_sobre_el_sprite_desde_el_principio() {
    let mut c = ClickThrough::nuevo();
    assert_eq!(c.tras_cursor(true), Some(false));
}
