//! Geometría de la ventana de la mascota: dónde se ancla, qué tamaño tiene y en
//! qué zona captura el ratón (el resto deja pasar los clicks).

use vstd::prelude::*;

verus! {

/// Margen horizontal, en px, respecto a la esquina de la pantalla.
pub const MARGEN_X: i32 = 24;
/// Margen vertical, en px, respecto a la esquina de la pantalla.
pub const MARGEN_Y: i32 = 24;

/// Ancho de la ventana normal.
pub const ANCHO_NORMAL: u32 = 280;
/// Ancho de la ventana mientras duerme (la cama es ancha).
pub const ANCHO_DORMIR: u32 = 380;
/// Alto de la ventana.
pub const ALTO_VENTANA: u32 = 440;

/// Caja del sprite, relativa a la esquina superior izquierda de la ventana.
pub const SPRITE_X0: i32 = 40;
pub const SPRITE_X1: i32 = 240;
pub const SPRITE_Y0: i32 = 60;
pub const SPRITE_Y1: i32 = 440;

/// Un `u32` leído como `i32` (`x as i32`): los valores por encima de `i32::MAX`
/// dan la vuelta a negativos.
pub open spec fn como_i32(x: u32) -> int {
    if x <= i32::MAX {
        x as int
    } else {
        x - 0x1_0000_0000
    }
}

fn a_i32(x: u32) -> (r: i32)
    ensures
        r as int == como_i32(x),
{
    let r = x as i32;
    assert(r as int == (if x <= 0x7fff_ffff { x as int } else { x as int - 0x1_0000_0000 })) by (bit_vector)
        requires
            r == x as i32,
    ;
    r
}

/// Altura del borde superior de una ventana anclada abajo con margen, sin salir por arriba.
pub open spec fn y_anclada(alto_pantalla: u32, alto_ventana: u32) -> int {
    let y = como_i32(alto_pantalla) - como_i32(alto_ventana) - MARGEN_Y;
    if y >= 0 {
        y
    } else {
        0
    }
}

/// Posición de la ventana anclada en la esquina inferior izquierda del monitor
/// donde se encuentra, con margen: `origen` es la esquina superior izquierda de
/// ese monitor y `alto_pantalla` su alto.
pub fn posicion_ancla(origen: (i32, i32), alto_pantalla: u32, alto_ventana: u32) -> (p: (i32, i32))
    requires
        i32::MIN <= como_i32(alto_pantalla) - como_i32(alto_ventana) <= i32::MAX,
        i32::MIN <= como_i32(alto_pantalla) - como_i32(alto_ventana) - MARGEN_Y <= i32::MAX,
        origen.0 + MARGEN_X <= i32::MAX,
        origen.1 + y_anclada(alto_pantalla, alto_ventana) <= i32::MAX,
    ensures
        p.0 == origen.0 + MARGEN_X,
        p.1 == origen.1 + y_anclada(alto_pantalla, alto_ventana),
{
    let y = a_i32(alto_pantalla) - a_i32(alto_ventana) - MARGEN_Y;
    let y = if y >= 0 { y } else { 0 };
    (origen.0 + MARGEN_X, origen.1 + y)
}

/// Tamaño de la ventana: más ancha mientras duerme.
pub fn tamano_ventana(dormido: bool) -> (t: (u32, u32))
    ensures
        t.0 == (if dormido { ANCHO_DORMIR } else { ANCHO_NORMAL }),
        t.1 == ALTO_VENTANA,
{
    (if dormido { ANCHO_DORMIR } else { ANCHO_NORMAL }, ALTO_VENTANA)
}

/// ¿Está el cursor (relativo a la ventana) dentro de ella?
pub open spec fn dentro_de_ventana(rx: int, ry: int, ancho: u32, alto: u32) -> bool {
    rx >= 0 && ry >= 0 && rx <= como_i32(ancho) && ry <= como_i32(alto)
}

/// ¿Captura la ventana el ratón en ese punto? Durmiendo, en toda la ventana (para
/// tocar la cama y despertarlo); despierto, solo sobre el sprite.
pub open spec fn captura(rx: int, ry: int, ancho: u32, alto: u32, dormido: bool) -> bool {
    if dormido {
        dentro_de_ventana(rx, ry, ancho, alto)
    } else {
        dentro_de_ventana(rx, ry, ancho, alto) && SPRITE_X0 <= rx <= SPRITE_X1 && SPRITE_Y0 <= ry <= SPRITE_Y1
    }
}

/// ¿Está el cursor sobre la zona clicable? `cursor` y `posicion` son coordenadas
/// de pantalla del cursor y de la esquina de la ventana.
pub fn sobre_sprite(cursor: (i32, i32), posicion: (i32, i32), ancho: u32, alto: u32, dormido: bool) -> (b: bool)
    requires
        i32::MIN <= cursor.0 - posicion.0 <= i32::MAX,
        i32::MIN <= cursor.1 - posicion.1 <= i32::MAX,
    ensures
        b == captura(cursor.0 - posicion.0, cursor.1 - posicion.1, ancho, alto, dormido),
{
    let rx = cursor.0 - posicion.0;
    let ry = cursor.1 - posicion.1;
    let dentro = rx >= 0 && ry >= 0 && rx <= a_i32(ancho) && ry <= a_i32(alto);
    if dormido {
        dentro
    } else {
        dentro && rx >= SPRITE_X0 && rx <= SPRITE_X1 && ry >= SPRITE_Y0 && ry <= SPRITE_Y1
    }
}

/// Estado del "click-through": si la ventana deja pasar ahora los clicks.
/// Un paso del click-through: con el estado `ignora` y el cursor sobre la zona
/// clicable o no, el estado nuevo y el valor que hay que poner en la ventana si
/// cambia.
pub open spec fn paso_click(ignora: bool, sobre: bool) -> (bool, Option<bool>) {
    if !sobre != ignora {
        (!sobre, Some(!sobre))
    } else {
        (ignora, None)
    }
}

/// Estado del click-through tras una serie de lecturas del cursor, desde `nuevo`.
pub open spec fn click_tras(sobres: Seq<bool>) -> bool
    decreases sobres.len(),
{
    if sobres.len() == 0 {
        true
    } else {
        paso_click(click_tras(sobres.drop_last()), sobres.last()).0
    }
}

/// Lo que tiene puesto la ventana tras una serie de lecturas: se abre ignorando el
/// ratón y luego solo cambia con cada valor que devuelve `tras_cursor`.
pub open spec fn ventana_tras(sobres: Seq<bool>) -> bool
    decreases sobres.len(),
{
    if sobres.len() == 0 {
        true
    } else {
        match paso_click(click_tras(sobres.drop_last()), sobres.last()).1 {
            Some(v) => v,
            None => ventana_tras(sobres.drop_last()),
        }
    }
}

pub struct ClickThrough {
    ignorando: bool,
}

impl ClickThrough {
    pub closed spec fn ignora(&self) -> bool {
        self.ignorando
    }

    /// Estado de partida: la ventana empieza dejando pasar los clicks.
    pub fn nuevo() -> (c: ClickThrough)
        ensures
            c.ignora(),
    {
        ClickThrough { ignorando: true }
    }

    /// Con el cursor sobre la zona clicable o fuera de ella, ¿hay que cambiar el
    /// click-through? Devuelve el nuevo valor solo si cambia.
    pub fn tras_cursor(&mut self, sobre: bool) -> (cambio: Option<bool>)
        ensures
            (final(self).ignora(), cambio) == paso_click(old(self).ignora(), sobre),
            final(self).ignora() == !sobre,
            cambio == (if !sobre != old(self).ignora() { Some(!sobre) } else { None }),
    {
        let nuevo_ignorar = !sobre;
        if nuevo_ignorar != self.ignorando {
            self.ignorando = nuevo_ignorar;
            Some(nuevo_ignorar)
        } else {
            None
        }
    }
}

/// Desde la primera lectura, la ventana ignora el ratón justo cuando el cursor no
/// está sobre la zona clicable, y el estado coincide con lo que tiene la ventana.
pub proof fn ley_click_through_sigue_al_cursor(sobres: Seq<bool>)
    ensures
        ventana_tras(sobres) == click_tras(sobres),
        sobres.len() > 0 ==> ventana_tras(sobres) == !sobres.last(),
    decreases sobres.len(),
{
    if sobres.len() > 0 {
        ley_click_through_sigue_al_cursor(sobres.drop_last());
    }
}

/// Dormido, la zona clicable es toda la ventana, que incluye la del sprite.
pub proof fn ley_dormido_captura_mas(rx: int, ry: int, ancho: u32, alto: u32)
    ensures
        captura(rx, ry, ancho, alto, true) == dentro_de_ventana(rx, ry, ancho, alto),
        captura(rx, ry, ancho, alto, false) ==> captura(rx, ry, ancho, alto, true),
{
}

/// La ventana anclada nunca queda por encima del borde superior de la pantalla.
pub proof fn ley_ancla_visible(alto_pantalla: u32, alto_ventana: u32)
    ensures
        y_anclada(alto_pantalla, alto_ventana) >= 0,
        alto_pantalla <= i32::MAX && alto_ventana + MARGEN_Y <= alto_pantalla ==> y_anclada(alto_pantalla, alto_ventana)
            == alto_pantalla - alto_ventana - MARGEN_Y,
{
}

} // verus!
