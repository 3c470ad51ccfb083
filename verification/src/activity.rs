//! Detección de actividad de teclado (estado "on fire"): la decisión que se toma
//! cada segundo a partir del contador total de pulsaciones.
//!
//! Cada segundo se anota cuántas pulsaciones hubo desde el anterior en una ventana
//! circular de 60 casillas; la suma de la ventana son las pulsaciones por minuto
//! (APM). Si cruzan el umbral en un sentido o en otro se avisa del cambio. Aparte,
//! se da una señal de actividad cuando hubo pulsaciones, como mucho cada 3 segundos.

use vstd::prelude::*;

verus! {

/// Casillas de la ventana: un minuto de segundos.
pub const SEGUNDOS_VENTANA: usize = 60;

/// Segundos mínimos entre dos señales de actividad.
pub const SEGUNDOS_ENTRE_SENALES: u32 = 3;

/// Suma de una secuencia de contadores.
pub open spec fn suma(s: Seq<u64>) -> int
    decreases s.len(),
{
    if s.len() == 0 {
        0
    } else {
        suma(s.drop_last()) + s.last()
    }
}

/// `a.saturating_sub(b)`.
pub open spec fn resta_saturada(a: u64, b: u64) -> u64 {
    if a >= b {
        (a - b) as u64
    } else {
        0
    }
}

/// `a.saturating_add(1)`.
pub open spec fn mas_uno_saturado(a: u32) -> u32 {
    if a < u32::MAX {
        (a + 1) as u32
    } else {
        u32::MAX
    }
}

/// Estado del monitor de actividad.
pub struct MonitorActividad {
    ventana: Vec<u64>,
    idx: usize,
    ultimo_total: u64,
    on_fire: bool,
    seg_desde_actividad: u32,
    umbral_apm: u64,
}

/// Lo que hay que avisar tras un segundo.
pub struct Avisos {
    /// Señal de actividad (para despertar de la siesta).
    pub actividad: bool,
    /// Nuevo estado "on fire", solo si ha cambiado.
    pub on_fire: Option<bool>,
}

/// Modelo del estado del monitor.
pub struct EstadoActividad {
    /// Pulsaciones de los últimos 60 segundos, de la más antigua a la más reciente.
    pub ultimos: Seq<u64>,
    /// Contador total de pulsaciones del segundo anterior.
    pub total: u64,
    pub on_fire: bool,
    /// Segundos desde la última señal de actividad (saturado).
    pub seg: u32,
    pub umbral: u64,
}

/// Estado al arrancar el monitor con umbral `u`.
pub open spec fn actividad_inicial(u: u64) -> EstadoActividad {
    EstadoActividad {
        ultimos: Seq::new(SEGUNDOS_VENTANA as nat, |i: int| 0u64),
        total: 0,
        on_fire: false,
        seg: 99,
        umbral: u,
    }
}

/// Un segundo más con el contador total en `total`: el estado siguiente, si hay
/// señal de actividad y el nuevo estado "on fire" si cambia.
pub open spec fn paso_actividad(e: EstadoActividad, total: u64) -> (EstadoActividad, bool, Option<bool>) {
    let d = resta_saturada(total, e.total);
    let s1 = mas_uno_saturado(e.seg);
    let senal = d > 0 && s1 >= SEGUNDOS_ENTRE_SENALES;
    let ult = e.ultimos.drop_first().push(d);
    let f = suma(ult) >= e.umbral;
    (
        EstadoActividad { ultimos: ult, total, on_fire: f, seg: if senal { 0 } else { s1 }, umbral: e.umbral },
        senal,
        if f != e.on_fire { Some(f) } else { None },
    )
}

/// Estado tras una serie de segundos, dados los contadores totales leídos en cada uno.
pub open spec fn actividad_tras(u: u64, totales: Seq<u64>) -> EstadoActividad
    decreases totales.len(),
{
    if totales.len() == 0 {
        actividad_inicial(u)
    } else {
        paso_actividad(actividad_tras(u, totales.drop_last()), totales.last()).0
    }
}

/// Pulsaciones habidas en el segundo `i` (cero si el contador bajó).
pub open spec fn pulsaciones_en(totales: Seq<u64>, i: int) -> u64 {
    resta_saturada(totales[i], if i == 0 { 0 } else { totales[i - 1] })
}

/// Pulsaciones de cada segundo.
pub open spec fn pulsaciones(totales: Seq<u64>) -> Seq<u64> {
    Seq::new(totales.len(), |i: int| pulsaciones_en(totales, i))
}

/// ¿Hay señal de actividad en el segundo `i`?
pub open spec fn senal_en(u: u64, totales: Seq<u64>, i: int) -> bool {
    0 <= i < totales.len() && paso_actividad(actividad_tras(u, totales.take(i)), totales[i]).1
}

/// Aviso de "on fire" en el segundo `i`.
pub open spec fn cambio_en(u: u64, totales: Seq<u64>, i: int) -> Option<bool> {
    paso_actividad(actividad_tras(u, totales.take(i)), totales[i]).2
}

impl MonitorActividad {
    /// El estado como modelo.
    pub closed spec fn modelo(&self) -> EstadoActividad {
        EstadoActividad {
            ultimos: self.ultimos(),
            total: self.ultimo_total,
            on_fire: self.on_fire,
            seg: self.seg_desde_actividad,
            umbral: self.umbral_apm,
        }
    }

    /// Invariante del estado: la ventana tiene sus 60 casillas y el índice cae dentro.
    pub closed spec fn bien_formado(&self) -> bool {
        &&& self.ventana@.len() == SEGUNDOS_VENTANA
        &&& self.idx < SEGUNDOS_VENTANA
    }

    /// Pulsaciones de cada uno de los últimos 60 segundos, de la más antigua a la más reciente.
    pub closed spec fn ultimos(&self) -> Seq<u64> {
        self.ventana@.subrange(self.idx as int, SEGUNDOS_VENTANA as int) + self.ventana@.subrange(0, self.idx as int)
    }

    /// Pulsaciones por minuto: la suma de la ventana.
    pub open spec fn apm(&self) -> int {
        suma(self.ultimos())
    }

    pub closed spec fn esta_on_fire(&self) -> bool {
        self.on_fire
    }

    pub closed spec fn total_anterior(&self) -> u64 {
        self.ultimo_total
    }

    pub closed spec fn segundos_sin_senal(&self) -> u32 {
        self.seg_desde_actividad
    }

    pub closed spec fn umbral(&self) -> u64 {
        self.umbral_apm
    }

    /// Pulsaciones del segundo que acaba, dado el contador total.
    pub open spec fn delta(&self, total: u64) -> u64 {
        resta_saturada(total, self.total_anterior())
    }

    /// La ventana tras anotar el segundo que acaba.
    pub open spec fn ultimos_tras(&self, total: u64) -> Seq<u64> {
        self.ultimos().drop_first().push(self.delta(total))
    }

    /// Monitor recién arrancado: ventana a cero, sin "on fire" y listo para dar
    /// señal de actividad en cuanto haya pulsaciones.
    pub fn nuevo(umbral_apm: u64) -> (m: MonitorActividad)
        ensures
            m.bien_formado(),
            m.ultimos() == Seq::new(SEGUNDOS_VENTANA as nat, |i: int| 0u64),
            m.apm() == 0,
            !m.esta_on_fire(),
            m.total_anterior() == 0,
            m.segundos_sin_senal() == 99,
            m.umbral() == umbral_apm,
            m.modelo() == actividad_inicial(umbral_apm),
    {
        let mut ventana: Vec<u64> = Vec::new();
        for i in 0..SEGUNDOS_VENTANA
            invariant
                ventana@ == Seq::new(i as nat, |k: int| 0u64),
        {
            ventana.push(0);
        }
        let m = MonitorActividad {
            ventana,
            idx: 0,
            ultimo_total: 0,
            on_fire: false,
            seg_desde_actividad: 99,
            umbral_apm,
        };
        proof {
            assert(m.ultimos() =~= Seq::new(SEGUNDOS_VENTANA as nat, |i: int| 0u64));
            lema_suma_ceros(SEGUNDOS_VENTANA as nat);
        }
        m
    }

    /// ¿Cabe en un `u64` la suma de la ventana tras anotar este segundo? (Si no,
    /// la suma de la ventana se desbordaría.)
    pub fn suma_cabe(&self, total: u64) -> (b: bool)
        requires
            self.bien_formado(),
        ensures
            b == (suma(self.ultimos_tras(total)) <= u64::MAX),
    {
        let delta = total.saturating_sub(self.ultimo_total);
        let siguiente = (self.idx + 1) % SEGUNDOS_VENTANA;
        let mut acumulado: u128 = 0;
        let mut i: usize = 0;
        proof {
            lema_ultimos_tras(self, total);
        }
        let ghost nueva = self.ventana@.update(self.idx as int, delta);
        while i < SEGUNDOS_VENTANA
            invariant
                self.bien_formado(),
                i <= SEGUNDOS_VENTANA,
                nueva == self.ventana@.update(self.idx as int, delta),
                acumulado == suma(nueva.take(i as int)),
                acumulado <= i * 0xffff_ffff_ffff_ffffu128,
            decreases SEGUNDOS_VENTANA - i,
        {
            let v: u64 = if i == self.idx { delta } else { self.ventana[i] };
            assert(nueva.take(i + 1).drop_last() =~= nueva.take(i as int));
            acumulado = acumulado + v as u128;
            i = i + 1;
        }
        proof {
            assert(nueva.take(SEGUNDOS_VENTANA as int) =~= nueva);
            lema_suma_rotacion(nueva, siguiente as int);
        }
        acumulado <= u64::MAX as u128
    }

    /// Un segundo más: anota las pulsaciones habidas desde el anterior (el contador
    /// total menos el anterior, o cero si el contador bajó), recalcula el APM y dice
    /// qué hay que avisar.
    pub fn tick(&mut self, total: u64) -> (a: Avisos)
        requires
            old(self).bien_formado(),
            suma(old(self).ultimos_tras(total)) <= u64::MAX,
        ensures
            final(self).bien_formado(),
            final(self).umbral() == old(self).umbral(),
            final(self).total_anterior() == total,
            final(self).ultimos() == old(self).ultimos_tras(total),
            final(self).esta_on_fire() == (final(self).apm() >= old(self).umbral()),
            a.actividad == (old(self).delta(total) > 0
                && mas_uno_saturado(old(self).segundos_sin_senal()) >= SEGUNDOS_ENTRE_SENALES),
            final(self).segundos_sin_senal() == (if a.actividad {
                0
            } else {
                mas_uno_saturado(old(self).segundos_sin_senal())
            }),
            a.on_fire == (if final(self).esta_on_fire() != old(self).esta_on_fire() {
                Some(final(self).esta_on_fire())
            } else {
                None
            }),
            (final(self).modelo(), a.actividad, a.on_fire) == paso_actividad(old(self).modelo(), total),
    {
        proof {
            lema_ultimos_tras(old(self), total);
        }
        let delta = total.saturating_sub(self.ultimo_total);
        self.ultimo_total = total;

        self.seg_desde_actividad = self.seg_desde_actividad.saturating_add(1);
        let mut actividad = false;
        if delta > 0 && self.seg_desde_actividad >= SEGUNDOS_ENTRE_SENALES {
            self.seg_desde_actividad = 0;
            actividad = true;
        }

        self.ventana.set(self.idx, delta);
        self.idx = (self.idx + 1) % SEGUNDOS_VENTANA;

        proof {
            lema_suma_rotacion(self.ventana@, self.idx as int);
        }
        let mut apm: u64 = 0;
        for i in 0..SEGUNDOS_VENTANA
            invariant
                self.bien_formado(),
                apm == suma(self.ventana@.take(i as int)),
                suma(self.ventana@) <= u64::MAX,
        {
            proof {
                assert(self.ventana@.take(i + 1).drop_last() =~= self.ventana@.take(i as int));
                lema_suma_prefijo(self.ventana@, i + 1);
            }
            apm = apm + self.ventana[i];
        }
        proof {
            assert(self.ventana@.take(SEGUNDOS_VENTANA as int) =~= self.ventana@);
        }
        let nuevo = apm >= self.umbral_apm;
        let mut on_fire = None;
        if nuevo != self.on_fire {
            self.on_fire = nuevo;
            on_fire = Some(nuevo);
        }
        Avisos { actividad, on_fire }
    }
}

proof fn lema_suma_ceros(n: nat)
    ensures
        suma(Seq::new(n, |i: int| 0u64)) == 0,
    decreases n,
{
    if n > 0 {
        assert(Seq::new(n, |i: int| 0u64).drop_last() =~= Seq::new((n - 1) as nat, |i: int| 0u64));
        lema_suma_ceros((n - 1) as nat);
    }
}

/// La suma de una concatenación es la suma de las partes.
pub proof fn lema_suma_concat(a: Seq<u64>, b: Seq<u64>)
    ensures
        suma(a + b) == suma(a) + suma(b),
    decreases b.len(),
{
    if b.len() == 0 {
        assert(a + b =~= a);
    } else {
        assert((a + b).drop_last() =~= a + b.drop_last());
        lema_suma_concat(a, b.drop_last());
    }
}

/// Un prefijo no suma más que la secuencia entera.
pub proof fn lema_suma_prefijo(s: Seq<u64>, i: int)
    requires
        0 <= i <= s.len(),
    ensures
        suma(s.take(i)) <= suma(s),
    decreases s.len() - i,
{
    if i < s.len() {
        assert(s.take(i + 1).drop_last() =~= s.take(i));
        lema_suma_prefijo(s, i + 1);
    } else {
        assert(s.take(i) =~= s);
    }
}

/// Rotar la ventana no cambia su suma.
proof fn lema_suma_rotacion(s: Seq<u64>, k: int)
    requires
        0 <= k <= s.len(),
    ensures
        suma(s.subrange(k, s.len() as int) + s.subrange(0, k)) == suma(s),
{
    lema_suma_concat(s.subrange(k, s.len() as int), s.subrange(0, k));
    lema_suma_concat(s.subrange(0, k), s.subrange(k, s.len() as int));
    assert(s.subrange(0, k) + s.subrange(k, s.len() as int) =~= s);
}

/// Anotar un segundo en la casilla actual y avanzar el índice desplaza la ventana:
/// sale el segundo más antiguo y entra el nuevo.
proof fn lema_ultimos_tras(m: &MonitorActividad, total: u64)
    requires
        m.bien_formado(),
    ensures
        ({
            let nueva = m.ventana@.update(m.idx as int, m.delta(total));
            let k = (m.idx + 1) % (SEGUNDOS_VENTANA as int);
            nueva.subrange(k, SEGUNDOS_VENTANA as int) + nueva.subrange(0, k) == m.ultimos_tras(total)
        }),
{
    let nueva = m.ventana@.update(m.idx as int, m.delta(total));
    let k = (m.idx + 1) % (SEGUNDOS_VENTANA as int);
    assert(nueva.subrange(k, SEGUNDOS_VENTANA as int) + nueva.subrange(0, k) =~= m.ultimos_tras(total));
}

/// Ventana deslizante: al entrar un segundo nuevo y salir el más antiguo, el APM
/// cambia en lo que entra menos lo que sale.
pub proof fn ley_ventana_deslizante(s: Seq<u64>, d: u64)
    requires
        s.len() > 0,
    ensures
        suma(s.drop_first().push(d)) == suma(s) - s[0] + d,
{
    lema_suma_concat(seq![s[0]], s.drop_first());
    assert(seq![s[0]] + s.drop_first() =~= s);
    assert(seq![s[0]].drop_last() =~= Seq::<u64>::empty());
    let uno = seq![s[0]];
    assert(uno.drop_last() =~= Seq::<u64>::empty());
    assert(suma(uno.drop_last()) == 0);
    assert(uno.last() == s[0]);
    assert(suma(uno) == s[0]);
    assert(s.drop_first().push(d).drop_last() =~= s.drop_first());
    assert(suma(s.drop_first().push(d)) == suma(s.drop_first()) + d);
}

proof fn lema_take_actividad(u: u64, t: Seq<u64>, i: int)
    requires
        0 <= i < t.len(),
    ensures
        actividad_tras(u, t.take(i + 1)) == paso_actividad(actividad_tras(u, t.take(i)), t[i]).0,
{
    assert(t.take(i + 1).drop_last() =~= t.take(i));
    assert(t.take(i + 1).last() == t[i]);
}

proof fn lema_total_actividad(u: u64, t: Seq<u64>)
    ensures
        actividad_tras(u, t).total == (if t.len() == 0 { 0 } else { t.last() }),
        actividad_tras(u, t).umbral == u,
    decreases t.len(),
{
    if t.len() > 0 {
        lema_total_actividad(u, t.drop_last());
    }
}

/// Lo que ve el monitor en cada momento es el último minuto: la ventana son las
/// pulsaciones de los últimos 60 segundos (las de antes del arranque cuentan
/// cero) y, pasado el primer segundo, está "on fire" justo cuando su suma llega
/// al umbral.
pub proof fn ley_apm_ultimo_minuto(u: u64, t: Seq<u64>)
    ensures
        actividad_tras(u, t).ultimos == (Seq::new(SEGUNDOS_VENTANA as nat, |i: int| 0u64) + pulsaciones(t)).subrange(
            t.len() as int,
            t.len() + SEGUNDOS_VENTANA,
        ),
        t.len() == 0 ==> !actividad_tras(u, t).on_fire,
        t.len() > 0 ==> actividad_tras(u, t).on_fire == (suma(actividad_tras(u, t).ultimos) >= u),
    decreases t.len(),
{
    let z = Seq::new(SEGUNDOS_VENTANA as nat, |i: int| 0u64);
    if t.len() == 0 {
        assert((z + pulsaciones(t)).subrange(0, SEGUNDOS_VENTANA as int) =~= z);
    } else {
        let p = t.drop_last();
        ley_apm_ultimo_minuto(u, p);
        lema_total_actividad(u, p);
        lema_total_actividad(u, t);
        let n = t.len() - 1;
        assert(pulsaciones(p) =~= pulsaciones(t).drop_last()) by {
            assert forall|i: int| 0 <= i < p.len() implies pulsaciones(p)[i] == pulsaciones(t).drop_last()[i] by {
                assert(p[i] == t[i]);
                if i > 0 {
                    assert(p[i - 1] == t[i - 1]);
                }
            }
        }
        if n > 0 {
            assert(p.last() == t[n - 1]);
        }
        assert(resta_saturada(t.last(), actividad_tras(u, p).total) == pulsaciones(t)[n]);
        assert(actividad_tras(u, t).ultimos =~= (z + pulsaciones(t)).subrange(t.len() as int, t.len() + SEGUNDOS_VENTANA));
    }
}

/// El aviso de "on fire" de cada segundo sale justo cuando el estado cambia, y
/// lleva el estado nuevo.
pub proof fn ley_aviso_on_fire(u: u64, t: Seq<u64>, i: int)
    requires
        0 <= i < t.len(),
    ensures
        cambio_en(u, t, i) == (if actividad_tras(u, t.take(i + 1)).on_fire != actividad_tras(u, t.take(i)).on_fire {
            Some(actividad_tras(u, t.take(i + 1)).on_fire)
        } else {
            None
        }),
{
    lema_take_actividad(u, t, i);
}

/// Qué sabe el contador de segundos de las señales recientes.
proof fn lema_segundos_sin_senal(u: u64, t: Seq<u64>, n: int)
    requires
        0 <= n <= t.len(),
    ensures
        ({
            let s = actividad_tras(u, t.take(n)).seg;
            &&& n == 0 ==> s == 99
            &&& n >= 1 ==> (s == 0 <==> senal_en(u, t, n - 1))
            &&& s == 1 ==> n >= 2 && senal_en(u, t, n - 2) && !senal_en(u, t, n - 1)
            &&& s >= 2 ==> !senal_en(u, t, n - 1) && !senal_en(u, t, n - 2)
        }),
    decreases n,
{
    if n == 0 {
        assert(t.take(0) =~= Seq::<u64>::empty());
    } else {
        lema_segundos_sin_senal(u, t, n - 1);
        lema_take_actividad(u, t, n - 1);
    }
}

/// Señal de actividad: sale en un segundo con pulsaciones siempre que no haya
/// salido en ninguno de los dos anteriores; así, como mucho una cada 3 segundos.
pub proof fn ley_senal_actividad(u: u64, t: Seq<u64>, i: int)
    requires
        0 <= i < t.len(),
    ensures
        senal_en(u, t, i) <==> (pulsaciones_en(t, i) > 0 && !senal_en(u, t, i - 1) && !senal_en(u, t, i - 2)),
{
    lema_segundos_sin_senal(u, t, i);
    lema_total_actividad(u, t.take(i));
    if i > 0 {
        assert(t.take(i).last() == t[i - 1]);
    }
}

/// Entre dos señales de actividad pasan al menos 3 segundos.
pub proof fn ley_senales_espaciadas(u: u64, t: Seq<u64>, i: int, j: int)
    requires
        0 <= i < j < t.len(),
        senal_en(u, t, i),
        senal_en(u, t, j),
    ensures
        j - i >= SEGUNDOS_ENTRE_SENALES,
{
    ley_senal_actividad(u, t, j);
}

} // verus!
