//! Utilidades de texto verificadas: caracteres, recorte de espacios, búsqueda de
//! subcadenas y escritura de números en decimal.

use vstd::prelude::*;

verus! {

/// Espacio en blanco según la propiedad `White_Space` de Unicode, la que usa
/// `char::is_whitespace` (y con ella `str::trim`).
pub open spec fn es_espacio(c: char) -> bool {
    let u = c as u32;
    ||| 0x9 <= u <= 0xd
    ||| u == 0x20
    ||| u == 0x85
    ||| u == 0xa0
    ||| u == 0x1680
    ||| 0x2000 <= u <= 0x200a
    ||| u == 0x2028
    ||| u == 0x2029
    ||| u == 0x202f
    ||| u == 0x205f
    ||| u == 0x3000
}

/// La cadena sin los espacios en blanco del principio.
pub open spec fn sin_espacios_al_inicio(s: Seq<char>) -> Seq<char>
    decreases s.len(),
{
    if s.len() > 0 && es_espacio(s[0]) {
        sin_espacios_al_inicio(s.drop_first())
    } else {
        s
    }
}

/// La cadena sin los espacios en blanco del final.
pub open spec fn sin_espacios_al_final(s: Seq<char>) -> Seq<char>
    decreases s.len(),
{
    if s.len() > 0 && es_espacio(s.last()) {
        sin_espacios_al_final(s.drop_last())
    } else {
        s
    }
}

/// La cadena sin espacios en blanco a ninguno de los dos lados (`str::trim`).
pub open spec fn recortado(s: Seq<char>) -> Seq<char> {
    sin_espacios_al_final(sin_espacios_al_inicio(s))
}

/// La cadena sin los caracteres `c` del final (`str::trim_end_matches` con un carácter).
pub open spec fn sin_final_repetido(s: Seq<char>, c: char) -> Seq<char>
    decreases s.len(),
{
    if s.len() > 0 && s.last() == c {
        sin_final_repetido(s.drop_last(), c)
    } else {
        s
    }
}

/// Los `n` primeros caracteres, o la cadena entera si tiene menos.
pub open spec fn prefijo(s: Seq<char>, n: nat) -> Seq<char> {
    if n <= s.len() {
        s.take(n as int)
    } else {
        s
    }
}

/// `p` aparece dentro de `s` como subcadena contigua (`str::contains`).
pub open spec fn contiene(s: Seq<char>, p: Seq<char>) -> bool {
    exists|i: int| 0 <= i && i + p.len() <= s.len() && #[trigger] s.subrange(i, i + p.len()) == p
}

/// La cifra decimal `d` (de 0 a 9) como carácter.
pub open spec fn cifra(d: nat) -> char {
    seq!['0', '1', '2', '3', '4', '5', '6', '7', '8', '9'][d as int]
}

/// Escritura decimal de un natural, sin ceros a la izquierda.
pub open spec fn decimal(n: nat) -> Seq<char>
    decreases n,
{
    if n < 10 {
        seq![cifra(n)]
    } else {
        decimal(n / 10).push(cifra(n % 10))
    }
}

proof fn lema_inicio(s: Seq<char>, i: int)
    requires
        0 <= i <= s.len(),
        forall|k: int| 0 <= k < i ==> es_espacio(#[trigger] s[k]),
        i == s.len() || !es_espacio(s[i]),
    ensures
        sin_espacios_al_inicio(s) == s.subrange(i, s.len() as int),
    decreases i,
{
    if i == 0 {
        assert(s.subrange(0, s.len() as int) =~= s);
    } else {
        let t = s.drop_first();
        assert forall|k: int| 0 <= k < i - 1 implies es_espacio(#[trigger] t[k]) by {
            assert(t[k] == s[k + 1]);
        }
        if i - 1 < t.len() {
            assert(t[i - 1] == s[i]);
        }
        lema_inicio(t, i - 1);
        assert(t.subrange(i - 1, t.len() as int) =~= s.subrange(i, s.len() as int));
    }
}

proof fn lema_final(s: Seq<char>, j: int)
    requires
        0 <= j <= s.len(),
        forall|k: int| j <= k < s.len() ==> es_espacio(#[trigger] s[k]),
        j == 0 || !es_espacio(s[j - 1]),
    ensures
        sin_espacios_al_final(s) == s.subrange(0, j),
    decreases s.len() - j,
{
    if j == s.len() {
        assert(s.subrange(0, j) =~= s);
    } else {
        let t = s.drop_last();
        assert forall|k: int| j <= k < t.len() implies es_espacio(#[trigger] t[k]) by {
            assert(t[k] == s[k]);
        }
        if j > 0 {
            assert(t[j - 1] == s[j - 1]);
        }
        lema_final(t, j);
        assert(t.subrange(0, j) =~= s.subrange(0, j));
    }
}

/// Lo que queda tras recortar está vacío justo cuando todo eran espacios.
pub proof fn lema_recortado_vacio(s: Seq<char>)
    ensures
        recortado(s).len() == 0 <==> forall|k: int| 0 <= k < s.len() ==> es_espacio(#[trigger] s[k]),
{
    if forall|k: int| 0 <= k < s.len() ==> es_espacio(#[trigger] s[k]) {
        lema_inicio(s, s.len() as int);
        assert(sin_espacios_al_inicio(s).len() == 0);
    } else {
        let i = choose|i: int| 0 <= i < s.len() && !es_espacio(#[trigger] s[i]);
        lema_primer_no_espacio(s, i);
    }
}

proof fn lema_primer_no_espacio(s: Seq<char>, i: int)
    requires
        0 <= i < s.len(),
        !es_espacio(s[i]),
    ensures
        recortado(s).len() > 0,
    decreases i,
{
    if forall|k: int| 0 <= k < i ==> es_espacio(#[trigger] s[k]) {
        lema_inicio(s, i);
        let t = s.subrange(i, s.len() as int);
        assert(t[0] == s[i]);
        lema_final_no_vacio(t);
    } else {
        let k = choose|k: int| 0 <= k < i && !es_espacio(#[trigger] s[k]);
        lema_primer_no_espacio(s, k);
    }
}

proof fn lema_final_no_vacio(t: Seq<char>)
    requires
        t.len() > 0,
        !es_espacio(t[0]),
    ensures
        sin_espacios_al_final(t).len() > 0,
    decreases t.len(),
{
    if t.len() > 1 && es_espacio(t.last()) {
        assert(t.drop_last()[0] == t[0]);
        lema_final_no_vacio(t.drop_last());
    }
}

proof fn lema_inicio_extremo(s: Seq<char>)
    ensures
        sin_espacios_al_inicio(s).len() > 0 ==> !es_espacio(sin_espacios_al_inicio(s)[0]),
    decreases s.len(),
{
    if s.len() > 0 && es_espacio(s[0]) {
        lema_inicio_extremo(s.drop_first());
    }
}

proof fn lema_final_prefijo(t: Seq<char>)
    ensures
        sin_espacios_al_final(t).len() <= t.len(),
        sin_espacios_al_final(t) == t.take(sin_espacios_al_final(t).len() as int),
        sin_espacios_al_final(t).len() > 0 ==> !es_espacio(sin_espacios_al_final(t).last()),
    decreases t.len(),
{
    if t.len() > 0 && es_espacio(t.last()) {
        lema_final_prefijo(t.drop_last());
        let u = sin_espacios_al_final(t.drop_last());
        assert(t.drop_last().take(u.len() as int) =~= t.take(u.len() as int));
    } else {
        assert(t.take(t.len() as int) =~= t);
    }
}

/// Lo recortado, si no está vacío, empieza y acaba en algo que no es espacio.
pub proof fn lema_extremos_recortado(s: Seq<char>)
    ensures
        recortado(s).len() > 0 ==> !es_espacio(recortado(s)[0]) && !es_espacio(recortado(s).last()),
{
    let t = sin_espacios_al_inicio(s);
    lema_inicio_extremo(s);
    lema_final_prefijo(t);
    if recortado(s).len() > 0 {
        assert(recortado(s)[0] == t[0]);
    }
}

/// Un texto que empieza y acaba en algo que no es espacio queda igual al recortarlo.
pub proof fn lema_recortado_fijo(u: Seq<char>)
    requires
        u.len() == 0 || (!es_espacio(u[0]) && !es_espacio(u.last())),
    ensures
        recortado(u) == u,
{
}

/// Recortar dos veces es recortar una.
pub proof fn ley_recortar_idempotente(s: Seq<char>)
    ensures
        recortado(recortado(s)) == recortado(s),
{
    lema_extremos_recortado(s);
    lema_recortado_fijo(recortado(s));
}

/// Copia los caracteres de una cadena en un vector.
pub fn caracteres(s: &str) -> (v: Vec<char>)
    ensures
        v@ == s@,
{
    broadcast use vstd::string::group_string_axioms;

    let mut v: Vec<char> = Vec::new();
    for c in it: s.chars()
        invariant
            v@ == it.seq().take(it.index()),
    {
        v.push(c);
    }
    assert(v@ == s@);
    v
}

/// Añade un carácter al final de la cadena (`String::push`).
#[verifier::external_body]
pub(crate) fn empujar(s: &mut String, c: char)
    ensures
        final(s)@ == old(s)@.push(c),
{
    s.push(c);
}

/// Cadena con los caracteres `v[desde..hasta]`.
pub fn cadena_de(v: &Vec<char>, desde: usize, hasta: usize) -> (r: String)
    requires
        desde <= hasta <= v.len(),
    ensures
        r@ == v@.subrange(desde as int, hasta as int),
{
    let mut r = String::new();
    let mut i = desde;
    while i < hasta
        invariant
            desde <= i <= hasta <= v.len(),
            r@ == v@.subrange(desde as int, i as int),
        decreases hasta - i,
    {
        empujar(&mut r, v[i]);
        assert(v@.subrange(desde as int, i + 1) == v@.subrange(desde as int, i as int).push(v@[i as int]));
        i = i + 1;
    }
    r
}

/// ¿Es `c` un espacio en blanco? (`char::is_whitespace`)
pub fn es_blanco(c: char) -> (b: bool)
    ensures
        b == es_espacio(c),
{
    let u = c as u32;
    (0x9 <= u && u <= 0xd) || u == 0x20 || u == 0x85 || u == 0xa0 || u == 0x1680
        || (0x2000 <= u && u <= 0x200a) || u == 0x2028 || u == 0x2029 || u == 0x202f
        || u == 0x205f || u == 0x3000
}

/// La cadena sin espacios en blanco a los lados (`str::trim`).
pub fn recortar_espacios(s: &str) -> (r: String)
    ensures
        r@ == recortado(s@),
{
    let v = caracteres(s);
    let n = v.len();
    let mut i: usize = 0;
    while i < n && es_blanco(v[i])
        invariant
            i <= n == v.len(),
            v@ == s@,
            forall|k: int| 0 <= k < i ==> es_espacio(#[trigger] v@[k]),
        decreases n - i,
    {
        i = i + 1;
    }
    let mut j: usize = n;
    while j > i && es_blanco(v[j - 1])
        invariant
            i <= j <= n == v.len(),
            forall|k: int| j <= k < n ==> es_espacio(#[trigger] v@[k]),
        decreases j,
    {
        j = j - 1;
    }
    proof {
        lema_inicio(s@, i as int);
        let t = s@.subrange(i as int, n as int);
        assert forall|k: int| j - i <= k < t.len() implies es_espacio(#[trigger] t[k]) by {
            assert(t[k] == v@[k + i]);
        }
        if j > i {
            assert(t[j - i - 1] == v@[j - 1]);
        }
        lema_final(t, j - i);
        assert(t.subrange(0, j - i) =~= v@.subrange(i as int, j as int));
    }
    cadena_de(&v, i, j)
}

/// ¿Queda vacía la cadena al quitarle los espacios de los lados?
pub fn vacio_tras_recortar(s: &str) -> (b: bool)
    ensures
        b == (recortado(s@).len() == 0),
{
    let r = recortar_espacios(s);
    r.as_str().is_empty()
}

/// La cadena sin los caracteres `c` del final (`str::trim_end_matches`).
pub fn quitar_final_repetido(s: &str, c: char) -> (r: String)
    ensures
        r@ == sin_final_repetido(s@, c),
{
    let v = caracteres(s);
    let mut j: usize = v.len();
    assert(v@.subrange(0, j as int) =~= v@);
    while j > 0 && v[j - 1] == c
        invariant
            j <= v.len(),
            v@ == s@,
            sin_final_repetido(s@, c) == sin_final_repetido(v@.subrange(0, j as int), c),
        decreases j,
    {
        assert(v@.subrange(0, j - 1) =~= v@.subrange(0, j as int).drop_last());
        j = j - 1;
    }
    assert(j > 0 ==> v@.subrange(0, j as int).last() == v@[j - 1]);
    cadena_de(&v, 0, j)
}

/// Los `n` primeros caracteres de la cadena (`chars().take(n).collect()`).
pub fn primeros(s: &str, n: usize) -> (r: String)
    ensures
        r@ == prefijo(s@, n as nat),
{
    let v = caracteres(s);
    let hasta = if n <= v.len() { n } else { v.len() };
    proof {
        if n <= v.len() {
            assert(v@.subrange(0, n as int) =~= s@.take(n as int));
        } else {
            assert(v@.subrange(0, v.len() as int) =~= s@);
        }
    }
    cadena_de(&v, 0, hasta)
}

/// ¿Aparece `p` dentro de `s`? (`str::contains`)
pub fn contiene_texto(s: &str, p: &str) -> (b: bool)
    ensures
        b == contiene(s@, p@),
{
    let sv = caracteres(s);
    let pv = caracteres(p);
    let n = sv.len();
    let m = pv.len();
    if m > n {
        return false;
    }
    let mut i: usize = 0;
    while i <= n - m
        invariant
            m <= n,
            sv@ == s@,
            pv@ == p@,
            n == sv.len(),
            m == pv.len(),
            i <= n - m + 1,
            forall|q: int| 0 <= q < i ==> #[trigger] s@.subrange(q, q + m) != p@,
        decreases n - m + 1 - i,
    {
        let mut k: usize = 0;
        let mut iguales = true;
        while k < m
            invariant
                k <= m,
                i + m <= n,
                sv@ == s@,
                pv@ == p@,
                n == sv.len(),
                m == pv.len(),
                iguales == forall|r: int| 0 <= r < k ==> sv@[i + r] == pv@[r],
            decreases m - k,
        {
            if sv[i + k] != pv[k] {
                iguales = false;
            }
            k = k + 1;
        }
        if iguales {
            assert(s@.subrange(i as int, i + m) =~= p@);
            return true;
        }
        assert(s@.subrange(i as int, i + m) != p@) by {
            let r = choose|r: int| 0 <= r < m && sv@[i + r] != pv@[r];
            assert(s@.subrange(i as int, i + m)[r] == sv@[i + r]);
        }
        i = i + 1;
    }
    false
}

fn cifra_exec(d: u64) -> (c: char)
    requires
        d < 10,
    ensures
        c == cifra(d as nat),
{
    if d == 0 {
        '0'
    } else if d == 1 {
        '1'
    } else if d == 2 {
        '2'
    } else if d == 3 {
        '3'
    } else if d == 4 {
        '4'
    } else if d == 5 {
        '5'
    } else if d == 6 {
        '6'
    } else if d == 7 {
        '7'
    } else if d == 8 {
        '8'
    } else {
        '9'
    }
}

/// Escribe un número en decimal (`u64::to_string`).
pub fn en_decimal(n: u64) -> (r: String)
    ensures
        r@ == decimal(n as nat),
    decreases n,
{
    if n < 10 {
        let mut r = String::new();
        empujar(&mut r, cifra_exec(n));
        r
    } else {
        let mut r = en_decimal(n / 10);
        empujar(&mut r, cifra_exec(n % 10));
        r
    }
}

} // verus!
