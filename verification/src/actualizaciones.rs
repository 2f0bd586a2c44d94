//! The updates page: the flake inputs grouped into units that people
//! recognise, and the targets of the units they select.

use vstd::prelude::*;
use crate::cadena::{copiar, vistas};
use crate::aplicaciones::{esta_en, esta_texto, textos_de, textos_lista};
use crate::cadena::{decimal, decimal_usize, iguales, unir3};
use crate::json::{Json, lista_de, obtener, texto_de};
use crate::orden::{menor_texto, ordenados_sin_repetir, insertar_ordenado};

verus! {

/// A unit of the updates page and the flake inputs it refreshes.
pub struct UnidadActualizacion {
    pub titulo: String,
    pub detalle: String,
    pub targets: Vec<String>,
}

pub open spec fn vista_unidad(u: UnidadActualizacion) -> (Seq<char>, Seq<char>, Seq<Seq<char>>) {
    (u.titulo@, u.detalle@, vistas(u.targets@))
}

pub open spec fn vista_unidades(v: Seq<UnidadActualizacion>) -> Seq<(Seq<char>, Seq<char>, Seq<Seq<char>>)> {
    v.map_values(|u: UnidadActualizacion| vista_unidad(u))
}

/// The identifiers of `ids` that are among the targets, in the order of `ids`.
pub open spec fn presentes(objetivos: Seq<Seq<char>>, ids: Seq<Seq<char>>) -> Seq<Seq<char>>
    decreases ids.len(),
{
    if ids.len() == 0 {
        Seq::empty()
    } else if esta_en(objetivos, ids.last()) {
        presentes(objetivos, ids.drop_last()).push(ids.last())
    } else {
        presentes(objetivos, ids.drop_last())
    }
}

pub fn targets_presentes(objetivos: &[String], ids: &[&str]) -> (r: Vec<String>)
    ensures
        vistas(r@) == presentes(vistas(objetivos@), ids@.map_values(|t: &str| t@)),
{
    let ghost ids_v = ids@.map_values(|t: &str| t@);
    let mut r: Vec<String> = Vec::new();
    let mut i: usize = 0;
    while i < ids.len()
        invariant
            i <= ids@.len(),
            ids_v == ids@.map_values(|t: &str| t@),
            vistas(r@) == presentes(vistas(objetivos@), ids_v.subrange(0, i as int)),
        decreases ids.len() - i,
    {
        assert(ids_v.subrange(0, i + 1).drop_last() =~= ids_v.subrange(0, i as int));
        assert(ids_v.subrange(0, i + 1).last() == ids@[i as int]@);
        if esta_texto(objetivos, ids[i]) {
            let ghost antes = vistas(r@);
            r.push(copiar(ids[i]));
            assert(vistas(r@) =~= antes.push(ids@[i as int]@));
        }
        i = i + 1;
    }
    assert(ids_v.subrange(0, ids@.len() as int) =~= ids_v);
    r
}

/// The targets that none of the taken units uses, in their order.
pub open spec fn no_usados(objetivos: Seq<Seq<char>>, usados: Seq<Seq<char>>) -> Seq<Seq<char>>
    decreases objetivos.len(),
{
    if objetivos.len() == 0 {
        Seq::empty()
    } else if esta_en(usados, objetivos.last()) {
        no_usados(objetivos.drop_last(), usados)
    } else {
        no_usados(objetivos.drop_last(), usados).push(objetivos.last())
    }
}

pub open spec fn unidad_si(
    tomar: bool,
    titulo: Seq<char>,
    detalle: Seq<char>,
    targets: Seq<Seq<char>>,
) -> Seq<(Seq<char>, Seq<char>, Seq<Seq<char>>)> {
    if tomar && targets.len() > 0 {
        seq![(titulo, detalle, targets)]
    } else {
        Seq::empty()
    }
}

pub open spec fn juegos_instalados(aplicaciones: Seq<Seq<char>>) -> bool {
    esta_en(aplicaciones, "genshin-impact"@) || esta_en(aplicaciones, "honkai-star-rail"@)
}

pub open spec fn unidad_juegos(objetivos: Seq<Seq<char>>, aplicaciones: Seq<Seq<char>>) -> Seq<(Seq<char>, Seq<char>, Seq<Seq<char>>)> {
    unidad_si(
        juegos_instalados(aplicaciones),
        "Juegos instalados"@,
        "Actualiza los launchers y la compatibilidad que necesitan los juegos de anime instalados."@,
        presentes(objetivos, seq!["aagl"@, "aaglStable"@]),
    )
}

pub open spec fn unidad_spotify(objetivos: Seq<Seq<char>>, aplicaciones: Seq<Seq<char>>) -> Seq<(Seq<char>, Seq<char>, Seq<Seq<char>>)> {
    unidad_si(
        esta_en(aplicaciones, "spotify"@),
        "Spotify"@,
        "Actualiza la integración funcional y visual que Korunix mantiene para Spotify."@,
        presentes(objetivos, seq!["spicetify-nix"@]),
    )
}

pub open spec fn unidad_steam(objetivos: Seq<Seq<char>>, aplicaciones: Seq<Seq<char>>) -> Seq<(Seq<char>, Seq<char>, Seq<Seq<char>>)> {
    unidad_si(
        esta_en(aplicaciones, "steam"@),
        "Steam"@,
        "Actualiza la integración de Steam administrada junto con su instalación."@,
        presentes(objetivos, seq!["millennium"@]),
    )
}

pub open spec fn unidad_noctalia(objetivos: Seq<Seq<char>>, relevante: bool) -> Seq<(Seq<char>, Seq<char>, Seq<Seq<char>>)> {
    unidad_si(
        relevante,
        "Noctalia"@,
        "Actualiza el panel y las integraciones utilizadas por Niri y Hyprland."@,
        presentes(objetivos, seq!["noctalia"@]),
    )
}

/// The units for applications and desktops, in this order.
pub open spec fn grupos(objetivos: Seq<Seq<char>>, aplicaciones: Seq<Seq<char>>, noctalia: bool) -> Seq<(Seq<char>, Seq<char>, Seq<Seq<char>>)> {
    unidad_juegos(objetivos, aplicaciones) + unidad_spotify(objetivos, aplicaciones)
        + unidad_steam(objetivos, aplicaciones) + unidad_noctalia(objetivos, noctalia)
}

/// All the targets of some units, one after the other.
pub open spec fn targets_de(us: Seq<(Seq<char>, Seq<char>, Seq<Seq<char>>)>) -> Seq<Seq<char>>
    decreases us.len(),
{
    if us.len() == 0 {
        Seq::empty()
    } else {
        targets_de(us.drop_last()) + us.last().2
    }
}

/// The units of the updates page: "Sistema y aplicaciones" first with every
/// target that no other unit takes, then games, Spotify, Steam and Noctalia
/// when they apply.
pub open spec fn unidades_spec(objetivos: Seq<Seq<char>>, aplicaciones: Seq<Seq<char>>, noctalia: bool) -> Seq<(Seq<char>, Seq<char>, Seq<Seq<char>>)> {
    let g = grupos(objetivos, aplicaciones, noctalia);
    unidad_si(
        true,
        "Sistema y aplicaciones"@,
        "Actualiza NixOS y las aplicaciones que comparten su base. Korunix incluye automáticamente las piezas de compatibilidad necesarias."@,
        no_usados(objetivos, targets_de(g)),
    ) + g
}

fn agregar_unidad(
    unidades: &mut Vec<UnidadActualizacion>,
    usados: &mut Vec<String>,
    tomar: bool,
    titulo: &str,
    detalle: &str,
    targets: Vec<String>,
)
    ensures
        vista_unidades(final(unidades)@) == vista_unidades(old(unidades)@) + unidad_si(tomar, titulo@, detalle@, vistas(targets@)),
        vistas(final(usados)@) == vistas(old(usados)@) + targets_de(unidad_si(tomar, titulo@, detalle@, vistas(targets@))),
{
    let ghost t = vistas(targets@);
    if tomar && targets.len() > 0 {
        let mut k: usize = 0;
        let ghost u0 = vistas(usados@);
        while k < targets.len()
            invariant
                k <= targets@.len(),
                t == vistas(targets@),
                vistas(usados@) == u0 + t.subrange(0, k as int),
            decreases targets.len() - k,
        {
            let ghost antes = vistas(usados@);
            usados.push(copiar(targets[k].as_str()));
            assert(vistas(usados@) =~= antes.push(t[k as int]));
            assert(t.subrange(0, k + 1) =~= t.subrange(0, k as int).push(t[k as int]));
            k = k + 1;
        }
        assert(t.subrange(0, t.len() as int) =~= t);
        let ghost un = seq![(titulo@, detalle@, t)];
        assert(un.drop_last() =~= Seq::<(Seq<char>, Seq<char>, Seq<Seq<char>>)>::empty());
        assert(un.last() == (titulo@, detalle@, t));
        assert(targets_de(Seq::<(Seq<char>, Seq<char>, Seq<Seq<char>>)>::empty()) == Seq::<Seq<char>>::empty());
        assert(targets_de(un) =~= Seq::<Seq<char>>::empty() + t);
        let ghost antes = vista_unidades(unidades@);
        unidades.push(UnidadActualizacion { titulo: copiar(titulo), detalle: copiar(detalle), targets });
        assert(vista_unidades(unidades@) =~= antes + un);
    } else {
        assert(vista_unidades(unidades@) =~= vista_unidades(unidades@) + Seq::<(Seq<char>, Seq<char>, Seq<Seq<char>>)>::empty());
        assert(vistas(usados@) =~= vistas(usados@) + Seq::<Seq<char>>::empty());
    }
}

pub proof fn lema_targets_de_concat(a: Seq<(Seq<char>, Seq<char>, Seq<Seq<char>>)>, b: Seq<(Seq<char>, Seq<char>, Seq<Seq<char>>)>)
    ensures
        targets_de(a + b) == targets_de(a) + targets_de(b),
    decreases b.len(),
{
    if b.len() == 0 {
        assert(a + b =~= a);
        assert(targets_de(a) + targets_de(b) =~= targets_de(a));
    } else {
        lema_targets_de_concat(a, b.drop_last());
        assert((a + b).drop_last() =~= a + b.drop_last());
        assert((a + b).last() == b.last());
        assert(targets_de(a) + targets_de(b.drop_last()) + b.last().2 =~= targets_de(a) + (targets_de(b.drop_last()) + b.last().2));
    }
}

fn unidades_de_grupos(
    objetivos: &[String],
    aplicaciones: &[String],
    noctalia_relevante: bool,
) -> (r: (Vec<UnidadActualizacion>, Vec<String>))
    ensures
        vista_unidades(r.0@) == grupos(vistas(objetivos@), vistas(aplicaciones@), noctalia_relevante),
        vistas(r.1@) == targets_de(grupos(vistas(objetivos@), vistas(aplicaciones@), noctalia_relevante)),
{
    let ghost obj = vistas(objetivos@);
    let ghost apps = vistas(aplicaciones@);
    let mut unidades: Vec<UnidadActualizacion> = Vec::new();
    let mut usados: Vec<String> = Vec::new();

    let juegos_inst = esta_texto(aplicaciones, "genshin-impact") || esta_texto(aplicaciones, "honkai-star-rail");
    let mut ids_juegos: Vec<&str> = Vec::new();
    ids_juegos.push("aagl");
    ids_juegos.push("aaglStable");
    assert(ids_juegos@.map_values(|t: &str| t@) =~= seq!["aagl"@, "aaglStable"@]);
    let juegos = targets_presentes(objetivos, ids_juegos.as_slice());
    agregar_unidad(
        &mut unidades,
        &mut usados,
        juegos_inst,
        "Juegos instalados",
        "Actualiza los launchers y la compatibilidad que necesitan los juegos de anime instalados.",
        juegos,
    );
    let mut ids_spotify: Vec<&str> = Vec::new();
    ids_spotify.push("spicetify-nix");
    assert(ids_spotify@.map_values(|t: &str| t@) =~= seq!["spicetify-nix"@]);
    let spotify = targets_presentes(objetivos, ids_spotify.as_slice());
    agregar_unidad(
        &mut unidades,
        &mut usados,
        esta_texto(aplicaciones, "spotify"),
        "Spotify",
        "Actualiza la integración funcional y visual que Korunix mantiene para Spotify.",
        spotify,
    );
    let mut ids_steam: Vec<&str> = Vec::new();
    ids_steam.push("millennium");
    assert(ids_steam@.map_values(|t: &str| t@) =~= seq!["millennium"@]);
    let steam = targets_presentes(objetivos, ids_steam.as_slice());
    agregar_unidad(
        &mut unidades,
        &mut usados,
        esta_texto(aplicaciones, "steam"),
        "Steam",
        "Actualiza la integración de Steam administrada junto con su instalación.",
        steam,
    );
    let mut ids_noctalia: Vec<&str> = Vec::new();
    ids_noctalia.push("noctalia");
    assert(ids_noctalia@.map_values(|t: &str| t@) =~= seq!["noctalia"@]);
    let noctalia = targets_presentes(objetivos, ids_noctalia.as_slice());
    agregar_unidad(
        &mut unidades,
        &mut usados,
        noctalia_relevante,
        "Noctalia",
        "Actualiza el panel y las integraciones utilizadas por Niri y Hyprland.",
        noctalia,
    );
    let ghost g = grupos(obj, apps, noctalia_relevante);
    assert(vista_unidades(unidades@) =~= g);
    proof {
        let a = unidad_juegos(obj, apps);
        let b = unidad_spotify(obj, apps);
        let c = unidad_steam(obj, apps);
        let d = unidad_noctalia(obj, noctalia_relevante);
        lema_targets_de_concat(a, b);
        lema_targets_de_concat(a + b, c);
        lema_targets_de_concat(a + b + c, d);
        assert(Seq::<Seq<char>>::empty() + targets_de(a) + targets_de(b) + targets_de(c) + targets_de(d)
            =~= targets_de(g));
    }
    assert(vistas(usados@) =~= targets_de(g));

    (unidades, usados)
}

pub fn unidades_actualizacion_humanas(
    objetivos: &[String],
    aplicaciones: &[String],
    noctalia_relevante: bool,
) -> (r: Vec<UnidadActualizacion>)
    ensures
        vista_unidades(r@) == unidades_spec(vistas(objetivos@), vistas(aplicaciones@), noctalia_relevante),
{
    let ghost obj = vistas(objetivos@);
    let ghost g = grupos(obj, vistas(aplicaciones@), noctalia_relevante);
    let (mut unidades, usados) = unidades_de_grupos(objetivos, aplicaciones, noctalia_relevante);
    let mut sistema: Vec<String> = Vec::new();
    let mut i: usize = 0;
    while i < objetivos.len()
        invariant
            i <= objetivos@.len(),
            obj == vistas(objetivos@),
            vistas(usados@) == targets_de(g),
            vistas(sistema@) == no_usados(obj.subrange(0, i as int), targets_de(g)),
        decreases objetivos.len() - i,
    {
        assert(obj.subrange(0, i + 1).drop_last() =~= obj.subrange(0, i as int));
        assert(obj.subrange(0, i + 1).last() == objetivos@[i as int]@);
        if !esta_texto(usados.as_slice(), objetivos[i].as_str()) {
            let ghost antes = vistas(sistema@);
            sistema.push(copiar(objetivos[i].as_str()));
            assert(vistas(sistema@) =~= antes.push(objetivos@[i as int]@));
        }
        i = i + 1;
    }
    assert(obj.subrange(0, obj.len() as int) =~= obj);

    if sistema.len() > 0 {
        let ghost antes = vista_unidades(unidades@);
        unidades.insert(0, UnidadActualizacion {
            titulo: copiar("Sistema y aplicaciones"),
            detalle: copiar("Actualiza NixOS y las aplicaciones que comparten su base. Korunix incluye automáticamente las piezas de compatibilidad necesarias."),
            targets: sistema,
        });
        assert(vista_unidades(unidades@) =~= seq![vista_unidad(unidades@[0])] + antes);
    } else {
        assert(vista_unidades(unidades@) =~= Seq::<(Seq<char>, Seq<char>, Seq<Seq<char>>)>::empty() + g);
    }
    unidades
}

/// The targets of the selected units, sorted and without repetitions.
pub open spec fn seleccionados_spec(unidades: Seq<(Seq<Seq<char>>, bool)>) -> Seq<Seq<char>>
    decreases unidades.len(),
{
    if unidades.len() == 0 {
        Seq::empty()
    } else if unidades.last().1 {
        seleccionados_spec(unidades.drop_last()) + unidades.last().0
    } else {
        seleccionados_spec(unidades.drop_last())
    }
}

pub open spec fn vista_seleccion(v: Seq<(Vec<String>, bool)>) -> Seq<(Seq<Seq<char>>, bool)> {
    v.map_values(|u: (Vec<String>, bool)| (vistas(u.0@), u.1))
}

pub proof fn lema_esta_en_concat(a: Seq<Seq<char>>, b: Seq<Seq<char>>, x: Seq<char>)
    ensures
        esta_en(a + b, x) <==> (esta_en(a, x) || esta_en(b, x)),
{
    let c = a + b;
    if esta_en(c, x) {
        let j = choose|j: int| 0 <= j < c.len() && c[j] == x;
        if j < a.len() {
            assert(a[j] == x);
        } else {
            assert(b[j - a.len()] == x);
        }
    }
    if esta_en(a, x) {
        let j = choose|j: int| 0 <= j < a.len() && a[j] == x;
        assert(c[j] == x);
    }
    if esta_en(b, x) {
        let j = choose|j: int| 0 <= j < b.len() && b[j] == x;
        assert(c[j + a.len()] == x);
    }
}

/// Inserts every text of `targets` into a strictly increasing list.
fn insertar_todos(r: &mut Vec<String>, targets: &Vec<String>)
    requires
        ordenados_sin_repetir(vistas(old(r)@)),
    ensures
        ordenados_sin_repetir(vistas(final(r)@)),
        forall|x: Seq<char>| #![trigger esta_en(vistas(final(r)@), x)] esta_en(vistas(final(r)@), x) <==> (esta_en(vistas(old(r)@), x) || esta_en(vistas(targets@), x)),
{
    let ghost t = vistas(targets@);
    let ghost base = vistas(r@);
    let mut k: usize = 0;
    while k < targets.len()
        invariant
            k <= targets@.len(),
            t == vistas(targets@),
            ordenados_sin_repetir(vistas(r@)),
            forall|x: Seq<char>| #![trigger esta_en(vistas(r@), x)] esta_en(vistas(r@), x) <==> (esta_en(base, x) || esta_en(t.subrange(0, k as int), x)),
        decreases targets.len() - k,
    {
        assert(t[k as int] == targets@[k as int]@);
        let ghost previo = vistas(r@);
        insertar_ordenado(r, targets[k].as_str());
        proof {
            assert(t.subrange(0, k + 1) =~= t.subrange(0, k as int) + seq![t[k as int]]);
            assert forall|x: Seq<char>| esta_en(vistas(r@), x) <==> (esta_en(base, x) || esta_en(t.subrange(0, k + 1), x)) by {
                lema_esta_en_concat(t.subrange(0, k as int), seq![t[k as int]], x);
                assert(esta_en(vistas(r@), x) <==> (esta_en(previo, x) || x == t[k as int]));
                assert(esta_en(previo, x) <==> (esta_en(base, x) || esta_en(t.subrange(0, k as int), x)));
                if x == t[k as int] {
                    assert(seq![t[k as int]][0] == x);
                }
                if esta_en(seq![t[k as int]], x) {
                    let j = choose|j: int| 0 <= j < 1 && seq![t[k as int]][j] == x;
                }
            }
        }
        k = k + 1;
    }
    assert(t.subrange(0, t.len() as int) =~= t);
}

/// The targets of the units that are checked: each once, in increasing order.
pub fn targets_unidades_seleccionadas(unidades: &[(Vec<String>, bool)]) -> (r: Vec<String>)
    ensures
        ordenados_sin_repetir(vistas(r@)),
        forall|x: Seq<char>| #![trigger esta_en(vistas(r@), x)] esta_en(vistas(r@), x) <==> esta_en(seleccionados_spec(vista_seleccion(unidades@)), x),
{
    let ghost todas = vista_seleccion(unidades@);
    let mut r: Vec<String> = Vec::new();
    let mut i: usize = 0;
    while i < unidades.len()
        invariant
            i <= unidades@.len(),
            todas == vista_seleccion(unidades@),
            ordenados_sin_repetir(vistas(r@)),
            forall|x: Seq<char>| #![trigger esta_en(vistas(r@), x)] esta_en(vistas(r@), x) <==> esta_en(seleccionados_spec(todas.subrange(0, i as int)), x),
        decreases unidades.len() - i,
    {
        let ghost pre = todas.subrange(0, i as int);
        let ghost sig = todas.subrange(0, i + 1);
        assert(sig.drop_last() =~= pre);
        assert(sig.last() == (vistas(unidades@[i as int].0@), unidades@[i as int].1));
        let (targets, activa) = &unidades[i];
        let ghost antes = vistas(r@);
        if *activa {
            insertar_todos(&mut r, targets);
        }
        proof {
            assert forall|x: Seq<char>| esta_en(vistas(r@), x) <==> esta_en(seleccionados_spec(sig), x) by {
                assert(esta_en(antes, x) <==> esta_en(seleccionados_spec(pre), x));
                if *activa {
                    lema_esta_en_concat(seleccionados_spec(pre), vistas(targets@), x);
                    assert(esta_en(vistas(r@), x) <==> (esta_en(antes, x) || esta_en(vistas(targets@), x)));
                    assert(seleccionados_spec(sig) == seleccionados_spec(pre) + vistas(targets@));
                } else {
                    assert(seleccionados_spec(sig) == seleccionados_spec(pre));
                }
            }
        }
        i = i + 1;
    }
    assert(todas.subrange(0, todas.len() as int) =~= todas);
    r
}

proof fn lema_presentes(objetivos: Seq<Seq<char>>, ids: Seq<Seq<char>>, x: Seq<char>)
    ensures
        esta_en(presentes(objetivos, ids), x) ==> esta_en(objetivos, x),
    decreases ids.len(),
{
    if ids.len() > 0 {
        lema_presentes(objetivos, ids.drop_last(), x);
        let p = presentes(objetivos, ids.drop_last());
        if esta_en(objetivos, ids.last()) {
            lema_esta_en_concat(p, seq![ids.last()], x);
            assert(p.push(ids.last()) =~= p + seq![ids.last()]);
            if esta_en(seq![ids.last()], x) {
                let j = choose|j: int| 0 <= j < 1 && seq![ids.last()][j] == x;
            }
        }
    }
}

proof fn lema_no_usados(objetivos: Seq<Seq<char>>, usados: Seq<Seq<char>>, x: Seq<char>)
    ensures
        esta_en(no_usados(objetivos, usados), x) <==> (esta_en(objetivos, x) && !esta_en(usados, x)),
    decreases objetivos.len(),
{
    if objetivos.len() > 0 {
        let pre = objetivos.drop_last();
        let u = objetivos.last();
        lema_no_usados(pre, usados, x);
        assert(objetivos =~= pre + seq![u]);
        lema_esta_en_concat(pre, seq![u], x);
        if esta_en(seq![u], x) {
            let j = choose|j: int| 0 <= j < 1 && seq![u][j] == x;
        }
        if x == u {
            assert(seq![u][0] == x);
        }
        if !esta_en(usados, u) {
            let n = no_usados(pre, usados);
            assert(n.push(u) =~= n + seq![u]);
            lema_esta_en_concat(n, seq![u], x);
        }
    }
}

proof fn lema_unidad_si(tomar: bool, t: Seq<char>, d: Seq<char>, ts: Seq<Seq<char>>)
    ensures
        targets_de(unidad_si(tomar, t, d, ts)) == (if tomar && ts.len() > 0 { ts } else { Seq::<Seq<char>>::empty() }),
{
    let u = unidad_si(tomar, t, d, ts);
    if tomar && ts.len() > 0 {
        assert(u.drop_last() =~= Seq::<(Seq<char>, Seq<char>, Seq<Seq<char>>)>::empty());
        assert(u.last() == (t, d, ts));
        assert(targets_de(Seq::<(Seq<char>, Seq<char>, Seq<Seq<char>>)>::empty()) == Seq::<Seq<char>>::empty());
        assert(targets_de(u) =~= Seq::<Seq<char>>::empty() + ts);
    }
}

proof fn lema_grupos_de_objetivos(objetivos: Seq<Seq<char>>, aplicaciones: Seq<Seq<char>>, noctalia: bool, x: Seq<char>)
    ensures
        esta_en(targets_de(grupos(objetivos, aplicaciones, noctalia)), x) ==> esta_en(objetivos, x),
{
    let a = unidad_juegos(objetivos, aplicaciones);
    let b = unidad_spotify(objetivos, aplicaciones);
    let c = unidad_steam(objetivos, aplicaciones);
    let d = unidad_noctalia(objetivos, noctalia);
    lema_targets_de_concat(a, b);
    lema_targets_de_concat(a + b, c);
    lema_targets_de_concat(a + b + c, d);
    lema_unidad_si(juegos_instalados(aplicaciones), "Juegos instalados"@, "Actualiza los launchers y la compatibilidad que necesitan los juegos de anime instalados."@, presentes(objetivos, seq!["aagl"@, "aaglStable"@]));
    lema_unidad_si(esta_en(aplicaciones, "spotify"@), "Spotify"@, "Actualiza la integración funcional y visual que Korunix mantiene para Spotify."@, presentes(objetivos, seq!["spicetify-nix"@]));
    lema_unidad_si(esta_en(aplicaciones, "steam"@), "Steam"@, "Actualiza la integración de Steam administrada junto con su instalación."@, presentes(objetivos, seq!["millennium"@]));
    lema_unidad_si(noctalia, "Noctalia"@, "Actualiza el panel y las integraciones utilizadas por Niri y Hyprland."@, presentes(objetivos, seq!["noctalia"@]));
    let ta = targets_de(a);
    let tb = targets_de(b);
    let tc = targets_de(c);
    let td = targets_de(d);
    lema_esta_en_concat(ta, tb, x);
    lema_esta_en_concat(ta + tb, tc, x);
    lema_esta_en_concat(ta + tb + tc, td, x);
    lema_presentes(objetivos, seq!["aagl"@, "aaglStable"@], x);
    lema_presentes(objetivos, seq!["spicetify-nix"@], x);
    lema_presentes(objetivos, seq!["millennium"@], x);
    lema_presentes(objetivos, seq!["noctalia"@], x);
}

/// Grouping the updates loses no target and invents none: a flake input is
/// among the targets exactly when some unit of the page refreshes it.
pub proof fn ley_unidades_conservan_targets(
    objetivos: Seq<Seq<char>>,
    aplicaciones: Seq<Seq<char>>,
    noctalia: bool,
    x: Seq<char>,
)
    ensures
        esta_en(objetivos, x) <==> esta_en(targets_de(unidades_spec(objetivos, aplicaciones, noctalia)), x),
{
    let g = grupos(objetivos, aplicaciones, noctalia);
    let t = targets_de(g);
    let sistema = no_usados(objetivos, t);
    let s = unidad_si(true, "Sistema y aplicaciones"@, "Actualiza NixOS y las aplicaciones que comparten su base. Korunix incluye automáticamente las piezas de compatibilidad necesarias."@, sistema);
    lema_targets_de_concat(s, g);
    lema_unidad_si(true, "Sistema y aplicaciones"@, "Actualiza NixOS y las aplicaciones que comparten su base. Korunix incluye automáticamente las piezas de compatibilidad necesarias."@, sistema);
    lema_no_usados(objetivos, t, x);
    lema_grupos_de_objetivos(objetivos, aplicaciones, noctalia, x);
    lema_esta_en_concat(targets_de(s), t, x);
    if sistema.len() == 0 && esta_en(objetivos, x) && !esta_en(t, x) {
        assert(esta_en(sistema, x));
    }
}

/// The title of each unit of the page names the condition under which it is
/// shown: the system unit always, each other unit only when it applies.
proof fn lema_titulos_unidades(
    objetivos: Seq<Seq<char>>,
    aplicaciones: Seq<Seq<char>>,
    noctalia: bool,
    i: int,
)
    requires
        0 <= i < unidades_spec(objetivos, aplicaciones, noctalia).len(),
    ensures
        ({
            let t = unidades_spec(objetivos, aplicaciones, noctalia)[i].0;
            ||| t == "Sistema y aplicaciones"@
            ||| (t == "Juegos instalados"@ && juegos_instalados(aplicaciones))
            ||| (t == "Spotify"@ && esta_en(aplicaciones, "spotify"@))
            ||| (t == "Steam"@ && esta_en(aplicaciones, "steam"@))
            ||| (t == "Noctalia"@ && noctalia)
        }),
{
    let g = grupos(objetivos, aplicaciones, noctalia);
    let s = unidad_si(
        true,
        "Sistema y aplicaciones"@,
        "Actualiza NixOS y las aplicaciones que comparten su base. Korunix incluye automáticamente las piezas de compatibilidad necesarias."@,
        no_usados(objetivos, targets_de(g)),
    );
    let a = unidad_juegos(objetivos, aplicaciones);
    let b = unidad_spotify(objetivos, aplicaciones);
    let c = unidad_steam(objetivos, aplicaciones);
    let d = unidad_noctalia(objetivos, noctalia);
    let u = unidades_spec(objetivos, aplicaciones, noctalia);
    assert(u =~= s + a + b + c + d);
    if i < s.len() {
        assert(u[i] == s[i]);
    } else if i < s.len() + a.len() {
        assert(u[i] == a[i - s.len()]);
    } else if i < s.len() + a.len() + b.len() {
        assert(u[i] == b[i - s.len() - a.len()]);
    } else if i < s.len() + a.len() + b.len() + c.len() {
        assert(u[i] == c[i - s.len() - a.len() - b.len()]);
    } else {
        assert(u[i] == d[i - s.len() - a.len() - b.len() - c.len()]);
    }
}

/// The launchers of the anime games never become a row of their own when no
/// such game is chosen: no unit is titled "Juegos instalados" then.
pub proof fn ley_juegos_solo_con_juego_elegido(
    objetivos: Seq<Seq<char>>,
    aplicaciones: Seq<Seq<char>>,
    noctalia: bool,
)
    requires
        !juegos_instalados(aplicaciones),
    ensures
        forall|i: int| 0 <= i < unidades_spec(objetivos, aplicaciones, noctalia).len()
            ==> #[trigger] unidades_spec(objetivos, aplicaciones, noctalia)[i].0 != "Juegos instalados"@,
{
    reveal_strlit("Juegos instalados");
    reveal_strlit("Sistema y aplicaciones");
    reveal_strlit("Spotify");
    reveal_strlit("Steam");
    reveal_strlit("Noctalia");
    assert forall|i: int| 0 <= i < unidades_spec(objetivos, aplicaciones, noctalia).len()
        implies #[trigger] unidades_spec(objetivos, aplicaciones, noctalia)[i].0 != "Juegos instalados"@ by {
        lema_titulos_unidades(objetivos, aplicaciones, noctalia, i);
        assert("Juegos instalados"@.len() == 17);
        assert("Sistema y aplicaciones"@.len() == 22);
        assert("Spotify"@.len() == 7);
        assert("Steam"@.len() == 5);
        assert("Noctalia"@.len() == 8);
    }
}

/// Noctalia is a unit of its own only where it is used, with Niri or
/// Hyprland: otherwise no unit is titled "Noctalia".
pub proof fn ley_noctalia_solo_con_niri_o_hyprland(
    objetivos: Seq<Seq<char>>,
    aplicaciones: Seq<Seq<char>>,
)
    ensures
        forall|i: int| 0 <= i < unidades_spec(objetivos, aplicaciones, false).len()
            ==> #[trigger] unidades_spec(objetivos, aplicaciones, false)[i].0 != "Noctalia"@,
{
    reveal_strlit("Juegos instalados");
    reveal_strlit("Sistema y aplicaciones");
    reveal_strlit("Spotify");
    reveal_strlit("Steam");
    reveal_strlit("Noctalia");
    assert forall|i: int| 0 <= i < unidades_spec(objetivos, aplicaciones, false).len()
        implies #[trigger] unidades_spec(objetivos, aplicaciones, false)[i].0 != "Noctalia"@ by {
        lema_titulos_unidades(objetivos, aplicaciones, false, i);
        assert("Juegos instalados"@.len() == 17);
        assert("Sistema y aplicaciones"@.len() == 22);
        assert("Spotify"@.len() == 7);
        assert("Steam"@.len() == 5);
        assert("Noctalia"@.len() == 8);
    }
}

/// The text `t` when `tomar` holds, else nothing.
pub open spec fn si(tomar: bool, t: Seq<char>) -> Seq<Seq<char>> {
    if tomar {
        seq![t]
    } else {
        Seq::empty()
    }
}

/// The titles of some units, in their order.
pub open spec fn titulos_unidades(us: Seq<(Seq<char>, Seq<char>, Seq<Seq<char>>)>) -> Seq<Seq<char>> {
    us.map_values(|u: (Seq<char>, Seq<char>, Seq<Seq<char>>)| u.0)
}

proof fn lema_titulos_concat(a: Seq<(Seq<char>, Seq<char>, Seq<Seq<char>>)>, b: Seq<(Seq<char>, Seq<char>, Seq<Seq<char>>)>)
    ensures
        titulos_unidades(a + b) == titulos_unidades(a) + titulos_unidades(b),
{
    assert(titulos_unidades(a + b) =~= titulos_unidades(a) + titulos_unidades(b));
}

proof fn lema_titulo_unidad_si(tomar: bool, t: Seq<char>, d: Seq<char>, ts: Seq<Seq<char>>)
    ensures
        titulos_unidades(unidad_si(tomar, t, d, ts)) == si(tomar && ts.len() > 0, t),
        forall|i: int| 0 <= i < unidad_si(tomar, t, d, ts).len() ==> (#[trigger] unidad_si(tomar, t, d, ts)[i]).2.len() > 0,
{
    assert(titulos_unidades(unidad_si(tomar, t, d, ts)) =~= si(tomar && ts.len() > 0, t));
}

proof fn lema_pertenece_uno(a: Seq<char>, x: Seq<char>)
    ensures
        esta_en(seq![a], x) <==> x == a,
{
    if esta_en(seq![a], x) {
        let j = choose|j: int| 0 <= j < 1 && seq![a][j] == x;
    }
    if x == a {
        assert(seq![a][0] == x);
    }
}

proof fn lema_pertenece_dos(a: Seq<char>, b: Seq<char>, x: Seq<char>)
    ensures
        esta_en(seq![a, b], x) <==> (x == a || x == b),
{
    if esta_en(seq![a, b], x) {
        let j = choose|j: int| 0 <= j < 2 && seq![a, b][j] == x;
    }
    if x == a {
        assert(seq![a, b][0] == x);
    }
    if x == b {
        assert(seq![a, b][1] == x);
    }
}

/// Whether some of `ids` is among the targets.
proof fn lema_presentes_no_vacio(objetivos: Seq<Seq<char>>, ids: Seq<Seq<char>>)
    ensures
        ids.len() == 1 ==> (presentes(objetivos, ids).len() > 0 <==> esta_en(objetivos, ids[0])),
        ids.len() == 2 ==> (presentes(objetivos, ids).len() > 0 <==> (esta_en(objetivos, ids[0]) || esta_en(objetivos, ids[1]))),
{
    reveal_with_fuel(presentes, 3);
    if ids.len() == 1 {
        assert(ids.drop_last() =~= Seq::<Seq<char>>::empty());
        assert(ids.last() == ids[0]);
    }
    if ids.len() == 2 {
        let uno = ids.drop_last();
        assert(uno.drop_last() =~= Seq::<Seq<char>>::empty());
        assert(uno.last() == ids[0]);
        assert(ids.last() == ids[1]);
    }
}

proof fn lema_no_usados_no_vacio(objetivos: Seq<Seq<char>>, usados: Seq<Seq<char>>)
    ensures
        no_usados(objetivos, usados).len() > 0
            <==> (exists|x: Seq<char>| #[trigger] esta_en(objetivos, x) && !esta_en(usados, x)),
{
    let n = no_usados(objetivos, usados);
    if n.len() > 0 {
        lema_no_usados(objetivos, usados, n[0]);
        assert(esta_en(n, n[0]));
    }
    if exists|x: Seq<char>| #[trigger] esta_en(objetivos, x) && !esta_en(usados, x) {
        let x = choose|x: Seq<char>| #[trigger] esta_en(objetivos, x) && !esta_en(usados, x);
        lema_no_usados(objetivos, usados, x);
    }
}

/// The units of the updates page, as a list of titles: "Sistema y
/// aplicaciones" when some target is left to no other unit, then "Juegos
/// instalados" when an anime game is chosen and its launchers are among the
/// targets, "Spotify" and "Steam" when the application is chosen and its
/// integration is among the targets, and "Noctalia" when it is relevant and
/// among the targets, in this order. Every unit has targets.
#[verifier::rlimit(60)]
pub proof fn ley_titulos_de_unidades(objetivos: Seq<Seq<char>>, aplicaciones: Seq<Seq<char>>, noctalia: bool)
    ensures
        forall|i: int| 0 <= i < unidades_spec(objetivos, aplicaciones, noctalia).len()
            ==> (#[trigger] unidades_spec(objetivos, aplicaciones, noctalia)[i]).2.len() > 0,
        titulos_unidades(unidades_spec(objetivos, aplicaciones, noctalia))
            == si(
                exists|x: Seq<char>| #[trigger] esta_en(objetivos, x)
                    && !esta_en(targets_de(grupos(objetivos, aplicaciones, noctalia)), x),
                "Sistema y aplicaciones"@,
            ) + si(
                juegos_instalados(aplicaciones) && (esta_en(objetivos, "aagl"@) || esta_en(objetivos, "aaglStable"@)),
                "Juegos instalados"@,
            ) + si(esta_en(aplicaciones, "spotify"@) && esta_en(objetivos, "spicetify-nix"@), "Spotify"@)
                + si(esta_en(aplicaciones, "steam"@) && esta_en(objetivos, "millennium"@), "Steam"@)
                + si(noctalia && esta_en(objetivos, "noctalia"@), "Noctalia"@),
{
    let g = grupos(objetivos, aplicaciones, noctalia);
    let ds = "Actualiza NixOS y las aplicaciones que comparten su base. Korunix incluye automáticamente las piezas de compatibilidad necesarias."@;
    let dj = "Actualiza los launchers y la compatibilidad que necesitan los juegos de anime instalados."@;
    let dp = "Actualiza la integración funcional y visual que Korunix mantiene para Spotify."@;
    let dt = "Actualiza la integración de Steam administrada junto con su instalación."@;
    let dn = "Actualiza el panel y las integraciones utilizadas por Niri y Hyprland."@;
    let pj = presentes(objetivos, seq!["aagl"@, "aaglStable"@]);
    let pp = presentes(objetivos, seq!["spicetify-nix"@]);
    let pt = presentes(objetivos, seq!["millennium"@]);
    let pn = presentes(objetivos, seq!["noctalia"@]);
    let sistema = no_usados(objetivos, targets_de(g));
    let s = unidad_si(true, "Sistema y aplicaciones"@, ds, sistema);
    let a = unidad_juegos(objetivos, aplicaciones);
    let b = unidad_spotify(objetivos, aplicaciones);
    let c = unidad_steam(objetivos, aplicaciones);
    let d = unidad_noctalia(objetivos, noctalia);
    let u = unidades_spec(objetivos, aplicaciones, noctalia);
    assert(u =~= s + a + b + c + d);
    lema_titulo_unidad_si(true, "Sistema y aplicaciones"@, ds, sistema);
    lema_titulo_unidad_si(juegos_instalados(aplicaciones), "Juegos instalados"@, dj, pj);
    lema_titulo_unidad_si(esta_en(aplicaciones, "spotify"@), "Spotify"@, dp, pp);
    lema_titulo_unidad_si(esta_en(aplicaciones, "steam"@), "Steam"@, dt, pt);
    lema_titulo_unidad_si(noctalia, "Noctalia"@, dn, pn);
    lema_titulos_concat(s, a);
    lema_titulos_concat(s + a, b);
    lema_titulos_concat(s + a + b, c);
    lema_titulos_concat(s + a + b + c, d);
    lema_no_usados_no_vacio(objetivos, targets_de(g));
    lema_presentes_no_vacio(objetivos, seq!["aagl"@, "aaglStable"@]);
    lema_presentes_no_vacio(objetivos, seq!["spicetify-nix"@]);
    lema_presentes_no_vacio(objetivos, seq!["millennium"@]);
    lema_presentes_no_vacio(objetivos, seq!["noctalia"@]);
    assert forall|i: int| 0 <= i < u.len() implies (#[trigger] u[i]).2.len() > 0 by {
        if i < s.len() {
            assert(u[i] == s[i]);
        } else if i < s.len() + a.len() {
            assert(u[i] == a[i - s.len()]);
        } else if i < s.len() + a.len() + b.len() {
            assert(u[i] == b[i - s.len() - a.len()]);
        } else if i < s.len() + a.len() + b.len() + c.len() {
            assert(u[i] == c[i - s.len() - a.len() - b.len()]);
        } else {
            assert(u[i] == d[i - s.len() - a.len() - b.len() - c.len()]);
        }
    }
}

proof fn lema_sin_repetir_push(a: Seq<Seq<char>>, x: Seq<char>)
    requires
        a.no_duplicates(),
        !esta_en(a, x),
    ensures
        a.push(x).no_duplicates(),
{
    let b = a.push(x);
    assert forall|i: int, j: int| 0 <= i < b.len() && 0 <= j < b.len() && i != j implies b[i] != b[j] by {
        if i < a.len() && j < a.len() {
            assert(b[i] == a[i] && b[j] == a[j]);
        } else if i < a.len() {
            assert(b[i] == a[i]);
        } else {
            assert(b[j] == a[j]);
        }
    }
}

proof fn lema_sin_repetir_concat(a: Seq<Seq<char>>, b: Seq<Seq<char>>)
    requires
        a.no_duplicates(),
        b.no_duplicates(),
        forall|x: Seq<char>| #[trigger] esta_en(a, x) ==> !esta_en(b, x),
    ensures
        (a + b).no_duplicates(),
{
    assert forall|i: int, j: int| 0 <= i < a.len() && 0 <= j < b.len() implies a[i] != b[j] by {
        if a[i] == b[j] {
            assert(esta_en(a, a[i]));
            assert(esta_en(b, a[i]));
        }
    }
    vstd::seq_lib::lemma_no_dup_in_concat(a, b);
}

proof fn lema_ultimo_fuera(s: Seq<Seq<char>>)
    requires
        s.len() > 0,
        s.no_duplicates(),
    ensures
        !esta_en(s.drop_last(), s.last()),
        s.drop_last().no_duplicates(),
{
    let pre = s.drop_last();
    if esta_en(pre, s.last()) {
        let j = choose|j: int| 0 <= j < pre.len() && pre[j] == s.last();
        assert(s[j] == s[s.len() - 1]);
    }
    assert forall|i: int, j: int| 0 <= i < pre.len() && 0 <= j < pre.len() && i != j implies pre[i] != pre[j] by {
        assert(pre[i] == s[i] && pre[j] == s[j]);
    }
}

proof fn lema_presentes_en_ids(objetivos: Seq<Seq<char>>, ids: Seq<Seq<char>>, x: Seq<char>)
    ensures
        esta_en(presentes(objetivos, ids), x) ==> esta_en(ids, x),
    decreases ids.len(),
{
    if ids.len() > 0 {
        let pre = ids.drop_last();
        lema_presentes_en_ids(objetivos, pre, x);
        let p = presentes(objetivos, pre);
        let q = presentes(objetivos, ids);
        if esta_en(q, x) {
            if esta_en(p, x) {
                let j = choose|j: int| 0 <= j < pre.len() && pre[j] == x;
                assert(ids[j] == x);
            } else {
                let j = choose|j: int| 0 <= j < q.len() && q[j] == x;
                assert(q == p.push(ids.last()));
                if j < p.len() {
                    assert(q[j] == p[j]);
                }
                assert(ids[ids.len() - 1] == x);
            }
        }
    }
}

proof fn lema_presentes_sin_repetir(objetivos: Seq<Seq<char>>, ids: Seq<Seq<char>>)
    requires
        ids.no_duplicates(),
    ensures
        presentes(objetivos, ids).no_duplicates(),
    decreases ids.len(),
{
    if ids.len() > 0 {
        let pre = ids.drop_last();
        lema_ultimo_fuera(ids);
        lema_presentes_sin_repetir(objetivos, pre);
        if esta_en(objetivos, ids.last()) {
            lema_presentes_en_ids(objetivos, pre, ids.last());
            lema_sin_repetir_push(presentes(objetivos, pre), ids.last());
        }
    }
}

proof fn lema_no_usados_sin_repetir(objetivos: Seq<Seq<char>>, usados: Seq<Seq<char>>)
    requires
        objetivos.no_duplicates(),
    ensures
        no_usados(objetivos, usados).no_duplicates(),
    decreases objetivos.len(),
{
    if objetivos.len() > 0 {
        let pre = objetivos.drop_last();
        lema_ultimo_fuera(objetivos);
        lema_no_usados_sin_repetir(pre, usados);
        if !esta_en(usados, objetivos.last()) {
            lema_no_usados(pre, usados, objetivos.last());
            lema_sin_repetir_push(no_usados(pre, usados), objetivos.last());
        }
    }
}

/// The targets of one of the other units: the present ones of its own ids.
proof fn lema_targets_grupo(tomar: bool, t: Seq<char>, d: Seq<char>, objetivos: Seq<Seq<char>>, ids: Seq<Seq<char>>, x: Seq<char>)
    requires
        ids.no_duplicates(),
    ensures
        targets_de(unidad_si(tomar, t, d, presentes(objetivos, ids))).no_duplicates(),
        esta_en(targets_de(unidad_si(tomar, t, d, presentes(objetivos, ids))), x) ==> esta_en(ids, x),
{
    lema_unidad_si(tomar, t, d, presentes(objetivos, ids));
    lema_presentes_sin_repetir(objetivos, ids);
    lema_presentes_en_ids(objetivos, ids, x);
}

proof fn lema_targets_grupos_sin_repetir(objetivos: Seq<Seq<char>>, aplicaciones: Seq<Seq<char>>, noctalia: bool)
    ensures
        targets_de(grupos(objetivos, aplicaciones, noctalia)).no_duplicates(),
{
    reveal_strlit("aagl");
    reveal_strlit("aaglStable");
    reveal_strlit("spicetify-nix");
    reveal_strlit("millennium");
    reveal_strlit("noctalia");
    let ij = seq!["aagl"@, "aaglStable"@];
    let ip = seq!["spicetify-nix"@];
    let it = seq!["millennium"@];
    let inn = seq!["noctalia"@];
    assert("aagl"@.len() == 4);
    assert("aaglStable"@.len() == 10);
    assert("spicetify-nix"@.len() == 13);
    assert("millennium"@.len() == 10);
    assert("noctalia"@.len() == 8);
    assert("aaglStable"@[0] != "millennium"@[0]);
    assert(ij.no_duplicates());
    let a = unidad_juegos(objetivos, aplicaciones);
    let b = unidad_spotify(objetivos, aplicaciones);
    let c = unidad_steam(objetivos, aplicaciones);
    let d = unidad_noctalia(objetivos, noctalia);
    let dj = "Actualiza los launchers y la compatibilidad que necesitan los juegos de anime instalados."@;
    let dp = "Actualiza la integración funcional y visual que Korunix mantiene para Spotify."@;
    let dt = "Actualiza la integración de Steam administrada junto con su instalación."@;
    let dn = "Actualiza el panel y las integraciones utilizadas por Niri y Hyprland."@;
    let ta = targets_de(a);
    let tb = targets_de(b);
    let tc = targets_de(c);
    let td = targets_de(d);
    lema_targets_grupo(juegos_instalados(aplicaciones), "Juegos instalados"@, dj, objetivos, ij, ij[0]);
    lema_targets_grupo(esta_en(aplicaciones, "spotify"@), "Spotify"@, dp, objetivos, ip, ip[0]);
    lema_targets_grupo(esta_en(aplicaciones, "steam"@), "Steam"@, dt, objetivos, it, it[0]);
    lema_targets_grupo(noctalia, "Noctalia"@, dn, objetivos, inn, inn[0]);
    assert forall|x: Seq<char>| #[trigger] esta_en(ta, x) implies !esta_en(tb, x) by {
        lema_targets_grupo(juegos_instalados(aplicaciones), "Juegos instalados"@, dj, objetivos, ij, x);
        lema_targets_grupo(esta_en(aplicaciones, "spotify"@), "Spotify"@, dp, objetivos, ip, x);
        lema_pertenece_dos("aagl"@, "aaglStable"@, x);
        lema_pertenece_uno("spicetify-nix"@, x);
    }
    lema_sin_repetir_concat(ta, tb);
    assert forall|x: Seq<char>| #[trigger] esta_en(ta + tb, x) implies !esta_en(tc, x) by {
        lema_esta_en_concat(ta, tb, x);
        lema_targets_grupo(juegos_instalados(aplicaciones), "Juegos instalados"@, dj, objetivos, ij, x);
        lema_targets_grupo(esta_en(aplicaciones, "spotify"@), "Spotify"@, dp, objetivos, ip, x);
        lema_targets_grupo(esta_en(aplicaciones, "steam"@), "Steam"@, dt, objetivos, it, x);
        lema_pertenece_dos("aagl"@, "aaglStable"@, x);
        lema_pertenece_uno("spicetify-nix"@, x);
        lema_pertenece_uno("millennium"@, x);
    }
    lema_sin_repetir_concat(ta + tb, tc);
    assert forall|x: Seq<char>| #[trigger] esta_en(ta + tb + tc, x) implies !esta_en(td, x) by {
        lema_esta_en_concat(ta + tb, tc, x);
        lema_esta_en_concat(ta, tb, x);
        lema_targets_grupo(juegos_instalados(aplicaciones), "Juegos instalados"@, dj, objetivos, ij, x);
        lema_targets_grupo(esta_en(aplicaciones, "spotify"@), "Spotify"@, dp, objetivos, ip, x);
        lema_targets_grupo(esta_en(aplicaciones, "steam"@), "Steam"@, dt, objetivos, it, x);
        lema_targets_grupo(noctalia, "Noctalia"@, dn, objetivos, inn, x);
        lema_pertenece_dos("aagl"@, "aaglStable"@, x);
        lema_pertenece_uno("spicetify-nix"@, x);
        lema_pertenece_uno("millennium"@, x);
        lema_pertenece_uno("noctalia"@, x);
    }
    lema_sin_repetir_concat(ta + tb + tc, td);
    lema_targets_de_concat(a, b);
    lema_targets_de_concat(a + b, c);
    lema_targets_de_concat(a + b + c, d);
}

/// Grouping the updates shares the targets out among the units: when the plan
/// names each flake input once, no input is in two units or twice in one, and
/// the units' targets taken together are the plan's targets, as a multiset.
pub proof fn ley_unidades_reparten_targets(objetivos: Seq<Seq<char>>, aplicaciones: Seq<Seq<char>>, noctalia: bool)
    requires
        objetivos.no_duplicates(),
    ensures
        targets_de(unidades_spec(objetivos, aplicaciones, noctalia)).no_duplicates(),
        targets_de(unidades_spec(objetivos, aplicaciones, noctalia)).to_multiset() == objetivos.to_multiset(),
{
    let g = grupos(objetivos, aplicaciones, noctalia);
    let tg = targets_de(g);
    let sistema = no_usados(objetivos, tg);
    let ds = "Actualiza NixOS y las aplicaciones que comparten su base. Korunix incluye automáticamente las piezas de compatibilidad necesarias."@;
    let s = unidad_si(true, "Sistema y aplicaciones"@, ds, sistema);
    let t = targets_de(unidades_spec(objetivos, aplicaciones, noctalia));
    lema_targets_de_concat(s, g);
    lema_unidad_si(true, "Sistema y aplicaciones"@, ds, sistema);
    lema_targets_grupos_sin_repetir(objetivos, aplicaciones, noctalia);
    lema_no_usados_sin_repetir(objetivos, tg);
    assert forall|x: Seq<char>| #[trigger] esta_en(targets_de(s), x) implies !esta_en(tg, x) by {
        lema_no_usados(objetivos, tg, x);
    }
    lema_sin_repetir_concat(targets_de(s), tg);
    assert(t == targets_de(s) + tg);
    t.lemma_multiset_has_no_duplicates();
    objetivos.lemma_multiset_has_no_duplicates();
    assert forall|x: Seq<char>| t.to_multiset().count(x) == objetivos.to_multiset().count(x) by {
        ley_unidades_conservan_targets(objetivos, aplicaciones, noctalia, x);
        vstd::seq_lib::to_multiset_contains(t, x);
        vstd::seq_lib::to_multiset_contains(objetivos, x);
        assert(esta_en(t, x) == t.contains(x));
        assert(esta_en(objetivos, x) == objetivos.contains(x));
    }
    assert(t.to_multiset() =~= objetivos.to_multiset());
}

/// The flake inputs that an update plan names: the texts under `targets`.
pub open spec fn objetivos_spec(plan: Json) -> Seq<Seq<char>> {
    match lista_de(obtener(plan, "targets"@)) {
        Some(v) => textos_de(v),
        None => Seq::empty(),
    }
}

pub fn objetivos_plan(plan: &Json) -> (r: Vec<String>)
    ensures
        vistas(r@) == objetivos_spec(*plan),
{
    match plan.obtener("targets") {
        Some(t) => match t.como_lista() {
            Some(v) => textos_lista(v),
            None => Vec::new(),
        },
        None => Vec::new(),
    }
}

/// What updating the checked units asks of the engine.
pub enum DecisionSeleccion {
    /// No target is checked: nothing can be updated.
    NingunArea,
    /// The targets to refresh, the plan to show first, the question that
    /// confirms it and the command that runs it.
    Actualizar { objetivos: Vec<String>, plan: Vec<String>, pregunta: String, ejecucion: Vec<String> },
}

/// How many units are checked.
pub open spec fn areas_marcadas(unidades: Seq<(Seq<Seq<char>>, bool)>) -> nat
    decreases unidades.len(),
{
    if unidades.len() == 0 {
        0
    } else {
        areas_marcadas(unidades.drop_last()) + if unidades.last().1 { 1nat } else { 0nat }
    }
}

pub open spec fn pregunta_seleccion_spec(areas: nat) -> Seq<char> {
    "¿Actualizar las "@ + decimal(areas) + " áreas seleccionadas? Korunix incluirá sus dependencias compatibles automáticamente."@
}

fn contar_marcadas(unidades: &[(Vec<String>, bool)]) -> (r: usize)
    ensures
        r as nat == areas_marcadas(vista_seleccion(unidades@)),
{
    let ghost todas = vista_seleccion(unidades@);
    let mut n: usize = 0;
    let mut i: usize = 0;
    while i < unidades.len()
        invariant
            i <= unidades@.len(),
            todas == vista_seleccion(unidades@),
            n as nat == areas_marcadas(todas.subrange(0, i as int)),
            n <= i,
        decreases unidades.len() - i,
    {
        assert(todas.subrange(0, i + 1).drop_last() =~= todas.subrange(0, i as int));
        assert(todas.subrange(0, i + 1).last().1 == unidades@[i as int].1);
        if unidades[i].1 {
            n = n + 1;
        }
        i = i + 1;
    }
    assert(todas.subrange(0, todas.len() as int) =~= todas);
    n
}

/// The engine command that updates some targets (all of them when none is
/// named), as a plan or for real.
pub fn argumentos_actualizar(targets: &Vec<String>, plan: bool) -> (r: Vec<String>)
    ensures
        vistas(r@) == seq!["update"@] + vistas(targets@) + if plan { seq!["--plan"@, "--json"@] } else { seq!["--json"@] },
{
    let mut r: Vec<String> = Vec::new();
    r.push(copiar("update"));
    let mut i: usize = 0;
    while i < targets.len()
        invariant
            i <= targets@.len(),
            vistas(r@) == seq!["update"@] + vistas(targets@).subrange(0, i as int),
        decreases targets.len() - i,
    {
        let ghost antes = vistas(r@);
        r.push(copiar(targets[i].as_str()));
        assert(vistas(r@) =~= antes.push(targets@[i as int]@));
        assert(vistas(targets@)[i as int] == targets@[i as int]@);
        assert(vistas(targets@).subrange(0, i + 1) =~= vistas(targets@).subrange(0, i as int).push(targets@[i as int]@));
        assert(vistas(r@) =~= seq!["update"@] + vistas(targets@).subrange(0, i + 1));
        i = i + 1;
    }
    let ghost antes = vistas(r@);
    if plan {
        r.push(copiar("--plan"));
    }
    r.push(copiar("--json"));
    assert(vistas(targets@).subrange(0, targets@.len() as int) =~= vistas(targets@));
    assert(vistas(r@) =~= seq!["update"@] + vistas(targets@) + if plan { seq!["--plan"@, "--json"@] } else { seq!["--json"@] });
    r
}

/// Updating the checked units: the targets they refresh, sorted and each
/// once, planned first and then run; nothing when no target is checked.
pub fn decision_actualizar_seleccion(unidades: &[(Vec<String>, bool)]) -> (r: DecisionSeleccion)
    ensures
        seleccionados_spec(vista_seleccion(unidades@)).len() == 0 <==> r is NingunArea,
        r matches DecisionSeleccion::Actualizar { objetivos, plan, pregunta, ejecucion } ==> ({
            &&& ordenados_sin_repetir(vistas(objetivos@))
            &&& forall|x: Seq<char>| #![trigger esta_en(vistas(objetivos@), x)]
                    esta_en(vistas(objetivos@), x) <==> esta_en(seleccionados_spec(vista_seleccion(unidades@)), x)
            &&& vistas(plan@) == seq!["update"@] + vistas(objetivos@) + seq!["--plan"@, "--json"@]
            &&& vistas(ejecucion@) == seq!["update"@] + vistas(objetivos@) + seq!["--json"@]
            &&& pregunta@ == pregunta_seleccion_spec(areas_marcadas(vista_seleccion(unidades@)))
        }),
{
    let elegidos = targets_unidades_seleccionadas(unidades);
    if elegidos.len() == 0 {
        proof {
            let s = seleccionados_spec(vista_seleccion(unidades@));
            if s.len() > 0 {
                assert(esta_en(s, s[0]));
                assert(!esta_en(vistas(elegidos@), s[0]));
            }
        }
        return DecisionSeleccion::NingunArea;
    }
    proof {
        let e = vistas(elegidos@);
        assert(esta_en(e, e[0]));
    }
    let areas = contar_marcadas(unidades);
    let plan = argumentos_actualizar(&elegidos, true);
    let ejecucion = argumentos_actualizar(&elegidos, false);
    let pregunta = unir3(
        "¿Actualizar las ",
        decimal_usize(areas).as_str(),
        " áreas seleccionadas? Korunix incluirá sus dependencias compatibles automáticamente.",
    );
    DecisionSeleccion::Actualizar { objetivos: elegidos, plan, pregunta, ejecucion }
}

/// The channel the system follows: `stable` unless it declares `unstable`.
pub open spec fn canal_spec(canal: Json) -> Seq<char> {
    if texto_de(obtener(canal, "declared"@)) == Some("unstable"@) {
        "unstable"@
    } else {
        "stable"@
    }
}

pub fn canal_declarado(canal: &Json) -> (r: &'static str)
    ensures
        r@ == canal_spec(*canal),
{
    let declarado = match canal.obtener("declared") {
        Some(v) => v.como_texto(),
        None => None,
    };
    match declarado {
        Some(t) => if iguales(t, "unstable") {
            "unstable"
        } else {
            "stable"
        },
        None => "stable",
    }
}

/// The channels are offered in the order stable, unstable.
pub open spec fn destino_spec(seleccion: u32) -> Seq<char> {
    if seleccion == 0 {
        "stable"@
    } else {
        "unstable"@
    }
}

pub open spec fn seleccion_canal_spec(actual: Seq<char>) -> u32 {
    if actual == "unstable"@ {
        1
    } else {
        0
    }
}

pub fn seleccion_canal(actual: &str) -> (r: u32)
    ensures
        r == seleccion_canal_spec(actual@),
{
    if iguales(actual, "unstable") {
        1
    } else {
        0
    }
}

/// What choosing a channel asks of the engine.
pub enum DecisionCanal {
    /// The chosen channel is the one followed already.
    SinCambio,
    /// The plan to show first and the command that changes the channel.
    Cambiar { plan: Vec<String>, ejecucion: Vec<String> },
}

pub fn decision_canal(actual: &str, seleccion: u32) -> (r: DecisionCanal)
    ensures
        (destino_spec(seleccion) == actual@) <==> r is SinCambio,
        r matches DecisionCanal::Cambiar { plan, ejecucion } ==> {
            &&& vistas(plan@) == seq!["channel"@, destino_spec(seleccion), "--plan"@, "--json"@]
            &&& vistas(ejecucion@) == seq!["channel"@, destino_spec(seleccion), "--yes"@]
        },
{
    let destino = if seleccion == 0 { "stable" } else { "unstable" };
    if iguales(destino, actual) {
        return DecisionCanal::SinCambio;
    }
    let mut plan: Vec<String> = Vec::new();
    plan.push(copiar("channel"));
    plan.push(copiar(destino));
    plan.push(copiar("--plan"));
    plan.push(copiar("--json"));
    let mut ejecucion: Vec<String> = Vec::new();
    ejecucion.push(copiar("channel"));
    ejecucion.push(copiar(destino));
    ejecucion.push(copiar("--yes"));
    assert(vistas(plan@) =~= seq!["channel"@, destino_spec(seleccion), "--plan"@, "--json"@]);
    assert(vistas(ejecucion@) =~= seq!["channel"@, destino_spec(seleccion), "--yes"@]);
    DecisionCanal::Cambiar { plan, ejecucion }
}

/// Keeping the channel that the selector opens on changes nothing.
pub proof fn ley_canal_inicial_sin_cambio(canal: Json)
    ensures
        destino_spec(seleccion_canal_spec(canal_spec(canal))) == canal_spec(canal),
{
}

} // verus!
