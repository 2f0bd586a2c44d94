//! The maintenance page: which system generations the cleanup keeps, and the
//! recovery versions that it offers.

use vstd::prelude::*;
use crate::cadena::{copiar, decimal, decimal_usize, leer_u32, leer_u32_exec, recortado, recortar, unir2, unir3, vistas};
use crate::json::{Json, booleano_de, lista_de, natural_de, obtener, texto_de};
use crate::idioma::Idioma;
use crate::plantilla::{formatear1, formato};
use crate::textos::recuperacion::{
    etiqueta_actual, etiqueta_actual_spec, etiqueta_anterior, etiqueta_anterior_spec, etiqueta_inicio,
    etiqueta_inicio_spec, plantilla_anteriores, plantilla_anteriores_spec, plantilla_conservada,
    plantilla_conservada_spec, plantilla_eliminada, plantilla_eliminada_spec, version_actual,
    version_actual_conservada, version_actual_conservada_spec, version_actual_spec,
};

verus! {

/// A generation number written as a number that fits in 32 bits.
pub open spec fn u32_de_natural(n: Option<u64>) -> Option<u32> {
    match n {
        Some(v) => if v <= u32::MAX {
            Some(v as u32)
        } else {
            None
        },
        None => None,
    }
}

/// A generation number as a number or as a decimal text.
pub open spec fn id_de_miembro(v: Option<Json>) -> Option<u32> {
    match u32_de_natural(natural_de(v)) {
        Some(n) => Some(n),
        None => match texto_de(v) {
            Some(t) => leer_u32(t),
            None => None,
        },
    }
}

/// The generation that an item of a cleanup plan names: the item itself as
/// a number (which must fit in 32 bits) or as decimal text, or else its
/// `id`, `generation` or `generationId` member, the first that gives one.
pub open spec fn id_generacion_spec(v: Json) -> Option<u32> {
    match natural_de(Some(v)) {
        Some(n) => u32_de_natural(Some(n)),
        None => match (match texto_de(Some(v)) {
            Some(t) => leer_u32(t),
            None => None,
        }) {
            Some(n) => Some(n),
            None => match id_de_miembro(obtener(v, "id"@)) {
                Some(n) => Some(n),
                None => match id_de_miembro(obtener(v, "generation"@)) {
                    Some(n) => Some(n),
                    None => id_de_miembro(obtener(v, "generationId"@)),
                },
            },
        },
    }
}

fn id_de_miembro_exec(v: Option<&Json>) -> (r: Option<u32>)
    ensures
        r == id_de_miembro(crate::json::valor_de(v)),
{
    match v {
        Some(j) => {
            match j.como_u64() {
                Some(n) => if n <= 4294967295u64 {
                    return Some(n as u32);
                },
                None => {},
            }
            match j.como_texto() {
                Some(t) => leer_u32_exec(t),
                None => None,
            }
        },
        None => None,
    }
}

pub fn id_generacion_plan(valor: &Json) -> (r: Option<u32>)
    ensures
        r == id_generacion_spec(*valor),
{
    if let Some(id) = valor.como_u64() {
        return if id <= 4294967295u64 { Some(id as u32) } else { None };
    }
    match valor.como_texto() {
        Some(t) => match leer_u32_exec(t) {
            Some(id) => return Some(id),
            None => {},
        },
        None => {},
    }
    match id_de_miembro_exec(valor.obtener("id")) {
        Some(id) => return Some(id),
        None => {},
    }
    match id_de_miembro_exec(valor.obtener("generation")) {
        Some(id) => return Some(id),
        None => {},
    }
    id_de_miembro_exec(valor.obtener("generationId"))
}

/// The generations named by the items of a list.
pub open spec fn ids_de(items: Seq<Json>) -> Seq<u32>
    decreases items.len(),
{
    if items.len() == 0 {
        Seq::empty()
    } else {
        match id_generacion_spec(items.last()) {
            Some(id) => ids_de(items.drop_last()).push(id),
            None => ids_de(items.drop_last()),
        }
    }
}

/// The generations that the plan keeps.
pub open spec fn conservadas_spec(plan: Json) -> Seq<u32> {
    match lista_de(obtener(plan, "keep"@)) {
        Some(items) => ids_de(items),
        None => Seq::empty(),
    }
}

pub open spec fn creciente(v: Seq<u32>) -> bool {
    forall|i: int, j: int| 0 <= i < j < v.len() ==> #[trigger] v[i] < #[trigger] v[j]
}

/// Inserts a number into a strictly increasing list unless it is there.
fn insertar_numero(v: &mut Vec<u32>, x: u32)
    requires
        creciente(old(v)@),
    ensures
        creciente(final(v)@),
        forall|y: u32| #![trigger final(v)@.contains(y)] final(v)@.contains(y) <==> (old(v)@.contains(y) || y == x),
{
    let ghost w = v@;
    let mut p: usize = 0;
    while p < v.len() && v[p] < x
        invariant
            p <= v@.len(),
            w == v@,
            forall|j: int| 0 <= j < p ==> #[trigger] w[j] < x,
        decreases v.len() - p,
    {
        p = p + 1;
    }
    if p < v.len() && v[p] == x {
        assert forall|y: u32| v@.contains(y) <==> (w.contains(y) || y == x) by {
            if y == x {
                assert(w[p as int] == y);
            }
        }
        return;
    }
    v.insert(p, x);
    let ghost nv = v@;
    assert(nv =~= w.subrange(0, p as int).push(x) + w.subrange(p as int, w.len() as int));
    assert forall|i: int, j: int| 0 <= i < j < nv.len() implies #[trigger] nv[i] < #[trigger] nv[j] by {
        if j < p {
            assert(nv[i] == w[i] && nv[j] == w[j]);
        } else if j == p {
            assert(nv[i] == w[i]);
        } else if i < p {
            assert(nv[i] == w[i] && nv[j] == w[j - 1]);
            assert(w[p as int] > x);
            if j - 1 > p {
                assert(w[p as int] < w[j - 1]);
            }
        } else if i == p {
            assert(nv[j] == w[j - 1]);
            if j - 1 > p {
                assert(w[p as int] < w[j - 1]);
            }
        } else {
            assert(nv[i] == w[i - 1] && nv[j] == w[j - 1]);
        }
    }
    assert forall|y: u32| nv.contains(y) <==> (w.contains(y) || y == x) by {
        if nv.contains(y) {
            let i = choose|i: int| 0 <= i < nv.len() && nv[i] == y;
            if i < p {
                assert(w[i] == y);
            } else if i > p {
                assert(w[i - 1] == y);
            }
        }
        if w.contains(y) {
            let i = choose|i: int| 0 <= i < w.len() && w[i] == y;
            if i < p {
                assert(nv[i] == y);
            } else {
                assert(nv[i + 1] == y);
            }
        }
        if y == x {
            assert(nv[p as int] == y);
        }
    }
}

/// The generations that a cleanup plan keeps (`keep`), in increasing order
/// and each once.
pub fn generaciones_conservadas(plan: &Json) -> (r: Vec<u32>)
    ensures
        creciente(r@),
        forall|y: u32| #![trigger r@.contains(y)] r@.contains(y) <==> conservadas_spec(*plan).contains(y),
{
    let mut r: Vec<u32> = Vec::new();
    let items = match plan.obtener("keep") {
        Some(k) => match k.como_lista() {
            Some(l) => l,
            None => return r,
        },
        None => return r,
    };
    let mut i: usize = 0;
    while i < items.len()
        invariant
            i <= items@.len(),
            lista_de(obtener(*plan, "keep"@)) == Some(items@),
            creciente(r@),
            forall|y: u32| #![trigger r@.contains(y)] r@.contains(y) <==> ids_de(items@.subrange(0, i as int)).contains(y),
        decreases items.len() - i,
    {
        let ghost pre = items@.subrange(0, i as int);
        let ghost sig = items@.subrange(0, i + 1);
        assert(sig.drop_last() =~= pre);
        assert(sig.last() == items@[i as int]);
        let ghost antes = r@;
        match id_generacion_plan(&items[i]) {
            Some(id) => {
                insertar_numero(&mut r, id);
                assert(ids_de(sig) == ids_de(pre).push(id));
                assert forall|y: u32| #![trigger r@.contains(y)] r@.contains(y) <==> ids_de(sig).contains(y) by {
                    assert(r@.contains(y) <==> (antes.contains(y) || y == id));
                    assert(antes.contains(y) <==> ids_de(pre).contains(y));
                    if y == id {
                        assert(ids_de(sig)[ids_de(pre).len() as int] == y);
                    }
                    if ids_de(sig).contains(y) {
                        let k = choose|k: int| 0 <= k < ids_de(sig).len() && ids_de(sig)[k] == y;
                        if k < ids_de(pre).len() {
                            assert(ids_de(pre)[k] == y);
                        }
                    }
                    if ids_de(pre).contains(y) {
                        let k = choose|k: int| 0 <= k < ids_de(pre).len() && ids_de(pre)[k] == y;
                        assert(ids_de(sig)[k] == y);
                    }
                }
            },
            None => {
                assert(ids_de(sig) == ids_de(pre));
            },
        }
        i = i + 1;
    }
    assert(items@.subrange(0, items@.len() as int) =~= items@);
    r
}

/// A recovery version that the maintenance page lists.
pub struct FilaRecuperacion {
    pub id: u32,
    pub titulo: String,
    pub detalle: String,
    pub actual: bool,
}

pub open spec fn vista_fila(f: FilaRecuperacion) -> (u32, Seq<char>, Seq<char>, bool) {
    (f.id, f.titulo@, f.detalle@, f.actual)
}

pub open spec fn vista_filas(v: Seq<FilaRecuperacion>) -> Seq<(u32, Seq<char>, Seq<char>, bool)> {
    v.map_values(|f: FilaRecuperacion| vista_fila(f))
}

pub open spec fn titulo_recuperacion(actual: bool, inicio: bool, anteriores: nat) -> Seq<char> {
    if actual {
        "Sistema actual"@
    } else if inicio {
        "Inicio predeterminado"@
    } else if anteriores == 1 {
        "Versión anterior"@
    } else {
        "Versión anterior "@ + decimal(anteriores)
    }
}

pub open spec fn version_nixos(g: Json) -> Seq<char> {
    match texto_de(obtener(g, "nixosVersion"@)) {
        Some(v) => if recortado(v).len() > 0 {
            v
        } else {
            "NixOS"@
        },
        None => "NixOS"@,
    }
}

pub open spec fn detalle_recuperacion(version: Seq<char>, protegida: bool) -> Seq<char> {
    if protegida {
        version + " · Conservada para recuperación"@
    } else {
        version + " · Disponible hasta la próxima limpieza"@
    }
}

/// The rows, walking the generations from the newest: at most `cupo` rows,
/// skipping generations without a 32-bit `id`; `anteriores` counts the
/// listed generations that are not the running one.
pub open spec fn filas_spec(
    gens: Seq<Json>,
    predeterminada: Option<u32>,
    conservadas: Seq<u32>,
    anteriores: nat,
    cupo: nat,
) -> Seq<(u32, Seq<char>, Seq<char>, bool)>
    decreases gens.len(),
{
    if gens.len() == 0 || cupo == 0 {
        Seq::empty()
    } else {
        let g = gens.last();
        match u32_de_natural(natural_de(obtener(g, "id"@))) {
            None => filas_spec(gens.drop_last(), predeterminada, conservadas, anteriores, cupo),
            Some(id) => {
                let actual = booleano_de(obtener(g, "current"@)) == Some(true);
                let inicio = predeterminada == Some(id);
                let ant: nat = if actual { anteriores } else { anteriores + 1 };
                let protegida = actual || inicio || conservadas.contains(id);
                seq![(id, titulo_recuperacion(actual, inicio, ant), detalle_recuperacion(version_nixos(g), protegida), actual)]
                    + filas_spec(gens.drop_last(), predeterminada, conservadas, ant, (cupo - 1) as nat)
            },
        }
    }
}

/// The recovery rows of the maintenance page: the three newest generations
/// that have an id, with the running one, the default boot entry and the
/// previous ones named, and whether each is kept for recovery.
pub open spec fn filas_recuperacion_spec(recuperacion: Json, conservadas: Seq<u32>) -> Seq<(u32, Seq<char>, Seq<char>, bool)> {
    let gens = match lista_de(obtener(recuperacion, "generations"@)) {
        Some(v) => v,
        None => Seq::empty(),
    };
    let predeterminada = u32_de_natural(natural_de(obtener(recuperacion, "defaultGeneration"@)));
    filas_spec(gens, predeterminada, conservadas, 0, 3)
}

fn u32_de(v: Option<&Json>) -> (r: Option<u32>)
    ensures
        r == u32_de_natural(natural_de(crate::json::valor_de(v))),
{
    match v {
        Some(j) => match j.como_u64() {
            Some(n) => if n <= 4294967295u64 {
                Some(n as u32)
            } else {
                None
            },
            None => None,
        },
        None => None,
    }
}

fn contiene_numero(v: &[u32], x: u32) -> (r: bool)
    ensures
        r == v@.contains(x),
{
    let mut i: usize = 0;
    while i < v.len()
        invariant
            i <= v@.len(),
            forall|j: int| 0 <= j < i ==> v@[j] != x,
        decreases v.len() - i,
    {
        if v[i] == x {
            return true;
        }
        i = i + 1;
    }
    false
}

pub fn filas_recuperacion(recuperacion: &Json, conservadas: &[u32]) -> (r: Vec<FilaRecuperacion>)
    ensures
        vista_filas(r@) == filas_recuperacion_spec(*recuperacion, conservadas@),
{
    let predeterminada = u32_de(recuperacion.obtener("defaultGeneration"));
    let vacia: Vec<Json> = Vec::new();
    let gens: &Vec<Json> = match recuperacion.obtener("generations") {
        Some(g) => match g.como_lista() {
            Some(l) => l,
            None => &vacia,
        },
        None => &vacia,
    };
    let mut filas: Vec<FilaRecuperacion> = Vec::new();
    let mut mostradas: usize = 0;
    let mut anteriores: usize = 0;
    let mut i: usize = gens.len();
    assert(gens@.subrange(0, gens@.len() as int) =~= gens@);
    while i > 0 && mostradas < 3
        invariant
            i <= gens@.len(),
            mostradas <= 3,
            anteriores <= mostradas,
            filas_recuperacion_spec(*recuperacion, conservadas@) == vista_filas(filas@)
                + filas_spec(gens@.subrange(0, i as int), predeterminada, conservadas@, anteriores as nat, (3 - mostradas) as nat),
        decreases i,
    {
        let ghost pre = gens@.subrange(0, i as int);
        assert(pre.drop_last() =~= gens@.subrange(0, i - 1));
        assert(pre.last() == gens@[i - 1]);
        let g = &gens[i - 1];
        match u32_de(g.obtener("id")) {
            None => {},
            Some(id) => {
                let actual = match g.obtener("current") {
                    Some(c) => c.como_bool() == Some(true),
                    None => false,
                };
                let inicio = predeterminada == Some(id);
                if !actual {
                    anteriores = anteriores + 1;
                }
                let titulo = if actual {
                    copiar("Sistema actual")
                } else if inicio {
                    copiar("Inicio predeterminado")
                } else if anteriores == 1 {
                    copiar("Versión anterior")
                } else {
                    unir2("Versión anterior ", decimal_usize(anteriores).as_str())
                };
                let version: &str = match g.obtener("nixosVersion") {
                    Some(v) => match v.como_texto() {
                        Some(t) => if recortar(t).unicode_len() > 0 {
                            t
                        } else {
                            "NixOS"
                        },
                        None => "NixOS",
                    },
                    None => "NixOS",
                };
                let protegida = actual || inicio || contiene_numero(conservadas, id);
                let detalle = if protegida {
                    unir2(version, " · Conservada para recuperación")
                } else {
                    unir2(version, " · Disponible hasta la próxima limpieza")
                };
                let ghost antes = vista_filas(filas@);
                filas.push(FilaRecuperacion { id, titulo, detalle, actual });
                assert(vista_filas(filas@) =~= antes + seq![(id, titulo_recuperacion(actual, inicio, anteriores as nat), detalle_recuperacion(version_nixos(*g), protegida), actual)]);
                mostradas = mostradas + 1;
            },
        }
        i = i - 1;
    }
    filas
}

pub open spec fn version_actual_texto_spec(idioma: Idioma, conservada: bool) -> Seq<char> {
    if conservada {
        version_actual_conservada_spec(idioma)
    } else {
        version_actual_spec(idioma)
    }
}

/// The label of the running version, noting when it is kept for recovery.
pub fn texto_version_actual(idioma: Idioma, conservada: bool) -> (r: String)
    ensures
        r@ == version_actual_texto_spec(idioma, conservada),
{
    if conservada {
        copiar(version_actual_conservada(idioma))
    } else {
        copiar(version_actual(idioma))
    }
}

/// The label of a recovery version: the running one; otherwise the default
/// start entry or how many versions back it is, and whether it is kept.
pub open spec fn etiqueta_recuperacion_spec(
    idioma: Idioma,
    numero_anterior: usize,
    actual: bool,
    inicio: bool,
    conservada: bool,
) -> Seq<char> {
    if actual {
        etiqueta_actual_spec(idioma)
    } else {
        let base = if inicio {
            etiqueta_inicio_spec(idioma)
        } else if numero_anterior == 1 {
            etiqueta_anterior_spec(idioma)
        } else {
            formato(plantilla_anteriores_spec(idioma), seq![("n"@, decimal(numero_anterior as nat))])
        };
        formato(
            if conservada { plantilla_conservada_spec(idioma) } else { plantilla_eliminada_spec(idioma) },
            seq![("base"@, base)],
        )
    }
}

pub fn etiqueta_version_recuperacion(
    idioma: Idioma,
    numero_anterior: usize,
    actual: bool,
    inicio: bool,
    conservada: bool,
) -> (r: String)
    ensures
        r@ == etiqueta_recuperacion_spec(idioma, numero_anterior, actual, inicio, conservada),
{
    if actual {
        return copiar(etiqueta_actual(idioma));
    }
    let base = if inicio {
        copiar(etiqueta_inicio(idioma))
    } else if numero_anterior == 1 {
        copiar(etiqueta_anterior(idioma))
    } else {
        formatear1(plantilla_anteriores(idioma), "n", decimal_usize(numero_anterior).as_str())
    };
    let plantilla = if conservada { plantilla_conservada(idioma) } else { plantilla_eliminada(idioma) };
    formatear1(plantilla, "base", base.as_str())
}

/// How many versions a cleanup plan lists under `clave` (`delete` or `keep`).
pub open spec fn cuenta_plan(plan: Json, clave: Seq<char>) -> nat {
    match lista_de(obtener(plan, clave)) {
        Some(v) => v.len(),
        None => 0,
    }
}

fn cuenta_plan_exec(plan: &Json, clave: &str) -> (r: usize)
    ensures
        r as nat == cuenta_plan(*plan, clave@),
{
    match plan.obtener(clave) {
        Some(v) => match v.como_lista() {
            Some(l) => l.len(),
            None => 0,
        },
        None => 0,
    }
}

/// What a cleanup row says: the versions it keeps and those it can remove.
pub open spec fn resumen_limpieza_spec(plan: Json, profunda: bool) -> Seq<char> {
    let c = decimal(cuenta_plan(plan, "keep"@));
    let e = decimal(cuenta_plan(plan, "delete"@));
    if profunda {
        "Conserva "@ + c + " versiones protegidas y puede retirar "@ + e + " versiones antiguas adicionales."@
    } else {
        "Conserva "@ + c + " versiones útiles para recuperación y puede retirar "@ + e
            + " versiones antiguas. También recoge referencias sin uso y optimiza el almacén de Nix."@
    }
}

/// A cleanup of the maintenance page: how many versions it removes and the
/// row's description.
pub fn resumen_limpieza(plan: &Json, profunda: bool) -> (r: (usize, String))
    ensures
        r.0 as nat == cuenta_plan(*plan, "delete"@),
        r.1@ == resumen_limpieza_spec(*plan, profunda),
{
    let eliminar = cuenta_plan_exec(plan, "delete");
    let conservar = cuenta_plan_exec(plan, "keep");
    let c = decimal_usize(conservar);
    let e = decimal_usize(eliminar);
    let texto = if profunda {
        let a = unir3("Conserva ", c.as_str(), " versiones protegidas y puede retirar ");
        unir3(a.as_str(), e.as_str(), " versiones antiguas adicionales.")
    } else {
        let a = unir3("Conserva ", c.as_str(), " versiones útiles para recuperación y puede retirar ");
        unir3(a.as_str(), e.as_str(), " versiones antiguas. También recoge referencias sin uso y optimiza el almacén de Nix.")
    };
    (eliminar, texto)
}

/// The question that confirms a cleanup that removes `eliminables` versions.
pub open spec fn pregunta_limpieza_spec(profunda: bool, eliminables: nat) -> Seq<char> {
    if profunda {
        "¿Hacer una limpieza profunda? Korunix conservará las versiones protegidas y retirará "@ + decimal(eliminables)
            + " versiones antiguas que no lo están."@
    } else {
        "¿Limpiar el sistema? Korunix conservará los puntos de recuperación recientes y retirará "@ + decimal(eliminables)
            + " versiones antiguas."@
    }
}

pub fn pregunta_limpieza(profunda: bool, eliminables: usize) -> (r: String)
    ensures
        r@ == pregunta_limpieza_spec(profunda, eliminables as nat),
{
    if profunda {
        unir3(
            "¿Hacer una limpieza profunda? Korunix conservará las versiones protegidas y retirará ",
            decimal_usize(eliminables).as_str(),
            " versiones antiguas que no lo están.",
        )
    } else {
        unir3(
            "¿Limpiar el sistema? Korunix conservará los puntos de recuperación recientes y retirará ",
            decimal_usize(eliminables).as_str(),
            " versiones antiguas.",
        )
    }
}

/// The engine command that runs a cleanup.
pub fn argumentos_limpieza(profunda: bool) -> (r: Vec<String>)
    ensures
        vistas(r@) == seq![if profunda { "clean-all"@ } else { "clean"@ }, "--yes"@, "--json"@],
{
    let mut r: Vec<String> = Vec::new();
    r.push(copiar(if profunda { "clean-all" } else { "clean" }));
    r.push(copiar("--yes"));
    r.push(copiar("--json"));
    assert(vistas(r@) =~= seq![if profunda { "clean-all"@ } else { "clean"@ }, "--yes"@, "--json"@]);
    r
}

/// The engine command that starts a version once at the next boot.
pub fn argumentos_recuperacion(id: u32, plan: bool) -> (r: Vec<String>)
    ensures
        vistas(r@) == seq!["rollback"@, decimal(id as nat), if plan { "--plan"@ } else { "--yes"@ }, "--json"@],
{
    let mut r: Vec<String> = Vec::new();
    r.push(copiar("rollback"));
    r.push(crate::cadena::decimal_u64(id as u64));
    r.push(copiar(if plan { "--plan" } else { "--yes" }));
    r.push(copiar("--json"));
    assert(vistas(r@) =~= seq!["rollback"@, decimal(id as nat), if plan { "--plan"@ } else { "--yes"@ }, "--json"@]);
    r
}

proof fn lema_filas_cupo(gens: Seq<Json>, predeterminada: Option<u32>, conservadas: Seq<u32>, anteriores: nat, cupo: nat)
    ensures
        filas_spec(gens, predeterminada, conservadas, anteriores, cupo).len() <= cupo,
    decreases gens.len(),
{
    if gens.len() > 0 && cupo > 0 {
        let g = gens.last();
        match u32_de_natural(natural_de(obtener(g, "id"@))) {
            None => lema_filas_cupo(gens.drop_last(), predeterminada, conservadas, anteriores, cupo),
            Some(id) => {
                let actual = booleano_de(obtener(g, "current"@)) == Some(true);
                let ant: nat = if actual { anteriores } else { anteriores + 1 };
                lema_filas_cupo(gens.drop_last(), predeterminada, conservadas, ant, (cupo - 1) as nat);
            },
        }
    }
}

/// The recovery list shows at most the three most recent versions.
pub proof fn ley_recuperacion_muestra_tres(recuperacion: Json, conservadas: Seq<u32>)
    ensures
        filas_recuperacion_spec(recuperacion, conservadas).len() <= 3,
{
    let gens = match lista_de(obtener(recuperacion, "generations"@)) {
        Some(v) => v,
        None => Seq::empty(),
    };
    let predeterminada = u32_de_natural(natural_de(obtener(recuperacion, "defaultGeneration"@)));
    lema_filas_cupo(gens, predeterminada, conservadas, 0, 3);
}

/// Whether a recovery row is kept for recovery: the running version, the
/// default boot entry, or one that the cleanup plan keeps.
pub open spec fn fila_conservada(f: (u32, Seq<char>, Seq<char>, bool), predeterminada: Option<u32>, conservadas: Seq<u32>) -> bool {
    f.3 || predeterminada == Some(f.0) || conservadas.contains(f.0)
}

/// How the detail of a recovery row ends.
pub open spec fn sufijo_recuperacion(protegida: bool) -> Seq<char> {
    if protegida {
        " · Conservada para recuperación"@
    } else {
        " · Disponible hasta la próxima limpieza"@
    }
}

/// Whether `s` ends with `t`.
pub open spec fn termina_en(s: Seq<char>, t: Seq<char>) -> bool {
    t.len() <= s.len() && s.subrange(s.len() - t.len(), s.len() as int) == t
}

proof fn lema_filas_conservadas(gens: Seq<Json>, predeterminada: Option<u32>, conservadas: Seq<u32>, anteriores: nat, cupo: nat)
    ensures
        forall|i: int| 0 <= i < filas_spec(gens, predeterminada, conservadas, anteriores, cupo).len()
            ==> termina_en(
                (#[trigger] filas_spec(gens, predeterminada, conservadas, anteriores, cupo)[i]).2,
                sufijo_recuperacion(fila_conservada(filas_spec(gens, predeterminada, conservadas, anteriores, cupo)[i], predeterminada, conservadas)),
            ),
    decreases gens.len(),
{
    if gens.len() > 0 && cupo > 0 {
        let g = gens.last();
        match u32_de_natural(natural_de(obtener(g, "id"@))) {
            None => {
                lema_filas_conservadas(gens.drop_last(), predeterminada, conservadas, anteriores, cupo);
                assert(filas_spec(gens, predeterminada, conservadas, anteriores, cupo)
                    == filas_spec(gens.drop_last(), predeterminada, conservadas, anteriores, cupo));
            },
            Some(id) => {
                let actual = booleano_de(obtener(g, "current"@)) == Some(true);
                let ant: nat = if actual { anteriores } else { anteriores + 1 };
                lema_filas_conservadas(gens.drop_last(), predeterminada, conservadas, ant, (cupo - 1) as nat);
                let resto = filas_spec(gens.drop_last(), predeterminada, conservadas, ant, (cupo - 1) as nat);
                let r = filas_spec(gens, predeterminada, conservadas, anteriores, cupo);
                assert forall|i: int| 0 <= i < r.len()
                    implies termina_en((#[trigger] r[i]).2, sufijo_recuperacion(fila_conservada(r[i], predeterminada, conservadas))) by {
                    if i == 0 {
                        let p = fila_conservada(r[0], predeterminada, conservadas);
                        let d = r[0].2;
                        assert(d == version_nixos(g) + sufijo_recuperacion(p));
                        assert(d.subrange(d.len() - sufijo_recuperacion(p).len(), d.len() as int) =~= sufijo_recuperacion(p));
                    } else {
                        assert(r[i] == resto[i - 1]);
                    }
                }
            },
        }
    }
}

/// Each recovery row says whether it is kept: its detail ends in
/// "Conservada para recuperación" when the row is the running version, the
/// default boot entry or one that the cleanup plan keeps, and in
/// "Disponible hasta la próxima limpieza" otherwise.
pub proof fn ley_recuperacion_dice_si_se_conserva(recuperacion: Json, conservadas: Seq<u32>)
    ensures
        forall|i: int| 0 <= i < filas_recuperacion_spec(recuperacion, conservadas).len()
            ==> termina_en(
                (#[trigger] filas_recuperacion_spec(recuperacion, conservadas)[i]).2,
                sufijo_recuperacion(fila_conservada(
                    filas_recuperacion_spec(recuperacion, conservadas)[i],
                    u32_de_natural(natural_de(obtener(recuperacion, "defaultGeneration"@))),
                    conservadas,
                )),
            ),
{
    let gens = match lista_de(obtener(recuperacion, "generations"@)) {
        Some(v) => v,
        None => Seq::empty(),
    };
    let predeterminada = u32_de_natural(natural_de(obtener(recuperacion, "defaultGeneration"@)));
    lema_filas_conservadas(gens, predeterminada, conservadas, 0, 3);
}

/// The 32-bit ids of the generations, from the newest (the last one) back;
/// generations without such an id are left out.
pub open spec fn ids_recientes(gens: Seq<Json>) -> Seq<u32>
    decreases gens.len(),
{
    if gens.len() == 0 {
        Seq::empty()
    } else {
        match u32_de_natural(natural_de(obtener(gens.last(), "id"@))) {
            Some(id) => seq![id] + ids_recientes(gens.drop_last()),
            None => ids_recientes(gens.drop_last()),
        }
    }
}

proof fn lema_filas_ids(gens: Seq<Json>, predeterminada: Option<u32>, conservadas: Seq<u32>, anteriores: nat, cupo: nat)
    ensures
        filas_spec(gens, predeterminada, conservadas, anteriores, cupo).len()
            == if ids_recientes(gens).len() < cupo { ids_recientes(gens).len() } else { cupo },
        forall|i: int| 0 <= i < filas_spec(gens, predeterminada, conservadas, anteriores, cupo).len()
            ==> (#[trigger] filas_spec(gens, predeterminada, conservadas, anteriores, cupo)[i]).0 == ids_recientes(gens)[i],
    decreases gens.len(),
{
    if gens.len() > 0 {
        let g = gens.last();
        match u32_de_natural(natural_de(obtener(g, "id"@))) {
            None => {
                lema_filas_ids(gens.drop_last(), predeterminada, conservadas, anteriores, cupo);
                if cupo > 0 {
                    assert(filas_spec(gens, predeterminada, conservadas, anteriores, cupo)
                        == filas_spec(gens.drop_last(), predeterminada, conservadas, anteriores, cupo));
                }
            },
            Some(id) => {
                let actual = booleano_de(obtener(g, "current"@)) == Some(true);
                let ant: nat = if actual { anteriores } else { anteriores + 1 };
                if cupo > 0 {
                    lema_filas_ids(gens.drop_last(), predeterminada, conservadas, ant, (cupo - 1) as nat);
                    let resto = filas_spec(gens.drop_last(), predeterminada, conservadas, ant, (cupo - 1) as nat);
                    let r = filas_spec(gens, predeterminada, conservadas, anteriores, cupo);
                    let ids = ids_recientes(gens);
                    assert(ids == seq![id] + ids_recientes(gens.drop_last()));
                    assert forall|i: int| 0 <= i < r.len() implies (#[trigger] r[i]).0 == ids[i] by {
                        if i > 0 {
                            assert(r[i] == resto[i - 1]);
                        }
                    }
                }
            },
        }
    }
}

/// The maintenance page lists the newest generations that have a 32-bit id,
/// from the newest back: as many as there are, up to three.
pub proof fn ley_recuperacion_muestra_las_mas_recientes(recuperacion: Json, conservadas: Seq<u32>)
    ensures
        ({
            let gens = match lista_de(obtener(recuperacion, "generations"@)) {
                Some(v) => v,
                None => Seq::empty(),
            };
            let ids = ids_recientes(gens);
            let filas = filas_recuperacion_spec(recuperacion, conservadas);
            &&& filas.len() == if ids.len() < 3 { ids.len() } else { 3 }
            &&& forall|i: int| 0 <= i < filas.len() ==> (#[trigger] filas[i]).0 == ids[i]
        }),
{
    let gens = match lista_de(obtener(recuperacion, "generations"@)) {
        Some(v) => v,
        None => Seq::empty(),
    };
    let predeterminada = u32_de_natural(natural_de(obtener(recuperacion, "defaultGeneration"@)));
    lema_filas_ids(gens, predeterminada, conservadas, 0, 3);
}

} // verus!
