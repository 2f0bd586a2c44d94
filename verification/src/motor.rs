//! Talking to the Korunix engine: which progress stage an operation starts
//! with, how the engine's progress lines and details are read, and how a
//! planned command becomes the confirmed one.

use vstd::prelude::*;
use crate::cadena::{
    copiar, empieza_con, iguales, leer_u8, leer_u8_exec, posicion, primera_posicion, recortado,
    recortar, unidos, unir_con, vistas, aparece_en_exec,
};
use crate::aplicaciones::cambio_roles_spec;

verus! {

pub open spec fn es(a: Seq<char>, lit: Seq<char>) -> bool {
    a == lit
}

/// The progress stage shown as soon as an engine command starts.
pub open spec fn etapa_inicial_spec(a: Seq<Seq<char>>) -> Option<Seq<char>> {
    if a.len() == 3 && a[0] == "channel"@ && a[2] == "--yes"@ {
        Some("changing_channel"@)
    } else if a.len() == 2 && a[0] == "update"@ && a[1] == "--json"@ {
        Some("updating_catalog"@)
    } else if a.len() == 3 && (a[0] == "clean"@ || a[0] == "clean-all"@) && a[1] == "--yes"@ && a[2] == "--json"@ {
        Some("cleaning_versions"@)
    } else if a.len() == 5 && a[0] == "storage"@ && a[1] == "eject"@ && a[3] == "--yes"@ && a[4] == "--json"@ {
        Some("unmounting"@)
    } else if a.len() == 6 && a[0] == "storage"@ && a[1] == "eject"@ && a[3] == "--heavy"@ && a[4] == "--yes"@ && a[5] == "--json"@ {
        Some("saving_data"@)
    } else if a.len() == 4 && a[0] == "firmware"@ && a[1] == "refresh"@ && a[2] == "--yes"@ && a[3] == "--json"@ {
        Some("refreshing_firmware"@)
    } else if a.len() == 5 && a[0] == "firmware"@ && a[1] == "update"@ && a[3] == "--yes"@ && a[4] == "--json"@ {
        Some("installing_firmware"@)
    } else if a.len() >= 3 && a[0] == "media"@ && a[1] == "audio"@ && a[2] == "test-output"@ {
        Some("testing_sound"@)
    } else if a.len() == 4 && a[0] == "rollback"@ && a[2] == "--yes"@ && a[3] == "--json"@ {
        Some("scheduling_recovery"@)
    } else {
        None
    }
}

pub open spec fn vista_opcional(r: Option<&str>) -> Option<Seq<char>> {
    match r {
        Some(t) => Some(t@),
        None => None,
    }
}

pub fn etapa_inicial_motor(argumentos: &[&str]) -> (r: Option<&'static str>)
    ensures
        vista_opcional(r) == etapa_inicial_spec(argumentos@.map_values(|t: &str| t@)),
{
    let ghost a = argumentos@.map_values(|t: &str| t@);
    let n = argumentos.len();
    assert(forall|i: int| 0 <= i < n ==> #[trigger] a[i] == argumentos@[i]@);
    if n == 3 && iguales(argumentos[0], "channel") && iguales(argumentos[2], "--yes") {
        Some("changing_channel")
    } else if n == 2 && iguales(argumentos[0], "update") && iguales(argumentos[1], "--json") {
        Some("updating_catalog")
    } else if n == 3 && (iguales(argumentos[0], "clean") || iguales(argumentos[0], "clean-all"))
        && iguales(argumentos[1], "--yes") && iguales(argumentos[2], "--json") {
        Some("cleaning_versions")
    } else if n == 5 && iguales(argumentos[0], "storage") && iguales(argumentos[1], "eject")
        && iguales(argumentos[3], "--yes") && iguales(argumentos[4], "--json") {
        Some("unmounting")
    } else if n == 6 && iguales(argumentos[0], "storage") && iguales(argumentos[1], "eject")
        && iguales(argumentos[3], "--heavy") && iguales(argumentos[4], "--yes") && iguales(argumentos[5], "--json") {
        Some("saving_data")
    } else if n == 4 && iguales(argumentos[0], "firmware") && iguales(argumentos[1], "refresh")
        && iguales(argumentos[2], "--yes") && iguales(argumentos[3], "--json") {
        Some("refreshing_firmware")
    } else if n == 5 && iguales(argumentos[0], "firmware") && iguales(argumentos[1], "update")
        && iguales(argumentos[3], "--yes") && iguales(argumentos[4], "--json") {
        Some("installing_firmware")
    } else if n >= 3 && iguales(argumentos[0], "media") && iguales(argumentos[1], "audio")
        && iguales(argumentos[2], "test-output") {
        Some("testing_sound")
    } else if n == 4 && iguales(argumentos[0], "rollback") && iguales(argumentos[2], "--yes")
        && iguales(argumentos[3], "--json") {
        Some("scheduling_recovery")
    } else {
        None
    }
}

/// The prefix that marks an engine progress line on its error output.
pub open spec fn prefijo_progreso() -> Seq<char> {
    seq!['K', 'O', 'R', 'U', 'N', 'I', 'X', '_', 'P', 'R', 'O', 'G', 'R', 'E', 'S', 'S', '\t']
}

/// A progress line `KORUNIX_PROGRESS<TAB>percent<TAB>stage`: the percent
/// must read as a `u8`; the stage is everything after the second tab.
pub open spec fn progreso_spec(linea: Seq<char>) -> Option<(u8, Seq<char>)> {
    let p = prefijo_progreso();
    if empieza_con(linea, p) {
        let resto = linea.subrange(p.len() as int, linea.len() as int);
        match primera_posicion(resto, '\t') {
            Some(i) => match leer_u8(resto.subrange(0, i)) {
                Some(n) => Some((n, resto.subrange(i + 1, resto.len() as int))),
                None => None,
            },
            None => None,
        }
    } else {
        None
    }
}

pub open spec fn vista_progreso(r: Option<(u8, String)>) -> Option<(u8, Seq<char>)> {
    match r {
        Some((n, s)) => Some((n, s@)),
        None => None,
    }
}

pub fn leer_progreso(linea: &str) -> (r: Option<(u8, String)>)
    ensures
        vista_progreso(r) == progreso_spec(linea@),
{
    let prefijo = "KORUNIX_PROGRESS\t";
    proof {
        reveal_strlit("KORUNIX_PROGRESS\t");
        assert(prefijo@ =~= prefijo_progreso());
    }
    if !aparece_en_exec(linea, prefijo, 0) {
        return None;
    }
    let n = linea.unicode_len();
    let m = prefijo.unicode_len();
    let resto = linea.substring_char(m, n);
    match posicion(resto, '\t') {
        Some(i) => {
            proof {
                crate::cadena::lema_primera_posicion(resto@, '\t');
            }
            let k = resto.unicode_len();
            let cifras = resto.substring_char(0, i);
            match leer_u8_exec(cifras) {
                Some(p) => Some((p, copiar(resto.substring_char(i + 1, k)))),
                None => None,
            }
        },
        None => None,
    }
}

/// The engine's details keep the last 80 non-blank lines.
pub open spec fn detalles_tras(detalles: Seq<Seq<char>>, linea: Seq<char>) -> Seq<Seq<char>> {
    if recortado(linea).len() == 0 {
        detalles
    } else {
        let nuevos = detalles.push(linea);
        if nuevos.len() > 80 {
            nuevos.drop_first()
        } else {
            nuevos
        }
    }
}

pub fn anotar_detalle(detalles: &mut Vec<String>, linea: &str)
    ensures
        vistas(final(detalles)@) == detalles_tras(vistas(old(detalles)@), linea@),
{
    if recortar(linea).unicode_len() > 0 {
        detalles.push(copiar(linea));
        assert(vistas(detalles@) =~= vistas(old(detalles)@).push(linea@));
        if detalles.len() > 80 {
            let ghost antes = vistas(detalles@);
            let _ = detalles.remove(0);
            assert(vistas(detalles@) =~= antes.drop_first());
        }
    }
}

/// What a failed engine run reports: its details, or a generic message.
pub open spec fn mensaje_error_spec(detalles: Seq<Seq<char>>) -> Seq<char> {
    if detalles.len() == 0 {
        "El motor terminó con error."@
    } else {
        unidos(detalles, "\n"@)
    }
}

pub fn mensaje_error_motor(detalles: &Vec<String>) -> (r: String)
    ensures
        r@ == mensaje_error_spec(vistas(detalles@)),
{
    if detalles.len() == 0 {
        copiar("El motor terminó con error.")
    } else {
        unir_con(detalles, "\n")
    }
}

/// The confirmed form of a planned command: every `--plan` removed and
/// `--yes` placed before the last argument.
pub open spec fn sin_plan(a: Seq<Seq<char>>) -> Seq<Seq<char>>
    decreases a.len(),
{
    if a.len() == 0 {
        Seq::empty()
    } else if a.last() == "--plan"@ {
        sin_plan(a.drop_last())
    } else {
        sin_plan(a.drop_last()).push(a.last())
    }
}

pub open spec fn confirmados_spec(plan: Seq<Seq<char>>) -> Seq<Seq<char>> {
    let s = sin_plan(plan);
    s.subrange(0, s.len() - 1).push("--yes"@).push(s.last())
}

/// The planned command must hold an argument besides `--plan` (`Vec::insert`
/// before the last one needs a last one).
pub fn argumentos_confirmados(plan: &[String]) -> (r: Vec<String>)
    requires
        sin_plan(vistas(plan@)).len() > 0,
    ensures
        vistas(r@) == confirmados_spec(vistas(plan@)),
{
    let ghost p = vistas(plan@);
    let mut r: Vec<String> = Vec::new();
    let mut i: usize = 0;
    while i < plan.len()
        invariant
            i <= plan@.len(),
            p == vistas(plan@),
            vistas(r@) == sin_plan(p.subrange(0, i as int)),
        decreases plan.len() - i,
    {
        assert(p.subrange(0, i + 1).drop_last() =~= p.subrange(0, i as int));
        assert(p.subrange(0, i + 1).last() == plan@[i as int]@);
        if !iguales(plan[i].as_str(), "--plan") {
            let ghost antes = vistas(r@);
            r.push(copiar(plan[i].as_str()));
            assert(vistas(r@) =~= antes.push(plan@[i as int]@));
        }
        i = i + 1;
    }
    assert(p.subrange(0, p.len() as int) =~= p);
    let ghost s = vistas(r@);
    let ultimo = r.len() - 1;
    r.insert(ultimo, copiar("--yes"));
    assert(vistas(r@) =~= s.subrange(0, s.len() - 1).push("--yes"@).push(s.last()));
    r
}

/// The percentage shown by the progress bar, at most 100, and its label.
pub open spec fn etiqueta_porcentaje_spec(p: u8) -> (u8, Seq<char>) {
    let q: u8 = if p > 100 { 100 } else { p };
    (q, crate::cadena::decimal(q as nat) + seq!['%'])
}

pub fn etiqueta_porcentaje(p: u8) -> (r: (u8, String))
    ensures
        r.0 == etiqueta_porcentaje_spec(p).0,
        r.1@ == etiqueta_porcentaje_spec(p).1,
{
    let q: u8 = if p > 100 { 100 } else { p };
    let mut s = crate::cadena::decimal_u64(q as u64);
    s.push('%');
    (q, s)
}

proof fn lema_sin_plan_concat(a: Seq<Seq<char>>, b: Seq<Seq<char>>)
    ensures
        sin_plan(a + b) == sin_plan(a) + sin_plan(b),
    decreases b.len(),
{
    if b.len() == 0 {
        assert(a + b =~= a);
        assert(sin_plan(a) + sin_plan(b) =~= sin_plan(a));
    } else {
        lema_sin_plan_concat(a, b.drop_last());
        assert((a + b).drop_last() =~= a + b.drop_last());
        assert((a + b).last() == b.last());
        if b.last() != "--plan"@ {
            assert(sin_plan(a) + sin_plan(b.drop_last()).push(b.last())
                =~= (sin_plan(a) + sin_plan(b.drop_last())).push(b.last()));
        }
    }
}

proof fn lema_sin_plan_identidad(a: Seq<Seq<char>>)
    requires
        forall|i: int| 0 <= i < a.len() ==> #[trigger] a[i] != "--plan"@,
    ensures
        sin_plan(a) == a,
    decreases a.len(),
{
    if a.len() > 0 {
        lema_sin_plan_identidad(a.drop_last());
        assert(a.drop_last().push(a.last()) =~= a);
    }
}

/// Confirming a planned change of default applications runs exactly the
/// confirmed change, as long as no value of the change is itself `--plan`.
pub proof fn ley_confirmar_plan_de_roles(
    persona: Seq<char>,
    browser_antes: Option<Seq<char>>,
    browser_despues: Option<Seq<char>>,
    editor_antes: Option<Seq<char>>,
    editor_despues: Option<Seq<char>>,
)
    requires
        persona != "--plan"@,
        browser_despues != Some("--plan"@),
        editor_despues != Some("--plan"@),
    ensures
        cambio_roles_spec(persona, browser_antes, browser_despues, editor_antes, editor_despues, true) matches Some(plan)
            ==> sin_plan(plan).len() > 0 && cambio_roles_spec(
            persona,
            browser_antes,
            browser_despues,
            editor_antes,
            editor_despues,
            false,
        ) == Some(confirmados_spec(plan)),
{
    reveal_strlit("--plan");
    reveal_strlit("--yes");
    reveal_strlit("--json");
    reveal_strlit("defaults");
    reveal_strlit("set");
    reveal_strlit("--person");
    reveal_strlit("--browser");
    reveal_strlit("--plasma-text-editor");
    assert("--plan"@.len() == 6);
    assert("--json"@.len() == 6 && "--json"@[2] == 'j' && "--plan"@[2] == 'p');
    assert("--yes"@.len() == 5);
    assert("defaults"@.len() == 8);
    assert("set"@.len() == 3);
    assert("--person"@.len() == 8);
    assert("--browser"@.len() == 9);
    assert("--plasma-text-editor"@.len() == 20);
    let r = cambio_roles_spec(persona, browser_antes, browser_despues, editor_antes, editor_despues, true);
    if r is Some {
        let plan = r->0;
        let base = seq!["defaults"@, "set"@, "--person"@, persona];
        let n = if browser_antes != browser_despues && browser_despues is Some {
            seq!["--browser"@, browser_despues->0]
        } else {
            Seq::<Seq<char>>::empty()
        };
        let e = if editor_antes != editor_despues && editor_despues is Some {
            seq!["--plasma-text-editor"@, editor_despues->0]
        } else {
            Seq::<Seq<char>>::empty()
        };
        let cuerpo = base + n + e;
        assert(forall|i: int| 0 <= i < cuerpo.len() ==> #[trigger] cuerpo[i] != "--plan"@);
        lema_sin_plan_identidad(cuerpo);
        lema_sin_plan_identidad(seq!["--json"@]);
        assert(plan == cuerpo + seq!["--plan"@] + seq!["--json"@]);
        lema_sin_plan_concat(cuerpo + seq!["--plan"@], seq!["--json"@]);
        lema_sin_plan_concat(cuerpo, seq!["--plan"@]);
        assert(sin_plan(seq!["--plan"@]) =~= Seq::<Seq<char>>::empty()) by {
            assert(seq!["--plan"@].drop_last() =~= Seq::<Seq<char>>::empty());
            assert(seq!["--plan"@].last() == "--plan"@);
            assert(sin_plan(Seq::<Seq<char>>::empty()) == Seq::<Seq<char>>::empty());
        }
        let s = sin_plan(plan);
        assert(s =~= cuerpo + seq!["--json"@]);
        assert(confirmados_spec(plan) =~= cuerpo + seq!["--yes"@, "--json"@]);
    }
}

/// The prefix that marks a microphone level line on the meter's error output.
pub open spec fn prefijo_nivel() -> Seq<char> {
    seq!['K', 'O', 'R', 'U', 'N', 'I', 'X', '_', 'M', 'I', 'C', '_', 'L', 'E', 'V', 'E', 'L', '\t']
}

/// A level line `KORUNIX_MIC_LEVEL<TAB>percent`: the percent, trimmed, must
/// read as a `u8`; levels above 100 count as 100.
pub open spec fn nivel_spec(linea: Seq<char>) -> Option<u8> {
    let p = prefijo_nivel();
    if empieza_con(linea, p) {
        match leer_u8(recortado(linea.subrange(p.len() as int, linea.len() as int))) {
            Some(n) => Some(if n > 100 { 100u8 } else { n }),
            None => None,
        }
    } else {
        None
    }
}

pub fn leer_nivel_microfono(linea: &str) -> (r: Option<u8>)
    ensures
        r == nivel_spec(linea@),
{
    let prefijo = "KORUNIX_MIC_LEVEL\t";
    proof {
        reveal_strlit("KORUNIX_MIC_LEVEL\t");
        assert(prefijo@ =~= prefijo_nivel());
    }
    if !aparece_en_exec(linea, prefijo, 0) {
        return None;
    }
    let resto = linea.substring_char(prefijo.unicode_len(), linea.unicode_len());
    match leer_u8_exec(recortar(resto)) {
        Some(n) => Some(if n > 100 { 100 } else { n }),
        None => None,
    }
}

/// How a microphone measurement ends: it failed only when the meter failed
/// without reporting any level; then its details say why, or a generic
/// message does.
pub open spec fn medicion_spec(exito: bool, hubo_nivel: bool, detalles: Seq<Seq<char>>) -> Result<(), Seq<char>> {
    if !exito && !hubo_nivel {
        Err(if detalles.len() == 0 {
            "No se pudo medir el micrófono."@
        } else {
            unidos(detalles, "\n"@)
        })
    } else {
        Ok(())
    }
}

pub fn resultado_medicion(exito: bool, hubo_nivel: bool, detalles: &Vec<String>) -> (r: Result<(), String>)
    ensures
        match r {
            Ok(()) => medicion_spec(exito, hubo_nivel, vistas(detalles@)) is Ok,
            Err(e) => medicion_spec(exito, hubo_nivel, vistas(detalles@)) == Err::<(), Seq<char>>(e@),
        },
{
    if !exito && !hubo_nivel {
        if detalles.len() == 0 {
            Err(copiar("No se pudo medir el micrófono."))
        } else {
            Err(unir_con(detalles, "\n"))
        }
    } else {
        Ok(())
    }
}

/// How an engine run ends: its output, trimmed, when it succeeded; else the
/// message of its details.
pub open spec fn resultado_motor_spec(exito: bool, salida: Seq<char>, detalles: Seq<Seq<char>>) -> Result<Seq<char>, Seq<char>> {
    if exito {
        Ok(recortado(salida))
    } else {
        Err(mensaje_error_spec(detalles))
    }
}

pub fn resultado_motor(exito: bool, salida: &str, detalles: &Vec<String>) -> (r: Result<String, String>)
    ensures
        match r {
            Ok(s) => resultado_motor_spec(exito, salida@, vistas(detalles@)) == Ok::<Seq<char>, Seq<char>>(s@),
            Err(e) => resultado_motor_spec(exito, salida@, vistas(detalles@)) == Err::<Seq<char>, Seq<char>>(e@),
        },
{
    if exito {
        Ok(copiar(recortar(salida)))
    } else {
        Err(mensaje_error_motor(detalles))
    }
}

/// Media operations run without locking the window.
pub open spec fn es_multimedia_spec(argumentos: Seq<Seq<char>>) -> bool {
    argumentos.len() > 0 && argumentos[0] == "media"@
}

pub fn es_operacion_multimedia(argumentos: &[&str]) -> (r: bool)
    ensures
        r == es_multimedia_spec(argumentos@.map_values(|a: &str| a@)),
{
    argumentos.len() > 0 && iguales(argumentos[0], "media")
}

/// The engine's details never hold more than 80 lines, and a line that is
/// not blank is always kept as the newest.
pub proof fn ley_detalles_acotados(detalles: Seq<Seq<char>>, linea: Seq<char>)
    requires
        detalles.len() <= 80,
    ensures
        detalles_tras(detalles, linea).len() <= 80,
        recortado(linea).len() > 0 ==> detalles_tras(detalles, linea).last() == linea,
        recortado(linea).len() == 0 ==> detalles_tras(detalles, linea) == detalles,
{
}

} // verus!
