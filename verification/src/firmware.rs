//! The firmware page: its status line, the updates offered and the devices
//! that fwupd reports with problems.

use vstd::prelude::*;
use crate::cadena::{copiar, decimal, decimal_usize, recortado, recortar, unir3, vistas};
use crate::json::{Json, apuntar, lista_de, obtener, texto_de};

verus! {

/// The status line of the page (title, detail) for the number of updates
/// and of devices with problems.
pub open spec fn estado_firmware_spec(actualizaciones: nat, problemas: nat) -> (Seq<char>, Seq<char>) {
    if actualizaciones == 0 && problemas == 0 {
        ("El firmware está al día"@, "No hay actualizaciones ni dispositivos de firmware que requieran atención."@)
    } else if actualizaciones > 0 {
        (
            if actualizaciones == 1 { "Hay una actualización de firmware"@ } else { "Hay actualizaciones de firmware"@ },
            decimal(actualizaciones) + seq![' '] + (if actualizaciones == 1 { "actualización"@ } else { "actualizaciones"@ })
                + " disponibles."@,
        )
    } else {
        ("Hay dispositivos de firmware que requieren atención"@, "No hay una actualización disponible ahora, pero fwupd informó de un problema."@)
    }
}

pub fn estado_firmware(actualizaciones: usize, problemas: usize) -> (r: (String, String))
    ensures
        (r.0@, r.1@) == estado_firmware_spec(actualizaciones as nat, problemas as nat),
{
    if actualizaciones == 0 && problemas == 0 {
        (copiar("El firmware está al día"), copiar("No hay actualizaciones ni dispositivos de firmware que requieran atención."))
    } else if actualizaciones > 0 {
        let titulo = if actualizaciones == 1 { "Hay una actualización de firmware" } else { "Hay actualizaciones de firmware" };
        let mut detalle = decimal_usize(actualizaciones);
        detalle.push(' ');
        detalle.append(if actualizaciones == 1 { "actualización" } else { "actualizaciones" });
        detalle.append(" disponibles.");
        (copiar(titulo), detalle)
    } else {
        (copiar("Hay dispositivos de firmware que requieren atención"), copiar("No hay una actualización disponible ahora, pero fwupd informó de un problema."))
    }
}

/// A firmware update offered: its id, its name and `current → target`.
pub struct ActualizacionFirmware {
    pub id: String,
    pub nombre: String,
    pub detalle: String,
}

pub open spec fn vista_actualizacion(a: ActualizacionFirmware) -> (Seq<char>, Seq<char>, Seq<char>) {
    (a.id@, a.nombre@, a.detalle@)
}

pub open spec fn vista_actualizaciones(v: Seq<ActualizacionFirmware>) -> Seq<(Seq<char>, Seq<char>, Seq<char>)> {
    v.map_values(|a: ActualizacionFirmware| vista_actualizacion(a))
}

pub open spec fn texto_o(t: Option<Seq<char>>, defecto: Seq<char>) -> Seq<char> {
    match t {
        Some(v) => v,
        None => defecto,
    }
}

/// An update entry is listed when its `id` is a non-empty text.
pub open spec fn actualizacion_de(u: Json) -> Option<(Seq<char>, Seq<char>, Seq<char>)> {
    let id = texto_o(texto_de(obtener(u, "id"@)), Seq::empty());
    if id.len() == 0 {
        None
    } else {
        let nombre = match texto_de(obtener(u, "name"@)) {
            Some(n) => if recortado(n).len() > 0 { n } else { "Firmware"@ },
            None => "Firmware"@,
        };
        let actual = texto_o(texto_de(obtener(u, "currentVersion"@)), "—"@);
        let objetivo = texto_o(texto_de(apuntar(u, "/releases/0/version"@)), "—"@);
        Some((id, nombre, actual + " → "@ + objetivo))
    }
}

pub open spec fn actualizaciones_de(us: Seq<Json>) -> Seq<(Seq<char>, Seq<char>, Seq<char>)>
    decreases us.len(),
{
    if us.len() == 0 {
        Seq::empty()
    } else {
        match actualizacion_de(us.last()) {
            Some(a) => actualizaciones_de(us.drop_last()).push(a),
            None => actualizaciones_de(us.drop_last()),
        }
    }
}

pub open spec fn lista_o_vacia(j: Option<Json>) -> Seq<Json> {
    match lista_de(j) {
        Some(v) => v,
        None => Seq::empty(),
    }
}

fn texto_o_exec<'a>(j: Option<&'a Json>, defecto: &'a str) -> (r: &'a str)
    ensures
        r@ == texto_o(texto_de(crate::json::valor_de(j)), defecto@),
{
    match j {
        Some(v) => match v.como_texto() {
            Some(t) => t,
            None => defecto,
        },
        None => defecto,
    }
}

/// The updates offered by the firmware report (its `devices`).
pub fn actualizaciones_firmware(datos: &Json) -> (r: Vec<ActualizacionFirmware>)
    ensures
        vista_actualizaciones(r@) == actualizaciones_de(lista_o_vacia(obtener(*datos, "devices"@))),
{
    let mut r: Vec<ActualizacionFirmware> = Vec::new();
    let us = match datos.obtener("devices") {
        Some(d) => match d.como_lista() {
            Some(l) => l,
            None => return r,
        },
        None => return r,
    };
    let mut i: usize = 0;
    while i < us.len()
        invariant
            i <= us@.len(),
            us@ == lista_o_vacia(obtener(*datos, "devices"@)),
            vista_actualizaciones(r@) == actualizaciones_de(us@.subrange(0, i as int)),
        decreases us.len() - i,
    {
        assert(us@.subrange(0, i + 1).drop_last() =~= us@.subrange(0, i as int));
        assert(us@.subrange(0, i + 1).last() == us@[i as int]);
        let u = &us[i];
        proof {
            reveal_strlit("");
        }
        let id = texto_o_exec(u.obtener("id"), "");
        if id.unicode_len() > 0 {
            let nombre: &str = match u.obtener("name") {
                Some(n) => match n.como_texto() {
                    Some(t) => if recortar(t).unicode_len() > 0 { t } else { "Firmware" },
                    None => "Firmware",
                },
                None => "Firmware",
            };
            let actual = texto_o_exec(u.obtener("currentVersion"), "—");
            let objetivo = texto_o_exec(u.apuntar("/releases/0/version"), "—");
            let ghost antes = vista_actualizaciones(r@);
            r.push(ActualizacionFirmware { id: copiar(id), nombre: copiar(nombre), detalle: unir3(actual, " → ", objetivo) });
            assert(vista_actualizaciones(r@) =~= antes.push(actualizacion_de(us@[i as int])->0));
        }
        i = i + 1;
    }
    assert(us@.subrange(0, us@.len() as int) =~= us@);
    r
}

pub open spec fn tiene_problemas(d: Json) -> bool {
    lista_o_vacia(obtener(d, "problems"@)).len() > 0
}

pub open spec fn util(t: Option<Seq<char>>) -> Option<Seq<char>> {
    match t {
        Some(v) => if recortado(v).len() > 0 { Some(v) } else { None },
        None => None,
    }
}

/// The name of a device with problems: its name (unless blank or a dash),
/// its summary, its vendor, or a generic name.
pub open spec fn nombre_problema(d: Json) -> Seq<char> {
    match texto_de(obtener(d, "name"@)) {
        Some(n) if recortado(n).len() > 0 && n != "—"@ => n,
        _ => match util(texto_de(obtener(d, "summary"@))) {
            Some(s) => s,
            None => match util(texto_de(obtener(d, "vendor"@))) {
                Some(v) => v,
                None => "Dispositivo de firmware"@,
            },
        },
    }
}

pub open spec fn problemas_de(ds: Seq<Json>) -> Seq<Seq<char>>
    decreases ds.len(),
{
    if ds.len() == 0 {
        Seq::empty()
    } else if tiene_problemas(ds.last()) {
        problemas_de(ds.drop_last()).push(nombre_problema(ds.last()))
    } else {
        problemas_de(ds.drop_last())
    }
}

fn util_exec<'a>(j: Option<&'a Json>) -> (r: Option<&'a str>)
    ensures
        crate::motor::vista_opcional(r) == util(texto_de(crate::json::valor_de(j))),
{
    match j {
        Some(v) => match v.como_texto() {
            Some(t) => if recortar(t).unicode_len() > 0 { Some(t) } else { None },
            None => None,
        },
        None => None,
    }
}

/// The names of the devices of the device report that have problems.
pub fn problemas_firmware(dispositivos: &Json) -> (r: Vec<String>)
    ensures
        vistas(r@) == problemas_de(lista_o_vacia(obtener(*dispositivos, "devices"@))),
{
    let mut r: Vec<String> = Vec::new();
    let ds = match dispositivos.obtener("devices") {
        Some(d) => match d.como_lista() {
            Some(l) => l,
            None => return r,
        },
        None => return r,
    };
    let mut i: usize = 0;
    while i < ds.len()
        invariant
            i <= ds@.len(),
            ds@ == lista_o_vacia(obtener(*dispositivos, "devices"@)),
            vistas(r@) == problemas_de(ds@.subrange(0, i as int)),
        decreases ds.len() - i,
    {
        assert(ds@.subrange(0, i + 1).drop_last() =~= ds@.subrange(0, i as int));
        assert(ds@.subrange(0, i + 1).last() == ds@[i as int]);
        let d = &ds[i];
        let con_problemas = match d.obtener("problems") {
            Some(p) => match p.como_lista() {
                Some(l) => l.len() > 0,
                None => false,
            },
            None => false,
        };
        if con_problemas {
            let nombre: &str = match d.obtener("name") {
                Some(n) => match n.como_texto() {
                    Some(t) if recortar(t).unicode_len() > 0 && !crate::cadena::iguales(t, "—") => t,
                    _ => match util_exec(d.obtener("summary")) {
                        Some(s) => s,
                        None => match util_exec(d.obtener("vendor")) {
                            Some(v) => v,
                            None => "Dispositivo de firmware",
                        },
                    },
                },
                None => match util_exec(d.obtener("summary")) {
                    Some(s) => s,
                    None => match util_exec(d.obtener("vendor")) {
                        Some(v) => v,
                        None => "Dispositivo de firmware",
                    },
                },
            };
            let ghost antes = vistas(r@);
            r.push(copiar(nombre));
            assert(vistas(r@) =~= antes.push(nombre_problema(ds@[i as int])));
        }
        i = i + 1;
    }
    assert(ds@.subrange(0, ds@.len() as int) =~= ds@);
    r
}

/// The effect that a firmware update plan announces (`immediate` when it
/// says none).
pub open spec fn efecto_plan_spec(plan: Json) -> Seq<char> {
    texto_o(texto_de(obtener(plan, "effect"@)), "immediate"@)
}

pub fn efecto_de_plan(plan: &Json) -> (r: String)
    ensures
        r@ == efecto_plan_spec(*plan),
{
    copiar(texto_o_exec(plan.obtener("effect"), "immediate"))
}

/// The engine command that installs a firmware update, as a plan or for real.
pub fn argumentos_firmware(id: &str, plan: bool) -> (r: Vec<String>)
    ensures
        vistas(r@) == seq!["firmware"@, "update"@, id@, if plan { "--plan"@ } else { "--yes"@ }, "--json"@],
{
    let mut r: Vec<String> = Vec::new();
    r.push(copiar("firmware"));
    r.push(copiar("update"));
    r.push(copiar(id));
    r.push(copiar(if plan { "--plan" } else { "--yes" }));
    r.push(copiar("--json"));
    assert(vistas(r@) =~= seq!["firmware"@, "update"@, id@, if plan { "--plan"@ } else { "--yes"@ }, "--json"@]);
    r
}

/// The engine command that checks again for firmware updates.
pub fn argumentos_refrescar_firmware() -> (r: Vec<String>)
    ensures
        vistas(r@) == seq!["firmware"@, "refresh"@, "--yes"@, "--json"@],
{
    let mut r: Vec<String> = Vec::new();
    r.push(copiar("firmware"));
    r.push(copiar("refresh"));
    r.push(copiar("--yes"));
    r.push(copiar("--json"));
    assert(vistas(r@) =~= seq!["firmware"@, "refresh"@, "--yes"@, "--json"@]);
    r
}

} // verus!
