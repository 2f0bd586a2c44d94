//! The storage page: the drives, how they are described, and the commands
//! that eject one.

use vstd::prelude::*;
use crate::cadena::{copiar, recortado, recortar, unir3, vistas};
use crate::json::{Json, booleano_de, lista_de, obtener, texto_de};
use crate::hardware::{tamano_almacenamiento_humano, tamano_spec};

verus! {

/// One drive as the page lists it.
pub struct UnidadAlmacenamiento {
    pub ruta: String,
    pub modelo: String,
    pub detalle: String,
    pub extraible: bool,
}

pub open spec fn vista_unidad(u: UnidadAlmacenamiento) -> (Seq<char>, Seq<char>, Seq<char>, bool) {
    (u.ruta@, u.modelo@, u.detalle@, u.extraible)
}

pub open spec fn vista_unidades(v: Seq<UnidadAlmacenamiento>) -> Seq<(Seq<char>, Seq<char>, Seq<char>, bool)> {
    v.map_values(|u: UnidadAlmacenamiento| vista_unidad(u))
}

pub open spec fn texto_o(t: Option<Seq<char>>, defecto: Seq<char>) -> Seq<char> {
    match t {
        Some(v) => v,
        None => defecto,
    }
}

/// Whether a mount point list has a mount point that is not blank.
pub open spec fn montada(v: Seq<Json>) -> bool {
    exists|i: int| 0 <= i < v.len() && #[trigger] punto_util(v[i])
}

pub open spec fn punto_util(j: Json) -> bool {
    match j {
        Json::Texto(t) => recortado(t@).len() > 0,
        _ => false,
    }
}

pub open spec fn estado_unidad(extraible: bool, montada: bool) -> Seq<char> {
    if extraible {
        if montada {
            "Extraíble · Disponible ahora"@
        } else {
            "Extraíble · No está montada"@
        }
    } else if montada {
        "Interna · Disponible ahora"@
    } else {
        "Interna"@
    }
}

pub open spec fn es_extraible(d: Json) -> bool {
    booleano_de(obtener(d, "removable"@)) == Some(true)
}

pub open spec fn esta_montada(d: Json) -> bool {
    match lista_de(obtener(d, "mountPoints"@)) {
        Some(v) => montada(v),
        None => false,
    }
}

/// A drive: its device path, its model (the path when there is none), its
/// size and whether it is removable and mounted.
pub open spec fn unidad_spec(d: Json) -> (Seq<char>, Seq<char>, Seq<char>, bool) {
    let ruta = texto_o(texto_de(obtener(d, "device"@)), "—"@);
    let modelo = match texto_de(obtener(d, "model"@)) {
        Some(m) => if recortado(m).len() > 0 { m } else { ruta },
        None => ruta,
    };
    let tamano = tamano_spec(texto_o(texto_de(obtener(d, "size"@)), "—"@));
    (ruta, modelo, tamano + " · "@ + estado_unidad(es_extraible(d), esta_montada(d)), es_extraible(d))
}

pub open spec fn unidades_de(ds: Seq<Json>) -> Seq<(Seq<char>, Seq<char>, Seq<char>, bool)>
    decreases ds.len(),
{
    if ds.len() == 0 {
        Seq::empty()
    } else {
        unidades_de(ds.drop_last()).push(unidad_spec(ds.last()))
    }
}

pub open spec fn dispositivos_de(datos: Json) -> Seq<Json> {
    match lista_de(obtener(datos, "devices"@)) {
        Some(v) => v,
        None => Seq::empty(),
    }
}

/// The size reading of a drive splits its text in bytes before the last
/// character: that text must end in ASCII.
pub open spec fn tamano_legible(d: Json) -> bool {
    let t = recortado(texto_o(texto_de(obtener(d, "size"@)), "—"@));
    t.len() == 0 || (t.last() as u32) < 128
}

fn punto_util_exec(j: &Json) -> (r: bool)
    ensures
        r == punto_util(*j),
{
    match j {
        Json::Texto(t) => recortar(t.as_str()).unicode_len() > 0,
        _ => false,
    }
}

fn esta_montada_exec(d: &Json) -> (r: bool)
    ensures
        r == esta_montada(*d),
{
    let v = match d.obtener("mountPoints") {
        Some(m) => match m.como_lista() {
            Some(l) => l,
            None => return false,
        },
        None => return false,
    };
    let mut i: usize = 0;
    while i < v.len()
        invariant
            i <= v@.len(),
            lista_de(obtener(*d, "mountPoints"@)) == Some(v@),
            forall|k: int| 0 <= k < i ==> !#[trigger] punto_util(v@[k]),
        decreases v.len() - i,
    {
        if punto_util_exec(&v[i]) {
            assert(punto_util(v@[i as int]));
            return true;
        }
        i = i + 1;
    }
    false
}

fn texto_miembro_o<'a>(d: &'a Json, clave: &str, defecto: &'a str) -> (r: &'a str)
    ensures
        r@ == texto_o(texto_de(obtener(*d, clave@)), defecto@),
{
    match d.obtener(clave) {
        Some(v) => match v.como_texto() {
            Some(t) => t,
            None => defecto,
        },
        None => defecto,
    }
}

/// Whether every drive of the storage report has a size that can be read:
/// what `unidades_almacenamiento` needs of its report.
pub fn tamanos_legibles(datos: &Json) -> (r: bool)
    ensures
        r == forall|i: int| 0 <= i < dispositivos_de(*datos).len() ==> tamano_legible(#[trigger] dispositivos_de(*datos)[i]),
{
    let ds = match datos.obtener("devices") {
        Some(d) => match d.como_lista() {
            Some(l) => l,
            None => return true,
        },
        None => return true,
    };
    let mut i: usize = 0;
    while i < ds.len()
        invariant
            i <= ds@.len(),
            ds@ == dispositivos_de(*datos),
            forall|k: int| 0 <= k < i ==> tamano_legible(#[trigger] ds@[k]),
        decreases ds.len() - i,
    {
        let t = recortar(texto_miembro_o(&ds[i], "size", "—"));
        let n = t.unicode_len();
        if n > 0 && (t.get_char(n - 1) as u32) >= 128 {
            assert(!tamano_legible(ds@[i as int]));
            return false;
        }
        i = i + 1;
    }
    true
}

/// The drives of the storage report, in order.
pub fn unidades_almacenamiento(datos: &Json) -> (r: Vec<UnidadAlmacenamiento>)
    requires
        forall|i: int| 0 <= i < dispositivos_de(*datos).len() ==> tamano_legible(#[trigger] dispositivos_de(*datos)[i]),
    ensures
        vista_unidades(r@) == unidades_de(dispositivos_de(*datos)),
{
    let mut r: Vec<UnidadAlmacenamiento> = Vec::new();
    let ds = match datos.obtener("devices") {
        Some(d) => match d.como_lista() {
            Some(l) => l,
            None => return r,
        },
        None => return r,
    };
    let mut i: usize = 0;
    while i < ds.len()
        invariant
            i <= ds@.len(),
            ds@ == dispositivos_de(*datos),
            forall|k: int| 0 <= k < ds@.len() ==> tamano_legible(#[trigger] ds@[k]),
            vista_unidades(r@) == unidades_de(ds@.subrange(0, i as int)),
        decreases ds.len() - i,
    {
        assert(ds@.subrange(0, i + 1).drop_last() =~= ds@.subrange(0, i as int));
        assert(ds@.subrange(0, i + 1).last() == ds@[i as int]);
        let d = &ds[i];
        assert(tamano_legible(ds@[i as int]));
        let ruta = texto_miembro_o(d, "device", "—");
        let modelo: &str = match d.obtener("model") {
            Some(m) => match m.como_texto() {
                Some(t) => if recortar(t).unicode_len() > 0 { t } else { ruta },
                None => ruta,
            },
            None => ruta,
        };
        let tamano = tamano_almacenamiento_humano(texto_miembro_o(d, "size", "—"));
        let extraible = match d.obtener("removable") {
            Some(b) => b.como_bool() == Some(true),
            None => false,
        };
        let montada = esta_montada_exec(d);
        let estado: &str = if extraible {
            if montada { "Extraíble · Disponible ahora" } else { "Extraíble · No está montada" }
        } else if montada {
            "Interna · Disponible ahora"
        } else {
            "Interna"
        };
        let detalle = unir3(tamano.as_str(), " · ", estado);
        let ghost antes = vista_unidades(r@);
        r.push(UnidadAlmacenamiento { ruta: copiar(ruta), modelo: copiar(modelo), detalle, extraible });
        assert(vista_unidades(r@) =~= antes.push(unidad_spec(ds@[i as int])));
        i = i + 1;
    }
    assert(ds@.subrange(0, ds@.len() as int) =~= ds@);
    r
}

/// Whether any drive is removable (the page then offers the heavy eject).
pub fn hay_extraibles(datos: &Json) -> (r: bool)
    ensures
        r == exists|i: int| 0 <= i < dispositivos_de(*datos).len() && #[trigger] es_extraible(dispositivos_de(*datos)[i]),
{
    let ds = match datos.obtener("devices") {
        Some(d) => match d.como_lista() {
            Some(l) => l,
            None => return false,
        },
        None => return false,
    };
    let mut i: usize = 0;
    while i < ds.len()
        invariant
            i <= ds@.len(),
            ds@ == dispositivos_de(*datos),
            forall|k: int| 0 <= k < i ==> !#[trigger] es_extraible(ds@[k]),
        decreases ds.len() - i,
    {
        let e = match ds[i].obtener("removable") {
            Some(b) => b.como_bool() == Some(true),
            None => false,
        };
        if e {
            assert(es_extraible(ds@[i as int]));
            return true;
        }
        i = i + 1;
    }
    false
}

/// The engine command that ejects a drive, heavy or not, as a plan or for
/// real.
pub open spec fn expulsion_spec(ruta: Seq<char>, pesada: bool, plan: bool) -> Seq<Seq<char>> {
    seq!["storage"@, "eject"@, ruta] + (if pesada { seq!["--heavy"@] } else { Seq::empty() })
        + seq![if plan { "--plan"@ } else { "--yes"@ }, "--json"@]
}

pub fn argumentos_expulsion(ruta: &str, pesada: bool, plan: bool) -> (r: Vec<String>)
    ensures
        vistas(r@) == expulsion_spec(ruta@, pesada, plan),
{
    let mut r: Vec<String> = Vec::new();
    r.push(copiar("storage"));
    r.push(copiar("eject"));
    r.push(copiar(ruta));
    if pesada {
        r.push(copiar("--heavy"));
    }
    r.push(copiar(if plan { "--plan" } else { "--yes" }));
    r.push(copiar("--json"));
    assert(vistas(r@) =~= expulsion_spec(ruta@, pesada, plan));
    r
}

/// The question that confirms an eject on the storage page.
pub open spec fn pregunta_expulsion_spec(pesada: bool) -> Seq<char> {
    if pesada {
        "¿Expulsar esta unidad? Korunix esperará primero a que terminen de escribirse los datos pendientes y solo entonces la apagará."@
    } else {
        "¿Expulsar esta unidad de forma segura? Korunix la desmontará y apagará antes de indicar que puede desconectarse."@
    }
}

pub fn pregunta_expulsion(pesada: bool) -> (r: &'static str)
    ensures
        r@ == pregunta_expulsion_spec(pesada),
{
    if pesada {
        "¿Expulsar esta unidad? Korunix esperará primero a que terminen de escribirse los datos pendientes y solo entonces la apagará."
    } else {
        "¿Expulsar esta unidad de forma segura? Korunix la desmontará y apagará antes de indicar que puede desconectarse."
    }
}

} // verus!
