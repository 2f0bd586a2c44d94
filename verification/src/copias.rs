//! The backups and history page: the state of the portable backup, the
//! recent activity, and the engine commands that export and restore.

use vstd::prelude::*;
use crate::cadena::{copiar, decimal, decimal_usize, recortado, recortar, unir2, unir3, vistas};
use crate::json::{Json, lista_de, natural_de, obtener, texto_de};
use crate::resumen::{tiempo_relativo, tiempo_relativo_desde, ultima_copia_portable, ultima_copia_spec};

verus! {

/// What the page says of the last portable backup at time `ahora`.
pub open spec fn estado_copia_spec(historial: Json, ahora: u64) -> Seq<char> {
    match ultima_copia_spec(historial) {
        Some(t) => tiempo_relativo(t, ahora) + " · No incluye contraseñas ni credenciales."@,
        None => "Todavía no has creado una copia portable de esta configuración."@,
    }
}

pub fn estado_copia_portable(historial: &Json, ahora: u64) -> (r: String)
    ensures
        r@ == estado_copia_spec(*historial, ahora),
{
    match ultima_copia_portable(historial) {
        Some(t) => unir2(tiempo_relativo_desde(t, ahora).as_str(), " · No incluye contraseñas ni credenciales."),
        None => copiar("Todavía no has creado una copia portable de esta configuración."),
    }
}

/// An entry of the activity list: what was done and how long ago.
pub open spec fn actividad_de(e: Json, ahora: u64) -> (Seq<char>, Seq<char>) {
    (
        match texto_de(obtener(e, "summary"@)) {
            Some(s) => s,
            None => "Acción de Korunix"@,
        },
        match natural_de(obtener(e, "timestamp"@)) {
            Some(t) => tiempo_relativo(t, ahora),
            None => Seq::empty(),
        },
    )
}

pub open spec fn entradas_spec(historial: Json) -> Seq<Json> {
    match lista_de(obtener(historial, "entries"@)) {
        Some(v) => v,
        None => Seq::empty(),
    }
}

/// The recent activity: the last twelve entries, the most recent first.
pub open spec fn actividad_spec(entradas: Seq<Json>, ahora: u64) -> Seq<(Seq<char>, Seq<char>)> {
    let n = if entradas.len() < 12 { entradas.len() as int } else { 12int };
    Seq::new(n as nat, |k: int| actividad_de(entradas[entradas.len() - 1 - k], ahora))
}

/// The note shown when older entries are left out.
pub open spec fn nota_actividad_spec(total: nat) -> Option<Seq<char>> {
    if total > 12 {
        Some("Mostrando las 12 acciones más recientes de "@ + decimal(total) + " registradas."@)
    } else {
        None
    }
}

/// The activity list of the page.
pub struct Actividad {
    /// What was done and how long ago, the most recent first.
    pub filas: Vec<(String, String)>,
    /// The note shown when older entries are left out.
    pub nota: Option<String>,
}

pub open spec fn vista_filas_actividad(v: Seq<(String, String)>) -> Seq<(Seq<char>, Seq<char>)> {
    v.map_values(|f: (String, String)| (f.0@, f.1@))
}

pub fn actividad_reciente(historial: &Json, ahora: u64) -> (r: Actividad)
    ensures
        vista_filas_actividad(r.filas@) == actividad_spec(entradas_spec(*historial), ahora),
        match r.nota {
            Some(n) => nota_actividad_spec(entradas_spec(*historial).len()) == Some(n@),
            None => nota_actividad_spec(entradas_spec(*historial).len()) is None,
        },
{
    let vacia: Vec<Json> = Vec::new();
    let entradas: &Vec<Json> = match historial.obtener("entries") {
        Some(v) => match v.como_lista() {
            Some(l) => l,
            None => &vacia,
        },
        None => &vacia,
    };
    let ghost es = entradas@;
    let n: usize = if entradas.len() < 12 { entradas.len() } else { 12 };
    let mut filas: Vec<(String, String)> = Vec::new();
    let mut k: usize = 0;
    while k < n
        invariant
            es == entradas@,
            es == entradas_spec(*historial),
            n as int == if es.len() < 12 { es.len() as int } else { 12int },
            k <= n,
            vista_filas_actividad(filas@) == actividad_spec(es, ahora).subrange(0, k as int),
        decreases n - k,
    {
        let e = &entradas[entradas.len() - 1 - k];
        let resumen = match e.obtener("summary") {
            Some(s) => match s.como_texto() {
                Some(t) => copiar(t),
                None => copiar("Acción de Korunix"),
            },
            None => copiar("Acción de Korunix"),
        };
        let cuando = match e.obtener("timestamp") {
            Some(t) => match t.como_u64() {
                Some(v) => tiempo_relativo_desde(v, ahora),
                None => String::new(),
            },
            None => String::new(),
        };
        let ghost antes = vista_filas_actividad(filas@);
        filas.push((resumen, cuando));
        assert(vista_filas_actividad(filas@) =~= antes.push(actividad_de(es[es.len() - 1 - k], ahora)));
        assert(actividad_spec(es, ahora).subrange(0, k + 1) =~= actividad_spec(es, ahora).subrange(0, k as int).push(
            actividad_de(es[es.len() - 1 - k], ahora),
        ));
        k = k + 1;
    }
    assert(actividad_spec(es, ahora).subrange(0, n as int) =~= actividad_spec(es, ahora));
    let nota = if entradas.len() > 12 {
        Some(unir3(
            "Mostrando las 12 acciones más recientes de ",
            decimal_usize(entradas.len()).as_str(),
            " registradas.",
        ))
    } else {
        None
    };
    Actividad { filas, nota }
}

/// The engine command that exports a portable backup.
pub open spec fn exportar_spec(plan: bool) -> Seq<Seq<char>> {
    seq!["backup"@, "export"@, if plan { "--plan"@ } else { "--yes"@ }, "--json"@]
}

pub fn argumentos_exportar(plan: bool) -> (r: Vec<String>)
    ensures
        vistas(r@) == exportar_spec(plan),
{
    let mut r: Vec<String> = Vec::new();
    r.push(copiar("backup"));
    r.push(copiar("export"));
    r.push(copiar(if plan { "--plan" } else { "--yes" }));
    r.push(copiar("--json"));
    assert(vistas(r@) =~= exportar_spec(plan));
    r
}

/// Where the engine says the backup went, `Descargas` when it does not say.
pub open spec fn destino_copia_spec(resultado: Json) -> Seq<char> {
    match texto_de(obtener(resultado, "output"@)) {
        Some(s) => s,
        None => "Descargas"@,
    }
}

/// The message shown once a backup is exported.
pub fn mensaje_copia_creada(resultado: &Json) -> (r: String)
    ensures
        r@ == "Copia creada en "@ + destino_copia_spec(*resultado),
{
    let salida = match resultado.obtener("output") {
        Some(v) => match v.como_texto() {
            Some(t) => t,
            None => "Descargas",
        },
        None => "Descargas",
    };
    unir2("Copia creada en ", salida)
}

/// The engine command that restores the backup in `archivo` (trimmed), or
/// `None` when no file is named.
pub open spec fn restaurar_spec(archivo: Seq<char>, plan: bool) -> Option<Seq<Seq<char>>> {
    if recortado(archivo).len() == 0 {
        None
    } else {
        Some(seq!["backup"@, "restore"@, recortado(archivo), if plan { "--plan"@ } else { "--yes"@ }, "--json"@])
    }
}

pub fn argumentos_restaurar(archivo: &str, plan: bool) -> (r: Option<Vec<String>>)
    ensures
        match r {
            Some(v) => restaurar_spec(archivo@, plan) == Some(vistas(v@)),
            None => restaurar_spec(archivo@, plan) is None,
        },
{
    let ruta = recortar(archivo);
    if ruta.unicode_len() == 0 {
        return None;
    }
    let mut r: Vec<String> = Vec::new();
    r.push(copiar("backup"));
    r.push(copiar("restore"));
    r.push(copiar(ruta));
    r.push(copiar(if plan { "--plan" } else { "--yes" }));
    r.push(copiar("--json"));
    assert(vistas(r@) =~= restaurar_spec(archivo@, plan)->0);
    Some(r)
}

} // verus!
