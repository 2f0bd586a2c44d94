//! The applications page: the curated catalogue grouped by category, its
//! search, and the engine commands that install and remove applications.

use vstd::prelude::*;
use crate::aplicaciones::{
    esta_en, esta_texto, ids_aplicaciones_seleccionadas, presentacion_aplicacion, presentacion_spec,
    seleccionadas_spec, textos_de, textos_lista, vista_presentacion,
};
use crate::cadena::{contiene, contiene_exec, copiar, minusculas_de, minusculas_unicode, recortado, recortar, unir2, unir3, vistas};
use crate::json::{Json, lista_de, obtener};

verus! {

/// The categories of the catalogue, in the order the page shows them.
pub open spec fn categorias_spec() -> Seq<Seq<char>> {
    seq![
        "Internet y comunicación"@,
        "Oficina y estudio"@,
        "Diseño"@,
        "Multimedia"@,
        "Juegos"@,
        "Dispositivos"@,
        "Desarrollo"@,
        "Archivos y utilidades"@,
        "Utilidades"@,
    ]
}

/// The identifiers of the catalogue: the texts under `catalog`.
pub open spec fn ids_catalogo(datos: Json) -> Seq<Seq<char>> {
    match lista_de(obtener(datos, "catalog"@)) {
        Some(v) => textos_de(v),
        None => Seq::empty(),
    }
}

/// A catalogue row: identifier, name, description, whether it is installed,
/// and what the search matches (name, description and category in lower
/// case).
pub open spec fn fila_catalogo_spec(id: Seq<char>, p: (Seq<char>, Seq<char>, Seq<char>), seleccionados: Seq<Seq<char>>) -> (Seq<char>, Seq<char>, Seq<char>, bool, Seq<char>) {
    (id, p.0, p.1, esta_en(seleccionados, id), minusculas_unicode(p.0 + " "@ + p.1 + " "@ + p.2))
}

/// The rows of one category, in catalogue order; entries without a
/// presentation are left out.
pub open spec fn filas_categoria_spec(datos: Json, ids: Seq<Seq<char>>, categoria: Seq<char>, seleccionados: Seq<Seq<char>>) -> Seq<(Seq<char>, Seq<char>, Seq<char>, bool, Seq<char>)>
    decreases ids.len(),
{
    if ids.len() == 0 {
        Seq::empty()
    } else {
        let pre = filas_categoria_spec(datos, ids.drop_last(), categoria, seleccionados);
        match presentacion_spec(datos, ids.last()) {
            Some(p) => if p.2 == categoria {
                pre.push(fila_catalogo_spec(ids.last(), p, seleccionados))
            } else {
                pre
            },
            None => pre,
        }
    }
}

/// The groups of the page: each category that has rows, in order.
pub open spec fn grupos_catalogo_spec(datos: Json, categorias: Seq<Seq<char>>) -> Seq<(Seq<char>, Seq<(Seq<char>, Seq<char>, Seq<char>, bool, Seq<char>)>)>
    decreases categorias.len(),
{
    if categorias.len() == 0 {
        Seq::empty()
    } else {
        let pre = grupos_catalogo_spec(datos, categorias.drop_last());
        let filas = filas_categoria_spec(datos, ids_catalogo(datos), categorias.last(), seleccionadas_spec(datos));
        if filas.len() == 0 {
            pre
        } else {
            pre.push((categorias.last(), filas))
        }
    }
}

/// A row of the curated catalogue.
pub struct FilaCatalogo {
    pub id: String,
    pub nombre: String,
    pub descripcion: String,
    /// Whether the application is installed.
    pub activa: bool,
    /// What the search matches.
    pub huella: String,
}

/// A category of the curated catalogue and its rows.
pub struct GrupoCatalogo {
    pub categoria: String,
    pub filas: Vec<FilaCatalogo>,
}

pub open spec fn vista_fila_catalogo(f: FilaCatalogo) -> (Seq<char>, Seq<char>, Seq<char>, bool, Seq<char>) {
    (f.id@, f.nombre@, f.descripcion@, f.activa, f.huella@)
}

pub open spec fn vista_filas_catalogo(v: Seq<FilaCatalogo>) -> Seq<(Seq<char>, Seq<char>, Seq<char>, bool, Seq<char>)> {
    v.map_values(|f: FilaCatalogo| vista_fila_catalogo(f))
}

pub open spec fn vista_grupos(v: Seq<GrupoCatalogo>) -> Seq<(Seq<char>, Seq<(Seq<char>, Seq<char>, Seq<char>, bool, Seq<char>)>)> {
    v.map_values(|g: GrupoCatalogo| (g.categoria@, vista_filas_catalogo(g.filas@)))
}

fn filas_categoria(datos: &Json, ids: &Vec<String>, categoria: &str, seleccionados: &Vec<String>) -> (r: Vec<FilaCatalogo>)
    ensures
        vista_filas_catalogo(r@) == filas_categoria_spec(*datos, vistas(ids@), categoria@, vistas(seleccionados@)),
{
    let ghost todos = vistas(ids@);
    let mut r: Vec<FilaCatalogo> = Vec::new();
    let mut i: usize = 0;
    while i < ids.len()
        invariant
            i <= ids@.len(),
            todos == vistas(ids@),
            vista_filas_catalogo(r@) == filas_categoria_spec(*datos, todos.subrange(0, i as int), categoria@, vistas(seleccionados@)),
        decreases ids.len() - i,
    {
        assert(todos.subrange(0, i + 1).drop_last() =~= todos.subrange(0, i as int));
        assert(todos.subrange(0, i + 1).last() == ids@[i as int]@);
        let id = ids[i].as_str();
        match presentacion_aplicacion(datos, id) {
            Some(p) => {
                if crate::cadena::iguales(p.categoria.as_str(), categoria) {
                    let activa = esta_texto(seleccionados.as_slice(), id);
                    let junto = unir3(p.nombre.as_str(), " ", p.descripcion.as_str());
                    let todo = unir3(junto.as_str(), " ", p.categoria.as_str());
                    let huella = minusculas_de(todo.as_str());
                    let ghost antes = vista_filas_catalogo(r@);
                    r.push(FilaCatalogo { id: copiar(id), nombre: p.nombre, descripcion: p.descripcion, activa, huella });
                    assert(vista_filas_catalogo(r@) =~= antes.push(
                        fila_catalogo_spec(id@, presentacion_spec(*datos, id@)->0, vistas(seleccionados@)),
                    ));
                }
            },
            None => {},
        }
        i = i + 1;
    }
    assert(todos.subrange(0, todos.len() as int) =~= todos);
    r
}

/// The curated catalogue of the applications page, grouped by category.
pub fn catalogo_por_categorias(datos: &Json) -> (r: Vec<GrupoCatalogo>)
    ensures
        vista_grupos(r@) == grupos_catalogo_spec(*datos, categorias_spec()),
{
    let seleccionados = ids_aplicaciones_seleccionadas(datos);
    let ids: Vec<String> = match datos.obtener("catalog") {
        Some(c) => match c.como_lista() {
            Some(v) => textos_lista(v),
            None => Vec::new(),
        },
        None => Vec::new(),
    };
    assert(vistas(ids@) == ids_catalogo(*datos));
    let mut categorias: Vec<&str> = Vec::new();
    categorias.push("Internet y comunicación");
    categorias.push("Oficina y estudio");
    categorias.push("Diseño");
    categorias.push("Multimedia");
    categorias.push("Juegos");
    categorias.push("Dispositivos");
    categorias.push("Desarrollo");
    categorias.push("Archivos y utilidades");
    categorias.push("Utilidades");
    let ghost cats = categorias@.map_values(|c: &str| c@);
    assert(cats =~= categorias_spec());
    let mut r: Vec<GrupoCatalogo> = Vec::new();
    let mut k: usize = 0;
    while k < categorias.len()
        invariant
            k <= categorias@.len(),
            cats == categorias@.map_values(|c: &str| c@),
            vistas(ids@) == ids_catalogo(*datos),
            vistas(seleccionados@) == seleccionadas_spec(*datos),
            vista_grupos(r@) == grupos_catalogo_spec(*datos, cats.subrange(0, k as int)),
        decreases categorias.len() - k,
    {
        assert(cats.subrange(0, k + 1).drop_last() =~= cats.subrange(0, k as int));
        assert(cats.subrange(0, k + 1).last() == categorias@[k as int]@);
        let filas = filas_categoria(datos, &ids, categorias[k], &seleccionados);
        if filas.len() > 0 {
            let ghost antes = vista_grupos(r@);
            r.push(GrupoCatalogo { categoria: copiar(categorias[k]), filas });
            assert(vista_grupos(r@) =~= antes.push((categorias@[k as int]@, vista_filas_catalogo(r@[r@.len() - 1].filas@))));
        }
        k = k + 1;
    }
    assert(cats.subrange(0, cats.len() as int) =~= cats);
    r
}

/// The outcome of a search in the catalogue.
pub struct FiltroCatalogo {
    /// For each group, whether each of its rows stays visible.
    pub filas: Vec<Vec<bool>>,
    /// Whether each group stays visible: it has a visible row.
    pub grupos: Vec<bool>,
    /// Whether the search of more applications can run: the query is not
    /// empty.
    pub buscar_mas: bool,
}

/// A row stays visible when the query is empty or its terms contain it.
pub open spec fn visible_spec(q: Seq<char>, huella: Seq<char>) -> bool {
    q.len() == 0 || contiene(huella, q)
}

pub open spec fn consulta_catalogo(consulta: Seq<char>) -> Seq<char> {
    minusculas_unicode(recortado(consulta))
}

/// A group filtered by `q`: each row visible as `visible_spec` says, and
/// the group visible when some row is.
pub open spec fn grupo_filtrado(q: Seq<char>, huellas: Seq<Seq<char>>, filas: Seq<bool>, grupo: bool) -> bool {
    &&& filas.len() == huellas.len()
    &&& forall|k: int| 0 <= k < huellas.len() ==> #[trigger] filas[k] == visible_spec(q, huellas[k])
    &&& grupo == exists|k: int| 0 <= k < filas.len() && #[trigger] filas[k]
}

/// Filters the catalogue by a query; `huellas` holds the search terms of
/// the rows of each group.
pub fn filtrar_catalogo(consulta: &str, huellas: &Vec<Vec<String>>) -> (r: FiltroCatalogo)
    ensures
        r.filas@.len() == huellas@.len(),
        r.grupos@.len() == huellas@.len(),
        forall|g: int| 0 <= g < huellas@.len() ==> #[trigger] grupo_filtrado(
            consulta_catalogo(consulta@),
            vistas(huellas@[g]@),
            r.filas@[g]@,
            r.grupos@[g],
        ),
        r.buscar_mas == (consulta_catalogo(consulta@).len() > 0),
{
    let q = minusculas_de(recortar(consulta));
    let vacia = q.as_str().unicode_len() == 0;
    let mut filas: Vec<Vec<bool>> = Vec::new();
    let mut grupos: Vec<bool> = Vec::new();
    let mut g: usize = 0;
    while g < huellas.len()
        invariant
            g <= huellas@.len(),
            q@ == consulta_catalogo(consulta@),
            vacia == (q@.len() == 0),
            filas@.len() == g,
            grupos@.len() == g,
            forall|h: int| 0 <= h < g ==> #[trigger] grupo_filtrado(q@, vistas(huellas@[h]@), filas@[h]@, grupos@[h]),
        decreases huellas.len() - g,
    {
        let grupo = &huellas[g];
        let mut visibles: Vec<bool> = Vec::new();
        let mut alguna = false;
        let mut k: usize = 0;
        while k < grupo.len()
            invariant
                k <= grupo@.len(),
                q@ == consulta_catalogo(consulta@),
                vacia == (q@.len() == 0),
                visibles@.len() == k,
                forall|j: int| 0 <= j < k ==> #[trigger] visibles@[j] == visible_spec(q@, grupo@[j]@),
                alguna == exists|j: int| 0 <= j < k && #[trigger] visibles@[j],
            decreases grupo.len() - k,
        {
            let visible = vacia || contiene_exec(grupo[k].as_str(), q.as_str());
            let ghost antes = visibles@;
            visibles.push(visible);
            assert(forall|j: int| 0 <= j < k ==> visibles@[j] == antes[j]);
            if visible {
                alguna = true;
                assert(visibles@[k as int]);
            }
            k = k + 1;
        }
        proof {
            assert(grupo_filtrado(q@, vistas(grupo@), visibles@, alguna));
        }
        let ghost filas_antes = filas@;
        let ghost grupos_antes = grupos@;
        filas.push(visibles);
        grupos.push(alguna);
        proof {
            assert forall|h: int| 0 <= h < g + 1 implies #[trigger] grupo_filtrado(q@, vistas(huellas@[h]@), filas@[h]@, grupos@[h]) by {
                if h < g {
                    assert(filas@[h] == filas_antes[h]);
                    assert(grupos@[h] == grupos_antes[h]);
                }
            }
        }
        g = g + 1;
    }
    FiltroCatalogo { filas, grupos, buscar_mas: !vacia }
}

/// The sources searched for more applications, in order.
pub open spec fn fuentes_externas_spec() -> Seq<Seq<char>> {
    seq!["nixpkgs"@, "flatpak"@]
}

pub fn fuentes_externas() -> (r: Vec<&'static str>)
    ensures
        r@.map_values(|f: &str| f@) == fuentes_externas_spec(),
{
    let mut r: Vec<&'static str> = Vec::new();
    r.push("nixpkgs");
    r.push("flatpak");
    assert(r@.map_values(|f: &str| f@) =~= fuentes_externas_spec());
    r
}

/// The engine command that searches a source for applications; the query is
/// sent trimmed, and there is none to send when it is blank.
pub open spec fn busqueda_externa_spec(consulta: Seq<char>, fuente: Seq<char>) -> Option<Seq<Seq<char>>> {
    if recortado(consulta).len() == 0 {
        None
    } else {
        Some(seq!["applications"@, "search"@, recortado(consulta), "--source"@, fuente, "--json"@])
    }
}

pub fn argumentos_busqueda_externa(consulta: &str, fuente: &str) -> (r: Option<Vec<String>>)
    ensures
        match r {
            Some(v) => busqueda_externa_spec(consulta@, fuente@) == Some(vistas(v@)),
            None => busqueda_externa_spec(consulta@, fuente@) is None,
        },
{
    let texto = recortar(consulta);
    if texto.unicode_len() == 0 {
        return None;
    }
    let mut r: Vec<String> = Vec::new();
    r.push(copiar("applications"));
    r.push(copiar("search"));
    r.push(copiar(texto));
    r.push(copiar("--source"));
    r.push(copiar(fuente));
    r.push(copiar("--json"));
    assert(vistas(r@) =~= busqueda_externa_spec(consulta@, fuente@)->0);
    Some(r)
}

/// Whether an application found in a source is installed: the selection
/// names it as `source:id`.
pub open spec fn externa_activa_spec(seleccionados: Seq<Seq<char>>, fuente: Seq<char>, id: Seq<char>) -> bool {
    esta_en(seleccionados, fuente + ":"@ + id)
}

pub fn externa_activa(seleccionados: &[String], fuente: &str, id: &str) -> (r: bool)
    ensures
        r == externa_activa_spec(vistas(seleccionados@), fuente@, id@),
{
    let token = unir3(fuente, ":", id);
    esta_texto(seleccionados, token.as_str())
}

/// The engine command that installs (`on`) or removes (`off`) an
/// application from a source.
pub open spec fn aplicacion_spec(id: Seq<char>, activa: bool, fuente: Seq<char>, plan: bool) -> Seq<Seq<char>> {
    seq!["applications"@, "set"@, id, if activa { "off"@ } else { "on"@ }, "--source"@, fuente,
        if plan { "--plan"@ } else { "--yes"@ }, "--json"@]
}

pub fn argumentos_aplicacion(id: &str, activa: bool, fuente: &str, plan: bool) -> (r: Vec<String>)
    ensures
        vistas(r@) == aplicacion_spec(id@, activa, fuente@, plan),
{
    let mut r: Vec<String> = Vec::new();
    r.push(copiar("applications"));
    r.push(copiar("set"));
    r.push(copiar(id));
    r.push(copiar(if activa { "off" } else { "on" }));
    r.push(copiar("--source"));
    r.push(copiar(fuente));
    r.push(copiar(if plan { "--plan" } else { "--yes" }));
    r.push(copiar("--json"));
    assert(vistas(r@) =~= aplicacion_spec(id@, activa, fuente@, plan));
    r
}

/// The question that confirms installing or removing an application.
pub open spec fn pregunta_aplicacion_spec(nombre: Seq<char>, descripcion: Seq<char>, activa: bool) -> Seq<char> {
    if activa {
        "¿Eliminar «"@ + nombre + "»? Korunix retirará esta aplicación de la configuración del equipo."@
    } else {
        "¿Instalar «"@ + nombre + "»? "@ + descripcion
    }
}

pub fn pregunta_aplicacion(nombre: &str, descripcion: &str, activa: bool) -> (r: String)
    ensures
        r@ == pregunta_aplicacion_spec(nombre@, descripcion@, activa),
{
    if activa {
        unir3("¿Eliminar «", nombre, "»? Korunix retirará esta aplicación de la configuración del equipo.")
    } else {
        let inicio = unir3("¿Instalar «", nombre, "»? ");
        unir2(inicio.as_str(), descripcion)
    }
}

/// A confirmed change of an application is the planned one: the same
/// application, action and source, with `--yes` in place of `--plan`.
pub proof fn ley_aplicacion_confirmada_es_la_planeada(id: Seq<char>, activa: bool, fuente: Seq<char>)
    ensures
        aplicacion_spec(id, activa, fuente, false) == aplicacion_spec(id, activa, fuente, true).update(6, "--yes"@),
{
    assert(aplicacion_spec(id, activa, fuente, false) =~= aplicacion_spec(id, activa, fuente, true).update(6, "--yes"@));
}

} // verus!
