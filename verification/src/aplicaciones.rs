//! The applications page: names shown for identifiers, the curated
//! presentation, the results of external searches, and the choice of default
//! browser and Plasma text editor.

use vstd::prelude::*;
use crate::cadena::{
    cambiar_caracter, cambiar_caracter_exec, copiar, iguales, mayuscula_de, mayuscula_unicode,
    partes, partir, recortado, recortar, tras_ultimo, tras_ultimo_exec, unidos, unir3, unir_con,
    vistas, reemplazo, reemplazar,
};
use crate::json::{Json, Campo, lista_de, obtener, objeto_de, texto_de, valor_de};

verus! {

/// A piece with its first character in upper case.
pub open spec fn capitalizada(p: Seq<char>) -> Seq<char> {
    mayuscula_unicode(p[0]) + p.drop_first()
}

/// The non-empty pieces, each capitalized.
pub open spec fn capitalizadas(ps: Seq<Seq<char>>) -> Seq<Seq<char>>
    decreases ps.len(),
{
    if ps.len() == 0 {
        Seq::empty()
    } else if ps.last().len() == 0 {
        capitalizadas(ps.drop_last())
    } else {
        capitalizadas(ps.drop_last()).push(capitalizada(ps.last()))
    }
}

/// A readable name for an identifier: the pieces between `-` and `_`, each
/// capitalized, joined by spaces.
pub open spec fn nombre_desde_id_spec(id: Seq<char>) -> Seq<char> {
    unidos(capitalizadas(partes(cambiar_caracter(id, '_', '-'), '-')), " "@)
}

pub fn nombre_desde_id(id: &str) -> (r: String)
    ensures
        r@ == nombre_desde_id_spec(id@),
{
    let normal = cambiar_caracter_exec(id, '_', '-');
    let piezas = partir(normal.as_str(), '-');
    let mut salida: Vec<String> = Vec::new();
    let mut i: usize = 0;
    while i < piezas.len()
        invariant
            i <= piezas@.len(),
            vistas(salida@) == capitalizadas(vistas(piezas@.subrange(0, i as int))),
        decreases piezas.len() - i,
    {
        let ghost antes = vistas(piezas@.subrange(0, i as int));
        let ghost despues = vistas(piezas@.subrange(0, i + 1));
        assert(despues.drop_last() =~= antes);
        assert(despues.last() == piezas@[i as int]@);
        let pieza = piezas[i].as_str();
        let n = pieza.unicode_len();
        if n > 0 {
            let primera = mayuscula_de(pieza.get_char(0));
            let resto = pieza.substring_char(1, n);
            assert(resto@ =~= pieza@.drop_first());
            let mut nueva = primera;
            nueva.append(resto);
            let ghost previa = vistas(salida@);
            salida.push(nueva);
            assert(vistas(salida@) =~= previa.push(capitalizada(pieza@)));
        }
        i = i + 1;
    }
    assert(piezas@.subrange(0, piezas@.len() as int) =~= piezas@);
    unir_con(&salida, " ")
}

/// How the catalogue presents an application to people.
pub struct PresentacionAplicacion {
    pub nombre: String,
    pub descripcion: String,
    pub categoria: String,
}

/// The curated `name`, `description` and `category` of an application, when
/// all three are texts.
pub open spec fn presentacion_spec(datos: Json, id: Seq<char>) -> Option<(Seq<char>, Seq<char>, Seq<char>)> {
    match obtener(datos, "presentation"@) {
        Some(p) => match obtener(p, id) {
            Some(e) => match (texto_de(obtener(e, "name"@)), texto_de(obtener(e, "description"@)), texto_de(obtener(e, "category"@))) {
                (Some(n), Some(d), Some(c)) => Some((n, d, c)),
                _ => None,
            },
            None => None,
        },
        None => None,
    }
}

pub open spec fn vista_presentacion(p: Option<PresentacionAplicacion>) -> Option<(Seq<char>, Seq<char>, Seq<char>)> {
    match p {
        Some(p) => Some((p.nombre@, p.descripcion@, p.categoria@)),
        None => None,
    }
}

fn texto_miembro(j: &Json, clave: &str) -> (r: Option<String>)
    ensures
        match r {
            Some(t) => texto_de(obtener(*j, clave@)) == Some(t@),
            None => texto_de(obtener(*j, clave@)) is None,
        },
{
    match j.obtener(clave) {
        Some(v) => match v.como_texto() {
            Some(t) => Some(copiar(t)),
            None => None,
        },
        None => None,
    }
}

pub fn presentacion_aplicacion(datos: &Json, id: &str) -> (r: Option<PresentacionAplicacion>)
    ensures
        vista_presentacion(r) == presentacion_spec(*datos, id@),
{
    let p = match datos.obtener("presentation") {
        Some(p) => p,
        None => return None,
    };
    let entrada = match p.obtener(id) {
        Some(e) => e,
        None => return None,
    };
    let nombre = match texto_miembro(entrada, "name") {
        Some(t) => t,
        None => return None,
    };
    let descripcion = match texto_miembro(entrada, "description") {
        Some(t) => t,
        None => return None,
    };
    let categoria = match texto_miembro(entrada, "category") {
        Some(t) => t,
        None => return None,
    };
    Some(PresentacionAplicacion { nombre, descripcion, categoria })
}

/// The texts among the items of a list, in order.
pub open spec fn textos_de(v: Seq<Json>) -> Seq<Seq<char>>
    decreases v.len(),
{
    if v.len() == 0 {
        Seq::empty()
    } else {
        match v.last() {
            Json::Texto(t) => textos_de(v.drop_last()).push(t@),
            _ => textos_de(v.drop_last()),
        }
    }
}

/// The identifiers listed under `selected` that are texts.
pub open spec fn seleccionadas_spec(datos: Json) -> Seq<Seq<char>> {
    match lista_de(obtener(datos, "selected"@)) {
        Some(v) => textos_de(v),
        None => Seq::empty(),
    }
}

pub fn textos_lista(v: &Vec<Json>) -> (r: Vec<String>)
    ensures
        vistas(r@) == textos_de(v@),
{
    let mut r: Vec<String> = Vec::new();
    let mut i: usize = 0;
    while i < v.len()
        invariant
            i <= v@.len(),
            vistas(r@) == textos_de(v@.subrange(0, i as int)),
        decreases v.len() - i,
    {
        assert(v@.subrange(0, i + 1).drop_last() =~= v@.subrange(0, i as int));
        assert(v@.subrange(0, i + 1).last() == v@[i as int]);
        match v[i].como_texto() {
            Some(t) => {
                let ghost antes = vistas(r@);
                r.push(copiar(t));
                assert(vistas(r@) =~= antes.push(t@));
            },
            None => {},
        }
        i = i + 1;
    }
    assert(v@.subrange(0, v@.len() as int) =~= v@);
    r
}

pub fn ids_aplicaciones_seleccionadas(datos: &Json) -> (r: Vec<String>)
    ensures
        vistas(r@) == seleccionadas_spec(*datos),
{
    match datos.obtener("selected") {
        Some(s) => match s.como_lista() {
            Some(v) => textos_lista(v),
            None => Vec::new(),
        },
        None => Vec::new(),
    }
}

/// The identifiers that stand for Niri or Hyprland.
pub open spec fn es_niri_o_hyprland(t: Seq<char>) -> bool {
    t == "niri"@ || t == "hyprland"@
}

/// Whether a desktop that uses the Noctalia panel (Niri or Hyprland) is the
/// primary desktop or one of the additional ones.
pub open spec fn usa_noctalia_spec(datos: Json) -> bool {
    let principal = match texto_de(apuntar_spec(datos, "/desktop/primary"@)) {
        Some(t) => t,
        None => ""@,
    };
    es_niri_o_hyprland(principal) || match lista_de(apuntar_spec(datos, "/desktop/additional"@)) {
        Some(v) => exists|i: int| 0 <= i < v.len() && #[trigger] nombra_noctalia(v[i]),
        None => false,
    }
}

pub open spec fn nombra_noctalia(j: Json) -> bool {
    match j {
        Json::Texto(t) => es_niri_o_hyprland(t@),
        _ => false,
    }
}

pub open spec fn apuntar_spec(datos: Json, p: Seq<char>) -> Option<Json> {
    crate::json::apuntar(datos, p)
}

fn es_niri_o_hyprland_exec(t: &str) -> (r: bool)
    ensures
        r == es_niri_o_hyprland(t@),
{
    iguales(t, "niri") || iguales(t, "hyprland")
}

pub fn escritorio_usa_noctalia(datos: &Json) -> (r: bool)
    ensures
        r == usa_noctalia_spec(*datos),
{
    let principal = match datos.apuntar("/desktop/primary") {
        Some(v) => match v.como_texto() {
            Some(t) => t,
            None => "",
        },
        None => "",
    };
    if es_niri_o_hyprland_exec(principal) {
        return true;
    }
    let adicionales = match datos.apuntar("/desktop/additional") {
        Some(v) => match v.como_lista() {
            Some(l) => l,
            None => return false,
        },
        None => return false,
    };
    let mut i: usize = 0;
    while i < adicionales.len()
        invariant
            i <= adicionales@.len(),
            lista_de(apuntar_spec(*datos, "/desktop/additional"@)) == Some(adicionales@),
            !es_niri_o_hyprland(match texto_de(apuntar_spec(*datos, "/desktop/primary"@)) {
                Some(t) => t,
                None => ""@,
            }),
            forall|j: int| 0 <= j < i ==> !#[trigger] nombra_noctalia(adicionales@[j]),
        decreases adicionales.len() - i,
    {
        match adicionales[i].como_texto() {
            Some(t) => {
                if es_niri_o_hyprland_exec(t) {
                    let ghost v = lista_de(apuntar_spec(*datos, "/desktop/additional"@))->0;
                    assert(v[i as int] == adicionales@[i as int]);
                    assert(nombra_noctalia(v[i as int]));
                    return true;
                }
            },
            None => {},
        }
        i = i + 1;
    }
    false
}

/// First position of a text in a list of texts.
pub open spec fn posicion_en(v: Seq<Seq<char>>, x: Seq<char>) -> Option<int>
    decreases v.len(),
{
    if v.len() == 0 {
        None
    } else if v[0] == x {
        Some(0)
    } else {
        match posicion_en(v.drop_first(), x) {
            Some(i) => Some(i + 1),
            None => None,
        }
    }
}

pub proof fn lema_posicion_en(v: Seq<Seq<char>>, x: Seq<char>)
    ensures
        match posicion_en(v, x) {
            Some(i) => 0 <= i < v.len() && v[i] == x && forall|j: int| 0 <= j < i ==> v[j] != x,
            None => forall|j: int| 0 <= j < v.len() ==> v[j] != x,
        },
    decreases v.len(),
{
    if v.len() > 0 {
        lema_posicion_en(v.drop_first(), x);
        if v[0] != x {
            assert forall|j: int| 0 < j < v.len() implies v[j] == v.drop_first()[j - 1] by {}
        }
    }
}

fn posicion_texto(v: &[String], x: &str) -> (r: Option<usize>)
    ensures
        match r {
            Some(i) => posicion_en(vistas(v@), x@) == Some(i as int),
            None => posicion_en(vistas(v@), x@) is None,
        },
{
    proof {
        lema_posicion_en(vistas(v@), x@);
    }
    let mut i: usize = 0;
    while i < v.len()
        invariant
            i <= v@.len(),
            forall|j: int| 0 <= j < i ==> vistas(v@)[j] != x@,
            match posicion_en(vistas(v@), x@) {
                Some(k) => 0 <= k < v@.len() && vistas(v@)[k] == x@ && forall|j: int| 0 <= j < k ==> vistas(v@)[j] != x@,
                None => forall|j: int| 0 <= j < v@.len() ==> vistas(v@)[j] != x@,
            },
        decreases v.len() - i,
    {
        assert(vistas(v@)[i as int] == v@[i as int]@);
        if iguales(v[i].as_str(), x) {
            return Some(i);
        }
        i = i + 1;
    }
    None
}

pub open spec fn esta_en(v: Seq<Seq<char>>, x: Seq<char>) -> bool {
    exists|i: int| 0 <= i < v.len() && v[i] == x
}

pub fn esta_texto(v: &[String], x: &str) -> (r: bool)
    ensures
        r == esta_en(vistas(v@), x@),
{
    proof {
        lema_posicion_en(vistas(v@), x@);
    }
    match posicion_texto(v, x) {
        Some(_) => true,
        None => false,
    }
}

/// `position` of a value among the options, 0 when it is absent.
pub open spec fn indice_spec(valor: Seq<char>, opciones: Seq<Seq<char>>) -> u32 {
    match posicion_en(opciones, valor) {
        Some(i) => i as u32,
        None => 0,
    }
}

pub fn indice(valor: &str, opciones: &[String]) -> (r: u32)
    ensures
        r == indice_spec(valor@, vistas(opciones@)),
{
    match posicion_texto(opciones, valor) {
        Some(i) => i as u32,
        None => 0,
    }
}

pub open spec fn opcion_si(c: bool, id: Seq<char>) -> Seq<Seq<char>> {
    if c {
        seq![id]
    } else {
        Seq::empty()
    }
}

/// The browsers offered: an empty choice when none is set, then Firefox and
/// Google Chrome when installed or already chosen.
pub open spec fn navegadores_spec(instaladas: Seq<Seq<char>>, actual: Option<Seq<char>>) -> Seq<Seq<char>> {
    opcion_si(actual is None, ""@)
        + opcion_si(esta_en(instaladas, "firefox"@) || actual == Some("firefox"@), "firefox"@)
        + opcion_si(esta_en(instaladas, "google-chrome"@) || actual == Some("google-chrome"@), "google-chrome"@)
}

/// The Plasma text editors offered: an empty choice when none is set, then
/// KWrite and Kate.
pub open spec fn editores_spec(actual: Option<Seq<char>>) -> Seq<Seq<char>> {
    opcion_si(actual is None, ""@) + seq!["kwrite"@, "kate"@]
}

/// Which option is selected: the current value's position, else the first.
pub open spec fn seleccion_spec(ids: Seq<Seq<char>>, actual: Option<Seq<char>>) -> u32 {
    match actual {
        Some(v) => indice_spec(v, ids),
        None => 0,
    }
}

pub open spec fn texto_opcional(v: Option<&str>) -> Option<Seq<char>> {
    match v {
        Some(t) => Some(t@),
        None => None,
    }
}

fn agregar(ids: &mut Vec<String>, id: &str)
    ensures
        vistas(final(ids)@) == vistas(old(ids)@).push(id@),
{
    ids.push(copiar(id));
    assert(vistas(ids@) =~= vistas(old(ids)@).push(id@));
}

fn es_igual_opcional(a: Option<&str>, b: &str) -> (r: bool)
    ensures
        r == (texto_opcional(a) == Some(b@)),
{
    match a {
        Some(t) => iguales(t, b),
        None => false,
    }
}

pub fn opciones_navegador_ids(instaladas: &[String], actual: Option<&str>) -> (r: (Vec<String>, u32))
    ensures
        vistas(r.0@) == navegadores_spec(vistas(instaladas@), texto_opcional(actual)),
        r.1 == seleccion_spec(vistas(r.0@), texto_opcional(actual)),
{
    let mut ids: Vec<String> = Vec::new();
    if actual.is_none() {
        agregar(&mut ids, "");
    }
    assert(vistas(ids@) =~= opcion_si(actual is None, ""@));
    let ghost paso1 = vistas(ids@);
    if esta_texto(instaladas, "firefox") || es_igual_opcional(actual, "firefox") {
        agregar(&mut ids, "firefox");
    }
    assert(vistas(ids@) =~= paso1 + opcion_si(esta_en(vistas(instaladas@), "firefox"@) || texto_opcional(actual) == Some("firefox"@), "firefox"@));
    let ghost paso2 = vistas(ids@);
    if esta_texto(instaladas, "google-chrome") || es_igual_opcional(actual, "google-chrome") {
        agregar(&mut ids, "google-chrome");
    }
    assert(vistas(ids@) =~= paso2 + opcion_si(esta_en(vistas(instaladas@), "google-chrome"@) || texto_opcional(actual) == Some("google-chrome"@), "google-chrome"@));
    let seleccionado = match actual {
        Some(v) => indice(v, ids.as_slice()),
        None => 0,
    };
    (ids, seleccionado)
}

pub fn opciones_editor_plasma_ids(actual: Option<&str>) -> (r: (Vec<String>, u32))
    ensures
        vistas(r.0@) == editores_spec(texto_opcional(actual)),
        r.1 == seleccion_spec(vistas(r.0@), texto_opcional(actual)),
{
    let mut ids: Vec<String> = Vec::new();
    if actual.is_none() {
        agregar(&mut ids, "");
    }
    let ghost paso1 = vistas(ids@);
    agregar(&mut ids, "kwrite");
    agregar(&mut ids, "kate");
    assert(vistas(ids@) =~= editores_spec(texto_opcional(actual)));
    let seleccionado = match actual {
        Some(v) => indice(v, ids.as_slice()),
        None => 0,
    };
    (ids, seleccionado)
}

/// The arguments of a change of default applications: the browser and the
/// editor only when they changed and have a value; nothing when neither does.
pub open spec fn cambio_roles_spec(
    persona: Seq<char>,
    browser_antes: Option<Seq<char>>,
    browser_despues: Option<Seq<char>>,
    editor_antes: Option<Seq<char>>,
    editor_despues: Option<Seq<char>>,
    plan: bool,
) -> Option<Seq<Seq<char>>> {
    let navegador = if browser_antes != browser_despues && browser_despues is Some {
        seq!["--browser"@, browser_despues->0]
    } else {
        Seq::empty()
    };
    let editor = if editor_antes != editor_despues && editor_despues is Some {
        seq!["--plasma-text-editor"@, editor_despues->0]
    } else {
        Seq::empty()
    };
    if navegador.len() + editor.len() == 0 {
        None
    } else {
        Some(seq!["defaults"@, "set"@, "--person"@, persona] + navegador + editor + seq![
            if plan { "--plan"@ } else { "--yes"@ },
            "--json"@,
        ])
    }
}

pub open spec fn vistas_opcion(r: Option<Vec<String>>) -> Option<Seq<Seq<char>>> {
    match r {
        Some(v) => Some(vistas(v@)),
        None => None,
    }
}

fn iguales_opcionales(a: Option<&str>, b: Option<&str>) -> (r: bool)
    ensures
        r == (texto_opcional(a) == texto_opcional(b)),
{
    match (a, b) {
        (Some(x), Some(y)) => iguales(x, y),
        (None, None) => true,
        _ => false,
    }
}

pub fn argumentos_cambio_roles(
    persona: &str,
    browser_antes: Option<&str>,
    browser_despues: Option<&str>,
    editor_antes: Option<&str>,
    editor_despues: Option<&str>,
    plan: bool,
) -> (r: Option<Vec<String>>)
    ensures
        vistas_opcion(r) == cambio_roles_spec(
            persona@,
            texto_opcional(browser_antes),
            texto_opcional(browser_despues),
            texto_opcional(editor_antes),
            texto_opcional(editor_despues),
            plan,
        ),
{
    let mut argumentos: Vec<String> = Vec::new();
    agregar(&mut argumentos, "defaults");
    agregar(&mut argumentos, "set");
    agregar(&mut argumentos, "--person");
    agregar(&mut argumentos, persona);
    let ghost base = vistas(argumentos@);
    assert(base =~= seq!["defaults"@, "set"@, "--person"@, persona@]);
    if !iguales_opcionales(browser_antes, browser_despues) {
        if let Some(browser) = browser_despues {
            agregar(&mut argumentos, "--browser");
            agregar(&mut argumentos, browser);
        }
    }
    let ghost con_navegador = vistas(argumentos@);
    if !iguales_opcionales(editor_antes, editor_despues) {
        if let Some(editor) = editor_despues {
            agregar(&mut argumentos, "--plasma-text-editor");
            agregar(&mut argumentos, editor);
        }
    }
    let ghost navegador = if texto_opcional(browser_antes) != texto_opcional(browser_despues) && browser_despues is Some {
        seq!["--browser"@, texto_opcional(browser_despues)->0]
    } else {
        Seq::<Seq<char>>::empty()
    };
    let ghost editor = if texto_opcional(editor_antes) != texto_opcional(editor_despues) && editor_despues is Some {
        seq!["--plasma-text-editor"@, texto_opcional(editor_despues)->0]
    } else {
        Seq::<Seq<char>>::empty()
    };
    assert(con_navegador =~= base + navegador);
    assert(vistas(argumentos@) =~= base + navegador + editor);
    if argumentos.len() == 4 {
        return None;
    }
    if plan {
        agregar(&mut argumentos, "--plan");
    } else {
        agregar(&mut argumentos, "--yes");
    }
    agregar(&mut argumentos, "--json");
    assert(vistas(argumentos@) =~= base + navegador + editor + seq![
        if plan { "--plan"@ } else { "--yes"@ },
        "--json"@,
    ]);
    Some(argumentos)
}

/// One application found by an external search.
pub struct ResultadoAplicacionExterna {
    pub id: String,
    pub fuente: String,
    pub nombre: String,
    pub descripcion: String,
}

pub open spec fn vista_resultado(r: ResultadoAplicacionExterna) -> (Seq<char>, Seq<char>, Seq<char>, Seq<char>) {
    (r.id@, r.fuente@, r.nombre@, r.descripcion@)
}

pub open spec fn vista_resultados(v: Seq<ResultadoAplicacionExterna>) -> Seq<(Seq<char>, Seq<char>, Seq<char>, Seq<char>)> {
    v.map_values(|r: ResultadoAplicacionExterna| vista_resultado(r))
}

/// A text that is there and is not blank.
pub open spec fn con_contenido(t: Option<Seq<char>>) -> Option<Seq<char>> {
    match t {
        Some(v) => if recortado(v).len() > 0 {
            Some(v)
        } else {
            None
        },
        None => None,
    }
}

pub open spec fn descripcion_resultado(item: Json, nombre: Seq<char>) -> Seq<char> {
    match con_contenido(texto_de(obtener(item, "description"@))) {
        Some(d) => d,
        None => "Instala "@ + nombre + " como aplicación adicional."@,
    }
}

/// An item of a result array: kept only when its `id` is a text.
pub open spec fn resultado_de_item(item: Json, fuente: Seq<char>) -> Option<(Seq<char>, Seq<char>, Seq<char>, Seq<char>)> {
    match texto_de(obtener(item, "id"@)) {
        Some(id) => {
            let nombre = match con_contenido(texto_de(obtener(item, "name"@))) {
                Some(n) => n,
                None => id,
            };
            Some((id, fuente, nombre, descripcion_resultado(item, nombre)))
        },
        None => None,
    }
}

pub open spec fn resultados_de_items(items: Seq<Json>, fuente: Seq<char>) -> Seq<(Seq<char>, Seq<char>, Seq<char>, Seq<char>)>
    decreases items.len(),
{
    if items.len() == 0 {
        Seq::empty()
    } else {
        match resultado_de_item(items.last(), fuente) {
            Some(r) => resultados_de_items(items.drop_last(), fuente).push(r),
            None => resultados_de_items(items.drop_last(), fuente),
        }
    }
}

/// The name of a package found by attribute path: its last segment with
/// `-` and `_` read as spaces.
pub open spec fn nombre_desde_atributo(id: Seq<char>) -> Seq<char> {
    cambiar_caracter(cambiar_caracter(tras_ultimo(id, '.'), '-', ' '), '_', ' ')
}

pub open spec fn resultado_de_campo(c: Campo, fuente: Seq<char>) -> (Seq<char>, Seq<char>, Seq<char>, Seq<char>) {
    let origen = match obtener(c.valor, "pname"@) {
        Some(v) => Some(v),
        None => obtener(c.valor, "name"@),
    };
    let nombre = match con_contenido(texto_de(origen)) {
        Some(n) => n,
        None => nombre_desde_atributo(c.clave@),
    };
    (c.clave@, fuente, nombre, descripcion_resultado(c.valor, nombre))
}

pub open spec fn resultados_de_campos(campos: Seq<Campo>, fuente: Seq<char>) -> Seq<(Seq<char>, Seq<char>, Seq<char>, Seq<char>)>
    decreases campos.len(),
{
    if campos.len() == 0 {
        Seq::empty()
    } else {
        resultados_de_campos(campos.drop_last(), fuente).push(resultado_de_campo(campos.last(), fuente))
    }
}

pub open spec fn primeros_40<T>(s: Seq<T>) -> Seq<T> {
    if s.len() <= 40 {
        s
    } else {
        s.subrange(0, 40)
    }
}

/// The results of an external search: the first 40 items of a `results`
/// array, or the first 40 members of a `results` object.
pub open spec fn resultados_spec(datos: Json, fuente: Seq<char>) -> Seq<(Seq<char>, Seq<char>, Seq<char>, Seq<char>)> {
    let de_lista = match lista_de(obtener(datos, "results"@)) {
        Some(v) => resultados_de_items(primeros_40(v), fuente),
        None => Seq::empty(),
    };
    let de_objeto = match objeto_de(obtener(datos, "results"@)) {
        Some(c) => resultados_de_campos(primeros_40(c), fuente),
        None => Seq::empty(),
    };
    de_lista + de_objeto
}

fn texto_con_contenido<'a>(j: Option<&'a Json>) -> (r: Option<&'a str>)
    ensures
        match r {
            Some(t) => con_contenido(texto_de(valor_de(j))) == Some(t@),
            None => con_contenido(texto_de(valor_de(j))) is None,
        },
{
    match j {
        Some(v) => match v.como_texto() {
            Some(t) => if recortar(t).unicode_len() > 0 {
                Some(t)
            } else {
                None
            },
            None => None,
        },
        None => None,
    }
}

fn descripcion_exec(item: &Json, nombre: &str) -> (r: String)
    ensures
        r@ == descripcion_resultado(*item, nombre@),
{
    match texto_con_contenido(item.obtener("description")) {
        Some(d) => copiar(d),
        None => unir3("Instala ", nombre, " como aplicación adicional."),
    }
}

pub fn resultados_aplicaciones_externas(datos: &Json, fuente: &str) -> (r: Vec<ResultadoAplicacionExterna>)
    ensures
        vista_resultados(r@) == resultados_spec(*datos, fuente@),
{
    let mut resultados: Vec<ResultadoAplicacionExterna> = Vec::new();
    let resultados_json = datos.obtener("results");
    match resultados_json {
        Some(rj) => match rj.como_lista() {
            Some(items) => {
                let tope: usize = if items.len() <= 40 { items.len() } else { 40 };
                let ghost lista = primeros_40(items@);
                let mut i: usize = 0;
                while i < tope
                    invariant
                        tope == lista.len(),
                        lista == primeros_40(items@),
                        i <= tope,
                        vista_resultados(resultados@) == resultados_de_items(lista.subrange(0, i as int), fuente@),
                    decreases tope - i,
                {
                    assert(lista.subrange(0, i + 1).drop_last() =~= lista.subrange(0, i as int));
                    assert(lista.subrange(0, i + 1).last() == items@[i as int]);
                    let item = &items[i];
                    match item.obtener("id") {
                        Some(idj) => match idj.como_texto() {
                            Some(id) => {
                                let nombre = match texto_con_contenido(item.obtener("name")) {
                                    Some(n) => n,
                                    None => id,
                                };
                                let descripcion = descripcion_exec(item, nombre);
                                let ghost antes = vista_resultados(resultados@);
                                resultados.push(ResultadoAplicacionExterna {
                                    id: copiar(id),
                                    fuente: copiar(fuente),
                                    nombre: copiar(nombre),
                                    descripcion,
                                });
                                assert(vista_resultados(resultados@) =~= antes.push(
                                    resultado_de_item(items@[i as int], fuente@)->0,
                                ));
                            },
                            None => {},
                        },
                        None => {},
                    }
                    i = i + 1;
                }
                assert(lista.subrange(0, tope as int) =~= lista);
            },
            None => {},
        },
        None => {},
    }
    let ghost de_lista = vista_resultados(resultados@);
    match resultados_json {
        Some(rj) => match rj.como_objeto() {
            Some(campos) => {
                let tope: usize = if campos.len() <= 40 { campos.len() } else { 40 };
                let ghost lista = primeros_40(campos@);
                let mut i: usize = 0;
                while i < tope
                    invariant
                        tope == lista.len(),
                        lista == primeros_40(campos@),
                        i <= tope,
                        vista_resultados(resultados@) == de_lista + resultados_de_campos(lista.subrange(0, i as int), fuente@),
                    decreases tope - i,
                {
                    assert(lista.subrange(0, i + 1).drop_last() =~= lista.subrange(0, i as int));
                    assert(lista.subrange(0, i + 1).last() == campos@[i as int]);
                    let campo = &campos[i];
                    let item = &campo.valor;
                    let origen = match item.obtener("pname") {
                        Some(v) => Some(v),
                        None => item.obtener("name"),
                    };
                    let nombre: String = match texto_con_contenido(origen) {
                        Some(n) => copiar(n),
                        None => {
                            let ultimo = tras_ultimo_exec(campo.clave.as_str(), '.');
                            let sin_guiones = cambiar_caracter_exec(ultimo, '-', ' ');
                            cambiar_caracter_exec(sin_guiones.as_str(), '_', ' ')
                        },
                    };
                    let descripcion = descripcion_exec(item, nombre.as_str());
                    let ghost antes = vista_resultados(resultados@);
                    resultados.push(ResultadoAplicacionExterna {
                        id: copiar(campo.clave.as_str()),
                        fuente: copiar(fuente),
                        nombre,
                        descripcion,
                    });
                    assert(vista_resultados(resultados@) =~= antes.push(resultado_de_campo(campos@[i as int], fuente@)));
                    i = i + 1;
                }
                assert(lista.subrange(0, tope as int) =~= lista);
            },
            None => {},
        },
        None => {},
    }
    resultados
}

/// No browser is assumed: when none is chosen the options start with the
/// empty choice and that choice is the one selected, whatever is installed.
pub proof fn ley_navegador_no_se_asume(instaladas: Seq<Seq<char>>)
    ensures
        navegadores_spec(instaladas, None).len() >= 1,
        navegadores_spec(instaladas, None)[0] == ""@,
        seleccion_spec(navegadores_spec(instaladas, None), None) == 0,
{
    let a = opcion_si(true, ""@);
    let b = opcion_si(esta_en(instaladas, "firefox"@), "firefox"@);
    let c = opcion_si(esta_en(instaladas, "google-chrome"@), "google-chrome"@);
    assert(navegadores_spec(instaladas, None) == a + b + c);
    assert((a + b + c)[0] == a[0]);
}

/// The browser already chosen stays selected, installed or not: with Firefox
/// or Google Chrome as the current browser, the selected option is that one.
pub proof fn ley_navegador_actual_se_conserva(instaladas: Seq<Seq<char>>, actual: Seq<char>)
    requires
        actual == "firefox"@ || actual == "google-chrome"@,
    ensures
        seleccion_spec(navegadores_spec(instaladas, Some(actual)), Some(actual))
            < navegadores_spec(instaladas, Some(actual)).len(),
        navegadores_spec(instaladas, Some(actual))[
            seleccion_spec(navegadores_spec(instaladas, Some(actual)), Some(actual)) as int
        ] == actual,
{
    let ids = navegadores_spec(instaladas, Some(actual));
    let a = opcion_si(false, ""@);
    let b = opcion_si(esta_en(instaladas, "firefox"@) || actual == "firefox"@, "firefox"@);
    let c = opcion_si(esta_en(instaladas, "google-chrome"@) || actual == "google-chrome"@, "google-chrome"@);
    assert(ids == a + b + c);
    assert(a.len() == 0);
    let k: int = if actual == "firefox"@ { 0 } else { b.len() as int };
    assert(ids[k] == actual);
    lema_posicion_en(ids, actual);
    assert(ids.len() <= 3);
}

/// No Plasma text editor is assumed: when none is chosen the options start
/// with the empty choice, then KWrite and Kate, and the empty one is selected.
pub proof fn ley_editor_no_se_asume()
    ensures
        editores_spec(None) == seq![""@, "kwrite"@, "kate"@],
        seleccion_spec(editores_spec(None), None) == 0,
{
    assert(editores_spec(None) =~= seq![""@, "kwrite"@, "kate"@]);
}

/// The Plasma text editor already chosen stays selected.
pub proof fn ley_editor_actual_se_conserva(actual: Seq<char>)
    requires
        actual == "kwrite"@ || actual == "kate"@,
    ensures
        seleccion_spec(editores_spec(Some(actual)), Some(actual)) < editores_spec(Some(actual)).len(),
        editores_spec(Some(actual))[seleccion_spec(editores_spec(Some(actual)), Some(actual)) as int] == actual,
{
    let ids = editores_spec(Some(actual));
    assert(ids =~= seq!["kwrite"@, "kate"@]);
    let k: int = if actual == "kwrite"@ { 0 } else { 1 };
    assert(ids[k] == actual);
    lema_posicion_en(ids, actual);
}

/// A change that leaves the editor as it was sends only the browser: either
/// nothing changes, or the arguments change the browser and nothing else.
pub proof fn ley_cambio_parcial_no_reenvia_editor(
    persona: Seq<char>,
    browser_antes: Option<Seq<char>>,
    browser_despues: Option<Seq<char>>,
    editor: Option<Seq<char>>,
    plan: bool,
)
    ensures
        cambio_roles_spec(persona, browser_antes, browser_despues, editor, editor, plan) == (
            if browser_antes != browser_despues && browser_despues is Some {
                Some(seq![
                    "defaults"@,
                    "set"@,
                    "--person"@,
                    persona,
                    "--browser"@,
                    browser_despues->0,
                    if plan { "--plan"@ } else { "--yes"@ },
                    "--json"@,
                ])
            } else {
                None
            }
        ),
{
    if browser_antes != browser_despues && browser_despues is Some {
        let n = seq!["--browser"@, browser_despues->0];
        assert(seq!["defaults"@, "set"@, "--person"@, persona] + n + Seq::<Seq<char>>::empty() + seq![
            if plan { "--plan"@ } else { "--yes"@ },
            "--json"@,
        ] =~= seq![
            "defaults"@,
            "set"@,
            "--person"@,
            persona,
            "--browser"@,
            browser_despues->0,
            if plan { "--plan"@ } else { "--yes"@ },
            "--json"@,
        ]);
    }
}

/// Every change of default applications is addressed to the person, asked as
/// a plan or as a confirmed change, and answered in JSON.
pub proof fn ley_cambio_roles_es_plan_o_confirmacion_en_json(
    persona: Seq<char>,
    browser_antes: Option<Seq<char>>,
    browser_despues: Option<Seq<char>>,
    editor_antes: Option<Seq<char>>,
    editor_despues: Option<Seq<char>>,
    plan: bool,
)
    ensures
        cambio_roles_spec(persona, browser_antes, browser_despues, editor_antes, editor_despues, plan) matches Some(a)
            ==> {
            &&& a.len() >= 8
            &&& a.subrange(0, 4) == seq!["defaults"@, "set"@, "--person"@, persona]
            &&& a[a.len() - 2] == (if plan { "--plan"@ } else { "--yes"@ })
            &&& a[a.len() - 1] == "--json"@
        },
{
    let r = cambio_roles_spec(persona, browser_antes, browser_despues, editor_antes, editor_despues, plan);
    if r is Some {
        let a = r->0;
        let base = seq!["defaults"@, "set"@, "--person"@, persona];
        let n = if browser_antes != browser_despues && browser_despues is Some {
            seq!["--browser"@, browser_despues->0]
        } else {
            Seq::<Seq<char>>::empty()
        };
        let e = if editor_antes != editor_despues && editor_despues is Some {
            seq!["--plasma-text-editor"@, editor_despues->0]
        } else {
            Seq::<Seq<char>>::empty()
        };
        let fin = seq![if plan { "--plan"@ } else { "--yes"@ }, "--json"@];
        assert(a == base + n + e + fin);
        assert(a.subrange(0, 4) =~= base);
    }
}

proof fn lema_recortado_no_vacio(s: Seq<char>)
    ensures
        recortado(s).len() > 0 ==> s.len() > 0,
{
    if s.len() == 0 {
        assert(crate::cadena::sin_espacio_inicial(s) == s);
        assert(crate::cadena::sin_espacio_final(s) == s);
    }
}

proof fn lema_descripcion_no_vacia(item: Json, nombre: Seq<char>)
    ensures
        descripcion_resultado(item, nombre).len() > 0,
{
    reveal_strlit("Instala ");
    match texto_de(obtener(item, "description"@)) {
        Some(d) => lema_recortado_no_vacio(d),
        None => {},
    }
}

proof fn lema_resultados_items(items: Seq<Json>, fuente: Seq<char>)
    ensures
        resultados_de_items(items, fuente).len() <= items.len(),
        forall|i: int| 0 <= i < resultados_de_items(items, fuente).len()
            ==> (#[trigger] resultados_de_items(items, fuente)[i]).1 == fuente
                && resultados_de_items(items, fuente)[i].3.len() > 0,
    decreases items.len(),
{
    if items.len() > 0 {
        lema_resultados_items(items.drop_last(), fuente);
        let pre = resultados_de_items(items.drop_last(), fuente);
        let r = resultados_de_items(items, fuente);
        assert forall|i: int| 0 <= i < r.len() implies (#[trigger] r[i]).1 == fuente && r[i].3.len() > 0 by {
            if i < pre.len() {
                assert(r[i] == pre[i]);
            } else {
                let item = items.last();
                let id = texto_de(obtener(item, "id"@))->0;
                let nombre = match con_contenido(texto_de(obtener(item, "name"@))) {
                    Some(n) => n,
                    None => id,
                };
                lema_descripcion_no_vacia(item, nombre);
            }
        }
    }
}

proof fn lema_resultados_campos(campos: Seq<Campo>, fuente: Seq<char>)
    ensures
        resultados_de_campos(campos, fuente).len() == campos.len(),
        forall|i: int| 0 <= i < resultados_de_campos(campos, fuente).len()
            ==> (#[trigger] resultados_de_campos(campos, fuente)[i]).1 == fuente
                && resultados_de_campos(campos, fuente)[i].3.len() > 0,
    decreases campos.len(),
{
    if campos.len() > 0 {
        lema_resultados_campos(campos.drop_last(), fuente);
        let pre = resultados_de_campos(campos.drop_last(), fuente);
        let r = resultados_de_campos(campos, fuente);
        assert forall|i: int| 0 <= i < r.len() implies (#[trigger] r[i]).1 == fuente && r[i].3.len() > 0 by {
            if i < pre.len() {
                assert(r[i] == pre[i]);
            } else {
                let c = campos.last();
                let origen = match obtener(c.valor, "pname"@) {
                    Some(v) => Some(v),
                    None => obtener(c.valor, "name"@),
                };
                let nombre = match con_contenido(texto_de(origen)) {
                    Some(n) => n,
                    None => nombre_desde_atributo(c.clave@),
                };
                lema_descripcion_no_vacia(c.valor, nombre);
            }
        }
    }
}

/// The results of an external search: each carries the source it was searched
/// in and a description that is not empty; there are at most 40 of them, and
/// none unless the reply's `results` is an array or an object.
pub proof fn ley_resultados_externos(datos: Json, fuente: Seq<char>)
    ensures
        forall|i: int| 0 <= i < resultados_spec(datos, fuente).len()
            ==> (#[trigger] resultados_spec(datos, fuente)[i]).1 == fuente
                && resultados_spec(datos, fuente)[i].3.len() > 0,
        resultados_spec(datos, fuente).len() <= 40,
        (lista_de(obtener(datos, "results"@)) is None && objeto_de(obtener(datos, "results"@)) is None)
            ==> resultados_spec(datos, fuente).len() == 0,
        objeto_de(obtener(datos, "results"@)) matches Some(c)
            ==> resultados_spec(datos, fuente).len() == if c.len() < 40 { c.len() } else { 40 },
        lista_de(obtener(datos, "results"@)) matches Some(v)
            ==> resultados_spec(datos, fuente).len() == con_id_textual(if v.len() <= 40 { v } else { v.subrange(0, 40) }),
{
    let de_lista = match lista_de(obtener(datos, "results"@)) {
        Some(v) => resultados_de_items(primeros_40(v), fuente),
        None => Seq::empty(),
    };
    let de_objeto = match objeto_de(obtener(datos, "results"@)) {
        Some(c) => resultados_de_campos(primeros_40(c), fuente),
        None => Seq::empty(),
    };
    if let Some(v) = lista_de(obtener(datos, "results"@)) {
        lema_resultados_items(primeros_40(v), fuente);
        lema_cuenta_con_id(primeros_40(v), fuente);
        assert(objeto_de(obtener(datos, "results"@)) is None);
    }
    if let Some(c) = objeto_de(obtener(datos, "results"@)) {
        lema_resultados_campos(primeros_40(c), fuente);
    }
    let r = resultados_spec(datos, fuente);
    assert(r == de_lista + de_objeto);
    assert forall|i: int| 0 <= i < r.len() implies (#[trigger] r[i]).1 == fuente && r[i].3.len() > 0 by {
        if i < de_lista.len() {
            assert(r[i] == de_lista[i]);
        } else {
            assert(r[i] == de_objeto[i - de_lista.len()]);
        }
    }
}

/// How a result of an external search comes from an item of a `results`
/// array: it keeps the item's `id` and the source, is named by the item's
/// `name` when that is not blank and by the `id` otherwise, and is described
/// by the item's `description` when that is not blank and by "Instala
/// <nombre> como aplicación adicional." otherwise.
pub open spec fn sale_de_item(item: Json, fuente: Seq<char>, r: (Seq<char>, Seq<char>, Seq<char>, Seq<char>)) -> bool {
    &&& texto_de(obtener(item, "id"@)) == Some(r.0)
    &&& r.1 == fuente
    &&& r.2 == match con_contenido(texto_de(obtener(item, "name"@))) {
        Some(n) => n,
        None => r.0,
    }
    &&& r.3 == match con_contenido(texto_de(obtener(item, "description"@))) {
        Some(d) => d,
        None => "Instala "@ + r.2 + " como aplicación adicional."@,
    }
}

proof fn lema_items_de_donde(items: Seq<Json>, fuente: Seq<char>)
    ensures
        forall|i: int| #![trigger resultados_de_items(items, fuente)[i]] 0 <= i < resultados_de_items(items, fuente).len()
            ==> exists|j: int| 0 <= j < items.len() && sale_de_item(#[trigger] items[j], fuente, resultados_de_items(items, fuente)[i]),
    decreases items.len(),
{
    if items.len() > 0 {
        let pre_items = items.drop_last();
        lema_items_de_donde(pre_items, fuente);
        let pre = resultados_de_items(pre_items, fuente);
        let r = resultados_de_items(items, fuente);
        assert forall|i: int| #![trigger r[i]] 0 <= i < r.len()
            implies exists|j: int| 0 <= j < items.len() && sale_de_item(#[trigger] items[j], fuente, r[i]) by {
            if i < pre.len() {
                assert(r[i] == pre[i]);
                let j = choose|j: int| 0 <= j < pre_items.len() && sale_de_item(#[trigger] pre_items[j], fuente, pre[i]);
                assert(items[j] == pre_items[j]);
            } else {
                assert(sale_de_item(items[items.len() - 1], fuente, r[i]));
            }
        }
    }
}

proof fn lema_campos_de_donde(campos: Seq<Campo>, fuente: Seq<char>)
    ensures
        forall|i: int| 0 <= i < resultados_de_campos(campos, fuente).len()
            ==> resultados_de_campos(campos, fuente)[i] == resultado_de_campo(#[trigger] campos[i], fuente),
    decreases campos.len(),
{
    if campos.len() > 0 {
        lema_campos_de_donde(campos.drop_last(), fuente);
        lema_resultados_campos(campos, fuente);
        lema_resultados_campos(campos.drop_last(), fuente);
        let pre = resultados_de_campos(campos.drop_last(), fuente);
        let r = resultados_de_campos(campos, fuente);
        assert forall|i: int| 0 <= i < r.len() implies r[i] == resultado_de_campo(#[trigger] campos[i], fuente) by {
            if i < pre.len() {
                assert(r[i] == pre[i]);
                assert(campos[i] == campos.drop_last()[i]);
            }
        }
    }
}

/// Where each result of an external search comes from. With a `results`
/// array, each result comes, as `sale_de_item` says, from one of its first 40
/// items that has a text `id`. With a `results` object, the `i`-th result is
/// its `i`-th member (among the first 40): the member's name is the id, and
/// the result is named by the member's `pname` (else `name`) when not blank,
/// else by the last segment of the id.
pub proof fn ley_resultados_externos_nombrados(datos: Json, fuente: Seq<char>)
    ensures
        lista_de(obtener(datos, "results"@)) matches Some(v) ==> forall|i: int| #![trigger resultados_spec(datos, fuente)[i]] 0 <= i < resultados_spec(datos, fuente).len()
            ==> exists|j: int| 0 <= j < v.len() && j < 40
                && sale_de_item(#[trigger] v[j], fuente, resultados_spec(datos, fuente)[i]),
        objeto_de(obtener(datos, "results"@)) matches Some(c) ==> forall|i: int| 0 <= i < resultados_spec(datos, fuente).len()
            ==> i < c.len() && i < 40 && resultados_spec(datos, fuente)[i] == resultado_de_campo(#[trigger] c[i], fuente),
{
    let r = resultados_spec(datos, fuente);
    if let Some(v) = lista_de(obtener(datos, "results"@)) {
        let p = primeros_40(v);
        lema_items_de_donde(p, fuente);
        assert(r =~= resultados_de_items(p, fuente) + Seq::<(Seq<char>, Seq<char>, Seq<char>, Seq<char>)>::empty());
        assert forall|i: int| #![trigger r[i]] 0 <= i < r.len()
            implies exists|j: int| 0 <= j < v.len() && j < 40 && sale_de_item(#[trigger] v[j], fuente, r[i]) by {
            let j = choose|j: int| 0 <= j < p.len() && sale_de_item(#[trigger] p[j], fuente, r[i]);
            assert(p[j] == v[j]);
        }
    }
    if let Some(c) = objeto_de(obtener(datos, "results"@)) {
        let p = primeros_40(c);
        lema_campos_de_donde(p, fuente);
        lema_resultados_campos(p, fuente);
        assert(r =~= Seq::<(Seq<char>, Seq<char>, Seq<char>, Seq<char>)>::empty() + resultados_de_campos(p, fuente));
        assert forall|i: int| 0 <= i < r.len()
            implies i < c.len() && i < 40 && r[i] == resultado_de_campo(#[trigger] c[i], fuente) by {
            assert(p[i] == c[i]);
        }
    }
}

/// How many of the items have a text `id`.
pub open spec fn con_id_textual(items: Seq<Json>) -> nat
    decreases items.len(),
{
    if items.len() == 0 {
        0
    } else {
        con_id_textual(items.drop_last()) + if texto_de(obtener(items.last(), "id"@)) is Some { 1nat } else { 0nat }
    }
}

proof fn lema_cuenta_con_id(items: Seq<Json>, fuente: Seq<char>)
    ensures
        resultados_de_items(items, fuente).len() == con_id_textual(items),
    decreases items.len(),
{
    if items.len() > 0 {
        lema_cuenta_con_id(items.drop_last(), fuente);
    }
}

/// A change of the Plasma text editor is always sent, whatever happens to the
/// browser: the arguments hold `--plasma-text-editor` followed by the new
/// editor, addressed to the person.
pub proof fn ley_cambio_de_editor_se_envia(
    persona: Seq<char>,
    browser_antes: Option<Seq<char>>,
    browser_despues: Option<Seq<char>>,
    editor_antes: Option<Seq<char>>,
    editor_despues: Option<Seq<char>>,
    plan: bool,
)
    requires
        editor_antes != editor_despues,
        editor_despues is Some,
    ensures
        cambio_roles_spec(persona, browser_antes, browser_despues, editor_antes, editor_despues, plan) matches Some(a)
            && a.len() >= 4 && a[2] == "--person"@ && a[3] == persona
            && exists|k: int| 0 <= k && k + 1 < a.len() && #[trigger] a[k] == "--plasma-text-editor"@ && a[k + 1] == editor_despues->0,
{
    let a = cambio_roles_spec(persona, browser_antes, browser_despues, editor_antes, editor_despues, plan)->0;
    let n: int = if browser_antes != browser_despues && browser_despues is Some { 2 } else { 0 };
    assert(a[4 + n] == "--plasma-text-editor"@);
}

/// A change of the default browser is always sent, whatever happens to the
/// editor: the arguments hold `--browser` followed by the new browser.
pub proof fn ley_cambio_de_navegador_se_envia(
    persona: Seq<char>,
    browser_antes: Option<Seq<char>>,
    browser_despues: Option<Seq<char>>,
    editor_antes: Option<Seq<char>>,
    editor_despues: Option<Seq<char>>,
    plan: bool,
)
    requires
        browser_antes != browser_despues,
        browser_despues is Some,
    ensures
        cambio_roles_spec(persona, browser_antes, browser_despues, editor_antes, editor_despues, plan) matches Some(a)
            && a.len() >= 6 && a[2] == "--person"@ && a[3] == persona
            && a[4] == "--browser"@ && a[5] == browser_despues->0,
{
}

/// Nothing is sent when neither the browser nor the editor gets a new value.
pub proof fn ley_sin_cambio_no_se_envia(
    persona: Seq<char>,
    browser_antes: Option<Seq<char>>,
    browser_despues: Option<Seq<char>>,
    editor_antes: Option<Seq<char>>,
    editor_despues: Option<Seq<char>>,
    plan: bool,
)
    requires
        browser_antes == browser_despues || browser_despues is None,
        editor_antes == editor_despues || editor_despues is None,
    ensures
        cambio_roles_spec(persona, browser_antes, browser_despues, editor_antes, editor_despues, plan) is None,
{
}

/// Every installed browser among Firefox and Google Chrome is offered,
/// whatever else is installed or chosen; so is the browser already chosen.
pub proof fn ley_navegadores_instalados_se_ofrecen(instaladas: Seq<Seq<char>>, actual: Option<Seq<char>>, b: Seq<char>)
    requires
        b == "firefox"@ || b == "google-chrome"@,
        esta_en(instaladas, b) || actual == Some(b),
    ensures
        esta_en(navegadores_spec(instaladas, actual), b),
{
    let a = opcion_si(actual is None, ""@);
    let f = opcion_si(esta_en(instaladas, "firefox"@) || actual == Some("firefox"@), "firefox"@);
    let c = opcion_si(esta_en(instaladas, "google-chrome"@) || actual == Some("google-chrome"@), "google-chrome"@);
    let s = navegadores_spec(instaladas, actual);
    assert(s == a + f + c);
    if b == "firefox"@ {
        assert(s[a.len() as int] == "firefox"@);
    } else {
        assert(s[(a.len() + f.len()) as int] == "google-chrome"@);
    }
}

} // verus!
