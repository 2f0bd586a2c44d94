//! Default applications per person: what each person has chosen, what the
//! page offers, and what saving a choice does.

use vstd::prelude::*;
use crate::cadena::{copiar, iguales, vistas};
use crate::json::{Json, apuntar, booleano_de, lista_de, obtener, texto_de, valor_de};
use crate::aplicaciones::{
    argumentos_cambio_roles, cambio_roles_spec, esta_en, esta_texto, texto_opcional, vistas_opcion,
};

verus! {

/// The default-application state of one person.
pub struct RolesPersona {
    pub id: String,
    pub navegador: Option<String>,
    pub editor: Option<String>,
    pub navegador_pendiente: bool,
    pub editor_pendiente: bool,
    pub mostrar_editor: bool,
}

pub open spec fn texto_op(t: Option<String>) -> Option<Seq<char>> {
    match t {
        Some(s) => Some(s@),
        None => None,
    }
}

pub open spec fn vista_roles(r: RolesPersona) -> (Seq<char>, Option<Seq<char>>, Option<Seq<char>>, bool, bool, bool) {
    (r.id@, texto_op(r.navegador), texto_op(r.editor), r.navegador_pendiente, r.editor_pendiente, r.mostrar_editor)
}

pub open spec fn vista_lista_roles(v: Seq<RolesPersona>) -> Seq<(Seq<char>, Option<Seq<char>>, Option<Seq<char>>, bool, bool, bool)> {
    v.map_values(|r: RolesPersona| vista_roles(r))
}

/// A person of the defaults report: the browser must be chosen when the
/// engine says so or, failing that, when none is set; the editor when the
/// engine says so; the editor row shows when it must be chosen or is set.
pub open spec fn roles_de(p: Json) -> Option<(Seq<char>, Option<Seq<char>>, Option<Seq<char>>, bool, bool, bool)> {
    match texto_de(obtener(p, "id"@)) {
        None => None,
        Some(id) => {
            let navegador = texto_de(apuntar(p, "/requested/browser"@));
            let editor = texto_de(apuntar(p, "/requested/plasmaTextEditor"@));
            let np = match booleano_de(apuntar(p, "/needsChoice/browser"@)) {
                Some(b) => b,
                None => navegador is None,
            };
            let ep = match booleano_de(apuntar(p, "/needsChoice/plasmaTextEditor"@)) {
                Some(b) => b,
                None => false,
            };
            Some((id, navegador, editor, np, ep, ep || editor is Some))
        },
    }
}

pub open spec fn roles_de_lista(ps: Seq<Json>) -> Seq<(Seq<char>, Option<Seq<char>>, Option<Seq<char>>, bool, bool, bool)>
    decreases ps.len(),
{
    if ps.len() == 0 {
        Seq::empty()
    } else {
        match roles_de(ps.last()) {
            Some(r) => roles_de_lista(ps.drop_last()).push(r),
            None => roles_de_lista(ps.drop_last()),
        }
    }
}

/// The people of the defaults report that have an identifier, in order.
pub open spec fn personas_spec(predeterminados: Json) -> Seq<(Seq<char>, Option<Seq<char>>, Option<Seq<char>>, bool, bool, bool)> {
    match lista_de(obtener(predeterminados, "people"@)) {
        Some(ps) => roles_de_lista(ps),
        None => Seq::empty(),
    }
}

fn texto_en(p: &Json, puntero: &str) -> (r: Option<String>)
    ensures
        texto_op(r) == texto_de(apuntar(*p, puntero@)),
{
    match p.apuntar(puntero) {
        Some(v) => match v.como_texto() {
            Some(t) => Some(copiar(t)),
            None => None,
        },
        None => None,
    }
}

fn booleano_en(p: &Json, puntero: &str) -> (r: Option<bool>)
    ensures
        r == booleano_de(apuntar(*p, puntero@)),
{
    match p.apuntar(puntero) {
        Some(v) => v.como_bool(),
        None => None,
    }
}

pub fn roles_personas(predeterminados: &Json) -> (r: Vec<RolesPersona>)
    ensures
        vista_lista_roles(r@) == personas_spec(*predeterminados),
{
    let mut r: Vec<RolesPersona> = Vec::new();
    let personas = match predeterminados.obtener("people") {
        Some(p) => match p.como_lista() {
            Some(l) => l,
            None => return r,
        },
        None => return r,
    };
    let mut i: usize = 0;
    while i < personas.len()
        invariant
            i <= personas@.len(),
            lista_de(obtener(*predeterminados, "people"@)) == Some(personas@),
            vista_lista_roles(r@) == roles_de_lista(personas@.subrange(0, i as int)),
        decreases personas.len() - i,
    {
        assert(personas@.subrange(0, i + 1).drop_last() =~= personas@.subrange(0, i as int));
        assert(personas@.subrange(0, i + 1).last() == personas@[i as int]);
        let p = &personas[i];
        match p.obtener("id") {
            Some(idj) => match idj.como_texto() {
                Some(id) => {
                    let navegador = texto_en(p, "/requested/browser");
                    let editor = texto_en(p, "/requested/plasmaTextEditor");
                    let navegador_pendiente = match booleano_en(p, "/needsChoice/browser") {
                        Some(b) => b,
                        None => navegador.is_none(),
                    };
                    let editor_pendiente = match booleano_en(p, "/needsChoice/plasmaTextEditor") {
                        Some(b) => b,
                        None => false,
                    };
                    let mostrar_editor = editor_pendiente || editor.is_some();
                    let ghost antes = vista_lista_roles(r@);
                    r.push(RolesPersona { id: copiar(id), navegador, editor, navegador_pendiente, editor_pendiente, mostrar_editor });
                    assert(vista_lista_roles(r@) =~= antes.push(roles_de(personas@[i as int])->0));
                },
                None => {},
            },
            None => {},
        }
        i = i + 1;
    }
    assert(personas@.subrange(0, personas@.len() as int) =~= personas@);
    r
}

/// How a browser option is labelled; `true` when the label is a visible
/// text to translate.
pub open spec fn etiqueta_navegador_spec(id: Seq<char>, seleccionados: Seq<Seq<char>>) -> (Seq<char>, bool) {
    if id == ""@ {
        ("Elige una opción"@, true)
    } else if id == "firefox"@ {
        if esta_en(seleccionados, "firefox"@) {
            ("Firefox"@, false)
        } else {
            ("Firefox — no instalado en este equipo"@, true)
        }
    } else if id == "google-chrome"@ {
        if esta_en(seleccionados, "google-chrome"@) {
            ("Google Chrome"@, false)
        } else {
            ("Google Chrome — no instalado en este equipo"@, true)
        }
    } else {
        (id, false)
    }
}

pub fn etiqueta_navegador(id: &str, seleccionados: &[String]) -> (r: (String, bool))
    ensures
        (r.0@, r.1) == etiqueta_navegador_spec(id@, vistas(seleccionados@)),
{
    if iguales(id, "") {
        (copiar("Elige una opción"), true)
    } else if iguales(id, "firefox") {
        if esta_texto(seleccionados, "firefox") {
            (copiar("Firefox"), false)
        } else {
            (copiar("Firefox — no instalado en este equipo"), true)
        }
    } else if iguales(id, "google-chrome") {
        if esta_texto(seleccionados, "google-chrome") {
            (copiar("Google Chrome"), false)
        } else {
            (copiar("Google Chrome — no instalado en este equipo"), true)
        }
    } else {
        (copiar(id), false)
    }
}

pub open spec fn etiqueta_editor_spec(id: Seq<char>) -> (Seq<char>, bool) {
    if id == ""@ {
        ("Elige una opción"@, true)
    } else if id == "kwrite"@ {
        ("KWrite — sencillo y ligero"@, true)
    } else if id == "kate"@ {
        ("Kate — proyectos y trabajo avanzado"@, true)
    } else {
        (id, false)
    }
}

/// How a Plasma editor option is labelled; `true` when it is to translate.
pub fn etiqueta_editor(id: &str) -> (r: (String, bool))
    ensures
        (r.0@, r.1) == etiqueta_editor_spec(id@),
{
    if iguales(id, "") {
        (copiar("Elige una opción"), true)
    } else if iguales(id, "kwrite") {
        (copiar("KWrite — sencillo y ligero"), true)
    } else if iguales(id, "kate") {
        (copiar("Kate — proyectos y trabajo avanzado"), true)
    } else {
        (copiar(id), false)
    }
}

pub open spec fn navegadores_instalados(seleccionados: Seq<Seq<char>>) -> nat {
    (if esta_en(seleccionados, "firefox"@) { 1nat } else { 0nat }) + (if esta_en(seleccionados, "google-chrome"@) { 1nat } else { 0nat })
}

/// The explanation under the browser choice: a single installed browser is
/// still not chosen for the person.
pub open spec fn subtitulo_navegador_spec(pendiente: bool, seleccionados: Seq<Seq<char>>) -> Seq<char> {
    if pendiente && navegadores_instalados(seleccionados) == 1 {
        "Solo hay un navegador instalado. Korunix no decidirá por ti: confirma cuál quieres usar."@
    } else if pendiente {
        "Elige el navegador que debe abrir enlaces y páginas web."@
    } else {
        "Abrirá enlaces y páginas web. Las imágenes y los PDF seguirán usando sus propios visores."@
    }
}

pub fn subtitulo_navegador(pendiente: bool, seleccionados: &[String]) -> (r: &'static str)
    ensures
        r@ == subtitulo_navegador_spec(pendiente, vistas(seleccionados@)),
{
    let mut instalados: usize = 0;
    if esta_texto(seleccionados, "firefox") {
        instalados = instalados + 1;
    }
    if esta_texto(seleccionados, "google-chrome") {
        instalados = instalados + 1;
    }
    if pendiente && instalados == 1 {
        "Solo hay un navegador instalado. Korunix no decidirá por ti: confirma cuál quieres usar."
    } else if pendiente {
        "Elige el navegador que debe abrir enlaces y páginas web."
    } else {
        "Abrirá enlaces y páginas web. Las imágenes y los PDF seguirán usando sus propios visores."
    }
}

/// What saving the default applications of a person does.
pub enum DecisionRoles {
    /// A browser must be chosen explicitly first.
    FaltaNavegador,
    /// KWrite or Kate must be chosen first.
    FaltaEditor,
    /// Nothing changed.
    SinCambio,
    /// The plan to show and the command that applies it.
    Cambiar(Vec<String>, Vec<String>),
}

/// The option chosen in a list, unless it is the empty one.
pub open spec fn elegido(ids: Seq<Seq<char>>, sel: Option<u32>) -> Option<Seq<char>> {
    match sel {
        Some(i) => if (i as int) < ids.len() && ids[i as int].len() > 0 {
            Some(ids[i as int])
        } else {
            None
        },
        None => None,
    }
}

pub open spec fn decision_spec(
    persona: Seq<char>,
    navegadores: Seq<Seq<char>>,
    navegador_sel: u32,
    editores: Seq<Seq<char>>,
    editor_sel: Option<u32>,
    navegador_antes: Option<Seq<char>>,
    editor_antes: Option<Seq<char>>,
    navegador_pendiente: bool,
    editor_pendiente: bool,
) -> Option<(Seq<Seq<char>>, Seq<Seq<char>>)> {
    let navegador = elegido(navegadores, Some(navegador_sel));
    let editor = elegido(editores, editor_sel);
    match cambio_roles_spec(persona, navegador_antes, navegador, editor_antes, editor, true) {
        Some(plan) => Some((plan, cambio_roles_spec(persona, navegador_antes, navegador, editor_antes, editor, false)->0)),
        None => None,
    }
}

pub open spec fn decision_ok(
    navegadores: Seq<Seq<char>>,
    navegador_sel: u32,
    editores: Seq<Seq<char>>,
    editor_sel: Option<u32>,
    navegador_pendiente: bool,
    editor_pendiente: bool,
) -> Option<bool> {
    if navegador_pendiente && elegido(navegadores, Some(navegador_sel)) is None {
        Some(true)
    } else if editor_pendiente && elegido(editores, editor_sel) is None {
        Some(false)
    } else {
        None
    }
}

fn elegido_exec<'a>(ids: &'a [String], sel: Option<u32>) -> (r: Option<&'a str>)
    ensures
        crate::motor::vista_opcional(r) == elegido(vistas(ids@), sel),
{
    match sel {
        Some(i) => if (i as usize) < ids.len() && ids[i as usize].as_str().unicode_len() > 0 {
            Some(ids[i as usize].as_str())
        } else {
            None
        },
        None => None,
    }
}

/// Saving requires an explicit browser when one is pending and an explicit
/// editor when one is pending; otherwise it plans exactly the changes made.
/// `editor_sel` is `None` when the editor row is not shown.
pub fn decision_guardar_roles(
    persona: &str,
    navegadores: &[String],
    navegador_sel: u32,
    editores: &[String],
    editor_sel: Option<u32>,
    navegador_antes: Option<&str>,
    editor_antes: Option<&str>,
    navegador_pendiente: bool,
    editor_pendiente: bool,
) -> (r: DecisionRoles)
    ensures
        match decision_ok(vistas(navegadores@), navegador_sel, vistas(editores@), editor_sel, navegador_pendiente, editor_pendiente) {
            Some(true) => r is FaltaNavegador,
            Some(false) => r is FaltaEditor,
            None => match decision_spec(persona@, vistas(navegadores@), navegador_sel, vistas(editores@), editor_sel,
                texto_opcional(navegador_antes), texto_opcional(editor_antes), navegador_pendiente, editor_pendiente) {
                None => r is SinCambio,
                Some((plan, ejecucion)) => r matches DecisionRoles::Cambiar(p, e) && vistas(p@) == plan && vistas(e@) == ejecucion,
            },
        },
{
    let navegador = elegido_exec(navegadores, Some(navegador_sel));
    if navegador_pendiente && navegador.is_none() {
        return DecisionRoles::FaltaNavegador;
    }
    let editor = elegido_exec(editores, editor_sel);
    if editor_pendiente && editor.is_none() {
        return DecisionRoles::FaltaEditor;
    }
    let plan = match argumentos_cambio_roles(persona, navegador_antes, navegador, editor_antes, editor, true) {
        Some(p) => p,
        None => return DecisionRoles::SinCambio,
    };
    match argumentos_cambio_roles(persona, navegador_antes, navegador, editor_antes, editor, false) {
        Some(e) => DecisionRoles::Cambiar(plan, e),
        None => DecisionRoles::SinCambio,
    }
}

impl DecisionRoles {
    /// The message shown when the choices cannot be saved yet.
    pub fn mensaje(&self) -> (r: Option<&'static str>)
        ensures
            match self {
                DecisionRoles::FaltaNavegador => r == Some("Elige explícitamente qué navegador debe ser el predeterminado."),
                DecisionRoles::FaltaEditor => r == Some("Elige KWrite o Kate y revisa la diferencia de enfoque antes de continuar."),
                _ => r is None,
            },
    {
        match self {
            DecisionRoles::FaltaNavegador => Some("Elige explícitamente qué navegador debe ser el predeterminado."),
            DecisionRoles::FaltaEditor => Some("Elige KWrite o Kate y revisa la diferencia de enfoque antes de continuar."),
            _ => None,
        }
    }
}

} // verus!
