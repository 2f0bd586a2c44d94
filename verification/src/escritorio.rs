//! The appearance and desktops page: names of styles and modes, the preview
//! of a mode, and the commands that save the choices.

use vstd::prelude::*;
use crate::cadena::{copiar, iguales, unidos, unir_con, vistas};
use crate::apariencia::ModoApariencia;
use crate::aplicaciones::{esta_en, esta_texto, textos_de, textos_lista};
use crate::json::{Json, apuntar, lista_de, obtener, texto_de};

verus! {

pub open spec fn estilo_humano_spec(valor: Seq<char>) -> Seq<char> {
    if valor == "everforest"@ {
        "Everforest"@
    } else {
        "Predeterminada"@
    }
}

/// How a visual style is named on the page.
pub fn estilo_humano(valor: &str) -> (r: &'static str)
    ensures
        r@ == estilo_humano_spec(valor@),
{
    if iguales(valor, "everforest") {
        "Everforest"
    } else {
        "Predeterminada"
    }
}

pub open spec fn modo_humano_spec(valor: Seq<char>) -> Seq<char> {
    if valor == "light"@ {
        "Claro"@
    } else if valor == "dark"@ {
        "Oscuro"@
    } else {
        "Automático"@
    }
}

/// How a colour mode is named on the page.
pub fn modo_humano(valor: &str) -> (r: &'static str)
    ensures
        r@ == modo_humano_spec(valor@),
{
    if iguales(valor, "light") {
        "Claro"
    } else if iguales(valor, "dark") {
        "Oscuro"
    } else {
        "Automático"
    }
}

pub open spec fn vista_previa_spec(seleccionado: Seq<char>, noctalia: Option<ModoApariencia>) -> ModoApariencia {
    if seleccionado == "light"@ {
        ModoApariencia::Claro
    } else if seleccionado == "dark"@ {
        ModoApariencia::Oscuro
    } else {
        match noctalia {
            Some(ModoApariencia::Claro) => ModoApariencia::Claro,
            Some(ModoApariencia::Oscuro) => ModoApariencia::Oscuro,
            _ => ModoApariencia::Automatico,
        }
    }
}

/// The mode the window previews for the chosen one: light and dark as
/// chosen, otherwise what Noctalia currently shows.
pub fn modo_vista_previa(seleccionado: &str, noctalia: Option<ModoApariencia>) -> (r: ModoApariencia)
    ensures
        r == vista_previa_spec(seleccionado@, noctalia),
{
    if iguales(seleccionado, "light") {
        ModoApariencia::Claro
    } else if iguales(seleccionado, "dark") {
        ModoApariencia::Oscuro
    } else {
        match noctalia {
            Some(ModoApariencia::Claro) => ModoApariencia::Claro,
            Some(ModoApariencia::Oscuro) => ModoApariencia::Oscuro,
            _ => ModoApariencia::Automatico,
        }
    }
}

pub open spec fn opcion_spec(opciones: Seq<Seq<char>>, i: u32, defecto: Seq<char>) -> Seq<char> {
    if (i as int) < opciones.len() {
        opciones[i as int]
    } else {
        defecto
    }
}

/// The option at a selected position, or a default when there is none.
pub fn opcion_elegida(opciones: &[String], i: u32, defecto: &str) -> (r: String)
    ensures
        r@ == opcion_spec(vistas(opciones@), i, defecto@),
{
    if (i as usize) < opciones.len() {
        copiar(opciones[i as usize].as_str())
    } else {
        copiar(defecto)
    }
}

/// The checked desktops other than the primary one, in order.
pub open spec fn adicionales_spec(marcas: Seq<(Seq<char>, bool)>, principal: Seq<char>) -> Seq<Seq<char>>
    decreases marcas.len(),
{
    if marcas.len() == 0 {
        Seq::empty()
    } else if marcas.last().1 && marcas.last().0 != principal {
        adicionales_spec(marcas.drop_last(), principal).push(marcas.last().0)
    } else {
        adicionales_spec(marcas.drop_last(), principal)
    }
}

pub open spec fn vista_marcas(v: Seq<(String, bool)>) -> Seq<(Seq<char>, bool)> {
    v.map_values(|m: (String, bool)| (m.0@, m.1))
}

/// The additional desktops as the engine takes them: comma-separated.
pub fn adicionales_marcados(marcas: &[(String, bool)], principal: &str) -> (r: String)
    ensures
        r@ == unidos(adicionales_spec(vista_marcas(marcas@), principal@), ","@),
{
    let ghost m = vista_marcas(marcas@);
    let mut elegidos: Vec<String> = Vec::new();
    let mut i: usize = 0;
    while i < marcas.len()
        invariant
            i <= marcas@.len(),
            m == vista_marcas(marcas@),
            vistas(elegidos@) == adicionales_spec(m.subrange(0, i as int), principal@),
        decreases marcas.len() - i,
    {
        assert(m.subrange(0, i + 1).drop_last() =~= m.subrange(0, i as int));
        assert(m.subrange(0, i + 1).last() == (marcas@[i as int].0@, marcas@[i as int].1));
        if marcas[i].1 && !iguales(marcas[i].0.as_str(), principal) {
            let ghost antes = vistas(elegidos@);
            elegidos.push(copiar(marcas[i].0.as_str()));
            assert(vistas(elegidos@) =~= antes.push(marcas@[i as int].0@));
        }
        i = i + 1;
    }
    assert(m.subrange(0, m.len() as int) =~= m);
    unir_con(&elegidos, ",")
}

pub open spec fn cierre(plan: bool) -> Seq<Seq<char>> {
    seq![if plan { "--plan"@ } else { "--yes"@ }, "--json"@]
}

/// The three engine commands that save the appearance, the primary desktop
/// and the additional ones, as a plan or for real.
pub open spec fn comandos_apariencia_spec(
    estilo: Seq<char>,
    modo: Seq<char>,
    escritorio: Seq<char>,
    adicionales: Seq<char>,
    plan: bool,
) -> Seq<Seq<Seq<char>>> {
    seq![
        seq!["appearance"@, "set"@, "--style"@, estilo, "--mode"@, modo] + cierre(plan),
        seq!["desktop"@, "set-primary"@, escritorio] + cierre(plan),
        seq!["desktop"@, "set-additional"@, adicionales] + cierre(plan),
    ]
}

pub open spec fn vista_comandos(v: Seq<Vec<String>>) -> Seq<Seq<Seq<char>>> {
    v.map_values(|c: Vec<String>| vistas(c@))
}

fn comando(partes: &[&str], plan: bool) -> (r: Vec<String>)
    ensures
        vistas(r@) == partes@.map_values(|t: &str| t@) + cierre(plan),
{
    let mut r: Vec<String> = Vec::new();
    let mut i: usize = 0;
    while i < partes.len()
        invariant
            i <= partes@.len(),
            vistas(r@) == partes@.subrange(0, i as int).map_values(|t: &str| t@),
        decreases partes.len() - i,
    {
        let ghost antes = vistas(r@);
        r.push(copiar(partes[i]));
        assert(vistas(r@) =~= antes.push(partes@[i as int]@));
        assert(partes@.subrange(0, i + 1).map_values(|t: &str| t@) =~= partes@.subrange(0, i as int).map_values(|t: &str| t@).push(partes@[i as int]@));
        i = i + 1;
    }
    assert(partes@.subrange(0, partes@.len() as int) =~= partes@);
    let ghost base = vistas(r@);
    r.push(copiar(if plan { "--plan" } else { "--yes" }));
    r.push(copiar("--json"));
    assert(vistas(r@) =~= base + cierre(plan));
    r
}

pub fn comandos_apariencia(
    estilo: &str,
    modo: &str,
    escritorio: &str,
    adicionales: &str,
    plan: bool,
) -> (r: Vec<Vec<String>>)
    ensures
        vista_comandos(r@) == comandos_apariencia_spec(estilo@, modo@, escritorio@, adicionales@, plan),
{
    let mut p1: Vec<&str> = Vec::new();
    p1.push("appearance");
    p1.push("set");
    p1.push("--style");
    p1.push(estilo);
    p1.push("--mode");
    p1.push(modo);
    let mut p2: Vec<&str> = Vec::new();
    p2.push("desktop");
    p2.push("set-primary");
    p2.push(escritorio);
    let mut p3: Vec<&str> = Vec::new();
    p3.push("desktop");
    p3.push("set-additional");
    p3.push(adicionales);
    assert(p1@.map_values(|t: &str| t@) =~= seq!["appearance"@, "set"@, "--style"@, estilo@, "--mode"@, modo@]);
    assert(p2@.map_values(|t: &str| t@) =~= seq!["desktop"@, "set-primary"@, escritorio@]);
    assert(p3@.map_values(|t: &str| t@) =~= seq!["desktop"@, "set-additional"@, adicionales@]);
    let mut r: Vec<Vec<String>> = Vec::new();
    r.push(comando(p1.as_slice(), plan));
    r.push(comando(p2.as_slice(), plan));
    r.push(comando(p3.as_slice(), plan));
    assert(vista_comandos(r@) =~= comandos_apariencia_spec(estilo@, modo@, escritorio@, adicionales@, plan));
    r
}

/// The texts listed at a JSON pointer.
pub open spec fn textos_en(datos: Json, puntero: Seq<char>) -> Seq<Seq<char>> {
    match lista_de(apuntar(datos, puntero)) {
        Some(v) => textos_de(v),
        None => Seq::empty(),
    }
}

pub open spec fn texto_o_spec(datos: Json, puntero: Seq<char>, defecto: Seq<char>) -> Seq<char> {
    match texto_de(apuntar(datos, puntero)) {
        Some(t) => t,
        None => defecto,
    }
}

/// What the appearance and desktops page offers and what is chosen now.
pub struct AjustesApariencia {
    pub estilos: Vec<String>,
    pub modos: Vec<String>,
    /// The declared style, `default` when none is.
    pub estilo: String,
    /// The declared mode, `auto` when none is.
    pub modo: String,
    /// The desktops that can be installed.
    pub catalogo: Vec<String>,
    /// The primary desktop, `niri` when none is declared.
    pub principal: String,
    pub adicionales: Vec<String>,
}

pub open spec fn vista_ajustes_apariencia(a: AjustesApariencia) -> (Seq<Seq<char>>, Seq<Seq<char>>, Seq<char>, Seq<char>, Seq<Seq<char>>, Seq<char>, Seq<Seq<char>>) {
    (vistas(a.estilos@), vistas(a.modos@), a.estilo@, a.modo@, vistas(a.catalogo@), a.principal@, vistas(a.adicionales@))
}

pub open spec fn ajustes_apariencia_spec(apariencia: Json, escritorio: Json) -> (Seq<Seq<char>>, Seq<Seq<char>>, Seq<char>, Seq<char>, Seq<Seq<char>>, Seq<char>, Seq<Seq<char>>) {
    (
        textos_en(apariencia, "/styles"@),
        textos_en(apariencia, "/modes"@),
        texto_o_spec(apariencia, "/declared/style"@, "default"@),
        texto_o_spec(apariencia, "/declared/mode"@, "auto"@),
        textos_en(escritorio, "/catalog"@),
        texto_o_spec(escritorio, "/desktop/primary"@, "niri"@),
        textos_en(escritorio, "/desktop/additional"@),
    )
}

fn textos_en_exec(datos: &Json, puntero: &str) -> (r: Vec<String>)
    ensures
        vistas(r@) == textos_en(*datos, puntero@),
{
    match datos.apuntar(puntero) {
        Some(v) => match v.como_lista() {
            Some(l) => textos_lista(l),
            None => Vec::new(),
        },
        None => Vec::new(),
    }
}

fn texto_o_exec(datos: &Json, puntero: &str, defecto: &str) -> (r: String)
    ensures
        r@ == texto_o_spec(*datos, puntero@, defecto@),
{
    match datos.apuntar(puntero) {
        Some(v) => match v.como_texto() {
            Some(t) => copiar(t),
            None => copiar(defecto),
        },
        None => copiar(defecto),
    }
}

/// The page's values, from the engine's appearance and desktop reports.
pub fn ajustes_apariencia(apariencia: &Json, escritorio: &Json) -> (r: AjustesApariencia)
    ensures
        vista_ajustes_apariencia(r) == ajustes_apariencia_spec(*apariencia, *escritorio),
{
    AjustesApariencia {
        estilos: textos_en_exec(apariencia, "/styles"),
        modos: textos_en_exec(apariencia, "/modes"),
        estilo: texto_o_exec(apariencia, "/declared/style", "default"),
        modo: texto_o_exec(apariencia, "/declared/mode", "auto"),
        catalogo: textos_en_exec(escritorio, "/catalog"),
        principal: texto_o_exec(escritorio, "/desktop/primary", "niri"),
        adicionales: textos_en_exec(escritorio, "/desktop/additional"),
    }
}

/// The boxes of the desktops at first: each checked when it is the primary
/// or an additional one, and locked when it is the primary.
pub open spec fn marcas_iniciales_spec(catalogo: Seq<Seq<char>>, principal: Seq<char>, adicionales: Seq<Seq<char>>) -> Seq<(bool, bool)> {
    Seq::new(catalogo.len(), |i: int| (catalogo[i] == principal || esta_en(adicionales, catalogo[i]), catalogo[i] != principal))
}

/// Each box as (checked, can be changed).
pub fn marcas_iniciales(catalogo: &Vec<String>, principal: &str, adicionales: &Vec<String>) -> (r: Vec<(bool, bool)>)
    ensures
        r@ == marcas_iniciales_spec(vistas(catalogo@), principal@, vistas(adicionales@)),
{
    let mut r: Vec<(bool, bool)> = Vec::new();
    let mut i: usize = 0;
    while i < catalogo.len()
        invariant
            i <= catalogo@.len(),
            r@ == marcas_iniciales_spec(vistas(catalogo@), principal@, vistas(adicionales@)).subrange(0, i as int),
        decreases catalogo.len() - i,
    {
        let id = catalogo[i].as_str();
        let es_principal = iguales(id, principal);
        let marcada = es_principal || esta_texto(adicionales.as_slice(), id);
        r.push((marcada, !es_principal));
        assert(r@ =~= marcas_iniciales_spec(vistas(catalogo@), principal@, vistas(adicionales@)).subrange(0, i + 1));
        i = i + 1;
    }
    r
}

/// The boxes after the primary desktop changes from `anterior` to `nuevo`:
/// the new primary is checked and locked, the old one unchecked, and every
/// other box can be changed.
pub open spec fn cambio_principal_spec(catalogo: Seq<Seq<char>>, marcas: Seq<(bool, bool)>, nuevo: Seq<char>, anterior: Seq<char>) -> Seq<(bool, bool)> {
    Seq::new(marcas.len(), |i: int| if i < catalogo.len() && catalogo[i] == nuevo {
        (true, false)
    } else if i < catalogo.len() && catalogo[i] == anterior {
        (false, true)
    } else {
        (marcas[i].0, true)
    })
}

pub fn cambiar_principal(catalogo: &Vec<String>, marcas: &mut Vec<(bool, bool)>, nuevo: &str, anterior: &str)
    ensures
        final(marcas)@ == cambio_principal_spec(vistas(catalogo@), old(marcas)@, nuevo@, anterior@),
{
    let ghost original = marcas@;
    let mut i: usize = 0;
    while i < marcas.len()
        invariant
            i <= marcas@.len(),
            marcas@.len() == original.len(),
            forall|j: int| 0 <= j < i ==> marcas@[j] == #[trigger] cambio_principal_spec(vistas(catalogo@), original, nuevo@, anterior@)[j],
            forall|j: int| i <= j < marcas@.len() ==> #[trigger] marcas@[j] == original[j],
        decreases marcas.len() - i,
    {
        let actual = marcas[i];
        let valor = if i < catalogo.len() && iguales(catalogo[i].as_str(), nuevo) {
            (true, false)
        } else if i < catalogo.len() && iguales(catalogo[i].as_str(), anterior) {
            (false, true)
        } else {
            (actual.0, true)
        };
        marcas.set(i, valor);
        i = i + 1;
    }
    assert(marcas@ =~= cambio_principal_spec(vistas(catalogo@), original, nuevo@, anterior@));
}

/// The primary desktop is never sent as an additional one.
pub proof fn ley_principal_no_es_adicional(marcas: Seq<(Seq<char>, bool)>, principal: Seq<char>)
    ensures
        !esta_en(adicionales_spec(marcas, principal), principal),
    decreases marcas.len(),
{
    if marcas.len() > 0 {
        ley_principal_no_es_adicional(marcas.drop_last(), principal);
        let pre = adicionales_spec(marcas.drop_last(), principal);
        if marcas.last().1 && marcas.last().0 != principal {
            let r = pre.push(marcas.last().0);
            if esta_en(r, principal) {
                let j = choose|j: int| 0 <= j < r.len() && r[j] == principal;
                if j < pre.len() {
                    assert(pre[j] == principal);
                }
            }
        }
    }
}

} // verus!
