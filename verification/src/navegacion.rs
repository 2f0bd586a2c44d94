//! The twelve pages of the window: their position in the side bar, the key
//! of their title, and the words that the global search matches.

use vstd::prelude::*;
use crate::cadena::{aparece_en, contiene, contiene_exec, iguales, minusculas_de, minusculas_unicode, recortado, recortar, unir3};

verus! {

/// Position of each page in the side bar.
pub open spec fn indice_pagina_spec(nombre: Seq<char>) -> Option<i32> {
    if nombre == "summary"@ {
        Some(0)
    } else if nombre == "updates"@ {
        Some(1)
    } else if nombre == "hardware"@ {
        Some(2)
    } else if nombre == "media"@ {
        Some(3)
    } else if nombre == "storage"@ {
        Some(4)
    } else if nombre == "firmware"@ {
        Some(5)
    } else if nombre == "applications"@ {
        Some(6)
    } else if nombre == "appearance"@ {
        Some(7)
    } else if nombre == "localization"@ {
        Some(8)
    } else if nombre == "people"@ {
        Some(9)
    } else if nombre == "backups"@ {
        Some(10)
    } else if nombre == "maintenance"@ {
        Some(11)
    } else {
        None
    }
}

pub fn indice_pagina(nombre: &str) -> (r: Option<i32>)
    ensures
        r == indice_pagina_spec(nombre@),
{
    if iguales(nombre, "summary") {
        Some(0)
    } else if iguales(nombre, "updates") {
        Some(1)
    } else if iguales(nombre, "hardware") {
        Some(2)
    } else if iguales(nombre, "media") {
        Some(3)
    } else if iguales(nombre, "storage") {
        Some(4)
    } else if iguales(nombre, "firmware") {
        Some(5)
    } else if iguales(nombre, "applications") {
        Some(6)
    } else if iguales(nombre, "appearance") {
        Some(7)
    } else if iguales(nombre, "localization") {
        Some(8)
    } else if iguales(nombre, "people") {
        Some(9)
    } else if iguales(nombre, "backups") {
        Some(10)
    } else if iguales(nombre, "maintenance") {
        Some(11)
    } else {
        None
    }
}

/// Key of the title of each page; the summary's for any other name.
pub open spec fn clave_titulo_spec(nombre: Seq<char>) -> Seq<char> {
    if nombre == "updates"@ {
        "updates"@
    } else if nombre == "hardware"@ {
        "hardware"@
    } else if nombre == "media"@ {
        "media"@
    } else if nombre == "storage"@ {
        "storage"@
    } else if nombre == "firmware"@ {
        "firmware_updates"@
    } else if nombre == "applications"@ {
        "applications"@
    } else if nombre == "appearance"@ {
        "appearance_desktops"@
    } else if nombre == "localization"@ {
        "localization"@
    } else if nombre == "people"@ {
        "people"@
    } else if nombre == "backups"@ {
        "backups_history"@
    } else if nombre == "maintenance"@ {
        "maintenance"@
    } else {
        "summary"@
    }
}

pub fn clave_titulo_pagina(nombre: &str) -> (r: &'static str)
    ensures
        r@ == clave_titulo_spec(nombre@),
{
    if iguales(nombre, "updates") {
        "updates"
    } else if iguales(nombre, "hardware") {
        "hardware"
    } else if iguales(nombre, "media") {
        "media"
    } else if iguales(nombre, "storage") {
        "storage"
    } else if iguales(nombre, "firmware") {
        "firmware_updates"
    } else if iguales(nombre, "applications") {
        "applications"
    } else if iguales(nombre, "appearance") {
        "appearance_desktops"
    } else if iguales(nombre, "localization") {
        "localization"
    } else if iguales(nombre, "people") {
        "people"
    } else if iguales(nombre, "backups") {
        "backups_history"
    } else if iguales(nombre, "maintenance") {
        "maintenance"
    } else {
        "summary"
    }
}

/// Words that lead the global search to each page.
pub open spec fn terminos_spec(nombre: Seq<char>) -> Seq<char> {
    if nombre == "summary"@ {
        "resumen inicio estado configuración configuracion equipo ordenador computadora sistema"@
    } else if nombre == "updates"@ {
        "actualizaciones actualizar sistema software versiones canal estable inestable update"@
    } else if nombre == "hardware"@ {
        "hardware equipo ordenador computadora procesador cpu memoria ram gráficos graficos gpu red controlador"@
    } else if nombre == "media"@ {
        "sonido audio altavoces auriculares micrófono microfono cámara camara webcam vídeo video"@
    } else if nombre == "storage"@ {
        "almacenamiento disco discos unidad unidades usb expulsar extraíble extraible guardar datos"@
    } else if nombre == "firmware"@ {
        "firmware dispositivos actualizaciones bios uefi placa hardware"@
    } else if nombre == "applications"@ {
        "aplicaciones programas software navegador browser firefox chrome correo thunderbird editor texto kwrite kate oficina juegos diseño multimedia instalar eliminar"@
    } else if nombre == "appearance"@ {
        "apariencia tema claro oscuro automático automatico everforest escritorio niri hyprland plasma cinnamon fondo iconos"@
    } else if nombre == "localization"@ {
        "idioma región region país pais formatos zona horaria hora teclado distribución distribucion variante entrada"@
    } else if nombre == "people"@ {
        "personas persona usuario usuarios cuenta cuentas contraseña contrasena avatar administrador estándar estandar"@
    } else if nombre == "backups"@ {
        "copias copia seguridad exportar restaurar restauración restauracion historial backup"@
    } else if nombre == "maintenance"@ {
        "mantenimiento limpiar limpieza recuperación recuperacion versiones reinicio rollback"@
    } else {
        ""@
    }
}

pub fn terminos_busqueda_pagina(nombre: &str) -> (r: &'static str)
    ensures
        r@ == terminos_spec(nombre@),
{
    if iguales(nombre, "summary") {
        "resumen inicio estado configuración configuracion equipo ordenador computadora sistema"
    } else if iguales(nombre, "updates") {
        "actualizaciones actualizar sistema software versiones canal estable inestable update"
    } else if iguales(nombre, "hardware") {
        "hardware equipo ordenador computadora procesador cpu memoria ram gráficos graficos gpu red controlador"
    } else if iguales(nombre, "media") {
        "sonido audio altavoces auriculares micrófono microfono cámara camara webcam vídeo video"
    } else if iguales(nombre, "storage") {
        "almacenamiento disco discos unidad unidades usb expulsar extraíble extraible guardar datos"
    } else if iguales(nombre, "firmware") {
        "firmware dispositivos actualizaciones bios uefi placa hardware"
    } else if iguales(nombre, "applications") {
        "aplicaciones programas software navegador browser firefox chrome correo thunderbird editor texto kwrite kate oficina juegos diseño multimedia instalar eliminar"
    } else if iguales(nombre, "appearance") {
        "apariencia tema claro oscuro automático automatico everforest escritorio niri hyprland plasma cinnamon fondo iconos"
    } else if iguales(nombre, "localization") {
        "idioma región region país pais formatos zona horaria hora teclado distribución distribucion variante entrada"
    } else if iguales(nombre, "people") {
        "personas persona usuario usuarios cuenta cuentas contraseña contrasena avatar administrador estándar estandar"
    } else if iguales(nombre, "backups") {
        "copias copia seguridad exportar restaurar restauración restauracion historial backup"
    } else if iguales(nombre, "maintenance") {
        "mantenimiento limpiar limpieza recuperación recuperacion versiones reinicio rollback"
    } else {
        ""
    }
}

/// The side bar holds exactly twelve pages, at positions 0 to 11, and no two
/// names share a position.
pub proof fn ley_doce_paginas(a: Seq<char>, b: Seq<char>)
    ensures
        indice_pagina_spec(a) matches Some(i) ==> 0 <= i < 12,
        indice_pagina_spec(a) is Some && indice_pagina_spec(a) == indice_pagina_spec(b) ==> a == b,
        indice_pagina_spec("summary"@) == Some(0i32),
        indice_pagina_spec("updates"@) == Some(1i32),
        indice_pagina_spec("hardware"@) == Some(2i32),
        indice_pagina_spec("media"@) == Some(3i32),
        indice_pagina_spec("storage"@) == Some(4i32),
        indice_pagina_spec("firmware"@) == Some(5i32),
        indice_pagina_spec("applications"@) == Some(6i32),
        indice_pagina_spec("appearance"@) == Some(7i32),
        indice_pagina_spec("localization"@) == Some(8i32),
        indice_pagina_spec("people"@) == Some(9i32),
        indice_pagina_spec("backups"@) == Some(10i32),
        indice_pagina_spec("maintenance"@) == Some(11i32),
{
    reveal_strlit("summary");
    reveal_strlit("updates");
    reveal_strlit("hardware");
    reveal_strlit("media");
    reveal_strlit("storage");
    reveal_strlit("firmware");
    reveal_strlit("applications");
    reveal_strlit("appearance");
    reveal_strlit("localization");
    reveal_strlit("people");
    reveal_strlit("backups");
    reveal_strlit("maintenance");
    assert("summary"@[0] == 's' && "summary"@[1] == 'u' && "summary"@.len() == 7);
    assert("updates"@[0] == 'u' && "updates"@[1] == 'p' && "updates"@.len() == 7);
    assert("hardware"@[0] == 'h' && "hardware"@[1] == 'a' && "hardware"@.len() == 8);
    assert("media"@[0] == 'm' && "media"@[1] == 'e' && "media"@.len() == 5);
    assert("storage"@[0] == 's' && "storage"@[1] == 't' && "storage"@.len() == 7);
    assert("firmware"@[0] == 'f' && "firmware"@[1] == 'i' && "firmware"@.len() == 8);
    assert("applications"@[0] == 'a' && "applications"@[1] == 'p' && "applications"@.len() == 12);
    assert("appearance"@[0] == 'a' && "appearance"@[1] == 'p' && "appearance"@.len() == 10);
    assert("localization"@[0] == 'l' && "localization"@[1] == 'o' && "localization"@.len() == 12);
    assert("people"@[0] == 'p' && "people"@[1] == 'e' && "people"@.len() == 6);
    assert("backups"@[0] == 'b' && "backups"@[1] == 'a' && "backups"@.len() == 7);
    assert("maintenance"@[0] == 'm' && "maintenance"@[1] == 'a' && "maintenance"@.len() == 11);
}

/// The pages of the side bar in their order: name, key of the title, icon.
pub open spec fn paginas_spec() -> Seq<(Seq<char>, Seq<char>, Seq<char>)> {
    seq![
        ("summary"@, "summary"@, "view-grid-symbolic"@),
        ("updates"@, "updates"@, "software-update-available-symbolic"@),
        ("hardware"@, "hardware"@, "computer-symbolic"@),
        ("media"@, "media"@, "audio-speakers-symbolic"@),
        ("storage"@, "storage"@, "drive-harddisk-symbolic"@),
        ("firmware"@, "firmware_updates"@, "preferences-system-symbolic"@),
        ("applications"@, "applications"@, "system-software-install-symbolic"@),
        ("appearance"@, "appearance_desktops"@, "preferences-desktop-appearance-symbolic"@),
        ("localization"@, "localization"@, "preferences-desktop-locale-symbolic"@),
        ("people"@, "people"@, "system-users-symbolic"@),
        ("backups"@, "backups_history"@, "document-save-symbolic"@),
        ("maintenance"@, "maintenance"@, "applications-system-symbolic"@),
    ]
}

pub open spec fn vista_paginas(v: Seq<(&'static str, &'static str, &'static str)>) -> Seq<(Seq<char>, Seq<char>, Seq<char>)> {
    v.map_values(|p: (&'static str, &'static str, &'static str)| (p.0@, p.1@, p.2@))
}

/// The rows of the side bar, in order.
pub fn paginas_laterales() -> (r: Vec<(&'static str, &'static str, &'static str)>)
    ensures
        vista_paginas(r@) == paginas_spec(),
{
    let mut r: Vec<(&'static str, &'static str, &'static str)> = Vec::new();
    r.push(("summary", "summary", "view-grid-symbolic"));
    r.push(("updates", "updates", "software-update-available-symbolic"));
    r.push(("hardware", "hardware", "computer-symbolic"));
    r.push(("media", "media", "audio-speakers-symbolic"));
    r.push(("storage", "storage", "drive-harddisk-symbolic"));
    r.push(("firmware", "firmware_updates", "preferences-system-symbolic"));
    r.push(("applications", "applications", "system-software-install-symbolic"));
    r.push(("appearance", "appearance_desktops", "preferences-desktop-appearance-symbolic"));
    r.push(("localization", "localization", "preferences-desktop-locale-symbolic"));
    r.push(("people", "people", "system-users-symbolic"));
    r.push(("backups", "backups_history", "document-save-symbolic"));
    r.push(("maintenance", "maintenance", "applications-system-symbolic"));
    assert(vista_paginas(r@) =~= paginas_spec());
    r
}

/// The side bar and the page names agree: row `i` shows the page whose
/// position is `i`, under the title key of that page.
pub proof fn ley_barra_lateral_coherente(i: int)
    requires
        0 <= i < 12,
    ensures
        paginas_spec().len() == 12,
        indice_pagina_spec(paginas_spec()[i].0) == Some(i as i32),
        clave_titulo_spec(paginas_spec()[i].0) == paginas_spec()[i].1,
{
    ley_doce_paginas(paginas_spec()[i].0, paginas_spec()[i].0);
}

/// What the search of a row matches: its title and its search words, in
/// lower case.
pub open spec fn terminos_fila_spec(titulo: Seq<char>, nombre: Seq<char>) -> Seq<char> {
    minusculas_unicode(titulo + " "@ + terminos_spec(nombre))
}

pub fn terminos_fila(titulo: &str, nombre: &str) -> (r: String)
    ensures
        r@ == terminos_fila_spec(titulo@, nombre@),
{
    let junto = unir3(titulo, " ", terminos_busqueda_pagina(nombre));
    minusculas_de(junto.as_str())
}

/// The query as the search reads it: trimmed and in lower case.
pub open spec fn consulta_normal(consulta: Seq<char>) -> Seq<char> {
    minusculas_unicode(recortado(consulta))
}

/// A row stays visible when the query is empty or its terms contain it.
pub open spec fn visibles_spec(q: Seq<char>, terminos: Seq<Seq<char>>) -> Seq<bool> {
    terminos.map_values(|t: Seq<char>| q.len() == 0 || contiene(t, q))
}

/// The first visible row.
pub open spec fn primera_visible(v: Seq<bool>) -> Option<int>
    decreases v.len(),
{
    if v.len() == 0 {
        None
    } else if v[0] {
        Some(0)
    } else {
        match primera_visible(v.drop_first()) {
            Some(i) => Some(i + 1),
            None => None,
        }
    }
}

pub proof fn lema_primera_visible(v: Seq<bool>)
    ensures
        match primera_visible(v) {
            Some(i) => 0 <= i < v.len() && v[i] && forall|j: int| 0 <= j < i ==> !v[j],
            None => forall|j: int| 0 <= j < v.len() ==> !v[j],
        },
    decreases v.len(),
{
    if v.len() > 0 {
        lema_primera_visible(v.drop_first());
        if !v[0] {
            assert forall|j: int| 0 < j < v.len() implies v[j] == v.drop_first()[j - 1] by {}
        }
    }
}

proof fn lema_primera_visible_push(v: Seq<bool>, b: bool)
    ensures
        primera_visible(v.push(b)) == match primera_visible(v) {
            Some(k) => Some(k),
            None => if b { Some(v.len() as int) } else { None },
        },
{
    let w = v.push(b);
    lema_primera_visible(v);
    lema_primera_visible(w);
    assert forall|j: int| 0 <= j < v.len() implies w[j] == v[j] by {}
    assert(w[v.len() as int] == b);
    match primera_visible(v) {
        Some(k) => {
            assert(w[k]);
            match primera_visible(w) {
                Some(k2) => {
                    if k2 < k {
                        assert(w[k2] == v[k2]);
                    }
                },
                None => {},
            }
        },
        None => {
            match primera_visible(w) {
                Some(k2) => {
                    if k2 < v.len() {
                        assert(w[k2] == v[k2]);
                    }
                },
                None => {},
            }
        },
    }
}

/// What the search does to the selection: nothing while the selected row is
/// visible, else it selects the first visible row (none when none is).
pub open spec fn nueva_seleccion_spec(v: Seq<bool>, seleccion: Option<usize>) -> Option<Option<int>> {
    if seleccion matches Some(i) && (i as int) < v.len() && v[i as int] {
        None
    } else {
        Some(primera_visible(v))
    }
}

/// The outcome of a search in the side bar.
pub struct ResultadoBusqueda {
    /// Whether each row stays visible.
    pub visibles: Vec<bool>,
    /// Whether the "no area found" notice shows.
    pub ninguna: bool,
    /// The row to select, when the selection must change.
    pub nueva_seleccion: Option<Option<usize>>,
}

pub open spec fn vista_seleccion(s: Option<Option<usize>>) -> Option<Option<int>> {
    match s {
        Some(Some(i)) => Some(Some(i as int)),
        Some(None) => Some(None),
        None => None,
    }
}

/// Filters the rows of the side bar by a query: `terminos` are the rows'
/// terms as `terminos_fila` gives them and `seleccion` the selected row.
pub fn filtrar_paginas(consulta: &str, terminos: &[String], seleccion: Option<usize>) -> (r: ResultadoBusqueda)
    ensures
        r.visibles@ == visibles_spec(consulta_normal(consulta@), crate::cadena::vistas(terminos@)),
        r.ninguna == (primera_visible(r.visibles@) is None),
        vista_seleccion(r.nueva_seleccion) == nueva_seleccion_spec(r.visibles@, seleccion),
{
    let q = minusculas_de(recortar(consulta));
    let vacia = q.as_str().unicode_len() == 0;
    let ghost ts = crate::cadena::vistas(terminos@);
    let mut visibles: Vec<bool> = Vec::new();
    let mut primera: Option<usize> = None;
    let mut i: usize = 0;
    while i < terminos.len()
        invariant
            i <= terminos@.len(),
            ts == crate::cadena::vistas(terminos@),
            q@ == consulta_normal(consulta@),
            vacia == (q@.len() == 0),
            visibles@ == visibles_spec(q@, ts.subrange(0, i as int)),
            primera == match primera_visible(visibles@) {
                Some(k) => Some(k as usize),
                None => None::<usize>,
            },
        decreases terminos.len() - i,
    {
        let visible = vacia || contiene_exec(terminos[i].as_str(), q.as_str());
        proof {
            lema_primera_visible_push(visibles@, visible);
        }
        if visible && primera.is_none() {
            primera = Some(i);
        }
        visibles.push(visible);
        assert(visibles_spec(q@, ts.subrange(0, i + 1)) =~= visibles_spec(q@, ts.subrange(0, i as int)).push(visible));
        i = i + 1;
    }
    assert(ts.subrange(0, ts.len() as int) =~= ts);
    proof {
        lema_primera_visible(visibles@);
    }
    let seleccion_visible = match seleccion {
        Some(k) => k < visibles.len() && visibles[k],
        None => false,
    };
    let nueva_seleccion = if seleccion_visible { None } else { Some(primera) };
    ResultadoBusqueda { visibles, ninguna: primera.is_none(), nueva_seleccion }
}

/// An empty query hides no page.
pub proof fn ley_busqueda_vacia_muestra_todo(consulta: Seq<char>, terminos: Seq<Seq<char>>)
    requires
        consulta_normal(consulta).len() == 0,
    ensures
        forall|i: int| 0 <= i < terminos.len() ==> #[trigger] visibles_spec(consulta_normal(consulta), terminos)[i],
{
}

/// After a search the selected page is a visible one, or nothing is
/// selected because no page matches.
pub proof fn ley_busqueda_selecciona_visible(v: Seq<bool>, seleccion: Option<usize>)
    ensures
        ({
            let final_sel: Option<int> = match nueva_seleccion_spec(v, seleccion) {
                None => match seleccion {
                    Some(i) => Some(i as int),
                    None => None,
                },
                Some(p) => p,
            };
            match final_sel {
                Some(i) => 0 <= i < v.len() && v[i],
                None => forall|j: int| 0 <= j < v.len() ==> !v[j],
            }
        }),
{
    lema_primera_visible(v);
}

/// Each page's search words name that page's own subject: searching for
/// sound, a camera or a microphone leads to the media page, for a cleanup or
/// recovery to maintenance, for a browser to applications, for the keyboard to
/// localization, and so on for every page.
pub proof fn ley_terminos_nombran_su_pagina()
    ensures
        contiene(terminos_spec("summary"@), "resumen"@),
        contiene(terminos_spec("updates"@), "actualizaciones"@),
        contiene(terminos_spec("hardware"@), "hardware"@),
        contiene(terminos_spec("hardware"@), "memoria"@),
        contiene(terminos_spec("media"@), "sonido"@),
        contiene(terminos_spec("media"@), "audio"@),
        contiene(terminos_spec("media"@), "cámara"@),
        contiene(terminos_spec("storage"@), "almacenamiento"@),
        contiene(terminos_spec("storage"@), "usb"@),
        contiene(terminos_spec("firmware"@), "firmware"@),
        contiene(terminos_spec("applications"@), "aplicaciones"@),
        contiene(terminos_spec("applications"@), "navegador"@),
        contiene(terminos_spec("applications"@), "firefox"@),
        contiene(terminos_spec("appearance"@), "apariencia"@),
        contiene(terminos_spec("localization"@), "idioma"@),
        contiene(terminos_spec("localization"@), "teclado"@),
        contiene(terminos_spec("people"@), "personas"@),
        contiene(terminos_spec("backups"@), "copias"@),
        contiene(terminos_spec("maintenance"@), "mantenimiento"@),
        contiene(terminos_spec("maintenance"@), "limpieza"@),
{
    assert(terminos_spec("summary"@) == "resumen inicio estado configuración configuracion equipo ordenador computadora sistema"@) by {
        reveal_strlit("summary");
    }
    reveal_strlit("resumen");
    reveal_strlit("resumen inicio estado configuración configuracion equipo ordenador computadora sistema");
    assert("resumen inicio estado configuración configuracion equipo ordenador computadora sistema"@.subrange(0, 7) =~= "resumen"@);
    assert(aparece_en(terminos_spec("summary"@), "resumen"@, 0));
    assert(terminos_spec("updates"@) == "actualizaciones actualizar sistema software versiones canal estable inestable update"@) by {
        reveal_strlit("updates");
        reveal_strlit("summary");
        assert("updates"@[0] != "summary"@[0]);
    }
    reveal_strlit("actualizaciones");
    reveal_strlit("actualizaciones actualizar sistema software versiones canal estable inestable update");
    assert("actualizaciones actualizar sistema software versiones canal estable inestable update"@.subrange(0, 15) =~= "actualizaciones"@);
    assert(aparece_en(terminos_spec("updates"@), "actualizaciones"@, 0));
    assert(terminos_spec("hardware"@) == "hardware equipo ordenador computadora procesador cpu memoria ram gráficos graficos gpu red controlador"@) by {
        reveal_strlit("hardware");
        reveal_strlit("summary");
        assert("summary"@.len() == 7);
        assert("hardware"@.len() == 8);
        reveal_strlit("updates");
        assert("updates"@.len() == 7);
        assert("hardware"@.len() == 8);
    }
    reveal_strlit("hardware");
    reveal_strlit("hardware equipo ordenador computadora procesador cpu memoria ram gráficos graficos gpu red controlador");
    assert("hardware equipo ordenador computadora procesador cpu memoria ram gráficos graficos gpu red controlador"@.subrange(0, 8) =~= "hardware"@);
    assert(aparece_en(terminos_spec("hardware"@), "hardware"@, 0));
    reveal_strlit("memoria");
    reveal_strlit("hardware equipo ordenador computadora procesador cpu memoria ram gráficos graficos gpu red controlador");
    assert("hardware equipo ordenador computadora procesador cpu memoria ram gráficos graficos gpu red controlador"@.subrange(53, 60) =~= "memoria"@);
    assert(aparece_en(terminos_spec("hardware"@), "memoria"@, 53));
    assert(terminos_spec("media"@) == "sonido audio altavoces auriculares micrófono microfono cámara camara webcam vídeo video"@) by {
        reveal_strlit("media");
        reveal_strlit("summary");
        assert("summary"@.len() == 7);
        assert("media"@.len() == 5);
        reveal_strlit("updates");
        assert("updates"@.len() == 7);
        assert("media"@.len() == 5);
        reveal_strlit("hardware");
        assert("hardware"@.len() == 8);
        assert("media"@.len() == 5);
    }
    reveal_strlit("sonido");
    reveal_strlit("sonido audio altavoces auriculares micrófono microfono cámara camara webcam vídeo video");
    assert("sonido audio altavoces auriculares micrófono microfono cámara camara webcam vídeo video"@.subrange(0, 6) =~= "sonido"@);
    assert(aparece_en(terminos_spec("media"@), "sonido"@, 0));
    reveal_strlit("audio");
    reveal_strlit("sonido audio altavoces auriculares micrófono microfono cámara camara webcam vídeo video");
    assert("sonido audio altavoces auriculares micrófono microfono cámara camara webcam vídeo video"@.subrange(7, 12) =~= "audio"@);
    assert(aparece_en(terminos_spec("media"@), "audio"@, 7));
    reveal_strlit("cámara");
    reveal_strlit("sonido audio altavoces auriculares micrófono microfono cámara camara webcam vídeo video");
    assert("sonido audio altavoces auriculares micrófono microfono cámara camara webcam vídeo video"@.subrange(55, 61) =~= "cámara"@);
    assert(aparece_en(terminos_spec("media"@), "cámara"@, 55));
    assert(terminos_spec("storage"@) == "almacenamiento disco discos unidad unidades usb expulsar extraíble extraible guardar datos"@) by {
        reveal_strlit("storage");
        reveal_strlit("summary");
        assert("storage"@[1] != "summary"@[1]);
        reveal_strlit("updates");
        assert("storage"@[0] != "updates"@[0]);
        reveal_strlit("hardware");
        assert("hardware"@.len() == 8);
        assert("storage"@.len() == 7);
        reveal_strlit("media");
        assert("media"@.len() == 5);
        assert("storage"@.len() == 7);
    }
    reveal_strlit("almacenamiento");
    reveal_strlit("almacenamiento disco discos unidad unidades usb expulsar extraíble extraible guardar datos");
    assert("almacenamiento disco discos unidad unidades usb expulsar extraíble extraible guardar datos"@.subrange(0, 14) =~= "almacenamiento"@);
    assert(aparece_en(terminos_spec("storage"@), "almacenamiento"@, 0));
    reveal_strlit("usb");
    reveal_strlit("almacenamiento disco discos unidad unidades usb expulsar extraíble extraible guardar datos");
    assert("almacenamiento disco discos unidad unidades usb expulsar extraíble extraible guardar datos"@.subrange(44, 47) =~= "usb"@);
    assert(aparece_en(terminos_spec("storage"@), "usb"@, 44));
    assert(terminos_spec("firmware"@) == "firmware dispositivos actualizaciones bios uefi placa hardware"@) by {
        reveal_strlit("firmware");
        reveal_strlit("summary");
        assert("summary"@.len() == 7);
        assert("firmware"@.len() == 8);
        reveal_strlit("updates");
        assert("updates"@.len() == 7);
        assert("firmware"@.len() == 8);
        reveal_strlit("hardware");
        assert("firmware"@[0] != "hardware"@[0]);
        reveal_strlit("media");
        assert("media"@.len() == 5);
        assert("firmware"@.len() == 8);
        reveal_strlit("storage");
        assert("storage"@.len() == 7);
        assert("firmware"@.len() == 8);
    }
    reveal_strlit("firmware");
    reveal_strlit("firmware dispositivos actualizaciones bios uefi placa hardware");
    assert("firmware dispositivos actualizaciones bios uefi placa hardware"@.subrange(0, 8) =~= "firmware"@);
    assert(aparece_en(terminos_spec("firmware"@), "firmware"@, 0));
    assert(terminos_spec("applications"@) == "aplicaciones programas software navegador browser firefox chrome correo thunderbird editor texto kwrite kate oficina juegos diseño multimedia instalar eliminar"@) by {
        reveal_strlit("applications");
        reveal_strlit("summary");
        assert("summary"@.len() == 7);
        assert("applications"@.len() == 12);
        reveal_strlit("updates");
        assert("updates"@.len() == 7);
        assert("applications"@.len() == 12);
        reveal_strlit("hardware");
        assert("hardware"@.len() == 8);
        assert("applications"@.len() == 12);
        reveal_strlit("media");
        assert("media"@.len() == 5);
        assert("applications"@.len() == 12);
        reveal_strlit("storage");
        assert("storage"@.len() == 7);
        assert("applications"@.len() == 12);
        reveal_strlit("firmware");
        assert("firmware"@.len() == 8);
        assert("applications"@.len() == 12);
    }
    reveal_strlit("aplicaciones");
    reveal_strlit("aplicaciones programas software navegador browser firefox chrome correo thunderbird editor texto kwrite kate oficina juegos diseño multimedia instalar eliminar");
    assert("aplicaciones programas software navegador browser firefox chrome correo thunderbird editor texto kwrite kate oficina juegos diseño multimedia instalar eliminar"@.subrange(0, 12) =~= "aplicaciones"@);
    assert(aparece_en(terminos_spec("applications"@), "aplicaciones"@, 0));
    reveal_strlit("navegador");
    reveal_strlit("aplicaciones programas software navegador browser firefox chrome correo thunderbird editor texto kwrite kate oficina juegos diseño multimedia instalar eliminar");
    assert("aplicaciones programas software navegador browser firefox chrome correo thunderbird editor texto kwrite kate oficina juegos diseño multimedia instalar eliminar"@.subrange(32, 41) =~= "navegador"@);
    assert(aparece_en(terminos_spec("applications"@), "navegador"@, 32));
    reveal_strlit("firefox");
    reveal_strlit("aplicaciones programas software navegador browser firefox chrome correo thunderbird editor texto kwrite kate oficina juegos diseño multimedia instalar eliminar");
    assert("aplicaciones programas software navegador browser firefox chrome correo thunderbird editor texto kwrite kate oficina juegos diseño multimedia instalar eliminar"@.subrange(50, 57) =~= "firefox"@);
    assert(aparece_en(terminos_spec("applications"@), "firefox"@, 50));
    assert(terminos_spec("appearance"@) == "apariencia tema claro oscuro automático automatico everforest escritorio niri hyprland plasma cinnamon fondo iconos"@) by {
        reveal_strlit("appearance");
        reveal_strlit("summary");
        assert("summary"@.len() == 7);
        assert("appearance"@.len() == 10);
        reveal_strlit("updates");
        assert("updates"@.len() == 7);
        assert("appearance"@.len() == 10);
        reveal_strlit("hardware");
        assert("hardware"@.len() == 8);
        assert("appearance"@.len() == 10);
        reveal_strlit("media");
        assert("media"@.len() == 5);
        assert("appearance"@.len() == 10);
        reveal_strlit("storage");
        assert("storage"@.len() == 7);
        assert("appearance"@.len() == 10);
        reveal_strlit("firmware");
        assert("firmware"@.len() == 8);
        assert("appearance"@.len() == 10);
        reveal_strlit("applications");
        assert("applications"@.len() == 12);
        assert("appearance"@.len() == 10);
    }
    reveal_strlit("apariencia");
    reveal_strlit("apariencia tema claro oscuro automático automatico everforest escritorio niri hyprland plasma cinnamon fondo iconos");
    assert("apariencia tema claro oscuro automático automatico everforest escritorio niri hyprland plasma cinnamon fondo iconos"@.subrange(0, 10) =~= "apariencia"@);
    assert(aparece_en(terminos_spec("appearance"@), "apariencia"@, 0));
    assert(terminos_spec("localization"@) == "idioma región region país pais formatos zona horaria hora teclado distribución distribucion variante entrada"@) by {
        reveal_strlit("localization");
        reveal_strlit("summary");
        assert("summary"@.len() == 7);
        assert("localization"@.len() == 12);
        reveal_strlit("updates");
        assert("updates"@.len() == 7);
        assert("localization"@.len() == 12);
        reveal_strlit("hardware");
        assert("hardware"@.len() == 8);
        assert("localization"@.len() == 12);
        reveal_strlit("media");
        assert("media"@.len() == 5);
        assert("localization"@.len() == 12);
        reveal_strlit("storage");
        assert("storage"@.len() == 7);
        assert("localization"@.len() == 12);
        reveal_strlit("firmware");
        assert("firmware"@.len() == 8);
        assert("localization"@.len() == 12);
        reveal_strlit("applications");
        assert("localization"@[0] != "applications"@[0]);
        reveal_strlit("appearance");
        assert("appearance"@.len() == 10);
        assert("localization"@.len() == 12);
    }
    reveal_strlit("idioma");
    reveal_strlit("idioma región region país pais formatos zona horaria hora teclado distribución distribucion variante entrada");
    assert("idioma región region país pais formatos zona horaria hora teclado distribución distribucion variante entrada"@.subrange(0, 6) =~= "idioma"@);
    assert(aparece_en(terminos_spec("localization"@), "idioma"@, 0));
    reveal_strlit("teclado");
    reveal_strlit("idioma región region país pais formatos zona horaria hora teclado distribución distribucion variante entrada");
    assert("idioma región region país pais formatos zona horaria hora teclado distribución distribucion variante entrada"@.subrange(58, 65) =~= "teclado"@);
    assert(aparece_en(terminos_spec("localization"@), "teclado"@, 58));
    assert(terminos_spec("people"@) == "personas persona usuario usuarios cuenta cuentas contraseña contrasena avatar administrador estándar estandar"@) by {
        reveal_strlit("people");
        reveal_strlit("summary");
        assert("summary"@.len() == 7);
        assert("people"@.len() == 6);
        reveal_strlit("updates");
        assert("updates"@.len() == 7);
        assert("people"@.len() == 6);
        reveal_strlit("hardware");
        assert("hardware"@.len() == 8);
        assert("people"@.len() == 6);
        reveal_strlit("media");
        assert("media"@.len() == 5);
        assert("people"@.len() == 6);
        reveal_strlit("storage");
        assert("storage"@.len() == 7);
        assert("people"@.len() == 6);
        reveal_strlit("firmware");
        assert("firmware"@.len() == 8);
        assert("people"@.len() == 6);
        reveal_strlit("applications");
        assert("applications"@.len() == 12);
        assert("people"@.len() == 6);
        reveal_strlit("appearance");
        assert("appearance"@.len() == 10);
        assert("people"@.len() == 6);
        reveal_strlit("localization");
        assert("localization"@.len() == 12);
        assert("people"@.len() == 6);
    }
    reveal_strlit("personas");
    reveal_strlit("personas persona usuario usuarios cuenta cuentas contraseña contrasena avatar administrador estándar estandar");
    assert("personas persona usuario usuarios cuenta cuentas contraseña contrasena avatar administrador estándar estandar"@.subrange(0, 8) =~= "personas"@);
    assert(aparece_en(terminos_spec("people"@), "personas"@, 0));
    assert(terminos_spec("backups"@) == "copias copia seguridad exportar restaurar restauración restauracion historial backup"@) by {
        reveal_strlit("backups");
        reveal_strlit("summary");
        assert("backups"@[0] != "summary"@[0]);
        reveal_strlit("updates");
        assert("backups"@[0] != "updates"@[0]);
        reveal_strlit("hardware");
        assert("hardware"@.len() == 8);
        assert("backups"@.len() == 7);
        reveal_strlit("media");
        assert("media"@.len() == 5);
        assert("backups"@.len() == 7);
        reveal_strlit("storage");
        assert("backups"@[0] != "storage"@[0]);
        reveal_strlit("firmware");
        assert("firmware"@.len() == 8);
        assert("backups"@.len() == 7);
        reveal_strlit("applications");
        assert("applications"@.len() == 12);
        assert("backups"@.len() == 7);
        reveal_strlit("appearance");
        assert("appearance"@.len() == 10);
        assert("backups"@.len() == 7);
        reveal_strlit("localization");
        assert("localization"@.len() == 12);
        assert("backups"@.len() == 7);
        reveal_strlit("people");
        assert("people"@.len() == 6);
        assert("backups"@.len() == 7);
    }
    reveal_strlit("copias");
    reveal_strlit("copias copia seguridad exportar restaurar restauración restauracion historial backup");
    assert("copias copia seguridad exportar restaurar restauración restauracion historial backup"@.subrange(0, 6) =~= "copias"@);
    assert(aparece_en(terminos_spec("backups"@), "copias"@, 0));
    assert(terminos_spec("maintenance"@) == "mantenimiento limpiar limpieza recuperación recuperacion versiones reinicio rollback"@) by {
        reveal_strlit("maintenance");
        reveal_strlit("summary");
        assert("summary"@.len() == 7);
        assert("maintenance"@.len() == 11);
        reveal_strlit("updates");
        assert("updates"@.len() == 7);
        assert("maintenance"@.len() == 11);
        reveal_strlit("hardware");
        assert("hardware"@.len() == 8);
        assert("maintenance"@.len() == 11);
        reveal_strlit("media");
        assert("media"@.len() == 5);
        assert("maintenance"@.len() == 11);
        reveal_strlit("storage");
        assert("storage"@.len() == 7);
        assert("maintenance"@.len() == 11);
        reveal_strlit("firmware");
        assert("firmware"@.len() == 8);
        assert("maintenance"@.len() == 11);
        reveal_strlit("applications");
        assert("applications"@.len() == 12);
        assert("maintenance"@.len() == 11);
        reveal_strlit("appearance");
        assert("appearance"@.len() == 10);
        assert("maintenance"@.len() == 11);
        reveal_strlit("localization");
        assert("localization"@.len() == 12);
        assert("maintenance"@.len() == 11);
        reveal_strlit("people");
        assert("people"@.len() == 6);
        assert("maintenance"@.len() == 11);
        reveal_strlit("backups");
        assert("backups"@.len() == 7);
        assert("maintenance"@.len() == 11);
    }
    reveal_strlit("mantenimiento");
    reveal_strlit("mantenimiento limpiar limpieza recuperación recuperacion versiones reinicio rollback");
    assert("mantenimiento limpiar limpieza recuperación recuperacion versiones reinicio rollback"@.subrange(0, 13) =~= "mantenimiento"@);
    assert(aparece_en(terminos_spec("maintenance"@), "mantenimiento"@, 0));
    reveal_strlit("limpieza");
    reveal_strlit("mantenimiento limpiar limpieza recuperación recuperacion versiones reinicio rollback");
    assert("mantenimiento limpiar limpieza recuperación recuperacion versiones reinicio rollback"@.subrange(22, 30) =~= "limpieza"@);
    assert(aparece_en(terminos_spec("maintenance"@), "limpieza"@, 22));
}

} // verus!
