//! Languages, regions, time zones, keyboards, desktops and accounts named
//! as people say them.

use vstd::prelude::*;
use crate::cadena::{
    a_mayusculas, a_minusculas, cambiar_caracter, cambiar_caracter_exec, contiene, contiene_exec,
    copiar, empieza_con, empieza_con_exec, hasta_primero, hasta_primero_exec, iguales, mayusculas,
    minusculas, recortado, recortar, tras_ultimo, tras_ultimo_exec,
};
use crate::idioma::Idioma;
use crate::json::{Json, apuntar, texto_de};
use crate::hardware::{valor, valor_spec};
use crate::aplicaciones::{nombre_desde_id, nombre_desde_id_spec};
use crate::textos::lugares::{
    cuenta_principal, cuenta_principal_spec, idioma_en, idioma_en_spec, idioma_es, idioma_es_spec,
    idioma_hu, idioma_hu_spec, region_es, region_es_spec, region_hu, region_hu_spec, region_pe,
    region_pe_spec, region_us, region_us_spec, teclado_es, teclado_es_spec, teclado_hu,
    teclado_hu_spec, teclado_latam, teclado_latam_spec, teclado_us, teclado_us_spec, zona_budapest,
    zona_budapest_spec, zona_lima, zona_lima_spec, zona_madrid, zona_madrid_spec,
};

verus! {

/// The language code of a locale: what comes before the first `_`, `-` or
/// `.`, in lower case.
pub open spec fn codigo_idioma(valor: Seq<char>) -> Seq<char> {
    minusculas(hasta_primero(cambiar_caracter(cambiar_caracter(valor, '-', '_'), '.', '_'), '_'))
}

pub open spec fn idioma_humano_spec(idioma: Idioma, valor: Seq<char>) -> Seq<char> {
    let c = codigo_idioma(valor);
    if c == "es"@ {
        idioma_es_spec(idioma)
    } else if c == "en"@ {
        idioma_en_spec(idioma)
    } else if c == "hu"@ {
        idioma_hu_spec(idioma)
    } else {
        valor
    }
}

pub fn idioma_humano(idioma: Idioma, valor: &str) -> (r: String)
    ensures
        r@ == idioma_humano_spec(idioma, valor@),
{
    let uno = cambiar_caracter_exec(valor, '-', '_');
    let dos = cambiar_caracter_exec(uno.as_str(), '.', '_');
    let codigo = a_minusculas(hasta_primero_exec(dos.as_str(), '_'));
    let c = codigo.as_str();
    if iguales(c, "es") {
        copiar(idioma_es(idioma))
    } else if iguales(c, "en") {
        copiar(idioma_en(idioma))
    } else if iguales(c, "hu") {
        copiar(idioma_hu(idioma))
    } else {
        copiar(valor)
    }
}

pub open spec fn region_humana_spec(idioma: Idioma, valor: Seq<char>) -> Seq<char> {
    let c = mayusculas(recortado(valor));
    if c == "PE"@ {
        region_pe_spec(idioma)
    } else if c == "ES"@ {
        region_es_spec(idioma)
    } else if c == "US"@ {
        region_us_spec(idioma)
    } else if c == "HU"@ {
        region_hu_spec(idioma)
    } else {
        valor
    }
}

pub fn region_humana(idioma: Idioma, valor: &str) -> (r: String)
    ensures
        r@ == region_humana_spec(idioma, valor@),
{
    let codigo = a_mayusculas(recortar(valor));
    let c = codigo.as_str();
    if iguales(c, "PE") {
        copiar(region_pe(idioma))
    } else if iguales(c, "ES") {
        copiar(region_es(idioma))
    } else if iguales(c, "US") {
        copiar(region_us(idioma))
    } else if iguales(c, "HU") {
        copiar(region_hu(idioma))
    } else {
        copiar(valor)
    }
}

/// A time zone: the known ones by name, any other by its city with spaces.
pub open spec fn zona_horaria_spec(idioma: Idioma, valor: Seq<char>) -> Seq<char> {
    if valor == "America/Lima"@ {
        zona_lima_spec(idioma)
    } else if valor == "Europe/Madrid"@ {
        zona_madrid_spec(idioma)
    } else if valor == "Europe/Budapest"@ {
        zona_budapest_spec(idioma)
    } else {
        cambiar_caracter(tras_ultimo(valor, '/'), '_', ' ')
    }
}

pub fn zona_horaria_humana(idioma: Idioma, valor: &str) -> (r: String)
    ensures
        r@ == zona_horaria_spec(idioma, valor@),
{
    if iguales(valor, "America/Lima") {
        copiar(zona_lima(idioma))
    } else if iguales(valor, "Europe/Madrid") {
        copiar(zona_madrid(idioma))
    } else if iguales(valor, "Europe/Budapest") {
        copiar(zona_budapest(idioma))
    } else {
        cambiar_caracter_exec(tras_ultimo_exec(valor, '/'), '_', ' ')
    }
}

/// A keyboard layout (or list of layouts) named after its first layout.
pub open spec fn teclado_spec(idioma: Idioma, valor: Seq<char>) -> Seq<char> {
    let c = minusculas(valor);
    if contiene(c, "latam"@) {
        teclado_latam_spec(idioma)
    } else if c == "es"@ || empieza_con(c, "es,"@) {
        teclado_es_spec(idioma)
    } else if c == "us"@ || empieza_con(c, "us,"@) {
        teclado_us_spec(idioma)
    } else if c == "hu"@ || empieza_con(c, "hu,"@) {
        teclado_hu_spec(idioma)
    } else {
        valor
    }
}

pub fn teclado_humano(idioma: Idioma, valor: &str) -> (r: String)
    ensures
        r@ == teclado_spec(idioma, valor@),
{
    let codigo = a_minusculas(valor);
    let c = codigo.as_str();
    if contiene_exec(c, "latam") {
        copiar(teclado_latam(idioma))
    } else if iguales(c, "es") || empieza_con_exec(c, "es,") {
        copiar(teclado_es(idioma))
    } else if iguales(c, "us") || empieza_con_exec(c, "us,") {
        copiar(teclado_us(idioma))
    } else if iguales(c, "hu") || empieza_con_exec(c, "hu,") {
        copiar(teclado_hu(idioma))
    } else {
        copiar(valor)
    }
}

pub open spec fn variante_spec(valor: Seq<char>) -> Seq<char> {
    if valor == ""@ {
        "Predeterminada"@
    } else if valor == "deadtilde"@ {
        "Tildes mediante tecla muerta"@
    } else if valor == "nodeadkeys"@ {
        "Sin teclas muertas"@
    } else {
        nombre_desde_id_spec(valor)
    }
}

pub fn variante_teclado_humana(valor: &str) -> (r: String)
    ensures
        r@ == variante_spec(valor@),
{
    if iguales(valor, "") {
        copiar("Predeterminada")
    } else if iguales(valor, "deadtilde") {
        copiar("Tildes mediante tecla muerta")
    } else if iguales(valor, "nodeadkeys") {
        copiar("Sin teclas muertas")
    } else {
        nombre_desde_id(valor)
    }
}

pub open spec fn estado_cuenta_spec(idioma: Idioma, valor: Seq<char>) -> Seq<char> {
    let c = minusculas(valor);
    if c == "adopted"@ || c == "managed"@ {
        cuenta_principal_spec(idioma)
    } else {
        valor
    }
}

pub fn estado_cuenta_humano(idioma: Idioma, valor: &str) -> (r: String)
    ensures
        r@ == estado_cuenta_spec(idioma, valor@),
{
    let codigo = a_minusculas(valor);
    if iguales(codigo.as_str(), "adopted") || iguales(codigo.as_str(), "managed") {
        copiar(cuenta_principal(idioma))
    } else {
        copiar(valor)
    }
}

pub open spec fn escritorio_spec(id: Seq<char>) -> Seq<char> {
    if id == "niri"@ {
        "Niri"@
    } else if id == "hyprland"@ {
        "Hyprland"@
    } else if id == "plasma"@ {
        "KDE Plasma"@
    } else if id == "cinnamon"@ {
        "Cinnamon"@
    } else {
        nombre_desde_id_spec(id)
    }
}

pub fn nombre_escritorio_humano(id: &str) -> (r: String)
    ensures
        r@ == escritorio_spec(id@),
{
    if iguales(id, "niri") {
        copiar("Niri")
    } else if iguales(id, "hyprland") {
        copiar("Hyprland")
    } else if iguales(id, "plasma") {
        copiar("KDE Plasma")
    } else if iguales(id, "cinnamon") {
        copiar("Cinnamon")
    } else {
        nombre_desde_id(id)
    }
}

/// The first of two texts found at JSON pointers, else a default.
pub open spec fn texto_o_respaldo(datos: Json, p1: Seq<char>, p2: Seq<char>, defecto: Seq<char>) -> Seq<char> {
    match texto_de(apuntar(datos, p1)) {
        Some(t) => t,
        None => match texto_de(apuntar(datos, p2)) {
            Some(t) => t,
            None => defecto,
        },
    }
}

/// The localization the system declares, as the page shows and edits it.
pub struct AjustesLocalizacion {
    pub idioma: String,
    pub region: String,
    pub zona: String,
    /// The declared keyboard layout, else the detected one, else `es`.
    pub teclado: String,
    /// The declared keyboard variant, empty when there is none.
    pub variante: String,
    /// The language of formats, else the system language, else `es`.
    pub formatos_idioma: String,
    /// The region of formats, else the region, else `PE`.
    pub formatos_region: String,
}

pub open spec fn vista_ajustes(a: AjustesLocalizacion) -> (Seq<char>, Seq<char>, Seq<char>, Seq<char>, Seq<char>, Seq<char>, Seq<char>) {
    (a.idioma@, a.region@, a.zona@, a.teclado@, a.variante@, a.formatos_idioma@, a.formatos_region@)
}

pub open spec fn ajustes_spec(datos: Json) -> (Seq<char>, Seq<char>, Seq<char>, Seq<char>, Seq<char>, Seq<char>, Seq<char>) {
    (
        valor_spec(datos, "/declared/systemLanguage"@),
        valor_spec(datos, "/declared/region"@),
        valor_spec(datos, "/declared/timeZone"@),
        texto_o_respaldo(datos, "/declared/keyboard/layout"@, "/derived/keyboard/layout"@, "es"@),
        match texto_de(apuntar(datos, "/declared/keyboard/variant"@)) {
            Some(t) => t,
            None => Seq::empty(),
        },
        texto_o_respaldo(datos, "/declared/formats/language"@, "/declared/systemLanguage"@, "es"@),
        texto_o_respaldo(datos, "/declared/formats/region"@, "/declared/region"@, "PE"@),
    )
}

fn texto_en<'a>(datos: &'a Json, puntero: &str) -> (r: Option<&'a str>)
    ensures
        crate::motor::vista_opcional(r) == texto_de(apuntar(*datos, puntero@)),
{
    match datos.apuntar(puntero) {
        Some(v) => v.como_texto(),
        None => None,
    }
}

fn texto_o_respaldo_exec(datos: &Json, p1: &str, p2: &str, defecto: &str) -> (r: String)
    ensures
        r@ == texto_o_respaldo(*datos, p1@, p2@, defecto@),
{
    match texto_en(datos, p1) {
        Some(t) => copiar(t),
        None => match texto_en(datos, p2) {
            Some(t) => copiar(t),
            None => copiar(defecto),
        },
    }
}

/// The localization page's values, from the engine's localization report.
pub fn ajustes_localizacion(datos: &Json) -> (r: AjustesLocalizacion)
    ensures
        vista_ajustes(r) == ajustes_spec(*datos),
{
    AjustesLocalizacion {
        idioma: valor(datos, "/declared/systemLanguage"),
        region: valor(datos, "/declared/region"),
        zona: valor(datos, "/declared/timeZone"),
        teclado: texto_o_respaldo_exec(datos, "/declared/keyboard/layout", "/derived/keyboard/layout", "es"),
        variante: match texto_en(datos, "/declared/keyboard/variant") {
            Some(t) => copiar(t),
            None => String::new(),
        },
        formatos_idioma: texto_o_respaldo_exec(datos, "/declared/formats/language", "/declared/systemLanguage", "es"),
        formatos_region: texto_o_respaldo_exec(datos, "/declared/formats/region", "/declared/region", "PE"),
    }
}

/// The one-line summary of a localization: language, region, time zone and
/// keyboard, as people name them.
pub open spec fn resumen_localizacion_spec(idioma: Idioma, a: (Seq<char>, Seq<char>, Seq<char>, Seq<char>, Seq<char>, Seq<char>, Seq<char>)) -> Seq<char> {
    idioma_humano_spec(idioma, a.0) + " · "@ + region_humana_spec(idioma, a.1) + " · "@ + zona_horaria_spec(idioma, a.2)
        + " · "@ + teclado_spec(idioma, a.3)
}

pub fn resumen_localizacion(idioma: Idioma, a: &AjustesLocalizacion) -> (r: String)
    ensures
        r@ == resumen_localizacion_spec(idioma, vista_ajustes(*a)),
{
    let uno = crate::cadena::unir3(idioma_humano(idioma, a.idioma.as_str()).as_str(), " · ", region_humana(idioma, a.region.as_str()).as_str());
    let dos = crate::cadena::unir3(uno.as_str(), " · ", zona_horaria_humana(idioma, a.zona.as_str()).as_str());
    crate::cadena::unir3(dos.as_str(), " · ", teclado_humano(idioma, a.teclado.as_str()).as_str())
}

/// The keyboard as the page shows it: layout and variant.
pub open spec fn teclado_visible_spec(idioma: Idioma, teclado: Seq<char>, variante: Seq<char>) -> Seq<char> {
    teclado_spec(idioma, teclado) + " · "@ + variante_spec(variante)
}

pub fn teclado_visible(idioma: Idioma, teclado: &str, variante: &str) -> (r: String)
    ensures
        r@ == teclado_visible_spec(idioma, teclado@, variante@),
{
    crate::cadena::unir3(teclado_humano(idioma, teclado).as_str(), " · ", variante_teclado_humana(variante).as_str())
}

/// The plan of a change of localization; every value is sent trimmed.
pub open spec fn argumentos_localizacion_spec(
    idioma: Seq<char>,
    region: Seq<char>,
    formatos_idioma: Seq<char>,
    formatos_region: Seq<char>,
    zona: Seq<char>,
    teclado: Seq<char>,
    variante: Seq<char>,
) -> Seq<Seq<char>> {
    seq![
        "localization"@, "set"@,
        "--language"@, recortado(idioma),
        "--region"@, recortado(region),
        "--formats-language"@, recortado(formatos_idioma),
        "--formats-region"@, recortado(formatos_region),
        "--timezone"@, recortado(zona),
        "--keyboard"@, recortado(teclado),
        "--variant"@, recortado(variante),
        "--plan"@, "--json"@,
    ]
}

pub fn argumentos_localizacion(
    idioma: &str,
    region: &str,
    formatos_idioma: &str,
    formatos_region: &str,
    zona: &str,
    teclado: &str,
    variante: &str,
) -> (r: Vec<String>)
    ensures
        crate::cadena::vistas(r@) == argumentos_localizacion_spec(idioma@, region@, formatos_idioma@, formatos_region@, zona@, teclado@, variante@),
{
    let mut r: Vec<String> = Vec::new();
    r.push(copiar("localization"));
    r.push(copiar("set"));
    r.push(copiar("--language"));
    r.push(copiar(recortar(idioma)));
    r.push(copiar("--region"));
    r.push(copiar(recortar(region)));
    r.push(copiar("--formats-language"));
    r.push(copiar(recortar(formatos_idioma)));
    r.push(copiar("--formats-region"));
    r.push(copiar(recortar(formatos_region)));
    r.push(copiar("--timezone"));
    r.push(copiar(recortar(zona)));
    r.push(copiar("--keyboard"));
    r.push(copiar(recortar(teclado)));
    r.push(copiar("--variant"));
    r.push(copiar(recortar(variante)));
    r.push(copiar("--plan"));
    r.push(copiar("--json"));
    assert(crate::cadena::vistas(r@) =~= argumentos_localizacion_spec(idioma@, region@, formatos_idioma@, formatos_region@, zona@, teclado@, variante@));
    r
}

} // verus!
