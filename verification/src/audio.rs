//! Names for sound outputs and inputs that people recognise: known devices,
//! displays that carry sound, and the ports of the sound card.

use vstd::prelude::*;
use crate::cadena::{
    a_minusculas, contiene, contiene_exec, copiar, empieza_con, empieza_con_exec, iguales, minusculas,
    recortado, recortar, unir3,
};
use crate::idioma::Idioma;
use crate::json::{Json, apuntar, lista_de, natural_de, obtener, obtener_opt, texto_de, valor_de};
use crate::plantilla::{formatear1, formatear2, formato};
use crate::textos::audio::{
    altavoces, altavoces_spec, auriculares, auriculares_spec, entrada_audio, entrada_audio_spec,
    entrada_linea, entrada_linea_spec, microfono, microfono_frontal, microfono_frontal_spec,
    microfono_spec, microfono_trasero, microfono_trasero_spec, pantalla_externa,
    pantalla_externa_spec, pantalla_sin_identificar, pantalla_sin_identificar_spec,
    plantilla_pantalla_conector, plantilla_pantalla_conector_spec, plantilla_pantalla_sin_conector,
    plantilla_pantalla_sin_conector_spec, salida_audio, salida_audio_spec, salida_linea,
    salida_linea_spec,
};

verus! {

/// Whether a device description is a technical name rather than one a
/// person would use.
pub open spec fn tecnico_spec(valor: Seq<char>) -> bool {
    let v = minusculas(valor);
    contiene(v, "controller"@) || contiene(v, "analog stereo"@) || contiene(v, "digital stereo"@)
        || contiene(v, "hdmi / displayport"@) || contiene(v, "hdmi/displayport"@)
        || empieza_con(v, "alsa_"@) || empieza_con(v, "pci-"@)
}

pub fn parece_nombre_tecnico_audio(valor: &str) -> (r: bool)
    ensures
        r == tecnico_spec(valor@),
{
    let v = a_minusculas(valor);
    let v = v.as_str();
    contiene_exec(v, "controller") || contiene_exec(v, "analog stereo") || contiene_exec(v, "digital stereo")
        || contiene_exec(v, "hdmi / displayport") || contiene_exec(v, "hdmi/displayport")
        || empieza_con_exec(v, "alsa_") || empieza_con_exec(v, "pci-")
}

/// Well-known cameras and microphones recognised by their description.
pub open spec fn modelo_conocido_spec(huella: Seq<char>) -> Option<Seq<char>> {
    let h = minusculas(huella);
    if contiene(h, "hd_pro_webcam_c920"@) || contiene(h, "hd pro webcam c920"@) || contiene(h, "webcam c920"@)
        || contiene(h, "logitech c920"@) {
        Some("Logitech C920"@)
    } else if contiene(h, "webcam c922"@) || contiene(h, "logitech c922"@) {
        Some("Logitech C922"@)
    } else if contiene(h, "logitech brio"@) || contiene(h, "brio webcam"@) {
        Some("Logitech Brio"@)
    } else if contiene(h, "logitech streamcam"@) || contiene(h, "streamcam"@) {
        Some("Logitech StreamCam"@)
    } else if contiene(h, "scarlett 2i2"@) {
        Some("Focusrite Scarlett 2i2"@)
    } else if contiene(h, "scarlett solo"@) {
        Some("Focusrite Scarlett Solo"@)
    } else if contiene(h, "elgato wave:3"@) || contiene(h, "elgato wave 3"@) {
        Some("Elgato Wave:3"@)
    } else if contiene(h, "hyperx quadcast"@) {
        Some("HyperX QuadCast"@)
    } else if contiene(h, "hyperx solocast"@) {
        Some("HyperX SoloCast"@)
    } else {
        None
    }
}

pub fn modelo_audio_conocido(huella: &str) -> (r: Option<&'static str>)
    ensures
        crate::motor::vista_opcional(r) == modelo_conocido_spec(huella@),
{
    let h = a_minusculas(huella);
    let h = h.as_str();
    if contiene_exec(h, "hd_pro_webcam_c920") || contiene_exec(h, "hd pro webcam c920") || contiene_exec(h, "webcam c920")
        || contiene_exec(h, "logitech c920") {
        Some("Logitech C920")
    } else if contiene_exec(h, "webcam c922") || contiene_exec(h, "logitech c922") {
        Some("Logitech C922")
    } else if contiene_exec(h, "logitech brio") || contiene_exec(h, "brio webcam") {
        Some("Logitech Brio")
    } else if contiene_exec(h, "logitech streamcam") || contiene_exec(h, "streamcam") {
        Some("Logitech StreamCam")
    } else if contiene_exec(h, "scarlett 2i2") {
        Some("Focusrite Scarlett 2i2")
    } else if contiene_exec(h, "scarlett solo") {
        Some("Focusrite Scarlett Solo")
    } else if contiene_exec(h, "elgato wave:3") || contiene_exec(h, "elgato wave 3") {
        Some("Elgato Wave:3")
    } else if contiene_exec(h, "hyperx quadcast") {
        Some("HyperX QuadCast")
    } else if contiene_exec(h, "hyperx solocast") {
        Some("HyperX SoloCast")
    } else {
        None
    }
}

pub open spec fn texto_o_vacio(t: Option<Seq<char>>) -> Seq<char> {
    match t {
        Some(v) => v,
        None => Seq::empty(),
    }
}

/// Whether a display's monitor name occurs in the device's description.
pub open spec fn coincide_pantalla(huella: Seq<char>, p: Json) -> bool {
    match texto_de(obtener(p, "monitorName"@)) {
        Some(n) => contiene(huella, minusculas(n)),
        None => false,
    }
}

pub open spec fn coincidencias(huella: Seq<char>, ps: Seq<Json>) -> Seq<Json>
    decreases ps.len(),
{
    if ps.len() == 0 {
        Seq::empty()
    } else if coincide_pantalla(huella, ps.last()) {
        coincidencias(huella, ps.drop_last()).push(ps.last())
    } else {
        coincidencias(huella, ps.drop_last())
    }
}

pub open spec fn conector_de(p: Json) -> Option<Seq<char>> {
    match texto_de(obtener(p, "connector"@)) {
        Some(c) => if c == "HDMI"@ || c == "DisplayPort"@ {
            Some(c)
        } else {
            None
        },
        None => None,
    }
}

pub open spec fn nombre_pantalla(idioma: Idioma, p: Json) -> Seq<char> {
    match texto_de(obtener(p, "monitorName"@)) {
        Some(n) => if recortado(n).len() > 0 {
            n
        } else {
            pantalla_externa_spec(idioma)
        },
        None => pantalla_externa_spec(idioma),
    }
}

/// The huella: the fallback name and the description, in lower case.
pub open spec fn huella_spec(respaldo: Seq<char>, descripcion: Seq<char>) -> Seq<char> {
    minusculas(respaldo + " "@ + descripcion)
}

/// A sound output that goes to a display: the display's name and its
/// connector, found by the monitor name in the description or by being the
/// only display; `None` when the output is not a display's.
pub open spec fn pantalla_spec(idioma: Idioma, audio: Json, item: Option<Json>, respaldo: Seq<char>) -> Option<Seq<char>> {
    let descripcion = texto_o_vacio(texto_de(obtener_opt(item, "description"@)));
    let puerto = texto_o_vacio(texto_de(obtener_opt(item, "activePort"@)));
    let huella = huella_spec(respaldo, descripcion);
    if !(empieza_con(puerto, "hdmi-output-"@) || contiene(huella, "hdmi"@) || contiene(huella, "displayport"@)) {
        None
    } else {
        let pantallas = match lista_de(obtener(audio, "displayConnections"@)) {
            Some(v) => v,
            None => Seq::empty(),
        };
        let c = coincidencias(huella, pantallas);
        let elegida = if c.len() == 1 {
            Some(c[0])
        } else if pantallas.len() == 1 {
            Some(pantallas[0])
        } else {
            None
        };
        match elegida {
            None => Some(pantalla_sin_identificar_spec(idioma)),
            Some(p) => Some(match conector_de(p) {
                Some(con) => formato(plantilla_pantalla_conector_spec(idioma), seq![("nombre"@, nombre_pantalla(idioma, p)), ("conector"@, con)]),
                None => formato(plantilla_pantalla_sin_conector_spec(idioma), seq![("nombre"@, nombre_pantalla(idioma, p))]),
            }),
        }
    }
}

fn texto_de_miembro<'a>(j: Option<&'a Json>, clave: &str) -> (r: Option<&'a str>)
    ensures
        crate::motor::vista_opcional(r) == texto_de(obtener_opt(valor_de(j), clave@)),
{
    match j {
        Some(v) => match v.obtener(clave) {
            Some(m) => m.como_texto(),
            None => None,
        },
        None => None,
    }
}

fn coincide_pantalla_exec(huella: &str, p: &Json) -> (r: bool)
    ensures
        r == coincide_pantalla(huella@, *p),
{
    match texto_de_miembro(Some(p), "monitorName") {
        Some(n) => contiene_exec(huella, a_minusculas(n).as_str()),
        None => false,
    }
}

pub fn descripcion_pantalla_audio(idioma: Idioma, audio: &Json, item: Option<&Json>, respaldo: &str) -> (r: Option<String>)
    ensures
        crate::plantilla::vista_texto_opcional(r) == pantalla_spec(idioma, *audio, valor_de(item), respaldo@),
{
    let descripcion = match texto_de_miembro(item, "description") {
        Some(t) => t,
        None => "",
    };
    let puerto = match texto_de_miembro(item, "activePort") {
        Some(t) => t,
        None => "",
    };
    proof {
        reveal_strlit("");
        assert(""@ =~= Seq::<char>::empty());
    }
    let huella = a_minusculas(unir3(respaldo, " ", descripcion).as_str());
    let h = huella.as_str();
    if !(empieza_con_exec(puerto, "hdmi-output-") || contiene_exec(h, "hdmi") || contiene_exec(h, "displayport")) {
        return None;
    }
    let vacia: Vec<Json> = Vec::new();
    let pantallas: &Vec<Json> = match audio.obtener("displayConnections") {
        Some(d) => match d.como_lista() {
            Some(l) => l,
            None => &vacia,
        },
        None => &vacia,
    };
    let mut cuantas: usize = 0;
    let mut primera: Option<&Json> = None;
    let mut i: usize = 0;
    assert(pantallas@.subrange(0, 0) =~= Seq::<Json>::empty());
    while i < pantallas.len()
        invariant
            i <= pantallas@.len(),
            cuantas <= i,
            cuantas == coincidencias(h@, pantallas@.subrange(0, i as int)).len(),
            cuantas > 0 ==> valor_de(primera) == Some(coincidencias(h@, pantallas@.subrange(0, i as int))[0]),
        decreases pantallas.len() - i,
    {
        let ghost pre = pantallas@.subrange(0, i as int);
        let ghost sig = pantallas@.subrange(0, i + 1);
        assert(sig.drop_last() =~= pre);
        assert(sig.last() == pantallas@[i as int]);
        if coincide_pantalla_exec(h, &pantallas[i]) {
            if cuantas == 0 {
                primera = Some(&pantallas[i]);
            }
            cuantas = cuantas + 1;
        }
        i = i + 1;
    }
    assert(pantallas@.subrange(0, pantallas@.len() as int) =~= pantallas@);
    let elegida: Option<&Json> = if cuantas == 1 {
        primera
    } else if pantallas.len() == 1 {
        Some(&pantallas[0])
    } else {
        None
    };
    let p = match elegida {
        None => return Some(copiar(pantalla_sin_identificar(idioma))),
        Some(p) => p,
    };
    let conector: Option<&str> = match texto_de_miembro(Some(p), "connector") {
        Some(c) => if iguales(c, "HDMI") || iguales(c, "DisplayPort") {
            Some(c)
        } else {
            None
        },
        None => None,
    };
    let nombre: &str = match texto_de_miembro(Some(p), "monitorName") {
        Some(n) => if recortar(n).unicode_len() > 0 {
            n
        } else {
            pantalla_externa(idioma)
        },
        None => pantalla_externa(idioma),
    };
    Some(match conector {
        Some(c) => formatear2(plantilla_pantalla_conector(idioma), "nombre", nombre, "conector", c),
        None => formatear1(plantilla_pantalla_sin_conector(idioma), "nombre", nombre),
    })
}

pub open spec fn tiene_indice(item: Json, id: u64) -> bool {
    natural_de(obtener(item, "index"@)) == Some(id)
}

/// The first node of a list whose `index` is the one sought.
pub open spec fn primero_con_indice(items: Seq<Json>, id: u64) -> Option<Json>
    decreases items.len(),
{
    if items.len() == 0 {
        None
    } else if tiene_indice(items[0], id) {
        Some(items[0])
    } else {
        primero_con_indice(items.drop_first(), id)
    }
}

pub open spec fn nodo_spec(audio: Json, clase: Seq<char>, id: u64) -> Option<Json> {
    let puntero = if clase == "sink"@ { "/pulse/sinks"@ } else { "/pulse/sources"@ };
    match lista_de(apuntar(audio, puntero)) {
        Some(items) => primero_con_indice(items, id),
        None => None,
    }
}

/// A description worth showing: trimmed, not empty and not `(null)`.
pub open spec fn descripcion_util(item: Option<Json>) -> Seq<char> {
    match texto_de(obtener_opt(item, "description"@)) {
        Some(d) => {
            let t = recortado(d);
            if t.len() > 0 && t != "(null)"@ {
                t
            } else {
                Seq::empty()
            }
        },
        None => Seq::empty(),
    }
}

pub open spec fn nombre_entrada(idioma: Idioma, puerto: Seq<char>, descripcion: Seq<char>) -> Seq<char> {
    if puerto == "analog-input-front-mic"@ {
        microfono_frontal_spec(idioma)
    } else if puerto == "analog-input-rear-mic"@ {
        microfono_trasero_spec(idioma)
    } else if puerto == "analog-input-mic"@ {
        microfono_spec(idioma)
    } else if puerto == "analog-input-linein"@ {
        entrada_linea_spec(idioma)
    } else if descripcion.len() > 0 && !tecnico_spec(descripcion) {
        descripcion
    } else {
        entrada_audio_spec(idioma)
    }
}

pub open spec fn nombre_salida(idioma: Idioma, puerto: Seq<char>, descripcion: Seq<char>) -> Seq<char> {
    if puerto == "analog-output-headphones"@ {
        auriculares_spec(idioma)
    } else if puerto == "analog-output-lineout"@ {
        salida_linea_spec(idioma)
    } else if puerto == "analog-output-speaker"@ || puerto == "analog-output-speakers"@ {
        altavoces_spec(idioma)
    } else if descripcion.len() > 0 && !tecnico_spec(descripcion) {
        descripcion
    } else {
        salida_audio_spec(idioma)
    }
}

/// The name shown for a sound node (`sink` for outputs, anything else for
/// inputs) with its PulseAudio index: a display's name for outputs that go
/// to a display, a known device's model for inputs, the port's name, the
/// description when it is not technical, or a generic name.
pub open spec fn nodo_audio_spec(idioma: Idioma, audio: Json, clase: Seq<char>, id: u64, respaldo: Seq<char>) -> Seq<char> {
    let item = nodo_spec(audio, clase, id);
    let descripcion = descripcion_util(item);
    let puerto = texto_o_vacio(texto_de(obtener_opt(item, "activePort"@)));
    let huella = huella_spec(respaldo, descripcion);
    if clase == "sink"@ && pantalla_spec(idioma, audio, item, respaldo) is Some {
        pantalla_spec(idioma, audio, item, respaldo)->0
    } else if clase == "source"@ {
        match modelo_conocido_spec(huella) {
            Some(m) => m,
            None => nombre_entrada(idioma, puerto, descripcion),
        }
    } else {
        nombre_salida(idioma, puerto, descripcion)
    }
}

fn buscar_nodo<'a>(items: &'a Vec<Json>, id: u64) -> (r: Option<&'a Json>)
    ensures
        valor_de(r) == primero_con_indice(items@, id),
{
    let mut i: usize = 0;
    assert(items@.subrange(0, items@.len() as int) =~= items@);
    while i < items.len()
        invariant
            i <= items@.len(),
            primero_con_indice(items@, id) == primero_con_indice(items@.subrange(i as int, items@.len() as int), id),
        decreases items.len() - i,
    {
        let ghost resto = items@.subrange(i as int, items@.len() as int);
        assert(resto.drop_first() =~= items@.subrange(i + 1, items@.len() as int));
        assert(resto[0] == items@[i as int]);
        let indice = match items[i].obtener("index") {
            Some(v) => v.como_u64(),
            None => None,
        };
        if indice == Some(id) {
            return Some(&items[i]);
        }
        i = i + 1;
    }
    None
}

pub fn descripcion_nodo_audio(idioma: Idioma, audio: &Json, clase: &str, id: u64, respaldo: &str) -> (r: String)
    ensures
        r@ == nodo_audio_spec(idioma, *audio, clase@, id, respaldo@),
{
    let es_salida = iguales(clase, "sink");
    let puntero = if es_salida { "/pulse/sinks" } else { "/pulse/sources" };
    let item: Option<&Json> = match audio.apuntar(puntero) {
        Some(l) => match l.como_lista() {
            Some(items) => buscar_nodo(items, id),
            None => None,
        },
        None => None,
    };
    if es_salida {
        match descripcion_pantalla_audio(idioma, audio, item, respaldo) {
            Some(p) => return p,
            None => {},
        }
    }
    let descripcion: &str = match texto_de_miembro(item, "description") {
        Some(d) => {
            let t = recortar(d);
            if t.unicode_len() > 0 && !iguales(t, "(null)") {
                t
            } else {
                ""
            }
        },
        None => "",
    };
    let puerto: &str = match texto_de_miembro(item, "activePort") {
        Some(t) => t,
        None => "",
    };
    proof {
        reveal_strlit("");
        assert(""@ =~= Seq::<char>::empty());
    }
    let huella = a_minusculas(unir3(respaldo, " ", descripcion).as_str());
    if iguales(clase, "source") {
        match modelo_audio_conocido(huella.as_str()) {
            Some(m) => return copiar(m),
            None => {},
        }
        let nombre: &str = if iguales(puerto, "analog-input-front-mic") {
            microfono_frontal(idioma)
        } else if iguales(puerto, "analog-input-rear-mic") {
            microfono_trasero(idioma)
        } else if iguales(puerto, "analog-input-mic") {
            microfono(idioma)
        } else if iguales(puerto, "analog-input-linein") {
            entrada_linea(idioma)
        } else if descripcion.unicode_len() > 0 && !parece_nombre_tecnico_audio(descripcion) {
            descripcion
        } else {
            entrada_audio(idioma)
        };
        return copiar(nombre);
    }
    let nombre: &str = if iguales(puerto, "analog-output-headphones") {
        auriculares(idioma)
    } else if iguales(puerto, "analog-output-lineout") {
        salida_linea(idioma)
    } else if iguales(puerto, "analog-output-speaker") || iguales(puerto, "analog-output-speakers") {
        altavoces(idioma)
    } else if descripcion.unicode_len() > 0 && !parece_nombre_tecnico_audio(descripcion) {
        descripcion
    } else {
        salida_audio(idioma)
    };
    copiar(nombre)
}

} // verus!
