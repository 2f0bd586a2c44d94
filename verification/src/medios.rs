//! The media page: the sound outputs and inputs with their names, which one
//! is the default, the cameras people recognise, and the engine commands the
//! page sends.

use vstd::prelude::*;
use crate::audio::{descripcion_nodo_audio, nodo_audio_spec};
use crate::cadena::{a_minusculas, contiene, contiene_exec, copiar, decimal, decimal_u64, minusculas, recortado, recortar, unir2, unir3, vistas};
use crate::idioma::Idioma;
use crate::json::{Json, apuntar, booleano_de, lista_de, natural_de, obtener, texto_de};
use crate::mantenimiento::u32_de_natural;
use crate::textos::camara::{c_busy, c_busy_spec, c_detail, c_detail_spec, c_title, c_title_spec};
use crate::textos::dispositivos::{
    camara_disponible, camara_disponible_spec, camara_no_disponible, camara_no_disponible_spec,
    camara_usb_disponible, camara_usb_disponible_spec, camara_virtual_disponible,
    camara_virtual_disponible_spec, camara_virtual_esperando, camara_virtual_esperando_spec,
    modos_disponibles, modos_disponibles_spec, nodo_predeterminado, nodo_predeterminado_spec,
    prueba_camara_esperando, prueba_camara_esperando_spec, prueba_camara_modo, prueba_camara_modo_spec,
};
use crate::textos::interfaz::{texto, texto_spec};

verus! {

/// The PulseAudio class of the nodes of a section: outputs or inputs.
pub open spec fn clase_nodo(salida: bool) -> Seq<char> {
    if salida {
        "sink"@
    } else {
        "source"@
    }
}

/// The nodes listed for a section of the page.
pub open spec fn nodos_spec(audio: Json, salida: bool) -> Seq<Json> {
    match lista_de(obtener(audio, if salida { "sinks"@ } else { "sources"@ })) {
        Some(v) => v,
        None => Seq::empty(),
    }
}

/// The default node of a section, when its id fits in 32 bits.
pub open spec fn predeterminado_spec(audio: Json, salida: bool) -> Option<u32> {
    u32_de_natural(natural_de(apuntar(audio, if salida { "/defaults/sinkId"@ } else { "/defaults/sourceId"@ })))
}

pub open spec fn id_nodo(n: Json) -> Option<u64> {
    natural_de(obtener(n, "id"@))
}

/// The name the engine gave a node, `Audio` when it gave none.
pub open spec fn respaldo_nodo(n: Json) -> Seq<char> {
    match texto_de(obtener(n, "name"@)) {
        Some(t) => t,
        None => "Audio"@,
    }
}

/// The ids that a selector can send: those that fit in 32 bits.
pub open spec fn ids_spec(ns: Seq<Json>) -> Seq<u32>
    decreases ns.len(),
{
    if ns.len() == 0 {
        Seq::empty()
    } else {
        match u32_de_natural(id_nodo(ns.last())) {
            Some(id) => ids_spec(ns.drop_last()).push(id),
            None => ids_spec(ns.drop_last()),
        }
    }
}

/// The names of the nodes that have an id.
pub open spec fn etiquetas_spec(idioma: Idioma, audio: Json, salida: bool, ns: Seq<Json>) -> Seq<Seq<char>>
    decreases ns.len(),
{
    if ns.len() == 0 {
        Seq::empty()
    } else {
        match id_nodo(ns.last()) {
            Some(id) => etiquetas_spec(idioma, audio, salida, ns.drop_last()).push(
                nodo_audio_spec(idioma, audio, clase_nodo(salida), id, respaldo_nodo(ns.last())),
            ),
            None => etiquetas_spec(idioma, audio, salida, ns.drop_last()),
        }
    }
}

/// A node's row: its position in the list, its id, its name, its subtitle,
/// whether it is the default and whether it is muted.
pub open spec fn fila_nodo_spec(
    idioma: Idioma,
    audio: Json,
    salida: bool,
    posicion: int,
    n: Json,
    id: u64,
) -> (int, u64, Seq<char>, Seq<char>, bool, bool) {
    let es = u32_de_natural(Some(id)) is Some && u32_de_natural(Some(id)) == predeterminado_spec(audio, salida);
    (
        posicion,
        id,
        nodo_audio_spec(idioma, audio, clase_nodo(salida), id, respaldo_nodo(n)),
        if es { nodo_predeterminado_spec(idioma) } else { texto_spec(idioma, "volume"@) },
        es,
        booleano_de(obtener(n, "muted"@)) == Some(true),
    )
}

pub open spec fn filas_nodos_spec(idioma: Idioma, audio: Json, salida: bool, ns: Seq<Json>) -> Seq<(int, u64, Seq<char>, Seq<char>, bool, bool)>
    decreases ns.len(),
{
    if ns.len() == 0 {
        Seq::empty()
    } else {
        match id_nodo(ns.last()) {
            Some(id) => filas_nodos_spec(idioma, audio, salida, ns.drop_last()).push(
                fila_nodo_spec(idioma, audio, salida, ns.len() - 1, ns.last(), id),
            ),
            None => filas_nodos_spec(idioma, audio, salida, ns.drop_last()),
        }
    }
}

/// First position of an id in a list.
pub open spec fn posicion_id(ids: Seq<u32>, id: u32) -> Option<int>
    decreases ids.len(),
{
    if ids.len() == 0 {
        None
    } else if ids[0] == id {
        Some(0)
    } else {
        match posicion_id(ids.drop_first(), id) {
            Some(i) => Some(i + 1),
            None => None,
        }
    }
}

/// The option selected at first: the default node, else the first one.
pub open spec fn seleccion_nodo_spec(ids: Seq<u32>, predeterminado: Option<u32>) -> int {
    match predeterminado {
        Some(p) => match posicion_id(ids, p) {
            Some(i) => i,
            None => 0,
        },
        None => 0,
    }
}

proof fn lema_posicion_id(ids: Seq<u32>, id: u32)
    ensures
        match posicion_id(ids, id) {
            Some(i) => 0 <= i < ids.len() && ids[i] == id && forall|j: int| 0 <= j < i ==> ids[j] != id,
            None => forall|j: int| 0 <= j < ids.len() ==> ids[j] != id,
        },
    decreases ids.len(),
{
    if ids.len() > 0 {
        lema_posicion_id(ids.drop_first(), id);
        if ids[0] != id {
            assert forall|j: int| 0 < j < ids.len() implies ids[j] == ids.drop_first()[j - 1] by {}
        }
    }
}

fn posicion_id_exec(ids: &Vec<u32>, id: u32) -> (r: Option<usize>)
    ensures
        match r {
            Some(k) => posicion_id(ids@, id) == Some(k as int),
            None => posicion_id(ids@, id) is None,
        },
{
    proof {
        lema_posicion_id(ids@, id);
    }
    let mut k: usize = 0;
    while k < ids.len()
        invariant
            k <= ids@.len(),
            forall|j: int| 0 <= j < k ==> ids@[j] != id,
            match posicion_id(ids@, id) {
                Some(x) => 0 <= x < ids@.len() && ids@[x] == id && forall|j: int| 0 <= j < x ==> ids@[j] != id,
                None => forall|j: int| 0 <= j < ids@.len() ==> ids@[j] != id,
            },
        decreases ids.len() - k,
    {
        if ids[k] == id {
            return Some(k);
        }
        k = k + 1;
    }
    None
}

/// One row of a sound section.
pub struct FilaNodo {
    /// Position of the node in the engine's list.
    pub posicion: usize,
    pub id: u64,
    pub titulo: String,
    pub subtitulo: String,
    pub predeterminado: bool,
    pub silenciado: bool,
}

pub open spec fn vista_fila_nodo(f: FilaNodo) -> (int, u64, Seq<char>, Seq<char>, bool, bool) {
    (f.posicion as int, f.id, f.titulo@, f.subtitulo@, f.predeterminado, f.silenciado)
}

pub open spec fn vista_filas_nodos(v: Seq<FilaNodo>) -> Seq<(int, u64, Seq<char>, Seq<char>, bool, bool)> {
    v.map_values(|f: FilaNodo| vista_fila_nodo(f))
}

/// A sound section of the media page.
pub struct SeccionAudio {
    /// The ids the selector sends, in order.
    pub ids: Vec<u32>,
    /// The names the selector shows, in order.
    pub etiquetas: Vec<String>,
    /// The option selected at first.
    pub seleccion: u32,
    /// Whether the default-device selector is shown: every named node has an
    /// id that it can send, and there is at least one.
    pub selector: bool,
    /// The rows of the nodes that have an id.
    pub filas: Vec<FilaNodo>,
}

fn miembro_u64(n: &Json, clave: &str) -> (r: Option<u64>)
    ensures
        r == natural_de(obtener(*n, clave@)),
{
    match n.obtener(clave) {
        Some(v) => v.como_u64(),
        None => None,
    }
}

fn a_u32(n: Option<u64>) -> (r: Option<u32>)
    ensures
        r == u32_de_natural(n),
{
    match n {
        Some(v) => if v <= 0xffff_ffffu64 {
            Some(v as u32)
        } else {
            None
        },
        None => None,
    }
}

fn respaldo_exec(n: &Json) -> (r: &str)
    ensures
        r@ == respaldo_nodo(*n),
{
    match n.obtener("name") {
        Some(v) => match v.como_texto() {
            Some(t) => t,
            None => "Audio",
        },
        None => "Audio",
    }
}

/// The outputs (`salida`) or the inputs of the media page, from the engine's
/// `audio` report.
pub fn seccion_audio(idioma: Idioma, audio: &Json, salida: bool) -> (r: SeccionAudio)
    ensures
        r.ids@ == ids_spec(nodos_spec(*audio, salida)),
        vistas(r.etiquetas@) == etiquetas_spec(idioma, *audio, salida, nodos_spec(*audio, salida)),
        r.seleccion == seleccion_nodo_spec(r.ids@, predeterminado_spec(*audio, salida)) as u32,
        r.selector == (r.ids@.len() == r.etiquetas@.len() && r.ids@.len() > 0),
        vista_filas_nodos(r.filas@) == filas_nodos_spec(idioma, *audio, salida, nodos_spec(*audio, salida)),
{
    let clase = if salida { "sink" } else { "source" };
    let vacia: Vec<Json> = Vec::new();
    let nodos: &Vec<Json> = match audio.obtener(if salida { "sinks" } else { "sources" }) {
        Some(v) => match v.como_lista() {
            Some(l) => l,
            None => &vacia,
        },
        None => &vacia,
    };
    let predeterminado = match audio.apuntar(if salida { "/defaults/sinkId" } else { "/defaults/sourceId" }) {
        Some(v) => a_u32(v.como_u64()),
        None => None,
    };
    assert(predeterminado == predeterminado_spec(*audio, salida));
    let ghost ns = nodos@;
    assert(ns == nodos_spec(*audio, salida));
    let mut ids: Vec<u32> = Vec::new();
    let mut etiquetas: Vec<String> = Vec::new();
    let mut filas: Vec<FilaNodo> = Vec::new();
    let mut i: usize = 0;
    while i < nodos.len()
        invariant
            i <= ns.len(),
            ns == nodos@,
            clase@ == clase_nodo(salida),
            predeterminado == predeterminado_spec(*audio, salida),
            ids@ == ids_spec(ns.subrange(0, i as int)),
            vistas(etiquetas@) == etiquetas_spec(idioma, *audio, salida, ns.subrange(0, i as int)),
            vista_filas_nodos(filas@) == filas_nodos_spec(idioma, *audio, salida, ns.subrange(0, i as int)),
        decreases ns.len() - i,
    {
        let ghost pre = ns.subrange(0, i as int);
        let ghost sig = ns.subrange(0, i + 1);
        assert(sig.drop_last() =~= pre);
        assert(sig.last() == ns[i as int]);
        let nodo = &nodos[i];
        let id = miembro_u64(nodo, "id");
        match id {
            Some(id) => {
                let titulo = descripcion_nodo_audio(idioma, audio, clase, id, respaldo_exec(nodo));
                let id32 = a_u32(Some(id));
                let es = match id32 {
                    Some(v) => match predeterminado {
                        Some(p) => v == p,
                        None => false,
                    },
                    None => false,
                };
                let silenciado = match nodo.obtener("muted") {
                    Some(m) => m.como_bool() == Some(true),
                    None => false,
                };
                let subtitulo = if es { copiar(nodo_predeterminado(idioma)) } else { copiar(texto(idioma, "volume")) };
                let ghost antes_e = vistas(etiquetas@);
                etiquetas.push(copiar(titulo.as_str()));
                assert(vistas(etiquetas@) =~= antes_e.push(titulo@));
                let ghost antes_f = vista_filas_nodos(filas@);
                filas.push(FilaNodo { posicion: i, id, titulo, subtitulo, predeterminado: es, silenciado });
                assert(vista_filas_nodos(filas@) =~= antes_f.push(fila_nodo_spec(idioma, *audio, salida, i as int, ns[i as int], id)));
                match id32 {
                    Some(v) => {
                        ids.push(v);
                    },
                    None => {},
                }
            },
            None => {},
        }
        i = i + 1;
    }
    assert(ns.subrange(0, ns.len() as int) =~= ns);
    let seleccion: u32 = match predeterminado {
        Some(p) => match posicion_id_exec(&ids, p) {
            Some(k) => k as u32,
            None => 0,
        },
        None => 0,
    };
    let selector = ids.len() == etiquetas.len() && ids.len() > 0;
    SeccionAudio { ids, etiquetas, seleccion, selector, filas }
}

/// What a camera row says of a camera.
#[derive(Clone, Copy, Debug, PartialEq, Eq, Structural)]
pub enum EstadoCamara {
    VirtualDisponible,
    VirtualEsperando,
    UsbDisponible,
    Disponible,
    NoDisponible,
}

pub open spec fn estado_camara_spec(c: Json) -> EstadoCamara {
    let es_virtual = booleano_de(obtener(c, "virtual"@)) == Some(true);
    let disponible = booleano_de(obtener(c, "available"@)) == Some(true);
    let bus = match texto_de(obtener(c, "bus"@)) {
        Some(b) => b,
        None => Seq::empty(),
    };
    let usb = contiene(minusculas(bus), "usb"@);
    if es_virtual && disponible {
        EstadoCamara::VirtualDisponible
    } else if es_virtual {
        EstadoCamara::VirtualEsperando
    } else if disponible && usb {
        EstadoCamara::UsbDisponible
    } else if disponible {
        EstadoCamara::Disponible
    } else {
        EstadoCamara::NoDisponible
    }
}

/// A camera's name: its card, `Cámara` when it has none.
pub open spec fn titulo_camara(c: Json) -> Seq<char> {
    match texto_de(obtener(c, "card"@)) {
        Some(t) => if t.len() > 0 {
            t
        } else {
            "Cámara"@
        },
        None => "Cámara"@,
    }
}

/// A camera row: position in the engine's list, name, state, device path
/// and whether it is available.
pub open spec fn camara_spec(posicion: int, c: Json) -> (int, Seq<char>, EstadoCamara, Option<Seq<char>>, bool) {
    (
        posicion,
        titulo_camara(c),
        estado_camara_spec(c),
        texto_de(obtener(c, "device"@)),
        booleano_de(obtener(c, "available"@)) == Some(true),
    )
}

pub open spec fn titulos_de(v: Seq<(int, Seq<char>, EstadoCamara, Option<Seq<char>>, bool)>) -> Seq<Seq<char>> {
    v.map_values(|c: (int, Seq<char>, EstadoCamara, Option<Seq<char>>, bool)| c.1)
}

/// The cameras shown, in the engine's order: a camera whose name was
/// already shown is left out.
pub open spec fn camaras_spec(ds: Seq<Json>) -> Seq<(int, Seq<char>, EstadoCamara, Option<Seq<char>>, bool)>
    decreases ds.len(),
{
    if ds.len() == 0 {
        Seq::empty()
    } else {
        let pre = camaras_spec(ds.drop_last());
        if crate::aplicaciones::esta_en(titulos_de(pre), titulo_camara(ds.last())) {
            pre
        } else {
            pre.push(camara_spec(ds.len() - 1, ds.last()))
        }
    }
}

pub open spec fn dispositivos_camara(datos: Json) -> Seq<Json> {
    match lista_de(apuntar(datos, "/cameras/devices"@)) {
        Some(v) => v,
        None => Seq::empty(),
    }
}

/// One camera of the media page.
pub struct CamaraVisible {
    /// Position of the camera in the engine's list.
    pub posicion: usize,
    pub titulo: String,
    pub estado: EstadoCamara,
    /// The video device the camera test opens, when the engine gave one.
    pub dispositivo: Option<String>,
    pub disponible: bool,
}

pub open spec fn vista_camara(c: CamaraVisible) -> (int, Seq<char>, EstadoCamara, Option<Seq<char>>, bool) {
    (
        c.posicion as int,
        c.titulo@,
        c.estado,
        match c.dispositivo {
            Some(d) => Some(d@),
            None => None,
        },
        c.disponible,
    )
}

pub open spec fn vista_camaras(v: Seq<CamaraVisible>) -> Seq<(int, Seq<char>, EstadoCamara, Option<Seq<char>>, bool)> {
    v.map_values(|c: CamaraVisible| vista_camara(c))
}

fn miembro_bool(n: &Json, clave: &str) -> (r: bool)
    ensures
        r == (booleano_de(obtener(*n, clave@)) == Some(true)),
{
    match n.obtener(clave) {
        Some(v) => v.como_bool() == Some(true),
        None => false,
    }
}

fn miembro_texto<'a>(n: &'a Json, clave: &str) -> (r: Option<&'a str>)
    ensures
        crate::motor::vista_opcional(r) == texto_de(obtener(*n, clave@)),
{
    match n.obtener(clave) {
        Some(v) => v.como_texto(),
        None => None,
    }
}

fn camara_exec(posicion: usize, c: &Json) -> (r: CamaraVisible)
    ensures
        vista_camara(r) == camara_spec(posicion as int, *c),
{
    let titulo = match miembro_texto(c, "card") {
        Some(t) => if t.unicode_len() > 0 {
            copiar(t)
        } else {
            copiar("Cámara")
        },
        None => copiar("Cámara"),
    };
    let es_virtual = miembro_bool(c, "virtual");
    let disponible = miembro_bool(c, "available");
    let bus = a_minusculas(match miembro_texto(c, "bus") {
        Some(b) => b,
        None => "",
    });
    proof {
        reveal_strlit("");
    }
    assert(bus@ == minusculas(match texto_de(obtener(*c, "bus"@)) {
        Some(b) => b,
        None => Seq::<char>::empty(),
    }));
    let usb = contiene_exec(bus.as_str(), "usb");
    let estado = if es_virtual && disponible {
        EstadoCamara::VirtualDisponible
    } else if es_virtual {
        EstadoCamara::VirtualEsperando
    } else if disponible && usb {
        EstadoCamara::UsbDisponible
    } else if disponible {
        EstadoCamara::Disponible
    } else {
        EstadoCamara::NoDisponible
    };
    let dispositivo = match miembro_texto(c, "device") {
        Some(d) => Some(copiar(d)),
        None => None,
    };
    assert(estado == estado_camara_spec(*c));
    assert(titulo@ == titulo_camara(*c));
    CamaraVisible { posicion, titulo, estado, dispositivo, disponible }
}

/// The cameras of the media page, from the engine's media report.
pub fn camaras_visibles(datos: &Json) -> (r: Vec<CamaraVisible>)
    ensures
        vista_camaras(r@) == camaras_spec(dispositivos_camara(*datos)),
{
    let vacia: Vec<Json> = Vec::new();
    let ds: &Vec<Json> = match datos.apuntar("/cameras/devices") {
        Some(v) => match v.como_lista() {
            Some(l) => l,
            None => &vacia,
        },
        None => &vacia,
    };
    let ghost todos = ds@;
    let mut r: Vec<CamaraVisible> = Vec::new();
    let mut titulos: Vec<String> = Vec::new();
    let mut i: usize = 0;
    while i < ds.len()
        invariant
            i <= todos.len(),
            todos == ds@,
            todos == dispositivos_camara(*datos),
            vista_camaras(r@) == camaras_spec(todos.subrange(0, i as int)),
            vistas(titulos@) == titulos_de(vista_camaras(r@)),
        decreases todos.len() - i,
    {
        let ghost pre = todos.subrange(0, i as int);
        let ghost sig = todos.subrange(0, i + 1);
        assert(sig.drop_last() =~= pre);
        assert(sig.last() == todos[i as int]);
        let camara = camara_exec(i, &ds[i]);
        if !crate::aplicaciones::esta_texto(titulos.as_slice(), camara.titulo.as_str()) {
            let ghost antes_t = vistas(titulos@);
            titulos.push(copiar(camara.titulo.as_str()));
            let ghost antes = vista_camaras(r@);
            r.push(camara);
            assert(vista_camaras(r@) =~= antes.push(camara_spec(i as int, todos[i as int])));
            assert(vistas(titulos@) =~= antes_t.push(titulo_camara(todos[i as int])));
            assert(titulos_de(vista_camaras(r@)) =~= titulos_de(antes).push(titulo_camara(todos[i as int])));
        }
        i = i + 1;
    }
    assert(todos.subrange(0, todos.len() as int) =~= todos);
    r
}

pub open spec fn texto_estado_camara_spec(idioma: Idioma, e: EstadoCamara) -> Seq<char> {
    match e {
        EstadoCamara::VirtualDisponible => camara_virtual_disponible_spec(idioma),
        EstadoCamara::VirtualEsperando => camara_virtual_esperando_spec(idioma),
        EstadoCamara::UsbDisponible => camara_usb_disponible_spec(idioma),
        EstadoCamara::Disponible => camara_disponible_spec(idioma),
        EstadoCamara::NoDisponible => camara_no_disponible_spec(idioma),
    }
}

/// What a camera row says: its state, then its modes when there are any.
pub open spec fn detalle_camara_spec(idioma: Idioma, e: EstadoCamara, modos: Seq<char>) -> Seq<char> {
    if modos.len() == 0 {
        texto_estado_camara_spec(idioma, e)
    } else {
        texto_estado_camara_spec(idioma, e) + " · "@ + modos
    }
}

/// `modos` is the summary of the camera's modes as the page writes it.
pub fn detalle_camara(idioma: Idioma, estado: EstadoCamara, modos: &str) -> (r: String)
    ensures
        r@ == detalle_camara_spec(idioma, estado, modos@),
{
    let base = match estado {
        EstadoCamara::VirtualDisponible => camara_virtual_disponible(idioma),
        EstadoCamara::VirtualEsperando => camara_virtual_esperando(idioma),
        EstadoCamara::UsbDisponible => camara_usb_disponible(idioma),
        EstadoCamara::Disponible => camara_disponible(idioma),
        EstadoCamara::NoDisponible => camara_no_disponible(idioma),
    };
    if modos.unicode_len() == 0 {
        copiar(base)
    } else {
        unir3(base, " · ", modos)
    }
}

/// The subtitle of a camera's test row.
pub open spec fn subtitulo_prueba_camara_spec(idioma: Idioma, disponible: bool, modos: Seq<char>) -> Seq<char> {
    if !disponible {
        prueba_camara_esperando_spec(idioma)
    } else if modos.len() == 0 {
        c_detail_spec(idioma) + " · "@ + prueba_camara_modo_spec(idioma)
    } else {
        c_detail_spec(idioma) + " · "@ + prueba_camara_modo_spec(idioma) + " · "@ + modos_disponibles_spec(idioma) + ": "@ + modos
    }
}

pub fn subtitulo_prueba_camara(idioma: Idioma, disponible: bool, modos: &str) -> (r: String)
    ensures
        r@ == subtitulo_prueba_camara_spec(idioma, disponible, modos@),
{
    if !disponible {
        copiar(prueba_camara_esperando(idioma))
    } else if modos.unicode_len() == 0 {
        unir3(c_detail(idioma), " · ", prueba_camara_modo(idioma))
    } else {
        let inicio = unir3(c_detail(idioma), " · ", prueba_camara_modo(idioma));
        let medio = unir3(inicio.as_str(), " · ", modos_disponibles(idioma));
        unir3(medio.as_str(), ": ", modos)
    }
}

/// The engine command that makes a node the default output or input.
pub open spec fn predeterminar_spec(salida: bool, id: u32) -> Seq<Seq<char>> {
    seq!["media"@, "audio"@, "default"@, clase_nodo(salida), decimal(id as nat)]
}

pub fn argumentos_predeterminar(salida: bool, id: u32) -> (r: Vec<String>)
    ensures
        vistas(r@) == predeterminar_spec(salida, id),
{
    let mut r: Vec<String> = Vec::new();
    r.push(copiar("media"));
    r.push(copiar("audio"));
    r.push(copiar("default"));
    r.push(copiar(if salida { "sink" } else { "source" }));
    r.push(decimal_u64(id as u64));
    assert(vistas(r@) =~= predeterminar_spec(salida, id));
    r
}

/// The engine command that mutes (`1`) or unmutes (`0`) a node.
pub open spec fn silenciar_spec(id: u64, activo: bool) -> Seq<Seq<char>> {
    seq!["media"@, "audio"@, "mute"@, decimal(id as nat), if activo { "1"@ } else { "0"@ }]
}

pub fn argumentos_silenciar(id: u64, activo: bool) -> (r: Vec<String>)
    ensures
        vistas(r@) == silenciar_spec(id, activo),
{
    let mut r: Vec<String> = Vec::new();
    r.push(copiar("media"));
    r.push(copiar("audio"));
    r.push(copiar("mute"));
    r.push(decimal_u64(id));
    r.push(copiar(if activo { "1" } else { "0" }));
    assert(vistas(r@) =~= silenciar_spec(id, activo));
    r
}

/// The engine command that sets a node's volume; `volumen` is the
/// percentage as the page writes it.
pub open spec fn volumen_spec(id: u64, volumen: Seq<char>) -> Seq<Seq<char>> {
    seq!["media"@, "audio"@, "volume"@, decimal(id as nat), volumen]
}

pub fn argumentos_volumen(id: u64, volumen: &str) -> (r: Vec<String>)
    ensures
        vistas(r@) == volumen_spec(id, volumen@),
{
    let mut r: Vec<String> = Vec::new();
    r.push(copiar("media"));
    r.push(copiar("audio"));
    r.push(copiar("volume"));
    r.push(decimal_u64(id));
    r.push(copiar(volumen));
    assert(vistas(r@) =~= volumen_spec(id, volumen@));
    r
}

/// The engine command that plays a test sound on an output for two seconds,
/// on the `left`, `right` or `both` channels.
pub open spec fn prueba_salida_spec(id: u32, canal: Seq<char>) -> Seq<Seq<char>> {
    seq!["media"@, "audio"@, "test-output"@, decimal(id as nat), "--channel"@, canal, "--seconds"@, "2"@, "--yes"@, "--json"@]
}

pub fn argumentos_prueba_salida(id: u32, canal: &str) -> (r: Vec<String>)
    ensures
        vistas(r@) == prueba_salida_spec(id, canal@),
{
    let mut r: Vec<String> = Vec::new();
    r.push(copiar("media"));
    r.push(copiar("audio"));
    r.push(copiar("test-output"));
    r.push(decimal_u64(id as u64));
    r.push(copiar("--channel"));
    r.push(copiar(canal));
    r.push(copiar("--seconds"));
    r.push(copiar("2"));
    r.push(copiar("--yes"));
    r.push(copiar("--json"));
    assert(vistas(r@) =~= prueba_salida_spec(id, canal@));
    r
}

/// The engine command that records three seconds from an input.
pub open spec fn grabar_spec(id: u32) -> Seq<Seq<char>> {
    seq!["media"@, "mic"@, "record"@, decimal(id as nat), "--seconds"@, "3"@, "--yes"@, "--json"@]
}

pub fn argumentos_grabar(id: u32) -> (r: Vec<String>)
    ensures
        vistas(r@) == grabar_spec(id),
{
    let mut r: Vec<String> = Vec::new();
    r.push(copiar("media"));
    r.push(copiar("mic"));
    r.push(copiar("record"));
    r.push(decimal_u64(id as u64));
    r.push(copiar("--seconds"));
    r.push(copiar("3"));
    r.push(copiar("--yes"));
    r.push(copiar("--json"));
    assert(vistas(r@) =~= grabar_spec(id));
    r
}

/// The engine command that measures an input's level for one second.
pub open spec fn medir_spec(id: u32) -> Seq<Seq<char>> {
    seq!["media"@, "mic"@, "meter"@, decimal(id as nat), "--seconds"@, "1"@, "--yes"@, "--json"@]
}

pub fn argumentos_medir(id: u32) -> (r: Vec<String>)
    ensures
        vistas(r@) == medir_spec(id),
{
    let mut r: Vec<String> = Vec::new();
    r.push(copiar("media"));
    r.push(copiar("mic"));
    r.push(copiar("meter"));
    r.push(decimal_u64(id as u64));
    r.push(copiar("--seconds"));
    r.push(copiar("1"));
    r.push(copiar("--yes"));
    r.push(copiar("--json"));
    assert(vistas(r@) =~= medir_spec(id));
    r
}

/// The engine command that plays a recording and then deletes it.
pub open spec fn reproducir_spec(ruta: Seq<char>) -> Seq<Seq<char>> {
    seq!["media"@, "mic"@, "play"@, ruta, "--delete"@, "--yes"@, "--json"@]
}

pub fn argumentos_reproducir(ruta: &str) -> (r: Vec<String>)
    ensures
        vistas(r@) == reproducir_spec(ruta@),
{
    let mut r: Vec<String> = Vec::new();
    r.push(copiar("media"));
    r.push(copiar("mic"));
    r.push(copiar("play"));
    r.push(copiar(ruta));
    r.push(copiar("--delete"));
    r.push(copiar("--yes"));
    r.push(copiar("--json"));
    assert(vistas(r@) =~= reproducir_spec(ruta@));
    r
}

/// Where the engine left a recording: the `path` of its reply.
pub fn ruta_grabacion(resultado: &Json) -> (r: Option<String>)
    ensures
        match r {
            Some(t) => texto_de(obtener(*resultado, "path"@)) == Some(t@),
            None => texto_de(obtener(*resultado, "path"@)) is None,
        },
{
    match miembro_texto(resultado, "path") {
        Some(t) => Some(copiar(t)),
        None => None,
    }
}

/// No two camera rows of the media page share a name.
pub proof fn ley_camaras_sin_nombres_repetidos(ds: Seq<Json>)
    ensures
        forall|i: int, j: int|
            0 <= i < j < camaras_spec(ds).len() ==> (#[trigger] camaras_spec(ds)[i]).1 != (#[trigger] camaras_spec(ds)[j]).1,
    decreases ds.len(),
{
    if ds.len() > 0 {
        ley_camaras_sin_nombres_repetidos(ds.drop_last());
        let pre = camaras_spec(ds.drop_last());
        let t = titulo_camara(ds.last());
        if !crate::aplicaciones::esta_en(titulos_de(pre), t) {
            let r = camaras_spec(ds);
            assert forall|i: int, j: int| 0 <= i < j < r.len() implies (#[trigger] r[i]).1 != (#[trigger] r[j]).1 by {
                if j == pre.len() {
                    assert(titulos_de(pre)[i] == pre[i].1);
                } else {
                    assert(r[i] == pre[i] && r[j] == pre[j]);
                }
            }
        }
    }
}

/// The sound selectors open on the default device whenever it is listed.
pub proof fn ley_selector_abre_en_predeterminado(ids: Seq<u32>, predeterminado: u32)
    requires
        exists|k: int| 0 <= k < ids.len() && ids[k] == predeterminado,
    ensures
        0 <= seleccion_nodo_spec(ids, Some(predeterminado)) < ids.len(),
        ids[seleccion_nodo_spec(ids, Some(predeterminado))] == predeterminado,
{
    lema_posicion_id(ids, predeterminado);
}

/// Bytes of one frame of the camera test: 640 × 360 pixels of four bytes.
pub const BYTES_POR_CUADRO: usize = 921600;

/// The engine command that streams a camera at 640 × 360.
pub open spec fn camara_stream_spec(dispositivo: Seq<char>) -> Seq<Seq<char>> {
    seq!["media"@, "camera"@, "stream"@, dispositivo, "--width"@, "640"@, "--height"@, "360"@]
}

pub fn argumentos_camara(dispositivo: &str) -> (r: Vec<String>)
    ensures
        vistas(r@) == camara_stream_spec(dispositivo@),
{
    let mut r: Vec<String> = Vec::new();
    r.push(copiar("media"));
    r.push(copiar("camera"));
    r.push(copiar("stream"));
    r.push(copiar(dispositivo));
    r.push(copiar("--width"));
    r.push(copiar("640"));
    r.push(copiar("--height"));
    r.push(copiar("360"));
    assert(vistas(r@) =~= camara_stream_spec(dispositivo@));
    r
}

/// The title of a camera test window.
pub fn titulo_prueba_camara(idioma: Idioma, camara: &str) -> (r: String)
    ensures
        r@ == c_title_spec(idioma) + " · "@ + camara@,
{
    unir3(c_title(idioma), " · ", camara)
}

/// Why a camera stream stopped: the error output of the engine when it said
/// something, else what reading the frames found.
pub open spec fn detalle_fin_camara_spec(lectura: Seq<char>, errores: Seq<char>) -> Seq<char> {
    if recortado(errores).len() > 0 {
        recortado(errores)
    } else {
        lectura
    }
}

pub fn detalle_fin_camara(lectura: &str, errores: &str) -> (r: String)
    ensures
        r@ == detalle_fin_camara_spec(lectura@, errores@),
{
    let e = recortar(errores);
    if e.unicode_len() > 0 {
        copiar(e)
    } else {
        copiar(lectura)
    }
}

/// How a camera test ends: well when the window was closed or the stream
/// ended well; else with the reason, or a generic one.
pub open spec fn fin_camara_spec(cerrado: bool, exito: Option<bool>, detalle: Seq<char>) -> Result<(), Seq<char>> {
    if cerrado || exito == Some(true) {
        Ok(())
    } else if detalle.len() == 0 {
        Err("La previsualización de la cámara terminó inesperadamente."@)
    } else {
        Err(detalle)
    }
}

pub fn fin_prueba_camara(cerrado: bool, exito: Option<bool>, detalle: &str) -> (r: Result<(), String>)
    ensures
        match r {
            Ok(()) => fin_camara_spec(cerrado, exito, detalle@) is Ok,
            Err(e) => fin_camara_spec(cerrado, exito, detalle@) == Err::<(), Seq<char>>(e@),
        },
{
    if cerrado || exito == Some(true) {
        Ok(())
    } else if detalle.unicode_len() == 0 {
        Err(copiar("La previsualización de la cámara terminó inesperadamente."))
    } else {
        Err(copiar(detalle))
    }
}

/// What the camera test shows when it fails: a busy camera is named as
/// such and raises no notice; any other error is shown as it is and also
/// raised as a notice.
pub open spec fn fallo_camara_spec(idioma: Idioma, error: Seq<char>) -> (Seq<char>, bool) {
    if contiene(minusculas(error), "busy"@) {
        (c_busy_spec(idioma), false)
    } else {
        (error, true)
    }
}

pub fn fallo_camara(idioma: Idioma, error: &str) -> (r: (String, bool))
    ensures
        (r.0@, r.1) == fallo_camara_spec(idioma, error@),
{
    let minus = a_minusculas(error);
    if contiene_exec(minus.as_str(), "busy") {
        (copiar(c_busy(idioma)), false)
    } else {
        (copiar(error), true)
    }
}

} // verus!
