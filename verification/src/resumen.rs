//! The summary page: how long ago things happened, the last portable backup,
//! and the matters that need a person's attention.

use vstd::prelude::*;
use crate::cadena::{decimal, decimal_u64, decimal_usize, iguales, unir3};
use crate::json::{Json, booleano_de, lista_de, natural_de, obtener, obtener_opt, texto_de, apuntar, largo_lista, valor_de};

verus! {

/// `Value::pointer(..).as_array().len()`, 0 when there is no array there.
pub fn cantidad(datos: &Json, puntero: &str) -> (r: usize)
    ensures
        r == largo_lista(apuntar(*datos, puntero@)),
{
    match datos.apuntar(puntero) {
        Some(v) => match v.como_lista() {
            Some(l) => l.len(),
            None => 0,
        },
        None => 0,
    }
}

/// Human wording of the time elapsed from `timestamp` to `ahora` (seconds).
pub open spec fn tiempo_relativo(timestamp: u64, ahora: u64) -> Seq<char> {
    let d: nat = if ahora > timestamp { (ahora - timestamp) as nat } else { 0 };
    if d < 60 {
        "Ahora"@
    } else if d < 3600 {
        "Hace "@ + decimal(d / 60) + " min"@
    } else if d < 86400 {
        "Hace "@ + decimal(d / 3600) + " h"@
    } else if d / 86400 == 1 {
        "Hace 1 día"@
    } else {
        "Hace "@ + decimal(d / 86400) + " días"@
    }
}

pub fn tiempo_relativo_desde(timestamp: u64, ahora: u64) -> (r: String)
    ensures
        r@ == tiempo_relativo(timestamp, ahora),
{
    let diferencia: u64 = if ahora > timestamp { ahora - timestamp } else { 0 };
    if diferencia < 60 {
        String::from_str("Ahora")
    } else if diferencia < 3600 {
        unir3("Hace ", decimal_u64(diferencia / 60).as_str(), " min")
    } else if diferencia < 86400 {
        unir3("Hace ", decimal_u64(diferencia / 3600).as_str(), " h")
    } else {
        let dias = diferencia / 86400;
        if dias == 1 {
            String::from_str("Hace 1 día")
        } else {
            unir3("Hace ", decimal_u64(dias).as_str(), " días")
        }
    }
}

pub open spec fn es_copia_portable(e: Json) -> bool {
    texto_de(obtener(e, "kind"@)) == Some("backup-export"@)
}

/// The last entry of the history that records a portable backup.
pub open spec fn ultima_copia(entradas: Seq<Json>) -> Option<Json>
    decreases entradas.len(),
{
    if entradas.len() == 0 {
        None
    } else if es_copia_portable(entradas.last()) {
        Some(entradas.last())
    } else {
        ultima_copia(entradas.drop_last())
    }
}

/// The time of the last portable backup: the `timestamp` of the last entry
/// whose `kind` is `backup-export`.
pub open spec fn ultima_copia_spec(historial: Json) -> Option<u64> {
    match lista_de(obtener(historial, "entries"@)) {
        Some(entradas) => natural_de(obtener_opt(ultima_copia(entradas), "timestamp"@)),
        None => None,
    }
}

pub fn ultima_copia_portable(historial: &Json) -> (r: Option<u64>)
    ensures
        r == ultima_copia_spec(*historial),
{
    let entradas = match historial.obtener("entries") {
        Some(e) => match e.como_lista() {
            Some(l) => l,
            None => return None,
        },
        None => return None,
    };
    let mut i: usize = entradas.len();
    assert(entradas@.subrange(0, entradas@.len() as int) =~= entradas@);
    while i > 0
        invariant
            i <= entradas@.len(),
            lista_de(obtener(*historial, "entries"@)) == Some(entradas@),
            ultima_copia(entradas@) == ultima_copia(entradas@.subrange(0, i as int)),
        decreases i,
    {
        let ghost pre = entradas@.subrange(0, i as int);
        assert(pre.drop_last() =~= entradas@.subrange(0, i - 1));
        assert(pre.last() == entradas@[i - 1]);
        let e = &entradas[i - 1];
        let es_copia = match e.obtener("kind") {
            Some(k) => match k.como_texto() {
                Some(t) => iguales(t, "backup-export"),
                None => false,
            },
            None => false,
        };
        if es_copia {
            assert(es_copia_portable(pre.last()));
            assert(ultima_copia(pre) == Some(entradas@[i - 1]));
            return match e.obtener("timestamp") {
                Some(t) => t.como_u64(),
                None => None,
            };
        }
        i = i - 1;
    }
    None
}

/// A matter that the summary page asks a person to review.
pub struct AsuntoResumen {
    pub titulo: String,
    pub detalle: String,
    pub destino: &'static str,
}

pub open spec fn vista_asunto(a: AsuntoResumen) -> (Seq<char>, Seq<char>, Seq<char>) {
    (a.titulo@, a.detalle@, a.destino@)
}

pub open spec fn vista_asuntos(v: Seq<AsuntoResumen>) -> Seq<(Seq<char>, Seq<char>, Seq<char>)> {
    v.map_values(|a: AsuntoResumen| vista_asunto(a))
}

pub open spec fn asuntos_copias(historial: Option<Json>, ahora: u64) -> Seq<(Seq<char>, Seq<char>, Seq<char>)> {
    match historial {
        Some(h) => match ultima_copia_spec(h) {
            Some(t) => {
                let dias: nat = (if ahora > t { (ahora - t) as nat } else { 0nat }) / 86400;
                if dias >= 30 {
                    seq![("Copia de seguridad"@, "La última copia portable tiene "@ + decimal(dias)
                        + " días. Conviene crear una nueva."@, "backups"@)]
                } else {
                    Seq::empty()
                }
            },
            None => seq![("Copia de seguridad"@, "Todavía no has creado una copia portable de esta configuración."@, "backups"@)],
        },
        None => seq![("Copias e historial"@, "Korunix no pudo comprobar el estado de las copias."@, "backups"@)],
    }
}

pub open spec fn asuntos_firmware(firmware: Option<Json>) -> Seq<(Seq<char>, Seq<char>, Seq<char>)> {
    match firmware {
        Some(f) => {
            let n = largo_lista(apuntar(f, "/devices"@));
            if n == 0 {
                Seq::empty()
            } else if n == 1 {
                seq![("Firmware"@, "Hay una actualización de firmware disponible."@, "firmware"@)]
            } else {
                seq![("Firmware"@, "Hay "@ + decimal(n) + " actualizaciones de firmware disponibles."@, "firmware"@)]
            }
        },
        None => seq![("Firmware"@, "Korunix no pudo comprobar el estado del firmware."@, "firmware"@)],
    }
}

pub open spec fn asuntos_permisos(privilegios: Option<Json>) -> Seq<(Seq<char>, Seq<char>, Seq<char>)> {
    match privilegios {
        Some(p) => if booleano_de(obtener(p, "guiUsable"@)) == Some(false) {
            seq![("Permisos"@, "Korunix no puede solicitar los permisos necesarios para modificar el sistema."@, "maintenance"@)]
        } else {
            Seq::empty()
        },
        None => seq![("Permisos"@, "Korunix no pudo comprobar si podrá autorizar cambios del sistema."@, "maintenance"@)],
    }
}

/// Backups first, then firmware, then permissions; each only with evidence.
pub open spec fn asuntos_spec(
    historial: Option<Json>,
    firmware: Option<Json>,
    privilegios: Option<Json>,
    ahora: u64,
) -> Seq<(Seq<char>, Seq<char>, Seq<char>)> {
    asuntos_copias(historial, ahora) + asuntos_firmware(firmware) + asuntos_permisos(privilegios)
}

fn asunto(titulo: &str, detalle: String, destino: &'static str) -> (r: AsuntoResumen)
    ensures
        vista_asunto(r) == (titulo@, detalle@, destino@),
{
    AsuntoResumen { titulo: String::from_str(titulo), detalle, destino }
}

pub fn asuntos_resumen(
    historial: Option<&Json>,
    firmware: Option<&Json>,
    privilegios: Option<&Json>,
    ahora: u64,
) -> (r: Vec<AsuntoResumen>)
    ensures
        vista_asuntos(r@) == asuntos_spec(valor_de(historial), valor_de(firmware), valor_de(privilegios), ahora),
{
    let mut asuntos: Vec<AsuntoResumen> = Vec::new();

    match historial {
        Some(h) => match ultima_copia_portable(h) {
            Some(timestamp) => {
                let dias = (if ahora > timestamp { ahora - timestamp } else { 0 }) / 86400;
                if dias >= 30 {
                    asuntos.push(asunto(
                        "Copia de seguridad",
                        unir3("La última copia portable tiene ", decimal_u64(dias).as_str(), " días. Conviene crear una nueva."),
                        "backups",
                    ));
                }
            },
            None => asuntos.push(asunto(
                "Copia de seguridad",
                String::from_str("Todavía no has creado una copia portable de esta configuración."),
                "backups",
            )),
        },
        None => asuntos.push(asunto(
            "Copias e historial",
            String::from_str("Korunix no pudo comprobar el estado de las copias."),
            "backups",
        )),
    }
    let ghost tras_copias = vista_asuntos(asuntos@);
    assert(tras_copias =~= asuntos_copias(valor_de(historial), ahora));

    match firmware {
        Some(f) => {
            let disponibles = cantidad(f, "/devices");
            if disponibles > 0 {
                let detalle = if disponibles == 1 {
                    String::from_str("Hay una actualización de firmware disponible.")
                } else {
                    unir3("Hay ", decimal_usize(disponibles).as_str(), " actualizaciones de firmware disponibles.")
                };
                asuntos.push(asunto("Firmware", detalle, "firmware"));
            }
        },
        None => asuntos.push(asunto(
            "Firmware",
            String::from_str("Korunix no pudo comprobar el estado del firmware."),
            "firmware",
        )),
    }
    let ghost tras_firmware = vista_asuntos(asuntos@);
    assert(tras_firmware =~= tras_copias + asuntos_firmware(valor_de(firmware)));

    match privilegios {
        Some(p) => {
            let usable = match p.obtener("guiUsable") {
                Some(v) => v.como_bool(),
                None => None,
            };
            if usable == Some(false) {
                asuntos.push(asunto(
                    "Permisos",
                    String::from_str("Korunix no puede solicitar los permisos necesarios para modificar el sistema."),
                    "maintenance",
                ));
            }
        },
        None => asuntos.push(asunto(
            "Permisos",
            String::from_str("Korunix no pudo comprobar si podrá autorizar cambios del sistema."),
            "maintenance",
        )),
    }
    assert(vista_asuntos(asuntos@) =~= tras_firmware + asuntos_permisos(valor_de(privilegios)));
    asuntos
}

/// The summary raises a matter only on evidence: it is empty exactly when the
/// history shows a portable backup less than thirty days old, the firmware
/// report lists no pending update, and the permission report does not say
/// that changes cannot be authorised.
pub proof fn ley_resumen_solo_alerta_con_evidencia(
    historial: Option<Json>,
    firmware: Option<Json>,
    privilegios: Option<Json>,
    ahora: u64,
)
    ensures
        asuntos_spec(historial, firmware, privilegios, ahora).len() == 0 <==> {
            &&& historial matches Some(h) && ultima_copia_spec(h) matches Some(t)
                && (if ahora > t { (ahora - t) as nat } else { 0nat }) / 86400 < 30
            &&& firmware matches Some(f) && largo_lista(apuntar(f, "/devices"@)) == 0
            &&& privilegios matches Some(p) && booleano_de(obtener(p, "guiUsable"@)) != Some(false)
        },
{
}

/// Where a summary matter leads: backups first, then firmware, then
/// maintenance.
pub open spec fn rango_destino(destino: Seq<char>) -> int {
    if destino == "backups"@ {
        0
    } else if destino == "firmware"@ {
        1
    } else {
        2
    }
}

/// The summary holds at most one matter per area, in the order of the pages
/// they lead to: backups, firmware, maintenance.
pub proof fn ley_resumen_en_orden_de_paginas(
    historial: Option<Json>,
    firmware: Option<Json>,
    privilegios: Option<Json>,
    ahora: u64,
)
    ensures
        asuntos_spec(historial, firmware, privilegios, ahora).len() <= 3,
        forall|i: int, j: int|
            0 <= i < j < asuntos_spec(historial, firmware, privilegios, ahora).len() ==> rango_destino(
                #[trigger] asuntos_spec(historial, firmware, privilegios, ahora)[i].2,
            ) < rango_destino(#[trigger] asuntos_spec(historial, firmware, privilegios, ahora)[j].2),
{
    reveal_strlit("backups");
    reveal_strlit("firmware");
    reveal_strlit("maintenance");
    assert("backups"@.len() == 7);
    assert("firmware"@.len() == 8);
    assert("maintenance"@.len() == 11);
    let a = asuntos_copias(historial, ahora);
    let b = asuntos_firmware(firmware);
    let c = asuntos_permisos(privilegios);
    let s = asuntos_spec(historial, firmware, privilegios, ahora);
    assert(s == a + b + c);
    assert(forall|k: int| 0 <= k < a.len() ==> #[trigger] a[k].2 == "backups"@);
    assert(forall|k: int| 0 <= k < b.len() ==> #[trigger] b[k].2 == "firmware"@);
    assert(forall|k: int| 0 <= k < c.len() ==> #[trigger] c[k].2 == "maintenance"@);
    assert forall|k: int| 0 <= k < s.len() implies #[trigger] rango_destino(s[k].2) == (if k < a.len() {
        0int
    } else if k < a.len() + b.len() {
        1int
    } else {
        2int
    }) by {
        if k < a.len() {
            assert(s[k] == a[k]);
        } else if k < a.len() + b.len() {
            assert(s[k] == b[k - a.len()]);
        } else {
            assert(s[k] == c[k - a.len() - b.len()]);
        }
    }
}

/// The overall state at the top of the summary, for `n` matters.
pub open spec fn estado_general_spec(n: nat) -> (Seq<char>, Seq<char>) {
    if n == 0 {
        ("Todo está bien"@, "Korunix no detectó asuntos que requieran atención en las comprobaciones disponibles."@)
    } else if n == 1 {
        ("Hay un asunto que revisar"@, "1 área requieren tu atención."@)
    } else {
        ("Hay asuntos que revisar"@, decimal(n) + " áreas requieren tu atención."@)
    }
}

pub fn estado_general(n: usize) -> (r: (String, String))
    ensures
        (r.0@, r.1@) == estado_general_spec(n as nat),
{
    if n == 0 {
        (
            String::from_str("Todo está bien"),
            String::from_str("Korunix no detectó asuntos que requieran atención en las comprobaciones disponibles."),
        )
    } else if n == 1 {
        (String::from_str("Hay un asunto que revisar"), String::from_str("1 área requieren tu atención."))
    } else {
        (String::from_str("Hay asuntos que revisar"), crate::cadena::unir2(decimal_usize(n).as_str(), " áreas requieren tu atención."))
    }
}

proof fn lema_cociente(d: int, k: int, u: int)
    requires
        u > 0,
        k >= 0,
        k * u <= d < (k + 1) * u,
    ensures
        d / u == k,
{
    assert(d / u == k) by (nonlinear_arith)
        requires
            u > 0,
            k >= 0,
            k * u <= d < (k + 1) * u,
    {
        vstd::arithmetic::div_mod::lemma_fundamental_div_mod(d, u);
    }
}

/// Elapsed time is worded by its whole units: "Ahora" under a minute (or for
/// a time not yet reached), then the whole minutes, the whole hours, "1 día",
/// and the whole days from two on.
pub proof fn ley_tiempo_relativo_en_unidades_enteras(t: u64, ahora: u64, k: nat)
    ensures
        ahora < t + 60 ==> tiempo_relativo(t, ahora) == "Ahora"@,
        1 <= k < 60 && t + k * 60 <= ahora < t + (k + 1) * 60
            ==> tiempo_relativo(t, ahora) == "Hace "@ + decimal(k) + " min"@,
        1 <= k < 24 && t + k * 3600 <= ahora < t + (k + 1) * 3600
            ==> tiempo_relativo(t, ahora) == "Hace "@ + decimal(k) + " h"@,
        t + 86400 <= ahora < t + 2 * 86400 ==> tiempo_relativo(t, ahora) == "Hace 1 día"@,
        k >= 2 && t + k * 86400 <= ahora < t + (k + 1) * 86400
            ==> tiempo_relativo(t, ahora) == "Hace "@ + decimal(k) + " días"@,
{
    let d: int = ahora - t;
    if 1 <= k < 60 && t + k * 60 <= ahora < t + (k + 1) * 60 {
        lema_cociente(d, k as int, 60);
    }
    if 1 <= k < 24 && t + k * 3600 <= ahora < t + (k + 1) * 3600 {
        lema_cociente(d, k as int, 3600);
    }
    if t + 86400 <= ahora < t + 2 * 86400 {
        lema_cociente(d, 1, 86400);
    }
    if k >= 2 && t + k * 86400 <= ahora < t + (k + 1) * 86400 {
        lema_cociente(d, k as int, 86400);
    }
}

} // verus!
