//! The light or dark appearance: what Noctalia's settings files, its command
//! and the desktop's colour-scheme setting say, and which one wins.

use vstd::prelude::*;
use crate::cadena::{
    a_minusculas, contiene, contiene_exec, empieza_con, empieza_con_exec, hasta_primero,
    hasta_primero_exec, iguales, minusculas, partes, partir, partir_una_vez, quitar_bordes,
    quitar_final, quitar_inicial, recortado, recortar, sin_bordes, sin_final, sin_inicial,
    termina_con, termina_con_exec, tras_primero, antes_primero, primera_posicion, vistas,
};

verus! {

#[derive(Clone, Copy, Debug, PartialEq, Eq, Structural)]
pub enum ModoApariencia {
    Claro,
    Oscuro,
    Automatico,
}

/// The value of a `key = value` line with spaces and quotes removed.
pub open spec fn valor_toml_spec(linea: Seq<char>) -> Option<Seq<char>> {
    match tras_primero(linea, '=') {
        Some(v) => Some(sin_bordes(sin_bordes(recortado(v), '"'), '\'')),
        None => None,
    }
}

pub fn valor_toml_simple(linea: &str) -> (r: Option<&str>)
    ensures
        crate::motor::vista_opcional(r) == valor_toml_spec(linea@),
{
    match partir_una_vez(linea, '=') {
        Some((_, valor)) => Some(quitar_bordes(quitar_bordes(recortar(valor), '"'), '\'')),
        None => None,
    }
}

/// What Noctalia's `theme.mode` preference names.
pub open spec fn preferencia_de(v: Seq<char>) -> Option<ModoApariencia> {
    if v == "light"@ || v == "claro"@ {
        Some(ModoApariencia::Claro)
    } else if v == "dark"@ || v == "oscuro"@ {
        Some(ModoApariencia::Oscuro)
    } else if v == "auto"@ || v == "automatic"@ || v == "automatico"@ || v == "automático"@ {
        Some(ModoApariencia::Automatico)
    } else {
        None
    }
}

/// What a `darkMode` flag written as TOML says.
pub open spec fn bandera_de(v: Seq<char>) -> Option<ModoApariencia> {
    if v == "true"@ || v == "1"@ || v == "yes"@ || v == "on"@ {
        Some(ModoApariencia::Oscuro)
    } else if v == "false"@ || v == "0"@ || v == "no"@ || v == "off"@ {
        Some(ModoApariencia::Claro)
    } else {
        None
    }
}

pub open spec fn seccion_color(s: Seq<char>) -> bool {
    s == "colorschemes"@ || s == "color_schemes"@ || s == "color-schemes"@
}

pub open spec fn clave_oscuro(seccion: Seq<char>, clave: Seq<char>) -> bool {
    (seccion_color(seccion) && (clave == "darkmode"@ || clave == "dark_mode"@))
        || clave == "colorschemes.darkmode"@ || clave == "color_schemes.dark_mode"@
        || clave == "color-schemes.dark-mode"@
}

/// What was read so far: the current section, the preferred mode and the
/// effective one.
pub struct LecturaNoctalia {
    pub seccion: Seq<char>,
    pub preferencia: Option<ModoApariencia>,
    pub efectivo: Option<ModoApariencia>,
}

pub open spec fn lectura(seccion: Seq<char>, preferencia: Option<ModoApariencia>, efectivo: Option<ModoApariencia>) -> LecturaNoctalia {
    LecturaNoctalia { seccion, preferencia, efectivo }
}

pub open spec fn cambiar_si(nuevo: Option<ModoApariencia>, actual: Option<ModoApariencia>) -> Option<ModoApariencia> {
    match nuevo {
        Some(m) => Some(m),
        None => actual,
    }
}

/// One line of a settings file, with what follows a `#` left out.
pub open spec fn leer_linea(e: LecturaNoctalia, original: Seq<char>) -> LecturaNoctalia {
    let linea = recortado(hasta_primero(original, '#'));
    if linea.len() == 0 {
        e
    } else if empieza_con(linea, "["@) && termina_con(linea, "]"@) {
        LecturaNoctalia {
            seccion: minusculas(recortado(sin_final(sin_inicial(linea, '['), ']'))),
            ..e
        }
    } else {
        let clave = match antes_primero(linea, '=') {
            Some(k) => minusculas(recortado(k)),
            None => Seq::empty(),
        };
        let valor = minusculas(match valor_toml_spec(linea) {
            Some(v) => v,
            None => ""@,
        });
        if (e.seccion == "theme"@ && clave == "mode"@) || clave == "theme.mode"@ {
            LecturaNoctalia { preferencia: cambiar_si(preferencia_de(valor), e.preferencia), ..e }
        } else if clave_oscuro(e.seccion, clave) {
            LecturaNoctalia { efectivo: cambiar_si(bandera_de(valor), e.efectivo), ..e }
        } else if contiene(linea, "\"darkMode\""@) && primera_posicion(linea, ':') is Some {
            let v = sin_final(recortado(tras_primero(linea, ':')->0), ',');
            let nuevo = if v == "true"@ {
                Some(ModoApariencia::Oscuro)
            } else if v == "false"@ {
                Some(ModoApariencia::Claro)
            } else {
                None
            };
            LecturaNoctalia { efectivo: cambiar_si(nuevo, e.efectivo), ..e }
        } else {
            e
        }
    }
}

pub open spec fn leer_lineas(e: LecturaNoctalia, lineas: Seq<Seq<char>>) -> LecturaNoctalia
    decreases lineas.len(),
{
    if lineas.len() == 0 {
        e
    } else {
        leer_lineas(leer_linea(e, lineas[0]), lineas.drop_first())
    }
}

/// The mode that a Noctalia settings file states: the effective dark-mode
/// flag when there is one, else the preferred theme mode. The file is read
/// line by line between newlines; a carriage return before a newline and an
/// empty last line change nothing, since each line is trimmed and blank
/// lines are skipped.
pub open spec fn modo_archivo_spec(contenido: Seq<char>) -> Option<ModoApariencia> {
    let fin = leer_lineas(LecturaNoctalia { seccion: Seq::empty(), preferencia: None, efectivo: None }, partes(contenido, '\n'));
    match fin.efectivo {
        Some(m) => Some(m),
        None => fin.preferencia,
    }
}

fn preferencia_exec(v: &str) -> (r: Option<ModoApariencia>)
    ensures
        r == preferencia_de(v@),
{
    if iguales(v, "light") || iguales(v, "claro") {
        Some(ModoApariencia::Claro)
    } else if iguales(v, "dark") || iguales(v, "oscuro") {
        Some(ModoApariencia::Oscuro)
    } else if iguales(v, "auto") || iguales(v, "automatic") || iguales(v, "automatico") || iguales(v, "automático") {
        Some(ModoApariencia::Automatico)
    } else {
        None
    }
}

fn bandera_exec(v: &str) -> (r: Option<ModoApariencia>)
    ensures
        r == bandera_de(v@),
{
    if iguales(v, "true") || iguales(v, "1") || iguales(v, "yes") || iguales(v, "on") {
        Some(ModoApariencia::Oscuro)
    } else if iguales(v, "false") || iguales(v, "0") || iguales(v, "no") || iguales(v, "off") {
        Some(ModoApariencia::Claro)
    } else {
        None
    }
}

fn clave_oscuro_exec(seccion: &str, clave: &str) -> (r: bool)
    ensures
        r == clave_oscuro(seccion@, clave@),
{
    let color = iguales(seccion, "colorschemes") || iguales(seccion, "color_schemes") || iguales(seccion, "color-schemes");
    (color && (iguales(clave, "darkmode") || iguales(clave, "dark_mode")))
        || iguales(clave, "colorschemes.darkmode") || iguales(clave, "color_schemes.dark_mode")
        || iguales(clave, "color-schemes.dark-mode")
}

fn cambiar_si_exec(nuevo: Option<ModoApariencia>, actual: Option<ModoApariencia>) -> (r: Option<ModoApariencia>)
    ensures
        r == cambiar_si(nuevo, actual),
{
    match nuevo {
        Some(m) => Some(m),
        None => actual,
    }
}

fn leer_linea_exec(
    seccion: &mut String,
    preferencia: &mut Option<ModoApariencia>,
    efectivo: &mut Option<ModoApariencia>,
    original: &str,
)
    ensures
        lectura(final(seccion)@, *final(preferencia), *final(efectivo))
            == leer_linea(lectura(old(seccion)@, *old(preferencia), *old(efectivo)), original@),
{
    let linea = recortar(hasta_primero_exec(original, '#'));
    if linea.unicode_len() == 0 {
        return;
    }
    if empieza_con_exec(linea, "[") && termina_con_exec(linea, "]") {
        *seccion = a_minusculas(recortar(quitar_final(quitar_inicial(linea, '['), ']')));
        return;
    }
    let clave = match partir_una_vez(linea, '=') {
        Some((k, _)) => a_minusculas(recortar(k)),
        None => String::new(),
    };
    let valor = a_minusculas(match valor_toml_simple(linea) {
        Some(v) => v,
        None => "",
    });
    if (iguales(seccion.as_str(), "theme") && iguales(clave.as_str(), "mode")) || iguales(clave.as_str(), "theme.mode") {
        *preferencia = cambiar_si_exec(preferencia_exec(valor.as_str()), *preferencia);
        return;
    }
    if clave_oscuro_exec(seccion.as_str(), clave.as_str()) {
        *efectivo = cambiar_si_exec(bandera_exec(valor.as_str()), *efectivo);
        return;
    }
    if contiene_exec(linea, "\"darkMode\"") && crate::cadena::posicion(linea, ':').is_some() {
        proof {
            crate::cadena::lema_primera_posicion(linea@, ':');
        }
        match partir_una_vez(linea, ':') {
            Some((_, resto_valor)) => {
                let v = quitar_final(recortar(resto_valor), ',');
                let nuevo = if iguales(v, "true") {
                    Some(ModoApariencia::Oscuro)
                } else if iguales(v, "false") {
                    Some(ModoApariencia::Claro)
                } else {
                    None
                };
                *efectivo = cambiar_si_exec(nuevo, *efectivo);
            },
            None => {},
        }
    }
}

/// Reads the mode stated by the text of a Noctalia settings file.
pub fn modo_noctalia_texto(contenido: &str) -> (r: Option<ModoApariencia>)
    ensures
        r == modo_archivo_spec(contenido@),
{
    let lineas = partir(contenido, '\n');
    let ghost ls = vistas(lineas@);
    let mut seccion = String::new();
    let mut preferencia: Option<ModoApariencia> = None;
    let mut efectivo: Option<ModoApariencia> = None;
    let ghost inicial = LecturaNoctalia { seccion: Seq::empty(), preferencia: None, efectivo: None };
    let mut i: usize = 0;
    assert(ls.subrange(0, 0) =~= Seq::<Seq<char>>::empty());
    assert(ls.subrange(0, ls.len() as int) =~= ls);
    while i < lineas.len()
        invariant
            i <= lineas@.len(),
            ls == vistas(lineas@),
            ls == partes(contenido@, '\n'),
            leer_lineas(inicial, ls) == leer_lineas(
                lectura(seccion@, preferencia, efectivo),
                ls.subrange(i as int, ls.len() as int),
            ),
        decreases lineas.len() - i,
    {
        let ghost estado = LecturaNoctalia { seccion: seccion@, preferencia, efectivo };
        let ghost resto = ls.subrange(i as int, ls.len() as int);
        assert(resto.drop_first() =~= ls.subrange(i + 1, ls.len() as int));
        assert(resto[0] == lineas@[i as int]@);
        let ghost siguiente = leer_linea(estado, lineas@[i as int]@);
        leer_linea_exec(&mut seccion, &mut preferencia, &mut efectivo, lineas[i].as_str());
        assert(LecturaNoctalia { seccion: seccion@, preferencia, efectivo } == siguiente);
        i = i + 1;
    }
    match efectivo {
        Some(m) => Some(m),
        None => preferencia,
    }
}

/// The mode that `noctalia msg theme-mode-get` printed, when it ran well.
pub open spec fn modo_salida_spec(salida: Seq<char>) -> Option<ModoApariencia> {
    let v = minusculas(recortado(salida));
    if v == "light"@ {
        Some(ModoApariencia::Claro)
    } else if v == "dark"@ {
        Some(ModoApariencia::Oscuro)
    } else {
        None
    }
}

pub fn modo_desde_salida(salida: &str) -> (r: Option<ModoApariencia>)
    ensures
        r == modo_salida_spec(salida@),
{
    let v = a_minusculas(recortar(salida));
    if iguales(v.as_str(), "light") {
        Some(ModoApariencia::Claro)
    } else if iguales(v.as_str(), "dark") {
        Some(ModoApariencia::Oscuro)
    } else {
        None
    }
}

/// Noctalia's mode from the files read in order: the first light or dark
/// one wins; otherwise automatic when some file asked for it.
pub open spec fn modo_archivos_spec(modos: Seq<Option<ModoApariencia>>) -> Option<ModoApariencia>
    decreases modos.len(),
{
    if modos.len() == 0 {
        None
    } else {
        match modos[0] {
            Some(ModoApariencia::Claro) => Some(ModoApariencia::Claro),
            Some(ModoApariencia::Oscuro) => Some(ModoApariencia::Oscuro),
            Some(ModoApariencia::Automatico) => match modos_archivos_resto(modos.drop_first()) {
                Some(m) => Some(m),
                None => Some(ModoApariencia::Automatico),
            },
            None => modo_archivos_spec(modos.drop_first()),
        }
    }
}

pub open spec fn modos_archivos_resto(modos: Seq<Option<ModoApariencia>>) -> Option<ModoApariencia>
    decreases modos.len(),
{
    if modos.len() == 0 {
        None
    } else {
        match modos[0] {
            Some(ModoApariencia::Claro) => Some(ModoApariencia::Claro),
            Some(ModoApariencia::Oscuro) => Some(ModoApariencia::Oscuro),
            _ => modos_archivos_resto(modos.drop_first()),
        }
    }
}

/// Noctalia's current mode: what its command said when that is light or
/// dark, else what its settings files say.
pub open spec fn modo_noctalia_spec(salida: Option<Seq<char>>, modos: Seq<Option<ModoApariencia>>) -> Option<ModoApariencia> {
    match salida {
        Some(s) => match modo_salida_spec(s) {
            Some(m) => Some(m),
            None => modo_archivos_spec(modos),
        },
        None => modo_archivos_spec(modos),
    }
}

proof fn lema_modo_archivos(modos: Seq<Option<ModoApariencia>>, automatico: bool, i: int)
    requires
        0 <= i <= modos.len(),
        forall|k: int| 0 <= k < i ==> !(modos[k] == Some(ModoApariencia::Claro) || modos[k] == Some(ModoApariencia::Oscuro)),
        automatico == exists|k: int| 0 <= k < i && modos[k] == Some(ModoApariencia::Automatico),
    ensures
        modo_archivos_spec(modos) == if automatico {
            match modos_archivos_resto(modos.subrange(i, modos.len() as int)) {
                Some(m) => Some(m),
                None => Some(ModoApariencia::Automatico),
            }
        } else {
            modo_archivos_spec(modos.subrange(i, modos.len() as int))
        },
    decreases i,
{
    if i == 0 {
        assert(modos.subrange(0, modos.len() as int) =~= modos);
    } else {
        let rest = modos.drop_first();
        let aut_rest = exists|k: int| 0 <= k < i - 1 && rest[k] == Some(ModoApariencia::Automatico);
        assert forall|k: int| 0 <= k < i - 1 implies !(rest[k] == Some(ModoApariencia::Claro) || rest[k] == Some(ModoApariencia::Oscuro)) by {
            assert(rest[k] == modos[k + 1]);
        }
        lema_modo_archivos(rest, aut_rest, i - 1);
        assert(rest.subrange(i - 1, rest.len() as int) =~= modos.subrange(i, modos.len() as int));
        lema_resto(rest, i - 1);
        if modos[0] == Some(ModoApariencia::Automatico) {
        } else {
            if automatico {
                let k = choose|k: int| 0 <= k < i && modos[k] == Some(ModoApariencia::Automatico);
                assert(rest[k - 1] == modos[k]);
            }
            if aut_rest {
                let k = choose|k: int| 0 <= k < i - 1 && rest[k] == Some(ModoApariencia::Automatico);
                assert(modos[k + 1] == rest[k]);
            }
        }
    }
}

proof fn lema_resto(modos: Seq<Option<ModoApariencia>>, i: int)
    requires
        0 <= i <= modos.len(),
        forall|k: int| 0 <= k < i ==> !(modos[k] == Some(ModoApariencia::Claro) || modos[k] == Some(ModoApariencia::Oscuro)),
    ensures
        modos_archivos_resto(modos) == modos_archivos_resto(modos.subrange(i, modos.len() as int)),
    decreases i,
{
    if i == 0 {
        assert(modos.subrange(0, modos.len() as int) =~= modos);
    } else {
        let rest = modos.drop_first();
        assert forall|k: int| 0 <= k < i - 1 implies !(rest[k] == Some(ModoApariencia::Claro) || rest[k] == Some(ModoApariencia::Oscuro)) by {
            assert(rest[k] == modos[k + 1]);
        }
        lema_resto(rest, i - 1);
        assert(rest.subrange(i - 1, rest.len() as int) =~= modos.subrange(i, modos.len() as int));
    }
}

/// Noctalia's current mode from its command's output (when it succeeded) and
/// the modes read from its settings files, in order.
pub fn modo_noctalia_de(salida: Option<&str>, modos: &[Option<ModoApariencia>]) -> (r: Option<ModoApariencia>)
    ensures
        r == modo_noctalia_spec(crate::motor::vista_opcional(salida), modos@),
{
    match salida {
        Some(s) => match modo_desde_salida(s) {
            Some(m) => return Some(m),
            None => {},
        },
        None => {},
    }
    let mut automatico = false;
    let mut i: usize = 0;
    while i < modos.len()
        invariant
            i <= modos@.len(),
            forall|k: int| 0 <= k < i ==> !(modos@[k] == Some(ModoApariencia::Claro) || modos@[k] == Some(ModoApariencia::Oscuro)),
            automatico == exists|k: int| 0 <= k < i && modos@[k] == Some(ModoApariencia::Automatico),
            modo_noctalia_spec(crate::motor::vista_opcional(salida), modos@) == modo_archivos_spec(modos@),
        decreases modos.len() - i,
    {
        proof {
            lema_modo_archivos(modos@, automatico, i as int);
            lema_resto(modos@, i as int);
        }
        let ghost resto = modos@.subrange(i as int, modos@.len() as int);
        assert(resto[0] == modos@[i as int]);
        match modos[i] {
            Some(ModoApariencia::Claro) => {
                return Some(ModoApariencia::Claro);
            },
            Some(ModoApariencia::Oscuro) => {
                return Some(ModoApariencia::Oscuro);
            },
            Some(ModoApariencia::Automatico) => {
                automatico = true;
            },
            None => {},
        }
        i = i + 1;
    }
    proof {
        lema_modo_archivos(modos@, automatico, i as int);
        assert(modos@.subrange(i as int, modos@.len() as int) =~= Seq::<Option<ModoApariencia>>::empty());
    }
    if automatico {
        Some(ModoApariencia::Automatico)
    } else {
        None
    }
}

/// The desktop's `color-scheme` setting; automatic when there is no setting.
pub open spec fn modo_sistema_spec(preferencia: Option<Seq<char>>) -> ModoApariencia {
    match preferencia {
        None => ModoApariencia::Automatico,
        Some(p) => if p == "prefer-dark"@ {
            ModoApariencia::Oscuro
        } else if p == "prefer-light"@ {
            ModoApariencia::Claro
        } else {
            ModoApariencia::Automatico
        },
    }
}

pub fn modo_sistema(preferencia: Option<&str>) -> (r: ModoApariencia)
    ensures
        r == modo_sistema_spec(crate::motor::vista_opcional(preferencia)),
{
    match preferencia {
        None => ModoApariencia::Automatico,
        Some(p) => if iguales(p, "prefer-dark") {
            ModoApariencia::Oscuro
        } else if iguales(p, "prefer-light") {
            ModoApariencia::Claro
        } else {
            ModoApariencia::Automatico
        },
    }
}

/// The mode the window uses: Noctalia's when it is light or dark, the
/// desktop's otherwise.
pub open spec fn modo_efectivo_spec(noctalia: Option<ModoApariencia>, sistema: ModoApariencia) -> ModoApariencia {
    match noctalia {
        Some(ModoApariencia::Claro) => ModoApariencia::Claro,
        Some(ModoApariencia::Oscuro) => ModoApariencia::Oscuro,
        _ => sistema,
    }
}

pub fn modo_efectivo(noctalia: Option<ModoApariencia>, sistema: ModoApariencia) -> (r: ModoApariencia)
    ensures
        r == modo_efectivo_spec(noctalia, sistema),
{
    match noctalia {
        Some(ModoApariencia::Claro) => ModoApariencia::Claro,
        Some(ModoApariencia::Oscuro) => ModoApariencia::Oscuro,
        _ => sistema,
    }
}

} // verus!
