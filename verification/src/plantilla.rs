//! The visible-text catalogue of each language: exact translations, and
//! templates whose `{name}` placeholders carry the variable parts of a text.

use vstd::prelude::*;
use crate::json::{Campo, Json, json_de, leer_respuesta};
use crate::cadena::{
    aparece_en, aparece_en_exec, buscar_primera, copiar, empieza_con, posicion, primera_aparicion,
    primera_posicion, reemplazar, reemplazo, lema_primera_posicion,
};

verus! {

/// A template's fixed parts must match the text; each placeholder takes the
/// text up to the next fixed part (all the rest when none follows). The
/// result is the list of placeholders with what they took, or `None` when
/// the text does not follow the template.
pub open spec fn capturas(o: Seq<char>, t: Seq<char>) -> Option<Seq<(Seq<char>, Seq<char>)>>
    decreases o.len(),
{
    match primera_posicion(o, '{') {
        None => if t == o {
            Some(Seq::empty())
        } else {
            None
        },
        Some(i) => if 0 <= i < o.len() {
            match primera_posicion(o.subrange(i, o.len() as int), '}') {
                None => None,
                Some(j) => if 0 <= j && i + j < o.len() {
                    let fin = i + j;
                    let fijo = o.subrange(0, i);
                    if !empieza_con(t, fijo) {
                        None
                    } else {
                        let t2 = t.subrange(i, t.len() as int);
                        let token = o.subrange(i, fin + 1);
                        let o2 = o.subrange(fin + 1, o.len() as int);
                        let sig = match primera_posicion(o2, '{') {
                            Some(k) => k,
                            None => o2.len() as int,
                        };
                        let sig_fijo = o2.subrange(0, sig);
                        let largo = if sig_fijo.len() == 0 {
                            Some(t2.len() as int)
                        } else {
                            primera_aparicion(t2, sig_fijo)
                        };
                        match largo {
                            None => None,
                            Some(v) => if 0 <= v <= t2.len() {
                                match capturas(o2, t2.subrange(v, t2.len() as int)) {
                                    Some(resto) => Some(seq![(token, t2.subrange(0, v))] + resto),
                                    None => None,
                                }
                            } else {
                                None
                            },
                        }
                    }
                } else {
                    None
                },
            }
        } else {
            None
        },
    }
}

/// Each placeholder of the translation replaced, in order, by what it took.
pub open spec fn sustituir(d: Seq<char>, caps: Seq<(Seq<char>, Seq<char>)>) -> Seq<char>
    decreases caps.len(),
{
    if caps.len() == 0 {
        d
    } else {
        sustituir(reemplazo(d, caps[0].0, caps[0].1), caps.drop_first())
    }
}

/// The translation of a text through a template: only templates with a
/// placeholder apply.
pub open spec fn plantilla_spec(origen: Seq<char>, destino: Seq<char>, texto: Seq<char>) -> Option<Seq<char>> {
    if primera_posicion(origen, '{') is None {
        None
    } else {
        match capturas(origen, texto) {
            Some(caps) => Some(sustituir(destino, caps)),
            None => None,
        }
    }
}

pub open spec fn vista_texto_opcional(r: Option<String>) -> Option<Seq<char>> {
    match r {
        Some(s) => Some(s@),
        None => None,
    }
}

pub open spec fn anteponer(caps: Seq<(Seq<char>, Seq<char>)>, r: Option<Seq<(Seq<char>, Seq<char>)>>) -> Option<Seq<(Seq<char>, Seq<char>)>> {
    match r {
        Some(resto) => Some(caps + resto),
        None => None,
    }
}

pub open spec fn tokens_validos(caps: Seq<(Seq<char>, Seq<char>)>) -> bool {
    forall|k: int| 0 <= k < caps.len() ==> (#[trigger] caps[k]).0.len() > 0
}

proof fn lema_capturas_tokens(o: Seq<char>, t: Seq<char>)
    ensures
        capturas(o, t) matches Some(c) ==> tokens_validos(c),
    decreases o.len(),
{
    match primera_posicion(o, '{') {
        None => {},
        Some(i) => {
            if 0 <= i < o.len() {
                match primera_posicion(o.subrange(i, o.len() as int), '}') {
                    None => {},
                    Some(j) => {
                        if 0 <= j && i + j < o.len() {
                            let fin = i + j;
                            let t2 = t.subrange(i, t.len() as int);
                            let o2 = o.subrange(fin + 1, o.len() as int);
                            let sig = match primera_posicion(o2, '{') {
                                Some(k) => k,
                                None => o2.len() as int,
                            };
                            let sig_fijo = o2.subrange(0, sig);
                            let largo = if sig_fijo.len() == 0 {
                                Some(t2.len() as int)
                            } else {
                                primera_aparicion(t2, sig_fijo)
                            };
                            match largo {
                                Some(v) => {
                                    if 0 <= v <= t2.len() {
                                        lema_capturas_tokens(o2, t2.subrange(v, t2.len() as int));
                                        match capturas(o, t) {
                                            Some(c) => {
                                                assert forall|k: int| 0 <= k < c.len() implies (#[trigger] c[k]).0.len() > 0 by {
                                                    if k > 0 {
                                                        let resto = capturas(o2, t2.subrange(v, t2.len() as int))->0;
                                                        assert(c[k] == resto[k - 1]);
                                                    }
                                                }
                                            },
                                            None => {},
                                        }
                                    }
                                },
                                None => {},
                            }
                        }
                    },
                }
            }
        },
    }
}

pub fn aplicar_plantilla_visible(origen: &str, destino: &str, texto: &str) -> (r: Option<String>)
    ensures
        vista_texto_opcional(r) == plantilla_spec(origen@, destino@, texto@),
{
    let no = origen.unicode_len();
    let nt = texto.unicode_len();
    if posicion(origen, '{').is_none() {
        return None;
    }
    let mut caps: Vec<(String, String)> = Vec::new();
    let mut op: usize = 0;
    let mut tp: usize = 0;
    let ghost vcaps = Seq::<(Seq<char>, Seq<char>)>::empty();
    assert(origen@.subrange(0, no as int) =~= origen@);
    assert(texto@.subrange(0, nt as int) =~= texto@);
    assert(anteponer(Seq::empty(), capturas(origen@, texto@)) =~= capturas(origen@, texto@)) by {
        match capturas(origen@, texto@) {
            Some(c) => {
                assert(Seq::<(Seq<char>, Seq<char>)>::empty() + c =~= c);
            },
            None => {},
        }
    }
    loop
        invariant
            no == origen@.len(),
            nt == texto@.len(),
            op <= no,
            tp <= nt,
            vcaps == caps@.map_values(|c: (String, String)| (c.0@, c.1@)),
            tokens_validos(vcaps),
            capturas(origen@, texto@) == anteponer(vcaps, capturas(origen@.subrange(op as int, no as int), texto@.subrange(tp as int, nt as int))),
        ensures
            capturas(origen@.subrange(op as int, no as int), texto@.subrange(tp as int, nt as int)) == Some(Seq::<(Seq<char>, Seq<char>)>::empty()),
        decreases no - op,
    {
        let o = origen.substring_char(op, no);
        let t = texto.substring_char(tp, nt);
        proof {
            lema_primera_posicion(o@, '{');
        }
        let i = match posicion(o, '{') {
            Some(i) => i,
            None => {
                // The last fixed part must be all that is left of the text.
                let igual = crate::cadena::iguales(t, o);
                if !igual {
                    return None;
                }
                assert(capturas(o@, t@) == Some(Seq::<(Seq<char>, Seq<char>)>::empty()));
                break;
            },
        };
        let ghost resto_o = o@.subrange(i as int, o@.len() as int);
        let cola = o.substring_char(i, o.unicode_len());
        proof {
            lema_primera_posicion(cola@, '}');
        }
        let j = match posicion(cola, '}') {
            Some(j) => j,
            None => return None,
        };
        let fin = i + j;
        let fijo = o.substring_char(0, i);
        if !aparece_en_exec(t, fijo, 0) {
            return None;
        }
        let t2 = t.substring_char(i, t.unicode_len());
        let token = o.substring_char(i, fin + 1);
        let o2 = o.substring_char(fin + 1, o.unicode_len());
        proof {
            lema_primera_posicion(o2@, '{');
        }
        let sig: usize = match posicion(o2, '{') {
            Some(k) => k,
            None => o2.unicode_len(),
        };
        let sig_fijo = o2.substring_char(0, sig);
        let largo: usize = if sig_fijo.unicode_len() == 0 {
            t2.unicode_len()
        } else {
            proof {
                crate::cadena::lema_primera_aparicion(t2@, sig_fijo@);
            }
            match buscar_primera(t2, sig_fijo) {
                Some(v) => v,
                None => return None,
            }
        };
        proof {
            crate::cadena::lema_primera_aparicion(t2@, sig_fijo@);
        }
        let valor = t2.substring_char(0, largo);
        let ghost antes = vcaps;
        caps.push((copiar(token), copiar(valor)));
        proof {
            vcaps = vcaps.push((token@, valor@));
            assert(vcaps =~= caps@.map_values(|c: (String, String)| (c.0@, c.1@)));
            assert(origen@.subrange(op + fin + 1, no as int) =~= o2@);
            assert(texto@.subrange(tp + i + largo, nt as int) =~= t2@.subrange(largo as int, t2@.len() as int));
            match capturas(o2@, t2@.subrange(largo as int, t2@.len() as int)) {
                Some(c) => {
                    assert(antes + (seq![(token@, valor@)] + c) =~= vcaps + c);
                },
                None => {},
            }
            assert forall|k: int| 0 <= k < vcaps.len() implies (#[trigger] vcaps[k]).0.len() > 0 by {
                if k < antes.len() {
                    assert(vcaps[k] == antes[k]);
                }
            }
        }
        op = op + fin + 1;
        tp = tp + i + largo;
    }
    proof {
        assert(capturas(origen@, texto@) == Some(vcaps)) by {
            let o = origen@.subrange(op as int, no as int);
            assert(capturas(o, texto@.subrange(tp as int, nt as int)) == Some(Seq::<(Seq<char>, Seq<char>)>::empty()));
            assert(vcaps + Seq::<(Seq<char>, Seq<char>)>::empty() =~= vcaps);
        }
    }
    let mut resultado = copiar(destino);
    let mut k: usize = 0;
    assert(vcaps.subrange(0, 0) =~= Seq::<(Seq<char>, Seq<char>)>::empty());
    assert(vcaps.subrange(0, vcaps.len() as int) =~= vcaps);
    while k < caps.len()
        invariant
            k <= caps@.len(),
            vcaps == caps@.map_values(|c: (String, String)| (c.0@, c.1@)),
            tokens_validos(vcaps),
            sustituir(destino@, vcaps) == sustituir(resultado@, vcaps.subrange(k as int, vcaps.len() as int)),
        decreases caps.len() - k,
    {
        let ghost resto = vcaps.subrange(k as int, vcaps.len() as int);
        assert(resto.drop_first() =~= vcaps.subrange(k + 1, vcaps.len() as int));
        assert(resto[0] == vcaps[k as int]);
        assert(vcaps[k as int].0.len() > 0);
        resultado = reemplazar(resultado.as_str(), caps[k].0.as_str(), caps[k].1.as_str());
        k = k + 1;
    }
    assert(vcaps.subrange(vcaps.len() as int, vcaps.len() as int) =~= Seq::<(Seq<char>, Seq<char>)>::empty());
    Some(resultado)
}

pub open spec fn vista_catalogo(c: Seq<(String, String)>) -> Seq<(Seq<char>, Seq<char>)> {
    c.map_values(|e: (String, String)| (e.0@, e.1@))
}

/// The translation stored for exactly this text.
pub open spec fn traduccion_exacta(cat: Seq<(Seq<char>, Seq<char>)>, t: Seq<char>) -> Option<Seq<char>>
    decreases cat.len(),
{
    if cat.len() == 0 {
        None
    } else if cat[0].0 == t {
        Some(cat[0].1)
    } else {
        traduccion_exacta(cat.drop_first(), t)
    }
}

/// The translation given by the first template, in catalogue order, that
/// the text follows.
pub open spec fn traduccion_plantilla(cat: Seq<(Seq<char>, Seq<char>)>, t: Seq<char>) -> Option<Seq<char>>
    decreases cat.len(),
{
    if cat.len() == 0 {
        None
    } else {
        match plantilla_spec(cat[0].0, cat[0].1, t) {
            Some(r) => Some(r),
            None => traduccion_plantilla(cat.drop_first(), t),
        }
    }
}

/// A visible text in the interface language: its exact translation, else
/// the first template that fits, else the text itself.
pub open spec fn localizar_spec(cat: Seq<(Seq<char>, Seq<char>)>, t: Seq<char>) -> Seq<char> {
    match traduccion_exacta(cat, t) {
        Some(d) => d,
        None => match traduccion_plantilla(cat, t) {
            Some(r) => r,
            None => t,
        },
    }
}

/// The catalogue is the language's list of (source text, translation) pairs
/// in the order they are walked.
pub fn localizar_visible(catalogo: &[(String, String)], texto: &str) -> (r: String)
    ensures
        r@ == localizar_spec(vista_catalogo(catalogo@), texto@),
{
    let ghost cat = vista_catalogo(catalogo@);
    let mut i: usize = 0;
    assert(cat.subrange(0, cat.len() as int) =~= cat);
    while i < catalogo.len()
        invariant
            i <= catalogo@.len(),
            cat == vista_catalogo(catalogo@),
            traduccion_exacta(cat, texto@) == traduccion_exacta(cat.subrange(i as int, cat.len() as int), texto@),
        decreases catalogo.len() - i,
    {
        let ghost resto = cat.subrange(i as int, cat.len() as int);
        assert(resto.drop_first() =~= cat.subrange(i + 1, cat.len() as int));
        assert(resto[0] == (catalogo@[i as int].0@, catalogo@[i as int].1@));
        if crate::cadena::iguales(catalogo[i].0.as_str(), texto) {
            return copiar(catalogo[i].1.as_str());
        }
        i = i + 1;
    }
    let mut k: usize = 0;
    while k < catalogo.len()
        invariant
            k <= catalogo@.len(),
            cat == vista_catalogo(catalogo@),
            traduccion_exacta(cat, texto@) is None,
            traduccion_plantilla(cat, texto@) == traduccion_plantilla(cat.subrange(k as int, cat.len() as int), texto@),
        decreases catalogo.len() - k,
    {
        let ghost resto = cat.subrange(k as int, cat.len() as int);
        assert(resto.drop_first() =~= cat.subrange(k + 1, cat.len() as int));
        assert(resto[0] == (catalogo@[k as int].0@, catalogo@[k as int].1@));
        match aplicar_plantilla_visible(catalogo[k].0.as_str(), catalogo[k].1.as_str(), texto) {
            Some(r) => return r,
            None => {},
        }
        k = k + 1;
    }
    copiar(texto)
}

/// The value given for a named argument (the placeholder itself when there
/// is none).
pub open spec fn valor_argumento(args: Seq<(Seq<char>, Seq<char>)>, nombre: Seq<char>) -> Seq<char>
    decreases args.len(),
{
    if args.len() == 0 {
        seq!['{'] + nombre + seq!['}']
    } else if args[0].0 == nombre {
        args[0].1
    } else {
        valor_argumento(args.drop_first(), nombre)
    }
}

/// What `format!` writes for a format string whose placeholders are all
/// `{name}`: each placeholder replaced by its argument.
pub open spec fn formato(p: Seq<char>, args: Seq<(Seq<char>, Seq<char>)>) -> Seq<char>
    decreases p.len(),
{
    match primera_posicion(p, '{') {
        None => p,
        Some(i) => if 0 <= i < p.len() {
            match primera_posicion(p.subrange(i, p.len() as int), '}') {
                None => p,
                Some(j) => if 0 < j && i + j < p.len() {
                    p.subrange(0, i) + valor_argumento(args, p.subrange(i + 1, i + j)) + formato(
                        p.subrange(i + j + 1, p.len() as int),
                        args,
                    )
                } else {
                    p
                },
            }
        } else {
            p
        },
    }
}

pub open spec fn vista_argumentos(args: Seq<(&str, &str)>) -> Seq<(Seq<char>, Seq<char>)> {
    args.map_values(|a: (&str, &str)| (a.0@, a.1@))
}

fn valor_argumento_exec<'a>(args: &[(&str, &'a str)], nombre: &str) -> (r: Option<&'a str>)
    ensures
        match r {
            Some(v) => valor_argumento(vista_argumentos(args@), nombre@) == v@,
            None => valor_argumento(vista_argumentos(args@), nombre@) == seq!['{'] + nombre@ + seq!['}'],
        },
{
    let ghost va = vista_argumentos(args@);
    let mut i: usize = 0;
    assert(va.subrange(0, va.len() as int) =~= va);
    while i < args.len()
        invariant
            i <= args@.len(),
            va == vista_argumentos(args@),
            valor_argumento(va, nombre@) == valor_argumento(va.subrange(i as int, va.len() as int), nombre@),
        decreases args.len() - i,
    {
        let ghost resto = va.subrange(i as int, va.len() as int);
        assert(resto.drop_first() =~= va.subrange(i + 1, va.len() as int));
        assert(resto[0] == (args@[i as int].0@, args@[i as int].1@));
        if crate::cadena::iguales(args[i].0, nombre) {
            return Some(args[i].1);
        }
        i = i + 1;
    }
    None
}

/// `format!` with named `{name}` placeholders.
pub fn formatear(p: &str, args: &[(&str, &str)]) -> (r: String)
    ensures
        r@ == formato(p@, vista_argumentos(args@)),
{
    let ghost va = vista_argumentos(args@);
    let n = p.unicode_len();
    let mut r = String::new();
    let mut k: usize = 0;
    assert(p@.subrange(0, n as int) =~= p@);
    loop
        invariant
            n == p@.len(),
            k <= n,
            va == vista_argumentos(args@),
            formato(p@, va) == r@ + formato(p@.subrange(k as int, n as int), va),
        decreases n - k,
    {
        let resto = p.substring_char(k, n);
        proof {
            lema_primera_posicion(resto@, '{');
        }
        let i = match posicion(resto, '{') {
            Some(i) => i,
            None => {
                r.append(resto);
                return r;
            },
        };
        let cola = resto.substring_char(i, resto.unicode_len());
        proof {
            lema_primera_posicion(cola@, '}');
        }
        let j = match posicion(cola, '}') {
            Some(j) => j,
            None => {
                r.append(resto);
                return r;
            },
        };
        if j == 0 {
            r.append(resto);
            return r;
        }
        let nombre = resto.substring_char(i + 1, i + j);
        let ghost antes = r@;
        r.append(resto.substring_char(0, i));
        match valor_argumento_exec(args, nombre) {
            Some(v) => r.append(v),
            None => {
                r.push('{');
                r.append(nombre);
                r.push('}');
            },
        }
        assert(p@.subrange(k + i + j + 1, n as int) =~= resto@.subrange(i + j + 1, resto@.len() as int));
        let ghost sig = formato(resto@.subrange(i + j + 1, resto@.len() as int), va);
        assert(antes + (resto@.subrange(0, i as int) + valor_argumento(va, nombre@) + sig) =~= r@ + sig);
        k = k + i + j + 1;
    }
}

/// `format!` with one named argument.
pub fn formatear1(p: &str, nombre: &str, valor: &str) -> (r: String)
    ensures
        r@ == formato(p@, seq![(nombre@, valor@)]),
{
    let mut args: Vec<(&str, &str)> = Vec::new();
    args.push((nombre, valor));
    assert(vista_argumentos(args@) =~= seq![(nombre@, valor@)]);
    formatear(p, args.as_slice())
}

/// `format!` with two named arguments.
pub fn formatear2(p: &str, n1: &str, v1: &str, n2: &str, v2: &str) -> (r: String)
    ensures
        r@ == formato(p@, seq![(n1@, v1@), (n2@, v2@)]),
{
    let mut args: Vec<(&str, &str)> = Vec::new();
    args.push((n1, v1));
    args.push((n2, v2));
    assert(vista_argumentos(args@) =~= seq![(n1@, v1@), (n2@, v2@)]);
    formatear(p, args.as_slice())
}

proof fn lema_exacta(cat: Seq<(Seq<char>, Seq<char>)>, t: Seq<char>, i: int)
    requires
        0 <= i < cat.len(),
        cat[i].0 == t,
        forall|j: int| 0 <= j < i ==> (#[trigger] cat[j]).0 != t,
    ensures
        traduccion_exacta(cat, t) == Some(cat[i].1),
    decreases i,
{
    if i > 0 {
        assert forall|j: int| 0 <= j < i - 1 implies (#[trigger] cat.drop_first()[j]).0 != t by {
            assert(cat.drop_first()[j] == cat[j + 1]);
        }
        lema_exacta(cat.drop_first(), t, i - 1);
    }
}

/// A text that the catalogue lists is shown as its first entry says, even
/// when a template earlier in the catalogue would also fit it.
pub proof fn ley_traduccion_exacta_gana(cat: Seq<(Seq<char>, Seq<char>)>, t: Seq<char>, i: int)
    requires
        0 <= i < cat.len(),
        cat[i].0 == t,
        forall|j: int| 0 <= j < i ==> (#[trigger] cat[j]).0 != t,
    ensures
        localizar_spec(cat, t) == cat[i].1,
{
    lema_exacta(cat, t, i);
}

proof fn lema_sin_plantilla(cat: Seq<(Seq<char>, Seq<char>)>, t: Seq<char>)
    requires
        forall|i: int| 0 <= i < cat.len() ==> plantilla_spec(#[trigger] cat[i].0, cat[i].1, t) is None,
    ensures
        traduccion_plantilla(cat, t) is None,
    decreases cat.len(),
{
    if cat.len() > 0 {
        assert(plantilla_spec(cat[0].0, cat[0].1, t) is None);
        assert forall|i: int| 0 <= i < cat.len() - 1 implies plantilla_spec(#[trigger] cat.drop_first()[i].0, cat.drop_first()[i].1, t) is None by {
            assert(cat.drop_first()[i] == cat[i + 1]);
        }
        lema_sin_plantilla(cat.drop_first(), t);
    }
}

proof fn lema_sin_exacta(cat: Seq<(Seq<char>, Seq<char>)>, t: Seq<char>)
    requires
        forall|i: int| 0 <= i < cat.len() ==> (#[trigger] cat[i]).0 != t,
    ensures
        traduccion_exacta(cat, t) is None,
    decreases cat.len(),
{
    if cat.len() > 0 {
        assert(cat[0].0 != t);
        assert forall|i: int| 0 <= i < cat.len() - 1 implies (#[trigger] cat.drop_first()[i]).0 != t by {
            assert(cat.drop_first()[i] == cat[i + 1]);
        }
        lema_sin_exacta(cat.drop_first(), t);
    }
}

/// A text that the catalogue does not list and that no template fits is
/// shown as it is.
pub proof fn ley_texto_sin_traduccion_se_conserva(cat: Seq<(Seq<char>, Seq<char>)>, t: Seq<char>)
    requires
        forall|i: int| 0 <= i < cat.len() ==> (#[trigger] cat[i]).0 != t,
        forall|i: int| 0 <= i < cat.len() ==> plantilla_spec(#[trigger] cat[i].0, cat[i].1, t) is None,
    ensures
        localizar_spec(cat, t) == t,
{
    lema_sin_exacta(cat, t);
    lema_sin_plantilla(cat, t);
}

/// The (source text, translation) pairs of an object whose members are all
/// texts, in order; `None` as soon as a member is not a text.
pub open spec fn pares_de_textos(campos: Seq<Campo>) -> Option<Seq<(Seq<char>, Seq<char>)>>
    decreases campos.len(),
{
    if campos.len() == 0 {
        Some(Seq::empty())
    } else {
        match (pares_de_textos(campos.drop_last()), campos.last().valor) {
            (Some(p), Json::Texto(t)) => Some(p.push((campos.last().clave@, t@))),
            _ => None,
        }
    }
}

/// A language's catalogue as its file gives it: a JSON object of texts; an
/// empty catalogue when the file is not JSON, not an object, or holds a member
/// that is not a text.
pub open spec fn catalogo_spec(leido: Option<Json>) -> Seq<(Seq<char>, Seq<char>)> {
    match leido {
        Some(Json::Objeto(campos)) => match pares_de_textos(campos@) {
            Some(p) => p,
            None => Seq::empty(),
        },
        _ => Seq::empty(),
    }
}

/// Reads a language's catalogue from the text of its file.
pub fn catalogo_de_texto(texto: &str) -> (r: Vec<(String, String)>)
    ensures
        vista_catalogo(r@) == catalogo_spec(json_de(texto@)),
{
    let leido = leer_respuesta(texto);
    let campos = match &leido {
        Some(Json::Objeto(c)) => c,
        _ => return Vec::new(),
    };
    let mut r: Vec<(String, String)> = Vec::new();
    let mut i: usize = 0;
    while i < campos.len()
        invariant
            i <= campos@.len(),
            leido == json_de(texto@),
            leido == Some(Json::Objeto(*campos)),
            pares_de_textos(campos@.subrange(0, i as int)) == Some(vista_catalogo(r@)),
        decreases campos.len() - i,
    {
        let ghost pre = campos@.subrange(0, i as int);
        let ghost sig = campos@.subrange(0, i + 1);
        assert(sig.drop_last() =~= pre);
        assert(sig.last() == campos@[i as int]);
        match &campos[i].valor {
            Json::Texto(t) => {
                let ghost antes = vista_catalogo(r@);
                r.push((copiar(campos[i].clave.as_str()), copiar(t.as_str())));
                assert(vista_catalogo(r@) =~= antes.push((campos@[i as int].clave@, t@)));
            },
            _ => {
                proof {
                    lema_pares_sin_texto(campos@, i as int);
                }
                return Vec::new();
            },
        }
        i = i + 1;
    }
    assert(campos@.subrange(0, campos@.len() as int) =~= campos@);
    r
}

/// Once a member that is not a text is met, the object gives no pairs.
proof fn lema_pares_sin_texto(campos: Seq<Campo>, i: int)
    requires
        0 <= i < campos.len(),
        !(campos[i].valor is Texto),
    ensures
        pares_de_textos(campos) is None,
    decreases campos.len(),
{
    if i < campos.len() - 1 {
        lema_pares_sin_texto(campos.drop_last(), i);
    }
}

} // verus!
