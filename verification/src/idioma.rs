//! The interface languages and how the `LANG` setting selects one.

use vstd::prelude::*;
use crate::cadena::{a_minusculas, cambiar_caracter, cambiar_caracter_exec, empieza_con, empieza_con_exec, minusculas};

verus! {

#[derive(Clone, Copy, Debug, PartialEq, Eq, Structural)]
pub enum Idioma {
    BelarusLatino,
    Belarus,
    Catalan,
    Checo,
    Aleman,
    Ingles,
    Espanol,
    Frances,
    Gallego,
    Hungaro,
    Italiano,
    Coreano,
    Kurdo,
    Neerlandes,
    NoruegoNynorsk,
    Polaco,
    PortuguesBrasil,
    Ruso,
    Sueco,
    Turco,
    Ucraniano,
    Vietnamita,
    ChinoSimplificado,
}

/// `LANG` in lower case with `-` read as `_`.
pub open spec fn lang_normalizado(lang: Seq<char>) -> Seq<char> {
    cambiar_caracter(minusculas(lang), '-', '_')
}

/// The language that a normalized `LANG` value selects: the first prefix
/// that matches, Spanish when none does.
pub open spec fn idioma_de_lang(v: Seq<char>) -> Idioma {
    if empieza_con(v, "be_latn"@) {
        Idioma::BelarusLatino
    } else if empieza_con(v, "be"@) {
        Idioma::Belarus
    } else if empieza_con(v, "ca"@) {
        Idioma::Catalan
    } else if empieza_con(v, "cs"@) {
        Idioma::Checo
    } else if empieza_con(v, "de"@) {
        Idioma::Aleman
    } else if empieza_con(v, "en"@) {
        Idioma::Ingles
    } else if empieza_con(v, "es"@) {
        Idioma::Espanol
    } else if empieza_con(v, "fr"@) {
        Idioma::Frances
    } else if empieza_con(v, "gl"@) {
        Idioma::Gallego
    } else if empieza_con(v, "hu"@) {
        Idioma::Hungaro
    } else if empieza_con(v, "it"@) {
        Idioma::Italiano
    } else if empieza_con(v, "ko"@) {
        Idioma::Coreano
    } else if empieza_con(v, "ku"@) {
        Idioma::Kurdo
    } else if empieza_con(v, "nl"@) {
        Idioma::Neerlandes
    } else if empieza_con(v, "nn"@) {
        Idioma::NoruegoNynorsk
    } else if empieza_con(v, "pl"@) {
        Idioma::Polaco
    } else if empieza_con(v, "pt_br"@) {
        Idioma::PortuguesBrasil
    } else if empieza_con(v, "ru"@) {
        Idioma::Ruso
    } else if empieza_con(v, "sv"@) {
        Idioma::Sueco
    } else if empieza_con(v, "tr"@) {
        Idioma::Turco
    } else if empieza_con(v, "uk"@) {
        Idioma::Ucraniano
    } else if empieza_con(v, "vi"@) {
        Idioma::Vietnamita
    } else if empieza_con(v, "zh"@) {
        Idioma::ChinoSimplificado
    } else {
        Idioma::Espanol
    }
}

/// The interface language for a `LANG` value (an unset `LANG` is read as the
/// empty text).
pub fn idioma_desde_lang(lang: &str) -> (r: Idioma)
    ensures
        r == idioma_de_lang(lang_normalizado(lang@)),
{
    let minus = a_minusculas(lang);
    let valor = cambiar_caracter_exec(minus.as_str(), '-', '_');
    let v = valor.as_str();
    if empieza_con_exec(v, "be_latn") {
        Idioma::BelarusLatino
    } else if empieza_con_exec(v, "be") {
        Idioma::Belarus
    } else if empieza_con_exec(v, "ca") {
        Idioma::Catalan
    } else if empieza_con_exec(v, "cs") {
        Idioma::Checo
    } else if empieza_con_exec(v, "de") {
        Idioma::Aleman
    } else if empieza_con_exec(v, "en") {
        Idioma::Ingles
    } else if empieza_con_exec(v, "es") {
        Idioma::Espanol
    } else if empieza_con_exec(v, "fr") {
        Idioma::Frances
    } else if empieza_con_exec(v, "gl") {
        Idioma::Gallego
    } else if empieza_con_exec(v, "hu") {
        Idioma::Hungaro
    } else if empieza_con_exec(v, "it") {
        Idioma::Italiano
    } else if empieza_con_exec(v, "ko") {
        Idioma::Coreano
    } else if empieza_con_exec(v, "ku") {
        Idioma::Kurdo
    } else if empieza_con_exec(v, "nl") {
        Idioma::Neerlandes
    } else if empieza_con_exec(v, "nn") {
        Idioma::NoruegoNynorsk
    } else if empieza_con_exec(v, "pl") {
        Idioma::Polaco
    } else if empieza_con_exec(v, "pt_br") {
        Idioma::PortuguesBrasil
    } else if empieza_con_exec(v, "ru") {
        Idioma::Ruso
    } else if empieza_con_exec(v, "sv") {
        Idioma::Sueco
    } else if empieza_con_exec(v, "tr") {
        Idioma::Turco
    } else if empieza_con_exec(v, "uk") {
        Idioma::Ucraniano
    } else if empieza_con_exec(v, "vi") {
        Idioma::Vietnamita
    } else if empieza_con_exec(v, "zh") {
        Idioma::ChinoSimplificado
    } else {
        Idioma::Espanol
    }
}

/// BCP 47 tag of each language, as used to name its catalogue.
pub open spec fn etiqueta_idioma(idioma: Idioma) -> Seq<char> {
    match idioma {
        Idioma::BelarusLatino => "be-Latn"@,
        Idioma::Belarus => "be"@,
        Idioma::Catalan => "ca"@,
        Idioma::Checo => "cs"@,
        Idioma::Aleman => "de"@,
        Idioma::Ingles => "en"@,
        Idioma::Espanol => "es"@,
        Idioma::Frances => "fr"@,
        Idioma::Gallego => "gl-ES"@,
        Idioma::Hungaro => "hu"@,
        Idioma::Italiano => "it"@,
        Idioma::Coreano => "ko"@,
        Idioma::Kurdo => "ku"@,
        Idioma::Neerlandes => "nl"@,
        Idioma::NoruegoNynorsk => "nn"@,
        Idioma::Polaco => "pl"@,
        Idioma::PortuguesBrasil => "pt-BR"@,
        Idioma::Ruso => "ru"@,
        Idioma::Sueco => "sv"@,
        Idioma::Turco => "tr"@,
        Idioma::Ucraniano => "uk-UA"@,
        Idioma::Vietnamita => "vi"@,
        Idioma::ChinoSimplificado => "zh-Hans"@,
    }
}

pub fn idioma_tag(idioma: Idioma) -> (r: &'static str)
    ensures
        r@ == etiqueta_idioma(idioma),
{
    match idioma {
        Idioma::BelarusLatino => "be-Latn",
        Idioma::Belarus => "be",
        Idioma::Catalan => "ca",
        Idioma::Checo => "cs",
        Idioma::Aleman => "de",
        Idioma::Ingles => "en",
        Idioma::Espanol => "es",
        Idioma::Frances => "fr",
        Idioma::Gallego => "gl-ES",
        Idioma::Hungaro => "hu",
        Idioma::Italiano => "it",
        Idioma::Coreano => "ko",
        Idioma::Kurdo => "ku",
        Idioma::Neerlandes => "nl",
        Idioma::NoruegoNynorsk => "nn",
        Idioma::Polaco => "pl",
        Idioma::PortuguesBrasil => "pt-BR",
        Idioma::Ruso => "ru",
        Idioma::Sueco => "sv",
        Idioma::Turco => "tr",
        Idioma::Ucraniano => "uk-UA",
        Idioma::Vietnamita => "vi",
        Idioma::ChinoSimplificado => "zh-Hans",
    }
}


proof fn lema_normalizado_literal(t: Seq<char>, n: Seq<char>)
    requires
        t.len() == n.len(),
        forall|i: int| 0 <= i < t.len() ==> {
            let c = t[i];
            let m = if 'A' <= c && c <= 'Z' { ((c as u32) + 32) as char } else { c };
            (if m == '-' { '_' } else { m }) == #[trigger] n[i]
        },
    ensures
        lang_normalizado(t) == n,
{
    assert(lang_normalizado(t) =~= n);
}

/// The prefixes that `idioma_de_lang` tests, spelled out.
proof fn lema_prefijos()
    ensures
        "be_latn"@ == seq!['b', 'e', '_', 'l', 'a', 't', 'n'],
        "be"@ == seq!['b', 'e'],
        "ca"@ == seq!['c', 'a'],
        "cs"@ == seq!['c', 's'],
        "de"@ == seq!['d', 'e'],
        "en"@ == seq!['e', 'n'],
        "es"@ == seq!['e', 's'],
        "fr"@ == seq!['f', 'r'],
        "gl"@ == seq!['g', 'l'],
        "hu"@ == seq!['h', 'u'],
        "it"@ == seq!['i', 't'],
        "ko"@ == seq!['k', 'o'],
        "ku"@ == seq!['k', 'u'],
        "nl"@ == seq!['n', 'l'],
        "nn"@ == seq!['n', 'n'],
        "pl"@ == seq!['p', 'l'],
        "pt_br"@ == seq!['p', 't', '_', 'b', 'r'],
        "ru"@ == seq!['r', 'u'],
        "sv"@ == seq!['s', 'v'],
        "tr"@ == seq!['t', 'r'],
        "uk"@ == seq!['u', 'k'],
        "vi"@ == seq!['v', 'i'],
        "zh"@ == seq!['z', 'h'],
{
    reveal_strlit("be_latn");
    reveal_strlit("be");
    reveal_strlit("ca");
    reveal_strlit("cs");
    reveal_strlit("de");
    reveal_strlit("en");
    reveal_strlit("es");
    reveal_strlit("fr");
    reveal_strlit("gl");
    reveal_strlit("hu");
    reveal_strlit("it");
    reveal_strlit("ko");
    reveal_strlit("ku");
    reveal_strlit("nl");
    reveal_strlit("nn");
    reveal_strlit("pl");
    reveal_strlit("pt_br");
    reveal_strlit("ru");
    reveal_strlit("sv");
    reveal_strlit("tr");
    reveal_strlit("uk");
    reveal_strlit("vi");
    reveal_strlit("zh");
}

proof fn lema_etiqueta_belaruslatino()
    ensures
        idioma_de_lang(lang_normalizado(etiqueta_idioma(Idioma::BelarusLatino))) == Idioma::BelarusLatino,
{
    reveal_strlit("be-Latn");
    let n = seq!['b', 'e', '_', 'l', 'a', 't', 'n'];
    lema_normalizado_literal("be-Latn"@, n);
    lema_prefijos();
    assert(n.subrange(0, 7) =~= "be_latn"@);
}

proof fn lema_etiqueta_belarus()
    ensures
        idioma_de_lang(lang_normalizado(etiqueta_idioma(Idioma::Belarus))) == Idioma::Belarus,
{
    reveal_strlit("be");
    let n = seq!['b', 'e'];
    lema_normalizado_literal("be"@, n);
    lema_prefijos();
    assert(!empieza_con(n, "be_latn"@));
    assert(n.subrange(0, 2) =~= "be"@);
}

proof fn lema_etiqueta_catalan()
    ensures
        idioma_de_lang(lang_normalizado(etiqueta_idioma(Idioma::Catalan))) == Idioma::Catalan,
{
    reveal_strlit("ca");
    let n = seq!['c', 'a'];
    lema_normalizado_literal("ca"@, n);
    lema_prefijos();
    assert(!empieza_con(n, "be_latn"@));
    assert(n.subrange(0, 2)[0] != "be"@[0]);
    assert(n.subrange(0, 2) =~= "ca"@);
}

proof fn lema_etiqueta_checo()
    ensures
        idioma_de_lang(lang_normalizado(etiqueta_idioma(Idioma::Checo))) == Idioma::Checo,
{
    reveal_strlit("cs");
    let n = seq!['c', 's'];
    lema_normalizado_literal("cs"@, n);
    lema_prefijos();
    assert(!empieza_con(n, "be_latn"@));
    assert(n.subrange(0, 2)[0] != "be"@[0]);
    assert(n.subrange(0, 2)[1] != "ca"@[1]);
    assert(n.subrange(0, 2) =~= "cs"@);
}

proof fn lema_etiqueta_aleman()
    ensures
        idioma_de_lang(lang_normalizado(etiqueta_idioma(Idioma::Aleman))) == Idioma::Aleman,
{
    reveal_strlit("de");
    let n = seq!['d', 'e'];
    lema_normalizado_literal("de"@, n);
    lema_prefijos();
    assert(!empieza_con(n, "be_latn"@));
    assert(n.subrange(0, 2)[0] != "be"@[0]);
    assert(n.subrange(0, 2)[0] != "ca"@[0]);
    assert(n.subrange(0, 2)[0] != "cs"@[0]);
    assert(n.subrange(0, 2) =~= "de"@);
}

proof fn lema_etiqueta_ingles()
    ensures
        idioma_de_lang(lang_normalizado(etiqueta_idioma(Idioma::Ingles))) == Idioma::Ingles,
{
    reveal_strlit("en");
    let n = seq!['e', 'n'];
    lema_normalizado_literal("en"@, n);
    lema_prefijos();
    assert(!empieza_con(n, "be_latn"@));
    assert(n.subrange(0, 2)[0] != "be"@[0]);
    assert(n.subrange(0, 2)[0] != "ca"@[0]);
    assert(n.subrange(0, 2)[0] != "cs"@[0]);
    assert(n.subrange(0, 2)[0] != "de"@[0]);
    assert(n.subrange(0, 2) =~= "en"@);
}

proof fn lema_etiqueta_espanol()
    ensures
        idioma_de_lang(lang_normalizado(etiqueta_idioma(Idioma::Espanol))) == Idioma::Espanol,
{
    reveal_strlit("es");
    let n = seq!['e', 's'];
    lema_normalizado_literal("es"@, n);
    lema_prefijos();
    assert(!empieza_con(n, "be_latn"@));
    assert(n.subrange(0, 2)[0] != "be"@[0]);
    assert(n.subrange(0, 2)[0] != "ca"@[0]);
    assert(n.subrange(0, 2)[0] != "cs"@[0]);
    assert(n.subrange(0, 2)[0] != "de"@[0]);
    assert(n.subrange(0, 2)[1] != "en"@[1]);
    assert(n.subrange(0, 2) =~= "es"@);
}

proof fn lema_etiqueta_frances()
    ensures
        idioma_de_lang(lang_normalizado(etiqueta_idioma(Idioma::Frances))) == Idioma::Frances,
{
    reveal_strlit("fr");
    let n = seq!['f', 'r'];
    lema_normalizado_literal("fr"@, n);
    lema_prefijos();
    assert(!empieza_con(n, "be_latn"@));
    assert(n.subrange(0, 2)[0] != "be"@[0]);
    assert(n.subrange(0, 2)[0] != "ca"@[0]);
    assert(n.subrange(0, 2)[0] != "cs"@[0]);
    assert(n.subrange(0, 2)[0] != "de"@[0]);
    assert(n.subrange(0, 2)[0] != "en"@[0]);
    assert(n.subrange(0, 2)[0] != "es"@[0]);
    assert(n.subrange(0, 2) =~= "fr"@);
}

proof fn lema_etiqueta_gallego()
    ensures
        idioma_de_lang(lang_normalizado(etiqueta_idioma(Idioma::Gallego))) == Idioma::Gallego,
{
    reveal_strlit("gl-ES");
    let n = seq!['g', 'l', '_', 'e', 's'];
    lema_normalizado_literal("gl-ES"@, n);
    lema_prefijos();
    assert(!empieza_con(n, "be_latn"@));
    assert(n.subrange(0, 2)[0] != "be"@[0]);
    assert(n.subrange(0, 2)[0] != "ca"@[0]);
    assert(n.subrange(0, 2)[0] != "cs"@[0]);
    assert(n.subrange(0, 2)[0] != "de"@[0]);
    assert(n.subrange(0, 2)[0] != "en"@[0]);
    assert(n.subrange(0, 2)[0] != "es"@[0]);
    assert(n.subrange(0, 2)[0] != "fr"@[0]);
    assert(n.subrange(0, 2) =~= "gl"@);
}

proof fn lema_etiqueta_hungaro()
    ensures
        idioma_de_lang(lang_normalizado(etiqueta_idioma(Idioma::Hungaro))) == Idioma::Hungaro,
{
    reveal_strlit("hu");
    let n = seq!['h', 'u'];
    lema_normalizado_literal("hu"@, n);
    lema_prefijos();
    assert(!empieza_con(n, "be_latn"@));
    assert(n.subrange(0, 2)[0] != "be"@[0]);
    assert(n.subrange(0, 2)[0] != "ca"@[0]);
    assert(n.subrange(0, 2)[0] != "cs"@[0]);
    assert(n.subrange(0, 2)[0] != "de"@[0]);
    assert(n.subrange(0, 2)[0] != "en"@[0]);
    assert(n.subrange(0, 2)[0] != "es"@[0]);
    assert(n.subrange(0, 2)[0] != "fr"@[0]);
    assert(n.subrange(0, 2)[0] != "gl"@[0]);
    assert(n.subrange(0, 2) =~= "hu"@);
}

proof fn lema_etiqueta_italiano()
    ensures
        idioma_de_lang(lang_normalizado(etiqueta_idioma(Idioma::Italiano))) == Idioma::Italiano,
{
    reveal_strlit("it");
    let n = seq!['i', 't'];
    lema_normalizado_literal("it"@, n);
    lema_prefijos();
    assert(!empieza_con(n, "be_latn"@));
    assert(n.subrange(0, 2)[0] != "be"@[0]);
    assert(n.subrange(0, 2)[0] != "ca"@[0]);
    assert(n.subrange(0, 2)[0] != "cs"@[0]);
    assert(n.subrange(0, 2)[0] != "de"@[0]);
    assert(n.subrange(0, 2)[0] != "en"@[0]);
    assert(n.subrange(0, 2)[0] != "es"@[0]);
    assert(n.subrange(0, 2)[0] != "fr"@[0]);
    assert(n.subrange(0, 2)[0] != "gl"@[0]);
    assert(n.subrange(0, 2)[0] != "hu"@[0]);
    assert(n.subrange(0, 2) =~= "it"@);
}

proof fn lema_etiqueta_coreano()
    ensures
        idioma_de_lang(lang_normalizado(etiqueta_idioma(Idioma::Coreano))) == Idioma::Coreano,
{
    reveal_strlit("ko");
    let n = seq!['k', 'o'];
    lema_normalizado_literal("ko"@, n);
    lema_prefijos();
    assert(!empieza_con(n, "be_latn"@));
    assert(n.subrange(0, 2)[0] != "be"@[0]);
    assert(n.subrange(0, 2)[0] != "ca"@[0]);
    assert(n.subrange(0, 2)[0] != "cs"@[0]);
    assert(n.subrange(0, 2)[0] != "de"@[0]);
    assert(n.subrange(0, 2)[0] != "en"@[0]);
    assert(n.subrange(0, 2)[0] != "es"@[0]);
    assert(n.subrange(0, 2)[0] != "fr"@[0]);
    assert(n.subrange(0, 2)[0] != "gl"@[0]);
    assert(n.subrange(0, 2)[0] != "hu"@[0]);
    assert(n.subrange(0, 2)[0] != "it"@[0]);
    assert(n.subrange(0, 2) =~= "ko"@);
}

proof fn lema_etiqueta_kurdo()
    ensures
        idioma_de_lang(lang_normalizado(etiqueta_idioma(Idioma::Kurdo))) == Idioma::Kurdo,
{
    reveal_strlit("ku");
    let n = seq!['k', 'u'];
    lema_normalizado_literal("ku"@, n);
    lema_prefijos();
    assert(!empieza_con(n, "be_latn"@));
    assert(n.subrange(0, 2)[0] != "be"@[0]);
    assert(n.subrange(0, 2)[0] != "ca"@[0]);
    assert(n.subrange(0, 2)[0] != "cs"@[0]);
    assert(n.subrange(0, 2)[0] != "de"@[0]);
    assert(n.subrange(0, 2)[0] != "en"@[0]);
    assert(n.subrange(0, 2)[0] != "es"@[0]);
    assert(n.subrange(0, 2)[0] != "fr"@[0]);
    assert(n.subrange(0, 2)[0] != "gl"@[0]);
    assert(n.subrange(0, 2)[0] != "hu"@[0]);
    assert(n.subrange(0, 2)[0] != "it"@[0]);
    assert(n.subrange(0, 2)[1] != "ko"@[1]);
    assert(n.subrange(0, 2) =~= "ku"@);
}

proof fn lema_etiqueta_neerlandes()
    ensures
        idioma_de_lang(lang_normalizado(etiqueta_idioma(Idioma::Neerlandes))) == Idioma::Neerlandes,
{
    reveal_strlit("nl");
    let n = seq!['n', 'l'];
    lema_normalizado_literal("nl"@, n);
    lema_prefijos();
    assert(!empieza_con(n, "be_latn"@));
    assert(n.subrange(0, 2)[0] != "be"@[0]);
    assert(n.subrange(0, 2)[0] != "ca"@[0]);
    assert(n.subrange(0, 2)[0] != "cs"@[0]);
    assert(n.subrange(0, 2)[0] != "de"@[0]);
    assert(n.subrange(0, 2)[0] != "en"@[0]);
    assert(n.subrange(0, 2)[0] != "es"@[0]);
    assert(n.subrange(0, 2)[0] != "fr"@[0]);
    assert(n.subrange(0, 2)[0] != "gl"@[0]);
    assert(n.subrange(0, 2)[0] != "hu"@[0]);
    assert(n.subrange(0, 2)[0] != "it"@[0]);
    assert(n.subrange(0, 2)[0] != "ko"@[0]);
    assert(n.subrange(0, 2)[0] != "ku"@[0]);
    assert(n.subrange(0, 2) =~= "nl"@);
}

proof fn lema_etiqueta_noruegonynorsk()
    ensures
        idioma_de_lang(lang_normalizado(etiqueta_idioma(Idioma::NoruegoNynorsk))) == Idioma::NoruegoNynorsk,
{
    reveal_strlit("nn");
    let n = seq!['n', 'n'];
    lema_normalizado_literal("nn"@, n);
    lema_prefijos();
    assert(!empieza_con(n, "be_latn"@));
    assert(n.subrange(0, 2)[0] != "be"@[0]);
    assert(n.subrange(0, 2)[0] != "ca"@[0]);
    assert(n.subrange(0, 2)[0] != "cs"@[0]);
    assert(n.subrange(0, 2)[0] != "de"@[0]);
    assert(n.subrange(0, 2)[0] != "en"@[0]);
    assert(n.subrange(0, 2)[0] != "es"@[0]);
    assert(n.subrange(0, 2)[0] != "fr"@[0]);
    assert(n.subrange(0, 2)[0] != "gl"@[0]);
    assert(n.subrange(0, 2)[0] != "hu"@[0]);
    assert(n.subrange(0, 2)[0] != "it"@[0]);
    assert(n.subrange(0, 2)[0] != "ko"@[0]);
    assert(n.subrange(0, 2)[0] != "ku"@[0]);
    assert(n.subrange(0, 2)[1] != "nl"@[1]);
    assert(n.subrange(0, 2) =~= "nn"@);
}

proof fn lema_etiqueta_polaco()
    ensures
        idioma_de_lang(lang_normalizado(etiqueta_idioma(Idioma::Polaco))) == Idioma::Polaco,
{
    reveal_strlit("pl");
    let n = seq!['p', 'l'];
    lema_normalizado_literal("pl"@, n);
    lema_prefijos();
    assert(!empieza_con(n, "be_latn"@));
    assert(n.subrange(0, 2)[0] != "be"@[0]);
    assert(n.subrange(0, 2)[0] != "ca"@[0]);
    assert(n.subrange(0, 2)[0] != "cs"@[0]);
    assert(n.subrange(0, 2)[0] != "de"@[0]);
    assert(n.subrange(0, 2)[0] != "en"@[0]);
    assert(n.subrange(0, 2)[0] != "es"@[0]);
    assert(n.subrange(0, 2)[0] != "fr"@[0]);
    assert(n.subrange(0, 2)[0] != "gl"@[0]);
    assert(n.subrange(0, 2)[0] != "hu"@[0]);
    assert(n.subrange(0, 2)[0] != "it"@[0]);
    assert(n.subrange(0, 2)[0] != "ko"@[0]);
    assert(n.subrange(0, 2)[0] != "ku"@[0]);
    assert(n.subrange(0, 2)[0] != "nl"@[0]);
    assert(n.subrange(0, 2)[0] != "nn"@[0]);
    assert(n.subrange(0, 2) =~= "pl"@);
}

proof fn lema_etiqueta_portuguesbrasil()
    ensures
        idioma_de_lang(lang_normalizado(etiqueta_idioma(Idioma::PortuguesBrasil))) == Idioma::PortuguesBrasil,
{
    reveal_strlit("pt-BR");
    let n = seq!['p', 't', '_', 'b', 'r'];
    lema_normalizado_literal("pt-BR"@, n);
    lema_prefijos();
    assert(!empieza_con(n, "be_latn"@));
    assert(n.subrange(0, 2)[0] != "be"@[0]);
    assert(n.subrange(0, 2)[0] != "ca"@[0]);
    assert(n.subrange(0, 2)[0] != "cs"@[0]);
    assert(n.subrange(0, 2)[0] != "de"@[0]);
    assert(n.subrange(0, 2)[0] != "en"@[0]);
    assert(n.subrange(0, 2)[0] != "es"@[0]);
    assert(n.subrange(0, 2)[0] != "fr"@[0]);
    assert(n.subrange(0, 2)[0] != "gl"@[0]);
    assert(n.subrange(0, 2)[0] != "hu"@[0]);
    assert(n.subrange(0, 2)[0] != "it"@[0]);
    assert(n.subrange(0, 2)[0] != "ko"@[0]);
    assert(n.subrange(0, 2)[0] != "ku"@[0]);
    assert(n.subrange(0, 2)[0] != "nl"@[0]);
    assert(n.subrange(0, 2)[0] != "nn"@[0]);
    assert(n.subrange(0, 2)[1] != "pl"@[1]);
    assert(n.subrange(0, 5) =~= "pt_br"@);
}

proof fn lema_etiqueta_ruso()
    ensures
        idioma_de_lang(lang_normalizado(etiqueta_idioma(Idioma::Ruso))) == Idioma::Ruso,
{
    reveal_strlit("ru");
    let n = seq!['r', 'u'];
    lema_normalizado_literal("ru"@, n);
    lema_prefijos();
    assert(!empieza_con(n, "be_latn"@));
    assert(n.subrange(0, 2)[0] != "be"@[0]);
    assert(n.subrange(0, 2)[0] != "ca"@[0]);
    assert(n.subrange(0, 2)[0] != "cs"@[0]);
    assert(n.subrange(0, 2)[0] != "de"@[0]);
    assert(n.subrange(0, 2)[0] != "en"@[0]);
    assert(n.subrange(0, 2)[0] != "es"@[0]);
    assert(n.subrange(0, 2)[0] != "fr"@[0]);
    assert(n.subrange(0, 2)[0] != "gl"@[0]);
    assert(n.subrange(0, 2)[0] != "hu"@[0]);
    assert(n.subrange(0, 2)[0] != "it"@[0]);
    assert(n.subrange(0, 2)[0] != "ko"@[0]);
    assert(n.subrange(0, 2)[0] != "ku"@[0]);
    assert(n.subrange(0, 2)[0] != "nl"@[0]);
    assert(n.subrange(0, 2)[0] != "nn"@[0]);
    assert(n.subrange(0, 2)[0] != "pl"@[0]);
    assert(!empieza_con(n, "pt_br"@));
    assert(n.subrange(0, 2) =~= "ru"@);
}

proof fn lema_etiqueta_sueco()
    ensures
        idioma_de_lang(lang_normalizado(etiqueta_idioma(Idioma::Sueco))) == Idioma::Sueco,
{
    reveal_strlit("sv");
    let n = seq!['s', 'v'];
    lema_normalizado_literal("sv"@, n);
    lema_prefijos();
    assert(!empieza_con(n, "be_latn"@));
    assert(n.subrange(0, 2)[0] != "be"@[0]);
    assert(n.subrange(0, 2)[0] != "ca"@[0]);
    assert(n.subrange(0, 2)[0] != "cs"@[0]);
    assert(n.subrange(0, 2)[0] != "de"@[0]);
    assert(n.subrange(0, 2)[0] != "en"@[0]);
    assert(n.subrange(0, 2)[0] != "es"@[0]);
    assert(n.subrange(0, 2)[0] != "fr"@[0]);
    assert(n.subrange(0, 2)[0] != "gl"@[0]);
    assert(n.subrange(0, 2)[0] != "hu"@[0]);
    assert(n.subrange(0, 2)[0] != "it"@[0]);
    assert(n.subrange(0, 2)[0] != "ko"@[0]);
    assert(n.subrange(0, 2)[0] != "ku"@[0]);
    assert(n.subrange(0, 2)[0] != "nl"@[0]);
    assert(n.subrange(0, 2)[0] != "nn"@[0]);
    assert(n.subrange(0, 2)[0] != "pl"@[0]);
    assert(!empieza_con(n, "pt_br"@));
    assert(n.subrange(0, 2)[0] != "ru"@[0]);
    assert(n.subrange(0, 2) =~= "sv"@);
}

proof fn lema_etiqueta_turco()
    ensures
        idioma_de_lang(lang_normalizado(etiqueta_idioma(Idioma::Turco))) == Idioma::Turco,
{
    reveal_strlit("tr");
    let n = seq!['t', 'r'];
    lema_normalizado_literal("tr"@, n);
    lema_prefijos();
    assert(!empieza_con(n, "be_latn"@));
    assert(n.subrange(0, 2)[0] != "be"@[0]);
    assert(n.subrange(0, 2)[0] != "ca"@[0]);
    assert(n.subrange(0, 2)[0] != "cs"@[0]);
    assert(n.subrange(0, 2)[0] != "de"@[0]);
    assert(n.subrange(0, 2)[0] != "en"@[0]);
    assert(n.subrange(0, 2)[0] != "es"@[0]);
    assert(n.subrange(0, 2)[0] != "fr"@[0]);
    assert(n.subrange(0, 2)[0] != "gl"@[0]);
    assert(n.subrange(0, 2)[0] != "hu"@[0]);
    assert(n.subrange(0, 2)[0] != "it"@[0]);
    assert(n.subrange(0, 2)[0] != "ko"@[0]);
    assert(n.subrange(0, 2)[0] != "ku"@[0]);
    assert(n.subrange(0, 2)[0] != "nl"@[0]);
    assert(n.subrange(0, 2)[0] != "nn"@[0]);
    assert(n.subrange(0, 2)[0] != "pl"@[0]);
    assert(!empieza_con(n, "pt_br"@));
    assert(n.subrange(0, 2)[0] != "ru"@[0]);
    assert(n.subrange(0, 2)[0] != "sv"@[0]);
    assert(n.subrange(0, 2) =~= "tr"@);
}

proof fn lema_etiqueta_ucraniano()
    ensures
        idioma_de_lang(lang_normalizado(etiqueta_idioma(Idioma::Ucraniano))) == Idioma::Ucraniano,
{
    reveal_strlit("uk-UA");
    let n = seq!['u', 'k', '_', 'u', 'a'];
    lema_normalizado_literal("uk-UA"@, n);
    lema_prefijos();
    assert(!empieza_con(n, "be_latn"@));
    assert(n.subrange(0, 2)[0] != "be"@[0]);
    assert(n.subrange(0, 2)[0] != "ca"@[0]);
    assert(n.subrange(0, 2)[0] != "cs"@[0]);
    assert(n.subrange(0, 2)[0] != "de"@[0]);
    assert(n.subrange(0, 2)[0] != "en"@[0]);
    assert(n.subrange(0, 2)[0] != "es"@[0]);
    assert(n.subrange(0, 2)[0] != "fr"@[0]);
    assert(n.subrange(0, 2)[0] != "gl"@[0]);
    assert(n.subrange(0, 2)[0] != "hu"@[0]);
    assert(n.subrange(0, 2)[0] != "it"@[0]);
    assert(n.subrange(0, 2)[0] != "ko"@[0]);
    assert(n.subrange(0, 2)[0] != "ku"@[0]);
    assert(n.subrange(0, 2)[0] != "nl"@[0]);
    assert(n.subrange(0, 2)[0] != "nn"@[0]);
    assert(n.subrange(0, 2)[0] != "pl"@[0]);
    assert(n.subrange(0, 5)[0] != "pt_br"@[0]);
    assert(n.subrange(0, 2)[0] != "ru"@[0]);
    assert(n.subrange(0, 2)[0] != "sv"@[0]);
    assert(n.subrange(0, 2)[0] != "tr"@[0]);
    assert(n.subrange(0, 2) =~= "uk"@);
}

proof fn lema_etiqueta_vietnamita()
    ensures
        idioma_de_lang(lang_normalizado(etiqueta_idioma(Idioma::Vietnamita))) == Idioma::Vietnamita,
{
    reveal_strlit("vi");
    let n = seq!['v', 'i'];
    lema_normalizado_literal("vi"@, n);
    lema_prefijos();
    assert(!empieza_con(n, "be_latn"@));
    assert(n.subrange(0, 2)[0] != "be"@[0]);
    assert(n.subrange(0, 2)[0] != "ca"@[0]);
    assert(n.subrange(0, 2)[0] != "cs"@[0]);
    assert(n.subrange(0, 2)[0] != "de"@[0]);
    assert(n.subrange(0, 2)[0] != "en"@[0]);
    assert(n.subrange(0, 2)[0] != "es"@[0]);
    assert(n.subrange(0, 2)[0] != "fr"@[0]);
    assert(n.subrange(0, 2)[0] != "gl"@[0]);
    assert(n.subrange(0, 2)[0] != "hu"@[0]);
    assert(n.subrange(0, 2)[0] != "it"@[0]);
    assert(n.subrange(0, 2)[0] != "ko"@[0]);
    assert(n.subrange(0, 2)[0] != "ku"@[0]);
    assert(n.subrange(0, 2)[0] != "nl"@[0]);
    assert(n.subrange(0, 2)[0] != "nn"@[0]);
    assert(n.subrange(0, 2)[0] != "pl"@[0]);
    assert(!empieza_con(n, "pt_br"@));
    assert(n.subrange(0, 2)[0] != "ru"@[0]);
    assert(n.subrange(0, 2)[0] != "sv"@[0]);
    assert(n.subrange(0, 2)[0] != "tr"@[0]);
    assert(n.subrange(0, 2)[0] != "uk"@[0]);
    assert(n.subrange(0, 2) =~= "vi"@);
}

proof fn lema_etiqueta_chinosimplificado()
    ensures
        idioma_de_lang(lang_normalizado(etiqueta_idioma(Idioma::ChinoSimplificado))) == Idioma::ChinoSimplificado,
{
    reveal_strlit("zh-Hans");
    let n = seq!['z', 'h', '_', 'h', 'a', 'n', 's'];
    lema_normalizado_literal("zh-Hans"@, n);
    lema_prefijos();
    assert(n.subrange(0, 7)[0] != "be_latn"@[0]);
    assert(n.subrange(0, 2)[0] != "be"@[0]);
    assert(n.subrange(0, 2)[0] != "ca"@[0]);
    assert(n.subrange(0, 2)[0] != "cs"@[0]);
    assert(n.subrange(0, 2)[0] != "de"@[0]);
    assert(n.subrange(0, 2)[0] != "en"@[0]);
    assert(n.subrange(0, 2)[0] != "es"@[0]);
    assert(n.subrange(0, 2)[0] != "fr"@[0]);
    assert(n.subrange(0, 2)[0] != "gl"@[0]);
    assert(n.subrange(0, 2)[0] != "hu"@[0]);
    assert(n.subrange(0, 2)[0] != "it"@[0]);
    assert(n.subrange(0, 2)[0] != "ko"@[0]);
    assert(n.subrange(0, 2)[0] != "ku"@[0]);
    assert(n.subrange(0, 2)[0] != "nl"@[0]);
    assert(n.subrange(0, 2)[0] != "nn"@[0]);
    assert(n.subrange(0, 2)[0] != "pl"@[0]);
    assert(n.subrange(0, 5)[0] != "pt_br"@[0]);
    assert(n.subrange(0, 2)[0] != "ru"@[0]);
    assert(n.subrange(0, 2)[0] != "sv"@[0]);
    assert(n.subrange(0, 2)[0] != "tr"@[0]);
    assert(n.subrange(0, 2)[0] != "uk"@[0]);
    assert(n.subrange(0, 2)[0] != "vi"@[0]);
    assert(n.subrange(0, 2) =~= "zh"@);
}

/// Each language's own tag, given as `LANG`, selects that language.
pub proof fn ley_etiqueta_selecciona_su_idioma(idioma: Idioma)
    ensures
        idioma_de_lang(lang_normalizado(etiqueta_idioma(idioma))) == idioma,
{
    match idioma {
        Idioma::BelarusLatino => lema_etiqueta_belaruslatino(),
        Idioma::Belarus => lema_etiqueta_belarus(),
        Idioma::Catalan => lema_etiqueta_catalan(),
        Idioma::Checo => lema_etiqueta_checo(),
        Idioma::Aleman => lema_etiqueta_aleman(),
        Idioma::Ingles => lema_etiqueta_ingles(),
        Idioma::Espanol => lema_etiqueta_espanol(),
        Idioma::Frances => lema_etiqueta_frances(),
        Idioma::Gallego => lema_etiqueta_gallego(),
        Idioma::Hungaro => lema_etiqueta_hungaro(),
        Idioma::Italiano => lema_etiqueta_italiano(),
        Idioma::Coreano => lema_etiqueta_coreano(),
        Idioma::Kurdo => lema_etiqueta_kurdo(),
        Idioma::Neerlandes => lema_etiqueta_neerlandes(),
        Idioma::NoruegoNynorsk => lema_etiqueta_noruegonynorsk(),
        Idioma::Polaco => lema_etiqueta_polaco(),
        Idioma::PortuguesBrasil => lema_etiqueta_portuguesbrasil(),
        Idioma::Ruso => lema_etiqueta_ruso(),
        Idioma::Sueco => lema_etiqueta_sueco(),
        Idioma::Turco => lema_etiqueta_turco(),
        Idioma::Ucraniano => lema_etiqueta_ucraniano(),
        Idioma::Vietnamita => lema_etiqueta_vietnamita(),
        Idioma::ChinoSimplificado => lema_etiqueta_chinosimplificado(),
    }
}

} // verus!
