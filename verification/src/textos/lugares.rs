//! The names of languages, regions, time zones, keyboards and accounts, in every language.

use vstd::prelude::*;
use crate::idioma::Idioma;

verus! {

/// The name of the language `es`.
pub open spec fn idioma_es_spec(idioma: Idioma) -> Seq<char> {
    match idioma {
        Idioma::BelarusLatino => "ispanski"@,
        Idioma::Belarus => "Іспанская"@,
        Idioma::Catalan => "espanyol"@,
        Idioma::Checo => "Španělština"@,
        Idioma::Aleman => "Spanisch"@,
        Idioma::Ingles => "Spanish"@,
        Idioma::Espanol => "Español"@,
        Idioma::Frances => "espagnol"@,
        Idioma::Gallego => "castelán"@,
        Idioma::Hungaro => "Spanyol"@,
        Idioma::Italiano => "Spagnolo"@,
        Idioma::Coreano => "스페인어"@,
        Idioma::Kurdo => "Spanî"@,
        Idioma::Neerlandes => "Spaans"@,
        Idioma::NoruegoNynorsk => "Spansk"@,
        Idioma::Polaco => "Hiszpański"@,
        Idioma::PortuguesBrasil => "Espanhol"@,
        Idioma::Ruso => "Испанский"@,
        Idioma::Sueco => "Spanska"@,
        Idioma::Turco => "İspanyolca"@,
        Idioma::Ucraniano => "Іспанська"@,
        Idioma::Vietnamita => "Tây Ban Nha"@,
        Idioma::ChinoSimplificado => "西班牙语"@,
    }
}

pub fn idioma_es(idioma: Idioma) -> (r: &'static str)
    ensures
        r@ == idioma_es_spec(idioma),
{
    match idioma {
        Idioma::BelarusLatino => "ispanski",
        Idioma::Belarus => "Іспанская",
        Idioma::Catalan => "espanyol",
        Idioma::Checo => "Španělština",
        Idioma::Aleman => "Spanisch",
        Idioma::Ingles => "Spanish",
        Idioma::Espanol => "Español",
        Idioma::Frances => "espagnol",
        Idioma::Gallego => "castelán",
        Idioma::Hungaro => "Spanyol",
        Idioma::Italiano => "Spagnolo",
        Idioma::Coreano => "스페인어",
        Idioma::Kurdo => "Spanî",
        Idioma::Neerlandes => "Spaans",
        Idioma::NoruegoNynorsk => "Spansk",
        Idioma::Polaco => "Hiszpański",
        Idioma::PortuguesBrasil => "Espanhol",
        Idioma::Ruso => "Испанский",
        Idioma::Sueco => "Spanska",
        Idioma::Turco => "İspanyolca",
        Idioma::Ucraniano => "Іспанська",
        Idioma::Vietnamita => "Tây Ban Nha",
        Idioma::ChinoSimplificado => "西班牙语",
    }
}

/// The name of the language `en`.
pub open spec fn idioma_en_spec(idioma: Idioma) -> Seq<char> {
    match idioma {
        Idioma::BelarusLatino => "anhłijskaja"@,
        Idioma::Belarus => "англійская"@,
        Idioma::Catalan => "Anglès"@,
        Idioma::Checo => "anglicky"@,
        Idioma::Aleman => "Englisch"@,
        Idioma::Ingles => "English"@,
        Idioma::Espanol => "Inglés"@,
        Idioma::Frances => "Anglais"@,
        Idioma::Gallego => "inglés"@,
        Idioma::Hungaro => "Angol"@,
        Idioma::Italiano => "Inglese"@,
        Idioma::Coreano => "영어"@,
        Idioma::Kurdo => "Îngilîzî"@,
        Idioma::Neerlandes => "Engels"@,
        Idioma::NoruegoNynorsk => "Engelsk"@,
        Idioma::Polaco => "Angielski"@,
        Idioma::PortuguesBrasil => "Inglês"@,
        Idioma::Ruso => "английский"@,
        Idioma::Sueco => "Engelska"@,
        Idioma::Turco => "İngilizce"@,
        Idioma::Ucraniano => "англійська"@,
        Idioma::Vietnamita => "Tiếng Anh"@,
        Idioma::ChinoSimplificado => "英语"@,
    }
}

pub fn idioma_en(idioma: Idioma) -> (r: &'static str)
    ensures
        r@ == idioma_en_spec(idioma),
{
    match idioma {
        Idioma::BelarusLatino => "anhłijskaja",
        Idioma::Belarus => "англійская",
        Idioma::Catalan => "Anglès",
        Idioma::Checo => "anglicky",
        Idioma::Aleman => "Englisch",
        Idioma::Ingles => "English",
        Idioma::Espanol => "Inglés",
        Idioma::Frances => "Anglais",
        Idioma::Gallego => "inglés",
        Idioma::Hungaro => "Angol",
        Idioma::Italiano => "Inglese",
        Idioma::Coreano => "영어",
        Idioma::Kurdo => "Îngilîzî",
        Idioma::Neerlandes => "Engels",
        Idioma::NoruegoNynorsk => "Engelsk",
        Idioma::Polaco => "Angielski",
        Idioma::PortuguesBrasil => "Inglês",
        Idioma::Ruso => "английский",
        Idioma::Sueco => "Engelska",
        Idioma::Turco => "İngilizce",
        Idioma::Ucraniano => "англійська",
        Idioma::Vietnamita => "Tiếng Anh",
        Idioma::ChinoSimplificado => "英语",
    }
}

/// The name of the language `hu`.
pub open spec fn idioma_hu_spec(idioma: Idioma) -> Seq<char> {
    match idioma {
        Idioma::BelarusLatino => "vjenhjerski"@,
        Idioma::Belarus => "Венгерская"@,
        Idioma::Catalan => "hongarès"@,
        Idioma::Checo => "maďarština"@,
        Idioma::Aleman => "Ungarisch"@,
        Idioma::Ingles => "Hungarian"@,
        Idioma::Espanol | Idioma::PortuguesBrasil => "Húngaro"@,
        Idioma::Frances => "hongrois"@,
        Idioma::Gallego => "húngaro"@,
        Idioma::Hungaro => "Magyar"@,
        Idioma::Italiano => "Ungherese"@,
        Idioma::Coreano => "헝가리어"@,
        Idioma::Kurdo => "Macarî"@,
        Idioma::Neerlandes => "Hongaars"@,
        Idioma::NoruegoNynorsk => "Ungarsk"@,
        Idioma::Polaco => "węgierski"@,
        Idioma::Ruso => "Венгерский"@,
        Idioma::Sueco => "Ungerska"@,
        Idioma::Turco => "Macarca"@,
        Idioma::Ucraniano => "Угорська"@,
        Idioma::Vietnamita => "Hungary"@,
        Idioma::ChinoSimplificado => "匈牙利语"@,
    }
}

pub fn idioma_hu(idioma: Idioma) -> (r: &'static str)
    ensures
        r@ == idioma_hu_spec(idioma),
{
    match idioma {
        Idioma::BelarusLatino => "vjenhjerski",
        Idioma::Belarus => "Венгерская",
        Idioma::Catalan => "hongarès",
        Idioma::Checo => "maďarština",
        Idioma::Aleman => "Ungarisch",
        Idioma::Ingles => "Hungarian",
        Idioma::Espanol | Idioma::PortuguesBrasil => "Húngaro",
        Idioma::Frances => "hongrois",
        Idioma::Gallego => "húngaro",
        Idioma::Hungaro => "Magyar",
        Idioma::Italiano => "Ungherese",
        Idioma::Coreano => "헝가리어",
        Idioma::Kurdo => "Macarî",
        Idioma::Neerlandes => "Hongaars",
        Idioma::NoruegoNynorsk => "Ungarsk",
        Idioma::Polaco => "węgierski",
        Idioma::Ruso => "Венгерский",
        Idioma::Sueco => "Ungerska",
        Idioma::Turco => "Macarca",
        Idioma::Ucraniano => "Угорська",
        Idioma::Vietnamita => "Hungary",
        Idioma::ChinoSimplificado => "匈牙利语",
    }
}

/// The name of the region `PE`.
pub open spec fn region_pe_spec(idioma: Idioma) -> Seq<char> {
    match idioma {
        Idioma::BelarusLatino => "Pjeru"@,
        Idioma::Belarus | Idioma::Ruso | Idioma::Ucraniano => "Перу"@,
        Idioma::Catalan | Idioma::Espanol | Idioma::Gallego => "Perú"@,
        Idioma::Checo | Idioma::Aleman | Idioma::Ingles | Idioma::Hungaro | Idioma::Neerlandes | Idioma::NoruegoNynorsk | Idioma::Polaco | Idioma::PortuguesBrasil | Idioma::Sueco | Idioma::Turco | Idioma::Vietnamita => "Peru"@,
        Idioma::Frances => "Pérou"@,
        Idioma::Italiano => "Perù"@,
        Idioma::Coreano => "페루"@,
        Idioma::Kurdo => "Perû"@,
        Idioma::ChinoSimplificado => "秘鲁"@,
    }
}

pub fn region_pe(idioma: Idioma) -> (r: &'static str)
    ensures
        r@ == region_pe_spec(idioma),
{
    match idioma {
        Idioma::BelarusLatino => "Pjeru",
        Idioma::Belarus | Idioma::Ruso | Idioma::Ucraniano => "Перу",
        Idioma::Catalan | Idioma::Espanol | Idioma::Gallego => "Perú",
        Idioma::Checo | Idioma::Aleman | Idioma::Ingles | Idioma::Hungaro | Idioma::Neerlandes | Idioma::NoruegoNynorsk | Idioma::Polaco | Idioma::PortuguesBrasil | Idioma::Sueco | Idioma::Turco | Idioma::Vietnamita => "Peru",
        Idioma::Frances => "Pérou",
        Idioma::Italiano => "Perù",
        Idioma::Coreano => "페루",
        Idioma::Kurdo => "Perû",
        Idioma::ChinoSimplificado => "秘鲁",
    }
}

/// The name of the region `ES`.
pub open spec fn region_es_spec(idioma: Idioma) -> Seq<char> {
    match idioma {
        Idioma::BelarusLatino => "Ispanija"@,
        Idioma::Belarus | Idioma::Ucraniano => "Іспанія"@,
        Idioma::Catalan => "Espanya"@,
        Idioma::Checo => "Španělsko"@,
        Idioma::Aleman | Idioma::Sueco => "Spanien"@,
        Idioma::Ingles => "Spain"@,
        Idioma::Espanol | Idioma::Gallego => "España"@,
        Idioma::Frances => "Espagne"@,
        Idioma::Hungaro => "Spanyolország"@,
        Idioma::Italiano => "Spagna"@,
        Idioma::Coreano => "스페인"@,
        Idioma::Kurdo => "Spanya"@,
        Idioma::Neerlandes => "Spanje"@,
        Idioma::NoruegoNynorsk => "Spania"@,
        Idioma::Polaco => "Hiszpania"@,
        Idioma::PortuguesBrasil => "Espanha"@,
        Idioma::Ruso => "Испания"@,
        Idioma::Turco => "İspanya"@,
        Idioma::Vietnamita => "Tây Ban Nha"@,
        Idioma::ChinoSimplificado => "西班牙"@,
    }
}

pub fn region_es(idioma: Idioma) -> (r: &'static str)
    ensures
        r@ == region_es_spec(idioma),
{
    match idioma {
        Idioma::BelarusLatino => "Ispanija",
        Idioma::Belarus | Idioma::Ucraniano => "Іспанія",
        Idioma::Catalan => "Espanya",
        Idioma::Checo => "Španělsko",
        Idioma::Aleman | Idioma::Sueco => "Spanien",
        Idioma::Ingles => "Spain",
        Idioma::Espanol | Idioma::Gallego => "España",
        Idioma::Frances => "Espagne",
        Idioma::Hungaro => "Spanyolország",
        Idioma::Italiano => "Spagna",
        Idioma::Coreano => "스페인",
        Idioma::Kurdo => "Spanya",
        Idioma::Neerlandes => "Spanje",
        Idioma::NoruegoNynorsk => "Spania",
        Idioma::Polaco => "Hiszpania",
        Idioma::PortuguesBrasil => "Espanha",
        Idioma::Ruso => "Испания",
        Idioma::Turco => "İspanya",
        Idioma::Vietnamita => "Tây Ban Nha",
        Idioma::ChinoSimplificado => "西班牙",
    }
}

/// The name of the region `US`.
pub open spec fn region_us_spec(idioma: Idioma) -> Seq<char> {
    match idioma {
        Idioma::BelarusLatino => "ZŠA"@,
        Idioma::Belarus => "Злучаныя Штаты"@,
        Idioma::Catalan => "Estats Units"@,
        Idioma::Checo => "Spojené státy americké"@,
        Idioma::Aleman => "Vereinigte Staaten"@,
        Idioma::Ingles => "United States"@,
        Idioma::Espanol | Idioma::Gallego | Idioma::PortuguesBrasil => "Estados Unidos"@,
        Idioma::Frances => "États-Unis"@,
        Idioma::Hungaro => "Egyesült Államok"@,
        Idioma::Italiano => "Stati Uniti"@,
        Idioma::Coreano => "미국"@,
        Idioma::Kurdo => "Dewletên Yekbûyî"@,
        Idioma::Neerlandes => "Verenigde Staten"@,
        Idioma::NoruegoNynorsk | Idioma::Sueco => "USA"@,
        Idioma::Polaco => "Stany Zjednoczone"@,
        Idioma::Ruso | Idioma::Ucraniano => "США"@,
        Idioma::Turco => "Amerika Birleşik Devletleri"@,
        Idioma::Vietnamita => "Hoa Kỳ"@,
        Idioma::ChinoSimplificado => "美国"@,
    }
}

pub fn region_us(idioma: Idioma) -> (r: &'static str)
    ensures
        r@ == region_us_spec(idioma),
{
    match idioma {
        Idioma::BelarusLatino => "ZŠA",
        Idioma::Belarus => "Злучаныя Штаты",
        Idioma::Catalan => "Estats Units",
        Idioma::Checo => "Spojené státy americké",
        Idioma::Aleman => "Vereinigte Staaten",
        Idioma::Ingles => "United States",
        Idioma::Espanol | Idioma::Gallego | Idioma::PortuguesBrasil => "Estados Unidos",
        Idioma::Frances => "États-Unis",
        Idioma::Hungaro => "Egyesült Államok",
        Idioma::Italiano => "Stati Uniti",
        Idioma::Coreano => "미국",
        Idioma::Kurdo => "Dewletên Yekbûyî",
        Idioma::Neerlandes => "Verenigde Staten",
        Idioma::NoruegoNynorsk | Idioma::Sueco => "USA",
        Idioma::Polaco => "Stany Zjednoczone",
        Idioma::Ruso | Idioma::Ucraniano => "США",
        Idioma::Turco => "Amerika Birleşik Devletleri",
        Idioma::Vietnamita => "Hoa Kỳ",
        Idioma::ChinoSimplificado => "美国",
    }
}

/// The name of the region `HU`.
pub open spec fn region_hu_spec(idioma: Idioma) -> Seq<char> {
    match idioma {
        Idioma::BelarusLatino => "Vjenhryja"@,
        Idioma::Belarus => "Венгрыя"@,
        Idioma::Catalan => "Hongria"@,
        Idioma::Checo => "Maďarsko"@,
        Idioma::Aleman | Idioma::NoruegoNynorsk => "Ungarn"@,
        Idioma::Ingles | Idioma::Vietnamita => "Hungary"@,
        Idioma::Espanol | Idioma::Gallego => "Hungría"@,
        Idioma::Frances => "Hongrie"@,
        Idioma::Hungaro => "Magyarország"@,
        Idioma::Italiano => "Ungheria"@,
        Idioma::Coreano => "헝가리"@,
        Idioma::Kurdo => "Macarîstan"@,
        Idioma::Neerlandes => "Hongarije"@,
        Idioma::Polaco => "Węgry"@,
        Idioma::PortuguesBrasil => "Hungria"@,
        Idioma::Ruso => "Венгрия"@,
        Idioma::Sueco => "Ungern"@,
        Idioma::Turco => "Macaristan"@,
        Idioma::Ucraniano => "Угорщина"@,
        Idioma::ChinoSimplificado => "匈牙利"@,
    }
}

pub fn region_hu(idioma: Idioma) -> (r: &'static str)
    ensures
        r@ == region_hu_spec(idioma),
{
    match idioma {
        Idioma::BelarusLatino => "Vjenhryja",
        Idioma::Belarus => "Венгрыя",
        Idioma::Catalan => "Hongria",
        Idioma::Checo => "Maďarsko",
        Idioma::Aleman | Idioma::NoruegoNynorsk => "Ungarn",
        Idioma::Ingles | Idioma::Vietnamita => "Hungary",
        Idioma::Espanol | Idioma::Gallego => "Hungría",
        Idioma::Frances => "Hongrie",
        Idioma::Hungaro => "Magyarország",
        Idioma::Italiano => "Ungheria",
        Idioma::Coreano => "헝가리",
        Idioma::Kurdo => "Macarîstan",
        Idioma::Neerlandes => "Hongarije",
        Idioma::Polaco => "Węgry",
        Idioma::PortuguesBrasil => "Hungria",
        Idioma::Ruso => "Венгрия",
        Idioma::Sueco => "Ungern",
        Idioma::Turco => "Macaristan",
        Idioma::Ucraniano => "Угорщина",
        Idioma::ChinoSimplificado => "匈牙利",
    }
}

/// The name of the time zone `America/Lima`.
pub open spec fn zona_lima_spec(idioma: Idioma) -> Seq<char> {
    match idioma {
        Idioma::BelarusLatino => "Łima, Pjeru"@,
        Idioma::Belarus | Idioma::Ucraniano => "Ліма, Перу"@,
        Idioma::Catalan | Idioma::Espanol | Idioma::Gallego => "Lima, Perú"@,
        Idioma::Checo | Idioma::Aleman | Idioma::Ingles | Idioma::Hungaro | Idioma::Neerlandes | Idioma::NoruegoNynorsk | Idioma::Polaco | Idioma::PortuguesBrasil | Idioma::Sueco | Idioma::Turco | Idioma::Vietnamita => "Lima, Peru"@,
        Idioma::Frances => "Lima, Pérou"@,
        Idioma::Italiano => "Lima, Perù"@,
        Idioma::Coreano => "페루 리마"@,
        Idioma::Kurdo => "Lima, Perû"@,
        Idioma::Ruso => "Лима, Перу"@,
        Idioma::ChinoSimplificado => "秘鲁利马"@,
    }
}

pub fn zona_lima(idioma: Idioma) -> (r: &'static str)
    ensures
        r@ == zona_lima_spec(idioma),
{
    match idioma {
        Idioma::BelarusLatino => "Łima, Pjeru",
        Idioma::Belarus | Idioma::Ucraniano => "Ліма, Перу",
        Idioma::Catalan | Idioma::Espanol | Idioma::Gallego => "Lima, Perú",
        Idioma::Checo | Idioma::Aleman | Idioma::Ingles | Idioma::Hungaro | Idioma::Neerlandes | Idioma::NoruegoNynorsk | Idioma::Polaco | Idioma::PortuguesBrasil | Idioma::Sueco | Idioma::Turco | Idioma::Vietnamita => "Lima, Peru",
        Idioma::Frances => "Lima, Pérou",
        Idioma::Italiano => "Lima, Perù",
        Idioma::Coreano => "페루 리마",
        Idioma::Kurdo => "Lima, Perû",
        Idioma::Ruso => "Лима, Перу",
        Idioma::ChinoSimplificado => "秘鲁利马",
    }
}

/// The name of the time zone `Europe/Madrid`.
pub open spec fn zona_madrid_spec(idioma: Idioma) -> Seq<char> {
    match idioma {
        Idioma::BelarusLatino => "Madryd, Ispanija"@,
        Idioma::Belarus => "Мадрыд, Іспанія"@,
        Idioma::Catalan => "Madrid, Espanya"@,
        Idioma::Checo => "Madrid, Španělsko"@,
        Idioma::Aleman | Idioma::Sueco => "Madrid, Spanien"@,
        Idioma::Ingles => "Madrid, Spain"@,
        Idioma::Espanol | Idioma::Gallego => "Madrid, España"@,
        Idioma::Frances => "Madrid, Espagne"@,
        Idioma::Hungaro => "Madrid, Spanyolország"@,
        Idioma::Italiano => "Madrid, Spagna"@,
        Idioma::Coreano => "마드리드, 스페인"@,
        Idioma::Kurdo => "Madrid, Spanya"@,
        Idioma::Neerlandes => "Madrid, Spanje"@,
        Idioma::NoruegoNynorsk => "Madrid, Spania"@,
        Idioma::Polaco => "Madryt, Hiszpania"@,
        Idioma::PortuguesBrasil => "Madri, Espanha"@,
        Idioma::Ruso => "Мадрид, Испания"@,
        Idioma::Turco => "Madrid, İspanya"@,
        Idioma::Ucraniano => "Мадрид, Іспанія"@,
        Idioma::Vietnamita => "Madrid, Tây Ban Nha"@,
        Idioma::ChinoSimplificado => "西班牙马德里"@,
    }
}

pub fn zona_madrid(idioma: Idioma) -> (r: &'static str)
    ensures
        r@ == zona_madrid_spec(idioma),
{
    match idioma {
        Idioma::BelarusLatino => "Madryd, Ispanija",
        Idioma::Belarus => "Мадрыд, Іспанія",
        Idioma::Catalan => "Madrid, Espanya",
        Idioma::Checo => "Madrid, Španělsko",
        Idioma::Aleman | Idioma::Sueco => "Madrid, Spanien",
        Idioma::Ingles => "Madrid, Spain",
        Idioma::Espanol | Idioma::Gallego => "Madrid, España",
        Idioma::Frances => "Madrid, Espagne",
        Idioma::Hungaro => "Madrid, Spanyolország",
        Idioma::Italiano => "Madrid, Spagna",
        Idioma::Coreano => "마드리드, 스페인",
        Idioma::Kurdo => "Madrid, Spanya",
        Idioma::Neerlandes => "Madrid, Spanje",
        Idioma::NoruegoNynorsk => "Madrid, Spania",
        Idioma::Polaco => "Madryt, Hiszpania",
        Idioma::PortuguesBrasil => "Madri, Espanha",
        Idioma::Ruso => "Мадрид, Испания",
        Idioma::Turco => "Madrid, İspanya",
        Idioma::Ucraniano => "Мадрид, Іспанія",
        Idioma::Vietnamita => "Madrid, Tây Ban Nha",
        Idioma::ChinoSimplificado => "西班牙马德里",
    }
}

/// The name of the time zone `Europe/Budapest`.
pub open spec fn zona_budapest_spec(idioma: Idioma) -> Seq<char> {
    match idioma {
        Idioma::BelarusLatino => "Budapješt, Vjenhryja"@,
        Idioma::Belarus => "Будапешт, Венгрыя"@,
        Idioma::Catalan => "Budapest, Hongria"@,
        Idioma::Checo => "Budapešť, Maďarsko"@,
        Idioma::Aleman | Idioma::NoruegoNynorsk => "Budapest, Ungarn"@,
        Idioma::Ingles | Idioma::Turco | Idioma::Vietnamita => "Budapest, Hungary"@,
        Idioma::Espanol | Idioma::Gallego => "Budapest, Hungría"@,
        Idioma::Frances => "Budapest, Hongrie"@,
        Idioma::Hungaro => "Budapest, Magyarország"@,
        Idioma::Italiano => "Budapest, Ungheria"@,
        Idioma::Coreano => "부다페스트, 헝가리"@,
        Idioma::Kurdo => "Budapest, Macaristan"@,
        Idioma::Neerlandes => "Boedapest, Hongarije"@,
        Idioma::Polaco => "Budapeszt, Węgry"@,
        Idioma::PortuguesBrasil => "Budapeste, Hungria"@,
        Idioma::Ruso => "Будапешт, Венгрия"@,
        Idioma::Sueco => "Budapest, Ungern"@,
        Idioma::Ucraniano => "Будапешт, Угорщина"@,
        Idioma::ChinoSimplificado => "匈牙利布达佩斯"@,
    }
}

pub fn zona_budapest(idioma: Idioma) -> (r: &'static str)
    ensures
        r@ == zona_budapest_spec(idioma),
{
    match idioma {
        Idioma::BelarusLatino => "Budapješt, Vjenhryja",
        Idioma::Belarus => "Будапешт, Венгрыя",
        Idioma::Catalan => "Budapest, Hongria",
        Idioma::Checo => "Budapešť, Maďarsko",
        Idioma::Aleman | Idioma::NoruegoNynorsk => "Budapest, Ungarn",
        Idioma::Ingles | Idioma::Turco | Idioma::Vietnamita => "Budapest, Hungary",
        Idioma::Espanol | Idioma::Gallego => "Budapest, Hungría",
        Idioma::Frances => "Budapest, Hongrie",
        Idioma::Hungaro => "Budapest, Magyarország",
        Idioma::Italiano => "Budapest, Ungheria",
        Idioma::Coreano => "부다페스트, 헝가리",
        Idioma::Kurdo => "Budapest, Macaristan",
        Idioma::Neerlandes => "Boedapest, Hongarije",
        Idioma::Polaco => "Budapeszt, Węgry",
        Idioma::PortuguesBrasil => "Budapeste, Hungria",
        Idioma::Ruso => "Будапешт, Венгрия",
        Idioma::Sueco => "Budapest, Ungern",
        Idioma::Ucraniano => "Будапешт, Угорщина",
        Idioma::ChinoSimplificado => "匈牙利布达佩斯",
    }
}

/// Spanish keyboard for Latin America.
pub open spec fn teclado_latam_spec(idioma: Idioma) -> Seq<char> {
    match idioma {
        Idioma::BelarusLatino => "Ispanskaja (Łacinskaja Amjeryka)"@,
        Idioma::Belarus => "Іспанская (Лацінская Амерыка)"@,
        Idioma::Catalan => "espanyol (Amèrica Llatina)"@,
        Idioma::Checo => "španělština (Latinská Amerika)"@,
        Idioma::Aleman => "Spanisch (Lateinamerika)"@,
        Idioma::Ingles => "Spanish (Latin America)"@,
        Idioma::Espanol | Idioma::Gallego => "Español (Latinoamérica)"@,
        Idioma::Frances => "Espagnol (Amérique latine)"@,
        Idioma::Hungaro => "Spanyol (Latin-Amerika)"@,
        Idioma::Italiano => "Spagnolo (America Latina)"@,
        Idioma::Coreano => "스페인어(라틴 아메리카)"@,
        Idioma::Kurdo => "Spanî (Amerîkaya Latîn)"@,
        Idioma::Neerlandes => "Spaans (Latijns-Amerika)"@,
        Idioma::NoruegoNynorsk => "Spansk (Latin-Amerika)"@,
        Idioma::Polaco => "Hiszpański (Ameryka Łacińska)"@,
        Idioma::PortuguesBrasil => "Espanhol (América Latina)"@,
        Idioma::Ruso => "Испанский (Латинская Америка)"@,
        Idioma::Sueco => "Spanska (Latinamerika)"@,
        Idioma::Turco => "İspanyolca (Latin Amerika)"@,
        Idioma::Ucraniano => "Іспанська (Латинська Америка)"@,
        Idioma::Vietnamita => "Tiếng Tây Ban Nha (Mỹ Latinh)"@,
        Idioma::ChinoSimplificado => "西班牙语（拉丁美洲）"@,
    }
}

pub fn teclado_latam(idioma: Idioma) -> (r: &'static str)
    ensures
        r@ == teclado_latam_spec(idioma),
{
    match idioma {
        Idioma::BelarusLatino => "Ispanskaja (Łacinskaja Amjeryka)",
        Idioma::Belarus => "Іспанская (Лацінская Амерыка)",
        Idioma::Catalan => "espanyol (Amèrica Llatina)",
        Idioma::Checo => "španělština (Latinská Amerika)",
        Idioma::Aleman => "Spanisch (Lateinamerika)",
        Idioma::Ingles => "Spanish (Latin America)",
        Idioma::Espanol | Idioma::Gallego => "Español (Latinoamérica)",
        Idioma::Frances => "Espagnol (Amérique latine)",
        Idioma::Hungaro => "Spanyol (Latin-Amerika)",
        Idioma::Italiano => "Spagnolo (America Latina)",
        Idioma::Coreano => "스페인어(라틴 아메리카)",
        Idioma::Kurdo => "Spanî (Amerîkaya Latîn)",
        Idioma::Neerlandes => "Spaans (Latijns-Amerika)",
        Idioma::NoruegoNynorsk => "Spansk (Latin-Amerika)",
        Idioma::Polaco => "Hiszpański (Ameryka Łacińska)",
        Idioma::PortuguesBrasil => "Espanhol (América Latina)",
        Idioma::Ruso => "Испанский (Латинская Америка)",
        Idioma::Sueco => "Spanska (Latinamerika)",
        Idioma::Turco => "İspanyolca (Latin Amerika)",
        Idioma::Ucraniano => "Іспанська (Латинська Америка)",
        Idioma::Vietnamita => "Tiếng Tây Ban Nha (Mỹ Latinh)",
        Idioma::ChinoSimplificado => "西班牙语（拉丁美洲）",
    }
}

/// Spanish keyboard for Spain.
pub open spec fn teclado_es_spec(idioma: Idioma) -> Seq<char> {
    match idioma {
        Idioma::BelarusLatino => "Ispanskaja (Ispanija)"@,
        Idioma::Belarus => "Іспанская (Іспанія)"@,
        Idioma::Catalan => "Espanyol (Espanya)"@,
        Idioma::Checo => "španělština (Španělsko)"@,
        Idioma::Aleman => "Spanisch (Spanien)"@,
        Idioma::Ingles => "Spanish (Spain)"@,
        Idioma::Espanol | Idioma::Gallego => "Español (España)"@,
        Idioma::Frances => "Espagnol (Espagne)"@,
        Idioma::Hungaro => "Spanyol (Spanyolország)"@,
        Idioma::Italiano => "Spagnolo (Spagna)"@,
        Idioma::Coreano => "스페인어(스페인)"@,
        Idioma::Kurdo => "Spanî (Ispanya)"@,
        Idioma::Neerlandes => "Spaans (Spanje)"@,
        Idioma::NoruegoNynorsk => "Spansk (Spania)"@,
        Idioma::Polaco => "Hiszpański (Hiszpania)"@,
        Idioma::PortuguesBrasil => "Espanhol (Espanha)"@,
        Idioma::Ruso => "Испанский (Испания)"@,
        Idioma::Sueco => "Spanska (Spanien)"@,
        Idioma::Turco => "İspanyolca (İspanya)"@,
        Idioma::Ucraniano => "Іспанська (Іспанія)"@,
        Idioma::Vietnamita => "Tiếng Tây Ban Nha (Tây Ban Nha)"@,
        Idioma::ChinoSimplificado => "西班牙语（西班牙）"@,
    }
}

pub fn teclado_es(idioma: Idioma) -> (r: &'static str)
    ensures
        r@ == teclado_es_spec(idioma),
{
    match idioma {
        Idioma::BelarusLatino => "Ispanskaja (Ispanija)",
        Idioma::Belarus => "Іспанская (Іспанія)",
        Idioma::Catalan => "Espanyol (Espanya)",
        Idioma::Checo => "španělština (Španělsko)",
        Idioma::Aleman => "Spanisch (Spanien)",
        Idioma::Ingles => "Spanish (Spain)",
        Idioma::Espanol | Idioma::Gallego => "Español (España)",
        Idioma::Frances => "Espagnol (Espagne)",
        Idioma::Hungaro => "Spanyol (Spanyolország)",
        Idioma::Italiano => "Spagnolo (Spagna)",
        Idioma::Coreano => "스페인어(스페인)",
        Idioma::Kurdo => "Spanî (Ispanya)",
        Idioma::Neerlandes => "Spaans (Spanje)",
        Idioma::NoruegoNynorsk => "Spansk (Spania)",
        Idioma::Polaco => "Hiszpański (Hiszpania)",
        Idioma::PortuguesBrasil => "Espanhol (Espanha)",
        Idioma::Ruso => "Испанский (Испания)",
        Idioma::Sueco => "Spanska (Spanien)",
        Idioma::Turco => "İspanyolca (İspanya)",
        Idioma::Ucraniano => "Іспанська (Іспанія)",
        Idioma::Vietnamita => "Tiếng Tây Ban Nha (Tây Ban Nha)",
        Idioma::ChinoSimplificado => "西班牙语（西班牙）",
    }
}

/// English keyboard for the United States.
pub open spec fn teclado_us_spec(idioma: Idioma) -> Seq<char> {
    match idioma {
        Idioma::BelarusLatino => "Anhłijskaja (Złučanyja Štaty)"@,
        Idioma::Belarus => "Англійская (ЗША)"@,
        Idioma::Catalan => "Anglès (Estats Units)"@,
        Idioma::Checo => "angličtina (Spojené státy americké)"@,
        Idioma::Aleman => "Englisch (USA)"@,
        Idioma::Ingles => "English (United States)"@,
        Idioma::Espanol | Idioma::Gallego => "Inglés (Estados Unidos)"@,
        Idioma::Frances => "Anglais (États-Unis)"@,
        Idioma::Hungaro => "Angol (Egyesült Államok)"@,
        Idioma::Italiano => "Inglese (Stati Uniti)"@,
        Idioma::Coreano => "영어(미국)"@,
        Idioma::Kurdo => "Îngilîzî (DYA)"@,
        Idioma::Neerlandes => "Engels (Verenigde Staten)"@,
        Idioma::NoruegoNynorsk => "Engelsk (USA)"@,
        Idioma::Polaco => "angielski (Stany Zjednoczone)"@,
        Idioma::PortuguesBrasil => "Inglês (Estados Unidos)"@,
        Idioma::Ruso => "Английский (США)"@,
        Idioma::Sueco => "Engelska (USA)"@,
        Idioma::Turco => "İngilizce (Amerika Birleşik Devletleri)"@,
        Idioma::Ucraniano => "англійська (Сполучені Штати)"@,
        Idioma::Vietnamita => "Tiếng Anh (Hoa Kỳ)"@,
        Idioma::ChinoSimplificado => "英语（美国）"@,
    }
}

pub fn teclado_us(idioma: Idioma) -> (r: &'static str)
    ensures
        r@ == teclado_us_spec(idioma),
{
    match idioma {
        Idioma::BelarusLatino => "Anhłijskaja (Złučanyja Štaty)",
        Idioma::Belarus => "Англійская (ЗША)",
        Idioma::Catalan => "Anglès (Estats Units)",
        Idioma::Checo => "angličtina (Spojené státy americké)",
        Idioma::Aleman => "Englisch (USA)",
        Idioma::Ingles => "English (United States)",
        Idioma::Espanol | Idioma::Gallego => "Inglés (Estados Unidos)",
        Idioma::Frances => "Anglais (États-Unis)",
        Idioma::Hungaro => "Angol (Egyesült Államok)",
        Idioma::Italiano => "Inglese (Stati Uniti)",
        Idioma::Coreano => "영어(미국)",
        Idioma::Kurdo => "Îngilîzî (DYA)",
        Idioma::Neerlandes => "Engels (Verenigde Staten)",
        Idioma::NoruegoNynorsk => "Engelsk (USA)",
        Idioma::Polaco => "angielski (Stany Zjednoczone)",
        Idioma::PortuguesBrasil => "Inglês (Estados Unidos)",
        Idioma::Ruso => "Английский (США)",
        Idioma::Sueco => "Engelska (USA)",
        Idioma::Turco => "İngilizce (Amerika Birleşik Devletleri)",
        Idioma::Ucraniano => "англійська (Сполучені Штати)",
        Idioma::Vietnamita => "Tiếng Anh (Hoa Kỳ)",
        Idioma::ChinoSimplificado => "英语（美国）",
    }
}

/// Hungarian keyboard.
pub open spec fn teclado_hu_spec(idioma: Idioma) -> Seq<char> {
    match idioma {
        Idioma::BelarusLatino => "vjenhjerski"@,
        Idioma::Belarus => "Венгерская"@,
        Idioma::Catalan => "hongarès"@,
        Idioma::Checo => "maďarština"@,
        Idioma::Aleman => "Ungarisch"@,
        Idioma::Ingles => "Hungarian"@,
        Idioma::Espanol | Idioma::PortuguesBrasil => "Húngaro"@,
        Idioma::Frances => "hongrois"@,
        Idioma::Gallego => "húngaro"@,
        Idioma::Hungaro => "Magyar"@,
        Idioma::Italiano => "Ungherese"@,
        Idioma::Coreano => "헝가리어"@,
        Idioma::Kurdo => "Macarî"@,
        Idioma::Neerlandes => "Hongaars"@,
        Idioma::NoruegoNynorsk => "Ungarsk"@,
        Idioma::Polaco => "węgierski"@,
        Idioma::Ruso => "Венгерский"@,
        Idioma::Sueco => "Ungerska"@,
        Idioma::Turco => "Macarca"@,
        Idioma::Ucraniano => "Угорська"@,
        Idioma::Vietnamita => "Hungary"@,
        Idioma::ChinoSimplificado => "匈牙利语"@,
    }
}

pub fn teclado_hu(idioma: Idioma) -> (r: &'static str)
    ensures
        r@ == teclado_hu_spec(idioma),
{
    match idioma {
        Idioma::BelarusLatino => "vjenhjerski",
        Idioma::Belarus => "Венгерская",
        Idioma::Catalan => "hongarès",
        Idioma::Checo => "maďarština",
        Idioma::Aleman => "Ungarisch",
        Idioma::Ingles => "Hungarian",
        Idioma::Espanol | Idioma::PortuguesBrasil => "Húngaro",
        Idioma::Frances => "hongrois",
        Idioma::Gallego => "húngaro",
        Idioma::Hungaro => "Magyar",
        Idioma::Italiano => "Ungherese",
        Idioma::Coreano => "헝가리어",
        Idioma::Kurdo => "Macarî",
        Idioma::Neerlandes => "Hongaars",
        Idioma::NoruegoNynorsk => "Ungarsk",
        Idioma::Polaco => "węgierski",
        Idioma::Ruso => "Венгерский",
        Idioma::Sueco => "Ungerska",
        Idioma::Turco => "Macarca",
        Idioma::Ucraniano => "Угорська",
        Idioma::Vietnamita => "Hungary",
        Idioma::ChinoSimplificado => "匈牙利语",
    }
}

/// The account of the main user.
pub open spec fn cuenta_principal_spec(idioma: Idioma) -> Seq<char> {
    match idioma {
        Idioma::BelarusLatino => "Asnoŭny karystałnik"@,
        Idioma::Belarus => "Асноўны карыстальнік"@,
        Idioma::Catalan => "Usuari principal"@,
        Idioma::Checo => "Hlavní uživatel"@,
        Idioma::Aleman => "Hauptbenutzer"@,
        Idioma::Ingles => "Main user"@,
        Idioma::Espanol | Idioma::Gallego => "Usuario principal"@,
        Idioma::Frances => "Utilisateur principal"@,
        Idioma::Hungaro => "Elsődleges felhasználó"@,
        Idioma::Italiano => "Utente principale"@,
        Idioma::Coreano => "기본 사용자"@,
        Idioma::Kurdo => "Bikarhênerê sereke"@,
        Idioma::Neerlandes => "Hoofdgebruiker"@,
        Idioma::NoruegoNynorsk => "Hovedbruker"@,
        Idioma::Polaco => "Główny użytkownik"@,
        Idioma::PortuguesBrasil => "Usuário principal"@,
        Idioma::Ruso => "Главный пользователь"@,
        Idioma::Sueco => "Huvudanvändare"@,
        Idioma::Turco => "Ana kullanıcı"@,
        Idioma::Ucraniano => "Головний користувач"@,
        Idioma::Vietnamita => "Người dùng chính"@,
        Idioma::ChinoSimplificado => "主要用户"@,
    }
}

pub fn cuenta_principal(idioma: Idioma) -> (r: &'static str)
    ensures
        r@ == cuenta_principal_spec(idioma),
{
    match idioma {
        Idioma::BelarusLatino => "Asnoŭny karystałnik",
        Idioma::Belarus => "Асноўны карыстальнік",
        Idioma::Catalan => "Usuari principal",
        Idioma::Checo => "Hlavní uživatel",
        Idioma::Aleman => "Hauptbenutzer",
        Idioma::Ingles => "Main user",
        Idioma::Espanol | Idioma::Gallego => "Usuario principal",
        Idioma::Frances => "Utilisateur principal",
        Idioma::Hungaro => "Elsődleges felhasználó",
        Idioma::Italiano => "Utente principale",
        Idioma::Coreano => "기본 사용자",
        Idioma::Kurdo => "Bikarhênerê sereke",
        Idioma::Neerlandes => "Hoofdgebruiker",
        Idioma::NoruegoNynorsk => "Hovedbruker",
        Idioma::Polaco => "Główny użytkownik",
        Idioma::PortuguesBrasil => "Usuário principal",
        Idioma::Ruso => "Главный пользователь",
        Idioma::Sueco => "Huvudanvändare",
        Idioma::Turco => "Ana kullanıcı",
        Idioma::Ucraniano => "Головний користувач",
        Idioma::Vietnamita => "Người dùng chính",
        Idioma::ChinoSimplificado => "主要用户",
    }
}

} // verus!
