//! The interface texts named by key, in every language.

use vstd::prelude::*;
use crate::idioma::Idioma;
use crate::cadena::{iguales, lema_distinto_de_korunix};

verus! {

/// The `subtitle` text in each language.
pub open spec fn t_subtitle_spec(idioma: Idioma) -> Seq<char> {
    match idioma {
        Idioma::BelarusLatino => "Centr kiravannja nixos"@,
        Idioma::Belarus => "Цэнтр кіравання NixOS"@,
        Idioma::Catalan => "Centre de control NixOS"@,
        Idioma::Checo => "Ovládací centrum NixOS"@,
        Idioma::Aleman => "NixOS-Kontrollzentrum"@,
        Idioma::Ingles => "NixOS control center"@,
        Idioma::Espanol => "Centro de control de NixOS"@,
        Idioma::Frances => "Centre de contrôle NixOS"@,
        Idioma::Gallego => "Centro de control NixOS"@,
        Idioma::Hungaro => "NixOS vezérlőközpont"@,
        Idioma::Italiano => "Centro di controllo NixOS"@,
        Idioma::Coreano => "NixOS 제어 센터"@,
        Idioma::Kurdo => "Navenda kontrolê ya NixOS"@,
        Idioma::Neerlandes => "NixOS-controlecentrum"@,
        Idioma::NoruegoNynorsk => "NixOS kontrollsenter"@,
        Idioma::Polaco => "Centrum kontroli NixOS"@,
        Idioma::PortuguesBrasil => "Centro de controle NixOS"@,
        Idioma::Ruso => "Центр управления NixOS"@,
        Idioma::Sueco => "NixOS kontrollcenter"@,
        Idioma::Turco => "NixOS kontrol merkezi"@,
        Idioma::Ucraniano => "Центр керування NixOS"@,
        Idioma::Vietnamita => "Trung tâm điều khiển NixOS"@,
        Idioma::ChinoSimplificado => "NixOS 控制中心"@,
    }
}

pub fn t_subtitle(idioma: Idioma) -> (r: &'static str)
    ensures
        r@ == t_subtitle_spec(idioma),
{
    match idioma {
        Idioma::BelarusLatino => "Centr kiravannja nixos",
        Idioma::Belarus => "Цэнтр кіравання NixOS",
        Idioma::Catalan => "Centre de control NixOS",
        Idioma::Checo => "Ovládací centrum NixOS",
        Idioma::Aleman => "NixOS-Kontrollzentrum",
        Idioma::Ingles => "NixOS control center",
        Idioma::Espanol => "Centro de control de NixOS",
        Idioma::Frances => "Centre de contrôle NixOS",
        Idioma::Gallego => "Centro de control NixOS",
        Idioma::Hungaro => "NixOS vezérlőközpont",
        Idioma::Italiano => "Centro di controllo NixOS",
        Idioma::Coreano => "NixOS 제어 센터",
        Idioma::Kurdo => "Navenda kontrolê ya NixOS",
        Idioma::Neerlandes => "NixOS-controlecentrum",
        Idioma::NoruegoNynorsk => "NixOS kontrollsenter",
        Idioma::Polaco => "Centrum kontroli NixOS",
        Idioma::PortuguesBrasil => "Centro de controle NixOS",
        Idioma::Ruso => "Центр управления NixOS",
        Idioma::Sueco => "NixOS kontrollcenter",
        Idioma::Turco => "NixOS kontrol merkezi",
        Idioma::Ucraniano => "Центр керування NixOS",
        Idioma::Vietnamita => "Trung tâm điều khiển NixOS",
        Idioma::ChinoSimplificado => "NixOS 控制中心",
    }
}

/// The `summary` text in each language.
pub open spec fn t_summary_spec(idioma: Idioma) -> Seq<char> {
    match idioma {
        Idioma::BelarusLatino => "Rezjume"@,
        Idioma::Belarus => "Рэзюмэ"@,
        Idioma::Catalan => "Resum"@,
        Idioma::Checo => "Shrnutí"@,
        Idioma::Aleman => "Zusammenfassung"@,
        Idioma::Ingles => "Summary"@,
        Idioma::Espanol => "Resumen"@,
        Idioma::Frances => "Résumé"@,
        Idioma::Gallego | Idioma::PortuguesBrasil => "Resumo"@,
        Idioma::Hungaro => "Összefoglaló"@,
        Idioma::Italiano => "Riepilogo"@,
        Idioma::Coreano => "요약"@,
        Idioma::Kurdo => "Kurte"@,
        Idioma::Neerlandes => "Samenvatting"@,
        Idioma::NoruegoNynorsk => "Sammendrag"@,
        Idioma::Polaco => "Podsumowanie"@,
        Idioma::Ruso | Idioma::Ucraniano => "Резюме"@,
        Idioma::Sueco => "Sammanfattning"@,
        Idioma::Turco => "Özet"@,
        Idioma::Vietnamita => "Tóm tắt"@,
        Idioma::ChinoSimplificado => "摘要"@,
    }
}

pub fn t_summary(idioma: Idioma) -> (r: &'static str)
    ensures
        r@ == t_summary_spec(idioma),
{
    match idioma {
        Idioma::BelarusLatino => "Rezjume",
        Idioma::Belarus => "Рэзюмэ",
        Idioma::Catalan => "Resum",
        Idioma::Checo => "Shrnutí",
        Idioma::Aleman => "Zusammenfassung",
        Idioma::Ingles => "Summary",
        Idioma::Espanol => "Resumen",
        Idioma::Frances => "Résumé",
        Idioma::Gallego | Idioma::PortuguesBrasil => "Resumo",
        Idioma::Hungaro => "Összefoglaló",
        Idioma::Italiano => "Riepilogo",
        Idioma::Coreano => "요약",
        Idioma::Kurdo => "Kurte",
        Idioma::Neerlandes => "Samenvatting",
        Idioma::NoruegoNynorsk => "Sammendrag",
        Idioma::Polaco => "Podsumowanie",
        Idioma::Ruso | Idioma::Ucraniano => "Резюме",
        Idioma::Sueco => "Sammanfattning",
        Idioma::Turco => "Özet",
        Idioma::Vietnamita => "Tóm tắt",
        Idioma::ChinoSimplificado => "摘要",
    }
}

/// The `updates` text in each language.
pub open spec fn t_updates_spec(idioma: Idioma) -> Seq<char> {
    match idioma {
        Idioma::BelarusLatino => "Abnaŭłjenni"@,
        Idioma::Belarus => "Абнаўленні"@,
        Idioma::Catalan => "Actualitzacions"@,
        Idioma::Checo => "Aktualizace"@,
        Idioma::Aleman => "Aktualisierungen"@,
        Idioma::Ingles | Idioma::Neerlandes => "Updates"@,
        Idioma::Espanol => "Actualizaciones"@,
        Idioma::Frances => "Mises à jour"@,
        Idioma::Gallego => "Actualizacións"@,
        Idioma::Hungaro => "Frissítések"@,
        Idioma::Italiano => "Aggiornamenti"@,
        Idioma::Coreano => "업데이트"@,
        Idioma::Kurdo => "Nûvekirin"@,
        Idioma::NoruegoNynorsk => "Oppdateringer"@,
        Idioma::Polaco => "Aktualizacje"@,
        Idioma::PortuguesBrasil => "Atualizações"@,
        Idioma::Ruso => "Обновления"@,
        Idioma::Sueco => "Uppdateringar"@,
        Idioma::Turco => "Güncellemeler"@,
        Idioma::Ucraniano => "Оновлення"@,
        Idioma::Vietnamita => "Cập nhật"@,
        Idioma::ChinoSimplificado => "更新"@,
    }
}

pub fn t_updates(idioma: Idioma) -> (r: &'static str)
    ensures
        r@ == t_updates_spec(idioma),
{
    match idioma {
        Idioma::BelarusLatino => "Abnaŭłjenni",
        Idioma::Belarus => "Абнаўленні",
        Idioma::Catalan => "Actualitzacions",
        Idioma::Checo => "Aktualizace",
        Idioma::Aleman => "Aktualisierungen",
        Idioma::Ingles | Idioma::Neerlandes => "Updates",
        Idioma::Espanol => "Actualizaciones",
        Idioma::Frances => "Mises à jour",
        Idioma::Gallego => "Actualizacións",
        Idioma::Hungaro => "Frissítések",
        Idioma::Italiano => "Aggiornamenti",
        Idioma::Coreano => "업데이트",
        Idioma::Kurdo => "Nûvekirin",
        Idioma::NoruegoNynorsk => "Oppdateringer",
        Idioma::Polaco => "Aktualizacje",
        Idioma::PortuguesBrasil => "Atualizações",
        Idioma::Ruso => "Обновления",
        Idioma::Sueco => "Uppdateringar",
        Idioma::Turco => "Güncellemeler",
        Idioma::Ucraniano => "Оновлення",
        Idioma::Vietnamita => "Cập nhật",
        Idioma::ChinoSimplificado => "更新",
    }
}

/// The `localization` text in each language.
pub open spec fn t_localization_spec(idioma: Idioma) -> Seq<char> {
    match idioma {
        Idioma::BelarusLatino => "Mova i rehijon"@,
        Idioma::Belarus => "Мова і рэгіён"@,
        Idioma::Catalan => "Idioma i regió"@,
        Idioma::Checo => "Jazyk a region"@,
        Idioma::Aleman => "Sprache und Region"@,
        Idioma::Ingles => "Language and region"@,
        Idioma::Espanol => "Idioma y región"@,
        Idioma::Frances => "Langue et région"@,
        Idioma::Gallego => "Idioma e rexión"@,
        Idioma::Hungaro => "Nyelv és régió"@,
        Idioma::Italiano => "Lingua e regione"@,
        Idioma::Coreano => "언어 및 지역"@,
        Idioma::Kurdo => "Ziman û herêm"@,
        Idioma::Neerlandes => "Taal en regio"@,
        Idioma::NoruegoNynorsk => "Språk og region"@,
        Idioma::Polaco => "Język i region"@,
        Idioma::PortuguesBrasil => "Idioma e região"@,
        Idioma::Ruso => "Язык и регион"@,
        Idioma::Sueco => "Språk och region"@,
        Idioma::Turco => "Dil ve bölge"@,
        Idioma::Ucraniano => "Мова та регіон"@,
        Idioma::Vietnamita => "Ngôn ngữ và khu vực"@,
        Idioma::ChinoSimplificado => "语言和地区"@,
    }
}

pub fn t_localization(idioma: Idioma) -> (r: &'static str)
    ensures
        r@ == t_localization_spec(idioma),
{
    match idioma {
        Idioma::BelarusLatino => "Mova i rehijon",
        Idioma::Belarus => "Мова і рэгіён",
        Idioma::Catalan => "Idioma i regió",
        Idioma::Checo => "Jazyk a region",
        Idioma::Aleman => "Sprache und Region",
        Idioma::Ingles => "Language and region",
        Idioma::Espanol => "Idioma y región",
        Idioma::Frances => "Langue et région",
        Idioma::Gallego => "Idioma e rexión",
        Idioma::Hungaro => "Nyelv és régió",
        Idioma::Italiano => "Lingua e regione",
        Idioma::Coreano => "언어 및 지역",
        Idioma::Kurdo => "Ziman û herêm",
        Idioma::Neerlandes => "Taal en regio",
        Idioma::NoruegoNynorsk => "Språk og region",
        Idioma::Polaco => "Język i region",
        Idioma::PortuguesBrasil => "Idioma e região",
        Idioma::Ruso => "Язык и регион",
        Idioma::Sueco => "Språk och region",
        Idioma::Turco => "Dil ve bölge",
        Idioma::Ucraniano => "Мова та регіон",
        Idioma::Vietnamita => "Ngôn ngữ và khu vực",
        Idioma::ChinoSimplificado => "语言和地区",
    }
}

/// The `hardware` text in each language.
pub open spec fn t_hardware_spec(idioma: Idioma) -> Seq<char> {
    match idioma {
        Idioma::BelarusLatino => "Abstałjavannje"@,
        Idioma::Belarus => "Абсталяванне"@,
        Idioma::Catalan => "Maquinari"@,
        Idioma::Checo | Idioma::Aleman | Idioma::Ingles | Idioma::Espanol | Idioma::Gallego | Idioma::Kurdo | Idioma::Neerlandes | Idioma::PortuguesBrasil => "Hardware"@,
        Idioma::Frances => "Matériel"@,
        Idioma::Hungaro => "Hardver"@,
        Idioma::Italiano => "Ferramenta"@,
        Idioma::Coreano => "하드웨어"@,
        Idioma::NoruegoNynorsk => "Maskinvare"@,
        Idioma::Polaco => "Sprzęt"@,
        Idioma::Ruso => "Аппаратное обеспечение"@,
        Idioma::Sueco => "Hårdvara"@,
        Idioma::Turco => "Donanım"@,
        Idioma::Ucraniano => "Обладнання"@,
        Idioma::Vietnamita => "Phần cứng"@,
        Idioma::ChinoSimplificado => "硬件"@,
    }
}

pub fn t_hardware(idioma: Idioma) -> (r: &'static str)
    ensures
        r@ == t_hardware_spec(idioma),
{
    match idioma {
        Idioma::BelarusLatino => "Abstałjavannje",
        Idioma::Belarus => "Абсталяванне",
        Idioma::Catalan => "Maquinari",
        Idioma::Checo | Idioma::Aleman | Idioma::Ingles | Idioma::Espanol | Idioma::Gallego | Idioma::Kurdo | Idioma::Neerlandes | Idioma::PortuguesBrasil => "Hardware",
        Idioma::Frances => "Matériel",
        Idioma::Hungaro => "Hardver",
        Idioma::Italiano => "Ferramenta",
        Idioma::Coreano => "하드웨어",
        Idioma::NoruegoNynorsk => "Maskinvare",
        Idioma::Polaco => "Sprzęt",
        Idioma::Ruso => "Аппаратное обеспечение",
        Idioma::Sueco => "Hårdvara",
        Idioma::Turco => "Donanım",
        Idioma::Ucraniano => "Обладнання",
        Idioma::Vietnamita => "Phần cứng",
        Idioma::ChinoSimplificado => "硬件",
    }
}

/// The `people` text in each language.
pub open spec fn t_people_spec(idioma: Idioma) -> Seq<char> {
    match idioma {
        Idioma::BelarusLatino => "Łjudzi"@,
        Idioma::Belarus => "Людзі"@,
        Idioma::Catalan => "Persones"@,
        Idioma::Checo => "Lidé"@,
        Idioma::Aleman => "Menschen"@,
        Idioma::Ingles => "People"@,
        Idioma::Espanol => "Personas"@,
        Idioma::Frances => "Personnes"@,
        Idioma::Gallego => "Persoas"@,
        Idioma::Hungaro => "Személyek"@,
        Idioma::Italiano => "Persone"@,
        Idioma::Coreano => "사람"@,
        Idioma::Kurdo => "Kes"@,
        Idioma::Neerlandes => "Mensen"@,
        Idioma::NoruegoNynorsk | Idioma::Sueco => "Folk"@,
        Idioma::Polaco => "Osoby"@,
        Idioma::PortuguesBrasil => "Pessoas"@,
        Idioma::Ruso | Idioma::Ucraniano => "Люди"@,
        Idioma::Turco => "İnsan"@,
        Idioma::Vietnamita => "Mọi người"@,
        Idioma::ChinoSimplificado => "人物"@,
    }
}

pub fn t_people(idioma: Idioma) -> (r: &'static str)
    ensures
        r@ == t_people_spec(idioma),
{
    match idioma {
        Idioma::BelarusLatino => "Łjudzi",
        Idioma::Belarus => "Людзі",
        Idioma::Catalan => "Persones",
        Idioma::Checo => "Lidé",
        Idioma::Aleman => "Menschen",
        Idioma::Ingles => "People",
        Idioma::Espanol => "Personas",
        Idioma::Frances => "Personnes",
        Idioma::Gallego => "Persoas",
        Idioma::Hungaro => "Személyek",
        Idioma::Italiano => "Persone",
        Idioma::Coreano => "사람",
        Idioma::Kurdo => "Kes",
        Idioma::Neerlandes => "Mensen",
        Idioma::NoruegoNynorsk | Idioma::Sueco => "Folk",
        Idioma::Polaco => "Osoby",
        Idioma::PortuguesBrasil => "Pessoas",
        Idioma::Ruso | Idioma::Ucraniano => "Люди",
        Idioma::Turco => "İnsan",
        Idioma::Vietnamita => "Mọi người",
        Idioma::ChinoSimplificado => "人物",
    }
}

/// The `refresh` text in each language.
pub open spec fn t_refresh_spec(idioma: Idioma) -> Seq<char> {
    match idioma {
        Idioma::BelarusLatino => "Abnavic"@,
        Idioma::Belarus => "Абнавіць"@,
        Idioma::Catalan => "Actualitza"@,
        Idioma::Checo => "Obnovit"@,
        Idioma::Aleman => "Aktualisieren"@,
        Idioma::Ingles => "Refresh"@,
        Idioma::Espanol | Idioma::Gallego => "Actualizar"@,
        Idioma::Frances => "Actualiser"@,
        Idioma::Hungaro => "Frissítés"@,
        Idioma::Italiano => "Aggiorna"@,
        Idioma::Coreano => "새로 고침"@,
        Idioma::Kurdo => "Nûvekirin"@,
        Idioma::Neerlandes => "Vernieuwen"@,
        Idioma::NoruegoNynorsk => "Oppdater"@,
        Idioma::Polaco => "Odśwież"@,
        Idioma::PortuguesBrasil => "Atualizar"@,
        Idioma::Ruso => "Обновить"@,
        Idioma::Sueco => "Uppdatera"@,
        Idioma::Turco => "Yenile"@,
        Idioma::Ucraniano => "Оновити"@,
        Idioma::Vietnamita => "Làm mới"@,
        Idioma::ChinoSimplificado => "刷新"@,
    }
}

pub fn t_refresh(idioma: Idioma) -> (r: &'static str)
    ensures
        r@ == t_refresh_spec(idioma),
{
    match idioma {
        Idioma::BelarusLatino => "Abnavic",
        Idioma::Belarus => "Абнавіць",
        Idioma::Catalan => "Actualitza",
        Idioma::Checo => "Obnovit",
        Idioma::Aleman => "Aktualisieren",
        Idioma::Ingles => "Refresh",
        Idioma::Espanol | Idioma::Gallego => "Actualizar",
        Idioma::Frances => "Actualiser",
        Idioma::Hungaro => "Frissítés",
        Idioma::Italiano => "Aggiorna",
        Idioma::Coreano => "새로 고침",
        Idioma::Kurdo => "Nûvekirin",
        Idioma::Neerlandes => "Vernieuwen",
        Idioma::NoruegoNynorsk => "Oppdater",
        Idioma::Polaco => "Odśwież",
        Idioma::PortuguesBrasil => "Atualizar",
        Idioma::Ruso => "Обновить",
        Idioma::Sueco => "Uppdatera",
        Idioma::Turco => "Yenile",
        Idioma::Ucraniano => "Оновити",
        Idioma::Vietnamita => "Làm mới",
        Idioma::ChinoSimplificado => "刷新",
    }
}

/// The `channel` text in each language.
pub open spec fn t_channel_spec(idioma: Idioma) -> Seq<char> {
    match idioma {
        Idioma::BelarusLatino => "Sistemny kanał"@,
        Idioma::Belarus => "Сістэмны канал"@,
        Idioma::Catalan | Idioma::Espanol => "Canal del sistema"@,
        Idioma::Checo => "Systémový kanál"@,
        Idioma::Aleman | Idioma::NoruegoNynorsk | Idioma::Sueco => "Systemkanal"@,
        Idioma::Ingles => "System channel"@,
        Idioma::Frances => "Canal système"@,
        Idioma::Gallego => "Canle do sistema"@,
        Idioma::Hungaro => "Rendszercsatorna"@,
        Idioma::Italiano => "Canale di sistema"@,
        Idioma::Coreano => "시스템 채널"@,
        Idioma::Kurdo => "Kanala pergalê"@,
        Idioma::Neerlandes => "Systeemkanaal"@,
        Idioma::Polaco => "Kanał systemowy"@,
        Idioma::PortuguesBrasil => "Canal do sistema"@,
        Idioma::Ruso => "Системный канал"@,
        Idioma::Turco => "Sistem kanalı"@,
        Idioma::Ucraniano => "Системний канал"@,
        Idioma::Vietnamita => "Kênh hệ thống"@,
        Idioma::ChinoSimplificado => "系统通道"@,
    }
}

pub fn t_channel(idioma: Idioma) -> (r: &'static str)
    ensures
        r@ == t_channel_spec(idioma),
{
    match idioma {
        Idioma::BelarusLatino => "Sistemny kanał",
        Idioma::Belarus => "Сістэмны канал",
        Idioma::Catalan | Idioma::Espanol => "Canal del sistema",
        Idioma::Checo => "Systémový kanál",
        Idioma::Aleman | Idioma::NoruegoNynorsk | Idioma::Sueco => "Systemkanal",
        Idioma::Ingles => "System channel",
        Idioma::Frances => "Canal système",
        Idioma::Gallego => "Canle do sistema",
        Idioma::Hungaro => "Rendszercsatorna",
        Idioma::Italiano => "Canale di sistema",
        Idioma::Coreano => "시스템 채널",
        Idioma::Kurdo => "Kanala pergalê",
        Idioma::Neerlandes => "Systeemkanaal",
        Idioma::Polaco => "Kanał systemowy",
        Idioma::PortuguesBrasil => "Canal do sistema",
        Idioma::Ruso => "Системный канал",
        Idioma::Turco => "Sistem kanalı",
        Idioma::Ucraniano => "Системний канал",
        Idioma::Vietnamita => "Kênh hệ thống",
        Idioma::ChinoSimplificado => "系统通道",
    }
}

/// The `stable` text in each language.
pub open spec fn t_stable_spec(idioma: Idioma) -> Seq<char> {
    match idioma {
        Idioma::BelarusLatino => "Stabiłny"@,
        Idioma::Belarus => "Стабільны"@,
        Idioma::Catalan | Idioma::Espanol | Idioma::Gallego => "Estable"@,
        Idioma::Checo => "Stabilní"@,
        Idioma::Aleman | Idioma::Hungaro | Idioma::NoruegoNynorsk | Idioma::Sueco => "Stabil"@,
        Idioma::Ingles | Idioma::Frances | Idioma::Kurdo => "Stable"@,
        Idioma::Italiano => "Stabile"@,
        Idioma::Coreano => "안정적"@,
        Idioma::Neerlandes => "Stabiel"@,
        Idioma::Polaco => "Stabilny"@,
        Idioma::PortuguesBrasil => "Estável"@,
        Idioma::Ruso => "Стабильный"@,
        Idioma::Turco => "Kararlı"@,
        Idioma::Ucraniano => "Стабільний"@,
        Idioma::Vietnamita => "Ổn định"@,
        Idioma::ChinoSimplificado => "稳定"@,
    }
}

pub fn t_stable(idioma: Idioma) -> (r: &'static str)
    ensures
        r@ == t_stable_spec(idioma),
{
    match idioma {
        Idioma::BelarusLatino => "Stabiłny",
        Idioma::Belarus => "Стабільны",
        Idioma::Catalan | Idioma::Espanol | Idioma::Gallego => "Estable",
        Idioma::Checo => "Stabilní",
        Idioma::Aleman | Idioma::Hungaro | Idioma::NoruegoNynorsk | Idioma::Sueco => "Stabil",
        Idioma::Ingles | Idioma::Frances | Idioma::Kurdo => "Stable",
        Idioma::Italiano => "Stabile",
        Idioma::Coreano => "안정적",
        Idioma::Neerlandes => "Stabiel",
        Idioma::Polaco => "Stabilny",
        Idioma::PortuguesBrasil => "Estável",
        Idioma::Ruso => "Стабильный",
        Idioma::Turco => "Kararlı",
        Idioma::Ucraniano => "Стабільний",
        Idioma::Vietnamita => "Ổn định",
        Idioma::ChinoSimplificado => "稳定",
    }
}

/// The `unstable` text in each language.
pub open spec fn t_unstable_spec(idioma: Idioma) -> Seq<char> {
    match idioma {
        Idioma::BelarusLatino => "Njaŭstojłivy"@,
        Idioma::Belarus => "Нестабільны"@,
        Idioma::Catalan | Idioma::Espanol | Idioma::Gallego => "Inestable"@,
        Idioma::Checo => "Nestabilní"@,
        Idioma::Aleman | Idioma::Hungaro | Idioma::Sueco => "Instabil"@,
        Idioma::Ingles => "Unstable"@,
        Idioma::Frances => "Instable"@,
        Idioma::Italiano => "Instabile"@,
        Idioma::Coreano => "불안정"@,
        Idioma::Kurdo => "Bêîstîqrar"@,
        Idioma::Neerlandes => "Instabiel"@,
        Idioma::NoruegoNynorsk => "Ustabil"@,
        Idioma::Polaco => "Niestabilny"@,
        Idioma::PortuguesBrasil => "Instável"@,
        Idioma::Ruso => "Нестабильный"@,
        Idioma::Turco => "Kararsız"@,
        Idioma::Ucraniano => "Нестабільний"@,
        Idioma::Vietnamita => "Không ổn định"@,
        Idioma::ChinoSimplificado => "不稳定"@,
    }
}

pub fn t_unstable(idioma: Idioma) -> (r: &'static str)
    ensures
        r@ == t_unstable_spec(idioma),
{
    match idioma {
        Idioma::BelarusLatino => "Njaŭstojłivy",
        Idioma::Belarus => "Нестабільны",
        Idioma::Catalan | Idioma::Espanol | Idioma::Gallego => "Inestable",
        Idioma::Checo => "Nestabilní",
        Idioma::Aleman | Idioma::Hungaro | Idioma::Sueco => "Instabil",
        Idioma::Ingles => "Unstable",
        Idioma::Frances => "Instable",
        Idioma::Italiano => "Instabile",
        Idioma::Coreano => "불안정",
        Idioma::Kurdo => "Bêîstîqrar",
        Idioma::Neerlandes => "Instabiel",
        Idioma::NoruegoNynorsk => "Ustabil",
        Idioma::Polaco => "Niestabilny",
        Idioma::PortuguesBrasil => "Instável",
        Idioma::Ruso => "Нестабильный",
        Idioma::Turco => "Kararsız",
        Idioma::Ucraniano => "Нестабільний",
        Idioma::Vietnamita => "Không ổn định",
        Idioma::ChinoSimplificado => "不稳定",
    }
}

/// The `prepare` text in each language.
pub open spec fn t_prepare_spec(idioma: Idioma) -> Seq<char> {
    match idioma {
        Idioma::BelarusLatino => "Rychtujcje zmjenu"@,
        Idioma::Belarus => "Падрыхтуйце змену"@,
        Idioma::Catalan => "Prepara el canvi"@,
        Idioma::Checo => "Připravte změnu"@,
        Idioma::Aleman => "Änderung vorbereiten"@,
        Idioma::Ingles => "Prepare change"@,
        Idioma::Espanol => "Preparar cambio"@,
        Idioma::Frances => "Préparer le changement"@,
        Idioma::Gallego => "Preparar o cambio"@,
        Idioma::Hungaro => "Változtatás előkészítése"@,
        Idioma::Italiano => "Prepara la modifica"@,
        Idioma::Coreano => "변경 준비"@,
        Idioma::Kurdo => "Guherînê amade bike"@,
        Idioma::Neerlandes => "Wijziging voorbereiden"@,
        Idioma::NoruegoNynorsk => "Forbered endring"@,
        Idioma::Polaco => "Przygotuj zmianę"@,
        Idioma::PortuguesBrasil => "Preparar a mudança"@,
        Idioma::Ruso => "Подготовить изменение"@,
        Idioma::Sueco => "Förbered förändring"@,
        Idioma::Turco => "Değişikliği hazırla"@,
        Idioma::Ucraniano => "Підготуйте зміни"@,
        Idioma::Vietnamita => "Chuẩn bị thay đổi"@,
        Idioma::ChinoSimplificado => "准备零钱"@,
    }
}

pub fn t_prepare(idioma: Idioma) -> (r: &'static str)
    ensures
        r@ == t_prepare_spec(idioma),
{
    match idioma {
        Idioma::BelarusLatino => "Rychtujcje zmjenu",
        Idioma::Belarus => "Падрыхтуйце змену",
        Idioma::Catalan => "Prepara el canvi",
        Idioma::Checo => "Připravte změnu",
        Idioma::Aleman => "Änderung vorbereiten",
        Idioma::Ingles => "Prepare change",
        Idioma::Espanol => "Preparar cambio",
        Idioma::Frances => "Préparer le changement",
        Idioma::Gallego => "Preparar o cambio",
        Idioma::Hungaro => "Változtatás előkészítése",
        Idioma::Italiano => "Prepara la modifica",
        Idioma::Coreano => "변경 준비",
        Idioma::Kurdo => "Guherînê amade bike",
        Idioma::Neerlandes => "Wijziging voorbereiden",
        Idioma::NoruegoNynorsk => "Forbered endring",
        Idioma::Polaco => "Przygotuj zmianę",
        Idioma::PortuguesBrasil => "Preparar a mudança",
        Idioma::Ruso => "Подготовить изменение",
        Idioma::Sueco => "Förbered förändring",
        Idioma::Turco => "Değişikliği hazırla",
        Idioma::Ucraniano => "Підготуйте зміни",
        Idioma::Vietnamita => "Chuẩn bị thay đổi",
        Idioma::ChinoSimplificado => "准备零钱",
    }
}

/// The `configured` text in each language.
pub open spec fn t_configured_spec(idioma: Idioma) -> Seq<char> {
    match idioma {
        Idioma::BelarusLatino => "Naładžana"@,
        Idioma::Belarus => "Наладжаны"@,
        Idioma::Catalan => "Configurat"@,
        Idioma::Checo => "Nakonfigurováno"@,
        Idioma::Aleman => "Konfiguriert"@,
        Idioma::Ingles => "Configured"@,
        Idioma::Espanol | Idioma::Gallego | Idioma::PortuguesBrasil => "Configurado"@,
        Idioma::Frances => "Configuré"@,
        Idioma::Hungaro => "Beállítva"@,
        Idioma::Italiano => "Configurato"@,
        Idioma::Coreano => "구성됨"@,
        Idioma::Kurdo => "Mîheng kirin"@,
        Idioma::Neerlandes => "Geconfigureerd"@,
        Idioma::NoruegoNynorsk => "Konfigurert"@,
        Idioma::Polaco => "Skonfigurowano"@,
        Idioma::Ruso => "Настроено"@,
        Idioma::Sueco => "Konfigurerad"@,
        Idioma::Turco => "Yapılandırılmış"@,
        Idioma::Ucraniano => "Налаштовано"@,
        Idioma::Vietnamita => "Đã định cấu hình"@,
        Idioma::ChinoSimplificado => "已配置"@,
    }
}

pub fn t_configured(idioma: Idioma) -> (r: &'static str)
    ensures
        r@ == t_configured_spec(idioma),
{
    match idioma {
        Idioma::BelarusLatino => "Naładžana",
        Idioma::Belarus => "Наладжаны",
        Idioma::Catalan => "Configurat",
        Idioma::Checo => "Nakonfigurováno",
        Idioma::Aleman => "Konfiguriert",
        Idioma::Ingles => "Configured",
        Idioma::Espanol | Idioma::Gallego | Idioma::PortuguesBrasil => "Configurado",
        Idioma::Frances => "Configuré",
        Idioma::Hungaro => "Beállítva",
        Idioma::Italiano => "Configurato",
        Idioma::Coreano => "구성됨",
        Idioma::Kurdo => "Mîheng kirin",
        Idioma::Neerlandes => "Geconfigureerd",
        Idioma::NoruegoNynorsk => "Konfigurert",
        Idioma::Polaco => "Skonfigurowano",
        Idioma::Ruso => "Настроено",
        Idioma::Sueco => "Konfigurerad",
        Idioma::Turco => "Yapılandırılmış",
        Idioma::Ucraniano => "Налаштовано",
        Idioma::Vietnamita => "Đã định cấu hình",
        Idioma::ChinoSimplificado => "已配置",
    }
}

/// The `target_channel` text in each language.
pub open spec fn t_target_channel_spec(idioma: Idioma) -> Seq<char> {
    match idioma {
        Idioma::BelarusLatino => "Novy kanał"@,
        Idioma::Belarus => "Новы канал"@,
        Idioma::Catalan => "Canal nou"@,
        Idioma::Checo => "Nový kanál"@,
        Idioma::Aleman => "Neuer Kanal"@,
        Idioma::Ingles => "New channel"@,
        Idioma::Espanol => "Nuevo canal"@,
        Idioma::Frances => "Nouvelle chaîne"@,
        Idioma::Gallego => "Nova canle"@,
        Idioma::Hungaro => "Új csatorna"@,
        Idioma::Italiano => "Nuovo canale"@,
        Idioma::Coreano => "새 채널"@,
        Idioma::Kurdo => "Kanala nû"@,
        Idioma::Neerlandes => "Nieuw kanaal"@,
        Idioma::NoruegoNynorsk | Idioma::Sueco => "Ny kanal"@,
        Idioma::Polaco => "Nowy kanał"@,
        Idioma::PortuguesBrasil => "Novo canal"@,
        Idioma::Ruso => "Новый канал"@,
        Idioma::Turco => "Yeni kanal"@,
        Idioma::Ucraniano => "Новий канал"@,
        Idioma::Vietnamita => "Kênh mới"@,
        Idioma::ChinoSimplificado => "新频道"@,
    }
}

pub fn t_target_channel(idioma: Idioma) -> (r: &'static str)
    ensures
        r@ == t_target_channel_spec(idioma),
{
    match idioma {
        Idioma::BelarusLatino => "Novy kanał",
        Idioma::Belarus => "Новы канал",
        Idioma::Catalan => "Canal nou",
        Idioma::Checo => "Nový kanál",
        Idioma::Aleman => "Neuer Kanal",
        Idioma::Ingles => "New channel",
        Idioma::Espanol => "Nuevo canal",
        Idioma::Frances => "Nouvelle chaîne",
        Idioma::Gallego => "Nova canle",
        Idioma::Hungaro => "Új csatorna",
        Idioma::Italiano => "Nuovo canale",
        Idioma::Coreano => "새 채널",
        Idioma::Kurdo => "Kanala nû",
        Idioma::Neerlandes => "Nieuw kanaal",
        Idioma::NoruegoNynorsk | Idioma::Sueco => "Ny kanal",
        Idioma::Polaco => "Nowy kanał",
        Idioma::PortuguesBrasil => "Novo canal",
        Idioma::Ruso => "Новый канал",
        Idioma::Turco => "Yeni kanal",
        Idioma::Ucraniano => "Новий канал",
        Idioma::Vietnamita => "Kênh mới",
        Idioma::ChinoSimplificado => "新频道",
    }
}

/// The `change` text in each language.
pub open spec fn t_change_spec(idioma: Idioma) -> Seq<char> {
    match idioma {
        Idioma::BelarusLatino => "Zmjena"@,
        Idioma::Belarus => "Змена"@,
        Idioma::Catalan => "Canvi"@,
        Idioma::Checo => "Změna"@,
        Idioma::Aleman => "Änderung"@,
        Idioma::Ingles => "Change"@,
        Idioma::Espanol => "Cambio"@,
        Idioma::Frances => "Modification"@,
        Idioma::Gallego => "Cambiar"@,
        Idioma::Hungaro => "Módosítás"@,
        Idioma::Italiano => "Modifica"@,
        Idioma::Coreano => "변경"@,
        Idioma::Kurdo => "Guhertin"@,
        Idioma::Neerlandes => "Wijziging"@,
        Idioma::NoruegoNynorsk => "Endre"@,
        Idioma::Polaco => "Zmień"@,
        Idioma::PortuguesBrasil => "Alteração"@,
        Idioma::Ruso => "Изменить"@,
        Idioma::Sueco => "Ändra"@,
        Idioma::Turco => "Değiştir"@,
        Idioma::Ucraniano => "Змінити"@,
        Idioma::Vietnamita => "Thay đổi"@,
        Idioma::ChinoSimplificado => "更改"@,
    }
}

pub fn t_change(idioma: Idioma) -> (r: &'static str)
    ensures
        r@ == t_change_spec(idioma),
{
    match idioma {
        Idioma::BelarusLatino => "Zmjena",
        Idioma::Belarus => "Змена",
        Idioma::Catalan => "Canvi",
        Idioma::Checo => "Změna",
        Idioma::Aleman => "Änderung",
        Idioma::Ingles => "Change",
        Idioma::Espanol => "Cambio",
        Idioma::Frances => "Modification",
        Idioma::Gallego => "Cambiar",
        Idioma::Hungaro => "Módosítás",
        Idioma::Italiano => "Modifica",
        Idioma::Coreano => "변경",
        Idioma::Kurdo => "Guhertin",
        Idioma::Neerlandes => "Wijziging",
        Idioma::NoruegoNynorsk => "Endre",
        Idioma::Polaco => "Zmień",
        Idioma::PortuguesBrasil => "Alteração",
        Idioma::Ruso => "Изменить",
        Idioma::Sueco => "Ändra",
        Idioma::Turco => "Değiştir",
        Idioma::Ucraniano => "Змінити",
        Idioma::Vietnamita => "Thay đổi",
        Idioma::ChinoSimplificado => "更改",
    }
}

/// The `confirm_channel` text in each language.
pub open spec fn t_confirm_channel_spec(idioma: Idioma) -> Seq<char> {
    match idioma {
        Idioma::BelarusLatino => "Pacvjerdzicje zmjenu kanała"@,
        Idioma::Belarus => "Пацвердзіць змену канала"@,
        Idioma::Catalan => "Confirmeu el canvi de canal"@,
        Idioma::Checo => "Potvrďte změnu kanálu"@,
        Idioma::Aleman => "Kanalwechsel bestätigen"@,
        Idioma::Ingles => "Confirm channel change"@,
        Idioma::Espanol => "Confirmar cambio de canal"@,
        Idioma::Frances => "Confirmer le changement de chaîne"@,
        Idioma::Gallego => "Confirmar o cambio de canle"@,
        Idioma::Hungaro => "Csatornaváltás megerősítése"@,
        Idioma::Italiano => "Conferma cambio canale"@,
        Idioma::Coreano => "채널 변경 확인"@,
        Idioma::Kurdo => "Guhertina kanalê piştrast bike"@,
        Idioma::Neerlandes => "Kanaalwijziging bevestigen"@,
        Idioma::NoruegoNynorsk => "Bekreft kanalbytte"@,
        Idioma::Polaco => "Potwierdź zmianę kanału"@,
        Idioma::PortuguesBrasil => "Confirme a mudança de canal"@,
        Idioma::Ruso => "Подтвердить смену канала"@,
        Idioma::Sueco => "Bekräfta kanalbyte"@,
        Idioma::Turco => "Kanal değişikliğini onayla"@,
        Idioma::Ucraniano => "Підтвердити зміну каналу"@,
        Idioma::Vietnamita => "Xác nhận thay đổi kênh"@,
        Idioma::ChinoSimplificado => "确认频道变更"@,
    }
}

pub fn t_confirm_channel(idioma: Idioma) -> (r: &'static str)
    ensures
        r@ == t_confirm_channel_spec(idioma),
{
    match idioma {
        Idioma::BelarusLatino => "Pacvjerdzicje zmjenu kanała",
        Idioma::Belarus => "Пацвердзіць змену канала",
        Idioma::Catalan => "Confirmeu el canvi de canal",
        Idioma::Checo => "Potvrďte změnu kanálu",
        Idioma::Aleman => "Kanalwechsel bestätigen",
        Idioma::Ingles => "Confirm channel change",
        Idioma::Espanol => "Confirmar cambio de canal",
        Idioma::Frances => "Confirmer le changement de chaîne",
        Idioma::Gallego => "Confirmar o cambio de canle",
        Idioma::Hungaro => "Csatornaváltás megerősítése",
        Idioma::Italiano => "Conferma cambio canale",
        Idioma::Coreano => "채널 변경 확인",
        Idioma::Kurdo => "Guhertina kanalê piştrast bike",
        Idioma::Neerlandes => "Kanaalwijziging bevestigen",
        Idioma::NoruegoNynorsk => "Bekreft kanalbytte",
        Idioma::Polaco => "Potwierdź zmianę kanału",
        Idioma::PortuguesBrasil => "Confirme a mudança de canal",
        Idioma::Ruso => "Подтвердить смену канала",
        Idioma::Sueco => "Bekräfta kanalbyte",
        Idioma::Turco => "Kanal değişikliğini onayla",
        Idioma::Ucraniano => "Підтвердити зміну каналу",
        Idioma::Vietnamita => "Xác nhận thay đổi kênh",
        Idioma::ChinoSimplificado => "确认频道变更",
    }
}

/// The `cancel` text in each language.
pub open spec fn t_cancel_spec(idioma: Idioma) -> Seq<char> {
    match idioma {
        Idioma::BelarusLatino => "Admjanic"@,
        Idioma::Belarus => "Скасаваць"@,
        Idioma::Catalan => "Cancel·la"@,
        Idioma::Checo => "Zrušit"@,
        Idioma::Aleman => "Abbrechen"@,
        Idioma::Ingles => "Cancel"@,
        Idioma::Espanol | Idioma::Gallego | Idioma::PortuguesBrasil => "Cancelar"@,
        Idioma::Frances => "Annuler"@,
        Idioma::Hungaro => "Mégse"@,
        Idioma::Italiano => "Annulla"@,
        Idioma::Coreano => "취소"@,
        Idioma::Kurdo => "Têk bibe"@,
        Idioma::Neerlandes => "Annuleren"@,
        Idioma::NoruegoNynorsk | Idioma::Sueco => "Avbryt"@,
        Idioma::Polaco => "Anuluj"@,
        Idioma::Ruso => "Отменить"@,
        Idioma::Turco => "İptal"@,
        Idioma::Ucraniano => "Скасувати"@,
        Idioma::Vietnamita => "Hủy"@,
        Idioma::ChinoSimplificado => "取消"@,
    }
}

pub fn t_cancel(idioma: Idioma) -> (r: &'static str)
    ensures
        r@ == t_cancel_spec(idioma),
{
    match idioma {
        Idioma::BelarusLatino => "Admjanic",
        Idioma::Belarus => "Скасаваць",
        Idioma::Catalan => "Cancel·la",
        Idioma::Checo => "Zrušit",
        Idioma::Aleman => "Abbrechen",
        Idioma::Ingles => "Cancel",
        Idioma::Espanol | Idioma::Gallego | Idioma::PortuguesBrasil => "Cancelar",
        Idioma::Frances => "Annuler",
        Idioma::Hungaro => "Mégse",
        Idioma::Italiano => "Annulla",
        Idioma::Coreano => "취소",
        Idioma::Kurdo => "Têk bibe",
        Idioma::Neerlandes => "Annuleren",
        Idioma::NoruegoNynorsk | Idioma::Sueco => "Avbryt",
        Idioma::Polaco => "Anuluj",
        Idioma::Ruso => "Отменить",
        Idioma::Turco => "İptal",
        Idioma::Ucraniano => "Скасувати",
        Idioma::Vietnamita => "Hủy",
        Idioma::ChinoSimplificado => "取消",
    }
}

/// The `apply_change` text in each language.
pub open spec fn t_apply_change_spec(idioma: Idioma) -> Seq<char> {
    match idioma {
        Idioma::BelarusLatino => "Užyc zmjeny"@,
        Idioma::Belarus => "Прымяніць змены"@,
        Idioma::Catalan => "Aplica el canvi"@,
        Idioma::Checo => "Použít změnu"@,
        Idioma::Aleman => "Änderung übernehmen"@,
        Idioma::Ingles => "Apply change"@,
        Idioma::Espanol => "Aplicar cambio"@,
        Idioma::Frances => "Appliquer la modification"@,
        Idioma::Gallego => "Aplicar o cambio"@,
        Idioma::Hungaro => "Módosítás alkalmazása"@,
        Idioma::Italiano => "Applica la modifica"@,
        Idioma::Coreano => "변경 사항 적용"@,
        Idioma::Kurdo => "Guherînê bi kar bîne"@,
        Idioma::Neerlandes => "Wijziging toepassen"@,
        Idioma::NoruegoNynorsk => "Bruk endring"@,
        Idioma::Polaco => "Zastosuj zmianę"@,
        Idioma::PortuguesBrasil => "Aplicar alteração"@,
        Idioma::Ruso => "Применить изменение"@,
        Idioma::Sueco => "Tillämpa ändring"@,
        Idioma::Turco => "Değişikliği uygula"@,
        Idioma::Ucraniano => "Застосувати зміни"@,
        Idioma::Vietnamita => "Áp dụng thay đổi"@,
        Idioma::ChinoSimplificado => "应用更改"@,
    }
}

pub fn t_apply_change(idioma: Idioma) -> (r: &'static str)
    ensures
        r@ == t_apply_change_spec(idioma),
{
    match idioma {
        Idioma::BelarusLatino => "Užyc zmjeny",
        Idioma::Belarus => "Прымяніць змены",
        Idioma::Catalan => "Aplica el canvi",
        Idioma::Checo => "Použít změnu",
        Idioma::Aleman => "Änderung übernehmen",
        Idioma::Ingles => "Apply change",
        Idioma::Espanol => "Aplicar cambio",
        Idioma::Frances => "Appliquer la modification",
        Idioma::Gallego => "Aplicar o cambio",
        Idioma::Hungaro => "Módosítás alkalmazása",
        Idioma::Italiano => "Applica la modifica",
        Idioma::Coreano => "변경 사항 적용",
        Idioma::Kurdo => "Guherînê bi kar bîne",
        Idioma::Neerlandes => "Wijziging toepassen",
        Idioma::NoruegoNynorsk => "Bruk endring",
        Idioma::Polaco => "Zastosuj zmianę",
        Idioma::PortuguesBrasil => "Aplicar alteração",
        Idioma::Ruso => "Применить изменение",
        Idioma::Sueco => "Tillämpa ändring",
        Idioma::Turco => "Değişikliği uygula",
        Idioma::Ucraniano => "Застосувати зміни",
        Idioma::Vietnamita => "Áp dụng thay đổi",
        Idioma::ChinoSimplificado => "应用更改",
    }
}

/// The `no_change` text in each language.
pub open spec fn t_no_change_spec(idioma: Idioma) -> Seq<char> {
    match idioma {
        Idioma::BelarusLatino => "Spačatku vybjerycje inšy kanał."@,
        Idioma::Belarus => "Спачатку абярыце іншы канал."@,
        Idioma::Catalan => "Trieu primer un canal diferent."@,
        Idioma::Checo => "Nejprve vyberte jiný kanál."@,
        Idioma::Aleman => "Wählen Sie zunächst einen anderen Kanal."@,
        Idioma::Ingles | Idioma::Turco => "Choose a different channel first."@,
        Idioma::Espanol => "Elige primero un canal distinto."@,
        Idioma::Frances => "Choisissez d'abord un autre canal."@,
        Idioma::Gallego => "Escolla primeiro unha canle diferente."@,
        Idioma::Hungaro => "Előbb válassz másik csatornát."@,
        Idioma::Italiano => "Scegli prima un canale diverso."@,
        Idioma::Coreano => "먼저 다른 채널을 선택하세요."@,
        Idioma::Kurdo => "Pêşî kanaleke cuda hilbijêre."@,
        Idioma::Neerlandes => "Kies eerst een ander kanaal."@,
        Idioma::NoruegoNynorsk => "Velg en annen kanal først."@,
        Idioma::Polaco => "Najpierw wybierz inny kanał."@,
        Idioma::PortuguesBrasil => "Escolha primeiro um canal diferente."@,
        Idioma::Ruso => "Сначала выберите другой канал."@,
        Idioma::Sueco => "Välj en annan kanal först."@,
        Idioma::Ucraniano => "Спочатку виберіть інший канал."@,
        Idioma::Vietnamita => "Trước tiên hãy chọn một kênh khác."@,
        Idioma::ChinoSimplificado => "首先选择不同的频道。"@,
    }
}

pub fn t_no_change(idioma: Idioma) -> (r: &'static str)
    ensures
        r@ == t_no_change_spec(idioma),
{
    match idioma {
        Idioma::BelarusLatino => "Spačatku vybjerycje inšy kanał.",
        Idioma::Belarus => "Спачатку абярыце іншы канал.",
        Idioma::Catalan => "Trieu primer un canal diferent.",
        Idioma::Checo => "Nejprve vyberte jiný kanál.",
        Idioma::Aleman => "Wählen Sie zunächst einen anderen Kanal.",
        Idioma::Ingles | Idioma::Turco => "Choose a different channel first.",
        Idioma::Espanol => "Elige primero un canal distinto.",
        Idioma::Frances => "Choisissez d'abord un autre canal.",
        Idioma::Gallego => "Escolla primeiro unha canle diferente.",
        Idioma::Hungaro => "Előbb válassz másik csatornát.",
        Idioma::Italiano => "Scegli prima un canale diverso.",
        Idioma::Coreano => "먼저 다른 채널을 선택하세요.",
        Idioma::Kurdo => "Pêşî kanaleke cuda hilbijêre.",
        Idioma::Neerlandes => "Kies eerst een ander kanaal.",
        Idioma::NoruegoNynorsk => "Velg en annen kanal først.",
        Idioma::Polaco => "Najpierw wybierz inny kanał.",
        Idioma::PortuguesBrasil => "Escolha primeiro um canal diferente.",
        Idioma::Ruso => "Сначала выберите другой канал.",
        Idioma::Sueco => "Välj en annan kanal först.",
        Idioma::Ucraniano => "Спочатку виберіть інший канал.",
        Idioma::Vietnamita => "Trước tiên hãy chọn một kênh khác.",
        Idioma::ChinoSimplificado => "首先选择不同的频道。",
    }
}

/// The `plan_failed` text in each language.
pub open spec fn t_plan_failed_spec(idioma: Idioma) -> Seq<char> {
    match idioma {
        Idioma::BelarusLatino => "Nje ŭdałosja padrychtavac papjaredni prahłjad zmjanjennjaŭ."@,
        Idioma::Belarus => "Не ўдалося падрыхтаваць папярэдні прагляд змяненняў."@,
        Idioma::Catalan => "No s'ha pogut preparar la previsualització del canvi."@,
        Idioma::Checo => "Náhled změny nelze připravit."@,
        Idioma::Aleman => "Die Änderungsvorschau konnte nicht vorbereitet werden."@,
        Idioma::Ingles | Idioma::Turco => "The change preview could not be prepared."@,
        Idioma::Espanol => "No se pudo preparar la previsualización del cambio."@,
        Idioma::Frances => "L'aperçu des modifications n'a pas pu être préparé."@,
        Idioma::Gallego => "Non se puido preparar a vista previa do cambio."@,
        Idioma::Hungaro => "A módosítás előnézetét nem sikerült elkészíteni."@,
        Idioma::Italiano => "Impossibile preparare l'anteprima della modifica."@,
        Idioma::Coreano => "변경 미리보기를 준비할 수 없습니다."@,
        Idioma::Kurdo => "Pêşdîtina guherînê nehat amadekirin."@,
        Idioma::Neerlandes => "Het wijzigingsvoorbeeld kon niet worden voorbereid."@,
        Idioma::NoruegoNynorsk => "Forhåndsvisningen av endringen kunne ikke forberedes."@,
        Idioma::Polaco => "Nie można przygotować podglądu zmian."@,
        Idioma::PortuguesBrasil => "A visualização da mudança não pôde ser preparada."@,
        Idioma::Ruso => "Не удалось подготовить предварительный просмотр изменений."@,
        Idioma::Sueco => "Ändringsförhandsgranskningen kunde inte förberedas."@,
        Idioma::Ucraniano => "Не вдалося підготувати попередній перегляд змін."@,
        Idioma::Vietnamita => "Không thể chuẩn bị bản xem trước thay đổi."@,
        Idioma::ChinoSimplificado => "无法准备更改预览。"@,
    }
}

pub fn t_plan_failed(idioma: Idioma) -> (r: &'static str)
    ensures
        r@ == t_plan_failed_spec(idioma),
{
    match idioma {
        Idioma::BelarusLatino => "Nje ŭdałosja padrychtavac papjaredni prahłjad zmjanjennjaŭ.",
        Idioma::Belarus => "Не ўдалося падрыхтаваць папярэдні прагляд змяненняў.",
        Idioma::Catalan => "No s'ha pogut preparar la previsualització del canvi.",
        Idioma::Checo => "Náhled změny nelze připravit.",
        Idioma::Aleman => "Die Änderungsvorschau konnte nicht vorbereitet werden.",
        Idioma::Ingles | Idioma::Turco => "The change preview could not be prepared.",
        Idioma::Espanol => "No se pudo preparar la previsualización del cambio.",
        Idioma::Frances => "L'aperçu des modifications n'a pas pu être préparé.",
        Idioma::Gallego => "Non se puido preparar a vista previa do cambio.",
        Idioma::Hungaro => "A módosítás előnézetét nem sikerült elkészíteni.",
        Idioma::Italiano => "Impossibile preparare l'anteprima della modifica.",
        Idioma::Coreano => "변경 미리보기를 준비할 수 없습니다.",
        Idioma::Kurdo => "Pêşdîtina guherînê nehat amadekirin.",
        Idioma::Neerlandes => "Het wijzigingsvoorbeeld kon niet worden voorbereid.",
        Idioma::NoruegoNynorsk => "Forhåndsvisningen av endringen kunne ikke forberedes.",
        Idioma::Polaco => "Nie można przygotować podglądu zmian.",
        Idioma::PortuguesBrasil => "A visualização da mudança não pôde ser preparada.",
        Idioma::Ruso => "Не удалось подготовить предварительный просмотр изменений.",
        Idioma::Sueco => "Ändringsförhandsgranskningen kunde inte förberedas.",
        Idioma::Ucraniano => "Не вдалося підготувати попередній перегляд змін.",
        Idioma::Vietnamita => "Không thể chuẩn bị bản xem trước thay đổi.",
        Idioma::ChinoSimplificado => "无法准备更改预览。",
    }
}

/// The `sections` text in each language.
pub open spec fn t_sections_spec(idioma: Idioma) -> Seq<char> {
    match idioma {
        Idioma::BelarusLatino => "Razdzjeły"@,
        Idioma::Belarus => "Раздзелы"@,
        Idioma::Catalan => "Seccions"@,
        Idioma::Checo => "Sekce"@,
        Idioma::Aleman => "Abschnitte"@,
        Idioma::Ingles | Idioma::Frances => "Sections"@,
        Idioma::Espanol => "Secciones"@,
        Idioma::Gallego => "Seccións"@,
        Idioma::Hungaro => "Szakaszok"@,
        Idioma::Italiano => "Sezioni"@,
        Idioma::Coreano => "섹션"@,
        Idioma::Kurdo => "Beşên"@,
        Idioma::Neerlandes => "Secties"@,
        Idioma::NoruegoNynorsk => "Seksjoner"@,
        Idioma::Polaco => "Sekcje"@,
        Idioma::PortuguesBrasil => "Seções"@,
        Idioma::Ruso => "Разделы"@,
        Idioma::Sueco => "Avsnitt"@,
        Idioma::Turco => "Bölümler"@,
        Idioma::Ucraniano => "Розділи"@,
        Idioma::Vietnamita => "Phần"@,
        Idioma::ChinoSimplificado => "部分"@,
    }
}

pub fn t_sections(idioma: Idioma) -> (r: &'static str)
    ensures
        r@ == t_sections_spec(idioma),
{
    match idioma {
        Idioma::BelarusLatino => "Razdzjeły",
        Idioma::Belarus => "Раздзелы",
        Idioma::Catalan => "Seccions",
        Idioma::Checo => "Sekce",
        Idioma::Aleman => "Abschnitte",
        Idioma::Ingles | Idioma::Frances => "Sections",
        Idioma::Espanol => "Secciones",
        Idioma::Gallego => "Seccións",
        Idioma::Hungaro => "Szakaszok",
        Idioma::Italiano => "Sezioni",
        Idioma::Coreano => "섹션",
        Idioma::Kurdo => "Beşên",
        Idioma::Neerlandes => "Secties",
        Idioma::NoruegoNynorsk => "Seksjoner",
        Idioma::Polaco => "Sekcje",
        Idioma::PortuguesBrasil => "Seções",
        Idioma::Ruso => "Разделы",
        Idioma::Sueco => "Avsnitt",
        Idioma::Turco => "Bölümler",
        Idioma::Ucraniano => "Розділи",
        Idioma::Vietnamita => "Phần",
        Idioma::ChinoSimplificado => "部分",
    }
}

/// The `media` text in each language.
pub open spec fn t_media_spec(idioma: Idioma) -> Seq<char> {
    match idioma {
        Idioma::BelarusLatino => "Huk i kamjera"@,
        Idioma::Belarus => "Гук і камера"@,
        Idioma::Catalan => "So i càmera"@,
        Idioma::Checo => "Zvuk a kamera"@,
        Idioma::Aleman => "Ton und Kamera"@,
        Idioma::Ingles => "Sound and camera"@,
        Idioma::Espanol => "Sonido y cámara"@,
        Idioma::Frances => "Son et caméra"@,
        Idioma::Gallego => "Son e cámara"@,
        Idioma::Hungaro => "Hang és kamera"@,
        Idioma::Italiano => "Suono e fotocamera"@,
        Idioma::Coreano => "사운드 및 카메라"@,
        Idioma::Kurdo => "Deng û kamera"@,
        Idioma::Neerlandes => "Geluid en camera"@,
        Idioma::NoruegoNynorsk => "Lyd og kamera"@,
        Idioma::Polaco => "Dźwięk i kamera"@,
        Idioma::PortuguesBrasil => "Som e câmera"@,
        Idioma::Ruso => "Звук и камера"@,
        Idioma::Sueco => "Ljud och kamera"@,
        Idioma::Turco => "Ses ve kamera"@,
        Idioma::Ucraniano => "Звук і камера"@,
        Idioma::Vietnamita => "Âm thanh và camera"@,
        Idioma::ChinoSimplificado => "声音和摄像头"@,
    }
}

pub fn t_media(idioma: Idioma) -> (r: &'static str)
    ensures
        r@ == t_media_spec(idioma),
{
    match idioma {
        Idioma::BelarusLatino => "Huk i kamjera",
        Idioma::Belarus => "Гук і камера",
        Idioma::Catalan => "So i càmera",
        Idioma::Checo => "Zvuk a kamera",
        Idioma::Aleman => "Ton und Kamera",
        Idioma::Ingles => "Sound and camera",
        Idioma::Espanol => "Sonido y cámara",
        Idioma::Frances => "Son et caméra",
        Idioma::Gallego => "Son e cámara",
        Idioma::Hungaro => "Hang és kamera",
        Idioma::Italiano => "Suono e fotocamera",
        Idioma::Coreano => "사운드 및 카메라",
        Idioma::Kurdo => "Deng û kamera",
        Idioma::Neerlandes => "Geluid en camera",
        Idioma::NoruegoNynorsk => "Lyd og kamera",
        Idioma::Polaco => "Dźwięk i kamera",
        Idioma::PortuguesBrasil => "Som e câmera",
        Idioma::Ruso => "Звук и камера",
        Idioma::Sueco => "Ljud och kamera",
        Idioma::Turco => "Ses ve kamera",
        Idioma::Ucraniano => "Звук і камера",
        Idioma::Vietnamita => "Âm thanh và camera",
        Idioma::ChinoSimplificado => "声音和摄像头",
    }
}

/// The `storage` text in each language.
pub open spec fn t_storage_spec(idioma: Idioma) -> Seq<char> {
    match idioma {
        Idioma::BelarusLatino => "Zachoŭvannje"@,
        Idioma::Belarus => "Захоўванне"@,
        Idioma::Catalan => "Emmagatzematge"@,
        Idioma::Checo => "Úložiště"@,
        Idioma::Aleman => "Lagerung"@,
        Idioma::Ingles | Idioma::Kurdo => "Storage"@,
        Idioma::Espanol => "Almacenamiento"@,
        Idioma::Frances => "Stockage"@,
        Idioma::Gallego => "Almacenamento"@,
        Idioma::Hungaro => "Tárhely"@,
        Idioma::Italiano => "Deposito"@,
        Idioma::Coreano => "스토리지"@,
        Idioma::Neerlandes => "Opslag"@,
        Idioma::NoruegoNynorsk | Idioma::Sueco => "Lagring"@,
        Idioma::Polaco => "Przechowywanie"@,
        Idioma::PortuguesBrasil => "Armazenamento"@,
        Idioma::Ruso => "Хранение"@,
        Idioma::Turco => "Depolama"@,
        Idioma::Ucraniano => "Зберігання"@,
        Idioma::Vietnamita => "Lưu trữ"@,
        Idioma::ChinoSimplificado => "存储"@,
    }
}

pub fn t_storage(idioma: Idioma) -> (r: &'static str)
    ensures
        r@ == t_storage_spec(idioma),
{
    match idioma {
        Idioma::BelarusLatino => "Zachoŭvannje",
        Idioma::Belarus => "Захоўванне",
        Idioma::Catalan => "Emmagatzematge",
        Idioma::Checo => "Úložiště",
        Idioma::Aleman => "Lagerung",
        Idioma::Ingles | Idioma::Kurdo => "Storage",
        Idioma::Espanol => "Almacenamiento",
        Idioma::Frances => "Stockage",
        Idioma::Gallego => "Almacenamento",
        Idioma::Hungaro => "Tárhely",
        Idioma::Italiano => "Deposito",
        Idioma::Coreano => "스토리지",
        Idioma::Neerlandes => "Opslag",
        Idioma::NoruegoNynorsk | Idioma::Sueco => "Lagring",
        Idioma::Polaco => "Przechowywanie",
        Idioma::PortuguesBrasil => "Armazenamento",
        Idioma::Ruso => "Хранение",
        Idioma::Turco => "Depolama",
        Idioma::Ucraniano => "Зберігання",
        Idioma::Vietnamita => "Lưu trữ",
        Idioma::ChinoSimplificado => "存储",
    }
}

/// The `firmware_updates` text in each language.
pub open spec fn t_firmware_updates_spec(idioma: Idioma) -> Seq<char> {
    match idioma {
        Idioma::BelarusLatino => "Prašyŭka"@,
        Idioma::Belarus => "Прашыўка"@,
        Idioma::Catalan | Idioma::Checo | Idioma::Aleman | Idioma::Ingles | Idioma::Espanol | Idioma::Gallego | Idioma::Hungaro | Idioma::Italiano | Idioma::Kurdo | Idioma::Neerlandes | Idioma::PortuguesBrasil | Idioma::Sueco | Idioma::Turco => "Firmware"@,
        Idioma::Frances => "Micrologiciel"@,
        Idioma::Coreano => "펌웨어"@,
        Idioma::NoruegoNynorsk => "Fastvare"@,
        Idioma::Polaco => "Oprogramowanie sprzętowe"@,
        Idioma::Ruso | Idioma::Ucraniano => "Прошивка"@,
        Idioma::Vietnamita => "Phần sụn"@,
        Idioma::ChinoSimplificado => "固件"@,
    }
}

pub fn t_firmware_updates(idioma: Idioma) -> (r: &'static str)
    ensures
        r@ == t_firmware_updates_spec(idioma),
{
    match idioma {
        Idioma::BelarusLatino => "Prašyŭka",
        Idioma::Belarus => "Прашыўка",
        Idioma::Catalan | Idioma::Checo | Idioma::Aleman | Idioma::Ingles | Idioma::Espanol | Idioma::Gallego | Idioma::Hungaro | Idioma::Italiano | Idioma::Kurdo | Idioma::Neerlandes | Idioma::PortuguesBrasil | Idioma::Sueco | Idioma::Turco => "Firmware",
        Idioma::Frances => "Micrologiciel",
        Idioma::Coreano => "펌웨어",
        Idioma::NoruegoNynorsk => "Fastvare",
        Idioma::Polaco => "Oprogramowanie sprzętowe",
        Idioma::Ruso | Idioma::Ucraniano => "Прошивка",
        Idioma::Vietnamita => "Phần sụn",
        Idioma::ChinoSimplificado => "固件",
    }
}

/// The `maintenance` text in each language.
pub open spec fn t_maintenance_spec(idioma: Idioma) -> Seq<char> {
    match idioma {
        Idioma::BelarusLatino => "Techničnaje absłuhoŭvannje"@,
        Idioma::Belarus => "Тэхнічнае абслугоўванне"@,
        Idioma::Catalan => "Manteniment"@,
        Idioma::Checo => "Údržba"@,
        Idioma::Aleman => "Wartung"@,
        Idioma::Ingles | Idioma::Kurdo => "Maintenance"@,
        Idioma::Espanol => "Mantenimiento"@,
        Idioma::Frances => "Entretien"@,
        Idioma::Gallego => "Mantemento\nModelo __KX00064__"@,
        Idioma::Hungaro => "Karbantartás"@,
        Idioma::Italiano => "Manutenzione"@,
        Idioma::Coreano => "유지 관리"@,
        Idioma::Neerlandes => "Onderhoud"@,
        Idioma::NoruegoNynorsk => "Vedlikehold"@,
        Idioma::Polaco => "Konserwacja"@,
        Idioma::PortuguesBrasil => "Manutenção"@,
        Idioma::Ruso => "Техническое обслуживание"@,
        Idioma::Sueco => "Underhåll"@,
        Idioma::Turco => "Bakım"@,
        Idioma::Ucraniano => "Технічне обслуговування"@,
        Idioma::Vietnamita => "Bảo trì"@,
        Idioma::ChinoSimplificado => "维护"@,
    }
}

pub fn t_maintenance(idioma: Idioma) -> (r: &'static str)
    ensures
        r@ == t_maintenance_spec(idioma),
{
    match idioma {
        Idioma::BelarusLatino => "Techničnaje absłuhoŭvannje",
        Idioma::Belarus => "Тэхнічнае абслугоўванне",
        Idioma::Catalan => "Manteniment",
        Idioma::Checo => "Údržba",
        Idioma::Aleman => "Wartung",
        Idioma::Ingles | Idioma::Kurdo => "Maintenance",
        Idioma::Espanol => "Mantenimiento",
        Idioma::Frances => "Entretien",
        Idioma::Gallego => "Mantemento\nModelo __KX00064__",
        Idioma::Hungaro => "Karbantartás",
        Idioma::Italiano => "Manutenzione",
        Idioma::Coreano => "유지 관리",
        Idioma::Neerlandes => "Onderhoud",
        Idioma::NoruegoNynorsk => "Vedlikehold",
        Idioma::Polaco => "Konserwacja",
        Idioma::PortuguesBrasil => "Manutenção",
        Idioma::Ruso => "Техническое обслуживание",
        Idioma::Sueco => "Underhåll",
        Idioma::Turco => "Bakım",
        Idioma::Ucraniano => "Технічне обслуговування",
        Idioma::Vietnamita => "Bảo trì",
        Idioma::ChinoSimplificado => "维护",
    }
}

/// The `recovery` text in each language.
pub open spec fn t_recovery_spec(idioma: Idioma) -> Seq<char> {
    match idioma {
        Idioma::BelarusLatino => "Vjersii dłja adnaŭłjennja"@,
        Idioma::Belarus => "Версіі для аднаўлення"@,
        Idioma::Catalan => "Versions de recuperació"@,
        Idioma::Checo => "Verze pro obnovení"@,
        Idioma::Aleman => "Wiederherstellungsversionen"@,
        Idioma::Ingles => "Recovery versions"@,
        Idioma::Espanol => "Versiones para recuperación"@,
        Idioma::Frances => "Versions de récupération"@,
        Idioma::Gallego => "Versións de recuperación"@,
        Idioma::Hungaro => "Helyreállítási verziók"@,
        Idioma::Italiano => "Versioni di ripristino"@,
        Idioma::Coreano => "복구 버전"@,
        Idioma::Kurdo => "Guhertoyên hilanînê"@,
        Idioma::Neerlandes => "Herstelversies"@,
        Idioma::NoruegoNynorsk => "Gjenopprettingsversjoner"@,
        Idioma::Polaco => "Wersje odzyskiwania"@,
        Idioma::PortuguesBrasil => "Versões de recuperação"@,
        Idioma::Ruso => "Версии восстановления"@,
        Idioma::Sueco => "Återställningsversioner"@,
        Idioma::Turco => "Kurtarma sürümleri"@,
        Idioma::Ucraniano => "Версії для відновлення"@,
        Idioma::Vietnamita => "Phiên bản khôi phục"@,
        Idioma::ChinoSimplificado => "恢复版本"@,
    }
}

pub fn t_recovery(idioma: Idioma) -> (r: &'static str)
    ensures
        r@ == t_recovery_spec(idioma),
{
    match idioma {
        Idioma::BelarusLatino => "Vjersii dłja adnaŭłjennja",
        Idioma::Belarus => "Версіі для аднаўлення",
        Idioma::Catalan => "Versions de recuperació",
        Idioma::Checo => "Verze pro obnovení",
        Idioma::Aleman => "Wiederherstellungsversionen",
        Idioma::Ingles => "Recovery versions",
        Idioma::Espanol => "Versiones para recuperación",
        Idioma::Frances => "Versions de récupération",
        Idioma::Gallego => "Versións de recuperación",
        Idioma::Hungaro => "Helyreállítási verziók",
        Idioma::Italiano => "Versioni di ripristino",
        Idioma::Coreano => "복구 버전",
        Idioma::Kurdo => "Guhertoyên hilanînê",
        Idioma::Neerlandes => "Herstelversies",
        Idioma::NoruegoNynorsk => "Gjenopprettingsversjoner",
        Idioma::Polaco => "Wersje odzyskiwania",
        Idioma::PortuguesBrasil => "Versões de recuperação",
        Idioma::Ruso => "Версии восстановления",
        Idioma::Sueco => "Återställningsversioner",
        Idioma::Turco => "Kurtarma sürümleri",
        Idioma::Ucraniano => "Версії для відновлення",
        Idioma::Vietnamita => "Phiên bản khôi phục",
        Idioma::ChinoSimplificado => "恢复版本",
    }
}

/// The `cleanup` text in each language.
pub open spec fn t_cleanup_spec(idioma: Idioma) -> Seq<char> {
    match idioma {
        Idioma::BelarusLatino => "Ačystka"@,
        Idioma::Belarus => "Ачыстка"@,
        Idioma::Catalan => "Neteja"@,
        Idioma::Checo => "Vyčištění"@,
        Idioma::Aleman => "Bereinigung"@,
        Idioma::Ingles => "Cleanup"@,
        Idioma::Espanol => "Limpieza"@,
        Idioma::Frances => "Nettoyage"@,
        Idioma::Gallego | Idioma::PortuguesBrasil => "Limpeza"@,
        Idioma::Hungaro => "Tisztítás"@,
        Idioma::Italiano => "Pulizia"@,
        Idioma::Coreano => "정리"@,
        Idioma::Kurdo => "Paqijkirin"@,
        Idioma::Neerlandes => "Opruimen"@,
        Idioma::NoruegoNynorsk => "Opprydding"@,
        Idioma::Polaco => "Czyszczenie"@,
        Idioma::Ruso => "Очистка"@,
        Idioma::Sueco => "Rensning"@,
        Idioma::Turco => "Temizleme"@,
        Idioma::Ucraniano => "Очищення"@,
        Idioma::Vietnamita => "Dọn dẹp"@,
        Idioma::ChinoSimplificado => "清理"@,
    }
}

pub fn t_cleanup(idioma: Idioma) -> (r: &'static str)
    ensures
        r@ == t_cleanup_spec(idioma),
{
    match idioma {
        Idioma::BelarusLatino => "Ačystka",
        Idioma::Belarus => "Ачыстка",
        Idioma::Catalan => "Neteja",
        Idioma::Checo => "Vyčištění",
        Idioma::Aleman => "Bereinigung",
        Idioma::Ingles => "Cleanup",
        Idioma::Espanol => "Limpieza",
        Idioma::Frances => "Nettoyage",
        Idioma::Gallego | Idioma::PortuguesBrasil => "Limpeza",
        Idioma::Hungaro => "Tisztítás",
        Idioma::Italiano => "Pulizia",
        Idioma::Coreano => "정리",
        Idioma::Kurdo => "Paqijkirin",
        Idioma::Neerlandes => "Opruimen",
        Idioma::NoruegoNynorsk => "Opprydding",
        Idioma::Polaco => "Czyszczenie",
        Idioma::Ruso => "Очистка",
        Idioma::Sueco => "Rensning",
        Idioma::Turco => "Temizleme",
        Idioma::Ucraniano => "Очищення",
        Idioma::Vietnamita => "Dọn dẹp",
        Idioma::ChinoSimplificado => "清理",
    }
}

/// The `normal_cleanup` text in each language.
pub open spec fn t_normal_cleanup_spec(idioma: Idioma) -> Seq<char> {
    match idioma {
        Idioma::BelarusLatino => "Rekamjendavanaja ačystka"@,
        Idioma::Belarus => "Рэкамендаваная ачыстка"@,
        Idioma::Catalan => "Neteja recomanada"@,
        Idioma::Checo => "Doporučené čištění"@,
        Idioma::Aleman => "Empfohlene Bereinigung"@,
        Idioma::Ingles => "Recommended cleanup"@,
        Idioma::Espanol => "Limpieza recomendada"@,
        Idioma::Frances => "Nettoyage recommandé"@,
        Idioma::Gallego | Idioma::PortuguesBrasil => "Limpeza recomendada"@,
        Idioma::Hungaro => "Ajánlott tisztítás"@,
        Idioma::Italiano => "Pulizia consigliata"@,
        Idioma::Coreano => "권장 정리"@,
        Idioma::Kurdo => "Paqijkirina pêşniyar kirin"@,
        Idioma::Neerlandes => "Aanbevolen schoonmaakbeurt"@,
        Idioma::NoruegoNynorsk => "Anbefalt opprydding"@,
        Idioma::Polaco => "Zalecane czyszczenie"@,
        Idioma::Ruso => "Рекомендуемая очистка"@,
        Idioma::Sueco => "Rekommenderad rengöring"@,
        Idioma::Turco => "Önerilen temizleme"@,
        Idioma::Ucraniano => "Рекомендоване очищення"@,
        Idioma::Vietnamita => "Đề xuất dọn dẹp"@,
        Idioma::ChinoSimplificado => "建议清理"@,
    }
}

pub fn t_normal_cleanup(idioma: Idioma) -> (r: &'static str)
    ensures
        r@ == t_normal_cleanup_spec(idioma),
{
    match idioma {
        Idioma::BelarusLatino => "Rekamjendavanaja ačystka",
        Idioma::Belarus => "Рэкамендаваная ачыстка",
        Idioma::Catalan => "Neteja recomanada",
        Idioma::Checo => "Doporučené čištění",
        Idioma::Aleman => "Empfohlene Bereinigung",
        Idioma::Ingles => "Recommended cleanup",
        Idioma::Espanol => "Limpieza recomendada",
        Idioma::Frances => "Nettoyage recommandé",
        Idioma::Gallego | Idioma::PortuguesBrasil => "Limpeza recomendada",
        Idioma::Hungaro => "Ajánlott tisztítás",
        Idioma::Italiano => "Pulizia consigliata",
        Idioma::Coreano => "권장 정리",
        Idioma::Kurdo => "Paqijkirina pêşniyar kirin",
        Idioma::Neerlandes => "Aanbevolen schoonmaakbeurt",
        Idioma::NoruegoNynorsk => "Anbefalt opprydding",
        Idioma::Polaco => "Zalecane czyszczenie",
        Idioma::Ruso => "Рекомендуемая очистка",
        Idioma::Sueco => "Rekommenderad rengöring",
        Idioma::Turco => "Önerilen temizleme",
        Idioma::Ucraniano => "Рекомендоване очищення",
        Idioma::Vietnamita => "Đề xuất dọn dẹp",
        Idioma::ChinoSimplificado => "建议清理",
    }
}

/// The `deep_cleanup` text in each language.
pub open spec fn t_deep_cleanup_spec(idioma: Idioma) -> Seq<char> {
    match idioma {
        Idioma::BelarusLatino => "Hłybokaja ačystka"@,
        Idioma::Belarus => "Глыбокая ачыстка"@,
        Idioma::Catalan => "Neteja profunda"@,
        Idioma::Checo => "Hluboké čištění"@,
        Idioma::Aleman => "Gründliche Bereinigung"@,
        Idioma::Ingles => "Deep cleanup"@,
        Idioma::Espanol => "Limpieza profunda"@,
        Idioma::Frances => "Nettoyage en profondeur"@,
        Idioma::Gallego | Idioma::PortuguesBrasil => "Limpeza profunda"@,
        Idioma::Hungaro => "Alapos tisztítás"@,
        Idioma::Italiano => "Pulizia profonda"@,
        Idioma::Coreano => "심층 정리"@,
        Idioma::Kurdo => "Paqijkirina kûr"@,
        Idioma::Neerlandes => "Diepgaande schoonmaak"@,
        Idioma::NoruegoNynorsk => "Dyp opprydding"@,
        Idioma::Polaco => "Dokładne sprzątanie"@,
        Idioma::Ruso => "Глубокая очистка"@,
        Idioma::Sueco => "Djup rengöring"@,
        Idioma::Turco => "Derinlemesine temizlik"@,
        Idioma::Ucraniano => "Глибоке очищення"@,
        Idioma::Vietnamita => "Dọn dẹp sâu"@,
        Idioma::ChinoSimplificado => "深度清理"@,
    }
}

pub fn t_deep_cleanup(idioma: Idioma) -> (r: &'static str)
    ensures
        r@ == t_deep_cleanup_spec(idioma),
{
    match idioma {
        Idioma::BelarusLatino => "Hłybokaja ačystka",
        Idioma::Belarus => "Глыбокая ачыстка",
        Idioma::Catalan => "Neteja profunda",
        Idioma::Checo => "Hluboké čištění",
        Idioma::Aleman => "Gründliche Bereinigung",
        Idioma::Ingles => "Deep cleanup",
        Idioma::Espanol => "Limpieza profunda",
        Idioma::Frances => "Nettoyage en profondeur",
        Idioma::Gallego | Idioma::PortuguesBrasil => "Limpeza profunda",
        Idioma::Hungaro => "Alapos tisztítás",
        Idioma::Italiano => "Pulizia profonda",
        Idioma::Coreano => "심층 정리",
        Idioma::Kurdo => "Paqijkirina kûr",
        Idioma::Neerlandes => "Diepgaande schoonmaak",
        Idioma::NoruegoNynorsk => "Dyp opprydding",
        Idioma::Polaco => "Dokładne sprzątanie",
        Idioma::Ruso => "Глубокая очистка",
        Idioma::Sueco => "Djup rengöring",
        Idioma::Turco => "Derinlemesine temizlik",
        Idioma::Ucraniano => "Глибоке очищення",
        Idioma::Vietnamita => "Dọn dẹp sâu",
        Idioma::ChinoSimplificado => "深度清理",
    }
}

/// The `clean_now` text in each language.
pub open spec fn t_clean_now_spec(idioma: Idioma) -> Seq<char> {
    match idioma {
        Idioma::BelarusLatino => "Čystaja"@,
        Idioma::Belarus => "Чысты"@,
        Idioma::Catalan => "Neteja"@,
        Idioma::Checo => "Čistý"@,
        Idioma::Aleman => "Sauber"@,
        Idioma::Ingles => "Clean"@,
        Idioma::Espanol => "Limpiar"@,
        Idioma::Frances => "Nettoyer"@,
        Idioma::Gallego | Idioma::PortuguesBrasil => "Limpar"@,
        Idioma::Hungaro => "Tisztítás"@,
        Idioma::Italiano => "Pulito"@,
        Idioma::Coreano => "청소"@,
        Idioma::Kurdo => "Paqij"@,
        Idioma::Neerlandes => "Schoon"@,
        Idioma::NoruegoNynorsk => "Rengjør"@,
        Idioma::Polaco => "Czyste"@,
        Idioma::Ruso => "Очистить"@,
        Idioma::Sueco => "Rengör"@,
        Idioma::Turco => "Temiz"@,
        Idioma::Ucraniano => "Чистий"@,
        Idioma::Vietnamita => "Sạch sẽ"@,
        Idioma::ChinoSimplificado => "清洁"@,
    }
}

pub fn t_clean_now(idioma: Idioma) -> (r: &'static str)
    ensures
        r@ == t_clean_now_spec(idioma),
{
    match idioma {
        Idioma::BelarusLatino => "Čystaja",
        Idioma::Belarus => "Чысты",
        Idioma::Catalan => "Neteja",
        Idioma::Checo => "Čistý",
        Idioma::Aleman => "Sauber",
        Idioma::Ingles => "Clean",
        Idioma::Espanol => "Limpiar",
        Idioma::Frances => "Nettoyer",
        Idioma::Gallego | Idioma::PortuguesBrasil => "Limpar",
        Idioma::Hungaro => "Tisztítás",
        Idioma::Italiano => "Pulito",
        Idioma::Coreano => "청소",
        Idioma::Kurdo => "Paqij",
        Idioma::Neerlandes => "Schoon",
        Idioma::NoruegoNynorsk => "Rengjør",
        Idioma::Polaco => "Czyste",
        Idioma::Ruso => "Очистить",
        Idioma::Sueco => "Rengör",
        Idioma::Turco => "Temiz",
        Idioma::Ucraniano => "Чистий",
        Idioma::Vietnamita => "Sạch sẽ",
        Idioma::ChinoSimplificado => "清洁",
    }
}

/// The `clean_all` text in each language.
pub open spec fn t_clean_all_spec(idioma: Idioma) -> Seq<char> {
    match idioma {
        Idioma::BelarusLatino => "Bołš čyscicje"@,
        Idioma::Belarus => "Больш чысціце"@,
        Idioma::Catalan => "Neteja més"@,
        Idioma::Checo => "Čistěte více"@,
        Idioma::Aleman => "Mehr reinigen"@,
        Idioma::Ingles => "Clean more"@,
        Idioma::Espanol => "Limpiar más"@,
        Idioma::Frances => "Nettoyer davantage"@,
        Idioma::Gallego => "Limpar máis"@,
        Idioma::Hungaro => "Több törlése"@,
        Idioma::Italiano => "Pulisci di più"@,
        Idioma::Coreano => "더 깨끗하게 청소하세요"@,
        Idioma::Kurdo => "Zêdetir paqij bike"@,
        Idioma::Neerlandes => "Maak meer schoon"@,
        Idioma::NoruegoNynorsk => "Rengjør mer"@,
        Idioma::Polaco => "Wyczyść więcej"@,
        Idioma::PortuguesBrasil => "Limpe mais"@,
        Idioma::Ruso => "Очистите больше"@,
        Idioma::Sueco => "Rengör mer"@,
        Idioma::Turco => "Daha fazlasını temizle"@,
        Idioma::Ucraniano => "Чистіть більше"@,
        Idioma::Vietnamita => "Dọn dẹp nhiều hơn"@,
        Idioma::ChinoSimplificado => "清洁更多"@,
    }
}

pub fn t_clean_all(idioma: Idioma) -> (r: &'static str)
    ensures
        r@ == t_clean_all_spec(idioma),
{
    match idioma {
        Idioma::BelarusLatino => "Bołš čyscicje",
        Idioma::Belarus => "Больш чысціце",
        Idioma::Catalan => "Neteja més",
        Idioma::Checo => "Čistěte více",
        Idioma::Aleman => "Mehr reinigen",
        Idioma::Ingles => "Clean more",
        Idioma::Espanol => "Limpiar más",
        Idioma::Frances => "Nettoyer davantage",
        Idioma::Gallego => "Limpar máis",
        Idioma::Hungaro => "Több törlése",
        Idioma::Italiano => "Pulisci di più",
        Idioma::Coreano => "더 깨끗하게 청소하세요",
        Idioma::Kurdo => "Zêdetir paqij bike",
        Idioma::Neerlandes => "Maak meer schoon",
        Idioma::NoruegoNynorsk => "Rengjør mer",
        Idioma::Polaco => "Wyczyść więcej",
        Idioma::PortuguesBrasil => "Limpe mais",
        Idioma::Ruso => "Очистите больше",
        Idioma::Sueco => "Rengör mer",
        Idioma::Turco => "Daha fazlasını temizle",
        Idioma::Ucraniano => "Чистіть більше",
        Idioma::Vietnamita => "Dọn dẹp nhiều hơn",
        Idioma::ChinoSimplificado => "清洁更多",
    }
}

/// The `generations` text in each language.
pub open spec fn t_generations_spec(idioma: Idioma) -> Seq<char> {
    match idioma {
        Idioma::BelarusLatino => "Dastupnyja vjersii"@,
        Idioma::Belarus => "Даступныя версіі"@,
        Idioma::Catalan | Idioma::Frances => "Versions disponibles"@,
        Idioma::Checo => "Dostupné verze"@,
        Idioma::Aleman => "Verfügbare Versionen"@,
        Idioma::Ingles | Idioma::Turco => "Available versions"@,
        Idioma::Espanol => "Versiones disponibles"@,
        Idioma::Gallego => "Versións dispoñibles"@,
        Idioma::Hungaro => "Elérhető verziók"@,
        Idioma::Italiano => "Versioni disponibili"@,
        Idioma::Coreano => "사용 가능한 버전"@,
        Idioma::Kurdo => "Guhertoyên berdest"@,
        Idioma::Neerlandes => "Beschikbare versies"@,
        Idioma::NoruegoNynorsk => "Tilgjengelige versjoner"@,
        Idioma::Polaco => "Dostępne wersje"@,
        Idioma::PortuguesBrasil => "Versões disponíveis"@,
        Idioma::Ruso => "Доступные версии"@,
        Idioma::Sueco => "Tillgängliga versioner"@,
        Idioma::Ucraniano => "Доступні версії"@,
        Idioma::Vietnamita => "Phiên bản có sẵn"@,
        Idioma::ChinoSimplificado => "可用版本"@,
    }
}

pub fn t_generations(idioma: Idioma) -> (r: &'static str)
    ensures
        r@ == t_generations_spec(idioma),
{
    match idioma {
        Idioma::BelarusLatino => "Dastupnyja vjersii",
        Idioma::Belarus => "Даступныя версіі",
        Idioma::Catalan | Idioma::Frances => "Versions disponibles",
        Idioma::Checo => "Dostupné verze",
        Idioma::Aleman => "Verfügbare Versionen",
        Idioma::Ingles | Idioma::Turco => "Available versions",
        Idioma::Espanol => "Versiones disponibles",
        Idioma::Gallego => "Versións dispoñibles",
        Idioma::Hungaro => "Elérhető verziók",
        Idioma::Italiano => "Versioni disponibili",
        Idioma::Coreano => "사용 가능한 버전",
        Idioma::Kurdo => "Guhertoyên berdest",
        Idioma::Neerlandes => "Beschikbare versies",
        Idioma::NoruegoNynorsk => "Tilgjengelige versjoner",
        Idioma::Polaco => "Dostępne wersje",
        Idioma::PortuguesBrasil => "Versões disponíveis",
        Idioma::Ruso => "Доступные версии",
        Idioma::Sueco => "Tillgängliga versioner",
        Idioma::Ucraniano => "Доступні версії",
        Idioma::Vietnamita => "Phiên bản có sẵn",
        Idioma::ChinoSimplificado => "可用版本",
    }
}

/// The `use_once` text in each language.
pub open spec fn t_use_once_spec(idioma: Idioma) -> Seq<char> {
    match idioma {
        Idioma::BelarusLatino => "Pasprabujcje nastupny pjerazapusk"@,
        Idioma::Belarus => "Паспрабуйце пры наступным перазапуску"@,
        Idioma::Catalan => "Prova el proper reinici"@,
        Idioma::Checo => "Zkuste další restart"@,
        Idioma::Aleman => "Versuchen Sie es beim nächsten Neustart"@,
        Idioma::Ingles => "Try on next restart"@,
        Idioma::Espanol => "Probar en el próximo reinicio"@,
        Idioma::Frances => "Essayez au prochain redémarrage"@,
        Idioma::Gallego => "Proba o próximo reinicio"@,
        Idioma::Hungaro => "Próba a következő újraindításkor"@,
        Idioma::Italiano => "Prova al prossimo riavvio"@,
        Idioma::Coreano => "다음에 다시 시작해 보세요."@,
        Idioma::Kurdo => "Ji nû ve destpêkirina din biceribîne"@,
        Idioma::Neerlandes => "Probeer bij de volgende herstart"@,
        Idioma::NoruegoNynorsk => "Prøv neste omstart"@,
        Idioma::Polaco => "Spróbuj przy następnym uruchomieniu"@,
        Idioma::PortuguesBrasil => "Tente na próxima reinicialização"@,
        Idioma::Ruso => "Попробуйте при следующем перезапуске"@,
        Idioma::Sueco => "Prova nästa omstart"@,
        Idioma::Turco => "Bir sonraki yeniden başlatmada deneyin"@,
        Idioma::Ucraniano => "Спробуйте наступного перезапуску"@,
        Idioma::Vietnamita => "Hãy thử khởi động lại lần sau"@,
        Idioma::ChinoSimplificado => "尝试下次重新启动"@,
    }
}

pub fn t_use_once(idioma: Idioma) -> (r: &'static str)
    ensures
        r@ == t_use_once_spec(idioma),
{
    match idioma {
        Idioma::BelarusLatino => "Pasprabujcje nastupny pjerazapusk",
        Idioma::Belarus => "Паспрабуйце пры наступным перазапуску",
        Idioma::Catalan => "Prova el proper reinici",
        Idioma::Checo => "Zkuste další restart",
        Idioma::Aleman => "Versuchen Sie es beim nächsten Neustart",
        Idioma::Ingles => "Try on next restart",
        Idioma::Espanol => "Probar en el próximo reinicio",
        Idioma::Frances => "Essayez au prochain redémarrage",
        Idioma::Gallego => "Proba o próximo reinicio",
        Idioma::Hungaro => "Próba a következő újraindításkor",
        Idioma::Italiano => "Prova al prossimo riavvio",
        Idioma::Coreano => "다음에 다시 시작해 보세요.",
        Idioma::Kurdo => "Ji nû ve destpêkirina din biceribîne",
        Idioma::Neerlandes => "Probeer bij de volgende herstart",
        Idioma::NoruegoNynorsk => "Prøv neste omstart",
        Idioma::Polaco => "Spróbuj przy następnym uruchomieniu",
        Idioma::PortuguesBrasil => "Tente na próxima reinicialização",
        Idioma::Ruso => "Попробуйте при следующем перезапуске",
        Idioma::Sueco => "Prova nästa omstart",
        Idioma::Turco => "Bir sonraki yeniden başlatmada deneyin",
        Idioma::Ucraniano => "Спробуйте наступного перезапуску",
        Idioma::Vietnamita => "Hãy thử khởi động lại lần sau",
        Idioma::ChinoSimplificado => "尝试下次重新启动",
    }
}

/// The `current_generation` text in each language.
pub open spec fn t_current_generation_spec(idioma: Idioma) -> Seq<char> {
    match idioma {
        Idioma::BelarusLatino => "Vjersija, jakaja vykarystoŭvajecca"@,
        Idioma::Belarus => "Версія, якая выкарыстоўваецца"@,
        Idioma::Catalan => "Versió en ús"@,
        Idioma::Checo => "Verze se používá"@,
        Idioma::Aleman => "Version wird verwendet"@,
        Idioma::Ingles => "Version in use"@,
        Idioma::Espanol => "Versión que estás usando"@,
        Idioma::Frances => "Version utilisée"@,
        Idioma::Gallego => "Versión en uso"@,
        Idioma::Hungaro => "Használt verzió"@,
        Idioma::Italiano => "Versione in uso"@,
        Idioma::Coreano => "사용 중인 버전"@,
        Idioma::Kurdo => "Guhertoya ku tê bikaranîn"@,
        Idioma::Neerlandes => "Versie in gebruik"@,
        Idioma::NoruegoNynorsk => "Versjon i bruk"@,
        Idioma::Polaco => "Wersja w użyciu"@,
        Idioma::PortuguesBrasil => "Versão em uso"@,
        Idioma::Ruso => "Используемая версия"@,
        Idioma::Sueco => "Version som används"@,
        Idioma::Turco => "Sürüm kullanımda"@,
        Idioma::Ucraniano => "Версія, що використовується"@,
        Idioma::Vietnamita => "Phiên bản đang được sử dụng"@,
        Idioma::ChinoSimplificado => "使用中的版本"@,
    }
}

pub fn t_current_generation(idioma: Idioma) -> (r: &'static str)
    ensures
        r@ == t_current_generation_spec(idioma),
{
    match idioma {
        Idioma::BelarusLatino => "Vjersija, jakaja vykarystoŭvajecca",
        Idioma::Belarus => "Версія, якая выкарыстоўваецца",
        Idioma::Catalan => "Versió en ús",
        Idioma::Checo => "Verze se používá",
        Idioma::Aleman => "Version wird verwendet",
        Idioma::Ingles => "Version in use",
        Idioma::Espanol => "Versión que estás usando",
        Idioma::Frances => "Version utilisée",
        Idioma::Gallego => "Versión en uso",
        Idioma::Hungaro => "Használt verzió",
        Idioma::Italiano => "Versione in uso",
        Idioma::Coreano => "사용 중인 버전",
        Idioma::Kurdo => "Guhertoya ku tê bikaranîn",
        Idioma::Neerlandes => "Versie in gebruik",
        Idioma::NoruegoNynorsk => "Versjon i bruk",
        Idioma::Polaco => "Wersja w użyciu",
        Idioma::PortuguesBrasil => "Versão em uso",
        Idioma::Ruso => "Используемая версия",
        Idioma::Sueco => "Version som används",
        Idioma::Turco => "Sürüm kullanımda",
        Idioma::Ucraniano => "Версія, що використовується",
        Idioma::Vietnamita => "Phiên bản đang được sử dụng",
        Idioma::ChinoSimplificado => "使用中的版本",
    }
}

/// The `default_generation` text in each language.
pub open spec fn t_default_generation_spec(idioma: Idioma) -> Seq<char> {
    match idioma {
        Idioma::BelarusLatino => "Vjersija, jakaja vykarystoŭvajecca pry zapusku"@,
        Idioma::Belarus => "Версія, якая выкарыстоўваецца пры запуску"@,
        Idioma::Catalan => "Versió utilitzada a l'inici"@,
        Idioma::Checo => "Verze použitá při spuštění"@,
        Idioma::Aleman => "Beim Start verwendete Version"@,
        Idioma::Ingles => "Version used at startup"@,
        Idioma::Espanol => "Versión que inicia normalmente"@,
        Idioma::Frances => "Version utilisée au démarrage"@,
        Idioma::Gallego => "Versión utilizada no inicio"@,
        Idioma::Hungaro => "Indításkor használt verzió"@,
        Idioma::Italiano => "Versione utilizzata all'avvio"@,
        Idioma::Coreano => "시작 시 사용되는 버전"@,
        Idioma::Kurdo => "Guhertoya ku di destpêkê de hatî bikar anîn"@,
        Idioma::Neerlandes => "Versie gebruikt bij het opstarten"@,
        Idioma::NoruegoNynorsk => "Versjon brukt ved oppstart"@,
        Idioma::Polaco => "Wersja używana podczas uruchamiania"@,
        Idioma::PortuguesBrasil => "Versão usada na inicialização"@,
        Idioma::Ruso => "Версия, используемая при запуске"@,
        Idioma::Sueco => "Version som användes vid start"@,
        Idioma::Turco => "Başlangıçta kullanılan sürüm"@,
        Idioma::Ucraniano => "Версія, яка використовується під час запуску"@,
        Idioma::Vietnamita => "Phiên bản được sử dụng khi khởi động"@,
        Idioma::ChinoSimplificado => "启动时使用的版本"@,
    }
}

pub fn t_default_generation(idioma: Idioma) -> (r: &'static str)
    ensures
        r@ == t_default_generation_spec(idioma),
{
    match idioma {
        Idioma::BelarusLatino => "Vjersija, jakaja vykarystoŭvajecca pry zapusku",
        Idioma::Belarus => "Версія, якая выкарыстоўваецца пры запуску",
        Idioma::Catalan => "Versió utilitzada a l'inici",
        Idioma::Checo => "Verze použitá při spuštění",
        Idioma::Aleman => "Beim Start verwendete Version",
        Idioma::Ingles => "Version used at startup",
        Idioma::Espanol => "Versión que inicia normalmente",
        Idioma::Frances => "Version utilisée au démarrage",
        Idioma::Gallego => "Versión utilizada no inicio",
        Idioma::Hungaro => "Indításkor használt verzió",
        Idioma::Italiano => "Versione utilizzata all'avvio",
        Idioma::Coreano => "시작 시 사용되는 버전",
        Idioma::Kurdo => "Guhertoya ku di destpêkê de hatî bikar anîn",
        Idioma::Neerlandes => "Versie gebruikt bij het opstarten",
        Idioma::NoruegoNynorsk => "Versjon brukt ved oppstart",
        Idioma::Polaco => "Wersja używana podczas uruchamiania",
        Idioma::PortuguesBrasil => "Versão usada na inicialização",
        Idioma::Ruso => "Версия, используемая при запуске",
        Idioma::Sueco => "Version som användes vid start",
        Idioma::Turco => "Başlangıçta kullanılan sürüm",
        Idioma::Ucraniano => "Версія, яка використовується під час запуску",
        Idioma::Vietnamita => "Phiên bản được sử dụng khi khởi động",
        Idioma::ChinoSimplificado => "启动时使用的版本",
    }
}

/// The `heavy_transfer` text in each language.
pub open spec fn t_heavy_transfer_spec(idioma: Idioma) -> Seq<char> {
    match idioma {
        Idioma::BelarusLatino => "Dačakajcjesja zakančennja zachavannja danych"@,
        Idioma::Belarus => "Дачакайцеся завяршэння захавання даных"@,
        Idioma::Catalan => "Espereu fins que les dades s'acabin de desar"@,
        Idioma::Checo => "Počkejte na dokončení ukládání dat"@,
        Idioma::Aleman => "Warten Sie, bis die Datenspeicherung abgeschlossen ist"@,
        Idioma::Ingles => "Wait until data finishes saving"@,
        Idioma::Espanol => "Esperar a que terminen de guardarse los datos"@,
        Idioma::Frances => "Attendez la fin de l'enregistrement des données"@,
        Idioma::Gallego => "Agarde ata que se rematen de gardar os datos"@,
        Idioma::Hungaro => "Várakozás az adatok mentésének befejezésére"@,
        Idioma::Italiano => "Attendere il completamento del salvataggio dei dati"@,
        Idioma::Coreano => "데이터 저장이 완료될 때까지 기다리세요"@,
        Idioma::Kurdo => "Li bendê bin heya tomarkirina daneyan biqede"@,
        Idioma::Neerlandes => "Wacht totdat de gegevens zijn opgeslagen"@,
        Idioma::NoruegoNynorsk => "Vent til data er ferdig lagret"@,
        Idioma::Polaco => "Poczekaj, aż zapisywanie danych zakończy się"@,
        Idioma::PortuguesBrasil => "Aguarde até que os dados terminem de ser salvos"@,
        Idioma::Ruso => "Подождите, пока данные не закончат сохраняться."@,
        Idioma::Sueco => "Vänta tills data har sparats"@,
        Idioma::Turco => "Verilerin kaydedilmesi bitene kadar bekleyin"@,
        Idioma::Ucraniano => "Зачекайте, доки завершиться збереження даних"@,
        Idioma::Vietnamita => "Chờ cho đến khi lưu dữ liệu xong"@,
        Idioma::ChinoSimplificado => "等待数据保存完成"@,
    }
}

pub fn t_heavy_transfer(idioma: Idioma) -> (r: &'static str)
    ensures
        r@ == t_heavy_transfer_spec(idioma),
{
    match idioma {
        Idioma::BelarusLatino => "Dačakajcjesja zakančennja zachavannja danych",
        Idioma::Belarus => "Дачакайцеся завяршэння захавання даных",
        Idioma::Catalan => "Espereu fins que les dades s'acabin de desar",
        Idioma::Checo => "Počkejte na dokončení ukládání dat",
        Idioma::Aleman => "Warten Sie, bis die Datenspeicherung abgeschlossen ist",
        Idioma::Ingles => "Wait until data finishes saving",
        Idioma::Espanol => "Esperar a que terminen de guardarse los datos",
        Idioma::Frances => "Attendez la fin de l'enregistrement des données",
        Idioma::Gallego => "Agarde ata que se rematen de gardar os datos",
        Idioma::Hungaro => "Várakozás az adatok mentésének befejezésére",
        Idioma::Italiano => "Attendere il completamento del salvataggio dei dati",
        Idioma::Coreano => "데이터 저장이 완료될 때까지 기다리세요",
        Idioma::Kurdo => "Li bendê bin heya tomarkirina daneyan biqede",
        Idioma::Neerlandes => "Wacht totdat de gegevens zijn opgeslagen",
        Idioma::NoruegoNynorsk => "Vent til data er ferdig lagret",
        Idioma::Polaco => "Poczekaj, aż zapisywanie danych zakończy się",
        Idioma::PortuguesBrasil => "Aguarde até que os dados terminem de ser salvos",
        Idioma::Ruso => "Подождите, пока данные не закончат сохраняться.",
        Idioma::Sueco => "Vänta tills data har sparats",
        Idioma::Turco => "Verilerin kaydedilmesi bitene kadar bekleyin",
        Idioma::Ucraniano => "Зачекайте, доки завершиться збереження даних",
        Idioma::Vietnamita => "Chờ cho đến khi lưu dữ liệu xong",
        Idioma::ChinoSimplificado => "等待数据保存完成",
    }
}

/// The `heavy_transfer_detail` text in each language.
pub open spec fn t_heavy_transfer_detail_spec(idioma: Idioma) -> Seq<char> {
    match idioma {
        Idioma::BelarusLatino => "Pjerš čym vynjac, pačakajcje, pakuł usje dadzjenyja nje buduc zachavany na dysk."@,
        Idioma::Belarus => "Перш чым выняць, пачакайце, пакуль усе дадзеныя не будуць захаваны на дыск."@,
        Idioma::Catalan => "Abans d'expulsar, espereu fins que totes les dades s'hagin desat a la unitat."@,
        Idioma::Checo => "Před vysunutím počkejte, dokud se všechna data neuloží na disk."@,
        Idioma::Aleman => "Warten Sie vor dem Auswerfen, bis alle Daten auf dem Laufwerk gespeichert wurden."@,
        Idioma::Ingles | Idioma::Turco => "Before ejecting, wait until all data has finished saving to the drive."@,
        Idioma::Espanol => "Antes de expulsar, espera a que todos los datos terminen de guardarse en la unidad."@,
        Idioma::Frances => "Avant d'éjecter, attendez que toutes les données soient enregistrées sur le disque."@,
        Idioma::Gallego => "Antes de expulsar, agarde ata que rematen de gardar todos os datos na unidade."@,
        Idioma::Hungaro => "Leválasztás előtt várd meg, amíg minden adat mentése befejeződik a meghajtón."@,
        Idioma::Italiano => "Prima dell'espulsione, attendere il completamento del salvataggio di tutti i dati sull'unità."@,
        Idioma::Coreano => "꺼내기 전에 모든 데이터가 드라이브에 저장이 완료될 때까지 기다리십시오."@,
        Idioma::Kurdo => "Berî derxistinê, li bendê bimînin heya ku hemî dane tomarkirina li ajokê biqede."@,
        Idioma::Neerlandes => "Wacht vóór het uitwerpen tot alle gegevens op de schijf zijn opgeslagen."@,
        Idioma::NoruegoNynorsk => "Før du løser ut, vent til alle data er ferdig lagret på stasjonen."@,
        Idioma::Polaco => "Przed wysunięciem poczekaj, aż wszystkie dane zostaną zapisane na dysku."@,
        Idioma::PortuguesBrasil => "Antes de ejetar, espere até que todos os dados sejam salvos na unidade."@,
        Idioma::Ruso => "Перед извлечением подождите, пока все данные не будут сохранены на диске."@,
        Idioma::Sueco => "Innan du matar ut, vänta tills all data har sparats på enheten."@,
        Idioma::Ucraniano => "Перед вийманням зачекайте, доки всі дані не будуть збережені на диску."@,
        Idioma::Vietnamita => "Trước khi đẩy ra, hãy đợi cho đến khi tất cả dữ liệu được lưu vào ổ đĩa xong."@,
        Idioma::ChinoSimplificado => "在弹出之前，请等待所有数据完成保存到驱动器。"@,
    }
}

pub fn t_heavy_transfer_detail(idioma: Idioma) -> (r: &'static str)
    ensures
        r@ == t_heavy_transfer_detail_spec(idioma),
{
    match idioma {
        Idioma::BelarusLatino => "Pjerš čym vynjac, pačakajcje, pakuł usje dadzjenyja nje buduc zachavany na dysk.",
        Idioma::Belarus => "Перш чым выняць, пачакайце, пакуль усе дадзеныя не будуць захаваны на дыск.",
        Idioma::Catalan => "Abans d'expulsar, espereu fins que totes les dades s'hagin desat a la unitat.",
        Idioma::Checo => "Před vysunutím počkejte, dokud se všechna data neuloží na disk.",
        Idioma::Aleman => "Warten Sie vor dem Auswerfen, bis alle Daten auf dem Laufwerk gespeichert wurden.",
        Idioma::Ingles | Idioma::Turco => "Before ejecting, wait until all data has finished saving to the drive.",
        Idioma::Espanol => "Antes de expulsar, espera a que todos los datos terminen de guardarse en la unidad.",
        Idioma::Frances => "Avant d'éjecter, attendez que toutes les données soient enregistrées sur le disque.",
        Idioma::Gallego => "Antes de expulsar, agarde ata que rematen de gardar todos os datos na unidade.",
        Idioma::Hungaro => "Leválasztás előtt várd meg, amíg minden adat mentése befejeződik a meghajtón.",
        Idioma::Italiano => "Prima dell'espulsione, attendere il completamento del salvataggio di tutti i dati sull'unità.",
        Idioma::Coreano => "꺼내기 전에 모든 데이터가 드라이브에 저장이 완료될 때까지 기다리십시오.",
        Idioma::Kurdo => "Berî derxistinê, li bendê bimînin heya ku hemî dane tomarkirina li ajokê biqede.",
        Idioma::Neerlandes => "Wacht vóór het uitwerpen tot alle gegevens op de schijf zijn opgeslagen.",
        Idioma::NoruegoNynorsk => "Før du løser ut, vent til alle data er ferdig lagret på stasjonen.",
        Idioma::Polaco => "Przed wysunięciem poczekaj, aż wszystkie dane zostaną zapisane na dysku.",
        Idioma::PortuguesBrasil => "Antes de ejetar, espere até que todos os dados sejam salvos na unidade.",
        Idioma::Ruso => "Перед извлечением подождите, пока все данные не будут сохранены на диске.",
        Idioma::Sueco => "Innan du matar ut, vänta tills all data har sparats på enheten.",
        Idioma::Ucraniano => "Перед вийманням зачекайте, доки всі дані не будуть збережені на диску.",
        Idioma::Vietnamita => "Trước khi đẩy ra, hãy đợi cho đến khi tất cả dữ liệu được lưu vào ổ đĩa xong.",
        Idioma::ChinoSimplificado => "在弹出之前，请等待所有数据完成保存到驱动器。",
    }
}

/// The `eject` text in each language.
pub open spec fn t_eject_spec(idioma: Idioma) -> Seq<char> {
    match idioma {
        Idioma::BelarusLatino => "Vynjac"@,
        Idioma::Belarus => "Выняць"@,
        Idioma::Catalan | Idioma::Espanol | Idioma::Gallego => "Expulsar"@,
        Idioma::Checo => "Vysunout"@,
        Idioma::Aleman => "Auswerfen"@,
        Idioma::Ingles => "Eject"@,
        Idioma::Frances => "Éjecter"@,
        Idioma::Hungaro => "Kiadás"@,
        Idioma::Italiano => "Espulsione"@,
        Idioma::Coreano => "꺼내기"@,
        Idioma::Kurdo => "Derxistin"@,
        Idioma::Neerlandes => "Uitwerpen"@,
        Idioma::NoruegoNynorsk => "Løs ut"@,
        Idioma::Polaco => "Wysuń"@,
        Idioma::PortuguesBrasil => "Ejetar"@,
        Idioma::Ruso => "Извлечь"@,
        Idioma::Sueco => "Mata ut"@,
        Idioma::Turco => "Çıkar"@,
        Idioma::Ucraniano => "Витягнути"@,
        Idioma::Vietnamita => "Đẩy ra"@,
        Idioma::ChinoSimplificado => "弹出"@,
    }
}

pub fn t_eject(idioma: Idioma) -> (r: &'static str)
    ensures
        r@ == t_eject_spec(idioma),
{
    match idioma {
        Idioma::BelarusLatino => "Vynjac",
        Idioma::Belarus => "Выняць",
        Idioma::Catalan | Idioma::Espanol | Idioma::Gallego => "Expulsar",
        Idioma::Checo => "Vysunout",
        Idioma::Aleman => "Auswerfen",
        Idioma::Ingles => "Eject",
        Idioma::Frances => "Éjecter",
        Idioma::Hungaro => "Kiadás",
        Idioma::Italiano => "Espulsione",
        Idioma::Coreano => "꺼내기",
        Idioma::Kurdo => "Derxistin",
        Idioma::Neerlandes => "Uitwerpen",
        Idioma::NoruegoNynorsk => "Løs ut",
        Idioma::Polaco => "Wysuń",
        Idioma::PortuguesBrasil => "Ejetar",
        Idioma::Ruso => "Извлечь",
        Idioma::Sueco => "Mata ut",
        Idioma::Turco => "Çıkar",
        Idioma::Ucraniano => "Витягнути",
        Idioma::Vietnamita => "Đẩy ra",
        Idioma::ChinoSimplificado => "弹出",
    }
}

/// The `removable` text in each language.
pub open spec fn t_removable_spec(idioma: Idioma) -> Seq<char> {
    match idioma {
        Idioma::BelarusLatino => "Zdymnaja"@,
        Idioma::Belarus => "Здымны"@,
        Idioma::Catalan => "Extraïble"@,
        Idioma::Checo => "Odnímatelné"@,
        Idioma::Aleman => "Abnehmbar"@,
        Idioma::Ingles => "Removable"@,
        Idioma::Espanol | Idioma::Gallego => "Extraíble"@,
        Idioma::Frances => "Amovible"@,
        Idioma::Hungaro => "Eltávolítható"@,
        Idioma::Italiano => "Rimovibile"@,
        Idioma::Coreano => "이동식"@,
        Idioma::Kurdo => "Rakirin"@,
        Idioma::Neerlandes => "Verwijderbaar"@,
        Idioma::NoruegoNynorsk => "Avtakbar"@,
        Idioma::Polaco => "Wyjmowany"@,
        Idioma::PortuguesBrasil => "Removível"@,
        Idioma::Ruso => "Съемный"@,
        Idioma::Sueco => "Avtagbar"@,
        Idioma::Turco => "Çıkarılabilir"@,
        Idioma::Ucraniano => "Знімний"@,
        Idioma::Vietnamita => "Có thể tháo rời"@,
        Idioma::ChinoSimplificado => "可拆卸"@,
    }
}

pub fn t_removable(idioma: Idioma) -> (r: &'static str)
    ensures
        r@ == t_removable_spec(idioma),
{
    match idioma {
        Idioma::BelarusLatino => "Zdymnaja",
        Idioma::Belarus => "Здымны",
        Idioma::Catalan => "Extraïble",
        Idioma::Checo => "Odnímatelné",
        Idioma::Aleman => "Abnehmbar",
        Idioma::Ingles => "Removable",
        Idioma::Espanol | Idioma::Gallego => "Extraíble",
        Idioma::Frances => "Amovible",
        Idioma::Hungaro => "Eltávolítható",
        Idioma::Italiano => "Rimovibile",
        Idioma::Coreano => "이동식",
        Idioma::Kurdo => "Rakirin",
        Idioma::Neerlandes => "Verwijderbaar",
        Idioma::NoruegoNynorsk => "Avtakbar",
        Idioma::Polaco => "Wyjmowany",
        Idioma::PortuguesBrasil => "Removível",
        Idioma::Ruso => "Съемный",
        Idioma::Sueco => "Avtagbar",
        Idioma::Turco => "Çıkarılabilir",
        Idioma::Ucraniano => "Знімний",
        Idioma::Vietnamita => "Có thể tháo rời",
        Idioma::ChinoSimplificado => "可拆卸",
    }
}

/// The `internal` text in each language.
pub open spec fn t_internal_spec(idioma: Idioma) -> Seq<char> {
    match idioma {
        Idioma::BelarusLatino => "Unutrany"@,
        Idioma::Belarus => "Унутраны"@,
        Idioma::Catalan | Idioma::Aleman | Idioma::Neerlandes | Idioma::NoruegoNynorsk => "Intern"@,
        Idioma::Checo => "Interní"@,
        Idioma::Ingles => "Internal"@,
        Idioma::Espanol | Idioma::Italiano | Idioma::PortuguesBrasil => "Interno"@,
        Idioma::Frances => "Interne"@,
        Idioma::Gallego => "Interna"@,
        Idioma::Hungaro => "Belső"@,
        Idioma::Coreano => "내부"@,
        Idioma::Kurdo => "Navxweyî"@,
        Idioma::Polaco => "Wewnętrzne"@,
        Idioma::Ruso => "Внутренний"@,
        Idioma::Sueco => "Internt"@,
        Idioma::Turco => "Dahili"@,
        Idioma::Ucraniano => "Внутрішній"@,
        Idioma::Vietnamita => "Nội bộ"@,
        Idioma::ChinoSimplificado => "内部"@,
    }
}

pub fn t_internal(idioma: Idioma) -> (r: &'static str)
    ensures
        r@ == t_internal_spec(idioma),
{
    match idioma {
        Idioma::BelarusLatino => "Unutrany",
        Idioma::Belarus => "Унутраны",
        Idioma::Catalan | Idioma::Aleman | Idioma::Neerlandes | Idioma::NoruegoNynorsk => "Intern",
        Idioma::Checo => "Interní",
        Idioma::Ingles => "Internal",
        Idioma::Espanol | Idioma::Italiano | Idioma::PortuguesBrasil => "Interno",
        Idioma::Frances => "Interne",
        Idioma::Gallego => "Interna",
        Idioma::Hungaro => "Belső",
        Idioma::Coreano => "내부",
        Idioma::Kurdo => "Navxweyî",
        Idioma::Polaco => "Wewnętrzne",
        Idioma::Ruso => "Внутренний",
        Idioma::Sueco => "Internt",
        Idioma::Turco => "Dahili",
        Idioma::Ucraniano => "Внутрішній",
        Idioma::Vietnamita => "Nội bộ",
        Idioma::ChinoSimplificado => "内部",
    }
}

/// The `safe_disconnect` text in each language.
pub open spec fn t_safe_disconnect_spec(idioma: Idioma) -> Seq<char> {
    match idioma {
        Idioma::BelarusLatino => "Bjaspječna adkłjučacca."@,
        Idioma::Belarus => "Бяспечна адключыць."@,
        Idioma::Catalan => "Segur per desconnectar."@,
        Idioma::Checo => "Bezpečné odpojení."@,
        Idioma::Aleman => "Sicheres Trennen."@,
        Idioma::Ingles => "Safe to disconnect."@,
        Idioma::Espanol => "Ya puedes desconectarla con seguridad."@,
        Idioma::Frances => "Déconnexion sûre."@,
        Idioma::Gallego => "Seguro para desconectar."@,
        Idioma::Hungaro => "Biztonságosan leválasztható."@,
        Idioma::Italiano => "Disconnessione sicura."@,
        Idioma::Coreano => "연결을 끊어도 안전합니다."@,
        Idioma::Kurdo => "Ji bo veqetandinê ewle ye."@,
        Idioma::Neerlandes => "Veilig te ontkoppelen."@,
        Idioma::NoruegoNynorsk => "Trygt å koble fra."@,
        Idioma::Polaco => "Można bezpiecznie odłączyć."@,
        Idioma::PortuguesBrasil => "É seguro desconectar."@,
        Idioma::Ruso => "Безопасное отключение."@,
        Idioma::Sueco => "Säkert att koppla från."@,
        Idioma::Turco => "Bağlantının kesilmesi güvenlidir."@,
        Idioma::Ucraniano => "Можна безпечно від’єднати."@,
        Idioma::Vietnamita => "Ngắt kết nối an toàn."@,
        Idioma::ChinoSimplificado => "可以安全断开连接。"@,
    }
}

pub fn t_safe_disconnect(idioma: Idioma) -> (r: &'static str)
    ensures
        r@ == t_safe_disconnect_spec(idioma),
{
    match idioma {
        Idioma::BelarusLatino => "Bjaspječna adkłjučacca.",
        Idioma::Belarus => "Бяспечна адключыць.",
        Idioma::Catalan => "Segur per desconnectar.",
        Idioma::Checo => "Bezpečné odpojení.",
        Idioma::Aleman => "Sicheres Trennen.",
        Idioma::Ingles => "Safe to disconnect.",
        Idioma::Espanol => "Ya puedes desconectarla con seguridad.",
        Idioma::Frances => "Déconnexion sûre.",
        Idioma::Gallego => "Seguro para desconectar.",
        Idioma::Hungaro => "Biztonságosan leválasztható.",
        Idioma::Italiano => "Disconnessione sicura.",
        Idioma::Coreano => "연결을 끊어도 안전합니다.",
        Idioma::Kurdo => "Ji bo veqetandinê ewle ye.",
        Idioma::Neerlandes => "Veilig te ontkoppelen.",
        Idioma::NoruegoNynorsk => "Trygt å koble fra.",
        Idioma::Polaco => "Można bezpiecznie odłączyć.",
        Idioma::PortuguesBrasil => "É seguro desconectar.",
        Idioma::Ruso => "Безопасное отключение.",
        Idioma::Sueco => "Säkert att koppla från.",
        Idioma::Turco => "Bağlantının kesilmesi güvenlidir.",
        Idioma::Ucraniano => "Можна безпечно від’єднати.",
        Idioma::Vietnamita => "Ngắt kết nối an toàn.",
        Idioma::ChinoSimplificado => "可以安全断开连接。",
    }
}

/// The `available_updates` text in each language.
pub open spec fn t_available_updates_spec(idioma: Idioma) -> Seq<char> {
    match idioma {
        Idioma::BelarusLatino => "Abnaŭłjennja prašyŭki"@,
        Idioma::Belarus => "Абнаўленні прашыўкі"@,
        Idioma::Catalan => "Actualitzacions de firmware"@,
        Idioma::Checo => "Aktualizace firmwaru"@,
        Idioma::Aleman => "Firmware-Updates"@,
        Idioma::Ingles => "Firmware updates"@,
        Idioma::Espanol => "Actualizaciones de firmware"@,
        Idioma::Frances => "Mises à jour du micrologiciel"@,
        Idioma::Gallego => "Actualizacións de firmware"@,
        Idioma::Hungaro => "Firmware-frissítések"@,
        Idioma::Italiano => "Aggiornamenti firmware"@,
        Idioma::Coreano => "펌웨어 업데이트"@,
        Idioma::Kurdo => "Nûvekirinên Firmware"@,
        Idioma::Neerlandes => "Firmware-updates"@,
        Idioma::NoruegoNynorsk => "Fastvareoppdateringer"@,
        Idioma::Polaco => "Aktualizacje oprogramowania sprzętowego"@,
        Idioma::PortuguesBrasil => "Atualizações de firmware"@,
        Idioma::Ruso => "Обновления прошивки"@,
        Idioma::Sueco => "Firmwareuppdateringar"@,
        Idioma::Turco => "Firmware güncellemeleri"@,
        Idioma::Ucraniano => "Оновлення мікропрограми"@,
        Idioma::Vietnamita => "Cập nhật chương trình cơ sở"@,
        Idioma::ChinoSimplificado => "固件更新"@,
    }
}

pub fn t_available_updates(idioma: Idioma) -> (r: &'static str)
    ensures
        r@ == t_available_updates_spec(idioma),
{
    match idioma {
        Idioma::BelarusLatino => "Abnaŭłjennja prašyŭki",
        Idioma::Belarus => "Абнаўленні прашыўкі",
        Idioma::Catalan => "Actualitzacions de firmware",
        Idioma::Checo => "Aktualizace firmwaru",
        Idioma::Aleman => "Firmware-Updates",
        Idioma::Ingles => "Firmware updates",
        Idioma::Espanol => "Actualizaciones de firmware",
        Idioma::Frances => "Mises à jour du micrologiciel",
        Idioma::Gallego => "Actualizacións de firmware",
        Idioma::Hungaro => "Firmware-frissítések",
        Idioma::Italiano => "Aggiornamenti firmware",
        Idioma::Coreano => "펌웨어 업데이트",
        Idioma::Kurdo => "Nûvekirinên Firmware",
        Idioma::Neerlandes => "Firmware-updates",
        Idioma::NoruegoNynorsk => "Fastvareoppdateringer",
        Idioma::Polaco => "Aktualizacje oprogramowania sprzętowego",
        Idioma::PortuguesBrasil => "Atualizações de firmware",
        Idioma::Ruso => "Обновления прошивки",
        Idioma::Sueco => "Firmwareuppdateringar",
        Idioma::Turco => "Firmware güncellemeleri",
        Idioma::Ucraniano => "Оновлення мікропрограми",
        Idioma::Vietnamita => "Cập nhật chương trình cơ sở",
        Idioma::ChinoSimplificado => "固件更新",
    }
}

/// The `firmware_devices` text in each language.
pub open spec fn t_firmware_devices_spec(idioma: Idioma) -> Seq<char> {
    match idioma {
        Idioma::BelarusLatino => "Prašyŭka pryład"@,
        Idioma::Belarus => "Прашыўка прылад"@,
        Idioma::Catalan => "Dispositius de microprogramari"@,
        Idioma::Checo => "Firmwarová zařízení"@,
        Idioma::Aleman => "Firmware-Geräte"@,
        Idioma::Ingles | Idioma::Turco => "Firmware devices"@,
        Idioma::Espanol | Idioma::Gallego | Idioma::PortuguesBrasil => "Dispositivos de firmware"@,
        Idioma::Frances => "Micrologiciel des appareils"@,
        Idioma::Hungaro => "Firmware-eszközök"@,
        Idioma::Italiano => "Dispositivi firmware"@,
        Idioma::Coreano => "펌웨어 장치"@,
        Idioma::Kurdo => "Amûrên Firmware"@,
        Idioma::Neerlandes => "Firmware-apparaten"@,
        Idioma::NoruegoNynorsk => "Fastvareenheter"@,
        Idioma::Polaco => "Urządzenia z oprogramowaniem sprzętowym"@,
        Idioma::Ruso => "Прошивка устройства"@,
        Idioma::Sueco => "Firmware-enheter"@,
        Idioma::Ucraniano => "Програмне забезпечення пристроїв"@,
        Idioma::Vietnamita => "Thiết bị phần mềm"@,
        Idioma::ChinoSimplificado => "固件设备"@,
    }
}

pub fn t_firmware_devices(idioma: Idioma) -> (r: &'static str)
    ensures
        r@ == t_firmware_devices_spec(idioma),
{
    match idioma {
        Idioma::BelarusLatino => "Prašyŭka pryład",
        Idioma::Belarus => "Прашыўка прылад",
        Idioma::Catalan => "Dispositius de microprogramari",
        Idioma::Checo => "Firmwarová zařízení",
        Idioma::Aleman => "Firmware-Geräte",
        Idioma::Ingles | Idioma::Turco => "Firmware devices",
        Idioma::Espanol | Idioma::Gallego | Idioma::PortuguesBrasil => "Dispositivos de firmware",
        Idioma::Frances => "Micrologiciel des appareils",
        Idioma::Hungaro => "Firmware-eszközök",
        Idioma::Italiano => "Dispositivi firmware",
        Idioma::Coreano => "펌웨어 장치",
        Idioma::Kurdo => "Amûrên Firmware",
        Idioma::Neerlandes => "Firmware-apparaten",
        Idioma::NoruegoNynorsk => "Fastvareenheter",
        Idioma::Polaco => "Urządzenia z oprogramowaniem sprzętowym",
        Idioma::Ruso => "Прошивка устройства",
        Idioma::Sueco => "Firmware-enheter",
        Idioma::Ucraniano => "Програмне забезпечення пристроїв",
        Idioma::Vietnamita => "Thiết bị phần mềm",
        Idioma::ChinoSimplificado => "固件设备",
    }
}

/// The `refresh_firmware` text in each language.
pub open spec fn t_refresh_firmware_spec(idioma: Idioma) -> Seq<char> {
    match idioma {
        Idioma::BelarusLatino => "Pravjercje najaŭnasc abnaŭłjennjaŭ"@,
        Idioma::Belarus => "Праверце наяўнасць абнаўленняў"@,
        Idioma::Catalan => "Comproveu si hi ha actualitzacions"@,
        Idioma::Checo => "Zkontrolujte aktualizace"@,
        Idioma::Aleman => "Nach Updates suchen"@,
        Idioma::Ingles | Idioma::Turco => "Check for updates"@,
        Idioma::Espanol => "Comprobar actualizaciones"@,
        Idioma::Frances => "Rechercher des mises à jour"@,
        Idioma::Gallego => "Busca actualizacións"@,
        Idioma::Hungaro => "Frissítések ellenőrzése"@,
        Idioma::Italiano => "Controlla gli aggiornamenti"@,
        Idioma::Coreano => "업데이트 확인"@,
        Idioma::Kurdo => "Ji bo nûvekirinan kontrol bikin"@,
        Idioma::Neerlandes => "Controleer op updates"@,
        Idioma::NoruegoNynorsk => "Se etter oppdateringer"@,
        Idioma::Polaco => "Sprawdź dostępność aktualizacji"@,
        Idioma::PortuguesBrasil => "Verifique se há atualizações"@,
        Idioma::Ruso => "Проверить наличие обновлений"@,
        Idioma::Sueco => "Sök efter uppdateringar"@,
        Idioma::Ucraniano => "Перевірити наявність оновлень"@,
        Idioma::Vietnamita => "Kiểm tra cập nhật"@,
        Idioma::ChinoSimplificado => "检查更新"@,
    }
}

pub fn t_refresh_firmware(idioma: Idioma) -> (r: &'static str)
    ensures
        r@ == t_refresh_firmware_spec(idioma),
{
    match idioma {
        Idioma::BelarusLatino => "Pravjercje najaŭnasc abnaŭłjennjaŭ",
        Idioma::Belarus => "Праверце наяўнасць абнаўленняў",
        Idioma::Catalan => "Comproveu si hi ha actualitzacions",
        Idioma::Checo => "Zkontrolujte aktualizace",
        Idioma::Aleman => "Nach Updates suchen",
        Idioma::Ingles | Idioma::Turco => "Check for updates",
        Idioma::Espanol => "Comprobar actualizaciones",
        Idioma::Frances => "Rechercher des mises à jour",
        Idioma::Gallego => "Busca actualizacións",
        Idioma::Hungaro => "Frissítések ellenőrzése",
        Idioma::Italiano => "Controlla gli aggiornamenti",
        Idioma::Coreano => "업데이트 확인",
        Idioma::Kurdo => "Ji bo nûvekirinan kontrol bikin",
        Idioma::Neerlandes => "Controleer op updates",
        Idioma::NoruegoNynorsk => "Se etter oppdateringer",
        Idioma::Polaco => "Sprawdź dostępność aktualizacji",
        Idioma::PortuguesBrasil => "Verifique se há atualizações",
        Idioma::Ruso => "Проверить наличие обновлений",
        Idioma::Sueco => "Sök efter uppdateringar",
        Idioma::Ucraniano => "Перевірити наявність оновлень",
        Idioma::Vietnamita => "Kiểm tra cập nhật",
        Idioma::ChinoSimplificado => "检查更新",
    }
}

/// The `install` text in each language.
pub open spec fn t_install_spec(idioma: Idioma) -> Seq<char> {
    match idioma {
        Idioma::BelarusLatino => "Ustałjavac"@,
        Idioma::Belarus => "Усталяваць"@,
        Idioma::Catalan => "Instal·la"@,
        Idioma::Checo => "Instalovat"@,
        Idioma::Aleman => "Installieren"@,
        Idioma::Ingles => "Install"@,
        Idioma::Espanol | Idioma::Gallego | Idioma::PortuguesBrasil => "Instalar"@,
        Idioma::Frances | Idioma::NoruegoNynorsk => "Installer"@,
        Idioma::Hungaro => "Telepítés"@,
        Idioma::Italiano => "Installa"@,
        Idioma::Coreano => "설치"@,
        Idioma::Kurdo => "Saz bike"@,
        Idioma::Neerlandes => "Installeren"@,
        Idioma::Polaco => "Zainstaluj"@,
        Idioma::Ruso => "Установить"@,
        Idioma::Sueco => "Installera"@,
        Idioma::Turco => "Yükle"@,
        Idioma::Ucraniano => "Встановити"@,
        Idioma::Vietnamita => "Cài đặt"@,
        Idioma::ChinoSimplificado => "安装"@,
    }
}

pub fn t_install(idioma: Idioma) -> (r: &'static str)
    ensures
        r@ == t_install_spec(idioma),
{
    match idioma {
        Idioma::BelarusLatino => "Ustałjavac",
        Idioma::Belarus => "Усталяваць",
        Idioma::Catalan => "Instal·la",
        Idioma::Checo => "Instalovat",
        Idioma::Aleman => "Installieren",
        Idioma::Ingles => "Install",
        Idioma::Espanol | Idioma::Gallego | Idioma::PortuguesBrasil => "Instalar",
        Idioma::Frances | Idioma::NoruegoNynorsk => "Installer",
        Idioma::Hungaro => "Telepítés",
        Idioma::Italiano => "Installa",
        Idioma::Coreano => "설치",
        Idioma::Kurdo => "Saz bike",
        Idioma::Neerlandes => "Installeren",
        Idioma::Polaco => "Zainstaluj",
        Idioma::Ruso => "Установить",
        Idioma::Sueco => "Installera",
        Idioma::Turco => "Yükle",
        Idioma::Ucraniano => "Встановити",
        Idioma::Vietnamita => "Cài đặt",
        Idioma::ChinoSimplificado => "安装",
    }
}

/// The `no_updates` text in each language.
pub open spec fn t_no_updates_spec(idioma: Idioma) -> Seq<char> {
    match idioma {
        Idioma::BelarusLatino => "Njama dastupnych abnaŭłjennjaŭ."@,
        Idioma::Belarus => "Няма даступных абнаўленняў."@,
        Idioma::Catalan => "No hi ha actualitzacions disponibles."@,
        Idioma::Checo => "Nejsou k dispozici žádné aktualizace."@,
        Idioma::Aleman => "Keine Updates verfügbar."@,
        Idioma::Ingles => "No updates available."@,
        Idioma::Espanol => "No hay actualizaciones disponibles."@,
        Idioma::Frances => "Aucune mise à jour disponible."@,
        Idioma::Gallego => "Non hai actualizacións dispoñibles."@,
        Idioma::Hungaro => "Nincs elérhető frissítés."@,
        Idioma::Italiano => "Nessun aggiornamento disponibile."@,
        Idioma::Coreano => "사용 가능한 업데이트가 없습니다."@,
        Idioma::Kurdo => "Nûvekirin tune."@,
        Idioma::Neerlandes => "Geen updates beschikbaar."@,
        Idioma::NoruegoNynorsk => "Ingen oppdateringer tilgjengelig."@,
        Idioma::Polaco => "Brak dostępnych aktualizacji."@,
        Idioma::PortuguesBrasil => "Nenhuma atualização disponível."@,
        Idioma::Ruso => "Обновлений нет."@,
        Idioma::Sueco => "Inga uppdateringar tillgängliga."@,
        Idioma::Turco => "Güncelleme yok."@,
        Idioma::Ucraniano => "Немає оновлень."@,
        Idioma::Vietnamita => "Không có bản cập nhật nào."@,
        Idioma::ChinoSimplificado => "无可用更新。"@,
    }
}

pub fn t_no_updates(idioma: Idioma) -> (r: &'static str)
    ensures
        r@ == t_no_updates_spec(idioma),
{
    match idioma {
        Idioma::BelarusLatino => "Njama dastupnych abnaŭłjennjaŭ.",
        Idioma::Belarus => "Няма даступных абнаўленняў.",
        Idioma::Catalan => "No hi ha actualitzacions disponibles.",
        Idioma::Checo => "Nejsou k dispozici žádné aktualizace.",
        Idioma::Aleman => "Keine Updates verfügbar.",
        Idioma::Ingles => "No updates available.",
        Idioma::Espanol => "No hay actualizaciones disponibles.",
        Idioma::Frances => "Aucune mise à jour disponible.",
        Idioma::Gallego => "Non hai actualizacións dispoñibles.",
        Idioma::Hungaro => "Nincs elérhető frissítés.",
        Idioma::Italiano => "Nessun aggiornamento disponibile.",
        Idioma::Coreano => "사용 가능한 업데이트가 없습니다.",
        Idioma::Kurdo => "Nûvekirin tune.",
        Idioma::Neerlandes => "Geen updates beschikbaar.",
        Idioma::NoruegoNynorsk => "Ingen oppdateringer tilgjengelig.",
        Idioma::Polaco => "Brak dostępnych aktualizacji.",
        Idioma::PortuguesBrasil => "Nenhuma atualização disponível.",
        Idioma::Ruso => "Обновлений нет.",
        Idioma::Sueco => "Inga uppdateringar tillgängliga.",
        Idioma::Turco => "Güncelleme yok.",
        Idioma::Ucraniano => "Немає оновлень.",
        Idioma::Vietnamita => "Không có bản cập nhật nào.",
        Idioma::ChinoSimplificado => "无可用更新。",
    }
}

/// The `version` text in each language.
pub open spec fn t_version_spec(idioma: Idioma) -> Seq<char> {
    match idioma {
        Idioma::BelarusLatino => "Vjersija"@,
        Idioma::Belarus | Idioma::Ucraniano => "Версія"@,
        Idioma::Catalan => "Versió"@,
        Idioma::Checo => "Verze"@,
        Idioma::Aleman | Idioma::Ingles | Idioma::Frances | Idioma::Sueco => "Version"@,
        Idioma::Espanol | Idioma::Gallego => "Versión"@,
        Idioma::Hungaro => "Verzió"@,
        Idioma::Italiano => "Versione"@,
        Idioma::Coreano => "버전"@,
        Idioma::Kurdo => "Versiyon"@,
        Idioma::Neerlandes => "Versie"@,
        Idioma::NoruegoNynorsk => "Versjon"@,
        Idioma::Polaco => "Wersja"@,
        Idioma::PortuguesBrasil => "Versão"@,
        Idioma::Ruso => "Версия"@,
        Idioma::Turco => "Sürüm"@,
        Idioma::Vietnamita => "Phiên bản"@,
        Idioma::ChinoSimplificado => "版本"@,
    }
}

pub fn t_version(idioma: Idioma) -> (r: &'static str)
    ensures
        r@ == t_version_spec(idioma),
{
    match idioma {
        Idioma::BelarusLatino => "Vjersija",
        Idioma::Belarus | Idioma::Ucraniano => "Версія",
        Idioma::Catalan => "Versió",
        Idioma::Checo => "Verze",
        Idioma::Aleman | Idioma::Ingles | Idioma::Frances | Idioma::Sueco => "Version",
        Idioma::Espanol | Idioma::Gallego => "Versión",
        Idioma::Hungaro => "Verzió",
        Idioma::Italiano => "Versione",
        Idioma::Coreano => "버전",
        Idioma::Kurdo => "Versiyon",
        Idioma::Neerlandes => "Versie",
        Idioma::NoruegoNynorsk => "Versjon",
        Idioma::Polaco => "Wersja",
        Idioma::PortuguesBrasil => "Versão",
        Idioma::Ruso => "Версия",
        Idioma::Turco => "Sürüm",
        Idioma::Vietnamita => "Phiên bản",
        Idioma::ChinoSimplificado => "版本",
    }
}

/// The `output` text in each language.
pub open spec fn t_output_spec(idioma: Idioma) -> Seq<char> {
    match idioma {
        Idioma::BelarusLatino => "Hukavy vychad"@,
        Idioma::Belarus => "Гукавы выхад"@,
        Idioma::Catalan => "Sortida de so"@,
        Idioma::Checo => "Zvukový výstup"@,
        Idioma::Aleman => "Tonausgabe"@,
        Idioma::Ingles => "Sound output"@,
        Idioma::Espanol => "Salida de sonido"@,
        Idioma::Frances => "Sortie sonore"@,
        Idioma::Gallego => "Saída de son"@,
        Idioma::Hungaro => "Hangkimenet"@,
        Idioma::Italiano => "Uscita audio"@,
        Idioma::Coreano => "사운드 출력"@,
        Idioma::Kurdo => "Derketina deng"@,
        Idioma::Neerlandes => "Geluidsuitvoer"@,
        Idioma::NoruegoNynorsk => "Lydutgang"@,
        Idioma::Polaco => "Wyjście dźwięku"@,
        Idioma::PortuguesBrasil => "Saída de som"@,
        Idioma::Ruso => "Звуковой выход"@,
        Idioma::Sueco => "Ljudutgång"@,
        Idioma::Turco => "Ses çıkışı"@,
        Idioma::Ucraniano => "Звуковий вихід"@,
        Idioma::Vietnamita => "Âm thanh phát ra"@,
        Idioma::ChinoSimplificado => "声音输出"@,
    }
}

pub fn t_output(idioma: Idioma) -> (r: &'static str)
    ensures
        r@ == t_output_spec(idioma),
{
    match idioma {
        Idioma::BelarusLatino => "Hukavy vychad",
        Idioma::Belarus => "Гукавы выхад",
        Idioma::Catalan => "Sortida de so",
        Idioma::Checo => "Zvukový výstup",
        Idioma::Aleman => "Tonausgabe",
        Idioma::Ingles => "Sound output",
        Idioma::Espanol => "Salida de sonido",
        Idioma::Frances => "Sortie sonore",
        Idioma::Gallego => "Saída de son",
        Idioma::Hungaro => "Hangkimenet",
        Idioma::Italiano => "Uscita audio",
        Idioma::Coreano => "사운드 출력",
        Idioma::Kurdo => "Derketina deng",
        Idioma::Neerlandes => "Geluidsuitvoer",
        Idioma::NoruegoNynorsk => "Lydutgang",
        Idioma::Polaco => "Wyjście dźwięku",
        Idioma::PortuguesBrasil => "Saída de som",
        Idioma::Ruso => "Звуковой выход",
        Idioma::Sueco => "Ljudutgång",
        Idioma::Turco => "Ses çıkışı",
        Idioma::Ucraniano => "Звуковий вихід",
        Idioma::Vietnamita => "Âm thanh phát ra",
        Idioma::ChinoSimplificado => "声音输出",
    }
}

/// The `input` text in each language.
pub open spec fn t_input_spec(idioma: Idioma) -> Seq<char> {
    match idioma {
        Idioma::BelarusLatino => "Mikrafon"@,
        Idioma::Belarus => "Мікрафон"@,
        Idioma::Catalan => "Micròfon"@,
        Idioma::Checo | Idioma::Aleman | Idioma::Hungaro | Idioma::NoruegoNynorsk | Idioma::Polaco | Idioma::Sueco | Idioma::Turco => "Mikrofon"@,
        Idioma::Ingles => "Microphone"@,
        Idioma::Espanol | Idioma::Gallego => "Micrófono"@,
        Idioma::Frances => "Micro"@,
        Idioma::Italiano => "Microfono"@,
        Idioma::Coreano => "마이크"@,
        Idioma::Kurdo => "Mîkrofon"@,
        Idioma::Neerlandes => "Microfoon"@,
        Idioma::PortuguesBrasil => "Microfone"@,
        Idioma::Ruso => "Микрофон"@,
        Idioma::Ucraniano => "Мікрофон"@,
        Idioma::Vietnamita => "Micrô"@,
        Idioma::ChinoSimplificado => "麦克风"@,
    }
}

pub fn t_input(idioma: Idioma) -> (r: &'static str)
    ensures
        r@ == t_input_spec(idioma),
{
    match idioma {
        Idioma::BelarusLatino => "Mikrafon",
        Idioma::Belarus => "Мікрафон",
        Idioma::Catalan => "Micròfon",
        Idioma::Checo | Idioma::Aleman | Idioma::Hungaro | Idioma::NoruegoNynorsk | Idioma::Polaco | Idioma::Sueco | Idioma::Turco => "Mikrofon",
        Idioma::Ingles => "Microphone",
        Idioma::Espanol | Idioma::Gallego => "Micrófono",
        Idioma::Frances => "Micro",
        Idioma::Italiano => "Microfono",
        Idioma::Coreano => "마이크",
        Idioma::Kurdo => "Mîkrofon",
        Idioma::Neerlandes => "Microfoon",
        Idioma::PortuguesBrasil => "Microfone",
        Idioma::Ruso => "Микрофон",
        Idioma::Ucraniano => "Мікрофон",
        Idioma::Vietnamita => "Micrô",
        Idioma::ChinoSimplificado => "麦克风",
    }
}

/// The `volume` text in each language.
pub open spec fn t_volume_spec(idioma: Idioma) -> Seq<char> {
    match idioma {
        Idioma::BelarusLatino => "Ab'jom"@,
        Idioma::Belarus => "Гучнасць"@,
        Idioma::Catalan => "Volum"@,
        Idioma::Checo => "Hlasitost"@,
        Idioma::Aleman => "Lautstärke"@,
        Idioma::Ingles | Idioma::Frances | Idioma::Gallego | Idioma::Italiano | Idioma::Neerlandes | Idioma::PortuguesBrasil => "Volume"@,
        Idioma::Espanol => "Volumen"@,
        Idioma::Hungaro => "Hangerő"@,
        Idioma::Coreano => "볼륨"@,
        Idioma::Kurdo => "Bilindahiya dengê"@,
        Idioma::NoruegoNynorsk => "Ljodstyrke"@,
        Idioma::Polaco => "Głośność"@,
        Idioma::Ruso => "Громкость"@,
        Idioma::Sueco => "Volym"@,
        Idioma::Turco => "Ses"@,
        Idioma::Ucraniano => "Гучність"@,
        Idioma::Vietnamita => "Âm lượng"@,
        Idioma::ChinoSimplificado => "音量"@,
    }
}

pub fn t_volume(idioma: Idioma) -> (r: &'static str)
    ensures
        r@ == t_volume_spec(idioma),
{
    match idioma {
        Idioma::BelarusLatino => "Ab'jom",
        Idioma::Belarus => "Гучнасць",
        Idioma::Catalan => "Volum",
        Idioma::Checo => "Hlasitost",
        Idioma::Aleman => "Lautstärke",
        Idioma::Ingles | Idioma::Frances | Idioma::Gallego | Idioma::Italiano | Idioma::Neerlandes | Idioma::PortuguesBrasil => "Volume",
        Idioma::Espanol => "Volumen",
        Idioma::Hungaro => "Hangerő",
        Idioma::Coreano => "볼륨",
        Idioma::Kurdo => "Bilindahiya dengê",
        Idioma::NoruegoNynorsk => "Ljodstyrke",
        Idioma::Polaco => "Głośność",
        Idioma::Ruso => "Громкость",
        Idioma::Sueco => "Volym",
        Idioma::Turco => "Ses",
        Idioma::Ucraniano => "Гучність",
        Idioma::Vietnamita => "Âm lượng",
        Idioma::ChinoSimplificado => "音量",
    }
}

/// The `mute` text in each language.
pub open spec fn t_mute_spec(idioma: Idioma) -> Seq<char> {
    match idioma {
        Idioma::BelarusLatino => "Adkłjučyc huk"@,
        Idioma::Belarus => "Адключыць гук"@,
        Idioma::Catalan | Idioma::Espanol | Idioma::Gallego | Idioma::PortuguesBrasil => "Silenciar"@,
        Idioma::Checo => "Ztlumit"@,
        Idioma::Aleman => "Stumm"@,
        Idioma::Ingles => "Mute"@,
        Idioma::Frances => "Muet"@,
        Idioma::Hungaro => "Némítás"@,
        Idioma::Italiano => "Muto"@,
        Idioma::Coreano => "음소거"@,
        Idioma::Kurdo => "Bêdeng bike"@,
        Idioma::Neerlandes => "Dempen"@,
        Idioma::NoruegoNynorsk => "Demp"@,
        Idioma::Polaco => "Wycisz"@,
        Idioma::Ruso => "Без звука"@,
        Idioma::Sueco => "Ljud av"@,
        Idioma::Turco => "Sessiz"@,
        Idioma::Ucraniano => "Вимкнути звук"@,
        Idioma::Vietnamita => "Tắt tiếng"@,
        Idioma::ChinoSimplificado => "静音"@,
    }
}

pub fn t_mute(idioma: Idioma) -> (r: &'static str)
    ensures
        r@ == t_mute_spec(idioma),
{
    match idioma {
        Idioma::BelarusLatino => "Adkłjučyc huk",
        Idioma::Belarus => "Адключыць гук",
        Idioma::Catalan | Idioma::Espanol | Idioma::Gallego | Idioma::PortuguesBrasil => "Silenciar",
        Idioma::Checo => "Ztlumit",
        Idioma::Aleman => "Stumm",
        Idioma::Ingles => "Mute",
        Idioma::Frances => "Muet",
        Idioma::Hungaro => "Némítás",
        Idioma::Italiano => "Muto",
        Idioma::Coreano => "음소거",
        Idioma::Kurdo => "Bêdeng bike",
        Idioma::Neerlandes => "Dempen",
        Idioma::NoruegoNynorsk => "Demp",
        Idioma::Polaco => "Wycisz",
        Idioma::Ruso => "Без звука",
        Idioma::Sueco => "Ljud av",
        Idioma::Turco => "Sessiz",
        Idioma::Ucraniano => "Вимкнути звук",
        Idioma::Vietnamita => "Tắt tiếng",
        Idioma::ChinoSimplificado => "静音",
    }
}

/// The `cameras` text in each language.
pub open spec fn t_cameras_spec(idioma: Idioma) -> Seq<char> {
    match idioma {
        Idioma::BelarusLatino => "Kamjery"@,
        Idioma::Belarus | Idioma::Ruso => "Камеры"@,
        Idioma::Catalan => "Càmeres"@,
        Idioma::Checo => "Fotoaparáty"@,
        Idioma::Aleman => "Kameras"@,
        Idioma::Ingles => "Cameras"@,
        Idioma::Espanol | Idioma::Gallego => "Cámaras"@,
        Idioma::Frances => "Caméras"@,
        Idioma::Hungaro => "Kamerák"@,
        Idioma::Italiano => "Telecamere"@,
        Idioma::Coreano => "카메라"@,
        Idioma::Kurdo => "Kamera"@,
        Idioma::Neerlandes => "Camera's"@,
        Idioma::NoruegoNynorsk => "Kameraer"@,
        Idioma::Polaco => "Kamery"@,
        Idioma::PortuguesBrasil => "Câmeras"@,
        Idioma::Sueco => "Kameror"@,
        Idioma::Turco => "Kameralar"@,
        Idioma::Ucraniano => "Камери"@,
        Idioma::Vietnamita => "Máy Ảnh"@,
        Idioma::ChinoSimplificado => "相机"@,
    }
}

pub fn t_cameras(idioma: Idioma) -> (r: &'static str)
    ensures
        r@ == t_cameras_spec(idioma),
{
    match idioma {
        Idioma::BelarusLatino => "Kamjery",
        Idioma::Belarus | Idioma::Ruso => "Камеры",
        Idioma::Catalan => "Càmeres",
        Idioma::Checo => "Fotoaparáty",
        Idioma::Aleman => "Kameras",
        Idioma::Ingles => "Cameras",
        Idioma::Espanol | Idioma::Gallego => "Cámaras",
        Idioma::Frances => "Caméras",
        Idioma::Hungaro => "Kamerák",
        Idioma::Italiano => "Telecamere",
        Idioma::Coreano => "카메라",
        Idioma::Kurdo => "Kamera",
        Idioma::Neerlandes => "Camera's",
        Idioma::NoruegoNynorsk => "Kameraer",
        Idioma::Polaco => "Kamery",
        Idioma::PortuguesBrasil => "Câmeras",
        Idioma::Sueco => "Kameror",
        Idioma::Turco => "Kameralar",
        Idioma::Ucraniano => "Камери",
        Idioma::Vietnamita => "Máy Ảnh",
        Idioma::ChinoSimplificado => "相机",
    }
}

/// The `software_sources` text in each language.
pub open spec fn t_software_sources_spec(idioma: Idioma) -> Seq<char> {
    match idioma {
        Idioma::BelarusLatino => "Katałoh prahramnaha zabjespjačennja"@,
        Idioma::Belarus => "Каталог праграмнага забеспячэння"@,
        Idioma::Catalan => "Catàleg de programari"@,
        Idioma::Checo => "Katalog softwaru"@,
        Idioma::Aleman => "Softwarekatalog"@,
        Idioma::Ingles => "Software catalog"@,
        Idioma::Espanol | Idioma::Gallego | Idioma::PortuguesBrasil => "Catálogo de software"@,
        Idioma::Frances => "Catalogue de logiciels"@,
        Idioma::Hungaro => "Szoftverkatalógus"@,
        Idioma::Italiano => "Catalogo software"@,
        Idioma::Coreano => "소프트웨어 카탈로그"@,
        Idioma::Kurdo => "Kataloga nermalavê"@,
        Idioma::Neerlandes => "Softwarecatalogus"@,
        Idioma::NoruegoNynorsk => "Programvarekatalog"@,
        Idioma::Polaco => "Katalog oprogramowania"@,
        Idioma::Ruso => "Каталог программного обеспечения"@,
        Idioma::Sueco => "Programvarukatalog"@,
        Idioma::Turco => "Yazılım kataloğu"@,
        Idioma::Ucraniano => "Каталог програмного забезпечення"@,
        Idioma::Vietnamita => "Danh mục phần mềm"@,
        Idioma::ChinoSimplificado => "软件目录"@,
    }
}

pub fn t_software_sources(idioma: Idioma) -> (r: &'static str)
    ensures
        r@ == t_software_sources_spec(idioma),
{
    match idioma {
        Idioma::BelarusLatino => "Katałoh prahramnaha zabjespjačennja",
        Idioma::Belarus => "Каталог праграмнага забеспячэння",
        Idioma::Catalan => "Catàleg de programari",
        Idioma::Checo => "Katalog softwaru",
        Idioma::Aleman => "Softwarekatalog",
        Idioma::Ingles => "Software catalog",
        Idioma::Espanol | Idioma::Gallego | Idioma::PortuguesBrasil => "Catálogo de software",
        Idioma::Frances => "Catalogue de logiciels",
        Idioma::Hungaro => "Szoftverkatalógus",
        Idioma::Italiano => "Catalogo software",
        Idioma::Coreano => "소프트웨어 카탈로그",
        Idioma::Kurdo => "Kataloga nermalavê",
        Idioma::Neerlandes => "Softwarecatalogus",
        Idioma::NoruegoNynorsk => "Programvarekatalog",
        Idioma::Polaco => "Katalog oprogramowania",
        Idioma::Ruso => "Каталог программного обеспечения",
        Idioma::Sueco => "Programvarukatalog",
        Idioma::Turco => "Yazılım kataloğu",
        Idioma::Ucraniano => "Каталог програмного забезпечення",
        Idioma::Vietnamita => "Danh mục phần mềm",
        Idioma::ChinoSimplificado => "软件目录",
    }
}

/// The `update_sources` text in each language.
pub open spec fn t_update_sources_spec(idioma: Idioma) -> Seq<char> {
    match idioma {
        Idioma::BelarusLatino => "Abnaŭłjennje katałoha"@,
        Idioma::Belarus => "Абнаўленне каталога"@,
        Idioma::Catalan => "Actualitza el catàleg"@,
        Idioma::Checo => "Aktualizace katalogu"@,
        Idioma::Aleman => "Katalog aktualisieren"@,
        Idioma::Ingles => "Update catalog"@,
        Idioma::Espanol | Idioma::Gallego => "Actualizar catálogo"@,
        Idioma::Frances => "Mettre à jour le catalogue"@,
        Idioma::Hungaro => "Katalógus frissítése"@,
        Idioma::Italiano => "Aggiorna catalogo"@,
        Idioma::Coreano => "카탈로그 업데이트"@,
        Idioma::Kurdo => "Nûvekirina katalogê"@,
        Idioma::Neerlandes => "Catalogus bijwerken"@,
        Idioma::NoruegoNynorsk => "Oppdater katalog"@,
        Idioma::Polaco => "Aktualizuj katalog"@,
        Idioma::PortuguesBrasil => "Atualizar catálogo"@,
        Idioma::Ruso => "Обновление каталога"@,
        Idioma::Sueco => "Uppdatera katalog"@,
        Idioma::Turco => "Kataloğu güncelle"@,
        Idioma::Ucraniano => "Оновити каталог"@,
        Idioma::Vietnamita => "Cập nhật danh mục"@,
        Idioma::ChinoSimplificado => "更新目录"@,
    }
}

pub fn t_update_sources(idioma: Idioma) -> (r: &'static str)
    ensures
        r@ == t_update_sources_spec(idioma),
{
    match idioma {
        Idioma::BelarusLatino => "Abnaŭłjennje katałoha",
        Idioma::Belarus => "Абнаўленне каталога",
        Idioma::Catalan => "Actualitza el catàleg",
        Idioma::Checo => "Aktualizace katalogu",
        Idioma::Aleman => "Katalog aktualisieren",
        Idioma::Ingles => "Update catalog",
        Idioma::Espanol | Idioma::Gallego => "Actualizar catálogo",
        Idioma::Frances => "Mettre à jour le catalogue",
        Idioma::Hungaro => "Katalógus frissítése",
        Idioma::Italiano => "Aggiorna catalogo",
        Idioma::Coreano => "카탈로그 업데이트",
        Idioma::Kurdo => "Nûvekirina katalogê",
        Idioma::Neerlandes => "Catalogus bijwerken",
        Idioma::NoruegoNynorsk => "Oppdater katalog",
        Idioma::Polaco => "Aktualizuj katalog",
        Idioma::PortuguesBrasil => "Atualizar catálogo",
        Idioma::Ruso => "Обновление каталога",
        Idioma::Sueco => "Uppdatera katalog",
        Idioma::Turco => "Kataloğu güncelle",
        Idioma::Ucraniano => "Оновити каталог",
        Idioma::Vietnamita => "Cập nhật danh mục",
        Idioma::ChinoSimplificado => "更新目录",
    }
}

/// The `privileges` text in each language.
pub open spec fn t_privileges_spec(idioma: Idioma) -> Seq<char> {
    match idioma {
        Idioma::BelarusLatino => "Aŭtaryzacyja"@,
        Idioma::Belarus => "Аўтарызацыя"@,
        Idioma::Catalan => "Autorització"@,
        Idioma::Checo => "Autorizace"@,
        Idioma::Aleman => "Autorisierung"@,
        Idioma::Ingles | Idioma::Turco => "Authorization"@,
        Idioma::Espanol | Idioma::Gallego => "Autorización"@,
        Idioma::Frances => "Autorisation"@,
        Idioma::Hungaro => "Engedélyezés"@,
        Idioma::Italiano => "Autorizzazione"@,
        Idioma::Coreano => "승인"@,
        Idioma::Kurdo => "Destûrkirin"@,
        Idioma::Neerlandes => "Autorisatie"@,
        Idioma::NoruegoNynorsk => "Autorisasjon"@,
        Idioma::Polaco => "Autoryzacja"@,
        Idioma::PortuguesBrasil => "Autorização"@,
        Idioma::Ruso => "Авторизация"@,
        Idioma::Sueco => "Auktorisering"@,
        Idioma::Ucraniano => "Авторизація"@,
        Idioma::Vietnamita => "Ủy quyền"@,
        Idioma::ChinoSimplificado => "授权"@,
    }
}

pub fn t_privileges(idioma: Idioma) -> (r: &'static str)
    ensures
        r@ == t_privileges_spec(idioma),
{
    match idioma {
        Idioma::BelarusLatino => "Aŭtaryzacyja",
        Idioma::Belarus => "Аўтарызацыя",
        Idioma::Catalan => "Autorització",
        Idioma::Checo => "Autorizace",
        Idioma::Aleman => "Autorisierung",
        Idioma::Ingles | Idioma::Turco => "Authorization",
        Idioma::Espanol | Idioma::Gallego => "Autorización",
        Idioma::Frances => "Autorisation",
        Idioma::Hungaro => "Engedélyezés",
        Idioma::Italiano => "Autorizzazione",
        Idioma::Coreano => "승인",
        Idioma::Kurdo => "Destûrkirin",
        Idioma::Neerlandes => "Autorisatie",
        Idioma::NoruegoNynorsk => "Autorisasjon",
        Idioma::Polaco => "Autoryzacja",
        Idioma::PortuguesBrasil => "Autorização",
        Idioma::Ruso => "Авторизация",
        Idioma::Sueco => "Auktorisering",
        Idioma::Ucraniano => "Авторизація",
        Idioma::Vietnamita => "Ủy quyền",
        Idioma::ChinoSimplificado => "授权",
    }
}

/// The `operation_done` text in each language.
pub open spec fn t_operation_done_spec(idioma: Idioma) -> Seq<char> {
    match idioma {
        Idioma::BelarusLatino => "Apjeracyja zavjeršana."@,
        Idioma::Belarus => "Аперацыя завершана."@,
        Idioma::Catalan => "Operació completada."@,
        Idioma::Checo => "Operace dokončena."@,
        Idioma::Aleman => "Vorgang abgeschlossen."@,
        Idioma::Ingles => "Operation completed."@,
        Idioma::Espanol => "Operación completada."@,
        Idioma::Frances => "Opération terminée."@,
        Idioma::Gallego => "Operación rematada."@,
        Idioma::Hungaro => "A művelet befejeződött."@,
        Idioma::Italiano => "Operazione completata."@,
        Idioma::Coreano => "작업이 완료되었습니다."@,
        Idioma::Kurdo => "Operasyon qediya."@,
        Idioma::Neerlandes => "Bewerking voltooid."@,
        Idioma::NoruegoNynorsk => "Operasjon fullført."@,
        Idioma::Polaco => "Operacja zakończona."@,
        Idioma::PortuguesBrasil => "Operação concluída."@,
        Idioma::Ruso => "Операция завершена."@,
        Idioma::Sueco => "Operation slutförd."@,
        Idioma::Turco => "İşlem tamamlandı."@,
        Idioma::Ucraniano => "Операцію завершено."@,
        Idioma::Vietnamita => "Hoạt động đã hoàn tất."@,
        Idioma::ChinoSimplificado => "操作完成。"@,
    }
}

pub fn t_operation_done(idioma: Idioma) -> (r: &'static str)
    ensures
        r@ == t_operation_done_spec(idioma),
{
    match idioma {
        Idioma::BelarusLatino => "Apjeracyja zavjeršana.",
        Idioma::Belarus => "Аперацыя завершана.",
        Idioma::Catalan => "Operació completada.",
        Idioma::Checo => "Operace dokončena.",
        Idioma::Aleman => "Vorgang abgeschlossen.",
        Idioma::Ingles => "Operation completed.",
        Idioma::Espanol => "Operación completada.",
        Idioma::Frances => "Opération terminée.",
        Idioma::Gallego => "Operación rematada.",
        Idioma::Hungaro => "A művelet befejeződött.",
        Idioma::Italiano => "Operazione completata.",
        Idioma::Coreano => "작업이 완료되었습니다.",
        Idioma::Kurdo => "Operasyon qediya.",
        Idioma::Neerlandes => "Bewerking voltooid.",
        Idioma::NoruegoNynorsk => "Operasjon fullført.",
        Idioma::Polaco => "Operacja zakończona.",
        Idioma::PortuguesBrasil => "Operação concluída.",
        Idioma::Ruso => "Операция завершена.",
        Idioma::Sueco => "Operation slutförd.",
        Idioma::Turco => "İşlem tamamlandı.",
        Idioma::Ucraniano => "Операцію завершено.",
        Idioma::Vietnamita => "Hoạt động đã hoàn tất.",
        Idioma::ChinoSimplificado => "操作完成。",
    }
}

/// The `operation_failed` text in each language.
pub open spec fn t_operation_failed_spec(idioma: Idioma) -> Seq<char> {
    match idioma {
        Idioma::BelarusLatino => "Apjeracyja pravałiłasja."@,
        Idioma::Belarus => "Аперацыя не атрымалася."@,
        Idioma::Catalan => "L'operació ha fallat."@,
        Idioma::Checo => "Operace se nezdařila."@,
        Idioma::Aleman => "Der Vorgang ist fehlgeschlagen."@,
        Idioma::Ingles => "The operation failed."@,
        Idioma::Espanol => "La operación falló."@,
        Idioma::Frances => "L'opération a échoué."@,
        Idioma::Gallego => "Fallou a operación."@,
        Idioma::Hungaro => "A művelet sikertelen."@,
        Idioma::Italiano => "Operazione non riuscita."@,
        Idioma::Coreano => "작업이 실패했습니다."@,
        Idioma::Kurdo => "Operasyon bi ser neket."@,
        Idioma::Neerlandes => "De bewerking is mislukt."@,
        Idioma::NoruegoNynorsk => "Operasjonen mislyktes."@,
        Idioma::Polaco => "Operacja nie powiodła się."@,
        Idioma::PortuguesBrasil => "A operação falhou."@,
        Idioma::Ruso => "Операция не удалась."@,
        Idioma::Sueco => "Åtgärden misslyckades."@,
        Idioma::Turco => "İşlem başarısız oldu."@,
        Idioma::Ucraniano => "Не вдалося виконати операцію."@,
        Idioma::Vietnamita => "Thao tác không thành công."@,
        Idioma::ChinoSimplificado => "操作失败。"@,
    }
}

pub fn t_operation_failed(idioma: Idioma) -> (r: &'static str)
    ensures
        r@ == t_operation_failed_spec(idioma),
{
    match idioma {
        Idioma::BelarusLatino => "Apjeracyja pravałiłasja.",
        Idioma::Belarus => "Аперацыя не атрымалася.",
        Idioma::Catalan => "L'operació ha fallat.",
        Idioma::Checo => "Operace se nezdařila.",
        Idioma::Aleman => "Der Vorgang ist fehlgeschlagen.",
        Idioma::Ingles => "The operation failed.",
        Idioma::Espanol => "La operación falló.",
        Idioma::Frances => "L'opération a échoué.",
        Idioma::Gallego => "Fallou a operación.",
        Idioma::Hungaro => "A művelet sikertelen.",
        Idioma::Italiano => "Operazione non riuscita.",
        Idioma::Coreano => "작업이 실패했습니다.",
        Idioma::Kurdo => "Operasyon bi ser neket.",
        Idioma::Neerlandes => "De bewerking is mislukt.",
        Idioma::NoruegoNynorsk => "Operasjonen mislyktes.",
        Idioma::Polaco => "Operacja nie powiodła się.",
        Idioma::PortuguesBrasil => "A operação falhou.",
        Idioma::Ruso => "Операция не удалась.",
        Idioma::Sueco => "Åtgärden misslyckades.",
        Idioma::Turco => "İşlem başarısız oldu.",
        Idioma::Ucraniano => "Не вдалося виконати операцію.",
        Idioma::Vietnamita => "Thao tác không thành công.",
        Idioma::ChinoSimplificado => "操作失败。",
    }
}

/// The `confirm_operation` text in each language.
pub open spec fn t_confirm_operation_spec(idioma: Idioma) -> Seq<char> {
    match idioma {
        Idioma::BelarusLatino => "Pacvjerdzic apjeracyju"@,
        Idioma::Belarus => "Пацвердзіць аперацыю"@,
        Idioma::Catalan => "Confirmeu l'operació"@,
        Idioma::Checo => "Potvrďte operaci"@,
        Idioma::Aleman => "Bestätigen Sie den Vorgang"@,
        Idioma::Ingles => "Confirm operation"@,
        Idioma::Espanol => "Confirmar operación"@,
        Idioma::Frances => "Confirmer l'opération"@,
        Idioma::Gallego => "Confirmar a operación"@,
        Idioma::Hungaro => "Művelet megerősítése"@,
        Idioma::Italiano => "Conferma l'operazione"@,
        Idioma::Coreano => "작업 확인"@,
        Idioma::Kurdo => "Operasyonê piştrast bike"@,
        Idioma::Neerlandes => "Bewerking bevestigen"@,
        Idioma::NoruegoNynorsk => "Bekreft operasjon"@,
        Idioma::Polaco => "Potwierdź operację"@,
        Idioma::PortuguesBrasil => "Confirmar operação"@,
        Idioma::Ruso => "Подтвердить операцию"@,
        Idioma::Sueco => "Bekräfta åtgärden"@,
        Idioma::Turco => "İşlemi onayla"@,
        Idioma::Ucraniano => "Підтвердити операцію"@,
        Idioma::Vietnamita => "Xác nhận thao tác"@,
        Idioma::ChinoSimplificado => "确认操作"@,
    }
}

pub fn t_confirm_operation(idioma: Idioma) -> (r: &'static str)
    ensures
        r@ == t_confirm_operation_spec(idioma),
{
    match idioma {
        Idioma::BelarusLatino => "Pacvjerdzic apjeracyju",
        Idioma::Belarus => "Пацвердзіць аперацыю",
        Idioma::Catalan => "Confirmeu l'operació",
        Idioma::Checo => "Potvrďte operaci",
        Idioma::Aleman => "Bestätigen Sie den Vorgang",
        Idioma::Ingles => "Confirm operation",
        Idioma::Espanol => "Confirmar operación",
        Idioma::Frances => "Confirmer l'opération",
        Idioma::Gallego => "Confirmar a operación",
        Idioma::Hungaro => "Művelet megerősítése",
        Idioma::Italiano => "Conferma l'operazione",
        Idioma::Coreano => "작업 확인",
        Idioma::Kurdo => "Operasyonê piştrast bike",
        Idioma::Neerlandes => "Bewerking bevestigen",
        Idioma::NoruegoNynorsk => "Bekreft operasjon",
        Idioma::Polaco => "Potwierdź operację",
        Idioma::PortuguesBrasil => "Confirmar operação",
        Idioma::Ruso => "Подтвердить операцию",
        Idioma::Sueco => "Bekräfta åtgärden",
        Idioma::Turco => "İşlemi onayla",
        Idioma::Ucraniano => "Підтвердити операцію",
        Idioma::Vietnamita => "Xác nhận thao tác",
        Idioma::ChinoSimplificado => "确认操作",
    }
}

/// The `current` text in each language.
pub open spec fn t_current_spec(idioma: Idioma) -> Seq<char> {
    match idioma {
        Idioma::BelarusLatino => "Tok"@,
        Idioma::Belarus => "Ток"@,
        Idioma::Catalan | Idioma::Espanol | Idioma::Gallego => "Actual"@,
        Idioma::Checo => "Aktuální"@,
        Idioma::Aleman | Idioma::Sueco => "Aktuell"@,
        Idioma::Ingles => "Current"@,
        Idioma::Frances => "Actuel"@,
        Idioma::Hungaro => "Jelenlegi"@,
        Idioma::Italiano => "Corrente"@,
        Idioma::Coreano => "현재"@,
        Idioma::Kurdo => "Niha"@,
        Idioma::Neerlandes => "Huidig"@,
        Idioma::NoruegoNynorsk => "Gjeldende"@,
        Idioma::Polaco => "Prąd"@,
        Idioma::PortuguesBrasil => "Atual"@,
        Idioma::Ruso => "Текущий"@,
        Idioma::Turco => "Güncel"@,
        Idioma::Ucraniano => "Поточний"@,
        Idioma::Vietnamita => "hiện tại"@,
        Idioma::ChinoSimplificado => "当前"@,
    }
}

pub fn t_current(idioma: Idioma) -> (r: &'static str)
    ensures
        r@ == t_current_spec(idioma),
{
    match idioma {
        Idioma::BelarusLatino => "Tok",
        Idioma::Belarus => "Ток",
        Idioma::Catalan | Idioma::Espanol | Idioma::Gallego => "Actual",
        Idioma::Checo => "Aktuální",
        Idioma::Aleman | Idioma::Sueco => "Aktuell",
        Idioma::Ingles => "Current",
        Idioma::Frances => "Actuel",
        Idioma::Hungaro => "Jelenlegi",
        Idioma::Italiano => "Corrente",
        Idioma::Coreano => "현재",
        Idioma::Kurdo => "Niha",
        Idioma::Neerlandes => "Huidig",
        Idioma::NoruegoNynorsk => "Gjeldende",
        Idioma::Polaco => "Prąd",
        Idioma::PortuguesBrasil => "Atual",
        Idioma::Ruso => "Текущий",
        Idioma::Turco => "Güncel",
        Idioma::Ucraniano => "Поточний",
        Idioma::Vietnamita => "hiện tại",
        Idioma::ChinoSimplificado => "当前",
    }
}

/// The `host` text in each language.
pub open spec fn t_host_spec(idioma: Idioma) -> Seq<char> {
    match idioma {
        Idioma::BelarusLatino => "Kamputar"@,
        Idioma::Belarus => "Кампутар"@,
        Idioma::Catalan => "Ordinador"@,
        Idioma::Checo => "Počítač"@,
        Idioma::Aleman | Idioma::Ingles | Idioma::Italiano | Idioma::Neerlandes => "Computer"@,
        Idioma::Espanol => "Equipo"@,
        Idioma::Frances => "Ordinateur"@,
        Idioma::Gallego => "Ordenador"@,
        Idioma::Hungaro => "Számítógép"@,
        Idioma::Coreano => "컴퓨터"@,
        Idioma::Kurdo | Idioma::Polaco => "Komputer"@,
        Idioma::NoruegoNynorsk => "Datamaskin"@,
        Idioma::PortuguesBrasil => "Computador"@,
        Idioma::Ruso => "Компьютер"@,
        Idioma::Sueco => "Dator"@,
        Idioma::Turco => "Bilgisayar"@,
        Idioma::Ucraniano => "Комп'ютер"@,
        Idioma::Vietnamita => "Máy tính"@,
        Idioma::ChinoSimplificado => "电脑"@,
    }
}

pub fn t_host(idioma: Idioma) -> (r: &'static str)
    ensures
        r@ == t_host_spec(idioma),
{
    match idioma {
        Idioma::BelarusLatino => "Kamputar",
        Idioma::Belarus => "Кампутар",
        Idioma::Catalan => "Ordinador",
        Idioma::Checo => "Počítač",
        Idioma::Aleman | Idioma::Ingles | Idioma::Italiano | Idioma::Neerlandes => "Computer",
        Idioma::Espanol => "Equipo",
        Idioma::Frances => "Ordinateur",
        Idioma::Gallego => "Ordenador",
        Idioma::Hungaro => "Számítógép",
        Idioma::Coreano => "컴퓨터",
        Idioma::Kurdo | Idioma::Polaco => "Komputer",
        Idioma::NoruegoNynorsk => "Datamaskin",
        Idioma::PortuguesBrasil => "Computador",
        Idioma::Ruso => "Компьютер",
        Idioma::Sueco => "Dator",
        Idioma::Turco => "Bilgisayar",
        Idioma::Ucraniano => "Комп'ютер",
        Idioma::Vietnamita => "Máy tính",
        Idioma::ChinoSimplificado => "电脑",
    }
}

/// The `model` text in each language.
pub open spec fn t_model_spec(idioma: Idioma) -> Seq<char> {
    match idioma {
        Idioma::BelarusLatino => "madeł"@,
        Idioma::Belarus => "Мадэль"@,
        Idioma::Catalan | Idioma::Checo | Idioma::Ingles | Idioma::Kurdo | Idioma::Neerlandes | Idioma::Polaco | Idioma::Vietnamita => "Model"@,
        Idioma::Aleman | Idioma::Hungaro | Idioma::NoruegoNynorsk | Idioma::Sueco => "Modell"@,
        Idioma::Espanol | Idioma::Gallego | Idioma::PortuguesBrasil => "Modelo"@,
        Idioma::Frances => "Modèle"@,
        Idioma::Italiano => "Modello"@,
        Idioma::Coreano => "모델"@,
        Idioma::Ruso | Idioma::Ucraniano => "Модель"@,
        Idioma::Turco => "Modeli"@,
        Idioma::ChinoSimplificado => "型号"@,
    }
}

pub fn t_model(idioma: Idioma) -> (r: &'static str)
    ensures
        r@ == t_model_spec(idioma),
{
    match idioma {
        Idioma::BelarusLatino => "madeł",
        Idioma::Belarus => "Мадэль",
        Idioma::Catalan | Idioma::Checo | Idioma::Ingles | Idioma::Kurdo | Idioma::Neerlandes | Idioma::Polaco | Idioma::Vietnamita => "Model",
        Idioma::Aleman | Idioma::Hungaro | Idioma::NoruegoNynorsk | Idioma::Sueco => "Modell",
        Idioma::Espanol | Idioma::Gallego | Idioma::PortuguesBrasil => "Modelo",
        Idioma::Frances => "Modèle",
        Idioma::Italiano => "Modello",
        Idioma::Coreano => "모델",
        Idioma::Ruso | Idioma::Ucraniano => "Модель",
        Idioma::Turco => "Modeli",
        Idioma::ChinoSimplificado => "型号",
    }
}

/// The `cpu` text in each language.
pub open spec fn t_cpu_spec(idioma: Idioma) -> Seq<char> {
    match idioma {
        Idioma::BelarusLatino => "Pracesar"@,
        Idioma::Belarus => "Працэсар"@,
        Idioma::Catalan | Idioma::PortuguesBrasil => "Processador"@,
        Idioma::Checo | Idioma::Polaco => "Procesor"@,
        Idioma::Aleman => "Prozessor"@,
        Idioma::Ingles | Idioma::Neerlandes | Idioma::Sueco => "Processor"@,
        Idioma::Espanol | Idioma::Gallego => "Procesador"@,
        Idioma::Frances => "Processeur"@,
        Idioma::Hungaro => "Processzor"@,
        Idioma::Italiano => "Processore"@,
        Idioma::Coreano => "프로세서"@,
        Idioma::Kurdo => "Pêvajoya"@,
        Idioma::NoruegoNynorsk => "Prosessor"@,
        Idioma::Ruso => "Процессор"@,
        Idioma::Turco => "İşlemci"@,
        Idioma::Ucraniano => "Процесор"@,
        Idioma::Vietnamita => "Bộ xử lý"@,
        Idioma::ChinoSimplificado => "处理器"@,
    }
}

pub fn t_cpu(idioma: Idioma) -> (r: &'static str)
    ensures
        r@ == t_cpu_spec(idioma),
{
    match idioma {
        Idioma::BelarusLatino => "Pracesar",
        Idioma::Belarus => "Працэсар",
        Idioma::Catalan | Idioma::PortuguesBrasil => "Processador",
        Idioma::Checo | Idioma::Polaco => "Procesor",
        Idioma::Aleman => "Prozessor",
        Idioma::Ingles | Idioma::Neerlandes | Idioma::Sueco => "Processor",
        Idioma::Espanol | Idioma::Gallego => "Procesador",
        Idioma::Frances => "Processeur",
        Idioma::Hungaro => "Processzor",
        Idioma::Italiano => "Processore",
        Idioma::Coreano => "프로세서",
        Idioma::Kurdo => "Pêvajoya",
        Idioma::NoruegoNynorsk => "Prosessor",
        Idioma::Ruso => "Процессор",
        Idioma::Turco => "İşlemci",
        Idioma::Ucraniano => "Процесор",
        Idioma::Vietnamita => "Bộ xử lý",
        Idioma::ChinoSimplificado => "处理器",
    }
}

/// The `memory` text in each language.
pub open spec fn t_memory_spec(idioma: Idioma) -> Seq<char> {
    match idioma {
        Idioma::BelarusLatino => "Pamjac"@,
        Idioma::Belarus => "Памяць"@,
        Idioma::Catalan => "Memòria"@,
        Idioma::Checo => "Paměť"@,
        Idioma::Aleman => "Speicher"@,
        Idioma::Ingles => "Memory"@,
        Idioma::Espanol | Idioma::Gallego | Idioma::Italiano => "Memoria"@,
        Idioma::Frances => "Mémoire"@,
        Idioma::Hungaro | Idioma::PortuguesBrasil => "Memória"@,
        Idioma::Coreano => "메모리"@,
        Idioma::Kurdo => "Bîrdank"@,
        Idioma::Neerlandes => "Geheugen"@,
        Idioma::NoruegoNynorsk | Idioma::Sueco => "Minne"@,
        Idioma::Polaco => "Pamięć"@,
        Idioma::Ruso => "Память"@,
        Idioma::Turco => "Bellek"@,
        Idioma::Ucraniano => "Пам'ять"@,
        Idioma::Vietnamita => "RAM"@,
        Idioma::ChinoSimplificado => "内存"@,
    }
}

pub fn t_memory(idioma: Idioma) -> (r: &'static str)
    ensures
        r@ == t_memory_spec(idioma),
{
    match idioma {
        Idioma::BelarusLatino => "Pamjac",
        Idioma::Belarus => "Памяць",
        Idioma::Catalan => "Memòria",
        Idioma::Checo => "Paměť",
        Idioma::Aleman => "Speicher",
        Idioma::Ingles => "Memory",
        Idioma::Espanol | Idioma::Gallego | Idioma::Italiano => "Memoria",
        Idioma::Frances => "Mémoire",
        Idioma::Hungaro | Idioma::PortuguesBrasil => "Memória",
        Idioma::Coreano => "메모리",
        Idioma::Kurdo => "Bîrdank",
        Idioma::Neerlandes => "Geheugen",
        Idioma::NoruegoNynorsk | Idioma::Sueco => "Minne",
        Idioma::Polaco => "Pamięć",
        Idioma::Ruso => "Память",
        Idioma::Turco => "Bellek",
        Idioma::Ucraniano => "Пам'ять",
        Idioma::Vietnamita => "RAM",
        Idioma::ChinoSimplificado => "内存",
    }
}

/// The `boot` text in each language.
pub open spec fn t_boot_spec(idioma: Idioma) -> Seq<char> {
    match idioma {
        Idioma::BelarusLatino => "Typ zahruzki"@,
        Idioma::Belarus => "Тып загрузкі"@,
        Idioma::Catalan => "Tipus d'arrencada"@,
        Idioma::Checo => "Typ spouštění"@,
        Idioma::Aleman => "Boot-Typ"@,
        Idioma::Ingles => "Boot type"@,
        Idioma::Espanol => "Tipo de arranque"@,
        Idioma::Frances => "Type de démarrage"@,
        Idioma::Gallego => "Tipo de inicio"@,
        Idioma::Hungaro => "Rendszerindítás típusa"@,
        Idioma::Italiano => "Tipo di avvio"@,
        Idioma::Coreano => "부팅 유형"@,
        Idioma::Kurdo => "Cureyê bootê"@,
        Idioma::Neerlandes => "Opstarttype"@,
        Idioma::NoruegoNynorsk => "Oppstartstype"@,
        Idioma::Polaco => "Typ rozruchu"@,
        Idioma::PortuguesBrasil => "Tipo de inicialização"@,
        Idioma::Ruso => "Тип загрузки"@,
        Idioma::Sueco => "Starttyp"@,
        Idioma::Turco => "Önyükleme türü"@,
        Idioma::Ucraniano => "Тип завантаження"@,
        Idioma::Vietnamita => "Loại khởi động"@,
        Idioma::ChinoSimplificado => "引导类型"@,
    }
}

pub fn t_boot(idioma: Idioma) -> (r: &'static str)
    ensures
        r@ == t_boot_spec(idioma),
{
    match idioma {
        Idioma::BelarusLatino => "Typ zahruzki",
        Idioma::Belarus => "Тып загрузкі",
        Idioma::Catalan => "Tipus d'arrencada",
        Idioma::Checo => "Typ spouštění",
        Idioma::Aleman => "Boot-Typ",
        Idioma::Ingles => "Boot type",
        Idioma::Espanol => "Tipo de arranque",
        Idioma::Frances => "Type de démarrage",
        Idioma::Gallego => "Tipo de inicio",
        Idioma::Hungaro => "Rendszerindítás típusa",
        Idioma::Italiano => "Tipo di avvio",
        Idioma::Coreano => "부팅 유형",
        Idioma::Kurdo => "Cureyê bootê",
        Idioma::Neerlandes => "Opstarttype",
        Idioma::NoruegoNynorsk => "Oppstartstype",
        Idioma::Polaco => "Typ rozruchu",
        Idioma::PortuguesBrasil => "Tipo de inicialização",
        Idioma::Ruso => "Тип загрузки",
        Idioma::Sueco => "Starttyp",
        Idioma::Turco => "Önyükleme türü",
        Idioma::Ucraniano => "Тип завантаження",
        Idioma::Vietnamita => "Loại khởi động",
        Idioma::ChinoSimplificado => "引导类型",
    }
}

/// The `applied` text in each language.
pub open spec fn t_applied_spec(idioma: Idioma) -> Seq<char> {
    match idioma {
        Idioma::BelarusLatino => "Zmjena prymjenjena."@,
        Idioma::Belarus => "Змена прыменена."@,
        Idioma::Catalan => "S'ha aplicat el canvi."@,
        Idioma::Checo => "Změna byla použita."@,
        Idioma::Aleman => "Änderung angewendet."@,
        Idioma::Ingles | Idioma::Turco => "Change applied."@,
        Idioma::Espanol | Idioma::Gallego => "Cambio aplicado."@,
        Idioma::Frances => "Modification appliquée."@,
        Idioma::Hungaro => "A módosítás alkalmazva."@,
        Idioma::Italiano => "Modifica applicata."@,
        Idioma::Coreano => "변경 사항이 적용되었습니다."@,
        Idioma::Kurdo => "Guhertin hate sepandin."@,
        Idioma::Neerlandes => "Wijziging toegepast."@,
        Idioma::NoruegoNynorsk => "Endring tatt i bruk."@,
        Idioma::Polaco => "Zmiana została zastosowana."@,
        Idioma::PortuguesBrasil => "Alteração aplicada."@,
        Idioma::Ruso => "Изменение применено."@,
        Idioma::Sueco => "Ändring tillämpad."@,
        Idioma::Ucraniano => "Зміни застосовано."@,
        Idioma::Vietnamita => "Đã áp dụng thay đổi."@,
        Idioma::ChinoSimplificado => "已应用更改。"@,
    }
}

pub fn t_applied(idioma: Idioma) -> (r: &'static str)
    ensures
        r@ == t_applied_spec(idioma),
{
    match idioma {
        Idioma::BelarusLatino => "Zmjena prymjenjena.",
        Idioma::Belarus => "Змена прыменена.",
        Idioma::Catalan => "S'ha aplicat el canvi.",
        Idioma::Checo => "Změna byla použita.",
        Idioma::Aleman => "Änderung angewendet.",
        Idioma::Ingles | Idioma::Turco => "Change applied.",
        Idioma::Espanol | Idioma::Gallego => "Cambio aplicado.",
        Idioma::Frances => "Modification appliquée.",
        Idioma::Hungaro => "A módosítás alkalmazva.",
        Idioma::Italiano => "Modifica applicata.",
        Idioma::Coreano => "변경 사항이 적용되었습니다.",
        Idioma::Kurdo => "Guhertin hate sepandin.",
        Idioma::Neerlandes => "Wijziging toegepast.",
        Idioma::NoruegoNynorsk => "Endring tatt i bruk.",
        Idioma::Polaco => "Zmiana została zastosowana.",
        Idioma::PortuguesBrasil => "Alteração aplicada.",
        Idioma::Ruso => "Изменение применено.",
        Idioma::Sueco => "Ändring tillämpad.",
        Idioma::Ucraniano => "Зміни застосовано.",
        Idioma::Vietnamita => "Đã áp dụng thay đổi.",
        Idioma::ChinoSimplificado => "已应用更改。",
    }
}

/// The `change_failed` text in each language.
pub open spec fn t_change_failed_spec(idioma: Idioma) -> Seq<char> {
    match idioma {
        Idioma::BelarusLatino => "Nje ŭdałosja ŭžyc zmjanjennje."@,
        Idioma::Belarus => "Немагчыма прымяніць змяненне."@,
        Idioma::Catalan => "El canvi no s'ha pogut aplicar."@,
        Idioma::Checo => "Změnu nelze použít."@,
        Idioma::Aleman => "Die Änderung konnte nicht angewendet werden."@,
        Idioma::Ingles => "The change could not be applied."@,
        Idioma::Espanol => "No se pudo aplicar el cambio."@,
        Idioma::Frances => "La modification n'a pas pu être appliquée."@,
        Idioma::Gallego => "Non se puido aplicar o cambio."@,
        Idioma::Hungaro => "A módosítást nem sikerült alkalmazni."@,
        Idioma::Italiano => "Impossibile applicare la modifica."@,
        Idioma::Coreano => "변경 사항을 적용할 수 없습니다."@,
        Idioma::Kurdo => "Guhertin nehat sepandin."@,
        Idioma::Neerlandes => "De wijziging kon niet worden toegepast."@,
        Idioma::NoruegoNynorsk => "Endringen kunne ikke brukes."@,
        Idioma::Polaco => "Nie można zastosować zmiany."@,
        Idioma::PortuguesBrasil => "A alteração não pôde ser aplicada."@,
        Idioma::Ruso => "Не удалось применить изменение."@,
        Idioma::Sueco => "Ändringen kunde inte tillämpas."@,
        Idioma::Turco => "Değişiklik uygulanamadı."@,
        Idioma::Ucraniano => "Не вдалося застосувати зміну."@,
        Idioma::Vietnamita => "Không thể áp dụng thay đổi."@,
        Idioma::ChinoSimplificado => "无法应用更改。"@,
    }
}

pub fn t_change_failed(idioma: Idioma) -> (r: &'static str)
    ensures
        r@ == t_change_failed_spec(idioma),
{
    match idioma {
        Idioma::BelarusLatino => "Nje ŭdałosja ŭžyc zmjanjennje.",
        Idioma::Belarus => "Немагчыма прымяніць змяненне.",
        Idioma::Catalan => "El canvi no s'ha pogut aplicar.",
        Idioma::Checo => "Změnu nelze použít.",
        Idioma::Aleman => "Die Änderung konnte nicht angewendet werden.",
        Idioma::Ingles => "The change could not be applied.",
        Idioma::Espanol => "No se pudo aplicar el cambio.",
        Idioma::Frances => "La modification n'a pas pu être appliquée.",
        Idioma::Gallego => "Non se puido aplicar o cambio.",
        Idioma::Hungaro => "A módosítást nem sikerült alkalmazni.",
        Idioma::Italiano => "Impossibile applicare la modifica.",
        Idioma::Coreano => "변경 사항을 적용할 수 없습니다.",
        Idioma::Kurdo => "Guhertin nehat sepandin.",
        Idioma::Neerlandes => "De wijziging kon niet worden toegepast.",
        Idioma::NoruegoNynorsk => "Endringen kunne ikke brukes.",
        Idioma::Polaco => "Nie można zastosować zmiany.",
        Idioma::PortuguesBrasil => "A alteração não pôde ser aplicada.",
        Idioma::Ruso => "Не удалось применить изменение.",
        Idioma::Sueco => "Ändringen kunde inte tillämpas.",
        Idioma::Turco => "Değişiklik uygulanamadı.",
        Idioma::Ucraniano => "Не вдалося застосувати зміну.",
        Idioma::Vietnamita => "Không thể áp dụng thay đổi.",
        Idioma::ChinoSimplificado => "无法应用更改。",
    }
}

/// The `language` text in each language.
pub open spec fn t_language_spec(idioma: Idioma) -> Seq<char> {
    match idioma {
        Idioma::BelarusLatino => "mova"@,
        Idioma::Belarus | Idioma::Ucraniano => "Мова"@,
        Idioma::Catalan | Idioma::Espanol | Idioma::Gallego | Idioma::PortuguesBrasil => "Idioma"@,
        Idioma::Checo => "Jazyk"@,
        Idioma::Aleman => "Sprache"@,
        Idioma::Ingles => "Language"@,
        Idioma::Frances => "Langue"@,
        Idioma::Hungaro => "Nyelv"@,
        Idioma::Italiano => "Lingua"@,
        Idioma::Coreano => "언어"@,
        Idioma::Kurdo => "Ziman"@,
        Idioma::Neerlandes => "Taal"@,
        Idioma::NoruegoNynorsk => "Mål"@,
        Idioma::Polaco => "Język"@,
        Idioma::Ruso => "Язык"@,
        Idioma::Sueco => "Språk"@,
        Idioma::Turco => "Dil"@,
        Idioma::Vietnamita => "Ngôn ngữ"@,
        Idioma::ChinoSimplificado => "语言"@,
    }
}

pub fn t_language(idioma: Idioma) -> (r: &'static str)
    ensures
        r@ == t_language_spec(idioma),
{
    match idioma {
        Idioma::BelarusLatino => "mova",
        Idioma::Belarus | Idioma::Ucraniano => "Мова",
        Idioma::Catalan | Idioma::Espanol | Idioma::Gallego | Idioma::PortuguesBrasil => "Idioma",
        Idioma::Checo => "Jazyk",
        Idioma::Aleman => "Sprache",
        Idioma::Ingles => "Language",
        Idioma::Frances => "Langue",
        Idioma::Hungaro => "Nyelv",
        Idioma::Italiano => "Lingua",
        Idioma::Coreano => "언어",
        Idioma::Kurdo => "Ziman",
        Idioma::Neerlandes => "Taal",
        Idioma::NoruegoNynorsk => "Mål",
        Idioma::Polaco => "Język",
        Idioma::Ruso => "Язык",
        Idioma::Sueco => "Språk",
        Idioma::Turco => "Dil",
        Idioma::Vietnamita => "Ngôn ngữ",
        Idioma::ChinoSimplificado => "语言",
    }
}

/// The `region` text in each language.
pub open spec fn t_region_spec(idioma: Idioma) -> Seq<char> {
    match idioma {
        Idioma::BelarusLatino => "Rehijon"@,
        Idioma::Belarus => "Рэг"@,
        Idioma::Catalan => "Regió"@,
        Idioma::Checo | Idioma::Aleman | Idioma::Ingles | Idioma::NoruegoNynorsk | Idioma::Polaco | Idioma::Sueco => "Region"@,
        Idioma::Espanol => "Región"@,
        Idioma::Frances => "Région"@,
        Idioma::Gallego => "Rexión"@,
        Idioma::Hungaro => "Régió"@,
        Idioma::Italiano => "Regione"@,
        Idioma::Coreano => "지역"@,
        Idioma::Kurdo => "Herêm"@,
        Idioma::Neerlandes => "Regio"@,
        Idioma::PortuguesBrasil => "Região"@,
        Idioma::Ruso => "Регион"@,
        Idioma::Turco => "Bölge"@,
        Idioma::Ucraniano => "Регіон"@,
        Idioma::Vietnamita => "Khu vực"@,
        Idioma::ChinoSimplificado => "地区"@,
    }
}

pub fn t_region(idioma: Idioma) -> (r: &'static str)
    ensures
        r@ == t_region_spec(idioma),
{
    match idioma {
        Idioma::BelarusLatino => "Rehijon",
        Idioma::Belarus => "Рэг",
        Idioma::Catalan => "Regió",
        Idioma::Checo | Idioma::Aleman | Idioma::Ingles | Idioma::NoruegoNynorsk | Idioma::Polaco | Idioma::Sueco => "Region",
        Idioma::Espanol => "Región",
        Idioma::Frances => "Région",
        Idioma::Gallego => "Rexión",
        Idioma::Hungaro => "Régió",
        Idioma::Italiano => "Regione",
        Idioma::Coreano => "지역",
        Idioma::Kurdo => "Herêm",
        Idioma::Neerlandes => "Regio",
        Idioma::PortuguesBrasil => "Região",
        Idioma::Ruso => "Регион",
        Idioma::Turco => "Bölge",
        Idioma::Ucraniano => "Регіон",
        Idioma::Vietnamita => "Khu vực",
        Idioma::ChinoSimplificado => "地区",
    }
}

/// The `timezone` text in each language.
pub open spec fn t_timezone_spec(idioma: Idioma) -> Seq<char> {
    match idioma {
        Idioma::BelarusLatino => "Časavy pojas"@,
        Idioma::Belarus => "Часавы пояс"@,
        Idioma::Catalan => "Zona horària"@,
        Idioma::Checo => "Časové pásmo"@,
        Idioma::Aleman => "Zeitzone"@,
        Idioma::Ingles => "Time zone"@,
        Idioma::Espanol => "Zona horaria"@,
        Idioma::Frances => "Fuseau horaire"@,
        Idioma::Gallego => "Fuso horario"@,
        Idioma::Hungaro => "Időzóna"@,
        Idioma::Italiano => "Fuso orario"@,
        Idioma::Coreano => "시간대"@,
        Idioma::Kurdo => "Demjimêr"@,
        Idioma::Neerlandes => "Tijdzone"@,
        Idioma::NoruegoNynorsk => "Tidssone"@,
        Idioma::Polaco => "Strefa czasowa"@,
        Idioma::PortuguesBrasil => "Fuso horário"@,
        Idioma::Ruso => "Часовой пояс"@,
        Idioma::Sueco => "Tidszon"@,
        Idioma::Turco => "Saat dilimi"@,
        Idioma::Ucraniano => "Часовий пояс"@,
        Idioma::Vietnamita => "Múi giờ"@,
        Idioma::ChinoSimplificado => "时区"@,
    }
}

pub fn t_timezone(idioma: Idioma) -> (r: &'static str)
    ensures
        r@ == t_timezone_spec(idioma),
{
    match idioma {
        Idioma::BelarusLatino => "Časavy pojas",
        Idioma::Belarus => "Часавы пояс",
        Idioma::Catalan => "Zona horària",
        Idioma::Checo => "Časové pásmo",
        Idioma::Aleman => "Zeitzone",
        Idioma::Ingles => "Time zone",
        Idioma::Espanol => "Zona horaria",
        Idioma::Frances => "Fuseau horaire",
        Idioma::Gallego => "Fuso horario",
        Idioma::Hungaro => "Időzóna",
        Idioma::Italiano => "Fuso orario",
        Idioma::Coreano => "시간대",
        Idioma::Kurdo => "Demjimêr",
        Idioma::Neerlandes => "Tijdzone",
        Idioma::NoruegoNynorsk => "Tidssone",
        Idioma::Polaco => "Strefa czasowa",
        Idioma::PortuguesBrasil => "Fuso horário",
        Idioma::Ruso => "Часовой пояс",
        Idioma::Sueco => "Tidszon",
        Idioma::Turco => "Saat dilimi",
        Idioma::Ucraniano => "Часовий пояс",
        Idioma::Vietnamita => "Múi giờ",
        Idioma::ChinoSimplificado => "时区",
    }
}

/// The `keyboard` text in each language.
pub open spec fn t_keyboard_spec(idioma: Idioma) -> Seq<char> {
    match idioma {
        Idioma::BelarusLatino => "Kłavijatura"@,
        Idioma::Belarus => "Клавіятура"@,
        Idioma::Catalan => "Teclat"@,
        Idioma::Checo => "Klávesnice"@,
        Idioma::Aleman | Idioma::NoruegoNynorsk => "Tastatur"@,
        Idioma::Ingles => "Keyboard"@,
        Idioma::Espanol | Idioma::Gallego | Idioma::PortuguesBrasil => "Teclado"@,
        Idioma::Frances => "Clavier"@,
        Idioma::Hungaro => "Billentyűzet"@,
        Idioma::Italiano => "Tastiera"@,
        Idioma::Coreano => "키보드"@,
        Idioma::Kurdo => "Klavyeya"@,
        Idioma::Neerlandes => "Toetsenbord"@,
        Idioma::Polaco => "Klawiatura"@,
        Idioma::Ruso => "Клавиатура"@,
        Idioma::Sueco => "Tangentbord"@,
        Idioma::Turco => "Klavye"@,
        Idioma::Ucraniano => "Клавіатура"@,
        Idioma::Vietnamita => "Bàn phím"@,
        Idioma::ChinoSimplificado => "键盘"@,
    }
}

pub fn t_keyboard(idioma: Idioma) -> (r: &'static str)
    ensures
        r@ == t_keyboard_spec(idioma),
{
    match idioma {
        Idioma::BelarusLatino => "Kłavijatura",
        Idioma::Belarus => "Клавіятура",
        Idioma::Catalan => "Teclat",
        Idioma::Checo => "Klávesnice",
        Idioma::Aleman | Idioma::NoruegoNynorsk => "Tastatur",
        Idioma::Ingles => "Keyboard",
        Idioma::Espanol | Idioma::Gallego | Idioma::PortuguesBrasil => "Teclado",
        Idioma::Frances => "Clavier",
        Idioma::Hungaro => "Billentyűzet",
        Idioma::Italiano => "Tastiera",
        Idioma::Coreano => "키보드",
        Idioma::Kurdo => "Klavyeya",
        Idioma::Neerlandes => "Toetsenbord",
        Idioma::Polaco => "Klawiatura",
        Idioma::Ruso => "Клавиатура",
        Idioma::Sueco => "Tangentbord",
        Idioma::Turco => "Klavye",
        Idioma::Ucraniano => "Клавіатура",
        Idioma::Vietnamita => "Bàn phím",
        Idioma::ChinoSimplificado => "键盘",
    }
}

/// The `status` text in each language.
pub open spec fn t_status_spec(idioma: Idioma) -> Seq<char> {
    match idioma {
        Idioma::BelarusLatino | Idioma::Aleman | Idioma::Ingles | Idioma::Frances | Idioma::Neerlandes | Idioma::NoruegoNynorsk | Idioma::Polaco | Idioma::PortuguesBrasil | Idioma::Sueco => "Status"@,
        Idioma::Belarus | Idioma::Ucraniano => "Стан"@,
        Idioma::Catalan => "Estat"@,
        Idioma::Checo => "Stav"@,
        Idioma::Espanol | Idioma::Gallego => "Estado"@,
        Idioma::Hungaro => "Állapot"@,
        Idioma::Italiano => "Stato"@,
        Idioma::Coreano => "상태"@,
        Idioma::Kurdo => "Rewş"@,
        Idioma::Ruso => "Статус"@,
        Idioma::Turco => "Durum"@,
        Idioma::Vietnamita => "Trạng thái"@,
        Idioma::ChinoSimplificado => "状态"@,
    }
}

pub fn t_status(idioma: Idioma) -> (r: &'static str)
    ensures
        r@ == t_status_spec(idioma),
{
    match idioma {
        Idioma::BelarusLatino | Idioma::Aleman | Idioma::Ingles | Idioma::Frances | Idioma::Neerlandes | Idioma::NoruegoNynorsk | Idioma::Polaco | Idioma::PortuguesBrasil | Idioma::Sueco => "Status",
        Idioma::Belarus | Idioma::Ucraniano => "Стан",
        Idioma::Catalan => "Estat",
        Idioma::Checo => "Stav",
        Idioma::Espanol | Idioma::Gallego => "Estado",
        Idioma::Hungaro => "Állapot",
        Idioma::Italiano => "Stato",
        Idioma::Coreano => "상태",
        Idioma::Kurdo => "Rewş",
        Idioma::Ruso => "Статус",
        Idioma::Turco => "Durum",
        Idioma::Vietnamita => "Trạng thái",
        Idioma::ChinoSimplificado => "状态",
    }
}

/// The `loading` text in each language.
pub open spec fn t_loading_spec(idioma: Idioma) -> Seq<char> {
    match idioma {
        Idioma::BelarusLatino => "Čytannje hetaha kamp'jutara..."@,
        Idioma::Belarus => "Чытанне гэтага кампутара..."@,
        Idioma::Catalan => "Llegint aquest ordinador..."@,
        Idioma::Checo => "Čtení tohoto počítače…"@,
        Idioma::Aleman => "Dieser Computer wird gelesen…"@,
        Idioma::Ingles => "Reading this computer…"@,
        Idioma::Espanol => "Leyendo este equipo…"@,
        Idioma::Frances => "Lecture de cet ordinateur…"@,
        Idioma::Gallego => "Lendo este ordenador…"@,
        Idioma::Hungaro => "A számítógép adatainak olvasása…"@,
        Idioma::Italiano => "Lettura di questo computer…"@,
        Idioma::Coreano => "이 컴퓨터를 읽는 중…"@,
        Idioma::Kurdo => "Xwendina vê kompîturê…"@,
        Idioma::Neerlandes => "Deze computer lezen…"@,
        Idioma::NoruegoNynorsk => "Leser denne datamaskinen..."@,
        Idioma::Polaco => "Czytanie tego komputera…"@,
        Idioma::PortuguesBrasil => "Lendo este computador…"@,
        Idioma::Ruso => "Читаю этот компьютер…"@,
        Idioma::Sueco => "Läser den här datorn..."@,
        Idioma::Turco => "Bu bilgisayar okunuyor…"@,
        Idioma::Ucraniano => "Читання цього комп’ютера…"@,
        Idioma::Vietnamita => "Đang đọc máy tính này…"@,
        Idioma::ChinoSimplificado => "正在读取这台计算机..."@,
    }
}

pub fn t_loading(idioma: Idioma) -> (r: &'static str)
    ensures
        r@ == t_loading_spec(idioma),
{
    match idioma {
        Idioma::BelarusLatino => "Čytannje hetaha kamp'jutara...",
        Idioma::Belarus => "Чытанне гэтага кампутара...",
        Idioma::Catalan => "Llegint aquest ordinador...",
        Idioma::Checo => "Čtení tohoto počítače…",
        Idioma::Aleman => "Dieser Computer wird gelesen…",
        Idioma::Ingles => "Reading this computer…",
        Idioma::Espanol => "Leyendo este equipo…",
        Idioma::Frances => "Lecture de cet ordinateur…",
        Idioma::Gallego => "Lendo este ordenador…",
        Idioma::Hungaro => "A számítógép adatainak olvasása…",
        Idioma::Italiano => "Lettura di questo computer…",
        Idioma::Coreano => "이 컴퓨터를 읽는 중…",
        Idioma::Kurdo => "Xwendina vê kompîturê…",
        Idioma::Neerlandes => "Deze computer lezen…",
        Idioma::NoruegoNynorsk => "Leser denne datamaskinen...",
        Idioma::Polaco => "Czytanie tego komputera…",
        Idioma::PortuguesBrasil => "Lendo este computador…",
        Idioma::Ruso => "Читаю этот компьютер…",
        Idioma::Sueco => "Läser den här datorn...",
        Idioma::Turco => "Bu bilgisayar okunuyor…",
        Idioma::Ucraniano => "Читання цього комп’ютера…",
        Idioma::Vietnamita => "Đang đọc máy tính này…",
        Idioma::ChinoSimplificado => "正在读取这台计算机...",
    }
}

/// The `ready` text in each language.
pub open spec fn t_ready_spec(idioma: Idioma) -> Seq<char> {
    match idioma {
        Idioma::BelarusLatino => "Hatovy"@,
        Idioma::Belarus => "Гатова"@,
        Idioma::Catalan => "A punt"@,
        Idioma::Checo => "Připraveno"@,
        Idioma::Aleman => "Bereit"@,
        Idioma::Ingles => "Ready"@,
        Idioma::Espanol | Idioma::Gallego => "Listo"@,
        Idioma::Frances => "Prêt"@,
        Idioma::Hungaro => "Kész"@,
        Idioma::Italiano | Idioma::PortuguesBrasil => "Pronto"@,
        Idioma::Coreano => "준비됨"@,
        Idioma::Kurdo => "Amade ye"@,
        Idioma::Neerlandes => "Klaar"@,
        Idioma::NoruegoNynorsk | Idioma::Sueco => "Klar"@,
        Idioma::Polaco => "Gotowe"@,
        Idioma::Ruso => "Готово"@,
        Idioma::Turco => "Hazır"@,
        Idioma::Ucraniano => "Готовий"@,
        Idioma::Vietnamita => "Sẵn sàng"@,
        Idioma::ChinoSimplificado => "准备好"@,
    }
}

pub fn t_ready(idioma: Idioma) -> (r: &'static str)
    ensures
        r@ == t_ready_spec(idioma),
{
    match idioma {
        Idioma::BelarusLatino => "Hatovy",
        Idioma::Belarus => "Гатова",
        Idioma::Catalan => "A punt",
        Idioma::Checo => "Připraveno",
        Idioma::Aleman => "Bereit",
        Idioma::Ingles => "Ready",
        Idioma::Espanol | Idioma::Gallego => "Listo",
        Idioma::Frances => "Prêt",
        Idioma::Hungaro => "Kész",
        Idioma::Italiano | Idioma::PortuguesBrasil => "Pronto",
        Idioma::Coreano => "준비됨",
        Idioma::Kurdo => "Amade ye",
        Idioma::Neerlandes => "Klaar",
        Idioma::NoruegoNynorsk | Idioma::Sueco => "Klar",
        Idioma::Polaco => "Gotowe",
        Idioma::Ruso => "Готово",
        Idioma::Turco => "Hazır",
        Idioma::Ucraniano => "Готовий",
        Idioma::Vietnamita => "Sẵn sàng",
        Idioma::ChinoSimplificado => "准备好",
    }
}

/// The `error` text in each language.
pub open spec fn t_error_spec(idioma: Idioma) -> Seq<char> {
    match idioma {
        Idioma::BelarusLatino => "Korunix nje moža pračytac hetuju vobłasc."@,
        Idioma::Belarus => "Korunix не можа прачытаць гэтую вобласць."@,
        Idioma::Catalan => "Korunix no ha pogut llegir aquesta àrea."@,
        Idioma::Checo => "Korunix nemohl přečíst tuto oblast."@,
        Idioma::Aleman => "Korunix konnte diesen Bereich nicht lesen."@,
        Idioma::Ingles => "Korunix could not read this area."@,
        Idioma::Espanol => "Korunix no pudo leer esta área."@,
        Idioma::Frances => "Korunix n'a pas pu lire cette zone."@,
        Idioma::Gallego => "Korunix non puido ler esta área."@,
        Idioma::Hungaro => "A Korunix nem tudta beolvasni ezt a területet."@,
        Idioma::Italiano => "Korunix non è riuscito a leggere quest'area."@,
        Idioma::Coreano => "Korunix가 이 영역을 읽을 수 없습니다."@,
        Idioma::Kurdo => "Korunixê nikarîbû vê deverê bixwîne."@,
        Idioma::Neerlandes => "Korunix kon dit gebied niet lezen."@,
        Idioma::NoruegoNynorsk => "Korunix kunne ikke lese dette området."@,
        Idioma::Polaco => "Korunix nie mógł odczytać tego obszaru."@,
        Idioma::PortuguesBrasil => "Korunix não conseguiu ler esta área."@,
        Idioma::Ruso => "Korunix не смог прочитать эту область."@,
        Idioma::Sueco => "Korunix kunde inte läsa detta område."@,
        Idioma::Turco => "Korunix bu alanı okuyamadı."@,
        Idioma::Ucraniano => "Korunix не може прочитати цю область."@,
        Idioma::Vietnamita => "Korunix không thể đọc được khu vực này."@,
        Idioma::ChinoSimplificado => "Korunix 无法读取该区域。"@,
    }
}

pub fn t_error(idioma: Idioma) -> (r: &'static str)
    ensures
        r@ == t_error_spec(idioma),
{
    match idioma {
        Idioma::BelarusLatino => "Korunix nje moža pračytac hetuju vobłasc.",
        Idioma::Belarus => "Korunix не можа прачытаць гэтую вобласць.",
        Idioma::Catalan => "Korunix no ha pogut llegir aquesta àrea.",
        Idioma::Checo => "Korunix nemohl přečíst tuto oblast.",
        Idioma::Aleman => "Korunix konnte diesen Bereich nicht lesen.",
        Idioma::Ingles => "Korunix could not read this area.",
        Idioma::Espanol => "Korunix no pudo leer esta área.",
        Idioma::Frances => "Korunix n'a pas pu lire cette zone.",
        Idioma::Gallego => "Korunix non puido ler esta área.",
        Idioma::Hungaro => "A Korunix nem tudta beolvasni ezt a területet.",
        Idioma::Italiano => "Korunix non è riuscito a leggere quest'area.",
        Idioma::Coreano => "Korunix가 이 영역을 읽을 수 없습니다.",
        Idioma::Kurdo => "Korunixê nikarîbû vê deverê bixwîne.",
        Idioma::Neerlandes => "Korunix kon dit gebied niet lezen.",
        Idioma::NoruegoNynorsk => "Korunix kunne ikke lese dette området.",
        Idioma::Polaco => "Korunix nie mógł odczytać tego obszaru.",
        Idioma::PortuguesBrasil => "Korunix não conseguiu ler esta área.",
        Idioma::Ruso => "Korunix не смог прочитать эту область.",
        Idioma::Sueco => "Korunix kunde inte läsa detta område.",
        Idioma::Turco => "Korunix bu alanı okuyamadı.",
        Idioma::Ucraniano => "Korunix не може прочитати цю область.",
        Idioma::Vietnamita => "Korunix không thể đọc được khu vực này.",
        Idioma::ChinoSimplificado => "Korunix 无法读取该区域。",
    }
}

/// The `empty` text in each language.
pub open spec fn t_empty_spec(idioma: Idioma) -> Seq<char> {
    match idioma {
        Idioma::BelarusLatino => "Njama infarmacyi."@,
        Idioma::Belarus => "Інфармацыя адсутнічае."@,
        Idioma::Catalan => "No hi ha informació disponible."@,
        Idioma::Checo => "Žádná informace není k dispozici."@,
        Idioma::Aleman => "Keine Informationen verfügbar."@,
        Idioma::Ingles => "No information available."@,
        Idioma::Espanol => "No hay información disponible."@,
        Idioma::Frances => "Aucune information disponible."@,
        Idioma::Gallego => "Non hai información dispoñible."@,
        Idioma::Hungaro => "Nincs elérhető információ."@,
        Idioma::Italiano => "Nessuna informazione disponibile."@,
        Idioma::Coreano => "사용 가능한 정보가 없습니다."@,
        Idioma::Kurdo => "Agahî tune."@,
        Idioma::Neerlandes => "Geen informatie beschikbaar."@,
        Idioma::NoruegoNynorsk => "Ingen informasjon tilgjengelig."@,
        Idioma::Polaco => "Brak dostępnych informacji."@,
        Idioma::PortuguesBrasil => "Nenhuma informação disponível."@,
        Idioma::Ruso => "Информация отсутствует."@,
        Idioma::Sueco => "Ingen information tillgänglig."@,
        Idioma::Turco => "Bilgi mevcut değil."@,
        Idioma::Ucraniano => "Інформація відсутня."@,
        Idioma::Vietnamita => "Không có thông tin."@,
        Idioma::ChinoSimplificado => "无可用信息。"@,
    }
}

pub fn t_empty(idioma: Idioma) -> (r: &'static str)
    ensures
        r@ == t_empty_spec(idioma),
{
    match idioma {
        Idioma::BelarusLatino => "Njama infarmacyi.",
        Idioma::Belarus => "Інфармацыя адсутнічае.",
        Idioma::Catalan => "No hi ha informació disponible.",
        Idioma::Checo => "Žádná informace není k dispozici.",
        Idioma::Aleman => "Keine Informationen verfügbar.",
        Idioma::Ingles => "No information available.",
        Idioma::Espanol => "No hay información disponible.",
        Idioma::Frances => "Aucune information disponible.",
        Idioma::Gallego => "Non hai información dispoñible.",
        Idioma::Hungaro => "Nincs elérhető információ.",
        Idioma::Italiano => "Nessuna informazione disponibile.",
        Idioma::Coreano => "사용 가능한 정보가 없습니다.",
        Idioma::Kurdo => "Agahî tune.",
        Idioma::Neerlandes => "Geen informatie beschikbaar.",
        Idioma::NoruegoNynorsk => "Ingen informasjon tilgjengelig.",
        Idioma::Polaco => "Brak dostępnych informacji.",
        Idioma::PortuguesBrasil => "Nenhuma informação disponível.",
        Idioma::Ruso => "Информация отсутствует.",
        Idioma::Sueco => "Ingen information tillgänglig.",
        Idioma::Turco => "Bilgi mevcut değil.",
        Idioma::Ucraniano => "Інформація відсутня.",
        Idioma::Vietnamita => "Không có thông tin.",
        Idioma::ChinoSimplificado => "无可用信息。",
    }
}

/// The `applications` text in each language.
pub open spec fn t_applications_spec(idioma: Idioma) -> Seq<char> {
    match idioma {
        Idioma::BelarusLatino => "Prykładanni"@,
        Idioma::Belarus => "Праграмы"@,
        Idioma::Catalan => "Aplicacions"@,
        Idioma::Checo => "Aplikace"@,
        Idioma::Aleman => "Anwendungen"@,
        Idioma::Ingles | Idioma::Frances => "Applications"@,
        Idioma::Espanol => "Aplicaciones"@,
        Idioma::Gallego => "Aplicacións"@,
        Idioma::Hungaro => "Alkalmazások"@,
        Idioma::Italiano => "Applicazioni"@,
        Idioma::Coreano => "앱"@,
        Idioma::Kurdo => "Sepan..."@,
        Idioma::Neerlandes => "Applicaties"@,
        Idioma::NoruegoNynorsk => "Applikasjonar"@,
        Idioma::Polaco => "Aplikacje"@,
        Idioma::PortuguesBrasil => "Aplicações"@,
        Idioma::Ruso => "Приложения"@,
        Idioma::Sueco => "Applikationer"@,
        Idioma::Turco => "Uygulamalar"@,
        Idioma::Ucraniano => "Застосунки"@,
        Idioma::Vietnamita => "Ứng dụng"@,
        Idioma::ChinoSimplificado => "应用程序"@,
    }
}

pub fn t_applications(idioma: Idioma) -> (r: &'static str)
    ensures
        r@ == t_applications_spec(idioma),
{
    match idioma {
        Idioma::BelarusLatino => "Prykładanni",
        Idioma::Belarus => "Праграмы",
        Idioma::Catalan => "Aplicacions",
        Idioma::Checo => "Aplikace",
        Idioma::Aleman => "Anwendungen",
        Idioma::Ingles | Idioma::Frances => "Applications",
        Idioma::Espanol => "Aplicaciones",
        Idioma::Gallego => "Aplicacións",
        Idioma::Hungaro => "Alkalmazások",
        Idioma::Italiano => "Applicazioni",
        Idioma::Coreano => "앱",
        Idioma::Kurdo => "Sepan...",
        Idioma::Neerlandes => "Applicaties",
        Idioma::NoruegoNynorsk => "Applikasjonar",
        Idioma::Polaco => "Aplikacje",
        Idioma::PortuguesBrasil => "Aplicações",
        Idioma::Ruso => "Приложения",
        Idioma::Sueco => "Applikationer",
        Idioma::Turco => "Uygulamalar",
        Idioma::Ucraniano => "Застосунки",
        Idioma::Vietnamita => "Ứng dụng",
        Idioma::ChinoSimplificado => "应用程序",
    }
}

/// The `appearance_desktops` text in each language.
pub open spec fn t_appearance_desktops_spec(idioma: Idioma) -> Seq<char> {
    match idioma {
        Idioma::BelarusLatino => "Znješni vyhłjad i pracoŭny stoł"@,
        Idioma::Belarus => "Знешні выгляд і працоўныя сталы"@,
        Idioma::Catalan => "Aparença i escriptoris"@,
        Idioma::Checo => "Vzhled a stolní počítače"@,
        Idioma::Aleman => "Aussehen und Desktops"@,
        Idioma::Ingles | Idioma::Turco => "Appearance and desktops"@,
        Idioma::Espanol => "Apariencia y escritorios"@,
        Idioma::Frances => "Apparence et bureaux"@,
        Idioma::Gallego => "Aparencia e escritorios"@,
        Idioma::Hungaro => "Megjelenés és asztalok"@,
        Idioma::Italiano => "Aspetto e desktop"@,
        Idioma::Coreano => "모양 및 데스크탑"@,
        Idioma::Kurdo => "Xuyabûn û sermaseyên"@,
        Idioma::Neerlandes => "Uiterlijk en desktops"@,
        Idioma::NoruegoNynorsk => "Utseende og skrivebord"@,
        Idioma::Polaco => "Wygląd i komputery stacjonarne"@,
        Idioma::PortuguesBrasil => "Aparência e áreas de trabalho"@,
        Idioma::Ruso => "Внешний вид и рабочие столы"@,
        Idioma::Sueco => "Utseende och skrivbord"@,
        Idioma::Ucraniano => "Зовнішній вигляд і робочі столи"@,
        Idioma::Vietnamita => "Ngoại hình và máy tính để bàn"@,
        Idioma::ChinoSimplificado => "外观和桌面"@,
    }
}

pub fn t_appearance_desktops(idioma: Idioma) -> (r: &'static str)
    ensures
        r@ == t_appearance_desktops_spec(idioma),
{
    match idioma {
        Idioma::BelarusLatino => "Znješni vyhłjad i pracoŭny stoł",
        Idioma::Belarus => "Знешні выгляд і працоўныя сталы",
        Idioma::Catalan => "Aparença i escriptoris",
        Idioma::Checo => "Vzhled a stolní počítače",
        Idioma::Aleman => "Aussehen und Desktops",
        Idioma::Ingles | Idioma::Turco => "Appearance and desktops",
        Idioma::Espanol => "Apariencia y escritorios",
        Idioma::Frances => "Apparence et bureaux",
        Idioma::Gallego => "Aparencia e escritorios",
        Idioma::Hungaro => "Megjelenés és asztalok",
        Idioma::Italiano => "Aspetto e desktop",
        Idioma::Coreano => "모양 및 데스크탑",
        Idioma::Kurdo => "Xuyabûn û sermaseyên",
        Idioma::Neerlandes => "Uiterlijk en desktops",
        Idioma::NoruegoNynorsk => "Utseende og skrivebord",
        Idioma::Polaco => "Wygląd i komputery stacjonarne",
        Idioma::PortuguesBrasil => "Aparência e áreas de trabalho",
        Idioma::Ruso => "Внешний вид и рабочие столы",
        Idioma::Sueco => "Utseende och skrivbord",
        Idioma::Ucraniano => "Зовнішній вигляд і робочі столи",
        Idioma::Vietnamita => "Ngoại hình và máy tính để bàn",
        Idioma::ChinoSimplificado => "外观和桌面",
    }
}

/// The `backups_history` text in each language.
pub open spec fn t_backups_history_spec(idioma: Idioma) -> Seq<char> {
    match idioma {
        Idioma::BelarusLatino => "Rezjervovyja kopii i historyja"@,
        Idioma::Belarus => "Рэзервовыя копіі і гісторыя"@,
        Idioma::Catalan => "Còpies de seguretat i historial"@,
        Idioma::Checo => "Zálohy a historie"@,
        Idioma::Aleman => "Backups und Verlauf"@,
        Idioma::Ingles | Idioma::Turco => "Backups and history"@,
        Idioma::Espanol => "Copias e historial"@,
        Idioma::Frances => "Sauvegardes et historique"@,
        Idioma::Gallego => "Copias de seguridade e historial"@,
        Idioma::Hungaro => "Biztonsági mentés és előzmények"@,
        Idioma::Italiano => "Backup e cronologia"@,
        Idioma::Coreano => "백업 및 기록"@,
        Idioma::Kurdo => "Backup û dîrok"@,
        Idioma::Neerlandes => "Back-ups en geschiedenis"@,
        Idioma::NoruegoNynorsk => "Sikkerhetskopier og historikk"@,
        Idioma::Polaco => "Kopie zapasowe i historia"@,
        Idioma::PortuguesBrasil => "Backups e histórico"@,
        Idioma::Ruso => "Резервные копии и история"@,
        Idioma::Sueco => "Säkerhetskopiering och historik"@,
        Idioma::Ucraniano => "Резервні копії та історія"@,
        Idioma::Vietnamita => "Sao lưu và lịch sử"@,
        Idioma::ChinoSimplificado => "备份和历史记录"@,
    }
}

pub fn t_backups_history(idioma: Idioma) -> (r: &'static str)
    ensures
        r@ == t_backups_history_spec(idioma),
{
    match idioma {
        Idioma::BelarusLatino => "Rezjervovyja kopii i historyja",
        Idioma::Belarus => "Рэзервовыя копіі і гісторыя",
        Idioma::Catalan => "Còpies de seguretat i historial",
        Idioma::Checo => "Zálohy a historie",
        Idioma::Aleman => "Backups und Verlauf",
        Idioma::Ingles | Idioma::Turco => "Backups and history",
        Idioma::Espanol => "Copias e historial",
        Idioma::Frances => "Sauvegardes et historique",
        Idioma::Gallego => "Copias de seguridade e historial",
        Idioma::Hungaro => "Biztonsági mentés és előzmények",
        Idioma::Italiano => "Backup e cronologia",
        Idioma::Coreano => "백업 및 기록",
        Idioma::Kurdo => "Backup û dîrok",
        Idioma::Neerlandes => "Back-ups en geschiedenis",
        Idioma::NoruegoNynorsk => "Sikkerhetskopier og historikk",
        Idioma::Polaco => "Kopie zapasowe i historia",
        Idioma::PortuguesBrasil => "Backups e histórico",
        Idioma::Ruso => "Резервные копии и история",
        Idioma::Sueco => "Säkerhetskopiering och historik",
        Idioma::Ucraniano => "Резервні копії та історія",
        Idioma::Vietnamita => "Sao lưu và lịch sử",
        Idioma::ChinoSimplificado => "备份和历史记录",
    }
}

/// The `global_search` text in each language.
pub open spec fn t_global_search_spec(idioma: Idioma) -> Seq<char> {
    match idioma {
        Idioma::BelarusLatino => "Pošuk u Korunix"@,
        Idioma::Belarus | Idioma::Ucraniano => "Пошук у Korunix"@,
        Idioma::Catalan | Idioma::Italiano => "Cerca Korunix"@,
        Idioma::Checo => "Prohledejte Korunix"@,
        Idioma::Aleman => "Korunix suchen"@,
        Idioma::Ingles => "Search Korunix"@,
        Idioma::Espanol => "Buscar en Korunix"@,
        Idioma::Frances => "Rechercher Korunix"@,
        Idioma::Gallego => "Busca Korunix"@,
        Idioma::Hungaro => "Keresés a Korunixban"@,
        Idioma::Coreano => "Korunix 검색"@,
        Idioma::Kurdo => "Lêgerîna Korunix"@,
        Idioma::Neerlandes => "Zoek Korunix"@,
        Idioma::NoruegoNynorsk => "Søk i Korunix"@,
        Idioma::Polaco => "Wyszukaj Korunix"@,
        Idioma::PortuguesBrasil => "Pesquisa Korunix"@,
        Idioma::Ruso => "Поиск Korunix"@,
        Idioma::Sueco => "Sök Korunix"@,
        Idioma::Turco => "Korunix'te arama yapın"@,
        Idioma::Vietnamita => "Tìm kiếm Korunix"@,
        Idioma::ChinoSimplificado => "搜索 Korunix"@,
    }
}

pub fn t_global_search(idioma: Idioma) -> (r: &'static str)
    ensures
        r@ == t_global_search_spec(idioma),
{
    match idioma {
        Idioma::BelarusLatino => "Pošuk u Korunix",
        Idioma::Belarus | Idioma::Ucraniano => "Пошук у Korunix",
        Idioma::Catalan | Idioma::Italiano => "Cerca Korunix",
        Idioma::Checo => "Prohledejte Korunix",
        Idioma::Aleman => "Korunix suchen",
        Idioma::Ingles => "Search Korunix",
        Idioma::Espanol => "Buscar en Korunix",
        Idioma::Frances => "Rechercher Korunix",
        Idioma::Gallego => "Busca Korunix",
        Idioma::Hungaro => "Keresés a Korunixban",
        Idioma::Coreano => "Korunix 검색",
        Idioma::Kurdo => "Lêgerîna Korunix",
        Idioma::Neerlandes => "Zoek Korunix",
        Idioma::NoruegoNynorsk => "Søk i Korunix",
        Idioma::Polaco => "Wyszukaj Korunix",
        Idioma::PortuguesBrasil => "Pesquisa Korunix",
        Idioma::Ruso => "Поиск Korunix",
        Idioma::Sueco => "Sök Korunix",
        Idioma::Turco => "Korunix'te arama yapın",
        Idioma::Vietnamita => "Tìm kiếm Korunix",
        Idioma::ChinoSimplificado => "搜索 Korunix",
    }
}

/// The `save_apply` text in each language.
pub open spec fn t_save_apply_spec(idioma: Idioma) -> Seq<char> {
    match idioma {
        Idioma::BelarusLatino => "Zachavajcje i prymjanicje"@,
        Idioma::Belarus => "Захаваць і прымяніць"@,
        Idioma::Catalan => "Desa i aplica"@,
        Idioma::Checo => "Uložit a použít"@,
        Idioma::Aleman => "Speichern und anwenden"@,
        Idioma::Ingles => "Save and apply"@,
        Idioma::Espanol => "Guardar y aplicar"@,
        Idioma::Frances => "Enregistrer et appliquer"@,
        Idioma::Gallego => "Garda e aplica"@,
        Idioma::Hungaro => "Mentés és alkalmazás"@,
        Idioma::Italiano => "Salva e applica"@,
        Idioma::Coreano => "저장 및 적용"@,
        Idioma::Kurdo => "Hilînin û bicîh bikin"@,
        Idioma::Neerlandes => "Opslaan en toepassen"@,
        Idioma::NoruegoNynorsk => "Lagre og bruk"@,
        Idioma::Polaco => "Zapisz i zastosuj"@,
        Idioma::PortuguesBrasil => "Salvar e aplicar"@,
        Idioma::Ruso => "Сохранить и применить"@,
        Idioma::Sueco => "Spara och tillämpa"@,
        Idioma::Turco => "Kaydet ve uygula"@,
        Idioma::Ucraniano => "Зберегти та застосувати"@,
        Idioma::Vietnamita => "Lưu và áp dụng"@,
        Idioma::ChinoSimplificado => "保存并应用"@,
    }
}

pub fn t_save_apply(idioma: Idioma) -> (r: &'static str)
    ensures
        r@ == t_save_apply_spec(idioma),
{
    match idioma {
        Idioma::BelarusLatino => "Zachavajcje i prymjanicje",
        Idioma::Belarus => "Захаваць і прымяніць",
        Idioma::Catalan => "Desa i aplica",
        Idioma::Checo => "Uložit a použít",
        Idioma::Aleman => "Speichern und anwenden",
        Idioma::Ingles => "Save and apply",
        Idioma::Espanol => "Guardar y aplicar",
        Idioma::Frances => "Enregistrer et appliquer",
        Idioma::Gallego => "Garda e aplica",
        Idioma::Hungaro => "Mentés és alkalmazás",
        Idioma::Italiano => "Salva e applica",
        Idioma::Coreano => "저장 및 적용",
        Idioma::Kurdo => "Hilînin û bicîh bikin",
        Idioma::Neerlandes => "Opslaan en toepassen",
        Idioma::NoruegoNynorsk => "Lagre og bruk",
        Idioma::Polaco => "Zapisz i zastosuj",
        Idioma::PortuguesBrasil => "Salvar e aplicar",
        Idioma::Ruso => "Сохранить и применить",
        Idioma::Sueco => "Spara och tillämpa",
        Idioma::Turco => "Kaydet ve uygula",
        Idioma::Ucraniano => "Зберегти та застосувати",
        Idioma::Vietnamita => "Lưu và áp dụng",
        Idioma::ChinoSimplificado => "保存并应用",
    }
}

/// The `remove` text in each language.
pub open spec fn t_remove_spec(idioma: Idioma) -> Seq<char> {
    match idioma {
        Idioma::BelarusLatino => "Znjac"@,
        Idioma::Belarus => "Выдаліць"@,
        Idioma::Catalan => "Elimina"@,
        Idioma::Checo => "Odebrat"@,
        Idioma::Aleman => "Entfernen"@,
        Idioma::Ingles => "Remove"@,
        Idioma::Espanol | Idioma::Gallego => "Eliminar"@,
        Idioma::Frances => "Supprimer"@,
        Idioma::Hungaro => "Eltávolítás"@,
        Idioma::Italiano => "Rimuovi"@,
        Idioma::Coreano => "제거"@,
        Idioma::Kurdo => "Rake"@,
        Idioma::Neerlandes => "Verwijderen"@,
        Idioma::NoruegoNynorsk => "Fjern"@,
        Idioma::Polaco => "Usuń"@,
        Idioma::PortuguesBrasil => "Remover"@,
        Idioma::Ruso => "Удалить"@,
        Idioma::Sueco => "Ta bort"@,
        Idioma::Turco => "Kaldır"@,
        Idioma::Ucraniano => "Видалити"@,
        Idioma::Vietnamita => "Xóa"@,
        Idioma::ChinoSimplificado => "删除"@,
    }
}

pub fn t_remove(idioma: Idioma) -> (r: &'static str)
    ensures
        r@ == t_remove_spec(idioma),
{
    match idioma {
        Idioma::BelarusLatino => "Znjac",
        Idioma::Belarus => "Выдаліць",
        Idioma::Catalan => "Elimina",
        Idioma::Checo => "Odebrat",
        Idioma::Aleman => "Entfernen",
        Idioma::Ingles => "Remove",
        Idioma::Espanol | Idioma::Gallego => "Eliminar",
        Idioma::Frances => "Supprimer",
        Idioma::Hungaro => "Eltávolítás",
        Idioma::Italiano => "Rimuovi",
        Idioma::Coreano => "제거",
        Idioma::Kurdo => "Rake",
        Idioma::Neerlandes => "Verwijderen",
        Idioma::NoruegoNynorsk => "Fjern",
        Idioma::Polaco => "Usuń",
        Idioma::PortuguesBrasil => "Remover",
        Idioma::Ruso => "Удалить",
        Idioma::Sueco => "Ta bort",
        Idioma::Turco => "Kaldır",
        Idioma::Ucraniano => "Видалити",
        Idioma::Vietnamita => "Xóa",
        Idioma::ChinoSimplificado => "删除",
    }
}

/// The `search` text in each language.
pub open spec fn t_search_spec(idioma: Idioma) -> Seq<char> {
    match idioma {
        Idioma::BelarusLatino => "Pošuk"@,
        Idioma::Belarus | Idioma::Ucraniano => "Пошук"@,
        Idioma::Catalan | Idioma::Italiano => "Cerca"@,
        Idioma::Checo => "Hledat"@,
        Idioma::Aleman => "Suche"@,
        Idioma::Ingles => "Search"@,
        Idioma::Espanol => "Buscar"@,
        Idioma::Frances => "Recherche"@,
        Idioma::Gallego => "Busca"@,
        Idioma::Hungaro => "Keresés"@,
        Idioma::Coreano => "검색"@,
        Idioma::Kurdo => "Lêgerîn"@,
        Idioma::Neerlandes => "Zoeken"@,
        Idioma::NoruegoNynorsk => "Søk"@,
        Idioma::Polaco => "Szukaj"@,
        Idioma::PortuguesBrasil => "Pesquisa"@,
        Idioma::Ruso => "Поиск"@,
        Idioma::Sueco => "Sök"@,
        Idioma::Turco => "Ara"@,
        Idioma::Vietnamita => "Tìm kiếm"@,
        Idioma::ChinoSimplificado => "搜索"@,
    }
}

pub fn t_search(idioma: Idioma) -> (r: &'static str)
    ensures
        r@ == t_search_spec(idioma),
{
    match idioma {
        Idioma::BelarusLatino => "Pošuk",
        Idioma::Belarus | Idioma::Ucraniano => "Пошук",
        Idioma::Catalan | Idioma::Italiano => "Cerca",
        Idioma::Checo => "Hledat",
        Idioma::Aleman => "Suche",
        Idioma::Ingles => "Search",
        Idioma::Espanol => "Buscar",
        Idioma::Frances => "Recherche",
        Idioma::Gallego => "Busca",
        Idioma::Hungaro => "Keresés",
        Idioma::Coreano => "검색",
        Idioma::Kurdo => "Lêgerîn",
        Idioma::Neerlandes => "Zoeken",
        Idioma::NoruegoNynorsk => "Søk",
        Idioma::Polaco => "Szukaj",
        Idioma::PortuguesBrasil => "Pesquisa",
        Idioma::Ruso => "Поиск",
        Idioma::Sueco => "Sök",
        Idioma::Turco => "Ara",
        Idioma::Vietnamita => "Tìm kiếm",
        Idioma::ChinoSimplificado => "搜索",
    }
}

/// The `export_backup` text in each language.
pub open spec fn t_export_backup_spec(idioma: Idioma) -> Seq<char> {
    match idioma {
        Idioma::BelarusLatino => "Ekspart rezjervovaj kopii"@,
        Idioma::Belarus => "Экспарт рэзервовай копіі"@,
        Idioma::Catalan => "Exporta la còpia de seguretat"@,
        Idioma::Checo => "Exportujte zálohu"@,
        Idioma::Aleman => "Sicherung exportieren"@,
        Idioma::Ingles | Idioma::Turco => "Export backup"@,
        Idioma::Espanol => "Exportar copia"@,
        Idioma::Frances => "Exporter la sauvegarde"@,
        Idioma::Gallego => "Exportar copia de seguranza"@,
        Idioma::Hungaro => "Biztonsági mentés exportálása"@,
        Idioma::Italiano => "Esporta backup"@,
        Idioma::Coreano => "백업 내보내기"@,
        Idioma::Kurdo => "Piştgiriya hinardekirinê"@,
        Idioma::Neerlandes => "Back-up exporteren"@,
        Idioma::NoruegoNynorsk => "Eksporter sikkerhetskopi"@,
        Idioma::Polaco => "Eksportuj kopię zapasową"@,
        Idioma::PortuguesBrasil => "Exportar backup"@,
        Idioma::Ruso => "Экспортировать резервную копию"@,
        Idioma::Sueco => "Exportera säkerhetskopia"@,
        Idioma::Ucraniano => "Експорт резервної копії"@,
        Idioma::Vietnamita => "Xuất bản sao lưu"@,
        Idioma::ChinoSimplificado => "导出备份"@,
    }
}

pub fn t_export_backup(idioma: Idioma) -> (r: &'static str)
    ensures
        r@ == t_export_backup_spec(idioma),
{
    match idioma {
        Idioma::BelarusLatino => "Ekspart rezjervovaj kopii",
        Idioma::Belarus => "Экспарт рэзервовай копіі",
        Idioma::Catalan => "Exporta la còpia de seguretat",
        Idioma::Checo => "Exportujte zálohu",
        Idioma::Aleman => "Sicherung exportieren",
        Idioma::Ingles | Idioma::Turco => "Export backup",
        Idioma::Espanol => "Exportar copia",
        Idioma::Frances => "Exporter la sauvegarde",
        Idioma::Gallego => "Exportar copia de seguranza",
        Idioma::Hungaro => "Biztonsági mentés exportálása",
        Idioma::Italiano => "Esporta backup",
        Idioma::Coreano => "백업 내보내기",
        Idioma::Kurdo => "Piştgiriya hinardekirinê",
        Idioma::Neerlandes => "Back-up exporteren",
        Idioma::NoruegoNynorsk => "Eksporter sikkerhetskopi",
        Idioma::Polaco => "Eksportuj kopię zapasową",
        Idioma::PortuguesBrasil => "Exportar backup",
        Idioma::Ruso => "Экспортировать резервную копию",
        Idioma::Sueco => "Exportera säkerhetskopia",
        Idioma::Ucraniano => "Експорт резервної копії",
        Idioma::Vietnamita => "Xuất bản sao lưu",
        Idioma::ChinoSimplificado => "导出备份",
    }
}

/// The `restore_backup` text in each language.
pub open spec fn t_restore_backup_spec(idioma: Idioma) -> Seq<char> {
    match idioma {
        Idioma::BelarusLatino => "Adnavic rezjervovuju kopiju"@,
        Idioma::Belarus => "Аднавіць рэзервовую копію"@,
        Idioma::Catalan => "Restaura la còpia de seguretat"@,
        Idioma::Checo => "Obnovte zálohu"@,
        Idioma::Aleman => "Sicherung wiederherstellen"@,
        Idioma::Ingles => "Restore backup"@,
        Idioma::Espanol => "Restaurar copia"@,
        Idioma::Frances => "Restaurer la sauvegarde"@,
        Idioma::Gallego => "Restaurar copia de seguranza"@,
        Idioma::Hungaro => "Biztonsági mentés visszaállítása"@,
        Idioma::Italiano => "Ripristina backup"@,
        Idioma::Coreano => "백업 복원"@,
        Idioma::Kurdo => "Piştgiriyê vegerîne"@,
        Idioma::Neerlandes => "Back-up herstellen"@,
        Idioma::NoruegoNynorsk => "Gjenopprett sikkerhetskopi"@,
        Idioma::Polaco => "Przywróć kopię zapasową"@,
        Idioma::PortuguesBrasil => "Restaurar backup"@,
        Idioma::Ruso => "Восстановить резервную копию"@,
        Idioma::Sueco => "Återställ säkerhetskopia"@,
        Idioma::Turco => "Yedeği geri yükle"@,
        Idioma::Ucraniano => "Відновити резервну копію"@,
        Idioma::Vietnamita => "Khôi phục bản sao lưu"@,
        Idioma::ChinoSimplificado => "恢复备份"@,
    }
}

pub fn t_restore_backup(idioma: Idioma) -> (r: &'static str)
    ensures
        r@ == t_restore_backup_spec(idioma),
{
    match idioma {
        Idioma::BelarusLatino => "Adnavic rezjervovuju kopiju",
        Idioma::Belarus => "Аднавіць рэзервовую копію",
        Idioma::Catalan => "Restaura la còpia de seguretat",
        Idioma::Checo => "Obnovte zálohu",
        Idioma::Aleman => "Sicherung wiederherstellen",
        Idioma::Ingles => "Restore backup",
        Idioma::Espanol => "Restaurar copia",
        Idioma::Frances => "Restaurer la sauvegarde",
        Idioma::Gallego => "Restaurar copia de seguranza",
        Idioma::Hungaro => "Biztonsági mentés visszaállítása",
        Idioma::Italiano => "Ripristina backup",
        Idioma::Coreano => "백업 복원",
        Idioma::Kurdo => "Piştgiriyê vegerîne",
        Idioma::Neerlandes => "Back-up herstellen",
        Idioma::NoruegoNynorsk => "Gjenopprett sikkerhetskopi",
        Idioma::Polaco => "Przywróć kopię zapasową",
        Idioma::PortuguesBrasil => "Restaurar backup",
        Idioma::Ruso => "Восстановить резервную копию",
        Idioma::Sueco => "Återställ säkerhetskopia",
        Idioma::Turco => "Yedeği geri yükle",
        Idioma::Ucraniano => "Відновити резервну копію",
        Idioma::Vietnamita => "Khôi phục bản sao lưu",
        Idioma::ChinoSimplificado => "恢复备份",
    }
}

/// The `create_person` text in each language.
pub open spec fn t_create_person_spec(idioma: Idioma) -> Seq<char> {
    match idioma {
        Idioma::BelarusLatino => "Stvaryc čałavjeka"@,
        Idioma::Belarus => "Стварыць чалавека"@,
        Idioma::Catalan => "Crea una persona"@,
        Idioma::Checo => "Vytvořit osobu"@,
        Idioma::Aleman => "Person erstellen"@,
        Idioma::Ingles | Idioma::Turco => "Create person"@,
        Idioma::Espanol => "Crear persona"@,
        Idioma::Frances => "Créer une personne"@,
        Idioma::Gallego => "Crear persoa"@,
        Idioma::Hungaro => "Személy létrehozása"@,
        Idioma::Italiano => "Crea persona"@,
        Idioma::Coreano => "사람 만들기"@,
        Idioma::Kurdo => "Mirov biafirîne"@,
        Idioma::Neerlandes => "Persoon aanmaken"@,
        Idioma::NoruegoNynorsk => "Opprett person"@,
        Idioma::Polaco => "Utwórz osobę"@,
        Idioma::PortuguesBrasil => "Criar pessoa"@,
        Idioma::Ruso => "Создать человека"@,
        Idioma::Sueco => "Skapa person"@,
        Idioma::Ucraniano => "Створити людину"@,
        Idioma::Vietnamita => "Tạo người"@,
        Idioma::ChinoSimplificado => "创建人"@,
    }
}

pub fn t_create_person(idioma: Idioma) -> (r: &'static str)
    ensures
        r@ == t_create_person_spec(idioma),
{
    match idioma {
        Idioma::BelarusLatino => "Stvaryc čałavjeka",
        Idioma::Belarus => "Стварыць чалавека",
        Idioma::Catalan => "Crea una persona",
        Idioma::Checo => "Vytvořit osobu",
        Idioma::Aleman => "Person erstellen",
        Idioma::Ingles | Idioma::Turco => "Create person",
        Idioma::Espanol => "Crear persona",
        Idioma::Frances => "Créer une personne",
        Idioma::Gallego => "Crear persoa",
        Idioma::Hungaro => "Személy létrehozása",
        Idioma::Italiano => "Crea persona",
        Idioma::Coreano => "사람 만들기",
        Idioma::Kurdo => "Mirov biafirîne",
        Idioma::Neerlandes => "Persoon aanmaken",
        Idioma::NoruegoNynorsk => "Opprett person",
        Idioma::Polaco => "Utwórz osobę",
        Idioma::PortuguesBrasil => "Criar pessoa",
        Idioma::Ruso => "Создать человека",
        Idioma::Sueco => "Skapa person",
        Idioma::Ucraniano => "Створити людину",
        Idioma::Vietnamita => "Tạo người",
        Idioma::ChinoSimplificado => "创建人",
    }
}

/// The `update_all` text in each language.
pub open spec fn t_update_all_spec(idioma: Idioma) -> Seq<char> {
    match idioma {
        Idioma::BelarusLatino => "Abnavic usjo"@,
        Idioma::Belarus => "Абнавіць усё"@,
        Idioma::Catalan => "Actualitza-ho tot"@,
        Idioma::Checo => "Aktualizovat vše"@,
        Idioma::Aleman => "Alle aktualisieren"@,
        Idioma::Ingles => "Update all"@,
        Idioma::Espanol | Idioma::Gallego => "Actualizar todo"@,
        Idioma::Frances => "Tout mettre à jour"@,
        Idioma::Hungaro => "Összes frissítése"@,
        Idioma::Italiano => "Aggiorna tutto"@,
        Idioma::Coreano => "모두 업데이트"@,
        Idioma::Kurdo => "Hemî nûve bikin"@,
        Idioma::Neerlandes => "Alles bijwerken"@,
        Idioma::NoruegoNynorsk => "Oppdater alle"@,
        Idioma::Polaco => "Zaktualizuj wszystko"@,
        Idioma::PortuguesBrasil => "Atualizar tudo"@,
        Idioma::Ruso => "Обновить все"@,
        Idioma::Sueco => "Uppdatera alla"@,
        Idioma::Turco => "Tümünü güncelle"@,
        Idioma::Ucraniano => "Оновити все"@,
        Idioma::Vietnamita => "Cập nhật tất cả"@,
        Idioma::ChinoSimplificado => "全部更新"@,
    }
}

pub fn t_update_all(idioma: Idioma) -> (r: &'static str)
    ensures
        r@ == t_update_all_spec(idioma),
{
    match idioma {
        Idioma::BelarusLatino => "Abnavic usjo",
        Idioma::Belarus => "Абнавіць усё",
        Idioma::Catalan => "Actualitza-ho tot",
        Idioma::Checo => "Aktualizovat vše",
        Idioma::Aleman => "Alle aktualisieren",
        Idioma::Ingles => "Update all",
        Idioma::Espanol | Idioma::Gallego => "Actualizar todo",
        Idioma::Frances => "Tout mettre à jour",
        Idioma::Hungaro => "Összes frissítése",
        Idioma::Italiano => "Aggiorna tutto",
        Idioma::Coreano => "모두 업데이트",
        Idioma::Kurdo => "Hemî nûve bikin",
        Idioma::Neerlandes => "Alles bijwerken",
        Idioma::NoruegoNynorsk => "Oppdater alle",
        Idioma::Polaco => "Zaktualizuj wszystko",
        Idioma::PortuguesBrasil => "Atualizar tudo",
        Idioma::Ruso => "Обновить все",
        Idioma::Sueco => "Uppdatera alla",
        Idioma::Turco => "Tümünü güncelle",
        Idioma::Ucraniano => "Оновити все",
        Idioma::Vietnamita => "Cập nhật tất cả",
        Idioma::ChinoSimplificado => "全部更新",
    }
}

/// The `customize_updates` text in each language.
pub open spec fn t_customize_updates_spec(idioma: Idioma) -> Seq<char> {
    match idioma {
        Idioma::BelarusLatino => "Naładzic"@,
        Idioma::Belarus => "Дапасаваць"@,
        Idioma::Catalan => "Personalitza"@,
        Idioma::Checo => "Přizpůsobit"@,
        Idioma::Aleman => "Anpassen"@,
        Idioma::Ingles => "Customize"@,
        Idioma::Espanol | Idioma::Gallego => "Personalizar"@,
        Idioma::Frances => "Personnaliser"@,
        Idioma::Hungaro => "Testreszabás"@,
        Idioma::Italiano => "Personalizza"@,
        Idioma::Coreano => "사용자 정의"@,
        Idioma::Kurdo => "Kesane bike"@,
        Idioma::Neerlandes => "Aanpassen"@,
        Idioma::NoruegoNynorsk => "Måta til"@,
        Idioma::Polaco => "Dostosuj"@,
        Idioma::PortuguesBrasil => "Customizar"@,
        Idioma::Ruso => "Настроить"@,
        Idioma::Sueco => "Anpassa"@,
        Idioma::Turco => "Özelleştir"@,
        Idioma::Ucraniano => "Налаштувати"@,
        Idioma::Vietnamita => "Tùy chỉnh"@,
        Idioma::ChinoSimplificado => "自定义"@,
    }
}

pub fn t_customize_updates(idioma: Idioma) -> (r: &'static str)
    ensures
        r@ == t_customize_updates_spec(idioma),
{
    match idioma {
        Idioma::BelarusLatino => "Naładzic",
        Idioma::Belarus => "Дапасаваць",
        Idioma::Catalan => "Personalitza",
        Idioma::Checo => "Přizpůsobit",
        Idioma::Aleman => "Anpassen",
        Idioma::Ingles => "Customize",
        Idioma::Espanol | Idioma::Gallego => "Personalizar",
        Idioma::Frances => "Personnaliser",
        Idioma::Hungaro => "Testreszabás",
        Idioma::Italiano => "Personalizza",
        Idioma::Coreano => "사용자 정의",
        Idioma::Kurdo => "Kesane bike",
        Idioma::Neerlandes => "Aanpassen",
        Idioma::NoruegoNynorsk => "Måta til",
        Idioma::Polaco => "Dostosuj",
        Idioma::PortuguesBrasil => "Customizar",
        Idioma::Ruso => "Настроить",
        Idioma::Sueco => "Anpassa",
        Idioma::Turco => "Özelleştir",
        Idioma::Ucraniano => "Налаштувати",
        Idioma::Vietnamita => "Tùy chỉnh",
        Idioma::ChinoSimplificado => "自定义",
    }
}

/// The `advanced` text in each language.
pub open spec fn t_advanced_spec(idioma: Idioma) -> Seq<char> {
    match idioma {
        Idioma::BelarusLatino => "Pašyrany"@,
        Idioma::Belarus => "Пашыраныя"@,
        Idioma::Catalan => "Avançat"@,
        Idioma::Checo => "Pokročilé"@,
        Idioma::Aleman => "Erweitert"@,
        Idioma::Ingles => "Advanced"@,
        Idioma::Espanol | Idioma::Gallego => "Avanzado"@,
        Idioma::Frances => "Avancé"@,
        Idioma::Hungaro => "Haladó"@,
        Idioma::Italiano => "Avanzato"@,
        Idioma::Coreano => "고급"@,
        Idioma::Kurdo => "Pêşketî"@,
        Idioma::Neerlandes => "Geavanceerd"@,
        Idioma::NoruegoNynorsk => "Avansert"@,
        Idioma::Polaco => "Zaawansowane"@,
        Idioma::PortuguesBrasil => "Avançado"@,
        Idioma::Ruso => "Расширенное"@,
        Idioma::Sueco => "Avancerat"@,
        Idioma::Turco => "Gelişmiş"@,
        Idioma::Ucraniano => "Додаткові"@,
        Idioma::Vietnamita => "Nâng cao"@,
        Idioma::ChinoSimplificado => "高级"@,
    }
}

pub fn t_advanced(idioma: Idioma) -> (r: &'static str)
    ensures
        r@ == t_advanced_spec(idioma),
{
    match idioma {
        Idioma::BelarusLatino => "Pašyrany",
        Idioma::Belarus => "Пашыраныя",
        Idioma::Catalan => "Avançat",
        Idioma::Checo => "Pokročilé",
        Idioma::Aleman => "Erweitert",
        Idioma::Ingles => "Advanced",
        Idioma::Espanol | Idioma::Gallego => "Avanzado",
        Idioma::Frances => "Avancé",
        Idioma::Hungaro => "Haladó",
        Idioma::Italiano => "Avanzato",
        Idioma::Coreano => "고급",
        Idioma::Kurdo => "Pêşketî",
        Idioma::Neerlandes => "Geavanceerd",
        Idioma::NoruegoNynorsk => "Avansert",
        Idioma::Polaco => "Zaawansowane",
        Idioma::PortuguesBrasil => "Avançado",
        Idioma::Ruso => "Расширенное",
        Idioma::Sueco => "Avancerat",
        Idioma::Turco => "Gelişmiş",
        Idioma::Ucraniano => "Додаткові",
        Idioma::Vietnamita => "Nâng cao",
        Idioma::ChinoSimplificado => "高级",
    }
}

/// The text for a key in a language; `Korunix` for an unknown key.
pub open spec fn texto_spec(idioma: Idioma, clave: Seq<char>) -> Seq<char> {
    if clave == "subtitle"@ {
        t_subtitle_spec(idioma)
    } else if clave == "summary"@ {
        t_summary_spec(idioma)
    } else if clave == "updates"@ {
        t_updates_spec(idioma)
    } else if clave == "localization"@ {
        t_localization_spec(idioma)
    } else if clave == "hardware"@ {
        t_hardware_spec(idioma)
    } else if clave == "people"@ {
        t_people_spec(idioma)
    } else if clave == "refresh"@ {
        t_refresh_spec(idioma)
    } else if clave == "channel"@ {
        t_channel_spec(idioma)
    } else if clave == "stable"@ {
        t_stable_spec(idioma)
    } else if clave == "unstable"@ {
        t_unstable_spec(idioma)
    } else if clave == "prepare"@ {
        t_prepare_spec(idioma)
    } else if clave == "configured"@ {
        t_configured_spec(idioma)
    } else if clave == "target_channel"@ {
        t_target_channel_spec(idioma)
    } else if clave == "change"@ {
        t_change_spec(idioma)
    } else if clave == "confirm_channel"@ {
        t_confirm_channel_spec(idioma)
    } else if clave == "cancel"@ {
        t_cancel_spec(idioma)
    } else if clave == "apply_change"@ {
        t_apply_change_spec(idioma)
    } else if clave == "no_change"@ {
        t_no_change_spec(idioma)
    } else if clave == "plan_failed"@ {
        t_plan_failed_spec(idioma)
    } else if clave == "sections"@ {
        t_sections_spec(idioma)
    } else if clave == "media"@ {
        t_media_spec(idioma)
    } else if clave == "storage"@ {
        t_storage_spec(idioma)
    } else if clave == "firmware_updates"@ {
        t_firmware_updates_spec(idioma)
    } else if clave == "maintenance"@ {
        t_maintenance_spec(idioma)
    } else if clave == "recovery"@ {
        t_recovery_spec(idioma)
    } else if clave == "cleanup"@ {
        t_cleanup_spec(idioma)
    } else if clave == "normal_cleanup"@ {
        t_normal_cleanup_spec(idioma)
    } else if clave == "deep_cleanup"@ {
        t_deep_cleanup_spec(idioma)
    } else if clave == "clean_now"@ {
        t_clean_now_spec(idioma)
    } else if clave == "clean_all"@ {
        t_clean_all_spec(idioma)
    } else if clave == "generations"@ {
        t_generations_spec(idioma)
    } else if clave == "use_once"@ {
        t_use_once_spec(idioma)
    } else if clave == "current_generation"@ {
        t_current_generation_spec(idioma)
    } else if clave == "default_generation"@ {
        t_default_generation_spec(idioma)
    } else if clave == "heavy_transfer"@ {
        t_heavy_transfer_spec(idioma)
    } else if clave == "heavy_transfer_detail"@ {
        t_heavy_transfer_detail_spec(idioma)
    } else if clave == "eject"@ {
        t_eject_spec(idioma)
    } else if clave == "removable"@ {
        t_removable_spec(idioma)
    } else if clave == "internal"@ {
        t_internal_spec(idioma)
    } else if clave == "safe_disconnect"@ {
        t_safe_disconnect_spec(idioma)
    } else if clave == "available_updates"@ {
        t_available_updates_spec(idioma)
    } else if clave == "firmware_devices"@ {
        t_firmware_devices_spec(idioma)
    } else if clave == "refresh_firmware"@ {
        t_refresh_firmware_spec(idioma)
    } else if clave == "install"@ {
        t_install_spec(idioma)
    } else if clave == "no_updates"@ {
        t_no_updates_spec(idioma)
    } else if clave == "version"@ {
        t_version_spec(idioma)
    } else if clave == "output"@ {
        t_output_spec(idioma)
    } else if clave == "input"@ {
        t_input_spec(idioma)
    } else if clave == "volume"@ {
        t_volume_spec(idioma)
    } else if clave == "mute"@ {
        t_mute_spec(idioma)
    } else if clave == "cameras"@ {
        t_cameras_spec(idioma)
    } else if clave == "software_sources"@ {
        t_software_sources_spec(idioma)
    } else if clave == "update_sources"@ {
        t_update_sources_spec(idioma)
    } else if clave == "privileges"@ {
        t_privileges_spec(idioma)
    } else if clave == "operation_done"@ {
        t_operation_done_spec(idioma)
    } else if clave == "operation_failed"@ {
        t_operation_failed_spec(idioma)
    } else if clave == "confirm_operation"@ {
        t_confirm_operation_spec(idioma)
    } else if clave == "current"@ {
        t_current_spec(idioma)
    } else if clave == "host"@ {
        t_host_spec(idioma)
    } else if clave == "model"@ {
        t_model_spec(idioma)
    } else if clave == "cpu"@ {
        t_cpu_spec(idioma)
    } else if clave == "memory"@ {
        t_memory_spec(idioma)
    } else if clave == "boot"@ {
        t_boot_spec(idioma)
    } else if clave == "applied"@ {
        t_applied_spec(idioma)
    } else if clave == "change_failed"@ {
        t_change_failed_spec(idioma)
    } else if clave == "language"@ {
        t_language_spec(idioma)
    } else if clave == "region"@ {
        t_region_spec(idioma)
    } else if clave == "timezone"@ {
        t_timezone_spec(idioma)
    } else if clave == "keyboard"@ {
        t_keyboard_spec(idioma)
    } else if clave == "status"@ {
        t_status_spec(idioma)
    } else if clave == "loading"@ {
        t_loading_spec(idioma)
    } else if clave == "ready"@ {
        t_ready_spec(idioma)
    } else if clave == "error"@ {
        t_error_spec(idioma)
    } else if clave == "empty"@ {
        t_empty_spec(idioma)
    } else if clave == "applications"@ {
        t_applications_spec(idioma)
    } else if clave == "appearance_desktops"@ {
        t_appearance_desktops_spec(idioma)
    } else if clave == "backups_history"@ {
        t_backups_history_spec(idioma)
    } else if clave == "global_search"@ {
        t_global_search_spec(idioma)
    } else if clave == "save_apply"@ {
        t_save_apply_spec(idioma)
    } else if clave == "remove"@ {
        t_remove_spec(idioma)
    } else if clave == "search"@ {
        t_search_spec(idioma)
    } else if clave == "export_backup"@ {
        t_export_backup_spec(idioma)
    } else if clave == "restore_backup"@ {
        t_restore_backup_spec(idioma)
    } else if clave == "create_person"@ {
        t_create_person_spec(idioma)
    } else if clave == "update_all"@ {
        t_update_all_spec(idioma)
    } else if clave == "customize_updates"@ {
        t_customize_updates_spec(idioma)
    } else if clave == "advanced"@ {
        t_advanced_spec(idioma)
    } else {
        "Korunix"@
    }
}

pub fn texto(idioma: Idioma, clave: &str) -> (r: &'static str)
    ensures
        r@ == texto_spec(idioma, clave@),
{
    if iguales(clave, "subtitle") {
        t_subtitle(idioma)
    } else if iguales(clave, "summary") {
        t_summary(idioma)
    } else if iguales(clave, "updates") {
        t_updates(idioma)
    } else if iguales(clave, "localization") {
        t_localization(idioma)
    } else if iguales(clave, "hardware") {
        t_hardware(idioma)
    } else if iguales(clave, "people") {
        t_people(idioma)
    } else if iguales(clave, "refresh") {
        t_refresh(idioma)
    } else if iguales(clave, "channel") {
        t_channel(idioma)
    } else if iguales(clave, "stable") {
        t_stable(idioma)
    } else if iguales(clave, "unstable") {
        t_unstable(idioma)
    } else if iguales(clave, "prepare") {
        t_prepare(idioma)
    } else if iguales(clave, "configured") {
        t_configured(idioma)
    } else if iguales(clave, "target_channel") {
        t_target_channel(idioma)
    } else if iguales(clave, "change") {
        t_change(idioma)
    } else if iguales(clave, "confirm_channel") {
        t_confirm_channel(idioma)
    } else if iguales(clave, "cancel") {
        t_cancel(idioma)
    } else if iguales(clave, "apply_change") {
        t_apply_change(idioma)
    } else if iguales(clave, "no_change") {
        t_no_change(idioma)
    } else if iguales(clave, "plan_failed") {
        t_plan_failed(idioma)
    } else if iguales(clave, "sections") {
        t_sections(idioma)
    } else if iguales(clave, "media") {
        t_media(idioma)
    } else if iguales(clave, "storage") {
        t_storage(idioma)
    } else if iguales(clave, "firmware_updates") {
        t_firmware_updates(idioma)
    } else if iguales(clave, "maintenance") {
        t_maintenance(idioma)
    } else if iguales(clave, "recovery") {
        t_recovery(idioma)
    } else if iguales(clave, "cleanup") {
        t_cleanup(idioma)
    } else if iguales(clave, "normal_cleanup") {
        t_normal_cleanup(idioma)
    } else if iguales(clave, "deep_cleanup") {
        t_deep_cleanup(idioma)
    } else if iguales(clave, "clean_now") {
        t_clean_now(idioma)
    } else if iguales(clave, "clean_all") {
        t_clean_all(idioma)
    } else if iguales(clave, "generations") {
        t_generations(idioma)
    } else if iguales(clave, "use_once") {
        t_use_once(idioma)
    } else if iguales(clave, "current_generation") {
        t_current_generation(idioma)
    } else if iguales(clave, "default_generation") {
        t_default_generation(idioma)
    } else if iguales(clave, "heavy_transfer") {
        t_heavy_transfer(idioma)
    } else if iguales(clave, "heavy_transfer_detail") {
        t_heavy_transfer_detail(idioma)
    } else if iguales(clave, "eject") {
        t_eject(idioma)
    } else if iguales(clave, "removable") {
        t_removable(idioma)
    } else if iguales(clave, "internal") {
        t_internal(idioma)
    } else if iguales(clave, "safe_disconnect") {
        t_safe_disconnect(idioma)
    } else if iguales(clave, "available_updates") {
        t_available_updates(idioma)
    } else if iguales(clave, "firmware_devices") {
        t_firmware_devices(idioma)
    } else if iguales(clave, "refresh_firmware") {
        t_refresh_firmware(idioma)
    } else if iguales(clave, "install") {
        t_install(idioma)
    } else if iguales(clave, "no_updates") {
        t_no_updates(idioma)
    } else if iguales(clave, "version") {
        t_version(idioma)
    } else if iguales(clave, "output") {
        t_output(idioma)
    } else if iguales(clave, "input") {
        t_input(idioma)
    } else if iguales(clave, "volume") {
        t_volume(idioma)
    } else if iguales(clave, "mute") {
        t_mute(idioma)
    } else if iguales(clave, "cameras") {
        t_cameras(idioma)
    } else if iguales(clave, "software_sources") {
        t_software_sources(idioma)
    } else if iguales(clave, "update_sources") {
        t_update_sources(idioma)
    } else if iguales(clave, "privileges") {
        t_privileges(idioma)
    } else if iguales(clave, "operation_done") {
        t_operation_done(idioma)
    } else if iguales(clave, "operation_failed") {
        t_operation_failed(idioma)
    } else if iguales(clave, "confirm_operation") {
        t_confirm_operation(idioma)
    } else if iguales(clave, "current") {
        t_current(idioma)
    } else if iguales(clave, "host") {
        t_host(idioma)
    } else if iguales(clave, "model") {
        t_model(idioma)
    } else if iguales(clave, "cpu") {
        t_cpu(idioma)
    } else if iguales(clave, "memory") {
        t_memory(idioma)
    } else if iguales(clave, "boot") {
        t_boot(idioma)
    } else if iguales(clave, "applied") {
        t_applied(idioma)
    } else if iguales(clave, "change_failed") {
        t_change_failed(idioma)
    } else if iguales(clave, "language") {
        t_language(idioma)
    } else if iguales(clave, "region") {
        t_region(idioma)
    } else if iguales(clave, "timezone") {
        t_timezone(idioma)
    } else if iguales(clave, "keyboard") {
        t_keyboard(idioma)
    } else if iguales(clave, "status") {
        t_status(idioma)
    } else if iguales(clave, "loading") {
        t_loading(idioma)
    } else if iguales(clave, "ready") {
        t_ready(idioma)
    } else if iguales(clave, "error") {
        t_error(idioma)
    } else if iguales(clave, "empty") {
        t_empty(idioma)
    } else if iguales(clave, "applications") {
        t_applications(idioma)
    } else if iguales(clave, "appearance_desktops") {
        t_appearance_desktops(idioma)
    } else if iguales(clave, "backups_history") {
        t_backups_history(idioma)
    } else if iguales(clave, "global_search") {
        t_global_search(idioma)
    } else if iguales(clave, "save_apply") {
        t_save_apply(idioma)
    } else if iguales(clave, "remove") {
        t_remove(idioma)
    } else if iguales(clave, "search") {
        t_search(idioma)
    } else if iguales(clave, "export_backup") {
        t_export_backup(idioma)
    } else if iguales(clave, "restore_backup") {
        t_restore_backup(idioma)
    } else if iguales(clave, "create_person") {
        t_create_person(idioma)
    } else if iguales(clave, "update_all") {
        t_update_all(idioma)
    } else if iguales(clave, "customize_updates") {
        t_customize_updates(idioma)
    } else if iguales(clave, "advanced") {
        t_advanced(idioma)
    } else {
        "Korunix"
    }
}

proof fn lema_t_updates_traducido(idioma: Idioma)
    ensures
        t_updates_spec(idioma) != "Korunix"@,
{
    reveal_strlit("Abnaŭłjenni");
    reveal_strlit("Actualitzacions");
    reveal_strlit("Actualizaciones");
    reveal_strlit("Actualizacións");
    reveal_strlit("Aggiornamenti");
    reveal_strlit("Aktualisierungen");
    reveal_strlit("Aktualizace");
    reveal_strlit("Aktualizacje");
    reveal_strlit("Atualizações");
    reveal_strlit("Cập nhật");
    reveal_strlit("Frissítések");
    reveal_strlit("Güncellemeler");
    reveal_strlit("Mises à jour");
    reveal_strlit("Nûvekirin");
    reveal_strlit("Oppdateringer");
    reveal_strlit("Updates");
    reveal_strlit("Uppdateringar");
    reveal_strlit("Абнаўленні");
    reveal_strlit("Обновления");
    reveal_strlit("Оновлення");
    reveal_strlit("更新");
    reveal_strlit("업데이트");
    lema_distinto_de_korunix(t_updates_spec(idioma));
}

proof fn lema_t_hardware_traducido(idioma: Idioma)
    ensures
        t_hardware_spec(idioma) != "Korunix"@,
{
    reveal_strlit("Abstałjavannje");
    reveal_strlit("Donanım");
    reveal_strlit("Ferramenta");
    reveal_strlit("Hardver");
    reveal_strlit("Hardware");
    reveal_strlit("Hårdvara");
    reveal_strlit("Maquinari");
    reveal_strlit("Maskinvare");
    reveal_strlit("Matériel");
    reveal_strlit("Phần cứng");
    reveal_strlit("Sprzęt");
    reveal_strlit("Абсталяванне");
    reveal_strlit("Аппаратное обеспечение");
    reveal_strlit("Обладнання");
    reveal_strlit("硬件");
    reveal_strlit("하드웨어");
    lema_distinto_de_korunix(t_hardware_spec(idioma));
}

proof fn lema_t_media_traducido(idioma: Idioma)
    ensures
        t_media_spec(idioma) != "Korunix"@,
{
    reveal_strlit("Deng û kamera");
    reveal_strlit("Dźwięk i kamera");
    reveal_strlit("Geluid en camera");
    reveal_strlit("Hang és kamera");
    reveal_strlit("Huk i kamjera");
    reveal_strlit("Ljud och kamera");
    reveal_strlit("Lyd og kamera");
    reveal_strlit("Ses ve kamera");
    reveal_strlit("So i càmera");
    reveal_strlit("Som e câmera");
    reveal_strlit("Son e cámara");
    reveal_strlit("Son et caméra");
    reveal_strlit("Sonido y cámara");
    reveal_strlit("Sound and camera");
    reveal_strlit("Suono e fotocamera");
    reveal_strlit("Ton und Kamera");
    reveal_strlit("Zvuk a kamera");
    reveal_strlit("Âm thanh và camera");
    reveal_strlit("Гук і камера");
    reveal_strlit("Звук и камера");
    reveal_strlit("Звук і камера");
    reveal_strlit("声音和摄像头");
    reveal_strlit("사운드 및 카메라");
    lema_distinto_de_korunix(t_media_spec(idioma));
}

proof fn lema_t_storage_traducido(idioma: Idioma)
    ensures
        t_storage_spec(idioma) != "Korunix"@,
{
    reveal_strlit("Almacenamento");
    reveal_strlit("Almacenamiento");
    reveal_strlit("Armazenamento");
    reveal_strlit("Depolama");
    reveal_strlit("Deposito");
    reveal_strlit("Emmagatzematge");
    reveal_strlit("Lagerung");
    reveal_strlit("Lagring");
    reveal_strlit("Lưu trữ");
    reveal_strlit("Opslag");
    reveal_strlit("Przechowywanie");
    reveal_strlit("Stockage");
    reveal_strlit("Storage");
    reveal_strlit("Tárhely");
    reveal_strlit("Zachoŭvannje");
    reveal_strlit("Úložiště");
    reveal_strlit("Захоўванне");
    reveal_strlit("Зберігання");
    reveal_strlit("Хранение");
    reveal_strlit("存储");
    reveal_strlit("스토리지");
    lema_distinto_de_korunix(t_storage_spec(idioma));
}

proof fn lema_t_firmware_updates_traducido(idioma: Idioma)
    ensures
        t_firmware_updates_spec(idioma) != "Korunix"@,
{
    reveal_strlit("Fastvare");
    reveal_strlit("Firmware");
    reveal_strlit("Micrologiciel");
    reveal_strlit("Oprogramowanie sprzętowe");
    reveal_strlit("Phần sụn");
    reveal_strlit("Prašyŭka");
    reveal_strlit("Прашыўка");
    reveal_strlit("Прошивка");
    reveal_strlit("固件");
    reveal_strlit("펌웨어");
    lema_distinto_de_korunix(t_firmware_updates_spec(idioma));
}

proof fn lema_t_applications_traducido(idioma: Idioma)
    ensures
        t_applications_spec(idioma) != "Korunix"@,
{
    reveal_strlit("Alkalmazások");
    reveal_strlit("Anwendungen");
    reveal_strlit("Aplicaciones");
    reveal_strlit("Aplicacions");
    reveal_strlit("Aplicacións");
    reveal_strlit("Aplicações");
    reveal_strlit("Aplikace");
    reveal_strlit("Aplikacje");
    reveal_strlit("Applicaties");
    reveal_strlit("Applications");
    reveal_strlit("Applicazioni");
    reveal_strlit("Applikasjonar");
    reveal_strlit("Applikationer");
    reveal_strlit("Prykładanni");
    reveal_strlit("Sepan...");
    reveal_strlit("Uygulamalar");
    reveal_strlit("Застосунки");
    reveal_strlit("Праграмы");
    reveal_strlit("Приложения");
    reveal_strlit("Ứng dụng");
    reveal_strlit("应用程序");
    reveal_strlit("앱");
    lema_distinto_de_korunix(t_applications_spec(idioma));
}

proof fn lema_t_appearance_desktops_traducido(idioma: Idioma)
    ensures
        t_appearance_desktops_spec(idioma) != "Korunix"@,
{
    reveal_strlit("Aparencia e escritorios");
    reveal_strlit("Aparença i escriptoris");
    reveal_strlit("Apariencia y escritorios");
    reveal_strlit("Aparência e áreas de trabalho");
    reveal_strlit("Apparence et bureaux");
    reveal_strlit("Appearance and desktops");
    reveal_strlit("Aspetto e desktop");
    reveal_strlit("Aussehen und Desktops");
    reveal_strlit("Megjelenés és asztalok");
    reveal_strlit("Ngoại hình và máy tính để bàn");
    reveal_strlit("Uiterlijk en desktops");
    reveal_strlit("Utseende och skrivbord");
    reveal_strlit("Utseende og skrivebord");
    reveal_strlit("Vzhled a stolní počítače");
    reveal_strlit("Wygląd i komputery stacjonarne");
    reveal_strlit("Xuyabûn û sermaseyên");
    reveal_strlit("Znješni vyhłjad i pracoŭny stoł");
    reveal_strlit("Внешний вид и рабочие столы");
    reveal_strlit("Знешні выгляд і працоўныя сталы");
    reveal_strlit("Зовнішній вигляд і робочі столи");
    reveal_strlit("外观和桌面");
    reveal_strlit("모양 및 데스크탑");
    lema_distinto_de_korunix(t_appearance_desktops_spec(idioma));
}

proof fn lema_t_localization_traducido(idioma: Idioma)
    ensures
        t_localization_spec(idioma) != "Korunix"@,
{
    reveal_strlit("Dil ve bölge");
    reveal_strlit("Idioma e região");
    reveal_strlit("Idioma e rexión");
    reveal_strlit("Idioma i regió");
    reveal_strlit("Idioma y región");
    reveal_strlit("Jazyk a region");
    reveal_strlit("Język i region");
    reveal_strlit("Language and region");
    reveal_strlit("Langue et région");
    reveal_strlit("Lingua e regione");
    reveal_strlit("Mova i rehijon");
    reveal_strlit("Ngôn ngữ và khu vực");
    reveal_strlit("Nyelv és régió");
    reveal_strlit("Sprache und Region");
    reveal_strlit("Språk och region");
    reveal_strlit("Språk og region");
    reveal_strlit("Taal en regio");
    reveal_strlit("Ziman û herêm");
    reveal_strlit("Мова та регіон");
    reveal_strlit("Мова і рэгіён");
    reveal_strlit("Язык и регион");
    reveal_strlit("语言和地区");
    reveal_strlit("언어 및 지역");
    lema_distinto_de_korunix(t_localization_spec(idioma));
}

proof fn lema_t_people_traducido(idioma: Idioma)
    ensures
        t_people_spec(idioma) != "Korunix"@,
{
    reveal_strlit("Folk");
    reveal_strlit("Kes");
    reveal_strlit("Lidé");
    reveal_strlit("Menschen");
    reveal_strlit("Mensen");
    reveal_strlit("Mọi người");
    reveal_strlit("Osoby");
    reveal_strlit("People");
    reveal_strlit("Persoas");
    reveal_strlit("Personas");
    reveal_strlit("Persone");
    reveal_strlit("Persones");
    reveal_strlit("Personnes");
    reveal_strlit("Pessoas");
    reveal_strlit("Személyek");
    reveal_strlit("İnsan");
    reveal_strlit("Łjudzi");
    reveal_strlit("Людзі");
    reveal_strlit("Люди");
    reveal_strlit("人物");
    reveal_strlit("사람");
    lema_distinto_de_korunix(t_people_spec(idioma));
}

proof fn lema_t_backups_history_traducido(idioma: Idioma)
    ensures
        t_backups_history_spec(idioma) != "Korunix"@,
{
    reveal_strlit("Back-ups en geschiedenis");
    reveal_strlit("Backup e cronologia");
    reveal_strlit("Backup û dîrok");
    reveal_strlit("Backups and history");
    reveal_strlit("Backups e histórico");
    reveal_strlit("Backups und Verlauf");
    reveal_strlit("Biztonsági mentés és előzmények");
    reveal_strlit("Copias de seguridade e historial");
    reveal_strlit("Copias e historial");
    reveal_strlit("Còpies de seguretat i historial");
    reveal_strlit("Kopie zapasowe i historia");
    reveal_strlit("Rezjervovyja kopii i historyja");
    reveal_strlit("Sao lưu và lịch sử");
    reveal_strlit("Sauvegardes et historique");
    reveal_strlit("Sikkerhetskopier og historikk");
    reveal_strlit("Säkerhetskopiering och historik");
    reveal_strlit("Zálohy a historie");
    reveal_strlit("Резервные копии и история");
    reveal_strlit("Резервні копії та історія");
    reveal_strlit("Рэзервовыя копіі і гісторыя");
    reveal_strlit("备份和历史记录");
    reveal_strlit("백업 및 기록");
    lema_distinto_de_korunix(t_backups_history_spec(idioma));
}

proof fn lema_t_maintenance_traducido(idioma: Idioma)
    ensures
        t_maintenance_spec(idioma) != "Korunix"@,
{
    reveal_strlit("Bakım");
    reveal_strlit("Bảo trì");
    reveal_strlit("Entretien");
    reveal_strlit("Karbantartás");
    reveal_strlit("Konserwacja");
    reveal_strlit("Maintenance");
    reveal_strlit("Mantemento\nModelo __KX00064__");
    reveal_strlit("Manteniment");
    reveal_strlit("Mantenimiento");
    reveal_strlit("Manutenzione");
    reveal_strlit("Manutenção");
    reveal_strlit("Onderhoud");
    reveal_strlit("Techničnaje absłuhoŭvannje");
    reveal_strlit("Underhåll");
    reveal_strlit("Vedlikehold");
    reveal_strlit("Wartung");
    reveal_strlit("Údržba");
    reveal_strlit("Техническое обслуживание");
    reveal_strlit("Технічне обслуговування");
    reveal_strlit("Тэхнічнае абслугоўванне");
    reveal_strlit("维护");
    reveal_strlit("유지 관리");
    lema_distinto_de_korunix(t_maintenance_spec(idioma));
}

proof fn lema_t_summary_traducido(idioma: Idioma)
    ensures
        t_summary_spec(idioma) != "Korunix"@,
{
    reveal_strlit("Kurte");
    reveal_strlit("Podsumowanie");
    reveal_strlit("Resum");
    reveal_strlit("Resumen");
    reveal_strlit("Resumo");
    reveal_strlit("Rezjume");
    reveal_strlit("Riepilogo");
    reveal_strlit("Résumé");
    reveal_strlit("Samenvatting");
    reveal_strlit("Sammanfattning");
    reveal_strlit("Sammendrag");
    reveal_strlit("Shrnutí");
    reveal_strlit("Summary");
    reveal_strlit("Tóm tắt");
    reveal_strlit("Zusammenfassung");
    reveal_strlit("Összefoglaló");
    reveal_strlit("Özet");
    reveal_strlit("Резюме");
    reveal_strlit("Рэзюмэ");
    reveal_strlit("摘要");
    reveal_strlit("요약");
    lema_distinto_de_korunix(t_summary_spec(idioma));
}

/// The text of each of these keys is its own table's.
proof fn lema_claves_titulos(idioma: Idioma)
    ensures
        texto_spec(idioma, "updates"@) == t_updates_spec(idioma),
        texto_spec(idioma, "hardware"@) == t_hardware_spec(idioma),
        texto_spec(idioma, "media"@) == t_media_spec(idioma),
        texto_spec(idioma, "storage"@) == t_storage_spec(idioma),
        texto_spec(idioma, "firmware_updates"@) == t_firmware_updates_spec(idioma),
        texto_spec(idioma, "applications"@) == t_applications_spec(idioma),
        texto_spec(idioma, "appearance_desktops"@) == t_appearance_desktops_spec(idioma),
        texto_spec(idioma, "localization"@) == t_localization_spec(idioma),
        texto_spec(idioma, "people"@) == t_people_spec(idioma),
        texto_spec(idioma, "backups_history"@) == t_backups_history_spec(idioma),
        texto_spec(idioma, "maintenance"@) == t_maintenance_spec(idioma),
        texto_spec(idioma, "summary"@) == t_summary_spec(idioma),
{
    assert(texto_spec(idioma, "updates"@) == t_updates_spec(idioma)) by {
        reveal_strlit("updates");
        assert("updates"@.len() == 7);
        reveal_strlit("subtitle");
        assert("subtitle"@.len() == 8);
        reveal_strlit("summary");
        assert("updates"@[0] != "summary"@[0]);
    }
    assert(texto_spec(idioma, "hardware"@) == t_hardware_spec(idioma)) by {
        reveal_strlit("hardware");
        assert("hardware"@.len() == 8);
        reveal_strlit("subtitle");
        assert("hardware"@[0] != "subtitle"@[0]);
        reveal_strlit("summary");
        assert("summary"@.len() == 7);
        reveal_strlit("updates");
        assert("updates"@.len() == 7);
        reveal_strlit("localization");
        assert("localization"@.len() == 12);
    }
    assert(texto_spec(idioma, "media"@) == t_media_spec(idioma)) by {
        reveal_strlit("media");
        assert("media"@.len() == 5);
        reveal_strlit("subtitle");
        assert("subtitle"@.len() == 8);
        reveal_strlit("summary");
        assert("summary"@.len() == 7);
        reveal_strlit("updates");
        assert("updates"@.len() == 7);
        reveal_strlit("localization");
        assert("localization"@.len() == 12);
        reveal_strlit("hardware");
        assert("hardware"@.len() == 8);
        reveal_strlit("people");
        assert("people"@.len() == 6);
        reveal_strlit("refresh");
        assert("refresh"@.len() == 7);
        reveal_strlit("channel");
        assert("channel"@.len() == 7);
        reveal_strlit("stable");
        assert("stable"@.len() == 6);
        reveal_strlit("unstable");
        assert("unstable"@.len() == 8);
        reveal_strlit("prepare");
        assert("prepare"@.len() == 7);
        reveal_strlit("configured");
        assert("configured"@.len() == 10);
        reveal_strlit("target_channel");
        assert("target_channel"@.len() == 14);
        reveal_strlit("change");
        assert("change"@.len() == 6);
        reveal_strlit("confirm_channel");
        assert("confirm_channel"@.len() == 15);
        reveal_strlit("cancel");
        assert("cancel"@.len() == 6);
        reveal_strlit("apply_change");
        assert("apply_change"@.len() == 12);
        reveal_strlit("no_change");
        assert("no_change"@.len() == 9);
        reveal_strlit("plan_failed");
        assert("plan_failed"@.len() == 11);
        reveal_strlit("sections");
        assert("sections"@.len() == 8);
    }
    assert(texto_spec(idioma, "storage"@) == t_storage_spec(idioma)) by {
        reveal_strlit("storage");
        assert("storage"@.len() == 7);
        reveal_strlit("subtitle");
        assert("subtitle"@.len() == 8);
        reveal_strlit("summary");
        assert("storage"@[1] != "summary"@[1]);
        reveal_strlit("updates");
        assert("storage"@[0] != "updates"@[0]);
        reveal_strlit("localization");
        assert("localization"@.len() == 12);
        reveal_strlit("hardware");
        assert("hardware"@.len() == 8);
        reveal_strlit("people");
        assert("people"@.len() == 6);
        reveal_strlit("refresh");
        assert("storage"@[0] != "refresh"@[0]);
        reveal_strlit("channel");
        assert("storage"@[0] != "channel"@[0]);
        reveal_strlit("stable");
        assert("stable"@.len() == 6);
        reveal_strlit("unstable");
        assert("unstable"@.len() == 8);
        reveal_strlit("prepare");
        assert("storage"@[0] != "prepare"@[0]);
        reveal_strlit("configured");
        assert("configured"@.len() == 10);
        reveal_strlit("target_channel");
        assert("target_channel"@.len() == 14);
        reveal_strlit("change");
        assert("change"@.len() == 6);
        reveal_strlit("confirm_channel");
        assert("confirm_channel"@.len() == 15);
        reveal_strlit("cancel");
        assert("cancel"@.len() == 6);
        reveal_strlit("apply_change");
        assert("apply_change"@.len() == 12);
        reveal_strlit("no_change");
        assert("no_change"@.len() == 9);
        reveal_strlit("plan_failed");
        assert("plan_failed"@.len() == 11);
        reveal_strlit("sections");
        assert("sections"@.len() == 8);
        reveal_strlit("media");
        assert("media"@.len() == 5);
    }
    assert(texto_spec(idioma, "firmware_updates"@) == t_firmware_updates_spec(idioma)) by {
        reveal_strlit("firmware_updates");
        assert("firmware_updates"@.len() == 16);
        reveal_strlit("subtitle");
        assert("subtitle"@.len() == 8);
        reveal_strlit("summary");
        assert("summary"@.len() == 7);
        reveal_strlit("updates");
        assert("updates"@.len() == 7);
        reveal_strlit("localization");
        assert("localization"@.len() == 12);
        reveal_strlit("hardware");
        assert("hardware"@.len() == 8);
        reveal_strlit("people");
        assert("people"@.len() == 6);
        reveal_strlit("refresh");
        assert("refresh"@.len() == 7);
        reveal_strlit("channel");
        assert("channel"@.len() == 7);
        reveal_strlit("stable");
        assert("stable"@.len() == 6);
        reveal_strlit("unstable");
        assert("unstable"@.len() == 8);
        reveal_strlit("prepare");
        assert("prepare"@.len() == 7);
        reveal_strlit("configured");
        assert("configured"@.len() == 10);
        reveal_strlit("target_channel");
        assert("target_channel"@.len() == 14);
        reveal_strlit("change");
        assert("change"@.len() == 6);
        reveal_strlit("confirm_channel");
        assert("confirm_channel"@.len() == 15);
        reveal_strlit("cancel");
        assert("cancel"@.len() == 6);
        reveal_strlit("apply_change");
        assert("apply_change"@.len() == 12);
        reveal_strlit("no_change");
        assert("no_change"@.len() == 9);
        reveal_strlit("plan_failed");
        assert("plan_failed"@.len() == 11);
        reveal_strlit("sections");
        assert("sections"@.len() == 8);
        reveal_strlit("media");
        assert("media"@.len() == 5);
        reveal_strlit("storage");
        assert("storage"@.len() == 7);
    }
    assert(texto_spec(idioma, "applications"@) == t_applications_spec(idioma)) by {
        reveal_strlit("applications");
        assert("applications"@.len() == 12);
        reveal_strlit("subtitle");
        assert("subtitle"@.len() == 8);
        reveal_strlit("summary");
        assert("summary"@.len() == 7);
        reveal_strlit("updates");
        assert("updates"@.len() == 7);
        reveal_strlit("localization");
        assert("applications"@[0] != "localization"@[0]);
        reveal_strlit("hardware");
        assert("hardware"@.len() == 8);
        reveal_strlit("people");
        assert("people"@.len() == 6);
        reveal_strlit("refresh");
        assert("refresh"@.len() == 7);
        reveal_strlit("channel");
        assert("channel"@.len() == 7);
        reveal_strlit("stable");
        assert("stable"@.len() == 6);
        reveal_strlit("unstable");
        assert("unstable"@.len() == 8);
        reveal_strlit("prepare");
        assert("prepare"@.len() == 7);
        reveal_strlit("configured");
        assert("configured"@.len() == 10);
        reveal_strlit("target_channel");
        assert("target_channel"@.len() == 14);
        reveal_strlit("change");
        assert("change"@.len() == 6);
        reveal_strlit("confirm_channel");
        assert("confirm_channel"@.len() == 15);
        reveal_strlit("cancel");
        assert("cancel"@.len() == 6);
        reveal_strlit("apply_change");
        assert("applications"@[4] != "apply_change"@[4]);
        reveal_strlit("no_change");
        assert("no_change"@.len() == 9);
        reveal_strlit("plan_failed");
        assert("plan_failed"@.len() == 11);
        reveal_strlit("sections");
        assert("sections"@.len() == 8);
        reveal_strlit("media");
        assert("media"@.len() == 5);
        reveal_strlit("storage");
        assert("storage"@.len() == 7);
        reveal_strlit("firmware_updates");
        assert("firmware_updates"@.len() == 16);
        reveal_strlit("maintenance");
        assert("maintenance"@.len() == 11);
        reveal_strlit("recovery");
        assert("recovery"@.len() == 8);
        reveal_strlit("cleanup");
        assert("cleanup"@.len() == 7);
        reveal_strlit("normal_cleanup");
        assert("normal_cleanup"@.len() == 14);
        reveal_strlit("deep_cleanup");
        assert("applications"@[0] != "deep_cleanup"@[0]);
        reveal_strlit("clean_now");
        assert("clean_now"@.len() == 9);
        reveal_strlit("clean_all");
        assert("clean_all"@.len() == 9);
        reveal_strlit("generations");
        assert("generations"@.len() == 11);
        reveal_strlit("use_once");
        assert("use_once"@.len() == 8);
        reveal_strlit("current_generation");
        assert("current_generation"@.len() == 18);
        reveal_strlit("default_generation");
        assert("default_generation"@.len() == 18);
        reveal_strlit("heavy_transfer");
        assert("heavy_transfer"@.len() == 14);
        reveal_strlit("heavy_transfer_detail");
        assert("heavy_transfer_detail"@.len() == 21);
        reveal_strlit("eject");
        assert("eject"@.len() == 5);
        reveal_strlit("removable");
        assert("removable"@.len() == 9);
        reveal_strlit("internal");
        assert("internal"@.len() == 8);
        reveal_strlit("safe_disconnect");
        assert("safe_disconnect"@.len() == 15);
        reveal_strlit("available_updates");
        assert("available_updates"@.len() == 17);
        reveal_strlit("firmware_devices");
        assert("firmware_devices"@.len() == 16);
        reveal_strlit("refresh_firmware");
        assert("refresh_firmware"@.len() == 16);
        reveal_strlit("install");
        assert("install"@.len() == 7);
        reveal_strlit("no_updates");
        assert("no_updates"@.len() == 10);
        reveal_strlit("version");
        assert("version"@.len() == 7);
        reveal_strlit("output");
        assert("output"@.len() == 6);
        reveal_strlit("input");
        assert("input"@.len() == 5);
        reveal_strlit("volume");
        assert("volume"@.len() == 6);
        reveal_strlit("mute");
        assert("mute"@.len() == 4);
        reveal_strlit("cameras");
        assert("cameras"@.len() == 7);
        reveal_strlit("software_sources");
        assert("software_sources"@.len() == 16);
        reveal_strlit("update_sources");
        assert("update_sources"@.len() == 14);
        reveal_strlit("privileges");
        assert("privileges"@.len() == 10);
        reveal_strlit("operation_done");
        assert("operation_done"@.len() == 14);
        reveal_strlit("operation_failed");
        assert("operation_failed"@.len() == 16);
        reveal_strlit("confirm_operation");
        assert("confirm_operation"@.len() == 17);
        reveal_strlit("current");
        assert("current"@.len() == 7);
        reveal_strlit("host");
        assert("host"@.len() == 4);
        reveal_strlit("model");
        assert("model"@.len() == 5);
        reveal_strlit("cpu");
        assert("cpu"@.len() == 3);
        reveal_strlit("memory");
        assert("memory"@.len() == 6);
        reveal_strlit("boot");
        assert("boot"@.len() == 4);
        reveal_strlit("applied");
        assert("applied"@.len() == 7);
        reveal_strlit("change_failed");
        assert("change_failed"@.len() == 13);
        reveal_strlit("language");
        assert("language"@.len() == 8);
        reveal_strlit("region");
        assert("region"@.len() == 6);
        reveal_strlit("timezone");
        assert("timezone"@.len() == 8);
        reveal_strlit("keyboard");
        assert("keyboard"@.len() == 8);
        reveal_strlit("status");
        assert("status"@.len() == 6);
        reveal_strlit("loading");
        assert("loading"@.len() == 7);
        reveal_strlit("ready");
        assert("ready"@.len() == 5);
        reveal_strlit("error");
        assert("error"@.len() == 5);
        reveal_strlit("empty");
        assert("empty"@.len() == 5);
    }
    assert(texto_spec(idioma, "appearance_desktops"@) == t_appearance_desktops_spec(idioma)) by {
        reveal_strlit("appearance_desktops");
        assert("appearance_desktops"@.len() == 19);
        reveal_strlit("subtitle");
        assert("subtitle"@.len() == 8);
        reveal_strlit("summary");
        assert("summary"@.len() == 7);
        reveal_strlit("updates");
        assert("updates"@.len() == 7);
        reveal_strlit("localization");
        assert("localization"@.len() == 12);
        reveal_strlit("hardware");
        assert("hardware"@.len() == 8);
        reveal_strlit("people");
        assert("people"@.len() == 6);
        reveal_strlit("refresh");
        assert("refresh"@.len() == 7);
        reveal_strlit("channel");
        assert("channel"@.len() == 7);
        reveal_strlit("stable");
        assert("stable"@.len() == 6);
        reveal_strlit("unstable");
        assert("unstable"@.len() == 8);
        reveal_strlit("prepare");
        assert("prepare"@.len() == 7);
        reveal_strlit("configured");
        assert("configured"@.len() == 10);
        reveal_strlit("target_channel");
        assert("target_channel"@.len() == 14);
        reveal_strlit("change");
        assert("change"@.len() == 6);
        reveal_strlit("confirm_channel");
        assert("confirm_channel"@.len() == 15);
        reveal_strlit("cancel");
        assert("cancel"@.len() == 6);
        reveal_strlit("apply_change");
        assert("apply_change"@.len() == 12);
        reveal_strlit("no_change");
        assert("no_change"@.len() == 9);
        reveal_strlit("plan_failed");
        assert("plan_failed"@.len() == 11);
        reveal_strlit("sections");
        assert("sections"@.len() == 8);
        reveal_strlit("media");
        assert("media"@.len() == 5);
        reveal_strlit("storage");
        assert("storage"@.len() == 7);
        reveal_strlit("firmware_updates");
        assert("firmware_updates"@.len() == 16);
        reveal_strlit("maintenance");
        assert("maintenance"@.len() == 11);
        reveal_strlit("recovery");
        assert("recovery"@.len() == 8);
        reveal_strlit("cleanup");
        assert("cleanup"@.len() == 7);
        reveal_strlit("normal_cleanup");
        assert("normal_cleanup"@.len() == 14);
        reveal_strlit("deep_cleanup");
        assert("deep_cleanup"@.len() == 12);
        reveal_strlit("clean_now");
        assert("clean_now"@.len() == 9);
        reveal_strlit("clean_all");
        assert("clean_all"@.len() == 9);
        reveal_strlit("generations");
        assert("generations"@.len() == 11);
        reveal_strlit("use_once");
        assert("use_once"@.len() == 8);
        reveal_strlit("current_generation");
        assert("current_generation"@.len() == 18);
        reveal_strlit("default_generation");
        assert("default_generation"@.len() == 18);
        reveal_strlit("heavy_transfer");
        assert("heavy_transfer"@.len() == 14);
        reveal_strlit("heavy_transfer_detail");
        assert("heavy_transfer_detail"@.len() == 21);
        reveal_strlit("eject");
        assert("eject"@.len() == 5);
        reveal_strlit("removable");
        assert("removable"@.len() == 9);
        reveal_strlit("internal");
        assert("internal"@.len() == 8);
        reveal_strlit("safe_disconnect");
        assert("safe_disconnect"@.len() == 15);
        reveal_strlit("available_updates");
        assert("available_updates"@.len() == 17);
        reveal_strlit("firmware_devices");
        assert("firmware_devices"@.len() == 16);
        reveal_strlit("refresh_firmware");
        assert("refresh_firmware"@.len() == 16);
        reveal_strlit("install");
        assert("install"@.len() == 7);
        reveal_strlit("no_updates");
        assert("no_updates"@.len() == 10);
        reveal_strlit("version");
        assert("version"@.len() == 7);
        reveal_strlit("output");
        assert("output"@.len() == 6);
        reveal_strlit("input");
        assert("input"@.len() == 5);
        reveal_strlit("volume");
        assert("volume"@.len() == 6);
        reveal_strlit("mute");
        assert("mute"@.len() == 4);
        reveal_strlit("cameras");
        assert("cameras"@.len() == 7);
        reveal_strlit("software_sources");
        assert("software_sources"@.len() == 16);
        reveal_strlit("update_sources");
        assert("update_sources"@.len() == 14);
        reveal_strlit("privileges");
        assert("privileges"@.len() == 10);
        reveal_strlit("operation_done");
        assert("operation_done"@.len() == 14);
        reveal_strlit("operation_failed");
        assert("operation_failed"@.len() == 16);
        reveal_strlit("confirm_operation");
        assert("confirm_operation"@.len() == 17);
        reveal_strlit("current");
        assert("current"@.len() == 7);
        reveal_strlit("host");
        assert("host"@.len() == 4);
        reveal_strlit("model");
        assert("model"@.len() == 5);
        reveal_strlit("cpu");
        assert("cpu"@.len() == 3);
        reveal_strlit("memory");
        assert("memory"@.len() == 6);
        reveal_strlit("boot");
        assert("boot"@.len() == 4);
        reveal_strlit("applied");
        assert("applied"@.len() == 7);
        reveal_strlit("change_failed");
        assert("change_failed"@.len() == 13);
        reveal_strlit("language");
        assert("language"@.len() == 8);
        reveal_strlit("region");
        assert("region"@.len() == 6);
        reveal_strlit("timezone");
        assert("timezone"@.len() == 8);
        reveal_strlit("keyboard");
        assert("keyboard"@.len() == 8);
        reveal_strlit("status");
        assert("status"@.len() == 6);
        reveal_strlit("loading");
        assert("loading"@.len() == 7);
        reveal_strlit("ready");
        assert("ready"@.len() == 5);
        reveal_strlit("error");
        assert("error"@.len() == 5);
        reveal_strlit("empty");
        assert("empty"@.len() == 5);
        reveal_strlit("applications");
        assert("applications"@.len() == 12);
    }
    assert(texto_spec(idioma, "localization"@) == t_localization_spec(idioma)) by {
        reveal_strlit("localization");
        assert("localization"@.len() == 12);
        reveal_strlit("subtitle");
        assert("subtitle"@.len() == 8);
        reveal_strlit("summary");
        assert("summary"@.len() == 7);
        reveal_strlit("updates");
        assert("updates"@.len() == 7);
    }
    assert(texto_spec(idioma, "people"@) == t_people_spec(idioma)) by {
        reveal_strlit("people");
        assert("people"@.len() == 6);
        reveal_strlit("subtitle");
        assert("subtitle"@.len() == 8);
        reveal_strlit("summary");
        assert("summary"@.len() == 7);
        reveal_strlit("updates");
        assert("updates"@.len() == 7);
        reveal_strlit("localization");
        assert("localization"@.len() == 12);
        reveal_strlit("hardware");
        assert("hardware"@.len() == 8);
    }
    assert(texto_spec(idioma, "backups_history"@) == t_backups_history_spec(idioma)) by {
        reveal_strlit("backups_history");
        assert("backups_history"@.len() == 15);
        reveal_strlit("subtitle");
        assert("subtitle"@.len() == 8);
        reveal_strlit("summary");
        assert("summary"@.len() == 7);
        reveal_strlit("updates");
        assert("updates"@.len() == 7);
        reveal_strlit("localization");
        assert("localization"@.len() == 12);
        reveal_strlit("hardware");
        assert("hardware"@.len() == 8);
        reveal_strlit("people");
        assert("people"@.len() == 6);
        reveal_strlit("refresh");
        assert("refresh"@.len() == 7);
        reveal_strlit("channel");
        assert("channel"@.len() == 7);
        reveal_strlit("stable");
        assert("stable"@.len() == 6);
        reveal_strlit("unstable");
        assert("unstable"@.len() == 8);
        reveal_strlit("prepare");
        assert("prepare"@.len() == 7);
        reveal_strlit("configured");
        assert("configured"@.len() == 10);
        reveal_strlit("target_channel");
        assert("target_channel"@.len() == 14);
        reveal_strlit("change");
        assert("change"@.len() == 6);
        reveal_strlit("confirm_channel");
        assert("backups_history"@[0] != "confirm_channel"@[0]);
        reveal_strlit("cancel");
        assert("cancel"@.len() == 6);
        reveal_strlit("apply_change");
        assert("apply_change"@.len() == 12);
        reveal_strlit("no_change");
        assert("no_change"@.len() == 9);
        reveal_strlit("plan_failed");
        assert("plan_failed"@.len() == 11);
        reveal_strlit("sections");
        assert("sections"@.len() == 8);
        reveal_strlit("media");
        assert("media"@.len() == 5);
        reveal_strlit("storage");
        assert("storage"@.len() == 7);
        reveal_strlit("firmware_updates");
        assert("firmware_updates"@.len() == 16);
        reveal_strlit("maintenance");
        assert("maintenance"@.len() == 11);
        reveal_strlit("recovery");
        assert("recovery"@.len() == 8);
        reveal_strlit("cleanup");
        assert("cleanup"@.len() == 7);
        reveal_strlit("normal_cleanup");
        assert("normal_cleanup"@.len() == 14);
        reveal_strlit("deep_cleanup");
        assert("deep_cleanup"@.len() == 12);
        reveal_strlit("clean_now");
        assert("clean_now"@.len() == 9);
        reveal_strlit("clean_all");
        assert("clean_all"@.len() == 9);
        reveal_strlit("generations");
        assert("generations"@.len() == 11);
        reveal_strlit("use_once");
        assert("use_once"@.len() == 8);
        reveal_strlit("current_generation");
        assert("current_generation"@.len() == 18);
        reveal_strlit("default_generation");
        assert("default_generation"@.len() == 18);
        reveal_strlit("heavy_transfer");
        assert("heavy_transfer"@.len() == 14);
        reveal_strlit("heavy_transfer_detail");
        assert("heavy_transfer_detail"@.len() == 21);
        reveal_strlit("eject");
        assert("eject"@.len() == 5);
        reveal_strlit("removable");
        assert("removable"@.len() == 9);
        reveal_strlit("internal");
        assert("internal"@.len() == 8);
        reveal_strlit("safe_disconnect");
        assert("backups_history"@[0] != "safe_disconnect"@[0]);
        reveal_strlit("available_updates");
        assert("available_updates"@.len() == 17);
        reveal_strlit("firmware_devices");
        assert("firmware_devices"@.len() == 16);
        reveal_strlit("refresh_firmware");
        assert("refresh_firmware"@.len() == 16);
        reveal_strlit("install");
        assert("install"@.len() == 7);
        reveal_strlit("no_updates");
        assert("no_updates"@.len() == 10);
        reveal_strlit("version");
        assert("version"@.len() == 7);
        reveal_strlit("output");
        assert("output"@.len() == 6);
        reveal_strlit("input");
        assert("input"@.len() == 5);
        reveal_strlit("volume");
        assert("volume"@.len() == 6);
        reveal_strlit("mute");
        assert("mute"@.len() == 4);
        reveal_strlit("cameras");
        assert("cameras"@.len() == 7);
        reveal_strlit("software_sources");
        assert("software_sources"@.len() == 16);
        reveal_strlit("update_sources");
        assert("update_sources"@.len() == 14);
        reveal_strlit("privileges");
        assert("privileges"@.len() == 10);
        reveal_strlit("operation_done");
        assert("operation_done"@.len() == 14);
        reveal_strlit("operation_failed");
        assert("operation_failed"@.len() == 16);
        reveal_strlit("confirm_operation");
        assert("confirm_operation"@.len() == 17);
        reveal_strlit("current");
        assert("current"@.len() == 7);
        reveal_strlit("host");
        assert("host"@.len() == 4);
        reveal_strlit("model");
        assert("model"@.len() == 5);
        reveal_strlit("cpu");
        assert("cpu"@.len() == 3);
        reveal_strlit("memory");
        assert("memory"@.len() == 6);
        reveal_strlit("boot");
        assert("boot"@.len() == 4);
        reveal_strlit("applied");
        assert("applied"@.len() == 7);
        reveal_strlit("change_failed");
        assert("change_failed"@.len() == 13);
        reveal_strlit("language");
        assert("language"@.len() == 8);
        reveal_strlit("region");
        assert("region"@.len() == 6);
        reveal_strlit("timezone");
        assert("timezone"@.len() == 8);
        reveal_strlit("keyboard");
        assert("keyboard"@.len() == 8);
        reveal_strlit("status");
        assert("status"@.len() == 6);
        reveal_strlit("loading");
        assert("loading"@.len() == 7);
        reveal_strlit("ready");
        assert("ready"@.len() == 5);
        reveal_strlit("error");
        assert("error"@.len() == 5);
        reveal_strlit("empty");
        assert("empty"@.len() == 5);
        reveal_strlit("applications");
        assert("applications"@.len() == 12);
        reveal_strlit("appearance_desktops");
        assert("appearance_desktops"@.len() == 19);
    }
    assert(texto_spec(idioma, "maintenance"@) == t_maintenance_spec(idioma)) by {
        reveal_strlit("maintenance");
        assert("maintenance"@.len() == 11);
        reveal_strlit("subtitle");
        assert("subtitle"@.len() == 8);
        reveal_strlit("summary");
        assert("summary"@.len() == 7);
        reveal_strlit("updates");
        assert("updates"@.len() == 7);
        reveal_strlit("localization");
        assert("localization"@.len() == 12);
        reveal_strlit("hardware");
        assert("hardware"@.len() == 8);
        reveal_strlit("people");
        assert("people"@.len() == 6);
        reveal_strlit("refresh");
        assert("refresh"@.len() == 7);
        reveal_strlit("channel");
        assert("channel"@.len() == 7);
        reveal_strlit("stable");
        assert("stable"@.len() == 6);
        reveal_strlit("unstable");
        assert("unstable"@.len() == 8);
        reveal_strlit("prepare");
        assert("prepare"@.len() == 7);
        reveal_strlit("configured");
        assert("configured"@.len() == 10);
        reveal_strlit("target_channel");
        assert("target_channel"@.len() == 14);
        reveal_strlit("change");
        assert("change"@.len() == 6);
        reveal_strlit("confirm_channel");
        assert("confirm_channel"@.len() == 15);
        reveal_strlit("cancel");
        assert("cancel"@.len() == 6);
        reveal_strlit("apply_change");
        assert("apply_change"@.len() == 12);
        reveal_strlit("no_change");
        assert("no_change"@.len() == 9);
        reveal_strlit("plan_failed");
        assert("maintenance"@[0] != "plan_failed"@[0]);
        reveal_strlit("sections");
        assert("sections"@.len() == 8);
        reveal_strlit("media");
        assert("media"@.len() == 5);
        reveal_strlit("storage");
        assert("storage"@.len() == 7);
        reveal_strlit("firmware_updates");
        assert("firmware_updates"@.len() == 16);
    }
    assert(texto_spec(idioma, "summary"@) == t_summary_spec(idioma)) by {
        reveal_strlit("summary");
        assert("summary"@.len() == 7);
        reveal_strlit("subtitle");
        assert("subtitle"@.len() == 8);
    }
}
/// Every page title is translated: whatever the page name, the key of its
/// title has a text of its own in every language, never the fallback
/// "Korunix".
pub proof fn ley_titulos_de_pagina_traducidos(idioma: Idioma, nombre: Seq<char>)
    ensures
        texto_spec(idioma, crate::navegacion::clave_titulo_spec(nombre)) != "Korunix"@,
{
    lema_claves_titulos(idioma);
    lema_t_updates_traducido(idioma);
    lema_t_hardware_traducido(idioma);
    lema_t_media_traducido(idioma);
    lema_t_storage_traducido(idioma);
    lema_t_firmware_updates_traducido(idioma);
    lema_t_applications_traducido(idioma);
    lema_t_appearance_desktops_traducido(idioma);
    lema_t_localization_traducido(idioma);
    lema_t_people_traducido(idioma);
    lema_t_backups_history_traducido(idioma);
    lema_t_maintenance_traducido(idioma);
    lema_t_summary_traducido(idioma);
}

} // verus!
