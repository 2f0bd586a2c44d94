//! The progress stages of engine operations, in every language.

use vstd::prelude::*;
use crate::idioma::Idioma;
use crate::cadena::{iguales, lema_distinto_de_korunix};

verus! {

/// The `reading` text in each language.
pub open spec fn p_reading_spec(idioma: Idioma) -> Seq<char> {
    match idioma {
        Idioma::BelarusLatino => "Čytannje hetaha kamp'jutara..."@,
        Idioma::Belarus => "Чытанне гэтага кампутара..."@,
        Idioma::Catalan => "Llegint aquest ordinador..."@,
        Idioma::Checo => "Čtení tohoto počítače…"@,
        Idioma::Aleman => "Dieser Computer wird gelesen…"@,
        Idioma::Ingles => "Reading this computer…"@,
        Idioma::Espanol => "Leyendo este equipo…"@,
        Idioma::Frances => "Lecture de cet ordinateur…"@,
        Idioma::Gallego => "Lendo este ordenador…"@,
        Idioma::Hungaro => "A számítógép adatainak olvasása…"@,
        Idioma::Italiano => "Lettura di questo computer…"@,
        Idioma::Coreano => "이 컴퓨터를 읽는 중…"@,
        Idioma::Kurdo => "Xwendina vê kompîturê…"@,
        Idioma::Neerlandes => "Deze computer lezen…"@,
        Idioma::NoruegoNynorsk => "Leser denne datamaskinen..."@,
        Idioma::Polaco => "Czytanie tego komputera…"@,
        Idioma::PortuguesBrasil => "Lendo este computador…"@,
        Idioma::Ruso => "Читаю этот компьютер…"@,
        Idioma::Sueco => "Läser den här datorn..."@,
        Idioma::Turco => "Bu bilgisayar okunuyor…"@,
        Idioma::Ucraniano => "Читання цього комп’ютера…"@,
        Idioma::Vietnamita => "Đang đọc máy tính này…"@,
        Idioma::ChinoSimplificado => "正在读取这台计算机..."@,
    }
}

pub fn p_reading(idioma: Idioma) -> (r: &'static str)
    ensures
        r@ == p_reading_spec(idioma),
{
    match idioma {
        Idioma::BelarusLatino => "Čytannje hetaha kamp'jutara...",
        Idioma::Belarus => "Чытанне гэтага кампутара...",
        Idioma::Catalan => "Llegint aquest ordinador...",
        Idioma::Checo => "Čtení tohoto počítače…",
        Idioma::Aleman => "Dieser Computer wird gelesen…",
        Idioma::Ingles => "Reading this computer…",
        Idioma::Espanol => "Leyendo este equipo…",
        Idioma::Frances => "Lecture de cet ordinateur…",
        Idioma::Gallego => "Lendo este ordenador…",
        Idioma::Hungaro => "A számítógép adatainak olvasása…",
        Idioma::Italiano => "Lettura di questo computer…",
        Idioma::Coreano => "이 컴퓨터를 읽는 중…",
        Idioma::Kurdo => "Xwendina vê kompîturê…",
        Idioma::Neerlandes => "Deze computer lezen…",
        Idioma::NoruegoNynorsk => "Leser denne datamaskinen...",
        Idioma::Polaco => "Czytanie tego komputera…",
        Idioma::PortuguesBrasil => "Lendo este computador…",
        Idioma::Ruso => "Читаю этот компьютер…",
        Idioma::Sueco => "Läser den här datorn...",
        Idioma::Turco => "Bu bilgisayar okunuyor…",
        Idioma::Ucraniano => "Читання цього комп’ютера…",
        Idioma::Vietnamita => "Đang đọc máy tính này…",
        Idioma::ChinoSimplificado => "正在读取这台计算机...",
    }
}

/// The `preparing` text in each language.
pub open spec fn p_preparing_spec(idioma: Idioma) -> Seq<char> {
    match idioma {
        Idioma::BelarusLatino => "Padrychtoŭka…"@,
        Idioma::Belarus => "Падрыхтоўка…"@,
        Idioma::Catalan => "S'està preparant…"@,
        Idioma::Checo => "Příprava…"@,
        Idioma::Aleman => "Vorbereiten…"@,
        Idioma::Ingles => "Preparing…"@,
        Idioma::Espanol | Idioma::Gallego | Idioma::PortuguesBrasil => "Preparando…"@,
        Idioma::Frances => "Préparation…"@,
        Idioma::Hungaro => "Előkészítés…"@,
        Idioma::Italiano => "Preparazione..."@,
        Idioma::Coreano => "준비 중…"@,
        Idioma::Kurdo => "Amadekirin…"@,
        Idioma::Neerlandes => "Voorbereiden…"@,
        Idioma::NoruegoNynorsk => "Forbereder..."@,
        Idioma::Polaco => "Przygotowywanie…"@,
        Idioma::Ruso => "Подготовка…"@,
        Idioma::Sueco => "Förbereder..."@,
        Idioma::Turco => "Hazırlanıyor…"@,
        Idioma::Ucraniano => "Підготовка…"@,
        Idioma::Vietnamita => "Đang chuẩn bị…"@,
        Idioma::ChinoSimplificado => "准备..."@,
    }
}

pub fn p_preparing(idioma: Idioma) -> (r: &'static str)
    ensures
        r@ == p_preparing_spec(idioma),
{
    match idioma {
        Idioma::BelarusLatino => "Padrychtoŭka…",
        Idioma::Belarus => "Падрыхтоўка…",
        Idioma::Catalan => "S'està preparant…",
        Idioma::Checo => "Příprava…",
        Idioma::Aleman => "Vorbereiten…",
        Idioma::Ingles => "Preparing…",
        Idioma::Espanol | Idioma::Gallego | Idioma::PortuguesBrasil => "Preparando…",
        Idioma::Frances => "Préparation…",
        Idioma::Hungaro => "Előkészítés…",
        Idioma::Italiano => "Preparazione...",
        Idioma::Coreano => "준비 중…",
        Idioma::Kurdo => "Amadekirin…",
        Idioma::Neerlandes => "Voorbereiden…",
        Idioma::NoruegoNynorsk => "Forbereder...",
        Idioma::Polaco => "Przygotowywanie…",
        Idioma::Ruso => "Подготовка…",
        Idioma::Sueco => "Förbereder...",
        Idioma::Turco => "Hazırlanıyor…",
        Idioma::Ucraniano => "Підготовка…",
        Idioma::Vietnamita => "Đang chuẩn bị…",
        Idioma::ChinoSimplificado => "准备...",
    }
}

/// The `changing_channel` text in each language.
pub open spec fn p_changing_channel_spec(idioma: Idioma) -> Seq<char> {
    match idioma {
        Idioma::BelarusLatino => "Zmjena sistemnaha kanała…"@,
        Idioma::Belarus => "Змена сістэмнага канала…"@,
        Idioma::Catalan => "Canviant el canal del sistema..."@,
        Idioma::Checo => "Změna systémového kanálu…"@,
        Idioma::Aleman => "Ändern des Systemkanals…"@,
        Idioma::Ingles | Idioma::Turco => "Changing the system channel…"@,
        Idioma::Espanol => "Cambiando el canal del sistema…"@,
        Idioma::Frances => "Modification du canal système…"@,
        Idioma::Gallego => "Cambiando a canle do sistema..."@,
        Idioma::Hungaro => "A rendszercsatorna módosítása…"@,
        Idioma::Italiano => "Modifica del canale del sistema…"@,
        Idioma::Coreano => "시스템 채널 변경 중..."@,
        Idioma::Kurdo => "Guhertina kanala pergalê…"@,
        Idioma::Neerlandes => "Systeemkanaal wijzigen…"@,
        Idioma::NoruegoNynorsk => "Endre systemkanalen..."@,
        Idioma::Polaco => "Zmiana kanału systemowego…"@,
        Idioma::PortuguesBrasil => "Alterando o canal do sistema…"@,
        Idioma::Ruso => "Изменение системного канала…"@,
        Idioma::Sueco => "Ändra systemkanalen..."@,
        Idioma::Ucraniano => "Зміна системного каналу…"@,
        Idioma::Vietnamita => "Thay đổi kênh hệ thống…"@,
        Idioma::ChinoSimplificado => "更改系统频道..."@,
    }
}

pub fn p_changing_channel(idioma: Idioma) -> (r: &'static str)
    ensures
        r@ == p_changing_channel_spec(idioma),
{
    match idioma {
        Idioma::BelarusLatino => "Zmjena sistemnaha kanała…",
        Idioma::Belarus => "Змена сістэмнага канала…",
        Idioma::Catalan => "Canviant el canal del sistema...",
        Idioma::Checo => "Změna systémového kanálu…",
        Idioma::Aleman => "Ändern des Systemkanals…",
        Idioma::Ingles | Idioma::Turco => "Changing the system channel…",
        Idioma::Espanol => "Cambiando el canal del sistema…",
        Idioma::Frances => "Modification du canal système…",
        Idioma::Gallego => "Cambiando a canle do sistema...",
        Idioma::Hungaro => "A rendszercsatorna módosítása…",
        Idioma::Italiano => "Modifica del canale del sistema…",
        Idioma::Coreano => "시스템 채널 변경 중...",
        Idioma::Kurdo => "Guhertina kanala pergalê…",
        Idioma::Neerlandes => "Systeemkanaal wijzigen…",
        Idioma::NoruegoNynorsk => "Endre systemkanalen...",
        Idioma::Polaco => "Zmiana kanału systemowego…",
        Idioma::PortuguesBrasil => "Alterando o canal do sistema…",
        Idioma::Ruso => "Изменение системного канала…",
        Idioma::Sueco => "Ändra systemkanalen...",
        Idioma::Ucraniano => "Зміна системного каналу…",
        Idioma::Vietnamita => "Thay đổi kênh hệ thống…",
        Idioma::ChinoSimplificado => "更改系统频道...",
    }
}

/// The `updating_catalog` text in each language.
pub open spec fn p_updating_catalog_spec(idioma: Idioma) -> Seq<char> {
    match idioma {
        Idioma::BelarusLatino => "Abnaŭłjennje katałoha prahramnaha zabjespjačennja…"@,
        Idioma::Belarus => "Абнаўленне каталога праграмнага забеспячэння…"@,
        Idioma::Catalan => "S'està actualitzant el catàleg de programari..."@,
        Idioma::Checo => "Aktualizace katalogu softwaru…\nVerze __KX00129__"@,
        Idioma::Aleman => "Aktualisierung des Softwarekatalogs…"@,
        Idioma::Ingles => "Updating the software catalog…"@,
        Idioma::Espanol => "Actualizando el catálogo de software…"@,
        Idioma::Frances => "Mise à jour du catalogue de logiciels…\nVersion __KX00129__"@,
        Idioma::Gallego => "Actualizando o catálogo de software..."@,
        Idioma::Hungaro => "A szoftverkatalógus frissítése…"@,
        Idioma::Italiano => "Aggiornamento del catalogo software…"@,
        Idioma::Coreano => "소프트웨어 카탈로그 업데이트 중…"@,
        Idioma::Kurdo => "Nûvekirina kataloga nermalavê…"@,
        Idioma::Neerlandes => "De softwarecatalogus bijwerken…"@,
        Idioma::NoruegoNynorsk => "Oppdaterer programvarekatalogen..."@,
        Idioma::Polaco => "Aktualizowanie katalogu oprogramowania…"@,
        Idioma::PortuguesBrasil => "Atualizando o catálogo de software…"@,
        Idioma::Ruso => "Обновление каталога программного обеспечения…"@,
        Idioma::Sueco => "Uppdaterar programvarukatalogen..."@,
        Idioma::Turco => "Yazılım kataloğu güncelleniyor…"@,
        Idioma::Ucraniano => "Оновлення каталогу програмного забезпечення…"@,
        Idioma::Vietnamita => "Cập nhật danh mục phần mềm…"@,
        Idioma::ChinoSimplificado => "正在更新软件目录..."@,
    }
}

pub fn p_updating_catalog(idioma: Idioma) -> (r: &'static str)
    ensures
        r@ == p_updating_catalog_spec(idioma),
{
    match idioma {
        Idioma::BelarusLatino => "Abnaŭłjennje katałoha prahramnaha zabjespjačennja…",
        Idioma::Belarus => "Абнаўленне каталога праграмнага забеспячэння…",
        Idioma::Catalan => "S'està actualitzant el catàleg de programari...",
        Idioma::Checo => "Aktualizace katalogu softwaru…\nVerze __KX00129__",
        Idioma::Aleman => "Aktualisierung des Softwarekatalogs…",
        Idioma::Ingles => "Updating the software catalog…",
        Idioma::Espanol => "Actualizando el catálogo de software…",
        Idioma::Frances => "Mise à jour du catalogue de logiciels…\nVersion __KX00129__",
        Idioma::Gallego => "Actualizando o catálogo de software...",
        Idioma::Hungaro => "A szoftverkatalógus frissítése…",
        Idioma::Italiano => "Aggiornamento del catalogo software…",
        Idioma::Coreano => "소프트웨어 카탈로그 업데이트 중…",
        Idioma::Kurdo => "Nûvekirina kataloga nermalavê…",
        Idioma::Neerlandes => "De softwarecatalogus bijwerken…",
        Idioma::NoruegoNynorsk => "Oppdaterer programvarekatalogen...",
        Idioma::Polaco => "Aktualizowanie katalogu oprogramowania…",
        Idioma::PortuguesBrasil => "Atualizando o catálogo de software…",
        Idioma::Ruso => "Обновление каталога программного обеспечения…",
        Idioma::Sueco => "Uppdaterar programvarukatalogen...",
        Idioma::Turco => "Yazılım kataloğu güncelleniyor…",
        Idioma::Ucraniano => "Оновлення каталогу програмного забезпечення…",
        Idioma::Vietnamita => "Cập nhật danh mục phần mềm…",
        Idioma::ChinoSimplificado => "正在更新软件目录...",
    }
}

/// The `validating` text in each language.
pub open spec fn p_validating_spec(idioma: Idioma) -> Seq<char> {
    match idioma {
        Idioma::BelarusLatino => "Pravjerka abnoŭłjenaj kanfihuracyi…"@,
        Idioma::Belarus => "Праверка абноўленай канфігурацыі…"@,
        Idioma::Catalan => "S'està comprovant la configuració actualitzada..."@,
        Idioma::Checo => "Kontrola aktualizované konfigurace…"@,
        Idioma::Aleman => "Überprüfen der aktualisierten Konfiguration…"@,
        Idioma::Ingles | Idioma::Turco => "Checking the updated configuration…"@,
        Idioma::Espanol => "Comprobando la configuración actualizada…"@,
        Idioma::Frances => "Vérification de la configuration mise à jour…"@,
        Idioma::Gallego => "Comprobando a configuración actualizada..."@,
        Idioma::Hungaro => "A frissített beállítás ellenőrzése…"@,
        Idioma::Italiano => "Controllo della configurazione aggiornata…"@,
        Idioma::Coreano => "업데이트된 구성을 확인하는 중…"@,
        Idioma::Kurdo => "Veavakirina nûvekirî kontrol dike…"@,
        Idioma::Neerlandes => "De bijgewerkte configuratie controleren…"@,
        Idioma::NoruegoNynorsk => "Kontrollerer den oppdaterte konfigurasjonen..."@,
        Idioma::Polaco => "Sprawdzam zaktualizowaną konfigurację…"@,
        Idioma::PortuguesBrasil => "Verificando a configuração atualizada…"@,
        Idioma::Ruso => "Проверка обновленной конфигурации…"@,
        Idioma::Sueco => "Kontrollerar den uppdaterade konfigurationen..."@,
        Idioma::Ucraniano => "Перевірка оновленої конфігурації…"@,
        Idioma::Vietnamita => "Đang kiểm tra cấu hình cập nhật…"@,
        Idioma::ChinoSimplificado => "检查更新的配置..."@,
    }
}

pub fn p_validating(idioma: Idioma) -> (r: &'static str)
    ensures
        r@ == p_validating_spec(idioma),
{
    match idioma {
        Idioma::BelarusLatino => "Pravjerka abnoŭłjenaj kanfihuracyi…",
        Idioma::Belarus => "Праверка абноўленай канфігурацыі…",
        Idioma::Catalan => "S'està comprovant la configuració actualitzada...",
        Idioma::Checo => "Kontrola aktualizované konfigurace…",
        Idioma::Aleman => "Überprüfen der aktualisierten Konfiguration…",
        Idioma::Ingles | Idioma::Turco => "Checking the updated configuration…",
        Idioma::Espanol => "Comprobando la configuración actualizada…",
        Idioma::Frances => "Vérification de la configuration mise à jour…",
        Idioma::Gallego => "Comprobando a configuración actualizada...",
        Idioma::Hungaro => "A frissített beállítás ellenőrzése…",
        Idioma::Italiano => "Controllo della configurazione aggiornata…",
        Idioma::Coreano => "업데이트된 구성을 확인하는 중…",
        Idioma::Kurdo => "Veavakirina nûvekirî kontrol dike…",
        Idioma::Neerlandes => "De bijgewerkte configuratie controleren…",
        Idioma::NoruegoNynorsk => "Kontrollerer den oppdaterte konfigurasjonen...",
        Idioma::Polaco => "Sprawdzam zaktualizowaną konfigurację…",
        Idioma::PortuguesBrasil => "Verificando a configuração atualizada…",
        Idioma::Ruso => "Проверка обновленной конфигурации…",
        Idioma::Sueco => "Kontrollerar den uppdaterade konfigurationen...",
        Idioma::Ucraniano => "Перевірка оновленої конфігурації…",
        Idioma::Vietnamita => "Đang kiểm tra cấu hình cập nhật…",
        Idioma::ChinoSimplificado => "检查更新的配置...",
    }
}

/// The `cleaning_versions` text in each language.
pub open spec fn p_cleaning_versions_spec(idioma: Idioma) -> Seq<char> {
    match idioma {
        Idioma::BelarusLatino => "Vydałjennje starych vjersij sistemy…"@,
        Idioma::Belarus => "Выдаленне старых версій сістэмы…"@,
        Idioma::Catalan => "S'estan eliminant les versions antigues del sistema..."@,
        Idioma::Checo => "Odebírání starých verzí systému…"@,
        Idioma::Aleman => "Alte Systemversionen werden entfernt…"@,
        Idioma::Ingles => "Removing old system versions…"@,
        Idioma::Espanol => "Eliminando versiones antiguas del sistema…"@,
        Idioma::Frances => "Suppression des anciennes versions du système…"@,
        Idioma::Gallego => "Eliminando versións antigas do sistema..."@,
        Idioma::Hungaro => "Régi rendszerverziók eltávolítása…"@,
        Idioma::Italiano => "Rimozione delle vecchie versioni del sistema…"@,
        Idioma::Coreano => "이전 시스템 버전을 제거하는 중…"@,
        Idioma::Kurdo => "Rakirina guhertoyên pergalê yên kevn…"@,
        Idioma::Neerlandes => "Oude systeemversies verwijderen…"@,
        Idioma::NoruegoNynorsk => "Fjerner gamle systemversjoner..."@,
        Idioma::Polaco => "Usuwanie starych wersji systemu…"@,
        Idioma::PortuguesBrasil => "Removendo versões antigas do sistema…"@,
        Idioma::Ruso => "Удаление старых версий системы…"@,
        Idioma::Sueco => "Tar bort gamla systemversioner..."@,
        Idioma::Turco => "Eski sistem sürümleri kaldırılıyor…"@,
        Idioma::Ucraniano => "Видалення старих версій системи…"@,
        Idioma::Vietnamita => "Xóa phiên bản hệ thống cũ…"@,
        Idioma::ChinoSimplificado => "正在删除旧系统版本..."@,
    }
}

pub fn p_cleaning_versions(idioma: Idioma) -> (r: &'static str)
    ensures
        r@ == p_cleaning_versions_spec(idioma),
{
    match idioma {
        Idioma::BelarusLatino => "Vydałjennje starych vjersij sistemy…",
        Idioma::Belarus => "Выдаленне старых версій сістэмы…",
        Idioma::Catalan => "S'estan eliminant les versions antigues del sistema...",
        Idioma::Checo => "Odebírání starých verzí systému…",
        Idioma::Aleman => "Alte Systemversionen werden entfernt…",
        Idioma::Ingles => "Removing old system versions…",
        Idioma::Espanol => "Eliminando versiones antiguas del sistema…",
        Idioma::Frances => "Suppression des anciennes versions du système…",
        Idioma::Gallego => "Eliminando versións antigas do sistema...",
        Idioma::Hungaro => "Régi rendszerverziók eltávolítása…",
        Idioma::Italiano => "Rimozione delle vecchie versioni del sistema…",
        Idioma::Coreano => "이전 시스템 버전을 제거하는 중…",
        Idioma::Kurdo => "Rakirina guhertoyên pergalê yên kevn…",
        Idioma::Neerlandes => "Oude systeemversies verwijderen…",
        Idioma::NoruegoNynorsk => "Fjerner gamle systemversjoner...",
        Idioma::Polaco => "Usuwanie starych wersji systemu…",
        Idioma::PortuguesBrasil => "Removendo versões antigas do sistema…",
        Idioma::Ruso => "Удаление старых версий системы…",
        Idioma::Sueco => "Tar bort gamla systemversioner...",
        Idioma::Turco => "Eski sistem sürümleri kaldırılıyor…",
        Idioma::Ucraniano => "Видалення старих версій системи…",
        Idioma::Vietnamita => "Xóa phiên bản hệ thống cũ…",
        Idioma::ChinoSimplificado => "正在删除旧系统版本...",
    }
}

/// The `garbage_collect` text in each language.
pub open spec fn p_garbage_collect_spec(idioma: Idioma) -> Seq<char> {
    match idioma {
        Idioma::BelarusLatino => "Vyzvałjennje njavykarystanaj prastory…"@,
        Idioma::Belarus => "Вызваленне нявыкарыстанай прасторы…"@,
        Idioma::Catalan => "S'està alliberant espai no utilitzat..."@,
        Idioma::Checo => "Uvolňuje se nevyužité místo…"@,
        Idioma::Aleman => "Ungenutzten Speicherplatz wird freigegeben…"@,
        Idioma::Ingles => "Freeing unused space…"@,
        Idioma::Espanol => "Liberando espacio que ya no se usa…"@,
        Idioma::Frances => "Libérer de l'espace inutilisé…"@,
        Idioma::Gallego => "Liberando espazo non utilizado..."@,
        Idioma::Hungaro => "A nem használt hely felszabadítása…"@,
        Idioma::Italiano => "Liberazione dello spazio inutilizzato…"@,
        Idioma::Coreano => "사용하지 않는 공간을 확보하는 중…"@,
        Idioma::Kurdo => "Cihê nebikaranîn azad dike…"@,
        Idioma::Neerlandes => "Ongebruikte ruimte vrijmaken..."@,
        Idioma::NoruegoNynorsk => "Frigjør ubrukt plass..."@,
        Idioma::Polaco => "Zwalniam nieużywane miejsce…"@,
        Idioma::PortuguesBrasil => "Liberando espaço não utilizado…"@,
        Idioma::Ruso => "Освобождение неиспользуемого пространства…"@,
        Idioma::Sueco => "Frigör oanvänt utrymme..."@,
        Idioma::Turco => "Kullanılmayan alan boşaltılıyor…"@,
        Idioma::Ucraniano => "Звільнення невикористаного простору…"@,
        Idioma::Vietnamita => "Giải phóng không gian chưa sử dụng…"@,
        Idioma::ChinoSimplificado => "释放未使用的空间..."@,
    }
}

pub fn p_garbage_collect(idioma: Idioma) -> (r: &'static str)
    ensures
        r@ == p_garbage_collect_spec(idioma),
{
    match idioma {
        Idioma::BelarusLatino => "Vyzvałjennje njavykarystanaj prastory…",
        Idioma::Belarus => "Вызваленне нявыкарыстанай прасторы…",
        Idioma::Catalan => "S'està alliberant espai no utilitzat...",
        Idioma::Checo => "Uvolňuje se nevyužité místo…",
        Idioma::Aleman => "Ungenutzten Speicherplatz wird freigegeben…",
        Idioma::Ingles => "Freeing unused space…",
        Idioma::Espanol => "Liberando espacio que ya no se usa…",
        Idioma::Frances => "Libérer de l'espace inutilisé…",
        Idioma::Gallego => "Liberando espazo non utilizado...",
        Idioma::Hungaro => "A nem használt hely felszabadítása…",
        Idioma::Italiano => "Liberazione dello spazio inutilizzato…",
        Idioma::Coreano => "사용하지 않는 공간을 확보하는 중…",
        Idioma::Kurdo => "Cihê nebikaranîn azad dike…",
        Idioma::Neerlandes => "Ongebruikte ruimte vrijmaken...",
        Idioma::NoruegoNynorsk => "Frigjør ubrukt plass...",
        Idioma::Polaco => "Zwalniam nieużywane miejsce…",
        Idioma::PortuguesBrasil => "Liberando espaço não utilizado…",
        Idioma::Ruso => "Освобождение неиспользуемого пространства…",
        Idioma::Sueco => "Frigör oanvänt utrymme...",
        Idioma::Turco => "Kullanılmayan alan boşaltılıyor…",
        Idioma::Ucraniano => "Звільнення невикористаного простору…",
        Idioma::Vietnamita => "Giải phóng không gian chưa sử dụng…",
        Idioma::ChinoSimplificado => "释放未使用的空间...",
    }
}

/// The `optimising_store` text in each language.
pub open spec fn p_optimising_store_spec(idioma: Idioma) -> Seq<char> {
    match idioma {
        Idioma::BelarusLatino => "Aptymizacyja sistemnaha schovišča…"@,
        Idioma::Belarus => "Аптымізацыя сістэмнага сховішча…"@,
        Idioma::Catalan => "S'està optimitzant l'emmagatzematge del sistema..."@,
        Idioma::Checo => "Optimalizace systémového úložiště…"@,
        Idioma::Aleman => "Systemspeicher optimieren…"@,
        Idioma::Ingles => "Optimising system storage…"@,
        Idioma::Espanol => "Optimizando el almacenamiento del sistema…"@,
        Idioma::Frances => "Optimisation du stockage système…"@,
        Idioma::Gallego => "Optimizando o almacenamento do sistema..."@,
        Idioma::Hungaro => "A rendszertároló optimalizálása…"@,
        Idioma::Italiano => "Ottimizzazione dello spazio di archiviazione del sistema…"@,
        Idioma::Coreano => "시스템 스토리지 최적화 중..."@,
        Idioma::Kurdo => "Optimîzekirina hilanîna pergalê…"@,
        Idioma::Neerlandes => "Systeemopslag optimaliseren…"@,
        Idioma::NoruegoNynorsk => "Optimaliserer systemlagring..."@,
        Idioma::Polaco => "Optymalizacja pamięci systemowej…"@,
        Idioma::PortuguesBrasil => "Otimizando o armazenamento do sistema…"@,
        Idioma::Ruso => "Оптимизация системного хранилища…"@,
        Idioma::Sueco => "Optimerar systemlagring..."@,
        Idioma::Turco => "Sistem depolama alanı optimize ediliyor…"@,
        Idioma::Ucraniano => "Оптимізація системного зберігання…"@,
        Idioma::Vietnamita => "Tối ưu hóa hệ thống lưu trữ…"@,
        Idioma::ChinoSimplificado => "优化系统存储..."@,
    }
}

pub fn p_optimising_store(idioma: Idioma) -> (r: &'static str)
    ensures
        r@ == p_optimising_store_spec(idioma),
{
    match idioma {
        Idioma::BelarusLatino => "Aptymizacyja sistemnaha schovišča…",
        Idioma::Belarus => "Аптымізацыя сістэмнага сховішча…",
        Idioma::Catalan => "S'està optimitzant l'emmagatzematge del sistema...",
        Idioma::Checo => "Optimalizace systémového úložiště…",
        Idioma::Aleman => "Systemspeicher optimieren…",
        Idioma::Ingles => "Optimising system storage…",
        Idioma::Espanol => "Optimizando el almacenamiento del sistema…",
        Idioma::Frances => "Optimisation du stockage système…",
        Idioma::Gallego => "Optimizando o almacenamento do sistema...",
        Idioma::Hungaro => "A rendszertároló optimalizálása…",
        Idioma::Italiano => "Ottimizzazione dello spazio di archiviazione del sistema…",
        Idioma::Coreano => "시스템 스토리지 최적화 중...",
        Idioma::Kurdo => "Optimîzekirina hilanîna pergalê…",
        Idioma::Neerlandes => "Systeemopslag optimaliseren…",
        Idioma::NoruegoNynorsk => "Optimaliserer systemlagring...",
        Idioma::Polaco => "Optymalizacja pamięci systemowej…",
        Idioma::PortuguesBrasil => "Otimizando o armazenamento do sistema…",
        Idioma::Ruso => "Оптимизация системного хранилища…",
        Idioma::Sueco => "Optimerar systemlagring...",
        Idioma::Turco => "Sistem depolama alanı optimize ediliyor…",
        Idioma::Ucraniano => "Оптимізація системного зберігання…",
        Idioma::Vietnamita => "Tối ưu hóa hệ thống lưu trữ…",
        Idioma::ChinoSimplificado => "优化系统存储...",
    }
}

/// The `saving_data` text in each language.
pub open spec fn p_saving_data_spec(idioma: Idioma) -> Seq<char> {
    match idioma {
        Idioma::BelarusLatino => "Zavjaršennje njezavjeršanych zapisaŭ…"@,
        Idioma::Belarus => "Завяршэнне незавершаных запісаў…"@,
        Idioma::Catalan => "S'estan acabant les escriptures pendents..."@,
        Idioma::Checo => "Dokončování čekajících zápisů…"@,
        Idioma::Aleman => "Schreibvorgänge werden abgeschlossen …"@,
        Idioma::Ingles => "Finishing pending writes…"@,
        Idioma::Espanol => "Terminando de guardar los datos pendientes…"@,
        Idioma::Frances => "Fin des écritures en attente…"@,
        Idioma::Gallego => "Rematando as escrituras pendentes..."@,
        Idioma::Hungaro => "A függőben lévő írások befejezése…"@,
        Idioma::Italiano => "Completamento delle scritture in sospeso…"@,
        Idioma::Coreano => "보류 중인 쓰기를 완료하는 중…"@,
        Idioma::Kurdo => "Li benda nivîsandinê qediya…"@,
        Idioma::Neerlandes => "Bezig met schrijven in behandeling…"@,
        Idioma::NoruegoNynorsk => "Fullfører ventende skrivinger..."@,
        Idioma::Polaco => "Zakończenie oczekujących zapisów…"@,
        Idioma::PortuguesBrasil => "Concluindo gravações pendentes…"@,
        Idioma::Ruso => "Ожидается завершение записи…"@,
        Idioma::Sueco => "Avslutar väntande skrivningar..."@,
        Idioma::Turco => "Bekleyen yazma işlemleri tamamlanıyor…"@,
        Idioma::Ucraniano => "Завершення незавершених записів…"@,
        Idioma::Vietnamita => "Đang hoàn tất quá trình ghi đang chờ xử lý…"@,
        Idioma::ChinoSimplificado => "正在完成挂起的写入..."@,
    }
}

pub fn p_saving_data(idioma: Idioma) -> (r: &'static str)
    ensures
        r@ == p_saving_data_spec(idioma),
{
    match idioma {
        Idioma::BelarusLatino => "Zavjaršennje njezavjeršanych zapisaŭ…",
        Idioma::Belarus => "Завяршэнне незавершаных запісаў…",
        Idioma::Catalan => "S'estan acabant les escriptures pendents...",
        Idioma::Checo => "Dokončování čekajících zápisů…",
        Idioma::Aleman => "Schreibvorgänge werden abgeschlossen …",
        Idioma::Ingles => "Finishing pending writes…",
        Idioma::Espanol => "Terminando de guardar los datos pendientes…",
        Idioma::Frances => "Fin des écritures en attente…",
        Idioma::Gallego => "Rematando as escrituras pendentes...",
        Idioma::Hungaro => "A függőben lévő írások befejezése…",
        Idioma::Italiano => "Completamento delle scritture in sospeso…",
        Idioma::Coreano => "보류 중인 쓰기를 완료하는 중…",
        Idioma::Kurdo => "Li benda nivîsandinê qediya…",
        Idioma::Neerlandes => "Bezig met schrijven in behandeling…",
        Idioma::NoruegoNynorsk => "Fullfører ventende skrivinger...",
        Idioma::Polaco => "Zakończenie oczekujących zapisów…",
        Idioma::PortuguesBrasil => "Concluindo gravações pendentes…",
        Idioma::Ruso => "Ожидается завершение записи…",
        Idioma::Sueco => "Avslutar väntande skrivningar...",
        Idioma::Turco => "Bekleyen yazma işlemleri tamamlanıyor…",
        Idioma::Ucraniano => "Завершення незавершених записів…",
        Idioma::Vietnamita => "Đang hoàn tất quá trình ghi đang chờ xử lý…",
        Idioma::ChinoSimplificado => "正在完成挂起的写入...",
    }
}

/// The `unmounting` text in each language.
pub open spec fn p_unmounting_spec(idioma: Idioma) -> Seq<char> {
    match idioma {
        Idioma::BelarusLatino => "Adkłjučennje fajłavych sistem…"@,
        Idioma::Belarus => "Адключэнне файлавых сістэм…"@,
        Idioma::Catalan => "S'estan desconnectant els sistemes de fitxers..."@,
        Idioma::Checo => "Odpojování souborových systémů…"@,
        Idioma::Aleman => "Dateisysteme werden getrennt…"@,
        Idioma::Ingles => "Disconnecting filesystems…"@,
        Idioma::Espanol => "Desconectando los sistemas de archivos…"@,
        Idioma::Frances => "Déconnexion des systèmes de fichiers…"@,
        Idioma::Gallego => "Desconectando sistemas de ficheiros..."@,
        Idioma::Hungaro => "Fájlrendszerek leválasztása…"@,
        Idioma::Italiano => "Disconnessione dei file system…"@,
        Idioma::Coreano => "파일 시스템 연결을 끊는 중…"@,
        Idioma::Kurdo => "Pergalên pelan qut dike…"@,
        Idioma::Neerlandes => "Bestandssystemen loskoppelen…"@,
        Idioma::NoruegoNynorsk => "Kobler fra filsystemer..."@,
        Idioma::Polaco => "Odłączanie systemów plików…"@,
        Idioma::PortuguesBrasil => "Desconectando sistemas de arquivos…"@,
        Idioma::Ruso => "Отключение файловых систем…"@,
        Idioma::Sueco => "Kopplar bort filsystem..."@,
        Idioma::Turco => "Dosya sistemlerinin bağlantısı kesiliyor…"@,
        Idioma::Ucraniano => "Відключення файлових систем…"@,
        Idioma::Vietnamita => "Đang ngắt kết nối hệ thống tập tin…"@,
        Idioma::ChinoSimplificado => "断开文件系统连接..."@,
    }
}

pub fn p_unmounting(idioma: Idioma) -> (r: &'static str)
    ensures
        r@ == p_unmounting_spec(idioma),
{
    match idioma {
        Idioma::BelarusLatino => "Adkłjučennje fajłavych sistem…",
        Idioma::Belarus => "Адключэнне файлавых сістэм…",
        Idioma::Catalan => "S'estan desconnectant els sistemes de fitxers...",
        Idioma::Checo => "Odpojování souborových systémů…",
        Idioma::Aleman => "Dateisysteme werden getrennt…",
        Idioma::Ingles => "Disconnecting filesystems…",
        Idioma::Espanol => "Desconectando los sistemas de archivos…",
        Idioma::Frances => "Déconnexion des systèmes de fichiers…",
        Idioma::Gallego => "Desconectando sistemas de ficheiros...",
        Idioma::Hungaro => "Fájlrendszerek leválasztása…",
        Idioma::Italiano => "Disconnessione dei file system…",
        Idioma::Coreano => "파일 시스템 연결을 끊는 중…",
        Idioma::Kurdo => "Pergalên pelan qut dike…",
        Idioma::Neerlandes => "Bestandssystemen loskoppelen…",
        Idioma::NoruegoNynorsk => "Kobler fra filsystemer...",
        Idioma::Polaco => "Odłączanie systemów plików…",
        Idioma::PortuguesBrasil => "Desconectando sistemas de arquivos…",
        Idioma::Ruso => "Отключение файловых систем…",
        Idioma::Sueco => "Kopplar bort filsystem...",
        Idioma::Turco => "Dosya sistemlerinin bağlantısı kesiliyor…",
        Idioma::Ucraniano => "Відключення файлових систем…",
        Idioma::Vietnamita => "Đang ngắt kết nối hệ thống tập tin…",
        Idioma::ChinoSimplificado => "断开文件系统连接...",
    }
}

/// The `powering_off` text in each language.
pub open spec fn p_powering_off_spec(idioma: Idioma) -> Seq<char> {
    match idioma {
        Idioma::BelarusLatino => "Vykłjučennje dyska..."@,
        Idioma::Belarus => "Выключэнне дыска..."@,
        Idioma::Catalan => "S'està apagant la unitat..."@,
        Idioma::Checo => "Vypínání disku…"@,
        Idioma::Aleman => "Das Laufwerk wird ausgeschaltet…"@,
        Idioma::Ingles => "Turning off the drive…"@,
        Idioma::Espanol => "Apagando la unidad…"@,
        Idioma::Frances => "Mise hors tension du lecteur…"@,
        Idioma::Gallego => "Apagando a unidade..."@,
        Idioma::Hungaro => "A meghajtó kikapcsolása…"@,
        Idioma::Italiano => "Spegnimento dell'unità…"@,
        Idioma::Coreano => "드라이브를 끄는 중…"@,
        Idioma::Kurdo => "Vemirandina ajokerê…"@,
        Idioma::Neerlandes => "De schijf uitschakelen…"@,
        Idioma::NoruegoNynorsk => "Slår av stasjonen ..."@,
        Idioma::Polaco => "Wyłączanie napędu…"@,
        Idioma::PortuguesBrasil => "Desligando a unidade…"@,
        Idioma::Ruso => "Выключение накопителя…"@,
        Idioma::Sueco => "Stänger av enheten..."@,
        Idioma::Turco => "Sürücü kapatılıyor…"@,
        Idioma::Ucraniano => "Вимкнення накопичувача…"@,
        Idioma::Vietnamita => "Đang tắt ổ đĩa…"@,
        Idioma::ChinoSimplificado => "关闭驱动器..."@,
    }
}

pub fn p_powering_off(idioma: Idioma) -> (r: &'static str)
    ensures
        r@ == p_powering_off_spec(idioma),
{
    match idioma {
        Idioma::BelarusLatino => "Vykłjučennje dyska...",
        Idioma::Belarus => "Выключэнне дыска...",
        Idioma::Catalan => "S'està apagant la unitat...",
        Idioma::Checo => "Vypínání disku…",
        Idioma::Aleman => "Das Laufwerk wird ausgeschaltet…",
        Idioma::Ingles => "Turning off the drive…",
        Idioma::Espanol => "Apagando la unidad…",
        Idioma::Frances => "Mise hors tension du lecteur…",
        Idioma::Gallego => "Apagando a unidade...",
        Idioma::Hungaro => "A meghajtó kikapcsolása…",
        Idioma::Italiano => "Spegnimento dell'unità…",
        Idioma::Coreano => "드라이브를 끄는 중…",
        Idioma::Kurdo => "Vemirandina ajokerê…",
        Idioma::Neerlandes => "De schijf uitschakelen…",
        Idioma::NoruegoNynorsk => "Slår av stasjonen ...",
        Idioma::Polaco => "Wyłączanie napędu…",
        Idioma::PortuguesBrasil => "Desligando a unidade…",
        Idioma::Ruso => "Выключение накопителя…",
        Idioma::Sueco => "Stänger av enheten...",
        Idioma::Turco => "Sürücü kapatılıyor…",
        Idioma::Ucraniano => "Вимкнення накопичувача…",
        Idioma::Vietnamita => "Đang tắt ổ đĩa…",
        Idioma::ChinoSimplificado => "关闭驱动器...",
    }
}

/// The `refreshing_firmware` text in each language.
pub open spec fn p_refreshing_firmware_spec(idioma: Idioma) -> Seq<char> {
    match idioma {
        Idioma::BelarusLatino => "Pravjerka abnaŭłjennjaŭ prašyŭki..."@,
        Idioma::Belarus => "Праверка абнаўленняў прашыўкі…"@,
        Idioma::Catalan => "S'estan comprovant les actualitzacions del microprogramari..."@,
        Idioma::Checo => "Kontrola aktualizací firmwaru…"@,
        Idioma::Aleman => "Firmware-Updates werden überprüft…"@,
        Idioma::Ingles => "Checking firmware updates…"@,
        Idioma::Espanol => "Comprobando actualizaciones de firmware…"@,
        Idioma::Frances => "Vérification des mises à jour du micrologiciel…"@,
        Idioma::Gallego => "Comprobando actualizacións de firmware..."@,
        Idioma::Hungaro => "Firmware-frissítések ellenőrzése…"@,
        Idioma::Italiano => "Controllo degli aggiornamenti firmware…"@,
        Idioma::Coreano => "펌웨어 업데이트 확인 중…"@,
        Idioma::Kurdo => "Nûvekirinên firmware kontrol dike…"@,
        Idioma::Neerlandes => "Firmware-updates controleren…"@,
        Idioma::NoruegoNynorsk => "Sjekker fastvareoppdateringer..."@,
        Idioma::Polaco => "Sprawdzanie aktualizacji oprogramowania sprzętowego…"@,
        Idioma::PortuguesBrasil => "Verificando atualizações de firmware…"@,
        Idioma::Ruso => "Проверка обновлений прошивки…"@,
        Idioma::Sueco => "Kontrollerar firmwareuppdateringar..."@,
        Idioma::Turco => "Ürün yazılımı güncellemeleri kontrol ediliyor…"@,
        Idioma::Ucraniano => "Перевірка оновлень мікропрограми…"@,
        Idioma::Vietnamita => "Đang kiểm tra bản cập nhật chương trình cơ sở…"@,
        Idioma::ChinoSimplificado => "检查固件更新..."@,
    }
}

pub fn p_refreshing_firmware(idioma: Idioma) -> (r: &'static str)
    ensures
        r@ == p_refreshing_firmware_spec(idioma),
{
    match idioma {
        Idioma::BelarusLatino => "Pravjerka abnaŭłjennjaŭ prašyŭki...",
        Idioma::Belarus => "Праверка абнаўленняў прашыўкі…",
        Idioma::Catalan => "S'estan comprovant les actualitzacions del microprogramari...",
        Idioma::Checo => "Kontrola aktualizací firmwaru…",
        Idioma::Aleman => "Firmware-Updates werden überprüft…",
        Idioma::Ingles => "Checking firmware updates…",
        Idioma::Espanol => "Comprobando actualizaciones de firmware…",
        Idioma::Frances => "Vérification des mises à jour du micrologiciel…",
        Idioma::Gallego => "Comprobando actualizacións de firmware...",
        Idioma::Hungaro => "Firmware-frissítések ellenőrzése…",
        Idioma::Italiano => "Controllo degli aggiornamenti firmware…",
        Idioma::Coreano => "펌웨어 업데이트 확인 중…",
        Idioma::Kurdo => "Nûvekirinên firmware kontrol dike…",
        Idioma::Neerlandes => "Firmware-updates controleren…",
        Idioma::NoruegoNynorsk => "Sjekker fastvareoppdateringer...",
        Idioma::Polaco => "Sprawdzanie aktualizacji oprogramowania sprzętowego…",
        Idioma::PortuguesBrasil => "Verificando atualizações de firmware…",
        Idioma::Ruso => "Проверка обновлений прошивки…",
        Idioma::Sueco => "Kontrollerar firmwareuppdateringar...",
        Idioma::Turco => "Ürün yazılımı güncellemeleri kontrol ediliyor…",
        Idioma::Ucraniano => "Перевірка оновлень мікропрограми…",
        Idioma::Vietnamita => "Đang kiểm tra bản cập nhật chương trình cơ sở…",
        Idioma::ChinoSimplificado => "检查固件更新...",
    }
}

/// The `installing_firmware` text in each language.
pub open spec fn p_installing_firmware_spec(idioma: Idioma) -> Seq<char> {
    match idioma {
        Idioma::BelarusLatino => "Ustałjavannje prašyŭki..."@,
        Idioma::Belarus => "Усталяванне прашыўкі…"@,
        Idioma::Catalan => "S'està instal·lant el microprogramari..."@,
        Idioma::Checo => "Instalace firmwaru…"@,
        Idioma::Aleman => "Firmware wird installiert…"@,
        Idioma::Ingles => "Installing firmware…"@,
        Idioma::Espanol | Idioma::PortuguesBrasil => "Instalando firmware…"@,
        Idioma::Frances => "Installation du micrologiciel…"@,
        Idioma::Gallego => "Instalando firmware..."@,
        Idioma::Hungaro => "Firmware telepítése…"@,
        Idioma::Italiano => "Installazione del firmware…"@,
        Idioma::Coreano => "펌웨어 설치 중…"@,
        Idioma::Kurdo => "Sazkirina firmware…"@,
        Idioma::Neerlandes => "Firmware installeren…"@,
        Idioma::NoruegoNynorsk => "Installerer fastvare..."@,
        Idioma::Polaco => "Instalowanie oprogramowania sprzętowego…"@,
        Idioma::Ruso => "Установка прошивки…"@,
        Idioma::Sueco => "Installerar firmware..."@,
        Idioma::Turco => "Aygıt yazılımı yükleniyor…"@,
        Idioma::Ucraniano => "Встановлення прошивки…"@,
        Idioma::Vietnamita => "Đang cài đặt chương trình cơ sở…"@,
        Idioma::ChinoSimplificado => "正在安装固件..."@,
    }
}

pub fn p_installing_firmware(idioma: Idioma) -> (r: &'static str)
    ensures
        r@ == p_installing_firmware_spec(idioma),
{
    match idioma {
        Idioma::BelarusLatino => "Ustałjavannje prašyŭki...",
        Idioma::Belarus => "Усталяванне прашыўкі…",
        Idioma::Catalan => "S'està instal·lant el microprogramari...",
        Idioma::Checo => "Instalace firmwaru…",
        Idioma::Aleman => "Firmware wird installiert…",
        Idioma::Ingles => "Installing firmware…",
        Idioma::Espanol | Idioma::PortuguesBrasil => "Instalando firmware…",
        Idioma::Frances => "Installation du micrologiciel…",
        Idioma::Gallego => "Instalando firmware...",
        Idioma::Hungaro => "Firmware telepítése…",
        Idioma::Italiano => "Installazione del firmware…",
        Idioma::Coreano => "펌웨어 설치 중…",
        Idioma::Kurdo => "Sazkirina firmware…",
        Idioma::Neerlandes => "Firmware installeren…",
        Idioma::NoruegoNynorsk => "Installerer fastvare...",
        Idioma::Polaco => "Instalowanie oprogramowania sprzętowego…",
        Idioma::Ruso => "Установка прошивки…",
        Idioma::Sueco => "Installerar firmware...",
        Idioma::Turco => "Aygıt yazılımı yükleniyor…",
        Idioma::Ucraniano => "Встановлення прошивки…",
        Idioma::Vietnamita => "Đang cài đặt chương trình cơ sở…",
        Idioma::ChinoSimplificado => "正在安装固件...",
    }
}

/// The `scheduling_recovery` text in each language.
pub open spec fn p_scheduling_recovery_spec(idioma: Idioma) -> Seq<char> {
    match idioma {
        Idioma::BelarusLatino => "Padrychtoŭka adnaŭłjennja da nastupnaha pjerazapusku..."@,
        Idioma::Belarus => "Падрыхтоўка аднаўлення да наступнага перазапуску…"@,
        Idioma::Catalan => "S'està preparant la recuperació per al proper reinici..."@,
        Idioma::Checo => "Příprava obnovení na další restart…"@,
        Idioma::Aleman => "Wiederherstellung wird für den nächsten Neustart vorbereitet…"@,
        Idioma::Ingles | Idioma::Turco => "Preparing recovery for the next restart…"@,
        Idioma::Espanol => "Preparando la recuperación para el próximo reinicio…"@,
        Idioma::Frances => "Préparation de la récupération pour le prochain redémarrage…"@,
        Idioma::Gallego => "Preparando a recuperación para o próximo reinicio..."@,
        Idioma::Hungaro => "Helyreállítás előkészítése a következő újraindításhoz…"@,
        Idioma::Italiano => "Preparazione del ripristino per il prossimo riavvio…"@,
        Idioma::Coreano => "다음 재시작을 위한 복구 준비 중…"@,
        Idioma::Kurdo => "Amadekirina başbûnê ji bo ji nû ve destpêkirina din…"@,
        Idioma::Neerlandes => "Herstel voorbereiden voor de volgende herstart…"@,
        Idioma::NoruegoNynorsk => "Forbereder gjenoppretting for neste omstart..."@,
        Idioma::Polaco => "Przygotowywanie odzyskiwania do następnego ponownego uruchomienia…"@,
        Idioma::PortuguesBrasil => "Preparando recuperação para a próxima reinicialização…"@,
        Idioma::Ruso => "Подготовка восстановления к следующему перезапуску…"@,
        Idioma::Sueco => "Förbereder återställning för nästa omstart..."@,
        Idioma::Ucraniano => "Підготовка відновлення до наступного перезапуску…"@,
        Idioma::Vietnamita => "Đang chuẩn bị khôi phục cho lần khởi động lại tiếp theo…"@,
        Idioma::ChinoSimplificado => "正在为下次重新启动准备恢复..."@,
    }
}

pub fn p_scheduling_recovery(idioma: Idioma) -> (r: &'static str)
    ensures
        r@ == p_scheduling_recovery_spec(idioma),
{
    match idioma {
        Idioma::BelarusLatino => "Padrychtoŭka adnaŭłjennja da nastupnaha pjerazapusku...",
        Idioma::Belarus => "Падрыхтоўка аднаўлення да наступнага перазапуску…",
        Idioma::Catalan => "S'està preparant la recuperació per al proper reinici...",
        Idioma::Checo => "Příprava obnovení na další restart…",
        Idioma::Aleman => "Wiederherstellung wird für den nächsten Neustart vorbereitet…",
        Idioma::Ingles | Idioma::Turco => "Preparing recovery for the next restart…",
        Idioma::Espanol => "Preparando la recuperación para el próximo reinicio…",
        Idioma::Frances => "Préparation de la récupération pour le prochain redémarrage…",
        Idioma::Gallego => "Preparando a recuperación para o próximo reinicio...",
        Idioma::Hungaro => "Helyreállítás előkészítése a következő újraindításhoz…",
        Idioma::Italiano => "Preparazione del ripristino per il prossimo riavvio…",
        Idioma::Coreano => "다음 재시작을 위한 복구 준비 중…",
        Idioma::Kurdo => "Amadekirina başbûnê ji bo ji nû ve destpêkirina din…",
        Idioma::Neerlandes => "Herstel voorbereiden voor de volgende herstart…",
        Idioma::NoruegoNynorsk => "Forbereder gjenoppretting for neste omstart...",
        Idioma::Polaco => "Przygotowywanie odzyskiwania do następnego ponownego uruchomienia…",
        Idioma::PortuguesBrasil => "Preparando recuperação para a próxima reinicialização…",
        Idioma::Ruso => "Подготовка восстановления к следующему перезапуску…",
        Idioma::Sueco => "Förbereder återställning för nästa omstart...",
        Idioma::Ucraniano => "Підготовка відновлення до наступного перезапуску…",
        Idioma::Vietnamita => "Đang chuẩn bị khôi phục cho lần khởi động lại tiếp theo…",
        Idioma::ChinoSimplificado => "正在为下次重新启动准备恢复...",
    }
}

/// The `testing_sound` text in each language.
pub open spec fn p_testing_sound_spec(idioma: Idioma) -> Seq<char> {
    match idioma {
        Idioma::BelarusLatino => "Testavannje abranaha vychadu huku…"@,
        Idioma::Belarus => "Тэставанне абранага выхаду гуку…"@,
        Idioma::Catalan => "S'està provant la sortida de so seleccionada..."@,
        Idioma::Checo => "Testování vybraného zvukového výstupu…"@,
        Idioma::Aleman => "Testen der ausgewählten Tonausgabe…"@,
        Idioma::Ingles => "Testing the selected sound output…"@,
        Idioma::Espanol => "Probando la salida de sonido seleccionada…"@,
        Idioma::Frances => "Test de la sortie sonore sélectionnée…"@,
        Idioma::Gallego => "Probando a saída de son seleccionada..."@,
        Idioma::Hungaro => "A kiválasztott hangkimenet tesztelése…"@,
        Idioma::Italiano => "Test dell'uscita audio selezionata…"@,
        Idioma::Coreano => "선택한 사운드 출력을 테스트 중입니다…"@,
        Idioma::Kurdo => "Ceribandina dengê hilbijartî…"@,
        Idioma::Neerlandes => "De geselecteerde geluidsuitvoer testen…"@,
        Idioma::NoruegoNynorsk => "Tester valgt lydutgang..."@,
        Idioma::Polaco => "Testowanie wybranego wyjścia dźwięku…"@,
        Idioma::PortuguesBrasil => "Testando a saída de som selecionada…"@,
        Idioma::Ruso => "Проверка выбранного вывода звука…"@,
        Idioma::Sueco => "Testar den valda ljudutgången..."@,
        Idioma::Turco => "Seçilen ses çıkışı test ediliyor…"@,
        Idioma::Ucraniano => "Перевірка вибраного вихідного звуку…"@,
        Idioma::Vietnamita => "Kiểm tra đầu ra âm thanh đã chọn…"@,
        Idioma::ChinoSimplificado => "测试所选的声音输出..."@,
    }
}

pub fn p_testing_sound(idioma: Idioma) -> (r: &'static str)
    ensures
        r@ == p_testing_sound_spec(idioma),
{
    match idioma {
        Idioma::BelarusLatino => "Testavannje abranaha vychadu huku…",
        Idioma::Belarus => "Тэставанне абранага выхаду гуку…",
        Idioma::Catalan => "S'està provant la sortida de so seleccionada...",
        Idioma::Checo => "Testování vybraného zvukového výstupu…",
        Idioma::Aleman => "Testen der ausgewählten Tonausgabe…",
        Idioma::Ingles => "Testing the selected sound output…",
        Idioma::Espanol => "Probando la salida de sonido seleccionada…",
        Idioma::Frances => "Test de la sortie sonore sélectionnée…",
        Idioma::Gallego => "Probando a saída de son seleccionada...",
        Idioma::Hungaro => "A kiválasztott hangkimenet tesztelése…",
        Idioma::Italiano => "Test dell'uscita audio selezionata…",
        Idioma::Coreano => "선택한 사운드 출력을 테스트 중입니다…",
        Idioma::Kurdo => "Ceribandina dengê hilbijartî…",
        Idioma::Neerlandes => "De geselecteerde geluidsuitvoer testen…",
        Idioma::NoruegoNynorsk => "Tester valgt lydutgang...",
        Idioma::Polaco => "Testowanie wybranego wyjścia dźwięku…",
        Idioma::PortuguesBrasil => "Testando a saída de som selecionada…",
        Idioma::Ruso => "Проверка выбранного вывода звука…",
        Idioma::Sueco => "Testar den valda ljudutgången...",
        Idioma::Turco => "Seçilen ses çıkışı test ediliyor…",
        Idioma::Ucraniano => "Перевірка вибраного вихідного звуку…",
        Idioma::Vietnamita => "Kiểm tra đầu ra âm thanh đã chọn…",
        Idioma::ChinoSimplificado => "测试所选的声音输出...",
    }
}

/// The `recording_mic` text in each language.
pub open spec fn p_recording_mic_spec(idioma: Idioma) -> Seq<char> {
    match idioma {
        Idioma::BelarusLatino => "Idzje zapis časovaha ŭzoru mikrafona…"@,
        Idioma::Belarus => "Запіс часовага ўзору мікрафона…"@,
        Idioma::Catalan => "Enregistrament d'una mostra de micròfon temporal..."@,
        Idioma::Checo => "Nahrávání dočasného vzorku mikrofonu…"@,
        Idioma::Aleman => "Aufzeichnen einer temporären Mikrofonprobe…"@,
        Idioma::Ingles | Idioma::Turco => "Recording a temporary microphone sample…"@,
        Idioma::Espanol => "Grabando una prueba temporal del micrófono…"@,
        Idioma::Frances => "Enregistrement d'un échantillon de microphone temporaire…"@,
        Idioma::Gallego => "Gravando unha mostra de micrófono temporal..."@,
        Idioma::Hungaro => "Ideiglenes mikrofonminta felvétele…"@,
        Idioma::Italiano => "Registrazione di un campione temporaneo del microfono…"@,
        Idioma::Coreano => "임시 마이크 샘플을 녹음하는 중…"@,
        Idioma::Kurdo => "Tomarkirina nimûneyek mîkrofona demkî…"@,
        Idioma::Neerlandes => "Een tijdelijk microfoonsample opnemen…"@,
        Idioma::NoruegoNynorsk => "Tar opp en midlertidig mikrofoneksempel..."@,
        Idioma::Polaco => "Nagrywam tymczasową próbkę mikrofonu…"@,
        Idioma::PortuguesBrasil => "Gravando uma amostra temporária de microfone…"@,
        Idioma::Ruso => "Запись временного сэмпла микрофона…"@,
        Idioma::Sueco => "Spelar in ett tillfälligt mikrofonprov..."@,
        Idioma::Ucraniano => "Записування тимчасового зразка мікрофона…"@,
        Idioma::Vietnamita => "Ghi âm mẫu micrô tạm thời…"@,
        Idioma::ChinoSimplificado => "录制临时麦克风样本..."@,
    }
}

pub fn p_recording_mic(idioma: Idioma) -> (r: &'static str)
    ensures
        r@ == p_recording_mic_spec(idioma),
{
    match idioma {
        Idioma::BelarusLatino => "Idzje zapis časovaha ŭzoru mikrafona…",
        Idioma::Belarus => "Запіс часовага ўзору мікрафона…",
        Idioma::Catalan => "Enregistrament d'una mostra de micròfon temporal...",
        Idioma::Checo => "Nahrávání dočasného vzorku mikrofonu…",
        Idioma::Aleman => "Aufzeichnen einer temporären Mikrofonprobe…",
        Idioma::Ingles | Idioma::Turco => "Recording a temporary microphone sample…",
        Idioma::Espanol => "Grabando una prueba temporal del micrófono…",
        Idioma::Frances => "Enregistrement d'un échantillon de microphone temporaire…",
        Idioma::Gallego => "Gravando unha mostra de micrófono temporal...",
        Idioma::Hungaro => "Ideiglenes mikrofonminta felvétele…",
        Idioma::Italiano => "Registrazione di un campione temporaneo del microfono…",
        Idioma::Coreano => "임시 마이크 샘플을 녹음하는 중…",
        Idioma::Kurdo => "Tomarkirina nimûneyek mîkrofona demkî…",
        Idioma::Neerlandes => "Een tijdelijk microfoonsample opnemen…",
        Idioma::NoruegoNynorsk => "Tar opp en midlertidig mikrofoneksempel...",
        Idioma::Polaco => "Nagrywam tymczasową próbkę mikrofonu…",
        Idioma::PortuguesBrasil => "Gravando uma amostra temporária de microfone…",
        Idioma::Ruso => "Запись временного сэмпла микрофона…",
        Idioma::Sueco => "Spelar in ett tillfälligt mikrofonprov...",
        Idioma::Ucraniano => "Записування тимчасового зразка мікрофона…",
        Idioma::Vietnamita => "Ghi âm mẫu micrô tạm thời…",
        Idioma::ChinoSimplificado => "录制临时麦克风样本...",
    }
}

/// The `playing_mic` text in each language.
pub open spec fn p_playing_mic_spec(idioma: Idioma) -> Seq<char> {
    match idioma {
        Idioma::BelarusLatino => "Prajhravannje ŭzoru mikrafona…"@,
        Idioma::Belarus => "Прайграванне ўзору мікрафона…"@,
        Idioma::Catalan => "S'està reproduint la mostra del micròfon..."@,
        Idioma::Checo => "Přehrávání ukázky mikrofonu…"@,
        Idioma::Aleman => "Das Mikrofonbeispiel wird abgespielt…"@,
        Idioma::Ingles => "Playing the microphone sample…"@,
        Idioma::Espanol => "Reproduciendo la prueba del micrófono…"@,
        Idioma::Frances => "Lecture de l'échantillon du microphone…"@,
        Idioma::Gallego => "Reproducindo a mostra do micrófono..."@,
        Idioma::Hungaro => "A mikrofonminta lejátszása…"@,
        Idioma::Italiano => "Riproduzione del campione del microfono…"@,
        Idioma::Coreano => "마이크 샘플을 재생하는 중…"@,
        Idioma::Kurdo => "Nimûneya mîkrofonê dileyize…"@,
        Idioma::Neerlandes => "Het microfoonvoorbeeld afspelen…"@,
        Idioma::NoruegoNynorsk => "Spiller av mikrofoneksemplet..."@,
        Idioma::Polaco => "Odtwarzanie próbki mikrofonu…"@,
        Idioma::PortuguesBrasil => "Reproduzindo a amostra do microfone…"@,
        Idioma::Ruso => "Воспроизведение семпла с микрофона…"@,
        Idioma::Sueco => "Spelar upp mikrofonexemplet..."@,
        Idioma::Turco => "Mikrofon örneği çalınıyor…"@,
        Idioma::Ucraniano => "Відтворення зразка мікрофона…"@,
        Idioma::Vietnamita => "Đang phát mẫu micrô…"@,
        Idioma::ChinoSimplificado => "播放麦克风样本..."@,
    }
}

pub fn p_playing_mic(idioma: Idioma) -> (r: &'static str)
    ensures
        r@ == p_playing_mic_spec(idioma),
{
    match idioma {
        Idioma::BelarusLatino => "Prajhravannje ŭzoru mikrafona…",
        Idioma::Belarus => "Прайграванне ўзору мікрафона…",
        Idioma::Catalan => "S'està reproduint la mostra del micròfon...",
        Idioma::Checo => "Přehrávání ukázky mikrofonu…",
        Idioma::Aleman => "Das Mikrofonbeispiel wird abgespielt…",
        Idioma::Ingles => "Playing the microphone sample…",
        Idioma::Espanol => "Reproduciendo la prueba del micrófono…",
        Idioma::Frances => "Lecture de l'échantillon du microphone…",
        Idioma::Gallego => "Reproducindo a mostra do micrófono...",
        Idioma::Hungaro => "A mikrofonminta lejátszása…",
        Idioma::Italiano => "Riproduzione del campione del microfono…",
        Idioma::Coreano => "마이크 샘플을 재생하는 중…",
        Idioma::Kurdo => "Nimûneya mîkrofonê dileyize…",
        Idioma::Neerlandes => "Het microfoonvoorbeeld afspelen…",
        Idioma::NoruegoNynorsk => "Spiller av mikrofoneksemplet...",
        Idioma::Polaco => "Odtwarzanie próbki mikrofonu…",
        Idioma::PortuguesBrasil => "Reproduzindo a amostra do microfone…",
        Idioma::Ruso => "Воспроизведение семпла с микрофона…",
        Idioma::Sueco => "Spelar upp mikrofonexemplet...",
        Idioma::Turco => "Mikrofon örneği çalınıyor…",
        Idioma::Ucraniano => "Відтворення зразка мікрофона…",
        Idioma::Vietnamita => "Đang phát mẫu micrô…",
        Idioma::ChinoSimplificado => "播放麦克风样本...",
    }
}

/// The `done` text in each language.
pub open spec fn p_done_spec(idioma: Idioma) -> Seq<char> {
    match idioma {
        Idioma::BelarusLatino => "Hatova"@,
        Idioma::Belarus => "Гатова"@,
        Idioma::Catalan => "Fet"@,
        Idioma::Checo => "Hotovo"@,
        Idioma::Aleman => "Fertig"@,
        Idioma::Ingles => "Done"@,
        Idioma::Espanol => "Listo"@,
        Idioma::Frances => "Fait"@,
        Idioma::Gallego => "Feito"@,
        Idioma::Hungaro => "Kész"@,
        Idioma::Italiano => "Fatto"@,
        Idioma::Coreano => "완료"@,
        Idioma::Kurdo => "Qediya"@,
        Idioma::Neerlandes => "Gereed"@,
        Idioma::NoruegoNynorsk => "Ferdig"@,
        Idioma::Polaco => "Gotowe"@,
        Idioma::PortuguesBrasil => "Pronto"@,
        Idioma::Ruso | Idioma::Ucraniano => "Готово"@,
        Idioma::Sueco => "Klar"@,
        Idioma::Turco => "Tamamlandı"@,
        Idioma::Vietnamita => "Xong"@,
        Idioma::ChinoSimplificado => "完成"@,
    }
}

pub fn p_done(idioma: Idioma) -> (r: &'static str)
    ensures
        r@ == p_done_spec(idioma),
{
    match idioma {
        Idioma::BelarusLatino => "Hatova",
        Idioma::Belarus => "Гатова",
        Idioma::Catalan => "Fet",
        Idioma::Checo => "Hotovo",
        Idioma::Aleman => "Fertig",
        Idioma::Ingles => "Done",
        Idioma::Espanol => "Listo",
        Idioma::Frances => "Fait",
        Idioma::Gallego => "Feito",
        Idioma::Hungaro => "Kész",
        Idioma::Italiano => "Fatto",
        Idioma::Coreano => "완료",
        Idioma::Kurdo => "Qediya",
        Idioma::Neerlandes => "Gereed",
        Idioma::NoruegoNynorsk => "Ferdig",
        Idioma::Polaco => "Gotowe",
        Idioma::PortuguesBrasil => "Pronto",
        Idioma::Ruso | Idioma::Ucraniano => "Готово",
        Idioma::Sueco => "Klar",
        Idioma::Turco => "Tamamlandı",
        Idioma::Vietnamita => "Xong",
        Idioma::ChinoSimplificado => "完成",
    }
}

/// The wording of a progress stage; `Korunix` for an unknown stage.
pub open spec fn texto_progreso_spec(idioma: Idioma, clave: Seq<char>) -> Seq<char> {
    if clave == "reading"@ {
        p_reading_spec(idioma)
    } else if clave == "preparing"@ {
        p_preparing_spec(idioma)
    } else if clave == "changing_channel"@ {
        p_changing_channel_spec(idioma)
    } else if clave == "updating_catalog"@ {
        p_updating_catalog_spec(idioma)
    } else if clave == "validating"@ {
        p_validating_spec(idioma)
    } else if clave == "cleaning_versions"@ {
        p_cleaning_versions_spec(idioma)
    } else if clave == "garbage_collect"@ {
        p_garbage_collect_spec(idioma)
    } else if clave == "optimising_store"@ {
        p_optimising_store_spec(idioma)
    } else if clave == "saving_data"@ {
        p_saving_data_spec(idioma)
    } else if clave == "unmounting"@ {
        p_unmounting_spec(idioma)
    } else if clave == "powering_off"@ {
        p_powering_off_spec(idioma)
    } else if clave == "refreshing_firmware"@ {
        p_refreshing_firmware_spec(idioma)
    } else if clave == "installing_firmware"@ {
        p_installing_firmware_spec(idioma)
    } else if clave == "scheduling_recovery"@ {
        p_scheduling_recovery_spec(idioma)
    } else if clave == "testing_sound"@ {
        p_testing_sound_spec(idioma)
    } else if clave == "recording_mic"@ {
        p_recording_mic_spec(idioma)
    } else if clave == "playing_mic"@ {
        p_playing_mic_spec(idioma)
    } else if clave == "done"@ {
        p_done_spec(idioma)
    } else {
        "Korunix"@
    }
}

pub fn texto_progreso(idioma: Idioma, clave: &str) -> (r: &'static str)
    ensures
        r@ == texto_progreso_spec(idioma, clave@),
{
    if iguales(clave, "reading") {
        p_reading(idioma)
    } else if iguales(clave, "preparing") {
        p_preparing(idioma)
    } else if iguales(clave, "changing_channel") {
        p_changing_channel(idioma)
    } else if iguales(clave, "updating_catalog") {
        p_updating_catalog(idioma)
    } else if iguales(clave, "validating") {
        p_validating(idioma)
    } else if iguales(clave, "cleaning_versions") {
        p_cleaning_versions(idioma)
    } else if iguales(clave, "garbage_collect") {
        p_garbage_collect(idioma)
    } else if iguales(clave, "optimising_store") {
        p_optimising_store(idioma)
    } else if iguales(clave, "saving_data") {
        p_saving_data(idioma)
    } else if iguales(clave, "unmounting") {
        p_unmounting(idioma)
    } else if iguales(clave, "powering_off") {
        p_powering_off(idioma)
    } else if iguales(clave, "refreshing_firmware") {
        p_refreshing_firmware(idioma)
    } else if iguales(clave, "installing_firmware") {
        p_installing_firmware(idioma)
    } else if iguales(clave, "scheduling_recovery") {
        p_scheduling_recovery(idioma)
    } else if iguales(clave, "testing_sound") {
        p_testing_sound(idioma)
    } else if iguales(clave, "recording_mic") {
        p_recording_mic(idioma)
    } else if iguales(clave, "playing_mic") {
        p_playing_mic(idioma)
    } else if iguales(clave, "done") {
        p_done(idioma)
    } else {
        "Korunix"
    }
}

proof fn lema_p_changing_channel_traducido(idioma: Idioma)
    ensures
        p_changing_channel_spec(idioma) != "Korunix"@,
{
    reveal_strlit("A rendszercsatorna módosítása…");
    reveal_strlit("Alterando o canal do sistema…");
    reveal_strlit("Cambiando a canle do sistema...");
    reveal_strlit("Cambiando el canal del sistema…");
    reveal_strlit("Canviant el canal del sistema...");
    reveal_strlit("Changing the system channel…");
    reveal_strlit("Endre systemkanalen...");
    reveal_strlit("Guhertina kanala pergalê…");
    reveal_strlit("Modifica del canale del sistema…");
    reveal_strlit("Modification du canal système…");
    reveal_strlit("Systeemkanaal wijzigen…");
    reveal_strlit("Thay đổi kênh hệ thống…");
    reveal_strlit("Zmiana kanału systemowego…");
    reveal_strlit("Zmjena sistemnaha kanała…");
    reveal_strlit("Změna systémového kanálu…");
    reveal_strlit("Ändern des Systemkanals…");
    reveal_strlit("Ändra systemkanalen...");
    reveal_strlit("Змена сістэмнага канала…");
    reveal_strlit("Зміна системного каналу…");
    reveal_strlit("Изменение системного канала…");
    reveal_strlit("更改系统频道...");
    reveal_strlit("시스템 채널 변경 중...");
    lema_distinto_de_korunix(p_changing_channel_spec(idioma));
}

proof fn lema_p_updating_catalog_traducido(idioma: Idioma)
    ensures
        p_updating_catalog_spec(idioma) != "Korunix"@,
{
    reveal_strlit("A szoftverkatalógus frissítése…");
    reveal_strlit("Abnaŭłjennje katałoha prahramnaha zabjespjačennja…");
    reveal_strlit("Actualizando el catálogo de software…");
    reveal_strlit("Actualizando o catálogo de software...");
    reveal_strlit("Aggiornamento del catalogo software…");
    reveal_strlit("Aktualisierung des Softwarekatalogs…");
    reveal_strlit("Aktualizace katalogu softwaru…\nVerze __KX00129__");
    reveal_strlit("Aktualizowanie katalogu oprogramowania…");
    reveal_strlit("Atualizando o catálogo de software…");
    reveal_strlit("Cập nhật danh mục phần mềm…");
    reveal_strlit("De softwarecatalogus bijwerken…");
    reveal_strlit("Mise à jour du catalogue de logiciels…\nVersion __KX00129__");
    reveal_strlit("Nûvekirina kataloga nermalavê…");
    reveal_strlit("Oppdaterer programvarekatalogen...");
    reveal_strlit("S'està actualitzant el catàleg de programari...");
    reveal_strlit("Updating the software catalog…");
    reveal_strlit("Uppdaterar programvarukatalogen...");
    reveal_strlit("Yazılım kataloğu güncelleniyor…");
    reveal_strlit("Абнаўленне каталога праграмнага забеспячэння…");
    reveal_strlit("Обновление каталога программного обеспечения…");
    reveal_strlit("Оновлення каталогу програмного забезпечення…");
    reveal_strlit("正在更新软件目录...");
    reveal_strlit("소프트웨어 카탈로그 업데이트 중…");
    lema_distinto_de_korunix(p_updating_catalog_spec(idioma));
}

proof fn lema_p_cleaning_versions_traducido(idioma: Idioma)
    ensures
        p_cleaning_versions_spec(idioma) != "Korunix"@,
{
    reveal_strlit("Alte Systemversionen werden entfernt…");
    reveal_strlit("Eliminando versiones antiguas del sistema…");
    reveal_strlit("Eliminando versións antigas do sistema...");
    reveal_strlit("Eski sistem sürümleri kaldırılıyor…");
    reveal_strlit("Fjerner gamle systemversjoner...");
    reveal_strlit("Odebírání starých verzí systému…");
    reveal_strlit("Oude systeemversies verwijderen…");
    reveal_strlit("Rakirina guhertoyên pergalê yên kevn…");
    reveal_strlit("Removendo versões antigas do sistema…");
    reveal_strlit("Removing old system versions…");
    reveal_strlit("Rimozione delle vecchie versioni del sistema…");
    reveal_strlit("Régi rendszerverziók eltávolítása…");
    reveal_strlit("S'estan eliminant les versions antigues del sistema...");
    reveal_strlit("Suppression des anciennes versions du système…");
    reveal_strlit("Tar bort gamla systemversioner...");
    reveal_strlit("Usuwanie starych wersji systemu…");
    reveal_strlit("Vydałjennje starych vjersij sistemy…");
    reveal_strlit("Xóa phiên bản hệ thống cũ…");
    reveal_strlit("Видалення старих версій системи…");
    reveal_strlit("Выдаленне старых версій сістэмы…");
    reveal_strlit("Удаление старых версий системы…");
    reveal_strlit("正在删除旧系统版本...");
    reveal_strlit("이전 시스템 버전을 제거하는 중…");
    lema_distinto_de_korunix(p_cleaning_versions_spec(idioma));
}

proof fn lema_p_unmounting_traducido(idioma: Idioma)
    ensures
        p_unmounting_spec(idioma) != "Korunix"@,
{
    reveal_strlit("Adkłjučennje fajłavych sistem…");
    reveal_strlit("Bestandssystemen loskoppelen…");
    reveal_strlit("Dateisysteme werden getrennt…");
    reveal_strlit("Desconectando los sistemas de archivos…");
    reveal_strlit("Desconectando sistemas de arquivos…");
    reveal_strlit("Desconectando sistemas de ficheiros...");
    reveal_strlit("Disconnecting filesystems…");
    reveal_strlit("Disconnessione dei file system…");
    reveal_strlit("Dosya sistemlerinin bağlantısı kesiliyor…");
    reveal_strlit("Déconnexion des systèmes de fichiers…");
    reveal_strlit("Fájlrendszerek leválasztása…");
    reveal_strlit("Kobler fra filsystemer...");
    reveal_strlit("Kopplar bort filsystem...");
    reveal_strlit("Odpojování souborových systémů…");
    reveal_strlit("Odłączanie systemów plików…");
    reveal_strlit("Pergalên pelan qut dike…");
    reveal_strlit("S'estan desconnectant els sistemes de fitxers...");
    reveal_strlit("Đang ngắt kết nối hệ thống tập tin…");
    reveal_strlit("Адключэнне файлавых сістэм…");
    reveal_strlit("Відключення файлових систем…");
    reveal_strlit("Отключение файловых систем…");
    reveal_strlit("断开文件系统连接...");
    reveal_strlit("파일 시스템 연결을 끊는 중…");
    lema_distinto_de_korunix(p_unmounting_spec(idioma));
}

proof fn lema_p_saving_data_traducido(idioma: Idioma)
    ensures
        p_saving_data_spec(idioma) != "Korunix"@,
{
    reveal_strlit("A függőben lévő írások befejezése…");
    reveal_strlit("Avslutar väntande skrivningar...");
    reveal_strlit("Bekleyen yazma işlemleri tamamlanıyor…");
    reveal_strlit("Bezig met schrijven in behandeling…");
    reveal_strlit("Completamento delle scritture in sospeso…");
    reveal_strlit("Concluindo gravações pendentes…");
    reveal_strlit("Dokončování čekajících zápisů…");
    reveal_strlit("Fin des écritures en attente…");
    reveal_strlit("Finishing pending writes…");
    reveal_strlit("Fullfører ventende skrivinger...");
    reveal_strlit("Li benda nivîsandinê qediya…");
    reveal_strlit("Rematando as escrituras pendentes...");
    reveal_strlit("S'estan acabant les escriptures pendents...");
    reveal_strlit("Schreibvorgänge werden abgeschlossen …");
    reveal_strlit("Terminando de guardar los datos pendientes…");
    reveal_strlit("Zakończenie oczekujących zapisów…");
    reveal_strlit("Zavjaršennje njezavjeršanych zapisaŭ…");
    reveal_strlit("Đang hoàn tất quá trình ghi đang chờ xử lý…");
    reveal_strlit("Завершення незавершених записів…");
    reveal_strlit("Завяршэнне незавершаных запісаў…");
    reveal_strlit("Ожидается завершение записи…");
    reveal_strlit("正在完成挂起的写入...");
    reveal_strlit("보류 중인 쓰기를 완료하는 중…");
    lema_distinto_de_korunix(p_saving_data_spec(idioma));
}

proof fn lema_p_refreshing_firmware_traducido(idioma: Idioma)
    ensures
        p_refreshing_firmware_spec(idioma) != "Korunix"@,
{
    reveal_strlit("Checking firmware updates…");
    reveal_strlit("Comprobando actualizaciones de firmware…");
    reveal_strlit("Comprobando actualizacións de firmware...");
    reveal_strlit("Controllo degli aggiornamenti firmware…");
    reveal_strlit("Firmware-Updates werden überprüft…");
    reveal_strlit("Firmware-frissítések ellenőrzése…");
    reveal_strlit("Firmware-updates controleren…");
    reveal_strlit("Kontrola aktualizací firmwaru…");
    reveal_strlit("Kontrollerar firmwareuppdateringar...");
    reveal_strlit("Nûvekirinên firmware kontrol dike…");
    reveal_strlit("Pravjerka abnaŭłjennjaŭ prašyŭki...");
    reveal_strlit("S'estan comprovant les actualitzacions del microprogramari...");
    reveal_strlit("Sjekker fastvareoppdateringer...");
    reveal_strlit("Sprawdzanie aktualizacji oprogramowania sprzętowego…");
    reveal_strlit("Verificando atualizações de firmware…");
    reveal_strlit("Vérification des mises à jour du micrologiciel…");
    reveal_strlit("Ürün yazılımı güncellemeleri kontrol ediliyor…");
    reveal_strlit("Đang kiểm tra bản cập nhật chương trình cơ sở…");
    reveal_strlit("Перевірка оновлень мікропрограми…");
    reveal_strlit("Праверка абнаўленняў прашыўкі…");
    reveal_strlit("Проверка обновлений прошивки…");
    reveal_strlit("检查固件更新...");
    reveal_strlit("펌웨어 업데이트 확인 중…");
    lema_distinto_de_korunix(p_refreshing_firmware_spec(idioma));
}

proof fn lema_p_installing_firmware_traducido(idioma: Idioma)
    ensures
        p_installing_firmware_spec(idioma) != "Korunix"@,
{
    reveal_strlit("Aygıt yazılımı yükleniyor…");
    reveal_strlit("Firmware installeren…");
    reveal_strlit("Firmware telepítése…");
    reveal_strlit("Firmware wird installiert…");
    reveal_strlit("Instalace firmwaru…");
    reveal_strlit("Instalando firmware...");
    reveal_strlit("Instalando firmware…");
    reveal_strlit("Installation du micrologiciel…");
    reveal_strlit("Installazione del firmware…");
    reveal_strlit("Installerar firmware...");
    reveal_strlit("Installerer fastvare...");
    reveal_strlit("Installing firmware…");
    reveal_strlit("Instalowanie oprogramowania sprzętowego…");
    reveal_strlit("S'està instal·lant el microprogramari...");
    reveal_strlit("Sazkirina firmware…");
    reveal_strlit("Ustałjavannje prašyŭki...");
    reveal_strlit("Đang cài đặt chương trình cơ sở…");
    reveal_strlit("Встановлення прошивки…");
    reveal_strlit("Усталяванне прашыўкі…");
    reveal_strlit("Установка прошивки…");
    reveal_strlit("正在安装固件...");
    reveal_strlit("펌웨어 설치 중…");
    lema_distinto_de_korunix(p_installing_firmware_spec(idioma));
}

proof fn lema_p_testing_sound_traducido(idioma: Idioma)
    ensures
        p_testing_sound_spec(idioma) != "Korunix"@,
{
    reveal_strlit("A kiválasztott hangkimenet tesztelése…");
    reveal_strlit("Ceribandina dengê hilbijartî…");
    reveal_strlit("De geselecteerde geluidsuitvoer testen…");
    reveal_strlit("Kiểm tra đầu ra âm thanh đã chọn…");
    reveal_strlit("Probando a saída de son seleccionada...");
    reveal_strlit("Probando la salida de sonido seleccionada…");
    reveal_strlit("S'està provant la sortida de so seleccionada...");
    reveal_strlit("Seçilen ses çıkışı test ediliyor…");
    reveal_strlit("Test de la sortie sonore sélectionnée…");
    reveal_strlit("Test dell'uscita audio selezionata…");
    reveal_strlit("Testando a saída de som selecionada…");
    reveal_strlit("Testar den valda ljudutgången...");
    reveal_strlit("Testavannje abranaha vychadu huku…");
    reveal_strlit("Testen der ausgewählten Tonausgabe…");
    reveal_strlit("Tester valgt lydutgang...");
    reveal_strlit("Testing the selected sound output…");
    reveal_strlit("Testování vybraného zvukového výstupu…");
    reveal_strlit("Testowanie wybranego wyjścia dźwięku…");
    reveal_strlit("Перевірка вибраного вихідного звуку…");
    reveal_strlit("Проверка выбранного вывода звука…");
    reveal_strlit("Тэставанне абранага выхаду гуку…");
    reveal_strlit("测试所选的声音输出...");
    reveal_strlit("선택한 사운드 출력을 테스트 중입니다…");
    lema_distinto_de_korunix(p_testing_sound_spec(idioma));
}

proof fn lema_p_scheduling_recovery_traducido(idioma: Idioma)
    ensures
        p_scheduling_recovery_spec(idioma) != "Korunix"@,
{
    reveal_strlit("Amadekirina başbûnê ji bo ji nû ve destpêkirina din…");
    reveal_strlit("Forbereder gjenoppretting for neste omstart...");
    reveal_strlit("Förbereder återställning för nästa omstart...");
    reveal_strlit("Helyreállítás előkészítése a következő újraindításhoz…");
    reveal_strlit("Herstel voorbereiden voor de volgende herstart…");
    reveal_strlit("Padrychtoŭka adnaŭłjennja da nastupnaha pjerazapusku...");
    reveal_strlit("Preparando a recuperación para o próximo reinicio...");
    reveal_strlit("Preparando la recuperación para el próximo reinicio…");
    reveal_strlit("Preparando recuperação para a próxima reinicialização…");
    reveal_strlit("Preparazione del ripristino per il prossimo riavvio…");
    reveal_strlit("Preparing recovery for the next restart…");
    reveal_strlit("Przygotowywanie odzyskiwania do następnego ponownego uruchomienia…");
    reveal_strlit("Préparation de la récupération pour le prochain redémarrage…");
    reveal_strlit("Příprava obnovení na další restart…");
    reveal_strlit("S'està preparant la recuperació per al proper reinici...");
    reveal_strlit("Wiederherstellung wird für den nächsten Neustart vorbereitet…");
    reveal_strlit("Đang chuẩn bị khôi phục cho lần khởi động lại tiếp theo…");
    reveal_strlit("Падрыхтоўка аднаўлення да наступнага перазапуску…");
    reveal_strlit("Подготовка восстановления к следующему перезапуску…");
    reveal_strlit("Підготовка відновлення до наступного перезапуску…");
    reveal_strlit("正在为下次重新启动准备恢复...");
    reveal_strlit("다음 재시작을 위한 복구 준비 중…");
    lema_distinto_de_korunix(p_scheduling_recovery_spec(idioma));
}

/// The text of each of these keys is its own table's.
proof fn lema_claves_etapas(idioma: Idioma)
    ensures
        texto_progreso_spec(idioma, "changing_channel"@) == p_changing_channel_spec(idioma),
        texto_progreso_spec(idioma, "updating_catalog"@) == p_updating_catalog_spec(idioma),
        texto_progreso_spec(idioma, "cleaning_versions"@) == p_cleaning_versions_spec(idioma),
        texto_progreso_spec(idioma, "unmounting"@) == p_unmounting_spec(idioma),
        texto_progreso_spec(idioma, "saving_data"@) == p_saving_data_spec(idioma),
        texto_progreso_spec(idioma, "refreshing_firmware"@) == p_refreshing_firmware_spec(idioma),
        texto_progreso_spec(idioma, "installing_firmware"@) == p_installing_firmware_spec(idioma),
        texto_progreso_spec(idioma, "testing_sound"@) == p_testing_sound_spec(idioma),
        texto_progreso_spec(idioma, "scheduling_recovery"@) == p_scheduling_recovery_spec(idioma),
{
    assert(texto_progreso_spec(idioma, "changing_channel"@) == p_changing_channel_spec(idioma)) by {
        reveal_strlit("changing_channel");
        assert("changing_channel"@.len() == 16);
        reveal_strlit("reading");
        assert("reading"@.len() == 7);
        reveal_strlit("preparing");
        assert("preparing"@.len() == 9);
    }
    assert(texto_progreso_spec(idioma, "updating_catalog"@) == p_updating_catalog_spec(idioma)) by {
        reveal_strlit("updating_catalog");
        assert("updating_catalog"@.len() == 16);
        reveal_strlit("reading");
        assert("reading"@.len() == 7);
        reveal_strlit("preparing");
        assert("preparing"@.len() == 9);
        reveal_strlit("changing_channel");
        assert("updating_catalog"@[0] != "changing_channel"@[0]);
    }
    assert(texto_progreso_spec(idioma, "cleaning_versions"@) == p_cleaning_versions_spec(idioma)) by {
        reveal_strlit("cleaning_versions");
        assert("cleaning_versions"@.len() == 17);
        reveal_strlit("reading");
        assert("reading"@.len() == 7);
        reveal_strlit("preparing");
        assert("preparing"@.len() == 9);
        reveal_strlit("changing_channel");
        assert("changing_channel"@.len() == 16);
        reveal_strlit("updating_catalog");
        assert("updating_catalog"@.len() == 16);
        reveal_strlit("validating");
        assert("validating"@.len() == 10);
    }
    assert(texto_progreso_spec(idioma, "unmounting"@) == p_unmounting_spec(idioma)) by {
        reveal_strlit("unmounting");
        assert("unmounting"@.len() == 10);
        reveal_strlit("reading");
        assert("reading"@.len() == 7);
        reveal_strlit("preparing");
        assert("preparing"@.len() == 9);
        reveal_strlit("changing_channel");
        assert("changing_channel"@.len() == 16);
        reveal_strlit("updating_catalog");
        assert("updating_catalog"@.len() == 16);
        reveal_strlit("validating");
        assert("unmounting"@[0] != "validating"@[0]);
        reveal_strlit("cleaning_versions");
        assert("cleaning_versions"@.len() == 17);
        reveal_strlit("garbage_collect");
        assert("garbage_collect"@.len() == 15);
        reveal_strlit("optimising_store");
        assert("optimising_store"@.len() == 16);
        reveal_strlit("saving_data");
        assert("saving_data"@.len() == 11);
    }
    assert(texto_progreso_spec(idioma, "saving_data"@) == p_saving_data_spec(idioma)) by {
        reveal_strlit("saving_data");
        assert("saving_data"@.len() == 11);
        reveal_strlit("reading");
        assert("reading"@.len() == 7);
        reveal_strlit("preparing");
        assert("preparing"@.len() == 9);
        reveal_strlit("changing_channel");
        assert("changing_channel"@.len() == 16);
        reveal_strlit("updating_catalog");
        assert("updating_catalog"@.len() == 16);
        reveal_strlit("validating");
        assert("validating"@.len() == 10);
        reveal_strlit("cleaning_versions");
        assert("cleaning_versions"@.len() == 17);
        reveal_strlit("garbage_collect");
        assert("garbage_collect"@.len() == 15);
        reveal_strlit("optimising_store");
        assert("optimising_store"@.len() == 16);
    }
    assert(texto_progreso_spec(idioma, "refreshing_firmware"@) == p_refreshing_firmware_spec(idioma)) by {
        reveal_strlit("refreshing_firmware");
        assert("refreshing_firmware"@.len() == 19);
        reveal_strlit("reading");
        assert("reading"@.len() == 7);
        reveal_strlit("preparing");
        assert("preparing"@.len() == 9);
        reveal_strlit("changing_channel");
        assert("changing_channel"@.len() == 16);
        reveal_strlit("updating_catalog");
        assert("updating_catalog"@.len() == 16);
        reveal_strlit("validating");
        assert("validating"@.len() == 10);
        reveal_strlit("cleaning_versions");
        assert("cleaning_versions"@.len() == 17);
        reveal_strlit("garbage_collect");
        assert("garbage_collect"@.len() == 15);
        reveal_strlit("optimising_store");
        assert("optimising_store"@.len() == 16);
        reveal_strlit("saving_data");
        assert("saving_data"@.len() == 11);
        reveal_strlit("unmounting");
        assert("unmounting"@.len() == 10);
        reveal_strlit("powering_off");
        assert("powering_off"@.len() == 12);
    }
    assert(texto_progreso_spec(idioma, "installing_firmware"@) == p_installing_firmware_spec(idioma)) by {
        reveal_strlit("installing_firmware");
        assert("installing_firmware"@.len() == 19);
        reveal_strlit("reading");
        assert("reading"@.len() == 7);
        reveal_strlit("preparing");
        assert("preparing"@.len() == 9);
        reveal_strlit("changing_channel");
        assert("changing_channel"@.len() == 16);
        reveal_strlit("updating_catalog");
        assert("updating_catalog"@.len() == 16);
        reveal_strlit("validating");
        assert("validating"@.len() == 10);
        reveal_strlit("cleaning_versions");
        assert("cleaning_versions"@.len() == 17);
        reveal_strlit("garbage_collect");
        assert("garbage_collect"@.len() == 15);
        reveal_strlit("optimising_store");
        assert("optimising_store"@.len() == 16);
        reveal_strlit("saving_data");
        assert("saving_data"@.len() == 11);
        reveal_strlit("unmounting");
        assert("unmounting"@.len() == 10);
        reveal_strlit("powering_off");
        assert("powering_off"@.len() == 12);
        reveal_strlit("refreshing_firmware");
        assert("installing_firmware"@[0] != "refreshing_firmware"@[0]);
    }
    assert(texto_progreso_spec(idioma, "testing_sound"@) == p_testing_sound_spec(idioma)) by {
        reveal_strlit("testing_sound");
        assert("testing_sound"@.len() == 13);
        reveal_strlit("reading");
        assert("reading"@.len() == 7);
        reveal_strlit("preparing");
        assert("preparing"@.len() == 9);
        reveal_strlit("changing_channel");
        assert("changing_channel"@.len() == 16);
        reveal_strlit("updating_catalog");
        assert("updating_catalog"@.len() == 16);
        reveal_strlit("validating");
        assert("validating"@.len() == 10);
        reveal_strlit("cleaning_versions");
        assert("cleaning_versions"@.len() == 17);
        reveal_strlit("garbage_collect");
        assert("garbage_collect"@.len() == 15);
        reveal_strlit("optimising_store");
        assert("optimising_store"@.len() == 16);
        reveal_strlit("saving_data");
        assert("saving_data"@.len() == 11);
        reveal_strlit("unmounting");
        assert("unmounting"@.len() == 10);
        reveal_strlit("powering_off");
        assert("powering_off"@.len() == 12);
        reveal_strlit("refreshing_firmware");
        assert("refreshing_firmware"@.len() == 19);
        reveal_strlit("installing_firmware");
        assert("installing_firmware"@.len() == 19);
        reveal_strlit("scheduling_recovery");
        assert("scheduling_recovery"@.len() == 19);
    }
    assert(texto_progreso_spec(idioma, "scheduling_recovery"@) == p_scheduling_recovery_spec(idioma)) by {
        reveal_strlit("scheduling_recovery");
        assert("scheduling_recovery"@.len() == 19);
        reveal_strlit("reading");
        assert("reading"@.len() == 7);
        reveal_strlit("preparing");
        assert("preparing"@.len() == 9);
        reveal_strlit("changing_channel");
        assert("changing_channel"@.len() == 16);
        reveal_strlit("updating_catalog");
        assert("updating_catalog"@.len() == 16);
        reveal_strlit("validating");
        assert("validating"@.len() == 10);
        reveal_strlit("cleaning_versions");
        assert("cleaning_versions"@.len() == 17);
        reveal_strlit("garbage_collect");
        assert("garbage_collect"@.len() == 15);
        reveal_strlit("optimising_store");
        assert("optimising_store"@.len() == 16);
        reveal_strlit("saving_data");
        assert("saving_data"@.len() == 11);
        reveal_strlit("unmounting");
        assert("unmounting"@.len() == 10);
        reveal_strlit("powering_off");
        assert("powering_off"@.len() == 12);
        reveal_strlit("refreshing_firmware");
        assert("scheduling_recovery"@[0] != "refreshing_firmware"@[0]);
        reveal_strlit("installing_firmware");
        assert("scheduling_recovery"@[0] != "installing_firmware"@[0]);
    }
}
/// Every stage that an engine command starts with has a progress text of its
/// own in every language, never the fallback "Korunix".
pub proof fn ley_etapas_iniciales_traducidas(idioma: Idioma, argumentos: Seq<Seq<char>>)
    ensures
        crate::motor::etapa_inicial_spec(argumentos) matches Some(k) ==> texto_progreso_spec(idioma, k) != "Korunix"@,
{
    lema_claves_etapas(idioma);
    lema_p_changing_channel_traducido(idioma);
    lema_p_updating_catalog_traducido(idioma);
    lema_p_cleaning_versions_traducido(idioma);
    lema_p_unmounting_traducido(idioma);
    lema_p_saving_data_traducido(idioma);
    lema_p_refreshing_firmware_traducido(idioma);
    lema_p_installing_firmware_traducido(idioma);
    lema_p_testing_sound_traducido(idioma);
    lema_p_scheduling_recovery_traducido(idioma);
}

} // verus!
