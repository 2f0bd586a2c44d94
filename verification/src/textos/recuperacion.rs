//! The labels of recovery versions, in every language.

use vstd::prelude::*;
use crate::idioma::Idioma;

verus! {

/// The running version when it is kept for recovery.
pub open spec fn version_actual_conservada_spec(idioma: Idioma) -> Seq<char> {
    match idioma {
        Idioma::BelarusLatino => "Cjapjerašnjaje · Zachoŭvajecca dłja adnaŭłjennja"@,
        Idioma::Belarus => "Бягучы · Захоўваецца для аднаўлення"@,
        Idioma::Catalan => "Actual · Mantingut per a la recuperació"@,
        Idioma::Checo => "Aktuální · Uchováváno pro obnovení"@,
        Idioma::Aleman => "Aktuell · Zur Wiederherstellung aufbewahrt"@,
        Idioma::Ingles | Idioma::Turco => "Current · Kept for recovery"@,
        Idioma::Espanol => "Actual · Conservada para recuperación"@,
        Idioma::Frances => "Actuel · Conservé pour récupération"@,
        Idioma::Gallego => "Actual · Mantívose para a súa recuperación"@,
        Idioma::Hungaro => "Jelenlegi · Helyreállításhoz megtartva"@,
        Idioma::Italiano => "Corrente · Conservato per il recupero"@,
        Idioma::Coreano => "현재 · 복구를 위해 보관"@,
        Idioma::Kurdo => "Niha · Ji bo vegirtinê tê parastin"@,
        Idioma::Neerlandes => "Huidig · Bewaarde voor herstel"@,
        Idioma::NoruegoNynorsk => "Gjeldende · Beholdt for gjenoppretting"@,
        Idioma::Polaco => "Aktualny · Zachowany do odzyskania"@,
        Idioma::PortuguesBrasil => "Atual · Mantido para recuperação"@,
        Idioma::Ruso => "Текущий · Сохранено для восстановления"@,
        Idioma::Sueco => "Aktuell · Sparas för återställning"@,
        Idioma::Ucraniano => "Поточний · Зберігається для відновлення"@,
        Idioma::Vietnamita => "Hiện tại · Giữ để phục hồi"@,
        Idioma::ChinoSimplificado => "当前 · 保留用于恢复"@,
    }
}

pub fn version_actual_conservada(idioma: Idioma) -> (r: &'static str)
    ensures
        r@ == version_actual_conservada_spec(idioma),
{
    match idioma {
        Idioma::BelarusLatino => "Cjapjerašnjaje · Zachoŭvajecca dłja adnaŭłjennja",
        Idioma::Belarus => "Бягучы · Захоўваецца для аднаўлення",
        Idioma::Catalan => "Actual · Mantingut per a la recuperació",
        Idioma::Checo => "Aktuální · Uchováváno pro obnovení",
        Idioma::Aleman => "Aktuell · Zur Wiederherstellung aufbewahrt",
        Idioma::Ingles | Idioma::Turco => "Current · Kept for recovery",
        Idioma::Espanol => "Actual · Conservada para recuperación",
        Idioma::Frances => "Actuel · Conservé pour récupération",
        Idioma::Gallego => "Actual · Mantívose para a súa recuperación",
        Idioma::Hungaro => "Jelenlegi · Helyreállításhoz megtartva",
        Idioma::Italiano => "Corrente · Conservato per il recupero",
        Idioma::Coreano => "현재 · 복구를 위해 보관",
        Idioma::Kurdo => "Niha · Ji bo vegirtinê tê parastin",
        Idioma::Neerlandes => "Huidig · Bewaarde voor herstel",
        Idioma::NoruegoNynorsk => "Gjeldende · Beholdt for gjenoppretting",
        Idioma::Polaco => "Aktualny · Zachowany do odzyskania",
        Idioma::PortuguesBrasil => "Atual · Mantido para recuperação",
        Idioma::Ruso => "Текущий · Сохранено для восстановления",
        Idioma::Sueco => "Aktuell · Sparas för återställning",
        Idioma::Ucraniano => "Поточний · Зберігається для відновлення",
        Idioma::Vietnamita => "Hiện tại · Giữ để phục hồi",
        Idioma::ChinoSimplificado => "当前 · 保留用于恢复",
    }
}

/// The running version.
pub open spec fn version_actual_spec(idioma: Idioma) -> Seq<char> {
    match idioma {
        Idioma::BelarusLatino => "Tok"@,
        Idioma::Belarus => "Ток"@,
        Idioma::Catalan | Idioma::Espanol | Idioma::Gallego => "Actual"@,
        Idioma::Checo => "Aktuální"@,
        Idioma::Aleman | Idioma::Sueco => "Aktuell"@,
        Idioma::Ingles => "Current"@,
        Idioma::Frances => "Actuel"@,
        Idioma::Hungaro => "Jelenlegi"@,
        Idioma::Italiano => "Corrente"@,
        Idioma::Coreano => "현재"@,
        Idioma::Kurdo => "Niha"@,
        Idioma::Neerlandes => "Huidig"@,
        Idioma::NoruegoNynorsk => "Gjeldende"@,
        Idioma::Polaco => "Prąd"@,
        Idioma::PortuguesBrasil => "Atual"@,
        Idioma::Ruso => "Текущий"@,
        Idioma::Turco => "Güncel"@,
        Idioma::Ucraniano => "Поточний"@,
        Idioma::Vietnamita => "hiện tại"@,
        Idioma::ChinoSimplificado => "当前"@,
    }
}

pub fn version_actual(idioma: Idioma) -> (r: &'static str)
    ensures
        r@ == version_actual_spec(idioma),
{
    match idioma {
        Idioma::BelarusLatino => "Tok",
        Idioma::Belarus => "Ток",
        Idioma::Catalan | Idioma::Espanol | Idioma::Gallego => "Actual",
        Idioma::Checo => "Aktuální",
        Idioma::Aleman | Idioma::Sueco => "Aktuell",
        Idioma::Ingles => "Current",
        Idioma::Frances => "Actuel",
        Idioma::Hungaro => "Jelenlegi",
        Idioma::Italiano => "Corrente",
        Idioma::Coreano => "현재",
        Idioma::Kurdo => "Niha",
        Idioma::Neerlandes => "Huidig",
        Idioma::NoruegoNynorsk => "Gjeldende",
        Idioma::Polaco => "Prąd",
        Idioma::PortuguesBrasil => "Atual",
        Idioma::Ruso => "Текущий",
        Idioma::Turco => "Güncel",
        Idioma::Ucraniano => "Поточний",
        Idioma::Vietnamita => "hiện tại",
        Idioma::ChinoSimplificado => "当前",
    }
}

/// The label of the running version.
pub open spec fn etiqueta_actual_spec(idioma: Idioma) -> Seq<char> {
    match idioma {
        Idioma::BelarusLatino => "Bjahučy · Zachavany"@,
        Idioma::Belarus => "Актуальны · Захаваны"@,
        Idioma::Catalan => "Actual · Mantingut"@,
        Idioma::Checo => "Aktuální · Zachováno"@,
        Idioma::Aleman => "Aktuell · Behalten"@,
        Idioma::Ingles => "Current · Kept"@,
        Idioma::Espanol => "Actual · Conservada"@,
        Idioma::Frances => "Actuel · Conservé"@,
        Idioma::Gallego => "Actual · Mantívose"@,
        Idioma::Hungaro => "Jelenlegi · Megtartva"@,
        Idioma::Italiano => "Attuale · Mantenuto"@,
        Idioma::Coreano => "현재 · 유지"@,
        Idioma::Kurdo => "Niha · Ketî"@,
        Idioma::Neerlandes => "Huidig · Behouden"@,
        Idioma::NoruegoNynorsk => "Gjeldende · Beholdt"@,
        Idioma::Polaco => "Aktualny · Zachowany"@,
        Idioma::PortuguesBrasil => "Atual · Mantido"@,
        Idioma::Ruso => "Текущий · Сохранено"@,
        Idioma::Sueco => "Aktuell · Bevarad"@,
        Idioma::Turco => "Güncel · Tutulan"@,
        Idioma::Ucraniano => "Поточний · Зберігається"@,
        Idioma::Vietnamita => "Hiện tại · Giữ"@,
        Idioma::ChinoSimplificado => "当前 · 保留"@,
    }
}

pub fn etiqueta_actual(idioma: Idioma) -> (r: &'static str)
    ensures
        r@ == etiqueta_actual_spec(idioma),
{
    match idioma {
        Idioma::BelarusLatino => "Bjahučy · Zachavany",
        Idioma::Belarus => "Актуальны · Захаваны",
        Idioma::Catalan => "Actual · Mantingut",
        Idioma::Checo => "Aktuální · Zachováno",
        Idioma::Aleman => "Aktuell · Behalten",
        Idioma::Ingles => "Current · Kept",
        Idioma::Espanol => "Actual · Conservada",
        Idioma::Frances => "Actuel · Conservé",
        Idioma::Gallego => "Actual · Mantívose",
        Idioma::Hungaro => "Jelenlegi · Megtartva",
        Idioma::Italiano => "Attuale · Mantenuto",
        Idioma::Coreano => "현재 · 유지",
        Idioma::Kurdo => "Niha · Ketî",
        Idioma::Neerlandes => "Huidig · Behouden",
        Idioma::NoruegoNynorsk => "Gjeldende · Beholdt",
        Idioma::Polaco => "Aktualny · Zachowany",
        Idioma::PortuguesBrasil => "Atual · Mantido",
        Idioma::Ruso => "Текущий · Сохранено",
        Idioma::Sueco => "Aktuell · Bevarad",
        Idioma::Turco => "Güncel · Tutulan",
        Idioma::Ucraniano => "Поточний · Зберігається",
        Idioma::Vietnamita => "Hiện tại · Giữ",
        Idioma::ChinoSimplificado => "当前 · 保留",
    }
}

/// The label of the default start entry.
pub open spec fn etiqueta_inicio_spec(idioma: Idioma) -> Seq<char> {
    match idioma {
        Idioma::BelarusLatino => "Zapusk"@,
        Idioma::Belarus | Idioma::Ruso | Idioma::Ucraniano => "Запуск"@,
        Idioma::Catalan => "Inici"@,
        Idioma::Checo => "Spuštění"@,
        Idioma::Aleman | Idioma::Sueco => "Start"@,
        Idioma::Ingles => "Startup"@,
        Idioma::Espanol | Idioma::Gallego => "Inicio"@,
        Idioma::Frances => "Démarrage"@,
        Idioma::Hungaro => "Indítás"@,
        Idioma::Italiano => "Avvio"@,
        Idioma::Coreano => "시작"@,
        Idioma::Kurdo => "Destpêk"@,
        Idioma::Neerlandes => "Opstarten"@,
        Idioma::NoruegoNynorsk => "Oppstart"@,
        Idioma::Polaco => "Uruchamianie"@,
        Idioma::PortuguesBrasil => "Inicialização"@,
        Idioma::Turco => "Başlangıç"@,
        Idioma::Vietnamita => "Khởi động"@,
        Idioma::ChinoSimplificado => "启动"@,
    }
}

pub fn etiqueta_inicio(idioma: Idioma) -> (r: &'static str)
    ensures
        r@ == etiqueta_inicio_spec(idioma),
{
    match idioma {
        Idioma::BelarusLatino => "Zapusk",
        Idioma::Belarus | Idioma::Ruso | Idioma::Ucraniano => "Запуск",
        Idioma::Catalan => "Inici",
        Idioma::Checo => "Spuštění",
        Idioma::Aleman | Idioma::Sueco => "Start",
        Idioma::Ingles => "Startup",
        Idioma::Espanol | Idioma::Gallego => "Inicio",
        Idioma::Frances => "Démarrage",
        Idioma::Hungaro => "Indítás",
        Idioma::Italiano => "Avvio",
        Idioma::Coreano => "시작",
        Idioma::Kurdo => "Destpêk",
        Idioma::Neerlandes => "Opstarten",
        Idioma::NoruegoNynorsk => "Oppstart",
        Idioma::Polaco => "Uruchamianie",
        Idioma::PortuguesBrasil => "Inicialização",
        Idioma::Turco => "Başlangıç",
        Idioma::Vietnamita => "Khởi động",
        Idioma::ChinoSimplificado => "启动",
    }
}

/// The label of the previous version.
pub open spec fn etiqueta_anterior_spec(idioma: Idioma) -> Seq<char> {
    match idioma {
        Idioma::BelarusLatino => "Papjaredni"@,
        Idioma::Belarus => "Папярэдняя"@,
        Idioma::Catalan | Idioma::Espanol | Idioma::Gallego | Idioma::PortuguesBrasil => "Anterior"@,
        Idioma::Checo => "Předchozí"@,
        Idioma::Aleman => "Zurück"@,
        Idioma::Ingles => "Previous"@,
        Idioma::Frances => "Précédent"@,
        Idioma::Hungaro => "Előző"@,
        Idioma::Italiano => "Precedente"@,
        Idioma::Coreano => "이전"@,
        Idioma::Kurdo => "Berê"@,
        Idioma::Neerlandes => "Vorige"@,
        Idioma::NoruegoNynorsk => "Forrige"@,
        Idioma::Polaco => "Poprzedni"@,
        Idioma::Ruso => "Предыдущий"@,
        Idioma::Sueco => "Föregående"@,
        Idioma::Turco => "Önceki"@,
        Idioma::Ucraniano => "Попередній"@,
        Idioma::Vietnamita => "Trước"@,
        Idioma::ChinoSimplificado => "上一页"@,
    }
}

pub fn etiqueta_anterior(idioma: Idioma) -> (r: &'static str)
    ensures
        r@ == etiqueta_anterior_spec(idioma),
{
    match idioma {
        Idioma::BelarusLatino => "Papjaredni",
        Idioma::Belarus => "Папярэдняя",
        Idioma::Catalan | Idioma::Espanol | Idioma::Gallego | Idioma::PortuguesBrasil => "Anterior",
        Idioma::Checo => "Předchozí",
        Idioma::Aleman => "Zurück",
        Idioma::Ingles => "Previous",
        Idioma::Frances => "Précédent",
        Idioma::Hungaro => "Előző",
        Idioma::Italiano => "Precedente",
        Idioma::Coreano => "이전",
        Idioma::Kurdo => "Berê",
        Idioma::Neerlandes => "Vorige",
        Idioma::NoruegoNynorsk => "Forrige",
        Idioma::Polaco => "Poprzedni",
        Idioma::Ruso => "Предыдущий",
        Idioma::Sueco => "Föregående",
        Idioma::Turco => "Önceki",
        Idioma::Ucraniano => "Попередній",
        Idioma::Vietnamita => "Trước",
        Idioma::ChinoSimplificado => "上一页",
    }
}

/// The label of an older version; `{n}` is how many versions back it is.
pub open spec fn plantilla_anteriores_spec(idioma: Idioma) -> Seq<char> {
    match idioma {
        Idioma::BelarusLatino => "{n} nazad"@,
        Idioma::Belarus | Idioma::Ruso | Idioma::Ucraniano => "{n} назад"@,
        Idioma::Catalan => "{n} tornar"@,
        Idioma::Checo => "{n} zpět"@,
        Idioma::Aleman => "{n} zurück"@,
        Idioma::Ingles => "{n} back"@,
        Idioma::Espanol | Idioma::Gallego => "{n} atrás"@,
        Idioma::Frances => "{n} retour"@,
        Idioma::Hungaro => "{n} vissza"@,
        Idioma::Italiano => "{n} indietro"@,
        Idioma::Coreano => "{n} 뒤로"@,
        Idioma::Kurdo => "{n} paş"@,
        Idioma::Neerlandes => "{n} terug"@,
        Idioma::NoruegoNynorsk => "{n} tilbake"@,
        Idioma::Polaco => "{n} z powrotem"@,
        Idioma::PortuguesBrasil => "{n} voltar"@,
        Idioma::Sueco => "{n} tillbaka"@,
        Idioma::Turco => "{n} geri"@,
        Idioma::Vietnamita => "{n} quay lại"@,
        Idioma::ChinoSimplificado => "{n} 返回"@,
    }
}

pub fn plantilla_anteriores(idioma: Idioma) -> (r: &'static str)
    ensures
        r@ == plantilla_anteriores_spec(idioma),
{
    match idioma {
        Idioma::BelarusLatino => "{n} nazad",
        Idioma::Belarus | Idioma::Ruso | Idioma::Ucraniano => "{n} назад",
        Idioma::Catalan => "{n} tornar",
        Idioma::Checo => "{n} zpět",
        Idioma::Aleman => "{n} zurück",
        Idioma::Ingles => "{n} back",
        Idioma::Espanol | Idioma::Gallego => "{n} atrás",
        Idioma::Frances => "{n} retour",
        Idioma::Hungaro => "{n} vissza",
        Idioma::Italiano => "{n} indietro",
        Idioma::Coreano => "{n} 뒤로",
        Idioma::Kurdo => "{n} paş",
        Idioma::Neerlandes => "{n} terug",
        Idioma::NoruegoNynorsk => "{n} tilbake",
        Idioma::Polaco => "{n} z powrotem",
        Idioma::PortuguesBrasil => "{n} voltar",
        Idioma::Sueco => "{n} tillbaka",
        Idioma::Turco => "{n} geri",
        Idioma::Vietnamita => "{n} quay lại",
        Idioma::ChinoSimplificado => "{n} 返回",
    }
}

/// A label of a version that is kept; `{base}` is the version.
pub open spec fn plantilla_conservada_spec(idioma: Idioma) -> Seq<char> {
    match idioma {
        Idioma::BelarusLatino => "{base} · Zachavana"@,
        Idioma::Belarus => "{base} · Захавана"@,
        Idioma::Catalan => "{base} · Mantingut"@,
        Idioma::Checo => "{base} · Zachováno"@,
        Idioma::Aleman => "{base} · Behalten"@,
        Idioma::Ingles => "{base} · Kept"@,
        Idioma::Espanol => "{base} · Conservada"@,
        Idioma::Frances => "{base} · Conservé"@,
        Idioma::Gallego => "{base} · Mantívose"@,
        Idioma::Hungaro => "{base} · Megtartva"@,
        Idioma::Italiano => "{base} · Mantenuto"@,
        Idioma::Coreano => "{base} · 유지됨"@,
        Idioma::Kurdo => "{base} · Parastiye"@,
        Idioma::Neerlandes => "{base} · Behouden"@,
        Idioma::NoruegoNynorsk => "{base} · Beholdt"@,
        Idioma::Polaco => "{base} · Zachowane"@,
        Idioma::PortuguesBrasil => "{base} · Mantido"@,
        Idioma::Ruso => "{base} · Сохранено"@,
        Idioma::Sueco => "{base} · Behålls"@,
        Idioma::Turco => "{base} · Tutuldu"@,
        Idioma::Ucraniano => "{base} · Збережено"@,
        Idioma::Vietnamita => "{base} · Được giữ"@,
        Idioma::ChinoSimplificado => "{base} · 保留"@,
    }
}

pub fn plantilla_conservada(idioma: Idioma) -> (r: &'static str)
    ensures
        r@ == plantilla_conservada_spec(idioma),
{
    match idioma {
        Idioma::BelarusLatino => "{base} · Zachavana",
        Idioma::Belarus => "{base} · Захавана",
        Idioma::Catalan => "{base} · Mantingut",
        Idioma::Checo => "{base} · Zachováno",
        Idioma::Aleman => "{base} · Behalten",
        Idioma::Ingles => "{base} · Kept",
        Idioma::Espanol => "{base} · Conservada",
        Idioma::Frances => "{base} · Conservé",
        Idioma::Gallego => "{base} · Mantívose",
        Idioma::Hungaro => "{base} · Megtartva",
        Idioma::Italiano => "{base} · Mantenuto",
        Idioma::Coreano => "{base} · 유지됨",
        Idioma::Kurdo => "{base} · Parastiye",
        Idioma::Neerlandes => "{base} · Behouden",
        Idioma::NoruegoNynorsk => "{base} · Beholdt",
        Idioma::Polaco => "{base} · Zachowane",
        Idioma::PortuguesBrasil => "{base} · Mantido",
        Idioma::Ruso => "{base} · Сохранено",
        Idioma::Sueco => "{base} · Behålls",
        Idioma::Turco => "{base} · Tutuldu",
        Idioma::Ucraniano => "{base} · Збережено",
        Idioma::Vietnamita => "{base} · Được giữ",
        Idioma::ChinoSimplificado => "{base} · 保留",
    }
}

/// A label of a version that is removed; `{base}` is the version.
pub open spec fn plantilla_eliminada_spec(idioma: Idioma) -> Seq<char> {
    match idioma {
        Idioma::BelarusLatino => "{base} · Vydałjena"@,
        Idioma::Belarus => "{base} · Выдалена"@,
        Idioma::Catalan => "{base} · Eliminat"@,
        Idioma::Checo => "{base} · Odebráno"@,
        Idioma::Aleman => "{base} · Entfernt"@,
        Idioma::Ingles => "{base} · Removed"@,
        Idioma::Espanol => "{base} · Se elimina"@,
        Idioma::Frances => "{base} · Supprimé"@,
        Idioma::Gallego => "{base} · Eliminado"@,
        Idioma::Hungaro => "{base} · Törlődik"@,
        Idioma::Italiano => "{base} · Rimosso"@,
        Idioma::Coreano => "{base} · 삭제됨"@,
        Idioma::Kurdo => "{base} · Rakir"@,
        Idioma::Neerlandes => "{base} · Verwijderd"@,
        Idioma::NoruegoNynorsk => "{base} · Fjernet"@,
        Idioma::Polaco => "{base} · Usunięto"@,
        Idioma::PortuguesBrasil => "{base} · Removido"@,
        Idioma::Ruso => "{base} · Удален"@,
        Idioma::Sueco => "{base} · Borttagen"@,
        Idioma::Turco => "{base} · Kaldırıldı"@,
        Idioma::Ucraniano => "{base} · Видалено"@,
        Idioma::Vietnamita => "{base} · Đã xóa"@,
        Idioma::ChinoSimplificado => "{base} · 已删除"@,
    }
}

pub fn plantilla_eliminada(idioma: Idioma) -> (r: &'static str)
    ensures
        r@ == plantilla_eliminada_spec(idioma),
{
    match idioma {
        Idioma::BelarusLatino => "{base} · Vydałjena",
        Idioma::Belarus => "{base} · Выдалена",
        Idioma::Catalan => "{base} · Eliminat",
        Idioma::Checo => "{base} · Odebráno",
        Idioma::Aleman => "{base} · Entfernt",
        Idioma::Ingles => "{base} · Removed",
        Idioma::Espanol => "{base} · Se elimina",
        Idioma::Frances => "{base} · Supprimé",
        Idioma::Gallego => "{base} · Eliminado",
        Idioma::Hungaro => "{base} · Törlődik",
        Idioma::Italiano => "{base} · Rimosso",
        Idioma::Coreano => "{base} · 삭제됨",
        Idioma::Kurdo => "{base} · Rakir",
        Idioma::Neerlandes => "{base} · Verwijderd",
        Idioma::NoruegoNynorsk => "{base} · Fjernet",
        Idioma::Polaco => "{base} · Usunięto",
        Idioma::PortuguesBrasil => "{base} · Removido",
        Idioma::Ruso => "{base} · Удален",
        Idioma::Sueco => "{base} · Borttagen",
        Idioma::Turco => "{base} · Kaldırıldı",
        Idioma::Ucraniano => "{base} · Видалено",
        Idioma::Vietnamita => "{base} · Đã xóa",
        Idioma::ChinoSimplificado => "{base} · 已删除",
    }
}

} // verus!
