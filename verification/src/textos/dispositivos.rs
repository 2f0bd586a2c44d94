//! The wording of sound devices and cameras on the media page, in every language.

use vstd::prelude::*;
use crate::idioma::Idioma;

verus! {

/// The subtitle of the default sound output or input.
pub open spec fn nodo_predeterminado_spec(idioma: Idioma) -> Seq<char> {
    match idioma {
        Idioma::BelarusLatino => "Pa zmaŭčanni · Ab'jom"@,
        Idioma::Belarus => "Па змаўчанні · Аб'ём"@,
        Idioma::Catalan => "Per defecte · Volum"@,
        Idioma::Checo => "Výchozí · Hlasitost"@,
        Idioma::Aleman => "Standard · Lautstärke"@,
        Idioma::Ingles => "Default · Volume"@,
        Idioma::Espanol => "Predeterminado · Volumen"@,
        Idioma::Frances => "Par défaut · Volume"@,
        Idioma::Gallego => "Predeterminado · Volume"@,
        Idioma::Hungaro => "Alapértelmezett · Hangerő"@,
        Idioma::Italiano => "Predefinito · Volume"@,
        Idioma::Coreano => "기본값 · 볼륨"@,
        Idioma::Kurdo => "Bingehîn · Volume"@,
        Idioma::Neerlandes => "Standaard · Volume"@,
        Idioma::NoruegoNynorsk => "Standard · Volum"@,
        Idioma::Polaco => "Domyślne · Głośność"@,
        Idioma::PortuguesBrasil => "Padrão · Volume"@,
        Idioma::Ruso => "По умолчанию · Объем"@,
        Idioma::Sueco => "Standard · Volym"@,
        Idioma::Turco => "Varsayılan · Hacim"@,
        Idioma::Ucraniano => "За замовчуванням · Гучність"@,
        Idioma::Vietnamita => "Mặc định · Âm lượng"@,
        Idioma::ChinoSimplificado => "默认·音量"@,
    }
}

pub fn nodo_predeterminado(idioma: Idioma) -> (r: &'static str)
    ensures
        r@ == nodo_predeterminado_spec(idioma),
{
    match idioma {
        Idioma::BelarusLatino => "Pa zmaŭčanni · Ab'jom",
        Idioma::Belarus => "Па змаўчанні · Аб'ём",
        Idioma::Catalan => "Per defecte · Volum",
        Idioma::Checo => "Výchozí · Hlasitost",
        Idioma::Aleman => "Standard · Lautstärke",
        Idioma::Ingles => "Default · Volume",
        Idioma::Espanol => "Predeterminado · Volumen",
        Idioma::Frances => "Par défaut · Volume",
        Idioma::Gallego => "Predeterminado · Volume",
        Idioma::Hungaro => "Alapértelmezett · Hangerő",
        Idioma::Italiano => "Predefinito · Volume",
        Idioma::Coreano => "기본값 · 볼륨",
        Idioma::Kurdo => "Bingehîn · Volume",
        Idioma::Neerlandes => "Standaard · Volume",
        Idioma::NoruegoNynorsk => "Standard · Volum",
        Idioma::Polaco => "Domyślne · Głośność",
        Idioma::PortuguesBrasil => "Padrão · Volume",
        Idioma::Ruso => "По умолчанию · Объем",
        Idioma::Sueco => "Standard · Volym",
        Idioma::Turco => "Varsayılan · Hacim",
        Idioma::Ucraniano => "За замовчуванням · Гучність",
        Idioma::Vietnamita => "Mặc định · Âm lượng",
        Idioma::ChinoSimplificado => "默认·音量",
    }
}

/// A virtual camera that has a video source.
pub open spec fn camara_virtual_disponible_spec(idioma: Idioma) -> Seq<char> {
    match idioma {
        Idioma::BelarusLatino => "Virtuałny · Dastupny"@,
        Idioma::Belarus => "Віртуальны · Даступны"@,
        Idioma::Catalan | Idioma::Espanol => "Virtual · Disponible"@,
        Idioma::Checo => "Virtuální · Dostupné"@,
        Idioma::Aleman => "Virtuell · Verfügbar"@,
        Idioma::Ingles => "Virtual · Available"@,
        Idioma::Frances => "Virtuel · Disponible"@,
        Idioma::Gallego => "Virtual · Dispoñible"@,
        Idioma::Hungaro => "Virtuális · Elérhető"@,
        Idioma::Italiano => "Virtuale · Disponibile"@,
        Idioma::Coreano => "가상 · 사용 가능"@,
        Idioma::Kurdo => "Virtual · Berdest"@,
        Idioma::Neerlandes => "Virtueel · Beschikbaar"@,
        Idioma::NoruegoNynorsk => "Virtuelt · Tilgjengelig"@,
        Idioma::Polaco => "Wirtualny · Dostępny"@,
        Idioma::PortuguesBrasil => "Virtual · Disponível"@,
        Idioma::Ruso => "Виртуальный · Доступный"@,
        Idioma::Sueco => "Virtuell · Tillgänglig"@,
        Idioma::Turco => "Sanal · Mevcut"@,
        Idioma::Ucraniano => "Віртуальний · Доступний"@,
        Idioma::Vietnamita => "Ảo · Có sẵn"@,
        Idioma::ChinoSimplificado => "虚拟 · 可用"@,
    }
}

pub fn camara_virtual_disponible(idioma: Idioma) -> (r: &'static str)
    ensures
        r@ == camara_virtual_disponible_spec(idioma),
{
    match idioma {
        Idioma::BelarusLatino => "Virtuałny · Dastupny",
        Idioma::Belarus => "Віртуальны · Даступны",
        Idioma::Catalan | Idioma::Espanol => "Virtual · Disponible",
        Idioma::Checo => "Virtuální · Dostupné",
        Idioma::Aleman => "Virtuell · Verfügbar",
        Idioma::Ingles => "Virtual · Available",
        Idioma::Frances => "Virtuel · Disponible",
        Idioma::Gallego => "Virtual · Dispoñible",
        Idioma::Hungaro => "Virtuális · Elérhető",
        Idioma::Italiano => "Virtuale · Disponibile",
        Idioma::Coreano => "가상 · 사용 가능",
        Idioma::Kurdo => "Virtual · Berdest",
        Idioma::Neerlandes => "Virtueel · Beschikbaar",
        Idioma::NoruegoNynorsk => "Virtuelt · Tilgjengelig",
        Idioma::Polaco => "Wirtualny · Dostępny",
        Idioma::PortuguesBrasil => "Virtual · Disponível",
        Idioma::Ruso => "Виртуальный · Доступный",
        Idioma::Sueco => "Virtuell · Tillgänglig",
        Idioma::Turco => "Sanal · Mevcut",
        Idioma::Ucraniano => "Віртуальний · Доступний",
        Idioma::Vietnamita => "Ảo · Có sẵn",
        Idioma::ChinoSimplificado => "虚拟 · 可用",
    }
}

/// A virtual camera that waits for a video source.
pub open spec fn camara_virtual_esperando_spec(idioma: Idioma) -> Seq<char> {
    match idioma {
        Idioma::BelarusLatino => "Virtuałny · Čakannje krynicy videa"@,
        Idioma::Belarus => "Віртуальны · Чаканне крыніцы відэа"@,
        Idioma::Catalan => "Virtual · Esperant una font de vídeo"@,
        Idioma::Checo => "Virtuální · Čekání na zdroj videa"@,
        Idioma::Aleman => "Virtuell · Warten auf eine Videoquelle"@,
        Idioma::Ingles => "Virtual · Waiting for a video source"@,
        Idioma::Espanol => "Virtual · Esperando una fuente de vídeo"@,
        Idioma::Frances => "Virtuel · En attente d'une source vidéo"@,
        Idioma::Gallego => "Virtual · Agardando por unha fonte de vídeo"@,
        Idioma::Hungaro => "Virtuális · Videóforrásra vár"@,
        Idioma::Italiano => "Virtuale · In attesa di una sorgente video"@,
        Idioma::Coreano => "가상 · 비디오 소스를 기다리는 중"@,
        Idioma::Kurdo => "Virtual · Li benda çavkaniyek vîdyoyê ne"@,
        Idioma::Neerlandes => "Virtueel · Wachten op een videobron"@,
        Idioma::NoruegoNynorsk => "Virtual · Venter på en videokilde"@,
        Idioma::Polaco => "Wirtualny · Oczekiwanie na źródło wideo"@,
        Idioma::PortuguesBrasil => "Virtual · Aguardando uma fonte de vídeo"@,
        Idioma::Ruso => "Виртуальный · Ожидание источника видео"@,
        Idioma::Sueco => "Virtuell · Väntar på en videokälla"@,
        Idioma::Turco => "Sanal · Bir video kaynağı bekleniyor"@,
        Idioma::Ucraniano => "Віртуальний · Очікування джерела відео"@,
        Idioma::Vietnamita => "Ảo · Đang chờ nguồn video"@,
        Idioma::ChinoSimplificado => "虚拟·等待视频源"@,
    }
}

pub fn camara_virtual_esperando(idioma: Idioma) -> (r: &'static str)
    ensures
        r@ == camara_virtual_esperando_spec(idioma),
{
    match idioma {
        Idioma::BelarusLatino => "Virtuałny · Čakannje krynicy videa",
        Idioma::Belarus => "Віртуальны · Чаканне крыніцы відэа",
        Idioma::Catalan => "Virtual · Esperant una font de vídeo",
        Idioma::Checo => "Virtuální · Čekání na zdroj videa",
        Idioma::Aleman => "Virtuell · Warten auf eine Videoquelle",
        Idioma::Ingles => "Virtual · Waiting for a video source",
        Idioma::Espanol => "Virtual · Esperando una fuente de vídeo",
        Idioma::Frances => "Virtuel · En attente d'une source vidéo",
        Idioma::Gallego => "Virtual · Agardando por unha fonte de vídeo",
        Idioma::Hungaro => "Virtuális · Videóforrásra vár",
        Idioma::Italiano => "Virtuale · In attesa di una sorgente video",
        Idioma::Coreano => "가상 · 비디오 소스를 기다리는 중",
        Idioma::Kurdo => "Virtual · Li benda çavkaniyek vîdyoyê ne",
        Idioma::Neerlandes => "Virtueel · Wachten op een videobron",
        Idioma::NoruegoNynorsk => "Virtual · Venter på en videokilde",
        Idioma::Polaco => "Wirtualny · Oczekiwanie na źródło wideo",
        Idioma::PortuguesBrasil => "Virtual · Aguardando uma fonte de vídeo",
        Idioma::Ruso => "Виртуальный · Ожидание источника видео",
        Idioma::Sueco => "Virtuell · Väntar på en videokälla",
        Idioma::Turco => "Sanal · Bir video kaynağı bekleniyor",
        Idioma::Ucraniano => "Віртуальний · Очікування джерела відео",
        Idioma::Vietnamita => "Ảo · Đang chờ nguồn video",
        Idioma::ChinoSimplificado => "虚拟·等待视频源",
    }
}

/// A USB camera that is available.
pub open spec fn camara_usb_disponible_spec(idioma: Idioma) -> Seq<char> {
    match idioma {
        Idioma::BelarusLatino => "USB · Dastupny"@,
        Idioma::Belarus => "USB · Даступны"@,
        Idioma::Catalan | Idioma::Espanol | Idioma::Frances => "USB · Disponible"@,
        Idioma::Checo => "USB · K dispozici"@,
        Idioma::Aleman => "USB · Verfügbar"@,
        Idioma::Ingles => "USB · Available"@,
        Idioma::Gallego => "USB · Dispoñible"@,
        Idioma::Hungaro => "USB · Elérhető"@,
        Idioma::Italiano => "USB · Disponibile"@,
        Idioma::Coreano => "USB · 사용 가능"@,
        Idioma::Kurdo => "USB · Berdest e"@,
        Idioma::Neerlandes => "USB · Beschikbaar"@,
        Idioma::NoruegoNynorsk => "USB · Tilgjengelig"@,
        Idioma::Polaco => "USB · Dostępne"@,
        Idioma::PortuguesBrasil => "USB · Disponível"@,
        Idioma::Ruso => "USB · Доступен"@,
        Idioma::Sueco => "USB · Tillgänglig"@,
        Idioma::Turco => "USB · Mevcut"@,
        Idioma::Ucraniano => "USB · Є"@,
        Idioma::Vietnamita => "USB · Có sẵn"@,
        Idioma::ChinoSimplificado => "USB·可用"@,
    }
}

pub fn camara_usb_disponible(idioma: Idioma) -> (r: &'static str)
    ensures
        r@ == camara_usb_disponible_spec(idioma),
{
    match idioma {
        Idioma::BelarusLatino => "USB · Dastupny",
        Idioma::Belarus => "USB · Даступны",
        Idioma::Catalan | Idioma::Espanol | Idioma::Frances => "USB · Disponible",
        Idioma::Checo => "USB · K dispozici",
        Idioma::Aleman => "USB · Verfügbar",
        Idioma::Ingles => "USB · Available",
        Idioma::Gallego => "USB · Dispoñible",
        Idioma::Hungaro => "USB · Elérhető",
        Idioma::Italiano => "USB · Disponibile",
        Idioma::Coreano => "USB · 사용 가능",
        Idioma::Kurdo => "USB · Berdest e",
        Idioma::Neerlandes => "USB · Beschikbaar",
        Idioma::NoruegoNynorsk => "USB · Tilgjengelig",
        Idioma::Polaco => "USB · Dostępne",
        Idioma::PortuguesBrasil => "USB · Disponível",
        Idioma::Ruso => "USB · Доступен",
        Idioma::Sueco => "USB · Tillgänglig",
        Idioma::Turco => "USB · Mevcut",
        Idioma::Ucraniano => "USB · Є",
        Idioma::Vietnamita => "USB · Có sẵn",
        Idioma::ChinoSimplificado => "USB·可用",
    }
}

/// A built-in camera that is available.
pub open spec fn camara_disponible_spec(idioma: Idioma) -> Seq<char> {
    match idioma {
        Idioma::BelarusLatino => "Dastupny"@,
        Idioma::Belarus => "Даступна"@,
        Idioma::Catalan | Idioma::Espanol | Idioma::Frances => "Disponible"@,
        Idioma::Checo => "Dostupná"@,
        Idioma::Aleman => "Verfügbar"@,
        Idioma::Ingles => "Available"@,
        Idioma::Gallego => "Dispoñible"@,
        Idioma::Hungaro => "Elérhető"@,
        Idioma::Italiano => "Disponibili"@,
        Idioma::Coreano => "사용 가능"@,
        Idioma::Kurdo => "Heyî"@,
        Idioma::Neerlandes => "Beschikbaar"@,
        Idioma::NoruegoNynorsk => "Tilgjengeleg(e)"@,
        Idioma::Polaco => "Dostępne"@,
        Idioma::PortuguesBrasil => "Disponível"@,
        Idioma::Ruso => "Доступные"@,
        Idioma::Sueco => "Tillgänglig"@,
        Idioma::Turco => "Kullanılabilir"@,
        Idioma::Ucraniano => "Доступні пристрої"@,
        Idioma::Vietnamita => "Khả dụng"@,
        Idioma::ChinoSimplificado => "可用设备"@,
    }
}

pub fn camara_disponible(idioma: Idioma) -> (r: &'static str)
    ensures
        r@ == camara_disponible_spec(idioma),
{
    match idioma {
        Idioma::BelarusLatino => "Dastupny",
        Idioma::Belarus => "Даступна",
        Idioma::Catalan | Idioma::Espanol | Idioma::Frances => "Disponible",
        Idioma::Checo => "Dostupná",
        Idioma::Aleman => "Verfügbar",
        Idioma::Ingles => "Available",
        Idioma::Gallego => "Dispoñible",
        Idioma::Hungaro => "Elérhető",
        Idioma::Italiano => "Disponibili",
        Idioma::Coreano => "사용 가능",
        Idioma::Kurdo => "Heyî",
        Idioma::Neerlandes => "Beschikbaar",
        Idioma::NoruegoNynorsk => "Tilgjengeleg(e)",
        Idioma::Polaco => "Dostępne",
        Idioma::PortuguesBrasil => "Disponível",
        Idioma::Ruso => "Доступные",
        Idioma::Sueco => "Tillgänglig",
        Idioma::Turco => "Kullanılabilir",
        Idioma::Ucraniano => "Доступні пристрої",
        Idioma::Vietnamita => "Khả dụng",
        Idioma::ChinoSimplificado => "可用设备",
    }
}

/// A camera that is not available.
pub open spec fn camara_no_disponible_spec(idioma: Idioma) -> Seq<char> {
    match idioma {
        Idioma::BelarusLatino => "Njedastupny"@,
        Idioma::Belarus => "Недаступна"@,
        Idioma::Catalan | Idioma::Espanol => "No disponible"@,
        Idioma::Checo => "Nedostupné"@,
        Idioma::Aleman => "Nicht verfügbar"@,
        Idioma::Ingles | Idioma::Kurdo => "Unavailable"@,
        Idioma::Frances => "Indisponible"@,
        Idioma::Gallego => "Non dispoñible"@,
        Idioma::Hungaro => "Nem érhető el"@,
        Idioma::Italiano => "Non disponibile"@,
        Idioma::Coreano => "사용 불가"@,
        Idioma::Neerlandes => "Niet beschikbaar"@,
        Idioma::NoruegoNynorsk => "Utilgjengeleg"@,
        Idioma::Polaco => "Niedostępne"@,
        Idioma::PortuguesBrasil => "Indisponível"@,
        Idioma::Ruso | Idioma::Ucraniano => "Недоступно"@,
        Idioma::Sueco => "Otillgänglig"@,
        Idioma::Turco => "Mevcut değil"@,
        Idioma::Vietnamita => "Không khả dụng"@,
        Idioma::ChinoSimplificado => "不可用"@,
    }
}

pub fn camara_no_disponible(idioma: Idioma) -> (r: &'static str)
    ensures
        r@ == camara_no_disponible_spec(idioma),
{
    match idioma {
        Idioma::BelarusLatino => "Njedastupny",
        Idioma::Belarus => "Недаступна",
        Idioma::Catalan | Idioma::Espanol => "No disponible",
        Idioma::Checo => "Nedostupné",
        Idioma::Aleman => "Nicht verfügbar",
        Idioma::Ingles | Idioma::Kurdo => "Unavailable",
        Idioma::Frances => "Indisponible",
        Idioma::Gallego => "Non dispoñible",
        Idioma::Hungaro => "Nem érhető el",
        Idioma::Italiano => "Non disponibile",
        Idioma::Coreano => "사용 불가",
        Idioma::Neerlandes => "Niet beschikbaar",
        Idioma::NoruegoNynorsk => "Utilgjengeleg",
        Idioma::Polaco => "Niedostępne",
        Idioma::PortuguesBrasil => "Indisponível",
        Idioma::Ruso | Idioma::Ucraniano => "Недоступно",
        Idioma::Sueco => "Otillgänglig",
        Idioma::Turco => "Mevcut değil",
        Idioma::Vietnamita => "Không khả dụng",
        Idioma::ChinoSimplificado => "不可用",
    }
}

/// The mode that the camera test uses.
pub open spec fn prueba_camara_modo_spec(idioma: Idioma) -> Seq<char> {
    match idioma {
        Idioma::BelarusLatino => "Test: 640×360 · aŭtamatyčny FPS"@,
        Idioma::Belarus => "Тэст: 640×360 · аўтаматычны FPS"@,
        Idioma::Catalan => "Prova: 640×360 · FPS automàtic"@,
        Idioma::Checo => "Test: 640×360 · automatické FPS"@,
        Idioma::Aleman | Idioma::Neerlandes => "Test: 640×360 · automatische FPS"@,
        Idioma::Ingles => "Test: 640×360 · automatic FPS"@,
        Idioma::Espanol => "Prueba: 640×360 · FPS automático"@,
        Idioma::Frances => "Test : 640×360 · FPS automatique"@,
        Idioma::Gallego => "Proba: 640×360 · FPS automático"@,
        Idioma::Hungaro => "Próba: 640×360 · automatikus FPS"@,
        Idioma::Italiano => "Test: 640×360 · FPS automatico"@,
        Idioma::Coreano => "테스트: 640×360 · 자동 FPS"@,
        Idioma::Kurdo => "Test: 640×360 · FPS otomatîk"@,
        Idioma::NoruegoNynorsk | Idioma::Sueco => "Test: 640×360 · automatisk FPS"@,
        Idioma::Polaco => "Test: 640×360 · automatyczny FPS"@,
        Idioma::PortuguesBrasil => "Teste: 640×360 · FPS automático"@,
        Idioma::Ruso => "Тест: 640×360 · автоматический FPS"@,
        Idioma::Turco => "Test: 640×360 · otomatik FPS"@,
        Idioma::Ucraniano => "Тест: 640×360 · автоматичний FPS"@,
        Idioma::Vietnamita => "Kiểm tra: 640×360 · FPS tự động"@,
        Idioma::ChinoSimplificado => "测试：640×360·自动FPS"@,
    }
}

pub fn prueba_camara_modo(idioma: Idioma) -> (r: &'static str)
    ensures
        r@ == prueba_camara_modo_spec(idioma),
{
    match idioma {
        Idioma::BelarusLatino => "Test: 640×360 · aŭtamatyčny FPS",
        Idioma::Belarus => "Тэст: 640×360 · аўтаматычны FPS",
        Idioma::Catalan => "Prova: 640×360 · FPS automàtic",
        Idioma::Checo => "Test: 640×360 · automatické FPS",
        Idioma::Aleman | Idioma::Neerlandes => "Test: 640×360 · automatische FPS",
        Idioma::Ingles => "Test: 640×360 · automatic FPS",
        Idioma::Espanol => "Prueba: 640×360 · FPS automático",
        Idioma::Frances => "Test : 640×360 · FPS automatique",
        Idioma::Gallego => "Proba: 640×360 · FPS automático",
        Idioma::Hungaro => "Próba: 640×360 · automatikus FPS",
        Idioma::Italiano => "Test: 640×360 · FPS automatico",
        Idioma::Coreano => "테스트: 640×360 · 자동 FPS",
        Idioma::Kurdo => "Test: 640×360 · FPS otomatîk",
        Idioma::NoruegoNynorsk | Idioma::Sueco => "Test: 640×360 · automatisk FPS",
        Idioma::Polaco => "Test: 640×360 · automatyczny FPS",
        Idioma::PortuguesBrasil => "Teste: 640×360 · FPS automático",
        Idioma::Ruso => "Тест: 640×360 · автоматический FPS",
        Idioma::Turco => "Test: 640×360 · otomatik FPS",
        Idioma::Ucraniano => "Тест: 640×360 · автоматичний FPS",
        Idioma::Vietnamita => "Kiểm tra: 640×360 · FPS tự động",
        Idioma::ChinoSimplificado => "测试：640×360·自动FPS",
    }
}

/// The camera test while the camera waits for a video source.
pub open spec fn prueba_camara_esperando_spec(idioma: Idioma) -> Seq<char> {
    match idioma {
        Idioma::BelarusLatino => "Čakannje krynicy videa. Test stanje dastupnym aŭtamatyčna."@,
        Idioma::Belarus => "Чаканне крыніцы відэа. Тэст стане даступным аўтаматычна."@,
        Idioma::Catalan => "Esperant una font de vídeo. La prova estarà disponible automàticament."@,
        Idioma::Checo => "Čekání na zdroj videa. Test bude k dispozici automaticky."@,
        Idioma::Aleman => "Warten auf eine Videoquelle. Der Test wird automatisch verfügbar sein."@,
        Idioma::Ingles => "Waiting for a video source. The test will become available automatically."@,
        Idioma::Espanol => "Esperando una fuente de vídeo. La prueba se habilitará automáticamente."@,
        Idioma::Frances => "En attente d'une source vidéo. Le test deviendra disponible automatiquement."@,
        Idioma::Gallego => "Agardando por unha fonte de vídeo. A proba estará dispoñible automaticamente."@,
        Idioma::Hungaro => "Videóforrásra vár. A próba automatikusan elérhetővé válik."@,
        Idioma::Italiano => "In attesa di una sorgente video. Il test sarà disponibile automaticamente."@,
        Idioma::Coreano => "비디오 소스를 기다리고 있습니다. 테스트가 자동으로 제공됩니다."@,
        Idioma::Kurdo => "Li benda çavkaniyek vîdyoyê ne. Test dê bixweber peyda bibe."@,
        Idioma::Neerlandes => "Wachten op een videobron. De test wordt automatisch beschikbaar."@,
        Idioma::NoruegoNynorsk => "Venter på en videokilde. Testen blir automatisk tilgjengelig."@,
        Idioma::Polaco => "Czekam na źródło wideo. Test będzie dostępny automatycznie."@,
        Idioma::PortuguesBrasil => "Aguardando uma fonte de vídeo. O teste ficará disponível automaticamente."@,
        Idioma::Ruso => "Жду источник видео. Тест станет доступен автоматически."@,
        Idioma::Sueco => "Väntar på en videokälla. Testet blir automatiskt tillgängligt."@,
        Idioma::Turco => "Video kaynağı bekleniyor. Test otomatik olarak kullanılabilir hale gelecektir."@,
        Idioma::Ucraniano => "Очікування джерела відео. Тест стане доступним автоматично."@,
        Idioma::Vietnamita => "Đang chờ nguồn video. Bài kiểm tra sẽ tự động có sẵn."@,
        Idioma::ChinoSimplificado => "等待视频源。测试将自动变为可用。"@,
    }
}

pub fn prueba_camara_esperando(idioma: Idioma) -> (r: &'static str)
    ensures
        r@ == prueba_camara_esperando_spec(idioma),
{
    match idioma {
        Idioma::BelarusLatino => "Čakannje krynicy videa. Test stanje dastupnym aŭtamatyčna.",
        Idioma::Belarus => "Чаканне крыніцы відэа. Тэст стане даступным аўтаматычна.",
        Idioma::Catalan => "Esperant una font de vídeo. La prova estarà disponible automàticament.",
        Idioma::Checo => "Čekání na zdroj videa. Test bude k dispozici automaticky.",
        Idioma::Aleman => "Warten auf eine Videoquelle. Der Test wird automatisch verfügbar sein.",
        Idioma::Ingles => "Waiting for a video source. The test will become available automatically.",
        Idioma::Espanol => "Esperando una fuente de vídeo. La prueba se habilitará automáticamente.",
        Idioma::Frances => "En attente d'une source vidéo. Le test deviendra disponible automatiquement.",
        Idioma::Gallego => "Agardando por unha fonte de vídeo. A proba estará dispoñible automaticamente.",
        Idioma::Hungaro => "Videóforrásra vár. A próba automatikusan elérhetővé válik.",
        Idioma::Italiano => "In attesa di una sorgente video. Il test sarà disponibile automaticamente.",
        Idioma::Coreano => "비디오 소스를 기다리고 있습니다. 테스트가 자동으로 제공됩니다.",
        Idioma::Kurdo => "Li benda çavkaniyek vîdyoyê ne. Test dê bixweber peyda bibe.",
        Idioma::Neerlandes => "Wachten op een videobron. De test wordt automatisch beschikbaar.",
        Idioma::NoruegoNynorsk => "Venter på en videokilde. Testen blir automatisk tilgjengelig.",
        Idioma::Polaco => "Czekam na źródło wideo. Test będzie dostępny automatycznie.",
        Idioma::PortuguesBrasil => "Aguardando uma fonte de vídeo. O teste ficará disponível automaticamente.",
        Idioma::Ruso => "Жду источник видео. Тест станет доступен автоматически.",
        Idioma::Sueco => "Väntar på en videokälla. Testet blir automatiskt tillgängligt.",
        Idioma::Turco => "Video kaynağı bekleniyor. Test otomatik olarak kullanılabilir hale gelecektir.",
        Idioma::Ucraniano => "Очікування джерела відео. Тест стане доступним автоматично.",
        Idioma::Vietnamita => "Đang chờ nguồn video. Bài kiểm tra sẽ tự động có sẵn.",
        Idioma::ChinoSimplificado => "等待视频源。测试将自动变为可用。",
    }
}

/// The label before the list of a camera's modes.
pub open spec fn modos_disponibles_spec(idioma: Idioma) -> Seq<char> {
    match idioma {
        Idioma::BelarusLatino => "Dastupny"@,
        Idioma::Belarus => "Даступна"@,
        Idioma::Catalan | Idioma::Frances => "Disponible"@,
        Idioma::Checo => "Dostupná"@,
        Idioma::Aleman => "Verfügbar"@,
        Idioma::Ingles => "Available"@,
        Idioma::Espanol => "Disponibles"@,
        Idioma::Gallego => "Dispoñible"@,
        Idioma::Hungaro => "Elérhető"@,
        Idioma::Italiano => "Disponibili"@,
        Idioma::Coreano => "사용 가능"@,
        Idioma::Kurdo => "Heyî"@,
        Idioma::Neerlandes => "Beschikbaar"@,
        Idioma::NoruegoNynorsk => "Tilgjengeleg(e)"@,
        Idioma::Polaco => "Dostępne"@,
        Idioma::PortuguesBrasil => "Disponível"@,
        Idioma::Ruso => "Доступные"@,
        Idioma::Sueco => "Tillgänglig"@,
        Idioma::Turco => "Kullanılabilir"@,
        Idioma::Ucraniano => "Доступні пристрої"@,
        Idioma::Vietnamita => "Khả dụng"@,
        Idioma::ChinoSimplificado => "可用设备"@,
    }
}

pub fn modos_disponibles(idioma: Idioma) -> (r: &'static str)
    ensures
        r@ == modos_disponibles_spec(idioma),
{
    match idioma {
        Idioma::BelarusLatino => "Dastupny",
        Idioma::Belarus => "Даступна",
        Idioma::Catalan | Idioma::Frances => "Disponible",
        Idioma::Checo => "Dostupná",
        Idioma::Aleman => "Verfügbar",
        Idioma::Ingles => "Available",
        Idioma::Espanol => "Disponibles",
        Idioma::Gallego => "Dispoñible",
        Idioma::Hungaro => "Elérhető",
        Idioma::Italiano => "Disponibili",
        Idioma::Coreano => "사용 가능",
        Idioma::Kurdo => "Heyî",
        Idioma::Neerlandes => "Beschikbaar",
        Idioma::NoruegoNynorsk => "Tilgjengeleg(e)",
        Idioma::Polaco => "Dostępne",
        Idioma::PortuguesBrasil => "Disponível",
        Idioma::Ruso => "Доступные",
        Idioma::Sueco => "Tillgänglig",
        Idioma::Turco => "Kullanılabilir",
        Idioma::Ucraniano => "Доступні пристрої",
        Idioma::Vietnamita => "Khả dụng",
        Idioma::ChinoSimplificado => "可用设备",
    }
}

} // verus!
