//! The texts of the camera test, in every language.

use vstd::prelude::*;
use crate::idioma::Idioma;
use crate::cadena::iguales;

verus! {

/// The `title` text in each language.
pub open spec fn c_title_spec(idioma: Idioma) -> Seq<char> {
    match idioma {
        Idioma::BelarusLatino => "Test kamjery"@,
        Idioma::Belarus => "Тэст камеры"@,
        Idioma::Catalan => "Prova de càmera"@,
        Idioma::Checo => "Test fotoaparátu"@,
        Idioma::Aleman | Idioma::Sueco => "Kameratest"@,
        Idioma::Ingles => "Camera test"@,
        Idioma::Espanol => "Prueba de cámara"@,
        Idioma::Frances => "Test de caméra"@,
        Idioma::Gallego => "Proba da cámara"@,
        Idioma::Hungaro => "Kamera tesztje"@,
        Idioma::Italiano => "Prova della fotocamera"@,
        Idioma::Coreano => "카메라 테스트"@,
        Idioma::Kurdo => "Testa kamerayê"@,
        Idioma::Neerlandes => "Cameratest"@,
        Idioma::NoruegoNynorsk => "Kamera test"@,
        Idioma::Polaco => "Test aparatu"@,
        Idioma::PortuguesBrasil => "Teste de câmera"@,
        Idioma::Ruso => "Тест камеры"@,
        Idioma::Turco => "Kamera testi"@,
        Idioma::Ucraniano => "Тест камери"@,
        Idioma::Vietnamita => "Kiểm tra máy ảnh"@,
        Idioma::ChinoSimplificado => "相机测试"@,
    }
}

pub fn c_title(idioma: Idioma) -> (r: &'static str)
    ensures
        r@ == c_title_spec(idioma),
{
    match idioma {
        Idioma::BelarusLatino => "Test kamjery",
        Idioma::Belarus => "Тэст камеры",
        Idioma::Catalan => "Prova de càmera",
        Idioma::Checo => "Test fotoaparátu",
        Idioma::Aleman | Idioma::Sueco => "Kameratest",
        Idioma::Ingles => "Camera test",
        Idioma::Espanol => "Prueba de cámara",
        Idioma::Frances => "Test de caméra",
        Idioma::Gallego => "Proba da cámara",
        Idioma::Hungaro => "Kamera tesztje",
        Idioma::Italiano => "Prova della fotocamera",
        Idioma::Coreano => "카메라 테스트",
        Idioma::Kurdo => "Testa kamerayê",
        Idioma::Neerlandes => "Cameratest",
        Idioma::NoruegoNynorsk => "Kamera test",
        Idioma::Polaco => "Test aparatu",
        Idioma::PortuguesBrasil => "Teste de câmera",
        Idioma::Ruso => "Тест камеры",
        Idioma::Turco => "Kamera testi",
        Idioma::Ucraniano => "Тест камери",
        Idioma::Vietnamita => "Kiểm tra máy ảnh",
        Idioma::ChinoSimplificado => "相机测试",
    }
}

/// The `detail` text in each language.
pub open spec fn c_detail_spec(idioma: Idioma) -> Seq<char> {
    match idioma {
        Idioma::BelarusLatino => "Adkryvaje časovy papjaredni prahłjad. Korunix nje zachoŭvaje videa."@,
        Idioma::Belarus => "Адкрывае часовы папярэдні прагляд. Korunix не захоўвае відэа."@,
        Idioma::Catalan => "Obre una vista prèvia temporal. Korunix no desa el vídeo."@,
        Idioma::Checo => "Otevře dočasný náhled. Korunix neukládá video."@,
        Idioma::Aleman => "Öffnet eine temporäre Vorschau. Korunix speichert keine Videos."@,
        Idioma::Ingles => "Opens a temporary preview. Korunix does not save video."@,
        Idioma::Espanol => "Abre una vista temporal. Korunix no guarda vídeo."@,
        Idioma::Frances => "Ouvre un aperçu temporaire. Korunix n'enregistre pas la vidéo."@,
        Idioma::Gallego => "Abre unha vista previa temporal. Korunix non garda o vídeo."@,
        Idioma::Hungaro => "Ideiglenes előnézetet nyit. A Korunix nem ment videót."@,
        Idioma::Italiano => "Apre un'anteprima temporanea. Korunix non salva i video."@,
        Idioma::Coreano => "임시 미리보기를 엽니다. Korunix는 영상을 저장하지 않습니다."@,
        Idioma::Kurdo => "Pêşdîtinek demkî vedike. Korunix vîdyoyê tomar nake."@,
        Idioma::Neerlandes => "Opent een tijdelijk voorbeeld. Korunix slaat geen video op."@,
        Idioma::NoruegoNynorsk => "Åpner en midlertidig forhåndsvisning. Korunix lagrer ikke video."@,
        Idioma::Polaco => "Otwiera tymczasowy podgląd. Korunix nie zapisuje wideo."@,
        Idioma::PortuguesBrasil => "Abre uma visualização temporária. Korunix não salva vídeo."@,
        Idioma::Ruso => "Открывает временный предварительный просмотр. Korunix не сохраняет видео."@,
        Idioma::Sueco => "Öppnar en tillfällig förhandsvisning. Korunix sparar inte video."@,
        Idioma::Turco => "Geçici bir önizleme açar. Korunix videoyu kaydetmiyor."@,
        Idioma::Ucraniano => "Відкриває тимчасовий попередній перегляд. Korunix не зберігає відео."@,
        Idioma::Vietnamita => "Mở bản xem trước tạm thời. Korunix không lưu video."@,
        Idioma::ChinoSimplificado => "打开临时预览。 Korunix 不保存视频。"@,
    }
}

pub fn c_detail(idioma: Idioma) -> (r: &'static str)
    ensures
        r@ == c_detail_spec(idioma),
{
    match idioma {
        Idioma::BelarusLatino => "Adkryvaje časovy papjaredni prahłjad. Korunix nje zachoŭvaje videa.",
        Idioma::Belarus => "Адкрывае часовы папярэдні прагляд. Korunix не захоўвае відэа.",
        Idioma::Catalan => "Obre una vista prèvia temporal. Korunix no desa el vídeo.",
        Idioma::Checo => "Otevře dočasný náhled. Korunix neukládá video.",
        Idioma::Aleman => "Öffnet eine temporäre Vorschau. Korunix speichert keine Videos.",
        Idioma::Ingles => "Opens a temporary preview. Korunix does not save video.",
        Idioma::Espanol => "Abre una vista temporal. Korunix no guarda vídeo.",
        Idioma::Frances => "Ouvre un aperçu temporaire. Korunix n'enregistre pas la vidéo.",
        Idioma::Gallego => "Abre unha vista previa temporal. Korunix non garda o vídeo.",
        Idioma::Hungaro => "Ideiglenes előnézetet nyit. A Korunix nem ment videót.",
        Idioma::Italiano => "Apre un'anteprima temporanea. Korunix non salva i video.",
        Idioma::Coreano => "임시 미리보기를 엽니다. Korunix는 영상을 저장하지 않습니다.",
        Idioma::Kurdo => "Pêşdîtinek demkî vedike. Korunix vîdyoyê tomar nake.",
        Idioma::Neerlandes => "Opent een tijdelijk voorbeeld. Korunix slaat geen video op.",
        Idioma::NoruegoNynorsk => "Åpner en midlertidig forhåndsvisning. Korunix lagrer ikke video.",
        Idioma::Polaco => "Otwiera tymczasowy podgląd. Korunix nie zapisuje wideo.",
        Idioma::PortuguesBrasil => "Abre uma visualização temporária. Korunix não salva vídeo.",
        Idioma::Ruso => "Открывает временный предварительный просмотр. Korunix не сохраняет видео.",
        Idioma::Sueco => "Öppnar en tillfällig förhandsvisning. Korunix sparar inte video.",
        Idioma::Turco => "Geçici bir önizleme açar. Korunix videoyu kaydetmiyor.",
        Idioma::Ucraniano => "Відкриває тимчасовий попередній перегляд. Korunix не зберігає відео.",
        Idioma::Vietnamita => "Mở bản xem trước tạm thời. Korunix không lưu video.",
        Idioma::ChinoSimplificado => "打开临时预览。 Korunix 不保存视频。",
    }
}

/// The `action` text in each language.
pub open spec fn c_action_spec(idioma: Idioma) -> Seq<char> {
    match idioma {
        Idioma::BelarusLatino => "Test kamjery"@,
        Idioma::Belarus => "Тэст камеры"@,
        Idioma::Catalan => "Càmera de prova"@,
        Idioma::Checo => "Testovací kamera"@,
        Idioma::Aleman => "Kamera testen"@,
        Idioma::Ingles => "Test camera"@,
        Idioma::Espanol => "Probar cámara"@,
        Idioma::Frances => "Caméra de test"@,
        Idioma::Gallego => "Cámara de proba"@,
        Idioma::Hungaro => "Kamera tesztelése"@,
        Idioma::Italiano => "Prova la fotocamera"@,
        Idioma::Coreano => "테스트 카메라"@,
        Idioma::Kurdo => "Kamera testê"@,
        Idioma::Neerlandes => "Testcamera"@,
        Idioma::NoruegoNynorsk => "Test kamera"@,
        Idioma::Polaco => "Aparat testowy"@,
        Idioma::PortuguesBrasil => "Câmera de teste"@,
        Idioma::Ruso => "Тестовая камера"@,
        Idioma::Sueco => "Testa kamera"@,
        Idioma::Turco => "Kamerayı test edin"@,
        Idioma::Ucraniano => "Тестова камера"@,
        Idioma::Vietnamita => "Máy ảnh thử nghiệm"@,
        Idioma::ChinoSimplificado => "测试相机"@,
    }
}

pub fn c_action(idioma: Idioma) -> (r: &'static str)
    ensures
        r@ == c_action_spec(idioma),
{
    match idioma {
        Idioma::BelarusLatino => "Test kamjery",
        Idioma::Belarus => "Тэст камеры",
        Idioma::Catalan => "Càmera de prova",
        Idioma::Checo => "Testovací kamera",
        Idioma::Aleman => "Kamera testen",
        Idioma::Ingles => "Test camera",
        Idioma::Espanol => "Probar cámara",
        Idioma::Frances => "Caméra de test",
        Idioma::Gallego => "Cámara de proba",
        Idioma::Hungaro => "Kamera tesztelése",
        Idioma::Italiano => "Prova la fotocamera",
        Idioma::Coreano => "테스트 카메라",
        Idioma::Kurdo => "Kamera testê",
        Idioma::Neerlandes => "Testcamera",
        Idioma::NoruegoNynorsk => "Test kamera",
        Idioma::Polaco => "Aparat testowy",
        Idioma::PortuguesBrasil => "Câmera de teste",
        Idioma::Ruso => "Тестовая камера",
        Idioma::Sueco => "Testa kamera",
        Idioma::Turco => "Kamerayı test edin",
        Idioma::Ucraniano => "Тестова камера",
        Idioma::Vietnamita => "Máy ảnh thử nghiệm",
        Idioma::ChinoSimplificado => "测试相机",
    }
}

/// The `done` text in each language.
pub open spec fn c_done_spec(idioma: Idioma) -> Seq<char> {
    match idioma {
        Idioma::BelarusLatino => "Test kamjery zavjeršany."@,
        Idioma::Belarus => "Тэст камеры завершаны."@,
        Idioma::Catalan => "S'ha acabat la prova de la càmera."@,
        Idioma::Checo => "Test fotoaparátu dokončen."@,
        Idioma::Aleman => "Kameratest abgeschlossen."@,
        Idioma::Ingles => "Camera test finished."@,
        Idioma::Espanol => "Prueba de cámara finalizada."@,
        Idioma::Frances => "Test de la caméra terminé."@,
        Idioma::Gallego => "Rematou a proba da cámara."@,
        Idioma::Hungaro => "A kamera tesztje befejeződött."@,
        Idioma::Italiano => "Test della fotocamera terminato."@,
        Idioma::Coreano => "카메라 테스트가 완료되었습니다."@,
        Idioma::Kurdo => "Testa kamerayê qediya."@,
        Idioma::Neerlandes => "Cameratest voltooid."@,
        Idioma::NoruegoNynorsk => "Kameratesten er ferdig."@,
        Idioma::Polaco => "Test aparatu zakończony."@,
        Idioma::PortuguesBrasil => "Teste de câmera concluído."@,
        Idioma::Ruso => "Тест камеры завершен."@,
        Idioma::Sueco => "Kameratestet avslutat."@,
        Idioma::Turco => "Kamera testi tamamlandı."@,
        Idioma::Ucraniano => "Тест камери завершено."@,
        Idioma::Vietnamita => "Kiểm tra máy ảnh đã hoàn tất."@,
        Idioma::ChinoSimplificado => "相机测试完成。"@,
    }
}

pub fn c_done(idioma: Idioma) -> (r: &'static str)
    ensures
        r@ == c_done_spec(idioma),
{
    match idioma {
        Idioma::BelarusLatino => "Test kamjery zavjeršany.",
        Idioma::Belarus => "Тэст камеры завершаны.",
        Idioma::Catalan => "S'ha acabat la prova de la càmera.",
        Idioma::Checo => "Test fotoaparátu dokončen.",
        Idioma::Aleman => "Kameratest abgeschlossen.",
        Idioma::Ingles => "Camera test finished.",
        Idioma::Espanol => "Prueba de cámara finalizada.",
        Idioma::Frances => "Test de la caméra terminé.",
        Idioma::Gallego => "Rematou a proba da cámara.",
        Idioma::Hungaro => "A kamera tesztje befejeződött.",
        Idioma::Italiano => "Test della fotocamera terminato.",
        Idioma::Coreano => "카메라 테스트가 완료되었습니다.",
        Idioma::Kurdo => "Testa kamerayê qediya.",
        Idioma::Neerlandes => "Cameratest voltooid.",
        Idioma::NoruegoNynorsk => "Kameratesten er ferdig.",
        Idioma::Polaco => "Test aparatu zakończony.",
        Idioma::PortuguesBrasil => "Teste de câmera concluído.",
        Idioma::Ruso => "Тест камеры завершен.",
        Idioma::Sueco => "Kameratestet avslutat.",
        Idioma::Turco => "Kamera testi tamamlandı.",
        Idioma::Ucraniano => "Тест камери завершено.",
        Idioma::Vietnamita => "Kiểm tra máy ảnh đã hoàn tất.",
        Idioma::ChinoSimplificado => "相机测试完成。",
    }
}

/// The `starting` text in each language.
pub open spec fn c_starting_spec(idioma: Idioma) -> Seq<char> {
    match idioma {
        Idioma::BelarusLatino => "Zapusk kamjery…"@,
        Idioma::Belarus | Idioma::Ruso => "Запуск камеры…"@,
        Idioma::Catalan => "S'està iniciant la càmera..."@,
        Idioma::Checo => "Spouštění fotoaparátu…"@,
        Idioma::Aleman => "Kamera wird gestartet…"@,
        Idioma::Ingles => "Starting camera…"@,
        Idioma::Espanol => "Iniciando cámara…"@,
        Idioma::Frances => "Démarrage de la caméra…"@,
        Idioma::Gallego => "Iniciando a cámara..."@,
        Idioma::Hungaro => "Kamera indítása…"@,
        Idioma::Italiano => "Avvio della fotocamera…"@,
        Idioma::Coreano => "카메라 시작 중…"@,
        Idioma::Kurdo => "Kamera dest pê dike…"@,
        Idioma::Neerlandes => "Camera starten…"@,
        Idioma::NoruegoNynorsk => "Starter kamera …"@,
        Idioma::Polaco => "Uruchamiam kamerę…"@,
        Idioma::PortuguesBrasil => "Iniciando a câmera…"@,
        Idioma::Sueco => "Startar kamera..."@,
        Idioma::Turco => "Kamera başlatılıyor…"@,
        Idioma::Ucraniano => "Запуск камери…"@,
        Idioma::Vietnamita => "Đang khởi động máy ảnh…"@,
        Idioma::ChinoSimplificado => "启动相机..."@,
    }
}

pub fn c_starting(idioma: Idioma) -> (r: &'static str)
    ensures
        r@ == c_starting_spec(idioma),
{
    match idioma {
        Idioma::BelarusLatino => "Zapusk kamjery…",
        Idioma::Belarus | Idioma::Ruso => "Запуск камеры…",
        Idioma::Catalan => "S'està iniciant la càmera...",
        Idioma::Checo => "Spouštění fotoaparátu…",
        Idioma::Aleman => "Kamera wird gestartet…",
        Idioma::Ingles => "Starting camera…",
        Idioma::Espanol => "Iniciando cámara…",
        Idioma::Frances => "Démarrage de la caméra…",
        Idioma::Gallego => "Iniciando a cámara...",
        Idioma::Hungaro => "Kamera indítása…",
        Idioma::Italiano => "Avvio della fotocamera…",
        Idioma::Coreano => "카메라 시작 중…",
        Idioma::Kurdo => "Kamera dest pê dike…",
        Idioma::Neerlandes => "Camera starten…",
        Idioma::NoruegoNynorsk => "Starter kamera …",
        Idioma::Polaco => "Uruchamiam kamerę…",
        Idioma::PortuguesBrasil => "Iniciando a câmera…",
        Idioma::Sueco => "Startar kamera...",
        Idioma::Turco => "Kamera başlatılıyor…",
        Idioma::Ucraniano => "Запуск камери…",
        Idioma::Vietnamita => "Đang khởi động máy ảnh…",
        Idioma::ChinoSimplificado => "启动相机...",
    }
}

/// The `live` text in each language.
pub open spec fn c_live_spec(idioma: Idioma) -> Seq<char> {
    match idioma {
        Idioma::BelarusLatino => "Anłajn-prahłjad · ničoha nje zapisvajecca"@,
        Idioma::Belarus => "Анлайн-прагляд · нічога не запісваецца"@,
        Idioma::Catalan => "Vista prèvia en directe · no s'està gravant res"@,
        Idioma::Checo => "Živý náhled · nic se nenahrává"@,
        Idioma::Aleman => "Live-Vorschau · Es wird nichts aufgezeichnet"@,
        Idioma::Ingles => "Live preview · nothing is being recorded"@,
        Idioma::Espanol => "Vista previa en vivo · no se está grabando vídeo"@,
        Idioma::Frances => "Aperçu en direct · rien n'est enregistré"@,
        Idioma::Gallego => "Vista previa en directo · non se está gravando nada"@,
        Idioma::Hungaro => "Élő előnézet · nincs videófelvétel"@,
        Idioma::Italiano => "Anteprima dal vivo · non viene registrato nulla"@,
        Idioma::Coreano => "실시간 미리보기 · 녹화 중인 항목이 없습니다."@,
        Idioma::Kurdo => "Pêşdîtina zindî · tiştek nayê tomar kirin"@,
        Idioma::Neerlandes => "Live preview · er wordt niets opgenomen"@,
        Idioma::NoruegoNynorsk => "Live forhåndsvisning · ingenting blir tatt opp"@,
        Idioma::Polaco => "Podgląd na żywo · nic nie jest nagrywane"@,
        Idioma::PortuguesBrasil => "Visualização ao vivo · nada está sendo gravado"@,
        Idioma::Ruso => "Предварительный просмотр · ничего не записывается"@,
        Idioma::Sueco => "Liveförhandsvisning · ingenting spelas in"@,
        Idioma::Turco => "Canlı önizleme · hiçbir şey kaydedilmiyor"@,
        Idioma::Ucraniano => "Попередній перегляд у реальному часі · нічого не записується"@,
        Idioma::Vietnamita => "Xem trước trực tiếp · không có gì được ghi lại"@,
        Idioma::ChinoSimplificado => "实时预览 · 没有录制任何内容"@,
    }
}

pub fn c_live(idioma: Idioma) -> (r: &'static str)
    ensures
        r@ == c_live_spec(idioma),
{
    match idioma {
        Idioma::BelarusLatino => "Anłajn-prahłjad · ničoha nje zapisvajecca",
        Idioma::Belarus => "Анлайн-прагляд · нічога не запісваецца",
        Idioma::Catalan => "Vista prèvia en directe · no s'està gravant res",
        Idioma::Checo => "Živý náhled · nic se nenahrává",
        Idioma::Aleman => "Live-Vorschau · Es wird nichts aufgezeichnet",
        Idioma::Ingles => "Live preview · nothing is being recorded",
        Idioma::Espanol => "Vista previa en vivo · no se está grabando vídeo",
        Idioma::Frances => "Aperçu en direct · rien n'est enregistré",
        Idioma::Gallego => "Vista previa en directo · non se está gravando nada",
        Idioma::Hungaro => "Élő előnézet · nincs videófelvétel",
        Idioma::Italiano => "Anteprima dal vivo · non viene registrato nulla",
        Idioma::Coreano => "실시간 미리보기 · 녹화 중인 항목이 없습니다.",
        Idioma::Kurdo => "Pêşdîtina zindî · tiştek nayê tomar kirin",
        Idioma::Neerlandes => "Live preview · er wordt niets opgenomen",
        Idioma::NoruegoNynorsk => "Live forhåndsvisning · ingenting blir tatt opp",
        Idioma::Polaco => "Podgląd na żywo · nic nie jest nagrywane",
        Idioma::PortuguesBrasil => "Visualização ao vivo · nada está sendo gravado",
        Idioma::Ruso => "Предварительный просмотр · ничего не записывается",
        Idioma::Sueco => "Liveförhandsvisning · ingenting spelas in",
        Idioma::Turco => "Canlı önizleme · hiçbir şey kaydedilmiyor",
        Idioma::Ucraniano => "Попередній перегляд у реальному часі · нічого не записується",
        Idioma::Vietnamita => "Xem trước trực tiếp · không có gì được ghi lại",
        Idioma::ChinoSimplificado => "实时预览 · 没有录制任何内容",
    }
}

/// The `busy` text in each language.
pub open spec fn c_busy_spec(idioma: Idioma) -> Seq<char> {
    match idioma {
        Idioma::BelarusLatino => "Hetaja kamjera ŭžo vykarystoŭvajecca. Spynicje inšy papjaredni prahłjad abo začynicje prahramu, jakaja vykarystoŭvaje jaho."@,
        Idioma::Belarus => "Гэтая камера ўжо выкарыстоўваецца. Спыніце іншы папярэдні прагляд або зачыніце праграму, якая выкарыстоўвае яго."@,
        Idioma::Catalan => "Aquesta càmera ja està en ús. Atureu l'altra vista prèvia o tanqueu l'aplicació utilitzant-la."@,
        Idioma::Checo => "Tato kamera se již používá. Zastavte druhý náhled nebo zavřete aplikaci, která jej používá."@,
        Idioma::Aleman => "Diese Kamera ist bereits im Einsatz. Stoppen Sie die andere Vorschau oder schließen Sie die App, die sie verwendet."@,
        Idioma::Ingles => "This camera is already in use. Stop the other preview or close the app using it."@,
        Idioma::Espanol => "Esta cámara ya está en uso. Detén la otra vista o cierra la aplicación que la está usando."@,
        Idioma::Frances => "Cette caméra est déjà utilisée. Arrêtez l'autre aperçu ou fermez l'application qui l'utilise."@,
        Idioma::Gallego => "Esta cámara xa está en uso. Detén a outra vista previa ou pecha a aplicación usándoa."@,
        Idioma::Hungaro => "A kamerát már használja egy másik alkalmazás. Állítsd le a másik előnézetet."@,
        Idioma::Italiano => "Questa fotocamera è già in uso. Interrompi l'altra anteprima o chiudi l'app che la utilizza."@,
        Idioma::Coreano => "이 카메라는 이미 사용 중입니다. 다른 미리보기를 중지하거나 이를 사용하여 앱을 닫습니다."@,
        Idioma::Kurdo => "Ev kamera jixwe tê bikaranîn. Pêşdîtina din rawestînin an sepanê bi karanîna wê bigire."@,
        Idioma::Neerlandes => "Deze camera is al in gebruik. Stop het andere voorbeeld of sluit de app ermee."@,
        Idioma::NoruegoNynorsk => "Dette kameraet er allerede i bruk. Stopp den andre forhåndsvisningen eller lukk appen ved å bruke den."@,
        Idioma::Polaco => "Ten aparat jest już używany. Zatrzymaj inny podgląd lub zamknij aplikację, która go używa."@,
        Idioma::PortuguesBrasil => "Esta câmera já está em uso. Pare a outra visualização ou feche o aplicativo que a utiliza."@,
        Idioma::Ruso => "Эта камера уже используется. Остановите другой предварительный просмотр или закройте приложение, использующее его."@,
        Idioma::Sueco => "Den här kameran används redan. Stoppa den andra förhandsgranskningen eller stäng appen med den."@,
        Idioma::Turco => "Bu kamera zaten kullanılıyor. Diğer önizlemeyi durdurun veya onu kullanarak uygulamayı kapatın."@,
        Idioma::Ucraniano => "Ця камера вже використовується. Зупиніть інший попередній перегляд або закрийте програму, яка його використовує."@,
        Idioma::Vietnamita => "Máy ảnh này đã được sử dụng. Dừng bản xem trước khác hoặc đóng ứng dụng bằng cách sử dụng nó."@,
        Idioma::ChinoSimplificado => "该相机已投入使用。停止其他预览或关闭使用它的应用程序。"@,
    }
}

pub fn c_busy(idioma: Idioma) -> (r: &'static str)
    ensures
        r@ == c_busy_spec(idioma),
{
    match idioma {
        Idioma::BelarusLatino => "Hetaja kamjera ŭžo vykarystoŭvajecca. Spynicje inšy papjaredni prahłjad abo začynicje prahramu, jakaja vykarystoŭvaje jaho.",
        Idioma::Belarus => "Гэтая камера ўжо выкарыстоўваецца. Спыніце іншы папярэдні прагляд або зачыніце праграму, якая выкарыстоўвае яго.",
        Idioma::Catalan => "Aquesta càmera ja està en ús. Atureu l'altra vista prèvia o tanqueu l'aplicació utilitzant-la.",
        Idioma::Checo => "Tato kamera se již používá. Zastavte druhý náhled nebo zavřete aplikaci, která jej používá.",
        Idioma::Aleman => "Diese Kamera ist bereits im Einsatz. Stoppen Sie die andere Vorschau oder schließen Sie die App, die sie verwendet.",
        Idioma::Ingles => "This camera is already in use. Stop the other preview or close the app using it.",
        Idioma::Espanol => "Esta cámara ya está en uso. Detén la otra vista o cierra la aplicación que la está usando.",
        Idioma::Frances => "Cette caméra est déjà utilisée. Arrêtez l'autre aperçu ou fermez l'application qui l'utilise.",
        Idioma::Gallego => "Esta cámara xa está en uso. Detén a outra vista previa ou pecha a aplicación usándoa.",
        Idioma::Hungaro => "A kamerát már használja egy másik alkalmazás. Állítsd le a másik előnézetet.",
        Idioma::Italiano => "Questa fotocamera è già in uso. Interrompi l'altra anteprima o chiudi l'app che la utilizza.",
        Idioma::Coreano => "이 카메라는 이미 사용 중입니다. 다른 미리보기를 중지하거나 이를 사용하여 앱을 닫습니다.",
        Idioma::Kurdo => "Ev kamera jixwe tê bikaranîn. Pêşdîtina din rawestînin an sepanê bi karanîna wê bigire.",
        Idioma::Neerlandes => "Deze camera is al in gebruik. Stop het andere voorbeeld of sluit de app ermee.",
        Idioma::NoruegoNynorsk => "Dette kameraet er allerede i bruk. Stopp den andre forhåndsvisningen eller lukk appen ved å bruke den.",
        Idioma::Polaco => "Ten aparat jest już używany. Zatrzymaj inny podgląd lub zamknij aplikację, która go używa.",
        Idioma::PortuguesBrasil => "Esta câmera já está em uso. Pare a outra visualização ou feche o aplicativo que a utiliza.",
        Idioma::Ruso => "Эта камера уже используется. Остановите другой предварительный просмотр или закройте приложение, использующее его.",
        Idioma::Sueco => "Den här kameran används redan. Stoppa den andra förhandsgranskningen eller stäng appen med den.",
        Idioma::Turco => "Bu kamera zaten kullanılıyor. Diğer önizlemeyi durdurun veya onu kullanarak uygulamayı kapatın.",
        Idioma::Ucraniano => "Ця камера вже використовується. Зупиніть інший попередній перегляд або закрийте програму, яка його використовує.",
        Idioma::Vietnamita => "Máy ảnh này đã được sử dụng. Dừng bản xem trước khác hoặc đóng ứng dụng bằng cách sử dụng nó.",
        Idioma::ChinoSimplificado => "该相机已投入使用。停止其他预览或关闭使用它的应用程序。",
    }
}

/// The `one_preview` text in each language.
pub open spec fn c_one_preview_spec(idioma: Idioma) -> Seq<char> {
    match idioma {
        Idioma::BelarusLatino => "Test kamjery ŭžo adkryty."@,
        Idioma::Belarus => "Тэст камеры ўжо адкрыты."@,
        Idioma::Catalan => "Ja està oberta una prova de càmera."@,
        Idioma::Checo => "Kamerový test je již otevřen."@,
        Idioma::Aleman => "Ein Kameratest ist bereits eröffnet."@,
        Idioma::Ingles => "A camera test is already open."@,
        Idioma::Espanol => "Ya hay una prueba de cámara abierta."@,
        Idioma::Frances => "Un test caméra est déjà ouvert."@,
        Idioma::Gallego => "Xa está aberta unha proba da cámara."@,
        Idioma::Hungaro => "Már nyitva van egy kamerateszt."@,
        Idioma::Italiano => "Un test della fotocamera è già aperto."@,
        Idioma::Coreano => "카메라 테스트가 이미 열려 있습니다."@,
        Idioma::Kurdo => "Testek kamerayê jixwe vekirî ye."@,
        Idioma::Neerlandes => "Er is al een cameratest geopend."@,
        Idioma::NoruegoNynorsk => "En kameratest er allerede åpen."@,
        Idioma::Polaco => "Test aparatu jest już otwarty."@,
        Idioma::PortuguesBrasil => "Um teste de câmera já está aberto."@,
        Idioma::Ruso => "Тест камеры уже открыт."@,
        Idioma::Sueco => "Ett kameratest är redan öppet."@,
        Idioma::Turco => "Bir kamera testi zaten açık."@,
        Idioma::Ucraniano => "Тест камери вже відкритий."@,
        Idioma::Vietnamita => "Một thử nghiệm máy ảnh đã được mở."@,
        Idioma::ChinoSimplificado => "相机测试已经开放。"@,
    }
}

pub fn c_one_preview(idioma: Idioma) -> (r: &'static str)
    ensures
        r@ == c_one_preview_spec(idioma),
{
    match idioma {
        Idioma::BelarusLatino => "Test kamjery ŭžo adkryty.",
        Idioma::Belarus => "Тэст камеры ўжо адкрыты.",
        Idioma::Catalan => "Ja està oberta una prova de càmera.",
        Idioma::Checo => "Kamerový test je již otevřen.",
        Idioma::Aleman => "Ein Kameratest ist bereits eröffnet.",
        Idioma::Ingles => "A camera test is already open.",
        Idioma::Espanol => "Ya hay una prueba de cámara abierta.",
        Idioma::Frances => "Un test caméra est déjà ouvert.",
        Idioma::Gallego => "Xa está aberta unha proba da cámara.",
        Idioma::Hungaro => "Már nyitva van egy kamerateszt.",
        Idioma::Italiano => "Un test della fotocamera è già aperto.",
        Idioma::Coreano => "카메라 테스트가 이미 열려 있습니다.",
        Idioma::Kurdo => "Testek kamerayê jixwe vekirî ye.",
        Idioma::Neerlandes => "Er is al een cameratest geopend.",
        Idioma::NoruegoNynorsk => "En kameratest er allerede åpen.",
        Idioma::Polaco => "Test aparatu jest już otwarty.",
        Idioma::PortuguesBrasil => "Um teste de câmera já está aberto.",
        Idioma::Ruso => "Тест камеры уже открыт.",
        Idioma::Sueco => "Ett kameratest är redan öppet.",
        Idioma::Turco => "Bir kamera testi zaten açık.",
        Idioma::Ucraniano => "Тест камери вже відкритий.",
        Idioma::Vietnamita => "Một thử nghiệm máy ảnh đã được mở.",
        Idioma::ChinoSimplificado => "相机测试已经开放。",
    }
}

/// The text of the camera test for a key; `Korunix` for an unknown key.
pub open spec fn texto_prueba_camara_spec(idioma: Idioma, clave: Seq<char>) -> Seq<char> {
    if clave == "title"@ {
        c_title_spec(idioma)
    } else if clave == "detail"@ {
        c_detail_spec(idioma)
    } else if clave == "action"@ {
        c_action_spec(idioma)
    } else if clave == "done"@ {
        c_done_spec(idioma)
    } else if clave == "starting"@ {
        c_starting_spec(idioma)
    } else if clave == "live"@ {
        c_live_spec(idioma)
    } else if clave == "busy"@ {
        c_busy_spec(idioma)
    } else if clave == "one_preview"@ {
        c_one_preview_spec(idioma)
    } else {
        "Korunix"@
    }
}

pub fn texto_prueba_camara(idioma: Idioma, clave: &str) -> (r: &'static str)
    ensures
        r@ == texto_prueba_camara_spec(idioma, clave@),
{
    if iguales(clave, "title") {
        c_title(idioma)
    } else if iguales(clave, "detail") {
        c_detail(idioma)
    } else if iguales(clave, "action") {
        c_action(idioma)
    } else if iguales(clave, "done") {
        c_done(idioma)
    } else if iguales(clave, "starting") {
        c_starting(idioma)
    } else if iguales(clave, "live") {
        c_live(idioma)
    } else if iguales(clave, "busy") {
        c_busy(idioma)
    } else if iguales(clave, "one_preview") {
        c_one_preview(idioma)
    } else {
        "Korunix"
    }
}

} // verus!
