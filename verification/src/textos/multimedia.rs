//! The texts of the sound and microphone tests, in every language.

use vstd::prelude::*;
use crate::idioma::Idioma;
use crate::cadena::iguales;

verus! {

/// The `output_test` text in each language.
pub open spec fn m_output_test_spec(idioma: Idioma) -> Seq<char> {
    match idioma {
        Idioma::BelarusLatino => "Test vychadu huku"@,
        Idioma::Belarus => "Тэст выхаду гуку"@,
        Idioma::Catalan => "Prova de sortida de so"@,
        Idioma::Checo => "Test zvukového výstupu"@,
        Idioma::Aleman => "Tonausgabetest"@,
        Idioma::Ingles => "Sound output test"@,
        Idioma::Espanol => "Prueba de salida de sonido"@,
        Idioma::Frances => "Test de sortie sonore"@,
        Idioma::Gallego => "Proba de saída de son"@,
        Idioma::Hungaro => "Hangkimenet tesztje"@,
        Idioma::Italiano => "Prova di uscita del suono"@,
        Idioma::Coreano => "사운드 출력 테스트"@,
        Idioma::Kurdo => "Testa hilberîna deng"@,
        Idioma::Neerlandes => "Geluidsuitgangstest"@,
        Idioma::NoruegoNynorsk => "Test av lydutgang"@,
        Idioma::Polaco => "Test wyjścia dźwięku"@,
        Idioma::PortuguesBrasil => "Teste de saída de som"@,
        Idioma::Ruso => "Тест вывода звука"@,
        Idioma::Sueco => "Ljudutgångstest"@,
        Idioma::Turco => "Ses çıkışı testi"@,
        Idioma::Ucraniano => "Тест вихідного звуку"@,
        Idioma::Vietnamita => "Kiểm tra đầu ra âm thanh"@,
        Idioma::ChinoSimplificado => "声音输出测试"@,
    }
}

pub fn m_output_test(idioma: Idioma) -> (r: &'static str)
    ensures
        r@ == m_output_test_spec(idioma),
{
    match idioma {
        Idioma::BelarusLatino => "Test vychadu huku",
        Idioma::Belarus => "Тэст выхаду гуку",
        Idioma::Catalan => "Prova de sortida de so",
        Idioma::Checo => "Test zvukového výstupu",
        Idioma::Aleman => "Tonausgabetest",
        Idioma::Ingles => "Sound output test",
        Idioma::Espanol => "Prueba de salida de sonido",
        Idioma::Frances => "Test de sortie sonore",
        Idioma::Gallego => "Proba de saída de son",
        Idioma::Hungaro => "Hangkimenet tesztje",
        Idioma::Italiano => "Prova di uscita del suono",
        Idioma::Coreano => "사운드 출력 테스트",
        Idioma::Kurdo => "Testa hilberîna deng",
        Idioma::Neerlandes => "Geluidsuitgangstest",
        Idioma::NoruegoNynorsk => "Test av lydutgang",
        Idioma::Polaco => "Test wyjścia dźwięku",
        Idioma::PortuguesBrasil => "Teste de saída de som",
        Idioma::Ruso => "Тест вывода звука",
        Idioma::Sueco => "Ljudutgångstest",
        Idioma::Turco => "Ses çıkışı testi",
        Idioma::Ucraniano => "Тест вихідного звуку",
        Idioma::Vietnamita => "Kiểm tra đầu ra âm thanh",
        Idioma::ChinoSimplificado => "声音输出测试",
    }
}

/// The `output_pick` text in each language.
pub open spec fn m_output_pick_spec(idioma: Idioma) -> Seq<char> {
    match idioma {
        Idioma::BelarusLatino => "Vyvad dłja pravjerki"@,
        Idioma::Belarus => "Вывад для праверкі"@,
        Idioma::Catalan => "Sortida a provar"@,
        Idioma::Checo => "Výstup k testování"@,
        Idioma::Aleman => "Ausgabe zum Testen"@,
        Idioma::Ingles => "Output to test"@,
        Idioma::Espanol => "Salida para la prueba"@,
        Idioma::Frances => "Sortie à tester"@,
        Idioma::Gallego => "Saída para probar"@,
        Idioma::Hungaro => "Tesztelendő kimenet"@,
        Idioma::Italiano => "Uscita da testare"@,
        Idioma::Coreano => "테스트할 출력"@,
        Idioma::Kurdo => "Derketin ji bo ceribandinê"@,
        Idioma::Neerlandes => "Uitgang om te testen"@,
        Idioma::NoruegoNynorsk => "Utgang til test"@,
        Idioma::Polaco => "Dane wyjściowe do przetestowania"@,
        Idioma::PortuguesBrasil => "Saída para testar"@,
        Idioma::Ruso => "Выход для проверки"@,
        Idioma::Sueco => "Utgång att testa"@,
        Idioma::Turco => "Test edilecek çıktı"@,
        Idioma::Ucraniano => "Вихід для перевірки"@,
        Idioma::Vietnamita => "Đầu ra để kiểm tra"@,
        Idioma::ChinoSimplificado => "输出进行测试"@,
    }
}

pub fn m_output_pick(idioma: Idioma) -> (r: &'static str)
    ensures
        r@ == m_output_pick_spec(idioma),
{
    match idioma {
        Idioma::BelarusLatino => "Vyvad dłja pravjerki",
        Idioma::Belarus => "Вывад для праверкі",
        Idioma::Catalan => "Sortida a provar",
        Idioma::Checo => "Výstup k testování",
        Idioma::Aleman => "Ausgabe zum Testen",
        Idioma::Ingles => "Output to test",
        Idioma::Espanol => "Salida para la prueba",
        Idioma::Frances => "Sortie à tester",
        Idioma::Gallego => "Saída para probar",
        Idioma::Hungaro => "Tesztelendő kimenet",
        Idioma::Italiano => "Uscita da testare",
        Idioma::Coreano => "테스트할 출력",
        Idioma::Kurdo => "Derketin ji bo ceribandinê",
        Idioma::Neerlandes => "Uitgang om te testen",
        Idioma::NoruegoNynorsk => "Utgang til test",
        Idioma::Polaco => "Dane wyjściowe do przetestowania",
        Idioma::PortuguesBrasil => "Saída para testar",
        Idioma::Ruso => "Выход для проверки",
        Idioma::Sueco => "Utgång att testa",
        Idioma::Turco => "Test edilecek çıktı",
        Idioma::Ucraniano => "Вихід для перевірки",
        Idioma::Vietnamita => "Đầu ra để kiểm tra",
        Idioma::ChinoSimplificado => "输出进行测试",
    }
}

/// The `output_detail` text in each language.
pub open spec fn m_output_detail_spec(idioma: Idioma) -> Seq<char> {
    match idioma {
        Idioma::BelarusLatino => "Prajhraje karotki sihnał tołki praz vybrany vychad. Heta nje zmjanjaje vyvad pa zmaŭčanni."@,
        Idioma::Belarus => "Прайграе кароткі сігнал толькі праз выбраны выхад. Гэта не змяняе вывад па змаўчанні."@,
        Idioma::Catalan => "Reprodueix un senyal curt només a través de la sortida seleccionada. No canvia la sortida predeterminada."@,
        Idioma::Checo => "Přehraje krátký signál pouze přes vybraný výstup. Nemění výchozí výstup."@,
        Idioma::Aleman => "Spielt ein kurzes Signal nur über den ausgewählten Ausgang ab. Die Standardausgabe wird dadurch nicht geändert."@,
        Idioma::Ingles => "Plays a short signal only through the selected output. It does not change the default output."@,
        Idioma::Espanol => "Reproduce una señal breve solo por la salida elegida. No cambia la salida predeterminada."@,
        Idioma::Frances => "Lit un signal court uniquement via la sortie sélectionnée. Cela ne modifie pas la sortie par défaut."@,
        Idioma::Gallego => "Reproduce un sinal curto só a través da saída seleccionada. Non cambia a saída predeterminada."@,
        Idioma::Hungaro => "Rövid jelet játszik le csak a kiválasztott kimeneten. Nem módosítja az alapértelmezett kimenetet."@,
        Idioma::Italiano => "Riproduce un segnale breve solo attraverso l'uscita selezionata. Non modifica l'output predefinito."@,
        Idioma::Coreano => "선택한 출력을 통해서만 짧은 신호를 재생합니다. 기본 출력은 변경되지 않습니다."@,
        Idioma::Kurdo => "Tenê di nav derana hilbijartî de îşaretek kurt dilîze. Ew hilberîna xwerû naguhere."@,
        Idioma::Neerlandes => "Speelt alleen een kort signaal af via de geselecteerde uitgang. De standaarduitvoer wordt niet gewijzigd."@,
        Idioma::NoruegoNynorsk => "Spiller et kort signal kun gjennom den valgte utgangen. Det endrer ikke standardutgangen."@,
        Idioma::Polaco => "Odtwarza krótki sygnał tylko przez wybrane wyjście. Nie zmienia to domyślnego wyjścia."@,
        Idioma::PortuguesBrasil => "Reproduz um sinal curto somente através da saída selecionada. Isso não altera a saída padrão."@,
        Idioma::Ruso => "Воспроизводит короткий сигнал только через выбранный выход. Это не меняет вывод по умолчанию."@,
        Idioma::Sueco => "Spelar en kort signal endast genom den valda utgången. Det ändrar inte standardutgången."@,
        Idioma::Turco => "Yalnızca seçilen çıkış yoluyla kısa bir sinyal oynatır. Varsayılan çıktıyı değiştirmez."@,
        Idioma::Ucraniano => "Відтворює короткий сигнал лише через вибраний вихід. Це не змінює стандартний вихід."@,
        Idioma::Vietnamita => "Chỉ phát tín hiệu ngắn thông qua đầu ra đã chọn. Nó không thay đổi đầu ra mặc định."@,
        Idioma::ChinoSimplificado => "仅通过选定的输出播放短信号。它不会更改默认输出。"@,
    }
}

pub fn m_output_detail(idioma: Idioma) -> (r: &'static str)
    ensures
        r@ == m_output_detail_spec(idioma),
{
    match idioma {
        Idioma::BelarusLatino => "Prajhraje karotki sihnał tołki praz vybrany vychad. Heta nje zmjanjaje vyvad pa zmaŭčanni.",
        Idioma::Belarus => "Прайграе кароткі сігнал толькі праз выбраны выхад. Гэта не змяняе вывад па змаўчанні.",
        Idioma::Catalan => "Reprodueix un senyal curt només a través de la sortida seleccionada. No canvia la sortida predeterminada.",
        Idioma::Checo => "Přehraje krátký signál pouze přes vybraný výstup. Nemění výchozí výstup.",
        Idioma::Aleman => "Spielt ein kurzes Signal nur über den ausgewählten Ausgang ab. Die Standardausgabe wird dadurch nicht geändert.",
        Idioma::Ingles => "Plays a short signal only through the selected output. It does not change the default output.",
        Idioma::Espanol => "Reproduce una señal breve solo por la salida elegida. No cambia la salida predeterminada.",
        Idioma::Frances => "Lit un signal court uniquement via la sortie sélectionnée. Cela ne modifie pas la sortie par défaut.",
        Idioma::Gallego => "Reproduce un sinal curto só a través da saída seleccionada. Non cambia a saída predeterminada.",
        Idioma::Hungaro => "Rövid jelet játszik le csak a kiválasztott kimeneten. Nem módosítja az alapértelmezett kimenetet.",
        Idioma::Italiano => "Riproduce un segnale breve solo attraverso l'uscita selezionata. Non modifica l'output predefinito.",
        Idioma::Coreano => "선택한 출력을 통해서만 짧은 신호를 재생합니다. 기본 출력은 변경되지 않습니다.",
        Idioma::Kurdo => "Tenê di nav derana hilbijartî de îşaretek kurt dilîze. Ew hilberîna xwerû naguhere.",
        Idioma::Neerlandes => "Speelt alleen een kort signaal af via de geselecteerde uitgang. De standaarduitvoer wordt niet gewijzigd.",
        Idioma::NoruegoNynorsk => "Spiller et kort signal kun gjennom den valgte utgangen. Det endrer ikke standardutgangen.",
        Idioma::Polaco => "Odtwarza krótki sygnał tylko przez wybrane wyjście. Nie zmienia to domyślnego wyjścia.",
        Idioma::PortuguesBrasil => "Reproduz um sinal curto somente através da saída selecionada. Isso não altera a saída padrão.",
        Idioma::Ruso => "Воспроизводит короткий сигнал только через выбранный выход. Это не меняет вывод по умолчанию.",
        Idioma::Sueco => "Spelar en kort signal endast genom den valda utgången. Det ändrar inte standardutgången.",
        Idioma::Turco => "Yalnızca seçilen çıkış yoluyla kısa bir sinyal oynatır. Varsayılan çıktıyı değiştirmez.",
        Idioma::Ucraniano => "Відтворює короткий сигнал лише через вибраний вихід. Це не змінює стандартний вихід.",
        Idioma::Vietnamita => "Chỉ phát tín hiệu ngắn thông qua đầu ra đã chọn. Nó không thay đổi đầu ra mặc định.",
        Idioma::ChinoSimplificado => "仅通过选定的输出播放短信号。它不会更改默认输出。",
    }
}

/// The `both` text in each language.
pub open spec fn m_both_spec(idioma: Idioma) -> Seq<char> {
    match idioma {
        Idioma::BelarusLatino => "Test huku"@,
        Idioma::Belarus => "Тэст гуку"@,
        Idioma::Catalan => "Prova de so"@,
        Idioma::Checo => "Testovací zvuk"@,
        Idioma::Aleman => "Ton testen"@,
        Idioma::Ingles => "Test sound"@,
        Idioma::Espanol => "Probar sonido"@,
        Idioma::Frances => "Tester le son"@,
        Idioma::Gallego => "Proba de son"@,
        Idioma::Hungaro => "Hang tesztelése"@,
        Idioma::Italiano => "Prova il suono"@,
        Idioma::Coreano => "테스트 사운드"@,
        Idioma::Kurdo => "Dengê testê"@,
        Idioma::Neerlandes => "Geluid testen"@,
        Idioma::NoruegoNynorsk => "Test lyd"@,
        Idioma::Polaco => "Testuj dźwięk"@,
        Idioma::PortuguesBrasil => "Teste de som"@,
        Idioma::Ruso => "Тестовый звук"@,
        Idioma::Sueco => "Testljud"@,
        Idioma::Turco => "Sesi test et"@,
        Idioma::Ucraniano => "Тестовий звук"@,
        Idioma::Vietnamita => "Kiểm tra âm thanh"@,
        Idioma::ChinoSimplificado => "测试声音"@,
    }
}

pub fn m_both(idioma: Idioma) -> (r: &'static str)
    ensures
        r@ == m_both_spec(idioma),
{
    match idioma {
        Idioma::BelarusLatino => "Test huku",
        Idioma::Belarus => "Тэст гуку",
        Idioma::Catalan => "Prova de so",
        Idioma::Checo => "Testovací zvuk",
        Idioma::Aleman => "Ton testen",
        Idioma::Ingles => "Test sound",
        Idioma::Espanol => "Probar sonido",
        Idioma::Frances => "Tester le son",
        Idioma::Gallego => "Proba de son",
        Idioma::Hungaro => "Hang tesztelése",
        Idioma::Italiano => "Prova il suono",
        Idioma::Coreano => "테스트 사운드",
        Idioma::Kurdo => "Dengê testê",
        Idioma::Neerlandes => "Geluid testen",
        Idioma::NoruegoNynorsk => "Test lyd",
        Idioma::Polaco => "Testuj dźwięk",
        Idioma::PortuguesBrasil => "Teste de som",
        Idioma::Ruso => "Тестовый звук",
        Idioma::Sueco => "Testljud",
        Idioma::Turco => "Sesi test et",
        Idioma::Ucraniano => "Тестовий звук",
        Idioma::Vietnamita => "Kiểm tra âm thanh",
        Idioma::ChinoSimplificado => "测试声音",
    }
}

/// The `left` text in each language.
pub open spec fn m_left_spec(idioma: Idioma) -> Seq<char> {
    match idioma {
        Idioma::BelarusLatino => "nałjeva"@,
        Idioma::Belarus => "Злева"@,
        Idioma::Catalan => "Esquerra"@,
        Idioma::Checo => "Vlevo"@,
        Idioma::Aleman | Idioma::Neerlandes => "Links"@,
        Idioma::Ingles => "Left"@,
        Idioma::Espanol => "Izquierda"@,
        Idioma::Frances => "Gauche"@,
        Idioma::Gallego | Idioma::PortuguesBrasil => "Esquerda"@,
        Idioma::Hungaro => "Bal"@,
        Idioma::Italiano => "Sinistra"@,
        Idioma::Coreano => "좌측"@,
        Idioma::Kurdo => "Çep"@,
        Idioma::NoruegoNynorsk => "Venstre"@,
        Idioma::Polaco => "Lewo"@,
        Idioma::Ruso => "Слева"@,
        Idioma::Sueco => "Vänster"@,
        Idioma::Turco => "Sol"@,
        Idioma::Ucraniano => "Ліворуч"@,
        Idioma::Vietnamita => "Trái"@,
        Idioma::ChinoSimplificado => "左侧"@,
    }
}

pub fn m_left(idioma: Idioma) -> (r: &'static str)
    ensures
        r@ == m_left_spec(idioma),
{
    match idioma {
        Idioma::BelarusLatino => "nałjeva",
        Idioma::Belarus => "Злева",
        Idioma::Catalan => "Esquerra",
        Idioma::Checo => "Vlevo",
        Idioma::Aleman | Idioma::Neerlandes => "Links",
        Idioma::Ingles => "Left",
        Idioma::Espanol => "Izquierda",
        Idioma::Frances => "Gauche",
        Idioma::Gallego | Idioma::PortuguesBrasil => "Esquerda",
        Idioma::Hungaro => "Bal",
        Idioma::Italiano => "Sinistra",
        Idioma::Coreano => "좌측",
        Idioma::Kurdo => "Çep",
        Idioma::NoruegoNynorsk => "Venstre",
        Idioma::Polaco => "Lewo",
        Idioma::Ruso => "Слева",
        Idioma::Sueco => "Vänster",
        Idioma::Turco => "Sol",
        Idioma::Ucraniano => "Ліворуч",
        Idioma::Vietnamita => "Trái",
        Idioma::ChinoSimplificado => "左侧",
    }
}

/// The `right` text in each language.
pub open spec fn m_right_spec(idioma: Idioma) -> Seq<char> {
    match idioma {
        Idioma::BelarusLatino => "praviłna"@,
        Idioma::Belarus | Idioma::Ruso => "Справа"@,
        Idioma::Catalan => "Dreta"@,
        Idioma::Checo => "Vpravo"@,
        Idioma::Aleman | Idioma::Neerlandes => "Rechts"@,
        Idioma::Ingles => "Right"@,
        Idioma::Espanol => "Derecha"@,
        Idioma::Frances => "Droite"@,
        Idioma::Gallego => "Dereita"@,
        Idioma::Hungaro => "Jobb"@,
        Idioma::Italiano => "Destra"@,
        Idioma::Coreano => "우측"@,
        Idioma::Kurdo => "Rast"@,
        Idioma::NoruegoNynorsk => "Høgre"@,
        Idioma::Polaco => "Prawo"@,
        Idioma::PortuguesBrasil => "Direita"@,
        Idioma::Sueco => "Rätt"@,
        Idioma::Turco => "Sağ"@,
        Idioma::Ucraniano => "Праворуч"@,
        Idioma::Vietnamita => "Phải"@,
        Idioma::ChinoSimplificado => "右侧"@,
    }
}

pub fn m_right(idioma: Idioma) -> (r: &'static str)
    ensures
        r@ == m_right_spec(idioma),
{
    match idioma {
        Idioma::BelarusLatino => "praviłna",
        Idioma::Belarus | Idioma::Ruso => "Справа",
        Idioma::Catalan => "Dreta",
        Idioma::Checo => "Vpravo",
        Idioma::Aleman | Idioma::Neerlandes => "Rechts",
        Idioma::Ingles => "Right",
        Idioma::Espanol => "Derecha",
        Idioma::Frances => "Droite",
        Idioma::Gallego => "Dereita",
        Idioma::Hungaro => "Jobb",
        Idioma::Italiano => "Destra",
        Idioma::Coreano => "우측",
        Idioma::Kurdo => "Rast",
        Idioma::NoruegoNynorsk => "Høgre",
        Idioma::Polaco => "Prawo",
        Idioma::PortuguesBrasil => "Direita",
        Idioma::Sueco => "Rätt",
        Idioma::Turco => "Sağ",
        Idioma::Ucraniano => "Праворуч",
        Idioma::Vietnamita => "Phải",
        Idioma::ChinoSimplificado => "右侧",
    }
}

/// The `output_done` text in each language.
pub open spec fn m_output_done_spec(idioma: Idioma) -> Seq<char> {
    match idioma {
        Idioma::BelarusLatino => "Test vychadu huku zavjeršany."@,
        Idioma::Belarus => "Тэст выхаду гуку завершаны."@,
        Idioma::Catalan => "S'ha completat la prova de sortida del so."@,
        Idioma::Checo => "Test zvukového výstupu dokončen."@,
        Idioma::Aleman => "Tonausgabetest abgeschlossen."@,
        Idioma::Ingles => "Sound output test completed."@,
        Idioma::Espanol => "Prueba de salida completada."@,
        Idioma::Frances => "Test de sortie sonore terminé."@,
        Idioma::Gallego => "Proba de saída de son rematada."@,
        Idioma::Hungaro => "A hangkimenet tesztje befejeződött."@,
        Idioma::Italiano => "Test dell'uscita audio completato."@,
        Idioma::Coreano => "사운드 출력 테스트가 완료되었습니다."@,
        Idioma::Kurdo => "Testa derketina deng qediya."@,
        Idioma::Neerlandes => "Test geluidsuitvoer voltooid."@,
        Idioma::NoruegoNynorsk => "Lydutgangstest fullført."@,
        Idioma::Polaco => "Zakończono test wyjścia dźwięku."@,
        Idioma::PortuguesBrasil => "Teste de saída de som concluído."@,
        Idioma::Ruso => "Проверка вывода звука завершена."@,
        Idioma::Sueco => "Ljudutgångstest avslutat."@,
        Idioma::Turco => "Ses çıkışı testi tamamlandı."@,
        Idioma::Ucraniano => "Перевірку вихідного звуку завершено."@,
        Idioma::Vietnamita => "Kiểm tra đầu ra âm thanh đã hoàn thành."@,
        Idioma::ChinoSimplificado => "声音输出测试完成。"@,
    }
}

pub fn m_output_done(idioma: Idioma) -> (r: &'static str)
    ensures
        r@ == m_output_done_spec(idioma),
{
    match idioma {
        Idioma::BelarusLatino => "Test vychadu huku zavjeršany.",
        Idioma::Belarus => "Тэст выхаду гуку завершаны.",
        Idioma::Catalan => "S'ha completat la prova de sortida del so.",
        Idioma::Checo => "Test zvukového výstupu dokončen.",
        Idioma::Aleman => "Tonausgabetest abgeschlossen.",
        Idioma::Ingles => "Sound output test completed.",
        Idioma::Espanol => "Prueba de salida completada.",
        Idioma::Frances => "Test de sortie sonore terminé.",
        Idioma::Gallego => "Proba de saída de son rematada.",
        Idioma::Hungaro => "A hangkimenet tesztje befejeződött.",
        Idioma::Italiano => "Test dell'uscita audio completato.",
        Idioma::Coreano => "사운드 출력 테스트가 완료되었습니다.",
        Idioma::Kurdo => "Testa derketina deng qediya.",
        Idioma::Neerlandes => "Test geluidsuitvoer voltooid.",
        Idioma::NoruegoNynorsk => "Lydutgangstest fullført.",
        Idioma::Polaco => "Zakończono test wyjścia dźwięku.",
        Idioma::PortuguesBrasil => "Teste de saída de som concluído.",
        Idioma::Ruso => "Проверка вывода звука завершена.",
        Idioma::Sueco => "Ljudutgångstest avslutat.",
        Idioma::Turco => "Ses çıkışı testi tamamlandı.",
        Idioma::Ucraniano => "Перевірку вихідного звуку завершено.",
        Idioma::Vietnamita => "Kiểm tra đầu ra âm thanh đã hoàn thành.",
        Idioma::ChinoSimplificado => "声音输出测试完成。",
    }
}

/// The `mic_test` text in each language.
pub open spec fn m_mic_test_spec(idioma: Idioma) -> Seq<char> {
    match idioma {
        Idioma::BelarusLatino => "Test mikrafona"@,
        Idioma::Belarus => "Тэст мікрафона"@,
        Idioma::Catalan => "Micròfon de prova"@,
        Idioma::Checo => "Testovací mikrofon"@,
        Idioma::Aleman => "Testmikrofon"@,
        Idioma::Ingles => "Test microphone"@,
        Idioma::Espanol => "Probar micrófono"@,
        Idioma::Frances => "Tester le microphone"@,
        Idioma::Gallego => "Micrófono de proba"@,
        Idioma::Hungaro => "Mikrofon tesztelése"@,
        Idioma::Italiano => "Prova il microfono"@,
        Idioma::Coreano => "마이크 테스트"@,
        Idioma::Kurdo => "Mîkrofona testê"@,
        Idioma::Neerlandes => "Microfoon testen"@,
        Idioma::NoruegoNynorsk => "Test mikrofon"@,
        Idioma::Polaco => "Mikrofon testowy"@,
        Idioma::PortuguesBrasil => "Microfone de teste"@,
        Idioma::Ruso => "Тестовый микрофон"@,
        Idioma::Sueco => "Testa mikrofonen"@,
        Idioma::Turco => "Mikrofonu test edin"@,
        Idioma::Ucraniano => "Тестовий мікрофон"@,
        Idioma::Vietnamita => "Kiểm tra micrô"@,
        Idioma::ChinoSimplificado => "测试麦克风"@,
    }
}

pub fn m_mic_test(idioma: Idioma) -> (r: &'static str)
    ensures
        r@ == m_mic_test_spec(idioma),
{
    match idioma {
        Idioma::BelarusLatino => "Test mikrafona",
        Idioma::Belarus => "Тэст мікрафона",
        Idioma::Catalan => "Micròfon de prova",
        Idioma::Checo => "Testovací mikrofon",
        Idioma::Aleman => "Testmikrofon",
        Idioma::Ingles => "Test microphone",
        Idioma::Espanol => "Probar micrófono",
        Idioma::Frances => "Tester le microphone",
        Idioma::Gallego => "Micrófono de proba",
        Idioma::Hungaro => "Mikrofon tesztelése",
        Idioma::Italiano => "Prova il microfono",
        Idioma::Coreano => "마이크 테스트",
        Idioma::Kurdo => "Mîkrofona testê",
        Idioma::Neerlandes => "Microfoon testen",
        Idioma::NoruegoNynorsk => "Test mikrofon",
        Idioma::Polaco => "Mikrofon testowy",
        Idioma::PortuguesBrasil => "Microfone de teste",
        Idioma::Ruso => "Тестовый микрофон",
        Idioma::Sueco => "Testa mikrofonen",
        Idioma::Turco => "Mikrofonu test edin",
        Idioma::Ucraniano => "Тестовий мікрофон",
        Idioma::Vietnamita => "Kiểm tra micrô",
        Idioma::ChinoSimplificado => "测试麦克风",
    }
}

/// The `mic_pick` text in each language.
pub open spec fn m_mic_pick_spec(idioma: Idioma) -> Seq<char> {
    match idioma {
        Idioma::BelarusLatino => "Mikrafon dłja pravjerki"@,
        Idioma::Belarus => "Мікрафон для праверкі"@,
        Idioma::Catalan => "Micròfon per provar"@,
        Idioma::Checo => "Mikrofon na zkoušku"@,
        Idioma::Aleman => "Mikrofon zum Testen"@,
        Idioma::Ingles => "Microphone to test"@,
        Idioma::Espanol => "Micrófono para la prueba"@,
        Idioma::Frances => "Micro à tester"@,
        Idioma::Gallego => "Micrófono para probar"@,
        Idioma::Hungaro => "Tesztelendő mikrofon"@,
        Idioma::Italiano => "Microfono da testare"@,
        Idioma::Coreano => "테스트할 마이크"@,
        Idioma::Kurdo => "Mîkrofon ji bo ceribandinê"@,
        Idioma::Neerlandes => "Microfoon om te testen"@,
        Idioma::NoruegoNynorsk => "Mikrofon for å teste"@,
        Idioma::Polaco => "Mikrofon do przetestowania"@,
        Idioma::PortuguesBrasil => "Microfone para testar"@,
        Idioma::Ruso => "Микрофон для проверки"@,
        Idioma::Sueco => "Mikrofon att testa"@,
        Idioma::Turco => "Test edilecek mikrofon"@,
        Idioma::Ucraniano => "Мікрофон для перевірки"@,
        Idioma::Vietnamita => "Micrô để kiểm tra"@,
        Idioma::ChinoSimplificado => "待测试麦克风"@,
    }
}

pub fn m_mic_pick(idioma: Idioma) -> (r: &'static str)
    ensures
        r@ == m_mic_pick_spec(idioma),
{
    match idioma {
        Idioma::BelarusLatino => "Mikrafon dłja pravjerki",
        Idioma::Belarus => "Мікрафон для праверкі",
        Idioma::Catalan => "Micròfon per provar",
        Idioma::Checo => "Mikrofon na zkoušku",
        Idioma::Aleman => "Mikrofon zum Testen",
        Idioma::Ingles => "Microphone to test",
        Idioma::Espanol => "Micrófono para la prueba",
        Idioma::Frances => "Micro à tester",
        Idioma::Gallego => "Micrófono para probar",
        Idioma::Hungaro => "Tesztelendő mikrofon",
        Idioma::Italiano => "Microfono da testare",
        Idioma::Coreano => "테스트할 마이크",
        Idioma::Kurdo => "Mîkrofon ji bo ceribandinê",
        Idioma::Neerlandes => "Microfoon om te testen",
        Idioma::NoruegoNynorsk => "Mikrofon for å teste",
        Idioma::Polaco => "Mikrofon do przetestowania",
        Idioma::PortuguesBrasil => "Microfone para testar",
        Idioma::Ruso => "Микрофон для проверки",
        Idioma::Sueco => "Mikrofon att testa",
        Idioma::Turco => "Test edilecek mikrofon",
        Idioma::Ucraniano => "Мікрофон для перевірки",
        Idioma::Vietnamita => "Micrô để kiểm tra",
        Idioma::ChinoSimplificado => "待测试麦克风",
    }
}

/// The `mic_level` text in each language.
pub open spec fn m_mic_level_spec(idioma: Idioma) -> Seq<char> {
    match idioma {
        Idioma::BelarusLatino => "Žyvy ŭzrovjen mikrafona"@,
        Idioma::Belarus => "Жывы ўзровень мікрафона"@,
        Idioma::Catalan => "Nivell de micròfon en directe"@,
        Idioma::Checo => "Živá úroveň mikrofonu"@,
        Idioma::Aleman => "Live-Mikrofonpegel"@,
        Idioma::Ingles => "Live microphone level"@,
        Idioma::Espanol => "Nivel del micrófono en vivo"@,
        Idioma::Frances => "Niveau du microphone en direct"@,
        Idioma::Gallego => "Nivel de micrófono en directo"@,
        Idioma::Hungaro => "Élő mikrofonszint"@,
        Idioma::Italiano => "Livello del microfono dal vivo"@,
        Idioma::Coreano => "라이브 마이크 레벨"@,
        Idioma::Kurdo => "Asta mîkrofona zindî"@,
        Idioma::Neerlandes => "Live microfoonniveau"@,
        Idioma::NoruegoNynorsk | Idioma::Sueco => "Live mikrofonnivå"@,
        Idioma::Polaco => "Poziom mikrofonu na żywo"@,
        Idioma::PortuguesBrasil => "Nível do microfone ao vivo"@,
        Idioma::Ruso => "Уровень живого микрофона"@,
        Idioma::Turco => "Canlı mikrofon seviyesi"@,
        Idioma::Ucraniano => "Живий рівень мікрофона"@,
        Idioma::Vietnamita => "Mức micrô trực tiếp"@,
        Idioma::ChinoSimplificado => "现场麦克风电平"@,
    }
}

pub fn m_mic_level(idioma: Idioma) -> (r: &'static str)
    ensures
        r@ == m_mic_level_spec(idioma),
{
    match idioma {
        Idioma::BelarusLatino => "Žyvy ŭzrovjen mikrafona",
        Idioma::Belarus => "Жывы ўзровень мікрафона",
        Idioma::Catalan => "Nivell de micròfon en directe",
        Idioma::Checo => "Živá úroveň mikrofonu",
        Idioma::Aleman => "Live-Mikrofonpegel",
        Idioma::Ingles => "Live microphone level",
        Idioma::Espanol => "Nivel del micrófono en vivo",
        Idioma::Frances => "Niveau du microphone en direct",
        Idioma::Gallego => "Nivel de micrófono en directo",
        Idioma::Hungaro => "Élő mikrofonszint",
        Idioma::Italiano => "Livello del microfono dal vivo",
        Idioma::Coreano => "라이브 마이크 레벨",
        Idioma::Kurdo => "Asta mîkrofona zindî",
        Idioma::Neerlandes => "Live microfoonniveau",
        Idioma::NoruegoNynorsk | Idioma::Sueco => "Live mikrofonnivå",
        Idioma::Polaco => "Poziom mikrofonu na żywo",
        Idioma::PortuguesBrasil => "Nível do microfone ao vivo",
        Idioma::Ruso => "Уровень живого микрофона",
        Idioma::Turco => "Canlı mikrofon seviyesi",
        Idioma::Ucraniano => "Живий рівень мікрофона",
        Idioma::Vietnamita => "Mức micrô trực tiếp",
        Idioma::ChinoSimplificado => "现场麦克风电平",
    }
}

/// The `mic_level_detail` text in each language.
pub open spec fn m_mic_level_detail_spec(idioma: Idioma) -> Seq<char> {
    match idioma {
        Idioma::BelarusLatino => "Razmaŭłjajcje zvyčajna, pakuł łičyłnik aktyŭny. Nacisnicje Spynic vymjarennje, kałi skončycje."@,
        Idioma::Belarus => "Размаўляйце звычайна, пакуль лічыльнік актыўны. Націсніце Спыніць вымярэнне, калі скончыце."@,
        Idioma::Catalan => "Parleu normalment mentre el mesurador està actiu. Premeu Atura de mesurar quan hàgiu acabat."@,
        Idioma::Checo => "Když je měřič aktivní, mluvte normálně. Až budete hotovi, stiskněte Zastavit měření."@,
        Idioma::Aleman => "Sprechen Sie normal, während das Messgerät aktiv ist. Drücken Sie „Messung stoppen“, wenn Sie fertig sind."@,
        Idioma::Ingles => "Speak normally while the meter is active. Press Stop measuring when you are done."@,
        Idioma::Espanol => "Habla con normalidad mientras la medición esté activa. Pulsa Detener medición cuando termines."@,
        Idioma::Frances => "Parlez normalement lorsque le compteur est actif. Appuyez sur Arrêter de mesurer lorsque vous avez terminé."@,
        Idioma::Gallego => "Fala normalmente mentres o medidor está activo. Preme Deixar de medir cando remates."@,
        Idioma::Hungaro => "Beszélj normál hangerővel, amíg a mérés aktív. Ha végeztél, állítsd le a mérést."@,
        Idioma::Italiano => "Parla normalmente mentre lo strumento è attivo. Premere Interrompi misurazione quando hai finito."@,
        Idioma::Coreano => "미터가 활성화된 동안 정상적으로 말하십시오. 완료되면 측정 중지를 누르세요."@,
        Idioma::Kurdo => "Dema ku metre çalak e bi gelemperî biaxivin. Dema ku hûn qediyan, pêl Stop pîvandinê bikin."@,
        Idioma::Neerlandes => "Spreek normaal terwijl de meter actief is. Druk op Stop met meten als u klaar bent."@,
        Idioma::NoruegoNynorsk => "Snakk normalt mens måleren er aktiv. Trykk Stopp måling når du er ferdig."@,
        Idioma::Polaco => "Mów normalnie, gdy licznik jest aktywny. Po zakończeniu naciśnij przycisk Zatrzymaj pomiar."@,
        Idioma::PortuguesBrasil => "Fale normalmente enquanto o medidor estiver ativo. Pressione Parar medição quando terminar."@,
        Idioma::Ruso => "Говорите нормально, пока глюкометр активен. Когда закончите, нажмите «Остановить измерение»."@,
        Idioma::Sueco => "Tala normalt medan mätaren är aktiv. Tryck på Stoppa mätning när du är klar."@,
        Idioma::Turco => "Sayaç aktifken normal konuşun. İşiniz bittiğinde Ölçümü durdur'a basın."@,
        Idioma::Ucraniano => "Говоріть нормально, поки лічильник активний. Натисніть Зупинити вимірювання, коли закінчите."@,
        Idioma::Vietnamita => "Nói chuyện bình thường trong khi đồng hồ đang hoạt động. Nhấn Dừng đo khi bạn hoàn tất."@,
        Idioma::ChinoSimplificado => "当仪表处于活动状态时正常说话。完成后按停止测量。"@,
    }
}

pub fn m_mic_level_detail(idioma: Idioma) -> (r: &'static str)
    ensures
        r@ == m_mic_level_detail_spec(idioma),
{
    match idioma {
        Idioma::BelarusLatino => "Razmaŭłjajcje zvyčajna, pakuł łičyłnik aktyŭny. Nacisnicje Spynic vymjarennje, kałi skončycje.",
        Idioma::Belarus => "Размаўляйце звычайна, пакуль лічыльнік актыўны. Націсніце Спыніць вымярэнне, калі скончыце.",
        Idioma::Catalan => "Parleu normalment mentre el mesurador està actiu. Premeu Atura de mesurar quan hàgiu acabat.",
        Idioma::Checo => "Když je měřič aktivní, mluvte normálně. Až budete hotovi, stiskněte Zastavit měření.",
        Idioma::Aleman => "Sprechen Sie normal, während das Messgerät aktiv ist. Drücken Sie „Messung stoppen“, wenn Sie fertig sind.",
        Idioma::Ingles => "Speak normally while the meter is active. Press Stop measuring when you are done.",
        Idioma::Espanol => "Habla con normalidad mientras la medición esté activa. Pulsa Detener medición cuando termines.",
        Idioma::Frances => "Parlez normalement lorsque le compteur est actif. Appuyez sur Arrêter de mesurer lorsque vous avez terminé.",
        Idioma::Gallego => "Fala normalmente mentres o medidor está activo. Preme Deixar de medir cando remates.",
        Idioma::Hungaro => "Beszélj normál hangerővel, amíg a mérés aktív. Ha végeztél, állítsd le a mérést.",
        Idioma::Italiano => "Parla normalmente mentre lo strumento è attivo. Premere Interrompi misurazione quando hai finito.",
        Idioma::Coreano => "미터가 활성화된 동안 정상적으로 말하십시오. 완료되면 측정 중지를 누르세요.",
        Idioma::Kurdo => "Dema ku metre çalak e bi gelemperî biaxivin. Dema ku hûn qediyan, pêl Stop pîvandinê bikin.",
        Idioma::Neerlandes => "Spreek normaal terwijl de meter actief is. Druk op Stop met meten als u klaar bent.",
        Idioma::NoruegoNynorsk => "Snakk normalt mens måleren er aktiv. Trykk Stopp måling når du er ferdig.",
        Idioma::Polaco => "Mów normalnie, gdy licznik jest aktywny. Po zakończeniu naciśnij przycisk Zatrzymaj pomiar.",
        Idioma::PortuguesBrasil => "Fale normalmente enquanto o medidor estiver ativo. Pressione Parar medição quando terminar.",
        Idioma::Ruso => "Говорите нормально, пока глюкометр активен. Когда закончите, нажмите «Остановить измерение».",
        Idioma::Sueco => "Tala normalt medan mätaren är aktiv. Tryck på Stoppa mätning när du är klar.",
        Idioma::Turco => "Sayaç aktifken normal konuşun. İşiniz bittiğinde Ölçümü durdur'a basın.",
        Idioma::Ucraniano => "Говоріть нормально, поки лічильник активний. Натисніть Зупинити вимірювання, коли закінчите.",
        Idioma::Vietnamita => "Nói chuyện bình thường trong khi đồng hồ đang hoạt động. Nhấn Dừng đo khi bạn hoàn tất.",
        Idioma::ChinoSimplificado => "当仪表处于活动状态时正常说话。完成后按停止测量。",
    }
}

/// The `measure` text in each language.
pub open spec fn m_measure_spec(idioma: Idioma) -> Seq<char> {
    match idioma {
        Idioma::BelarusLatino => "Pačnicje vymjarac"@,
        Idioma::Belarus => "Пачніце вымяраць"@,
        Idioma::Catalan => "Comença a mesurar"@,
        Idioma::Checo => "Začněte měřit"@,
        Idioma::Aleman => "Beginnen Sie mit der Messung"@,
        Idioma::Ingles => "Start measuring"@,
        Idioma::Espanol => "Iniciar medición"@,
        Idioma::Frances => "Commencez à mesurer"@,
        Idioma::Gallego => "Comeza a medir"@,
        Idioma::Hungaro => "Mérés indítása"@,
        Idioma::Italiano => "Inizia a misurare"@,
        Idioma::Coreano => "측정 시작"@,
        Idioma::Kurdo => "Dest bi pîvandinê bikin"@,
        Idioma::Neerlandes => "Begin met meten"@,
        Idioma::NoruegoNynorsk => "Begynn å måle"@,
        Idioma::Polaco => "Rozpocznij pomiar"@,
        Idioma::PortuguesBrasil => "Comece a medir"@,
        Idioma::Ruso => "Начать измерение"@,
        Idioma::Sueco => "Börja mäta"@,
        Idioma::Turco => "Ölçüme başlayın"@,
        Idioma::Ucraniano => "Почніть вимірювати"@,
        Idioma::Vietnamita => "Bắt đầu đo"@,
        Idioma::ChinoSimplificado => "开始测量"@,
    }
}

pub fn m_measure(idioma: Idioma) -> (r: &'static str)
    ensures
        r@ == m_measure_spec(idioma),
{
    match idioma {
        Idioma::BelarusLatino => "Pačnicje vymjarac",
        Idioma::Belarus => "Пачніце вымяраць",
        Idioma::Catalan => "Comença a mesurar",
        Idioma::Checo => "Začněte měřit",
        Idioma::Aleman => "Beginnen Sie mit der Messung",
        Idioma::Ingles => "Start measuring",
        Idioma::Espanol => "Iniciar medición",
        Idioma::Frances => "Commencez à mesurer",
        Idioma::Gallego => "Comeza a medir",
        Idioma::Hungaro => "Mérés indítása",
        Idioma::Italiano => "Inizia a misurare",
        Idioma::Coreano => "측정 시작",
        Idioma::Kurdo => "Dest bi pîvandinê bikin",
        Idioma::Neerlandes => "Begin met meten",
        Idioma::NoruegoNynorsk => "Begynn å måle",
        Idioma::Polaco => "Rozpocznij pomiar",
        Idioma::PortuguesBrasil => "Comece a medir",
        Idioma::Ruso => "Начать измерение",
        Idioma::Sueco => "Börja mäta",
        Idioma::Turco => "Ölçüme başlayın",
        Idioma::Ucraniano => "Почніть вимірювати",
        Idioma::Vietnamita => "Bắt đầu đo",
        Idioma::ChinoSimplificado => "开始测量",
    }
}

/// The `measure_stop` text in each language.
pub open spec fn m_measure_stop_spec(idioma: Idioma) -> Seq<char> {
    match idioma {
        Idioma::BelarusLatino => "Spynic vymjarennje"@,
        Idioma::Belarus => "Спыніць вымярэнне"@,
        Idioma::Catalan => "Deixa de mesurar"@,
        Idioma::Checo => "Přestaňte měřit"@,
        Idioma::Aleman => "Hören Sie auf zu messen"@,
        Idioma::Ingles => "Stop measuring"@,
        Idioma::Espanol => "Detener medición"@,
        Idioma::Frances => "Arrêter de mesurer"@,
        Idioma::Gallego => "Deixa de medir"@,
        Idioma::Hungaro => "Mérés leállítása"@,
        Idioma::Italiano => "Smetti di misurare"@,
        Idioma::Coreano => "측정 중지"@,
        Idioma::Kurdo => "Pîvan rawestînin"@,
        Idioma::Neerlandes => "Stop met meten"@,
        Idioma::NoruegoNynorsk => "Slutt å måle"@,
        Idioma::Polaco => "Przestań mierzyć"@,
        Idioma::PortuguesBrasil => "Pare de medir"@,
        Idioma::Ruso => "Прекратить измерение"@,
        Idioma::Sueco => "Sluta mäta"@,
        Idioma::Turco => "Ölçümü durdur"@,
        Idioma::Ucraniano => "Припинити вимірювання"@,
        Idioma::Vietnamita => "Dừng đo"@,
        Idioma::ChinoSimplificado => "停止测量"@,
    }
}

pub fn m_measure_stop(idioma: Idioma) -> (r: &'static str)
    ensures
        r@ == m_measure_stop_spec(idioma),
{
    match idioma {
        Idioma::BelarusLatino => "Spynic vymjarennje",
        Idioma::Belarus => "Спыніць вымярэнне",
        Idioma::Catalan => "Deixa de mesurar",
        Idioma::Checo => "Přestaňte měřit",
        Idioma::Aleman => "Hören Sie auf zu messen",
        Idioma::Ingles => "Stop measuring",
        Idioma::Espanol => "Detener medición",
        Idioma::Frances => "Arrêter de mesurer",
        Idioma::Gallego => "Deixa de medir",
        Idioma::Hungaro => "Mérés leállítása",
        Idioma::Italiano => "Smetti di misurare",
        Idioma::Coreano => "측정 중지",
        Idioma::Kurdo => "Pîvan rawestînin",
        Idioma::Neerlandes => "Stop met meten",
        Idioma::NoruegoNynorsk => "Slutt å måle",
        Idioma::Polaco => "Przestań mierzyć",
        Idioma::PortuguesBrasil => "Pare de medir",
        Idioma::Ruso => "Прекратить измерение",
        Idioma::Sueco => "Sluta mäta",
        Idioma::Turco => "Ölçümü durdur",
        Idioma::Ucraniano => "Припинити вимірювання",
        Idioma::Vietnamita => "Dừng đo",
        Idioma::ChinoSimplificado => "停止测量",
    }
}

/// The `record` text in each language.
pub open spec fn m_record_spec(idioma: Idioma) -> Seq<char> {
    match idioma {
        Idioma::BelarusLatino => "Zapis testu"@,
        Idioma::Belarus => "Запіс тэсту"@,
        Idioma::Catalan => "Prova de registre"@,
        Idioma::Checo => "Záznam testu"@,
        Idioma::Aleman | Idioma::Sueco => "Rekordtest"@,
        Idioma::Ingles => "Record test"@,
        Idioma::Espanol => "Grabar prueba"@,
        Idioma::Frances => "Test d'enregistrement"@,
        Idioma::Gallego => "Proba de rexistro"@,
        Idioma::Hungaro => "Próba felvétele"@,
        Idioma::Italiano => "Prova di registrazione"@,
        Idioma::Coreano => "기록 테스트"@,
        Idioma::Kurdo => "Testê tomar bikin"@,
        Idioma::Neerlandes => "Test opnemen"@,
        Idioma::NoruegoNynorsk => "Rekordprøve"@,
        Idioma::Polaco => "Rekordowy test"@,
        Idioma::PortuguesBrasil => "Teste de registro"@,
        Idioma::Ruso => "Запись теста"@,
        Idioma::Turco => "Testi kaydet"@,
        Idioma::Ucraniano => "Запис тесту"@,
        Idioma::Vietnamita => "Ghi lại bài kiểm tra"@,
        Idioma::ChinoSimplificado => "记录测试"@,
    }
}

pub fn m_record(idioma: Idioma) -> (r: &'static str)
    ensures
        r@ == m_record_spec(idioma),
{
    match idioma {
        Idioma::BelarusLatino => "Zapis testu",
        Idioma::Belarus => "Запіс тэсту",
        Idioma::Catalan => "Prova de registre",
        Idioma::Checo => "Záznam testu",
        Idioma::Aleman | Idioma::Sueco => "Rekordtest",
        Idioma::Ingles => "Record test",
        Idioma::Espanol => "Grabar prueba",
        Idioma::Frances => "Test d'enregistrement",
        Idioma::Gallego => "Proba de rexistro",
        Idioma::Hungaro => "Próba felvétele",
        Idioma::Italiano => "Prova di registrazione",
        Idioma::Coreano => "기록 테스트",
        Idioma::Kurdo => "Testê tomar bikin",
        Idioma::Neerlandes => "Test opnemen",
        Idioma::NoruegoNynorsk => "Rekordprøve",
        Idioma::Polaco => "Rekordowy test",
        Idioma::PortuguesBrasil => "Teste de registro",
        Idioma::Ruso => "Запись теста",
        Idioma::Turco => "Testi kaydet",
        Idioma::Ucraniano => "Запис тесту",
        Idioma::Vietnamita => "Ghi lại bài kiểm tra",
        Idioma::ChinoSimplificado => "记录测试",
    }
}

/// The `record_again` text in each language.
pub open spec fn m_record_again_spec(idioma: Idioma) -> Seq<char> {
    match idioma {
        Idioma::BelarusLatino => "Zapis jašče raz"@,
        Idioma::Belarus => "Запіс яшчэ раз"@,
        Idioma::Catalan => "Torna a gravar"@,
        Idioma::Checo => "Nahrajte znovu"@,
        Idioma::Aleman => "Nochmals aufnehmen"@,
        Idioma::Ingles => "Record again"@,
        Idioma::Espanol => "Grabar de nuevo"@,
        Idioma::Frances => "Enregistrer à nouveau"@,
        Idioma::Gallego => "Gravar de novo"@,
        Idioma::Hungaro => "Új felvétel"@,
        Idioma::Italiano => "Registra di nuovo"@,
        Idioma::Coreano => "다시 녹음하세요"@,
        Idioma::Kurdo => "Dîsa tomar bikin"@,
        Idioma::Neerlandes => "Neem opnieuw op"@,
        Idioma::NoruegoNynorsk => "Ta opp igjen"@,
        Idioma::Polaco => "Nagraj ponownie"@,
        Idioma::PortuguesBrasil => "Grave novamente"@,
        Idioma::Ruso => "Записать еще раз"@,
        Idioma::Sueco => "Spela in igen"@,
        Idioma::Turco => "Tekrar kaydet"@,
        Idioma::Ucraniano => "Запис знову"@,
        Idioma::Vietnamita => "Ghi lại"@,
        Idioma::ChinoSimplificado => "再次录制"@,
    }
}

pub fn m_record_again(idioma: Idioma) -> (r: &'static str)
    ensures
        r@ == m_record_again_spec(idioma),
{
    match idioma {
        Idioma::BelarusLatino => "Zapis jašče raz",
        Idioma::Belarus => "Запіс яшчэ раз",
        Idioma::Catalan => "Torna a gravar",
        Idioma::Checo => "Nahrajte znovu",
        Idioma::Aleman => "Nochmals aufnehmen",
        Idioma::Ingles => "Record again",
        Idioma::Espanol => "Grabar de nuevo",
        Idioma::Frances => "Enregistrer à nouveau",
        Idioma::Gallego => "Gravar de novo",
        Idioma::Hungaro => "Új felvétel",
        Idioma::Italiano => "Registra di nuovo",
        Idioma::Coreano => "다시 녹음하세요",
        Idioma::Kurdo => "Dîsa tomar bikin",
        Idioma::Neerlandes => "Neem opnieuw op",
        Idioma::NoruegoNynorsk => "Ta opp igjen",
        Idioma::Polaco => "Nagraj ponownie",
        Idioma::PortuguesBrasil => "Grave novamente",
        Idioma::Ruso => "Записать еще раз",
        Idioma::Sueco => "Spela in igen",
        Idioma::Turco => "Tekrar kaydet",
        Idioma::Ucraniano => "Запис знову",
        Idioma::Vietnamita => "Ghi lại",
        Idioma::ChinoSimplificado => "再次录制",
    }
}

/// The `recording_button` text in each language.
pub open spec fn m_recording_button_spec(idioma: Idioma) -> Seq<char> {
    match idioma {
        Idioma::BelarusLatino => "Zapis..."@,
        Idioma::Belarus => "Запіс..."@,
        Idioma::Catalan => "Enregistrament..."@,
        Idioma::Checo => "Záznam…"@,
        Idioma::Aleman => "Aufnahme…"@,
        Idioma::Ingles => "Recording…"@,
        Idioma::Espanol => "Grabando…"@,
        Idioma::Frances => "Enregistrement…"@,
        Idioma::Gallego => "Gravando…"@,
        Idioma::Hungaro => "Felvétel…"@,
        Idioma::Italiano => "Registrazione…"@,
        Idioma::Coreano => "녹음…"@,
        Idioma::Kurdo => "Girtinî…"@,
        Idioma::Neerlandes => "Opnemen…"@,
        Idioma::NoruegoNynorsk => "Innspilling…"@,
        Idioma::Polaco => "Nagranie…"@,
        Idioma::PortuguesBrasil => "Gravação…"@,
        Idioma::Ruso => "Запись…"@,
        Idioma::Sueco => "Inspelning…"@,
        Idioma::Turco => "Kayıt…"@,
        Idioma::Ucraniano => "Запис..."@,
        Idioma::Vietnamita => "Đang ghi…"@,
        Idioma::ChinoSimplificado => "记录…"@,
    }
}

pub fn m_recording_button(idioma: Idioma) -> (r: &'static str)
    ensures
        r@ == m_recording_button_spec(idioma),
{
    match idioma {
        Idioma::BelarusLatino => "Zapis...",
        Idioma::Belarus => "Запіс...",
        Idioma::Catalan => "Enregistrament...",
        Idioma::Checo => "Záznam…",
        Idioma::Aleman => "Aufnahme…",
        Idioma::Ingles => "Recording…",
        Idioma::Espanol => "Grabando…",
        Idioma::Frances => "Enregistrement…",
        Idioma::Gallego => "Gravando…",
        Idioma::Hungaro => "Felvétel…",
        Idioma::Italiano => "Registrazione…",
        Idioma::Coreano => "녹음…",
        Idioma::Kurdo => "Girtinî…",
        Idioma::Neerlandes => "Opnemen…",
        Idioma::NoruegoNynorsk => "Innspilling…",
        Idioma::Polaco => "Nagranie…",
        Idioma::PortuguesBrasil => "Gravação…",
        Idioma::Ruso => "Запись…",
        Idioma::Sueco => "Inspelning…",
        Idioma::Turco => "Kayıt…",
        Idioma::Ucraniano => "Запис...",
        Idioma::Vietnamita => "Đang ghi…",
        Idioma::ChinoSimplificado => "记录…",
    }
}

/// The `playing_button` text in each language.
pub open spec fn m_playing_button_spec(idioma: Idioma) -> Seq<char> {
    match idioma {
        Idioma::BelarusLatino => "Prajhravannje..."@,
        Idioma::Belarus => "Прайграванне..."@,
        Idioma::Catalan => "S'està jugant…"@,
        Idioma::Checo => "Přehrává se…"@,
        Idioma::Aleman => "Spielen…"@,
        Idioma::Ingles => "Playing…"@,
        Idioma::Espanol => "Reproduciendo…"@,
        Idioma::Frances => "Jouant…"@,
        Idioma::Gallego => "Xogando…"@,
        Idioma::Hungaro => "Lejátszás…"@,
        Idioma::Italiano => "Giocando…"@,
        Idioma::Coreano => "재생 중…"@,
        Idioma::Kurdo => "Dilîstin…"@,
        Idioma::Neerlandes => "Spelen…"@,
        Idioma::NoruegoNynorsk => "Spiller …"@,
        Idioma::Polaco => "Gra…"@,
        Idioma::PortuguesBrasil => "Jogando…"@,
        Idioma::Ruso => "Игра…"@,
        Idioma::Sueco => "Spelar..."@,
        Idioma::Turco => "Oynanıyor…"@,
        Idioma::Ucraniano => "Відтворення…"@,
        Idioma::Vietnamita => "Đang chơi…"@,
        Idioma::ChinoSimplificado => "正在播放…"@,
    }
}

pub fn m_playing_button(idioma: Idioma) -> (r: &'static str)
    ensures
        r@ == m_playing_button_spec(idioma),
{
    match idioma {
        Idioma::BelarusLatino => "Prajhravannje...",
        Idioma::Belarus => "Прайграванне...",
        Idioma::Catalan => "S'està jugant…",
        Idioma::Checo => "Přehrává se…",
        Idioma::Aleman => "Spielen…",
        Idioma::Ingles => "Playing…",
        Idioma::Espanol => "Reproduciendo…",
        Idioma::Frances => "Jouant…",
        Idioma::Gallego => "Xogando…",
        Idioma::Hungaro => "Lejátszás…",
        Idioma::Italiano => "Giocando…",
        Idioma::Coreano => "재생 중…",
        Idioma::Kurdo => "Dilîstin…",
        Idioma::Neerlandes => "Spelen…",
        Idioma::NoruegoNynorsk => "Spiller …",
        Idioma::Polaco => "Gra…",
        Idioma::PortuguesBrasil => "Jogando…",
        Idioma::Ruso => "Игра…",
        Idioma::Sueco => "Spelar...",
        Idioma::Turco => "Oynanıyor…",
        Idioma::Ucraniano => "Відтворення…",
        Idioma::Vietnamita => "Đang chơi…",
        Idioma::ChinoSimplificado => "正在播放…",
    }
}

/// The `play` text in each language.
pub open spec fn m_play_spec(idioma: Idioma) -> Seq<char> {
    match idioma {
        Idioma::BelarusLatino => "Hułjac u test"@,
        Idioma::Belarus => "Гуляць у тэст"@,
        Idioma::Catalan => "Prova de joc"@,
        Idioma::Checo => "Přehrát test"@,
        Idioma::Aleman => "Spieltest"@,
        Idioma::Ingles => "Play test"@,
        Idioma::Espanol => "Reproducir prueba"@,
        Idioma::Frances => "Jouer à l'essai"@,
        Idioma::Gallego => "Proba de xogo"@,
        Idioma::Hungaro => "Próba lejátszása"@,
        Idioma::Italiano => "Gioca alla prova"@,
        Idioma::Coreano => "테스트 플레이"@,
        Idioma::Kurdo => "Test play"@,
        Idioma::Neerlandes => "Speeltest"@,
        Idioma::NoruegoNynorsk => "Spilleprøve"@,
        Idioma::Polaco => "Zagraj w próbę"@,
        Idioma::PortuguesBrasil => "Teste de jogo"@,
        Idioma::Ruso => "Игровой тест"@,
        Idioma::Sueco => "Spelprov"@,
        Idioma::Turco => "Testi oyna"@,
        Idioma::Ucraniano => "Грати в тест"@,
        Idioma::Vietnamita => "Chơi thử"@,
        Idioma::ChinoSimplificado => "播放测试"@,
    }
}

pub fn m_play(idioma: Idioma) -> (r: &'static str)
    ensures
        r@ == m_play_spec(idioma),
{
    match idioma {
        Idioma::BelarusLatino => "Hułjac u test",
        Idioma::Belarus => "Гуляць у тэст",
        Idioma::Catalan => "Prova de joc",
        Idioma::Checo => "Přehrát test",
        Idioma::Aleman => "Spieltest",
        Idioma::Ingles => "Play test",
        Idioma::Espanol => "Reproducir prueba",
        Idioma::Frances => "Jouer à l'essai",
        Idioma::Gallego => "Proba de xogo",
        Idioma::Hungaro => "Próba lejátszása",
        Idioma::Italiano => "Gioca alla prova",
        Idioma::Coreano => "테스트 플레이",
        Idioma::Kurdo => "Test play",
        Idioma::Neerlandes => "Speeltest",
        Idioma::NoruegoNynorsk => "Spilleprøve",
        Idioma::Polaco => "Zagraj w próbę",
        Idioma::PortuguesBrasil => "Teste de jogo",
        Idioma::Ruso => "Игровой тест",
        Idioma::Sueco => "Spelprov",
        Idioma::Turco => "Testi oyna",
        Idioma::Ucraniano => "Грати в тест",
        Idioma::Vietnamita => "Chơi thử",
        Idioma::ChinoSimplificado => "播放测试",
    }
}

/// The `voice_detail` text in each language.
pub open spec fn m_voice_detail_spec(idioma: Idioma) -> Seq<char> {
    match idioma {
        Idioma::BelarusLatino => "Zapisvaje karotki pryvatny ŭzor. Prajhravannje aŭtamatyčna vydałjaje časovy zapis."@,
        Idioma::Belarus => "Запісвае кароткі прыватны ўзор. Прайграванне аўтаматычна выдаляе часовы запіс."@,
        Idioma::Catalan => "Grava una breu mostra privada. La reproducció elimina automàticament l'enregistrament temporal."@,
        Idioma::Checo => "Nahrává krátkou soukromou ukázku. Přehrávání automaticky smaže dočasný záznam."@,
        Idioma::Aleman => "Nimmt eine kurze private Probe auf. Bei der Wiedergabe wird die temporäre Aufnahme automatisch gelöscht."@,
        Idioma::Ingles => "Records a short private sample. Playback deletes the temporary recording automatically."@,
        Idioma::Espanol => "Graba una muestra privada breve. Al reproducirla, la grabación temporal se elimina automáticamente."@,
        Idioma::Frances => "Enregistre un court échantillon privé. La lecture supprime automatiquement l’enregistrement temporaire."@,
        Idioma::Gallego => "Grava unha pequena mostra privada. A reprodución elimina automaticamente a gravación temporal."@,
        Idioma::Hungaro => "Rövid privát mintát rögzít. A lejátszás automatikusan törli az ideiglenes felvételt."@,
        Idioma::Italiano => "Registra un breve campione privato. La riproduzione elimina automaticamente la registrazione temporanea."@,
        Idioma::Coreano => "짧은 개인 샘플을 녹음합니다. 재생하면 임시 녹음이 자동으로 삭제됩니다."@,
        Idioma::Kurdo => "Nimûneyek taybet a kurt tomar dike. Playback bixweber tomarkirina demkî jêdibe."@,
        Idioma::Neerlandes => "Neemt een korte privésample op. Bij het afspelen wordt de tijdelijke opname automatisch verwijderd."@,
        Idioma::NoruegoNynorsk => "Tar opp en kort privat prøve. Avspilling sletter det midlertidige opptaket automatisk."@,
        Idioma::Polaco => "Rejestruje krótką prywatną próbkę. Odtwarzanie automatycznie usuwa nagranie tymczasowe."@,
        Idioma::PortuguesBrasil => "Grava uma pequena amostra privada. A reprodução exclui a gravação temporária automaticamente."@,
        Idioma::Ruso => "Записывает короткий частный образец. При воспроизведении временная запись автоматически удаляется."@,
        Idioma::Sueco => "Spelar in ett kort privat prov. Uppspelning raderar den tillfälliga inspelningen automatiskt."@,
        Idioma::Turco => "Kısa bir özel örnek kaydeder. Oynatma, geçici kaydı otomatik olarak siler."@,
        Idioma::Ucraniano => "Записує короткий приватний зразок. Відтворення автоматично видаляє тимчасовий запис."@,
        Idioma::Vietnamita => "Ghi lại một mẫu riêng tư ngắn. Phát lại sẽ tự động xóa bản ghi tạm thời."@,
        Idioma::ChinoSimplificado => "记录一个简短的私人样本。播放时会自动删除临时录音。"@,
    }
}

pub fn m_voice_detail(idioma: Idioma) -> (r: &'static str)
    ensures
        r@ == m_voice_detail_spec(idioma),
{
    match idioma {
        Idioma::BelarusLatino => "Zapisvaje karotki pryvatny ŭzor. Prajhravannje aŭtamatyčna vydałjaje časovy zapis.",
        Idioma::Belarus => "Запісвае кароткі прыватны ўзор. Прайграванне аўтаматычна выдаляе часовы запіс.",
        Idioma::Catalan => "Grava una breu mostra privada. La reproducció elimina automàticament l'enregistrament temporal.",
        Idioma::Checo => "Nahrává krátkou soukromou ukázku. Přehrávání automaticky smaže dočasný záznam.",
        Idioma::Aleman => "Nimmt eine kurze private Probe auf. Bei der Wiedergabe wird die temporäre Aufnahme automatisch gelöscht.",
        Idioma::Ingles => "Records a short private sample. Playback deletes the temporary recording automatically.",
        Idioma::Espanol => "Graba una muestra privada breve. Al reproducirla, la grabación temporal se elimina automáticamente.",
        Idioma::Frances => "Enregistre un court échantillon privé. La lecture supprime automatiquement l’enregistrement temporaire.",
        Idioma::Gallego => "Grava unha pequena mostra privada. A reprodución elimina automaticamente a gravación temporal.",
        Idioma::Hungaro => "Rövid privát mintát rögzít. A lejátszás automatikusan törli az ideiglenes felvételt.",
        Idioma::Italiano => "Registra un breve campione privato. La riproduzione elimina automaticamente la registrazione temporanea.",
        Idioma::Coreano => "짧은 개인 샘플을 녹음합니다. 재생하면 임시 녹음이 자동으로 삭제됩니다.",
        Idioma::Kurdo => "Nimûneyek taybet a kurt tomar dike. Playback bixweber tomarkirina demkî jêdibe.",
        Idioma::Neerlandes => "Neemt een korte privésample op. Bij het afspelen wordt de tijdelijke opname automatisch verwijderd.",
        Idioma::NoruegoNynorsk => "Tar opp en kort privat prøve. Avspilling sletter det midlertidige opptaket automatisk.",
        Idioma::Polaco => "Rejestruje krótką prywatną próbkę. Odtwarzanie automatycznie usuwa nagranie tymczasowe.",
        Idioma::PortuguesBrasil => "Grava uma pequena amostra privada. A reprodução exclui a gravação temporária automaticamente.",
        Idioma::Ruso => "Записывает короткий частный образец. При воспроизведении временная запись автоматически удаляется.",
        Idioma::Sueco => "Spelar in ett kort privat prov. Uppspelning raderar den tillfälliga inspelningen automatiskt.",
        Idioma::Turco => "Kısa bir özel örnek kaydeder. Oynatma, geçici kaydı otomatik olarak siler.",
        Idioma::Ucraniano => "Записує короткий приватний зразок. Відтворення автоматично видаляє тимчасовий запис.",
        Idioma::Vietnamita => "Ghi lại một mẫu riêng tư ngắn. Phát lại sẽ tự động xóa bản ghi tạm thời.",
        Idioma::ChinoSimplificado => "记录一个简短的私人样本。播放时会自动删除临时录音。",
    }
}

/// The `recorded` text in each language.
pub open spec fn m_recorded_spec(idioma: Idioma) -> Seq<char> {
    match idioma {
        Idioma::BelarusLatino => "Zapisany ŭzor časovaha mikrafona."@,
        Idioma::Belarus => "Запісаны ўзор часовага мікрафона."@,
        Idioma::Catalan => "S'ha gravat una mostra de micròfon temporal."@,
        Idioma::Checo => "Dočasný záznam mikrofonu."@,
        Idioma::Aleman => "Temporäres Mikrofon-Sample aufgenommen."@,
        Idioma::Ingles => "Temporary microphone sample recorded."@,
        Idioma::Espanol => "Prueba temporal del micrófono grabada."@,
        Idioma::Frances => "Échantillon de microphone temporaire enregistré."@,
        Idioma::Gallego => "Mostra de micrófono temporal gravada."@,
        Idioma::Hungaro => "Az ideiglenes mikrofonminta elkészült."@,
        Idioma::Italiano => "Campione temporaneo registrato dal microfono."@,
        Idioma::Coreano => "임시 마이크 샘플이 녹음되었습니다."@,
        Idioma::Kurdo => "Nimûneya mîkrofona demkî hate tomar kirin."@,
        Idioma::Neerlandes => "Tijdelijk microfoonmonster opgenomen."@,
        Idioma::NoruegoNynorsk => "Midlertidig mikrofonprøve tatt opp."@,
        Idioma::Polaco => "Nagrano tymczasową próbkę mikrofonu."@,
        Idioma::PortuguesBrasil => "Amostra temporária de microfone gravada."@,
        Idioma::Ruso => "Записан временный образец микрофона."@,
        Idioma::Sueco => "Tillfälligt mikrofonprov inspelat."@,
        Idioma::Turco => "Geçici mikrofon örneği kaydedildi."@,
        Idioma::Ucraniano => "Тимчасовий зразок мікрофона записаний."@,
        Idioma::Vietnamita => "Đã ghi lại mẫu micrô tạm thời."@,
        Idioma::ChinoSimplificado => "录制临时麦克风样本。"@,
    }
}

pub fn m_recorded(idioma: Idioma) -> (r: &'static str)
    ensures
        r@ == m_recorded_spec(idioma),
{
    match idioma {
        Idioma::BelarusLatino => "Zapisany ŭzor časovaha mikrafona.",
        Idioma::Belarus => "Запісаны ўзор часовага мікрафона.",
        Idioma::Catalan => "S'ha gravat una mostra de micròfon temporal.",
        Idioma::Checo => "Dočasný záznam mikrofonu.",
        Idioma::Aleman => "Temporäres Mikrofon-Sample aufgenommen.",
        Idioma::Ingles => "Temporary microphone sample recorded.",
        Idioma::Espanol => "Prueba temporal del micrófono grabada.",
        Idioma::Frances => "Échantillon de microphone temporaire enregistré.",
        Idioma::Gallego => "Mostra de micrófono temporal gravada.",
        Idioma::Hungaro => "Az ideiglenes mikrofonminta elkészült.",
        Idioma::Italiano => "Campione temporaneo registrato dal microfono.",
        Idioma::Coreano => "임시 마이크 샘플이 녹음되었습니다.",
        Idioma::Kurdo => "Nimûneya mîkrofona demkî hate tomar kirin.",
        Idioma::Neerlandes => "Tijdelijk microfoonmonster opgenomen.",
        Idioma::NoruegoNynorsk => "Midlertidig mikrofonprøve tatt opp.",
        Idioma::Polaco => "Nagrano tymczasową próbkę mikrofonu.",
        Idioma::PortuguesBrasil => "Amostra temporária de microfone gravada.",
        Idioma::Ruso => "Записан временный образец микрофона.",
        Idioma::Sueco => "Tillfälligt mikrofonprov inspelat.",
        Idioma::Turco => "Geçici mikrofon örneği kaydedildi.",
        Idioma::Ucraniano => "Тимчасовий зразок мікрофона записаний.",
        Idioma::Vietnamita => "Đã ghi lại mẫu micrô tạm thời.",
        Idioma::ChinoSimplificado => "录制临时麦克风样本。",
    }
}

/// The `played` text in each language.
pub open spec fn m_played_spec(idioma: Idioma) -> Seq<char> {
    match idioma {
        Idioma::BelarusLatino => "Uzor mikrafona prajhrany i vydałjeny."@,
        Idioma::Belarus => "Узор мікрафона прайграны і выдалены."@,
        Idioma::Catalan => "S'ha reproduït i esborrat la mostra del micròfon."@,
        Idioma::Checo => "Vzorek mikrofonu přehrán a odstraněn."@,
        Idioma::Aleman => "Mikrofonbeispiel abgespielt und gelöscht."@,
        Idioma::Ingles => "Microphone sample played and deleted."@,
        Idioma::Espanol => "Prueba del micrófono reproducida y eliminada."@,
        Idioma::Frances => "Échantillon de microphone joué et supprimé."@,
        Idioma::Gallego => "Mostra de micrófono reproducida e eliminada."@,
        Idioma::Hungaro => "A mikrofonminta lejátszva és törölve."@,
        Idioma::Italiano => "Campione del microfono riprodotto ed eliminato."@,
        Idioma::Coreano => "마이크 샘플이 재생되고 삭제되었습니다."@,
        Idioma::Kurdo => "Nimûneya mîkrofonê hate lîstin û jêbirin."@,
        Idioma::Neerlandes => "Microfoonvoorbeeld afgespeeld en verwijderd."@,
        Idioma::NoruegoNynorsk => "Mikrofoneksempel spilt av og slettet."@,
        Idioma::Polaco => "Próbka mikrofonu odtworzona i usunięta."@,
        Idioma::PortuguesBrasil => "Amostra de microfone reproduzida e excluída."@,
        Idioma::Ruso => "Сэмпл микрофона воспроизведен и удален."@,
        Idioma::Sueco => "Mikrofonexempel spelas upp och raderas."@,
        Idioma::Turco => "Mikrofon örneği oynatıldı ve silindi."@,
        Idioma::Ucraniano => "Зразок мікрофона відтворено та видалено."@,
        Idioma::Vietnamita => "Mẫu micrô đã phát và xóa."@,
        Idioma::ChinoSimplificado => "麦克风样本已播放并删除。"@,
    }
}

pub fn m_played(idioma: Idioma) -> (r: &'static str)
    ensures
        r@ == m_played_spec(idioma),
{
    match idioma {
        Idioma::BelarusLatino => "Uzor mikrafona prajhrany i vydałjeny.",
        Idioma::Belarus => "Узор мікрафона прайграны і выдалены.",
        Idioma::Catalan => "S'ha reproduït i esborrat la mostra del micròfon.",
        Idioma::Checo => "Vzorek mikrofonu přehrán a odstraněn.",
        Idioma::Aleman => "Mikrofonbeispiel abgespielt und gelöscht.",
        Idioma::Ingles => "Microphone sample played and deleted.",
        Idioma::Espanol => "Prueba del micrófono reproducida y eliminada.",
        Idioma::Frances => "Échantillon de microphone joué et supprimé.",
        Idioma::Gallego => "Mostra de micrófono reproducida e eliminada.",
        Idioma::Hungaro => "A mikrofonminta lejátszva és törölve.",
        Idioma::Italiano => "Campione del microfono riprodotto ed eliminato.",
        Idioma::Coreano => "마이크 샘플이 재생되고 삭제되었습니다.",
        Idioma::Kurdo => "Nimûneya mîkrofonê hate lîstin û jêbirin.",
        Idioma::Neerlandes => "Microfoonvoorbeeld afgespeeld en verwijderd.",
        Idioma::NoruegoNynorsk => "Mikrofoneksempel spilt av og slettet.",
        Idioma::Polaco => "Próbka mikrofonu odtworzona i usunięta.",
        Idioma::PortuguesBrasil => "Amostra de microfone reproduzida e excluída.",
        Idioma::Ruso => "Сэмпл микрофона воспроизведен и удален.",
        Idioma::Sueco => "Mikrofonexempel spelas upp och raderas.",
        Idioma::Turco => "Mikrofon örneği oynatıldı ve silindi.",
        Idioma::Ucraniano => "Зразок мікрофона відтворено та видалено.",
        Idioma::Vietnamita => "Mẫu micrô đã phát và xóa.",
        Idioma::ChinoSimplificado => "麦克风样本已播放并删除。",
    }
}

/// The text of the sound tests for a key; `Korunix` for an unknown key.
pub open spec fn texto_prueba_multimedia_spec(idioma: Idioma, clave: Seq<char>) -> Seq<char> {
    if clave == "output_test"@ {
        m_output_test_spec(idioma)
    } else if clave == "output_pick"@ {
        m_output_pick_spec(idioma)
    } else if clave == "output_detail"@ {
        m_output_detail_spec(idioma)
    } else if clave == "both"@ {
        m_both_spec(idioma)
    } else if clave == "left"@ {
        m_left_spec(idioma)
    } else if clave == "right"@ {
        m_right_spec(idioma)
    } else if clave == "output_done"@ {
        m_output_done_spec(idioma)
    } else if clave == "mic_test"@ {
        m_mic_test_spec(idioma)
    } else if clave == "mic_pick"@ {
        m_mic_pick_spec(idioma)
    } else if clave == "mic_level"@ {
        m_mic_level_spec(idioma)
    } else if clave == "mic_level_detail"@ {
        m_mic_level_detail_spec(idioma)
    } else if clave == "measure"@ {
        m_measure_spec(idioma)
    } else if clave == "measure_stop"@ {
        m_measure_stop_spec(idioma)
    } else if clave == "record"@ {
        m_record_spec(idioma)
    } else if clave == "record_again"@ {
        m_record_again_spec(idioma)
    } else if clave == "recording_button"@ {
        m_recording_button_spec(idioma)
    } else if clave == "playing_button"@ {
        m_playing_button_spec(idioma)
    } else if clave == "play"@ {
        m_play_spec(idioma)
    } else if clave == "voice_detail"@ {
        m_voice_detail_spec(idioma)
    } else if clave == "recorded"@ {
        m_recorded_spec(idioma)
    } else if clave == "played"@ {
        m_played_spec(idioma)
    } else {
        "Korunix"@
    }
}

pub fn texto_prueba_multimedia(idioma: Idioma, clave: &str) -> (r: &'static str)
    ensures
        r@ == texto_prueba_multimedia_spec(idioma, clave@),
{
    if iguales(clave, "output_test") {
        m_output_test(idioma)
    } else if iguales(clave, "output_pick") {
        m_output_pick(idioma)
    } else if iguales(clave, "output_detail") {
        m_output_detail(idioma)
    } else if iguales(clave, "both") {
        m_both(idioma)
    } else if iguales(clave, "left") {
        m_left(idioma)
    } else if iguales(clave, "right") {
        m_right(idioma)
    } else if iguales(clave, "output_done") {
        m_output_done(idioma)
    } else if iguales(clave, "mic_test") {
        m_mic_test(idioma)
    } else if iguales(clave, "mic_pick") {
        m_mic_pick(idioma)
    } else if iguales(clave, "mic_level") {
        m_mic_level(idioma)
    } else if iguales(clave, "mic_level_detail") {
        m_mic_level_detail(idioma)
    } else if iguales(clave, "measure") {
        m_measure(idioma)
    } else if iguales(clave, "measure_stop") {
        m_measure_stop(idioma)
    } else if iguales(clave, "record") {
        m_record(idioma)
    } else if iguales(clave, "record_again") {
        m_record_again(idioma)
    } else if iguales(clave, "recording_button") {
        m_recording_button(idioma)
    } else if iguales(clave, "playing_button") {
        m_playing_button(idioma)
    } else if iguales(clave, "play") {
        m_play(idioma)
    } else if iguales(clave, "voice_detail") {
        m_voice_detail(idioma)
    } else if iguales(clave, "recorded") {
        m_recorded(idioma)
    } else if iguales(clave, "played") {
        m_played(idioma)
    } else {
        "Korunix"
    }
}

} // verus!
