//! The names of sound devices and displays, in every language.

use vstd::prelude::*;
use crate::idioma::Idioma;

verus! {

/// An external display whose connection is not known.
pub open spec fn pantalla_sin_identificar_spec(idioma: Idioma) -> Seq<char> {
    match idioma {
        Idioma::BelarusLatino => "Znješni dyspłjej · Złučennje nje vyznačana"@,
        Idioma::Belarus => "Знешні дысплей · Злучэнне не вызначана"@,
        Idioma::Catalan => "Pantalla externa · Connexió no identificada"@,
        Idioma::Checo => "Externí displej · Připojení nebylo identifikováno"@,
        Idioma::Aleman => "Externes Display · Verbindung nicht identifiziert"@,
        Idioma::Ingles | Idioma::Turco => "External display · Connection not identified"@,
        Idioma::Espanol => "Pantalla externa · Conexión no identificada"@,
        Idioma::Frances => "Affichage externe · Connexion non identifiée"@,
        Idioma::Gallego => "Pantalla externa · Conexión non identificada"@,
        Idioma::Hungaro => "Külső kijelző · A csatlakozás nem azonosítható"@,
        Idioma::Italiano => "Display esterno · Connessione non identificata"@,
        Idioma::Coreano => "외부 디스플레이 · 연결이 식별되지 않음"@,
        Idioma::Kurdo => "Nîşandana derve · Têkilî nehate naskirin"@,
        Idioma::Neerlandes => "Extern display · Verbinding niet geïdentificeerd"@,
        Idioma::NoruegoNynorsk => "Eksternt display · Tilkobling ikke identifisert"@,
        Idioma::Polaco => "Wyświetlacz zewnętrzny · Nie zidentyfikowano połączenia"@,
        Idioma::PortuguesBrasil => "Display externo · Conexão não identificada"@,
        Idioma::Ruso => "Внешний дисплей · Соединение не идентифицировано"@,
        Idioma::Sueco => "Extern display · Anslutning inte identifierad"@,
        Idioma::Ucraniano => "Зовнішній дисплей · Підключення не ідентифіковано"@,
        Idioma::Vietnamita => "Màn hình ngoài · Không xác định được kết nối"@,
        Idioma::ChinoSimplificado => "外部显示器·连接未识别"@,
    }
}

pub fn pantalla_sin_identificar(idioma: Idioma) -> (r: &'static str)
    ensures
        r@ == pantalla_sin_identificar_spec(idioma),
{
    match idioma {
        Idioma::BelarusLatino => "Znješni dyspłjej · Złučennje nje vyznačana",
        Idioma::Belarus => "Знешні дысплей · Злучэнне не вызначана",
        Idioma::Catalan => "Pantalla externa · Connexió no identificada",
        Idioma::Checo => "Externí displej · Připojení nebylo identifikováno",
        Idioma::Aleman => "Externes Display · Verbindung nicht identifiziert",
        Idioma::Ingles | Idioma::Turco => "External display · Connection not identified",
        Idioma::Espanol => "Pantalla externa · Conexión no identificada",
        Idioma::Frances => "Affichage externe · Connexion non identifiée",
        Idioma::Gallego => "Pantalla externa · Conexión non identificada",
        Idioma::Hungaro => "Külső kijelző · A csatlakozás nem azonosítható",
        Idioma::Italiano => "Display esterno · Connessione non identificata",
        Idioma::Coreano => "외부 디스플레이 · 연결이 식별되지 않음",
        Idioma::Kurdo => "Nîşandana derve · Têkilî nehate naskirin",
        Idioma::Neerlandes => "Extern display · Verbinding niet geïdentificeerd",
        Idioma::NoruegoNynorsk => "Eksternt display · Tilkobling ikke identifisert",
        Idioma::Polaco => "Wyświetlacz zewnętrzny · Nie zidentyfikowano połączenia",
        Idioma::PortuguesBrasil => "Display externo · Conexão não identificada",
        Idioma::Ruso => "Внешний дисплей · Соединение не идентифицировано",
        Idioma::Sueco => "Extern display · Anslutning inte identifierad",
        Idioma::Ucraniano => "Зовнішній дисплей · Підключення не ідентифіковано",
        Idioma::Vietnamita => "Màn hình ngoài · Không xác định được kết nối",
        Idioma::ChinoSimplificado => "外部显示器·连接未识别",
    }
}

/// The name given to an external display without one.
pub open spec fn pantalla_externa_spec(idioma: Idioma) -> Seq<char> {
    match idioma {
        Idioma::BelarusLatino => "Znješni dyspłjej"@,
        Idioma::Belarus => "Знешні дысплей"@,
        Idioma::Catalan | Idioma::Espanol | Idioma::Gallego => "Pantalla externa"@,
        Idioma::Checo => "Externí displej"@,
        Idioma::Aleman => "Externes Display"@,
        Idioma::Ingles => "External display"@,
        Idioma::Frances => "Écran externe"@,
        Idioma::Hungaro => "Külső kijelző"@,
        Idioma::Italiano => "Display esterno"@,
        Idioma::Coreano => "외부 디스플레이"@,
        Idioma::Kurdo => "Nîşandana derve"@,
        Idioma::Neerlandes => "Extern beeldscherm"@,
        Idioma::NoruegoNynorsk => "Ekstern skjerm"@,
        Idioma::Polaco => "Wyświetlacz zewnętrzny"@,
        Idioma::PortuguesBrasil => "Tela externa"@,
        Idioma::Ruso => "Внешний дисплей"@,
        Idioma::Sueco => "Extern display"@,
        Idioma::Turco => "Harici ekran"@,
        Idioma::Ucraniano => "Зовнішній дисплей"@,
        Idioma::Vietnamita => "Màn hình ngoài"@,
        Idioma::ChinoSimplificado => "外部显示器"@,
    }
}

pub fn pantalla_externa(idioma: Idioma) -> (r: &'static str)
    ensures
        r@ == pantalla_externa_spec(idioma),
{
    match idioma {
        Idioma::BelarusLatino => "Znješni dyspłjej",
        Idioma::Belarus => "Знешні дысплей",
        Idioma::Catalan | Idioma::Espanol | Idioma::Gallego => "Pantalla externa",
        Idioma::Checo => "Externí displej",
        Idioma::Aleman => "Externes Display",
        Idioma::Ingles => "External display",
        Idioma::Frances => "Écran externe",
        Idioma::Hungaro => "Külső kijelző",
        Idioma::Italiano => "Display esterno",
        Idioma::Coreano => "외부 디스플레이",
        Idioma::Kurdo => "Nîşandana derve",
        Idioma::Neerlandes => "Extern beeldscherm",
        Idioma::NoruegoNynorsk => "Ekstern skjerm",
        Idioma::Polaco => "Wyświetlacz zewnętrzny",
        Idioma::PortuguesBrasil => "Tela externa",
        Idioma::Ruso => "Внешний дисплей",
        Idioma::Sueco => "Extern display",
        Idioma::Turco => "Harici ekran",
        Idioma::Ucraniano => "Зовнішній дисплей",
        Idioma::Vietnamita => "Màn hình ngoài",
        Idioma::ChinoSimplificado => "外部显示器",
    }
}

/// A display and its connector; `{nombre}` and `{conector}`.
pub open spec fn plantilla_pantalla_conector_spec(idioma: Idioma) -> Seq<char> {
    match idioma {
        Idioma::BelarusLatino => "{nombre} praz {conector}"@,
        Idioma::Belarus => "{nombre} праз {conector}"@,
        Idioma::Catalan => "{nombre} mitjançant {conector}"@,
        Idioma::Checo => "{nombre} prostřednictvím {conector}"@,
        Idioma::Aleman => "{nombre} über {conector}"@,
        Idioma::Ingles | Idioma::Frances | Idioma::Neerlandes | Idioma::NoruegoNynorsk | Idioma::Sueco | Idioma::Turco => "{nombre} via {conector}"@,
        Idioma::Espanol => "{nombre} por {conector}"@,
        Idioma::Gallego => "{nombre} vía {conector}"@,
        Idioma::Hungaro => "{nombre} · {conector}"@,
        Idioma::Italiano => "{nombre} tramite {conector}"@,
        Idioma::Coreano => "{nombre}({conector}을 통해)"@,
        Idioma::Kurdo => "{nombre} bi rêya {conector}"@,
        Idioma::Polaco => "{nombre} przez {conector}"@,
        Idioma::PortuguesBrasil => "{nombre} através de {conector}"@,
        Idioma::Ruso | Idioma::Ucraniano => "{nombre} через {conector}"@,
        Idioma::Vietnamita => "{nombre} qua {conector}"@,
        Idioma::ChinoSimplificado => "{nombre} 通过 {conector}"@,
    }
}

pub fn plantilla_pantalla_conector(idioma: Idioma) -> (r: &'static str)
    ensures
        r@ == plantilla_pantalla_conector_spec(idioma),
{
    match idioma {
        Idioma::BelarusLatino => "{nombre} praz {conector}",
        Idioma::Belarus => "{nombre} праз {conector}",
        Idioma::Catalan => "{nombre} mitjançant {conector}",
        Idioma::Checo => "{nombre} prostřednictvím {conector}",
        Idioma::Aleman => "{nombre} über {conector}",
        Idioma::Ingles | Idioma::Frances | Idioma::Neerlandes | Idioma::NoruegoNynorsk | Idioma::Sueco | Idioma::Turco => "{nombre} via {conector}",
        Idioma::Espanol => "{nombre} por {conector}",
        Idioma::Gallego => "{nombre} vía {conector}",
        Idioma::Hungaro => "{nombre} · {conector}",
        Idioma::Italiano => "{nombre} tramite {conector}",
        Idioma::Coreano => "{nombre}({conector}을 통해)",
        Idioma::Kurdo => "{nombre} bi rêya {conector}",
        Idioma::Polaco => "{nombre} przez {conector}",
        Idioma::PortuguesBrasil => "{nombre} através de {conector}",
        Idioma::Ruso | Idioma::Ucraniano => "{nombre} через {conector}",
        Idioma::Vietnamita => "{nombre} qua {conector}",
        Idioma::ChinoSimplificado => "{nombre} 通过 {conector}",
    }
}

/// A display whose connection is not known; `{nombre}` is its name.
pub open spec fn plantilla_pantalla_sin_conector_spec(idioma: Idioma) -> Seq<char> {
    match idioma {
        Idioma::BelarusLatino => "{nombre} · Złučennje nje vyznačana"@,
        Idioma::Belarus => "{nombre} · Злучэнне не вызначана"@,
        Idioma::Catalan => "{nombre} · Connexió no identificada"@,
        Idioma::Checo => "{nombre} · Připojení nebylo identifikováno"@,
        Idioma::Aleman => "{nombre} · Verbindung nicht identifiziert"@,
        Idioma::Ingles | Idioma::Turco => "{nombre} · Connection not identified"@,
        Idioma::Espanol => "{nombre} · Conexión no identificada"@,
        Idioma::Frances => "{nombre} · Connexion non identifiée"@,
        Idioma::Gallego => "{nombre} · Conexión non identificada"@,
        Idioma::Hungaro => "{nombre} · A csatlakozás nem azonosítható"@,
        Idioma::Italiano => "{nombre} · Connessione non identificata"@,
        Idioma::Coreano => "{nombre} · 연결이 식별되지 않음"@,
        Idioma::Kurdo => "{nombre} · Têkilî nehat naskirin"@,
        Idioma::Neerlandes => "{nombre} · Verbinding niet geïdentificeerd"@,
        Idioma::NoruegoNynorsk => "{nombre} · Tilkobling ikke identifisert"@,
        Idioma::Polaco => "{nombre} · Nie zidentyfikowano połączenia"@,
        Idioma::PortuguesBrasil => "{nombre} · Conexão não identificada"@,
        Idioma::Ruso => "{nombre} · Соединение не идентифицировано"@,
        Idioma::Sueco => "{nombre} · Anslutning inte identifierad"@,
        Idioma::Ucraniano => "{nombre} · Підключення не ідентифіковано"@,
        Idioma::Vietnamita => "{nombre} · Không xác định được kết nối"@,
        Idioma::ChinoSimplificado => "{nombre} · 连接未识别"@,
    }
}

pub fn plantilla_pantalla_sin_conector(idioma: Idioma) -> (r: &'static str)
    ensures
        r@ == plantilla_pantalla_sin_conector_spec(idioma),
{
    match idioma {
        Idioma::BelarusLatino => "{nombre} · Złučennje nje vyznačana",
        Idioma::Belarus => "{nombre} · Злучэнне не вызначана",
        Idioma::Catalan => "{nombre} · Connexió no identificada",
        Idioma::Checo => "{nombre} · Připojení nebylo identifikováno",
        Idioma::Aleman => "{nombre} · Verbindung nicht identifiziert",
        Idioma::Ingles | Idioma::Turco => "{nombre} · Connection not identified",
        Idioma::Espanol => "{nombre} · Conexión no identificada",
        Idioma::Frances => "{nombre} · Connexion non identifiée",
        Idioma::Gallego => "{nombre} · Conexión non identificada",
        Idioma::Hungaro => "{nombre} · A csatlakozás nem azonosítható",
        Idioma::Italiano => "{nombre} · Connessione non identificata",
        Idioma::Coreano => "{nombre} · 연결이 식별되지 않음",
        Idioma::Kurdo => "{nombre} · Têkilî nehat naskirin",
        Idioma::Neerlandes => "{nombre} · Verbinding niet geïdentificeerd",
        Idioma::NoruegoNynorsk => "{nombre} · Tilkobling ikke identifisert",
        Idioma::Polaco => "{nombre} · Nie zidentyfikowano połączenia",
        Idioma::PortuguesBrasil => "{nombre} · Conexão não identificada",
        Idioma::Ruso => "{nombre} · Соединение не идентифицировано",
        Idioma::Sueco => "{nombre} · Anslutning inte identifierad",
        Idioma::Ucraniano => "{nombre} · Підключення не ідентифіковано",
        Idioma::Vietnamita => "{nombre} · Không xác định được kết nối",
        Idioma::ChinoSimplificado => "{nombre} · 连接未识别",
    }
}

/// The front microphone.
pub open spec fn microfono_frontal_spec(idioma: Idioma) -> Seq<char> {
    match idioma {
        Idioma::BelarusLatino => "Pjaredni mikrafon"@,
        Idioma::Belarus => "Пярэдні мікрафон"@,
        Idioma::Catalan => "Micròfon frontal"@,
        Idioma::Checo => "Přední mikrofon"@,
        Idioma::Aleman => "Frontmikrofon"@,
        Idioma::Ingles => "Front microphone"@,
        Idioma::Espanol => "Micrófono delantero"@,
        Idioma::Frances => "Microphone avant"@,
        Idioma::Gallego => "Micrófono frontal"@,
        Idioma::Hungaro => "Elülső mikrofon"@,
        Idioma::Italiano => "Microfono frontale"@,
        Idioma::Coreano => "전면 마이크"@,
        Idioma::Kurdo => "Mîkrofona pêşîn"@,
        Idioma::Neerlandes => "Microfoon aan de voorkant"@,
        Idioma::NoruegoNynorsk => "Mikrofon foran"@,
        Idioma::Polaco => "Mikrofon przedni"@,
        Idioma::PortuguesBrasil => "Microfone frontal"@,
        Idioma::Ruso => "Передний микрофон"@,
        Idioma::Sueco => "Främre mikrofon"@,
        Idioma::Turco => "Ön mikrofon"@,
        Idioma::Ucraniano => "Передній мікрофон"@,
        Idioma::Vietnamita => "Micrô phía trước"@,
        Idioma::ChinoSimplificado => "前置麦克风"@,
    }
}

pub fn microfono_frontal(idioma: Idioma) -> (r: &'static str)
    ensures
        r@ == microfono_frontal_spec(idioma),
{
    match idioma {
        Idioma::BelarusLatino => "Pjaredni mikrafon",
        Idioma::Belarus => "Пярэдні мікрафон",
        Idioma::Catalan => "Micròfon frontal",
        Idioma::Checo => "Přední mikrofon",
        Idioma::Aleman => "Frontmikrofon",
        Idioma::Ingles => "Front microphone",
        Idioma::Espanol => "Micrófono delantero",
        Idioma::Frances => "Microphone avant",
        Idioma::Gallego => "Micrófono frontal",
        Idioma::Hungaro => "Elülső mikrofon",
        Idioma::Italiano => "Microfono frontale",
        Idioma::Coreano => "전면 마이크",
        Idioma::Kurdo => "Mîkrofona pêşîn",
        Idioma::Neerlandes => "Microfoon aan de voorkant",
        Idioma::NoruegoNynorsk => "Mikrofon foran",
        Idioma::Polaco => "Mikrofon przedni",
        Idioma::PortuguesBrasil => "Microfone frontal",
        Idioma::Ruso => "Передний микрофон",
        Idioma::Sueco => "Främre mikrofon",
        Idioma::Turco => "Ön mikrofon",
        Idioma::Ucraniano => "Передній мікрофон",
        Idioma::Vietnamita => "Micrô phía trước",
        Idioma::ChinoSimplificado => "前置麦克风",
    }
}

/// The rear microphone.
pub open spec fn microfono_trasero_spec(idioma: Idioma) -> Seq<char> {
    match idioma {
        Idioma::BelarusLatino => "Zadni mikrafon"@,
        Idioma::Belarus => "Задні мікрафон"@,
        Idioma::Catalan => "Micròfon posterior"@,
        Idioma::Checo => "Zadní mikrofon"@,
        Idioma::Aleman => "Hinteres Mikrofon"@,
        Idioma::Ingles => "Rear microphone"@,
        Idioma::Espanol => "Micrófono trasero"@,
        Idioma::Frances => "Microphone arrière"@,
        Idioma::Gallego => "Micrófono traseiro"@,
        Idioma::Hungaro => "Hátsó mikrofon"@,
        Idioma::Italiano => "Microfono posteriore"@,
        Idioma::Coreano => "후면 마이크"@,
        Idioma::Kurdo => "Mîkrofona paşîn"@,
        Idioma::Neerlandes => "Achtermicrofoon"@,
        Idioma::NoruegoNynorsk => "Mikrofon bak"@,
        Idioma::Polaco => "Mikrofon tylny"@,
        Idioma::PortuguesBrasil => "Microfone traseiro"@,
        Idioma::Ruso => "Задний микрофон"@,
        Idioma::Sueco => "Bakre mikrofon"@,
        Idioma::Turco => "Arka mikrofon"@,
        Idioma::Ucraniano => "Задній мікрофон"@,
        Idioma::Vietnamita => "Micrô phía sau"@,
        Idioma::ChinoSimplificado => "后麦克风"@,
    }
}

pub fn microfono_trasero(idioma: Idioma) -> (r: &'static str)
    ensures
        r@ == microfono_trasero_spec(idioma),
{
    match idioma {
        Idioma::BelarusLatino => "Zadni mikrafon",
        Idioma::Belarus => "Задні мікрафон",
        Idioma::Catalan => "Micròfon posterior",
        Idioma::Checo => "Zadní mikrofon",
        Idioma::Aleman => "Hinteres Mikrofon",
        Idioma::Ingles => "Rear microphone",
        Idioma::Espanol => "Micrófono trasero",
        Idioma::Frances => "Microphone arrière",
        Idioma::Gallego => "Micrófono traseiro",
        Idioma::Hungaro => "Hátsó mikrofon",
        Idioma::Italiano => "Microfono posteriore",
        Idioma::Coreano => "후면 마이크",
        Idioma::Kurdo => "Mîkrofona paşîn",
        Idioma::Neerlandes => "Achtermicrofoon",
        Idioma::NoruegoNynorsk => "Mikrofon bak",
        Idioma::Polaco => "Mikrofon tylny",
        Idioma::PortuguesBrasil => "Microfone traseiro",
        Idioma::Ruso => "Задний микрофон",
        Idioma::Sueco => "Bakre mikrofon",
        Idioma::Turco => "Arka mikrofon",
        Idioma::Ucraniano => "Задній мікрофон",
        Idioma::Vietnamita => "Micrô phía sau",
        Idioma::ChinoSimplificado => "后麦克风",
    }
}

/// The microphone input.
pub open spec fn microfono_spec(idioma: Idioma) -> Seq<char> {
    match idioma {
        Idioma::BelarusLatino => "Mikrafon"@,
        Idioma::Belarus => "Мікрафон"@,
        Idioma::Catalan => "Micròfon"@,
        Idioma::Checo | Idioma::Aleman | Idioma::Hungaro | Idioma::NoruegoNynorsk | Idioma::Polaco | Idioma::Sueco | Idioma::Turco => "Mikrofon"@,
        Idioma::Ingles => "Microphone"@,
        Idioma::Espanol | Idioma::Gallego => "Micrófono"@,
        Idioma::Frances => "Micro"@,
        Idioma::Italiano => "Microfono"@,
        Idioma::Coreano => "마이크"@,
        Idioma::Kurdo => "Mîkrofon"@,
        Idioma::Neerlandes => "Microfoon"@,
        Idioma::PortuguesBrasil => "Microfone"@,
        Idioma::Ruso => "Микрофон"@,
        Idioma::Ucraniano => "Мікрофон"@,
        Idioma::Vietnamita => "Micrô"@,
        Idioma::ChinoSimplificado => "麦克风"@,
    }
}

pub fn microfono(idioma: Idioma) -> (r: &'static str)
    ensures
        r@ == microfono_spec(idioma),
{
    match idioma {
        Idioma::BelarusLatino => "Mikrafon",
        Idioma::Belarus => "Мікрафон",
        Idioma::Catalan => "Micròfon",
        Idioma::Checo | Idioma::Aleman | Idioma::Hungaro | Idioma::NoruegoNynorsk | Idioma::Polaco | Idioma::Sueco | Idioma::Turco => "Mikrofon",
        Idioma::Ingles => "Microphone",
        Idioma::Espanol | Idioma::Gallego => "Micrófono",
        Idioma::Frances => "Micro",
        Idioma::Italiano => "Microfono",
        Idioma::Coreano => "마이크",
        Idioma::Kurdo => "Mîkrofon",
        Idioma::Neerlandes => "Microfoon",
        Idioma::PortuguesBrasil => "Microfone",
        Idioma::Ruso => "Микрофон",
        Idioma::Ucraniano => "Мікрофон",
        Idioma::Vietnamita => "Micrô",
        Idioma::ChinoSimplificado => "麦克风",
    }
}

/// The line input.
pub open spec fn entrada_linea_spec(idioma: Idioma) -> Seq<char> {
    match idioma {
        Idioma::BelarusLatino => "Łinjejny ŭvod"@,
        Idioma::Belarus => "Радковы ўвод"@,
        Idioma::Catalan => "Entrada de línia"@,
        Idioma::Checo => "Linkový vstup"@,
        Idioma::Aleman => "Leitungseingang"@,
        Idioma::Ingles => "Line input"@,
        Idioma::Espanol => "Entrada de línea"@,
        Idioma::Frances => "Entrée ligne"@,
        Idioma::Gallego => "Entrada de liña"@,
        Idioma::Hungaro => "Vonalbemenet"@,
        Idioma::Italiano => "Ingresso linea"@,
        Idioma::Coreano => "라인 입력"@,
        Idioma::Kurdo => "Têketina xetê"@,
        Idioma::Neerlandes => "Lijningang"@,
        Idioma::NoruegoNynorsk => "Linjeinngang"@,
        Idioma::Polaco => "Wejście liniowe"@,
        Idioma::PortuguesBrasil => "Entrada de linha"@,
        Idioma::Ruso => "Линейный вход"@,
        Idioma::Sueco => "Linjeingång"@,
        Idioma::Turco => "Hat girişi"@,
        Idioma::Ucraniano => "Рядковий вхід"@,
        Idioma::Vietnamita => "Đầu vào dòng"@,
        Idioma::ChinoSimplificado => "线路输入"@,
    }
}

pub fn entrada_linea(idioma: Idioma) -> (r: &'static str)
    ensures
        r@ == entrada_linea_spec(idioma),
{
    match idioma {
        Idioma::BelarusLatino => "Łinjejny ŭvod",
        Idioma::Belarus => "Радковы ўвод",
        Idioma::Catalan => "Entrada de línia",
        Idioma::Checo => "Linkový vstup",
        Idioma::Aleman => "Leitungseingang",
        Idioma::Ingles => "Line input",
        Idioma::Espanol => "Entrada de línea",
        Idioma::Frances => "Entrée ligne",
        Idioma::Gallego => "Entrada de liña",
        Idioma::Hungaro => "Vonalbemenet",
        Idioma::Italiano => "Ingresso linea",
        Idioma::Coreano => "라인 입력",
        Idioma::Kurdo => "Têketina xetê",
        Idioma::Neerlandes => "Lijningang",
        Idioma::NoruegoNynorsk => "Linjeinngang",
        Idioma::Polaco => "Wejście liniowe",
        Idioma::PortuguesBrasil => "Entrada de linha",
        Idioma::Ruso => "Линейный вход",
        Idioma::Sueco => "Linjeingång",
        Idioma::Turco => "Hat girişi",
        Idioma::Ucraniano => "Рядковий вхід",
        Idioma::Vietnamita => "Đầu vào dòng",
        Idioma::ChinoSimplificado => "线路输入",
    }
}

/// An audio input with no better name.
pub open spec fn entrada_audio_spec(idioma: Idioma) -> Seq<char> {
    match idioma {
        Idioma::BelarusLatino => "Mikrafon"@,
        Idioma::Belarus => "Мікрафон"@,
        Idioma::Catalan => "Micròfon"@,
        Idioma::Checo | Idioma::Aleman | Idioma::Hungaro | Idioma::NoruegoNynorsk | Idioma::Polaco | Idioma::Sueco | Idioma::Turco => "Mikrofon"@,
        Idioma::Ingles => "Microphone"@,
        Idioma::Espanol | Idioma::Gallego => "Micrófono"@,
        Idioma::Frances => "Micro"@,
        Idioma::Italiano => "Microfono"@,
        Idioma::Coreano => "마이크"@,
        Idioma::Kurdo => "Mîkrofon"@,
        Idioma::Neerlandes => "Microfoon"@,
        Idioma::PortuguesBrasil => "Microfone"@,
        Idioma::Ruso => "Микрофон"@,
        Idioma::Ucraniano => "Мікрофон"@,
        Idioma::Vietnamita => "Micrô"@,
        Idioma::ChinoSimplificado => "麦克风"@,
    }
}

pub fn entrada_audio(idioma: Idioma) -> (r: &'static str)
    ensures
        r@ == entrada_audio_spec(idioma),
{
    match idioma {
        Idioma::BelarusLatino => "Mikrafon",
        Idioma::Belarus => "Мікрафон",
        Idioma::Catalan => "Micròfon",
        Idioma::Checo | Idioma::Aleman | Idioma::Hungaro | Idioma::NoruegoNynorsk | Idioma::Polaco | Idioma::Sueco | Idioma::Turco => "Mikrofon",
        Idioma::Ingles => "Microphone",
        Idioma::Espanol | Idioma::Gallego => "Micrófono",
        Idioma::Frances => "Micro",
        Idioma::Italiano => "Microfono",
        Idioma::Coreano => "마이크",
        Idioma::Kurdo => "Mîkrofon",
        Idioma::Neerlandes => "Microfoon",
        Idioma::PortuguesBrasil => "Microfone",
        Idioma::Ruso => "Микрофон",
        Idioma::Ucraniano => "Мікрофон",
        Idioma::Vietnamita => "Micrô",
        Idioma::ChinoSimplificado => "麦克风",
    }
}

/// The headphones output.
pub open spec fn auriculares_spec(idioma: Idioma) -> Seq<char> {
    match idioma {
        Idioma::BelarusLatino => "Navušniki"@,
        Idioma::Belarus => "Навушнікі"@,
        Idioma::Catalan => "Auriculars"@,
        Idioma::Checo => "Sluchátka"@,
        Idioma::Aleman => "Kopfhörer"@,
        Idioma::Ingles | Idioma::Kurdo => "Headphones"@,
        Idioma::Espanol | Idioma::Gallego => "Auriculares"@,
        Idioma::Frances => "Écouteurs"@,
        Idioma::Hungaro => "Fejhallgató"@,
        Idioma::Italiano => "Cuffie"@,
        Idioma::Coreano => "헤드폰"@,
        Idioma::Neerlandes => "Koptelefoon"@,
        Idioma::NoruegoNynorsk => "Hodetelefoner"@,
        Idioma::Polaco => "Słuchawki"@,
        Idioma::PortuguesBrasil => "Fones de ouvido"@,
        Idioma::Ruso => "Наушники"@,
        Idioma::Sueco => "Hörlurar"@,
        Idioma::Turco => "Kulaklık"@,
        Idioma::Ucraniano => "Навушники"@,
        Idioma::Vietnamita => "Tai Nghe"@,
        Idioma::ChinoSimplificado => "耳机"@,
    }
}

pub fn auriculares(idioma: Idioma) -> (r: &'static str)
    ensures
        r@ == auriculares_spec(idioma),
{
    match idioma {
        Idioma::BelarusLatino => "Navušniki",
        Idioma::Belarus => "Навушнікі",
        Idioma::Catalan => "Auriculars",
        Idioma::Checo => "Sluchátka",
        Idioma::Aleman => "Kopfhörer",
        Idioma::Ingles | Idioma::Kurdo => "Headphones",
        Idioma::Espanol | Idioma::Gallego => "Auriculares",
        Idioma::Frances => "Écouteurs",
        Idioma::Hungaro => "Fejhallgató",
        Idioma::Italiano => "Cuffie",
        Idioma::Coreano => "헤드폰",
        Idioma::Neerlandes => "Koptelefoon",
        Idioma::NoruegoNynorsk => "Hodetelefoner",
        Idioma::Polaco => "Słuchawki",
        Idioma::PortuguesBrasil => "Fones de ouvido",
        Idioma::Ruso => "Наушники",
        Idioma::Sueco => "Hörlurar",
        Idioma::Turco => "Kulaklık",
        Idioma::Ucraniano => "Навушники",
        Idioma::Vietnamita => "Tai Nghe",
        Idioma::ChinoSimplificado => "耳机",
    }
}

/// The line output.
pub open spec fn salida_linea_spec(idioma: Idioma) -> Seq<char> {
    match idioma {
        Idioma::BelarusLatino => "Łinija z"@,
        Idioma::Belarus => "Лінейны выхад"@,
        Idioma::Catalan => "Sortida de línia"@,
        Idioma::Checo => "Linka ven"@,
        Idioma::Aleman => "Line-Out"@,
        Idioma::Ingles => "Line out"@,
        Idioma::Espanol => "Salida de línea"@,
        Idioma::Frances => "Sortie ligne"@,
        Idioma::Gallego => "Saída de liña"@,
        Idioma::Hungaro => "Vonalkimenet"@,
        Idioma::Italiano => "Linea fuori"@,
        Idioma::Coreano => "라인 출력"@,
        Idioma::Kurdo => "Line der"@,
        Idioma::Neerlandes => "Lijnuitgang"@,
        Idioma::NoruegoNynorsk | Idioma::Sueco => "Linje ut"@,
        Idioma::Polaco => "Wyjście liniowe"@,
        Idioma::PortuguesBrasil => "Saída de linha"@,
        Idioma::Ruso => "Линейный выход"@,
        Idioma::Turco => "Hat çıkışı"@,
        Idioma::Ucraniano => "Лінійний вихід"@,
        Idioma::Vietnamita => "Đầu ra"@,
        Idioma::ChinoSimplificado => "线路输出"@,
    }
}

pub fn salida_linea(idioma: Idioma) -> (r: &'static str)
    ensures
        r@ == salida_linea_spec(idioma),
{
    match idioma {
        Idioma::BelarusLatino => "Łinija z",
        Idioma::Belarus => "Лінейны выхад",
        Idioma::Catalan => "Sortida de línia",
        Idioma::Checo => "Linka ven",
        Idioma::Aleman => "Line-Out",
        Idioma::Ingles => "Line out",
        Idioma::Espanol => "Salida de línea",
        Idioma::Frances => "Sortie ligne",
        Idioma::Gallego => "Saída de liña",
        Idioma::Hungaro => "Vonalkimenet",
        Idioma::Italiano => "Linea fuori",
        Idioma::Coreano => "라인 출력",
        Idioma::Kurdo => "Line der",
        Idioma::Neerlandes => "Lijnuitgang",
        Idioma::NoruegoNynorsk | Idioma::Sueco => "Linje ut",
        Idioma::Polaco => "Wyjście liniowe",
        Idioma::PortuguesBrasil => "Saída de linha",
        Idioma::Ruso => "Линейный выход",
        Idioma::Turco => "Hat çıkışı",
        Idioma::Ucraniano => "Лінійний вихід",
        Idioma::Vietnamita => "Đầu ra",
        Idioma::ChinoSimplificado => "线路输出",
    }
}

/// The speakers.
pub open spec fn altavoces_spec(idioma: Idioma) -> Seq<char> {
    match idioma {
        Idioma::BelarusLatino => "Vystupoŭcy"@,
        Idioma::Belarus => "Дынамікі"@,
        Idioma::Catalan => "Altaveus"@,
        Idioma::Checo => "Reproduktory"@,
        Idioma::Aleman => "Lautsprecher"@,
        Idioma::Ingles => "Speakers"@,
        Idioma::Espanol => "Altavoces"@,
        Idioma::Frances => "Haut-parleurs"@,
        Idioma::Gallego => "Altofalantes"@,
        Idioma::Hungaro => "Hangszórók"@,
        Idioma::Italiano => "Altoparlanti"@,
        Idioma::Coreano => "스피커"@,
        Idioma::Kurdo => "Axaftvan"@,
        Idioma::Neerlandes => "Luidsprekers"@,
        Idioma::NoruegoNynorsk => "Høyttalere"@,
        Idioma::Polaco => "Głośniki"@,
        Idioma::PortuguesBrasil => "Alto-falantes"@,
        Idioma::Ruso => "Динамики"@,
        Idioma::Sueco => "Högtalare"@,
        Idioma::Turco => "Hoparlörler"@,
        Idioma::Ucraniano => "Динаміки"@,
        Idioma::Vietnamita => "Loa"@,
        Idioma::ChinoSimplificado => "扬声器"@,
    }
}

pub fn altavoces(idioma: Idioma) -> (r: &'static str)
    ensures
        r@ == altavoces_spec(idioma),
{
    match idioma {
        Idioma::BelarusLatino => "Vystupoŭcy",
        Idioma::Belarus => "Дынамікі",
        Idioma::Catalan => "Altaveus",
        Idioma::Checo => "Reproduktory",
        Idioma::Aleman => "Lautsprecher",
        Idioma::Ingles => "Speakers",
        Idioma::Espanol => "Altavoces",
        Idioma::Frances => "Haut-parleurs",
        Idioma::Gallego => "Altofalantes",
        Idioma::Hungaro => "Hangszórók",
        Idioma::Italiano => "Altoparlanti",
        Idioma::Coreano => "스피커",
        Idioma::Kurdo => "Axaftvan",
        Idioma::Neerlandes => "Luidsprekers",
        Idioma::NoruegoNynorsk => "Høyttalere",
        Idioma::Polaco => "Głośniki",
        Idioma::PortuguesBrasil => "Alto-falantes",
        Idioma::Ruso => "Динамики",
        Idioma::Sueco => "Högtalare",
        Idioma::Turco => "Hoparlörler",
        Idioma::Ucraniano => "Динаміки",
        Idioma::Vietnamita => "Loa",
        Idioma::ChinoSimplificado => "扬声器",
    }
}

/// An audio output with no better name.
pub open spec fn salida_audio_spec(idioma: Idioma) -> Seq<char> {
    match idioma {
        Idioma::BelarusLatino => "Hukavy vychad"@,
        Idioma::Belarus => "Гукавы выхад"@,
        Idioma::Catalan => "Sortida de so"@,
        Idioma::Checo => "Zvukový výstup"@,
        Idioma::Aleman => "Tonausgabe"@,
        Idioma::Ingles => "Sound output"@,
        Idioma::Espanol => "Salida de sonido"@,
        Idioma::Frances => "Sortie sonore"@,
        Idioma::Gallego => "Saída de son"@,
        Idioma::Hungaro => "Hangkimenet"@,
        Idioma::Italiano => "Uscita audio"@,
        Idioma::Coreano => "사운드 출력"@,
        Idioma::Kurdo => "Derketina deng"@,
        Idioma::Neerlandes => "Geluidsuitvoer"@,
        Idioma::NoruegoNynorsk => "Lydutgang"@,
        Idioma::Polaco => "Wyjście dźwięku"@,
        Idioma::PortuguesBrasil => "Saída de som"@,
        Idioma::Ruso => "Звуковой выход"@,
        Idioma::Sueco => "Ljudutgång"@,
        Idioma::Turco => "Ses çıkışı"@,
        Idioma::Ucraniano => "Звуковий вихід"@,
        Idioma::Vietnamita => "Âm thanh phát ra"@,
        Idioma::ChinoSimplificado => "声音输出"@,
    }
}

pub fn salida_audio(idioma: Idioma) -> (r: &'static str)
    ensures
        r@ == salida_audio_spec(idioma),
{
    match idioma {
        Idioma::BelarusLatino => "Hukavy vychad",
        Idioma::Belarus => "Гукавы выхад",
        Idioma::Catalan => "Sortida de so",
        Idioma::Checo => "Zvukový výstup",
        Idioma::Aleman => "Tonausgabe",
        Idioma::Ingles => "Sound output",
        Idioma::Espanol => "Salida de sonido",
        Idioma::Frances => "Sortie sonore",
        Idioma::Gallego => "Saída de son",
        Idioma::Hungaro => "Hangkimenet",
        Idioma::Italiano => "Uscita audio",
        Idioma::Coreano => "사운드 출력",
        Idioma::Kurdo => "Derketina deng",
        Idioma::Neerlandes => "Geluidsuitvoer",
        Idioma::NoruegoNynorsk => "Lydutgang",
        Idioma::Polaco => "Wyjście dźwięku",
        Idioma::PortuguesBrasil => "Saída de som",
        Idioma::Ruso => "Звуковой выход",
        Idioma::Sueco => "Ljudutgång",
        Idioma::Turco => "Ses çıkışı",
        Idioma::Ucraniano => "Звуковий вихід",
        Idioma::Vietnamita => "Âm thanh phát ra",
        Idioma::ChinoSimplificado => "声音输出",
    }
}

} // verus!
