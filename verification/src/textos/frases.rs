//! Confirmations and counts, in every language; `{name}` marks where a value goes.

use vstd::prelude::*;
use crate::idioma::Idioma;

verus! {

/// Confirmation of a one-time start of an older version.
pub open spec fn frase_recuperacion_spec(idioma: Idioma) -> Seq<char> {
    match idioma {
        Idioma::BelarusLatino => "Pasprabavac vybranuju vjersiju tołki pry nastupnym pjerazapusku? Vjersija, jakaja zvyčajna zapuskajecca, nje budzje zamjenjena."@,
        Idioma::Belarus => "Паспрабаваць выбраную версію толькі пры наступным перазапуску? Версія, якая звычайна запускаецца, не будзе заменена."@,
        Idioma::Catalan => "Voleu provar la versió seleccionada només al proper reinici? La versió que s'inicia normalment no es substituirà."@,
        Idioma::Checo => "Vyzkoušet vybranou verzi pouze při příštím restartu? Verze, která se normálně spouští, nebude nahrazena."@,
        Idioma::Aleman => "Die ausgewählte Version erst beim nächsten Neustart testen? Die normalerweise gestartete Version wird nicht ersetzt."@,
        Idioma::Ingles | Idioma::Turco => "Try the selected version only on the next restart? The version that normally starts will not be replaced."@,
        Idioma::Espanol => "¿Probar la versión seleccionada solo en el próximo reinicio? La versión que inicia normalmente no será reemplazada."@,
        Idioma::Frances => "Essayer la version sélectionnée uniquement au prochain redémarrage ? La version qui démarre normalement ne sera pas remplacée."@,
        Idioma::Gallego => "Probar a versión seleccionada só no seguinte reinicio? A versión que se inicia normalmente non será substituída."@,
        Idioma::Hungaro => "Csak a következő újraindításkor próbáljam ki a kiválasztott verziót? A rendszerint induló verzió nem változik."@,
        Idioma::Italiano => "Provare la versione selezionata solo al prossimo riavvio? La versione che normalmente si avvia non verrà sostituita."@,
        Idioma::Coreano => "다음에 다시 시작할 때만 선택한 버전을 사용해 보시겠습니까? 정상적으로 시작되는 버전은 교체되지 않습니다."@,
        Idioma::Kurdo => "Tenê di destpêkirina nû de guhertoya hilbijartî biceribîne? Guhertoya ku bi gelemperî dest pê dike dê neyê guheztin."@,
        Idioma::Neerlandes => "Probeer de geselecteerde versie alleen bij de volgende herstart? De versie die normaal start, wordt niet vervangen."@,
        Idioma::NoruegoNynorsk => "Prøv den valgte versjonen bare ved neste omstart? Versjonen som normalt starter vil ikke bli erstattet."@,
        Idioma::Polaco => "Wypróbować wybraną wersję dopiero przy następnym uruchomieniu? Wersja, która normalnie się uruchamia, nie zostanie zastąpiona."@,
        Idioma::PortuguesBrasil => "Tentar a versão selecionada somente na próxima reinicialização? A versão que normalmente inicia não será substituída."@,
        Idioma::Ruso => "Попробовать выбранную версию только при следующем перезапуске? Версия, которая нормально запускается, не будет заменена."@,
        Idioma::Sueco => "Prova endast den valda versionen vid nästa omstart? Den version som normalt startar kommer inte att ersättas."@,
        Idioma::Ucraniano => "Спробувати вибрану версію лише під час наступного перезавантаження? Версія, яка зазвичай запускається, не буде замінена."@,
        Idioma::Vietnamita => "Chỉ thử phiên bản đã chọn trong lần khởi động lại tiếp theo? Phiên bản thường khởi động sẽ không được thay thế."@,
        Idioma::ChinoSimplificado => "仅在下次重新启动时尝试所选版本？正常启动的版本不会被替换。"@,
    }
}

pub fn frase_recuperacion(idioma: Idioma) -> (r: &'static str)
    ensures
        r@ == frase_recuperacion_spec(idioma),
{
    match idioma {
        Idioma::BelarusLatino => "Pasprabavac vybranuju vjersiju tołki pry nastupnym pjerazapusku? Vjersija, jakaja zvyčajna zapuskajecca, nje budzje zamjenjena.",
        Idioma::Belarus => "Паспрабаваць выбраную версію толькі пры наступным перазапуску? Версія, якая звычайна запускаецца, не будзе заменена.",
        Idioma::Catalan => "Voleu provar la versió seleccionada només al proper reinici? La versió que s'inicia normalment no es substituirà.",
        Idioma::Checo => "Vyzkoušet vybranou verzi pouze při příštím restartu? Verze, která se normálně spouští, nebude nahrazena.",
        Idioma::Aleman => "Die ausgewählte Version erst beim nächsten Neustart testen? Die normalerweise gestartete Version wird nicht ersetzt.",
        Idioma::Ingles | Idioma::Turco => "Try the selected version only on the next restart? The version that normally starts will not be replaced.",
        Idioma::Espanol => "¿Probar la versión seleccionada solo en el próximo reinicio? La versión que inicia normalmente no será reemplazada.",
        Idioma::Frances => "Essayer la version sélectionnée uniquement au prochain redémarrage ? La version qui démarre normalement ne sera pas remplacée.",
        Idioma::Gallego => "Probar a versión seleccionada só no seguinte reinicio? A versión que se inicia normalmente non será substituída.",
        Idioma::Hungaro => "Csak a következő újraindításkor próbáljam ki a kiválasztott verziót? A rendszerint induló verzió nem változik.",
        Idioma::Italiano => "Provare la versione selezionata solo al prossimo riavvio? La versione che normalmente si avvia non verrà sostituita.",
        Idioma::Coreano => "다음에 다시 시작할 때만 선택한 버전을 사용해 보시겠습니까? 정상적으로 시작되는 버전은 교체되지 않습니다.",
        Idioma::Kurdo => "Tenê di destpêkirina nû de guhertoya hilbijartî biceribîne? Guhertoya ku bi gelemperî dest pê dike dê neyê guheztin.",
        Idioma::Neerlandes => "Probeer de geselecteerde versie alleen bij de volgende herstart? De versie die normaal start, wordt niet vervangen.",
        Idioma::NoruegoNynorsk => "Prøv den valgte versjonen bare ved neste omstart? Versjonen som normalt starter vil ikke bli erstattet.",
        Idioma::Polaco => "Wypróbować wybraną wersję dopiero przy następnym uruchomieniu? Wersja, która normalnie się uruchamia, nie zostanie zastąpiona.",
        Idioma::PortuguesBrasil => "Tentar a versão selecionada somente na próxima reinicialização? A versão que normalmente inicia não será substituída.",
        Idioma::Ruso => "Попробовать выбранную версию только при следующем перезапуске? Версия, которая нормально запускается, не будет заменена.",
        Idioma::Sueco => "Prova endast den valda versionen vid nästa omstart? Den version som normalt startar kommer inte att ersättas.",
        Idioma::Ucraniano => "Спробувати вибрану версію лише під час наступного перезавантаження? Версія, яка зазвичай запускається, не буде замінена.",
        Idioma::Vietnamita => "Chỉ thử phiên bản đã chọn trong lần khởi động lại tiếp theo? Phiên bản thường khởi động sẽ không được thay thế.",
        Idioma::ChinoSimplificado => "仅在下次重新启动时尝试所选版本？正常启动的版本不会被替换。",
    }
}

/// Confirmation of a safe eject that first waits for pending data.
pub open spec fn frase_expulsion_pesada_spec(idioma: Idioma) -> Seq<char> {
    match idioma {
        Idioma::BelarusLatino => "Bjaspječna vynjac hety dysk? Korunix spačatku pačakaje, pakuł nje zavjeršycca zachavannje ŭsich čakajučych danych."@,
        Idioma::Belarus => "Бяспечна выняць гэты дыск? Korunix спачатку пачакае, пакуль не завершыцца захаванне ўсіх чакаючых даных."@,
        Idioma::Catalan => "Expulsar aquesta unitat de manera segura? Korunix esperarà primer fins que totes les dades pendents s'acabin de desar."@,
        Idioma::Checo => "Bezpečně vysunout tento disk? Korunix nejprve počká, dokud se všechna čekající data neuloží."@,
        Idioma::Aleman => "Dieses Laufwerk sicher auswerfen? Korunix wartet zunächst, bis alle ausstehenden Daten gespeichert wurden."@,
        Idioma::Ingles => "Eject this drive safely? Korunix will first wait until all pending data has finished saving."@,
        Idioma::Espanol => "¿Expulsar esta unidad de forma segura? Korunix esperará primero a que terminen de guardarse todos los datos pendientes."@,
        Idioma::Frances => "Éjecter ce disque en toute sécurité ? Korunix attendra d'abord que toutes les données en attente aient fini d'être enregistrées."@,
        Idioma::Gallego => "Expulsar esta unidade de forma segura? Korunix agardará primeiro ata que rematen de gardar todos os datos pendentes."@,
        Idioma::Hungaro => "Biztonságosan leválasszam ezt a meghajtót? A Korunix előbb megvárja, amíg minden függőben lévő adat mentése befejeződik."@,
        Idioma::Italiano => "Espellere questa unità in modo sicuro? Korunix attenderà innanzitutto che tutti i dati in sospeso abbiano terminato il salvataggio."@,
        Idioma::Coreano => "이 드라이브를 안전하게 꺼내시겠습니까? Korunix는 먼저 보류 중인 모든 데이터 저장이 완료될 때까지 기다립니다."@,
        Idioma::Kurdo => "Vê ajokerê bi ewlehî derxe? Korunix dê pêşî li bendê bimîne heya ku hemî daneyên li bendê xilas bibin."@,
        Idioma::Neerlandes => "Deze schijf veilig uitwerpen? Korunix wacht eerst totdat alle openstaande gegevens zijn opgeslagen."@,
        Idioma::NoruegoNynorsk => "Ta ut denne stasjonen trygt? Korunix vil først vente til alle ventende data er ferdig lagret."@,
        Idioma::Polaco => "Bezpiecznie wysunąć ten dysk? Korunix najpierw poczeka, aż wszystkie oczekujące dane zostaną zakończone."@,
        Idioma::PortuguesBrasil => "Ejetar esta unidade com segurança? Korunix irá primeiro esperar até que todos os dados pendentes terminem de ser salvos."@,
        Idioma::Ruso => "Безопасно извлечь этот диск? Korunix сначала дождется завершения сохранения всех ожидающих данных."@,
        Idioma::Sueco => "Mata ut den här enheten på ett säkert sätt? Korunix kommer först att vänta tills all väntande data har sparats."@,
        Idioma::Turco => "Bu sürücü güvenli bir şekilde çıkarılsın mı? Korunix will first wait until all pending data has finished saving."@,
        Idioma::Ucraniano => "Безпечно вийняти цей диск? Korunix спочатку зачекає, доки завершиться збереження всіх незавершених даних."@,
        Idioma::Vietnamita => "Đẩy ổ đĩa này ra một cách an toàn? Đầu tiên Korunix sẽ đợi cho đến khi tất cả dữ liệu đang chờ xử lý được lưu xong."@,
        Idioma::ChinoSimplificado => "安全弹出此驱动器吗？ Korunix 将首先等待所有待处理数据完成保存。"@,
    }
}

pub fn frase_expulsion_pesada(idioma: Idioma) -> (r: &'static str)
    ensures
        r@ == frase_expulsion_pesada_spec(idioma),
{
    match idioma {
        Idioma::BelarusLatino => "Bjaspječna vynjac hety dysk? Korunix spačatku pačakaje, pakuł nje zavjeršycca zachavannje ŭsich čakajučych danych.",
        Idioma::Belarus => "Бяспечна выняць гэты дыск? Korunix спачатку пачакае, пакуль не завершыцца захаванне ўсіх чакаючых даных.",
        Idioma::Catalan => "Expulsar aquesta unitat de manera segura? Korunix esperarà primer fins que totes les dades pendents s'acabin de desar.",
        Idioma::Checo => "Bezpečně vysunout tento disk? Korunix nejprve počká, dokud se všechna čekající data neuloží.",
        Idioma::Aleman => "Dieses Laufwerk sicher auswerfen? Korunix wartet zunächst, bis alle ausstehenden Daten gespeichert wurden.",
        Idioma::Ingles => "Eject this drive safely? Korunix will first wait until all pending data has finished saving.",
        Idioma::Espanol => "¿Expulsar esta unidad de forma segura? Korunix esperará primero a que terminen de guardarse todos los datos pendientes.",
        Idioma::Frances => "Éjecter ce disque en toute sécurité ? Korunix attendra d'abord que toutes les données en attente aient fini d'être enregistrées.",
        Idioma::Gallego => "Expulsar esta unidade de forma segura? Korunix agardará primeiro ata que rematen de gardar todos os datos pendentes.",
        Idioma::Hungaro => "Biztonságosan leválasszam ezt a meghajtót? A Korunix előbb megvárja, amíg minden függőben lévő adat mentése befejeződik.",
        Idioma::Italiano => "Espellere questa unità in modo sicuro? Korunix attenderà innanzitutto che tutti i dati in sospeso abbiano terminato il salvataggio.",
        Idioma::Coreano => "이 드라이브를 안전하게 꺼내시겠습니까? Korunix는 먼저 보류 중인 모든 데이터 저장이 완료될 때까지 기다립니다.",
        Idioma::Kurdo => "Vê ajokerê bi ewlehî derxe? Korunix dê pêşî li bendê bimîne heya ku hemî daneyên li bendê xilas bibin.",
        Idioma::Neerlandes => "Deze schijf veilig uitwerpen? Korunix wacht eerst totdat alle openstaande gegevens zijn opgeslagen.",
        Idioma::NoruegoNynorsk => "Ta ut denne stasjonen trygt? Korunix vil først vente til alle ventende data er ferdig lagret.",
        Idioma::Polaco => "Bezpiecznie wysunąć ten dysk? Korunix najpierw poczeka, aż wszystkie oczekujące dane zostaną zakończone.",
        Idioma::PortuguesBrasil => "Ejetar esta unidade com segurança? Korunix irá primeiro esperar até que todos os dados pendentes terminem de ser salvos.",
        Idioma::Ruso => "Безопасно извлечь этот диск? Korunix сначала дождется завершения сохранения всех ожидающих данных.",
        Idioma::Sueco => "Mata ut den här enheten på ett säkert sätt? Korunix kommer först att vänta tills all väntande data har sparats.",
        Idioma::Turco => "Bu sürücü güvenli bir şekilde çıkarılsın mı? Korunix will first wait until all pending data has finished saving.",
        Idioma::Ucraniano => "Безпечно вийняти цей диск? Korunix спочатку зачекає, доки завершиться збереження всіх незавершених даних.",
        Idioma::Vietnamita => "Đẩy ổ đĩa này ra một cách an toàn? Đầu tiên Korunix sẽ đợi cho đến khi tất cả dữ liệu đang chờ xử lý được lưu xong.",
        Idioma::ChinoSimplificado => "安全弹出此驱动器吗？ Korunix 将首先等待所有待处理数据完成保存。",
    }
}

/// Confirmation of a safe eject.
pub open spec fn frase_expulsion_ligera_spec(idioma: Idioma) -> Seq<char> {
    match idioma {
        Idioma::BelarusLatino => "Chočacje bjaspječna vynjac hety dysk zaraz?"@,
        Idioma::Belarus => "Бяспечна выняць гэты дыск?"@,
        Idioma::Catalan => "Expulsar aquesta unitat de manera segura ara?"@,
        Idioma::Checo => "Vysunout tento disk nyní bezpečně?"@,
        Idioma::Aleman => "Dieses Laufwerk jetzt sicher auswerfen?"@,
        Idioma::Ingles | Idioma::Turco => "Eject this drive safely now?"@,
        Idioma::Espanol => "¿Expulsar esta unidad de forma segura ahora?"@,
        Idioma::Frances => "Éjecter ce disque en toute sécurité maintenant ?"@,
        Idioma::Gallego => "Expulsar esta unidade de forma segura agora?"@,
        Idioma::Hungaro => "Biztonságosan leválasszam most ezt a meghajtót?"@,
        Idioma::Italiano => "Espellere questa unità in modo sicuro adesso?"@,
        Idioma::Coreano => "지금 이 드라이브를 안전하게 꺼내시겠습니까?"@,
        Idioma::Kurdo => "Vê ajokerê niha bi ewlehî derxe?"@,
        Idioma::Neerlandes => "Deze schijf nu veilig uitwerpen?"@,
        Idioma::NoruegoNynorsk => "Ta ut denne stasjonen trygt nå?"@,
        Idioma::Polaco => "Czy teraz bezpiecznie wysunąć ten dysk?"@,
        Idioma::PortuguesBrasil => "Ejetar esta unidade com segurança agora?"@,
        Idioma::Ruso => "Безопасно извлечь этот диск?"@,
        Idioma::Sueco => "Mata ut den här enheten säkert nu?"@,
        Idioma::Ucraniano => "Безпечно вийняти цей диск?"@,
        Idioma::Vietnamita => "Đẩy ổ đĩa này ra một cách an toàn ngay bây giờ?"@,
        Idioma::ChinoSimplificado => "现在安全弹出该驱动器吗？"@,
    }
}

pub fn frase_expulsion_ligera(idioma: Idioma) -> (r: &'static str)
    ensures
        r@ == frase_expulsion_ligera_spec(idioma),
{
    match idioma {
        Idioma::BelarusLatino => "Chočacje bjaspječna vynjac hety dysk zaraz?",
        Idioma::Belarus => "Бяспечна выняць гэты дыск?",
        Idioma::Catalan => "Expulsar aquesta unitat de manera segura ara?",
        Idioma::Checo => "Vysunout tento disk nyní bezpečně?",
        Idioma::Aleman => "Dieses Laufwerk jetzt sicher auswerfen?",
        Idioma::Ingles | Idioma::Turco => "Eject this drive safely now?",
        Idioma::Espanol => "¿Expulsar esta unidad de forma segura ahora?",
        Idioma::Frances => "Éjecter ce disque en toute sécurité maintenant ?",
        Idioma::Gallego => "Expulsar esta unidade de forma segura agora?",
        Idioma::Hungaro => "Biztonságosan leválasszam most ezt a meghajtót?",
        Idioma::Italiano => "Espellere questa unità in modo sicuro adesso?",
        Idioma::Coreano => "지금 이 드라이브를 안전하게 꺼내시겠습니까?",
        Idioma::Kurdo => "Vê ajokerê niha bi ewlehî derxe?",
        Idioma::Neerlandes => "Deze schijf nu veilig uitwerpen?",
        Idioma::NoruegoNynorsk => "Ta ut denne stasjonen trygt nå?",
        Idioma::Polaco => "Czy teraz bezpiecznie wysunąć ten dysk?",
        Idioma::PortuguesBrasil => "Ejetar esta unidade com segurança agora?",
        Idioma::Ruso => "Безопасно извлечь этот диск?",
        Idioma::Sueco => "Mata ut den här enheten säkert nu?",
        Idioma::Ucraniano => "Безпечно вийняти цей диск?",
        Idioma::Vietnamita => "Đẩy ổ đĩa này ra một cách an toàn ngay bây giờ?",
        Idioma::ChinoSimplificado => "现在安全弹出该驱动器吗？",
    }
}

/// Confirmation of a deep cleanup; `{eliminar}` is the number of versions removed.
pub open spec fn plantilla_limpieza_profunda_spec(idioma: Idioma) -> Seq<char> {
    match idioma {
        Idioma::BelarusLatino => "Vydałic {eliminar} starych vjersij sistemy i zachavac tołki vjersii, njeabchodnyja dłja zapusku i adnaŭłjennja? Heta vyzvałjaje bołš mjesca i zachoŭvaje mjenš varyjantaŭ adnaŭłjennja."@,
        Idioma::Belarus => "Выдаліць {eliminar} старыя версіі сістэмы і захаваць толькі версіі, неабходныя для запуску і аднаўлення? Гэта вызваляе больш месца і захоўвае менш варыянтаў аднаўлення."@,
        Idioma::Catalan => "Eliminar {eliminar} les versions anteriors del sistema i mantenir només les versions necessàries per a l'inici i la recuperació? Això allibera més espai i manté menys opcions de recuperació."@,
        Idioma::Checo => "Odebrat {eliminar} starší verze systému a ponechat pouze verze potřebné pro spuštění a obnovení? To uvolní více místa a zachová méně možností obnovení."@,
        Idioma::Aleman => "{eliminar} ältere Systemversionen entfernen und nur die Versionen behalten, die für den Start und die Wiederherstellung erforderlich sind? Dadurch wird mehr Speicherplatz frei und es stehen weniger Wiederherstellungsoptionen zur Verfügung."@,
        Idioma::Ingles | Idioma::Turco => "Remove {eliminar} older system versions and keep only the versions required for startup and recovery? This frees more space and keeps fewer recovery options."@,
        Idioma::Espanol => "¿Eliminar {eliminar} versiones antiguas y conservar solo las necesarias para iniciar y recuperar el sistema? Libera más espacio, pero deja menos opciones de recuperación."@,
        Idioma::Frances => "Supprimer {eliminar} les anciennes versions du système et conserver uniquement les versions requises pour le démarrage et la récupération ? Cela libère plus d'espace et conserve moins d'options de récupération."@,
        Idioma::Gallego => "Eliminar {eliminar} versións antigas do sistema e manter só as versións necesarias para o inicio e a recuperación? Isto libera máis espazo e mantén menos opcións de recuperación."@,
        Idioma::Hungaro => "Töröljek {eliminar} régebbi rendszerverziót, és csak az indításhoz és helyreállításhoz szükségeseket tartsam meg? Ez több helyet szabadít fel, de kevesebb helyreállítási lehetőséget hagy."@,
        Idioma::Italiano => "Rimuovere le versioni precedenti del sistema {eliminar} e mantenere solo le versioni richieste per l'avvio e il ripristino? Ciò libera più spazio e mantiene meno opzioni di ripristino."@,
        Idioma::Coreano => "{eliminar} 이전 시스템 버전을 제거하고 시작 및 복구에 필요한 버전만 유지하시겠습니까? 이렇게 하면 더 많은 공간이 확보되고 복구 옵션이 더 적게 유지됩니다."@,
        Idioma::Kurdo => "{eliminar} guhertoyên kevintir ên pergalê rakin û tenê guhertoyên ku ji bo destpêk û vegerandinê hewce ne bihêlin? Ev bêtir cîhê azad dike û kêmtir vebijarkên başbûnê digire."@,
        Idioma::Neerlandes => "{eliminar} oudere systeemversies verwijderen en alleen de versies behouden die nodig zijn voor opstarten en herstel? Hierdoor komt er meer ruimte vrij en blijven er minder herstelopties over."@,
        Idioma::NoruegoNynorsk => "Vil du fjerne {eliminar} eldre systemversjoner og beholde bare versjonene som kreves for oppstart og gjenoppretting? Dette frigjør mer plass og beholder færre gjenopprettingsalternativer."@,
        Idioma::Polaco => "Usunąć {eliminar} starsze wersje systemu i zachować tylko wersje wymagane do uruchomienia i odzyskiwania? Dzięki temu można zwolnić więcej miejsca i zachować mniej opcji odzyskiwania."@,
        Idioma::PortuguesBrasil => "Remover versões mais antigas do sistema {eliminar} e manter apenas as versões necessárias para inicialização e recuperação? Isso libera mais espaço e mantém menos opções de recuperação."@,
        Idioma::Ruso => "Удалить {eliminar} старые версии системы и оставить только те версии, которые необходимы для запуска и восстановления? Это освобождает больше места и оставляет меньше вариантов восстановления."@,
        Idioma::Sueco => "Ta bort {eliminar} äldre systemversioner och behålla endast de versioner som krävs för start och återställning? Detta frigör mer utrymme och behåller färre återställningsalternativ."@,
        Idioma::Ucraniano => "Видалити {eliminar} старіші версії системи та зберегти лише версії, необхідні для запуску та відновлення? Це звільняє більше місця та зберігає менше варіантів відновлення."@,
        Idioma::Vietnamita => "Xóa {eliminar} phiên bản hệ thống cũ hơn và chỉ giữ lại các phiên bản cần thiết để khởi động và khôi phục? Điều này giải phóng nhiều không gian hơn và giữ ít tùy chọn khôi phục hơn."@,
        Idioma::ChinoSimplificado => "删除 {eliminar} 旧系统版本并仅保留启动和恢复所需的版本？这可以释放更多空间并保留更少的恢复选项。"@,
    }
}

pub fn plantilla_limpieza_profunda(idioma: Idioma) -> (r: &'static str)
    ensures
        r@ == plantilla_limpieza_profunda_spec(idioma),
{
    match idioma {
        Idioma::BelarusLatino => "Vydałic {eliminar} starych vjersij sistemy i zachavac tołki vjersii, njeabchodnyja dłja zapusku i adnaŭłjennja? Heta vyzvałjaje bołš mjesca i zachoŭvaje mjenš varyjantaŭ adnaŭłjennja.",
        Idioma::Belarus => "Выдаліць {eliminar} старыя версіі сістэмы і захаваць толькі версіі, неабходныя для запуску і аднаўлення? Гэта вызваляе больш месца і захоўвае менш варыянтаў аднаўлення.",
        Idioma::Catalan => "Eliminar {eliminar} les versions anteriors del sistema i mantenir només les versions necessàries per a l'inici i la recuperació? Això allibera més espai i manté menys opcions de recuperació.",
        Idioma::Checo => "Odebrat {eliminar} starší verze systému a ponechat pouze verze potřebné pro spuštění a obnovení? To uvolní více místa a zachová méně možností obnovení.",
        Idioma::Aleman => "{eliminar} ältere Systemversionen entfernen und nur die Versionen behalten, die für den Start und die Wiederherstellung erforderlich sind? Dadurch wird mehr Speicherplatz frei und es stehen weniger Wiederherstellungsoptionen zur Verfügung.",
        Idioma::Ingles | Idioma::Turco => "Remove {eliminar} older system versions and keep only the versions required for startup and recovery? This frees more space and keeps fewer recovery options.",
        Idioma::Espanol => "¿Eliminar {eliminar} versiones antiguas y conservar solo las necesarias para iniciar y recuperar el sistema? Libera más espacio, pero deja menos opciones de recuperación.",
        Idioma::Frances => "Supprimer {eliminar} les anciennes versions du système et conserver uniquement les versions requises pour le démarrage et la récupération ? Cela libère plus d'espace et conserve moins d'options de récupération.",
        Idioma::Gallego => "Eliminar {eliminar} versións antigas do sistema e manter só as versións necesarias para o inicio e a recuperación? Isto libera máis espazo e mantén menos opcións de recuperación.",
        Idioma::Hungaro => "Töröljek {eliminar} régebbi rendszerverziót, és csak az indításhoz és helyreállításhoz szükségeseket tartsam meg? Ez több helyet szabadít fel, de kevesebb helyreállítási lehetőséget hagy.",
        Idioma::Italiano => "Rimuovere le versioni precedenti del sistema {eliminar} e mantenere solo le versioni richieste per l'avvio e il ripristino? Ciò libera più spazio e mantiene meno opzioni di ripristino.",
        Idioma::Coreano => "{eliminar} 이전 시스템 버전을 제거하고 시작 및 복구에 필요한 버전만 유지하시겠습니까? 이렇게 하면 더 많은 공간이 확보되고 복구 옵션이 더 적게 유지됩니다.",
        Idioma::Kurdo => "{eliminar} guhertoyên kevintir ên pergalê rakin û tenê guhertoyên ku ji bo destpêk û vegerandinê hewce ne bihêlin? Ev bêtir cîhê azad dike û kêmtir vebijarkên başbûnê digire.",
        Idioma::Neerlandes => "{eliminar} oudere systeemversies verwijderen en alleen de versies behouden die nodig zijn voor opstarten en herstel? Hierdoor komt er meer ruimte vrij en blijven er minder herstelopties over.",
        Idioma::NoruegoNynorsk => "Vil du fjerne {eliminar} eldre systemversjoner og beholde bare versjonene som kreves for oppstart og gjenoppretting? Dette frigjør mer plass og beholder færre gjenopprettingsalternativer.",
        Idioma::Polaco => "Usunąć {eliminar} starsze wersje systemu i zachować tylko wersje wymagane do uruchomienia i odzyskiwania? Dzięki temu można zwolnić więcej miejsca i zachować mniej opcji odzyskiwania.",
        Idioma::PortuguesBrasil => "Remover versões mais antigas do sistema {eliminar} e manter apenas as versões necessárias para inicialização e recuperação? Isso libera mais espaço e mantém menos opções de recuperação.",
        Idioma::Ruso => "Удалить {eliminar} старые версии системы и оставить только те версии, которые необходимы для запуска и восстановления? Это освобождает больше места и оставляет меньше вариантов восстановления.",
        Idioma::Sueco => "Ta bort {eliminar} äldre systemversioner och behålla endast de versioner som krävs för start och återställning? Detta frigör mer utrymme och behåller färre återställningsalternativ.",
        Idioma::Ucraniano => "Видалити {eliminar} старіші версії системи та зберегти лише версії, необхідні для запуску та відновлення? Це звільняє більше місця та зберігає менше варіантів відновлення.",
        Idioma::Vietnamita => "Xóa {eliminar} phiên bản hệ thống cũ hơn và chỉ giữ lại các phiên bản cần thiết để khởi động và khôi phục? Điều này giải phóng nhiều không gian hơn và giữ ít tùy chọn khôi phục hơn.",
        Idioma::ChinoSimplificado => "删除 {eliminar} 旧系统版本并仅保留启动和恢复所需的版本？这可以释放更多空间并保留更少的恢复选项。",
    }
}

/// Confirmation of a recommended cleanup; `{eliminar}` is the number of versions removed.
pub open spec fn plantilla_limpieza_spec(idioma: Idioma) -> Seq<char> {
    match idioma {
        Idioma::BelarusLatino => "Vydałic {eliminar} staryja vjersii sistemy? Korunix zachavaje vjersii, paznačanyja dłja adnaŭłjennja, i vyzvałic mjesca, jakoje im bołš nje patrebna."@,
        Idioma::Belarus => "Выдаліць {eliminar} старыя версіі сістэмы? Korunix захавае версіі, пазначаныя для аднаўлення, і вызваліць месца, якое ім больш не патрэбна."@,
        Idioma::Catalan => "Eliminar {eliminar} versions anteriors del sistema? Korunix mantindrà les versions marcades per a la recuperació i alliberarà l'espai que ja no necessiten."@,
        Idioma::Checo => "Odebrat {eliminar} starší verze systému? Korunix zachová verze označené pro obnovu a uvolní místo, které již nepotřebují."@,
        Idioma::Aleman => "{eliminar} ältere Systemversionen entfernen? Korunix behält die zur Wiederherstellung markierten Versionen bei und gibt den nicht mehr benötigten Speicherplatz frei."@,
        Idioma::Ingles | Idioma::Turco => "Remove {eliminar} older system versions? Korunix will keep the versions marked for recovery and free the space they no longer need."@,
        Idioma::Espanol => "¿Eliminar {eliminar} versiones antiguas del sistema? Korunix conservará las versiones marcadas para recuperación y liberará el espacio que ya no necesitan."@,
        Idioma::Frances => "Supprimer {eliminar} les anciennes versions du système ? Korunix conservera les versions marquées pour la récupération et libérera l'espace dont elles n'ont plus besoin."@,
        Idioma::Gallego => "Quitar {eliminar} versións anteriores do sistema? Korunix manterá as versións marcadas para a súa recuperación e liberará o espazo que xa non necesitan."@,
        Idioma::Hungaro => "Töröljek {eliminar} régebbi rendszerverziót? A Korunix megtartja a helyreállításhoz jelölt verziókat, és felszabadítja a már nem szükséges helyet."@,
        Idioma::Italiano => "Rimuovere {eliminar} versioni precedenti del sistema? Korunix manterrà le versioni contrassegnate per il ripristino e libererà lo spazio di cui non hanno più bisogno."@,
        Idioma::Coreano => "{eliminar} 이전 시스템 버전을 제거하시겠습니까? Korunix는 복구용으로 표시된 버전을 유지하고 더 이상 필요하지 않은 공간을 확보합니다."@,
        Idioma::Kurdo => "{eliminar} guhertoyên kevintir ên pergalê rakin? Korunix dê guhertoyên ku ji bo başbûnê hatine nîşankirin bihêle û cîhê ku ew êdî ne hewce ye azad bike."@,
        Idioma::Neerlandes => "{eliminar} oudere systeemversies verwijderen? Korunix zal de versies gemarkeerd voor herstel behouden en de ruimte vrijmaken die ze niet langer nodig hebben."@,
        Idioma::NoruegoNynorsk => "Vil du fjerne {eliminar} eldre systemversjoner? Korunix vil beholde versjonene merket for gjenoppretting og frigjøre plassen de ikke lenger trenger."@,
        Idioma::Polaco => "Usunąć {eliminar} starsze wersje systemu? Korunix zachowa wersje oznaczone do odzyskania i zwolni miejsce, którego już nie potrzebują."@,
        Idioma::PortuguesBrasil => "Remover versões mais antigas do sistema {eliminar}? Korunix manterá as versões marcadas para recuperação e liberará o espaço que elas não precisam mais."@,
        Idioma::Ruso => "Удалить {eliminar} более старые версии системы? Korunix сохранит версии, помеченные для восстановления, и освободит место, которое им больше не нужно."@,
        Idioma::Sueco => "Ta bort {eliminar} äldre systemversioner? Korunix kommer att behålla versionerna markerade för återställning och frigöra det utrymme de inte längre behöver."@,
        Idioma::Ucraniano => "Видалити {eliminar} старіші версії системи? Korunix збереже версії, позначені для відновлення, і звільнить місце, яке їм більше не потрібне."@,
        Idioma::Vietnamita => "Xóa {eliminar} phiên bản hệ thống cũ hơn? Korunix sẽ đánh dấu các phiên bản để khôi phục và giải phóng dung lượng mà chúng không còn cần nữa."@,
        Idioma::ChinoSimplificado => "删除 {eliminar} 旧系统版本？ Korunix 将保留标记为恢复的版本并释放它们不再需要的空间。"@,
    }
}

pub fn plantilla_limpieza(idioma: Idioma) -> (r: &'static str)
    ensures
        r@ == plantilla_limpieza_spec(idioma),
{
    match idioma {
        Idioma::BelarusLatino => "Vydałic {eliminar} staryja vjersii sistemy? Korunix zachavaje vjersii, paznačanyja dłja adnaŭłjennja, i vyzvałic mjesca, jakoje im bołš nje patrebna.",
        Idioma::Belarus => "Выдаліць {eliminar} старыя версіі сістэмы? Korunix захавае версіі, пазначаныя для аднаўлення, і вызваліць месца, якое ім больш не патрэбна.",
        Idioma::Catalan => "Eliminar {eliminar} versions anteriors del sistema? Korunix mantindrà les versions marcades per a la recuperació i alliberarà l'espai que ja no necessiten.",
        Idioma::Checo => "Odebrat {eliminar} starší verze systému? Korunix zachová verze označené pro obnovu a uvolní místo, které již nepotřebují.",
        Idioma::Aleman => "{eliminar} ältere Systemversionen entfernen? Korunix behält die zur Wiederherstellung markierten Versionen bei und gibt den nicht mehr benötigten Speicherplatz frei.",
        Idioma::Ingles | Idioma::Turco => "Remove {eliminar} older system versions? Korunix will keep the versions marked for recovery and free the space they no longer need.",
        Idioma::Espanol => "¿Eliminar {eliminar} versiones antiguas del sistema? Korunix conservará las versiones marcadas para recuperación y liberará el espacio que ya no necesitan.",
        Idioma::Frances => "Supprimer {eliminar} les anciennes versions du système ? Korunix conservera les versions marquées pour la récupération et libérera l'espace dont elles n'ont plus besoin.",
        Idioma::Gallego => "Quitar {eliminar} versións anteriores do sistema? Korunix manterá as versións marcadas para a súa recuperación e liberará o espazo que xa non necesitan.",
        Idioma::Hungaro => "Töröljek {eliminar} régebbi rendszerverziót? A Korunix megtartja a helyreállításhoz jelölt verziókat, és felszabadítja a már nem szükséges helyet.",
        Idioma::Italiano => "Rimuovere {eliminar} versioni precedenti del sistema? Korunix manterrà le versioni contrassegnate per il ripristino e libererà lo spazio di cui non hanno più bisogno.",
        Idioma::Coreano => "{eliminar} 이전 시스템 버전을 제거하시겠습니까? Korunix는 복구용으로 표시된 버전을 유지하고 더 이상 필요하지 않은 공간을 확보합니다.",
        Idioma::Kurdo => "{eliminar} guhertoyên kevintir ên pergalê rakin? Korunix dê guhertoyên ku ji bo başbûnê hatine nîşankirin bihêle û cîhê ku ew êdî ne hewce ye azad bike.",
        Idioma::Neerlandes => "{eliminar} oudere systeemversies verwijderen? Korunix zal de versies gemarkeerd voor herstel behouden en de ruimte vrijmaken die ze niet langer nodig hebben.",
        Idioma::NoruegoNynorsk => "Vil du fjerne {eliminar} eldre systemversjoner? Korunix vil beholde versjonene merket for gjenoppretting og frigjøre plassen de ikke lenger trenger.",
        Idioma::Polaco => "Usunąć {eliminar} starsze wersje systemu? Korunix zachowa wersje oznaczone do odzyskania i zwolni miejsce, którego już nie potrzebują.",
        Idioma::PortuguesBrasil => "Remover versões mais antigas do sistema {eliminar}? Korunix manterá as versões marcadas para recuperação e liberará o espaço que elas não precisam mais.",
        Idioma::Ruso => "Удалить {eliminar} более старые версии системы? Korunix сохранит версии, помеченные для восстановления, и освободит место, которое им больше не нужно.",
        Idioma::Sueco => "Ta bort {eliminar} äldre systemversioner? Korunix kommer att behålla versionerna markerade för återställning och frigöra det utrymme de inte längre behöver.",
        Idioma::Ucraniano => "Видалити {eliminar} старіші версії системи? Korunix збереже версії, позначені для відновлення, і звільнить місце, яке їм більше не потрібне.",
        Idioma::Vietnamita => "Xóa {eliminar} phiên bản hệ thống cũ hơn? Korunix sẽ đánh dấu các phiên bản để khôi phục và giải phóng dung lượng mà chúng không còn cần nữa.",
        Idioma::ChinoSimplificado => "删除 {eliminar} 旧系统版本？ Korunix 将保留标记为恢复的版本并释放它们不再需要的空间。",
    }
}

/// What refreshing the sources does; `{cantidad}` is the number of components.
pub open spec fn plantilla_fuentes_spec(idioma: Idioma) -> Seq<char> {
    match idioma {
        Idioma::BelarusLatino => "{cantidad} kanfihuravanyja kampanjenty. Abnaŭłjaje dastupnyja vjersii; jon jašče ničoha nje ŭstałjoŭvaje."@,
        Idioma::Belarus => "{cantidad} канфігураваныя кампаненты. Абнаўляе даступныя версіі; ён яшчэ нічога не ўсталёўвае."@,
        Idioma::Catalan => "{cantidad} components configurats. Actualitza les versions disponibles; encara no instal·la res."@,
        Idioma::Checo => "{cantidad} nakonfigurované komponenty. Aktualizuje dostupné verze; zatím nic neinstaluje."@,
        Idioma::Aleman => "{cantidad} konfigurierte Komponenten. Aktualisiert die verfügbaren Versionen; Es wird noch nichts installiert."@,
        Idioma::Ingles => "{cantidad} configured components. Refreshes the available versions; it does not install anything yet."@,
        Idioma::Espanol => "{cantidad} componentes configurados. Actualiza las versiones disponibles; todavía no instala nada."@,
        Idioma::Frances => "{cantidad} composants configurés. Actualise les versions disponibles ; il n'installe encore rien."@,
        Idioma::Gallego => "{cantidad} compoñentes configurados. Actualiza as versións dispoñibles; aínda non instala nada."@,
        Idioma::Hungaro => "{cantidad} beállított összetevő. Frissíti az elérhető verziókat, de még nem telepít semmit."@,
        Idioma::Italiano => "{cantidad} componenti configurati. Aggiorna le versioni disponibili; non installa ancora nulla."@,
        Idioma::Coreano => "{cantidad} 구성 요소가 구성되었습니다. 사용 가능한 버전을 새로 고칩니다. 아직 아무것도 설치하지 않았습니다."@,
        Idioma::Kurdo => "{cantidad} hêmanên mîhengkirî. Guhertoyên berdest nû dike; ew hîn tiştek saz nake."@,
        Idioma::Neerlandes => "{cantidad} geconfigureerde componenten. Vernieuwt de beschikbare versies; er wordt nog niets geïnstalleerd."@,
        Idioma::NoruegoNynorsk => "{cantidad} konfigurerte komponenter. Oppdaterer tilgjengelige versjoner; den installerer ikke noe ennå."@,
        Idioma::Polaco => "{cantidad} skonfigurowane komponenty. Odświeża dostępne wersje; jeszcze nic nie instaluje."@,
        Idioma::PortuguesBrasil => "{cantidad} componentes configurados. Atualiza as versões disponíveis; ainda não instala nada."@,
        Idioma::Ruso => "{cantidad} настроенные компоненты. Обновляет доступные версии; он еще ничего не устанавливает."@,
        Idioma::Sueco => "{cantidad} konfigurerade komponenter. Uppdaterar tillgängliga versioner; den installerar inget ännu."@,
        Idioma::Turco => "{cantidad} configured components. Mevcut sürümleri yeniler; henüz hiçbir şey yüklemiyor."@,
        Idioma::Ucraniano => "{cantidad} налаштовані компоненти. Оновлює доступні версії; він ще нічого не встановлює."@,
        Idioma::Vietnamita => "{cantidad} thành phần được định cấu hình. Làm mới các phiên bản có sẵn; nó chưa cài đặt gì cả."@,
        Idioma::ChinoSimplificado => "{cantidad} 配置组件。刷新可用版本；它还没有安装任何东西。"@,
    }
}

pub fn plantilla_fuentes(idioma: Idioma) -> (r: &'static str)
    ensures
        r@ == plantilla_fuentes_spec(idioma),
{
    match idioma {
        Idioma::BelarusLatino => "{cantidad} kanfihuravanyja kampanjenty. Abnaŭłjaje dastupnyja vjersii; jon jašče ničoha nje ŭstałjoŭvaje.",
        Idioma::Belarus => "{cantidad} канфігураваныя кампаненты. Абнаўляе даступныя версіі; ён яшчэ нічога не ўсталёўвае.",
        Idioma::Catalan => "{cantidad} components configurats. Actualitza les versions disponibles; encara no instal·la res.",
        Idioma::Checo => "{cantidad} nakonfigurované komponenty. Aktualizuje dostupné verze; zatím nic neinstaluje.",
        Idioma::Aleman => "{cantidad} konfigurierte Komponenten. Aktualisiert die verfügbaren Versionen; Es wird noch nichts installiert.",
        Idioma::Ingles => "{cantidad} configured components. Refreshes the available versions; it does not install anything yet.",
        Idioma::Espanol => "{cantidad} componentes configurados. Actualiza las versiones disponibles; todavía no instala nada.",
        Idioma::Frances => "{cantidad} composants configurés. Actualise les versions disponibles ; il n'installe encore rien.",
        Idioma::Gallego => "{cantidad} compoñentes configurados. Actualiza as versións dispoñibles; aínda non instala nada.",
        Idioma::Hungaro => "{cantidad} beállított összetevő. Frissíti az elérhető verziókat, de még nem telepít semmit.",
        Idioma::Italiano => "{cantidad} componenti configurati. Aggiorna le versioni disponibili; non installa ancora nulla.",
        Idioma::Coreano => "{cantidad} 구성 요소가 구성되었습니다. 사용 가능한 버전을 새로 고칩니다. 아직 아무것도 설치하지 않았습니다.",
        Idioma::Kurdo => "{cantidad} hêmanên mîhengkirî. Guhertoyên berdest nû dike; ew hîn tiştek saz nake.",
        Idioma::Neerlandes => "{cantidad} geconfigureerde componenten. Vernieuwt de beschikbare versies; er wordt nog niets geïnstalleerd.",
        Idioma::NoruegoNynorsk => "{cantidad} konfigurerte komponenter. Oppdaterer tilgjengelige versjoner; den installerer ikke noe ennå.",
        Idioma::Polaco => "{cantidad} skonfigurowane komponenty. Odświeża dostępne wersje; jeszcze nic nie instaluje.",
        Idioma::PortuguesBrasil => "{cantidad} componentes configurados. Atualiza as versões disponíveis; ainda não instala nada.",
        Idioma::Ruso => "{cantidad} настроенные компоненты. Обновляет доступные версии; он еще ничего не устанавливает.",
        Idioma::Sueco => "{cantidad} konfigurerade komponenter. Uppdaterar tillgängliga versioner; den installerar inget ännu.",
        Idioma::Turco => "{cantidad} configured components. Mevcut sürümleri yeniler; henüz hiçbir şey yüklemiyor.",
        Idioma::Ucraniano => "{cantidad} налаштовані компоненти. Оновлює доступні версії; він ще нічого не встановлює.",
        Idioma::Vietnamita => "{cantidad} thành phần được định cấu hình. Làm mới các phiên bản có sẵn; nó chưa cài đặt gì cả.",
        Idioma::ChinoSimplificado => "{cantidad} 配置组件。刷新可用版本；它还没有安装任何东西。",
    }
}

/// Confirmation of a catalogue update; `{cantidad}` is the number of components.
pub open spec fn plantilla_actualizacion_spec(idioma: Idioma) -> Seq<char> {
    match idioma {
        Idioma::BelarusLatino => "Abnavic katałoh prahramnaha zabjespjačennja dłja kampanjentaŭ {cantidad}? Heta moža vykarystoŭvac sjetku. Pakuł ničoha nje budzje ŭstanoŭłjena abo prymjenjena da sistemy."@,
        Idioma::Belarus => "Абнавіць каталог праграмнага забеспячэння для кампанентаў {cantidad}? Гэта можа выкарыстоўваць сетку. Пакуль нічога не будзе ўстаноўлена або прыменена да сістэмы."@,
        Idioma::Catalan => "Actualitzar ara el catàleg de programari per als components {cantidad}? Això pot utilitzar la xarxa. Encara no s'instal·larà ni s'aplicarà res al sistema."@,
        Idioma::Checo => "Aktualizovat katalog softwaru pro komponenty {cantidad} nyní? To může používat síť. Do systému se zatím nic neinstaluje ani neaplikuje."@,
        Idioma::Aleman => "Den Softwarekatalog für {cantidad}-Komponenten jetzt aktualisieren? Dies kann das Netzwerk nutzen. Es wird noch nichts installiert oder auf das System angewendet."@,
        Idioma::Ingles => "Update the software catalog for {cantidad} components now? This may use the network. Nothing will be installed or applied to the system yet."@,
        Idioma::Espanol => "¿Actualizar ahora el catálogo de software para {cantidad} componentes? Puede usar la red. Todavía no se instalará ni aplicará nada al sistema."@,
        Idioma::Frances => "Mettre à jour le catalogue de logiciels pour les composants {cantidad} maintenant ? Cela peut utiliser le réseau. Rien ne sera encore installé ou appliqué au système."@,
        Idioma::Gallego => "Actualizar agora o catálogo de software para os compoñentes {cantidad}? Isto pode usar a rede. Aínda non se instalará nin se aplicará nada ao sistema."@,
        Idioma::Hungaro => "Frissítsem most a szoftverkatalógust {cantidad} összetevőhöz? Ez használhatja a hálózatot. Még semmi sem lesz telepítve vagy alkalmazva a rendszeren."@,
        Idioma::Italiano => "Aggiornare adesso il catalogo software per i componenti {cantidad}? Questo potrebbe utilizzare la rete. Non verrà ancora installato o applicato nulla al sistema."@,
        Idioma::Coreano => "{cantidad} 구성요소에 대한 소프트웨어 카탈로그를 지금 업데이트하시겠습니까? 네트워크를 사용할 수 있습니다. 아직 시스템에 아무것도 설치되거나 적용되지 않습니다."@,
        Idioma::Kurdo => "Kataloga nermalavê ya ji bo pêkhateyên {cantidad} niha nûve bike? Ev dibe ku torê bikar bîne. Dê hîn tiştek neyê saz kirin an li pergalê were sepandin."@,
        Idioma::Neerlandes => "De softwarecatalogus voor {cantidad} componenten nu bijwerken? Deze kan gebruik maken van het netwerk. Er wordt nog niets op het systeem geïnstalleerd of toegepast."@,
        Idioma::NoruegoNynorsk => "Oppdatere programvarekatalogen for {cantidad} komponenter nå? Dette kan bruke nettverket. Ingenting vil bli installert eller brukt på systemet ennå."@,
        Idioma::Polaco => "Zaktualizować teraz katalog oprogramowania dla komponentów {cantidad}? To może korzystać z sieci. Nic nie zostanie jeszcze zainstalowane ani zastosowane w systemie."@,
        Idioma::PortuguesBrasil => "Atualizar o catálogo de software para componentes {cantidad} agora? Isso pode usar a rede. Nada será instalado ou aplicado ao sistema ainda."@,
        Idioma::Ruso => "Обновить каталог программного обеспечения для компонентов {cantidad} сейчас? Это может использовать сеть. Пока ничего не будет установлено или применено в системе."@,
        Idioma::Sueco => "Uppdatera programvarukatalogen för {cantidad} komponenter nu? Detta kan använda nätverket. Inget kommer att installeras eller tillämpas på systemet ännu."@,
        Idioma::Turco => "Update the software catalog for {cantidad} components now? Bu ağı kullanabilir. Nothing will be installed or applied to the system yet."@,
        Idioma::Ucraniano => "Оновити каталог програмного забезпечення для компонентів {cantidad}? Це може використовувати мережу. Ще нічого не буде встановлено або застосовано до системи."@,
        Idioma::Vietnamita => "Cập nhật danh mục phần mềm cho các thành phần {cantidad} ngay bây giờ? Điều này có thể sử dụng mạng. Sẽ không có gì được cài đặt hoặc áp dụng cho hệ thống."@,
        Idioma::ChinoSimplificado => "现在更新 {cantidad} 组件的软件目录吗？这可能会使用网络。尚未向系统安装或应用任何内容。"@,
    }
}

pub fn plantilla_actualizacion(idioma: Idioma) -> (r: &'static str)
    ensures
        r@ == plantilla_actualizacion_spec(idioma),
{
    match idioma {
        Idioma::BelarusLatino => "Abnavic katałoh prahramnaha zabjespjačennja dłja kampanjentaŭ {cantidad}? Heta moža vykarystoŭvac sjetku. Pakuł ničoha nje budzje ŭstanoŭłjena abo prymjenjena da sistemy.",
        Idioma::Belarus => "Абнавіць каталог праграмнага забеспячэння для кампанентаў {cantidad}? Гэта можа выкарыстоўваць сетку. Пакуль нічога не будзе ўстаноўлена або прыменена да сістэмы.",
        Idioma::Catalan => "Actualitzar ara el catàleg de programari per als components {cantidad}? Això pot utilitzar la xarxa. Encara no s'instal·larà ni s'aplicarà res al sistema.",
        Idioma::Checo => "Aktualizovat katalog softwaru pro komponenty {cantidad} nyní? To může používat síť. Do systému se zatím nic neinstaluje ani neaplikuje.",
        Idioma::Aleman => "Den Softwarekatalog für {cantidad}-Komponenten jetzt aktualisieren? Dies kann das Netzwerk nutzen. Es wird noch nichts installiert oder auf das System angewendet.",
        Idioma::Ingles => "Update the software catalog for {cantidad} components now? This may use the network. Nothing will be installed or applied to the system yet.",
        Idioma::Espanol => "¿Actualizar ahora el catálogo de software para {cantidad} componentes? Puede usar la red. Todavía no se instalará ni aplicará nada al sistema.",
        Idioma::Frances => "Mettre à jour le catalogue de logiciels pour les composants {cantidad} maintenant ? Cela peut utiliser le réseau. Rien ne sera encore installé ou appliqué au système.",
        Idioma::Gallego => "Actualizar agora o catálogo de software para os compoñentes {cantidad}? Isto pode usar a rede. Aínda non se instalará nin se aplicará nada ao sistema.",
        Idioma::Hungaro => "Frissítsem most a szoftverkatalógust {cantidad} összetevőhöz? Ez használhatja a hálózatot. Még semmi sem lesz telepítve vagy alkalmazva a rendszeren.",
        Idioma::Italiano => "Aggiornare adesso il catalogo software per i componenti {cantidad}? Questo potrebbe utilizzare la rete. Non verrà ancora installato o applicato nulla al sistema.",
        Idioma::Coreano => "{cantidad} 구성요소에 대한 소프트웨어 카탈로그를 지금 업데이트하시겠습니까? 네트워크를 사용할 수 있습니다. 아직 시스템에 아무것도 설치되거나 적용되지 않습니다.",
        Idioma::Kurdo => "Kataloga nermalavê ya ji bo pêkhateyên {cantidad} niha nûve bike? Ev dibe ku torê bikar bîne. Dê hîn tiştek neyê saz kirin an li pergalê were sepandin.",
        Idioma::Neerlandes => "De softwarecatalogus voor {cantidad} componenten nu bijwerken? Deze kan gebruik maken van het netwerk. Er wordt nog niets op het systeem geïnstalleerd of toegepast.",
        Idioma::NoruegoNynorsk => "Oppdatere programvarekatalogen for {cantidad} komponenter nå? Dette kan bruke nettverket. Ingenting vil bli installert eller brukt på systemet ennå.",
        Idioma::Polaco => "Zaktualizować teraz katalog oprogramowania dla komponentów {cantidad}? To może korzystać z sieci. Nic nie zostanie jeszcze zainstalowane ani zastosowane w systemie.",
        Idioma::PortuguesBrasil => "Atualizar o catálogo de software para componentes {cantidad} agora? Isso pode usar a rede. Nada será instalado ou aplicado ao sistema ainda.",
        Idioma::Ruso => "Обновить каталог программного обеспечения для компонентов {cantidad} сейчас? Это может использовать сеть. Пока ничего не будет установлено или применено в системе.",
        Idioma::Sueco => "Uppdatera programvarukatalogen för {cantidad} komponenter nu? Detta kan använda nätverket. Inget kommer att installeras eller tillämpas på systemet ännu.",
        Idioma::Turco => "Update the software catalog for {cantidad} components now? Bu ağı kullanabilir. Nothing will be installed or applied to the system yet.",
        Idioma::Ucraniano => "Оновити каталог програмного забезпечення для компонентів {cantidad}? Це може використовувати мережу. Ще нічого не буде встановлено або застосовано до системи.",
        Idioma::Vietnamita => "Cập nhật danh mục phần mềm cho các thành phần {cantidad} ngay bây giờ? Điều này có thể sử dụng mạng. Sẽ không có gì được cài đặt hoặc áp dụng cho hệ thống.",
        Idioma::ChinoSimplificado => "现在更新 {cantidad} 组件的软件目录吗？这可能会使用网络。尚未向系统安装或应用任何内容。",
    }
}

/// How many versions are kept, for one.
pub open spec fn generaciones_una_conservada_spec(idioma: Idioma) -> Seq<char> {
    match idioma {
        Idioma::BelarusLatino => "Zachoŭvaje 1 vjersiju dłja adnaŭłjennja"@,
        Idioma::Belarus => "Захоўвае 1 версію для аднаўлення"@,
        Idioma::Catalan => "Conserva 1 versió per a la recuperació"@,
        Idioma::Checo => "Uchovává 1 verzi pro obnovení"@,
        Idioma::Aleman => "Behält 1 Version zur Wiederherstellung"@,
        Idioma::Ingles => "Keeps 1 version for recovery"@,
        Idioma::Espanol => "Conserva 1 versión para recuperación"@,
        Idioma::Frances => "Conserve 1 version pour la récupération"@,
        Idioma::Gallego => "Mantén 1 versión para a súa recuperación"@,
        Idioma::Hungaro => "1 verzió megmarad helyreállításhoz"@,
        Idioma::Italiano => "Conserva 1 versione per il ripristino"@,
        Idioma::Coreano => "복구를 위해 1개 버전 유지"@,
        Idioma::Kurdo => "1 guhertoya ji bo vegirtinê digire"@,
        Idioma::Neerlandes => "Behoudt 1 versie voor herstel"@,
        Idioma::NoruegoNynorsk => "Beholder 1 versjon for gjenoppretting"@,
        Idioma::Polaco => "Zachowuje 1 wersję do odzyskania"@,
        Idioma::PortuguesBrasil => "Mantém 1 versão para recuperação"@,
        Idioma::Ruso => "Сохраняет 1 версию для восстановления."@,
        Idioma::Sueco => "Behåller 1 version för återställning"@,
        Idioma::Turco => "Kurtarma için 1 sürümü saklar"@,
        Idioma::Ucraniano => "Зберігає 1 версію для відновлення"@,
        Idioma::Vietnamita => "Giữ 1 phiên bản để phục hồi"@,
        Idioma::ChinoSimplificado => "保留 1 个版本用于恢复"@,
    }
}

pub fn generaciones_una_conservada(idioma: Idioma) -> (r: &'static str)
    ensures
        r@ == generaciones_una_conservada_spec(idioma),
{
    match idioma {
        Idioma::BelarusLatino => "Zachoŭvaje 1 vjersiju dłja adnaŭłjennja",
        Idioma::Belarus => "Захоўвае 1 версію для аднаўлення",
        Idioma::Catalan => "Conserva 1 versió per a la recuperació",
        Idioma::Checo => "Uchovává 1 verzi pro obnovení",
        Idioma::Aleman => "Behält 1 Version zur Wiederherstellung",
        Idioma::Ingles => "Keeps 1 version for recovery",
        Idioma::Espanol => "Conserva 1 versión para recuperación",
        Idioma::Frances => "Conserve 1 version pour la récupération",
        Idioma::Gallego => "Mantén 1 versión para a súa recuperación",
        Idioma::Hungaro => "1 verzió megmarad helyreállításhoz",
        Idioma::Italiano => "Conserva 1 versione per il ripristino",
        Idioma::Coreano => "복구를 위해 1개 버전 유지",
        Idioma::Kurdo => "1 guhertoya ji bo vegirtinê digire",
        Idioma::Neerlandes => "Behoudt 1 versie voor herstel",
        Idioma::NoruegoNynorsk => "Beholder 1 versjon for gjenoppretting",
        Idioma::Polaco => "Zachowuje 1 wersję do odzyskania",
        Idioma::PortuguesBrasil => "Mantém 1 versão para recuperação",
        Idioma::Ruso => "Сохраняет 1 версию для восстановления.",
        Idioma::Sueco => "Behåller 1 version för återställning",
        Idioma::Turco => "Kurtarma için 1 sürümü saklar",
        Idioma::Ucraniano => "Зберігає 1 версію для відновлення",
        Idioma::Vietnamita => "Giữ 1 phiên bản để phục hồi",
        Idioma::ChinoSimplificado => "保留 1 个版本用于恢复",
    }
}

/// How many versions are kept; `{conservar}` is their number.
pub open spec fn plantilla_generaciones_conservadas_spec(idioma: Idioma) -> Seq<char> {
    match idioma {
        Idioma::BelarusLatino => "Zachoŭvaje {conservar} vjersii dłja adnaŭłjennja"@,
        Idioma::Belarus => "Захоўвае {conservar} версіі для аднаўлення"@,
        Idioma::Catalan => "Manté les versions {conservar} per a la recuperació"@,
        Idioma::Checo => "Uchovává verze {conservar} pro obnovení"@,
        Idioma::Aleman => "Behält {conservar} Versionen zur Wiederherstellung"@,
        Idioma::Ingles | Idioma::Turco => "Keeps {conservar} versions for recovery"@,
        Idioma::Espanol => "Conserva {conservar} versiones para recuperación"@,
        Idioma::Frances => "Conserve les versions {conservar} pour la récupération"@,
        Idioma::Gallego => "Mantén as versións de {conservar} para a súa recuperación"@,
        Idioma::Hungaro => "{conservar} verzió megmarad helyreállításhoz"@,
        Idioma::Italiano => "Mantiene le versioni {conservar} per il ripristino"@,
        Idioma::Coreano => "복구를 위해 {conservar} 버전을 유지합니다."@,
        Idioma::Kurdo => "Guhertoyên {conservar} ji bo vegirtinê digire"@,
        Idioma::Neerlandes => "Behoudt {conservar} versies voor herstel"@,
        Idioma::NoruegoNynorsk => "Beholder {conservar} versjoner for gjenoppretting"@,
        Idioma::Polaco => "Przechowuje wersje {conservar} do odzyskania"@,
        Idioma::PortuguesBrasil => "Mantém versões {conservar} para recuperação"@,
        Idioma::Ruso => "Сохраняет версии {conservar} для восстановления."@,
        Idioma::Sueco => "Behåller {conservar} versioner för återställning"@,
        Idioma::Ucraniano => "Зберігає {conservar} версії для відновлення"@,
        Idioma::Vietnamita => "Giữ phiên bản {conservar} để khôi phục"@,
        Idioma::ChinoSimplificado => "保留 {conservar} 版本以供恢复"@,
    }
}

pub fn plantilla_generaciones_conservadas(idioma: Idioma) -> (r: &'static str)
    ensures
        r@ == plantilla_generaciones_conservadas_spec(idioma),
{
    match idioma {
        Idioma::BelarusLatino => "Zachoŭvaje {conservar} vjersii dłja adnaŭłjennja",
        Idioma::Belarus => "Захоўвае {conservar} версіі для аднаўлення",
        Idioma::Catalan => "Manté les versions {conservar} per a la recuperació",
        Idioma::Checo => "Uchovává verze {conservar} pro obnovení",
        Idioma::Aleman => "Behält {conservar} Versionen zur Wiederherstellung",
        Idioma::Ingles | Idioma::Turco => "Keeps {conservar} versions for recovery",
        Idioma::Espanol => "Conserva {conservar} versiones para recuperación",
        Idioma::Frances => "Conserve les versions {conservar} pour la récupération",
        Idioma::Gallego => "Mantén as versións de {conservar} para a súa recuperación",
        Idioma::Hungaro => "{conservar} verzió megmarad helyreállításhoz",
        Idioma::Italiano => "Mantiene le versioni {conservar} per il ripristino",
        Idioma::Coreano => "복구를 위해 {conservar} 버전을 유지합니다.",
        Idioma::Kurdo => "Guhertoyên {conservar} ji bo vegirtinê digire",
        Idioma::Neerlandes => "Behoudt {conservar} versies voor herstel",
        Idioma::NoruegoNynorsk => "Beholder {conservar} versjoner for gjenoppretting",
        Idioma::Polaco => "Przechowuje wersje {conservar} do odzyskania",
        Idioma::PortuguesBrasil => "Mantém versões {conservar} para recuperação",
        Idioma::Ruso => "Сохраняет версии {conservar} для восстановления.",
        Idioma::Sueco => "Behåller {conservar} versioner för återställning",
        Idioma::Ucraniano => "Зберігає {conservar} версії для відновлення",
        Idioma::Vietnamita => "Giữ phiên bản {conservar} để khôi phục",
        Idioma::ChinoSimplificado => "保留 {conservar} 版本以供恢复",
    }
}

/// How many versions are removed, for one.
pub open spec fn generaciones_una_eliminada_spec(idioma: Idioma) -> Seq<char> {
    match idioma {
        Idioma::BelarusLatino => "vydałjaje 1 staruju vjersiju"@,
        Idioma::Belarus => "выдаляе 1 старую версію"@,
        Idioma::Catalan => "elimina 1 versió anterior"@,
        Idioma::Checo => "odebere 1 starší verzi"@,
        Idioma::Aleman => "entfernt 1 ältere Version"@,
        Idioma::Ingles => "removes 1 older version"@,
        Idioma::Espanol => "elimina 1 versión antigua"@,
        Idioma::Frances => "supprime 1 ancienne version"@,
        Idioma::Gallego => "elimina 1 versión anterior"@,
        Idioma::Hungaro => "1 régebbi verzió törlődik"@,
        Idioma::Italiano => "rimuove 1 versione precedente"@,
        Idioma::Coreano => "은 이전 버전 1개를 제거합니다."@,
        Idioma::Kurdo => "1 guhertoya kevntir jê dike"@,
        Idioma::Neerlandes => "verwijdert 1 oudere versie"@,
        Idioma::NoruegoNynorsk => "fjerner 1 eldre versjon"@,
        Idioma::Polaco => "usuwa 1 starszą wersję"@,
        Idioma::PortuguesBrasil => "remove 1 versão mais antiga"@,
        Idioma::Ruso => "удаляет 1 старую версию"@,
        Idioma::Sueco => "tar bort 1 äldre version"@,
        Idioma::Turco => "1 eski sürümü kaldırır"@,
        Idioma::Ucraniano => "видаляє 1 старішу версію"@,
        Idioma::Vietnamita => "xóa 1 phiên bản cũ hơn"@,
        Idioma::ChinoSimplificado => "删除 1 个旧版本"@,
    }
}

pub fn generaciones_una_eliminada(idioma: Idioma) -> (r: &'static str)
    ensures
        r@ == generaciones_una_eliminada_spec(idioma),
{
    match idioma {
        Idioma::BelarusLatino => "vydałjaje 1 staruju vjersiju",
        Idioma::Belarus => "выдаляе 1 старую версію",
        Idioma::Catalan => "elimina 1 versió anterior",
        Idioma::Checo => "odebere 1 starší verzi",
        Idioma::Aleman => "entfernt 1 ältere Version",
        Idioma::Ingles => "removes 1 older version",
        Idioma::Espanol => "elimina 1 versión antigua",
        Idioma::Frances => "supprime 1 ancienne version",
        Idioma::Gallego => "elimina 1 versión anterior",
        Idioma::Hungaro => "1 régebbi verzió törlődik",
        Idioma::Italiano => "rimuove 1 versione precedente",
        Idioma::Coreano => "은 이전 버전 1개를 제거합니다.",
        Idioma::Kurdo => "1 guhertoya kevntir jê dike",
        Idioma::Neerlandes => "verwijdert 1 oudere versie",
        Idioma::NoruegoNynorsk => "fjerner 1 eldre versjon",
        Idioma::Polaco => "usuwa 1 starszą wersję",
        Idioma::PortuguesBrasil => "remove 1 versão mais antiga",
        Idioma::Ruso => "удаляет 1 старую версию",
        Idioma::Sueco => "tar bort 1 äldre version",
        Idioma::Turco => "1 eski sürümü kaldırır",
        Idioma::Ucraniano => "видаляє 1 старішу версію",
        Idioma::Vietnamita => "xóa 1 phiên bản cũ hơn",
        Idioma::ChinoSimplificado => "删除 1 个旧版本",
    }
}

/// How many versions are removed; `{eliminar}` is their number.
pub open spec fn plantilla_generaciones_eliminadas_spec(idioma: Idioma) -> Seq<char> {
    match idioma {
        Idioma::BelarusLatino => "vydałjaje {eliminar} staryja vjersii"@,
        Idioma::Belarus => "выдаляе {eliminar} старыя версіі"@,
        Idioma::Catalan => "elimina {eliminar} versions anteriors"@,
        Idioma::Checo => "odstraňuje {eliminar} starší verze"@,
        Idioma::Aleman => "entfernt {eliminar} ältere Versionen"@,
        Idioma::Ingles | Idioma::Turco => "removes {eliminar} older versions"@,
        Idioma::Espanol => "elimina {eliminar} versiones antiguas"@,
        Idioma::Frances => "supprime les anciennes versions de {eliminar}"@,
        Idioma::Gallego => "elimina {eliminar} versións anteriores"@,
        Idioma::Hungaro => "{eliminar} régebbi verzió törlődik"@,
        Idioma::Italiano => "rimuove {eliminar} versioni precedenti"@,
        Idioma::Coreano => "은 {eliminar} 이전 버전을 제거합니다."@,
        Idioma::Kurdo => "{eliminar} guhertoyên kevntir jê dike"@,
        Idioma::Neerlandes => "verwijdert {eliminar} oudere versies"@,
        Idioma::NoruegoNynorsk => "fjerner {eliminar} eldre versjoner"@,
        Idioma::Polaco => "usuwa starsze wersje {eliminar}"@,
        Idioma::PortuguesBrasil => "remove versões mais antigas de {eliminar}"@,
        Idioma::Ruso => "удаляет {eliminar} более старые версии"@,
        Idioma::Sueco => "tar bort {eliminar} äldre versioner"@,
        Idioma::Ucraniano => "видаляє {eliminar} старіші версії"@,
        Idioma::Vietnamita => "xóa {eliminar} phiên bản cũ hơn"@,
        Idioma::ChinoSimplificado => "删除 {eliminar} 旧版本"@,
    }
}

pub fn plantilla_generaciones_eliminadas(idioma: Idioma) -> (r: &'static str)
    ensures
        r@ == plantilla_generaciones_eliminadas_spec(idioma),
{
    match idioma {
        Idioma::BelarusLatino => "vydałjaje {eliminar} staryja vjersii",
        Idioma::Belarus => "выдаляе {eliminar} старыя версіі",
        Idioma::Catalan => "elimina {eliminar} versions anteriors",
        Idioma::Checo => "odstraňuje {eliminar} starší verze",
        Idioma::Aleman => "entfernt {eliminar} ältere Versionen",
        Idioma::Ingles | Idioma::Turco => "removes {eliminar} older versions",
        Idioma::Espanol => "elimina {eliminar} versiones antiguas",
        Idioma::Frances => "supprime les anciennes versions de {eliminar}",
        Idioma::Gallego => "elimina {eliminar} versións anteriores",
        Idioma::Hungaro => "{eliminar} régebbi verzió törlődik",
        Idioma::Italiano => "rimuove {eliminar} versioni precedenti",
        Idioma::Coreano => "은 {eliminar} 이전 버전을 제거합니다.",
        Idioma::Kurdo => "{eliminar} guhertoyên kevntir jê dike",
        Idioma::Neerlandes => "verwijdert {eliminar} oudere versies",
        Idioma::NoruegoNynorsk => "fjerner {eliminar} eldre versjoner",
        Idioma::Polaco => "usuwa starsze wersje {eliminar}",
        Idioma::PortuguesBrasil => "remove versões mais antigas de {eliminar}",
        Idioma::Ruso => "удаляет {eliminar} более старые версии",
        Idioma::Sueco => "tar bort {eliminar} äldre versioner",
        Idioma::Ucraniano => "видаляє {eliminar} старіші версії",
        Idioma::Vietnamita => "xóa {eliminar} phiên bản cũ hơn",
        Idioma::ChinoSimplificado => "删除 {eliminar} 旧版本",
    }
}

/// Effect of a firmware update that needs a restart.
pub open spec fn efecto_reinicio_spec(idioma: Idioma) -> Seq<char> {
    match idioma {
        Idioma::BelarusLatino => "Spatrebicca pjerazapusk."@,
        Idioma::Belarus => "Спатрэбіцца перазапуск."@,
        Idioma::Catalan => "Es requerirà un reinici."@,
        Idioma::Checo => "Bude vyžadován restart."@,
        Idioma::Aleman => "Ein Neustart ist erforderlich."@,
        Idioma::Ingles | Idioma::Turco => "A restart will be required."@,
        Idioma::Espanol => "Será necesario reiniciar."@,
        Idioma::Frances => "Un redémarrage sera nécessaire."@,
        Idioma::Gallego => "Será necesario un reinicio."@,
        Idioma::Hungaro => "Újraindítás szükséges."@,
        Idioma::Italiano => "Sarà necessario un riavvio."@,
        Idioma::Coreano => "다시 시작해야 합니다."@,
        Idioma::Kurdo => "Ji nû ve destpêkek pêdivî ye."@,
        Idioma::Neerlandes => "Een herstart is vereist."@,
        Idioma::NoruegoNynorsk => "En omstart vil være nødvendig."@,
        Idioma::Polaco => "Wymagane będzie ponowne uruchomienie."@,
        Idioma::PortuguesBrasil => "Será necessária uma reinicialização."@,
        Idioma::Ruso => "Потребуется перезагрузка."@,
        Idioma::Sueco => "En omstart kommer att krävas."@,
        Idioma::Ucraniano => "Буде потрібно перезавантаження."@,
        Idioma::Vietnamita => "Sẽ cần phải khởi động lại."@,
        Idioma::ChinoSimplificado => "需要重新启动。"@,
    }
}

pub fn efecto_reinicio(idioma: Idioma) -> (r: &'static str)
    ensures
        r@ == efecto_reinicio_spec(idioma),
{
    match idioma {
        Idioma::BelarusLatino => "Spatrebicca pjerazapusk.",
        Idioma::Belarus => "Спатрэбіцца перазапуск.",
        Idioma::Catalan => "Es requerirà un reinici.",
        Idioma::Checo => "Bude vyžadován restart.",
        Idioma::Aleman => "Ein Neustart ist erforderlich.",
        Idioma::Ingles | Idioma::Turco => "A restart will be required.",
        Idioma::Espanol => "Será necesario reiniciar.",
        Idioma::Frances => "Un redémarrage sera nécessaire.",
        Idioma::Gallego => "Será necesario un reinicio.",
        Idioma::Hungaro => "Újraindítás szükséges.",
        Idioma::Italiano => "Sarà necessario un riavvio.",
        Idioma::Coreano => "다시 시작해야 합니다.",
        Idioma::Kurdo => "Ji nû ve destpêkek pêdivî ye.",
        Idioma::Neerlandes => "Een herstart is vereist.",
        Idioma::NoruegoNynorsk => "En omstart vil være nødvendig.",
        Idioma::Polaco => "Wymagane będzie ponowne uruchomienie.",
        Idioma::PortuguesBrasil => "Será necessária uma reinicialização.",
        Idioma::Ruso => "Потребуется перезагрузка.",
        Idioma::Sueco => "En omstart kommer att krävas.",
        Idioma::Ucraniano => "Буде потрібно перезавантаження.",
        Idioma::Vietnamita => "Sẽ cần phải khởi động lại.",
        Idioma::ChinoSimplificado => "需要重新启动。",
    }
}

/// Effect of a firmware update that needs a full shutdown.
pub open spec fn efecto_apagado_spec(idioma: Idioma) -> Seq<char> {
    match idioma {
        Idioma::BelarusLatino => "Spatrebicca poŭnaje adkłjučennje."@,
        Idioma::Belarus => "Спатрэбіцца поўнае адключэнне."@,
        Idioma::Catalan => "Es requerirà un tancament complet."@,
        Idioma::Checo => "Bude vyžadováno úplné vypnutí."@,
        Idioma::Aleman => "Ein vollständiges Herunterfahren ist erforderlich."@,
        Idioma::Ingles | Idioma::Turco => "A full shutdown will be required."@,
        Idioma::Espanol => "Será necesario apagar completamente el equipo."@,
        Idioma::Frances => "Un arrêt complet sera nécessaire."@,
        Idioma::Gallego => "Será necesario un apagado completo."@,
        Idioma::Hungaro => "Teljes leállítás szükséges."@,
        Idioma::Italiano => "Sarà necessario uno spegnimento completo."@,
        Idioma::Coreano => "전체 종료가 필요합니다."@,
        Idioma::Kurdo => "Girtinek tam dê hewce be."@,
        Idioma::Neerlandes => "Een volledige uitschakeling is vereist."@,
        Idioma::NoruegoNynorsk => "En fullstendig avstengning vil være nødvendig."@,
        Idioma::Polaco => "Wymagane będzie pełne wyłączenie."@,
        Idioma::PortuguesBrasil => "Será necessário um desligamento completo."@,
        Idioma::Ruso => "Потребуется полное выключение."@,
        Idioma::Sueco => "En fullständig avstängning kommer att krävas."@,
        Idioma::Ucraniano => "Буде потрібно повне завершення роботи."@,
        Idioma::Vietnamita => "Cần phải tắt máy hoàn toàn."@,
        Idioma::ChinoSimplificado => "需要完全关闭。"@,
    }
}

pub fn efecto_apagado(idioma: Idioma) -> (r: &'static str)
    ensures
        r@ == efecto_apagado_spec(idioma),
{
    match idioma {
        Idioma::BelarusLatino => "Spatrebicca poŭnaje adkłjučennje.",
        Idioma::Belarus => "Спатрэбіцца поўнае адключэнне.",
        Idioma::Catalan => "Es requerirà un tancament complet.",
        Idioma::Checo => "Bude vyžadováno úplné vypnutí.",
        Idioma::Aleman => "Ein vollständiges Herunterfahren ist erforderlich.",
        Idioma::Ingles | Idioma::Turco => "A full shutdown will be required.",
        Idioma::Espanol => "Será necesario apagar completamente el equipo.",
        Idioma::Frances => "Un arrêt complet sera nécessaire.",
        Idioma::Gallego => "Será necesario un apagado completo.",
        Idioma::Hungaro => "Teljes leállítás szükséges.",
        Idioma::Italiano => "Sarà necessario uno spegnimento completo.",
        Idioma::Coreano => "전체 종료가 필요합니다.",
        Idioma::Kurdo => "Girtinek tam dê hewce be.",
        Idioma::Neerlandes => "Een volledige uitschakeling is vereist.",
        Idioma::NoruegoNynorsk => "En fullstendig avstengning vil være nødvendig.",
        Idioma::Polaco => "Wymagane będzie pełne wyłączenie.",
        Idioma::PortuguesBrasil => "Será necessário um desligamento completo.",
        Idioma::Ruso => "Потребуется полное выключение.",
        Idioma::Sueco => "En fullständig avstängning kommer att krävas.",
        Idioma::Ucraniano => "Буде потрібно повне завершення роботи.",
        Idioma::Vietnamita => "Cần phải tắt máy hoàn toàn.",
        Idioma::ChinoSimplificado => "需要完全关闭。",
    }
}

/// Effect of a firmware update that applies at once.
pub open spec fn efecto_inmediato_spec(idioma: Idioma) -> Seq<char> {
    match idioma {
        Idioma::BelarusLatino => "Efjekt adčuvałny adrazu."@,
        Idioma::Belarus => "Эфект імгненны."@,
        Idioma::Catalan => "L'efecte és immediat."@,
        Idioma::Checo => "Účinek je okamžitý."@,
        Idioma::Aleman => "Die Wirkung tritt sofort ein."@,
        Idioma::Ingles => "The effect is immediate."@,
        Idioma::Espanol => "El efecto es inmediato."@,
        Idioma::Frances => "L'effet est immédiat."@,
        Idioma::Gallego => "O efecto é inmediato."@,
        Idioma::Hungaro => "A hatás azonnali."@,
        Idioma::Italiano => "L'effetto è immediato."@,
        Idioma::Coreano => "효과는 즉각적입니다."@,
        Idioma::Kurdo => "Bandora yekser e."@,
        Idioma::Neerlandes => "Het effect treedt onmiddellijk op."@,
        Idioma::NoruegoNynorsk => "Effekten er umiddelbar."@,
        Idioma::Polaco => "Efekt jest natychmiastowy."@,
        Idioma::PortuguesBrasil => "O efeito é imediato."@,
        Idioma::Ruso => "Эффект немедленный."@,
        Idioma::Sueco => "Effekten är omedelbar."@,
        Idioma::Turco => "Etkisi anında görülür."@,
        Idioma::Ucraniano => "Ефект миттєвий."@,
        Idioma::Vietnamita => "Hiệu quả tức thì."@,
        Idioma::ChinoSimplificado => "效果是立竿见影的。"@,
    }
}

pub fn efecto_inmediato(idioma: Idioma) -> (r: &'static str)
    ensures
        r@ == efecto_inmediato_spec(idioma),
{
    match idioma {
        Idioma::BelarusLatino => "Efjekt adčuvałny adrazu.",
        Idioma::Belarus => "Эфект імгненны.",
        Idioma::Catalan => "L'efecte és immediat.",
        Idioma::Checo => "Účinek je okamžitý.",
        Idioma::Aleman => "Die Wirkung tritt sofort ein.",
        Idioma::Ingles => "The effect is immediate.",
        Idioma::Espanol => "El efecto es inmediato.",
        Idioma::Frances => "L'effet est immédiat.",
        Idioma::Gallego => "O efecto é inmediato.",
        Idioma::Hungaro => "A hatás azonnali.",
        Idioma::Italiano => "L'effetto è immediato.",
        Idioma::Coreano => "효과는 즉각적입니다.",
        Idioma::Kurdo => "Bandora yekser e.",
        Idioma::Neerlandes => "Het effect treedt onmiddellijk op.",
        Idioma::NoruegoNynorsk => "Effekten er umiddelbar.",
        Idioma::Polaco => "Efekt jest natychmiastowy.",
        Idioma::PortuguesBrasil => "O efeito é imediato.",
        Idioma::Ruso => "Эффект немедленный.",
        Idioma::Sueco => "Effekten är omedelbar.",
        Idioma::Turco => "Etkisi anında görülür.",
        Idioma::Ucraniano => "Ефект миттєвий.",
        Idioma::Vietnamita => "Hiệu quả tức thì.",
        Idioma::ChinoSimplificado => "效果是立竿见影的。",
    }
}

/// Confirmation of a firmware update; `{nombre}` is the device and `{efecto_humano}` its effect.
pub open spec fn plantilla_firmware_spec(idioma: Idioma) -> Seq<char> {
    match idioma {
        Idioma::BelarusLatino => "Ustałjavac abnaŭłjennje prašyŭki dłja {nombre}? {efecto_humano} Korunix nje budzje pjerazahružacca abo vykłjučacca aŭtamatyčna."@,
        Idioma::Belarus => "Усталяваць абнаўленне прашыўкі для {nombre}? {efecto_humano} Korunix не будзе перазагружацца або выключацца аўтаматычна."@,
        Idioma::Catalan => "Instal·lar l'actualització del microprogramari per a {nombre}? {efecto_humano} Korunix no es reiniciarà ni s'apagarà automàticament."@,
        Idioma::Checo => "Nainstalovat aktualizaci firmwaru pro {nombre}? {efecto_humano} Korunix se automaticky nerestartuje ani nevypne."@,
        Idioma::Aleman => "Firmware-Update für {nombre} installieren? {efecto_humano} Korunix wird nicht automatisch neu gestartet oder heruntergefahren."@,
        Idioma::Ingles | Idioma::Turco => "Install the firmware update for {nombre}? {efecto_humano} Korunix will not restart or shut down automatically."@,
        Idioma::Espanol => "¿Instalar la actualización de firmware para {nombre}? {efecto_humano} Korunix no reiniciará ni apagará el equipo automáticamente."@,
        Idioma::Frances => "Installer la mise à jour du micrologiciel pour {nombre} ? {efecto_humano} Korunix ne redémarrera pas ou ne s'arrêtera pas automatiquement."@,
        Idioma::Gallego => "Instalar a actualización de firmware para {nombre}? {efecto_humano} Korunix non se reiniciará nin se apagará automaticamente."@,
        Idioma::Hungaro => "Telepítsem a firmware-frissítést ehhez: {nombre}? {efecto_humano} A Korunix nem indítja újra és nem állítja le automatikusan a gépet."@,
        Idioma::Italiano => "Installare l'aggiornamento firmware per {nombre}? {efecto_humano} Korunix non si riavvierà o si spegnerà automaticamente."@,
        Idioma::Coreano => "{nombre}용 펌웨어 업데이트를 설치하시겠습니까? {efecto_humano} Korunix는 자동으로 다시 시작되거나 종료되지 않습니다."@,
        Idioma::Kurdo => "Nûvekirina firmware ji bo {nombre} saz bike? {efecto_humano} Korunix ji nû ve dest pê nake an bixweber nayê girtin."@,
        Idioma::Neerlandes => "De firmware-update voor {nombre} installeren? {efecto_humano} Kounix zal niet automatisch opnieuw opstarten of afsluiten."@,
        Idioma::NoruegoNynorsk => "Installere fastvareoppdateringen for {nombre}? {efecto_humano} Korunix vil ikke starte på nytt eller slå seg av automatisk."@,
        Idioma::Polaco => "Zainstalować aktualizację oprogramowania sprzętowego dla {nombre}? {efecto_humano} Korunix nie uruchomi się ponownie ani nie wyłączy się automatycznie."@,
        Idioma::PortuguesBrasil => "Instalar a atualização de firmware para {nombre}? {efecto_humano} Korunix não irá reiniciar ou desligar automaticamente."@,
        Idioma::Ruso => "Установить обновление прошивки для {nombre}? {efecto_humano} Korunix не перезагружается и не выключается автоматически."@,
        Idioma::Sueco => "Installera firmwareuppdateringen för {nombre}? {efecto_humano} Korunix kommer inte att starta om eller stängas av automatiskt."@,
        Idioma::Ucraniano => "Установити оновлення мікропрограми для {nombre}? {efecto_humano} Korunix не перезавантажиться або вимкнеться автоматично."@,
        Idioma::Vietnamita => "Cài đặt bản cập nhật chương trình cơ sở cho {nombre}? {efecto_humano} Korunix sẽ không tự động khởi động lại hoặc tắt."@,
        Idioma::ChinoSimplificado => "安装 {nombre} 的固件更新吗？ {efecto_humano} Korunix 不会自动重新启动或关闭。"@,
    }
}

pub fn plantilla_firmware(idioma: Idioma) -> (r: &'static str)
    ensures
        r@ == plantilla_firmware_spec(idioma),
{
    match idioma {
        Idioma::BelarusLatino => "Ustałjavac abnaŭłjennje prašyŭki dłja {nombre}? {efecto_humano} Korunix nje budzje pjerazahružacca abo vykłjučacca aŭtamatyčna.",
        Idioma::Belarus => "Усталяваць абнаўленне прашыўкі для {nombre}? {efecto_humano} Korunix не будзе перазагружацца або выключацца аўтаматычна.",
        Idioma::Catalan => "Instal·lar l'actualització del microprogramari per a {nombre}? {efecto_humano} Korunix no es reiniciarà ni s'apagarà automàticament.",
        Idioma::Checo => "Nainstalovat aktualizaci firmwaru pro {nombre}? {efecto_humano} Korunix se automaticky nerestartuje ani nevypne.",
        Idioma::Aleman => "Firmware-Update für {nombre} installieren? {efecto_humano} Korunix wird nicht automatisch neu gestartet oder heruntergefahren.",
        Idioma::Ingles | Idioma::Turco => "Install the firmware update for {nombre}? {efecto_humano} Korunix will not restart or shut down automatically.",
        Idioma::Espanol => "¿Instalar la actualización de firmware para {nombre}? {efecto_humano} Korunix no reiniciará ni apagará el equipo automáticamente.",
        Idioma::Frances => "Installer la mise à jour du micrologiciel pour {nombre} ? {efecto_humano} Korunix ne redémarrera pas ou ne s'arrêtera pas automatiquement.",
        Idioma::Gallego => "Instalar a actualización de firmware para {nombre}? {efecto_humano} Korunix non se reiniciará nin se apagará automaticamente.",
        Idioma::Hungaro => "Telepítsem a firmware-frissítést ehhez: {nombre}? {efecto_humano} A Korunix nem indítja újra és nem állítja le automatikusan a gépet.",
        Idioma::Italiano => "Installare l'aggiornamento firmware per {nombre}? {efecto_humano} Korunix non si riavvierà o si spegnerà automaticamente.",
        Idioma::Coreano => "{nombre}용 펌웨어 업데이트를 설치하시겠습니까? {efecto_humano} Korunix는 자동으로 다시 시작되거나 종료되지 않습니다.",
        Idioma::Kurdo => "Nûvekirina firmware ji bo {nombre} saz bike? {efecto_humano} Korunix ji nû ve dest pê nake an bixweber nayê girtin.",
        Idioma::Neerlandes => "De firmware-update voor {nombre} installeren? {efecto_humano} Kounix zal niet automatisch opnieuw opstarten of afsluiten.",
        Idioma::NoruegoNynorsk => "Installere fastvareoppdateringen for {nombre}? {efecto_humano} Korunix vil ikke starte på nytt eller slå seg av automatisk.",
        Idioma::Polaco => "Zainstalować aktualizację oprogramowania sprzętowego dla {nombre}? {efecto_humano} Korunix nie uruchomi się ponownie ani nie wyłączy się automatycznie.",
        Idioma::PortuguesBrasil => "Instalar a atualização de firmware para {nombre}? {efecto_humano} Korunix não irá reiniciar ou desligar automaticamente.",
        Idioma::Ruso => "Установить обновление прошивки для {nombre}? {efecto_humano} Korunix не перезагружается и не выключается автоматически.",
        Idioma::Sueco => "Installera firmwareuppdateringen för {nombre}? {efecto_humano} Korunix kommer inte att starta om eller stängas av automatiskt.",
        Idioma::Ucraniano => "Установити оновлення мікропрограми для {nombre}? {efecto_humano} Korunix не перезавантажиться або вимкнеться автоматично.",
        Idioma::Vietnamita => "Cài đặt bản cập nhật chương trình cơ sở cho {nombre}? {efecto_humano} Korunix sẽ không tự động khởi động lại hoặc tắt.",
        Idioma::ChinoSimplificado => "安装 {nombre} 的固件更新吗？ {efecto_humano} Korunix 不会自动重新启动或关闭。",
    }
}

/// Confirmation of a change of channel; `{canal}` is the channel's name.
pub open spec fn plantilla_canal_spec(idioma: Idioma) -> Seq<char> {
    match idioma {
        Idioma::BelarusLatino => "Korunix acaniŭ zmjanjennje ŭ «{canal}» bjez zmjeny kanfihuracyi. Kałi vy pracjahnjecje, budzje zmjenjena tołki dekłaracyja kanała."@,
        Idioma::Belarus => "Korunix ацаніў змяненне ў «{canal}» без змены канфігурацыі. Калі вы працягнеце, будзе зменена толькі дэкларацыя канала."@,
        Idioma::Catalan => "Korunix va avaluar el canvi a \"{canal}\" sense modificar la configuració. Si continueu, només es canviarà la declaració del canal."@,
        Idioma::Checo => "Korunix vyhodnotil změnu na „{canal}“ bez úpravy konfigurace. Pokud budete pokračovat, změní se pouze deklarace kanálu."@,
        Idioma::Aleman => "Korunix hat die Änderung zu „{canal}“ ausgewertet, ohne die Konfiguration zu ändern. Wenn Sie fortfahren, wird nur die Kanaldeklaration geändert."@,
        Idioma::Ingles => "Korunix evaluated the change to “{canal}” without modifying the configuration. If you continue, only the channel declaration will be changed."@,
        Idioma::Espanol => "Korunix evaluó el cambio a «{canal}» sin modificar la configuración. Si continúas, se cambiará únicamente la declaración del canal."@,
        Idioma::Frances => "Korunix a évalué le changement apporté à « {canal} » sans modifier la configuration. Si vous continuez, seule la déclaration du canal sera modifiée."@,
        Idioma::Gallego => "Korunix avaliou o cambio a \"{canal}\" sen modificar a configuración. Se continúas, só se cambiará a declaración da canle."@,
        Idioma::Hungaro => "A Korunix a(z) „{canal}” csatornára váltást a konfiguráció módosítása nélkül ellenőrizte. Folytatáskor csak a csatorna deklarációja változik meg."@,
        Idioma::Italiano => "Korunix ha valutato la modifica a “{canal}” senza modificare la configurazione. Se continui, verrà modificata solo la dichiarazione del canale."@,
        Idioma::Coreano => "Korunix는 구성을 수정하지 않고 “{canal}”에 대한 변경 사항을 평가했습니다. 계속하면 채널 선언만 변경됩니다."@,
        Idioma::Kurdo => "Korunix guherîna \"{canal}\" nirxand bêyî ku veavakirinê biguherîne. Heke hûn berdewam bikin, tenê daxuyaniya kanalê dê were guhertin."@,
        Idioma::Neerlandes => "Korunix heeft de wijziging in “{canal}” geëvalueerd zonder de configuratie te wijzigen. Als u doorgaat, wordt alleen de kanaaldeclaratie gewijzigd."@,
        Idioma::NoruegoNynorsk => "Korunix evaluerte endringen til \"{canal}\" uten å endre konfigurasjonen. Hvis du fortsetter, vil kun kanalerklæringen endres."@,
        Idioma::Polaco => "Korunix ocenił zmianę na „{canal}” bez modyfikowania konfiguracji. Jeśli będziesz kontynuować, zmieniona zostanie tylko deklaracja kanału."@,
        Idioma::PortuguesBrasil => "Korunix avaliou a mudança para “{canal}” sem modificar a configuração. Se você continuar, apenas a declaração do canal será alterada."@,
        Idioma::Ruso => "Korunix оценил изменение «{canal}» без изменения конфигурации. Если вы продолжите, будет изменено только объявление канала."@,
        Idioma::Sueco => "Korunix utvärderade ändringen till \"{canal}\" utan att ändra konfigurationen. Om du fortsätter kommer endast kanaldeklarationen att ändras."@,
        Idioma::Turco => "Korunix, yapılandırmayı değiştirmeden “{canal}” değişikliğini değerlendirdi. Devam ederseniz yalnızca kanal bildirimi değişecektir."@,
        Idioma::Ucraniano => "Корунікс оцінив зміну до «{canal}» без зміни конфігурації. Якщо ви продовжите, буде змінено лише оголошення каналу."@,
        Idioma::Vietnamita => "Korunix đã đánh giá sự thay đổi thành “{canal}” mà không sửa đổi cấu hình. Nếu bạn tiếp tục, chỉ khai báo kênh sẽ được thay đổi."@,
        Idioma::ChinoSimplificado => "Korunix 在不修改配置的情况下评估了对“{canal}”的更改。如果继续，则只会更改通道声明。"@,
    }
}

pub fn plantilla_canal(idioma: Idioma) -> (r: &'static str)
    ensures
        r@ == plantilla_canal_spec(idioma),
{
    match idioma {
        Idioma::BelarusLatino => "Korunix acaniŭ zmjanjennje ŭ «{canal}» bjez zmjeny kanfihuracyi. Kałi vy pracjahnjecje, budzje zmjenjena tołki dekłaracyja kanała.",
        Idioma::Belarus => "Korunix ацаніў змяненне ў «{canal}» без змены канфігурацыі. Калі вы працягнеце, будзе зменена толькі дэкларацыя канала.",
        Idioma::Catalan => "Korunix va avaluar el canvi a \"{canal}\" sense modificar la configuració. Si continueu, només es canviarà la declaració del canal.",
        Idioma::Checo => "Korunix vyhodnotil změnu na „{canal}“ bez úpravy konfigurace. Pokud budete pokračovat, změní se pouze deklarace kanálu.",
        Idioma::Aleman => "Korunix hat die Änderung zu „{canal}“ ausgewertet, ohne die Konfiguration zu ändern. Wenn Sie fortfahren, wird nur die Kanaldeklaration geändert.",
        Idioma::Ingles => "Korunix evaluated the change to “{canal}” without modifying the configuration. If you continue, only the channel declaration will be changed.",
        Idioma::Espanol => "Korunix evaluó el cambio a «{canal}» sin modificar la configuración. Si continúas, se cambiará únicamente la declaración del canal.",
        Idioma::Frances => "Korunix a évalué le changement apporté à « {canal} » sans modifier la configuration. Si vous continuez, seule la déclaration du canal sera modifiée.",
        Idioma::Gallego => "Korunix avaliou o cambio a \"{canal}\" sen modificar a configuración. Se continúas, só se cambiará a declaración da canle.",
        Idioma::Hungaro => "A Korunix a(z) „{canal}” csatornára váltást a konfiguráció módosítása nélkül ellenőrizte. Folytatáskor csak a csatorna deklarációja változik meg.",
        Idioma::Italiano => "Korunix ha valutato la modifica a “{canal}” senza modificare la configurazione. Se continui, verrà modificata solo la dichiarazione del canale.",
        Idioma::Coreano => "Korunix는 구성을 수정하지 않고 “{canal}”에 대한 변경 사항을 평가했습니다. 계속하면 채널 선언만 변경됩니다.",
        Idioma::Kurdo => "Korunix guherîna \"{canal}\" nirxand bêyî ku veavakirinê biguherîne. Heke hûn berdewam bikin, tenê daxuyaniya kanalê dê were guhertin.",
        Idioma::Neerlandes => "Korunix heeft de wijziging in “{canal}” geëvalueerd zonder de configuratie te wijzigen. Als u doorgaat, wordt alleen de kanaaldeclaratie gewijzigd.",
        Idioma::NoruegoNynorsk => "Korunix evaluerte endringen til \"{canal}\" uten å endre konfigurasjonen. Hvis du fortsetter, vil kun kanalerklæringen endres.",
        Idioma::Polaco => "Korunix ocenił zmianę na „{canal}” bez modyfikowania konfiguracji. Jeśli będziesz kontynuować, zmieniona zostanie tylko deklaracja kanału.",
        Idioma::PortuguesBrasil => "Korunix avaliou a mudança para “{canal}” sem modificar a configuração. Se você continuar, apenas a declaração do canal será alterada.",
        Idioma::Ruso => "Korunix оценил изменение «{canal}» без изменения конфигурации. Если вы продолжите, будет изменено только объявление канала.",
        Idioma::Sueco => "Korunix utvärderade ändringen till \"{canal}\" utan att ändra konfigurationen. Om du fortsätter kommer endast kanaldeklarationen att ändras.",
        Idioma::Turco => "Korunix, yapılandırmayı değiştirmeden “{canal}” değişikliğini değerlendirdi. Devam ederseniz yalnızca kanal bildirimi değişecektir.",
        Idioma::Ucraniano => "Корунікс оцінив зміну до «{canal}» без зміни конфігурації. Якщо ви продовжите, буде змінено лише оголошення каналу.",
        Idioma::Vietnamita => "Korunix đã đánh giá sự thay đổi thành “{canal}” mà không sửa đổi cấu hình. Nếu bạn tiếp tục, chỉ khai báo kênh sẽ được thay đổi.",
        Idioma::ChinoSimplificado => "Korunix 在不修改配置的情况下评估了对“{canal}”的更改。如果继续，则只会更改通道声明。",
    }
}

} // verus!
