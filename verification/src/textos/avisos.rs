//! The wording of error dialogs, in every language.

use vstd::prelude::*;
use crate::idioma::Idioma;

verus! {

/// The friendly explanation shown when an operation fails.
pub open spec fn texto_error_amigable_spec(idioma: Idioma) -> Seq<char> {
    match idioma {
        Idioma::BelarusLatino => "Apjeracyja nje zavjeršana. Korunix nje łičyc zmjeny prymjenjenymi. Vy možacje zakryc heta pavjedamłjennje, abnavic vobłasc i paŭtaryc sprobu. Techničnyja detałi njeabavjazkovyja."@,
        Idioma::Belarus => "Аперацыя не завершана. Korunix не лічыць змены прымененымі. Вы можаце закрыць гэта паведамленне, абнавіць вобласць і паўтарыць спробу. Тэхнічныя дэталі неабавязковыя."@,
        Idioma::Catalan => "L'operació no s'ha completat. Korunix no considera aplicat el canvi. Pots tancar aquest missatge, actualitzar l'àrea i tornar-ho a provar. Els detalls tècnics són opcionals."@,
        Idioma::Checo => "Operace nebyla dokončena. Korunix změnu nepovažuje za aplikovanou. Tuto zprávu můžete zavřít, obnovit oblast a zkusit to znovu. Technické detaily jsou volitelné."@,
        Idioma::Aleman => "Der Vorgang wurde nicht abgeschlossen. Korunix betrachtet die Änderung nicht als angewendet. Sie können diese Meldung schließen, den Bereich aktualisieren und es erneut versuchen. Technische Details sind optional."@,
        Idioma::Ingles => "The operation did not complete. Korunix does not consider the change applied. You can close this message, refresh the area and try again. Technical details are optional."@,
        Idioma::Espanol => "La operación no se completó. Korunix no considera aplicado el cambio. Puedes cerrar este aviso, actualizar el área e intentarlo de nuevo. Los detalles técnicos son opcionales."@,
        Idioma::Frances => "L'opération n'a pas abouti. Korunix ne considère pas le changement appliqué. Vous pouvez fermer ce message, actualiser la zone et réessayer. Les détails techniques sont facultatifs."@,
        Idioma::Gallego => "A operación non se completou. Korunix non considera o cambio aplicado. Podes pechar esta mensaxe, actualizar a área e tentalo de novo. Os detalles técnicos son opcionais."@,
        Idioma::Hungaro => "A művelet nem fejeződött be. A Korunix nem tekinti alkalmazottnak a módosítást. Bezárhatod ezt az üzenetet, frissítheted a területet és újra próbálhatod. A műszaki részletek opcionálisak."@,
        Idioma::Italiano => "L'operazione non è stata completata. Korunix non considera la modifica applicata. Puoi chiudere questo messaggio, aggiornare l'area e riprovare. I dettagli tecnici sono facoltativi."@,
        Idioma::Coreano => "작업이 완료되지 않았습니다. Korunix는 적용된 변경 사항을 고려하지 않습니다. 이 메시지를 닫고 해당 영역을 새로 고친 후 다시 시도해 보세요. 기술적인 세부사항은 선택사항입니다."@,
        Idioma::Kurdo => "Operasyon bi dawî nebû. Korunix guhertina ku hatiye kirin nahesibîne. Hûn dikarin vê peyamê bigirin, deverê nûve bikin û dîsa biceribînin. Agahiyên teknîkî vebijarkî ne."@,
        Idioma::Neerlandes => "De bewerking is niet voltooid. Korunix beschouwt de wijziging niet als toegepast. U kunt dit bericht sluiten, het gebied vernieuwen en het opnieuw proberen. Technische details zijn optioneel."@,
        Idioma::NoruegoNynorsk => "Operasjonen ble ikke fullført. Korunix anser ikke endringen som anvendt. Du kan lukke denne meldingen, oppdatere området og prøve på nytt. Tekniske detaljer er valgfrie."@,
        Idioma::Polaco => "Operacja nie została ukończona. Korunix nie uznaje zastosowanej zmiany. Możesz zamknąć tę wiadomość, odświeżyć obszar i spróbować ponownie. Szczegóły techniczne są opcjonalne."@,
        Idioma::PortuguesBrasil => "A operação não foi concluída. Korunix não considera a alteração aplicada. Você pode fechar esta mensagem, atualizar a área e tentar novamente. Os detalhes técnicos são opcionais."@,
        Idioma::Ruso => "Операция не завершена. Korunix не учитывает внесенные изменения. Вы можете закрыть это сообщение, обновить область и повторить попытку. Технические подробности не являются обязательными."@,
        Idioma::Sueco => "Åtgärden slutfördes inte. Korunix anser inte ändringen tillämpad. Du kan stänga det här meddelandet, uppdatera området och försöka igen. Tekniska detaljer är valfria."@,
        Idioma::Turco => "İşlem tamamlanmadı. Korunix uygulanan değişikliği dikkate almaz. You can close this message, refresh the area and try again. Teknik detaylar isteğe bağlıdır."@,
        Idioma::Ucraniano => "Операцію не завершено. Korunix не вважає зміну застосованою. Ви можете закрити це повідомлення, оновити область і повторити спробу. Технічні дані необов'язкові."@,
        Idioma::Vietnamita => "Thao tác chưa hoàn tất. Korunix không xem xét thay đổi được áp dụng. Bạn có thể đóng thông báo này, làm mới khu vực và thử lại. Chi tiết kỹ thuật là tùy chọn."@,
        Idioma::ChinoSimplificado => "操作未完成。 Korunix 不考虑已应用的更改。您可以关闭此消息，刷新该区域，然后重试。技术细节是可选的。"@,
    }
}

pub fn texto_error_amigable(idioma: Idioma) -> (r: &'static str)
    ensures
        r@ == texto_error_amigable_spec(idioma),
{
    match idioma {
        Idioma::BelarusLatino => "Apjeracyja nje zavjeršana. Korunix nje łičyc zmjeny prymjenjenymi. Vy možacje zakryc heta pavjedamłjennje, abnavic vobłasc i paŭtaryc sprobu. Techničnyja detałi njeabavjazkovyja.",
        Idioma::Belarus => "Аперацыя не завершана. Korunix не лічыць змены прымененымі. Вы можаце закрыць гэта паведамленне, абнавіць вобласць і паўтарыць спробу. Тэхнічныя дэталі неабавязковыя.",
        Idioma::Catalan => "L'operació no s'ha completat. Korunix no considera aplicat el canvi. Pots tancar aquest missatge, actualitzar l'àrea i tornar-ho a provar. Els detalls tècnics són opcionals.",
        Idioma::Checo => "Operace nebyla dokončena. Korunix změnu nepovažuje za aplikovanou. Tuto zprávu můžete zavřít, obnovit oblast a zkusit to znovu. Technické detaily jsou volitelné.",
        Idioma::Aleman => "Der Vorgang wurde nicht abgeschlossen. Korunix betrachtet die Änderung nicht als angewendet. Sie können diese Meldung schließen, den Bereich aktualisieren und es erneut versuchen. Technische Details sind optional.",
        Idioma::Ingles => "The operation did not complete. Korunix does not consider the change applied. You can close this message, refresh the area and try again. Technical details are optional.",
        Idioma::Espanol => "La operación no se completó. Korunix no considera aplicado el cambio. Puedes cerrar este aviso, actualizar el área e intentarlo de nuevo. Los detalles técnicos son opcionales.",
        Idioma::Frances => "L'opération n'a pas abouti. Korunix ne considère pas le changement appliqué. Vous pouvez fermer ce message, actualiser la zone et réessayer. Les détails techniques sont facultatifs.",
        Idioma::Gallego => "A operación non se completou. Korunix non considera o cambio aplicado. Podes pechar esta mensaxe, actualizar a área e tentalo de novo. Os detalles técnicos son opcionais.",
        Idioma::Hungaro => "A művelet nem fejeződött be. A Korunix nem tekinti alkalmazottnak a módosítást. Bezárhatod ezt az üzenetet, frissítheted a területet és újra próbálhatod. A műszaki részletek opcionálisak.",
        Idioma::Italiano => "L'operazione non è stata completata. Korunix non considera la modifica applicata. Puoi chiudere questo messaggio, aggiornare l'area e riprovare. I dettagli tecnici sono facoltativi.",
        Idioma::Coreano => "작업이 완료되지 않았습니다. Korunix는 적용된 변경 사항을 고려하지 않습니다. 이 메시지를 닫고 해당 영역을 새로 고친 후 다시 시도해 보세요. 기술적인 세부사항은 선택사항입니다.",
        Idioma::Kurdo => "Operasyon bi dawî nebû. Korunix guhertina ku hatiye kirin nahesibîne. Hûn dikarin vê peyamê bigirin, deverê nûve bikin û dîsa biceribînin. Agahiyên teknîkî vebijarkî ne.",
        Idioma::Neerlandes => "De bewerking is niet voltooid. Korunix beschouwt de wijziging niet als toegepast. U kunt dit bericht sluiten, het gebied vernieuwen en het opnieuw proberen. Technische details zijn optioneel.",
        Idioma::NoruegoNynorsk => "Operasjonen ble ikke fullført. Korunix anser ikke endringen som anvendt. Du kan lukke denne meldingen, oppdatere området og prøve på nytt. Tekniske detaljer er valgfrie.",
        Idioma::Polaco => "Operacja nie została ukończona. Korunix nie uznaje zastosowanej zmiany. Możesz zamknąć tę wiadomość, odświeżyć obszar i spróbować ponownie. Szczegóły techniczne są opcjonalne.",
        Idioma::PortuguesBrasil => "A operação não foi concluída. Korunix não considera a alteração aplicada. Você pode fechar esta mensagem, atualizar a área e tentar novamente. Os detalhes técnicos são opcionais.",
        Idioma::Ruso => "Операция не завершена. Korunix не учитывает внесенные изменения. Вы можете закрыть это сообщение, обновить область и повторить попытку. Технические подробности не являются обязательными.",
        Idioma::Sueco => "Åtgärden slutfördes inte. Korunix anser inte ändringen tillämpad. Du kan stänga det här meddelandet, uppdatera området och försöka igen. Tekniska detaljer är valfria.",
        Idioma::Turco => "İşlem tamamlanmadı. Korunix uygulanan değişikliği dikkate almaz. You can close this message, refresh the area and try again. Teknik detaylar isteğe bağlıdır.",
        Idioma::Ucraniano => "Операцію не завершено. Korunix не вважає зміну застосованою. Ви можете закрити це повідомлення, оновити область і повторити спробу. Технічні дані необов'язкові.",
        Idioma::Vietnamita => "Thao tác chưa hoàn tất. Korunix không xem xét thay đổi được áp dụng. Bạn có thể đóng thông báo này, làm mới khu vực và thử lại. Chi tiết kỹ thuật là tùy chọn.",
        Idioma::ChinoSimplificado => "操作未完成。 Korunix 不考虑已应用的更改。您可以关闭此消息，刷新该区域，然后重试。技术细节是可选的。",
    }
}

/// The label of the technical details of an error.
pub open spec fn texto_detalles_tecnicos_spec(idioma: Idioma) -> Seq<char> {
    match idioma {
        Idioma::BelarusLatino => "Techničnyja detałi"@,
        Idioma::Belarus => "Тэхнічныя дэталі"@,
        Idioma::Catalan => "Detalls tècnics"@,
        Idioma::Checo => "Technické detaily"@,
        Idioma::Aleman => "Technische Details"@,
        Idioma::Ingles => "Technical details"@,
        Idioma::Espanol => "Detalles técnicos"@,
        Idioma::Frances => "Détails techniques"@,
        Idioma::Gallego => "Datos técnicos"@,
        Idioma::Hungaro => "Műszaki részletek"@,
        Idioma::Italiano => "Dettagli tecnici"@,
        Idioma::Coreano => "기술 세부사항"@,
        Idioma::Kurdo => "Hûrguliyên teknîkî"@,
        Idioma::Neerlandes => "Technische details"@,
        Idioma::NoruegoNynorsk => "Tekniske detaljer"@,
        Idioma::Polaco => "Szczegóły techniczne"@,
        Idioma::PortuguesBrasil => "Detalhes técnicos"@,
        Idioma::Ruso => "Технические подробности"@,
        Idioma::Sueco => "Tekniska detaljer"@,
        Idioma::Turco => "Teknik detaylar"@,
        Idioma::Ucraniano => "Технічні деталі"@,
        Idioma::Vietnamita => "Chi tiết kỹ thuật"@,
        Idioma::ChinoSimplificado => "技术细节"@,
    }
}

pub fn texto_detalles_tecnicos(idioma: Idioma) -> (r: &'static str)
    ensures
        r@ == texto_detalles_tecnicos_spec(idioma),
{
    match idioma {
        Idioma::BelarusLatino => "Techničnyja detałi",
        Idioma::Belarus => "Тэхнічныя дэталі",
        Idioma::Catalan => "Detalls tècnics",
        Idioma::Checo => "Technické detaily",
        Idioma::Aleman => "Technische Details",
        Idioma::Ingles => "Technical details",
        Idioma::Espanol => "Detalles técnicos",
        Idioma::Frances => "Détails techniques",
        Idioma::Gallego => "Datos técnicos",
        Idioma::Hungaro => "Műszaki részletek",
        Idioma::Italiano => "Dettagli tecnici",
        Idioma::Coreano => "기술 세부사항",
        Idioma::Kurdo => "Hûrguliyên teknîkî",
        Idioma::Neerlandes => "Technische details",
        Idioma::NoruegoNynorsk => "Tekniske detaljer",
        Idioma::Polaco => "Szczegóły techniczne",
        Idioma::PortuguesBrasil => "Detalhes técnicos",
        Idioma::Ruso => "Технические подробности",
        Idioma::Sueco => "Tekniska detaljer",
        Idioma::Turco => "Teknik detaylar",
        Idioma::Ucraniano => "Технічні деталі",
        Idioma::Vietnamita => "Chi tiết kỹ thuật",
        Idioma::ChinoSimplificado => "技术细节",
    }
}

/// The label of the button that shows details.
pub open spec fn texto_mostrar_spec(idioma: Idioma) -> Seq<char> {
    match idioma {
        Idioma::BelarusLatino => "Pakazac"@,
        Idioma::Belarus => "Паказаць"@,
        Idioma::Catalan | Idioma::Italiano => "Mostra"@,
        Idioma::Checo => "Zobrazit"@,
        Idioma::Aleman => "Anzeigen"@,
        Idioma::Ingles => "Show"@,
        Idioma::Espanol | Idioma::Gallego => "Mostrar"@,
        Idioma::Frances => "Afficher"@,
        Idioma::Hungaro => "Mutatás"@,
        Idioma::Coreano => "표시"@,
        Idioma::Kurdo => "Nîşan bide"@,
        Idioma::Neerlandes => "Toon"@,
        Idioma::NoruegoNynorsk => "Vis"@,
        Idioma::Polaco => "Pokaż"@,
        Idioma::PortuguesBrasil => "Exibir"@,
        Idioma::Ruso => "Показать"@,
        Idioma::Sueco => "Visa"@,
        Idioma::Turco => "Göster"@,
        Idioma::Ucraniano => "Показати"@,
        Idioma::Vietnamita => "Hiển thị"@,
        Idioma::ChinoSimplificado => "显示"@,
    }
}

pub fn texto_mostrar(idioma: Idioma) -> (r: &'static str)
    ensures
        r@ == texto_mostrar_spec(idioma),
{
    match idioma {
        Idioma::BelarusLatino => "Pakazac",
        Idioma::Belarus => "Паказаць",
        Idioma::Catalan | Idioma::Italiano => "Mostra",
        Idioma::Checo => "Zobrazit",
        Idioma::Aleman => "Anzeigen",
        Idioma::Ingles => "Show",
        Idioma::Espanol | Idioma::Gallego => "Mostrar",
        Idioma::Frances => "Afficher",
        Idioma::Hungaro => "Mutatás",
        Idioma::Coreano => "표시",
        Idioma::Kurdo => "Nîşan bide",
        Idioma::Neerlandes => "Toon",
        Idioma::NoruegoNynorsk => "Vis",
        Idioma::Polaco => "Pokaż",
        Idioma::PortuguesBrasil => "Exibir",
        Idioma::Ruso => "Показать",
        Idioma::Sueco => "Visa",
        Idioma::Turco => "Göster",
        Idioma::Ucraniano => "Показати",
        Idioma::Vietnamita => "Hiển thị",
        Idioma::ChinoSimplificado => "显示",
    }
}

/// The label of the button that hides details.
pub open spec fn texto_ocultar_spec(idioma: Idioma) -> Seq<char> {
    match idioma {
        Idioma::BelarusLatino => "Schavac"@,
        Idioma::Belarus => "Схаваць"@,
        Idioma::Catalan => "Amaga"@,
        Idioma::Checo => "Skrýt"@,
        Idioma::Aleman => "Ausblenden"@,
        Idioma::Ingles => "Hide"@,
        Idioma::Espanol | Idioma::Gallego | Idioma::PortuguesBrasil => "Ocultar"@,
        Idioma::Frances => "Cacher"@,
        Idioma::Hungaro => "Elrejtés"@,
        Idioma::Italiano => "Nascondi"@,
        Idioma::Coreano => "숨기기"@,
        Idioma::Kurdo => "Veşêre"@,
        Idioma::Neerlandes => "Verberg"@,
        Idioma::NoruegoNynorsk => "Gøym"@,
        Idioma::Polaco => "Ukryj"@,
        Idioma::Ruso => "Скрыть"@,
        Idioma::Sueco => "Dölj"@,
        Idioma::Turco => "Gizle"@,
        Idioma::Ucraniano => "Приховати"@,
        Idioma::Vietnamita => "Ẩn"@,
        Idioma::ChinoSimplificado => "隐藏"@,
    }
}

pub fn texto_ocultar(idioma: Idioma) -> (r: &'static str)
    ensures
        r@ == texto_ocultar_spec(idioma),
{
    match idioma {
        Idioma::BelarusLatino => "Schavac",
        Idioma::Belarus => "Схаваць",
        Idioma::Catalan => "Amaga",
        Idioma::Checo => "Skrýt",
        Idioma::Aleman => "Ausblenden",
        Idioma::Ingles => "Hide",
        Idioma::Espanol | Idioma::Gallego | Idioma::PortuguesBrasil => "Ocultar",
        Idioma::Frances => "Cacher",
        Idioma::Hungaro => "Elrejtés",
        Idioma::Italiano => "Nascondi",
        Idioma::Coreano => "숨기기",
        Idioma::Kurdo => "Veşêre",
        Idioma::Neerlandes => "Verberg",
        Idioma::NoruegoNynorsk => "Gøym",
        Idioma::Polaco => "Ukryj",
        Idioma::Ruso => "Скрыть",
        Idioma::Sueco => "Dölj",
        Idioma::Turco => "Gizle",
        Idioma::Ucraniano => "Приховати",
        Idioma::Vietnamita => "Ẩn",
        Idioma::ChinoSimplificado => "隐藏",
    }
}

/// The label of the button that closes an error dialog.
pub open spec fn texto_cerrar_spec(idioma: Idioma) -> Seq<char> {
    match idioma {
        Idioma::BelarusLatino => "Błizka"@,
        Idioma::Belarus => "Закрыць"@,
        Idioma::Catalan => "Tanca"@,
        Idioma::Checo => "Zavřít"@,
        Idioma::Aleman => "Schließen"@,
        Idioma::Ingles => "Close"@,
        Idioma::Espanol => "Cerrar"@,
        Idioma::Frances => "Fermer"@,
        Idioma::Gallego => "Pechar"@,
        Idioma::Hungaro => "Bezárás"@,
        Idioma::Italiano => "Chiudi"@,
        Idioma::Coreano => "닫기"@,
        Idioma::Kurdo => "Bigire"@,
        Idioma::Neerlandes => "Sluiten"@,
        Idioma::NoruegoNynorsk => "Lat att"@,
        Idioma::Polaco => "Zamknij"@,
        Idioma::PortuguesBrasil => "Fechar"@,
        Idioma::Ruso => "Закрыть"@,
        Idioma::Sueco => "Stäng"@,
        Idioma::Turco => "Kapat"@,
        Idioma::Ucraniano => "Закрити"@,
        Idioma::Vietnamita => "Đóng"@,
        Idioma::ChinoSimplificado => "关闭"@,
    }
}

pub fn texto_cerrar(idioma: Idioma) -> (r: &'static str)
    ensures
        r@ == texto_cerrar_spec(idioma),
{
    match idioma {
        Idioma::BelarusLatino => "Błizka",
        Idioma::Belarus => "Закрыць",
        Idioma::Catalan => "Tanca",
        Idioma::Checo => "Zavřít",
        Idioma::Aleman => "Schließen",
        Idioma::Ingles => "Close",
        Idioma::Espanol => "Cerrar",
        Idioma::Frances => "Fermer",
        Idioma::Gallego => "Pechar",
        Idioma::Hungaro => "Bezárás",
        Idioma::Italiano => "Chiudi",
        Idioma::Coreano => "닫기",
        Idioma::Kurdo => "Bigire",
        Idioma::Neerlandes => "Sluiten",
        Idioma::NoruegoNynorsk => "Lat att",
        Idioma::Polaco => "Zamknij",
        Idioma::PortuguesBrasil => "Fechar",
        Idioma::Ruso => "Закрыть",
        Idioma::Sueco => "Stäng",
        Idioma::Turco => "Kapat",
        Idioma::Ucraniano => "Закрити",
        Idioma::Vietnamita => "Đóng",
        Idioma::ChinoSimplificado => "关闭",
    }
}

} // verus!
