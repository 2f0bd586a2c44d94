use korunix_interfaz::actualizaciones::targets_unidades_seleccionadas;
use korunix_interfaz::almacenamiento::{argumentos_expulsion, hay_extraibles, unidades_almacenamiento};
use korunix_interfaz::apariencia::{
    modo_desde_salida, modo_efectivo, modo_noctalia_de, modo_noctalia_texto, modo_sistema, valor_toml_simple,
    ModoApariencia,
};
use korunix_interfaz::aplicaciones::{
    escritorio_usa_noctalia, esta_texto, ids_aplicaciones_seleccionadas, indice, nombre_desde_id,
};
use korunix_interfaz::audio::{descripcion_nodo_audio, modelo_audio_conocido, parece_nombre_tecnico_audio};
use korunix_interfaz::confirmaciones::{
    cuerpo_confirmacion_canal, frase_confirmar_actualizacion, frase_confirmar_expulsion, frase_confirmar_firmware,
    frase_confirmar_limpieza, frase_fuentes, frase_generaciones,
};
use korunix_interfaz::escritorio::{
    adicionales_marcados, comandos_apariencia, estilo_humano, modo_humano, modo_vista_previa, opcion_elegida,
};
use korunix_interfaz::firmware::{actualizaciones_firmware, efecto_de_plan, estado_firmware, problemas_firmware};
use korunix_interfaz::hardware::{
    fabricante_humano, firmware_humano, modelo_humano, tamano_almacenamiento_humano, valor,
};
use korunix_interfaz::idioma::{idioma_desde_lang, idioma_tag, Idioma};
use korunix_interfaz::json::{Campo, Json, Numero};
use korunix_interfaz::localizacion::{
    estado_cuenta_humano, idioma_humano, nombre_escritorio_humano, region_humana, teclado_humano, variante_teclado_humana,
    zona_horaria_humana,
};
use korunix_interfaz::mantenimiento::{
    etiqueta_version_recuperacion, filas_recuperacion, generaciones_conservadas, id_generacion_plan,
};
use korunix_interfaz::motor::{
    anotar_detalle, argumentos_confirmados, etapa_inicial_motor, etiqueta_porcentaje, leer_progreso,
    mensaje_error_motor,
};
use korunix_interfaz::navegacion::indice_pagina;
use korunix_interfaz::orden::insertar_ordenado;
use korunix_interfaz::plantilla::{aplicar_plantilla_visible, formatear, formatear1, localizar_visible};
use korunix_interfaz::resumen::{asuntos_resumen, cantidad, tiempo_relativo_desde};
use korunix_interfaz::roles::{
    decision_guardar_roles, etiqueta_editor, etiqueta_navegador, roles_personas, subtitulo_navegador,
    DecisionRoles,
};
use korunix_interfaz::textos::interfaz::texto;

fn texto_json(t: &str) -> Json {
    Json::Texto(t.to_string())
}

fn numero(n: u64) -> Json {
    Json::Numero(Numero { natural: Some(n), entero: i64::try_from(n).ok(), texto: n.to_string() })
}

fn objeto(miembros: Vec<(&str, Json)>) -> Json {
    Json::Objeto(
        miembros
            .into_iter()
            .map(|(clave, valor)| Campo { clave: clave.to_string(), valor })
            .collect(),
    )
}

fn textos(v: &[&str]) -> Vec<String> {
    v.iter().map(|t| t.to_string()).collect()
}

// JSON values

#[test]
fn puntero_sigue_miembros_e_indices() {
    let datos = objeto(vec![
        ("a", Json::Lista(vec![objeto(vec![("b", numero(1))])])),
        ("x/y", texto_json("barra")),
        ("m~n", texto_json("tilde")),
    ]);
    assert_eq!(datos.apuntar("/a/0/b").and_then(Json::como_u64), Some(1));
    assert!(datos.apuntar("/a/01/b").is_none());
    assert!(datos.apuntar("/a/+0/b").is_none());
    assert!(datos.apuntar("/a/1").is_none());
    assert!(datos.apuntar("a").is_none());
    assert!(matches!(datos.apuntar(""), Some(Json::Objeto(_))));
    assert_eq!(datos.apuntar("/x~1y").and_then(Json::como_texto), Some("barra"));
    assert_eq!(datos.apuntar("/m~0n").and_then(Json::como_texto), Some("tilde"));
}

#[test]
fn objeto_se_muestra_como_json_compacto() {
    let datos = objeto(vec![(
        "o",
        objeto(vec![
            ("t", texto_json("a\"b\n\u{1}")),
            ("n", Json::Lista(vec![numero(1), Json::Booleano(true), Json::Nulo])),
        ]),
    )]);
    assert_eq!(valor(&datos, "/o"), r#"{"n":[1,true,null],"t":"a\"b\n\u0001"}"#);
}

// Summary

#[test]
fn tiempo_relativo_singular_y_futuro() {
    assert_eq!(tiempo_relativo_desde(0, 86_400), "Hace 1 día");
    assert_eq!(tiempo_relativo_desde(5_000, 1_000), "Ahora");
    assert_eq!(tiempo_relativo_desde(0, 59), "Ahora");
    assert_eq!(tiempo_relativo_desde(0, 60), "Hace 1 min");
}

#[test]
fn resumen_sin_datos_avisa_de_cada_area() {
    let asuntos = asuntos_resumen(None, None, None, 0);
    let titulos = asuntos.iter().map(|a| a.titulo.as_str()).collect::<Vec<_>>();
    assert_eq!(titulos, ["Copias e historial", "Firmware", "Permisos"]);
}

#[test]
fn resumen_cuenta_dias_y_actualizaciones() {
    let ahora = 100 * 86_400;
    let historial = objeto(vec![(
        "entries",
        Json::Lista(vec![objeto(vec![("timestamp", numero(ahora - 40 * 86_400)), ("kind", texto_json("backup-export"))])]),
    )]);
    let firmware = objeto(vec![("devices", Json::Lista(vec![Json::Nulo, Json::Nulo]))]);
    let privilegios = objeto(vec![]);
    let asuntos = asuntos_resumen(Some(&historial), Some(&firmware), Some(&privilegios), ahora);
    assert_eq!(asuntos.len(), 2);
    assert_eq!(asuntos[0].detalle, "La última copia portable tiene 40 días. Conviene crear una nueva.");
    assert_eq!(asuntos[1].detalle, "Hay 2 actualizaciones de firmware disponibles.");
    assert_eq!(cantidad(&firmware, "/devices"), 2);
    assert_eq!(cantidad(&firmware, "/nada"), 0);
}

#[test]
fn paginas_desconocidas_no_tienen_indice() {
    assert_eq!(indice_pagina("summary"), Some(0));
    assert_eq!(indice_pagina("maintenance"), Some(11));
    assert_eq!(indice_pagina("nada"), None);
}

// Applications and default roles

#[test]
fn nombre_legible_desde_identificador() {
    assert_eq!(nombre_desde_id("android-tools"), "Android Tools");
    assert_eq!(nombre_desde_id("genshin_impact"), "Genshin Impact");
    assert_eq!(nombre_desde_id("--a--b"), "A B");
    assert_eq!(nombre_desde_id("émile-zola"), "Émile Zola");
    assert_eq!(nombre_desde_id("ßtraße"), "SStraße");
}

#[test]
fn seleccion_y_escritorios_de_noctalia() {
    let datos = objeto(vec![("selected", Json::Lista(vec![texto_json("firefox"), numero(3), texto_json("kate")]))]);
    assert_eq!(ids_aplicaciones_seleccionadas(&datos), textos(&["firefox", "kate"]));

    let con_hyprland = objeto(vec![(
        "desktop",
        objeto(vec![("primary", texto_json("plasma")), ("additional", Json::Lista(vec![texto_json("hyprland")]))]),
    )]);
    assert!(escritorio_usa_noctalia(&con_hyprland));
    let solo_plasma = objeto(vec![(
        "desktop",
        objeto(vec![("primary", texto_json("plasma")), ("additional", Json::Lista(vec![texto_json("cinnamon")]))]),
    )]);
    assert!(!escritorio_usa_noctalia(&solo_plasma));
}

#[test]
fn indice_de_opcion_o_primera() {
    let opciones = textos(&["kwrite", "kate"]);
    assert_eq!(indice("kate", &opciones), 1);
    assert_eq!(indice("vim", &opciones), 0);
    assert!(esta_texto(&opciones, "kwrite"));
    assert!(!esta_texto(&opciones, "KWrite"));
}

#[test]
fn navegador_elegido_que_no_se_ofrece() {
    let (ids, seleccionado) =
        korunix_interfaz::aplicaciones::opciones_navegador_ids(&textos(&["google-chrome"]), Some("opera"));
    assert_eq!(ids, textos(&["google-chrome"]));
    assert_eq!(seleccionado, 0);
}

#[test]
fn editor_actual_se_conserva() {
    let (ids, seleccionado) = korunix_interfaz::aplicaciones::opciones_editor_plasma_ids(Some("kate"));
    assert_eq!(ids, textos(&["kwrite", "kate"]));
    assert_eq!(ids[seleccionado as usize], "kate");
}

#[test]
fn cambio_sin_diferencias_no_existe_y_confirmado_usa_yes() {
    assert!(korunix_interfaz::aplicaciones::argumentos_cambio_roles(
        "ana",
        Some("firefox"),
        Some("firefox"),
        None,
        None,
        true
    )
    .is_none());
    let plan = korunix_interfaz::aplicaciones::argumentos_cambio_roles(
        "ana",
        None,
        Some("firefox"),
        Some("kwrite"),
        Some("kate"),
        true,
    )
    .unwrap();
    assert_eq!(
        plan,
        textos(&[
            "defaults",
            "set",
            "--person",
            "ana",
            "--browser",
            "firefox",
            "--plasma-text-editor",
            "kate",
            "--plan",
            "--json"
        ])
    );
    let confirmado = korunix_interfaz::aplicaciones::argumentos_cambio_roles(
        "ana",
        None,
        Some("firefox"),
        Some("kwrite"),
        Some("kate"),
        false,
    )
    .unwrap();
    assert_eq!(argumentos_confirmados(&plan), confirmado);
}

#[test]
fn roles_de_personas_y_etiquetas() {
    let datos = objeto(vec![(
        "people",
        Json::Lista(vec![
            objeto(vec![
                ("id", texto_json("ana")),
                ("requested", objeto(vec![("browser", texto_json("firefox"))])),
                ("needsChoice", objeto(vec![("plasmaTextEditor", Json::Booleano(true))])),
            ]),
            objeto(vec![("nombre", texto_json("sin id"))]),
            objeto(vec![("id", texto_json("luis"))]),
        ]),
    )]);
    let personas = roles_personas(&datos);
    assert_eq!(personas.len(), 2);
    assert_eq!(personas[0].id, "ana");
    assert_eq!(personas[0].navegador.as_deref(), Some("firefox"));
    assert_eq!(personas[0].editor, None);
    assert!(!personas[0].navegador_pendiente);
    assert!(personas[0].editor_pendiente);
    assert!(personas[0].mostrar_editor);
    assert_eq!(personas[1].id, "luis");
    assert!(personas[1].navegador_pendiente);
    assert!(!personas[1].mostrar_editor);

    let instalados = textos(&["firefox"]);
    assert_eq!(etiqueta_navegador("", &instalados), ("Elige una opción".to_string(), true));
    assert_eq!(etiqueta_navegador("firefox", &instalados), ("Firefox".to_string(), false));
    assert_eq!(
        etiqueta_navegador("google-chrome", &instalados),
        ("Google Chrome — no instalado en este equipo".to_string(), true)
    );
    assert_eq!(etiqueta_navegador("opera", &instalados), ("opera".to_string(), false));
    assert_eq!(etiqueta_editor("kate"), ("Kate — proyectos y trabajo avanzado".to_string(), true));
    assert_eq!(etiqueta_editor("vim"), ("vim".to_string(), false));
    assert_eq!(
        subtitulo_navegador(true, &instalados),
        "Solo hay un navegador instalado. Korunix no decidirá por ti: confirma cuál quieres usar."
    );
    assert_eq!(
        subtitulo_navegador(false, &instalados),
        "Abrirá enlaces y páginas web. Las imágenes y los PDF seguirán usando sus propios visores."
    );
}

#[test]
fn guardar_roles_decide_sin_asumir() {
    let navegadores = textos(&["", "firefox"]);
    let editores = textos(&["", "kwrite", "kate"]);
    assert!(matches!(
        decision_guardar_roles("ana", &navegadores, 0, &editores, Some(2), None, None, true, false),
        DecisionRoles::FaltaNavegador
    ));
    assert!(matches!(
        decision_guardar_roles("ana", &navegadores, 1, &editores, Some(0), None, None, false, true),
        DecisionRoles::FaltaEditor
    ));
    assert!(matches!(
        decision_guardar_roles("ana", &navegadores, 1, &editores, None, Some("firefox"), None, false, false),
        DecisionRoles::SinCambio
    ));
    match decision_guardar_roles("ana", &navegadores, 1, &editores, Some(2), None, Some("kwrite"), true, true) {
        DecisionRoles::Cambiar(plan, ejecucion) => {
            assert_eq!(
                plan,
                textos(&[
                    "defaults",
                    "set",
                    "--person",
                    "ana",
                    "--browser",
                    "firefox",
                    "--plasma-text-editor",
                    "kate",
                    "--plan",
                    "--json"
                ])
            );
            assert_eq!(ejecucion, argumentos_confirmados(&plan));
        }
        _ => panic!("se esperaba un cambio"),
    }
}

// Updates

#[test]
fn targets_seleccionados_ordenados_sin_repetir() {
    let unidades = vec![
        (textos(&["nixpkgs", "aagl"]), true),
        (textos(&["spicetify-nix"]), false),
        (textos(&["aagl", "noctalia"]), true),
    ];
    assert_eq!(targets_unidades_seleccionadas(&unidades), textos(&["aagl", "nixpkgs", "noctalia"]));
    assert!(targets_unidades_seleccionadas(&[]).is_empty());
}

#[test]
fn insercion_ordenada_no_repite() {
    let mut v = textos(&["b", "d"]);
    insertar_ordenado(&mut v, "c");
    insertar_ordenado(&mut v, "d");
    insertar_ordenado(&mut v, "a");
    assert_eq!(v, textos(&["a", "b", "c", "d"]));
}

// Engine

#[test]
fn etapa_inicial_segun_comando() {
    assert_eq!(etapa_inicial_motor(&["update", "--json"]), Some("updating_catalog"));
    assert_eq!(etapa_inicial_motor(&["channel", "unstable", "--yes"]), Some("changing_channel"));
    assert_eq!(
        etapa_inicial_motor(&["storage", "eject", "/dev/sdb", "--heavy", "--yes", "--json"]),
        Some("saving_data")
    );
    assert_eq!(etapa_inicial_motor(&["media", "audio", "test-output", "3"]), Some("testing_sound"));
    assert_eq!(etapa_inicial_motor(&["rollback", "12", "--yes", "--json"]), Some("scheduling_recovery"));
    assert_eq!(etapa_inicial_motor(&["update"]), None);
}

#[test]
fn lineas_de_progreso() {
    assert_eq!(leer_progreso("KORUNIX_PROGRESS\t42\tbuilding"), Some((42, "building".to_string())));
    assert_eq!(leer_progreso("KORUNIX_PROGRESS\t+7\tuno\tdos"), Some((7, "uno\tdos".to_string())));
    assert_eq!(leer_progreso("KORUNIX_PROGRESS\t300\tx"), None);
    assert_eq!(leer_progreso("KORUNIX_PROGRESS\t5"), None);
    assert_eq!(leer_progreso("otra cosa"), None);
}

#[test]
fn detalles_guardan_las_ultimas_ochenta_lineas() {
    let mut detalles = Vec::new();
    anotar_detalle(&mut detalles, "   ");
    assert!(detalles.is_empty());
    assert_eq!(mensaje_error_motor(&detalles), "El motor terminó con error.");
    for i in 0..81 {
        anotar_detalle(&mut detalles, &format!("línea {i}"));
    }
    assert_eq!(detalles.len(), 80);
    assert_eq!(detalles[0], "línea 1");
    assert_eq!(detalles[79], "línea 80");
    assert_eq!(mensaje_error_motor(&textos(&["a", "b"])), "a\nb");
}

#[test]
fn confirmar_quita_plan_y_pone_yes() {
    assert_eq!(
        argumentos_confirmados(&textos(&["rollback", "12", "--plan", "--json"])),
        textos(&["rollback", "12", "--yes", "--json"])
    );
    assert_eq!(argumentos_confirmados(&textos(&["--plan", "x"])), textos(&["--yes", "x"]));
}

#[test]
fn porcentaje_acotado() {
    assert_eq!(etiqueta_porcentaje(150), (100, "100%".to_string()));
    assert_eq!(etiqueta_porcentaje(7), (7, "7%".to_string()));
}

// Templates

#[test]
fn plantillas_visibles() {
    assert_eq!(
        aplicar_plantilla_visible("Hace {n} días", "{n} days ago", "Hace 5 días"),
        Some("5 days ago".to_string())
    );
    assert_eq!(aplicar_plantilla_visible("{a} de {b}", "{b} of {a}", "3 de 7"), Some("7 of 3".to_string()));
    assert_eq!(aplicar_plantilla_visible("Hola", "Hello", "Hola"), None);
    assert_eq!(aplicar_plantilla_visible("Hace {n} días", "{n} days ago", "Hace 5 horas"), None);
    assert_eq!(aplicar_plantilla_visible("Hace {n}", "{n} ago", "Hace 2 h"), Some("2 h ago".to_string()));
}

#[test]
fn localizar_prefiere_la_traduccion_exacta() {
    let catalogo = vec![
        ("{x}".to_string(), "T:{x}".to_string()),
        ("Hola".to_string(), "Hello".to_string()),
        ("Hace {n} días".to_string(), "{n} days ago".to_string()),
    ];
    assert_eq!(localizar_visible(&catalogo, "Hola"), "Hello");
    assert_eq!(localizar_visible(&catalogo, "Hace 3 días"), "T:Hace 3 días");
    assert_eq!(localizar_visible(&catalogo[1..], "Hace 3 días"), "3 days ago");
    assert_eq!(localizar_visible(&catalogo[1..], "Otro"), "Otro");
}

#[test]
fn formatos_con_nombres() {
    assert_eq!(formatear("{a} y {b}", &[("a", "1"), ("b", "2")]), "1 y 2");
    assert_eq!(formatear1("Hay {n} de {n}", "n", "3"), "Hay 3 de 3");
}

// Appearance

#[test]
fn lectura_de_ajustes_de_noctalia() {
    assert_eq!(valor_toml_simple("mode = \"dark\""), Some("dark"));
    assert_eq!(valor_toml_simple("mode = 'light'"), Some("light"));
    assert_eq!(valor_toml_simple("sin igual"), None);
    assert_eq!(modo_noctalia_texto("[theme]\nmode = \"light\"\n"), Some(ModoApariencia::Claro));
    assert_eq!(
        modo_noctalia_texto("[colorSchemes]\ndarkMode = true\n[theme]\nmode = \"light\"\n"),
        Some(ModoApariencia::Oscuro)
    );
    assert_eq!(modo_noctalia_texto("{\n  \"darkMode\": false,\n}\n"), Some(ModoApariencia::Claro));
    assert_eq!(modo_noctalia_texto("theme.mode = auto # comentario\r\n"), Some(ModoApariencia::Automatico));
    assert_eq!(modo_noctalia_texto("# mode = dark\n"), None);
}

#[test]
fn modo_de_noctalia_y_del_sistema() {
    assert_eq!(modo_desde_salida(" Dark\n"), Some(ModoApariencia::Oscuro));
    assert_eq!(modo_desde_salida("auto"), None);
    assert_eq!(
        modo_noctalia_de(Some("auto"), &[None, Some(ModoApariencia::Automatico), Some(ModoApariencia::Oscuro)]),
        Some(ModoApariencia::Oscuro)
    );
    assert_eq!(
        modo_noctalia_de(None, &[Some(ModoApariencia::Automatico), None]),
        Some(ModoApariencia::Automatico)
    );
    assert_eq!(modo_noctalia_de(Some("light"), &[Some(ModoApariencia::Oscuro)]), Some(ModoApariencia::Claro));
    assert_eq!(modo_noctalia_de(None, &[]), None);
    assert_eq!(modo_sistema(Some("prefer-dark")), ModoApariencia::Oscuro);
    assert_eq!(modo_sistema(Some("default")), ModoApariencia::Automatico);
    assert_eq!(modo_sistema(None), ModoApariencia::Automatico);
    assert_eq!(modo_efectivo(Some(ModoApariencia::Automatico), ModoApariencia::Claro), ModoApariencia::Claro);
    assert_eq!(modo_efectivo(Some(ModoApariencia::Oscuro), ModoApariencia::Claro), ModoApariencia::Oscuro);
}

#[test]
fn escritorio_y_comandos_de_apariencia() {
    assert_eq!(estilo_humano("everforest"), "Everforest");
    assert_eq!(estilo_humano("otro"), "Predeterminada");
    assert_eq!(modo_humano("dark"), "Oscuro");
    assert_eq!(modo_humano("auto"), "Automático");
    assert_eq!(modo_vista_previa("auto", Some(ModoApariencia::Oscuro)), ModoApariencia::Oscuro);
    assert_eq!(modo_vista_previa("light", Some(ModoApariencia::Oscuro)), ModoApariencia::Claro);
    assert_eq!(opcion_elegida(&textos(&["a", "b"]), 5, "d"), "d");
    assert_eq!(opcion_elegida(&textos(&["a", "b"]), 1, "d"), "b");
    let marcas = vec![("niri".to_string(), true), ("plasma".to_string(), true), ("hyprland".to_string(), false)];
    assert_eq!(adicionales_marcados(&marcas, "plasma"), "niri");
    let comandos = comandos_apariencia("everforest", "dark", "plasma", "niri,hyprland", true);
    assert_eq!(
        comandos,
        vec![
            textos(&["appearance", "set", "--style", "everforest", "--mode", "dark", "--plan", "--json"]),
            textos(&["desktop", "set-primary", "plasma", "--plan", "--json"]),
            textos(&["desktop", "set-additional", "niri,hyprland", "--plan", "--json"]),
        ]
    );
}

// Hardware and storage

#[test]
fn valores_de_hardware() {
    let datos = objeto(vec![
        ("vacio", texto_json("")),
        ("lista", Json::Lista(vec![texto_json("x"), numero(1), texto_json("y")])),
        ("si", Json::Booleano(true)),
        ("obj", objeto(vec![("k", numero(1))])),
        ("n", numero(16)),
    ]);
    assert_eq!(valor(&datos, "/vacio"), "—");
    assert_eq!(valor(&datos, "/lista"), "x, y");
    assert_eq!(valor(&datos, "/si"), "true");
    assert_eq!(valor(&datos, "/obj"), "{\"k\":1}");
    assert_eq!(valor(&datos, "/n"), "16");
    assert_eq!(valor(&datos, "/falta"), "—");
    assert_eq!(fabricante_humano(" LENOVO "), "Lenovo");
    assert_eq!(fabricante_humano("Dell Inc. "), "Dell Inc.");
    assert_eq!(modelo_humano("LENOVO", " ThinkPad "), "Lenovo ThinkPad");
    assert_eq!(modelo_humano("Dell", "Dell"), "Dell");
    assert_eq!(modelo_humano("", "—"), "—");
    assert_eq!(firmware_humano("UEFI"), "UEFI");
    assert_eq!(firmware_humano("Legacy"), "BIOS");
    assert_eq!(firmware_humano("otro"), "otro");
    assert_eq!(tamano_almacenamiento_humano("465,8G"), "465,8 GB");
    assert_eq!(tamano_almacenamiento_humano(" 1T "), "1 TB");
    assert_eq!(tamano_almacenamiento_humano("12X"), "12X");
    assert_eq!(tamano_almacenamiento_humano("G"), "G");
}

#[test]
fn unidades_de_almacenamiento() {
    let datos = objeto(vec![(
        "devices",
        Json::Lista(vec![
            objeto(vec![
                ("device", texto_json("/dev/sdb")),
                ("model", texto_json("SanDisk")),
                ("size", texto_json("29,8G")),
                ("removable", Json::Booleano(true)),
                ("mountPoints", Json::Lista(vec![texto_json("/run/media/usb")])),
            ]),
            objeto(vec![
                ("device", texto_json("/dev/nvme0n1")),
                ("model", texto_json("  ")),
                ("size", texto_json("476,9G")),
                ("removable", Json::Booleano(false)),
                ("mountPoints", Json::Lista(vec![Json::Nulo])),
            ]),
        ]),
    )]);
    let unidades = unidades_almacenamiento(&datos);
    assert_eq!(unidades.len(), 2);
    assert_eq!(unidades[0].modelo, "SanDisk");
    assert_eq!(unidades[0].detalle, "29,8 GB · Extraíble · Disponible ahora");
    assert!(unidades[0].extraible);
    assert_eq!(unidades[1].modelo, "/dev/nvme0n1");
    assert_eq!(unidades[1].detalle, "476,9 GB · Interna");
    assert!(hay_extraibles(&datos));
    assert!(!hay_extraibles(&objeto(vec![])));
    assert_eq!(
        argumentos_expulsion("/dev/sdb", true, false),
        textos(&["storage", "eject", "/dev/sdb", "--heavy", "--yes", "--json"])
    );
    assert_eq!(
        argumentos_expulsion("/dev/sdb", false, true),
        textos(&["storage", "eject", "/dev/sdb", "--plan", "--json"])
    );
}

// Firmware

#[test]
fn estado_y_lista_de_firmware() {
    assert_eq!(
        estado_firmware(0, 0),
        (
            "El firmware está al día".to_string(),
            "No hay actualizaciones ni dispositivos de firmware que requieran atención.".to_string()
        )
    );
    assert_eq!(
        estado_firmware(1, 4),
        ("Hay una actualización de firmware".to_string(), "1 actualización disponibles.".to_string())
    );
    assert_eq!(
        estado_firmware(3, 0),
        ("Hay actualizaciones de firmware".to_string(), "3 actualizaciones disponibles.".to_string())
    );
    assert_eq!(estado_firmware(0, 2).0, "Hay dispositivos de firmware que requieren atención");

    let datos = objeto(vec![(
        "devices",
        Json::Lista(vec![
            objeto(vec![
                ("id", texto_json("a1")),
                ("name", texto_json("UEFI")),
                ("currentVersion", texto_json("1.0")),
                ("releases", Json::Lista(vec![objeto(vec![("version", texto_json("1.1"))])])),
            ]),
            objeto(vec![("name", texto_json("sin id"))]),
            objeto(vec![("id", texto_json("b2")), ("name", texto_json(" "))]),
        ]),
    )]);
    let actualizaciones = actualizaciones_firmware(&datos);
    assert_eq!(actualizaciones.len(), 2);
    assert_eq!(actualizaciones[0].id, "a1");
    assert_eq!(actualizaciones[0].nombre, "UEFI");
    assert_eq!(actualizaciones[0].detalle, "1.0 → 1.1");
    assert_eq!(actualizaciones[1].nombre, "Firmware");
    assert_eq!(actualizaciones[1].detalle, "— → —");

    let dispositivos = objeto(vec![(
        "devices",
        Json::Lista(vec![
            objeto(vec![
                ("name", texto_json("—")),
                ("summary", texto_json("Touchpad")),
                ("problems", Json::Lista(vec![texto_json("x")])),
            ]),
            objeto(vec![("name", texto_json("Bien")), ("problems", Json::Lista(vec![]))]),
            objeto(vec![("problems", Json::Lista(vec![numero(1)]))]),
        ]),
    )]);
    assert_eq!(problemas_firmware(&dispositivos), textos(&["Touchpad", "Dispositivo de firmware"]));
    assert_eq!(efecto_de_plan(&objeto(vec![])), "immediate");
    assert_eq!(efecto_de_plan(&objeto(vec![("effect", texto_json("reboot"))])), "reboot");
}

// Maintenance

#[test]
fn identificadores_de_generaciones() {
    assert_eq!(id_generacion_plan(&numero(5)), Some(5));
    assert_eq!(id_generacion_plan(&texto_json("7")), Some(7));
    assert_eq!(id_generacion_plan(&objeto(vec![("generation", texto_json("9"))])), Some(9));
    assert_eq!(id_generacion_plan(&objeto(vec![("id", numero(3)), ("generation", numero(4))])), Some(3));
    assert_eq!(id_generacion_plan(&texto_json("x")), None);
    assert_eq!(id_generacion_plan(&numero(5_000_000_000)), None);
    let plan = objeto(vec![(
        "keep",
        Json::Lista(vec![numero(5), numero(3), objeto(vec![("id", numero(5))]), texto_json("1"), Json::Nulo]),
    )]);
    assert_eq!(generaciones_conservadas(&plan), vec![1, 3, 5]);
}

#[test]
fn filas_de_recuperacion() {
    let recuperacion = objeto(vec![
        (
            "generations",
            Json::Lista(vec![
                objeto(vec![("id", numero(9)), ("nixosVersion", texto_json("23.11"))]),
                objeto(vec![("id", numero(10)), ("nixosVersion", texto_json("24.05"))]),
                objeto(vec![("id", numero(11)), ("nixosVersion", texto_json("24.11"))]),
                objeto(vec![("id", numero(12)), ("current", Json::Booleano(true)), ("nixosVersion", texto_json("25.05"))]),
            ]),
        ),
        ("defaultGeneration", numero(11)),
    ]);
    let filas = filas_recuperacion(&recuperacion, &[9]);
    assert_eq!(filas.len(), 3);
    assert_eq!(filas[0].id, 12);
    assert_eq!(filas[0].titulo, "Sistema actual");
    assert_eq!(filas[0].detalle, "25.05 · Conservada para recuperación");
    assert!(filas[0].actual);
    assert_eq!(filas[1].titulo, "Inicio predeterminado");
    assert_eq!(filas[1].detalle, "24.11 · Conservada para recuperación");
    assert_eq!(filas[2].titulo, "Versión anterior 2");
    assert_eq!(filas[2].detalle, "24.05 · Disponible hasta la próxima limpieza");
    assert!(!filas[2].actual);
}

#[test]
fn etiquetas_de_versiones() {
    assert_eq!(etiqueta_version_recuperacion(Idioma::Espanol, 0, true, false, true), "Actual · Conservada");
    assert_eq!(
        etiqueta_version_recuperacion(Idioma::Espanol, 3, false, false, false),
        format!("{} · Se elimina", korunix_interfaz::textos::recuperacion::plantilla_anteriores(Idioma::Espanol).replace("{n}", "3"))
    );
}

// Places, languages and confirmations

#[test]
fn idioma_segun_lang() {
    assert_eq!(idioma_desde_lang("pt-BR.UTF-8"), Idioma::PortuguesBrasil);
    assert_eq!(idioma_desde_lang("EN_us"), Idioma::Ingles);
    assert_eq!(idioma_desde_lang("be-Latn"), Idioma::BelarusLatino);
    assert_eq!(idioma_desde_lang("be_BY"), Idioma::Belarus);
    assert_eq!(idioma_desde_lang(""), Idioma::Espanol);
    assert_eq!(idioma_desde_lang("ja_JP"), Idioma::Espanol);
    assert_eq!(idioma_tag(Idioma::Gallego), "gl-ES");
    assert_eq!(idioma_desde_lang(idioma_tag(Idioma::ChinoSimplificado)), Idioma::ChinoSimplificado);
}

#[test]
fn lugares_y_cuentas_legibles() {
    assert_eq!(idioma_humano(Idioma::Ingles, "es_ES.UTF-8"), "Spanish");
    assert_eq!(idioma_humano(Idioma::Espanol, "en-US"), "Inglés");
    assert_eq!(idioma_humano(Idioma::Espanol, "fr_FR"), "fr_FR");
    assert_eq!(region_humana(Idioma::Espanol, " pe "), "Perú");
    assert_eq!(region_humana(Idioma::Ingles, "XX"), "XX");
    assert_eq!(zona_horaria_humana(Idioma::Ingles, "America/New_York"), "New York");
    assert_eq!(
        teclado_humano(Idioma::Espanol, "latam,us"),
        korunix_interfaz::textos::lugares::teclado_latam(Idioma::Espanol)
    );
    assert_eq!(teclado_humano(Idioma::Espanol, "de"), "de");
    assert_eq!(zona_horaria_humana(Idioma::Espanol, "America/Lima"), "Lima, Perú");
    assert_eq!(zona_horaria_humana(Idioma::Ingles, "Europe/Madrid"), "Madrid, Spain");
    assert_eq!(variante_teclado_humana(""), "Predeterminada");
    assert_eq!(variante_teclado_humana("deadtilde"), "Tildes mediante tecla muerta");
    assert_eq!(variante_teclado_humana("altgr-intl"), "Altgr Intl");
    assert_eq!(estado_cuenta_humano(Idioma::Ingles, "ADOPTED"), "Main user");
    assert_eq!(estado_cuenta_humano(Idioma::Ingles, "pending"), "pending");
    assert_eq!(nombre_escritorio_humano("plasma"), "KDE Plasma");
    assert_eq!(nombre_escritorio_humano("gnome-shell"), "Gnome Shell");
}

#[test]
fn nombres_de_audio() {
    assert!(parece_nombre_tecnico_audio("Built-in Audio Analog Stereo"));
    assert!(parece_nombre_tecnico_audio("alsa_output.pci"));
    assert!(!parece_nombre_tecnico_audio("Auriculares USB"));
    assert_eq!(modelo_audio_conocido("hd pro webcam c920 analog"), Some("Logitech C920"));
    assert_eq!(modelo_audio_conocido("micro"), None);

    let audio = objeto(vec![(
        "pulse",
        objeto(vec![
            (
                "sinks",
                Json::Lista(vec![objeto(vec![
                    ("index", numero(4)),
                    ("description", texto_json("Built-in Audio Analog Stereo")),
                    ("activePort", texto_json("analog-output-speaker")),
                ])]),
            ),
            (
                "sources",
                Json::Lista(vec![objeto(vec![
                    ("index", numero(7)),
                    ("description", texto_json("HD Pro Webcam C920 Analog Stereo")),
                ])]),
            ),
        ]),
    )]);
    assert_eq!(descripcion_nodo_audio(Idioma::Espanol, &audio, "sink", 4, "alsa"), "Altavoces");
    assert_eq!(descripcion_nodo_audio(Idioma::Espanol, &audio, "source", 7, "alsa"), "Logitech C920");
}

#[test]
fn frases_de_confirmacion() {
    assert_eq!(
        frase_confirmar_limpieza(Idioma::Espanol, 4, false),
        "¿Eliminar 4 versiones antiguas del sistema? Korunix conservará las versiones marcadas para recuperación y liberará el espacio que ya no necesitan."
    );
    assert_eq!(
        frase_generaciones(Idioma::Espanol, 1, 3),
        "Conserva 1 versión para recuperación · elimina 3 versiones antiguas"
    );
    assert_eq!(
        frase_generaciones(Idioma::Espanol, 2, 1),
        "Conserva 2 versiones para recuperación · elimina 1 versión antigua"
    );
    assert_eq!(
        frase_confirmar_firmware(Idioma::Espanol, "UEFI", "reboot"),
        "¿Instalar la actualización de firmware para UEFI? Será necesario reiniciar. Korunix no reiniciará ni apagará el equipo automáticamente."
    );
    assert_eq!(
        frase_fuentes(Idioma::Espanol, 12),
        "12 componentes configurados. Actualiza las versiones disponibles; todavía no instala nada."
    );
    assert_eq!(
        frase_confirmar_actualizacion(Idioma::Ingles, 3),
        "Update the software catalog for 3 components now? This may use the network. Nothing will be installed or applied to the system yet."
    );
    assert_eq!(
        frase_confirmar_expulsion(Idioma::Espanol, "/dev/sdb", false),
        "¿Expulsar esta unidad de forma segura ahora?"
    );
    assert!(cuerpo_confirmacion_canal(Idioma::Espanol, "unstable").contains(texto(Idioma::Espanol, "unstable")));
    assert_eq!(texto(Idioma::Ingles, "summary"), "Summary");
    assert_eq!(texto(Idioma::Espanol, "summary"), "Resumen");
}
