use korunix_interfaz::actualizaciones::unidades_actualizacion_humanas;
use korunix_interfaz::aplicaciones::{
    argumentos_cambio_roles, opciones_editor_plasma_ids, opciones_navegador_ids, presentacion_aplicacion,
    resultados_aplicaciones_externas,
};
use korunix_interfaz::json::{Campo, Json, Numero};
use korunix_interfaz::navegacion::{indice_pagina, terminos_busqueda_pagina};
use korunix_interfaz::resumen::{asuntos_resumen, tiempo_relativo_desde, ultima_copia_portable};

fn texto(t: &str) -> Json {
    Json::Texto(t.to_string())
}

fn numero(n: u64) -> Json {
    Json::Numero(Numero { natural: Some(n), entero: i64::try_from(n).ok(), texto: n.to_string() })
}

fn objeto(miembros: Vec<(&str, Json)>) -> Json {
    Json::Objeto(
        miembros
            .into_iter()
            .map(|(clave, valor)| Campo { clave: clave.to_string(), valor })
            .collect(),
    )
}

fn entrada(timestamp: u64, kind: &str) -> Json {
    objeto(vec![("timestamp", numero(timestamp)), ("kind", texto(kind))])
}

#[test]
fn historial_encuentra_la_ultima_copia_portable() {
    let historial = objeto(vec![(
        "entries",
        Json::Lista(vec![
            entrada(10, "backup-export"),
            entrada(20, "applications-prepared"),
            entrada(30, "backup-export"),
        ]),
    )]);

    assert_eq!(ultima_copia_portable(&historial), Some(30));
}

#[test]
fn tiempo_relativo_es_humano() {
    assert_eq!(tiempo_relativo_desde(1_000, 1_030), "Ahora");
    assert_eq!(tiempo_relativo_desde(1_000, 1_120), "Hace 2 min");
    assert_eq!(tiempo_relativo_desde(1_000, 8_200), "Hace 2 h");
    assert_eq!(tiempo_relativo_desde(1_000, 1_000 + 2 * 86_400), "Hace 2 días");
}

#[test]
fn resumen_solo_alerta_con_evidencia() {
    let ahora = 4_000_000;
    let historial_reciente = objeto(vec![(
        "entries",
        Json::Lista(vec![entrada(ahora - 10 * 86_400, "backup-export")]),
    )]);
    let firmware = objeto(vec![("devices", Json::Lista(vec![]))]);
    let privilegios = objeto(vec![("guiUsable", Json::Booleano(true))]);

    assert!(asuntos_resumen(Some(&historial_reciente), Some(&firmware), Some(&privilegios), ahora).is_empty());

    let firmware_pendiente = objeto(vec![("devices", Json::Lista(vec![objeto(vec![("id", texto("uno"))])]))]);
    let historial_vacio = objeto(vec![("entries", Json::Lista(vec![]))]);
    let privilegios_inutiles = objeto(vec![("guiUsable", Json::Booleano(false))]);
    let asuntos = asuntos_resumen(
        Some(&historial_vacio),
        Some(&firmware_pendiente),
        Some(&privilegios_inutiles),
        ahora,
    );

    assert_eq!(asuntos.len(), 3);
    assert_eq!(asuntos[0].destino, "backups");
    assert_eq!(asuntos[1].destino, "firmware");
    assert_eq!(asuntos[2].destino, "maintenance");
}

#[test]
fn mapa_de_navegacion_cubre_las_doce_paginas() {
    for nombre in [
        "summary",
        "updates",
        "hardware",
        "media",
        "storage",
        "firmware",
        "applications",
        "appearance",
        "localization",
        "people",
        "backups",
        "maintenance",
    ] {
        assert!(indice_pagina(nombre).is_some(), "{nombre}");
    }
}

#[test]
fn busqueda_global_encuentra_decisiones_humanas() {
    assert!(terminos_busqueda_pagina("applications").contains("firefox"));
    assert!(terminos_busqueda_pagina("applications").contains("navegador"));
    assert!(terminos_busqueda_pagina("localization").contains("teclado"));
    assert!(terminos_busqueda_pagina("storage").contains("usb"));
    assert!(terminos_busqueda_pagina("hardware").contains("memoria"));
}

#[test]
fn presentacion_curada_oculta_dependencias_y_describe_apps() {
    let datos = objeto(vec![(
        "presentation",
        objeto(vec![(
            "firefox",
            objeto(vec![
                ("name", texto("Firefox")),
                ("description", texto("Navegador web para páginas y enlaces.")),
                ("category", texto("Internet y comunicación")),
            ]),
        )]),
    )]);

    let firefox = presentacion_aplicacion(&datos, "firefox").expect("Firefox debe tener presentación humana");
    assert_eq!(firefox.nombre, "Firefox");
    assert!(!firefox.descripcion.trim().is_empty());
    assert_eq!(firefox.categoria, "Internet y comunicación");

    assert!(presentacion_aplicacion(&datos, "aagl").is_none());
    assert!(presentacion_aplicacion(&datos, "kate").is_none());
    assert!(presentacion_aplicacion(&datos, "android-tools").is_none());
}

#[test]
fn actualizaciones_agrupan_dependencias_sin_perder_targets() {
    let objetivos = vec![
        "aagl".to_string(),
        "aaglStable".to_string(),
        "alejandra".to_string(),
        "hatter".to_string(),
        "millennium".to_string(),
        "nix-flatpak".to_string(),
        "nixpkgs".to_string(),
        "nixpkgsStable".to_string(),
        "noctalia".to_string(),
        "spicetify-nix".to_string(),
    ];
    let aplicaciones = vec!["genshin-impact".to_string(), "spotify".to_string(), "steam".to_string()];

    let unidades = unidades_actualizacion_humanas(&objetivos, &aplicaciones, true);
    let titulos = unidades.iter().map(|unidad| unidad.titulo.as_str()).collect::<Vec<_>>();

    assert_eq!(
        titulos,
        ["Sistema y aplicaciones", "Juegos instalados", "Spotify", "Steam", "Noctalia"]
    );

    for titulo in &titulos {
        assert!(![
            "aagl",
            "aaglStable",
            "alejandra",
            "hatter",
            "millennium",
            "nix-flatpak",
            "nixpkgs",
            "nixpkgsStable",
            "spicetify-nix"
        ]
        .contains(titulo));
    }

    let mut reconstruidos = unidades.into_iter().flat_map(|unidad| unidad.targets).collect::<Vec<_>>();
    reconstruidos.sort();

    let mut esperados = objetivos;
    esperados.sort();

    assert_eq!(reconstruidos, esperados);
}

#[test]
fn aagl_no_se_convierte_en_fila_si_no_hay_juego_elegido() {
    let objetivos = vec!["aagl".to_string(), "aaglStable".to_string(), "nixpkgs".to_string()];

    let unidades = unidades_actualizacion_humanas(&objetivos, &[], false);
    assert_eq!(unidades.len(), 1);
    assert_eq!(unidades[0].titulo, "Sistema y aplicaciones");
    assert_eq!(unidades[0].targets.len(), 3);
}

#[test]
fn noctalia_solo_es_unidad_visible_si_hay_niri_o_hyprland() {
    let objetivos = vec!["nixpkgs".to_string(), "noctalia".to_string()];

    let sin_noctalia = unidades_actualizacion_humanas(&objetivos, &[], false);
    assert_eq!(sin_noctalia.len(), 1);
    assert_eq!(sin_noctalia[0].titulo, "Sistema y aplicaciones");
    assert_eq!(sin_noctalia[0].targets.len(), 2);

    let con_noctalia = unidades_actualizacion_humanas(&objetivos, &[], true);
    assert_eq!(
        con_noctalia.iter().map(|unidad| unidad.titulo.as_str()).collect::<Vec<_>>(),
        ["Sistema y aplicaciones", "Noctalia"]
    );
}

#[test]
fn resultados_externos_conservan_fuente_sin_usarla_como_nombre() {
    let datos = objeto(vec![(
        "results",
        objeto(vec![(
            "legacyPackages.x86_64-linux.demo",
            objeto(vec![("pname", texto("Demo")), ("description", texto("Aplicación de ejemplo"))]),
        )]),
    )]);

    let resultados = resultados_aplicaciones_externas(&datos, "nixpkgs");
    assert_eq!(resultados.len(), 1);
    assert_eq!(resultados[0].nombre, "Demo");
    assert_eq!(resultados[0].fuente, "nixpkgs");
    assert_eq!(resultados[0].descripcion, "Aplicación de ejemplo");
}

#[test]
fn un_navegador_instalado_no_se_asume() {
    let instaladas = vec!["firefox".to_string()];
    let (ids, seleccionado) = opciones_navegador_ids(&instaladas, None);

    assert_eq!(seleccionado, 0);
    assert_eq!(ids, vec!["".to_string(), "firefox".to_string()]);
}

#[test]
fn navegador_actual_se_conserva_aunque_no_este_instalado() {
    let instaladas = vec!["firefox".to_string()];
    let (ids, seleccionado) = opciones_navegador_ids(&instaladas, Some("google-chrome"));

    assert_eq!(ids[seleccionado as usize], "google-chrome");
}

#[test]
fn cambio_parcial_no_reenvia_el_editor() {
    let argumentos = argumentos_cambio_roles(
        "persona",
        Some("firefox"),
        Some("google-chrome"),
        Some("kate"),
        Some("kate"),
        true,
    )
    .expect("debe existir un cambio");

    assert!(argumentos
        .windows(2)
        .any(|par| { par == ["--browser".to_string(), "google-chrome".to_string()] }));
    assert!(!argumentos.iter().any(|valor| valor == "--plasma-text-editor"));
    assert!(argumentos.iter().any(|valor| valor == "--plan"));
    assert!(argumentos.iter().any(|valor| valor == "--json"));
}

#[test]
fn editor_plasma_no_se_asume_si_falta_eleccion() {
    let (ids, seleccionado) = opciones_editor_plasma_ids(None);

    assert_eq!(seleccionado, 0);
    assert_eq!(ids[0], "");
    assert_eq!(ids[1], "kwrite");
    assert_eq!(ids[2], "kate");
}
