use korunix_interfaz::actualizaciones::{
    argumentos_actualizar, canal_declarado, decision_actualizar_seleccion, decision_canal, objetivos_plan,
    seleccion_canal, DecisionCanal, DecisionSeleccion,
};
use korunix_interfaz::actualizaciones::unidades_actualizacion_humanas;
use korunix_interfaz::almacenamiento::{pregunta_expulsion, tamanos_legibles};
use korunix_interfaz::aplicaciones::resultados_aplicaciones_externas;
use korunix_interfaz::cadena::reemplazar;
use korunix_interfaz::catalogo::{
    argumentos_aplicacion, argumentos_busqueda_externa, catalogo_por_categorias, externa_activa, filtrar_catalogo,
    fuentes_externas, pregunta_aplicacion,
};
use korunix_interfaz::copias::{
    actividad_reciente, argumentos_exportar, argumentos_restaurar, estado_copia_portable, mensaje_copia_creada,
};
use korunix_interfaz::escritorio::{ajustes_apariencia, cambiar_principal, marcas_iniciales};
use korunix_interfaz::firmware::{argumentos_firmware, argumentos_refrescar_firmware};
use korunix_interfaz::idioma::Idioma;
use korunix_interfaz::json::{leer_respuesta, Campo, Json, Numero};
use korunix_interfaz::mantenimiento::filas_recuperacion;
use korunix_interfaz::plantilla::catalogo_de_texto;
use korunix_interfaz::textos::progreso::texto_progreso;
use korunix_interfaz::localizacion::{
    ajustes_localizacion, argumentos_localizacion, resumen_localizacion, teclado_visible,
};
use korunix_interfaz::mantenimiento::{argumentos_limpieza, argumentos_recuperacion, pregunta_limpieza, resumen_limpieza};
use korunix_interfaz::medios::{
    argumentos_camara, argumentos_grabar, argumentos_medir, argumentos_predeterminar, argumentos_prueba_salida,
    argumentos_reproducir, argumentos_silenciar, argumentos_volumen, camaras_visibles, detalle_camara,
    detalle_fin_camara, fallo_camara, fin_prueba_camara, ruta_grabacion, seccion_audio, subtitulo_prueba_camara,
    titulo_prueba_camara, EstadoCamara, BYTES_POR_CUADRO,
};
use korunix_interfaz::motor::{
    etapa_inicial_motor,
    es_operacion_multimedia, leer_nivel_microfono, resultado_medicion, resultado_motor,
};
use korunix_interfaz::navegacion::{filtrar_paginas, paginas_laterales, terminos_fila, indice_pagina, clave_titulo_pagina};
use korunix_interfaz::personas::{cuentas_visibles, decision_crear_persona, DecisionPersona};
use korunix_interfaz::resumen::estado_general;
use korunix_interfaz::textos::camara::{c_busy, c_detail, c_title};
use korunix_interfaz::textos::dispositivos::{
    camara_usb_disponible, modos_disponibles, nodo_predeterminado, prueba_camara_esperando, prueba_camara_modo,
};
use korunix_interfaz::textos::interfaz::texto;

fn texto_json(t: &str) -> Json {
    Json::Texto(t.to_string())
}

fn numero(n: u64) -> Json {
    Json::Numero(Numero { natural: Some(n), entero: i64::try_from(n).ok(), texto: n.to_string() })
}

fn objeto(miembros: Vec<(&str, Json)>) -> Json {
    Json::Objeto(
        miembros
            .into_iter()
            .map(|(clave, valor)| Campo { clave: clave.to_string(), valor })
            .collect(),
    )
}

fn textos(v: &[&str]) -> Vec<String> {
    v.iter().map(|t| t.to_string()).collect()
}

// Side bar and search

#[test]
fn barra_lateral_coherente_con_los_nombres() {
    let paginas = paginas_laterales();
    assert_eq!(paginas.len(), 12);
    for (i, (nombre, clave, _)) in paginas.iter().enumerate() {
        assert_eq!(indice_pagina(nombre), Some(i as i32));
        assert_eq!(clave_titulo_pagina(nombre), *clave);
    }
}

#[test]
fn busqueda_lateral_filtra_y_selecciona_visible() {
    let terminos = vec![
        terminos_fila("Resumen", "summary"),
        terminos_fila("Aplicaciones", "applications"),
        terminos_fila("Almacenamiento", "storage"),
    ];
    assert!(terminos[1].starts_with("aplicaciones "));
    assert!(terminos[1].contains("firefox"));

    let r = filtrar_paginas("  FIREFOX ", &terminos, Some(0));
    assert_eq!(r.visibles, vec![false, true, false]);
    assert!(!r.ninguna);
    assert_eq!(r.nueva_seleccion, Some(Some(1)));

    let r = filtrar_paginas("firefox", &terminos, Some(1));
    assert_eq!(r.nueva_seleccion, None);

    let r = filtrar_paginas("   ", &terminos, None);
    assert_eq!(r.visibles, vec![true, true, true]);
    assert_eq!(r.nueva_seleccion, Some(Some(0)));

    let r = filtrar_paginas("zzz", &terminos, Some(2));
    assert!(r.ninguna);
    assert_eq!(r.nueva_seleccion, Some(None));
}

// Media

fn audio_de_prueba() -> Json {
    objeto(vec![
        (
            "sinks",
            Json::Lista(vec![
                objeto(vec![("id", numero(40)), ("name", texto_json("alsa_output.pci")), ("muted", Json::Booleano(true))]),
                objeto(vec![("id", numero(41)), ("name", texto_json("hdmi"))]),
                objeto(vec![("name", texto_json("sin id"))]),
            ]),
        ),
        ("defaults", objeto(vec![("sinkId", numero(41))])),
        (
            "pulse",
            objeto(vec![(
                "sinks",
                Json::Lista(vec![objeto(vec![
                    ("index", numero(40)),
                    ("description", texto_json("Auriculares USB")),
                ])]),
            )]),
        ),
    ])
}

#[test]
fn seccion_de_salidas_de_audio() {
    let audio = audio_de_prueba();
    let s = seccion_audio(Idioma::Espanol, &audio, true);
    assert_eq!(s.ids, vec![40, 41]);
    assert_eq!(s.etiquetas.len(), 2);
    assert_eq!(s.etiquetas[0], "Auriculares USB");
    assert_eq!(s.seleccion, 1);
    assert!(s.selector);
    assert_eq!(s.filas.len(), 2);
    assert_eq!(s.filas[0].posicion, 0);
    assert!(s.filas[0].silenciado);
    assert!(!s.filas[0].predeterminado);
    assert_eq!(s.filas[0].subtitulo, texto(Idioma::Espanol, "volume"));
    assert!(s.filas[1].predeterminado);
    assert_eq!(s.filas[1].subtitulo, nodo_predeterminado(Idioma::Espanol));

    let entradas = seccion_audio(Idioma::Espanol, &audio, false);
    assert!(entradas.ids.is_empty());
    assert!(!entradas.selector);
    assert_eq!(entradas.seleccion, 0);
}

#[test]
fn camaras_sin_nombres_repetidos() {
    let datos = objeto(vec![(
        "cameras",
        objeto(vec![(
            "devices",
            Json::Lista(vec![
                objeto(vec![
                    ("card", texto_json("HD Webcam")),
                    ("bus", texto_json("USB-3")),
                    ("available", Json::Booleano(true)),
                    ("device", texto_json("/dev/video0")),
                ]),
                objeto(vec![("card", texto_json("HD Webcam")), ("device", texto_json("/dev/video1"))]),
                objeto(vec![("card", texto_json("")), ("virtual", Json::Booleano(true))]),
            ]),
        )]),
    )]);
    let camaras = camaras_visibles(&datos);
    assert_eq!(camaras.len(), 2);
    assert_eq!(camaras[0].titulo, "HD Webcam");
    assert_eq!(camaras[0].estado, EstadoCamara::UsbDisponible);
    assert_eq!(camaras[0].dispositivo.as_deref(), Some("/dev/video0"));
    assert_eq!(camaras[1].posicion, 2);
    assert_eq!(camaras[1].titulo, "Cámara");
    assert_eq!(camaras[1].estado, EstadoCamara::VirtualEsperando);
    assert_eq!(camaras[1].dispositivo, None);

    assert_eq!(
        detalle_camara(Idioma::Espanol, EstadoCamara::UsbDisponible, ""),
        camara_usb_disponible(Idioma::Espanol)
    );
    assert_eq!(
        detalle_camara(Idioma::Espanol, EstadoCamara::UsbDisponible, "1280×720"),
        format!("{} · 1280×720", camara_usb_disponible(Idioma::Espanol))
    );
    assert_eq!(subtitulo_prueba_camara(Idioma::Espanol, false, "x"), prueba_camara_esperando(Idioma::Espanol));
    assert_eq!(
        subtitulo_prueba_camara(Idioma::Espanol, true, ""),
        format!("{} · {}", c_detail(Idioma::Espanol), prueba_camara_modo(Idioma::Espanol))
    );
    assert_eq!(
        subtitulo_prueba_camara(Idioma::Espanol, true, "640×480"),
        format!(
            "{} · {} · {}: 640×480",
            c_detail(Idioma::Espanol),
            prueba_camara_modo(Idioma::Espanol),
            modos_disponibles(Idioma::Espanol)
        )
    );
}

#[test]
fn ordenes_de_multimedia() {
    assert_eq!(argumentos_predeterminar(true, 41), textos(&["media", "audio", "default", "sink", "41"]));
    assert_eq!(argumentos_predeterminar(false, 7), textos(&["media", "audio", "default", "source", "7"]));
    assert_eq!(argumentos_silenciar(40, true), textos(&["media", "audio", "mute", "40", "1"]));
    assert_eq!(argumentos_volumen(40, "85%"), textos(&["media", "audio", "volume", "40", "85%"]));
    assert_eq!(
        argumentos_prueba_salida(41, "left"),
        textos(&["media", "audio", "test-output", "41", "--channel", "left", "--seconds", "2", "--yes", "--json"])
    );
    assert_eq!(
        argumentos_grabar(7),
        textos(&["media", "mic", "record", "7", "--seconds", "3", "--yes", "--json"])
    );
    assert_eq!(argumentos_medir(7), textos(&["media", "mic", "meter", "7", "--seconds", "1", "--yes", "--json"]));
    assert_eq!(
        argumentos_reproducir("/tmp/x.wav"),
        textos(&["media", "mic", "play", "/tmp/x.wav", "--delete", "--yes", "--json"])
    );
    assert_eq!(ruta_grabacion(&objeto(vec![("path", texto_json("/tmp/x.wav"))])), Some("/tmp/x.wav".to_string()));
    assert_eq!(ruta_grabacion(&objeto(vec![])), None);
    assert_eq!(
        argumentos_camara("/dev/video0"),
        textos(&["media", "camera", "stream", "/dev/video0", "--width", "640", "--height", "360"])
    );
    assert_eq!(BYTES_POR_CUADRO, 640 * 360 * 4);
    assert_eq!(titulo_prueba_camara(Idioma::Ingles, "Cam"), format!("{} · Cam", c_title(Idioma::Ingles)));
}

#[test]
fn fin_de_la_prueba_de_camara() {
    assert_eq!(detalle_fin_camara("leyendo", "  sin permiso \n"), "sin permiso");
    assert_eq!(detalle_fin_camara("leyendo", "  "), "leyendo");
    assert_eq!(fin_prueba_camara(true, Some(false), "x"), Ok(()));
    assert_eq!(fin_prueba_camara(false, Some(true), "x"), Ok(()));
    assert_eq!(
        fin_prueba_camara(false, None, ""),
        Err("La previsualización de la cámara terminó inesperadamente.".to_string())
    );
    assert_eq!(fin_prueba_camara(false, Some(false), "fallo"), Err("fallo".to_string()));
    assert_eq!(fallo_camara(Idioma::Espanol, "Device or resource BUSY"), (c_busy(Idioma::Espanol).to_string(), false));
    assert_eq!(fallo_camara(Idioma::Espanol, "otra cosa"), ("otra cosa".to_string(), true));
}

#[test]
fn niveles_y_resultados_del_motor() {
    assert_eq!(leer_nivel_microfono("KORUNIX_MIC_LEVEL\t 42 "), Some(42));
    assert_eq!(leer_nivel_microfono("KORUNIX_MIC_LEVEL\t200"), Some(100));
    assert_eq!(leer_nivel_microfono("KORUNIX_MIC_LEVEL\tx"), None);
    assert_eq!(leer_nivel_microfono("otra"), None);
    assert_eq!(resultado_medicion(false, true, &vec![]), Ok(()));
    assert_eq!(resultado_medicion(false, false, &vec![]), Err("No se pudo medir el micrófono.".to_string()));
    assert_eq!(resultado_medicion(false, false, &textos(&["a", "b"])), Err("a\nb".to_string()));
    assert_eq!(resultado_motor(true, "  {}\n", &textos(&["ruido"])), Ok("{}".to_string()));
    assert_eq!(resultado_motor(false, "{}", &vec![]), Err("El motor terminó con error.".to_string()));
    assert!(es_operacion_multimedia(&["media", "audio"]));
    assert!(!es_operacion_multimedia(&["update", "--json"]));
    assert!(!es_operacion_multimedia(&[]));
}

// Localization

#[test]
fn localizacion_actual_y_su_cambio() {
    let datos = objeto(vec![(
        "declared",
        objeto(vec![
            ("systemLanguage", texto_json("es_PE.UTF-8")),
            ("region", texto_json("PE")),
            ("timeZone", texto_json("America/Lima")),
            ("keyboard", objeto(vec![("variant", texto_json("deadtilde"))])),
        ]),
    )]);
    let a = ajustes_localizacion(&datos);
    assert_eq!(a.idioma, "es_PE.UTF-8");
    assert_eq!(a.teclado, "es");
    assert_eq!(a.variante, "deadtilde");
    assert_eq!(a.formatos_idioma, "es_PE.UTF-8");
    assert_eq!(a.formatos_region, "PE");
    assert_eq!(
        resumen_localizacion(Idioma::Espanol, &a),
        format!("Español · Perú · Lima, Perú · {}", korunix_interfaz::textos::lugares::teclado_es(Idioma::Espanol))
    );
    assert_eq!(
        teclado_visible(Idioma::Espanol, "us", ""),
        format!("{} · Predeterminada", korunix_interfaz::textos::lugares::teclado_us(Idioma::Espanol))
    );
    assert_eq!(
        argumentos_localizacion(" es_PE.UTF-8 ", "PE", "es", "PE", "America/Lima", "latam", ""),
        textos(&[
            "localization",
            "set",
            "--language",
            "es_PE.UTF-8",
            "--region",
            "PE",
            "--formats-language",
            "es",
            "--formats-region",
            "PE",
            "--timezone",
            "America/Lima",
            "--keyboard",
            "latam",
            "--variant",
            "",
            "--plan",
            "--json"
        ])
    );
}

// Updates

#[test]
fn actualizar_seleccion_y_canal() {
    let plan = objeto(vec![("targets", Json::Lista(vec![texto_json("nixpkgs"), numero(1), texto_json("aagl")]))]);
    assert_eq!(objetivos_plan(&plan), textos(&["nixpkgs", "aagl"]));

    let ninguna = vec![(textos(&["nixpkgs"]), false)];
    assert!(matches!(decision_actualizar_seleccion(&ninguna), DecisionSeleccion::NingunArea));
    let vacia = vec![(Vec::new(), true)];
    assert!(matches!(decision_actualizar_seleccion(&vacia), DecisionSeleccion::NingunArea));

    let unidades = vec![(textos(&["nixpkgs", "aagl"]), true), (textos(&["noctalia"]), true), (textos(&["x"]), false)];
    match decision_actualizar_seleccion(&unidades) {
        DecisionSeleccion::Actualizar { objetivos, plan, pregunta, ejecucion } => {
            assert_eq!(objetivos, textos(&["aagl", "nixpkgs", "noctalia"]));
            assert_eq!(plan, textos(&["update", "aagl", "nixpkgs", "noctalia", "--plan", "--json"]));
            assert_eq!(ejecucion, textos(&["update", "aagl", "nixpkgs", "noctalia", "--json"]));
            assert_eq!(
                pregunta,
                "¿Actualizar las 2 áreas seleccionadas? Korunix incluirá sus dependencias compatibles automáticamente."
            );
        }
        DecisionSeleccion::NingunArea => panic!("se esperaba una actualización"),
    }
    assert_eq!(argumentos_actualizar(&vec![], true), textos(&["update", "--plan", "--json"]));
    assert_eq!(argumentos_actualizar(&vec![], false), textos(&["update", "--json"]));

    assert_eq!(canal_declarado(&objeto(vec![("declared", texto_json("unstable"))])), "unstable");
    assert_eq!(canal_declarado(&objeto(vec![("declared", texto_json("beta"))])), "stable");
    assert_eq!(seleccion_canal("unstable"), 1);
    assert!(matches!(decision_canal("stable", 0), DecisionCanal::SinCambio));
    match decision_canal("stable", 1) {
        DecisionCanal::Cambiar { plan, ejecucion } => {
            assert_eq!(plan, textos(&["channel", "unstable", "--plan", "--json"]));
            assert_eq!(ejecucion, textos(&["channel", "unstable", "--yes"]));
        }
        DecisionCanal::SinCambio => panic!("se esperaba un cambio de canal"),
    }
}

// Backups

#[test]
fn copias_e_historial() {
    let ahora = 10 * 86_400;
    let mut entradas = Vec::new();
    for i in 0..14u64 {
        entradas.push(objeto(vec![
            ("summary", texto_json(&format!("acción {i}"))),
            ("timestamp", numero(ahora - 3_600 * (14 - i))),
            ("kind", texto_json(if i == 3 { "backup-export" } else { "otra" })),
        ]));
    }
    entradas.push(objeto(vec![]));
    let historial = objeto(vec![("entries", Json::Lista(entradas))]);
    let a = actividad_reciente(&historial, ahora);
    assert_eq!(a.filas.len(), 12);
    assert_eq!(a.filas[0], ("Acción de Korunix".to_string(), String::new()));
    assert_eq!(a.filas[1], ("acción 13".to_string(), "Hace 1 h".to_string()));
    assert_eq!(a.nota, Some("Mostrando las 12 acciones más recientes de 15 registradas.".to_string()));
    assert_eq!(estado_copia_portable(&historial, ahora), "Hace 11 h · No incluye contraseñas ni credenciales.");
    assert_eq!(
        estado_copia_portable(&objeto(vec![]), ahora),
        "Todavía no has creado una copia portable de esta configuración."
    );
    assert!(actividad_reciente(&objeto(vec![]), ahora).nota.is_none());

    assert_eq!(argumentos_exportar(true), textos(&["backup", "export", "--plan", "--json"]));
    assert_eq!(mensaje_copia_creada(&objeto(vec![("output", texto_json("/home/ana/k.tar"))])), "Copia creada en /home/ana/k.tar");
    assert_eq!(mensaje_copia_creada(&objeto(vec![])), "Copia creada en Descargas");
    assert_eq!(argumentos_restaurar("  ", true), None);
    assert_eq!(
        argumentos_restaurar(" /tmp/k.tar ", false),
        Some(textos(&["backup", "restore", "/tmp/k.tar", "--yes", "--json"]))
    );
}

// People

#[test]
fn personas_y_creacion_de_cuentas() {
    let datos = objeto(vec![(
        "accounts",
        Json::Lista(vec![
            objeto(vec![
                ("displayName", texto_json("Ana")),
                ("accountName", texto_json("ana")),
                ("status", texto_json("managed")),
            ]),
            objeto(vec![("accountName", texto_json("luis"))]),
            objeto(vec![]),
        ]),
    )]);
    let cuentas = cuentas_visibles(Idioma::Ingles, &datos);
    assert_eq!(
        cuentas,
        vec![
            ("Ana".to_string(), "ana · Main user".to_string()),
            ("luis".to_string(), "luis".to_string()),
            ("—".to_string(), "—".to_string()),
        ]
    );

    let vacia = decision_crear_persona("ana", "Ana", "", "", "", 0);
    assert!(matches!(vacia, DecisionPersona::ContrasenaVacia));
    assert_eq!(vacia.mensaje(), Some("La contraseña no puede estar vacía."));
    let distintas = decision_crear_persona("ana", "Ana", "a", "b", "", 0);
    assert_eq!(distintas.mensaje(), Some("Las contraseñas no coinciden."));
    match decision_crear_persona(" ana ", " Ana ", "clave", "clave", " /img/a.png ", 1) {
        DecisionPersona::Crear { plan, pregunta, ejecucion, contrasena, entrada } => {
            assert_eq!(
                plan,
                textos(&[
                    "users", "create", "--account", "ana", "--name", "Ana", "--role", "admin", "--avatar", "/img/a.png",
                    "--plan", "--json"
                ])
            );
            assert_eq!(
                ejecucion,
                textos(&[
                    "users", "create", "--account", "ana", "--name", "Ana", "--role", "admin", "--avatar", "/img/a.png",
                    "--yes", "--json"
                ])
            );
            assert_eq!(pregunta, "¿Crear la cuenta «ana» y aplicar la configuración?");
            assert_eq!(contrasena, textos(&["users", "password-stdin", "ana", "--yes", "--json"]));
            assert_eq!(entrada, "clave\n");
        }
        _ => panic!("se esperaba la creación"),
    }
}

// Applications

#[test]
fn catalogo_agrupado_y_busqueda() {
    let presentacion = |n: &str, d: &str, c: &str| {
        objeto(vec![("name", texto_json(n)), ("description", texto_json(d)), ("category", texto_json(c))])
    };
    let datos = objeto(vec![
        ("catalog", Json::Lista(vec![texto_json("gimp"), texto_json("firefox"), texto_json("aagl"), texto_json("thunderbird")])),
        ("selected", Json::Lista(vec![texto_json("firefox"), texto_json("flatpak:org.demo")])),
        (
            "presentation",
            objeto(vec![
                ("firefox", presentacion("Firefox", "Navegador web", "Internet y comunicación")),
                ("thunderbird", presentacion("Thunderbird", "Correo", "Internet y comunicación")),
                ("gimp", presentacion("GIMP", "Imágenes", "Diseño")),
            ]),
        ),
    ]);
    let grupos = catalogo_por_categorias(&datos);
    assert_eq!(grupos.len(), 2);
    assert_eq!(grupos[0].categoria, "Internet y comunicación");
    assert_eq!(grupos[0].filas.len(), 2);
    assert_eq!(grupos[0].filas[0].id, "firefox");
    assert!(grupos[0].filas[0].activa);
    assert!(!grupos[0].filas[1].activa);
    assert_eq!(grupos[0].filas[0].huella, "firefox navegador web internet y comunicación");
    assert_eq!(grupos[1].categoria, "Diseño");

    let huellas = grupos.iter().map(|g| g.filas.iter().map(|f| f.huella.clone()).collect()).collect();
    let filtro = filtrar_catalogo(" CORREO ", &huellas);
    assert_eq!(filtro.filas, vec![vec![false, true], vec![false]]);
    assert_eq!(filtro.grupos, vec![true, false]);
    assert!(filtro.buscar_mas);
    let todo = filtrar_catalogo("", &huellas);
    assert_eq!(todo.grupos, vec![true, true]);
    assert!(!todo.buscar_mas);

    assert_eq!(fuentes_externas(), vec!["nixpkgs", "flatpak"]);
    assert_eq!(
        argumentos_busqueda_externa(" demo ", "flatpak"),
        Some(textos(&["applications", "search", "demo", "--source", "flatpak", "--json"]))
    );
    assert_eq!(argumentos_busqueda_externa("  ", "flatpak"), None);
    assert!(externa_activa(&textos(&["flatpak:org.demo"]), "flatpak", "org.demo"));
    assert!(!externa_activa(&textos(&["flatpak:org.demo"]), "nixpkgs", "org.demo"));
    assert_eq!(
        argumentos_aplicacion("gimp", false, "curated", true),
        textos(&["applications", "set", "gimp", "on", "--source", "curated", "--plan", "--json"])
    );
    assert_eq!(
        argumentos_aplicacion("gimp", true, "curated", false),
        textos(&["applications", "set", "gimp", "off", "--source", "curated", "--yes", "--json"])
    );
    assert_eq!(pregunta_aplicacion("GIMP", "Imágenes", false), "¿Instalar «GIMP»? Imágenes");
    assert_eq!(
        pregunta_aplicacion("GIMP", "Imágenes", true),
        "¿Eliminar «GIMP»? Korunix retirará esta aplicación de la configuración del equipo."
    );
}

// Appearance and desktops

#[test]
fn escritorios_y_sus_marcas() {
    let apariencia = objeto(vec![
        ("styles", Json::Lista(vec![texto_json("default"), texto_json("everforest")])),
        ("modes", Json::Lista(vec![texto_json("auto"), texto_json("dark")])),
        ("declared", objeto(vec![("mode", texto_json("dark"))])),
    ]);
    let escritorio = objeto(vec![
        ("catalog", Json::Lista(vec![texto_json("niri"), texto_json("plasma"), texto_json("hyprland")])),
        ("desktop", objeto(vec![("additional", Json::Lista(vec![texto_json("hyprland")]))])),
    ]);
    let a = ajustes_apariencia(&apariencia, &escritorio);
    assert_eq!(a.estilo, "default");
    assert_eq!(a.modo, "dark");
    assert_eq!(a.principal, "niri");
    assert_eq!(a.adicionales, textos(&["hyprland"]));
    let mut marcas = marcas_iniciales(&a.catalogo, &a.principal, &a.adicionales);
    assert_eq!(marcas, vec![(true, false), (false, true), (true, true)]);
    cambiar_principal(&a.catalogo, &mut marcas, "plasma", "niri");
    assert_eq!(marcas, vec![(false, true), (true, false), (true, true)]);
}

// Firmware, maintenance, storage and summary

#[test]
fn ordenes_de_firmware_mantenimiento_y_almacenamiento() {
    assert_eq!(argumentos_firmware("a1", true), textos(&["firmware", "update", "a1", "--plan", "--json"]));
    assert_eq!(argumentos_refrescar_firmware(), textos(&["firmware", "refresh", "--yes", "--json"]));

    let plan = objeto(vec![
        ("delete", Json::Lista(vec![Json::Nulo, Json::Nulo, Json::Nulo])),
        ("keep", Json::Lista(vec![Json::Nulo])),
    ]);
    assert_eq!(
        resumen_limpieza(&plan, false),
        (
            3,
            "Conserva 1 versiones útiles para recuperación y puede retirar 3 versiones antiguas. También recoge referencias sin uso y optimiza el almacén de Nix.".to_string()
        )
    );
    assert_eq!(
        resumen_limpieza(&objeto(vec![]), true),
        (0, "Conserva 0 versiones protegidas y puede retirar 0 versiones antiguas adicionales.".to_string())
    );
    assert_eq!(
        pregunta_limpieza(true, 4),
        "¿Hacer una limpieza profunda? Korunix conservará las versiones protegidas y retirará 4 versiones antiguas que no lo están."
    );
    assert_eq!(argumentos_limpieza(true), textos(&["clean-all", "--yes", "--json"]));
    assert_eq!(argumentos_recuperacion(12, true), textos(&["rollback", "12", "--plan", "--json"]));
    assert!(pregunta_expulsion(true).starts_with("¿Expulsar esta unidad? Korunix esperará"));

    assert_eq!(estado_general(0).0, "Todo está bien");
    assert_eq!(
        estado_general(1),
        ("Hay un asunto que revisar".to_string(), "1 área requieren tu atención.".to_string())
    );
    assert_eq!(estado_general(3).1, "3 áreas requieren tu atención.");
}

#[test]
fn unidades_reparten_cada_target_una_vez() {
    let objetivos = textos(&["nixpkgs", "aagl", "spicetify-nix", "millennium", "noctalia", "home-manager"]);
    let apps = textos(&["genshin-impact", "spotify", "steam"]);
    let unidades = unidades_actualizacion_humanas(&objetivos, &apps, true);
    let titulos: Vec<&str> = unidades.iter().map(|u| u.titulo.as_str()).collect();
    assert_eq!(titulos, vec!["Sistema y aplicaciones", "Juegos instalados", "Spotify", "Steam", "Noctalia"]);
    assert!(unidades.iter().all(|u| !u.targets.is_empty()));
    let mut todos: Vec<String> = unidades.iter().flat_map(|u| u.targets.iter().cloned()).collect();
    let mut esperados = objetivos.clone();
    todos.sort();
    esperados.sort();
    assert_eq!(todos, esperados);
}

#[test]
fn unidades_sin_sistema_cuando_todo_es_de_otra_unidad() {
    let unidades = unidades_actualizacion_humanas(&textos(&["millennium"]), &textos(&["steam"]), false);
    let titulos: Vec<&str> = unidades.iter().map(|u| u.titulo.as_str()).collect();
    assert_eq!(titulos, vec!["Steam"]);
}

#[test]
fn resultados_externos_tienen_fuente_descripcion_y_tope() {
    let items: Vec<Json> = (0..50)
        .map(|i| objeto(vec![("id", texto_json(&format!("app{i}"))), ("description", texto_json("  "))]))
        .collect();
    let datos = objeto(vec![("results", Json::Lista(items))]);
    let r = resultados_aplicaciones_externas(&datos, "flathub");
    assert_eq!(r.len(), 40);
    assert!(r.iter().all(|x| x.fuente == "flathub"));
    assert_eq!(r[0].descripcion, "Instala app0 como aplicación adicional.");
    let nada = objeto(vec![("results", texto_json("x"))]);
    assert!(resultados_aplicaciones_externas(&nada, "flathub").is_empty());
}

#[test]
fn reemplazo_con_patron_vacio_intercala() {
    assert_eq!(reemplazar("ab", "", "-"), "-a-b-");
    assert_eq!(reemplazar("", "", "-"), "-");
    assert_eq!(reemplazar("a~1b~1", "~1", "/"), "a/b/");
}

#[test]
fn tamanos_legibles_detecta_sufijo_no_ascii() {
    let bien = objeto(vec![("devices", Json::Lista(vec![objeto(vec![("size", texto_json("1,8T"))])]))]);
    let mal = objeto(vec![("devices", Json::Lista(vec![objeto(vec![("size", texto_json("1,8ñ"))])]))]);
    assert!(tamanos_legibles(&bien));
    assert!(!tamanos_legibles(&mal));
    assert!(tamanos_legibles(&objeto(vec![])));
}

#[test]
fn respuesta_del_motor_se_lee_como_json() {
    let leido = leer_respuesta(r#"{"b": [1, -2, "x"], "a": null}"#).expect("JSON");
    let Json::Objeto(campos) = leido else { panic!("objeto") };
    assert_eq!(campos.len(), 2);
    assert_eq!(campos[0].clave, "a");
    assert!(matches!(campos[0].valor, Json::Nulo));
    let Json::Lista(v) = &campos[1].valor else { panic!("lista") };
    assert_eq!(v.len(), 3);
    assert_eq!(v[0].como_u64(), Some(1));
    let Json::Numero(n) = &v[1] else { panic!("número") };
    assert_eq!((n.natural, n.entero, n.texto.as_str()), (None, Some(-2), "-2"));
    assert_eq!(v[2].como_texto(), Some("x"));
}

#[test]
fn respuesta_que_no_es_json_no_se_lee() {
    assert!(leer_respuesta("no es json").is_none());
}

#[test]
fn catalogo_se_lee_de_su_archivo() {
    let c = catalogo_de_texto(r#"{"Hola": "Hello", "Adiós": "Bye"}"#);
    assert_eq!(c, vec![("Adiós".to_string(), "Bye".to_string()), ("Hola".to_string(), "Hello".to_string())]);
    assert!(catalogo_de_texto(r#"{"Hola": "Hello", "n": 3}"#).is_empty());
    assert!(catalogo_de_texto("[1]").is_empty());
    assert!(catalogo_de_texto("{").is_empty());
}

#[test]
fn titulos_de_pagina_siempre_traducidos() {
    for idioma in [Idioma::Kurdo, Idioma::Espanol, Idioma::ChinoSimplificado, Idioma::Ingles] {
        for nombre in ["firmware", "appearance", "backups", "maintenance", "desconocida"] {
            assert_ne!(texto(idioma, clave_titulo_pagina(nombre)), "Korunix");
        }
    }
    assert_eq!(clave_titulo_pagina("desconocida"), "summary");
}

#[test]
fn etapas_iniciales_traducidas() {
    let etapa = etapa_inicial_motor(&["clean-all", "--yes", "--json"]).expect("etapa");
    assert_eq!(etapa, "cleaning_versions");
    assert_ne!(texto_progreso(Idioma::Kurdo, etapa), "Korunix");
}

#[test]
fn recuperacion_muestra_las_tres_mas_recientes() {
    let generacion = |id: u64| objeto(vec![("id", numero(id))]);
    let datos = objeto(vec![(
        "generations",
        Json::Lista(vec![generacion(1), generacion(2), objeto(vec![]), generacion(3), generacion(4)]),
    )]);
    let filas = filas_recuperacion(&datos, &[]);
    let ids: Vec<u32> = filas.iter().map(|f| f.id).collect();
    assert_eq!(ids, vec![4, 3, 2]);
    assert!(filas[0].detalle.ends_with("Disponible hasta la próxima limpieza"));
    let conservada = filas_recuperacion(&datos, &[3]);
    assert!(conservada[1].detalle.ends_with("Conservada para recuperación"));
}

#[test]
fn resultados_externos_se_nombran_por_id_y_nombre() {
    let datos = objeto(vec![(
        "results",
        Json::Lista(vec![
            objeto(vec![("id", texto_json("org.app")), ("name", texto_json(" "))]),
            objeto(vec![("name", texto_json("sin id"))]),
            objeto(vec![("id", texto_json("b")), ("name", texto_json("Bee")), ("description", texto_json("Una"))]),
        ]),
    )]);
    let r = resultados_aplicaciones_externas(&datos, "flathub");
    assert_eq!(r.len(), 2);
    assert_eq!((r[0].id.as_str(), r[0].nombre.as_str()), ("org.app", "org.app"));
    assert_eq!(r[0].descripcion, "Instala org.app como aplicación adicional.");
    assert_eq!((r[1].nombre.as_str(), r[1].descripcion.as_str()), ("Bee", "Una"));
}
