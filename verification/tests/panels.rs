use lazarobox_img::app::browser::{Browser, DirItem};
use lazarobox_img::app::controller::AppController;
use lazarobox_img::app::state::{InspectState, MetaField, OptimizeField, OptimizeStep, OptimizeSummary, Screen, UpdateState};
use lazarobox_img::converter::Conversion;
use lazarobox_img::inspector::ImageInfo;
use lazarobox_img::metadata::image::{GpsCoordinate, ImageMetadata, Rational};
use lazarobox_img::metadata::types::{MetadataField, MetadataStatus};
use lazarobox_img::screens::bodies::{
    convert_result_lines, folder_line, format_line, inspect_result_lines, listing_lines, menu_help, menu_lines,
    metadata_edit_lines, metadata_result_lines, optimize_config_lines, optimize_results_lines, panel,
    progress_label, running_line, screen_footer, screen_title, settings_lines, Panel,
};
use lazarobox_img::screens::lines::{pad, text_lines_in, Piece, Tone};
use lazarobox_img::types::OutputFormat;
use lazarobox_img::update::UpdateStatus;

fn text(line: &[Piece]) -> String {
    line.iter().map(|p| p.text.as_str()).collect()
}

fn texts(lines: &[Vec<Piece>]) -> Vec<String> {
    lines.iter().map(|l| text(l)).collect()
}

fn controller() -> AppController {
    AppController::new("/fotos".to_string(), "0.1.0".to_string())
}

fn present(value: &str) -> MetadataField<String> {
    MetadataField { value: Some(value.to_string()), status: MetadataStatus::Present }
}

#[test]
fn padding_and_text_lines() {
    assert_eq!(pad("Ruta", 8), "Ruta    ");
    assert_eq!(pad("Descripción", 12), "Descripción ");
    assert_eq!(pad("demasiado largo", 4), "demasiado largo");
    let lines = text_lines_in("uno\r\ndos\n\ntres\r", Tone::Gray);
    assert_eq!(texts(&lines), vec!["uno", "dos", "", "tres\r"]);
    assert!(lines.iter().all(|l| l[0].tone == Tone::Gray));
    assert_eq!(texts(&text_lines_in("final\n", Tone::Gray)), vec!["final"]);
    assert!(text_lines_in("", Tone::Gray).is_empty());
}

#[test]
fn settings_show_versions_status_and_log() {
    let update = UpdateState {
        current_version: "0.1.0".to_string(),
        latest_version: Some("0.2.0".to_string()),
        status: UpdateStatus::Updated,
        error: None,
        log: Some("==> Upgrading\nok".to_string()),
    };
    assert_eq!(
        texts(&settings_lines(&update)),
        vec![
            "Versión actual  0.1.0",
            "Última versión  0.2.0",
            "",
            "✓ Actualización completada. Reinicia la app para usar la nueva versión.",
            "",
            "==> Upgrading",
            "ok",
        ]
    );
    let fresh = UpdateState {
        current_version: "0.1.0".to_string(),
        latest_version: None,
        status: UpdateStatus::NotChecked,
        error: None,
        log: None,
    };
    assert_eq!(settings_lines(&fresh).len(), 3);
}

#[test]
fn listing_keeps_the_selection_in_view() {
    let mut browser = Browser::new("/fotos".to_string());
    browser.refresh(Some(
        (0..6)
            .map(|i| DirItem { name: format!("f{i}.png"), path: format!("/fotos/f{i}.png"), is_dir: false })
            .chain([DirItem { name: "sub".to_string(), path: "/fotos/sub".to_string(), is_dir: true }])
            .collect(),
    ));
    assert_eq!(text(&folder_line(&browser)), "Carpeta: /fotos");
    let top = listing_lines(&browser, 3);
    assert_eq!(texts(&top), vec!["▶ ..", "  sub/", "  f0.png"]);
    assert_eq!((top[0][0].tone, top[0][0].bold), (Tone::Yellow, true));
    assert_eq!(top[1][0].tone, Tone::Cyan);
    assert_eq!(top[2][0].tone, Tone::White);
    browser.selected = 5;
    assert_eq!(texts(&listing_lines(&browser, 3)), vec!["  f1.png", "  f2.png", "▶ f3.png"]);
    assert_eq!(listing_lines(&browser, 100).len(), 8);
    assert!(listing_lines(&browser, 0).is_empty());
}

#[test]
fn menu_marks_the_selected_entry() {
    let lines = menu_lines(1);
    assert_eq!(lines.len(), 6);
    assert_eq!(text(&lines[1]), "▶ Metadatos");
    assert_eq!(text(&lines[0]), "  Optimizar imágenes");
    assert_eq!((lines[1][0].tone, lines[0][0].tone), (Tone::Cyan, Tone::Default));
    assert_eq!(menu_help(5), "Cierra la aplicación.");
    assert_eq!(menu_help(6), "");
}

#[test]
fn metadata_result_lists_fields_and_coordinates() {
    let mut c = controller();
    let mut meta = ImageMetadata::default();
    meta.web.description = present("Playa");
    meta.ai.detected = true;
    meta.privacy.has_gps = true;
    let coordinate = GpsCoordinate {
        degrees: Rational { num: 40, denom: 1 },
        minutes: Rational { num: 0, denom: 1 },
        seconds: Rational { num: 0, denom: 1 },
        negative: false,
    };
    meta.seo.latitude = MetadataField { value: Some(coordinate), status: MetadataStatus::Present };
    c.state.metadata_view.result = Some(meta);
    c.state.metadata_view.saved = Some("✔ Guardado".to_string());
    let lines = texts(&metadata_result_lines(&c.state.metadata_view, "40.0000, 0.0000"));
    assert_eq!(lines[0], "✔ Guardado");
    assert_eq!(lines[3], "  Descripción ✓ Playa");
    assert_eq!(lines[4], "  Texto alt   ✗");
    assert_eq!(lines[11], "  Detectada   ✓ sí");
    assert_eq!(lines[15], "  Datos GPS   ✓ sí");
    assert!(!lines.iter().any(|l| l.contains("Coordenadas")));
    assert_eq!(lines.last().map(String::as_str), Some("Escritura soportada: JPEG y WebP."));

    let mut with_both = ImageMetadata::default();
    with_both.seo.latitude = MetadataField { value: Some(coordinate), status: MetadataStatus::Present };
    with_both.seo.longitude = MetadataField { value: Some(coordinate), status: MetadataStatus::Present };
    c.state.metadata_view.result = Some(with_both);
    c.state.metadata_view.saved = None;
    let lines = texts(&metadata_result_lines(&c.state.metadata_view, "40.0000, 40.0000"));
    assert!(lines.contains(&"  Coordenadas 40.0000, 40.0000".to_string()));

    c.state.metadata_view.error = Some("no se pudo leer".to_string());
    assert_eq!(texts(&metadata_result_lines(&c.state.metadata_view, "")), vec!["✖ no se pudo leer"]);
    c.state.metadata_view.error = None;
    c.state.metadata_view.result = None;
    assert_eq!(texts(&metadata_result_lines(&c.state.metadata_view, "")), vec![""]);
}

#[test]
fn metadata_form_marks_the_focused_field() {
    let mut c = controller();
    c.state.metadata_view.alt_input = "Perro".to_string();
    c.state.metadata_view.remove_ai = true;
    c.state.metadata_view.focus = MetaField::AltText;
    let lines = metadata_edit_lines(&c.state.metadata_view);
    assert_eq!(text(&lines[2]), "▶ Alt text     Perro▏");
    assert_eq!(lines[2][1].tone, Tone::Yellow);
    assert_eq!(text(&lines[3]), "  Latitud GPS  ");
    assert_eq!(text(&lines[6]), "  Quitar IA    [x]");
    assert_eq!(text(&lines[9]), "  [ Guardar ]");
    assert_eq!(lines.len(), 10);
    c.state.metadata_view.focus = MetaField::Save;
    c.state.metadata_view.error = Some("Latitud GPS inválida".to_string());
    let lines = metadata_edit_lines(&c.state.metadata_view);
    assert_eq!(text(&lines[9]), "▶ [ Guardar ]");
    assert_eq!(text(&lines[11]), "✖ Latitud GPS inválida");
}

#[test]
fn inspect_and_convert_results() {
    let mut inspect = InspectState { result: None, error: None, viewing: true, pending: None };
    inspect.result = Some(ImageInfo {
        path: "/fotos/a.png".to_string(),
        filename: "a.png".to_string(),
        size: 2048,
        width: 640,
        height: 480,
    });
    assert_eq!(
        texts(&inspect_result_lines(&inspect, "2.00 KB")),
        vec!["Archivo     a.png", "Dimensiones 640 × 480 px", "Tamaño      2.00 KB", "Ruta        /fotos/a.png"]
    );
    let mut c = controller();
    c.state.convert.result = Some(Conversion { output_path: "/fotos/a.webp".to_string(), size: 10 });
    assert_eq!(
        texts(&convert_result_lines(&c.state.convert, "10 B")),
        vec!["✔ Convertida", "Salida: /fotos/a.webp", "Tamaño: 10 B"]
    );
    assert_eq!(text(&format_line(OutputFormat::Jpeg)), "Formato destino: ◄ JPG ►");
}

#[test]
fn optimize_panels() {
    let mut c = controller();
    c.state.optimize.input = "/fotos".to_string();
    c.state.optimize.width = "1280".to_string();
    c.state.optimize.focus = OptimizeField::Quality;
    assert_eq!(
        texts(&optimize_config_lines(&c.state.optimize)),
        vec!["Entrada    /fotos", "", "  Anchura   1280 px", "  Alto      auto", "▶ Calidad   80", "  Formato   WEBP"]
    );
    c.state.optimize.progress.done = 2;
    c.state.optimize.progress.total = 5;
    c.state.optimize.progress.current_file = "b.jpg".to_string();
    assert_eq!(progress_label(&c.state.optimize.progress), "2 / 5");
    assert_eq!(text(&running_line(&c.state.optimize.progress)), "Procesando: b.jpg");
    assert_eq!(
        texts(&optimize_results_lines(&c.state.optimize, "", "", "")),
        vec!["Sin resultados todavía."]
    );
    c.state.optimize.results = Some(OptimizeSummary {
        count: 3,
        original_total: 3000,
        optimized_total: 1500,
        output_dir: "/fotos/optimized-fotos".to_string(),
    });
    c.state.optimize.cancelled = true;
    let lines = texts(&optimize_results_lines(&c.state.optimize, "2.93 KB", "1.46 KB", "50.0 %"));
    assert_eq!(lines[0], "⚠ Cancelado (resultados parciales)");
    assert_eq!(lines[2], "Imágenes    3");
    assert_eq!(lines[5], "Ahorro      50.0 %");
    assert_eq!(lines[6], "Salida      /fotos/optimized-fotos");
}

#[test]
fn panels_titles_and_footers_follow_the_state() {
    let mut c = controller();
    assert_eq!(panel(&c.state), Panel::Menu);
    assert_eq!(screen_footer(&c.state), "↑ ↓ Navegar    Enter Seleccionar    Q Salir");
    assert_eq!(screen_title(Screen::Home), "LazaroBox Image");
    c.go_to(Screen::Metadata);
    assert_eq!(panel(&c.state), Panel::Browser);
    c.state.metadata_view.viewing = true;
    c.state.metadata_view.pending = Some("a.jpg".to_string());
    assert_eq!(panel(&c.state), Panel::Processing);
    assert_eq!(screen_footer(&c.state), "Procesando…");
    c.state.metadata_view.pending = None;
    c.state.metadata_view.editing = true;
    assert_eq!(panel(&c.state), Panel::MetadataEdit);
    c.go_to(Screen::Optimize);
    c.state.optimize.step = OptimizeStep::Running;
    assert_eq!(panel(&c.state), Panel::OptimizeRunning);
    assert_eq!(screen_footer(&c.state), "Esc  Cancelar");
    c.go_to(Screen::Settings);
    c.state.update.status = UpdateStatus::Confirming;
    assert_eq!(panel(&c.state), Panel::Settings);
    assert_eq!(screen_footer(&c.state), "Enter Confirmar   Esc Cancelar");
    assert_eq!(screen_title(Screen::Convert), "Convertir formatos");
}
