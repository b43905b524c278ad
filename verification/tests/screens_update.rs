use lazarobox_img::app::browser::{Browser, BrowserEntry, DirItem};
use lazarobox_img::app::state::{OptimizeStep, UpdateState};
use lazarobox_img::screens::bodies::status_lines;
use lazarobox_img::screens::lines::{Piece, Tone};
use lazarobox_img::screens::{dimension_value, footer_text, step_label};
use lazarobox_img::update::{
    check_result, homebrew_formula, homebrew_update_command_text, latest_stable_version,
    updated_log, HomebrewUpdate, UpdateStatus,
};

fn item(name: &str, is_dir: bool) -> DirItem {
    DirItem { name: name.to_string(), path: format!("/fotos/{name}"), is_dir }
}

fn names(browser: &Browser) -> Vec<String> {
    browser.entries.iter().map(|e| e.label()).collect()
}

fn texts(lines: &[Vec<Piece>]) -> Vec<String> {
    lines.iter().map(|l| l.iter().map(|p| p.text.as_str()).collect::<String>()).collect()
}

fn update_state(status: UpdateStatus, error: Option<&str>) -> UpdateState {
    UpdateState {
        current_version: "0.1.0".to_string(),
        latest_version: None,
        status,
        error: error.map(|e| e.to_string()),
        log: None,
    }
}

#[test]
fn latest_stable_version_from_crates_answer() {
    let body = r#"{"crate":{"id":"lazarobox-img","max_version":"0.3.0-beta.1","max_stable_version":"0.2.1","newest_version":"0.3.0-beta.1"}}"#;
    assert_eq!(latest_stable_version(body), Some("0.2.1".to_string()));
    let twice = r#"{"max_stable_version":"1.0.0","x":{"max_stable_version":"2.0.0"}}"#;
    assert_eq!(latest_stable_version(twice), Some("1.0.0".to_string()));
    assert_eq!(latest_stable_version(r#"{"max_stable_version":null}"#), None);
    assert_eq!(latest_stable_version(r#"{"max_stable_version":"0.2.1"#), None);
    assert_eq!(latest_stable_version(r#"{"max_stable_version":""}"#), Some(String::new()));
    assert_eq!(latest_stable_version(""), None);
}

#[test]
fn check_result_compares_versions_as_text() {
    let same = check_result("0.2.1", "0.2.1".to_string());
    assert_eq!(same.status, UpdateStatus::UpToDate);
    assert_eq!(same.latest_version, "0.2.1");
    let newer = check_result("0.2.1", "0.3.0".to_string());
    assert_eq!(newer.status, UpdateStatus::UpdateAvailable);
    let older = check_result("0.2.1", "0.2.0".to_string());
    assert_eq!(older.status, UpdateStatus::UpdateAvailable);
}

#[test]
fn homebrew_texts() {
    assert_eq!(homebrew_formula(), "pichu2707/tap/lazarobox-img");
    assert_eq!(
        homebrew_update_command_text(),
        "brew update && brew upgrade pichu2707/tap/lazarobox-img"
    );
    let log = updated_log(&HomebrewUpdate {
        formula: "pichu2707/tap/lazarobox-img".to_string(),
        output: "ok".to_string(),
    });
    assert_eq!(
        log,
        "Fórmula actualizada: pichu2707/tap/lazarobox-img\nok\nReinicia la app para usar la nueva versión."
    );
}

#[test]
fn settings_texts_follow_the_status() {
    assert_eq!(footer_text(UpdateStatus::Confirming), "Enter Confirmar   Esc Cancelar");
    assert_eq!(
        footer_text(UpdateStatus::UpdateAvailable),
        "u Actualizar con Homebrew   c Comprobar   Esc Volver"
    );
    assert_eq!(footer_text(UpdateStatus::NotChecked), "c Comprobar actualización   Esc Volver");
    let error = status_lines(&update_state(UpdateStatus::Error, Some("sin red")));
    assert_eq!(texts(&error), vec!["✖ No se pudo completar la actualización: sin red".to_string()]);
    assert_eq!(error[0][0].tone, Tone::Red);
    assert_eq!(
        texts(&status_lines(&update_state(UpdateStatus::Error, None))),
        vec!["✖ No se pudo completar la actualización: error desconocido".to_string()]
    );
    assert_eq!(status_lines(&update_state(UpdateStatus::Confirming, None)).len(), 2);
    let up_to_date = status_lines(&update_state(UpdateStatus::UpToDate, None));
    assert_eq!(texts(&up_to_date), vec!["✓ Estás usando la última versión estable.".to_string()]);
    assert_eq!((up_to_date[0][0].tone, up_to_date[0][0].bold), (Tone::Green, true));
}

#[test]
fn optimize_texts() {
    assert_eq!(step_label(OptimizeStep::Input), "Paso 1/3 · Seleccionar entrada");
    assert_eq!(step_label(OptimizeStep::Results), "Paso 3/3 · Resultados");
    assert_eq!(dimension_value("", false), "auto");
    assert_eq!(dimension_value("", true), "▏  (auto)");
    assert_eq!(dimension_value("1280", false), "1280 px");
    assert_eq!(dimension_value("1280", true), "1280▏ px");
}

#[test]
fn refresh_lists_parent_folders_then_images_by_name() {
    let mut browser = Browser::new("/fotos".to_string());
    assert!(browser.needs_refresh);
    browser.refresh(Some(vec![
        item("zeta.JPG", false),
        item("notas.txt", false),
        item(".oculta", true),
        item("Beta", true),
        item("alfa", true),
        item(".x.png", false),
        item("Árbol.png", false),
        item("avion.webp", false),
    ]));
    assert!(!browser.needs_refresh);
    assert_eq!(
        names(&browser),
        vec!["..", "alfa/", "Beta/", "avion.webp", "zeta.JPG", "Árbol.png"]
    );
    assert!(browser.entries[0].is_parent);
    assert_eq!(browser.entries[0].path, "/");
}

#[test]
fn unreadable_folder_keeps_only_the_parent_and_clamps_selection() {
    let mut browser = Browser::new("/fotos/viaje".to_string());
    browser.selected = 7;
    browser.refresh(None);
    assert_eq!(names(&browser), vec![".."]);
    assert_eq!(browser.selected, 0);
    let mut root = Browser::new("/".to_string());
    root.refresh(None);
    assert!(root.entries.is_empty());
    assert_eq!(root.selected, 0);
    assert!(root.selected_entry().is_none());
}

#[test]
fn entering_folders_and_going_up() {
    let mut browser = Browser::new("/fotos".to_string());
    browser.refresh(Some(vec![item("sub", true), item("a.png", false)]));
    browser.move_down();
    assert_eq!(browser.selected_entry().map(|e| e.name.as_str()), Some("sub"));
    browser.enter_selected();
    assert_eq!(browser.current_dir, "/fotos/sub");
    assert_eq!(browser.selected, 0);
    assert!(browser.needs_refresh);

    let mut on_file = Browser::new("/fotos".to_string());
    on_file.refresh(Some(vec![item("a.png", false)]));
    on_file.move_up();
    assert_eq!(on_file.selected, 1);
    on_file.enter_selected();
    assert_eq!(on_file.current_dir, "/fotos");
    assert!(!on_file.needs_refresh);
    on_file.to_parent();
    assert_eq!(on_file.current_dir, "/");
    let mut root = Browser::new("/".to_string());
    root.to_parent();
    assert_eq!(root.current_dir, "/");
    assert!(root.needs_refresh);
}

#[test]
fn visible_window_follows_the_selection() {
    let mut browser = Browser::new("/".to_string());
    browser.selected = 3;
    assert_eq!(browser.visible_start(10), 0);
    assert_eq!(browser.visible_start(3), 1);
    browser.selected = 12;
    assert_eq!(browser.visible_start(5), 8);
    let entry = BrowserEntry { name: "..".to_string(), path: "/".to_string(), is_dir: true, is_parent: true };
    assert_eq!(entry.label(), "..");
    assert_eq!(entry.duplicate().path, "/");
}
