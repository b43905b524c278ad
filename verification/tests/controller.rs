use lazarobox_img::app::browser::{BrowserEntry, DirItem};
use lazarobox_img::app::controller::{adjust_dimension, next_meta_field, parse_dimension, AppController};
use lazarobox_img::app::events::{AppAction, AppEvent, PendingWork};
use lazarobox_img::app::state::{MetaField, OptimizeField, OptimizeStep, Screen};
use lazarobox_img::metadata::image::{GpsCoordinate, ImageMetadata, Rational};
use lazarobox_img::metadata::types::MetadataStatus;
use lazarobox_img::types::OutputFormat;
use lazarobox_img::update::{HomebrewUpdate, UpdateCheck, UpdateStatus};

fn controller() -> AppController {
    AppController::new(".".to_string(), "0.1.0".to_string())
}

fn coordinate(degrees: u32) -> GpsCoordinate {
    GpsCoordinate {
        degrees: Rational { num: degrees, denom: 1 },
        minutes: Rational { num: 0, denom: 1 },
        seconds: Rational { num: 0, denom: 1 },
        negative: false,
    }
}

fn entry(name: &str, is_dir: bool) -> BrowserEntry {
    BrowserEntry { name: name.to_string(), path: format!("/data/{name}"), is_dir, is_parent: false }
}

#[test]
fn metadata_start_edit_preloads_existing_gps() {
    let mut controller = controller();
    let mut metadata = ImageMetadata::default();
    metadata.seo.latitude.value = Some(coordinate(40));
    metadata.seo.longitude.value = Some(coordinate(3));

    controller.state.metadata_view.path = Some("image.jpg".to_string());
    controller.state.metadata_view.result = Some(metadata);

    controller.metadata_start_edit(Some((40.416775f64.to_string(), (-3.70379f64).to_string())));

    assert_eq!(controller.state.metadata_view.lat_input, "40.416775");
    assert_eq!(controller.state.metadata_view.lon_input, "-3.70379");
    assert!(controller.state.metadata_view.editing);
}

#[test]
fn metadata_start_edit_clears_gps_inputs_when_coordinates_are_incomplete() {
    let mut controller = controller();
    let mut metadata = ImageMetadata::default();
    metadata.seo.latitude.value = Some(coordinate(40));

    controller.state.metadata_view.path = Some("image.jpg".to_string());
    controller.state.metadata_view.result = Some(metadata);
    controller.state.metadata_view.lat_input = "stale latitude".to_string();
    controller.state.metadata_view.lon_input = "stale longitude".to_string();

    controller.metadata_start_edit(Some((40.416775f64.to_string(), "0".to_string())));

    assert!(controller.state.metadata_view.lat_input.is_empty());
    assert!(controller.state.metadata_view.lon_input.is_empty());
}

#[test]
fn settings_homebrew_update_confirmation_can_be_cancelled() {
    let mut controller = controller();
    controller.state.update.status = UpdateStatus::UpdateAvailable;

    controller.settings_confirm_homebrew_update();

    assert_eq!(controller.state.update.status, UpdateStatus::Confirming);
    assert_eq!(
        controller.state.update.log.as_deref(),
        Some("brew update && brew upgrade pichu2707/tap/lazarobox-img")
    );

    controller.settings_cancel_homebrew_update();

    assert_eq!(controller.state.update.status, UpdateStatus::UpdateAvailable);
    assert!(controller.state.update.log.is_none());
}

#[test]
fn settings_homebrew_update_starts_only_after_confirmation() {
    let mut controller = controller();

    controller.settings_start_homebrew_update();
    assert_eq!(controller.state.update.status, UpdateStatus::NotChecked);

    controller.state.update.status = UpdateStatus::Confirming;
    controller.settings_start_homebrew_update();

    assert_eq!(controller.state.update.status, UpdateStatus::Updating);
    assert_eq!(
        controller.state.update.log.as_deref(),
        Some("brew update && brew upgrade pichu2707/tap/lazarobox-img")
    );
}

#[test]
fn new_controller_starts_on_home_with_listing_due() {
    let c = controller();
    assert_eq!(c.state.screen, Screen::Home);
    assert_eq!(c.state.selected, 0);
    assert_eq!(c.state.optimize.quality, 80);
    assert_eq!(c.state.optimize.format, OutputFormat::Webp);
    assert_eq!(c.state.update.current_version, "0.1.0");
    assert!(c.state.browser.needs_refresh);
    assert_eq!(c.pending_work(), None);
}

#[test]
fn menu_selection_wraps_both_ways() {
    let mut c = controller();
    c.select_previous();
    assert_eq!(c.state.selected, 5);
    assert_eq!(c.action_for(AppEvent::Enter), AppAction::Quit);
    c.select_next();
    assert_eq!(c.state.selected, 0);
    c.select_next();
    assert_eq!(c.action_for(AppEvent::Enter), AppAction::GoTo(Screen::Metadata));
}

#[test]
fn go_to_resets_views_and_asks_for_a_listing() {
    let mut c = controller();
    c.state.browser.needs_refresh = false;
    c.state.inspect.viewing = true;
    c.state.optimize.step = OptimizeStep::Results;
    c.go_to(Screen::Inspect);
    assert_eq!(c.state.screen, Screen::Inspect);
    assert!(!c.state.inspect.viewing);
    assert_eq!(c.state.optimize.step, OptimizeStep::Input);
    assert!(c.state.browser.needs_refresh);
}

#[test]
fn update_check_outcomes_are_recorded_only_while_checking() {
    let mut c = controller();
    c.settings_run_update_check(Ok(UpdateCheck { latest_version: "9.9.9".to_string(), status: UpdateStatus::UpdateAvailable }));
    assert_eq!(c.state.update.status, UpdateStatus::NotChecked);

    c.settings_check_updates();
    assert_eq!(c.state.update.status, UpdateStatus::Checking);
    assert_eq!(c.pending_work(), None);
    c.go_to(Screen::Settings);
    assert_eq!(c.pending_work(), Some(PendingWork::CheckUpdates));
    c.settings_run_update_check(Err("sin red".to_string()));
    assert_eq!(c.state.update.status, UpdateStatus::Error);
    assert_eq!(c.state.update.error.as_deref(), Some("sin red"));
}

#[test]
fn homebrew_update_outcome_is_logged() {
    let mut c = controller();
    c.state.update.status = UpdateStatus::Updating;
    c.settings_run_homebrew_update(Ok(HomebrewUpdate {
        formula: "pichu2707/tap/lazarobox-img".to_string(),
        output: "ok".to_string(),
    }));
    assert_eq!(c.state.update.status, UpdateStatus::Updated);
    assert_eq!(
        c.state.update.log.as_deref(),
        Some("Fórmula actualizada: pichu2707/tap/lazarobox-img\nok\nReinicia la app para usar la nueva versión.")
    );

    c.state.update.status = UpdateStatus::Updating;
    c.settings_run_homebrew_update(Err("brew falló".to_string()));
    assert_eq!(c.state.update.status, UpdateStatus::Error);
    assert_eq!(c.state.update.log.as_deref(), Some("brew falló"));
    assert_eq!(c.state.update.error.as_deref(), Some("brew falló"));
}

#[test]
fn activating_a_file_marks_it_pending_and_outcome_is_recorded() {
    let mut c = controller();
    c.state.browser.entries = vec![entry("fotos", true), entry("a.jpg", false)];
    c.state.browser.selected = 1;
    c.go_to(Screen::Inspect);
    c.inspect_activate();
    assert!(c.state.inspect.viewing);
    assert_eq!(c.pending_work(), Some(PendingWork::Inspect("/data/a.jpg".to_string())));
    c.inspect_run_pending(Err("no es una imagen".to_string()));
    assert_eq!(c.state.inspect.pending, None);
    assert_eq!(c.state.inspect.error.as_deref(), Some("no es una imagen"));
    c.inspect_back();
    assert!(!c.state.inspect.viewing);

    c.state.browser.selected = 0;
    c.state.browser.needs_refresh = false;
    c.convert_activate();
    assert_eq!(c.state.browser.current_dir, "/data/fotos");
    assert_eq!(c.state.browser.selected, 0);
    assert!(c.state.browser.needs_refresh);
}

#[test]
fn convert_format_cycles() {
    let mut c = controller();
    c.convert_previous_format();
    assert_eq!(c.state.convert.format, OutputFormat::Png);
    c.convert_next_format();
    c.convert_next_format();
    assert_eq!(c.state.convert.format, OutputFormat::Avif);
}

#[test]
fn metadata_form_typing_and_toggles() {
    let mut c = controller();
    c.state.metadata_view.path = Some("a.jpg".to_string());
    c.metadata_start_edit(None);
    assert_eq!(c.state.metadata_view.focus, MetaField::AltText);
    c.metadata_edit_char('H');
    c.metadata_edit_char('i');
    c.metadata_focus_next();
    c.metadata_edit_char('4');
    c.metadata_edit_char('x');
    c.metadata_edit_char('.');
    c.metadata_edit_char('5');
    c.metadata_edit_backspace();
    assert_eq!(c.state.metadata_view.alt_input, "Hi");
    assert_eq!(c.state.metadata_view.lat_input, "4.");
    c.metadata_focus_previous();
    assert_eq!(c.state.metadata_view.focus, MetaField::AltText);
    c.metadata_focus_previous();
    assert_eq!(c.state.metadata_view.focus, MetaField::Save);
    c.metadata_focus_previous();
    c.metadata_toggle();
    assert!(c.state.metadata_view.remove_ai);
    c.metadata_toggle();
    assert!(!c.state.metadata_view.remove_ai);
    assert_eq!(next_meta_field(MetaField::Save), MetaField::AltText);
}

#[test]
fn metadata_save_outcomes() {
    let mut c = controller();
    c.metadata_save(Ok(None));
    assert_eq!(c.state.metadata_view.saved, None);

    c.state.metadata_view.path = Some("a.jpg".to_string());
    c.state.metadata_view.editing = true;
    c.metadata_save(Err("Latitud GPS inválida".to_string()));
    assert_eq!(c.state.metadata_view.error.as_deref(), Some("Latitud GPS inválida"));
    assert!(c.state.metadata_view.editing);

    let mut reread = ImageMetadata::default();
    reread.web.description.value = Some("nuevo".to_string());
    reread.web.description.status = MetadataStatus::Present;
    c.metadata_save(Ok(Some(reread)));
    assert_eq!(c.state.metadata_view.saved.as_deref(), Some("✔ Metadatos guardados"));
    assert_eq!(c.state.metadata_view.error, None);
    assert!(!c.state.metadata_view.editing);
    let result = c.state.metadata_view.result.as_ref().expect("metadata read again");
    assert_eq!(result.web.description.value.as_deref(), Some("nuevo"));
}

#[test]
fn metadata_run_pending_loads_the_file_for_editing() {
    let mut c = controller();
    c.state.metadata_view.pending = Some("/data/a.jpg".to_string());
    c.state.metadata_view.saved = Some("old".to_string());
    c.metadata_run_pending(Ok(ImageMetadata::default()));
    assert_eq!(c.state.metadata_view.path.as_deref(), Some("/data/a.jpg"));
    assert_eq!(c.state.metadata_view.pending, None);
    assert_eq!(c.state.metadata_view.saved, None);
    assert!(c.state.metadata_view.result.is_some());
}

#[test]
fn optimize_settings_adjust_and_type() {
    let mut c = controller();
    c.optimize_adjust(1);
    assert_eq!(c.state.optimize.width, "10");
    c.optimize_adjust(-1);
    assert_eq!(c.state.optimize.width, "");
    c.optimize_adjust(-1);
    assert_eq!(c.state.optimize.width, "");
    for d in ['1', '2', 'a', '3', '4', '5', '6'] {
        c.optimize_config_char(d);
    }
    assert_eq!(c.state.optimize.width, "12345");
    c.optimize_config_backspace();
    assert_eq!(c.state.optimize.width, "1234");

    c.optimize_focus_next();
    c.optimize_focus_next();
    assert_eq!(c.state.optimize.focus, OptimizeField::Quality);
    for _ in 0..10 {
        c.optimize_adjust(1);
    }
    assert_eq!(c.state.optimize.quality, 100);
    for _ in 0..30 {
        c.optimize_adjust(-1);
    }
    assert_eq!(c.state.optimize.quality, 1);

    c.optimize_focus_next();
    c.optimize_adjust(-1);
    assert_eq!(c.state.optimize.format, OutputFormat::Png);
    c.optimize_focus_previous();
    c.optimize_focus_previous();
    c.optimize_focus_previous();
    assert_eq!(c.state.optimize.focus, OptimizeField::Width);
}

#[test]
fn dimensions_parse_and_adjust() {
    assert_eq!(parse_dimension(""), None);
    assert_eq!(parse_dimension("  800 "), Some(800));
    assert_eq!(parse_dimension("0"), None);
    assert_eq!(parse_dimension("+12"), Some(12));
    assert_eq!(parse_dimension("-5"), None);
    assert_eq!(parse_dimension("4294967296"), None);
    assert_eq!(parse_dimension("12px"), None);

    let mut field = "abc".to_string();
    adjust_dimension(&mut field, 1);
    assert_eq!(field, "10");
    let mut field = " 95 ".to_string();
    adjust_dimension(&mut field, 1);
    assert_eq!(field, "105");
    let mut field = "-40".to_string();
    adjust_dimension(&mut field, 1);
    assert_eq!(field, "");
}

#[test]
fn optimize_run_goes_through_the_queue() {
    let mut c = controller();
    c.state.browser.entries = vec![entry("a.jpg", false)];
    c.go_to(Screen::Optimize);
    c.optimize_activate();
    assert_eq!(c.state.optimize.step, OptimizeStep::Config);
    assert_eq!(c.state.optimize.input, "/data/a.jpg");
    c.state.optimize.width = "800".to_string();
    assert_eq!(c.optimize_run_input().as_deref(), Some("/data/a.jpg"));

    c.optimize_start_run(Ok((
        vec!["/data/a.jpg".to_string(), "/data/b.png".to_string()],
        "/data/optimized-a".to_string(),
    )));
    assert_eq!(c.state.optimize.step, OptimizeStep::Running);
    assert_eq!(c.state.optimize.progress.total, 2);
    assert_eq!(c.pending_work(), Some(PendingWork::OptimizeNext));

    let job = c.optimize_tick().expect("first image");
    assert_eq!(job.image, "/data/a.jpg");
    assert_eq!(job.width, Some(800));
    assert_eq!(job.height, None);
    assert_eq!(job.quality, 80);
    assert_eq!(c.state.optimize.progress.current_file, "a.jpg");
    c.optimize_record(Ok((1000, 400)));

    let job = c.optimize_tick().expect("second image");
    assert_eq!(job.output_dir, "/data/optimized-a");
    c.optimize_record(Ok((500, 100)));
    assert!(c.optimize_tick().is_none());
    assert_eq!(c.state.optimize.step, OptimizeStep::Results);
    let summary = c.state.optimize.results.as_ref().expect("summary");
    assert_eq!(summary.count, 2);
    assert_eq!(summary.original_total, 1500);
    assert_eq!(summary.optimized_total, 500);
    assert!(!c.state.optimize.cancelled);
}

#[test]
fn optimize_cancel_keeps_what_was_done() {
    let mut c = controller();
    c.state.optimize.input = "/data".to_string();
    c.optimize_start_run(Ok((vec!["/data/a.jpg".to_string(), "/data/b.jpg".to_string()], "/out".to_string())));
    c.optimize_tick();
    c.optimize_record(Ok((10, 5)));
    c.optimize_cancel();
    assert!(c.state.optimize.cancelled);
    assert!(c.state.optimize.progress.queue.is_empty());
    let summary = c.state.optimize.results.as_ref().expect("summary");
    assert_eq!(summary.count, 1);
    assert_eq!(summary.output_dir, "/out");
}

#[test]
fn optimize_start_run_failures_and_blank_input() {
    let mut c = controller();
    c.state.optimize.input = "   ".to_string();
    c.optimize_start_run(Err("no".to_string()));
    assert_eq!(c.state.optimize.error, None);
    assert_eq!(c.state.optimize.step, OptimizeStep::Input);

    c.state.optimize.input = "/nope".to_string();
    c.optimize_start_run(Err("La ruta no existe".to_string()));
    assert_eq!(c.state.optimize.step, OptimizeStep::Results);
    assert_eq!(c.state.optimize.error.as_deref(), Some("La ruta no existe"));

    c.state.optimize.step = OptimizeStep::Running;
    c.optimize_record(Err("falló".to_string()));
    assert_eq!(c.state.optimize.step, OptimizeStep::Results);
    assert_eq!(c.state.optimize.error.as_deref(), Some("falló"));
}

#[test]
fn keys_mean_different_things_per_screen() {
    let mut c = controller();
    assert_eq!(c.action_for(AppEvent::Char('q')), AppAction::Quit);
    c.go_to(Screen::Optimize);
    assert_eq!(c.action_for(AppEvent::Char(' ')), AppAction::OptimizeUseCurrentDir);
    assert_eq!(c.action_for(AppEvent::Esc), AppAction::GoTo(Screen::Home));
    c.state.optimize.step = OptimizeStep::Config;
    assert_eq!(c.action_for(AppEvent::Left), AppAction::OptimizeAdjust(-1));
    assert_eq!(c.action_for(AppEvent::Esc), AppAction::OptimizeBackToInput);
    assert_eq!(c.action_for(AppEvent::Char('q')), AppAction::OptimizeConfigChar('q'));
    c.go_to(Screen::Metadata);
    c.state.metadata_view.viewing = true;
    assert_eq!(c.action_for(AppEvent::Char('e')), AppAction::MetadataStartEdit);
    c.state.metadata_view.editing = true;
    c.state.metadata_view.focus = MetaField::Save;
    assert_eq!(c.action_for(AppEvent::Enter), AppAction::MetadataSave);
    c.state.metadata_view.focus = MetaField::Lat;
    assert_eq!(c.action_for(AppEvent::Enter), AppAction::MetadataFocusNext);
    c.go_to(Screen::Settings);
    assert_eq!(c.action_for(AppEvent::Char('U')), AppAction::SettingsConfirmHomebrewUpdate);
    c.state.update.status = UpdateStatus::Confirming;
    assert_eq!(c.action_for(AppEvent::Enter), AppAction::SettingsStartHomebrewUpdate);
    c.go_to(Screen::Convert);
    assert_eq!(c.action_for(AppEvent::Right), AppAction::ConvertNextFormat);
    assert_eq!(c.action_for(AppEvent::Backspace), AppAction::BrowserParent);
}

#[test]
fn refresh_then_browse() {
    let mut c = controller();
    c.state.browser.current_dir = "/data".to_string();
    c.state.browser.refresh(Some(vec![
        DirItem { name: "b.png".to_string(), path: "/data/b.png".to_string(), is_dir: false },
        DirItem { name: "sub".to_string(), path: "/data/sub".to_string(), is_dir: true },
    ]));
    assert_eq!(c.state.browser.entries.len(), 3);
    c.browser_down();
    c.browser_down();
    c.browser_down();
    assert_eq!(c.state.browser.selected, 0);
    c.browser_up();
    assert_eq!(c.state.browser.selected, 2);
    c.browser_parent();
    assert_eq!(c.state.browser.current_dir, "/");
    assert!(c.state.browser.needs_refresh);
}
