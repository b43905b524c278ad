//! State of the whole application: the single source of truth that the
//! controller changes and the screens read.

use vstd::prelude::*;
use crate::app::browser::Browser;
use crate::converter::Conversion;
use crate::inspector::ImageInfo;
use crate::metadata::image::ImageMetadata;
use crate::types::OutputFormat;
use crate::update::UpdateStatus;

verus! {

/// Screens of the application.
#[derive(Debug, Clone, Copy, PartialEq, Eq, Structural)]
pub enum Screen {
    /// Main screen with the menu.
    Home,
    Optimize,
    Metadata,
    Convert,
    Inspect,
    Settings,
}

impl Default for Screen {
    fn default() -> (res: Self)
        ensures
            res == Screen::Home,
    {
        Screen::Home
    }
}

/// Items of the main menu, in the order shown.
#[derive(Debug, Clone, Copy, PartialEq, Eq, Structural)]
pub enum MenuItem {
    Optimize,
    Metadata,
    Convert,
    Inspect,
    Settings,
    Exit,
}

/// Number of menu items.
pub const MENU_LEN: usize = 6;

impl MenuItem {
    /// The item at position `i` of the menu.
    pub open spec fn at(i: int) -> MenuItem {
        if i == 0 {
            MenuItem::Optimize
        } else if i == 1 {
            MenuItem::Metadata
        } else if i == 2 {
            MenuItem::Convert
        } else if i == 3 {
            MenuItem::Inspect
        } else if i == 4 {
            MenuItem::Settings
        } else {
            MenuItem::Exit
        }
    }

    /// All items, in the order shown.
    pub fn all() -> (res: [MenuItem; 6])
        ensures
            forall|i: int| 0 <= i < 6 ==> #[trigger] res@[i] == MenuItem::at(i),
    {
        [
            MenuItem::Optimize,
            MenuItem::Metadata,
            MenuItem::Convert,
            MenuItem::Inspect,
            MenuItem::Settings,
            MenuItem::Exit,
        ]
    }

    pub open spec fn label_text(self) -> Seq<char> {
        match self {
            MenuItem::Optimize => "Optimizar imágenes"@,
            MenuItem::Metadata => "Metadatos"@,
            MenuItem::Convert => "Convertir formatos"@,
            MenuItem::Inspect => "Inspeccionar imagen"@,
            MenuItem::Settings => "Ajustes"@,
            MenuItem::Exit => "Salir"@,
        }
    }

    /// Label shown for the item.
    pub fn label(self) -> (res: &'static str)
        ensures
            res@ == self.label_text(),
    {
        match self {
            MenuItem::Optimize => "Optimizar imágenes",
            MenuItem::Metadata => "Metadatos",
            MenuItem::Convert => "Convertir formatos",
            MenuItem::Inspect => "Inspeccionar imagen",
            MenuItem::Settings => "Ajustes",
            MenuItem::Exit => "Salir",
        }
    }

    pub open spec fn description_text(self) -> Seq<char> {
        match self {
            MenuItem::Optimize => "Redimensiona y comprime imágenes (WebP, PNG o JPEG)."@,
            MenuItem::Metadata => "Lee y edita metadatos: GPS, alt text y quitar IA."@,
            MenuItem::Convert => "Convierte una imagen entre WebP, PNG y JPEG."@,
            MenuItem::Inspect => "Muestra dimensiones, tamaño y formato de una imagen."@,
            MenuItem::Settings => "Ajustes por defecto de la aplicación."@,
            MenuItem::Exit => "Cierra la aplicación."@,
        }
    }

    /// Short help on what the item does.
    pub fn description(self) -> (res: &'static str)
        ensures
            res@ == self.description_text(),
    {
        match self {
            MenuItem::Optimize => "Redimensiona y comprime imágenes (WebP, PNG o JPEG).",
            MenuItem::Metadata => "Lee y edita metadatos: GPS, alt text y quitar IA.",
            MenuItem::Convert => "Convierte una imagen entre WebP, PNG y JPEG.",
            MenuItem::Inspect => "Muestra dimensiones, tamaño y formato de una imagen.",
            MenuItem::Settings => "Ajustes por defecto de la aplicación.",
            MenuItem::Exit => "Cierra la aplicación.",
        }
    }

    /// Screen that the item opens; `None` for leaving the application.
    pub open spec fn target_screen(self) -> Option<Screen> {
        match self {
            MenuItem::Optimize => Some(Screen::Optimize),
            MenuItem::Metadata => Some(Screen::Metadata),
            MenuItem::Convert => Some(Screen::Convert),
            MenuItem::Inspect => Some(Screen::Inspect),
            MenuItem::Settings => Some(Screen::Settings),
            MenuItem::Exit => None,
        }
    }

    /// Screen that the item opens; `None` for leaving the application.
    pub fn target(self) -> (res: Option<Screen>)
        ensures
            res == self.target_screen(),
    {
        match self {
            MenuItem::Optimize => Some(Screen::Optimize),
            MenuItem::Metadata => Some(Screen::Metadata),
            MenuItem::Convert => Some(Screen::Convert),
            MenuItem::Inspect => Some(Screen::Inspect),
            MenuItem::Settings => Some(Screen::Settings),
            MenuItem::Exit => None,
        }
    }
}

/// The project open.
#[derive(Debug)]
pub struct ProjectState {
    /// Image or folder chosen.
    pub input: Option<String>,
    /// Folder the results go to.
    pub output: Option<String>,
    /// Images found.
    pub images: Vec<String>,
}

/// Options for treating metadata.
#[derive(Debug, Clone, Copy, PartialEq, Eq, Structural)]
pub struct MetadataState {
    pub remove_ai: bool,
    pub remove_gps: bool,
    pub preserve_author: bool,
    pub preserve_copyright: bool,
}

/// State of the inspect screen.
#[derive(Debug)]
pub struct InspectState {
    /// Result of the last successful inspection.
    pub result: Option<ImageInfo>,
    /// Message of the last failed inspection.
    pub error: Option<String>,
    /// True while the result is shown instead of the browser.
    pub viewing: bool,
    /// Path waiting to be inspected.
    pub pending: Option<String>,
}

/// State of the convert screen.
#[derive(Debug)]
pub struct ConvertState {
    /// Target format.
    pub format: OutputFormat,
    /// Result of the last successful conversion.
    pub result: Option<Conversion>,
    /// Message of the last failed conversion.
    pub error: Option<String>,
    /// True while the result is shown instead of the browser.
    pub viewing: bool,
    /// Path waiting to be converted.
    pub pending: Option<String>,
}

/// State of the update check.
#[derive(Debug)]
pub struct UpdateState {
    /// Version of the running program.
    pub current_version: String,
    /// Latest stable version published, once checked.
    pub latest_version: Option<String>,
    pub status: UpdateStatus,
    /// Message of the last failed check or update.
    pub error: Option<String>,
    /// Commands to run, or what running them printed.
    pub log: Option<String>,
}

/// Focused field of the metadata form.
#[derive(Debug, Clone, Copy, PartialEq, Eq, Structural)]
pub enum MetaField {
    /// Alt text / description (typed).
    AltText,
    /// GPS latitude in decimal degrees (typed).
    Lat,
    /// GPS longitude in decimal degrees (typed).
    Lon,
    /// Remove GPS (toggled).
    RemoveGps,
    /// Remove AI metadata (toggled).
    RemoveAi,
    /// Save action.
    Save,
}

/// State of the metadata screen (reading and editing).
#[derive(Debug)]
pub struct MetadataView {
    /// Metadata read from the last image.
    pub result: Option<ImageMetadata>,
    /// Message of the last failed read or write.
    pub error: Option<String>,
    /// True while the result is shown instead of the browser.
    pub viewing: bool,
    /// Path waiting to be read.
    pub pending: Option<String>,
    /// Path of the image loaded (for editing).
    pub path: Option<String>,
    /// True while the edit form is shown.
    pub editing: bool,
    pub alt_input: String,
    pub lat_input: String,
    pub lon_input: String,
    pub remove_gps: bool,
    pub remove_ai: bool,
    pub focus: MetaField,
    /// Message after a successful save.
    pub saved: Option<String>,
}

/// Step of the optimize wizard.
#[derive(Debug, Clone, Copy, PartialEq, Eq, Structural)]
pub enum OptimizeStep {
    /// Choosing the input image or folder.
    Input,
    /// Setting width, height, quality and format.
    Config,
    /// Processing the images.
    Running,
    /// Showing the results.
    Results,
}

/// Focused field of the optimize settings.
#[derive(Debug, Clone, Copy, PartialEq, Eq, Structural)]
pub enum OptimizeField {
    Width,
    Height,
    Quality,
    Format,
}

/// Progress of a batch optimization.
#[derive(Debug)]
pub struct OptimizeProgress {
    /// Images still to process.
    pub queue: Vec<String>,
    /// Images processed.
    pub done: usize,
    /// Images to process in all.
    pub total: usize,
    /// Name of the file being processed.
    pub current_file: String,
    /// Sum of the original sizes.
    pub acc_original: u64,
    /// Sum of the optimized sizes.
    pub acc_optimized: u64,
    /// Output folder.
    pub output_dir: String,
}

/// Summary of a finished (or cancelled) optimization.
#[derive(Debug)]
pub struct OptimizeSummary {
    pub count: usize,
    pub original_total: u64,
    pub optimized_total: u64,
    pub output_dir: String,
}

/// State of the optimize screen.
#[derive(Debug)]
pub struct OptimizeState {
    pub step: OptimizeStep,
    /// Input path chosen in the browser.
    pub input: String,
    /// Width typed; empty means the original size.
    pub width: String,
    /// Height typed; empty means the original size.
    pub height: String,
    /// Output quality (1..=100).
    pub quality: u8,
    pub format: OutputFormat,
    pub focus: OptimizeField,
    pub progress: OptimizeProgress,
    /// Summary of the last run (complete or cancelled).
    pub results: Option<OptimizeSummary>,
    /// True when the last run was cancelled before the end.
    pub cancelled: bool,
    /// Message of the last failed run.
    pub error: Option<String>,
}

/// Global state of the application.
#[derive(Debug)]
pub struct AppState {
    /// Screen shown.
    pub screen: Screen,
    /// Highlighted menu item.
    pub selected: usize,
    pub project: ProjectState,
    pub metadata: MetadataState,
    pub optimize: OptimizeState,
    pub inspect: InspectState,
    pub convert: ConvertState,
    pub metadata_view: MetadataView,
    /// File browser shared by the screens.
    pub browser: Browser,
    pub update: UpdateState,
}

/// The state a fresh start begins in (browser and version aside).
pub open spec fn is_initial(s: AppState) -> bool {
    &&& s.screen == Screen::Home
    &&& s.selected == 0
    &&& s.project.input is None && s.project.output is None && s.project.images@.len() == 0
    &&& s.metadata == (MetadataState {
        remove_ai: false,
        remove_gps: false,
        preserve_author: false,
        preserve_copyright: false,
    })
    &&& s.optimize.step == OptimizeStep::Input
    &&& s.optimize.input@.len() == 0 && s.optimize.width@.len() == 0 && s.optimize.height@.len() == 0
    &&& s.optimize.quality == 80
    &&& s.optimize.format == OutputFormat::Webp
    &&& s.optimize.focus == OptimizeField::Width
    &&& s.optimize.progress.queue@.len() == 0 && s.optimize.progress.done == 0 && s.optimize.progress.total == 0
    &&& s.optimize.progress.current_file@.len() == 0 && s.optimize.progress.output_dir@.len() == 0
    &&& s.optimize.progress.acc_original == 0 && s.optimize.progress.acc_optimized == 0
    &&& s.optimize.results is None && !s.optimize.cancelled && s.optimize.error is None
    &&& s.inspect.result is None && s.inspect.error is None && !s.inspect.viewing && s.inspect.pending is None
    &&& s.convert.format == OutputFormat::Webp && s.convert.result is None && s.convert.error is None
    &&& !s.convert.viewing && s.convert.pending is None
    &&& s.metadata_view.result is None && s.metadata_view.error is None && !s.metadata_view.viewing
    &&& s.metadata_view.pending is None && s.metadata_view.path is None && !s.metadata_view.editing
    &&& s.metadata_view.alt_input@.len() == 0 && s.metadata_view.lat_input@.len() == 0
    &&& s.metadata_view.lon_input@.len() == 0
    &&& !s.metadata_view.remove_gps && !s.metadata_view.remove_ai
    &&& s.metadata_view.focus == MetaField::AltText && s.metadata_view.saved is None
    &&& s.update.latest_version is None && s.update.status == UpdateStatus::NotChecked
    &&& s.update.error is None && s.update.log is None
}

impl AppState {
    /// A fresh state whose browser starts at `current_dir` (its listing still
    /// to be read), for the program version `current_version`.
    pub fn new(current_dir: String, current_version: String) -> (res: Self)
        ensures
            is_initial(res),
            res.browser.current_dir == current_dir,
            res.browser.entries@.len() == 0,
            res.browser.selected == 0,
            res.browser.needs_refresh,
            res.update.current_version == current_version,
    {
        AppState {
            screen: Screen::Home,
            selected: 0,
            project: ProjectState { input: None, output: None, images: Vec::new() },
            metadata: MetadataState {
                remove_ai: false,
                remove_gps: false,
                preserve_author: false,
                preserve_copyright: false,
            },
            optimize: OptimizeState {
                step: OptimizeStep::Input,
                input: String::new(),
                width: String::new(),
                height: String::new(),
                quality: 80,
                format: OutputFormat::Webp,
                focus: OptimizeField::Width,
                progress: OptimizeProgress {
                    queue: Vec::new(),
                    done: 0,
                    total: 0,
                    current_file: String::new(),
                    acc_original: 0,
                    acc_optimized: 0,
                    output_dir: String::new(),
                },
                results: None,
                cancelled: false,
                error: None,
            },
            inspect: InspectState { result: None, error: None, viewing: false, pending: None },
            convert: ConvertState {
                format: OutputFormat::Webp,
                result: None,
                error: None,
                viewing: false,
                pending: None,
            },
            metadata_view: MetadataView {
                result: None,
                error: None,
                viewing: false,
                pending: None,
                path: None,
                editing: false,
                alt_input: String::new(),
                lat_input: String::new(),
                lon_input: String::new(),
                remove_gps: false,
                remove_ai: false,
                focus: MetaField::AltText,
                saved: None,
            },
            browser: Browser::new(current_dir),
            update: UpdateState {
                current_version,
                latest_version: None,
                status: UpdateStatus::NotChecked,
                error: None,
                log: None,
            },
        }
    }
}

} // verus!
