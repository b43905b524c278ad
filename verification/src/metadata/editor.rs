//! What writing an edit into an image file takes: which formats can be
//! written, the steps of the edit in order, and the name of the backup copy
//! kept while the file is rewritten. Reading and writing the file is the
//! caller's; `tag_edit` applies the steps to the tags read from it.

use vstd::prelude::*;
use crate::metadata::image::GpsCoordinate;
use crate::paths::{extension_of, path_extension};
use crate::text::{decimal, decimal_string, lowercase, push_char, to_lowercase, trim, trim_str};
use crate::paths::same_text;

verus! {

/// A position to write: latitude and longitude in degrees, minutes and
/// seconds, each with its hemisphere.
#[derive(Debug, Clone, Copy, PartialEq, Eq, Structural)]
pub struct GpsPosition {
    pub latitude: GpsCoordinate,
    pub longitude: GpsCoordinate,
}

/// Changes to make to the metadata of an image.
#[derive(Debug, Clone)]
pub struct MetadataEdit {
    /// Alt text / description to set. Blank text removes it; `None` leaves it.
    pub alt_text: Option<String>,
    /// GPS position to write, already checked to lie on the globe.
    pub gps: Option<GpsPosition>,
    /// Remove the existing GPS coordinates (wins over `gps`).
    pub remove_gps: bool,
    /// Remove AI related metadata.
    pub remove_ai: bool,
}

impl Default for MetadataEdit {
    fn default() -> (res: Self)
        ensures
            res.alt_text is None,
            res.gps is None,
            !res.remove_gps,
            !res.remove_ai,
    {
        MetadataEdit { alt_text: None, gps: None, remove_gps: false, remove_ai: false }
    }
}

/// One step of an edit, in the order they are applied.
#[derive(Debug, Clone)]
pub enum EditStep {
    /// Set the image description to this text.
    SetDescription(String),
    /// Remove the image description.
    RemoveDescription,
    /// Remove every GPS tag.
    RemoveGps,
    /// Write this GPS position.
    SetGps(GpsPosition),
    /// Remove the software tag, which names the tool that made the image.
    RemoveSoftware,
}

/// A step with its text as plain characters.
pub enum StepView {
    SetDescription(Seq<char>),
    RemoveDescription,
    RemoveGps,
    SetGps(GpsPosition),
    RemoveSoftware,
}

impl View for EditStep {
    type V = StepView;

    open spec fn view(&self) -> StepView {
        match self {
            EditStep::SetDescription(t) => StepView::SetDescription(t@),
            EditStep::RemoveDescription => StepView::RemoveDescription,
            EditStep::RemoveGps => StepView::RemoveGps,
            EditStep::SetGps(p) => StepView::SetGps(*p),
            EditStep::RemoveSoftware => StepView::RemoveSoftware,
        }
    }
}

/// Why an edit cannot be written.
#[derive(Debug, Clone)]
pub enum EditError {
    /// The extension, in lower case, names a format whose metadata is not written.
    Unsupported(String),
    /// The path has no extension.
    UnknownFormat,
}

impl EditError {
    pub fn message(&self) -> (res: String)
        ensures
            match self {
                EditError::Unsupported(ext) => res@ == "Escritura de metadatos no soportada en ."@
                    + ext@ + " (usá JPEG o WebP)"@,
                EditError::UnknownFormat => res@ == "No se pudo determinar el formato de la imagen"@,
            },
    {
        match self {
            EditError::Unsupported(ext) => {
                let mut m = "Escritura de metadatos no soportada en .".to_string();
                m.append(ext.as_str());
                m.append(" (usá JPEG o WebP)");
                m
            },
            EditError::UnknownFormat => "No se pudo determinar el formato de la imagen".to_string(),
        }
    }
}

/// The formats whose metadata is written, by lower-case extension.
pub open spec fn writable_extension(lower: Seq<char>) -> bool {
    lower == "jpg"@ || lower == "jpeg"@ || lower == "webp"@
}

/// Accepts JPEG and WebP files; rejects other extensions by name, and paths
/// without one.
pub fn ensure_supported(path: &str) -> (res: Result<(), EditError>)
    ensures
        match path_extension(path@) {
            Some(ext) => if writable_extension(lowercase(ext)) {
                res is Ok
            } else {
                res matches Err(EditError::Unsupported(e)) && e@ == lowercase(ext)
            },
            None => res matches Err(EditError::UnknownFormat),
        },
{
    match extension_of(path) {
        Some(ext) => {
            let lower = to_lowercase(ext.as_str());
            let l = lower.as_str();
            if same_text(l, "jpg") || same_text(l, "jpeg") || same_text(l, "webp") {
                Ok(())
            } else {
                Err(EditError::Unsupported(lower))
            }
        },
        None => Err(EditError::UnknownFormat),
    }
}

/// The steps of `edit`, in order: the description (removed when the text is
/// blank), then GPS (removal wins over new coordinates), then the AI marker.
pub open spec fn edit_steps(edit: MetadataEdit) -> Seq<StepView> {
    let text_steps = match edit.alt_text {
        Some(t) => if trim(t@).len() == 0 {
            seq![StepView::RemoveDescription]
        } else {
            seq![StepView::SetDescription(t@)]
        },
        None => Seq::empty(),
    };
    let gps_steps = if edit.remove_gps {
        seq![StepView::RemoveGps]
    } else if let Some(p) = edit.gps {
        seq![StepView::SetGps(p)]
    } else {
        Seq::empty()
    };
    let ai_steps = if edit.remove_ai {
        seq![StepView::RemoveSoftware]
    } else {
        Seq::empty()
    };
    text_steps + gps_steps + ai_steps
}

/// The steps that writing `edit` into the file at `path` takes, or why the
/// file cannot be edited.
pub fn plan(path: &str, edit: &MetadataEdit) -> (res: Result<Vec<EditStep>, EditError>)
    ensures
        match ensure_supported_result(path@) {
            Some(e) => res matches Err(err) && same_error(err, e),
            None => res matches Ok(steps) && steps@.map_values(|s: EditStep| s@) == edit_steps(*edit),
        },
{
    match ensure_supported(path) {
        Ok(()) => {},
        Err(e) => {
            return Err(e);
        },
    }
    let mut steps: Vec<EditStep> = Vec::new();
    if let Some(text) = &edit.alt_text {
        let trimmed = trim_str(text.as_str());
        if trimmed.as_str().is_empty() {
            steps.push(EditStep::RemoveDescription);
        } else {
            steps.push(EditStep::SetDescription(text.clone()));
        }
    }
    if edit.remove_gps {
        steps.push(EditStep::RemoveGps);
    } else if let Some(p) = edit.gps {
        steps.push(EditStep::SetGps(p));
    }
    if edit.remove_ai {
        steps.push(EditStep::RemoveSoftware);
    }
    assert(steps@.map_values(|s: EditStep| s@) =~= edit_steps(*edit));
    Ok(steps)
}

/// The error, if any, that `ensure_supported` gives for a path.
pub open spec fn ensure_supported_result(path: Seq<char>) -> Option<ErrorView> {
    match path_extension(path) {
        Some(ext) => if writable_extension(lowercase(ext)) {
            None
        } else {
            Some(ErrorView::Unsupported(lowercase(ext)))
        },
        None => Some(ErrorView::UnknownFormat),
    }
}

/// An edit error with its text as plain characters.
pub enum ErrorView {
    Unsupported(Seq<char>),
    UnknownFormat,
}

pub open spec fn same_error(err: EditError, view: ErrorView) -> bool {
    match (err, view) {
        (EditError::Unsupported(e), ErrorView::Unsupported(v)) => e@ == v,
        (EditError::UnknownFormat, ErrorView::UnknownFormat) => true,
        _ => false,
    }
}

/// Name of the backup copy of `file_name`, hidden next to it:
/// `.<file_name>.lazarobox-backup-<pid>-<nanos>-<attempt>`.
pub open spec fn backup_name(file_name: Seq<char>, pid: nat, nanos: nat, attempt: nat) -> Seq<char> {
    seq!['.'] + file_name + ".lazarobox-backup-"@ + decimal(pid) + seq!['-'] + decimal(nanos)
        + seq!['-'] + decimal(attempt)
}

/// The name of the backup copy of `file_name` for a process, a time stamp in
/// nanoseconds and an attempt number.
pub fn backup_file_name(file_name: &str, pid: u32, nanos: u128, attempt: u32) -> (res: String)
    ensures
        res@ == backup_name(file_name@, pid as nat, nanos as nat, attempt as nat),
{
    let mut name = String::new();
    push_char(&mut name, '.');
    name.append(file_name);
    name.append(".lazarobox-backup-");
    let p = decimal_string(pid as u128);
    name.append(p.as_str());
    push_char(&mut name, '-');
    let n = decimal_string(nanos);
    name.append(n.as_str());
    push_char(&mut name, '-');
    let a = decimal_string(attempt as u128);
    name.append(a.as_str());
    assert(name@ =~= backup_name(file_name@, pid as nat, nanos as nat, attempt as nat));
    name
}

/// Backups of one file made by one process at one time stamp get different
/// names for different attempts, all starting with `.<file_name>.lazarobox-backup-`.
pub proof fn backup_names_differ_by_attempt(file_name: Seq<char>, pid: nat, nanos: nat, a: nat, b: nat)
    requires
        a != b,
    ensures
        backup_name(file_name, pid, nanos, a) != backup_name(file_name, pid, nanos, b),
        backup_name(file_name, pid, nanos, a).take(file_name.len() + 19int) == seq!['.'] + file_name
            + ".lazarobox-backup-"@,
{
    let prefix = seq!['.'] + file_name + ".lazarobox-backup-"@ + decimal(pid) + seq!['-'] + decimal(nanos)
        + seq!['-'];
    assert(backup_name(file_name, pid, nanos, a) =~= prefix + decimal(a));
    assert(backup_name(file_name, pid, nanos, b) =~= prefix + decimal(b));
    crate::text::lemma_decimal_injective(a, b);
    if backup_name(file_name, pid, nanos, a) == backup_name(file_name, pid, nanos, b) {
        assert((prefix + decimal(a)).skip(prefix.len() as int) =~= decimal(a));
        assert((prefix + decimal(b)).skip(prefix.len() as int) =~= decimal(b));
    }
    reveal_strlit(".lazarobox-backup-");
    assert(backup_name(file_name, pid, nanos, a).take(file_name.len() + 19int) =~= seq!['.'] + file_name
        + ".lazarobox-backup-"@);
}

} // verus!
