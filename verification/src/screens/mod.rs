//! The texts the screens show, computed from the state. Drawing them is the
//! terminal front end's.

pub mod bodies;
pub mod lines;

use vstd::prelude::*;
use crate::app::browser::{Browser, BrowserEntry};
use crate::app::state::{OptimizeStep, UpdateState};
use crate::text::push_char;
use crate::update::UpdateStatus;

verus! {

/// How a typed size reads: `auto` when blank, with a cursor when focused.
pub open spec fn dimension_text(raw: Seq<char>, focused: bool) -> Seq<char> {
    if raw.len() == 0 {
        if focused {
            "▏  (auto)"@
        } else {
            "auto"@
        }
    } else if focused {
        raw + "▏ px"@
    } else {
        raw + " px"@
    }
}

/// How a typed size reads on the settings step.
pub fn dimension_value(raw: &str, focused: bool) -> (res: String)
    ensures
        res@ == dimension_text(raw@, focused),
{
    if raw.is_empty() {
        if focused {
            "▏  (auto)".to_string()
        } else {
            "auto".to_string()
        }
    } else {
        let mut text = raw.to_string();
        if focused {
            text.append("▏ px");
        } else {
            text.append(" px");
        }
        text
    }
}

pub open spec fn step_text(step: OptimizeStep) -> Seq<char> {
    match step {
        OptimizeStep::Input => "Paso 1/3 · Seleccionar entrada"@,
        OptimizeStep::Config => "Paso 2/3 · Configurar"@,
        OptimizeStep::Running => "Optimizando…"@,
        OptimizeStep::Results => "Paso 3/3 · Resultados"@,
    }
}

/// The "step N/3" line of the optimize screen.
pub fn step_label(step: OptimizeStep) -> (res: &'static str)
    ensures
        res@ == step_text(step),
{
    match step {
        OptimizeStep::Input => "Paso 1/3 · Seleccionar entrada",
        OptimizeStep::Config => "Paso 2/3 · Configurar",
        OptimizeStep::Running => "Optimizando…",
        OptimizeStep::Results => "Paso 3/3 · Resultados",
    }
}

pub open spec fn settings_footer(status: UpdateStatus) -> Seq<char> {
    match status {
        UpdateStatus::UpdateAvailable => "u Actualizar con Homebrew   c Comprobar   Esc Volver"@,
        UpdateStatus::Confirming => "Enter Confirmar   Esc Cancelar"@,
        UpdateStatus::Updating => "Actualizando…"@,
        _ => "c Comprobar actualización   Esc Volver"@,
    }
}

/// The key help of the settings screen.
pub fn footer_text(status: UpdateStatus) -> (res: &'static str)
    ensures
        res@ == settings_footer(status),
{
    match status {
        UpdateStatus::UpdateAvailable => "u Actualizar con Homebrew   c Comprobar   Esc Volver",
        UpdateStatus::Confirming => "Enter Confirmar   Esc Cancelar",
        UpdateStatus::Updating => "Actualizando…",
        _ => "c Comprobar actualización   Esc Volver",
    }
}

/// First entry shown when `height` rows are available: the list scrolls just
/// enough to keep the selection visible.
pub open spec fn first_visible(selected: usize, height: usize) -> int {
    if selected >= height {
        selected + 1 - height
    } else {
        0
    }
}

/// How an entry reads in the listing: folders end in `/`, except `..`.
pub open spec fn entry_text(name: Seq<char>, is_dir: bool, is_parent: bool) -> Seq<char> {
    if is_dir && !is_parent {
        name.push('/')
    } else {
        name
    }
}

impl Browser {
    /// First entry shown when `height` rows are available.
    pub fn visible_start(&self, height: usize) -> (res: usize)
        requires
            self.selected >= height ==> self.selected < usize::MAX,
        ensures
            res == first_visible(self.selected, height),
    {
        if self.selected >= height {
            self.selected + 1 - height
        } else {
            0
        }
    }
}

impl BrowserEntry {
    /// How the entry reads in the listing.
    pub fn label(&self) -> (res: String)
        ensures
            res@ == entry_text(self.name@, self.is_dir, self.is_parent),
    {
        let mut text = self.name.clone();
        if self.is_dir && !self.is_parent {
            push_char(&mut text, '/');
        }
        text
    }
}

} // verus!
