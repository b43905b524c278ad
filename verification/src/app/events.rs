//! Key presses and what they mean on each screen.
//!
//! A key press has no meaning of its own: the screen shown (and its step)
//! decides what it does. `action_for` makes that decision; `pending_work`
//! says which slow job the screen is waiting for.

use vstd::prelude::*;
use crate::app::controller::AppController;
use crate::app::state::{AppState, MenuItem, MetaField, OptimizeStep, Screen};
use crate::types::OutputFormat;
use crate::update::UpdateStatus;

verus! {

/// A key press.
#[derive(Debug, Clone, Copy, PartialEq, Eq, Structural)]
pub enum AppEvent {
    Up,
    Down,
    Left,
    Right,
    Enter,
    Esc,
    Backspace,
    Char(char),
    /// Any other key.
    Other,
}

/// What the controller is asked to do in answer to a key press.
#[derive(Debug, Clone, Copy, PartialEq, Eq, Structural)]
pub enum AppAction {
    /// Leave the application.
    Quit,
    /// Nothing to do.
    Ignore,
    SelectPrevious,
    SelectNext,
    GoTo(Screen),
    SettingsCheckUpdates,
    SettingsConfirmHomebrewUpdate,
    SettingsStartHomebrewUpdate,
    SettingsCancelHomebrewUpdate,
    BrowserUp,
    BrowserDown,
    BrowserParent,
    InspectActivate,
    InspectBack,
    ConvertPreviousFormat,
    ConvertNextFormat,
    ConvertActivate,
    ConvertBack,
    MetadataActivate,
    MetadataStartEdit,
    MetadataBack,
    MetadataCancelEdit,
    MetadataFocusPrevious,
    MetadataFocusNext,
    MetadataToggle,
    MetadataEditBackspace,
    MetadataEditChar(char),
    MetadataSave,
    OptimizeActivate,
    OptimizeUseCurrentDir,
    OptimizeBackToInput,
    OptimizeFocusPrevious,
    OptimizeFocusNext,
    OptimizeAdjust(i32),
    OptimizeStartRun,
    OptimizeConfigBackspace,
    OptimizeConfigChar(char),
    OptimizeBackToConfig,
}

/// Slow work a screen waits for before reading keys again.
#[derive(Debug, Clone, PartialEq, Eq)]
pub enum PendingWork {
    /// Inspect this file.
    Inspect(String),
    /// Convert this file to the format.
    Convert(String, OutputFormat),
    /// Read the metadata of this file.
    ReadMetadata(String),
    /// Look up the latest published version.
    CheckUpdates,
    /// Run the update through Homebrew.
    HomebrewUpdate,
    /// Optimize the next image of the run (Esc cancels).
    OptimizeNext,
}

/// Home: arrows move, Enter opens the item (Exit leaves), Esc or q leaves.
pub open spec fn home_action(selected: usize, event: AppEvent) -> AppAction {
    match event {
        AppEvent::Up => AppAction::SelectPrevious,
        AppEvent::Down => AppAction::SelectNext,
        AppEvent::Enter => match MenuItem::at(selected as int).target_screen() {
            Some(screen) => AppAction::GoTo(screen),
            None => AppAction::Quit,
        },
        AppEvent::Esc | AppEvent::Char('q') | AppEvent::Char('Q') => AppAction::Quit,
        _ => AppAction::Ignore,
    }
}

/// Settings: while confirming, Enter runs the update and Esc cancels;
/// otherwise Esc/q go home, c checks, u asks to update.
pub open spec fn settings_action(status: UpdateStatus, event: AppEvent) -> AppAction {
    if status == UpdateStatus::Confirming {
        match event {
            AppEvent::Enter => AppAction::SettingsStartHomebrewUpdate,
            AppEvent::Esc => AppAction::SettingsCancelHomebrewUpdate,
            _ => AppAction::Ignore,
        }
    } else {
        match event {
            AppEvent::Esc | AppEvent::Char('q') | AppEvent::Char('Q') => AppAction::GoTo(Screen::Home),
            AppEvent::Char('c') | AppEvent::Char('C') => AppAction::SettingsCheckUpdates,
            AppEvent::Char('u') | AppEvent::Char('U') => AppAction::SettingsConfirmHomebrewUpdate,
            _ => AppAction::Ignore,
        }
    }
}

/// The browser keys shared by the screens that pick a file.
pub open spec fn browse_action(event: AppEvent, activate: AppAction) -> AppAction {
    match event {
        AppEvent::Esc => AppAction::GoTo(Screen::Home),
        AppEvent::Up => AppAction::BrowserUp,
        AppEvent::Down => AppAction::BrowserDown,
        AppEvent::Backspace => AppAction::BrowserParent,
        AppEvent::Enter => activate,
        _ => AppAction::Ignore,
    }
}

/// Inspect: the result view closes with Esc or Enter; else browsing.
pub open spec fn inspect_action(viewing: bool, event: AppEvent) -> AppAction {
    if viewing {
        match event {
            AppEvent::Esc | AppEvent::Enter => AppAction::InspectBack,
            _ => AppAction::Ignore,
        }
    } else {
        browse_action(event, AppAction::InspectActivate)
    }
}

/// Convert: like inspect, with left and right changing the format.
pub open spec fn convert_action(viewing: bool, event: AppEvent) -> AppAction {
    if viewing {
        match event {
            AppEvent::Esc | AppEvent::Enter => AppAction::ConvertBack,
            _ => AppAction::Ignore,
        }
    } else {
        match event {
            AppEvent::Left => AppAction::ConvertPreviousFormat,
            AppEvent::Right => AppAction::ConvertNextFormat,
            _ => browse_action(event, AppAction::ConvertActivate),
        }
    }
}

/// The metadata edit form.
pub open spec fn metadata_edit_action(focus: MetaField, event: AppEvent) -> AppAction {
    match event {
        AppEvent::Esc => AppAction::MetadataCancelEdit,
        AppEvent::Up => AppAction::MetadataFocusPrevious,
        AppEvent::Down => AppAction::MetadataFocusNext,
        AppEvent::Left | AppEvent::Right => AppAction::MetadataToggle,
        AppEvent::Backspace => AppAction::MetadataEditBackspace,
        AppEvent::Char(c) => AppAction::MetadataEditChar(c),
        AppEvent::Enter => match focus {
            MetaField::Save => AppAction::MetadataSave,
            MetaField::RemoveGps | MetaField::RemoveAi => AppAction::MetadataToggle,
            _ => AppAction::MetadataFocusNext,
        },
        AppEvent::Other => AppAction::Ignore,
    }
}

/// Metadata: browse, read, view, edit.
pub open spec fn metadata_action(viewing: bool, editing: bool, focus: MetaField, event: AppEvent) -> AppAction {
    if viewing {
        if editing {
            metadata_edit_action(focus, event)
        } else {
            match event {
                AppEvent::Char('e') | AppEvent::Char('E') => AppAction::MetadataStartEdit,
                AppEvent::Esc | AppEvent::Enter => AppAction::MetadataBack,
                _ => AppAction::Ignore,
            }
        }
    } else {
        browse_action(event, AppAction::MetadataActivate)
    }
}

/// Optimize, by step: browse the input, set the options, wait, see results.
pub open spec fn optimize_action(step: OptimizeStep, event: AppEvent) -> AppAction {
    match step {
        OptimizeStep::Input => match event {
            AppEvent::Char(' ') => AppAction::OptimizeUseCurrentDir,
            _ => browse_action(event, AppAction::OptimizeActivate),
        },
        OptimizeStep::Config => match event {
            AppEvent::Esc => AppAction::OptimizeBackToInput,
            AppEvent::Up => AppAction::OptimizeFocusPrevious,
            AppEvent::Down => AppAction::OptimizeFocusNext,
            AppEvent::Left => AppAction::OptimizeAdjust(-1i32),
            AppEvent::Right => AppAction::OptimizeAdjust(1i32),
            AppEvent::Enter => AppAction::OptimizeStartRun,
            AppEvent::Backspace => AppAction::OptimizeConfigBackspace,
            AppEvent::Char(c) => AppAction::OptimizeConfigChar(c),
            AppEvent::Other => AppAction::Ignore,
        },
        OptimizeStep::Running => AppAction::Ignore,
        OptimizeStep::Results => match event {
            AppEvent::Esc => AppAction::GoTo(Screen::Home),
            AppEvent::Enter => AppAction::OptimizeBackToConfig,
            _ => AppAction::Ignore,
        },
    }
}

/// What a key press means in state `s`.
pub open spec fn event_action(s: AppState, event: AppEvent) -> AppAction {
    match s.screen {
        Screen::Home => home_action(s.selected, event),
        Screen::Optimize => optimize_action(s.optimize.step, event),
        Screen::Inspect => inspect_action(s.inspect.viewing, event),
        Screen::Convert => convert_action(s.convert.viewing, event),
        Screen::Metadata => metadata_action(
            s.metadata_view.viewing,
            s.metadata_view.editing,
            s.metadata_view.focus,
            event,
        ),
        Screen::Settings => settings_action(s.update.status, event),
    }
}

fn browse_action_exec(event: AppEvent, activate: AppAction) -> (res: AppAction)
    ensures
        res == browse_action(event, activate),
{
    match event {
        AppEvent::Esc => AppAction::GoTo(Screen::Home),
        AppEvent::Up => AppAction::BrowserUp,
        AppEvent::Down => AppAction::BrowserDown,
        AppEvent::Backspace => AppAction::BrowserParent,
        AppEvent::Enter => activate,
        _ => AppAction::Ignore,
    }
}

impl AppController {
    /// What the key press `event` means on the screen shown.
    pub fn action_for(&self, event: AppEvent) -> (res: AppAction)
        requires
            self.state.screen == Screen::Home && event == AppEvent::Enter ==> self.state.selected < 6,
        ensures
            res == event_action(self.state, event),
    {
        let s = &self.state;
        match s.screen {
            Screen::Home => match event {
                AppEvent::Up => AppAction::SelectPrevious,
                AppEvent::Down => AppAction::SelectNext,
                AppEvent::Enter => match self.current_item().target() {
                    Some(screen) => AppAction::GoTo(screen),
                    None => AppAction::Quit,
                },
                AppEvent::Esc | AppEvent::Char('q') | AppEvent::Char('Q') => AppAction::Quit,
                _ => AppAction::Ignore,
            },
            Screen::Settings => {
                if s.update.status == UpdateStatus::Confirming {
                    match event {
                        AppEvent::Enter => AppAction::SettingsStartHomebrewUpdate,
                        AppEvent::Esc => AppAction::SettingsCancelHomebrewUpdate,
                        _ => AppAction::Ignore,
                    }
                } else {
                    match event {
                        AppEvent::Esc | AppEvent::Char('q') | AppEvent::Char('Q') => AppAction::GoTo(Screen::Home),
                        AppEvent::Char('c') | AppEvent::Char('C') => AppAction::SettingsCheckUpdates,
                        AppEvent::Char('u') | AppEvent::Char('U') => AppAction::SettingsConfirmHomebrewUpdate,
                        _ => AppAction::Ignore,
                    }
                }
            },
            Screen::Inspect => {
                if s.inspect.viewing {
                    match event {
                        AppEvent::Esc | AppEvent::Enter => AppAction::InspectBack,
                        _ => AppAction::Ignore,
                    }
                } else {
                    browse_action_exec(event, AppAction::InspectActivate)
                }
            },
            Screen::Convert => {
                if s.convert.viewing {
                    match event {
                        AppEvent::Esc | AppEvent::Enter => AppAction::ConvertBack,
                        _ => AppAction::Ignore,
                    }
                } else {
                    match event {
                        AppEvent::Left => AppAction::ConvertPreviousFormat,
                        AppEvent::Right => AppAction::ConvertNextFormat,
                        _ => browse_action_exec(event, AppAction::ConvertActivate),
                    }
                }
            },
            Screen::Metadata => {
                let view = &s.metadata_view;
                if view.viewing {
                    if view.editing {
                        match event {
                            AppEvent::Esc => AppAction::MetadataCancelEdit,
                            AppEvent::Up => AppAction::MetadataFocusPrevious,
                            AppEvent::Down => AppAction::MetadataFocusNext,
                            AppEvent::Left | AppEvent::Right => AppAction::MetadataToggle,
                            AppEvent::Backspace => AppAction::MetadataEditBackspace,
                            AppEvent::Char(c) => AppAction::MetadataEditChar(c),
                            AppEvent::Enter => match view.focus {
                                MetaField::Save => AppAction::MetadataSave,
                                MetaField::RemoveGps | MetaField::RemoveAi => AppAction::MetadataToggle,
                                _ => AppAction::MetadataFocusNext,
                            },
                            AppEvent::Other => AppAction::Ignore,
                        }
                    } else {
                        match event {
                            AppEvent::Char('e') | AppEvent::Char('E') => AppAction::MetadataStartEdit,
                            AppEvent::Esc | AppEvent::Enter => AppAction::MetadataBack,
                            _ => AppAction::Ignore,
                        }
                    }
                } else {
                    browse_action_exec(event, AppAction::MetadataActivate)
                }
            },
            Screen::Optimize => match s.optimize.step {
                OptimizeStep::Input => match event {
                    AppEvent::Char(' ') => AppAction::OptimizeUseCurrentDir,
                    _ => browse_action_exec(event, AppAction::OptimizeActivate),
                },
                OptimizeStep::Config => match event {
                    AppEvent::Esc => AppAction::OptimizeBackToInput,
                    AppEvent::Up => AppAction::OptimizeFocusPrevious,
                    AppEvent::Down => AppAction::OptimizeFocusNext,
                    AppEvent::Left => AppAction::OptimizeAdjust(-1i32),
                    AppEvent::Right => AppAction::OptimizeAdjust(1i32),
                    AppEvent::Enter => AppAction::OptimizeStartRun,
                    AppEvent::Backspace => AppAction::OptimizeConfigBackspace,
                    AppEvent::Char(c) => AppAction::OptimizeConfigChar(c),
                    AppEvent::Other => AppAction::Ignore,
                },
                OptimizeStep::Running => AppAction::Ignore,
                OptimizeStep::Results => match event {
                    AppEvent::Esc => AppAction::GoTo(Screen::Home),
                    AppEvent::Enter => AppAction::OptimizeBackToConfig,
                    _ => AppAction::Ignore,
                },
            },
        }
    }

    /// The slow job the screen shown is waiting for, if any.
    pub fn pending_work(&self) -> (res: Option<PendingWork>)
        ensures
            res == pending_work_of(self.state),
    {
        let s = &self.state;
        match s.screen {
            Screen::Inspect => match &s.inspect.pending {
                Some(path) => Some(PendingWork::Inspect(path.clone())),
                None => None,
            },
            Screen::Convert => match &s.convert.pending {
                Some(path) => Some(PendingWork::Convert(path.clone(), s.convert.format)),
                None => None,
            },
            Screen::Metadata => match &s.metadata_view.pending {
                Some(path) => Some(PendingWork::ReadMetadata(path.clone())),
                None => None,
            },
            Screen::Settings => if s.update.status == UpdateStatus::Checking {
                Some(PendingWork::CheckUpdates)
            } else if s.update.status == UpdateStatus::Updating {
                Some(PendingWork::HomebrewUpdate)
            } else {
                None
            },
            Screen::Optimize => if s.optimize.step == OptimizeStep::Running {
                Some(PendingWork::OptimizeNext)
            } else {
                None
            },
            Screen::Home => None,
        }
    }
}

/// The slow job that state `s` waits for: the pending file of the screen
/// shown, an update check or update in progress, or the next image of a run.
pub open spec fn pending_work_of(s: AppState) -> Option<PendingWork> {
    match s.screen {
        Screen::Inspect => match s.inspect.pending {
            Some(p) => Some(PendingWork::Inspect(p)),
            None => None,
        },
        Screen::Convert => match s.convert.pending {
            Some(p) => Some(PendingWork::Convert(p, s.convert.format)),
            None => None,
        },
        Screen::Metadata => match s.metadata_view.pending {
            Some(p) => Some(PendingWork::ReadMetadata(p)),
            None => None,
        },
        Screen::Settings => if s.update.status == UpdateStatus::Checking {
            Some(PendingWork::CheckUpdates)
        } else if s.update.status == UpdateStatus::Updating {
            Some(PendingWork::HomebrewUpdate)
        } else {
            None
        },
        Screen::Optimize => if s.optimize.step == OptimizeStep::Running {
            Some(PendingWork::OptimizeNext)
        } else {
            None
        },
        Screen::Home => None,
    }
}

/// The optimize wizard never closes the application: Esc goes back a step,
/// and from the first step back home.
pub proof fn optimize_wizard_never_quits(step: OptimizeStep, event: AppEvent)
    ensures
        optimize_action(step, event) != AppAction::Quit,
        event == AppEvent::Esc ==> optimize_action(step, event) == match step {
            OptimizeStep::Input => AppAction::GoTo(Screen::Home),
            OptimizeStep::Config => AppAction::OptimizeBackToInput,
            OptimizeStep::Running => AppAction::Ignore,
            OptimizeStep::Results => AppAction::GoTo(Screen::Home),
        },
{
}


/// The slow job each screen waits for: the pending inspection, conversion
/// (into the format chosen on the screen) or metadata read of its file; on
/// the settings screen the update check while checking and the Homebrew
/// update once it is started; on the optimize screen the next image while
/// running; nothing otherwise.
pub proof fn pending_work_follows_the_screen(s: AppState)
    ensures
        s.screen == Screen::Inspect ==> pending_work_of(s) == match s.inspect.pending {
            Some(p) => Some(PendingWork::Inspect(p)),
            None => None::<PendingWork>,
        },
        s.screen == Screen::Convert && s.convert.pending is Some ==> pending_work_of(s) == Some(
            PendingWork::Convert(s.convert.pending.unwrap(), s.convert.format),
        ),
        s.screen == Screen::Convert && s.convert.pending is None ==> pending_work_of(s) is None,
        s.screen == Screen::Metadata && s.metadata_view.pending is Some ==> pending_work_of(s) == Some(
            PendingWork::ReadMetadata(s.metadata_view.pending.unwrap()),
        ),
        s.screen == Screen::Metadata && s.metadata_view.pending is None ==> pending_work_of(s) is None,
        s.screen == Screen::Settings && s.update.status == UpdateStatus::Checking ==> pending_work_of(s) == Some(
            PendingWork::CheckUpdates,
        ),
        s.screen == Screen::Settings && s.update.status == UpdateStatus::Updating ==> pending_work_of(s) == Some(
            PendingWork::HomebrewUpdate,
        ),
        s.screen == Screen::Settings && s.update.status != UpdateStatus::Checking && s.update.status
            != UpdateStatus::Updating ==> pending_work_of(s) is None,
        s.screen == Screen::Optimize ==> (pending_work_of(s) == if s.optimize.step == OptimizeStep::Running {
            Some(PendingWork::OptimizeNext)
        } else {
            None
        }),
        s.screen == Screen::Home ==> pending_work_of(s) is None,
{
}

/// Once a confirmed Homebrew update is started on the settings screen, it is
/// the job handed out to run.
pub proof fn started_update_is_handed_out(s0: AppState, s1: AppState)
    requires
        s0.screen == Screen::Settings,
        s0.update.status == UpdateStatus::Confirming,
        crate::app::controller::starts_update(s0, s1),
    ensures
        pending_work_of(s1) == Some(PendingWork::HomebrewUpdate),
{
}

} // verus!
