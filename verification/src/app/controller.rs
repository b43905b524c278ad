//! The controller: the only place that changes the application state.
//!
//! Work that reads or writes files, talks to the network or runs programs is
//! done by the caller between two calls: a method marks the work as pending,
//! the caller does it, and hands the outcome to the method that records it.

use vstd::prelude::*;
use crate::app::browser::{step_down, step_up, Browser, BrowserEntry};
use crate::app::state::{
    is_initial, AppState, ConvertState, InspectState, MenuItem, MetaField, MetadataView,
    OptimizeField, OptimizeProgress, OptimizeState, OptimizeStep, OptimizeSummary, Screen,
    UpdateState,
};
use crate::converter::Conversion;
use crate::inspector::ImageInfo;
use crate::metadata::image::ImageMetadata;
use crate::types::OutputFormat;
use crate::text::{chars_of, decimal, decimal_string, parse_i32, parse_i32_exec, parse_u32, parse_u32_exec, trim, trim_chars, utf8_len};
use crate::paths::{file_name_of, path_file_name};
use crate::update::{
    homebrew_command, homebrew_update_command_text, updated_log, updated_message, HomebrewUpdate,
    UpdateCheck, UpdateStatus,
};

verus! {

pub struct AppController {
    pub state: AppState,
}

/// Menu selection after moving down, wrapping around the six items.
pub open spec fn menu_down(selected: usize) -> usize {
    ((selected + 1) % 6) as usize
}

/// Menu selection after moving up, wrapping around the six items.
pub open spec fn menu_up(selected: usize) -> usize {
    ((selected + 6 - 1) % 6) as usize
}

/// Asking to update: from "update available" the commands are shown for
/// confirmation; in any other state nothing changes.
pub open spec fn confirms_update(old: AppState, new: AppState) -> bool {
    if old.update.status == UpdateStatus::UpdateAvailable {
        &&& new == (AppState {
            update: UpdateState {
                status: UpdateStatus::Confirming,
                error: None,
                log: new.update.log,
                ..old.update
            },
            ..old
        })
        &&& new.update.log matches Some(l) && l@ == homebrew_command()
    } else {
        new == old
    }
}

/// Cancelling the confirmation: the update is available again and the
/// commands are no longer shown; outside a confirmation nothing changes.
pub open spec fn cancels_update(old: AppState, new: AppState) -> bool {
    if old.update.status == UpdateStatus::Confirming {
        new == (AppState {
            update: UpdateState { status: UpdateStatus::UpdateAvailable, log: None, ..old.update },
            ..old
        })
    } else {
        new == old
    }
}

/// Confirming: the update becomes pending with its commands shown; outside a
/// confirmation nothing changes.
pub open spec fn starts_update(old: AppState, new: AppState) -> bool {
    if old.update.status == UpdateStatus::Confirming {
        &&& new == (AppState {
            update: UpdateState {
                status: UpdateStatus::Updating,
                error: None,
                log: new.update.log,
                ..old.update
            },
            ..old
        })
        &&& new.update.log matches Some(l) && l@ == homebrew_command()
    } else {
        new == old
    }
}

/// A confirmation that is cancelled leaves the update available, with no
/// commands shown and no error, and everything else as before.
pub proof fn cancelled_confirmation_restores(s0: AppState, s1: AppState, s2: AppState)
    requires
        s0.update.status == UpdateStatus::UpdateAvailable,
        confirms_update(s0, s1),
        cancels_update(s1, s2),
    ensures
        s2 == (AppState { update: UpdateState { error: None, log: None, ..s0.update }, ..s0 }),
{
}

/// The update only starts once confirmed: starting from any state but the
/// confirmation changes nothing, and confirming then starting runs it.
pub proof fn update_starts_only_after_confirmation(s0: AppState, s1: AppState, s2: AppState)
    requires
        confirms_update(s0, s1),
        starts_update(s1, s2),
    ensures
        s0.update.status == UpdateStatus::UpdateAvailable ==> s2.update.status == UpdateStatus::Updating,
        s0.update.status != UpdateStatus::UpdateAvailable && s0.update.status != UpdateStatus::Confirming
            ==> s2 == s0,
{
}

/// Moving the menu selection down then up, or up then down, returns to the
/// same item, and the selection stays on one of the six items.
pub proof fn menu_moves_undo_each_other(selected: usize)
    requires
        selected < 6,
    ensures
        menu_up(menu_down(selected)) == selected,
        menu_down(menu_up(selected)) == selected,
        menu_down(selected) < 6,
        menu_up(selected) < 6,
{
}

impl AppController {
    /// A controller on a fresh state; the browser starts at `current_dir`
    /// and its listing is due.
    pub fn new(current_dir: String, current_version: String) -> (res: Self)
        ensures
            is_initial(res.state),
            res.state.browser.current_dir == current_dir,
            res.state.browser.entries@.len() == 0,
            res.state.browser.selected == 0,
            res.state.browser.needs_refresh,
            res.state.update.current_version == current_version,
    {
        AppController { state: AppState::new(current_dir, current_version) }
    }

    /// Shows `screen`: the browser listing is due again and every screen goes
    /// back to its browser or first step.
    pub fn go_to(&mut self, screen: Screen)
        ensures
            final(self).state == (AppState {
                screen,
                browser: Browser { needs_refresh: true, ..old(self).state.browser },
                inspect: InspectState { viewing: false, ..old(self).state.inspect },
                convert: ConvertState { viewing: false, ..old(self).state.convert },
                metadata_view: MetadataView { viewing: false, ..old(self).state.metadata_view },
                optimize: OptimizeState { step: OptimizeStep::Input, ..old(self).state.optimize },
                ..old(self).state
            }),
    {
        self.state.screen = screen;
        self.state.browser.needs_refresh = true;
        self.state.inspect.viewing = false;
        self.state.convert.viewing = false;
        self.state.metadata_view.viewing = false;
        self.state.optimize.step = OptimizeStep::Input;
    }

    // Settings / updates

    /// Marks an update check as pending.
    pub fn settings_check_updates(&mut self)
        ensures
            final(self).state == (AppState {
                update: UpdateState {
                    latest_version: None,
                    error: None,
                    log: None,
                    status: UpdateStatus::Checking,
                    ..old(self).state.update
                },
                ..old(self).state
            }),
    {
        self.state.update.latest_version = None;
        self.state.update.error = None;
        self.state.update.log = None;
        self.state.update.status = UpdateStatus::Checking;
    }

    /// Records the outcome of the pending update check; does nothing when no
    /// check is pending.
    pub fn settings_run_update_check(&mut self, outcome: Result<UpdateCheck, String>)
        ensures
            old(self).state.update.status != UpdateStatus::Checking ==> *final(self) == *old(self),
            old(self).state.update.status == UpdateStatus::Checking ==> match outcome {
                Ok(r) => final(self).state == (AppState {
                    update: UpdateState {
                        latest_version: Some(r.latest_version),
                        status: r.status,
                        error: None,
                        ..old(self).state.update
                    },
                    ..old(self).state
                }),
                Err(m) => final(self).state == (AppState {
                    update: UpdateState {
                        latest_version: None,
                        status: UpdateStatus::Error,
                        error: Some(m),
                        ..old(self).state.update
                    },
                    ..old(self).state
                }),
            },
    {
        if self.state.update.status != UpdateStatus::Checking {
            return;
        }
        match outcome {
            Ok(result) => {
                self.state.update.latest_version = Some(result.latest_version);
                self.state.update.status = result.status;
                self.state.update.error = None;
            },
            Err(message) => {
                self.state.update.latest_version = None;
                self.state.update.status = UpdateStatus::Error;
                self.state.update.error = Some(message);
            },
        }
    }

    /// Asks for confirmation before running Homebrew, showing the commands.
    pub fn settings_confirm_homebrew_update(&mut self)
        ensures
            confirms_update(old(self).state, final(self).state),
    {
        if self.state.update.status != UpdateStatus::UpdateAvailable {
            return;
        }
        self.state.update.status = UpdateStatus::Confirming;
        self.state.update.error = None;
        self.state.update.log = Some(homebrew_update_command_text());
    }

    /// Cancels the confirmation: the update is available again.
    pub fn settings_cancel_homebrew_update(&mut self)
        ensures
            cancels_update(old(self).state, final(self).state),
    {
        if self.state.update.status == UpdateStatus::Confirming {
            self.state.update.status = UpdateStatus::UpdateAvailable;
            self.state.update.log = None;
        }
    }

    /// Marks the confirmed update as pending; does nothing unless confirming.
    pub fn settings_start_homebrew_update(&mut self)
        ensures
            starts_update(old(self).state, final(self).state),
    {
        if self.state.update.status != UpdateStatus::Confirming {
            return;
        }
        self.state.update.status = UpdateStatus::Updating;
        self.state.update.error = None;
        self.state.update.log = Some(homebrew_update_command_text());
    }

    /// Records the outcome of the pending Homebrew update; does nothing when
    /// no update is running.
    pub fn settings_run_homebrew_update(&mut self, outcome: Result<HomebrewUpdate, String>)
        ensures
            old(self).state.update.status != UpdateStatus::Updating ==> *final(self) == *old(self),
            old(self).state.update.status == UpdateStatus::Updating ==> match outcome {
                Ok(r) => {
                    &&& final(self).state == (AppState {
                        update: UpdateState {
                            status: UpdateStatus::Updated,
                            error: None,
                            log: final(self).state.update.log,
                            ..old(self).state.update
                        },
                        ..old(self).state
                    })
                    &&& final(self).state.update.log matches Some(l) && l@ == updated_message(
                        r.formula@,
                        r.output@,
                    )
                },
                Err(m) => {
                    &&& final(self).state == (AppState {
                        update: UpdateState {
                            status: UpdateStatus::Error,
                            error: Some(m),
                            log: final(self).state.update.log,
                            ..old(self).state.update
                        },
                        ..old(self).state
                    })
                    &&& final(self).state.update.log matches Some(l) && l@ == m@
                },
            },
    {
        if self.state.update.status != UpdateStatus::Updating {
            return;
        }
        match outcome {
            Ok(result) => {
                self.state.update.status = UpdateStatus::Updated;
                self.state.update.error = None;
                self.state.update.log = Some(updated_log(&result));
            },
            Err(message) => {
                self.state.update.status = UpdateStatus::Error;
                self.state.update.log = Some(message.clone());
                self.state.update.error = Some(message);
            },
        }
    }

    // Main menu

    /// Moves the menu selection down, wrapping around.
    pub fn select_next(&mut self)
        requires
            old(self).state.selected < usize::MAX,
        ensures
            final(self).state == (AppState { selected: menu_down(old(self).state.selected), ..old(self).state }),
    {
        self.state.selected = (self.state.selected + 1) % 6;
    }

    /// Moves the menu selection up, wrapping around.
    pub fn select_previous(&mut self)
        requires
            old(self).state.selected + 6 <= usize::MAX,
        ensures
            final(self).state == (AppState { selected: menu_up(old(self).state.selected), ..old(self).state }),
    {
        self.state.selected = (self.state.selected + 6 - 1) % 6;
    }

    /// The highlighted menu item.
    pub fn current_item(&self) -> (res: MenuItem)
        requires
            self.state.selected < 6,
        ensures
            res == MenuItem::at(self.state.selected as int),
    {
        let all = MenuItem::all();
        all[self.state.selected]
    }

    // Shared file browser

    pub fn browser_up(&mut self)
        requires
            old(self).state.browser.entries.len() > 0 ==> old(self).state.browser.selected
                + old(self).state.browser.entries.len() <= usize::MAX,
        ensures
            final(self).state == (AppState {
                browser: Browser {
                    selected: step_up(old(self).state.browser.selected, old(self).state.browser.entries@.len()),
                    ..old(self).state.browser
                },
                ..old(self).state
            }),
    {
        self.state.browser.move_up();
    }

    pub fn browser_down(&mut self)
        requires
            old(self).state.browser.entries.len() > 0 ==> old(self).state.browser.selected < usize::MAX,
        ensures
            final(self).state == (AppState {
                browser: Browser {
                    selected: step_down(old(self).state.browser.selected, old(self).state.browser.entries@.len()),
                    ..old(self).state.browser
                },
                ..old(self).state
            }),
    {
        self.state.browser.move_down();
    }

    /// Goes up to the parent folder in the browser.
    pub fn browser_parent(&mut self)
        ensures
            final(self).state == (AppState { browser: final(self).state.browser, ..old(self).state }),
            match crate::paths::path_parent(old(self).state.browser.current_dir@) {
                Some(p) => {
                    &&& final(self).state.browser.current_dir@ == p
                    &&& final(self).state.browser.entries == old(self).state.browser.entries
                    &&& final(self).state.browser.selected == 0
                    &&& final(self).state.browser.needs_refresh
                },
                None => final(self).state.browser == old(self).state.browser,
            },
    {
        self.state.browser.to_parent();
    }

    /// The highlighted entry: `(is a folder, path)`.
    fn selected_entry(&self) -> (res: Option<(bool, String)>)
        ensures
            match res {
                Some((d, p)) => highlighted(self.state.browser) matches Some(e) && e.is_dir == d
                    && e.path@ == p@,
                None => highlighted(self.state.browser) is None,
            },
    {
        match self.state.browser.selected_entry() {
            Some(entry) => Some((entry.is_dir, entry.path.clone())),
            None => None,
        }
    }
}

impl AppController {
    // Inspect

    /// Opens the highlighted folder, or marks the highlighted file as
    /// pending inspection and shows its result view.
    pub fn inspect_activate(&mut self)
        ensures
            match highlighted(old(self).state.browser) {
                None => *final(self) == *old(self),
                Some(e) => if e.is_dir {
                    &&& final(self).state == (AppState { browser: final(self).state.browser, ..old(self).state })
                    &&& enters(old(self).state.browser, final(self).state.browser, e)
                } else {
                    &&& final(self).state == (AppState {
                        inspect: InspectState {
                            result: None,
                            error: None,
                            pending: final(self).state.inspect.pending,
                            viewing: true,
                        },
                        ..old(self).state
                    })
                    &&& final(self).state.inspect.pending matches Some(p) && p@ == e.path@
                },
            },
    {
        let (is_dir, path) = match self.selected_entry() {
            Some(entry) => entry,
            None => {
                return;
            },
        };
        if is_dir {
            self.state.browser.enter_selected();
        } else {
            self.state.inspect.result = None;
            self.state.inspect.error = None;
            self.state.inspect.pending = Some(path);
            self.state.inspect.viewing = true;
        }
    }

    /// Records the outcome of inspecting the pending file; does nothing when
    /// none is pending.
    pub fn inspect_run_pending(&mut self, outcome: Result<ImageInfo, String>)
        ensures
            old(self).state.inspect.pending is None ==> *final(self) == *old(self),
            old(self).state.inspect.pending is Some ==> final(self).state == (AppState {
                inspect: InspectState {
                    pending: None,
                    result: match outcome {
                        Ok(info) => Some(info),
                        Err(_) => None,
                    },
                    error: match outcome {
                        Ok(_) => None,
                        Err(m) => Some(m),
                    },
                    ..old(self).state.inspect
                },
                ..old(self).state
            }),
    {
        if self.state.inspect.pending.is_none() {
            return;
        }
        self.state.inspect.pending = None;
        match outcome {
            Ok(info) => {
                self.state.inspect.result = Some(info);
                self.state.inspect.error = None;
            },
            Err(message) => {
                self.state.inspect.result = None;
                self.state.inspect.error = Some(message);
            },
        }
    }

    /// Back from the result to the browser.
    pub fn inspect_back(&mut self)
        ensures
            final(self).state == (AppState {
                inspect: InspectState { viewing: false, ..old(self).state.inspect },
                ..old(self).state
            }),
    {
        self.state.inspect.viewing = false;
    }

    // Convert

    /// Next target format.
    pub fn convert_next_format(&mut self)
        ensures
            final(self).state == (AppState {
                convert: ConvertState { format: old(self).state.convert.format.following(), ..old(self).state.convert },
                ..old(self).state
            }),
    {
        self.state.convert.format = self.state.convert.format.next();
    }

    /// Previous target format.
    pub fn convert_previous_format(&mut self)
        ensures
            final(self).state == (AppState {
                convert: ConvertState { format: old(self).state.convert.format.preceding(), ..old(self).state.convert },
                ..old(self).state
            }),
    {
        self.state.convert.format = self.state.convert.format.previous();
    }

    /// Opens the highlighted folder, or marks the highlighted file as
    /// pending conversion and shows its result view.
    pub fn convert_activate(&mut self)
        ensures
            match highlighted(old(self).state.browser) {
                None => *final(self) == *old(self),
                Some(e) => if e.is_dir {
                    &&& final(self).state == (AppState { browser: final(self).state.browser, ..old(self).state })
                    &&& enters(old(self).state.browser, final(self).state.browser, e)
                } else {
                    &&& final(self).state == (AppState {
                        convert: ConvertState {
                            result: None,
                            error: None,
                            pending: final(self).state.convert.pending,
                            viewing: true,
                            ..old(self).state.convert
                        },
                        ..old(self).state
                    })
                    &&& final(self).state.convert.pending matches Some(p) && p@ == e.path@
                },
            },
    {
        let (is_dir, path) = match self.selected_entry() {
            Some(entry) => entry,
            None => {
                return;
            },
        };
        if is_dir {
            self.state.browser.enter_selected();
        } else {
            self.state.convert.result = None;
            self.state.convert.error = None;
            self.state.convert.pending = Some(path);
            self.state.convert.viewing = true;
        }
    }

    /// Records the outcome of converting the pending file; does nothing when
    /// none is pending.
    pub fn convert_run_pending(&mut self, outcome: Result<Conversion, String>)
        ensures
            old(self).state.convert.pending is None ==> *final(self) == *old(self),
            old(self).state.convert.pending is Some ==> final(self).state == (AppState {
                convert: ConvertState {
                    pending: None,
                    result: match outcome {
                        Ok(c) => Some(c),
                        Err(_) => None,
                    },
                    error: match outcome {
                        Ok(_) => None,
                        Err(m) => Some(m),
                    },
                    ..old(self).state.convert
                },
                ..old(self).state
            }),
    {
        if self.state.convert.pending.is_none() {
            return;
        }
        self.state.convert.pending = None;
        match outcome {
            Ok(conversion) => {
                self.state.convert.result = Some(conversion);
                self.state.convert.error = None;
            },
            Err(message) => {
                self.state.convert.result = None;
                self.state.convert.error = Some(message);
            },
        }
    }

    /// Back from the result to the browser.
    pub fn convert_back(&mut self)
        ensures
            final(self).state == (AppState {
                convert: ConvertState { viewing: false, ..old(self).state.convert },
                ..old(self).state
            }),
    {
        self.state.convert.viewing = false;
    }
}

/// Field focused after `field`, wrapping around.
pub open spec fn meta_field_after(field: MetaField) -> MetaField {
    match field {
        MetaField::AltText => MetaField::Lat,
        MetaField::Lat => MetaField::Lon,
        MetaField::Lon => MetaField::RemoveGps,
        MetaField::RemoveGps => MetaField::RemoveAi,
        MetaField::RemoveAi => MetaField::Save,
        MetaField::Save => MetaField::AltText,
    }
}

/// Field focused before `field`: five steps forward in a cycle of six.
pub open spec fn meta_field_before(field: MetaField) -> MetaField {
    meta_field_after(meta_field_after(meta_field_after(meta_field_after(meta_field_after(field)))))
}

/// Next field of the metadata form, wrapping around.
pub fn next_meta_field(field: MetaField) -> (res: MetaField)
    ensures
        res == meta_field_after(field),
{
    match field {
        MetaField::AltText => MetaField::Lat,
        MetaField::Lat => MetaField::Lon,
        MetaField::Lon => MetaField::RemoveGps,
        MetaField::RemoveGps => MetaField::RemoveAi,
        MetaField::RemoveAi => MetaField::Save,
        MetaField::Save => MetaField::AltText,
    }
}

/// Characters accepted while typing a coordinate: digits, point and minus.
pub open spec fn coord_char(c: char) -> bool {
    ('0' <= c && c <= '9') || c == '.' || c == '-'
}

pub fn is_coord_char(c: char) -> (res: bool)
    ensures
        res == coord_char(c),
{
    ('0' <= c && c <= '9') || c == '.' || c == '-'
}

/// The alt text offered when editing starts: the alt text read, else the
/// description read, else nothing.
pub open spec fn initial_alt(result: Option<ImageMetadata>) -> Seq<char> {
    match result {
        Some(m) => match m.web.alt_text.value {
            Some(t) => t@,
            None => match m.web.description.value {
                Some(d) => d@,
                None => Seq::empty(),
            },
        },
        None => Seq::empty(),
    }
}

/// Whether the metadata read hold both coordinates.
pub open spec fn has_both_coordinates(result: Option<ImageMetadata>) -> bool {
    result matches Some(m) && m.seo.latitude.value is Some && m.seo.longitude.value is Some
}

/// The coordinate texts offered when editing starts: those given for the
/// coordinates read, when both were read; else empty.
pub open spec fn initial_gps(result: Option<ImageMetadata>, gps_text: Option<(String, String)>) -> (Seq<char>, Seq<char>) {
    match gps_text {
        Some((lat, lon)) if has_both_coordinates(result) => (lat@, lon@),
        _ => (Seq::empty(), Seq::empty()),
    }
}

impl AppController {
    // Metadata

    /// Opens the highlighted folder, or marks the highlighted file as
    /// pending reading and shows its result view.
    pub fn metadata_activate(&mut self)
        ensures
            match highlighted(old(self).state.browser) {
                None => *final(self) == *old(self),
                Some(e) => if e.is_dir {
                    &&& final(self).state == (AppState { browser: final(self).state.browser, ..old(self).state })
                    &&& enters(old(self).state.browser, final(self).state.browser, e)
                } else {
                    &&& final(self).state == (AppState {
                        metadata_view: MetadataView {
                            result: None,
                            error: None,
                            pending: final(self).state.metadata_view.pending,
                            viewing: true,
                            ..old(self).state.metadata_view
                        },
                        ..old(self).state
                    })
                    &&& final(self).state.metadata_view.pending matches Some(p) && p@ == e.path@
                },
            },
    {
        let (is_dir, path) = match self.selected_entry() {
            Some(entry) => entry,
            None => {
                return;
            },
        };
        if is_dir {
            self.state.browser.enter_selected();
        } else {
            self.state.metadata_view.result = None;
            self.state.metadata_view.error = None;
            self.state.metadata_view.pending = Some(path);
            self.state.metadata_view.viewing = true;
        }
    }

    /// Records the metadata read from the pending file (or why they could
    /// not be read); the file becomes the one to edit. Does nothing when no
    /// file is pending.
    pub fn metadata_run_pending(&mut self, outcome: Result<ImageMetadata, String>)
        ensures
            old(self).state.metadata_view.pending is None ==> *final(self) == *old(self),
            old(self).state.metadata_view.pending is Some ==> final(self).state == (AppState {
                metadata_view: MetadataView {
                    pending: None,
                    path: old(self).state.metadata_view.pending,
                    saved: None,
                    result: match outcome {
                        Ok(m) => Some(m),
                        Err(_) => None,
                    },
                    error: match outcome {
                        Ok(_) => None,
                        Err(e) => Some(e),
                    },
                    ..old(self).state.metadata_view
                },
                ..old(self).state
            }),
    {
        let path = match self.state.metadata_view.pending.take() {
            Some(path) => path,
            None => {
                return;
            },
        };
        match outcome {
            Ok(metadata) => {
                self.state.metadata_view.result = Some(metadata);
                self.state.metadata_view.error = None;
            },
            Err(message) => {
                self.state.metadata_view.result = None;
                self.state.metadata_view.error = Some(message);
            },
        }
        self.state.metadata_view.path = Some(path);
        self.state.metadata_view.saved = None;
    }

    /// Opens the edit form on the image loaded, filled with its alt text
    /// (or description) and, when both coordinates were read, with
    /// `gps_text`: the texts of the latitude and longitude read. Does nothing
    /// without a loaded image.
    pub fn metadata_start_edit(&mut self, gps_text: Option<(String, String)>)
        ensures
            old(self).state.metadata_view.path is None ==> *final(self) == *old(self),
            old(self).state.metadata_view.path is Some ==> {
                &&& final(self).state == (AppState {
                    metadata_view: MetadataView {
                        alt_input: final(self).state.metadata_view.alt_input,
                        lat_input: final(self).state.metadata_view.lat_input,
                        lon_input: final(self).state.metadata_view.lon_input,
                        remove_gps: false,
                        remove_ai: false,
                        focus: MetaField::AltText,
                        error: None,
                        saved: None,
                        editing: true,
                        ..old(self).state.metadata_view
                    },
                    ..old(self).state
                })
                &&& final(self).state.metadata_view.alt_input@ == initial_alt(old(self).state.metadata_view.result)
                &&& (final(self).state.metadata_view.lat_input@, final(self).state.metadata_view.lon_input@)
                    == initial_gps(old(self).state.metadata_view.result, gps_text)
            },
    {
        if self.state.metadata_view.path.is_none() {
            return;
        }
        let both = match &self.state.metadata_view.result {
            Some(m) => m.seo.latitude.value.is_some() && m.seo.longitude.value.is_some(),
            None => false,
        };
        let alt = match &self.state.metadata_view.result {
            Some(m) => match &m.web.alt_text.value {
                Some(t) => t.clone(),
                None => match &m.web.description.value {
                    Some(d) => d.clone(),
                    None => String::new(),
                },
            },
            None => String::new(),
        };
        self.state.metadata_view.alt_input = alt;
        match gps_text {
            Some((lat, lon)) if both => {
                self.state.metadata_view.lat_input = lat;
                self.state.metadata_view.lon_input = lon;
            },
            _ => {
                self.state.metadata_view.lat_input = String::new();
                self.state.metadata_view.lon_input = String::new();
            },
        }
        self.state.metadata_view.remove_gps = false;
        self.state.metadata_view.remove_ai = false;
        self.state.metadata_view.focus = MetaField::AltText;
        self.state.metadata_view.error = None;
        self.state.metadata_view.saved = None;
        self.state.metadata_view.editing = true;
    }

    /// Leaves the form without saving.
    pub fn metadata_cancel_edit(&mut self)
        ensures
            final(self).state == (AppState {
                metadata_view: MetadataView { editing: false, ..old(self).state.metadata_view },
                ..old(self).state
            }),
    {
        self.state.metadata_view.editing = false;
    }

    /// Focuses the next field of the form, wrapping around.
    pub fn metadata_focus_next(&mut self)
        ensures
            final(self).state == (AppState {
                metadata_view: MetadataView {
                    focus: meta_field_after(old(self).state.metadata_view.focus),
                    ..old(self).state.metadata_view
                },
                ..old(self).state
            }),
    {
        self.state.metadata_view.focus = next_meta_field(self.state.metadata_view.focus);
    }

    /// Focuses the previous field of the form, wrapping around: five steps
    /// forward in a cycle of six.
    pub fn metadata_focus_previous(&mut self)
        ensures
            final(self).state == (AppState {
                metadata_view: MetadataView {
                    focus: meta_field_before(old(self).state.metadata_view.focus),
                    ..old(self).state.metadata_view
                },
                ..old(self).state
            }),
    {
        let ghost start = self.state.metadata_view.focus;
        let mut k: usize = 0;
        while k < 5
            invariant
                k <= 5,
                self.state == (AppState {
                    metadata_view: MetadataView { focus: self.state.metadata_view.focus, ..old(self).state.metadata_view },
                    ..old(self).state
                }),
                start == old(self).state.metadata_view.focus,
                k == 0 ==> self.state.metadata_view.focus == start,
                k == 1 ==> self.state.metadata_view.focus == meta_field_after(start),
                k == 2 ==> self.state.metadata_view.focus == meta_field_after(meta_field_after(start)),
                k == 3 ==> self.state.metadata_view.focus == meta_field_after(meta_field_after(meta_field_after(start))),
                k == 4 ==> self.state.metadata_view.focus == meta_field_after(meta_field_after(meta_field_after(meta_field_after(start)))),
                k == 5 ==> self.state.metadata_view.focus == meta_field_before(start),
            decreases 5 - k,
        {
            self.state.metadata_view.focus = next_meta_field(self.state.metadata_view.focus);
            k += 1;
        }
    }

    /// Types `c` into the focused text field; coordinates take only digits,
    /// `.` and `-`.
    pub fn metadata_edit_char(&mut self, c: char)
        ensures
            final(self).state == (AppState {
                metadata_view: MetadataView {
                    alt_input: final(self).state.metadata_view.alt_input,
                    lat_input: final(self).state.metadata_view.lat_input,
                    lon_input: final(self).state.metadata_view.lon_input,
                    ..old(self).state.metadata_view
                },
                ..old(self).state
            }),
            final(self).state.metadata_view.alt_input@ == if old(self).state.metadata_view.focus == MetaField::AltText {
                old(self).state.metadata_view.alt_input@.push(c)
            } else {
                old(self).state.metadata_view.alt_input@
            },
            final(self).state.metadata_view.lat_input@ == if old(self).state.metadata_view.focus == MetaField::Lat && coord_char(c) {
                old(self).state.metadata_view.lat_input@.push(c)
            } else {
                old(self).state.metadata_view.lat_input@
            },
            final(self).state.metadata_view.lon_input@ == if old(self).state.metadata_view.focus == MetaField::Lon && coord_char(c) {
                old(self).state.metadata_view.lon_input@.push(c)
            } else {
                old(self).state.metadata_view.lon_input@
            },
    {
        match self.state.metadata_view.focus {
            MetaField::AltText => crate::text::push_char(&mut self.state.metadata_view.alt_input, c),
            MetaField::Lat => {
                if is_coord_char(c) {
                    crate::text::push_char(&mut self.state.metadata_view.lat_input, c);
                }
            },
            MetaField::Lon => {
                if is_coord_char(c) {
                    crate::text::push_char(&mut self.state.metadata_view.lon_input, c);
                }
            },
            _ => {},
        }
    }

    /// Deletes the last character of the focused text field.
    pub fn metadata_edit_backspace(&mut self)
        ensures
            final(self).state == (AppState {
                metadata_view: MetadataView {
                    alt_input: final(self).state.metadata_view.alt_input,
                    lat_input: final(self).state.metadata_view.lat_input,
                    lon_input: final(self).state.metadata_view.lon_input,
                    ..old(self).state.metadata_view
                },
                ..old(self).state
            }),
            final(self).state.metadata_view.alt_input@ == if old(self).state.metadata_view.focus == MetaField::AltText {
                drop_last_char(old(self).state.metadata_view.alt_input@)
            } else {
                old(self).state.metadata_view.alt_input@
            },
            final(self).state.metadata_view.lat_input@ == if old(self).state.metadata_view.focus == MetaField::Lat {
                drop_last_char(old(self).state.metadata_view.lat_input@)
            } else {
                old(self).state.metadata_view.lat_input@
            },
            final(self).state.metadata_view.lon_input@ == if old(self).state.metadata_view.focus == MetaField::Lon {
                drop_last_char(old(self).state.metadata_view.lon_input@)
            } else {
                old(self).state.metadata_view.lon_input@
            },
    {
        match self.state.metadata_view.focus {
            MetaField::AltText => {
                crate::text::pop_char(&mut self.state.metadata_view.alt_input);
            },
            MetaField::Lat => {
                crate::text::pop_char(&mut self.state.metadata_view.lat_input);
            },
            MetaField::Lon => {
                crate::text::pop_char(&mut self.state.metadata_view.lon_input);
            },
            _ => {},
        }
    }

    /// Flips the focused switch (remove GPS / remove AI).
    pub fn metadata_toggle(&mut self)
        ensures
            final(self).state == (AppState {
                metadata_view: toggled(old(self).state.metadata_view),
                ..old(self).state
            }),
    {
        match self.state.metadata_view.focus {
            MetaField::RemoveGps => self.state.metadata_view.remove_gps = !self.state.metadata_view.remove_gps,
            MetaField::RemoveAi => self.state.metadata_view.remove_ai = !self.state.metadata_view.remove_ai,
            _ => {},
        }
    }

    /// Records the outcome of writing the edit to the loaded image: on
    /// success the form closes with a saved notice and the metadata read
    /// again, if they could be, replace the old ones; on failure the message
    /// is kept. Does nothing without a loaded image.
    pub fn metadata_save(&mut self, outcome: Result<Option<ImageMetadata>, String>)
        ensures
            old(self).state.metadata_view.path is None ==> *final(self) == *old(self),
            old(self).state.metadata_view.path is Some ==> match outcome {
                Ok(reread) => {
                    &&& final(self).state == (AppState {
                        metadata_view: MetadataView {
                            error: None,
                            saved: final(self).state.metadata_view.saved,
                            editing: false,
                            result: match reread {
                                Some(m) => Some(m),
                                None => old(self).state.metadata_view.result,
                            },
                            ..old(self).state.metadata_view
                        },
                        ..old(self).state
                    })
                    &&& final(self).state.metadata_view.saved matches Some(t) && t@ == saved_message()
                },
                Err(m) => final(self).state == (AppState {
                    metadata_view: MetadataView { saved: None, error: Some(m), ..old(self).state.metadata_view },
                    ..old(self).state
                }),
            },
    {
        if self.state.metadata_view.path.is_none() {
            return;
        }
        match outcome {
            Ok(reread) => {
                self.state.metadata_view.error = None;
                self.state.metadata_view.saved = Some("✔ Metadatos guardados".to_string());
                self.state.metadata_view.editing = false;
                if let Some(metadata) = reread {
                    self.state.metadata_view.result = Some(metadata);
                }
            },
            Err(message) => {
                self.state.metadata_view.saved = None;
                self.state.metadata_view.error = Some(message);
            },
        }
    }

    /// Back from the result to the browser.
    pub fn metadata_back(&mut self)
        ensures
            final(self).state == (AppState {
                metadata_view: MetadataView { viewing: false, ..old(self).state.metadata_view },
                ..old(self).state
            }),
    {
        self.state.metadata_view.viewing = false;
    }
}

/// Text without its last character (unchanged when empty).
pub open spec fn drop_last_char(s: Seq<char>) -> Seq<char> {
    if s.len() == 0 {
        s
    } else {
        s.drop_last()
    }
}

/// Field focused after `field` in the optimize settings, wrapping around.
pub open spec fn optimize_field_after(field: OptimizeField) -> OptimizeField {
    match field {
        OptimizeField::Width => OptimizeField::Height,
        OptimizeField::Height => OptimizeField::Quality,
        OptimizeField::Quality => OptimizeField::Format,
        OptimizeField::Format => OptimizeField::Width,
    }
}

/// Field focused before `field` in the optimize settings, wrapping around.
pub open spec fn optimize_field_before(field: OptimizeField) -> OptimizeField {
    match field {
        OptimizeField::Width => OptimizeField::Format,
        OptimizeField::Height => OptimizeField::Width,
        OptimizeField::Quality => OptimizeField::Height,
        OptimizeField::Format => OptimizeField::Quality,
    }
}

/// The number a typed dimension holds: its trimmed text as an `i32`, or 0.
pub open spec fn dimension_number_of(raw: Seq<char>) -> int {
    match parse_i32(trim(raw)) {
        Some(v) => v as int,
        None => 0,
    }
}

/// A typed dimension: none when blank, unreadable or zero (original size).
pub open spec fn dimension_of(raw: Seq<char>) -> Option<u32> {
    if trim(raw).len() == 0 {
        None
    } else {
        match parse_u32(trim(raw)) {
            Some(v) => if v > 0 {
                Some(v)
            } else {
                None
            },
            None => None,
        }
    }
}

/// The dimension number after adjusting by `delta` steps of 10, never below 0.
pub open spec fn adjusted_number(raw: Seq<char>, delta: i32) -> int {
    let next = dimension_number_of(raw) + delta * 10;
    if next < 0 {
        0
    } else {
        next
    }
}

/// The text of a dimension after adjusting it: empty (original size) at 0,
/// else the number.
pub open spec fn adjusted_text(raw: Seq<char>, delta: i32) -> Seq<char> {
    if adjusted_number(raw, delta) == 0 {
        Seq::empty()
    } else {
        decimal(adjusted_number(raw, delta) as nat)
    }
}

/// Whether adjusting a dimension by `delta` stays within `i32`.
pub open spec fn adjust_fits(raw: Seq<char>, delta: i32) -> bool {
    &&& i32::MIN <= delta * 10 <= i32::MAX
    &&& i32::MIN <= dimension_number_of(raw) + delta * 10 <= i32::MAX
}

/// Quality after `delta` steps of 5, kept within 1..=100.
pub open spec fn adjusted_quality(quality: u8, delta: i32) -> u8 {
    let q = quality + delta * 5;
    if q < 1 {
        1
    } else if q > 100 {
        100
    } else {
        q as u8
    }
}

/// The number a typed dimension holds: its trimmed text as an `i32`, or 0.
pub fn dimension_number(raw: &str) -> (res: i32)
    ensures
        res == dimension_number_of(raw@),
{
    let chars = chars_of(raw);
    let trimmed = trim_chars(&chars);
    match parse_i32_exec(&trimmed) {
        Some(v) => v,
        None => 0,
    }
}

/// A typed dimension: blank, unreadable or zero means the original size.
pub fn parse_dimension(raw: &str) -> (res: Option<u32>)
    ensures
        res == dimension_of(raw@),
{
    let chars = chars_of(raw);
    let trimmed = trim_chars(&chars);
    if trimmed.len() == 0 {
        return None;
    }
    match parse_u32_exec(&trimmed) {
        Some(v) => if v > 0 {
            Some(v)
        } else {
            None
        },
        None => None,
    }
}

/// Adjusts a typed dimension by `delta * 10`; reaching 0 makes it blank
/// (original size).
pub fn adjust_dimension(field: &mut String, delta: i32)
    requires
        adjust_fits(old(field)@, delta),
    ensures
        final(field)@ == adjusted_text(old(field)@, delta),
{
    let current = dimension_number(field.as_str());
    let sum = current + delta * 10;
    let next = if sum < 0 {
        0
    } else {
        sum
    };
    if next == 0 {
        *field = String::new();
    } else {
        *field = decimal_string(next as u128);
    }
}

/// An image to optimize and the settings to use.
#[derive(Debug, Clone)]
pub struct OptimizeJob {
    pub image: String,
    pub output_dir: String,
    pub width: Option<u32>,
    pub height: Option<u32>,
    pub quality: u8,
    pub format: OutputFormat,
}

/// The summary of the progress so far.
pub open spec fn summary_of(p: OptimizeProgress, s: OptimizeSummary) -> bool {
    &&& s.count == p.done
    &&& s.original_total == p.acc_original
    &&& s.optimized_total == p.acc_optimized
    &&& s.output_dir@ == p.output_dir@
}

impl AppController {
    // Optimize (wizard: Input -> Config -> Running -> Results)

    /// Opens the highlighted folder, or takes the highlighted file as input
    /// and goes on to the settings.
    pub fn optimize_activate(&mut self)
        ensures
            match highlighted(old(self).state.browser) {
                None => *final(self) == *old(self),
                Some(e) => if e.is_dir {
                    &&& final(self).state == (AppState { browser: final(self).state.browser, ..old(self).state })
                    &&& enters(old(self).state.browser, final(self).state.browser, e)
                } else {
                    &&& final(self).state == (AppState {
                        optimize: OptimizeState {
                            input: final(self).state.optimize.input,
                            step: OptimizeStep::Config,
                            ..old(self).state.optimize
                        },
                        ..old(self).state
                    })
                    &&& final(self).state.optimize.input@ == e.path@
                },
            },
    {
        let (is_dir, path) = match self.selected_entry() {
            Some(entry) => entry,
            None => {
                return;
            },
        };
        if is_dir {
            self.state.browser.enter_selected();
        } else {
            self.state.optimize.input = path;
            self.state.optimize.step = OptimizeStep::Config;
        }
    }

    /// Takes the browser's folder as input and goes on to the settings.
    pub fn optimize_use_current_dir(&mut self)
        ensures
            final(self).state == (AppState {
                optimize: OptimizeState {
                    input: final(self).state.optimize.input,
                    step: OptimizeStep::Config,
                    ..old(self).state.optimize
                },
                ..old(self).state
            }),
            final(self).state.optimize.input@ == old(self).state.browser.current_dir@,
    {
        self.state.optimize.input = self.state.browser.current_dir.clone();
        self.state.optimize.step = OptimizeStep::Config;
    }

    /// From the settings back to choosing the input.
    pub fn optimize_back_to_input(&mut self)
        ensures
            final(self).state == (AppState {
                optimize: OptimizeState { step: OptimizeStep::Input, ..old(self).state.optimize },
                ..old(self).state
            }),
    {
        self.state.optimize.step = OptimizeStep::Input;
    }

    /// From the results back to the settings.
    pub fn optimize_back_to_config(&mut self)
        ensures
            final(self).state == (AppState {
                optimize: OptimizeState { step: OptimizeStep::Config, ..old(self).state.optimize },
                ..old(self).state
            }),
    {
        self.state.optimize.step = OptimizeStep::Config;
    }

    /// Focuses the next setting, wrapping around.
    pub fn optimize_focus_next(&mut self)
        ensures
            final(self).state == (AppState {
                optimize: OptimizeState {
                    focus: optimize_field_after(old(self).state.optimize.focus),
                    ..old(self).state.optimize
                },
                ..old(self).state
            }),
    {
        self.state.optimize.focus = match self.state.optimize.focus {
            OptimizeField::Width => OptimizeField::Height,
            OptimizeField::Height => OptimizeField::Quality,
            OptimizeField::Quality => OptimizeField::Format,
            OptimizeField::Format => OptimizeField::Width,
        };
    }

    /// Focuses the previous setting, wrapping around.
    pub fn optimize_focus_previous(&mut self)
        ensures
            final(self).state == (AppState {
                optimize: OptimizeState {
                    focus: optimize_field_before(old(self).state.optimize.focus),
                    ..old(self).state.optimize
                },
                ..old(self).state
            }),
    {
        self.state.optimize.focus = match self.state.optimize.focus {
            OptimizeField::Width => OptimizeField::Format,
            OptimizeField::Height => OptimizeField::Width,
            OptimizeField::Quality => OptimizeField::Height,
            OptimizeField::Format => OptimizeField::Quality,
        };
    }

    /// Adjusts the focused setting by `delta` (+1 right, -1 left): sizes by
    /// 10 pixels (0 meaning original size), quality by 5 within 1..=100, the
    /// format to the next or previous one.
    pub fn optimize_adjust(&mut self, delta: i32)
        requires
            i32::MIN <= delta * 10 <= i32::MAX,
            old(self).state.optimize.focus == OptimizeField::Width ==> adjust_fits(old(self).state.optimize.width@, delta),
            old(self).state.optimize.focus == OptimizeField::Height ==> adjust_fits(old(self).state.optimize.height@, delta),
        ensures
            final(self).state == (AppState {
                optimize: OptimizeState {
                    width: final(self).state.optimize.width,
                    height: final(self).state.optimize.height,
                    quality: final(self).state.optimize.quality,
                    format: final(self).state.optimize.format,
                    ..old(self).state.optimize
                },
                ..old(self).state
            }),
            final(self).state.optimize.width@ == if old(self).state.optimize.focus == OptimizeField::Width {
                adjusted_text(old(self).state.optimize.width@, delta)
            } else {
                old(self).state.optimize.width@
            },
            final(self).state.optimize.height@ == if old(self).state.optimize.focus == OptimizeField::Height {
                adjusted_text(old(self).state.optimize.height@, delta)
            } else {
                old(self).state.optimize.height@
            },
            final(self).state.optimize.quality == if old(self).state.optimize.focus == OptimizeField::Quality {
                adjusted_quality(old(self).state.optimize.quality, delta)
            } else {
                old(self).state.optimize.quality
            },
            final(self).state.optimize.format == if old(self).state.optimize.focus == OptimizeField::Format {
                if delta >= 0 {
                    old(self).state.optimize.format.following()
                } else {
                    old(self).state.optimize.format.preceding()
                }
            } else {
                old(self).state.optimize.format
            },
    {
        match self.state.optimize.focus {
            OptimizeField::Width => adjust_dimension(&mut self.state.optimize.width, delta),
            OptimizeField::Height => adjust_dimension(&mut self.state.optimize.height, delta),
            OptimizeField::Quality => {
                let quality = self.state.optimize.quality as i32 + delta * 5;
                let clamped = if quality < 1 {
                    1
                } else if quality > 100 {
                    100
                } else {
                    quality
                };
                self.state.optimize.quality = clamped as u8;
            },
            OptimizeField::Format => {
                self.state.optimize.format = if delta >= 0 {
                    self.state.optimize.format.next()
                } else {
                    self.state.optimize.format.previous()
                };
            },
        }
    }

    /// Types a digit into the focused size, up to five bytes of text.
    pub fn optimize_config_char(&mut self, c: char)
        ensures
            final(self).state == (AppState {
                optimize: OptimizeState {
                    width: final(self).state.optimize.width,
                    height: final(self).state.optimize.height,
                    ..old(self).state.optimize
                },
                ..old(self).state
            }),
            final(self).state.optimize.width@ == if '0' <= c && c <= '9' && old(self).state.optimize.focus
                == OptimizeField::Width && utf8_len(old(self).state.optimize.width@) < 5 {
                old(self).state.optimize.width@.push(c)
            } else {
                old(self).state.optimize.width@
            },
            final(self).state.optimize.height@ == if '0' <= c && c <= '9' && old(self).state.optimize.focus
                == OptimizeField::Height && utf8_len(old(self).state.optimize.height@) < 5 {
                old(self).state.optimize.height@.push(c)
            } else {
                old(self).state.optimize.height@
            },
    {
        if !('0' <= c && c <= '9') {
            return;
        }
        match self.state.optimize.focus {
            OptimizeField::Width => {
                if crate::text::utf8_len_below(self.state.optimize.width.as_str(), 5) {
                    crate::text::push_char(&mut self.state.optimize.width, c);
                }
            },
            OptimizeField::Height => {
                if crate::text::utf8_len_below(self.state.optimize.height.as_str(), 5) {
                    crate::text::push_char(&mut self.state.optimize.height, c);
                }
            },
            _ => {},
        }
    }

    /// Deletes the last character of the focused size.
    pub fn optimize_config_backspace(&mut self)
        ensures
            final(self).state == (AppState {
                optimize: OptimizeState {
                    width: final(self).state.optimize.width,
                    height: final(self).state.optimize.height,
                    ..old(self).state.optimize
                },
                ..old(self).state
            }),
            final(self).state.optimize.width@ == if old(self).state.optimize.focus == OptimizeField::Width {
                drop_last_char(old(self).state.optimize.width@)
            } else {
                old(self).state.optimize.width@
            },
            final(self).state.optimize.height@ == if old(self).state.optimize.focus == OptimizeField::Height {
                drop_last_char(old(self).state.optimize.height@)
            } else {
                old(self).state.optimize.height@
            },
    {
        match self.state.optimize.focus {
            OptimizeField::Width => {
                crate::text::pop_char(&mut self.state.optimize.width);
            },
            OptimizeField::Height => {
                crate::text::pop_char(&mut self.state.optimize.height);
            },
            _ => {},
        }
    }

    /// The input to scan for a run: the trimmed input text, unless blank.
    pub fn optimize_run_input(&self) -> (res: Option<String>)
        ensures
            match res {
                Some(t) => t@ == trim(self.state.optimize.input@) && t@.len() > 0,
                None => trim(self.state.optimize.input@).len() == 0,
            },
    {
        let chars = chars_of(self.state.optimize.input.as_str());
        let trimmed = trim_chars(&chars);
        if trimmed.len() == 0 {
            None
        } else {
            Some(crate::text::string_of(&trimmed))
        }
    }

    /// Starts a run with the outcome of scanning the input: the images found
    /// and the output folder created, or why that failed (shown as the
    /// result). Does nothing while the input is blank.
    pub fn optimize_start_run(&mut self, outcome: Result<(Vec<String>, String), String>)
        ensures
            trim(old(self).state.optimize.input@).len() == 0 ==> *final(self) == *old(self),
            trim(old(self).state.optimize.input@).len() > 0 ==> match outcome {
                Ok((images, output_dir)) => final(self).state == (AppState {
                    optimize: OptimizeState {
                        progress: OptimizeProgress {
                            queue: images,
                            done: 0,
                            total: images.len(),
                            current_file: final(self).state.optimize.progress.current_file,
                            acc_original: 0,
                            acc_optimized: 0,
                            output_dir,
                        },
                        results: None,
                        cancelled: false,
                        error: None,
                        step: OptimizeStep::Running,
                        ..old(self).state.optimize
                    },
                    ..old(self).state
                }) && final(self).state.optimize.progress.current_file@.len() == 0,
                Err(m) => final(self).state == (AppState {
                    optimize: OptimizeState {
                        results: None,
                        error: Some(m),
                        step: OptimizeStep::Results,
                        ..old(self).state.optimize
                    },
                    ..old(self).state
                }),
            },
    {
        if self.optimize_run_input().is_none() {
            return;
        }
        match outcome {
            Ok((images, output_dir)) => {
                let total = images.len();
                self.state.optimize.progress = OptimizeProgress {
                    queue: images,
                    done: 0,
                    total,
                    current_file: String::new(),
                    acc_original: 0,
                    acc_optimized: 0,
                    output_dir,
                };
                self.state.optimize.results = None;
                self.state.optimize.cancelled = false;
                self.state.optimize.error = None;
                self.state.optimize.step = OptimizeStep::Running;
            },
            Err(message) => {
                self.state.optimize.results = None;
                self.state.optimize.error = Some(message);
                self.state.optimize.step = OptimizeStep::Results;
            },
        }
    }

    /// Builds the summary of what was processed and shows the results.
    fn finish_optimization(&mut self)
        ensures
            final(self).state == (AppState {
                optimize: OptimizeState {
                    results: final(self).state.optimize.results,
                    error: None,
                    step: OptimizeStep::Results,
                    ..old(self).state.optimize
                },
                ..old(self).state
            }),
            final(self).state.optimize.results matches Some(s) && summary_of(old(self).state.optimize.progress, s),
    {
        let summary = OptimizeSummary {
            count: self.state.optimize.progress.done,
            original_total: self.state.optimize.progress.acc_original,
            optimized_total: self.state.optimize.progress.acc_optimized,
            output_dir: self.state.optimize.progress.output_dir.clone(),
        };
        self.state.optimize.results = Some(summary);
        self.state.optimize.error = None;
        self.state.optimize.step = OptimizeStep::Results;
    }

    /// Cancels the run: the images left are dropped and what was processed
    /// is shown as a cancelled result.
    pub fn optimize_cancel(&mut self)
        ensures
            final(self).state == (AppState {
                optimize: OptimizeState {
                    progress: OptimizeProgress {
                        queue: final(self).state.optimize.progress.queue,
                        ..old(self).state.optimize.progress
                    },
                    results: final(self).state.optimize.results,
                    error: None,
                    step: OptimizeStep::Results,
                    cancelled: true,
                    ..old(self).state.optimize
                },
                ..old(self).state
            }),
            final(self).state.optimize.progress.queue@.len() == 0,
            final(self).state.optimize.results matches Some(s) && summary_of(old(self).state.optimize.progress, s),
    {
        self.state.optimize.progress.queue = Vec::new();
        self.finish_optimization();
        self.state.optimize.cancelled = true;
    }

    /// Takes the next image of the run and returns what to do with it; with
    /// none left, finishes the run and returns `None`.
    pub fn optimize_tick(&mut self) -> (res: Option<OptimizeJob>)
        ensures
            old(self).state.optimize.progress.queue@.len() == 0 ==> {
                &&& res is None
                &&& final(self).state == (AppState {
                    optimize: OptimizeState {
                        results: final(self).state.optimize.results,
                        error: None,
                        step: OptimizeStep::Results,
                        ..old(self).state.optimize
                    },
                    ..old(self).state
                })
                &&& final(self).state.optimize.results matches Some(s) && summary_of(old(self).state.optimize.progress, s)
            },
            old(self).state.optimize.progress.queue@.len() > 0 ==> {
                let image = old(self).state.optimize.progress.queue@[0];
                &&& final(self).state == (AppState {
                    optimize: OptimizeState {
                        progress: OptimizeProgress {
                            queue: final(self).state.optimize.progress.queue,
                            current_file: final(self).state.optimize.progress.current_file,
                            ..old(self).state.optimize.progress
                        },
                        ..old(self).state.optimize
                    },
                    ..old(self).state
                })
                &&& final(self).state.optimize.progress.queue@ == old(self).state.optimize.progress.queue@.drop_first()
                &&& final(self).state.optimize.progress.current_file@ == match path_file_name(image@) {
                    Some(n) => n,
                    None => Seq::empty(),
                }
                &&& res matches Some(job) && {
                    &&& job.image == image
                    &&& job.output_dir@ == old(self).state.optimize.progress.output_dir@
                    &&& job.width == dimension_of(old(self).state.optimize.width@)
                    &&& job.height == dimension_of(old(self).state.optimize.height@)
                    &&& job.quality == old(self).state.optimize.quality
                    &&& job.format == old(self).state.optimize.format
                }
            },
    {
        if self.state.optimize.progress.queue.len() == 0 {
            self.finish_optimization();
            return None;
        }
        let image = self.state.optimize.progress.queue.remove(0);
        assert(self.state.optimize.progress.queue@ =~= old(self).state.optimize.progress.queue@.drop_first());
        self.state.optimize.progress.current_file = match file_name_of(image.as_str()) {
            Some(name) => name,
            None => String::new(),
        };
        Some(OptimizeJob {
            image,
            output_dir: self.state.optimize.progress.output_dir.clone(),
            width: parse_dimension(self.state.optimize.width.as_str()),
            height: parse_dimension(self.state.optimize.height.as_str()),
            quality: self.state.optimize.quality,
            format: self.state.optimize.format,
        })
    }

    /// Records the outcome of optimizing the image taken by `optimize_tick`:
    /// its original and optimized sizes are added up, or the run stops with
    /// the error.
    pub fn optimize_record(&mut self, outcome: Result<(u64, u64), String>)
        requires
            outcome matches Ok((o, p)) ==> {
                &&& old(self).state.optimize.progress.acc_original + o <= u64::MAX
                &&& old(self).state.optimize.progress.acc_optimized + p <= u64::MAX
                &&& old(self).state.optimize.progress.done < usize::MAX
            },
        ensures
            match outcome {
                Ok((o, p)) => final(self).state == (AppState {
                    optimize: OptimizeState {
                        progress: OptimizeProgress {
                            acc_original: (old(self).state.optimize.progress.acc_original + o) as u64,
                            acc_optimized: (old(self).state.optimize.progress.acc_optimized + p) as u64,
                            done: (old(self).state.optimize.progress.done + 1) as usize,
                            ..old(self).state.optimize.progress
                        },
                        ..old(self).state.optimize
                    },
                    ..old(self).state
                }),
                Err(m) => final(self).state == (AppState {
                    optimize: OptimizeState {
                        results: None,
                        error: Some(m),
                        step: OptimizeStep::Results,
                        ..old(self).state.optimize
                    },
                    ..old(self).state
                }),
            },
    {
        match outcome {
            Ok((original, optimized)) => {
                self.state.optimize.progress.acc_original = self.state.optimize.progress.acc_original + original;
                self.state.optimize.progress.acc_optimized = self.state.optimize.progress.acc_optimized + optimized;
                self.state.optimize.progress.done = self.state.optimize.progress.done + 1;
            },
            Err(message) => {
                self.state.optimize.results = None;
                self.state.optimize.error = Some(message);
                self.state.optimize.step = OptimizeStep::Results;
            },
        }
    }
}

/// Stepping the metadata form focus back undoes stepping it forward, and
/// the other way round.
pub proof fn meta_focus_steps_undo_each_other(f: MetaField)
    ensures
        meta_field_before(meta_field_after(f)) == f,
        meta_field_after(meta_field_before(f)) == f,
{
}

/// Stepping the optimize settings focus back undoes stepping it forward, and
/// the other way round.
pub proof fn optimize_focus_steps_undo_each_other(f: OptimizeField)
    ensures
        optimize_field_before(optimize_field_after(f)) == f,
        optimize_field_after(optimize_field_before(f)) == f,
{
}

/// Adjusting the quality always leaves it within 1..=100.
pub proof fn quality_stays_in_range(quality: u8, delta: i32)
    ensures
        1 <= adjusted_quality(quality, delta) <= 100,
{
}

/// A size adjusted right then left comes back: a blank size stays blank, and
/// a size written as a plain number returns to it.
pub proof fn adjusting_right_then_left_restores(n: nat)
    requires
        n + 10 <= i32::MAX,
    ensures
        adjusted_text(adjusted_text(Seq::empty(), 1i32), -1i32) == Seq::<char>::empty(),
        n > 0 ==> adjusted_text(adjusted_text(decimal(n), 1i32), -1i32) == decimal(n),
{
    crate::text::lemma_trim_empty();
    crate::text::lemma_parse_i32_decimal(0);
    crate::text::lemma_parse_i32_decimal(10);
    crate::text::lemma_parse_i32_decimal(n);
    crate::text::lemma_parse_i32_decimal(n + 10);
    assert(dimension_number_of(Seq::empty()) == 0);
    assert(adjusted_number(Seq::empty(), 1i32) == 10);
    assert(adjusted_text(Seq::empty(), 1i32) == decimal(10));
    assert(dimension_number_of(decimal(10)) == 10);
    if n > 0 {
        assert(dimension_number_of(decimal(n)) == n);
        assert(adjusted_text(decimal(n), 1i32) == decimal(n + 10));
        assert(dimension_number_of(decimal(n + 10)) == n + 10);
    }
}

/// The form after flipping the focused switch.
pub open spec fn toggled(v: MetadataView) -> MetadataView {
    MetadataView {
        remove_gps: if v.focus == MetaField::RemoveGps {
            !v.remove_gps
        } else {
            v.remove_gps
        },
        remove_ai: if v.focus == MetaField::RemoveAi {
            !v.remove_ai
        } else {
            v.remove_ai
        },
        ..v
    }
}

/// Flipping a switch twice leaves the form as it was.
pub proof fn toggling_twice_restores(v: MetadataView)
    ensures
        toggled(toggled(v)) == v,
{
}

/// The highlighted entry of the browser.
pub open spec fn highlighted(b: Browser) -> Option<BrowserEntry> {
    if b.selected < b.entries.len() {
        Some(b.entries@[b.selected as int])
    } else {
        None
    }
}

/// `new` is `old` after opening the folder `e`: it is the current folder,
/// the selection is at the top and the listing is due.
pub open spec fn enters(old: Browser, new: Browser, e: BrowserEntry) -> bool {
    &&& new.current_dir@ == e.path@
    &&& new.entries == old.entries
    &&& new.selected == 0
    &&& new.needs_refresh
}

/// Shown when the metadata have been saved.
pub open spec fn saved_message() -> Seq<char> {
    "✔ Metadatos guardados"@
}


/// The alt text field of the edit form starts from the alt text read, or
/// else from the description read, or else empty.
pub proof fn edit_form_starts_from_alt_text_or_description(m: ImageMetadata)
    ensures
        m.web.alt_text.value is Some ==> initial_alt(Some(m)) == m.web.alt_text.value.unwrap()@,
        m.web.alt_text.value is None && m.web.description.value is Some ==> initial_alt(Some(m))
            == m.web.description.value.unwrap()@,
        m.web.alt_text.value is None && m.web.description.value is None ==> initial_alt(Some(m)).len() == 0,
        initial_alt(None).len() == 0,
{
}

} // verus!
