//! What each screen shows, as lines of styled text. Sizes and percentages,
//! which are printed from floating-point values, come in already written.

use vstd::prelude::*;
use crate::app::browser::{Browser, BrowserEntry, EntryView};
use crate::app::state::{
    AppState, ConvertState, InspectState, MenuItem, MetaField, MetadataView, OptimizeField, OptimizeProgress,
    OptimizeState, OptimizeStep, Screen, UpdateState,
};
use crate::types::OutputFormat;
use crate::metadata::types::MetadataField;
use crate::screens::lines::{
    blank, joined, labelled, labelled_view, line_view, lines_view, pad, padded, piece, pv, single, text_lines,
    text_lines_in, Piece, PieceView, Tone,
};
use crate::screens::{dimension_text, dimension_value, entry_text, first_visible, footer_text, settings_footer};
use crate::text::{ascii_uppercase, ascii_uppercase_exec, decimal, decimal_string};
use crate::update::UpdateStatus;

verus! {

/// The optional text of a field, as plain characters.
pub open spec fn opt_chars(s: Option<String>) -> Option<Seq<char>> {
    match s {
        Some(t) => Some(t@),
        None => None,
    }
}

/// An error line: a cross and the message, in red.
pub open spec fn error_view(message: Seq<char>) -> Seq<PieceView> {
    seq![pv("✖ "@ + message, Tone::Red, false)]
}

fn error_line(message: &str) -> (res: Vec<Piece>)
    ensures
        line_view(res) == error_view(message@),
{
    single(joined("✖ ", message), Tone::Red, false)
}

// ---------------------------------------------------------------- settings

/// The lines that describe where the update check stands.
pub open spec fn status_view(status: UpdateStatus, error: Option<Seq<char>>) -> Seq<Seq<PieceView>> {
    match status {
        UpdateStatus::NotChecked => seq![
            seq![pv("Pulsa c para comprobar si hay una actualización disponible."@, Tone::Gray, false)],
        ],
        UpdateStatus::Checking => seq![seq![pv("Comprobando actualización…"@, Tone::Yellow, false)]],
        UpdateStatus::UpToDate => seq![seq![pv("✓ Estás usando la última versión estable."@, Tone::Green, true)]],
        UpdateStatus::UpdateAvailable => seq![seq![pv("⚠ Hay una actualización disponible."@, Tone::Yellow, true)]],
        UpdateStatus::Confirming => seq![
            seq![pv("Confirma la actualización por Homebrew."@, Tone::Yellow, true)],
            seq![pv("Se ejecutarán estos comandos, sin sudo y sin Cargo:"@, Tone::Gray, false)],
        ],
        UpdateStatus::Updating => seq![seq![pv("Actualizando…"@, Tone::Yellow, true)]],
        UpdateStatus::Updated => seq![
            seq![pv("✓ Actualización completada. Reinicia la app para usar la nueva versión."@, Tone::Green, true)],
        ],
        UpdateStatus::Error => seq![
            seq![
                pv(
                    "✖ No se pudo completar la actualización: "@ + match error {
                        Some(e) => e,
                        None => "error desconocido"@,
                    },
                    Tone::Red,
                    false,
                ),
            ],
        ],
    }
}

pub fn status_lines(update: &UpdateState) -> (res: Vec<Vec<Piece>>)
    ensures
        lines_view(res@) == status_view(update.status, opt_chars(update.error)),
{
    let mut lines: Vec<Vec<Piece>> = Vec::new();
    match update.status {
        UpdateStatus::NotChecked => lines.push(
            single("Pulsa c para comprobar si hay una actualización disponible.".to_string(), Tone::Gray, false),
        ),
        UpdateStatus::Checking => lines.push(single("Comprobando actualización…".to_string(), Tone::Yellow, false)),
        UpdateStatus::UpToDate => lines.push(
            single("✓ Estás usando la última versión estable.".to_string(), Tone::Green, true),
        ),
        UpdateStatus::UpdateAvailable => lines.push(
            single("⚠ Hay una actualización disponible.".to_string(), Tone::Yellow, true),
        ),
        UpdateStatus::Confirming => {
            lines.push(single("Confirma la actualización por Homebrew.".to_string(), Tone::Yellow, true));
            lines.push(
                single("Se ejecutarán estos comandos, sin sudo y sin Cargo:".to_string(), Tone::Gray, false),
            );
        },
        UpdateStatus::Updating => lines.push(single("Actualizando…".to_string(), Tone::Yellow, true)),
        UpdateStatus::Updated => lines.push(
            single(
                "✓ Actualización completada. Reinicia la app para usar la nueva versión.".to_string(),
                Tone::Green,
                true,
            ),
        ),
        UpdateStatus::Error => {
            let reason: &str = match &update.error {
                Some(e) => e.as_str(),
                None => "error desconocido",
            };
            lines.push(single(joined("✖ No se pudo completar la actualización: ", reason), Tone::Red, false));
        },
    }
    assert(lines_view(lines@) =~= status_view(update.status, opt_chars(update.error)));
    lines
}

/// The settings screen: versions, the state of the update check and the log
/// of the last update.
pub open spec fn settings_view(update: UpdateState) -> Seq<Seq<PieceView>> {
    let versions = seq![labelled_view("Versión actual"@, 16, update.current_version@, Tone::White, false)]
        + match update.latest_version {
        Some(l) => seq![labelled_view("Última versión"@, 16, l@, Tone::White, false)],
        None => Seq::empty(),
    };
    let log = match update.log {
        Some(l) => seq![Seq::<PieceView>::empty()] + text_lines(l@).map_values(
            |t: Seq<char>| seq![pv(t, Tone::Gray, false)],
        ),
        None => Seq::empty(),
    };
    versions + seq![Seq::<PieceView>::empty()] + status_view(update.status, opt_chars(update.error)) + log
}

pub fn settings_lines(update: &UpdateState) -> (res: Vec<Vec<Piece>>)
    ensures
        lines_view(res@) == settings_view(*update),
{
    let mut lines: Vec<Vec<Piece>> = Vec::new();
    lines.push(labelled("Versión actual", 16, update.current_version.clone(), Tone::White, false));
    if let Some(latest) = &update.latest_version {
        lines.push(labelled("Última versión", 16, latest.clone(), Tone::White, false));
    }
    lines.push(blank());
    let mut status = status_lines(update);
    let ghost head = lines_view(lines@);
    lines.append(&mut status);
    assert(lines_view(lines@) =~= head + status_view(update.status, opt_chars(update.error)));
    if let Some(log) = &update.log {
        lines.push(blank());
        let ghost head2 = lines_view(lines@);
        let mut rows = text_lines_in(log.as_str(), Tone::Gray);
        lines.append(&mut rows);
        assert(lines_view(lines@) =~= head2 + text_lines(log@).map_values(
            |t: Seq<char>| seq![pv(t, Tone::Gray, false)],
        ));
    }
    assert(lines_view(lines@) =~= settings_view(*update));
    lines
}

// ----------------------------------------------------------------- browser

/// The line of an entry of the listing: a marker on the highlighted one,
/// folders in cyan, the highlighted entry in bold yellow.
pub open spec fn entry_view(e: EntryView, selected: bool) -> Seq<PieceView> {
    seq![
        pv(
            (if selected { "▶ "@ } else { "  "@ }) + entry_text(e.name, e.is_dir, e.is_parent),
            if selected {
                Tone::Yellow
            } else if e.is_dir {
                Tone::Cyan
            } else {
                Tone::White
            },
            selected,
        ),
    ]
}

/// How many entries fit from `start` in `height` lines.
pub open spec fn visible_count(len: nat, start: int, height: nat) -> nat {
    if start >= len {
        0
    } else if len - start < height {
        (len - start) as nat
    } else {
        height
    }
}

/// The listing as drawn in `height` lines: the entries from the first
/// visible one, as many as fit.
pub open spec fn listing_view(entries: Seq<BrowserEntry>, selected: usize, height: usize) -> Seq<Seq<PieceView>> {
    let start = first_visible(selected, height);
    Seq::new(
        visible_count(entries.len(), start, height as nat),
        |k: int| entry_view(entries[start + k]@, start + k == selected),
    )
}

fn entry_line(e: &BrowserEntry, selected: bool) -> (res: Vec<Piece>)
    ensures
        line_view(res) == entry_view(e@, selected),
{
    let label = e.label();
    let text = if selected {
        joined("▶ ", label.as_str())
    } else {
        joined("  ", label.as_str())
    };
    let tone = if selected {
        Tone::Yellow
    } else if e.is_dir {
        Tone::Cyan
    } else {
        Tone::White
    };
    single(text, tone, selected)
}

/// The folder shown: its path in cyan after a gray label.
pub open spec fn folder_view(dir: Seq<char>) -> Seq<PieceView> {
    seq![pv("Carpeta: "@, Tone::Gray, false), pv(dir, Tone::Cyan, false)]
}

pub fn folder_line(browser: &Browser) -> (res: Vec<Piece>)
    ensures
        line_view(res) == folder_view(browser.current_dir@),
{
    let mut line: Vec<Piece> = Vec::new();
    line.push(piece("Carpeta: ".to_string(), Tone::Gray, false));
    line.push(piece(browser.current_dir.clone(), Tone::Cyan, false));
    assert(line_view(line) =~= folder_view(browser.current_dir@));
    line
}

/// The entries of the listing that fit in `height` lines, keeping the
/// highlighted one in view.
pub fn listing_lines(browser: &Browser, height: usize) -> (res: Vec<Vec<Piece>>)
    requires
        browser.selected >= height ==> browser.selected < usize::MAX,
    ensures
        lines_view(res@) == listing_view(browser.entries@, browser.selected, height),
{
    let start = browser.visible_start(height);
    let ghost want = listing_view(browser.entries@, browser.selected, height);
    let mut lines: Vec<Vec<Piece>> = Vec::new();
    let mut i = start;
    while i < browser.entries.len() && i - start < height
        invariant
            start == first_visible(browser.selected, height),
            start <= i,
            i <= browser.entries.len() || i == start,
            i - start <= height,
            want == listing_view(browser.entries@, browser.selected, height),
            lines_view(lines@) == want.take((i - start) as int),
            i - start <= want.len(),
        decreases browser.entries.len() - i,
    {
        let row = entry_line(&browser.entries[i], i == browser.selected);
        let ghost before = lines_view(lines@);
        lines.push(row);
        assert(lines_view(lines@) =~= before.push(want[(i - start) as int]));
        assert(want.take((i - start) as int + 1) =~= want.take((i - start) as int).push(want[(i - start) as int]));
        i += 1;
    }
    assert(want.take((i - start) as int) =~= want);
    lines
}

// -------------------------------------------------------------------- menu

/// A menu entry: the highlighted one with a marker, in bold cyan.
pub open spec fn menu_view(item: MenuItem, selected: bool) -> Seq<PieceView> {
    if selected {
        seq![pv("▶ "@ + item.label_text(), Tone::Cyan, true)]
    } else {
        seq![pv("  "@ + item.label_text(), Tone::Default, false)]
    }
}

pub open spec fn menu_lines_view(selected: usize) -> Seq<Seq<PieceView>> {
    Seq::new(6, |i: int| menu_view(MenuItem::at(i), i == selected))
}

pub fn menu_lines(selected: usize) -> (res: Vec<Vec<Piece>>)
    ensures
        lines_view(res@) == menu_lines_view(selected),
{
    let items = MenuItem::all();
    let ghost want = menu_lines_view(selected);
    let mut lines: Vec<Vec<Piece>> = Vec::new();
    let mut i: usize = 0;
    while i < 6
        invariant
            i <= 6,
            forall|j: int| 0 <= j < 6 ==> #[trigger] items@[j] == MenuItem::at(j),
            want == menu_lines_view(selected),
            lines_view(lines@) == want.take(i as int),
        decreases 6 - i,
    {
        let item = items[i];
        let row = if i == selected {
            single(joined("▶ ", item.label()), Tone::Cyan, true)
        } else {
            single(joined("  ", item.label()), Tone::Default, false)
        };
        let ghost before = lines_view(lines@);
        lines.push(row);
        assert(lines_view(lines@) =~= before.push(want[i as int]));
        assert(want.take(i + 1) =~= want.take(i as int).push(want[i as int]));
        i += 1;
    }
    assert(want.take(6) =~= want);
    lines
}

/// The help line of the home screen: what the highlighted entry does.
pub open spec fn menu_help_text(selected: usize) -> Seq<char> {
    if selected < 6 {
        MenuItem::at(selected as int).description_text()
    } else {
        Seq::empty()
    }
}

pub fn menu_help(selected: usize) -> (res: &'static str)
    ensures
        res@ == menu_help_text(selected),
{
    if selected < 6 {
        let items = MenuItem::all();
        assert(items@[selected as int] == MenuItem::at(selected as int));
        items[selected].description()
    } else {
        proof {
            reveal_strlit("");
        }
        ""
    }
}

// --------------------------------------------------------------- metadata

pub open spec fn section_view(title: Seq<char>) -> Seq<PieceView> {
    seq![pv(title, Tone::Cyan, true)]
}

fn section_line(title: &str) -> (res: Vec<Piece>)
    ensures
        line_view(res) == section_view(title@),
{
    single(title.to_string(), Tone::Cyan, true)
}

/// A text field read from the image: a check and its value, or a cross.
pub open spec fn field_view(label: Seq<char>, field: MetadataField<String>) -> Seq<PieceView> {
    seq![
        pv("  "@ + padded(label, 12), Tone::Gray, false),
        match field.value {
            Some(v) => pv("✓ "@ + v@, Tone::White, false),
            None => pv("✗"@, Tone::DarkGray, false),
        },
    ]
}

fn field_line(label: &str, field: &MetadataField<String>) -> (res: Vec<Piece>)
    ensures
        line_view(res) == field_view(label@, *field),
{
    let padded_label = pad(label, 12);
    let mut line: Vec<Piece> = Vec::new();
    line.push(piece(joined("  ", padded_label.as_str()), Tone::Gray, false));
    match &field.value {
        Some(v) => line.push(piece(joined("✓ ", v.as_str()), Tone::White, false)),
        None => line.push(piece("✗".to_string(), Tone::DarkGray, false)),
    }
    assert(line_view(line) =~= field_view(label@, *field));
    line
}

/// A yes/no fact about the image.
pub open spec fn flag_view(label: Seq<char>, present: bool) -> Seq<PieceView> {
    seq![
        pv("  "@ + padded(label, 12), Tone::Gray, false),
        if present {
            pv("✓ sí"@, Tone::White, false)
        } else {
            pv("✗ no"@, Tone::DarkGray, false)
        },
    ]
}

fn flag_line(label: &str, present: bool) -> (res: Vec<Piece>)
    ensures
        line_view(res) == flag_view(label@, present),
{
    let padded_label = pad(label, 12);
    let mut line: Vec<Piece> = Vec::new();
    line.push(piece(joined("  ", padded_label.as_str()), Tone::Gray, false));
    if present {
        line.push(piece("✓ sí".to_string(), Tone::White, false));
    } else {
        line.push(piece("✗ no".to_string(), Tone::DarkGray, false));
    }
    assert(line_view(line) =~= flag_view(label@, present));
    line
}

/// The metadata read from the last image, with the notice of the last save,
/// or the error. `coordinates` is how the position reads, shown when the
/// image has both coordinates.
pub open spec fn metadata_result_view(view: MetadataView, coordinates: Seq<char>) -> Seq<Seq<PieceView>> {
    match view.error {
        Some(e) => seq![error_view(e@)],
        None => match view.result {
            None => seq![Seq::empty()],
            Some(meta) => {
                let saved = match view.saved {
                    Some(s) => seq![seq![pv(s@, Tone::Green, true)], Seq::empty()],
                    None => Seq::empty(),
                };
                let fields = seq![
                    section_view("WEB"@),
                    field_view("Descripción"@, meta.web.description),
                    field_view("Texto alt"@, meta.web.alt_text),
                    Seq::empty(),
                    section_view("DERECHOS"@),
                    field_view("Autor"@, meta.rights.author),
                    field_view("Copyright"@, meta.rights.copyright),
                    Seq::empty(),
                    section_view("IA"@),
                    flag_view("Detectada"@, meta.ai.detected),
                    field_view("Software"@, meta.ai.software),
                    Seq::empty(),
                    section_view("PRIVACIDAD"@),
                    flag_view("Datos GPS"@, meta.privacy.has_gps),
                ];
                let coords = if meta.seo.latitude.value is Some && meta.seo.longitude.value is Some {
                    seq![seq![pv("  Coordenadas "@, Tone::Gray, false), pv(coordinates, Tone::White, false)]]
                } else {
                    Seq::empty()
                };
                let hints = seq![
                    Seq::empty(),
                    seq![pv("Pulsa e para editar alt text, GPS y limpieza IA."@, Tone::Yellow, false)],
                    seq![pv("Escritura soportada: JPEG y WebP."@, Tone::DarkGray, false)],
                ];
                saved + fields + coords + hints
            },
        },
    }
}

pub fn metadata_result_lines(view: &MetadataView, coordinates: &str) -> (res: Vec<Vec<Piece>>)
    ensures
        lines_view(res@) == metadata_result_view(*view, coordinates@),
{
    let mut lines: Vec<Vec<Piece>> = Vec::new();
    if let Some(e) = &view.error {
        lines.push(error_line(e.as_str()));
        assert(lines_view(lines@) =~= metadata_result_view(*view, coordinates@));
        return lines;
    }
    let meta = match &view.result {
        Some(m) => m,
        None => {
            lines.push(blank());
            assert(lines_view(lines@) =~= metadata_result_view(*view, coordinates@));
            return lines;
        },
    };
    if let Some(s) = &view.saved {
        lines.push(single(s.clone(), Tone::Green, true));
        lines.push(blank());
    }
    lines.push(section_line("WEB"));
    lines.push(field_line("Descripción", &meta.web.description));
    lines.push(field_line("Texto alt", &meta.web.alt_text));
    lines.push(blank());
    lines.push(section_line("DERECHOS"));
    lines.push(field_line("Autor", &meta.rights.author));
    lines.push(field_line("Copyright", &meta.rights.copyright));
    lines.push(blank());
    lines.push(section_line("IA"));
    lines.push(flag_line("Detectada", meta.ai.detected));
    lines.push(field_line("Software", &meta.ai.software));
    lines.push(blank());
    lines.push(section_line("PRIVACIDAD"));
    lines.push(flag_line("Datos GPS", meta.privacy.has_gps));
    if meta.seo.latitude.value.is_some() && meta.seo.longitude.value.is_some() {
        let mut line: Vec<Piece> = Vec::new();
        line.push(piece("  Coordenadas ".to_string(), Tone::Gray, false));
        line.push(piece(coordinates.to_string(), Tone::White, false));
        assert(line_view(line) =~= seq![pv("  Coordenadas "@, Tone::Gray, false), pv(coordinates@, Tone::White, false)]);
        lines.push(line);
    }
    lines.push(blank());
    lines.push(single("Pulsa e para editar alt text, GPS y limpieza IA.".to_string(), Tone::Yellow, false));
    lines.push(single("Escritura soportada: JPEG y WebP.".to_string(), Tone::DarkGray, false));
    assert(lines_view(lines@) =~= metadata_result_view(*view, coordinates@));
    lines
}

/// The marker before a form field, and the tone of its value.
pub open spec fn marker_text(focused: bool) -> Seq<char> {
    if focused { "▶ "@ } else { "  "@ }
}

pub open spec fn marker_tone(focused: bool) -> Tone {
    if focused { Tone::Yellow } else { Tone::White }
}

fn marker(focused: bool) -> (res: (&'static str, Tone))
    ensures
        res.0@ == marker_text(focused),
        res.1 == marker_tone(focused),
{
    if focused {
        ("▶ ", Tone::Yellow)
    } else {
        ("  ", Tone::White)
    }
}

/// A text field of the form, with a cursor when focused.
pub open spec fn text_field_view(label: Seq<char>, value: Seq<char>, focused: bool) -> Seq<PieceView> {
    seq![
        pv(marker_text(focused) + padded(label, 13), Tone::Gray, false),
        pv(if focused { value + "▏"@ } else { value }, marker_tone(focused), false),
    ]
}

fn text_field(label: &str, value: &str, focused: bool) -> (res: Vec<Piece>)
    ensures
        line_view(res) == text_field_view(label@, value@, focused),
{
    let (m, tone) = marker(focused);
    let padded_label = pad(label, 13);
    let shown = if focused {
        joined(value, "▏")
    } else {
        value.to_string()
    };
    let mut line: Vec<Piece> = Vec::new();
    line.push(piece(joined(m, padded_label.as_str()), Tone::Gray, false));
    line.push(piece(shown, tone, false));
    assert(line_view(line) =~= text_field_view(label@, value@, focused));
    line
}

/// A check box of the form.
pub open spec fn toggle_view(label: Seq<char>, on: bool, focused: bool) -> Seq<PieceView> {
    seq![
        pv(marker_text(focused) + padded(label, 13), Tone::Gray, false),
        pv(if on { "[x]"@ } else { "[ ]"@ }, marker_tone(focused), false),
    ]
}

fn toggle_field(label: &str, on: bool, focused: bool) -> (res: Vec<Piece>)
    ensures
        line_view(res) == toggle_view(label@, on, focused),
{
    let (m, tone) = marker(focused);
    let padded_label = pad(label, 13);
    let mark = if on {
        "[x]"
    } else {
        "[ ]"
    };
    let mut line: Vec<Piece> = Vec::new();
    line.push(piece(joined(m, padded_label.as_str()), Tone::Gray, false));
    line.push(piece(mark.to_string(), tone, false));
    assert(line_view(line) =~= toggle_view(label@, on, focused));
    line
}

/// The edit form of the metadata screen.
pub open spec fn metadata_edit_view(view: MetadataView) -> Seq<Seq<PieceView>> {
    let f = view.focus;
    let form = seq![
        seq![pv("Editar metadatos (se guarda en el archivo)"@, Tone::Gray, false)],
        Seq::empty(),
        text_field_view("Alt text"@, view.alt_input@, f == MetaField::AltText),
        text_field_view("Latitud GPS"@, view.lat_input@, f == MetaField::Lat),
        text_field_view("Longitud GPS"@, view.lon_input@, f == MetaField::Lon),
        toggle_view("Quitar GPS"@, view.remove_gps, f == MetaField::RemoveGps),
        toggle_view("Quitar IA"@, view.remove_ai, f == MetaField::RemoveAi),
        seq![
            pv(
                "GPS: rellena latitud y longitud para cambiar; Quitar GPS elimina ubicación."@,
                Tone::DarkGray,
                false,
            ),
        ],
        Seq::empty(),
        seq![pv(marker_text(f == MetaField::Save) + "[ Guardar ]"@, marker_tone(f == MetaField::Save), true)],
    ];
    match view.error {
        Some(e) => form + seq![Seq::empty(), error_view(e@)],
        None => form,
    }
}

pub fn metadata_edit_lines(view: &MetadataView) -> (res: Vec<Vec<Piece>>)
    ensures
        lines_view(res@) == metadata_edit_view(*view),
{
    let f = view.focus;
    let mut lines: Vec<Vec<Piece>> = Vec::new();
    lines.push(single("Editar metadatos (se guarda en el archivo)".to_string(), Tone::Gray, false));
    lines.push(blank());
    lines.push(text_field("Alt text", view.alt_input.as_str(), f == MetaField::AltText));
    lines.push(text_field("Latitud GPS", view.lat_input.as_str(), f == MetaField::Lat));
    lines.push(text_field("Longitud GPS", view.lon_input.as_str(), f == MetaField::Lon));
    lines.push(toggle_field("Quitar GPS", view.remove_gps, f == MetaField::RemoveGps));
    lines.push(toggle_field("Quitar IA", view.remove_ai, f == MetaField::RemoveAi));
    lines.push(
        single(
            "GPS: rellena latitud y longitud para cambiar; Quitar GPS elimina ubicación.".to_string(),
            Tone::DarkGray,
            false,
        ),
    );
    lines.push(blank());
    let (m, tone) = marker(f == MetaField::Save);
    lines.push(single(joined(m, "[ Guardar ]"), tone, true));
    if let Some(e) = &view.error {
        lines.push(blank());
        lines.push(error_line(e.as_str()));
    }
    assert(lines_view(lines@) =~= metadata_edit_view(*view));
    lines
}

// ------------------------------------------------------- inspect, convert

/// How the dimensions of an image read: `W × H px`.
pub open spec fn dimensions_text(width: u32, height: u32) -> Seq<char> {
    decimal(width as nat) + " × "@ + decimal(height as nat) + " px"@
}

fn dimensions(width: u32, height: u32) -> (res: String)
    ensures
        res@ == dimensions_text(width, height),
{
    let w = decimal_string(width as u128);
    let h = decimal_string(height as u128);
    let mut text = joined(w.as_str(), " × ");
    text.append(h.as_str());
    text.append(" px");
    text
}

/// The facts of the last inspected image, or the error. `size` is how its
/// size in bytes reads.
pub open spec fn inspect_result_view(inspect: InspectState, size: Seq<char>) -> Seq<Seq<PieceView>> {
    match inspect.error {
        Some(e) => seq![error_view(e@)],
        None => match inspect.result {
            Some(info) => seq![
                labelled_view("Archivo"@, 12, info.filename@, Tone::White, false),
                labelled_view("Dimensiones"@, 12, dimensions_text(info.width, info.height), Tone::White, false),
                labelled_view("Tamaño"@, 12, size, Tone::White, false),
                labelled_view("Ruta"@, 12, info.path@, Tone::White, false),
            ],
            None => seq![Seq::empty()],
        },
    }
}

pub fn inspect_result_lines(inspect: &InspectState, size: &str) -> (res: Vec<Vec<Piece>>)
    ensures
        lines_view(res@) == inspect_result_view(*inspect, size@),
{
    let mut lines: Vec<Vec<Piece>> = Vec::new();
    if let Some(e) = &inspect.error {
        lines.push(error_line(e.as_str()));
    } else if let Some(info) = &inspect.result {
        lines.push(labelled("Archivo", 12, info.filename.clone(), Tone::White, false));
        lines.push(labelled("Dimensiones", 12, dimensions(info.width, info.height), Tone::White, false));
        lines.push(labelled("Tamaño", 12, size.to_string(), Tone::White, false));
        lines.push(labelled("Ruta", 12, info.path.clone(), Tone::White, false));
    } else {
        lines.push(blank());
    }
    assert(lines_view(lines@) =~= inspect_result_view(*inspect, size@));
    lines
}

/// The last conversion, or the error. `size` is how the size of the new file
/// reads.
pub open spec fn convert_result_view(convert: ConvertState, size: Seq<char>) -> Seq<Seq<PieceView>> {
    match convert.error {
        Some(e) => seq![error_view(e@)],
        None => match convert.result {
            Some(c) => seq![
                seq![pv("✔ Convertida"@, Tone::Green, true)],
                seq![pv("Salida: "@ + c.output_path@, Tone::Default, false)],
                seq![pv("Tamaño: "@ + size, Tone::Default, false)],
            ],
            None => seq![Seq::empty()],
        },
    }
}

pub fn convert_result_lines(convert: &ConvertState, size: &str) -> (res: Vec<Vec<Piece>>)
    ensures
        lines_view(res@) == convert_result_view(*convert, size@),
{
    let mut lines: Vec<Vec<Piece>> = Vec::new();
    if let Some(e) = &convert.error {
        lines.push(error_line(e.as_str()));
    } else if let Some(c) = &convert.result {
        lines.push(single("✔ Convertida".to_string(), Tone::Green, true));
        lines.push(single(joined("Salida: ", c.output_path.as_str()), Tone::Default, false));
        lines.push(single(joined("Tamaño: ", size), Tone::Default, false));
    } else {
        lines.push(blank());
    }
    assert(lines_view(lines@) =~= convert_result_view(*convert, size@));
    lines
}

/// The target format of a conversion, between arrows.
pub open spec fn format_view(format: OutputFormat) -> Seq<PieceView> {
    seq![
        pv("Formato destino: "@, Tone::Gray, false),
        pv("◄ "@ + ascii_uppercase(format.extension_text()) + " ►"@, Tone::Yellow, true),
    ]
}

pub fn format_line(format: OutputFormat) -> (res: Vec<Piece>)
    ensures
        line_view(res) == format_view(format),
{
    let upper = ascii_uppercase_exec(format.extension());
    let mut text = joined("◄ ", upper.as_str());
    text.append(" ►");
    let mut line: Vec<Piece> = Vec::new();
    line.push(piece("Formato destino: ".to_string(), Tone::Gray, false));
    line.push(piece(text, Tone::Yellow, true));
    assert(line_view(line) =~= format_view(format));
    line
}

// ---------------------------------------------------------------- optimize

/// A setting of the optimize form, marked and yellow when focused.
pub open spec fn setting_view(label: Seq<char>, value: Seq<char>, focused: bool) -> Seq<PieceView> {
    seq![
        pv(marker_text(focused) + padded(label, 10), Tone::Gray, false),
        pv(value, marker_tone(focused), true),
    ]
}

fn setting_line(label: &str, value: String, focused: bool) -> (res: Vec<Piece>)
    ensures
        line_view(res) == setting_view(label@, value@, focused),
{
    let (m, tone) = marker(focused);
    let padded_label = pad(label, 10);
    let mut line: Vec<Piece> = Vec::new();
    line.push(piece(joined(m, padded_label.as_str()), Tone::Gray, false));
    line.push(piece(value, tone, true));
    assert(line_view(line) =~= setting_view(label@, value@, focused));
    line
}

/// The settings of an optimization: input, bounds, quality and format.
pub open spec fn optimize_config_view(opt: OptimizeState) -> Seq<Seq<PieceView>> {
    let f = opt.focus;
    seq![
        seq![pv("Entrada    "@, Tone::Gray, false), pv(opt.input@, Tone::Cyan, false)],
        Seq::empty(),
        setting_view("Anchura"@, dimension_text(opt.width@, f == OptimizeField::Width), f == OptimizeField::Width),
        setting_view("Alto"@, dimension_text(opt.height@, f == OptimizeField::Height), f == OptimizeField::Height),
        setting_view("Calidad"@, decimal(opt.quality as nat), f == OptimizeField::Quality),
        setting_view("Formato"@, ascii_uppercase(opt.format.extension_text()), f == OptimizeField::Format),
    ]
}

pub fn optimize_config_lines(opt: &OptimizeState) -> (res: Vec<Vec<Piece>>)
    ensures
        lines_view(res@) == optimize_config_view(*opt),
{
    let f = opt.focus;
    let mut first: Vec<Piece> = Vec::new();
    first.push(piece("Entrada    ".to_string(), Tone::Gray, false));
    first.push(piece(opt.input.clone(), Tone::Cyan, false));
    assert(line_view(first) =~= seq![pv("Entrada    "@, Tone::Gray, false), pv(opt.input@, Tone::Cyan, false)]);
    let mut lines: Vec<Vec<Piece>> = Vec::new();
    lines.push(first);
    lines.push(blank());
    let width_focused = f == OptimizeField::Width;
    lines.push(setting_line("Anchura", dimension_value(opt.width.as_str(), width_focused), width_focused));
    let height_focused = f == OptimizeField::Height;
    lines.push(setting_line("Alto", dimension_value(opt.height.as_str(), height_focused), height_focused));
    lines.push(setting_line("Calidad", decimal_string(opt.quality as u128), f == OptimizeField::Quality));
    lines.push(setting_line("Formato", ascii_uppercase_exec(opt.format.extension()), f == OptimizeField::Format));
    assert(lines_view(lines@) =~= optimize_config_view(*opt));
    lines
}

/// The file being optimized.
pub open spec fn running_view(progress: OptimizeProgress) -> Seq<PieceView> {
    seq![pv("Procesando: "@, Tone::Gray, false), pv(progress.current_file@, Tone::White, false)]
}

pub fn running_line(progress: &OptimizeProgress) -> (res: Vec<Piece>)
    ensures
        line_view(res) == running_view(*progress),
{
    let mut line: Vec<Piece> = Vec::new();
    line.push(piece("Procesando: ".to_string(), Tone::Gray, false));
    line.push(piece(progress.current_file.clone(), Tone::White, false));
    assert(line_view(line) =~= running_view(*progress));
    line
}

/// The count shown on the progress bar: `done / total`.
pub open spec fn progress_text(progress: OptimizeProgress) -> Seq<char> {
    decimal(progress.done as nat) + " / "@ + decimal(progress.total as nat)
}

pub fn progress_label(progress: &OptimizeProgress) -> (res: String)
    ensures
        res@ == progress_text(*progress),
{
    let done = decimal_string(progress.done as u128);
    let total = decimal_string(progress.total as u128);
    let mut text = joined(done.as_str(), " / ");
    text.append(total.as_str());
    text
}

/// The outcome of an optimization: the error, or the summary with a header
/// that says whether it was cancelled. `original`, `optimized` and `saved`
/// are how the two total sizes and the saving read.
pub open spec fn optimize_results_view(
    opt: OptimizeState,
    original: Seq<char>,
    optimized: Seq<char>,
    saved: Seq<char>,
) -> Seq<Seq<PieceView>> {
    match opt.error {
        Some(e) => seq![error_view(e@)],
        None => match opt.results {
            Some(summary) => seq![
                if opt.cancelled {
                    seq![pv("⚠ Cancelado (resultados parciales)"@, Tone::Yellow, true)]
                } else {
                    seq![pv("✔ Optimización completada"@, Tone::Green, true)]
                },
                Seq::empty(),
                labelled_view("Imágenes"@, 12, decimal(summary.count as nat), Tone::White, false),
                labelled_view("Original"@, 12, original, Tone::White, false),
                labelled_view("Optimizado"@, 12, optimized, Tone::White, false),
                labelled_view("Ahorro"@, 12, saved, Tone::White, false),
                labelled_view("Salida"@, 12, summary.output_dir@, Tone::White, false),
            ],
            None => seq![seq![pv("Sin resultados todavía."@, Tone::DarkGray, false)]],
        },
    }
}

pub fn optimize_results_lines(opt: &OptimizeState, original: &str, optimized: &str, saved: &str) -> (res: Vec<
    Vec<Piece>,
>)
    ensures
        lines_view(res@) == optimize_results_view(*opt, original@, optimized@, saved@),
{
    let mut lines: Vec<Vec<Piece>> = Vec::new();
    if let Some(e) = &opt.error {
        lines.push(error_line(e.as_str()));
    } else if let Some(summary) = &opt.results {
        if opt.cancelled {
            lines.push(single("⚠ Cancelado (resultados parciales)".to_string(), Tone::Yellow, true));
        } else {
            lines.push(single("✔ Optimización completada".to_string(), Tone::Green, true));
        }
        lines.push(blank());
        lines.push(labelled("Imágenes", 12, decimal_string(summary.count as u128), Tone::White, false));
        lines.push(labelled("Original", 12, original.to_string(), Tone::White, false));
        lines.push(labelled("Optimizado", 12, optimized.to_string(), Tone::White, false));
        lines.push(labelled("Ahorro", 12, saved.to_string(), Tone::White, false));
        lines.push(labelled("Salida", 12, summary.output_dir.clone(), Tone::White, false));
    } else {
        lines.push(single("Sin resultados todavía.".to_string(), Tone::DarkGray, false));
    }
    assert(lines_view(lines@) =~= optimize_results_view(*opt, original@, optimized@, saved@));
    lines
}

// ------------------------------------------------------ layout and footers

/// What the main area of the screen shows.
#[derive(Debug, Clone, Copy, PartialEq, Eq, Structural)]
pub enum Panel {
    Menu,
    Browser,
    Processing,
    InspectResult,
    ConvertResult,
    MetadataResult,
    MetadataEdit,
    OptimizeConfig,
    OptimizeRunning,
    OptimizeResults,
    Settings,
}

/// The panel of each screen: the browser until a file is chosen, a notice
/// while it is processed, then the result.
pub open spec fn panel_of(state: AppState) -> Panel {
    match state.screen {
        Screen::Home => Panel::Menu,
        Screen::Optimize => match state.optimize.step {
            OptimizeStep::Input => Panel::Browser,
            OptimizeStep::Config => Panel::OptimizeConfig,
            OptimizeStep::Running => Panel::OptimizeRunning,
            OptimizeStep::Results => Panel::OptimizeResults,
        },
        Screen::Metadata => if !state.metadata_view.viewing {
            Panel::Browser
        } else if state.metadata_view.pending is Some {
            Panel::Processing
        } else if state.metadata_view.editing {
            Panel::MetadataEdit
        } else {
            Panel::MetadataResult
        },
        Screen::Convert => if !state.convert.viewing {
            Panel::Browser
        } else if state.convert.pending is Some {
            Panel::Processing
        } else {
            Panel::ConvertResult
        },
        Screen::Inspect => if !state.inspect.viewing {
            Panel::Browser
        } else if state.inspect.pending is Some {
            Panel::Processing
        } else {
            Panel::InspectResult
        },
        Screen::Settings => Panel::Settings,
    }
}

pub fn panel(state: &AppState) -> (res: Panel)
    ensures
        res == panel_of(*state),
{
    match state.screen {
        Screen::Home => Panel::Menu,
        Screen::Optimize => match state.optimize.step {
            OptimizeStep::Input => Panel::Browser,
            OptimizeStep::Config => Panel::OptimizeConfig,
            OptimizeStep::Running => Panel::OptimizeRunning,
            OptimizeStep::Results => Panel::OptimizeResults,
        },
        Screen::Metadata => if !state.metadata_view.viewing {
            Panel::Browser
        } else if state.metadata_view.pending.is_some() {
            Panel::Processing
        } else if state.metadata_view.editing {
            Panel::MetadataEdit
        } else {
            Panel::MetadataResult
        },
        Screen::Convert => if !state.convert.viewing {
            Panel::Browser
        } else if state.convert.pending.is_some() {
            Panel::Processing
        } else {
            Panel::ConvertResult
        },
        Screen::Inspect => if !state.inspect.viewing {
            Panel::Browser
        } else if state.inspect.pending.is_some() {
            Panel::Processing
        } else {
            Panel::InspectResult
        },
        Screen::Settings => Panel::Settings,
    }
}

/// The title of each screen.
pub open spec fn title_text(screen: Screen) -> Seq<char> {
    match screen {
        Screen::Home => "LazaroBox Image"@,
        Screen::Optimize => "Optimizar imágenes"@,
        Screen::Metadata => "Metadatos"@,
        Screen::Convert => "Convertir formatos"@,
        Screen::Inspect => "Inspeccionar imagen"@,
        Screen::Settings => "Ajustes"@,
    }
}

pub fn screen_title(screen: Screen) -> (res: &'static str)
    ensures
        res@ == title_text(screen),
{
    match screen {
        Screen::Home => "LazaroBox Image",
        Screen::Optimize => "Optimizar imágenes",
        Screen::Metadata => "Metadatos",
        Screen::Convert => "Convertir formatos",
        Screen::Inspect => "Inspeccionar imagen",
        Screen::Settings => "Ajustes",
    }
}

/// The keys each screen offers, as its footer lists them.
pub open spec fn footer_of(state: AppState) -> Seq<char> {
    match state.screen {
        Screen::Home => "↑ ↓ Navegar    Enter Seleccionar    Q Salir"@,
        Screen::Optimize => match state.optimize.step {
            OptimizeStep::Input => "↑↓ Mover   Enter Abrir/Elegir   Espacio Usar carpeta   Backspace Subir   Esc Volver"@,
            OptimizeStep::Config => "↑↓ Campo   ←→ Ajustar   0-9 Anchura/Alto   Enter Optimizar   Esc Atrás"@,
            OptimizeStep::Running => "Esc  Cancelar"@,
            OptimizeStep::Results => "Enter  Ajustar y repetir      Esc  Inicio"@,
        },
        Screen::Metadata => if !state.metadata_view.viewing {
            "↑↓ Mover   Enter Abrir/Leer   Backspace Subir   Esc Volver"@
        } else if state.metadata_view.pending is Some {
            "Procesando…"@
        } else if state.metadata_view.editing {
            "↑↓ Campo   ←→/Enter Alternar   Enter Siguiente/Guardar   Esc Cancelar"@
        } else {
            "e Editar      Enter/Esc Volver"@
        },
        Screen::Convert => if state.convert.viewing {
            "Enter / Esc  Volver al navegador"@
        } else {
            "↑↓ Mover   ←→ Formato   Enter Abrir/Convertir   Backspace Subir   Esc Volver"@
        },
        Screen::Inspect => if state.inspect.viewing {
            "Enter / Esc  Volver al navegador"@
        } else {
            "↑↓ Mover   Enter Abrir/Elegir   Backspace Subir   Esc Volver"@
        },
        Screen::Settings => settings_footer(state.update.status),
    }
}

pub fn screen_footer(state: &AppState) -> (res: &'static str)
    ensures
        res@ == footer_of(*state),
{
    match state.screen {
        Screen::Home => "↑ ↓ Navegar    Enter Seleccionar    Q Salir",
        Screen::Optimize => match state.optimize.step {
            OptimizeStep::Input => "↑↓ Mover   Enter Abrir/Elegir   Espacio Usar carpeta   Backspace Subir   Esc Volver",
            OptimizeStep::Config => "↑↓ Campo   ←→ Ajustar   0-9 Anchura/Alto   Enter Optimizar   Esc Atrás",
            OptimizeStep::Running => "Esc  Cancelar",
            OptimizeStep::Results => "Enter  Ajustar y repetir      Esc  Inicio",
        },
        Screen::Metadata => if !state.metadata_view.viewing {
            "↑↓ Mover   Enter Abrir/Leer   Backspace Subir   Esc Volver"
        } else if state.metadata_view.pending.is_some() {
            "Procesando…"
        } else if state.metadata_view.editing {
            "↑↓ Campo   ←→/Enter Alternar   Enter Siguiente/Guardar   Esc Cancelar"
        } else {
            "e Editar      Enter/Esc Volver"
        },
        Screen::Convert => if state.convert.viewing {
            "Enter / Esc  Volver al navegador"
        } else {
            "↑↓ Mover   ←→ Formato   Enter Abrir/Convertir   Backspace Subir   Esc Volver"
        },
        Screen::Inspect => if state.inspect.viewing {
            "Enter / Esc  Volver al navegador"
        } else {
            "↑↓ Mover   Enter Abrir/Elegir   Backspace Subir   Esc Volver"
        },
        Screen::Settings => footer_text(state.update.status),
    }
}

} // verus!
