//! File browser shared by the screens that need a path.
//!
//! Holds the folder shown, its listing (subfolders and images) and the
//! highlighted entry. Reading folders is the caller's: it hands the listing
//! to `refresh` whenever `needs_refresh` is set.

use vstd::prelude::*;
use crate::paths::{is_image, is_image_path, parent_of, path_parent};
use crate::sorting::{has_key, lemma_insert_sorted, same_order_per_key, sorted_by, stable_sort_of};
use crate::text::{chars_of, lex_less, lex_less_exec, lowercase, to_lowercase};

verus! {

/// An entry of the listing: subfolder, image, or the `..` entry.
#[derive(Debug, Clone)]
pub struct BrowserEntry {
    /// Name shown.
    pub name: String,
    /// Full path of the entry.
    pub path: String,
    /// True for folders, `..` included.
    pub is_dir: bool,
    /// True for the `..` entry.
    pub is_parent: bool,
}

pub struct EntryView {
    pub name: Seq<char>,
    pub path: Seq<char>,
    pub is_dir: bool,
    pub is_parent: bool,
}

impl View for BrowserEntry {
    type V = EntryView;

    open spec fn view(&self) -> EntryView {
        EntryView { name: self.name@, path: self.path@, is_dir: self.is_dir, is_parent: self.is_parent }
    }
}

impl BrowserEntry {
    /// A copy of the entry.
    pub fn duplicate(&self) -> (res: BrowserEntry)
        ensures
            res@ == self@,
    {
        BrowserEntry {
            name: self.name.clone(),
            path: self.path.clone(),
            is_dir: self.is_dir,
            is_parent: self.is_parent,
        }
    }
}

/// One item of a folder as the file system lists it.
#[derive(Debug, Clone)]
pub struct DirItem {
    pub name: String,
    pub path: String,
    /// Whether the item is a folder (links followed).
    pub is_dir: bool,
}

pub struct DirItemView {
    pub name: Seq<char>,
    pub path: Seq<char>,
    pub is_dir: bool,
}

impl View for DirItem {
    type V = DirItemView;

    open spec fn view(&self) -> DirItemView {
        DirItemView { name: self.name@, path: self.path@, is_dir: self.is_dir }
    }
}

/// State of the file browser.
#[derive(Debug)]
pub struct Browser {
    /// Folder shown.
    pub current_dir: String,
    /// Visible entries: `..`, subfolders, then images.
    pub entries: Vec<BrowserEntry>,
    /// Index of the highlighted entry.
    pub selected: usize,
    /// Set when the folder changed and its listing must be read again.
    pub needs_refresh: bool,
}

/// Entries are ordered by their name in lower case.
pub open spec fn by_name() -> spec_fn(EntryView) -> Seq<char> {
    |e: EntryView| lowercase(e.name)
}

pub open spec fn entries_view(entries: Seq<BrowserEntry>) -> Seq<EntryView> {
    entries.map_values(|e: BrowserEntry| e@)
}

pub open spec fn items_view(items: Seq<DirItem>) -> Seq<DirItemView> {
    items.map_values(|i: DirItem| i@)
}

/// Names starting with `.` are hidden.
pub open spec fn is_hidden(name: Seq<char>) -> bool {
    name.len() > 0 && name[0] == '.'
}

pub open spec fn item_entry(i: DirItemView) -> EntryView {
    EntryView { name: i.name, path: i.path, is_dir: i.is_dir, is_parent: false }
}

/// The visible subfolders of a listing, in listing order.
pub open spec fn listed_dirs(items: Seq<DirItemView>) -> Seq<EntryView> {
    items.filter(|i: DirItemView| !is_hidden(i.name) && i.is_dir).map_values(
        |i: DirItemView| item_entry(i),
    )
}

/// The visible images of a listing, in listing order.
pub open spec fn listed_images(items: Seq<DirItemView>) -> Seq<EntryView> {
    items.filter(|i: DirItemView| !is_hidden(i.name) && !i.is_dir && is_image_path(i.path)).map_values(
        |i: DirItemView| item_entry(i),
    )
}

/// The `..` entry of a folder, when it has a parent.
pub open spec fn parent_entries(dir: Seq<char>) -> Seq<EntryView> {
    match path_parent(dir) {
        Some(p) => seq![EntryView { name: ".."@, path: p, is_dir: true, is_parent: true }],
        None => Seq::empty(),
    }
}

/// The entries shown for `dir` with listing `items` (`None` when the folder
/// cannot be read): `..` when there is a parent, then the visible subfolders,
/// then the visible images, each group sorted by lower-case name and keeping
/// the listing order among equal names.
pub open spec fn shows_listing(entries: Seq<EntryView>, dir: Seq<char>, items: Option<Seq<DirItemView>>) -> bool {
    let up = parent_entries(dir);
    match items {
        None => entries == up,
        Some(items) => {
            let n = up.len() as int;
            let d = listed_dirs(items).len() as int;
            let f = listed_images(items).len() as int;
            &&& entries.len() == n + d + f
            &&& entries.subrange(0, n) == up
            &&& stable_sort_of(entries.subrange(n, n + d), listed_dirs(items), by_name())
            &&& stable_sort_of(entries.subrange(n + d, n + d + f), listed_images(items), by_name())
        },
    }
}

/// The selection after the listing changed to `len` entries: kept when still
/// inside, else the last entry (0 when empty).
pub open spec fn clamp_selection(selected: usize, len: nat) -> usize {
    if selected >= len {
        if len == 0 {
            0
        } else {
            (len - 1) as usize
        }
    } else {
        selected
    }
}

/// The selection stays on an entry, or at 0 when there is none.
pub open spec fn selection_valid(selected: usize, len: nat) -> bool {
    if len == 0 {
        selected == 0
    } else {
        selected < len
    }
}

/// Sorts by lower-case name, keeping the given order among equal names.
fn sort_by_name(v: Vec<BrowserEntry>) -> (res: Vec<BrowserEntry>)
    ensures
        res.len() == v.len(),
        stable_sort_of(entries_view(res@), entries_view(v@), by_name()),
{
    let ghost input = entries_view(v@);
    let mut res: Vec<BrowserEntry> = Vec::new();
    let mut keys: Vec<Vec<char>> = Vec::new();
    let mut i: usize = 0;
    assert(entries_view(res@) =~= Seq::<EntryView>::empty());
    assert(input.take(0) =~= Seq::<EntryView>::empty());
    while i < v.len()
        invariant
            i <= v.len(),
            input == entries_view(v@),
            keys.len() == res.len(),
            res.len() == i,
            forall|j: int| 0 <= j < keys.len() ==> #[trigger] keys@[j]@ == lowercase(res@[j].name@),
            stable_sort_of(entries_view(res@), input.take(i as int), by_name()),
        decreases v.len() - i,
    {
        let e = v[i].duplicate();
        let lower = to_lowercase(e.name.as_str());
        let key = chars_of(lower.as_str());
        let mut p = res.len();
        while p > 0 && lex_less_exec(&key, &keys[p - 1])
            invariant
                p <= res.len(),
                keys.len() == res.len(),
                forall|j: int| 0 <= j < keys.len() ==> #[trigger] keys@[j]@ == lowercase(res@[j].name@),
                forall|j: int| p <= j < res.len() ==> lex_less(key@, lowercase(#[trigger] res@[j].name@)),
            decreases p,
        {
            p -= 1;
        }
        let ghost old_res = entries_view(res@);
        let ghost ev = e@;
        proof {
            let r = old_res;
            assert forall|j: int| 0 <= j < p implies crate::text::lex_le(
                (by_name())(#[trigger] r[j]),
                (by_name())(ev),
            ) by {
                assert(sorted_by(r, by_name()));
                if p > 0 && j < p - 1 {
                    assert(crate::text::lex_le((by_name())(r[j]), (by_name())(r[p - 1])));
                    crate::text::lemma_lex_le_transitive(
                        (by_name())(r[j]),
                        (by_name())(r[p - 1]),
                        (by_name())(ev),
                    );
                }
            }
            lemma_insert_sorted(r, p as int, ev, by_name());
        }
        res.insert(p, e);
        keys.insert(p, key);
        proof {
            assert(entries_view(res@) =~= old_res.insert(p as int, ev));
            assert(input.take(i + 1) =~= input.take(i as int).push(ev));
            assert forall|k: Seq<char>| #[trigger] entries_view(res@).filter(has_key(by_name(), k))
                == input.take(i + 1).filter(has_key(by_name(), k)) by {
                input.take(i as int).lemma_filter_push(ev, has_key(by_name(), k));
            }
            assert forall|j: int| 0 <= j < keys.len() implies #[trigger] keys@[j]@ == lowercase(
                res@[j].name@,
            ) by {
                if j < p {
                } else if j == p {
                } else {
                }
            }
        }
        i += 1;
    }
    assert(input.take(v.len() as int) =~= input);
    res
}

/// Selection after moving down with wrap-around over `len` entries.
pub open spec fn step_down(selected: usize, len: nat) -> usize {
    if len == 0 {
        selected
    } else {
        ((selected + 1) % (len as int)) as usize
    }
}

/// Selection after moving up with wrap-around over `len` entries.
pub open spec fn step_up(selected: usize, len: nat) -> usize {
    if len == 0 {
        selected
    } else {
        ((selected + len - 1) % (len as int)) as usize
    }
}

impl Browser {
    /// A browser on `current_dir` whose listing is still to be read.
    pub fn new(current_dir: String) -> (res: Self)
        ensures
            res.current_dir == current_dir,
            res.entries@.len() == 0,
            res.selected == 0,
            res.needs_refresh,
    {
        Browser { current_dir, entries: Vec::new(), selected: 0, needs_refresh: true }
    }

    /// Rebuilds the listing from the items of the current folder (`None`
    /// when it cannot be read): `..`, subfolders, then images, hidden names
    /// left out, each group sorted by lower-case name. The selection is moved
    /// back inside the listing when it fell outside.
    pub fn refresh(&mut self, items: Option<Vec<DirItem>>)
        ensures
            final(self).current_dir == old(self).current_dir,
            shows_listing(
                entries_view(final(self).entries@),
                old(self).current_dir@,
                match items {
                    Some(v) => Some(items_view(v@)),
                    None => None,
                },
            ),
            final(self).selected == clamp_selection(old(self).selected, final(self).entries@.len()),
            selection_valid(final(self).selected, final(self).entries@.len()),
            !final(self).needs_refresh,
    {
        let mut entries: Vec<BrowserEntry> = Vec::new();
        if let Some(parent) = parent_of(self.current_dir.as_str()) {
            entries.push(BrowserEntry { name: "..".to_string(), path: parent, is_dir: true, is_parent: true });
        }
        let ghost up = entries_view(entries@);
        assert(up =~= parent_entries(self.current_dir@));
        match items {
            Some(items) => {
                let (dirs, files) = split_listing(&items);
                let dirs = sort_by_name(dirs);
                let files = sort_by_name(files);
                let ghost dv = entries_view(dirs@);
                let ghost fv = entries_view(files@);
                let mut dirs = dirs;
                let mut files = files;
                entries.append(&mut dirs);
                entries.append(&mut files);
                proof {
                    let ev = entries_view(entries@);
                    assert(ev =~= up + dv + fv);
                    assert(ev.subrange(0, up.len() as int) =~= up);
                    let n = up.len() as int;
                    let d = dv.len() as int;
                    let f = fv.len() as int;
                    assert(ev.subrange(n, n + d) =~= dv);
                    assert(ev.subrange(n + d, n + d + f) =~= fv);
                }
            },
            None => {},
        }
        self.entries = entries;
        if self.selected >= self.entries.len() {
            self.selected = if self.entries.len() == 0 {
                0
            } else {
                self.entries.len() - 1
            };
        }
        self.needs_refresh = false;
    }

    /// Moves the selection one entry down, wrapping around.
    pub fn move_down(&mut self)
        requires
            old(self).entries.len() > 0 ==> old(self).selected < usize::MAX,
        ensures
            *final(self) == (Browser { selected: step_down(old(self).selected, old(self).entries@.len()), ..*old(self) }),
    {
        if self.entries.len() == 0 {
            return;
        }
        self.selected = (self.selected + 1) % self.entries.len();
    }

    /// Moves the selection one entry up, wrapping around.
    pub fn move_up(&mut self)
        requires
            old(self).entries.len() > 0 ==> old(self).selected + old(self).entries.len() <= usize::MAX,
        ensures
            *final(self) == (Browser { selected: step_up(old(self).selected, old(self).entries@.len()), ..*old(self) }),
    {
        if self.entries.len() == 0 {
            return;
        }
        let count = self.entries.len();
        self.selected = (self.selected + count - 1) % count;
    }

    /// The highlighted entry.
    pub fn selected_entry(&self) -> (res: Option<&BrowserEntry>)
        ensures
            match res {
                Some(e) => self.selected < self.entries.len() && *e == self.entries@[self.selected as int],
                None => self.selected >= self.entries.len(),
            },
    {
        if self.selected < self.entries.len() {
            Some(&self.entries[self.selected])
        } else {
            None
        }
    }

    /// When the highlighted entry is a folder, opens it: it becomes the
    /// current folder, the selection goes to the top and the listing is due.
    pub fn enter_selected(&mut self)
        ensures
            if old(self).selected < old(self).entries.len() && old(self).entries@[old(self).selected as int].is_dir {
                &&& final(self).current_dir@ == old(self).entries@[old(self).selected as int].path@
                &&& final(self).entries == old(self).entries
                &&& final(self).selected == 0
                &&& final(self).needs_refresh
            } else {
                *final(self) == *old(self)
            },
    {
        if self.selected < self.entries.len() {
            if self.entries[self.selected].is_dir {
                self.current_dir = self.entries[self.selected].path.clone();
                self.selected = 0;
                self.needs_refresh = true;
            }
        }
    }

    /// Goes up to the parent folder, when there is one.
    pub fn to_parent(&mut self)
        ensures
            match path_parent(old(self).current_dir@) {
                Some(p) => {
                    &&& final(self).current_dir@ == p
                    &&& final(self).entries == old(self).entries
                    &&& final(self).selected == 0
                    &&& final(self).needs_refresh
                },
                None => *final(self) == *old(self),
            },
    {
        if let Some(parent) = parent_of(self.current_dir.as_str()) {
            self.current_dir = parent;
            self.selected = 0;
            self.needs_refresh = true;
        }
    }
}

/// Whether a listed item is a visible subfolder.
pub open spec fn shows_as_dir(i: DirItemView) -> bool {
    !is_hidden(i.name) && i.is_dir
}

/// Whether a listed item is a visible image.
pub open spec fn shows_as_image(i: DirItemView) -> bool {
    !is_hidden(i.name) && !i.is_dir && is_image_path(i.path)
}

/// The visible subfolders and images of a listing, in listing order.
fn split_listing(items: &Vec<DirItem>) -> (res: (Vec<BrowserEntry>, Vec<BrowserEntry>))
    ensures
        entries_view(res.0@) == listed_dirs(items_view(items@)),
        entries_view(res.1@) == listed_images(items_view(items@)),
{
    let ghost iv = items_view(items@);
    let mut dirs: Vec<BrowserEntry> = Vec::new();
    let mut files: Vec<BrowserEntry> = Vec::new();
    let mut i: usize = 0;
    assert(iv.take(0) =~= Seq::<DirItemView>::empty());
    assert(entries_view(dirs@) =~= Seq::<EntryView>::empty());
    assert(entries_view(files@) =~= Seq::<EntryView>::empty());
    while i < items.len()
        invariant
            i <= items.len(),
            iv == items_view(items@),
            entries_view(dirs@) == listed_dirs(iv.take(i as int)),
            entries_view(files@) == listed_images(iv.take(i as int)),
        decreases items.len() - i,
    {
        let item = &items[i];
        let name = chars_of(item.name.as_str());
        let hidden = name.len() > 0 && name[0] == '.';
        let ghost p = iv.take(i as int);
        let ghost x = iv[i as int];
        proof {
            assert(iv.take(i + 1) =~= p.push(x));
            p.lemma_filter_push(x, |i: DirItemView| !is_hidden(i.name) && i.is_dir);
            p.lemma_filter_push(x, |i: DirItemView| !is_hidden(i.name) && !i.is_dir && is_image_path(i.path));
        }
        if !hidden {
            if item.is_dir {
                let ghost before = entries_view(dirs@);
                dirs.push(BrowserEntry { name: item.name.clone(), path: item.path.clone(), is_dir: true, is_parent: false });
                assert(entries_view(dirs@) =~= before.push(item_entry(x)));
            } else if is_image(item.path.as_str()) {
                let ghost before = entries_view(files@);
                files.push(BrowserEntry { name: item.name.clone(), path: item.path.clone(), is_dir: false, is_parent: false });
                assert(entries_view(files@) =~= before.push(item_entry(x)));
            }
        }
        i += 1;
    }
    assert(iv.take(items.len() as int) =~= iv);
    (dirs, files)
}

/// Moving down then up, or up then down, comes back to the same entry, and
/// both keep the selection on an entry.
pub proof fn moving_down_and_up_undo_each_other(selected: usize, len: nat)
    requires
        selection_valid(selected, len),
        len <= usize::MAX,
    ensures
        step_up(step_down(selected, len), len) == selected,
        step_down(step_up(selected, len), len) == selected,
        selection_valid(step_down(selected, len), len),
        selection_valid(step_up(selected, len), len),
{
    if len > 0 {
        let n = len as int;
        let s = selected as int;
        assert(0 <= s < n);
        if s + 1 < n {
            vstd::arithmetic::div_mod::lemma_small_mod((s + 1) as nat, n as nat);
            vstd::arithmetic::div_mod::lemma_mod_add_multiples_vanish(s, n);
            vstd::arithmetic::div_mod::lemma_small_mod(s as nat, n as nat);
        } else {
            vstd::arithmetic::div_mod::lemma_mod_self_0(n);
            vstd::arithmetic::div_mod::lemma_small_mod((n - 1) as nat, n as nat);
        }
        if s >= 1 {
            vstd::arithmetic::div_mod::lemma_mod_add_multiples_vanish(s - 1, n);
            vstd::arithmetic::div_mod::lemma_small_mod((s - 1) as nat, n as nat);
            vstd::arithmetic::div_mod::lemma_small_mod(s as nat, n as nat);
            assert((s + n - 1) % n == s - 1);
        } else {
            vstd::arithmetic::div_mod::lemma_small_mod((n - 1) as nat, n as nat);
            vstd::arithmetic::div_mod::lemma_mod_self_0(n);
        }
    }
}


/// On a browser whose selection is on an entry, moving up then down, or
/// down then up, gives back the same browser: the same folder, entries and
/// selection.
pub proof fn browser_moves_undo_each_other(b: Browser)
    requires
        selection_valid(b.selected, b.entries@.len()),
    ensures
        ({
            let len = b.entries@.len();
            let up = Browser { selected: step_up(b.selected, len), ..b };
            let down = Browser { selected: step_down(b.selected, len), ..b };
            &&& (Browser { selected: step_down(up.selected, len), ..up }) == b
            &&& (Browser { selected: step_up(down.selected, len), ..down }) == b
        }),
{
    assert(b.entries@.len() == b.entries.len());
    moving_down_and_up_undo_each_other(b.selected, b.entries@.len());
}

} // verus!
