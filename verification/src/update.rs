//! Checking for and installing a newer published version.

use vstd::prelude::*;
use crate::paths::same_text;
use crate::text::chars_of;

verus! {

/// Where the update check stands.
#[derive(Debug, Clone, Copy, PartialEq, Eq, Structural)]
pub enum UpdateStatus {
    NotChecked,
    Checking,
    UpToDate,
    UpdateAvailable,
    Confirming,
    Updating,
    Updated,
    Error,
}

/// The Homebrew formula of the application.
pub open spec fn formula_text() -> Seq<char> {
    "pichu2707/tap/lazarobox-img"@
}

/// The commands an update through Homebrew runs.
pub open spec fn homebrew_command() -> Seq<char> {
    "brew update && brew upgrade "@ + formula_text()
}

pub fn homebrew_formula() -> (res: String)
    ensures
        res@ == formula_text(),
{
    "pichu2707/tap/lazarobox-img".to_string()
}

/// The commands an update through Homebrew runs, as shown before confirming.
pub fn homebrew_update_command_text() -> (res: String)
    ensures
        res@ == homebrew_command(),
{
    let mut text = "brew update && brew upgrade ".to_string();
    let formula = homebrew_formula();
    text.append(formula.as_str());
    text
}

/// The outcome of a finished update check.
#[derive(Debug, Clone)]
pub struct UpdateCheck {
    pub latest_version: String,
    pub status: UpdateStatus,
}

/// A published version other than the running one is offered as an update.
pub fn check_result(current: &str, latest: String) -> (res: UpdateCheck)
    ensures
        res.latest_version@ == latest@,
        res.status == if latest@ == current@ {
            UpdateStatus::UpToDate
        } else {
            UpdateStatus::UpdateAvailable
        },
{
    let status = if same_text(current, latest.as_str()) {
        UpdateStatus::UpToDate
    } else {
        UpdateStatus::UpdateAvailable
    };
    UpdateCheck { latest_version: latest, status }
}

/// The characters of `body` from `start` up to the next `"` (exclusive).
pub open spec fn quoted_from(body: Seq<char>, start: int) -> Option<Seq<char>> {
    if exists|e: int| start <= e < body.len() && body[e] == '"' {
        let e = choose|e: int|
            start <= e < body.len() && body[e] == '"' && forall|k: int| start <= k < e ==> body[k] != '"';
        Some(body.subrange(start, e))
    } else {
        None
    }
}

/// The key that introduces the latest stable version in a crates.io answer.
pub open spec fn stable_key() -> Seq<char> {
    "\"max_stable_version\":\""@
}

/// The text quoted after the first `"max_stable_version":"` of a crates.io answer.
pub open spec fn latest_stable_in(body: Seq<char>) -> Option<Seq<char>> {
    if exists|i: int| crate::text::occurs_at(body, stable_key(), i) {
        let i = choose|i: int|
            crate::text::occurs_at(body, stable_key(), i) && forall|j: int|
                0 <= j < i ==> !crate::text::occurs_at(body, stable_key(), j);
        quoted_from(body, i + stable_key().len())
    } else {
        None
    }
}

/// The latest stable version named in a crates.io answer about the crate:
/// the text quoted after the first `"max_stable_version":"`.
pub fn latest_stable_version(body: &str) -> (res: Option<String>)
    ensures
        crate::paths::opt_text(res) == latest_stable_in(body@),
{
    let chars = chars_of(body);
    let key = chars_of("\"max_stable_version\":\"");
    proof {
        reveal_strlit("\"max_stable_version\":\"");
    }
    assert(key.len() > 0);
    let mut i: usize = 0;
    while i <= chars.len() && key.len() <= chars.len() - i
        invariant
            chars@ == body@,
            key@ == stable_key(),
            key.len() > 0,
            i <= chars.len() + 1,
            forall|j: int| 0 <= j < i ==> !crate::text::occurs_at(body@, stable_key(), j),
        decreases chars.len() + 1 - i,
    {
        if crate::text::occurs_at_exec(&chars, &key, i) {
            proof {
                let c = choose|c: int|
                    crate::text::occurs_at(body@, stable_key(), c) && forall|j: int|
                        0 <= j < c ==> !crate::text::occurs_at(body@, stable_key(), j);
                assert(c == i) by {
                    if c < i {
                    } else if c > i {
                        assert(!crate::text::occurs_at(body@, stable_key(), i as int));
                    }
                }
            }
            let start = i + key.len();
            let mut e = start;
            while e < chars.len() && chars[e] != '"'
                invariant
                    chars@ == body@,
                    start <= e <= chars.len(),
                    forall|k: int| start <= k < e ==> body@[k] != '"',
                decreases chars.len() - e,
            {
                e += 1;
            }
            if e == chars.len() {
                return None;
            }
            proof {
                let q = choose|q: int|
                    start <= q < body@.len() && body@[q] == '"' && forall|k: int|
                        start <= k < q ==> body@[k] != '"';
                assert(q == e) by {
                    if q < e {
                    } else if q > e {
                    }
                }
            }
            let v = crate::text::chars_slice(&chars, start, e);
            return Some(crate::text::string_of(&v));
        }
        i += 1;
    }
    proof {
        assert forall|j: int| !crate::text::occurs_at(body@, stable_key(), j) by {
            if 0 <= j < i {
            } else if j >= i {
                assert(!(j + stable_key().len() <= body@.len()));
            }
        }
    }
    None
}

} // verus!

verus! {

/// What an update through Homebrew did: the formula upgraded and the output
/// of the commands.
#[derive(Debug, Clone)]
pub struct HomebrewUpdate {
    pub formula: String,
    pub output: String,
}

/// The message shown after a successful update.
pub open spec fn updated_message(formula: Seq<char>, output: Seq<char>) -> Seq<char> {
    "Fórmula actualizada: "@ + formula + seq!['\n'] + output
        + "\nReinicia la app para usar la nueva versión."@
}

pub fn updated_log(update: &HomebrewUpdate) -> (res: String)
    ensures
        res@ == updated_message(update.formula@, update.output@),
{
    let mut log = "Fórmula actualizada: ".to_string();
    log.append(update.formula.as_str());
    crate::text::push_char(&mut log, '\n');
    log.append(update.output.as_str());
    log.append("\nReinicia la app para usar la nueva versión.");
    assert(log@ =~= updated_message(update.formula@, update.output@));
    log
}

} // verus!
