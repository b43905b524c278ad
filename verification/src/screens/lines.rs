//! Screen contents as lines of styled text: each line a list of pieces, each
//! piece a text with a colour and a weight. The front end draws them.

use vstd::prelude::*;
use crate::text::{chars_of, push_char};

verus! {

/// Colour of a piece of text; `Default` is the terminal's own.
#[derive(Debug, Clone, Copy, PartialEq, Eq, Structural)]
pub enum Tone {
    Default,
    Gray,
    DarkGray,
    White,
    Cyan,
    Yellow,
    Green,
    Red,
}

/// A run of text drawn in one tone, bold or not.
#[derive(Debug, Clone)]
pub struct Piece {
    pub text: String,
    pub tone: Tone,
    pub bold: bool,
}

pub struct PieceView {
    pub text: Seq<char>,
    pub tone: Tone,
    pub bold: bool,
}

impl View for Piece {
    type V = PieceView;

    open spec fn view(&self) -> PieceView {
        PieceView { text: self.text@, tone: self.tone, bold: self.bold }
    }
}

pub open spec fn pv(text: Seq<char>, tone: Tone, bold: bool) -> PieceView {
    PieceView { text, tone, bold }
}

/// The pieces of a line, left to right; a line without pieces is blank.
pub open spec fn line_view(line: Vec<Piece>) -> Seq<PieceView> {
    line@.map_values(|p: Piece| p@)
}

pub open spec fn lines_view(lines: Seq<Vec<Piece>>) -> Seq<Seq<PieceView>> {
    lines.map_values(|l: Vec<Piece>| line_view(l))
}

/// `n` spaces.
pub open spec fn spaces(n: nat) -> Seq<char> {
    Seq::new(n, |i: int| ' ')
}

/// `text` filled with spaces on the right up to `width` characters, as
/// `{:<width}` formats it.
pub open spec fn padded(text: Seq<char>, width: nat) -> Seq<char> {
    if text.len() < width {
        text + spaces((width - text.len()) as nat)
    } else {
        text
    }
}

pub fn pad(text: &str, width: usize) -> (res: String)
    ensures
        res@ == padded(text@, width as nat),
{
    let mut out = text.to_string();
    let mut count = chars_of(text).len();
    let ghost start = count;
    while count < width
        invariant
            start == text@.len(),
            start <= count,
            count <= width || count == start,
            out@ == text@ + spaces((count - start) as nat),
        decreases width - count,
    {
        push_char(&mut out, ' ');
        assert(spaces((count + 1 - start) as nat) =~= spaces((count - start) as nat).push(' '));
        count += 1;
    }
    assert(out@ =~= padded(text@, width as nat));
    out
}

/// The text `a` followed by `b`.
pub fn joined(a: &str, b: &str) -> (res: String)
    ensures
        res@ == a@ + b@,
{
    let mut out = a.to_string();
    out.append(b);
    out
}

pub fn piece(text: String, tone: Tone, bold: bool) -> (res: Piece)
    ensures
        res@ == pv(text@, tone, bold),
{
    Piece { text, tone, bold }
}

/// A blank line.
pub fn blank() -> (res: Vec<Piece>)
    ensures
        line_view(res) == Seq::<PieceView>::empty(),
{
    let line: Vec<Piece> = Vec::new();
    assert(line_view(line) =~= Seq::<PieceView>::empty());
    line
}

/// A line of one piece.
pub fn single(text: String, tone: Tone, bold: bool) -> (res: Vec<Piece>)
    ensures
        line_view(res) == seq![pv(text@, tone, bold)],
{
    let mut line: Vec<Piece> = Vec::new();
    line.push(piece(text, tone, bold));
    assert(line_view(line) =~= seq![pv(text@, tone, bold)]);
    line
}

/// A label padded to `width` in gray, then the value.
pub open spec fn labelled_view(label: Seq<char>, width: nat, value: Seq<char>, tone: Tone, bold: bool) -> Seq<PieceView> {
    seq![pv(padded(label, width), Tone::Gray, false), pv(value, tone, bold)]
}

pub fn labelled(label: &str, width: usize, value: String, tone: Tone, bold: bool) -> (res: Vec<Piece>)
    ensures
        line_view(res) == labelled_view(label@, width as nat, value@, tone, bold),
{
    let mut line: Vec<Piece> = Vec::new();
    line.push(piece(pad(label, width), Tone::Gray, false));
    line.push(piece(value, tone, bold));
    assert(line_view(line) =~= labelled_view(label@, width as nat, value@, tone, bold));
    line
}

/// The lines of a text, as `str::lines` documents them: split at each
/// `\n`, a `\r` just before it dropped, no line after a final `\n`.
pub open spec fn next_newline(s: Seq<char>, i: int) -> int
    decreases s.len() - i,
{
    if i >= s.len() {
        s.len() as int
    } else if s[i] == '\n' {
        i
    } else {
        next_newline(s, i + 1)
    }
}

pub open spec fn line_at(s: Seq<char>, start: int, end: int) -> Seq<char> {
    let l = s.subrange(start, end);
    if end < s.len() && l.len() > 0 && l.last() == '\r' {
        l.drop_last()
    } else {
        l
    }
}

pub open spec fn lines_from(s: Seq<char>, start: int) -> Seq<Seq<char>>
    decreases s.len() + 1 - start,
{
    if start < 0 || start >= s.len() {
        Seq::empty()
    } else {
        let end = next_newline(s, start);
        proof {
            lemma_next_newline(s, start);
        }
        seq![line_at(s, start, end)] + lines_from(s, end + 1)
    }
}

pub open spec fn text_lines(s: Seq<char>) -> Seq<Seq<char>> {
    lines_from(s, 0)
}

pub proof fn lemma_next_newline(s: Seq<char>, i: int)
    requires
        0 <= i,
    ensures
        i <= s.len() ==> i <= next_newline(s, i) <= s.len(),
        next_newline(s, i) < s.len() ==> s[next_newline(s, i)] == '\n',
        forall|k: int| i <= k < next_newline(s, i) ==> s[k] != '\n',
    decreases s.len() - i,
{
    if i < s.len() && s[i] != '\n' {
        lemma_next_newline(s, i + 1);
    }
}

/// The lines of `text`, each in `tone`.
pub fn text_lines_in(text: &str, tone: Tone) -> (res: Vec<Vec<Piece>>)
    ensures
        lines_view(res@) == text_lines(text@).map_values(|l: Seq<char>| seq![pv(l, tone, false)]),
{
    let chars = chars_of(text);
    let ghost s = text@;
    let ghost whole = text_lines(s).map_values(|l: Seq<char>| seq![pv(l, tone, false)]);
    let mut out: Vec<Vec<Piece>> = Vec::new();
    let mut start: usize = 0;
    while start < chars.len()
        invariant
            chars@ == s,
            start <= chars.len(),
            lines_view(out@) + lines_from(s, start as int).map_values(|l: Seq<char>| seq![pv(l, tone, false)])
                == whole,
        decreases chars.len() - start,
    {
        let mut end = start;
        while end < chars.len() && chars[end] != '\n'
            invariant
                chars@ == s,
                start <= end <= chars.len(),
                next_newline(s, start as int) == next_newline(s, end as int),
            decreases chars.len() - end,
        {
            end += 1;
        }
        proof {
            lemma_next_newline(s, end as int);
        }
        let mut stop = end;
        if end < chars.len() && stop > start && chars[stop - 1] == '\r' {
            stop -= 1;
        }
        let mut line_chars: Vec<char> = Vec::new();
        let mut k = start;
        while k < stop
            invariant
                chars@ == s,
                start <= k <= stop <= chars.len(),
                line_chars@ == s.subrange(start as int, k as int),
            decreases stop - k,
        {
            line_chars.push(chars[k]);
            assert(s.subrange(start as int, k + 1) =~= s.subrange(start as int, k as int).push(s[k as int]));
            k += 1;
        }
        let line_text = crate::text::string_of(&line_chars);
        let ghost l = line_at(s, start as int, end as int);
        assert(line_text@ =~= l);
        let ghost rest = lines_from(s, end + 1);
        assert(lines_from(s, start as int) =~= seq![l] + rest);
        let ghost f = |l: Seq<char>| seq![pv(l, tone, false)];
        assert((seq![l] + rest).map_values(f) =~= seq![f(l)] + rest.map_values(f));
        let row = single(line_text, tone, false);
        let ghost before = lines_view(out@);
        out.push(row);
        assert(lines_view(out@) =~= before.push(f(l)));
        if end < chars.len() {
            start = end + 1;
        } else {
            start = chars.len();
        }
        assert(lines_from(s, start as int) =~= rest);
    }
    assert(lines_from(s, start as int) =~= Seq::<Seq<char>>::empty());
    assert(lines_view(out@) =~= whole);
    out
}

} // verus!
