//! Status records: the classified, human-facing outcome of one maintenance step,
//! and the plain-text panel in which one is rendered.

use vstd::prelude::*;

verus! {

/// How a step's outcome is classified for the operator.
#[derive(Clone, Copy, Debug, PartialEq, Eq, Structural)]
pub enum StatusKind {
    Success,
    Error,
    Warning,
    Info,
}

/// One classified outcome message for one step: transient, rendered once.
#[derive(Clone, Debug)]
pub struct StatusRecord {
    pub title: String,
    pub message: String,
    pub kind: StatusKind,
}

/// The label that opens a panel's message line, one per kind.
pub open spec fn spec_kind_prefix(k: StatusKind) -> Seq<char> {
    match k {
        StatusKind::Success => "Success: "@,
        StatusKind::Error => "Error:   "@,
        StatusKind::Warning => "Warning: "@,
        StatusKind::Info => "Info:    "@,
    }
}

pub fn kind_prefix(k: StatusKind) -> (r: &'static str)
    ensures
        r@ == spec_kind_prefix(k),
{
    match k {
        StatusKind::Success => "Success: ",
        StatusKind::Error => "Error:   ",
        StatusKind::Warning => "Warning: ",
        StatusKind::Info => "Info:    ",
    }
}

/// `n` spaces.
pub open spec fn spaces(n: nat) -> Seq<char> {
    Seq::new(n, |i: int| ' ')
}

/// Text left-aligned in a field of `w` characters: padded with spaces on the
/// right, never truncated.
pub open spec fn padded_text(s: Seq<char>, w: nat) -> Seq<char> {
    if s.len() >= w {
        s
    } else {
        s + spaces((w - s.len()) as nat)
    }
}

/// Pad text on the right with spaces to the given width; longer text is kept
/// whole.
pub fn pad_to_width(s: &str, width: usize) -> (r: String)
    ensures
        r@ == padded_text(s@, width as nat),
{
    let len = s.unicode_len();
    let mut r = String::from_str(s);
    let mut i: usize = len;
    proof {
        assert(r@ =~= s@ + spaces(0));
    }
    while i < width
        invariant
            len as nat == s@.len(),
            len <= i,
            len >= width ==> i == len,
            len < width ==> i <= width,
            r@ =~= s@ + spaces((i - len) as nat),
        decreases width - i,
    {
        r.append(" ");
        i = i + 1;
        proof {
            reveal_strlit(" ");
            assert(r@ =~= s@ + spaces((i - len) as nat));
        }
    }
    proof {
        assert(r@ =~= padded_text(s@, width as nat));
    }
    r
}

/// The horizontal stroke of a panel border: fifty box-drawing dashes.
pub open spec fn horiz_text() -> Seq<char> {
    Seq::new(50, |i: int| '\u{2500}')
}

/// One border line: its left corner, the stroke, its right corner.
pub open spec fn border_text(l: char, r: char) -> Seq<char> {
    seq![l] + horiz_text() + seq![r]
}

/// One framed content line: the vertical bar, the content padded to 48
/// characters, the closing vertical bar.
pub open spec fn framed_text(s: Seq<char>) -> Seq<char> {
    seq!['\u{2502}', ' '] + padded_text(s, 48) + seq![' ', '\u{2502}']
}

fn horiz_stroke() -> (r: String)
    ensures
        r@ == horiz_text(),
{
    let mut r = String::new();
    let mut i: usize = 0;
    while i < 50
        invariant
            i <= 50,
            r@ =~= Seq::new(i as nat, |j: int| '\u{2500}'),
        decreases 50 - i,
    {
        r.append("\u{2500}");
        i = i + 1;
        proof {
            reveal_strlit("\u{2500}");
            assert(r@ =~= Seq::new(i as nat, |j: int| '\u{2500}'));
        }
    }
    r
}

fn framed_line(content: &str) -> (r: String)
    ensures
        r@ == framed_text(content@),
{
    proof {
        reveal_strlit("\u{2502} ");
        reveal_strlit(" \u{2502}");
    }
    let mut r = String::from_str("\u{2502} ");
    let padded = pad_to_width(content, 48);
    r.append(padded.as_str());
    r.append(" \u{2502}");
    proof {
        assert(r@ =~= framed_text(content@));
    }
    r
}

fn border_line(corners: &str, l: char, rc: char) -> (r: String)
    requires
        corners@ == seq![l, rc],
    ensures
        r@ == border_text(l, rc),
{
    let left = corners.substring_char(0, 1);
    let right = corners.substring_char(1, 2);
    let mut r = String::from_str(left);
    let stroke = horiz_stroke();
    r.append(stroke.as_str());
    r.append(right);
    proof {
        assert(r@ =~= border_text(l, rc));
    }
    r
}

/// The six display lines of one status panel: top border, the framed title, the
/// divider, the framed message behind its kind's label, the bottom border, and
/// the blank line that follows the panel.
pub fn panel_lines(record: &StatusRecord) -> (v: Vec<String>)
    ensures
        v@.len() == 6,
        v@[0]@ == border_text('\u{250c}', '\u{2510}'),
        v@[1]@ == framed_text(record.title@),
        v@[2]@ == border_text('\u{251c}', '\u{2524}'),
        v@[3]@ == framed_text(spec_kind_prefix(record.kind) + record.message@),
        v@[4]@ == border_text('\u{2514}', '\u{2518}'),
        v@[5]@ == ""@,
{
    proof {
        reveal_strlit("\u{250c}\u{2510}");
        reveal_strlit("\u{251c}\u{2524}");
        reveal_strlit("\u{2514}\u{2518}");
        assert("\u{250c}\u{2510}"@ =~= seq!['\u{250c}', '\u{2510}']);
        assert("\u{251c}\u{2524}"@ =~= seq!['\u{251c}', '\u{2524}']);
        assert("\u{2514}\u{2518}"@ =~= seq!['\u{2514}', '\u{2518}']);
    }
    let mut v: Vec<String> = Vec::new();
    v.push(border_line("\u{250c}\u{2510}", '\u{250c}', '\u{2510}'));
    v.push(framed_line(record.title.as_str()));
    v.push(border_line("\u{251c}\u{2524}", '\u{251c}', '\u{2524}'));
    let mut status = String::from_str(kind_prefix(record.kind));
    status.append(record.message.as_str());
    v.push(framed_line(status.as_str()));
    v.push(border_line("\u{2514}\u{2518}", '\u{2514}', '\u{2518}'));
    let blank = String::new();
    proof {
        reveal_strlit("");
        assert(blank@ =~= ""@);
    }
    v.push(blank);
    v
}

} // verus!
