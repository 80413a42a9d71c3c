//! Where the strings and comments of a TOML text lie, and whether the text
//! is flat: whether no bracket, brace or dot stands outside of them. A table
//! of strings is flat, since a bracket or a brace outside a string opens an
//! array or a table, and a dot outside a string stands in a dotted key, in a
//! number or in a date.
//!
//! A comment runs from a hash sign in code to the end of its line. A basic
//! string stands in double quotes, and a backslash in it takes the next
//! character with it; a literal string stands in single quotes and knows no
//! backslash. Three quotes open a string that may span lines and ends at
//! three quotes, of which up to two more belong to it; two quotes alone are
//! an empty string.

use vstd::prelude::*;
use vstd::string::*;

verus! {

/// What the scan is reading.
#[derive(Clone, Copy, Debug, PartialEq, Eq, Structural)]
pub enum Mode {
    /// Keys, values and what stands between them.
    Code,
    /// A comment, which ends with its line.
    Comment,
    /// One quote was read: a string begins.
    Open1,
    /// Two quotes were read: the string is empty, or a third quote follows
    /// and the string may span lines.
    Open2,
    /// A string that ends at the next quote.
    Single,
    /// The character behind a backslash in such a string.
    SingleEscape,
    /// A string that ends at three quotes.
    Multi,
    /// The character behind a backslash in such a string.
    MultiEscape,
    /// One quote was read in such a string.
    Close1,
    /// Two quotes were read in such a string.
    Close2,
    /// Three quotes were read: the string has ended, but for a quote that
    /// follows at once.
    Close3,
    /// Four quotes were read: the string has ended, but for a quote that
    /// follows at once.
    Close4,
}

/// The state of the scan: what it is reading, and whether the string at hand
/// is a basic string, in double quotes and with backslash escapes, or a
/// literal string, in single quotes and without.
#[derive(Clone, Copy, Debug, PartialEq, Eq, Structural)]
pub struct Scan {
    pub mode: Mode,
    pub basic: bool,
}

/// The state in which a scan begins.
pub open spec fn scan_start() -> Scan {
    Scan { mode: Mode::Code, basic: false }
}

/// The quote that ends the string at hand.
pub open spec fn quote(basic: bool) -> char {
    if basic {
        '"'
    } else {
        '\''
    }
}

/// The state after `c` was read as code.
pub open spec fn after_code(c: char) -> Scan {
    if c == '#' {
        Scan { mode: Mode::Comment, basic: false }
    } else if c == '"' {
        Scan { mode: Mode::Open1, basic: true }
    } else if c == '\'' {
        Scan { mode: Mode::Open1, basic: false }
    } else {
        Scan { mode: Mode::Code, basic: false }
    }
}

/// The state after `c` was read in a string that ends at the next quote.
pub open spec fn after_single(basic: bool, c: char) -> Scan {
    if c == quote(basic) {
        Scan { mode: Mode::Code, basic: false }
    } else if basic && c == '\\' {
        Scan { mode: Mode::SingleEscape, basic }
    } else {
        Scan { mode: Mode::Single, basic }
    }
}

/// The state after `c` was read in a string that ends at three quotes.
pub open spec fn after_multi(basic: bool, c: char) -> Scan {
    if c == quote(basic) {
        Scan { mode: Mode::Close1, basic }
    } else if basic && c == '\\' {
        Scan { mode: Mode::MultiEscape, basic }
    } else {
        Scan { mode: Mode::Multi, basic }
    }
}

/// Whether `c` is read as code in the state `s`: the scan reads code, or a
/// string has just ended and `c` is no further quote of it.
pub open spec fn reads_code(s: Scan, c: char) -> bool {
    match s.mode {
        Mode::Code => true,
        Mode::Open2 | Mode::Close3 | Mode::Close4 => c != quote(s.basic),
        _ => false,
    }
}

/// The state after `c` was read in the state `s`.
pub open spec fn scan_step(s: Scan, c: char) -> Scan {
    if reads_code(s, c) {
        after_code(c)
    } else {
        match s.mode {
            Mode::Code => after_code(c),
            Mode::Comment => if c == '\n' {
                Scan { mode: Mode::Code, basic: false }
            } else {
                s
            },
            Mode::Open1 => if c == quote(s.basic) {
                Scan { mode: Mode::Open2, basic: s.basic }
            } else {
                after_single(s.basic, c)
            },
            Mode::Open2 => Scan { mode: Mode::Multi, basic: s.basic },
            Mode::Single => after_single(s.basic, c),
            Mode::SingleEscape => Scan { mode: Mode::Single, basic: s.basic },
            Mode::Multi => after_multi(s.basic, c),
            Mode::MultiEscape => Scan { mode: Mode::Multi, basic: s.basic },
            Mode::Close1 => if c == quote(s.basic) {
                Scan { mode: Mode::Close2, basic: s.basic }
            } else {
                after_multi(s.basic, c)
            },
            Mode::Close2 => if c == quote(s.basic) {
                Scan { mode: Mode::Close3, basic: s.basic }
            } else {
                after_multi(s.basic, c)
            },
            Mode::Close3 => Scan { mode: Mode::Close4, basic: s.basic },
            Mode::Close4 => Scan { mode: Mode::Code, basic: false },
        }
    }
}

/// Whether `c` opens an array or a table, or is a dot.
pub open spec fn nests(c: char) -> bool {
    c == '[' || c == '{' || c == '.'
}

/// The state of the scan at the end of `text`.
pub open spec fn scan_of(text: Seq<char>) -> Scan
    decreases text.len(),
{
    if text.len() == 0 {
        scan_start()
    } else {
        scan_step(scan_of(text.drop_last()), text.last())
    }
}

/// Whether `text` is flat: no bracket that opens, no brace that opens and no
/// dot is read as code.
pub open spec fn flat(text: Seq<char>) -> bool
    decreases text.len(),
{
    if text.len() == 0 {
        true
    } else {
        flat(text.drop_last()) && !(reads_code(scan_of(text.drop_last()), text.last())
            && nests(text.last()))
    }
}

/// A text that begins with a text that is not flat is not flat.
pub proof fn lemma_flat_holds_of_beginnings(text: Seq<char>, k: int)
    requires
        0 <= k <= text.len(),
        flat(text),
    ensures
        flat(text.take(k)),
    decreases text.len() - k,
{
    if k < text.len() {
        assert(text.drop_last().take(k) =~= text.take(k));
        lemma_flat_holds_of_beginnings(text.drop_last(), k);
    } else {
        assert(text.take(k) =~= text);
    }
}

/// Reads `c` in the state `s`.
pub fn scan_char(s: Scan, c: char) -> (r: Scan)
    ensures
        r == scan_step(s, c),
{
    let quote: char = if s.basic {
        '"'
    } else {
        '\''
    };
    let code: bool = match s.mode {
        Mode::Code => true,
        Mode::Open2 | Mode::Close3 | Mode::Close4 => c != quote,
        _ => false,
    };
    if code {
        return if c == '#' {
            Scan { mode: Mode::Comment, basic: false }
        } else if c == '"' {
            Scan { mode: Mode::Open1, basic: true }
        } else if c == '\'' {
            Scan { mode: Mode::Open1, basic: false }
        } else {
            Scan { mode: Mode::Code, basic: false }
        };
    }
    let escapes: bool = s.basic && c == '\\';
    match s.mode {
        Mode::Code => Scan { mode: Mode::Code, basic: false },
        Mode::Comment => if c == '\n' {
            Scan { mode: Mode::Code, basic: false }
        } else {
            s
        },
        Mode::Open1 => if c == quote {
            Scan { mode: Mode::Open2, basic: s.basic }
        } else if escapes {
            Scan { mode: Mode::SingleEscape, basic: s.basic }
        } else {
            Scan { mode: Mode::Single, basic: s.basic }
        },
        Mode::Single => if c == quote {
            Scan { mode: Mode::Code, basic: false }
        } else if escapes {
            Scan { mode: Mode::SingleEscape, basic: s.basic }
        } else {
            Scan { mode: Mode::Single, basic: s.basic }
        },
        Mode::SingleEscape => Scan { mode: Mode::Single, basic: s.basic },
        Mode::Open2 | Mode::MultiEscape => Scan { mode: Mode::Multi, basic: s.basic },
        Mode::Multi => if c == quote {
            Scan { mode: Mode::Close1, basic: s.basic }
        } else if escapes {
            Scan { mode: Mode::MultiEscape, basic: s.basic }
        } else {
            Scan { mode: Mode::Multi, basic: s.basic }
        },
        Mode::Close1 => if c == quote {
            Scan { mode: Mode::Close2, basic: s.basic }
        } else if escapes {
            Scan { mode: Mode::MultiEscape, basic: s.basic }
        } else {
            Scan { mode: Mode::Multi, basic: s.basic }
        },
        Mode::Close2 => if c == quote {
            Scan { mode: Mode::Close3, basic: s.basic }
        } else if escapes {
            Scan { mode: Mode::MultiEscape, basic: s.basic }
        } else {
            Scan { mode: Mode::Multi, basic: s.basic }
        },
        Mode::Close3 => Scan { mode: Mode::Close4, basic: s.basic },
        Mode::Close4 => Scan { mode: Mode::Code, basic: false },
    }
}

/// Whether `c` is read as code in the state `s`.
pub fn is_code(s: Scan, c: char) -> (r: bool)
    ensures
        r == reads_code(s, c),
{
    match s.mode {
        Mode::Code => true,
        Mode::Open2 | Mode::Close3 | Mode::Close4 => if s.basic {
            c != '"'
        } else {
            c != '\''
        },
        _ => false,
    }
}

/// Whether `text` is flat.
pub fn is_flat(text: &str) -> (r: bool)
    ensures
        r == flat(text@),
{
    let mut state: Scan = Scan { mode: Mode::Code, basic: false };
    let ghost all: Seq<char> = text@;
    assert(all.take(0) =~= Seq::<char>::empty());
    for c in it: text.chars()
        invariant
            it.seq() == all,
            all == text@,
            state == scan_of(all.take(it.index())),
            flat(all.take(it.index())),
    {
        proof {
            let k = it.index();
            assert(all.take(k + 1).drop_last() =~= all.take(k));
            assert(all.take(k + 1).last() == c);
        }
        if (c == '[' || c == '{' || c == '.') && is_code(state, c) {
            proof {
                if flat(all) {
                    lemma_flat_holds_of_beginnings(all, it.index() + 1);
                }
            }
            return false;
        }
        state = scan_char(state, c);
    }
    assert(all.take(all.len() as int) =~= all);
    true
}

} // verus!
