//! Bounds-checking the number literals of an expression text.
//!
//! The expression engine's lexer reads every number literal as a 32-bit
//! integer and aborts the process on one beyond that range, rather than
//! reporting a parse failure. Rule texts come from the user-editable
//! config source, so the library scans each text before handing it to the
//! engine and rejects the dangerous ones with a parse failure of its own.
//!
//! The scan follows the lexer's own reading of the text: a name soaks up
//! letters, digits and underscores; a quoted section (double quote, single
//! quote or backtick) runs to its unescaped closing quote, a backslash
//! escaping the next character; a digit run outside those is a number
//! literal and must fit; a minus sign followed by a digit 1 to 9 starts a
//! number literal too, and one followed by a character beyond ASCII is
//! rejected outright, since the lexer would try to read some of those as
//! numbers and abort.

use vstd::prelude::*;

verus! {

/// The largest value the engine's lexer accepts for a number literal.
pub const MAX_NUMBER_LITERAL: u64 = 2147483647;

/// Whether `c` is an ASCII decimal digit.
pub open spec fn is_ascii_digit(c: char) -> bool {
    48 <= c as int <= 57
}

/// The value of an ASCII decimal digit.
pub open spec fn digit_val(c: char) -> int {
    c as int - 48
}

/// Whether `c` can start a name: a letter or an underscore.
pub open spec fn is_name_start(c: char) -> bool {
    (65 <= c as int <= 90) || (97 <= c as int <= 122) || c as int == 95
}

/// Whether `c` can continue a name.
pub open spec fn is_name_char(c: char) -> bool {
    is_name_start(c) || is_ascii_digit(c)
}

/// Whether `c` opens a quoted section: a double quote, a single quote or
/// a backtick.
pub open spec fn is_quote(c: char) -> bool {
    c as int == 34 || c as int == 39 || c as int == 96
}

/// Where the scan stands: between tokens, inside a name, inside a number
/// literal, inside a quoted section, or right after a backslash inside
/// one.
#[derive(Clone, Copy, Debug)]
pub enum ScanState {
    Between,
    Name,
    Number,
    Quoted(char),
    Escaped(char),
}

/// Orders the states so that leaving a name or a number at an unconsumed
/// character still makes progress.
pub open spec fn state_rank(s: ScanState) -> int {
    match s {
        ScanState::Between => 0,
        _ => 1,
    }
}

/// Whether the rest of the text, read from position `i` in the given
/// state — `acc` being the value of the number literal read so far —
/// keeps every number literal within the lexer's range.
pub open spec fn scan_from(text: Seq<char>, i: int, state: ScanState, acc: int) -> bool
    decreases text.len() - i, state_rank(state),
{
    if state is Number && acc > MAX_NUMBER_LITERAL as int {
        false
    } else if i < 0 || i >= text.len() {
        true
    } else {
        let c = text[i];
        match state {
            ScanState::Between => {
                if is_name_start(c) {
                    scan_from(text, i + 1, ScanState::Name, 0)
                } else if is_quote(c) {
                    scan_from(text, i + 1, ScanState::Quoted(c), 0)
                } else if is_ascii_digit(c) {
                    scan_from(text, i + 1, ScanState::Number, digit_val(c))
                } else if c as int == 45 {
                    if i + 1 >= text.len() {
                        true
                    } else {
                        let d = text[i + 1];
                        if 49 <= d as int <= 57 {
                            scan_from(text, i + 2, ScanState::Number, digit_val(d))
                        } else if d as int <= 127 {
                            scan_from(text, i + 1, ScanState::Between, 0)
                        } else {
                            false
                        }
                    }
                } else {
                    scan_from(text, i + 1, ScanState::Between, 0)
                }
            },
            ScanState::Name => {
                if is_name_char(c) {
                    scan_from(text, i + 1, ScanState::Name, 0)
                } else {
                    scan_from(text, i, ScanState::Between, 0)
                }
            },
            ScanState::Number => {
                if is_ascii_digit(c) {
                    scan_from(text, i + 1, ScanState::Number, acc * 10 + digit_val(c))
                } else {
                    scan_from(text, i, ScanState::Between, 0)
                }
            },
            ScanState::Quoted(w) => {
                if c == w {
                    scan_from(text, i + 1, ScanState::Between, 0)
                } else if c as int == 92 {
                    scan_from(text, i + 1, ScanState::Escaped(w), 0)
                } else {
                    scan_from(text, i + 1, ScanState::Quoted(w), 0)
                }
            },
            ScanState::Escaped(w) => scan_from(text, i + 1, ScanState::Quoted(w), 0),
        }
    }
}

/// Whether every number literal of the text fits the lexer's range.
pub open spec fn number_literals_fit(text: Seq<char>) -> bool {
    scan_from(text, 0, ScanState::Between, 0)
}

/// Whether `c` is an ASCII decimal digit.
fn digit_check(c: char) -> (r: bool)
    ensures
        r == is_ascii_digit(c),
{
    let u = c as u32;
    48 <= u && u <= 57
}

/// Whether `c` can start a name.
fn name_start_check(c: char) -> (r: bool)
    ensures
        r == is_name_start(c),
{
    let u = c as u32;
    (65 <= u && u <= 90) || (97 <= u && u <= 122) || u == 95
}

/// Whether `c` opens a quoted section.
fn quote_check(c: char) -> (r: bool)
    ensures
        r == is_quote(c),
{
    let u = c as u32;
    u == 34 || u == 39 || u == 96
}

/// Scans the text and reports whether every number literal fits the
/// lexer's range.
pub fn check_number_literals(text: &String) -> (r: bool)
    ensures
        r == number_literals_fit(text@),
{
    let s = text.as_str();
    let n = s.unicode_len();
    let mut i: usize = 0;
    let mut state: ScanState = ScanState::Between;
    let mut acc: u64 = 0;
    loop
        invariant
            0 <= i <= n,
            n == text@.len(),
            s@ == text@,
            acc <= MAX_NUMBER_LITERAL,
            !(state is Number) ==> acc == 0,
            number_literals_fit(text@) == scan_from(text@, i as int, state, acc as int),
        decreases n - i, state_rank(state),
    {
        if i >= n {
            return true;
        }
        let c = s.get_char(i);
        match state {
            ScanState::Between => {
                if name_start_check(c) {
                    state = ScanState::Name;
                    i = i + 1;
                } else if quote_check(c) {
                    state = ScanState::Quoted(c);
                    i = i + 1;
                } else if digit_check(c) {
                    state = ScanState::Number;
                    acc = (c as u32 as u64) - 48;
                    i = i + 1;
                } else if c as u32 == 45 {
                    if i + 1 >= n {
                        return true;
                    }
                    let d = s.get_char(i + 1);
                    let du = d as u32;
                    if 49 <= du && du <= 57 {
                        state = ScanState::Number;
                        acc = (du as u64) - 48;
                        i = i + 2;
                    } else if du <= 127 {
                        i = i + 1;
                    } else {
                        return false;
                    }
                } else {
                    i = i + 1;
                }
            },
            ScanState::Name => {
                if name_start_check(c) || digit_check(c) {
                    i = i + 1;
                } else {
                    state = ScanState::Between;
                }
            },
            ScanState::Number => {
                if digit_check(c) {
                    let v: u64 = acc * 10 + ((c as u32 as u64) - 48);
                    if v > MAX_NUMBER_LITERAL {
                        proof {
                            assert(!scan_from(text@, i + 1, ScanState::Number, v as int));
                        }
                        return false;
                    }
                    acc = v;
                    i = i + 1;
                } else {
                    state = ScanState::Between;
                    acc = 0;
                }
            },
            ScanState::Quoted(w) => {
                if c == w {
                    state = ScanState::Between;
                    i = i + 1;
                } else if c as u32 == 92 {
                    state = ScanState::Escaped(w);
                    i = i + 1;
                } else {
                    i = i + 1;
                }
            },
            ScanState::Escaped(w) => {
                state = ScanState::Quoted(w);
                i = i + 1;
            },
        }
    }
}

} // verus!
