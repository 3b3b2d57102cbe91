//! Cleaning one line of container log output for display: ANSI escape
//! sequences, carriage returns and control characters other than tab are removed.

use vstd::prelude::*;
use crate::text::{chars_of, is_control, is_control_char, push_char};

verus! {

pub const ESC: char = '\u{1b}';
pub const BEL: char = '\u{07}';

/// Where the scanner stands between two characters.
#[derive(PartialEq, Eq, Structural, Clone, Copy)]
pub enum ScanState {
    /// Plain text.
    Text,
    /// Just after an escape character.
    Escape,
    /// Inside a control sequence (`ESC [` ... final byte in `@`..=`~`).
    Csi,
    /// Inside an operating-system command (`ESC ]` ... `BEL` or `ESC \`).
    Osc,
    /// Inside an operating-system command, just after an escape character.
    OscEscape,
}

/// The state inside an operating-system command after `c`.
pub open spec fn osc_next(c: char) -> ScanState {
    if c == BEL {
        ScanState::Text
    } else if c == ESC {
        ScanState::OscEscape
    } else {
        ScanState::Osc
    }
}

/// One step of the scanner: the next state, and the character that is kept, if any.
pub open spec fn scan_step(st: ScanState, c: char) -> (ScanState, Option<char>) {
    match st {
        ScanState::Text => {
            if c == ESC {
                (ScanState::Escape, None)
            } else if c == '\r' || (is_control(c) && c != '\t') {
                (ScanState::Text, None)
            } else {
                (ScanState::Text, Some(c))
            }
        },
        ScanState::Escape => {
            if c == '[' {
                (ScanState::Csi, None)
            } else if c == ']' {
                (ScanState::Osc, None)
            } else {
                (ScanState::Text, None)
            }
        },
        ScanState::Csi => {
            if '@' <= c && c <= '~' {
                (ScanState::Text, None)
            } else {
                (ScanState::Csi, None)
            }
        },
        ScanState::Osc => (osc_next(c), None),
        ScanState::OscEscape => {
            if c == '\\' {
                (ScanState::Text, None)
            } else {
                (osc_next(c), None)
            }
        },
    }
}

/// The scanner's state after reading `s` from the start.
pub open spec fn scan_state(s: Seq<char>) -> ScanState
    decreases s.len(),
{
    if s.len() == 0 {
        ScanState::Text
    } else {
        scan_step(scan_state(s.drop_last()), s.last()).0
    }
}

/// The characters kept after reading `s` from the start.
pub open spec fn sanitized(s: Seq<char>) -> Seq<char>
    decreases s.len(),
{
    if s.len() == 0 {
        Seq::empty()
    } else {
        let prev = sanitized(s.drop_last());
        match scan_step(scan_state(s.drop_last()), s.last()).1 {
            Some(c) => prev.push(c),
            None => prev,
        }
    }
}

/// A line with no control character but tab: what is left after sanitizing.
pub open spec fn is_clean(s: Seq<char>) -> bool {
    forall|k: int| 0 <= k < s.len() ==> (!is_control(#[trigger] s[k]) || s[k] == '\t')
}

fn step(st: ScanState, c: char) -> (r: (ScanState, Option<char>))
    ensures
        r == scan_step(st, c),
{
    match st {
        ScanState::Text => {
            if c == ESC {
                (ScanState::Escape, None)
            } else if c == '\r' || (is_control_char(c) && c != '\t') {
                (ScanState::Text, None)
            } else {
                (ScanState::Text, Some(c))
            }
        },
        ScanState::Escape => {
            if c == '[' {
                (ScanState::Csi, None)
            } else if c == ']' {
                (ScanState::Osc, None)
            } else {
                (ScanState::Text, None)
            }
        },
        ScanState::Csi => {
            if '@' <= c && c <= '~' {
                (ScanState::Text, None)
            } else {
                (ScanState::Csi, None)
            }
        },
        ScanState::Osc => {
            if c == BEL {
                (ScanState::Text, None)
            } else if c == ESC {
                (ScanState::OscEscape, None)
            } else {
                (ScanState::Osc, None)
            }
        },
        ScanState::OscEscape => {
            if c == '\\' {
                (ScanState::Text, None)
            } else if c == BEL {
                (ScanState::Text, None)
            } else if c == ESC {
                (ScanState::OscEscape, None)
            } else {
                (ScanState::Osc, None)
            }
        },
    }
}

/// Removes ANSI escape sequences (CSI and OSC), carriage returns and every
/// control character except tab from one log line.
pub fn sanitize_log_line(line: &str) -> (out: String)
    ensures
        out@ == sanitized(line@),
{
    let chars = chars_of(line);
    let mut out = String::new();
    let mut st = ScanState::Text;
    let mut i: usize = 0;
    while i < chars.len()
        invariant
            i <= chars.len(),
            st == scan_state(chars@.take(i as int)),
            out@ == sanitized(chars@.take(i as int)),
        decreases chars.len() - i,
    {
        let c = chars[i];
        let r = step(st, c);
        st = r.0;
        match r.1 {
            Some(k) => push_char(&mut out, k),
            None => {},
        }
        proof {
            let next = chars@.take(i + 1);
            assert(next.drop_last() =~= chars@.take(i as int));
            assert(next.last() == c);
        }
        i = i + 1;
    }
    assert(chars@.take(i as int) =~= line@);
    out
}

/// Whatever a line held, its sanitized form holds no control character but tab.
pub proof fn law_sanitized_is_clean(s: Seq<char>)
    ensures
        is_clean(sanitized(s)),
    decreases s.len(),
{
    if s.len() > 0 {
        law_sanitized_is_clean(s.drop_last());
    }
}

/// Sanitizing a clean line gives it back unchanged, and the scanner ends in plain text.
pub proof fn lemma_clean_is_fixed(s: Seq<char>)
    requires
        is_clean(s),
    ensures
        sanitized(s) == s,
        scan_state(s) == ScanState::Text,
    decreases s.len(),
{
    if s.len() > 0 {
        let p = s.drop_last();
        assert(is_clean(p)) by {
            assert forall|k: int| 0 <= k < p.len() implies (!is_control(#[trigger] p[k])
                || p[k] == '\t') by {
                assert(p[k] == s[k]);
            }
        }
        lemma_clean_is_fixed(p);
        assert(!is_control(s[s.len() - 1]) || s[s.len() - 1] == '\t');
        assert(s =~= p.push(s.last()));
    }
}

/// Sanitizing is idempotent: a sanitized line is left as it is by a second pass.
pub proof fn law_sanitize_idempotent(s: Seq<char>)
    ensures
        sanitized(sanitized(s)) == sanitized(s),
{
    law_sanitized_is_clean(s);
    lemma_clean_is_fixed(sanitized(s));
}

} // verus!
