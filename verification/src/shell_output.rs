//! Turning raw output of an interactive shell into screen lines: a small
//! terminal emulator that understands line breaks, tabs, backspace, and the
//! erase sequences `ESC [ 2 J` (clear screen) and `ESC [ K` (clear line).

use vstd::prelude::*;
use crate::sanitize::{BEL, ESC};
use crate::text::{chars_of, is_control, is_control_char, push_char};

verus! {

/// The most lines the shell pane keeps; older ones are dropped.
pub const MAX_SHELL_LINES: usize = 5000;

/// Where the reader stands inside escape sequences.
#[derive(PartialEq, Eq, Structural, Clone, Copy)]
pub enum ShellMode {
    Normal,
    Escape,
    Csi,
    Osc,
    OscEscape,
}

/// The whole state of the reader: its mode, whether the last plain character
/// was a carriage return, whether the current control sequence has a `2`
/// among its parameters, the finished lines and the line being written.
pub struct ShellScreen {
    pub mode: ShellMode,
    pub saw_cr: bool,
    pub csi_two: bool,
    pub lines: Seq<Seq<char>>,
    pub current: Seq<char>,
}

/// The state after one character of output.
pub open spec fn shell_step(s: ShellScreen, c: char) -> ShellScreen {
    match s.mode {
        ShellMode::Normal => {
            if c == ESC {
                ShellScreen { mode: ShellMode::Escape, ..s }
            } else if c == '\n' {
                if !s.saw_cr || s.current.len() > 0 {
                    ShellScreen { lines: s.lines.push(s.current), current: Seq::empty(), saw_cr: false, ..s }
                } else {
                    ShellScreen { current: Seq::empty(), saw_cr: false, ..s }
                }
            } else if c == '\r' {
                if s.current.len() > 0 {
                    ShellScreen { lines: s.lines.push(s.current), current: Seq::empty(), saw_cr: true, ..s }
                } else {
                    ShellScreen { current: Seq::empty(), saw_cr: true, ..s }
                }
            } else if c == '\t' {
                ShellScreen { current: s.current + seq![' ', ' ', ' ', ' '], saw_cr: false, ..s }
            } else if c == '\u{08}' || c == '\u{7f}' {
                ShellScreen {
                    current: if s.current.len() > 0 { s.current.drop_last() } else { s.current },
                    saw_cr: false,
                    ..s
                }
            } else if !is_control(c) {
                ShellScreen { current: s.current.push(c), saw_cr: false, ..s }
            } else {
                ShellScreen { saw_cr: false, ..s }
            }
        },
        ShellMode::Escape => {
            if c == '[' {
                ShellScreen { mode: ShellMode::Csi, csi_two: false, ..s }
            } else if c == ']' {
                ShellScreen { mode: ShellMode::Osc, ..s }
            } else {
                ShellScreen { mode: ShellMode::Normal, ..s }
            }
        },
        ShellMode::Csi => {
            if '@' <= c && c <= '~' {
                if c == 'J' && s.csi_two {
                    ShellScreen { mode: ShellMode::Normal, lines: Seq::empty(), current: Seq::empty(), ..s }
                } else if c == 'K' {
                    ShellScreen { mode: ShellMode::Normal, current: Seq::empty(), ..s }
                } else {
                    ShellScreen { mode: ShellMode::Normal, ..s }
                }
            } else {
                ShellScreen { csi_two: s.csi_two || c == '2', ..s }
            }
        },
        ShellMode::Osc => {
            if c == BEL {
                ShellScreen { mode: ShellMode::Normal, ..s }
            } else if c == ESC {
                ShellScreen { mode: ShellMode::OscEscape, ..s }
            } else {
                s
            }
        },
        ShellMode::OscEscape => {
            if c == '\\' {
                ShellScreen { mode: ShellMode::Normal, ..s }
            } else {
                ShellScreen { mode: ShellMode::Osc, ..s }
            }
        },
    }
}

/// The state after the output `t`, from the state `s`.
pub open spec fn shell_feed(s: ShellScreen, t: Seq<char>) -> ShellScreen
    decreases t.len(),
{
    if t.len() == 0 {
        s
    } else {
        shell_step(shell_feed(s, t.drop_last()), t.last())
    }
}

/// The last `n` items of `s`, or all of them where there are fewer.
pub open spec fn keep_last<T>(s: Seq<T>, n: nat) -> Seq<T> {
    if s.len() > n {
        s.skip(s.len() - n)
    } else {
        s
    }
}

/// The reader's state at the start of a piece of output.
pub open spec fn fresh_screen(lines: Seq<Seq<char>>, current: Seq<char>) -> ShellScreen {
    ShellScreen { mode: ShellMode::Normal, saw_cr: false, csi_two: false, lines, current }
}

pub open spec fn lines_view(v: Seq<String>) -> Seq<Seq<char>> {
    v.map_values(|s: String| s@)
}

/// Removes the last character of a string, if any (std's `String::pop`).
/// Claimed: a non-empty string loses its last character and it is returned; an empty one is unchanged.
#[verifier::external_body]
pub(crate) fn pop_char(s: &mut String) -> (r: Option<char>)
    ensures
        old(s)@.len() > 0 ==> final(s)@ == old(s)@.drop_last() && r == Some(old(s)@.last()),
        old(s)@.len() == 0 ==> final(s)@ == old(s)@ && r is None,
{
    s.pop()
}

/// Feeds a piece of shell output into the screen's finished lines and the line
/// being written, then keeps only the last `MAX_SHELL_LINES` finished lines.
pub fn feed_shell_output(lines: &mut Vec<String>, current: &mut String, text: &str)
    ensures
        ({
            let s = shell_feed(fresh_screen(lines_view(old(lines)@), old(current)@), text@);
            &&& lines_view(final(lines)@) == keep_last(s.lines, MAX_SHELL_LINES as nat)
            &&& final(current)@ == s.current
        }),
{
    let chars = chars_of(text);
    let ghost start = fresh_screen(lines_view(lines@), current@);
    let mut mode = ShellMode::Normal;
    let mut saw_cr = false;
    let mut csi_two = false;
    let mut i: usize = 0;
    while i < chars.len()
        invariant
            i <= chars.len(),
            chars@ == text@,
            ({
                let s = shell_feed(start, chars@.take(i as int));
                &&& s.mode == mode
                &&& s.saw_cr == saw_cr
                &&& s.csi_two == csi_two
                &&& s.lines == lines_view(lines@)
                &&& s.current == current@
            }),
        decreases chars.len() - i,
    {
        let c = chars[i];
        let ghost before = shell_feed(start, chars@.take(i as int));
        proof {
            let next = chars@.take(i + 1);
            assert(next.drop_last() =~= chars@.take(i as int));
            assert(next.last() == c);
        }
        match mode {
            ShellMode::Normal => {
                if c == ESC {
                    mode = ShellMode::Escape;
                } else if c == '\n' {
                    if !saw_cr || !current.as_str().is_empty() {
                        lines.push(current.clone());
                        *current = String::new();
                        assert(lines_view(lines@) =~= before.lines.push(before.current));
                    } else {
                        *current = String::new();
                    }
                    saw_cr = false;
                } else if c == '\r' {
                    if !current.as_str().is_empty() {
                        lines.push(current.clone());
                        *current = String::new();
                        assert(lines_view(lines@) =~= before.lines.push(before.current));
                    } else {
                        *current = String::new();
                    }
                    saw_cr = true;
                } else if c == '\t' {
                    current.append("    ");
                    proof {
                        reveal_strlit("    ");
                        assert(current@ =~= before.current + seq![' ', ' ', ' ', ' ']);
                    }
                    saw_cr = false;
                } else if c == '\u{08}' || c == '\u{7f}' {
                    pop_char(current);
                    saw_cr = false;
                } else {
                    if !is_control_char(c) {
                        push_char(current, c);
                    }
                    saw_cr = false;
                }
            },
            ShellMode::Escape => {
                if c == '[' {
                    mode = ShellMode::Csi;
                    csi_two = false;
                } else if c == ']' {
                    mode = ShellMode::Osc;
                } else {
                    mode = ShellMode::Normal;
                }
            },
            ShellMode::Csi => {
                if '@' <= c && c <= '~' {
                    if c == 'J' && csi_two {
                        lines.clear();
                        *current = String::new();
                        assert(lines_view(lines@) =~= Seq::<Seq<char>>::empty());
                    } else if c == 'K' {
                        *current = String::new();
                    }
                    mode = ShellMode::Normal;
                } else {
                    csi_two = csi_two || c == '2';
                }
            },
            ShellMode::Osc => {
                if c == BEL {
                    mode = ShellMode::Normal;
                } else if c == ESC {
                    mode = ShellMode::OscEscape;
                }
            },
            ShellMode::OscEscape => {
                if c == '\\' {
                    mode = ShellMode::Normal;
                } else {
                    mode = ShellMode::Osc;
                }
            },
        }
        i = i + 1;
    }
    assert(chars@.take(i as int) =~= text@);
    if lines.len() > MAX_SHELL_LINES {
        let extra = lines.len() - MAX_SHELL_LINES;
        let kept = lines.split_off(extra);
        *lines = kept;
        assert(lines_view(lines@) =~= keep_last(
            shell_feed(start, text@).lines,
            MAX_SHELL_LINES as nat,
        ));
    }
}

/// However much output arrives, the shell pane never holds more than
/// `MAX_SHELL_LINES` finished lines afterwards.
pub proof fn law_shell_lines_bounded(lines: Seq<Seq<char>>, current: Seq<char>, t: Seq<char>)
    ensures
        keep_last(shell_feed(fresh_screen(lines, current), t).lines, MAX_SHELL_LINES as nat).len()
            <= MAX_SHELL_LINES,
{
}

/// Plain text with no control characters is appended to the line being written
/// and finishes no line.
pub proof fn law_plain_text_appends(s: ShellScreen, t: Seq<char>)
    requires
        s.mode == ShellMode::Normal,
        forall|k: int| 0 <= k < t.len() ==> !is_control(#[trigger] t[k]),
    ensures
        shell_feed(s, t).lines == s.lines,
        shell_feed(s, t).current == s.current + t,
        shell_feed(s, t).mode == ShellMode::Normal,
    decreases t.len(),
{
    if t.len() > 0 {
        let p = t.drop_last();
        assert forall|k: int| 0 <= k < p.len() implies !is_control(#[trigger] p[k]) by {
            assert(p[k] == t[k]);
        }
        law_plain_text_appends(s, p);
        assert(!is_control(t[t.len() - 1]));
        assert(s.current + t =~= (s.current + p).push(t.last()));
    }
}

} // verus!
