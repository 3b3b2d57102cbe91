//! What each key does: the key bindings of the application, and the bytes a key
//! sends to an interactive shell.

use vstd::prelude::*;

verus! {

/// A command of the application.
#[derive(Debug, Clone, Copy, PartialEq, Eq, Structural)]
pub enum Action {
    Quit,
    NextTab,
    PrevTab,
    Refresh,
    Down,
    Up,
    Start,
    Stop,
    Restart,
    StartAll,
    StopAll,
    Logs,
    Shell,
    Remove,
    ToggleFollow,
    ToggleResourceTab,
    StartEngine,
    StopEngine,
    RestartEngine,
}

/// The key of a key press, as the terminal reports it.
#[derive(Debug, Clone, Copy, PartialEq, Eq, Structural)]
pub enum Key {
    Char(char),
    Function(u8),
    Esc,
    Tab,
    BackTab,
    Enter,
    Backspace,
    Up,
    Down,
    Left,
    Right,
    Home,
    End,
    PageUp,
    PageDown,
    Delete,
    Insert,
    /// Any other key.
    Other,
}

/// A key press with its modifiers. `no_modifiers` is true when no modifier
/// at all is held, including ones not listed here.
#[derive(Debug, Clone, Copy, PartialEq, Eq, Structural)]
pub struct KeyPress {
    pub key: Key,
    pub ctrl: bool,
    pub shift: bool,
    pub alt: bool,
    pub no_modifiers: bool,
}

/// The key bindings.
#[derive(Default)]
pub struct Keymap;

/// The command bound to a key press, if any.
pub open spec fn bound_action(k: KeyPress) -> Option<Action> {
    match k.key {
        Key::Char(c) => {
            if c == 'q' {
                Some(Action::Quit)
            } else if c == 'j' {
                Some(Action::Down)
            } else if c == 'k' {
                Some(Action::Up)
            } else if c == 's' {
                Some(Action::Start)
            } else if c == 'S' {
                Some(Action::StartAll)
            } else if c == 'x' {
                Some(if k.ctrl { Action::StopEngine } else { Action::Stop })
            } else if c == 'X' {
                Some(Action::StopAll)
            } else if c == 'r' {
                Some(if k.ctrl { Action::RestartEngine } else { Action::Restart })
            } else if c == 'l' {
                Some(Action::Logs)
            } else if c == 'f' {
                Some(Action::ToggleFollow)
            } else if c == 'e' {
                Some(if k.ctrl { Action::StartEngine } else { Action::Shell })
            } else if c == 'w' && k.ctrl {
                Some(Action::Quit)
            } else {
                None
            }
        },
        Key::Esc => Some(Action::Quit),
        Key::Tab => if k.no_modifiers { Some(Action::NextTab) } else { None },
        Key::BackTab => if k.shift { Some(Action::PrevTab) } else { None },
        Key::Function(n) => if n == 5 { Some(Action::Refresh) } else { None },
        Key::Down => Some(Action::Down),
        Key::Up => Some(Action::Up),
        Key::Delete => Some(Action::Remove),
        _ => None,
    }
}

impl Keymap {
    /// The command bound to a key press: `q`/Esc quit, Tab/Shift+Tab switch
    /// tabs, F5 refreshes, arrows or `j`/`k` move, `s`/`x`/`r` start, stop and
    /// restart, `S`/`X` start and stop all, `l` logs, `e` shell, Del removes,
    /// `f` toggles following, and Ctrl with `e`/`x`/`r` starts, stops and
    /// restarts the engine; Ctrl+W quits too.
    pub fn map(&self, key: KeyPress) -> (r: Option<Action>)
        ensures
            r == bound_action(key),
    {
        let ctrl = key.ctrl;
        match key.key {
            Key::Char(c) => {
                if c == 'q' {
                    Some(Action::Quit)
                } else if c == 'j' {
                    Some(Action::Down)
                } else if c == 'k' {
                    Some(Action::Up)
                } else if c == 's' {
                    Some(Action::Start)
                } else if c == 'S' {
                    Some(Action::StartAll)
                } else if c == 'x' {
                    if ctrl { Some(Action::StopEngine) } else { Some(Action::Stop) }
                } else if c == 'X' {
                    Some(Action::StopAll)
                } else if c == 'r' {
                    if ctrl { Some(Action::RestartEngine) } else { Some(Action::Restart) }
                } else if c == 'l' {
                    Some(Action::Logs)
                } else if c == 'f' {
                    Some(Action::ToggleFollow)
                } else if c == 'e' {
                    if ctrl { Some(Action::StartEngine) } else { Some(Action::Shell) }
                } else if c == 'w' && ctrl {
                    Some(Action::Quit)
                } else {
                    None
                }
            },
            Key::Esc => Some(Action::Quit),
            Key::Tab => if key.no_modifiers { Some(Action::NextTab) } else { None },
            Key::BackTab => if key.shift { Some(Action::PrevTab) } else { None },
            Key::Function(n) => if n == 5 { Some(Action::Refresh) } else { None },
            Key::Down => Some(Action::Down),
            Key::Up => Some(Action::Up),
            Key::Delete => Some(Action::Remove),
            _ => None,
        }
    }
}

/// The key table: each documented key and what it does, whatever modifiers
/// are held unless the table names one.
pub proof fn law_key_bindings(k: KeyPress)
    ensures
        k.key == Key::Char('q') || k.key == Key::Esc ==> bound_action(k) == Some(Action::Quit),
        k.key == Key::Char('j') || k.key == Key::Down ==> bound_action(k) == Some(Action::Down),
        k.key == Key::Char('k') || k.key == Key::Up ==> bound_action(k) == Some(Action::Up),
        k.key == Key::Char('s') ==> bound_action(k) == Some(Action::Start),
        k.key == Key::Char('S') ==> bound_action(k) == Some(Action::StartAll),
        k.key == Key::Char('x') && !k.ctrl ==> bound_action(k) == Some(Action::Stop),
        k.key == Key::Char('x') && k.ctrl ==> bound_action(k) == Some(Action::StopEngine),
        k.key == Key::Char('X') ==> bound_action(k) == Some(Action::StopAll),
        k.key == Key::Char('r') && !k.ctrl ==> bound_action(k) == Some(Action::Restart),
        k.key == Key::Char('r') && k.ctrl ==> bound_action(k) == Some(Action::RestartEngine),
        k.key == Key::Char('l') ==> bound_action(k) == Some(Action::Logs),
        k.key == Key::Char('f') ==> bound_action(k) == Some(Action::ToggleFollow),
        k.key == Key::Char('e') && !k.ctrl ==> bound_action(k) == Some(Action::Shell),
        k.key == Key::Char('e') && k.ctrl ==> bound_action(k) == Some(Action::StartEngine),
        k.key == Key::Char('w') && k.ctrl ==> bound_action(k) == Some(Action::Quit),
        k.key == Key::Char('w') && !k.ctrl ==> bound_action(k) is None,
        k.key == Key::Delete ==> bound_action(k) == Some(Action::Remove),
        k.key == Key::Function(5) ==> bound_action(k) == Some(Action::Refresh),
        k.key == Key::Tab && k.no_modifiers ==> bound_action(k) == Some(Action::NextTab),
        k.key == Key::Tab && !k.no_modifiers ==> bound_action(k) is None,
        k.key == Key::BackTab && k.shift ==> bound_action(k) == Some(Action::PrevTab),
{
}

/// Holding modifiers changes what a letter does only for `x`, `r`, `e` and
/// `w`, where Ctrl reaches the engine commands and quitting.
pub proof fn law_modifiers_only_for_ctrl_keys(a: KeyPress, b: KeyPress, c: char)
    requires
        a.key == Key::Char(c),
        b.key == Key::Char(c),
        c != 'x' && c != 'r' && c != 'e' && c != 'w',
    ensures
        bound_action(a) == bound_action(b),
{
}

/// The UTF-8 bytes of one character.
pub fn encode_char(c: char) -> (r: Vec<u8>)
    ensures
        r@ == vstd::utf8::encode_scalar(c as u32),
{
    let v = c as u32;
    let mut r: Vec<u8> = Vec::new();
    if v <= 0x7f {
        r.push((v & 0x7f) as u8);
    } else if v <= 0x7ff {
        r.push(0xC0 | ((v >> 6) & 0x1F) as u8);
        r.push(0x80 | (v & 0x3F) as u8);
    } else if v <= 0xffff {
        r.push(0xE0 | ((v >> 12) & 0x0F) as u8);
        r.push(0x80 | ((v >> 6) & 0x3F) as u8);
        r.push(0x80 | (v & 0x3F) as u8);
    } else {
        r.push(0xF0 | ((v >> 18) & 0x7) as u8);
        r.push(0x80 | ((v >> 12) & 0x3F) as u8);
        r.push(0x80 | ((v >> 6) & 0x3F) as u8);
        r.push(0x80 | (v & 0x3F) as u8);
    }
    assert(r@ =~= vstd::utf8::encode_scalar(c as u32));
    r
}

/// `ESC [` followed by `tail`.
pub open spec fn csi_bytes(tail: Seq<u8>) -> Seq<u8> {
    seq![0x1bu8, 0x5bu8] + tail
}

/// The bytes that a key press sends to a shell: Ctrl+letter sends its control
/// code, Alt prefixes ESC, other characters go as UTF-8, and the editing keys
/// send their usual terminal sequences. Other keys send nothing.
pub open spec fn shell_key_bytes(k: KeyPress) -> Seq<u8> {
    match k.key {
        Key::Char(c) => if k.ctrl {
            seq![((c as u32) as u8) & 0x1fu8]
        } else if k.alt {
            seq![0x1bu8] + vstd::utf8::encode_scalar(c as u32)
        } else {
            vstd::utf8::encode_scalar(c as u32)
        },
        Key::Enter => seq![0x0du8],
        Key::Tab => seq![0x09u8],
        Key::Backspace => seq![0x7fu8],
        Key::Esc => seq![0x1bu8],
        Key::Up => csi_bytes(seq![0x41u8]),
        Key::Down => csi_bytes(seq![0x42u8]),
        Key::Right => csi_bytes(seq![0x43u8]),
        Key::Left => csi_bytes(seq![0x44u8]),
        Key::Home => csi_bytes(seq![0x48u8]),
        Key::End => csi_bytes(seq![0x46u8]),
        Key::PageUp => csi_bytes(seq![0x35u8, 0x7eu8]),
        Key::PageDown => csi_bytes(seq![0x36u8, 0x7eu8]),
        Key::Delete => csi_bytes(seq![0x33u8, 0x7eu8]),
        Key::Insert => csi_bytes(seq![0x32u8, 0x7eu8]),
        _ => Seq::empty(),
    }
}

fn csi(tail: &[u8]) -> (r: Vec<u8>)
    ensures
        r@ == csi_bytes(tail@),
{
    let mut r: Vec<u8> = Vec::new();
    r.push(0x1b);
    r.push(0x5b);
    let mut i: usize = 0;
    while i < tail.len()
        invariant
            i <= tail.len(),
            r@ == csi_bytes(tail@.take(i as int)),
        decreases tail.len() - i,
    {
        r.push(tail[i]);
        i = i + 1;
        assert(r@ =~= csi_bytes(tail@.take(i as int)));
    }
    assert(tail@.take(i as int) =~= tail@);
    r
}

/// The bytes to write to the shell for a key press.
pub fn shell_input_bytes(key: KeyPress) -> (r: Vec<u8>)
    ensures
        r@ == shell_key_bytes(key),
{
    match key.key {
        Key::Char(c) => {
            if key.ctrl {
                let code = ((c as u32) as u8) & 0x1f;
                let mut r: Vec<u8> = Vec::new();
                r.push(code);
                assert(r@ =~= shell_key_bytes(key));
                r
            } else {
                let enc = encode_char(c);
                let mut r: Vec<u8> = Vec::new();
                if key.alt {
                    r.push(0x1b);
                }
                let mut i: usize = 0;
                let ghost start = r@;
                while i < enc.len()
                    invariant
                        i <= enc.len(),
                        r@ == start + enc@.take(i as int),
                    decreases enc.len() - i,
                {
                    r.push(enc[i]);
                    i = i + 1;
                    assert(r@ =~= start + enc@.take(i as int));
                }
                assert(enc@.take(i as int) =~= enc@);
                assert(r@ =~= shell_key_bytes(key));
                r
            }
        },
        Key::Enter => {
            let mut r: Vec<u8> = Vec::new();
            r.push(0x0d);
            assert(r@ =~= shell_key_bytes(key));
            r
        },
        Key::Tab => {
            let mut r: Vec<u8> = Vec::new();
            r.push(0x09);
            assert(r@ =~= shell_key_bytes(key));
            r
        },
        Key::Backspace => {
            let mut r: Vec<u8> = Vec::new();
            r.push(0x7f);
            assert(r@ =~= shell_key_bytes(key));
            r
        },
        Key::Esc => {
            let mut r: Vec<u8> = Vec::new();
            r.push(0x1b);
            assert(r@ =~= shell_key_bytes(key));
            r
        },
        Key::Up => csi(&[0x41]),
        Key::Down => csi(&[0x42]),
        Key::Right => csi(&[0x43]),
        Key::Left => csi(&[0x44]),
        Key::Home => csi(&[0x48]),
        Key::End => csi(&[0x46]),
        Key::PageUp => csi(&[0x35, 0x7e]),
        Key::PageDown => csi(&[0x36, 0x7e]),
        Key::Delete => csi(&[0x33, 0x7e]),
        Key::Insert => csi(&[0x32, 0x7e]),
        _ => Vec::new(),
    }
}

} // verus!
