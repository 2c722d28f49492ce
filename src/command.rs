//! Classification of a typed (already trimmed) line into chat text or a
//! control command.

use vstd::prelude::*;

verus! {

/// A control command the user can type instead of chat text.
#[derive(Clone, Copy, Debug, PartialEq, Eq, Structural)]
pub enum Command {
    MicOn,
    MicOff,
    ListenOn,
    ListenOff,
    Quit,
}

/// What a typed line is.
#[derive(Clone, Copy, Debug, PartialEq, Eq, Structural)]
pub enum LineKind {
    Empty,
    Control(Command),
    Chat,
}

/// The reserved texts that are read as commands rather than chat.
pub open spec fn is_control_token(s: Seq<char>) -> bool {
    s == "/mic on"@ || s == "/mic off"@ || s == "/listen on"@ || s == "/listen off"@
        || s == "/quit"@ || s == "/exit"@ || s == "/disconnect"@
}

pub open spec fn spec_classify(s: Seq<char>) -> LineKind {
    if s.len() == 0 {
        LineKind::Empty
    } else if s == "/mic on"@ {
        LineKind::Control(Command::MicOn)
    } else if s == "/mic off"@ {
        LineKind::Control(Command::MicOff)
    } else if s == "/listen on"@ {
        LineKind::Control(Command::ListenOn)
    } else if s == "/listen off"@ {
        LineKind::Control(Command::ListenOff)
    } else if s == "/quit"@ || s == "/exit"@ || s == "/disconnect"@ {
        LineKind::Control(Command::Quit)
    } else {
        LineKind::Chat
    }
}

/// The text sent on the channel for a command.
pub open spec fn spec_command_text(c: Command) -> Seq<char> {
    match c {
        Command::MicOn => "/mic on"@,
        Command::MicOff => "/mic off"@,
        Command::ListenOn => "/listen on"@,
        Command::ListenOff => "/listen off"@,
        Command::Quit => "/quit"@,
    }
}

/// Character-wise equality of two strings.
pub fn same_text(a: &str, b: &str) -> (r: bool)
    ensures
        r == (a@ == b@),
{
    let n = a.unicode_len();
    if n != b.unicode_len() {
        return false;
    }
    let mut i: usize = 0;
    while i < n
        invariant
            n == a@.len(),
            n == b@.len(),
            i <= n,
            forall|j: int| 0 <= j < i ==> a@[j] == b@[j],
        decreases n - i,
    {
        if a.get_char(i) != b.get_char(i) {
            return false;
        }
        i = i + 1;
    }
    assert(a@ =~= b@);
    true
}

/// Reads a trimmed line: empty, one of the control tokens (exact match), or
/// chat text.
pub fn classify_line(line: &str) -> (r: LineKind)
    ensures
        r == spec_classify(line@),
        line@.len() > 0 && !is_control_token(line@) ==> r == LineKind::Chat,
        is_control_token(line@) ==> r is Control,
{
    proof {
        reveal_strlit("/mic on");
        reveal_strlit("/mic off");
        reveal_strlit("/listen on");
        reveal_strlit("/listen off");
        reveal_strlit("/quit");
        reveal_strlit("/exit");
        reveal_strlit("/disconnect");
    }
    if line.unicode_len() == 0 {
        LineKind::Empty
    } else if same_text(line, "/mic on") {
        LineKind::Control(Command::MicOn)
    } else if same_text(line, "/mic off") {
        LineKind::Control(Command::MicOff)
    } else if same_text(line, "/listen on") {
        LineKind::Control(Command::ListenOn)
    } else if same_text(line, "/listen off") {
        LineKind::Control(Command::ListenOff)
    } else if same_text(line, "/quit") || same_text(line, "/exit") || same_text(line, "/disconnect") {
        LineKind::Control(Command::Quit)
    } else {
        LineKind::Chat
    }
}

/// The text sent on the channel for a command.
pub fn command_text(c: Command) -> (r: &'static str)
    ensures
        r@ == spec_command_text(c),
{
    match c {
        Command::MicOn => "/mic on",
        Command::MicOff => "/mic off",
        Command::ListenOn => "/listen on",
        Command::ListenOff => "/listen off",
        Command::Quit => "/quit",
    }
}

} // verus!
