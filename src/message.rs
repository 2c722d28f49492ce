//! The messages carried on the duplex channel, and what the client does with
//! each one it receives.

use vstd::prelude::*;
use crate::command::{Command, LineKind, classify_line, command_text, spec_classify, spec_command_text};

verus! {

/// A chat message: who sent it, its text, the room, a timestamp in seconds
/// since the Unix epoch, and a correlation id.
#[derive(Clone, Debug)]
pub struct ChatMessage {
    pub sender: String,
    pub message: String,
    pub room_id: String,
    pub timestamp: i64,
    pub trace_id: String,
}

/// The correlation id formatted from sixteen random bytes.
pub uninterp spec fn v4_trace_id(random: Seq<u8>) -> Seq<char>;

/// Relies on uuid::Builder::from_random_bytes and the uuid's `to_string`:
/// a version 4 uuid made from the bytes, in its hyphenated form of 36
/// characters.
#[verifier::external_body]
fn format_trace_id(random: [u8; 16]) -> (r: String)
    ensures
        r@ == v4_trace_id(random@),
        r@.len() == 36,
{
    uuid::Builder::from_random_bytes(random).into_uuid().to_string()
}

pub open spec fn join_text(sender: Seq<char>) -> Seq<char> {
    sender + " se ha unido a la sala."@
}

/// The line shown for a received message: `[time] sender: message`.
pub open spec fn spec_render_line(time: Seq<char>, sender: Seq<char>, message: Seq<char>) -> Seq<
    char,
> {
    "["@ + time + "] "@ + sender + ": "@ + message
}

/// What the client does with a received message.
#[derive(Clone, Copy, Debug, PartialEq, Eq, Structural)]
pub enum InboundAction {
    /// The echo of one of our own commands: not shown again.
    Acknowledge(Command),
    /// Another participant's message: shown.
    Render,
    /// Our own chat text coming back: not shown.
    Skip,
}

pub open spec fn spec_inbound_action(own: Seq<char>, sender: Seq<char>, body: Seq<char>) -> InboundAction {
    if sender != own {
        InboundAction::Render
    } else {
        match spec_classify(body) {
            LineKind::Control(c) => InboundAction::Acknowledge(c),
            _ => InboundAction::Skip,
        }
    }
}

fn copy_text(s: &str) -> (r: String)
    ensures
        r@ == s@,
{
    String::from_str(s)
}

impl ChatMessage {
    /// The message announcing that `sender` joined `room_id`.
    pub fn join(sender: &str, room_id: &str, timestamp: i64, random: [u8; 16]) -> (r: ChatMessage)
        ensures
            r.sender@ == sender@,
            r.message@ == join_text(sender@),
            r.room_id@ == room_id@,
            r.timestamp == timestamp,
            r.trace_id@ == v4_trace_id(random@),
    {
        proof {
            reveal_strlit(" se ha unido a la sala.");
        }
        let mut text = copy_text(sender);
        text.append(" se ha unido a la sala.");
        ChatMessage {
            sender: copy_text(sender),
            message: text,
            room_id: copy_text(room_id),
            timestamp,
            trace_id: format_trace_id(random),
        }
    }

    /// A chat message with the text as typed.
    pub fn chat(sender: &str, room_id: &str, body: &str, timestamp: i64, random: [u8; 16]) -> (r:
        ChatMessage)
        ensures
            r.sender@ == sender@,
            r.message@ == body@,
            r.room_id@ == room_id@,
            r.timestamp == timestamp,
            r.trace_id@ == v4_trace_id(random@),
    {
        ChatMessage {
            sender: copy_text(sender),
            message: copy_text(body),
            room_id: copy_text(room_id),
            timestamp,
            trace_id: format_trace_id(random),
        }
    }

    /// The message that carries a command: its text, timestamp 0 and an
    /// empty correlation id.
    pub fn control(sender: &str, room_id: &str, c: Command) -> (r: ChatMessage)
        ensures
            r.sender@ == sender@,
            r.message@ == spec_command_text(c),
            r.room_id@ == room_id@,
            r.timestamp == 0,
            r.trace_id@.len() == 0,
    {
        ChatMessage {
            sender: copy_text(sender),
            message: copy_text(command_text(c)),
            room_id: copy_text(room_id),
            timestamp: 0,
            trace_id: String::new(),
        }
    }
}

/// What the input loop does with a typed line.
#[derive(Debug)]
pub enum InputAction {
    /// An empty line: prompt again.
    Ignore,
    /// A quit command: end the input loop and close the outbound side.
    Quit,
    /// A device command for the session controller.
    Control(Command),
    /// Chat text, ready to send.
    Send(ChatMessage),
}

/// Turns a typed (trimmed) line into what the input loop does: nothing for
/// an empty line, the command for a control token, and otherwise a chat
/// message with the given timestamp and a correlation id made from
/// `random`.
pub fn input_action(line: &str, sender: &str, room_id: &str, timestamp: i64, random: [u8; 16]) -> (r:
    InputAction)
    ensures
        spec_classify(line@) == LineKind::Empty <==> r is Ignore,
        spec_classify(line@) == LineKind::Control(Command::Quit) <==> r is Quit,
        forall|c: Command|
            c != Command::Quit ==> (spec_classify(line@) == LineKind::Control(c) <==> r == InputAction::Control(c)),
        spec_classify(line@) == LineKind::Chat <==> r is Send,
        r matches InputAction::Send(m) ==> {
            &&& m.sender@ == sender@
            &&& m.message@ == line@
            &&& m.room_id@ == room_id@
            &&& m.timestamp == timestamp
            &&& m.trace_id@ == v4_trace_id(random@)
        },
{
    match classify_line(line) {
        LineKind::Empty => InputAction::Ignore,
        LineKind::Control(Command::Quit) => InputAction::Quit,
        LineKind::Control(c) => InputAction::Control(c),
        LineKind::Chat => InputAction::Send(ChatMessage::chat(sender, room_id, line, timestamp, random)),
    }
}

/// Decides what to do with a received message: another participant's is
/// shown; our own is never shown, and when its text is a command it is the
/// acknowledgment of that command.
pub fn inbound_action(own: &str, msg: &ChatMessage) -> (r: InboundAction)
    ensures
        r == spec_inbound_action(own@, msg.sender@, msg.message@),
        msg.sender@ == own@ ==> r != InboundAction::Render,
{
    if !crate::command::same_text(msg.sender.as_str(), own) {
        InboundAction::Render
    } else {
        match classify_line(msg.message.as_str()) {
            LineKind::Control(c) => InboundAction::Acknowledge(c),
            _ => InboundAction::Skip,
        }
    }
}

/// The line shown for a received message, given the time label to print.
pub fn render_line(time: &str, sender: &str, message: &str) -> (r: String)
    ensures
        r@ == spec_render_line(time@, sender@, message@),
{
    proof {
        reveal_strlit("[");
        reveal_strlit("] ");
        reveal_strlit(": ");
    }
    let mut out = String::from_str("[");
    out.append(time);
    out.append("] ");
    out.append(sender);
    out.append(": ");
    out.append(message);
    out
}

} // verus!
