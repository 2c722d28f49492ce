//! The session controller: the shared session flags and the two device
//! handles (capture and playback) whose lifetimes follow those flags.

use vstd::prelude::*;
use crate::command::{Command, spec_command_text};
use crate::message::ChatMessage;

verus! {

/// Why a session operation failed.
#[derive(Clone, Copy, Debug, PartialEq, Eq, Structural)]
pub enum SessionError {
    /// The server could not be reached.
    Connection,
    /// The command is not allowed in the current state.
    Precondition,
    /// The peer side of the channel has terminated.
    ChannelClosed,
    /// No usable audio device, or it failed to start.
    Device,
    /// The device offers no supported sample representation.
    UnsupportedFormat,
}

/// The mathematical state of a session: its flags, which device handles
/// are live, and how many times each device has been opened.
pub struct SessionView {
    pub sender: Seq<char>,
    pub room_id: Seq<char>,
    pub connected: bool,
    pub mic_active: bool,
    pub speakers_active: bool,
    pub mic_open: bool,
    pub speakers_open: bool,
    pub mic_opens: nat,
    pub speaker_opens: nat,
}

/// A handle lives exactly while its flag is on, and no device is active
/// without a connection.
pub open spec fn session_wf(s: SessionView) -> bool {
    &&& s.mic_active == s.mic_open
    &&& s.speakers_active == s.speakers_open
    &&& (s.mic_active || s.speakers_active) ==> s.connected
}

pub open spec fn after_connect(s: SessionView, established: bool) -> SessionView {
    if s.connected || !established {
        s
    } else {
        SessionView { connected: true, ..s }
    }
}

/// Losing the connection turns both devices off and releases their handles.
pub open spec fn after_disconnect(s: SessionView) -> SessionView {
    SessionView {
        connected: false,
        mic_active: false,
        speakers_active: false,
        mic_open: false,
        speakers_open: false,
        ..s
    }
}

/// Enabling the microphone: refused without a connection, a no-op when it
/// is already on, otherwise one open attempt that turns it on when it works.
pub open spec fn after_start_mic(s: SessionView, opened: bool) -> SessionView {
    if !s.connected || s.mic_active {
        s
    } else {
        SessionView { mic_active: opened, mic_open: opened, mic_opens: s.mic_opens + 1, ..s }
    }
}

pub open spec fn after_stop_mic(s: SessionView) -> SessionView {
    SessionView { mic_active: false, mic_open: false, ..s }
}

pub open spec fn after_start_speakers(s: SessionView, opened: bool) -> SessionView {
    if !s.connected || s.speakers_active {
        s
    } else {
        SessionView {
            speakers_active: opened,
            speakers_open: opened,
            speaker_opens: s.speaker_opens + 1,
            ..s
        }
    }
}

pub open spec fn after_stop_speakers(s: SessionView) -> SessionView {
    SessionView { speakers_active: false, speakers_open: false, ..s }
}

/// What an enabling call returns once the device was asked to open.
pub open spec fn open_outcome<H>(res: Result<H, SessionError>) -> Result<(), SessionError> {
    match res {
        Ok(_) => Ok(()),
        Err(e) => Err(e),
    }
}

/// Enabling the microphone twice in a row opens the device exactly once:
/// when the first call turns it on, the second changes nothing.
pub proof fn lemma_start_mic_twice_opens_once(s: SessionView, first: bool, second: bool)
    requires
        session_wf(s),
        s.connected,
        !s.mic_active,
        first,
    ensures
        after_start_mic(after_start_mic(s, first), second) == after_start_mic(s, first),
        after_start_mic(after_start_mic(s, first), second).mic_opens == s.mic_opens + 1,
        after_start_mic(after_start_mic(s, first), second).mic_active,
{
}

/// Without a connection, enabling either device fails and opens nothing.
pub proof fn lemma_start_without_connection(s: SessionView, opened: bool)
    requires
        session_wf(s),
        !s.connected,
    ensures
        after_start_mic(s, opened) == s,
        after_start_speakers(s, opened) == s,
        !s.mic_active && !s.speakers_active,
{
}

/// Disabling a device releases its handle, so enabling it again right
/// after makes a fresh open attempt, which turns it on when it works.
pub proof fn lemma_stop_then_restart(s: SessionView, opened: bool)
    requires
        session_wf(s),
        s.connected,
    ensures
        !after_stop_mic(s).mic_open,
        after_start_mic(after_stop_mic(s), opened).mic_opens == s.mic_opens + 1,
        after_start_mic(after_stop_mic(s), opened).mic_active == opened,
        !after_stop_speakers(s).speakers_open,
        after_start_speakers(after_stop_speakers(s), opened).speaker_opens == s.speaker_opens + 1,
        after_start_speakers(after_stop_speakers(s), opened).speakers_active == opened,
{
}

/// Every transition keeps the session well formed: no device is active
/// without a connection, and a handle is live exactly while its flag is on.
pub proof fn lemma_transitions_keep_wf(s: SessionView, ok: bool)
    requires
        session_wf(s),
    ensures
        session_wf(after_connect(s, ok)),
        session_wf(after_disconnect(s)),
        session_wf(after_start_mic(s, ok)),
        session_wf(after_stop_mic(s)),
        session_wf(after_start_speakers(s, ok)),
        session_wf(after_stop_speakers(s)),
{
}

/// Losing the connection leaves both devices off with their handles
/// released, whatever state the session was in.
pub proof fn lemma_disconnect_cascades(s: SessionView)
    requires
        session_wf(s),
    ensures
        !after_disconnect(s).connected,
        !after_disconnect(s).mic_active,
        !after_disconnect(s).speakers_active,
        !after_disconnect(s).mic_open,
        !after_disconnect(s).speakers_open,
        forall|t: SessionView|
            session_wf(t) && !t.connected ==> !t.mic_active && !t.speakers_active,
{
}

/// The session controller. `H` is the device handle: dropping it stops
/// and releases the device.
pub struct AudioStreamer<H> {
    sender: String,
    room_id: String,
    grpc_stream_active: bool,
    mic_active: bool,
    speakers_active: bool,
    mic_stream: Option<H>,
    speaker_stream: Option<H>,
    mic_opens: Ghost<nat>,
    speaker_opens: Ghost<nat>,
}

impl<H> View for AudioStreamer<H> {
    type V = SessionView;

    closed spec fn view(&self) -> SessionView {
        SessionView {
            sender: self.sender@,
            room_id: self.room_id@,
            connected: self.grpc_stream_active,
            mic_active: self.mic_active,
            speakers_active: self.speakers_active,
            mic_open: self.mic_stream is Some,
            speakers_open: self.speaker_stream is Some,
            mic_opens: self.mic_opens@,
            speaker_opens: self.speaker_opens@,
        }
    }
}

impl<H> AudioStreamer<H> {
    /// A session for `sender` in `room_id`: not connected, both devices off,
    /// nothing opened yet.
    pub fn new(sender: String, room_id: String) -> (r: Self)
        ensures
            session_wf(r@),
            r@.sender == sender@,
            r@.room_id == room_id@,
            !r@.connected,
            !r@.mic_active,
            !r@.speakers_active,
            r@.mic_opens == 0,
            r@.speaker_opens == 0,
    {
        AudioStreamer {
            sender,
            room_id,
            grpc_stream_active: false,
            mic_active: false,
            speakers_active: false,
            mic_stream: None,
            speaker_stream: None,
            mic_opens: Ghost(0),
            speaker_opens: Ghost(0),
        }
    }

    pub fn sender(&self) -> (r: &String)
        ensures
            r@ == self@.sender,
    {
        &self.sender
    }

    pub fn room_id(&self) -> (r: &String)
        ensures
            r@ == self@.room_id,
    {
        &self.room_id
    }

    /// Records the outcome of opening the channel. When the session is
    /// already connected nothing changes and the call succeeds; otherwise
    /// the session is connected exactly when `established` is `Ok`, whose
    /// error is returned as it is.
    pub fn start_audio_connection(&mut self, established: Result<(), SessionError>) -> (r: Result<
        (),
        SessionError,
    >)
        requires
            session_wf(old(self)@),
        ensures
            session_wf(final(self)@),
            old(self)@.connected ==> r == Ok::<(), SessionError>(()),
            !old(self)@.connected ==> r == established,
            final(self)@ == after_connect(old(self)@, established is Ok),
    {
        if self.grpc_stream_active {
            return Ok(());
        }
        if established.is_ok() {
            self.grpc_stream_active = true;
        }
        established
    }

    /// Ends the session: stops the microphone and the speakers, releasing
    /// both handles, and clears the connection, all before it returns.
    pub fn stop_audio_connection(&mut self)
        requires
            session_wf(old(self)@),
        ensures
            session_wf(final(self)@),
            final(self)@ == after_disconnect(old(self)@),
    {
        self.stop_mic();
        self.stop_speakers();
        self.grpc_stream_active = false;
    }

    /// Turns the microphone on. Without a connection it fails with
    /// `Precondition` and opens nothing; when it is already on it does
    /// nothing. Otherwise it calls `open` once: a handle turns the
    /// microphone on, an error is returned and leaves it off.
    pub fn start_mic<F: FnOnce() -> Result<H, SessionError>>(&mut self, open: F) -> (r: Result<
        (),
        SessionError,
    >)
        requires
            session_wf(old(self)@),
            old(self)@.connected && !old(self)@.mic_active ==> call_requires(open, ()),
        ensures
            session_wf(final(self)@),
            !old(self)@.connected ==> r == Err::<(), SessionError>(SessionError::Precondition),
            old(self)@.connected && old(self)@.mic_active ==> r == Ok::<(), SessionError>(()),
            old(self)@.connected && !old(self)@.mic_active ==> exists|res: Result<H, SessionError>|
                call_ensures(open, (), res) && r == open_outcome(res),
            final(self)@ == after_start_mic(old(self)@, r is Ok),
    {
        if self.mic_active {
            return Ok(());
        }
        if !self.grpc_stream_active {
            return Err(SessionError::Precondition);
        }
        let res = open();
        let ghost opened = res;
        self.mic_opens = Ghost(self.mic_opens@ + 1);
        let r = match res {
            Ok(h) => {
                self.mic_stream = Some(h);
                self.mic_active = true;
                Ok(())
            },
            Err(e) => Err(e),
        };
        assert(call_ensures(open, (), opened) && r == open_outcome(opened));
        r
    }

    /// Turns the microphone off; the handle is released before the call
    /// returns. Does nothing when it is already off.
    pub fn stop_mic(&mut self)
        requires
            session_wf(old(self)@),
        ensures
            session_wf(final(self)@),
            final(self)@ == after_stop_mic(old(self)@),
    {
        if !self.mic_active {
            return;
        }
        self.mic_stream = None;
        self.mic_active = false;
    }

    /// Turns the speakers on, as `start_mic` does the microphone.
    pub fn start_speakers<F: FnOnce() -> Result<H, SessionError>>(&mut self, open: F) -> (r:
        Result<(), SessionError>)
        requires
            session_wf(old(self)@),
            old(self)@.connected && !old(self)@.speakers_active ==> call_requires(open, ()),
        ensures
            session_wf(final(self)@),
            !old(self)@.connected ==> r == Err::<(), SessionError>(SessionError::Precondition),
            old(self)@.connected && old(self)@.speakers_active ==> r == Ok::<(), SessionError>(()),
            old(self)@.connected && !old(self)@.speakers_active ==> exists|
                res: Result<H, SessionError>,
            | call_ensures(open, (), res) && r == open_outcome(res),
            final(self)@ == after_start_speakers(old(self)@, r is Ok),
    {
        if self.speakers_active {
            return Ok(());
        }
        if !self.grpc_stream_active {
            return Err(SessionError::Precondition);
        }
        let res = open();
        let ghost opened = res;
        self.speaker_opens = Ghost(self.speaker_opens@ + 1);
        let r = match res {
            Ok(h) => {
                self.speaker_stream = Some(h);
                self.speakers_active = true;
                Ok(())
            },
            Err(e) => Err(e),
        };
        assert(call_ensures(open, (), opened) && r == open_outcome(opened));
        r
    }

    /// Turns the speakers off; the handle is released before the call
    /// returns. Does nothing when they are already off.
    pub fn stop_speakers(&mut self)
        requires
            session_wf(old(self)@),
        ensures
            session_wf(final(self)@),
            final(self)@ == after_stop_speakers(old(self)@),
    {
        if !self.speakers_active {
            return;
        }
        self.speaker_stream = None;
        self.speakers_active = false;
    }

    /// Carries out a device command typed by the user. On success the
    /// session moves as the matching start or stop call moves it and the
    /// command's message is returned for sending; on failure nothing is
    /// returned to send. `open_input` is used only to turn the microphone on,
    /// `open_output` only to turn the speakers on.
    pub fn apply_command<F: FnOnce() -> Result<H, SessionError>, G: FnOnce() -> Result<
        H,
        SessionError,
    >>(&mut self, c: Command, open_input: F, open_output: G) -> (r: Result<
        ChatMessage,
        SessionError,
    >)
        requires
            session_wf(old(self)@),
            c != Command::Quit,
            c == Command::MicOn && old(self)@.connected && !old(self)@.mic_active ==> call_requires(
                open_input,
                (),
            ),
            c == Command::ListenOn && old(self)@.connected && !old(self)@.speakers_active
                ==> call_requires(open_output, ()),
        ensures
            session_wf(final(self)@),
            c == Command::MicOn ==> final(self)@ == after_start_mic(old(self)@, r is Ok),
            c == Command::MicOff ==> final(self)@ == after_stop_mic(old(self)@) && r is Ok,
            c == Command::ListenOn ==> final(self)@ == after_start_speakers(old(self)@, r is Ok),
            c == Command::ListenOff ==> final(self)@ == after_stop_speakers(old(self)@) && r is Ok,
            (c == Command::MicOn || c == Command::ListenOn) && !old(self)@.connected ==> r
                == Err::<ChatMessage, SessionError>(SessionError::Precondition),
            c == Command::MicOn && old(self)@.connected && !old(self)@.mic_active ==> exists|
                res: Result<H, SessionError>,
            | call_ensures(open_input, (), res) && (r is Ok <==> res is Ok) && (res matches Err(e)
                ==> r == Err::<ChatMessage, SessionError>(e)),
            c == Command::ListenOn && old(self)@.connected && !old(self)@.speakers_active ==> exists|
                res: Result<H, SessionError>,
            | call_ensures(open_output, (), res) && (r is Ok <==> res is Ok) && (res matches Err(e)
                ==> r == Err::<ChatMessage, SessionError>(e)),
            r matches Ok(m) ==> {
                &&& m.sender@ == old(self)@.sender
                &&& m.room_id@ == old(self)@.room_id
                &&& m.message@ == spec_command_text(c)
                &&& m.timestamp == 0
                &&& m.trace_id@.len() == 0
            },
    {
        let outcome = match c {
            Command::MicOn => self.start_mic(open_input),
            Command::ListenOn => self.start_speakers(open_output),
            Command::MicOff => {
                self.stop_mic();
                Ok(())
            },
            _ => {
                self.stop_speakers();
                Ok(())
            },
        };
        match outcome {
            Ok(()) => Ok(ChatMessage::control(self.sender.as_str(), self.room_id.as_str(), c)),
            Err(e) => Err(e),
        }
    }

    pub fn is_mic_active(&self) -> (r: bool)
        ensures
            r == self@.mic_active,
    {
        self.mic_active
    }

    pub fn is_speakers_active(&self) -> (r: bool)
        ensures
            r == self@.speakers_active,
    {
        self.speakers_active
    }

    pub fn is_grpc_stream_active(&self) -> (r: bool)
        ensures
            r == self@.connected,
    {
        self.grpc_stream_active
    }
}

} // verus!
