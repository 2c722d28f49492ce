use std::cell::Cell;
use std::rc::Rc;

use chat_client::command::Command;
use chat_client::session::{AudioStreamer, SessionError};

/// A device handle that counts how many times it was released.
struct FakeDevice {
    released: Rc<Cell<u32>>,
}

impl Drop for FakeDevice {
    fn drop(&mut self) {
        self.released.set(self.released.get() + 1);
    }
}

fn streamer() -> AudioStreamer<FakeDevice> {
    AudioStreamer::new("Ana".to_string(), "R1".to_string())
}

#[test]
fn new_session_is_idle() {
    let s = streamer();
    assert!(!s.is_grpc_stream_active());
    assert!(!s.is_mic_active());
    assert!(!s.is_speakers_active());
    assert_eq!(s.sender(), "Ana");
    assert_eq!(s.room_id(), "R1");
}

#[test]
fn mic_before_connect_fails_and_opens_nothing() {
    let mut s = streamer();
    let opens = Cell::new(0u32);
    let released = Rc::new(Cell::new(0u32));
    let r = s.start_mic(|| {
        opens.set(opens.get() + 1);
        Ok(FakeDevice { released: released.clone() })
    });
    assert_eq!(r, Err(SessionError::Precondition));
    assert_eq!(opens.get(), 0);
    assert!(!s.is_mic_active());
}

#[test]
fn speakers_before_connect_fail_and_open_nothing() {
    let mut s = streamer();
    let opens = Cell::new(0u32);
    let released = Rc::new(Cell::new(0u32));
    let r = s.start_speakers(|| {
        opens.set(opens.get() + 1);
        Ok(FakeDevice { released: released.clone() })
    });
    assert_eq!(r, Err(SessionError::Precondition));
    assert_eq!(opens.get(), 0);
    assert!(!s.is_speakers_active());
}

#[test]
fn connection_failure_is_reported() {
    let mut s = streamer();
    assert_eq!(s.start_audio_connection(Err(SessionError::Connection)), Err(SessionError::Connection));
    assert!(!s.is_grpc_stream_active());
    assert_eq!(s.start_audio_connection(Ok(())), Ok(()));
    assert!(s.is_grpc_stream_active());
    // Already connected: the outcome handed in is not consulted.
    assert_eq!(s.start_audio_connection(Err(SessionError::Connection)), Ok(()));
    assert!(s.is_grpc_stream_active());
}

#[test]
fn mic_on_twice_opens_once() {
    let mut s = streamer();
    s.start_audio_connection(Ok(())).unwrap();
    let opens = Cell::new(0u32);
    let released = Rc::new(Cell::new(0u32));
    let open = || {
        opens.set(opens.get() + 1);
        Ok(FakeDevice { released: released.clone() })
    };
    assert_eq!(s.start_mic(open), Ok(()));
    let open = || {
        opens.set(opens.get() + 1);
        Ok(FakeDevice { released: released.clone() })
    };
    assert_eq!(s.start_mic(open), Ok(()));
    assert_eq!(opens.get(), 1);
    assert!(s.is_mic_active());
    assert_eq!(released.get(), 0);
}

#[test]
fn mic_off_releases_before_returning() {
    let mut s = streamer();
    s.start_audio_connection(Ok(())).unwrap();
    let released = Rc::new(Cell::new(0u32));
    let r1 = released.clone();
    s.start_mic(move || Ok(FakeDevice { released: r1 })).unwrap();
    s.stop_mic();
    assert_eq!(released.get(), 1);
    assert!(!s.is_mic_active());
    // Stopping again does nothing.
    s.stop_mic();
    assert_eq!(released.get(), 1);
    // Immediate re-activation opens a fresh handle.
    let opens = Cell::new(0u32);
    let r2 = released.clone();
    let r = s.start_mic(|| {
        opens.set(opens.get() + 1);
        Ok(FakeDevice { released: r2 })
    });
    assert_eq!(r, Ok(()));
    assert_eq!(opens.get(), 1);
    assert!(s.is_mic_active());
}

#[test]
fn device_errors_leave_device_off() {
    let mut s = streamer();
    s.start_audio_connection(Ok(())).unwrap();
    assert_eq!(s.start_mic(|| Err(SessionError::Device)), Err(SessionError::Device));
    assert!(!s.is_mic_active());
    assert_eq!(
        s.start_speakers(|| Err(SessionError::UnsupportedFormat)),
        Err(SessionError::UnsupportedFormat)
    );
    assert!(!s.is_speakers_active());
    assert!(s.is_grpc_stream_active());
}

#[test]
fn disconnect_cascades_to_both_devices() {
    let mut s = streamer();
    s.start_audio_connection(Ok(())).unwrap();
    let released = Rc::new(Cell::new(0u32));
    let (r1, r2) = (released.clone(), released.clone());
    s.start_mic(move || Ok(FakeDevice { released: r1 })).unwrap();
    s.start_speakers(move || Ok(FakeDevice { released: r2 })).unwrap();
    assert!(s.is_mic_active() && s.is_speakers_active());
    s.stop_audio_connection();
    assert!(!s.is_grpc_stream_active());
    assert!(!s.is_mic_active());
    assert!(!s.is_speakers_active());
    assert_eq!(released.get(), 2);
}

#[test]
fn mic_on_command_while_disconnected_sends_nothing() {
    let mut s = streamer();
    let r = s.apply_command(
        Command::MicOn,
        || -> Result<FakeDevice, SessionError> { panic!("no device may be opened") },
        || -> Result<FakeDevice, SessionError> { panic!("no device may be opened") },
    );
    assert!(matches!(r, Err(SessionError::Precondition)));
    assert!(!s.is_mic_active());
    assert!(!s.is_grpc_stream_active());
}

#[test]
fn listen_on_command_sends_its_token() {
    let mut s = streamer();
    s.start_audio_connection(Ok(())).unwrap();
    let released = Rc::new(Cell::new(0u32));
    let r1 = released.clone();
    let m = s
        .apply_command(
            Command::ListenOn,
            || -> Result<FakeDevice, SessionError> { panic!("the microphone is not asked for") },
            move || Ok(FakeDevice { released: r1 }),
        )
        .unwrap();
    assert_eq!(m.sender, "Ana");
    assert_eq!(m.room_id, "R1");
    assert_eq!(m.message, "/listen on");
    assert_eq!(m.timestamp, 0);
    assert_eq!(m.trace_id, "");
    assert!(s.is_speakers_active());
    let m = s
        .apply_command(
            Command::ListenOff,
            || -> Result<FakeDevice, SessionError> { panic!("unused") },
            || -> Result<FakeDevice, SessionError> { panic!("unused") },
        )
        .unwrap();
    assert_eq!(m.message, "/listen off");
    assert!(!s.is_speakers_active());
    assert_eq!(released.get(), 1);
}

#[test]
fn mic_off_command_when_off_still_acknowledges() {
    let mut s = streamer();
    let m = s
        .apply_command(
            Command::MicOff,
            || -> Result<FakeDevice, SessionError> { panic!("unused") },
            || -> Result<FakeDevice, SessionError> { panic!("unused") },
        )
        .unwrap();
    assert_eq!(m.message, "/mic off");
    assert!(!s.is_mic_active());
}
