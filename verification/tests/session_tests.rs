use escucha::session::{
    Action, Controller, Notification, ServiceCallbacks, ServiceStatus, ShutdownFlag,
};

#[test]
fn test_service_status_display() {
    assert_eq!(ServiceStatus::Stopped.as_str(), "stopped");
    assert_eq!(ServiceStatus::Starting.as_str(), "starting");
    assert_eq!(ServiceStatus::Ready.as_str(), "ready");
    assert_eq!(ServiceStatus::Recording.as_str(), "recording");
    assert_eq!(ServiceStatus::Transcribing.as_str(), "transcribing");
    assert_eq!(ServiceStatus::Stopping.as_str(), "stopping");
}

#[test]
fn test_service_status_equality() {
    assert_eq!(ServiceStatus::Ready, ServiceStatus::Ready);
    assert_ne!(ServiceStatus::Ready, ServiceStatus::Recording);
}

struct TestCallbacks {
    statuses: Vec<ServiceStatus>,
    texts: Vec<String>,
    errors: Vec<String>,
}

impl TestCallbacks {
    fn new() -> Self {
        Self {
            statuses: Vec::new(),
            texts: Vec::new(),
            errors: Vec::new(),
        }
    }
}

impl ServiceCallbacks for TestCallbacks {
    fn on_status(&mut self, status: ServiceStatus) {
        self.statuses.push(status);
    }
    fn on_status_msg(&mut self, _msg: &str) {}
    fn on_text(&mut self, text: &str) {
        self.texts.push(text.to_string());
    }
    fn on_error(&mut self, error: &str) {
        self.errors.push(error.to_string());
    }
}

#[test]
fn test_callbacks() {
    let mut cb = TestCallbacks::new();
    cb.on_status(ServiceStatus::Ready);
    cb.on_text("hello world");
    cb.on_error("test error");

    assert_eq!(cb.statuses, vec![ServiceStatus::Ready]);
    assert_eq!(cb.texts, vec!["hello world"]);
    assert_eq!(cb.errors, vec!["test error"]);
}

/// Collect every status transition out of a run of notification batches.
fn statuses(batches: &[Vec<Notification>]) -> Vec<ServiceStatus> {
    batches
        .iter()
        .flatten()
        .filter_map(|n| match n {
            Notification::Status(s) => Some(*s),
            _ => None,
        })
        .collect()
}

/// Drive a fresh controller to Ready.
fn ready_controller() -> Controller {
    let mut c = Controller::new();
    let n0 = c.begin_startup();
    assert_eq!(n0, vec![Notification::Status(ServiceStatus::Starting)]);
    let n1 = c.warmup_ok("/dev/input/event0 - Keyboard".to_string());
    assert!(matches!(n1[1], Notification::Status(ServiceStatus::Ready)));
    assert_eq!(c.status(), ServiceStatus::Ready);
    c
}

#[test]
fn press_hold_release_yields_one_transcribed_paste() {
    let mut c = ready_controller();
    let mut batches: Vec<Vec<Notification>> = Vec::new();

    let (notes, action) = c.on_press();
    batches.push(notes);
    assert!(matches!(action, Action::StartRecording));
    c.recording_started("/tmp/capture.wav".to_string());
    assert_eq!(c.status(), ServiceStatus::Recording);

    let (notes, action) = c.on_release();
    batches.push(notes);
    assert!(matches!(action, Action::StopRecording(ref p) if p == "/tmp/capture.wav"));

    let action = c.recording_stopped();
    assert!(matches!(action, Action::Transcribe(ref p) if p == "/tmp/capture.wav"));

    let (notes, action) = c.transcribed("hello world".to_string());
    assert_eq!(
        notes,
        vec![Notification::Text("hello world".to_string())]
    );
    batches.push(notes);
    assert!(matches!(action, Action::Paste(ref t) if t == "hello world"));

    let action = c.paste_ok();
    assert!(matches!(action, Action::RemoveFile(ref p) if p == "/tmp/capture.wav"));

    let notes = c.cleanup_done();
    batches.push(notes);

    assert_eq!(
        statuses(&batches),
        vec![
            ServiceStatus::Recording,
            ServiceStatus::Transcribing,
            ServiceStatus::Ready,
        ]
    );
    assert_eq!(c.status(), ServiceStatus::Ready);
}

#[test]
fn near_zero_hold_transcription_failure_recovers_and_removes_file() {
    let mut c = ready_controller();

    let (_, action) = c.on_press();
    assert!(matches!(action, Action::StartRecording));
    c.recording_started("/tmp/short.wav".to_string());

    let (_, action) = c.on_release();
    assert!(matches!(action, Action::StopRecording(_)));
    let action = c.recording_stopped();
    assert!(matches!(action, Action::Transcribe(_)));

    let (notes, action) = c.transcription_failed("Whisper transcription failed".to_string());
    assert_eq!(
        notes,
        vec![Notification::Error(
            "Whisper transcription failed".to_string()
        )]
    );
    assert!(matches!(action, Action::RemoveFile(ref p) if p == "/tmp/short.wav"));

    let notes = c.cleanup_done();
    assert_eq!(notes, vec![Notification::Status(ServiceStatus::Ready)]);
    assert_eq!(c.status(), ServiceStatus::Ready);
}

#[test]
fn shutdown_while_recording_discards_capture_without_transcribing() {
    let mut c = ready_controller();

    let (_, action) = c.on_press();
    assert!(matches!(action, Action::StartRecording));
    c.recording_started("/tmp/in_flight.wav".to_string());
    assert_eq!(c.status(), ServiceStatus::Recording);

    let notes = c.observe_shutdown();
    assert_eq!(notes, vec![Notification::Status(ServiceStatus::Stopping)]);
    assert!(c.finished());

    let (notes, action) = c.teardown();
    assert_eq!(notes, vec![Notification::Status(ServiceStatus::Stopped)]);
    assert!(matches!(action, Action::DiscardRecording(ref p) if p == "/tmp/in_flight.wav"));
    assert_eq!(c.status(), ServiceStatus::Stopped);
}

#[test]
fn press_while_recording_is_ignored() {
    let mut c = ready_controller();
    let (_, action) = c.on_press();
    assert!(matches!(action, Action::StartRecording));
    c.recording_started("/tmp/one.wav".to_string());

    // A second press must not start a second recording.
    let (notes, action) = c.on_press();
    assert!(notes.is_empty());
    assert!(matches!(action, Action::Idle));
    assert_eq!(c.status(), ServiceStatus::Recording);
}

#[test]
fn release_while_ready_is_ignored() {
    let mut c = ready_controller();
    let (notes, action) = c.on_release();
    assert!(notes.is_empty());
    assert!(matches!(action, Action::Idle));
    assert_eq!(c.status(), ServiceStatus::Ready);
}

#[test]
fn shutdown_request_twice_equals_once() {
    let mut c = ready_controller();
    let first = c.observe_shutdown();
    assert_eq!(first, vec![Notification::Status(ServiceStatus::Stopping)]);
    let second = c.observe_shutdown();
    assert!(second.is_empty());
    assert_eq!(c.status(), ServiceStatus::Stopping);

    let mut flag = ShutdownFlag::new();
    assert!(!flag.is_requested());
    flag.request_shutdown();
    assert!(flag.is_requested());
    flag.request_shutdown();
    assert!(flag.is_requested());
}

#[test]
fn empty_transcription_pastes_nothing() {
    let mut c = ready_controller();
    let (_, action) = c.on_press();
    assert!(matches!(action, Action::StartRecording));
    c.recording_started("/tmp/silence.wav".to_string());
    let (_, _) = c.on_release();
    let _ = c.recording_stopped();

    let (notes, action) = c.transcribed("   \n ".to_string());
    assert!(notes.is_empty());
    assert!(matches!(action, Action::RemoveFile(_)));
    let notes = c.cleanup_done();
    assert_eq!(notes, vec![Notification::Status(ServiceStatus::Ready)]);
}

#[test]
fn transcribed_text_is_normalized_before_paste() {
    let mut c = ready_controller();
    let (_, action) = c.on_press();
    assert!(matches!(action, Action::StartRecording));
    c.recording_started("/tmp/x.wav".to_string());
    let (_, _) = c.on_release();
    let _ = c.recording_stopped();

    let (notes, action) = c.transcribed("  hello   world \n".to_string());
    assert_eq!(notes, vec![Notification::Text("hello world".to_string())]);
    assert!(matches!(action, Action::Paste(ref t) if t == "hello world"));
}

#[test]
fn recording_start_failure_returns_to_ready() {
    let mut c = ready_controller();
    let (_, action) = c.on_press();
    assert!(matches!(action, Action::StartRecording));

    let notes = c.recording_start_failed("Failed to start recording: no binary".to_string());
    assert_eq!(
        notes,
        vec![
            Notification::Error("Failed to start recording: no binary".to_string()),
            Notification::Status(ServiceStatus::Ready),
        ]
    );
    assert_eq!(c.status(), ServiceStatus::Ready);
}

#[test]
fn paste_failure_is_reported_without_changing_status() {
    let mut c = ready_controller();
    let (_, _) = c.on_press();
    c.recording_started("/tmp/x.wav".to_string());
    let (_, _) = c.on_release();
    let _ = c.recording_stopped();
    let (_, action) = c.transcribed("hi".to_string());
    assert!(matches!(action, Action::Paste(_)));

    let before = c.status();
    let (notes, action) = c.paste_failed("Paste failed: no tool".to_string());
    assert_eq!(
        notes,
        vec![Notification::Error("Paste failed: no tool".to_string())]
    );
    assert_eq!(c.status(), before);
    assert!(matches!(action, Action::RemoveFile(_)));
}

#[test]
fn reader_error_ends_session_via_stopping() {
    let mut c = ready_controller();
    let notes = c.on_reader_error("Event read error: unplugged".to_string());
    assert_eq!(
        notes,
        vec![
            Notification::Error("Event read error: unplugged".to_string()),
            Notification::Status(ServiceStatus::Stopping),
        ]
    );
    assert!(c.finished());
    assert_eq!(c.status(), ServiceStatus::Stopping);

    let (notes, action) = c.teardown();
    assert_eq!(notes, vec![Notification::Status(ServiceStatus::Stopped)]);
    assert!(matches!(action, Action::Idle));
    assert_eq!(c.status(), ServiceStatus::Stopped);
}

#[test]
fn channel_closed_is_a_fatal_error() {
    let mut c = ready_controller();
    let notes = c.on_channel_closed();
    assert_eq!(
        notes,
        vec![
            Notification::Error("Event reader thread exited".to_string()),
            Notification::Status(ServiceStatus::Stopping),
        ]
    );
    assert!(c.finished());
    assert_eq!(c.status(), ServiceStatus::Stopping);
}

#[test]
fn warmup_failure_ends_at_stopped() {
    let mut c = Controller::new();
    let _ = c.begin_startup();
    let notes = c.warmup_failed("Configured keyboard device not found: /dev/nope".to_string());
    assert_eq!(
        notes,
        vec![
            Notification::Error("Configured keyboard device not found: /dev/nope".to_string()),
            Notification::Status(ServiceStatus::Stopped),
        ]
    );
    assert_eq!(c.status(), ServiceStatus::Stopped);
    assert!(c.finished());
}

#[test]
fn stop_failure_returns_to_ready_without_transcribing() {
    let mut c = ready_controller();
    let (_, _) = c.on_press();
    c.recording_started("/tmp/x.wav".to_string());
    let (_, _) = c.on_release();

    let notes = c.recording_stop_failed("Failed to stop recording: gone".to_string());
    assert_eq!(
        notes,
        vec![
            Notification::Error("Failed to stop recording: gone".to_string()),
            Notification::Status(ServiceStatus::Ready),
        ]
    );
    assert_eq!(c.status(), ServiceStatus::Ready);
}
