//! The dictation session controller.
//!
//! The controller is the state machine at the heart of the daemon: it
//! correlates key press/release edges with the lifecycle of one audio
//! recording, dispatches transcription and pasting, and guarantees clean
//! teardown on every exit path. It is written as a pure decision core: the
//! surrounding driver performs each returned [`Action`] (start or stop the
//! recorder, transcribe, paste, remove a file) and feeds the outcome back
//! through the matching completion method. Every state transition is
//! reported exactly once, in order, through the returned notifications.

use vstd::prelude::*;

use crate::transcribe::norm;
use crate::transcribe::normalize_whitespace;

verus! {

/// The observable state of a dictation session. `Stopped` is both the
/// state before startup and the terminal state.
#[derive(Debug, Clone, Copy, PartialEq, Eq, Structural)]
pub enum ServiceStatus {
    Stopped,
    Starting,
    Ready,
    Recording,
    Transcribing,
    Stopping,
}

/// The label of a status, as shown to users.
pub open spec fn status_label(s: ServiceStatus) -> Seq<char> {
    match s {
        ServiceStatus::Stopped => "stopped"@,
        ServiceStatus::Starting => "starting"@,
        ServiceStatus::Ready => "ready"@,
        ServiceStatus::Recording => "recording"@,
        ServiceStatus::Transcribing => "transcribing"@,
        ServiceStatus::Stopping => "stopping"@,
    }
}

impl ServiceStatus {
    /// The label of this status, as shown to users.
    pub fn as_str(&self) -> (r: &'static str)
        ensures
            r@ == status_label(*self),
    {
        match self {
            ServiceStatus::Stopped => "stopped",
            ServiceStatus::Starting => "starting",
            ServiceStatus::Ready => "ready",
            ServiceStatus::Recording => "recording",
            ServiceStatus::Transcribing => "transcribing",
            ServiceStatus::Stopping => "stopping",
        }
    }
}

/// Callbacks through which the session reports status changes, transcribed
/// text and errors to its surroundings (a GUI, a log).
pub trait ServiceCallbacks {
    fn on_status(&mut self, status: ServiceStatus);

    fn on_status_msg(&mut self, msg: &str);

    fn on_text(&mut self, text: &str);

    fn on_error(&mut self, error: &str);
}

/// Where the controller stands inside one action cycle: `Idle` between
/// cycles, otherwise waiting for the driver to report the outcome of the
/// named action.
#[derive(Debug, Clone, Copy, PartialEq, Eq, Structural)]
pub enum Phase {
    Idle,
    AwaitStart,
    AwaitStop,
    AwaitTranscribe,
    AwaitPaste,
    AwaitCleanup,
}

/// One ordered notification to the session's observers.
#[derive(Debug, Clone, PartialEq)]
pub enum Notification {
    Status(ServiceStatus),
    StatusMsg(String),
    Text(String),
    Error(String),
}

/// The mathematical value of a notification.
pub enum Note {
    Status(ServiceStatus),
    Msg(Seq<char>),
    Text(Seq<char>),
    Error(Seq<char>),
}

/// The mathematical value of one notification.
pub open spec fn note_view(n: Notification) -> Note {
    match n {
        Notification::Status(s) => Note::Status(s),
        Notification::StatusMsg(m) => Note::Msg(m@),
        Notification::Text(t) => Note::Text(t@),
        Notification::Error(e) => Note::Error(e@),
    }
}

/// The mathematical value of an ordered notification list.
pub open spec fn notes_view(s: Seq<Notification>) -> Seq<Note> {
    Seq::new(s.len(), |i: int| note_view(s[i]))
}

/// What the driver must do next. Paths are the capture file of the current
/// recording cycle.
#[derive(Debug, Clone, PartialEq)]
pub enum Action {
    /// Nothing to do.
    Idle,
    /// Create a capture path and start the recorder; report back through
    /// `recording_started` or `recording_start_failed`.
    StartRecording,
    /// Stop the recorder writing to this path; report back through
    /// `recording_stopped` or `recording_stop_failed`.
    StopRecording(String),
    /// Transcribe this capture file; report back through `transcribed` or
    /// `transcription_failed`.
    Transcribe(String),
    /// Paste this text; report back through `paste_ok` or `paste_failed`.
    Paste(String),
    /// Remove this capture file, then call `cleanup_done`.
    RemoveFile(String),
    /// Final cleanup: stop the recorder writing to this path, best effort,
    /// and remove the file. Nothing is reported back.
    DiscardRecording(String),
}

/// The mathematical value of an action.
pub enum Act {
    Idle,
    StartRecording,
    StopRecording(Seq<char>),
    Transcribe(Seq<char>),
    Paste(Seq<char>),
    RemoveFile(Seq<char>),
    DiscardRecording(Seq<char>),
}

/// The mathematical value of an action.
pub open spec fn action_view(a: Action) -> Act {
    match a {
        Action::Idle => Act::Idle,
        Action::StartRecording => Act::StartRecording,
        Action::StopRecording(p) => Act::StopRecording(p@),
        Action::Transcribe(p) => Act::Transcribe(p@),
        Action::Paste(t) => Act::Paste(t@),
        Action::RemoveFile(p) => Act::RemoveFile(p@),
        Action::DiscardRecording(p) => Act::DiscardRecording(p@),
    }
}

/// The abstract state of a controller: its observable status, its place in
/// the current action cycle, the capture path of the recording it holds (at
/// most one, ever), and whether the session is winding down.
pub struct Model {
    pub status: ServiceStatus,
    pub phase: Phase,
    pub pending: Option<Seq<char>>,
    pub done: bool,
}

/// A well-formed controller: the phase, status and held recording agree.
/// In particular a capture file is held in exactly the situations the
/// protocol expects, and never more than one.
pub open spec fn wf(m: Model) -> bool {
    &&& (m.phase == Phase::AwaitStart ==> m.status == ServiceStatus::Recording && m.pending
        is None && !m.done)
    &&& (m.phase == Phase::AwaitStop || m.phase == Phase::AwaitTranscribe || m.phase
        == Phase::AwaitPaste || m.phase == Phase::AwaitCleanup ==> m.status
        == ServiceStatus::Transcribing && m.pending is Some && !m.done)
    &&& (m.status == ServiceStatus::Recording && m.phase == Phase::Idle ==> m.pending is Some)
    &&& (m.pending is Some ==> m.status == ServiceStatus::Recording || m.status
        == ServiceStatus::Transcribing || (m.done && m.status != ServiceStatus::Stopped))
    &&& (m.status == ServiceStatus::Stopped || m.status == ServiceStatus::Starting || m.status
        == ServiceStatus::Ready ==> m.pending is None)
    &&& (m.status == ServiceStatus::Stopped || m.status == ServiceStatus::Starting || m.status
        == ServiceStatus::Ready || m.status == ServiceStatus::Stopping ==> m.phase == Phase::Idle)
    &&& (m.status == ServiceStatus::Stopping ==> m.done)
}

/// The result of one controller step: the new model, the notifications
/// emitted, in order, and the action handed to the driver.
pub struct Step {
    pub m: Model,
    pub notes: Seq<Note>,
    pub action: Act,
}

/// A step that changes nothing, says nothing and asks for nothing.
pub open spec fn noop(m: Model) -> Step {
    Step { m, notes: seq![], action: Act::Idle }
}

/// Session start requested: Stopped becomes Starting.
pub open spec fn begin_step(m: Model) -> Step {
    if m.status == ServiceStatus::Stopped && !m.done {
        Step {
            m: Model { status: ServiceStatus::Starting, ..m },
            notes: seq![Note::Status(ServiceStatus::Starting)],
            action: Act::Idle,
        }
    } else {
        noop(m)
    }
}

/// Warm-up complete: Starting becomes Ready, after the device label is
/// announced.
pub open spec fn warmup_ok_step(m: Model, label: Seq<char>) -> Step {
    if m.status == ServiceStatus::Starting && !m.done {
        Step {
            m: Model { status: ServiceStatus::Ready, ..m },
            notes: seq![Note::Msg(label), Note::Status(ServiceStatus::Ready)],
            action: Act::Idle,
        }
    } else {
        noop(m)
    }
}

/// Warm-up failed: the error is fatal and the session ends at Stopped.
pub open spec fn warmup_failed_step(m: Model, error: Seq<char>) -> Step {
    if m.status == ServiceStatus::Starting && !m.done {
        Step {
            m: Model { status: ServiceStatus::Stopped, done: true, ..m },
            notes: seq![Note::Error(error), Note::Status(ServiceStatus::Stopped)],
            action: Act::Idle,
        }
    } else {
        noop(m)
    }
}

/// A press edge: in Ready it opens a recording cycle; in every other state
/// it is a no-op — in particular a press while a recording is already held
/// never starts a second one.
pub open spec fn press_step(m: Model) -> Step {
    if m.status == ServiceStatus::Ready && m.phase == Phase::Idle && !m.done {
        Step {
            m: Model { status: ServiceStatus::Recording, phase: Phase::AwaitStart, ..m },
            notes: seq![Note::Status(ServiceStatus::Recording)],
            action: Act::StartRecording,
        }
    } else {
        noop(m)
    }
}

/// A release edge: while a recording is held it closes the recording and
/// opens transcription; in every other state it is a no-op.
pub open spec fn release_step(m: Model) -> Step {
    if m.status == ServiceStatus::Recording && m.phase == Phase::Idle && !m.done
        && m.pending is Some {
        Step {
            m: Model { status: ServiceStatus::Transcribing, phase: Phase::AwaitStop, ..m },
            notes: seq![Note::Status(ServiceStatus::Transcribing)],
            action: Act::StopRecording(m.pending->Some_0),
        }
    } else {
        noop(m)
    }
}

/// The recorder started and writes to `path`: the controller now holds the
/// one recording.
pub open spec fn started_step(m: Model, path: Seq<char>) -> Step {
    if m.phase == Phase::AwaitStart {
        Step {
            m: Model { phase: Phase::Idle, pending: Some(path), ..m },
            notes: seq![],
            action: Act::Idle,
        }
    } else {
        noop(m)
    }
}

/// The recorder could not start: the error is recoverable and the session
/// returns to Ready holding nothing.
pub open spec fn start_failed_step(m: Model, error: Seq<char>) -> Step {
    if m.phase == Phase::AwaitStart {
        Step {
            m: Model { status: ServiceStatus::Ready, phase: Phase::Idle, pending: None, ..m },
            notes: seq![Note::Error(error), Note::Status(ServiceStatus::Ready)],
            action: Act::Idle,
        }
    } else {
        noop(m)
    }
}

/// The recorder stopped and the capture file exists: transcribe it.
pub open spec fn stopped_step(m: Model) -> Step {
    if m.phase == Phase::AwaitStop && m.pending is Some {
        Step {
            m: Model { phase: Phase::AwaitTranscribe, ..m },
            notes: seq![],
            action: Act::Transcribe(m.pending->Some_0),
        }
    } else {
        noop(m)
    }
}

/// The recorder could not stop cleanly: the error is recoverable and the
/// session returns to Ready; the handle is gone either way.
pub open spec fn stop_failed_step(m: Model, error: Seq<char>) -> Step {
    if m.phase == Phase::AwaitStop {
        Step {
            m: Model { status: ServiceStatus::Ready, phase: Phase::Idle, pending: None, ..m },
            notes: seq![Note::Error(error), Note::Status(ServiceStatus::Ready)],
            action: Act::Idle,
        }
    } else {
        noop(m)
    }
}

/// Transcription finished with `raw` text. The normalized text is announced
/// and pasted when it is non-empty; an empty result means "no speech" and
/// skips both. Either way the capture file is removed next.
pub open spec fn transcribed_step(m: Model, raw: Seq<char>) -> Step {
    if m.phase == Phase::AwaitTranscribe && m.pending is Some {
        if norm(raw).len() > 0 {
            Step {
                m: Model { phase: Phase::AwaitPaste, ..m },
                notes: seq![Note::Text(norm(raw))],
                action: Act::Paste(norm(raw)),
            }
        } else {
            Step {
                m: Model { phase: Phase::AwaitCleanup, ..m },
                notes: seq![],
                action: Act::RemoveFile(m.pending->Some_0),
            }
        }
    } else {
        noop(m)
    }
}

/// Transcription failed: the error is recoverable; the capture file is
/// still removed.
pub open spec fn transcription_failed_step(m: Model, error: Seq<char>) -> Step {
    if m.phase == Phase::AwaitTranscribe && m.pending is Some {
        Step {
            m: Model { phase: Phase::AwaitCleanup, ..m },
            notes: seq![Note::Error(error)],
            action: Act::RemoveFile(m.pending->Some_0),
        }
    } else {
        noop(m)
    }
}

/// The paste went through: remove the capture file.
pub open spec fn paste_ok_step(m: Model) -> Step {
    if m.phase == Phase::AwaitPaste && m.pending is Some {
        Step {
            m: Model { phase: Phase::AwaitCleanup, ..m },
            notes: seq![],
            action: Act::RemoveFile(m.pending->Some_0),
        }
    } else {
        noop(m)
    }
}

/// The paste failed: paste is best-effort, so the error is reported and
/// nothing else changes course; the status stays as it was.
pub open spec fn paste_failed_step(m: Model, error: Seq<char>) -> Step {
    if m.phase == Phase::AwaitPaste && m.pending is Some {
        Step {
            m: Model { phase: Phase::AwaitCleanup, ..m },
            notes: seq![Note::Error(error)],
            action: Act::RemoveFile(m.pending->Some_0),
        }
    } else {
        noop(m)
    }
}

/// The capture file is gone: the cycle is over and the session is Ready
/// again.
pub open spec fn cleanup_done_step(m: Model) -> Step {
    if m.phase == Phase::AwaitCleanup {
        Step {
            m: Model { status: ServiceStatus::Ready, phase: Phase::Idle, pending: None, ..m },
            notes: seq![Note::Status(ServiceStatus::Ready)],
            action: Act::Idle,
        }
    } else {
        noop(m)
    }
}

/// The reader thread reported a fatal error: the fatal error is announced
/// and the session moves to Stopping on its way to Stopped. Any held
/// recording is discarded by the final cleanup.
pub open spec fn reader_error_step(m: Model, error: Seq<char>) -> Step {
    if (m.status == ServiceStatus::Ready || m.status == ServiceStatus::Recording) && m.phase
        == Phase::Idle && !m.done {
        Step {
            m: Model { status: ServiceStatus::Stopping, done: true, ..m },
            notes: seq![Note::Error(error), Note::Status(ServiceStatus::Stopping)],
            action: Act::Idle,
        }
    } else {
        noop(m)
    }
}

/// The edge channel disconnected without a shutdown request: the reader
/// thread died, which is a fatal session error.
pub open spec fn channel_closed_step(m: Model) -> Step {
    reader_error_step(m, "Event reader thread exited"@)
}

/// The shutdown flag was observed set: the session moves to Stopping.
/// Observing it again afterwards changes nothing.
pub open spec fn shutdown_step(m: Model) -> Step {
    if (m.status == ServiceStatus::Ready || m.status == ServiceStatus::Recording) && m.phase
        == Phase::Idle && !m.done {
        Step {
            m: Model { status: ServiceStatus::Stopping, done: true, ..m },
            notes: seq![Note::Status(ServiceStatus::Stopping)],
            action: Act::Idle,
        }
    } else {
        noop(m)
    }
}

/// Final teardown: whatever recording is still held is handed out for
/// stop-and-discard, and the session ends at Stopped. This runs on every
/// exit path, so no capture file outlives the session.
pub open spec fn teardown_step(m: Model) -> Step {
    if m.done && m.phase == Phase::Idle && m.status != ServiceStatus::Stopped {
        Step {
            m: Model { status: ServiceStatus::Stopped, pending: None, ..m },
            notes: seq![Note::Status(ServiceStatus::Stopped)],
            action: match m.pending {
                Some(p) => Act::DiscardRecording(p),
                None => Act::Idle,
            },
        }
    } else {
        noop(m)
    }
}


/// The controller itself: the exclusive owner of the session's status and
/// of the at-most-one in-progress recording.
pub struct Controller {
    status: ServiceStatus,
    phase: Phase,
    pending: Option<String>,
    done: bool,
}

impl View for Controller {
    type V = Model;

    closed spec fn view(&self) -> Model {
        Model {
            status: self.status,
            phase: self.phase,
            pending: match self.pending {
                Some(p) => Some(p@),
                None => None,
            },
            done: self.done,
        }
    }
}

impl Controller {
    /// A fresh controller: Stopped, holding nothing.
    pub fn new() -> (r: Controller)
        ensures
            r@ == (Model {
                status: ServiceStatus::Stopped,
                phase: Phase::Idle,
                pending: None,
                done: false,
            }),
            wf(r@),
    {
        Controller { status: ServiceStatus::Stopped, phase: Phase::Idle, pending: None, done: false }
    }

    /// The current observable status.
    pub fn status(&self) -> (r: ServiceStatus)
        ensures
            r == self@.status,
    {
        self.status
    }

    /// The session is winding down (or already over).
    pub fn finished(&self) -> (r: bool)
        ensures
            r == self@.done,
    {
        self.done
    }

    /// Session start requested.
    pub fn begin_startup(&mut self) -> (notes: Vec<Notification>)
        requires
            wf(old(self)@),
        ensures
            wf(final (self)@),
            final (self)@ == begin_step(old(self)@).m,
            notes_view(notes@) == begin_step(old(self)@).notes,
    {
        let mut notes: Vec<Notification> = Vec::new();
        if self.status == ServiceStatus::Stopped && !self.done {
            self.status = ServiceStatus::Starting;
            notes.push(Notification::Status(ServiceStatus::Starting));
            proof {
                assert(notes_view(notes@) =~= seq![Note::Status(ServiceStatus::Starting)]);
            }
        } else {
            proof {
                assert(notes_view(notes@) =~= Seq::<Note>::empty());
            }
        }
        notes
    }

    /// Warm-up complete; `device_label` names the selected input device.
    pub fn warmup_ok(&mut self, device_label: String) -> (notes: Vec<Notification>)
        requires
            wf(old(self)@),
        ensures
            wf(final (self)@),
            final (self)@ == warmup_ok_step(old(self)@, device_label@).m,
            notes_view(notes@) == warmup_ok_step(old(self)@, device_label@).notes,
    {
        let mut notes: Vec<Notification> = Vec::new();
        if self.status == ServiceStatus::Starting && !self.done {
            self.status = ServiceStatus::Ready;
            notes.push(Notification::StatusMsg(device_label));
            notes.push(Notification::Status(ServiceStatus::Ready));
            proof {
                assert(notes_view(notes@) =~= warmup_ok_step(old(self)@, device_label@).notes);
            }
        } else {
            proof {
                assert(notes_view(notes@) =~= Seq::<Note>::empty());
            }
        }
        notes
    }

    /// Warm-up failed; the session ends at Stopped.
    pub fn warmup_failed(&mut self, error: String) -> (notes: Vec<Notification>)
        requires
            wf(old(self)@),
        ensures
            wf(final (self)@),
            final (self)@ == warmup_failed_step(old(self)@, error@).m,
            notes_view(notes@) == warmup_failed_step(old(self)@, error@).notes,
    {
        let mut notes: Vec<Notification> = Vec::new();
        if self.status == ServiceStatus::Starting && !self.done {
            self.status = ServiceStatus::Stopped;
            self.done = true;
            notes.push(Notification::Error(error));
            notes.push(Notification::Status(ServiceStatus::Stopped));
            proof {
                assert(notes_view(notes@) =~= warmup_failed_step(old(self)@, error@).notes);
            }
        } else {
            proof {
                assert(notes_view(notes@) =~= Seq::<Note>::empty());
            }
        }
        notes
    }

    /// A press edge from the key reader.
    pub fn on_press(&mut self) -> (r: (Vec<Notification>, Action))
        requires
            wf(old(self)@),
        ensures
            wf(final (self)@),
            final (self)@ == press_step(old(self)@).m,
            notes_view(r.0@) == press_step(old(self)@).notes,
            action_view(r.1) == press_step(old(self)@).action,
    {
        let mut notes: Vec<Notification> = Vec::new();
        if self.status == ServiceStatus::Ready && self.phase == Phase::Idle && !self.done {
            self.status = ServiceStatus::Recording;
            self.phase = Phase::AwaitStart;
            notes.push(Notification::Status(ServiceStatus::Recording));
            proof {
                assert(notes_view(notes@) =~= seq![Note::Status(ServiceStatus::Recording)]);
            }
            (notes, Action::StartRecording)
        } else {
            proof {
                assert(notes_view(notes@) =~= Seq::<Note>::empty());
            }
            (notes, Action::Idle)
        }
    }

    /// A release edge from the key reader.
    pub fn on_release(&mut self) -> (r: (Vec<Notification>, Action))
        requires
            wf(old(self)@),
        ensures
            wf(final (self)@),
            final (self)@ == release_step(old(self)@).m,
            notes_view(r.0@) == release_step(old(self)@).notes,
            action_view(r.1) == release_step(old(self)@).action,
    {
        let mut notes: Vec<Notification> = Vec::new();
        if self.status == ServiceStatus::Recording && self.phase == Phase::Idle && !self.done {
            if let Some(p) = &self.pending {
                let path = p.clone();
                self.status = ServiceStatus::Transcribing;
                self.phase = Phase::AwaitStop;
                notes.push(Notification::Status(ServiceStatus::Transcribing));
                proof {
                    assert(notes_view(notes@) =~= seq![Note::Status(ServiceStatus::Transcribing)]);
                }
                return (notes, Action::StopRecording(path));
            }
        }
        proof {
            assert(notes_view(notes@) =~= Seq::<Note>::empty());
        }
        (notes, Action::Idle)
    }

    /// The recorder started and writes to `path`.
    pub fn recording_started(&mut self, path: String)
        requires
            wf(old(self)@),
        ensures
            wf(final (self)@),
            final (self)@ == started_step(old(self)@, path@).m,
    {
        if self.phase == Phase::AwaitStart {
            self.phase = Phase::Idle;
            self.pending = Some(path);
        }
    }

    /// The recorder could not start; the session returns to Ready.
    pub fn recording_start_failed(&mut self, error: String) -> (notes: Vec<Notification>)
        requires
            wf(old(self)@),
        ensures
            wf(final (self)@),
            final (self)@ == start_failed_step(old(self)@, error@).m,
            notes_view(notes@) == start_failed_step(old(self)@, error@).notes,
    {
        let mut notes: Vec<Notification> = Vec::new();
        if self.phase == Phase::AwaitStart {
            self.status = ServiceStatus::Ready;
            self.phase = Phase::Idle;
            self.pending = None;
            notes.push(Notification::Error(error));
            notes.push(Notification::Status(ServiceStatus::Ready));
            proof {
                assert(notes_view(notes@) =~= start_failed_step(old(self)@, error@).notes);
            }
        } else {
            proof {
                assert(notes_view(notes@) =~= Seq::<Note>::empty());
            }
        }
        notes
    }

    /// The recorder stopped and the capture file exists.
    pub fn recording_stopped(&mut self) -> (r: Action)
        requires
            wf(old(self)@),
        ensures
            wf(final (self)@),
            final (self)@ == stopped_step(old(self)@).m,
            action_view(r) == stopped_step(old(self)@).action,
    {
        if self.phase == Phase::AwaitStop {
            if let Some(p) = &self.pending {
                let path = p.clone();
                self.phase = Phase::AwaitTranscribe;
                return Action::Transcribe(path);
            }
        }
        Action::Idle
    }

    /// The recorder could not stop cleanly; the session returns to Ready.
    pub fn recording_stop_failed(&mut self, error: String) -> (notes: Vec<Notification>)
        requires
            wf(old(self)@),
        ensures
            wf(final (self)@),
            final (self)@ == stop_failed_step(old(self)@, error@).m,
            notes_view(notes@) == stop_failed_step(old(self)@, error@).notes,
    {
        let mut notes: Vec<Notification> = Vec::new();
        if self.phase == Phase::AwaitStop {
            self.status = ServiceStatus::Ready;
            self.phase = Phase::Idle;
            self.pending = None;
            notes.push(Notification::Error(error));
            notes.push(Notification::Status(ServiceStatus::Ready));
            proof {
                assert(notes_view(notes@) =~= stop_failed_step(old(self)@, error@).notes);
            }
        } else {
            proof {
                assert(notes_view(notes@) =~= Seq::<Note>::empty());
            }
        }
        notes
    }

    /// Transcription finished with `raw` text; the controller normalizes it
    /// and announces and pastes it when it is non-empty.
    pub fn transcribed(&mut self, raw: String) -> (r: (Vec<Notification>, Action))
        requires
            wf(old(self)@),
        ensures
            wf(final (self)@),
            final (self)@ == transcribed_step(old(self)@, raw@).m,
            notes_view(r.0@) == transcribed_step(old(self)@, raw@).notes,
            action_view(r.1) == transcribed_step(old(self)@, raw@).action,
    {
        let mut notes: Vec<Notification> = Vec::new();
        if self.phase == Phase::AwaitTranscribe {
            if let Some(p) = &self.pending {
                let path = p.clone();
                let text = normalize_whitespace(raw.as_str());
                if text.unicode_len() > 0 {
                    self.phase = Phase::AwaitPaste;
                    notes.push(Notification::Text(text.clone()));
                    proof {
                        assert(notes_view(notes@) =~= seq![Note::Text(norm(raw@))]);
                    }
                    return (notes, Action::Paste(text));
                } else {
                    self.phase = Phase::AwaitCleanup;
                    proof {
                        assert(notes_view(notes@) =~= Seq::<Note>::empty());
                    }
                    return (notes, Action::RemoveFile(path));
                }
            }
        }
        proof {
            assert(notes_view(notes@) =~= Seq::<Note>::empty());
        }
        (notes, Action::Idle)
    }

    /// Transcription failed; the error is recoverable.
    pub fn transcription_failed(&mut self, error: String) -> (r: (Vec<Notification>, Action))
        requires
            wf(old(self)@),
        ensures
            wf(final (self)@),
            final (self)@ == transcription_failed_step(old(self)@, error@).m,
            notes_view(r.0@) == transcription_failed_step(old(self)@, error@).notes,
            action_view(r.1) == transcription_failed_step(old(self)@, error@).action,
    {
        let mut notes: Vec<Notification> = Vec::new();
        if self.phase == Phase::AwaitTranscribe {
            if let Some(p) = &self.pending {
                let path = p.clone();
                self.phase = Phase::AwaitCleanup;
                notes.push(Notification::Error(error));
                proof {
                    assert(notes_view(notes@) =~= transcription_failed_step(
                        old(self)@,
                        error@,
                    ).notes);
                }
                return (notes, Action::RemoveFile(path));
            }
        }
        proof {
            assert(notes_view(notes@) =~= Seq::<Note>::empty());
        }
        (notes, Action::Idle)
    }

    /// The paste went through.
    pub fn paste_ok(&mut self) -> (r: Action)
        requires
            wf(old(self)@),
        ensures
            wf(final (self)@),
            final (self)@ == paste_ok_step(old(self)@).m,
            action_view(r) == paste_ok_step(old(self)@).action,
    {
        if self.phase == Phase::AwaitPaste {
            if let Some(p) = &self.pending {
                let path = p.clone();
                self.phase = Phase::AwaitCleanup;
                return Action::RemoveFile(path);
            }
        }
        Action::Idle
    }

    /// The paste failed; paste is best-effort and the status is untouched.
    pub fn paste_failed(&mut self, error: String) -> (r: (Vec<Notification>, Action))
        requires
            wf(old(self)@),
        ensures
            wf(final (self)@),
            final (self)@ == paste_failed_step(old(self)@, error@).m,
            final (self)@.status == old(self)@.status,
            notes_view(r.0@) == paste_failed_step(old(self)@, error@).notes,
            action_view(r.1) == paste_failed_step(old(self)@, error@).action,
    {
        let mut notes: Vec<Notification> = Vec::new();
        if self.phase == Phase::AwaitPaste {
            if let Some(p) = &self.pending {
                let path = p.clone();
                self.phase = Phase::AwaitCleanup;
                notes.push(Notification::Error(error));
                proof {
                    assert(notes_view(notes@) =~= paste_failed_step(old(self)@, error@).notes);
                }
                return (notes, Action::RemoveFile(path));
            }
        }
        proof {
            assert(notes_view(notes@) =~= Seq::<Note>::empty());
        }
        (notes, Action::Idle)
    }

    /// The capture file is gone; the cycle is over.
    pub fn cleanup_done(&mut self) -> (notes: Vec<Notification>)
        requires
            wf(old(self)@),
        ensures
            wf(final (self)@),
            final (self)@ == cleanup_done_step(old(self)@).m,
            notes_view(notes@) == cleanup_done_step(old(self)@).notes,
    {
        let mut notes: Vec<Notification> = Vec::new();
        if self.phase == Phase::AwaitCleanup {
            self.status = ServiceStatus::Ready;
            self.phase = Phase::Idle;
            self.pending = None;
            notes.push(Notification::Status(ServiceStatus::Ready));
            proof {
                assert(notes_view(notes@) =~= seq![Note::Status(ServiceStatus::Ready)]);
            }
        } else {
            proof {
                assert(notes_view(notes@) =~= Seq::<Note>::empty());
            }
        }
        notes
    }

    /// The reader thread reported a fatal error; the session moves to
    /// Stopping on its way to Stopped.
    pub fn on_reader_error(&mut self, error: String) -> (notes: Vec<Notification>)
        requires
            wf(old(self)@),
        ensures
            wf(final (self)@),
            final (self)@ == reader_error_step(old(self)@, error@).m,
            notes_view(notes@) == reader_error_step(old(self)@, error@).notes,
    {
        let mut notes: Vec<Notification> = Vec::new();
        if (self.status == ServiceStatus::Ready || self.status == ServiceStatus::Recording)
            && self.phase == Phase::Idle && !self.done {
            self.status = ServiceStatus::Stopping;
            self.done = true;
            notes.push(Notification::Error(error));
            notes.push(Notification::Status(ServiceStatus::Stopping));
            proof {
                assert(notes_view(notes@) =~= seq![
                    Note::Error(error@),
                    Note::Status(ServiceStatus::Stopping),
                ]);
            }
        } else {
            proof {
                assert(notes_view(notes@) =~= Seq::<Note>::empty());
            }
        }
        notes
    }

    /// The edge channel disconnected while no shutdown was requested: the
    /// reader thread died, a fatal session error.
    pub fn on_channel_closed(&mut self) -> (notes: Vec<Notification>)
        requires
            wf(old(self)@),
        ensures
            wf(final (self)@),
            final (self)@ == channel_closed_step(old(self)@).m,
            notes_view(notes@) == channel_closed_step(old(self)@).notes,
    {
        self.on_reader_error("Event reader thread exited".to_owned())
    }

    /// The shutdown flag was observed set; the session moves to Stopping.
    pub fn observe_shutdown(&mut self) -> (notes: Vec<Notification>)
        requires
            wf(old(self)@),
        ensures
            wf(final (self)@),
            final (self)@ == shutdown_step(old(self)@).m,
            notes_view(notes@) == shutdown_step(old(self)@).notes,
    {
        let mut notes: Vec<Notification> = Vec::new();
        if (self.status == ServiceStatus::Ready || self.status == ServiceStatus::Recording)
            && self.phase == Phase::Idle && !self.done {
            self.status = ServiceStatus::Stopping;
            self.done = true;
            notes.push(Notification::Status(ServiceStatus::Stopping));
            proof {
                assert(notes_view(notes@) =~= seq![Note::Status(ServiceStatus::Stopping)]);
            }
        } else {
            proof {
                assert(notes_view(notes@) =~= Seq::<Note>::empty());
            }
        }
        notes
    }

    /// Final teardown: any held recording is handed out for discarding and
    /// the session ends at Stopped.
    pub fn teardown(&mut self) -> (r: (Vec<Notification>, Action))
        requires
            wf(old(self)@),
        ensures
            wf(final (self)@),
            final (self)@ == teardown_step(old(self)@).m,
            notes_view(r.0@) == teardown_step(old(self)@).notes,
            action_view(r.1) == teardown_step(old(self)@).action,
    {
        let mut notes: Vec<Notification> = Vec::new();
        if self.done && self.phase == Phase::Idle && !(self.status == ServiceStatus::Stopped) {
            let act = match &self.pending {
                Some(p) => Action::DiscardRecording(p.clone()),
                None => Action::Idle,
            };
            self.pending = None;
            self.status = ServiceStatus::Stopped;
            notes.push(Notification::Status(ServiceStatus::Stopped));
            proof {
                assert(notes_view(notes@) =~= seq![Note::Status(ServiceStatus::Stopped)]);
            }
            (notes, act)
        } else {
            proof {
                assert(notes_view(notes@) =~= Seq::<Note>::empty());
            }
            (notes, Action::Idle)
        }
    }
}

/// A write-once-true shutdown request flag. Once set it is never reset for
/// the life of the session; requesting shutdown any number of times has the
/// effect of requesting it once.
pub struct ShutdownFlag {
    requested: bool,
}

impl View for ShutdownFlag {
    type V = bool;

    closed spec fn view(&self) -> bool {
        self.requested
    }
}

impl ShutdownFlag {
    /// A fresh, unset flag.
    pub fn new() -> (r: ShutdownFlag)
        ensures
            !r@,
    {
        ShutdownFlag { requested: false }
    }

    /// Request shutdown. The flag ends set whatever it held before, so a
    /// second request changes nothing.
    pub fn request_shutdown(&mut self)
        ensures
            final (self)@ == true,
    {
        self.requested = true;
    }

    /// Has shutdown been requested?
    pub fn is_requested(&self) -> (r: bool)
        ensures
            r == self@,
    {
        self.requested
    }
}


/// One interaction with the controller, abstractly: an edge, an observed
/// flag, or the reported outcome of a driver action.
pub enum Op {
    Begin,
    WarmupOk(Seq<char>),
    WarmupFailed(Seq<char>),
    Press,
    Release,
    Started(Seq<char>),
    StartFailed(Seq<char>),
    Stopped,
    StopFailed(Seq<char>),
    Transcribed(Seq<char>),
    TranscriptionFailed(Seq<char>),
    PasteOk,
    PasteFailed(Seq<char>),
    CleanupDone,
    ReaderError(Seq<char>),
    ChannelClosed,
    Shutdown,
    Teardown,
}

/// The step any one interaction takes.
pub open spec fn apply_op(m: Model, op: Op) -> Step {
    match op {
        Op::Begin => begin_step(m),
        Op::WarmupOk(label) => warmup_ok_step(m, label),
        Op::WarmupFailed(e) => warmup_failed_step(m, e),
        Op::Press => press_step(m),
        Op::Release => release_step(m),
        Op::Started(p) => started_step(m, p),
        Op::StartFailed(e) => start_failed_step(m, e),
        Op::Stopped => stopped_step(m),
        Op::StopFailed(e) => stop_failed_step(m, e),
        Op::Transcribed(t) => transcribed_step(m, t),
        Op::TranscriptionFailed(e) => transcription_failed_step(m, e),
        Op::PasteOk => paste_ok_step(m),
        Op::PasteFailed(e) => paste_failed_step(m, e),
        Op::CleanupDone => cleanup_done_step(m),
        Op::ReaderError(e) => reader_error_step(m, e),
        Op::ChannelClosed => channel_closed_step(m),
        Op::Shutdown => shutdown_step(m),
        Op::Teardown => teardown_step(m),
    }
}

/// The model after a whole sequence of interactions.
pub open spec fn run_ops(m: Model, ops: Seq<Op>) -> Model
    decreases ops.len(),
{
    if ops.len() == 0 {
        m
    } else {
        run_ops(apply_op(m, ops[0]).m, ops.drop_first())
    }
}

/// Every single interaction keeps the controller well-formed.
pub proof fn lemma_step_preserves_wf(m: Model, op: Op)
    requires
        wf(m),
    ensures
        wf(apply_op(m, op).m),
{
}

/// Well-formedness holds under every sequence of interactions — whatever
/// order of press/release edges, outcomes, errors and shutdown requests
/// arrives, the controller keeps its invariants, and in particular never
/// holds more than the one recording its model has room for.
pub proof fn lemma_run_preserves_wf(m: Model, ops: Seq<Op>)
    requires
        wf(m),
    ensures
        wf(run_ops(m, ops)),
    decreases ops.len(),
{
    if ops.len() > 0 {
        lemma_step_preserves_wf(m, ops[0]);
        lemma_run_preserves_wf(apply_op(m, ops[0]).m, ops.drop_first());
    }
}

/// A press observed while a recording is already in progress is a no-op:
/// no state change, no notification, no second recording started.
pub proof fn lemma_press_while_recording_is_noop(m: Model)
    requires
        wf(m),
        m.status == ServiceStatus::Recording || m.status == ServiceStatus::Transcribing,
    ensures
        press_step(m).m == m,
        press_step(m).notes == Seq::<Note>::empty(),
        press_step(m).action == Act::Idle,
{
    assert(press_step(m).notes =~= Seq::<Note>::empty());
}

/// A release observed while not recording (Ready or Transcribing) is a
/// no-op.
pub proof fn lemma_release_when_not_recording_is_noop(m: Model)
    requires
        wf(m),
        m.status == ServiceStatus::Ready || m.status == ServiceStatus::Transcribing,
    ensures
        release_step(m).m == m,
        release_step(m).notes == Seq::<Note>::empty(),
        release_step(m).action == Act::Idle,
{
    assert(release_step(m).notes =~= Seq::<Note>::empty());
}

/// Requesting shutdown twice has the same effect as once: the second
/// observation changes nothing and says nothing.
pub proof fn lemma_shutdown_idempotent(m: Model)
    requires
        wf(m),
    ensures
        shutdown_step(shutdown_step(m).m).m == shutdown_step(m).m,
        shutdown_step(shutdown_step(m).m).notes == Seq::<Note>::empty(),
        shutdown_step(shutdown_step(m).m).action == Act::Idle,
{
    assert(shutdown_step(shutdown_step(m).m).notes =~= Seq::<Note>::empty());
}

} // verus!
