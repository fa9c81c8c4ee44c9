use vstd::prelude::*;

use crate::codes::{EVT_ERR, EVT_RECORDING_STOPPED, EVT_REPLAY_CAPTURE_VIDEO_STARTED};
use crate::errors::ObsError;
use crate::events::EventNotification;

verus! {

/// A monotonically advancing source of correlation ids, owned by the
/// session that draws from it.
#[derive(Debug)]
pub struct IdGenerator {
    pub next: i32,
}

impl IdGenerator {
    /// A generator whose first id is 1.
    pub fn new() -> (r: IdGenerator)
        ensures
            r.next == 1,
    {
        IdGenerator { next: 1 }
    }
}

/// Draws the next correlation id, advancing the counter; the counter
/// wraps at the integer's end.
pub fn generate_identifier(g: &mut IdGenerator) -> (r: i32)
    ensures
        r == old(g).next,
        final(g).next == (if old(g).next == i32::MAX {
            i32::MIN
        } else {
            (old(g).next + 1) as i32
        }),
{
    let r = g.next;
    g.next = if g.next == i32::MAX {
        i32::MIN
    } else {
        g.next + 1
    };
    r
}

/// What starting the replay buffer amounts to in the current state.
#[derive(Debug, Clone, Copy, PartialEq, Eq, Structural)]
pub enum ReplayStartDecision {
    /// A buffer is already running under this id; nothing to send.
    AlreadyActive(i32),
    /// No replay buffer length is configured; starting is an internal
    /// error.
    NotConfigured,
    /// Send a start command for a new buffer.
    StartNew,
}

/// The session state of a recorder: which recording and which replay
/// buffer are active. The start/save/stop decisions are made here; the
/// host performs the sends they call for.
#[derive(Debug)]
pub struct RecorderState {
    pub active_recording_id: Option<i32>,
    pub active_replay_buffer_id: Option<i32>,
}

impl RecorderState {
    /// A session with nothing active.
    pub fn new() -> (r: RecorderState)
        ensures
            r.active_recording_id is None,
            r.active_replay_buffer_id is None,
    {
        RecorderState { active_recording_id: None, active_replay_buffer_id: None }
    }

    /// Whether a new recording may start: exactly one recording session
    /// is allowed at a time.
    pub fn check_can_start_recording(&self) -> (r: Result<(), ObsError>)
        ensures
            (self.active_recording_id is Some ==> (r matches Err(e) && (
            e matches ObsError::AlreadyRecording))),
            self.active_recording_id is None ==> r is Ok,
    {
        if self.active_recording_id.is_some() {
            Err(ObsError::AlreadyRecording)
        } else {
            Ok(())
        }
    }

    /// Records that the recording under `id` has started.
    pub fn note_recording_started(&mut self, id: i32)
        ensures
            final(self).active_recording_id == Some(id),
            final(self).active_replay_buffer_id == old(self).active_replay_buffer_id,
    {
        self.active_recording_id = Some(id);
    }

    /// What starting the replay buffer amounts to: already running means
    /// its id is returned and nothing is sent; an unconfigured buffer is
    /// an internal error; otherwise a new start is due.
    pub fn replay_start_decision(&self, configured: bool) -> (r: ReplayStartDecision)
        ensures
            (self.active_replay_buffer_id matches Some(id) ==> r
                == ReplayStartDecision::AlreadyActive(id)),
            self.active_replay_buffer_id is None && !configured ==> r
                == ReplayStartDecision::NotConfigured,
            self.active_replay_buffer_id is None && configured ==> r
                == ReplayStartDecision::StartNew,
    {
        match self.active_replay_buffer_id {
            Some(id) => ReplayStartDecision::AlreadyActive(id),
            None => {
                if !configured {
                    ReplayStartDecision::NotConfigured
                } else {
                    ReplayStartDecision::StartNew
                }
            },
        }
    }

    /// Records that the replay buffer under `id` has started.
    pub fn note_replay_started(&mut self, id: i32)
        ensures
            final(self).active_replay_buffer_id == Some(id),
            final(self).active_recording_id == old(self).active_recording_id,
    {
        self.active_replay_buffer_id = Some(id);
    }

    /// Claims the active replay buffer for a save: its id comes back and
    /// the buffer slot is cleared, since saving stops the buffer. With no
    /// buffer active the save fails with `NotRecording`.
    pub fn take_replay_for_save(&mut self) -> (r: Result<i32, ObsError>)
        ensures
            final(self).active_recording_id == old(self).active_recording_id,
            (old(self).active_replay_buffer_id matches Some(id) ==> {
                &&& r matches Ok(i) && i == id
                &&& final(self).active_replay_buffer_id is None
            }),
            (old(self).active_replay_buffer_id is None ==> {
                &&& r matches Err(e) && (e matches ObsError::NotRecording)
                &&& final(self).active_replay_buffer_id is None
            }),
    {
        match self.active_replay_buffer_id {
            Some(id) => {
                self.active_replay_buffer_id = None;
                Ok(id)
            },
            None => Err(ObsError::NotRecording),
        }
    }

    /// Begins a stop: both active ids come back — replay buffer first,
    /// recording second — and both slots are cleared, whatever the sends
    /// that follow do.
    pub fn begin_stop(&mut self) -> (r: (Option<i32>, Option<i32>))
        ensures
            r.0 == old(self).active_replay_buffer_id,
            r.1 == old(self).active_recording_id,
            final(self).active_recording_id is None,
            final(self).active_replay_buffer_id is None,
    {
        let replay = self.active_replay_buffer_id;
        let recording = self.active_recording_id;
        self.active_replay_buffer_id = None;
        self.active_recording_id = None;
        (replay, recording)
    }
}

/// The stop call's result when no recording was active: a replay-stop
/// failure that happened on the way is reported, and otherwise the stop
/// itself fails with `NotRecording`.
pub fn stop_outcome_no_recording(replay_error: Option<ObsError>) -> (r: Result<(), ObsError>)
    ensures
        (replay_error matches Some(e) ==> r matches Err(e2) && e2 == e),
        (replay_error is None ==> (r matches Err(e) && (e matches ObsError::NotRecording))),
{
    match replay_error {
        Some(e) => Err(e),
        None => Err(ObsError::NotRecording),
    }
}

/// The integer `code` member of the one JSON object in a byte sequence,
/// when that member is present and is an integer; a function of the
/// bytes alone.
pub uninterp spec fn error_code_of(bytes: Seq<u8>) -> Option<i64>;

/// Relies on serde_json::from_slice::<Value> and Value::get / Value::as_i64:
/// reads the `code` member of the one JSON object held in `bytes`.
#[verifier::external_body]
fn payload_error_code(raw: &[u8]) -> (r: Option<i64>)
    ensures
        r == error_code_of(raw@),
{
    let v: serde_json::Value = match serde_json::from_slice(raw) {
        Ok(v) => v,
        Err(_) => return None,
    };
    v.get("code").and_then(serde_json::Value::as_i64)
}

/// Decodes the response a start command waits for: an error event fails
/// the start with `ProcessStart`; any other resolved event means the
/// recorder started.
pub fn classify_start_response(note: &EventNotification) -> (r: Result<Option<()>, ObsError>)
    ensures
        (note.event == EVT_ERR ==> (r matches Err(e) && (e matches ObsError::ProcessStart(_)))),
        (note.event != EVT_ERR ==> (r matches Ok(o) && o == Some(()))),
{
    if note.event == EVT_ERR {
        Err(ObsError::ProcessStart(String::from_str("recording failed to start")))
    } else {
        Ok(Some(()))
    }
}

/// Decodes the response a stop command waits for: the stopped event and
/// the error event both end the wait; any other event is not the one
/// awaited.
pub fn classify_stop_response(note: &EventNotification) -> (r: Result<Option<()>, ObsError>)
    ensures
        (note.event == EVT_RECORDING_STOPPED || note.event == EVT_ERR ==> (r matches Ok(o) && o
            == Some(()))),
        (note.event != EVT_RECORDING_STOPPED && note.event != EVT_ERR ==> (r matches Ok(o) && o
            is None)),
{
    if note.event == EVT_RECORDING_STOPPED {
        Ok(Some(()))
    } else if note.event == EVT_ERR {
        Ok(Some(()))
    } else {
        Ok(None)
    }
}

/// Decodes the response a replay-buffer save waits for: the
/// capture-started event succeeds; an error event fails the save — as a
/// correlation error when its payload carries an error code, and as a
/// `Deserialization` failure when it does not; any other event is not
/// the one awaited.
pub fn classify_replay_save_response(note: &EventNotification) -> (r: Result<Option<()>, ObsError>)
    ensures
        (note.event == EVT_REPLAY_CAPTURE_VIDEO_STARTED ==> (r matches Ok(o) && o == Some(()))),
        (note.event == EVT_ERR ==> (match error_code_of(note.raw@) {
            Some(_) => (r matches Err(e) && (e matches ObsError::EventManagerError(_))),
            None => (r matches Err(e) && (e matches ObsError::Deserialization(_))),
        })),
        (note.event != EVT_REPLAY_CAPTURE_VIDEO_STARTED && note.event != EVT_ERR ==> (r matches Ok(
            o,
        ) && o is None)),
{
    if note.event == EVT_REPLAY_CAPTURE_VIDEO_STARTED {
        Ok(Some(()))
    } else if note.event == EVT_ERR {
        match payload_error_code(note.raw.as_slice()) {
            Some(_) => Err(ObsError::EventManagerError(String::from_str("replay capture error"))),
            None => Err(
                ObsError::Deserialization(String::from_str("failed to deserialize error payload")),
            ),
        }
    } else {
        Ok(None)
    }
}

} // verus!
