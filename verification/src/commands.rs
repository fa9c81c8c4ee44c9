use vstd::prelude::*;

use crate::enums::RecorderType;
use crate::settings::AudioSettings;

verus! {

/// A command together with the payload it carries; on the wire the
/// payload's members are flattened into the command object itself.
#[derive(Debug, Clone)]
pub struct CommandRequest<T> {
    pub cmd: i32,
    pub identifier: Option<i32>,
    pub payload: T,
}

/// A command that carries no payload of its own.
#[derive(Debug, Clone)]
pub struct SimpleCommandRequest {
    pub cmd: i32,
    pub identifier: Option<i32>,
}

/// Payload of a stop command.
#[derive(Debug, Clone)]
pub struct StopCommandPayload {
    pub recorder_type: RecorderType,
}

/// Payload of a set-volume command.
#[derive(Debug, Clone)]
pub struct SetVolumeCommandPayload {
    pub audio_settings: Option<AudioSettings>,
}

/// Payload of a game-focus-changed command.
#[derive(Debug, Clone)]
pub struct GameFocusChangedCommandPayload {
    pub game_foreground: bool,
    pub is_minimized: Option<bool>,
}

/// Payload of a start-replay-capture command: save the buffered replay
/// footage to a file.
#[derive(Debug, Clone)]
pub struct StartReplayCaptureCommandPayload {
    pub head_duration: i64,
    pub path: String,
    pub thumbnail_folder: Option<String>,
}

} // verus!
