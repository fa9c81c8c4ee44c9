use vstd::prelude::*;

use crate::enums::ObsFlipType;

verus! {

/// Settings of one audio device taking part in a recording.
#[derive(Debug, Clone)]
pub struct AudioDeviceSettings {
    pub device_id: Option<String>,
    pub volume: Option<i32>,
    pub mono: Option<bool>,
    pub use_device_timing: Option<bool>,
    pub name: Option<String>,
    pub device_type: Option<i32>,
    pub enable: Option<bool>,
    pub tracks: Option<u32>,
}

/// Audio capture of one named process.
#[derive(Debug, Clone)]
pub struct AudioProcessCaptureSettings {
    pub process_name: String,
    pub enable: Option<bool>,
    pub mono: Option<bool>,
    pub volume: Option<i32>,
    pub tracks: Option<u32>,
}

/// Additional audio options.
#[derive(Debug, Clone)]
pub struct AudioExtraOptions {
    pub separate_tracks: Option<bool>,
    pub audio_capture_process: Option<String>,
    pub audio_capture_process2: Option<Vec<AudioProcessCaptureSettings>>,
    pub sample_rate: Option<u32>,
    pub tracks: Option<u32>,
    pub audio_sources: Option<Vec<AudioDeviceSettings>>,
}

/// Audio settings of a recording.
#[derive(Debug, Clone)]
pub struct AudioSettings {
    pub output_device: Option<AudioDeviceSettings>,
    pub input_device: Option<AudioDeviceSettings>,
    pub extra_options: Option<AudioExtraOptions>,
    pub sample_rate: Option<u32>,
    pub mono: Option<bool>,
}

/// Settings of the file an output writes to.
#[derive(Debug, Clone)]
pub struct FileOutputSettings {
    pub filename: Option<String>,
    pub max_file_size_bytes: Option<i64>,
    pub max_time_sec: Option<i64>,
    pub enable_on_demand_split_video: Option<bool>,
    pub include_full_video: Option<bool>,
}

/// Settings of a monitor capture source.
#[derive(Debug, Clone)]
pub struct MonitorSourceSettings {
    pub enable: Option<bool>,
    pub force: Option<bool>,
    pub monitor_handle: Option<i64>,
    pub cursor: Option<bool>,
}

/// Settings of a window capture source.
#[derive(Debug, Clone)]
pub struct WindowCaptureSourceSettings {
    pub enable: Option<bool>,
    pub window_handle: Option<i64>,
    pub cursor: Option<bool>,
}

/// Settings of a game capture source.
#[derive(Debug, Clone)]
pub struct GameSourceSettings {
    pub process_id: Option<i32>,
    pub foreground: Option<bool>,
    pub allow_transparency: Option<bool>,
    pub flip_type: Option<ObsFlipType>,
}

/// Settings of the be-right-back placeholder source.
#[derive(Debug, Clone)]
pub struct BrbSourceSettings {
    pub path: Option<String>,
    pub color: Option<i32>,
}

/// Settings of the gaze overlay source.
#[derive(Debug, Clone)]
pub struct TobiiSourceSettings {
    pub window: Option<String>,
    pub visible: Option<bool>,
}

/// Settings of the replay buffer.
#[derive(Debug, Clone)]
pub struct ReplaySettings {
    pub max_time_sec: Option<i64>,
}

/// Settings of a streaming output.
#[derive(Debug, Clone)]
pub struct StreamingSettings {
    pub service_type: Option<String>,
    pub server_url: Option<String>,
    pub stream_key: Option<String>,
    pub use_auth: Option<bool>,
    pub username: Option<String>,
    pub password: Option<String>,
}

} // verus!
