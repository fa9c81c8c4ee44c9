use vstd::prelude::*;

verus! {

/// One decoded unit of the inbound stream: the event-type code, the
/// optional correlation id, and the raw bytes of the JSON object the unit
/// was parsed from, kept for payload decoding downstream.
#[derive(Debug)]
pub struct EventNotification {
    /// The event-type code (the `event` member).
    pub event: i32,
    /// The correlation id (the `identifier` member), when present.
    pub identifier: Option<i32>,
    /// The raw bytes of the whole notification object.
    pub raw: Vec<u8>,
}

/// The mathematical content of a notification.
pub ghost struct NotificationView {
    pub event: i32,
    pub identifier: Option<i32>,
    pub raw: Seq<u8>,
}

impl View for EventNotification {
    type V = NotificationView;

    open spec fn view(&self) -> NotificationView {
        NotificationView { event: self.event, identifier: self.identifier, raw: self.raw@ }
    }
}

impl EventNotification {
    /// An equal notification: same event, same identifier, same raw bytes.
    pub fn duplicate(&self) -> (r: Self)
        ensures
            r@ == self@,
    {
        let mut raw: Vec<u8> = Vec::new();
        raw.extend_from_slice(self.raw.as_slice());
        let r = EventNotification { event: self.event, identifier: self.identifier, raw };
        assert(r@.raw =~= self@.raw);
        r
    }
}

/// One entry of an audio device listing: a display name and the device
/// id it stands for.
#[derive(Debug, Clone)]
pub struct AudioDeviceEntry {
    pub name: String,
    pub id: String,
}

/// One audio device, as reported by a machine-info query: a mapping from
/// display name to device id.
#[derive(Debug, Clone)]
pub enum AudioDevice {
    Devices(Vec<AudioDeviceEntry>),
}

/// One video encoder, as reported by a machine-info query.
#[derive(Debug, Clone)]
pub struct VideoEncoderInfo {
    pub encoder_type: String,
    pub description: String,
    pub valid: bool,
    pub status: Option<String>,
    pub code: Option<String>,
}

/// Payload of a machine-info event.
#[derive(Debug, Clone)]
pub struct QueryMachineInfoEventPayload {
    pub audio_input_devices: Vec<AudioDevice>,
    pub audio_output_devices: Vec<AudioDevice>,
    pub video_encoders: Vec<VideoEncoderInfo>,
    pub winrt_capture_supported: bool,
}

/// Payload of a recording-started event.
#[derive(Debug, Clone)]
pub struct RecordingStartedEventPayload {
    pub source: String,
    pub is_window_capture: Option<bool>,
}

/// Payload of a display-source-changed event.
#[derive(Debug, Clone)]
pub struct DisplaySourceChangedEventPayload {
    pub source: String,
}

/// Payload of a video-file-split event.
#[derive(Debug, Clone)]
pub struct VideoFileSplitEventPayload {
    pub duration: i64,
    pub split_file_duration: i64,
    pub frame_pts: i64,
    pub split_count: i32,
    pub path: String,
    pub next_video_path: String,
    pub output_width: Option<u32>,
    pub output_height: Option<u32>,
}

/// Payload of a replay-started event.
#[derive(Debug, Clone)]
pub struct ReplayStartedEventPayload {
    pub source: String,
    pub is_window_capture: Option<bool>,
}

/// Payload of a replay-capture-video-ready event.
#[derive(Debug, Clone)]
pub struct ReplayCaptureVideoReadyEventPayload {
    pub duration: i64,
    pub video_start_time: i64,
    pub path: String,
    pub thumbnail_folder: String,
    pub output_width: Option<u32>,
    pub output_height: Option<u32>,
    pub disconnection: bool,
}

/// Payload of a replay-error event.
#[derive(Debug, Clone)]
pub struct ReplayErrorEventPayload {
    pub code: i32,
    pub desc: Option<String>,
    pub path: Option<String>,
}

/// Payload of a streaming-started event.
#[derive(Debug, Clone)]
pub struct StreamingStartedEventPayload {
    pub source: String,
}

} // verus!
