use vstd::prelude::*;

use crate::encoder::RateControlMode;

verus! {

/// View-level equality of two optional strings: both absent, or both
/// present with the same characters.
pub open spec fn opt_string_like(a: Option<String>, b: Option<String>) -> bool {
    match (a, b) {
        (Option::None, Option::None) => true,
        (Option::Some(x), Option::Some(y)) => x@ == y@,
        _ => false,
    }
}

/// Configuration for a video recording session.
///
/// Built with [`RecordingConfig::new`] and refined with the `with_*`
/// builders; each builder changes exactly one field.
#[derive(Debug)]
pub struct RecordingConfig {
    /// Path of the output file.
    pub output_file: String,
    /// Video encoder id, as reported by a machine-info query.
    pub encoder_id: String,
    /// Frame rate.
    pub fps: u32,
    /// Output width and height, in pixels.
    pub output_resolution: (u32, u32),
    /// Whether to record the cursor.
    pub show_cursor: bool,
    /// Audio sample rate.
    pub sample_rate: u32,
    /// Video bitrate, in bits per second.
    pub bitrate: u32,
    /// Length of the replay buffer, in seconds, if one is kept.
    pub replay_buffer_seconds: Option<u32>,
    /// Whether to capture a microphone.
    pub capture_microphone: bool,
    /// The microphone device id, if not the default one.
    pub microphone_device: Option<String>,
    /// If set, capture audio only from these process names.
    pub window_audio_only: Option<String>,
    /// Encoder preset name, if not the encoder's default.
    pub encoder_preset: Option<String>,
    /// System audio volume, in percent.
    pub system_audio_volume: u32,
    /// Microphone volume, in percent.
    pub microphone_volume: u32,
    /// Rate control mode.
    pub rate_control_mode: RateControlMode,
    /// Constant-rate-factor value for quality-based rate control.
    pub crf_value: u32,
    /// Constant-quantizer value for quality-based rate control.
    pub cqp_value: u32,
    /// Target bitrate, in bits per second.
    pub target_bitrate: u32,
    /// Maximum bitrate, in bits per second.
    pub max_bitrate: u32,
    /// Whether rate control preanalysis is enabled.
    pub rate_control_preanalysis_enabled: bool,
}

impl Clone for RecordingConfig {
    /// A field-for-field copy; every string field keeps its characters.
    fn clone(&self) -> (r: Self)
        ensures
            r.output_file@ == self.output_file@,
            r.encoder_id@ == self.encoder_id@,
            r.fps == self.fps,
            r.output_resolution == self.output_resolution,
            r.show_cursor == self.show_cursor,
            r.sample_rate == self.sample_rate,
            r.bitrate == self.bitrate,
            r.replay_buffer_seconds == self.replay_buffer_seconds,
            r.capture_microphone == self.capture_microphone,
            opt_string_like(r.microphone_device, self.microphone_device),
            opt_string_like(r.window_audio_only, self.window_audio_only),
            opt_string_like(r.encoder_preset, self.encoder_preset),
            r.system_audio_volume == self.system_audio_volume,
            r.microphone_volume == self.microphone_volume,
            r.rate_control_mode == self.rate_control_mode,
            r.crf_value == self.crf_value,
            r.cqp_value == self.cqp_value,
            r.target_bitrate == self.target_bitrate,
            r.max_bitrate == self.max_bitrate,
            r.rate_control_preanalysis_enabled == self.rate_control_preanalysis_enabled,
    {
        RecordingConfig {
            output_file: self.output_file.clone(),
            encoder_id: self.encoder_id.clone(),
            fps: self.fps,
            output_resolution: self.output_resolution,
            show_cursor: self.show_cursor,
            sample_rate: self.sample_rate,
            bitrate: self.bitrate,
            replay_buffer_seconds: self.replay_buffer_seconds,
            capture_microphone: self.capture_microphone,
            microphone_device: clone_opt_string(&self.microphone_device),
            window_audio_only: clone_opt_string(&self.window_audio_only),
            encoder_preset: clone_opt_string(&self.encoder_preset),
            system_audio_volume: self.system_audio_volume,
            microphone_volume: self.microphone_volume,
            rate_control_mode: self.rate_control_mode,
            crf_value: self.crf_value,
            cqp_value: self.cqp_value,
            target_bitrate: self.target_bitrate,
            max_bitrate: self.max_bitrate,
            rate_control_preanalysis_enabled: self.rate_control_preanalysis_enabled,
        }
    }
}

/// Copies an optional string, keeping its characters.
fn clone_opt_string(o: &Option<String>) -> (r: Option<String>)
    ensures
        opt_string_like(r, *o),
{
    match o {
        Option::None => Option::None,
        Option::Some(s) => Option::Some(s.clone()),
    }
}

impl RecordingConfig {
    /// A configuration for `output_file` with every other field at its
    /// default.
    pub fn new(output_file: String) -> (r: Self)
        ensures
            r.output_file == output_file,
            r.encoder_id@ == "h264_texture_amf"@,
            r.fps == 30u32,
            r.output_resolution == (1920u32, 1080u32),
            r.show_cursor == true,
            r.sample_rate == 48000u32,
            r.bitrate == 5000000u32,
            r.replay_buffer_seconds is None,
            r.capture_microphone == false,
            r.microphone_device is None,
            r.window_audio_only is None,
            r.encoder_preset is None,
            r.system_audio_volume == 100u32,
            r.microphone_volume == 100u32,
            r.rate_control_mode == RateControlMode::Cbr,
            r.crf_value == 23u32,
            r.cqp_value == 23u32,
            r.target_bitrate == 5000000u32,
            r.max_bitrate == 10000000u32,
            r.rate_control_preanalysis_enabled == false,
    {
        RecordingConfig {
            output_file,
            encoder_id: String::from_str("h264_texture_amf"),
            fps: 30,
            output_resolution: (1920, 1080),
            show_cursor: true,
            sample_rate: 48000,
            bitrate: 5000000,
            replay_buffer_seconds: None,
            capture_microphone: false,
            microphone_device: None,
            window_audio_only: None,
            encoder_preset: None,
            system_audio_volume: 100,
            microphone_volume: 100,
            rate_control_mode: RateControlMode::Cbr,
            crf_value: 23,
            cqp_value: 23,
            target_bitrate: 5000000,
            max_bitrate: 10000000,
            rate_control_preanalysis_enabled: false,
        }
    }

    /// Sets the video encoder id.
    pub fn with_encoder(self, id: String) -> (r: Self)
        ensures
            r == (RecordingConfig { encoder_id: id, ..self }),
    {
        RecordingConfig { encoder_id: id, ..self }
    }

    /// Sets the frame rate.
    pub fn with_fps(self, fps: u32) -> (r: Self)
        ensures
            r == (RecordingConfig { fps, ..self }),
    {
        RecordingConfig { fps, ..self }
    }

    /// Sets the output resolution.
    pub fn with_output_resolution(self, width: u32, height: u32) -> (r: Self)
        ensures
            r == (RecordingConfig { output_resolution: (width, height), ..self }),
    {
        RecordingConfig { output_resolution: (width, height), ..self }
    }

    /// Sets whether to record the cursor.
    pub fn with_cursor(self, show: bool) -> (r: Self)
        ensures
            r == (RecordingConfig { show_cursor: show, ..self }),
    {
        RecordingConfig { show_cursor: show, ..self }
    }

    /// Sets the audio sample rate.
    pub fn with_sample_rate(self, rate: u32) -> (r: Self)
        ensures
            r == (RecordingConfig { sample_rate: rate, ..self }),
    {
        RecordingConfig { sample_rate: rate, ..self }
    }

    /// Sets the video bitrate.
    pub fn with_bitrate(self, bitrate: u32) -> (r: Self)
        ensures
            r == (RecordingConfig { bitrate, ..self }),
    {
        RecordingConfig { bitrate, ..self }
    }

    /// Sets the replay buffer length, or removes the buffer.
    pub fn with_replay_buffer(self, replay_buffer_seconds: Option<u32>) -> (r: Self)
        ensures
            r == (RecordingConfig { replay_buffer_seconds, ..self }),
    {
        RecordingConfig { replay_buffer_seconds, ..self }
    }

    /// Sets whether to capture a microphone.
    pub fn with_capture_microphone(self, capture_microphone: bool) -> (r: Self)
        ensures
            r == (RecordingConfig { capture_microphone, ..self }),
    {
        RecordingConfig { capture_microphone, ..self }
    }

    /// Sets the microphone device.
    pub fn with_microphone_device(self, microphone_device: Option<String>) -> (r: Self)
        ensures
            r == (RecordingConfig { microphone_device, ..self }),
    {
        RecordingConfig { microphone_device, ..self }
    }

    /// Restricts audio capture to the given process names.
    pub fn with_window_audio_only(self, window_audio_only: Option<String>) -> (r: Self)
        ensures
            r == (RecordingConfig { window_audio_only, ..self }),
    {
        RecordingConfig { window_audio_only, ..self }
    }

    /// Sets the encoder preset.
    pub fn with_encoder_preset(self, encoder_preset: Option<String>) -> (r: Self)
        ensures
            r == (RecordingConfig { encoder_preset, ..self }),
    {
        RecordingConfig { encoder_preset, ..self }
    }

    /// Sets the system audio volume percentage.
    pub fn with_system_audio_volume(self, volume: u32) -> (r: Self)
        ensures
            r == (RecordingConfig { system_audio_volume: volume, ..self }),
    {
        RecordingConfig { system_audio_volume: volume, ..self }
    }

    /// Sets the microphone volume percentage.
    pub fn with_microphone_volume(self, volume: u32) -> (r: Self)
        ensures
            r == (RecordingConfig { microphone_volume: volume, ..self }),
    {
        RecordingConfig { microphone_volume: volume, ..self }
    }

    /// Sets the rate control mode.
    pub fn with_rate_control_mode(self, mode: RateControlMode) -> (r: Self)
        ensures
            r == (RecordingConfig { rate_control_mode: mode, ..self }),
    {
        RecordingConfig { rate_control_mode: mode, ..self }
    }

    /// Sets the constant-rate-factor value.
    pub fn with_crf_value(self, value: u32) -> (r: Self)
        ensures
            r == (RecordingConfig { crf_value: value, ..self }),
    {
        RecordingConfig { crf_value: value, ..self }
    }

    /// Sets the constant-quantizer value.
    pub fn with_cqp_value(self, value: u32) -> (r: Self)
        ensures
            r == (RecordingConfig { cqp_value: value, ..self }),
    {
        RecordingConfig { cqp_value: value, ..self }
    }

    /// Sets the target bitrate.
    pub fn with_target_bitrate(self, bitrate: u32) -> (r: Self)
        ensures
            r == (RecordingConfig { target_bitrate: bitrate, ..self }),
    {
        RecordingConfig { target_bitrate: bitrate, ..self }
    }

    /// Sets the maximum bitrate.
    pub fn with_max_bitrate(self, bitrate: u32) -> (r: Self)
        ensures
            r == (RecordingConfig { max_bitrate: bitrate, ..self }),
    {
        RecordingConfig { max_bitrate: bitrate, ..self }
    }

    /// Enables or disables rate control preanalysis.
    pub fn with_rate_control_preanalysis(self, enabled: bool) -> (r: Self)
        ensures
            r == (RecordingConfig { rate_control_preanalysis_enabled: enabled, ..self }),
    {
        RecordingConfig { rate_control_preanalysis_enabled: enabled, ..self }
    }
}

} // verus!
