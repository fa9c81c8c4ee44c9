use obs_comm::config::RecordingConfig;
use obs_comm::encoder::RateControlMode;

#[test]
fn test_all_options() {
    let options = RateControlMode::all();
    assert_eq!(options.len(), 4);
    assert_eq!(options[0].label, "Default (Constant Bitrate)");
    assert_eq!(options[0].value, RateControlMode::Cbr);
    assert_eq!(options[1].label, "Variable Bitrate (VBR)");
    assert_eq!(options[1].value, RateControlMode::Vbr);
}

#[test]
fn as_str_spells_each_mode_lowercase() {
    assert_eq!(RateControlMode::Cbr.as_str(), "cbr");
    assert_eq!(RateControlMode::Vbr.as_str(), "vbr");
    assert_eq!(RateControlMode::Crf.as_str(), "crf");
    assert_eq!(RateControlMode::Cqp.as_str(), "cqp");
}

#[test]
fn new_config_has_documented_defaults() {
    let c = RecordingConfig::new(String::from("out.mp4"));
    assert_eq!(c.output_file, "out.mp4");
    assert_eq!(c.encoder_id, "h264_texture_amf");
    assert_eq!(c.fps, 30);
    assert_eq!(c.output_resolution, (1920, 1080));
    assert!(c.show_cursor);
    assert_eq!(c.sample_rate, 48000);
    assert_eq!(c.bitrate, 5000000);
    assert!(c.replay_buffer_seconds.is_none());
    assert!(!c.capture_microphone);
    assert!(c.microphone_device.is_none());
    assert!(c.window_audio_only.is_none());
    assert!(c.encoder_preset.is_none());
    assert_eq!(c.system_audio_volume, 100);
    assert_eq!(c.microphone_volume, 100);
    assert_eq!(c.rate_control_mode, RateControlMode::Cbr);
    assert_eq!(c.crf_value, 23);
    assert_eq!(c.cqp_value, 23);
    assert_eq!(c.target_bitrate, 5000000);
    assert_eq!(c.max_bitrate, 10000000);
    assert!(!c.rate_control_preanalysis_enabled);
}

#[test]
fn builders_change_exactly_their_field() {
    let c = RecordingConfig::new(String::from("a.mp4"))
        .with_encoder(String::from("obs_x264"))
        .with_fps(60)
        .with_output_resolution(1280, 720)
        .with_cursor(false)
        .with_sample_rate(44100)
        .with_bitrate(8000000)
        .with_replay_buffer(Some(30))
        .with_capture_microphone(true)
        .with_microphone_device(Some(String::from("mic-1")))
        .with_window_audio_only(Some(String::from("game.exe")))
        .with_encoder_preset(Some(String::from("ultrafast")))
        .with_system_audio_volume(80)
        .with_microphone_volume(60)
        .with_rate_control_mode(RateControlMode::Crf)
        .with_crf_value(18)
        .with_cqp_value(20)
        .with_target_bitrate(6000000)
        .with_max_bitrate(12000000)
        .with_rate_control_preanalysis(true);
    assert_eq!(c.output_file, "a.mp4");
    assert_eq!(c.encoder_id, "obs_x264");
    assert_eq!(c.fps, 60);
    assert_eq!(c.output_resolution, (1280, 720));
    assert!(!c.show_cursor);
    assert_eq!(c.sample_rate, 44100);
    assert_eq!(c.bitrate, 8000000);
    assert_eq!(c.replay_buffer_seconds, Some(30));
    assert!(c.capture_microphone);
    assert_eq!(c.microphone_device.as_deref(), Some("mic-1"));
    assert_eq!(c.window_audio_only.as_deref(), Some("game.exe"));
    assert_eq!(c.encoder_preset.as_deref(), Some("ultrafast"));
    assert_eq!(c.system_audio_volume, 80);
    assert_eq!(c.microphone_volume, 60);
    assert_eq!(c.rate_control_mode, RateControlMode::Crf);
    assert_eq!(c.crf_value, 18);
    assert_eq!(c.cqp_value, 20);
    assert_eq!(c.target_bitrate, 6000000);
    assert_eq!(c.max_bitrate, 12000000);
    assert!(c.rate_control_preanalysis_enabled);
}

#[test]
fn config_clone_keeps_every_field() {
    let c = RecordingConfig::new(String::from("b.mp4"))
        .with_microphone_device(Some(String::from("mic-2")))
        .with_fps(120);
    let d = c.clone();
    assert_eq!(d.output_file, c.output_file);
    assert_eq!(d.encoder_id, c.encoder_id);
    assert_eq!(d.fps, 120);
    assert_eq!(d.microphone_device.as_deref(), Some("mic-2"));
}
