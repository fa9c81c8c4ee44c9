use obs_comm::codes::{EVT_ERR, EVT_READY, EVT_RECORDING_STARTED, EVT_RECORDING_STOPPED,
    EVT_REPLAY_CAPTURE_VIDEO_STARTED};
use obs_comm::errors::ObsError;
use obs_comm::events::EventNotification;
use obs_comm::recorder::{classify_replay_save_response, classify_start_response,
    classify_stop_response, generate_identifier, stop_outcome_no_recording, IdGenerator,
    RecorderState, ReplayStartDecision};
use obs_comm::wait::{check_received, compute_deadline, decode_outcome, slot_failure, slot_wait_ms};

fn note(event: i32, identifier: Option<i32>, raw: &[u8]) -> EventNotification {
    EventNotification { event, identifier, raw: raw.to_vec() }
}

#[test]
fn identifiers_advance_one_by_one_and_wrap() {
    let mut g = IdGenerator::new();
    assert_eq!(generate_identifier(&mut g), 1);
    assert_eq!(generate_identifier(&mut g), 2);
    assert_eq!(generate_identifier(&mut g), 3);
    let mut at_end = IdGenerator { next: i32::MAX };
    assert_eq!(generate_identifier(&mut at_end), i32::MAX);
    assert_eq!(at_end.next, i32::MIN);
}

#[test]
fn second_recording_is_refused_while_one_is_active() {
    let mut s = RecorderState::new();
    assert!(s.check_can_start_recording().is_ok());
    s.note_recording_started(5);
    assert!(matches!(s.check_can_start_recording(), Err(ObsError::AlreadyRecording)));
}

#[test]
fn replay_start_decision_follows_state_and_configuration() {
    let mut s = RecorderState::new();
    assert_eq!(s.replay_start_decision(false), ReplayStartDecision::NotConfigured);
    assert_eq!(s.replay_start_decision(true), ReplayStartDecision::StartNew);
    s.note_replay_started(8);
    assert_eq!(s.replay_start_decision(true), ReplayStartDecision::AlreadyActive(8));
}

#[test]
fn saving_claims_the_replay_buffer_once() {
    let mut s = RecorderState::new();
    assert!(matches!(s.take_replay_for_save(), Err(ObsError::NotRecording)));
    s.note_replay_started(8);
    assert_eq!(s.take_replay_for_save().unwrap(), 8);
    assert!(matches!(s.take_replay_for_save(), Err(ObsError::NotRecording)));
}

#[test]
fn stopping_clears_both_sessions() {
    let mut s = RecorderState::new();
    s.note_recording_started(5);
    s.note_replay_started(8);
    assert_eq!(s.begin_stop(), (Some(8), Some(5)));
    assert_eq!(s.begin_stop(), (None, None));
    assert!(matches!(stop_outcome_no_recording(None), Err(ObsError::NotRecording)));
    assert!(matches!(
        stop_outcome_no_recording(Some(ObsError::PipeError(String::from("gone")))),
        Err(ObsError::PipeError(_))
    ));
}

#[test]
fn start_response_fails_only_on_the_error_event() {
    let ok = classify_start_response(&note(EVT_RECORDING_STARTED, Some(1), b"{}"));
    assert_eq!(ok.unwrap(), Some(()));
    let err = classify_start_response(&note(EVT_ERR, Some(1), b"{\"event\":2,\"code\":-2}"));
    assert!(matches!(err, Err(ObsError::ProcessStart(_))));
}

#[test]
fn stop_response_accepts_stopped_and_error_events() {
    assert_eq!(classify_stop_response(&note(EVT_RECORDING_STOPPED, Some(1), b"{}")).unwrap(), Some(()));
    assert_eq!(classify_stop_response(&note(EVT_ERR, Some(1), b"{}")).unwrap(), Some(()));
    assert_eq!(classify_stop_response(&note(EVT_READY, Some(1), b"{}")).unwrap(), None);
}

#[test]
fn replay_save_response_distinguishes_error_payloads() {
    let started = classify_replay_save_response(&note(EVT_REPLAY_CAPTURE_VIDEO_STARTED, Some(1), b"{}"));
    assert_eq!(started.unwrap(), Some(()));
    let with_code = classify_replay_save_response(&note(
        EVT_ERR,
        Some(1),
        b"{\"event\":2,\"identifier\":1,\"code\":-3}",
    ));
    assert!(matches!(with_code, Err(ObsError::EventManagerError(_))));
    let without_code = classify_replay_save_response(&note(EVT_ERR, Some(1), b"{\"event\":2}"));
    assert!(matches!(without_code, Err(ObsError::Deserialization(_))));
    let other = classify_replay_save_response(&note(EVT_READY, Some(1), b"{}"));
    assert_eq!(other.unwrap(), None);
}

#[test]
fn deadlines_saturate_instead_of_overflowing() {
    assert_eq!(compute_deadline(1000, 500), 1500);
    assert_eq!(compute_deadline(u64::MAX - 10, 500), u64::MAX);
    assert_eq!(slot_wait_ms(300), 500);
    assert_eq!(slot_wait_ms(u64::MAX), u64::MAX);
}

#[test]
fn received_event_must_carry_the_awaited_identifier() {
    let n = note(4, Some(7), b"{}");
    let ok = check_received(Ok(n), 7);
    assert_eq!(ok.unwrap().identifier, Some(7));
    let wrong = check_received(Ok(note(4, Some(8), b"{}")), 7);
    assert!(matches!(wrong, Err(ObsError::EventManagerError(_))));
    let missing = check_received(Ok(note(4, None, b"{}")), 7);
    assert!(matches!(missing, Err(ObsError::EventManagerError(_))));
    let passed = check_received(Err(ObsError::Timeout(String::from("late"))), 7);
    assert!(matches!(passed, Err(ObsError::Timeout(_))));
}

#[test]
fn decoder_verdict_maps_to_the_wait_outcome() {
    assert_eq!(decode_outcome::<u32>(Ok(Some(5))).unwrap(), 5);
    assert!(matches!(decode_outcome::<u32>(Ok(None)), Err(ObsError::EventManagerError(_))));
    assert!(matches!(
        decode_outcome::<u32>(Err(ObsError::InvalidPath)),
        Err(ObsError::Deserialization(_))
    ));
}

#[test]
fn empty_reply_slot_maps_to_timeout_or_disconnect() {
    assert!(matches!(slot_failure(true), ObsError::Timeout(_)));
    assert!(matches!(slot_failure(false), ObsError::EventManagerError(_)));
}
