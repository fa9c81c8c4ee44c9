use obs_comm::framer::{FrameEvent, Framer};

fn events_of(framer: &mut Framer, chunk: &[u8]) -> Vec<FrameEvent> {
    framer.push(chunk)
}

fn expect_note(e: &FrameEvent) -> (i32, Option<i32>) {
    match e {
        FrameEvent::Note(n) => (n.event, n.identifier),
        FrameEvent::Malformed => panic!("expected a notification, got a malformed span"),
    }
}

#[test]
fn split_across_reads_yields_one_notification() {
    let mut f = Framer::new();
    let first = events_of(&mut f, b"{\"event\":3,\"ident");
    assert!(first.is_empty());
    let second = events_of(&mut f, b"ifier\":1}");
    assert_eq!(second.len(), 1);
    assert_eq!(expect_note(&second[0]), (3, Some(1)));
    assert_eq!(f.leftover_len(), 0);

    let mut g = Framer::new();
    let whole = events_of(&mut g, b"{\"event\":3,\"identifier\":1}");
    assert_eq!(whole.len(), 1);
    assert_eq!(expect_note(&whole[0]), (3, Some(1)));
}

#[test]
fn two_objects_in_one_read_yield_two_in_order() {
    let mut f = Framer::new();
    let out = events_of(&mut f, b"{\"event\":1}{\"event\":2}");
    assert_eq!(out.len(), 2);
    assert_eq!(expect_note(&out[0]), (1, None));
    assert_eq!(expect_note(&out[1]), (2, None));
    assert_eq!(f.leftover_len(), 0);
}

#[test]
fn garbage_between_objects_yields_error_then_recovers() {
    let mut f = Framer::new();
    let out = events_of(&mut f, b"{\"event\":1}GARBAGE{\"event\":2}");
    assert_eq!(out.len(), 3);
    assert_eq!(expect_note(&out[0]), (1, None));
    assert!(matches!(out[1], FrameEvent::Malformed));
    assert_eq!(expect_note(&out[2]), (2, None));
    assert_eq!(f.leftover_len(), 0);
}

#[test]
fn leading_garbage_alone_yields_one_error_and_recovers() {
    let mut f = Framer::new();
    let out = events_of(&mut f, b"NOISE{\"event\":5,\"identifier\":2}");
    assert_eq!(out.len(), 2);
    assert!(matches!(out[0], FrameEvent::Malformed));
    assert_eq!(expect_note(&out[1]), (5, Some(2)));
}

#[test]
fn whitespace_between_objects_is_drained() {
    let mut f = Framer::new();
    let out = events_of(&mut f, b"  {\"event\":1}\n  {\"event\":2}\n ");
    assert_eq!(out.len(), 2);
    assert_eq!(f.leftover_len(), 0);
}

#[test]
fn incomplete_tail_is_kept_for_the_next_read() {
    let mut f = Framer::new();
    let out = events_of(&mut f, b"{\"event\":1}{\"eve");
    assert_eq!(out.len(), 1);
    assert!(f.leftover_len() > 0);
    let out2 = events_of(&mut f, b"nt\":2}");
    assert_eq!(out2.len(), 1);
    assert_eq!(expect_note(&out2[0]), (2, None));
    assert_eq!(f.leftover_len(), 0);
}

#[test]
fn object_without_event_member_is_malformed() {
    let mut f = Framer::new();
    let out = events_of(&mut f, b"{\"identifier\":1}");
    assert_eq!(out.len(), 1);
    assert!(matches!(out[0], FrameEvent::Malformed));
}

#[test]
fn non_integer_event_or_identifier_is_malformed() {
    let mut f = Framer::new();
    let out = events_of(&mut f, b"{\"event\":\"x\"}");
    assert_eq!(out.len(), 1);
    assert!(matches!(out[0], FrameEvent::Malformed));
    let out = events_of(&mut f, b"{\"event\":1,\"identifier\":\"y\"}");
    assert_eq!(out.len(), 1);
    assert!(matches!(out[0], FrameEvent::Malformed));
    let out = events_of(&mut f, b"{\"event\":1,\"identifier\":3000000000}");
    assert_eq!(out.len(), 1);
    assert!(matches!(out[0], FrameEvent::Malformed));
}

#[test]
fn raw_bytes_carry_the_whole_object_for_payload_decoding() {
    let mut f = Framer::new();
    let out = events_of(&mut f, b"{\"event\":6,\"identifier\":4,\"code\":0,\"duration\":1200}");
    assert_eq!(out.len(), 1);
    match &out[0] {
        FrameEvent::Note(n) => {
            assert_eq!(n.event, 6);
            assert_eq!(n.identifier, Some(4));
            let v: serde_json::Value = serde_json::from_slice(&n.raw).unwrap();
            assert_eq!(v.get("code").and_then(serde_json::Value::as_i64), Some(0));
            assert_eq!(v.get("duration").and_then(serde_json::Value::as_i64), Some(1200));
        },
        FrameEvent::Malformed => panic!("expected a notification"),
    }
}

#[test]
fn split_point_anywhere_gives_the_same_notifications() {
    let stream = b"{\"event\":4,\"identifier\":7,\"source\":\"game\"}{\"event\":2}";
    let mut one_pass = Framer::new();
    let expected: Vec<(i32, Option<i32>)> = one_pass
        .push(stream)
        .iter()
        .map(expect_note)
        .collect();
    assert_eq!(expected.len(), 2);
    for cut in 0..stream.len() {
        let mut f = Framer::new();
        let mut got: Vec<(i32, Option<i32>)> = Vec::new();
        for e in f.push(&stream[..cut]) {
            got.push(expect_note(&e));
        }
        for e in f.push(&stream[cut..]) {
            got.push(expect_note(&e));
        }
        assert_eq!(got, expected, "split at byte {cut}");
        assert_eq!(f.leftover_len(), 0);
    }
}
