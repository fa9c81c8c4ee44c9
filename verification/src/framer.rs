use vstd::prelude::*;

use crate::events::{EventNotification, NotificationView};

verus! {

/// How the `identifier` member reads in one parsed JSON value.
#[derive(Debug, Clone, Copy, PartialEq, Eq, Structural)]
pub enum IdentField {
    /// No `identifier` member is present.
    Missing,
    /// The member is the given integer.
    Num(i64),
    /// The member is present but is not an integer.
    Other,
}

/// What one attempt to parse the first JSON value of a byte sequence
/// yields.
#[derive(Debug, Clone, Copy, PartialEq, Eq, Structural)]
pub enum ParseStep {
    /// A complete JSON value spans the first `used` bytes.
    Value { used: usize },
    /// The bytes end inside a value: more data is needed.
    NeedMore,
    /// A syntax error; the failed value begins at byte `start`.
    Bad { start: usize },
    /// Nothing but whitespace, or nothing at all, remains.
    Blank,
}

/// What serde_json's streaming parser yields on the front of a byte
/// sequence; a function of the bytes alone.
pub uninterp spec fn parse_step(bytes: Seq<u8>) -> ParseStep;

/// The `event` member of the one JSON value in a byte sequence, when that
/// member is present and is an integer; a function of the bytes alone.
pub uninterp spec fn event_of(bytes: Seq<u8>) -> Option<i64>;

/// How the `identifier` member of the one JSON value in a byte sequence
/// reads; a function of the bytes alone.
pub uninterp spec fn ident_of(bytes: Seq<u8>) -> IdentField;

/// Relies on serde_json's `StreamDeserializer` over a byte slice: its
/// first item is the first JSON value of the slice, with `byte_offset`
/// reporting the bytes that value spans (at least one, at most all of
/// them); an end-of-data error when the slice ends inside a value; or a
/// syntax error, with `byte_offset` still at the failed value's first
/// byte. No item at all means only whitespace remains.
#[verifier::external_body]
fn parse_first(bytes: &[u8]) -> (r: ParseStep)
    ensures
        r == parse_step(bytes@),
        (r matches ParseStep::Value { used } ==> 1 <= used <= bytes@.len()),
        (r matches ParseStep::Bad { start } ==> start <= bytes@.len()),
{
    let mut it = serde_json::Deserializer::from_slice(bytes).into_iter::<serde_json::Value>();
    match it.next() {
        None => ParseStep::Blank,
        Some(Ok(_)) => ParseStep::Value { used: it.byte_offset() },
        Some(Err(e)) => {
            if e.is_eof() {
                ParseStep::NeedMore
            } else {
                ParseStep::Bad { start: it.byte_offset() }
            }
        },
    }
}

/// Relies on serde_json::from_slice::<Value> and Value::get / Value::as_i64:
/// reads the `event` and `identifier` members of the one JSON object held
/// in `bytes`.
#[verifier::external_body]
fn note_fields(bytes: &[u8]) -> (r: (Option<i64>, IdentField))
    ensures
        r.0 == event_of(bytes@),
        r.1 == ident_of(bytes@),
{
    let v: serde_json::Value = match serde_json::from_slice(bytes) {
        Ok(v) => v,
        Err(_) => return (None, IdentField::Other),
    };
    let event = v.get("event").and_then(serde_json::Value::as_i64);
    let identifier = match v.get("identifier") {
        None => IdentField::Missing,
        Some(i) => i.as_i64().map_or(IdentField::Other, IdentField::Num),
    };
    (event, identifier)
}

/// Whether the envelope members of a parsed value form a notification:
/// an integer `event` in 32-bit range, and an `identifier` that is absent
/// or an integer in 32-bit range.
pub open spec fn valid_fields(event: Option<i64>, ident: IdentField) -> bool {
    &&& event matches Some(e) && i32::MIN <= e <= i32::MAX
    &&& match ident {
        IdentField::Missing => true,
        IdentField::Num(n) => i32::MIN <= n <= i32::MAX,
        IdentField::Other => false,
    }
}

/// One unit the framer hands on: a decoded notification, or notice of a
/// malformed span (surfaced downstream as a `Deserialization` error).
#[derive(Debug)]
pub enum FrameEvent {
    Note(EventNotification),
    Malformed,
}

/// The mathematical content of one framed unit.
pub ghost enum FrameEventView {
    Note { note: NotificationView },
    Malformed,
}

impl View for FrameEvent {
    type V = FrameEventView;

    open spec fn view(&self) -> FrameEventView {
        match self {
            FrameEvent::Note(n) => FrameEventView::Note { note: n@ },
            FrameEvent::Malformed => FrameEventView::Malformed,
        }
    }
}

/// The framed unit that a parsed value with the given envelope members
/// and raw bytes becomes: a notification when the members are valid, and
/// a malformed-span notice otherwise.
pub open spec fn spec_frame_event(event: Option<i64>, ident: IdentField, raw: Seq<u8>) -> FrameEventView {
    if valid_fields(event, ident) {
        FrameEventView::Note {
            note: NotificationView {
                event: event->Some_0 as i32,
                identifier: match ident {
                    IdentField::Num(n) => Some(n as i32),
                    _ => None,
                },
                raw: raw,
            },
        }
    } else {
        FrameEventView::Malformed
    }
}

/// The view of a sequence of framed units.
pub open spec fn events_view(out: Seq<FrameEvent>) -> Seq<FrameEventView> {
    out.map_values(|e: FrameEvent| e@)
}

/// The first index at or after `i` holding `{`, or the length when there
/// is none.
pub open spec fn find_brace(bytes: Seq<u8>, i: nat) -> nat
    decreases bytes.len() - i,
{
    if i >= bytes.len() {
        bytes.len()
    } else if bytes[i as int] == 123u8 {
        i
    } else {
        find_brace(bytes, i + 1)
    }
}

/// Where framing resumes after a syntax error whose failed value begins
/// at `start`: the next `{` at least one byte further on, or the end.
pub open spec fn resync_from(bytes: Seq<u8>, start: nat) -> nat {
    find_brace(bytes, if start == 0 { 1 } else { start })
}

/// What framing a byte sequence yields: the framed units, in order, and
/// the unconsumed leftover bytes.
///
/// A complete value is consumed and becomes one unit; a syntax error
/// becomes one malformed-span notice and framing resumes at the next `{`
/// past the error; bytes that end inside a value are left for the next
/// read; trailing whitespace is dropped.
pub open spec fn frame(bytes: Seq<u8>) -> (Seq<FrameEventView>, Seq<u8>)
    decreases bytes.len(),
{
    if bytes.len() == 0 {
        (Seq::empty(), Seq::empty())
    } else {
        match parse_step(bytes) {
            ParseStep::Value { used } => {
                if 1 <= used <= bytes.len() {
                    let raw = bytes.take(used as int);
                    let rest = frame(bytes.skip(used as int));
                    (seq![spec_frame_event(event_of(raw), ident_of(raw), raw)] + rest.0, rest.1)
                } else {
                    (Seq::empty(), bytes)
                }
            },
            ParseStep::NeedMore => (Seq::empty(), bytes),
            ParseStep::Bad { start } => {
                let k = resync_from(bytes, start as nat);
                if 1 <= k <= bytes.len() {
                    let rest = frame(bytes.skip(k as int));
                    (seq![FrameEventView::Malformed] + rest.0, rest.1)
                } else {
                    (Seq::empty(), bytes)
                }
            },
            ParseStep::Blank => (Seq::empty(), Seq::empty()),
        }
    }
}

/// Builds the framed unit of one parsed value from its envelope members
/// and raw bytes.
fn make_event(event: Option<i64>, ident: IdentField, raw: &[u8]) -> (r: FrameEvent)
    ensures
        r@ == spec_frame_event(event, ident, raw@),
{
    match event {
        Some(e) => {
            if e < i32::MIN as i64 || e > i32::MAX as i64 {
                return FrameEvent::Malformed;
            }
            let identifier: Option<i32> = match ident {
                IdentField::Missing => None,
                IdentField::Num(n) => {
                    if n < i32::MIN as i64 || n > i32::MAX as i64 {
                        return FrameEvent::Malformed;
                    }
                    Some(n as i32)
                },
                IdentField::Other => {
                    return FrameEvent::Malformed;
                },
            };
            let mut rawv: Vec<u8> = Vec::new();
            rawv.extend_from_slice(raw);
            let note = EventNotification { event: e as i32, identifier, raw: rawv };
            assert(note@.raw =~= raw@);
            FrameEvent::Note(note)
        },
        None => FrameEvent::Malformed,
    }
}

/// Scans for the next `{` at or after `start`, but at least one byte in.
fn resync(slice: &[u8], start: usize) -> (k: usize)
    requires
        slice@.len() >= 1,
        start <= slice@.len(),
    ensures
        k == resync_from(slice@, start as nat),
        1 <= k <= slice@.len(),
{
    let mut i: usize = if start == 0 {
        1
    } else {
        start
    };
    while i < slice.len() && *vstd::slice::slice_index_get(slice, i) != 123
        invariant
            1 <= i <= slice@.len(),
            resync_from(slice@, start as nat) == find_brace(slice@, i as nat),
        decreases slice@.len() - i,
    {
        i = i + 1;
    }
    i
}

/// Turns the unframed inbound byte stream into discrete notifications,
/// robust to arbitrary split points: bytes are pushed as they arrive and
/// complete values come out as soon as they are whole.
#[derive(Debug)]
pub struct Framer {
    /// Bytes received but not yet consumed by a parse.
    pub buf: Vec<u8>,
}

impl Framer {
    /// An empty framer.
    pub fn new() -> (r: Framer)
        ensures
            r.buf@ == Seq::<u8>::empty(),
    {
        Framer { buf: Vec::new() }
    }

    /// How many bytes sit unconsumed in the accumulation buffer.
    pub fn leftover_len(&self) -> (r: usize)
        ensures
            r == self.buf@.len(),
    {
        self.buf.len()
    }

    /// Appends one read's worth of bytes and extracts every framed unit
    /// that is now complete. Exactly the bytes of the consumed units are
    /// drained from the front of the accumulation buffer.
    pub fn push(&mut self, chunk: &[u8]) -> (out: Vec<FrameEvent>)
        ensures
            events_view(out@) == frame(old(self).buf@ + chunk@).0,
            final(self).buf@ == frame(old(self).buf@ + chunk@).1,
    {
        self.buf.extend_from_slice(chunk);
        assert(self.buf@ =~= old(self).buf@ + chunk@);
        let ghost full: Seq<u8> = self.buf@;
        let mut out: Vec<FrameEvent> = Vec::new();
        let mut consumed: usize = 0;
        proof {
            assert(full.skip(0) =~= full);
            assert(events_view(out@) =~= Seq::<FrameEventView>::empty());
            assert(frame(full).0 =~= events_view(out@) + frame(full.skip(0)).0);
        }
        loop
            invariant
                consumed <= self.buf@.len(),
                self.buf@ == full,
                frame(full).0 == events_view(out@) + frame(full.skip(consumed as int)).0,
                frame(full).1 == frame(full.skip(consumed as int)).1,
            ensures
                consumed <= full.len(),
                self.buf@ == full,
                frame(full).0 == events_view(out@),
                frame(full).1 == full.skip(consumed as int),
            decreases full.len() - consumed,
        {
            let ghost remaining = full.skip(consumed as int);
            if consumed == self.buf.len() {
                proof {
                    assert(remaining =~= Seq::<u8>::empty());
                    assert(frame(full).0 =~= events_view(out@));
                }
                break;
            }
            let slice = vstd::slice::slice_subrange(self.buf.as_slice(), consumed, self.buf.len());
            assert(slice@ =~= remaining);
            let step = parse_first(slice);
            match step {
                ParseStep::Value { used } => {
                    let raw_slice = vstd::slice::slice_subrange(slice, 0, used);
                    assert(raw_slice@ =~= remaining.take(used as int));
                    let (ev_field, id_field) = note_fields(raw_slice);
                    let fe = make_event(ev_field, id_field, raw_slice);
                    let ghost prev_out = out@;
                    out.push(fe);
                    consumed = consumed + used;
                    proof {
                        assert(remaining.skip(used as int) =~= full.skip(consumed as int));
                        assert(frame(remaining).0 == seq![fe@] + frame(full.skip(consumed as int)).0);
                        assert(events_view(out@) =~= events_view(prev_out) + seq![fe@]);
                        assert(events_view(prev_out) + (seq![fe@] + frame(
                            full.skip(consumed as int),
                        ).0) =~= events_view(out@) + frame(full.skip(consumed as int)).0);
                    }
                },
                ParseStep::NeedMore => {
                    proof {
                        assert(frame(remaining).0 == Seq::<FrameEventView>::empty());
                        assert(frame(full).0 =~= events_view(out@));
                    }
                    break;
                },
                ParseStep::Bad { start } => {
                    let k = resync(slice, start);
                    let ghost prev_out = out@;
                    out.push(FrameEvent::Malformed);
                    consumed = consumed + k;
                    proof {
                        assert(remaining.skip(k as int) =~= full.skip(consumed as int));
                        assert(frame(remaining).0 == seq![FrameEventView::Malformed] + frame(
                            full.skip(consumed as int),
                        ).0);
                        assert(events_view(out@) =~= events_view(prev_out) + seq![
                            FrameEventView::Malformed,
                        ]);
                        assert(events_view(prev_out) + (seq![FrameEventView::Malformed] + frame(
                            full.skip(consumed as int),
                        ).0) =~= events_view(out@) + frame(full.skip(consumed as int)).0);
                    }
                },
                ParseStep::Blank => {
                    proof {
                        assert(frame(remaining).0 == Seq::<FrameEventView>::empty());
                        assert(frame(remaining).1 == Seq::<u8>::empty());
                        assert(frame(full).0 =~= events_view(out@));
                    }
                    consumed = self.buf.len();
                    assert(full.skip(consumed as int) =~= Seq::<u8>::empty());
                    break;
                },
            }
        }
        let rest = vstd::slice::slice_to_vec(
            vstd::slice::slice_subrange(self.buf.as_slice(), consumed, self.buf.len()),
        );
        assert(rest@ =~= full.skip(consumed as int));
        self.buf = rest;
        out
    }
}

/// Law: a read that ends inside the first value — a split at any point
/// within it — yields nothing and keeps every byte, so the next read
/// frames exactly the concatenation of both reads in one pass. This
/// covers any split point strictly inside a value; where the split falls
/// between two values the first read already yields its values and
/// leaves nothing behind, which [`lemma_two_values_drain`] describes.
pub proof fn lemma_split_value_defers(b1: Seq<u8>, b2: Seq<u8>)
    requires
        b1.len() > 0,
        parse_step(b1) is NeedMore,
    ensures
        frame(b1).0 == Seq::<FrameEventView>::empty(),
        frame(b1).1 == b1,
        frame(frame(b1).1 + b2) == frame(b1 + b2),
{
}

/// Law: a read holding exactly two complete values back to back yields
/// exactly those two framed units, in order, and leaves the buffer fully
/// drained.
pub proof fn lemma_two_values_drain(b: Seq<u8>, u1: usize, u2: usize)
    requires
        parse_step(b) == (ParseStep::Value { used: u1 }),
        1 <= u1 <= b.len(),
        parse_step(b.skip(u1 as int)) == (ParseStep::Value { used: u2 }),
        1 <= u2,
        u1 + u2 == b.len(),
    ensures
        frame(b).0 == seq![
            spec_frame_event(
                event_of(b.take(u1 as int)),
                ident_of(b.take(u1 as int)),
                b.take(u1 as int),
            ),
            spec_frame_event(
                event_of(b.skip(u1 as int)),
                ident_of(b.skip(u1 as int)),
                b.skip(u1 as int),
            ),
        ],
        frame(b).1 == Seq::<u8>::empty(),
{
    reveal_with_fuel(frame, 3);
    let rest = b.skip(u1 as int);
    assert(rest.take(u2 as int) =~= rest);
    assert(rest.skip(u2 as int) =~= Seq::<u8>::empty());
    assert(frame(b).0 =~= seq![
        spec_frame_event(event_of(b.take(u1 as int)), ident_of(b.take(u1 as int)), b.take(u1 as int)),
        spec_frame_event(event_of(rest), ident_of(rest), rest),
    ]);
}

/// Law: a syntax error yields exactly one malformed-span notice and
/// framing recovers at the next object: a complete value that follows
/// the malformed span still comes through.
pub proof fn lemma_bad_span_recovers(b: Seq<u8>, start: usize, u: usize)
    requires
        b.len() > 0,
        parse_step(b) == (ParseStep::Bad { start }),
        start <= b.len(),
        1 <= resync_from(b, start as nat) <= b.len(),
        parse_step(b.skip(resync_from(b, start as nat) as int)) == (ParseStep::Value { used: u }),
        1 <= u,
        resync_from(b, start as nat) + u == b.len(),
    ensures
        frame(b).0 == seq![
            FrameEventView::Malformed,
            spec_frame_event(
                event_of(b.skip(resync_from(b, start as nat) as int)),
                ident_of(b.skip(resync_from(b, start as nat) as int)),
                b.skip(resync_from(b, start as nat) as int),
            ),
        ],
        frame(b).1 == Seq::<u8>::empty(),
{
    reveal_with_fuel(frame, 3);
    let k = resync_from(b, start as nat);
    let rest = b.skip(k as int);
    assert(rest.take(u as int) =~= rest);
    assert(rest.skip(u as int) =~= Seq::<u8>::empty());
    assert(frame(b).0 =~= seq![
        FrameEventView::Malformed,
        spec_frame_event(event_of(rest), ident_of(rest), rest),
    ]);
}

} // verus!
