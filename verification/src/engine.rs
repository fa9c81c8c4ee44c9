use vstd::prelude::*;

use crate::errors::ObsError;
use crate::events::{EventNotification, NotificationView};

verus! {

/// One registered waiter: an in-flight correlated request, owned by the
/// engine from registration until its single resolution.
#[derive(Debug)]
pub struct Waiter {
    /// The correlation id the waiter listens for.
    pub id: i32,
    /// The event type that resolves the waiter successfully.
    pub expected: i32,
    /// Event types that resolve the waiter with an error instead.
    pub error_types: Vec<i32>,
    /// The engine-clock instant, in milliseconds, past which the waiter
    /// times out.
    pub deadline: u64,
    /// The reply-slot handle under which the host delivers the outcome.
    pub slot: u64,
}

/// A notification that arrived before any waiter claimed its correlation
/// id; kept until a waiter registers for the id, or discarded when the id
/// times out, or cleared at shutdown.
#[derive(Debug)]
pub struct PendingEvent {
    pub id: i32,
    pub note: EventNotification,
}

/// One broadcast callback registration: every notification whose event
/// type matches fires the callback behind `handle`.
#[derive(Debug, Clone, Copy, PartialEq, Eq, Structural)]
pub struct CallbackEntry {
    pub event_type: i32,
    pub handle: u64,
}

/// The outcome owed to one waiter's reply slot.
#[derive(Debug)]
pub struct Resolution {
    /// The reply-slot handle of the waiter this outcome resolves.
    pub slot: u64,
    /// The notification that matched, or the error that ends the wait.
    pub outcome: Result<EventNotification, ObsError>,
}

/// What registering a waiter yields.
#[derive(Debug)]
pub enum RegisterOutcome {
    /// The waiter is registered and will be resolved later. A waiter
    /// previously registered under the same id, if any, is displaced:
    /// its reply slot is returned so the host can fail it.
    Stored { displaced: Option<u64> },
    /// A pending notification for the id was already here: the wait
    /// resolves immediately, without being stored.
    ResolvedNow { outcome: Result<EventNotification, ObsError> },
    /// The engine has stopped; nothing was registered.
    Rejected { error: ObsError },
}

/// The first waiter registered under `id`, if any.
pub open spec fn waiter_lookup(s: Seq<Waiter>, id: i32) -> Option<Waiter>
    decreases s.len(),
{
    if s.len() == 0 {
        None
    } else if s[0].id == id {
        Some(s[0])
    } else {
        waiter_lookup(s.drop_first(), id)
    }
}

/// The first pending notification stored under `id`, if any.
pub open spec fn pending_lookup(s: Seq<PendingEvent>, id: i32) -> Option<PendingEvent>
    decreases s.len(),
{
    if s.len() == 0 {
        None
    } else if s[0].id == id {
        Some(s[0])
    } else {
        pending_lookup(s.drop_first(), id)
    }
}

/// The waiters that do not listen on `id`.
pub open spec fn remove_waiter(s: Seq<Waiter>, id: i32) -> Seq<Waiter> {
    s.filter(|w: Waiter| w.id != id)
}

/// The pending notifications not stored under `id`.
pub open spec fn remove_pending(s: Seq<PendingEvent>, id: i32) -> Seq<PendingEvent> {
    s.filter(|p: PendingEvent| p.id != id)
}

/// The content of a pending store: ids with the mathematical content of
/// their notifications.
pub open spec fn pending_view(s: Seq<PendingEvent>) -> Seq<(i32, NotificationView)> {
    s.map_values(|p: PendingEvent| (p.id, p.note@))
}

/// The callback handles that a notification of type `event_type` fires,
/// in registration order.
pub open spec fn fired_handles(cbs: Seq<CallbackEntry>, event_type: i32) -> Seq<u64> {
    cbs.filter(|c: CallbackEntry| c.event_type == event_type).map_values(
        |c: CallbackEntry| c.handle,
    )
}

/// A sequence filtered by a predicate that holds everywhere is itself.
proof fn lemma_filter_identity<A>(s: Seq<A>, pred: spec_fn(A) -> bool)
    requires
        forall|j: int| 0 <= j < s.len() ==> pred(s[j]),
    ensures
        s.filter(pred) == s,
    decreases s.len(),
{
    reveal(Seq::filter);
    if s.len() > 0 {
        lemma_filter_identity(s.drop_last(), pred);
    }
    assert(s.filter(pred) =~= s);
}

/// Filtering out exactly one element is removal at its index.
proof fn lemma_filter_single_out<A>(s: Seq<A>, i: int, pred: spec_fn(A) -> bool)
    requires
        0 <= i < s.len(),
        !pred(s[i]),
        forall|j: int| 0 <= j < s.len() && j != i ==> pred(s[j]),
    ensures
        s.filter(pred) == s.remove(i),
{
    broadcast use Seq::filter_distributes_over_add;

    reveal_with_fuel(Seq::filter, 3);
    let a = s.take(i);
    let m = seq![s[i]];
    let b = s.skip(i + 1);
    assert(s =~= (a + m) + b);
    lemma_filter_identity(a, pred);
    lemma_filter_identity(b, pred);
    assert(m.drop_last() =~= Seq::<A>::empty());
    assert(m.filter(pred) =~= m.drop_last().filter(pred));
    assert(m.filter(pred) =~= Seq::<A>::empty());
    assert(s.filter(pred) == ((a + m) + b).filter(pred));
    assert(s.filter(pred) =~= a + b);
    assert(s.remove(i) =~= a + b);
}

/// Removing one element keeps keys pairwise distinct.
proof fn lemma_remove_keeps_distinct<A>(s: Seq<A>, i: int, key: spec_fn(A) -> i32)
    requires
        0 <= i < s.len(),
        forall|x: int, y: int| 0 <= x < y < s.len() ==> key(s[x]) != key(s[y]),
    ensures
        forall|x: int, y: int|
            0 <= x < y < s.remove(i).len() ==> key(s.remove(i)[x]) != key(s.remove(i)[y]),
{
    let t = s.remove(i);
    assert(t =~= s.take(i) + s.skip(i + 1));
    assert forall|x: int, y: int| 0 <= x < y < t.len() implies key(t[x]) != key(t[y]) by {
        let xs = if x < i {
            x
        } else {
            x + 1
        };
        let ys = if y < i {
            y
        } else {
            y + 1
        };
        assert(t[x] == s[xs]);
        assert(t[y] == s[ys]);
    }
}

/// A failed waiter lookup means no waiter holds the id.
proof fn lemma_waiter_lookup_none(s: Seq<Waiter>, id: i32)
    requires
        waiter_lookup(s, id) is None,
    ensures
        forall|j: int| 0 <= j < s.len() ==> s[j].id != id,
    decreases s.len(),
{
    if s.len() > 0 {
        lemma_waiter_lookup_none(s.drop_first(), id);
        assert forall|j: int| 0 <= j < s.len() implies s[j].id != id by {
            if j > 0 {
                assert(s[j] == s.drop_first()[j - 1]);
            }
        }
    }
}

/// A failed pending lookup means no pending notification holds the id.
proof fn lemma_pending_lookup_none(s: Seq<PendingEvent>, id: i32)
    requires
        pending_lookup(s, id) is None,
    ensures
        forall|j: int| 0 <= j < s.len() ==> s[j].id != id,
    decreases s.len(),
{
    if s.len() > 0 {
        lemma_pending_lookup_none(s.drop_first(), id);
        assert forall|j: int| 0 <= j < s.len() implies s[j].id != id by {
            if j > 0 {
                assert(s[j] == s.drop_first()[j - 1]);
            }
        }
    }
}

/// Filtering keeps every key a predicate-free sequence lacks absent.
proof fn lemma_filter_key_absent<A>(s: Seq<A>, pred: spec_fn(A) -> bool, key: spec_fn(A) -> i32, k: i32)
    requires
        forall|j: int| 0 <= j < s.len() ==> key(s[j]) != k,
    ensures
        forall|j: int| 0 <= j < s.filter(pred).len() ==> key(s.filter(pred)[j]) != k,
    decreases s.len(),
{
    reveal(Seq::filter);
    if s.len() > 0 {
        let d = s.drop_last();
        lemma_filter_key_absent(d, pred, key, k);
        assert forall|j: int| 0 <= j < s.filter(pred).len() implies key(
            #[trigger] s.filter(pred)[j],
        ) != k by {
            if pred(s.last()) {
                assert(s.filter(pred) == d.filter(pred).push(s.last()));
            } else {
                assert(s.filter(pred) == d.filter(pred));
            }
            if j < d.filter(pred).len() {
                assert(key(d.filter(pred)[j]) != k);
            }
        }
    }
}

/// Filtering keeps keys pairwise distinct.
proof fn lemma_filter_keeps_distinct<A>(s: Seq<A>, pred: spec_fn(A) -> bool, key: spec_fn(A) -> i32)
    requires
        forall|x: int, y: int| 0 <= x < y < s.len() ==> key(s[x]) != key(s[y]),
    ensures
        forall|x: int, y: int|
            0 <= x < y < s.filter(pred).len() ==> key(s.filter(pred)[x]) != key(s.filter(pred)[y]),
    decreases s.len(),
{
    reveal(Seq::filter);
    if s.len() > 0 {
        let d = s.drop_last();
        lemma_filter_keeps_distinct(d, pred, key);
        assert(forall|j: int| 0 <= j < d.len() ==> key(d[j]) != key(s.last()));
        lemma_filter_key_absent(d, pred, key, key(s.last()));
        assert forall|x: int, y: int| 0 <= x < y < s.filter(pred).len() implies key(
            #[trigger] s.filter(pred)[x],
        ) != key(#[trigger] s.filter(pred)[y]) by {
            if pred(s.last()) {
                assert(s.filter(pred) == d.filter(pred).push(s.last()));
            } else {
                assert(s.filter(pred) == d.filter(pred));
            }
            if y < d.filter(pred).len() {
                assert(key(d.filter(pred)[x]) != key(d.filter(pred)[y]));
            } else if y < s.filter(pred).len() && x < d.filter(pred).len() && pred(s.last()) {
                assert(key(d.filter(pred)[x]) != key(s.last()));
            }
        }
    }
}

/// Every element of a filtered sequence is an element of the source.
proof fn lemma_filter_subset<A>(s: Seq<A>, pred: spec_fn(A) -> bool)
    ensures
        forall|i: int| 0 <= i < s.filter(pred).len() ==> s.contains(#[trigger] s.filter(pred)[i]),
    decreases s.len(),
{
    reveal(Seq::filter);
    if s.len() > 0 {
        let d = s.drop_last();
        lemma_filter_subset(d, pred);
        assert forall|i: int| 0 <= i < s.filter(pred).len() implies s.contains(
            #[trigger] s.filter(pred)[i],
        ) by {
            if i < d.filter(pred).len() {
                assert(d.contains(d.filter(pred)[i]));
                let j = choose|j: int| 0 <= j < d.len() && d[j] == d.filter(pred)[i];
                assert(s[j] == s.filter(pred)[i]);
            } else {
                assert(s.filter(pred)[i] == s.last());
            }
        }
    }
}

/// A lookup skips over a prefix without matches.
proof fn lemma_waiter_lookup_skip(s: Seq<Waiter>, id: i32, i: int)
    requires
        0 <= i <= s.len(),
        forall|j: int| 0 <= j < i ==> s[j].id != id,
    ensures
        waiter_lookup(s, id) == waiter_lookup(s.skip(i), id),
    decreases i,
{
    if i > 0 {
        assert(s.drop_first() =~= s.skip(1));
        lemma_waiter_lookup_skip(s.skip(1), id, i - 1);
        assert(s.skip(1).skip(i - 1) =~= s.skip(i));
    } else {
        assert(s.skip(0) =~= s);
    }
}

/// A lookup skips over a prefix without matches.
proof fn lemma_pending_lookup_skip(s: Seq<PendingEvent>, id: i32, i: int)
    requires
        0 <= i <= s.len(),
        forall|j: int| 0 <= j < i ==> s[j].id != id,
    ensures
        pending_lookup(s, id) == pending_lookup(s.skip(i), id),
    decreases i,
{
    if i > 0 {
        assert(s.drop_first() =~= s.skip(1));
        lemma_pending_lookup_skip(s.skip(1), id, i - 1);
        assert(s.skip(1).skip(i - 1) =~= s.skip(i));
    } else {
        assert(s.skip(0) =~= s);
    }
}

/// Finds the index of the waiter registered under `id`.
fn find_waiter_index(waiters: &Vec<Waiter>, id: i32) -> (r: Option<usize>)
    ensures
        match r {
            Some(i) => i < waiters@.len() && waiters@[i as int].id == id && waiter_lookup(
                waiters@,
                id,
            ) == Some(waiters@[i as int]) && (forall|j: int| 0 <= j < i ==> waiters@[j].id != id),
            None => waiter_lookup(waiters@, id) is None,
        },
{
    let mut i: usize = 0;
    while i < waiters.len()
        invariant
            i <= waiters@.len(),
            forall|j: int| 0 <= j < i ==> waiters@[j].id != id,
        decreases waiters@.len() - i,
    {
        if waiters[i].id == id {
            proof {
                lemma_waiter_lookup_skip(waiters@, id, i as int);
                assert(waiters@.skip(i as int)[0] == waiters@[i as int]);
            }
            return Some(i);
        }
        i = i + 1;
    }
    proof {
        lemma_waiter_lookup_skip(waiters@, id, waiters@.len() as int);
        assert(waiters@.skip(waiters@.len() as int) =~= Seq::<Waiter>::empty());
    }
    None
}

/// Finds the index of the pending notification stored under `id`.
fn find_pending_index(pending: &Vec<PendingEvent>, id: i32) -> (r: Option<usize>)
    ensures
        match r {
            Some(i) => i < pending@.len() && pending@[i as int].id == id && pending_lookup(
                pending@,
                id,
            ) == Some(pending@[i as int]) && (forall|j: int| 0 <= j < i ==> pending@[j].id != id),
            None => pending_lookup(pending@, id) is None,
        },
{
    let mut i: usize = 0;
    while i < pending.len()
        invariant
            i <= pending@.len(),
            forall|j: int| 0 <= j < i ==> pending@[j].id != id,
        decreases pending@.len() - i,
    {
        if pending[i].id == id {
            proof {
                lemma_pending_lookup_skip(pending@, id, i as int);
                assert(pending@.skip(i as int)[0] == pending@[i as int]);
            }
            return Some(i);
        }
        i = i + 1;
    }
    proof {
        lemma_pending_lookup_skip(pending@, id, pending@.len() as int);
        assert(pending@.skip(pending@.len() as int) =~= Seq::<PendingEvent>::empty());
    }
    None
}

/// The correlation engine: the single owner of the waiter table, the
/// pending-notification table and the callback registry.
///
/// The engine is a pure state machine: each operation returns what the
/// host must deliver — resolutions for reply slots and the handles of
/// callbacks to fire — and the host performs the delivery. Time enters
/// only as an argument, a monotonic engine-clock reading in milliseconds.
#[derive(Debug)]
pub struct EventManager {
    /// Outstanding waiters, at most one per correlation id.
    pub waiters: Vec<Waiter>,
    /// Unclaimed pending notifications, at most one per correlation id.
    pub pending: Vec<PendingEvent>,
    /// Broadcast callback registrations, in registration order.
    pub callbacks: Vec<CallbackEntry>,
    /// Whether the engine has shut down; a stopped engine rejects
    /// registrations.
    pub stopped: bool,
}

impl EventManager {
    /// Each correlation id has at most one live waiter and at most one
    /// pending notification.
    pub open spec fn wf(self) -> bool {
        &&& forall|i: int, j: int|
            0 <= i < j < self.waiters@.len() ==> self.waiters@[i].id != self.waiters@[j].id
        &&& forall|i: int, j: int|
            0 <= i < j < self.pending@.len() ==> self.pending@[i].id != self.pending@[j].id
    }

    /// An empty, running engine.
    pub fn new() -> (r: EventManager)
        ensures
            r.wf(),
            r.waiters@.len() == 0,
            r.pending@.len() == 0,
            r.callbacks@.len() == 0,
            !r.stopped,
    {
        EventManager {
            waiters: Vec::new(),
            pending: Vec::new(),
            callbacks: Vec::new(),
            stopped: false,
        }
    }

    /// Registers a broadcast callback for an event type. The callback —
    /// known here only by its handle — persists for the engine's
    /// lifetime and fires, in registration order, for every later
    /// notification of that type, independent of waiter matching.
    ///
    /// A stopped engine rejects the registration with a shutdown-class
    /// error.
    pub fn register_callback(&mut self, event_type: i32, handle: u64) -> (r: Result<(), ObsError>)
        ensures
            final(self).waiters@ == old(self).waiters@,
            final(self).pending@ == old(self).pending@,
            final(self).stopped == old(self).stopped,
            (old(self).stopped ==> {
                &&& r matches Err(e) && (e matches ObsError::EventManagerError(_))
                &&& final(self).callbacks@ == old(self).callbacks@
            }),
            (!old(self).stopped ==> {
                &&& r is Ok
                &&& final(self).callbacks@ == old(self).callbacks@.push(
                    CallbackEntry { event_type, handle },
                )
            }),
    {
        if self.stopped {
            return Err(ObsError::EventManagerError(String::from_str("manager already shut down")));
        }
        self.callbacks.push(CallbackEntry { event_type, handle });
        Ok(())
    }

    /// The handles of every callback registered for `event_type`, in
    /// registration order.
    fn collect_callbacks(&self, event_type: i32) -> (r: Vec<u64>)
        ensures
            r@ == fired_handles(self.callbacks@, event_type),
    {
        let mut r: Vec<u64> = Vec::new();
        let mut i: usize = 0;
        proof {
            assert(self.callbacks@.take(0) =~= Seq::<CallbackEntry>::empty());
            assert(Seq::<CallbackEntry>::empty().filter(
                |c: CallbackEntry| c.event_type == event_type,
            ) =~= Seq::<CallbackEntry>::empty());
            assert(r@ =~= fired_handles(self.callbacks@.take(0), event_type));
        }
        while i < self.callbacks.len()
            invariant
                i <= self.callbacks@.len(),
                r@ == fired_handles(self.callbacks@.take(i as int), event_type),
            decreases self.callbacks@.len() - i,
        {
            let ghost prev = self.callbacks@.take(i as int);
            let entry = self.callbacks[i];
            if entry.event_type == event_type {
                r.push(entry.handle);
            }
            i = i + 1;
            proof {
                broadcast use Seq::lemma_filter_push;

                assert(self.callbacks@.take(i as int) =~= prev.push(entry));
                assert(fired_handles(prev.push(entry), event_type) =~= r@);
            }
        }
        proof {
            assert(self.callbacks@.take(self.callbacks@.len() as int) =~= self.callbacks@);
        }
        r
    }

    /// Routes one inbound notification, exactly as the engine loop must:
    ///
    /// - A notification carrying a correlation id with a live waiter
    ///   resolves that waiter — successfully on the expected event type,
    ///   with an error on a listed error type — or, on any other type, is
    ///   discarded for the waiter, which stays registered.
    /// - A notification carrying an id with no waiter replaces the
    ///   pending notification stored under that id.
    /// - Whatever the id handling, the notification fires every callback
    ///   registered for its event type, in registration order.
    ///
    /// No waiter listening on a different id is touched.
    pub fn handle_notification(&mut self, note: &EventNotification) -> (r: (
        Option<Resolution>,
        Vec<u64>,
    ))
        requires
            old(self).wf(),
        ensures
            final(self).wf(),
            final(self).callbacks@ == old(self).callbacks@,
            final(self).stopped == old(self).stopped,
            r.1@ == fired_handles(old(self).callbacks@, note.event),
            (note.identifier is None ==> {
                &&& final(self).waiters@ == old(self).waiters@
                &&& final(self).pending@ == old(self).pending@
                &&& r.0 is None
            }),
            (note.identifier matches Some(id) ==> match waiter_lookup(old(self).waiters@, id) {
                Some(w) => final(self).pending@ == old(self).pending@ && (if note.event
                    == w.expected {
                    &&& r.0 matches Some(res) && res.slot == w.slot && (res.outcome matches Ok(n)
                        && n@ == note@)
                    &&& final(self).waiters@ == remove_waiter(old(self).waiters@, id)
                } else if w.error_types@.contains(note.event) {
                    &&& r.0 matches Some(res) && res.slot == w.slot && (res.outcome matches Err(e)
                        && e matches ObsError::EventManagerError(_))
                    &&& final(self).waiters@ == remove_waiter(old(self).waiters@, id)
                } else {
                    r.0 is None && final(self).waiters@ == old(self).waiters@
                }),
                None => {
                    &&& r.0 is None
                    &&& final(self).waiters@ == old(self).waiters@
                    &&& pending_view(final(self).pending@) == pending_view(
                        remove_pending(old(self).pending@, id),
                    ).push((id, note@))
                },
            }),
    {
        let fired = self.collect_callbacks(note.event);
        let resolution: Option<Resolution> = match note.identifier {
            None => None,
            Some(id) => {
                match find_waiter_index(&self.waiters, id) {
                    Some(i) => {
                        if note.event == self.waiters[i].expected {
                            let w = self.waiters.remove(i);
                            proof {
                                lemma_filter_single_out(
                                    old(self).waiters@,
                                    i as int,
                                    |w: Waiter| w.id != id,
                                );
                                lemma_remove_keeps_distinct(
                                    old(self).waiters@,
                                    i as int,
                                    |w: Waiter| w.id,
                                );
                            }
                            Some(Resolution { slot: w.slot, outcome: Ok(note.duplicate()) })
                        } else if contains_i32(&self.waiters[i].error_types, note.event) {
                            let w = self.waiters.remove(i);
                            proof {
                                lemma_filter_single_out(
                                    old(self).waiters@,
                                    i as int,
                                    |w: Waiter| w.id != id,
                                );
                                lemma_remove_keeps_distinct(
                                    old(self).waiters@,
                                    i as int,
                                    |w: Waiter| w.id,
                                );
                            }
                            Some(
                                Resolution {
                                    slot: w.slot,
                                    outcome: Err(
                                        ObsError::EventManagerError(
                                            String::from_str("received an error event type"),
                                        ),
                                    ),
                                },
                            )
                        } else {
                            None
                        }
                    },
                    None => {
                        match find_pending_index(&self.pending, id) {
                            Some(pi) => {
                                let _ = self.pending.remove(pi);
                                proof {
                                    lemma_filter_single_out(
                                        old(self).pending@,
                                        pi as int,
                                        |p: PendingEvent| p.id != id,
                                    );
                                    lemma_remove_keeps_distinct(
                                        old(self).pending@,
                                        pi as int,
                                        |p: PendingEvent| p.id,
                                    );
                                }
                            },
                            None => {
                                proof {
                                    lemma_pending_lookup_none(self.pending@, id);
                                    lemma_filter_identity(
                                        self.pending@,
                                        |p: PendingEvent| p.id != id,
                                    );
                                }
                            },
                        }
                        proof {
                            assert(self.pending@ == remove_pending(old(self).pending@, id));
                            assert(forall|j: int|
                                0 <= j < self.pending@.len() ==> self.pending@[j].id != id) by {
                                broadcast use Seq::lemma_filter_pred;

                            }
                        }
                        self.pending.push(PendingEvent { id, note: note.duplicate() });
                        proof {
                            assert(pending_view(self.pending@) =~= pending_view(
                                remove_pending(old(self).pending@, id),
                            ).push((id, note@)));
                        }
                        None
                    },
                }
            },
        };
        (resolution, fired)
    }
}

/// Whether `v` holds `x`.
fn contains_i32(v: &Vec<i32>, x: i32) -> (r: bool)
    ensures
        r == v@.contains(x),
{
    let mut i: usize = 0;
    while i < v.len()
        invariant
            i <= v@.len(),
            forall|j: int| 0 <= j < i ==> v@[j] != x,
        decreases v@.len() - i,
    {
        if v[i] == x {
            return true;
        }
        i = i + 1;
    }
    assert(!v@.contains(x));
    false
}

/// The waiters whose deadline has passed at `now`.
pub open spec fn expired(s: Seq<Waiter>, now: u64) -> Seq<Waiter> {
    s.filter(|w: Waiter| w.deadline <= now)
}

/// The waiters still within their deadline at `now`.
pub open spec fn live(s: Seq<Waiter>, now: u64) -> Seq<Waiter> {
    s.filter(|w: Waiter| w.deadline > now)
}

/// Whether some waiter holding `id` has expired at `now`.
pub open spec fn expired_id(s: Seq<Waiter>, now: u64, id: i32) -> bool {
    exists|i: int| 0 <= i < s.len() && s[i].id == id && s[i].deadline <= now
}

/// The ids of the expired waiters hold exactly the expired ids.
proof fn lemma_expired_ids_iff(w0: Seq<Waiter>, now: u64, ids: Seq<i32>, id: i32)
    requires
        ids == expired(w0, now).map_values(|w: Waiter| w.id),
    ensures
        ids.contains(id) <==> expired_id(w0, now, id),
{
    broadcast use Seq::lemma_filter_contains;
    broadcast use Seq::lemma_filter_pred;

    if ids.contains(id) {
        let i = choose|i: int| 0 <= i < ids.len() && ids[i] == id;
        lemma_filter_subset(w0, |w: Waiter| w.deadline <= now);
        let w = expired(w0, now)[i];
        assert(w0.contains(w));
        let j = choose|j: int| 0 <= j < w0.len() && w0[j] == w;
        assert(w0[j].id == id && w0[j].deadline <= now);
    }
    if expired_id(w0, now, id) {
        let j = choose|j: int| 0 <= j < w0.len() && w0[j].id == id && w0[j].deadline <= now;
        assert(expired(w0, now).contains(w0[j]));
        let i = choose|i: int| 0 <= i < expired(w0, now).len() && expired(w0, now)[i] == w0[j];
        assert(ids[i] == id);
    }
}

impl EventManager {
    /// Stores a waiter for `id`, displacing the one registered under the
    /// same id if there is one, whose reply slot is returned.
    fn store_waiter(
        &mut self,
        id: i32,
        expected: i32,
        error_types: Vec<i32>,
        deadline: u64,
        slot: u64,
    ) -> (displaced: Option<u64>)
        requires
            old(self).wf(),
        ensures
            final(self).wf(),
            final(self).pending@ == old(self).pending@,
            final(self).callbacks@ == old(self).callbacks@,
            final(self).stopped == old(self).stopped,
            displaced == (match waiter_lookup(old(self).waiters@, id) {
                Some(w) => Some(w.slot),
                None => None::<u64>,
            }),
            final(self).waiters@ == remove_waiter(old(self).waiters@, id).push(
                Waiter { id, expected, error_types, deadline, slot },
            ),
    {
        let displaced: Option<u64> = match find_waiter_index(&self.waiters, id) {
            Some(i) => {
                let w = self.waiters.remove(i);
                proof {
                    lemma_filter_single_out(old(self).waiters@, i as int, |w: Waiter| w.id != id);
                    lemma_remove_keeps_distinct(old(self).waiters@, i as int, |w: Waiter| w.id);
                }
                Some(w.slot)
            },
            None => {
                proof {
                    lemma_waiter_lookup_none(self.waiters@, id);
                    lemma_filter_identity(self.waiters@, |w: Waiter| w.id != id);
                }
                None
            },
        };
        proof {
            assert(self.waiters@ == remove_waiter(old(self).waiters@, id));
            assert forall|j: int| 0 <= j < self.waiters@.len() implies self.waiters@[j].id
                != id by {
                broadcast use Seq::lemma_filter_pred;

            }
        }
        self.waiters.push(Waiter { id, expected, error_types, deadline, slot });
        displaced
    }

    /// Registers a waiter for correlation id `id`, with the event type
    /// that resolves it, the event types that fail it, and its deadline.
    ///
    /// If a pending notification already sits under the id, the wait
    /// resolves immediately by the same matching rule the engine applies
    /// to live waiters — except that a pending notification of a type
    /// that is neither expected nor an error type is discarded and the
    /// waiter is stored to await a later one. In every pending case the
    /// pending entry is consumed.
    ///
    /// Registering over a live waiter replaces it — this engine's
    /// documented re-registration policy — and the displaced waiter's
    /// reply slot is returned so the host can fail it.
    ///
    /// A stopped engine rejects the registration with a shutdown-class
    /// error and changes nothing.
    pub fn register_waiter(
        &mut self,
        id: i32,
        expected: i32,
        error_types: Vec<i32>,
        deadline: u64,
        slot: u64,
    ) -> (r: RegisterOutcome)
        requires
            old(self).wf(),
        ensures
            final(self).wf(),
            final(self).callbacks@ == old(self).callbacks@,
            final(self).stopped == old(self).stopped,
            (old(self).stopped ==> {
                &&& r matches RegisterOutcome::Rejected { error } && (error
                    matches ObsError::EventManagerError(_))
                &&& final(self).waiters@ == old(self).waiters@
                &&& final(self).pending@ == old(self).pending@
            }),
            (!old(self).stopped ==> match pending_lookup(old(self).pending@, id) {
                Some(p) => {
                    &&& final(self).pending@ == remove_pending(old(self).pending@, id)
                    &&& (if p.note.event == expected {
                        &&& r matches RegisterOutcome::ResolvedNow { outcome } && (outcome
                            matches Ok(n) && n@ == p.note@)
                        &&& final(self).waiters@ == old(self).waiters@
                    } else if error_types@.contains(p.note.event) {
                        &&& r matches RegisterOutcome::ResolvedNow { outcome } && (outcome
                            matches Err(e) && e matches ObsError::EventManagerError(_))
                        &&& final(self).waiters@ == old(self).waiters@
                    } else {
                        &&& r matches RegisterOutcome::Stored { displaced } && displaced == (
                        match waiter_lookup(old(self).waiters@, id) {
                            Some(w) => Some(w.slot),
                            None => None::<u64>,
                        })
                        &&& final(self).waiters@ == remove_waiter(old(self).waiters@, id).push(
                            Waiter { id, expected, error_types, deadline, slot },
                        )
                    })
                },
                None => {
                    &&& final(self).pending@ == old(self).pending@
                    &&& r matches RegisterOutcome::Stored { displaced } && displaced == (
                    match waiter_lookup(old(self).waiters@, id) {
                        Some(w) => Some(w.slot),
                        None => None::<u64>,
                    })
                    &&& final(self).waiters@ == remove_waiter(old(self).waiters@, id).push(
                        Waiter { id, expected, error_types, deadline, slot },
                    )
                },
            }),
    {
        if self.stopped {
            return RegisterOutcome::Rejected {
                error: ObsError::EventManagerError(String::from_str("manager already shut down")),
            };
        }
        match find_pending_index(&self.pending, id) {
            Some(pi) => {
                let p = self.pending.remove(pi);
                proof {
                    lemma_filter_single_out(old(self).pending@, pi as int, |p: PendingEvent| p.id != id);
                    lemma_remove_keeps_distinct(old(self).pending@, pi as int, |p: PendingEvent| p.id);
                }
                if p.note.event == expected {
                    RegisterOutcome::ResolvedNow { outcome: Ok(p.note) }
                } else if contains_i32(&error_types, p.note.event) {
                    RegisterOutcome::ResolvedNow {
                        outcome: Err(
                            ObsError::EventManagerError(
                                String::from_str("received an error event type"),
                            ),
                        ),
                    }
                } else {
                    let displaced = self.store_waiter(id, expected, error_types, deadline, slot);
                    RegisterOutcome::Stored { displaced }
                }
            },
            None => {
                let displaced = self.store_waiter(id, expected, error_types, deadline, slot);
                RegisterOutcome::Stored { displaced }
            },
        }
    }

    /// Resolves with a `Timeout` error every waiter whose deadline has
    /// passed at `now`, removing it, and discards any pending
    /// notification stored under a timed-out id. Waiters within their
    /// deadline, callbacks and the stopped flag are untouched.
    pub fn sweep_timeouts(&mut self, now: u64) -> (r: Vec<Resolution>)
        requires
            old(self).wf(),
        ensures
            final(self).wf(),
            final(self).callbacks@ == old(self).callbacks@,
            final(self).stopped == old(self).stopped,
            final(self).waiters@ == live(old(self).waiters@, now),
            final(self).pending@ == old(self).pending@.filter(
                |p: PendingEvent| !expired_id(old(self).waiters@, now, p.id),
            ),
            r@.len() == expired(old(self).waiters@, now).len(),
            forall|i: int|
                0 <= i < r@.len() ==> r@[i].slot == expired(old(self).waiters@, now)[i].slot && (
                r@[i].outcome matches Err(e) && e matches ObsError::Timeout(_)),
    {
        let ghost w0 = self.waiters@;
        let mut kept: Vec<Waiter> = Vec::new();
        let mut out: Vec<Resolution> = Vec::new();
        let mut expired_ids: Vec<i32> = Vec::new();
        proof {
            assert(w0.take(0) =~= Seq::<Waiter>::empty());
            assert(Seq::<Waiter>::empty().filter(|w: Waiter| w.deadline <= now) =~= Seq::<
                Waiter,
            >::empty());
            assert(Seq::<Waiter>::empty().filter(|w: Waiter| w.deadline > now) =~= Seq::<
                Waiter,
            >::empty());
            assert(expired_ids@ =~= expired(w0.take(0), now).map_values(|w: Waiter| w.id));
        }
        proof {
            assert(w0.skip(0) =~= w0);
        }
        while self.waiters.len() > 0
            invariant
                self.pending@ == old(self).pending@,
                self.callbacks@ == old(self).callbacks@,
                self.stopped == old(self).stopped,
                self.waiters@.len() <= w0.len(),
                self.waiters@ == w0.skip(w0.len() - self.waiters@.len()),
                kept@ == live(w0.take(w0.len() - self.waiters@.len()), now),
                expired_ids@ == expired(w0.take(w0.len() - self.waiters@.len()), now).map_values(
                    |w: Waiter| w.id,
                ),
                out@.len() == expired(w0.take(w0.len() - self.waiters@.len()), now).len(),
                forall|i: int|
                    0 <= i < out@.len() ==> out@[i].slot == expired(
                        w0.take(w0.len() - self.waiters@.len()),
                        now,
                    )[i].slot && (out@[i].outcome matches Err(e) && e matches ObsError::Timeout(_)),
            decreases self.waiters@.len(),
        {
            let ghost k = w0.len() - self.waiters@.len();
            let w = self.waiters.remove(0);
            proof {
                assert(w == w0.skip(k)[0]);
                assert(w == w0[k]);
                assert(w0.skip(k).remove(0) =~= w0.skip(k + 1));
                assert(w0.take(k + 1) =~= w0.take(k).push(w0[k]));
                broadcast use Seq::lemma_filter_push;

                assert(expired(w0.take(k).push(w), now) == (if w.deadline <= now {
                    expired(w0.take(k), now).push(w)
                } else {
                    expired(w0.take(k), now)
                }));
                assert(live(w0.take(k).push(w), now) == (if w.deadline > now {
                    live(w0.take(k), now).push(w)
                } else {
                    live(w0.take(k), now)
                }));
            }
            if w.deadline > now {
                kept.push(w);
                proof {
                    assert(kept@ =~= live(w0.take(k + 1), now));
                    assert(expired_ids@ =~= expired(w0.take(k + 1), now).map_values(
                        |w: Waiter| w.id,
                    ));
                }
            } else {
                expired_ids.push(w.id);
                out.push(
                    Resolution {
                        slot: w.slot,
                        outcome: Err(ObsError::Timeout(String::from_str("request timed out"))),
                    },
                );
                proof {
                    assert(kept@ =~= live(w0.take(k + 1), now));
                    assert(expired_ids@ =~= expired(w0.take(k + 1), now).map_values(
                        |w: Waiter| w.id,
                    ));
                }
            }
        }
        proof {
            assert(w0.take(w0.len() as int) =~= w0);
        }
        self.waiters = kept;
        proof {
            lemma_filter_keeps_distinct(w0, |w: Waiter| w.deadline > now, |w: Waiter| w.id);
        }
        let ghost p0 = self.pending@;
        let ghost ppred = |p: PendingEvent| !expired_id(w0, now, p.id);
        let mut kept_p: Vec<PendingEvent> = Vec::new();
        proof {
            reveal_with_fuel(Seq::filter, 2);
            assert(p0.take(0) =~= Seq::<PendingEvent>::empty());
            assert(Seq::<PendingEvent>::empty().filter(ppred) =~= Seq::<PendingEvent>::empty());
        }
        proof {
            assert(p0.skip(0) =~= p0);
            assert(p0 == old(self).pending@);
        }
        while self.pending.len() > 0
            invariant
                ppred == (|p: PendingEvent| !expired_id(w0, now, p.id)),
                self.waiters@ == live(w0, now),
                self.callbacks@ == old(self).callbacks@,
                self.stopped == old(self).stopped,
                self.pending@.len() <= p0.len(),
                self.pending@ == p0.skip(p0.len() - self.pending@.len()),
                kept_p@ == p0.take(p0.len() - self.pending@.len()).filter(ppred),
                expired_ids@ == expired(w0, now).map_values(|w: Waiter| w.id),
            decreases self.pending@.len(),
        {
            let ghost k = p0.len() - self.pending@.len();
            let p = self.pending.remove(0);
            proof {
                assert(p == p0.skip(k)[0]);
                assert(p == p0[k]);
                assert(p0.skip(k).remove(0) =~= p0.skip(k + 1));
                assert(p0.take(k + 1) =~= p0.take(k).push(p0[k]));
                lemma_expired_ids_iff(w0, now, expired_ids@, p.id);
                broadcast use Seq::lemma_filter_push;

                assert(p0.take(k).push(p).filter(ppred) == (if ppred(p) {
                    p0.take(k).filter(ppred).push(p)
                } else {
                    p0.take(k).filter(ppred)
                }));
            }
            let ghost prev_kept = kept_p@;
            proof {
                assert(ppred(p) == !expired_id(w0, now, p.id));
            }
            if !contains_i32(&expired_ids, p.id) {
                kept_p.push(p);
                proof {
                    assert(ppred(p));
                    assert(kept_p@ =~= prev_kept.push(p));
                    assert(kept_p@ =~= p0.take(k + 1).filter(ppred));
                }
            } else {
                proof {
                    assert(!ppred(p));
                    assert(kept_p@ =~= p0.take(k + 1).filter(ppred));
                }
            }
        }
        proof {
            assert(p0.take(p0.len() as int) =~= p0);
        }
        self.pending = kept_p;
        proof {
            lemma_filter_keeps_distinct(p0, ppred, |p: PendingEvent| p.id);
        }
        out
    }

    /// Shuts the engine down: every outstanding waiter is resolved with a
    /// shutdown-class error — none is left dangling — and the pending
    /// notifications and the callback registry are cleared. Later
    /// registrations are rejected.
    pub fn shutdown(&mut self) -> (r: Vec<Resolution>)
        ensures
            final(self).wf(),
            final(self).stopped,
            final(self).waiters@.len() == 0,
            final(self).pending@.len() == 0,
            final(self).callbacks@.len() == 0,
            r@.len() == old(self).waiters@.len(),
            forall|i: int|
                0 <= i < r@.len() ==> r@[i].slot == old(self).waiters@[i].slot && (r@[i].outcome
                    matches Err(e) && e matches ObsError::EventManagerError(_)),
    {
        let ghost w0 = self.waiters@;
        let mut out: Vec<Resolution> = Vec::new();
        proof {
            assert(w0.skip(0) =~= w0);
        }
        while self.waiters.len() > 0
            invariant
                self.waiters@.len() <= w0.len(),
                self.waiters@ == w0.skip(w0.len() - self.waiters@.len()),
                out@.len() == w0.len() - self.waiters@.len(),
                forall|i: int|
                    0 <= i < out@.len() ==> out@[i].slot == w0[i].slot && (out@[i].outcome
                        matches Err(e) && e matches ObsError::EventManagerError(_)),
            decreases self.waiters@.len(),
        {
            let ghost k = w0.len() - self.waiters@.len();
            let w = self.waiters.remove(0);
            proof {
                assert(w == w0.skip(k)[0]);
                assert(w == w0[k]);
                assert(w0.skip(k).remove(0) =~= w0.skip(k + 1));
            }
            out.push(
                Resolution {
                    slot: w.slot,
                    outcome: Err(ObsError::EventManagerError(String::from_str("manager shutdown"))),
                },
            );
        }
        self.pending.clear();
        self.callbacks.clear();
        self.stopped = true;
        out
    }
}

/// Law: two callbacks registered for the same event type both fire, in
/// registration order, for every notification of that type: registering
/// `a` and then `b` makes the fired handles of that type the previously
/// fired ones, then `a`'s, then `b`'s — whatever a waiter does with the
/// same notification.
pub proof fn lemma_callbacks_fire_in_registration_order(
    cbs: Seq<CallbackEntry>,
    a: CallbackEntry,
    b: CallbackEntry,
    event_type: i32,
)
    requires
        a.event_type == event_type,
        b.event_type == event_type,
    ensures
        fired_handles(cbs.push(a).push(b), event_type) == fired_handles(cbs, event_type).push(
            a.handle,
        ).push(b.handle),
{
    broadcast use Seq::lemma_filter_push;

    assert(fired_handles(cbs.push(a).push(b), event_type) =~= fired_handles(cbs, event_type).push(
        a.handle,
    ).push(b.handle));
}

/// Law: a correlation id resolves at most once: once the engine removes
/// the waiter it resolved, no waiter registration remains under that id.
pub proof fn lemma_resolved_waiter_is_gone(pre: Seq<Waiter>, id: i32)
    ensures
        waiter_lookup(remove_waiter(pre, id), id) is None,
    decreases pre.len(),
{
    broadcast use Seq::filter_distributes_over_add;

    reveal_with_fuel(Seq::filter, 3);
    if pre.len() == 0 {
        assert(remove_waiter(pre, id) =~= pre);
    } else {
        let h = pre[0];
        let t = pre.drop_first();
        assert(pre =~= seq![h] + t);
        lemma_resolved_waiter_is_gone(t, id);
        assert(seq![h].drop_last() =~= Seq::<Waiter>::empty());
        if h.id == id {
            assert(seq![h].filter(|w: Waiter| w.id != id) =~= Seq::<Waiter>::empty());
            assert(remove_waiter(pre, id) =~= remove_waiter(t, id));
        } else {
            assert(seq![h].filter(|w: Waiter| w.id != id) =~= seq![h]);
            assert(remove_waiter(pre, id) =~= seq![h] + remove_waiter(t, id));
            assert((seq![h] + remove_waiter(t, id)).drop_first() =~= remove_waiter(t, id));
        }
    }
}

/// Law: routing a notification for one correlation id touches no waiter
/// listening on another id: that waiter's registration reads the same
/// after the matched waiter is removed.
pub proof fn lemma_other_waiters_untouched(pre: Seq<Waiter>, id: i32, other: i32)
    requires
        other != id,
    ensures
        waiter_lookup(remove_waiter(pre, id), other) == waiter_lookup(pre, other),
    decreases pre.len(),
{
    broadcast use Seq::filter_distributes_over_add;

    reveal_with_fuel(Seq::filter, 3);
    if pre.len() == 0 {
        assert(remove_waiter(pre, id) =~= pre);
    } else {
        let h = pre[0];
        let t = pre.drop_first();
        assert(pre =~= seq![h] + t);
        lemma_other_waiters_untouched(t, id, other);
        assert(seq![h].drop_last() =~= Seq::<Waiter>::empty());
        if h.id == id {
            assert(seq![h].filter(|w: Waiter| w.id != id) =~= Seq::<Waiter>::empty());
            assert(remove_waiter(pre, id) =~= remove_waiter(t, id));
        } else {
            assert(seq![h].filter(|w: Waiter| w.id != id) =~= seq![h]);
            assert(remove_waiter(pre, id) =~= seq![h] + remove_waiter(t, id));
            assert((seq![h] + remove_waiter(t, id)).drop_first() =~= remove_waiter(t, id));
        }
    }
}

} // verus!
