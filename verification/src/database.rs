use vstd::prelude::*;

use crate::config::BackendKind;

verus! {

/// The fixed maximum number of rows one fetch returns. A page shorter than
/// this is the sole end-of-data signal.
pub const RECORDS_LIMIT_PER_PAGE: usize = 200;

/// An error surfaced from the data-access layer and shown in the error
/// overlay. Failing to open or authenticate to a backend is a connection
/// error; a schema listing, row fetch or query failing after a connection is
/// live is a query error. Operations that would assume an absent adapter or
/// selection are made unreachable by the state machine's contracts, so no
/// third kind exists.
#[derive(Debug)]
pub enum DbError {
    ConnectionError(String),
    QueryError(String),
}

impl DbError {
    pub open spec fn spec_message(self) -> String {
        match self {
            DbError::ConnectionError(m) => m,
            DbError::QueryError(m) => m,
        }
    }

    /// The text shown to the user.
    pub fn message(self) -> (r: String)
        ensures
            r == self.spec_message(),
    {
        match self {
            DbError::ConnectionError(m) => m,
            DbError::QueryError(m) => m,
        }
    }
}

/// The core's record of one live backend adapter. The surrounding I/O layer
/// keeps the actual session handle under the same id; the core only tracks
/// identity and backend kind.
#[derive(Clone, Copy, Debug, PartialEq, Eq, Structural)]
pub struct Adapter {
    pub id: u64,
    pub kind: BackendKind,
}

/// One step in the life of the adapter slot, recorded in ghost history.
#[derive(Clone, Copy, Debug, PartialEq, Eq, Structural)]
pub enum LifecycleEvent {
    Opened(u64),
    Closed(u64),
}

pub open spec fn event_id(e: LifecycleEvent) -> u64 {
    match e {
        LifecycleEvent::Opened(id) => id,
        LifecycleEvent::Closed(id) => id,
    }
}

/// A history in which every opened adapter has already been closed: strictly
/// alternating `Opened(id)`, `Closed(id)` pairs.
pub open spec fn closed_history(h: Seq<LifecycleEvent>) -> bool
    decreases h.len(),
{
    h.len() == 0 || {
        &&& h.len() >= 2
        &&& h[0] is Opened
        &&& h[1] == LifecycleEvent::Closed(event_id(h[0]))
        &&& closed_history(h.skip(2))
    }
}

/// A history the adapter slot can be in at any moment: either everything
/// opened so far is closed, or exactly the last opened adapter is still live.
pub open spec fn history_ok(h: Seq<LifecycleEvent>) -> bool {
    closed_history(h) || (h.len() >= 1 && h.last() is Opened && closed_history(h.drop_last()))
}

/// Owns switching between connections. It holds at most one live adapter and
/// guarantees, through its ghost history, that the previous adapter is closed
/// before a new one is opened.
pub struct ConnectionLifecycle {
    pub held: Option<Adapter>,
    pub next_id: u64,
    pub history: Ghost<Seq<LifecycleEvent>>,
}

impl ConnectionLifecycle {
    pub open spec fn wf(self) -> bool {
        &&& match self.held {
            None => closed_history(self.history@),
            Some(a) => {
                &&& self.history@.len() >= 1
                &&& self.history@.last() == LifecycleEvent::Opened(a.id)
                &&& closed_history(self.history@.drop_last())
            },
        }
        &&& forall|i: int|
            0 <= i < self.history@.len() ==> event_id(#[trigger] self.history@[i]) < self.next_id
    }

    pub fn new() -> (r: ConnectionLifecycle)
        ensures
            r.wf(),
            r.held is None,
            r.history@ == Seq::<LifecycleEvent>::empty(),
            r.next_id == 0,
    {
        ConnectionLifecycle { held: None, next_id: 0, history: Ghost(Seq::empty()) }
    }

    /// First half of a switch: give up the held adapter, recording its close.
    /// The caller must release the returned adapter's session before opening a
    /// new one; release failures are swallowed, never surfaced.
    pub fn begin_switch(&mut self) -> (closed: Option<Adapter>)
        requires
            old(self).wf(),
        ensures
            final(self).wf(),
            final(self).held is None,
            closed == old(self).held,
            final(self).next_id == old(self).next_id,
            closed_history(final(self).history@),
            match old(self).held {
                Some(a) => final(self).history@ == old(self).history@.push(
                    LifecycleEvent::Closed(a.id),
                ),
                None => final(self).history@ == old(self).history@,
            },
    {
        let closed = self.held;
        self.held = None;
        if let Some(a) = closed {
            proof {
                lemma_closed_history_close(self.history@, a.id);
            }
            self.history = Ghost(self.history@.push(LifecycleEvent::Closed(a.id)));
        }
        closed
    }

    /// Second half of a switch: install the newly opened adapter. The slot
    /// must be free, so a close always precedes this open.
    pub fn complete_switch(&mut self, kind: BackendKind) -> (a: Adapter)
        requires
            old(self).wf(),
            old(self).held is None,
            old(self).next_id < u64::MAX,
        ensures
            final(self).wf(),
            a.id == old(self).next_id,
            a.kind == kind,
            final(self).held == Some(a),
            final(self).history@ == old(self).history@.push(LifecycleEvent::Opened(a.id)),
            final(self).next_id == old(self).next_id + 1,
    {
        let a = Adapter { id: self.next_id, kind };
        self.next_id = self.next_id + 1;
        self.history = Ghost(self.history@.push(LifecycleEvent::Opened(a.id)));
        self.held = Some(a);
        proof {
            assert(self.history@.drop_last() =~= old(self).history@);
        }
        a
    }
}

/// The slot invariant keeps the history in a shape the non-overlap law
/// applies to, whether or not an adapter is currently live.
pub proof fn lemma_wf_history_ok(lc: ConnectionLifecycle)
    requires
        lc.wf(),
    ensures
        history_ok(lc.history@),
{
}

/// Closing the live adapter turns a history with one trailing open into a
/// fully closed one.
proof fn lemma_closed_history_close(h: Seq<LifecycleEvent>, id: u64)
    requires
        h.len() >= 1,
        h.last() == LifecycleEvent::Opened(id),
        closed_history(h.drop_last()),
    ensures
        closed_history(h.push(LifecycleEvent::Closed(id))),
    decreases h.len(),
{
    let closed = h.push(LifecycleEvent::Closed(id));
    if h.len() == 1 {
        assert(closed[0] == h[0] && h[0] == h.last());
        assert(closed.skip(2) =~= Seq::<LifecycleEvent>::empty());
        assert(closed_history(Seq::<LifecycleEvent>::empty()));
        assert(closed[1] == LifecycleEvent::Closed(event_id(closed[0])));
        assert(closed_history(closed));
    } else {
        let tail = h.drop_last();
        assert(tail.len() >= 2);
        assert(closed[0] == h[0] && h[0] == tail[0]);
        assert(closed[1] == h[1] && h[1] == tail[1]);
        assert(h.skip(2).len() >= 1);
        assert(h.skip(2).last() == h.last());
        assert(h.skip(2).drop_last() =~= tail.skip(2));
        lemma_closed_history_close(h.skip(2), id);
        assert(closed.skip(2) =~= h.skip(2).push(LifecycleEvent::Closed(id)));
    }
}

/// In a fully closed history, every open is followed by the matching close.
proof fn lemma_open_has_later_close(h: Seq<LifecycleEvent>, i: int)
    requires
        closed_history(h),
        0 <= i < h.len(),
        h[i] is Opened,
    ensures
        exists|k: int|
            i < k < h.len() && #[trigger] h[k] == LifecycleEvent::Closed(event_id(h[i])),
    decreases h.len(),
{
    if i == 0 {
        assert(h[1] == LifecycleEvent::Closed(event_id(h[0])));
    } else {
        assert(h[1] is Closed);
        assert(i >= 2);
        lemma_open_has_later_close(h.skip(2), i - 2);
        let k0 = choose|k0: int|
            i - 2 < k0 < h.skip(2).len() && #[trigger] h.skip(2)[k0] == LifecycleEvent::Closed(
                event_id(h.skip(2)[i - 2]),
            );
        assert(h[k0 + 2] == LifecycleEvent::Closed(event_id(h[i])));
    }
}

/// Law: adapter lifetimes never overlap. Whenever the history records two
/// opened adapters, the earlier one was closed strictly between the two
/// openings — the previous adapter is closed before the next one is opened.
pub proof fn lemma_close_before_open(h: Seq<LifecycleEvent>, i: int, j: int)
    requires
        history_ok(h),
        0 <= i < j < h.len(),
        h[i] is Opened,
        h[j] is Opened,
    ensures
        exists|k: int|
            i < k < j && #[trigger] h[k] == LifecycleEvent::Closed(event_id(h[i])),
    decreases h.len(),
{
    if closed_history(h) {
        if i == 0 {
            assert(h[1] == LifecycleEvent::Closed(event_id(h[0])));
            assert(h[1] is Closed);
            assert(j != 1);
        } else {
            assert(h[1] is Closed);
            assert(i >= 2);
            lemma_close_before_open(h.skip(2), i - 2, j - 2);
            let k0 = choose|k0: int|
                i - 2 < k0 < j - 2 && #[trigger] h.skip(2)[k0] == LifecycleEvent::Closed(
                    event_id(h.skip(2)[i - 2]),
                );
            assert(h[k0 + 2] == LifecycleEvent::Closed(event_id(h[i])));
        }
    } else {
        let head = h.drop_last();
        if j < h.len() - 1 {
            lemma_close_before_open(head, i, j);
            let k0 = choose|k0: int|
                i < k0 < j && #[trigger] head[k0] == LifecycleEvent::Closed(event_id(head[i]));
            assert(h[k0] == LifecycleEvent::Closed(event_id(h[i])));
        } else {
            lemma_open_has_later_close(head, i);
            let k0 = choose|k0: int|
                i < k0 < head.len() && #[trigger] head[k0] == LifecycleEvent::Closed(
                    event_id(head[i]),
                );
            assert(h[k0] == LifecycleEvent::Closed(event_id(h[i])));
        }
    }
}

} // verus!
