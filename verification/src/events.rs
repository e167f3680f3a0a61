//! Append-only event log with independent reader cursors. Writers append;
//! each registered reader drains, at its own pace, exactly the events
//! appended since its registration, in append order. Readers never block or
//! disturb one another: a read only advances its own cursor, an append only
//! grows the log.

use vstd::prelude::*;

verus! {

/// Cursor handle returned by `register_reader`; names one reader of one log.
#[derive(Clone, Copy, Debug, PartialEq, Eq, Structural)]
pub struct ReaderId {
    id: usize,
}

impl ReaderId {
    /// Which reader this handle names.
    pub closed spec fn spec_id(self) -> nat {
        self.id as nat
    }
}

/// Append-only log of events of one type, with one cursor per registered
/// reader.
pub struct EventLog<E> {
    events: Vec<E>,
    cursors: Vec<usize>,
}

impl<E> EventLog<E> {
    /// Every event ever appended, in append order.
    pub closed spec fn spec_events(self) -> Seq<E> {
        self.events@
    }

    /// How many readers are registered.
    pub closed spec fn spec_reader_count(self) -> nat {
        self.cursors@.len()
    }

    /// The position of reader `r`: how many events it has already observed.
    pub closed spec fn spec_cursor(self, r: nat) -> nat {
        self.cursors@[r as int] as nat
    }

    /// Every cursor lies within the log.
    pub closed spec fn wf(self) -> bool {
        forall|r: nat|
            r < self.spec_reader_count() ==> #[trigger] self.spec_cursor(r)
                <= self.spec_events().len()
    }

    /// What reader `r` has not yet observed: the events from its cursor to
    /// the end of the log, in append order.
    pub open spec fn spec_pending(self, r: nat) -> Seq<E> {
        self.spec_events().subrange(
            self.spec_cursor(r) as int,
            self.spec_events().len() as int,
        )
    }

    /// An empty log with no readers.
    pub fn new() -> (r: EventLog<E>)
        ensures
            r.wf(),
            r.spec_events() == Seq::<E>::empty(),
            r.spec_reader_count() == 0,
    {
        let r = EventLog { events: Vec::new(), cursors: Vec::new() };
        proof {
            assert(r.spec_events() =~= Seq::<E>::empty());
        }
        r
    }

    /// Append one event. No cursor moves: the event becomes pending for
    /// every registered reader, after everything appended before it.
    pub fn append(&mut self, e: E)
        requires
            old(self).wf(),
        ensures
            final(self).wf(),
            final(self).spec_events() == old(self).spec_events().push(e),
            final(self).spec_reader_count() == old(self).spec_reader_count(),
            forall|r: nat|
                r < old(self).spec_reader_count() ==> #[trigger] final(self).spec_cursor(r)
                    == old(self).spec_cursor(r),
            forall|r: nat|
                r < old(self).spec_reader_count() ==> #[trigger] final(self).spec_pending(r)
                    == old(self).spec_pending(r).push(e),
    {
        self.events.push(e);
        proof {
            assert forall|r: nat| r < self.spec_reader_count() implies #[trigger] self
                .spec_cursor(r) <= self.spec_events().len() by {
                assert(old(self).spec_cursor(r) <= old(self).spec_events().len());
            }
            assert forall|r: nat| r < self.spec_reader_count() implies #[trigger] self
                .spec_pending(r) == old(self).spec_pending(r).push(e) by {
                assert(self.spec_pending(r) =~= old(self).spec_pending(r).push(e));
            }
        }
    }

    /// Register a new reader. Its cursor starts at the end of the log, so
    /// it will observe exactly the events appended from now on; existing
    /// readers and events are untouched.
    pub fn register_reader(&mut self) -> (r: ReaderId)
        requires
            old(self).wf(),
            old(self).spec_reader_count() < usize::MAX,
        ensures
            final(self).wf(),
            r.spec_id() == old(self).spec_reader_count(),
            final(self).spec_reader_count() == old(self).spec_reader_count() + 1,
            final(self).spec_events() == old(self).spec_events(),
            final(self).spec_cursor(r.spec_id()) == final(self).spec_events().len(),
            final(self).spec_pending(r.spec_id()) == Seq::<E>::empty(),
            forall|r2: nat|
                r2 < old(self).spec_reader_count() ==> #[trigger] final(self).spec_cursor(r2)
                    == old(self).spec_cursor(r2),
    {
        let id = self.cursors.len();
        let end = self.events.len();
        self.cursors.push(end);
        let r = ReaderId { id };
        proof {
            assert forall|r2: nat| r2 < self.spec_reader_count() implies #[trigger] self
                .spec_cursor(r2) <= self.spec_events().len() by {
                if r2 < old(self).spec_reader_count() {
                    assert(old(self).spec_cursor(r2) <= old(self).spec_events().len());
                }
            }
            assert(self.spec_pending(r.spec_id()) =~= Seq::<E>::empty());
        }
        r
    }
}

impl<E: Copy> EventLog<E> {
    /// Drain reader `reader`: return everything it has not yet observed, in
    /// append order, and move its cursor to the end of the log, so no event
    /// is ever observed twice. The events and every other cursor are
    /// untouched.
    pub fn read(&mut self, reader: ReaderId) -> (out: Vec<E>)
        requires
            old(self).wf(),
            reader.spec_id() < old(self).spec_reader_count(),
        ensures
            final(self).wf(),
            out@ == old(self).spec_pending(reader.spec_id()),
            final(self).spec_events() == old(self).spec_events(),
            final(self).spec_reader_count() == old(self).spec_reader_count(),
            final(self).spec_cursor(reader.spec_id()) == final(self).spec_events().len(),
            final(self).spec_pending(reader.spec_id()) == Seq::<E>::empty(),
            forall|r2: nat|
                r2 < old(self).spec_reader_count() && r2 != reader.spec_id()
                    ==> #[trigger] final(self).spec_cursor(r2) == old(self).spec_cursor(r2),
    {
        let mut out: Vec<E> = Vec::new();
        let mut i = self.cursors[reader.id];
        let end = self.events.len();
        while i < end
            invariant
                self == old(self),
                old(self).spec_cursor(reader.spec_id()) <= i <= end,
                end == self.spec_events().len(),
                out@ == self.spec_events().subrange(
                    old(self).spec_cursor(reader.spec_id()) as int,
                    i as int,
                ),
            decreases end - i,
        {
            let e = self.events[i];
            out.push(e);
            proof {
                assert(out@ =~= self.spec_events().subrange(
                    old(self).spec_cursor(reader.spec_id()) as int,
                    i + 1,
                ));
            }
            i = i + 1;
        }
        self.cursors.set(reader.id, end);
        proof {
            assert forall|r2: nat| r2 < self.spec_reader_count() implies #[trigger] self
                .spec_cursor(r2) <= self.spec_events().len() by {
                if r2 != reader.spec_id() {
                    assert(old(self).spec_cursor(r2) <= old(self).spec_events().len());
                }
            }
            assert(self.spec_pending(reader.spec_id()) =~= Seq::<E>::empty());
        }
        out
    }
}

/// The multi-reader guarantee: take any log, a reader whose cursor stands at
/// the end of it (as a cursor does at registration), and a later state of
/// the same log whose events are the old ones followed by some sequence
/// `evs` with that reader's cursor unmoved (appends move no cursor). Then
/// what the reader has pending is exactly `evs`: all events appended after
/// registration, in append order, none skipped. Combined with `read`, which
/// hands a reader exactly its pending events, advances only its own cursor
/// to the end, and leaves nothing pending, each of any number of readers
/// observes each such event exactly once, regardless of when the other
/// readers read.
/// Reader independence: any operation that leaves the log's events and a
/// reader's cursor alone — as `read` does for every other reader and
/// `append` does for all of them — leaves that reader's pending events
/// alone. A slow or absent reader is never disturbed by the others.
pub proof fn lemma_other_readers_undisturbed<E>(l0: EventLog<E>, l1: EventLog<E>, r: nat)
    requires
        l1.spec_events() == l0.spec_events(),
        l1.spec_cursor(r) == l0.spec_cursor(r),
    ensures
        l1.spec_pending(r) == l0.spec_pending(r),
{
}

pub proof fn lemma_reader_observes_appends<E>(l0: EventLog<E>, l1: EventLog<E>, r: nat, evs: Seq<E>)
    requires
        r < l0.spec_reader_count(),
        l0.spec_cursor(r) == l0.spec_events().len(),
        l1.spec_events() == l0.spec_events() + evs,
        r < l1.spec_reader_count(),
        l1.spec_cursor(r) == l0.spec_cursor(r),
    ensures
        l1.spec_pending(r) == evs,
{
    assert(l1.spec_pending(r) =~= evs);
}

} // verus!
