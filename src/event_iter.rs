use vstd::prelude::*;

use std::collections::VecDeque;

use crate::errors::{opt_text, surfaced_error, WinEvtError, ERROR_NO_MORE_ITEMS};
use crate::handle::ResourceHandle;
use crate::text::{utf16_of, wide_nul_terminated};

verus! {

/// Records asked for in one batch.
pub const EVENTS_BUFFER: usize = 1024;

/// One fetched event record, holding its handle until it is dropped.
#[derive(Debug)]
pub struct WinEvent {
    handle: ResourceHandle,
}

impl View for WinEvent {
    type V = u64;

    closed spec fn view(&self) -> u64 {
        self.handle@
    }
}

impl WinEvent {
    /// Holds on to a record handle.
    pub fn new(handle: ResourceHandle) -> (r: WinEvent)
        ensures
            r@ == handle@,
    {
        WinEvent { handle }
    }

    /// The raw record handle, to hand to the service.
    pub fn raw_handle(&self) -> (r: u64)
        ensures
            r == self@,
    {
        self.handle.raw()
    }

    /// Gives the record's handle back, to be released.
    pub fn into_handle(self) -> (r: ResourceHandle)
        ensures
            r@ == self@,
    {
        self.handle
    }
}

/// What one batched fetch of records answered.
#[derive(Debug)]
pub enum BatchOutcome {
    /// The raw handles of the records returned, in order.
    Returned(Vec<u64>),
    /// The query has no further record.
    NoMoreItems,
    /// Any other failure.
    Failed(WinEvtError),
}

impl BatchOutcome {
    /// Classifies the answer of a batched fetch: `slots` is the array the
    /// service filled and `returned` how many of its first slots hold records.
    pub fn from_status(
        ok: bool,
        code: u32,
        slots: Vec<u64>,
        returned: u32,
        extended: Option<String>,
    ) -> (r: BatchOutcome)
        ensures
            ok ==> r is Returned && r->Returned_0@ == slots@.take(
                if returned as int <= slots@.len() {
                    returned as int
                } else {
                    slots@.len() as int
                },
            ),
            !ok && code == ERROR_NO_MORE_ITEMS ==> r is NoMoreItems,
            !ok && code != ERROR_NO_MORE_ITEMS ==> r is Failed && r->Failed_0@ == surfaced_error(
                code,
                opt_text(extended),
            ),
            r is Failed ==> !(r->Failed_0 is InsufficientBuffer),
    {
        if ok {
            let n: usize = if (returned as usize) <= slots.len() {
                returned as usize
            } else {
                slots.len()
            };
            let mut taken: Vec<u64> = Vec::with_capacity(n);
            let mut i: usize = 0;
            while i < n
                invariant
                    n <= slots@.len(),
                    i <= n,
                    taken@ == slots@.take(i as int),
                decreases n - i,
            {
                taken.push(slots[i]);
                i = i + 1;
                proof {
                    assert(taken@ =~= slots@.take(i as int));
                }
            }
            BatchOutcome::Returned(taken)
        } else if code == ERROR_NO_MORE_ITEMS {
            BatchOutcome::NoMoreItems
        } else {
            BatchOutcome::Failed(WinEvtError::from_failed_call(code, extended))
        }
    }
}

/// The nul-terminated wide channel path and optional filter a query is
/// opened with.
#[derive(Debug)]
pub struct QueryArgs {
    pub path: Vec<u16>,
    pub filter: Option<Vec<u16>>,
}

/// What the caller does next with a query.
#[derive(Debug)]
pub enum QueryStep {
    /// Fetch a batch of records and hand it to [`WinEventsIter::on_batch`].
    NeedBatch,
    /// The next item of the sequence; `None` ends it.
    Item(Option<Result<WinEvent, WinEvtError>>),
}

/// The handles of `s` that are not null, in order.
pub open spec fn non_null(s: Seq<u64>) -> Seq<u64> {
    s.filter(|h: u64| h != 0)
}

/// The records of a channel, in the order the service returns them, fetched
/// in batches.
///
/// Once the service said there is no further record, or failed, the sequence
/// stays ended. Every record handle the query acquires is either handed to
/// the caller or held until [`WinEventsIter::close`] gives it back.
pub struct WinEventsIter {
    query: ResourceHandle,
    done: bool,
    events: VecDeque<WinEvent>,
    acquired: Ghost<Seq<u64>>,
    yielded: Ghost<Seq<u64>>,
}

impl WinEventsIter {
    /// Whether the sequence has ended.
    pub closed spec fn ended(&self) -> bool {
        self.done
    }

    /// The raw value of the query handle.
    pub closed spec fn query_value(&self) -> u64 {
        self.query@
    }

    /// The record handles fetched and not yet handed out, in order.
    pub closed spec fn pending(&self) -> Seq<u64> {
        Seq::new(self.events@.len(), |i: int| self.events@[i]@)
    }

    /// Every record handle the query acquired, in order.
    pub closed spec fn acquired(&self) -> Seq<u64> {
        self.acquired@
    }

    /// Every record handle the query handed out, in order.
    pub closed spec fn yielded(&self) -> Seq<u64> {
        self.yielded@
    }

    /// What was acquired is what was handed out followed by what is held.
    pub closed spec fn wf(&self) -> bool {
        self.acquired@ == self.yielded@ + self.pending()
    }

    /// The arguments to open a query on channel `name`, with the optional
    /// filter `query`: both are refused when they hold a nul.
    pub fn query_args(name: &str, query: Option<&str>) -> (r: Result<QueryArgs, WinEvtError>)
        ensures
            r is Ok <==> !utf16_of(name@).contains(0u16) && (query is Some ==> !utf16_of(
                query->0@,
            ).contains(0u16)),
            r is Ok ==> r->Ok_0.path@ == utf16_of(name@).push(0u16) && (query is None
                <==> r->Ok_0.filter is None) && (query is Some ==> r->Ok_0.filter->0@ == utf16_of(
                query->0@,
            ).push(0u16)),
    {
        let path = match wide_nul_terminated(name) {
            Ok(p) => p,
            Err(e) => {
                return Err(e);
            },
        };
        let filter = match query {
            None => None,
            Some(q) => match wide_nul_terminated(q) {
                Ok(f) => Some(f),
                Err(e) => {
                    return Err(e);
                },
            },
        };
        Ok(QueryArgs { path, filter })
    }

    /// A query over an open query handle, with nothing fetched yet.
    pub fn new(query: ResourceHandle) -> (r: WinEventsIter)
        ensures
            r.wf(),
            !r.ended(),
            r.query_value() == query@,
            r.pending() == Seq::<u64>::empty(),
            r.acquired() == Seq::<u64>::empty(),
            r.yielded() == Seq::<u64>::empty(),
    {
        let r = WinEventsIter {
            query,
            done: false,
            events: VecDeque::with_capacity(EVENTS_BUFFER),
            acquired: Ghost(Seq::empty()),
            yielded: Ghost(Seq::empty()),
        };
        proof {
            assert(r.pending() =~= Seq::<u64>::empty());
        }
        r
    }

    /// The raw query handle, to hand to the service.
    pub fn raw_handle(&self) -> (r: u64)
        ensures
            r == self.query_value(),
    {
        self.query.raw()
    }

    /// The next step: nothing once ended, else the oldest held record, else a
    /// batch to fetch.
    pub fn next_step(&mut self) -> (r: QueryStep)
        requires
            old(self).wf(),
        ensures
            final(self).wf(),
            final(self).ended() == old(self).ended(),
            final(self).query_value() == old(self).query_value(),
            final(self).acquired() == old(self).acquired(),
            old(self).ended() ==> r == QueryStep::Item(None) && final(self).pending() == old(
                self,
            ).pending() && final(self).yielded() == old(self).yielded(),
            !old(self).ended() && old(self).pending().len() > 0 ==> (r matches QueryStep::Item(
                Some(Ok(e)),
            ) && e@ == old(self).pending()[0] && final(self).pending() == old(
                self,
            ).pending().drop_first() && final(self).yielded() == old(self).yielded().push(e@)),
            !old(self).ended() && old(self).pending().len() == 0 ==> r is NeedBatch
                && final(self).pending() == old(self).pending() && final(self).yielded() == old(
                self,
            ).yielded(),
    {
        if self.done {
            return QueryStep::Item(None);
        }
        let ghost before = self.pending();
        match self.events.pop_front() {
            Some(e) => {
                proof {
                    self.yielded@ = self.yielded@.push(e@);
                    assert(self.pending() =~= before.drop_first());
                    assert(self.acquired@ =~= self.yielded@ + self.pending());
                }
                QueryStep::Item(Some(Ok(e)))
            },
            None => QueryStep::NeedBatch,
        }
    }

    /// Handles the answer to a batched fetch. Returned records are held, in
    /// order, and the oldest held one is handed out; "no more items" ends the
    /// sequence; a failure is reported once and ends it too.
    pub fn on_batch(&mut self, outcome: BatchOutcome) -> (r: QueryStep)
        requires
            old(self).wf(),
        ensures
            final(self).wf(),
            final(self).query_value() == old(self).query_value(),
            outcome is Returned ==> final(self).acquired() == old(self).acquired() + non_null(
                outcome->Returned_0@,
            ) && final(self).ended() == old(self).ended(),
            !(outcome is Returned) ==> final(self).acquired() == old(self).acquired()
                && final(self).pending() == old(self).pending() && final(self).ended(),
            old(self).ended() ==> r == QueryStep::Item(None),
            !old(self).ended() && outcome is NoMoreItems ==> r == QueryStep::Item(None),
            !old(self).ended() && outcome is Failed ==> r == QueryStep::Item(
                Some(Err(outcome->Failed_0)),
            ),
            !old(self).ended() && outcome is Returned && (old(self).pending() + non_null(
                outcome->Returned_0@,
            )).len() > 0 ==> (r matches QueryStep::Item(Some(Ok(e))) && e@ == (old(self).pending()
                + non_null(outcome->Returned_0@))[0] && final(self).pending() == (old(
                self,
            ).pending() + non_null(outcome->Returned_0@)).drop_first()),
            !old(self).ended() && outcome is Returned && (old(self).pending() + non_null(
                outcome->Returned_0@,
            )).len() == 0 ==> r is NeedBatch,
    {
        match outcome {
            BatchOutcome::Returned(handles) => {
                let ghost start = self.pending();
                let ghost acquired0 = self.acquired@;
                let mut i: usize = 0;
                while i < handles.len()
                    invariant
                        0 <= i <= handles@.len(),
                        self.pending() == start + non_null(handles@.take(i as int)),
                        self.acquired@ == acquired0 + non_null(handles@.take(i as int)),
                        self.acquired@ == self.yielded@ + self.pending(),
                        self.done == old(self).done,
                        self.query@ == old(self).query@,
                    decreases handles@.len() - i,
                {
                    let h = handles[i];
                    proof {
                        assert(handles@.take(i + 1) =~= handles@.take(i as int).push(h));
                        reveal_with_fuel(Seq::filter, 1);
                        assert(handles@.take(i + 1).drop_last() =~= handles@.take(i as int));
                        assert(non_null(handles@.take(i + 1)) == if h != 0 {
                            non_null(handles@.take(i as int)).push(h)
                        } else {
                            non_null(handles@.take(i as int))
                        });
                    }
                    match ResourceHandle::from_raw(h) {
                        Some(handle) => {
                            let ghost p0 = self.pending();
                            self.events.push_back(WinEvent::new(handle));
                            proof {
                                assert(self.pending() =~= p0.push(h));
                                self.acquired@ = self.acquired@.push(h);
                                assert(self.acquired@ =~= self.yielded@ + self.pending());
                            }
                        },
                        None => {},
                    }
                    i = i + 1;
                }
                proof {
                    assert(handles@.take(handles@.len() as int) =~= handles@);
                }
                self.next_step()
            },
            BatchOutcome::NoMoreItems => {
                self.done = true;
                QueryStep::Item(None)
            },
            BatchOutcome::Failed(e) => {
                if self.done {
                    QueryStep::Item(None)
                } else {
                    self.done = true;
                    QueryStep::Item(Some(Err(e)))
                }
            },
        }
    }

    /// Ends the query, giving back its own handle followed by every record
    /// handle it still holds, to be released.
    pub fn close(self) -> (r: Vec<ResourceHandle>)
        requires
            self.wf(),
        ensures
            r@.len() == self.pending().len() + 1,
            r@[0]@ == self.query_value(),
            forall|i: int| 0 <= i < self.pending().len() ==> #[trigger] r@[i + 1]@ == self.pending()[i],
    {
        let ghost held = self.pending();
        let WinEventsIter { query, mut events, .. } = self;
        let mut r: Vec<ResourceHandle> = Vec::new();
        r.push(query);
        let ghost n = events@.len();
        while events.len() > 0
            invariant
                r@.len() >= 1,
                r@[0]@ == self.query_value(),
                r@.len() - 1 + events@.len() == n,
                n == held.len(),
                forall|i: int| 0 <= i < r@.len() - 1 ==> #[trigger] r@[i + 1]@ == held[i],
                forall|i: int| 0 <= i < events@.len() ==> #[trigger] events@[i]@ == held[i + r@.len() - 1],
            decreases events@.len(),
        {
            match events.pop_front() {
                Some(e) => {
                    r.push(e.into_handle());
                },
                None => {},
            }
        }
        r
    }
}

/// Handle accounting of a query: the record handles it acquired are exactly
/// those it handed out followed by those it still holds, in order; closing it
/// gives the held ones back (see [`WinEventsIter::close`]), so none is left
/// without an owner. When the service never hands out one handle twice, no
/// handle handed out is given back again by closing, so none is released twice.
pub proof fn lemma_handles_accounted(q: &WinEventsIter)
    requires
        q.wf(),
    ensures
        q.acquired() == q.yielded() + q.pending(),
        q.acquired().no_duplicates() ==> forall|i: int, j: int|
            0 <= i < q.yielded().len() && 0 <= j < q.pending().len() ==> q.yielded()[i]
                != q.pending()[j],
{
    let y = q.yielded();
    let p = q.pending();
    let a = q.acquired();
    if a.no_duplicates() {
        assert forall|i: int, j: int|
            0 <= i < y.len() && 0 <= j < p.len() implies y[i] != p[j] by {
            assert(a[i] == y[i]);
            assert(a[y.len() + j] == p[j]);
        }
    }
}

} // verus!
