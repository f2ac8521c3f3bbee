use vstd::prelude::*;

use crate::errors::{
    classified, opt_text, WinEvtError, WinEvtErrorKind, ERROR_INSUFFICIENT_BUFFER,
    ERROR_NO_MORE_ITEMS,
};

verus! {

/// What one call of a sizing operation of the service answered.
#[derive(Debug)]
pub enum FetchOutcome {
    /// The call succeeded and wrote `used` units.
    Filled { used: usize },
    /// The buffer was too small: the call needs `required` units.
    TooSmall { required: usize },
    /// The enumeration has no further item.
    NoMoreItems,
    /// Any other failure.
    Failed { error: WinEvtError },
}

impl FetchOutcome {
    /// Classifies the answer of a sizing call: `ok` tells whether it succeeded,
    /// `code` is its status when it did not, and `used` the units it wrote or,
    /// when the buffer was too small, the units it needs. `extended` is the
    /// extended status text, when one was asked for.
    pub fn from_status(ok: bool, code: u32, used: usize, extended: Option<String>) -> (r:
        FetchOutcome)
        ensures
            status_outcome(r, ok, code, used, opt_text(extended)),
    {
        if ok {
            FetchOutcome::Filled { used }
        } else if code == ERROR_INSUFFICIENT_BUFFER {
            FetchOutcome::TooSmall { required: used }
        } else if code == ERROR_NO_MORE_ITEMS {
            FetchOutcome::NoMoreItems
        } else {
            FetchOutcome::Failed { error: WinEvtError::from_dword(code, extended) }
        }
    }
}

/// What [`FetchOutcome::from_status`] gives for a call that answered `ok`,
/// `code` and `used`, with extended status text `extended`.
pub open spec fn status_outcome(
    r: FetchOutcome,
    ok: bool,
    code: u32,
    used: usize,
    extended: Option<Seq<char>>,
) -> bool {
    &&& ok ==> r == (FetchOutcome::Filled { used })
    &&& !ok && code == ERROR_INSUFFICIENT_BUFFER ==> r == (FetchOutcome::TooSmall { required: used })
    &&& !ok && code == ERROR_NO_MORE_ITEMS ==> r == FetchOutcome::NoMoreItems
    &&& !ok && code != ERROR_INSUFFICIENT_BUFFER && code != ERROR_NO_MORE_ITEMS ==> r is Failed
        && r->error@ == classified(code, extended)
}

/// What the caller does after an outcome.
#[derive(Debug)]
pub enum FetchStep {
    /// The buffer was grown: call the operation again.
    Retry,
    /// The first `used` units of the buffer hold the answer.
    Ready { used: usize },
    /// End of the sequence.
    Exhausted,
    /// The call failed; nothing is retried.
    Failed { error: WinEvtError },
}

/// Scratch memory owned by one call site, grown on demand up to a limit and
/// never shrunk. `units` is what the service writes into.
pub struct GrowableBuffer<T> {
    pub units: Vec<T>,
    /// The largest capacity the buffer grows to.
    pub limit: usize,
    /// The value each unit holds after the buffer is (re)allocated.
    pub fill: T,
}

/// The capacity after a request for `required` units: never less than before.
pub open spec fn grown_capacity(cap: nat, required: nat) -> nat {
    if required > cap {
        required
    } else {
        cap
    }
}

impl<T: Copy> GrowableBuffer<T> {
    /// A buffer of `capacity` units, each `fill`, that grows up to `limit` units.
    pub fn new(capacity: usize, limit: usize, fill: T) -> (r: Self)
        ensures
            r.units@ == Seq::new(capacity as nat, |_i: int| fill),
            r.limit == limit,
            r.fill == fill,
    {
        GrowableBuffer { units: filled(capacity, fill), limit, fill }
    }

    /// Current capacity in units.
    pub fn capacity(&self) -> (r: usize)
        ensures
            r == self.units@.len(),
    {
        self.units.len()
    }

    /// Grows the buffer to hold at least `required` units, discarding what it
    /// held; fails, leaving it as it was, when `required` is over the limit.
    pub fn grow(&mut self, required: usize) -> (r: Result<(), WinEvtError>)
        ensures
            required > old(self).limit ==> r is Err && r->Err_0@
                == (WinEvtErrorKind::BufferLimitExceeded { required, limit: old(self).limit })
                && *final(self) == *old(self),
            required <= old(self).limit ==> r is Ok && final(self).units@ == Seq::new(
                grown_capacity(old(self).units@.len(), required as nat),
                |_i: int| old(self).fill,
            ) && final(self).limit == old(self).limit && final(self).fill == old(
                self,
            ).fill,
    {
        if required > self.limit {
            return Err(WinEvtError::BufferLimitExceeded { required, limit: self.limit });
        }
        let cap = if required > self.units.len() {
            required
        } else {
            self.units.len()
        };
        self.units = filled(cap, self.fill);
        Ok(())
    }

    /// One step of the growth protocol: what to do after `outcome`.
    pub fn on_outcome(&mut self, outcome: FetchOutcome) -> (r: FetchStep)
        ensures
            final(self).limit == old(self).limit,
            final(self).fill == old(self).fill,
            !(outcome is TooSmall) ==> *final(self) == *old(self),
            outcome is TooSmall && outcome->required > old(self).limit ==> *final(self) == *old(
                self,
            ),
            outcome is TooSmall ==> final(self).units@.len() == too_small_run(
                old(self).units@.len(),
                old(self).limit as nat,
                seq![outcome->required as nat],
            ).1 && (r is Retry <==> !too_small_run(
                old(self).units@.len(),
                old(self).limit as nat,
                seq![outcome->required as nat],
            ).2),
            outcome is TooSmall && outcome->required <= old(self).limit ==> r is Retry
                && final(self).units@ == Seq::new(
                grown_capacity(old(self).units@.len(), outcome->required as nat),
                |_i: int| old(self).fill,
            ),
            outcome is TooSmall && outcome->required > old(self).limit ==> r is Failed
                && r->error@ == (WinEvtErrorKind::BufferLimitExceeded {
                required: outcome->required,
                limit: old(self).limit,
            }) && final(self).units@ == old(self).units@,
            outcome is Filled && outcome->used <= old(self).units@.len() ==> r == (FetchStep::Ready {
                used: outcome->used,
            }) && final(self).units@ == old(self).units@,
            outcome is Filled && outcome->used > old(self).units@.len() ==> r is Failed
                && r->error@ == WinEvtErrorKind::InvalidEncoding && final(self).units@ == old(
                self,
            ).units@,
            outcome is NoMoreItems ==> r is Exhausted && final(self).units@ == old(self).units@,
            outcome is Failed ==> r == (FetchStep::Failed { error: outcome->error })
                && final(self).units@ == old(self).units@,
    {
        match outcome {
            FetchOutcome::Filled { used } => {
                if used <= self.units.len() {
                    FetchStep::Ready { used }
                } else {
                    FetchStep::Failed { error: WinEvtError::InvalidEncoding }
                }
            },
            FetchOutcome::TooSmall { required } => {
                proof {
                    let s = seq![required as nat];
                    assert(s.drop_first() =~= Seq::<nat>::empty());
                    assert(too_small_run(
                        grown_capacity(self.units@.len(), required as nat),
                        self.limit as nat,
                        s.drop_first(),
                    ) == (0nat, grown_capacity(self.units@.len(), required as nat), false));
                }
                match self.grow(required) {
                    Ok(()) => FetchStep::Retry,
                    Err(error) => FetchStep::Failed { error },
                }
            },
            FetchOutcome::NoMoreItems => FetchStep::Exhausted,
            FetchOutcome::Failed { error } => FetchStep::Failed { error },
        }
    }
}

/// `n` copies of `fill`.
fn filled<T: Copy>(n: usize, fill: T) -> (r: Vec<T>)
    ensures
        r@ == Seq::new(n as nat, |_i: int| fill),
{
    let mut v: Vec<T> = Vec::with_capacity(n);
    let mut i: usize = 0;
    while i < n
        invariant
            i <= n,
            v@ == Seq::new(i as nat, |_i: int| fill),
        decreases n - i,
    {
        v.push(fill);
        i = i + 1;
        proof {
            assert(v@ =~= Seq::new(i as nat, |_i: int| fill));
        }
    }
    v
}

/// Feeds "too small" answers reporting `sizes`, in order, to a buffer of
/// capacity `cap` and limit `limit`. Gives the number of retries made, the
/// capacity reached, and whether the run stopped on the limit.
pub open spec fn too_small_run(cap: nat, limit: nat, sizes: Seq<nat>) -> (nat, nat, bool)
    decreases sizes.len(),
{
    if sizes.len() == 0 {
        (0, cap, false)
    } else if sizes[0] > limit {
        (0, cap, true)
    } else {
        let rest = too_small_run(grown_capacity(cap, sizes[0]), limit, sizes.drop_first());
        (rest.0 + 1, rest.1, rest.2)
    }
}

pub open spec fn strictly_increasing(s: Seq<nat>) -> bool {
    forall|i: int, j: int| 0 <= i < j < s.len() ==> s[i] < s[j]
}

/// Growth terminates: when every "too small" answer reports a larger size than
/// the one before, the buffer is retried at most `limit + 1` times before the
/// limit stops it; when the limit does not stop it, its capacity covers every
/// reported size, the last one included; and the limit stops it exactly when
/// some reported size is over the limit.
pub proof fn lemma_growth_terminates(cap: nat, limit: nat, sizes: Seq<nat>)
    requires
        strictly_increasing(sizes),
    ensures
        too_small_run(cap, limit, sizes).0 <= limit + 1,
        too_small_run(cap, limit, sizes).0 <= sizes.len(),
        too_small_run(cap, limit, sizes).1 >= cap,
        !too_small_run(cap, limit, sizes).2 ==> too_small_run(cap, limit, sizes).0 == sizes.len()
            && forall|i: int| 0 <= i < sizes.len() ==> sizes[i] <= #[trigger] too_small_run(
            cap,
            limit,
            sizes,
        ).1,
        too_small_run(cap, limit, sizes).2 <==> exists|i: int|
            0 <= i < sizes.len() && sizes[i] > limit,
    decreases sizes.len(),
{
    if sizes.len() > 0 && sizes[0] <= limit {
        lemma_growth_bounded_from(cap, limit, sizes);
    }
    lemma_growth_covers(cap, limit, sizes);
}

/// A run that starts at a size within the limit retries at most
/// `limit + 1 - sizes[0]` times.
proof fn lemma_growth_bounded_from(cap: nat, limit: nat, sizes: Seq<nat>)
    requires
        strictly_increasing(sizes),
        sizes.len() > 0,
        sizes[0] <= limit,
    ensures
        too_small_run(cap, limit, sizes).0 + sizes[0] <= limit + 1,
    decreases sizes.len(),
{
    let rest = sizes.drop_first();
    let next_cap = grown_capacity(cap, sizes[0]);
    assert forall|i: int, j: int| 0 <= i < j < rest.len() implies rest[i] < rest[j] by {
        assert(rest[i] == sizes[i + 1] && rest[j] == sizes[j + 1]);
    }
    if rest.len() > 0 && rest[0] <= limit {
        assert(rest[0] == sizes[1]);
        lemma_growth_bounded_from(next_cap, limit, rest);
    } else if rest.len() > 0 {
        assert(too_small_run(next_cap, limit, rest).0 == 0);
    }
}

proof fn lemma_growth_covers(cap: nat, limit: nat, sizes: Seq<nat>)
    ensures
        too_small_run(cap, limit, sizes).0 <= sizes.len(),
        too_small_run(cap, limit, sizes).1 >= cap,
        !too_small_run(cap, limit, sizes).2 ==> too_small_run(cap, limit, sizes).0 == sizes.len()
            && forall|i: int| 0 <= i < sizes.len() ==> sizes[i] <= #[trigger] too_small_run(
            cap,
            limit,
            sizes,
        ).1,
        too_small_run(cap, limit, sizes).2 <==> exists|i: int|
            0 <= i < sizes.len() && sizes[i] > limit,
    decreases sizes.len(),
{
    if sizes.len() > 0 {
        let rest = sizes.drop_first();
        let next_cap = grown_capacity(cap, sizes[0]);
        if sizes[0] <= limit {
            lemma_growth_covers(next_cap, limit, rest);
            let run = too_small_run(cap, limit, sizes);
            if !run.2 {
                assert forall|i: int| 0 <= i < sizes.len() implies sizes[i] <= run.1 by {
                    if i > 0 {
                        assert(sizes[i] == rest[i - 1]);
                    }
                }
            }
            if run.2 {
                let j = choose|j: int| 0 <= j < rest.len() && rest[j] > limit;
                assert(sizes[j + 1] == rest[j]);
            } else {
                assert forall|i: int| 0 <= i < sizes.len() implies !(sizes[i] > limit) by {
                    if i > 0 {
                        assert(sizes[i] == rest[i - 1]);
                    }
                }
            }
        }
    }
}

/// Runs compose: feeding `s` and then `t` is feeding `s + t`, as long as the
/// limit did not stop the run on `s`. With the contract of
/// [`GrowableBuffer::on_outcome`] on a single answer, this makes a series of
/// retries on one buffer follow [`too_small_run`] over the reported sizes.
pub proof fn lemma_too_small_run_append(cap: nat, limit: nat, s: Seq<nat>, t: Seq<nat>)
    requires
        !too_small_run(cap, limit, s).2,
    ensures
        too_small_run(cap, limit, s + t) == (
            too_small_run(cap, limit, s).0 + too_small_run(too_small_run(cap, limit, s).1, limit, t).0,
            too_small_run(too_small_run(cap, limit, s).1, limit, t).1,
            too_small_run(too_small_run(cap, limit, s).1, limit, t).2,
        ),
    decreases s.len(),
{
    if s.len() == 0 {
        assert(s + t =~= t);
    } else {
        assert((s + t)[0] == s[0]);
        assert((s + t).drop_first() =~= s.drop_first() + t);
        lemma_too_small_run_append(grown_capacity(cap, s[0]), limit, s.drop_first(), t);
    }
}

} // verus!
