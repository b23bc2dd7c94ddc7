//! What a script does over a run of calls.
//!
//! An adapter decides each call from the head of what is left of its script
//! and drops that head. The functions here iterate that step over a whole
//! run, and the proofs say what comes out: the behaviors are applied in the
//! order of the script, one per call, and a script that has run dry lets
//! every further call through.

use vstd::prelude::*;
use crate::blocking::{call_plan, cap, Call};
use crate::error_kind::ErrorKind;
use crate::futures_util::{poll_plan, Attempt};
use crate::partial_op::Behavior;
use crate::source::{head, tail};

verus! {

/// The behavior that call number `k` of a run finds, counting from zero, when
/// the run starts on `script`.
pub open spec fn pulled(script: Seq<Behavior>, k: int) -> Option<Behavior> {
    if 0 <= k < script.len() {
        Some(script[k])
    } else {
        None
    }
}

/// What is left of `script` after `n` calls.
pub open spec fn left_after(script: Seq<Behavior>, n: nat) -> Seq<Behavior>
    decreases n,
{
    if n == 0 {
        script
    } else {
        left_after(tail(script), (n - 1) as nat)
    }
}

/// The decisions of a blocking adapter over a run of calls. `lens` gives,
/// for each call, the length of its buffer, or `None` if it has none.
pub open spec fn call_run(script: Seq<Behavior>, lens: Seq<Option<usize>>) -> Seq<Call>
    decreases lens.len(),
{
    if lens.len() == 0 {
        Seq::empty()
    } else {
        seq![call_plan(head(script), lens[0])] + call_run(tail(script), lens.skip(1))
    }
}

/// The decisions of a polling adapter over a run of poll attempts. `lens`
/// gives, for each attempt, the length of its buffer, or `None` if it has
/// none.
pub open spec fn poll_run(script: Seq<Behavior>, lens: Seq<Option<usize>>) -> Seq<Attempt>
    decreases lens.len(),
{
    if lens.len() == 0 {
        Seq::empty()
    } else {
        seq![poll_plan(head(script), lens[0])] + poll_run(tail(script), lens.skip(1))
    }
}

/// After `n` calls the first `n` behaviors are gone, and no more than there
/// were: a script that has run dry stays dry.
pub proof fn lemma_left_after(script: Seq<Behavior>, n: nat)
    ensures
        n <= script.len() ==> left_after(script, n) == script.skip(n as int),
        n >= script.len() ==> left_after(script, n) == Seq::<Behavior>::empty(),
        head(left_after(script, n)) == pulled(script, n as int),
    decreases n,
{
    if n == 0 {
        assert(script.skip(0) =~= script);
    } else {
        lemma_left_after(tail(script), (n - 1) as nat);
        if 0 < n <= script.len() {
            assert(script.skip(1).skip(n - 1) =~= script.skip(n as int));
        }
    }
}

/// A blocking adapter applies the script in order, one behavior per call:
/// call number `k` is decided from behavior number `k`, and from none once
/// the script has run dry.
pub proof fn lemma_call_run_follows_script(script: Seq<Behavior>, lens: Seq<Option<usize>>)
    ensures
        call_run(script, lens).len() == lens.len(),
        forall|k: int|
            0 <= k < lens.len() ==> #[trigger] call_run(script, lens)[k] == call_plan(
                pulled(script, k),
                lens[k],
            ),
    decreases lens.len(),
{
    if lens.len() > 0 {
        lemma_call_run_follows_script(tail(script), lens.skip(1));
        assert forall|k: int| 0 <= k < lens.len() implies #[trigger] call_run(script, lens)[k]
            == call_plan(pulled(script, k), lens[k]) by {
            if k > 0 {
                assert(call_run(script, lens)[k] == call_run(tail(script), lens.skip(1))[k - 1]);
                assert(lens.skip(1)[k - 1] == lens[k]);
                assert(pulled(tail(script), k - 1) == pulled(script, k));
            }
        }
    }
}

/// A polling adapter applies the script in order, one behavior per poll
/// attempt: attempt number `k` is decided from behavior number `k`, and from
/// none once the script has run dry.
pub proof fn lemma_poll_run_follows_script(script: Seq<Behavior>, lens: Seq<Option<usize>>)
    ensures
        poll_run(script, lens).len() == lens.len(),
        forall|k: int|
            0 <= k < lens.len() ==> #[trigger] poll_run(script, lens)[k] == poll_plan(
                pulled(script, k),
                lens[k],
            ),
    decreases lens.len(),
{
    if lens.len() > 0 {
        lemma_poll_run_follows_script(tail(script), lens.skip(1));
        assert forall|k: int| 0 <= k < lens.len() implies #[trigger] poll_run(script, lens)[k]
            == poll_plan(pulled(script, k), lens[k]) by {
            if k > 0 {
                assert(poll_run(script, lens)[k] == poll_run(tail(script), lens.skip(1))[k - 1]);
                assert(lens.skip(1)[k - 1] == lens[k]);
                assert(pulled(tail(script), k - 1) == pulled(script, k));
            }
        }
    }
}

/// The cap on a call of a run: how many bytes the call may hand to the inner
/// stream, given what it pulled from the script. A call without a buffer
/// hands on none.
pub open spec fn cap_of(pulled: Option<Behavior>, len: Option<usize>) -> nat {
    match len {
        Some(l) => cap(pulled, l as nat),
        None => 0,
    }
}

/// The length of a call's buffer; zero where it has none.
pub open spec fn requested(len: Option<usize>) -> nat {
    match len {
        Some(l) => l as nat,
        None => 0,
    }
}

/// The sum of a sequence of amounts.
pub open spec fn total(amounts: Seq<nat>) -> nat
    decreases amounts.len(),
{
    if amounts.len() == 0 {
        0
    } else {
        total(amounts.drop_last()) + amounts.last()
    }
}

/// The caps on the calls of a run that starts on `script`, call by call.
pub open spec fn caps(script: Seq<Behavior>, lens: Seq<Option<usize>>) -> Seq<nat> {
    Seq::new(lens.len(), |k: int| cap_of(pulled(script, k), lens[k]))
}

/// The bytes that a blocking adapter hands to the inner stream over a run,
/// call by call.
pub open spec fn call_offers(script: Seq<Behavior>, lens: Seq<Option<usize>>) -> Seq<nat> {
    Seq::new(lens.len(), |k: int| call_run(script, lens)[k].offered(lens[k]))
}

/// The bytes that a polling adapter hands to the inner stream over a run,
/// attempt by attempt.
pub open spec fn poll_offers(script: Seq<Behavior>, lens: Seq<Option<usize>>) -> Seq<nat> {
    Seq::new(lens.len(), |k: int| poll_run(script, lens)[k].offered(lens[k]))
}

/// Both policies hand the inner stream exactly the cap on the call, which
/// is never more than the caller's buffer holds.
pub proof fn lemma_plan_offers_cap(pulled: Option<Behavior>, len: Option<usize>)
    ensures
        call_plan(pulled, len).offered(len) == cap_of(pulled, len),
        poll_plan(pulled, len).offered(len) == cap_of(pulled, len),
        cap_of(pulled, len) <= requested(len),
{
}

/// What a limit has to be positive for: under a valid behavior, a call on a
/// buffer that is not empty hands the inner stream at least one byte, unless
/// the behavior is a failure. A writer's caller never sees a write of
/// nothing that the writer did not decide on itself.
pub proof fn lemma_valid_behavior_makes_progress(behavior: Behavior, len: usize)
    requires
        behavior.valid(),
        len > 0,
    ensures
        behavior is Failure || behavior.cap(len as nat) > 0,
        call_plan(Some(behavior), Some(len)) is Fail || call_plan(
            Some(behavior),
            Some(len),
        ).offered(Some(len)) > 0,
        !poll_plan(Some(behavior), Some(len)).touches_inner() || poll_plan(
            Some(behavior),
            Some(len),
        ).offered(Some(len)) > 0,
{
}

/// Amounts that are nowhere larger do not sum to more.
pub proof fn lemma_total_is_monotonic(less: Seq<nat>, more: Seq<nat>)
    requires
        less.len() == more.len(),
        forall|k: int| 0 <= k < less.len() ==> less[k] <= more[k],
    ensures
        total(less) <= total(more),
    decreases less.len(),
{
    if less.len() > 0 {
        lemma_total_is_monotonic(less.drop_last(), more.drop_last());
    }
}

/// Over a whole run, the bytes that the inner stream is handed are, call by
/// call, the caps that the consumed behaviors impose, and in sum no more
/// than the callers' buffers held. This holds under both policies.
pub proof fn lemma_run_offers_the_caps(script: Seq<Behavior>, lens: Seq<Option<usize>>)
    ensures
        call_offers(script, lens) == caps(script, lens),
        poll_offers(script, lens) == caps(script, lens),
        forall|k: int| 0 <= k < lens.len() ==> #[trigger] caps(script, lens)[k] <= requested(lens[k]),
        total(call_offers(script, lens)) == total(caps(script, lens)),
        total(poll_offers(script, lens)) == total(caps(script, lens)),
        total(caps(script, lens)) <= total(lens.map_values(|len: Option<usize>| requested(len))),
{
    lemma_call_run_follows_script(script, lens);
    lemma_poll_run_follows_script(script, lens);
    assert forall|k: int| 0 <= k < lens.len() implies {
        &&& #[trigger] caps(script, lens)[k] <= requested(lens[k])
        &&& call_offers(script, lens)[k] == caps(script, lens)[k]
        &&& poll_offers(script, lens)[k] == caps(script, lens)[k]
    } by {
        lemma_plan_offers_cap(pulled(script, k), lens[k]);
    }
    assert(call_offers(script, lens) =~= caps(script, lens));
    assert(poll_offers(script, lens) =~= caps(script, lens));
    lemma_total_is_monotonic(
        caps(script, lens),
        lens.map_values(|len: Option<usize>| requested(len)),
    );
}

/// An inner stream takes no more than it is handed. So what it receives
/// over a run is at most the sum of the caps, and exactly that sum if it
/// takes all that it is handed.
pub proof fn lemma_inner_receives_at_most_the_caps(
    script: Seq<Behavior>,
    lens: Seq<Option<usize>>,
    taken: Seq<nat>,
)
    requires
        taken.len() == lens.len(),
        forall|k: int| 0 <= k < lens.len() ==> taken[k] <= poll_offers(script, lens)[k],
    ensures
        total(taken) <= total(caps(script, lens)),
        taken == poll_offers(script, lens) ==> total(taken) == total(caps(script, lens)),
{
    lemma_run_offers_the_caps(script, lens);
    lemma_total_is_monotonic(taken, poll_offers(script, lens));
}

/// A scripted failure leaves the inner stream alone, whatever its
/// classification and under both policies: the inner stream is not called
/// and receives no byte. Every other behavior, and a script that has run
/// dry, lets the call reach the inner stream.
pub proof fn lemma_failure_leaves_inner_untouched(pulled: Option<Behavior>, len: Option<usize>)
    ensures
        pulled matches Some(Behavior::Failure(kind)) ==> {
            &&& call_plan(pulled, len) == Call::Fail(kind)
            &&& !poll_plan(pulled, len).touches_inner()
            &&& call_plan(pulled, len).offered(len) == 0
            &&& poll_plan(pulled, len).offered(len) == 0
        },
        call_plan(pulled, len).touches_inner() <==> !(pulled matches Some(Behavior::Failure(_))),
        poll_plan(pulled, len).touches_inner() <==> !(pulled matches Some(Behavior::Failure(_))),
{
}

/// Under polling a would-block failure is never reported as a failure. It
/// becomes "not ready, retry scheduled", and nothing else does; every other
/// scripted failure is reported with its own classification.
pub proof fn lemma_would_block_is_not_ready(pulled: Option<Behavior>, len: Option<usize>)
    ensures
        poll_plan(pulled, len) is RetryScheduled <==> pulled == Some(
            Behavior::Failure(ErrorKind::WouldBlock),
        ),
        poll_plan(pulled, len) matches Attempt::Fail(kind) ==> !kind.would_block() && pulled
            == Some(Behavior::Failure(kind)),
        pulled matches Some(Behavior::Failure(kind)) ==> (!kind.would_block() ==> poll_plan(
            pulled,
            len,
        ) == Attempt::Fail(kind)),
{
}

/// The two policies decide alike, except that polling turns a would-block
/// failure into "not ready, retry scheduled".
pub proof fn lemma_polling_differs_on_would_block_alone(script: Seq<Behavior>, lens: Seq<Option<usize>>)
    ensures
        poll_run(script, lens) == call_run(script, lens).map_values(
            |call: Call| Attempt::of_call(call),
        ),
{
    lemma_call_run_follows_script(script, lens);
    lemma_poll_run_follows_script(script, lens);
    assert(poll_run(script, lens) =~= call_run(script, lens).map_values(
        |call: Call| Attempt::of_call(call),
    ));
}

/// A stall resolves itself: the attempt that follows a scheduled retry is
/// decided from the next behavior of the script, not from the would-block
/// failure again.
pub proof fn lemma_retry_pulls_a_fresh_behavior(
    script: Seq<Behavior>,
    lens: Seq<Option<usize>>,
    k: int,
)
    requires
        0 <= k,
        k + 1 < lens.len(),
        poll_run(script, lens)[k] is RetryScheduled,
    ensures
        pulled(script, k) == Some(Behavior::Failure(ErrorKind::WouldBlock)),
        poll_run(script, lens)[k + 1] == poll_plan(pulled(script, k + 1), lens[k + 1]),
        left_after(script, (k + 1) as nat) == script.skip(k + 1),
{
    lemma_poll_run_follows_script(script, lens);
    lemma_would_block_is_not_ready(pulled(script, k), lens[k]);
    lemma_left_after(script, (k + 1) as nat);
}

/// One thing that happens to the script of an adapter.
pub enum Step {
    /// A call or a poll attempt is made: it consumes the head of the script.
    Consume,
    /// The script is replaced by this one.
    Replace(Seq<Behavior>),
}

/// What is left of `script` after `steps`.
pub open spec fn left_after_steps(script: Seq<Behavior>, steps: Seq<Step>) -> Seq<Behavior>
    decreases steps.len(),
{
    if steps.len() == 0 {
        script
    } else {
        let next = match steps[0] {
            Step::Consume => tail(script),
            Step::Replace(fresh) => fresh,
        };
        left_after_steps(next, steps.skip(1))
    }
}

/// Steps done one after the other are done in turn.
pub proof fn lemma_steps_in_turn(script: Seq<Behavior>, first: Seq<Step>, then: Seq<Step>)
    ensures
        left_after_steps(script, first + then) == left_after_steps(
            left_after_steps(script, first),
            then,
        ),
    decreases first.len(),
{
    if first.len() == 0 {
        assert(first + then =~= then);
    } else {
        let next = match first[0] {
            Step::Consume => tail(script),
            Step::Replace(fresh) => fresh,
        };
        assert((first + then).skip(1) =~= first.skip(1) + then);
        lemma_steps_in_turn(next, first.skip(1), then);
    }
}

/// A replaced script leaves no trace. Whatever the script was and whatever
/// was done to it before, once it has been replaced the script is the new
/// one from its start, and all that follows is decided from the new one
/// alone.
pub proof fn lemma_replace_discards_the_old_script(
    script: Seq<Behavior>,
    before: Seq<Step>,
    fresh: Seq<Behavior>,
    after: Seq<Step>,
)
    ensures
        left_after_steps(script, before.push(Step::Replace(fresh))) == fresh,
        left_after_steps(script, before.push(Step::Replace(fresh)) + after) == left_after_steps(
            fresh,
            after,
        ),
{
    let replace = seq![Step::Replace(fresh)];
    assert(before.push(Step::Replace(fresh)) =~= before + replace);
    lemma_steps_in_turn(script, before, replace);
    assert(left_after_steps(left_after_steps(script, before), replace) == fresh) by {
        assert(replace.skip(1) =~= Seq::<Step>::empty());
        reveal_with_fuel(left_after_steps, 2);
    }
    lemma_steps_in_turn(script, before.push(Step::Replace(fresh)), after);
}

/// Once the script has run dry, every further call is let through without
/// restriction, however many follow, and the script stays dry.
pub proof fn lemma_dry_script_passes_through(script: Seq<Behavior>, lens: Seq<Option<usize>>)
    ensures
        forall|k: int|
            script.len() <= k < lens.len() ==> #[trigger] call_run(script, lens)[k]
                == Call::Forward(None),
        forall|k: int|
            script.len() <= k < lens.len() ==> #[trigger] poll_run(script, lens)[k]
                == Attempt::Forward(None),
        forall|n: nat|
            n >= script.len() ==> #[trigger] left_after(script, n) == Seq::<Behavior>::empty(),
{
    lemma_call_run_follows_script(script, lens);
    lemma_poll_run_follows_script(script, lens);
    assert forall|n: nat| n >= script.len() implies #[trigger] left_after(script, n) == Seq::<
        Behavior,
    >::empty() by {
        lemma_left_after(script, n);
    }
}

/// What an inner stream that takes all it is handed has received once a
/// caller has written `data` through an adapter, where the caller offers
/// after each call what has not been taken yet, until nothing is left.
pub open spec fn delivered(script: Seq<Behavior>, data: Seq<u8>) -> Seq<u8>
    decreases script.len(), data.len(),
{
    if data.len() == 0 {
        Seq::empty()
    } else {
        let n = cap(head(script), data.len());
        data.take(n as int) + delivered(tail(script), data.skip(n as int))
    }
}

/// The number of calls that the caller of [`delivered`] makes.
pub open spec fn calls_needed(script: Seq<Behavior>, len: nat) -> nat
    decreases script.len(), len,
{
    if len == 0 {
        0
    } else {
        1 + calls_needed(tail(script), (len - cap(head(script), len)) as nat)
    }
}

/// Whatever the script, a caller that keeps offering what is left gets all
/// of its bytes to the inner stream, each once and in order, and needs at
/// most one call more than the script has behaviors.
pub proof fn lemma_all_bytes_are_delivered(script: Seq<Behavior>, data: Seq<u8>)
    ensures
        delivered(script, data) == data,
        calls_needed(script, data.len()) <= script.len() + 1,
        data.len() == 0 ==> calls_needed(script, data.len()) == 0,
    decreases script.len(), data.len(),
{
    if data.len() > 0 {
        let n = cap(head(script), data.len());
        lemma_all_bytes_are_delivered(tail(script), data.skip(n as int));
        assert(data.take(n as int) + data.skip(n as int) =~= data);
    }
}

} // verus!
