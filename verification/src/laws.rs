//! What holds of the latch and of the guard over whole runs of operations.
use crate::database::{forwarded, transition, Database};
use crate::error::{classify_outcome, rejection, ClassifiedView, Error, ErrorView, Fault};
use crate::latch::{finding, gate_spec, observe, settle_has_spec, settle_spec};
use crate::store::{calls, Call, Store};
use vstd::prelude::*;

verus! {

/// The latch after a run of operations, given what the answer to each showed
/// about corruption, oldest first.
pub open spec fn observe_all(state: Option<Seq<char>>, findings: Seq<Option<Seq<char>>>) -> Option<
    Seq<char>,
>
    decreases findings.len(),
{
    if findings.len() == 0 {
        state
    } else {
        observe(observe_all(state, findings.drop_last()), findings.last())
    }
}

/// A corrupted latch stays corrupted, with the message it holds, whatever the
/// operations after it show.
pub proof fn lemma_latch_is_permanent(first: Seq<char>, findings: Seq<Option<Seq<char>>>)
    ensures
        observe_all(Some(first), findings) == Some(first),
    decreases findings.len(),
{
    if findings.len() > 0 {
        lemma_latch_is_permanent(first, findings.drop_last());
    }
}

/// A healthy latch takes the message of the first answer that shows
/// corruption and keeps it through everything that follows.
pub proof fn lemma_first_corruption_wins(findings: Seq<Option<Seq<char>>>, i: int)
    requires
        0 <= i < findings.len(),
        findings[i] is Some,
        forall|k: int| 0 <= k < i ==> findings[k] is None,
    ensures
        observe_all(None, findings) == findings[i],
    decreases findings.len(),
{
    let earlier = findings.drop_last();
    if i == findings.len() - 1 {
        lemma_healthy_without_corruption(earlier);
    } else {
        lemma_first_corruption_wins(earlier, i);
    }
}

/// A latch stays healthy as long as no answer shows corruption.
pub proof fn lemma_healthy_without_corruption(findings: Seq<Option<Seq<char>>>)
    requires
        forall|k: int| 0 <= k < findings.len() ==> findings[k] is None,
    ensures
        observe_all(None, findings) is None,
    decreases findings.len(),
{
    if findings.len() > 0 {
        lemma_healthy_without_corruption(findings.drop_last());
    }
}

/// A corrupted latch answers with the message it holds: to an operation that
/// is about to start, and to one that started while the latch was healthy
/// and comes back with corruption of its own, whose message is discarded.
pub proof fn lemma_corrupted_latch_answers_with_first<T, E>(first: Seq<char>, late: Seq<char>)
    ensures
        gate_spec::<E>(Some(first)) == Err::<(), ErrorView<E>>(
            ErrorView::CorruptionLatched(first),
        ),
        settle_spec::<T, E>(Some(first), Err(ClassifiedView::Corruption(late))) == Err::<
            T,
            ErrorView<E>,
        >(ErrorView::CorruptionLatched(first)),
        settle_has_spec::<T, E>(Some(first), Err(ClassifiedView::Corruption(late))) == Err::<
            bool,
            ErrorView<E>,
        >(ErrorView::CorruptionLatched(first)),
        observe(Some(first), Some(late)) == Some(first),
{
}

/// Recording corruption twice is the same as recording it once: of two
/// messages recorded one after the other, in whichever order the two arrive,
/// the latch retains the first and discards the second.
pub proof fn lemma_latch_is_idempotent(state: Option<Seq<char>>, m1: Seq<char>, m2: Seq<char>)
    ensures
        observe(observe(state, Some(m1)), Some(m2)) == observe(state, Some(m1)),
        observe(observe(None, Some(m1)), Some(m2)) == Some(m1),
        observe(observe(None, Some(m2)), Some(m1)) == Some(m2),
{
}

/// The message of a corrupted latch is never made up: it is one that an
/// operation of the run recorded, or the one the latch held before the run.
pub proof fn lemma_message_was_recorded(
    state: Option<Seq<char>>,
    findings: Seq<Option<Seq<char>>>,
)
    ensures
        observe_all(state, findings) matches Some(message) ==> state == Some(message)
            || findings.contains(Some(message)),
        observe_all(state, findings) is None ==> state is None,
    decreases findings.len(),
{
    if findings.len() > 0 {
        let earlier = findings.drop_last();
        lemma_message_was_recorded(state, earlier);
        if let Some(message) = observe_all(state, findings) {
            if state != Some(message) {
                if earlier.contains(Some(message)) {
                    let k = choose|k: int| 0 <= k < earlier.len() && earlier[k] == Some(message);
                    assert(findings[k] == Some(message));
                } else {
                    assert(findings[findings.len() - 1] == Some(message));
                }
            }
        }
    }
}

/// A latch that started healthy and was only ever given non-empty messages
/// never shows corruption together with an empty message.
pub proof fn lemma_corrupted_has_message(findings: Seq<Option<Seq<char>>>)
    requires
        forall|k: int|
            0 <= k < findings.len() ==> (#[trigger] findings[k] matches Some(message)
                ==> message.len() > 0),
    ensures
        observe_all(None, findings) matches Some(message) ==> message.len() > 0,
{
    lemma_message_was_recorded(None, findings);
}

/// A presence check on a healthy latch answers `false` when the lookup fails
/// with a failure that says the key is absent, and leaves the latch healthy.
pub proof fn lemma_has_translates_not_found<T, E: Fault>(e: E)
    requires
        e.corruption_spec() is None,
        e.not_found_spec(),
    ensures
        settle_has_spec(None, classify_outcome::<T, E>(Err(e))) == Ok::<bool, ErrorView<E>>(false),
        observe(None, finding(classify_outcome::<T, E>(Err(e)))) is None,
{
}

/// A presence check on a corrupted guard fails with the recorded message; it
/// does not answer `false`, nor anything else.
pub proof fn lemma_has_fails_once_corrupted<S: Store>(
    before: Database<S>,
    key: Seq<u8>,
    after: Database<S>,
    result: Result<bool, Error<S::Error>>,
)
    requires
        before.state() is Some,
        transition(before, Call::Has { key }, after, rejection(result)),
    ensures
        result matches Err(e) && e@ == ErrorView::<S::Error>::CorruptionLatched(
            before.state().unwrap(),
        ),
{
}

/// A failure that is neither corruption nor an absent key is handed to the
/// caller as the store reported it, by every operation, and leaves the latch
/// as it was. An operation other than a presence check does the same with an
/// absent key.
pub proof fn lemma_other_failures_pass_through<T, E: Fault>(state: Option<Seq<char>>, e: E)
    requires
        e.corruption_spec() is None,
    ensures
        settle_spec(state, classify_outcome::<T, E>(Err(e))) == Err::<T, ErrorView<E>>(
            ErrorView::Inner(e),
        ),
        !e.not_found_spec() ==> settle_has_spec(state, classify_outcome::<T, E>(Err(e))) == Err::<
            bool,
            ErrorView<E>,
        >(ErrorView::Inner(e)),
        observe(state, finding(classify_outcome::<T, E>(Err(e)))) == state,
{
}

/// A run of a guard: `guards[i]` is the guard before the operation that was
/// asked `requests[i]`, `guards[i + 1]` the guard after it, and
/// `rejections[i]` the message in its result if the result was
/// [`Error::CorruptionLatched`].
pub open spec fn is_run<S: Store>(
    guards: Seq<Database<S>>,
    requests: Seq<Call>,
    rejections: Seq<Option<Seq<char>>>,
) -> bool {
    &&& guards.len() == requests.len() + 1
    &&& rejections.len() == requests.len()
    &&& forall|i: int|
        0 <= i < requests.len() ==> transition(
            guards[i],
            #[trigger] requests[i],
            guards[i + 1],
            rejections[i],
        )
}

/// Once an operation of a run has been rejected with a message, every later
/// operation of the run, whatever it asks, is rejected with that same message,
/// the guard stays corrupted with it, and the wrapped store is no longer
/// touched: it stays as it was after the first rejection, so it has received
/// no further request.
pub proof fn lemma_guard_is_permanent<S: Store>(
    guards: Seq<Database<S>>,
    requests: Seq<Call>,
    rejections: Seq<Option<Seq<char>>>,
    i: int,
    j: int,
)
    requires
        is_run(guards, requests, rejections),
        0 <= i < j < requests.len(),
        rejections[i] is Some,
    ensures
        rejections[j] == rejections[i],
        guards[j + 1].state() == rejections[i],
        guards[j + 1].inner() == guards[i + 1].inner(),
        guards[j + 1].inner().history() == guards[i + 1].inner().history(),
    decreases j - i,
{
    assert(transition(guards[i], requests[i], guards[i + 1], rejections[i]));
    assert(transition(guards[j], requests[j], guards[j + 1], rejections[j]));
    if j > i + 1 {
        lemma_guard_is_permanent(guards, requests, rejections, i, j - 1);
    }
}

/// As long as no operation of a run has been rejected, the guard is healthy
/// and the wrapped store has received one request for each request to the
/// guard: the forwarded one, in the same order.
pub proof fn lemma_healthy_guard_forwards<S: Store>(
    guards: Seq<Database<S>>,
    requests: Seq<Call>,
    rejections: Seq<Option<Seq<char>>>,
    n: int,
)
    requires
        is_run(guards, requests, rejections),
        guards[0].state() is None,
        0 <= n <= requests.len(),
        forall|k: int| 0 <= k < n ==> rejections[k] is None,
    ensures
        guards[n].state() is None,
        calls(guards[n].inner()) == calls(guards[0].inner()) + requests.subrange(0, n).map_values(
            |request: Call| forwarded(request),
        ),
    decreases n,
{
    let handed_on = |request: Call| forwarded(request);
    if n > 0 {
        lemma_healthy_guard_forwards(guards, requests, rejections, n - 1);
        assert(transition(guards[n - 1], requests[n - 1], guards[n], rejections[n - 1]));
        assert(requests.subrange(0, n).map_values(handed_on) =~= requests.subrange(
            0,
            n - 1,
        ).map_values(handed_on).push(forwarded(requests[n - 1])));
    }
    assert(calls(guards[n].inner()) =~= calls(guards[0].inner()) + requests.subrange(
        0,
        n,
    ).map_values(handed_on));
}

} // verus!
