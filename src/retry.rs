//! Transparent retry of blocking calls that an unrelated signal interrupted.

use vstd::prelude::*;

verus! {

/// The outcome of one attempt at a blocking call (a read or a readiness
/// wait).
pub enum Attempt<T, E> {
    /// The call completed with a value.
    Done(T),
    /// The call was interrupted by an unrelated signal before completing.
    Interrupted,
    /// The call failed for any other reason.
    Failed(E),
}

/// What a single attempt settles: nothing when it was interrupted, else the
/// value or the error it completed with.
pub open spec fn outcome<T, E>(a: Attempt<T, E>) -> Option<Result<T, E>> {
    match a {
        Attempt::Done(v) => Some(Ok(v)),
        Attempt::Interrupted => None,
        Attempt::Failed(e) => Some(Err(e)),
    }
}

/// What a run of attempts settles: the outcome of the first attempt that was
/// not interrupted, if any.
pub open spec fn settled<T, E>(attempts: Seq<Attempt<T, E>>) -> Option<Result<T, E>>
    decreases attempts.len(),
{
    if attempts.len() == 0 {
        None
    } else if attempts[0] is Interrupted {
        settled(attempts.drop_first())
    } else {
        outcome(attempts[0])
    }
}

/// `k` interrupted attempts in a row.
pub open spec fn interruptions<T, E>(k: nat) -> Seq<Attempt<T, E>> {
    Seq::new(k, |i: int| Attempt::Interrupted)
}

/// Decides what one attempt means to its caller: `None` asks for the same
/// call to be made again; otherwise the call is over, with the value or
/// the error that it returned.
pub fn settle<T, E>(a: Attempt<T, E>) -> (r: Option<Result<T, E>>)
    ensures
        r == outcome(a),
        r is None <==> a is Interrupted,
{
    match a {
        Attempt::Done(v) => Some(Ok(v)),
        Attempt::Interrupted => None,
        Attempt::Failed(e) => Some(Err(e)),
    }
}

/// Retry transparency: a call interrupted any number of times before it
/// completes settles exactly as the same call completing on the first
/// attempt, and an interruption is never itself the result.
pub proof fn lemma_retry_transparent<T, E>(k: nat, a: Attempt<T, E>)
    requires
        !(a is Interrupted),
    ensures
        settled(interruptions::<T, E>(k) + seq![a]) == settled(seq![a]),
        settled(seq![a]) == outcome(a),
        outcome(a) is Some,
    decreases k,
{
    let s = interruptions::<T, E>(k) + seq![a];
    assert(seq![a].drop_first() =~= Seq::<Attempt<T, E>>::empty());
    if k == 0 {
        assert(s =~= seq![a]);
    } else {
        lemma_retry_transparent((k - 1) as nat, a);
        assert(s[0] is Interrupted);
        assert(s.drop_first() =~= interruptions::<T, E>((k - 1) as nat) + seq![a]);
    }
}

} // verus!
