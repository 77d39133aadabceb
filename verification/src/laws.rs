//! What holds of the bridge over any course of invocations.

use crate::env::EnvView;
use crate::model::{
    deposits_paused, outcome, release_count, run, status_report, step, withdrawals_paused, Op,
};
use crate::types::{Error, Identifier, Pause};
use vstd::prelude::*;

verus! {

/// An administrator, once stored, stays the administrator whatever is
/// invoked afterwards.
pub proof fn lemma_admin_is_permanent(env: EnvView, ops: Seq<Op>)
    requires
        env.storage.admin is Some,
    ensures
        run(env, ops).storage.admin == env.storage.admin,
    decreases ops.len(),
{
    if ops.len() > 0 {
        lemma_admin_is_permanent(env, ops.drop_last());
    }
}

/// A fulfilment marker, once set, stays set whatever is invoked afterwards.
pub proof fn lemma_marker_is_permanent(env: EnvView, ops: Seq<Op>, id: [u8; 32])
    requires
        env.storage.fulfilled.contains(id),
    ensures
        run(env, ops).storage.fulfilled.contains(id),
    decreases ops.len(),
{
    if ops.len() > 0 {
        lemma_marker_is_permanent(env, ops.drop_last(), id);
    }
}

/// Once the bridge has been initialized, and whatever has been invoked
/// since, another initialization is rejected as `AlreadyInitialized` and
/// leaves the environment, the administrator and the pause mode with it, as
/// it was.
pub proof fn law_init_only_once(env: EnvView, first: Identifier, ops: Seq<Op>, second: Identifier)
    requires
        outcome(env, Op::Init { admin: first }) is Ok,
    ensures
        step(env, Op::Init { admin: first }).storage.admin == Some(first),
        step(env, Op::Init { admin: first }).storage.pause == None::<Pause>,
        ({
            let later = run(step(env, Op::Init { admin: first }), ops);
            &&& later.storage.admin == Some(first)
            &&& outcome(later, Op::Init { admin: second }) == Err::<(), Error>(
                Error::AlreadyInitialized,
            )
            &&& step(later, Op::Init { admin: second }) == later
        }),
{
    lemma_admin_is_permanent(step(env, Op::Init { admin: first }), ops);
}

/// A deposit or a withdrawal of an amount that is not positive is rejected
/// and changes nothing, so that no token request is made. The error is
/// `InvalidAmount` unless an earlier check already fails: for a deposit that
/// the bridge is initialized and deposits are not paused, for a withdrawal
/// that withdrawals are not paused.
pub proof fn law_amount_must_be_positive(env: EnvView, op: Op)
    requires
        match op {
            Op::Deposit { amount, .. } => amount <= 0,
            Op::Withdraw { amount, .. } => amount <= 0,
            _ => false,
        },
    ensures
        outcome(env, op) is Err,
        step(env, op) == env,
        op is Deposit && env.storage.admin is Some && !deposits_paused(env.storage.pause)
            ==> outcome(env, op) == Err::<(), Error>(Error::InvalidAmount),
        op is Withdraw && !withdrawals_paused(env.storage.pause) ==> outcome(env, op) == Err::<
            (),
            Error,
        >(Error::InvalidAmount),
{
}

/// Once a withdrawal under `id` has been accepted, and whatever has been
/// invoked since, every withdrawal under the same `id` is rejected and
/// changes nothing, so that no token request is made. The error is
/// `AlreadyFulfilled` whenever the earlier checks pass: withdrawals are not
/// paused, the amount is positive, and the caller is the administrator.
pub proof fn law_withdrawal_is_not_repeated(env: EnvView, first: Op, ops: Seq<Op>, again: Op)
    requires
        first is Withdraw,
        again is Withdraw,
        first->Withdraw_id == again->Withdraw_id,
        outcome(env, first) is Ok,
    ensures
        ({
            let later = run(step(env, first), ops);
            &&& outcome(later, again) is Err
            &&& step(later, again) == later
            &&& (!withdrawals_paused(later.storage.pause) && again->Withdraw_amount > 0 && Some(
                again->Withdraw_invoker,
            ) == later.storage.admin) ==> outcome(later, again) == Err::<(), Error>(
                Error::AlreadyFulfilled,
            )
        }),
{
    lemma_marker_is_permanent(step(env, first), ops, first->Withdraw_id);
}

/// Over any course of invocations from any environment, at most one
/// withdrawal under a given `id` is accepted; none is when the marker for
/// `id` is set from the start; and whenever one was accepted the marker is
/// set at the end.
pub proof fn law_at_most_one_release(env: EnvView, ops: Seq<Op>, id: [u8; 32])
    ensures
        release_count(env, ops, id) <= 1,
        env.storage.fulfilled.contains(id) ==> release_count(env, ops, id) == 0,
        release_count(env, ops, id) == 1 ==> run(env, ops).storage.fulfilled.contains(id),
    decreases ops.len(),
{
    if ops.len() > 0 {
        let earlier = ops.drop_last();
        law_at_most_one_release(env, earlier, id);
        if env.storage.fulfilled.contains(id) {
            lemma_marker_is_permanent(env, earlier, id);
        }
    }
}

/// When the administrator sets the pause mode to `All`, every deposit and
/// every withdrawal is rejected as `OperationPaused`.
pub proof fn law_pause_all_blocks_both(env: EnvView, admin: Identifier, op: Op)
    requires
        outcome(env, Op::SetPaused { invoker: admin, state: Some(Pause::All) }) is Ok,
        op is Deposit || op is Withdraw,
    ensures
        ({
            let paused = step(env, Op::SetPaused { invoker: admin, state: Some(Pause::All) });
            &&& outcome(paused, op) == Err::<(), Error>(Error::OperationPaused)
            &&& step(paused, op) == paused
        }),
{
}

/// When the administrator sets the pause mode back to `None`, both paths are
/// open again: a deposit is accepted exactly when its amount is positive, and
/// a withdrawal exactly when its amount is positive, its caller is the
/// administrator and its identifier has no marker yet.
pub proof fn law_unpause_restores_both(env: EnvView, admin: Identifier, op: Op)
    requires
        outcome(env, Op::SetPaused { invoker: admin, state: None }) is Ok,
    ensures
        ({
            let open = step(env, Op::SetPaused { invoker: admin, state: None });
            &&& op matches Op::Deposit { amount, .. } ==> (outcome(open, op) is Ok <==> amount > 0)
            &&& op matches Op::Withdraw { invoker, id, amount, .. } ==> (outcome(open, op) is Ok
                <==> amount > 0 && invoker == admin && !env.storage.fulfilled.contains(id))
        }),
{
}

/// A caller other than the stored administrator cannot change the pause
/// mode: the attempt is rejected as `Unauthorized` and changes nothing. Nor
/// can such a caller withdraw: whatever the amount and the pause mode, the
/// attempt is rejected and changes nothing, and the error is `Unauthorized`
/// unless an earlier check already fails, that is unless withdrawals are
/// paused or the amount is not positive.
pub proof fn law_only_the_admin(env: EnvView, caller: Identifier, op: Op)
    requires
        env.storage.admin is Some,
        env.storage.admin != Some(caller),
        match op {
            Op::SetPaused { invoker, .. } => invoker == caller,
            Op::Withdraw { invoker, .. } => invoker == caller,
            _ => false,
        },
    ensures
        outcome(env, op) is Err,
        step(env, op) == env,
        op is SetPaused ==> outcome(env, op) == Err::<(), Error>(Error::Unauthorized),
        op matches Op::Withdraw { amount, .. } ==> (!withdrawals_paused(env.storage.pause)
            && amount > 0 ==> outcome(env, op) == Err::<(), Error>(Error::Unauthorized)),
{
}

/// The status of a withdrawal reports it as not fulfilled before it is
/// accepted and as fulfilled immediately after, and at every later time.
pub proof fn law_status_follows_withdrawal(env: EnvView, op: Op, ops: Seq<Op>)
    requires
        op is Withdraw,
        outcome(env, op) is Ok,
    ensures
        !status_report(env, op->Withdraw_id).0,
        status_report(step(env, op), op->Withdraw_id).0,
        status_report(run(step(env, op), ops), op->Withdraw_id).0,
{
    lemma_marker_is_permanent(step(env, op), ops, op->Withdraw_id);
}

} // verus!
