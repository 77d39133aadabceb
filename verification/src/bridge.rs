//! The bridge's entry points.

use crate::env::Env;
use crate::model::{
    admin_outcome, check_admin_outcome, deposits_paused, outcome, status_report, step,
    withdrawals_paused, Op,
};
use crate::types::{DataKey, Error, Event, Identifier, Pause, TokenCall};
use vstd::prelude::*;

verus! {

/// The bridge. It holds nothing itself: its state lives in the store of the
/// environment each entry point is given.
pub struct Bridge;

/// The pause mode in force; `None` when nothing is restricted.
pub fn get_paused(e: &Env) -> (mode: Option<Pause>)
    ensures
        mode == e@.storage.pause,
{
    e.storage.pause()
}

/// The stored administrator.
fn get_admin(e: &Env) -> (admin: Result<Identifier, Error>)
    ensures
        admin == admin_outcome(e@.storage),
{
    match e.storage.admin() {
        Some(admin) => Ok(admin),
        None => Err(Error::NotInitialized),
    }
}

/// Passes if and only if `auth_id` is the stored administrator.
pub fn check_admin(e: &Env, auth_id: &Identifier) -> (verdict: Result<(), Error>)
    ensures
        verdict == check_admin_outcome(e@.storage, *auth_id),
{
    match get_admin(e) {
        Err(error) => Err(error),
        Ok(admin) => if *auth_id == admin {
            Ok(())
        } else {
            Err(Error::Unauthorized)
        },
    }
}

/// Whether `mode` suspends deposits.
fn blocks_deposits(mode: Option<Pause>) -> (blocked: bool)
    ensures
        blocked == deposits_paused(mode),
{
    match mode {
        Some(Pause::All) | Some(Pause::Deposit) => true,
        _ => false,
    }
}

/// Whether `mode` suspends withdrawals.
fn blocks_withdrawals(mode: Option<Pause>) -> (blocked: bool)
    ensures
        blocked == withdrawals_paused(mode),
{
    match mode {
        Some(Pause::All) | Some(Pause::Withdrawal) => true,
        _ => false,
    }
}

impl Bridge {
    /// Installs `admin` as the administrator and lifts every restriction.
    /// Only the first call is accepted.
    pub fn init(env: &mut Env, admin: Identifier) -> (done: Result<(), Error>)
        ensures
            done == outcome(old(env)@, Op::Init { admin }),
            final(env)@ == step(old(env)@, Op::Init { admin }),
    {
        let key = DataKey::Admin;
        if env.storage.has(&key) {
            return Err(Error::AlreadyInitialized);
        }
        env.storage.set_admin(admin);
        env.storage.remove_pause();
        Ok(())
    }

    /// Takes `amount` of `token` from `invoker`, burning a wrapped asset and
    /// moving any other into the bridge's custody, and publishes the deposit
    /// for `eth_destination`.
    pub fn deposit(
        env: &mut Env,
        invoker: Identifier,
        token: [u8; 32],
        is_wrapped_asset: bool,
        eth_destination: [u8; 32],
        amount: i128,
    ) -> (done: Result<(), Error>)
        ensures
            ({
                let op = Op::Deposit {
                    invoker,
                    token,
                    is_wrapped_asset,
                    destination: eth_destination,
                    amount,
                };
                &&& done == outcome(old(env)@, op)
                &&& final(env)@ == step(old(env)@, op)
            }),
    {
        if !env.storage.has(&DataKey::Admin) {
            return Err(Error::NotInitialized);
        }
        if blocks_deposits(get_paused(env)) {
            return Err(Error::OperationPaused);
        }
        if amount <= 0 {
            return Err(Error::InvalidAmount);
        }
        let call = if is_wrapped_asset {
            TokenCall::BurnFrom { token, from: invoker, amount }
        } else {
            TokenCall::TransferFrom {
                token,
                from: invoker,
                to: Identifier::Contract(env.contract),
                amount,
            }
        };
        env.token_calls.push(call);
        env.events.push(Event::Deposit { token, from: invoker, destination: eth_destination, amount });
        Ok(())
    }

    /// Hands `amount` of `token` to `recipient`, minting a wrapped asset and
    /// releasing any other from custody, on the administrator's word and at
    /// most once for each `id`.
    pub fn withdraw(
        env: &mut Env,
        invoker: Identifier,
        token: [u8; 32],
        is_wrapped_asset: bool,
        recipient: Identifier,
        id: [u8; 32],
        amount: i128,
    ) -> (done: Result<(), Error>)
        ensures
            ({
                let op = Op::Withdraw { invoker, token, is_wrapped_asset, recipient, id, amount };
                &&& done == outcome(old(env)@, op)
                &&& final(env)@ == step(old(env)@, op)
            }),
    {
        if blocks_withdrawals(get_paused(env)) {
            return Err(Error::OperationPaused);
        }
        if amount <= 0 {
            return Err(Error::InvalidAmount);
        }
        match check_admin(env, &invoker) {
            Err(error) => {
                return Err(error);
            },
            Ok(()) => {},
        }
        let key = DataKey::Fullfilled(id);
        if env.storage.has(&key) {
            return Err(Error::AlreadyFulfilled);
        }
        env.storage.set_fulfilled(id);
        let call = if is_wrapped_asset {
            TokenCall::Mint { token, to: recipient, amount }
        } else {
            TokenCall::Transfer { token, to: recipient, amount }
        };
        env.token_calls.push(call);
        env.events.push(Event::Withdraw { id, token, recipient, amount });
        Ok(())
    }

    /// Sets the pause mode, on the administrator's word. `None` lifts every
    /// restriction.
    pub fn set_paused(env: &mut Env, invoker: Identifier, state: Option<Pause>) -> (done: Result<
        (),
        Error,
    >)
        ensures
            done == outcome(old(env)@, Op::SetPaused { invoker, state }),
            final(env)@ == step(old(env)@, Op::SetPaused { invoker, state }),
    {
        match check_admin(env, &invoker) {
            Err(error) => {
                return Err(error);
            },
            Ok(()) => {},
        }
        match state {
            None => env.storage.remove_pause(),
            Some(mode) => env.storage.set_pause(mode),
        }
        Ok(())
    }

    /// Whether the withdrawal `id` has been carried out, with the ledger's
    /// sequence number and close time.
    pub fn status(env: &Env, id: [u8; 32]) -> (report: (bool, u32, u64))
        ensures
            report == status_report(env@, id),
    {
        let fulfilled = env.storage.has(&DataKey::Fullfilled(id));
        (fulfilled, env.sequence, env.timestamp)
    }

    /// The administrator.
    pub fn admin(env: &Env) -> (admin: Result<Identifier, Error>)
        ensures
            admin == admin_outcome(env@.storage),
    {
        get_admin(env)
    }
}

} // verus!
