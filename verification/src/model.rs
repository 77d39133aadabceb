//! The bridge as a state machine over mathematical values: for each entry
//! point, on which states it is rejected and with which error, and what an
//! accepted invocation does to the environment.

use crate::env::EnvView;
use crate::storage::StorageView;
use crate::types::{Error, Event, Identifier, Pause, TokenCall};
use vstd::prelude::*;

verus! {

/// Whether `mode` suspends deposits.
pub open spec fn deposits_paused(mode: Option<Pause>) -> bool {
    mode == Some(Pause::All) || mode == Some(Pause::Deposit)
}

/// Whether `mode` suspends withdrawals.
pub open spec fn withdrawals_paused(mode: Option<Pause>) -> bool {
    mode == Some(Pause::All) || mode == Some(Pause::Withdrawal)
}

/// Whether the bridge accepts being initialized.
pub open spec fn init_outcome(store: StorageView) -> Result<(), Error> {
    if store.admin is Some {
        Err(Error::AlreadyInitialized)
    } else {
        Ok(())
    }
}

/// The stored administrator, or the failure to name one.
pub open spec fn admin_outcome(store: StorageView) -> Result<Identifier, Error> {
    match store.admin {
        Some(admin) => Ok(admin),
        None => Err(Error::NotInitialized),
    }
}

/// Whether `caller` passes as the administrator.
pub open spec fn check_admin_outcome(store: StorageView, caller: Identifier) -> Result<(), Error> {
    match store.admin {
        None => Err(Error::NotInitialized),
        Some(admin) => if caller == admin {
            Ok(())
        } else {
            Err(Error::Unauthorized)
        },
    }
}

/// Whether a deposit of `amount` is accepted. The checks are made in this
/// order, and the first that fails decides the error.
pub open spec fn deposit_outcome(store: StorageView, amount: i128) -> Result<(), Error> {
    if store.admin is None {
        Err(Error::NotInitialized)
    } else if deposits_paused(store.pause) {
        Err(Error::OperationPaused)
    } else if amount <= 0 {
        Err(Error::InvalidAmount)
    } else {
        Ok(())
    }
}

/// Whether `caller`'s withdrawal of `amount` under `id` is accepted. The
/// checks are made in this order, and the first that fails decides the error.
pub open spec fn withdraw_outcome(
    store: StorageView,
    caller: Identifier,
    id: [u8; 32],
    amount: i128,
) -> Result<(), Error> {
    if withdrawals_paused(store.pause) {
        Err(Error::OperationPaused)
    } else if amount <= 0 {
        Err(Error::InvalidAmount)
    } else if check_admin_outcome(store, caller) is Err {
        check_admin_outcome(store, caller)
    } else if store.fulfilled.contains(id) {
        Err(Error::AlreadyFulfilled)
    } else {
        Ok(())
    }
}

/// What an accepted deposit asks of the token module: a wrapped asset is
/// burned, any other is moved into the custody of the bridge at `contract`.
pub open spec fn deposit_call(
    contract: [u8; 32],
    invoker: Identifier,
    token: [u8; 32],
    is_wrapped_asset: bool,
    amount: i128,
) -> TokenCall {
    if is_wrapped_asset {
        TokenCall::BurnFrom { token, from: invoker, amount }
    } else {
        TokenCall::TransferFrom {
            token,
            from: invoker,
            to: Identifier::Contract(contract),
            amount,
        }
    }
}

/// What an accepted withdrawal asks of the token module: a wrapped asset is
/// minted, any other is released from the bridge's custody.
pub open spec fn withdraw_call(
    token: [u8; 32],
    is_wrapped_asset: bool,
    recipient: Identifier,
    amount: i128,
) -> TokenCall {
    if is_wrapped_asset {
        TokenCall::Mint { token, to: recipient, amount }
    } else {
        TokenCall::Transfer { token, to: recipient, amount }
    }
}

impl EnvView {
    /// The environment after an accepted initialization: `admin` is stored
    /// and nothing is paused.
    pub open spec fn initialized(self, admin: Identifier) -> EnvView {
        EnvView {
            storage: StorageView { admin: Some(admin), pause: None, ..self.storage },
            ..self
        }
    }

    /// The environment after an accepted change of the pause mode.
    pub open spec fn paused(self, state: Option<Pause>) -> EnvView {
        EnvView { storage: StorageView { pause: state, ..self.storage }, ..self }
    }

    /// The environment after an accepted deposit: one token request and one
    /// event more, and the store as it was.
    pub open spec fn deposited(
        self,
        invoker: Identifier,
        token: [u8; 32],
        is_wrapped_asset: bool,
        destination: [u8; 32],
        amount: i128,
    ) -> EnvView {
        EnvView {
            token_calls: self.token_calls.push(
                deposit_call(self.contract, invoker, token, is_wrapped_asset, amount),
            ),
            events: self.events.push(
                Event::Deposit { token, from: invoker, destination, amount },
            ),
            ..self
        }
    }

    /// The environment after an accepted withdrawal: the marker for `id` is
    /// set, and there is one token request and one event more.
    pub open spec fn withdrawn(
        self,
        token: [u8; 32],
        is_wrapped_asset: bool,
        recipient: Identifier,
        id: [u8; 32],
        amount: i128,
    ) -> EnvView {
        EnvView {
            storage: StorageView {
                fulfilled: self.storage.fulfilled.insert(id),
                ..self.storage
            },
            token_calls: self.token_calls.push(
                withdraw_call(token, is_wrapped_asset, recipient, amount),
            ),
            events: self.events.push(Event::Withdraw { id, token, recipient, amount }),
            ..self
        }
    }
}

/// One invocation of an entry point that can change the environment.
pub enum Op {
    /// `Bridge::init`.
    Init { admin: Identifier },
    /// `Bridge::deposit`.
    Deposit {
        invoker: Identifier,
        token: [u8; 32],
        is_wrapped_asset: bool,
        destination: [u8; 32],
        amount: i128,
    },
    /// `Bridge::withdraw`.
    Withdraw {
        invoker: Identifier,
        token: [u8; 32],
        is_wrapped_asset: bool,
        recipient: Identifier,
        id: [u8; 32],
        amount: i128,
    },
    /// `Bridge::set_paused`.
    SetPaused { invoker: Identifier, state: Option<Pause> },
}

/// What the entry point returns when `op` is invoked in `env`.
pub open spec fn outcome(env: EnvView, op: Op) -> Result<(), Error> {
    match op {
        Op::Init { admin } => init_outcome(env.storage),
        Op::Deposit { invoker, token, is_wrapped_asset, destination, amount } => deposit_outcome(
            env.storage,
            amount,
        ),
        Op::Withdraw { invoker, token, is_wrapped_asset, recipient, id, amount } => withdraw_outcome(
            env.storage,
            invoker,
            id,
            amount,
        ),
        Op::SetPaused { invoker, state } => check_admin_outcome(env.storage, invoker),
    }
}

/// The environment after `op` was invoked in `env`: changed as the entry
/// point says when it is accepted, and as it was when it is rejected.
pub open spec fn step(env: EnvView, op: Op) -> EnvView {
    if outcome(env, op) is Err {
        env
    } else {
        match op {
            Op::Init { admin } => env.initialized(admin),
            Op::Deposit { invoker, token, is_wrapped_asset, destination, amount } => env.deposited(
                invoker,
                token,
                is_wrapped_asset,
                destination,
                amount,
            ),
            Op::Withdraw { invoker, token, is_wrapped_asset, recipient, id, amount } => env.withdrawn(
                token,
                is_wrapped_asset,
                recipient,
                id,
                amount,
            ),
            Op::SetPaused { invoker, state } => env.paused(state),
        }
    }
}

/// The environment after the invocations `ops`, made in order from `env`.
pub open spec fn run(env: EnvView, ops: Seq<Op>) -> EnvView
    decreases ops.len(),
{
    if ops.len() == 0 {
        env
    } else {
        step(run(env, ops.drop_last()), ops.last())
    }
}

/// Whether `op`, invoked in `env`, is an accepted withdrawal under `id`.
pub open spec fn releases(env: EnvView, op: Op, id: [u8; 32]) -> bool {
    op matches Op::Withdraw { id: wanted, .. } && wanted == id && outcome(env, op) is Ok
}

/// How many of the invocations `ops`, made in order from `env`, are accepted
/// withdrawals under `id`.
pub open spec fn release_count(env: EnvView, ops: Seq<Op>, id: [u8; 32]) -> nat
    decreases ops.len(),
{
    if ops.len() == 0 {
        0
    } else {
        let earlier = release_count(env, ops.drop_last(), id);
        if releases(run(env, ops.drop_last()), ops.last(), id) {
            earlier + 1
        } else {
            earlier
        }
    }
}

/// What `Bridge::status` reports of the withdrawal `id` in `env`.
pub open spec fn status_report(env: EnvView, id: [u8; 32]) -> (bool, u32, u64) {
    (env.storage.fulfilled.contains(id), env.sequence, env.timestamp)
}

} // verus!
