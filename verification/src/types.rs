//! The plain values the bridge works with: identities, storage keys, the
//! pause mode, the failures of an invocation, and the requests the bridge
//! hands to the token module and to the event stream.

use vstd::prelude::*;
use vstd::std_specs::cmp::PartialEqSpecImpl;

verus! {

/// Whether two 32-byte values hold the same bytes.
pub fn bytes_eq(a: &[u8; 32], b: &[u8; 32]) -> (same: bool)
    ensures
        same == (*a == *b),
{
    let mut i: usize = 0;
    while i < 32
        invariant
            i <= 32,
            forall|j: int| 0 <= j < i ==> a[j] == b[j],
        decreases 32 - i,
    {
        if a[i] != b[i] {
            return false;
        }
        i += 1;
    }
    proof {
        assert(*a =~= *b);
    }
    true
}

/// An authenticated party: a contract, named by its hash, or an account,
/// named by its public key.
#[derive(Clone, Copy, Debug)]
pub enum Identifier {
    Contract([u8; 32]),
    Account([u8; 32]),
}

impl PartialEq for Identifier {
    fn eq(&self, other: &Self) -> (same: bool) {
        match (self, other) {
            (Identifier::Contract(a), Identifier::Contract(b)) => bytes_eq(a, b),
            (Identifier::Account(a), Identifier::Account(b)) => bytes_eq(a, b),
            _ => false,
        }
    }
}

impl Eq for Identifier {}

impl PartialEqSpecImpl for Identifier {
    open spec fn obeys_eq_spec() -> bool {
        true
    }

    open spec fn eq_spec(&self, other: &Self) -> bool {
        *self == *other
    }
}

/// Which operations the administrator has suspended. No restriction at all
/// is the absence of a mode, `Option::None`.
#[derive(Clone, Copy, Debug, PartialEq, Eq, Structural)]
pub enum Pause {
    Deposit,
    Withdrawal,
    All,
}

/// The keys under which the bridge keeps its durable state.
#[derive(Clone, Copy, Debug, PartialEq, Eq)]
pub enum DataKey {
    /// The administrator's identity.
    Admin,
    /// The marker of a withdrawal that has been carried out.
    Fullfilled([u8; 32]),
    /// The pause mode.
    Pause,
}

/// Why an invocation was rejected. A rejected invocation changes nothing.
#[derive(Clone, Copy, Debug, PartialEq, Eq, Structural)]
pub enum Error {
    NotInitialized,
    AlreadyInitialized,
    Unauthorized,
    InvalidAmount,
    OperationPaused,
    AlreadyFulfilled,
}

/// A request to the token module, made on the bridge's own authority.
#[derive(Clone, Copy, Debug, PartialEq, Eq)]
pub enum TokenCall {
    /// Move `amount` of `token` from `from` to `to`.
    TransferFrom { token: [u8; 32], from: Identifier, to: Identifier, amount: i128 },
    /// Destroy `amount` of `token` held by `from`.
    BurnFrom { token: [u8; 32], from: Identifier, amount: i128 },
    /// Create `amount` of `token` for `to`.
    Mint { token: [u8; 32], to: Identifier, amount: i128 },
    /// Move `amount` of `token` out of the bridge's custody to `to`.
    Transfer { token: [u8; 32], to: Identifier, amount: i128 },
}

/// A record published for observers on other ledgers.
#[derive(Clone, Copy, Debug, PartialEq, Eq)]
pub enum Event {
    /// `amount` of `token` was taken from `from`, to be made available to
    /// `destination` on the other ledger.
    Deposit { token: [u8; 32], from: Identifier, destination: [u8; 32], amount: i128 },
    /// `amount` of `token` was handed to `recipient` under the withdrawal `id`.
    Withdraw { id: [u8; 32], token: [u8; 32], recipient: Identifier, amount: i128 },
}

} // verus!
