//! Wallet balances and the fee taken from them.

use vstd::prelude::*;

verus! {

/// Something that holds a balance in satoshis.
pub trait Wallet {
    /// The balance that can be spent.
    fn balance(&self) -> u64;
}

/// A wallet that is nothing but its confirmed balance.
pub struct TestWallet {
    /// Confirmed balance in satoshis.
    pub confirmed: u64,
}

impl Wallet for TestWallet {
    fn balance(&self) -> (amount: u64)
        ensures
            amount == self.confirmed,
    {
        self.confirmed
    }
}

/// Why a fee was not taken.
#[derive(Debug, Clone, Copy, PartialEq, Eq, Structural)]
pub enum FeeError {
    /// The fee is larger than the balance.
    Underflow,
}

/// Takes `fee` from `balance`. A fee larger than the balance is refused and
/// the balance stays as it was: a balance never wraps and never silently
/// stops at zero.
pub fn apply_fee(balance: &mut u64, fee: u64) -> (r: Result<(), FeeError>)
    ensures
        fee <= *old(balance) ==> r is Ok && *final(balance) == *old(balance) - fee,
        fee > *old(balance) ==> r == Err::<(), FeeError>(FeeError::Underflow) && *final(balance)
            == *old(balance),
{
    if fee > *balance {
        Err(FeeError::Underflow)
    } else {
        let diff: u64 = *balance - fee;
        *balance = diff;
        Ok(())
    }
}

} // verus!
