//! Amounts of money.

use vstd::prelude::*;

verus! {

/// The greatest amount of money that can exist, in zatoshis.
pub const MAX_MONEY: u64 = 2_100_000_000_000_000;

/// An amount of money that can exist, in zatoshis.
#[derive(Clone, Copy, Debug, PartialEq, Eq)]
pub struct Zatoshis {
    amount: u64,
}

impl Zatoshis {
    /// The amount as a number.
    pub closed spec fn amount(self) -> u64 {
        self.amount
    }

    #[verifier::type_invariant]
    spec fn inv(self) -> bool {
        self.amount <= MAX_MONEY
    }

    /// No money.
    pub fn zero() -> (r: Self)
        ensures
            r.amount() == 0,
    {
        Zatoshis { amount: 0 }
    }

    /// The given amount, if it can exist.
    pub fn from_u64(amount: u64) -> (r: Option<Self>)
        ensures
            r is Some <==> amount <= MAX_MONEY,
            r matches Some(value) ==> value.amount() == amount,
    {
        if amount <= MAX_MONEY {
            Some(Zatoshis { amount })
        } else {
            None
        }
    }

    /// The amount as a number.
    pub fn into_u64(self) -> (r: u64)
        ensures
            r == self.amount(),
            r <= MAX_MONEY,
    {
        proof {
            use_type_invariant(&self);
        }
        self.amount
    }

    /// The sum of two amounts, if it can exist.
    pub fn checked_sum(self, other: Zatoshis) -> (r: Option<Self>)
        ensures
            self.amount() <= MAX_MONEY,
            other.amount() <= MAX_MONEY,
            r is Some <==> self.amount() + other.amount() <= MAX_MONEY,
            r matches Some(sum) ==> sum.amount() == self.amount() + other.amount(),
    {
        proof {
            use_type_invariant(&self);
            use_type_invariant(&other);
        }
        match add_zatoshis(self.amount, other.amount) {
            Some(amount) => Some(Zatoshis { amount }),
            None => None,
        }
    }
}

/// Calls `+` on `zcash_protocol::value::Zatoshis`.
///
/// Claimed: the result is the sum, and there is none if it is greater than [`MAX_MONEY`].
#[verifier::external_body]
fn add_zatoshis(a: u64, b: u64) -> (sum: Option<u64>)
    requires
        a <= MAX_MONEY,
        b <= MAX_MONEY,
    ensures
        match sum {
            Some(amount) => amount == a + b && amount <= MAX_MONEY,
            None => a + b > MAX_MONEY,
        },
{
    let a = zcash_protocol::value::Zatoshis::from_u64(a).unwrap();
    let b = zcash_protocol::value::Zatoshis::from_u64(b).unwrap();
    (a + b).map(u64::from)
}

} // verus!
