//! The arithmetic of a sale and of a claim: the fee split, the price
//! escalation and the proportional payout.

use crate::error::ContractError;
use vstd::arithmetic::div_mod::{
    lemma_div_is_ordered, lemma_fundamental_div_mod, lemma_fundamental_div_mod_converse,
};
use vstd::prelude::*;

verus! {

/// Points credited to the buyer, and added to the total issued, per purchase.
pub const REWARD_POINTS: u128 = 100;

/// Percentage of the listed price that goes to the treasury, and the same
/// again to the royalty beneficiary.
pub const FEE_PERCENT: u128 = 5;

/// Factor by which a purchase multiplies the parcel's price.
pub const PRICE_FACTOR: u128 = 2;

/// The three parts into which the listed price of a sold parcel is divided.
#[derive(Clone, Copy, Debug, PartialEq, Eq, Structural)]
pub struct FeeSplit {
    pub treasury: u128,
    pub royalty: u128,
    pub owner: u128,
}

/// The treasury's cut of a sale at `price`, which is also the royalty
/// beneficiary's: five percent, rounded down.
pub open spec fn fee_cut(price: nat) -> nat {
    price * 5 / 100
}

/// What is left of `price` for the previous owner once both cuts are taken.
/// The rounding of the two cuts is absorbed here.
pub open spec fn owner_amount(price: nat) -> int {
    price - fee_cut(price) - fee_cut(price)
}

/// The price of a parcel after it was sold at `price`.
pub open spec fn escalated(price: nat) -> nat {
    price * 2
}

/// The share of a treasury holding `balance` that `points` out of `total`
/// issued points are worth, rounded down.
pub open spec fn proportional_share(points: nat, balance: nat, total: nat) -> nat
    recommends
        total > 0,
{
    (points * balance) / total
}

/// The result of [`claim_share`].
pub open spec fn claim_share_outcome(
    points: u128,
    balance: u128,
    total: u128,
) -> Result<u128, ContractError> {
    if total == 0 {
        Err(ContractError::NoRewardsAvailable)
    } else if proportional_share(points as nat, balance as nat, total as nat) > balance {
        Err(ContractError::PayoutExceedsTreasury)
    } else {
        Ok(proportional_share(points as nat, balance as nat, total as nat) as u128)
    }
}

/// The treasury's cut, the royalty and the owner's amount add up to the
/// listed price exactly, whatever the price: rounding loses nothing.
pub proof fn lemma_fee_split_conserves(price: nat)
    ensures
        fee_cut(price) + fee_cut(price) + owner_amount(price) == price,
        owner_amount(price) >= 0,
{
}

/// A holder of no more points than were issued is owed no more than the
/// treasury holds.
pub proof fn lemma_share_within_balance(points: nat, balance: nat, total: nat)
    requires
        total > 0,
        points <= total,
    ensures
        proportional_share(points, balance, total) <= balance,
{
    assert(points * balance <= total * balance) by (nonlinear_arith)
        requires
            points <= total,
    ;
    assert((points * balance) / total <= balance) by (nonlinear_arith)
        requires
            total > 0,
            points * balance <= total * balance,
    ;
}

/// Divides the listed price of a sale between the treasury, the royalty
/// beneficiary and the previous owner.
pub fn fee_split(price: u128) -> (split: FeeSplit)
    ensures
        split.treasury == fee_cut(price as nat),
        split.royalty == fee_cut(price as nat),
        split.owner == owner_amount(price as nat),
        split.treasury + split.royalty + split.owner == price,
{
    let cut: u128 = price / 100 * FEE_PERCENT + (price % 100) * FEE_PERCENT / 100;
    FeeSplit { treasury: cut, royalty: cut, owner: price - cut - cut }
}

/// The price at which a parcel is listed after a sale at `price`, or `None`
/// when twice the price does not fit in 128 bits.
pub fn escalated_price(price: u128) -> (next: Option<u128>)
    ensures
        next == if escalated(price as nat) <= u128::MAX {
            Some(escalated(price as nat) as u128)
        } else {
            None::<u128>
        },
{
    price.checked_mul(PRICE_FACTOR)
}

fn add_within(sum: Option<u128>, term: u128) -> (next: Option<u128>)
    ensures
        next == if sum is Some && sum.unwrap() + term <= u128::MAX {
            Some((sum.unwrap() + term) as u128)
        } else {
            None::<u128>
        },
{
    match sum {
        Some(value) => value.checked_add(term),
        None => None,
    }
}

/// Divides the product `a * b` by `d`, giving the quotient and the
/// remainder, or `None` if the quotient does not fit in 128 bits. The
/// product itself need not fit: it is built up from `a * (b / 2)`.
fn mul_div_rem(a: u128, b: u128, d: u128) -> (result: Option<(u128, u128)>)
    requires
        d > 0,
    ensures
        match result {
            Some((quotient, remainder)) => quotient == (a * b) / (d as int) && remainder == (a * b)
                % (d as int),
            None => (a * b) / (d as int) > u128::MAX,
        },
    decreases b,
{
    if b == 0 {
        assert(a * b == 0) by (nonlinear_arith)
            requires
                b == 0,
        ;
        return Some((0, 0));
    }
    let half: u128 = b / 2;
    let odd: u128 = b % 2;
    match mul_div_rem(a, half, d) {
        None => {
            proof {
                assert(a * half <= a * b) by (nonlinear_arith)
                    requires
                        half <= b,
                ;
                lemma_div_is_ordered(a * half, a * b, d as int);
            }
            None
        },
        Some((q, m)) => {
            // Twice the half: 2 * (q * d + m).
            let doubled: (u128, u128) = if m >= d - m {
                (m - (d - m), 1)
            } else {
                (m + m, 0)
            };
            // Once more `a`, which is (a / d) * d + a % d, if `b` is odd.
            let a_quotient: u128 = a / d;
            let a_remainder: u128 = a % d;
            let added: (u128, u128, u128) = if odd == 0 {
                (doubled.0, 0, 0)
            } else if doubled.0 >= d - a_remainder {
                (doubled.0 - (d - a_remainder), a_quotient, 1)
            } else {
                (doubled.0 + a_remainder, a_quotient, 0)
            };
            let remainder: u128 = added.0;
            let quotient = add_within(
                add_within(add_within(q.checked_mul(2), doubled.1), added.1),
                added.2,
            );
            proof {
                let total: int = 2 * q + doubled.1 + added.1 + added.2;
                lemma_fundamental_div_mod(a * half, d as int);
                lemma_fundamental_div_mod(a as int, d as int);
                let half_product: int = a * half;
                assert(a * b == 2 * half_product + odd * a) by (nonlinear_arith)
                    requires
                        b == 2 * half + odd,
                        half_product == a * half,
                ;
                assert(a == d * a_quotient + a_remainder);
                assert(odd * a == d * (odd * a_quotient) + odd * a_remainder) by (nonlinear_arith)
                    requires
                        a == d * a_quotient + a_remainder,
                ;
                assert(odd * a_quotient == added.1 && 2 * m + odd * a_remainder == (doubled.1
                    + added.2) * d + remainder) by (nonlinear_arith)
                    requires
                        odd == 0 || odd == 1,
                        odd == 0 ==> added.1 == 0 && added.2 == 0 && remainder == doubled.0,
                        odd == 1 ==> added.1 == a_quotient && doubled.0 + a_remainder == added.2
                            * d + remainder,
                        added.2 == 0 || added.2 == 1,
                        2 * m == doubled.1 * d + doubled.0,
                        doubled.1 == 0 || doubled.1 == 1,
                ;
                assert(total * d + remainder == 2 * (d * q + m) + d * added.1 + odd * a_remainder)
                    by (nonlinear_arith)
                    requires
                        total == 2 * q + doubled.1 + added.1 + added.2,
                        2 * m + odd * a_remainder == (doubled.1 + added.2) * d + remainder,
                ;
                assert(a * b == total * d + remainder);
                lemma_fundamental_div_mod_converse(a * b, d as int, total, remainder as int);
            }
            match quotient {
                Some(quotient) => Some((quotient, remainder)),
                None => None,
            }
        },
    }
}

/// The payout owed to a holder of `points` points when the treasury holds
/// `balance` and `total` points have been issued.
pub fn claim_share(points: u128, balance: u128, total: u128) -> (share: Result<u128, ContractError>)
    ensures
        share == claim_share_outcome(points, balance, total),
        share matches Ok(amount) ==> amount <= balance,
{
    if total == 0 {
        return Err(ContractError::NoRewardsAvailable);
    }
    match mul_div_rem(points, balance, total) {
        Some((amount, _)) => {
            if amount > balance {
                Err(ContractError::PayoutExceedsTreasury)
            } else {
                Ok(amount)
            }
        },
        None => Err(ContractError::PayoutExceedsTreasury),
    }
}

} // verus!
