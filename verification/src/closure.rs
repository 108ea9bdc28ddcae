//! Winding the vault down: refunding users their share of what the vault holds.

use vstd::prelude::*;

use crate::math::{lemma_ratio_at_most, multiply_ratio, ratio};
use crate::state::ContractError;

verus! {

/// A user and the bond units they hold.
#[derive(Debug)]
pub struct UserUnits {
    pub user: String,
    pub bond_units: u128,
}

/// What a user is refunded.
#[derive(Debug)]
pub struct UserRefund {
    pub user: String,
    pub primary_refunded: u128,
    pub secondary_refunded: u128,
}

/// Where a refund round has got to: what is left to share out, the bond units not yet refunded,
/// and the refunds so far.
pub struct RefundRound {
    pub primary: u128,
    pub secondary: u128,
    pub total_bond_units: u128,
    pub refunds: Seq<UserRefund>,
}

/// Refunding one user: their share of what is left by their units among the units left. `None`
/// when no units are left or the user holds more than are left.
pub open spec fn refund_user(r: RefundRound, u: UserUnits) -> Option<RefundRound> {
    if r.total_bond_units == 0 || u.bond_units > r.total_bond_units {
        None
    } else {
        let p = ratio(r.primary as int, u.bond_units as int, r.total_bond_units as int);
        let s = ratio(r.secondary as int, u.bond_units as int, r.total_bond_units as int);
        Some(
            RefundRound {
                primary: (r.primary - p) as u128,
                secondary: (r.secondary - s) as u128,
                total_bond_units: (r.total_bond_units - u.bond_units) as u128,
                refunds: r.refunds.push(
                    UserRefund { user: u.user, primary_refunded: p as u128, secondary_refunded: s as u128 },
                ),
            },
        )
    }
}

/// Refunding the users in order.
pub open spec fn refund_round(start: RefundRound, users: Seq<UserUnits>) -> Option<RefundRound>
    decreases users.len(),
{
    if users.len() == 0 {
        Some(start)
    } else {
        match refund_round(start, users.drop_last()) {
            None => None,
            Some(r) => refund_user(r, users.last()),
        }
    }
}

/// Refunds a batch of users their share, by bond units, of the primary and secondary assets the
/// vault holds; returns the refunds in order, and leaves in the arguments what is left to share
/// out and the bond units not yet refunded.
pub fn refund_batch(
    primary_amount: &mut u128,
    secondary_amount: &mut u128,
    total_bond_units: &mut u128,
    users: &Vec<UserUnits>,
) -> (refunds: Vec<UserRefund>)
    requires
        refund_round(
            RefundRound {
                primary: *old(primary_amount),
                secondary: *old(secondary_amount),
                total_bond_units: *old(total_bond_units),
                refunds: Seq::empty(),
            },
            users@,
        ) is Some,
    ensures
        refund_round(
            RefundRound {
                primary: *old(primary_amount),
                secondary: *old(secondary_amount),
                total_bond_units: *old(total_bond_units),
                refunds: Seq::empty(),
            },
            users@,
        ) == Some(
            RefundRound {
                primary: *final(primary_amount),
                secondary: *final(secondary_amount),
                total_bond_units: *final(total_bond_units),
                refunds: refunds@,
            },
        ),
{
    let ghost start = RefundRound {
        primary: *primary_amount,
        secondary: *secondary_amount,
        total_bond_units: *total_bond_units,
        refunds: Seq::empty(),
    };
    let mut refunds: Vec<UserRefund> = Vec::new();
    let mut i: usize = 0;
    while i < users.len()
        invariant
            i <= users.len(),
            refund_round(start, users@) is Some,
            refund_round(start, users@.take(i as int)) == Some(
                RefundRound {
                    primary: *primary_amount,
                    secondary: *secondary_amount,
                    total_bond_units: *total_bond_units,
                    refunds: refunds@,
                },
            ),
        decreases users.len() - i,
    {
        proof {
            lemma_round_prefix(start, users@, i as int + 1);
            assert(users@.take(i + 1).drop_last() == users@.take(i as int));
            assert(users@.take(i + 1).last() == users@[i as int]);
        }
        let u = &users[i];
        proof {
            lemma_ratio_at_most(*primary_amount as int, u.bond_units as int, *total_bond_units as int);
            lemma_ratio_at_most(
                *secondary_amount as int,
                u.bond_units as int,
                *total_bond_units as int,
            );
        }
        let p = multiply_ratio(*primary_amount, u.bond_units, *total_bond_units);
        let s = multiply_ratio(*secondary_amount, u.bond_units, *total_bond_units);
        *primary_amount = *primary_amount - p;
        *secondary_amount = *secondary_amount - s;
        *total_bond_units = *total_bond_units - u.bond_units;
        refunds.push(
            UserRefund { user: u.user.clone(), primary_refunded: p, secondary_refunded: s },
        );
        i = i + 1;
    }
    assert(users@.take(users.len() as int) == users@);
    refunds
}

/// A round that succeeds on all users succeeds on every prefix of them.
proof fn lemma_round_prefix(start: RefundRound, users: Seq<UserUnits>, n: int)
    requires
        0 <= n <= users.len(),
        refund_round(start, users) is Some,
    ensures
        refund_round(start, users.take(n)) is Some,
    decreases users.len() - n,
{
    if n == users.len() {
        assert(users.take(n) == users);
    } else {
        lemma_round_prefix(start, users, n + 1);
        assert(users.take(n + 1).drop_last() == users.take(n));
    }
}

/// Allows wiping the vault's storage only once every position has been refunded.
pub fn check_purge(total_bond_units: u128) -> (r: Result<(), ContractError>)
    ensures
        total_bond_units == 0 ==> r is Ok,
        total_bond_units != 0 ==> r matches Err(ContractError::RefundsPending),
{
    if total_bond_units != 0 {
        return Err(ContractError::RefundsPending);
    }
    Ok(())
}

} // verus!
