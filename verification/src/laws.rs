//! Laws that relate the ledger's operations to one another, stated over
//! the spec functions that the operations' own contracts use.

use crate::asset::valid_asset_id;
use crate::ledger::{shares_updated, State, TokenSwap};
use vstd::prelude::*;

verus! {

/// A swap can never pay out more than the contract holds of the
/// destination asset: whenever the held balance is below the computed
/// payout, the swap is rejected.
pub proof fn lemma_swap_solvency(
    l: TokenSwap,
    from: Seq<u8>,
    from_amount: u128,
    to: Seq<u8>,
    to_asset_balance: u128,
)
    ensures
        to_asset_balance < l.swap_payout(from, from_amount, to) ==> !l.swap_ok(
            from,
            from_amount,
            to,
            to_asset_balance,
        ),
{
}

/// The swap decision reads only the state gate and the rate table, never
/// the share table: two ledgers that agree on those agree on whether a
/// swap goes through and on its payout, whatever the caller's own
/// liquidity share in either of them.
pub proof fn lemma_swap_ignores_shares(
    l1: TokenSwap,
    l2: TokenSwap,
    from: Seq<u8>,
    from_amount: u128,
    to: Seq<u8>,
    to_asset_balance: u128,
)
    requires
        l1.state_view() == l2.state_view(),
        l1.rate_of(from, to) == l2.rate_of(from, to),
    ensures
        l1.swap_ok(from, from_amount, to, to_asset_balance) == l2.swap_ok(
            from,
            from_amount,
            to,
            to_asset_balance,
        ),
        l1.swap_payout(from, from_amount, to) == l2.swap_payout(from, from_amount, to),
{
}

/// A deposit followed by a withdrawal of the same amount for the same
/// (provider, asset) key returns the ledger to where it stood: same
/// state, same rates, every share as before.
pub proof fn lemma_add_remove_round_trip(
    l0: TokenSwap,
    l1: TokenSwap,
    l2: TokenSwap,
    provider: Seq<u8>,
    asset: Seq<u8>,
    amount: u128,
)
    requires
        l0.share_of(provider, asset) + amount <= u128::MAX,
        shares_updated(l0, l1, provider, asset, (l0.share_of(provider, asset) + amount) as u128),
        shares_updated(l1, l2, provider, asset, (l1.share_of(provider, asset) - amount) as u128),
    ensures
        l2.state_view() == l0.state_view(),
        forall|f: Seq<u8>, t: Seq<u8>| #[trigger] l2.rate_of(f, t) == l0.rate_of(f, t),
        forall|p: Seq<u8>, a: Seq<u8>| #[trigger] l2.share_of(p, a) == l0.share_of(p, a),
{
    assert forall|p: Seq<u8>, a: Seq<u8>| #[trigger] l2.share_of(p, a) == l0.share_of(p, a) by {
        if p == provider && a == asset {
        } else {
            assert(l1.share_of(p, a) == l0.share_of(p, a));
        }
    }
}

/// After a successful deposit, a withdrawal of the same amount for the
/// same (provider, asset) key is always permitted: the state is still
/// `Active` and the recorded share covers the amount.
pub proof fn lemma_remove_after_add(
    l0: TokenSwap,
    l1: TokenSwap,
    provider: Seq<u8>,
    asset: Seq<u8>,
    amount: u128,
)
    requires
        l0.add_ok(asset, amount),
        l0.share_of(provider, asset) + amount <= u128::MAX,
        shares_updated(l0, l1, provider, asset, (l0.share_of(provider, asset) + amount) as u128),
    ensures
        l1.remove_ok(provider, asset, amount),
{
}

/// The state gate: no balance-mutating operation goes through unless the
/// state is exactly `Active`; and once it is, each of the three goes
/// through whenever its remaining conditions hold.
pub proof fn lemma_state_gate(
    l: TokenSwap,
    caller: Seq<u8>,
    from: Seq<u8>,
    to: Seq<u8>,
    amount: u128,
    balance: u128,
)
    ensures
        l.state_view() != State::Active ==> !l.swap_ok(from, amount, to, balance) && !l.add_ok(
            from,
            amount,
        ) && !l.remove_ok(caller, from, amount),
        (l.state_view() == State::Active && valid_asset_id(from) && valid_asset_id(to) && amount
            > 0 && l.rate_of(from, to) > 0 && balance >= l.swap_payout(from, amount, to))
            ==> l.swap_ok(from, amount, to, balance),
        (l.state_view() == State::Active && valid_asset_id(from) && amount > 0) ==> l.add_ok(
            from,
            amount,
        ),
        (l.state_view() == State::Active && valid_asset_id(from) && amount > 0 && l.share_of(
            caller,
            from,
        ) >= amount) ==> l.remove_ok(caller, from, amount),
{
}

} // verus!
