//! The ledger: operational state, exchange-rate table and liquidity shares,
//! with the settlement logic for swap, deposit and withdrawal.
//!
//! Value movement, caller identity and event emission belong to the host:
//! the operations here take the invoking principal, the owner principal
//! and the contract's held balance as plain arguments, decide, update the
//! books, and report the payout for the host to transfer.

use crate::asset::{bytes_eq, is_valid_asset_id, valid_asset_id};
use crate::table;
use crate::table::{table_keys_unique, table_lookup, Entry};
use vstd::prelude::*;

verus! {

/// The operational flag that gates every balance-mutating operation.
#[derive(Clone, Copy, Debug, PartialEq, Eq, Structural)]
pub enum State {
    Inactive,
    Active,
    Paused,
}

/// Why an operation was rejected. Every failure is terminal for the
/// operation and leaves the ledger unchanged.
#[derive(Clone, Copy, Debug, PartialEq, Eq, Structural)]
pub enum SwapError {
    /// A malformed asset identifier was supplied.
    InvalidAsset,
    /// An amount or rate was zero where a positive value is required.
    InvalidAmount,
    /// A mutating operation was attempted while the state is not `Active`.
    NotActive,
    /// An owner-only operation was invoked by another principal.
    Unauthorized,
    /// No positive rate is configured for the requested pair.
    RateNotSet,
    /// The contract's destination-asset balance cannot cover the payout.
    InsufficientLiquidity,
    /// A withdrawal asked for more than the caller's recorded share.
    InsufficientShare,
}

/// The ledger itself: the operational state, the rate table and the
/// liquidity-share table, behind a single-writer interface.
pub struct TokenSwap {
    state: State,
    rates: Vec<Entry>,
    shares: Vec<Entry>,
}

/// The two ledgers differ at most in the rate stored for the given pair,
/// which `post` holds at `rate`.
pub open spec fn rates_updated(
    pre: TokenSwap,
    post: TokenSwap,
    from: Seq<u8>,
    to: Seq<u8>,
    rate: u128,
) -> bool {
    &&& post.state_view() == pre.state_view()
    &&& post.rate_of(from, to) == rate
    &&& (forall|f: Seq<u8>, t: Seq<u8>|
        !(f == from && t == to) ==> #[trigger] post.rate_of(f, t) == pre.rate_of(f, t))
    &&& (forall|p: Seq<u8>, a: Seq<u8>| #[trigger] post.share_of(p, a) == pre.share_of(p, a))
}

/// The two ledgers differ at most in the share recorded for the given
/// (provider, asset) key, which `post` holds at `amount`.
pub open spec fn shares_updated(
    pre: TokenSwap,
    post: TokenSwap,
    provider: Seq<u8>,
    asset: Seq<u8>,
    amount: u128,
) -> bool {
    &&& post.state_view() == pre.state_view()
    &&& (forall|f: Seq<u8>, t: Seq<u8>| #[trigger] post.rate_of(f, t) == pre.rate_of(f, t))
    &&& post.share_of(provider, asset) == amount
    &&& (forall|p: Seq<u8>, a: Seq<u8>|
        !(p == provider && a == asset) ==> #[trigger] post.share_of(p, a) == pre.share_of(p, a))
}

/// The two ledgers differ at most in the operational state, which `post`
/// holds at `state`.
pub open spec fn state_set(pre: TokenSwap, post: TokenSwap, state: State) -> bool {
    &&& post.state_view() == state
    &&& (forall|f: Seq<u8>, t: Seq<u8>| #[trigger] post.rate_of(f, t) == pre.rate_of(f, t))
    &&& (forall|p: Seq<u8>, a: Seq<u8>| #[trigger] post.share_of(p, a) == pre.share_of(p, a))
}

impl TokenSwap {
    /// The current operational state, as contracts see it.
    pub closed spec fn state_view(self) -> State {
        self.state
    }

    /// The configured rate for the ordered pair, with 0 standing for
    /// "not set".
    pub closed spec fn rate_of(self, from: Seq<u8>, to: Seq<u8>) -> u128 {
        table_lookup(self.rates@, from, to)
    }

    /// The provider's recorded liquidity share of the asset, with unseen
    /// keys defaulting to 0.
    pub closed spec fn share_of(self, provider: Seq<u8>, asset: Seq<u8>) -> u128 {
        table_lookup(self.shares@, provider, asset)
    }

    /// Well-formedness: each key pair occurs at most once in its table.
    pub closed spec fn wf(self) -> bool {
        table_keys_unique(self.rates@) && table_keys_unique(self.shares@)
    }

    /// The payout of a swap: `floor(from_amount * rate / 1000)`, with the
    /// rate a fixed-point number scaled by 1000.
    pub open spec fn swap_payout(self, from: Seq<u8>, from_amount: u128, to: Seq<u8>) -> int {
        (from_amount * self.rate_of(from, to)) / 1000
    }

    /// When a swap goes through: the state is `Active`, both identifiers
    /// are well-formed, the amount is positive, a positive rate is set,
    /// and the contract's destination-asset balance covers the payout.
    pub open spec fn swap_ok(
        self,
        from: Seq<u8>,
        from_amount: u128,
        to: Seq<u8>,
        to_asset_balance: u128,
    ) -> bool {
        &&& self.state_view() == State::Active
        &&& valid_asset_id(from)
        &&& valid_asset_id(to)
        &&& from_amount > 0
        &&& self.rate_of(from, to) > 0
        &&& to_asset_balance >= self.swap_payout(from, from_amount, to)
    }

    /// When a deposit goes through: the state is `Active`, the identifier
    /// is well-formed and the amount is positive.
    pub open spec fn add_ok(self, asset: Seq<u8>, amount: u128) -> bool {
        self.state_view() == State::Active && valid_asset_id(asset) && amount > 0
    }

    /// When a withdrawal goes through: the state is `Active`, the
    /// identifier is well-formed, the amount is positive and the caller's
    /// recorded share covers it.
    pub open spec fn remove_ok(self, caller: Seq<u8>, asset: Seq<u8>, amount: u128) -> bool {
        &&& self.state_view() == State::Active
        &&& valid_asset_id(asset)
        &&& amount > 0
        &&& self.share_of(caller, asset) >= amount
    }

    /// A fresh ledger: state `Inactive`, no rates, no shares.
    pub fn init() -> (r: TokenSwap)
        ensures
            r.wf(),
            r.state_view() == State::Inactive,
            forall|f: Seq<u8>, t: Seq<u8>| #[trigger] r.rate_of(f, t) == 0,
            forall|p: Seq<u8>, a: Seq<u8>| #[trigger] r.share_of(p, a) == 0,
    {
        TokenSwap { state: State::Inactive, rates: Vec::new(), shares: Vec::new() }
    }

    /// The current operational state. Pure read, always succeeds.
    pub fn get_state(&self) -> (r: State)
        ensures
            r == self.state_view(),
    {
        self.state
    }

    /// Passes exactly when the state is `Active`; every balance-mutating
    /// operation consults this first.
    pub fn require_state_active(&self) -> (r: Result<(), SwapError>)
        ensures
            r == (if self.state_view() == State::Active {
                Ok::<(), SwapError>(())
            } else {
                Err::<(), SwapError>(SwapError::NotActive)
            }),
    {
        match self.state {
            State::Active => Ok(()),
            _ => Err(SwapError::NotActive),
        }
    }

    /// Passes exactly when the invoking principal is the owner; the
    /// owner-only setters consult this first.
    pub fn require_caller_owner(caller: &Vec<u8>, owner: &Vec<u8>) -> (r: Result<(), SwapError>)
        ensures
            r == (if caller@ == owner@ {
                Ok::<(), SwapError>(())
            } else {
                Err::<(), SwapError>(SwapError::Unauthorized)
            }),
    {
        if bytes_eq(caller, owner) {
            Ok(())
        } else {
            Err(SwapError::Unauthorized)
        }
    }

    /// The provider's recorded liquidity share of the asset. Pure read,
    /// always succeeds; unseen keys read as 0.
    pub fn get_liquidity_share(&self, address: &Vec<u8>, token_id: &Vec<u8>) -> (r: u128)
        requires
            self.wf(),
        ensures
            r == self.share_of(address@, token_id@),
    {
        table::lookup(&self.shares, address, token_id)
    }

    /// The configured rate for the ordered pair. Fails with
    /// `InvalidAsset` on a malformed identifier and with `RateNotSet`
    /// when no positive rate is stored for the pair.
    pub fn get_exchange_rate(&self, from_token_id: &Vec<u8>, to_token_id: &Vec<u8>) -> (r: Result<
        u128,
        SwapError,
    >)
        requires
            self.wf(),
        ensures
            (!valid_asset_id(from_token_id@) || !valid_asset_id(to_token_id@)) ==> r == Err::<
                u128,
                SwapError,
            >(SwapError::InvalidAsset),
            (valid_asset_id(from_token_id@) && valid_asset_id(to_token_id@) && self.rate_of(
                from_token_id@,
                to_token_id@,
            ) == 0) ==> r == Err::<u128, SwapError>(SwapError::RateNotSet),
            (valid_asset_id(from_token_id@) && valid_asset_id(to_token_id@) && self.rate_of(
                from_token_id@,
                to_token_id@,
            ) > 0) ==> r == Ok::<u128, SwapError>(self.rate_of(from_token_id@, to_token_id@)),
    {
        if !(is_valid_asset_id(from_token_id) && is_valid_asset_id(to_token_id)) {
            return Err(SwapError::InvalidAsset);
        }
        let rate: u128 = table::lookup(&self.rates, from_token_id, to_token_id);
        if rate == 0 {
            return Err(SwapError::RateNotSet);
        }
        Ok(rate)
    }

    /// Overwrites the rate for the ordered pair. Owner-only; both
    /// identifiers must be well-formed and the rate positive. Nothing
    /// else of the ledger changes; on failure nothing changes at all.
    pub fn set_exchange_rate(
        &mut self,
        caller: &Vec<u8>,
        owner: &Vec<u8>,
        from_token_id: &Vec<u8>,
        to_token_id: &Vec<u8>,
        rate: u128,
    ) -> (r: Result<(), SwapError>)
        requires
            old(self).wf(),
        ensures
            final(self).wf(),
            (r == Ok::<(), SwapError>(())) <==> (caller@ == owner@ && valid_asset_id(
                from_token_id@,
            ) && valid_asset_id(to_token_id@) && rate > 0),
            caller@ != owner@ ==> r == Err::<(), SwapError>(SwapError::Unauthorized),
            (caller@ == owner@ && (!valid_asset_id(from_token_id@) || !valid_asset_id(
                to_token_id@,
            ))) ==> r == Err::<(), SwapError>(SwapError::InvalidAsset),
            (caller@ == owner@ && valid_asset_id(from_token_id@) && valid_asset_id(to_token_id@)
                && rate == 0) ==> r == Err::<(), SwapError>(SwapError::InvalidAmount),
            (r matches Ok(_)) ==> rates_updated(
                *old(self),
                *final(self),
                from_token_id@,
                to_token_id@,
                rate,
            ),
            (r matches Err(_)) ==> *final(self) == *old(self),
    {
        match Self::require_caller_owner(caller, owner) {
            Ok(()) => {},
            Err(e) => {
                return Err(e);
            },
        }
        if !(is_valid_asset_id(from_token_id) && is_valid_asset_id(to_token_id)) {
            return Err(SwapError::InvalidAsset);
        }
        if rate == 0 {
            return Err(SwapError::InvalidAmount);
        }
        table::store(&mut self.rates, from_token_id, to_token_id, rate);
        Ok(())
    }

    /// Overwrites the operational state. Owner-only; any state is
    /// reachable from any state. Nothing else of the ledger changes; on
    /// failure nothing changes at all.
    pub fn set_state(&mut self, caller: &Vec<u8>, owner: &Vec<u8>, state: State) -> (r: Result<
        (),
        SwapError,
    >)
        requires
            old(self).wf(),
        ensures
            final(self).wf(),
            (r == Ok::<(), SwapError>(())) <==> caller@ == owner@,
            caller@ != owner@ ==> r == Err::<(), SwapError>(SwapError::Unauthorized) && *final(self)
                == *old(self),
            (r matches Ok(_)) ==> state_set(*old(self), *final(self), state),
    {
        match Self::require_caller_owner(caller, owner) {
            Ok(()) => {},
            Err(e) => {
                return Err(e);
            },
        }
        self.state = state;
        Ok(())
    }

    /// Settles a swap of `from_amount` units of the source asset into
    /// `floor(from_amount * rate / 1000)` units of the destination asset.
    /// `to_asset_balance` is the contract's held balance of the
    /// destination asset, as the host's balance oracle reports it; the
    /// payout is returned for the host to transfer. The ledger itself is
    /// not written: shares are bookkeeping for deposits and withdrawals
    /// alone, and the sole solvency check is the held balance.
    pub fn swap(
        &self,
        from_token_id: &Vec<u8>,
        from_amount: u128,
        to_token_id: &Vec<u8>,
        to_asset_balance: u128,
    ) -> (r: Result<u128, SwapError>)
        requires
            self.wf(),
            from_amount * self.rate_of(from_token_id@, to_token_id@) <= u128::MAX,
        ensures
            (r matches Ok(_)) <==> self.swap_ok(
                from_token_id@,
                from_amount,
                to_token_id@,
                to_asset_balance,
            ),
            self.swap_ok(from_token_id@, from_amount, to_token_id@, to_asset_balance) ==> r
                == Ok::<u128, SwapError>(
                self.swap_payout(from_token_id@, from_amount, to_token_id@) as u128,
            ),
            self.state_view() != State::Active ==> r == Err::<u128, SwapError>(SwapError::NotActive),
            (self.state_view() == State::Active && (!valid_asset_id(from_token_id@)
                || !valid_asset_id(to_token_id@))) ==> r == Err::<u128, SwapError>(
                SwapError::InvalidAsset,
            ),
            (self.state_view() == State::Active && valid_asset_id(from_token_id@) && valid_asset_id(
                to_token_id@,
            ) && from_amount == 0) ==> r == Err::<u128, SwapError>(SwapError::InvalidAmount),
            (self.state_view() == State::Active && valid_asset_id(from_token_id@) && valid_asset_id(
                to_token_id@,
            ) && from_amount > 0 && self.rate_of(from_token_id@, to_token_id@) == 0) ==> r == Err::<
                u128,
                SwapError,
            >(SwapError::RateNotSet),
            (self.state_view() == State::Active && valid_asset_id(from_token_id@) && valid_asset_id(
                to_token_id@,
            ) && from_amount > 0 && self.rate_of(from_token_id@, to_token_id@) > 0
                && to_asset_balance < self.swap_payout(from_token_id@, from_amount, to_token_id@))
                ==> r == Err::<u128, SwapError>(SwapError::InsufficientLiquidity),
    {
        match self.require_state_active() {
            Ok(()) => {},
            Err(e) => {
                return Err(e);
            },
        }
        if !(is_valid_asset_id(from_token_id) && is_valid_asset_id(to_token_id)) {
            return Err(SwapError::InvalidAsset);
        }
        if from_amount == 0 {
            return Err(SwapError::InvalidAmount);
        }
        let rate: u128 = match self.get_exchange_rate(from_token_id, to_token_id) {
            Ok(rate) => rate,
            Err(e) => {
                return Err(e);
            },
        };
        let to_amount: u128 = from_amount * rate / 1000;
        if to_asset_balance < to_amount {
            return Err(SwapError::InsufficientLiquidity);
        }
        Ok(to_amount)
    }

    /// Records a deposit: the caller's share of the asset grows by
    /// `amount`, which the host has transferred into the contract. No
    /// other share, no rate and not the state changes; on failure
    /// nothing changes at all.
    pub fn add_liquidity(&mut self, caller: &Vec<u8>, token_id: &Vec<u8>, amount: u128) -> (r:
        Result<(), SwapError>)
        requires
            old(self).wf(),
            old(self).share_of(caller@, token_id@) + amount <= u128::MAX,
        ensures
            final(self).wf(),
            (r == Ok::<(), SwapError>(())) <==> old(self).add_ok(token_id@, amount),
            old(self).state_view() != State::Active ==> r == Err::<(), SwapError>(
                SwapError::NotActive,
            ),
            (old(self).state_view() == State::Active && !valid_asset_id(token_id@)) ==> r == Err::<
                (),
                SwapError,
            >(SwapError::InvalidAsset),
            (old(self).state_view() == State::Active && valid_asset_id(token_id@) && amount == 0)
                ==> r == Err::<(), SwapError>(SwapError::InvalidAmount),
            (r matches Ok(_)) ==> shares_updated(
                *old(self),
                *final(self),
                caller@,
                token_id@,
                (old(self).share_of(caller@, token_id@) + amount) as u128,
            ),
            (r matches Err(_)) ==> *final(self) == *old(self),
    {
        match self.require_state_active() {
            Ok(()) => {},
            Err(e) => {
                return Err(e);
            },
        }
        if !is_valid_asset_id(token_id) {
            return Err(SwapError::InvalidAsset);
        }
        if amount == 0 {
            return Err(SwapError::InvalidAmount);
        }
        let share: u128 = table::lookup(&self.shares, caller, token_id);
        table::store(&mut self.shares, caller, token_id, share + amount);
        Ok(())
    }

    /// Records a withdrawal: the caller's share of the asset shrinks by
    /// `amount`, which the host then transfers out of the contract. The
    /// share can never go below zero: a request beyond the recorded
    /// share fails with `InsufficientShare` and changes nothing.
    pub fn remove_liquidity(&mut self, caller: &Vec<u8>, token_id: &Vec<u8>, amount: u128) -> (r:
        Result<(), SwapError>)
        requires
            old(self).wf(),
        ensures
            final(self).wf(),
            (r == Ok::<(), SwapError>(())) <==> old(self).remove_ok(caller@, token_id@, amount),
            old(self).state_view() != State::Active ==> r == Err::<(), SwapError>(
                SwapError::NotActive,
            ),
            (old(self).state_view() == State::Active && !valid_asset_id(token_id@)) ==> r == Err::<
                (),
                SwapError,
            >(SwapError::InvalidAsset),
            (old(self).state_view() == State::Active && valid_asset_id(token_id@) && amount == 0)
                ==> r == Err::<(), SwapError>(SwapError::InvalidAmount),
            (old(self).state_view() == State::Active && valid_asset_id(token_id@) && amount > 0
                && old(self).share_of(caller@, token_id@) < amount) ==> r == Err::<(), SwapError>(
                SwapError::InsufficientShare,
            ),
            (r matches Ok(_)) ==> shares_updated(
                *old(self),
                *final(self),
                caller@,
                token_id@,
                (old(self).share_of(caller@, token_id@) - amount) as u128,
            ),
            (r matches Err(_)) ==> *final(self) == *old(self),
    {
        match self.require_state_active() {
            Ok(()) => {},
            Err(e) => {
                return Err(e);
            },
        }
        if !is_valid_asset_id(token_id) {
            return Err(SwapError::InvalidAsset);
        }
        if amount == 0 {
            return Err(SwapError::InvalidAmount);
        }
        let share: u128 = table::lookup(&self.shares, caller, token_id);
        if share < amount {
            return Err(SwapError::InsufficientShare);
        }
        table::store(&mut self.shares, caller, token_id, share - amount);
        Ok(())
    }
}

} // verus!
