use token_swap::ledger::{State, SwapError, TokenSwap};

fn bytes(s: &str) -> Vec<u8> {
    s.as_bytes().to_vec()
}

/// A ledger that is Active with rate TOKA-123456 -> TOKB-123456 set to
/// `rate`, owned by "owner".
fn active_with_rate(rate: u128) -> TokenSwap {
    let owner = bytes("owner");
    let mut l = TokenSwap::init();
    l.set_exchange_rate(&owner, &owner, &bytes("TOKA-123456"), &bytes("TOKB-123456"), rate)
        .unwrap();
    l.set_state(&owner, &owner, State::Active).unwrap();
    l
}

#[test]
fn init_state_is_inactive() {
    let l = TokenSwap::init();
    assert_eq!(l.get_state(), State::Inactive);
}

#[test]
fn init_shares_default_to_zero() {
    let l = TokenSwap::init();
    assert_eq!(l.get_liquidity_share(&bytes("anyone"), &bytes("TOKA-123456")), 0);
}

#[test]
fn set_state_overwrites_unconditionally() {
    let owner = bytes("owner");
    let mut l = TokenSwap::init();
    assert_eq!(l.set_state(&owner, &owner, State::Active), Ok(()));
    assert_eq!(l.get_state(), State::Active);
    assert_eq!(l.set_state(&owner, &owner, State::Paused), Ok(()));
    assert_eq!(l.get_state(), State::Paused);
    assert_eq!(l.set_state(&owner, &owner, State::Inactive), Ok(()));
    assert_eq!(l.get_state(), State::Inactive);
}

#[test]
fn set_state_rejects_non_owner() {
    let owner = bytes("owner");
    let mut l = TokenSwap::init();
    assert_eq!(l.set_state(&bytes("mallory"), &owner, State::Active), Err(SwapError::Unauthorized));
    assert_eq!(l.get_state(), State::Inactive);
}

#[test]
fn set_exchange_rate_rejects_non_owner() {
    let owner = bytes("owner");
    let mut l = TokenSwap::init();
    let r = l.set_exchange_rate(
        &bytes("mallory"),
        &owner,
        &bytes("TOKA-123456"),
        &bytes("TOKB-123456"),
        2000,
    );
    assert_eq!(r, Err(SwapError::Unauthorized));
}

#[test]
fn set_exchange_rate_rejects_malformed_asset() {
    let owner = bytes("owner");
    let mut l = TokenSwap::init();
    let r = l.set_exchange_rate(&owner, &owner, &bytes("bad"), &bytes("TOKB-123456"), 2000);
    assert_eq!(r, Err(SwapError::InvalidAsset));
}

#[test]
fn set_exchange_rate_rejects_zero_rate() {
    let owner = bytes("owner");
    let mut l = TokenSwap::init();
    let r = l.set_exchange_rate(&owner, &owner, &bytes("TOKA-123456"), &bytes("TOKB-123456"), 0);
    assert_eq!(r, Err(SwapError::InvalidAmount));
}

#[test]
fn get_exchange_rate_fails_when_unset() {
    let l = TokenSwap::init();
    let r = l.get_exchange_rate(&bytes("TOKA-123456"), &bytes("TOKB-123456"));
    assert_eq!(r, Err(SwapError::RateNotSet));
}

#[test]
fn get_exchange_rate_validates_identifiers() {
    let l = TokenSwap::init();
    assert_eq!(
        l.get_exchange_rate(&bytes("nope"), &bytes("TOKB-123456")),
        Err(SwapError::InvalidAsset)
    );
    assert_eq!(
        l.get_exchange_rate(&bytes("TOKA-123456"), &bytes("")),
        Err(SwapError::InvalidAsset)
    );
}

#[test]
fn get_exchange_rate_returns_what_was_set() {
    let l = active_with_rate(2000);
    assert_eq!(l.get_exchange_rate(&bytes("TOKA-123456"), &bytes("TOKB-123456")), Ok(2000));
}

#[test]
fn set_exchange_rate_overwrites_prior_entry() {
    let owner = bytes("owner");
    let mut l = active_with_rate(2000);
    l.set_exchange_rate(&owner, &owner, &bytes("TOKA-123456"), &bytes("TOKB-123456"), 3000)
        .unwrap();
    assert_eq!(l.get_exchange_rate(&bytes("TOKA-123456"), &bytes("TOKB-123456")), Ok(3000));
}

#[test]
fn exchange_rate_is_directional() {
    let l = active_with_rate(2000);
    assert_eq!(
        l.get_exchange_rate(&bytes("TOKB-123456"), &bytes("TOKA-123456")),
        Err(SwapError::RateNotSet)
    );
}

#[test]
fn swap_two_to_one_scenario() {
    // rate 2000 is 2:1; swapping 100 with the contract holding 200 of
    // the destination asset pays out exactly 200.
    let l = active_with_rate(2000);
    let r = l.swap(&bytes("TOKA-123456"), 100, &bytes("TOKB-123456"), 200);
    assert_eq!(r, Ok(200));
}

#[test]
fn swap_payout_truncates_down() {
    // 3 * 1500 / 1000 = 4.5, which settles as 4.
    let l = active_with_rate(1500);
    let r = l.swap(&bytes("TOKA-123456"), 3, &bytes("TOKB-123456"), 1_000_000);
    assert_eq!(r, Ok(4));
}

#[test]
fn swap_of_tiny_amount_pays_zero() {
    // 999 * 1 / 1000 truncates to 0: a degenerate but permitted swap.
    let l = active_with_rate(1);
    let r = l.swap(&bytes("TOKA-123456"), 999, &bytes("TOKB-123456"), 0);
    assert_eq!(r, Ok(0));
}

#[test]
fn swap_fails_on_insufficient_liquidity() {
    // one unit short of the 200 payout
    let l = active_with_rate(2000);
    let r = l.swap(&bytes("TOKA-123456"), 100, &bytes("TOKB-123456"), 199);
    assert_eq!(r, Err(SwapError::InsufficientLiquidity));
}

#[test]
fn swap_solvency_ignores_caller_share() {
    // a large share of the destination asset does not let a swap
    // outrun the contract's held balance
    let caller = bytes("provider");
    let mut l = active_with_rate(2000);
    l.add_liquidity(&caller, &bytes("TOKB-123456"), 1_000_000).unwrap();
    let r = l.swap(&bytes("TOKA-123456"), 100, &bytes("TOKB-123456"), 199);
    assert_eq!(r, Err(SwapError::InsufficientLiquidity));
}

#[test]
fn swap_fails_when_rate_unset() {
    let owner = bytes("owner");
    let mut l = TokenSwap::init();
    l.set_state(&owner, &owner, State::Active).unwrap();
    let r = l.swap(&bytes("TOKA-123456"), 100, &bytes("TOKB-123456"), 200);
    assert_eq!(r, Err(SwapError::RateNotSet));
}

#[test]
fn swap_fails_on_zero_amount() {
    let l = active_with_rate(2000);
    let r = l.swap(&bytes("TOKA-123456"), 0, &bytes("TOKB-123456"), 200);
    assert_eq!(r, Err(SwapError::InvalidAmount));
}

#[test]
fn swap_fails_on_malformed_asset() {
    let l = active_with_rate(2000);
    let r = l.swap(&bytes("toka"), 100, &bytes("TOKB-123456"), 200);
    assert_eq!(r, Err(SwapError::InvalidAsset));
}

#[test]
fn swap_permits_same_asset_pair() {
    let owner = bytes("owner");
    let mut l = TokenSwap::init();
    l.set_exchange_rate(&owner, &owner, &bytes("TOKA-123456"), &bytes("TOKA-123456"), 1000)
        .unwrap();
    l.set_state(&owner, &owner, State::Active).unwrap();
    let r = l.swap(&bytes("TOKA-123456"), 100, &bytes("TOKA-123456"), 100);
    assert_eq!(r, Ok(100));
}

#[test]
fn add_liquidity_increments_share() {
    let caller = bytes("provider");
    let mut l = active_with_rate(2000);
    assert_eq!(l.add_liquidity(&caller, &bytes("TOKA-123456"), 500), Ok(()));
    assert_eq!(l.get_liquidity_share(&caller, &bytes("TOKA-123456")), 500);
    assert_eq!(l.add_liquidity(&caller, &bytes("TOKA-123456"), 250), Ok(()));
    assert_eq!(l.get_liquidity_share(&caller, &bytes("TOKA-123456")), 750);
}

#[test]
fn add_liquidity_keeps_other_keys() {
    let caller = bytes("provider");
    let other = bytes("other");
    let mut l = active_with_rate(2000);
    l.add_liquidity(&caller, &bytes("TOKA-123456"), 500).unwrap();
    assert_eq!(l.get_liquidity_share(&other, &bytes("TOKA-123456")), 0);
    assert_eq!(l.get_liquidity_share(&caller, &bytes("TOKB-123456")), 0);
}

#[test]
fn add_liquidity_rejects_zero_amount() {
    let caller = bytes("provider");
    let mut l = active_with_rate(2000);
    assert_eq!(l.add_liquidity(&caller, &bytes("TOKA-123456"), 0), Err(SwapError::InvalidAmount));
}

#[test]
fn add_liquidity_rejects_malformed_asset() {
    let caller = bytes("provider");
    let mut l = active_with_rate(2000);
    assert_eq!(l.add_liquidity(&caller, &bytes("TOKA"), 500), Err(SwapError::InvalidAsset));
}

#[test]
fn remove_liquidity_decrements_share_exactly() {
    let caller = bytes("provider");
    let mut l = active_with_rate(2000);
    l.add_liquidity(&caller, &bytes("TOKA-123456"), 500).unwrap();
    assert_eq!(l.remove_liquidity(&caller, &bytes("TOKA-123456"), 200), Ok(()));
    assert_eq!(l.get_liquidity_share(&caller, &bytes("TOKA-123456")), 300);
}

#[test]
fn deposit_then_overdraw_scenario() {
    // deposit 500, withdraw 600: the withdrawal fails and the share
    // stays at 500
    let caller = bytes("provider");
    let mut l = active_with_rate(2000);
    l.add_liquidity(&caller, &bytes("TOKA-123456"), 500).unwrap();
    assert_eq!(
        l.remove_liquidity(&caller, &bytes("TOKA-123456"), 600),
        Err(SwapError::InsufficientShare)
    );
    assert_eq!(l.get_liquidity_share(&caller, &bytes("TOKA-123456")), 500);
}

#[test]
fn add_then_remove_round_trip() {
    let caller = bytes("provider");
    let mut l = active_with_rate(2000);
    l.add_liquidity(&caller, &bytes("TOKA-123456"), 100).unwrap();
    let prior = l.get_liquidity_share(&caller, &bytes("TOKA-123456"));
    l.add_liquidity(&caller, &bytes("TOKA-123456"), 500).unwrap();
    l.remove_liquidity(&caller, &bytes("TOKA-123456"), 500).unwrap();
    assert_eq!(l.get_liquidity_share(&caller, &bytes("TOKA-123456")), prior);
}

#[test]
fn remove_liquidity_rejects_zero_amount() {
    let caller = bytes("provider");
    let mut l = active_with_rate(2000);
    l.add_liquidity(&caller, &bytes("TOKA-123456"), 500).unwrap();
    assert_eq!(
        l.remove_liquidity(&caller, &bytes("TOKA-123456"), 0),
        Err(SwapError::InvalidAmount)
    );
}

#[test]
fn paused_blocks_every_mutating_operation() {
    let owner = bytes("owner");
    let caller = bytes("provider");
    let mut l = active_with_rate(2000);
    l.add_liquidity(&caller, &bytes("TOKA-123456"), 500).unwrap();
    l.set_state(&owner, &owner, State::Paused).unwrap();
    assert_eq!(
        l.swap(&bytes("TOKA-123456"), 100, &bytes("TOKB-123456"), 200),
        Err(SwapError::NotActive)
    );
    assert_eq!(
        l.add_liquidity(&caller, &bytes("TOKA-123456"), 100),
        Err(SwapError::NotActive)
    );
    assert_eq!(
        l.remove_liquidity(&caller, &bytes("TOKA-123456"), 100),
        Err(SwapError::NotActive)
    );
    // the reads stay callable and correct
    assert_eq!(l.get_state(), State::Paused);
    assert_eq!(l.get_exchange_rate(&bytes("TOKA-123456"), &bytes("TOKB-123456")), Ok(2000));
    assert_eq!(l.get_liquidity_share(&caller, &bytes("TOKA-123456")), 500);
}

#[test]
fn inactive_blocks_every_mutating_operation() {
    let owner = bytes("owner");
    let caller = bytes("provider");
    let mut l = active_with_rate(2000);
    l.set_state(&owner, &owner, State::Inactive).unwrap();
    assert_eq!(
        l.swap(&bytes("TOKA-123456"), 100, &bytes("TOKB-123456"), 200),
        Err(SwapError::NotActive)
    );
    assert_eq!(
        l.add_liquidity(&caller, &bytes("TOKA-123456"), 100),
        Err(SwapError::NotActive)
    );
    assert_eq!(
        l.remove_liquidity(&caller, &bytes("TOKA-123456"), 100),
        Err(SwapError::NotActive)
    );
}

#[test]
fn active_permits_all_three_operations() {
    let caller = bytes("provider");
    let mut l = active_with_rate(2000);
    assert_eq!(l.add_liquidity(&caller, &bytes("TOKB-123456"), 300), Ok(()));
    assert_eq!(l.remove_liquidity(&caller, &bytes("TOKB-123456"), 100), Ok(()));
    assert_eq!(l.swap(&bytes("TOKA-123456"), 10, &bytes("TOKB-123456"), 20), Ok(20));
}

#[test]
fn require_state_active_gate() {
    let owner = bytes("owner");
    let mut l = TokenSwap::init();
    assert_eq!(l.require_state_active(), Err(SwapError::NotActive));
    l.set_state(&owner, &owner, State::Active).unwrap();
    assert_eq!(l.require_state_active(), Ok(()));
    l.set_state(&owner, &owner, State::Paused).unwrap();
    assert_eq!(l.require_state_active(), Err(SwapError::NotActive));
}

#[test]
fn require_caller_owner_gate() {
    assert_eq!(TokenSwap::require_caller_owner(&bytes("owner"), &bytes("owner")), Ok(()));
    assert_eq!(
        TokenSwap::require_caller_owner(&bytes("mallory"), &bytes("owner")),
        Err(SwapError::Unauthorized)
    );
}
