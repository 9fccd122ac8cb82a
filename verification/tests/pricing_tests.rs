use bonding_curve::errors::ErrorsCode;
use bonding_curve::state::{initialize_curve, CurveConfiguration, Identity};

fn creator() -> Identity {
    Identity { bytes: [7u8; 32] }
}

fn token() -> Identity {
    Identity { bytes: [9u8; 32] }
}

fn fresh_curve() -> CurveConfiguration {
    initialize_curve(creator(), token())
}

#[test]
fn initialize_sets_seed_reserves() {
    let state = fresh_curve();
    assert_eq!(state.owner, creator());
    assert_eq!(state.asset_identity, token());
    assert_eq!(state.virtual_base_reserve, 30_000_000_000);
    assert_eq!(state.virtual_token_reserve, 1_000_000_000_000_000);
    assert_eq!(state.real_token_reserve, 1_000_000_000_000_000);
    assert_eq!(state.real_base_reserve, 0);
    assert!(!state.is_graduated);
}

#[test]
fn buy_from_seed_reserves_exact_quote() {
    let mut state = fresh_curve();
    let outcome = state.buy_token(1_000_000_000, 0).unwrap();
    assert_eq!(outcome.fee, 10_000_000);
    assert_eq!(outcome.net_in, 990_000_000);
    assert_eq!(outcome.token_out, 31_945_788_964_181);
    assert_eq!(state.virtual_base_reserve, 30_990_000_000);
    assert_eq!(state.virtual_token_reserve, 968_054_211_035_819);
    assert_eq!(state.real_token_reserve, 1_000_000_000_000_000 - 31_945_788_964_181);
    assert_eq!(state.real_base_reserve, 990_000_000);
    assert!(!state.is_graduated);
}

#[test]
fn sell_back_full_round_trip_never_profits() {
    let mut state = fresh_curve();
    let outcome = state.buy_token(1_000_000_000, 0).unwrap();
    let base_out = state.sell(outcome.token_out, 1).unwrap();
    // The trader can at best break even on the principal; on these inputs the
    // floor rounding of the sell absorbs the buy's bias exactly.
    assert!(base_out <= outcome.net_in);
    assert_eq!(base_out, 990_000_000);
    // The fee is gone regardless, so the whole trip still cost the trader.
    assert!(base_out < 1_000_000_000);
    assert_eq!(state.virtual_base_reserve, 30_000_000_000);
    assert_eq!(state.virtual_token_reserve, 1_000_000_000_000_000);
    assert_eq!(state.real_token_reserve, 1_000_000_000_000_000);
    assert_eq!(state.real_base_reserve, 0);
}

#[test]
fn fee_is_zero_below_one_hundred_units() {
    let mut state = fresh_curve();
    let outcome = state.buy_token(99, 0).unwrap();
    assert_eq!(outcome.fee, 0);
    assert_eq!(outcome.net_in, 99);
}

#[test]
fn fee_is_one_percent_rounded_down() {
    let mut state = fresh_curve();
    let outcome = state.buy_token(100, 0).unwrap();
    assert_eq!(outcome.fee, 1);
    assert_eq!(outcome.net_in, 99);

    let mut state = fresh_curve();
    let outcome = state.buy_token(199, 0).unwrap();
    assert_eq!(outcome.fee, 1);
    assert_eq!(outcome.net_in, 198);

    let mut state = fresh_curve();
    let outcome = state.buy_token(12_345, 0).unwrap();
    assert_eq!(outcome.fee, 123);
    assert_eq!(outcome.net_in, 12_222);
}

#[test]
fn buy_failing_slippage_leaves_state_untouched() {
    let mut state = fresh_curve();
    let before = state;
    let result = state.buy_token(1_000_000_000, u64::MAX);
    assert_eq!(result, Err(ErrorsCode::SlippageExceeded));
    assert_eq!(state, before);
}

#[test]
fn buy_meeting_exact_minimum_commits() {
    let mut state = fresh_curve();
    let outcome = state.buy_token(1_000_000_000, 31_945_788_964_181).unwrap();
    assert_eq!(outcome.token_out, 31_945_788_964_181);
}

#[test]
fn sell_failing_slippage_leaves_state_untouched() {
    let mut state = fresh_curve();
    state.buy_token(1_000_000_000, 0).unwrap();
    let before = state;
    let result = state.sell(1_000_000, u64::MAX);
    assert_eq!(result, Err(ErrorsCode::SlippageExceeded));
    assert_eq!(state, before);
}

#[test]
fn sell_requires_positive_minimum_output() {
    let mut state = fresh_curve();
    state.buy_token(1_000_000_000, 0).unwrap();
    let before = state;
    let result = state.sell(1_000_000, 0);
    assert_eq!(result, Err(ErrorsCode::InvalidMinOutput));
    assert_eq!(state, before);
}

#[test]
fn buy_on_empty_virtual_token_reserve_underflows() {
    let mut state = fresh_curve();
    state.virtual_token_reserve = 0;
    let before = state;
    let result = state.buy_token(1_000, 0);
    assert_eq!(result, Err(ErrorsCode::ArithmeticUnderflow));
    assert_eq!(state, before);
}

#[test]
fn buy_overflowing_virtual_base_reserve_is_refused() {
    let mut state = fresh_curve();
    state.virtual_base_reserve = u64::MAX;
    let before = state;
    let result = state.buy_token(100, 0);
    assert_eq!(result, Err(ErrorsCode::ArithmeticOverflow));
    assert_eq!(state, before);
}

#[test]
fn buy_overflowing_real_base_reserve_is_refused() {
    let mut state = fresh_curve();
    state.real_base_reserve = u64::MAX;
    let before = state;
    let result = state.buy_token(1_000_000_000, 0);
    assert_eq!(result, Err(ErrorsCode::ArithmeticOverflow));
    assert_eq!(state, before);
}

#[test]
fn sell_overflowing_virtual_token_reserve_is_refused() {
    let mut state = fresh_curve();
    state.virtual_token_reserve = u64::MAX;
    let before = state;
    let result = state.sell(1, 1);
    assert_eq!(result, Err(ErrorsCode::ArithmeticOverflow));
    assert_eq!(state, before);
}

#[test]
fn sell_overflowing_real_token_reserve_is_refused() {
    let mut state = fresh_curve();
    state.virtual_base_reserve = 1_000;
    state.virtual_token_reserve = 1_000;
    state.real_base_reserve = 1_000;
    state.real_token_reserve = u64::MAX;
    let before = state;
    let result = state.sell(1_000, 1);
    assert_eq!(result, Err(ErrorsCode::ArithmeticOverflow));
    assert_eq!(state, before);
}

#[test]
fn buy_exceeding_real_token_reserve_is_refused() {
    let mut state = fresh_curve();
    state.real_token_reserve = 0;
    let before = state;
    let result = state.buy_token(1_000_000_000, 0);
    assert_eq!(result, Err(ErrorsCode::InsufficientReserve));
    assert_eq!(state, before);
}

#[test]
fn sell_exceeding_real_base_reserve_is_refused() {
    let mut state = fresh_curve();
    state.virtual_base_reserve = 1_000;
    state.virtual_token_reserve = 1_000;
    state.real_base_reserve = 0;
    let before = state;
    let result = state.sell(1_000, 1);
    assert_eq!(result, Err(ErrorsCode::InsufficientReserve));
    assert_eq!(state, before);
}

#[test]
fn buys_conserve_token_ledger() {
    let mut state = fresh_curve();
    let minted = state.real_token_reserve;
    let mut paid_out: u64 = 0;
    for amount in [1_000_000_000u64, 250_000_000, 99, 5_000_000_000] {
        let outcome = state.buy_token(amount, 0).unwrap();
        paid_out += outcome.token_out;
    }
    assert_eq!(state.real_token_reserve + paid_out, minted);
}

#[test]
fn mixed_trades_conserve_token_ledger() {
    let mut state = fresh_curve();
    let minted = state.real_token_reserve;
    let mut paid_out: u64 = 0;
    let mut taken_in: u64 = 0;

    let outcome = state.buy_token(2_000_000_000, 0).unwrap();
    paid_out += outcome.token_out;
    state.sell(outcome.token_out / 2, 1).unwrap();
    taken_in += outcome.token_out / 2;
    let outcome = state.buy_token(750_000_000, 0).unwrap();
    paid_out += outcome.token_out;
    state.sell(outcome.token_out / 3, 1).unwrap();
    taken_in += outcome.token_out / 3;

    assert_eq!(state.real_token_reserve + paid_out - taken_in, minted);
}

#[test]
fn product_grows_on_buys_and_never_grows_on_sells() {
    let mut state = fresh_curve();
    let mut product = state.virtual_base_reserve as u128 * state.virtual_token_reserve as u128;
    let mut received: u64 = 0;
    for amount in [500_000_000u64, 3_000_000_000, 777] {
        let outcome = state.buy_token(amount, 0).unwrap();
        received += outcome.token_out;
        let next = state.virtual_base_reserve as u128 * state.virtual_token_reserve as u128;
        assert!(next > product);
        product = next;
    }
    for token_in in [received / 3, received / 5, 1] {
        state.sell(token_in, 1).unwrap();
        let next = state.virtual_base_reserve as u128 * state.virtual_token_reserve as u128;
        assert!(next <= product);
        product = next;
    }
}
