use bonding_curve::errors::ErrorsCode;
use bonding_curve::state::{initialize_curve, CurveConfiguration, Identity};

fn fresh_curve() -> CurveConfiguration {
    initialize_curve(Identity { bytes: [1u8; 32] }, Identity { bytes: [2u8; 32] })
}

#[test]
fn graduation_closes_buys_and_sells() {
    let mut state = fresh_curve();
    state.buy_token(1_000_000_000, 0).unwrap();
    state.graduate();
    assert!(state.is_graduated);
    let before = state;

    assert_eq!(state.buy_token(1_000_000, 0), Err(ErrorsCode::CurveFull));
    assert_eq!(state, before);

    assert_eq!(state.sell(1_000, 1), Err(ErrorsCode::CurveFull));
    assert_eq!(state, before);

    // Graduation is checked ahead of every other sell guard, so even a
    // malformed zero-minimum sell reports the closed curve.
    assert_eq!(state.sell(1_000, 0), Err(ErrorsCode::CurveFull));
    assert_eq!(state, before);
}

#[test]
fn withdraw_before_graduation_is_refused() {
    let mut state = fresh_curve();
    let before = state;
    assert_eq!(state.withdraw(), Err(ErrorsCode::NotGraduatedYet));
    assert_eq!(state, before);
}

#[test]
fn withdraw_moves_whole_token_reserve_once() {
    let mut state = fresh_curve();
    let outcome = state.buy_token(1_000_000_000, 0).unwrap();
    state.graduate();
    let remaining = 1_000_000_000_000_000 - outcome.token_out;
    assert_eq!(state.real_token_reserve, remaining);

    let withdrawn = state.withdraw().unwrap();
    assert_eq!(withdrawn, remaining);
    assert_eq!(state.real_token_reserve, 0);
    assert_eq!(state.real_base_reserve, 0);
    assert!(state.is_graduated);
    // The virtual reserves are pricing bookkeeping and are left alone.
    assert_eq!(state.virtual_base_reserve, 30_990_000_000);

    // A second settlement finds nothing to transfer and fails cleanly
    // rather than panicking.
    let again = state.withdraw().unwrap();
    assert_eq!(again, 0);
    assert_eq!(state.real_token_reserve, 0);
    assert_eq!(state.real_base_reserve, 0);
}

#[test]
fn graduate_is_one_way_and_idempotent() {
    let mut state = fresh_curve();
    state.graduate();
    let before = state;
    state.graduate();
    assert_eq!(state, before);
    assert!(state.is_graduated);
}
