use vstd::arithmetic::div_mod::{
    lemma_div_is_ordered, lemma_div_multiples_vanish, lemma_div_pos_is_pos,
};
use vstd::arithmetic::mul::{lemma_mul_is_commutative, lemma_mul_nonnegative};
use vstd::prelude::*;

use crate::pricing::{
    spec_buy_error, spec_buy_new_base, spec_buy_state, spec_buy_token_out, spec_net_in,
    spec_sell_base_out, spec_sell_error, spec_sell_new_token, spec_sell_state,
    lemma_buy_product_increases, lemma_sell_product_does_not_increase,
};
use crate::state::CurveConfiguration;

verus! {

/// One trade as a caller submits it: a direction, the input amount, and the
/// caller's minimum acceptable output.
#[derive(Clone, Copy, Debug, PartialEq, Eq)]
pub enum TradeRequest {
    /// Spend base asset, receive token.  A zero minimum output is legal.
    Buy { amount_in: u64, min_token_out: u64 },
    /// Spend token, receive base asset.  The minimum output must be
    /// positive.
    Sell { token_in: u64, min_base_out: u64 },
}

/// Whether a trade passes every guard against `s` and commits.  A trade
/// whose input is zero never commits: the engine does not accept it.
pub open spec fn spec_trade_commits(s: CurveConfiguration, t: TradeRequest) -> bool {
    match t {
        TradeRequest::Buy { amount_in, min_token_out } => amount_in > 0 && spec_buy_error(
            s,
            amount_in,
            min_token_out,
        ) is None,
        TradeRequest::Sell { token_in, min_base_out } => token_in > 0 && spec_sell_error(
            s,
            token_in,
            min_base_out,
        ) is None,
    }
}

/// State after one trade: a committing trade moves the curve, a refused one
/// leaves it exactly as it was.
pub open spec fn spec_apply_trade(s: CurveConfiguration, t: TradeRequest) -> CurveConfiguration {
    if spec_trade_commits(s, t) {
        match t {
            TradeRequest::Buy { amount_in, .. } => spec_buy_state(s, amount_in),
            TradeRequest::Sell { token_in, .. } => spec_sell_state(s, token_in),
        }
    } else {
        s
    }
}

/// Token paid out of curve custody by one trade: what a committing buy
/// releases, nothing otherwise.
pub open spec fn spec_trade_token_out(s: CurveConfiguration, t: TradeRequest) -> int {
    if spec_trade_commits(s, t) {
        match t {
            TradeRequest::Buy { amount_in, .. } => spec_buy_token_out(s, amount_in),
            TradeRequest::Sell { .. } => 0,
        }
    } else {
        0
    }
}

/// Token returned into curve custody by one trade: what a committing sell
/// takes in, nothing otherwise.
pub open spec fn spec_trade_token_in(s: CurveConfiguration, t: TradeRequest) -> int {
    if spec_trade_commits(s, t) {
        match t {
            TradeRequest::Buy { .. } => 0,
            TradeRequest::Sell { token_in, .. } => token_in as int,
        }
    } else {
        0
    }
}

/// State after a whole sequence of trades, applied first to last.
pub open spec fn spec_apply_trades(
    s: CurveConfiguration,
    ts: Seq<TradeRequest>,
) -> CurveConfiguration
    decreases ts.len(),
{
    if ts.len() == 0 {
        s
    } else {
        spec_apply_trades(spec_apply_trade(s, ts.first()), ts.drop_first())
    }
}

/// Total token ever paid out of curve custody across a sequence of trades.
pub open spec fn spec_tokens_paid_out(s: CurveConfiguration, ts: Seq<TradeRequest>) -> int
    decreases ts.len(),
{
    if ts.len() == 0 {
        0
    } else {
        spec_trade_token_out(s, ts.first()) + spec_tokens_paid_out(
            spec_apply_trade(s, ts.first()),
            ts.drop_first(),
        )
    }
}

/// Total token ever returned into curve custody across a sequence of trades.
pub open spec fn spec_tokens_taken_in(s: CurveConfiguration, ts: Seq<TradeRequest>) -> int
    decreases ts.len(),
{
    if ts.len() == 0 {
        0
    } else {
        spec_trade_token_in(s, ts.first()) + spec_tokens_taken_in(
            spec_apply_trade(s, ts.first()),
            ts.drop_first(),
        )
    }
}

/// Every trade in the sequence is a buy.
pub open spec fn spec_all_buys(ts: Seq<TradeRequest>) -> bool {
    forall|i: int| 0 <= i < ts.len() ==> ts[i] is Buy
}

/// Every trade in the sequence is a sell.
pub open spec fn spec_all_sells(ts: Seq<TradeRequest>) -> bool {
    forall|i: int| 0 <= i < ts.len() ==> ts[i] is Sell
}

/// Law (conservation): across any sequence of trades, the real token
/// reserve plus everything ever paid out equals the starting reserve plus
/// everything ever taken back in.  Applied to a fresh curve, whose reserve
/// is the whole minted supply, this accounts for every token the curve has
/// ever released.
pub proof fn lemma_token_conservation(s: CurveConfiguration, ts: Seq<TradeRequest>)
    ensures
        spec_apply_trades(s, ts).real_token_reserve + spec_tokens_paid_out(s, ts)
            == s.real_token_reserve + spec_tokens_taken_in(s, ts),
    decreases ts.len(),
{
    if ts.len() > 0 {
        let t = ts.first();
        let s1 = spec_apply_trade(s, t);
        assert(s1.real_token_reserve + spec_trade_token_out(s, t) == s.real_token_reserve
            + spec_trade_token_in(s, t));
        lemma_token_conservation(s1, ts.drop_first());
    }
}

/// Law (conservation under buys alone): while only buys have happened, the
/// real token reserve plus everything paid out equals the starting reserve
/// exactly — no token re-enters custody.
pub proof fn lemma_conservation_under_buys(s: CurveConfiguration, ts: Seq<TradeRequest>)
    requires
        spec_all_buys(ts),
    ensures
        spec_apply_trades(s, ts).real_token_reserve + spec_tokens_paid_out(s, ts)
            == s.real_token_reserve,
{
    lemma_token_conservation(s, ts);
    lemma_no_tokens_taken_under_buys(s, ts);
}

proof fn lemma_no_tokens_taken_under_buys(s: CurveConfiguration, ts: Seq<TradeRequest>)
    requires
        spec_all_buys(ts),
    ensures
        spec_tokens_taken_in(s, ts) == 0,
    decreases ts.len(),
{
    if ts.len() > 0 {
        assert(ts[0] is Buy);
        assert forall|i: int| 0 <= i < ts.drop_first().len() implies ts.drop_first()[i] is Buy by {
            assert(ts.drop_first()[i] == ts[i + 1]);
        }
        lemma_no_tokens_taken_under_buys(spec_apply_trade(s, ts.first()), ts.drop_first());
    }
}

/// Law (invariant preservation, entry side): across any sequence of buys
/// the constant product never decreases — each committing buy strictly
/// grows it, and a refused buy changes nothing.
pub proof fn lemma_product_nondecreasing_under_buys(s: CurveConfiguration, ts: Seq<TradeRequest>)
    requires
        spec_all_buys(ts),
    ensures
        spec_apply_trades(s, ts).product() >= s.product(),
    decreases ts.len(),
{
    if ts.len() > 0 {
        let t = ts.first();
        assert(ts[0] is Buy);
        if spec_trade_commits(s, t) {
            if let TradeRequest::Buy { amount_in, min_token_out } = t {
                lemma_buy_product_increases(s, amount_in, min_token_out);
            }
        }
        assert forall|i: int| 0 <= i < ts.drop_first().len() implies ts.drop_first()[i] is Buy by {
            assert(ts.drop_first()[i] == ts[i + 1]);
        }
        lemma_product_nondecreasing_under_buys(spec_apply_trade(s, t), ts.drop_first());
    }
}

/// Law (invariant preservation, exit side): across any sequence of sells
/// the constant product never increases — floor rounding is neutral or
/// favours the pool, and a refused sell changes nothing.
pub proof fn lemma_product_nonincreasing_under_sells(s: CurveConfiguration, ts: Seq<TradeRequest>)
    requires
        spec_all_sells(ts),
    ensures
        spec_apply_trades(s, ts).product() <= s.product(),
    decreases ts.len(),
{
    if ts.len() > 0 {
        let t = ts.first();
        assert(ts[0] is Sell);
        if spec_trade_commits(s, t) {
            if let TradeRequest::Sell { token_in, min_base_out } = t {
                lemma_sell_product_does_not_increase(s, token_in, min_base_out);
            }
        }
        assert forall|i: int| 0 <= i < ts.drop_first().len() implies ts.drop_first()[i] is Sell by {
            assert(ts.drop_first()[i] == ts[i + 1]);
        }
        lemma_product_nonincreasing_under_sells(spec_apply_trade(s, t), ts.drop_first());
    }
}

/// Law (lifecycle gating): a graduated curve is inert — every later trade,
/// buy or sell, is refused, and no sequence of attempts moves the state.
pub proof fn lemma_graduated_curve_inert(s: CurveConfiguration, ts: Seq<TradeRequest>)
    requires
        s.is_graduated,
    ensures
        spec_apply_trades(s, ts) == s,
    decreases ts.len(),
{
    if ts.len() > 0 {
        assert(!spec_trade_commits(s, ts.first()));
        lemma_graduated_curve_inert(s, ts.drop_first());
    }
}

/// Law (round trip): buying and then selling back the exact tokens received
/// never returns more base asset than the buy's net principal.  The buy's
/// rounding bias grows the constant product, so when the token reserve
/// returns to its starting point the base reserve cannot sit below where it
/// started — the trader can at best break even, and the fee is gone either
/// way.
pub proof fn lemma_round_trip_no_profit(
    s: CurveConfiguration,
    amount_in: u64,
    token_in: u64,
    min_token_out: u64,
    min_base_out: u64,
)
    requires
        amount_in > 0,
        spec_buy_error(s, amount_in, min_token_out) is None,
        token_in == spec_buy_token_out(s, amount_in),
        spec_sell_error(spec_buy_state(s, amount_in), token_in, min_base_out) is None,
    ensures
        spec_sell_base_out(spec_buy_state(s, amount_in), token_in) <= spec_net_in(amount_in),
{
    let s1 = spec_buy_state(s, amount_in);
    let vb = s.virtual_base_reserve as int;
    let vt = s.virtual_token_reserve as int;
    lemma_mul_nonnegative(vb, vt);
    lemma_div_pos_is_pos(s.product(), spec_buy_new_base(s, amount_in));
    assert(spec_sell_new_token(s1, token_in) == vt);
    lemma_buy_product_increases(s, amount_in, min_token_out);
    lemma_div_is_ordered(vb * vt, s1.product(), vt);
    lemma_mul_is_commutative(vb, vt);
    lemma_div_multiples_vanish(vb, vt);
    assert(s1.product() / vt >= vb);
}

} // verus!
