use vstd::arithmetic::div_mod::{
    lemma_basic_div, lemma_div_pos_is_pos, lemma_fundamental_div_mod, lemma_mod_bound,
};
use vstd::arithmetic::mul::{
    lemma_mul_is_commutative, lemma_mul_is_distributive_add, lemma_mul_nonnegative,
    lemma_mul_upper_bound,
};
use vstd::prelude::*;

use crate::errors::ErrorsCode;
use crate::state::CurveConfiguration;

verus! {

/// Divisor of the entry fee: one percent of the base-asset input, rounded
/// down, so inputs under `FEE_DIVISOR` units pay nothing — a deliberate
/// exemption for micro-trades.
pub const FEE_DIVISOR: u64 = 100;

/// The amounts a committed buy instructs the custody layer to move: the
/// token released to the trader from curve custody, the fee routed to the
/// protocol fee sink, and the net principal moved into curve custody.  The
/// fee and the principal are two distinct settlement instructions.
#[derive(Clone, Copy, Debug, PartialEq, Eq)]
pub struct BuyOutcome {
    /// Token owed to the trader.
    pub token_out: u64,
    /// Base asset owed to the protocol fee sink, never to the curve.
    pub fee: u64,
    /// Base asset owed to curve custody.
    pub net_in: u64,
}

/// Fee retained from a buy's base-asset input.
pub open spec fn spec_fee(amount_in: u64) -> int {
    amount_in as int / FEE_DIVISOR as int
}

/// The part of a buy's input that reaches the curve after the fee.
pub open spec fn spec_net_in(amount_in: u64) -> int {
    amount_in - spec_fee(amount_in)
}

/// Law (fee policy): the fee is exactly one percent of the input, rounded
/// down, so an input under `FEE_DIVISOR` units pays no fee at all, and fee
/// and net principal always partition the input.
pub proof fn lemma_fee_policy(amount_in: u64)
    ensures
        amount_in < FEE_DIVISOR ==> spec_fee(amount_in) == 0,
        amount_in >= FEE_DIVISOR ==> spec_fee(amount_in) == amount_in as int / 100,
        spec_fee(amount_in) + spec_net_in(amount_in) == amount_in,
{
    if amount_in < FEE_DIVISOR {
        lemma_basic_div(amount_in as int, FEE_DIVISOR as int);
    }
}

/// Virtual base reserve after a buy: the net input joins the pool.
pub open spec fn spec_buy_new_base(s: CurveConfiguration, amount_in: u64) -> int {
    s.virtual_base_reserve + spec_net_in(amount_in)
}

/// Virtual token reserve after a buy.  The `+ 1` rounds against the trader
/// so that the constant product can only grow across a buy.
pub open spec fn spec_buy_new_token(s: CurveConfiguration, amount_in: u64) -> int {
    s.product() / spec_buy_new_base(s, amount_in) + 1
}

/// Token released to the trader by a buy.
pub open spec fn spec_buy_token_out(s: CurveConfiguration, amount_in: u64) -> int {
    s.virtual_token_reserve - spec_buy_new_token(s, amount_in)
}

/// The guard a buy fails on, in the order the guards are checked; `None`
/// means the trade commits.
pub open spec fn spec_buy_error(
    s: CurveConfiguration,
    amount_in: u64,
    min_token_out: u64,
) -> Option<ErrorsCode> {
    if s.is_graduated {
        Some(ErrorsCode::CurveFull)
    } else if spec_buy_new_base(s, amount_in) > u64::MAX {
        Some(ErrorsCode::ArithmeticOverflow)
    } else if spec_buy_new_token(s, amount_in) > s.virtual_token_reserve {
        Some(ErrorsCode::ArithmeticUnderflow)
    } else if spec_buy_token_out(s, amount_in) < min_token_out {
        Some(ErrorsCode::SlippageExceeded)
    } else if spec_buy_token_out(s, amount_in) > s.real_token_reserve {
        Some(ErrorsCode::InsufficientReserve)
    } else if s.real_base_reserve + spec_net_in(amount_in) > u64::MAX {
        Some(ErrorsCode::ArithmeticOverflow)
    } else {
        None
    }
}

/// Curve state after a buy whose guards all pass.
pub open spec fn spec_buy_state(s: CurveConfiguration, amount_in: u64) -> CurveConfiguration {
    CurveConfiguration {
        virtual_base_reserve: spec_buy_new_base(s, amount_in) as u64,
        virtual_token_reserve: spec_buy_new_token(s, amount_in) as u64,
        real_token_reserve: (s.real_token_reserve - spec_buy_token_out(s, amount_in)) as u64,
        real_base_reserve: (s.real_base_reserve + spec_net_in(amount_in)) as u64,
        ..s
    }
}

/// Virtual token reserve after a sell: the trader's tokens join the pool.
pub open spec fn spec_sell_new_token(s: CurveConfiguration, token_in: u64) -> int {
    s.virtual_token_reserve + token_in
}

/// Virtual base reserve after a sell.  Plain floor rounding: the exit path
/// carries no bias, an asymmetry with the buy path that is a deliberate
/// policy choice, not an accident.
pub open spec fn spec_sell_new_base(s: CurveConfiguration, token_in: u64) -> int {
    s.product() / spec_sell_new_token(s, token_in)
}

/// Base asset released to the trader by a sell.
pub open spec fn spec_sell_base_out(s: CurveConfiguration, token_in: u64) -> int {
    s.virtual_base_reserve - spec_sell_new_base(s, token_in)
}

/// The guard a sell fails on, in the order the guards are checked; `None`
/// means the trade commits.
pub open spec fn spec_sell_error(
    s: CurveConfiguration,
    token_in: u64,
    min_base_out: u64,
) -> Option<ErrorsCode> {
    if s.is_graduated {
        Some(ErrorsCode::CurveFull)
    } else if min_base_out == 0 {
        Some(ErrorsCode::InvalidMinOutput)
    } else if spec_sell_new_token(s, token_in) > u64::MAX {
        Some(ErrorsCode::ArithmeticOverflow)
    } else if spec_sell_new_base(s, token_in) > s.virtual_base_reserve {
        Some(ErrorsCode::ArithmeticUnderflow)
    } else if spec_sell_base_out(s, token_in) < min_base_out {
        Some(ErrorsCode::SlippageExceeded)
    } else if spec_sell_base_out(s, token_in) > s.real_base_reserve {
        Some(ErrorsCode::InsufficientReserve)
    } else if s.real_token_reserve + token_in > u64::MAX {
        Some(ErrorsCode::ArithmeticOverflow)
    } else {
        None
    }
}

/// Curve state after a sell whose guards all pass.
pub open spec fn spec_sell_state(s: CurveConfiguration, token_in: u64) -> CurveConfiguration {
    CurveConfiguration {
        virtual_base_reserve: spec_sell_new_base(s, token_in) as u64,
        virtual_token_reserve: spec_sell_new_token(s, token_in) as u64,
        real_token_reserve: (s.real_token_reserve + token_in) as u64,
        real_base_reserve: (s.real_base_reserve - spec_sell_base_out(s, token_in)) as u64,
        ..s
    }
}

/// A product of two 64-bit quantities always fits the 128-bit width the
/// pricing math computes in.
proof fn lemma_u64_product_fits_u128(a: u64, b: u64)
    ensures
        0 <= a * b <= u128::MAX,
{
    lemma_mul_nonnegative(a as int, b as int);
    lemma_mul_upper_bound(a as int, u64::MAX as int, b as int, u64::MAX as int);
}

/// Rounding the quotient up by one overshoots the dividend: for positive `d`,
/// `d * (p / d + 1) > p`.  This is why the buy path's `+ 1` bias makes the
/// constant product grow.
proof fn lemma_quotient_plus_one_overshoots(p: int, d: int)
    requires
        0 <= p,
        1 <= d,
    ensures
        d * (p / d + 1) > p,
        p / d >= 0,
{
    lemma_fundamental_div_mod(p, d);
    lemma_mod_bound(p, d);
    lemma_div_pos_is_pos(p, d);
    lemma_mul_is_distributive_add(d, p / d, 1);
}

/// Floor division undershoots the dividend: for positive `d`,
/// `0 <= d * (p / d) <= p`.  This is why the sell path's floor rounding can
/// only shrink the constant product.
proof fn lemma_quotient_times_divisor_bounds(p: int, d: int)
    requires
        0 <= p,
        1 <= d,
    ensures
        0 <= d * (p / d) <= p,
{
    lemma_fundamental_div_mod(p, d);
    lemma_mod_bound(p, d);
    lemma_div_pos_is_pos(p, d);
    lemma_mul_nonnegative(d, p / d);
}

/// Law: a buy that commits strictly grows the constant product — the `+ 1`
/// rounding bias always leaves the pool at least one unit ahead.
pub proof fn lemma_buy_product_increases(
    s: CurveConfiguration,
    amount_in: u64,
    min_token_out: u64,
)
    requires
        amount_in > 0,
        spec_buy_error(s, amount_in, min_token_out) is None,
    ensures
        spec_buy_state(s, amount_in).product() > s.product(),
{
    let p = s.product();
    let d = spec_buy_new_base(s, amount_in);
    lemma_mul_nonnegative(s.virtual_base_reserve as int, s.virtual_token_reserve as int);
    lemma_quotient_plus_one_overshoots(p, d);
    assert(spec_buy_state(s, amount_in).product() == d * (p / d + 1));
}

/// Law: a sell that commits never grows the constant product — floor
/// rounding is exactly neutral or shaves value toward the pool.
pub proof fn lemma_sell_product_does_not_increase(
    s: CurveConfiguration,
    token_in: u64,
    min_base_out: u64,
)
    requires
        token_in > 0,
        spec_sell_error(s, token_in, min_base_out) is None,
    ensures
        spec_sell_state(s, token_in).product() <= s.product(),
        spec_sell_state(s, token_in).product() >= 0,
{
    let p = s.product();
    let d = spec_sell_new_token(s, token_in);
    lemma_mul_nonnegative(s.virtual_base_reserve as int, s.virtual_token_reserve as int);
    lemma_quotient_times_divisor_bounds(p, d);
    lemma_mul_is_commutative(d, p / d);
    assert(spec_sell_state(s, token_in).product() == (p / d) * d);
}

impl CurveConfiguration {
    /// Quotes a buy — spend `amount_in` of base asset, receive token — and
    /// applies it to the curve atomically: either every guard passes and the
    /// state moves to `spec_buy_state`, or the state is left untouched and
    /// the first failing guard's error is reported.
    ///
    /// All intermediate products are computed in 128-bit width, so the
    /// 64-by-64-bit product term cannot overflow.  The returned outcome
    /// carries the amounts the custody layer must then move.
    pub fn buy_token(&mut self, amount_in: u64, min_token_out: u64) -> (result: Result<
        BuyOutcome,
        ErrorsCode,
    >)
        requires
            amount_in > 0,
        ensures
            match result {
                Ok(outcome) => {
                    &&& spec_buy_error(*old(self), amount_in, min_token_out) is None
                    &&& outcome.fee == spec_fee(amount_in)
                    &&& outcome.net_in == spec_net_in(amount_in)
                    &&& outcome.token_out == spec_buy_token_out(*old(self), amount_in)
                    &&& outcome.token_out >= min_token_out
                    &&& *final(self) == spec_buy_state(*old(self), amount_in)
                    &&& final(self).product() > old(self).product()
                },
                Err(e) => {
                    &&& spec_buy_error(*old(self), amount_in, min_token_out) == Some(e)
                    &&& *final(self) == *old(self)
                },
            },
            old(self).is_graduated ==> result == Err::<BuyOutcome, ErrorsCode>(
                ErrorsCode::CurveFull,
            ),
    {
        if self.is_graduated {
            return Err(ErrorsCode::CurveFull);
        }
        let fee: u64 = amount_in / FEE_DIVISOR;
        let net_in: u64 = amount_in - fee;
        let old_base: u64 = self.virtual_base_reserve;
        let old_token: u64 = self.virtual_token_reserve;

        let new_base_wide: u128 = old_base as u128 + net_in as u128;
        if new_base_wide > u64::MAX as u128 {
            return Err(ErrorsCode::ArithmeticOverflow);
        }
        let new_base: u64 = new_base_wide as u64;

        proof {
            lemma_u64_product_fits_u128(old_base, old_token);
        }
        let product: u128 = old_base as u128 * old_token as u128;
        let quotient: u128 = product / new_base as u128;
        if quotient >= old_token as u128 {
            return Err(ErrorsCode::ArithmeticUnderflow);
        }
        let new_token: u64 = quotient as u64 + 1;
        let token_out: u64 = old_token - new_token;
        if token_out < min_token_out {
            return Err(ErrorsCode::SlippageExceeded);
        }
        if token_out > self.real_token_reserve {
            return Err(ErrorsCode::InsufficientReserve);
        }
        let new_real_base_wide: u128 = self.real_base_reserve as u128 + net_in as u128;
        if new_real_base_wide > u64::MAX as u128 {
            return Err(ErrorsCode::ArithmeticOverflow);
        }

        proof {
            lemma_buy_product_increases(*self, amount_in, min_token_out);
        }
        self.virtual_base_reserve = new_base;
        self.virtual_token_reserve = new_token;
        self.real_token_reserve = self.real_token_reserve - token_out;
        self.real_base_reserve = new_real_base_wide as u64;
        Ok(BuyOutcome { token_out, fee, net_in })
    }

    /// Quotes a sell — spend `token_in` of token, receive base asset — and
    /// applies it to the curve atomically: either every guard passes and the
    /// state moves to `spec_sell_state`, or the state is left untouched and
    /// the first failing guard's error is reported.
    ///
    /// No fee is retained on exit, and the quote uses plain floor rounding;
    /// both are deliberate policy, asymmetric with the buy path.  A sell
    /// must name a positive minimum output, unlike a buy where a zero floor
    /// is legal.
    pub fn sell(&mut self, token_in: u64, min_base_out: u64) -> (result: Result<u64, ErrorsCode>)
        requires
            token_in > 0,
        ensures
            match result {
                Ok(base_out) => {
                    &&& spec_sell_error(*old(self), token_in, min_base_out) is None
                    &&& base_out == spec_sell_base_out(*old(self), token_in)
                    &&& base_out >= min_base_out
                    &&& *final(self) == spec_sell_state(*old(self), token_in)
                    &&& final(self).product() <= old(self).product()
                },
                Err(e) => {
                    &&& spec_sell_error(*old(self), token_in, min_base_out) == Some(e)
                    &&& *final(self) == *old(self)
                },
            },
            old(self).is_graduated ==> result == Err::<u64, ErrorsCode>(ErrorsCode::CurveFull),
    {
        if self.is_graduated {
            return Err(ErrorsCode::CurveFull);
        }
        if min_base_out == 0 {
            return Err(ErrorsCode::InvalidMinOutput);
        }
        let old_base: u64 = self.virtual_base_reserve;
        let old_token: u64 = self.virtual_token_reserve;

        let new_token_wide: u128 = old_token as u128 + token_in as u128;
        if new_token_wide > u64::MAX as u128 {
            return Err(ErrorsCode::ArithmeticOverflow);
        }
        let new_token: u64 = new_token_wide as u64;

        proof {
            lemma_u64_product_fits_u128(old_base, old_token);
        }
        let product: u128 = old_base as u128 * old_token as u128;
        let new_base_wide: u128 = product / new_token_wide;
        if new_base_wide > old_base as u128 {
            return Err(ErrorsCode::ArithmeticUnderflow);
        }
        let new_base: u64 = new_base_wide as u64;
        let base_out: u64 = old_base - new_base;
        if base_out < min_base_out {
            return Err(ErrorsCode::SlippageExceeded);
        }
        if base_out > self.real_base_reserve {
            return Err(ErrorsCode::InsufficientReserve);
        }
        let new_real_token_wide: u128 = self.real_token_reserve as u128 + token_in as u128;
        if new_real_token_wide > u64::MAX as u128 {
            return Err(ErrorsCode::ArithmeticOverflow);
        }

        proof {
            lemma_sell_product_does_not_increase(*self, token_in, min_base_out);
        }
        self.virtual_base_reserve = new_base;
        self.virtual_token_reserve = new_token;
        self.real_token_reserve = new_real_token_wide as u64;
        self.real_base_reserve = self.real_base_reserve - base_out;
        Ok(base_out)
    }
}

} // verus!
