use vstd::prelude::*;

verus! {

/// A 32-byte account identity, in the form the hosting ledger names
/// accounts.  The engine never inspects one: it only records which authority
/// administers a curve and which issued token the curve prices.
#[derive(Clone, Copy, Debug, PartialEq, Eq)]
pub struct Identity {
    pub bytes: [u8; 32],
}

/// Seed liquidity for a fresh curve, in the smallest base-asset unit.  It is
/// purely virtual: no base asset is actually held at creation.
pub const INITIAL_VIRTUAL_BASE_RESERVE: u64 = 30_000_000_000;

/// Total supply of the issued token, in its smallest unit.  The whole supply
/// is custodied by the curve before trading begins, so the virtual and real
/// token reserves both start here.
pub const INITIAL_TOKEN_SUPPLY: u64 = 1_000_000_000_000_000;

/// The persistent record of one bonding curve: the point on the
/// constant-product curve (the two virtual reserves), the balances actually
/// held in custody (the two real reserves), and the lifecycle flag.
///
/// The virtual and real tracks are independent ledgers: the virtual reserves
/// exist only to price trades, while the real reserves bound what can be
/// paid out.  All four quantities are denominated in smallest indivisible
/// units; no fractional amounts ever appear in the pricing math.
#[derive(Clone, Copy, Debug, PartialEq, Eq)]
pub struct CurveConfiguration {
    /// Administrative authority of the curve, set once at creation.
    pub owner: Identity,
    /// The issued token this curve prices, set once at creation.
    pub asset_identity: Identity,
    /// Virtual base-asset reserve; a bookkeeping quantity for pricing only.
    pub virtual_base_reserve: u64,
    /// Virtual token reserve; a bookkeeping quantity for pricing only.
    pub virtual_token_reserve: u64,
    /// Issued token actually custodied and available to pay out to buyers.
    pub real_token_reserve: u64,
    /// Base asset actually custodied, collected from buyers.
    pub real_base_reserve: u64,
    /// One-way flag: once true, trading is closed for good and the owner may
    /// withdraw the remaining token reserve.
    pub is_graduated: bool,
}

impl CurveConfiguration {
    /// The constant-product term the curve prices against.  A buy may only
    /// grow it (the rounding bias favours the pool) and a sell may only
    /// shrink it (plain floor rounding), so the pool never leaks value to
    /// rounding.
    pub open spec fn product(self) -> int {
        self.virtual_base_reserve * self.virtual_token_reserve
    }
}

/// Creates the record for a freshly issued token whose entire supply is
/// already custodied by the curve.  The caller must invoke this exactly once
/// per curve: refusing to re-create an existing record is the duty of the
/// hosting storage layer, which owns the records.
///
/// The seed constants fix the initial marginal price at
/// `INITIAL_VIRTUAL_BASE_RESERVE / INITIAL_TOKEN_SUPPLY`.
pub fn initialize_curve(owner: Identity, asset_identity: Identity) -> (state: CurveConfiguration)
    ensures
        state.owner == owner,
        state.asset_identity == asset_identity,
        state.virtual_base_reserve == INITIAL_VIRTUAL_BASE_RESERVE,
        state.virtual_token_reserve == INITIAL_TOKEN_SUPPLY,
        state.real_token_reserve == INITIAL_TOKEN_SUPPLY,
        state.real_base_reserve == 0,
        !state.is_graduated,
{
    CurveConfiguration {
        owner,
        asset_identity,
        virtual_base_reserve: INITIAL_VIRTUAL_BASE_RESERVE,
        virtual_token_reserve: INITIAL_TOKEN_SUPPLY,
        real_token_reserve: INITIAL_TOKEN_SUPPLY,
        real_base_reserve: 0,
        is_graduated: false,
    }
}

} // verus!
