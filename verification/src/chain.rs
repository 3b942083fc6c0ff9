//! Chain-level rules the payment flow depends on: coinbase maturity and the
//! fixed-point representation of amounts.
use vstd::prelude::*;

verus! {

/// Minimum confirmation depth before a block-reward output becomes
/// spendable. This is a rule of the target chain (regtest keeps the
/// production value), not a tunable of this crate.
pub const COINBASE_MATURITY: u64 = 100;

/// Subunits (satoshis) per base currency unit.
pub const SATS_PER_COIN: u64 = 100_000_000;

/// Whether a coinbase output with the given number of confirmations may be
/// spent: it must be strictly deeper than the maturity window.
pub open spec fn coinbase_spendable_at(confirmations: u64) -> bool {
    confirmations > COINBASE_MATURITY
}

/// Whether a coinbase output with the given number of confirmations may be
/// spent.
pub fn coinbase_spendable(confirmations: u64) -> (b: bool)
    ensures
        b == coinbase_spendable_at(confirmations),
{
    confirmations > COINBASE_MATURITY
}

/// How many blocks to generate to one's own address so that the first
/// block's reward becomes spendable: one more than the maturity window,
/// since the first coinbase gains one confirmation per generated block.
pub fn spendable_funding_block_count() -> (n: u64)
    ensures
        n == COINBASE_MATURITY + 1,
        coinbase_spendable_at(n),
        !coinbase_spendable_at(COINBASE_MATURITY),
{
    COINBASE_MATURITY + 1
}

/// How many blocks to generate after broadcasting a payment so that it
/// obtains exactly one confirmation.
pub fn confirmation_block_count() -> (n: u64)
    ensures
        n == 1,
{
    1
}

/// Maturity is a strict boundary: a coinbase confirmed exactly as deep as
/// the maturity window is still unspendable, and one block more makes it
/// spendable.
pub proof fn lemma_maturity_boundary()
    ensures
        !coinbase_spendable_at(COINBASE_MATURITY),
        coinbase_spendable_at((COINBASE_MATURITY + 1) as u64),
{
}

/// Convert an amount given in whole base units into subunits, refusing
/// amounts whose subunit value would not fit the fixed-point range.
pub fn coins_to_sats(coins: u64) -> (r: Option<u64>)
    ensures
        r is Some <==> coins * SATS_PER_COIN <= u64::MAX,
        r matches Some(v) ==> v == coins * SATS_PER_COIN,
{
    coins.checked_mul(SATS_PER_COIN)
}

} // verus!
