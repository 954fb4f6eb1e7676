//! Emission arithmetic: each of the cycle's registrants receives the floor
//! of the fixed pool divided by the registrant count; the remainder is never
//! minted to anyone.

use vstd::arithmetic::div_mod::{lemma_fundamental_div_mod, lemma_mod_bound};
use vstd::prelude::*;

use crate::state::{CustomError, GlobalAccount, Phase, TOTAL_EMISSIONS};

verus! {

/// The pro-rata share of one claimant when `miners` participants registered
/// in the cycle: `floor(TOTAL_EMISSIONS / miners)`.
pub open spec fn share_of(miners: u64) -> u64
    recommends
        miners >= 1,
{
    (TOTAL_EMISSIONS / miners) as u64
}

/// Computes one claimant's share of the emission pool. A zero registrant
/// count is a hard arithmetic failure, never a wraparound or a silent skip.
pub fn emission_share(miners: u64) -> (r: Result<u64, CustomError>)
    ensures
        miners == 0 ==> r == Err::<u64, CustomError>(CustomError::ArithmeticFault),
        miners >= 1 ==> r == Ok::<u64, CustomError>(share_of(miners)),
{
    if miners == 0 {
        Err(CustomError::ArithmeticFault)
    } else {
        Ok(TOTAL_EMISSIONS / miners)
    }
}

/// The decision of the claim service on the global state alone: the amount
/// owed to one claimant whose registration record exists. Claiming is
/// admitted only during the Claiming phase; a zero registrant counter is a
/// hard arithmetic failure.
pub open spec fn claim_step(g: GlobalAccount) -> Result<u64, CustomError> {
    if !(g.state is Claiming) {
        Err(CustomError::InvalidState)
    } else if g.miners == 0 {
        Err(CustomError::ArithmeticFault)
    } else {
        Ok(share_of(g.miners))
    }
}

/// Applies the claim service's decision to the global state: fails with
/// InvalidState outside the Claiming phase, otherwise computes the
/// claimant's share of the emission pool.
pub fn claim_amount(g: GlobalAccount) -> (r: Result<u64, CustomError>)
    ensures
        r == claim_step(g),
{
    if g.state != Phase::Claiming {
        return Err(CustomError::InvalidState);
    }
    emission_share(g.miners)
}

/// For any cycle with `n >= 1` registrants in which every registrant
/// claims, the sum of all claimed amounts is `n * floor(TOTAL_EMISSIONS / n)`,
/// which never exceeds the pool and equals it exactly when `n` divides the
/// pool evenly.
pub proof fn lemma_total_payout(n: u64)
    requires
        n >= 1,
    ensures
        n * share_of(n) <= TOTAL_EMISSIONS,
        n * share_of(n) == TOTAL_EMISSIONS <==> TOTAL_EMISSIONS % n == 0,
{
    lemma_fundamental_div_mod(TOTAL_EMISSIONS as int, n as int);
    lemma_mod_bound(TOTAL_EMISSIONS as int, n as int);
}

} // verus!
