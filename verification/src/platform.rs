//! The ledger platform as seen by this system: the singleton global cycle
//! state, the registration ledger (one marker record per identity), the
//! token ledger's per-participant balances, and the internal minting
//! capability. The four externally invocable operations — `initialize`,
//! `update_state`, `mine` and `claim` — are each a single atomic step:
//! fully committed on `Ok`, with no persisted side effect on `Err`.

use std::collections::HashMap;

use vstd::prelude::*;

use crate::emission::{emission_share, share_of};
use crate::state::{apply_register, cycle_step, next_cycle_state, CustomError, GlobalAccount,
    Phase};

verus! {

/// Marker record whose mere existence means "this identity registered and
/// has not yet claimed". It carries no payload; its identifier is derived
/// from the participant's identity alone and does not encode a cycle
/// number.
#[derive(Clone, Copy, PartialEq, Eq, Structural, Debug)]
pub struct MineAccount {}

/// The fungible-asset descriptor created once at bootstrap, with fixed
/// decimal precision.
#[derive(Clone, Copy, PartialEq, Eq, Structural, Debug)]
pub struct TokenMint {
    pub decimals: u8,
}

/// Decimal precision of the token mint created at bootstrap.
pub const MINT_DECIMALS: u8 = 6;

/// The internal capability authorizing mints. It is held only by the
/// platform itself and never exposed through any external interface; the
/// guarded mint subroutine demands it.
struct MintAuthority {}

/// The balance an identity holds in a balance map: the recorded amount, or
/// zero where no balance record exists yet.
pub open spec fn balance_in(m: Map<u64, u64>, id: u64) -> u64 {
    if m.contains_key(id) {
        m[id]
    } else {
        0
    }
}

/// One deployment of the emission cycle: the durable records of the ledger
/// platform, keyed by deterministic identifiers, together with the internal
/// minting capability.
pub struct Platform {
    /// The singleton global cycle state; `None` until bootstrap.
    global: Option<GlobalAccount>,
    /// The token mint descriptor; `None` until bootstrap.
    mint: Option<TokenMint>,
    /// The internal minting capability, held by the platform from birth.
    authority: MintAuthority,
    /// The registration ledger: one marker record per registered identity.
    registrations: HashMap<u64, MineAccount>,
    /// The token ledger's balances, created on demand at claim time.
    balances: HashMap<u64, u64>,
}

impl Platform {
    /// Whether bootstrap has run: the singleton global cycle state exists.
    pub open spec fn bootstrapped(self) -> bool {
        self.cycle() is Some
    }

    /// The global cycle state, if bootstrap has run.
    pub closed spec fn cycle(self) -> Option<GlobalAccount> {
        self.global
    }

    /// The token mint descriptor, if bootstrap has run.
    pub closed spec fn token_mint(self) -> Option<TokenMint> {
        self.mint
    }

    /// The set of identities holding a registration record.
    pub closed spec fn registered_set(self) -> Set<u64> {
        self.registrations@.dom()
    }

    /// Whether `id` holds a registration record: it registered in some
    /// cycle and has not yet claimed.
    pub open spec fn registered(self, id: u64) -> bool {
        self.registered_set().contains(id)
    }

    /// The token ledger's balances as a map from identity to amount.
    pub closed spec fn balances_map(self) -> Map<u64, u64> {
        self.balances@
    }

    /// The balance of `id`, zero where no balance record exists.
    pub open spec fn balance(self, id: u64) -> u64 {
        balance_in(self.balances_map(), id)
    }

    /// The current phase of the cycle, if bootstrap has run.
    pub open spec fn phase(self) -> Phase
        recommends
            self.bootstrapped(),
    {
        self.cycle()->Some_0.state
    }

    /// The count of participants registered in the current cycle, if
    /// bootstrap has run.
    pub open spec fn miners(self) -> u64
        recommends
            self.bootstrapped(),
    {
        self.cycle()->Some_0.miners
    }

    /// A fresh deployment on which bootstrap has not yet run: no records of
    /// any kind exist.
    pub fn new() -> (r: Platform)
        ensures
            !r.bootstrapped(),
            r.cycle() is None,
            r.token_mint() is None,
            r.registered_set() == Set::<u64>::empty(),
            r.balances_map() == Map::<u64, u64>::empty(),
    {
        let r = Platform {
            global: None,
            mint: None,
            authority: MintAuthority {},
            registrations: HashMap::new(),
            balances: HashMap::new(),
        };
        proof {
            assert(r.registrations@.dom() =~= Set::<u64>::empty());
        }
        r
    }

    /// Bootstrap: creates the token mint (decimals fixed, authority the
    /// platform's internal capability) and the zero-initialized singleton
    /// global cycle state, exactly once. A second attempt fails because the
    /// underlying identifiers already exist.
    pub fn initialize(&mut self) -> (r: Result<(), CustomError>)
        ensures
            old(self).bootstrapped() ==> r == Err::<(), CustomError>(CustomError::AlreadyExists)
                && *final(self) == *old(self),
            !old(self).bootstrapped() ==> {
                &&& r == Ok::<(), CustomError>(())
                &&& final(self).cycle() == Some(
                    (GlobalAccount { miners: 0, epoch_end: 0, state: Phase::Uninitialized }),
                )
                &&& final(self).token_mint() == Some((TokenMint { decimals: MINT_DECIMALS }))
                &&& final(self).registered_set() == old(self).registered_set()
                &&& final(self).balances_map() == old(self).balances_map()
            },
    {
        if self.global.is_some() {
            return Err(CustomError::AlreadyExists);
        }
        self.global = Some(GlobalAccount { miners: 0, epoch_end: 0, state: Phase::Uninitialized });
        self.mint = Some(TokenMint { decimals: MINT_DECIMALS });
        Ok(())
    }

    /// The epoch controller applied to the stored global cycle state at
    /// time `now`, per the transition table of [`cycle_step`]. Callable by
    /// anyone; fails with NotFound before bootstrap and with InvalidTime
    /// before the current deadline, in either case changing nothing.
    pub fn update_state(&mut self, now: u64) -> (r: Result<(), CustomError>)
        requires
            old(self).bootstrapped() ==> crate::state::step_fits(old(self).cycle()->Some_0, now),
        ensures
            !old(self).bootstrapped() ==> r == Err::<(), CustomError>(CustomError::NotFound)
                && *final(self) == *old(self),
            old(self).bootstrapped() ==> {
                &&& final(self).registered_set() == old(self).registered_set()
                &&& final(self).balances_map() == old(self).balances_map()
                &&& final(self).token_mint() == old(self).token_mint()
                &&& match cycle_step(old(self).cycle()->Some_0, now) {
                    Ok(g2) => r == Ok::<(), CustomError>(()) && final(self).cycle() == Some(g2),
                    Err(e) => r == Err::<(), CustomError>(e) && final(self).cycle() == old(
                        self,
                    ).cycle(),
                }
            },
    {
        let g = match self.global {
            None => {
                return Err(CustomError::NotFound);
            },
            Some(g) => g,
        };
        match next_cycle_state(g, now) {
            Ok(g2) => {
                self.global = Some(g2);
                Ok(())
            },
            Err(e) => Err(e),
        }
    }

    /// The registration service ("mine"): admits the calling identity
    /// during the Mining phase, at most once per identity, atomically
    /// creating its registration record and incrementing the registrant
    /// counter. Because the record's identifier does not encode a cycle
    /// number, an identity that registered in an earlier cycle and never
    /// claimed still holds its record and is turned away with
    /// AlreadyExists.
    pub fn mine(&mut self, id: u64) -> (r: Result<(), CustomError>)
        requires
            old(self).bootstrapped() && old(self).phase() is Mining && !old(self).registered(id)
                ==> old(self).miners() < u64::MAX,
        ensures
            !old(self).bootstrapped() ==> r == Err::<(), CustomError>(CustomError::NotFound)
                && *final(self) == *old(self),
            old(self).bootstrapped() && !(old(self).phase() is Mining) ==> r == Err::<
                (),
                CustomError,
            >(CustomError::InvalidState) && *final(self) == *old(self),
            old(self).bootstrapped() && old(self).phase() is Mining && old(self).registered(id)
                ==> r == Err::<(), CustomError>(CustomError::AlreadyExists) && *final(self) == *old(
                self,
            ),
            old(self).bootstrapped() && old(self).phase() is Mining && !old(self).registered(id)
                ==> {
                &&& r == Ok::<(), CustomError>(())
                &&& final(self).cycle() == Some(
                    (GlobalAccount {
                        miners: (old(self).miners() + 1) as u64,
                        epoch_end: old(self).cycle()->Some_0.epoch_end,
                        state: Phase::Mining,
                    }),
                )
                &&& final(self).registered_set() == old(self).registered_set().insert(id)
                &&& final(self).balances_map() == old(self).balances_map()
                &&& final(self).token_mint() == old(self).token_mint()
            },
    {
        let g = match self.global {
            None => {
                return Err(CustomError::NotFound);
            },
            Some(g) => g,
        };
        if g.state != Phase::Mining {
            return Err(CustomError::InvalidState);
        }
        if self.registrations.contains_key(&id) {
            return Err(CustomError::AlreadyExists);
        }
        let g2 = match apply_register(g) {
            Ok(g2) => g2,
            Err(e) => {
                return Err(e);
            },
        };
        self.registrations.insert(id, MineAccount {});
        self.global = Some(g2);
        Ok(())
    }

    /// The claim service: during the Claiming phase, a registered identity
    /// withdraws its pro-rata share `floor(TOTAL_EMISSIONS / miners)` of
    /// the emission pool. Atomically, the share is minted into the caller's
    /// balance (created on demand) and the caller's registration record is
    /// destroyed, its storage deposit refunded; destruction is the sole
    /// double-claim guard. A zero registrant counter — reachable only
    /// through a record left over from an earlier cycle — is a hard
    /// arithmetic failure.
    pub fn claim(&mut self, id: u64) -> (r: Result<(), CustomError>)
        requires
            old(self).bootstrapped() && old(self).phase() is Claiming && old(self).registered(id)
                && old(self).miners() >= 1 ==> old(self).balance(id) + share_of(old(self).miners())
                <= u64::MAX,
        ensures
            !old(self).bootstrapped() ==> r == Err::<(), CustomError>(CustomError::NotFound)
                && *final(self) == *old(self),
            old(self).bootstrapped() && !(old(self).phase() is Claiming) ==> r == Err::<
                (),
                CustomError,
            >(CustomError::InvalidState) && *final(self) == *old(self),
            old(self).bootstrapped() && old(self).phase() is Claiming && !old(self).registered(id)
                ==> r == Err::<(), CustomError>(CustomError::NotFound) && *final(self) == *old(
                self,
            ),
            old(self).bootstrapped() && old(self).phase() is Claiming && old(self).registered(id)
                && old(self).miners() == 0 ==> r == Err::<(), CustomError>(
                CustomError::ArithmeticFault,
            ) && *final(self) == *old(self),
            old(self).bootstrapped() && old(self).phase() is Claiming && old(self).registered(id)
                && old(self).miners() >= 1 ==> {
                &&& r == Ok::<(), CustomError>(())
                &&& final(self).cycle() == old(self).cycle()
                &&& final(self).token_mint() == old(self).token_mint()
                &&& final(self).registered_set() == old(self).registered_set().remove(id)
                &&& final(self).balances_map() == old(self).balances_map().insert(
                    id,
                    (old(self).balance(id) + share_of(old(self).miners())) as u64,
                )
            },
    {
        let g = match self.global {
            None => {
                return Err(CustomError::NotFound);
            },
            Some(g) => g,
        };
        if g.state != Phase::Claiming {
            return Err(CustomError::InvalidState);
        }
        if !self.registrations.contains_key(&id) {
            return Err(CustomError::NotFound);
        }
        let share = match emission_share(g.miners) {
            Ok(s) => s,
            Err(e) => {
                return Err(e);
            },
        };
        Self::mint_units(&self.authority, &mut self.balances, id, share);
        self.registrations.remove(&id);
        Ok(())
    }

    /// The token ledger's guarded mint: grows `to`'s balance by `amount`,
    /// creating the balance record if absent. Only a holder of the internal
    /// `MintAuthority` capability can invoke it, which models the mint
    /// authorization being checked inside the mint subroutine alone.
    fn mint_units(
        _authority: &MintAuthority,
        balances: &mut HashMap<u64, u64>,
        to: u64,
        amount: u64,
    )
        requires
            balance_in(old(balances)@, to) + amount <= u64::MAX,
        ensures
            final(balances)@ == old(balances)@.insert(
                to,
                (balance_in(old(balances)@, to) + amount) as u64,
            ),
    {
        let current = match balances.get(&to) {
            Some(v) => *v,
            None => 0,
        };
        balances.insert(to, current + amount);
    }

    /// The stored global cycle state, or `None` before bootstrap.
    pub fn cycle_state(&self) -> (r: Option<GlobalAccount>)
        ensures
            r == self.cycle(),
    {
        self.global
    }

    /// The token mint descriptor, or `None` before bootstrap.
    pub fn mint_descriptor(&self) -> (r: Option<TokenMint>)
        ensures
            r == self.token_mint(),
    {
        self.mint
    }

    /// Whether `id` currently holds a registration record.
    pub fn is_registered(&self, id: u64) -> (r: bool)
        ensures
            r == self.registered(id),
    {
        self.registrations.contains_key(&id)
    }

    /// The balance of `id` in the token ledger, zero where no balance
    /// record exists.
    pub fn balance_of(&self, id: u64) -> (r: u64)
        ensures
            r == self.balance(id),
    {
        match self.balances.get(&id) {
            Some(v) => *v,
            None => 0,
        }
    }
}

} // verus!
