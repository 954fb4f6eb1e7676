use mycelium2::emission::{claim_amount, emission_share};
use mycelium2::platform::Platform;
use mycelium2::state::{
    apply_register, next_cycle_state, CustomError, GlobalAccount, Phase, CLAIM_SECONDS,
    MINE_SECONDS,
};

const T0: u64 = 1_000_000;

/// A platform that has been bootstrapped and advanced into the Mining
/// phase at time `now`.
fn platform_in_mining(now: u64) -> Platform {
    let mut p = Platform::new();
    p.initialize().unwrap();
    p.update_state(now).unwrap();
    p
}

#[test]
fn bootstrap_succeeds_once() {
    let mut p = Platform::new();
    assert_eq!(p.initialize(), Ok(()));
    let g = p.cycle_state().unwrap();
    assert_eq!(g.state, Phase::Uninitialized);
    assert_eq!(g.miners, 0);
    assert_eq!(g.epoch_end, 0);
    let mint = p.mint_descriptor().unwrap();
    assert_eq!(mint.decimals, 6);

    assert_eq!(p.initialize(), Err(CustomError::AlreadyExists));
    assert_eq!(p.cycle_state().unwrap(), g);
    assert_eq!(p.mint_descriptor().unwrap(), mint);
}

#[test]
fn operations_before_bootstrap_fail_not_found() {
    let mut p = Platform::new();
    assert_eq!(p.update_state(T0), Err(CustomError::NotFound));
    assert_eq!(p.mine(1), Err(CustomError::NotFound));
    assert_eq!(p.claim(1), Err(CustomError::NotFound));
}

#[test]
fn advance_from_uninitialized_starts_mining() {
    let mut p = Platform::new();
    p.initialize().unwrap();
    assert_eq!(p.update_state(T0), Ok(()));
    let g = p.cycle_state().unwrap();
    assert_eq!(g.state, Phase::Mining);
    assert_eq!(g.miners, 0);
    assert_eq!(g.epoch_end, T0 + 259_200);
}

#[test]
fn advance_from_mining_before_deadline_fails_invalid_time() {
    let mut p = platform_in_mining(T0);
    let before = p.cycle_state().unwrap();
    assert_eq!(p.update_state(T0 + MINE_SECONDS - 1), Err(CustomError::InvalidTime));
    assert_eq!(p.cycle_state().unwrap(), before);
}

#[test]
fn advance_from_mining_at_deadline_starts_claiming() {
    let mut p = platform_in_mining(T0);
    let now = T0 + MINE_SECONDS;
    assert_eq!(p.update_state(now), Ok(()));
    let g = p.cycle_state().unwrap();
    assert_eq!(g.state, Phase::Claiming);
    assert_eq!(g.epoch_end, now + 86_400);
}

#[test]
fn advance_from_claiming_resets_to_uninitialized() {
    let mut p = platform_in_mining(T0);
    p.mine(9).unwrap();
    let claim_start = T0 + MINE_SECONDS;
    p.update_state(claim_start).unwrap();
    let before = p.cycle_state().unwrap();

    assert_eq!(p.update_state(claim_start + CLAIM_SECONDS - 1), Err(CustomError::InvalidTime));
    assert_eq!(p.cycle_state().unwrap(), before);

    assert_eq!(p.update_state(claim_start + CLAIM_SECONDS), Ok(()));
    let g = p.cycle_state().unwrap();
    assert_eq!(g.state, Phase::Uninitialized);
    // No field reset on this transition.
    assert_eq!(g.miners, before.miners);
    assert_eq!(g.epoch_end, before.epoch_end);
}

#[test]
fn register_outside_mining_fails_invalid_state() {
    let mut p = Platform::new();
    p.initialize().unwrap();
    // Still Uninitialized.
    assert_eq!(p.mine(1), Err(CustomError::InvalidState));

    let mut q = platform_in_mining(T0);
    q.update_state(T0 + MINE_SECONDS).unwrap();
    // Now Claiming.
    assert_eq!(q.mine(1), Err(CustomError::InvalidState));
    assert_eq!(q.cycle_state().unwrap().miners, 0);
}

#[test]
fn register_succeeds_once_per_identity() {
    let mut p = platform_in_mining(T0);
    assert_eq!(p.mine(42), Ok(()));
    assert!(p.is_registered(42));
    assert_eq!(p.cycle_state().unwrap().miners, 1);

    assert_eq!(p.mine(42), Err(CustomError::AlreadyExists));
    assert_eq!(p.cycle_state().unwrap().miners, 1);

    assert_eq!(p.mine(43), Ok(()));
    assert_eq!(p.cycle_state().unwrap().miners, 2);
}

#[test]
fn pure_transition_table() {
    let uninit = GlobalAccount { miners: 5, epoch_end: 77, state: Phase::Uninitialized };
    assert_eq!(
        next_cycle_state(uninit, T0),
        Ok(GlobalAccount { miners: 0, epoch_end: T0 + MINE_SECONDS, state: Phase::Mining })
    );

    let mining = GlobalAccount { miners: 5, epoch_end: T0, state: Phase::Mining };
    assert_eq!(next_cycle_state(mining, T0 - 1), Err(CustomError::InvalidTime));
    assert_eq!(
        next_cycle_state(mining, T0),
        Ok(GlobalAccount { miners: 5, epoch_end: T0 + CLAIM_SECONDS, state: Phase::Claiming })
    );

    let claiming = GlobalAccount { miners: 5, epoch_end: T0, state: Phase::Claiming };
    assert_eq!(next_cycle_state(claiming, T0 - 1), Err(CustomError::InvalidTime));
    assert_eq!(
        next_cycle_state(claiming, T0 + 3),
        Ok(GlobalAccount { miners: 5, epoch_end: T0, state: Phase::Uninitialized })
    );
}

#[test]
fn pure_register_step() {
    let mining = GlobalAccount { miners: 7, epoch_end: T0, state: Phase::Mining };
    assert_eq!(
        apply_register(mining),
        Ok(GlobalAccount { miners: 8, epoch_end: T0, state: Phase::Mining })
    );
    let claiming = GlobalAccount { miners: 7, epoch_end: T0, state: Phase::Claiming };
    assert_eq!(apply_register(claiming), Err(CustomError::InvalidState));
    let uninit = GlobalAccount { miners: 7, epoch_end: T0, state: Phase::Uninitialized };
    assert_eq!(apply_register(uninit), Err(CustomError::InvalidState));
}

#[test]
fn pure_claim_step() {
    let claiming = GlobalAccount { miners: 4, epoch_end: T0, state: Phase::Claiming };
    assert_eq!(claim_amount(claiming), Ok(250));
    let mining = GlobalAccount { miners: 4, epoch_end: T0, state: Phase::Mining };
    assert_eq!(claim_amount(mining), Err(CustomError::InvalidState));
    let empty = GlobalAccount { miners: 0, epoch_end: T0, state: Phase::Claiming };
    assert_eq!(claim_amount(empty), Err(CustomError::ArithmeticFault));
}

#[test]
fn emission_share_values() {
    assert_eq!(emission_share(0), Err(CustomError::ArithmeticFault));
    assert_eq!(emission_share(1), Ok(1000));
    assert_eq!(emission_share(3), Ok(333));
    assert_eq!(emission_share(6), Ok(166));
    assert_eq!(emission_share(7), Ok(142));
    assert_eq!(emission_share(1000), Ok(1));
    assert_eq!(emission_share(1001), Ok(0));
    assert_eq!(emission_share(u64::MAX), Ok(0));
}
