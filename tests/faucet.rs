use tap_to_earn::{
    check_initialize, check_tap, cooldown_elapsed, payout_amount, Config, TapError,
    TapGameContract, Transfer,
};

const ADMIN: u64 = 1;
const ASSET: u64 = 2;
const USER: u64 = 7;
const OTHER: u64 = 8;

fn configured(reward_amount: u128, cooldown_seconds: u64) -> TapGameContract {
    let mut game = TapGameContract::new();
    assert_eq!(game.initialize(ADMIN, ASSET, reward_amount, cooldown_seconds), Ok(()));
    game
}

#[test]
fn scenario_reward_100_cooldown_3600() {
    let mut game = configured(100, 3600);
    let mut balance: i128 = 0;

    let t = game.tap(USER, 0, true).unwrap();
    assert_eq!(t, Transfer { asset: ASSET, to: USER, amount: 100, previous: None });
    assert_eq!(game.finish_tap(&t, true), Ok(()));
    balance += t.amount;
    assert_eq!(game.last_tap(USER), Some(0));
    assert_eq!(balance, 100);

    assert_eq!(game.tap(USER, 1800, true), Err(TapError::CooldownActive));
    assert_eq!(game.last_tap(USER), Some(0));

    let t = game.tap(USER, 3600, true).unwrap();
    assert_eq!(t, Transfer { asset: ASSET, to: USER, amount: 100, previous: Some(0) });
    assert_eq!(game.finish_tap(&t, true), Ok(()));
    balance += t.amount;
    assert_eq!(game.last_tap(USER), Some(3600));
    assert_eq!(balance, 200);
}

#[test]
fn initialize_stores_config() {
    let game = configured(5, 60);
    assert_eq!(
        game.config(),
        Some(Config { admin: ADMIN, asset: ASSET, reward_amount: 5, cooldown_seconds: 60 })
    );
    assert_eq!(game.last_tap(USER), None);
}

#[test]
fn second_initialize_is_refused() {
    let mut game = configured(100, 3600);
    assert_eq!(game.initialize(9, 9, 1, 1), Err(TapError::AlreadyInitialized));
    assert_eq!(
        game.config(),
        Some(Config { admin: ADMIN, asset: ASSET, reward_amount: 100, cooldown_seconds: 3600 })
    );
}

#[test]
fn second_initialize_keeps_registry() {
    let mut game = configured(100, 3600);
    game.tap(USER, 10, true).unwrap();
    assert_eq!(game.initialize(ADMIN, ASSET, 100, 3600), Err(TapError::AlreadyInitialized));
    assert_eq!(game.last_tap(USER), Some(10));
}

#[test]
fn reward_too_large_is_refused() {
    let mut game = TapGameContract::new();
    let too_large = (i128::MAX as u128) + 1;
    assert_eq!(game.initialize(ADMIN, ASSET, too_large, 10), Err(TapError::RewardTooLarge));
    assert_eq!(game.config(), None);
    assert_eq!(game.initialize(ADMIN, ASSET, u128::MAX, 10), Err(TapError::RewardTooLarge));
}

#[test]
fn largest_reward_is_accepted() {
    let mut game = configured(i128::MAX as u128, 10);
    let t = game.tap(USER, 0, true).unwrap();
    assert_eq!(t.amount, i128::MAX);
}

#[test]
fn tap_before_initialize_is_refused() {
    let mut game = TapGameContract::new();
    assert_eq!(game.tap(USER, 100, true), Err(TapError::Uninitialized));
    assert_eq!(game.last_tap(USER), None);
}

#[test]
fn first_tap_succeeds_at_any_time() {
    for now in [0u64, 1, 3599, 3600, u64::MAX] {
        let mut game = configured(100, 3600);
        let t = game.tap(USER, now, true).unwrap();
        assert_eq!(t.amount, 100);
        assert_eq!(game.last_tap(USER), Some(now));
    }
}

#[test]
fn tap_within_cooldown_is_refused() {
    let mut game = configured(100, 3600);
    game.tap(USER, 1000, true).unwrap();
    for t2 in [1001u64, 2000, 4599] {
        assert_eq!(game.tap(USER, t2, true), Err(TapError::CooldownActive));
        assert_eq!(game.last_tap(USER), Some(1000));
    }
}

#[test]
fn tap_at_cooldown_end_succeeds() {
    let mut game = configured(100, 3600);
    game.tap(USER, 1000, true).unwrap();
    let t = game.tap(USER, 4600, true).unwrap();
    assert_eq!(t.previous, Some(1000));
    assert_eq!(game.last_tap(USER), Some(4600));
}

#[test]
fn unauthorized_tap_is_refused() {
    let mut game = configured(100, 3600);
    assert_eq!(game.tap(USER, 0, false), Err(TapError::AuthorizationMissing));
    assert_eq!(game.last_tap(USER), None);
    game.tap(USER, 0, true).unwrap();
    assert_eq!(game.tap(USER, 10, false), Err(TapError::AuthorizationMissing));
    assert_eq!(game.tap(USER, 3600, false), Err(TapError::AuthorizationMissing));
    let mut fresh = TapGameContract::new();
    assert_eq!(fresh.tap(USER, 0, false), Err(TapError::AuthorizationMissing));
}

#[test]
fn tap_updates_only_its_user() {
    let mut game = configured(100, 3600);
    game.tap(OTHER, 5, true).unwrap();
    game.tap(USER, 50, true).unwrap();
    assert_eq!(game.last_tap(OTHER), Some(5));
    assert_eq!(game.last_tap(USER), Some(50));
    assert_eq!(game.tap(OTHER, 60, true), Err(TapError::CooldownActive));
    assert_eq!(game.last_tap(USER), Some(50));
}

#[test]
fn declined_first_transfer_is_undone() {
    let mut game = configured(100, 3600);
    let t = game.tap(USER, 20, true).unwrap();
    assert_eq!(game.finish_tap(&t, false), Err(TapError::TransferFailed));
    assert_eq!(game.last_tap(USER), None);
    assert!(game.tap(USER, 21, true).is_ok());
}

#[test]
fn declined_later_transfer_is_undone() {
    let mut game = configured(100, 3600);
    game.tap(USER, 0, true).unwrap();
    let t = game.tap(USER, 4000, true).unwrap();
    assert_eq!(game.finish_tap(&t, false), Err(TapError::TransferFailed));
    assert_eq!(game.last_tap(USER), Some(0));
}

#[test]
fn zero_cooldown_allows_repeat_at_same_time() {
    let mut game = configured(3, 0);
    game.tap(USER, 42, true).unwrap();
    assert!(game.tap(USER, 42, true).is_ok());
}

#[test]
fn cooldown_check_handles_overflow() {
    assert!(cooldown_elapsed(None, u64::MAX, 0));
    assert!(!cooldown_elapsed(Some(u64::MAX), 1, u64::MAX));
    assert!(cooldown_elapsed(Some(10), 5, 15));
    assert!(!cooldown_elapsed(Some(10), 5, 14));
    let mut game = configured(1, u64::MAX);
    game.tap(USER, 1, true).unwrap();
    assert_eq!(game.tap(USER, u64::MAX, true), Err(TapError::CooldownActive));
}

#[test]
fn plain_checks() {
    assert_eq!(check_initialize(true, 1), Err(TapError::AlreadyInitialized));
    assert_eq!(check_initialize(false, 1), Ok(()));
    assert_eq!(check_initialize(false, u128::MAX), Err(TapError::RewardTooLarge));
    assert_eq!(check_tap(false, 10, Some(0), 100), Err(TapError::AuthorizationMissing));
    assert_eq!(check_tap(true, 10, Some(95), 100), Err(TapError::CooldownActive));
    assert_eq!(check_tap(true, 10, Some(90), 100), Ok(()));
    assert_eq!(check_tap(true, 10, None, 0), Ok(()));
    assert_eq!(payout_amount(100), Some(100));
    assert_eq!(payout_amount(u128::MAX), None);
}
