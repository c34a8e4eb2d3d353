use improbability::coin_toss::CoinToss;
use improbability::game::{effective_payout, kickout_chance};

#[test]
fn kickout_running_reports_remaining_time() {
    // Locked out at t0 = 1000 with a 30-second maximum.
    let mut game = CoinToss::new();
    game.base.start_kickout(1_000);
    let locked = game.base.kickout_update(11_000);
    assert!(locked);
    assert_eq!(game.base.kickout_remaining, 20_000);
    assert_eq!(game.base.kickout_time_remaining(11_000), 20_000);
}

#[test]
fn kickout_expired_clears_all_fields() {
    // Locked out 31 seconds ago with a 30-second maximum.
    let now = 100_000;
    let mut game = CoinToss::new();
    game.base.start_kickout(now - 31_000);
    let locked = game.base.kickout_update(now);
    assert!(!locked);
    assert_eq!(game.base.kickout_start_time, None);
    assert_eq!(game.base.kickout_remaining, 0);
    assert_eq!(game.base.current_kickout_buyout, 0);
}

#[test]
fn kickout_not_locked_changes_nothing() {
    let mut game = CoinToss::new();
    let locked = game.base.kickout_update(50_000);
    assert!(!locked);
    assert_eq!(game.base.kickout_start_time, None);
    assert_eq!(game.base.kickout_remaining, 0);
}

#[test]
fn buyout_price_from_gain_gap() {
    let mut game = CoinToss::new();
    game.base.buyout_factor = 1_000;
    game.base.real_gains = 30_000;
    game.base.expected_gains = 10_000;
    game.base.start_kickout(0);
    // factor 1.0 times the 20-unit gap, doubled, one full time step.
    assert_eq!(game.base.calculate_buyout(10_000), 40_000);
    let locked = game.base.kickout_update(10_000);
    assert!(locked);
    assert_eq!(game.base.current_kickout_buyout, 40_000);
}

#[test]
fn buyout_price_never_rises_as_time_passes() {
    let mut game = CoinToss::new();
    game.base.buyout_factor = 1_000;
    game.base.real_gains = 30_000;
    game.base.expected_gains = 10_000;
    game.base.start_kickout(0);
    let mut prev = game.base.calculate_buyout(1);
    for now in [5_000u64, 10_000, 20_000, 29_999, 30_000, 40_000] {
        let price = game.base.calculate_buyout(now);
        assert!(price <= prev);
        prev = price;
    }
    // Expired: nothing left to pay.
    assert_eq!(game.base.calculate_buyout(30_000), 0);
}

#[test]
fn buyout_is_zero_when_player_gained_no_more_than_expected() {
    let mut game = CoinToss::new();
    game.base.buyout_factor = 1_000;
    game.base.real_gains = 10_000;
    game.base.expected_gains = 30_000;
    game.base.start_kickout(0);
    assert_eq!(game.base.calculate_buyout(10_000), 0);
}

#[test]
fn reset_kickout_gives_a_clean_slate() {
    let mut game = CoinToss::new();
    game.base.suspicion = 900;
    game.base.expected_gains = 5;
    game.base.real_gains = 6;
    game.base.expected_wins = 7;
    game.base.real_wins = 8;
    game.base.reset_kickout();
    assert_eq!(game.base.suspicion, 0);
    assert_eq!(game.base.expected_gains, 0);
    assert_eq!(game.base.real_gains, 0);
    assert_eq!(game.base.expected_wins, 0);
    assert_eq!(game.base.real_wins, 0);
}

#[test]
fn payout_brackets_follow_the_table() {
    // Below a quarter suspicion: untouched.
    assert_eq!(effective_payout(2_000, 0), 2_000);
    assert_eq!(effective_payout(2_000, 249), 2_000);
    // One reduction step.
    assert_eq!(effective_payout(2_000, 250), 1_500);
    assert_eq!(effective_payout(2_000, 499), 1_500);
    // Two steps would land below the floor: held at 1.1x.
    assert_eq!(effective_payout(2_000, 500), 1_100);
    assert_eq!(effective_payout(2_000, 600), 1_100);
    assert_eq!(effective_payout(2_000, 749), 1_100);
    // Four steps, floored at 1.1x.
    assert_eq!(effective_payout(2_000, 750), 1_100);
    assert_eq!(effective_payout(2_000, 1_000), 1_100);
    // A richer game keeps headroom above the floor.
    assert_eq!(effective_payout(5_000, 300), 4_500);
    assert_eq!(effective_payout(5_000, 600), 4_000);
    assert_eq!(effective_payout(5_000, 800), 3_000);
}

#[test]
fn kickout_chance_rises_in_top_bracket() {
    assert_eq!(kickout_chance(0), 0);
    assert_eq!(kickout_chance(749), 0);
    assert_eq!(kickout_chance(750), 0);
    assert_eq!(kickout_chance(800), 200);
    assert_eq!(kickout_chance(1_000), 1_000);
}
