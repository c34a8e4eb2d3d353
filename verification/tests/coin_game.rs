use improbability::coin_toss::{
    flip_coin, BetOutcome, CoinFace, CoinToss, CoinTossEvent, CoinTossState,
};
use improbability::commands::{
    game_menu_command, hold_command, in_bet_command, is_help_cmd, main_menu_command,
    GameMenuCmd, HoldCmd, InBetCmd, MainMenuCmd,
};
use improbability::common_state::CommonState;
use improbability::errors::ValidationError;

#[test]
fn fresh_coin_toss() {
    let game = CoinToss::new();
    assert_eq!(game.heads_chance, 500);
    assert!(game.result);
    assert_eq!(game.state, CoinTossState::Hold);
    assert_eq!(game.base.bet_min, 1_000);
    assert_eq!(game.base.bet_max, 100_000);
    assert_eq!(game.base.base_payout, 2_000);
    assert_eq!(game.base.name, b"Coin Toss".to_vec());
}

#[test]
fn forced_heads_bet_pays_out() {
    // A fresh economy betting 10 units on a fair coin, forcing heads for
    // one bit of entropy: entropy ends at 99 bits and money at
    // 240 - 10 + 2 * 10 units.
    let mut econ = CommonState::new(b"Abe".to_vec());
    let mut game = CoinToss::new();
    assert_eq!(game.place_bet(econ.money, 10_000), Ok(()));
    assert_eq!(game.base.current_bet, 10_000);
    assert_eq!(game.start_bet(0), Ok(()));
    assert_eq!(game.state, CoinTossState::StartBet);
    game.begin_bet(&mut econ, 3_000).unwrap();
    assert_eq!(game.state, CoinTossState::InBet);
    assert_eq!(econ.money, 230_000);
    // The gained bit was clamped at the level-zero cap of 100 bits.
    assert_eq!(econ.entropy, 100_000);
    assert_eq!(game.select_side(&mut econ, true), Ok(()));
    assert!(game.result);
    assert_eq!(econ.entropy, 99_000);
    assert_eq!(game.close_bet(), Ok(()));
    let outcome = game.resolve_bet(&mut econ, 10_000).unwrap();
    assert_eq!(
        outcome,
        BetOutcome { won: true, payout: 20_000, kicked_out: false }
    );
    assert_eq!(econ.money, 250_000);
    assert_eq!(game.state, CoinTossState::Hold);
    assert_eq!(game.base.bet_start, None);
}

#[test]
fn forced_tails_bet_pays_nothing() {
    let mut econ = CommonState::new(b"Abe".to_vec());
    let mut game = CoinToss::new();
    game.place_bet(econ.money, 10_000).unwrap();
    game.start_bet(0).unwrap();
    game.begin_bet(&mut econ, 3_000).unwrap();
    game.select_side(&mut econ, false).unwrap();
    game.close_bet().unwrap();
    let outcome = game.resolve_bet(&mut econ, 10_000).unwrap();
    assert_eq!(
        outcome,
        BetOutcome { won: false, payout: 0, kicked_out: false }
    );
    assert_eq!(econ.money, 230_000);
}

#[test]
fn bet_rejected_when_funds_cannot_cover_it() {
    // 5 units in hand, a 10-unit bet within the 1-to-100 bounds: rejected
    // for insufficient funds, money untouched.
    let mut econ = CommonState::new(b"Abe".to_vec());
    econ.money = 5_000;
    let mut game = CoinToss::new();
    assert_eq!(
        game.place_bet(econ.money, 10_000),
        Err(ValidationError::InsufficientFunds)
    );
    assert_eq!(econ.money, 5_000);
    assert_eq!(game.base.current_bet, 1_000);
}

#[test]
fn bet_rejected_outside_bounds() {
    let mut econ = CommonState::new(b"Abe".to_vec());
    let mut game = CoinToss::new();
    assert_eq!(
        game.place_bet(econ.money, 500),
        Err(ValidationError::BetOutOfBounds)
    );
    assert_eq!(
        game.place_bet(econ.money, 100_001),
        Err(ValidationError::BetOutOfBounds)
    );
    assert_eq!(econ.money, 240_000);
}

#[test]
fn bet_amount_floored_to_whole_units() {
    let mut game = CoinToss::new();
    game.place_bet(240_000, 10_500).unwrap();
    assert_eq!(game.base.current_bet, 10_000);
}

#[test]
fn double_reduction_bracket_applies_at_suspicion_point_six() {
    // Suspicion 0.6 sits in the third bracket: two reduction steps would
    // take the 2x payout to 1.0x, so the 1.1x floor holds instead.
    let mut econ = CommonState::new(b"Abe".to_vec());
    let mut game = CoinToss::new();
    game.base.suspicion = 600;
    game.place_bet(econ.money, 10_000).unwrap();
    game.start_bet(0).unwrap();
    game.begin_bet(&mut econ, 3_000).unwrap();
    game.select_side(&mut econ, true).unwrap();
    game.close_bet().unwrap();
    let outcome = game.resolve_bet(&mut econ, 10_000).unwrap();
    assert_eq!(outcome.payout, 11_000);
    assert_eq!(econ.money, 230_000 + 11_000);
}

#[test]
fn full_suspicion_guarantees_kickout() {
    let mut econ = CommonState::new(b"Abe".to_vec());
    let mut game = CoinToss::new();
    game.base.suspicion = 1_000;
    game.place_bet(econ.money, 10_000).unwrap();
    game.start_bet(0).unwrap();
    game.begin_bet(&mut econ, 3_000).unwrap();
    game.close_bet().unwrap();
    let outcome = game.resolve_bet(&mut econ, 10_000).unwrap();
    assert!(outcome.kicked_out);
    assert_eq!(game.base.kickout_start_time, Some(10_000));
}

#[test]
fn no_new_bet_while_locked_out() {
    let mut game = CoinToss::new();
    game.base.start_kickout(0);
    assert_eq!(game.start_bet(1_000), Err(ValidationError::LockedOut));
    assert_eq!(game.state, CoinTossState::Hold);
}

#[test]
fn entropy_underflow_rejected_mid_bet() {
    let mut econ = CommonState::new(b"Abe".to_vec());
    let mut game = CoinToss::new();
    game.place_bet(econ.money, 10_000).unwrap();
    game.start_bet(0).unwrap();
    game.begin_bet(&mut econ, 3_000).unwrap();
    econ.entropy = 400;
    assert_eq!(
        game.reflip(&mut econ),
        Err(ValidationError::InsufficientEntropy)
    );
    assert_eq!(
        game.select_side(&mut econ, true),
        Err(ValidationError::InsufficientEntropy)
    );
    assert_eq!(econ.entropy, 400);
}

#[test]
fn actions_rejected_in_wrong_state() {
    let mut econ = CommonState::new(b"Abe".to_vec());
    let mut game = CoinToss::new();
    assert_eq!(game.reflip(&mut econ), Err(ValidationError::WrongState));
    assert_eq!(
        game.select_side(&mut econ, true),
        Err(ValidationError::WrongState)
    );
    assert_eq!(game.close_bet(), Err(ValidationError::WrongState));
    assert_eq!(
        game.resolve_bet(&mut econ, 0),
        Err(ValidationError::WrongState)
    );
    game.start_bet(0).unwrap();
    assert_eq!(
        game.place_bet(econ.money, 10_000),
        Err(ValidationError::WrongState)
    );
    assert_eq!(game.start_bet(0), Err(ValidationError::WrongState));
}

#[test]
fn certain_coin_always_lands_heads() {
    let mut game = CoinToss::new();
    game.heads_chance = 1_000;
    for _ in 0..20 {
        assert!(game.flip());
    }
}

#[test]
fn bet_timer_counts_down_to_zero() {
    let mut game = CoinToss::new();
    assert_eq!(game.bet_time_remaining(5_000), 0);
    game.base.bet_start = Some(10_000);
    assert_eq!(game.bet_time_remaining(10_000), 30_000);
    assert_eq!(game.bet_time_remaining(25_000), 15_000);
    assert_eq!(game.bet_time_remaining(40_000), 0);
    assert!(!game.bet_expired(25_000));
    assert!(game.bet_expired(40_000));
}

#[test]
fn game_loop_walks_a_whole_bet() {
    let mut econ = CommonState::new(b"Abe".to_vec());
    let mut game = CoinToss::new();
    assert_eq!(game.game_loop(&mut econ, 0), CoinTossEvent::Idle);
    game.place_bet(econ.money, 10_000).unwrap();
    game.start_bet(1_000).unwrap();
    // The anticipation window has not elapsed yet.
    assert_eq!(game.game_loop(&mut econ, 2_000), CoinTossEvent::Idle);
    assert_eq!(game.game_loop(&mut econ, 4_000), CoinTossEvent::BetOpened);
    assert_eq!(econ.money, 230_000);
    assert_eq!(game.state, CoinTossState::InBet);
    game.select_side(&mut econ, true).unwrap();
    // The 30-second bet timer still runs.
    assert_eq!(game.game_loop(&mut econ, 20_000), CoinTossEvent::Idle);
    assert_eq!(game.game_loop(&mut econ, 34_000), CoinTossEvent::BetClosed);
    let event = game.game_loop(&mut econ, 34_000);
    assert_eq!(
        event,
        CoinTossEvent::Resolved(BetOutcome { won: true, payout: 20_000, kicked_out: false })
    );
    assert_eq!(econ.money, 250_000);
    assert_eq!(game.state, CoinTossState::Hold);
}

#[test]
fn game_loop_rejects_unaffordable_bet_at_opening() {
    let mut econ = CommonState::new(b"Abe".to_vec());
    let mut game = CoinToss::new();
    game.place_bet(econ.money, 100_000).unwrap();
    game.start_bet(0).unwrap();
    econ.money = 50_000;
    assert_eq!(game.game_loop(&mut econ, 3_000), CoinTossEvent::BetRejected);
    assert_eq!(game.state, CoinTossState::Hold);
    assert_eq!(econ.money, 50_000);
}

#[test]
fn coin_faces_cycle_in_quarter_seconds() {
    assert_eq!(flip_coin(0, 0, None), CoinFace::Heads);
    assert_eq!(flip_coin(0, 250, None), CoinFace::FlippedHeads);
    assert_eq!(flip_coin(0, 500, None), CoinFace::FlippedTails);
    assert_eq!(flip_coin(0, 750, None), CoinFace::Tails);
    assert_eq!(flip_coin(0, 1_000, None), CoinFace::FlippedTails);
    assert_eq!(flip_coin(0, 1_250, None), CoinFace::FlippedHeads);
    assert_eq!(flip_coin(0, 1_500, None), CoinFace::Heads);
    assert_eq!(flip_coin(0, 999_999, Some(true)), CoinFace::Heads);
    assert_eq!(flip_coin(0, 999_999, Some(false)), CoinFace::Tails);
}

#[test]
fn help_command_forms() {
    assert!(is_help_cmd(&b"help".to_vec()));
    assert!(is_help_cmd(&b"Help".to_vec()));
    assert!(is_help_cmd(&b"h".to_vec()));
    assert!(is_help_cmd(&b"H".to_vec()));
    assert!(!is_help_cmd(&b"HELP".to_vec()));
    assert!(!is_help_cmd(&b"".to_vec()));
}

#[test]
fn menu_command_tokens() {
    assert_eq!(main_menu_command(&b"q".to_vec()), MainMenuCmd::Quit);
    assert_eq!(main_menu_command(&b"N".to_vec()), MainMenuCmd::NewGame);
    assert_eq!(main_menu_command(&b"l".to_vec()), MainMenuCmd::LoadGame);
    assert_eq!(main_menu_command(&b"x".to_vec()), MainMenuCmd::Unknown);
    assert_eq!(game_menu_command(&b"1".to_vec()), GameMenuCmd::PlayCoinToss);
    assert_eq!(game_menu_command(&b"S".to_vec()), GameMenuCmd::Save);
    assert_eq!(game_menu_command(&b"Q".to_vec()), GameMenuCmd::Back);
    assert_eq!(game_menu_command(&b"s".to_vec()), GameMenuCmd::Unknown);
}

#[test]
fn hold_and_in_bet_tokens() {
    assert_eq!(hold_command(&b"10".to_vec()), HoldCmd::Bet(10_000));
    assert_eq!(hold_command(&b"0".to_vec()), HoldCmd::Bet(0));
    assert_eq!(hold_command(&b"f".to_vec()), HoldCmd::Flip);
    assert_eq!(hold_command(&b"Q".to_vec()), HoldCmd::Quit);
    assert_eq!(hold_command(&b"ten".to_vec()), HoldCmd::Invalid);
    // A number too large to scale sticks at the ledger's top.
    assert_eq!(
        hold_command(&b"18446744073709551615".to_vec()),
        HoldCmd::Bet(u64::MAX)
    );
    assert_eq!(in_bet_command(b'f'), InBetCmd::Reflip);
    assert_eq!(in_bet_command(b'w'), InBetCmd::SelectHeads);
    assert_eq!(in_bet_command(b'l'), InBetCmd::SelectTails);
    assert_eq!(in_bet_command(b'q'), InBetCmd::EndBet);
    assert_eq!(in_bet_command(b'x'), InBetCmd::Invalid);
}

#[test]
fn resolution_updates_performance_tallies() {
    let mut econ = CommonState::new(b"Abe".to_vec());
    let mut game = CoinToss::new();
    game.place_bet(econ.money, 10_000).unwrap();
    game.start_bet(0).unwrap();
    game.begin_bet(&mut econ, 3_000).unwrap();
    game.select_side(&mut econ, true).unwrap();
    game.close_bet().unwrap();
    game.resolve_bet(&mut econ, 10_000).unwrap();
    // A fair coin expects half the 20-unit winning payout.
    assert_eq!(game.base.real_gains, 20_000);
    assert_eq!(game.base.expected_gains, 10_000);
    assert_eq!(game.base.real_wins, 1_000);
    assert_eq!(game.base.expected_wins, 500);
}
