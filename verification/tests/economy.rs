use improbability::codec::{parse_record, parse_u64, record_bytes, u64_to_dec};
use improbability::common_state::{ButtonAction, CommonState};
use improbability::errors::ParseError;
use improbability::game::entropy;
use improbability::machine::Machine;
use improbability::money::to_lsd;

#[test]
fn entropy_of_certainty_is_zero() {
    assert_eq!(entropy(1000), 0);
}

#[test]
fn entropy_of_fair_coin_is_one_bit() {
    assert_eq!(entropy(500), 1000);
}

#[test]
fn entropy_exact_on_power_of_two_odds() {
    assert_eq!(entropy(250), 2000);
    assert_eq!(entropy(125), 3000);
}

#[test]
fn entropy_interpolates_between_powers() {
    // exp_of(750) = 0, so the fraction is (1000 - 750) * 1000 / 750.
    assert_eq!(entropy(750), 333);
    // 1 permille doubles nine times to 512, then interpolates.
    assert_eq!(entropy(1), 9000 + (1000 - 512) * 1000 / 512);
}

#[test]
fn entropy_never_rises_with_probability() {
    let mut prev = entropy(1);
    for p in 2..=1000u64 {
        let e = entropy(p);
        assert!(e <= prev);
        prev = e;
    }
}

#[test]
fn entropy_cap_is_100_plus_level() {
    assert_eq!(Machine::new(0).entropy_cap(), 100_000);
    assert_eq!(Machine::new(1).entropy_cap(), 101_000);
    assert_eq!(Machine::new(250).entropy_cap(), 350_000);
}

#[test]
fn entropy_cap_non_decreasing_in_level() {
    let mut prev = Machine::new(0).entropy_cap();
    for level in 1..50u64 {
        let cap = Machine::new(level).entropy_cap();
        assert!(cap >= prev);
        prev = cap;
    }
}

#[test]
fn add_entropy_clamps_at_cap() {
    let mut econ = CommonState::new(b"Abe".to_vec());
    assert_eq!(econ.entropy, 100_000);
    econ.add_entropy(1_000);
    assert_eq!(econ.entropy, 100_000);
    econ.entropy = 98_500;
    econ.add_entropy(1_000);
    assert_eq!(econ.entropy, 99_500);
    econ.add_entropy(1_000);
    assert_eq!(econ.entropy, 100_000);
}

#[test]
fn add_entropy_never_exceeds_cap_over_any_sequence() {
    let mut econ = CommonState::new(b"Abe".to_vec());
    let cap = econ.machine.entropy_cap();
    for gain in [0u64, 1, 500, 1_000, 99_999, u64::MAX, 3] {
        econ.add_entropy(gain);
        assert!(econ.entropy <= cap);
    }
}

#[test]
fn invest_buys_levels_two_units_each() {
    let mut econ = CommonState::new(b"Abe".to_vec());
    let r = econ.invest_in_machine(10_000);
    assert_eq!(r, Ok(5));
    assert_eq!(econ.money, 230_000);
    assert_eq!(econ.machine.level, 5);
    assert_eq!(econ.machine.entropy_cap(), 105_000);
}

#[test]
fn invest_must_leave_one_unit() {
    let mut econ = CommonState::new(b"Abe".to_vec());
    econ.money = 5_000;
    let r = econ.invest_in_machine(4_500);
    assert_eq!(r, Err(improbability::errors::ValidationError::InsufficientFunds));
    assert_eq!(econ.money, 5_000);
    assert_eq!(econ.machine.level, 0);
}

#[test]
fn decimal_rendering_and_parsing() {
    assert_eq!(u64_to_dec(0), b"0".to_vec());
    assert_eq!(u64_to_dec(240_000), b"240000".to_vec());
    assert_eq!(u64_to_dec(u64::MAX), b"18446744073709551615".to_vec());
    assert_eq!(parse_u64(&b"0".to_vec()), Ok(0));
    assert_eq!(parse_u64(&b"18446744073709551615".to_vec()), Ok(u64::MAX));
    assert_eq!(
        parse_u64(&b"18446744073709551616".to_vec()),
        Err(ParseError::InvalidNumber)
    );
    assert_eq!(parse_u64(&b"".to_vec()), Err(ParseError::InvalidNumber));
    assert_eq!(parse_u64(&b"12a".to_vec()), Err(ParseError::InvalidNumber));
}

#[test]
fn record_roundtrip_restores_every_field() {
    let name = b"Abe Mossman".to_vec();
    let written = record_bytes(&name, 123_456, 99_000, 7, 3_600_000);
    let (rname, money, entropy, level, length) = parse_record(&written).unwrap();
    assert_eq!(rname, name);
    assert_eq!(money, 123_456);
    assert_eq!(entropy, 99_000);
    assert_eq!(level, 7);
    assert_eq!(length, 3_600_000);
}

#[test]
fn save_and_load_restore_the_session() {
    let mut econ = CommonState::new(b"Abe".to_vec());
    econ.money = 123_456;
    econ.entropy = 99_000;
    let written = econ.save_str(2_000);
    assert_eq!(written, b"Abe,123456,99000,0,2000".to_vec());
    assert_eq!(econ.game_length, 2_000);
    assert_eq!(econ.last_prior_save, 2_000);

    let mut restored = CommonState::empty();
    restored.load_state(&written, 5_000).unwrap();
    assert_eq!(restored.player_name, b"Abe".to_vec());
    assert_eq!(restored.money, 123_456);
    assert_eq!(restored.entropy, 99_000);
    assert_eq!(restored.machine.level, 0);
    assert_eq!(restored.game_length, 2_000);
    assert_eq!(restored.last_prior_save, 5_000);
}

#[test]
fn malformed_record_is_rejected_whole() {
    let mut econ = CommonState::empty();
    assert_eq!(
        econ.load_state(&b"no separators here".to_vec(), 0),
        Err(ParseError::MissingField)
    );
    assert_eq!(
        econ.load_state(&b"Abe,money,0,0,0".to_vec(), 0),
        Err(ParseError::InvalidNumber)
    );
    assert_eq!(
        econ.load_state(&b"Abe,1,2,3".to_vec(), 0),
        Err(ParseError::MissingField)
    );
    assert_eq!(
        econ.load_state(&b"Abe,1,2,3,4,5".to_vec(), 0),
        Err(ParseError::MissingField)
    );
    // An entropy balance above the level's cap cannot be loaded.
    assert_eq!(
        econ.load_state(&b"Abe,1,999999999,0,0".to_vec(), 0),
        Err(ParseError::OutOfRange)
    );
    // Nothing was zero-filled along the way.
    assert_eq!(econ.money, 0);
    assert_eq!(econ.player_name, b"".to_vec());
}

#[test]
fn game_over_when_money_below_minimum_bet() {
    let mut econ = CommonState::new(b"Abe".to_vec());
    assert!(!econ.is_game_over(1_000));
    econ.money = 999;
    assert!(econ.is_game_over(1_000));
}

#[test]
fn lsd_formatting() {
    // 500.25 units: 2 pounds, 1 shilling, 8 pence, 1 farthing.
    assert_eq!(to_lsd(500_250), "\u{a3}2 1s 8d 1/4 f".as_bytes().to_vec());
    assert_eq!(to_lsd(0), "\u{a3}0 0s 0d 0/4 f".as_bytes().to_vec());
    // 239 units: just under a pound.
    assert_eq!(to_lsd(239_999), "\u{a3}0 19s 11d 3/4 f".as_bytes().to_vec());
}

#[test]
fn fresh_and_empty_sessions() {
    let econ = CommonState::new(b"Abe".to_vec());
    assert_eq!(econ.money, 240_000);
    assert_eq!(econ.entropy, 100_000);
    assert_eq!(econ.current_bet, 1_000);
    assert_eq!(econ.machine.level, 0);
    assert!(matches!(econ.button_clicked, ButtonAction::Idle));
    let blank = CommonState::empty();
    assert_eq!(blank.money, 0);
    assert_eq!(blank.entropy, 0);
}
