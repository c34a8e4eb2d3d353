//! The state shared across the whole session: the player's money and
//! entropy balances, the machine that caps entropy storage, and the
//! bookkeeping needed to persist a session.

use vstd::prelude::*;
use crate::machine::{Machine, spec_entropy_cap};
use crate::errors::{ParseError, ValidationError};
use crate::{LEVEL_MAX, TIME_MAX};

verus! {

/// The state of the session: resources, the game being looked at, the last
/// button pressed, and the save bookkeeping.
///
/// Money is in thousandths of the currency unit, entropy in millibits, and
/// times in milliseconds of session time.
pub struct CommonState {
    /// The name of the player. Holds no comma, so that the persisted record
    /// stays unambiguous.
    pub player_name: Vec<u8>,
    /// The money owned by the player, in milli currency units. If it ever
    /// drops below the active game's minimum bet, the session is over.
    pub money: u64,
    /// The entropy available to the player, in millibits; spent
    /// manipulating the games, capped by the machine.
    pub entropy: u64,
    /// Which of the games is currently active.
    pub active_game: u8,
    /// The bet currently selected for the active game, in milli currency
    /// units.
    pub current_bet: u64,
    /// The button most recently clicked, if any.
    pub button_clicked: ButtonAction,
    /// The entropy machine of the player; sets the cap on how much entropy
    /// can be stored at one moment.
    pub machine: Machine,
    /// The session time at which the last save was made, in milliseconds.
    pub last_prior_save: u64,
    /// How long the game has been going on, in milliseconds; topped up at
    /// every save.
    pub game_length: u64,
}

impl CommonState {
    /// Bounds that every operation preserves: the machine level stays in
    /// range, entropy never exceeds the machine's cap, the player name
    /// holds no comma, and the save clock stays below the machine limit.
    pub open spec fn wf(self) -> bool {
        &&& self.machine.wf()
        &&& self.entropy <= spec_entropy_cap(self.machine.level as int)
        &&& forall|i: int| 0 <= i < self.player_name@.len()
            ==> self.player_name@[i] != 44u8
        &&& self.last_prior_save <= TIME_MAX
        &&& self.game_length <= TIME_MAX
    }

    /// A blank session, before anything is created or loaded.
    pub fn empty() -> (s: CommonState)
        ensures
            s.wf(),
            s.player_name@ == Seq::<u8>::empty(),
            s.money == 0,
            s.entropy == 0,
            s.active_game == 0,
            s.current_bet == 0,
            s.button_clicked == ButtonAction::Idle,
            s.machine.level == 0,
            s.last_prior_save == 0,
            s.game_length == 0,
    {
        CommonState {
            player_name: Vec::new(),
            money: 0,
            entropy: 0,
            active_game: 0,
            current_bet: 0,
            button_clicked: ButtonAction::Idle,
            machine: Machine::new(0),
            last_prior_save: 0,
            game_length: 0,
        }
    }

    /// A fresh session for the named player: 240 currency units, 100 bits
    /// of entropy (exactly the level-zero cap), and a one-unit default bet.
    pub fn new(player_name: Vec<u8>) -> (s: CommonState)
        requires
            forall|i: int| 0 <= i < player_name@.len() ==> player_name@[i] != 44u8,
        ensures
            s.wf(),
            s.player_name == player_name,
            s.money == 240_000,
            s.entropy == 100_000,
            s.active_game == 0,
            s.current_bet == 1000,
            s.button_clicked == ButtonAction::Idle,
            s.machine.level == 0,
            s.last_prior_save == 0,
            s.game_length == 0,
    {
        CommonState {
            player_name,
            money: 240_000,
            entropy: 100_000,
            active_game: 0,
            current_bet: 1000,
            button_clicked: ButtonAction::Idle,
            machine: Machine::new(0),
            last_prior_save: 0,
            game_length: 0,
        }
    }

    /// Adds gained entropy to the player's balance, clamped to the
    /// machine's cap: the balance never exceeds the cap, however long the
    /// sequence of gains.
    pub fn add_entropy(&mut self, entropy_gained: u64)
        requires
            old(self).wf(),
        ensures
            final(self).wf(),
            final(self).entropy == spec_clamped_gain(
                old(self).entropy as int,
                entropy_gained as int,
                spec_entropy_cap(old(self).machine.level as int),
            ),
            *final(self) == (CommonState { entropy: final(self).entropy, ..*old(self) }),
    {
        let cap = self.machine.entropy_cap();
        if entropy_gained <= cap - self.entropy {
            self.entropy = self.entropy + entropy_gained;
        } else {
            self.entropy = cap;
        }
    }

    /// Spends entropy on a manipulation, rejecting the spend if the balance
    /// cannot cover it; the balance never goes negative.
    pub fn spend_entropy(&mut self, cost: u64) -> (r: Result<(), ValidationError>)
        requires
            old(self).wf(),
        ensures
            final(self).wf(),
            if old(self).entropy >= cost {
                &&& r is Ok
                &&& *final(self) == (CommonState {
                    entropy: (old(self).entropy - cost) as u64,
                    ..*old(self)
                })
            } else {
                &&& r == Result::<(), ValidationError>::Err(
                    ValidationError::InsufficientEntropy)
                &&& *final(self) == *old(self)
            },
    {
        if self.entropy >= cost {
            self.entropy = self.entropy - cost;
            Ok(())
        } else {
            Err(ValidationError::InsufficientEntropy)
        }
    }

    /// Invests money into the machine: every two whole currency units buy
    /// one level. Rejected unless at least one unit of money would remain,
    /// so the player can keep betting. Returns the number of levels gained.
    pub fn invest_in_machine(&mut self, invest: u64) -> (r: Result<u64, ValidationError>)
        requires
            old(self).wf(),
        ensures
            final(self).wf(),
            if old(self).money >= invest + 1000 {
                &&& r == Result::<u64, ValidationError>::Ok((invest / 2000) as u64)
                &&& final(self).money == old(self).money - (invest / 2000) * 2000
                &&& final(self).machine.level == (if old(self).machine.level
                    + invest / 2000 <= LEVEL_MAX {
                    old(self).machine.level + invest / 2000
                } else {
                    LEVEL_MAX as int
                })
                &&& final(self).entropy == old(self).entropy
                &&& final(self).player_name == old(self).player_name
                &&& final(self).active_game == old(self).active_game
                &&& final(self).current_bet == old(self).current_bet
                &&& final(self).button_clicked == old(self).button_clicked
                &&& final(self).last_prior_save == old(self).last_prior_save
                &&& final(self).game_length == old(self).game_length
            } else {
                &&& r == Result::<u64, ValidationError>::Err(
                    ValidationError::InsufficientFunds)
                &&& *final(self) == *old(self)
            },
    {
        if invest > u64::MAX - 1000 || self.money < invest + 1000 {
            return Err(ValidationError::InsufficientFunds);
        }
        let upgrade = invest / 2000;
        let expense = upgrade * 2000;
        proof {
            vstd::arithmetic::div_mod::lemma_fundamental_div_mod(
                invest as int, 2000);
            vstd::arithmetic::div_mod::lemma_mod_bound(invest as int, 2000);
        }
        self.money = self.money - expense;
        if upgrade <= LEVEL_MAX - self.machine.level {
            self.machine.level = self.machine.level + upgrade;
        } else {
            self.machine.level = LEVEL_MAX;
        }
        proof {
            crate::machine::lemma_entropy_cap_monotone(
                old(self).machine.level as int, self.machine.level as int);
        }
        Ok(upgrade)
    }

    /// Writes the session's persisted record: player name, money, entropy,
    /// machine level and elapsed game length, comma-separated. Tops up the
    /// game length with the time elapsed since the last save and remembers
    /// `now` as that save time.
    pub fn save_str(&mut self, now: u64) -> (out: Vec<u8>)
        requires
            old(self).wf(),
            old(self).last_prior_save <= now <= TIME_MAX,
            old(self).game_length + (now - old(self).last_prior_save) <= TIME_MAX,
        ensures
            final(self).wf(),
            final(self).game_length == old(self).game_length
                + (now - old(self).last_prior_save),
            *final(self) == (CommonState {
                game_length: final(self).game_length,
                last_prior_save: now,
                ..*old(self)
            }),
            out@ == crate::codec::spec_record(
                old(self).player_name@,
                old(self).money as int,
                old(self).entropy as int,
                old(self).machine.level as int,
                final(self).game_length as int,
            ),
    {
        self.game_length = self.game_length + (now - self.last_prior_save);
        self.last_prior_save = now;
        crate::codec::record_bytes(
            &self.player_name,
            self.money,
            self.entropy,
            self.machine.level,
            self.game_length,
        )
    }

    /// Loads the session from a persisted record, as of session time
    /// `now`. A malformed record, or one whose numbers lie outside the
    /// domain the session can hold, is rejected whole: the session is left
    /// exactly as it was.
    pub fn load_state(&mut self, data: &Vec<u8>, now: u64) -> (r: Result<(), ParseError>)
        requires
            old(self).wf(),
            now <= TIME_MAX,
        ensures
            final(self).wf(),
            match crate::codec::spec_parse_record(data@) {
                Some((name, money, entropy, level, length)) => {
                    if level <= LEVEL_MAX && entropy <= spec_entropy_cap(level)
                        && length <= TIME_MAX {
                        &&& r is Ok
                        &&& final(self).player_name@ == name
                        &&& final(self).money == money
                        &&& final(self).entropy == entropy
                        &&& final(self).machine.level == level
                        &&& final(self).game_length == length
                        &&& final(self).last_prior_save == now
                        &&& final(self).active_game == old(self).active_game
                        &&& final(self).current_bet == old(self).current_bet
                        &&& final(self).button_clicked == old(self).button_clicked
                    } else {
                        &&& r == Result::<(), ParseError>::Err(ParseError::OutOfRange)
                        &&& *final(self) == *old(self)
                    }
                },
                None => {
                    &&& r == Result::<(), ParseError>::Err(
                        if crate::codec::spec_split5(data@) is None {
                            ParseError::MissingField
                        } else {
                            ParseError::InvalidNumber
                        },
                    )
                    &&& *final(self) == *old(self)
                },
            },
    {
        let parsed = crate::codec::parse_record(data);
        match parsed {
            Ok((name, money, entropy, level, length)) => {
                if level > LEVEL_MAX {
                    return Err(ParseError::OutOfRange);
                }
                let machine = Machine::new(level);
                let cap = machine.entropy_cap();
                if entropy > cap || length > TIME_MAX {
                    return Err(ParseError::OutOfRange);
                }
                proof {
                    crate::codec::lemma_take_field_first_free(data@);
                }
                self.player_name = name;
                self.money = money;
                self.entropy = entropy;
                self.machine = machine;
                self.game_length = length;
                self.last_prior_save = now;
                Ok(())
            },
            Err(e) => Err(e),
        }
    }

    /// Whether the session is over: the player can no longer cover the
    /// active game's minimum bet.
    pub fn is_game_over(&self, bet_min: u64) -> (over: bool)
        ensures
            over == (self.money < bet_min),
    {
        self.money < bet_min
    }
}

/// One entropy gain, clamped at the cap.
pub open spec fn spec_clamped_gain(entropy: int, gain: int, cap: int) -> int {
    if entropy + gain <= cap {
        entropy + gain
    } else {
        cap
    }
}

/// A whole sequence of entropy gains, applied in order, each clamped at
/// the cap.
pub open spec fn spec_apply_gains(entropy: int, gains: Seq<int>, cap: int) -> int
    decreases gains.len(),
{
    if gains.len() == 0 {
        entropy
    } else {
        spec_apply_gains(spec_clamped_gain(entropy, gains[0], cap), gains.drop_first(), cap)
    }
}

/// No sequence of gains ever pushes entropy above the cap: starting at or
/// below the cap, every clamped gain lands at or below it again.
pub proof fn lemma_entropy_never_exceeds_cap(entropy: int, gains: Seq<int>, cap: int)
    requires
        entropy <= cap,
    ensures
        spec_apply_gains(entropy, gains, cap) <= cap,
    decreases gains.len(),
{
    if gains.len() > 0 {
        lemma_entropy_never_exceeds_cap(
            spec_clamped_gain(entropy, gains[0], cap), gains.drop_first(), cap);
    }
}

/// Saving a session and loading the saved record restores exactly the
/// persisted fields — player name, money, entropy, machine level and game
/// length — for every well-formed session.
pub proof fn lemma_save_load_roundtrip(s: CommonState)
    requires
        s.wf(),
    ensures
        crate::codec::spec_parse_record(crate::codec::spec_record(
            s.player_name@,
            s.money as int,
            s.entropy as int,
            s.machine.level as int,
            s.game_length as int,
        )) == Some((
            s.player_name@,
            s.money as int,
            s.entropy as int,
            s.machine.level as int,
            s.game_length as int,
        )),
{
    crate::codec::lemma_record_roundtrip(
        s.player_name@,
        s.money as int,
        s.entropy as int,
        s.machine.level as int,
        s.game_length as int,
    );
}

/// Which screen of the shell is showing.
pub enum GameState {
    MainMenu,
    SaveScreen,
    LoadScreen,
    GameScreen,
}

/// The button the player last clicked.
#[derive(Clone, Copy, Debug, PartialEq, Eq, Structural)]
pub enum ButtonAction {
    /// Placeholder: no button being clicked right now.
    Idle,
    /// Starts the bet; only one bet may run at a time.
    StartBet,
    /// Ends the bet, closing out the bet timer.
    EndBet,
    /// Buys out the kickout timer.
    Buyout,
}

} // verus!
