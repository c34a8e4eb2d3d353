//! The coin toss minigame: a bet on a weighted coin, with entropy spent to
//! re-flip or force the outcome, resolved through the shared suspicion and
//! payout engine.

use vstd::prelude::*;
use crate::common_state::CommonState;
use crate::errors::ValidationError;
use crate::game::{
    GameCommonData, BET_DURATION_MS, effective_payout, kickout_chance,
    spec_effective_payout,
};
use crate::machine::spec_entropy_cap;
use crate::rng_draw::draw_ratio;
use crate::TIME_MAX;

verus! {

/// The anticipation window between clicking "start bet" and the bet
/// opening: 3 seconds.
pub const START_BET_WINDOW_MS: u64 = 3_000;

/// The entropy cost of flipping the coin again during a bet: half a bit.
pub const REFLIP_COST: u64 = 500;

/// The entropy cost of forcing the coin onto a chosen side: one bit.
pub const SELECT_COST: u64 = 1_000;

/// The entropy gained from resolving a coin toss: one bit, the information
/// in the outcome of a fair binary draw.
pub const COIN_ENTROPY_GAIN: u64 = 1_000;

/// The states of a coin toss session.
#[derive(Clone, Copy, Debug, PartialEq, Eq, Structural)]
pub enum CoinTossState {
    /// No active bet; the player may set a bet or start one, and shows the
    /// result of the previous bet, if any.
    Hold,
    /// The start button was clicked: a short anticipation phase with no
    /// economic effect, skippable by a driver that does not render it.
    StartBet,
    /// The bet is live: money is committed, the timer runs, and the player
    /// may spend entropy to manipulate the result.
    InBet,
    /// The bet has been closed out; the payout is settled here and the
    /// game returns to hold.
    ClosingBet,
}

/// What a resolved bet did to the player.
#[derive(Clone, Copy, Debug, PartialEq, Eq, Structural)]
pub struct BetOutcome {
    /// Whether the coin came up heads: heads wins.
    pub won: bool,
    /// The amount credited to the player, in milli currency units; zero on
    /// a loss.
    pub payout: u64,
    /// Whether this bet triggered a kickout.
    pub kicked_out: bool,
}

/// What one advance of the coin toss state machine did.
#[derive(Clone, Copy, Debug, PartialEq, Eq, Structural)]
pub enum CoinTossEvent {
    /// Nothing was due at this time.
    Idle,
    /// The anticipation window elapsed and the bet opened: money
    /// committed, coin flipped, timer started.
    BetOpened,
    /// The bet could not open because the player cannot cover it; the game
    /// returned to hold with nothing changed economically.
    BetRejected,
    /// The bet timer ran out and the bet closed; it now awaits
    /// resolution.
    BetClosed,
    /// The closed bet was resolved and settled.
    Resolved(BetOutcome),
}

/// The face a rendered coin shows.
#[derive(Clone, Copy, Debug, PartialEq, Eq, Structural)]
pub enum CoinFace {
    Heads,
    FlippedHeads,
    FlippedTails,
    Tails,
}

/// The coin toss game: flipping a coin to win a bet.
#[derive(Debug)]
pub struct CoinToss {
    /// The chance of landing heads, in permille; heads wins.
    pub heads_chance: u64,
    /// The current result of the game.
    pub result: bool,
    /// The current state of the game.
    pub state: CoinTossState,
    /// When the current anticipation phase began, in milliseconds.
    pub phase_start: u64,
    /// The economic data shared with every other minigame.
    pub base: GameCommonData,
}

/// `min(a + b, u64::MAX)`: addition that sticks at the ledger's top.
pub open spec fn spec_sat_add(a: int, b: int) -> int {
    if a + b <= u64::MAX {
        a + b
    } else {
        u64::MAX as int
    }
}

/// Adds two amounts, sticking at the ledger's top instead of wrapping.
fn sat_add(a: u64, b: u64) -> (r: u64)
    ensures
        r == spec_sat_add(a as int, b as int),
{
    if a <= u64::MAX - b {
        a + b
    } else {
        u64::MAX
    }
}

impl CoinToss {
    /// Bounds that every operation preserves: the shared data is well
    /// formed, the heads chance is a real probability, the minimum bet is
    /// a whole number of currency units (so a floored bet never drops
    /// below it), and the phase clock stays below the machine limit.
    pub open spec fn wf(self) -> bool {
        &&& self.base.wf()
        &&& 1 <= self.heads_chance <= 1000
        &&& self.base.bet_min % 1000 == 0
        &&& self.phase_start <= TIME_MAX
    }

    /// A new coin toss game: a fair coin, a 1-to-100-unit bet range, a 2x
    /// base payout, and a 30-second kickout.
    pub fn new() -> (g: CoinToss)
        ensures
            g.wf(),
            g.heads_chance == 500,
            g.result == true,
            g.state == CoinTossState::Hold,
            g.phase_start == 0,
            g.base.bet_min == 1000,
            g.base.bet_max == 100_000,
            g.base.base_payout == 2000,
            g.base.current_bet == 1000,
            g.base.kickout_length_max == 30_000,
            g.base.bet_start is None,
            g.base.kickout_start_time is None,
            g.base.suspicion == 0,
            g.base.expected_wins == 0,
            g.base.real_wins == 0,
            g.base.expected_gains == 0,
            g.base.real_gains == 0,
    {
        let mut name: Vec<u8> = Vec::new();
        name.push(67);
        name.push(111);
        name.push(105);
        name.push(110);
        name.push(32);
        name.push(84);
        name.push(111);
        name.push(115);
        name.push(115);
        CoinToss {
            heads_chance: 500,
            result: true,
            state: CoinTossState::Hold,
            phase_start: 0,
            base: GameCommonData::new(name, 1000, 100_000, 2000, 30_000),
        }
    }

    /// The entropy gained by the player from a resolved toss, in
    /// millibits: always exactly one bit. There are only two outcomes and
    /// they are treated as equally likely, and the information in a fair
    /// binary draw is `-log2(1/2) == 1` bit.
    pub fn entropy_gained(&self) -> (gain: u64)
        ensures
            gain == COIN_ENTROPY_GAIN,
    {
        COIN_ENTROPY_GAIN
    }

    /// The time remaining in the coin toss bet, in milliseconds; zero when
    /// no bet is active or the 30-second bet duration has run out.
    pub fn bet_time_remaining(&self, now: u64) -> (rem: u64)
        requires
            self.wf(),
        ensures
            rem == (match self.base.bet_start {
                Some(t) => if now < t + BET_DURATION_MS {
                    t + BET_DURATION_MS - now
                } else {
                    0
                },
                None => 0,
            }),
    {
        match self.base.bet_time_remaining(BET_DURATION_MS, now) {
            Some(rem) => rem,
            None => 0,
        }
    }

    /// Whether an active bet has run out its 30-second timer.
    pub fn bet_expired(&self, now: u64) -> (expired: bool)
        requires
            self.wf(),
        ensures
            expired == (match self.base.bet_start {
                Some(t) => now >= t + BET_DURATION_MS,
                None => false,
            }),
    {
        match self.base.bet_time_remaining(BET_DURATION_MS, now) {
            Some(_) => false,
            None => self.base.bet_start.is_some(),
        }
    }

    /// Flips the coin according to the heads chance: an independent
    /// weighted draw. A certain coin always lands heads; an impossible
    /// one never does.
    pub fn flip(&self) -> (heads: bool)
        requires
            self.wf(),
        ensures
            self.heads_chance == 1000 ==> heads,
    {
        draw_ratio(self.heads_chance as u32, 1000)
    }

    /// Commits a flip and starts the bet timer at `now`: the opening move
    /// of a bet. Returns the flipped result.
    pub fn bet(&mut self, now: u64) -> (heads: bool)
        requires
            old(self).wf(),
            now <= TIME_MAX,
        ensures
            final(self).wf(),
            *final(self) == (CoinToss {
                result: heads,
                base: GameCommonData { bet_start: Some(now), ..old(self).base },
                ..*old(self)
            }),
            old(self).heads_chance == 1000 ==> heads,
    {
        self.result = self.flip();
        self.base.bet_start = Some(now);
        self.result
    }

    /// Locks in a bet while holding: the amount must lie within the
    /// game's bounds and within the player's money, and is floored to a
    /// whole number of currency units. Rejected without change otherwise.
    pub fn place_bet(&mut self, money: u64, amount: u64) -> (r: Result<(), ValidationError>)
        requires
            old(self).wf(),
        ensures
            final(self).wf(),
            if old(self).state != CoinTossState::Hold {
                &&& r == Result::<(), ValidationError>::Err(ValidationError::WrongState)
                &&& *final(self) == *old(self)
            } else if amount < old(self).base.bet_min || amount > old(self).base.bet_max {
                &&& r == Result::<(), ValidationError>::Err(ValidationError::BetOutOfBounds)
                &&& *final(self) == *old(self)
            } else if amount > money {
                &&& r == Result::<(), ValidationError>::Err(ValidationError::InsufficientFunds)
                &&& *final(self) == *old(self)
            } else {
                &&& r is Ok
                &&& *final(self) == (CoinToss {
                    base: GameCommonData {
                        current_bet: (amount - amount % 1000) as u64,
                        ..old(self).base
                    },
                    ..*old(self)
                })
            },
    {
        if !matches!(self.state, CoinTossState::Hold) {
            return Err(ValidationError::WrongState);
        }
        if amount < self.base.bet_min || amount > self.base.bet_max {
            return Err(ValidationError::BetOutOfBounds);
        }
        if amount > money {
            return Err(ValidationError::InsufficientFunds);
        }
        let floored = amount - amount % 1000;
        proof {
            let a = amount as int;
            let bmin = self.base.bet_min as int;
            vstd::arithmetic::div_mod::lemma_fundamental_div_mod(a, 1000);
            vstd::arithmetic::div_mod::lemma_fundamental_div_mod(bmin, 1000);
            vstd::arithmetic::div_mod::lemma_div_is_ordered(bmin, a, 1000);
            vstd::arithmetic::mul::lemma_mul_inequality(bmin / 1000, a / 1000, 1000);
            assert(a - a % 1000 == 1000 * (a / 1000));
            assert(bmin == 1000 * (bmin / 1000));
            vstd::arithmetic::mul::lemma_mul_is_commutative(bmin / 1000, 1000);
            vstd::arithmetic::mul::lemma_mul_is_commutative(a / 1000, 1000);
            vstd::arithmetic::div_mod::lemma_mod_bound(a, 1000);
        }
        self.base.current_bet = floored;
        Ok(())
    }

    /// Starts a bet from hold: enters the anticipation phase as of `now`.
    /// Rejected while the player is kicked out of the game, or outside
    /// hold.
    pub fn start_bet(&mut self, now: u64) -> (r: Result<(), ValidationError>)
        requires
            old(self).wf(),
            now <= TIME_MAX,
        ensures
            final(self).wf(),
            if old(self).state != CoinTossState::Hold {
                &&& r == Result::<(), ValidationError>::Err(ValidationError::WrongState)
                &&& *final(self) == *old(self)
            } else if old(self).base.kickout_start_time is Some {
                &&& r == Result::<(), ValidationError>::Err(ValidationError::LockedOut)
                &&& *final(self) == *old(self)
            } else {
                &&& r is Ok
                &&& *final(self) == (CoinToss {
                    state: CoinTossState::StartBet,
                    phase_start: now,
                    ..*old(self)
                })
            },
    {
        if !matches!(self.state, CoinTossState::Hold) {
            return Err(ValidationError::WrongState);
        }
        if self.base.kickout_start_time.is_some() {
            return Err(ValidationError::LockedOut);
        }
        self.state = CoinTossState::StartBet;
        self.phase_start = now;
        Ok(())
    }

    /// Whether the anticipation window has elapsed, so the bet proper may
    /// open.
    pub fn start_window_elapsed(&self, now: u64) -> (elapsed: bool)
        requires
            self.wf(),
        ensures
            elapsed == (now >= self.phase_start + START_BET_WINDOW_MS),
    {
        now >= self.phase_start + START_BET_WINDOW_MS
    }

    /// Opens the bet: debits the locked-in bet from the player's money,
    /// commits the coin flip, starts the 30-second bet timer at `now`, and
    /// grants the toss's entropy to the player, clamped at the machine's
    /// cap. Rejected without change when the player cannot cover the bet,
    /// or outside the anticipation phase.
    pub fn begin_bet(&mut self, econ: &mut CommonState, now: u64) -> (r: Result<
        bool,
        ValidationError,
    >)
        requires
            old(self).wf(),
            old(econ).wf(),
            now <= TIME_MAX,
        ensures
            final(self).wf(),
            final(econ).wf(),
            if old(self).state != CoinTossState::StartBet {
                &&& r == Result::<bool, ValidationError>::Err(ValidationError::WrongState)
                &&& *final(self) == *old(self)
                &&& *final(econ) == *old(econ)
            } else if old(self).base.current_bet > old(econ).money {
                &&& r == Result::<bool, ValidationError>::Err(
                    ValidationError::InsufficientFunds)
                &&& *final(self) == *old(self)
                &&& *final(econ) == *old(econ)
            } else {
                &&& r matches Ok(heads) && heads == final(self).result
                &&& *final(self) == (CoinToss {
                    result: final(self).result,
                    state: CoinTossState::InBet,
                    base: GameCommonData { bet_start: Some(now), ..old(self).base },
                    ..*old(self)
                })
                &&& final(econ).money == old(econ).money - old(self).base.current_bet
                &&& final(econ).entropy == (if old(econ).entropy + COIN_ENTROPY_GAIN
                    <= spec_entropy_cap(old(econ).machine.level as int) {
                    old(econ).entropy + COIN_ENTROPY_GAIN
                } else {
                    spec_entropy_cap(old(econ).machine.level as int)
                })
                &&& *final(econ) == (CommonState {
                    money: final(econ).money,
                    entropy: final(econ).entropy,
                    ..*old(econ)
                })
                &&& (old(self).heads_chance == 1000 ==> final(self).result)
            },
    {
        if !matches!(self.state, CoinTossState::StartBet) {
            return Err(ValidationError::WrongState);
        }
        if self.base.current_bet > econ.money {
            return Err(ValidationError::InsufficientFunds);
        }
        econ.money = econ.money - self.base.current_bet;
        self.state = CoinTossState::InBet;
        let heads = self.bet(now);
        let gain = self.entropy_gained();
        econ.add_entropy(gain);
        Ok(heads)
    }

    /// Flips the coin again mid-bet, for half a bit of entropy: a fresh
    /// independent draw overwrites the result, win or lose. Rejected
    /// without change when entropy cannot cover it, or outside a live
    /// bet.
    pub fn reflip(&mut self, econ: &mut CommonState) -> (r: Result<bool, ValidationError>)
        requires
            old(self).wf(),
            old(econ).wf(),
        ensures
            final(self).wf(),
            final(econ).wf(),
            if old(self).state != CoinTossState::InBet {
                &&& r == Result::<bool, ValidationError>::Err(ValidationError::WrongState)
                &&& *final(self) == *old(self)
                &&& *final(econ) == *old(econ)
            } else if old(econ).entropy < REFLIP_COST {
                &&& r == Result::<bool, ValidationError>::Err(
                    ValidationError::InsufficientEntropy)
                &&& *final(self) == *old(self)
                &&& *final(econ) == *old(econ)
            } else {
                &&& r matches Ok(heads) && heads == final(self).result
                &&& *final(self) == (CoinToss { result: final(self).result, ..*old(self) })
                &&& *final(econ) == (CommonState {
                    entropy: (old(econ).entropy - REFLIP_COST) as u64,
                    ..*old(econ)
                })
                &&& (old(self).heads_chance == 1000 ==> final(self).result)
            },
    {
        if !matches!(self.state, CoinTossState::InBet) {
            return Err(ValidationError::WrongState);
        }
        match econ.spend_entropy(REFLIP_COST) {
            Ok(_) => {},
            Err(e) => {
                return Err(e);
            },
        }
        let heads = self.flip();
        self.result = heads;
        Ok(heads)
    }

    /// Forces the coin onto the chosen side mid-bet, for one bit of
    /// entropy: heads for `true`, tails for `false`. Rejected without
    /// change when entropy cannot cover it, or outside a live bet.
    pub fn select_side(&mut self, econ: &mut CommonState, heads: bool) -> (r: Result<
        (),
        ValidationError,
    >)
        requires
            old(self).wf(),
            old(econ).wf(),
        ensures
            final(self).wf(),
            final(econ).wf(),
            if old(self).state != CoinTossState::InBet {
                &&& r == Result::<(), ValidationError>::Err(ValidationError::WrongState)
                &&& *final(self) == *old(self)
                &&& *final(econ) == *old(econ)
            } else if old(econ).entropy < SELECT_COST {
                &&& r == Result::<(), ValidationError>::Err(
                    ValidationError::InsufficientEntropy)
                &&& *final(self) == *old(self)
                &&& *final(econ) == *old(econ)
            } else {
                &&& r is Ok
                &&& *final(self) == (CoinToss { result: heads, ..*old(self) })
                &&& *final(econ) == (CommonState {
                    entropy: (old(econ).entropy - SELECT_COST) as u64,
                    ..*old(econ)
                })
            },
    {
        if !matches!(self.state, CoinTossState::InBet) {
            return Err(ValidationError::WrongState);
        }
        match econ.spend_entropy(SELECT_COST) {
            Ok(_) => {},
            Err(e) => {
                return Err(e);
            },
        }
        self.result = heads;
        Ok(())
    }

    /// Closes a live bet: the result is frozen and the bet awaits
    /// settlement. Taken when the player ends the bet early or its timer
    /// runs out.
    pub fn close_bet(&mut self) -> (r: Result<(), ValidationError>)
        requires
            old(self).wf(),
        ensures
            final(self).wf(),
            if old(self).state != CoinTossState::InBet {
                &&& r == Result::<(), ValidationError>::Err(ValidationError::WrongState)
                &&& *final(self) == *old(self)
            } else {
                &&& r is Ok
                &&& *final(self) == (CoinToss {
                    state: CoinTossState::ClosingBet,
                    ..*old(self)
                })
            },
    {
        if !matches!(self.state, CoinTossState::InBet) {
            return Err(ValidationError::WrongState);
        }
        self.state = CoinTossState::ClosingBet;
        Ok(())
    }

    /// The amount a winning resolution would credit right now: the base
    /// payout degraded by the suspicion brackets, applied to the locked-in
    /// bet.
    pub fn winning_payout(&self) -> (amount: u64)
        requires
            self.wf(),
        ensures
            amount == spec_effective_payout(
                self.base.base_payout as int,
                self.base.suspicion as int,
            ) * self.base.current_bet / 1000,
            amount <= 1_000_000_000_000_000,
    {
        let rate = effective_payout(self.base.base_payout, self.base.suspicion);
        proof {
            vstd::arithmetic::mul::lemma_mul_inequality(
                rate as int, 1_000_000, self.base.current_bet as int);
            vstd::arithmetic::mul::lemma_mul_is_commutative(
                rate as int, self.base.current_bet as int);
            vstd::arithmetic::mul::lemma_mul_inequality(
                self.base.current_bet as int, 1_000_000_000_000, 1_000_000);
            vstd::arithmetic::mul::lemma_mul_is_commutative(
                self.base.current_bet as int, 1_000_000);
            vstd::arithmetic::mul::lemma_mul_nonnegative(
                rate as int, self.base.current_bet as int);
            vstd::arithmetic::div_mod::lemma_div_is_ordered(
                rate as int * self.base.current_bet as int,
                1_000_000int * 1_000_000_000_000,
                1000);
        }
        rate * self.base.current_bet / 1000
    }

    /// Settles a closed bet as of `now`: on heads, credits the
    /// suspicion-degraded payout; updates the running win and gain
    /// tallies; clears the bet timer; draws the suspicion bracket's
    /// kickout risk, locking the game from `now` if it fires; and returns
    /// to hold. At full suspicion the kickout is certain; below the top
    /// bracket it never fires.
    pub fn resolve_bet(&mut self, econ: &mut CommonState, now: u64) -> (r: Result<
        BetOutcome,
        ValidationError,
    >)
        requires
            old(self).wf(),
            old(econ).wf(),
            now <= TIME_MAX,
        ensures
            final(self).wf(),
            final(econ).wf(),
            if old(self).state != CoinTossState::ClosingBet {
                &&& r == Result::<BetOutcome, ValidationError>::Err(
                    ValidationError::WrongState)
                &&& *final(self) == *old(self)
                &&& *final(econ) == *old(econ)
            } else {
                let gross = spec_effective_payout(
                    old(self).base.base_payout as int,
                    old(self).base.suspicion as int,
                ) * old(self).base.current_bet / 1000;
                let payout: int = if old(self).result {
                    gross
                } else {
                    0
                };
                &&& r matches Ok(outcome)
                &&& outcome.won == old(self).result
                &&& outcome.payout == payout
                &&& final(econ).money == spec_sat_add(old(econ).money as int, payout)
                &&& *final(econ) == (CommonState {
                    money: final(econ).money,
                    ..*old(econ)
                })
                &&& final(self).state == CoinTossState::Hold
                &&& final(self).base.bet_start is None
                &&& final(self).base.real_gains == spec_sat_add(
                    old(self).base.real_gains as int, payout)
                &&& final(self).base.expected_gains == spec_sat_add(
                    old(self).base.expected_gains as int,
                    old(self).heads_chance * gross / 1000)
                &&& final(self).base.real_wins == spec_sat_add(
                    old(self).base.real_wins as int,
                    if old(self).result { 1000 as int } else { 0 })
                &&& final(self).base.expected_wins == spec_sat_add(
                    old(self).base.expected_wins as int, old(self).heads_chance as int)
                &&& (outcome.kicked_out ==> final(self).base.kickout_start_time
                    == Some(now))
                &&& (!outcome.kicked_out ==> final(self).base.kickout_start_time
                    == old(self).base.kickout_start_time
                    && final(self).base.kickout_remaining
                    == old(self).base.kickout_remaining)
                &&& (old(self).base.suspicion == 1000 ==> outcome.kicked_out)
                &&& (old(self).base.suspicion < 750 ==> !outcome.kicked_out)
                &&& *final(self) == (CoinToss {
                    state: CoinTossState::Hold,
                    base: GameCommonData {
                        bet_start: None,
                        real_gains: final(self).base.real_gains,
                        expected_gains: final(self).base.expected_gains,
                        real_wins: final(self).base.real_wins,
                        expected_wins: final(self).base.expected_wins,
                        kickout_start_time: final(self).base.kickout_start_time,
                        kickout_remaining: final(self).base.kickout_remaining,
                        ..old(self).base
                    },
                    ..*old(self)
                })
            },
    {
        if !matches!(self.state, CoinTossState::ClosingBet) {
            return Err(ValidationError::WrongState);
        }
        let gross = self.winning_payout();
        let payout: u64 = if self.result {
            gross
        } else {
            0
        };
        econ.money = sat_add(econ.money, payout);
        proof {
            vstd::arithmetic::mul::lemma_mul_inequality(
                self.heads_chance as int, 1000, gross as int);
            vstd::arithmetic::mul::lemma_mul_is_commutative(
                self.heads_chance as int, gross as int);
            vstd::arithmetic::mul::lemma_mul_nonnegative(
                self.heads_chance as int, gross as int);
        }
        let expected_gain = self.heads_chance * gross / 1000;
        self.base.real_gains = sat_add(self.base.real_gains, payout);
        self.base.expected_gains = sat_add(self.base.expected_gains, expected_gain);
        self.base.real_wins = sat_add(self.base.real_wins, if self.result { 1000 } else { 0 });
        self.base.expected_wins = sat_add(self.base.expected_wins, self.heads_chance);
        self.base.bet_start = None;
        let chance = kickout_chance(self.base.suspicion);
        let kicked = if chance == 0 {
            false
        } else {
            draw_ratio(chance as u32, 1000)
        };
        if kicked {
            self.base.start_kickout(now);
        }
        self.state = CoinTossState::Hold;
        Ok(BetOutcome { won: self.result, payout, kicked_out: kicked })
    }

    /// Advances whatever is due at time `now`: opens a bet whose
    /// anticipation window has elapsed (returning to hold if the player
    /// can no longer cover it), closes a bet whose timer has run out, and
    /// settles a closed bet. Player commands and the kickout timer are
    /// driven separately.
    pub fn game_loop(&mut self, econ: &mut CommonState, now: u64) -> (event: CoinTossEvent)
        requires
            old(self).wf(),
            old(econ).wf(),
            now <= TIME_MAX,
        ensures
            final(self).wf(),
            final(econ).wf(),
            match old(self).state {
                CoinTossState::Hold => {
                    &&& event == CoinTossEvent::Idle
                    &&& *final(self) == *old(self)
                    &&& *final(econ) == *old(econ)
                },
                CoinTossState::StartBet => {
                    if now < old(self).phase_start + START_BET_WINDOW_MS {
                        &&& event == CoinTossEvent::Idle
                        &&& *final(self) == *old(self)
                        &&& *final(econ) == *old(econ)
                    } else if old(self).base.current_bet > old(econ).money {
                        &&& event == CoinTossEvent::BetRejected
                        &&& *final(self) == (CoinToss {
                            state: CoinTossState::Hold,
                            ..*old(self)
                        })
                        &&& *final(econ) == *old(econ)
                    } else {
                        &&& event == CoinTossEvent::BetOpened
                        &&& final(self).state == CoinTossState::InBet
                        &&& final(self).base.bet_start == Some(now)
                        &&& *final(self) == (CoinToss {
                            result: final(self).result,
                            state: CoinTossState::InBet,
                            base: GameCommonData {
                                bet_start: Some(now),
                                ..old(self).base
                            },
                            ..*old(self)
                        })
                        &&& final(econ).money == old(econ).money
                            - old(self).base.current_bet
                        &&& final(econ).entropy == (if old(econ).entropy
                            + COIN_ENTROPY_GAIN
                            <= spec_entropy_cap(old(econ).machine.level as int) {
                            old(econ).entropy + COIN_ENTROPY_GAIN
                        } else {
                            spec_entropy_cap(old(econ).machine.level as int)
                        })
                        &&& *final(econ) == (CommonState {
                            money: final(econ).money,
                            entropy: final(econ).entropy,
                            ..*old(econ)
                        })
                    }
                },
                CoinTossState::InBet => {
                    let expired = match old(self).base.bet_start {
                        Some(t) => now >= t + BET_DURATION_MS,
                        None => false,
                    };
                    if expired {
                        &&& event == CoinTossEvent::BetClosed
                        &&& *final(self) == (CoinToss {
                            state: CoinTossState::ClosingBet,
                            ..*old(self)
                        })
                        &&& *final(econ) == *old(econ)
                    } else {
                        &&& event == CoinTossEvent::Idle
                        &&& *final(self) == *old(self)
                        &&& *final(econ) == *old(econ)
                    }
                },
                CoinTossState::ClosingBet => {
                    let gross = spec_effective_payout(
                        old(self).base.base_payout as int,
                        old(self).base.suspicion as int,
                    ) * old(self).base.current_bet / 1000;
                    let payout: int = if old(self).result {
                        gross
                    } else {
                        0
                    };
                    &&& event matches CoinTossEvent::Resolved(outcome)
                    &&& outcome.won == old(self).result
                    &&& outcome.payout == payout
                    &&& final(econ).money == spec_sat_add(old(econ).money as int, payout)
                    &&& *final(econ) == (CommonState {
                        money: final(econ).money,
                        ..*old(econ)
                    })
                    &&& final(self).state == CoinTossState::Hold
                    &&& final(self).base.bet_start is None
                    &&& (old(self).base.suspicion == 1000 ==> outcome.kicked_out)
                    &&& (old(self).base.suspicion < 750 ==> !outcome.kicked_out)
                    &&& (outcome.kicked_out ==> final(self).base.kickout_start_time
                        == Some(now))
                },
            },
    {
        match self.state {
            CoinTossState::Hold => CoinTossEvent::Idle,
            CoinTossState::StartBet => {
                if !self.start_window_elapsed(now) {
                    return CoinTossEvent::Idle;
                }
                match self.begin_bet(econ, now) {
                    Ok(_) => CoinTossEvent::BetOpened,
                    Err(_) => {
                        self.state = CoinTossState::Hold;
                        CoinTossEvent::BetRejected
                    },
                }
            },
            CoinTossState::InBet => {
                if self.bet_expired(now) {
                    match self.close_bet() {
                        Ok(_) => CoinTossEvent::BetClosed,
                        Err(_) => CoinTossEvent::Idle,
                    }
                } else {
                    CoinTossEvent::Idle
                }
            },
            CoinTossState::ClosingBet => {
                match self.resolve_bet(econ, now) {
                    Ok(outcome) => CoinTossEvent::Resolved(outcome),
                    Err(_) => CoinTossEvent::Idle,
                }
            },
        }
    }
}

/// Which face of the coin to show at time `now` of an animation that
/// began at `start`: a forced side shows that side; otherwise the coin
/// cycles through a six-step flip loop in quarter-second steps.
pub fn flip_coin(start: u64, now: u64, select: Option<bool>) -> (face: CoinFace)
    requires
        start <= now,
    ensures
        match select {
            Some(side) => face == (if side {
                CoinFace::Heads
            } else {
                CoinFace::Tails
            }),
            None => {
                let step = ((now - start) / 250) % 6;
                face == (if step == 0 {
                    CoinFace::Heads
                } else if step == 1 || step == 5 {
                    CoinFace::FlippedHeads
                } else if step == 2 || step == 4 {
                    CoinFace::FlippedTails
                } else {
                    CoinFace::Tails
                })
            },
        },
{
    if let Some(side) = select {
        if side {
            return CoinFace::Heads;
        } else {
            return CoinFace::Tails;
        }
    }
    let step = ((now - start) / 250) % 6;
    if step == 0 {
        CoinFace::Heads
    } else if step == 1 || step == 5 {
        CoinFace::FlippedHeads
    } else if step == 2 || step == 4 {
        CoinFace::FlippedTails
    } else {
        CoinFace::Tails
    }
}

} // verus!
