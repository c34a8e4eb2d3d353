//! The data common to every minigame, and the suspicion/kickout engine over
//! it: bet bounds, payout rate, suspicion level, running win/gain tallies,
//! the kickout timer and its buyout price.
//!
//! Money amounts are thousandths of the currency unit, payout rates are
//! permille multipliers (2000 means a 2x payout), suspicion is permille of
//! full suspicion, and times are milliseconds.

use vstd::prelude::*;
use crate::{DURATION_MAX, TIME_MAX};

verus! {

/// The de facto bet duration: 30 seconds.
pub const BET_DURATION_MS: u64 = 30_000;

/// The payout multiplier, in permille, below which suspicion never pushes a
/// payout: the 1.1x floor.
pub const PAYOUT_FLOOR: u64 = 1100;

/// The base payout reduction, in permille, applied once, twice or four times
/// over as suspicion rises through its brackets.
pub const PAYOUT_REDUCTION: u64 = 500;

/// Largest permille payout rate a game may be created with; keeps payout
/// arithmetic comfortably inside `u64`.
pub const PAYOUT_RATE_MAX: u64 = 1_000_000;

/// Largest bet bound a game may be created with, in milli currency units.
pub const BET_BOUND_MAX: u64 = 1_000_000_000_000;

/// Largest buyout factor a game may be created with, in permille.
pub const BUYOUT_FACTOR_MAX: u64 = 1_000_000_000;

/// The data common to all games: betting bounds, the active bet, performance
/// tallies, suspicion, and the kickout timer with its buyout price.
#[derive(Debug)]
pub struct GameCommonData {
    /// The name of the game.
    pub name: Vec<u8>,
    /// The minimum bet needed to play the game, in milli currency units.
    pub bet_min: u64,
    /// The maximum bet that can be used; must be greater than `bet_min`.
    pub bet_max: u64,
    /// The payout rate of the game, in permille: a winning bet is multiplied
    /// by this rate after the suspicion brackets have degraded it.
    pub base_payout: u64,
    /// The current bet locked in, within `[bet_min, bet_max]`.
    pub current_bet: u64,
    /// The start time of the current active bet; `None` when no bet is
    /// active.
    pub bet_start: Option<u64>,
    /// The win rate expected by the game so far, in milli wins.
    pub expected_wins: u64,
    /// The win rate the player has actually achieved, in milli wins.
    pub real_wins: u64,
    /// The gains expected by the game so far, in milli currency units.
    pub expected_gains: u64,
    /// The gains the player has actually achieved, in milli currency units.
    pub real_gains: u64,
    /// The current suspicion level of the opponents, in permille of full
    /// suspicion. The higher it is, the lower the returns on bets, and past
    /// three quarters each bet risks a kickout.
    pub suspicion: u64,
    /// How long a kickout lasts at most, in milliseconds.
    pub kickout_length_max: u64,
    /// How much time is left of the current kickout; updated by
    /// [`GameCommonData::kickout_update`].
    pub kickout_remaining: u64,
    /// The time the player was kicked out of the game; `None` when the
    /// player is not locked out.
    pub kickout_start_time: Option<u64>,
    /// Scales the buyout price, in permille, on the gap between real and
    /// expected gains.
    pub buyout_factor: u64,
    /// The current kickout buyout price, in milli currency units; updated by
    /// [`GameCommonData::kickout_update`].
    pub current_kickout_buyout: u64,
}

impl GameCommonData {
    /// Bounds that every operation preserves: the bet bounds are ordered and
    /// the current bet lies between them, suspicion stays in `[0, 1]`, the
    /// payout rate stays between the floor and the rate bound, timers stay
    /// below the machine limits, and the remaining kickout time never
    /// exceeds the kickout length.
    pub open spec fn wf(self) -> bool {
        &&& self.bet_min < self.bet_max
        &&& self.bet_max <= BET_BOUND_MAX
        &&& self.bet_min <= self.current_bet <= self.bet_max
        &&& PAYOUT_FLOOR <= self.base_payout <= PAYOUT_RATE_MAX
        &&& self.suspicion <= 1000
        &&& 0 < self.kickout_length_max <= DURATION_MAX
        &&& self.kickout_remaining <= self.kickout_length_max
        &&& self.buyout_factor <= BUYOUT_FACTOR_MAX
        &&& (self.kickout_start_time matches Some(t) ==> t <= TIME_MAX)
        &&& (self.bet_start matches Some(t) ==> t <= TIME_MAX)
    }

    /// Skips over the obviously empty parts at the start of a game.
    pub fn new(
        name: Vec<u8>,
        bet_min: u64,
        bet_max: u64,
        base_payout: u64,
        timeout_length_max: u64,
    ) -> (g: GameCommonData)
        requires
            bet_min < bet_max <= BET_BOUND_MAX,
            PAYOUT_FLOOR <= base_payout <= PAYOUT_RATE_MAX,
            0 < timeout_length_max <= DURATION_MAX,
        ensures
            g.wf(),
            g.name == name,
            g.bet_min == bet_min,
            g.bet_max == bet_max,
            g.base_payout == base_payout,
            g.current_bet == bet_min,
            g.bet_start is None,
            g.expected_wins == 0,
            g.real_wins == 0,
            g.expected_gains == 0,
            g.real_gains == 0,
            g.suspicion == 0,
            g.kickout_length_max == timeout_length_max,
            g.kickout_remaining == 0,
            g.kickout_start_time is None,
            g.buyout_factor == 0,
            g.current_kickout_buyout == 0,
    {
        GameCommonData {
            name,
            bet_min,
            bet_max,
            base_payout,
            current_bet: bet_min,
            bet_start: None,
            expected_wins: 0,
            real_wins: 0,
            expected_gains: 0,
            real_gains: 0,
            suspicion: 0,
            kickout_length_max: timeout_length_max,
            kickout_remaining: 0,
            kickout_start_time: None,
            buyout_factor: 0,
            current_kickout_buyout: 0,
        }
    }

    /// The time remaining of a kickout at time `now`: zero when the player
    /// is not locked out or the kickout has expired.
    pub open spec fn spec_kickout_remaining(self, now: int) -> int {
        match self.kickout_start_time {
            Some(t) => {
                let end = t + self.kickout_length_max;
                if now < end {
                    end - now
                } else {
                    0
                }
            },
            None => 0,
        }
    }

    /// How much time is left until the kickout ends, in milliseconds; zero
    /// when not locked out or already past the end.
    pub fn kickout_time_remaining(&self, now: u64) -> (rem: u64)
        requires
            self.wf(),
            now <= TIME_MAX,
        ensures
            rem == self.spec_kickout_remaining(now as int),
    {
        if let Some(start) = self.kickout_start_time {
            let end = start + self.kickout_length_max;
            if now < end {
                end - now
            } else {
                0
            }
        } else {
            0
        }
    }

    /// When the kickout will end; `None` when not currently kicked out.
    pub fn kickout_end_time(&self) -> (end: Option<u64>)
        requires
            self.wf(),
        ensures
            match self.kickout_start_time {
                Some(t) => end == Some((t + self.kickout_length_max) as u64),
                None => end is None,
            },
    {
        if let Some(start) = self.kickout_start_time {
            Some(start + self.kickout_length_max)
        } else {
            None
        }
    }

    /// The 5-unit time granularity factor of the buyout price: the ceiling
    /// of `remaining / length / 5`.
    pub open spec fn spec_time_factor(rem: int, length: int) -> int {
        (rem + 5 * length - 1) / (5 * length)
    }

    /// The buyout price for given tallies and timer position: the doubled
    /// gap between real and expected gains, scaled by the buyout factor and
    /// the time granularity factor, clamped so that a player who gained no
    /// more than expected owes nothing.
    pub open spec fn spec_buyout(
        factor: int,
        real_gains: int,
        expected_gains: int,
        rem: int,
        length: int,
    ) -> int {
        if real_gains <= expected_gains {
            0
        } else {
            let raw = factor * (real_gains - expected_gains) * 2 / 1000
                * Self::spec_time_factor(rem, length);
            if raw > u64::MAX {
                u64::MAX as int
            } else {
                raw
            }
        }
    }

    /// The current buyout for the game while it is locked out: the gap
    /// between real and expected gains, doubled, multiplied by the buyout
    /// factor, and rounded up to 5-time-unit increments of the remaining
    /// kickout time. A player who gained no more than expected owes
    /// nothing.
    pub fn calculate_buyout(&self, now: u64) -> (price: u64)
        requires
            self.wf(),
            now <= TIME_MAX,
            self.kickout_start_time matches Some(t) ==> t <= now,
        ensures
            price == Self::spec_buyout(
                self.buyout_factor as int,
                self.real_gains as int,
                self.expected_gains as int,
                self.spec_kickout_remaining(now as int),
                self.kickout_length_max as int,
            ),
    {
        let rem = self.kickout_time_remaining(now);
        if self.real_gains <= self.expected_gains {
            0
        } else {
            let diff = (self.real_gains - self.expected_gains) as u128;
            let factor = self.buyout_factor as u128;
            let span = 5 * (self.kickout_length_max as u128);
            let time_factor = ((rem as u128) + span - 1) / span;
            proof {
                let f = self.buyout_factor as int;
                let d = self.real_gains - self.expected_gains;
                assert(0 <= f * d <= BUYOUT_FACTOR_MAX * (u64::MAX as int))
                    by (nonlinear_arith)
                    requires
                        0 <= f <= BUYOUT_FACTOR_MAX,
                        0 <= d <= u64::MAX,
                {}
            }
            let prod = factor * diff * 2;
            let quot = prod / 1000;
            proof {
                let rems = self.spec_kickout_remaining(now as int);
                let len = self.kickout_length_max as int;
                let tf = Self::spec_time_factor(rems, len);
                assert(0 <= tf <= 1) by (nonlinear_arith)
                    requires
                        tf == (rems + 5 * len - 1) / (5 * len),
                        0 <= rems <= len,
                        0 < len,
                {}
                assert(0 <= (quot as int) * tf <= quot as int) by (nonlinear_arith)
                    requires
                        0 <= tf <= 1,
                        0 <= quot as int,
                {}
            }
            let raw = quot * time_factor;
            if raw > u64::MAX as u128 {
                u64::MAX
            } else {
                raw as u64
            }
        }
    }

    /// Checks whether the player is still kicked out at time `now`.
    ///
    /// Not kicked out: returns `false` and changes nothing. Kicked out but
    /// past the end time: clears the kickout start, zeroes the remaining
    /// time and the buyout price, and returns `false`. Kicked out before
    /// the end time: refreshes the remaining time and the buyout price
    /// against `now` and returns `true`.
    ///
    /// Each call recomputes against the latest `now`, so it should run once
    /// per logical update tick.
    pub fn kickout_update(&mut self, now: u64) -> (locked: bool)
        requires
            old(self).wf(),
            now <= TIME_MAX,
            old(self).kickout_start_time matches Some(t) ==> t <= now,
        ensures
            final(self).wf(),
            match old(self).kickout_start_time {
                None => {
                    &&& !locked
                    &&& *final(self) == *old(self)
                },
                Some(t) => {
                    if now >= t + old(self).kickout_length_max {
                        &&& !locked
                        &&& *final(self) == GameCommonData {
                            kickout_start_time: None,
                            kickout_remaining: 0,
                            current_kickout_buyout: 0,
                            ..*old(self)
                        }
                    } else {
                        &&& locked
                        &&& *final(self) == GameCommonData {
                            kickout_remaining: (t + old(self).kickout_length_max
                                - now) as u64,
                            current_kickout_buyout: Self::spec_buyout(
                                old(self).buyout_factor as int,
                                old(self).real_gains as int,
                                old(self).expected_gains as int,
                                t + old(self).kickout_length_max - now,
                                old(self).kickout_length_max as int,
                            ) as u64,
                            ..*old(self)
                        }
                    }
                },
            },
    {
        if let Some(start) = self.kickout_start_time {
            let end = start + self.kickout_length_max;
            if end <= now {
                self.kickout_start_time = None;
                self.kickout_remaining = 0;
                self.current_kickout_buyout = 0;
                false
            } else {
                self.kickout_remaining = end - now;
                self.current_kickout_buyout = self.calculate_buyout(now);
                true
            }
        } else {
            false
        }
    }

    /// Gives the player a clean slate once a kickout is fully resolved:
    /// zeroes suspicion and the four performance tallies. The kickout start
    /// time itself is untouched.
    pub fn reset_kickout(&mut self)
        requires
            old(self).wf(),
        ensures
            final(self).wf(),
            *final(self) == (GameCommonData {
                suspicion: 0,
                expected_gains: 0,
                real_gains: 0,
                expected_wins: 0,
                real_wins: 0,
                ..*old(self)
            }),
    {
        self.suspicion = 0;
        self.expected_gains = 0;
        self.real_gains = 0;
        self.expected_wins = 0;
        self.real_wins = 0;
    }

    /// When the current bet will end; `None` when no bet is active.
    pub fn bet_end_time(&self, bet_duration: u64) -> (end: Option<u64>)
        requires
            self.wf(),
            bet_duration <= DURATION_MAX,
        ensures
            match self.bet_start {
                Some(t) => end == Some((t + bet_duration) as u64),
                None => end is None,
            },
    {
        if let Some(start) = self.bet_start {
            Some(start + bet_duration)
        } else {
            None
        }
    }

    /// How much time remains in the bet at time `now`, in milliseconds.
    /// `None` means the bet is over: either no bet is active, or its end
    /// time has passed.
    pub fn bet_time_remaining(&self, bet_duration: u64, now: u64) -> (rem: Option<u64>)
        requires
            self.wf(),
            bet_duration <= DURATION_MAX,
        ensures
            match self.bet_start {
                Some(t) => {
                    if now < t + bet_duration {
                        rem == Some((t + bet_duration - now) as u64)
                    } else {
                        rem is None
                    }
                },
                None => rem is None,
            },
    {
        if let Some(end) = self.bet_end_time(bet_duration) {
            if now < end {
                Some(end - now)
            } else {
                None
            }
        } else {
            None
        }
    }

    /// Locks the player out of the game as of time `now`.
    pub fn start_kickout(&mut self, now: u64)
        requires
            old(self).wf(),
            now <= TIME_MAX,
        ensures
            final(self).wf(),
            *final(self) == (GameCommonData {
                kickout_start_time: Some(now),
                kickout_remaining: old(self).kickout_length_max,
                ..*old(self)
            }),
    {
        self.kickout_start_time = Some(now);
        self.kickout_remaining = self.kickout_length_max;
    }
}

/// The payout rate, in permille, that a game with base rate `base` actually
/// pays at suspicion level `susp` (permille): untouched in the lowest
/// bracket, then reduced by one, two or four reduction steps, but never
/// below the 1.1x floor.
pub open spec fn spec_effective_payout(base: int, susp: int) -> int {
    if susp < 250 {
        base
    } else {
        let steps: int = if susp < 500 {
            1
        } else if susp < 750 {
            2
        } else {
            4
        };
        if base - steps * PAYOUT_REDUCTION < PAYOUT_FLOOR {
            PAYOUT_FLOOR as int
        } else {
            base - steps * PAYOUT_REDUCTION
        }
    }
}

/// Applies the suspicion brackets to a game's base payout rate: no
/// reduction below a quarter suspicion, then one, two or four reduction
/// steps as suspicion rises, floored at 1.1x.
pub fn effective_payout(base: u64, susp: u64) -> (rate: u64)
    requires
        PAYOUT_FLOOR <= base <= PAYOUT_RATE_MAX,
        susp <= 1000,
    ensures
        rate == spec_effective_payout(base as int, susp as int),
        PAYOUT_FLOOR <= rate <= base,
{
    if susp < 250 {
        base
    } else {
        let steps: u64 = if susp < 500 {
            1
        } else if susp < 750 {
            2
        } else {
            4
        };
        let cut = steps * PAYOUT_REDUCTION;
        if base < PAYOUT_FLOOR + cut {
            PAYOUT_FLOOR
        } else {
            base - cut
        }
    }
}

/// The permille chance that a bet at suspicion level `susp` triggers a
/// kickout: zero below three quarters, then rising linearly to certainty at
/// full suspicion.
pub open spec fn spec_kickout_chance(susp: int) -> int {
    if susp < 750 {
        0
    } else {
        (susp - 750) * 4
    }
}

/// The permille chance of being kicked out by a bet at suspicion level
/// `susp`: `(susp - 0.75) * 4` above the top bracket's edge, certain at
/// full suspicion.
pub fn kickout_chance(susp: u64) -> (chance: u64)
    requires
        susp <= 1000,
    ensures
        chance == spec_kickout_chance(susp as int),
        chance <= 1000,
        susp == 1000 ==> chance == 1000,
        susp < 750 ==> chance == 0,
{
    if susp < 750 {
        0
    } else {
        (susp - 750) * 4
    }
}

/// Two to the power `e`.
pub open spec fn pow2(e: nat) -> nat
    decreases e,
{
    if e == 0 {
        1
    } else {
        2 * pow2((e - 1) as nat)
    }
}

/// How many times a permille probability `p` doubles before exceeding one
/// half: the whole-bit part of `-log2(p / 1000)`.
pub open spec fn exp_of(p: int) -> nat
    decreases 1000 - p,
    when 1 <= p <= 1000
{
    if 2 * p > 1000 {
        0
    } else {
        (1 + exp_of(2 * p)) as nat
    }
}

/// The entropy, in millibits, of an outcome of permille probability `p`:
/// the whole-bit part of `-log2(p / 1000)` plus a linear interpolation of
/// the fractional part. Exact whenever the odds are a power of two
/// (`spec_entropy(1000) == 0`, `spec_entropy(500) == 1000`).
pub open spec fn spec_entropy(p: int) -> int {
    let m = pow2(exp_of(p)) * p;
    1000 * exp_of(p) + (1000 - m) * 1000 / m
}

/// `pow2` never decreases as the exponent rises.
proof fn lemma_pow2_monotone(e1: nat, e2: nat)
    requires
        e1 <= e2,
    ensures
        pow2(e1) <= pow2(e2),
    decreases e2,
{
    if e1 < e2 {
        lemma_pow2_monotone(e1, (e2 - 1) as nat);
    }
}

/// The whole-bit exponent brackets its probability: doubling `p` exactly
/// `exp_of(p)` times lands in the interval just above one half.
proof fn lemma_exp_of_bounds(p: int)
    requires
        1 <= p <= 1000,
    ensures
        500 < pow2(exp_of(p)) * p <= 1000,
    decreases 1000 - p,
{
    if 2 * p > 1000 {
        assert(exp_of(p) == 0);
        assert(pow2(0) == 1);
        assert(1 * p == p);
    } else {
        lemma_exp_of_bounds(2 * p);
        let e2 = exp_of(2 * p);
        assert(exp_of(p) == 1 + e2);
        assert(pow2(1 + e2) == 2 * pow2(e2));
        assert((2 * pow2(e2) as int) * p == pow2(e2) as int * (2 * p)) by (nonlinear_arith) {}
    }
}

/// A fraction with at least as large a rational value has at least as
/// large a floored quotient: from `c * b <= a * d` follows `c/d <= a/b`.
proof fn lemma_div_frac_le(a: int, b: int, c: int, d: int)
    requires
        0 <= a,
        0 < b,
        0 <= c,
        0 < d,
        c * b <= a * d,
    ensures
        c / d <= a / b,
{
    let q = c / d;
    vstd::arithmetic::div_mod::lemma_div_pos_is_pos(c, d);
    vstd::arithmetic::div_mod::lemma_fundamental_div_mod(c, d);
    vstd::arithmetic::div_mod::lemma_mod_bound(c, d);
    assert(q * d <= c);
    assert((q * b) * d <= a * d) by (nonlinear_arith)
        requires
            q * d <= c,
            0 <= b,
            c * b <= a * d,
    {}
    assert(q * b <= a) by (nonlinear_arith)
        requires
            (q * b) * d <= a * d,
            0 < d,
    {}
    vstd::arithmetic::div_mod::lemma_div_is_ordered(q * b, a, b);
    vstd::arithmetic::div_mod::lemma_div_by_multiple(q, b);
}

/// Entropy never rises with probability: a likelier outcome carries no
/// more information.
pub proof fn lemma_entropy_antitone(p1: int, p2: int)
    requires
        1 <= p1 <= p2 <= 1000,
    ensures
        spec_entropy(p2) <= spec_entropy(p1),
{
    let e1 = exp_of(p1);
    let e2 = exp_of(p2);
    let m1 = pow2(e1) as int * p1;
    let m2 = pow2(e2) as int * p2;
    lemma_exp_of_bounds(p1);
    lemma_exp_of_bounds(p2);
    if e1 < e2 {
        lemma_pow2_monotone((e1 + 1) as nat, e2);
        assert(pow2((e1 + 1) as nat) as int * p2 <= pow2(e2) as int * p2) by {
            vstd::arithmetic::mul::lemma_mul_inequality(
                pow2((e1 + 1) as nat) as int, pow2(e2) as int, p2);
            vstd::arithmetic::mul::lemma_mul_is_commutative(
                pow2((e1 + 1) as nat) as int, p2);
            vstd::arithmetic::mul::lemma_mul_is_commutative(pow2(e2) as int, p2);
        };
        assert(pow2((e1 + 1) as nat) == 2 * pow2(e1));
        assert((2 * pow2(e1) as int) * p2 == 2 * (pow2(e1) as int * p2)) by (nonlinear_arith) {}
        assert(pow2(e1) as int * p2 <= 500);
        assert(pow2(e1) as int * p1 <= pow2(e1) as int * p2) by {
            vstd::arithmetic::mul::lemma_mul_inequality(p1, p2, pow2(e1) as int);
            vstd::arithmetic::mul::lemma_mul_is_commutative(p1, pow2(e1) as int);
            vstd::arithmetic::mul::lemma_mul_is_commutative(p2, pow2(e1) as int);
        };
        assert(500 < pow2(e1) as int * p1);
        assert(false);
    }
    let f1 = (1000 - m1) * 1000 / m1;
    let f2 = (1000 - m2) * 1000 / m2;
    assert(0 <= f1) by {
        vstd::arithmetic::mul::lemma_mul_nonnegative(1000 - m1, 1000);
        vstd::arithmetic::div_mod::lemma_div_pos_is_pos((1000 - m1) * 1000, m1);
    };
    assert(0 <= f2) by {
        vstd::arithmetic::mul::lemma_mul_nonnegative(1000 - m2, 1000);
        vstd::arithmetic::div_mod::lemma_div_pos_is_pos((1000 - m2) * 1000, m2);
    };
    if e2 < e1 {
        assert(f2 < 1000) by {
            assert((1000 - m2) * 1000 < m2 * 1000) by (nonlinear_arith)
                requires
                    500 < m2 <= 1000,
            {}
            vstd::arithmetic::mul::lemma_mul_is_commutative(m2, 1000);
            vstd::arithmetic::div_mod::lemma_multiply_divide_lt(
                (1000 - m2) * 1000, m2, 1000);
        };
        assert(spec_entropy(p2) < 1000 * e2 + 1000);
        assert(1000 * (e2 as int) + 1000 <= 1000 * (e1 as int)) by (nonlinear_arith)
            requires
                e2 < e1,
        {}
    } else {
        assert(e1 == e2);
        assert(m1 <= m2) by {
            vstd::arithmetic::mul::lemma_mul_inequality(p1, p2, pow2(e1) as int);
            vstd::arithmetic::mul::lemma_mul_is_commutative(p1, pow2(e1) as int);
            vstd::arithmetic::mul::lemma_mul_is_commutative(p2, pow2(e1) as int);
        };
        assert(((1000 - m2) * 1000) * m1 <= ((1000 - m1) * 1000) * m2) by (nonlinear_arith)
            requires
                500 < m1 <= m2 <= 1000,
        {}
        assert(0 <= (1000 - m1) * 1000) by {
            vstd::arithmetic::mul::lemma_mul_nonnegative(1000 - m1, 1000);
        };
        assert(0 <= (1000 - m2) * 1000) by {
            vstd::arithmetic::mul::lemma_mul_nonnegative(1000 - m2, 1000);
        };
        lemma_div_frac_le((1000 - m1) * 1000, m1, (1000 - m2) * 1000, m2);
    }
}

/// The entropy of an event of permille probability `p`, in millibits:
/// `-log2(p / 1000)`, whole bits exact and the fraction between them
/// linearly interpolated. A certain event carries no entropy; a fair coin
/// carries exactly one bit.
pub fn entropy(p: u64) -> (millibits: u64)
    requires
        1 <= p <= 1000,
    ensures
        millibits == spec_entropy(p as int),
        p == 1000 ==> millibits == 0,
        p == 500 ==> millibits == 1000,
{
    let mut m: u64 = p;
    let mut e: u64 = 0;
    proof {
        assert(pow2(0) == 1);
        assert(pow2(0) * p == p);
    }
    while 2 * m <= 1000
        invariant
            1 <= m <= 1000,
            1 <= p <= 1000,
            m == pow2(e as nat) * p,
            exp_of(p as int) == e + exp_of(m as int),
            e <= 9,
        decreases 1000 - m,
    {
        proof {
            assert(pow2((e + 1) as nat) * p == 2 * (pow2(e as nat) * p)) by {
                assert(pow2((e + 1) as nat) == 2 * pow2(e as nat));
                vstd::arithmetic::mul::lemma_mul_is_associative(
                    2, pow2(e as nat) as int, p as int);
            };
            if e + 1 > 9 {
                lemma_pow2_monotone(10, (e + 1) as nat);
                assert(pow2(10) == 1024) by {
                    reveal_with_fuel(pow2, 11);
                };
                vstd::arithmetic::mul::lemma_mul_inequality(
                    1, p as int, pow2((e + 1) as nat) as int);
                assert(false);
            }
        }
        m = 2 * m;
        e = e + 1;
    }
    proof {
        assert(exp_of(m as int) == 0);
    }
    let frac = (1000 - m) * 1000 / m;
    1000 * e + frac
}

/// The buyout price is never negative, and a player who gained no more
/// than the game expected owes nothing at all.
pub proof fn lemma_buyout_nonnegative(
    factor: int,
    real_gains: int,
    expected_gains: int,
    rem: int,
    length: int,
)
    requires
        0 <= factor,
        0 <= rem,
        0 < length,
    ensures
        0 <= GameCommonData::spec_buyout(factor, real_gains, expected_gains, rem, length)
            <= u64::MAX,
        real_gains <= expected_gains ==> GameCommonData::spec_buyout(
            factor, real_gains, expected_gains, rem, length) == 0,
{
    if real_gains > expected_gains {
        let d = real_gains - expected_gains;
        let tf = GameCommonData::spec_time_factor(rem, length);
        assert(0 <= tf) by (nonlinear_arith)
            requires
                tf == (rem + 5 * length - 1) / (5 * length),
                0 <= rem,
                0 < length,
        {}
        let base = factor * d * 2 / 1000;
        assert(0 <= base) by {
            vstd::arithmetic::mul::lemma_mul_nonnegative(factor, d);
            vstd::arithmetic::mul::lemma_mul_nonnegative(factor * d, 2);
            if factor * d * 2 > 0 {
                vstd::arithmetic::div_mod::lemma_div_is_ordered(0, factor * d * 2, 1000);
            }
        };
        vstd::arithmetic::mul::lemma_mul_nonnegative(base, tf);
    }
}

/// While a kickout runs, the buyout price never rises as `now` advances
/// toward the kickout's end: the remaining time shrinks, so its 5-unit
/// granularity factor, and with it the price, can only step downward.
pub proof fn lemma_buyout_monotone(
    g: GameCommonData,
    now1: int,
    now2: int,
)
    requires
        g.wf(),
        now1 <= now2,
    ensures
        GameCommonData::spec_buyout(
            g.buyout_factor as int,
            g.real_gains as int,
            g.expected_gains as int,
            g.spec_kickout_remaining(now2),
            g.kickout_length_max as int,
        ) <= GameCommonData::spec_buyout(
            g.buyout_factor as int,
            g.real_gains as int,
            g.expected_gains as int,
            g.spec_kickout_remaining(now1),
            g.kickout_length_max as int,
        ),
{
    if g.real_gains > g.expected_gains {
        let f = g.buyout_factor as int;
        let d = g.real_gains - g.expected_gains;
        let len = g.kickout_length_max as int;
        let rem1 = g.spec_kickout_remaining(now1);
        let rem2 = g.spec_kickout_remaining(now2);
        assert(rem2 <= rem1);
        let tf1 = GameCommonData::spec_time_factor(rem1, len);
        let tf2 = GameCommonData::spec_time_factor(rem2, len);
        assert(tf2 <= tf1) by {
            vstd::arithmetic::div_mod::lemma_div_is_ordered(
                rem2 + 5 * len - 1, rem1 + 5 * len - 1, 5 * len);
        };
        let base = f * d * 2 / 1000;
        assert(base >= 0) by {
            vstd::arithmetic::mul::lemma_mul_nonnegative(f, d);
            vstd::arithmetic::mul::lemma_mul_nonnegative(f * d, 2);
            vstd::arithmetic::div_mod::lemma_div_basics(1000);
            if f * d * 2 > 0 {
                vstd::arithmetic::div_mod::lemma_div_is_ordered(0, f * d * 2, 1000);
            }
        };
        assert(base * tf2 <= base * tf1) by {
            vstd::arithmetic::mul::lemma_mul_inequality(tf2, tf1, base);
            vstd::arithmetic::mul::lemma_mul_is_commutative(base, tf2);
            vstd::arithmetic::mul::lemma_mul_is_commutative(base, tf1);
        };
    }
}

} // verus!
