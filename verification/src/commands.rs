//! The normalized command tokens the shell hands to the core: the core
//! never polls keys or renders text itself, it only reads tokens that a
//! presentation layer has already captured.

use vstd::prelude::*;
use crate::codec::{all_digits, digits_val};

verus! {

/// A command on the main menu.
#[derive(Clone, Copy, Debug, PartialEq, Eq, Structural)]
pub enum MainMenuCmd {
    /// Leave the program.
    Quit,
    /// Start a new game, overwriting the old save.
    NewGame,
    /// Load the saved game.
    LoadGame,
    /// Anything else.
    Unknown,
}

/// A command on the game-select menu.
#[derive(Clone, Copy, Debug, PartialEq, Eq, Structural)]
pub enum GameMenuCmd {
    /// Enter the coin toss game.
    PlayCoinToss,
    /// Save the session.
    Save,
    /// Return to the main menu.
    Back,
    /// Anything else.
    Unknown,
}

/// A command while holding between bets.
#[derive(Clone, Copy, Debug, PartialEq, Eq, Structural)]
pub enum HoldCmd {
    /// Lock in a bet of the given amount, in milli currency units.
    Bet(u64),
    /// Start the coin flip.
    Flip,
    /// Leave the game.
    Quit,
    /// Anything else.
    Invalid,
}

/// A command while a bet is live.
#[derive(Clone, Copy, Debug, PartialEq, Eq, Structural)]
pub enum InBetCmd {
    /// Flip the coin again, for half a bit of entropy.
    Reflip,
    /// Force the coin to heads, for one bit of entropy.
    SelectHeads,
    /// Force the coin to tails, for one bit of entropy.
    SelectTails,
    /// End the bet early.
    EndBet,
    /// Anything else.
    Invalid,
}

/// Whether the argument asks for the help text: `help`, `Help`, `h` or
/// `H`.
pub fn is_help_cmd(arg: &Vec<u8>) -> (help: bool)
    ensures
        help == (arg@ == seq![104u8, 101u8, 108u8, 112u8]
            || arg@ == seq![72u8, 101u8, 108u8, 112u8]
            || arg@ == seq![104u8]
            || arg@ == seq![72u8]),
{
    if arg.len() == 1 {
        let b = arg[0];
        proof {
            if b == 104 {
                assert(arg@ =~= seq![104u8]);
            }
            if b == 72 {
                assert(arg@ =~= seq![72u8]);
            }
        }
        b == 104 || b == 72
    } else if arg.len() == 4 {
        let r = (arg[0] == 104 || arg[0] == 72) && arg[1] == 101 && arg[2] == 108
            && arg[3] == 112;
        proof {
            if arg@[0] == 104 && arg@[1] == 101 && arg@[2] == 108 && arg@[3] == 112 {
                assert(arg@ =~= seq![104u8, 101u8, 108u8, 112u8]);
            }
            if arg@[0] == 72 && arg@[1] == 101 && arg@[2] == 108 && arg@[3] == 112 {
                assert(arg@ =~= seq![72u8, 101u8, 108u8, 112u8]);
            }
        }
        r
    } else {
        false
    }
}

/// Reads a main-menu token: a single `q`, `n` or `l`, either case.
pub fn main_menu_command(input: &Vec<u8>) -> (cmd: MainMenuCmd)
    ensures
        cmd == (if input@.len() == 1 {
            if input@[0] == 113 || input@[0] == 81 {
                MainMenuCmd::Quit
            } else if input@[0] == 110 || input@[0] == 78 {
                MainMenuCmd::NewGame
            } else if input@[0] == 108 || input@[0] == 76 {
                MainMenuCmd::LoadGame
            } else {
                MainMenuCmd::Unknown
            }
        } else {
            MainMenuCmd::Unknown
        }),
{
    if input.len() != 1 {
        return MainMenuCmd::Unknown;
    }
    let b = input[0];
    if b == 113 || b == 81 {
        MainMenuCmd::Quit
    } else if b == 110 || b == 78 {
        MainMenuCmd::NewGame
    } else if b == 108 || b == 76 {
        MainMenuCmd::LoadGame
    } else {
        MainMenuCmd::Unknown
    }
}

/// Reads a game-menu token: `1` enters the coin toss, `S` saves, `Q`
/// returns to the main menu.
pub fn game_menu_command(input: &Vec<u8>) -> (cmd: GameMenuCmd)
    ensures
        cmd == (if input@.len() == 1 {
            if input@[0] == 49 {
                GameMenuCmd::PlayCoinToss
            } else if input@[0] == 83 {
                GameMenuCmd::Save
            } else if input@[0] == 81 {
                GameMenuCmd::Back
            } else {
                GameMenuCmd::Unknown
            }
        } else {
            GameMenuCmd::Unknown
        }),
{
    if input.len() != 1 {
        return GameMenuCmd::Unknown;
    }
    let b = input[0];
    if b == 49 {
        GameMenuCmd::PlayCoinToss
    } else if b == 83 {
        GameMenuCmd::Save
    } else if b == 81 {
        GameMenuCmd::Back
    } else {
        GameMenuCmd::Unknown
    }
}

/// Reads a holding-screen token: a whole number of currency units locks
/// in that bet (scaled to milli units, sticking at the ledger's top), `f`
/// flips, `q` quits.
pub fn hold_command(input: &Vec<u8>) -> (cmd: HoldCmd)
    ensures
        cmd == (if input@.len() > 0 && all_digits(input@) && digits_val(input@)
            <= u64::MAX {
            HoldCmd::Bet(
                (if digits_val(input@) * 1000 <= u64::MAX {
                    digits_val(input@) * 1000
                } else {
                    u64::MAX as int
                }) as u64,
            )
        } else if input@.len() == 1 && (input@[0] == 102 || input@[0] == 70) {
            HoldCmd::Flip
        } else if input@.len() == 1 && (input@[0] == 113 || input@[0] == 81) {
            HoldCmd::Quit
        } else {
            HoldCmd::Invalid
        }),
{
    match crate::codec::parse_u64(input) {
        Ok(n) => {
            if n <= u64::MAX / 1000 {
                proof {
                    vstd::arithmetic::mul::lemma_mul_inequality(
                        n as int, u64::MAX as int / 1000, 1000);
                    vstd::arithmetic::mul::lemma_mul_is_commutative(n as int, 1000);
                    vstd::arithmetic::mul::lemma_mul_is_commutative(
                        u64::MAX as int / 1000, 1000);
                    vstd::arithmetic::div_mod::lemma_fundamental_div_mod(
                        u64::MAX as int, 1000);
                    vstd::arithmetic::div_mod::lemma_mod_bound(u64::MAX as int, 1000);
                }
                return HoldCmd::Bet(n * 1000);
            } else {
                proof {
                    vstd::arithmetic::div_mod::lemma_fundamental_div_mod(
                        u64::MAX as int, 1000);
                    vstd::arithmetic::div_mod::lemma_mod_bound(u64::MAX as int, 1000);
                    assert(n as int * 1000 > u64::MAX) by (nonlinear_arith)
                        requires
                            n as int > (u64::MAX as int) / 1000,
                            u64::MAX as int == 1000 * ((u64::MAX as int) / 1000)
                                + (u64::MAX as int) % 1000,
                            0 <= (u64::MAX as int) % 1000 < 1000,
                    {}
                }
                return HoldCmd::Bet(u64::MAX);
            }
        },
        Err(_) => {},
    }
    if input.len() == 1 {
        let b = input[0];
        if b == 102 || b == 70 {
            return HoldCmd::Flip;
        }
        if b == 113 || b == 81 {
            return HoldCmd::Quit;
        }
    }
    HoldCmd::Invalid
}

/// Reads a key pressed during a live bet: `f` re-flips, `w` forces heads,
/// `l` forces tails, `q` ends the bet.
pub fn in_bet_command(key: u8) -> (cmd: InBetCmd)
    ensures
        cmd == (if key == 102 {
            InBetCmd::Reflip
        } else if key == 119 {
            InBetCmd::SelectHeads
        } else if key == 108 {
            InBetCmd::SelectTails
        } else if key == 113 {
            InBetCmd::EndBet
        } else {
            InBetCmd::Invalid
        }),
{
    if key == 102 {
        InBetCmd::Reflip
    } else if key == 119 {
        InBetCmd::SelectHeads
    } else if key == 108 {
        InBetCmd::SelectTails
    } else if key == 113 {
        InBetCmd::EndBet
    } else {
        InBetCmd::Invalid
    }
}

} // verus!
