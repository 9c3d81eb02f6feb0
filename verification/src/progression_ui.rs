//! The line on the screen that tells how far the player has come.

use crate::game_menu::{spec_button_interaction, GameState, Interaction};
use vstd::prelude::*;
use vstd::string::*;

verus! {

/// The figure for a number under ten.
pub open spec fn spec_digit(d: nat) -> char {
    seq!['0', '1', '2', '3', '4', '5', '6', '7', '8', '9'][d as int]
}

/// A number written in decimal figures.
pub open spec fn spec_decimal(n: nat) -> Seq<char>
    decreases n,
{
    if n < 10 {
        seq![spec_digit(n)]
    } else {
        spec_decimal(n / 10).push(spec_digit(n % 10))
    }
}

/// The line for a player who has come as far as `progression`.
pub open spec fn spec_progression_text(progression: u8) -> Seq<char> {
    "Progression: "@ + spec_decimal(progression as nat)
}

/// The figure for a number under ten, as text.
fn digit(d: u8) -> (out: &'static str)
    requires
        d < 10,
    ensures
        out@ == seq![spec_digit(d as nat)],
{
    proof {
        reveal_strlit("0");
        reveal_strlit("1");
        reveal_strlit("2");
        reveal_strlit("3");
        reveal_strlit("4");
        reveal_strlit("5");
        reveal_strlit("6");
        reveal_strlit("7");
        reveal_strlit("8");
        reveal_strlit("9");
    }
    let out = match d {
        0 => "0",
        1 => "1",
        2 => "2",
        3 => "3",
        4 => "4",
        5 => "5",
        6 => "6",
        7 => "7",
        8 => "8",
        _ => "9",
    };
    assert(out@ =~= seq![spec_digit(d as nat)]);
    out
}

/// Writes the line that shows the player's progression.
pub fn update_progression_ui(progression: u8) -> (out: String)
    ensures
        out@ == spec_progression_text(progression),
{
    let mut out = String::from_str("Progression: ");
    let hundreds: u8 = progression / 100;
    let tens: u8 = (progression / 10) % 10;
    let ones: u8 = progression % 10;
    proof {
        reveal_with_fuel(spec_decimal, 3);
    }
    if hundreds > 0 {
        out.append(digit(hundreds));
    }
    if hundreds > 0 || tens > 0 {
        out.append(digit(tens));
    }
    out.append(digit(ones));
    assert(out@ =~= spec_progression_text(progression));
    out
}

/// The line shows while the game is in the state that the start button
/// leads to.
pub open spec fn spec_toggle_progression_ui(state: GameState) -> bool {
    state == GameState::Loading
}

/// Decides whether the line is on the screen.
#[verifier::when_used_as_spec(spec_toggle_progression_ui)]
pub fn toggle_progression_ui(state: GameState) -> (out: bool)
    ensures
        out == spec_toggle_progression_ui(state),
{
    state == GameState::Loading
}

/// The line is hidden in the menu and comes up with the press of the start
/// button.
pub proof fn lemma_start_shows_progression()
    ensures
        !spec_toggle_progression_ui(GameState::MainMenu),
        spec_toggle_progression_ui(
            spec_button_interaction(GameState::MainMenu, Interaction::Pressed).state,
        ),
{
}

} // verus!
