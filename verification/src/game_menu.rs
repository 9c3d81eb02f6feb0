//! The menu before the game: a button that starts it, one that shows the
//! rules, and the states the game goes through.

use vstd::prelude::*;

verus! {

/// The shade of grey of a button under the pointer, in hundredths of white.
pub const HOVERED_SHADE: u8 = 70;

/// The shade of grey of a button left alone, in hundredths of white.
pub const IDLE_SHADE: u8 = 90;

/// The level in which a game begins.
pub const FIRST_LEVEL: usize = 0;

/// The states of the game.
#[derive(Clone, Copy, Debug, PartialEq, Eq, Hash, Structural)]
pub enum GameState {
    MainMenu,
    Loading,
    Game,
}

impl Default for GameState {
    fn default() -> (out: GameState)
        ensures
            out == GameState::MainMenu,
    {
        GameState::MainMenu
    }
}

/// What the pointer does to a button.
#[derive(Clone, Copy, Debug, PartialEq, Eq, Structural)]
pub enum Interaction {
    Pressed,
    Hovered,
    Idle,
}

/// A button under the pointer darkens and one left alone brightens again; a
/// pressed one keeps its shade.
pub open spec fn spec_shade(interaction: Interaction) -> Option<u8> {
    match interaction {
        Interaction::Pressed => None,
        Interaction::Hovered => Some(HOVERED_SHADE),
        Interaction::Idle => Some(IDLE_SHADE),
    }
}

/// The shade a button takes under the pointer, if it changes.
pub fn shade(interaction: Interaction) -> (out: Option<u8>)
    ensures
        out == spec_shade(interaction),
{
    match interaction {
        Interaction::Pressed => None,
        Interaction::Hovered => Some(HOVERED_SHADE),
        Interaction::Idle => Some(IDLE_SHADE),
    }
}

/// What the start button asks for.
#[derive(Clone, Copy, Debug, PartialEq, Eq, Structural)]
pub struct StartReaction {
    /// The state the game is in from the next frame on.
    pub state: GameState,
    /// The start sound is played.
    pub start_sound: bool,
    /// The new shade of the button, if it changes.
    pub shade: Option<u8>,
}

/// In the menu a press of the start button begins the loading. In any other
/// state there is no start button to react.
pub open spec fn spec_button_interaction(
    state: GameState,
    interaction: Interaction,
) -> StartReaction {
    if state != GameState::MainMenu {
        StartReaction { state, start_sound: false, shade: None }
    } else if interaction == Interaction::Pressed {
        StartReaction { state: GameState::Loading, start_sound: true, shade: None }
    } else {
        StartReaction { state, start_sound: false, shade: spec_shade(interaction) }
    }
}

/// The start button reacts to the pointer.
pub fn button_interaction(state: GameState, interaction: Interaction) -> (out: StartReaction)
    ensures
        out == spec_button_interaction(state, interaction),
{
    if state != GameState::MainMenu {
        StartReaction { state, start_sound: false, shade: None }
    } else if interaction == Interaction::Pressed {
        StartReaction { state: GameState::Loading, start_sound: true, shade: None }
    } else {
        StartReaction { state, start_sound: false, shade: shade(interaction) }
    }
}

/// What the rules button asks for.
#[derive(Clone, Copy, Debug, PartialEq, Eq, Structural)]
pub struct RulesReaction {
    /// The rules are shown in a popup.
    pub show_rules: bool,
    /// The new shade of the button, if it changes.
    pub shade: Option<u8>,
}

pub open spec fn spec_rules_button_interaction(interaction: Interaction) -> RulesReaction {
    RulesReaction {
        show_rules: interaction == Interaction::Pressed,
        shade: spec_shade(interaction),
    }
}

/// The rules button reacts to the pointer.
pub fn rules_button_interaction(interaction: Interaction) -> (out: RulesReaction)
    ensures
        out == spec_rules_button_interaction(interaction),
{
    RulesReaction { show_rules: interaction == Interaction::Pressed, shade: shade(interaction) }
}

/// A press of its button closes the popup with the rules, and takes the
/// button away with it.
pub open spec fn spec_close_popup(interaction: Interaction) -> bool {
    interaction == Interaction::Pressed
}

/// The button that closes the rules reacts to the pointer.
#[verifier::when_used_as_spec(spec_close_popup)]
pub fn close_popup(interaction: Interaction) -> (out: bool)
    ensures
        out == spec_close_popup(interaction),
{
    interaction == Interaction::Pressed
}

/// What the loading of the game consists of.
#[derive(Clone, Copy, Debug, PartialEq, Eq, Structural)]
pub struct Loading {
    /// The level that is selected, by its place in the world.
    pub level: usize,
    /// The state the game is in from the next frame on.
    pub state: GameState,
}

pub open spec fn spec_handle_loading() -> Loading {
    Loading { level: FIRST_LEVEL, state: GameState::Game }
}

/// Loading selects the first level, puts the world in place and lets the
/// game begin.
#[verifier::when_used_as_spec(spec_handle_loading)]
pub fn handle_loading() -> (out: Loading)
    ensures
        out == spec_handle_loading(),
{
    Loading { level: FIRST_LEVEL, state: GameState::Game }
}

/// The start button changes the state of the game only when it is pressed in
/// the menu, and then the loading begins.
pub proof fn lemma_only_a_press_starts(state: GameState, interaction: Interaction)
    ensures
        spec_button_interaction(state, interaction).state != state <==> state
            == GameState::MainMenu && interaction == Interaction::Pressed,
        spec_button_interaction(state, interaction).state != state ==> spec_button_interaction(
            state,
            interaction,
        ).state == GameState::Loading,
        spec_button_interaction(state, interaction).start_sound <==> spec_button_interaction(
            state,
            interaction,
        ).state != state,
{
}

} // verus!
