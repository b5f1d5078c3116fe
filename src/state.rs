use vstd::prelude::*;

verus! {

/// Top-level application phase.
#[derive(Clone, Copy, Debug, PartialEq, Eq, Hash, Structural)]
pub enum AppState {
    MainMenu,
    Game,
    GameOver,
}

impl Default for AppState {
    /// A freshly started application goes straight into a round.
    fn default() -> (r: AppState)
        ensures
            r == AppState::Game,
    {
        AppState::Game
    }
}

/// Run state of the simulation, meaningful only while a round is played.
#[derive(Clone, Copy, Debug, PartialEq, Eq, Hash, Structural)]
pub enum SimulationState {
    Running,
    Paused,
}

/// What the pointer does to a menu button.
#[derive(Clone, Copy, Debug, PartialEq, Eq, Structural)]
pub enum ButtonInteraction {
    Clicked,
    Hovered,
    Idle,
}

/// How a menu button is drawn.
#[derive(Clone, Copy, Debug, PartialEq, Eq, Structural)]
pub enum ButtonShade {
    Normal,
    Hovered,
    Pressed,
}

/// The shade that an interaction gives a button.
pub open spec fn shade_of(i: ButtonInteraction) -> ButtonShade {
    match i {
        ButtonInteraction::Clicked => ButtonShade::Pressed,
        ButtonInteraction::Hovered => ButtonShade::Hovered,
        ButtonInteraction::Idle => ButtonShade::Normal,
    }
}

fn shade(i: ButtonInteraction) -> (r: ButtonShade)
    ensures
        r == shade_of(i),
{
    match i {
        ButtonInteraction::Clicked => ButtonShade::Pressed,
        ButtonInteraction::Hovered => ButtonShade::Hovered,
        ButtonInteraction::Idle => ButtonShade::Normal,
    }
}

/// What the play button asks for: its new shade, and a round when clicked.
#[derive(Clone, Copy, Debug, PartialEq, Eq, Structural)]
pub struct PlayButtonResponse {
    pub shade: ButtonShade,
    pub next_state: Option<AppState>,
}

/// What the quit button asks for: its new shade, and an exit when clicked.
#[derive(Clone, Copy, Debug, PartialEq, Eq, Structural)]
pub struct QuitButtonResponse {
    pub shade: ButtonShade,
    pub exit: bool,
}

/// The play button: a click shows it pressed and requests the `Game` phase;
/// hovering or leaving it only changes its shade.
pub fn interact_with_play_button(interaction: ButtonInteraction) -> (r: PlayButtonResponse)
    ensures
        r.shade == shade_of(interaction),
        r.next_state == if interaction == ButtonInteraction::Clicked {
            Some(AppState::Game)
        } else {
            None
        },
{
    let next_state = match interaction {
        ButtonInteraction::Clicked => Some(AppState::Game),
        _ => None,
    };
    PlayButtonResponse { shade: shade(interaction), next_state }
}

/// The quit button: a click shows it pressed and requests an exit;
/// hovering or leaving it only changes its shade.
pub fn interact_with_quit_button(interaction: ButtonInteraction) -> (r: QuitButtonResponse)
    ensures
        r.shade == shade_of(interaction),
        r.exit == (interaction == ButtonInteraction::Clicked),
{
    let exit = match interaction {
        ButtonInteraction::Clicked => true,
        _ => false,
    };
    QuitButtonResponse { shade: shade(interaction), exit }
}

} // verus!
