use vstd::prelude::*;

verus! {

/// Where a round stands; `Idle` before the first round.
#[derive(Clone, Copy, Debug, PartialEq, Eq, Hash, Structural)]
pub enum GameState {
    Idle,
    InGame,
    Dead,
}

/// Which screen the application shows.
#[derive(Clone, Copy, Debug, PartialEq, Eq, Hash, Structural)]
pub enum AppState {
    Loading,
    Menu,
    Game,
}

/// How the pointer stands with a button.
#[derive(Clone, Copy, Debug, PartialEq, Eq, Hash, Structural)]
pub enum Interaction {
    Clicked,
    Hovered,
    Untouched,
}

/// Whether some button with the given action was clicked.
pub open spec fn clicked<A>(buttons: Seq<(Interaction, A)>, action: A) -> bool {
    exists|k: int|
        0 <= k < buttons.len() && buttons[k].0 == Interaction::Clicked && buttons[k].1 == action
}

} // verus!
