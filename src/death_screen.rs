use vstd::prelude::*;

use crate::state::{clicked, AppState, GameState, Interaction};

verus! {

/// What a button of the death screen does.
#[derive(Clone, Copy, Debug, PartialEq, Eq, Hash, Structural)]
pub enum ButtonAction {
    Replay,
    Menu,
}

/// Applies the clicks on the death screen's buttons: Replay starts a new
/// round, Menu goes back to the menu.
pub fn button_update(
    buttons: &Vec<(Interaction, ButtonAction)>,
    game_state: &mut GameState,
    app_state: &mut AppState,
)
    ensures
        *final(game_state) == if clicked(buttons@, ButtonAction::Replay) {
            GameState::InGame
        } else {
            *old(game_state)
        },
        *final(app_state) == if clicked(buttons@, ButtonAction::Menu) {
            AppState::Menu
        } else {
            *old(app_state)
        },
{
    let mut i: usize = 0;
    while i < buttons.len()
        invariant
            0 <= i <= buttons@.len(),
            *game_state == if clicked(buttons@.take(i as int), ButtonAction::Replay) {
                GameState::InGame
            } else {
                *old(game_state)
            },
            *app_state == if clicked(buttons@.take(i as int), ButtonAction::Menu) {
                AppState::Menu
            } else {
                *old(app_state)
            },
        decreases buttons@.len() - i,
    {
        let (interaction, action) = buttons[i];
        let ghost before = buttons@.take(i as int);
        let ghost after = buttons@.take(i + 1);
        assert(after =~= before.push(buttons@[i as int]));
        assert forall|a: ButtonAction| clicked(before, a) implies clicked(after, a) by {
            let k = choose|k: int|
                0 <= k < before.len() && before[k].0 == Interaction::Clicked && before[k].1 == a;
            assert(after[k] == before[k]);
        }
        if let Interaction::Clicked = interaction {
            assert(after[i as int] == buttons@[i as int]);
            match action {
                ButtonAction::Replay => {
                    *game_state = GameState::InGame;
                },
                ButtonAction::Menu => {
                    *app_state = AppState::Menu;
                },
            }
        }
        assert forall|a: ButtonAction| clicked(after, a) && !clicked(before, a) implies (
        interaction == Interaction::Clicked && action == a) by {
            let k = choose|k: int|
                0 <= k < after.len() && after[k].0 == Interaction::Clicked && after[k].1 == a;
            if k < i {
                assert(before[k] == after[k]);
            }
        }
        i = i + 1;
    }
    assert(buttons@.take(buttons@.len() as int) =~= buttons@);
}

} // verus!
