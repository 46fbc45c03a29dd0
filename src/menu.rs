use vstd::prelude::*;

use crate::state::{clicked, AppState, Interaction};

verus! {

/// What a button of the main menu does.
#[derive(Clone, Copy, Debug, PartialEq, Eq, Hash, Structural)]
pub enum MenuButtonAction {
    Play,
    Quit,
}

/// Applies the clicks on the menu's buttons: Play enters the game, Quit
/// asks the application to exit. Returns whether exit was asked for.
pub fn button_update(buttons: &Vec<(Interaction, MenuButtonAction)>, app_state: &mut AppState) -> (r:
    bool)
    ensures
        r == clicked(buttons@, MenuButtonAction::Quit),
        *final(app_state) == if clicked(buttons@, MenuButtonAction::Play) {
            AppState::Game
        } else {
            *old(app_state)
        },
{
    let mut quit = false;
    let mut i: usize = 0;
    while i < buttons.len()
        invariant
            0 <= i <= buttons@.len(),
            quit == clicked(buttons@.take(i as int), MenuButtonAction::Quit),
            *app_state == if clicked(buttons@.take(i as int), MenuButtonAction::Play) {
                AppState::Game
            } else {
                *old(app_state)
            },
        decreases buttons@.len() - i,
    {
        let (interaction, action) = buttons[i];
        let ghost before = buttons@.take(i as int);
        let ghost after = buttons@.take(i + 1);
        assert(after =~= before.push(buttons@[i as int]));
        assert forall|a: MenuButtonAction| clicked(before, a) implies clicked(after, a) by {
            let k = choose|k: int|
                0 <= k < before.len() && before[k].0 == Interaction::Clicked && before[k].1 == a;
            assert(after[k] == before[k]);
        }
        if let Interaction::Clicked = interaction {
            assert(after[i as int] == buttons@[i as int]);
            match action {
                MenuButtonAction::Quit => {
                    quit = true;
                },
                MenuButtonAction::Play => {
                    *app_state = AppState::Game;
                },
            }
        }
        assert forall|a: MenuButtonAction| clicked(after, a) && !clicked(before, a) implies (
        interaction == Interaction::Clicked && action == a) by {
            let k = choose|k: int|
                0 <= k < after.len() && after[k].0 == Interaction::Clicked && after[k].1 == a;
            if k < i {
                assert(before[k] == after[k]);
            }
        }
        i = i + 1;
    }
    assert(buttons@.take(buttons@.len() as int) =~= buttons@);
    quit
}

} // verus!
