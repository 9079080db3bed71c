//! The pause menu: shown and hidden by a key or by its own button, and pausing
//! the game while it shows.

use crate::controls::Keys;
use vstd::prelude::*;

verus! {

/// Whether the game runs. Play goes on only while it is `Running`.
#[derive(Clone, Copy, Debug, PartialEq, Eq, Hash, Structural)]
pub enum GameState {
    Running,
    Loading,
    Paused,
}

impl Default for GameState {
    /// A game starts out running.
    fn default() -> (state: GameState)
        ensures
            state is Running,
    {
        GameState::Running
    }
}

/// Whether the menu is drawn. A menu that inherits is drawn or not as the
/// thing it hangs on is.
#[derive(Clone, Copy, Debug, PartialEq, Eq, Structural)]
pub enum Visibility {
    Inherited,
    Hidden,
    Visible,
}

/// What the pointer does to a button.
#[derive(Clone, Copy, Debug, PartialEq, Eq, Structural)]
pub enum Interaction {
    Pressed,
    Hovered,
    Untouched,
}

/// The menu and the game state that goes with it.
#[derive(Clone, Copy, Debug, PartialEq, Eq, Structural)]
pub struct Menu {
    pub visibility: Visibility,
    pub app_state: GameState,
}

impl Menu {
    /// The menu after one toggle: a menu that shows is hidden and the game
    /// runs on; any other menu is shown and the game pauses.
    pub open spec fn toggled(self) -> Menu {
        if self.visibility is Visible {
            Menu { visibility: Visibility::Hidden, app_state: GameState::Running }
        } else {
            Menu { visibility: Visibility::Visible, app_state: GameState::Paused }
        }
    }

    /// The menu after a number of toggles.
    pub open spec fn toggled_times(self, times: nat) -> Menu
        decreases times,
    {
        if times == 0 {
            self
        } else {
            self.toggled_times((times - 1) as nat).toggled()
        }
    }

    /// Shows a hidden menu and pauses, or hides a shown menu and runs on.
    pub fn toggle(&mut self)
        ensures
            *final(self) == old(self).toggled(),
    {
        match self.visibility {
            Visibility::Visible => {
                self.visibility = Visibility::Hidden;
                self.app_state = GameState::Running;
            },
            Visibility::Hidden | Visibility::Inherited => {
                self.visibility = Visibility::Visible;
                self.app_state = GameState::Paused;
            },
        }
    }
}

/// Number of buttons that are pressed.
pub open spec fn count_pressed(interactions: Seq<Interaction>) -> nat
    decreases interactions.len(),
{
    if interactions.len() == 0 {
        0
    } else {
        count_pressed(interactions.drop_last()) + if interactions.last() is Pressed {
            1nat
        } else {
            0nat
        }
    }
}

/// Toggles the menu when P went down in this frame, and leaves it alone
/// otherwise. The result says whether the menu was toggled.
pub fn toggle_menu_visibility(keys: &Keys, menu: &mut Menu) -> (toggled: bool)
    ensures
        toggled == keys.p_just_pressed,
        *final(menu) == if keys.p_just_pressed {
            old(menu).toggled()
        } else {
            *old(menu)
        },
{
    if keys.p_just_pressed {
        menu.toggle();
        true
    } else {
        false
    }
}

/// Toggles the menu once for every button that is pressed. `interactions`
/// holds what the pointer does to each button of the menu.
pub fn resume_button(interactions: &Vec<Interaction>, menu: &mut Menu)
    ensures
        *final(menu) == old(menu).toggled_times(count_pressed(interactions@)),
{
    let mut i: usize = 0;
    while i < interactions.len()
        invariant
            i <= interactions@.len(),
            *menu == old(menu).toggled_times(count_pressed(interactions@.take(i as int))),
        decreases interactions@.len() - i,
    {
        proof {
            assert(interactions@.take(i + 1).drop_last() == interactions@.take(i as int));
        }
        match interactions[i] {
            Interaction::Pressed => {
                menu.toggle();
            },
            Interaction::Hovered => {},
            Interaction::Untouched => {},
        }
        i = i + 1;
    }
    proof {
        assert(interactions@.take(i as int) == interactions@);
    }
}

/// After a toggle the game is paused exactly when the menu shows.
pub proof fn toggle_pairs_menu_and_pause(menu: Menu)
    ensures
        menu.toggled().visibility is Visible <==> menu.toggled().app_state is Paused,
        menu.toggled().visibility is Hidden <==> menu.toggled().app_state is Running,
        !(menu.toggled().visibility is Inherited),
        !(menu.toggled().app_state is Loading),
{
}

/// Toggles beyond the first only count by whether their number is odd or
/// even: an odd number leaves the menu as one toggle does, an even number as
/// two do.
pub proof fn toggles_go_by_parity(menu: Menu, times: nat)
    requires
        times > 0,
    ensures
        menu.toggled_times(times) == if times % 2 == 1 {
            menu.toggled()
        } else {
            menu.toggled().toggled()
        },
    decreases times,
{
    if times == 1 {
        assert(menu.toggled_times(0) == menu);
    } else {
        toggles_go_by_parity(menu, (times - 1) as nat);
    }
}

} // verus!
