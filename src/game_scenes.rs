use vstd::prelude::*;
use crate::loaders::LoadingStatus;
use crate::state::{GameState, GameStatus, Transition, advanced, requested, transition_of, well_formed};

verus! {

/// The scenes of the game: a loading screen, the main menu and gameplay.
#[derive(Clone, Copy, Debug, Eq)]
pub enum MyGameScenes {
    Loading,
    Menu,
    Game,
}

impl PartialEq for MyGameScenes {
    fn eq(&self, other: &MyGameScenes) -> (r: bool) {
        match (self, other) {
            (MyGameScenes::Loading, MyGameScenes::Loading) => true,
            (MyGameScenes::Menu, MyGameScenes::Menu) => true,
            (MyGameScenes::Game, MyGameScenes::Game) => true,
            _ => false,
        }
    }
}

impl vstd::std_specs::cmp::PartialEqSpecImpl for MyGameScenes {
    open spec fn obeys_eq_spec() -> bool {
        true
    }

    open spec fn eq_spec(&self, other: &MyGameScenes) -> bool {
        *self == *other
    }
}

/// The state after the driver's rule for `ready`, the loading latch: an idle
/// machine asks for the loading scene, and a running loading scene asks for
/// the menu once the first assets are loaded.
pub open spec fn driven(s: GameState<MyGameScenes>, ready: bool) -> GameState<MyGameScenes> {
    if s.status == GameStatus::Idle {
        requested(s, MyGameScenes::Loading)
    } else if s.status == GameStatus::Running && s.current == Some(MyGameScenes::Loading) && ready {
        requested(s, MyGameScenes::Menu)
    } else {
        s
    }
}

/// One tick of the scene driver: advance the lifecycle, then apply the
/// driver's rule to the new state.
pub fn game_state_transitions(game_state: &mut GameState<MyGameScenes>, loading: &LoadingStatus) -> (r: Transition)
    ensures
        *final(game_state) == driven(advanced(*old(game_state)), loading@.initial_ready),
        r == transition_of(*old(game_state)),
        well_formed(*old(game_state)) ==> well_formed(*final(game_state)),
{
    let r = game_state.update();
    match game_state.status {
        GameStatus::Idle => game_state.set_transition(MyGameScenes::Loading),
        GameStatus::Running => {
            if game_state.is_in_scene(&MyGameScenes::Loading) && loading.initial_ready() {
                game_state.set_transition(MyGameScenes::Menu);
            }
        },
        _ => {},
    }
    r
}

} // verus!
