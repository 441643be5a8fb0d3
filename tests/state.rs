use spectre::game_scenes::{game_state_transitions, MyGameScenes};
use spectre::loaders::{AssetLoadState, LoadAssets, LoadingProgressData, LoadingStatus};
use spectre::state::{GameState, GameStatus, Transition};

#[derive(Clone, Copy, Debug, PartialEq)]
#[allow(dead_code)]
pub enum TestStates {
    A,
    B,
}

#[test]
fn transitions_on_update() {
    let mut gs = GameState::<TestStates> {
        status: GameStatus::Idle,
        current: None,
        next: Some(TestStates::A),
    };

    match gs.status {
        GameStatus::Idle => assert!(true),
        _ => assert!(false),
    };

    gs.update();

    match gs.status {
        GameStatus::Entering => match gs.current {
            Some(TestStates::A) => assert!(true),
            _ => assert!(false),
        },
        _ => assert!(false),
    };
}

#[test]
fn idle_without_request_stays_idle() {
    let mut gs = GameState::<TestStates>::new();
    for _ in 0..10 {
        assert_eq!(gs.update(), Transition::Ignored);
        assert_eq!(gs.status, GameStatus::Idle);
        assert_eq!(gs.current, None);
        assert_eq!(gs.current_scene(), None);
    }
}

#[test]
fn running_without_request_keeps_running() {
    let mut gs = GameState::<TestStates>::new();
    gs.set_transition(TestStates::B);
    gs.update();
    gs.update();
    assert_eq!(gs.status, GameStatus::Running);
    for _ in 0..10 {
        assert_eq!(gs.update(), Transition::Unchanged);
        assert_eq!(gs.status, GameStatus::Running);
        assert_eq!(gs.current, Some(TestStates::B));
    }
}

#[test]
fn request_from_idle_enters_then_runs() {
    let mut gs = GameState::<TestStates>::new();
    gs.set_transition(TestStates::A);
    assert_eq!(gs.status, GameStatus::Idle);
    assert_eq!(gs.update(), Transition::Entered);
    assert_eq!(gs.status, GameStatus::Entering);
    assert_eq!(gs.current_scene(), Some(TestStates::A));
    assert_eq!(gs.update(), Transition::Started);
    assert_eq!(gs.status, GameStatus::Running);
    assert_eq!(gs.current_scene(), Some(TestStates::A));
    assert_eq!(gs.next, None);
}

#[test]
fn request_while_running_exits_first() {
    let mut gs = GameState::<TestStates>::new();
    gs.set_transition(TestStates::A);
    gs.update();
    gs.update();
    gs.set_transition(TestStates::B);
    assert_eq!(gs.update(), Transition::Exited);
    assert_eq!(gs.status, GameStatus::Exiting);
    assert_eq!(gs.current_scene(), Some(TestStates::A));
    assert_eq!(gs.update(), Transition::Entered);
    assert_eq!(gs.status, GameStatus::Entering);
    assert_eq!(gs.current_scene(), Some(TestStates::B));
    assert_eq!(gs.next, None);
}

#[test]
fn stalled_exit_stays_parked() {
    let mut gs = GameState::<TestStates> {
        status: GameStatus::Exiting,
        current: Some(TestStates::A),
        next: None,
    };
    for _ in 0..5 {
        assert_eq!(gs.update(), Transition::Stalled);
        assert_eq!(gs.status, GameStatus::Exiting);
        assert_eq!(gs.current, Some(TestStates::A));
    }
    gs.set_transition(TestStates::B);
    assert_eq!(gs.update(), Transition::Entered);
    assert_eq!(gs.current, Some(TestStates::B));
}

#[test]
fn last_request_wins() {
    let mut gs = GameState::<TestStates>::new();
    gs.set_transition(TestStates::A);
    gs.set_transition(TestStates::B);
    gs.update();
    assert_eq!(gs.current, Some(TestStates::B));
}

#[test]
fn scene_and_status_queries() {
    let mut gs = GameState::<MyGameScenes>::new();
    assert!(!gs.is_in_scene(&MyGameScenes::Loading));
    assert!(gs.is_in_status(&GameStatus::Idle));
    gs.set_transition(MyGameScenes::Menu);
    gs.update();
    assert!(gs.is_in_scene(&MyGameScenes::Menu));
    assert!(!gs.is_in_scene(&MyGameScenes::Game));
    assert!(gs.is_in_status(&GameStatus::Entering));
    assert!(!gs.is_in_status(&GameStatus::Running));
}

#[test]
fn loading_then_menu_by_hand() {
    let mut gs = GameState::<MyGameScenes>::new();
    assert_eq!(gs.status, GameStatus::Idle);
    gs.set_transition(MyGameScenes::Loading);
    gs.update();
    assert_eq!(gs.status, GameStatus::Entering);
    assert_eq!(gs.current, Some(MyGameScenes::Loading));
    gs.update();
    assert_eq!(gs.status, GameStatus::Running);
    assert_eq!(gs.current, Some(MyGameScenes::Loading));
    // not ready yet: nothing requested, nothing happens
    assert_eq!(gs.update(), Transition::Unchanged);
    assert_eq!(gs.status, GameStatus::Running);
    // ready: the driver asks for the menu
    gs.set_transition(MyGameScenes::Menu);
    gs.update();
    assert_eq!(gs.status, GameStatus::Exiting);
    assert_eq!(gs.current, Some(MyGameScenes::Loading));
    gs.update();
    assert_eq!(gs.status, GameStatus::Entering);
    assert_eq!(gs.current, Some(MyGameScenes::Menu));
}

#[test]
fn driver_moves_from_loading_to_menu_once_ready() {
    let mut gs = GameState::<MyGameScenes>::new();
    let mut loading = LoadingStatus::new();
    let batch = LoadAssets {
        assets: vec![LoadingProgressData::from("a.png")],
    };
    loading.submit(&batch, &vec![1]);

    // tick 1: idle, nothing requested; the driver asks for the loading scene
    assert_eq!(game_state_transitions(&mut gs, &loading), Transition::Ignored);
    assert_eq!(gs.status, GameStatus::Idle);
    assert_eq!(gs.next, Some(MyGameScenes::Loading));
    // tick 2: enter the loading scene
    game_state_transitions(&mut gs, &loading);
    assert_eq!(gs.status, GameStatus::Entering);
    assert_eq!(gs.current, Some(MyGameScenes::Loading));
    // tick 3 and 4: running, not ready
    game_state_transitions(&mut gs, &loading);
    assert_eq!(gs.status, GameStatus::Running);
    game_state_transitions(&mut gs, &loading);
    assert_eq!(gs.status, GameStatus::Running);
    assert_eq!(gs.next, None);
    // the asset arrives
    loading.poll(&vec![AssetLoadState::Loaded]);
    assert!(loading.initial_ready());
    game_state_transitions(&mut gs, &loading);
    assert_eq!(gs.status, GameStatus::Running);
    assert_eq!(gs.next, Some(MyGameScenes::Menu));
    game_state_transitions(&mut gs, &loading);
    assert_eq!(gs.status, GameStatus::Exiting);
    assert_eq!(gs.current, Some(MyGameScenes::Loading));
    game_state_transitions(&mut gs, &loading);
    assert_eq!(gs.status, GameStatus::Entering);
    assert_eq!(gs.current, Some(MyGameScenes::Menu));
    game_state_transitions(&mut gs, &loading);
    assert_eq!(gs.status, GameStatus::Running);
    assert_eq!(gs.current, Some(MyGameScenes::Menu));
    assert_eq!(gs.next, None);
}
