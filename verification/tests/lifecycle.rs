//! Tests for the session lifecycle controller, the session builders, the
//! input encoder and the lobby editing.

use arena_core::input::{input, encode_input, Input, InputResolution, KeySet, LocalHandles};
use arena_core::round::{FrameCount, NUM_PLAYERS};
use arena_core::session::{
    create_ggrs_session, create_synctest_session, update_lobby_btn, update_lobby_id, AppState,
    ConnectData, LobbyID, MatchData, PlayerKind, SessionController, SessionMode, SetupError, FPS,
};

fn all_keys(up: bool, down: bool, left: bool, right: bool) -> KeySet {
    KeySet { up, down, left, right }
}

#[test]
fn encode_bits() {
    assert_eq!(encode_input(&all_keys(false, false, false, false)).inp, 0);
    assert_eq!(encode_input(&all_keys(true, false, false, false)).inp, 1);
    assert_eq!(encode_input(&all_keys(false, true, false, false)).inp, 2);
    assert_eq!(encode_input(&all_keys(false, false, true, false)).inp, 4);
    assert_eq!(encode_input(&all_keys(false, false, false, true)).inp, 8);
    assert_eq!(encode_input(&all_keys(true, true, true, true)).inp, 15);
}

#[test]
fn input_partition_between_local_players() {
    let first = all_keys(true, false, false, false);
    let second = all_keys(false, false, true, false);

    // A sole local player reads the first key set whatever its handle.
    let solo = LocalHandles { handles: vec![1] };
    let out = input(&solo, &first, &second);
    assert_eq!(out.len(), 1);
    assert_eq!(out[0].inp, 1);

    // Two local players split the sets: slot 0 the first, the other slot
    // the second — never ambiguous, never overlapping.
    let both = LocalHandles { handles: vec![0, 1] };
    let out = input(&both, &first, &second);
    assert_eq!(out.len(), 2);
    assert_eq!(out[0].inp, 1);
    assert_eq!(out[1].inp, 4);
}

#[test]
fn synctest_session_validation() {
    assert!(matches!(
        create_synctest_session(0, FPS),
        Err(SetupError::InvalidPlayerCount)
    ));
    assert!(matches!(
        create_synctest_session(5, FPS),
        Err(SetupError::InvalidPlayerCount)
    ));
    assert!(matches!(
        create_synctest_session(2, 0),
        Err(SetupError::InvalidFps)
    ));
    let cfg = create_synctest_session(2, FPS).unwrap();
    assert!(matches!(cfg.mode, SessionMode::LocalSelfTest));
    assert_eq!(cfg.num_players, 2);
    assert_eq!(cfg.local_handles.handles, vec![0, 1]);
}

#[test]
fn p2p_session_validation_and_local_handles() {
    let players = vec![PlayerKind::Remote, PlayerKind::Local];
    assert!(matches!(
        create_ggrs_session(2, 0, &players),
        Err(SetupError::InvalidFps)
    ));
    assert!(matches!(
        create_ggrs_session(3, FPS, &players),
        Err(SetupError::InvalidPlayerCount)
    ));
    let cfg = create_ggrs_session(2, FPS, &players).unwrap();
    assert!(matches!(cfg.mode, SessionMode::NetworkedP2P));
    assert_eq!(cfg.local_handles.handles, vec![1]);

    let both = vec![PlayerKind::Local, PlayerKind::Local];
    let cfg = create_ggrs_session(2, FPS, &both).unwrap();
    assert_eq!(cfg.local_handles.handles, vec![0, 1]);
}

#[test]
fn lobby_id_editing() {
    let mut lobby = LobbyID(Vec::new());
    update_lobby_id(&mut lobby, &vec!['1', 'a', '2'], false);
    assert_eq!(lobby.0, vec!['1', '2']);
    assert!(!update_lobby_btn(&lobby));
    update_lobby_id(&mut lobby, &vec!['3', '4', '5'], false);
    assert_eq!(lobby.0, vec!['1', '2', '3', '4']);
    assert!(update_lobby_btn(&lobby));
    update_lobby_id(&mut lobby, &Vec::new(), true);
    assert_eq!(lobby.0, vec!['1', '2', '3']);
    update_lobby_id(&mut lobby, &vec!['9'], true);
    assert_eq!(lobby.0, vec!['1', '2', '3']);
}

#[test]
fn local_round_lifecycle() {
    let mut c = SessionController::new();
    assert!(matches!(c.state, AppState::AssetLoading));
    c.assets_loaded();
    assert!(matches!(c.state, AppState::MenuMain));
    c.menu_local_match();
    assert!(matches!(c.state, AppState::RoundLocal));
    let round = c.round.as_ref().unwrap();
    assert_eq!(round.actors.len(), NUM_PLAYERS);
    assert_eq!(round.frame, FrameCount { frame: 0 });
    assert!(matches!(round.session.mode, SessionMode::LocalSelfTest));

    // A couple of ticks through the controller.
    let inputs: Vec<(Input, InputResolution)> = vec![
        (Input { inp: 1 }, InputResolution::Confirmed),
        (Input { inp: 0 }, InputResolution::Confirmed),
    ];
    c.round_tick(&inputs);
    c.round_tick(&inputs);
    assert_eq!(c.round.as_ref().unwrap().frame, FrameCount { frame: 2 });

    // Round end: the round is torn down, the result carried on.
    c.check_win(
        true,
        MatchData {
            result: "Orange won!".to_owned(),
        },
    );
    assert!(matches!(c.state, AppState::Win));
    assert!(c.round.is_none());
    assert_eq!(c.match_data.as_ref().unwrap().result, "Orange won!");
    c.win_acknowledged();
    assert!(matches!(c.state, AppState::MenuMain));
    assert!(c.match_data.is_none());
}

#[test]
fn abort_mid_connect_leaks_nothing() {
    let mut c = SessionController::new();
    c.assets_loaded();
    c.menu_online();
    assert!(matches!(c.state, AppState::MenuOnline));
    c.online_lobby_chosen(ConnectData {
        lobby_id: "bevy1234".to_owned(),
    });
    assert!(matches!(c.state, AppState::MenuConnect));

    // The lobby never fills: only this process ever shows up.
    let lonely = vec![PlayerKind::Local];
    for _ in 0..10 {
        c.connect(&lonely);
        assert!(matches!(c.state, AppState::MenuConnect));
        assert!(c.round.is_none());
    }

    // The user gives up: back to the menu with zero round-scoped resources.
    c.abort_to_menu();
    assert!(matches!(c.state, AppState::MenuMain));
    assert!(c.round.is_none());
    assert!(c.connect.is_none());

    // Aborting again is harmless.
    c.abort_to_menu();
    assert!(matches!(c.state, AppState::MenuMain));
    assert!(c.round.is_none());
}

#[test]
fn online_round_forms_when_lobby_fills() {
    let mut c = SessionController::new();
    c.assets_loaded();
    c.menu_online();
    c.online_lobby_chosen(ConnectData {
        lobby_id: "bevy0042".to_owned(),
    });
    let full = vec![PlayerKind::Local, PlayerKind::Remote];
    c.connect(&full);
    assert!(matches!(c.state, AppState::RoundOnline));
    let round = c.round.as_ref().unwrap();
    assert!(matches!(round.session.mode, SessionMode::NetworkedP2P));
    assert_eq!(round.session.local_handles.handles, vec![0]);
    assert_eq!(round.actors.len(), NUM_PLAYERS);

    // Mid-round abort also releases everything.
    c.abort_to_menu();
    assert!(matches!(c.state, AppState::MenuMain));
    assert!(c.round.is_none());
}
