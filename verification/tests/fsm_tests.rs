use pongo::fsm::{FsmState, GameAction, GameFsm};

#[test]
fn test_initial_state() {
    let fsm = GameFsm::new();
    assert_eq!(fsm.state(), FsmState::Idle);
}

#[test]
fn test_valid_transition() {
    let mut fsm = GameFsm::new();
    let result = fsm.transition(GameAction::StartLocal);
    assert!(result.success());
    assert_eq!(fsm.state(), FsmState::CountdownLocal);
}

#[test]
fn test_invalid_transition() {
    let mut fsm = GameFsm::new();
    let result = fsm.transition(GameAction::GameOver);
    assert!(!result.success());
    assert_eq!(fsm.state(), FsmState::Idle);
}

#[test]
fn test_local_game_flow() {
    let mut fsm = GameFsm::new();
    fsm.transition(GameAction::StartLocal);
    fsm.transition(GameAction::CountdownDone);
    assert_eq!(fsm.state(), FsmState::PlayingLocal);
    fsm.transition(GameAction::GameOver);
    assert_eq!(fsm.state(), FsmState::GameOverLocal);
    fsm.transition(GameAction::PlayAgain);
    assert_eq!(fsm.state(), FsmState::CountdownLocal);
}

#[test]
fn test_pause_resume_local() {
    let mut fsm = GameFsm::new();
    fsm.transition(GameAction::StartLocal);
    fsm.transition(GameAction::CountdownDone);
    assert_eq!(fsm.state(), FsmState::PlayingLocal);

    assert!(fsm.transition(GameAction::Pause).success());
    assert_eq!(fsm.state(), FsmState::Paused);

    assert!(fsm.transition(GameAction::Resume).success());
    assert_eq!(fsm.state(), FsmState::PlayingLocal);
}

#[test]
fn test_quit_from_paused() {
    let mut fsm = GameFsm::new();
    fsm.transition(GameAction::StartLocal);
    fsm.transition(GameAction::CountdownDone);
    fsm.transition(GameAction::Pause);
    assert!(fsm.transition(GameAction::Quit).success());
    assert_eq!(fsm.state(), FsmState::Idle);
}

#[test]
fn test_multiplayer_cannot_pause() {
    let mut fsm = GameFsm::new();
    fsm.transition(GameAction::CreateMatch);
    fsm.transition(GameAction::Connected);
    fsm.transition(GameAction::OpponentJoined);
    fsm.transition(GameAction::CountdownDone);
    assert_eq!(fsm.state(), FsmState::PlayingMulti);
    // Pause is local-only; it must not apply during multiplayer.
    assert!(!fsm.transition(GameAction::Pause).success());
    assert_eq!(fsm.state(), FsmState::PlayingMulti);
}

#[test]
fn test_multiplayer_flow() {
    let mut fsm = GameFsm::new();
    fsm.transition(GameAction::CreateMatch);
    assert_eq!(fsm.state(), FsmState::Connecting);
    fsm.transition(GameAction::Connected);
    assert_eq!(fsm.state(), FsmState::Waiting);
    fsm.transition(GameAction::OpponentJoined);
    assert_eq!(fsm.state(), FsmState::CountdownMulti);
    fsm.transition(GameAction::CountdownDone);
    assert_eq!(fsm.state(), FsmState::PlayingMulti);
}

#[test]
fn test_reconnect_flow() {
    let mut fsm = GameFsm::new();
    fsm.transition(GameAction::CreateMatch);
    fsm.transition(GameAction::Connected);
    fsm.transition(GameAction::OpponentJoined);
    fsm.transition(GameAction::CountdownDone);
    assert_eq!(fsm.state(), FsmState::PlayingMulti);

    // Connection drops mid-match -> Reconnecting (not straight to Disconnected).
    assert!(fsm.transition(GameAction::ConnectionLost).success());
    assert_eq!(fsm.state(), FsmState::Reconnecting);

    // Successful reconnect resumes via the ready-countdown.
    assert!(fsm.transition(GameAction::Reconnected).success());
    assert_eq!(fsm.state(), FsmState::CountdownMulti);
}

#[test]
fn test_reconnect_gives_up() {
    let mut fsm = GameFsm::new();
    fsm.transition(GameAction::CreateMatch);
    fsm.transition(GameAction::Connected);
    fsm.transition(GameAction::OpponentJoined);
    fsm.transition(GameAction::CountdownDone);
    fsm.transition(GameAction::ConnectionLost);
    assert_eq!(fsm.state(), FsmState::Reconnecting);

    assert!(fsm.transition(GameAction::ReconnectFailed).success());
    assert_eq!(fsm.state(), FsmState::Disconnected);
}

#[test]
fn test_transition_str() {
    let mut fsm = GameFsm::new();
    let result = fsm.transition_str("START_LOCAL");
    assert!(result.success());
    assert_eq!(fsm.state(), FsmState::CountdownLocal);
}

#[test]
fn test_transition_str_unknown_action_is_refused() {
    let mut fsm = GameFsm::new();
    let result = fsm.transition_str("start_local");
    assert!(!result.success());
    assert_eq!(result.from_state(), FsmState::Idle);
    assert_eq!(result.to_state(), FsmState::Idle);
    assert_eq!(fsm.state(), FsmState::Idle);
}

#[test]
fn test_transition_result_reports_both_states() {
    let mut fsm = GameFsm::default();
    let r = fsm.transition_str("JOIN_MATCH");
    assert!(r.success());
    assert_eq!(r.from_state(), FsmState::Idle);
    assert_eq!(r.to_state(), FsmState::Connecting);
}

#[test]
fn test_state_string_names() {
    let mut fsm = GameFsm::new();
    assert_eq!(fsm.state_string(), "Idle");
    fsm.transition_str("CREATE_MATCH");
    assert_eq!(fsm.state_string(), "Connecting");
    fsm.transition_str("CONNECTED");
    fsm.transition_str("OPPONENT_JOINED");
    assert_eq!(fsm.state_string(), "CountdownMulti");
    fsm.transition_str("CONNECTION_LOST");
    assert_eq!(fsm.state_string(), "Reconnecting");
}

#[test]
fn test_every_state_leads_back_to_idle() {
    // Local game abandoned mid-countdown.
    let mut fsm = GameFsm::new();
    fsm.transition(GameAction::StartLocal);
    assert!(fsm.transition(GameAction::Quit).success());
    assert_eq!(fsm.state(), FsmState::Idle);
    // Multiplayer dropped mid-match: Disconnected, then Leave.
    fsm.transition(GameAction::CreateMatch);
    fsm.transition(GameAction::Connected);
    fsm.transition(GameAction::OpponentJoined);
    fsm.transition(GameAction::CountdownDone);
    assert!(fsm.transition(GameAction::Disconnected).success());
    assert_eq!(fsm.state(), FsmState::Disconnected);
    assert!(fsm.transition(GameAction::Leave).success());
    assert_eq!(fsm.state(), FsmState::Idle);
}

#[test]
fn test_local_states_refuse_multiplayer_actions() {
    let mut fsm = GameFsm::new();
    fsm.transition(GameAction::StartLocal);
    fsm.transition(GameAction::CountdownDone);
    assert!(!fsm.transition(GameAction::ConnectionLost).success());
    assert!(!fsm.transition(GameAction::RematchStarted).success());
    assert_eq!(fsm.state(), FsmState::PlayingLocal);
}
