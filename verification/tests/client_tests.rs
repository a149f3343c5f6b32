use pongo::input::{handle_key_down, handle_key_up};
use pongo::lobby::{code_from_indices, forward_error_status, generate_match_code, match_code_is_valid};
use pongo::network::{
    create_input_message, create_join_message, create_ping_message, create_restart_message,
    handle_message,
};
use pongo::prediction::PredictionTicks;
use pongo::proto::{GameStateSnapshot, C2S, S2C};
use pongo::session::{restarts_local_play, snaps_own_paddle, DisplayUpdate, MatchEvent, Session};

fn snapshot(tick: u32, left: f32, right: f32, sl: u8, sr: u8) -> GameStateSnapshot {
    GameStateSnapshot {
        tick,
        ball_x_bits: 20.0f32.to_bits(),
        ball_y_bits: 20.0f32.to_bits(),
        ball_vx_bits: 10.0f32.to_bits(),
        ball_vy_bits: (-5.0f32).to_bits(),
        paddle_left_y_bits: left.to_bits(),
        paddle_right_y_bits: right.to_bits(),
        score_left: sl,
        score_right: sr,
    }
}

#[test]
fn test_key_down_mapping() {
    assert_eq!(handle_key_down("ArrowUp", 0), -1);
    assert_eq!(handle_key_down("w", 1), -1);
    assert_eq!(handle_key_down("W", 0), -1);
    assert_eq!(handle_key_down("ArrowDown", -1), 1);
    assert_eq!(handle_key_down("s", 0), 1);
    assert_eq!(handle_key_down("S", 0), 1);
    assert_eq!(handle_key_down("x", 1), 1, "other keys keep the direction");
    assert_eq!(handle_key_down("Escape", -1), -1);
}

#[test]
fn test_key_up_mapping() {
    assert_eq!(handle_key_up("ArrowUp", -1), 0);
    assert_eq!(handle_key_up("S", 1), 0);
    assert_eq!(handle_key_up("ArrowDown", -1), 0, "releasing any movement key stops");
    assert_eq!(handle_key_up("p", 1), 1);
}

#[test]
fn test_join_message() {
    let bytes = create_join_message("AB3CD").unwrap();
    assert_eq!(bytes, vec![0, b'A', b'B', b'3', b'C', b'D']);
    // A code must be exactly five characters.
    for bad in ["ABC", "ABCDEF", "AB3CDEF", "", "ÄBCD"] {
        assert_eq!(
            create_join_message(bad),
            Err("Match code must be exactly 5 characters".to_string())
        );
    }
    // Five characters, one of them beyond ASCII: the first five bytes travel.
    assert_eq!(
        create_join_message("ABCDé").unwrap(),
        vec![0, b'A', b'B', b'C', b'D', 0xC3]
    );
    assert_eq!(C2S::from_bytes(&bytes), Ok(C2S::Join { code: *b"AB3CD" }));
}

#[test]
fn test_other_client_messages() {
    assert_eq!(create_restart_message().unwrap(), vec![3]);
    assert_eq!(create_ping_message(300).unwrap(), vec![2, 0xAC, 0x02]);
    let input = create_input_message(1, 12.0f32.to_bits(), 5).unwrap();
    assert_eq!(input, vec![1, 1, 0, 0, 0x40, 0x41, 5]);
}

// The session holds the authoritative snapshot that the display starts
// from; the smoothed display itself is kept by the host.
#[test]
fn test_new_gamestate_has_initial_values() {
    let s = Session::new();
    assert_eq!(f32::from_bits(s.current.ball_x_bits), 16.0);
    assert_eq!(f32::from_bits(s.current.ball_y_bits), 12.0);
    assert_eq!(f32::from_bits(s.current.paddle_left_y_bits), 12.0);
    assert_eq!(f32::from_bits(s.current.paddle_right_y_bits), 12.0);
    assert_eq!(s.get_scores(), (0, 0));
    assert!(s.get_player_id().is_none());
    assert_eq!(s.match_event, MatchEvent::NoEvent);
}

#[test]
fn test_reset_clears_all_state() {
    let mut s = Session::new();
    s.set_scores(3, 5);
    s.set_player_id(1);
    s.set_winner(0);
    s.set_current(snapshot(100, 5.0, 19.0, 3, 5));
    s.reset();
    assert_eq!(s.get_scores(), (0, 0));
    let c = s.get_current_snapshot();
    assert_eq!(f32::from_bits(c.ball_x_bits), 16.0);
    assert_eq!(f32::from_bits(c.ball_y_bits), 12.0);
    assert_eq!(f32::from_bits(c.paddle_left_y_bits), 12.0);
    assert_eq!(f32::from_bits(c.paddle_right_y_bits), 12.0);
    assert_eq!(s.winner, None);
    assert_eq!(s.get_player_id(), Some(1));
    assert_eq!(s.match_event, MatchEvent::NoEvent);
}

#[test]
fn test_handle_messages() {
    let mut s = Session::new();
    assert_eq!(handle_message(S2C::Welcome { player_id: 1 }, &mut s), Ok(DisplayUpdate::Keep));
    assert_eq!(s.get_player_id(), Some(1));
    assert_eq!(handle_message(S2C::Countdown { seconds: 3 }, &mut s), Ok(DisplayUpdate::Reset));
    assert_eq!(s.take_match_event(), "countdown:3");
    assert_eq!(s.take_match_event(), "", "the event is taken once");
    let snap = snapshot(7, 4.0, 19.0, 2, 1);
    assert_eq!(handle_message(S2C::GameState(snap), &mut s), Ok(DisplayUpdate::NewSnapshot));
    assert_eq!(s.get_scores(), (2, 1));
    assert_eq!(s.get_current_snapshot(), snap);
    assert_eq!(f32::from_bits(s.own_paddle_y_bits()), 19.0, "player 1 owns the right paddle");
    assert_eq!(handle_message(S2C::GameOver { winner: 1 }, &mut s), Ok(DisplayUpdate::Keep));
    assert_eq!(s.winner_label(), Some("you".to_string()));
    assert_eq!(handle_message(S2C::OpponentReconnecting, &mut s), Ok(DisplayUpdate::Keep));
    assert_eq!(s.take_match_event(), "opponent_reconnecting");
    let before = s;
    assert_eq!(
        handle_message(S2C::Pong { t_ms: 1 }, &mut s),
        Err("Pong message should be handled separately".to_string())
    );
    assert_eq!(s, before);
    assert_eq!(handle_message(S2C::MatchFound, &mut s), Ok(DisplayUpdate::Reset));
    assert_eq!(s.winner_label(), None);
    assert_eq!(s.take_match_event(), "match_found");
}

#[test]
fn test_winner_label_for_opponent_and_unknown_player() {
    let mut s = Session::new();
    s.set_winner(0);
    assert_eq!(s.winner_label(), Some("opponent".to_string()));
    s.set_player_id(0);
    assert_eq!(s.winner_label(), Some("you".to_string()));
}

#[test]
fn test_match_event_names() {
    let mut s = Session::new();
    for (e, name) in [
        (MatchEvent::GameStart, "game_start"),
        (MatchEvent::OpponentDisconnected, "opponent_disconnected"),
        (MatchEvent::OpponentReconnected, "opponent_reconnected"),
        (MatchEvent::Countdown(10), "countdown:10"),
        (MatchEvent::Countdown(255), "countdown:255"),
        (MatchEvent::Countdown(0), "countdown:0"),
    ] {
        s.match_event = e;
        assert_eq!(s.take_match_event(), name);
        assert_eq!(s.match_event, MatchEvent::NoEvent);
    }
}

#[test]
fn test_match_codes() {
    for _ in 0..20 {
        let code = generate_match_code();
        assert_eq!(code.len(), 5);
        assert!(code.chars().all(|c| c.is_ascii_uppercase() || c.is_ascii_digit()));
        assert!(match_code_is_valid(&code));
    }
    assert!(!match_code_is_valid("ABCD"));
    assert!(!match_code_is_valid("ABCDEF"));
}

#[test]
fn test_forward_error_status() {
    assert_eq!(forward_error_status("Error: Exceeded allowed volume of requests"), 503);
    assert_eq!(forward_error_status("limit of the free tier reached"), 503);
    assert_eq!(forward_error_status("connection reset"), 500);
    assert_eq!(forward_error_status(""), 500);
}

#[test]
fn test_reconcile_sync() {
    let mut t = PredictionTicks::new();
    t.start(100);
    t.advance();
    assert!(!t.reconcile(101), "server caught up: drop the prediction");
    assert_eq!((t.last_reconciled_tick, t.predicted_tick), (101, 101));
}

#[test]
fn test_reconcile_behind_small() {
    let mut t = PredictionTicks::new();
    t.start(100);
    for _ in 0..5 {
        t.advance();
    }
    assert!(t.reconcile(103), "keep a small lead");
    assert_eq!((t.last_reconciled_tick, t.predicted_tick), (103, 105));
}

#[test]
fn test_reconcile_behind_large() {
    let mut t = PredictionTicks::new();
    t.start(100);
    for _ in 0..30 {
        t.advance();
    }
    assert!(!t.reconcile(100), "a lead of 30 ticks is dropped");
    assert_eq!((t.last_reconciled_tick, t.predicted_tick), (100, 100));
    t.start(100);
    for _ in 0..20 {
        t.advance();
    }
    assert!(t.reconcile(100), "a lead of exactly 20 ticks is kept");
}

#[test]
fn code_from_indices_spells_the_alphabet() {
    assert_eq!(code_from_indices(&vec![0, 25, 26, 35, 7]), "AZ09H");
    assert_eq!(code_from_indices(&vec![]), "");
}

#[test]
fn local_play_restarts_on_match_found_and_countdown() {
    assert!(restarts_local_play(&S2C::MatchFound));
    assert!(restarts_local_play(&S2C::Countdown { seconds: 2 }));
    assert!(!restarts_local_play(&S2C::GameStart));
    assert!(!restarts_local_play(&S2C::Pong { t_ms: 1 }));
}

#[test]
fn own_paddle_snaps_once_per_multiplayer_match() {
    let state = S2C::GameState(snapshot(1, 5.0, 19.0, 0, 0));
    assert!(snaps_own_paddle(&state, false, false));
    assert!(!snaps_own_paddle(&state, false, true));
    assert!(!snaps_own_paddle(&state, true, false));
    assert!(!snaps_own_paddle(&S2C::GameStart, false, false));
}
