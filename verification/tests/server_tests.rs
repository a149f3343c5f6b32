use pongo::game::{reset_for_rematch, Events, NetQueue, PlayerId, Score};
use pongo::proto::{GameStateSnapshot, C2S, S2C};
use pongo::server::{
    catch_up, generate_state_message, should_broadcast_state, Alarm, Effect, MatchCore,
    MatchState, RECONNECT_GRACE_MS,
};

const NOW_MS: u64 = 1000;

fn snapshot() -> GameStateSnapshot {
    GameStateSnapshot {
        tick: 0,
        ball_x_bits: 16.0f32.to_bits(),
        ball_y_bits: 12.0f32.to_bits(),
        ball_vx_bits: 12.0f32.to_bits(),
        ball_vy_bits: 0,
        paddle_left_y_bits: 12.0f32.to_bits(),
        paddle_right_y_bits: 12.0f32.to_bits(),
        score_left: 0,
        score_right: 0,
    }
}

#[test]
fn test_game_initialization() {
    let gs = MatchCore::new();
    assert_eq!(gs.client_count(), 0);
    assert_eq!(gs.match_state, MatchState::Waiting);
}

#[test]
fn test_add_player_limit() {
    let mut gs = MatchCore::new();

    let res0 = gs.add_player(NOW_MS);
    assert!(res0.is_some());
    let (pid0, empty0) = res0.unwrap();
    assert_eq!(pid0, 0);
    assert!(empty0);

    let res1 = gs.add_player(NOW_MS);
    assert!(res1.is_some());
    let (pid1, empty1) = res1.unwrap();
    assert_eq!(pid1, 1);
    assert!(!empty1);

    let res2 = gs.add_player(NOW_MS);
    assert!(res2.is_none());
}

#[test]
fn test_game_start_condition() {
    let mut gs = MatchCore::new();

    gs.add_player(NOW_MS);
    assert_eq!(gs.match_state, MatchState::Waiting);

    gs.add_player(NOW_MS);
    // With two players, match should transition to Countdown (not Playing directly)
    assert_eq!(gs.match_state, MatchState::Countdown);
}

#[test]
fn test_player_removal() {
    let mut gs = MatchCore::new();

    gs.add_player(NOW_MS);
    gs.remove_player(0);

    assert_eq!(gs.client_count(), 0);
}

#[test]
fn test_handle_input() {
    let mut gs = MatchCore::new();
    gs.add_player(NOW_MS);
    gs.take_effects();

    gs.handle_input(0, 1.0f32.to_bits(), NOW_MS); // Move down

    let effects = gs.take_effects();
    assert!(!effects.is_empty());
    match effects[0] {
        Effect::QueueInput(pid, y_bits) => {
            assert_eq!(pid, 0);
            assert_eq!(f32::from_bits(y_bits), 1.0);
        }
        other => panic!("unexpected effect {:?}", other),
    }
}

#[test]
fn test_disconnect_midmatch_pauses_for_reconnect() {
    let mut gs = MatchCore::new();
    gs.add_player(NOW_MS);
    gs.add_player(NOW_MS);
    gs.match_state = MatchState::Playing; // pretend the countdown finished

    gs.handle_disconnect(0, NOW_MS);

    assert_eq!(gs.match_state, MatchState::Paused);
    assert_eq!(gs.client_count(), 2, "the slot is held open during grace");
    assert!(!gs.slot(0).unwrap().connected);
    assert!(gs.slot(1).unwrap().connected);
    assert!(gs.reconnect_deadline_ms > 0);
}

#[test]
fn test_reconnect_resumes_match() {
    let mut gs = MatchCore::new();
    gs.add_player(NOW_MS);
    gs.add_player(NOW_MS);
    gs.match_state = MatchState::Playing;
    gs.handle_disconnect(0, NOW_MS);
    assert_eq!(gs.match_state, MatchState::Paused);

    let pid = gs.reconnect_player(NOW_MS);
    assert_eq!(pid, Some(0));
    assert_eq!(gs.match_state, MatchState::Countdown);
    assert_eq!(gs.client_count(), 2);
    assert!(gs.slot(0).unwrap().connected);
    assert_eq!(gs.reconnect_deadline_ms, 0);
}

#[test]
fn test_grace_expiry_forfeits_to_remaining_player() {
    let mut gs = MatchCore::new();
    gs.add_player(NOW_MS);
    gs.add_player(NOW_MS);
    gs.match_state = MatchState::Playing;
    gs.handle_disconnect(0, NOW_MS);
    assert_eq!(gs.match_state, MatchState::Paused);

    // Grace-expiry path (what the alarm does): remove the dropped player.
    gs.remove_player(0);
    assert_eq!(gs.match_state, MatchState::GameOver);
    assert_eq!(gs.client_count(), 1);
    assert!(gs.has_player(1));
}

#[test]
fn test_disconnect_while_waiting_removes_immediately() {
    let mut gs = MatchCore::new();
    gs.add_player(NOW_MS);
    // Only one player and still Waiting: a disconnect removes rather than pausing.
    gs.handle_disconnect(0, NOW_MS);
    assert_eq!(gs.match_state, MatchState::Waiting);
    assert_eq!(gs.client_count(), 0);
}

#[test]
fn test_broadcast_state() {
    let mut gs = MatchCore::new();
    gs.add_player(NOW_MS);
    gs.take_effects();

    gs.broadcast_state(snapshot());

    let effects = gs.take_effects();
    assert_eq!(effects.len(), 1);
    match effects[0] {
        Effect::Send(0, msg @ S2C::GameState(_)) => {
            // The bytes the host sends decode to the snapshot.
            let bytes = msg.to_bytes().unwrap();
            assert_eq!(S2C::from_bytes(&bytes), Ok(S2C::GameState(snapshot())));
        }
        _ => panic!("Expected GameState message"),
    }
}

#[test]
fn test_player_id_reuses_free_slot_after_removal() {
    let mut gs = MatchCore::new();
    gs.add_player(NOW_MS); // id 0
    gs.add_player(NOW_MS); // id 1

    // Player 1 leaves; slot 1 is now free while player 0 remains.
    gs.remove_player(1);
    assert_eq!(gs.client_count(), 1);
    assert!(gs.has_player(0));

    // A new join must take the free slot (1), not collide with the existing player 0.
    let (pid, _) = gs.add_player(NOW_MS).expect("room has space");
    assert_eq!(
        pid, 1,
        "new player takes the free slot, not the occupied id 0"
    );
    assert!(gs.has_player(0) && gs.has_player(1));
}

#[test]
fn test_restart_match_resets_state() {
    let mut gs = MatchCore::new();
    gs.add_player(NOW_MS);
    gs.add_player(NOW_MS);

    // Reach GameOver with a stale score, tick and pending input. (The
    // respawn timer is a float of the host's simulation, reset with the ball.)
    let mut score = Score { left: 5, right: 0 };
    let mut events = Events::new();
    events.left_scored = true;
    let mut queue = NetQueue::new();
    queue.push_input(PlayerId(0), 3.0f32.to_bits());
    gs.tick = 500;
    gs.match_state = MatchState::GameOver;
    gs.take_effects();

    gs.restart_match();

    assert_eq!(gs.match_state, MatchState::Countdown);
    assert_eq!(gs.countdown_remaining, 3);
    assert_eq!(gs.tick, 0);
    let effects = gs.take_effects();
    assert_eq!(
        effects[0],
        Effect::ResetWorld,
        "rematch must reset the world (score, respawn timer) so the ball serves immediately"
    );
    for e in &effects {
        if *e == Effect::ResetWorld {
            reset_for_rematch(&mut score, &mut events, &mut queue);
        }
    }
    assert_eq!(score.left, 0);
    assert_eq!(score.right, 0);
    assert!(!events.left_scored);
    assert!(queue.inputs.is_empty());
    assert_eq!(
        effects
            .iter()
            .filter(|e| matches!(e, Effect::SpawnPaddle(_)))
            .count(),
        2,
        "both paddles re-spawn on restart"
    );
    assert_eq!(
        &effects[effects.len() - 2..],
        &[Effect::Send(0, S2C::Countdown { seconds: 3 }), Effect::Send(1, S2C::Countdown { seconds: 3 })]
    );

    // Restart only fires from GameOver.
    gs.match_state = MatchState::Playing;
    gs.restart_match();
    assert_eq!(
        gs.match_state,
        MatchState::Playing,
        "restart is a no-op outside GameOver"
    );
}

#[test]
fn test_countdown_progression_starts_game() {
    let mut gs = MatchCore::new();
    gs.add_player(NOW_MS);
    gs.add_player(NOW_MS);
    assert_eq!(gs.match_state, MatchState::Countdown);

    // 3 -> 2 -> 1 -> 0 broadcasts keep the match in Countdown...
    gs.tick_countdown();
    gs.tick_countdown();
    gs.tick_countdown();
    assert_eq!(gs.match_state, MatchState::Countdown);

    // ...then the next tick starts the game.
    gs.tick_countdown();
    assert_eq!(gs.match_state, MatchState::Playing);
}

#[test]
fn test_join_effects_order() {
    let mut gs = MatchCore::new();
    gs.handle_c2s(None, C2S::Join { code: *b"ABCDE" }, NOW_MS);
    assert_eq!(
        gs.take_effects(),
        vec![
            Effect::AcceptClient(0),
            Effect::SpawnPaddle(0),
            Effect::AttachPlayer(0),
            Effect::Reply(S2C::Welcome { player_id: 0 }),
            Effect::SendState(0),
            Effect::StartAlarm,
        ]
    );
    gs.handle_c2s(None, C2S::Join { code: *b"ABCDE" }, NOW_MS);
    assert_eq!(
        gs.take_effects(),
        vec![
            Effect::AcceptClient(1),
            Effect::SpawnPaddle(1),
            Effect::Send(0, S2C::MatchFound),
            Effect::Send(1, S2C::MatchFound),
            Effect::AttachPlayer(1),
            Effect::Reply(S2C::Welcome { player_id: 1 }),
            Effect::SendState(0),
            Effect::SendState(1),
        ]
    );
    // A third join is turned away without any effect.
    gs.handle_c2s(None, C2S::Join { code: *b"ABCDE" }, NOW_MS);
    assert!(gs.take_effects().is_empty());
}

#[test]
fn test_join_while_paused_resumes_dropped_slot() {
    let mut gs = MatchCore::new();
    gs.add_player(NOW_MS);
    gs.add_player(NOW_MS);
    gs.match_state = MatchState::Playing;
    gs.handle_disconnect(1, NOW_MS);
    gs.take_effects();
    gs.handle_c2s(None, C2S::Join { code: *b"ABCDE" }, 5000);
    assert_eq!(
        gs.take_effects(),
        vec![
            Effect::AcceptClient(1),
            Effect::Send(0, S2C::OpponentReconnected),
            Effect::Send(1, S2C::OpponentReconnected),
            Effect::AttachPlayer(1),
            Effect::Reply(S2C::Welcome { player_id: 1 }),
            Effect::ReplyState,
        ]
    );
    assert_eq!(gs.slot(1).unwrap().last_activity, 5);
}

#[test]
fn test_ping_refreshes_sender_and_pongs() {
    let mut gs = MatchCore::new();
    gs.add_player(NOW_MS);
    gs.take_effects();
    gs.handle_c2s(Some(0), C2S::Ping { t_ms: 77 }, 42_000);
    assert_eq!(gs.slot(0).unwrap().last_activity, 42);
    assert_eq!(gs.take_effects(), vec![Effect::Reply(S2C::Pong { t_ms: 77 })]);
}

#[test]
fn test_input_from_unknown_player_is_ignored() {
    let mut gs = MatchCore::new();
    gs.add_player(NOW_MS);
    gs.take_effects();
    gs.handle_c2s(None, C2S::Input { player_id: 1, y_bits: 0, seq: 3 }, NOW_MS);
    assert!(gs.take_effects().is_empty());
}

#[test]
fn test_step_detects_winner() {
    let mut gs = MatchCore::new();
    gs.add_player(NOW_MS);
    gs.add_player(NOW_MS);
    gs.match_state = MatchState::Playing;
    gs.take_effects();
    assert_eq!(gs.step(&Score { left: 4, right: 2 }, 5), None);
    assert_eq!(gs.tick, 1);
    assert_eq!(gs.step(&Score { left: 4, right: 5 }, 5), Some(1));
    assert_eq!(gs.match_state, MatchState::GameOver);
    assert_eq!(
        gs.take_effects(),
        vec![Effect::Send(0, S2C::GameOver { winner: 1 }), Effect::Send(1, S2C::GameOver { winner: 1 })]
    );
    // No further ticks once the game is over.
    assert_eq!(gs.step(&Score { left: 4, right: 5 }, 5), None);
    assert_eq!(gs.tick, 2);
}

#[test]
fn test_forfeit_mid_game() {
    let mut gs = MatchCore::new();
    gs.add_player(NOW_MS);
    gs.add_player(NOW_MS);
    gs.match_state = MatchState::Playing;
    gs.take_effects();
    gs.remove_player(1);
    assert_eq!(
        gs.take_effects(),
        vec![
            Effect::RemoveClient(1),
            Effect::DespawnPaddle(1),
            Effect::Send(0, S2C::GameOver { winner: 0 }),
        ]
    );
    assert_eq!(gs.match_state, MatchState::GameOver);
}

#[test]
fn test_alarm_by_state() {
    let mut gs = MatchCore::new();
    assert_eq!(gs.on_alarm(NOW_MS), Alarm::Stop);
    gs.add_player(NOW_MS);
    assert_eq!(gs.on_alarm(NOW_MS), Alarm::Again(500));
    gs.add_player(NOW_MS);
    gs.take_effects();
    assert_eq!(gs.on_alarm(NOW_MS), Alarm::Again(1000));
    assert_eq!(gs.countdown_remaining, 2);
    assert_eq!(
        gs.take_effects(),
        vec![Effect::Send(0, S2C::Countdown { seconds: 3 }), Effect::Send(1, S2C::Countdown { seconds: 3 })]
    );
    gs.match_state = MatchState::Playing;
    assert_eq!(gs.on_alarm(NOW_MS), Alarm::Simulate);
}

#[test]
fn test_alarm_removes_idle_players() {
    let mut gs = MatchCore::new();
    gs.add_player(0);
    // 120 s of silence is still tolerated; 121 s is not.
    assert_eq!(gs.on_alarm(120_999), Alarm::Again(500));
    assert_eq!(gs.client_count(), 1);
    assert_eq!(gs.on_alarm(121_000), Alarm::Stop);
    assert_eq!(gs.client_count(), 0);
}

#[test]
fn test_alarm_forfeits_after_grace() {
    let mut gs = MatchCore::new();
    gs.add_player(NOW_MS);
    gs.add_player(NOW_MS);
    gs.match_state = MatchState::Playing;
    gs.handle_disconnect(0, NOW_MS);
    assert_eq!(gs.on_alarm(NOW_MS + RECONNECT_GRACE_MS - 1), Alarm::Again(500));
    assert_eq!(gs.match_state, MatchState::Paused);
    gs.take_effects();
    assert_eq!(gs.on_alarm(NOW_MS + RECONNECT_GRACE_MS), Alarm::Again(500));
    assert_eq!(gs.match_state, MatchState::GameOver);
    assert!(!gs.has_player(0) && gs.has_player(1));
    // The dropped player's slot is gone; only the player still there hears.
    assert_eq!(gs.take_effects().last(), Some(&Effect::Send(1, S2C::GameOver { winner: 1 })));
}

#[test]
fn test_state_broadcast_cadence() {
    assert!(should_broadcast_state(1));
    assert!(!should_broadcast_state(2));
    assert!(should_broadcast_state(3));
    assert!(!should_broadcast_state(4));
    assert!(should_broadcast_state(6));
}

#[test]
fn test_generate_state_message_reads_paddles() {
    let score = Score { left: 1, right: 2 };
    let ball = (1u32, 2u32, 3u32, 4u32);
    let msg = generate_state_message(9, ball, &vec![(1, 20.0f32.to_bits())], &score);
    match msg {
        S2C::GameState(s) => {
            assert_eq!(s.tick, 9);
            assert_eq!((s.ball_x_bits, s.ball_y_bits, s.ball_vx_bits, s.ball_vy_bits), (1, 2, 3, 4));
            assert_eq!(f32::from_bits(s.paddle_left_y_bits), 12.0, "a missing paddle reads as centred");
            assert_eq!(f32::from_bits(s.paddle_right_y_bits), 20.0);
            assert_eq!((s.score_left, s.score_right), (1, 2));
        }
        _ => panic!("Expected GameState message"),
    }
}

#[test]
fn catch_up_spends_elapsed_time_in_ticks() {
    assert_eq!(catch_up(0, 16), (1, 0));
    assert_eq!(catch_up(5, 10), (0, 15));
    assert_eq!(catch_up(15, 100), (7, 3));
}

#[test]
fn catch_up_caps_elapsed_time_and_steps() {
    // A long stall only makes up for MAX_CATCH_UP_MS.
    assert_eq!(catch_up(0, 10_000), (6, 4));
    // At most MAX_CATCH_UP_STEPS steps run; the rest is carried over.
    assert_eq!(catch_up(200, 0), (10, 40));
}

#[test]
fn catch_up_keeps_pace_over_many_alarms() {
    let mut acc = 0u64;
    for elapsed in [3u64, 16, 17, 33, 99, 100, 250, 0, 15, 1] {
        let (steps, rest) = catch_up(acc, elapsed);
        assert!(steps <= 7);
        assert!(rest < 16);
        acc = rest;
    }
}

#[test]
fn input_sequence_number_is_ignored() {
    let mut a = MatchCore::new();
    let mut b = MatchCore::new();
    a.add_player(NOW_MS);
    b.add_player(NOW_MS);
    a.take_effects();
    b.take_effects();
    let y = 7.5f32.to_bits();
    a.handle_c2s(Some(0), C2S::Input { player_id: 0, y_bits: y, seq: 1 }, NOW_MS + 5000);
    b.handle_c2s(Some(0), C2S::Input { player_id: 0, y_bits: y, seq: 999 }, NOW_MS + 5000);
    assert_eq!(a.take_effects(), b.take_effects());
    assert_eq!(a.slot(0), b.slot(0));
    assert_eq!(a.slot(0).unwrap().last_activity, (NOW_MS + 5000) / 1000);
}

#[test]
fn broadcast_skips_slot_held_for_reconnect() {
    let mut gs = MatchCore::new();
    gs.add_player(NOW_MS);
    gs.add_player(NOW_MS);
    gs.match_state = MatchState::Playing;
    gs.take_effects();
    gs.handle_disconnect(0, NOW_MS);
    // Only the player still connected hears that the other is reconnecting.
    assert_eq!(gs.take_effects(), vec![Effect::Send(1, S2C::OpponentReconnecting)]);
    gs.broadcast_to_all(S2C::GameStart);
    assert_eq!(gs.take_effects(), vec![Effect::Send(1, S2C::GameStart)]);
    gs.broadcast_state(snapshot());
    assert_eq!(gs.take_effects(), vec![Effect::Send(1, S2C::GameState(snapshot()))]);
}

#[test]
fn step_outside_play_changes_nothing() {
    let mut gs = MatchCore::new();
    gs.add_player(NOW_MS);
    gs.add_player(NOW_MS);
    gs.match_state = MatchState::Paused;
    gs.tick = u32::MAX;
    gs.take_effects();
    assert_eq!(gs.step(&Score { left: 5, right: 0 }, 5), None);
    assert_eq!(gs.tick, u32::MAX);
    assert_eq!(gs.match_state, MatchState::Paused);
    assert!(gs.take_effects().is_empty());
}

#[test]
fn disconnect_outside_match_needs_no_clock_headroom() {
    let mut gs = MatchCore::new();
    gs.add_player(NOW_MS);
    gs.take_effects();
    gs.handle_disconnect(0, u64::MAX);
    assert_eq!(gs.client_count(), 0);
    assert_eq!(gs.take_effects(), vec![Effect::RemoveClient(0), Effect::DespawnPaddle(0)]);
}
