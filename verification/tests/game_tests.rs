use pongo::game::{Events, NetQueue, PlayerId, Score, WIN_SCORE};

#[test]
fn test_score_increment_left() {
    let mut score = Score::new();
    assert_eq!(score.left, 0);
    score.increment_left();
    assert_eq!(score.left, 1);
    score.increment_left();
    assert_eq!(score.left, 2);
}

#[test]
fn test_score_increment_right() {
    let mut score = Score::new();
    assert_eq!(score.right, 0);
    score.increment_right();
    assert_eq!(score.right, 1);
    score.increment_right();
    assert_eq!(score.right, 2);
}

#[test]
fn test_score_has_winner_left() {
    let mut score = Score::new();
    for _ in 0..11 {
        score.increment_left();
    }
    assert_eq!(
        score.has_winner(11),
        Some(PlayerId(0)),
        "Left player should win at 11"
    );
}

#[test]
fn test_score_has_winner_right() {
    let mut score = Score::new();
    for _ in 0..11 {
        score.increment_right();
    }
    assert_eq!(
        score.has_winner(11),
        Some(PlayerId(1)),
        "Right player should win at 11"
    );
}

#[test]
fn test_score_no_winner_below_threshold() {
    let mut score = Score::new();
    for _ in 0..10 {
        score.increment_left();
    }
    assert_eq!(score.has_winner(11), None, "No winner below threshold");
}

#[test]
fn test_events_clear() {
    let mut events = Events::new();
    events.left_scored = true;
    events.right_scored = true;
    events.ball_hit_paddle = true;
    events.ball_hit_wall = true;

    events.clear();

    assert!(!events.left_scored);
    assert!(!events.right_scored);
    assert!(!events.ball_hit_paddle);
    assert!(!events.ball_hit_wall);
}

#[test]
fn test_player_id_index() {
    assert_eq!(PlayerId(0).index(), 0);
    assert_eq!(PlayerId(1).index(), 1);
}

#[test]
fn test_left_checked_first_when_both_reach_win_score() {
    let score = Score { left: 5, right: 7 };
    assert_eq!(score.has_winner(WIN_SCORE), Some(PlayerId(0)));
}

#[test]
fn test_first_to_five_wins() {
    let mut score = Score::new();
    for _ in 0..4 {
        score.increment_right();
    }
    assert_eq!(score.has_winner(WIN_SCORE), None);
    score.increment_right();
    assert_eq!(score.has_winner(WIN_SCORE), Some(PlayerId(1)));
    // A further point for the trailing player does not take the win away.
    score.increment_left();
    assert_eq!(score.has_winner(WIN_SCORE), Some(PlayerId(1)));
}

#[test]
fn test_new_events_are_clear() {
    let e = Events::new();
    assert!(!e.left_scored && !e.right_scored && !e.ball_hit_paddle && !e.ball_hit_wall);
    let d = Events::default();
    assert_eq!(d, e);
    assert_eq!(Score::default(), Score::new());
}

#[test]
fn test_net_queue_push_input() {
    let mut queue = NetQueue::new();
    queue.push_input(PlayerId(0), 10.0f32.to_bits());
    queue.push_input(PlayerId(1), 14.0f32.to_bits());

    assert_eq!(queue.inputs.len(), 2);
    assert_eq!(queue.inputs[0], (PlayerId(0), 10.0f32.to_bits()));
    assert_eq!(queue.inputs[1], (PlayerId(1), 14.0f32.to_bits()));
}

#[test]
fn test_net_queue_clear() {
    let mut queue = NetQueue::new();
    queue.push_input(PlayerId(0), 10.0f32.to_bits());
    queue.push_input(PlayerId(1), 14.0f32.to_bits());

    queue.clear();
    assert_eq!(queue.inputs.len(), 0);
}

#[test]
fn net_queue_pops_in_arrival_order_and_empties() {
    let mut queue = NetQueue::default();
    queue.push_input(PlayerId(1), 3.0f32.to_bits());
    queue.push_input(PlayerId(0), 5.0f32.to_bits());
    queue.push_input(PlayerId(1), 7.0f32.to_bits());
    let popped = queue.pop_inputs();
    assert_eq!(
        popped,
        vec![
            (PlayerId(1), 3.0f32.to_bits()),
            (PlayerId(0), 5.0f32.to_bits()),
            (PlayerId(1), 7.0f32.to_bits()),
        ]
    );
    assert!(queue.inputs.is_empty());
    assert!(queue.pop_inputs().is_empty());
}
