//! The client's view of a multiplayer match: the latest authoritative
//! snapshot, the score, who we are, who won, and the latest lifecycle event.
//! (The smoothed display positions are kept by the caller.)
use vstd::prelude::*;
use crate::proto::{GameStateSnapshot, S2C};
use crate::text::{owned, push_decimal, decimal};

verus! {

/// Bits of `16.0f32`, the arena's centre on the x axis.
pub const CENTER_X_BITS: u32 = 0x4180_0000;

/// Bits of `12.0f32`, the arena's centre on the y axis.
pub const CENTER_Y_BITS: u32 = 0x4140_0000;

/// Events from the server for the match lifecycle.
#[derive(Debug, Clone, Copy, PartialEq, Eq, Structural)]
pub enum MatchEvent {
    NoEvent,
    MatchFound,
    Countdown(u8),
    GameStart,
    OpponentDisconnected,
    OpponentReconnecting,
    OpponentReconnected,
}

/// The snapshot a client starts from: ball and both paddles centred, no
/// velocity, tick 0, score 0:0.
pub open spec fn spec_initial_snapshot() -> GameStateSnapshot {
    GameStateSnapshot {
        tick: 0,
        ball_x_bits: CENTER_X_BITS,
        ball_y_bits: CENTER_Y_BITS,
        ball_vx_bits: 0,
        ball_vy_bits: 0,
        paddle_left_y_bits: CENTER_Y_BITS,
        paddle_right_y_bits: CENTER_Y_BITS,
        score_left: 0,
        score_right: 0,
    }
}

/// Initial snapshot with the ball and both paddles centred in the arena.
pub fn initial_snapshot() -> (s: GameStateSnapshot)
    ensures
        s == spec_initial_snapshot(),
{
    GameStateSnapshot {
        tick: 0,
        ball_x_bits: CENTER_X_BITS,
        ball_y_bits: CENTER_Y_BITS,
        ball_vx_bits: 0,
        ball_vy_bits: 0,
        paddle_left_y_bits: CENTER_Y_BITS,
        paddle_right_y_bits: CENTER_Y_BITS,
        score_left: 0,
        score_right: 0,
    }
}

/// What the caller must do to its smoothed display after a message.
#[derive(Debug, Clone, Copy, PartialEq, Eq, Structural)]
pub enum DisplayUpdate {
    /// Nothing.
    Keep,
    /// The match was reset: put the display back at the initial snapshot.
    Reset,
    /// A new authoritative snapshot arrived: restart the smoothing window.
    NewSnapshot,
}

/// The client-side record of a match.
#[derive(Debug, Clone, Copy, PartialEq, Eq, Structural)]
pub struct Session {
    pub current: GameStateSnapshot,
    pub score_left: u8,
    pub score_right: u8,
    pub my_player_id: Option<u8>,
    pub winner: Option<u8>,
    pub match_event: MatchEvent,
}

/// A session with nothing known yet.
pub open spec fn spec_new_session() -> Session {
    Session {
        current: spec_initial_snapshot(),
        score_left: 0,
        score_right: 0,
        my_player_id: None,
        winner: None,
        match_event: MatchEvent::NoEvent,
    }
}

/// `s` after a reset: everything back to the start but who we are.
pub open spec fn spec_reset(s: Session) -> Session {
    Session { my_player_id: s.my_player_id, ..spec_new_session() }
}

/// The session after a message from the server; a `Pong` is not handled here.
pub open spec fn spec_after_message(s: Session, msg: crate::proto::S2C) -> Session {
    match msg {
        crate::proto::S2C::Welcome { player_id } => Session { my_player_id: Some(player_id), ..s },
        crate::proto::S2C::MatchFound => Session { match_event: MatchEvent::MatchFound, ..spec_reset(s) },
        crate::proto::S2C::Countdown { seconds } => Session {
            match_event: MatchEvent::Countdown(seconds),
            ..spec_reset(s)
        },
        crate::proto::S2C::GameStart => Session { match_event: MatchEvent::GameStart, ..spec_reset(s) },
        crate::proto::S2C::GameState(snap) => Session {
            current: snap,
            score_left: snap.score_left,
            score_right: snap.score_right,
            ..s
        },
        crate::proto::S2C::GameOver { winner } => Session { winner: Some(winner), ..s },
        crate::proto::S2C::OpponentDisconnected => Session {
            match_event: MatchEvent::OpponentDisconnected,
            ..s
        },
        crate::proto::S2C::OpponentReconnecting => Session {
            match_event: MatchEvent::OpponentReconnecting,
            ..s
        },
        crate::proto::S2C::OpponentReconnected => Session {
            match_event: MatchEvent::OpponentReconnected,
            ..s
        },
        crate::proto::S2C::Pong { .. } => s,
    }
}

/// What the display must do after a message.
pub open spec fn spec_display_update(msg: crate::proto::S2C) -> DisplayUpdate {
    match msg {
        crate::proto::S2C::MatchFound => DisplayUpdate::Reset,
        crate::proto::S2C::Countdown { .. } => DisplayUpdate::Reset,
        crate::proto::S2C::GameStart => DisplayUpdate::Reset,
        crate::proto::S2C::GameState(_) => DisplayUpdate::NewSnapshot,
        _ => DisplayUpdate::Keep,
    }
}

/// The name JavaScript receives for a match event ("" for none).
pub open spec fn event_name(e: MatchEvent) -> Seq<char> {
    match e {
        MatchEvent::NoEvent => Seq::empty(),
        MatchEvent::MatchFound => "match_found"@,
        MatchEvent::Countdown(n) => "countdown:"@ + decimal(n as nat),
        MatchEvent::GameStart => "game_start"@,
        MatchEvent::OpponentDisconnected => "opponent_disconnected"@,
        MatchEvent::OpponentReconnecting => "opponent_reconnecting"@,
        MatchEvent::OpponentReconnected => "opponent_reconnected"@,
    }
}

impl Session {
    /// A session with nothing known yet.
    pub fn new() -> (s: Self)
        ensures
            s == spec_new_session(),
    {
        Session {
            current: initial_snapshot(),
            score_left: 0,
            score_right: 0,
            my_player_id: None,
            winner: None,
            match_event: MatchEvent::NoEvent,
        }
    }

    /// Back to the start of a match; who we are is kept.
    pub fn reset(&mut self)
        ensures
            *final(self) == spec_reset(*old(self)),
    {
        self.current = initial_snapshot();
        self.score_left = 0;
        self.score_right = 0;
        self.winner = None;
        self.match_event = MatchEvent::NoEvent;
    }

    /// Accept a snapshot as the new authoritative state.
    pub fn set_current(&mut self, snapshot: GameStateSnapshot)
        ensures
            *final(self) == (Session { current: snapshot, ..*old(self) }),
    {
        self.current = snapshot;
    }

    pub fn set_scores(&mut self, left: u8, right: u8)
        ensures
            *final(self) == (Session { score_left: left, score_right: right, ..*old(self) }),
    {
        self.score_left = left;
        self.score_right = right;
    }

    pub fn get_scores(&self) -> (r: (u8, u8))
        ensures
            r == (self.score_left, self.score_right),
    {
        (self.score_left, self.score_right)
    }

    pub fn set_player_id(&mut self, player_id: u8)
        ensures
            *final(self) == (Session { my_player_id: Some(player_id), ..*old(self) }),
    {
        self.my_player_id = Some(player_id);
    }

    pub fn get_player_id(&self) -> (r: Option<u8>)
        ensures
            r == self.my_player_id,
    {
        self.my_player_id
    }

    pub fn set_winner(&mut self, winner: u8)
        ensures
            *final(self) == (Session { winner: Some(winner), ..*old(self) }),
    {
        self.winner = Some(winner);
    }

    pub fn get_current_snapshot(&self) -> (r: GameStateSnapshot)
        ensures
            r == self.current,
    {
        self.current
    }

    /// The y (bits) of our own paddle in the current snapshot: the left one
    /// unless we are player 1 (an unknown id counts as player 0).
    pub fn own_paddle_y_bits(&self) -> (r: u32)
        ensures
            r == (if self.my_player_id.unwrap_or(0) == 0 {
                self.current.paddle_left_y_bits
            } else {
                self.current.paddle_right_y_bits
            }),
    {
        let pid = match self.my_player_id {
            Some(p) => p,
            None => 0,
        };
        if pid == 0 {
            self.current.paddle_left_y_bits
        } else {
            self.current.paddle_right_y_bits
        }
    }

    /// "you" if we won, "opponent" if the other player did, nothing while
    /// there is no winner.
    pub fn winner_label(&self) -> (r: Option<String>)
        ensures
            match self.winner {
                None => r is None,
                Some(w) => r matches Some(l) && l@ == (if self.my_player_id == Some(w) {
                    "you"@
                } else {
                    "opponent"@
                }),
            },
    {
        match self.winner {
            None => None,
            Some(w) => {
                let mine = match self.my_player_id {
                    Some(p) => p == w,
                    None => false,
                };
                if mine {
                    Some(owned("you"))
                } else {
                    Some(owned("opponent"))
                }
            },
        }
    }

    /// Takes the latest match event, leaving none, and names it.
    pub fn take_match_event(&mut self) -> (r: String)
        ensures
            r@ == event_name(old(self).match_event),
            *final(self) == (Session { match_event: MatchEvent::NoEvent, ..*old(self) }),
    {
        let event = self.match_event;
        self.match_event = MatchEvent::NoEvent;
        match event {
            MatchEvent::NoEvent => String::new(),
            MatchEvent::MatchFound => owned("match_found"),
            MatchEvent::Countdown(n) => {
                let mut s = owned("countdown:");
                push_decimal(&mut s, n);
                s
            },
            MatchEvent::GameStart => owned("game_start"),
            MatchEvent::OpponentDisconnected => owned("opponent_disconnected"),
            MatchEvent::OpponentReconnecting => owned("opponent_reconnecting"),
            MatchEvent::OpponentReconnected => owned("opponent_reconnected"),
        }
    }
}

/// Whether a message starts a new round of play on the client (a match was
/// found or a countdown began): its own paddle goes back to the centre and
/// its frame timing starts over.
pub fn restarts_local_play(msg: &S2C) -> (r: bool)
    ensures
        r == (msg is MatchFound || msg is Countdown),
{
    match msg {
        S2C::MatchFound => true,
        S2C::Countdown { .. } => true,
        _ => false,
    }
}

/// Whether the client snaps its own paddle to the snapshot in `msg`: only on
/// the first snapshot of a multiplayer match (the paddle is not yet placed).
pub fn snaps_own_paddle(msg: &S2C, local_game: bool, paddle_placed: bool) -> (r: bool)
    ensures
        r == (msg is GameState && !local_game && !paddle_placed),
{
    let is_state = match msg {
        S2C::GameState(_) => true,
        _ => false,
    };
    is_state && !local_game && !paddle_placed
}

/// What each server message does to the session: a lifecycle message is
/// recorded as its match event (and, for the three that start a round,
/// clears the score, the winner and the snapshot but keeps who we are); a
/// snapshot replaces the current state and the score; a welcome tells us who
/// we are; a game over names the winner; every other field, and the event
/// for messages that are not lifecycle events, is kept. A `Pong` changes
/// nothing.
pub proof fn lemma_messages_update_session(s: Session, msg: S2C)
    ensures
        ({
            let t = spec_after_message(s, msg);
            &&& match msg {
                S2C::MatchFound => t.match_event == MatchEvent::MatchFound,
                S2C::Countdown { seconds } => t.match_event == MatchEvent::Countdown(seconds),
                S2C::GameStart => t.match_event == MatchEvent::GameStart,
                S2C::OpponentDisconnected => t.match_event == MatchEvent::OpponentDisconnected,
                S2C::OpponentReconnecting => t.match_event == MatchEvent::OpponentReconnecting,
                S2C::OpponentReconnected => t.match_event == MatchEvent::OpponentReconnected,
                _ => t.match_event == s.match_event,
            }
            &&& (msg is MatchFound || msg is Countdown || msg is GameStart) ==> {
                &&& t.score_left == 0 && t.score_right == 0
                &&& t.winner is None
                &&& t.current == spec_initial_snapshot()
                &&& t.my_player_id == s.my_player_id
            }
            &&& match msg {
                S2C::GameState(snap) => t == Session {
                    current: snap,
                    score_left: snap.score_left,
                    score_right: snap.score_right,
                    ..s
                },
                S2C::Welcome { player_id } => t == Session { my_player_id: Some(player_id), ..s },
                S2C::GameOver { winner } => t == Session { winner: Some(winner), ..s },
                S2C::Pong { .. } => t == s,
                S2C::OpponentDisconnected => t == Session { match_event: MatchEvent::OpponentDisconnected, ..s },
                S2C::OpponentReconnecting => t == Session { match_event: MatchEvent::OpponentReconnecting, ..s },
                S2C::OpponentReconnected => t == Session { match_event: MatchEvent::OpponentReconnected, ..s },
                _ => true,
            }
        }),
{
}

} // verus!
