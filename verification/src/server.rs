//! The server's match lifecycle: who holds which of the two player slots,
//! the match state (waiting, countdown, playing, paused for a reconnect,
//! game over), and what each event obliges the host to do.
//!
//! Every operation records the work it leaves for the host (messages to
//! send, paddles to spawn or remove, the world to reset) as [`Effect`]s in an
//! outbox, in the order in which the host must carry them out.
use vstd::prelude::*;
use crate::game::{Score, spec_winner};
use crate::proto::{C2S, S2C, GameStateSnapshot};
use crate::session::CENTER_Y_BITS;

verus! {

/// How long a dropped player's slot is held for reconnection before
/// forfeiting (ms).
pub const RECONNECT_GRACE_MS: u64 = 20_000;

/// A client silent for longer than this is removed (s).
pub const IDLE_TIMEOUT_SECONDS: u64 = 120;

/// The countdown before a match starts or resumes (s).
pub const COUNTDOWN_SECONDS: u8 = 3;

/// Server-side match lifecycle state.
#[derive(Debug, Clone, Copy, PartialEq, Eq, Structural)]
pub enum MatchState {
    /// Waiting for players to join.
    Waiting,
    /// Both players connected, counting down.
    Countdown,
    /// Game in progress.
    Playing,
    /// A player dropped mid-match; the simulation is frozen awaiting their
    /// reconnect.
    Paused,
    /// Game ended.
    GameOver,
}

/// What the match remembers of a player.
#[derive(Debug, Clone, Copy, PartialEq, Eq, Structural)]
pub struct PlayerSlot {
    /// False while the slot is held open for a reconnect.
    pub connected: bool,
    /// When the player was last heard from (s).
    pub last_activity: u64,
}

/// Work that an operation leaves for the host.
#[derive(Debug, Clone, Copy, PartialEq, Eq, Structural)]
pub enum Effect {
    /// The connection that made the current request now holds this slot.
    AcceptClient(u8),
    /// Drop the connection held for this slot.
    RemoveClient(u8),
    /// Send to the player in this slot, whose connection is up.
    Send(u8, S2C),
    /// Send to the connection that made the current request.
    Reply(S2C),
    /// Send the current simulation snapshot to the requesting connection.
    ReplyState,
    /// Send the current simulation snapshot to the player in this slot,
    /// whose connection is up.
    SendState(u8),
    /// Tag the requesting connection with this player id.
    AttachPlayer(u8),
    /// Start the periodic alarm that drives the match.
    StartAlarm,
    /// Add this player's paddle at its spawn position.
    SpawnPaddle(u8),
    /// Remove this player's paddle.
    DespawnPaddle(u8),
    /// Rematch: zero the score, events, input queue, clock and respawn timer,
    /// serve a fresh ball and remove all paddles.
    ResetWorld,
    /// Queue an absolute paddle-y input (bits of an `f32`) for this player.
    QueueInput(u8, u32),
}

/// Alarm period while nothing needs to happen quickly (ms).
pub const WAITING_ALARM_MS: u64 = 500;

/// Alarm period during a countdown (ms).
pub const COUNTDOWN_ALARM_MS: u64 = 1000;

/// Alarm period while playing (ms).
pub const PLAYING_ALARM_MS: u64 = 16;

/// What the host does after an alarm.
#[derive(Debug, Clone, Copy, PartialEq, Eq, Structural)]
pub enum Alarm {
    /// The room is empty: stop the alarm loop.
    Stop,
    /// Schedule the next alarm after this many milliseconds.
    Again(u64),
    /// Run the simulation catch-up, then schedule the next alarm after
    /// `PLAYING_ALARM_MS`.
    Simulate,
}

/// Whether the snapshot after simulation tick `tick` is broadcast (the first
/// tick, then every third).
pub open spec fn spec_should_broadcast_state(tick: u32) -> bool {
    tick == 1 || tick % 3 == 0
}

/// Whether the snapshot after simulation tick `tick` is broadcast.
pub fn should_broadcast_state(tick: u32) -> (r: bool)
    ensures
        r == spec_should_broadcast_state(tick),
{
    tick == 1 || tick % 3 == 0
}

/// The most elapsed time that one alarm makes up for (ms).
pub const MAX_CATCH_UP_MS: u64 = 100;

/// The most simulation steps that one alarm runs.
pub const MAX_CATCH_UP_STEPS: u64 = 10;

/// The catch-up of one alarm while playing: the time not yet simulated
/// (`accumulator_ms`) plus the time since the last alarm, capped at
/// `MAX_CATCH_UP_MS`, is spent in steps of `PLAYING_ALARM_MS`, at most
/// `MAX_CATCH_UP_STEPS` of them. The result is (steps to run, time left over).
pub open spec fn spec_catch_up(accumulator_ms: u64, elapsed_ms: u64) -> (u64, u64) {
    let total: int = accumulator_ms + (if elapsed_ms < MAX_CATCH_UP_MS { elapsed_ms } else { MAX_CATCH_UP_MS });
    let steps: int = if total / (PLAYING_ALARM_MS as int) < MAX_CATCH_UP_STEPS {
        total / (PLAYING_ALARM_MS as int)
    } else {
        MAX_CATCH_UP_STEPS as int
    };
    (steps as u64, (total - steps * PLAYING_ALARM_MS) as u64)
}

/// How many simulation steps an alarm runs, and the time it leaves for the
/// next alarm (see [`spec_catch_up`]).
pub fn catch_up(accumulator_ms: u64, elapsed_ms: u64) -> (r: (u64, u64))
    requires
        accumulator_ms <= u64::MAX - MAX_CATCH_UP_MS,
    ensures
        r == spec_catch_up(accumulator_ms, elapsed_ms),
{
    let added = if elapsed_ms < MAX_CATCH_UP_MS { elapsed_ms } else { MAX_CATCH_UP_MS };
    let total = accumulator_ms + added;
    let mut acc = total;
    let mut steps: u64 = 0;
    while acc >= PLAYING_ALARM_MS && steps < MAX_CATCH_UP_STEPS
        invariant
            total == accumulator_ms + added,
            steps <= MAX_CATCH_UP_STEPS,
            acc + steps * PLAYING_ALARM_MS == total,
        decreases acc,
    {
        acc = acc - PLAYING_ALARM_MS;
        steps = steps + 1;
    }
    proof {
        let t = total as int;
        if acc < PLAYING_ALARM_MS {
            assert(t / 16 == steps) by (nonlinear_arith)
                requires
                    t == acc + steps * 16,
                    0 <= acc < 16,
                    steps >= 0,
            ;
        } else {
            assert(t / 16 >= 10) by (nonlinear_arith)
                requires
                    t == acc + 10 * 16,
                    acc >= 16,
            ;
        }
    }
    (steps, acc)
}

/// The y (bits) of the last paddle of player `pid` in `paddles`, or the
/// arena's centre when it has none.
pub open spec fn paddle_y_of(paddles: Seq<(u8, u32)>, pid: u8) -> u32
    decreases paddles.len(),
{
    if paddles.len() == 0 {
        CENTER_Y_BITS
    } else if paddles.last().0 == pid {
        paddles.last().1
    } else {
        paddle_y_of(paddles.drop_last(), pid)
    }
}

/// The state message for the current simulation: ball position and velocity
/// (bits), the paddles as (player id, y bits), and the score.
pub fn generate_state_message(
    tick: u32,
    ball_bits: (u32, u32, u32, u32),
    paddles: &Vec<(u8, u32)>,
    score: &Score,
) -> (r: S2C)
    ensures
        r == S2C::GameState(
            GameStateSnapshot {
                tick,
                ball_x_bits: ball_bits.0,
                ball_y_bits: ball_bits.1,
                ball_vx_bits: ball_bits.2,
                ball_vy_bits: ball_bits.3,
                paddle_left_y_bits: paddle_y_of(paddles@, 0),
                paddle_right_y_bits: paddle_y_of(paddles@, 1),
                score_left: score.left,
                score_right: score.right,
            },
        ),
{
    let mut left: u32 = CENTER_Y_BITS;
    let mut right: u32 = CENTER_Y_BITS;
    let n = paddles.len();
    for i in 0..n
        invariant
            n == paddles@.len(),
            left == paddle_y_of(paddles@.take(i as int), 0),
            right == paddle_y_of(paddles@.take(i as int), 1),
    {
        assert(paddles@.take(i + 1).drop_last() =~= paddles@.take(i as int));
        let (pid, y) = paddles[i];
        if pid == 0 {
            left = y;
        } else if pid == 1 {
            right = y;
        }
    }
    assert(paddles@.take(n as int) =~= paddles@);
    S2C::GameState(
        GameStateSnapshot {
            tick,
            ball_x_bits: ball_bits.0,
            ball_y_bits: ball_bits.1,
            ball_vx_bits: ball_bits.2,
            ball_vy_bits: ball_bits.3,
            paddle_left_y_bits: left,
            paddle_right_y_bits: right,
            score_left: score.left,
            score_right: score.right,
        },
    )
}

/// The mathematical state of a match.
pub struct MatchView {
    pub left: Option<PlayerSlot>,
    pub right: Option<PlayerSlot>,
    pub next_player_id: u8,
    pub match_state: MatchState,
    pub countdown_remaining: u8,
    pub tick: u32,
    pub reconnect_deadline_ms: u64,
    pub outbox: Seq<Effect>,
}

impl MatchView {
    /// The slot of player `pid` (only 0 and 1 exist).
    pub open spec fn slot(self, pid: u8) -> Option<PlayerSlot> {
        if pid == 0 {
            self.left
        } else if pid == 1 {
            self.right
        } else {
            None
        }
    }

    pub open spec fn present(self, pid: u8) -> bool {
        self.slot(pid) is Some
    }

    /// The number of players in the room.
    pub open spec fn count(self) -> nat {
        (if self.left is Some { 1nat } else { 0nat }) + (if self.right is Some { 1nat } else { 0nat })
    }

    /// The lowest player id in the room.
    pub open spec fn lowest_present(self) -> Option<u8> {
        if self.left is Some {
            Some(0u8)
        } else if self.right is Some {
            Some(1u8)
        } else {
            None
        }
    }

    /// The lowest player id whose slot is held open for a reconnect.
    pub open spec fn lowest_disconnected(self) -> Option<u8> {
        if self.left matches Some(s) && !s.connected {
            Some(0u8)
        } else if self.right matches Some(s) && !s.connected {
            Some(1u8)
        } else {
            None
        }
    }

    pub open spec fn with_slot(self, pid: u8, s: Option<PlayerSlot>) -> MatchView {
        if pid == 0 {
            MatchView { left: s, ..self }
        } else if pid == 1 {
            MatchView { right: s, ..self }
        } else {
            self
        }
    }

    pub open spec fn emit(self, e: Effect) -> MatchView {
        MatchView { outbox: self.outbox.push(e), ..self }
    }

    /// Whether player `pid` is in the room with its connection up (not a
    /// slot held open for a reconnect).
    pub open spec fn connected(self, pid: u8) -> bool {
        self.slot(pid) matches Some(s) && s.connected
    }

    /// The sends of a broadcast of `msg`: one to each player in the room
    /// whose connection is up, lowest id first.
    pub open spec fn sends(self, msg: S2C) -> Seq<Effect> {
        (if self.connected(0) { seq![Effect::Send(0, msg)] } else { Seq::empty() }) + (if self.connected(1) {
            seq![Effect::Send(1, msg)]
        } else {
            Seq::empty()
        })
    }

    /// Broadcast `msg` to the players whose connection is up.
    pub open spec fn broadcast(self, msg: S2C) -> MatchView {
        MatchView { outbox: self.outbox + self.sends(msg), ..self }
    }

    /// The sends of the current snapshot to the players whose connection is
    /// up, lowest id first.
    pub open spec fn state_sends(self) -> Seq<Effect> {
        (if self.connected(0) { seq![Effect::SendState(0)] } else { Seq::empty() }) + (if self.connected(1) {
            seq![Effect::SendState(1)]
        } else {
            Seq::empty()
        })
    }

    /// Send the current snapshot to the players whose connection is up.
    pub open spec fn broadcast_current_state(self) -> MatchView {
        MatchView { outbox: self.outbox + self.state_sends(), ..self }
    }

    pub open spec fn wf(self) -> bool {
        self.next_player_id < 2
    }

    /// A player joins: refused when the room is full; otherwise the
    /// round-robin id is taken if free, else the other one.
    pub open spec fn add_player(self, now_ms: u64) -> (MatchView, Option<(u8, bool)>) {
        if self.count() >= 2 {
            (self, None)
        } else {
            let pid: u8 = if !self.present(self.next_player_id) {
                self.next_player_id
            } else {
                (1 - self.next_player_id) as u8
            };
            let was_empty = self.count() == 0;
            let v1 = MatchView {
                next_player_id: ((pid + 1) % 2) as u8,
                ..self.with_slot(pid, Some(PlayerSlot { connected: true, last_activity: now_ms / 1000 }))
            }.emit(Effect::AcceptClient(pid)).emit(Effect::SpawnPaddle(pid));
            let v2 = if v1.count() == 2 && v1.match_state == MatchState::Waiting {
                MatchView {
                    match_state: MatchState::Countdown,
                    countdown_remaining: COUNTDOWN_SECONDS,
                    ..v1
                }.broadcast(S2C::MatchFound)
            } else {
                v1
            };
            (v2, Some((pid, was_empty)))
        }
    }

    /// A player leaves for good.
    pub open spec fn remove_player(self, pid: u8) -> MatchView {
        let v1 = self.with_slot(pid, None).emit(Effect::RemoveClient(pid)).emit(Effect::DespawnPaddle(pid));
        match self.match_state {
            MatchState::Playing => match v1.lowest_present() {
                Some(r) => MatchView { match_state: MatchState::GameOver, ..v1 }.broadcast(S2C::GameOver { winner: r }),
                None => MatchView { match_state: MatchState::GameOver, ..v1 },
            },
            MatchState::Countdown => MatchView {
                match_state: MatchState::Waiting,
                countdown_remaining: COUNTDOWN_SECONDS,
                ..v1
            }.broadcast(S2C::OpponentDisconnected),
            MatchState::GameOver => MatchView { match_state: MatchState::Waiting, ..v1 }.broadcast(S2C::OpponentDisconnected),
            MatchState::Paused => match v1.lowest_present() {
                Some(r) => MatchView { match_state: MatchState::GameOver, ..v1 }.broadcast(S2C::GameOver { winner: r }),
                None => MatchView { match_state: MatchState::Waiting, ..v1 },
            },
            MatchState::Waiting => v1,
        }
    }

    /// A connection closed: mid-match the slot is held open and the match
    /// paused; otherwise the player is removed.
    pub open spec fn handle_disconnect(self, pid: u8, now_ms: u64) -> MatchView {
        if (self.match_state == MatchState::Playing || self.match_state == MatchState::Countdown)
            && self.present(pid) {
            MatchView {
                match_state: MatchState::Paused,
                reconnect_deadline_ms: (now_ms + RECONNECT_GRACE_MS) as u64,
                ..self.with_slot(
                    pid,
                    Some(PlayerSlot { connected: false, ..self.slot(pid).unwrap() }),
                )
            }.broadcast(S2C::OpponentReconnecting)
        } else {
            self.remove_player(pid)
        }
    }

    /// A player returns to a held-open slot; the match resumes with a fresh
    /// countdown and the world as it was.
    pub open spec fn reconnect_player(self, now_ms: u64) -> (MatchView, Option<u8>) {
        match self.lowest_disconnected() {
            None => (self, None),
            Some(pid) => (
                MatchView {
                    match_state: MatchState::Countdown,
                    countdown_remaining: COUNTDOWN_SECONDS,
                    reconnect_deadline_ms: 0,
                    ..self.with_slot(
                        pid,
                        Some(PlayerSlot { connected: true, last_activity: now_ms / 1000 }),
                    )
                }.emit(Effect::AcceptClient(pid)).broadcast(S2C::OpponentReconnected),
                Some(pid),
            ),
        }
    }

    /// Paddle input from a player in the room is queued; other input is ignored.
    pub open spec fn handle_input(self, pid: u8, y_bits: u32, now_ms: u64) -> MatchView {
        match self.slot(pid) {
            Some(s) => self.with_slot(pid, Some(PlayerSlot { last_activity: now_ms / 1000, ..s })).emit(
                Effect::QueueInput(pid, y_bits),
            ),
            None => self,
        }
    }

    /// The paddles to re-spawn, lowest id first.
    pub open spec fn spawn_all(self) -> MatchView {
        let v1 = if self.left is Some { self.emit(Effect::SpawnPaddle(0)) } else { self };
        if self.right is Some { v1.emit(Effect::SpawnPaddle(1)) } else { v1 }
    }

    /// A rematch: only after a game over.
    pub open spec fn restart_match(self) -> MatchView {
        if self.match_state != MatchState::GameOver {
            self
        } else {
            MatchView {
                match_state: MatchState::Countdown,
                countdown_remaining: COUNTDOWN_SECONDS,
                ..MatchView { tick: 0, ..self }.emit(Effect::ResetWorld).spawn_all()
            }.broadcast(S2C::Countdown { seconds: COUNTDOWN_SECONDS })
        }
    }

    /// One second of countdown; `true` when the game starts.
    pub open spec fn tick_countdown(self) -> (MatchView, bool) {
        if self.match_state != MatchState::Countdown {
            (self, false)
        } else if self.countdown_remaining > 0 {
            (
                MatchView { countdown_remaining: (self.countdown_remaining - 1) as u8, ..self }.broadcast(S2C::Countdown { seconds: self.countdown_remaining }),
                false,
            )
        } else {
            (MatchView { match_state: MatchState::Playing, ..self }.broadcast(S2C::GameStart), true)
        }
    }

    /// Records one simulation step whose resulting score is `score`.
    pub open spec fn step(self, score: Score, win_score: u8) -> (MatchView, Option<u8>) {
        if self.match_state != MatchState::Playing {
            (self, None)
        } else {
            let v1 = MatchView { tick: (self.tick + 1) as u32, ..self };
            match spec_winner(score.left, score.right, win_score) {
                Some(w) => (
                    MatchView { match_state: MatchState::GameOver, ..v1 }.broadcast(S2C::GameOver { winner: w.0 }),
                    Some(w.0),
                ),
                None => (v1, None),
            }
        }
    }

    /// Whether player `pid` has been silent for longer than the idle timeout.
    pub open spec fn is_idle(self, pid: u8, now_s: u64) -> bool {
        self.slot(pid) matches Some(s) && (if now_s >= s.last_activity { now_s - s.last_activity } else { 0 })
            > IDLE_TIMEOUT_SECONDS
    }

    /// Removes the idle players, lowest id first.
    pub open spec fn remove_idle(self, now_s: u64) -> MatchView {
        let v1 = if self.is_idle(0, now_s) { self.remove_player(0) } else { self };
        if self.is_idle(1, now_s) { v1.remove_player(1) } else { v1 }
    }

    /// One alarm: drop idle players, then act by state.
    pub open spec fn on_alarm(self, now_ms: u64) -> (MatchView, Alarm) {
        let v = self.remove_idle(now_ms / 1000);
        if v.count() == 0 {
            (v, Alarm::Stop)
        } else {
            match v.match_state {
                MatchState::Waiting => (v, Alarm::Again(WAITING_ALARM_MS)),
                MatchState::Countdown => (v.tick_countdown().0, Alarm::Again(COUNTDOWN_ALARM_MS)),
                MatchState::Playing => (v, Alarm::Simulate),
                MatchState::Paused => (
                    if now_ms >= v.reconnect_deadline_ms {
                        match v.lowest_disconnected() {
                            Some(p) => v.remove_player(p),
                            None => v,
                        }
                    } else {
                        v
                    },
                    Alarm::Again(WAITING_ALARM_MS),
                ),
                MatchState::GameOver => (v, Alarm::Again(WAITING_ALARM_MS)),
            }
        }
    }

    /// The snapshot goes to everyone in the room whose connection is up.
    pub open spec fn broadcast_state(self, snapshot: GameStateSnapshot) -> MatchView {
        self.broadcast(S2C::GameState(snapshot))
    }

    /// A message from a connection, tagged with the player id it carries
    /// (if any).
    pub open spec fn handle_c2s(self, attached: Option<u8>, msg: C2S, now_ms: u64) -> MatchView {
        match msg {
            C2S::Join { .. } => if self.match_state == MatchState::Paused {
                match self.reconnect_player(now_ms) {
                    (v1, Some(pid)) => v1.emit(Effect::AttachPlayer(pid)).emit(
                        Effect::Reply(S2C::Welcome { player_id: pid }),
                    ).emit(Effect::ReplyState),
                    (v1, None) => v1,
                }
            } else {
                match self.add_player(now_ms) {
                    (v1, Some((pid, was_empty))) => {
                        let v2 = v1.emit(Effect::AttachPlayer(pid)).emit(
                            Effect::Reply(S2C::Welcome { player_id: pid }),
                        ).broadcast_current_state();
                        if was_empty { v2.emit(Effect::StartAlarm) } else { v2 }
                    },
                    (v1, None) => v1,
                }
            },
            C2S::Input { player_id, y_bits, .. } => self.handle_input(player_id, y_bits, now_ms),
            C2S::Restart => self.restart_match(),
            C2S::Ping { t_ms } => {
                let v1 = match attached {
                    Some(pid) => match self.slot(pid) {
                        Some(s) => self.with_slot(pid, Some(PlayerSlot { last_activity: now_ms / 1000, ..s })),
                        None => self,
                    },
                    None => self,
                };
                v1.emit(Effect::Reply(S2C::Pong { t_ms }))
            },
        }
    }
}

/// The match lifecycle of one room.
pub struct MatchCore {
    pub left: Option<PlayerSlot>,
    pub right: Option<PlayerSlot>,
    pub next_player_id: u8,
    pub match_state: MatchState,
    /// Countdown seconds remaining (3, 2, 1, 0).
    pub countdown_remaining: u8,
    pub tick: u32,
    /// While paused: forfeit once the clock passes this (ms).
    pub reconnect_deadline_ms: u64,
    /// Work left for the host, oldest first.
    pub outbox: Vec<Effect>,
}

impl View for MatchCore {
    type V = MatchView;

    open spec fn view(&self) -> MatchView {
        MatchView {
            left: self.left,
            right: self.right,
            next_player_id: self.next_player_id,
            match_state: self.match_state,
            countdown_remaining: self.countdown_remaining,
            tick: self.tick,
            reconnect_deadline_ms: self.reconnect_deadline_ms,
            outbox: self.outbox@,
        }
    }
}

impl MatchCore {
    /// An empty room, waiting for players.
    pub fn new() -> (r: Self)
        ensures
            r@ == (MatchView {
                left: None,
                right: None,
                next_player_id: 0,
                match_state: MatchState::Waiting,
                countdown_remaining: COUNTDOWN_SECONDS,
                tick: 0,
                reconnect_deadline_ms: 0,
                outbox: Seq::empty(),
            }),
    {
        MatchCore {
            left: None,
            right: None,
            next_player_id: 0,
            match_state: MatchState::Waiting,
            countdown_remaining: COUNTDOWN_SECONDS,
            tick: 0,
            reconnect_deadline_ms: 0,
            outbox: Vec::new(),
        }
    }

    /// Hands the outbox to the host, leaving it empty.
    pub fn take_effects(&mut self) -> (r: Vec<Effect>)
        ensures
            r@ == old(self)@.outbox,
            final(self)@ == (MatchView { outbox: Seq::empty(), ..old(self)@ }),
    {
        let mut out: Vec<Effect> = Vec::new();
        std::mem::swap(&mut out, &mut self.outbox);
        out
    }

    /// The slot of player `pid`.
    pub fn slot(&self, pid: u8) -> (r: Option<PlayerSlot>)
        ensures
            r == self@.slot(pid),
    {
        if pid == 0 {
            self.left
        } else if pid == 1 {
            self.right
        } else {
            None
        }
    }

    /// The number of players in the room.
    pub fn client_count(&self) -> (r: usize)
        ensures
            r == self@.count(),
    {
        (if self.left.is_some() { 1 } else { 0 }) + (if self.right.is_some() { 1 } else { 0 })
    }

    /// Whether player `pid` is in the room.
    pub fn has_player(&self, pid: u8) -> (r: bool)
        ensures
            r == self@.present(pid),
    {
        self.slot(pid).is_some()
    }

    fn set_slot(&mut self, pid: u8, s: Option<PlayerSlot>)
        ensures
            final(self)@ == old(self)@.with_slot(pid, s),
    {
        if pid == 0 {
            self.left = s;
        } else if pid == 1 {
            self.right = s;
        }
    }

    fn lowest_present(&self) -> (r: Option<u8>)
        ensures
            r == self@.lowest_present(),
    {
        if self.left.is_some() {
            Some(0)
        } else if self.right.is_some() {
            Some(1)
        } else {
            None
        }
    }

    fn lowest_disconnected(&self) -> (r: Option<u8>)
        ensures
            r == self@.lowest_disconnected(),
    {
        match self.left {
            Some(s) if !s.connected => { return Some(0); },
            _ => {},
        }
        match self.right {
            Some(s) if !s.connected => Some(1),
            _ => None,
        }
    }

    /// Whether player `pid` is in the room with its connection up.
    fn is_connected(&self, pid: u8) -> (r: bool)
        ensures
            r == self@.connected(pid),
    {
        match self.slot(pid) {
            Some(s) => s.connected,
            None => false,
        }
    }

    /// Queues a message for every player in the room whose connection is up
    /// (a slot held open for a reconnect receives nothing).
    pub fn broadcast_to_all(&mut self, msg: S2C)
        ensures
            final(self)@ == old(self)@.broadcast(msg),
    {
        let ghost before = self@;
        if self.is_connected(0) {
            self.outbox.push(Effect::Send(0, msg));
        }
        if self.is_connected(1) {
            self.outbox.push(Effect::Send(1, msg));
        }
        assert(self@.outbox =~= before.outbox + before.sends(msg));
    }

    /// Queues the current snapshot for every player whose connection is up.
    fn broadcast_current_state(&mut self)
        ensures
            final(self)@ == old(self)@.broadcast_current_state(),
    {
        let ghost before = self@;
        if self.is_connected(0) {
            self.outbox.push(Effect::SendState(0));
        }
        if self.is_connected(1) {
            self.outbox.push(Effect::SendState(1));
        }
        assert(self@.outbox =~= before.outbox + before.state_sends());
    }

    /// Queues the game-over message naming `winner`.
    pub fn broadcast_game_over(&mut self, winner: u8)
        ensures
            final(self)@ == old(self)@.broadcast(S2C::GameOver { winner }),
    {
        self.broadcast_to_all(S2C::GameOver { winner });
    }

    /// Try to add a player. Returns (player_id, was_empty) if successful.
    pub fn add_player(&mut self, now_ms: u64) -> (r: Option<(u8, bool)>)
        requires
            old(self)@.wf(),
        ensures
            (final(self)@, r) == old(self)@.add_player(now_ms),
            final(self)@.wf(),
    {
        let count = self.client_count();
        if count >= 2 {
            return None;
        }
        let player_id: u8 = if !self.has_player(self.next_player_id) {
            self.next_player_id
        } else {
            1 - self.next_player_id
        };
        let was_empty = count == 0;
        self.set_slot(player_id, Some(PlayerSlot { connected: true, last_activity: now_ms / 1000 }));
        self.next_player_id = (player_id + 1) % 2;
        self.outbox.push(Effect::AcceptClient(player_id));
        self.outbox.push(Effect::SpawnPaddle(player_id));
        if self.client_count() == 2 && self.match_state == MatchState::Waiting {
            self.match_state = MatchState::Countdown;
            self.countdown_remaining = COUNTDOWN_SECONDS;
            self.broadcast_to_all(S2C::MatchFound);
        }
        Some((player_id, was_empty))
    }

    /// A player leaves for good: forfeit mid-game, cancel a countdown, or
    /// tell the other player after a game over.
    pub fn remove_player(&mut self, player_id: u8)
        ensures
            final(self)@ == old(self)@.remove_player(player_id),
    {
        let state = self.match_state;
        self.set_slot(player_id, None);
        self.outbox.push(Effect::RemoveClient(player_id));
        self.outbox.push(Effect::DespawnPaddle(player_id));
        match state {
            MatchState::Playing => {
                if let Some(remaining) = self.lowest_present() {
                    self.match_state = MatchState::GameOver;
                    self.broadcast_game_over(remaining);
                } else {
                    self.match_state = MatchState::GameOver;
                }
            },
            MatchState::Countdown => {
                self.match_state = MatchState::Waiting;
                self.countdown_remaining = COUNTDOWN_SECONDS;
                self.broadcast_to_all(S2C::OpponentDisconnected);
            },
            MatchState::GameOver => {
                self.match_state = MatchState::Waiting;
                self.broadcast_to_all(S2C::OpponentDisconnected);
            },
            MatchState::Paused => {
                if let Some(remaining) = self.lowest_present() {
                    self.match_state = MatchState::GameOver;
                    self.broadcast_game_over(remaining);
                } else {
                    self.match_state = MatchState::Waiting;
                }
            },
            MatchState::Waiting => {},
        }
    }

    /// Handle a closed connection. Mid-match this starts a reconnect grace
    /// period (slot kept, simulation frozen); otherwise the player is removed.
    pub fn handle_disconnect(&mut self, player_id: u8, now_ms: u64)
        requires
            (old(self).match_state == MatchState::Playing || old(self).match_state == MatchState::Countdown)
                && old(self)@.present(player_id) ==> now_ms <= u64::MAX - RECONNECT_GRACE_MS,
        ensures
            final(self)@ == old(self)@.handle_disconnect(player_id, now_ms),
    {
        let mid_match = self.match_state == MatchState::Playing || self.match_state == MatchState::Countdown;
        match self.slot(player_id) {
            Some(s) if mid_match => {
                self.set_slot(player_id, Some(PlayerSlot { connected: false, ..s }));
                self.match_state = MatchState::Paused;
                self.reconnect_deadline_ms = now_ms + RECONNECT_GRACE_MS;
                self.broadcast_to_all(S2C::OpponentReconnecting);
            },
            _ => self.remove_player(player_id),
        }
    }

    /// Re-attach a returning player to their held-open slot and resume the
    /// match. Returns the reconnected player id, or None if there is no slot
    /// to resume.
    pub fn reconnect_player(&mut self, now_ms: u64) -> (r: Option<u8>)
        ensures
            (final(self)@, r) == old(self)@.reconnect_player(now_ms),
    {
        let pid = match self.lowest_disconnected() {
            Some(p) => p,
            None => return None,
        };
        self.set_slot(pid, Some(PlayerSlot { connected: true, last_activity: now_ms / 1000 }));
        self.outbox.push(Effect::AcceptClient(pid));
        self.broadcast_to_all(S2C::OpponentReconnected);
        self.match_state = MatchState::Countdown;
        self.countdown_remaining = COUNTDOWN_SECONDS;
        self.reconnect_deadline_ms = 0;
        Some(pid)
    }

    /// Paddle input: refreshes the player's activity and queues the input.
    pub fn handle_input(&mut self, player_id: u8, y_bits: u32, now_ms: u64)
        ensures
            final(self)@ == old(self)@.handle_input(player_id, y_bits, now_ms),
    {
        if let Some(s) = self.slot(player_id) {
            self.set_slot(player_id, Some(PlayerSlot { last_activity: now_ms / 1000, ..s }));
            self.outbox.push(Effect::QueueInput(player_id, y_bits));
        }
    }

    /// Reset for a rematch; a no-op outside a game over.
    pub fn restart_match(&mut self)
        ensures
            final(self)@ == old(self)@.restart_match(),
    {
        if self.match_state != MatchState::GameOver {
            return;
        }
        self.tick = 0;
        self.outbox.push(Effect::ResetWorld);
        if self.left.is_some() {
            self.outbox.push(Effect::SpawnPaddle(0));
        }
        if self.right.is_some() {
            self.outbox.push(Effect::SpawnPaddle(1));
        }
        self.match_state = MatchState::Countdown;
        self.countdown_remaining = COUNTDOWN_SECONDS;
        self.broadcast_to_all(S2C::Countdown { seconds: COUNTDOWN_SECONDS });
    }

    /// Process one countdown tick. Returns true if the countdown finished
    /// and the game started.
    pub fn tick_countdown(&mut self) -> (r: bool)
        ensures
            (final(self)@, r) == old(self)@.tick_countdown(),
    {
        if self.match_state != MatchState::Countdown {
            return false;
        }
        if self.countdown_remaining > 0 {
            let seconds = self.countdown_remaining;
            self.countdown_remaining = seconds - 1;
            self.broadcast_to_all(S2C::Countdown { seconds });
            false
        } else {
            self.match_state = MatchState::Playing;
            self.broadcast_to_all(S2C::GameStart);
            true
        }
    }

    /// Records one simulation step (the host steps the simulation only while
    /// playing) whose resulting score is `score`; returns the winner if the
    /// step ended the game.
    pub fn step(&mut self, score: &Score, win_score: u8) -> (r: Option<u8>)
        requires
            old(self).match_state == MatchState::Playing ==> old(self).tick < u32::MAX,
        ensures
            (final(self)@, r) == old(self)@.step(*score, win_score),
    {
        if self.match_state != MatchState::Playing {
            return None;
        }
        self.tick = self.tick + 1;
        match score.has_winner(win_score) {
            Some(w) => {
                self.match_state = MatchState::GameOver;
                self.broadcast_game_over(w.0);
                Some(w.0)
            },
            None => None,
        }
    }
    fn is_idle(&self, pid: u8, now_s: u64) -> (r: bool)
        ensures
            r == self@.is_idle(pid, now_s),
    {
        match self.slot(pid) {
            Some(s) => now_s.saturating_sub(s.last_activity) > IDLE_TIMEOUT_SECONDS,
            None => false,
        }
    }

    /// One alarm: removes players idle for longer than the timeout, then
    /// acts by state (countdown tick, reconnect-grace expiry) and says what
    /// the host does next.
    pub fn on_alarm(&mut self, now_ms: u64) -> (r: Alarm)
        ensures
            (final(self)@, r) == old(self)@.on_alarm(now_ms),
    {
        let now_s = now_ms / 1000;
        let idle0 = self.is_idle(0, now_s);
        let idle1 = self.is_idle(1, now_s);
        if idle0 {
            self.remove_player(0);
        }
        if idle1 {
            self.remove_player(1);
        }
        if self.client_count() == 0 {
            return Alarm::Stop;
        }
        match self.match_state {
            MatchState::Waiting => Alarm::Again(WAITING_ALARM_MS),
            MatchState::Countdown => {
                self.tick_countdown();
                Alarm::Again(COUNTDOWN_ALARM_MS)
            },
            MatchState::Playing => Alarm::Simulate,
            MatchState::Paused => {
                if now_ms >= self.reconnect_deadline_ms {
                    if let Some(p) = self.lowest_disconnected() {
                        self.remove_player(p);
                    }
                }
                Alarm::Again(WAITING_ALARM_MS)
            },
            MatchState::GameOver => Alarm::Again(WAITING_ALARM_MS),
        }
    }

    /// Queues the snapshot for everyone in the room (if anyone is there).
    pub fn broadcast_state(&mut self, snapshot: GameStateSnapshot)
        ensures
            final(self)@ == old(self)@.broadcast_state(snapshot),
    {
        self.broadcast_to_all(S2C::GameState(snapshot));
    }

    /// Handles a message from a connection tagged with `attached` (the
    /// player id it carries, if any): a join (or, while paused, a return to
    /// the held-open slot), paddle input, a rematch request or a ping.
    pub fn handle_c2s(&mut self, attached: Option<u8>, msg: C2S, now_ms: u64)
        requires
            old(self)@.wf(),
        ensures
            final(self)@ == old(self)@.handle_c2s(attached, msg, now_ms),
            final(self)@.wf(),
    {
        match msg {
            C2S::Join { .. } => {
                if self.match_state == MatchState::Paused {
                    if let Some(pid) = self.reconnect_player(now_ms) {
                        self.outbox.push(Effect::AttachPlayer(pid));
                        self.outbox.push(Effect::Reply(S2C::Welcome { player_id: pid }));
                        self.outbox.push(Effect::ReplyState);
                    }
                } else {
                    if let Some((pid, was_empty)) = self.add_player(now_ms) {
                        self.outbox.push(Effect::AttachPlayer(pid));
                        self.outbox.push(Effect::Reply(S2C::Welcome { player_id: pid }));
                        self.broadcast_current_state();
                        if was_empty {
                            self.outbox.push(Effect::StartAlarm);
                        }
                    }
                }
            },
            C2S::Input { player_id, y_bits, .. } => self.handle_input(player_id, y_bits, now_ms),
            C2S::Restart => self.restart_match(),
            C2S::Ping { t_ms } => {
                if let Some(pid) = attached {
                    if let Some(s) = self.slot(pid) {
                        self.set_slot(pid, Some(PlayerSlot { last_activity: now_ms / 1000, ..s }));
                    }
                }
                self.outbox.push(Effect::Reply(S2C::Pong { t_ms }));
            },
        }
    }
}

} // verus!

verus! {

/// The room holds at most two players: a join is refused exactly when both
/// slots are taken, and an accepted player gets a slot that was free (the
/// other slot is left alone).
pub proof fn lemma_join_takes_a_free_slot(v: MatchView, now_ms: u64)
    requires
        v.wf(),
    ensures
        v.add_player(now_ms).1 is None <==> v.count() == 2,
        v.add_player(now_ms).1 matches Some((pid, was_empty)) ==> {
            let w = v.add_player(now_ms).0;
            &&& pid < 2
            &&& !v.present(pid)
            &&& w.slot(pid) == Some(PlayerSlot { connected: true, last_activity: now_ms / 1000 })
            &&& w.slot((1 - pid) as u8) == v.slot((1 - pid) as u8)
            &&& w.count() == v.count() + 1
            &&& was_empty == (v.count() == 0)
            &&& w.wf()
        },
{
}

/// The second player to join a waiting room starts the countdown, and both
/// players are told that the match was found.
pub proof fn lemma_second_join_starts_countdown(v: MatchView, now_ms: u64)
    requires
        v.wf(),
        v.count() == 1,
        v.lowest_disconnected() is None,
        v.match_state == MatchState::Waiting,
    ensures
        ({
            let w = v.add_player(now_ms).0;
            &&& w.match_state == MatchState::Countdown
            &&& w.countdown_remaining == COUNTDOWN_SECONDS
            &&& w.outbox.subrange(w.outbox.len() - 2, w.outbox.len() as int) == seq![
                Effect::Send(0, S2C::MatchFound),
                Effect::Send(1, S2C::MatchFound),
            ]
        }),
{
    let w = v.add_player(now_ms).0;
    assert(w.outbox.subrange(w.outbox.len() - 2, w.outbox.len() as int) =~= seq![
        Effect::Send(0, S2C::MatchFound),
        Effect::Send(1, S2C::MatchFound),
    ]);
}

/// A player who drops mid-match keeps their slot while the match is paused,
/// and returning resumes it: the same player id, a fresh countdown, the grace
/// deadline cleared, the other player untouched, and the world (ball,
/// paddles, score, tick) as it was: no effect but the notices and the new
/// connection. The notice that the player is reconnecting goes only to the
/// other player; the notice that they are back goes to both.
pub proof fn lemma_disconnect_then_reconnect(v: MatchView, pid: u8, t_drop: u64, t_back: u64)
    requires
        v.match_state == MatchState::Playing || v.match_state == MatchState::Countdown,
        pid < 2,
        v.count() == 2,
        v.lowest_disconnected() is None,
        t_drop <= u64::MAX - RECONNECT_GRACE_MS,
    ensures
        ({
            let v1 = v.handle_disconnect(pid, t_drop);
            let (v2, r) = v1.reconnect_player(t_back);
            &&& v1.match_state == MatchState::Paused
            &&& v1.reconnect_deadline_ms == t_drop + RECONNECT_GRACE_MS
            &&& v1.slot(pid) matches Some(s) && !s.connected
            &&& v1.count() == v.count()
            &&& r == Some(pid)
            &&& v2.match_state == MatchState::Countdown
            &&& v2.countdown_remaining == COUNTDOWN_SECONDS
            &&& v2.reconnect_deadline_ms == 0
            &&& v2.slot(pid) == Some(PlayerSlot { connected: true, last_activity: t_back / 1000 })
            &&& v2.slot((1 - pid) as u8) == v.slot((1 - pid) as u8)
            &&& v2.tick == v.tick
            &&& v2.outbox == v.outbox + seq![
                Effect::Send((1 - pid) as u8, S2C::OpponentReconnecting),
                Effect::AcceptClient(pid),
                Effect::Send(0, S2C::OpponentReconnected),
                Effect::Send(1, S2C::OpponentReconnected),
            ]
        }),
{
    let v1 = v.handle_disconnect(pid, t_drop);
    assert(v1.lowest_disconnected() == Some(pid));
    let (v2, r) = v1.reconnect_player(t_back);
    assert(v2.outbox =~= v.outbox + seq![
        Effect::Send((1 - pid) as u8, S2C::OpponentReconnecting),
        Effect::AcceptClient(pid),
        Effect::Send(0, S2C::OpponentReconnected),
        Effect::Send(1, S2C::OpponentReconnected),
    ]);
}

/// When the grace period of a player who dropped mid-match runs out, the
/// player still in the room wins by forfeit, and is told so.
pub proof fn lemma_grace_expiry_forfeits(v: MatchView, pid: u8, t_drop: u64)
    requires
        v.match_state == MatchState::Playing || v.match_state == MatchState::Countdown,
        pid < 2,
        v.count() == 2,
        v.lowest_disconnected() is None,
        t_drop <= u64::MAX - RECONNECT_GRACE_MS,
    ensures
        ({
            let w = v.handle_disconnect(pid, t_drop).remove_player(pid);
            &&& w.match_state == MatchState::GameOver
            &&& !w.present(pid)
            &&& w.slot((1 - pid) as u8) == v.slot((1 - pid) as u8)
            &&& w.outbox.last() == Effect::Send((1 - pid) as u8, S2C::GameOver { winner: (1 - pid) as u8 })
        }),
{
}

/// A countdown from three announces 3, 2 and 1, one per tick, then the next
/// tick starts the game; every announcement goes to each connected player.
pub proof fn lemma_countdown_starts_game(v: MatchView)
    requires
        v.match_state == MatchState::Countdown,
        v.countdown_remaining == COUNTDOWN_SECONDS,
    ensures
        ({
            let (v1, r1) = v.tick_countdown();
            let (v2, r2) = v1.tick_countdown();
            let (v3, r3) = v2.tick_countdown();
            let (v4, r4) = v3.tick_countdown();
            &&& !r1 && !r2 && !r3 && r4
            &&& v3.match_state == MatchState::Countdown
            &&& v4.match_state == MatchState::Playing
            &&& v4.outbox == v.outbox + v.sends(S2C::Countdown { seconds: 3 }) + v.sends(
                S2C::Countdown { seconds: 2 },
            ) + v.sends(S2C::Countdown { seconds: 1 }) + v.sends(S2C::GameStart)
        }),
{
    let (v1, r1) = v.tick_countdown();
    let (v2, r2) = v1.tick_countdown();
    let (v3, r3) = v2.tick_countdown();
    let (v4, r4) = v3.tick_countdown();
    assert(v4.outbox =~= v.outbox + v.sends(S2C::Countdown { seconds: 3 }) + v.sends(
        S2C::Countdown { seconds: 2 },
    ) + v.sends(S2C::Countdown { seconds: 1 }) + v.sends(S2C::GameStart));
}

/// A rematch happens only after a game over; it keeps the players, resets
/// the world, re-spawns each present player's own paddle once (lowest id
/// first, none for an empty slot) and counts down again, telling each
/// connected player.
pub proof fn lemma_rematch(v: MatchView)
    ensures
        v.match_state != MatchState::GameOver ==> v.restart_match() == v,
        v.match_state == MatchState::GameOver ==> {
            let w = v.restart_match();
            &&& w.left == v.left && w.right == v.right
            &&& w.match_state == MatchState::Countdown
            &&& w.countdown_remaining == COUNTDOWN_SECONDS
            &&& w.tick == 0
            &&& w.outbox == v.outbox + seq![Effect::ResetWorld] + (if v.present(0) {
                seq![Effect::SpawnPaddle(0)]
            } else {
                Seq::empty()
            }) + (if v.present(1) {
                seq![Effect::SpawnPaddle(1)]
            } else {
                Seq::empty()
            }) + v.sends(S2C::Countdown { seconds: COUNTDOWN_SECONDS })
        },
{
    if v.match_state == MatchState::GameOver {
        let w = v.restart_match();
        assert(w.outbox =~= v.outbox + seq![Effect::ResetWorld] + (if v.present(0) {
            seq![Effect::SpawnPaddle(0)]
        } else {
            Seq::empty()
        }) + (if v.present(1) {
            seq![Effect::SpawnPaddle(1)]
        } else {
            Seq::empty()
        }) + v.sends(S2C::Countdown { seconds: COUNTDOWN_SECONDS }));
    }
}

/// A player leaves for good: their slot is emptied, the other slot is left
/// alone, the host is told to drop the connection and the paddle, and then,
/// by the state of the match, the players still connected are told: during
/// play or a paused match the one left wins by forfeit; a countdown is
/// cancelled and after a game over the room waits again, in both cases with
/// the news that the opponent left; a waiting room just loses the player.
pub proof fn lemma_leaving_player(v: MatchView, p: u8)
    requires
        p < 2,
    ensures
        ({
            let w = v.remove_player(p);
            let rest = v.with_slot(p, None);
            let other = (1 - p) as u8;
            let base = v.outbox + seq![Effect::RemoveClient(p), Effect::DespawnPaddle(p)];
            &&& !w.present(p)
            &&& w.slot(other) == v.slot(other)
            &&& w.tick == v.tick
            &&& match v.match_state {
                MatchState::Waiting => w.match_state == MatchState::Waiting && w.outbox == base,
                MatchState::Countdown => {
                    &&& w.match_state == MatchState::Waiting
                    &&& w.countdown_remaining == COUNTDOWN_SECONDS
                    &&& w.outbox == base + rest.sends(S2C::OpponentDisconnected)
                },
                MatchState::GameOver => w.match_state == MatchState::Waiting && w.outbox == base
                    + rest.sends(S2C::OpponentDisconnected),
                MatchState::Playing => {
                    &&& w.match_state == MatchState::GameOver
                    &&& (v.present(other) ==> w.outbox == base + rest.sends(S2C::GameOver { winner: other }))
                    &&& (!v.present(other) ==> w.outbox == base)
                },
                MatchState::Paused => {
                    &&& (v.present(other) ==> w.match_state == MatchState::GameOver && w.outbox == base
                        + rest.sends(S2C::GameOver { winner: other }))
                    &&& (!v.present(other) ==> w.match_state == MatchState::Waiting && w.outbox == base)
                },
            }
        }),
{
    let w = v.remove_player(p);
    let rest = v.with_slot(p, None);
    let base = v.outbox + seq![Effect::RemoveClient(p), Effect::DespawnPaddle(p)];
    assert(rest.emit(Effect::RemoveClient(p)).emit(Effect::DespawnPaddle(p)).outbox =~= base);
    assert(rest.emit(Effect::RemoveClient(p)).emit(Effect::DespawnPaddle(p)).sends(S2C::OpponentDisconnected)
        == rest.sends(S2C::OpponentDisconnected));
    assert(rest.emit(Effect::RemoveClient(p)).emit(Effect::DespawnPaddle(p)).sends(S2C::GameOver { winner: (1 - p) as u8 })
        == rest.sends(S2C::GameOver { winner: (1 - p) as u8 }));
}

/// The alarm loop runs as long as someone is in the room: it stops exactly
/// when every player present has been idle for too long. With nobody idle,
/// it keeps the room as it is while waiting or after a game over and comes
/// back in `WAITING_ALARM_MS`, counts down once a second, asks for the
/// simulation while playing, and keeps checking a paused match.
pub proof fn lemma_alarm_runs_while_occupied(v: MatchView, now_ms: u64)
    ensures
        (v.on_alarm(now_ms).1 == Alarm::Stop) <==> ((v.present(0) ==> v.is_idle(0, now_ms / 1000)) && (v.present(
            1,
        ) ==> v.is_idle(1, now_ms / 1000))),
        (v.count() > 0 && !v.is_idle(0, now_ms / 1000) && !v.is_idle(1, now_ms / 1000)) ==> match v.match_state {
            MatchState::Waiting => v.on_alarm(now_ms) == (v, Alarm::Again(WAITING_ALARM_MS)),
            MatchState::GameOver => v.on_alarm(now_ms) == (v, Alarm::Again(WAITING_ALARM_MS)),
            MatchState::Countdown => v.on_alarm(now_ms) == (v.tick_countdown().0, Alarm::Again(COUNTDOWN_ALARM_MS)),
            MatchState::Playing => v.on_alarm(now_ms) == (v, Alarm::Simulate),
            MatchState::Paused => v.on_alarm(now_ms).1 == Alarm::Again(WAITING_ALARM_MS),
        },
{
    let now_s = now_ms / 1000;
    let v1 = if v.is_idle(0, now_s) { v.remove_player(0) } else { v };
    assert(v1.slot(1) == v.slot(1));
    assert(v1.is_idle(1, now_s) == v.is_idle(1, now_s));
}

/// Outside play, nothing advances: a step neither counts a tick nor ends the
/// game; during play the tick advances and a winning score ends the game
/// with that winner announced to each connected player.
pub proof fn lemma_steps_only_while_playing(v: MatchView, score: Score, win_score: u8)
    requires
        v.match_state == MatchState::Playing ==> v.tick < u32::MAX,
    ensures
        v.match_state != MatchState::Playing ==> v.step(score, win_score) == (v, None::<u8>),
        v.match_state == MatchState::Playing ==> {
            let (w, r) = v.step(score, win_score);
            &&& w.tick == v.tick + 1
            &&& (r is Some <==> w.match_state == MatchState::GameOver)
            &&& (match spec_winner(score.left, score.right, win_score) {
                Some(p) => r == Some(p.0) && w.outbox == v.outbox + v.sends(S2C::GameOver { winner: p.0 }),
                None => r is None && w.outbox == v.outbox,
            })
        },
{
}

/// A broadcast reaches exactly the players whose connection is up, each
/// once, lowest id first: never a slot held open for a reconnect.
pub proof fn lemma_broadcast_reaches_connected_players(v: MatchView, msg: S2C)
    ensures
        forall|i: int| 0 <= i < v.sends(msg).len() ==> (#[trigger] v.sends(msg)[i] matches Effect::Send(pid, m) && m
            == msg && v.connected(pid)),
        v.connected(0) ==> v.sends(msg)[0] == Effect::Send(0, msg),
        v.connected(1) ==> v.sends(msg).last() == Effect::Send(1, msg),
        v.sends(msg).len() == (if v.connected(0) { 1int } else { 0int }) + (if v.connected(1) { 1int } else { 0int }),
{
}

/// An empty room stops the alarm loop.
pub proof fn lemma_empty_room_stops_alarm(v: MatchView, now_ms: u64)
    requires
        v.count() == 0,
    ensures
        v.on_alarm(now_ms) == (v, Alarm::Stop),
{
}

/// The catch-up never falls behind: an alarm that starts with less than one
/// step of time left over ends with less than one step left over, and runs
/// at most seven steps (the cap of ten is never reached).
pub proof fn lemma_catch_up_keeps_pace(accumulator_ms: u64, elapsed_ms: u64)
    requires
        accumulator_ms < PLAYING_ALARM_MS,
    ensures
        spec_catch_up(accumulator_ms, elapsed_ms).1 < PLAYING_ALARM_MS,
        spec_catch_up(accumulator_ms, elapsed_ms).0 <= 7,
{
    let total: int = accumulator_ms + (if elapsed_ms < MAX_CATCH_UP_MS { elapsed_ms } else { MAX_CATCH_UP_MS });
    assert(0 <= total < 116);
    assert(total / 16 <= 7 && total - (total / 16) * 16 < 16 && total - (total / 16) * 16 >= 0) by (nonlinear_arith)
        requires
            0 <= total < 116,
    ;
}


/// Paddle input is an absolute, idempotent position: its sequence number is
/// ignored.
pub proof fn lemma_input_ignores_seq(v: MatchView, attached: Option<u8>, player_id: u8, y_bits: u32, seq1: u32, seq2: u32, now_ms: u64)
    ensures
        v.handle_c2s(attached, C2S::Input { player_id, y_bits, seq: seq1 }, now_ms)
            == v.handle_c2s(attached, C2S::Input { player_id, y_bits, seq: seq2 }, now_ms),
{
}

/// A ping from a player in the room refreshes their activity, so the idle
/// reaper leaves them alone for `IDLE_TIMEOUT_SECONDS` after it; it is
/// always answered with a `Pong` carrying the same stamp.
pub proof fn lemma_ping_keeps_player_alive(v: MatchView, pid: u8, t_ms: u32, now_ms: u64, later_s: u64)
    requires
        v.present(pid),
        later_s <= now_ms / 1000 + IDLE_TIMEOUT_SECONDS,
    ensures
        ({
            let w = v.handle_c2s(Some(pid), C2S::Ping { t_ms }, now_ms);
            &&& w.slot(pid) matches Some(s) && s.last_activity == now_ms / 1000
            &&& !w.is_idle(pid, later_s)
            &&& w.outbox == v.outbox.push(Effect::Reply(S2C::Pong { t_ms }))
        }),
{
}

/// While a match is paused for a reconnect, a `Join` takes the slot that is
/// held open (whoever sends it): the player id is handed back to the new
/// connection with a welcome and the current state, the connected players
/// are told, and the match resumes with a fresh countdown.
pub proof fn lemma_join_while_paused_resumes_held_slot(v: MatchView, attached: Option<u8>, code: [u8; 5], now_ms: u64)
    requires
        v.match_state == MatchState::Paused,
        v.lowest_disconnected() matches Some(_),
    ensures
        ({
            let pid = v.lowest_disconnected()->0;
            let back = v.with_slot(pid, Some(PlayerSlot { connected: true, last_activity: now_ms / 1000 }));
            let w = v.handle_c2s(attached, C2S::Join { code }, now_ms);
            &&& w.slot(pid) == Some(PlayerSlot { connected: true, last_activity: now_ms / 1000 })
            &&& w.slot((1 - pid) as u8) == v.slot((1 - pid) as u8)
            &&& w.match_state == MatchState::Countdown
            &&& w.countdown_remaining == COUNTDOWN_SECONDS
            &&& w.reconnect_deadline_ms == 0
            &&& back.connected(pid)
            &&& w.outbox == v.outbox + seq![Effect::AcceptClient(pid)] + back.sends(S2C::OpponentReconnected)
                + seq![
                Effect::AttachPlayer(pid),
                Effect::Reply(S2C::Welcome { player_id: pid }),
                Effect::ReplyState,
            ]
        }),
{
    let pid = v.lowest_disconnected()->0;
    let back = v.with_slot(pid, Some(PlayerSlot { connected: true, last_activity: now_ms / 1000 }));
    let w = v.handle_c2s(attached, C2S::Join { code }, now_ms);
    assert(w.outbox =~= v.outbox + seq![Effect::AcceptClient(pid)] + back.sends(S2C::OpponentReconnected) + seq![
        Effect::AttachPlayer(pid),
        Effect::Reply(S2C::Welcome { player_id: pid }),
        Effect::ReplyState,
    ]);
}

/// Paddle input from a player in the room refreshes that player's activity
/// and queues exactly that input; the other slot, the match state and the
/// tick are untouched. Input naming a player not in the room changes nothing.
pub proof fn lemma_input_from_player(v: MatchView, p: u8, y_bits: u32, now_ms: u64)
    requires
        p < 2,
    ensures
        ({
            let w = v.handle_input(p, y_bits, now_ms);
            let other = (1 - p) as u8;
            &&& v.present(p) ==> {
                &&& w.slot(p) == Some(PlayerSlot { connected: v.slot(p)->0.connected, last_activity: now_ms / 1000 })
                &&& w.slot(other) == v.slot(other)
                &&& w.outbox == v.outbox.push(Effect::QueueInput(p, y_bits))
                &&& w.match_state == v.match_state && w.tick == v.tick
            }
            &&& !v.present(p) ==> w == v
        }),
{
}

/// A paused match whose reconnect deadline has passed is forfeited to the
/// player still connected, who is told; before the deadline the alarm leaves
/// the paused match alone and comes back in `WAITING_ALARM_MS`.
pub proof fn lemma_paused_alarm_forfeits_at_deadline(v: MatchView, d: u8, now_ms: u64)
    requires
        d < 2,
        v.match_state == MatchState::Paused,
        v.lowest_disconnected() == Some(d),
        v.connected((1 - d) as u8),
        !v.is_idle(0, now_ms / 1000),
        !v.is_idle(1, now_ms / 1000),
    ensures
        ({
            let (w, a) = v.on_alarm(now_ms);
            let other = (1 - d) as u8;
            &&& a == Alarm::Again(WAITING_ALARM_MS)
            &&& now_ms >= v.reconnect_deadline_ms ==> {
                &&& w.match_state == MatchState::GameOver
                &&& !w.present(d)
                &&& w.slot(other) == v.slot(other)
                &&& w.outbox.last() == Effect::Send(other, S2C::GameOver { winner: other })
            }
            &&& now_ms < v.reconnect_deadline_ms ==> w == v
        }),
{
}

/// The y reported for a player is that of the player's paddle when the
/// player has exactly one, and the arena's centre when the player has none.
pub proof fn lemma_paddle_y_of_reads_own_paddle(paddles: Seq<(u8, u32)>, pid: u8, i: int)
    ensures
        (forall|j: int| 0 <= j < paddles.len() ==> #[trigger] paddles[j].0 != pid) ==> paddle_y_of(paddles, pid)
            == CENTER_Y_BITS,
        (0 <= i < paddles.len() && paddles[i].0 == pid && (forall|j: int|
            0 <= j < paddles.len() && j != i ==> #[trigger] paddles[j].0 != pid)) ==> paddle_y_of(paddles, pid)
            == paddles[i].1,
    decreases paddles.len(),
{
    if paddles.len() > 0 {
        let rest = paddles.drop_last();
        assert forall|j: int| 0 <= j < rest.len() implies #[trigger] rest[j] == paddles[j] by {}
        lemma_paddle_y_of_reads_own_paddle(rest, pid, i);
        if 0 <= i < paddles.len() && paddles[i].0 == pid && (forall|j: int|
            0 <= j < paddles.len() && j != i ==> #[trigger] paddles[j].0 != pid) {
            if i < paddles.len() - 1 {
                assert(paddles.last().0 != pid);
                assert(rest[i] == paddles[i]);
                assert forall|j: int| 0 <= j < rest.len() && j != i implies #[trigger] rest[j].0 != pid by {
                    assert(rest[j] == paddles[j]);
                }
            }
        }
        if forall|j: int| 0 <= j < paddles.len() ==> #[trigger] paddles[j].0 != pid {
            assert(paddles.last() == paddles[paddles.len() - 1]);
            assert forall|j: int| 0 <= j < rest.len() implies #[trigger] rest[j].0 != pid by {
                assert(rest[j] == paddles[j]);
            }
        }
    }
}

} // verus!
