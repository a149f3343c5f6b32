//! The client's game-flow state machine.
//!
//! The machine only answers "is this transition allowed, and where does it
//! lead?"; the side effects of entering or leaving a state belong to the
//! caller.
use vstd::prelude::*;
use crate::text::{owned, str_eq};

verus! {

/// Where the client's game flow currently is.
#[derive(Debug, Clone, Copy, PartialEq, Eq, Structural)]
pub enum FsmState {
    Idle,
    CountdownLocal,
    PlayingLocal,
    Paused,
    Connecting,
    Waiting,
    CountdownMulti,
    PlayingMulti,
    GameOverLocal,
    GameOverMulti,
    Disconnected,
    Reconnecting,
}

/// Something that happened and may move the flow to another state.
#[derive(Debug, Clone, Copy, PartialEq, Eq, Structural)]
pub enum GameAction {
    StartLocal,
    CreateMatch,
    JoinMatch,
    CountdownDone,
    Quit,
    GameOver,
    Connected,
    ConnectionFailed,
    OpponentJoined,
    Disconnected,
    Leave,
    PlayAgain,
    RematchStarted,
    Pause,
    Resume,
    ConnectionLost,
    Reconnected,
    ReconnectFailed,
}

/// The transition table: the next state for `action` taken in `state`, or
/// `None` when the pair is not a valid transition.
pub open spec fn next_state(state: FsmState, action: GameAction) -> Option<FsmState> {
    match (state, action) {
        (FsmState::Idle, GameAction::StartLocal) => Some(FsmState::CountdownLocal),
        (FsmState::Idle, GameAction::CreateMatch) => Some(FsmState::Connecting),
        (FsmState::Idle, GameAction::JoinMatch) => Some(FsmState::Connecting),
        (FsmState::CountdownLocal, GameAction::CountdownDone) => Some(FsmState::PlayingLocal),
        (FsmState::CountdownLocal, GameAction::Quit) => Some(FsmState::Idle),
        (FsmState::PlayingLocal, GameAction::GameOver) => Some(FsmState::GameOverLocal),
        (FsmState::PlayingLocal, GameAction::Quit) => Some(FsmState::Idle),
        (FsmState::PlayingLocal, GameAction::Pause) => Some(FsmState::Paused),
        (FsmState::Paused, GameAction::Resume) => Some(FsmState::PlayingLocal),
        (FsmState::Paused, GameAction::Quit) => Some(FsmState::Idle),
        (FsmState::Connecting, GameAction::Connected) => Some(FsmState::Waiting),
        (FsmState::Connecting, GameAction::ConnectionFailed) => Some(FsmState::Idle),
        (FsmState::Waiting, GameAction::OpponentJoined) => Some(FsmState::CountdownMulti),
        (FsmState::Waiting, GameAction::Disconnected) => Some(FsmState::Idle),
        (FsmState::Waiting, GameAction::Leave) => Some(FsmState::Idle),
        (FsmState::CountdownMulti, GameAction::CountdownDone) => Some(FsmState::PlayingMulti),
        (FsmState::CountdownMulti, GameAction::Disconnected) => Some(FsmState::Disconnected),
        (FsmState::CountdownMulti, GameAction::ConnectionLost) => Some(FsmState::Reconnecting),
        (FsmState::PlayingMulti, GameAction::GameOver) => Some(FsmState::GameOverMulti),
        (FsmState::PlayingMulti, GameAction::Disconnected) => Some(FsmState::Disconnected),
        (FsmState::PlayingMulti, GameAction::ConnectionLost) => Some(FsmState::Reconnecting),
        (FsmState::Reconnecting, GameAction::Reconnected) => Some(FsmState::CountdownMulti),
        (FsmState::Reconnecting, GameAction::ReconnectFailed) => Some(FsmState::Disconnected),
        (FsmState::Reconnecting, GameAction::Disconnected) => Some(FsmState::Disconnected),
        (FsmState::Reconnecting, GameAction::Leave) => Some(FsmState::Idle),
        (FsmState::GameOverLocal, GameAction::PlayAgain) => Some(FsmState::CountdownLocal),
        (FsmState::GameOverLocal, GameAction::Leave) => Some(FsmState::Idle),
        (FsmState::GameOverMulti, GameAction::RematchStarted) => Some(FsmState::CountdownMulti),
        (FsmState::GameOverMulti, GameAction::Disconnected) => Some(FsmState::Disconnected),
        (FsmState::GameOverMulti, GameAction::Leave) => Some(FsmState::Idle),
        (FsmState::Disconnected, GameAction::Leave) => Some(FsmState::Idle),
        _ => None,
    }
}

/// The name under which JavaScript reports a state.
pub open spec fn state_name(state: FsmState) -> Seq<char> {
    match state {
        FsmState::Idle => "Idle"@,
        FsmState::CountdownLocal => "CountdownLocal"@,
        FsmState::PlayingLocal => "PlayingLocal"@,
        FsmState::Paused => "Paused"@,
        FsmState::Connecting => "Connecting"@,
        FsmState::Waiting => "Waiting"@,
        FsmState::CountdownMulti => "CountdownMulti"@,
        FsmState::PlayingMulti => "PlayingMulti"@,
        FsmState::GameOverLocal => "GameOverLocal"@,
        FsmState::GameOverMulti => "GameOverMulti"@,
        FsmState::Disconnected => "Disconnected"@,
        FsmState::Reconnecting => "Reconnecting"@,
    }
}

/// The name under which JavaScript sends an action.
pub open spec fn action_name(action: GameAction) -> Seq<char> {
    match action {
        GameAction::StartLocal => "START_LOCAL"@,
        GameAction::CreateMatch => "CREATE_MATCH"@,
        GameAction::JoinMatch => "JOIN_MATCH"@,
        GameAction::CountdownDone => "COUNTDOWN_DONE"@,
        GameAction::Quit => "QUIT"@,
        GameAction::GameOver => "GAME_OVER"@,
        GameAction::Connected => "CONNECTED"@,
        GameAction::ConnectionFailed => "CONNECTION_FAILED"@,
        GameAction::OpponentJoined => "OPPONENT_JOINED"@,
        GameAction::Disconnected => "DISCONNECTED"@,
        GameAction::Leave => "LEAVE"@,
        GameAction::PlayAgain => "PLAY_AGAIN"@,
        GameAction::RematchStarted => "REMATCH_STARTED"@,
        GameAction::Pause => "PAUSE"@,
        GameAction::Resume => "RESUME"@,
        GameAction::ConnectionLost => "CONNECTION_LOST"@,
        GameAction::Reconnected => "RECONNECTED"@,
        GameAction::ReconnectFailed => "RECONNECT_FAILED"@,
    }
}

/// The action that a JavaScript action name stands for, if any.
pub open spec fn parse_action(name: Seq<char>) -> Option<GameAction> {
    if name == "START_LOCAL"@ { Some(GameAction::StartLocal) }
    else if name == "CREATE_MATCH"@ { Some(GameAction::CreateMatch) }
    else if name == "JOIN_MATCH"@ { Some(GameAction::JoinMatch) }
    else if name == "COUNTDOWN_DONE"@ { Some(GameAction::CountdownDone) }
    else if name == "QUIT"@ { Some(GameAction::Quit) }
    else if name == "GAME_OVER"@ { Some(GameAction::GameOver) }
    else if name == "CONNECTED"@ { Some(GameAction::Connected) }
    else if name == "CONNECTION_FAILED"@ { Some(GameAction::ConnectionFailed) }
    else if name == "OPPONENT_JOINED"@ { Some(GameAction::OpponentJoined) }
    else if name == "DISCONNECTED"@ { Some(GameAction::Disconnected) }
    else if name == "LEAVE"@ { Some(GameAction::Leave) }
    else if name == "PLAY_AGAIN"@ { Some(GameAction::PlayAgain) }
    else if name == "REMATCH_STARTED"@ { Some(GameAction::RematchStarted) }
    else if name == "PAUSE"@ { Some(GameAction::Pause) }
    else if name == "RESUME"@ { Some(GameAction::Resume) }
    else if name == "CONNECTION_LOST"@ { Some(GameAction::ConnectionLost) }
    else if name == "RECONNECTED"@ { Some(GameAction::Reconnected) }
    else if name == "RECONNECT_FAILED"@ { Some(GameAction::ReconnectFailed) }
    else { None }
}

/// Result of a state transition.
#[derive(Debug, Clone, Copy, PartialEq, Eq, Structural)]
pub struct TransitionResult {
    pub success: bool,
    pub from_state: FsmState,
    pub to_state: FsmState,
}

impl TransitionResult {
    /// The outcome of taking `action` in `from`, as the transition table has it.
    pub open spec fn spec_of(from: FsmState, action: GameAction) -> TransitionResult {
        match next_state(from, action) {
            Some(to) => TransitionResult { success: true, from_state: from, to_state: to },
            None => TransitionResult { success: false, from_state: from, to_state: from },
        }
    }

    /// A refused transition, which leaves the machine in `from`.
    pub open spec fn refused(from: FsmState) -> TransitionResult {
        TransitionResult { success: false, from_state: from, to_state: from }
    }

    /// Whether the transition was taken.
    pub fn success(&self) -> (r: bool)
        ensures
            r == self.success,
    {
        self.success
    }

    /// The state before the transition.
    pub fn from_state(&self) -> (r: FsmState)
        ensures
            r == self.from_state,
    {
        self.from_state
    }

    /// The state after the transition (the same as before when refused).
    pub fn to_state(&self) -> (r: FsmState)
        ensures
            r == self.to_state,
    {
        self.to_state
    }
}

/// The game's finite state machine: it holds only the current state.
pub struct GameFsm {
    state: FsmState,
}

impl GameFsm {
    pub closed spec fn spec_state(&self) -> FsmState {
        self.state
    }

    /// A machine in `Idle`.
    pub fn new() -> (r: Self)
        ensures
            r.spec_state() == FsmState::Idle,
    {
        GameFsm { state: FsmState::Idle }
    }

    /// The current state.
    pub fn state(&self) -> (r: FsmState)
        ensures
            r == self.spec_state(),
    {
        self.state
    }

    /// The current state's name, for JavaScript.
    pub fn state_string(&self) -> (r: String)
        ensures
            r@ == state_name(self.spec_state()),
    {
        match self.state {
            FsmState::Idle => owned("Idle"),
            FsmState::CountdownLocal => owned("CountdownLocal"),
            FsmState::PlayingLocal => owned("PlayingLocal"),
            FsmState::Paused => owned("Paused"),
            FsmState::Connecting => owned("Connecting"),
            FsmState::Waiting => owned("Waiting"),
            FsmState::CountdownMulti => owned("CountdownMulti"),
            FsmState::PlayingMulti => owned("PlayingMulti"),
            FsmState::GameOverLocal => owned("GameOverLocal"),
            FsmState::GameOverMulti => owned("GameOverMulti"),
            FsmState::Disconnected => owned("Disconnected"),
            FsmState::Reconnecting => owned("Reconnecting"),
        }
    }

    /// Attempt a transition: taken when the table allows it, refused (and the
    /// state kept) otherwise.
    pub fn transition(&mut self, action: GameAction) -> (r: TransitionResult)
        ensures
            r == TransitionResult::spec_of(old(self).spec_state(), action),
            final(self).spec_state() == r.to_state,
    {
        let from_state = self.state;
        match self.get_next_state(action) {
            Some(next) => {
                self.state = next;
                TransitionResult { success: true, from_state, to_state: next }
            },
            None => TransitionResult { success: false, from_state, to_state: from_state },
        }
    }

    /// Transition by the action's JavaScript name; an unknown name is refused.
    pub fn transition_str(&mut self, action: &str) -> (r: TransitionResult)
        ensures
            r == (match parse_action(action@) {
                Some(a) => TransitionResult::spec_of(old(self).spec_state(), a),
                None => TransitionResult::refused(old(self).spec_state()),
            }),
            final(self).spec_state() == r.to_state,
    {
        let parsed = parse_action_name(action);
        match parsed {
            Some(a) => self.transition(a),
            None => TransitionResult { success: false, from_state: self.state, to_state: self.state },
        }
    }

    /// Next state for a given action, or `None` if the transition is invalid.
    fn get_next_state(&self, action: GameAction) -> (r: Option<FsmState>)
        ensures
            r == next_state(self.spec_state(), action),
    {
        match (self.state, action) {
            (FsmState::Idle, GameAction::StartLocal) => Some(FsmState::CountdownLocal),
            (FsmState::Idle, GameAction::CreateMatch) => Some(FsmState::Connecting),
            (FsmState::Idle, GameAction::JoinMatch) => Some(FsmState::Connecting),
            (FsmState::CountdownLocal, GameAction::CountdownDone) => Some(FsmState::PlayingLocal),
            (FsmState::CountdownLocal, GameAction::Quit) => Some(FsmState::Idle),
            (FsmState::PlayingLocal, GameAction::GameOver) => Some(FsmState::GameOverLocal),
            (FsmState::PlayingLocal, GameAction::Quit) => Some(FsmState::Idle),
            (FsmState::PlayingLocal, GameAction::Pause) => Some(FsmState::Paused),
            (FsmState::Paused, GameAction::Resume) => Some(FsmState::PlayingLocal),
            (FsmState::Paused, GameAction::Quit) => Some(FsmState::Idle),
            (FsmState::Connecting, GameAction::Connected) => Some(FsmState::Waiting),
            (FsmState::Connecting, GameAction::ConnectionFailed) => Some(FsmState::Idle),
            (FsmState::Waiting, GameAction::OpponentJoined) => Some(FsmState::CountdownMulti),
            (FsmState::Waiting, GameAction::Disconnected) => Some(FsmState::Idle),
            (FsmState::Waiting, GameAction::Leave) => Some(FsmState::Idle),
            (FsmState::CountdownMulti, GameAction::CountdownDone) => Some(FsmState::PlayingMulti),
            (FsmState::CountdownMulti, GameAction::Disconnected) => Some(FsmState::Disconnected),
            (FsmState::CountdownMulti, GameAction::ConnectionLost) => Some(FsmState::Reconnecting),
            (FsmState::PlayingMulti, GameAction::GameOver) => Some(FsmState::GameOverMulti),
            (FsmState::PlayingMulti, GameAction::Disconnected) => Some(FsmState::Disconnected),
            (FsmState::PlayingMulti, GameAction::ConnectionLost) => Some(FsmState::Reconnecting),
            (FsmState::Reconnecting, GameAction::Reconnected) => Some(FsmState::CountdownMulti),
            (FsmState::Reconnecting, GameAction::ReconnectFailed) => Some(FsmState::Disconnected),
            (FsmState::Reconnecting, GameAction::Disconnected) => Some(FsmState::Disconnected),
            (FsmState::Reconnecting, GameAction::Leave) => Some(FsmState::Idle),
            (FsmState::GameOverLocal, GameAction::PlayAgain) => Some(FsmState::CountdownLocal),
            (FsmState::GameOverLocal, GameAction::Leave) => Some(FsmState::Idle),
            (FsmState::GameOverMulti, GameAction::RematchStarted) => Some(FsmState::CountdownMulti),
            (FsmState::GameOverMulti, GameAction::Disconnected) => Some(FsmState::Disconnected),
            (FsmState::GameOverMulti, GameAction::Leave) => Some(FsmState::Idle),
            (FsmState::Disconnected, GameAction::Leave) => Some(FsmState::Idle),
            _ => None,
        }
    }
}

impl Default for GameFsm {
    fn default() -> (r: Self)
        ensures
            r.spec_state() == FsmState::Idle,
    {
        GameFsm::new()
    }
}

/// The action that a JavaScript action name stands for, if any.
fn parse_action_name(name: &str) -> (r: Option<GameAction>)
    ensures
        r == parse_action(name@),
{
    if str_eq(name, "START_LOCAL") { Some(GameAction::StartLocal) }
    else if str_eq(name, "CREATE_MATCH") { Some(GameAction::CreateMatch) }
    else if str_eq(name, "JOIN_MATCH") { Some(GameAction::JoinMatch) }
    else if str_eq(name, "COUNTDOWN_DONE") { Some(GameAction::CountdownDone) }
    else if str_eq(name, "QUIT") { Some(GameAction::Quit) }
    else if str_eq(name, "GAME_OVER") { Some(GameAction::GameOver) }
    else if str_eq(name, "CONNECTED") { Some(GameAction::Connected) }
    else if str_eq(name, "CONNECTION_FAILED") { Some(GameAction::ConnectionFailed) }
    else if str_eq(name, "OPPONENT_JOINED") { Some(GameAction::OpponentJoined) }
    else if str_eq(name, "DISCONNECTED") { Some(GameAction::Disconnected) }
    else if str_eq(name, "LEAVE") { Some(GameAction::Leave) }
    else if str_eq(name, "PLAY_AGAIN") { Some(GameAction::PlayAgain) }
    else if str_eq(name, "REMATCH_STARTED") { Some(GameAction::RematchStarted) }
    else if str_eq(name, "PAUSE") { Some(GameAction::Pause) }
    else if str_eq(name, "RESUME") { Some(GameAction::Resume) }
    else if str_eq(name, "CONNECTION_LOST") { Some(GameAction::ConnectionLost) }
    else if str_eq(name, "RECONNECTED") { Some(GameAction::Reconnected) }
    else if str_eq(name, "RECONNECT_FAILED") { Some(GameAction::ReconnectFailed) }
    else { None }
}

/// States that belong to a local (offline) game.
pub open spec fn is_local_state(state: FsmState) -> bool {
    state == FsmState::CountdownLocal || state == FsmState::PlayingLocal || state == FsmState::Paused
        || state == FsmState::GameOverLocal
}

/// States that belong to a multiplayer session.
pub open spec fn is_multiplayer_state(state: FsmState) -> bool {
    !is_local_state(state) && state != FsmState::Idle
}

/// Takes each action in turn from `state`; `None` as soon as one is refused.
pub open spec fn run(state: FsmState, actions: Seq<GameAction>) -> Option<FsmState>
    decreases actions.len(),
{
    if actions.len() == 0 {
        Some(state)
    } else {
        match next_state(state, actions[0]) {
            Some(next) => run(next, actions.drop_first()),
            None => None,
        }
    }
}

/// Every action's JavaScript name is understood as that action, and as no other.
pub proof fn lemma_action_names_round_trip(action: GameAction)
    ensures
        parse_action(action_name(action)) == Some(action),
{
    reveal_strlit("START_LOCAL");
    reveal_strlit("CREATE_MATCH");
    reveal_strlit("JOIN_MATCH");
    reveal_strlit("COUNTDOWN_DONE");
    reveal_strlit("QUIT");
    reveal_strlit("GAME_OVER");
    reveal_strlit("CONNECTED");
    reveal_strlit("CONNECTION_FAILED");
    reveal_strlit("OPPONENT_JOINED");
    reveal_strlit("DISCONNECTED");
    reveal_strlit("LEAVE");
    reveal_strlit("PLAY_AGAIN");
    reveal_strlit("REMATCH_STARTED");
    reveal_strlit("PAUSE");
    reveal_strlit("RESUME");
    reveal_strlit("CONNECTION_LOST");
    reveal_strlit("RECONNECTED");
    reveal_strlit("RECONNECT_FAILED");
    assert("START_LOCAL"@.len() == 11 && "START_LOCAL"@[0] == 'S' && "START_LOCAL"@[10] == 'L');
    assert("CREATE_MATCH"@.len() == 12 && "CREATE_MATCH"@[0] == 'C' && "CREATE_MATCH"@[11] == 'H');
    assert("JOIN_MATCH"@.len() == 10 && "JOIN_MATCH"@[0] == 'J' && "JOIN_MATCH"@[9] == 'H');
    assert("COUNTDOWN_DONE"@.len() == 14 && "COUNTDOWN_DONE"@[0] == 'C' && "COUNTDOWN_DONE"@[13] == 'E');
    assert("QUIT"@.len() == 4 && "QUIT"@[0] == 'Q' && "QUIT"@[3] == 'T');
    assert("GAME_OVER"@.len() == 9 && "GAME_OVER"@[0] == 'G' && "GAME_OVER"@[8] == 'R');
    assert("CONNECTED"@.len() == 9 && "CONNECTED"@[0] == 'C' && "CONNECTED"@[8] == 'D');
    assert("CONNECTION_FAILED"@.len() == 17 && "CONNECTION_FAILED"@[0] == 'C' && "CONNECTION_FAILED"@[16] == 'D');
    assert("OPPONENT_JOINED"@.len() == 15 && "OPPONENT_JOINED"@[0] == 'O' && "OPPONENT_JOINED"@[14] == 'D');
    assert("DISCONNECTED"@.len() == 12 && "DISCONNECTED"@[0] == 'D' && "DISCONNECTED"@[11] == 'D');
    assert("LEAVE"@.len() == 5 && "LEAVE"@[0] == 'L' && "LEAVE"@[4] == 'E');
    assert("PLAY_AGAIN"@.len() == 10 && "PLAY_AGAIN"@[0] == 'P' && "PLAY_AGAIN"@[9] == 'N');
    assert("REMATCH_STARTED"@.len() == 15 && "REMATCH_STARTED"@[0] == 'R' && "REMATCH_STARTED"@[14] == 'D');
    assert("PAUSE"@.len() == 5 && "PAUSE"@[0] == 'P' && "PAUSE"@[4] == 'E');
    assert("RESUME"@.len() == 6 && "RESUME"@[0] == 'R' && "RESUME"@[5] == 'E');
    assert("CONNECTION_LOST"@.len() == 15 && "CONNECTION_LOST"@[0] == 'C' && "CONNECTION_LOST"@[14] == 'T');
    assert("RECONNECTED"@.len() == 11 && "RECONNECTED"@[0] == 'R' && "RECONNECTED"@[10] == 'D');
    assert("RECONNECT_FAILED"@.len() == 16 && "RECONNECT_FAILED"@[0] == 'R' && "RECONNECT_FAILED"@[15] == 'D');
    assert(parse_action(action_name(GameAction::StartLocal)) == Some(GameAction::StartLocal));
    assert(parse_action(action_name(GameAction::CreateMatch)) == Some(GameAction::CreateMatch));
    assert(parse_action(action_name(GameAction::JoinMatch)) == Some(GameAction::JoinMatch));
    assert(parse_action(action_name(GameAction::CountdownDone)) == Some(GameAction::CountdownDone));
    assert(parse_action(action_name(GameAction::Quit)) == Some(GameAction::Quit));
    assert(parse_action(action_name(GameAction::GameOver)) == Some(GameAction::GameOver));
    assert(parse_action(action_name(GameAction::Connected)) == Some(GameAction::Connected));
    assert(parse_action(action_name(GameAction::ConnectionFailed)) == Some(GameAction::ConnectionFailed));
    assert(parse_action(action_name(GameAction::OpponentJoined)) == Some(GameAction::OpponentJoined));
    assert(parse_action(action_name(GameAction::Disconnected)) == Some(GameAction::Disconnected));
    assert(parse_action(action_name(GameAction::Leave)) == Some(GameAction::Leave));
    assert(parse_action(action_name(GameAction::PlayAgain)) == Some(GameAction::PlayAgain));
    assert(parse_action(action_name(GameAction::RematchStarted)) == Some(GameAction::RematchStarted));
    assert(parse_action(action_name(GameAction::Pause)) == Some(GameAction::Pause));
    assert(parse_action(action_name(GameAction::Resume)) == Some(GameAction::Resume));
    assert(parse_action(action_name(GameAction::ConnectionLost)) == Some(GameAction::ConnectionLost));
    assert(parse_action(action_name(GameAction::Reconnected)) == Some(GameAction::Reconnected));
    assert(parse_action(action_name(GameAction::ReconnectFailed)) == Some(GameAction::ReconnectFailed));
}

/// Pausing is local-only: `Paused` is entered only by `Pause` from
/// `PlayingLocal`, and `Pause` is refused everywhere else.
pub proof fn lemma_pause_is_local_only(state: FsmState, action: GameAction)
    ensures
        next_state(state, action) == Some(FsmState::Paused) <==> (state == FsmState::PlayingLocal
            && action == GameAction::Pause),
        action == GameAction::Pause && state != FsmState::PlayingLocal ==> next_state(state, action)
            is None,
{
}

/// A local game and a multiplayer session never lead into one another: the
/// only way from one to the other is through `Idle`.
pub proof fn lemma_modes_stay_apart(state: FsmState, action: GameAction)
    ensures
        next_state(state, action) matches Some(next) ==> (is_local_state(state) ==> (
        is_local_state(next) || next == FsmState::Idle)) && (is_multiplayer_state(state) ==> (
        is_multiplayer_state(next) || next == FsmState::Idle)),
{
}

/// From every state there is a sequence of allowed actions back to `Idle`.
pub proof fn lemma_idle_reachable(state: FsmState)
    ensures
        exists|actions: Seq<GameAction>| run(state, actions) == Some(FsmState::Idle),
{
    let path: Seq<GameAction> = match state {
        FsmState::Idle => seq![],
        FsmState::CountdownLocal => seq![GameAction::Quit],
        FsmState::PlayingLocal => seq![GameAction::Quit],
        FsmState::Paused => seq![GameAction::Quit],
        FsmState::GameOverLocal => seq![GameAction::Leave],
        FsmState::Connecting => seq![GameAction::ConnectionFailed],
        FsmState::Waiting => seq![GameAction::Leave],
        FsmState::CountdownMulti => seq![GameAction::Disconnected, GameAction::Leave],
        FsmState::PlayingMulti => seq![GameAction::Disconnected, GameAction::Leave],
        FsmState::GameOverMulti => seq![GameAction::Leave],
        FsmState::Disconnected => seq![GameAction::Leave],
        FsmState::Reconnecting => seq![GameAction::Leave],
    };
    reveal_with_fuel(run, 3);
    if path.len() == 2 {
        assert(path.drop_first().drop_first() =~= Seq::<GameAction>::empty());
        assert(path.drop_first() =~= seq![GameAction::Leave]);
    } else if path.len() == 1 {
        assert(path.drop_first() =~= Seq::<GameAction>::empty());
    }
    assert(run(state, path) == Some(FsmState::Idle));
}

/// Every game that ends can be played again in the same mode: a local game
/// over offers `PlayAgain` into a new local countdown, a multiplayer game over
/// accepts the server's `RematchStarted` into a new multiplayer countdown. A
/// game in play can always end.
pub proof fn lemma_game_over_allows_replay(state: FsmState)
    ensures
        (state == FsmState::PlayingLocal || state == FsmState::PlayingMulti) ==> next_state(
            state,
            GameAction::GameOver,
        ) is Some,
        next_state(state, GameAction::GameOver) matches Some(over) ==> {
            &&& is_local_state(state) ==> next_state(over, GameAction::PlayAgain) == Some(FsmState::CountdownLocal)
            &&& is_multiplayer_state(state) ==> next_state(over, GameAction::RematchStarted) == Some(
                FsmState::CountdownMulti,
            )
        },
{
}

/// The ways into a countdown: a local one starts from `Idle` or as a replay
/// of a finished local game; a multiplayer one starts when the opponent
/// joins, when a dropped connection is restored, or when a rematch starts.
pub proof fn lemma_countdown_entries(state: FsmState, action: GameAction)
    ensures
        next_state(state, action) == Some(FsmState::CountdownLocal) <==> ((state == FsmState::Idle && action
            == GameAction::StartLocal) || (state == FsmState::GameOverLocal && action == GameAction::PlayAgain)),
        next_state(state, action) == Some(FsmState::CountdownMulti) <==> ((state == FsmState::Waiting && action
            == GameAction::OpponentJoined) || (state == FsmState::Reconnecting && action
            == GameAction::Reconnected) || (state == FsmState::GameOverMulti && action
            == GameAction::RematchStarted)),
{
}

/// A connection lost during a multiplayer countdown or game leads to
/// `Reconnecting`, from which a restored connection resumes with a fresh
/// countdown and giving up ends in `Disconnected`.
pub proof fn lemma_connection_loss_recovers(state: FsmState)
    ensures
        (state == FsmState::CountdownMulti || state == FsmState::PlayingMulti) ==> {
            &&& next_state(state, GameAction::ConnectionLost) == Some(FsmState::Reconnecting)
            &&& run(state, seq![GameAction::ConnectionLost, GameAction::Reconnected]) == Some(
                FsmState::CountdownMulti,
            )
            &&& run(state, seq![GameAction::ConnectionLost, GameAction::ReconnectFailed]) == Some(
                FsmState::Disconnected,
            )
        },
{
    reveal_with_fuel(run, 3);
    assert(seq![GameAction::ConnectionLost, GameAction::Reconnected].drop_first() =~= seq![GameAction::Reconnected]);
    assert(seq![GameAction::Reconnected].drop_first() =~= Seq::<GameAction>::empty());
    assert(seq![GameAction::ConnectionLost, GameAction::ReconnectFailed].drop_first() =~= seq![
        GameAction::ReconnectFailed,
    ]);
    assert(seq![GameAction::ReconnectFailed].drop_first() =~= Seq::<GameAction>::empty());
}

/// Taking one more action after a sequence of actions.
proof fn lemma_run_push(state: FsmState, actions: Seq<GameAction>, a: GameAction)
    ensures
        run(state, actions.push(a)) == (match run(state, actions) {
            Some(m) => next_state(m, a),
            None => None,
        }),
    decreases actions.len(),
{
    reveal_with_fuel(run, 2);
    if actions.len() == 0 {
        assert(actions.push(a).drop_first() =~= Seq::<GameAction>::empty());
        assert(actions.push(a)[0] == a);
    } else {
        assert(actions.push(a).drop_first() =~= actions.drop_first().push(a));
        assert(actions.push(a)[0] == actions[0]);
        match next_state(state, actions[0]) {
            Some(n) => lemma_run_push(n, actions.drop_first(), a),
            None => {},
        }
    }
}

/// Every state can be reached from `Idle` by allowed actions.
pub proof fn lemma_every_state_reachable(state: FsmState)
    ensures
        exists|actions: Seq<GameAction>| run(FsmState::Idle, actions) == Some(state),
{
    let e = Seq::<GameAction>::empty();
    let l1 = e.push(GameAction::StartLocal);
    let l2 = l1.push(GameAction::CountdownDone);
    let l3p = l2.push(GameAction::Pause);
    let l3o = l2.push(GameAction::GameOver);
    let m1 = e.push(GameAction::CreateMatch);
    let m2 = m1.push(GameAction::Connected);
    let m3 = m2.push(GameAction::OpponentJoined);
    let m4 = m3.push(GameAction::CountdownDone);
    let m5 = m4.push(GameAction::GameOver);
    let m4d = m3.push(GameAction::Disconnected);
    let m4r = m3.push(GameAction::ConnectionLost);
    lemma_run_push(FsmState::Idle, e, GameAction::StartLocal);
    lemma_run_push(FsmState::Idle, l1, GameAction::CountdownDone);
    lemma_run_push(FsmState::Idle, l2, GameAction::Pause);
    lemma_run_push(FsmState::Idle, l2, GameAction::GameOver);
    lemma_run_push(FsmState::Idle, e, GameAction::CreateMatch);
    lemma_run_push(FsmState::Idle, m1, GameAction::Connected);
    lemma_run_push(FsmState::Idle, m2, GameAction::OpponentJoined);
    lemma_run_push(FsmState::Idle, m3, GameAction::CountdownDone);
    lemma_run_push(FsmState::Idle, m4, GameAction::GameOver);
    lemma_run_push(FsmState::Idle, m3, GameAction::Disconnected);
    lemma_run_push(FsmState::Idle, m3, GameAction::ConnectionLost);
    let path = match state {
        FsmState::Idle => e,
        FsmState::CountdownLocal => l1,
        FsmState::PlayingLocal => l2,
        FsmState::Paused => l3p,
        FsmState::GameOverLocal => l3o,
        FsmState::Connecting => m1,
        FsmState::Waiting => m2,
        FsmState::CountdownMulti => m3,
        FsmState::PlayingMulti => m4,
        FsmState::GameOverMulti => m5,
        FsmState::Disconnected => m4d,
        FsmState::Reconnecting => m4r,
    };
    assert(run(FsmState::Idle, path) == Some(state));
}

/// A whole multiplayer match and its rematch: create, connect, opponent
/// joins, countdown, game over, rematch into a new countdown.
pub proof fn lemma_multiplayer_rematch_path()
    ensures
        run(
            FsmState::Idle,
            seq![
                GameAction::CreateMatch,
                GameAction::Connected,
                GameAction::OpponentJoined,
                GameAction::CountdownDone,
                GameAction::GameOver,
                GameAction::RematchStarted,
            ],
        ) == Some(FsmState::CountdownMulti),
{
    let e = Seq::<GameAction>::empty();
    let m1 = e.push(GameAction::CreateMatch);
    let m2 = m1.push(GameAction::Connected);
    let m3 = m2.push(GameAction::OpponentJoined);
    let m4 = m3.push(GameAction::CountdownDone);
    let m5 = m4.push(GameAction::GameOver);
    let m6 = m5.push(GameAction::RematchStarted);
    lemma_run_push(FsmState::Idle, e, GameAction::CreateMatch);
    lemma_run_push(FsmState::Idle, m1, GameAction::Connected);
    lemma_run_push(FsmState::Idle, m2, GameAction::OpponentJoined);
    lemma_run_push(FsmState::Idle, m3, GameAction::CountdownDone);
    lemma_run_push(FsmState::Idle, m4, GameAction::GameOver);
    lemma_run_push(FsmState::Idle, m5, GameAction::RematchStarted);
    assert(m6 =~= seq![
        GameAction::CreateMatch,
        GameAction::Connected,
        GameAction::OpponentJoined,
        GameAction::CountdownDone,
        GameAction::GameOver,
        GameAction::RematchStarted,
    ]);
}

} // verus!
