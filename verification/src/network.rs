//! Network message handling on the client: applying server messages to the
//! session, and building the messages the client sends.
use vstd::prelude::*;
use crate::proto::{C2S, S2C, encode_c2s};
use crate::session::{Session, DisplayUpdate, spec_after_message, spec_display_update};
use crate::text::owned;
use vstd::string::{StringSliceAdditionalSpecFns, StrSliceExecFns};
use vstd::utf8::encode_utf8;

verus! {

/// Applies a server message to the session and says what the display must
/// do. A `Pong` is answered by the caller's ping bookkeeping, not here: it is
/// an error and leaves the session unchanged.
pub fn handle_message(msg: S2C, session: &mut Session) -> (r: Result<DisplayUpdate, String>)
    ensures
        *final(session) == spec_after_message(*old(session), msg),
        match r {
            Ok(u) => !(msg is Pong) && u == spec_display_update(msg),
            Err(e) => msg is Pong && e@ == "Pong message should be handled separately"@,
        },
{
    match msg {
        S2C::Welcome { player_id } => {
            session.set_player_id(player_id);
            Ok(DisplayUpdate::Keep)
        },
        S2C::MatchFound => {
            session.reset();
            session.match_event = crate::session::MatchEvent::MatchFound;
            Ok(DisplayUpdate::Reset)
        },
        S2C::Countdown { seconds } => {
            session.reset();
            session.match_event = crate::session::MatchEvent::Countdown(seconds);
            Ok(DisplayUpdate::Reset)
        },
        S2C::GameStart => {
            session.reset();
            session.match_event = crate::session::MatchEvent::GameStart;
            Ok(DisplayUpdate::Reset)
        },
        S2C::GameState(snapshot) => {
            session.set_scores(snapshot.score_left, snapshot.score_right);
            session.set_current(snapshot);
            Ok(DisplayUpdate::NewSnapshot)
        },
        S2C::GameOver { winner } => {
            session.set_winner(winner);
            Ok(DisplayUpdate::Keep)
        },
        S2C::OpponentDisconnected => {
            session.match_event = crate::session::MatchEvent::OpponentDisconnected;
            Ok(DisplayUpdate::Keep)
        },
        S2C::OpponentReconnecting => {
            session.match_event = crate::session::MatchEvent::OpponentReconnecting;
            Ok(DisplayUpdate::Keep)
        },
        S2C::OpponentReconnected => {
            session.match_event = crate::session::MatchEvent::OpponentReconnected;
            Ok(DisplayUpdate::Keep)
        },
        S2C::Pong { .. } => Err(owned("Pong message should be handled separately")),
    }
}

/// Each character takes at least one byte in UTF-8.
proof fn lemma_utf8_len_at_least_chars(chars: Seq<char>)
    ensures
        encode_utf8(chars).len() >= chars.len(),
    decreases chars.len(),
{
    if chars.len() > 0 {
        lemma_utf8_len_at_least_chars(chars.drop_first());
    }
}

/// The bytes of a `Join` for `code`, which must be exactly five characters;
/// the first five bytes of the code are carried.
pub fn create_join_message(code: &str) -> (r: Result<Vec<u8>, String>)
    ensures
        r is Err <==> code@.len() != 5,
        match r {
            Ok(v) => {
                let b = code.spec_bytes();
                &&& b.len() >= 5
                &&& v@ == encode_c2s(C2S::Join { code: [b[0], b[1], b[2], b[3], b[4]] })
            },
            Err(e) => e@ == "Match code must be exactly 5 characters"@,
        },
{
    if code.unicode_len() != 5 {
        return Err(owned("Match code must be exactly 5 characters"));
    }
    let b = code.as_bytes();
    proof {
        lemma_utf8_len_at_least_chars(code@);
    }
    let code_array = [b[0], b[1], b[2], b[3], b[4]];
    match (C2S::Join { code: code_array }).to_bytes() {
        Ok(v) => Ok(v),
        Err(_) => Err(owned("Match code must be exactly 5 characters")),
    }
}

/// The bytes of an `Input` (the paddle's y as `f32` bits).
pub fn create_input_message(player_id: u8, y_bits: u32, seq: u32) -> (r: Result<Vec<u8>, String>)
    ensures
        r matches Ok(v) && v@ == encode_c2s(C2S::Input { player_id, y_bits, seq }),
{
    match (C2S::Input { player_id, y_bits, seq }).to_bytes() {
        Ok(v) => Ok(v),
        Err(_) => Err(owned("Failed to serialize input message")),
    }
}

/// The bytes of a `Restart`.
pub fn create_restart_message() -> (r: Result<Vec<u8>, String>)
    ensures
        r matches Ok(v) && v@ == encode_c2s(C2S::Restart),
{
    match C2S::Restart.to_bytes() {
        Ok(v) => Ok(v),
        Err(_) => Err(owned("Failed to serialize restart message")),
    }
}

/// The bytes of a `Ping` stamped `t_ms`.
pub fn create_ping_message(t_ms: u32) -> (r: Result<Vec<u8>, String>)
    ensures
        r matches Ok(v) && v@ == encode_c2s(C2S::Ping { t_ms }),
{
    match (C2S::Ping { t_ms }).to_bytes() {
        Ok(v) => Ok(v),
        Err(_) => Err(owned("Failed to serialize ping message")),
    }
}

} // verus!
