//! Network protocol between the browser client and the match server.
//!
//! Messages travel in a compact binary form: an enum's variant index as a
//! variable-length integer, followed by its fields in declaration order
//! (bytes as themselves, 32-bit unsigned integers as variable-length
//! integers, 32-bit floats as their four little-endian bytes). Variants and
//! fields are append-only: the variant index is positional, so reordering or
//! retyping breaks clients that connect across a deploy.
//!
//! Floating-point values are carried as their IEEE-754 bit patterns
//! (`f32::to_bits`); this crate never computes with them.
use vstd::prelude::*;
use crate::wire::{ProtoError, varint, le32, parse_varint, push_varint, push_le32, read_u8, read_le32, read_varint, lemma_varint_round_trip, lemma_le32_round_trip, lemma_varint_small};

verus! {

broadcast use vstd::array::group_array_axioms;

/// Authoritative game state sent by the server while a match is playing.
#[derive(Debug, Clone, Copy, PartialEq, Eq, Structural)]
pub struct GameStateSnapshot {
    pub tick: u32,
    pub ball_x_bits: u32,
    pub ball_y_bits: u32,
    pub ball_vx_bits: u32,
    pub ball_vy_bits: u32,
    pub paddle_left_y_bits: u32,
    pub paddle_right_y_bits: u32,
    pub score_left: u8,
    pub score_right: u8,
}

/// Client-to-server messages.
#[derive(Debug, Clone, Copy, PartialEq, Eq)]
pub enum C2S {
    /// Join a match. `code` mirrors the URL match code; the server routes by
    /// URL and ignores this field.
    Join { code: [u8; 5] },
    /// Paddle input: absolute Y position (bits of an `f32`). `seq` is a
    /// client-side sequence number, unused by the server.
    Input { player_id: u8, y_bits: u32, seq: u32 },
    /// Ping for latency measurement.
    Ping { t_ms: u32 },
    /// Request to restart the match (valid only after a game over).
    Restart,
}

/// Server-to-client messages.
#[derive(Debug, Clone, Copy, PartialEq, Eq, Structural)]
pub enum S2C {
    /// Welcome message with the player assignment (0 = left, 1 = right).
    Welcome { player_id: u8 },
    /// Opponent has connected, match is ready.
    MatchFound,
    /// Synchronized countdown tick (3, 2, 1).
    Countdown { seconds: u8 },
    /// Game is starting now.
    GameStart,
    /// Game state snapshot (only sent while playing).
    GameState(GameStateSnapshot),
    /// Game over, with the winner (0 = left, 1 = right).
    GameOver { winner: u8 },
    /// Opponent disconnected.
    OpponentDisconnected,
    /// Pong response to a ping.
    Pong { t_ms: u32 },
    /// Opponent dropped; the match is paused awaiting their reconnect.
    OpponentReconnecting,
    /// Opponent reconnected; the match is about to resume.
    OpponentReconnected,
}

/// The value of the little-endian word at `i`.
pub open spec fn le32_at(b: Seq<u8>, i: int) -> u32 {
    (b[i] + b[i + 1] * 0x100 + b[i + 2] * 0x1_0000 + b[i + 3] * 0x100_0000) as u32
}

/// The bytes of a snapshot's fields.
#[verifier::opaque]
pub open spec fn encode_snapshot(s: GameStateSnapshot) -> Seq<u8> {
    varint(s.tick) + le32(s.ball_x_bits) + le32(s.ball_y_bits) + le32(s.ball_vx_bits) + le32(
        s.ball_vy_bits,
    ) + le32(s.paddle_left_y_bits) + le32(s.paddle_right_y_bits) + seq![s.score_left, s.score_right]
}

/// The encoding of a client-to-server message.
pub open spec fn encode_c2s(m: C2S) -> Seq<u8> {
    match m {
        C2S::Join { code } => varint(0) + code@,
        C2S::Input { player_id, y_bits, seq } => varint(1) + seq![player_id] + le32(y_bits) + varint(seq),
        C2S::Ping { t_ms } => varint(2) + varint(t_ms),
        C2S::Restart => varint(3),
    }
}

/// The encoding of a server-to-client message.
pub open spec fn encode_s2c(m: S2C) -> Seq<u8> {
    match m {
        S2C::Welcome { player_id } => varint(0) + seq![player_id],
        S2C::MatchFound => varint(1),
        S2C::Countdown { seconds } => varint(2) + seq![seconds],
        S2C::GameStart => varint(3),
        S2C::GameState(s) => varint(4) + encode_snapshot(s),
        S2C::GameOver { winner } => varint(5) + seq![winner],
        S2C::OpponentDisconnected => varint(6),
        S2C::Pong { t_ms } => varint(7) + varint(t_ms),
        S2C::OpponentReconnecting => varint(8),
        S2C::OpponentReconnected => varint(9),
    }
}

/// Decodes a snapshot's fields starting at `p`.
#[verifier::opaque]
pub open spec fn parse_snapshot(b: Seq<u8>, p: int) -> Result<GameStateSnapshot, ProtoError> {
    match parse_varint(b, p) {
        Err(e) => Err(e),
        Ok((tick, q)) => if q + 26 <= b.len() {
            Ok(
                GameStateSnapshot {
                    tick,
                    ball_x_bits: le32_at(b, q),
                    ball_y_bits: le32_at(b, q + 4),
                    ball_vx_bits: le32_at(b, q + 8),
                    ball_vy_bits: le32_at(b, q + 12),
                    paddle_left_y_bits: le32_at(b, q + 16),
                    paddle_right_y_bits: le32_at(b, q + 20),
                    score_left: b[q + 24],
                    score_right: b[q + 25],
                },
            )
        } else {
            Err(ProtoError::UnexpectedEnd)
        },
    }
}

/// Decodes a client-to-server message from the front of `b`; bytes after the
/// message are ignored.
pub open spec fn parse_c2s(b: Seq<u8>) -> Result<C2S, ProtoError> {
    match parse_varint(b, 0) {
        Err(e) => Err(e),
        Ok((tag, p)) => if tag == 0 {
            if p + 5 <= b.len() {
                Ok(C2S::Join { code: [b[p], b[p + 1], b[p + 2], b[p + 3], b[p + 4]] })
            } else {
                Err(ProtoError::UnexpectedEnd)
            }
        } else if tag == 1 {
            if p + 5 <= b.len() {
                match parse_varint(b, p + 5) {
                    Err(e) => Err(e),
                    Ok((seq, _)) => Ok(C2S::Input { player_id: b[p], y_bits: le32_at(b, p + 1), seq }),
                }
            } else {
                Err(ProtoError::UnexpectedEnd)
            }
        } else if tag == 2 {
            match parse_varint(b, p) {
                Err(e) => Err(e),
                Ok((t_ms, _)) => Ok(C2S::Ping { t_ms }),
            }
        } else if tag == 3 {
            Ok(C2S::Restart)
        } else {
            Err(ProtoError::UnknownVariant)
        },
    }
}

/// Decodes one byte of payload at `p` into a message.
pub open spec fn parse_byte_field(b: Seq<u8>, p: int, f: spec_fn(u8) -> S2C) -> Result<S2C, ProtoError> {
    if p < b.len() {
        Ok(f(b[p]))
    } else {
        Err(ProtoError::UnexpectedEnd)
    }
}

/// Decodes a server-to-client message from the front of `b`; bytes after the
/// message are ignored.
pub open spec fn parse_s2c(b: Seq<u8>) -> Result<S2C, ProtoError> {
    match parse_varint(b, 0) {
        Err(e) => Err(e),
        Ok((tag, p)) => if tag == 0 {
            parse_byte_field(b, p, |x: u8| S2C::Welcome { player_id: x })
        } else if tag == 1 {
            Ok(S2C::MatchFound)
        } else if tag == 2 {
            parse_byte_field(b, p, |x: u8| S2C::Countdown { seconds: x })
        } else if tag == 3 {
            Ok(S2C::GameStart)
        } else if tag == 4 {
            match parse_snapshot(b, p) {
                Err(e) => Err(e),
                Ok(s) => Ok(S2C::GameState(s)),
            }
        } else if tag == 5 {
            parse_byte_field(b, p, |x: u8| S2C::GameOver { winner: x })
        } else if tag == 6 {
            Ok(S2C::OpponentDisconnected)
        } else if tag == 7 {
            match parse_varint(b, p) {
                Err(e) => Err(e),
                Ok((t_ms, _)) => Ok(S2C::Pong { t_ms }),
            }
        } else if tag == 8 {
            Ok(S2C::OpponentReconnecting)
        } else if tag == 9 {
            Ok(S2C::OpponentReconnected)
        } else {
            Err(ProtoError::UnknownVariant)
        },
    }
}

impl C2S {
    /// The message's bytes; encoding always succeeds.
    pub fn to_bytes(&self) -> (r: Result<Vec<u8>, ProtoError>)
        ensures
            r matches Ok(v) && v@ == encode_c2s(*self),
    {
        let mut out: Vec<u8> = Vec::new();
        match self {
            C2S::Join { code } => {
                push_varint(&mut out, 0);
                out.push(code[0]);
                out.push(code[1]);
                out.push(code[2]);
                out.push(code[3]);
                out.push(code[4]);
                assert(out@ =~= varint(0) + code@);
            },
            C2S::Input { player_id, y_bits, seq } => {
                push_varint(&mut out, 1);
                out.push(*player_id);
                push_le32(&mut out, *y_bits);
                push_varint(&mut out, *seq);
                assert(out@ =~= varint(1) + seq![*player_id] + le32(*y_bits) + varint(*seq));
            },
            C2S::Ping { t_ms } => {
                push_varint(&mut out, 2);
                push_varint(&mut out, *t_ms);
                assert(out@ =~= varint(2) + varint(*t_ms));
            },
            C2S::Restart => {
                push_varint(&mut out, 3);
                assert(out@ =~= varint(3));
            },
        }
        Ok(out)
    }

    /// Decodes a message from the front of `bytes` (trailing bytes are ignored).
    pub fn from_bytes(bytes: &[u8]) -> (r: Result<C2S, ProtoError>)
        ensures
            r == parse_c2s(bytes@),
    {
        let (tag, p) = match read_varint(bytes, 0) {
            Ok(x) => x,
            Err(e) => return Err(e),
        };
        let n = bytes.len();
        if tag == 0 {
            if n - p >= 5 {
                Ok(C2S::Join { code: [bytes[p], bytes[p + 1], bytes[p + 2], bytes[p + 3], bytes[p + 4]] })
            } else {
                Err(ProtoError::UnexpectedEnd)
            }
        } else if tag == 1 {
            if n - p >= 5 {
                let player_id = bytes[p];
                let (y_bits, q) = match read_le32(bytes, p + 1) {
                    Ok(x) => x,
                    Err(e) => return Err(e),
                };
                match read_varint(bytes, q) {
                    Ok((seq, _)) => Ok(C2S::Input { player_id, y_bits, seq }),
                    Err(e) => Err(e),
                }
            } else {
                Err(ProtoError::UnexpectedEnd)
            }
        } else if tag == 2 {
            match read_varint(bytes, p) {
                Ok((t_ms, _)) => Ok(C2S::Ping { t_ms }),
                Err(e) => Err(e),
            }
        } else if tag == 3 {
            Ok(C2S::Restart)
        } else {
            Err(ProtoError::UnknownVariant)
        }
    }
}

fn push_snapshot(out: &mut Vec<u8>, s: &GameStateSnapshot)
    ensures
        final(out)@ == old(out)@ + encode_snapshot(*s),
{
    reveal(encode_snapshot);
    push_varint(out, s.tick);
    push_le32(out, s.ball_x_bits);
    push_le32(out, s.ball_y_bits);
    push_le32(out, s.ball_vx_bits);
    push_le32(out, s.ball_vy_bits);
    push_le32(out, s.paddle_left_y_bits);
    push_le32(out, s.paddle_right_y_bits);
    out.push(s.score_left);
    out.push(s.score_right);
    assert(final(out)@ =~= old(out)@ + encode_snapshot(*s));
}

fn read_snapshot(b: &[u8], p: usize) -> (r: Result<GameStateSnapshot, ProtoError>)
    ensures
        r == parse_snapshot(b@, p as int),
{
    reveal(parse_snapshot);
    let (tick, q) = match read_varint(b, p) {
        Ok(x) => x,
        Err(e) => return Err(e),
    };
    if b.len() - q >= 26 {
        let (ball_x_bits, _) = match read_le32(b, q) { Ok(x) => x, Err(e) => return Err(e) };
        let (ball_y_bits, _) = match read_le32(b, q + 4) { Ok(x) => x, Err(e) => return Err(e) };
        let (ball_vx_bits, _) = match read_le32(b, q + 8) { Ok(x) => x, Err(e) => return Err(e) };
        let (ball_vy_bits, _) = match read_le32(b, q + 12) { Ok(x) => x, Err(e) => return Err(e) };
        let (paddle_left_y_bits, _) = match read_le32(b, q + 16) { Ok(x) => x, Err(e) => return Err(e) };
        let (paddle_right_y_bits, _) = match read_le32(b, q + 20) { Ok(x) => x, Err(e) => return Err(e) };
        Ok(
            GameStateSnapshot {
                tick,
                ball_x_bits,
                ball_y_bits,
                ball_vx_bits,
                ball_vy_bits,
                paddle_left_y_bits,
                paddle_right_y_bits,
                score_left: b[q + 24],
                score_right: b[q + 25],
            },
        )
    } else {
        Err(ProtoError::UnexpectedEnd)
    }
}

impl S2C {
    /// The message's bytes; encoding always succeeds.
    pub fn to_bytes(&self) -> (r: Result<Vec<u8>, ProtoError>)
        ensures
            r matches Ok(v) && v@ == encode_s2c(*self),
    {
        let mut out: Vec<u8> = Vec::new();
        match self {
            S2C::Welcome { player_id } => {
                push_varint(&mut out, 0);
                out.push(*player_id);
            },
            S2C::MatchFound => push_varint(&mut out, 1),
            S2C::Countdown { seconds } => {
                push_varint(&mut out, 2);
                out.push(*seconds);
            },
            S2C::GameStart => push_varint(&mut out, 3),
            S2C::GameState(s) => {
                push_varint(&mut out, 4);
                push_snapshot(&mut out, s);
            },
            S2C::GameOver { winner } => {
                push_varint(&mut out, 5);
                out.push(*winner);
            },
            S2C::OpponentDisconnected => push_varint(&mut out, 6),
            S2C::Pong { t_ms } => {
                push_varint(&mut out, 7);
                push_varint(&mut out, *t_ms);
            },
            S2C::OpponentReconnecting => push_varint(&mut out, 8),
            S2C::OpponentReconnected => push_varint(&mut out, 9),
        }
        assert(out@ =~= encode_s2c(*self));
        Ok(out)
    }

    /// Decodes a message from the front of `bytes` (trailing bytes are ignored).
    pub fn from_bytes(bytes: &[u8]) -> (r: Result<S2C, ProtoError>)
        ensures
            r == parse_s2c(bytes@),
    {
        let (tag, p) = match read_varint(bytes, 0) {
            Ok(x) => x,
            Err(e) => return Err(e),
        };
        if tag == 0 {
            match read_u8(bytes, p) {
                Ok((x, _)) => Ok(S2C::Welcome { player_id: x }),
                Err(e) => Err(e),
            }
        } else if tag == 1 {
            Ok(S2C::MatchFound)
        } else if tag == 2 {
            match read_u8(bytes, p) {
                Ok((x, _)) => Ok(S2C::Countdown { seconds: x }),
                Err(e) => Err(e),
            }
        } else if tag == 3 {
            Ok(S2C::GameStart)
        } else if tag == 4 {
            match read_snapshot(bytes, p) {
                Ok(s) => Ok(S2C::GameState(s)),
                Err(e) => Err(e),
            }
        } else if tag == 5 {
            match read_u8(bytes, p) {
                Ok((x, _)) => Ok(S2C::GameOver { winner: x }),
                Err(e) => Err(e),
            }
        } else if tag == 6 {
            Ok(S2C::OpponentDisconnected)
        } else if tag == 7 {
            match read_varint(bytes, p) {
                Ok((t_ms, _)) => Ok(S2C::Pong { t_ms }),
                Err(e) => Err(e),
            }
        } else if tag == 8 {
            Ok(S2C::OpponentReconnecting)
        } else if tag == 9 {
            Ok(S2C::OpponentReconnected)
        } else {
            Err(ProtoError::UnknownVariant)
        }
    }
}

/// The value of a little-endian word where one was written.
proof fn lemma_le32_at(pre: Seq<u8>, v: u32, post: Seq<u8>)
    ensures
        le32_at(pre + le32(v) + post, pre.len() as int) == v,
{
    lemma_le32_round_trip(pre, v, post);
}

proof fn lemma_byte_at(pre: Seq<u8>, x: u8, post: Seq<u8>)
    ensures
        (pre + seq![x] + post)[pre.len() as int] == x,
{
    assert((pre + seq![x] + post)[pre.len() as int] == (pre + seq![x])[pre.len() as int]);
}

/// Decoding what was encoded gives the message back, whatever follows it.
#[verifier::rlimit(50)]
pub proof fn lemma_c2s_round_trip(m: C2S, rest: Seq<u8>)
    ensures
        parse_c2s(encode_c2s(m) + rest) == Ok::<C2S, ProtoError>(m),
{
    let e = Seq::<u8>::empty();
    let b = encode_c2s(m) + rest;
    match m {
        C2S::Join { code } => {
            lemma_varint_round_trip(e, 0, code@ + rest);
            assert(b =~= e + varint(0) + (code@ + rest));
            lemma_varint_small(0);
            assert forall|i: int| 0 <= i < 5 implies b[1 + i] == code[i] by {
                assert(b[1 + i] == (code@ + rest)[i]);
            }
            let arr = [b[1], b[2], b[3], b[4], b[5]];
            assert(arr@ =~= code@);
            assert(arr == code);
            assert(parse_varint(b, 0) == Ok::<(u32, int), ProtoError>((0u32, 1int)));
            assert(b.len() >= 6);
            assert(parse_c2s(b) == Ok::<C2S, ProtoError>(C2S::Join { code: arr }));
        },
        C2S::Input { player_id, y_bits, seq } => {
            let a = varint(1);
            lemma_varint_small(1);
            lemma_varint_round_trip(e, 1, seq![player_id] + le32(y_bits) + varint(seq) + rest);
            assert(b =~= e + a + (seq![player_id] + le32(y_bits) + varint(seq) + rest));
            lemma_byte_at(a, player_id, le32(y_bits) + varint(seq) + rest);
            assert(b =~= a + seq![player_id] + (le32(y_bits) + varint(seq) + rest));
            lemma_le32_at(a + seq![player_id], y_bits, varint(seq) + rest);
            assert(b =~= (a + seq![player_id]) + le32(y_bits) + (varint(seq) + rest));
            lemma_varint_round_trip(a + seq![player_id] + le32(y_bits), seq, rest);
            assert(b =~= (a + seq![player_id] + le32(y_bits)) + varint(seq) + rest);
        },
        C2S::Ping { t_ms } => {
            lemma_varint_round_trip(e, 2, varint(t_ms) + rest);
            assert(b =~= e + varint(2) + (varint(t_ms) + rest));
            lemma_varint_round_trip(varint(2), t_ms, rest);
        },
        C2S::Restart => {
            lemma_varint_round_trip(e, 3, rest);
            assert(b =~= e + varint(3) + rest);
        },
    }
}

#[verifier::rlimit(100)]
#[verifier::spinoff_prover]
proof fn lemma_snapshot_round_trip(pre: Seq<u8>, s: GameStateSnapshot, rest: Seq<u8>)
    ensures
        parse_snapshot(pre + encode_snapshot(s) + rest, pre.len() as int) == Ok::<GameStateSnapshot, ProtoError>(s),
{
    reveal(encode_snapshot);
    reveal(parse_snapshot);
    let b = pre + encode_snapshot(s) + rest;
    let t = varint(s.tick);
    let q = pre.len() + t.len();
    let fields = le32(s.ball_x_bits) + le32(s.ball_y_bits) + le32(s.ball_vx_bits) + le32(s.ball_vy_bits)
        + le32(s.paddle_left_y_bits) + le32(s.paddle_right_y_bits) + seq![s.score_left, s.score_right];
    assert(encode_snapshot(s) =~= t + fields);
    assert(b =~= pre + t + (fields + rest));
    lemma_varint_round_trip(pre, s.tick, fields + rest);
    let p0 = pre + t;
    let p1 = p0 + le32(s.ball_x_bits);
    let p2 = p1 + le32(s.ball_y_bits);
    let p3 = p2 + le32(s.ball_vx_bits);
    let p4 = p3 + le32(s.ball_vy_bits);
    let p5 = p4 + le32(s.paddle_left_y_bits);
    let p6 = p5 + le32(s.paddle_right_y_bits);
    let tail = seq![s.score_left, s.score_right] + rest;
    assert(b =~= p0 + le32(s.ball_x_bits) + (le32(s.ball_y_bits) + le32(s.ball_vx_bits) + le32(s.ball_vy_bits) + le32(s.paddle_left_y_bits) + le32(s.paddle_right_y_bits) + tail));
    lemma_le32_at(p0, s.ball_x_bits, le32(s.ball_y_bits) + le32(s.ball_vx_bits) + le32(s.ball_vy_bits) + le32(s.paddle_left_y_bits) + le32(s.paddle_right_y_bits) + tail);
    assert(b =~= p1 + le32(s.ball_y_bits) + (le32(s.ball_vx_bits) + le32(s.ball_vy_bits) + le32(s.paddle_left_y_bits) + le32(s.paddle_right_y_bits) + tail));
    lemma_le32_at(p1, s.ball_y_bits, le32(s.ball_vx_bits) + le32(s.ball_vy_bits) + le32(s.paddle_left_y_bits) + le32(s.paddle_right_y_bits) + tail);
    assert(b =~= p2 + le32(s.ball_vx_bits) + (le32(s.ball_vy_bits) + le32(s.paddle_left_y_bits) + le32(s.paddle_right_y_bits) + tail));
    lemma_le32_at(p2, s.ball_vx_bits, le32(s.ball_vy_bits) + le32(s.paddle_left_y_bits) + le32(s.paddle_right_y_bits) + tail);
    assert(b =~= p3 + le32(s.ball_vy_bits) + (le32(s.paddle_left_y_bits) + le32(s.paddle_right_y_bits) + tail));
    lemma_le32_at(p3, s.ball_vy_bits, le32(s.paddle_left_y_bits) + le32(s.paddle_right_y_bits) + tail);
    assert(b =~= p4 + le32(s.paddle_left_y_bits) + (le32(s.paddle_right_y_bits) + tail));
    lemma_le32_at(p4, s.paddle_left_y_bits, le32(s.paddle_right_y_bits) + tail);
    assert(b =~= p5 + le32(s.paddle_right_y_bits) + tail);
    lemma_le32_at(p5, s.paddle_right_y_bits, tail);
    assert(b =~= p6 + seq![s.score_left] + (seq![s.score_right] + rest));
    lemma_byte_at(p6, s.score_left, seq![s.score_right] + rest);
    assert(b =~= (p6 + seq![s.score_left]) + seq![s.score_right] + rest);
    lemma_byte_at(p6 + seq![s.score_left], s.score_right, rest);
    assert(p6.len() == q + 24);
}

proof fn lemma_s2c_round_trip_unit(m: S2C, rest: Seq<u8>)
    requires
        m is MatchFound || m is GameStart || m is OpponentDisconnected || m is OpponentReconnecting
            || m is OpponentReconnected,
    ensures
        parse_s2c(encode_s2c(m) + rest) == Ok::<S2C, ProtoError>(m),
{
    let e = Seq::<u8>::empty();
    let tag: u32 = match m {
        S2C::MatchFound => 1,
        S2C::GameStart => 3,
        S2C::OpponentDisconnected => 6,
        S2C::OpponentReconnecting => 8,
        _ => 9,
    };
    assert(encode_s2c(m) == varint(tag));
    lemma_varint_round_trip(e, tag, rest);
    assert(encode_s2c(m) + rest =~= e + varint(tag) + rest);
}

proof fn lemma_s2c_round_trip_byte(m: S2C, rest: Seq<u8>)
    requires
        m is Welcome || m is Countdown || m is GameOver,
    ensures
        parse_s2c(encode_s2c(m) + rest) == Ok::<S2C, ProtoError>(m),
{
    let e = Seq::<u8>::empty();
    let (tag, x): (u32, u8) = match m {
        S2C::Welcome { player_id } => (0, player_id),
        S2C::Countdown { seconds } => (2, seconds),
        S2C::GameOver { winner } => (5, winner),
        _ => (0, 0),
    };
    let b = encode_s2c(m) + rest;
    assert(encode_s2c(m) == varint(tag) + seq![x]);
    lemma_varint_round_trip(e, tag, seq![x] + rest);
    assert(b =~= e + varint(tag) + (seq![x] + rest));
    lemma_byte_at(varint(tag), x, rest);
    assert(b =~= varint(tag) + seq![x] + rest);
}

#[verifier::rlimit(30)]
proof fn lemma_s2c_round_trip_state(s: GameStateSnapshot, rest: Seq<u8>)
    ensures
        parse_s2c(encode_s2c(S2C::GameState(s)) + rest) == Ok::<S2C, ProtoError>(S2C::GameState(s)),
{
    let e = Seq::<u8>::empty();
    let b = encode_s2c(S2C::GameState(s)) + rest;
    lemma_varint_round_trip(e, 4, encode_snapshot(s) + rest);
    assert(b =~= e + varint(4) + (encode_snapshot(s) + rest));
    lemma_snapshot_round_trip(varint(4), s, rest);
    assert(b =~= varint(4) + encode_snapshot(s) + rest);
}

proof fn lemma_s2c_round_trip_pong(t_ms: u32, rest: Seq<u8>)
    ensures
        parse_s2c(encode_s2c(S2C::Pong { t_ms }) + rest) == Ok::<S2C, ProtoError>(S2C::Pong { t_ms }),
{
    let e = Seq::<u8>::empty();
    let b = encode_s2c(S2C::Pong { t_ms }) + rest;
    lemma_varint_round_trip(e, 7, varint(t_ms) + rest);
    assert(b =~= e + varint(7) + (varint(t_ms) + rest));
    lemma_varint_round_trip(varint(7), t_ms, rest);
    assert(b =~= varint(7) + varint(t_ms) + rest);
}

/// Decoding what was encoded gives the message back, whatever follows it.
pub proof fn lemma_s2c_round_trip(m: S2C, rest: Seq<u8>)
    ensures
        parse_s2c(encode_s2c(m) + rest) == Ok::<S2C, ProtoError>(m),
{
    match m {
        S2C::GameState(s) => lemma_s2c_round_trip_state(s, rest),
        S2C::Pong { t_ms } => lemma_s2c_round_trip_pong(t_ms, rest),
        S2C::Welcome { .. } => lemma_s2c_round_trip_byte(m, rest),
        S2C::Countdown { .. } => lemma_s2c_round_trip_byte(m, rest),
        S2C::GameOver { .. } => lemma_s2c_round_trip_byte(m, rest),
        _ => lemma_s2c_round_trip_unit(m, rest),
    }
}

} // verus!
