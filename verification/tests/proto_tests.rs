use pongo::proto::{GameStateSnapshot, C2S, S2C};
use pongo::wire::ProtoError;

#[test]
fn test_c2s_serialization() {
    let msg = C2S::Input {
        player_id: 0,
        y_bits: 10.0f32.to_bits(),
        seq: 1,
    };
    let bytes = msg.to_bytes().expect("Serialization should succeed");
    let decoded = C2S::from_bytes(&bytes).expect("Deserialization should succeed");
    match (msg, decoded) {
        (
            C2S::Input {
                player_id: p1,
                y_bits: y1,
                seq: s1,
            },
            C2S::Input {
                player_id: p2,
                y_bits: y2,
                seq: s2,
            },
        ) => {
            assert_eq!(p1, p2);
            assert!((f32::from_bits(y1) - f32::from_bits(y2)).abs() < f32::EPSILON);
            assert_eq!(s1, s2);
        }
        _ => panic!("Message type mismatch"),
    }
}

#[test]
fn test_s2c_serialization() {
    let msg = S2C::GameState(GameStateSnapshot {
        tick: 100,
        ball_x_bits: 16.0f32.to_bits(),
        ball_y_bits: 12.0f32.to_bits(),
        ball_vx_bits: 8.0f32.to_bits(),
        ball_vy_bits: 4.0f32.to_bits(),
        paddle_left_y_bits: 12.0f32.to_bits(),
        paddle_right_y_bits: 12.0f32.to_bits(),
        score_left: 5,
        score_right: 3,
    });
    let bytes = msg.to_bytes().expect("Serialization should succeed");
    let decoded = S2C::from_bytes(&bytes).expect("Deserialization should succeed");
    match decoded {
        S2C::GameState(snapshot) => {
            assert_eq!(snapshot.tick, 100);
            assert_eq!(f32::from_bits(snapshot.ball_x_bits), 16.0);
        }
        _ => panic!("Message type mismatch"),
    }
}

#[test]
fn test_c2s_bytes_match_postcard() {
    // postcard encodes a C2S variant as its index (a varint) followed by its
    // fields; the same bytes come out of a tuple of the index and the fields.
    let join = C2S::Join { code: *b"AB3CD" };
    assert_eq!(join.to_bytes().unwrap(), postcard::to_allocvec(&(0u32, *b"AB3CD")).unwrap());
    let input = C2S::Input { player_id: 1, y_bits: 13.25f32.to_bits(), seq: 300 };
    assert_eq!(
        input.to_bytes().unwrap(),
        postcard::to_allocvec(&(1u32, 1u8, 13.25f32, 300u32)).unwrap()
    );
    let ping = C2S::Ping { t_ms: 4_000_000_000 };
    assert_eq!(ping.to_bytes().unwrap(), postcard::to_allocvec(&(2u32, 4_000_000_000u32)).unwrap());
    assert_eq!(C2S::Restart.to_bytes().unwrap(), postcard::to_allocvec(&3u32).unwrap());
}

#[test]
fn test_s2c_bytes_match_postcard() {
    let s = S2C::GameState(GameStateSnapshot {
        tick: 70_000,
        ball_x_bits: 1.5f32.to_bits(),
        ball_y_bits: (-2.0f32).to_bits(),
        ball_vx_bits: 0.0f32.to_bits(),
        ball_vy_bits: 9.75f32.to_bits(),
        paddle_left_y_bits: 12.0f32.to_bits(),
        paddle_right_y_bits: 3.0f32.to_bits(),
        score_left: 2,
        score_right: 4,
    });
    let expected = postcard::to_allocvec(&(
        4u32, 70_000u32, 1.5f32, -2.0f32, 0.0f32, 9.75f32, 12.0f32, 3.0f32, 2u8, 4u8,
    ))
    .unwrap();
    assert_eq!(s.to_bytes().unwrap(), expected);
    assert_eq!(S2C::Welcome { player_id: 1 }.to_bytes().unwrap(), vec![0, 1]);
    assert_eq!(S2C::Countdown { seconds: 3 }.to_bytes().unwrap(), vec![2, 3]);
    assert_eq!(S2C::GameOver { winner: 0 }.to_bytes().unwrap(), vec![5, 0]);
    assert_eq!(
        S2C::Pong { t_ms: 128 }.to_bytes().unwrap(),
        postcard::to_allocvec(&(7u32, 128u32)).unwrap()
    );
    assert_eq!(S2C::OpponentReconnected.to_bytes().unwrap(), vec![9]);
}

#[test]
fn test_decoding_postcard_bytes() {
    let bytes = postcard::to_allocvec(&(1u32, 0u8, 7.5f32, 99_999u32)).unwrap();
    assert_eq!(
        C2S::from_bytes(&bytes),
        Ok(C2S::Input { player_id: 0, y_bits: 7.5f32.to_bits(), seq: 99_999 })
    );
    let (tag, y): (u32, f32) = postcard::from_bytes(&[1, 0, 0, 0x40, 0x41]).unwrap();
    assert_eq!((tag, y), (1, 12.0));
}

#[test]
fn test_every_message_round_trips() {
    let c2s = [
        C2S::Join { code: *b"XYZ12" },
        C2S::Input { player_id: 1, y_bits: u32::MAX, seq: u32::MAX },
        C2S::Ping { t_ms: 0 },
        C2S::Restart,
    ];
    for m in c2s {
        let mut bytes = m.to_bytes().unwrap();
        assert_eq!(C2S::from_bytes(&bytes), Ok(m));
        bytes.extend_from_slice(&[0xFF, 0x00]);
        assert_eq!(C2S::from_bytes(&bytes), Ok(m), "trailing bytes are ignored");
    }
    let s2c = [
        S2C::Welcome { player_id: 1 },
        S2C::MatchFound,
        S2C::Countdown { seconds: 2 },
        S2C::GameStart,
        S2C::GameOver { winner: 1 },
        S2C::OpponentDisconnected,
        S2C::Pong { t_ms: 16_384 },
        S2C::OpponentReconnecting,
        S2C::OpponentReconnected,
    ];
    for m in s2c {
        assert_eq!(S2C::from_bytes(&m.to_bytes().unwrap()), Ok(m));
    }
}

#[test]
fn test_decoding_errors() {
    assert_eq!(C2S::from_bytes(&[]), Err(ProtoError::UnexpectedEnd));
    assert_eq!(C2S::from_bytes(&[0, b'A', b'B']), Err(ProtoError::UnexpectedEnd));
    assert_eq!(C2S::from_bytes(&[4]), Err(ProtoError::UnknownVariant));
    assert_eq!(S2C::from_bytes(&[10]), Err(ProtoError::UnknownVariant));
    assert_eq!(S2C::from_bytes(&[0]), Err(ProtoError::UnexpectedEnd));
    // A fifth varint byte may carry only four bits.
    assert_eq!(C2S::from_bytes(&[2, 0xFF, 0xFF, 0xFF, 0xFF, 0x10]), Err(ProtoError::BadVarint));
    assert_eq!(C2S::from_bytes(&[2, 0xFF, 0xFF, 0xFF, 0xFF, 0x0F]), Ok(C2S::Ping { t_ms: u32::MAX }));
    assert_eq!(C2S::from_bytes(&[2, 0x80]), Err(ProtoError::UnexpectedEnd));
    // A redundant (non-minimal) varint is accepted.
    assert_eq!(C2S::from_bytes(&[0x83, 0x00]), Ok(C2S::Restart));
    assert_eq!(S2C::from_bytes(&[4, 1, 0, 0]), Err(ProtoError::UnexpectedEnd));
}
