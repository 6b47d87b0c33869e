//! Round-trip checks of the layout codec at the boundary field lengths.

use solvibe_social::codec::{
    decode_comment, decode_follow, decode_like, decode_user, decode_vibe, encode_comment,
    encode_follow, encode_like, encode_user, encode_vibe,
};
use solvibe_social::records::{Comment, Follow, Like, User, Vibe};

fn key(n: u8) -> [u8; 32] {
    [n; 32]
}

#[test]
fn user_round_trip_at_boundary() {
    let u = User {
        user_key: key(7),
        bump: 254,
        followers: 12345,
        name: "n".repeat(20),
        username: "u".repeat(20),
    };
    let bytes = encode_user(&u);
    let back = decode_user(&bytes).unwrap();
    assert_eq!(back.user_key, u.user_key);
    assert_eq!(back.bump, u.bump);
    assert_eq!(back.followers, u.followers);
    assert_eq!(back.name, u.name);
    assert_eq!(back.username, u.username);
}

#[test]
fn vibe_round_trip_at_boundary() {
    let v = Vibe {
        author: key(9),
        timestamp: i64::MIN,
        topic: "t".repeat(50),
        content: "c".repeat(300),
        likes: u32::MAX,
        comments: 0,
    };
    let bytes = encode_vibe(&v);
    let back = decode_vibe(&bytes).unwrap();
    assert_eq!(back.author, v.author);
    assert_eq!(back.timestamp, v.timestamp);
    assert_eq!(back.topic, v.topic);
    assert_eq!(back.content, v.content);
    assert_eq!(back.likes, v.likes);
    assert_eq!(back.comments, v.comments);
}

#[test]
fn vibe_round_trip_multibyte_text() {
    // 50 characters, four encoded bytes each: the worst-case budget.
    let topic: String = "\u{1F600}".repeat(50);
    let v = Vibe {
        author: key(3),
        timestamp: i64::MAX,
        topic: topic.clone(),
        content: "\u{3042}\u{00e9}plain".to_string(),
        likes: 1,
        comments: 2,
    };
    let bytes = encode_vibe(&v);
    let back = decode_vibe(&bytes).unwrap();
    assert_eq!(back.topic, topic);
    assert_eq!(back.content, v.content);
    assert_eq!(back.timestamp, i64::MAX);
}

#[test]
fn like_round_trip() {
    let l = Like { bump: 251 };
    let bytes = encode_like(&l);
    assert_eq!(bytes.len(), 9);
    let back = decode_like(&bytes).unwrap();
    assert_eq!(back.bump, 251);
}

#[test]
fn comment_round_trip_at_boundary() {
    let c = Comment {
        vibe: key(11),
        commentor: key(12),
        comment: "x".repeat(150),
        bump: 255,
    };
    let bytes = encode_comment(&c);
    let back = decode_comment(&bytes).unwrap();
    assert_eq!(back.vibe, c.vibe);
    assert_eq!(back.commentor, c.commentor);
    assert_eq!(back.comment, c.comment);
    assert_eq!(back.bump, c.bump);
}

#[test]
fn follow_round_trip() {
    let f = Follow { followed: key(21), follower: key(22), bump: 250 };
    let bytes = encode_follow(&f);
    assert_eq!(bytes.len(), 73);
    let back = decode_follow(&bytes).unwrap();
    assert_eq!(back.followed, f.followed);
    assert_eq!(back.follower, f.follower);
    assert_eq!(back.bump, f.bump);
}

#[test]
fn decode_refuses_foreign_tag() {
    let l = Like { bump: 1 };
    let bytes = encode_like(&l);
    // A like buffer does not decode as a follow record.
    assert!(decode_follow(&bytes).is_err());
}

#[test]
fn decode_refuses_trailing_garbage() {
    let l = Like { bump: 1 };
    let mut bytes = encode_like(&l);
    bytes.push(0);
    assert!(decode_like(&bytes).is_err());
}

#[test]
fn decode_refuses_invalid_utf8() {
    let u = User {
        user_key: key(5),
        bump: 0,
        followers: 0,
        name: "ab".to_string(),
        username: "cd".to_string(),
    };
    let mut bytes = encode_user(&u);
    // The first name byte sits after the 45-byte fixed head and the 4-byte
    // length prefix; 0xFF can never start a UTF-8 sequence.
    bytes[49] = 0xFF;
    assert!(decode_user(&bytes).is_err());
}

#[test]
fn decode_refuses_overlong_declared_length() {
    let u = User {
        user_key: key(5),
        bump: 0,
        followers: 0,
        name: "ab".to_string(),
        username: "cd".to_string(),
    };
    let mut bytes = encode_user(&u);
    // Declare a name length above the 80-byte field budget.
    bytes[45] = 81;
    assert!(decode_user(&bytes).is_err());
}
