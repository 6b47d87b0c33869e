//! Fixed-capacity layout codec for the five record kinds.
//!
//! `spec_encode_*` is the wire form of a record: the kind's type tag, then
//! every field in declaration order, text fields as length-prefixed UTF-8.
//! `spec_decode_*` accepts exactly the image of `spec_encode_*`: it refuses
//! a foreign type tag, a text length above the field's byte budget, bytes
//! that are not valid UTF-8, and a buffer that is truncated or carries
//! trailing garbage.  Encoding a well-formed record never exceeds the
//! kind's declared storage budget.

use vstd::prelude::*;
use vstd::bytes::*;
use vstd::utf8::*;
use crate::errors::ErrorCode;
use crate::fields::{
    lemma_decode_text_of_encode, lemma_encode_text_of_decode, lemma_encode_utf8_len,
    lemma_i64_u64_round_trip, i64_to_u64, push_key, push_text, push_u32_le, push_u64_le,
    read_key_at, read_text_at, read_u32_at, read_u64_at, spec_decode_text_at, spec_encode_text,
    spec_i64_to_u64, spec_u64_to_i64, u64_to_i64,
};
use crate::records::{
    Comment, CommentV, Follow, FollowV, Like, LikeV, User, UserV, Vibe, VibeV, COMMENT_LEN,
    FOLLOW_LEN, KEY_WIDTH, LIKE_LEN, MAX_COMMENT_BYTES, MAX_CONTENT_BYTES, MAX_NAME_BYTES,
    MAX_TOPIC_BYTES, TAG_COMMENT, TAG_FOLLOW, TAG_LIKE, TAG_USER, TAG_VIBE, USER_LEN, VIBE_LEN,
};

verus! {

/// Byte-level bounds of a user record: what a successful decode guarantees.
pub open spec fn user_byte_wf(v: UserV) -> bool {
    &&& v.user_key.len() == KEY_WIDTH
    &&& encode_utf8(v.name).len() <= MAX_NAME_BYTES
    &&& encode_utf8(v.username).len() <= MAX_NAME_BYTES
}

/// Byte-level bounds of a vibe record.
pub open spec fn vibe_byte_wf(v: VibeV) -> bool {
    &&& v.author.len() == KEY_WIDTH
    &&& encode_utf8(v.topic).len() <= MAX_TOPIC_BYTES
    &&& encode_utf8(v.content).len() <= MAX_CONTENT_BYTES
}

/// Byte-level bounds of a comment record.
pub open spec fn comment_byte_wf(v: CommentV) -> bool {
    &&& v.vibe.len() == KEY_WIDTH
    &&& v.commentor.len() == KEY_WIDTH
    &&& encode_utf8(v.comment).len() <= MAX_COMMENT_BYTES
}

/// Byte-level bounds of a follow record.
pub open spec fn follow_byte_wf(v: FollowV) -> bool {
    &&& v.followed.len() == KEY_WIDTH
    &&& v.follower.len() == KEY_WIDTH
}

/// Character-count bounds imply the byte-level bounds.
pub proof fn lemma_user_wf_byte_wf(v: UserV)
    requires
        v.wf(),
    ensures
        user_byte_wf(v),
{
    lemma_encode_utf8_len(v.name);
    lemma_encode_utf8_len(v.username);
}

/// Character-count bounds imply the byte-level bounds.
pub proof fn lemma_vibe_wf_byte_wf(v: VibeV)
    requires
        v.wf(),
    ensures
        vibe_byte_wf(v),
{
    lemma_encode_utf8_len(v.topic);
    lemma_encode_utf8_len(v.content);
}

/// Character-count bounds imply the byte-level bounds.
pub proof fn lemma_comment_wf_byte_wf(v: CommentV)
    requires
        v.wf(),
    ensures
        comment_byte_wf(v),
{
    lemma_encode_utf8_len(v.comment);
}

/// Wire form of a user record.
pub open spec fn spec_encode_user(v: UserV) -> Seq<u8> {
    spec_u64_to_le_bytes(TAG_USER) + v.user_key + seq![v.bump] + spec_u32_to_le_bytes(v.followers)
        + spec_encode_text(v.name) + spec_encode_text(v.username)
}

/// Reads back exactly the image of [`spec_encode_user`].
pub open spec fn spec_decode_user(data: Seq<u8>) -> Option<UserV> {
    if data.len() < 45 {
        None
    } else if spec_u64_from_le_bytes(data.subrange(0, 8)) != TAG_USER {
        None
    } else {
        match spec_decode_text_at(data, 45, MAX_NAME_BYTES as int) {
            None => None,
            Some((name, off2)) => match spec_decode_text_at(data, off2, MAX_NAME_BYTES as int) {
                None => None,
                Some((username, end)) => if end != data.len() {
                    None
                } else {
                    Some(
                        UserV {
                            user_key: data.subrange(8, 40),
                            bump: data[40],
                            followers: spec_u32_from_le_bytes(data.subrange(41, 45)),
                            name,
                            username,
                        },
                    )
                },
            },
        }
    }
}

/// Wire form of a vibe record.
pub open spec fn spec_encode_vibe(v: VibeV) -> Seq<u8> {
    spec_u64_to_le_bytes(TAG_VIBE) + v.author + spec_u64_to_le_bytes(spec_i64_to_u64(v.timestamp))
        + spec_encode_text(v.topic) + spec_encode_text(v.content) + spec_u32_to_le_bytes(v.likes)
        + spec_u32_to_le_bytes(v.comments)
}

/// Reads back exactly the image of [`spec_encode_vibe`].
pub open spec fn spec_decode_vibe(data: Seq<u8>) -> Option<VibeV> {
    if data.len() < 48 {
        None
    } else if spec_u64_from_le_bytes(data.subrange(0, 8)) != TAG_VIBE {
        None
    } else {
        match spec_decode_text_at(data, 48, MAX_TOPIC_BYTES as int) {
            None => None,
            Some((topic, off2)) => match spec_decode_text_at(data, off2, MAX_CONTENT_BYTES as int) {
                None => None,
                Some((content, off3)) => if off3 + 8 != data.len() {
                    None
                } else {
                    Some(
                        VibeV {
                            author: data.subrange(8, 40),
                            timestamp: spec_u64_to_i64(
                                spec_u64_from_le_bytes(data.subrange(40, 48)),
                            ),
                            topic,
                            content,
                            likes: spec_u32_from_le_bytes(data.subrange(off3, off3 + 4)),
                            comments: spec_u32_from_le_bytes(data.subrange(off3 + 4, off3 + 8)),
                        },
                    )
                },
            },
        }
    }
}

/// Wire form of a like record.
pub open spec fn spec_encode_like(v: LikeV) -> Seq<u8> {
    spec_u64_to_le_bytes(TAG_LIKE) + seq![v.bump]
}

/// Reads back exactly the image of [`spec_encode_like`].
pub open spec fn spec_decode_like(data: Seq<u8>) -> Option<LikeV> {
    if data.len() != 9 {
        None
    } else if spec_u64_from_le_bytes(data.subrange(0, 8)) != TAG_LIKE {
        None
    } else {
        Some(LikeV { bump: data[8] })
    }
}

/// Wire form of a comment record.
pub open spec fn spec_encode_comment(v: CommentV) -> Seq<u8> {
    spec_u64_to_le_bytes(TAG_COMMENT) + v.vibe + v.commentor + spec_encode_text(v.comment) + seq![
        v.bump,
    ]
}

/// Reads back exactly the image of [`spec_encode_comment`].
pub open spec fn spec_decode_comment(data: Seq<u8>) -> Option<CommentV> {
    if data.len() < 72 {
        None
    } else if spec_u64_from_le_bytes(data.subrange(0, 8)) != TAG_COMMENT {
        None
    } else {
        match spec_decode_text_at(data, 72, MAX_COMMENT_BYTES as int) {
            None => None,
            Some((comment, off2)) => if off2 + 1 != data.len() {
                None
            } else {
                Some(
                    CommentV {
                        vibe: data.subrange(8, 40),
                        commentor: data.subrange(40, 72),
                        comment,
                        bump: data[off2],
                    },
                )
            },
        }
    }
}

/// Wire form of a follow record.
pub open spec fn spec_encode_follow(v: FollowV) -> Seq<u8> {
    spec_u64_to_le_bytes(TAG_FOLLOW) + v.followed + v.follower + seq![v.bump]
}

/// Reads back exactly the image of [`spec_encode_follow`].
pub open spec fn spec_decode_follow(data: Seq<u8>) -> Option<FollowV> {
    if data.len() != 73 {
        None
    } else if spec_u64_from_le_bytes(data.subrange(0, 8)) != TAG_FOLLOW {
        None
    } else {
        Some(
            FollowV {
                followed: data.subrange(8, 40),
                follower: data.subrange(40, 72),
                bump: data[72],
            },
        )
    }
}

/// A byte-bounded user record decodes back from its wire form.
pub proof fn lemma_user_round_trip(v: UserV)
    requires
        user_byte_wf(v),
    ensures
        spec_decode_user(spec_encode_user(v)) == Some(v),
        spec_encode_user(v).len() <= USER_LEN,
{
    lemma_auto_spec_u64_to_from_le_bytes();
    lemma_auto_spec_u32_to_from_le_bytes();
    let data = spec_encode_user(v);
    let head = spec_u64_to_le_bytes(TAG_USER) + v.user_key + seq![v.bump] + spec_u32_to_le_bytes(
        v.followers,
    );
    let t1 = spec_encode_text(v.name);
    let t2 = spec_encode_text(v.username);
    assert(head.len() == 45);
    assert(data =~= head + t1 + t2);
    assert(data.subrange(0, 8) =~= spec_u64_to_le_bytes(TAG_USER));
    assert(data.subrange(8, 40) =~= v.user_key);
    assert(data[40] == v.bump);
    assert(data.subrange(41, 45) =~= spec_u32_to_le_bytes(v.followers));
    lemma_decode_text_of_encode(head, v.name, t2, MAX_NAME_BYTES as int);
    assert(spec_decode_text_at(data, 45, MAX_NAME_BYTES as int) == Some(
        (v.name, 45 + t1.len() as int),
    ));
    lemma_decode_text_of_encode(head + t1, v.username, Seq::<u8>::empty(), MAX_NAME_BYTES as int);
    assert((head + t1) + t2 + Seq::<u8>::empty() =~= data);
    assert(spec_decode_text_at(data, 45 + t1.len() as int, MAX_NAME_BYTES as int) == Some(
        (v.username, data.len() as int),
    ));
}

/// A byte-bounded vibe record decodes back from its wire form.
pub proof fn lemma_vibe_round_trip(v: VibeV)
    requires
        vibe_byte_wf(v),
    ensures
        spec_decode_vibe(spec_encode_vibe(v)) == Some(v),
        spec_encode_vibe(v).len() <= VIBE_LEN,
{
    lemma_auto_spec_u64_to_from_le_bytes();
    lemma_auto_spec_u32_to_from_le_bytes();
    lemma_i64_u64_round_trip(v.timestamp, 0);
    let data = spec_encode_vibe(v);
    let head = spec_u64_to_le_bytes(TAG_VIBE) + v.author + spec_u64_to_le_bytes(
        spec_i64_to_u64(v.timestamp),
    );
    let t1 = spec_encode_text(v.topic);
    let t2 = spec_encode_text(v.content);
    let tail = spec_u32_to_le_bytes(v.likes) + spec_u32_to_le_bytes(v.comments);
    assert(head.len() == 48);
    assert(tail.len() == 8);
    assert(data =~= head + t1 + t2 + tail);
    assert(data.subrange(0, 8) =~= spec_u64_to_le_bytes(TAG_VIBE));
    assert(data.subrange(8, 40) =~= v.author);
    assert(data.subrange(40, 48) =~= spec_u64_to_le_bytes(spec_i64_to_u64(v.timestamp)));
    lemma_decode_text_of_encode(head, v.topic, t2 + tail, MAX_TOPIC_BYTES as int);
    assert(head + t1 + (t2 + tail) =~= data);
    assert(spec_decode_text_at(data, 48, MAX_TOPIC_BYTES as int) == Some(
        (v.topic, 48 + t1.len() as int),
    ));
    lemma_decode_text_of_encode(head + t1, v.content, tail, MAX_CONTENT_BYTES as int);
    assert((head + t1) + t2 + tail =~= data);
    let off3 = 48 + t1.len() as int + t2.len() as int;
    assert(spec_decode_text_at(data, 48 + t1.len() as int, MAX_CONTENT_BYTES as int) == Some(
        (v.content, off3),
    ));
    assert(off3 + 8 == data.len());
    assert(data.subrange(off3, off3 + 4) =~= spec_u32_to_le_bytes(v.likes));
    assert(data.subrange(off3 + 4, off3 + 8) =~= spec_u32_to_le_bytes(v.comments));
}

/// A like record decodes back from its wire form.
pub proof fn lemma_like_round_trip(v: LikeV)
    ensures
        spec_decode_like(spec_encode_like(v)) == Some(v),
        spec_encode_like(v).len() == LIKE_LEN,
{
    lemma_auto_spec_u64_to_from_le_bytes();
    let data = spec_encode_like(v);
    assert(data.subrange(0, 8) =~= spec_u64_to_le_bytes(TAG_LIKE));
    assert(data[8] == v.bump);
}

/// A byte-bounded comment record decodes back from its wire form.
pub proof fn lemma_comment_round_trip(v: CommentV)
    requires
        comment_byte_wf(v),
    ensures
        spec_decode_comment(spec_encode_comment(v)) == Some(v),
        spec_encode_comment(v).len() <= COMMENT_LEN,
{
    lemma_auto_spec_u64_to_from_le_bytes();
    let data = spec_encode_comment(v);
    let head = spec_u64_to_le_bytes(TAG_COMMENT) + v.vibe + v.commentor;
    let t1 = spec_encode_text(v.comment);
    assert(head.len() == 72);
    assert(data =~= head + t1 + seq![v.bump]);
    assert(data.subrange(0, 8) =~= spec_u64_to_le_bytes(TAG_COMMENT));
    assert(data.subrange(8, 40) =~= v.vibe);
    assert(data.subrange(40, 72) =~= v.commentor);
    lemma_decode_text_of_encode(head, v.comment, seq![v.bump], MAX_COMMENT_BYTES as int);
    assert(head + t1 + seq![v.bump] =~= data);
    let off2 = 72 + t1.len() as int;
    assert(spec_decode_text_at(data, 72, MAX_COMMENT_BYTES as int) == Some((v.comment, off2)));
    assert(off2 + 1 == data.len());
    assert(data[off2] == v.bump);
}

/// A byte-bounded follow record decodes back from its wire form.
pub proof fn lemma_follow_round_trip(v: FollowV)
    requires
        follow_byte_wf(v),
    ensures
        spec_decode_follow(spec_encode_follow(v)) == Some(v),
        spec_encode_follow(v).len() == FOLLOW_LEN,
{
    lemma_auto_spec_u64_to_from_le_bytes();
    let data = spec_encode_follow(v);
    assert(data.subrange(0, 8) =~= spec_u64_to_le_bytes(TAG_FOLLOW));
    assert(data.subrange(8, 40) =~= v.followed);
    assert(data.subrange(40, 72) =~= v.follower);
    assert(data[72] == v.bump);
}

/// A successful decode consumes exactly one wire form: the bytes re-encode
/// to themselves, and the record is byte-bounded.
pub proof fn lemma_vibe_encode_of_decode(data: Seq<u8>, v: VibeV)
    requires
        spec_decode_vibe(data) == Some(v),
    ensures
        spec_encode_vibe(v) == data,
        vibe_byte_wf(v),
{
    lemma_auto_spec_u64_to_from_le_bytes();
    lemma_auto_spec_u32_to_from_le_bytes();
    lemma_i64_u64_round_trip(0, spec_u64_from_le_bytes(data.subrange(40, 48)));
    let t = spec_decode_text_at(data, 48, MAX_TOPIC_BYTES as int);
    let (topic, off2) = t->Some_0;
    lemma_encode_text_of_decode(data, 48, MAX_TOPIC_BYTES as int, topic, off2);
    let c = spec_decode_text_at(data, off2, MAX_CONTENT_BYTES as int);
    let (content, off3) = c->Some_0;
    lemma_encode_text_of_decode(data, off2, MAX_CONTENT_BYTES as int, content, off3);
    assert(spec_encode_vibe(v) =~= data);
}

/// A successful decode consumes exactly one wire form: the bytes re-encode
/// to themselves, and the record is byte-bounded.
pub proof fn lemma_user_encode_of_decode(data: Seq<u8>, v: UserV)
    requires
        spec_decode_user(data) == Some(v),
    ensures
        spec_encode_user(v) == data,
        user_byte_wf(v),
{
    lemma_auto_spec_u64_to_from_le_bytes();
    lemma_auto_spec_u32_to_from_le_bytes();
    let t = spec_decode_text_at(data, 45, MAX_NAME_BYTES as int);
    let (name, off2) = t->Some_0;
    lemma_encode_text_of_decode(data, 45, MAX_NAME_BYTES as int, name, off2);
    let u = spec_decode_text_at(data, off2, MAX_NAME_BYTES as int);
    let (username, end) = u->Some_0;
    lemma_encode_text_of_decode(data, off2, MAX_NAME_BYTES as int, username, end);
    assert(spec_encode_user(v) =~= data);
}

/// Encodes a user record; the result never exceeds [`USER_LEN`].
pub fn encode_user(u: &User) -> (r: Vec<u8>)
    requires
        user_byte_wf(u@),
    ensures
        r@ == spec_encode_user(u@),
        r@.len() <= USER_LEN,
{
    let mut out: Vec<u8> = Vec::new();
    push_u64_le(&mut out, TAG_USER);
    push_key(&mut out, &u.user_key);
    out.push(u.bump);
    push_u32_le(&mut out, u.followers);
    push_text(&mut out, u.name.as_str());
    push_text(&mut out, u.username.as_str());
    proof {
        assert(out@ =~= spec_encode_user(u@));
        lemma_user_round_trip(u@);
    }
    out
}

/// Encodes a vibe record; the result never exceeds [`VIBE_LEN`].
pub fn encode_vibe(v: &Vibe) -> (r: Vec<u8>)
    requires
        vibe_byte_wf(v@),
    ensures
        r@ == spec_encode_vibe(v@),
        r@.len() <= VIBE_LEN,
{
    let mut out: Vec<u8> = Vec::new();
    push_u64_le(&mut out, TAG_VIBE);
    push_key(&mut out, &v.author);
    push_u64_le(&mut out, i64_to_u64(v.timestamp));
    push_text(&mut out, v.topic.as_str());
    push_text(&mut out, v.content.as_str());
    push_u32_le(&mut out, v.likes);
    push_u32_le(&mut out, v.comments);
    proof {
        assert(out@ =~= spec_encode_vibe(v@));
        lemma_vibe_round_trip(v@);
    }
    out
}

/// Encodes a like record; the result is exactly [`LIKE_LEN`] bytes.
pub fn encode_like(v: &Like) -> (r: Vec<u8>)
    ensures
        r@ == spec_encode_like(v@),
        r@.len() == LIKE_LEN,
{
    let mut out: Vec<u8> = Vec::new();
    push_u64_le(&mut out, TAG_LIKE);
    out.push(v.bump);
    proof {
        lemma_auto_spec_u64_to_from_le_bytes();
        assert(out@ =~= spec_encode_like(v@));
    }
    out
}

/// Encodes a comment record; the result never exceeds [`COMMENT_LEN`].
pub fn encode_comment(c: &Comment) -> (r: Vec<u8>)
    requires
        comment_byte_wf(c@),
    ensures
        r@ == spec_encode_comment(c@),
        r@.len() <= COMMENT_LEN,
{
    let mut out: Vec<u8> = Vec::new();
    push_u64_le(&mut out, TAG_COMMENT);
    push_key(&mut out, &c.vibe);
    push_key(&mut out, &c.commentor);
    push_text(&mut out, c.comment.as_str());
    out.push(c.bump);
    proof {
        assert(out@ =~= spec_encode_comment(c@));
        lemma_comment_round_trip(c@);
    }
    out
}

/// Encodes a follow record; the result is exactly [`FOLLOW_LEN`] bytes.
pub fn encode_follow(f: &Follow) -> (r: Vec<u8>)
    requires
        follow_byte_wf(f@),
    ensures
        r@ == spec_encode_follow(f@),
        r@.len() == FOLLOW_LEN,
{
    let mut out: Vec<u8> = Vec::new();
    push_u64_le(&mut out, TAG_FOLLOW);
    push_key(&mut out, &f.followed);
    push_key(&mut out, &f.follower);
    out.push(f.bump);
    proof {
        lemma_auto_spec_u64_to_from_le_bytes();
        assert(out@ =~= spec_encode_follow(f@));
    }
    out
}

/// Decodes a user record, exactly as [`spec_decode_user`] does.
pub fn decode_user(data: &[u8]) -> (r: Result<User, ErrorCode>)
    ensures
        match r {
            Ok(x) => spec_decode_user(data@) == Some(x@),
            Err(e) => {
                &&& spec_decode_user(data@) is None
                &&& e == ErrorCode::LayoutError
            },
        },
{
    let l = data.len();
    if l < 45 {
        return Err(ErrorCode::LayoutError);
    }
    if read_u64_at(data, 0) != TAG_USER {
        return Err(ErrorCode::LayoutError);
    }
    let user_key = read_key_at(data, 8);
    let bump = data[40];
    let followers = read_u32_at(data, 41);
    let (name, off2) = match read_text_at(data, 45, MAX_NAME_BYTES) {
        Ok(p) => p,
        Err(e) => {
            return Err(e);
        },
    };
    let (username, end) = match read_text_at(data, off2, MAX_NAME_BYTES) {
        Ok(p) => p,
        Err(e) => {
            return Err(e);
        },
    };
    if end != l {
        return Err(ErrorCode::LayoutError);
    }
    Ok(User { user_key, bump, followers, name, username })
}

/// Decodes a vibe record, exactly as [`spec_decode_vibe`] does.
pub fn decode_vibe(data: &[u8]) -> (r: Result<Vibe, ErrorCode>)
    ensures
        match r {
            Ok(x) => spec_decode_vibe(data@) == Some(x@),
            Err(e) => {
                &&& spec_decode_vibe(data@) is None
                &&& e == ErrorCode::LayoutError
            },
        },
{
    let l = data.len();
    if l < 48 {
        return Err(ErrorCode::LayoutError);
    }
    if read_u64_at(data, 0) != TAG_VIBE {
        return Err(ErrorCode::LayoutError);
    }
    let author = read_key_at(data, 8);
    let timestamp = u64_to_i64(read_u64_at(data, 40));
    let (topic, off2) = match read_text_at(data, 48, MAX_TOPIC_BYTES) {
        Ok(p) => p,
        Err(e) => {
            return Err(e);
        },
    };
    let (content, off3) = match read_text_at(data, off2, MAX_CONTENT_BYTES) {
        Ok(p) => p,
        Err(e) => {
            return Err(e);
        },
    };
    proof {
        assert(off3 <= l);
    }
    if l - off3 != 8 {
        return Err(ErrorCode::LayoutError);
    }
    let likes = read_u32_at(data, off3);
    let comments = read_u32_at(data, off3 + 4);
    Ok(Vibe { author, timestamp, topic, content, likes, comments })
}

/// Decodes a like record, exactly as [`spec_decode_like`] does.
pub fn decode_like(data: &[u8]) -> (r: Result<Like, ErrorCode>)
    ensures
        match r {
            Ok(x) => spec_decode_like(data@) == Some(x@),
            Err(e) => {
                &&& spec_decode_like(data@) is None
                &&& e == ErrorCode::LayoutError
            },
        },
{
    let l = data.len();
    if l != 9 {
        return Err(ErrorCode::LayoutError);
    }
    if read_u64_at(data, 0) != TAG_LIKE {
        return Err(ErrorCode::LayoutError);
    }
    Ok(Like { bump: data[8] })
}

/// Decodes a comment record, exactly as [`spec_decode_comment`] does.
pub fn decode_comment(data: &[u8]) -> (r: Result<Comment, ErrorCode>)
    ensures
        match r {
            Ok(x) => spec_decode_comment(data@) == Some(x@),
            Err(e) => {
                &&& spec_decode_comment(data@) is None
                &&& e == ErrorCode::LayoutError
            },
        },
{
    let l = data.len();
    if l < 72 {
        return Err(ErrorCode::LayoutError);
    }
    if read_u64_at(data, 0) != TAG_COMMENT {
        return Err(ErrorCode::LayoutError);
    }
    let vibe = read_key_at(data, 8);
    let commentor = read_key_at(data, 40);
    let (comment, off2) = match read_text_at(data, 72, MAX_COMMENT_BYTES) {
        Ok(p) => p,
        Err(e) => {
            return Err(e);
        },
    };
    proof {
        assert(off2 <= l);
    }
    if l - off2 != 1 {
        return Err(ErrorCode::LayoutError);
    }
    let bump = data[off2];
    Ok(Comment { vibe, commentor, comment, bump })
}

/// Decodes a follow record, exactly as [`spec_decode_follow`] does.
pub fn decode_follow(data: &[u8]) -> (r: Result<Follow, ErrorCode>)
    ensures
        match r {
            Ok(x) => spec_decode_follow(data@) == Some(x@),
            Err(e) => {
                &&& spec_decode_follow(data@) is None
                &&& e == ErrorCode::LayoutError
            },
        },
{
    let l = data.len();
    if l != 73 {
        return Err(ErrorCode::LayoutError);
    }
    if read_u64_at(data, 0) != TAG_FOLLOW {
        return Err(ErrorCode::LayoutError);
    }
    let followed = read_key_at(data, 8);
    let follower = read_key_at(data, 40);
    Ok(Follow { followed, follower, bump: data[72] })
}

} // verus!
