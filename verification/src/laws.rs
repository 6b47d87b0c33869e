//! Cross-operation laws of the engine, proved over the transition spec
//! functions that the operations' contracts return.

use vstd::prelude::*;
use crate::codec::{
    lemma_vibe_encode_of_decode, lemma_vibe_round_trip, lemma_vibe_wf_byte_wf, spec_encode_vibe,
    vibe_byte_wf,
};
use crate::errors::ErrorCode;
use crate::ops::{
    spec_create_vibe, spec_delete_vibe, spec_load_comment, spec_load_vibe, spec_remove_comment,
    spec_remove_like, spec_update_likes,
};
use crate::pda::{pda_probe, pda_with_bump, spec_comment_seeds, spec_like_seeds, PROGRAM_ID};
use crate::records::{VibeV, KEY_WIDTH, MAX_CONTENT_CHARS, MAX_TOPIC_CHARS};
use crate::store::EntryV;

verus! {

/// Creating a post from a valid topic and body succeeds, and the stored
/// record reads back with exactly that topic and body, the given author
/// and timestamp, and both counters at zero.
pub proof fn lemma_create_vibe_stores_post(
    m: Map<Seq<u8>, EntryV>,
    author: Seq<u8>,
    vibe_address: Seq<u8>,
    now: i64,
    topic: Seq<char>,
    content: Seq<char>,
)
    requires
        author.len() == KEY_WIDTH,
        topic.len() <= MAX_TOPIC_CHARS,
        content.len() <= MAX_CONTENT_CHARS,
        !m.contains_key(vibe_address),
    ensures
        ({
            let (m2, r) = spec_create_vibe(m, author, vibe_address, now, topic, content);
            &&& r is Ok
            &&& spec_load_vibe(m2, vibe_address) == Ok::<VibeV, ErrorCode>(
                VibeV { author, timestamp: now, topic, content, likes: 0, comments: 0 },
            )
        }),
{
    let v = VibeV { author, timestamp: now, topic, content, likes: 0, comments: 0 };
    lemma_vibe_wf_byte_wf(v);
    lemma_vibe_round_trip(v);
}

/// Creating a post from an overlong topic fails `TopicTooLong` and changes
/// nothing.
pub proof fn lemma_create_vibe_rejects_long_topic(
    m: Map<Seq<u8>, EntryV>,
    author: Seq<u8>,
    vibe_address: Seq<u8>,
    now: i64,
    topic: Seq<char>,
    content: Seq<char>,
)
    requires
        topic.len() > MAX_TOPIC_CHARS,
    ensures
        spec_create_vibe(m, author, vibe_address, now, topic, content) == (
            m,
            Err::<(), ErrorCode>(ErrorCode::TopicTooLong),
        ),
{
}

/// Rejection of a duplicate like is idempotent: after a like succeeds, the
/// same like again fails `AlreadyLiked` and changes nothing, and the post's
/// like counter — one after the successful call, starting from zero —
/// still reads one after both calls.
pub proof fn lemma_like_rejection_idempotent(
    m: Map<Seq<u8>, EntryV>,
    liker: Seq<u8>,
    vibe_address: Seq<u8>,
)
    requires
        pda_probe(spec_like_seeds(liker, vibe_address), PROGRAM_ID@) is Some,
        !m.contains_key(pda_probe(spec_like_seeds(liker, vibe_address), PROGRAM_ID@)->Some_0.0),
        spec_load_vibe(m, vibe_address) is Ok,
        spec_load_vibe(m, vibe_address)->Ok_0.likes == 0,
        m[vibe_address].data.len() <= m[vibe_address].capacity,
    ensures
        ({
            let (m1, r1) = spec_update_likes(m, liker, vibe_address);
            let (m2, r2) = spec_update_likes(m1, liker, vibe_address);
            &&& r1 is Ok
            &&& r2 == Err::<(), ErrorCode>(ErrorCode::AlreadyLiked)
            &&& m2 == m1
            &&& spec_load_vibe(m1, vibe_address) is Ok
            &&& spec_load_vibe(m1, vibe_address)->Ok_0.likes == 1
            &&& spec_load_vibe(m2, vibe_address)->Ok_0.likes == 1
        }),
{
    let v = spec_load_vibe(m, vibe_address)->Ok_0;
    lemma_vibe_encode_of_decode(m[vibe_address].data, v);
    let v2 = VibeV { likes: 1u32, ..v };
    assert(vibe_byte_wf(v2));
    lemma_vibe_round_trip(v2);
    vstd::bytes::lemma_auto_spec_u32_to_from_le_bytes();
    assert(spec_encode_vibe(v2).len() == spec_encode_vibe(v).len());
}

/// A removed like can be granted again at once: the like's address is
/// reclaimed and reusable, and the post's like counter returns to the
/// value it had before the removal.
pub proof fn lemma_relike_after_unlike(
    m: Map<Seq<u8>, EntryV>,
    liker: Seq<u8>,
    vibe_address: Seq<u8>,
)
    requires
        spec_remove_like(m, liker, vibe_address).1 is Ok,
        m[vibe_address].data.len() <= m[vibe_address].capacity,
    ensures
        ({
            let (m1, r1) = spec_remove_like(m, liker, vibe_address);
            let (m2, r2) = spec_update_likes(m1, liker, vibe_address);
            &&& r2 is Ok
            &&& spec_load_vibe(m2, vibe_address) is Ok
            &&& spec_load_vibe(m2, vibe_address)->Ok_0.likes == spec_load_vibe(
                m,
                vibe_address,
            )->Ok_0.likes
        }),
{
    let v = spec_load_vibe(m, vibe_address)->Ok_0;
    lemma_vibe_encode_of_decode(m[vibe_address].data, v);
    let v2 = VibeV { likes: (v.likes - 1) as u32, ..v };
    assert(vibe_byte_wf(v2));
    lemma_vibe_round_trip(v2);
    let v3 = VibeV { likes: (v2.likes + 1) as u32, ..v2 };
    assert(v3 == v);
    lemma_vibe_round_trip(v);
}

/// Removing a comment while the post's comment counter is already zero is
/// a state corruption: it fails fatally with `CounterUnderflow`, mutates
/// nothing, and the counter still reads zero.
pub proof fn lemma_remove_comment_underflow_fatal(
    m: Map<Seq<u8>, EntryV>,
    commentor: Seq<u8>,
    vibe_address: Seq<u8>,
    comment_address: Seq<u8>,
    probe_bump: u8,
)
    requires
        pda_probe(spec_comment_seeds(commentor, vibe_address), PROGRAM_ID@) == Some(
            (comment_address, probe_bump),
        ),
        spec_load_comment(m, comment_address) is Ok,
        pda_with_bump(
            spec_comment_seeds(commentor, vibe_address),
            spec_load_comment(m, comment_address)->Ok_0.bump,
            PROGRAM_ID@,
        ) == Some(comment_address),
        spec_load_comment(m, comment_address)->Ok_0.commentor == commentor,
        spec_load_vibe(m, vibe_address) is Ok,
        spec_load_vibe(m, vibe_address)->Ok_0.comments == 0,
    ensures
        spec_remove_comment(m, commentor, vibe_address) == (
            m,
            Err::<(), ErrorCode>(ErrorCode::CounterUnderflow),
        ),
        spec_load_vibe(spec_remove_comment(m, commentor, vibe_address).0, vibe_address)
            ->Ok_0.comments == 0,
{
}

/// Only the stored author may delete a post: any other caller fails
/// `Unauthorized` and the post record is unchanged.
pub proof fn lemma_delete_vibe_authorization(
    m: Map<Seq<u8>, EntryV>,
    caller: Seq<u8>,
    vibe_address: Seq<u8>,
)
    requires
        spec_load_vibe(m, vibe_address) is Ok,
        spec_load_vibe(m, vibe_address)->Ok_0.author != caller,
    ensures
        spec_delete_vibe(m, caller, vibe_address) == (
            m,
            Err::<(), ErrorCode>(ErrorCode::Unauthorized),
        ),
        spec_load_vibe(spec_delete_vibe(m, caller, vibe_address).0, vibe_address)
            == spec_load_vibe(m, vibe_address),
{
}

} // verus!
