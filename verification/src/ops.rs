//! The social operations: verified state transitions over the record store.
//!
//! Each operation is one guarded sequence of derive, fetch or create,
//! authorize, mutate.  Every check happens before any mutating write, so an
//! operation either commits whole or reports an error with every record
//! untouched.  The exact transition of each operation is a spec function
//! over the store's map value; the executable operation returns precisely
//! that transition's result.

use vstd::prelude::*;
use vstd::string::StrSliceExecFns;
use crate::auth::authorize;
use crate::codec::{
    decode_comment, decode_follow, decode_like, decode_user, decode_vibe, encode_comment,
    encode_follow, encode_like, encode_user, encode_vibe, lemma_comment_wf_byte_wf,
    lemma_user_encode_of_decode, lemma_user_wf_byte_wf, lemma_vibe_encode_of_decode,
    lemma_vibe_wf_byte_wf, spec_decode_comment, spec_decode_follow, spec_decode_like,
    spec_decode_user, spec_decode_vibe, spec_encode_comment, spec_encode_follow,
    spec_encode_like, spec_encode_user, spec_encode_vibe,
};
use crate::errors::ErrorCode;
use crate::fields::{key_eq, lemma_encode_utf8_len};
use crate::pda::{
    comment_seeds, derive_with_bump, follow_seeds, like_seeds, pda_probe, pda_with_bump,
    probe_address, spec_comment_seeds, spec_follow_seeds, spec_like_seeds, spec_user_seeds,
    user_seeds, PROGRAM_ID,
};
use crate::records::{
    Comment, CommentV, Follow, FollowV, Like, LikeV, User, UserV, Vibe, VibeV, COMMENT_LEN,
    FOLLOW_LEN, LIKE_LEN, MAX_COMMENT_CHARS, MAX_CONTENT_CHARS, MAX_NAME_CHARS, MAX_TOPIC_CHARS,
    TAG_COMMENT, TAG_FOLLOW, TAG_LIKE, TAG_USER, TAG_VIBE, USER_LEN, VIBE_LEN,
};
use crate::store::{EntryV, Ledger};

verus! {

/// Loads and decodes the user record at `addr`.
pub open spec fn spec_load_user(m: Map<Seq<u8>, EntryV>, addr: Seq<u8>) -> Result<
    UserV,
    ErrorCode,
> {
    if !m.contains_key(addr) {
        Err(ErrorCode::NotFound)
    } else if m[addr].tag != TAG_USER {
        Err(ErrorCode::TypeMismatch)
    } else {
        match spec_decode_user(m[addr].data) {
            Some(v) => Ok(v),
            None => Err(ErrorCode::LayoutError),
        }
    }
}

/// Loads and decodes the vibe record at `addr`.
pub open spec fn spec_load_vibe(m: Map<Seq<u8>, EntryV>, addr: Seq<u8>) -> Result<
    VibeV,
    ErrorCode,
> {
    if !m.contains_key(addr) {
        Err(ErrorCode::NotFound)
    } else if m[addr].tag != TAG_VIBE {
        Err(ErrorCode::TypeMismatch)
    } else {
        match spec_decode_vibe(m[addr].data) {
            Some(v) => Ok(v),
            None => Err(ErrorCode::LayoutError),
        }
    }
}

/// Loads and decodes the like record at `addr`.
pub open spec fn spec_load_like(m: Map<Seq<u8>, EntryV>, addr: Seq<u8>) -> Result<
    LikeV,
    ErrorCode,
> {
    if !m.contains_key(addr) {
        Err(ErrorCode::NotFound)
    } else if m[addr].tag != TAG_LIKE {
        Err(ErrorCode::TypeMismatch)
    } else {
        match spec_decode_like(m[addr].data) {
            Some(v) => Ok(v),
            None => Err(ErrorCode::LayoutError),
        }
    }
}

/// Loads and decodes the comment record at `addr`.
pub open spec fn spec_load_comment(m: Map<Seq<u8>, EntryV>, addr: Seq<u8>) -> Result<
    CommentV,
    ErrorCode,
> {
    if !m.contains_key(addr) {
        Err(ErrorCode::NotFound)
    } else if m[addr].tag != TAG_COMMENT {
        Err(ErrorCode::TypeMismatch)
    } else {
        match spec_decode_comment(m[addr].data) {
            Some(v) => Ok(v),
            None => Err(ErrorCode::LayoutError),
        }
    }
}

/// Loads and decodes the follow record at `addr`.
pub open spec fn spec_load_follow(m: Map<Seq<u8>, EntryV>, addr: Seq<u8>) -> Result<
    FollowV,
    ErrorCode,
> {
    if !m.contains_key(addr) {
        Err(ErrorCode::NotFound)
    } else if m[addr].tag != TAG_FOLLOW {
        Err(ErrorCode::TypeMismatch)
    } else {
        match spec_decode_follow(m[addr].data) {
            Some(v) => Ok(v),
            None => Err(ErrorCode::LayoutError),
        }
    }
}

/// Reads the user record at `user_address`, exactly as [`spec_load_user`].
pub fn load_user(ledger: &Ledger, user_address: &[u8; 32]) -> (r: Result<User, ErrorCode>)
    requires
        ledger.wf(),
    ensures
        match r {
            Ok(v) => spec_load_user(ledger@, user_address@) == Ok::<UserV, ErrorCode>(v@),
            Err(e) => spec_load_user(ledger@, user_address@) == Err::<UserV, ErrorCode>(e),
        },
{
    match ledger.load(user_address, TAG_USER) {
        Err(e) => Err(e),
        Ok(d) => decode_user(d.as_slice()),
    }
}

/// Reads the vibe record at `vibe_address`, exactly as [`spec_load_vibe`].
pub fn load_vibe(ledger: &Ledger, vibe_address: &[u8; 32]) -> (r: Result<Vibe, ErrorCode>)
    requires
        ledger.wf(),
    ensures
        match r {
            Ok(v) => spec_load_vibe(ledger@, vibe_address@) == Ok::<VibeV, ErrorCode>(v@),
            Err(e) => spec_load_vibe(ledger@, vibe_address@) == Err::<VibeV, ErrorCode>(e),
        },
{
    match ledger.load(vibe_address, TAG_VIBE) {
        Err(e) => Err(e),
        Ok(d) => decode_vibe(d.as_slice()),
    }
}

/// Reads the like record at `like_address`, exactly as [`spec_load_like`].
pub fn load_like(ledger: &Ledger, like_address: &[u8; 32]) -> (r: Result<Like, ErrorCode>)
    requires
        ledger.wf(),
    ensures
        match r {
            Ok(v) => spec_load_like(ledger@, like_address@) == Ok::<LikeV, ErrorCode>(v@),
            Err(e) => spec_load_like(ledger@, like_address@) == Err::<LikeV, ErrorCode>(e),
        },
{
    match ledger.load(like_address, TAG_LIKE) {
        Err(e) => Err(e),
        Ok(d) => decode_like(d.as_slice()),
    }
}

/// Reads the comment record at `comment_address`, exactly as
/// [`spec_load_comment`].
pub fn load_comment(ledger: &Ledger, comment_address: &[u8; 32]) -> (r: Result<Comment, ErrorCode>)
    requires
        ledger.wf(),
    ensures
        match r {
            Ok(v) => spec_load_comment(ledger@, comment_address@) == Ok::<CommentV, ErrorCode>(v@),
            Err(e) => spec_load_comment(ledger@, comment_address@) == Err::<CommentV, ErrorCode>(e),
        },
{
    match ledger.load(comment_address, TAG_COMMENT) {
        Err(e) => Err(e),
        Ok(d) => decode_comment(d.as_slice()),
    }
}

/// Reads the follow record at `follow_address`, exactly as
/// [`spec_load_follow`].
pub fn load_follow(ledger: &Ledger, follow_address: &[u8; 32]) -> (r: Result<Follow, ErrorCode>)
    requires
        ledger.wf(),
    ensures
        match r {
            Ok(v) => spec_load_follow(ledger@, follow_address@) == Ok::<FollowV, ErrorCode>(v@),
            Err(e) => spec_load_follow(ledger@, follow_address@) == Err::<FollowV, ErrorCode>(e),
        },
{
    match ledger.load(follow_address, TAG_FOLLOW) {
        Err(e) => Err(e),
        Ok(d) => decode_follow(d.as_slice()),
    }
}

/// Transition of [`create_user`]: validate both texts, derive the user's
/// address from the owner identity, refuse an occupied address, then store
/// the profile with its follower counter at zero and the found
/// disambiguator persisted inside the record.
pub open spec fn spec_create_user(
    m: Map<Seq<u8>, EntryV>,
    author: Seq<u8>,
    name: Seq<char>,
    username: Seq<char>,
) -> (Map<Seq<u8>, EntryV>, Result<(), ErrorCode>) {
    if name.len() > MAX_NAME_CHARS {
        (m, Err(ErrorCode::NameTooLong))
    } else if username.len() > MAX_NAME_CHARS {
        (m, Err(ErrorCode::HandleTooLong))
    } else {
        match pda_probe(spec_user_seeds(author), PROGRAM_ID@) {
            None => (m, Err(ErrorCode::AddressMismatch)),
            Some((user_address, bump)) => {
                if m.contains_key(user_address) {
                    (m, Err(ErrorCode::AlreadyExists))
                } else {
                    let u = UserV { user_key: author, bump, followers: 0, name, username };
                    (
                        m.insert(
                            user_address,
                            EntryV {
                                tag: TAG_USER,
                                capacity: USER_LEN,
                                payer: author,
                                data: spec_encode_user(u),
                            },
                        ),
                        Ok(()),
                    )
                }
            },
        }
    }
}

/// Creates the profile of `author` at its derived address.
///
/// Fails `NameTooLong` or `HandleTooLong` over twenty characters each, and
/// `AlreadyExists` when the author already has a profile.
pub fn create_user(ledger: &mut Ledger, author: &[u8; 32], name: &str, username: &str) -> (r:
    Result<(), ErrorCode>)
    requires
        old(ledger).wf(),
    ensures
        final(ledger).wf(),
        (final(ledger)@, r) == spec_create_user(old(ledger)@, author@, name@, username@),
{
    if name.unicode_len() > MAX_NAME_CHARS {
        return Err(ErrorCode::NameTooLong);
    }
    if username.unicode_len() > MAX_NAME_CHARS {
        return Err(ErrorCode::HandleTooLong);
    }
    let seeds = user_seeds(author);
    let (user_address, bump) = match probe_address(&seeds, &PROGRAM_ID) {
        Some(p) => p,
        None => {
            return Err(ErrorCode::AddressMismatch);
        },
    };
    if ledger.contains(&user_address) {
        return Err(ErrorCode::AlreadyExists);
    }
    let user = User {
        user_key: *author,
        bump,
        followers: 0,
        name: name.to_owned(),
        username: username.to_owned(),
    };
    proof {
        lemma_user_wf_byte_wf(user@);
    }
    let data = encode_user(&user);
    let _ = ledger.create(&user_address, TAG_USER, USER_LEN, author);
    let _ = ledger.store(&user_address, data);
    proof {
        let (m2, r2) = spec_create_user(old(ledger)@, author@, name@, username@);
        assert(ledger@ =~= m2);
    }
    Ok(())
}

/// Transition of [`update_name`]: re-derive the caller's user address,
/// fail closed when the stored disambiguator no longer reproduces it,
/// require the caller to be the stored owner, then replace the name field
/// only.
pub open spec fn spec_update_name(
    m: Map<Seq<u8>, EntryV>,
    caller: Seq<u8>,
    newname: Seq<char>,
) -> (Map<Seq<u8>, EntryV>, Result<(), ErrorCode>) {
    if newname.len() > MAX_NAME_CHARS {
        (m, Err(ErrorCode::NameTooLong))
    } else {
        match pda_probe(spec_user_seeds(caller), PROGRAM_ID@) {
            None => (m, Err(ErrorCode::AddressMismatch)),
            Some((user_address, _probe_bump)) => match spec_load_user(m, user_address) {
                Err(e) => (m, Err(e)),
                Ok(u) => {
                    if pda_with_bump(spec_user_seeds(caller), u.bump, PROGRAM_ID@) != Some(
                        user_address,
                    ) {
                        (m, Err(ErrorCode::AddressMismatch))
                    } else if u.user_key != caller {
                        (m, Err(ErrorCode::Unauthorized))
                    } else {
                        let u2 = UserV { name: newname, ..u };
                        let enc = spec_encode_user(u2);
                        if enc.len() > m[user_address].capacity {
                            (m, Err(ErrorCode::CapacityExceeded))
                        } else {
                            (
                                m.insert(
                                    user_address,
                                    EntryV {
                                        tag: m[user_address].tag,
                                        capacity: m[user_address].capacity,
                                        payer: m[user_address].payer,
                                        data: enc,
                                    },
                                ),
                                Ok(()),
                            )
                        }
                    }
                },
            },
        }
    }
}

/// Replaces the profile name of `caller`, leaving every other field as it
/// was.
///
/// Fails `NameTooLong` over twenty characters, `AddressMismatch` when the
/// stored disambiguator does not reproduce the derived address, and
/// `Unauthorized` unless `caller` equals the stored owner.
pub fn update_name(ledger: &mut Ledger, caller: &[u8; 32], newname: &str) -> (r: Result<
    (),
    ErrorCode,
>)
    requires
        old(ledger).wf(),
    ensures
        final(ledger).wf(),
        (final(ledger)@, r) == spec_update_name(old(ledger)@, caller@, newname@),
{
    if newname.unicode_len() > MAX_NAME_CHARS {
        return Err(ErrorCode::NameTooLong);
    }
    let seeds = user_seeds(caller);
    let (user_address, _probe_bump) = match probe_address(&seeds, &PROGRAM_ID) {
        Some(p) => p,
        None => {
            return Err(ErrorCode::AddressMismatch);
        },
    };
    let user = match load_user(ledger, &user_address) {
        Ok(u) => u,
        Err(e) => {
            return Err(e);
        },
    };
    let rederived = derive_with_bump(&seeds, user.bump, &PROGRAM_ID);
    let rederives = match &rederived {
        Some(a) => key_eq(a, &user_address),
        None => false,
    };
    if !rederives {
        return Err(ErrorCode::AddressMismatch);
    }
    match authorize(&user.user_key, caller) {
        Ok(()) => (),
        Err(e) => {
            return Err(e);
        },
    }
    proof {
        lemma_user_encode_of_decode(old(ledger)@[user_address@].data, user@);
        lemma_encode_utf8_len(newname@);
    }
    let user2 = User { name: newname.to_owned(), ..user };
    let enc = encode_user(&user2);
    match ledger.store(&user_address, enc) {
        Ok(()) => (),
        Err(e) => {
            return Err(e);
        },
    }
    proof {
        let (m2, r2) = spec_update_name(old(ledger)@, caller@, newname@);
        assert(ledger@ =~= m2);
    }
    Ok(())
}

/// Transition of [`create_vibe`]: validate the topic and the body, refuse
/// an occupied address, then stamp the author and timestamp and store the
/// new vibe with both counters at zero.
pub open spec fn spec_create_vibe(
    m: Map<Seq<u8>, EntryV>,
    author: Seq<u8>,
    vibe_address: Seq<u8>,
    now: i64,
    topic: Seq<char>,
    content: Seq<char>,
) -> (Map<Seq<u8>, EntryV>, Result<(), ErrorCode>) {
    if topic.len() > MAX_TOPIC_CHARS {
        (m, Err(ErrorCode::TopicTooLong))
    } else if content.len() > MAX_CONTENT_CHARS {
        (m, Err(ErrorCode::ContentTooLong))
    } else if m.contains_key(vibe_address) {
        (m, Err(ErrorCode::AlreadyExists))
    } else {
        let v = VibeV { author, timestamp: now, topic, content, likes: 0, comments: 0 };
        (
            m.insert(
                vibe_address,
                EntryV {
                    tag: TAG_VIBE,
                    capacity: VIBE_LEN,
                    payer: author,
                    data: spec_encode_vibe(v),
                },
            ),
            Ok(()),
        )
    }
}

/// Creates a post at the caller-chosen free address `vibe_address`.
///
/// Fails `TopicTooLong` over fifty characters, `ContentTooLong` over three
/// hundred, `AlreadyExists` on an occupied address; otherwise stores the
/// record stamped with `author` and the external time `now`, its like and
/// comment counters at zero.
pub fn create_vibe(
    ledger: &mut Ledger,
    author: &[u8; 32],
    vibe_address: &[u8; 32],
    now: i64,
    topic: &str,
    content: &str,
) -> (r: Result<(), ErrorCode>)
    requires
        old(ledger).wf(),
    ensures
        final(ledger).wf(),
        (final(ledger)@, r) == spec_create_vibe(
            old(ledger)@,
            author@,
            vibe_address@,
            now,
            topic@,
            content@,
        ),
{
    if topic.unicode_len() > MAX_TOPIC_CHARS {
        return Err(ErrorCode::TopicTooLong);
    }
    if content.unicode_len() > MAX_CONTENT_CHARS {
        return Err(ErrorCode::ContentTooLong);
    }
    if ledger.contains(vibe_address) {
        return Err(ErrorCode::AlreadyExists);
    }
    let vibe = Vibe {
        author: *author,
        timestamp: now,
        topic: topic.to_owned(),
        content: content.to_owned(),
        likes: 0,
        comments: 0,
    };
    proof {
        lemma_vibe_wf_byte_wf(vibe@);
    }
    let data = encode_vibe(&vibe);
    let _ = ledger.create(vibe_address, TAG_VIBE, VIBE_LEN, author);
    let _ = ledger.store(vibe_address, data);
    proof {
        let (m2, r2) = spec_create_vibe(
            old(ledger)@,
            author@,
            vibe_address@,
            now,
            topic@,
            content@,
        );
        assert(ledger@ =~= m2);
    }
    Ok(())
}

/// Transition of [`update_likes`]: derive the like's address from the
/// liker and the post, refuse it when occupied — the occupied address is
/// itself the duplicate-like proof — then store the like and increment the
/// post's like counter by exactly one, as one logical step.
pub open spec fn spec_update_likes(
    m: Map<Seq<u8>, EntryV>,
    liker: Seq<u8>,
    vibe_address: Seq<u8>,
) -> (Map<Seq<u8>, EntryV>, Result<(), ErrorCode>) {
    match pda_probe(spec_like_seeds(liker, vibe_address), PROGRAM_ID@) {
        None => (m, Err(ErrorCode::AddressMismatch)),
        Some((like_address, bump)) => {
            if m.contains_key(like_address) {
                (m, Err(ErrorCode::AlreadyLiked))
            } else {
                match spec_load_vibe(m, vibe_address) {
                    Err(e) => (m, Err(e)),
                    Ok(v) => {
                        if v.likes == u32::MAX {
                            (m, Err(ErrorCode::CounterOverflow))
                        } else {
                            let v2 = VibeV { likes: (v.likes + 1) as u32, ..v };
                            let enc = spec_encode_vibe(v2);
                            if enc.len() > m[vibe_address].capacity {
                                (m, Err(ErrorCode::CapacityExceeded))
                            } else {
                                (
                                    m.insert(
                                        vibe_address,
                                        EntryV {
                                            tag: m[vibe_address].tag,
                                            capacity: m[vibe_address].capacity,
                                            payer: m[vibe_address].payer,
                                            data: enc,
                                        },
                                    ).insert(
                                        like_address,
                                        EntryV {
                                            tag: TAG_LIKE,
                                            capacity: LIKE_LEN,
                                            payer: liker,
                                            data: spec_encode_like(LikeV { bump }),
                                        },
                                    ),
                                    Ok(()),
                                )
                            }
                        }
                    },
                }
            }
        },
    }
}

/// Adds a like by `liker` on the post at `vibe_address`.
///
/// Fails `AlreadyLiked` when the derived like address is already occupied;
/// otherwise creates the like record and increments the post's like
/// counter by exactly one.
pub fn update_likes(ledger: &mut Ledger, liker: &[u8; 32], vibe_address: &[u8; 32]) -> (r: Result<
    (),
    ErrorCode,
>)
    requires
        old(ledger).wf(),
    ensures
        final(ledger).wf(),
        (final(ledger)@, r) == spec_update_likes(old(ledger)@, liker@, vibe_address@),
{
    let seeds = like_seeds(liker, vibe_address);
    let (like_address, bump) = match probe_address(&seeds, &PROGRAM_ID) {
        Some(p) => p,
        None => {
            return Err(ErrorCode::AddressMismatch);
        },
    };
    if ledger.contains(&like_address) {
        return Err(ErrorCode::AlreadyLiked);
    }
    let vibe = match load_vibe(ledger, vibe_address) {
        Ok(v) => v,
        Err(e) => {
            return Err(e);
        },
    };
    if vibe.likes == u32::MAX {
        return Err(ErrorCode::CounterOverflow);
    }
    proof {
        lemma_vibe_encode_of_decode(old(ledger)@[vibe_address@].data, vibe@);
    }
    let vibe2 = Vibe { likes: vibe.likes + 1, ..vibe };
    let enc = encode_vibe(&vibe2);
    match ledger.store(vibe_address, enc) {
        Ok(()) => (),
        Err(e) => {
            return Err(e);
        },
    }
    let _ = ledger.create(&like_address, TAG_LIKE, LIKE_LEN, liker);
    let like_data = encode_like(&Like { bump });
    let _ = ledger.store(&like_address, like_data);
    proof {
        let (m2, r2) = spec_update_likes(old(ledger)@, liker@, vibe_address@);
        assert(ledger@ =~= m2);
    }
    Ok(())
}

/// Transition of [`remove_like`]: re-derive the like's address, fail
/// closed when the stored disambiguator no longer reproduces it, require
/// the caller to be the identity that paid for the like, then destroy the
/// like and decrement the post's like counter by exactly one.  A counter
/// already at zero is a state corruption and fails fatally, never wraps.
pub open spec fn spec_remove_like(
    m: Map<Seq<u8>, EntryV>,
    liker: Seq<u8>,
    vibe_address: Seq<u8>,
) -> (Map<Seq<u8>, EntryV>, Result<(), ErrorCode>) {
    match pda_probe(spec_like_seeds(liker, vibe_address), PROGRAM_ID@) {
        None => (m, Err(ErrorCode::AddressMismatch)),
        Some((like_address, _probe_bump)) => match spec_load_like(m, like_address) {
            Err(e) => (m, Err(e)),
            Ok(lk) => {
                if pda_with_bump(spec_like_seeds(liker, vibe_address), lk.bump, PROGRAM_ID@)
                    != Some(like_address) {
                    (m, Err(ErrorCode::AddressMismatch))
                } else if m[like_address].payer != liker {
                    (m, Err(ErrorCode::Unauthorized))
                } else {
                    match spec_load_vibe(m, vibe_address) {
                        Err(e) => (m, Err(e)),
                        Ok(v) => {
                            if v.likes == 0 {
                                (m, Err(ErrorCode::CounterUnderflow))
                            } else {
                                let v2 = VibeV { likes: (v.likes - 1) as u32, ..v };
                                let enc = spec_encode_vibe(v2);
                                if enc.len() > m[vibe_address].capacity {
                                    (m, Err(ErrorCode::CapacityExceeded))
                                } else {
                                    (
                                        m.insert(
                                            vibe_address,
                                            EntryV {
                                                tag: m[vibe_address].tag,
                                                capacity: m[vibe_address].capacity,
                                                payer: m[vibe_address].payer,
                                                data: enc,
                                            },
                                        ).remove(like_address),
                                        Ok(()),
                                    )
                                }
                            }
                        },
                    }
                }
            },
        },
    }
}

/// Removes the like by `liker` on the post at `vibe_address`.
///
/// Fails `AddressMismatch` when the stored disambiguator does not
/// reproduce the derived address, `Unauthorized` unless `liker` paid for
/// the like, and `CounterUnderflow` — fatally, with no mutation — when the
/// post's like counter is already zero.  On success the like's address
/// becomes free again and the counter drops by exactly one.
pub fn remove_like(ledger: &mut Ledger, liker: &[u8; 32], vibe_address: &[u8; 32]) -> (r: Result<
    (),
    ErrorCode,
>)
    requires
        old(ledger).wf(),
    ensures
        final(ledger).wf(),
        (final(ledger)@, r) == spec_remove_like(old(ledger)@, liker@, vibe_address@),
{
    let seeds = like_seeds(liker, vibe_address);
    let (like_address, _probe_bump) = match probe_address(&seeds, &PROGRAM_ID) {
        Some(p) => p,
        None => {
            return Err(ErrorCode::AddressMismatch);
        },
    };
    let like = match load_like(ledger, &like_address) {
        Ok(l) => l,
        Err(e) => {
            return Err(e);
        },
    };
    let rederived = derive_with_bump(&seeds, like.bump, &PROGRAM_ID);
    let rederives = match &rederived {
        Some(a) => key_eq(a, &like_address),
        None => false,
    };
    if !rederives {
        return Err(ErrorCode::AddressMismatch);
    }
    let payer = match ledger.payer_of(&like_address) {
        Some(p) => p,
        None => {
            return Err(ErrorCode::NotFound);
        },
    };
    match authorize(&payer, liker) {
        Ok(()) => (),
        Err(e) => {
            return Err(e);
        },
    }
    let vibe = match load_vibe(ledger, vibe_address) {
        Ok(v) => v,
        Err(e) => {
            return Err(e);
        },
    };
    if vibe.likes == 0 {
        return Err(ErrorCode::CounterUnderflow);
    }
    proof {
        lemma_vibe_encode_of_decode(old(ledger)@[vibe_address@].data, vibe@);
        assert(like_address@ != vibe_address@);
    }
    let vibe2 = Vibe { likes: vibe.likes - 1, ..vibe };
    let enc = encode_vibe(&vibe2);
    match ledger.store(vibe_address, enc) {
        Ok(()) => (),
        Err(e) => {
            return Err(e);
        },
    }
    let _ = ledger.close(&like_address);
    proof {
        let (m2, r2) = spec_remove_like(old(ledger)@, liker@, vibe_address@);
        assert(ledger@ =~= m2);
    }
    Ok(())
}

/// Transition of [`delete_vibe`]: load the post, require the caller to be
/// its stored author, then destroy the record and reclaim its storage.
pub open spec fn spec_delete_vibe(
    m: Map<Seq<u8>, EntryV>,
    caller: Seq<u8>,
    vibe_address: Seq<u8>,
) -> (Map<Seq<u8>, EntryV>, Result<(), ErrorCode>) {
    match spec_load_vibe(m, vibe_address) {
        Err(e) => (m, Err(e)),
        Ok(v) => if v.author != caller {
            (m, Err(ErrorCode::Unauthorized))
        } else {
            (m.remove(vibe_address), Ok(()))
        },
    }
}

/// Deletes the post at `vibe_address`.
///
/// Fails `Unauthorized` unless `caller` equals the stored author; on
/// success the record is destroyed and its address becomes free again.
pub fn delete_vibe(ledger: &mut Ledger, caller: &[u8; 32], vibe_address: &[u8; 32]) -> (r: Result<
    (),
    ErrorCode,
>)
    requires
        old(ledger).wf(),
    ensures
        final(ledger).wf(),
        (final(ledger)@, r) == spec_delete_vibe(old(ledger)@, caller@, vibe_address@),
{
    let vibe = match load_vibe(ledger, vibe_address) {
        Ok(v) => v,
        Err(e) => {
            return Err(e);
        },
    };
    match authorize(&vibe.author, caller) {
        Ok(()) => (),
        Err(e) => {
            return Err(e);
        },
    }
    let _ = ledger.close(vibe_address);
    Ok(())
}

/// Transition of [`add_comment`]: validate the text, derive the comment's
/// address from the commentor and the post — so one commentor holds at
/// most one live comment per post, a deliberate consequence of the
/// derivation scheme — refuse it when occupied, then store the comment and
/// increment the post's comment counter by exactly one.
pub open spec fn spec_add_comment(
    m: Map<Seq<u8>, EntryV>,
    commentor: Seq<u8>,
    vibe_address: Seq<u8>,
    text: Seq<char>,
) -> (Map<Seq<u8>, EntryV>, Result<(), ErrorCode>) {
    if text.len() > MAX_COMMENT_CHARS {
        (m, Err(ErrorCode::CommentTooLong))
    } else {
        match pda_probe(spec_comment_seeds(commentor, vibe_address), PROGRAM_ID@) {
            None => (m, Err(ErrorCode::AddressMismatch)),
            Some((comment_address, bump)) => {
                if m.contains_key(comment_address) {
                    (m, Err(ErrorCode::AlreadyExists))
                } else {
                    match spec_load_vibe(m, vibe_address) {
                        Err(e) => (m, Err(e)),
                        Ok(v) => {
                            if v.comments == u32::MAX {
                                (m, Err(ErrorCode::CounterOverflow))
                            } else {
                                let v2 = VibeV { comments: (v.comments + 1) as u32, ..v };
                                let enc = spec_encode_vibe(v2);
                                let c = CommentV {
                                    vibe: vibe_address,
                                    commentor,
                                    comment: text,
                                    bump,
                                };
                                if enc.len() > m[vibe_address].capacity {
                                    (m, Err(ErrorCode::CapacityExceeded))
                                } else {
                                    (
                                        m.insert(
                                            vibe_address,
                                            EntryV {
                                                tag: m[vibe_address].tag,
                                                capacity: m[vibe_address].capacity,
                                                payer: m[vibe_address].payer,
                                                data: enc,
                                            },
                                        ).insert(
                                            comment_address,
                                            EntryV {
                                                tag: TAG_COMMENT,
                                                capacity: COMMENT_LEN,
                                                payer: commentor,
                                                data: spec_encode_comment(c),
                                            },
                                        ),
                                        Ok(()),
                                    )
                                }
                            }
                        },
                    }
                }
            },
        }
    }
}

/// Adds a comment by `commentor` under the post at `vibe_address`.
///
/// Fails `CommentTooLong` over one hundred and fifty characters, and
/// `AlreadyExists` when this commentor already holds a live comment on
/// this post; otherwise stores the comment and increments the post's
/// comment counter by exactly one.
pub fn add_comment(
    ledger: &mut Ledger,
    commentor: &[u8; 32],
    vibe_address: &[u8; 32],
    comment: &str,
) -> (r: Result<(), ErrorCode>)
    requires
        old(ledger).wf(),
    ensures
        final(ledger).wf(),
        (final(ledger)@, r) == spec_add_comment(old(ledger)@, commentor@, vibe_address@, comment@),
{
    if comment.unicode_len() > MAX_COMMENT_CHARS {
        return Err(ErrorCode::CommentTooLong);
    }
    let seeds = comment_seeds(commentor, vibe_address);
    let (comment_address, bump) = match probe_address(&seeds, &PROGRAM_ID) {
        Some(p) => p,
        None => {
            return Err(ErrorCode::AddressMismatch);
        },
    };
    if ledger.contains(&comment_address) {
        return Err(ErrorCode::AlreadyExists);
    }
    let vibe = match load_vibe(ledger, vibe_address) {
        Ok(v) => v,
        Err(e) => {
            return Err(e);
        },
    };
    if vibe.comments == u32::MAX {
        return Err(ErrorCode::CounterOverflow);
    }
    proof {
        lemma_vibe_encode_of_decode(old(ledger)@[vibe_address@].data, vibe@);
    }
    let vibe2 = Vibe { comments: vibe.comments + 1, ..vibe };
    let enc = encode_vibe(&vibe2);
    let record = Comment {
        vibe: *vibe_address,
        commentor: *commentor,
        comment: comment.to_owned(),
        bump,
    };
    proof {
        lemma_comment_wf_byte_wf(record@);
    }
    match ledger.store(vibe_address, enc) {
        Ok(()) => (),
        Err(e) => {
            return Err(e);
        },
    }
    let _ = ledger.create(&comment_address, TAG_COMMENT, COMMENT_LEN, commentor);
    let comment_data = encode_comment(&record);
    let _ = ledger.store(&comment_address, comment_data);
    proof {
        let (m2, r2) = spec_add_comment(old(ledger)@, commentor@, vibe_address@, comment@);
        assert(ledger@ =~= m2);
    }
    Ok(())
}

/// Transition of [`remove_comment`]: re-derive the comment's address, fail
/// closed when the stored disambiguator no longer reproduces it, require
/// the caller to be the stored commentor, then destroy the comment and
/// decrement the post's comment counter by exactly one.  A counter already
/// at zero is a state corruption and fails fatally, never wraps.
pub open spec fn spec_remove_comment(
    m: Map<Seq<u8>, EntryV>,
    commentor: Seq<u8>,
    vibe_address: Seq<u8>,
) -> (Map<Seq<u8>, EntryV>, Result<(), ErrorCode>) {
    match pda_probe(spec_comment_seeds(commentor, vibe_address), PROGRAM_ID@) {
        None => (m, Err(ErrorCode::AddressMismatch)),
        Some((comment_address, _probe_bump)) => match spec_load_comment(m, comment_address) {
            Err(e) => (m, Err(e)),
            Ok(c) => {
                if pda_with_bump(spec_comment_seeds(commentor, vibe_address), c.bump, PROGRAM_ID@)
                    != Some(comment_address) {
                    (m, Err(ErrorCode::AddressMismatch))
                } else if c.commentor != commentor {
                    (m, Err(ErrorCode::Unauthorized))
                } else {
                    match spec_load_vibe(m, vibe_address) {
                        Err(e) => (m, Err(e)),
                        Ok(v) => {
                            if v.comments == 0 {
                                (m, Err(ErrorCode::CounterUnderflow))
                            } else {
                                let v2 = VibeV { comments: (v.comments - 1) as u32, ..v };
                                let enc = spec_encode_vibe(v2);
                                if enc.len() > m[vibe_address].capacity {
                                    (m, Err(ErrorCode::CapacityExceeded))
                                } else {
                                    (
                                        m.insert(
                                            vibe_address,
                                            EntryV {
                                                tag: m[vibe_address].tag,
                                                capacity: m[vibe_address].capacity,
                                                payer: m[vibe_address].payer,
                                                data: enc,
                                            },
                                        ).remove(comment_address),
                                        Ok(()),
                                    )
                                }
                            }
                        },
                    }
                }
            },
        },
    }
}

/// Removes the comment by `commentor` under the post at `vibe_address`.
///
/// Fails `AddressMismatch` when the stored disambiguator does not
/// reproduce the derived address, `Unauthorized` unless `commentor` is the
/// stored commentor, and `CounterUnderflow` — fatally, with no mutation —
/// when the post's comment counter is already zero.
pub fn remove_comment(ledger: &mut Ledger, commentor: &[u8; 32], vibe_address: &[u8; 32]) -> (r:
    Result<(), ErrorCode>)
    requires
        old(ledger).wf(),
    ensures
        final(ledger).wf(),
        (final(ledger)@, r) == spec_remove_comment(old(ledger)@, commentor@, vibe_address@),
{
    let seeds = comment_seeds(commentor, vibe_address);
    let (comment_address, _probe_bump) = match probe_address(&seeds, &PROGRAM_ID) {
        Some(p) => p,
        None => {
            return Err(ErrorCode::AddressMismatch);
        },
    };
    let record = match load_comment(ledger, &comment_address) {
        Ok(c) => c,
        Err(e) => {
            return Err(e);
        },
    };
    let rederived = derive_with_bump(&seeds, record.bump, &PROGRAM_ID);
    let rederives = match &rederived {
        Some(a) => key_eq(a, &comment_address),
        None => false,
    };
    if !rederives {
        return Err(ErrorCode::AddressMismatch);
    }
    match authorize(&record.commentor, commentor) {
        Ok(()) => (),
        Err(e) => {
            return Err(e);
        },
    }
    let vibe = match load_vibe(ledger, vibe_address) {
        Ok(v) => v,
        Err(e) => {
            return Err(e);
        },
    };
    if vibe.comments == 0 {
        return Err(ErrorCode::CounterUnderflow);
    }
    proof {
        lemma_vibe_encode_of_decode(old(ledger)@[vibe_address@].data, vibe@);
        assert(comment_address@ != vibe_address@);
    }
    let vibe2 = Vibe { comments: vibe.comments - 1, ..vibe };
    let enc = encode_vibe(&vibe2);
    match ledger.store(vibe_address, enc) {
        Ok(()) => (),
        Err(e) => {
            return Err(e);
        },
    }
    let _ = ledger.close(&comment_address);
    proof {
        let (m2, r2) = spec_remove_comment(old(ledger)@, commentor@, vibe_address@);
        assert(ledger@ =~= m2);
    }
    Ok(())
}

/// Transition of [`follow_one`]: derive the follow's address from the
/// ordered pair, refuse it when occupied — at most one follow record per
/// ordered pair — then store the follow record.  The follower counter of
/// the followed identity's user record is not maintained by this
/// transition.
pub open spec fn spec_follow_one(
    m: Map<Seq<u8>, EntryV>,
    follower: Seq<u8>,
    followed: Seq<u8>,
) -> (Map<Seq<u8>, EntryV>, Result<(), ErrorCode>) {
    match pda_probe(spec_follow_seeds(followed, follower), PROGRAM_ID@) {
        None => (m, Err(ErrorCode::AddressMismatch)),
        Some((follow_address, bump)) => {
            if m.contains_key(follow_address) {
                (m, Err(ErrorCode::AlreadyFollowing))
            } else {
                let f = FollowV { followed, follower, bump };
                (
                    m.insert(
                        follow_address,
                        EntryV {
                            tag: TAG_FOLLOW,
                            capacity: FOLLOW_LEN,
                            payer: follower,
                            data: spec_encode_follow(f),
                        },
                    ),
                    Ok(()),
                )
            }
        },
    }
}

/// Records that `follower` follows `followed`.
///
/// Fails `AlreadyFollowing` when the derived address for this ordered pair
/// is already occupied.
pub fn follow_one(ledger: &mut Ledger, follower: &[u8; 32], followed: &[u8; 32]) -> (r: Result<
    (),
    ErrorCode,
>)
    requires
        old(ledger).wf(),
    ensures
        final(ledger).wf(),
        (final(ledger)@, r) == spec_follow_one(old(ledger)@, follower@, followed@),
{
    let seeds = follow_seeds(followed, follower);
    let (follow_address, bump) = match probe_address(&seeds, &PROGRAM_ID) {
        Some(p) => p,
        None => {
            return Err(ErrorCode::AddressMismatch);
        },
    };
    if ledger.contains(&follow_address) {
        return Err(ErrorCode::AlreadyFollowing);
    }
    let record = Follow { followed: *followed, follower: *follower, bump };
    let data = encode_follow(&record);
    let _ = ledger.create(&follow_address, TAG_FOLLOW, FOLLOW_LEN, follower);
    let _ = ledger.store(&follow_address, data);
    proof {
        let (m2, r2) = spec_follow_one(old(ledger)@, follower@, followed@);
        assert(ledger@ =~= m2);
    }
    Ok(())
}

/// Transition of [`unfollow`]: re-derive the follow's address, fail closed
/// when the stored disambiguator no longer reproduces it, require the
/// caller to be the stored follower, then destroy the record, freeing the
/// pair's address for a later follow.
pub open spec fn spec_unfollow(
    m: Map<Seq<u8>, EntryV>,
    follower: Seq<u8>,
    followed: Seq<u8>,
) -> (Map<Seq<u8>, EntryV>, Result<(), ErrorCode>) {
    match pda_probe(spec_follow_seeds(followed, follower), PROGRAM_ID@) {
        None => (m, Err(ErrorCode::AddressMismatch)),
        Some((follow_address, _probe_bump)) => match spec_load_follow(m, follow_address) {
            Err(e) => (m, Err(e)),
            Ok(f) => {
                if pda_with_bump(spec_follow_seeds(followed, follower), f.bump, PROGRAM_ID@)
                    != Some(follow_address) {
                    (m, Err(ErrorCode::AddressMismatch))
                } else if f.follower != follower {
                    (m, Err(ErrorCode::Unauthorized))
                } else {
                    (m.remove(follow_address), Ok(()))
                }
            },
        },
    }
}

/// Removes the follow of `followed` by `follower`.
///
/// Fails `AddressMismatch` when the stored disambiguator does not
/// reproduce the derived address, and `Unauthorized` unless the caller is
/// the stored follower.
pub fn unfollow(ledger: &mut Ledger, follower: &[u8; 32], followed: &[u8; 32]) -> (r: Result<
    (),
    ErrorCode,
>)
    requires
        old(ledger).wf(),
    ensures
        final(ledger).wf(),
        (final(ledger)@, r) == spec_unfollow(old(ledger)@, follower@, followed@),
{
    let seeds = follow_seeds(followed, follower);
    let (follow_address, _probe_bump) = match probe_address(&seeds, &PROGRAM_ID) {
        Some(p) => p,
        None => {
            return Err(ErrorCode::AddressMismatch);
        },
    };
    let record = match load_follow(ledger, &follow_address) {
        Ok(f) => f,
        Err(e) => {
            return Err(e);
        },
    };
    let rederived = derive_with_bump(&seeds, record.bump, &PROGRAM_ID);
    let rederives = match &rederived {
        Some(a) => key_eq(a, &follow_address),
        None => false,
    };
    if !rederives {
        return Err(ErrorCode::AddressMismatch);
    }
    match authorize(&record.follower, follower) {
        Ok(()) => (),
        Err(e) => {
            return Err(e);
        },
    }
    let _ = ledger.close(&follow_address);
    Ok(())
}

} // verus!
