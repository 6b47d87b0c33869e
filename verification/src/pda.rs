//! Deterministic address derivation.
//!
//! Each record kind other than the vibe lives at an address derived from a
//! constant kind prefix and the identities that pin the record down: the
//! store refusing to initialize an occupied address is then by itself the
//! uniqueness proof for likes, comments and follows.  The derivation probes
//! for a small disambiguator ("bump") so that the address lands outside the
//! space of directly funded accounts; the bump is persisted inside the
//! record, and later operations re-derive the address from it and fail
//! closed when it no longer reproduces the expected address.

use vstd::prelude::*;
use vstd::slice::slice_to_vec;

verus! {

/// The identity of this record set's owning program; every derivation is
/// relative to it.
pub const PROGRAM_ID: [u8; 32] = [
    35, 64, 216, 221, 98, 55, 19, 135, 221, 240, 56, 125, 101, 79, 236, 210, 104, 173, 193, 12,
    139, 231, 198, 223, 203, 36, 205, 172, 162, 219, 134, 149,
];

/// Kind prefix of a user record's seeds: the bytes of "vibe_user".
pub const USER_SEED: [u8; 9] = [118, 105, 98, 101, 95, 117, 115, 101, 114];

/// Kind prefix of a like record's seeds: the bytes of "vibe_like".
pub const LIKE_SEED: [u8; 9] = [118, 105, 98, 101, 95, 108, 105, 107, 101];

/// Kind prefix of a comment record's seeds: the bytes of "vibe_comment".
pub const COMMENT_SEED: [u8; 12] = [118, 105, 98, 101, 95, 99, 111, 109, 109, 101, 110, 116];

/// Kind prefix of a follow record's seeds: the bytes of "follow_one".
pub const FOLLOW_SEED: [u8; 10] = [102, 111, 108, 108, 111, 119, 95, 111, 110, 101];

/// What the probing derivation returns for given seeds and program id: the
/// derived address and its bump, or nothing in the statistically improbable
/// event that no viable bump exists.
pub uninterp spec fn pda_probe(seeds: Seq<Seq<u8>>, program_id: Seq<u8>) -> Option<(Seq<u8>, u8)>;

/// What the single-shot derivation returns for given seeds, bump and
/// program id: the derived address, or nothing for an overlong seed or an
/// address that would land on the curve.
pub uninterp spec fn pda_with_bump(seeds: Seq<Seq<u8>>, bump: u8, program_id: Seq<u8>) -> Option<
    Seq<u8>,
>;

/// Relies on `Pubkey::try_find_program_address` of the Solana SDK, as
/// re-exported by anchor_lang: the search is deterministic in the seeds and
/// the program id, and a found pair re-derives to the same address through
/// `Pubkey::create_program_address` with the returned bump appended.
#[verifier::external_body]
pub(crate) fn probe_address(seeds: &Vec<Vec<u8>>, program_id: &[u8; 32]) -> (r: Option<([u8; 32], u8)>)
    ensures
        match r {
            Some(p) => {
                &&& pda_probe(seeds.deep_view(), program_id@) == Some((p.0@, p.1))
                &&& pda_with_bump(seeds.deep_view(), p.1, program_id@) == Some(p.0@)
            },
            None => pda_probe(seeds.deep_view(), program_id@) is None,
        },
{
    let refs: Vec<&[u8]> = seeds.iter().map(|s| s.as_slice()).collect();
    let pid = anchor_lang::prelude::Pubkey::new_from_array(*program_id);
    anchor_lang::prelude::Pubkey::try_find_program_address(&refs, &pid).map(
        |p: (anchor_lang::prelude::Pubkey, u8)| (p.0.to_bytes(), p.1),
    )
}

/// Relies on `Pubkey::create_program_address` of the Solana SDK, as
/// re-exported by anchor_lang: the derivation is deterministic in the
/// seeds, the bump and the program id; its errors (an overlong seed, or a
/// derived address on the curve) are reported as `None`.
#[verifier::external_body]
pub(crate) fn derive_with_bump(seeds: &Vec<Vec<u8>>, bump: u8, program_id: &[u8; 32]) -> (r: Option<
    [u8; 32],
>)
    ensures
        match r {
            Some(a) => pda_with_bump(seeds.deep_view(), bump, program_id@) == Some(a@),
            None => pda_with_bump(seeds.deep_view(), bump, program_id@) is None,
        },
{
    let mut refs: Vec<&[u8]> = seeds.iter().map(|s| s.as_slice()).collect();
    let bump_arr = [bump];
    refs.push(&bump_arr);
    let pid = anchor_lang::prelude::Pubkey::new_from_array(*program_id);
    anchor_lang::prelude::Pubkey::create_program_address(&refs, &pid).ok().map(
        |a: anchor_lang::prelude::Pubkey| a.to_bytes(),
    )
}

/// Seeds of the user record owned by `author`.
pub open spec fn spec_user_seeds(author: Seq<u8>) -> Seq<Seq<u8>> {
    seq![USER_SEED@, author]
}

/// Seeds of the like by `liker` on the vibe at `vibe`.
pub open spec fn spec_like_seeds(liker: Seq<u8>, vibe: Seq<u8>) -> Seq<Seq<u8>> {
    seq![LIKE_SEED@, liker, vibe]
}

/// Seeds of the comment by `commentor` under the vibe at `vibe`.
pub open spec fn spec_comment_seeds(commentor: Seq<u8>, vibe: Seq<u8>) -> Seq<Seq<u8>> {
    seq![COMMENT_SEED@, commentor, vibe]
}

/// Seeds of the follow of `followed` by `follower`.
pub open spec fn spec_follow_seeds(followed: Seq<u8>, follower: Seq<u8>) -> Seq<Seq<u8>> {
    seq![FOLLOW_SEED@, followed, follower]
}

/// Builds the user seeds of [`spec_user_seeds`].
pub fn user_seeds(author: &[u8; 32]) -> (r: Vec<Vec<u8>>)
    ensures
        r.deep_view() == spec_user_seeds(author@),
{
    let mut r: Vec<Vec<u8>> = Vec::new();
    r.push(slice_to_vec(USER_SEED.as_slice()));
    r.push(slice_to_vec(author.as_slice()));
    proof {
        assert(r.deep_view() =~~= spec_user_seeds(author@));
    }
    r
}

/// Builds the like seeds of [`spec_like_seeds`].
pub fn like_seeds(liker: &[u8; 32], vibe: &[u8; 32]) -> (r: Vec<Vec<u8>>)
    ensures
        r.deep_view() == spec_like_seeds(liker@, vibe@),
{
    let mut r: Vec<Vec<u8>> = Vec::new();
    r.push(slice_to_vec(LIKE_SEED.as_slice()));
    r.push(slice_to_vec(liker.as_slice()));
    r.push(slice_to_vec(vibe.as_slice()));
    proof {
        assert(r.deep_view() =~~= spec_like_seeds(liker@, vibe@));
    }
    r
}

/// Builds the comment seeds of [`spec_comment_seeds`].
pub fn comment_seeds(commentor: &[u8; 32], vibe: &[u8; 32]) -> (r: Vec<Vec<u8>>)
    ensures
        r.deep_view() == spec_comment_seeds(commentor@, vibe@),
{
    let mut r: Vec<Vec<u8>> = Vec::new();
    r.push(slice_to_vec(COMMENT_SEED.as_slice()));
    r.push(slice_to_vec(commentor.as_slice()));
    r.push(slice_to_vec(vibe.as_slice()));
    proof {
        assert(r.deep_view() =~~= spec_comment_seeds(commentor@, vibe@));
    }
    r
}

/// Builds the follow seeds of [`spec_follow_seeds`].
pub fn follow_seeds(followed: &[u8; 32], follower: &[u8; 32]) -> (r: Vec<Vec<u8>>)
    ensures
        r.deep_view() == spec_follow_seeds(followed@, follower@),
{
    let mut r: Vec<Vec<u8>> = Vec::new();
    r.push(slice_to_vec(FOLLOW_SEED.as_slice()));
    r.push(slice_to_vec(followed.as_slice()));
    r.push(slice_to_vec(follower.as_slice()));
    proof {
        assert(r.deep_view() =~~= spec_follow_seeds(followed@, follower@));
    }
    r
}

/// Derives the address and disambiguator of the user record of `author`.
pub fn derive_user_address(author: &[u8; 32]) -> (r: Option<([u8; 32], u8)>)
    ensures
        match r {
            Some(p) => pda_probe(spec_user_seeds(author@), PROGRAM_ID@) == Some((p.0@, p.1)),
            None => pda_probe(spec_user_seeds(author@), PROGRAM_ID@) is None,
        },
{
    probe_address(&user_seeds(author), &PROGRAM_ID)
}

/// Derives the address and disambiguator of the like by `liker` on the
/// vibe at `vibe`.
pub fn derive_like_address(liker: &[u8; 32], vibe: &[u8; 32]) -> (r: Option<([u8; 32], u8)>)
    ensures
        match r {
            Some(p) => pda_probe(spec_like_seeds(liker@, vibe@), PROGRAM_ID@) == Some((p.0@, p.1)),
            None => pda_probe(spec_like_seeds(liker@, vibe@), PROGRAM_ID@) is None,
        },
{
    probe_address(&like_seeds(liker, vibe), &PROGRAM_ID)
}

/// Derives the address and disambiguator of the comment by `commentor`
/// under the vibe at `vibe`.
pub fn derive_comment_address(commentor: &[u8; 32], vibe: &[u8; 32]) -> (r: Option<([u8; 32], u8)>)
    ensures
        match r {
            Some(p) => pda_probe(spec_comment_seeds(commentor@, vibe@), PROGRAM_ID@) == Some(
                (p.0@, p.1),
            ),
            None => pda_probe(spec_comment_seeds(commentor@, vibe@), PROGRAM_ID@) is None,
        },
{
    probe_address(&comment_seeds(commentor, vibe), &PROGRAM_ID)
}

/// Derives the address and disambiguator of the follow of `followed` by
/// `follower`.
pub fn derive_follow_address(followed: &[u8; 32], follower: &[u8; 32]) -> (r: Option<
    ([u8; 32], u8),
>)
    ensures
        match r {
            Some(p) => pda_probe(spec_follow_seeds(followed@, follower@), PROGRAM_ID@) == Some(
                (p.0@, p.1),
            ),
            None => pda_probe(spec_follow_seeds(followed@, follower@), PROGRAM_ID@) is None,
        },
{
    probe_address(&follow_seeds(followed, follower), &PROGRAM_ID)
}

} // verus!
