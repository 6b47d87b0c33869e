//! Record-management engine for a social-graph ledger.
//!
//! Users, posts ("vibes"), likes, comments, and follow relationships are
//! kept as independently addressable fixed-layout records.  [`codec`] gives
//! each record kind a bounded, tagged wire form; [`pda`] derives each
//! record's address deterministically from stable seed inputs; [`store`]
//! models the record store with exactly-once initialization per address and
//! atomic close-and-reclaim; [`auth`] gates every mutation on the caller's
//! identity; and [`ops`] composes them into the social operations, each a
//! verified state transition whose exact effect is a spec function over the
//! store's map value.  [`laws`] proves the cross-operation guarantees:
//! duplicate likes stay rejected, a removed like is re-grantable, counters
//! never wrap, and only owners mutate or destroy their records.

pub mod auth;
pub mod codec;
pub mod errors;
pub mod fields;
pub mod laws;
pub mod ops;
pub mod pda;
pub mod records;
pub mod store;

pub use errors::ErrorCode;
pub use ops::{
    add_comment, create_user, create_vibe, delete_vibe, follow_one, load_comment, load_follow,
    load_like, load_user, load_vibe, remove_comment, remove_like, unfollow, update_likes,
    update_name,
};
pub use records::{Comment, Follow, Like, User, Vibe};
pub use store::Ledger;
