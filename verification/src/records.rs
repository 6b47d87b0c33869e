//! The record kinds of the ledger and their declared layout budgets.
//!
//! Every record kind carries a fixed-width leading type tag and a maximum
//! encoded size that is computed once, here, from the widths of its fields.
//! Text fields reserve four bytes per character on top of a length prefix,
//! the worst case of their variable-width encoding; the character-count
//! limits themselves are enforced by the operations at write time.

use vstd::prelude::*;

verus! {

/// Width in bytes of the leading type tag of every record.
pub const TAG_WIDTH: usize = 8;

/// Width in bytes of an identity or of a derived address.
pub const KEY_WIDTH: usize = 32;

/// Width in bytes of the length prefix of a text field.
pub const LEN_PREFIX_WIDTH: usize = 4;

/// Worst-case width in bytes of one encoded character.
pub const BYTES_PER_CHAR: usize = 4;

/// Maximum characters of a profile name or a handle.
pub const MAX_NAME_CHARS: usize = 20;

/// Maximum characters of a post topic.
pub const MAX_TOPIC_CHARS: usize = 50;

/// Maximum characters of a post body.
pub const MAX_CONTENT_CHARS: usize = 300;

/// Maximum characters of a comment text.
pub const MAX_COMMENT_CHARS: usize = 150;

/// Byte budget of a name or handle field, without its length prefix.
pub const MAX_NAME_BYTES: usize = BYTES_PER_CHAR * MAX_NAME_CHARS;

/// Byte budget of a topic field, without its length prefix.
pub const MAX_TOPIC_BYTES: usize = BYTES_PER_CHAR * MAX_TOPIC_CHARS;

/// Byte budget of a body field, without its length prefix.
pub const MAX_CONTENT_BYTES: usize = BYTES_PER_CHAR * MAX_CONTENT_CHARS;

/// Byte budget of a comment text field, without its length prefix.
pub const MAX_COMMENT_BYTES: usize = BYTES_PER_CHAR * MAX_COMMENT_CHARS;

/// Type tag of a user record.
pub const TAG_USER: u64 = 1;

/// Type tag of a vibe (post) record.
pub const TAG_VIBE: u64 = 2;

/// Type tag of a like record.
pub const TAG_LIKE: u64 = 3;

/// Type tag of a comment record.
pub const TAG_COMMENT: u64 = 4;

/// Type tag of a follow record.
pub const TAG_FOLLOW: u64 = 5;

/// Storage budget of a user record: tag, owner key, disambiguator,
/// follower counter, name, handle.
pub const USER_LEN: usize = TAG_WIDTH + KEY_WIDTH + 1 + 4 + (LEN_PREFIX_WIDTH + MAX_NAME_BYTES)
    + (LEN_PREFIX_WIDTH + MAX_NAME_BYTES);

/// Storage budget of a vibe record: tag, author key, timestamp, topic,
/// content, like counter, comment counter.
pub const VIBE_LEN: usize = TAG_WIDTH + KEY_WIDTH + 8 + (LEN_PREFIX_WIDTH + MAX_TOPIC_BYTES)
    + (LEN_PREFIX_WIDTH + MAX_CONTENT_BYTES) + 4 + 4;

/// Storage budget of a like record: tag and disambiguator.
pub const LIKE_LEN: usize = TAG_WIDTH + 1;

/// Storage budget of a comment record: tag, parent vibe address, commentor
/// key, text, disambiguator.
pub const COMMENT_LEN: usize = TAG_WIDTH + KEY_WIDTH + KEY_WIDTH + (LEN_PREFIX_WIDTH
    + MAX_COMMENT_BYTES) + 1;

/// Storage budget of a follow record: tag, followed key, follower key,
/// disambiguator.
pub const FOLLOW_LEN: usize = TAG_WIDTH + KEY_WIDTH + KEY_WIDTH + 1;

/// A user profile, owned by `user_key`.
pub struct User {
    pub user_key: [u8; 32],
    pub bump: u8,
    pub followers: u32,
    pub name: String,
    pub username: String,
}

/// A post, owned by `author`, carrying its like and comment counters.
pub struct Vibe {
    pub author: [u8; 32],
    pub timestamp: i64,
    pub topic: String,
    pub content: String,
    pub likes: u32,
    pub comments: u32,
}

/// A like; its derived address binds it to one liker and one vibe, so the
/// record itself only stores the address disambiguator.
pub struct Like {
    pub bump: u8,
}

/// A comment under the vibe at `vibe`, owned by `commentor`.
pub struct Comment {
    pub vibe: [u8; 32],
    pub commentor: [u8; 32],
    pub comment: String,
    pub bump: u8,
}

/// A follow of `followed` by `follower`.
pub struct Follow {
    pub followed: [u8; 32],
    pub follower: [u8; 32],
    pub bump: u8,
}

/// Mathematical value of a [`User`].
pub struct UserV {
    pub user_key: Seq<u8>,
    pub bump: u8,
    pub followers: u32,
    pub name: Seq<char>,
    pub username: Seq<char>,
}

/// Mathematical value of a [`Vibe`].
pub struct VibeV {
    pub author: Seq<u8>,
    pub timestamp: i64,
    pub topic: Seq<char>,
    pub content: Seq<char>,
    pub likes: u32,
    pub comments: u32,
}

/// Mathematical value of a [`Like`].
pub struct LikeV {
    pub bump: u8,
}

/// Mathematical value of a [`Comment`].
pub struct CommentV {
    pub vibe: Seq<u8>,
    pub commentor: Seq<u8>,
    pub comment: Seq<char>,
    pub bump: u8,
}

/// Mathematical value of a [`Follow`].
pub struct FollowV {
    pub followed: Seq<u8>,
    pub follower: Seq<u8>,
    pub bump: u8,
}

impl View for User {
    type V = UserV;

    open spec fn view(&self) -> UserV {
        UserV {
            user_key: self.user_key@,
            bump: self.bump,
            followers: self.followers,
            name: self.name@,
            username: self.username@,
        }
    }
}

impl View for Vibe {
    type V = VibeV;

    open spec fn view(&self) -> VibeV {
        VibeV {
            author: self.author@,
            timestamp: self.timestamp,
            topic: self.topic@,
            content: self.content@,
            likes: self.likes,
            comments: self.comments,
        }
    }
}

impl View for Like {
    type V = LikeV;

    open spec fn view(&self) -> LikeV {
        LikeV { bump: self.bump }
    }
}

impl View for Comment {
    type V = CommentV;

    open spec fn view(&self) -> CommentV {
        CommentV {
            vibe: self.vibe@,
            commentor: self.commentor@,
            comment: self.comment@,
            bump: self.bump,
        }
    }
}

impl View for Follow {
    type V = FollowV;

    open spec fn view(&self) -> FollowV {
        FollowV { followed: self.followed@, follower: self.follower@, bump: self.bump }
    }
}

impl UserV {
    /// The field bounds that every stored user record satisfies.
    pub open spec fn wf(self) -> bool {
        &&& self.user_key.len() == KEY_WIDTH
        &&& self.name.len() <= MAX_NAME_CHARS
        &&& self.username.len() <= MAX_NAME_CHARS
    }
}

impl VibeV {
    /// The field bounds that every stored vibe record satisfies.
    pub open spec fn wf(self) -> bool {
        &&& self.author.len() == KEY_WIDTH
        &&& self.topic.len() <= MAX_TOPIC_CHARS
        &&& self.content.len() <= MAX_CONTENT_CHARS
    }
}

impl LikeV {
    /// Every disambiguator value is admissible.
    pub open spec fn wf(self) -> bool {
        true
    }
}

impl CommentV {
    /// The field bounds that every stored comment record satisfies.
    pub open spec fn wf(self) -> bool {
        &&& self.vibe.len() == KEY_WIDTH
        &&& self.commentor.len() == KEY_WIDTH
        &&& self.comment.len() <= MAX_COMMENT_CHARS
    }
}

impl FollowV {
    /// The field bounds that every stored follow record satisfies.
    pub open spec fn wf(self) -> bool {
        &&& self.followed.len() == KEY_WIDTH
        &&& self.follower.len() == KEY_WIDTH
    }
}

} // verus!
