//! End-to-end checks of the social operations against the record store.

use solvibe_social::codec::{encode_like, encode_vibe};
use solvibe_social::ops::{
    add_comment, create_user, create_vibe, delete_vibe, follow_one, load_comment, load_user,
    load_vibe, remove_comment, remove_like, unfollow, update_likes, update_name,
};
use solvibe_social::pda::{derive_comment_address, derive_like_address, derive_user_address};
use solvibe_social::records::{Like, Vibe, TAG_LIKE, TAG_VIBE};
use solvibe_social::ErrorCode;
use solvibe_social::Ledger;

fn key(n: u8) -> [u8; 32] {
    [n; 32]
}

#[test]
fn create_vibe_stores_topic_and_content() {
    let mut ledger = Ledger::new();
    let author = key(1);
    let addr = key(100);
    let topic = "t".repeat(50);
    let content = "c".repeat(300);
    create_vibe(&mut ledger, &author, &addr, 42, &topic, &content).unwrap();
    let v = load_vibe(&ledger, &addr).unwrap();
    assert_eq!(v.author, author);
    assert_eq!(v.timestamp, 42);
    assert_eq!(v.topic, topic);
    assert_eq!(v.content, content);
    assert_eq!(v.likes, 0);
    assert_eq!(v.comments, 0);
}

#[test]
fn create_vibe_keeps_negative_timestamp() {
    let mut ledger = Ledger::new();
    create_vibe(&mut ledger, &key(1), &key(100), -5, "early", "before the epoch").unwrap();
    assert_eq!(load_vibe(&ledger, &key(100)).unwrap().timestamp, -5);
}

#[test]
fn create_vibe_rejects_long_topic() {
    let mut ledger = Ledger::new();
    let topic = "a".repeat(51);
    let r = create_vibe(&mut ledger, &key(1), &key(100), 0, &topic, "body");
    assert!(matches!(r, Err(ErrorCode::TopicTooLong)));
    assert!(matches!(load_vibe(&ledger, &key(100)), Err(ErrorCode::NotFound)));
}

#[test]
fn create_vibe_rejects_long_content() {
    let mut ledger = Ledger::new();
    let content = "a".repeat(301);
    let r = create_vibe(&mut ledger, &key(1), &key(100), 0, "topic", &content);
    assert!(matches!(r, Err(ErrorCode::ContentTooLong)));
}

#[test]
fn create_vibe_rejects_occupied_address() {
    let mut ledger = Ledger::new();
    create_vibe(&mut ledger, &key(1), &key(100), 0, "one", "first").unwrap();
    let r = create_vibe(&mut ledger, &key(2), &key(100), 1, "two", "second");
    assert!(matches!(r, Err(ErrorCode::AlreadyExists)));
    // The first record is untouched.
    let v = load_vibe(&ledger, &key(100)).unwrap();
    assert_eq!(v.topic, "one");
}

#[test]
fn like_twice_rejected_and_counter_stays_one() {
    let mut ledger = Ledger::new();
    let author = key(1);
    let liker = key(2);
    let addr = key(100);
    create_vibe(&mut ledger, &author, &addr, 0, "hello", "world").unwrap();
    update_likes(&mut ledger, &liker, &addr).unwrap();
    assert_eq!(load_vibe(&ledger, &addr).unwrap().likes, 1);
    let r = update_likes(&mut ledger, &liker, &addr);
    assert!(matches!(r, Err(ErrorCode::AlreadyLiked)));
    assert_eq!(load_vibe(&ledger, &addr).unwrap().likes, 1);
}

#[test]
fn relike_after_remove_succeeds() {
    let mut ledger = Ledger::new();
    let liker = key(2);
    let addr = key(100);
    create_vibe(&mut ledger, &key(1), &addr, 0, "hello", "world").unwrap();
    update_likes(&mut ledger, &liker, &addr).unwrap();
    remove_like(&mut ledger, &liker, &addr).unwrap();
    assert_eq!(load_vibe(&ledger, &addr).unwrap().likes, 0);
    update_likes(&mut ledger, &liker, &addr).unwrap();
    assert_eq!(load_vibe(&ledger, &addr).unwrap().likes, 1);
}

#[test]
fn remove_like_of_absent_like_not_found() {
    let mut ledger = Ledger::new();
    let addr = key(100);
    create_vibe(&mut ledger, &key(1), &addr, 0, "hello", "world").unwrap();
    let r = remove_like(&mut ledger, &key(2), &addr);
    assert!(matches!(r, Err(ErrorCode::NotFound)));
}

#[test]
fn remove_like_with_corrupted_bump_fails_closed() {
    let mut ledger = Ledger::new();
    let liker = key(2);
    let addr = key(100);
    create_vibe(&mut ledger, &key(1), &addr, 0, "hello", "world").unwrap();
    // Plant a like record whose stored disambiguator cannot re-derive the
    // address it sits at.
    let (like_addr, bump) = derive_like_address(&liker, &addr).unwrap();
    let wrong_bump = if bump == 0 { 1 } else { bump - 1 };
    ledger.create(&like_addr, TAG_LIKE, 9, &liker).unwrap();
    ledger.store(&like_addr, encode_like(&Like { bump: wrong_bump })).unwrap();
    let r = remove_like(&mut ledger, &liker, &addr);
    assert!(matches!(r, Err(ErrorCode::AddressMismatch)));
}

#[test]
fn remove_like_by_other_identity_unauthorized() {
    let mut ledger = Ledger::new();
    let liker = key(2);
    let addr = key(100);
    create_vibe(&mut ledger, &key(1), &addr, 0, "hello", "world").unwrap();
    // Plant a like record at the liker's derived address that someone else
    // paid for: the liker is then not its owner.
    let (like_addr, bump) = derive_like_address(&liker, &addr).unwrap();
    ledger.create(&like_addr, TAG_LIKE, 9, &key(9)).unwrap();
    ledger.store(&like_addr, encode_like(&Like { bump })).unwrap();
    let r = remove_like(&mut ledger, &liker, &addr);
    assert!(matches!(r, Err(ErrorCode::Unauthorized)));
}

#[test]
fn like_counter_overflow_is_refused() {
    let mut ledger = Ledger::new();
    let addr = key(100);
    create_vibe(&mut ledger, &key(1), &addr, 0, "hello", "world").unwrap();
    // Force the counter to its maximum.
    let v = load_vibe(&ledger, &addr).unwrap();
    let full = Vibe { likes: u32::MAX, ..v };
    ledger.store(&addr, encode_vibe(&full)).unwrap();
    let r = update_likes(&mut ledger, &key(2), &addr);
    assert!(matches!(r, Err(ErrorCode::CounterOverflow)));
    assert_eq!(load_vibe(&ledger, &addr).unwrap().likes, u32::MAX);
}

#[test]
fn delete_vibe_by_other_identity_unauthorized() {
    let mut ledger = Ledger::new();
    let author = key(1);
    let addr = key(100);
    create_vibe(&mut ledger, &author, &addr, 7, "hello", "world").unwrap();
    let r = delete_vibe(&mut ledger, &key(2), &addr);
    assert!(matches!(r, Err(ErrorCode::Unauthorized)));
    // The post record is unchanged.
    let v = load_vibe(&ledger, &addr).unwrap();
    assert_eq!(v.author, author);
    assert_eq!(v.topic, "hello");
    assert_eq!(v.timestamp, 7);
}

#[test]
fn delete_vibe_of_missing_post_not_found() {
    let mut ledger = Ledger::new();
    let r = delete_vibe(&mut ledger, &key(1), &key(100));
    assert!(matches!(r, Err(ErrorCode::NotFound)));
}

#[test]
fn scenario_post_lifecycle() {
    let mut ledger = Ledger::new();
    let a = key(1);
    let b = key(2);
    let c = key(3);
    let p = key(100);
    create_vibe(&mut ledger, &a, &p, 1000, "hello", "world").unwrap();
    update_likes(&mut ledger, &b, &p).unwrap();
    update_likes(&mut ledger, &c, &p).unwrap();
    assert_eq!(load_vibe(&ledger, &p).unwrap().likes, 2);
    remove_like(&mut ledger, &b, &p).unwrap();
    assert_eq!(load_vibe(&ledger, &p).unwrap().likes, 1);
    delete_vibe(&mut ledger, &a, &p).unwrap();
    assert!(matches!(load_vibe(&ledger, &p), Err(ErrorCode::NotFound)));
}

#[test]
fn create_user_and_update_name() {
    let mut ledger = Ledger::new();
    let author = key(4);
    create_user(&mut ledger, &author, "Alice", "alice").unwrap();
    let (user_addr, _bump) = derive_user_address(&author).unwrap();
    let u = load_user(&ledger, &user_addr).unwrap();
    assert_eq!(u.user_key, author);
    assert_eq!(u.name, "Alice");
    assert_eq!(u.username, "alice");
    assert_eq!(u.followers, 0);
    update_name(&mut ledger, &author, "Alicia").unwrap();
    let u2 = load_user(&ledger, &user_addr).unwrap();
    assert_eq!(u2.name, "Alicia");
    assert_eq!(u2.username, "alice");
}

#[test]
fn create_user_rejects_long_name() {
    let mut ledger = Ledger::new();
    let name = "n".repeat(21);
    let r = create_user(&mut ledger, &key(4), &name, "alice");
    assert!(matches!(r, Err(ErrorCode::NameTooLong)));
}

#[test]
fn create_user_rejects_long_handle() {
    let mut ledger = Ledger::new();
    let handle = "h".repeat(21);
    let r = create_user(&mut ledger, &key(4), "Alice", &handle);
    assert!(matches!(r, Err(ErrorCode::HandleTooLong)));
}

#[test]
fn create_user_twice_rejected() {
    let mut ledger = Ledger::new();
    create_user(&mut ledger, &key(4), "Alice", "alice").unwrap();
    let r = create_user(&mut ledger, &key(4), "Other", "other");
    assert!(matches!(r, Err(ErrorCode::AlreadyExists)));
}

#[test]
fn update_name_rejects_long_name() {
    let mut ledger = Ledger::new();
    create_user(&mut ledger, &key(4), "Alice", "alice").unwrap();
    let name = "n".repeat(21);
    let r = update_name(&mut ledger, &key(4), &name);
    assert!(matches!(r, Err(ErrorCode::NameTooLong)));
}

#[test]
fn comment_lifecycle() {
    let mut ledger = Ledger::new();
    let author = key(1);
    let commentor = key(5);
    let addr = key(100);
    create_vibe(&mut ledger, &author, &addr, 0, "hello", "world").unwrap();
    add_comment(&mut ledger, &commentor, &addr, "nice post").unwrap();
    assert_eq!(load_vibe(&ledger, &addr).unwrap().comments, 1);
    let (comment_addr, _bump) = derive_comment_address(&commentor, &addr).unwrap();
    let c = load_comment(&ledger, &comment_addr).unwrap();
    assert_eq!(c.vibe, addr);
    assert_eq!(c.commentor, commentor);
    assert_eq!(c.comment, "nice post");
    remove_comment(&mut ledger, &commentor, &addr).unwrap();
    assert_eq!(load_vibe(&ledger, &addr).unwrap().comments, 0);
    assert!(matches!(load_comment(&ledger, &comment_addr), Err(ErrorCode::NotFound)));
}

#[test]
fn add_comment_rejects_long_text() {
    let mut ledger = Ledger::new();
    create_vibe(&mut ledger, &key(1), &key(100), 0, "hello", "world").unwrap();
    let text = "x".repeat(151);
    let r = add_comment(&mut ledger, &key(5), &key(100), &text);
    assert!(matches!(r, Err(ErrorCode::CommentTooLong)));
}

#[test]
fn one_live_comment_per_commentor_and_post() {
    let mut ledger = Ledger::new();
    create_vibe(&mut ledger, &key(1), &key(100), 0, "hello", "world").unwrap();
    add_comment(&mut ledger, &key(5), &key(100), "first").unwrap();
    let r = add_comment(&mut ledger, &key(5), &key(100), "second");
    assert!(matches!(r, Err(ErrorCode::AlreadyExists)));
    assert_eq!(load_vibe(&ledger, &key(100)).unwrap().comments, 1);
}

#[test]
fn remove_comment_underflow_is_fatal() {
    let mut ledger = Ledger::new();
    let commentor = key(5);
    let addr = key(100);
    create_vibe(&mut ledger, &key(1), &addr, 0, "hello", "world").unwrap();
    add_comment(&mut ledger, &commentor, &addr, "text").unwrap();
    // Corrupt the state: force the comment counter back to zero while the
    // comment record still exists.
    let v = load_vibe(&ledger, &addr).unwrap();
    let zeroed = Vibe { comments: 0, ..v };
    ledger.store(&addr, encode_vibe(&zeroed)).unwrap();
    let r = remove_comment(&mut ledger, &commentor, &addr);
    assert!(matches!(r, Err(ErrorCode::CounterUnderflow)));
    assert_eq!(load_vibe(&ledger, &addr).unwrap().comments, 0);
    // The comment record was not destroyed either.
    let (comment_addr, _bump) = derive_comment_address(&commentor, &addr).unwrap();
    assert!(load_comment(&ledger, &comment_addr).is_ok());
}

#[test]
fn follow_and_unfollow() {
    let mut ledger = Ledger::new();
    let follower = key(6);
    let followed = key(7);
    follow_one(&mut ledger, &follower, &followed).unwrap();
    let r = follow_one(&mut ledger, &follower, &followed);
    assert!(matches!(r, Err(ErrorCode::AlreadyFollowing)));
    unfollow(&mut ledger, &follower, &followed).unwrap();
    // The pair's address is free again.
    follow_one(&mut ledger, &follower, &followed).unwrap();
}

#[test]
fn follow_is_ordered_pair() {
    let mut ledger = Ledger::new();
    follow_one(&mut ledger, &key(6), &key(7)).unwrap();
    // The reverse direction is a distinct record.
    follow_one(&mut ledger, &key(7), &key(6)).unwrap();
}

#[test]
fn unfollow_by_other_identity_not_found() {
    let mut ledger = Ledger::new();
    follow_one(&mut ledger, &key(6), &key(7)).unwrap();
    // A different follower derives a different address.
    let r = unfollow(&mut ledger, &key(8), &key(7));
    assert!(matches!(r, Err(ErrorCode::NotFound)));
}

#[test]
fn load_with_wrong_tag_is_type_mismatch() {
    let mut ledger = Ledger::new();
    create_vibe(&mut ledger, &key(1), &key(100), 0, "hello", "world").unwrap();
    let r = load_user(&ledger, &key(100));
    assert!(matches!(r, Err(ErrorCode::TypeMismatch)));
}

#[test]
fn store_above_capacity_is_refused() {
    let mut ledger = Ledger::new();
    ledger.create(&key(100), TAG_VIBE, 4, &key(1)).unwrap();
    let r = ledger.store(&key(100), vec![1, 2, 3, 4, 5]);
    assert!(matches!(r, Err(ErrorCode::CapacityExceeded)));
    ledger.store(&key(100), vec![1, 2, 3, 4]).unwrap();
}

#[test]
fn load_of_garbage_bytes_is_layout_error() {
    let mut ledger = Ledger::new();
    ledger.create(&key(100), TAG_VIBE, 64, &key(1)).unwrap();
    ledger.store(&key(100), vec![0; 10]).unwrap();
    let r = load_vibe(&ledger, &key(100));
    assert!(matches!(r, Err(ErrorCode::LayoutError)));
}
