//! Authorization guard.
//!
//! Every mutating or destroying operation names a stored owner field — the
//! post's author, the like's payer, the comment's commentor, the follow's
//! follower, the user record's owner — and checks that the caller presents
//! exactly that identity.  The check is structural equality on identity
//! values: no delegation, no multi-signature, no role hierarchy.

use vstd::prelude::*;
use crate::errors::ErrorCode;
use crate::fields::key_eq;

verus! {

/// Succeeds exactly when the caller's identity equals the stored one.
pub fn authorize(stored: &[u8; 32], caller: &[u8; 32]) -> (r: Result<(), ErrorCode>)
    ensures
        r is Ok <==> stored@ == caller@,
        r is Err ==> r == Err::<(), ErrorCode>(ErrorCode::Unauthorized),
{
    if key_eq(stored, caller) {
        Ok(())
    } else {
        Err(ErrorCode::Unauthorized)
    }
}

} // verus!
