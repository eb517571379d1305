//! The identity that requests carry, and the reading of a bearer token.

use vstd::prelude::*;
use crate::text::push_char;

verus! {

/// The user that a verified token names.
pub struct AuthUser {
    pub user_id: i32,
    pub username: String,
}

#[derive(Clone, Copy, Debug, PartialEq, Eq, Structural)]
pub enum AuthError {
    MissingToken,
    InvalidToken,
}

/// Authentication that may be absent.
pub struct OptionalAuthUser(pub Option<AuthUser>);

pub open spec fn bearer_prefix() -> Seq<char> {
    seq!['B', 'e', 'a', 'r', 'e', 'r', ' ']
}

/// The token of an `Authorization` header value of the form `Bearer <token>`.
pub fn bearer_token(header_value: Option<&str>) -> (r: Result<String, AuthError>)
    ensures
        match header_value {
            None => r == Err::<String, AuthError>(AuthError::MissingToken),
            Some(h) => if h@.len() >= 7 && h@.take(7) == bearer_prefix() {
                r matches Ok(t) && t@ == h@.skip(7)
            } else {
                r == Err::<String, AuthError>(AuthError::InvalidToken)
            },
        },
{
    let h = match header_value {
        None => {
            return Err(AuthError::MissingToken);
        },
        Some(h) => h,
    };
    let len = h.unicode_len();
    if len < 7 {
        return Err(AuthError::InvalidToken);
    }
    let prefix: [char; 7] = ['B', 'e', 'a', 'r', 'e', 'r', ' '];
    let mut i: usize = 0;
    while i < 7
        invariant
            i <= 7,
            header_value == Some(h),
            len == h@.len(),
            len >= 7,
            prefix@ == bearer_prefix(),
            forall|k: int| 0 <= k < i ==> h@[k] == bearer_prefix()[k],
        decreases 7 - i,
    {
        if h.get_char(i) != prefix[i] {
            proof {
                assert(h@.take(7)[i as int] != bearer_prefix()[i as int]);
            }
            return Err(AuthError::InvalidToken);
        }
        i += 1;
    }
    assert(h@.take(7) =~= bearer_prefix());
    let mut t = String::new();
    let mut j: usize = 7;
    while j < len
        invariant
            7 <= j <= len,
            len == h@.len(),
            t@ == h@.subrange(7, j as int),
        decreases len - j,
    {
        push_char(&mut t, h.get_char(j));
        proof {
            assert(h@.subrange(7, (j + 1) as int) =~= h@.subrange(7, j as int).push(h@[j as int]));
        }
        j += 1;
    }
    assert(h@.subrange(7, len as int) =~= h@.skip(7));
    Ok(t)
}

} // verus!
