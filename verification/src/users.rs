use vstd::prelude::*;

use crate::types::User;

verus! {

/// Reports the identity the authentication gate attached to the request,
/// exactly as resolved.
pub fn me(user: &User) -> (r: User)
    ensures
        r == *user,
{
    User { id: user.id, email: user.email.clone(), created_at: user.created_at }
}

} // verus!
