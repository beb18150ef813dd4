use crate::id_provider::{AuthenticatedUser, IdentityProvider, IdentityProviderError};
use std::sync::Arc;
use vstd::prelude::*;

verus! {

/// The anonymous user: its id is empty and it holds no role.
pub struct EmptyUser {}

impl AuthenticatedUser for EmptyUser {
    open spec fn spec_id(&self) -> Seq<char> {
        Seq::empty()
    }

    open spec fn spec_has_role(&self, role_id: Seq<char>, answer: Result<bool, IdentityProviderError>) -> bool {
        answer == Ok::<bool, IdentityProviderError>(false)
    }

    fn id(&self) -> (r: &str) {
        let r = "";
        proof {
            reveal_strlit("");
        }
        r
    }

    fn has_role(&self, _role_id: &str) -> (r: Result<bool, IdentityProviderError>) {
        Ok(false)
    }
}

/// An identity provider that authenticates the anonymous user alone.
pub struct DisabledIdentityProvider;

impl IdentityProvider for DisabledIdentityProvider {
    type User = EmptyUser;

    open spec fn admits(&self, user_id: Seq<char>, extra_data: Option<Seq<u8>>) -> bool {
        user_id.len() == 0
    }

    fn authenticate_user(&self, user_id: &str, _extra_data: Option<&[u8]>) -> (r: Result<
        Arc<EmptyUser>,
        IdentityProviderError,
    >)
        ensures
            r is Ok <==> user_id@.len() == 0,
            r matches Err(e) ==> e is AuthenticationFailed,
    {
        if user_id.is_empty() {
            return Ok(Arc::new(EmptyUser {  }));
        }
        Err(IdentityProviderError::AuthenticationFailed)
    }
}

} // verus!
