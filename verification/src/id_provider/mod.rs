use crate::id_manager::bytes_view;
use std::sync::Arc;
use vstd::prelude::*;

pub mod disabled_id_provider;

verus! {

#[derive(Debug)]
pub enum IdentityProviderError {
    AuthenticationFailed,
    NotImplemented,
}

/// A user that an identity provider has authenticated.
pub trait AuthenticatedUser {
    /// The user's id.
    spec fn spec_id(&self) -> Seq<char>;

    /// What the user may be answered when asked whether it holds a role.
    spec fn spec_has_role(&self, role_id: Seq<char>, answer: Result<bool, IdentityProviderError>) -> bool;

    fn id(&self) -> (r: &str)
        ensures
            r@ == self.spec_id(),
    ;

    fn has_role(&self, role_id: &str) -> (r: Result<bool, IdentityProviderError>)
        ensures
            self.spec_has_role(role_id@, r),
    ;
}

pub trait IdentityProvider {
    /// The kind of user that the provider hands out.
    type User: AuthenticatedUser;

    /// The identities that the provider is bound to authenticate without error.
    spec fn admits(&self, user_id: Seq<char>, extra_data: Option<Seq<u8>>) -> bool;

    /// Used to authenticate that a user is who they say they are. The
    /// extra_data field can be used to pass additional information to the
    /// authentication process, such as a token.
    fn authenticate_user(&self, user_id: &str, extra_data: Option<&[u8]>) -> (r: Result<
        Arc<Self::User>,
        IdentityProviderError,
    >)
        ensures
            self.admits(user_id@, bytes_view(extra_data)) ==> r is Ok,
    ;
}

} // verus!
