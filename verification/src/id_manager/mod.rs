use std::sync::Arc;
use vstd::prelude::*;

pub mod disabled_id_manager;

verus! {

#[derive(Debug)]
pub enum IdentityManagerError {
    AuthenticationFailed,
    NotImplemented,
}

/// The data of an optional byte buffer.
pub open spec fn bytes_view(data: Option<&[u8]>) -> Option<Seq<u8>> {
    match data {
        Some(d) => Some(d@),
        None => None,
    }
}

/// Calls `Arc::clone`. Claimed: the clone points at the same value.
#[verifier::external_body]
pub(crate) fn share<T: ?Sized>(value: &Arc<T>) -> (r: Arc<T>)
    ensures
        r == *value,
{
    Arc::clone(value)
}

/// A user known to an identity manager.
pub struct User<IM: IdentityManager> {
    user_id: String,
    identity_manager: Arc<IM>,
}

impl<IM: IdentityManager> User<IM> {
    /// The user's id.
    pub closed spec fn spec_id(&self) -> Seq<char> {
        self.user_id@
    }

    /// The identity manager that answers for the user.
    pub closed spec fn manager(&self) -> IM {
        *self.identity_manager
    }

    pub fn new(user_id: String, identity_manager: Arc<IM>) -> (r: Self)
        ensures
            r.spec_id() == user_id@,
            r.manager() == *identity_manager,
    {
        User { user_id, identity_manager }
    }

    /// Asks the identity manager whether the user holds `role_id`.
    pub fn user_has_role(&self, role_id: &str) -> (r: Result<bool, IdentityManagerError>)
        ensures
            self.manager().spec_has_role(self.spec_id(), role_id@, r),
    {
        self.identity_manager.user_has_role(self.user_id.as_str(), role_id)
    }

    pub fn id(&self) -> (r: &str)
        ensures
            r@ == self.spec_id(),
    {
        self.user_id.as_str()
    }
}

/// Management of roles, groups and users, and authentication of users.
pub trait IdentityManager {
    /// The identities that the manager is bound to authenticate: a user id with
    /// the extra data offered for it.
    spec fn admits(&self, user_id: Seq<char>, extra_data: Option<Seq<u8>>) -> bool;

    /// What the manager may answer when asked to authenticate a user.
    spec fn authenticate_meets(
        &self,
        user_id: Seq<char>,
        extra_data: Option<Seq<u8>>,
        answer: Result<bool, IdentityManagerError>,
    ) -> bool;

    /// What the manager may answer when asked whether a user holds a role.
    spec fn spec_has_role(
        &self,
        user_id: Seq<char>,
        role_id: Seq<char>,
        answer: Result<bool, IdentityManagerError>,
    ) -> bool;

    // Role management
    fn role_create(&self, role_id: &str) -> Result<(), IdentityManagerError>;

    fn role_delete(&self, role_id: &str) -> Result<(), IdentityManagerError>;

    // Group management
    fn group_create(&self, group_id: &str) -> Result<(), IdentityManagerError>;

    fn group_delete(&self, group_id: &str) -> Result<(), IdentityManagerError>;

    fn group_add_role(&self, group_id: &str, role_id: &str) -> Result<(), IdentityManagerError>;

    fn group_remove_role(&self, group_id: &str, role_id: &str) -> Result<(), IdentityManagerError>;

    // User management
    fn user_create(&self, id: &str) -> Result<(), IdentityManagerError>;

    fn user_delete(&self, id: &str) -> Result<(), IdentityManagerError>;

    fn user_add_role(&self, user_id: &str, role_id: &str) -> Result<(), IdentityManagerError>;

    fn user_remove_role(&self, user_id: &str, role_id: &str) -> Result<(), IdentityManagerError>;

    /// Used to authenticate that a user is who they say they are. The
    /// extra_data field can be used to pass additional information to the
    /// authentication process, such as a token.
    fn user_authenticate(&self, user_id: &str, extra_data: Option<&[u8]>) -> (r: Result<
        bool,
        IdentityManagerError,
    >)
        ensures
            self.authenticate_meets(user_id@, bytes_view(extra_data), r),
            self.admits(user_id@, bytes_view(extra_data)) ==> r == Ok::<bool, IdentityManagerError>(true),
    ;

    fn user_has_role(&self, user_id: &str, role_id: &str) -> (r: Result<bool, IdentityManagerError>)
        ensures
            self.spec_has_role(user_id@, role_id@, r),
    ;
}

} // verus!
