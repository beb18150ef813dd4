use crate::id_manager::{IdentityManager, IdentityManagerError};
use vstd::prelude::*;

verus! {

/// An identity manager that knows only the anonymous user, whose id is empty:
/// it authenticates that user alone, grants no role, and manages nothing.
pub struct DisabledIdentityManager;

impl IdentityManager for DisabledIdentityManager {
    open spec fn admits(&self, user_id: Seq<char>, extra_data: Option<Seq<u8>>) -> bool {
        user_id.len() == 0
    }

    open spec fn authenticate_meets(
        &self,
        user_id: Seq<char>,
        extra_data: Option<Seq<u8>>,
        answer: Result<bool, IdentityManagerError>,
    ) -> bool {
        if user_id.len() == 0 {
            answer == Ok::<bool, IdentityManagerError>(true)
        } else {
            answer matches Err(IdentityManagerError::AuthenticationFailed)
        }
    }

    open spec fn spec_has_role(
        &self,
        user_id: Seq<char>,
        role_id: Seq<char>,
        answer: Result<bool, IdentityManagerError>,
    ) -> bool {
        answer == Ok::<bool, IdentityManagerError>(false)
    }

    fn role_create(&self, role_id: &str) -> (r: Result<(), IdentityManagerError>)
        ensures
            r matches Err(IdentityManagerError::NotImplemented),
    {
        Err(IdentityManagerError::NotImplemented)
    }

    fn role_delete(&self, role_id: &str) -> (r: Result<(), IdentityManagerError>)
        ensures
            r matches Err(IdentityManagerError::NotImplemented),
    {
        Err(IdentityManagerError::NotImplemented)
    }

    fn group_create(&self, group_id: &str) -> (r: Result<(), IdentityManagerError>)
        ensures
            r matches Err(IdentityManagerError::NotImplemented),
    {
        Err(IdentityManagerError::NotImplemented)
    }

    fn group_delete(&self, group_id: &str) -> (r: Result<(), IdentityManagerError>)
        ensures
            r matches Err(IdentityManagerError::NotImplemented),
    {
        Err(IdentityManagerError::NotImplemented)
    }

    fn group_add_role(&self, group_id: &str, role_id: &str) -> (r: Result<(), IdentityManagerError>)
        ensures
            r matches Err(IdentityManagerError::NotImplemented),
    {
        Err(IdentityManagerError::NotImplemented)
    }

    fn group_remove_role(&self, group_id: &str, role_id: &str) -> (r: Result<(), IdentityManagerError>)
        ensures
            r matches Err(IdentityManagerError::NotImplemented),
    {
        Err(IdentityManagerError::NotImplemented)
    }

    fn user_create(&self, id: &str) -> (r: Result<(), IdentityManagerError>)
        ensures
            r matches Err(IdentityManagerError::NotImplemented),
    {
        Err(IdentityManagerError::NotImplemented)
    }

    fn user_delete(&self, id: &str) -> (r: Result<(), IdentityManagerError>)
        ensures
            r matches Err(IdentityManagerError::NotImplemented),
    {
        Err(IdentityManagerError::NotImplemented)
    }

    fn user_add_role(&self, user_id: &str, role_id: &str) -> (r: Result<(), IdentityManagerError>)
        ensures
            r matches Err(IdentityManagerError::NotImplemented),
    {
        Err(IdentityManagerError::NotImplemented)
    }

    fn user_remove_role(&self, user_id: &str, role_id: &str) -> (r: Result<(), IdentityManagerError>)
        ensures
            r matches Err(IdentityManagerError::NotImplemented),
    {
        Err(IdentityManagerError::NotImplemented)
    }

    fn user_authenticate(&self, user_id: &str, extra_data: Option<&[u8]>) -> (r: Result<
        bool,
        IdentityManagerError,
    >)
        ensures
            user_id@.len() == 0 ==> r == Ok::<bool, IdentityManagerError>(true),
            user_id@.len() != 0 ==> r matches Err(IdentityManagerError::AuthenticationFailed),
    {
        if user_id.is_empty() {
            Ok(true)
        } else {
            Err(IdentityManagerError::AuthenticationFailed)
        }
    }

    fn user_has_role(&self, user_id: &str, role_id: &str) -> (r: Result<bool, IdentityManagerError>) {
        Ok(false)
    }
}

} // verus!
