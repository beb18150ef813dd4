use vstd::prelude::*;

verus! {

#[derive(Debug)]
pub struct UserError {}

/// A user on whose behalf a request is made.
pub trait User {
    /// The user's id.
    spec fn spec_id(&self) -> Seq<char>;

    /// What the user may be answered when asked whether it holds a role.
    spec fn spec_has_role(&self, role_id: Seq<char>, answer: Result<bool, UserError>) -> bool;

    fn id(&self) -> (r: &str)
        ensures
            r@ == self.spec_id(),
    ;

    fn has_role(&self, role_id: &str) -> (r: Result<bool, UserError>)
        ensures
            self.spec_has_role(role_id@, r),
    ;
}

} // verus!
