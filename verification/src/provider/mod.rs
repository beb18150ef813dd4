use crate::backend::{Backend, BackendError, Entries, ScopedBackend};
use vstd::prelude::*;

pub mod libcrux_ed25519;

verus! {

/// An action asked of a provider, with the store of the key that it acts on.
pub struct ActionRequest<'a, B: Backend> {
    pub action_id: String,
    pub scoped_backend: ScopedBackend<'a, B>,
    pub payload: Vec<u8>,
}

#[derive(Debug)]
pub enum ProviderError {
    BackendError { source: BackendError },
    ProviderError { message: String },
}

impl From<String> for ProviderError {
    fn from(message: String) -> (r: Self) {
        ProviderError::ProviderError { message }
    }
}

impl vstd::std_specs::convert::FromSpecImpl<String> for ProviderError {
    open spec fn obeys_from_spec() -> bool {
        true
    }

    open spec fn from_spec(v: String) -> ProviderError {
        ProviderError::ProviderError { message: v }
    }
}

/// The bytes of a provider's answer, or its error.
pub open spec fn answer_view(r: Result<Vec<u8>, ProviderError>) -> Result<Seq<u8>, ProviderError> {
    match r {
        Ok(v) => Ok(v@),
        Err(e) => Err(e),
    }
}

/// A cryptographic provider: performs named actions on the key under one scope.
pub trait Provider {
    /// The name under which the provider is registered.
    spec fn spec_name(&self) -> Seq<char>;

    /// The provider's version.
    spec fn spec_version(&self) -> Seq<char>;

    /// What an action may do: from a store that holds `before`, it leaves one
    /// that holds `after` and answers `result`.
    spec fn outcome(
        &self,
        action_id: Seq<char>,
        payload: Seq<u8>,
        scope: Seq<char>,
        before: Entries,
        after: Entries,
        result: Result<Seq<u8>, ProviderError>,
    ) -> bool;

    fn name(&self) -> (r: String)
        ensures
            r@ == self.spec_name(),
    ;

    fn version(&self) -> (r: String)
        ensures
            r@ == self.spec_version(),
    ;

    fn do_action<B: Backend>(&self, request: &mut ActionRequest<'_, B>) -> (r: Result<Vec<u8>, ProviderError>)
        ensures
            self.outcome(
                old(request).action_id@,
                old(request).payload@,
                old(request).scoped_backend.scope@,
                old(request).scoped_backend.entries(),
                final(request).scoped_backend.entries(),
                answer_view(r),
            ),
            *final(final(request).scoped_backend.backend) == *final(old(request).scoped_backend.backend),
            final(request).action_id@ == old(request).action_id@,
            final(request).payload@ == old(request).payload@,
            final(request).scoped_backend.scope@ == old(request).scoped_backend.scope@,
    ;
}

} // verus!
