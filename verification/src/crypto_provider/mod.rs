use crate::backend::Entries;
use crate::secret_provider::{ScopedSecretProvider, SecretProvider, SecretProviderError};
use vstd::prelude::*;

verus! {

/// An action asked of a crypto provider, with the secrets of the key that it
/// acts on.
pub struct ActionRequest<'a, S: SecretProvider> {
    pub action_id: String,
    pub scoped_secret_provider: ScopedSecretProvider<'a, S>,
    pub payload: Vec<u8>,
}

#[derive(Debug)]
pub enum CryptoProviderError {
    SecretProviderError { source: SecretProviderError },
    CryptoProviderError { message: String },
}

impl From<String> for CryptoProviderError {
    fn from(s: String) -> (r: Self) {
        CryptoProviderError::CryptoProviderError { message: s }
    }
}

impl vstd::std_specs::convert::FromSpecImpl<String> for CryptoProviderError {
    open spec fn obeys_from_spec() -> bool {
        true
    }

    open spec fn from_spec(v: String) -> CryptoProviderError {
        CryptoProviderError::CryptoProviderError { message: v }
    }
}

/// The bytes of a crypto provider's answer, or its error.
pub open spec fn crypto_answer_view(r: Result<Vec<u8>, CryptoProviderError>) -> Result<
    Seq<u8>,
    CryptoProviderError,
> {
    match r {
        Ok(v) => Ok(v@),
        Err(e) => Err(e),
    }
}

/// A cryptographic provider over a secret provider: performs named actions on
/// the secret under one scope.
pub trait CryptoProvider {
    /// What an action may do: from secrets `before`, it leaves `after` and
    /// answers `result`.
    spec fn outcome(
        &self,
        action_id: Seq<char>,
        payload: Seq<u8>,
        scope: Seq<char>,
        before: Entries,
        after: Entries,
        result: Result<Seq<u8>, CryptoProviderError>,
    ) -> bool;

    spec fn spec_name(&self) -> Seq<char>;

    spec fn spec_version(&self) -> Seq<char>;

    fn do_action<S: SecretProvider>(&self, request: &mut ActionRequest<'_, S>) -> (r: Result<
        Vec<u8>,
        CryptoProviderError,
    >)
        ensures
            self.outcome(
                old(request).action_id@,
                old(request).payload@,
                old(request).scoped_secret_provider.scope@,
                old(request).scoped_secret_provider.secrets(),
                final(request).scoped_secret_provider.secrets(),
                crypto_answer_view(r),
            ),
            *final(final(request).scoped_secret_provider.secret_provider)
                == *final(old(request).scoped_secret_provider.secret_provider),
            final(request).action_id@ == old(request).action_id@,
            final(request).payload@ == old(request).payload@,
            final(request).scoped_secret_provider.scope@ == old(request).scoped_secret_provider.scope@,
    ;

    fn name(&self) -> (r: String)
        ensures
            r@ == self.spec_name(),
    ;

    fn version(&self) -> (r: String)
        ensures
            r@ == self.spec_version(),
    ;
}

} // verus!
