use super::KeyPath;
use crate::backend::{copy_into, copy_len, Entries};
use vstd::prelude::*;

verus! {

#[derive(Debug)]
pub enum SecretProviderError {
    KeyNotFound { path: KeyPath },
    AlreadyExists { path: KeyPath },
}

impl SecretProviderError {
    /// `self` reports that no secret is stored at `path`.
    pub open spec fn is_key_not_found(&self, path: Seq<char>) -> bool {
        match self {
            SecretProviderError::KeyNotFound { path: p } => p@ == path,
            _ => false,
        }
    }

    /// `self` reports that a secret is already stored at `path`.
    pub open spec fn is_already_exists(&self, path: Seq<char>) -> bool {
        match self {
            SecretProviderError::AlreadyExists { path: p } => p@ == path,
            _ => false,
        }
    }
}

/// Reading the secret at `path` into a buffer that held `before`.
pub open spec fn secret_read_meets(
    secrets: Entries,
    path: Seq<char>,
    before: Seq<u8>,
    after: Seq<u8>,
    r: Result<usize, SecretProviderError>,
) -> bool {
    match r {
        Ok(n) => {
            &&& secrets.contains_key(path)
            &&& n == copy_len(secrets[path], before.len())
            &&& after == copy_into(secrets[path], before)
        },
        Err(e) => {
            &&& !secrets.contains_key(path)
            &&& e.is_key_not_found(path)
            &&& after == before
        },
    }
}

/// Creating the secret at `path`: refused when the path is taken.
pub open spec fn secret_create_meets(
    before: Entries,
    after: Entries,
    path: Seq<char>,
    data: Seq<u8>,
    r: Result<(), SecretProviderError>,
) -> bool {
    if before.contains_key(path) {
        &&& r matches Err(e) && e.is_already_exists(path)
        &&& after == before
    } else {
        &&& r is Ok
        &&& after == before.insert(path, data)
    }
}

/// Replacing the secret at `path`: refused when none is stored there.
pub open spec fn secret_update_meets(
    before: Entries,
    after: Entries,
    path: Seq<char>,
    data: Seq<u8>,
    r: Result<(), SecretProviderError>,
) -> bool {
    if before.contains_key(path) {
        &&& r is Ok
        &&& after == before.insert(path, data)
    } else {
        &&& r matches Err(e) && e.is_key_not_found(path)
        &&& after == before
    }
}

/// Removing the secret at `path`: refused when none is stored there.
pub open spec fn secret_delete_meets(
    before: Entries,
    after: Entries,
    path: Seq<char>,
    r: Result<(), SecretProviderError>,
) -> bool {
    if before.contains_key(path) {
        &&& r is Ok
        &&& after == before.remove(path)
    } else {
        &&& r matches Err(e) && e.is_key_not_found(path)
        &&& after == before
    }
}

/// A read gives back the secret that a create stored, as far as it fits.
pub proof fn lemma_secret_read_after_create(
    e0: Entries,
    e1: Entries,
    path: Seq<char>,
    data: Seq<u8>,
    before: Seq<u8>,
    after: Seq<u8>,
    r: Result<usize, SecretProviderError>,
)
    requires
        secret_create_meets(e0, e1, path, data, Ok(())),
        secret_read_meets(e1, path, before, after, r),
    ensures
        r == Ok::<usize, SecretProviderError>(copy_len(data, before.len()) as usize),
        after == copy_into(data, before),
{
}

/// After a delete, a read of the same path finds no secret.
pub proof fn lemma_secret_read_after_delete(
    e0: Entries,
    e1: Entries,
    path: Seq<char>,
    before: Seq<u8>,
    after: Seq<u8>,
    r: Result<usize, SecretProviderError>,
)
    requires
        secret_delete_meets(e0, e1, path, Ok(())),
        secret_read_meets(e1, path, before, after, r),
    ensures
        r matches Err(e) && e.is_key_not_found(path),
        after == before,
{
}

/// A store of secrets by path.
pub trait SecretProvider {
    /// The secrets held, by path.
    spec fn secrets(&self) -> Entries;

    fn read(&self, path: &KeyPath, destination: &mut [u8]) -> (r: Result<usize, SecretProviderError>)
        ensures
            secret_read_meets(self.secrets(), path@, old(destination)@, final(destination)@, r),
    ;

    fn create(&mut self, path: &KeyPath, data: &[u8]) -> (r: Result<(), SecretProviderError>)
        ensures
            secret_create_meets(old(self).secrets(), final(self).secrets(), path@, data@, r),
    ;

    fn update(&mut self, path: &KeyPath, data: &[u8]) -> (r: Result<(), SecretProviderError>)
        ensures
            secret_update_meets(old(self).secrets(), final(self).secrets(), path@, data@, r),
    ;

    fn delete(&mut self, path: &KeyPath) -> (r: Result<(), SecretProviderError>)
        ensures
            secret_delete_meets(old(self).secrets(), final(self).secrets(), path@, r),
    ;
}

/// A secret provider seen through one scope: every path is taken relative to
/// `scope`.
pub struct ScopedSecretProvider<'a, S: SecretProvider> {
    pub secret_provider: &'a mut S,
    pub scope: KeyPath,
}

impl<'a, S: SecretProvider> ScopedSecretProvider<'a, S> {
    /// The secrets of the underlying provider.
    pub open spec fn secrets(&self) -> Entries {
        self.secret_provider.secrets()
    }

    pub fn new(secret_provider: &'a mut S, scope: KeyPath) -> (r: Self)
        ensures
            *r.secret_provider == *old(secret_provider),
            *final(r.secret_provider) == *final(secret_provider),
            r.scope@ == scope@,
    {
        ScopedSecretProvider { secret_provider, scope }
    }

    /// Reads the secret at `child_path` under the scope.
    pub fn read(&self, child_path: &KeyPath, destination: &mut [u8]) -> (r: Result<usize, SecretProviderError>)
        ensures
            secret_read_meets(
                self.secrets(),
                crate::path_join(self.scope@, child_path@),
                old(destination)@,
                final(destination)@,
                r,
            ),
    {
        let full_path = self.scope.join(child_path);
        self.secret_provider.read(&full_path, destination)
    }

    /// Stores a secret at `child_path` under the scope.
    pub fn create(&mut self, child_path: &KeyPath, data: &[u8]) -> (r: Result<(), SecretProviderError>)
        ensures
            secret_create_meets(
                old(self).secrets(),
                final(self).secrets(),
                crate::path_join(old(self).scope@, child_path@),
                data@,
                r,
            ),
            final(self).scope@ == old(self).scope@,
            *final(final(self).secret_provider) == *final(old(self).secret_provider),
    {
        let full_path = self.scope.join(child_path);
        self.secret_provider.create(&full_path, data)
    }

    /// Replaces the secret at `child_path` under the scope.
    pub fn update(&mut self, child_path: &KeyPath, data: &[u8]) -> (r: Result<(), SecretProviderError>)
        ensures
            secret_update_meets(
                old(self).secrets(),
                final(self).secrets(),
                crate::path_join(old(self).scope@, child_path@),
                data@,
                r,
            ),
            final(self).scope@ == old(self).scope@,
            *final(final(self).secret_provider) == *final(old(self).secret_provider),
    {
        let full_path = self.scope.join(child_path);
        self.secret_provider.update(&full_path, data)
    }

    /// Removes the secret at `child_path` under the scope.
    pub fn delete(&mut self, child_path: &KeyPath) -> (r: Result<(), SecretProviderError>)
        ensures
            secret_delete_meets(
                old(self).secrets(),
                final(self).secrets(),
                crate::path_join(old(self).scope@, child_path@),
                r,
            ),
            final(self).scope@ == old(self).scope@,
            *final(final(self).secret_provider) == *final(old(self).secret_provider),
    {
        let full_path = self.scope.join(child_path);
        self.secret_provider.delete(&full_path)
    }
}

} // verus!
