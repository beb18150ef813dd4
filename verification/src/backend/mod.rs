use super::KeyPath;
use vstd::prelude::*;

pub mod hashmap_backend;

verus! {

/// The contents of a store: the data held at each path.
pub type Entries = Map<Seq<char>, Seq<u8>>;

#[derive(Debug)]
pub enum BackendError {
    KeyNotFound { path: KeyPath },
    AlreadyExists { path: KeyPath },
}

impl BackendError {
    /// `self` reports that nothing is stored at `path`.
    pub open spec fn is_key_not_found(&self, path: Seq<char>) -> bool {
        match self {
            BackendError::KeyNotFound { path: p } => p@ == path,
            _ => false,
        }
    }

    /// `self` reports that something is already stored at `path`.
    pub open spec fn is_already_exists(&self, path: Seq<char>) -> bool {
        match self {
            BackendError::AlreadyExists { path: p } => p@ == path,
            _ => false,
        }
    }
}

/// How many bytes a read of `data` into a buffer of `dest_len` bytes copies.
pub open spec fn copy_len(data: Seq<u8>, dest_len: nat) -> nat {
    if data.len() <= dest_len {
        data.len()
    } else {
        dest_len
    }
}

/// The buffer `dest` after a read of `data` into it: its first bytes replaced
/// by as much of `data` as fits.
pub open spec fn copy_into(data: Seq<u8>, dest: Seq<u8>) -> Seq<u8> {
    let n = copy_len(data, dest.len()) as int;
    data.take(n) + dest.skip(n)
}

/// The result of reading `path` from `entries` into a buffer that held `before`,
/// and the buffer afterwards.
pub open spec fn read_meets(
    entries: Entries,
    path: Seq<char>,
    before: Seq<u8>,
    after: Seq<u8>,
    r: Result<usize, BackendError>,
) -> bool {
    match r {
        Ok(n) => {
            &&& entries.contains_key(path)
            &&& n == copy_len(entries[path], before.len())
            &&& after == copy_into(entries[path], before)
        },
        Err(e) => {
            &&& !entries.contains_key(path)
            &&& e.is_key_not_found(path)
            &&& after == before
        },
    }
}

/// Creating `path` with `data`: refused when the path is taken.
pub open spec fn create_meets(
    before: Entries,
    after: Entries,
    path: Seq<char>,
    data: Seq<u8>,
    r: Result<(), BackendError>,
) -> bool {
    if before.contains_key(path) {
        &&& r matches Err(e) && e.is_already_exists(path)
        &&& after == before
    } else {
        &&& r is Ok
        &&& after == before.insert(path, data)
    }
}

/// Replacing the data at `path`: refused when nothing is stored there.
pub open spec fn update_meets(
    before: Entries,
    after: Entries,
    path: Seq<char>,
    data: Seq<u8>,
    r: Result<(), BackendError>,
) -> bool {
    if before.contains_key(path) {
        &&& r is Ok
        &&& after == before.insert(path, data)
    } else {
        &&& r matches Err(e) && e.is_key_not_found(path)
        &&& after == before
    }
}

/// Removing `path`: refused when nothing is stored there.
pub open spec fn delete_meets(
    before: Entries,
    after: Entries,
    path: Seq<char>,
    r: Result<(), BackendError>,
) -> bool {
    if before.contains_key(path) {
        &&& r is Ok
        &&& after == before.remove(path)
    } else {
        &&& r matches Err(e) && e.is_key_not_found(path)
        &&& after == before
    }
}

/// A read gives back what a create stored: as much of the data as fits in the
/// buffer.
pub proof fn lemma_read_after_create(
    e0: Entries,
    e1: Entries,
    path: Seq<char>,
    data: Seq<u8>,
    before: Seq<u8>,
    after: Seq<u8>,
    r: Result<usize, BackendError>,
)
    requires
        create_meets(e0, e1, path, data, Ok(())),
        read_meets(e1, path, before, after, r),
    ensures
        r == Ok::<usize, BackendError>(copy_len(data, before.len()) as usize),
        after == copy_into(data, before),
{
}

/// A read gives back what an update stored.
pub proof fn lemma_read_after_update(
    e0: Entries,
    e1: Entries,
    path: Seq<char>,
    data: Seq<u8>,
    before: Seq<u8>,
    after: Seq<u8>,
    r: Result<usize, BackendError>,
)
    requires
        update_meets(e0, e1, path, data, Ok(())),
        read_meets(e1, path, before, after, r),
    ensures
        r == Ok::<usize, BackendError>(copy_len(data, before.len()) as usize),
        after == copy_into(data, before),
{
}

/// After a delete, a read of the same path finds nothing and leaves the buffer
/// as it was.
pub proof fn lemma_read_after_delete(
    e0: Entries,
    e1: Entries,
    path: Seq<char>,
    before: Seq<u8>,
    after: Seq<u8>,
    r: Result<usize, BackendError>,
)
    requires
        delete_meets(e0, e1, path, Ok(())),
        read_meets(e1, path, before, after, r),
    ensures
        r matches Err(e) && e.is_key_not_found(path),
        after == before,
{
}

/// Creating, updating or deleting one path leaves every other path as it was.
pub proof fn lemma_other_paths_unchanged(
    e0: Entries,
    e1: Entries,
    path: Seq<char>,
    data: Seq<u8>,
    other: Seq<char>,
    r: Result<(), BackendError>,
)
    requires
        create_meets(e0, e1, path, data, r) || update_meets(e0, e1, path, data, r) || delete_meets(
            e0,
            e1,
            path,
            r,
        ),
        other != path,
    ensures
        e1.contains_key(other) == e0.contains_key(other),
        e0.contains_key(other) ==> e1[other] == e0[other],
{
}

/// A store of byte strings by path.
pub trait Backend {
    /// What the store holds.
    spec fn entries(&self) -> Entries;

    /// Copies as much of the data at `path` as fits into `destination` and
    /// returns how many bytes it copied.
    fn read(&self, path: &KeyPath, destination: &mut [u8]) -> (r: Result<usize, BackendError>)
        ensures
            read_meets(self.entries(), path@, old(destination)@, final(destination)@, r),
    ;

    /// Stores `data` at a path that holds nothing yet.
    fn create(&mut self, path: &KeyPath, data: &[u8]) -> (r: Result<(), BackendError>)
        ensures
            create_meets(old(self).entries(), final(self).entries(), path@, data@, r),
    ;

    /// Replaces the data at a path that holds some.
    fn update(&mut self, path: &KeyPath, data: &[u8]) -> (r: Result<(), BackendError>)
        ensures
            update_meets(old(self).entries(), final(self).entries(), path@, data@, r),
    ;

    /// Removes the data at a path that holds some.
    fn delete(&mut self, path: &KeyPath) -> (r: Result<(), BackendError>)
        ensures
            delete_meets(old(self).entries(), final(self).entries(), path@, r),
    ;
}

/// A backend seen through one scope: every path is taken relative to `scope`.
pub struct ScopedBackend<'a, B: Backend> {
    pub backend: &'a mut B,
    pub scope: KeyPath,
}

impl<'a, B: Backend> ScopedBackend<'a, B> {
    /// What the underlying store holds.
    pub open spec fn entries(&self) -> Entries {
        self.backend.entries()
    }

    pub fn new(backend: &'a mut B, scope: KeyPath) -> (r: Self)
        ensures
            *r.backend == *old(backend),
            *final(r.backend) == *final(backend),
            r.scope@ == scope@,
    {
        ScopedBackend { backend, scope }
    }

    /// Reads the data at `child_path` under the scope.
    pub fn read(&self, child_path: &KeyPath, destination: &mut [u8]) -> (r: Result<usize, BackendError>)
        ensures
            read_meets(
                self.entries(),
                crate::path_join(self.scope@, child_path@),
                old(destination)@,
                final(destination)@,
                r,
            ),
    {
        let full_path = self.scope.join(child_path);
        self.backend.read(&full_path, destination)
    }

    /// Stores `data` at `child_path` under the scope.
    pub fn create(&mut self, child_path: &KeyPath, data: &[u8]) -> (r: Result<(), BackendError>)
        ensures
            create_meets(
                old(self).backend.entries(),
                final(self).backend.entries(),
                crate::path_join(old(self).scope@, child_path@),
                data@,
                r,
            ),
            final(self).scope@ == old(self).scope@,
            *final(final(self).backend) == *final(old(self).backend),
    {
        let full_path = self.scope.join(child_path);
        self.backend.create(&full_path, data)
    }

    /// Replaces the data at `child_path` under the scope.
    pub fn update(&mut self, child_path: &KeyPath, data: &[u8]) -> (r: Result<(), BackendError>)
        ensures
            update_meets(
                old(self).backend.entries(),
                final(self).backend.entries(),
                crate::path_join(old(self).scope@, child_path@),
                data@,
                r,
            ),
            final(self).scope@ == old(self).scope@,
            *final(final(self).backend) == *final(old(self).backend),
    {
        let full_path = self.scope.join(child_path);
        self.backend.update(&full_path, data)
    }

    /// Removes the data at `child_path` under the scope.
    pub fn delete(&mut self, child_path: &KeyPath) -> (r: Result<(), BackendError>)
        ensures
            delete_meets(
                old(self).backend.entries(),
                final(self).backend.entries(),
                crate::path_join(old(self).scope@, child_path@),
                r,
            ),
            final(self).scope@ == old(self).scope@,
            *final(final(self).backend) == *final(old(self).backend),
    {
        let full_path = self.scope.join(child_path);
        self.backend.delete(&full_path)
    }
}

} // verus!
