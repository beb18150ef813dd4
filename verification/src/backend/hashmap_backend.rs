use crate::backend::{copy_into, copy_len, Backend, BackendError, Entries};
use crate::KeyPath;
use vstd::hash_map::StringHashMap;
use vstd::prelude::*;

verus! {

/// A backend that keeps its entries in memory, keyed by the text of the path.
pub struct HashMapBackend {
    pub store: StringHashMap<Vec<u8>>,
}

impl Backend for HashMapBackend {
    open spec fn entries(&self) -> Entries {
        self.store@.map_values(|v: Vec<u8>| v@)
    }

    fn read(&self, path: &KeyPath, destination: &mut [u8]) -> (r: Result<usize, BackendError>) {
        match self.store.get(path.as_str()) {
            Some(data) => {
                let len = if data.len() <= destination.len() {
                    data.len()
                } else {
                    destination.len()
                };
                let ghost before = destination@;
                let mut i: usize = 0;
                while i < len
                    invariant
                        len <= data@.len(),
                        len <= before.len(),
                        i <= len,
                        destination@.len() == before.len(),
                        forall|j: int| 0 <= j < i ==> destination@[j] == data@[j],
                        forall|j: int| i <= j < before.len() ==> destination@[j] == before[j],
                    decreases len - i,
                {
                    destination[i] = data[i];
                    i = i + 1;
                }
                assert(destination@ =~= copy_into(data@, before));
                Ok(len)
            },
            None => Err(BackendError::KeyNotFound { path: path.duplicate() }),
        }
    }

    fn create(&mut self, path: &KeyPath, data: &[u8]) -> (r: Result<(), BackendError>) {
        if self.store.contains_key(path.as_str()) {
            return Err(BackendError::AlreadyExists { path: path.duplicate() });
        }
        self.store.insert(path.as_str().to_string(), vstd::slice::slice_to_vec(data));
        assert(self.entries() =~= old(self).entries().insert(path@, data@));
        Ok(())
    }

    fn update(&mut self, path: &KeyPath, data: &[u8]) -> (r: Result<(), BackendError>) {
        if self.store.contains_key(path.as_str()) {
            self.store.insert(path.as_str().to_string(), vstd::slice::slice_to_vec(data));
            assert(self.entries() =~= old(self).entries().insert(path@, data@));
            Ok(())
        } else {
            Err(BackendError::KeyNotFound { path: path.duplicate() })
        }
    }

    fn delete(&mut self, path: &KeyPath) -> (r: Result<(), BackendError>) {
        if self.store.contains_key(path.as_str()) {
            self.store.remove(path.as_str());
            assert(self.entries() =~= old(self).entries().remove(path@));
            Ok(())
        } else {
            Err(BackendError::KeyNotFound { path: path.duplicate() })
        }
    }
}

} // verus!
