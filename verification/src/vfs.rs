//! Virtual staging store: an in-memory mapping from logical path to byte
//! content, used to stage inputs for a run. Purely in-memory; nothing is
//! persisted across process restarts.

use vstd::prelude::*;
use vstd::hash_map::StringHashMap;
use vstd::slice::slice_to_vec;

verus! {

/// Error returned by the virtual staging store.
#[derive(Clone, Copy, PartialEq, Eq, Structural, Debug)]
pub enum VfsError {
    /// The requested path is absent from the store.
    NotFound,
}

/// In-memory path-to-bytes mapping. Its abstract value is a map from the
/// path's characters to the stored byte sequence.
pub struct VirtualFS {
    files: StringHashMap<Vec<u8>>,
}

impl View for VirtualFS {
    type V = Map<Seq<char>, Seq<u8>>;

    closed spec fn view(&self) -> Map<Seq<char>, Seq<u8>> {
        self.files@.map_values(|v: Vec<u8>| v@)
    }
}

impl VirtualFS {
    /// Creates an empty store.
    pub fn new() -> (result: Self)
        ensures
            result@ == Map::<Seq<char>, Seq<u8>>::empty(),
    {
        let fs = VirtualFS { files: StringHashMap::new() };
        proof {
            assert(fs@ =~= Map::<Seq<char>, Seq<u8>>::empty());
        }
        fs
    }

    /// Stores `content` under `path`, replacing any previous content
    /// (last writer wins). Never fails.
    pub fn write_file(&mut self, path: &str, content: &[u8]) -> (result: Result<(), VfsError>)
        ensures
            final(self)@ == old(self)@.insert(path@, content@),
            result is Ok,
    {
        let owned: Vec<u8> = slice_to_vec(content);
        self.files.insert(path.to_owned(), owned);
        proof {
            assert(self@ =~= old(self)@.insert(path@, content@));
        }
        Ok(())
    }

    /// Returns a copy of the content stored under `path`, or `NotFound` if
    /// the path is absent.
    pub fn read_file(&self, path: &str) -> (result: Result<Vec<u8>, VfsError>)
        ensures
            match result {
                Ok(content) => self@.contains_key(path@) && content@ == self@[path@],
                Err(e) => e == VfsError::NotFound && !self@.contains_key(path@),
            },
    {
        match self.files.get(path) {
            Some(v) => Ok(slice_to_vec(v.as_slice())),
            None => Err(VfsError::NotFound),
        }
    }

    /// Returns true if the store holds content under `path`.
    pub fn contains_file(&self, path: &str) -> (result: bool)
        ensures
            result == self@.contains_key(path@),
    {
        self.files.contains_key(path)
    }

    /// Removes the content stored under `path`; `NotFound` if the path is
    /// absent, in which case the store is unchanged.
    pub fn remove_file(&mut self, path: &str) -> (result: Result<(), VfsError>)
        ensures
            final(self)@ == old(self)@.remove(path@),
            result is Ok <==> old(self)@.contains_key(path@),
            result is Err ==> result == Result::<(), VfsError>::Err(VfsError::NotFound),
    {
        let present = self.files.contains_key(path);
        self.files.remove(path);
        proof {
            assert(self@ =~= old(self)@.remove(path@));
        }
        if present {
            Ok(())
        } else {
            Err(VfsError::NotFound)
        }
    }
}

} // verus!
