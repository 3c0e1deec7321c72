//! The dependency manager: a registry of named binaries and the paths
//! they were installed to.
//!
//! The record lives in memory here; the runtime loads it from and saves it
//! to the file named by `file_path`.

use vstd::prelude::*;

use crate::kvlist::{kv_get, kv_lookup, kv_unique, kv_upsert};

verus! {

#[derive(Clone, Copy, Debug, PartialEq, Eq, Structural)]
pub enum DependencyManagerError {
    NotFound,
}

pub struct DependencyManager {
    registered_paths: Vec<(String, String)>,
    file_path: String,
}

impl DependencyManager {
    /// Each name is registered at most once.
    pub closed spec fn wf(&self) -> bool {
        kv_unique(self.registered_paths@)
    }

    /// The registered name/path pairs, oldest first.
    pub closed spec fn entries(&self) -> Seq<(String, String)> {
        self.registered_paths@
    }

    pub fn new(file_path: &str) -> (r: DependencyManager)
        ensures
            r.wf(),
            r.entries() == Seq::<(String, String)>::empty(),
    {
        DependencyManager { registered_paths: Vec::new(), file_path: file_path.to_owned() }
    }

    /// Record where a dependency was installed. A name already registered
    /// is re-pointed at the new path; any other entry is untouched.
    pub fn register(&mut self, name: String, path: String) -> (r: Result<
        (),
        DependencyManagerError,
    >)
        requires
            old(self).wf(),
        ensures
            final(self).wf(),
            r is Ok,
            kv_lookup(final(self).entries(), name@) == Some(path@),
            forall|n: Seq<char>|
                n != name@ ==> kv_lookup(final(self).entries(), n) == kv_lookup(
                    old(self).entries(),
                    n,
                ),
    {
        kv_upsert(&mut self.registered_paths, name, path);
        Ok(())
    }

    /// The path a dependency was registered under, or `NotFound`.
    pub fn get(&self, name: &String) -> (r: Result<&String, DependencyManagerError>)
        ensures
            match r {
                Ok(p) => kv_lookup(self.entries(), name@) == Some(p@),
                Err(e) => e == DependencyManagerError::NotFound && kv_lookup(
                    self.entries(),
                    name@,
                ) is None,
            },
    {
        match kv_get(&self.registered_paths, name.as_str()) {
            Some(p) => Ok(p),
            None => Err(DependencyManagerError::NotFound),
        }
    }
}

} // verus!
