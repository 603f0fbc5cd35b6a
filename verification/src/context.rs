//! Per-tool runtime context: the namespace under which a tool keeps its
//! browser storage entries.
use vstd::prelude::*;
use vstd::string::*;

verus! {

/// The namespace a tool's local-storage keys live under.
#[derive(Clone, Debug, PartialEq, Eq)]
pub struct Context {
    storage_namespace: String,
}

impl View for Context {
    type V = Seq<char>;

    closed spec fn view(&self) -> Seq<char> {
        self.storage_namespace@
    }
}

impl Context {
    /// A context whose storage namespace is `storage_namespace`.
    pub fn new(storage_namespace: &str) -> (c: Context)
        ensures
            c@ == storage_namespace@,
    {
        Context { storage_namespace: storage_namespace.to_owned() }
    }

    /// The storage namespace.
    pub fn storage_namespace(&self) -> (r: &str)
        ensures
            r@ == self@,
    {
        self.storage_namespace.as_str()
    }

    /// The namespaced storage key `<namespace>:<key>`.
    pub fn storage_key(&self, key: &str) -> (r: String)
        ensures
            r@ == self@ + ":"@ + key@,
    {
        let mut s = self.storage_namespace.clone();
        s.append(":");
        s.append(key);
        s
    }
}

} // verus!
