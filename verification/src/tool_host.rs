//! The loader contract between the shell and packaged tools, and the host's
//! bookkeeping: where a tool's loader lives, which tool modules are cached
//! and initialized, and how host failures are reported.
use vstd::prelude::*;
use vstd::string::*;

use crate::text::str_eq;

verus! {

/// Stable filename emitted alongside every packaged tool module.
///
/// The shell loads tools by importing `/tools/<slug>/loader.js`, which must
/// re-export the wasm-bindgen initialization function as the default export and
/// expose named `mount` and `unmount` functions for the runtime host.
pub const TOOL_LOADER_FILE_NAME: &'static str = "loader.js";

/// Named JS export exposed by the loader shim for mounting a tool.
pub const TOOL_MOUNT_EXPORT_NAME: &'static str = "mount";

/// Named JS export exposed by the loader shim for unmounting a tool.
pub const TOOL_UNMOUNT_EXPORT_NAME: &'static str = "unmount";

/// Default JS export exposed by the loader shim for wasm-bindgen initialization.
pub const TOOL_INIT_EXPORT_NAME: &'static str = "default";

/// The URL path of a tool's loader module.
pub open spec fn loader_path(slug: Seq<char>) -> Seq<char> {
    "/tools/"@ + slug + "/"@ + "loader.js"@
}

/// `/tools/<slug>/loader.js`.
pub fn tool_loader_path(slug: &str) -> (r: String)
    ensures
        r@ == loader_path(slug@),
{
    let mut path = String::from_str("/tools/");
    path.append(slug);
    path.append("/");
    path.append(TOOL_LOADER_FILE_NAME);
    path
}

/// Why the host could not load, initialize, mount or unmount a tool.
#[derive(Clone, Debug, PartialEq, Eq)]
pub enum ToolHostError {
    ImportFailed(String, String),
    InvalidModuleExport(String, String, String),
    InitFailed(String, String),
    MountFailed(String, String),
    UnmountFailed(String, String),
}

/// The text shown for a host failure.
pub open spec fn host_error_text(e: ToolHostError) -> Seq<char> {
    match e {
        ToolHostError::ImportFailed(path, m) => "failed to import `"@ + path@ + "`: "@ + m@,
        ToolHostError::InvalidModuleExport(slug, export, m) => "tool `"@ + slug@
            + "` exported invalid `"@ + export@ + "` loader binding: "@ + m@,
        ToolHostError::InitFailed(slug, m) => "tool `"@ + slug@ + "` failed to initialize: "@ + m@,
        ToolHostError::MountFailed(slug, m) => "tool `"@ + slug@ + "` failed to mount: "@ + m@,
        ToolHostError::UnmountFailed(slug, m) => "tool `"@ + slug@ + "` failed to unmount: "@
            + m@,
    }
}

/// `a + b + c + d`.
fn join4(a: &str, b: &str, c: &str, d: &str) -> (r: String)
    ensures
        r@ == a@ + b@ + c@ + d@,
{
    let mut s = String::from_str(a);
    s.append(b);
    s.append(c);
    s.append(d);
    s
}

impl ToolHostError {
    /// The human-readable description of the failure.
    pub fn message(&self) -> (r: String)
        ensures
            r@ == host_error_text(*self),
    {
        match self {
            ToolHostError::ImportFailed(path, m) => join4(
                "failed to import `",
                path.as_str(),
                "`: ",
                m.as_str(),
            ),
            ToolHostError::InvalidModuleExport(slug, export, m) => {
                let mut s = join4("tool `", slug.as_str(), "` exported invalid `", export.as_str());
                s.append("` loader binding: ");
                s.append(m.as_str());
                s
            },
            ToolHostError::InitFailed(slug, m) => join4(
                "tool `",
                slug.as_str(),
                "` failed to initialize: ",
                m.as_str(),
            ),
            ToolHostError::MountFailed(slug, m) => join4(
                "tool `",
                slug.as_str(),
                "` failed to mount: ",
                m.as_str(),
            ),
            ToolHostError::UnmountFailed(slug, m) => join4(
                "tool `",
                slug.as_str(),
                "` failed to unmount: ",
                m.as_str(),
            ),
        }
    }
}

/// What the host shows for a tool: a skeleton while loading, nothing once
/// mounted, or the failure with a retry button.
#[derive(Clone, Debug, PartialEq, Eq)]
pub enum ToolHostStatus {
    Loading,
    Ready,
    Error(String),
}

/// The status that follows a load-and-mount attempt.
pub fn status_after_load(result: &Result<(), ToolHostError>) -> (s: ToolHostStatus)
    ensures
        match result {
            Ok(()) => s == ToolHostStatus::Ready,
            Err(e) => s matches ToolHostStatus::Error(m) && m@ == host_error_text(*e),
        },
{
    match result {
        Ok(()) => ToolHostStatus::Ready,
        Err(e) => ToolHostStatus::Error(e.message()),
    }
}

/// One imported tool module: its slug, its module namespace and whether its
/// initialization function has completed.
struct CachedToolModule<N> {
    slug: String,
    namespace: N,
    initialized: bool,
}

/// The modules the host has imported, keyed by tool slug; `N` is the
/// module-namespace handle of the JavaScript host.
pub struct ToolModuleCache<N> {
    entries: Vec<CachedToolModule<N>>,
}

/// Position of the entry for `slug` (meaningful when there is one).
spec fn index_of<N>(s: Seq<CachedToolModule<N>>, slug: Seq<char>) -> int {
    choose|i: int| 0 <= i < s.len() && s[i].slug@ == slug
}

/// The slugs of the entries are pairwise distinct.
spec fn distinct_slugs<N>(s: Seq<CachedToolModule<N>>) -> bool {
    forall|i: int, j: int| 0 <= i < s.len() && 0 <= j < s.len() && i != j ==> s[i].slug@ != s[j].slug@
}

/// The cache as a map from slug to (namespace, initialized).
spec fn entries_map<N>(s: Seq<CachedToolModule<N>>) -> Map<Seq<char>, (N, bool)> {
    Map::new(
        |k: Seq<char>| exists|i: int| 0 <= i < s.len() && s[i].slug@ == k,
        |k: Seq<char>| (s[index_of(s, k)].namespace, s[index_of(s, k)].initialized),
    )
}

proof fn lemma_index_of<N>(s: Seq<CachedToolModule<N>>, i: int)
    requires
        distinct_slugs(s),
        0 <= i < s.len(),
    ensures
        index_of(s, s[i].slug@) == i,
        entries_map(s).contains_key(s[i].slug@),
        entries_map(s)[s[i].slug@] == (s[i].namespace, s[i].initialized),
{
    let k = s[i].slug@;
    assert(0 <= i < s.len() && s[i].slug@ == k);
    let j = index_of(s, k);
    assert(0 <= j < s.len() && s[j].slug@ == k);
}

/// Removing entry `i` removes its slug from the map.
proof fn lemma_remove_entry<N>(s: Seq<CachedToolModule<N>>, i: int)
    requires
        distinct_slugs(s),
        0 <= i < s.len(),
    ensures
        distinct_slugs(s.remove(i)),
        entries_map(s.remove(i)) == entries_map(s).remove(s[i].slug@),
{
    let r = s.remove(i);
    let k = s[i].slug@;
    assert forall|a: int, b: int| 0 <= a < r.len() && 0 <= b < r.len() && a != b implies r[a].slug@
        != r[b].slug@ by {
        let a2 = if a < i { a } else { a + 1 };
        let b2 = if b < i { b } else { b + 1 };
        assert(r[a] == s[a2]);
        assert(r[b] == s[b2]);
    }
    assert forall|key: Seq<char>| #[trigger] entries_map(r).contains_key(key) <==> entries_map(
        s,
    ).remove(k).contains_key(key) by {
        if entries_map(r).contains_key(key) {
            let a = choose|a: int| 0 <= a < r.len() && r[a].slug@ == key;
            let a2 = if a < i { a } else { a + 1 };
            assert(r[a] == s[a2]);
            assert(a2 != i);
        }
        if entries_map(s).remove(k).contains_key(key) {
            let a = choose|a: int| 0 <= a < s.len() && s[a].slug@ == key;
            assert(a != i);
            let a2 = if a < i { a } else { a - 1 };
            assert(r[a2] == s[a]);
        }
    }
    assert forall|key: Seq<char>| #[trigger] entries_map(r).contains_key(key) implies entries_map(
        r,
    )[key] == entries_map(s).remove(k)[key] by {
        let a = choose|a: int| 0 <= a < r.len() && r[a].slug@ == key;
        let a2 = if a < i { a } else { a + 1 };
        assert(r[a] == s[a2]);
        lemma_index_of(r, a);
        lemma_index_of(s, a2);
    }
    assert(entries_map(r) =~= entries_map(s).remove(k));
}

/// Appending an entry with a fresh slug adds it to the map.
proof fn lemma_push_entry<N>(s: Seq<CachedToolModule<N>>, e: CachedToolModule<N>)
    requires
        distinct_slugs(s),
        forall|i: int| 0 <= i < s.len() ==> s[i].slug@ != e.slug@,
    ensures
        distinct_slugs(s.push(e)),
        entries_map(s.push(e)) == entries_map(s).insert(e.slug@, (e.namespace, e.initialized)),
{
    let r = s.push(e);
    assert forall|a: int, b: int| 0 <= a < r.len() && 0 <= b < r.len() && a != b implies r[a].slug@
        != r[b].slug@ by {}
    assert forall|key: Seq<char>| #[trigger] entries_map(r).contains_key(key) <==> entries_map(
        s,
    ).insert(e.slug@, (e.namespace, e.initialized)).contains_key(key) by {
        if entries_map(r).contains_key(key) {
            let a = choose|a: int| 0 <= a < r.len() && r[a].slug@ == key;
            if a < s.len() {
                assert(r[a] == s[a]);
            }
        }
        if entries_map(s).contains_key(key) {
            let a = choose|a: int| 0 <= a < s.len() && s[a].slug@ == key;
            assert(r[a] == s[a]);
        }
        if key == e.slug@ {
            assert(r[s.len() as int] == e);
        }
    }
    assert forall|key: Seq<char>| #[trigger] entries_map(r).contains_key(key) implies entries_map(
        r,
    )[key] == entries_map(s).insert(e.slug@, (e.namespace, e.initialized))[key] by {
        let a = choose|a: int| 0 <= a < r.len() && r[a].slug@ == key;
        lemma_index_of(r, a);
        if a < s.len() {
            assert(r[a] == s[a]);
            lemma_index_of(s, a);
        }
    }
    assert(entries_map(r) =~= entries_map(s).insert(e.slug@, (e.namespace, e.initialized)));
}

impl<N> View for ToolModuleCache<N> {
    type V = Map<Seq<char>, (N, bool)>;

    closed spec fn view(&self) -> Map<Seq<char>, (N, bool)> {
        entries_map(self.entries@)
    }
}

impl<N> ToolModuleCache<N> {
    /// No two entries share a slug.
    pub closed spec fn wf(&self) -> bool {
        distinct_slugs(self.entries@)
    }

    /// An empty cache.
    pub fn new() -> (c: ToolModuleCache<N>)
        ensures
            c.wf(),
            c@ == Map::<Seq<char>, (N, bool)>::empty(),
    {
        let c = ToolModuleCache { entries: Vec::new() };
        assert(c@ =~= Map::<Seq<char>, (N, bool)>::empty());
        c
    }

    /// Position of the entry for `slug`, if there is one.
    fn position(&self, slug: &str) -> (r: Option<usize>)
        requires
            self.wf(),
        ensures
            match r {
                Some(i) => i < self.entries@.len() && self.entries@[i as int].slug@ == slug@,
                None => forall|i: int|
                    0 <= i < self.entries@.len() ==> #[trigger] self.entries@[i].slug@ != slug@,
            },
    {
        let mut i: usize = 0;
        while i < self.entries.len()
            invariant
                i <= self.entries@.len(),
                forall|j: int| 0 <= j < i ==> #[trigger] self.entries@[j].slug@ != slug@,
            decreases self.entries.len() - i,
        {
            if str_eq(self.entries[i].slug.as_str(), slug) {
                return Some(i);
            }
            i = i + 1;
        }
        None
    }

    /// The cached namespace of `slug`.
    pub fn namespace(&self, slug: &str) -> (r: Option<&N>)
        requires
            self.wf(),
        ensures
            match r {
                Some(n) => self@.contains_key(slug@) && *n == self@[slug@].0,
                None => !self@.contains_key(slug@),
            },
    {
        match self.position(slug) {
            Some(i) => {
                proof {
                    lemma_index_of(self.entries@, i as int);
                }
                Some(&self.entries[i].namespace)
            },
            None => None,
        }
    }

    /// Whether `slug` is cached and its initialization has completed.
    pub fn is_initialized(&self, slug: &str) -> (r: bool)
        requires
            self.wf(),
        ensures
            r == (self@.contains_key(slug@) && self@[slug@].1),
    {
        match self.position(slug) {
            Some(i) => {
                proof {
                    lemma_index_of(self.entries@, i as int);
                }
                self.entries[i].initialized
            },
            None => false,
        }
    }

    /// Records a freshly imported module, replacing any earlier entry.
    pub fn insert(&mut self, slug: &str, namespace: N)
        requires
            old(self).wf(),
        ensures
            final(self).wf(),
            final(self)@ == old(self)@.insert(slug@, (namespace, false)),
    {
        if let Some(i) = self.position(slug) {
            proof {
                lemma_remove_entry(self.entries@, i as int);
            }
            let _old = self.entries.remove(i);
        }
        let ghost before = self.entries@;
        assert(forall|i: int| 0 <= i < before.len() ==> #[trigger] before[i].slug@ != slug@) by {
            if exists|i: int| 0 <= i < before.len() && #[trigger] before[i].slug@ == slug@ {
                let i = choose|i: int| 0 <= i < before.len() && #[trigger] before[i].slug@ == slug@;
                assert(entries_map(before).contains_key(slug@));
            }
        }
        let entry = CachedToolModule { slug: slug.to_owned(), namespace, initialized: false };
        proof {
            lemma_push_entry(before, entry);
        }
        self.entries.push(entry);
        assert(self@ =~= old(self)@.insert(slug@, (namespace, false)));
    }

    /// Marks the module of `slug` as initialized; nothing changes when it is not cached.
    pub fn mark_initialized(&mut self, slug: &str)
        requires
            old(self).wf(),
        ensures
            final(self).wf(),
            final(self)@ == if old(self)@.contains_key(slug@) {
                old(self)@.insert(slug@, (old(self)@[slug@].0, true))
            } else {
                old(self)@
            },
    {
        if let Some(i) = self.position(slug) {
            proof {
                lemma_index_of(self.entries@, i as int);
                lemma_remove_entry(self.entries@, i as int);
            }
            let mut entry = self.entries.remove(i);
            entry.initialized = true;
            let ghost before = self.entries@;
            assert(forall|j: int| 0 <= j < before.len() ==> #[trigger] before[j].slug@ != slug@) by {
                if exists|j: int| 0 <= j < before.len() && #[trigger] before[j].slug@ == slug@ {
                    let j = choose|j: int| 0 <= j < before.len() && #[trigger] before[j].slug@ == slug@;
                    assert(entries_map(before).contains_key(slug@));
                }
            }
            proof {
                lemma_push_entry(before, entry);
            }
            self.entries.push(entry);
            assert(self@ =~= old(self)@.insert(slug@, (old(self)@[slug@].0, true)));
        }
    }

    /// Forgets the module of `slug`, so the next load imports it again.
    pub fn remove(&mut self, slug: &str)
        requires
            old(self).wf(),
        ensures
            final(self).wf(),
            final(self)@ == old(self)@.remove(slug@),
    {
        match self.position(slug) {
            Some(i) => {
                proof {
                    lemma_remove_entry(self.entries@, i as int);
                }
                let _old = self.entries.remove(i);
            },
            None => {
                assert(self@ =~= old(self)@.remove(slug@));
            },
        }
    }
}

} // verus!
