//! The catalog the shell serves at run time, loaded from `registry.json`,
//! with the lookups and searches the pages use.
use vstd::prelude::*;
use vstd::string::*;

use crate::registry::ToolRegistry;
use crate::text::{
    chars_eq, chars_of, contains_chars, contains_ignore_case, contains_ignore_case_chars,
    contains_seq, decimal_seq, decimal_string, eq_ignore_case, eq_ignore_case_str, lower_chars,
    lower_seq, trim_chars, trim_seq,
};
use crate::types::{category_slug, copy_metas, metas_view, Category, ToolMeta, ToolMetaView};

verus! {

/// One step of filtering a growing prefix.
pub proof fn lemma_take_filter_step<A>(s: Seq<A>, p: spec_fn(A) -> bool, i: int)
    requires
        0 <= i < s.len(),
    ensures
        s.take(i + 1).filter(p) == if p(s[i]) {
            s.take(i).filter(p).push(s[i])
        } else {
            s.take(i).filter(p)
        },
{
    assert(s.take(i + 1) =~= s.take(i).push(s[i]));
    s.take(i).lemma_filter_push(s[i], p);
}

/// Some tag of `t` equals `tag` up to ASCII case.
pub open spec fn has_tag(t: ToolMetaView, tag: Seq<char>) -> bool {
    exists|k: int| 0 <= k < t.tags.len() && eq_ignore_case(#[trigger] t.tags[k], tag)
}

/// Some tag of `t` contains `q` up to ASCII case.
pub open spec fn tag_contains(t: ToolMetaView, q: Seq<char>) -> bool {
    exists|k: int| 0 <= k < t.tags.len() && contains_ignore_case(#[trigger] t.tags[k], q)
}

/// The header search hit: the name or a tag contains the query.
pub open spec fn name_or_tag_hit(t: ToolMetaView, q: Seq<char>) -> bool {
    contains_ignore_case(t.name, q) || tag_contains(t, q)
}

/// The full-text hit: id, slug, name, description, category slug or a tag
/// contains the query.
pub open spec fn full_text_hit(t: ToolMetaView, q: Seq<char>) -> bool {
    ||| contains_ignore_case(t.id, q)
    ||| contains_ignore_case(t.slug, q)
    ||| contains_ignore_case(t.name, q)
    ||| contains_ignore_case(t.description, q)
    ||| contains_seq(crate::types::category_slug(t.category), lower_seq(q))
    ||| tag_contains(t, q)
}

/// The category whose slug is `slug`, ignoring surrounding whitespace and ASCII case.
pub open spec fn category_for_slug(slug: Seq<char>) -> Option<Category> {
    let s = lower_seq(trim_seq(slug));
    if s == "utilities"@ {
        Some(Category::Utilities)
    } else if s == "math"@ {
        Some(Category::Math)
    } else if s == "text"@ {
        Some(Category::Text)
    } else if s == "developer"@ {
        Some(Category::Developer)
    } else if s == "media"@ {
        Some(Category::Media)
    } else if s == "productivity"@ {
        Some(Category::Productivity)
    } else {
        None
    }
}

/// Index of the first tool whose slug equals `slug` up to ASCII case.
pub open spec fn is_first_slug_match(tools: Seq<ToolMetaView>, slug: Seq<char>, k: int) -> bool {
    &&& 0 <= k < tools.len()
    &&& eq_ignore_case(tools[k].slug, slug)
    &&& forall|j: int| 0 <= j < k ==> !eq_ignore_case(#[trigger] tools[j].slug, slug)
}

/// The tools loaded into the shell, in registry order.
#[derive(Clone, Debug, PartialEq, Eq)]
pub struct RuntimeRegistry {
    tools: Vec<ToolMeta>,
}

impl View for RuntimeRegistry {
    type V = Seq<ToolMetaView>;

    closed spec fn view(&self) -> Seq<ToolMetaView> {
        metas_view(self.tools@)
    }
}

/// Whether some tag of `t` equals `tag` up to ASCII case.
fn tool_has_tag(t: &ToolMeta, tag: &str) -> (r: bool)
    ensures
        r == has_tag(t@, tag@),
{
    let mut k: usize = 0;
    while k < t.tags.len()
        invariant
            k <= t@.tags.len(),
            forall|j: int| 0 <= j < k ==> !eq_ignore_case(#[trigger] t@.tags[j], tag@),
        decreases t.tags.len() - k,
    {
        if eq_ignore_case_str(t.tags[k].as_str(), tag) {
            assert(eq_ignore_case(t@.tags[k as int], tag@));
            return true;
        }
        k = k + 1;
    }
    false
}

/// Whether some tag of `t` contains `q` up to ASCII case.
fn tool_tag_contains(t: &ToolMeta, q: &Vec<char>) -> (r: bool)
    ensures
        r == tag_contains(t@, q@),
{
    let mut k: usize = 0;
    while k < t.tags.len()
        invariant
            k <= t@.tags.len(),
            forall|j: int| 0 <= j < k ==> !contains_ignore_case(#[trigger] t@.tags[j], q@),
        decreases t.tags.len() - k,
    {
        if contains_ignore_case_chars(&chars_of(t.tags[k].as_str()), q) {
            assert(contains_ignore_case(t@.tags[k as int], q@));
            return true;
        }
        k = k + 1;
    }
    false
}

/// Whether the text of `s` contains `q` up to ASCII case.
fn str_contains_ignore_case(s: &str, q: &Vec<char>) -> (r: bool)
    ensures
        r == contains_ignore_case(s@, q@),
{
    contains_ignore_case_chars(&chars_of(s), q)
}

/// The header search predicate.
fn name_or_tag_matches(t: &ToolMeta, q: &Vec<char>) -> (r: bool)
    ensures
        r == name_or_tag_hit(t@, q@),
{
    str_contains_ignore_case(t.name.as_str(), q) || tool_tag_contains(t, q)
}

/// The full-text search predicate.
fn full_text_matches(t: &ToolMeta, q: &Vec<char>) -> (r: bool)
    ensures
        r == full_text_hit(t@, q@),
{
    if str_contains_ignore_case(t.id.as_str(), q) || str_contains_ignore_case(t.slug.as_str(), q)
        || str_contains_ignore_case(t.name.as_str(), q) || str_contains_ignore_case(
        t.description.as_str(),
        q,
    ) {
        return true;
    }
    let lowered = lower_chars(q);
    if contains_chars(&chars_of(t.category.as_str()), &lowered) {
        return true;
    }
    tool_tag_contains(t, q)
}

/// The category a slug names, ignoring surrounding whitespace and ASCII case.
pub fn category_from_slug(slug: &str) -> (r: Option<Category>)
    ensures
        r == category_for_slug(slug@),
{
    let s = lower_chars(&trim_chars(&chars_of(slug)));
    if chars_eq(&s, &chars_of("utilities")) {
        Some(Category::Utilities)
    } else if chars_eq(&s, &chars_of("math")) {
        Some(Category::Math)
    } else if chars_eq(&s, &chars_of("text")) {
        Some(Category::Text)
    } else if chars_eq(&s, &chars_of("developer")) {
        Some(Category::Developer)
    } else if chars_eq(&s, &chars_of("media")) {
        Some(Category::Media)
    } else if chars_eq(&s, &chars_of("productivity")) {
        Some(Category::Productivity)
    } else {
        None
    }
}

impl RuntimeRegistry {
    /// A catalog holding exactly `tools`.
    pub fn new(tools: Vec<ToolMeta>) -> (r: RuntimeRegistry)
        ensures
            r@ == metas_view(tools@),
    {
        RuntimeRegistry { tools }
    }

    /// The catalog of the tools a registry declares, in the same order.
    pub fn from_tool_registry(registry: ToolRegistry) -> (r: RuntimeRegistry)
        ensures
            r@ == registry@.map_values(|t: crate::registry::RegisteredToolView| t.meta),
    {
        let mut tools: Vec<ToolMeta> = Vec::new();
        let mut i: usize = 0;
        while i < registry.tools.len()
            invariant
                i <= registry.tools@.len(),
                tools@.len() == i,
                forall|j: int| 0 <= j < i ==> #[trigger] tools@[j]@ == registry.tools@[j].meta@,
            decreases registry.tools.len() - i,
        {
            tools.push(registry.tools[i].meta.clone());
            i = i + 1;
        }
        let r = RuntimeRegistry { tools };
        assert(r@ =~= registry@.map_values(|t: crate::registry::RegisteredToolView| t.meta));
        r
    }

    /// Every tool, in catalog order.
    pub fn tools(&self) -> (r: &[ToolMeta])
        ensures
            metas_view(r@) == self@,
    {
        self.tools.as_slice()
    }

    /// The tools filed under `category`.
    pub fn by_category(&self, category: &Category) -> (r: Vec<ToolMeta>)
        ensures
            metas_view(r@) == self@.filter(|t: ToolMetaView| t.category == *category),
    {
        let ghost p = |t: ToolMetaView| t.category == *category;
        let mut r: Vec<ToolMeta> = Vec::new();
        let mut i: usize = 0;
        while i < self.tools.len()
            invariant
                i <= self@.len(),
                metas_view(r@) == self@.take(i as int).filter(p),
                p == (|t: ToolMetaView| t.category == *category),
            decreases self.tools.len() - i,
        {
            proof {
                lemma_take_filter_step(self@, p, i as int);
            }
            if self.tools[i].category == *category {
                let t = self.tools[i].clone();
                r.push(t);
                assert(metas_view(r@) =~= self@.take(i as int).filter(p).push(self@[i as int]));
            }
            i = i + 1;
        }
        assert(self@.take(self@.len() as int) =~= self@);
        r
    }

    /// The tools whose category slug equals `category_slug` up to ASCII case.
    pub fn by_category_slug(&self, category_slug: &str) -> (r: Vec<ToolMeta>)
        ensures
            metas_view(r@) == self@.filter(
                |t: ToolMetaView| eq_ignore_case(crate::types::category_slug(t.category), category_slug@),
            ),
    {
        let ghost p = |t: ToolMetaView|
            eq_ignore_case(crate::types::category_slug(t.category), category_slug@);
        let mut r: Vec<ToolMeta> = Vec::new();
        let mut i: usize = 0;
        while i < self.tools.len()
            invariant
                i <= self@.len(),
                metas_view(r@) == self@.take(i as int).filter(p),
                p == (|t: ToolMetaView|
                    eq_ignore_case(crate::types::category_slug(t.category), category_slug@)),
            decreases self.tools.len() - i,
        {
            proof {
                lemma_take_filter_step(self@, p, i as int);
            }
            if eq_ignore_case_str(self.tools[i].category.as_str(), category_slug) {
                let t = self.tools[i].clone();
                r.push(t);
                assert(metas_view(r@) =~= self@.take(i as int).filter(p).push(self@[i as int]));
            }
            i = i + 1;
        }
        assert(self@.take(self@.len() as int) =~= self@);
        r
    }

    /// The first tool whose slug equals `slug` up to ASCII case.
    pub fn by_slug(&self, slug: &str) -> (r: Option<ToolMeta>)
        ensures
            match r {
                Some(t) => exists|k: int| is_first_slug_match(self@, slug@, k) && t@ == self@[k],
                None => forall|k: int| 0 <= k < self@.len() ==> !eq_ignore_case(#[trigger] self@[k].slug, slug@),
            },
    {
        let mut i: usize = 0;
        while i < self.tools.len()
            invariant
                i <= self@.len(),
                forall|j: int| 0 <= j < i ==> !eq_ignore_case(#[trigger] self@[j].slug, slug@),
            decreases self.tools.len() - i,
        {
            if eq_ignore_case_str(self.tools[i].slug.as_str(), slug) {
                let t = self.tools[i].clone();
                assert(is_first_slug_match(self@, slug@, i as int));
                return Some(t);
            }
            i = i + 1;
        }
        None
    }

    /// The tools carrying `tag`, compared up to ASCII case.
    pub fn by_tag(&self, tag: &str) -> (r: Vec<ToolMeta>)
        ensures
            metas_view(r@) == self@.filter(|t: ToolMetaView| has_tag(t, tag@)),
    {
        let ghost p = |t: ToolMetaView| has_tag(t, tag@);
        let mut r: Vec<ToolMeta> = Vec::new();
        let mut i: usize = 0;
        while i < self.tools.len()
            invariant
                i <= self@.len(),
                metas_view(r@) == self@.take(i as int).filter(p),
                p == (|t: ToolMetaView| has_tag(t, tag@)),
            decreases self.tools.len() - i,
        {
            proof {
                lemma_take_filter_step(self@, p, i as int);
            }
            if tool_has_tag(&self.tools[i], tag) {
                let t = self.tools[i].clone();
                r.push(t);
                assert(metas_view(r@) =~= self@.take(i as int).filter(p).push(self@[i as int]));
            }
            i = i + 1;
        }
        assert(self@.take(self@.len() as int) =~= self@);
        r
    }

    /// The header search: nothing for a blank query, otherwise the tools whose
    /// name or one of whose tags contains the trimmed query, ignoring ASCII case.
    pub fn search_by_name_and_tags(&self, query: &str) -> (r: Vec<ToolMeta>)
        ensures
            trim_seq(query@).len() == 0 ==> r@.len() == 0,
            trim_seq(query@).len() != 0 ==> metas_view(r@) == self@.filter(
                |t: ToolMetaView| name_or_tag_hit(t, trim_seq(query@)),
            ),
    {
        let q = trim_chars(&chars_of(query));
        if q.len() == 0 {
            return Vec::new();
        }
        let ghost p = |t: ToolMetaView| name_or_tag_hit(t, q@);
        let mut r: Vec<ToolMeta> = Vec::new();
        let mut i: usize = 0;
        while i < self.tools.len()
            invariant
                i <= self@.len(),
                metas_view(r@) == self@.take(i as int).filter(p),
                p == (|t: ToolMetaView| name_or_tag_hit(t, q@)),
            decreases self.tools.len() - i,
        {
            proof {
                lemma_take_filter_step(self@, p, i as int);
            }
            if name_or_tag_matches(&self.tools[i], &q) {
                let t = self.tools[i].clone();
                r.push(t);
                assert(metas_view(r@) =~= self@.take(i as int).filter(p).push(self@[i as int]));
            }
            i = i + 1;
        }
        assert(self@.take(self@.len() as int) =~= self@);
        r
    }

    /// The full-text filter: every tool for a blank query, otherwise the tools
    /// whose id, slug, name, description, category slug or a tag contains the
    /// trimmed query, ignoring ASCII case.
    pub fn filter(&self, query: &str) -> (r: Vec<ToolMeta>)
        ensures
            trim_seq(query@).len() == 0 ==> metas_view(r@) == self@,
            trim_seq(query@).len() != 0 ==> metas_view(r@) == self@.filter(
                |t: ToolMetaView| full_text_hit(t, trim_seq(query@)),
            ),
    {
        let q = trim_chars(&chars_of(query));
        if q.len() == 0 {
            return copy_metas(&self.tools);
        }
        let ghost p = |t: ToolMetaView| full_text_hit(t, q@);
        let mut r: Vec<ToolMeta> = Vec::new();
        let mut i: usize = 0;
        while i < self.tools.len()
            invariant
                i <= self@.len(),
                metas_view(r@) == self@.take(i as int).filter(p),
                p == (|t: ToolMetaView| full_text_hit(t, q@)),
            decreases self.tools.len() - i,
        {
            proof {
                lemma_take_filter_step(self@, p, i as int);
            }
            if full_text_matches(&self.tools[i], &q) {
                let t = self.tools[i].clone();
                r.push(t);
                assert(metas_view(r@) =~= self@.take(i as int).filter(p).push(self@[i as int]));
            }
            i = i + 1;
        }
        assert(self@.take(self@.len() as int) =~= self@);
        r
    }
}

/// Why the shell could not load `registry.json`.
#[derive(Clone, Debug, PartialEq, Eq)]
pub enum RegistryLoadError {
    RequestFailed(String),
    HttpStatus { status: u16, body: String },
    ParseFailed(String),
}

/// The text shown for a registry load failure.
pub open spec fn load_error_text(e: RegistryLoadError) -> Seq<char> {
    match e {
        RegistryLoadError::RequestFailed(m) => "failed to fetch registry.json: "@ + m@,
        RegistryLoadError::HttpStatus { status, body } => "registry.json request returned status "@
            + decimal_seq(status as nat) + ": "@ + body@,
        RegistryLoadError::ParseFailed(m) => "failed to parse registry.json: "@ + m@,
    }
}

impl RegistryLoadError {
    /// The human-readable description of the failure.
    pub fn message(&self) -> (r: String)
        ensures
            r@ == load_error_text(*self),
    {
        match self {
            RegistryLoadError::RequestFailed(m) => {
                let mut s = String::from_str("failed to fetch registry.json: ");
                s.append(m.as_str());
                s
            },
            RegistryLoadError::HttpStatus { status, body } => {
                let mut s = String::from_str("registry.json request returned status ");
                let digits = decimal_string(*status as u64);
                s.append(digits.as_str());
                s.append(": ");
                s.append(body.as_str());
                s
            },
            RegistryLoadError::ParseFailed(m) => {
                let mut s = String::from_str("failed to parse registry.json: ");
                s.append(m.as_str());
                s
            },
        }
    }
}

/// Whether an HTTP status counts as success (2xx).
pub fn is_success_status(status: u16) -> (r: bool)
    ensures
        r == (200 <= status && status < 300),
{
    200 <= status && status < 300
}

/// The body reported when the body of a failed response cannot be read.
pub fn unreadable_body_message(error: &str) -> (r: String)
    ensures
        r@ == "failed to read error response body: "@ + error@,
{
    let mut s = String::from_str("failed to read error response body: ");
    s.append(error);
    s
}

} // verus!
