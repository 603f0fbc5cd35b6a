//! The declarative tool registry (`tools-registry.toml`) and its validation.
use vstd::prelude::*;
use vstd::string::*;

use crate::error::{reports, RegistryError};
use crate::text::{is_blank, is_blank_str};
use crate::types::{Category, ToolMeta, ToolMetaView};

verus! {

/// One registry entry: the tool's metadata plus how it is built and loaded.
#[derive(Clone, Debug, PartialEq, Eq)]
pub struct RegisteredTool {
    pub meta: ToolMeta,
    pub crate_path: String,
    pub entry_symbol: String,
    pub wasm_url: String,
}

pub struct RegisteredToolView {
    pub meta: ToolMetaView,
    pub crate_path: Seq<char>,
    pub entry_symbol: Seq<char>,
    pub wasm_url: Seq<char>,
}

impl View for RegisteredTool {
    type V = RegisteredToolView;

    open spec fn view(&self) -> RegisteredToolView {
        RegisteredToolView {
            meta: self.meta@,
            crate_path: self.crate_path@,
            entry_symbol: self.entry_symbol@,
            wasm_url: self.wasm_url@,
        }
    }
}

/// The whole registry: every declared tool, in file order.
#[derive(Clone, Debug, PartialEq, Eq)]
pub struct ToolRegistry {
    pub tools: Vec<RegisteredTool>,
}

impl View for ToolRegistry {
    type V = Seq<RegisteredToolView>;

    open spec fn view(&self) -> Seq<RegisteredToolView> {
        Seq::new(self.tools@.len(), |i: int| self.tools@[i]@)
    }
}

impl Default for ToolRegistry {
    fn default() -> (r: ToolRegistry)
        ensures
            r@.len() == 0,
    {
        ToolRegistry { tools: Vec::new() }
    }
}

/// Message for a required field that is empty or only whitespace.
pub open spec fn required_message(field: Seq<char>) -> Seq<char> {
    "field `"@ + field + "` must not be empty"@
}

/// The problem with one required field, if any.
pub open spec fn required_problem(field: Seq<char>, value: Seq<char>) -> Option<Seq<char>> {
    if is_blank(value) {
        Some(required_message(field))
    } else {
        None
    }
}

/// The first problem with a tool entry, checking fields in declaration order
/// and then the tags.
pub open spec fn tool_problem(t: RegisteredToolView) -> Option<Seq<char>> {
    if is_blank(t.meta.id) {
        Some(required_message("id"@))
    } else if is_blank(t.meta.slug) {
        Some(required_message("slug"@))
    } else if is_blank(t.meta.name) {
        Some(required_message("name"@))
    } else if is_blank(t.meta.description) {
        Some(required_message("description"@))
    } else if is_blank(t.meta.thumbnail) {
        Some(required_message("thumbnail"@))
    } else if is_blank(t.crate_path) {
        Some(required_message("crate_path"@))
    } else if is_blank(t.entry_symbol) {
        Some(required_message("entry_symbol"@))
    } else if is_blank(t.wasm_url) {
        Some(required_message("wasm_url"@))
    } else if t.meta.tags.len() == 0 {
        Some("tool `"@ + t.meta.id + "` must declare at least one tag"@)
    } else if exists|k: int| 0 <= k < t.meta.tags.len() && is_blank(#[trigger] t.meta.tags[k]) {
        Some("tool `"@ + t.meta.id + "` contains an empty tag"@)
    } else {
        None
    }
}

/// Some tool before position `i` has the same id as tool `i`.
pub open spec fn id_seen_before(tools: Seq<RegisteredToolView>, i: int) -> bool {
    exists|j: int| 0 <= j < i && #[trigger] tools[j].meta.id == tools[i].meta.id
}

/// Some tool before position `i` has the same slug as tool `i`.
pub open spec fn slug_seen_before(tools: Seq<RegisteredToolView>, i: int) -> bool {
    exists|j: int| 0 <= j < i && #[trigger] tools[j].meta.slug == tools[i].meta.slug
}

/// The first problem found when the tools from position `i` on are checked in
/// order: an invalid entry, then a repeated id, then a repeated slug.
pub open spec fn registry_problem_from(tools: Seq<RegisteredToolView>, i: int) -> Option<Seq<char>>
    decreases tools.len() - i,
{
    if i < 0 || i >= tools.len() {
        None
    } else if tool_problem(tools[i]) is Some {
        tool_problem(tools[i])
    } else if id_seen_before(tools, i) {
        Some("duplicate tool id `"@ + tools[i].meta.id + "`"@)
    } else if slug_seen_before(tools, i) {
        Some("duplicate tool slug `"@ + tools[i].meta.slug + "`"@)
    } else {
        registry_problem_from(tools, i + 1)
    }
}

/// The first problem of a whole registry, if any.
pub open spec fn registry_problem(tools: Seq<RegisteredToolView>) -> Option<Seq<char>> {
    registry_problem_from(tools, 0)
}

/// Rejects a required field that is empty once trimmed.
fn validate_required(field: &str, value: &str) -> (r: Result<(), RegistryError>)
    ensures
        reports(r, required_problem(field@, value@)),
{
    if is_blank_str(value) {
        let mut message = String::from_str("field `");
        message.append(field);
        message.append("` must not be empty");
        return Err(RegistryError::Invalid(message));
    }
    Ok(())
}

/// Message naming a tool and what is wrong with it.
fn tool_message(prefix: &str, id: &String, suffix: &str) -> (m: String)
    ensures
        m@ == prefix@ + id@ + suffix@,
{
    let mut message = String::from_str(prefix);
    message.append(id.as_str());
    message.append(suffix);
    message
}

impl RegisteredTool {
    /// Checks that every required field is filled in and that the tool has
    /// at least one tag and no blank tag.
    pub fn validate(&self) -> (r: Result<(), RegistryError>)
        ensures
            reports(r, tool_problem(self@)),
    {
        validate_required("id", self.meta.id.as_str())?;
        validate_required("slug", self.meta.slug.as_str())?;
        validate_required("name", self.meta.name.as_str())?;
        validate_required("description", self.meta.description.as_str())?;
        validate_required("thumbnail", self.meta.thumbnail.as_str())?;
        validate_required("crate_path", self.crate_path.as_str())?;
        validate_required("entry_symbol", self.entry_symbol.as_str())?;
        validate_required("wasm_url", self.wasm_url.as_str())?;

        if self.meta.tags.len() == 0 {
            return Err(RegistryError::Invalid(tool_message("tool `", &self.meta.id, "` must declare at least one tag")));
        }

        let mut k: usize = 0;
        while k < self.meta.tags.len()
            invariant
                k <= self.meta.tags@.len(),
                self@.meta.tags.len() != 0,
                !is_blank(self@.meta.id) && !is_blank(self@.meta.slug) && !is_blank(self@.meta.name),
                !is_blank(self@.meta.description) && !is_blank(self@.meta.thumbnail),
                !is_blank(self@.crate_path) && !is_blank(self@.entry_symbol) && !is_blank(self@.wasm_url),
                forall|j: int| 0 <= j < k ==> !is_blank(#[trigger] self@.meta.tags[j]),
            decreases self.meta.tags.len() - k,
        {
            if is_blank_str(self.meta.tags[k].as_str()) {
                assert(is_blank(self@.meta.tags[k as int]));
                let message = tool_message("tool `", &self.meta.id, "` contains an empty tag");
                return Err(RegistryError::Invalid(message));
            }
            k = k + 1;
        }
        Ok(())
    }

    /// The category the tool is filed under.
    pub fn category(&self) -> (c: &Category)
        ensures
            *c == self.meta.category,
    {
        &self.meta.category
    }
}

impl ToolRegistry {
    /// Checks every entry in order and rejects repeated ids and slugs,
    /// reporting the first problem found.
    pub fn validate(&self) -> (r: Result<(), RegistryError>)
        ensures
            reports(r, registry_problem(self@)),
    {
        let n = self.tools.len();
        let mut i: usize = 0;
        while i < n
            invariant
                n == self@.len(),
                i <= n,
                registry_problem(self@) == registry_problem_from(self@, i as int),
            decreases n - i,
        {
            let tool = &self.tools[i];
            assert(tool@ == self@[i as int]);
            tool.validate()?;
            let mut j: usize = 0;
            while j < i
                invariant
                    i < n == self@.len(),
                    j <= i,
                    tool@ == self@[i as int],
                    registry_problem(self@) == registry_problem_from(self@, i as int),
                    tool_problem(self@[i as int]) is None,
                    forall|k: int| 0 <= k < j ==> #[trigger] self@[k].meta.id != self@[i as int].meta.id,
                decreases i - j,
            {
                if self.tools[j].meta.id == tool.meta.id {
                    assert(self@[j as int].meta.id == self@[i as int].meta.id);
                    return Err(RegistryError::Invalid(tool_message("duplicate tool id `", &tool.meta.id, "`")));
                }
                j = j + 1;
            }
            let mut j: usize = 0;
            while j < i
                invariant
                    i < n == self@.len(),
                    j <= i,
                    tool@ == self@[i as int],
                    registry_problem(self@) == registry_problem_from(self@, i as int),
                    tool_problem(self@[i as int]) is None,
                    !id_seen_before(self@, i as int),
                    forall|k: int| 0 <= k < j ==> #[trigger] self@[k].meta.slug != self@[i as int].meta.slug,
                decreases i - j,
            {
                if self.tools[j].meta.slug == tool.meta.slug {
                    assert(self@[j as int].meta.slug == self@[i as int].meta.slug);
                    return Err(RegistryError::Invalid(tool_message("duplicate tool slug `", &tool.meta.slug, "`")));
                }
                j = j + 1;
            }
            i = i + 1;
        }
        Ok(())
    }
}

} // verus!
