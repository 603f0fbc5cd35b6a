//! Tool categories and tool metadata.
use vstd::prelude::*;

verus! {

/// The fixed set of categories a tool can be filed under.
#[derive(Clone, Copy, Debug, PartialEq, Eq, Structural)]
pub enum Category {
    Utilities,
    Math,
    Text,
    Developer,
    Media,
    Productivity,
}

/// The stable lower-case slug of a category.
pub open spec fn category_slug(c: Category) -> Seq<char> {
    match c {
        Category::Utilities => "utilities"@,
        Category::Math => "math"@,
        Category::Text => "text"@,
        Category::Developer => "developer"@,
        Category::Media => "media"@,
        Category::Productivity => "productivity"@,
    }
}

/// The human-readable label of a category.
pub open spec fn category_label(c: Category) -> Seq<char> {
    match c {
        Category::Utilities => "Utilities"@,
        Category::Math => "Math"@,
        Category::Text => "Text"@,
        Category::Developer => "Developer"@,
        Category::Media => "Media"@,
        Category::Productivity => "Productivity"@,
    }
}

impl Default for Category {
    fn default() -> (c: Category)
        ensures
            c == Category::Utilities,
    {
        Category::Utilities
    }
}

impl Category {
    /// The slug used in URLs and registry files.
    pub fn as_str(&self) -> (r: &'static str)
        ensures
            r@ == category_slug(*self),
    {
        match self {
            Category::Utilities => "utilities",
            Category::Math => "math",
            Category::Text => "text",
            Category::Developer => "developer",
            Category::Media => "media",
            Category::Productivity => "productivity",
        }
    }

    /// The label shown to people.
    pub fn label(&self) -> (r: &'static str)
        ensures
            r@ == category_label(*self),
    {
        match self {
            Category::Utilities => "Utilities",
            Category::Math => "Math",
            Category::Text => "Text",
            Category::Developer => "Developer",
            Category::Media => "Media",
            Category::Productivity => "Productivity",
        }
    }
}

/// Metadata describing one tool: identity, placement and presentation.
#[derive(Debug, PartialEq, Eq)]
pub struct ToolMeta {
    pub id: String,
    pub slug: String,
    pub name: String,
    pub category: Category,
    pub tags: Vec<String>,
    pub description: String,
    pub thumbnail: String,
}

/// The mathematical content of a [`ToolMeta`].
pub struct ToolMetaView {
    pub id: Seq<char>,
    pub slug: Seq<char>,
    pub name: Seq<char>,
    pub category: Category,
    pub tags: Seq<Seq<char>>,
    pub description: Seq<char>,
    pub thumbnail: Seq<char>,
}

/// The character sequences of a list of strings.
pub open spec fn strings_view(v: Seq<String>) -> Seq<Seq<char>> {
    Seq::new(v.len(), |i: int| v[i]@)
}

/// The character sequences of a list of string slices.
pub open spec fn strs_view(v: Seq<&str>) -> Seq<Seq<char>> {
    Seq::new(v.len(), |i: int| v[i]@)
}

impl View for ToolMeta {
    type V = ToolMetaView;

    open spec fn view(&self) -> ToolMetaView {
        ToolMetaView {
            id: self.id@,
            slug: self.slug@,
            name: self.name@,
            category: self.category,
            tags: strings_view(self.tags@),
            description: self.description@,
            thumbnail: self.thumbnail@,
        }
    }
}

/// The views of a list of tools.
pub open spec fn metas_view(v: Seq<ToolMeta>) -> Seq<ToolMetaView> {
    Seq::new(v.len(), |i: int| v[i]@)
}

/// A copy of a list of strings.
pub fn copy_strings(v: &Vec<String>) -> (r: Vec<String>)
    ensures
        strings_view(r@) == strings_view(v@),
{
    let mut r: Vec<String> = Vec::new();
    let mut i: usize = 0;
    while i < v.len()
        invariant
            i <= v@.len(),
            r@.len() == i,
            forall|j: int| 0 <= j < i ==> #[trigger] r@[j]@ == v@[j]@,
        decreases v.len() - i,
    {
        r.push(v[i].clone());
        i = i + 1;
    }
    assert(strings_view(r@) =~= strings_view(v@));
    r
}

impl Clone for ToolMeta {
    fn clone(&self) -> (r: ToolMeta)
        ensures
            r@ == self@,
    {
        ToolMeta {
            id: self.id.clone(),
            slug: self.slug.clone(),
            name: self.name.clone(),
            category: self.category,
            tags: copy_strings(&self.tags),
            description: self.description.clone(),
            thumbnail: self.thumbnail.clone(),
        }
    }
}

impl ToolMeta {
    /// Collects owned copies of every field.
    pub fn new(
        id: &str,
        slug: &str,
        name: &str,
        category: Category,
        tags: &[&str],
        description: &str,
        thumbnail: &str,
    ) -> (meta: ToolMeta)
        ensures
            meta@ == (ToolMetaView {
                id: id@,
                slug: slug@,
                name: name@,
                category,
                tags: strs_view(tags@),
                description: description@,
                thumbnail: thumbnail@,
            }),
    {
        let mut owned_tags: Vec<String> = Vec::new();
        let mut i: usize = 0;
        while i < tags.len()
            invariant
                i <= tags@.len(),
                owned_tags@.len() == i,
                forall|j: int| 0 <= j < i ==> #[trigger] owned_tags@[j]@ == tags@[j]@,
            decreases tags.len() - i,
        {
            owned_tags.push(tags[i].to_owned());
            i = i + 1;
        }
        assert(strings_view(owned_tags@) =~= strs_view(tags@));
        ToolMeta {
            id: id.to_owned(),
            slug: slug.to_owned(),
            name: name.to_owned(),
            category,
            tags: owned_tags,
            description: description.to_owned(),
            thumbnail: thumbnail.to_owned(),
        }
    }
}

/// A copy of a list of tools.
pub fn copy_metas(v: &Vec<ToolMeta>) -> (r: Vec<ToolMeta>)
    ensures
        metas_view(r@) == metas_view(v@),
{
    let mut r: Vec<ToolMeta> = Vec::new();
    let mut i: usize = 0;
    while i < v.len()
        invariant
            i <= v@.len(),
            r@.len() == i,
            forall|j: int| 0 <= j < i ==> #[trigger] r@[j]@ == v@[j]@,
        decreases v.len() - i,
    {
        r.push(v[i].clone());
        i = i + 1;
    }
    assert(metas_view(r@) =~= metas_view(v@));
    r
}

} // verus!
