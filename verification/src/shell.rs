//! What the shell's pages compute before rendering: category listings and
//! descriptions, route titles, breadcrumb trails, card texts and search
//! summaries.
use vstd::prelude::*;
use vstd::string::*;

use crate::text::{
    chars_of, decimal_seq, decimal_string, lower_chars, lower_seq, push_char, string_from_chars,
    trim_chars, trim_seq,
};
use crate::types::{category_label, Category, ToolMeta, ToolMetaView};

verus! {

/// What `char::to_uppercase` yields for `c` (Unicode upper-case mapping,
/// possibly several characters).
pub uninterp spec fn char_uppercase(c: char) -> Seq<char>;

/// `char::to_uppercase`, collected into a string.
#[verifier::external_body]
fn upper_case_of(c: char) -> (r: String)
    ensures
        r@ == char_uppercase(c),
{
    c.to_uppercase().collect()
}

/// Every category, in display order.
pub open spec fn category_order() -> Seq<Category> {
    seq![
        Category::Utilities,
        Category::Math,
        Category::Text,
        Category::Developer,
        Category::Media,
        Category::Productivity,
    ]
}

/// Every category, in the order the index page lists them.
pub fn all_categories() -> (r: Vec<Category>)
    ensures
        r@ == category_order(),
{
    let r = vec![
        Category::Utilities,
        Category::Math,
        Category::Text,
        Category::Developer,
        Category::Media,
        Category::Productivity,
    ];
    assert(r@ =~= category_order());
    r
}

/// The blurb shown on a category's page.
pub open spec fn category_blurb(c: Category) -> Seq<char> {
    match c {
        Category::Utilities => "Everyday helpers and quick-access tools for common tasks."@,
        Category::Math => "Calculators and numeric tools for fast, focused problem solving."@,
        Category::Text => "Formatting, editing, and transformation tools for written content."@,
        Category::Developer => "Utilities for inspecting, formatting, and debugging developer data."@,
        Category::Media => "Tools for working with visual, audio, and other media assets."@,
        Category::Productivity => "Workflow-oriented tools designed to speed up repetitive work."@,
    }
}

/// The blurb shown on a category's page.
pub fn category_description(category: &Category) -> (r: &'static str)
    ensures
        r@ == category_blurb(*category),
{
    match category {
        Category::Utilities => "Everyday helpers and quick-access tools for common tasks.",
        Category::Math => "Calculators and numeric tools for fast, focused problem solving.",
        Category::Text => "Formatting, editing, and transformation tools for written content.",
        Category::Developer => "Utilities for inspecting, formatting, and debugging developer data.",
        Category::Media => "Tools for working with visual, audio, and other media assets.",
        Category::Productivity => "Workflow-oriented tools designed to speed up repetitive work.",
    }
}

/// `s` has a character other than `-`.
pub open spec fn has_word(s: Seq<char>) -> bool {
    exists|i: int| 0 <= i < s.len() && s[i] != '-'
}

/// A route segment as a title: the non-empty `-`-separated parts, each with
/// its first character upper-cased, joined by single spaces.
pub open spec fn title_words(s: Seq<char>) -> Seq<char>
    decreases s.len(),
{
    if s.len() == 0 {
        Seq::empty()
    } else {
        let p = s.drop_last();
        let c = s.last();
        if c == '-' {
            title_words(p)
        } else if p.len() == 0 || p.last() == '-' {
            (if has_word(p) {
                title_words(p) + " "@
            } else {
                Seq::empty()
            }) + char_uppercase(c)
        } else {
            title_words(p).push(c)
        }
    }
}

proof fn lemma_no_word_no_title(s: Seq<char>)
    requires
        !has_word(s),
    ensures
        title_words(s) == Seq::<char>::empty(),
    decreases s.len(),
{
    if s.len() > 0 {
        let p = s.drop_last();
        assert(s[s.len() - 1] == '-');
        assert(!has_word(p)) by {
            if has_word(p) {
                let k = choose|k: int| 0 <= k < p.len() && p[k] != '-';
                assert(s[k] == p[k]);
            }
        }
        lemma_no_word_no_title(p);
    }
}

/// Title-cases a `-`-separated route segment (`json-pretty` reads `Json Pretty`).
pub fn format_segment(segment: &str) -> (r: String)
    ensures
        r@ == title_words(segment@),
{
    let v = chars_of(segment);
    let mut r = String::new();
    let mut seen_word = false;
    let mut i: usize = 0;
    while i < v.len()
        invariant
            v@ == segment@,
            i <= v@.len(),
            r@ == title_words(v@.take(i as int)),
            seen_word == has_word(v@.take(i as int)),
        decreases v.len() - i,
    {
        let c = v[i];
        let ghost p = v@.take(i as int);
        assert(v@.take(i + 1).drop_last() =~= p);
        assert(v@.take(i + 1).last() == c);
        if i > 0 {
            assert(p.last() == v@[i - 1]);
        }
        if c != '-' {
            let starts_word = i == 0 || v[i - 1] == '-';
            if starts_word {
                if seen_word {
                    r.append(" ");
                } else {
                    proof {
                        lemma_no_word_no_title(p);
                    }
                }
                let upper = upper_case_of(c);
                r.append(upper.as_str());
                assert(r@ =~= (if has_word(p) {
                    title_words(p) + " "@
                } else {
                    Seq::empty()
                }) + char_uppercase(c));
            } else {
                push_char(&mut r, c);
            }
            assert(r@ == title_words(v@.take(i + 1)));
            assert(has_word(v@.take(i + 1))) by {
                assert(v@.take(i + 1)[i as int] == c);
            }
            seen_word = true;
        } else {
            assert(has_word(v@.take(i + 1)) == has_word(p)) by {
                if has_word(v@.take(i + 1)) {
                    let q = v@.take(i + 1);
                    let k = choose|k: int| 0 <= k < q.len() && q[k] != '-';
                    assert(k < i);
                    assert(p[k] == q[k]);
                }
                if has_word(p) {
                    let k = choose|k: int| 0 <= k < i && p[k] != '-';
                    assert(v@.take(i + 1)[k] == p[k]);
                }
            }
        }
        i = i + 1;
    }
    assert(v@.take(v@.len() as int) =~= v@);
    r
}

/// `n.saturating_sub(1)`.
pub open spec fn one_less(n: nat) -> nat {
    if n == 0 {
        0
    } else {
        (n - 1) as nat
    }
}

/// A card's description: trimmed, and when longer than `max` characters cut
/// to `max - 1` characters followed by an ellipsis.
pub open spec fn shortened(description: Seq<char>, max: nat) -> Seq<char> {
    let t = trim_seq(description);
    if t.len() <= max {
        t
    } else {
        t.take(one_less(max) as int).push('…')
    }
}

/// The description as shown on a tool card.
pub fn short_description(description: &str, max_chars: usize) -> (r: String)
    ensures
        r@ == shortened(description@, max_chars as nat),
{
    let t = trim_chars(&chars_of(description));
    if t.len() <= max_chars {
        return string_from_chars(&t);
    }
    let keep: usize = if max_chars == 0 {
        0
    } else {
        max_chars - 1
    };
    let mut out: Vec<char> = Vec::new();
    let mut i: usize = 0;
    while i < keep
        invariant
            keep < t@.len(),
            i <= keep,
            out@ =~= t@.take(i as int),
        decreases keep - i,
    {
        out.push(t[i]);
        i = i + 1;
    }
    out.push('…');
    string_from_chars(&out)
}

/// `s` with every leading and trailing `c` removed (`str::trim_matches`).
pub open spec fn trim_char_seq(s: Seq<char>, c: char) -> Seq<char> {
    let a = choose|k: int| is_leading_run(s, c, k);
    let b = choose|k: int| is_trailing_run(s, c, k);
    if a < b {
        s.subrange(a, b)
    } else {
        Seq::empty()
    }
}

pub open spec fn is_leading_run(s: Seq<char>, c: char, k: int) -> bool {
    &&& 0 <= k <= s.len()
    &&& forall|i: int| 0 <= i < k ==> #[trigger] s[i] == c
    &&& (k == s.len() || s[k] != c)
}

pub open spec fn is_trailing_run(s: Seq<char>, c: char, k: int) -> bool {
    &&& 0 <= k <= s.len()
    &&& forall|i: int| k <= i < s.len() ==> #[trigger] s[i] == c
    &&& (k == 0 || s[k - 1] != c)
}

/// `s` with every leading and trailing `c` removed.
fn trim_char(s: &Vec<char>, c: char) -> (r: Vec<char>)
    ensures
        r@ == trim_char_seq(s@, c),
{
    let n = s.len();
    let mut a: usize = 0;
    while a < n && s[a] == c
        invariant
            n == s@.len(),
            a <= n,
            forall|i: int| 0 <= i < a ==> #[trigger] s@[i] == c,
        decreases n - a,
    {
        a = a + 1;
    }
    let mut b: usize = n;
    while b > 0 && s[b - 1] == c
        invariant
            n == s@.len(),
            b <= n,
            forall|i: int| b <= i < n ==> #[trigger] s@[i] == c,
        decreases b,
    {
        b = b - 1;
    }
    proof {
        let a2 = choose|k: int| is_leading_run(s@, c, k);
        assert(is_leading_run(s@, c, a as int));
        if a2 < a {
            assert(s@[a2] == c);
        } else if a < a2 {
            assert(s@[a as int] == c);
        }
        let b2 = choose|k: int| is_trailing_run(s@, c, k);
        assert(is_trailing_run(s@, c, b as int));
        if b2 < b {
            assert(s@[b - 1] == c);
        } else if b < b2 {
            assert(s@[b2 - 1] == c);
        }
    }
    let mut r: Vec<char> = Vec::new();
    if a < b {
        let mut i: usize = a;
        while i < b
            invariant
                a <= i <= b <= n,
                n == s@.len(),
                r@ =~= s@.subrange(a as int, i as int),
            decreases b - i,
        {
            r.push(s[i]);
            i = i + 1;
        }
    }
    r
}

/// The parts of `s` between occurrences of `sep` (`str::split`); there is
/// always at least one part.
pub open spec fn split_seq(s: Seq<char>, sep: char) -> Seq<Seq<char>>
    decreases s.len(),
{
    if s.len() == 0 {
        seq![Seq::empty()]
    } else {
        let parts = split_seq(s.drop_last(), sep);
        if s.last() == sep {
            parts.push(Seq::empty())
        } else {
            parts.update(parts.len() - 1, parts.last().push(s.last()))
        }
    }
}

proof fn lemma_split_nonempty(s: Seq<char>, sep: char)
    ensures
        split_seq(s, sep).len() >= 1,
    decreases s.len(),
{
    if s.len() > 0 {
        lemma_split_nonempty(s.drop_last(), sep);
    }
}

/// The character sequences of a list of character vectors.
pub open spec fn char_vecs_view(v: Seq<Vec<char>>) -> Seq<Seq<char>> {
    Seq::new(v.len(), |i: int| v[i]@)
}

/// The parts of `s` between occurrences of `sep`.
fn split_chars(s: &Vec<char>, sep: char) -> (r: Vec<Vec<char>>)
    ensures
        char_vecs_view(r@) == split_seq(s@, sep),
{
    let mut done: Vec<Vec<char>> = Vec::new();
    let mut current: Vec<char> = Vec::new();
    let mut i: usize = 0;
    while i < s.len()
        invariant
            i <= s@.len(),
            split_seq(s@.take(i as int), sep) == char_vecs_view(done@).push(current@),
        decreases s.len() - i,
    {
        let c = s[i];
        assert(s@.take(i + 1).drop_last() =~= s@.take(i as int));
        assert(s@.take(i + 1).last() == c);
        if c == sep {
            let finished = current;
            done.push(finished);
            current = Vec::new();
            assert(char_vecs_view(done@).push(current@) =~= char_vecs_view(done@).push(Seq::empty()));
            assert(split_seq(s@.take(i + 1), sep) =~= char_vecs_view(done@).push(current@));
        } else {
            let ghost before = current@;
            current.push(c);
            assert(split_seq(s@.take(i + 1), sep) =~= char_vecs_view(done@).push(current@));
        }
        i = i + 1;
    }
    done.push(current);
    assert(s@.take(s@.len() as int) =~= s@);
    assert(char_vecs_view(done@) =~= split_seq(s@, sep));
    done
}

/// One entry of the breadcrumb trail.
#[derive(Clone, Debug, PartialEq, Eq)]
pub struct BreadcrumbItem {
    pub label: String,
    pub href: String,
    pub current: bool,
}

/// The link of the `k`-th segment crumb: `/` followed by the first `k`
/// segments joined by `/`.
pub open spec fn crumb_href(segments: Seq<Seq<char>>, k: int) -> Seq<char>
    decreases k,
{
    if k <= 0 {
        Seq::empty()
    } else {
        crumb_href(segments, k - 1) + "/"@ + segments[k - 1]
    }
}

/// The breadcrumb trail of a path: `Home`, then one crumb per `/`-separated
/// segment of the path stripped of outer slashes, the last one current.
pub open spec fn is_trail(path: Seq<char>, items: Seq<BreadcrumbItem>) -> bool {
    let t = trim_char_seq(path, '/');
    if t.len() == 0 {
        &&& items.len() == 1
        &&& items[0].label@ == "Home"@
        &&& items[0].href@ == "/"@
        &&& items[0].current
    } else {
        let segments = split_seq(t, '/');
        &&& items.len() == segments.len() + 1
        &&& items[0].label@ == "Home"@
        &&& items[0].href@ == "/"@
        &&& !items[0].current
        &&& forall|k: int|
            1 <= k <= segments.len() ==> {
                &&& (#[trigger] items[k]).label@ == title_words(segments[k - 1])
                &&& items[k].href@ == crumb_href(segments, k)
                &&& items[k].current == (k == segments.len())
            }
    }
}

/// The breadcrumb trail shown for a location path.
pub fn breadcrumbs(pathname: &str) -> (r: Vec<BreadcrumbItem>)
    ensures
        is_trail(pathname@, r@),
{
    let trimmed = trim_char(&chars_of(pathname), '/');
    let mut items: Vec<BreadcrumbItem> = Vec::new();
    if trimmed.len() == 0 {
        items.push(
            BreadcrumbItem {
                label: String::from_str("Home"),
                href: String::from_str("/"),
                current: true,
            },
        );
        return items;
    }
    items.push(
        BreadcrumbItem {
            label: String::from_str("Home"),
            href: String::from_str("/"),
            current: false,
        },
    );
    let segments = split_chars(&trimmed, '/');
    let ghost segs = split_seq(trimmed@, '/');
    proof {
        lemma_split_nonempty(trimmed@, '/');
    }
    let mut href = String::new();
    let mut k: usize = 0;
    while k < segments.len()
        invariant
            char_vecs_view(segments@) == segs,
            segs == split_seq(trim_char_seq(pathname@, '/'), '/'),
            segs.len() >= 1,
            k <= segs.len(),
            items@.len() == k + 1,
            href@ == crumb_href(segs, k as int),
            items@[0].label@ == "Home"@,
            items@[0].href@ == "/"@,
            !items@[0].current,
            forall|j: int|
                1 <= j <= k ==> {
                    &&& (#[trigger] items@[j]).label@ == title_words(segs[j - 1])
                    &&& items@[j].href@ == crumb_href(segs, j)
                    &&& items@[j].current == (j == segs.len())
                },
        decreases segments.len() - k,
    {
        let segment = string_from_chars(&segments[k]);
        assert(segment@ == segs[k as int]);
        href.append("/");
        href.append(segment.as_str());
        let label = format_segment(segment.as_str());
        let item = BreadcrumbItem { label, href: href.clone(), current: k + 1 == segments.len() };
        items.push(item);
        k = k + 1;
    }
    items
}

/// The link to a tool's page.
pub fn tool_href(slug: &str) -> (r: String)
    ensures
        r@ == "/tools/"@ + slug@,
{
    let mut s = String::from_str("/tools/");
    s.append(slug);
    s
}

/// The header line of a category section: `1 tool`, `3 tools`.
pub fn tool_count_label(count: usize) -> (r: String)
    ensures
        r@ == decimal_seq(count as nat) + (if count == 1 {
            " tool"@
        } else {
            " tools"@
        }),
{
    let mut s = decimal_string(count as u64);
    if count == 1 {
        s.append(" tool");
    } else {
        s.append(" tools");
    }
    s
}

/// The summary above search results: `1 match`, `2 matches`.
pub fn match_summary(count: usize) -> (r: String)
    ensures
        r@ == decimal_seq(count as nat) + (if count == 1 {
            " match"@
        } else {
            " matches"@
        }),
{
    let mut s = decimal_string(count as u64);
    if count == 1 {
        s.append(" match");
    } else {
        s.append(" matches");
    }
    s
}

/// The strings of `tags[..k]`, joined with `, `.
pub open spec fn joined_tags(tags: Seq<Seq<char>>, k: int) -> Seq<char>
    decreases k,
{
    if k <= 0 {
        Seq::empty()
    } else if k == 1 {
        tags[0]
    } else {
        joined_tags(tags, k - 1) + ", "@ + tags[k - 1]
    }
}

/// The second line of a search result: the category label, followed by
/// ` • ` and the first three tags when the tool has tags.
pub open spec fn result_meta_text(t: ToolMetaView) -> Seq<char> {
    if t.tags.len() == 0 {
        category_label(t.category)
    } else {
        category_label(t.category) + " • "@ + joined_tags(
            t.tags,
            if t.tags.len() < 3 {
                t.tags.len() as int
            } else {
                3
            },
        )
    }
}

/// The category and leading tags shown under a search result.
pub fn search_result_meta(tool: &ToolMeta) -> (r: String)
    ensures
        r@ == result_meta_text(tool@),
{
    let mut s = String::from_str(tool.category.label());
    if tool.tags.len() == 0 {
        return s;
    }
    s.append(" • ");
    let n: usize = if tool.tags.len() < 3 {
        tool.tags.len()
    } else {
        3
    };
    let mut k: usize = 0;
    let ghost prefix = s@;
    while k < n
        invariant
            n <= tool@.tags.len(),
            k <= n,
            s@ == prefix + joined_tags(tool@.tags, k as int),
        decreases n - k,
    {
        if k > 0 {
            s.append(", ");
        }
        s.append(tool.tags[k].as_str());
        k = k + 1;
    }
    s
}

/// The note shown when a category has no tools: its label in ASCII lower case.
pub fn empty_category_message(category: &Category) -> (r: String)
    ensures
        r@ == "No "@ + lower_seq(category_label(*category)) + " tools are registered yet."@,
{
    let lowered = lower_chars(&chars_of(category.label()));
    let mut s = String::from_str("No ");
    let word = string_from_chars(&lowered);
    s.append(word.as_str());
    s.append(" tools are registered yet.");
    s
}

} // verus!
