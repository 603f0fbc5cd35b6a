//! Properties that hold across the library's operations.
use vstd::prelude::*;

use crate::calculator::{
    clear_label_text, initial_view, is_all_clear, step, Action, CalculatorView, EvaluationView,
    Operator,
};
use crate::registry::{
    id_seen_before, registry_problem, registry_problem_from, slug_seen_before, tool_problem,
    RegisteredToolView,
};
use crate::runtime::{category_for_slug, full_text_hit, is_first_slug_match, name_or_tag_hit};
use crate::shell::shortened;
use crate::text::{ascii_lower, eq_ignore_case, is_space, lemma_trim_without_space, lower_seq, trim_seq};
use crate::types::{category_label, category_slug, Category, ToolMetaView};
use crate::loader::loader_shim_text;
use crate::registry::required_message;
use crate::runtime::tag_contains;
use crate::shell::result_meta_text;
use crate::text::{contains_ignore_case, contains_seq, is_blank, occurs_at};

verus! {

proof fn lemma_problem_from_none(tools: Seq<RegisteredToolView>, i: int)
    requires
        0 <= i,
    ensures
        registry_problem_from(tools, i) is None <==> forall|k: int|
            i <= k < tools.len() ==> {
                &&& tool_problem(#[trigger] tools[k]) is None
                &&& !id_seen_before(tools, k)
                &&& !slug_seen_before(tools, k)
            },
    decreases tools.len() - i,
{
    if i < tools.len() {
        lemma_problem_from_none(tools, i + 1);
    }
}

/// A registry passes validation exactly when every entry is valid and no two
/// entries share an id or a slug.
pub proof fn law_valid_registry_has_unique_ids_and_slugs(tools: Seq<RegisteredToolView>)
    ensures
        registry_problem(tools) is None <==> {
            &&& forall|k: int| 0 <= k < tools.len() ==> tool_problem(#[trigger] tools[k]) is None
            &&& forall|i: int, j: int|
                0 <= i < tools.len() && 0 <= j < tools.len() && i != j ==> tools[i].meta.id
                    != tools[j].meta.id
            &&& forall|i: int, j: int|
                0 <= i < tools.len() && 0 <= j < tools.len() && i != j ==> tools[i].meta.slug
                    != tools[j].meta.slug
        },
{
    lemma_problem_from_none(tools, 0);
    if registry_problem(tools) is None {
        assert forall|i: int, j: int|
            0 <= i < tools.len() && 0 <= j < tools.len() && i != j implies tools[i].meta.id
            != tools[j].meta.id by {
            let (a, b) = if i < j {
                (i, j)
            } else {
                (j, i)
            };
            assert(!id_seen_before(tools, b));
            assert(0 <= a < b && tools[a].meta.id == tools[a].meta.id);
        }
        assert forall|i: int, j: int|
            0 <= i < tools.len() && 0 <= j < tools.len() && i != j implies tools[i].meta.slug
            != tools[j].meta.slug by {
            let (a, b) = if i < j {
                (i, j)
            } else {
                (j, i)
            };
            assert(!slug_seen_before(tools, b));
            assert(0 <= a < b && tools[a].meta.slug == tools[a].meta.slug);
        }
    }
}

/// Case-folding a lower-case category slug leaves it unchanged, and case-folding
/// a category label gives its slug.
proof fn lemma_category_texts(c: Category)
    ensures
        forall|i: int| 0 <= i < category_slug(c).len() ==> !is_space(#[trigger] category_slug(c)[i]),
        forall|i: int| 0 <= i < category_label(c).len() ==> !is_space(#[trigger] category_label(c)[i]),
        lower_seq(category_slug(c)) == category_slug(c),
        lower_seq(category_label(c)) == category_slug(c),
{
    reveal_strlit("utilities");
    reveal_strlit("math");
    reveal_strlit("text");
    reveal_strlit("developer");
    reveal_strlit("media");
    reveal_strlit("productivity");
    reveal_strlit("Utilities");
    reveal_strlit("Math");
    reveal_strlit("Text");
    reveal_strlit("Developer");
    reveal_strlit("Media");
    reveal_strlit("Productivity");
    assert(lower_seq(category_slug(c)) =~= category_slug(c));
    assert(lower_seq(category_label(c)) =~= category_slug(c));
}

/// Resolving a category's slug, or its label, gives the category back.
pub proof fn law_category_slug_round_trip(c: Category)
    ensures
        category_for_slug(category_slug(c)) == Some(c),
        category_for_slug(category_label(c)) == Some(c),
{
    lemma_category_texts(c);
    lemma_trim_without_space(category_slug(c));
    lemma_trim_without_space(category_label(c));
    reveal_strlit("utilities");
    reveal_strlit("math");
    reveal_strlit("text");
    reveal_strlit("developer");
    reveal_strlit("media");
    reveal_strlit("productivity");
    let s = category_slug(c);
    assert(lower_seq(trim_seq(s)) == s);
    match c {
        Category::Utilities => {},
        Category::Math => {
            assert(s[0] != "utilities"@[0]);
        },
        Category::Text => {
            assert(s[0] != "utilities"@[0]);
            assert(s[0] != "math"@[0]);
        },
        Category::Developer => {
            assert(s[0] != "utilities"@[0]);
            assert(s[0] != "math"@[0]);
            assert(s[0] != "text"@[0]);
        },
        Category::Media => {
            assert(s[0] != "utilities"@[0]);
            assert(s.len() != "math"@.len());
            assert(s[0] != "text"@[0]);
            assert(s[0] != "developer"@[0]);
        },
        Category::Productivity => {
            assert(s[0] != "utilities"@[0]);
            assert(s[0] != "math"@[0]);
            assert(s[0] != "text"@[0]);
            assert(s[0] != "developer"@[0]);
            assert(s[0] != "media"@[0]);
        },
    }
}

/// Two categories have the same slug, up to ASCII case, only when they are
/// the same category.
proof fn lemma_slugs_identify(a: Category, b: Category)
    ensures
        eq_ignore_case(category_slug(a), category_slug(b)) <==> a == b,
{
    lemma_category_texts(a);
    lemma_category_texts(b);
    law_category_slug_round_trip(a);
    law_category_slug_round_trip(b);
}

/// Selecting a category's tools by the category and by its slug (in any ASCII
/// case) gives the same tools in the same order.
pub proof fn law_category_queries_agree(tools: Seq<ToolMetaView>, c: Category)
    ensures
        tools.filter(|t: ToolMetaView| t.category == c) == tools.filter(
            |t: ToolMetaView| eq_ignore_case(category_slug(t.category), category_slug(c)),
        ),
{
    let p1 = |t: ToolMetaView| t.category == c;
    let p2 = |t: ToolMetaView| eq_ignore_case(category_slug(t.category), category_slug(c));
    assert forall|t: ToolMetaView| #[trigger] p1(t) == p2(t) by {
        lemma_slugs_identify(t.category, c);
    }
    assert(p1 =~= p2);
}

/// Filtering by a stricter predicate after a weaker one is filtering by the
/// stricter one.
proof fn lemma_filter_narrow<A>(s: Seq<A>, weak: spec_fn(A) -> bool, strict: spec_fn(A) -> bool)
    requires
        forall|x: A| #[trigger] strict(x) ==> weak(x),
    ensures
        s.filter(weak).filter(strict) == s.filter(strict),
    decreases s.len(),
{
    reveal(Seq::filter);
    if s.len() > 0 {
        let p = s.drop_last();
        lemma_filter_narrow(p, weak, strict);
        assert(s =~= p.push(s.last()));
        p.lemma_filter_push(s.last(), weak);
        p.lemma_filter_push(s.last(), strict);
        p.filter(weak).lemma_filter_push(s.last(), strict);
    }
}

/// The header search finds exactly those full-text matches whose name or a
/// tag holds the query: it never finds a tool the full-text filter misses.
pub proof fn law_search_within_full_text(tools: Seq<ToolMetaView>, q: Seq<char>)
    ensures
        tools.filter(|t: ToolMetaView| full_text_hit(t, q)).filter(
            |t: ToolMetaView| name_or_tag_hit(t, q),
        ) == tools.filter(|t: ToolMetaView| name_or_tag_hit(t, q)),
{
    let weak = |t: ToolMetaView| full_text_hit(t, q);
    let strict = |t: ToolMetaView| name_or_tag_hit(t, q);
    lemma_filter_narrow(tools, weak, strict);
}

/// ASCII lower-casing is idempotent.
pub proof fn lemma_lower_idempotent(s: Seq<char>)
    ensures
        lower_seq(lower_seq(s)) == lower_seq(s),
{
    assert forall|i: int| 0 <= i < s.len() implies ascii_lower(ascii_lower(s[i])) == ascii_lower(
        s[i],
    ) by {
        let c = s[i];
        if 'A' <= c && c <= 'Z' {
            assert(ascii_lower(c) as u32 == c as u32 + 32);
        }
    }
    assert(lower_seq(lower_seq(s)) =~= lower_seq(s));
}

/// Looking a tool up by slug ignores the ASCII case of the slug asked for.
pub proof fn law_slug_lookup_ignores_case(tools: Seq<ToolMetaView>, slug: Seq<char>, k: int)
    ensures
        is_first_slug_match(tools, slug, k) <==> is_first_slug_match(tools, lower_seq(slug), k),
{
    lemma_lower_idempotent(slug);
}

/// The clear button reads `AC` exactly when the calculator is in its initial
/// state.
pub proof fn law_all_clear_is_initial<N>(s: CalculatorView<N>)
    ensures
        (clear_label_text(s) == "AC"@) <==> (s == initial_view::<N>()),
{
    reveal_strlit("AC");
    reveal_strlit("C");
    assert("C"@.len() != "AC"@.len());
    if clear_label_text(s) == "AC"@ {
        assert(is_all_clear(s));
        assert(s == initial_view::<N>());
    }
    if s == initial_view::<N>() {
        assert(is_all_clear(s));
    }
}

/// Clearing twice is the same as clearing once.
pub proof fn law_clear_idempotent<N>(s: CalculatorView<N>, ev: EvaluationView<N>)
    ensures
        step(step(s, Action::Clear, ev), Action::Clear, ev) == step(s, Action::Clear, ev),
{
}

/// Typing a second decimal point changes nothing.
pub proof fn law_decimal_point_idempotent<N>(s: CalculatorView<N>, ev: EvaluationView<N>)
    ensures
        step(step(s, Action::DecimalPoint, ev), Action::DecimalPoint, ev) == step(
            s,
            Action::DecimalPoint,
            ev,
        ),
{
    reveal_strlit("0.");
    reveal_strlit("0");
    let s0 = if s.error {
        initial_view::<N>()
    } else {
        s
    };
    let s1 = step(s, Action::DecimalPoint, ev);
    if s0.replace {
        assert(s1.current == "0."@);
        assert(crate::calculator::has_point(s1.current)) by {
            assert(s1.current[1] == '.');
        }
    } else if !crate::calculator::has_point(s0.current) {
        assert(s1.current[s0.current.len() as int] == '.');
    }
}

/// While an error is shown, operators and `=` change nothing.
pub proof fn law_error_absorbs_arithmetic<N>(
    s: CalculatorView<N>,
    op: Operator,
    ev: EvaluationView<N>,
)
    requires
        s.error,
    ensures
        step(s, Action::Operator(op), ev) == s,
        step(s, Action::Equals, ev) == s,
{
}

/// After an error, a digit starts a fresh calculation showing just that digit.
pub proof fn law_digit_after_error_starts_over<N>(s: CalculatorView<N>, d: u8, ev: EvaluationView<N>)
    requires
        s.error,
        d <= 9,
    ensures
        step(s, Action::Digit(d), ev) == (CalculatorView::<N> {
            current: seq![crate::calculator::digit_to_char(d)],
            ..initial_view::<N>()
        }),
{
}

/// Backspace takes back a digit typed onto an entry being edited.
pub proof fn law_backspace_undoes_digit<N>(s: CalculatorView<N>, d: u8, ev: EvaluationView<N>)
    requires
        !s.error,
        !s.replace,
        d <= 9,
        s.current.len() >= 1,
        s.current != "-"@,
    ensures
        step(step(s, Action::Digit(d), ev), Action::Backspace, ev) == s,
{
    reveal_strlit("0");
    let s1 = step(s, Action::Digit(d), ev);
    if s.current == "0"@ {
        assert(s1.current.len() == 1);
    } else {
        assert(s1.current.drop_last() =~= s.current);
    }
}

/// A shortened card description never exceeds its limit.
pub proof fn law_short_description_fits(description: Seq<char>, max: nat)
    requires
        max >= 1,
    ensures
        shortened(description, max).len() <= max,
{
}

/// A digit typed while the display is marked for replacement (after an
/// operator or a result, with no error shown) starts a new entry holding just
/// that digit; what is stored and pending is kept.
pub proof fn law_digit_replaces_marked_display<N>(s: CalculatorView<N>, d: u8, ev: EvaluationView<N>)
    requires
        !s.error,
        s.replace,
        d <= 9,
    ensures
        step(s, Action::Digit(d), ev).current == seq![(('0' as u32) + (d as u32)) as char],
        !step(s, Action::Digit(d), ev).replace,
        step(s, Action::Digit(d), ev).stored == s.stored,
        step(s, Action::Digit(d), ev).pending == s.pending,
{
}

/// A digit typed onto an entry being edited (no error, not marked for
/// replacement, not the lone `0`) is appended to it.
pub proof fn law_digit_appends_to_edited_entry<N>(s: CalculatorView<N>, d: u8, ev: EvaluationView<N>)
    requires
        !s.error,
        !s.replace,
        s.current != "0"@,
        d <= 9,
    ensures
        step(s, Action::Digit(d), ev).current == s.current.push((('0' as u32) + (d as u32)) as char),
        !step(s, Action::Digit(d), ev).replace,
{
}

/// Whatever the state and whatever the host computed, the first digit typed
/// after an operator key starts a new entry: the display then shows exactly
/// that digit (the right operand), never the left operand with the digit
/// appended.
pub proof fn law_digit_after_operator_starts_new_entry<N>(
    s: CalculatorView<N>,
    op: Operator,
    ev: EvaluationView<N>,
    d: u8,
    ev2: EvaluationView<N>,
)
    requires
        d <= 9,
    ensures
        step(step(s, Action::Operator(op), ev), Action::Digit(d), ev2).current == seq![
            (('0' as u32) + (d as u32)) as char,
        ],
{
}

/// An entry that passes validation has every required field filled in (not
/// empty once trimmed), at least one tag, and no blank tag.
pub proof fn law_valid_entry_has_required_fields(t: RegisteredToolView)
    ensures
        tool_problem(t) is None ==> {
            &&& !is_blank(t.meta.id)
            &&& !is_blank(t.meta.slug)
            &&& !is_blank(t.meta.name)
            &&& !is_blank(t.meta.description)
            &&& !is_blank(t.meta.thumbnail)
            &&& !is_blank(t.crate_path)
            &&& !is_blank(t.entry_symbol)
            &&& !is_blank(t.wasm_url)
            &&& t.meta.tags.len() > 0
            &&& forall|k: int| 0 <= k < t.meta.tags.len() ==> !is_blank(#[trigger] t.meta.tags[k])
        },
{
}

/// A blank description is reported, and it is the reported problem when the
/// fields checked before it (id, slug, name) are filled in.
pub proof fn law_blank_description_is_reported(t: RegisteredToolView)
    requires
        is_blank(t.meta.description),
    ensures
        tool_problem(t) is Some,
        !is_blank(t.meta.id) && !is_blank(t.meta.slug) && !is_blank(t.meta.name) ==> tool_problem(t)
            == Some("field `"@ + "description"@ + "` must not be empty"@),
{
}

/// Every tag counts for the searches: a tool one of whose tags (any of them,
/// the first included) contains the query is a hit of the header search and
/// of the full-text filter; so is a tool whose name contains it. Conversely a
/// header-search hit has the query in its name or in one of its tags.
pub proof fn law_every_tag_is_searched(t: ToolMetaView, q: Seq<char>, k: int)
    ensures
        0 <= k < t.tags.len() && contains_ignore_case(t.tags[k], q) ==> name_or_tag_hit(t, q)
            && full_text_hit(t, q),
        contains_ignore_case(t.name, q) ==> name_or_tag_hit(t, q) && full_text_hit(t, q),
        name_or_tag_hit(t, q) ==> contains_ignore_case(t.name, q) || exists|j: int|
            0 <= j < t.tags.len() && contains_ignore_case(#[trigger] t.tags[j], q),
{
    if 0 <= k < t.tags.len() && contains_ignore_case(t.tags[k], q) {
        assert(tag_contains(t, q));
    }
}

/// A needle that occurs in `x` still occurs once text is added after `x`.
proof fn lemma_contains_extend(x: Seq<char>, n: Seq<char>, b: Seq<char>)
    requires
        contains_seq(x, n),
    ensures
        contains_seq(x + b, n),
{
    let at = choose|at: int| occurs_at(x, n, at);
    assert((x + b).subrange(at, at + n.len()) =~= x.subrange(at, at + n.len()));
    assert(occurs_at(x + b, n, at));
}

/// `f + m + a` occurs in text where `f` ends one piece, `m` is the next
/// piece and `a` begins the piece after it.
proof fn lemma_contains_span(
    pre: Seq<char>,
    u: Seq<char>,
    f: Seq<char>,
    m: Seq<char>,
    a: Seq<char>,
    v: Seq<char>,
)
    ensures
        contains_seq(pre + (u + f) + m + (a + v), f + m + a),
{
    let hay = pre + (u + f) + m + (a + v);
    let at: int = (pre.len() + u.len()) as int;
    assert(hay.subrange(at, at + (f + m + a).len()) =~= f + m + a);
    assert(occurs_at(hay, f + m + a, at));
}

/// Whatever the tool's slug and entry symbol, its loader declares the
/// contract's exports under their contract names: the default export is the
/// initializer, `mount` and `unmount` are exported functions, and `mount`
/// forwards to the entry symbol.
pub proof fn law_loader_exports_contract_names(slug: Seq<char>, entry: Seq<char>)
    ensures
        contains_seq(loader_shim_text(slug, entry), "export { init as default };"@),
        contains_seq(loader_shim_text(slug, entry), "export function mount(...args) {"@),
        contains_seq(loader_shim_text(slug, entry), "export function unmount(...args) {"@),
        contains_seq(loader_shim_text(slug, entry), "const mount = bindings[\""@ + entry + "\"];"@),
{
    let s1 = "\";\n\nexport { init as "@;
    let s2 = " };\n\nexport function "@;
    let s3 = "(...args) {\nconst mount = bindings[\""@;
    let s4 = "\"];\nif (typeof mount !== \"function\") {\nthrow new Error(\"Tool `"@;
    let s5 = "` is missing wasm-bindgen export `"@;
    let s6 = "` required by the loader contract.\");\n}\n\nreturn mount(...args);\n}\n\nexport function "@;
    let s7 = "(...args) {\nconst unmount = bindings[\""@;
    let s8 = "\"];\nif (typeof unmount !== \"function\") {\nreturn undefined;\n}\n\nreturn unmount(...args);\n}\n"@;
    let p4 = "import init, * as bindings from \""@ + "./"@ + slug + ".js"@;
    let p5 = p4 + s1;
    let p6 = p5 + "default"@;
    let p7 = p6 + s2;
    let p8 = p7 + "mount"@;
    let p9 = p8 + s3;
    let p10 = p9 + entry;
    let p11 = p10 + s4;
    let p12 = p11 + slug;
    let p13 = p12 + s5;
    let p14 = p13 + entry;
    let p15 = p14 + s6;
    let p16 = p15 + "unmount"@;
    let p17 = p16 + s7;
    let p18 = p17 + "unmount"@;
    let text = p18 + s8;
    assert(text == loader_shim_text(slug, entry));

    let func = "export function "@;
    let args = "(...args) {"@;
    let cm = "const mount = bindings[\""@;
    let cb = "\"];"@;
    let init = "export { init as "@;
    let close = " };"@;
    reveal_strlit("\";\n\nexport { init as ");
    reveal_strlit("\";\n\n");
    reveal_strlit("export { init as ");
    assert(s1 =~= "\";\n\n"@ + init);
    reveal_strlit(" };\n\nexport function ");
    reveal_strlit(" };");
    reveal_strlit("\n\nexport function ");
    reveal_strlit("export function ");
    reveal_strlit("\n\n");
    assert(s2 =~= close + "\n\nexport function "@);
    assert(s2 =~= " };\n\n"@ + func) by {
        reveal_strlit(" };\n\n");
    }
    reveal_strlit("(...args) {\nconst mount = bindings[\"");
    reveal_strlit("(...args) {");
    reveal_strlit("\nconst mount = bindings[\"");
    reveal_strlit("const mount = bindings[\"");
    assert(s3 =~= args + "\nconst mount = bindings[\""@);
    assert(s3 =~= "(...args) {\n"@ + cm) by {
        reveal_strlit("(...args) {\n");
    }
    reveal_strlit("\"];\nif (typeof mount !== \"function\") {\nthrow new Error(\"Tool `");
    reveal_strlit("\"];");
    reveal_strlit("\nif (typeof mount !== \"function\") {\nthrow new Error(\"Tool `");
    assert(s4 =~= cb + "\nif (typeof mount !== \"function\") {\nthrow new Error(\"Tool `"@);
    reveal_strlit("` required by the loader contract.\");\n}\n\nreturn mount(...args);\n}\n\nexport function ");
    reveal_strlit("` required by the loader contract.\");\n}\n\nreturn mount(...args);\n}\n\n");
    assert(s6 =~= "` required by the loader contract.\");\n}\n\nreturn mount(...args);\n}\n\n"@ + func);
    reveal_strlit("(...args) {\nconst unmount = bindings[\"");
    reveal_strlit("\nconst unmount = bindings[\"");
    assert(s7 =~= args + "\nconst unmount = bindings[\""@);

    // The default export.
    reveal_strlit("export { init as default };");
    reveal_strlit("default");
    assert("export { init as default };"@ =~= init + "default"@ + close);
    lemma_contains_span(p4, "\";\n\n"@, init, "default"@, close, "\n\nexport function "@);
    assert(contains_seq(p7, "export { init as default };"@));
    lemma_contains_extend(p7, "export { init as default };"@, "mount"@);
    lemma_contains_extend(p8, "export { init as default };"@, s3);
    lemma_contains_extend(p9, "export { init as default };"@, entry);
    lemma_contains_extend(p10, "export { init as default };"@, s4);
    lemma_contains_extend(p11, "export { init as default };"@, slug);
    lemma_contains_extend(p12, "export { init as default };"@, s5);
    lemma_contains_extend(p13, "export { init as default };"@, entry);
    lemma_contains_extend(p14, "export { init as default };"@, s6);
    lemma_contains_extend(p15, "export { init as default };"@, "unmount"@);
    lemma_contains_extend(p16, "export { init as default };"@, s7);
    lemma_contains_extend(p17, "export { init as default };"@, "unmount"@);
    lemma_contains_extend(p18, "export { init as default };"@, s8);

    // The `mount` export.
    reveal_strlit("export function mount(...args) {");
    reveal_strlit("mount");
    assert("export function mount(...args) {"@ =~= func + "mount"@ + args);
    lemma_contains_span(p6, " };\n\n"@, func, "mount"@, args, "\nconst mount = bindings[\""@);
    assert(contains_seq(p9, "export function mount(...args) {"@));
    lemma_contains_extend(p9, "export function mount(...args) {"@, entry);
    lemma_contains_extend(p10, "export function mount(...args) {"@, s4);
    lemma_contains_extend(p11, "export function mount(...args) {"@, slug);
    lemma_contains_extend(p12, "export function mount(...args) {"@, s5);
    lemma_contains_extend(p13, "export function mount(...args) {"@, entry);
    lemma_contains_extend(p14, "export function mount(...args) {"@, s6);
    lemma_contains_extend(p15, "export function mount(...args) {"@, "unmount"@);
    lemma_contains_extend(p16, "export function mount(...args) {"@, s7);
    lemma_contains_extend(p17, "export function mount(...args) {"@, "unmount"@);
    lemma_contains_extend(p18, "export function mount(...args) {"@, s8);

    // `mount` forwards to the entry symbol.
    let fwd = cm + entry + cb;
    lemma_contains_span(
        p8,
        "(...args) {\n"@,
        cm,
        entry,
        cb,
        "\nif (typeof mount !== \"function\") {\nthrow new Error(\"Tool `"@,
    );
    assert(contains_seq(p11, fwd));
    lemma_contains_extend(p11, fwd, slug);
    lemma_contains_extend(p12, fwd, s5);
    lemma_contains_extend(p13, fwd, entry);
    lemma_contains_extend(p14, fwd, s6);
    lemma_contains_extend(p15, fwd, "unmount"@);
    lemma_contains_extend(p16, fwd, s7);
    lemma_contains_extend(p17, fwd, "unmount"@);
    lemma_contains_extend(p18, fwd, s8);

    // The `unmount` export.
    reveal_strlit("export function unmount(...args) {");
    reveal_strlit("unmount");
    assert("export function unmount(...args) {"@ =~= func + "unmount"@ + args);
    lemma_contains_span(
        p14,
        "` required by the loader contract.\");\n}\n\nreturn mount(...args);\n}\n\n"@,
        func,
        "unmount"@,
        args,
        "\nconst unmount = bindings[\""@,
    );
    assert(contains_seq(p17, "export function unmount(...args) {"@));
    lemma_contains_extend(p17, "export function unmount(...args) {"@, "unmount"@);
    lemma_contains_extend(p18, "export function unmount(...args) {"@, s8);
}

/// The second line of a search result names the category and then lists the
/// tool's first tags, up to three, separated by `, `: every tag of a tool
/// with at most three tags is listed, in order.
pub proof fn law_result_meta_lists_leading_tags(t: ToolMetaView)
    ensures
        t.tags.len() == 0 ==> result_meta_text(t) == category_label(t.category),
        t.tags.len() == 1 ==> result_meta_text(t) == category_label(t.category) + " • "@ + t.tags[0],
        t.tags.len() == 2 ==> result_meta_text(t) == category_label(t.category) + " • "@ + t.tags[0]
            + ", "@ + t.tags[1],
        t.tags.len() >= 3 ==> result_meta_text(t) == category_label(t.category) + " • "@ + t.tags[0]
            + ", "@ + t.tags[1] + ", "@ + t.tags[2],
{
    reveal_with_fuel(crate::shell::joined_tags, 4);
}

} // verus!
