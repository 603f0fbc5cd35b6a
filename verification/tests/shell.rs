use toolbox::shell::{empty_category_message, match_summary, search_result_meta, tool_count_label, tool_href};
use toolbox::text::{char_is_space, char_to_ascii_lower};
use toolbox::{all_categories, breadcrumbs, category_description, format_segment, short_description, BreadcrumbItem, Category, ToolMeta};

fn crumb(label: &str, href: &str, current: bool) -> BreadcrumbItem {
    BreadcrumbItem { label: label.to_owned(), href: href.to_owned(), current }
}

#[test]
fn whitespace_and_case_folding_match_std_for_every_char() {
    for code in 0..=0x10FFFFu32 {
        if let Some(c) = char::from_u32(code) {
            assert_eq!(char_is_space(c), c.is_whitespace(), "{code:#x}");
            assert_eq!(char_to_ascii_lower(c), c.to_ascii_lowercase(), "{code:#x}");
        }
    }
}

#[test]
fn lists_categories_in_display_order() {
    assert_eq!(
        all_categories(),
        vec![
            Category::Utilities,
            Category::Math,
            Category::Text,
            Category::Developer,
            Category::Media,
            Category::Productivity
        ]
    );
    assert_eq!(
        category_description(&Category::Math),
        "Calculators and numeric tools for fast, focused problem solving."
    );
    assert_eq!(
        category_description(&Category::Productivity),
        "Workflow-oriented tools designed to speed up repetitive work."
    );
}

#[test]
fn formats_route_segments_as_titles() {
    assert_eq!(format_segment("json-pretty"), "Json Pretty");
    assert_eq!(format_segment("calculator"), "Calculator");
    assert_eq!(format_segment("--a--b-"), "A B");
    assert_eq!(format_segment("---"), "");
    assert_eq!(format_segment(""), "");
    assert_eq!(format_segment("ßtraße-émile"), "SStraße Émile");
    assert_eq!(format_segment("tools"), "Tools");
}

#[test]
fn shortens_card_descriptions() {
    assert_eq!(short_description("  short  ", 88), "short");
    assert_eq!(short_description("abcdef", 4), "abc…");
    assert_eq!(short_description("abcd", 4), "abcd");
    assert_eq!(short_description("abcd", 0), "…");
    assert_eq!(short_description("", 0), "");
    assert_eq!(short_description("ééééé", 3), "éé…");
    for max in 1..10 {
        assert!(short_description("a longer description", max).chars().count() <= max);
    }
}

#[test]
fn builds_breadcrumb_trails() {
    assert_eq!(breadcrumbs("/"), vec![crumb("Home", "/", true)]);
    assert_eq!(breadcrumbs(""), vec![crumb("Home", "/", true)]);
    assert_eq!(
        breadcrumbs("/tools/json-pretty"),
        vec![
            crumb("Home", "/", false),
            crumb("Tools", "/tools", false),
            crumb("Json Pretty", "/tools/json-pretty", true),
        ]
    );
    assert_eq!(
        breadcrumbs("//category/math//"),
        vec![crumb("Home", "/", false), crumb("Category", "/category", false), crumb("Math", "/category/math", true)]
    );
    assert_eq!(
        breadcrumbs("/a//b"),
        vec![crumb("Home", "/", false), crumb("A", "/a", false), crumb("", "/a/", false), crumb("B", "/a//b", true)]
    );
}

#[test]
fn renders_counts_and_summaries() {
    assert_eq!(tool_count_label(0), "0 tools");
    assert_eq!(tool_count_label(1), "1 tool");
    assert_eq!(tool_count_label(12), "12 tools");
    assert_eq!(match_summary(1), "1 match");
    assert_eq!(match_summary(6), "6 matches");
    assert_eq!(tool_href("calculator"), "/tools/calculator");
    assert_eq!(empty_category_message(&Category::Productivity), "No productivity tools are registered yet.");

    let tool = ToolMeta::new("a", "a", "A", Category::Developer, &["json", "format", "debug", "extra"], "d", "i");
    assert_eq!(search_result_meta(&tool), "Developer • json, format, debug");
    let tool = ToolMeta::new("a", "a", "A", Category::Math, &["one"], "d", "i");
    assert_eq!(search_result_meta(&tool), "Math • one");
    let tool = ToolMeta::new("a", "a", "A", Category::Text, &[], "d", "i");
    assert_eq!(search_result_meta(&tool), "Text");
}
