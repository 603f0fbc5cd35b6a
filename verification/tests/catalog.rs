use toolbox::{
    category_from_slug, is_success_status, Category, RegisteredTool, RegistryLoadError,
    RuntimeRegistry, ToolMeta, ToolRegistry,
};

fn sample_registry() -> RuntimeRegistry {
    RuntimeRegistry::new(vec![
        ToolMeta::new(
            "calculator",
            "calculator",
            "Calculator",
            Category::Math,
            &["math", "utility"],
            "A calculator for arithmetic.",
            "/public/thumbnails/calculator.svg",
        ),
        ToolMeta::new(
            "json-pretty",
            "json-pretty",
            "JSON Pretty",
            Category::Developer,
            &["json", "formatting"],
            "Format and inspect JSON data.",
            "/assets/json-pretty.png",
        ),
    ])
}

fn slugs(tools: &[ToolMeta]) -> Vec<&str> {
    tools.iter().map(|tool| tool.slug.as_str()).collect()
}

#[test]
fn selects_tools_by_category_slug() {
    let registry = sample_registry();
    let tools = registry.by_category_slug("math");

    assert_eq!(tools.len(), 1);
    assert_eq!(tools[0].slug, "calculator");
}

#[test]
fn category_slug_selection_ignores_case_and_agrees_with_category() {
    let registry = sample_registry();
    assert_eq!(registry.by_category_slug("DEVELOPER"), registry.by_category(&Category::Developer));
    assert_eq!(registry.by_category_slug("Math"), registry.by_category(&Category::Math));
    assert!(registry.by_category_slug(" math").is_empty());
    assert!(registry.by_category(&Category::Media).is_empty());
}

#[test]
fn selects_tools_by_slug() {
    let registry = sample_registry();
    let tool = registry.by_slug("json-pretty");

    assert_eq!(tool.map(|tool| tool.name), Some("JSON Pretty".to_owned()));
}

#[test]
fn slug_lookup_ignores_case_and_takes_first_match() {
    let registry = RuntimeRegistry::new(vec![
        ToolMeta::new("a", "Dup", "First", Category::Text, &["t"], "d", "i"),
        ToolMeta::new("b", "dup", "Second", Category::Text, &["t"], "d", "i"),
    ]);
    assert_eq!(registry.by_slug("DUP").map(|tool| tool.name), Some("First".to_owned()));
    assert_eq!(sample_registry().by_slug("JSON-PRETTY").map(|tool| tool.id), Some("json-pretty".to_owned()));
    assert!(sample_registry().by_slug("missing").is_none());
}

#[test]
fn selects_tools_by_tag() {
    let registry = sample_registry();
    let tools = registry.by_tag("utility");

    assert_eq!(tools.len(), 1);
    assert_eq!(tools[0].id, "calculator");
}

#[test]
fn tag_selection_ignores_case_but_not_partial_tags() {
    let registry = sample_registry();
    assert_eq!(slugs(&registry.by_tag("JSON")), vec!["json-pretty"]);
    assert!(registry.by_tag("util").is_empty());
}

#[test]
fn filters_tools_by_full_text() {
    let registry = sample_registry();
    let tools = registry.filter("inspect");

    assert_eq!(tools.len(), 1);
    assert_eq!(tools[0].slug, "json-pretty");
}

#[test]
fn full_text_filter_covers_every_field_and_blank_queries() {
    let registry = sample_registry();
    assert_eq!(slugs(&registry.filter("   ")), vec!["calculator", "json-pretty"]);
    assert_eq!(slugs(&registry.filter("")), vec!["calculator", "json-pretty"]);
    assert_eq!(slugs(&registry.filter("DEVELOP")), vec!["json-pretty"]);
    assert_eq!(slugs(&registry.filter(" ARITHMETIC ")), vec!["calculator"]);
    assert_eq!(slugs(&registry.filter("on-pr")), vec!["json-pretty"]);
    assert_eq!(slugs(&registry.filter("a")), vec!["calculator", "json-pretty"]);
    assert!(registry.filter("zzz").is_empty());
}

#[test]
fn searches_tools_by_name_and_tags_only() {
    let registry = sample_registry();

    let name_match = registry.search_by_name_and_tags("calc");
    let tag_match = registry.search_by_name_and_tags("format");
    let description_only_match = registry.search_by_name_and_tags("inspect");

    assert_eq!(name_match.len(), 1);
    assert_eq!(name_match[0].slug, "calculator");
    assert_eq!(tag_match.len(), 1);
    assert_eq!(tag_match[0].slug, "json-pretty");
    assert!(description_only_match.is_empty());
}

#[test]
fn search_ignores_blank_queries_and_stays_within_full_text() {
    let registry = sample_registry();
    assert!(registry.search_by_name_and_tags(" \t ").is_empty());
    assert_eq!(slugs(&registry.search_by_name_and_tags("  PRETTY ")), vec!["json-pretty"]);
    for query in ["a", "json", "math", "inspect", "developer", "calc"] {
        let full_text = registry.filter(query);
        for tool in registry.search_by_name_and_tags(query) {
            assert!(full_text.contains(&tool));
        }
    }
}

#[test]
fn resolves_category_from_slug() {
    let category = category_from_slug("developer");

    assert_eq!(category, Some(Category::Developer));
}

#[test]
fn category_slugs_and_labels_round_trip() {
    for category in toolbox::all_categories() {
        assert_eq!(category_from_slug(category.as_str()), Some(category));
        assert_eq!(category_from_slug(category.label()), Some(category));
    }
    assert_eq!(category_from_slug("  MaTh \n"), Some(Category::Math));
    assert_eq!(category_from_slug("maths"), None);
    assert_eq!(category_from_slug(""), None);
}

#[test]
fn catalog_keeps_registry_order() {
    let tool = |id: &str| RegisteredTool {
        meta: ToolMeta::new(id, id, id, Category::Text, &["t"], "d", "i"),
        crate_path: "c".to_owned(),
        entry_symbol: "mount".to_owned(),
        wasm_url: "w".to_owned(),
    };
    let registry = ToolRegistry { tools: vec![tool("b"), tool("a"), tool("c")] };
    let catalog = RuntimeRegistry::from_tool_registry(registry);
    assert_eq!(slugs(catalog.tools()), vec!["b", "a", "c"]);
}

#[test]
fn reports_registry_load_failures() {
    assert_eq!(
        RegistryLoadError::RequestFailed("offline".to_owned()).message(),
        "failed to fetch registry.json: offline"
    );
    assert_eq!(
        RegistryLoadError::HttpStatus { status: 404, body: "missing".to_owned() }.message(),
        "registry.json request returned status 404: missing"
    );
    assert_eq!(
        RegistryLoadError::HttpStatus { status: 0, body: String::new() }.message(),
        "registry.json request returned status 0: "
    );
    assert_eq!(
        RegistryLoadError::ParseFailed("bad json".to_owned()).message(),
        "failed to parse registry.json: bad json"
    );
    assert_eq!(
        toolbox::runtime::unreadable_body_message("gone"),
        "failed to read error response body: gone"
    );
}

#[test]
fn success_statuses_are_2xx() {
    assert!(is_success_status(200));
    assert!(is_success_status(299));
    assert!(!is_success_status(199));
    assert!(!is_success_status(300));
    assert!(!is_success_status(404));
}
