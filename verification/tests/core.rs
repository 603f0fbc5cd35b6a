use toolbox::{Category, Context, RegisteredTool, RegistryError, ToolMeta, ToolRegistry};

fn calculator_entry() -> RegisteredTool {
    RegisteredTool {
        meta: ToolMeta::new(
            "calculator",
            "calculator",
            "Calculator",
            Category::Math,
            &["math", "utility"],
            "A simple calculator.",
            "/assets/calculator.png",
        ),
        crate_path: "crates/tools/calculator".to_owned(),
        entry_symbol: "mount".to_owned(),
        wasm_url: "/tools/calculator/calculator.wasm".to_owned(),
    }
}

fn invalid_message(result: Result<(), RegistryError>) -> String {
    match result {
        Err(RegistryError::Invalid(message)) => message,
        other => panic!("expected an invalid-registry error, got {other:?}"),
    }
}

#[test]
fn prefixes_local_storage_keys() {
    let context = Context::new("toolbox");

    assert_eq!(context.storage_namespace(), "toolbox");
    assert_eq!(context.storage_key("recent"), "toolbox:recent");
}

#[test]
fn storage_key_keeps_separator_for_empty_parts() {
    assert_eq!(Context::new("").storage_key(""), ":");
    assert_eq!(Context::new("a:b").storage_key("c"), "a:b:c");
}

#[test]
fn category_string_values_are_stable() {
    assert_eq!(Category::Utilities.as_str(), "utilities");
    assert_eq!(Category::Developer.label(), "Developer");
}

#[test]
fn category_slugs_and_labels_cover_every_category() {
    let expected = [
        (Category::Utilities, "utilities", "Utilities"),
        (Category::Math, "math", "Math"),
        (Category::Text, "text", "Text"),
        (Category::Developer, "developer", "Developer"),
        (Category::Media, "media", "Media"),
        (Category::Productivity, "productivity", "Productivity"),
    ];
    for (category, slug, label) in expected {
        assert_eq!(category.as_str(), slug);
        assert_eq!(category.label(), label);
    }
    assert_eq!(Category::default(), Category::Utilities);
}

#[test]
fn tool_meta_collects_owned_values() {
    let meta = ToolMeta::new(
        "calculator",
        "calculator",
        "Calculator",
        Category::Math,
        &["math", "utility"],
        "A simple calculator.",
        "/assets/calculator.png",
    );

    assert_eq!(meta.id, "calculator");
    assert_eq!(meta.slug, "calculator");
    assert_eq!(meta.name, "Calculator");
    assert_eq!(meta.category, Category::Math);
    assert_eq!(meta.tags, vec!["math", "utility"]);
    assert_eq!(meta.description, "A simple calculator.");
    assert_eq!(meta.thumbnail, "/assets/calculator.png");
}

#[test]
fn tool_meta_clone_is_equal() {
    let meta = calculator_entry().meta;
    assert_eq!(meta.clone(), meta);
}

#[test]
fn accepts_valid_registry() {
    let registry = ToolRegistry { tools: vec![calculator_entry()] };
    assert!(registry.validate().is_ok());
    assert!(ToolRegistry::default().validate().is_ok());
    assert_eq!(registry.tools[0].category(), &Category::Math);
}

#[test]
fn rejects_duplicate_ids() {
    let registry = ToolRegistry { tools: vec![calculator_entry(), calculator_entry()] };
    let message = invalid_message(registry.validate());

    assert!(message.contains("duplicate tool id"));
    assert_eq!(message, "duplicate tool id `calculator`");
}

#[test]
fn rejects_duplicate_slugs() {
    let mut second = calculator_entry();
    second.meta.id = "calculator-2".to_owned();
    let registry = ToolRegistry { tools: vec![calculator_entry(), second] };

    assert_eq!(invalid_message(registry.validate()), "duplicate tool slug `calculator`");
}

#[test]
fn rejects_empty_tags() {
    let mut tool = calculator_entry();
    tool.meta.tags = vec!["".to_owned()];
    let registry = ToolRegistry { tools: vec![tool] };
    let message = invalid_message(registry.validate());

    assert!(message.contains("empty tag"));
    assert_eq!(message, "tool `calculator` contains an empty tag");
}

#[test]
fn rejects_missing_tags_and_blank_fields() {
    let mut tool = calculator_entry();
    tool.meta.tags.clear();
    assert_eq!(invalid_message(tool.validate()), "tool `calculator` must declare at least one tag");

    let mut tool = calculator_entry();
    tool.meta.tags = vec!["math".to_owned(), " \t\u{3000}".to_owned()];
    assert_eq!(invalid_message(tool.validate()), "tool `calculator` contains an empty tag");

    let mut tool = calculator_entry();
    tool.meta.name = "  \n".to_owned();
    assert_eq!(invalid_message(tool.validate()), "field `name` must not be empty");

    let mut tool = calculator_entry();
    tool.wasm_url = String::new();
    tool.meta.id = String::new();
    assert_eq!(invalid_message(tool.validate()), "field `id` must not be empty");

    let mut tool = calculator_entry();
    tool.entry_symbol = "\u{2003}".to_owned();
    assert_eq!(invalid_message(tool.validate()), "field `entry_symbol` must not be empty");
}

#[test]
fn reports_first_problem_in_file_order() {
    let mut broken = calculator_entry();
    broken.meta.slug = " ".to_owned();
    let registry = ToolRegistry { tools: vec![calculator_entry(), broken, calculator_entry()] };

    assert_eq!(invalid_message(registry.validate()), "field `slug` must not be empty");
}
