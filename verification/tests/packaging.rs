use toolbox::{
    expected_artifact_names, parse_subcommand, render_loader_shim, tool_loader_path, Category,
    RegisteredTool, Subcommand, ToolHostError, ToolHostStatus, ToolMeta, ToolModuleCache,
};

fn sample_tool() -> RegisteredTool {
    RegisteredTool {
        meta: ToolMeta::new(
            "calculator",
            "calculator",
            "Calculator",
            Category::Math,
            &["math", "utility"],
            "A simple calculator tool.",
            "/public/thumbnails/calculator.svg",
        ),
        crate_path: "crates/tools/calculator".to_owned(),
        entry_symbol: "mount".to_owned(),
        wasm_url: "/tools/calculator/calculator_bg.wasm".to_owned(),
    }
}

#[test]
fn renders_loader_shim_with_contract_exports() {
    let shim = render_loader_shim(&sample_tool());

    assert!(shim.contains("import init, * as bindings from \"./calculator.js\";"));
    assert!(shim.contains("export { init as default };"));
    assert!(shim.contains("export function mount(...args) {"));
    assert!(shim.contains("bindings[\"mount\"]"));
    assert!(shim.contains("export function unmount(...args) {"));
}

#[test]
fn loader_shim_text_is_exact() {
    let expected = "import init, * as bindings from \"./calculator.js\";\n\nexport { init as default };\n\nexport function mount(...args) {\nconst mount = bindings[\"mount\"];\nif (typeof mount !== \"function\") {\nthrow new Error(\"Tool `calculator` is missing wasm-bindgen export `mount` required by the loader contract.\");\n}\n\nreturn mount(...args);\n}\n\nexport function unmount(...args) {\nconst unmount = bindings[\"unmount\"];\nif (typeof unmount !== \"function\") {\nreturn undefined;\n}\n\nreturn unmount(...args);\n}\n";
    assert_eq!(render_loader_shim(&sample_tool()), expected);
}

#[test]
fn loader_shim_forwards_to_the_entry_symbol() {
    let mut tool = sample_tool();
    tool.entry_symbol = "start".to_owned();
    tool.meta.slug = "json-pretty".to_owned();
    let shim = render_loader_shim(&tool);
    assert!(shim.contains("from \"./json-pretty.js\""));
    assert!(shim.contains("const mount = bindings[\"start\"];"));
    assert!(shim.contains("Tool `json-pretty` is missing wasm-bindgen export `start`"));
    assert!(shim.contains("const unmount = bindings[\"unmount\"];"));
}

#[test]
fn names_expected_artifacts() {
    let (wasm, bindings) = expected_artifact_names(&sample_tool());
    assert_eq!(wasm, "calculator_bg.wasm");
    assert_eq!(bindings, "calculator.js");

    let mut tool = sample_tool();
    tool.wasm_url = "plain.wasm".to_owned();
    assert_eq!(expected_artifact_names(&tool).0, "plain.wasm");
    tool.wasm_url = "/tools/calculator/".to_owned();
    assert_eq!(expected_artifact_names(&tool).0, "");
}

#[test]
fn chooses_build_subcommands() {
    assert_eq!(parse_subcommand(Some("build")), Ok(Subcommand::Build));
    assert_eq!(parse_subcommand(Some("e2e")), Ok(Subcommand::E2e));
    assert_eq!(
        parse_subcommand(None),
        Err("expected a subcommand, e.g. `cargo xtask build` or `cargo xtask e2e`".to_owned())
    );
    assert_eq!(
        parse_subcommand(Some("deploy")),
        Err("unsupported xtask subcommand `deploy`".to_owned())
    );
}

#[test]
fn builds_loader_path_from_slug() {
    assert_eq!(tool_loader_path("calculator"), "/tools/calculator/loader.js");
}

#[test]
fn describes_tool_host_failures() {
    let cases = [
        (ToolHostError::ImportFailed("/tools/a/loader.js".to_owned(), "404".to_owned()), "failed to import `/tools/a/loader.js`: 404"),
        (ToolHostError::InvalidModuleExport("a".to_owned(), "mount".to_owned(), "export is not callable".to_owned()), "tool `a` exported invalid `mount` loader binding: export is not callable"),
        (ToolHostError::InitFailed("a".to_owned(), "boom".to_owned()), "tool `a` failed to initialize: boom"),
        (ToolHostError::MountFailed("a".to_owned(), "boom".to_owned()), "tool `a` failed to mount: boom"),
        (ToolHostError::UnmountFailed("a".to_owned(), "boom".to_owned()), "tool `a` failed to unmount: boom"),
    ];
    for (error, text) in cases {
        assert_eq!(error.message(), text);
        assert_eq!(toolbox::tool_host::status_after_load(&Err(error)), ToolHostStatus::Error(text.to_owned()));
    }
    assert_eq!(toolbox::tool_host::status_after_load(&Ok(())), ToolHostStatus::Ready);
}

#[test]
fn module_cache_tracks_imports_and_initialization() {
    let mut cache: ToolModuleCache<u32> = ToolModuleCache::new();
    assert_eq!(cache.namespace("calculator"), None);
    assert!(!cache.is_initialized("calculator"));

    cache.insert("calculator", 1);
    cache.insert("json-pretty", 2);
    assert_eq!(cache.namespace("calculator"), Some(&1));
    assert!(!cache.is_initialized("calculator"));

    cache.mark_initialized("calculator");
    cache.mark_initialized("unknown");
    assert!(cache.is_initialized("calculator"));
    assert!(!cache.is_initialized("json-pretty"));
    assert!(!cache.is_initialized("unknown"));
    assert_eq!(cache.namespace("unknown"), None);

    cache.insert("calculator", 3);
    assert_eq!(cache.namespace("calculator"), Some(&3));
    assert!(!cache.is_initialized("calculator"));

    cache.remove("calculator");
    assert_eq!(cache.namespace("calculator"), None);
    assert_eq!(cache.namespace("json-pretty"), Some(&2));
    assert_eq!(cache.namespace("Calculator"), None);
}
