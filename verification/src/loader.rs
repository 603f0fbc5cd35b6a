//! Packaging of tool crates: the `loader.js` shim that adapts a tool's
//! wasm-bindgen output to the shell's loader contract, the artifacts a
//! packaged tool must contain, and the build command's subcommands.
use vstd::prelude::*;
use vstd::string::*;

use crate::registry::{RegisteredTool, RegisteredToolView};
use crate::text::{chars_of, str_eq, string_from_chars};
use crate::tool_host::{
    TOOL_INIT_EXPORT_NAME, TOOL_LOADER_FILE_NAME, TOOL_MOUNT_EXPORT_NAME, TOOL_UNMOUNT_EXPORT_NAME,
};

verus! {

/// The loader shim of a tool with the given slug and mount export.
pub open spec fn loader_shim_text(slug: Seq<char>, entry: Seq<char>) -> Seq<char> {
    "import init, * as bindings from \""@ + "./"@ + slug + ".js"@ + "\";\n\nexport { init as "@
        + "default"@ + " };\n\nexport function "@ + "mount"@
        + "(...args) {\nconst mount = bindings[\""@ + entry
        + "\"];\nif (typeof mount !== \"function\") {\nthrow new Error(\"Tool `"@ + slug
        + "` is missing wasm-bindgen export `"@ + entry
        + "` required by the loader contract.\");\n}\n\nreturn mount(...args);\n}\n\nexport function "@
        + "unmount"@ + "(...args) {\nconst unmount = bindings[\""@ + "unmount"@
        + "\"];\nif (typeof unmount !== \"function\") {\nreturn undefined;\n}\n\nreturn unmount(...args);\n}\n"@
}

/// The `loader.js` module for a tool: it re-exports the wasm-bindgen
/// initializer as the default export, forwards `mount` to the tool's entry
/// symbol (failing loudly when that export is missing) and forwards
/// `unmount` when the tool provides it.
pub fn render_loader_shim(tool: &RegisteredTool) -> (r: String)
    ensures
        r@ == loader_shim_text(tool@.meta.slug, tool@.entry_symbol),
{
    let slug = tool.meta.slug.as_str();
    let entry = tool.entry_symbol.as_str();
    let mut s = String::from_str("import init, * as bindings from \"");
    s.append("./");
    s.append(slug);
    s.append(".js");
    s.append("\";\n\nexport { init as ");
    s.append(TOOL_INIT_EXPORT_NAME);
    s.append(" };\n\nexport function ");
    s.append(TOOL_MOUNT_EXPORT_NAME);
    s.append("(...args) {\nconst mount = bindings[\"");
    s.append(entry);
    s.append("\"];\nif (typeof mount !== \"function\") {\nthrow new Error(\"Tool `");
    s.append(slug);
    s.append("` is missing wasm-bindgen export `");
    s.append(entry);
    s.append("` required by the loader contract.\");\n}\n\nreturn mount(...args);\n}\n\nexport function ");
    s.append(TOOL_UNMOUNT_EXPORT_NAME);
    s.append("(...args) {\nconst unmount = bindings[\"");
    s.append(TOOL_UNMOUNT_EXPORT_NAME);
    s.append("\"];\nif (typeof unmount !== \"function\") {\nreturn undefined;\n}\n\nreturn unmount(...args);\n}\n");
    s
}

/// The part of `url` after its last `/` (all of it when there is none).
pub open spec fn last_path_segment(url: Seq<char>) -> Seq<char> {
    url.subrange(after_last_slash(url), url.len() as int)
}

/// Index just after the last `/` of `url`, or 0.
pub open spec fn after_last_slash(url: Seq<char>) -> int {
    choose|k: int| is_after_last_slash(url, k)
}

pub open spec fn is_after_last_slash(url: Seq<char>, k: int) -> bool {
    &&& 0 <= k <= url.len()
    &&& (k == 0 || url[k - 1] == '/')
    &&& forall|i: int| k <= i < url.len() ==> url[i] != '/'
}

/// The file names a packaged tool must contain: the wasm module named by the
/// last segment of its `wasm_url`, and the wasm-bindgen JS bindings `<slug>.js`.
pub fn expected_artifact_names(tool: &RegisteredTool) -> (r: (String, String))
    ensures
        r.0@ == last_path_segment(tool@.wasm_url),
        r.1@ == tool@.meta.slug + ".js"@,
{
    let url = chars_of(tool.wasm_url.as_str());
    let mut k: usize = url.len();
    while k > 0 && url[k - 1] != '/'
        invariant
            k <= url@.len(),
            forall|i: int| k <= i < url@.len() ==> url@[i] != '/',
        decreases k,
    {
        k = k - 1;
    }
    proof {
        let c = after_last_slash(url@);
        assert(is_after_last_slash(url@, k as int));
        assert(is_after_last_slash(url@, c));
        if c < k {
            assert(url@[k - 1] == '/');
        } else if k < c {
            assert(url@[c - 1] == '/');
        }
    }
    let mut name: Vec<char> = Vec::new();
    let mut i: usize = k;
    while i < url.len()
        invariant
            k <= i <= url@.len(),
            name@ =~= url@.subrange(k as int, i as int),
        decreases url.len() - i,
    {
        name.push(url[i]);
        i = i + 1;
    }
    let mut bindings = tool.meta.slug.clone();
    bindings.append(".js");
    (string_from_chars(&name), bindings)
}

/// The build command's subcommands.
#[derive(Clone, Copy, Debug, PartialEq, Eq, Structural)]
pub enum Subcommand {
    Build,
    E2e,
}

/// The subcommand named by the first argument, or the message explaining why
/// there is none.
pub open spec fn subcommand_for(arg: Option<Seq<char>>) -> Result<Subcommand, Seq<char>> {
    match arg {
        None => Err("expected a subcommand, e.g. `cargo xtask build` or `cargo xtask e2e`"@),
        Some(a) => if a == "build"@ {
            Ok(Subcommand::Build)
        } else if a == "e2e"@ {
            Ok(Subcommand::E2e)
        } else {
            Err("unsupported xtask subcommand `"@ + a + "`"@)
        },
    }
}

/// Chooses the subcommand from the first command-line argument.
pub fn parse_subcommand(arg: Option<&str>) -> (r: Result<Subcommand, String>)
    ensures
        match (r, subcommand_for(
            match arg {
                Some(a) => Some(a@),
                None => None,
            },
        )) {
            (Ok(s), Ok(t)) => s == t,
            (Err(m), Err(t)) => m@ == t,
            _ => false,
        },
{
    match arg {
        None => Err(String::from_str(
            "expected a subcommand, e.g. `cargo xtask build` or `cargo xtask e2e`",
        )),
        Some(a) => {
            if str_eq(a, "build") {
                Ok(Subcommand::Build)
            } else if str_eq(a, "e2e") {
                Ok(Subcommand::E2e)
            } else {
                let mut m = String::from_str("unsupported xtask subcommand `");
                m.append(a);
                m.append("`");
                Err(m)
            }
        },
    }
}

} // verus!
