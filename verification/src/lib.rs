//! Verified core of a browser tools shell: the tool registry and its
//! validation, the runtime catalog with its queries, the tool-host module
//! cache, the shell's page helpers, the loader shim and the calculator.
#![allow(unused_imports)]

use vstd::prelude::*;

pub mod text;
pub mod types;
pub mod error;
pub mod registry;
pub mod runtime;
pub mod tool_host;
pub mod calculator;
pub mod context;
pub mod loader;
pub mod shell;
pub mod laws;

pub use calculator::{
    action_from_key, action_from_token, display_name, mount_calculator, Action, CalculatorState,
    Evaluation, Operator, TOOL_NAME,
};
pub use context::Context;
pub use error::{RegistryError, ToolError};
pub use loader::{expected_artifact_names, parse_subcommand, render_loader_shim, Subcommand};
pub use registry::{RegisteredTool, ToolRegistry};
pub use runtime::{category_from_slug, is_success_status, RegistryLoadError, RuntimeRegistry};
pub use shell::{
    all_categories, breadcrumbs, category_description, format_segment, short_description,
    BreadcrumbItem,
};
pub use tool_host::{
    tool_loader_path, ToolHostError, ToolHostStatus, ToolModuleCache, TOOL_INIT_EXPORT_NAME,
    TOOL_LOADER_FILE_NAME, TOOL_MOUNT_EXPORT_NAME, TOOL_UNMOUNT_EXPORT_NAME,
};
pub use types::{Category, ToolMeta};

