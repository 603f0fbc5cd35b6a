# toolbox

The verified core of a browser tools shell that loads individual
WebAssembly tools at run time.

- `src/` is the library, checked by Verus:
  - `types`, `registry`, `error`: tool metadata, the declarative tool
    registry and its validation (required fields, tags, unique ids and slugs);
  - `runtime`: the catalog the shell serves, with lookups by category, slug
    and tag, the header search and the full-text filter;
  - `tool_host`: the loader contract, the cache of imported tool modules and
    host failure reporting;
  - `shell`: what the pages compute (titles, breadcrumb trails, card texts);
  - `loader`: the `loader.js` shim and the packaging checks of the build;
  - `calculator`: the calculator's key mapping and display state machine;
  - `context`: namespaced storage keys;
  - `text`: character-level string helpers;
  - `laws`: properties that relate the operations above.
- `app/` holds what runs around it: the Leptos shell, the tool host's
  JavaScript calls, browser storage, the calculator's floating-point
  arithmetic and DOM glue, TOML/JSON (de)serialization and the build command.
- `tests/` exercises the library on concrete values.
