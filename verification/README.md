# vizier_lib

The logic of Vizier, a terminal inspector for Rust projects, verified with Verus.

- `src/analyzer`: the dependency graph of a workspace (built on petgraph) and its
  depth-first dependency tree; the analyzed items and installed crates.
- `src/app`: the inspector's state and every decision it makes: filtering and
  fuzzy completion, list and focus navigation, the key-press decision table,
  the documentation cache, qualified-path search, Copilot prompts.
- `src/crates_io.rs`: reading crates.io and GitHub responses (via serde_json).
- `src/ui`: what each panel shows, as styled lines: lists, status bar, inspector
  pages, Markdown in chat replies, overlays.
- `src/text.rs`: character-level string helpers with their specifications.
- `app/`: the program around the library: terminal, drawing, files, network,
  `cargo metadata`, background threads and the Copilot process.
