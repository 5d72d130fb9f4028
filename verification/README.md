# tree-cleaner interface core

The state and the decisions of tree-cleaner's terminal interface, written in Verus and
proved against their contracts: the `:` command line and what each command does, the
explorer's row order, filter, cursor and TSV export, the marks, the cleaner, dashboard and
heaviest-files views, switching between screens, the question asked before a deletion,
the progress modal of a deletion or cleaning run and what follows it (the summary, the
list of failures, the question about administrator privileges), the settings screen with
its keys and the preferences it edits, applying and saving the configuration, the colour
palettes and their overrides, what a finished deletion changes in the marks and the tree,
the `:stats`, `:config` and `:mounts` reports, the number and text formats the screens
share, and the lines (table or JSON) that the headless `measure` run prints.

The default colour palette is named `terracotta`; `:theme` and the configuration's
`theme` key take that name for it.

Layout:

- `src/` — the verified library. Each module states its model with spec functions and
  proves its executable functions against it; the laws that relate several functions are
  public proof functions (`lemma_*`).
- `tests/` — tests on concrete values, run against the compiled library.
- `app/` — ordinary Rust around the library: ratatui styles and widgets, drawing the
  lines the library composes, the terminal session, the log sink behind the `log`
  facade, key conversion, writing the `:export` file, and the number formats that round
  through floating point.

Calls into other crates (`unicode-width` for display widths, `log` for levels) and into
std where Verus has no specification of its own go through small trusted functions whose
doc comments say what is assumed of them.
