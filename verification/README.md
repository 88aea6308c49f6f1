# jonashietala

The logic of a static site generator's editor integration and markup
rendering, written in Verus. What the library computes itself is proved
against its contracts; where it calls an outside crate, the call sits behind
a trusted item whose contract is stated in its doc comment, and what the
library does with the answer is proved.

- `src/complete.rs` — completions for the editor: what the text before the
  cursor asks for (tags and series in the front matter; images, pages,
  headings, link definitions and broken links in the body) and how each item
  is laid out.
- `src/patterns.rs` — the shapes of the text before the cursor, as
  predicates on characters, with recognizers proved to decide them.
- `src/markup.rs`, `src/content.rs` — what the completion engine reads of a
  parsed markup file and of the site.
- `src/messages.rs` — the messages exchanged with the editor and the browser.
- `src/highlight.rs` — syntax highlighting of code blocks. Tree-sitter
  builds the configuration and yields the highlight events; both calls are
  trusted items, their results named. Looking a language up, checking the
  events against the code and rendering them as HTML spans are proved.
- `src/ts_config.rs` — a tree-sitter configuration together with the
  highlight names it was configured with; configuring is the only way to
  make one.
- `src/auto_figures.rs` — paragraphs holding a single image become figures.
- `src/generated.rs` — checks of a generated page: its document type, link
  references left unresolved (found with the `regex` crate), and the pages,
  fragments and images its links lead to.
- `src/paths.rs` — path joining and where the editor's queries are found.
- `src/laws.rs` — properties that relate several inputs, calls or steps.
- `app/` — the unverified rim: serde wire types, configurations loaded once
  per process, and file system access.

## What is not here

- The site's own markup language is highlighted with a grammar from the
  `tree-sitter-sdjot` crate, which is not published on crates.io. It could
  not be had, so only Rust has a highlighting configuration, and a lookup of
  `sdjot` finds none.
- Rendering markup to HTML (`djot_to_html` and its streaming form) runs the
  `jotdown` parser through transformers that are not part of these sources;
  it is left out. The figure transformation is here, over an event type of
  the library's own.
- Building a test site in temporary directories and reading its generated
  pages back is left out; whether an image's output file exists is read from
  disk in `app/` and handed to the checks of `src/generated.rs`.
- Tree-sitter-rust 0.20.4, the version used here, marks an integer literal
  as `constant.builtin`, so `2` in `let x = 2;` is rendered with the class
  `constant builtin rust`; the test of that case expects it.
