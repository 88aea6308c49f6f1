use jonashietala::markup::MarkupLookup;
use jonashietala::complete::CompletionItemBuilder;
use jonashietala::content::RelPath;
use jonashietala::paths::{
    read_nvim_treesitter_file, read_nvim_treesitter_highlights, read_nvim_treesitter_injections,
    read_nvim_treesitter_locals,
};

#[test]
fn positions_map_to_rows_and_columns() {
    let lookup = MarkupLookup::new("ab\ncd\n\néf", 2);
    assert_eq!(lookup.char_pos_to_row_col(0), (0, 0));
    assert_eq!(lookup.char_pos_to_row_col(2), (0, 2));
    assert_eq!(lookup.char_pos_to_row_col(3), (1, 0));
    assert_eq!(lookup.char_pos_to_row_col(5), (1, 2));
    assert_eq!(lookup.char_pos_to_row_col(6), (2, 0));
    assert_eq!(lookup.char_pos_to_row_col(8), (3, 1));
    // Past the end, positions stay on the last row.
    assert_eq!(lookup.char_pos_to_row_col(20), (3, 13));
    assert!(lookup.in_frontmatter(1));
    assert!(!lookup.in_frontmatter(2));
}

#[test]
fn paths_join_as_on_unix() {
    let url = |p: &str| CompletionItemBuilder::new_img(RelPath(p.into())).into().label;
    assert_eq!(url("x"), "/images/x");
    assert_eq!(url("/etc/x"), "/etc/x");
    assert_eq!(url(""), "/images/");
    assert_eq!(read_nvim_treesitter_file("", "c", "x.scm"), ".local/share/nvim/lazy/nvim-treesitter/queries/c/x.scm");
    assert_eq!(read_nvim_treesitter_file("/h", "/abs", "x.scm"), "/abs/x.scm");
    assert_eq!(read_nvim_treesitter_file("/h", "c", "/x.scm"), "/x.scm");
}

#[test]
fn nvim_queries_are_found_below_home() {
    assert_eq!(
        read_nvim_treesitter_highlights("/home/me", "c"),
        "/home/me/.local/share/nvim/lazy/nvim-treesitter/queries/c/highlights.scm"
    );
    assert_eq!(
        read_nvim_treesitter_injections("/home/me/", "rust"),
        "/home/me/.local/share/nvim/lazy/nvim-treesitter/queries/rust/injections.scm"
    );
    assert_eq!(
        read_nvim_treesitter_locals("/h", "c"),
        "/h/.local/share/nvim/lazy/nvim-treesitter/queries/c/locals.scm"
    );
}
