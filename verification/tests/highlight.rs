use jonashietala::highlight::{highlight_outcome, HighlightError};
use jonashietala::highlight::{
    highlight_name, init_configurations, render_highlights, HlEvent, TreesitterHighlighter,
    HIGHLIGHT_NAME_COUNT,
};

#[test]
fn rust_code_is_highlighted_with_its_grammar() {
    let configs = init_configurations().unwrap();
    let highlighter = TreesitterHighlighter::find(&configs, "rust").unwrap();
    assert_eq!(
        highlighter.highlight("rust", "let x = 2;").unwrap(),
        "<span class=\"keyword rust\">let</span> x = <span class=\"constant builtin rust\">2</span><span class=\"punctuation delimiter rust\">;</span>\n"
    );
}

#[test]
fn unknown_languages_have_no_highlighter() {
    let configs = init_configurations().unwrap();
    assert!(TreesitterHighlighter::find(&configs, "cobol").is_none());
}

#[test]
fn highlighting_keeps_the_code_and_ends_with_a_line_feed() {
    let configs = init_configurations().unwrap();
    let highlighter = TreesitterHighlighter::find(&configs, "rust").unwrap();
    let html = highlighter.highlight("rust", "fn main() {}\n").unwrap();
    assert!(html.ends_with('\n'));
    assert!(!html.ends_with("\n\n"));
    assert!(html.contains("main"));
    let html = highlighter.highlight("rust", "").unwrap();
    assert_eq!(html, "\n");
}

#[test]
fn render_turns_events_into_spans() {
    let code = "héllo.wörld";
    // "héllo" is 6 bytes, "." 1, "wörld" 6.
    let events = vec![
        HlEvent::HighlightStart(4),
        HlEvent::Source { start: 0, end: 6 },
        HlEvent::HighlightEnd,
        HlEvent::Source { start: 6, end: 13 },
    ];
    assert_eq!(
        render_highlights("rust", code, &events),
        "<span class=\"comment documentation rust\">héllo</span>.wörld\n"
    );
    let events = vec![HlEvent::Source { start: 0, end: 3 }];
    assert_eq!(render_highlights("c", "ab\n", &events), "ab\n");
    assert_eq!(render_highlights("c", "ab\n", &[]), "\n");
}

#[test]
fn highlight_names_are_indexed() {
    assert_eq!(highlight_name(0), Some("attribute"));
    assert_eq!(highlight_name(4), Some("comment.documentation"));
    assert_eq!(highlight_name(HIGHLIGHT_NAME_COUNT - 1), Some("variable.parameter"));
    assert_eq!(highlight_name(HIGHLIGHT_NAME_COUNT), None);
}

#[test]
fn tree_sitter_answers_map_to_results() {
    let not_started =
        highlight_outcome("rust", "x", Err((true, tree_sitter_highlight::Error::InvalidLanguage)));
    assert!(matches!(
        not_started,
        Err(HighlightError::NotStarted(tree_sitter_highlight::Error::InvalidLanguage))
    ));
    let failed =
        highlight_outcome("rust", "x", Err((false, tree_sitter_highlight::Error::Cancelled)));
    assert!(matches!(
        failed,
        Err(HighlightError::Highlighting(tree_sitter_highlight::Error::Cancelled))
    ));
    // "é" is two bytes; a range ending between them cuts the character.
    let cut = highlight_outcome("rust", "é", Ok(vec![HlEvent::Source { start: 0, end: 1 }]));
    assert!(matches!(cut, Err(HighlightError::InvalidEvent)));
    let unnamed = highlight_outcome("rust", "x", Ok(vec![HlEvent::HighlightStart(HIGHLIGHT_NAME_COUNT)]));
    assert!(matches!(unnamed, Err(HighlightError::InvalidEvent)));
    let ok = highlight_outcome(
        "rust",
        "x",
        Ok(vec![HlEvent::HighlightStart(0), HlEvent::Source { start: 0, end: 1 }, HlEvent::HighlightEnd]),
    );
    assert_eq!(ok.unwrap(), "<span class=\"attribute rust\">x</span>\n");
}
