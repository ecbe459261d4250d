use scriba::markdown::{
    apply_selection_highlight, lines, parse_inline_markdown, safe_markdown_lines,
    strip_heading_md, wrap_styled_line,
};
use scriba::style::{fg, plain, Color, Line};

fn texts(p: &scriba::style::Page) -> Vec<String> {
    p.lines.iter().map(|l| l.text()).collect()
}

#[test]
fn lines_end_with_or_without_a_carriage_return() {
    assert_eq!(lines("a\r\nb\n\nc"), vec!["a", "b", "", "c"]);
    assert_eq!(lines(""), Vec::<String>::new());
    assert_eq!(lines("a\n"), vec!["a"]);
    assert_eq!(lines("a\r"), vec!["a\r"]);
}

#[test]
fn emphasis_loses_its_stars() {
    let mut l = Line::new();
    parse_inline_markdown("a **bold** and `code` here", &mut l);
    assert_eq!(l.text(), "a bold and code here");
    assert!(l.spans.iter().any(|s| s.text == "bold" && s.style.bold));
}

#[test]
fn plain_text_stays() {
    let mut l = Line::new();
    parse_inline_markdown("nothing special", &mut l);
    assert_eq!(l.text(), "nothing special");
}

#[test]
fn headings_are_recognised() {
    assert_eq!(strip_heading_md("## Title"), Some("Title".to_string()));
    assert_eq!(strip_heading_md("no title"), None);
}

#[test]
fn wrapping_breaks_at_blanks_and_keeps_the_text() {
    let mut l = Line::of("alpha ", plain());
    l.push("beta gamma", fg(Color::Red));
    let p = wrap_styled_line(l, 8);
    assert_eq!(texts(&p), vec!["alpha ", "beta ", "gamma"]);
    let p = wrap_styled_line(Line::of("abcdefghij", plain()), 4);
    assert_eq!(texts(&p), vec!["abcd", "efgh", "ij"]);
}

#[test]
fn a_highlight_splits_spans() {
    let l = apply_selection_highlight(Line::of("hello", plain()), 1, 3);
    assert_eq!(l.text(), "hello");
    assert_eq!(l.spans.len(), 3);
    assert_eq!(l.spans[1].text, "el");
    assert_eq!(l.spans[1].style.bg, Some(Color::Indexed(237)));
    let l = apply_selection_highlight(Line::of("hello", plain()), 3, 3);
    assert_eq!(l.spans.len(), 1);
}

#[test]
fn a_document_becomes_lines() {
    let p = safe_markdown_lines("# Head\n\ntext with **weight**\n- item", 40);
    let all = texts(&p);
    assert!(all.iter().any(|l| l.contains("Head")));
    assert!(all.iter().any(|l| l.contains("text with weight")));
    assert!(all.iter().any(|l| l.contains("item")));
}
