use iota::terms::buttons::{checkbox, compute_widths, draw_buttons, look_for, BoxLook, ButtonLook};
use iota::terms::focus::Focus;
use iota::terms::md_viewer::{
    document_fits, parse_document, parse_inline, parse_table, table_to_lines, trim_matches_char, visible_part,
    wrap_cell, FileViewer, Look, ViewerKey,
};

fn plain(s: &str) -> (String, Look) {
    (s.to_string(), Look::Inline { bold: false, underline: false, code: false })
}

fn texts(v: &[&str]) -> Vec<String> {
    v.iter().map(|s| s.to_string()).collect()
}

#[test]
fn compute_widths_shares_evenly() {
    assert_eq!(compute_widths(30, &[10, 5, 5]), vec![10, 10, 10]);
    assert_eq!(compute_widths(31, &[3, 3]), vec![16, 15]);
    assert_eq!(compute_widths(32, &[3, 3, 3]), vec![11, 11, 10]);
}

#[test]
fn compute_widths_clamps_wide_buttons() {
    assert_eq!(compute_widths(30, &[20, 2, 2]), vec![20, 5, 5]);
    assert_eq!(compute_widths(10, &[10]), vec![10]);
    assert_eq!(compute_widths(0, &[]), Vec::<u16>::new());
}

#[test]
fn draw_buttons_places_and_styles() {
    let plans = draw_buttons(0, 60, Focus::Continue, (true, false), false, false, true);
    assert_eq!(plans.len(), 3);
    assert_eq!(plans[0].label, "[Q] Not now");
    assert_eq!((plans[0].x, plans[0].width, plans[0].look), (0, 14, ButtonLook::Cancel));
    assert_eq!(plans[1].label, "Continue");
    assert_eq!((plans[1].x, plans[1].width, plans[1].look), (14, 13, ButtonLook::GoFocused));
    assert_eq!(plans[2].label, "Continue with Tensamin Services");
    assert_eq!((plans[2].x, plans[2].width, plans[2].look), (27, 33, ButtonLook::Off));
}

#[test]
fn draw_buttons_update_labels() {
    let plans = draw_buttons(5, 30, Focus::Cancel, (false, false), true, true, false);
    assert_eq!(plans.len(), 2);
    assert_eq!(plans[0].label, "[Q] Quit");
    assert_eq!(plans[0].look, ButtonLook::CancelFocused);
    assert_eq!(plans[1].label, "Downgrade");
    assert_eq!(plans[1].look, ButtonLook::Off);
    assert_eq!(plans[0].x, 5);
    assert_eq!(plans[1].x, 5 + plans[0].width);
    assert_eq!(plans[0].width + plans[1].width, 30);
}

#[test]
fn button_looks() {
    assert_eq!(look_for(Focus::ContinueAll, Focus::ContinueAll, (true, true)), ButtonLook::GoFocused);
    assert_eq!(look_for(Focus::ContinueAll, Focus::Cancel, (true, true)), ButtonLook::Go);
    assert_eq!(look_for(Focus::Continue, Focus::Continue, (false, true)), ButtonLook::Off);
    assert_eq!(look_for(Focus::Eula, Focus::Eula, (true, true)), ButtonLook::Off);
}

#[test]
fn checkbox_looks() {
    assert_eq!(checkbox(true, true, true), ("[x]", BoxLook::Focused));
    assert_eq!(checkbox(false, true, false), ("[ ]", BoxLook::Blocked));
    assert_eq!(checkbox(false, false, true), ("[ ]", BoxLook::Plain));
}

#[test]
fn focus_order_wraps() {
    let order = [Focus::Eula, Focus::Cancel, Focus::Continue];
    let mut f = Focus::Continue;
    f.next(&order);
    assert_eq!(f, Focus::Eula);
    f.prev(&order);
    assert_eq!(f, Focus::Continue);
    let mut g = Focus::Tos;
    g.next(&order);
    assert_eq!(g, Focus::Tos);
}

#[test]
fn inline_styles() {
    let spans = parse_inline("a **b** c");
    assert_eq!(
        spans,
        vec![plain("a "), ("b".to_string(), Look::Inline { bold: true, underline: false, code: false }), plain(" c")]
    );
    let spans = parse_inline("__u__`x`");
    assert_eq!(
        spans,
        vec![
            ("u".to_string(), Look::Inline { bold: false, underline: true, code: false }),
            ("x".to_string(), Look::Inline { bold: false, underline: false, code: true }),
        ]
    );
    assert!(parse_inline("").is_empty());
    assert_eq!(parse_inline("a*b_c"), vec![plain("a*b_c")]);
}

#[test]
fn trim_bars() {
    assert_eq!(trim_matches_char("||a|b||", '|'), "a|b");
    assert_eq!(trim_matches_char("|||", '|'), "");
}

#[test]
fn tables_parse_rows_until_a_plain_line() {
    let t = parse_table(&["| a | b |", "|---|---|", "| 1 | 2 |", "no", "| x |"]);
    assert_eq!(t, vec![texts(&["a", "b"]), texts(&["---", "---"]), texts(&["1", "2"])]);
    assert!(parse_table(&[" | a |"]).is_empty());
}

#[test]
fn cells_wrap_by_words() {
    assert_eq!(wrap_cell("hello world foo", 11), texts(&["hello world", "foo"]));
    assert_eq!(wrap_cell("abcdefgh", 3), texts(&["abc", "def", "gh"]));
    assert_eq!(wrap_cell("", 5), texts(&[""]));
    assert_eq!(wrap_cell("anything", 0), texts(&[""]));
    assert_eq!(wrap_cell("ab  cd", 5), texts(&["ab cd"]));
}

#[test]
fn table_lines() {
    let table = vec![texts(&["a", "b"]), texts(&["-", "-"]), texts(&["xyz", "2"])];
    let lines = table_to_lines(table);
    assert_eq!(lines.len(), 3);
    assert_eq!(lines[0].spans, vec![("a   │ b  ".to_string(), Look::TableHeader)]);
    assert_eq!(lines[1].spans, vec![("────┼────".to_string(), Look::Divider)]);
    assert_eq!(lines[2].spans, vec![("xyz │ 2  ".to_string(), Look::TableRow)]);
    assert!(lines.iter().all(|l| l.scrollable));
    assert!(table_to_lines(vec![texts(&["only"])]).is_empty());
}

#[test]
fn document_lines() {
    let doc = "# Title\n\nSome **bold**\n- item\n```rust\ncode\n```\n## Sub\n### Small";
    assert!(document_fits(doc));
    let lines = parse_document(doc.to_string());
    assert_eq!(lines.len(), 9);
    assert_eq!(lines[0].spans, vec![("Title".to_string(), Look::Heading1)]);
    assert!(lines[1].spans.is_empty());
    assert_eq!(
        lines[2].spans,
        vec![plain("Some "), ("bold".to_string(), Look::Inline { bold: true, underline: false, code: false })]
    );
    assert_eq!(lines[3].spans, vec![("• item".to_string(), Look::Plain)]);
    assert_eq!(lines[4].spans, vec![("────────rust────────".to_string(), Look::Fence)]);
    assert_eq!(lines[5].spans, vec![("code".to_string(), Look::Code)]);
    assert_eq!(lines[6].spans, vec![("─".repeat(18), Look::Fence)]);
    assert_eq!(lines[7].spans, vec![("Sub".to_string(), Look::Heading2)]);
    assert_eq!(lines[8].spans, vec![("Small".to_string(), Look::Heading3)]);
    assert!(lines.iter().all(|l| !l.scrollable));
}

#[test]
fn document_with_table() {
    let doc = "| k | v |\n|---|---|\n| a | b |\nafter";
    assert!(document_fits(doc));
    let lines = parse_document(doc.to_string());
    assert_eq!(lines.len(), 4);
    assert!(lines[0].scrollable && lines[1].scrollable && lines[2].scrollable);
    assert_eq!(lines[3].spans, vec![plain("after")]);
}

#[test]
fn viewer_scrolls() {
    let mut v = FileViewer::new("EULA".to_string(), "text");
    assert_eq!((v.scroll, v.scroll_x), (0, 0));
    assert!(!v.handle_input(ViewerKey::Up));
    assert_eq!(v.scroll, 0);
    v.handle_input(ViewerKey::PageDown);
    v.handle_input(ViewerKey::Down);
    assert_eq!(v.scroll, 11);
    v.handle_input(ViewerKey::Right);
    assert_eq!(v.scroll_x, 2);
    v.handle_input(ViewerKey::Left);
    v.handle_input(ViewerKey::Left);
    assert_eq!(v.scroll_x, 0);
    assert!(v.handle_input(ViewerKey::Quit));
    assert_eq!(v.title, "EULA");
}

#[test]
fn visible_part_marks_hidden_text() {
    assert_eq!(visible_part("abcdefghij", 0, 7), "abcd>");
    assert_eq!(visible_part("abcdefghij", 2, 7), "<def>");
    assert_eq!(visible_part("abcdefghij", 5, 12), "<ghij");
    assert_eq!(visible_part("abc", 5, 12), "");
}

#[test]
fn wrapped_cells_fit_their_column() {
    let cell = "a bb ccc dddddddddd e ffff gg hhhhhhh";
    for width in 1..12 {
        for line in wrap_cell(cell, width) {
            assert!(line.chars().count() <= width, "{:?} wider than {}", line, width);
        }
    }
}
