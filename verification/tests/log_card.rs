use iota::gui::app_state::{push_point, LogBuffer, MAX_LOGS, MAX_POINTS};
use iota::gui::elements::graph_card::GRAPHS;
use iota::gui::elements::log_card::{
    build_all_lines, find_split_point, split_line_prefix, split_timestamp_suffix, CardKey, LogCard, LogEntry,
    UiLogEntry,
};

fn entry(msg: &str, ms: u128) -> UiLogEntry<u8> {
    UiLogEntry::from(LogEntry::new_at(1u8, msg.to_string(), false, ms))
}

fn texts(v: &[&str]) -> Vec<String> {
    v.iter().map(|s| s.to_string()).collect()
}

#[test]
fn timestamps_are_clock_times() {
    assert_eq!(entry("x", 3_723_000).format_timestamp(), "01:02:03");
    assert_eq!(entry("x", 0).format_timestamp(), "00:00:00");
    assert_eq!(entry("x", 86_399_999).format_timestamp(), "23:59:59");
    assert_eq!(entry("x", 86_400_000 + 61_000).format_timestamp(), "00:01:01");
}

#[test]
fn log_entry_new_uses_clock() {
    let e = LogEntry::new("s", "m".to_string(), true);
    assert!(e.timestamp_ms > 1_600_000_000_000);
    assert!(e.is_error);
    assert_eq!(e.sender, "s");
}

#[test]
fn split_points() {
    assert_eq!(find_split_point("abcdef", 4), 4);
    assert_eq!(find_split_point("ab", 0), 2);
    assert_eq!(find_split_point("ab", 5), 2);
    assert_eq!(find_split_point("äb", 1), 1);
    assert_eq!(find_split_point("aäb", 2), 1);
    assert_eq!(find_split_point("aäb", 3), 2);
}

#[test]
fn entries_wrap_with_frame_and_time() {
    let e = entry("hello world", 3_723_000);
    assert_eq!(e.wrap_lines(10), texts(&["┌ hello w", "└ orld 01:02:03"]));
    assert_eq!(entry("hi", 3_723_000).wrap_lines(20), texts(&["┌ hi 01:02:03"]));
    assert_eq!(entry("", 0).wrap_lines(20), texts(&["┌  00:00:00"]));
    assert_eq!(entry("a\n\nb", 0).wrap_lines(20), texts(&["┌ a", "│ ", "└ b 00:00:00"]));
}

#[test]
fn all_lines_are_numbered_by_entry() {
    let entries = vec![entry("one", 0), entry("two\nlines", 0)];
    let lines = build_all_lines(&entries, 30);
    assert_eq!(
        lines,
        vec![
            ("┌ one 00:00:00".to_string(), 0),
            ("┌ two".to_string(), 1),
            ("└ lines 00:00:00".to_string(), 1),
        ]
    );
}

#[test]
fn line_prefixes() {
    assert_eq!(split_line_prefix("└ abc"), ("└ ", "abc"));
    assert_eq!(split_line_prefix("│ x"), ("│ ", "x"));
    assert_eq!(split_line_prefix("┌ y"), ("┌ ", "y"));
    assert_eq!(split_line_prefix("plain"), ("", "plain"));
}

#[test]
fn timestamp_suffixes() {
    assert_eq!(split_timestamp_suffix("msg   12:34:56"), ("msg", " 12:34:56"));
    assert_eq!(split_timestamp_suffix("no stamp here"), ("no stamp here", ""));
    assert_eq!(split_timestamp_suffix("x 1234:5678"), ("x 1234:5678", ""));
    assert_eq!(split_timestamp_suffix("nospace"), ("nospace", ""));
}

#[test]
fn log_card_window() {
    let card = LogCard::new();
    assert_eq!(card.calculate_view_window(5, 10), (0, 5));
    assert_eq!(card.calculate_view_window(25, 10), (15, 25));
}

#[test]
fn log_card_scrolls_within_bounds() {
    let mut card = LogCard::new();
    card.focus(true);
    assert!(card.is_focused());
    assert_eq!(card.build_title(), "Logs");
    assert!(card.interact(CardKey::Char('j'), 12));
    assert_eq!(card.get_title_hints(), (true, true));
    assert_eq!(card.build_title(), "Logs (j older k newer)");
    assert_eq!(card.calculate_view_window(12, 10), (1, 11));
    assert!(card.interact(CardKey::Char('j'), 12));
    assert!(card.interact(CardKey::Char('j'), 12));
    assert_eq!(card.get_title_hints(), (false, true));
    assert_eq!(card.calculate_view_window(12, 10), (0, 10));
    assert!(card.interact(CardKey::Enter, 12));
    assert_eq!(card.build_title(), "Logs (↓ newer)");
    assert!(card.interact(CardKey::Down, 12));
    assert!(card.interact(CardKey::End, 12));
    assert_eq!(card.get_title_hints(), (true, false));
    assert!(card.interact(CardKey::Home, 12));
    assert_eq!(card.get_title_hints(), (false, true));
    assert!(!card.interact(CardKey::Other, 12));
    card.scroll_down();
    card.scroll_up();
    assert_eq!(card.get_title_hints(), (false, true));
}

#[test]
fn log_buffer_keeps_the_newest() {
    let mut b: LogBuffer<u8> = LogBuffer::new();
    assert!(b.get_logs().is_empty());
    for i in 0..(MAX_LOGS + 5) {
        b.push_log(entry(&i.to_string(), 0));
    }
    let logs = b.get_logs();
    assert_eq!(logs.len(), MAX_LOGS);
    assert_eq!(logs[0].message, "5");
    assert_eq!(logs[MAX_LOGS - 1].message, (MAX_LOGS + 4).to_string());
}

#[test]
fn points_are_bounded() {
    let mut p: Vec<u32> = Vec::new();
    for i in 0..(MAX_POINTS as u32 + 3) {
        push_point(&mut p, i);
    }
    assert_eq!(p.len(), MAX_POINTS);
    assert_eq!(p[0], 3);
    assert_eq!(*p.last().unwrap(), MAX_POINTS as u32 + 2);
}

#[test]
fn graph_units() {
    assert_eq!(GRAPHS::Ram.get_unit(), "MB");
    assert_eq!(GRAPHS::Cpu.get_unit(), "%");
    assert_eq!(GRAPHS::Ping.get_unit(), "ms");
}
