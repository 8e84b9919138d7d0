use jinn::text::{decimal_string, parse_decimal_u64, split_on_char, str_less, trim_chars, words_of};
use jinn::tui::clipboard::{
    completion_for, flush_pending, status_hint_after, ArboardClipboard, ClipboardCompletion,
    FlushDecision,
};
use jinn::tui::highlight::fuzzy_bytes_to_ranges;
use jinn::tui::popup::{filter_line, window_rows, ResultRow};

fn chars(s: &str) -> Vec<char> {
    s.chars().collect()
}

fn text(cs: &[char]) -> String {
    cs.iter().collect()
}

// Clipboard decisions.

#[test]
fn clipboard_success_preserves_existing_status_hint() {
    let completion = completion_for("arboard", 5, Ok(()));
    assert_eq!(completion, ClipboardCompletion::Success { backend: "arboard", text_len: 5 });
    assert_eq!(
        status_hint_after(&completion, Some("copied".to_owned())),
        Some("copied".to_owned())
    );
    assert_eq!(status_hint_after(&completion, None), None);
}

#[test]
fn clipboard_failure_sets_visible_status_hint() {
    let completion = completion_for("arboard", 5, Err("no display".to_owned()));
    assert_eq!(
        completion,
        ClipboardCompletion::Failed { backend: "arboard", error: "no display".to_owned() }
    );
    assert_eq!(
        status_hint_after(&completion, None).as_deref(),
        Some("failed to copy to clipboard; see log for details")
    );
}

#[test]
fn clipboard_failure_replaces_speculative_success_hint() {
    let completion = completion_for("arboard", 5, Err("boom".to_owned()));
    assert_eq!(
        status_hint_after(&completion, Some("copied 5 bytes".to_owned())).as_deref(),
        Some("failed to copy to clipboard; see log for details")
    );
}

#[test]
fn clipboard_copy_clears_pending_flag_on_idle_selection() {
    let decision = flush_pending(true, None);
    assert_eq!(decision, FlushDecision { pending: false, clear_selection: true, copy: None });
}

#[test]
fn clipboard_copy_skips_empty_selection() {
    let decision = flush_pending(true, Some(String::new()));
    assert!(!decision.pending);
    assert_eq!(decision.copy, None);
}

#[test]
fn clipboard_contains_selected_text() {
    let decision = flush_pending(true, Some("hello".to_owned()));
    assert_eq!(decision.copy.as_deref(), Some("hello"));
    assert!(decision.clear_selection);
}

#[test]
fn nothing_is_flushed_without_a_pending_copy() {
    let decision = flush_pending(false, Some("hello".to_owned()));
    assert_eq!(decision, FlushDecision { pending: false, clear_selection: false, copy: None });
    assert_eq!(ArboardClipboard.name(), "arboard");
}

// Match highlighting.

#[test]
fn consecutive_indices_merge_into_ranges() {
    assert_eq!(fuzzy_bytes_to_ranges(&[0, 1, 2, 5, 6]), vec![0..3, 5..7]);
}

#[test]
fn isolated_indices_become_single_byte_ranges() {
    assert_eq!(fuzzy_bytes_to_ranges(&[1, 3, 9]), vec![1..2, 3..4, 9..10]);
    assert_eq!(fuzzy_bytes_to_ranges(&[4]), vec![4..5]);
    assert!(fuzzy_bytes_to_ranges(&[]).is_empty());
}

// Text helpers.

#[test]
fn decimal_numbers_round_trip() {
    for n in [0u64, 7, 10, 1455, u64::MAX] {
        let s = decimal_string(n);
        assert_eq!(s, n.to_string());
        assert_eq!(parse_decimal_u64(&chars(&s)), Some(n));
    }
}

#[test]
fn malformed_or_oversized_numbers_are_rejected() {
    assert_eq!(parse_decimal_u64(&chars("")), None);
    assert_eq!(parse_decimal_u64(&chars("-1")), None);
    assert_eq!(parse_decimal_u64(&chars("1 2")), None);
    assert_eq!(parse_decimal_u64(&chars("18446744073709551616")), None);
    assert_eq!(parse_decimal_u64(&chars("+5")), Some(5));
    assert_eq!(parse_decimal_u64(&chars("007")), Some(7));
}

#[test]
fn strings_compare_by_code_points() {
    assert!(str_less("alpha", "beta"));
    assert!(str_less("ab", "abc"));
    assert!(!str_less("abc", "abc"));
    assert!(!str_less("b", "a"));
}

#[test]
fn splitting_and_trimming_follow_std() {
    assert_eq!(text(&trim_chars(&chars("  a b \n"))), "a b");
    let words: Vec<String> = words_of(&chars(" GET  /x HTTP/1.1 ")).iter().map(|w| text(w)).collect();
    assert_eq!(words, vec!["GET", "/x", "HTTP/1.1"]);
    let parts: Vec<String> = split_on_char(&chars("a..b"), '.').iter().map(|w| text(w)).collect();
    assert_eq!(parts, vec!["a", "", "b"]);
}

// The picker popup.

#[test]
fn the_filter_line_starts_with_the_prompt() {
    assert_eq!(filter_line("gpt"), "> gpt");
    assert_eq!(filter_line(""), "> ");
}

#[test]
fn the_window_shows_the_rows_under_the_scroll_offset() {
    let matches = vec![vec![0], vec![], vec![1, 2], vec![4]];
    let rows = window_rows(&matches, 1, 2, 5);
    assert_eq!(rows.len(), 5);
    assert_eq!(rows[0], Some(ResultRow { item: 1, selected: false, highlights: vec![] }));
    assert_eq!(rows[1], Some(ResultRow { item: 2, selected: true, highlights: vec![1..3] }));
    assert_eq!(rows[2], Some(ResultRow { item: 3, selected: false, highlights: vec![4..5] }));
    assert_eq!(rows[3], None);
    assert_eq!(rows[4], None);
}

#[test]
fn a_window_scrolled_past_the_end_is_blank() {
    let matches = vec![vec![0]];
    assert_eq!(window_rows(&matches, 3, 0, 2), vec![None, None]);
    assert!(window_rows(&matches, 0, 0, 0).is_empty());
}
