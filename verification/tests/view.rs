use codex_mini_demo::cli::app::{CliState, UiLine, UiMode};
use codex_mini_demo::cli::markdown::{
    format_table_rows, is_table_separator, markdown_segments, parse_table_row, MarkdownSegment,
};
use codex_mini_demo::cli::view::{
    follows_tail, input_height, max_visual_scroll, terminal_width, transcript_scroll_offset,
    truncate, visual_width, wrapped_row_count,
};
use codex_mini_demo::text::text_lines;

fn strings(items: &[&str]) -> Vec<String> {
    items.iter().map(|s| s.to_string()).collect()
}

#[test]
fn manual_scroll_is_clamped_to_visual_scroll_bounds() {
    let mut state = CliState::new();
    state.push_line(UiLine::Model("short".to_string()));
    state.log_scroll = 100;

    // The model line renders as its label, one content row and a blank row.
    let widths = vec![
        terminal_width(" assistant"),
        visual_width(&strings(&["   ", "short"])),
        0,
    ];
    let scroll = transcript_scroll_offset(&state, &widths, 80, 20);

    assert_eq!(scroll, 0);
}

#[test]
fn tail_scroll_counts_wrapped_rows() {
    let mut state = CliState::new();
    state.push_line(UiLine::Model(
        "this is a very long assistant response that must wrap across several terminal rows"
            .to_string(),
    ));
    state.push_line(UiLine::Tool("turn completed".to_string()));
    state.scroll_to_bottom();
    assert!(follows_tail(&state));

    let widths = vec![10, 86, 0, 26, 0];
    let scroll = transcript_scroll_offset(&state, &widths, 24, 5);

    assert!(scroll > state.lines.len() as u16);
    assert_eq!(scroll, 5);
}

#[test]
fn widths_and_rows() {
    assert_eq!(terminal_width("abc"), 3);
    assert_eq!(terminal_width("步骤"), 4);
    assert_eq!(wrapped_row_count(0, 10), 1);
    assert_eq!(wrapped_row_count(20, 10), 2);
    assert_eq!(wrapped_row_count(21, 10), 3);
    assert_eq!(max_visual_scroll(&vec![30, 0], 13, 1), 3);
    assert_eq!(max_visual_scroll(&vec![], 2, 0), 0);
}

#[test]
fn input_height_depends_on_mode() {
    let mut state = CliState::new();
    assert_eq!(input_height(&state), 4);
    state.mode = UiMode::RunningAgent;
    assert_eq!(input_height(&state), 3);
    state.mode = UiMode::PendingApproval;
    assert_eq!(input_height(&state), 7);
}

#[test]
fn truncate_marks_the_cut() {
    assert_eq!(truncate("hello", 5), "hello");
    assert_eq!(truncate("hello world", 5), "hell...");
    assert_eq!(truncate("hello", 0), "...");
}

#[test]
fn text_lines_follow_str_lines() {
    for text in ["", "a", "a\n", "a\r\nb", "\n\nx\r", "a\n\nb\n"] {
        let expected: Vec<String> = text.lines().map(|l| l.to_string()).collect();
        assert_eq!(text_lines(text), expected, "{text:?}");
    }
}

#[test]
fn table_rows_and_separators() {
    assert_eq!(parse_table_row(" | a | b | "), Some(strings(&["a", "b"])));
    assert_eq!(parse_table_row("|a|"), None);
    assert_eq!(parse_table_row("| | |"), None);
    assert_eq!(parse_table_row("a | b"), None);
    assert!(is_table_separator("|---|:--:|"));
    assert!(!is_table_separator("|--|---|"));
    assert!(!is_table_separator("| a | b |"));
}

#[test]
fn tables_are_laid_out_in_aligned_columns() {
    let rows = vec![strings(&["步骤", "表达式"]), strings(&["1", "6000 + 2000", "8000"])];
    assert_eq!(
        format_table_rows(rows),
        vec!["步骤  表达式".to_string(), "1     6000 + 2000  8000".to_string()]
    );
}

#[test]
fn assistant_output_preserves_markdown_table_rows() {
    let input = "计算结果如下：\n\n| 步骤 | 表达式 | 结果 |\n|---|---|---|\n| 1 | 6000 + 2000 | 8000 |\n| 2 | 2141 - 123 | 2018 |";

    let segments = markdown_segments(input);

    let mut rows: Vec<String> = vec![];
    for segment in &segments {
        match segment {
            MarkdownSegment::Markdown(text) => rows.extend(text.lines().map(|l| l.to_string())),
            MarkdownSegment::Table(table) => rows.extend(table.iter().cloned()),
        }
    }
    assert!(rows.iter().any(|row| row.contains("步骤") && row.contains("表达式")));
    assert!(rows.iter().any(|row| row.contains("6000 + 2000")));
    assert!(rows.iter().any(|row| row.contains("2141 - 123")));
    assert!(!rows.iter().any(|row| row.contains("---")));
    assert_eq!(segments.len(), 2);
    assert!(matches!(&segments[0], MarkdownSegment::Markdown(text) if text == "计算结果如下：\n"));
}

#[test]
fn markdown_without_tables_is_one_segment() {
    let segments = markdown_segments("Result:\n\n- **final answer**: `10018`");
    assert_eq!(segments.len(), 1);
    assert!(matches!(&segments[0], MarkdownSegment::Markdown(text) if text == "Result:\n\n- **final answer**: `10018`"));
    assert!(markdown_segments("").is_empty());
}
