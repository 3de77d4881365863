//! The layout arithmetic of the terminal view: how tall the input box is,
//! how many columns text takes, how many rows a wrapped transcript needs,
//! and where the transcript is scrolled to.

use vstd::prelude::*;
use crate::cli::app::{bottom_row, CliState, UiMode};
use crate::text::{chars_of, string_from_chars};

verus! {

/// The height of the box under the transcript in each mode.
pub open spec fn input_height_for(mode: UiMode) -> u16 {
    match mode {
        UiMode::PendingApproval => 7,
        UiMode::RunningAgent => 3,
        UiMode::EditingPrompt => 4,
    }
}

/// The height of the box under the transcript: the approval box is the
/// tallest, the running notice the lowest.
pub fn input_height(state: &CliState) -> (r: u16)
    ensures
        r == input_height_for(state.mode),
{
    match state.mode {
        UiMode::PendingApproval => 7,
        UiMode::RunningAgent => 3,
        UiMode::EditingPrompt => 4,
    }
}

/// A text cut to `max_chars` characters: a longer text keeps its first
/// `max_chars - 1` characters followed by `"..."`.
pub open spec fn truncated(text: Seq<char>, max_chars: nat) -> Seq<char> {
    if text.len() <= max_chars {
        text
    } else {
        text.take(if max_chars == 0 { 0 } else { max_chars - 1 }) + "..."@
    }
}

/// Cuts a text to at most `max_chars` characters, marking the cut.
pub fn truncate(text: &str, max_chars: usize) -> (r: String)
    ensures
        r@ == truncated(text@, max_chars as nat),
{
    let v = chars_of(text);
    if v.len() <= max_chars {
        return text.to_string();
    }
    let keep: usize = if max_chars == 0 { 0 } else { max_chars - 1 };
    let mut out: Vec<char> = Vec::new();
    let mut i: usize = 0;
    while i < keep
        invariant
            i <= keep < v.len(),
            out@ =~= v@.take(i as int),
        decreases keep - i,
    {
        out.push(v[i]);
        i = i + 1;
    }
    out.push('.');
    out.push('.');
    out.push('.');
    proof {
        reveal_strlit("...");
        assert(out@ =~= v@.take(keep as int) + "..."@);
    }
    string_from_chars(out)
}

/// The columns a character takes in the terminal: one for ASCII, two for
/// anything else.
pub open spec fn char_columns(c: char) -> nat {
    if c <= '\u{7f}' {
        1
    } else {
        2
    }
}

/// The columns a text takes in the terminal.
pub open spec fn columns(s: Seq<char>) -> nat
    decreases s.len(),
{
    if s.len() == 0 {
        0
    } else {
        columns(s.drop_last()) + char_columns(s.last())
    }
}

/// A text takes at least as many columns as any of its prefixes, and at
/// most two per character.
pub proof fn lemma_columns_prefix(s: Seq<char>, i: int)
    requires
        0 <= i <= s.len(),
    ensures
        columns(s.take(i)) <= columns(s),
        columns(s) <= 2 * s.len(),
    decreases s.len() - i,
{
    if i == s.len() {
        assert(s.take(i) =~= s);
        lemma_columns_bound(s);
    } else {
        lemma_columns_prefix(s, i + 1);
        assert(s.take(i + 1).drop_last() =~= s.take(i));
    }
}

/// A text takes at most two columns per character.
pub proof fn lemma_columns_bound(s: Seq<char>)
    ensures
        columns(s) <= 2 * s.len(),
    decreases s.len(),
{
    if s.len() > 0 {
        lemma_columns_bound(s.drop_last());
    }
}

/// The columns a text takes in the terminal.
pub fn terminal_width(text: &str) -> (r: usize)
    requires
        columns(text@) <= usize::MAX,
    ensures
        r == columns(text@),
{
    let v = chars_of(text);
    let mut width: usize = 0;
    let mut i: usize = 0;
    while i < v.len()
        invariant
            i <= v.len(),
            v@ == text@,
            columns(text@) <= usize::MAX,
            width == columns(v@.take(i as int)),
        decreases v.len() - i,
    {
        proof {
            lemma_columns_prefix(v@, i + 1);
            assert(v@.take(i + 1).drop_last() =~= v@.take(i as int));
        }
        let c = v[i];
        width = width + if c <= '\u{7f}' { 1 } else { 2 };
        i = i + 1;
    }
    assert(v@.take(v.len() as int) =~= v@);
    width
}

/// The columns the spans of a line take together.
pub open spec fn spans_columns(spans: Seq<Seq<char>>) -> nat
    decreases spans.len(),
{
    if spans.len() == 0 {
        0
    } else {
        spans_columns(spans.drop_last()) + columns(spans.last())
    }
}

proof fn lemma_spans_columns_prefix(spans: Seq<Seq<char>>, i: int)
    requires
        0 <= i < spans.len(),
    ensures
        spans_columns(spans.take(i)) + columns(spans[i]) <= spans_columns(spans),
    decreases spans.len() - i,
{
    assert(spans.take(i + 1).drop_last() =~= spans.take(i));
    if i + 1 == spans.len() {
        assert(spans.take(i + 1) =~= spans);
    } else {
        lemma_spans_columns_prefix(spans, i + 1);
    }
}

/// The columns the spans of a line take together.
pub fn visual_width(spans: &Vec<String>) -> (r: usize)
    requires
        spans_columns(spans.deep_view()) <= usize::MAX,
    ensures
        r == spans_columns(spans.deep_view()),
{
    let mut width: usize = 0;
    let mut i: usize = 0;
    while i < spans.len()
        invariant
            i <= spans.len(),
            spans_columns(spans.deep_view()) <= usize::MAX,
            width == spans_columns(spans.deep_view().take(i as int)),
        decreases spans.len() - i,
    {
        proof {
            lemma_spans_columns_prefix(spans.deep_view(), i as int);
            assert(spans.deep_view().take(i + 1).drop_last() =~= spans.deep_view().take(i as int));
        }
        width = width + terminal_width(spans[i].as_str());
        i = i + 1;
    }
    assert(spans.deep_view().take(spans.len() as int) =~= spans.deep_view());
    width
}

/// The rows a line of `width` columns needs when wrapped at `content_width`
/// columns; an empty line still takes a row.
pub open spec fn rows_for(width: nat, content_width: nat) -> nat {
    let w = if width == 0 { 1 } else { width };
    if w % content_width == 0 {
        w / content_width
    } else {
        w / content_width + 1
    }
}

/// The rows a line needs when wrapped.
pub fn wrapped_row_count(width: usize, content_width: usize) -> (r: usize)
    requires
        content_width > 0,
    ensures
        r == rows_for(width as nat, content_width as nat),
        r <= (if width == 0 { 1 } else { width }),
{
    let w: usize = if width == 0 { 1 } else { width };
    let q = w / content_width;
    if w % content_width == 0 {
        assert(q <= w) by (nonlinear_arith)
            requires
                q == w / content_width,
                content_width > 0,
                w > 0,
        ;
        q
    } else {
        assert(content_width > 1);
        assert(q < w) by (nonlinear_arith)
            requires
                q == w / content_width,
                content_width > 1,
                w > 0,
        ;
        q + 1
    }
}

/// The columns a transcript row has for text: the area less its border and
/// padding, at least one.
pub open spec fn content_width_of(area_width: u16) -> nat {
    if area_width > 3 {
        (area_width - 3) as nat
    } else {
        1
    }
}

/// The rows the transcript area shows: at least one.
pub open spec fn content_height_of(area_height: u16) -> nat {
    if area_height > 1 {
        area_height as nat
    } else {
        1
    }
}

/// The rows a transcript needs, its lines given by their widths.
pub open spec fn visual_rows(widths: Seq<usize>, content_width: nat) -> nat
    decreases widths.len(),
{
    if widths.len() == 0 {
        0
    } else {
        visual_rows(widths.drop_last(), content_width) + rows_for(
            widths.last() as nat,
            content_width,
        )
    }
}

proof fn lemma_visual_rows_prefix(widths: Seq<usize>, content_width: nat, i: int)
    requires
        0 <= i < widths.len(),
    ensures
        visual_rows(widths.take(i), content_width) + rows_for(widths[i] as nat, content_width)
            <= visual_rows(widths, content_width),
    decreases widths.len() - i,
{
    assert(widths.take(i + 1).drop_last() =~= widths.take(i));
    if i + 1 == widths.len() {
        assert(widths.take(i + 1) =~= widths);
    } else {
        lemma_visual_rows_prefix(widths, content_width, i + 1);
    }
}

/// The furthest the transcript can scroll: the rows its wrapped lines need
/// beyond what the area shows, as a row number.
pub open spec fn scroll_limit(widths: Seq<usize>, area_width: u16, area_height: u16) -> u16 {
    let rows = visual_rows(widths, content_width_of(area_width));
    let height = content_height_of(area_height);
    (if rows > height { rows - height } else { 0 }) as u16
}

/// The furthest the transcript can scroll, its lines given by their widths.
pub fn max_visual_scroll(widths: &Vec<usize>, area_width: u16, area_height: u16) -> (r: u16)
    requires
        visual_rows(widths@, content_width_of(area_width)) <= usize::MAX,
    ensures
        r == scroll_limit(widths@, area_width, area_height),
{
    let content_width: usize = if area_width > 3 { (area_width - 3) as usize } else { 1 };
    let content_height: usize = if area_height > 1 { area_height as usize } else { 1 };
    let mut rows: usize = 0;
    let mut i: usize = 0;
    while i < widths.len()
        invariant
            i <= widths.len(),
            content_width == content_width_of(area_width),
            visual_rows(widths@, content_width_of(area_width)) <= usize::MAX,
            rows == visual_rows(widths@.take(i as int), content_width as nat),
        decreases widths.len() - i,
    {
        proof {
            lemma_visual_rows_prefix(widths@, content_width as nat, i as int);
            assert(widths@.take(i + 1).drop_last() =~= widths@.take(i as int));
        }
        rows = rows + wrapped_row_count(widths[i], content_width);
        i = i + 1;
    }
    assert(widths@.take(widths.len() as int) =~= widths@);
    let beyond: usize = if rows > content_height { rows - content_height } else { 0 };
    beyond as u16
}

/// Whether the view follows the end of the transcript: its scroll is at
/// the last logical line.
pub fn follows_tail(state: &CliState) -> (r: bool)
    ensures
        r == (bottom_row(state.lines@.len()) == state.log_scroll),
{
    let n = state.lines.len();
    let last: usize = if n == 0 { 0 } else { n - 1 };
    (last as u16) == state.log_scroll
}

/// Where the transcript is scrolled to: the end when the view follows the
/// tail, else the chosen row, at most the end.
pub open spec fn scroll_offset(
    log_scroll: u16,
    line_count: nat,
    widths: Seq<usize>,
    area_width: u16,
    area_height: u16,
) -> u16 {
    let limit = scroll_limit(widths, area_width, area_height);
    if bottom_row(line_count) == log_scroll {
        limit
    } else if log_scroll < limit {
        log_scroll
    } else {
        limit
    }
}

/// Where the transcript is scrolled to, its rendered lines given by their widths.
pub fn transcript_scroll_offset(
    state: &CliState,
    widths: &Vec<usize>,
    area_width: u16,
    area_height: u16,
) -> (r: u16)
    requires
        visual_rows(widths@, content_width_of(area_width)) <= usize::MAX,
    ensures
        r == scroll_offset(state.log_scroll, state.lines@.len(), widths@, area_width, area_height),
        r <= scroll_limit(widths@, area_width, area_height),
{
    let limit = max_visual_scroll(widths, area_width, area_height);
    if follows_tail(state) {
        limit
    } else if state.log_scroll < limit {
        state.log_scroll
    } else {
        limit
    }
}

} // verus!
