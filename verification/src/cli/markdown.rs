//! The model's markdown answers as the transcript shows them: tables are
//! recognised and laid out in aligned columns, everything else is left to a
//! markdown renderer.

use vstd::prelude::*;
use crate::cli::view::{columns, lemma_columns_bound, terminal_width};
use crate::text::{
    lemma_lines_have_no_break, chars_of, join_strings, join_with, lines_from, lines_of, pieces_from, split_chars, split_on,
    string_from_chars, strip_cr, text_lines, trim_end_chars, trim_end_of, trim_of, trim_start_of,
    trim_str, TrimClass,
};

verus! {

/// A part of a markdown answer: markdown text for the renderer, or a table
/// already laid out as text rows, its header row first.
pub enum MarkdownSegment {
    Markdown(String),
    Table(Vec<String>),
}

/// The mathematical value of a [`MarkdownSegment`].
pub enum MarkdownSegmentModel {
    Markdown(Seq<char>),
    Table(Seq<Seq<char>>),
}

impl View for MarkdownSegment {
    type V = MarkdownSegmentModel;

    open spec fn view(&self) -> MarkdownSegmentModel {
        match self {
            MarkdownSegment::Markdown(s) => MarkdownSegmentModel::Markdown(s@),
            MarkdownSegment::Table(rows) => MarkdownSegmentModel::Table(rows.deep_view()),
        }
    }
}

/// The mathematical value of a list of segments.
pub open spec fn segments_model(s: Seq<MarkdownSegment>) -> Seq<MarkdownSegmentModel> {
    s.map_values(|x: MarkdownSegment| x@)
}

// ---------------------------------------------------------------------------
// Table rows

/// The cells of a table row: a line that, trimmed, starts and ends with
/// `'|'`; the bars at its ends are dropped, it is split at the other bars,
/// and each cell is trimmed. A row needs two cells, not all of them empty.
pub open spec fn table_cells(line: Seq<char>) -> Option<Seq<Seq<char>>> {
    let t = trim_of(line, TrimClass::WhiteSpace);
    if t.len() > 0 && t[0] == '|' && t.last() == '|' {
        let cells = split_on(trim_of(t, TrimClass::Bar), '|').map_values(
            |c: Seq<char>| trim_of(c, TrimClass::WhiteSpace),
        );
        if cells.len() < 2 || (forall|i: int| 0 <= i < cells.len() ==> cells[i].len() == 0) {
            None
        } else {
            Some(cells)
        }
    } else {
        None
    }
}

/// The cells of a markdown table row, if the line is one.
pub fn parse_table_row(line: &str) -> (r: Option<Vec<String>>)
    ensures
        match table_cells(line@) {
            Some(cells) => r matches Some(v) && v.deep_view() == cells,
            None => r is None,
        },
{
    let trimmed = trim_str(line, TrimClass::WhiteSpace);
    let tv = chars_of(trimmed.as_str());
    if tv.len() == 0 || tv[0] != '|' || tv[tv.len() - 1] != '|' {
        return None;
    }
    let inner = trim_str(trimmed.as_str(), TrimClass::Bar);
    let iv = chars_of(inner.as_str());
    let pieces = split_chars(&iv, '|');
    let ghost trimmed_pieces = pieces.deep_view().map_values(
        |c: Seq<char>| trim_of(c, TrimClass::WhiteSpace),
    );
    let mut cells: Vec<String> = Vec::new();
    let mut all_empty = true;
    let mut i: usize = 0;
    while i < pieces.len()
        invariant
            i <= pieces.len(),
            trimmed_pieces == pieces.deep_view().map_values(
                |c: Seq<char>| trim_of(c, TrimClass::WhiteSpace),
            ),
            cells.deep_view() == trimmed_pieces.take(i as int),
            all_empty == (forall|k: int| 0 <= k < i ==> trimmed_pieces[k].len() == 0),
        decreases pieces.len() - i,
    {
        let cell = trim_str(pieces[i].as_str(), TrimClass::WhiteSpace);
        assert(pieces.deep_view()[i as int] == pieces@[i as int]@);
        assert(cell@ == trimmed_pieces[i as int]);
        if cell.as_str().is_empty() {
        } else {
            all_empty = false;
        }
        let ghost before = cells.deep_view();
        cells.push(cell);
        assert(cells.deep_view() =~= before.push(trimmed_pieces[i as int]));
        assert(cells.deep_view() =~= trimmed_pieces.take(i + 1));
        i = i + 1;
    }
    assert(trimmed_pieces.take(pieces.len() as int) =~= trimmed_pieces);
    if cells.len() < 2 || all_empty {
        None
    } else {
        Some(cells)
    }
}

/// A character of a table's separator row.
pub open spec fn marker_char(c: char) -> bool {
    c == '-' || c == ':' || c == ' '
}

/// A cell of a separator row: at least three characters, all of them
/// dashes, colons or spaces. (Such characters take one byte each, so three
/// characters are three bytes.)
pub open spec fn separator_cell(cell: Seq<char>) -> bool {
    let m = trim_of(cell, TrimClass::WhiteSpace);
    m.len() >= 3 && forall|i: int| 0 <= i < m.len() ==> marker_char(m[i])
}

/// Whether a line is the separator row under a table's header.
pub open spec fn separator_line(line: Seq<char>) -> bool {
    match table_cells(line) {
        Some(cells) => forall|i: int| 0 <= i < cells.len() ==> separator_cell(cells[i]),
        None => false,
    }
}

proof fn lemma_not_separator(line: Seq<char>, cs: Seq<Seq<char>>, i: int)
    requires
        table_cells(line) == Some(cs),
        0 <= i < cs.len(),
        !separator_cell(cs[i]),
    ensures
        !separator_line(line),
{
    assert(table_cells(line) is Some);
    let c = table_cells(line)->0;
    assert(c == cs);
    assert(separator_line(line) == (forall|k: int| 0 <= k < c.len() ==> separator_cell(c[k])));
}

/// Whether a line is the separator row under a table's header.
pub fn is_table_separator(line: &str) -> (r: bool)
    ensures
        r == separator_line(line@),
{
    let cells = match parse_table_row(line) {
        Some(c) => c,
        None => {
            return false;
        },
    };
    let ghost cs = cells.deep_view();
    let mut i: usize = 0;
    while i < cells.len()
        invariant
            i <= cells.len(),
            cs == cells.deep_view(),
            table_cells(line@) == Some(cs),
            forall|k: int| 0 <= k < i ==> separator_cell(cs[k]),
        decreases cells.len() - i,
    {
        assert(cs[i as int] == cells@[i as int]@);
        let marker = chars_of(trim_str(cells[i].as_str(), TrimClass::WhiteSpace).as_str());
        assert(marker@ == trim_of(cs[i as int], TrimClass::WhiteSpace));
        if marker.len() < 3 {
            assert(!separator_cell(cs[i as int]));
            proof {
                lemma_not_separator(line@, cs, i as int);
            }
            return false;
        }
        let mut j: usize = 0;
        while j < marker.len()
            invariant
                j <= marker.len(),
                i < cs.len(),
                table_cells(line@) == Some(cs),
                marker@ == trim_of(cs[i as int], TrimClass::WhiteSpace),
                forall|k: int| 0 <= k < j ==> marker_char(marker@[k]),
            decreases marker.len() - j,
        {
            let c = marker[j];
            if !(c == '-' || c == ':' || c == ' ') {
                assert(!separator_cell(cs[i as int]));
                proof {
                    lemma_not_separator(line@, cs, i as int);
                }
                return false;
            }
            j = j + 1;
        }
        i = i + 1;
    }
    true
}

// ---------------------------------------------------------------------------
// Table layout

/// The most cells a row of the table has.
pub open spec fn max_row_len(rows: Seq<Seq<Seq<char>>>) -> nat
    decreases rows.len(),
{
    if rows.len() == 0 {
        0
    } else {
        let m = max_row_len(rows.drop_last());
        let l = rows.last().len();
        if l > m {
            l
        } else {
            m
        }
    }
}

/// The cell of a row in a column, empty where the row is shorter.
pub open spec fn cell_at(row: Seq<Seq<char>>, c: int) -> Seq<char> {
    if 0 <= c < row.len() {
        row[c]
    } else {
        Seq::empty()
    }
}

/// The width of a column: the most columns one of its cells takes.
pub open spec fn column_width(rows: Seq<Seq<Seq<char>>>, c: int) -> nat
    decreases rows.len(),
{
    if rows.len() == 0 {
        0
    } else {
        let m = column_width(rows.drop_last(), c);
        let w = columns(cell_at(rows.last(), c));
        if w > m {
            w
        } else {
            m
        }
    }
}

/// The widths of all the columns of a table.
pub open spec fn column_widths(rows: Seq<Seq<Seq<char>>>) -> Seq<nat> {
    Seq::new(max_row_len(rows), |c: int| column_width(rows, c))
}

/// `n` spaces.
pub open spec fn spaces(n: nat) -> Seq<char> {
    Seq::new(n, |i: int| ' ')
}

/// A cell followed by the spaces that fill its column.
pub open spec fn padded_cell(row: Seq<Seq<char>>, c: int, width: nat) -> Seq<char> {
    let cell = cell_at(row, c);
    let used = columns(cell);
    cell + spaces(if width >= used { (width - used) as nat } else { 0 })
}

/// The first `k` padded cells of a row, two spaces apart.
pub open spec fn joined_cells(row: Seq<Seq<char>>, widths: Seq<nat>, k: nat) -> Seq<char>
    decreases k,
{
    if k == 0 {
        Seq::empty()
    } else if k == 1 {
        padded_cell(row, 0, widths[0])
    } else {
        joined_cells(row, widths, (k - 1) as nat) + "  "@ + padded_cell(
            row,
            k - 1,
            widths[k - 1],
        )
    }
}

/// A row laid out in its columns, without trailing white space.
pub open spec fn table_row_text(row: Seq<Seq<char>>, widths: Seq<nat>) -> Seq<char> {
    trim_end_of(joined_cells(row, widths, widths.len()), TrimClass::WhiteSpace)
}

/// A table laid out in aligned columns, one text row per row.
pub open spec fn table_text(rows: Seq<Seq<Seq<char>>>) -> Seq<Seq<char>> {
    rows.map_values(|row: Seq<Seq<char>>| table_row_text(row, column_widths(rows)))
}

proof fn lemma_trim_end_clean(s: Seq<char>)
    ensures
        trim_end_of(s, TrimClass::WhiteSpace).len() > 0 ==> !crate::text::is_white_space(
            trim_end_of(s, TrimClass::WhiteSpace).last(),
        ),
    decreases s.len(),
{
    if s.len() > 0 && crate::text::is_white_space(s.last()) {
        lemma_trim_end_clean(s.drop_last());
    }
}

/// A laid-out table has one text row per row, and no text row ends in
/// white space.
pub proof fn lemma_table_text(rows: Seq<Seq<Seq<char>>>)
    ensures
        table_text(rows).len() == rows.len(),
        forall|i: int|
            0 <= i < rows.len() && (#[trigger] table_text(rows)[i]).len() > 0
                ==> !crate::text::is_white_space(table_text(rows)[i].last()),
{
    assert forall|i: int|
        0 <= i < rows.len() && (#[trigger] table_text(rows)[i]).len() > 0
            implies !crate::text::is_white_space(table_text(rows)[i].last()) by {
        lemma_trim_end_clean(joined_cells(rows[i], column_widths(rows), column_widths(rows).len()));
    }
}

/// The column where cell `k` of a laid-out row starts: the widths of the
/// cells before it, two spaces after each.
pub open spec fn cell_start(widths: Seq<nat>, k: nat) -> nat
    decreases k,
{
    if k == 0 {
        0
    } else {
        cell_start(widths, (k - 1) as nat) + widths[k - 1] + 2
    }
}

proof fn lemma_columns_concat(a: Seq<char>, b: Seq<char>)
    ensures
        columns(a + b) == columns(a) + columns(b),
    decreases b.len(),
{
    if b.len() == 0 {
        assert(a + b =~= a);
    } else {
        lemma_columns_concat(a, b.drop_last());
        assert((a + b).drop_last() =~= a + b.drop_last());
        assert((a + b).last() == b.last());
    }
}

proof fn lemma_columns_spaces(n: nat)
    ensures
        columns(spaces(n)) == n,
    decreases n,
{
    if n > 0 {
        lemma_columns_spaces((n - 1) as nat);
        assert(spaces(n).drop_last() =~= spaces((n - 1) as nat));
    }
}

proof fn lemma_joined_width(row: Seq<Seq<char>>, widths: Seq<nat>, k: nat)
    requires
        1 <= k <= widths.len(),
        forall|j: int| 0 <= j < k ==> columns(cell_at(row, j)) <= #[trigger] widths[j],
    ensures
        columns(joined_cells(row, widths, k)) + 2 == cell_start(widths, k),
    decreases k,
{
    let c = k - 1;
    let cell = cell_at(row, c);
    lemma_columns_spaces((widths[c] - columns(cell)) as nat);
    lemma_columns_concat(cell, spaces((widths[c] - columns(cell)) as nat));
    assert(columns(padded_cell(row, c, widths[c])) == widths[c]);
    if k > 1 {
        lemma_joined_width(row, widths, (k - 1) as nat);
        reveal_strlit("  ");
        let before = joined_cells(row, widths, (k - 1) as nat);
        lemma_columns_concat(before, "  "@);
        lemma_columns_concat(before + "  "@, padded_cell(row, c, widths[c]));
        assert(columns("  "@) == 2) by {
            assert("  "@ =~= spaces(2));
            lemma_columns_spaces(2);
        }
    } else {
        assert(cell_start(widths, 0) == 0);
    }
}

proof fn lemma_column_width_bounds(rows: Seq<Seq<Seq<char>>>, c: int)
    ensures
        forall|i: int| 0 <= i < rows.len() ==> columns(cell_at(rows[i], c)) <= column_width(rows, c),
    decreases rows.len(),
{
    if rows.len() > 0 {
        lemma_column_width_bounds(rows.drop_last(), c);
        assert forall|i: int| 0 <= i < rows.len() implies columns(cell_at(rows[i], c))
            <= column_width(rows, c) by {
            if i < rows.len() - 1 {
                assert(rows.drop_last()[i] == rows[i]);
            }
        }
    }
}

proof fn lemma_trim_end_prefix(s: Seq<char>)
    ensures
        trim_end_of(s, TrimClass::WhiteSpace) == s.take(trim_end_of(s, TrimClass::WhiteSpace).len() as int),
    decreases s.len(),
{
    if s.len() > 0 && crate::text::is_white_space(s.last()) {
        lemma_trim_end_prefix(s.drop_last());
        lemma_trim_end_len(s.drop_last(), TrimClass::WhiteSpace);
        assert(s.drop_last().take(trim_end_of(s, TrimClass::WhiteSpace).len() as int) =~= s.take(
            trim_end_of(s, TrimClass::WhiteSpace).len() as int,
        ));
    } else {
        assert(s.take(s.len() as int) =~= s);
    }
}

/// The columns of a laid-out table line up: in every row, before trailing
/// white space is dropped, cell `k` starts at the same column, and each text
/// row is that laid-out row without its trailing white space.
pub proof fn lemma_table_columns_align(rows: Seq<Seq<Seq<char>>>, i: int, k: nat)
    requires
        0 <= i < rows.len(),
        1 <= k <= max_row_len(rows),
    ensures
        columns(joined_cells(rows[i], column_widths(rows), k)) + 2 == cell_start(column_widths(rows), k),
        table_text(rows)[i] == joined_cells(
            rows[i],
            column_widths(rows),
            max_row_len(rows),
        ).take(table_text(rows)[i].len() as int),
{
    let widths = column_widths(rows);
    assert forall|j: int| 0 <= j < k implies columns(cell_at(rows[i], j)) <= #[trigger] widths[j] by {
        lemma_column_width_bounds(rows, j);
    }
    lemma_joined_width(rows[i], widths, k);
    lemma_trim_end_prefix(joined_cells(rows[i], widths, widths.len()));
}

/// Whether the columns of every cell can be counted in a `usize`.
pub open spec fn cells_fit(rows: Seq<Seq<Seq<char>>>) -> bool {
    forall|i: int, j: int| 0 <= i < rows.len() && 0 <= j < rows[i].len() ==> columns(rows[i][j])
        <= usize::MAX
}

/// The most cells a row of the table has.
fn max_row_len_of(rows: &Vec<Vec<String>>) -> (r: usize)
    ensures
        r == max_row_len(rows.deep_view()),
{
    let mut m: usize = 0;
    let mut i: usize = 0;
    while i < rows.len()
        invariant
            i <= rows.len(),
            m == max_row_len(rows.deep_view().take(i as int)),
        decreases rows.len() - i,
    {
        assert(rows.deep_view().take(i + 1).drop_last() =~= rows.deep_view().take(i as int));
        assert(rows.deep_view()[i as int].len() == rows[i as int].len());
        if rows[i].len() > m {
            m = rows[i].len();
        }
        i = i + 1;
    }
    assert(rows.deep_view().take(rows.len() as int) =~= rows.deep_view());
    m
}

/// The width of one column of the table.
fn column_width_of(rows: &Vec<Vec<String>>, c: usize) -> (r: usize)
    requires
        cells_fit(rows.deep_view()),
    ensures
        r == column_width(rows.deep_view(), c as int),
{
    let mut w: usize = 0;
    let mut i: usize = 0;
    while i < rows.len()
        invariant
            i <= rows.len(),
            cells_fit(rows.deep_view()),
            w == column_width(rows.deep_view().take(i as int), c as int),
        decreases rows.len() - i,
    {
        let ghost dv = rows.deep_view();
        assert(dv.take(i + 1).drop_last() =~= dv.take(i as int));
        assert(dv.take(i + 1).last() == dv[i as int]);
        let used: usize = if c < rows[i].len() {
            assert(dv[i as int][c as int] == rows[i as int][c as int]@);
            terminal_width(rows[i][c].as_str())
        } else {
            0
        };
        if used > w {
            w = used;
        }
        i = i + 1;
    }
    assert(rows.deep_view().take(rows.len() as int) =~= rows.deep_view());
    w
}

/// One row laid out in the given column widths.
fn format_table_row(row: &Vec<String>, widths: &Vec<usize>) -> (r: String)
    requires
        forall|j: int| 0 <= j < row.len() ==> columns(row@[j]@) <= usize::MAX,
    ensures
        r@ == table_row_text(row.deep_view(), widths@.map_values(|w: usize| w as nat)),
{
    let ghost ws = widths@.map_values(|w: usize| w as nat);
    proof {
        reveal_strlit("  ");
    }
    let mut line: Vec<char> = Vec::new();
    let mut c: usize = 0;
    while c < widths.len()
        invariant
            c <= widths.len(),
            ws == widths@.map_values(|w: usize| w as nat),
            forall|j: int| 0 <= j < row.len() ==> columns(row@[j]@) <= usize::MAX,
            line@ == joined_cells(row.deep_view(), ws, c as nat),
        decreases widths.len() - c,
    {
        proof {
            reveal_strlit("  ");
        }
        let ghost before = line@;
        if c > 0 {
            line.push(' ');
            line.push(' ');
        }
        let (mut cell, used) = if c < row.len() {
            (chars_of(row[c].as_str()), terminal_width(row[c].as_str()))
        } else {
            (Vec::new(), 0)
        };
        let ghost cell_model = cell@;
        assert(cell_model == cell_at(row.deep_view(), c as int));
        line.append(&mut cell);
        assert(line@ =~= (if c > 0 {
            before + "  "@
        } else {
            before
        }) + cell_model + spaces(0));
        let pad = widths[c].saturating_sub(used);
        let mut k: usize = 0;
        while k < pad
            invariant
                k <= pad,
                line@ == (if c > 0 {
                    before + "  "@
                } else {
                    before
                }) + cell_model + spaces(k as nat),
            decreases pad - k,
        {
            line.push(' ');
            assert(spaces((k + 1) as nat) =~= spaces(k as nat).push(' '));
            k = k + 1;
        }
        proof {
            assert(ws[c as int] == widths@[c as int] as nat);
            assert(padded_cell(row.deep_view(), c as int, ws[c as int]) =~= cell_model + spaces(
                pad as nat,
            ));
            if c == 0 {
                assert(line@ =~= joined_cells(row.deep_view(), ws, 1));
            } else {
                assert(line@ =~= joined_cells(row.deep_view(), ws, (c + 1) as nat));
            }
        }
        c = c + 1;
    }
    let trimmed = trim_end_chars(&line, TrimClass::WhiteSpace);
    string_from_chars(trimmed)
}

/// Lays a table out in aligned columns: every cell is padded to the width
/// of its column, cells are two spaces apart, and trailing white space is
/// dropped.
pub fn format_table_rows(rows: Vec<Vec<String>>) -> (r: Vec<String>)
    requires
        cells_fit(rows.deep_view()),
    ensures
        r.deep_view() == table_text(rows.deep_view()),
{
    let ghost dv = rows.deep_view();
    let column_count = max_row_len_of(&rows);
    let mut widths: Vec<usize> = Vec::new();
    let mut c: usize = 0;
    while c < column_count
        invariant
            c <= column_count,
            column_count == max_row_len(dv),
            dv == rows.deep_view(),
            cells_fit(dv),
            widths@.map_values(|w: usize| w as nat) == column_widths(dv).take(c as int),
        decreases column_count - c,
    {
        let w = column_width_of(&rows, c);
        let ghost before = widths@.map_values(|w: usize| w as nat);
        widths.push(w);
        assert(widths@.map_values(|w: usize| w as nat) =~= before.push(w as nat));
        assert(column_widths(dv)[c as int] == column_width(dv, c as int));
        assert(widths@.map_values(|w: usize| w as nat) =~= column_widths(dv).take(c + 1));
        c = c + 1;
    }
    assert(column_widths(dv).take(column_count as int) =~= column_widths(dv));
    let mut out: Vec<String> = Vec::new();
    let mut i: usize = 0;
    while i < rows.len()
        invariant
            i <= rows.len(),
            dv == rows.deep_view(),
            cells_fit(dv),
            widths@.map_values(|w: usize| w as nat) == column_widths(dv),
            out.deep_view() == table_text(dv).take(i as int),
        decreases rows.len() - i,
    {
        assert forall|j: int| 0 <= j < rows@[i as int].len() implies columns(
            rows@[i as int]@[j]@,
        ) <= usize::MAX by {
            assert(dv[i as int][j] == rows@[i as int]@[j]@);
        }
        let line = format_table_row(&rows[i], &widths);
        assert(rows@[i as int].deep_view() == dv[i as int]);
        assert(line@ == table_text(dv)[i as int]);
        let ghost before = out.deep_view();
        out.push(line);
        assert(out.deep_view() =~= before.push(table_text(dv)[i as int]));
        assert(out.deep_view() =~= table_text(dv).take(i + 1));
        i = i + 1;
    }
    assert(table_text(dv).take(rows.len() as int) =~= table_text(dv));
    out
}

// ---------------------------------------------------------------------------
// Segments

/// The rows of a table body from line `j` on: every following line that is
/// a table row, up to the first that is not.
pub open spec fn table_rows_from(lines: Seq<Seq<char>>, j: nat) -> Seq<Seq<Seq<char>>>
    decreases lines.len() - j,
{
    if j < lines.len() {
        match table_cells(lines[j as int]) {
            Some(cells) => seq![cells] + table_rows_from(lines, j + 1),
            None => Seq::empty(),
        }
    } else {
        Seq::empty()
    }
}

/// The markdown text of the lines gathered so far, if there are any.
pub open spec fn flushed(buffer: Seq<Seq<char>>) -> Seq<MarkdownSegmentModel> {
    if buffer.len() == 0 {
        Seq::empty()
    } else {
        seq![MarkdownSegmentModel::Markdown(join_with(buffer, "\n"@))]
    }
}

/// The segments of the lines from `i` on, `buffer` holding the markdown
/// lines gathered before. A table starts at a table row followed by a
/// separator row; its body is the table rows that follow.
pub open spec fn segments_from(lines: Seq<Seq<char>>, i: nat, buffer: Seq<Seq<char>>) -> Seq<
    MarkdownSegmentModel,
>
    decreases lines.len() - i,
{
    if i >= lines.len() {
        flushed(buffer)
    } else if i + 1 < lines.len() && table_cells(lines[i as int]) is Some && separator_line(
        lines[i + 1 as int],
    ) {
        let body = table_rows_from(lines, i + 2);
        proof {
            lemma_table_rows_from(lines, i + 2);
        }
        let rows = seq![table_cells(lines[i as int])->0] + body;
        flushed(buffer) + seq![MarkdownSegmentModel::Table(table_text(rows))] + segments_from(
            lines,
            i + 2 + body.len(),
            Seq::empty(),
        )
    } else {
        segments_from(lines, i + 1, buffer.push(lines[i as int]))
    }
}

/// The segments of a markdown answer.
pub open spec fn markdown_segments_of(input: Seq<char>) -> Seq<MarkdownSegmentModel> {
    segments_from(lines_of(input), 0, Seq::empty())
}

proof fn lemma_segments_without_tables(lines: Seq<Seq<char>>, i: nat, buffer: Seq<Seq<char>>)
    requires
        i <= lines.len(),
        forall|k: int| i <= k < lines.len() ==> #[trigger] table_cells(lines[k]) is None,
    ensures
        segments_from(lines, i, buffer) == flushed(buffer + lines.skip(i as int)),
    decreases lines.len() - i,
{
    if i == lines.len() {
        assert(buffer + lines.skip(i as int) =~= buffer);
    } else {
        assert(table_cells(lines[i as int]) is None);
        lemma_segments_without_tables(lines, i + 1, buffer.push(lines[i as int]));
        assert(buffer.push(lines[i as int]) + lines.skip(i + 1 as int) =~= buffer + lines.skip(i as int));
    }
}

/// A text in which no line is a table row is handed whole to the markdown
/// renderer, its lines joined again; an empty text gives nothing.
pub proof fn lemma_text_without_tables(input: Seq<char>)
    requires
        forall|k: int| 0 <= k < lines_of(input).len() ==> #[trigger] table_cells(lines_of(input)[k]) is None,
    ensures
        markdown_segments_of(input) == flushed(lines_of(input)),
{
    lemma_segments_without_tables(lines_of(input), 0, Seq::empty());
    assert(Seq::<Seq<char>>::empty() + lines_of(input).skip(0) =~= lines_of(input));
}

/// The line breaks in a text.
pub open spec fn line_breaks(t: Seq<char>) -> nat
    decreases t.len(),
{
    if t.len() == 0 {
        0
    } else {
        line_breaks(t.drop_last()) + if t.last() == '\n' {
            1nat
        } else {
            0nat
        }
    }
}

/// The lines of the answer a segment stands for: the lines of its markdown
/// text, or a table's rows together with its separator row.
pub open spec fn segment_lines(seg: MarkdownSegmentModel) -> nat {
    match seg {
        MarkdownSegmentModel::Markdown(t) => line_breaks(t) + 1,
        MarkdownSegmentModel::Table(rows) => rows.len() + 1,
    }
}

/// The lines of the answer that segments stand for.
pub open spec fn segments_lines(segs: Seq<MarkdownSegmentModel>) -> nat
    decreases segs.len(),
{
    if segs.len() == 0 {
        0
    } else {
        segments_lines(segs.drop_last()) + segment_lines(segs.last())
    }
}

proof fn lemma_line_breaks_concat(a: Seq<char>, b: Seq<char>)
    ensures
        line_breaks(a + b) == line_breaks(a) + line_breaks(b),
    decreases b.len(),
{
    if b.len() == 0 {
        assert(a + b =~= a);
    } else {
        lemma_line_breaks_concat(a, b.drop_last());
        assert((a + b).drop_last() =~= a + b.drop_last());
    }
}

proof fn lemma_no_line_breaks(t: Seq<char>)
    requires
        !t.contains('\n'),
    ensures
        line_breaks(t) == 0,
    decreases t.len(),
{
    if t.len() > 0 {
        assert(t.drop_last().len() < t.len());
        assert(!t.drop_last().contains('\n')) by {
            if t.drop_last().contains('\n') {
                let j = choose|j: int| 0 <= j < t.drop_last().len() && t.drop_last()[j] == '\n';
                assert(t[j] == '\n');
            }
        }
        assert(t[t.len() - 1] != '\n');
        lemma_no_line_breaks(t.drop_last());
    }
}

proof fn lemma_joined_line_breaks(parts: Seq<Seq<char>>)
    requires
        parts.len() > 0,
        forall|i: int| 0 <= i < parts.len() ==> !(#[trigger] parts[i]).contains('\n'),
    ensures
        line_breaks(join_with(parts, "\n"@)) + 1 == parts.len(),
    decreases parts.len(),
{
    reveal_strlit("\n");
    lemma_no_line_breaks(parts.last());
    if parts.len() > 1 {
        let init = parts.drop_last();
        assert forall|i: int| 0 <= i < init.len() implies !(#[trigger] init[i]).contains('\n') by {
            assert(init[i] == parts[i]);
        }
        lemma_joined_line_breaks(init);
        lemma_line_breaks_concat(join_with(init, "\n"@), "\n"@);
        lemma_line_breaks_concat(join_with(init, "\n"@) + "\n"@, parts.last());
        assert("\n"@ =~= seq!['\n']);
        assert(seq!['\n'].drop_last() =~= Seq::<char>::empty());
        assert(line_breaks(Seq::<char>::empty()) == 0);
        assert(line_breaks(seq!['\n']) == 1);
    }
}

proof fn lemma_segments_lines_concat(a: Seq<MarkdownSegmentModel>, b: Seq<MarkdownSegmentModel>)
    ensures
        segments_lines(a + b) == segments_lines(a) + segments_lines(b),
    decreases b.len(),
{
    if b.len() == 0 {
        assert(a + b =~= a);
    } else {
        lemma_segments_lines_concat(a, b.drop_last());
        assert((a + b).drop_last() =~= a + b.drop_last());
    }
}

proof fn lemma_flushed_lines(buffer: Seq<Seq<char>>)
    requires
        forall|i: int| 0 <= i < buffer.len() ==> !(#[trigger] buffer[i]).contains('\n'),
    ensures
        segments_lines(flushed(buffer)) == buffer.len(),
{
    if buffer.len() > 0 {
        lemma_joined_line_breaks(buffer);
        let segs = flushed(buffer);
        assert(segs.drop_last() =~= Seq::<MarkdownSegmentModel>::empty());
        assert(segments_lines(Seq::<MarkdownSegmentModel>::empty()) == 0);
        assert(segs.last() == MarkdownSegmentModel::Markdown(join_with(buffer, "\n"@)));
    }
}

proof fn lemma_segments_from_lines(lines: Seq<Seq<char>>, i: nat, buffer: Seq<Seq<char>>)
    requires
        i <= lines.len(),
        forall|k: int| 0 <= k < lines.len() ==> !(#[trigger] lines[k]).contains('\n'),
        forall|k: int| 0 <= k < buffer.len() ==> !(#[trigger] buffer[k]).contains('\n'),
    ensures
        segments_lines(segments_from(lines, i, buffer)) == buffer.len() + (lines.len() - i),
    decreases lines.len() - i,
{
    if i >= lines.len() {
        lemma_flushed_lines(buffer);
    } else if i + 1 < lines.len() && table_cells(lines[i as int]) is Some && separator_line(
        lines[i + 1 as int],
    ) {
        let body = table_rows_from(lines, i + 2);
        lemma_table_rows_from(lines, i + 2);
        let rows = seq![table_cells(lines[i as int])->0] + body;
        let table = seq![MarkdownSegmentModel::Table(table_text(rows))];
        let rest = segments_from(lines, i + 2 + body.len(), Seq::empty());
        lemma_segments_from_lines(lines, i + 2 + body.len(), Seq::empty());
        lemma_flushed_lines(buffer);
        lemma_table_text(rows);
        assert(table.drop_last() =~= Seq::<MarkdownSegmentModel>::empty());
        assert(segments_lines(Seq::<MarkdownSegmentModel>::empty()) == 0);
        assert(table_text(rows).len() == rows.len());
        assert(segments_lines(table) == rows.len() + 1);
        lemma_segments_lines_concat(flushed(buffer), table);
        lemma_segments_lines_concat(flushed(buffer) + table, rest);
    } else {
        let next = buffer.push(lines[i as int]);
        assert forall|k: int| 0 <= k < next.len() implies !(#[trigger] next[k]).contains('\n') by {
            if k < buffer.len() {
                assert(next[k] == buffer[k]);
            } else {
                assert(next[k] == lines[i as int]);
            }
        }
        lemma_segments_from_lines(lines, i + 1, next);
    }
}

/// No line of an answer is lost or made up: its segments stand for exactly
/// its lines, each markdown segment for as many lines as its text has, and
/// each table for its header, its body rows and the separator row between.
pub proof fn lemma_segments_keep_every_line(input: Seq<char>)
    ensures
        segments_lines(markdown_segments_of(input)) == lines_of(input).len(),
{
    lemma_lines_have_no_break(input);
    lemma_segments_from_lines(lines_of(input), 0, Seq::empty());
}

proof fn lemma_table_rows_shift(a: Seq<Seq<char>>, b: Seq<Seq<char>>, k: nat)
    ensures
        table_rows_from(a + b, a.len() + k) == table_rows_from(b, k),
    decreases b.len() - k,
{
    if k < b.len() {
        assert((a + b)[a.len() + k as int] == b[k as int]);
        lemma_table_rows_shift(a, b, k + 1);
    }
}

proof fn lemma_segments_shift(a: Seq<Seq<char>>, b: Seq<Seq<char>>, k: nat, buffer: Seq<Seq<char>>)
    ensures
        segments_from(a + b, a.len() + k, buffer) == segments_from(b, k, buffer),
    decreases b.len() - k,
{
    if k < b.len() {
        assert((a + b)[a.len() + k as int] == b[k as int]);
        if k + 1 < b.len() {
            assert((a + b)[a.len() + k + 1 as int] == b[k + 1 as int]);
        }
        if k + 1 < b.len() && table_cells(b[k as int]) is Some && separator_line(b[k + 1 as int]) {
            lemma_table_rows_shift(a, b, k + 2);
            lemma_table_rows_from(b, k + 2);
            let body = table_rows_from(b, k + 2);
            lemma_segments_shift(a, b, k + 2 + body.len(), Seq::empty());
        } else {
            lemma_segments_shift(a, b, k + 1, buffer.push(b[k as int]));
        }
    }
}

proof fn lemma_table_rows_prefix(a: Seq<Seq<char>>, b: Seq<Seq<char>>, j: nat)
    requires
        j < a.len(),
        table_cells(a.last()) is None,
    ensures
        table_rows_from(a + b, j) == table_rows_from(a, j),
    decreases a.len() - j,
{
    assert((a + b)[j as int] == a[j as int]);
    if table_cells(a[j as int]) is Some {
        assert(j + 1 < a.len());
        lemma_table_rows_prefix(a, b, j + 1);
    }
}

proof fn lemma_segments_before_table(
    a: Seq<Seq<char>>,
    b: Seq<Seq<char>>,
    i: nat,
    buffer: Seq<Seq<char>>,
)
    requires
        i <= a.len(),
        a.len() > 0 ==> table_cells(a.last()) is None,
        b.len() >= 2,
        table_cells(b[0]) is Some,
        separator_line(b[1]),
    ensures
        segments_from(a + b, i, buffer) == segments_from(a, i, buffer) + segments_from(
            b,
            0,
            Seq::empty(),
        ),
    decreases a.len() - i,
{
    let ab = a + b;
    if i == a.len() {
        assert(ab[i as int] == b[0] && ab[i + 1 as int] == b[1]);
        lemma_table_rows_shift(a, b, 2);
        lemma_table_rows_from(b, 2);
        let body = table_rows_from(b, 2);
        lemma_segments_shift(a, b, 2 + body.len(), Seq::empty());
        let rows = seq![table_cells(b[0])->0] + body;
        let t = seq![MarkdownSegmentModel::Table(table_text(rows))];
        let rest = segments_from(b, 2 + body.len(), Seq::empty());
        assert(flushed(Seq::<Seq<char>>::empty()) =~= Seq::<MarkdownSegmentModel>::empty());
        assert(segments_from(b, 0, Seq::empty()) == Seq::<MarkdownSegmentModel>::empty() + t + rest);
        assert(flushed(buffer) + t + rest =~= flushed(buffer) + (Seq::<MarkdownSegmentModel>::empty() + t
            + rest));
    } else {
        assert(ab[i as int] == a[i as int]);
        if i + 1 < a.len() {
            assert(ab[i + 1 as int] == a[i + 1 as int]);
        }
        if i + 1 == a.len() {
            assert(a[i as int] == a.last());
        }
        if i + 1 < ab.len() && table_cells(ab[i as int]) is Some && separator_line(ab[i + 1 as int]) {
            assert(i + 1 < a.len());
            assert(table_cells(a[i + 1 as int]) is Some);
            assert(i + 2 < a.len());
            lemma_table_rows_prefix(a, b, i + 2);
            lemma_table_rows_from(a, i + 2);
            let body = table_rows_from(a, i + 2);
            let j = i + 2 + body.len();
            lemma_segments_before_table(a, b, j, Seq::empty());
            let rows = seq![table_cells(a[i as int])->0] + body;
            let t = seq![MarkdownSegmentModel::Table(table_text(rows))];
            let sa = segments_from(a, j, Seq::empty());
            let sb = segments_from(b, 0, Seq::empty());
            assert(flushed(buffer) + t + (sa + sb) =~= (flushed(buffer) + t + sa) + sb);
        } else {
            lemma_segments_before_table(a, b, i + 1, buffer.push(a[i as int]));
        }
    }
}

/// Segmenting is compositional at a table: when an answer's lines are some
/// lines that do not end in a table row, followed by lines that start a table,
/// its segments are those of the first part followed by those of the second.
/// So nothing after a table is lost, and nothing moves across it.
pub proof fn lemma_segments_split_at_table(a: Seq<Seq<char>>, b: Seq<Seq<char>>)
    requires
        a.len() > 0 ==> table_cells(a.last()) is None,
        b.len() >= 2,
        table_cells(b[0]) is Some,
        separator_line(b[1]),
    ensures
        segments_from(a + b, 0, Seq::empty()) == segments_from(a, 0, Seq::empty()) + segments_from(
            b,
            0,
            Seq::empty(),
        ),
{
    lemma_segments_before_table(a, b, 0, Seq::empty());
}

/// A table body has at most the lines left, and each of its rows is the
/// cells of its line.
pub proof fn lemma_table_rows_from(lines: Seq<Seq<char>>, j: nat)
    ensures
        j <= lines.len() ==> table_rows_from(lines, j).len() <= lines.len() - j,
        forall|k: int|
            0 <= k < table_rows_from(lines, j).len() ==> table_cells(lines[j + k]) == Some(
                #[trigger] table_rows_from(lines, j)[k],
            ) && j + k < lines.len(),
    decreases lines.len() - j,
{
    if j < lines.len() {
        lemma_table_rows_from(lines, j + 1);
        match table_cells(lines[j as int]) {
            Some(cells) => {
                let rest = table_rows_from(lines, j + 1);
                assert forall|k: int|
                    0 <= k < table_rows_from(lines, j).len() implies table_cells(lines[j + k])
                    == Some(#[trigger] table_rows_from(lines, j)[k]) && j + k < lines.len() by {
                    if k > 0 {
                        assert(table_rows_from(lines, j)[k] == rest[k - 1]);
                    }
                }
            },
            None => {},
        }
    }
}

proof fn lemma_trim_start_len(s: Seq<char>, k: TrimClass)
    ensures
        trim_start_of(s, k).len() <= s.len(),
    decreases s.len(),
{
    if s.len() > 0 {
        lemma_trim_start_len(s.drop_first(), k);
    }
}

proof fn lemma_trim_end_len(s: Seq<char>, k: TrimClass)
    ensures
        trim_end_of(s, k).len() <= s.len(),
    decreases s.len(),
{
    if s.len() > 0 {
        lemma_trim_end_len(s.drop_last(), k);
    }
}

proof fn lemma_trim_len(s: Seq<char>, k: TrimClass)
    ensures
        trim_of(s, k).len() <= s.len(),
{
    lemma_trim_start_len(s, k);
    lemma_trim_end_len(trim_start_of(s, k), k);
}

proof fn lemma_push_within(done: Seq<Seq<char>>, x: Seq<char>, b: nat)
    requires
        forall|i: int| 0 <= i < done.len() ==> done[i].len() <= b,
        x.len() <= b,
    ensures
        forall|i: int| 0 <= i < done.push(x).len() ==> #[trigger] done.push(x)[i].len() <= b,
{
    assert forall|i: int| 0 <= i < done.push(x).len() implies #[trigger] done.push(x)[i].len()
        <= b by {
        if i < done.len() {
            assert(done.push(x)[i] == done[i]);
        }
    }
}

proof fn lemma_pieces_len(s: Seq<char>, sep: char, done: Seq<Seq<char>>, cur: Seq<char>, b: nat)
    requires
        forall|i: int| 0 <= i < done.len() ==> done[i].len() <= b,
        cur.len() + s.len() <= b,
    ensures
        forall|i: int|
            0 <= i < pieces_from(s, sep, done, cur).len() ==> #[trigger] pieces_from(
                s,
                sep,
                done,
                cur,
            )[i].len() <= b,
    decreases s.len(),
{
    if s.len() == 0 {
        lemma_push_within(done, cur, b);
    } else {
        if s[0] == sep {
            lemma_push_within(done, cur, b);
            lemma_pieces_len(s.drop_first(), sep, done.push(cur), Seq::empty(), b);
            assert(pieces_from(s, sep, done, cur) == pieces_from(
                s.drop_first(),
                sep,
                done.push(cur),
                Seq::empty(),
            ));
        } else {
            lemma_pieces_len(s.drop_first(), sep, done, cur.push(s[0]), b);
            assert(pieces_from(s, sep, done, cur) == pieces_from(
                s.drop_first(),
                sep,
                done,
                cur.push(s[0]),
            ));
        }
    }
}

proof fn lemma_lines_len(s: Seq<char>, done: Seq<Seq<char>>, cur: Seq<char>, b: nat)
    requires
        forall|i: int| 0 <= i < done.len() ==> done[i].len() <= b,
        cur.len() + s.len() <= b,
    ensures
        forall|i: int|
            0 <= i < lines_from(s, done, cur).len() ==> #[trigger] lines_from(s, done, cur)[i].len()
                <= b,
    decreases s.len(),
{
    if s.len() == 0 {
        if cur.len() > 0 {
            lemma_push_within(done, cur, b);
        }
    } else {
        if s[0] == '\n' {
            lemma_push_within(done, strip_cr(cur), b);
            lemma_lines_len(s.drop_first(), done.push(strip_cr(cur)), Seq::empty(), b);
            assert(lines_from(s, done, cur) == lines_from(
                s.drop_first(),
                done.push(strip_cr(cur)),
                Seq::empty(),
            ));
        } else {
            lemma_lines_len(s.drop_first(), done, cur.push(s[0]), b);
            assert(lines_from(s, done, cur) == lines_from(s.drop_first(), done, cur.push(s[0])));
        }
    }
}

proof fn lemma_table_cells_len(line: Seq<char>)
    ensures
        table_cells(line) matches Some(cells) ==> forall|i: int|
            0 <= i < cells.len() ==> #[trigger] cells[i].len() <= line.len(),
{
    let t = trim_of(line, TrimClass::WhiteSpace);
    lemma_trim_len(line, TrimClass::WhiteSpace);
    let inner = trim_of(t, TrimClass::Bar);
    lemma_trim_len(t, TrimClass::Bar);
    lemma_pieces_len(inner, '|', Seq::empty(), Seq::empty(), line.len());
    let pieces = split_on(inner, '|');
    assert forall|i: int| 0 <= i < pieces.len() implies trim_of(pieces[i], TrimClass::WhiteSpace).len()
        <= line.len() by {
        lemma_trim_len(pieces[i], TrimClass::WhiteSpace);
    }
}

/// Whether every cell of a table is at most `b` characters long.
pub open spec fn cells_within(rows: Seq<Seq<Seq<char>>>, b: nat) -> bool {
    forall|i: int, j: int| 0 <= i < rows.len() && 0 <= j < rows[i].len() ==> rows[i][j].len() <= b
}

proof fn lemma_cells_fit(rows: Seq<Seq<Seq<char>>>, b: nat)
    requires
        cells_within(rows, b),
        2 * b <= usize::MAX,
    ensures
        cells_fit(rows),
{
    assert forall|i: int, j: int| 0 <= i < rows.len() && 0 <= j < rows[i].len() implies columns(
        rows[i][j],
    ) <= usize::MAX by {
        lemma_columns_bound(rows[i][j]);
    }
}

/// Adds the gathered markdown lines to the output as one segment, if there
/// are any, and empties the buffer.
fn flush_markdown_buffer(buffer: &mut Vec<String>, output: &mut Vec<MarkdownSegment>)
    ensures
        segments_model(final(output)@) == segments_model(old(output)@) + flushed(
            old(buffer).deep_view(),
        ),
        final(buffer)@.len() == 0,
{
    if buffer.len() == 0 {
        assert(segments_model(output@) =~= segments_model(output@) + flushed(buffer.deep_view()));
        return;
    }
    let markdown = join_strings(buffer, "\n");
    let ghost before = segments_model(output@);
    output.push(MarkdownSegment::Markdown(markdown));
    assert(segments_model(output@) =~= before + flushed(old(buffer).deep_view()));
    buffer.clear();
}

/// Splits a markdown answer into markdown text and laid-out tables, in order.
pub fn markdown_segments(input: &str) -> (r: Vec<MarkdownSegment>)
    requires
        2 * input@.len() <= usize::MAX,
    ensures
        segments_model(r@) == markdown_segments_of(input@),
        // Every line of the answer is in the segments, none twice.
        segments_lines(segments_model(r@)) == lines_of(input@).len(),
{
    proof {
        lemma_segments_keep_every_line(input@);
    }
    let lines = text_lines(input);
    let ghost ls = lines.deep_view();
    proof {
        lemma_lines_len(input@, Seq::empty(), Seq::empty(), input@.len());
    }
    let mut output: Vec<MarkdownSegment> = Vec::new();
    let mut buffer: Vec<String> = Vec::new();
    let mut index: usize = 0;
    assert(buffer.deep_view() =~= Seq::<Seq<char>>::empty());
    assert(segments_model(output@) + segments_from(ls, 0, buffer.deep_view()) =~= segments_from(
        ls,
        0,
        Seq::empty(),
    ));
    while index < lines.len()
        invariant
            index <= lines.len(),
            ls == lines.deep_view(),
            ls == lines_of(input@),
            2 * input@.len() <= usize::MAX,
            forall|i: int| 0 <= i < ls.len() ==> #[trigger] ls[i].len() <= input@.len(),
            markdown_segments_of(input@) == segments_model(output@) + segments_from(
                ls,
                index as nat,
                buffer.deep_view(),
            ),
        decreases lines.len() - index,
    {
        assert(ls[index as int] == lines@[index as int]@);
        let mut header: Option<Vec<String>> = None;
        if index + 1 < lines.len() {
            assert(ls[index + 1] == lines@[index + 1]@);
            let parsed = parse_table_row(lines[index].as_str());
            if parsed.is_some() && is_table_separator(lines[index + 1].as_str()) {
                header = parsed;
            }
        }
        match header {
            Some(first) => {
                let ghost start = index;
                let ghost body = table_rows_from(ls, (start + 2) as nat);
                let ghost h = first.deep_view();
                proof {
                    lemma_table_rows_from(ls, (start + 2) as nat);
                    lemma_table_cells_len(ls[start as int]);
                }
                let ghost out_before = segments_model(output@);
                let ghost buf_before = buffer.deep_view();
                flush_markdown_buffer(&mut buffer, &mut output);
                let mut rows: Vec<Vec<String>> = Vec::new();
                rows.push(first);
                index = index + 2;
                let mut more = true;
                assert(rows.deep_view() =~= seq![h]);
                assert(seq![h] + body =~= rows.deep_view() + table_rows_from(ls, index as nat));
                while more && index < lines.len()
                    invariant
                        start + 2 <= index <= lines.len(),
                        ls == lines.deep_view(),
                        body == table_rows_from(ls, (start + 2) as nat),
                        seq![h] + body == rows.deep_view() + table_rows_from(ls, index as nat),
                        !more ==> table_rows_from(ls, index as nat) == Seq::<Seq<Seq<char>>>::empty(),
                        index == start + 2 + rows.len() - 1,
                    decreases lines.len() - index + (if more { 1int } else { 0int }),
                {
                    assert(ls[index as int] == lines@[index as int]@);
                    match parse_table_row(lines[index].as_str()) {
                        Some(row) => {
                            let ghost before = rows.deep_view();
                            let ghost rd = row.deep_view();
                            rows.push(row);
                            assert(rows.deep_view() =~= before.push(rd));
                            assert(table_rows_from(ls, index as nat) =~= seq![rd] + table_rows_from(
                                ls,
                                (index + 1) as nat,
                            ));
                            assert(before + (seq![rd] + table_rows_from(ls, (index + 1) as nat))
                                =~= before.push(rd) + table_rows_from(ls, (index + 1) as nat));
                            index = index + 1;
                        },
                        None => {
                            more = false;
                        },
                    }
                }
                assert(table_rows_from(ls, index as nat) =~= Seq::<Seq<Seq<char>>>::empty());
                assert(rows.deep_view() =~= seq![h] + body);
                proof {
                    assert(cells_within(rows.deep_view(), input@.len())) by {
                        assert forall|i: int, j: int|
                            0 <= i < rows.deep_view().len() && 0 <= j < rows.deep_view()[i].len()
                            implies rows.deep_view()[i][j].len() <= input@.len() by {
                            if i == 0 {
                                assert(rows.deep_view()[0] == h);
                                assert(table_cells(ls[start as int]) == Some(h));
                                assert(ls[start as int].len() <= input@.len());
                                assert(h[j].len() <= ls[start as int].len());
                            } else {
                                let k = i - 1;
                                assert(rows.deep_view()[i] == body[k]);
                                assert(table_cells(ls[start + 2 + k]) == Some(body[k]));
                                assert(ls[start + 2 + k].len() <= input@.len());
                                lemma_table_cells_len(ls[start + 2 + k]);
                                let cells = table_cells(ls[start + 2 + k])->0;
                                assert(cells == body[k]);
                                assert(cells[j].len() <= ls[start + 2 + k].len());
                            }
                        }
                    }
                    lemma_cells_fit(rows.deep_view(), input@.len());
                }
                let table = format_table_rows(rows);
                let ghost mid = segments_model(output@);
                output.push(MarkdownSegment::Table(table));
                assert(segments_model(output@) =~= mid.push(
                    MarkdownSegmentModel::Table(table_text(seq![h] + body)),
                ));
                assert(segments_from(ls, start as nat, buf_before) == flushed(buf_before) + seq![
                    MarkdownSegmentModel::Table(table_text(seq![h] + body)),
                ] + segments_from(ls, (start + 2 + body.len()) as nat, Seq::empty()));
                assert(buffer.deep_view() =~= Seq::<Seq<char>>::empty());
                assert(out_before + (flushed(buf_before) + seq![
                    MarkdownSegmentModel::Table(table_text(seq![h] + body)),
                ] + segments_from(ls, index as nat, Seq::empty())) =~= segments_model(output@)
                    + segments_from(ls, index as nat, buffer.deep_view()));
            },
            None => {
                let ghost before = buffer.deep_view();
                buffer.push(lines[index].clone());
                assert(buffer.deep_view() =~= before.push(ls[index as int]));
                index = index + 1;
            },
        }
    }
    flush_markdown_buffer(&mut buffer, &mut output);
    output
}

} // verus!
