//! Markdown tables, rewritten as aligned text inside a code block.

use vstd::prelude::*;
use vstd::string::*;
use crate::split::{line_views, lines, lines_of, split, split_on, trim, trimmed};
use crate::text::{contains_char, from_chars, join, join_strings, repeat, repeat_str, views};

verus! {

/// The cells of a table row: the parts between the bars, trimmed, the
/// empty ones left out.
pub open spec fn cells_of(parts: Seq<Seq<char>>) -> Seq<Seq<char>>
    decreases parts.len(),
{
    if parts.len() == 0 {
        Seq::empty()
    } else if trimmed(parts.last()).len() == 0 {
        cells_of(parts.drop_last())
    } else {
        cells_of(parts.drop_last()).push(trimmed(parts.last()))
    }
}

/// The cells of the row written in `line`.
pub open spec fn row_of(line: Seq<char>) -> Seq<Seq<char>> {
    cells_of(split_on(line, '|'))
}

/// The length of `cell` in bytes of UTF-8, as `str::len` reports it.
pub open spec fn byte_len(cell: Seq<char>) -> nat {
    (vstd::utf8::encode_utf8(cell).len() as usize) as nat
}

/// The width of column `c`: the longest, in bytes, of the header's cell
/// and the cells of the first `count` rows in that column.
pub open spec fn column_width(
    header: Seq<Seq<char>>,
    rows: Seq<Seq<Seq<char>>>,
    c: int,
    count: nat,
) -> nat
    decreases count,
{
    if count == 0 {
        byte_len(header[c])
    } else {
        let before = column_width(header, rows, c, (count - 1) as nat);
        if c < rows[count - 1].len() && byte_len(rows[count - 1][c]) > before {
            byte_len(rows[count - 1][c])
        } else {
            before
        }
    }
}

/// The widths of the columns, one per cell of the header.
pub open spec fn column_widths(header: Seq<Seq<char>>, rows: Seq<Seq<Seq<char>>>) -> Seq<nat> {
    Seq::new(header.len(), |c: int| column_width(header, rows, c, rows.len()))
}

/// `cell` followed by as many blanks as it lacks characters to `width`.
pub open spec fn padded(cell: Seq<char>, width: nat) -> Seq<char> {
    if cell.len() >= width {
        cell
    } else {
        cell + repeat(" "@, (width - cell.len()) as nat)
    }
}

/// The cells of a row, each padded to the width of its column; a cell
/// beyond the last column is padded to its own length in bytes.
pub open spec fn padded_cells(row: Seq<Seq<char>>, widths: Seq<nat>) -> Seq<Seq<char>> {
    Seq::new(
        row.len(),
        |c: int|
            if c < widths.len() {
                padded(row[c], widths[c])
            } else {
                padded(row[c], byte_len(row[c]))
            },
    )
}

/// A row as it is written: its padded cells with a bar between them.
pub open spec fn row_text(row: Seq<Seq<char>>, widths: Seq<nat>) -> Seq<char> {
    join(padded_cells(row, widths), " │ "@)
}

/// The rule below the header: a line as long as each column, crossed
/// between the columns.
pub open spec fn rule_text(widths: Seq<nat>) -> Seq<char> {
    join(Seq::new(widths.len(), |c: int| repeat("─"@, widths[c])), "─┼─"@)
}

/// The rows of the table below its header and its separator line.
pub open spec fn body_rows(lines: Seq<Seq<char>>) -> Seq<Seq<Seq<char>>> {
    Seq::new((lines.len() - 2) as nat, |i: int| row_of(lines[i + 2]))
}

/// The lines of the written table: the opened code block with the header,
/// the rule, the rows, and the closing of the code block.
pub open spec fn table_lines(lines: Seq<Seq<char>>) -> Seq<Seq<char>> {
    let header = row_of(lines[0]);
    let rows = body_rows(lines);
    let widths = column_widths(header, rows);
    Seq::new(
        rows.len() + 3,
        |i: int|
            if i == 0 {
                "```\n"@ + row_text(header, widths)
            } else if i == 1 {
                rule_text(widths)
            } else if i < rows.len() + 2 {
                row_text(rows[i - 2], widths)
            } else {
                "```"@
            },
    )
}

/// The table that `lines` hold, written out. Fewer than two lines are no
/// table and are left as they are.
pub open spec fn table_text(lines: Seq<Seq<char>>) -> Seq<char> {
    if lines.len() < 2 {
        join(lines, "\n"@)
    } else {
        join(table_lines(lines), "\n"@)
    }
}

/// Whether a table starts at line `i`: a line with a bar, followed by one
/// with a bar and a dash.
pub open spec fn table_starts(lines: Seq<Seq<char>>, i: int) -> bool {
    0 <= i && i + 1 < lines.len() && lines[i].contains('|') && lines[i + 1].contains('|')
        && lines[i + 1].contains('-')
}

/// The first line at or after `j` without a bar: where the table ends.
pub open spec fn table_end(lines: Seq<Seq<char>>, j: int) -> int
    decreases lines.len() - j,
{
    if 0 <= j < lines.len() && lines[j].contains('|') {
        table_end(lines, j + 1)
    } else {
        j
    }
}

/// The lines from `i` on, each table among them written out as one entry.
pub open spec fn tables_from(lines: Seq<Seq<char>>, i: int) -> Seq<Seq<char>>
    decreases lines.len() - i,
{
    if i < 0 || i >= lines.len() {
        Seq::empty()
    } else if table_starts(lines, i) && i < table_end(lines, i + 1) <= lines.len() {
        seq![table_text(lines.subrange(i, table_end(lines, i + 1)))] + tables_from(
            lines,
            table_end(lines, i + 1),
        )
    } else {
        seq![lines[i]] + tables_from(lines, i + 1)
    }
}

/// `text` with its tables written out, its lines joined by line feeds.
pub open spec fn tables_converted(text: Seq<char>) -> Seq<char> {
    join(tables_from(lines_of(text), 0), "\n"@)
}

/// The cells of the row written in `line`.
pub fn parse_row(line: &Vec<char>) -> (res: Vec<String>)
    ensures
        views(res@) == row_of(line@),
{
    let parts = split(line, '|');
    let mut res: Vec<String> = Vec::new();
    let mut i: usize = 0;
    assert(line_views(parts@).take(0) =~= Seq::<Seq<char>>::empty());
    assert(views(res@) =~= cells_of(line_views(parts@).take(0)));
    while i < parts.len()
        invariant
            i <= parts.len(),
            views(res@) == cells_of(line_views(parts@).take(i as int)),
        decreases parts.len() - i,
    {
        proof {
            assert(line_views(parts@).take(i + 1).drop_last() =~= line_views(parts@).take(i as int));
            assert(line_views(parts@).take(i + 1).last() == parts@[i as int]@);
        }
        let cell = trim(&parts[i]);
        if cell.as_str().unicode_len() > 0 {
            let ghost before = views(res@);
            res.push(cell);
            assert(views(res@) =~= before.push(trimmed(parts@[i as int]@)));
        }
        i += 1;
    }
    proof {
        assert(line_views(parts@).take(parts.len() as int) =~= line_views(parts@));
    }
    res
}

/// `cell` padded with blanks to `width` characters.
pub fn pad(cell: &str, width: usize) -> (res: String)
    ensures
        res@ == padded(cell@, width as nat),
{
    let count = cell.unicode_len();
    let mut res = String::from_str(cell);
    if count < width {
        res.append(repeat_str(" ", width - count).as_str());
    }
    res
}

/// A row as it is written.
pub fn format_row(row: &Vec<String>, widths: &Vec<usize>) -> (res: String)
    ensures
        res@ == row_text(views(row@), widths@.map_values(|w: usize| w as nat)),
{
    let ghost spec_widths = widths@.map_values(|w: usize| w as nat);
    let mut cells: Vec<String> = Vec::new();
    let mut c: usize = 0;
    while c < row.len()
        invariant
            c <= row.len(),
            cells@.len() == c,
            spec_widths == widths@.map_values(|w: usize| w as nat),
            forall|j: int|
                0 <= j < c ==> (#[trigger] cells@[j])@ == padded_cells(views(row@), spec_widths)[j],
        decreases row.len() - c,
    {
        assert(views(row@)[c as int] == row@[c as int]@);
        if c < widths.len() {
            cells.push(pad(row[c].as_str(), widths[c]));
        } else {
            cells.push(pad(row[c].as_str(), row[c].as_str().len()));
        }
        c += 1;
    }
    assert(views(cells@) =~= padded_cells(views(row@), spec_widths));
    join_strings(&cells, " │ ")
}

/// The views of the rows, cell by cell.
pub open spec fn row_views(rows: Seq<Vec<String>>) -> Seq<Seq<Seq<char>>> {
    Seq::new(rows.len(), |i: int| views(rows[i]@))
}

/// The widths of the columns.
pub fn measure(header: &Vec<String>, rows: &Vec<Vec<String>>) -> (res: Vec<usize>)
    ensures
        res@.map_values(|w: usize| w as nat) == column_widths(views(header@), row_views(rows@)),
{
    let mut widths: Vec<usize> = Vec::new();
    let mut c: usize = 0;
    while c < header.len()
        invariant
            c <= header.len(),
            widths@.len() == c,
            forall|j: int|
                0 <= j < c ==> (#[trigger] widths@[j]) as nat == column_width(
                    views(header@),
                    row_views(rows@),
                    j,
                    rows@.len(),
                ),
        decreases header.len() - c,
    {
        let mut width: usize = header[c].as_str().len();
        let mut r: usize = 0;
        assert(views(header@)[c as int] == header@[c as int]@);
        while r < rows.len()
            invariant
                r <= rows.len(),
                c < header.len(),
                width as nat == column_width(views(header@), row_views(rows@), c as int, r as nat),
            decreases rows.len() - r,
        {
            assert(row_views(rows@)[r as int] == views(rows@[r as int]@));
            if c < rows[r].len() {
                assert(views(rows@[r as int]@)[c as int] == rows@[r as int]@[c as int]@);
                let cell = rows[r][c].as_str().len();
                if cell > width {
                    width = cell;
                }
            }
            r += 1;
        }
        widths.push(width);
        c += 1;
    }
    assert(widths@.map_values(|w: usize| w as nat) =~= column_widths(
        views(header@),
        row_views(rows@),
    ));
    widths
}

/// The rule below the header.
pub fn format_rule(widths: &Vec<usize>) -> (res: String)
    ensures
        res@ == rule_text(widths@.map_values(|w: usize| w as nat)),
{
    let mut dashes: Vec<String> = Vec::new();
    let mut c: usize = 0;
    while c < widths.len()
        invariant
            c <= widths.len(),
            dashes@.len() == c,
            forall|j: int| 0 <= j < c ==> (#[trigger] dashes@[j])@ == repeat("─"@, widths@[j] as nat),
        decreases widths.len() - c,
    {
        dashes.push(repeat_str("─", widths[c]));
        c += 1;
    }
    assert(views(dashes@) =~= Seq::new(
        widths@.map_values(|w: usize| w as nat).len(),
        |c: int| repeat("─"@, widths@.map_values(|w: usize| w as nat)[c]),
    ));
    join_strings(&dashes, "─┼─")
}

/// The strings of `lines[from..to]`.
pub fn lines_to_strings(lines: &Vec<Vec<char>>, from: usize, to: usize) -> (res: Vec<String>)
    requires
        from <= to <= lines.len(),
    ensures
        views(res@) == line_views(lines@).subrange(from as int, to as int),
{
    let mut res: Vec<String> = Vec::new();
    let mut i: usize = from;
    while i < to
        invariant
            from <= i <= to <= lines.len(),
            res@.len() == i - from,
            forall|j: int| 0 <= j < i - from ==> (#[trigger] res@[j])@ == lines@[from + j]@,
        decreases to - i,
    {
        res.push(from_chars(&lines[i], 0, lines[i].len()));
        assert(lines@[i as int]@.subrange(0, lines@[i as int]@.len() as int) =~= lines@[i as int]@);
        i += 1;
    }
    assert(views(res@) =~= line_views(lines@).subrange(from as int, to as int));
    res
}

/// Writes out the table that `lines[from..to]` hold.
pub fn format_table(lines: &Vec<Vec<char>>, from: usize, to: usize) -> (res: String)
    requires
        from <= to <= lines.len(),
    ensures
        res@ == table_text(line_views(lines@).subrange(from as int, to as int)),
{
    let ghost table = line_views(lines@).subrange(from as int, to as int);
    if to - from < 2 {
        let plain = lines_to_strings(lines, from, to);
        return join_strings(&plain, "\n");
    }
    let header = parse_row(&lines[from]);
    assert(table[0] == lines@[from as int]@);
    let mut rows: Vec<Vec<String>> = Vec::new();
    let mut i: usize = from + 2;
    while i < to
        invariant
            from + 2 <= i <= to <= lines.len(),
            table == line_views(lines@).subrange(from as int, to as int),
            rows@.len() == i - from - 2,
            forall|j: int|
                0 <= j < i - from - 2 ==> views((#[trigger] rows@[j])@) == body_rows(table)[j],
        decreases to - i,
    {
        assert(table[i - from] == lines@[i as int]@);
        rows.push(parse_row(&lines[i]));
        i += 1;
    }
    assert(row_views(rows@) =~= body_rows(table));
    let widths = measure(&header, &rows);
    let ghost spec_widths = widths@.map_values(|w: usize| w as nat);
    let mut formatted: Vec<String> = Vec::new();
    let mut first = String::from_str("```\n");
    first.append(format_row(&header, &widths).as_str());
    formatted.push(first);
    formatted.push(format_rule(&widths));
    let mut r: usize = 0;
    while r < rows.len()
        invariant
            r <= rows.len(),
            spec_widths == widths@.map_values(|w: usize| w as nat),
            spec_widths == column_widths(row_of(table[0]), body_rows(table)),
            views(header@) == row_of(table[0]),
            row_views(rows@) == body_rows(table),
            formatted@.len() == r + 2,
            forall|j: int| 0 <= j < r + 2 ==> (#[trigger] formatted@[j])@ == table_lines(table)[j],
        decreases rows.len() - r,
    {
        assert(row_views(rows@)[r as int] == views(rows@[r as int]@));
        formatted.push(format_row(&rows[r], &widths));
        r += 1;
    }
    formatted.push(String::from_str("```"));
    assert(views(formatted@) =~= table_lines(table));
    join_strings(&formatted, "\n")
}

/// `table_end` never goes back, and never past the last line.
pub proof fn lemma_table_end_bounds(lines: Seq<Seq<char>>, j: int)
    requires
        0 <= j <= lines.len(),
    ensures
        j <= table_end(lines, j) <= lines.len(),
    decreases lines.len() - j,
{
    if j < lines.len() && lines[j].contains('|') {
        lemma_table_end_bounds(lines, j + 1);
    }
}

/// Writes out the tables of `text`.
pub fn convert_tables(text: &str) -> (res: String)
    ensures
        res@ == tables_converted(text@),
{
    let all = lines(text);
    let ghost spec_lines = line_views(all@);
    let mut out: Vec<String> = Vec::new();
    let mut i: usize = 0;
    assert(views(out@) + tables_from(spec_lines, 0) =~= tables_from(spec_lines, 0));
    while i < all.len()
        invariant
            i <= all.len(),
            spec_lines == line_views(all@),
            views(out@) + tables_from(spec_lines, i as int) == tables_from(spec_lines, 0),
        decreases all.len() - i,
    {
        let ghost before = views(out@);
        let mut starts = false;
        if i + 1 < all.len() {
            assert(spec_lines[i as int] == all@[i as int]@);
            assert(spec_lines[i + 1] == all@[i + 1]@);
            starts = contains_char(&all[i], '|') && contains_char(&all[i + 1], '|')
                && contains_char(&all[i + 1], '-');
        }
        assert(starts == table_starts(spec_lines, i as int));
        if starts {
            let mut j: usize = i + 1;
            while j < all.len() && contains_char(&all[j], '|')
                invariant
                    i + 1 <= j <= all.len(),
                    spec_lines == line_views(all@),
                    table_end(spec_lines, j as int) == table_end(spec_lines, i + 1),
                decreases all.len() - j,
            {
                assert(spec_lines[j as int] == all@[j as int]@);
                j += 1;
            }
            proof {
                if j < all.len() {
                    assert(spec_lines[j as int] == all@[j as int]@);
                }
                assert(table_end(spec_lines, i + 1) == j);
                lemma_table_end_bounds(spec_lines, i + 1);
            }
            out.push(format_table(&all, i, j));
            proof {
                assert(views(out@) =~= before + seq![
                    table_text(spec_lines.subrange(i as int, j as int)),
                ]);
                assert(views(out@) + tables_from(spec_lines, j as int) =~= before + tables_from(
                    spec_lines,
                    i as int,
                ));
            }
            i = j;
        } else {
            out.push(from_chars(&all[i], 0, all[i].len()));
            proof {
                assert(all@[i as int]@.subrange(0, all@[i as int]@.len() as int)
                    =~= all@[i as int]@);
                assert(views(out@) =~= before + seq![spec_lines[i as int]]);
                assert(views(out@) + tables_from(spec_lines, i + 1) =~= before + tables_from(
                    spec_lines,
                    i as int,
                ));
            }
            i += 1;
        }
    }
    proof {
        assert(views(out@) + Seq::<Seq<char>>::empty() =~= views(out@));
    }
    join_strings(&out, "\n")
}

} // verus!
