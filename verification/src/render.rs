//! Rows as cells of text, for the forms that show them in a table.

use vstd::prelude::*;
use vstd::string::StringExecFns;

use crate::decimal::decimal_digits;
use crate::decimal::u64_to_decimal;
use crate::models::OutputFormat;
use crate::models::RowView;
use crate::models::SearchResultRow;
use crate::text::chars_of;

verus! {

/// The titles of the columns, in the order of the cells of a row.
pub open spec fn column_titles() -> Seq<Seq<char>> {
    seq![
        "Group"@,
        "Project"@,
        "ID"@,
        "File"@,
        "Line"@,
        "Snippet"@,
        "Clone URL"@,
        "Folder"@,
    ]
}

/// `s` with a `<br>` in place of each line feed.
pub open spec fn with_line_breaks(s: Seq<char>) -> Seq<char>
    decreases s.len(),
{
    if s.len() == 0 {
        Seq::empty()
    } else {
        with_line_breaks(s.drop_last()) + if s.last() == '\n' {
            "<br>"@
        } else {
            seq![s.last()]
        }
    }
}

/// The snippet as it stands in a cell: on one line in Markdown, where a
/// line feed would end the row; as it is otherwise.
pub open spec fn snippet_cell(snippet: Seq<char>, format: OutputFormat) -> Seq<char> {
    if format is Markdown {
        with_line_breaks(snippet)
    } else {
        snippet
    }
}

/// The cells of `row`, one for each column.
pub open spec fn cells_of(row: RowView, format: OutputFormat) -> Seq<Seq<char>> {
    seq![
        row.group_path,
        row.project_name,
        decimal_digits(row.project_id as nat),
        row.file_name,
        decimal_digits(row.line_number as nat),
        snippet_cell(row.snippet, format),
        row.clone_url,
        row.project_folder,
    ]
}

/// The titles of the columns.
pub fn titles() -> (titles: Vec<String>)
    ensures
        titles.deep_view() == column_titles(),
{
    let mut titles: Vec<String> = Vec::new();
    titles.push(String::from_str("Group"));
    titles.push(String::from_str("Project"));
    titles.push(String::from_str("ID"));
    titles.push(String::from_str("File"));
    titles.push(String::from_str("Line"));
    titles.push(String::from_str("Snippet"));
    titles.push(String::from_str("Clone URL"));
    titles.push(String::from_str("Folder"));
    titles
}

/// Puts a `<br>` in place of each line feed of `text`.
pub fn line_breaks(text: &str) -> (broken: String)
    ensures
        broken@ == with_line_breaks(text@),
{
    let chars = chars_of(text);
    let mut broken = String::new();
    let mut start: usize = 0;
    let mut i: usize = 0;
    while i < chars.len()
        invariant
            chars@ == text@,
            start <= i <= chars.len(),
            broken@ + text@.subrange(start as int, i as int) == with_line_breaks(
                text@.take(i as int),
            ),
        decreases chars.len() - i,
    {
        proof {
            assert(text@.take(i + 1).drop_last() == text@.take(i as int));
        }
        if chars[i] == '\n' {
            broken.append(text.substring_char(start, i));
            broken.append("<br>");
            start = i + 1;
        }
        i += 1;
    }
    assert(text@.take(i as int) == text@);
    broken.append(text.substring_char(start, i));
    broken
}

impl SearchResultRow {
    /// The cells of this row for a table: as text, one for each column.
    pub fn cells(&self, format: OutputFormat) -> (cells: Vec<String>)
        ensures
            cells.deep_view() == cells_of(self@, format),
    {
        let snippet = match format {
            OutputFormat::Markdown => line_breaks(self.snippet.as_str()),
            _ => self.snippet.clone(),
        };
        let mut cells: Vec<String> = Vec::new();
        cells.push(self.group_path.clone());
        cells.push(self.project_name.clone());
        cells.push(u64_to_decimal(self.project_id));
        cells.push(self.file_name.clone());
        cells.push(u64_to_decimal(self.line_number));
        cells.push(snippet);
        cells.push(self.clone_url.clone());
        cells.push(self.project_folder.clone());
        cells
    }
}

} // verus!
