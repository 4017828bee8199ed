use gitlab_xsearch::http::status_is_success;
use gitlab_xsearch::http::status_text;
use gitlab_xsearch::models::OutputFormat;
use gitlab_xsearch::models::SearchResultRow;
use gitlab_xsearch::render::line_breaks;
use gitlab_xsearch::render::titles;

fn row(snippet: &str) -> SearchResultRow {
    SearchResultRow {
        group_path: "my-group".to_string(),
        project_name: "Test Project".to_string(),
        project_id: 123,
        file_name: "src/main.rs".to_string(),
        line_number: 10,
        snippet: snippet.to_string(),
        clone_url: "https://gitlab.com/my-group/test-project.git".to_string(),
        project_folder: "test-project".to_string(),
    }
}

#[test]
fn the_columns_have_their_titles() {
    assert_eq!(
        titles(),
        vec!["Group", "Project", "ID", "File", "Line", "Snippet", "Clone URL", "Folder"]
    );
}

#[test]
fn a_row_gives_one_cell_for_each_column() {
    let cells = row("fn main() {}").cells(OutputFormat::Table);
    assert_eq!(
        cells,
        vec![
            "my-group",
            "Test Project",
            "123",
            "src/main.rs",
            "10",
            "fn main() {}",
            "https://gitlab.com/my-group/test-project.git",
            "test-project",
        ]
    );
    assert_eq!(cells.len(), titles().len());
}

#[test]
fn markdown_puts_a_snippet_on_one_line() {
    let cells = row("fn main() {\n    run();\n}").cells(OutputFormat::Markdown);
    assert_eq!(cells[5], "fn main() {<br>    run();<br>}");
}

#[test]
fn other_forms_keep_the_snippet_as_it_is() {
    for format in [OutputFormat::Table, OutputFormat::Csv, OutputFormat::Excel] {
        let cells = row("a\nb").cells(format);
        assert_eq!(cells[5], "a\nb");
    }
}

#[test]
fn line_feeds_become_breaks() {
    assert_eq!(line_breaks(""), "");
    assert_eq!(line_breaks("plain"), "plain");
    assert_eq!(line_breaks("\n"), "<br>");
    assert_eq!(line_breaks("\n\n"), "<br><br>");
    assert_eq!(line_breaks("a\nb"), "a<br>b");
    assert_eq!(line_breaks("a\n"), "a<br>");
    assert_eq!(line_breaks("\na"), "<br>a");
    assert_eq!(line_breaks("a\r\nb"), "a\r<br>b");
    assert_eq!(line_breaks("é\nü"), "é<br>ü");
    assert_eq!(line_breaks("a\nb"), "a\nb".replace('\n', "<br>"));
}

#[test]
fn a_status_is_shown_with_its_reason() {
    assert_eq!(status_text(200), "200 OK");
    assert_eq!(status_text(404), "404 Not Found");
    assert_eq!(status_text(429), "429 Too Many Requests");
    assert_eq!(status_text(502), "502 Bad Gateway");
    assert_eq!(status_text(799), "799 <unknown status code>");
    assert_eq!(status_text(99), "99 <unknown status code>");
    assert_eq!(status_text(1000), "1000 <unknown status code>");
}

#[test]
fn success_is_any_status_in_the_two_hundreds() {
    assert!(status_is_success(200));
    assert!(status_is_success(299));
    assert!(!status_is_success(199));
    assert!(!status_is_success(300));
    assert!(!status_is_success(429));
}
