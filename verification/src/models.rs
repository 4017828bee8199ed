//! The records that pass through a run: repositories, matches, and the rows
//! made of them.

use vstd::prelude::*;

use crate::text::first_segment;
use crate::text::leading_segment;
use crate::text::lemma_first_segment;

verus! {

/// One repository of the host, as the listing endpoint describes it.
#[derive(Debug)]
pub struct Project {
    pub id: u64,
    pub name: String,
    pub path_with_namespace: String,
    pub web_url: String,
    pub http_url_to_repo: String,
    /// The repository's slug, which is also its default clone folder.
    pub path: String,
}

/// A `Project` with its strings as sequences of characters.
pub struct ProjectView {
    pub id: u64,
    pub name: Seq<char>,
    pub path_with_namespace: Seq<char>,
    pub web_url: Seq<char>,
    pub http_url_to_repo: Seq<char>,
    pub path: Seq<char>,
}

impl View for Project {
    type V = ProjectView;

    open spec fn view(&self) -> ProjectView {
        ProjectView {
            id: self.id,
            name: self.name@,
            path_with_namespace: self.path_with_namespace@,
            web_url: self.web_url@,
            http_url_to_repo: self.http_url_to_repo@,
            path: self.path@,
        }
    }
}

impl DeepView for Project {
    type V = ProjectView;

    open spec fn deep_view(&self) -> ProjectView {
        self@
    }
}

impl Clone for Project {
    fn clone(&self) -> (copy: Self)
        ensures
            copy == *self,
    {
        Project {
            id: self.id,
            name: self.name.clone(),
            path_with_namespace: self.path_with_namespace.clone(),
            web_url: self.web_url.clone(),
            http_url_to_repo: self.http_url_to_repo.clone(),
            path: self.path.clone(),
        }
    }
}

/// One hit of the blob search inside one repository.
#[derive(Debug)]
pub struct GitLabBlobResult {
    pub filename: String,
    pub startline: Option<u64>,
    pub project_id: u64,
    /// The matching snippet.
    pub data: String,
}

/// A `GitLabBlobResult` with its strings as sequences of characters.
pub struct BlobView {
    pub filename: Seq<char>,
    pub startline: Option<u64>,
    pub project_id: u64,
    pub data: Seq<char>,
}

impl View for GitLabBlobResult {
    type V = BlobView;

    open spec fn view(&self) -> BlobView {
        BlobView {
            filename: self.filename@,
            startline: self.startline,
            project_id: self.project_id,
            data: self.data@,
        }
    }
}

impl DeepView for GitLabBlobResult {
    type V = BlobView;

    open spec fn deep_view(&self) -> BlobView {
        self@
    }
}

impl Clone for GitLabBlobResult {
    fn clone(&self) -> (copy: Self)
        ensures
            copy == *self,
    {
        GitLabBlobResult {
            filename: self.filename.clone(),
            startline: self.startline,
            project_id: self.project_id,
            data: self.data.clone(),
        }
    }
}

/// One match in one repository, flattened for output.
#[derive(Debug)]
pub struct SearchResultRow {
    pub group_path: String,
    pub project_name: String,
    pub project_id: u64,
    pub file_name: String,
    pub line_number: u64,
    pub snippet: String,
    pub clone_url: String,
    /// The default clone folder.
    pub project_folder: String,
}

/// A `SearchResultRow` with its strings as sequences of characters.
pub struct RowView {
    pub group_path: Seq<char>,
    pub project_name: Seq<char>,
    pub project_id: u64,
    pub file_name: Seq<char>,
    pub line_number: u64,
    pub snippet: Seq<char>,
    pub clone_url: Seq<char>,
    pub project_folder: Seq<char>,
}

impl View for SearchResultRow {
    type V = RowView;

    open spec fn view(&self) -> RowView {
        RowView {
            group_path: self.group_path@,
            project_name: self.project_name@,
            project_id: self.project_id,
            file_name: self.file_name@,
            line_number: self.line_number,
            snippet: self.snippet@,
            clone_url: self.clone_url@,
            project_folder: self.project_folder@,
        }
    }
}

impl DeepView for SearchResultRow {
    type V = RowView;

    open spec fn deep_view(&self) -> RowView {
        self@
    }
}

impl Clone for SearchResultRow {
    fn clone(&self) -> (copy: Self)
        ensures
            copy == *self,
    {
        SearchResultRow {
            group_path: self.group_path.clone(),
            project_name: self.project_name.clone(),
            project_id: self.project_id,
            file_name: self.file_name.clone(),
            line_number: self.line_number,
            snippet: self.snippet.clone(),
            clone_url: self.clone_url.clone(),
            project_folder: self.project_folder.clone(),
        }
    }
}

/// The row that one match of one repository gives: the repository's top-level
/// group is the first segment of its namespaced path, and a match without a
/// starting line stands at line 0.
pub open spec fn row_of(project: ProjectView, blob: BlobView) -> RowView {
    RowView {
        group_path: first_segment(project.path_with_namespace),
        project_name: project.name,
        project_id: project.id,
        file_name: blob.filename,
        line_number: match blob.startline {
            Some(line) => line,
            None => 0,
        },
        snippet: blob.data,
        clone_url: project.http_url_to_repo,
        project_folder: project.path,
    }
}

/// The rows that the matches of one repository give, in the order of the matches.
pub open spec fn rows_of(project: ProjectView, blobs: Seq<BlobView>) -> Seq<RowView> {
    blobs.map_values(|blob: BlobView| row_of(project, blob))
}

impl SearchResultRow {
    /// Makes the row of one match in one repository.
    pub fn from_api_result(project: &Project, blob: &GitLabBlobResult) -> (row: Self)
        ensures
            row@ == row_of(project@, blob@),
    {
        SearchResultRow {
            group_path: leading_segment(project.path_with_namespace.as_str()),
            project_name: project.name.clone(),
            project_id: project.id,
            file_name: blob.filename.clone(),
            line_number: match blob.startline {
                Some(line) => line,
                None => 0,
            },
            snippet: blob.data.clone(),
            clone_url: project.http_url_to_repo.clone(),
            project_folder: project.path.clone(),
        }
    }
}

/// Mapping is a function of the repository and the match alone: two rows made
/// from the same pair are the same row.
pub proof fn lemma_mapping_is_repeatable(
    project: Project,
    blob: GitLabBlobResult,
    first: SearchResultRow,
    second: SearchResultRow,
)
    requires
        first@ == row_of(project@, blob@),
        second@ == row_of(project@, blob@),
    ensures
        first@ == second@,
        first@.group_path.is_prefix_of(project@.path_with_namespace),
        !first@.group_path.contains('/'),
{
    lemma_first_segment(project@.path_with_namespace);
}

/// The forms in which the rows can be written out.
#[derive(Debug, Clone, Copy, PartialEq, Eq)]
pub enum OutputFormat {
    Table,
    Markdown,
    Csv,
    Excel,
}

} // verus!
