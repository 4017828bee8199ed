//! The listing of repositories, page by page, until a page is empty or
//! names no page after it.

use vstd::prelude::*;
use vstd::string::StringExecFns;

use crate::decimal::i32_to_decimal;
use crate::decimal::parse_i32;
use crate::decimal::parsed_i32;
use crate::decimal::signed_decimal_digits;
use crate::error::ListError;
use crate::error::ListErrorView;
use crate::http::is_success;
use crate::http::status_is_success;
use crate::http::Request;
use crate::http::RequestView;
use crate::models::Project;
use crate::models::ProjectView;

verus! {

/// The address under which repositories are listed: those of the group
/// `group` and its subgroups, or all that the caller can see.
pub open spec fn listing_endpoint(base_url: Seq<char>, group: Option<Seq<char>>) -> Seq<char> {
    match group {
        Some(id) => base_url + "/groups/"@ + id + "/projects"@,
        None => base_url + "/projects"@,
    }
}

/// A listing of repositories as contracts see it.
pub struct ListingView {
    /// The base of the API, kept to name it when a page cannot be read.
    pub base_url: Seq<char>,
    pub endpoint: Seq<char>,
    /// Whether the listing is that of one group.
    pub group_scoped: bool,
    /// The page to ask for next.
    pub page: int,
    /// The repositories gathered so far, in the order in which they came.
    pub projects: Seq<ProjectView>,
}

/// What came back as the body of a listing response.
#[derive(Debug)]
pub enum PageBody {
    Parsed(Vec<Project>),
    /// The body was no sequence of repositories; the text says why.
    Malformed(String),
}

/// A `PageBody` with its strings as sequences of characters.
pub enum PageBodyView {
    Parsed(Seq<ProjectView>),
    Malformed(Seq<char>),
}

impl View for PageBody {
    type V = PageBodyView;

    open spec fn view(&self) -> PageBodyView {
        match self {
            PageBody::Parsed(projects) => PageBodyView::Parsed(projects.deep_view()),
            PageBody::Malformed(detail) => PageBodyView::Malformed(detail@),
        }
    }
}

/// What came back for one listing request.
#[derive(Debug)]
pub enum PageReply {
    /// No response came back; the text says why.
    Unreachable(String),
    Response {
        status: u16,
        /// The text of the `x-next-page` header, where there is one that
        /// is text.
        next_page: Option<String>,
        body: PageBody,
    },
}

/// A `PageReply` with its strings as sequences of characters.
pub enum PageReplyView {
    Unreachable(Seq<char>),
    Response { status: u16, next_page: Option<Seq<char>>, body: PageBodyView },
}

impl View for PageReply {
    type V = PageReplyView;

    open spec fn view(&self) -> PageReplyView {
        match self {
            PageReply::Unreachable(detail) => PageReplyView::Unreachable(detail@),
            PageReply::Response { status, next_page, body } => PageReplyView::Response {
                status: *status,
                next_page: next_page.deep_view(),
                body: body@,
            },
        }
    }
}

/// What follows from one reply, as contracts see it.
pub enum ListingStepView {
    /// Make the request of this listing next.
    Next(ListingView),
    Done(Seq<ProjectView>),
    Failed(ListErrorView),
}

/// Whether the response names a page to go on with: its header is there
/// and is not empty.
pub open spec fn names_next_page(next_page: Option<Seq<char>>) -> bool {
    next_page matches Some(text) && text.len() > 0
}

/// The page that follows the page `page` under the header text `text`: the
/// page that the text names, or the one after `page` where it names none.
pub open spec fn following_page(page: int, text: Seq<char>) -> int {
    match parsed_i32(text) {
        Some(named) => named as int,
        None => page + 1,
    }
}

impl ListingView {
    /// The listing under `base_url`, of the group `group` or of everything
    /// visible, before its first request.
    pub open spec fn initial(base_url: Seq<char>, group: Option<Seq<char>>) -> ListingView {
        ListingView {
            base_url,
            endpoint: listing_endpoint(base_url, group),
            group_scoped: group is Some,
            page: 1,
            projects: Seq::empty(),
        }
    }

    /// The request for the page that is due: a hundred repositories a page,
    /// with subgroups for a group, and only the caller's own memberships
    /// otherwise.
    pub open spec fn request(self) -> RequestView {
        RequestView {
            url: self.endpoint,
            query: seq![
                ("per_page"@, "100"@),
                ("page"@, signed_decimal_digits(self.page)),
                if self.group_scoped {
                    ("include_subgroups"@, "true"@)
                } else {
                    ("membership"@, "true"@)
                },
            ],
        }
    }

    /// What follows from `reply`.
    ///
    /// A response without success fails the listing, and so does a body that
    /// is no sequence of repositories. An empty page ends the listing,
    /// whatever the header says. A page with repositories is appended; the
    /// listing then goes on if the header names a next page, and ends if it
    /// does not.
    pub open spec fn step(self, reply: PageReplyView) -> ListingStepView {
        match reply {
            PageReplyView::Unreachable(detail) => ListingStepView::Failed(
                ListErrorView::Unreachable(detail),
            ),
            PageReplyView::Response { status, next_page, body } => {
                if !is_success(status) {
                    ListingStepView::Failed(ListErrorView::Status(status))
                } else {
                    match body {
                        PageBodyView::Malformed(detail) => ListingStepView::Failed(
                            ListErrorView::Parse { detail, base_url: self.base_url },
                        ),
                        PageBodyView::Parsed(page) => {
                            if page.len() == 0 {
                                ListingStepView::Done(self.projects)
                            } else if names_next_page(next_page) {
                                ListingStepView::Next(
                                    ListingView {
                                        page: following_page(self.page, next_page->0),
                                        projects: self.projects + page,
                                        ..self
                                    },
                                )
                            } else {
                                ListingStepView::Done(self.projects + page)
                            }
                        },
                    }
                }
            },
        }
    }

    /// Whether `reply` makes the listing go on to the page after the
    /// current one: it is a page in the middle of the listing whose header
    /// names no page that can be read.
    pub open spec fn counts_on(self, reply: PageReplyView) -> bool {
        is_inner_page(reply) && parsed_i32(reply->next_page->0) is None
    }

    /// Whether the listing can take `reply`: it can, unless the reply
    /// would make it count past the last page number.
    pub open spec fn can_take(self, reply: PageReplyView) -> bool {
        self.counts_on(reply) ==> self.page < i32::MAX
    }

    /// What follows from `replies`, each one the answer to the request that
    /// the one before it led to. The first reply that ends the listing ends
    /// the run; replies after it are not looked at.
    pub open spec fn run(self, replies: Seq<PageReplyView>) -> ListingStepView
        recommends
            replies.len() > 0,
        decreases replies.len(),
    {
        let step = self.step(replies[0]);
        if replies.len() <= 1 {
            step
        } else {
            match step {
                ListingStepView::Next(next) => next.run(replies.skip(1)),
                _ => step,
            }
        }
    }
}

/// The repositories on the page that `reply` carries; none where it carries
/// no page.
pub open spec fn page_of(reply: PageReplyView) -> Seq<ProjectView> {
    match reply {
        PageReplyView::Response { body: PageBodyView::Parsed(page), .. } => page,
        _ => Seq::empty(),
    }
}

/// The pages of `replies` one after the other.
pub open spec fn pages_of(replies: Seq<PageReplyView>) -> Seq<ProjectView>
    decreases replies.len(),
{
    if replies.len() == 0 {
        Seq::empty()
    } else {
        page_of(replies[0]) + pages_of(replies.skip(1))
    }
}

/// Whether `reply` is a page in the middle of a listing: a success with
/// repositories on it and a header that names a next page.
pub open spec fn is_inner_page(reply: PageReplyView) -> bool {
    reply matches PageReplyView::Response { status, next_page, body: PageBodyView::Parsed(page) }
        && is_success(status) && page.len() > 0 && names_next_page(next_page)
}

/// Whether `reply` is the last page of a listing: a success that is empty,
/// or whose header names no next page.
pub open spec fn is_last_page(reply: PageReplyView) -> bool {
    reply matches PageReplyView::Response { status, next_page, body: PageBodyView::Parsed(page) }
        && is_success(status) && (page.len() == 0 || !names_next_page(next_page))
}

/// A listing of repositories under way: which page is due, and what the
/// pages before it held.
#[derive(Debug)]
pub struct ProjectListing {
    base_url: String,
    endpoint: String,
    group_scoped: bool,
    page: i32,
    projects: Vec<Project>,
}

impl View for ProjectListing {
    type V = ListingView;

    closed spec fn view(&self) -> ListingView {
        ListingView {
            base_url: self.base_url@,
            endpoint: self.endpoint@,
            group_scoped: self.group_scoped,
            page: self.page as int,
            projects: self.projects.deep_view(),
        }
    }
}

/// What follows from one reply.
#[derive(Debug)]
pub enum ListingStep {
    /// Make the request of this listing next.
    Next(ProjectListing),
    /// All the repositories, in the order in which the pages held them.
    Done(Vec<Project>),
    Failed(ListError),
}

impl View for ListingStep {
    type V = ListingStepView;

    open spec fn view(&self) -> ListingStepView {
        match self {
            ListingStep::Next(listing) => ListingStepView::Next(listing@),
            ListingStep::Done(projects) => ListingStepView::Done(projects.deep_view()),
            ListingStep::Failed(error) => ListingStepView::Failed(error@),
        }
    }
}

impl ProjectListing {
    /// The listing under the API at `base_url`, of the group `group_id` and
    /// its subgroups or of everything visible, before its first request.
    pub fn new(base_url: &str, group_id: Option<&str>) -> (listing: ProjectListing)
        ensures
            listing@ == ListingView::initial(base_url@, group_id.deep_view()),
            listing@.page < i32::MAX,
    {
        let mut endpoint = String::from_str(base_url);
        let group_scoped = match group_id {
            Some(id) => {
                endpoint.append("/groups/");
                endpoint.append(id);
                endpoint.append("/projects");
                true
            },
            None => {
                endpoint.append("/projects");
                false
            },
        };
        let projects: Vec<Project> = Vec::new();
        assert(projects.deep_view() == Seq::<ProjectView>::empty());
        ProjectListing {
            base_url: String::from_str(base_url),
            endpoint,
            group_scoped,
            page: 1,
            projects,
        }
    }

    /// The page that is due.
    pub fn page(&self) -> (page: i32)
        ensures
            page == self@.page,
    {
        self.page
    }

    /// The request for the page that is due.
    pub fn request(&self) -> (request: Request)
        ensures
            request@ == self@.request(),
    {
        let mut query: Vec<(String, String)> = Vec::new();
        query.push((String::from_str("per_page"), String::from_str("100")));
        query.push((String::from_str("page"), i32_to_decimal(self.page)));
        if self.group_scoped {
            query.push((String::from_str("include_subgroups"), String::from_str("true")));
        } else {
            query.push((String::from_str("membership"), String::from_str("true")));
        }
        let request = Request { url: self.endpoint.clone(), query };
        assert(request@.query == self@.request().query);
        request
    }

    /// Whether `on_reply` can be called with `reply`.
    pub fn can_take(&self, reply: &PageReply) -> (fits: bool)
        ensures
            fits == self@.can_take(reply@),
    {
        if self.page < i32::MAX {
            return true;
        }
        match reply {
            PageReply::Response { status, next_page: Some(text), body: PageBody::Parsed(page) } => {
                let counts = status_is_success(*status) && page.len() > 0
                    && text.as_str().unicode_len() > 0 && parse_i32(text.as_str()).is_none();
                !counts
            },
            _ => true,
        }
    }

    /// Takes the reply to the request and says what follows from it.
    ///
    /// The page after the last one that a page number can name cannot be
    /// asked for.
    pub fn on_reply(self, reply: PageReply) -> (step: ListingStep)
        requires
            self@.can_take(reply@),
        ensures
            step@ == self@.step(reply@),
    {
        match reply {
            PageReply::Unreachable(detail) => ListingStep::Failed(ListError::Unreachable(detail)),
            PageReply::Response { status, next_page, body } => {
                if !status_is_success(status) {
                    return ListingStep::Failed(ListError::Status(status));
                }
                let ProjectListing { base_url, endpoint, group_scoped, page, mut projects } = self;
                let mut fetched = match body {
                    PageBody::Parsed(fetched) => fetched,
                    PageBody::Malformed(detail) => {
                        return ListingStep::Failed(ListError::Parse { detail, base_url });
                    },
                };
                if fetched.len() == 0 {
                    return ListingStep::Done(projects);
                }
                let ghost gathered = projects.deep_view() + fetched.deep_view();
                projects.append(&mut fetched);
                assert(projects.deep_view() == gathered);
                let text = match next_page {
                    Some(text) => text,
                    None => {
                        return ListingStep::Done(projects);
                    },
                };
                if text.as_str().unicode_len() == 0 {
                    return ListingStep::Done(projects);
                }
                let following = match parse_i32(text.as_str()) {
                    Some(named) => named,
                    None => page + 1,
                };
                ListingStep::Next(
                    ProjectListing { base_url, endpoint, group_scoped, page: following, projects },
                )
            },
        }
    }
}

/// A listing gathers exactly what its pages hold, in their order, and ends
/// with the last of them: for any pages of which all but the last hold
/// repositories and name a next page, and of which the last is empty or
/// names none. An empty last page adds nothing.
pub proof fn lemma_listing_gathers_pages(listing: ListingView, replies: Seq<PageReplyView>)
    requires
        replies.len() > 0,
        forall|i: int| 0 <= i < replies.len() - 1 ==> is_inner_page(#[trigger] replies[i]),
        is_last_page(replies.last()),
    ensures
        listing.run(replies) == ListingStepView::Done(listing.projects + pages_of(replies)),
    decreases replies.len(),
{
    if replies.len() == 1 {
        assert(pages_of(replies.skip(1)) == Seq::<ProjectView>::empty());
    } else {
        let next = listing.step(replies[0])->Next_0;
        let rest = replies.skip(1);
        lemma_listing_gathers_pages(next, rest);
        assert(listing.projects + page_of(replies[0]) + pages_of(rest) == listing.projects + (
            page_of(replies[0]) + pages_of(rest)));
    }
}

/// The repositories that a run covers: the first `max` of the listing, or
/// all of it where no limit is given or the listing is shorter.
pub open spec fn limited(projects: Seq<ProjectView>, max: Option<usize>) -> Seq<ProjectView> {
    match max {
        Some(count) => if count < projects.len() {
            projects.take(count as int)
        } else {
            projects
        },
        None => projects,
    }
}

/// Keeps the first `max` repositories of the listing, where a limit is given.
pub fn limit_projects(projects: Vec<Project>, max: Option<usize>) -> (kept: Vec<Project>)
    ensures
        kept.deep_view() == limited(projects.deep_view(), max),
{
    let mut kept = projects;
    match max {
        Some(count) => {
            if count < kept.len() {
                kept.truncate(count);
            }
        },
        None => {},
    }
    kept
}

} // verus!
