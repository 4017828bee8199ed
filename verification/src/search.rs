//! The search of one repository: one request, tried again with a growing
//! wait for as long as the host turns it away for asking too often.

use vstd::arithmetic::power2::lemma2_to64;
use vstd::arithmetic::power2::lemma_pow2_unfold;
use vstd::arithmetic::power2::pow2;
use vstd::prelude::*;
use vstd::string::StringExecFns;

use crate::decimal::decimal_digits;
use crate::decimal::parse_u64;
use crate::decimal::parsed_u64;
use crate::decimal::u64_to_decimal;
use crate::error::SearchError;
use crate::error::SearchErrorView;
use crate::http::is_success;
use crate::http::status_is_success;
use crate::http::Request;
use crate::http::RequestView;
use crate::http::TOO_MANY_REQUESTS;
use crate::models::BlobView;
use crate::models::GitLabBlobResult;

verus! {

/// How often the search of one repository is tried again after the host has
/// turned it away for asking too often.
pub const MAX_RETRIES: u32 = 5;

/// The seconds to wait before the retry after `retry_count` earlier ones,
/// where the host names no wait: two to the power of their number.
pub open spec fn backoff_secs(retry_count: nat) -> nat {
    pow2(retry_count)
}

/// The seconds to wait before the next retry: what the host asked for, where
/// it named a number of seconds; else the backoff.
pub open spec fn wait_secs(retry_after: Option<Seq<char>>, retry_count: nat) -> nat {
    match retry_after {
        Some(text) => match parsed_u64(text) {
            Some(secs) => secs as nat,
            None => backoff_secs(retry_count),
        },
        None => backoff_secs(retry_count),
    }
}

/// The address under which the repository `project_id` is searched.
pub open spec fn search_endpoint(base_url: Seq<char>, project_id: u64) -> Seq<char> {
    base_url + "/projects/"@ + decimal_digits(project_id as nat) + "/search"@
}

/// The search of one repository as contracts see it.
pub struct SearchView {
    pub project_id: u64,
    pub endpoint: Seq<char>,
    pub query: Seq<char>,
    /// How many retries have been made so far.
    pub retry_count: nat,
    /// The seconds that were waited before the latest retry.
    pub last_wait: Option<nat>,
}

/// What came back as the body of a search response.
#[derive(Debug)]
pub enum SearchBody {
    Parsed(Vec<GitLabBlobResult>),
    /// The body was no sequence of matches; the text says why.
    Malformed(String),
}

/// A `SearchBody` with its strings as sequences of characters.
pub enum SearchBodyView {
    Parsed(Seq<BlobView>),
    Malformed(Seq<char>),
}

impl View for SearchBody {
    type V = SearchBodyView;

    open spec fn view(&self) -> SearchBodyView {
        match self {
            SearchBody::Parsed(blobs) => SearchBodyView::Parsed(blobs.deep_view()),
            SearchBody::Malformed(detail) => SearchBodyView::Malformed(detail@),
        }
    }
}

/// What came back for one search request.
#[derive(Debug)]
pub enum SearchReply {
    /// No response came back; the text says why.
    Unreachable(String),
    Response {
        status: u16,
        /// The text of the `retry-after` header, where there is one that
        /// is text.
        retry_after: Option<String>,
        body: SearchBody,
    },
}

/// A `SearchReply` with its strings as sequences of characters.
pub enum SearchReplyView {
    Unreachable(Seq<char>),
    Response { status: u16, retry_after: Option<Seq<char>>, body: SearchBodyView },
}

impl View for SearchReply {
    type V = SearchReplyView;

    open spec fn view(&self) -> SearchReplyView {
        match self {
            SearchReply::Unreachable(detail) => SearchReplyView::Unreachable(detail@),
            SearchReply::Response { status, retry_after, body } => SearchReplyView::Response {
                status: *status,
                retry_after: retry_after.deep_view(),
                body: body@,
            },
        }
    }
}

/// What follows from one reply, as contracts see it.
pub enum SearchStepView {
    /// Wait for `wait_secs` seconds, then ask again.
    Retry { search: SearchView, wait_secs: nat },
    Done(Seq<BlobView>),
    Failed(SearchErrorView),
}

impl SearchView {
    /// The search of `project_id` for `query` before its first request.
    pub open spec fn initial(base_url: Seq<char>, project_id: u64, query: Seq<char>) -> SearchView {
        SearchView {
            project_id,
            endpoint: search_endpoint(base_url, project_id),
            query,
            retry_count: 0,
            last_wait: None,
        }
    }

    /// The request that this search makes, on every attempt: a search of
    /// file contents for the query.
    pub open spec fn request(self) -> RequestView {
        RequestView {
            url: self.endpoint,
            query: seq![("scope"@, "blobs"@), ("search"@, self.query)],
        }
    }

    /// The search after one more retry, made after a wait of `secs` seconds.
    pub open spec fn retried(self, secs: nat) -> SearchView {
        SearchView { retry_count: self.retry_count + 1, last_wait: Some(secs), ..self }
    }

    /// What follows from `reply`.
    ///
    /// A search that the host turns away for asking too often is tried again
    /// after a wait, until `MAX_RETRIES` retries have been made; the next
    /// such reply fails the search. Any other status but success fails it at
    /// once, and so does a body that is no sequence of matches.
    pub open spec fn step(self, reply: SearchReplyView) -> SearchStepView {
        match reply {
            SearchReplyView::Unreachable(detail) => SearchStepView::Failed(
                SearchErrorView::Unreachable(detail),
            ),
            SearchReplyView::Response { status, retry_after, body } => {
                if status == TOO_MANY_REQUESTS {
                    if self.retry_count >= MAX_RETRIES {
                        SearchStepView::Failed(
                            SearchErrorView::RetriesExhausted { project_id: self.project_id },
                        )
                    } else {
                        SearchStepView::Retry {
                            search: self.retried(wait_secs(retry_after, self.retry_count)),
                            wait_secs: wait_secs(retry_after, self.retry_count),
                        }
                    }
                } else if !is_success(status) {
                    SearchStepView::Failed(
                        SearchErrorView::Status { project_id: self.project_id, status },
                    )
                } else {
                    match body {
                        SearchBodyView::Parsed(blobs) => SearchStepView::Done(blobs),
                        SearchBodyView::Malformed(detail) => SearchStepView::Failed(
                            SearchErrorView::Parse(detail),
                        ),
                    }
                }
            },
        }
    }

    /// What follows from `replies`, each one the answer to the request that
    /// the one before it led to. The first reply that ends the search ends
    /// the run; replies after it are not looked at.
    pub open spec fn run(self, replies: Seq<SearchReplyView>) -> SearchStepView
        recommends
            replies.len() > 0,
        decreases replies.len(),
    {
        let step = self.step(replies[0]);
        if replies.len() <= 1 {
            step
        } else {
            match step {
                SearchStepView::Retry { search, .. } => search.run(replies.skip(1)),
                _ => step,
            }
        }
    }
}

/// Whether the host turned the request away for asking too often.
pub open spec fn is_rate_limited(reply: SearchReplyView) -> bool {
    reply matches SearchReplyView::Response { status, .. } && status == TOO_MANY_REQUESTS
}

/// The search of one repository: what to ask, and how many retries have
/// been made.
#[derive(Debug)]
pub struct ProjectSearch {
    project_id: u64,
    endpoint: String,
    query: String,
    retry_count: u32,
    last_wait: Option<u64>,
}

impl View for ProjectSearch {
    type V = SearchView;

    closed spec fn view(&self) -> SearchView {
        SearchView {
            project_id: self.project_id,
            endpoint: self.endpoint@,
            query: self.query@,
            retry_count: self.retry_count as nat,
            last_wait: match self.last_wait {
                Some(secs) => Some(secs as nat),
                None => None,
            },
        }
    }
}

/// What follows from one reply.
#[derive(Debug)]
pub enum SearchStep {
    /// Wait for `wait_secs` seconds, then make the request of `search`.
    Retry { search: ProjectSearch, wait_secs: u64 },
    /// The matches of the repository, in the order in which the host gave them.
    Done(Vec<GitLabBlobResult>),
    Failed(SearchError),
}

impl View for SearchStep {
    type V = SearchStepView;

    open spec fn view(&self) -> SearchStepView {
        match self {
            SearchStep::Retry { search, wait_secs } => SearchStepView::Retry {
                search: search@,
                wait_secs: *wait_secs as nat,
            },
            SearchStep::Done(blobs) => SearchStepView::Done(blobs.deep_view()),
            SearchStep::Failed(error) => SearchStepView::Failed(error@),
        }
    }
}

/// The backoff before the retry after `retry_count` earlier ones.
fn backoff(retry_count: u32) -> (secs: u64)
    requires
        retry_count < MAX_RETRIES,
    ensures
        secs == backoff_secs(retry_count as nat),
{
    let mut secs: u64 = 1;
    let mut i: u32 = 0;
    proof {
        lemma2_to64();
    }
    while i < retry_count
        invariant
            i <= retry_count < MAX_RETRIES,
            secs == pow2(i as nat),
        decreases retry_count - i,
    {
        proof {
            lemma2_to64();
            lemma_pow2_unfold((i + 1) as nat);
        }
        secs = 2 * secs;
        i += 1;
    }
    secs
}

impl ProjectSearch {
    #[verifier::type_invariant]
    spec fn bounded(&self) -> bool {
        self.retry_count <= MAX_RETRIES
    }

    /// The search of the repository `project_id` for `query`, under the API
    /// at `base_url`, before its first request.
    pub fn new(base_url: &str, project_id: u64, query: &str) -> (search: ProjectSearch)
        ensures
            search@ == SearchView::initial(base_url@, project_id, query@),
    {
        let mut endpoint = String::from_str(base_url);
        endpoint.append("/projects/");
        let id = u64_to_decimal(project_id);
        endpoint.append(id.as_str());
        endpoint.append("/search");
        ProjectSearch {
            project_id,
            endpoint,
            query: String::from_str(query),
            retry_count: 0,
            last_wait: None,
        }
    }

    /// The repository that is searched.
    pub fn project_id(&self) -> (project_id: u64)
        ensures
            project_id == self@.project_id,
    {
        self.project_id
    }

    /// How many retries have been made so far.
    pub fn retry_count(&self) -> (retry_count: u32)
        ensures
            retry_count == self@.retry_count,
            retry_count <= MAX_RETRIES,
    {
        proof {
            use_type_invariant(self);
        }
        self.retry_count
    }

    /// The seconds that were waited before the latest retry, if there was one.
    pub fn last_wait(&self) -> (last_wait: Option<u64>)
        ensures
            match last_wait {
                Some(secs) => self@.last_wait == Some(secs as nat),
                None => self@.last_wait is None,
            },
    {
        self.last_wait
    }

    /// The request to make, on the first attempt and on every retry.
    pub fn request(&self) -> (request: Request)
        ensures
            request@ == self@.request(),
    {
        let mut query: Vec<(String, String)> = Vec::new();
        query.push((String::from_str("scope"), String::from_str("blobs")));
        query.push((String::from_str("search"), self.query.clone()));
        let request = Request { url: self.endpoint.clone(), query };
        assert(request@.query == self@.request().query);
        request
    }

    /// Takes the reply to the request and says what follows from it.
    pub fn on_reply(self, reply: SearchReply) -> (step: SearchStep)
        ensures
            step@ == self@.step(reply@),
    {
        proof {
            use_type_invariant(&self);
        }
        match reply {
            SearchReply::Unreachable(detail) => SearchStep::Failed(SearchError::Unreachable(detail)),
            SearchReply::Response { status, retry_after, body } => {
                if status == TOO_MANY_REQUESTS {
                    if self.retry_count >= MAX_RETRIES {
                        SearchStep::Failed(
                            SearchError::RetriesExhausted { project_id: self.project_id },
                        )
                    } else {
                        let asked = match retry_after {
                            Some(text) => parse_u64(text.as_str()),
                            None => None,
                        };
                        let wait_secs = match asked {
                            Some(secs) => secs,
                            None => backoff(self.retry_count),
                        };
                        let ProjectSearch { project_id, endpoint, query, retry_count, .. } = self;
                        SearchStep::Retry {
                            search: ProjectSearch {
                                project_id,
                                endpoint,
                                query,
                                retry_count: retry_count + 1,
                                last_wait: Some(wait_secs),
                            },
                            wait_secs,
                        }
                    }
                } else if !status_is_success(status) {
                    SearchStep::Failed(
                        SearchError::Status { project_id: self.project_id, status },
                    )
                } else {
                    match body {
                        SearchBody::Parsed(blobs) => SearchStep::Done(blobs),
                        SearchBody::Malformed(detail) => SearchStep::Failed(
                            SearchError::Parse(detail),
                        ),
                    }
                }
            },
        }
    }
}

/// A wait that the host names in whole seconds is the wait that is made,
/// however many retries came before.
pub proof fn lemma_retry_after_honored(
    search: SearchView,
    status: u16,
    text: Seq<char>,
    body: SearchBodyView,
    secs: u64,
)
    requires
        status == TOO_MANY_REQUESTS,
        search.retry_count < MAX_RETRIES,
        parsed_u64(text) == Some(secs),
    ensures
        search.step(SearchReplyView::Response { status, retry_after: Some(text), body })
            == (SearchStepView::Retry {
            search: search.retried(secs as nat),
            wait_secs: secs as nat,
        }),
{
}

/// Where the host names no wait that can be read as whole seconds, the wait
/// is two to the power of the retries made so far: 1, 2, 4, 8 and at last 16
/// seconds.
pub proof fn lemma_backoff_without_wait(
    search: SearchView,
    status: u16,
    retry_after: Option<Seq<char>>,
    body: SearchBodyView,
)
    requires
        status == TOO_MANY_REQUESTS,
        search.retry_count < MAX_RETRIES,
        retry_after matches Some(text) ==> parsed_u64(text) is None,
    ensures
        search.step(SearchReplyView::Response { status, retry_after, body })
            == (SearchStepView::Retry {
            search: search.retried(pow2(search.retry_count)),
            wait_secs: pow2(search.retry_count),
        }),
        pow2(search.retry_count) == (if search.retry_count == 0 {
            1nat
        } else if search.retry_count == 1 {
            2nat
        } else if search.retry_count == 2 {
            4nat
        } else if search.retry_count == 3 {
            8nat
        } else {
            16nat
        }),
{
    lemma2_to64();
}

/// Each retry counts: the count goes up by one with every wait and never
/// down, no search goes on past `MAX_RETRIES` retries, and a retry asks
/// what the first attempt asked.
pub proof fn lemma_retry_count_grows(search: SearchView, reply: SearchReplyView)
    ensures
        search.step(reply) matches SearchStepView::Retry { search: next, wait_secs } ==> {
            &&& search.retry_count < MAX_RETRIES
            &&& next.retry_count == search.retry_count + 1
            &&& next.last_wait == Some(wait_secs)
            &&& next.project_id == search.project_id
            &&& next.request() == search.request()
        },
{
}

/// No search makes more than `MAX_RETRIES + 1` requests: whatever the
/// replies, the one to the last of them ends it.
pub proof fn lemma_attempts_bounded(search: SearchView, replies: Seq<SearchReplyView>)
    requires
        replies.len() + search.retry_count > MAX_RETRIES,
        replies.len() > 0,
    ensures
        !(search.run(replies) is Retry),
    decreases replies.len(),
{
    let step = search.step(replies[0]);
    if replies.len() > 1 {
        match step {
            SearchStepView::Retry { search: next, .. } => {
                lemma_attempts_bounded(next, replies.skip(1));
            },
            _ => {},
        }
    }
}

/// A search that the host turns away every time gives up at the reply after
/// its last retry, with an error that names the repository.
pub proof fn lemma_retries_exhausted(search: SearchView, replies: Seq<SearchReplyView>)
    requires
        search.retry_count <= MAX_RETRIES,
        replies.len() == MAX_RETRIES - search.retry_count + 1,
        forall|i: int| 0 <= i < replies.len() ==> is_rate_limited(#[trigger] replies[i]),
    ensures
        search.run(replies) == SearchStepView::Failed(
            SearchErrorView::RetriesExhausted { project_id: search.project_id },
        ),
    decreases replies.len(),
{
    if replies.len() > 1 {
        let next = search.step(replies[0])->search;
        lemma_retries_exhausted(next, replies.skip(1));
    }
}

} // verus!
