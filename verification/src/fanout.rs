//! The fan-out of one search over many repositories: at most
//! `CONCURRENT_REQUESTS` searches at a time, a free slot filled at once, and
//! a failed search kept from the others.

use vstd::prelude::*;
use vstd::string::StringExecFns;

use crate::error::search_error_message;
use crate::error::SearchError;
use crate::error::SearchErrorView;
use crate::models::rows_of;
use crate::models::BlobView;
use crate::models::GitLabBlobResult;
use crate::models::Project;
use crate::models::ProjectView;
use crate::models::RowView;
use crate::models::SearchResultRow;

verus! {

/// How many searches may be under way at the same time.
pub const CONCURRENT_REQUESTS: usize = 5;

/// The end of one search: which repository of the listing it was for, and
/// what came of it.
pub struct Finished {
    pub index: usize,
    pub outcome: Result<Seq<BlobView>, SearchErrorView>,
}

/// The rows that a history of ended searches gives: those of each search that
/// succeeded, in the order in which the searches ended. A failed search gives
/// none.
pub open spec fn collected_rows(projects: Seq<ProjectView>, finished: Seq<Finished>) -> Seq<
    RowView,
>
    decreases finished.len(),
{
    if finished.len() == 0 {
        Seq::empty()
    } else {
        collected_rows(projects, finished.drop_last()) + match finished.last().outcome {
            Ok(blobs) => rows_of(projects[finished.last().index as int], blobs),
            Err(_) => Seq::empty(),
        }
    }
}

/// The repositories whose search failed, in the order in which the searches
/// ended.
pub open spec fn skipped_projects(finished: Seq<Finished>) -> Seq<usize>
    decreases finished.len(),
{
    if finished.len() == 0 {
        Seq::empty()
    } else {
        skipped_projects(finished.drop_last()) + match finished.last().outcome {
            Ok(_) => Seq::empty(),
            Err(_) => seq![finished.last().index],
        }
    }
}

/// The state of a fan-out as contracts see it.
pub struct FanOutView {
    /// The repositories to search, in listing order.
    pub projects: Seq<ProjectView>,
    /// How many of them have been handed out: those in front of this index.
    pub dispatched: nat,
    /// The repositories whose search is under way.
    pub in_flight: Seq<usize>,
    /// The searches that have ended, in the order in which they did.
    pub finished: Seq<Finished>,
    /// The rows gathered so far.
    pub rows: Seq<RowView>,
    /// The repositories given up so far.
    pub skipped: Seq<usize>,
}

/// What can happen to a fan-out: a request for the next repository to
/// search, or the end of one search.
pub enum Event {
    Dispatch,
    Complete { index: usize, outcome: Result<Seq<BlobView>, SearchErrorView> },
}

impl FanOutView {
    /// The fan-out over `projects` before anything has been handed out.
    pub open spec fn initial(projects: Seq<ProjectView>) -> FanOutView {
        FanOutView {
            projects,
            dispatched: 0,
            in_flight: Seq::empty(),
            finished: Seq::empty(),
            rows: Seq::empty(),
            skipped: Seq::empty(),
        }
    }

    /// What holds of every fan-out.
    pub open spec fn wf(self) -> bool {
        &&& self.dispatched <= self.projects.len()
        &&& self.in_flight.len() <= CONCURRENT_REQUESTS
        &&& self.in_flight.no_duplicates()
        &&& forall|k: int| 0 <= k < self.in_flight.len() ==> #[trigger] self.in_flight[k]
            < self.dispatched
        &&& forall|k: int| 0 <= k < self.finished.len() ==> (#[trigger] self.finished[k]).index
            < self.dispatched
        &&& forall|j: int, k: int|
            0 <= j < k < self.finished.len() ==> (#[trigger] self.finished[j]).index != (
            #[trigger] self.finished[k]).index
        &&& forall|j: int, k: int|
            0 <= j < self.in_flight.len() && 0 <= k < self.finished.len()
                ==> #[trigger] self.in_flight[j] != (#[trigger] self.finished[k]).index
        &&& self.in_flight.len() + self.finished.len() == self.dispatched
        &&& self.rows == collected_rows(self.projects, self.finished)
        &&& self.skipped == skipped_projects(self.finished)
    }

    /// Whether a slot is free and a repository is left to fill it.
    pub open spec fn can_dispatch(self) -> bool {
        self.in_flight.len() < CONCURRENT_REQUESTS && self.dispatched < self.projects.len()
    }

    /// The fan-out after the next repository has been handed out.
    pub open spec fn dispatch(self) -> FanOutView
        recommends
            self.can_dispatch(),
    {
        FanOutView {
            dispatched: self.dispatched + 1,
            in_flight: self.in_flight.push(self.dispatched as usize),
            ..self
        }
    }

    /// The fan-out after the search of repository `index` has ended with
    /// `outcome`: its slot is free again, its rows are appended if it
    /// succeeded, and it is recorded as skipped if it failed.
    pub open spec fn complete(
        self,
        index: usize,
        outcome: Result<Seq<BlobView>, SearchErrorView>,
    ) -> FanOutView
        recommends
            self.in_flight.contains(index),
    {
        FanOutView {
            in_flight: self.in_flight.remove(self.in_flight.index_of(index)),
            finished: self.finished.push(Finished { index, outcome }),
            rows: self.rows + match outcome {
                Ok(blobs) => rows_of(self.projects[index as int], blobs),
                Err(_) => Seq::empty(),
            },
            skipped: self.skipped + match outcome {
                Ok(_) => Seq::empty(),
                Err(_) => seq![index],
            },
            ..self
        }
    }

    /// Whether every repository has been handed out and every search has ended.
    pub open spec fn is_done(self) -> bool {
        self.dispatched == self.projects.len() && self.in_flight.len() == 0
    }

    /// The fan-out after `event`. An event that does not apply changes
    /// nothing: a dispatch without a free slot or without a repository left,
    /// or the end of a search that is not under way.
    pub open spec fn step(self, event: Event) -> FanOutView {
        match event {
            Event::Dispatch => if self.can_dispatch() {
                self.dispatch()
            } else {
                self
            },
            Event::Complete { index, outcome } => if self.in_flight.contains(index) {
                self.complete(index, outcome)
            } else {
                self
            },
        }
    }

    /// The fan-out after `events`, one after the other.
    pub open spec fn run(self, events: Seq<Event>) -> FanOutView
        decreases events.len(),
    {
        if events.len() == 0 {
            self
        } else {
            self.run(events.drop_last()).step(events.last())
        }
    }
}

/// Handing out the next repository keeps a fan-out well formed.
pub proof fn lemma_dispatch_keeps_wf(state: FanOutView)
    requires
        state.wf(),
        state.can_dispatch(),
        state.projects.len() <= usize::MAX,
    ensures
        state.dispatch().wf(),
{
}

/// The end of a search that is under way keeps a fan-out well formed.
pub proof fn lemma_complete_keeps_wf(
    state: FanOutView,
    index: usize,
    outcome: Result<Seq<BlobView>, SearchErrorView>,
)
    requires
        state.wf(),
        state.in_flight.contains(index),
    ensures
        state.complete(index, outcome).wf(),
{
    let next = state.complete(index, outcome);
    assert(next.finished.drop_last() == state.finished);
}

/// A search that fails takes nothing from the run and adds nothing to it but
/// its own record: the rows stay as they were, the other searches stay
/// under way, and the repository is marked as skipped. A search that
/// succeeds appends its rows, in the order of its matches, behind those that
/// were there.
pub proof fn lemma_failure_is_isolated(
    state: FanOutView,
    index: usize,
    outcome: Result<Seq<BlobView>, SearchErrorView>,
)
    requires
        state.wf(),
        state.in_flight.contains(index),
    ensures
        state.complete(index, outcome).wf(),
        state.complete(index, outcome).projects == state.projects,
        state.complete(index, outcome).dispatched == state.dispatched,
        forall|other: usize|
            other != index ==> (state.complete(index, outcome).in_flight.contains(other)
                <==> state.in_flight.contains(other)),
        !state.complete(index, outcome).in_flight.contains(index),
        outcome is Err ==> {
            &&& state.complete(index, outcome).rows == state.rows
            &&& state.complete(index, outcome).skipped == state.skipped.push(index)
        },
        outcome matches Ok(blobs) ==> {
            &&& state.complete(index, outcome).rows == state.rows + rows_of(
                state.projects[index as int],
                blobs,
            )
            &&& state.complete(index, outcome).skipped == state.skipped
        },
{
    lemma_complete_keeps_wf(state, index, outcome);
    let next = state.complete(index, outcome);
    let at = state.in_flight.index_of(index);
    assert forall|other: usize| other != index && state.in_flight.contains(other)
        implies next.in_flight.contains(other) by {
        let k = choose|k: int| 0 <= k < state.in_flight.len() && state.in_flight[k] == other;
        let moved = if k < at { k } else { k - 1 };
        assert(next.in_flight[moved] == other);
    }
}

/// When a run is done, as many searches have ended as there are
/// repositories, each for a repository of the listing and no two for the
/// same one: every repository was searched, and none twice.
pub proof fn lemma_done_searched_each_once(state: FanOutView)
    requires
        state.wf(),
        state.is_done(),
    ensures
        state.finished.len() == state.projects.len(),
        forall|k: int|
            0 <= k < state.finished.len() ==> (#[trigger] state.finished[k]).index
                < state.projects.len(),
        forall|j: int, k: int|
            0 <= j < k < state.finished.len() ==> (#[trigger] state.finished[j]).index != (
            #[trigger] state.finished[k]).index,
{
}

/// Whatever happens to a fan-out, in whatever order, it stays well formed. So
/// at no point are more than `CONCURRENT_REQUESTS` searches under way, no
/// repository is searched twice, and the rows gathered are those of the
/// searches that succeeded, in the order in which they ended.
pub proof fn lemma_run_keeps_wf(projects: Seq<ProjectView>, events: Seq<Event>)
    requires
        projects.len() <= usize::MAX,
    ensures
        FanOutView::initial(projects).run(events).wf(),
        FanOutView::initial(projects).run(events).projects == projects,
        FanOutView::initial(projects).run(events).in_flight.len() <= CONCURRENT_REQUESTS,
    decreases events.len(),
{
    if events.len() > 0 {
        lemma_run_keeps_wf(projects, events.drop_last());
        let before = FanOutView::initial(projects).run(events.drop_last());
        match events.last() {
            Event::Dispatch => {
                if before.can_dispatch() {
                    lemma_dispatch_keeps_wf(before);
                }
            },
            Event::Complete { index, outcome } => {
                if before.in_flight.contains(index) {
                    lemma_complete_keeps_wf(before, index, outcome);
                }
            },
        }
    }
}

/// What the end of one search meant for the run.
#[derive(Debug)]
pub enum Completion {
    /// No search of that repository was under way; nothing changed.
    NotInFlight,
    /// The search succeeded and gave this many rows, possibly none.
    Rows(usize),
    /// The search failed. The repository is skipped, and the text tells the
    /// operator which one and why.
    Skipped(String),
}

/// What the operator reads when the search of the repository `name` fails
/// for the reason `cause`.
pub open spec fn skip_notice(name: Seq<char>, cause: Seq<char>) -> Seq<char> {
    "Error searching project "@ + name + ": "@ + cause
}

/// The searches of a run: which repositories are still to be searched, which
/// searches are under way, and what the ended ones have given.
pub struct FanOut {
    projects: Vec<Project>,
    dispatched: usize,
    in_flight: Vec<usize>,
    rows: Vec<SearchResultRow>,
    skipped: Vec<usize>,
    finished: Ghost<Seq<Finished>>,
}

impl View for FanOut {
    type V = FanOutView;

    closed spec fn view(&self) -> FanOutView {
        FanOutView {
            projects: self.projects.deep_view(),
            dispatched: self.dispatched as nat,
            in_flight: self.in_flight@,
            finished: self.finished@,
            rows: self.rows.deep_view(),
            skipped: self.skipped@,
        }
    }
}

impl FanOut {
    #[verifier::type_invariant]
    spec fn well_formed(&self) -> bool {
        self@.wf()
    }

    /// A fan-out over `projects`, with nothing handed out yet.
    pub fn new(projects: Vec<Project>) -> (fan_out: FanOut)
        ensures
            fan_out@ == FanOutView::initial(projects.deep_view()),
            fan_out@.wf(),
    {
        let in_flight: Vec<usize> = Vec::new();
        let rows: Vec<SearchResultRow> = Vec::new();
        let skipped: Vec<usize> = Vec::new();
        proof {
            assert(projects.deep_view().len() == projects.len());
            lemma_run_keeps_wf(projects.deep_view(), Seq::empty());
            assert(rows.deep_view() == Seq::<RowView>::empty());
        }
        FanOut { projects, dispatched: 0, in_flight, rows, skipped, finished: Ghost(Seq::empty()) }
    }

    /// Hands out the next repository to search, if a slot is free and one is
    /// left: its place in the listing.
    pub fn next_dispatch(self) -> (result: (FanOut, Option<usize>))
        ensures
            result.0@ == self@.step(Event::Dispatch),
            result.0@.wf(),
            result.1 == (if self@.can_dispatch() {
                Some(self@.dispatched as usize)
            } else {
                None
            }),
    {
        proof {
            use_type_invariant(&self);
        }
        if self.in_flight.len() < CONCURRENT_REQUESTS && self.dispatched < self.projects.len() {
            proof {
                lemma_dispatch_keeps_wf(self@);
            }
            let FanOut { projects, dispatched, mut in_flight, rows, skipped, finished } = self;
            in_flight.push(dispatched);
            (
                FanOut {
                    projects,
                    dispatched: dispatched + 1,
                    in_flight,
                    rows,
                    skipped,
                    finished,
                },
                Some(dispatched),
            )
        } else {
            (self, None)
        }
    }

    /// The repository at `index` of the listing.
    pub fn project(&self, index: usize) -> (project: Option<&Project>)
        ensures
            project is Some <==> index < self@.projects.len(),
            project matches Some(p) ==> p@ == self@.projects[index as int],
    {
        if index < self.projects.len() {
            Some(&self.projects[index])
        } else {
            None
        }
    }

    /// How many repositories the run covers.
    pub fn total(&self) -> (count: usize)
        ensures
            count == self@.projects.len(),
    {
        self.projects.len()
    }

    /// How many searches are under way.
    pub fn in_flight(&self) -> (count: usize)
        ensures
            count == self@.in_flight.len(),
            count <= CONCURRENT_REQUESTS,
    {
        proof {
            use_type_invariant(self);
        }
        self.in_flight.len()
    }

    /// How many searches have ended.
    pub fn completed(&self) -> (count: usize)
        ensures
            count == self@.finished.len(),
    {
        proof {
            use_type_invariant(self);
        }
        self.dispatched - self.in_flight.len()
    }

    /// Whether every repository has been handed out and every search has ended.
    pub fn is_done(&self) -> (done: bool)
        ensures
            done == self@.is_done(),
    {
        self.dispatched == self.projects.len() && self.in_flight.len() == 0
    }

    /// The rows gathered so far.
    pub fn rows(&self) -> (rows: &Vec<SearchResultRow>)
        ensures
            rows.deep_view() == self@.rows,
    {
        &self.rows
    }

    /// The repositories given up so far, by their place in the listing.
    pub fn skipped(&self) -> (skipped: &Vec<usize>)
        ensures
            skipped@ == self@.skipped,
    {
        &self.skipped
    }

    /// Ends the run and hands over the rows gathered.
    pub fn into_rows(self) -> (rows: Vec<SearchResultRow>)
        ensures
            rows.deep_view() == self@.rows,
            rows.deep_view() == collected_rows(self@.projects, self@.finished),
    {
        proof {
            use_type_invariant(&self);
        }
        self.rows
    }

    /// Records the end of the search of the repository at `index`.
    pub fn complete(self, index: usize, outcome: Result<Vec<GitLabBlobResult>, SearchError>) -> (result:
        (FanOut, Completion))
        ensures
            result.0@ == self@.step(Event::Complete { index, outcome: outcome_view(outcome) }),
            result.0@.wf(),
            completion_matches(self@, index, outcome_view(outcome), result.1),
    {
        proof {
            use_type_invariant(&self);
        }
        let mut at: usize = 0;
        while at < self.in_flight.len() && self.in_flight[at] != index
            invariant
                at <= self.in_flight.len(),
                forall|k: int| 0 <= k < at ==> self.in_flight@[k] != index,
            decreases self.in_flight.len() - at,
        {
            at += 1;
        }
        if at == self.in_flight.len() {
            return (self, Completion::NotInFlight);
        }
        let ghost before = self@;
        let ghost after = before.complete(index, outcome_view(outcome));
        proof {
            lemma_complete_keeps_wf(before, index, outcome_view(outcome));
        }
        let FanOut { projects, dispatched, mut in_flight, mut rows, mut skipped, finished } = self;
        in_flight.remove(at);
        let completion = match outcome {
            Ok(blobs) => {
                let project = &projects[index];
                let mut i: usize = 0;
                while i < blobs.len()
                    invariant
                        i <= blobs.len(),
                        rows.deep_view() == before.rows + rows_of(
                            project@,
                            blobs.deep_view().take(i as int),
                        ),
                    decreases blobs.len() - i,
                {
                    let ghost gathered = rows.deep_view();
                    let row = SearchResultRow::from_api_result(project, &blobs[i]);
                    rows.push(row);
                    assert(rows.deep_view() == gathered.push(row@));
                    i += 1;
                }
                assert(blobs.deep_view().take(i as int) == blobs.deep_view());
                Completion::Rows(blobs.len())
            },
            Err(error) => {
                skipped.push(index);
                let mut notice = String::from_str("Error searching project ");
                notice.append(projects[index].name.as_str());
                notice.append(": ");
                let cause = error.message();
                notice.append(cause.as_str());
                Completion::Skipped(notice)
            },
        };
        assert(skipped@ == after.skipped);
        (
            FanOut {
                projects,
                dispatched,
                in_flight,
                rows,
                skipped,
                finished: Ghost(after.finished),
            },
            completion,
        )
    }
}

/// The outcome of a search as contracts see it.
pub open spec fn outcome_view(outcome: Result<Vec<GitLabBlobResult>, SearchError>) -> Result<
    Seq<BlobView>,
    SearchErrorView,
> {
    match outcome {
        Ok(blobs) => Ok(blobs.deep_view()),
        Err(error) => Err(error@),
    }
}

/// Whether `completion` is the right report for the end of the search of
/// the repository at `index` with `outcome`, in the state `before`.
pub open spec fn completion_matches(
    before: FanOutView,
    index: usize,
    outcome: Result<Seq<BlobView>, SearchErrorView>,
    completion: Completion,
) -> bool {
    if !before.in_flight.contains(index) {
        completion is NotInFlight
    } else {
        match outcome {
            Ok(blobs) => completion == Completion::Rows(blobs.len() as usize),
            Err(error) => completion matches Completion::Skipped(notice) && notice@ == skip_notice(
                before.projects[index as int].name,
                search_error_message(error),
            ),
        }
    }
}

} // verus!
