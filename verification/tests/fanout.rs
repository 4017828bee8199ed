use gitlab_xsearch::error::SearchError;
use gitlab_xsearch::fanout::Completion;
use gitlab_xsearch::fanout::FanOut;
use gitlab_xsearch::fanout::CONCURRENT_REQUESTS;
use gitlab_xsearch::models::GitLabBlobResult;
use gitlab_xsearch::models::Project;

fn project(id: u64, name: &str) -> Project {
    Project {
        id,
        name: name.to_string(),
        path_with_namespace: format!("group-{}/{}", id, name),
        web_url: format!("https://gitlab.com/group-{}/{}", id, name),
        http_url_to_repo: format!("https://gitlab.com/group-{}/{}.git", id, name),
        path: name.to_string(),
    }
}

fn projects(count: u64) -> Vec<Project> {
    (0..count).map(|id| project(id, &format!("p{}", id))).collect()
}

fn blob(project_id: u64, line: u64) -> GitLabBlobResult {
    GitLabBlobResult {
        filename: format!("file-{}.rs", line),
        startline: Some(line),
        project_id,
        data: format!("match {} of {}", line, project_id),
    }
}

fn dispatch(fan_out: FanOut) -> (FanOut, usize) {
    match fan_out.next_dispatch() {
        (fan_out, Some(index)) => (fan_out, index),
        (_, None) => panic!("a repository should have been handed out"),
    }
}

#[test]
fn no_more_than_five_searches_are_under_way() {
    let mut fan_out = FanOut::new(projects(12));
    assert_eq!(fan_out.total(), 12);
    let mut handed_out = Vec::new();
    loop {
        let (next, index) = fan_out.next_dispatch();
        fan_out = next;
        match index {
            Some(index) => handed_out.push(index),
            None => break,
        }
        assert!(fan_out.in_flight() <= CONCURRENT_REQUESTS);
    }
    assert_eq!(handed_out, vec![0, 1, 2, 3, 4]);
    assert_eq!(fan_out.in_flight(), 5);

    let (fan_out, index) = fan_out.next_dispatch();
    assert_eq!(index, None);
    assert_eq!(fan_out.in_flight(), 5);
}

#[test]
fn a_slot_is_filled_again_as_soon_as_it_is_free() {
    let mut fan_out = FanOut::new(projects(7));
    for _ in 0..5 {
        fan_out = dispatch(fan_out).0;
    }
    let (fan_out, _) = fan_out.complete(3, Ok(Vec::new()));
    assert_eq!(fan_out.in_flight(), 4);
    let (fan_out, index) = dispatch(fan_out);
    assert_eq!(index, 5);
    assert_eq!(fan_out.in_flight(), 5);
    let (fan_out, index) = fan_out.next_dispatch();
    assert_eq!(index, None);

    let (fan_out, _) = fan_out.complete(0, Ok(Vec::new()));
    let (fan_out, _) = fan_out.complete(5, Ok(Vec::new()));
    let (fan_out, index) = dispatch(fan_out);
    assert_eq!(index, 6);
    let (fan_out, index) = fan_out.next_dispatch();
    assert_eq!(index, None);
    assert_eq!(fan_out.in_flight(), 4);
    assert_eq!(fan_out.completed(), 3);
    assert!(!fan_out.is_done());
}

#[test]
fn a_whole_run_never_exceeds_the_cap_and_searches_each_repository_once() {
    let count = 23;
    let mut fan_out = FanOut::new(projects(count));
    let mut under_way: Vec<usize> = Vec::new();
    let mut searched: Vec<usize> = Vec::new();
    let mut turn = 0usize;
    while !fan_out.is_done() {
        loop {
            let (next, index) = fan_out.next_dispatch();
            fan_out = next;
            match index {
                Some(index) => {
                    under_way.push(index);
                    searched.push(index);
                }
                None => break,
            }
            assert!(under_way.len() <= 5);
        }
        assert_eq!(fan_out.in_flight(), under_way.len());
        turn += 1;
        let ended = under_way.remove((turn * 7) % under_way.len());
        let (next, completion) = fan_out.complete(ended, Ok(vec![blob(ended as u64, 1)]));
        fan_out = next;
        assert!(matches!(completion, Completion::Rows(1)));
    }
    assert_eq!(searched, (0..count as usize).collect::<Vec<usize>>());
    assert_eq!(fan_out.completed(), count as usize);
    assert_eq!(fan_out.into_rows().len(), count as usize);
}

#[test]
fn a_failed_search_leaves_the_others_alone() {
    let listing = vec![project(1, "A"), project(2, "B"), project(3, "C")];
    let fan_out = FanOut::new(listing);
    let (fan_out, _) = dispatch(fan_out);
    let (fan_out, _) = dispatch(fan_out);
    let (fan_out, _) = dispatch(fan_out);

    let (fan_out, completion) = fan_out.complete(0, Ok(vec![blob(1, 10), blob(1, 20)]));
    assert!(matches!(completion, Completion::Rows(2)));

    let failure = SearchError::Status { project_id: 2, status: 404 };
    let (fan_out, completion) = fan_out.complete(1, Err(failure));
    match completion {
        Completion::Skipped(notice) => {
            assert_eq!(notice, "Error searching project B: Search failed for project 2: 404 Not Found");
        }
        other => panic!("the repository should have been skipped, but: {:?}", other),
    }

    let (fan_out, completion) = fan_out.complete(2, Ok(vec![blob(3, 30)]));
    assert!(matches!(completion, Completion::Rows(1)));

    assert!(fan_out.is_done());
    assert_eq!(fan_out.skipped(), &vec![1usize]);
    let rows = fan_out.into_rows();
    assert_eq!(rows.len(), 3);
    assert_eq!(rows[0].project_name, "A");
    assert_eq!(rows[0].group_path, "group-1");
    assert_eq!(rows[0].line_number, 10);
    assert_eq!(rows[1].project_name, "A");
    assert_eq!(rows[1].line_number, 20);
    assert_eq!(rows[2].project_name, "C");
    assert_eq!(rows[2].project_id, 3);
    assert_eq!(rows[2].file_name, "file-30.rs");
    assert!(rows.iter().all(|row| row.project_name != "B"));
}

#[test]
fn rows_come_in_the_order_in_which_the_searches_end() {
    let fan_out = FanOut::new(projects(3));
    let (fan_out, _) = dispatch(fan_out);
    let (fan_out, _) = dispatch(fan_out);
    let (fan_out, _) = dispatch(fan_out);
    let (fan_out, _) = fan_out.complete(2, Ok(vec![blob(2, 1), blob(2, 2)]));
    let (fan_out, _) = fan_out.complete(0, Ok(vec![blob(0, 1)]));
    let (fan_out, _) = fan_out.complete(1, Ok(vec![blob(1, 1)]));
    let rows = fan_out.into_rows();
    let order: Vec<(u64, u64)> = rows.iter().map(|row| (row.project_id, row.line_number)).collect();
    assert_eq!(order, vec![(2, 1), (2, 2), (0, 1), (1, 1)]);
}

#[test]
fn a_search_without_matches_gives_no_rows() {
    let fan_out = FanOut::new(projects(1));
    let (fan_out, index) = dispatch(fan_out);
    assert_eq!(index, 0);
    let (fan_out, completion) = fan_out.complete(0, Ok(Vec::new()));
    assert!(matches!(completion, Completion::Rows(0)));
    assert!(fan_out.is_done());
    assert!(fan_out.rows().is_empty());
    assert!(fan_out.skipped().is_empty());
}

#[test]
fn retries_exhausted_skip_the_repository_and_name_it() {
    let fan_out = FanOut::new(vec![project(42, "answers")]);
    let (fan_out, _) = dispatch(fan_out);
    let failure = SearchError::RetriesExhausted { project_id: 42 };
    let (fan_out, completion) = fan_out.complete(0, Err(failure));
    match completion {
        Completion::Skipped(notice) => assert_eq!(
            notice,
            "Error searching project answers: Max retries exceeded for project 42: 429 Too Many Requests"
        ),
        other => panic!("the repository should have been skipped, but: {:?}", other),
    }
    assert!(fan_out.is_done());
    assert!(fan_out.into_rows().is_empty());
}

#[test]
fn the_end_of_a_search_that_is_not_under_way_changes_nothing() {
    let fan_out = FanOut::new(projects(3));
    let (fan_out, completion) = fan_out.complete(0, Ok(vec![blob(0, 1)]));
    assert!(matches!(completion, Completion::NotInFlight));
    assert!(fan_out.rows().is_empty());

    let (fan_out, _) = dispatch(fan_out);
    let (fan_out, completion) = fan_out.complete(1, Ok(vec![blob(1, 1)]));
    assert!(matches!(completion, Completion::NotInFlight));
    let (fan_out, completion) = fan_out.complete(99, Ok(vec![blob(1, 1)]));
    assert!(matches!(completion, Completion::NotInFlight));

    let (fan_out, completion) = fan_out.complete(0, Ok(vec![blob(0, 1)]));
    assert!(matches!(completion, Completion::Rows(1)));
    let (fan_out, completion) = fan_out.complete(0, Ok(vec![blob(0, 1)]));
    assert!(matches!(completion, Completion::NotInFlight));
    assert_eq!(fan_out.rows().len(), 1);
    assert_eq!(fan_out.completed(), 1);
}

#[test]
fn a_run_over_nothing_is_done_at_once() {
    let fan_out = FanOut::new(Vec::new());
    assert!(fan_out.is_done());
    let (fan_out, index) = fan_out.next_dispatch();
    assert_eq!(index, None);
    assert!(fan_out.into_rows().is_empty());
}

#[test]
fn a_repository_is_found_by_its_place() {
    let fan_out = FanOut::new(projects(2));
    assert_eq!(fan_out.project(1).map(|project| project.id), Some(1));
    assert!(fan_out.project(2).is_none());
}

#[test]
fn a_search_that_broke_off_skips_the_repository() {
    let fan_out = FanOut::new(vec![project(1, "A"), project(2, "B")]);
    let (fan_out, _) = dispatch(fan_out);
    let (fan_out, _) = dispatch(fan_out);
    let broken = SearchError::Aborted("task 7 panicked".to_string());
    assert_eq!(broken.message(), "task 7 panicked");
    let (fan_out, completion) = fan_out.complete(0, Err(broken));
    match completion {
        Completion::Skipped(notice) => {
            assert_eq!(notice, "Error searching project A: task 7 panicked")
        }
        other => panic!("the repository should have been skipped, but: {:?}", other),
    }
    let (fan_out, _) = fan_out.complete(1, Ok(vec![blob(2, 5)]));
    assert!(fan_out.is_done());
    assert_eq!(fan_out.skipped(), &vec![0usize]);
    let rows = fan_out.into_rows();
    assert_eq!(rows.len(), 1);
    assert_eq!(rows[0].project_name, "B");
}
