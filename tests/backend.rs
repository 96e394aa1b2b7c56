use athena_shell::pagination::Paginator;
use athena_shell::query::{query_handle, result_location};
use athena_shell::results::{named_only, page_rows, row_cells};
use athena_shell::error::ShellError;
use athena_shell::status::{CompletionPoller, PollStep, QueryStatus, MAX_POLL_ATTEMPTS};

/// Runs a paginator against pages handed out in turn; returns the items and
/// the token sent with each request.
fn run_pages(pages: &[(Vec<&str>, Option<&str>)]) -> (Vec<String>, Vec<Option<String>>) {
    let mut p: Paginator<String> = Paginator::new();
    let mut sent = Vec::new();
    let mut i = 0;
    while !p.is_done() && i < pages.len() {
        sent.push(p.next_token().cloned());
        let (items, next) = &pages[i];
        p.on_page(items.iter().map(|s| s.to_string()).collect(), next.map(|t| t.to_string()));
        i += 1;
    }
    (p.into_items(), sent)
}

/// Waits against statuses handed out in turn; returns the outcome, the
/// polls made and the seconds slept.
fn run_poller(stub: &[QueryStatus], interval: u64) -> (bool, usize, u64) {
    let mut poller = CompletionPoller::new(interval);
    let mut polls = 0;
    let mut slept = 0;
    let mut step = PollStep::Poll;
    loop {
        match step {
            PollStep::Poll => {
                let status = stub[polls];
                polls += 1;
                step = poller.on_status(status);
            }
            PollStep::Sleep(secs) => {
                slept += secs;
                step = poller.after_sleep();
            }
            PollStep::Finished(ok) => return (ok, polls, slept),
        }
    }
}

#[test]
fn catalogs_over_two_pages() {
    let (items, sent) = run_pages(&[(vec!["a", "b"], Some("t1")), (vec!["c"], None)]);
    assert_eq!(items, vec!["a", "b", "c"]);
    assert_eq!(sent, vec![None, Some("t1".to_string())]);

    let page1 = vec![Some("a".to_string()), Some("b".to_string())];
    let page2 = vec![None, Some("c".to_string())];
    let mut p: Paginator<String> = Paginator::new();
    p.on_page(named_only(&page1), Some("t1".to_string()));
    assert_eq!(p.next_token(), Some(&"t1".to_string()));
    p.on_page(named_only(&page2), None);
    assert!(p.is_done());
    assert_eq!(p.into_items(), vec!["a", "b", "c"]);
}

#[test]
fn pagination_with_no_page_yet_gathers_nothing() {
    let (items, sent) = run_pages(&[]);
    assert!(items.is_empty());
    assert!(sent.is_empty());
    let p: Paginator<String> = Paginator::new();
    assert!(!p.is_done());
    assert_eq!(p.next_token(), None);
}

#[test]
fn pagination_single_page() {
    let (items, sent) = run_pages(&[(vec!["only"], None), (vec!["never"], None)]);
    assert_eq!(items, vec!["only"]);
    assert_eq!(sent, vec![None]);
}

#[test]
fn pagination_many_pages_in_order() {
    let (items, sent) = run_pages(&[
        (vec!["a"], Some("1")),
        (vec![], Some("2")),
        (vec!["b", "c"], Some("3")),
        (vec!["d"], None),
        (vec!["late"], None),
    ]);
    assert_eq!(items, vec!["a", "b", "c", "d"]);
    assert_eq!(
        sent,
        vec![None, Some("1".to_string()), Some("2".to_string()), Some("3".to_string())]
    );
}

#[test]
fn status_texts() {
    assert_eq!(QueryStatus::from_state("QUEUED"), QueryStatus::Queued);
    assert_eq!(QueryStatus::from_state("RUNNING"), QueryStatus::Running);
    assert_eq!(QueryStatus::from_state("SUCCEEDED"), QueryStatus::Succeeded);
    assert_eq!(QueryStatus::from_state("FAILED"), QueryStatus::Failed);
    assert_eq!(QueryStatus::from_state("CANCELLED"), QueryStatus::Cancelled);
    assert_eq!(QueryStatus::from_state("succeeded"), QueryStatus::Unknown);
    assert_eq!(QueryStatus::from_reported(None), QueryStatus::Unknown);
    assert_eq!(QueryStatus::from_reported(Some("RUNNING")), QueryStatus::Running);
    assert!(!QueryStatus::Running.is_terminal());
    assert!(QueryStatus::Unknown.is_terminal());
}

#[test]
fn running_then_succeeded_polls_once_more_than_it_sleeps() {
    for k in 0..(MAX_POLL_ATTEMPTS as usize) {
        let mut stub = vec![QueryStatus::Running; k];
        stub.push(QueryStatus::Succeeded);
        assert_eq!(run_poller(&stub, 2), (true, k + 1, 2 * k as u64));
    }
}

#[test]
fn running_throughout_is_not_confirmed() {
    let stub = vec![QueryStatus::Running; 6];
    assert_eq!(run_poller(&stub, 3), (false, 5, 15));
}

#[test]
fn failure_and_unknown_stop_at_once() {
    let stub = [QueryStatus::Queued, QueryStatus::Failed, QueryStatus::Succeeded];
    assert_eq!(run_poller(&stub, 1), (false, 2, 1));
    assert_eq!(run_poller(&[QueryStatus::Cancelled], 1), (false, 1, 0));
    assert_eq!(run_poller(&[QueryStatus::Unknown, QueryStatus::Succeeded], 1), (false, 1, 0));
}

#[test]
fn poller_budget() {
    let mut p = CompletionPoller::new(0);
    assert!(p.can_poll());
    for _ in 0..5 {
        assert_eq!(p.on_status(QueryStatus::Queued), PollStep::Sleep(0));
    }
    assert_eq!(p.polls(), 5);
    assert!(!p.can_poll());
    assert_eq!(p.after_sleep(), PollStep::Finished(false));
}

#[test]
fn names_without_a_value_are_skipped() {
    let names = vec![Some("a".to_string()), None, Some("b".to_string()), None];
    assert_eq!(named_only(&names), vec!["a", "b"]);
    assert!(named_only(&vec![None]).is_empty());
}

#[test]
fn empty_cells_stay_as_empty_text() {
    let row = vec![Some("1".to_string()), None, Some("x".to_string())];
    assert_eq!(row_cells(&row), vec!["1", "", "x"]);
}

#[test]
fn page_without_result_set_has_no_rows() {
    assert!(page_rows(&None).is_empty());
    let rows = Some(vec![
        vec![Some("id".to_string()), Some("name".to_string())],
        vec![Some("7".to_string()), None],
    ]);
    assert_eq!(page_rows(&rows), vec![vec!["id", "name"], vec!["7", ""]]);
}

#[test]
fn result_location_and_handle() {
    assert_eq!(result_location("my-bucket"), "s3://my-bucket/");
    assert_eq!(query_handle(Some("abc-123".to_string())), Ok("abc-123".to_string()));
    assert_eq!(query_handle(None), Err(ShellError::MissingHandle));
}
