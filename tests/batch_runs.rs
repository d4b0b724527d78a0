use api_client::batch::{BatchAction, BatchEvent, BatchPolicy, BatchRun};
use api_client::executor::Response;
use api_client::request::RawEntry;

fn entry(method: &str, url: &str) -> RawEntry {
    RawEntry { url: url.to_string(), method: method.to_string(), body: None }
}

fn policy(stop_early: bool, log_file: Option<&str>) -> BatchPolicy {
    BatchPolicy {
        stop_early_on_fail: stop_early,
        log_file: log_file.map(|p| p.to_string()),
        unreadable_body: "<no body>".to_string(),
    }
}

/// What a run did, as seen from outside.
#[derive(Debug, PartialEq)]
enum Seen {
    Sent(String),
    Appended(String, String),
    Printed(String),
    Finished(Result<(), String>),
}

/// Drives a run to its end: `transport` answers each request by URL, `sink`
/// answers each append.
fn drive(
    mut run: BatchRun,
    transport: &dyn Fn(&str) -> Result<Response, String>,
    sink: &dyn Fn(usize) -> Result<(), String>,
) -> Vec<Seen> {
    let mut seen = Vec::new();
    let mut event = BatchEvent::Proceed;
    let mut appends = 0;
    for _ in 0..100 {
        assert!(run.accepts(&event));
        match run.step(event) {
            BatchAction::Send(out) => {
                seen.push(Seen::Sent(out.url.clone()));
                event = BatchEvent::Sent(transport(&out.url));
            }
            BatchAction::Append { path, record } => {
                seen.push(Seen::Appended(path, record.block()));
                event = BatchEvent::Logged(sink(appends));
                appends += 1;
            }
            BatchAction::Print(text) => {
                seen.push(Seen::Printed(text));
                event = BatchEvent::Proceed;
            }
            BatchAction::Finish(result) => {
                assert!(!run.accepts(&BatchEvent::Proceed));
                seen.push(Seen::Finished(result));
                return seen;
            }
        }
    }
    panic!("the run did not finish");
}

fn ok_transport(_url: &str) -> Result<Response, String> {
    Ok(Response { status: 200, body: Some("fine".to_string()) })
}

fn ok_sink(_n: usize) -> Result<(), String> {
    Ok(())
}

fn three_entries() -> Vec<RawEntry> {
    vec![entry("GET", "http://a.test/"), entry("FETCH", "http://b.test/"), entry("GET", "http://c.test/")]
}

#[test]
fn stop_early_halts_at_first_failure() {
    let run = BatchRun::new(three_entries(), policy(true, None));
    let seen = drive(run, &ok_transport, &ok_sink);
    assert_eq!(
        seen,
        vec![
            Seen::Sent("http://a.test/".to_string()),
            Seen::Printed("200 OK for GET to http://a.test/\nfine\n".to_string()),
            Seen::Finished(Err("ERROR: Invalid method: FETCH to http://b.test/\n".to_string())),
        ]
    );
}

#[test]
fn continue_reports_every_entry_in_order() {
    let run = BatchRun::new(three_entries(), policy(false, None));
    let seen = drive(run, &ok_transport, &ok_sink);
    assert_eq!(
        seen,
        vec![
            Seen::Sent("http://a.test/".to_string()),
            Seen::Printed("200 OK for GET to http://a.test/\nfine\n".to_string()),
            Seen::Printed("ERROR: Invalid method: FETCH to http://b.test/\n".to_string()),
            Seen::Sent("http://c.test/".to_string()),
            Seen::Printed("200 OK for GET to http://c.test/\nfine\n".to_string()),
            Seen::Finished(Ok(())),
        ]
    );
}

#[test]
fn not_found_is_reported_as_success() {
    let run = BatchRun::new(vec![entry("GET", "http://a.test/missing")], policy(true, None));
    let transport = |_: &str| Ok(Response { status: 404, body: Some("nope".to_string()) });
    let seen = drive(run, &transport, &ok_sink);
    assert_eq!(
        seen,
        vec![
            Seen::Sent("http://a.test/missing".to_string()),
            Seen::Printed("404 Not Found for GET to http://a.test/missing\nnope\n".to_string()),
            Seen::Finished(Ok(())),
        ]
    );
}

#[test]
fn transport_failure_halts_with_its_message() {
    let entries = vec![entry("GET", "http://10.255.255.1/"), entry("GET", "http://c.test/")];
    let run = BatchRun::new(entries, policy(true, None));
    let transport = |_: &str| Err("error sending request for url (http://10.255.255.1/)".to_string());
    let seen = drive(run, &transport, &ok_sink);
    assert_eq!(
        seen,
        vec![
            Seen::Sent("http://10.255.255.1/".to_string()),
            Seen::Finished(Err(
                "ERROR: error sending request for url (http://10.255.255.1/)\n".to_string()
            )),
        ]
    );
}

#[test]
fn history_log_gets_stamped_blocks_in_order() {
    let entries = vec![entry("GET", "http://a.test/"), entry("DELETE", "http://b.test/")];
    let run = BatchRun::new(entries, policy(false, Some("history.log")));
    let seen = drive(run, &ok_transport, &ok_sink);
    let texts = [
        "200 OK for GET to http://a.test/\nfine\n",
        "200 OK for DELETE to http://b.test/\nfine\n",
    ];
    let blocks: Vec<&Seen> = seen.iter().filter(|s| matches!(s, Seen::Appended(..))).collect();
    assert_eq!(blocks.len(), 2);
    for (block, text) in blocks.iter().zip(texts) {
        match block {
            Seen::Appended(path, block) => {
                assert_eq!(path, "history.log");
                let (stamp, rest) = block.split_once(" - ").expect("a timestamp prefix");
                assert!(chrono::DateTime::parse_from_rfc3339(stamp).is_ok());
                assert_eq!(rest, format!("{}\n", text));
            }
            _ => unreachable!(),
        }
    }
    assert_eq!(seen.last(), Some(&Seen::Finished(Ok(()))));
    let printed: Vec<&Seen> = seen.iter().filter(|s| matches!(s, Seen::Printed(..))).collect();
    assert_eq!(printed, vec![&Seen::Printed(texts[0].to_string()), &Seen::Printed(texts[1].to_string())]);
}

#[test]
fn failing_entry_is_logged_before_stopping() {
    let entries = vec![entry("PUT", "http://a.test/"), entry("GET", "http://b.test/")];
    let run = BatchRun::new(entries, policy(true, Some("h.log")));
    let seen = drive(run, &ok_transport, &ok_sink);
    assert_eq!(seen.len(), 2);
    match &seen[0] {
        Seen::Appended(_, block) => {
            assert!(block.ends_with(" - ERROR: Invalid method: PUT to http://a.test/\n\n"))
        }
        other => panic!("unexpected {:?}", other),
    }
    assert_eq!(
        seen[1],
        Seen::Finished(Err("ERROR: Invalid method: PUT to http://a.test/\n".to_string()))
    );
}

#[test]
fn log_failure_aborts_batch() {
    let entries = vec![entry("GET", "http://a.test/"), entry("GET", "http://b.test/")];
    let run = BatchRun::new(entries, policy(false, Some("h.log")));
    let sink = |_: usize| Err("permission denied".to_string());
    let seen = drive(run, &ok_transport, &sink);
    assert_eq!(seen.len(), 3);
    assert_eq!(seen[0], Seen::Sent("http://a.test/".to_string()));
    assert!(matches!(seen[1], Seen::Appended(..)));
    assert_eq!(
        seen[2],
        Seen::Finished(Err("Error logging to file h.log: permission denied".to_string()))
    );
}

#[test]
fn empty_run_finishes_at_once() {
    let run = BatchRun::new(Vec::new(), policy(true, Some("h.log")));
    let seen = drive(run, &ok_transport, &ok_sink);
    assert_eq!(seen, vec![Seen::Finished(Ok(()))]);
}

#[test]
fn post_entry_sends_its_body() {
    let entries = vec![RawEntry {
        url: "http://a.test/items".to_string(),
        method: "POST".to_string(),
        body: Some("{\"k\":1}".to_string()),
    }];
    let mut run = BatchRun::new(entries, policy(false, None));
    match run.step(BatchEvent::Proceed) {
        BatchAction::Send(out) => assert_eq!(out.body.as_deref(), Some("{\"k\":1}")),
        _ => panic!("expected a request"),
    }
    assert!(!run.accepts(&BatchEvent::Proceed));
    assert!(run.accepts(&BatchEvent::Sent(Err(String::new()))));
}
