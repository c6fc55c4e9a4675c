use condfetch::fetch::{HeaderError, Timestamp};
use condfetch::period::Duration;
use condfetch::pipeline::{Action, Event, Failure, Outcome, Pipeline, Stage};

fn at(secs: i64) -> Timestamp {
    Timestamp { secs, nanos: 0 }
}

#[test]
fn full_download_with_server_time() {
    let mut p = Pipeline::new(None, vec!["Accept: */*".to_string()]);
    assert_eq!(p.step(Event::Began { mtime: None, now: at(2_000_000_000) }), Action::CreateStaging);
    assert_eq!(
        p.step(Event::StagingReady),
        Action::SendRequest(vec![("Accept".to_string(), "*/*".to_string())])
    );
    assert_eq!(
        p.step(Event::Answered {
            status: 200,
            last_modified: Some("Wed, 21 Oct 2015 07:28:00 GMT".to_string())
        }),
        Action::CopyBody
    );
    assert_eq!(p.step(Event::BodySaved), Action::SetModifiedTime(at(1445412480)));
    assert_eq!(p.step(Event::Stamped), Action::ReplaceDestination);
    assert_eq!(p.step(Event::Replaced), Action::Finish(Outcome::Downloaded));
    assert_eq!(p.stage, Stage::Finished);
}

#[test]
fn download_without_server_time_skips_stamping() {
    let mut p = Pipeline::new(None, vec![]);
    p.step(Event::Began { mtime: None, now: at(10) });
    p.step(Event::StagingReady);
    assert_eq!(
        p.step(Event::Answered { status: 204, last_modified: Some("garbage".to_string()) }),
        Action::CopyBody
    );
    assert_eq!(p.step(Event::BodySaved), Action::ReplaceDestination);
}

#[test]
fn second_run_is_not_modified() {
    let mtime = at(1445412480);
    let mut p = Pipeline::new(None, vec![]);
    assert_eq!(p.step(Event::Began { mtime: Some(mtime), now: at(1_500_000_000) }), Action::CreateStaging);
    assert_eq!(
        p.step(Event::StagingReady),
        Action::SendRequest(vec![(
            "If-Modified-Since".to_string(),
            "Wed, 21 Oct 2015 07:28:00 +0000".to_string()
        )])
    );
    assert_eq!(
        p.step(Event::Answered { status: 304, last_modified: None }),
        Action::Finish(Outcome::NotModified)
    );
    assert_eq!(p.step(Event::Replaced), Action::Ignore);
}

#[test]
fn young_file_is_not_fetched() {
    let mut p = Pipeline::new(Some(Duration { secs: 60 }), vec![]);
    assert_eq!(
        p.step(Event::Began { mtime: Some(at(990)), now: at(1000) }),
        Action::Finish(Outcome::Fresh)
    );
    assert_eq!(p.stage, Stage::Finished);
}

#[test]
fn interrupted_copy_never_replaces() {
    let mut p = Pipeline::new(None, vec![]);
    p.step(Event::Began { mtime: Some(at(5)), now: at(10) });
    p.step(Event::StagingReady);
    p.step(Event::Answered { status: 200, last_modified: None });
    assert_eq!(p.step(Event::BodyFailed), Action::Abort(Failure::Body));
    for ev in [Event::BodySaved, Event::Stamped, Event::Replaced, Event::StagingReady] {
        assert_eq!(p.step(ev), Action::Ignore);
    }
    assert_eq!(p.stage, Stage::Failed);
}

#[test]
fn bad_header_aborts_before_request() {
    let mut p = Pipeline::new(None, vec!["Foobar".to_string()]);
    p.step(Event::Began { mtime: None, now: at(10) });
    assert_eq!(
        p.step(Event::StagingReady),
        Action::Abort(Failure::Header(HeaderError { text: "Foobar".to_string() }))
    );
}

#[test]
fn error_statuses_abort() {
    for (status, failure) in [
        (301u16, Failure::Redirect(301)),
        (404, Failure::Status(404)),
        (503, Failure::Status(503)),
        (700, Failure::Unrecognized(700)),
    ] {
        let mut p = Pipeline::new(None, vec![]);
        p.step(Event::Began { mtime: None, now: at(10) });
        p.step(Event::StagingReady);
        assert_eq!(p.step(Event::Answered { status, last_modified: None }), Action::Abort(failure));
        assert_eq!(p.stage, Stage::Failed);
    }
}

#[test]
fn other_failures_abort() {
    let mut p = Pipeline::new(None, vec![]);
    p.step(Event::Began { mtime: None, now: at(10) });
    assert_eq!(p.step(Event::StagingFailed), Action::Abort(Failure::Staging));

    let mut q = Pipeline::new(None, vec![]);
    q.step(Event::Began { mtime: None, now: at(10) });
    q.step(Event::StagingReady);
    assert_eq!(q.step(Event::TransportFailed), Action::Abort(Failure::Transport));

    let mut r = Pipeline::new(None, vec![]);
    r.step(Event::Began { mtime: None, now: at(10) });
    r.step(Event::StagingReady);
    r.step(Event::Answered { status: 200, last_modified: None });
    r.step(Event::BodySaved);
    assert_eq!(r.step(Event::ReplaceFailed), Action::Abort(Failure::Rename));
}
