//! The fetch pipeline as a state machine. The caller performs each action
//! (reading metadata, creating the staging file, the request, the copy, the
//! rename) and reports what came of it; `Pipeline::step` decides what to do
//! next. Only `Action::ReplaceDestination` touches the destination.

use vstd::prelude::*;

use crate::fetch::{
    classify_status, colon_free, conditional_date, freshness, headers_valid, last_modified, lists_headers,
    reference_time, reports_first_bad, request_headers, rfc2822_instant, rfc2822_of,
    spec_classify, spec_reference_time, spec_skips, FreshnessDecision, HeaderError, StatusClass,
    Timestamp,
};
use crate::period::Duration;

verus! {

#[derive(Clone, Copy, Debug, PartialEq, Eq, Structural)]
pub enum Stage {
    /// Waiting for the destination's metadata.
    Start,
    /// Waiting for the staging file to be created.
    Staging,
    /// Waiting for the server's answer.
    Requesting,
    /// Waiting for the body to be copied into the staging file and flushed.
    Downloading,
    /// Waiting for the staging file's modification time to be set.
    Stamping,
    /// Waiting for the staging file to replace the destination.
    Renaming,
    /// Done: the destination is current.
    Finished,
    /// Stopped on an error; the staging file, if any, is discarded.
    Failed,
}

/// What the caller reports.
#[derive(Clone, Debug)]
pub enum Event {
    /// The destination's modification time, if it exists and has one, and
    /// the time now.
    Began { mtime: Option<Timestamp>, now: Timestamp },
    StagingReady,
    StagingFailed,
    /// The server answered with `status`, and this `Last-Modified` header.
    Answered { status: u16, last_modified: Option<String> },
    TransportFailed,
    /// The whole body is in the staging file, flushed.
    BodySaved,
    BodyFailed,
    /// Setting the staging file's modification time was attempted; its
    /// failure is not fatal.
    Stamped,
    Replaced,
    ReplaceFailed,
}

/// How a run ended well.
#[derive(Clone, Copy, Debug, PartialEq, Eq)]
pub enum Outcome {
    /// The destination is younger than the minimum age.
    Fresh,
    /// The server reported the resource unchanged.
    NotModified,
    /// The destination was replaced with the download.
    Downloaded,
}

/// Why a run stopped.
#[derive(Clone, Debug, PartialEq, Eq)]
pub enum Failure {
    Staging,
    Header(HeaderError),
    Transport,
    /// A redirection other than 304, with its status.
    Redirect(u16),
    /// A client or server error, with its status.
    Status(u16),
    /// A status outside the known ranges.
    Unrecognized(u16),
    Body,
    Rename,
}

/// What the caller is to do next.
#[derive(Clone, Debug, PartialEq, Eq)]
pub enum Action {
    CreateStaging,
    /// Send the GET request with these headers, in order.
    SendRequest(Vec<(String, String)>),
    /// Copy the body into the staging file and flush it.
    CopyBody,
    /// Set the staging file's modification time.
    SetModifiedTime(Timestamp),
    /// Rename the staging file onto the destination.
    ReplaceDestination,
    /// Stop successfully; a staging file, if any, is discarded.
    Finish(Outcome),
    /// Stop with an error; a staging file, if any, is discarded.
    Abort(Failure),
    /// The event does not belong to this stage; nothing is to be done.
    Ignore,
}

pub struct Pipeline {
    pub stage: Stage,
    pub min_age: Option<Duration>,
    /// The `Name: value` lines to send.
    pub raw_headers: Vec<String>,
    pub reference: Option<Timestamp>,
    pub server_time: Option<Timestamp>,
}

pub open spec fn spec_last_modified(h: Option<String>) -> Option<Timestamp> {
    match h {
        Some(h) => match rfc2822_instant(h@) {
            Some((secs, nanos)) => Some(Timestamp { secs, nanos }),
            None => None,
        },
        None => None,
    }
}

pub open spec fn with_stage(p: Pipeline, s: Stage) -> Pipeline {
    Pipeline { stage: s, ..p }
}

/// The pipeline after `ev`.
pub open spec fn next_state(p: Pipeline, ev: Event) -> Pipeline {
    match (p.stage, ev) {
        (Stage::Start, Event::Began { mtime, now }) => {
            let rt = spec_reference_time(mtime, now);
            Pipeline {
                stage: if spec_skips(rt, p.min_age, now) {
                    Stage::Finished
                } else {
                    Stage::Staging
                },
                reference: rt,
                ..p
            }
        },
        (Stage::Staging, Event::StagingReady) => with_stage(
            p,
            if headers_valid(p.raw_headers@) {
                Stage::Requesting
            } else {
                Stage::Failed
            },
        ),
        (Stage::Staging, Event::StagingFailed) => with_stage(p, Stage::Failed),
        (Stage::Requesting, Event::Answered { status, last_modified }) => match spec_classify(
            status,
        ) {
            StatusClass::Success => Pipeline {
                stage: Stage::Downloading,
                server_time: spec_last_modified(last_modified),
                ..p
            },
            StatusClass::NotModified => with_stage(p, Stage::Finished),
            _ => with_stage(p, Stage::Failed),
        },
        (Stage::Requesting, Event::TransportFailed) => with_stage(p, Stage::Failed),
        (Stage::Downloading, Event::BodySaved) => with_stage(
            p,
            if p.server_time is Some {
                Stage::Stamping
            } else {
                Stage::Renaming
            },
        ),
        (Stage::Downloading, Event::BodyFailed) => with_stage(p, Stage::Failed),
        (Stage::Stamping, Event::Stamped) => with_stage(p, Stage::Renaming),
        (Stage::Renaming, Event::Replaced) => with_stage(p, Stage::Finished),
        (Stage::Renaming, Event::ReplaceFailed) => with_stage(p, Stage::Failed),
        _ => p,
    }
}

/// `a` is what the pipeline `p` asks for after `ev`.
pub open spec fn action_fits(p: Pipeline, ev: Event, a: Action) -> bool {
    match (p.stage, ev) {
        (Stage::Start, Event::Began { mtime, now }) => if spec_skips(
            spec_reference_time(mtime, now),
            p.min_age,
            now,
        ) {
            a == Action::Finish(Outcome::Fresh)
        } else {
            a == Action::CreateStaging
        },
        (Stage::Staging, Event::StagingReady) => match a {
            Action::SendRequest(hs) => headers_valid(p.raw_headers@) && lists_headers(
                conditional_date(p.reference),
                p.raw_headers@,
                hs@,
            ),
            Action::Abort(Failure::Header(e)) => reports_first_bad(p.raw_headers@, e),
            _ => false,
        },
        (Stage::Staging, Event::StagingFailed) => a == Action::Abort(Failure::Staging),
        (Stage::Requesting, Event::Answered { status, last_modified }) => match spec_classify(
            status,
        ) {
            StatusClass::Success => a == Action::CopyBody,
            StatusClass::NotModified => a == Action::Finish(Outcome::NotModified),
            StatusClass::RedirectOther => a == Action::Abort(Failure::Redirect(status)),
            StatusClass::ClientOrServerError => a == Action::Abort(Failure::Status(status)),
            StatusClass::Unrecognized => a == Action::Abort(Failure::Unrecognized(status)),
        },
        (Stage::Requesting, Event::TransportFailed) => a == Action::Abort(Failure::Transport),
        (Stage::Downloading, Event::BodySaved) => match p.server_time {
            Some(t) => a == Action::SetModifiedTime(t),
            None => a == Action::ReplaceDestination,
        },
        (Stage::Downloading, Event::BodyFailed) => a == Action::Abort(Failure::Body),
        (Stage::Stamping, Event::Stamped) => a == Action::ReplaceDestination,
        (Stage::Renaming, Event::Replaced) => a == Action::Finish(Outcome::Downloaded),
        (Stage::Renaming, Event::ReplaceFailed) => a == Action::Abort(Failure::Rename),
        _ => a == Action::Ignore,
    }
}

/// The pipeline after each of `evs` in turn.
pub open spec fn run(p: Pipeline, evs: Seq<Event>) -> Pipeline
    decreases evs.len(),
{
    if evs.len() == 0 {
        p
    } else {
        run(next_state(p, evs[0]), evs.skip(1))
    }
}

/// A failed pipeline stays failed, whatever happens after.
pub proof fn lemma_failed_stays_failed(p: Pipeline, evs: Seq<Event>)
    requires
        p.stage == Stage::Failed,
    ensures
        run(p, evs) == p,
    decreases evs.len(),
{
    if evs.len() > 0 {
        lemma_failed_stays_failed(next_state(p, evs[0]), evs.skip(1));
    }
}

/// When the copy of the body fails, the pipeline fails, and no event after
/// that leads it to replace the destination: every later action is ignored.
pub proof fn lemma_interrupted_copy_keeps_destination(p: Pipeline, evs: Seq<Event>)
    requires
        p.stage == Stage::Downloading,
    ensures
        action_fits(p, Event::BodyFailed, Action::Abort(Failure::Body)),
        forall|k: int|
            #![trigger evs.take(k)]
            0 <= k < evs.len() ==> {
                let q = run(next_state(p, Event::BodyFailed), evs.take(k));
                &&& q.stage == Stage::Failed
                &&& forall|a: Action| #[trigger] action_fits(q, evs[k], a) ==> a == Action::Ignore
            },
{
    let f = next_state(p, Event::BodyFailed);
    assert forall|k: int|
        #![trigger evs.take(k)]
        0 <= k < evs.len() implies {
            let q = run(f, evs.take(k));
            &&& q.stage == Stage::Failed
            &&& forall|a: Action| #[trigger] action_fits(q, evs[k], a) ==> a == Action::Ignore
        } by {
        lemma_failed_stays_failed(f, evs.take(k));
    }
}

/// A run against a destination whose modification time `t` is in the past
/// and can be written as an HTTP date, with no minimum age: the request is
/// conditional on `t`, and when the server answers 304 the run finishes as
/// not modified, with nothing downloaded and the destination untouched.
pub proof fn lemma_unchanged_resource_not_refetched(
    p: Pipeline,
    t: Timestamp,
    now: Timestamp,
    last_modified: Option<String>,
)
    requires
        p.stage == Stage::Start,
        p.min_age is None,
        t.spec_nanos() < now.spec_nanos(),
        t.spec_http_representable(),
        headers_valid(p.raw_headers@),
    ensures
        ({
            let began = Event::Began { mtime: Some(t), now };
            let answer = Event::Answered { status: 304, last_modified };
            let p1 = next_state(p, began);
            let p2 = next_state(p1, Event::StagingReady);
            let p3 = next_state(p2, answer);
            &&& action_fits(p, began, Action::CreateStaging)
            &&& forall|a: Action| #[trigger]
                action_fits(p1, Event::StagingReady, a) ==> match a {
                    Action::SendRequest(hs) => lists_headers(
                        Some(rfc2822_of(t.secs, t.nanos)),
                        p.raw_headers@,
                        hs@,
                    ),
                    _ => false,
                }
            &&& forall|a: Action| #[trigger]
                action_fits(p2, answer, a) ==> a == Action::Finish(Outcome::NotModified)
            &&& p3.stage == Stage::Finished
        }),
{
    let began = Event::Began { mtime: Some(t), now };
    let p1 = next_state(p, began);
    assert(p1.reference == Some(t));
    assert forall|a: Action| #[trigger] action_fits(p1, Event::StagingReady, a) implies match a {
        Action::SendRequest(hs) => lists_headers(
            Some(rfc2822_of(t.secs, t.nanos)),
            p.raw_headers@,
            hs@,
        ),
        _ => false,
    } by {
        match a {
            Action::Abort(Failure::Header(e)) => {
                let i = choose|i: int|
                    0 <= i < p.raw_headers@.len() && colon_free(#[trigger] p.raw_headers@[i]@)
                        && e.text@ == p.raw_headers@[i]@ && forall|j: int|
                        0 <= j < i ==> !colon_free(#[trigger] p.raw_headers@[j]@);
                assert(!colon_free(p.raw_headers@[i]@));
            },
            _ => {},
        }
    }
}

impl Pipeline {
    /// A pipeline at its start.
    pub fn new(min_age: Option<Duration>, raw_headers: Vec<String>) -> (r: Pipeline)
        ensures
            r.stage == Stage::Start,
            r.min_age == min_age,
            r.raw_headers == raw_headers,
            r.reference is None,
            r.server_time is None,
    {
        Pipeline { stage: Stage::Start, min_age, raw_headers, reference: None, server_time: None }
    }

    /// Takes in what came of the last action and says what to do next.
    pub fn step(&mut self, ev: Event) -> (a: Action)
        ensures
            *final(self) == next_state(*old(self), ev),
            action_fits(*old(self), ev, a),
    {
        match (self.stage, ev) {
            (Stage::Start, Event::Began { mtime, now }) => {
                let rt = reference_time(mtime, now);
                self.reference = rt;
                match freshness(rt, self.min_age, now) {
                    FreshnessDecision::Skip => {
                        self.stage = Stage::Finished;
                        Action::Finish(Outcome::Fresh)
                    },
                    FreshnessDecision::Proceed => {
                        self.stage = Stage::Staging;
                        Action::CreateStaging
                    },
                }
            },
            (Stage::Staging, Event::StagingReady) => {
                match request_headers(self.reference, &self.raw_headers) {
                    Ok(hs) => {
                        self.stage = Stage::Requesting;
                        Action::SendRequest(hs)
                    },
                    Err(e) => {
                        self.stage = Stage::Failed;
                        Action::Abort(Failure::Header(e))
                    },
                }
            },
            (Stage::Staging, Event::StagingFailed) => {
                self.stage = Stage::Failed;
                Action::Abort(Failure::Staging)
            },
            (Stage::Requesting, Event::Answered { status, last_modified: lm }) => {
                match classify_status(status) {
                    StatusClass::Success => {
                        let st = match lm {
                            Some(h) => last_modified(Some(h.as_str())),
                            None => None,
                        };
                        self.server_time = st;
                        self.stage = Stage::Downloading;
                        Action::CopyBody
                    },
                    StatusClass::NotModified => {
                        self.stage = Stage::Finished;
                        Action::Finish(Outcome::NotModified)
                    },
                    StatusClass::RedirectOther => {
                        self.stage = Stage::Failed;
                        Action::Abort(Failure::Redirect(status))
                    },
                    StatusClass::ClientOrServerError => {
                        self.stage = Stage::Failed;
                        Action::Abort(Failure::Status(status))
                    },
                    StatusClass::Unrecognized => {
                        self.stage = Stage::Failed;
                        Action::Abort(Failure::Unrecognized(status))
                    },
                }
            },
            (Stage::Requesting, Event::TransportFailed) => {
                self.stage = Stage::Failed;
                Action::Abort(Failure::Transport)
            },
            (Stage::Downloading, Event::BodySaved) => {
                match self.server_time {
                    Some(t) => {
                        self.stage = Stage::Stamping;
                        Action::SetModifiedTime(t)
                    },
                    None => {
                        self.stage = Stage::Renaming;
                        Action::ReplaceDestination
                    },
                }
            },
            (Stage::Downloading, Event::BodyFailed) => {
                self.stage = Stage::Failed;
                Action::Abort(Failure::Body)
            },
            (Stage::Stamping, Event::Stamped) => {
                self.stage = Stage::Renaming;
                Action::ReplaceDestination
            },
            (Stage::Renaming, Event::Replaced) => {
                self.stage = Stage::Finished;
                Action::Finish(Outcome::Downloaded)
            },
            (Stage::Renaming, Event::ReplaceFailed) => {
                self.stage = Stage::Failed;
                Action::Abort(Failure::Rename)
            },
            _ => Action::Ignore,
        }
    }
}

} // verus!
