//! The decisions of the relay for one webhook request: what to answer, and
//! when to send a trigger payload (or, for Gitea, first look up the commit).
//! The caller performs the network work and reports back.
use vstd::prelude::*;
use crate::json::Json;
use crate::event::{
    AdaptError, EventKind, EventView, ReviewEvent, adapt_gerrit, event_result_view, gerrit_comment,
    gerrit_event, gerrit_project, gerrit_revision, gerrit_type, present,
};
use crate::gitea::{
    GiteaComment, GiteaCommentView, adapt_gitea, commits_url_of, gitea_comment, gitea_event,
    head_revision, head_revision_of, str_opt_view,
};
use crate::payload::{Config, PayloadView, TriggerPayload, build, built_payload};
use crate::trigger::{comment_requests_check, requests_check, should_trigger, triggers};

verus! {

/// The HTTP status returned to the review tool.
#[derive(Clone, Copy, Debug, PartialEq, Eq, Structural)]
pub enum Status {
    Success,
    BadRequest,
    InternalServerError,
}

pub open spec fn status_code(s: Status) -> u16 {
    match s {
        Status::Success => 200,
        Status::BadRequest => 400,
        Status::InternalServerError => 500,
    }
}

impl Status {
    /// The numeric HTTP status code.
    pub fn code(&self) -> (r: u16)
        ensures
            r == status_code(*self),
    {
        match self {
            Status::Success => 200,
            Status::BadRequest => 400,
            Status::InternalServerError => 500,
        }
    }
}

/// How an outbound call ended: the HTTP exchange completed, or it did not
/// (connection refused, timeout, name resolution).
#[derive(Clone, Copy, Debug, PartialEq, Eq, Structural)]
pub enum DispatchOutcome {
    Accepted,
    TransportFailure,
}

/// What to do next with a request.
#[derive(Debug)]
pub enum Step {
    /// Answer with this status; nothing is sent.
    Respond(Status),
    /// Send this payload to the CI endpoint, then answer by the outcome.
    Dispatch(TriggerPayload),
}

pub enum StepView {
    Respond(Status),
    Dispatch(PayloadView),
}

pub open spec fn step_view(s: Step) -> StepView {
    match s {
        Step::Respond(st) => StepView::Respond(st),
        Step::Dispatch(p) => StepView::Dispatch(p@),
    }
}

/// The step for an adapted event: a malformed request or one that is not a
/// comment is refused; a comment without the marker is acknowledged; a
/// comment with it is dispatched.
pub open spec fn step_for_event(e: Result<EventView, AdaptError>, config: Config) -> StepView {
    match e {
        Err(_) => StepView::Respond(Status::BadRequest),
        Ok(ev) => if ev.event_kind == EventKind::Unknown {
            StepView::Respond(Status::BadRequest)
        } else if !triggers(ev) {
            StepView::Respond(Status::Success)
        } else {
            StepView::Dispatch(built_payload(ev, config))
        },
    }
}

/// The step for a Gerrit webhook body.
pub open spec fn gerrit_step_of(body: Json, config: Config) -> StepView {
    step_for_event(gerrit_event(body), config)
}

/// The status once the payload was sent.
pub open spec fn dispatched_status(o: DispatchOutcome) -> Status {
    match o {
        DispatchOutcome::Accepted => Status::Success,
        DispatchOutcome::TransportFailure => Status::InternalServerError,
    }
}

fn step_for(e: Result<ReviewEvent, AdaptError>, config: &Config) -> (r: Step)
    ensures
        step_view(r) == step_for_event(event_result_view(e), *config),
{
    match e {
        Err(_) => Step::Respond(Status::BadRequest),
        Ok(ev) => {
            if ev.event_kind == EventKind::Unknown {
                Step::Respond(Status::BadRequest)
            } else if !should_trigger(&ev) {
                Step::Respond(Status::Success)
            } else {
                Step::Dispatch(build(&ev, config))
            }
        },
    }
}

/// Decides what to do with a Gerrit webhook body.
pub fn gerrit_step(body: &Json, config: &Config) -> (r: Step)
    ensures
        step_view(r) == gerrit_step_of(*body, *config),
{
    step_for(adapt_gerrit(body), config)
}

/// The status answered once the payload was sent.
pub fn status_after_dispatch(outcome: DispatchOutcome) -> (r: Status)
    ensures
        r == dispatched_status(outcome),
{
    match outcome {
        DispatchOutcome::Accepted => Status::Success,
        DispatchOutcome::TransportFailure => Status::InternalServerError,
    }
}

/// What to do first with a Gitea webhook.
#[derive(Debug)]
pub enum GiteaStep {
    /// Answer with this status; nothing is fetched or sent.
    Respond(Status),
    /// Fetch the pull request's commits from `url`, then continue with
    /// `gitea_after_lookup`.
    FetchCommits { url: String, comment: GiteaComment },
}

pub enum GiteaStepView {
    Respond(Status),
    FetchCommits { url: Seq<char>, comment: GiteaCommentView },
}

pub open spec fn gitea_step_view(s: GiteaStep) -> GiteaStepView {
    match s {
        GiteaStep::Respond(st) => GiteaStepView::Respond(st),
        GiteaStep::FetchCommits { url, comment } => GiteaStepView::FetchCommits {
            url: url@,
            comment: comment@,
        },
    }
}

/// The first step for a Gitea webhook: refuse a malformed request,
/// acknowledge a comment without the marker, else look up the commit.
pub open spec fn gitea_step_of(body: Json, event_type: Option<Seq<char>>, config: Config) -> GiteaStepView {
    match gitea_comment(body, event_type) {
        Err(_) => GiteaStepView::Respond(Status::BadRequest),
        Ok(c) => if !requests_check(c.comment_body) {
            GiteaStepView::Respond(Status::Success)
        } else {
            GiteaStepView::FetchCommits {
                url: commits_url_of(config.gitea_api_url@, c),
                comment: c,
            }
        },
    }
}

/// The step after the commit lookup, given the commit list it returned
/// (`None` when the lookup failed): without a head revision the request
/// fails; with one, the comment is handled as any other event, so an empty
/// revision is a missing field.
pub open spec fn gitea_after_lookup_of(c: GiteaCommentView, commits: Option<Json>, config: Config) -> StepView {
    match commits {
        None => StepView::Respond(Status::InternalServerError),
        Some(list) => match head_revision_of(list) {
            None => StepView::Respond(Status::InternalServerError),
            Some(rev) => step_for_event(gitea_event(c, rev), config),
        },
    }
}

/// Decides what to do first with a Gitea webhook, given its body and the
/// value of its `x-gitea-event-type` header.
pub fn gitea_step(body: &Json, event_type: Option<&str>, config: &Config) -> (r: GiteaStep)
    ensures
        gitea_step_view(r) == gitea_step_of(*body, str_opt_view(event_type), *config),
{
    match adapt_gitea(body, event_type) {
        Err(_) => GiteaStep::Respond(Status::BadRequest),
        Ok(comment) => {
            if !comment_requests_check(comment.comment_body.as_str()) {
                GiteaStep::Respond(Status::Success)
            } else {
                let url = comment.commits_url(config.gitea_api_url.as_str());
                GiteaStep::FetchCommits { url, comment }
            }
        },
    }
}

/// Decides what to do with a Gitea comment once its commits were looked up.
pub fn gitea_after_lookup(comment: &GiteaComment, commits: Option<&Json>, config: &Config) -> (r: Step)
    ensures
        step_view(r) == gitea_after_lookup_of(
            comment@,
            match commits {
                Some(j) => Some(*j),
                None => None,
            },
            *config,
        ),
{
    let list = match commits {
        Some(j) => j,
        None => return Step::Respond(Status::InternalServerError),
    };
    let rev = match head_revision(list) {
        Some(s) => s,
        None => return Step::Respond(Status::InternalServerError),
    };
    step_for(comment.into_event(rev.as_str()), config)
}

/// A well-formed Gerrit comment body gives an event whose project, revision
/// and comment text are exactly the strings at `change.project`,
/// `patchSet.revision` and `comment`.
pub proof fn lemma_gerrit_fields_copied(body: Json)
    requires
        gerrit_type(body) == Some("comment-added"@),
        present(gerrit_project(body)),
        present(gerrit_revision(body)),
        present(gerrit_comment(body)),
    ensures
        gerrit_event(body) is Ok,
        gerrit_event(body)->Ok_0.event_kind == EventKind::CommentAdded,
        Some(gerrit_event(body)->Ok_0.project) == gerrit_project(body),
        Some(gerrit_event(body)->Ok_0.revision) == gerrit_revision(body),
        Some(gerrit_event(body)->Ok_0.comment_text) == gerrit_comment(body),
{
}

/// A Gerrit body whose `type` is not `comment-added` never triggers, and is
/// answered with Bad Request without anything being sent.
pub proof fn lemma_other_types_rejected(body: Json, config: Config)
    requires
        gerrit_type(body) != Some("comment-added"@),
    ensures
        gerrit_event(body) is Ok,
        !triggers(gerrit_event(body)->Ok_0),
        gerrit_step_of(body, config) == StepView::Respond(Status::BadRequest),
{
}

/// Adapting the same Gerrit body and building its payload twice gives the
/// same payload.
pub proof fn lemma_build_repeatable(
    body: Json,
    config: Config,
    e1: ReviewEvent,
    e2: ReviewEvent,
    p1: TriggerPayload,
    p2: TriggerPayload,
)
    requires
        gerrit_event(body) == Ok::<EventView, AdaptError>(e1@),
        gerrit_event(body) == Ok::<EventView, AdaptError>(e2@),
        p1@ == built_payload(e1@, config),
        p2@ == built_payload(e2@, config),
    ensures
        p1@ == p2@,
{
}

} // verus!
