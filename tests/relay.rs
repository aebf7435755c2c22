use hook_bot::event::{adapt_gerrit, AdaptError, EventKind, Field, ReviewEvent, Source};
use hook_bot::gitea::{adapt_gitea, head_revision, GiteaComment};
use hook_bot::json::Json;
use hook_bot::payload::{build, Config, TriggerPayload};
use hook_bot::relay::{
    gerrit_step, gitea_after_lookup, gitea_step, status_after_dispatch, DispatchOutcome,
    GiteaStep, Status, Step,
};
use hook_bot::trigger::{comment_requests_check, should_trigger};

fn s(v: &str) -> Json {
    Json::Str(v.to_string())
}

fn obj(members: Vec<(&str, Json)>) -> Json {
    Json::Object(members.into_iter().map(|(k, v)| (k.to_string(), v)).collect())
}

fn gerrit_body(ty: &str, comment: &str) -> Json {
    obj(vec![
        ("type", s(ty)),
        ("change", obj(vec![("project", s("repo1"))])),
        ("patchSet", obj(vec![("revision", s("deadbeef"))])),
        ("comment", s(comment)),
    ])
}

fn config() -> Config {
    Config {
        service_addr: "http://ci.example:8080".to_string(),
        listen_addr: "0.0.0.0:3000".to_string(),
        gerrit_clone_url: "https://gerrit.example".to_string(),
        gerrit_feedback_url: "http://feedback.example".to_string(),
        gerrit_feedback_port: "29418".to_string(),
        gitea_api_url: "https://gitea.example/api/v1".to_string(),
        gitea_clone_url: "https://gitea.example".to_string(),
    }
}

fn event(kind: EventKind, text: &str) -> ReviewEvent {
    ReviewEvent {
        event_kind: kind,
        project: "p".to_string(),
        revision: "abc123".to_string(),
        comment_text: text.to_string(),
        source: Source::Gerrit,
    }
}

#[test]
fn scenario_comment_with_marker_is_dispatched() {
    let body = gerrit_body("comment-added", "looks good\n\\check");
    match gerrit_step(&body, &config()) {
        Step::Dispatch(p) => {
            assert_eq!(p.clone_url, "https://gerrit.example/repo1");
            assert_eq!(p.commit, "deadbeef");
            assert_eq!(p.feedback_url, "http://feedback.example");
            assert_eq!(p.feedback_port, "29418");
        }
        other => panic!("expected a dispatch, got {:?}", other),
    }
    assert_eq!(status_after_dispatch(DispatchOutcome::Accepted).code(), 200);
}

#[test]
fn scenario_deleted_comment_is_refused() {
    let body = gerrit_body("comment-deleted", "looks good\n\\check");
    match gerrit_step(&body, &config()) {
        Step::Respond(st) => {
            assert_eq!(st, Status::BadRequest);
            assert_eq!(st.code(), 400);
        }
        other => panic!("expected a response, got {:?}", other),
    }
}

#[test]
fn scenario_marker_not_on_last_line() {
    let body = gerrit_body("comment-added", "\\check\nactually wait");
    let ev = adapt_gerrit(&body).unwrap();
    assert!(!should_trigger(&ev));
    match gerrit_step(&body, &config()) {
        Step::Respond(st) => assert_eq!(st.code(), 200),
        other => panic!("expected a response, got {:?}", other),
    }
}

#[test]
fn scenario_transport_failure_is_server_error() {
    let st = status_after_dispatch(DispatchOutcome::TransportFailure);
    assert_eq!(st, Status::InternalServerError);
    assert_eq!(st.code(), 500);
}

#[test]
fn gerrit_fields_are_copied() {
    let body = gerrit_body("comment-added", "first\nsecond \\check");
    let ev = adapt_gerrit(&body).unwrap();
    assert_eq!(ev.event_kind, EventKind::CommentAdded);
    assert_eq!(ev.project, "repo1");
    assert_eq!(ev.revision, "deadbeef");
    assert_eq!(ev.comment_text, "first\nsecond \\check");
    assert_eq!(ev.source, Source::Gerrit);
}

#[test]
fn gerrit_other_type_gives_unknown_event() {
    let body = gerrit_body("change-merged", "\\check");
    let ev = adapt_gerrit(&body).unwrap();
    assert_eq!(ev.event_kind, EventKind::Unknown);
    assert_eq!(ev.project, "");
    assert!(!should_trigger(&ev));
}

#[test]
fn gerrit_missing_type_gives_unknown_event() {
    let body = obj(vec![("comment", s("\\check"))]);
    let ev = adapt_gerrit(&body).unwrap();
    assert_eq!(ev.event_kind, EventKind::Unknown);
    match gerrit_step(&body, &config()) {
        Step::Respond(st) => assert_eq!(st, Status::BadRequest),
        other => panic!("expected a response, got {:?}", other),
    }
}

#[test]
fn gerrit_non_object_body_gives_unknown_event() {
    let ev = adapt_gerrit(&Json::Array(vec![s("comment-added")])).unwrap();
    assert_eq!(ev.event_kind, EventKind::Unknown);
}

#[test]
fn gerrit_missing_fields() {
    let no_project = obj(vec![
        ("type", s("comment-added")),
        ("patchSet", obj(vec![("revision", s("deadbeef"))])),
        ("comment", s("\\check")),
    ]);
    assert_eq!(
        adapt_gerrit(&no_project).unwrap_err(),
        AdaptError::MissingField(Field::ChangeProject)
    );
    let revision_not_string = obj(vec![
        ("type", s("comment-added")),
        ("change", obj(vec![("project", s("repo1"))])),
        ("patchSet", obj(vec![("revision", Json::Number("12".to_string()))])),
        ("comment", s("\\check")),
    ]);
    assert_eq!(
        adapt_gerrit(&revision_not_string).unwrap_err(),
        AdaptError::MissingField(Field::PatchSetRevision)
    );
    let no_comment = obj(vec![
        ("type", s("comment-added")),
        ("change", obj(vec![("project", s("repo1"))])),
        ("patchSet", obj(vec![("revision", s("deadbeef"))])),
        ("comment", Json::Null),
    ]);
    assert_eq!(
        adapt_gerrit(&no_comment).unwrap_err(),
        AdaptError::MissingField(Field::Comment)
    );
    let empty_comment = gerrit_body("comment-added", "");
    assert_eq!(
        adapt_gerrit(&empty_comment).unwrap_err(),
        AdaptError::MissingField(Field::Comment)
    );
    match gerrit_step(&no_project, &config()) {
        Step::Respond(st) => assert_eq!(st, Status::BadRequest),
        other => panic!("expected a response, got {:?}", other),
    }
}

#[test]
fn marker_on_last_line_triggers() {
    assert!(comment_requests_check("\\check"));
    assert!(comment_requests_check("please \\check this"));
    assert!(comment_requests_check("a\nb\n\\check"));
    assert!(comment_requests_check("a\n\\check\n"));
    assert!(comment_requests_check("a\r\n\\check\r\n"));
    assert!(should_trigger(&event(EventKind::CommentAdded, "ok\n\\check")));
}

#[test]
fn marker_elsewhere_does_not_trigger() {
    assert!(!comment_requests_check(""));
    assert!(!comment_requests_check("\n"));
    assert!(!comment_requests_check("check"));
    assert!(!comment_requests_check("\\chec"));
    assert!(!comment_requests_check("\\check\nnope"));
    assert!(!comment_requests_check("\\check\n\n"));
    assert!(!should_trigger(&event(EventKind::Unknown, "\\check")));
    assert!(!should_trigger(&event(EventKind::CommentAdded, "")));
}

#[test]
fn build_joins_base_and_project() {
    let mut ev = event(EventKind::CommentAdded, "\\check");
    let p = build(&ev, &config());
    assert_eq!(p.clone_url, "https://gerrit.example/p");
    assert_eq!(p.commit, "abc123");
    ev.source = Source::Gitea;
    ev.project = "o/n".to_string();
    let q = build(&ev, &config());
    assert_eq!(q.clone_url, "https://gitea.example/o/n");
}

#[test]
fn adapt_and_build_twice_agree() {
    let body = gerrit_body("comment-added", "looks good\n\\check");
    let p1 = build(&adapt_gerrit(&body).unwrap(), &config());
    let p2 = build(&adapt_gerrit(&body).unwrap(), &config());
    assert_eq!(p1, p2);
}

#[test]
fn payload_json_round_trip() {
    let p = TriggerPayload {
        commit: "abc123".to_string(),
        clone_url: "https://host/p".to_string(),
        feedback_url: "http://fb".to_string(),
        feedback_port: "8080".to_string(),
    };
    let j = p.to_json();
    match &j {
        Json::Object(members) => {
            let keys: Vec<&str> = members.iter().map(|(k, _)| k.as_str()).collect();
            assert_eq!(keys, vec!["commit", "clone_url", "feedback_url", "feedback_port"]);
        }
        other => panic!("expected an object, got {:?}", other),
    }
    assert_eq!(TriggerPayload::from_json(&j), Some(p));
}

#[test]
fn payload_from_json_needs_all_members() {
    let j = obj(vec![
        ("commit", s("abc")),
        ("clone_url", s("u")),
        ("feedback_url", s("f")),
    ]);
    assert_eq!(TriggerPayload::from_json(&j), None);
    let k = obj(vec![
        ("feedback_port", s("1")),
        ("feedback_url", s("f")),
        ("clone_url", s("u")),
        ("commit", s("abc")),
        ("extra", Json::Bool(true)),
    ]);
    let p = TriggerPayload::from_json(&k).unwrap();
    assert_eq!(p.commit, "abc");
    assert_eq!(p.feedback_port, "1");
}

fn gitea_body(comment: &str) -> Json {
    obj(vec![
        ("comment", obj(vec![("body", s(comment))])),
        (
            "issue",
            obj(vec![
                ("id", s("7")),
                (
                    "repository",
                    obj(vec![("owner", s("o")), ("name", s("n"))]),
                ),
            ]),
        ),
        ("repository", obj(vec![("ssh_url", s("git@gitea.example:o/n.git"))])),
    ])
}

fn gitea_comment() -> GiteaComment {
    adapt_gitea(&gitea_body("fine\n\\check"), Some("pull_request_comment")).unwrap()
}

#[test]
fn gitea_fields_are_read() {
    let c = gitea_comment();
    assert_eq!(c.comment_body, "fine\n\\check");
    assert_eq!(c.issue_id, "7");
    assert_eq!(c.owner, "o");
    assert_eq!(c.name, "n");
    assert_eq!(c.ssh_url, "git@gitea.example:o/n.git");
}

#[test]
fn gitea_wrong_header_is_refused() {
    let body = gitea_body("\\check");
    assert_eq!(adapt_gitea(&body, None).unwrap_err(), AdaptError::WrongEventType);
    assert_eq!(
        adapt_gitea(&body, Some("pull_request")).unwrap_err(),
        AdaptError::WrongEventType
    );
    match gitea_step(&body, Some("issue_comment"), &config()) {
        GiteaStep::Respond(st) => assert_eq!(st, Status::BadRequest),
        other => panic!("expected a response, got {:?}", other),
    }
}

#[test]
fn gitea_missing_fields() {
    let body = obj(vec![("comment", obj(vec![("body", s("\\check"))]))]);
    assert_eq!(
        adapt_gitea(&body, Some("pull_request_comment")).unwrap_err(),
        AdaptError::MissingField(Field::IssueId)
    );
    let no_body = obj(vec![]);
    assert_eq!(
        adapt_gitea(&no_body, Some("pull_request_comment")).unwrap_err(),
        AdaptError::MissingField(Field::CommentBody)
    );
}

#[test]
fn gitea_commits_url_and_event() {
    let c = gitea_comment();
    assert_eq!(
        c.commits_url("https://gitea.example/api/v1"),
        "https://gitea.example/api/v1/repos/o/n/pulls/7/commits"
    );
    let ev = c.into_event("cafe").unwrap();
    assert_eq!(ev.project, "o/n");
    assert_eq!(ev.revision, "cafe");
    assert_eq!(ev.source, Source::Gitea);
    assert_eq!(c.into_event("").unwrap_err(), AdaptError::MissingField(Field::Revision));
}

#[test]
fn gitea_head_revision_is_last_commit() {
    let list = Json::Array(vec![
        obj(vec![("sha", s("first"))]),
        obj(vec![("sha", s("second"))]),
    ]);
    assert_eq!(head_revision(&list), Some("second".to_string()));
    assert_eq!(head_revision(&Json::Array(vec![])), None);
    assert_eq!(head_revision(&obj(vec![("sha", s("x"))])), None);
}

#[test]
fn gitea_flow_dispatches_after_lookup() {
    let body = gitea_body("fine\n\\check");
    let step = gitea_step(&body, Some("pull_request_comment"), &config());
    let (url, comment) = match step {
        GiteaStep::FetchCommits { url, comment } => (url, comment),
        other => panic!("expected a lookup, got {:?}", other),
    };
    assert_eq!(url, "https://gitea.example/api/v1/repos/o/n/pulls/7/commits");
    let list = Json::Array(vec![obj(vec![("sha", s("beef"))])]);
    match gitea_after_lookup(&comment, Some(&list), &config()) {
        Step::Dispatch(p) => {
            assert_eq!(p.commit, "beef");
            assert_eq!(p.clone_url, "https://gitea.example/o/n");
        }
        other => panic!("expected a dispatch, got {:?}", other),
    }
    match gitea_after_lookup(&comment, None, &config()) {
        Step::Respond(st) => assert_eq!(st, Status::InternalServerError),
        other => panic!("expected a response, got {:?}", other),
    }
}

#[test]
fn gitea_comment_without_marker_is_acknowledged() {
    let body = gitea_body("\\check\nlater");
    match gitea_step(&body, Some("pull_request_comment"), &config()) {
        GiteaStep::Respond(st) => assert_eq!(st, Status::Success),
        other => panic!("expected a response, got {:?}", other),
    }
}

#[test]
fn gitea_missing_repository_fields() {
    let no_owner = obj(vec![
        ("comment", obj(vec![("body", s("\\check"))])),
        ("issue", obj(vec![("id", s("7")), ("repository", obj(vec![("name", s("n"))]))])),
        ("repository", obj(vec![("ssh_url", s("git@h:o/n.git"))])),
    ]);
    assert_eq!(
        adapt_gitea(&no_owner, Some("pull_request_comment")).unwrap_err(),
        AdaptError::MissingField(Field::IssueRepositoryOwner)
    );
    let no_name = obj(vec![
        ("comment", obj(vec![("body", s("\\check"))])),
        ("issue", obj(vec![("id", s("7")), ("repository", obj(vec![("owner", s("o"))]))])),
        ("repository", obj(vec![("ssh_url", s("git@h:o/n.git"))])),
    ]);
    assert_eq!(
        adapt_gitea(&no_name, Some("pull_request_comment")).unwrap_err(),
        AdaptError::MissingField(Field::IssueRepositoryName)
    );
    let no_url = obj(vec![
        ("comment", obj(vec![("body", s("\\check"))])),
        (
            "issue",
            obj(vec![("id", s("7")), ("repository", obj(vec![("owner", s("o")), ("name", s("n"))]))]),
        ),
    ]);
    assert_eq!(
        adapt_gitea(&no_url, Some("pull_request_comment")).unwrap_err(),
        AdaptError::MissingField(Field::RepositorySshUrl)
    );
}

#[test]
fn gitea_empty_strings_are_present() {
    let body = obj(vec![
        ("comment", obj(vec![("body", s("fine\n\\check"))])),
        (
            "issue",
            obj(vec![("id", s("")), ("repository", obj(vec![("owner", s("")), ("name", s("n"))]))]),
        ),
        ("repository", obj(vec![("ssh_url", s(""))])),
    ]);
    let c = adapt_gitea(&body, Some("pull_request_comment")).unwrap();
    assert_eq!(c.ssh_url, "");
    assert_eq!(c.owner, "");
    let (url, comment) = match gitea_step(&body, Some("pull_request_comment"), &config()) {
        GiteaStep::FetchCommits { url, comment } => (url, comment),
        other => panic!("expected a lookup, got {:?}", other),
    };
    assert_eq!(url, "https://gitea.example/api/v1/repos//n/pulls//commits");
    let list = Json::Array(vec![obj(vec![("sha", s("beef"))])]);
    match gitea_after_lookup(&comment, Some(&list), &config()) {
        Step::Dispatch(p) => assert_eq!(p.clone_url, "https://gitea.example//n"),
        other => panic!("expected a dispatch, got {:?}", other),
    }
    let quiet = obj(vec![
        ("comment", obj(vec![("body", s("no marker"))])),
        ("issue", obj(vec![("id", s("")), ("repository", obj(vec![("owner", s("")), ("name", s(""))]))])),
        ("repository", obj(vec![("ssh_url", s(""))])),
    ]);
    match gitea_step(&quiet, Some("pull_request_comment"), &config()) {
        GiteaStep::Respond(st) => assert_eq!(st, Status::Success),
        other => panic!("expected a response, got {:?}", other),
    }
}

#[test]
fn gitea_empty_comment_body_is_missing() {
    let body = gitea_body("");
    assert_eq!(
        adapt_gitea(&body, Some("pull_request_comment")).unwrap_err(),
        AdaptError::MissingField(Field::CommentBody)
    );
}

#[test]
fn gitea_empty_head_revision_is_refused() {
    let list = Json::Array(vec![obj(vec![("sha", s(""))])]);
    match gitea_after_lookup(&gitea_comment(), Some(&list), &config()) {
        Step::Respond(st) => assert_eq!(st, Status::BadRequest),
        other => panic!("expected a response, got {:?}", other),
    }
}
