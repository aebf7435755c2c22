//! The canonical review event and the per-source adapters that read it out of
//! a webhook body.
use vstd::prelude::*;
use crate::json::{Json, member, member_opt, string_of, deref_opt, get_member, get_string, str_eq};

verus! {

#[derive(Clone, Copy, Debug, PartialEq, Eq, Structural)]
pub enum EventKind {
    CommentAdded,
    Unknown,
}

#[derive(Clone, Copy, Debug, PartialEq, Eq, Structural)]
pub enum Source {
    Gerrit,
    Gitea,
}

/// A field of a webhook body, named by its path.
#[derive(Clone, Copy, Debug, PartialEq, Eq, Structural)]
pub enum Field {
    ChangeProject,
    PatchSetRevision,
    Comment,
    CommentBody,
    IssueId,
    IssueRepositoryOwner,
    IssueRepositoryName,
    RepositorySshUrl,
    Revision,
}

#[derive(Clone, Copy, Debug, PartialEq, Eq, Structural)]
pub enum AdaptError {
    /// A required field is absent or is not a string, or is empty where the
    /// event carries it as its project, revision or comment text.
    MissingField(Field),
    /// The request does not announce a pull-request comment.
    WrongEventType,
}

/// A review event, independent of the tool that sent it.
#[derive(Debug)]
pub struct ReviewEvent {
    pub event_kind: EventKind,
    pub project: String,
    pub revision: String,
    pub comment_text: String,
    pub source: Source,
}

pub struct EventView {
    pub event_kind: EventKind,
    pub project: Seq<char>,
    pub revision: Seq<char>,
    pub comment_text: Seq<char>,
    pub source: Source,
}

impl View for ReviewEvent {
    type V = EventView;

    open spec fn view(&self) -> EventView {
        EventView {
            event_kind: self.event_kind,
            project: self.project@,
            revision: self.revision@,
            comment_text: self.comment_text@,
            source: self.source,
        }
    }
}

impl EventView {
    /// A comment event carries a project, a revision and a comment text.
    pub open spec fn wf(self) -> bool {
        self.event_kind == EventKind::CommentAdded ==> {
            &&& self.project.len() > 0
            &&& self.revision.len() > 0
            &&& self.comment_text.len() > 0
        }
    }
}

pub open spec fn event_result_view(r: Result<ReviewEvent, AdaptError>) -> Result<EventView, AdaptError> {
    match r {
        Ok(e) => Ok(e@),
        Err(x) => Err(x),
    }
}

/// The event that only says that something other than a comment happened.
pub open spec fn unknown_event(source: Source) -> EventView {
    EventView {
        event_kind: EventKind::Unknown,
        project: Seq::empty(),
        revision: Seq::empty(),
        comment_text: Seq::empty(),
        source,
    }
}

/// A required field: present, a string, and not empty.
pub open spec fn present(s: Option<Seq<char>>) -> bool {
    s is Some && s->0.len() > 0
}

pub open spec fn gerrit_type(body: Json) -> Option<Seq<char>> {
    string_of(member(body, "type"@))
}

pub open spec fn gerrit_project(body: Json) -> Option<Seq<char>> {
    string_of(member_opt(member(body, "change"@), "project"@))
}

pub open spec fn gerrit_revision(body: Json) -> Option<Seq<char>> {
    string_of(member_opt(member(body, "patchSet"@), "revision"@))
}

pub open spec fn gerrit_comment(body: Json) -> Option<Seq<char>> {
    string_of(member(body, "comment"@))
}

/// The event that a Gerrit webhook body describes.
pub open spec fn gerrit_event(body: Json) -> Result<EventView, AdaptError> {
    if gerrit_type(body) != Some("comment-added"@) {
        Ok(unknown_event(Source::Gerrit))
    } else if !present(gerrit_project(body)) {
        Err(AdaptError::MissingField(Field::ChangeProject))
    } else if !present(gerrit_revision(body)) {
        Err(AdaptError::MissingField(Field::PatchSetRevision))
    } else if !present(gerrit_comment(body)) {
        Err(AdaptError::MissingField(Field::Comment))
    } else {
        Ok(
            EventView {
                event_kind: EventKind::CommentAdded,
                project: gerrit_project(body)->0,
                revision: gerrit_revision(body)->0,
                comment_text: gerrit_comment(body)->0,
                source: Source::Gerrit,
            },
        )
    }
}

/// The string at `j`, which must be present and not empty.
pub fn required_field(j: Option<&Json>, field: Field) -> (r: Result<String, AdaptError>)
    ensures
        match r {
            Ok(s) => present(string_of(deref_opt(j))) && string_of(deref_opt(j)) == Some(s@),
            Err(e) => !present(string_of(deref_opt(j))) && e == AdaptError::MissingField(field),
        },
{
    match get_string(j) {
        Some(s) => {
            if s.as_str().unicode_len() == 0 {
                Err(AdaptError::MissingField(field))
            } else {
                Ok(s)
            }
        },
        None => Err(AdaptError::MissingField(field)),
    }
}

/// The string at `j`, which must be present.
pub fn string_field(j: Option<&Json>, field: Field) -> (r: Result<String, AdaptError>)
    ensures
        match r {
            Ok(s) => string_of(deref_opt(j)) == Some(s@),
            Err(e) => string_of(deref_opt(j)) is None && e == AdaptError::MissingField(field),
        },
{
    match get_string(j) {
        Some(s) => Ok(s),
        None => Err(AdaptError::MissingField(field)),
    }
}

/// Reads a Gerrit webhook body. A body whose `type` is not `comment-added`
/// gives an event of unknown kind; a comment event needs `change.project`,
/// `patchSet.revision` and `comment`, each a non-empty string.
pub fn adapt_gerrit(body: &Json) -> (r: Result<ReviewEvent, AdaptError>)
    ensures
        event_result_view(r) == gerrit_event(*body),
        r is Ok ==> r->Ok_0@.wf(),
{
    let ty = get_string(get_member(Some(body), "type"));
    let is_comment = match &ty {
        Some(t) => str_eq(t.as_str(), "comment-added"),
        None => false,
    };
    if !is_comment {
        return Ok(
            ReviewEvent {
                event_kind: EventKind::Unknown,
                project: String::new(),
                revision: String::new(),
                comment_text: String::new(),
                source: Source::Gerrit,
            },
        );
    }
    let project = match required_field(
        get_member(get_member(Some(body), "change"), "project"),
        Field::ChangeProject,
    ) {
        Ok(s) => s,
        Err(e) => return Err(e),
    };
    let revision = match required_field(
        get_member(get_member(Some(body), "patchSet"), "revision"),
        Field::PatchSetRevision,
    ) {
        Ok(s) => s,
        Err(e) => return Err(e),
    };
    let comment_text = match required_field(get_member(Some(body), "comment"), Field::Comment) {
        Ok(s) => s,
        Err(e) => return Err(e),
    };
    Ok(
        ReviewEvent {
            event_kind: EventKind::CommentAdded,
            project,
            revision,
            comment_text,
            source: Source::Gerrit,
        },
    )
}

} // verus!
