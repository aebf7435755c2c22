//! The Gitea adapter. A Gitea pull-request comment does not carry the commit
//! to build: the caller fetches the pull request's commits from the Gitea API
//! at `commits_url` and hands the result back.
use vstd::prelude::*;
use crate::json::{Json, get_member, get_string, member, member_opt, str_eq, string_of};
use crate::event::{
    AdaptError, EventKind, EventView, Field, ReviewEvent, Source, event_result_view, present,
    required_field, string_field,
};

verus! {

/// The fields that a Gitea pull-request comment webhook carries.
#[derive(Debug)]
pub struct GiteaComment {
    pub comment_body: String,
    pub issue_id: String,
    pub owner: String,
    pub name: String,
    pub ssh_url: String,
}

pub struct GiteaCommentView {
    pub comment_body: Seq<char>,
    pub issue_id: Seq<char>,
    pub owner: Seq<char>,
    pub name: Seq<char>,
    pub ssh_url: Seq<char>,
}

impl View for GiteaComment {
    type V = GiteaCommentView;

    open spec fn view(&self) -> GiteaCommentView {
        GiteaCommentView {
            comment_body: self.comment_body@,
            issue_id: self.issue_id@,
            owner: self.owner@,
            name: self.name@,
            ssh_url: self.ssh_url@,
        }
    }
}

pub open spec fn str_opt_view(s: Option<&str>) -> Option<Seq<char>> {
    match s {
        Some(t) => Some(t@),
        None => None,
    }
}

pub open spec fn gitea_body(body: Json) -> Option<Seq<char>> {
    string_of(member_opt(member(body, "comment"@), "body"@))
}

pub open spec fn gitea_issue_id(body: Json) -> Option<Seq<char>> {
    string_of(member_opt(member(body, "issue"@), "id"@))
}

pub open spec fn gitea_owner(body: Json) -> Option<Seq<char>> {
    string_of(member_opt(member_opt(member(body, "issue"@), "repository"@), "owner"@))
}

pub open spec fn gitea_name(body: Json) -> Option<Seq<char>> {
    string_of(member_opt(member_opt(member(body, "issue"@), "repository"@), "name"@))
}

pub open spec fn gitea_ssh_url(body: Json) -> Option<Seq<char>> {
    string_of(member_opt(member(body, "repository"@), "ssh_url"@))
}

/// The comment that a Gitea webhook describes, given its body and the value
/// of its `x-gitea-event-type` header.
pub open spec fn gitea_comment(body: Json, event_type: Option<Seq<char>>) -> Result<
    GiteaCommentView,
    AdaptError,
> {
    if event_type != Some("pull_request_comment"@) {
        Err(AdaptError::WrongEventType)
    } else if !present(gitea_body(body)) {
        Err(AdaptError::MissingField(Field::CommentBody))
    } else if gitea_issue_id(body) is None {
        Err(AdaptError::MissingField(Field::IssueId))
    } else if gitea_owner(body) is None {
        Err(AdaptError::MissingField(Field::IssueRepositoryOwner))
    } else if gitea_name(body) is None {
        Err(AdaptError::MissingField(Field::IssueRepositoryName))
    } else if gitea_ssh_url(body) is None {
        Err(AdaptError::MissingField(Field::RepositorySshUrl))
    } else {
        Ok(
            GiteaCommentView {
                comment_body: gitea_body(body)->0,
                issue_id: gitea_issue_id(body)->0,
                owner: gitea_owner(body)->0,
                name: gitea_name(body)->0,
                ssh_url: gitea_ssh_url(body)->0,
            },
        )
    }
}

pub open spec fn comment_result_view(r: Result<GiteaComment, AdaptError>) -> Result<
    GiteaCommentView,
    AdaptError,
> {
    match r {
        Ok(c) => Ok(c@),
        Err(x) => Err(x),
    }
}

/// Reads a Gitea webhook: the header must announce a pull-request comment,
/// and the body must hold `comment.body`, `issue.id`,
/// `issue.repository.owner`, `issue.repository.name` and
/// `repository.ssh_url`, each a string; the comment body must not be empty.
pub fn adapt_gitea(body: &Json, event_type: Option<&str>) -> (r: Result<GiteaComment, AdaptError>)
    ensures
        comment_result_view(r) == gitea_comment(*body, str_opt_view(event_type)),
{
    let right_type = match event_type {
        Some(t) => str_eq(t, "pull_request_comment"),
        None => false,
    };
    if !right_type {
        return Err(AdaptError::WrongEventType);
    }
    let comment_body = match required_field(
        get_member(get_member(Some(body), "comment"), "body"),
        Field::CommentBody,
    ) {
        Ok(s) => s,
        Err(e) => return Err(e),
    };
    let issue_id = match string_field(
        get_member(get_member(Some(body), "issue"), "id"),
        Field::IssueId,
    ) {
        Ok(s) => s,
        Err(e) => return Err(e),
    };
    let repository = get_member(get_member(Some(body), "issue"), "repository");
    let owner = match string_field(get_member(repository, "owner"), Field::IssueRepositoryOwner) {
        Ok(s) => s,
        Err(e) => return Err(e),
    };
    let name = match string_field(get_member(repository, "name"), Field::IssueRepositoryName) {
        Ok(s) => s,
        Err(e) => return Err(e),
    };
    let ssh_url = match string_field(
        get_member(get_member(Some(body), "repository"), "ssh_url"),
        Field::RepositorySshUrl,
    ) {
        Ok(s) => s,
        Err(e) => return Err(e),
    };
    Ok(GiteaComment { comment_body, issue_id, owner, name, ssh_url })
}

/// `{api}/repos/{owner}/{name}/pulls/{id}/commits`.
pub open spec fn commits_url_of(api: Seq<char>, c: GiteaCommentView) -> Seq<char> {
    api + "/repos/"@ + c.owner + "/"@ + c.name + "/pulls/"@ + c.issue_id + "/commits"@
}

/// `{owner}/{name}`.
pub open spec fn project_of(c: GiteaCommentView) -> Seq<char> {
    c.owner + "/"@ + c.name
}

/// The comment event, once the revision to build is known. An empty
/// comment or revision is a missing field.
pub open spec fn gitea_event(c: GiteaCommentView, revision: Seq<char>) -> Result<EventView, AdaptError> {
    if c.comment_body.len() == 0 {
        Err(AdaptError::MissingField(Field::CommentBody))
    } else if revision.len() == 0 {
        Err(AdaptError::MissingField(Field::Revision))
    } else {
        Ok(
            EventView {
                event_kind: EventKind::CommentAdded,
                project: project_of(c),
                revision,
                comment_text: c.comment_body,
                source: Source::Gitea,
            },
        )
    }
}

/// The revision at the head of a pull request, read from the list of its
/// commits that the Gitea API gives (oldest first): the `sha` of the last
/// entry.
pub open spec fn head_revision_of(commits: Json) -> Option<Seq<char>> {
    match commits {
        Json::Array(items) => if items@.len() > 0 {
            string_of(member(items@.last(), "sha"@))
        } else {
            None
        },
        _ => None,
    }
}

impl GiteaComment {
    /// The Gitea API address that lists the commits of the pull request.
    pub fn commits_url(&self, api_base: &str) -> (r: String)
        ensures
            r@ == commits_url_of(api_base@, self@),
    {
        let mut r = String::from_str(api_base);
        r.append("/repos/");
        r.append(self.owner.as_str());
        r.append("/");
        r.append(self.name.as_str());
        r.append("/pulls/");
        r.append(self.issue_id.as_str());
        r.append("/commits");
        r
    }

    /// The review event of this comment, given the revision to build.
    pub fn into_event(&self, revision: &str) -> (r: Result<ReviewEvent, AdaptError>)
        ensures
            event_result_view(r) == gitea_event(self@, revision@),
            r is Ok ==> r->Ok_0@.wf(),
    {
        if self.comment_body.as_str().unicode_len() == 0 {
            return Err(AdaptError::MissingField(Field::CommentBody));
        }
        if revision.unicode_len() == 0 {
            return Err(AdaptError::MissingField(Field::Revision));
        }
        let mut project = self.owner.clone();
        project.append("/");
        project.append(self.name.as_str());
        proof {
            reveal_strlit("/");
        }
        Ok(
            ReviewEvent {
                event_kind: EventKind::CommentAdded,
                project,
                revision: String::from_str(revision),
                comment_text: self.comment_body.clone(),
                source: Source::Gitea,
            },
        )
    }
}

/// The head revision of a pull request, from the commit list of the Gitea API.
pub fn head_revision(commits: &Json) -> (r: Option<String>)
    ensures
        match r {
            Some(s) => head_revision_of(*commits) == Some(s@),
            None => head_revision_of(*commits) is None,
        },
{
    match commits {
        Json::Array(items) => {
            if items.len() == 0 {
                return None;
            }
            get_string(get_member(Some(&items[items.len() - 1]), "sha"))
        },
        _ => None,
    }
}

} // verus!
