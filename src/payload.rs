//! The trigger payload sent to the CI endpoint, how it is built from a review
//! event, and its JSON form.
use vstd::prelude::*;
use crate::json::{Json, get_member, get_string, lemma_find_member_at, member, string_of};
use crate::event::{EventView, ReviewEvent, Source};

verus! {

/// Settings of the relay, read once at start-up.
#[derive(Clone, Debug)]
pub struct Config {
    /// Where trigger payloads are sent.
    pub service_addr: String,
    /// The address the relay listens on.
    pub listen_addr: String,
    /// Base of the clone URL of Gerrit projects.
    pub gerrit_clone_url: String,
    pub gerrit_feedback_url: String,
    pub gerrit_feedback_port: String,
    /// Base of the Gitea API.
    pub gitea_api_url: String,
    /// Base of the clone URL of Gitea repositories.
    pub gitea_clone_url: String,
}

/// What the CI endpoint is asked to build.
#[derive(Clone, Debug, PartialEq, Eq)]
pub struct TriggerPayload {
    pub commit: String,
    pub clone_url: String,
    pub feedback_url: String,
    pub feedback_port: String,
}

pub struct PayloadView {
    pub commit: Seq<char>,
    pub clone_url: Seq<char>,
    pub feedback_url: Seq<char>,
    pub feedback_port: Seq<char>,
}

impl View for TriggerPayload {
    type V = PayloadView;

    open spec fn view(&self) -> PayloadView {
        PayloadView {
            commit: self.commit@,
            clone_url: self.clone_url@,
            feedback_url: self.feedback_url@,
            feedback_port: self.feedback_port@,
        }
    }
}

/// The clone URL base configured for a source.
pub open spec fn clone_base(config: Config, source: Source) -> Seq<char> {
    match source {
        Source::Gerrit => config.gerrit_clone_url@,
        Source::Gitea => config.gitea_clone_url@,
    }
}

/// The payload for an event: the revision as the commit,
/// `{base}/{project}` as the clone URL, and the configured feedback target.
pub open spec fn built_payload(e: EventView, config: Config) -> PayloadView {
    PayloadView {
        commit: e.revision,
        clone_url: clone_base(config, e.source) + "/"@ + e.project,
        feedback_url: config.gerrit_feedback_url@,
        feedback_port: config.gerrit_feedback_port@,
    }
}

/// Builds the trigger payload for an event.
pub fn build(event: &ReviewEvent, config: &Config) -> (r: TriggerPayload)
    ensures
        r@ == built_payload(event@, *config),
{
    let mut clone_url = match event.source {
        Source::Gerrit => config.gerrit_clone_url.clone(),
        Source::Gitea => config.gitea_clone_url.clone(),
    };
    clone_url.append("/");
    clone_url.append(event.project.as_str());
    TriggerPayload {
        commit: event.revision.clone(),
        clone_url,
        feedback_url: config.gerrit_feedback_url.clone(),
        feedback_port: config.gerrit_feedback_port.clone(),
    }
}

/// A member named `key` whose value is the string `value`.
pub open spec fn member_is(m: (String, Json), key: Seq<char>, value: Seq<char>) -> bool {
    m.0@ == key && string_of(Some(m.1)) == Some(value)
}

/// `j` is the JSON object
/// `{"commit":..,"clone_url":..,"feedback_url":..,"feedback_port":..}` of `p`.
pub open spec fn encodes(j: Json, p: PayloadView) -> bool {
    match j {
        Json::Object(f) => {
            &&& f@.len() == 4
            &&& member_is(f@[0], "commit"@, p.commit)
            &&& member_is(f@[1], "clone_url"@, p.clone_url)
            &&& member_is(f@[2], "feedback_url"@, p.feedback_url)
            &&& member_is(f@[3], "feedback_port"@, p.feedback_port)
        },
        _ => false,
    }
}

/// The payload that a JSON value holds: its four members, each a string.
pub open spec fn decoded(j: Json) -> Option<PayloadView> {
    let commit = string_of(member(j, "commit"@));
    let clone_url = string_of(member(j, "clone_url"@));
    let feedback_url = string_of(member(j, "feedback_url"@));
    let feedback_port = string_of(member(j, "feedback_port"@));
    if commit is Some && clone_url is Some && feedback_url is Some && feedback_port is Some {
        Some(
            PayloadView {
                commit: commit->0,
                clone_url: clone_url->0,
                feedback_url: feedback_url->0,
                feedback_port: feedback_port->0,
            },
        )
    } else {
        None
    }
}

impl TriggerPayload {
    /// The payload as a JSON object.
    pub fn to_json(&self) -> (r: Json)
        ensures
            encodes(r, self@),
    {
        let fields: Vec<(String, Json)> = vec![
            (String::from_str("commit"), Json::Str(self.commit.clone())),
            (String::from_str("clone_url"), Json::Str(self.clone_url.clone())),
            (String::from_str("feedback_url"), Json::Str(self.feedback_url.clone())),
            (String::from_str("feedback_port"), Json::Str(self.feedback_port.clone())),
        ];
        Json::Object(fields)
    }

    /// Reads a payload back from JSON; `None` unless all four members are
    /// strings.
    pub fn from_json(j: &Json) -> (r: Option<TriggerPayload>)
        ensures
            match r {
                Some(p) => decoded(*j) == Some(p@),
                None => decoded(*j) is None,
            },
    {
        let commit = get_string(get_member(Some(j), "commit"));
        let clone_url = get_string(get_member(Some(j), "clone_url"));
        let feedback_url = get_string(get_member(Some(j), "feedback_url"));
        let feedback_port = get_string(get_member(Some(j), "feedback_port"));
        match (commit, clone_url, feedback_url, feedback_port) {
            (Some(commit), Some(clone_url), Some(feedback_url), Some(feedback_port)) => Some(
                TriggerPayload { commit, clone_url, feedback_url, feedback_port },
            ),
            _ => None,
        }
    }
}

/// Reading back the JSON form of a payload gives the same four fields.
pub proof fn lemma_payload_round_trip(p: PayloadView, j: Json)
    requires
        encodes(j, p),
    ensures
        decoded(j) == Some(p),
{
    reveal_strlit("commit");
    reveal_strlit("clone_url");
    reveal_strlit("feedback_url");
    reveal_strlit("feedback_port");
    let f = j->Object_0@;
    assert("commit"@ != "clone_url"@ && "commit"@ != "feedback_url"@ && "commit"@ != "feedback_port"@) by {
        assert("commit"@.len() != "clone_url"@.len());
        assert("commit"@[1] != "feedback_url"@[1]);
        assert("commit"@[1] != "feedback_port"@[1]);
    }
    assert("clone_url"@ != "feedback_url"@ && "clone_url"@ != "feedback_port"@) by {
        assert("clone_url"@[1] != "feedback_url"@[1]);
        assert("clone_url"@[1] != "feedback_port"@[1]);
    }
    assert("feedback_url"@ != "feedback_port"@) by {
        assert("feedback_url"@.len() != "feedback_port"@.len());
    }
    lemma_find_member_at(f, "commit"@, 0);
    lemma_find_member_at(f, "clone_url"@, 1);
    lemma_find_member_at(f, "feedback_url"@, 2);
    lemma_find_member_at(f, "feedback_port"@, 3);
}

} // verus!
