//! Event classification: from a raw (event name, JSON body) pair to a typed
//! event.
//!
//! Pull-request payloads are decoded strictly, keyed by their `action`
//! field; an unrecognized action decodes to the `Other` variant rather than
//! failing, since GitHub adds new actions over time.  Any other event name
//! is kept as an `Unknown` event with its parsed payload.  Only a body that
//! is not well-formed JSON, or a recognized action with missing parts, is a
//! parse error.
//!
//! The JSON work is serde_json's, behind trusted accessors that each read
//! one field of the body text; their results are named, so the classifier's
//! contracts say, for every body, when decoding succeeds and which payload
//! values the decoded event carries.

use vstd::prelude::*;

use crate::chars::str_eq;

verus! {

#[verifier::external_type_specification]
#[verifier::external_body]
pub struct ExJsonValue(serde_json::Value);

#[verifier::external_type_specification]
#[verifier::external_body]
pub struct ExJsonError(serde_json::Error);

/// A label on a pull request.
#[derive(Debug)]
pub struct Label {
    pub id: u64,
    pub name: String,
}

/// One end of a compare range.
#[derive(Debug)]
pub struct Commit {
    pub sha: String,
    pub ref_name: Option<String>,
    pub label: Option<String>,
}

/// The pull request facts carried in a webhook payload.
#[derive(Debug)]
pub struct PullRequest {
    pub id: u64,
    pub number: u64,
    pub title: String,
    pub labels: Vec<Label>,
    pub head: Commit,
    pub base: Commit,
}

/// The repository a webhook delivery concerns.
#[derive(Debug)]
pub struct Repository {
    pub id: u64,
    pub name: String,
    pub full_name: String,
    pub url: String,
}

/// The App installation a webhook delivery belongs to.
#[derive(Debug)]
pub struct Installation {
    pub id: u64,
}

/// A pull-request event, keyed by the payload's `action` field.  Actions the
/// policy does not care about land in `Other`.
#[derive(Debug)]
pub enum PullRequestEvent {
    Labeled { label: Label, pull_request: PullRequest, repository: Repository, installation: Installation },
    Unlabeled { label: Label, pull_request: PullRequest, repository: Repository, installation: Installation },
    Other,
}

/// A classified webhook delivery.
pub enum Event {
    PullRequest(PullRequestEvent),
    Unknown { name: String, payload: serde_json::Value },
}

/// Classification failure: the body was not the structured data it claimed
/// to be.
#[derive(Debug)]
pub enum WebhookError {
    ParseError(serde_json::Error),
}

/// Whether the text is well-formed JSON, as serde_json parses it.
pub uninterp spec fn json_parses(s: Seq<char>) -> bool;

/// The string at key `k1` of the body's top-level object, if the body
/// parses, the key is present, and its value is a string.
pub uninterp spec fn str_at1(s: Seq<char>, k1: Seq<char>) -> Option<Seq<char>>;

/// The string at `k1.k2` of the body.
pub uninterp spec fn str_at2(s: Seq<char>, k1: Seq<char>, k2: Seq<char>) -> Option<Seq<char>>;

/// The string at `k1.k2.k3` of the body.
pub uninterp spec fn str_at3(s: Seq<char>, k1: Seq<char>, k2: Seq<char>, k3: Seq<char>) -> Option<
    Seq<char>,
>;

/// The unsigned integer at `k1.k2` of the body.
pub uninterp spec fn u64_at2(s: Seq<char>, k1: Seq<char>, k2: Seq<char>) -> Option<u64>;

/// The length of the array at `k1.k2` of the body.
pub uninterp spec fn arr_len_at2(s: Seq<char>, k1: Seq<char>, k2: Seq<char>) -> Option<usize>;

/// The string at key `k3` of element `i` of the array at `k1.k2`.
pub uninterp spec fn str_in_arr(
    s: Seq<char>,
    k1: Seq<char>,
    k2: Seq<char>,
    i: usize,
    k3: Seq<char>,
) -> Option<Seq<char>>;

/// The unsigned integer at key `k3` of element `i` of the array at `k1.k2`.
pub uninterp spec fn u64_in_arr(
    s: Seq<char>,
    k1: Seq<char>,
    k2: Seq<char>,
    i: usize,
    k3: Seq<char>,
) -> Option<u64>;

/// Relies on `serde_json::from_str::<Value>`: parses JSON text into a
/// generic value, failing exactly on malformed JSON; defines
/// `json_parses`.
#[verifier::external_body]
fn json_parse(s: &str) -> (r: Result<serde_json::Value, serde_json::Error>)
    ensures
        (r is Ok) <==> json_parses(s@),
{
    serde_json::from_str(s)
}

/// Relies on serde_json (`from_str`, `Value::get`, `Value::as_str`): the
/// string at key `k1` of the body, a function of the text and key alone.
#[verifier::external_body]
fn json_str_1(json: &str, k1: &str) -> (r: Option<String>)
    ensures
        match r {
            Some(v) => str_at1(json@, k1@) == Some(v@),
            None => str_at1(json@, k1@) is None,
        },
{
    let v = match serde_json::from_str::<serde_json::Value>(json) {
        Ok(v) => v,
        Err(_) => return None,
    };
    v.get(k1).and_then(|f| f.as_str()).map(|s| s.to_owned())
}

/// Relies on serde_json (`from_str`, `Value::get`, `Value::as_str`): the
/// string at `k1.k2` of the body.
#[verifier::external_body]
fn json_str_2(json: &str, k1: &str, k2: &str) -> (r: Option<String>)
    ensures
        match r {
            Some(v) => str_at2(json@, k1@, k2@) == Some(v@),
            None => str_at2(json@, k1@, k2@) is None,
        },
{
    let v = match serde_json::from_str::<serde_json::Value>(json) {
        Ok(v) => v,
        Err(_) => return None,
    };
    v.get(k1).and_then(|o| o.get(k2)).and_then(|f| f.as_str()).map(|s| s.to_owned())
}

/// Relies on serde_json (`from_str`, `Value::get`, `Value::as_str`): the
/// string at `k1.k2.k3` of the body.
#[verifier::external_body]
fn json_str_3(json: &str, k1: &str, k2: &str, k3: &str) -> (r: Option<String>)
    ensures
        match r {
            Some(v) => str_at3(json@, k1@, k2@, k3@) == Some(v@),
            None => str_at3(json@, k1@, k2@, k3@) is None,
        },
{
    let v = match serde_json::from_str::<serde_json::Value>(json) {
        Ok(v) => v,
        Err(_) => return None,
    };
    v.get(k1).and_then(|o| o.get(k2)).and_then(|o| o.get(k3)).and_then(|f| f.as_str()).map(
        |s| s.to_owned(),
    )
}

/// Relies on serde_json (`from_str`, `Value::get`, `Value::as_u64`): the
/// unsigned integer at `k1.k2` of the body.
#[verifier::external_body]
fn json_u64_2(json: &str, k1: &str, k2: &str) -> (r: Option<u64>)
    ensures
        r == u64_at2(json@, k1@, k2@),
{
    let v = match serde_json::from_str::<serde_json::Value>(json) {
        Ok(v) => v,
        Err(_) => return None,
    };
    v.get(k1).and_then(|o| o.get(k2)).and_then(|f| f.as_u64())
}

/// Relies on serde_json (`from_str`, `Value::get`, `Value::as_array`): the
/// length of the array at `k1.k2` of the body.
#[verifier::external_body]
fn json_arr_len_2(json: &str, k1: &str, k2: &str) -> (r: Option<usize>)
    ensures
        r == arr_len_at2(json@, k1@, k2@),
{
    let v = match serde_json::from_str::<serde_json::Value>(json) {
        Ok(v) => v,
        Err(_) => return None,
    };
    v.get(k1).and_then(|o| o.get(k2)).and_then(|a| a.as_array()).map(|a| a.len())
}

/// Relies on serde_json (`from_str`, `Value::get` by key and by index,
/// `Value::as_str`): the string at key `k3` of element `i` of the array at
/// `k1.k2`.
#[verifier::external_body]
fn json_str_in_arr(json: &str, k1: &str, k2: &str, i: usize, k3: &str) -> (r: Option<String>)
    ensures
        match r {
            Some(v) => str_in_arr(json@, k1@, k2@, i, k3@) == Some(v@),
            None => str_in_arr(json@, k1@, k2@, i, k3@) is None,
        },
{
    let v = match serde_json::from_str::<serde_json::Value>(json) {
        Ok(v) => v,
        Err(_) => return None,
    };
    v.get(k1).and_then(|o| o.get(k2)).and_then(|a| a.get(i)).and_then(|e| e.get(k3)).and_then(
        |f| f.as_str(),
    ).map(|s| s.to_owned())
}

/// Relies on serde_json (`from_str`, `Value::get` by key and by index,
/// `Value::as_u64`): the unsigned integer at key `k3` of element `i` of the
/// array at `k1.k2`.
#[verifier::external_body]
fn json_u64_in_arr(json: &str, k1: &str, k2: &str, i: usize, k3: &str) -> (r: Option<u64>)
    ensures
        r == u64_in_arr(json@, k1@, k2@, i, k3@),
{
    let v = match serde_json::from_str::<serde_json::Value>(json) {
        Ok(v) => v,
        Err(_) => return None,
    };
    v.get(k1).and_then(|o| o.get(k2)).and_then(|a| a.get(i)).and_then(|e| e.get(k3)).and_then(
        |f| f.as_u64(),
    )
}

/// Relies on `serde::de::Error::custom` for `serde_json::Error`: an error
/// value carrying the given message.
#[verifier::external_body]
fn json_custom_error(msg: &str) -> (r: serde_json::Error) {
    <serde_json::Error as serde::de::Error>::custom(msg)
}

/// The action kinds the classifier distinguishes.
#[derive(Debug, PartialEq, Eq, Structural, Clone, Copy)]
pub enum ActionKind {
    Labeled,
    Unlabeled,
    Other,
}

/// Whether the policy recognizes this action string.
pub open spec fn recognized_action(a: Seq<char>) -> bool {
    a == "labeled"@ || a == "unlabeled"@
}

/// Classify an `action` string, case-sensitively; anything unrecognized is
/// `Other`.
pub fn classify_action(action: &str) -> (k: ActionKind)
    ensures
        k is Labeled <==> action@ == "labeled"@,
        k is Unlabeled <==> action@ == "unlabeled"@,
{
    proof {
        reveal_strlit("labeled");
        reveal_strlit("unlabeled");
        assert("labeled"@.len() == 7);
        assert("unlabeled"@.len() == 9);
    }
    if str_eq(action, "labeled") {
        ActionKind::Labeled
    } else if str_eq(action, "unlabeled") {
        ActionKind::Unlabeled
    } else {
        ActionKind::Other
    }
}

/// Whether the body carries a decodable label object at the top-level
/// `label` key.
pub open spec fn pr_label_ok(s: Seq<char>) -> bool {
    u64_at2(s, "label"@, "id"@) is Some && str_at2(s, "label"@, "name"@) is Some
}

/// Whether `l` holds the body's label values.
pub open spec fn label_from(l: Label, s: Seq<char>) -> bool {
    &&& Some(l.id) == u64_at2(s, "label"@, "id"@)
    &&& Some(l.name@) == str_at2(s, "label"@, "name"@)
}

/// Whether `c` holds the body's values for compare-range end `part`
/// (`head` or `base`) of the pull request.
pub open spec fn commit_from(c: Commit, s: Seq<char>, part: Seq<char>) -> bool {
    &&& Some(c.sha@) == str_at3(s, "pull_request"@, part, "sha"@)
    &&& (match c.ref_name {
        Some(r) => str_at3(s, "pull_request"@, part, "ref"@) == Some(r@),
        None => str_at3(s, "pull_request"@, part, "ref"@) is None,
    })
    &&& (match c.label {
        Some(l) => str_at3(s, "pull_request"@, part, "label"@) == Some(l@),
        None => str_at3(s, "pull_request"@, part, "label"@) is None,
    })
}

/// Whether the body's pull request has a labels array whose every element
/// decodes.
pub open spec fn pr_labels_ok(s: Seq<char>) -> bool {
    match arr_len_at2(s, "pull_request"@, "labels"@) {
        Some(n) => forall|i: usize|
            i < n ==> (#[trigger] u64_in_arr(s, "pull_request"@, "labels"@, i, "id"@)) is Some
                && str_in_arr(s, "pull_request"@, "labels"@, i, "name"@) is Some,
        None => false,
    }
}

/// Whether the body carries a decodable pull request object.
pub open spec fn pr_pull_request_ok(s: Seq<char>) -> bool {
    &&& u64_at2(s, "pull_request"@, "id"@) is Some
    &&& u64_at2(s, "pull_request"@, "number"@) is Some
    &&& str_at2(s, "pull_request"@, "title"@) is Some
    &&& pr_labels_ok(s)
    &&& str_at3(s, "pull_request"@, "head"@, "sha"@) is Some
    &&& str_at3(s, "pull_request"@, "base"@, "sha"@) is Some
}

/// Whether `p` holds the body's pull request values.
pub open spec fn pull_request_from(p: PullRequest, s: Seq<char>) -> bool {
    &&& Some(p.id) == u64_at2(s, "pull_request"@, "id"@)
    &&& Some(p.number) == u64_at2(s, "pull_request"@, "number"@)
    &&& Some(p.title@) == str_at2(s, "pull_request"@, "title"@)
    &&& Some(p.labels@.len() as usize) == arr_len_at2(s, "pull_request"@, "labels"@)
    &&& forall|i: usize|
        i < p.labels@.len() ==> Some(p.labels@[i as int].id) == (#[trigger] u64_in_arr(
            s,
            "pull_request"@,
            "labels"@,
            i,
            "id"@,
        ))
    &&& forall|i: usize|
        i < p.labels@.len() ==> Some(p.labels@[i as int].name@) == (#[trigger] str_in_arr(
            s,
            "pull_request"@,
            "labels"@,
            i,
            "name"@,
        ))
    &&& commit_from(p.head, s, "head"@)
    &&& commit_from(p.base, s, "base"@)
}

/// Whether the body carries a decodable repository object.
pub open spec fn pr_repository_ok(s: Seq<char>) -> bool {
    &&& u64_at2(s, "repository"@, "id"@) is Some
    &&& str_at2(s, "repository"@, "name"@) is Some
    &&& str_at2(s, "repository"@, "full_name"@) is Some
    &&& str_at2(s, "repository"@, "url"@) is Some
}

/// Whether `re` holds the body's repository values.
pub open spec fn repository_from(re: Repository, s: Seq<char>) -> bool {
    &&& Some(re.id) == u64_at2(s, "repository"@, "id"@)
    &&& Some(re.name@) == str_at2(s, "repository"@, "name"@)
    &&& Some(re.full_name@) == str_at2(s, "repository"@, "full_name"@)
    &&& Some(re.url@) == str_at2(s, "repository"@, "url"@)
}

/// Whether the body carries a decodable installation object.
pub open spec fn pr_installation_ok(s: Seq<char>) -> bool {
    u64_at2(s, "installation"@, "id"@) is Some
}

/// Whether `inst` holds the body's installation id.
pub open spec fn installation_from(inst: Installation, s: Seq<char>) -> bool {
    Some(inst.id) == u64_at2(s, "installation"@, "id"@)
}

/// Whether every part a recognized action needs is present in the body.
pub open spec fn pr_parts_ok(s: Seq<char>) -> bool {
    &&& pr_label_ok(s)
    &&& pr_pull_request_ok(s)
    &&& pr_repository_ok(s)
    &&& pr_installation_ok(s)
}

/// When decoding a pull-request body succeeds: it is well-formed JSON with
/// a string `action` field, and if the action is recognized, every part the
/// event needs is present.  An unrecognized action alone never fails.
pub open spec fn pr_decodes(s: Seq<char>) -> bool {
    &&& json_parses(s)
    &&& str_at1(s, "action"@) is Some
    &&& (match str_at1(s, "action"@) {
        Some(a) => recognized_action(a) ==> pr_parts_ok(s),
        None => true,
    })
}

/// What a decoded pull-request event holds for body `s`: `Other` exactly
/// for an unrecognized action, and for `labeled`/`unlabeled` the matching
/// variant carrying the body's own values.
pub open spec fn pr_decode_ok(e: PullRequestEvent, s: Seq<char>) -> bool {
    match str_at1(s, "action"@) {
        None => false,
        Some(a) => {
            if !recognized_action(a) {
                e is Other
            } else {
                match e {
                    PullRequestEvent::Labeled { label, pull_request, repository, installation } => {
                        &&& a == "labeled"@
                        &&& label_from(label, s)
                        &&& pull_request_from(pull_request, s)
                        &&& repository_from(repository, s)
                        &&& installation_from(installation, s)
                    },
                    PullRequestEvent::Unlabeled {
                        label,
                        pull_request,
                        repository,
                        installation,
                    } => {
                        &&& a == "unlabeled"@
                        &&& label_from(label, s)
                        &&& pull_request_from(pull_request, s)
                        &&& repository_from(repository, s)
                        &&& installation_from(installation, s)
                    },
                    PullRequestEvent::Other => false,
                }
            }
        },
    }
}

/// Assemble a pull-request event from a classified action and the decoded
/// parts of the payload.  An unrecognized action always succeeds as
/// `Other`, whatever else the payload held; a recognized action succeeds
/// exactly when every part it needs is present, and carries those parts
/// unchanged.
pub fn build_pr_event(
    kind: ActionKind,
    label: Option<Label>,
    pull_request: Option<PullRequest>,
    repository: Option<Repository>,
    installation: Option<Installation>,
) -> (r: Result<PullRequestEvent, WebhookError>)
    ensures
        kind is Other ==> (r matches Ok(e) && e is Other),
        (kind is Labeled || kind is Unlabeled) && (label is None || pull_request is None
            || repository is None || installation is None) ==> (r matches Err(e) && e
            is ParseError),
        kind is Labeled ==> (label matches Some(l) ==> (pull_request matches Some(p) ==> (
        repository matches Some(re) ==> (installation matches Some(inst) ==> (r matches Ok(e) && e
            == (PullRequestEvent::Labeled {
            label: l,
            pull_request: p,
            repository: re,
            installation: inst,
        })))))),
        kind is Unlabeled ==> (label matches Some(l) ==> (pull_request matches Some(p) ==> (
        repository matches Some(re) ==> (installation matches Some(inst) ==> (r matches Ok(e) && e
            == (PullRequestEvent::Unlabeled {
            label: l,
            pull_request: p,
            repository: re,
            installation: inst,
        })))))),
{
    match kind {
        ActionKind::Other => Ok(PullRequestEvent::Other),
        ActionKind::Labeled => {
            match (label, pull_request, repository, installation) {
                (Some(l), Some(p), Some(re), Some(inst)) => Ok(
                    PullRequestEvent::Labeled {
                        label: l,
                        pull_request: p,
                        repository: re,
                        installation: inst,
                    },
                ),
                _ => Err(
                    WebhookError::ParseError(
                        json_custom_error("pull_request event is missing a required part"),
                    ),
                ),
            }
        },
        ActionKind::Unlabeled => {
            match (label, pull_request, repository, installation) {
                (Some(l), Some(p), Some(re), Some(inst)) => Ok(
                    PullRequestEvent::Unlabeled {
                        label: l,
                        pull_request: p,
                        repository: re,
                        installation: inst,
                    },
                ),
                _ => Err(
                    WebhookError::ParseError(
                        json_custom_error("pull_request event is missing a required part"),
                    ),
                ),
            }
        },
    }
}

/// Decode the label object: id and name are both required.
fn parse_label(json: &str) -> (r: Option<Label>)
    ensures
        (r is Some) <==> pr_label_ok(json@),
        r matches Some(l) ==> label_from(l, json@),
{
    let id = match json_u64_2(json, "label", "id") {
        Some(n) => n,
        None => {
            return None;
        },
    };
    let name = match json_str_2(json, "label", "name") {
        Some(s) => s,
        None => {
            return None;
        },
    };
    Some(Label { id, name })
}

/// Decode one end of the compare range: the sha is required, the ref name
/// and label are optional.
fn parse_commit(json: &str, part: &str) -> (r: Option<Commit>)
    ensures
        (r is Some) <==> str_at3(json@, "pull_request"@, part@, "sha"@) is Some,
        r matches Some(c) ==> commit_from(c, json@, part@),
{
    let sha = match json_str_3(json, "pull_request", part, "sha") {
        Some(s) => s,
        None => {
            return None;
        },
    };
    let ref_name = json_str_3(json, "pull_request", part, "ref");
    let label = json_str_3(json, "pull_request", part, "label");
    Some(Commit { sha, ref_name, label })
}

/// Decode the pull request object: id, number, title, labels, head and
/// base are all required, and every label must decode.
fn parse_pull_request(json: &str) -> (r: Option<PullRequest>)
    ensures
        (r is Some) <==> pr_pull_request_ok(json@),
        r matches Some(p) ==> pull_request_from(p, json@),
{
    let id = match json_u64_2(json, "pull_request", "id") {
        Some(n) => n,
        None => {
            return None;
        },
    };
    let number = match json_u64_2(json, "pull_request", "number") {
        Some(n) => n,
        None => {
            return None;
        },
    };
    let title = match json_str_2(json, "pull_request", "title") {
        Some(s) => s,
        None => {
            return None;
        },
    };
    let n = match json_arr_len_2(json, "pull_request", "labels") {
        Some(n) => n,
        None => {
            return None;
        },
    };
    let mut labels: Vec<Label> = Vec::new();
    let mut i: usize = 0;
    while i < n
        invariant
            i <= n,
            arr_len_at2(json@, "pull_request"@, "labels"@) == Some(n),
            labels@.len() == i,
            forall|k: usize|
                k < i ==> Some(labels@[k as int].id) == (#[trigger] u64_in_arr(
                    json@,
                    "pull_request"@,
                    "labels"@,
                    k,
                    "id"@,
                )),
            forall|k: usize|
                k < i ==> Some(labels@[k as int].name@) == (#[trigger] str_in_arr(
                    json@,
                    "pull_request"@,
                    "labels"@,
                    k,
                    "name"@,
                )),
        decreases n - i,
    {
        let label_id = match json_u64_in_arr(json, "pull_request", "labels", i, "id") {
            Some(v) => v,
            None => {
                return None;
            },
        };
        let label_name = match json_str_in_arr(json, "pull_request", "labels", i, "name") {
            Some(v) => v,
            None => {
                return None;
            },
        };
        labels.push(Label { id: label_id, name: label_name });
        i = i + 1;
    }
    proof {
        assert forall|k: usize|
            k < n implies (#[trigger] u64_in_arr(json@, "pull_request"@, "labels"@, k, "id"@))
            is Some && str_in_arr(json@, "pull_request"@, "labels"@, k, "name"@) is Some by {
            assert(Some(labels@[k as int].id) == u64_in_arr(
                json@,
                "pull_request"@,
                "labels"@,
                k,
                "id"@,
            ));
            assert(Some(labels@[k as int].name@) == str_in_arr(
                json@,
                "pull_request"@,
                "labels"@,
                k,
                "name"@,
            ));
        }
    }
    let head = match parse_commit(json, "head") {
        Some(c) => c,
        None => {
            return None;
        },
    };
    let base = match parse_commit(json, "base") {
        Some(c) => c,
        None => {
            return None;
        },
    };
    Some(PullRequest { id, number, title, labels, head, base })
}

/// Decode the repository object: id, name, full name and URL are required.
fn parse_repository(json: &str) -> (r: Option<Repository>)
    ensures
        (r is Some) <==> pr_repository_ok(json@),
        r matches Some(re) ==> repository_from(re, json@),
{
    let id = match json_u64_2(json, "repository", "id") {
        Some(n) => n,
        None => {
            return None;
        },
    };
    let name = match json_str_2(json, "repository", "name") {
        Some(s) => s,
        None => {
            return None;
        },
    };
    let full_name = match json_str_2(json, "repository", "full_name") {
        Some(s) => s,
        None => {
            return None;
        },
    };
    let url = match json_str_2(json, "repository", "url") {
        Some(s) => s,
        None => {
            return None;
        },
    };
    Some(Repository { id, name, full_name, url })
}

/// Decode the installation object: only its id is needed.
fn parse_installation(json: &str) -> (r: Option<Installation>)
    ensures
        (r is Some) <==> pr_installation_ok(json@),
        r matches Some(inst) ==> installation_from(inst, json@),
{
    match json_u64_2(json, "installation", "id") {
        Some(n) => Some(Installation { id: n }),
        None => None,
    }
}

impl PullRequestEvent {
    /// Decode a pull-request payload, keyed by its `action` field.  The
    /// call succeeds exactly when `pr_decodes` says so — an unrecognized
    /// action decodes to `Other`, never fails — and a decoded event carries
    /// the payload's own values, as `pr_decode_ok` says.
    pub fn parse_json(json: &str) -> (r: Result<PullRequestEvent, WebhookError>)
        ensures
            (r is Ok) <==> pr_decodes(json@),
            r matches Ok(e) ==> pr_decode_ok(e, json@),
    {
        match json_parse(json) {
            Ok(_) => {},
            Err(e) => {
                return Err(WebhookError::ParseError(e));
            },
        }
        let action = match json_str_1(json, "action") {
            Some(a) => a,
            None => {
                return Err(
                    WebhookError::ParseError(json_custom_error("missing or malformed action field")),
                );
            },
        };
        let kind = classify_action(action.as_str());
        if matches!(kind, ActionKind::Other) {
            return build_pr_event(kind, None, None, None, None);
        }
        let label = parse_label(json);
        let pull_request = parse_pull_request(json);
        let repository = parse_repository(json);
        let installation = parse_installation(json);
        if label.is_none() || pull_request.is_none() || repository.is_none()
            || installation.is_none() {
            return Err(
                WebhookError::ParseError(
                    json_custom_error("pull_request event is missing a required part"),
                ),
            );
        }
        build_pr_event(kind, label, pull_request, repository, installation)
    }

    /// The repository URL, absent for actions the policy ignores.
    pub fn repo_url(&self) -> (r: Option<&str>)
        ensures
            self is Other <==> r is None,
            self matches PullRequestEvent::Labeled { repository, .. } ==> (r matches Some(u) && u@
                == repository.url@),
            self matches PullRequestEvent::Unlabeled { repository, .. } ==> (r matches Some(u)
                && u@ == repository.url@),
    {
        match self {
            PullRequestEvent::Labeled { repository, .. } => Some(repository.url.as_str()),
            PullRequestEvent::Unlabeled { repository, .. } => Some(repository.url.as_str()),
            PullRequestEvent::Other => None,
        }
    }

    /// The pull request facts, absent for actions the policy ignores.
    pub fn pull_request(&self) -> (r: Option<&PullRequest>)
        ensures
            self is Other <==> r is None,
            self matches PullRequestEvent::Labeled { pull_request, .. } ==> (r matches Some(p) && p
                == pull_request),
            self matches PullRequestEvent::Unlabeled { pull_request, .. } ==> (r matches Some(p)
                && p == pull_request),
    {
        match self {
            PullRequestEvent::Labeled { pull_request, .. } => Some(pull_request),
            PullRequestEvent::Unlabeled { pull_request, .. } => Some(pull_request),
            PullRequestEvent::Other => None,
        }
    }

    /// The installation the delivery belongs to, absent for actions the
    /// policy ignores.
    pub fn installation(&self) -> (r: Option<&Installation>)
        ensures
            self is Other <==> r is None,
            self matches PullRequestEvent::Labeled { installation, .. } ==> (r matches Some(i) && i
                == installation),
            self matches PullRequestEvent::Unlabeled { installation, .. } ==> (r matches Some(i)
                && i == installation),
    {
        match self {
            PullRequestEvent::Labeled { installation, .. } => Some(installation),
            PullRequestEvent::Unlabeled { installation, .. } => Some(installation),
            PullRequestEvent::Other => None,
        }
    }
}

impl Event {
    /// Classify a raw delivery.  A `pull_request` event is decoded exactly
    /// as `pr_decodes`/`pr_decode_ok` say; every other event name succeeds
    /// exactly on a well-formed body, keeping its parsed payload as
    /// `Unknown` under the delivery's name.
    pub fn parse_json(event_name: &str, json: &str) -> (r: Result<Event, WebhookError>)
        ensures
            event_name@ == "pull_request"@ ==> ((r is Ok) <==> pr_decodes(json@)),
            event_name@ == "pull_request"@ ==> (r matches Ok(e) ==> (e matches Event::PullRequest(
                pe,
            ) && pr_decode_ok(pe, json@))),
            event_name@ != "pull_request"@ ==> ((r is Ok) <==> json_parses(json@)),
            event_name@ != "pull_request"@ ==> (r matches Ok(e) ==> (e matches Event::Unknown {
                name,
                ..
            } && name@ == event_name@)),
    {
        if str_eq(event_name, "pull_request") {
            match PullRequestEvent::parse_json(json) {
                Ok(e) => Ok(Event::PullRequest(e)),
                Err(e) => Err(e),
            }
        } else {
            match json_parse(json) {
                Ok(value) => Ok(Event::Unknown { name: event_name.to_owned(), payload: value }),
                Err(e) => Err(WebhookError::ParseError(e)),
            }
        }
    }
}

} // verus!
