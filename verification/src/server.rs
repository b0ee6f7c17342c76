//! The webhook handling core and the shared server state.
//!
//! `plan_webhook` carries one delivery from raw headers and body up to the
//! network edge: it authenticates the body first — an unverified body never
//! reaches the classifier — then classifies it and extracts the work order.
//! The surrounding process performs the network calls and hands their
//! results back to `gather_intel` and `new_status_from_judgement`.
//!
//! The token cache is the only shared mutable state; it sits behind a
//! reader/writer lock, and no lock is ever held across a network call:
//! lookups and stores are separate, short critical sections.

use vstd::prelude::*;

use crate::chars::{chars_to_string, dec_chars, usize_to_dec_chars};
use crate::github_api::{Client, CommitList, NewStatus, State};
use crate::judgement::{Intel, Judgement};
use crate::signature::{sig_valid, verify_signature};
use crate::token_store::TokenStore;
use crate::webhook::{
    arr_len_at2, json_parses, pr_decode_ok, pr_decodes, recognized_action, str_at1, str_at2,
    str_at3, str_in_arr, u64_at2, Event, Installation, PullRequest, PullRequestEvent, Repository,
    WebhookError,
};

verus! {

use vstd::rwlock::{RwLock, RwLockPredicate};
use vstd::string::{StrSliceExecFns, StringExecFns};

/// The X-Github-Event header value.
#[derive(Debug)]
pub struct EventName(pub String);

/// The X-Hub-Signature header value.
#[derive(Debug)]
pub struct GithubSignature(pub String);

/// The predicate the token cache lock maintains; the cache needs no
/// invariant beyond its own well-formedness.
pub struct TokenStorePred {}

impl RwLockPredicate<TokenStore> for TokenStorePred {
    open spec fn inv(self, v: TokenStore) -> bool {
        true
    }
}

/// The state shared by all request handlers: the App identity and the
/// token cache behind its reader/writer lock.
pub struct ServerState {
    pub api_client: Client,
    webhook_secret: String,
    auth_tokens: RwLock<TokenStore, TokenStorePred>,
}

impl ServerState {
    /// The configured webhook secret.
    pub closed spec fn spec_secret(&self) -> Seq<char> {
        self.webhook_secret@
    }

    /// The App identity this state signs and calls with.
    pub closed spec fn spec_api_client(&self) -> Client {
        self.api_client
    }

    pub fn new(api_client: Client, webhook_secret: &str) -> (s: Self)
        ensures
            s.spec_api_client() == api_client,
            s.spec_secret() == webhook_secret@,
    {
        ServerState {
            api_client,
            webhook_secret: webhook_secret.to_owned(),
            auth_tokens: RwLock::new(TokenStore::new(), Ghost(TokenStorePred {})),
        }
    }

    pub fn webhook_secret(&self) -> (r: &str)
        ensures
            r@ == self.spec_secret(),
    {
        self.webhook_secret.as_str()
    }

    /// Look up a cached token under the read lock.  The cache is shared
    /// between handlers, so no contract over its contents can hold across
    /// the call; `TokenStore::get_token` pins what the lookup returns for
    /// the snapshot it reads.
    pub fn get_auth_token(&self, installation_id: u64, now: u64) -> Option<String> {
        let handle = self.auth_tokens.acquire_read();
        let r = handle.borrow().get_token(installation_id, now);
        handle.release_read();
        r
    }

    /// Store a freshly minted token under the write lock, replacing any
    /// entry for the same installation.  The network call that minted the
    /// token happens outside; the lock covers only the insert.
    pub fn store_auth_token(&self, installation_id: u64, token: String, now: u64) {
        let (mut store, write_handle) = self.auth_tokens.acquire_write();
        store.add_token(installation_id, token, now);
        write_handle.release_write(store);
    }
}

/// The work order extracted from one pull-request delivery.
#[derive(Debug)]
pub struct PrTask {
    pub repo_url: String,
    pub installation_id: u64,
    pub head_sha: String,
    pub base_sha: String,
    pub label_names: Vec<String>,
}

/// What the service should do with a verified delivery: nothing, or
/// evaluate one pull request.
#[derive(Debug)]
pub enum Directive {
    Ignore,
    Process(PrTask),
}

/// Why a delivery was refused: a signature that does not verify, or a body
/// that does not parse.
#[derive(Debug)]
pub enum HandlerError {
    BadSignature,
    BadPayload(WebhookError),
}

/// Whether `t` is the work order for these event parts.
pub open spec fn task_for(
    t: PrTask,
    pull_request: PullRequest,
    repository: Repository,
    installation: Installation,
) -> bool {
    &&& t.repo_url@ == repository.url@
    &&& t.installation_id == installation.id
    &&& t.head_sha@ == pull_request.head.sha@
    &&& t.base_sha@ == pull_request.base.sha@
    &&& t.label_names@.len() == pull_request.labels@.len()
    &&& forall|i: int|
        0 <= i < pull_request.labels@.len() ==> t.label_names@[i]@ == pull_request.labels@[
            i
        ].name@
}

/// The work order for a pull-request event: nothing for actions the policy
/// ignores; otherwise the repository URL, the installation, the compare
/// range ends, and the label names in order.
pub fn pr_task(event: &PullRequestEvent) -> (r: Option<PrTask>)
    ensures
        event is Other <==> r is None,
        event matches PullRequestEvent::Labeled {
            pull_request,
            repository,
            installation,
            ..
        } ==> (r matches Some(t) && task_for(t, *pull_request, *repository, *installation)),
        event matches PullRequestEvent::Unlabeled {
            pull_request,
            repository,
            installation,
            ..
        } ==> (r matches Some(t) && task_for(t, *pull_request, *repository, *installation)),
{
    match event {
        PullRequestEvent::Other => None,
        PullRequestEvent::Labeled { pull_request, repository, installation, .. } => Some(
            build_task(pull_request, repository, installation),
        ),
        PullRequestEvent::Unlabeled { pull_request, repository, installation, .. } => Some(
            build_task(pull_request, repository, installation),
        ),
    }
}

fn build_task(
    pull_request: &PullRequest,
    repository: &Repository,
    installation: &Installation,
) -> (t: PrTask)
    ensures
        task_for(t, *pull_request, *repository, *installation),
{
    let mut label_names: Vec<String> = Vec::new();
    let mut i: usize = 0;
    while i < pull_request.labels.len()
        invariant
            i <= pull_request.labels@.len(),
            label_names@.len() == i,
            forall|k: int|
                0 <= k < i ==> label_names@[k]@ == pull_request.labels@[k].name@,
        decreases pull_request.labels@.len() - i,
    {
        label_names.push(pull_request.labels[i].name.clone());
        i = i + 1;
    }
    PrTask {
        repo_url: repository.url.clone(),
        installation_id: installation.id,
        head_sha: pull_request.head.sha.clone(),
        base_sha: pull_request.base.sha.clone(),
        label_names,
    }
}

/// Whether `t` carries the payload's own values: the repository URL, the
/// installation id, the compare range ends, and the label names in order.
pub open spec fn task_from_payload(t: PrTask, s: Seq<char>) -> bool {
    &&& Some(t.repo_url@) == str_at2(s, "repository"@, "url"@)
    &&& Some(t.installation_id) == u64_at2(s, "installation"@, "id"@)
    &&& Some(t.head_sha@) == str_at3(s, "pull_request"@, "head"@, "sha"@)
    &&& Some(t.base_sha@) == str_at3(s, "pull_request"@, "base"@, "sha"@)
    &&& Some(t.label_names@.len() as usize) == arr_len_at2(s, "pull_request"@, "labels"@)
    &&& forall|i: usize|
        i < t.label_names@.len() ==> Some(t.label_names@[i as int]@) == (#[trigger] str_in_arr(
            s,
            "pull_request"@,
            "labels"@,
            i,
            "name"@,
        ))
}

/// What the directive for a verified, decoded pull-request body must be: a
/// recognized action yields the work order with the payload's own values;
/// anything else is acknowledged and dropped.
pub open spec fn directive_ok(d: Directive, s: Seq<char>) -> bool {
    match str_at1(s, "action"@) {
        None => false,
        Some(a) => {
            if recognized_action(a) {
                d matches Directive::Process(t) && task_from_payload(t, s)
            } else {
                d is Ignore
            }
        },
    }
}

/// Handle one delivery up to the network edge.  The signature is checked
/// first and a body that fails it is refused before any parsing.  For a
/// verified body the contract pins the whole outcome: a non-pull-request
/// delivery is acknowledged exactly when its body is well-formed JSON; a
/// pull-request delivery decodes exactly as `pr_decodes` says, a
/// labeled/unlabeled action yields the work order with the payload's own
/// values, and any other action is acknowledged and dropped.
pub fn plan_webhook(event_name: &str, signature: &str, body: &str, secret: &str) -> (r: Result<
    Directive,
    HandlerError,
>)
    ensures
        (r matches Err(e) && e is BadSignature) <==> !sig_valid(body@, signature@, secret@),
        r matches Ok(d) ==> sig_valid(body@, signature@, secret@),
        sig_valid(body@, signature@, secret@) && event_name@ != "pull_request"@ ==> ((r matches Ok(
            d,
        ) && d is Ignore) <==> json_parses(body@)),
        sig_valid(body@, signature@, secret@) && event_name@ == "pull_request"@ ==> ((r is Ok)
            <==> pr_decodes(body@)),
        sig_valid(body@, signature@, secret@) && event_name@ == "pull_request"@ ==> (r matches Ok(
            d,
        ) ==> directive_ok(d, body@)),
{
    if !verify_signature(body, signature, secret) {
        return Err(HandlerError::BadSignature);
    }
    let event = match Event::parse_json(event_name, body) {
        Ok(e) => e,
        Err(we) => {
            return Err(HandlerError::BadPayload(we));
        },
    };
    match event {
        Event::PullRequest(pr_event) => match pr_task(&pr_event) {
            Some(t) => {
                proof {
                    lemma_task_matches_payload(pr_event, t, body@);
                }
                Ok(Directive::Process(t))
            },
            None => Ok(Directive::Ignore),
        },
        Event::Unknown { .. } => Ok(Directive::Ignore),
    }
}

/// A work order built by `pr_task` from an event that decoded from body
/// `s` carries the payload's own values.
proof fn lemma_task_matches_payload(e: PullRequestEvent, t: PrTask, s: Seq<char>)
    requires
        pr_decode_ok(e, s),
        !(e is Other),
        e matches PullRequestEvent::Labeled { pull_request, repository, installation, .. }
            ==> task_for(t, pull_request, repository, installation),
        e matches PullRequestEvent::Unlabeled { pull_request, repository, installation, .. }
            ==> task_for(t, pull_request, repository, installation),
    ensures
        task_from_payload(t, s),
{
    match e {
        PullRequestEvent::Labeled { pull_request, .. } => {
            assert forall|i: usize| i < t.label_names@.len() implies Some(
                t.label_names@[i as int]@,
            ) == (#[trigger] str_in_arr(s, "pull_request"@, "labels"@, i, "name"@)) by {
                assert(t.label_names@[i as int]@ == pull_request.labels@[i as int].name@);
                assert(Some(pull_request.labels@[i as int].name@) == str_in_arr(
                    s,
                    "pull_request"@,
                    "labels"@,
                    i,
                    "name"@,
                ));
            }
        },
        PullRequestEvent::Unlabeled { pull_request, .. } => {
            assert forall|i: usize| i < t.label_names@.len() implies Some(
                t.label_names@[i as int]@,
            ) == (#[trigger] str_in_arr(s, "pull_request"@, "labels"@, i, "name"@)) by {
                assert(t.label_names@[i as int]@ == pull_request.labels@[i as int].name@);
                assert(Some(pull_request.labels@[i as int].name@) == str_in_arr(
                    s,
                    "pull_request"@,
                    "labels"@,
                    i,
                    "name"@,
                ));
            }
        },
        PullRequestEvent::Other => {},
    }
}

/// The facts for policy evaluation: the label names of the task and, when
/// the compare fetch succeeded, its commit count and messages.  A failed
/// fetch degrades to zero facts, so the policy still runs on labels alone.
pub fn gather_intel(label_names: Vec<String>, fetched: Option<CommitList>) -> (r: Intel)
    ensures
        r.label_names == label_names,
        fetched matches Some(list) ==> (r.total_commits == list.total_commits
            && r.commit_messages@.len() == list.commits@.len() && (forall|i: int|
            0 <= i < list.commits@.len() ==> r.commit_messages@[i]@ == list.commits@[
                i
            ].commit.message@)),
        fetched is None ==> (r.total_commits == 0 && r.commit_messages@.len() == 0),
{
    match fetched {
        Some(list) => {
            let commit_messages = list.messages();
            proof {
                assert(forall|i: int|
                    0 <= i < commit_messages@.len() ==> commit_messages.deep_view()[i]
                        == #[trigger] commit_messages@[i]@);
            }
            Intel { label_names, total_commits: list.total_commits, commit_messages }
        },
        None => Intel { label_names, total_commits: 0, commit_messages: Vec::new() },
    }
}

/// What a failing commit status says: the problem text alone, or the
/// violation count ahead of it.
pub open spec fn status_description(main: Seq<char>, n: nat) -> Seq<char> {
    if n == 1 {
        main
    } else {
        dec_chars(n) + " problems. First one: "@ + main
    }
}

/// The commit status reporting a judgement: success for approval (carrying
/// the override reason when there is one), failure with the problem text
/// otherwise, always under this service's status context.
pub fn new_status_from_judgement(judgement: Judgement) -> (r: NewStatus)
    ensures
        r.context@ == "mange/prgnome"@,
        r.target_url is None,
        judgement is Approved ==> (r.state is Success && r.description is None),
        judgement matches Judgement::ForceApproved(reason) ==> (r.state is Success && (
        r.description matches Some(d) && d@ == reason@)),
        judgement matches Judgement::NotApproved { main_problem, total_violations } ==> (r.state
            is Failure && (r.description matches Some(d) && d@ == status_description(
            main_problem@,
            total_violations as nat,
        ))),
{
    let (state, description) = match judgement {
        Judgement::Approved => (State::Success, None),
        Judgement::ForceApproved(reason) => (State::Success, Some(reason)),
        Judgement::NotApproved { main_problem, total_violations } => {
            let message = if total_violations == 1 {
                main_problem
            } else {
                let digits = usize_to_dec_chars(total_violations);
                let mut m = chars_to_string(&digits);
                m.append(" problems. First one: ");
                m.append(main_problem.as_str());
                m
            };
            (State::Failure, Some(message))
        },
    };
    NewStatus { state, description, context: "mange/prgnome".to_owned(), target_url: None }
}

} // verus!
