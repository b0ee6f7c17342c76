use prgnome::github_api::{Client, Commit, CommitInfo, CommitList, State};
use prgnome::judgement::Judgement;
use prgnome::server::{
    gather_intel, new_status_from_judgement, plan_webhook, Directive, HandlerError, ServerState,
};

use crypto::mac::Mac;

/// A genuine signature header for `body` under `secret`.
fn sign(secret: &str, body: &str) -> String {
    let mut mac = crypto::hmac::Hmac::new(crypto::sha1::Sha1::new(), secret.as_bytes());
    mac.input(body.as_bytes());
    let result = mac.result();
    format!("sha1={}", hex::encode(result.code()))
}

#[test]
fn it_returns_success_on_approved_judgement() {
    let judgement = Judgement::Approved;
    let new_state = new_status_from_judgement(judgement);

    assert_eq!(new_state.state, State::Success);
    assert_eq!(new_state.description, None);
}

#[test]
fn it_returns_failure_on_not_approved_judgement_with_single_problem() {
    let judgement = Judgement::NotApproved {
        main_problem: String::from("Not cool enough"),
        total_violations: 1,
    };
    let new_state = new_status_from_judgement(judgement);

    assert_eq!(new_state.state, State::Failure);
    assert_eq!(new_state.description, Some(String::from("Not cool enough")));
}

#[test]
fn it_returns_failure_on_not_approved_judgement_with_multiple_problems() {
    let judgement = Judgement::NotApproved {
        main_problem: String::from("Not cool enough"),
        total_violations: 4,
    };
    let new_state = new_status_from_judgement(judgement);

    assert_eq!(new_state.state, State::Failure);
    assert_eq!(
        new_state.description,
        Some(String::from("4 problems. First one: Not cool enough")),
    );
}

#[test]
fn it_returns_success_on_force_approved_judgement() {
    let judgement = Judgement::ForceApproved(String::from("Tagged with something cool"));
    let new_state = new_status_from_judgement(judgement);

    assert_eq!(new_state.state, State::Success);
    assert_eq!(
        new_state.description,
        Some(String::from("Tagged with something cool")),
    );
}

#[test]
fn it_reports_the_status_context() {
    let status = new_status_from_judgement(Judgement::Approved);
    assert_eq!(status.context, "mange/prgnome");
    assert_eq!(status.target_url, None);
}

#[test]
fn it_rejects_webhooks_with_bad_signatures() {
    let r = plan_webhook("ping", "sha1=00", "{}", "secret");
    assert!(matches!(r, Err(HandlerError::BadSignature)));
}

#[test]
fn it_ignores_verified_non_pr_events() {
    let body = r#"{"zen":"Keep it logically awesome."}"#;
    let sig = sign("secret", body);
    let r = plan_webhook("ping", &sig, body, "secret");
    assert!(matches!(r, Ok(Directive::Ignore)));
}

#[test]
fn it_extracts_the_work_order_from_labeled_events() {
    let body = r#"{
        "action": "labeled",
        "label": { "id": 11, "name": "wait" },
        "pull_request": {
            "id": 42,
            "number": 7,
            "title": "Add gateway",
            "labels": [ { "id": 11, "name": "wait" } ],
            "head": { "sha": "feedface" },
            "base": { "sha": "deadbeef" }
        },
        "repository": {
            "id": 99,
            "name": "prgnome",
            "full_name": "mange/prgnome",
            "url": "https://api.github.com/repos/mange/prgnome"
        },
        "installation": { "id": 1234 }
    }"#;
    let sig = sign("secret", body);
    let task = match plan_webhook("pull_request", &sig, body, "secret") {
        Ok(Directive::Process(task)) => task,
        other => panic!("expected a work order, got {:?}", other),
    };
    assert_eq!(task.repo_url, "https://api.github.com/repos/mange/prgnome");
    assert_eq!(task.installation_id, 1234);
    assert_eq!(task.head_sha, "feedface");
    assert_eq!(task.base_sha, "deadbeef");
    assert_eq!(task.label_names, vec![String::from("wait")]);
}

#[test]
fn it_refuses_unparseable_verified_bodies() {
    let body = "{ not json";
    let sig = sign("secret", body);
    let r = plan_webhook("pull_request", &sig, body, "secret");
    assert!(matches!(r, Err(HandlerError::BadPayload(_))));
}

#[test]
fn it_caches_auth_tokens_in_server_state() {
    let state = ServerState::new(Client::new(1, vec![1, 2, 3]), "hunter2");
    assert_eq!(state.webhook_secret(), "hunter2");
    assert_eq!(state.get_auth_token(12, 100), None);
    state.store_auth_token(12, String::from("tok"), 100);
    assert_eq!(state.get_auth_token(12, 200), Some(String::from("tok")));
    assert_eq!(state.get_auth_token(12, 100 + 30 * 60), None);
}

#[test]
fn it_gathers_intel_from_fetched_commits() {
    let list = CommitList {
        total_commits: 2,
        commits: vec![
            CommitInfo {
                sha: String::from("aaa"),
                commit: Commit { message: String::from("First") },
            },
            CommitInfo {
                sha: String::from("bbb"),
                commit: Commit { message: String::from("Second") },
            },
        ],
    };
    let intel = gather_intel(vec![String::from("wait")], Some(list));
    assert_eq!(intel.total_commits, 2);
    assert_eq!(
        intel.commit_messages,
        vec![String::from("First"), String::from("Second")]
    );
    assert_eq!(intel.label_names, vec![String::from("wait")]);
}

#[test]
fn it_degrades_intel_when_the_fetch_failed() {
    let intel = gather_intel(vec![String::from("wait")], None);
    assert_eq!(intel.total_commits, 0);
    assert_eq!(intel.commit_messages, Vec::<String>::new());
    assert_eq!(intel.label_names, vec![String::from("wait")]);
}
