use prgnome::webhook::{Event, PullRequestEvent};

fn labeled_payload(action: &str) -> String {
    format!(
        r#"{{
            "action": "{}",
            "label": {{ "id": 11, "name": "do not merge" }},
            "pull_request": {{
                "id": 42,
                "number": 7,
                "title": "Add gateway",
                "labels": [
                    {{ "id": 11, "name": "do not merge" }},
                    {{ "id": 12, "name": "size:large" }}
                ],
                "head": {{ "sha": "feedface", "ref": "topic", "label": "me:topic" }},
                "base": {{ "sha": "deadbeef", "ref": "main", "label": "me:main" }}
            }},
            "repository": {{
                "id": 99,
                "name": "prgnome",
                "full_name": "mange/prgnome",
                "url": "https://api.github.com/repos/mange/prgnome"
            }},
            "installation": {{ "id": 1234 }}
        }}"#,
        action
    )
}

#[test]
fn it_parses_labeled_pr_webhooks() {
    let data = labeled_payload("labeled");
    let event: Event = Event::parse_json("pull_request", &data).unwrap();
    match event {
        Event::PullRequest(PullRequestEvent::Labeled { .. }) => {}
        _ => panic!("expected an Event::PullRequest(PullRequestEvent::Labeled)"),
    }
}

#[test]
fn it_parses_unlabeled_pr_webhooks() {
    let data = labeled_payload("unlabeled");
    let event: Event = Event::parse_json("pull_request", &data).unwrap();
    match event {
        Event::PullRequest(PullRequestEvent::Unlabeled { .. }) => {}
        _ => panic!("expected an Event::PullRequest(PullRequestEvent::Unlabeled)"),
    }
}

#[test]
fn it_parses_other_pr_webhooks() {
    let data = r#"{ "action": "closed", "number": 7 }"#;
    let event: Event = Event::parse_json("pull_request", data).unwrap();
    match event {
        Event::PullRequest(PullRequestEvent::Other) => {}
        _ => panic!("expected an Event::PullRequest(PullRequestEvent::Other)"),
    }
}

#[test]
fn it_stores_payload_on_unknown_events() {
    let data = r#"{"hello":"world"}"#;
    let data_value: serde_json::Value = serde_json::from_str(data).unwrap();

    let event: Event = Event::parse_json("foo", data).unwrap();
    match event {
        Event::Unknown { name, payload } => {
            assert_eq!(name, "foo");
            assert_eq!(data_value, payload);
        }
        _ => panic!("expected an Event::Unknown"),
    }
}

#[test]
fn it_decodes_unknown_actions_to_other() {
    // A payload whose action is unrecognized decodes to Other rather than
    // failing, even when the rest of the payload is fully populated.
    let data = labeled_payload("synchronize");
    let event: Event = Event::parse_json("pull_request", &data).unwrap();
    match event {
        Event::PullRequest(PullRequestEvent::Other) => {}
        _ => panic!("expected an Event::PullRequest(PullRequestEvent::Other)"),
    }
}

#[test]
fn it_fails_on_malformed_bodies() {
    assert!(Event::parse_json("pull_request", "{ not json").is_err());
    assert!(Event::parse_json("foo", "]").is_err());
}

#[test]
fn it_fails_on_missing_action() {
    assert!(Event::parse_json("pull_request", r#"{"number": 7}"#).is_err());
}

#[test]
fn it_fails_on_recognized_action_with_missing_parts() {
    let data = r#"{ "action": "labeled", "label": { "id": 1, "name": "x" } }"#;
    assert!(Event::parse_json("pull_request", data).is_err());
}

#[test]
fn it_exposes_event_facts_through_accessors() {
    let data = labeled_payload("labeled");
    let event = match Event::parse_json("pull_request", &data).unwrap() {
        Event::PullRequest(e) => e,
        _ => panic!("expected a pull_request event"),
    };
    assert_eq!(
        event.repo_url(),
        Some("https://api.github.com/repos/mange/prgnome")
    );
    let pr = event.pull_request().unwrap();
    assert_eq!(pr.number, 7);
    assert_eq!(pr.head.sha, "feedface");
    assert_eq!(pr.base.sha, "deadbeef");
    assert_eq!(pr.labels.len(), 2);
    assert_eq!(pr.labels[1].name, "size:large");
    assert_eq!(event.installation().unwrap().id, 1234);
}
