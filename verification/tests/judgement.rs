use prgnome::judgement::{normalize_label, Intel, Judgement, MAX_COMMITS};

#[test]
fn it_normalizes_labels() {
    for (input, output) in &[
        ("Hello world", "hello world"),
        ("size:large", "size large"),
        ("look/at/mEeE!?", "look at meee"),
    ] {
        assert_eq!(&normalize_label(input), output);
    }
}

#[test]
fn it_has_a_valid_whitelist() {
    // The forbidden-label table must be normalized already.
    for label in [
        "work in progress",
        "wip",
        "in progress",
        "dont merge",
        "do not merge",
        "wait",
        "not ready",
        "blocked",
    ]
    .iter()
    {
        assert_eq!(&normalize_label(label), label);
    }

    for intro in ["wip", "fixup!", "squash!"].iter() {
        assert_eq!(&intro.to_ascii_lowercase(), intro);
    }
}

#[test]
fn it_allows_empty_intel() {
    let intel = Intel::default();
    assert_eq!(intel.validate(), Judgement::Approved);
}

#[test]
fn it_forbids_intel_with_forbidden_labels() {
    let intel = Intel {
        label_names: vec![String::from("do NOT merge!!!!!")],
        ..Default::default()
    };

    assert_eq!(
        intel.validate(),
        Judgement::NotApproved {
            main_problem: String::from("Remove the \"do NOT merge!!!!!\" label"),
            total_violations: 1,
        },
    );
}

#[test]
fn it_forbids_intel_with_forbidden_commit_intros() {
    let intel = Intel {
        commit_messages: vec![
            String::from("Initial commit"),
            String::from("fixup! Initial commit"),
        ],
        ..Default::default()
    };

    assert_eq!(
        intel.validate(),
        Judgement::NotApproved {
            main_problem: String::from("Rebase away \"fixup! initial commit\""),
            total_violations: 1,
        }
    );
}

#[test]
fn it_forbids_intel_with_forbidden_commit_messages() {
    let intel = Intel {
        commit_messages: vec![String::from("Initial commit"), String::from("tmp")],
        ..Default::default()
    };

    assert_eq!(
        intel.validate(),
        Judgement::NotApproved {
            main_problem: String::from("Rebase away \"tmp\""),
            total_violations: 1,
        }
    );
}

#[test]
fn it_forbids_tmp_prefixed_messages() {
    let intel = Intel {
        commit_messages: vec![String::from("tmp: remove later")],
        ..Default::default()
    };

    assert_eq!(
        intel.validate(),
        Judgement::NotApproved {
            main_problem: String::from("Rebase away \"tmp: remove later\""),
            total_violations: 1,
        }
    );
}

#[test]
fn it_is_okay_with_tricky_but_ok_messages() {
    let intel = Intel {
        commit_messages: vec![
            String::from("Clear out tmp"),
            String::from("Activate WIP gateway"),
        ],
        ..Default::default()
    };

    assert_eq!(intel.validate(), Judgement::Approved);
}

#[test]
fn it_forbids_too_many_commits() {
    let intel = Intel {
        total_commits: MAX_COMMITS + 1,
        ..Default::default()
    };

    assert_eq!(
        intel.validate(),
        Judgement::NotApproved {
            main_problem: format!("Rebase until you have {} commits or fewer", MAX_COMMITS),
            total_violations: 1,
        }
    );
}

#[test]
fn it_allows_exactly_max_commits() {
    let intel = Intel {
        total_commits: MAX_COMMITS,
        ..Default::default()
    };
    assert_eq!(intel.validate(), Judgement::Approved);
}

#[test]
fn it_records_multiple_violations() {
    let intel = Intel {
        commit_messages: vec![
            String::from("Initial commit"),
            String::from("fixup! Initial commit"),
        ],
        label_names: vec![String::from("Work-in-progress")],
        ..Default::default()
    };

    assert_eq!(
        intel.validate(),
        Judgement::NotApproved {
            main_problem: String::from("Rebase away \"fixup! initial commit\""),
            total_violations: 2,
        }
    );
}

#[test]
fn it_approves_all_issues_if_tagged_with_magic_label() {
    let intel = Intel {
        commit_messages: vec![
            String::from("Initial commit"),
            String::from("fixup! Initial commit"),
        ],
        label_names: vec![
            String::from("Work-in-progress"),
            String::from("prgnome-ignore"),
        ],
        ..Default::default()
    };

    assert_eq!(
        intel.validate(),
        Judgement::ForceApproved(String::from("Tagged with prgnome-ignore")),
    );
}

#[test]
fn it_truncates_long_messages_in_problem_text() {
    let intel = Intel {
        commit_messages: vec![String::from("WIP: do not merge this enormous change yet")],
        ..Default::default()
    };

    assert_eq!(
        intel.validate(),
        Judgement::NotApproved {
            main_problem: String::from("Rebase away \"wip: do not merge this enormo\""),
            total_violations: 1,
        }
    );
}

#[test]
fn it_force_approves_regardless_of_label_order() {
    // The override label wins whether it comes before or after the
    // policy-violating label.
    for labels in [
        vec![String::from("prgnome ignore"), String::from("do not merge")],
        vec![String::from("do not merge"), String::from("prgnome ignore")],
    ] {
        let intel = Intel {
            label_names: labels,
            total_commits: MAX_COMMITS + 1,
            commit_messages: vec![String::from("fixup! everything")],
        };
        assert_eq!(
            intel.validate(),
            Judgement::ForceApproved(String::from("Tagged with prgnome ignore")),
        );
    }
}

#[test]
fn it_normalizes_labels_outside_ascii() {
    // Non-ASCII alphanumerics are kept (ASCII-lowercasing leaves them
    // alone), separators become spaces, the rest is dropped.
    assert_eq!(normalize_label("Big/Bad:Wölf!"), "big bad wölf");
}
