use prgnome::github_api::{
    ApiError, Claims, Client, Commit, CommitInfo, CommitList, EXPIRY_SECONDS,
};

#[test]
fn it_builds_fresh_claims() {
    let claims = Claims::new(123_456, 1_000);
    assert_eq!(claims.iat, 1_000);
    assert_eq!(claims.exp, 1_000 + EXPIRY_SECONDS);
    assert_eq!(claims.iss, 123_456);
}

#[test]
fn it_saturates_claim_expiry_at_the_top_of_the_clock() {
    let claims = Claims::new(1, u64::MAX - 10);
    assert_eq!(claims.exp, u64::MAX);
}

#[test]
fn it_fails_signing_with_unusable_key_material() {
    let client = Client::new(1, vec![1, 2, 3]);
    match client.new_jwt(1_000) {
        Err(ApiError::JwtError(_)) => {}
        other => panic!("expected a signing failure, got {:?}", other),
    }
}

#[test]
fn it_lists_commit_messages_in_range_order() {
    let list = CommitList {
        total_commits: 3,
        commits: vec![
            CommitInfo {
                sha: String::from("a"),
                commit: Commit { message: String::from("one") },
            },
            CommitInfo {
                sha: String::from("b"),
                commit: Commit { message: String::from("two") },
            },
            CommitInfo {
                sha: String::from("c"),
                commit: Commit { message: String::from("three") },
            },
        ],
    };
    assert_eq!(
        list.messages(),
        vec![
            String::from("one"),
            String::from("two"),
            String::from("three")
        ]
    );
}
