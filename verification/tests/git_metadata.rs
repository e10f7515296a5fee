use submission_check::git_tools::metadata::{
    check_metadata, check_metadata_at_path, verify_contributors, verify_time, MetadataConstraints,
};
use submission_check::git_tools::verification::{FailureReason, VerificationResult};

fn unique_dir(tag: &str) -> String {
    format!("/tmp/submission_check_{}_{}", tag, uuid::Uuid::new_v4())
}

fn init_repo(dir: &str) -> git2::Repository {
    git2::Repository::init(dir).expect("init repo")
}

fn commit_at(repo: &git2::Repository, name: &str, secs: i64, message: &str) {
    let sig = git2::Signature::new(name, &format!("{}@example.com", name), &git2::Time::new(secs, 0))
        .expect("sig");
    let tree_id = {
        let mut index = repo.index().expect("index");
        index.write_tree().expect("write tree")
    };
    let tree = repo.find_tree(tree_id).expect("find tree");
    let parent = repo.head().ok().and_then(|h| h.peel_to_commit().ok());
    match parent {
        Some(p) => {
            repo.commit(Some("HEAD"), &sig, &sig, message, &tree, &[&p]).expect("commit");
        }
        None => {
            repo.commit(Some("HEAD"), &sig, &sig, message, &tree, &[]).expect("initial commit");
        }
    }
}

#[test]
fn metadata_test_create_empty_metadata_constraints() {
    let c = MetadataConstraints::new_empty();
    assert!(c.first_commit_time.is_none());
    assert!(c.last_commit_time.is_none());
    assert!(c.usernames.is_none());
}

#[test]
fn metadata_test_create_metadata_constraints() {
    let now = 1_700_000_000i64;
    let before = now - 3600;
    let after = now + 3600;
    let c = MetadataConstraints::new(Some(before..after), Some(before..after), None);
    assert_eq!(c.first_commit_time, Some(before..after));
    assert_eq!(c.last_commit_time, Some(before..after));
}

#[test]
fn metadata_test_check_metadata_all_skipped() {
    let dir = unique_dir("skipped");
    let repo = init_repo(&dir);
    commit_at(&repo, "tester", 1000, "initial");
    let c = MetadataConstraints::new_empty();
    let res = check_metadata(&repo, c);
    assert!(matches!(res.first_commit_time, VerificationResult::Skipped));
    assert!(matches!(res.last_commit_time, VerificationResult::Skipped));
    assert!(matches!(res.usernames, VerificationResult::Skipped));
    assert!(res.all_verified_or_skipped());
}

#[test]
fn test_check_metadata_verified_ranges() {
    let dir = unique_dir("verified");
    let repo = init_repo(&dir);
    let t = 1000i64;
    commit_at(&repo, "tester", t, "initial");
    let dur = 5i64;
    let c = MetadataConstraints::new(
        Some((t - dur)..(t + dur)),
        Some((t - dur)..(t + dur)),
        Some(vec![String::from("tester")]),
    );
    let res = check_metadata(&repo, c);
    assert!(matches!(res.first_commit_time, VerificationResult::Verified));
    assert!(matches!(res.last_commit_time, VerificationResult::Verified));
    assert!(matches!(res.usernames, VerificationResult::Verified));
    assert!(res.all_verified());
}

#[test]
fn test_check_metadata_out_of_range_fails() {
    let dir = unique_dir("outofrange");
    let repo = init_repo(&dir);
    let t = 1000i64;
    commit_at(&repo, "tester", t, "initial");
    let c = MetadataConstraints::new(Some((t + 10)..(t + 20)), Some((t + 10)..(t + 20)), None);
    let res = check_metadata(&repo, c);
    match res.first_commit_time {
        VerificationResult::Failed(FailureReason::TimeNotInRange(actual)) => assert_eq!(actual, t),
        other => panic!("expected Failed(TimeNotInRange) for first, got {:?}", other),
    }
    match res.last_commit_time {
        VerificationResult::Failed(FailureReason::TimeNotInRange(actual)) => assert_eq!(actual, t),
        other => panic!("expected Failed(TimeNotInRange) for last, got {:?}", other),
    }
    assert!(!res.all_verified());
    assert!(!res.all_verified_or_skipped());
}

#[test]
fn test_check_metadata_at_path_open_failure_fails_constrained_fields() {
    let missing = unique_dir("missing");
    let c = MetadataConstraints::new(Some(0..100), None, None);
    let res = check_metadata_at_path(&missing, c);
    assert!(matches!(
        res.first_commit_time,
        VerificationResult::Failed(FailureReason::GitError(_))
    ));
    assert!(matches!(res.last_commit_time, VerificationResult::Skipped));
    assert!(matches!(res.usernames, VerificationResult::Skipped));
    assert!(!res.all_verified_or_skipped());
}

#[test]
fn test_verify_time_range_boundaries() {
    let range = 10i64..20i64;
    assert!(matches!(
        verify_time(Some(&range), Ok(10)),
        VerificationResult::Verified
    ));
    assert!(matches!(
        verify_time(Some(&range), Ok(19)),
        VerificationResult::Verified
    ));
    match verify_time(Some(&range), Ok(20)) {
        VerificationResult::Failed(FailureReason::TimeNotInRange(t)) => assert_eq!(t, 20),
        other => panic!("expected Failed(TimeNotInRange), got {:?}", other),
    }
    match verify_time(Some(&range), Ok(9)) {
        VerificationResult::Failed(FailureReason::TimeNotInRange(t)) => assert_eq!(t, 9),
        other => panic!("expected Failed(TimeNotInRange), got {:?}", other),
    }
    assert!(matches!(
        verify_time(None, Ok(0)),
        VerificationResult::Skipped
    ));
    match verify_time(Some(&range), Err(String::from("walk failed"))) {
        VerificationResult::Failed(FailureReason::GitError(m)) => assert_eq!(m, "walk failed"),
        other => panic!("expected Failed(GitError), got {:?}", other),
    }
}

#[test]
fn test_verify_contributors_unexpected_name() {
    let actual = vec![String::from("alice"), String::from("bob")];
    let allowed = vec![String::from("alice")];
    match verify_contributors(&actual, &allowed) {
        VerificationResult::Failed(FailureReason::UsernameMismatch(unexpected)) => {
            assert_eq!(unexpected, vec![String::from("bob")]);
        }
        other => panic!("expected Failed(UsernameMismatch), got {:?}", other),
    }
}

#[test]
fn test_verify_contributors_all_allowed() {
    let actual = vec![String::from("alice"), String::from("bob")];
    let allowed = vec![String::from("alice"), String::from("bob"), String::from("carol")];
    assert!(matches!(
        verify_contributors(&actual, &allowed),
        VerificationResult::Verified
    ));
}

#[test]
fn test_check_metadata_contributors_from_history() {
    let dir = unique_dir("authors");
    let repo = init_repo(&dir);
    commit_at(&repo, "alice", 1000, "first");
    commit_at(&repo, "bob", 2000, "second");
    let c = MetadataConstraints::new(None, None, Some(vec![String::from("alice")]));
    let res = check_metadata(&repo, c);
    match res.usernames {
        VerificationResult::Failed(FailureReason::UsernameMismatch(unexpected)) => {
            assert_eq!(unexpected, vec![String::from("bob")]);
        }
        other => panic!("expected Failed(UsernameMismatch), got {:?}", other),
    }
}
