use submission_check::git_tools::metadata::{
    earliest_commit_time, earliest_of, latest_commit_time, latest_of,
};
use submission_check::git_tools::repository::{creation_time_from, get_creation_time, GithubRepo};
use submission_check::git_tools::time::{offset_from_unix_secs, unix_secs_from_offset, EpochOffset};

fn unique_dir(tag: &str) -> String {
    format!("/tmp/submission_check_{}_{}", tag, uuid::Uuid::new_v4())
}

fn init_repo(dir: &str) -> git2::Repository {
    git2::Repository::init(dir).expect("init repo")
}

fn commit_at(repo: &git2::Repository, secs: i64, message: &str) {
    let sig = git2::Signature::new("tester", "tester@example.com", &git2::Time::new(secs, 0))
        .expect("sig");
    let tree_id = {
        let mut index = repo.index().expect("index");
        index.write_tree().expect("write tree")
    };
    let tree = repo.find_tree(tree_id).expect("find tree");
    let parent = repo.head().ok().and_then(|h| h.peel_to_commit().ok());
    match parent {
        Some(p) => {
            repo.commit(Some("HEAD"), &sig, &sig, message, &tree, &[&p]).expect("commit");
        }
        None => {
            repo.commit(Some("HEAD"), &sig, &sig, message, &tree, &[]).expect("initial commit");
        }
    }
}

#[test]
fn test_extremes_of_scrambled_orders() {
    let orders: [Vec<i64>; 3] = [vec![-5, 10, 3], vec![10, 3, -5], vec![3, -5, 10]];
    for times in orders.iter() {
        assert_eq!(earliest_of(times), Some(-5));
        assert_eq!(latest_of(times), Some(10));
    }
}

#[test]
fn test_extremes_of_empty_and_single() {
    let empty: Vec<i64> = Vec::new();
    assert_eq!(earliest_of(&empty), None);
    assert_eq!(latest_of(&empty), None);
    let one: Vec<i64> = vec![42];
    assert_eq!(earliest_of(&one), Some(42));
    assert_eq!(latest_of(&one), Some(42));
}

#[test]
fn test_repo_timeline_earliest_and_latest() {
    let dir = unique_dir("timeline");
    let repo = init_repo(&dir);
    commit_at(&repo, 500, "first");
    commit_at(&repo, 100, "second");
    commit_at(&repo, 900, "third");
    assert_eq!(earliest_commit_time(&repo), Ok(100));
    assert_eq!(latest_commit_time(&repo), Ok(900));
}

#[test]
fn test_empty_repo_is_domain_error_for_extremes() {
    let dir = unique_dir("emptyrepo");
    let repo = init_repo(&dir);
    assert_eq!(
        earliest_commit_time(&repo),
        Err(String::from("repository has no commits"))
    );
    assert_eq!(
        latest_commit_time(&repo),
        Err(String::from("repository has no commits"))
    );
    // the creation-time query on the same repository degrades to the epoch
    assert_eq!(get_creation_time(&repo), 0);
}

#[test]
fn test_empty_repo_returns_unix_epoch() {
    let dir = unique_dir("creation");
    let repo = init_repo(&dir);
    let t = get_creation_time(&repo);
    assert_eq!(t, 0);
}

#[test]
fn test_pre_epoch_values_round_trip() {
    let off = offset_from_unix_secs(-100);
    assert!(matches!(off, EpochOffset::Before(100)));
    assert_eq!(unix_secs_from_offset(&off), -100);
    let times: Vec<i64> = vec![50, -100];
    assert_eq!(earliest_of(&times), Some(-100));
    assert_eq!(latest_of(&times), Some(50));
}

#[test]
fn test_repo_two_commits_returns_earliest_time() {
    let dir = unique_dir("twocommits");
    let repo = init_repo(&dir);
    commit_at(&repo, 1000, "first");
    commit_at(&repo, 1067, "second");
    let creation = get_creation_time(&repo);
    assert_eq!(creation, 1000);
}

#[test]
fn test_creation_time_from_times() {
    let times: Vec<i64> = vec![7, -3, 12];
    assert_eq!(creation_time_from(&times), -3);
    let none: Vec<i64> = Vec::new();
    assert_eq!(creation_time_from(&none), 0);
}

#[test]
fn test_epoch_offset_round_trips() {
    let samples: [i64; 6] = [0, 1, -1, 1_700_000_000, i64::MIN, i64::MAX];
    for &secs in samples.iter() {
        let off = offset_from_unix_secs(secs);
        assert_eq!(unix_secs_from_offset(&off), secs);
    }
    assert!(matches!(offset_from_unix_secs(5), EpochOffset::After(5)));
    assert!(matches!(offset_from_unix_secs(-5), EpochOffset::Before(5)));
}

#[test]
fn test_github_repo_invalid_url() {
    let repo_url = "https://github.com/ScottyLabs/terrier-submission-bad-url";
    let result = GithubRepo::new(repo_url);
    assert!(result.is_err());
}

#[test]
fn test_github_repo_local_clone_creation_time() {
    let src_dir = unique_dir("clonesrc");
    let src = init_repo(&src_dir);
    commit_at(&src, 1234, "only");
    let dest_dir = unique_dir("clonedst");
    let cloned = GithubRepo::new_with_local_path(&src_dir, &dest_dir).expect("local clone");
    assert_eq!(cloned.url, src_dir);
    assert_eq!(cloned.local_path, dest_dir);
    assert_eq!(cloned.get_creation_time(), 1234);
}
