use submission_check::plag_check::gather_repo::{
    clone_repos_into_dir, clone_repos_into_dir_with_size_limit, plan_corpus_selection,
    RepoCandidate,
};

fn unique_dir(tag: &str) -> String {
    format!("/tmp/submission_check_{}_{}", tag, uuid::Uuid::new_v4())
}

fn init_repo(dir: &str) -> git2::Repository {
    git2::Repository::init(dir).expect("init repo")
}

fn commit_at(repo: &git2::Repository, secs: i64, message: &str) {
    let sig = git2::Signature::new("tester", "tester@example.com", &git2::Time::new(secs, 0))
        .expect("sig");
    let tree_id = {
        let mut index = repo.index().expect("index");
        index.write_tree().expect("write tree")
    };
    let tree = repo.find_tree(tree_id).expect("find tree");
    let parent = repo.head().ok().and_then(|h| h.peel_to_commit().ok());
    match parent {
        Some(p) => {
            repo.commit(Some("HEAD"), &sig, &sig, message, &tree, &[&p]).expect("commit");
        }
        None => {
            repo.commit(Some("HEAD"), &sig, &sig, message, &tree, &[]).expect("initial commit");
        }
    }
}

#[test]
fn test_plan_budget_scan_does_not_stop_at_first_rejection() {
    let sizes: Vec<u64> = vec![40, 70, 30];
    let usable: Vec<bool> = vec![true, true, true];
    let (admitted, total) = plan_corpus_selection(&sizes, &usable, 100);
    assert_eq!(admitted, vec![true, false, true]);
    assert_eq!(total, 70);
}

#[test]
fn test_plan_exact_budget_is_rejected() {
    let sizes: Vec<u64> = vec![100];
    let usable: Vec<bool> = vec![true];
    let (admitted, total) = plan_corpus_selection(&sizes, &usable, 100);
    assert_eq!(admitted, vec![false]);
    assert_eq!(total, 0);
    let sizes: Vec<u64> = vec![99];
    let (admitted, total) = plan_corpus_selection(&sizes, &usable, 100);
    assert_eq!(admitted, vec![true]);
    assert_eq!(total, 99);
}

#[test]
fn test_plan_never_admits_unusable_candidate() {
    let sizes: Vec<u64> = vec![10, 10, 10];
    let usable: Vec<bool> = vec![true, false, true];
    let (admitted, total) = plan_corpus_selection(&sizes, &usable, 100);
    assert_eq!(admitted, vec![true, false, true]);
    assert_eq!(total, 20);
}

#[test]
fn test_corpus_selection_with_real_clones() {
    let a_dir = unique_dir("cand_a");
    let a = init_repo(&a_dir);
    commit_at(&a, 100, "a");
    let b_dir = unique_dir("cand_b");
    let b = init_repo(&b_dir);
    commit_at(&b, 200, "b");
    let c_dir = unique_dir("cand_c");
    init_repo(&c_dir);  // stays empty: no commits

    let candidates = vec![
        RepoCandidate { url: a_dir.clone(), size_kb: 40 },
        RepoCandidate { url: b_dir.clone(), size_kb: 70 },
        RepoCandidate { url: c_dir.clone(), size_kb: 30 },
    ];
    let target = unique_dir("corpus");
    let corpus = clone_repos_into_dir_with_size_limit(&candidates, &target, 100);

    // A fits and is non-empty; B would overflow the budget (40 + 70 >= 100);
    // C fits the remaining budget but materializes empty.
    assert_eq!(corpus.admitted, vec![true, false, false]);
    assert_eq!(corpus.total_kb, 40);
    assert_eq!(corpus.repos.len(), 1);
    assert_eq!(corpus.repos[0].url, a_dir);
    assert_eq!(corpus.repos[0].local_path, format!("{}/{}", target, a_dir));
}

#[test]
fn test_corpus_selection_all_usable_candidates() {
    let a_dir = unique_dir("full_a");
    let a = init_repo(&a_dir);
    commit_at(&a, 100, "a");
    let b_dir = unique_dir("full_b");
    let b = init_repo(&b_dir);
    commit_at(&b, 200, "b");
    let c_dir = unique_dir("full_c");
    let c = init_repo(&c_dir);
    commit_at(&c, 300, "c");

    let candidates = vec![
        RepoCandidate { url: a_dir.clone(), size_kb: 40 },
        RepoCandidate { url: b_dir.clone(), size_kb: 70 },
        RepoCandidate { url: c_dir.clone(), size_kb: 30 },
    ];
    let target = unique_dir("fullcorpus");
    let corpus = clone_repos_into_dir_with_size_limit(&candidates, &target, 100);

    // A is admitted (total 40); B would reach 110, at or over the budget;
    // C still fits (total 70).
    assert_eq!(corpus.admitted, vec![true, false, true]);
    assert_eq!(corpus.total_kb, 70);
    assert_eq!(corpus.repos.len(), 2);
    assert_eq!(corpus.repos[0].url, a_dir);
    assert_eq!(corpus.repos[1].url, c_dir);
}

#[test]
fn test_clone_repos_into_dir_clones_every_url() {
    let src_dir = unique_dir("plainsrc");
    let src = init_repo(&src_dir);
    commit_at(&src, 100, "only");
    let target = unique_dir("plaindst");
    let urls = vec![src_dir.clone()];
    let cloned = clone_repos_into_dir(&urls, &target).expect("clone");
    assert_eq!(cloned.len(), 1);
    assert_eq!(cloned[0].url, src_dir);
}

#[test]
fn test_clone_repos_into_dir_fails_on_bad_url() {
    let target = unique_dir("faildst");
    let urls = vec![unique_dir("does_not_exist")];
    assert!(clone_repos_into_dir(&urls, &target).is_err());
}
