use vstd::prelude::*;

use crate::git_tools::raw;
use crate::git_tools::repository::GithubRepo;

verus! {

/// A candidate repository for the comparison corpus: where to clone it
/// from, and its size estimate in kilobytes.  Callers rank candidates by
/// recency of update, most recent first, before selection.
pub struct RepoCandidate {
    /// The source the candidate can be cloned from
    pub url: String,
    /// The candidate's size estimate in kilobytes
    pub size_kb: u64,
}

/// The size estimates of the candidates, in rank order.
pub open spec fn candidate_sizes(candidates: Seq<RepoCandidate>) -> Seq<u64> {
    candidates.map_values(|c: RepoCandidate| c.size_kb)
}

/// One step of the greedy budget rule: a candidate fits when the
/// cumulative size charged so far plus its own size stays strictly below
/// the budget.  Equality with the budget is rejected on purpose: the
/// strict comparison is a deliberate conservative margin.
pub open spec fn fits(cum: int, size: u64, budget: u64) -> bool {
    cum + size < budget
}

/// The admission decisions and the cumulative charged size of the greedy
/// scan over `sizes` under `budget`.  `usable[i]` says whether candidate
/// `i` materialized to a non-empty repository when it was attempted; a
/// candidate is admitted exactly when it fits the remaining budget and is
/// usable, and only admitted candidates are charged.  A candidate skipped
/// for exceeding the budget does not stop the scan: later, smaller
/// candidates are still considered.
pub open spec fn spec_select(sizes: Seq<u64>, usable: Seq<bool>, budget: u64) -> (Seq<bool>, int)
    decreases sizes.len(),
{
    if sizes.len() == 0 {
        (Seq::empty(), 0)
    } else {
        let prev = spec_select(sizes.drop_last(), usable.drop_last(), budget);
        let chosen = fits(prev.1, sizes.last(), budget) && usable.last();
        (prev.0.push(chosen), if chosen { prev.1 + sizes.last() } else { prev.1 })
    }
}

/// The total size of the admitted candidates.
pub open spec fn spec_admitted_total(sizes: Seq<u64>, admitted: Seq<bool>) -> int
    decreases sizes.len(),
{
    if sizes.len() == 0 {
        0
    } else {
        spec_admitted_total(sizes.drop_last(), admitted.drop_last()) + if admitted.len() > 0
            && admitted.last() {
            sizes.last() as int
        } else {
            0
        }
    }
}

/// Law: the greedy selection decides every candidate, never admits one
/// that did not materialize to a non-empty repository, charges exactly the
/// sizes of the admitted candidates, and keeps the charged total strictly
/// under the budget (or zero, when nothing was admitted).
pub proof fn lemma_select_sound(sizes: Seq<u64>, usable: Seq<bool>, budget: u64)
    requires
        usable.len() == sizes.len(),
    ensures
        spec_select(sizes, usable, budget).0.len() == sizes.len(),
        spec_select(sizes, usable, budget).1 == spec_admitted_total(
            sizes,
            spec_select(sizes, usable, budget).0,
        ),
        spec_select(sizes, usable, budget).1 == 0 || spec_select(sizes, usable, budget).1
            < budget,
        forall|i: int|
            0 <= i < sizes.len() && !usable[i] ==> !(#[trigger] spec_select(
                sizes,
                usable,
                budget,
            ).0[i]),
    decreases sizes.len(),
{
    if sizes.len() > 0 {
        lemma_select_sound(sizes.drop_last(), usable.drop_last(), budget);
        let prev = spec_select(sizes.drop_last(), usable.drop_last(), budget);
        let cur = spec_select(sizes, usable, budget);
        assert(cur.0.drop_last() =~= prev.0);
        assert(forall|i: int|
            0 <= i < sizes.len() - 1 ==> usable.drop_last()[i] == usable[i] && cur.0[i]
                == prev.0[i]);
    }
}

/// The greedy admission plan for candidates with the given sizes, where
/// `usable[i]` says whether candidate `i` would materialize to a non-empty
/// repository.  Returns the per-candidate decisions and the total charged
/// size.
pub fn plan_corpus_selection(sizes: &Vec<u64>, usable: &Vec<bool>, budget: u64) -> (r: (
    Vec<bool>,
    u64,
))
    requires
        sizes@.len() == usable@.len(),
    ensures
        r.0@ == spec_select(sizes@, usable@, budget).0,
        r.1 as int == spec_select(sizes@, usable@, budget).1,
{
    let mut admitted: Vec<bool> = Vec::new();
    let mut cum: u64 = 0;
    let mut i: usize = 0;
    while i < sizes.len()
        invariant
            sizes@.len() == usable@.len(),
            0 <= i <= sizes@.len(),
            admitted@ == spec_select(
                sizes@.subrange(0, i as int),
                usable@.subrange(0, i as int),
                budget,
            ).0,
            cum as int == spec_select(
                sizes@.subrange(0, i as int),
                usable@.subrange(0, i as int),
                budget,
            ).1,
            cum <= budget,
        decreases sizes@.len() - i,
    {
        let chosen = sizes[i] < budget - cum && usable[i];
        if chosen {
            cum = cum + sizes[i];
        }
        admitted.push(chosen);
        proof {
            let si = sizes@.subrange(0, i as int);
            let ui = usable@.subrange(0, i as int);
            let sj = sizes@.subrange(0, i + 1 as int);
            let uj = usable@.subrange(0, i + 1 as int);
            assert(sj.drop_last() =~= si);
            assert(uj.drop_last() =~= ui);
            assert(sj.last() == sizes@[i as int]);
            assert(uj.last() == usable@[i as int]);
        }
        i = i + 1;
    }
    proof {
        assert(sizes@.subrange(0, sizes@.len() as int) =~= sizes@);
        assert(usable@.subrange(0, usable@.len() as int) =~= usable@);
    }
    (admitted, cum)
}

/// The number of admitted candidates.
pub open spec fn count_admitted(admitted: Seq<bool>) -> int
    decreases admitted.len(),
{
    if admitted.len() == 0 {
        0
    } else {
        count_admitted(admitted.drop_last()) + if admitted.last() {
            1int
        } else {
            0int
        }
    }
}

/// Whether the repository `g` was cloned from a candidate that the
/// decisions in `admitted` let in.
pub open spec fn admitted_source(
    g: GithubRepo,
    admitted: Seq<bool>,
    candidates: Seq<RepoCandidate>,
) -> bool {
    exists|i: int|
        0 <= i < candidates.len() && #[trigger] admitted[i] && g.url@ == candidates[i].url@
}

/// Every repository of the corpus was cloned from an admitted candidate.
pub open spec fn corpus_from_admitted(
    repos: Seq<GithubRepo>,
    admitted: Seq<bool>,
    candidates: Seq<RepoCandidate>,
) -> bool {
    forall|j: int|
        0 <= j < repos.len() ==> admitted_source(#[trigger] repos[j], admitted, candidates)
}

/// The comparison corpus that greedy selection materialized locally.
pub struct SelectedCorpus {
    /// The admitted repositories, in rank order
    pub repos: Vec<GithubRepo>,
    /// The per-candidate admission decisions, in rank order
    pub admitted: Vec<bool>,
    /// The total size charged against the budget, in kilobytes
    pub total_kb: u64,
}

/// Greedily clone candidates, in the given rank order, into `target_dir`
/// under a total size budget.  A candidate is attempted only when its size
/// keeps the charged total strictly under the budget; it enters the corpus
/// only when its clone succeeds and is non-empty, and only then is its
/// size charged.  A candidate that is skipped or fails does not stop the
/// scan.
pub fn clone_repos_into_dir_with_size_limit(
    candidates: &Vec<RepoCandidate>,
    target_dir: &str,
    size_threshold_kb: u64,
) -> (r: SelectedCorpus)
    ensures
        r.admitted@.len() == candidates@.len(),
        exists|usable: Seq<bool>|
            {
                &&& usable.len() == candidates@.len()
                &&& r.admitted@ == (#[trigger] spec_select(
                    candidate_sizes(candidates@),
                    usable,
                    size_threshold_kb,
                )).0
                &&& r.total_kb as int == spec_select(
                    candidate_sizes(candidates@),
                    usable,
                    size_threshold_kb,
                ).1
            },
        r.total_kb == 0 || r.total_kb < size_threshold_kb,
        r.repos@.len() == count_admitted(r.admitted@),
        corpus_from_admitted(r.repos@, r.admitted@, candidates@),
{
    let ghost sizes = candidate_sizes(candidates@);
    let mut repos: Vec<GithubRepo> = Vec::new();
    let mut admitted: Vec<bool> = Vec::new();
    let mut cum: u64 = 0;
    let ghost mut usable: Seq<bool> = Seq::empty();
    let ghost mut srcidx: Seq<int> = Seq::empty();
    let mut i: usize = 0;
    while i < candidates.len()
        invariant
            sizes == candidate_sizes(candidates@),
            sizes.len() == candidates@.len(),
            0 <= i <= candidates@.len(),
            usable.len() == i,
            admitted@.len() == i,
            admitted@ == spec_select(sizes.subrange(0, i as int), usable, size_threshold_kb).0,
            cum as int == spec_select(sizes.subrange(0, i as int), usable, size_threshold_kb).1,
            cum == 0 || cum < size_threshold_kb,
            repos@.len() == count_admitted(admitted@),
            srcidx.len() == repos@.len(),
            forall|j: int|
                0 <= j < repos@.len() ==> 0 <= #[trigger] srcidx[j] < i && admitted@[srcidx[j]]
                    && repos@[j].url@ == candidates@[srcidx[j]].url@,
        decreases candidates@.len() - i,
    {
        let ghost pre_repos = repos@;
        let ghost pre_admitted = admitted@;
        let cand = &candidates[i];
        let can_fit = cand.size_kb < size_threshold_kb - cum;
        let mut this_usable = false;
        if can_fit {
            let dest = raw::join_path(target_dir, cand.url.as_str());
            match GithubRepo::new_with_local_path(cand.url.as_str(), dest.as_str()) {
                Ok(g) => {
                    let nonempty = match raw::repo_is_empty(&g.repo) {
                        Ok(empty) => !empty,
                        Err(_) => false,
                    };
                    if nonempty {
                        this_usable = true;
                        cum = cum + cand.size_kb;
                        repos.push(g);
                        proof {
                            srcidx = srcidx.push(i as int);
                            assert(repos@.last().url@ == candidates@[i as int].url@);
                        }
                    }
                },
                Err(_) => {},
            }
        }
        let chosen = can_fit && this_usable;
        admitted.push(chosen);
        proof {
            let ghost old_usable = usable;
            usable = usable.push(this_usable);
            let si = sizes.subrange(0, i as int);
            let sj = sizes.subrange(0, i + 1 as int);
            assert(sj.drop_last() =~= si);
            assert(usable.drop_last() =~= old_usable);
            assert(sj.last() == sizes[i as int]);
            assert(sizes[i as int] == candidates@[i as int].size_kb);
            assert(admitted@.drop_last() =~= pre_admitted);
            assert(admitted@.last() == chosen);
            assert(fits(spec_select(si, old_usable, size_threshold_kb).1, sj.last(),
                size_threshold_kb) == can_fit);
            assert(count_admitted(admitted@) == count_admitted(pre_admitted) + if chosen {
                1int
            } else {
                0int
            });
            if chosen {
                assert(repos@.len() == pre_repos.len() + 1);
                assert(admitted@[i as int]);
                assert(srcidx.last() == i as int);
            } else {
                assert(repos@ == pre_repos);
            }
        }
        i = i + 1;
    }
    proof {
        assert(sizes.subrange(0, sizes.len() as int) =~= sizes);
    }
    let r = SelectedCorpus { repos, admitted, total_kb: cum };
    proof {
        assert forall|j: int| 0 <= j < r.repos@.len() implies admitted_source(
            #[trigger] r.repos@[j],
            r.admitted@,
            candidates@,
        ) by {
            assert(0 <= srcidx[j] < candidates@.len() && r.admitted@[srcidx[j]]
                && r.repos@[j].url@ == candidates@[srcidx[j]].url@);
        }
    }
    r
}

/// Clone every given repository into `target_dir`.  The first clone that
/// fails aborts the run with the error's message.
pub fn clone_repos_into_dir(repo_urls: &Vec<String>, target_dir: &str) -> (r: Result<
    Vec<GithubRepo>,
    String,
>)
    ensures
        r matches Ok(v) ==> v@.len() == repo_urls@.len() && forall|j: int|
            0 <= j < v@.len() ==> (#[trigger] v@[j]).url@ == repo_urls@[j]@,
{
    let mut res: Vec<GithubRepo> = Vec::new();
    let mut i: usize = 0;
    while i < repo_urls.len()
        invariant
            0 <= i <= repo_urls@.len(),
            res@.len() == i,
            forall|j: int| 0 <= j < i ==> (#[trigger] res@[j]).url@ == repo_urls@[j]@,
        decreases repo_urls@.len() - i,
    {
        let dest = raw::join_path(target_dir, repo_urls[i].as_str());
        match GithubRepo::new_with_local_path(repo_urls[i].as_str(), dest.as_str()) {
            Ok(g) => {
                res.push(g);
            },
            Err(m) => {
                return Err(m);
            },
        }
        i = i + 1;
    }
    Ok(res)
}

} // verus!
