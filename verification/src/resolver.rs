//! Resolving which upstream applies to each local repository, and building
//! the merge jobs.
//!
//! The baseline mapping lists each local checkout's path with its
//! upstream-side repository name; up to two upstream mappings (a "system"
//! source and a "vendor" source) each pair such a mapping with a
//! [`RemoteSpec`]. For every baseline path, the system mapping is consulted
//! first; only when it has no match is the vendor mapping consulted; a path
//! in neither produces no job. This precedence is a hard tie-break rule,
//! proved below, not a heuristic.

use vstd::prelude::*;

use crate::model::MergeJob;
use crate::model::MergeJobView;
use crate::model::RemoteSpec;
use crate::model::RemoteSpecView;
use crate::strings::concat3;
use crate::table::KeyTable;
use crate::table::lemma_lookup_none;
use crate::table::lookup;
use crate::table::unique_keys;

verus! {

/// One upstream source: its repository mapping (local path to upstream-side
/// repository name) and the remote it is fetched from.
pub struct Upstream {
    pub repos: KeyTable<String>,
    pub remote: RemoteSpec,
}

/// Mathematical view of an [`Upstream`].
pub struct UpstreamView {
    pub repos: Seq<(Seq<char>, String)>,
    pub remote: RemoteSpecView,
}

impl View for Upstream {
    type V = UpstreamView;

    open spec fn view(&self) -> UpstreamView {
        UpstreamView { repos: self.repos@, remote: self.remote@ }
    }
}

/// The view of an optional upstream argument.
pub open spec fn upstream_view(u: Option<&Upstream>) -> Option<UpstreamView> {
    match u {
        Some(upstream) => Some(upstream@),
        None => None,
    }
}

/// The job built for one baseline path from one upstream: the clone URL is
/// the upstream's base URL extended with the upstream-side repository name,
/// and the local checkout sits under the source root at the baseline path.
pub open spec fn make_job(
    root: Seq<char>,
    path: Seq<char>,
    upstream_name: Seq<char>,
    remote: RemoteSpecView,
    push: bool,
) -> MergeJobView {
    MergeJobView {
        remote_name: remote.remote_name,
        remote_url: remote.remote_url + "/"@ + upstream_name,
        repo_path: root + "/"@ + path,
        repo_name: path,
        revision: remote.revision,
        push,
    }
}

/// The job one baseline path resolves to: the system upstream when it maps
/// the path, else the vendor upstream when it maps the path, else none.
pub open spec fn job_for(
    root: Seq<char>,
    path: Seq<char>,
    system: Option<UpstreamView>,
    vendor: Option<UpstreamView>,
    push: bool,
) -> Option<MergeJobView> {
    match system {
        Some(sys) => match lookup(sys.repos, path) {
            Some(upstream_name) => Some(make_job(root, path, upstream_name@, sys.remote, push)),
            None => job_for_vendor(root, path, vendor, push),
        },
        None => job_for_vendor(root, path, vendor, push),
    }
}

/// The vendor half of [`job_for`].
pub open spec fn job_for_vendor(
    root: Seq<char>,
    path: Seq<char>,
    vendor: Option<UpstreamView>,
    push: bool,
) -> Option<MergeJobView> {
    match vendor {
        Some(ven) => match lookup(ven.repos, path) {
            Some(upstream_name) => Some(make_job(root, path, upstream_name@, ven.remote, push)),
            None => None,
        },
        None => None,
    }
}

/// The full resolution: one optional job per baseline entry, in baseline
/// order.
pub open spec fn spec_resolve(
    root: Seq<char>,
    baseline: Seq<(Seq<char>, String)>,
    system: Option<UpstreamView>,
    vendor: Option<UpstreamView>,
    push: bool,
) -> Seq<MergeJobView>
    decreases baseline.len(),
{
    if baseline.len() == 0 {
        Seq::empty()
    } else {
        let rest = spec_resolve(root, baseline.drop_first(), system, vendor, push);
        match job_for(root, baseline.first().0, system, vendor, push) {
            Some(job) => seq![job] + rest,
            None => rest,
        }
    }
}

/// Resolution processes baseline entries one by one: extending the baseline
/// by one entry appends that entry's job, if it has one.
proof fn lemma_spec_resolve_snoc(
    root: Seq<char>,
    baseline: Seq<(Seq<char>, String)>,
    entry: (Seq<char>, String),
    system: Option<UpstreamView>,
    vendor: Option<UpstreamView>,
    push: bool,
)
    ensures
        spec_resolve(root, baseline.push(entry), system, vendor, push) == spec_resolve(
            root,
            baseline,
            system,
            vendor,
            push,
        ) + (match job_for(root, entry.0, system, vendor, push) {
            Some(job) => seq![job],
            None => Seq::<MergeJobView>::empty(),
        }),
    decreases baseline.len(),
{
    let extended = baseline.push(entry);
    if baseline.len() == 0 {
        assert(extended.drop_first() =~= Seq::<(Seq<char>, String)>::empty());
        assert(extended.first() == entry);
        assert(spec_resolve(root, Seq::<(Seq<char>, String)>::empty(), system, vendor, push)
            == Seq::<MergeJobView>::empty());
        assert(spec_resolve(root, extended.drop_first(), system, vendor, push)
            == Seq::<MergeJobView>::empty());
        match job_for(root, entry.0, system, vendor, push) {
            Some(job) => {
                assert(spec_resolve(root, extended, system, vendor, push) =~= seq![job]);
                assert(spec_resolve(root, baseline, system, vendor, push) + seq![job]
                    =~= seq![job]);
            },
            None => {
                assert(spec_resolve(root, extended, system, vendor, push)
                    =~= Seq::<MergeJobView>::empty());
                assert(spec_resolve(root, baseline, system, vendor, push)
                    + Seq::<MergeJobView>::empty() =~= Seq::<MergeJobView>::empty());
            },
        }
    } else {
        assert(extended.drop_first() =~= baseline.drop_first().push(entry));
        assert(extended.first() == baseline.first());
        lemma_spec_resolve_snoc(root, baseline.drop_first(), entry, system, vendor, push);
        match job_for(root, baseline.first().0, system, vendor, push) {
            Some(head_job) => {
                assert(spec_resolve(root, extended, system, vendor, push) =~= spec_resolve(
                    root,
                    baseline,
                    system,
                    vendor,
                    push,
                ) + (match job_for(root, entry.0, system, vendor, push) {
                    Some(job) => seq![job],
                    None => Seq::<MergeJobView>::empty(),
                }));
            },
            None => {
                assert(spec_resolve(root, extended, system, vendor, push) =~= spec_resolve(
                    root,
                    baseline,
                    system,
                    vendor,
                    push,
                ) + (match job_for(root, entry.0, system, vendor, push) {
                    Some(job) => seq![job],
                    None => Seq::<MergeJobView>::empty(),
                }));
            },
        }
    }
}

/// Builds the merge job for one baseline path from the upstream that
/// matched it.
pub fn build_job(
    source_root: &str,
    path: &str,
    upstream_name: &str,
    remote: &RemoteSpec,
    push: bool,
) -> (job: MergeJob)
    ensures
        job@ == make_job(source_root@, path@, upstream_name@, remote@, push),
{
    MergeJob {
        remote_name: remote.remote_name.clone(),
        remote_url: concat3(remote.remote_url.as_str(), "/", upstream_name),
        repo_path: concat3(source_root, "/", path),
        repo_name: path.to_owned(),
        revision: remote.revision.clone(),
        push,
    }
}

/// Resolves every baseline path against the system and vendor upstreams and
/// builds the merge jobs, in baseline order: exactly [`spec_resolve`].
pub fn resolve_jobs(
    source_root: &str,
    baseline: &KeyTable<String>,
    system: Option<&Upstream>,
    vendor: Option<&Upstream>,
    push: bool,
) -> (jobs: Vec<MergeJob>)
    requires
        match system {
            Some(u) => u.repos.wf(),
            None => true,
        },
        match vendor {
            Some(u) => u.repos.wf(),
            None => true,
        },
    ensures
        jobs@.map_values(|j: MergeJob| j@) == spec_resolve(
            source_root@,
            baseline@,
            upstream_view(system),
            upstream_view(vendor),
            push,
        ),
{
    let n = baseline.len();
    let mut jobs: Vec<MergeJob> = Vec::new();
    proof {
        assert(baseline@.take(0) =~= Seq::<(Seq<char>, String)>::empty());
        assert(jobs@.map_values(|j: MergeJob| j@) =~= Seq::<MergeJobView>::empty());
    }
    let mut i: usize = 0;
    while i < n
        invariant
            i <= n,
            n == baseline@.len(),
            match system {
                Some(u) => u.repos.wf(),
                None => true,
            },
            match vendor {
                Some(u) => u.repos.wf(),
                None => true,
            },
            jobs@.map_values(|j: MergeJob| j@) == spec_resolve(
                source_root@,
                baseline@.take(i as int),
                upstream_view(system),
                upstream_view(vendor),
                push,
            ),
        decreases n - i,
    {
        let entry = baseline.index_at(i);
        let path = &entry.0;
        let built: Option<MergeJob> = match system {
            Some(u) => match u.repos.get(path.as_str()) {
                Some(upstream_name) => Some(
                    build_job(source_root, path.as_str(), upstream_name.as_str(), &u.remote, push),
                ),
                None => resolve_vendor(source_root, path.as_str(), vendor, push),
            },
            None => resolve_vendor(source_root, path.as_str(), vendor, push),
        };
        proof {
            lemma_spec_resolve_snoc(
                source_root@,
                baseline@.take(i as int),
                baseline@[i as int],
                upstream_view(system),
                upstream_view(vendor),
                push,
            );
            assert(baseline@.take(i as int).push(baseline@[i as int]) =~= baseline@.take(
                i as int + 1,
            ));
        }
        let ghost prev = jobs@.map_values(|j: MergeJob| j@);
        match built {
            Some(job) => {
                let ghost built_view = job@;
                jobs.push(job);
                proof {
                    assert(jobs@.map_values(|j: MergeJob| j@) =~= prev + seq![built_view]);
                }
            },
            None => {
                proof {
                    assert(prev + Seq::<MergeJobView>::empty() =~= prev);
                }
            },
        }
        i = i + 1;
    }
    proof {
        assert(baseline@.take(n as int) =~= baseline@);
    }
    jobs
}

/// How many produced jobs target the given baseline path.
pub open spec fn jobs_for_path(jobs: Seq<MergeJobView>, path: Seq<char>) -> nat
    decreases jobs.len(),
{
    if jobs.len() == 0 {
        0
    } else {
        (if jobs.first().repo_name == path {
            1nat
        } else {
            0nat
        }) + jobs_for_path(jobs.drop_first(), path)
    }
}

/// The first produced job targeting the given baseline path, if any.
pub open spec fn job_with_path(jobs: Seq<MergeJobView>, path: Seq<char>) -> Option<MergeJobView>
    decreases jobs.len(),
{
    if jobs.len() == 0 {
        None
    } else if jobs.first().repo_name == path {
        Some(jobs.first())
    } else {
        job_with_path(jobs.drop_first(), path)
    }
}

/// Whether this optional upstream mapping does not map `path` (it is absent
/// or lacks the path).
pub open spec fn misses(u: Option<UpstreamView>, path: Seq<char>) -> bool {
    match u {
        Some(upstream) => lookup(upstream.repos, path) is None,
        None => true,
    }
}

/// What the produced jobs hold for any one path: the job that `job_for`
/// gives when the path is in the baseline, and nothing otherwise.
proof fn lemma_resolve_per_path(
    root: Seq<char>,
    baseline: Seq<(Seq<char>, String)>,
    system: Option<UpstreamView>,
    vendor: Option<UpstreamView>,
    push: bool,
    path: Seq<char>,
)
    requires
        unique_keys(baseline),
    ensures
        ({
            let jobs = spec_resolve(root, baseline, system, vendor, push);
            match lookup(baseline, path) {
                Some(_) => {
                    &&& jobs_for_path(jobs, path) == (if job_for(
                        root,
                        path,
                        system,
                        vendor,
                        push,
                    ) is Some {
                        1nat
                    } else {
                        0nat
                    })
                    &&& job_with_path(jobs, path) == job_for(root, path, system, vendor, push)
                },
                None => jobs_for_path(jobs, path) == 0 && job_with_path(jobs, path) is None,
            }
        }),
    decreases baseline.len(),
{
    if baseline.len() == 0 {
    } else {
        let head = baseline.first();
        let tail = baseline.drop_first();
        crate::table::lemma_unique_keys_tail(baseline);
        lemma_resolve_per_path(root, tail, system, vendor, push, path);
        let jobs = spec_resolve(root, baseline, system, vendor, push);
        let rest = spec_resolve(root, tail, system, vendor, push);
        if head.0 == path {
            assert forall|k: int| 0 <= k < tail.len() implies tail[k].0 != path by {
                assert(tail[k] == baseline[k + 1]);
                assert(baseline[0].0 == path);
            }
            lemma_lookup_none(tail, path);
            match job_for(root, path, system, vendor, push) {
                Some(job) => {
                    assert(job.repo_name == path);
                    assert((seq![job] + rest).first() == job);
                    assert((seq![job] + rest).drop_first() =~= rest);
                },
                None => {},
            }
        } else {
            match job_for(root, head.0, system, vendor, push) {
                Some(job) => {
                    assert(job.repo_name == head.0);
                    assert((seq![job] + rest).first() == job);
                    assert((seq![job] + rest).drop_first() =~= rest);
                },
                None => {},
            }
        }
    }
}

/// LAW: a baseline path present in the system mapping and not in the vendor
/// mapping yields exactly one job, built from the system upstream's
/// RemoteSpec and its upstream-side repository name.
pub proof fn lemma_system_only_one_job(
    root: Seq<char>,
    baseline: Seq<(Seq<char>, String)>,
    sys: UpstreamView,
    vendor: Option<UpstreamView>,
    push: bool,
    path: Seq<char>,
    upstream_name: String,
)
    requires
        unique_keys(baseline),
        lookup(baseline, path) is Some,
        lookup(sys.repos, path) == Some(upstream_name),
        misses(vendor, path),
    ensures
        ({
            let jobs = spec_resolve(root, baseline, Some(sys), vendor, push);
            &&& jobs_for_path(jobs, path) == 1
            &&& job_with_path(jobs, path) == Some(
                make_job(root, path, upstream_name@, sys.remote, push),
            )
        }),
{
    lemma_resolve_per_path(root, baseline, Some(sys), vendor, push, path);
}

/// LAW: a baseline path present in the vendor mapping and not in the system
/// mapping yields exactly one job, built from the vendor upstream's
/// RemoteSpec and its upstream-side repository name.
pub proof fn lemma_vendor_only_one_job(
    root: Seq<char>,
    baseline: Seq<(Seq<char>, String)>,
    system: Option<UpstreamView>,
    ven: UpstreamView,
    push: bool,
    path: Seq<char>,
    upstream_name: String,
)
    requires
        unique_keys(baseline),
        lookup(baseline, path) is Some,
        misses(system, path),
        lookup(ven.repos, path) == Some(upstream_name),
    ensures
        ({
            let jobs = spec_resolve(root, baseline, system, Some(ven), push);
            &&& jobs_for_path(jobs, path) == 1
            &&& job_with_path(jobs, path) == Some(
                make_job(root, path, upstream_name@, ven.remote, push),
            )
        }),
{
    lemma_resolve_per_path(root, baseline, system, Some(ven), push, path);
}

/// LAW: for a path present in both upstream mappings, the one job produced
/// always uses the system RemoteSpec; the vendor mapping is never consulted
/// when the system mapping has a match. The tie-break is deterministic.
pub proof fn lemma_system_precedence(
    root: Seq<char>,
    baseline: Seq<(Seq<char>, String)>,
    sys: UpstreamView,
    ven: UpstreamView,
    push: bool,
    path: Seq<char>,
    system_name: String,
)
    requires
        unique_keys(baseline),
        lookup(baseline, path) is Some,
        lookup(sys.repos, path) == Some(system_name),
        lookup(ven.repos, path) is Some,
    ensures
        ({
            let jobs = spec_resolve(root, baseline, Some(sys), Some(ven), push);
            &&& jobs_for_path(jobs, path) == 1
            &&& job_with_path(jobs, path) == Some(
                make_job(root, path, system_name@, sys.remote, push),
            )
        }),
{
    lemma_resolve_per_path(root, baseline, Some(sys), Some(ven), push, path);
}

/// LAW: a path that neither upstream mapping holds produces no job, whether
/// or not it is in the baseline.
pub proof fn lemma_unmatched_no_job(
    root: Seq<char>,
    baseline: Seq<(Seq<char>, String)>,
    system: Option<UpstreamView>,
    vendor: Option<UpstreamView>,
    push: bool,
    path: Seq<char>,
)
    requires
        unique_keys(baseline),
        misses(system, path),
        misses(vendor, path),
    ensures
        jobs_for_path(spec_resolve(root, baseline, system, vendor, push), path) == 0,
{
    lemma_resolve_per_path(root, baseline, system, vendor, push, path);
}

/// A path with no job among the produced jobs has no job at any position.
proof fn lemma_count_zero_no_job(jobs: Seq<MergeJobView>, path: Seq<char>)
    requires
        jobs_for_path(jobs, path) == 0,
    ensures
        forall|i: int| 0 <= i < jobs.len() ==> jobs[i].repo_name != path,
    decreases jobs.len(),
{
    if jobs.len() > 0 {
        lemma_count_zero_no_job(jobs.drop_first(), path);
        assert forall|i: int| 0 <= i < jobs.len() implies jobs[i].repo_name != path by {
            if i > 0 {
                assert(jobs.drop_first()[i - 1] == jobs[i]);
            }
        }
    }
}

/// LAW: at most one merge job is created per distinct repository path. No
/// two produced jobs name the same local repository, so no two workers can
/// ever operate on the same checkout.
pub proof fn lemma_jobs_have_distinct_paths(
    root: Seq<char>,
    baseline: Seq<(Seq<char>, String)>,
    system: Option<UpstreamView>,
    vendor: Option<UpstreamView>,
    push: bool,
)
    requires
        unique_keys(baseline),
    ensures
        ({
            let jobs = spec_resolve(root, baseline, system, vendor, push);
            forall|i: int, j: int|
                0 <= i < j < jobs.len() ==> jobs[i].repo_name != jobs[j].repo_name
        }),
    decreases baseline.len(),
{
    if baseline.len() > 0 {
        let head = baseline.first();
        let tail = baseline.drop_first();
        crate::table::lemma_unique_keys_tail(baseline);
        lemma_jobs_have_distinct_paths(root, tail, system, vendor, push);
        let jobs = spec_resolve(root, baseline, system, vendor, push);
        let rest = spec_resolve(root, tail, system, vendor, push);
        assert forall|k: int| 0 <= k < tail.len() implies tail[k].0 != head.0 by {
            assert(tail[k] == baseline[k + 1]);
        }
        lemma_lookup_none(tail, head.0);
        lemma_resolve_per_path(root, tail, system, vendor, push, head.0);
        lemma_count_zero_no_job(rest, head.0);
        match job_for(root, head.0, system, vendor, push) {
            Some(job) => {
                assert(job.repo_name == head.0);
                assert(jobs == seq![job] + rest);
                assert forall|i: int, j: int|
                    0 <= i < j < jobs.len() implies jobs[i].repo_name != jobs[j].repo_name by {
                    assert(jobs[0] == job);
                    if i > 0 {
                        assert(jobs[i] == rest[i - 1]);
                    }
                    assert(jobs[j] == rest[j - 1]);
                }
            },
            None => {
                assert(jobs == rest);
            },
        }
    }
}

/// The vendor half of the per-path resolution.
fn resolve_vendor(source_root: &str, path: &str, vendor: Option<&Upstream>, push: bool) -> (job:
    Option<MergeJob>)
    requires
        match vendor {
            Some(u) => u.repos.wf(),
            None => true,
        },
    ensures
        match job {
            Some(j) => job_for_vendor(source_root@, path@, upstream_view(vendor), push)
                == Some(j@),
            None => job_for_vendor(source_root@, path@, upstream_view(vendor), push) is None,
        },
{
    match vendor {
        Some(u) => match u.repos.get(path) {
            Some(upstream_name) => Some(
                build_job(source_root, path, upstream_name.as_str(), &u.remote, push),
            ),
            None => None,
        },
        None => None,
    }
}

} // verus!
