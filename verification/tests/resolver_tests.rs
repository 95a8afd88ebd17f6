use manifest_merger::model::RemoteSpec;
use manifest_merger::resolver::Upstream;
use manifest_merger::resolver::build_job;
use manifest_merger::resolver::resolve_jobs;
use manifest_merger::table::KeyTable;

fn repo_table(entries: &[(&str, &str)]) -> KeyTable<String> {
    let mut table = KeyTable::new();
    for (path, name) in entries {
        table.insert((*path).to_owned(), (*name).to_owned());
    }
    table
}

fn system_upstream() -> Upstream {
    Upstream {
        repos: repo_table(&[("build/make", "platform/build"), ("art", "platform/art")]),
        remote: RemoteSpec {
            remote_name: "clo_system".to_owned(),
            remote_url: "https://clo.example/sys".to_owned(),
            revision: "refs/tags/S1".to_owned(),
        },
    }
}

fn vendor_upstream() -> Upstream {
    Upstream {
        repos: repo_table(&[("art", "vendor/art"), ("vendor/blobs", "vendor/blobs")]),
        remote: RemoteSpec {
            remote_name: "clo_vendor".to_owned(),
            remote_url: "https://clo.example/ven".to_owned(),
            revision: "refs/tags/V1".to_owned(),
        },
    }
}

#[test]
fn paths_matched_by_one_upstream_get_one_job_each() {
    let baseline = repo_table(&[
        ("build/make", "flamingo/build"),
        ("vendor/blobs", "flamingo/blobs"),
        ("untracked", "flamingo/untracked"),
    ]);
    let jobs = resolve_jobs(
        "/src",
        &baseline,
        Some(&system_upstream()),
        Some(&vendor_upstream()),
        false,
    );
    assert_eq!(jobs.len(), 2);

    assert_eq!(jobs[0].repo_name, "build/make");
    assert_eq!(jobs[0].remote_name, "clo_system");
    assert_eq!(jobs[0].remote_url, "https://clo.example/sys/platform/build");
    assert_eq!(jobs[0].repo_path, "/src/build/make");
    assert_eq!(jobs[0].revision, "refs/tags/S1");
    assert!(!jobs[0].push);

    assert_eq!(jobs[1].repo_name, "vendor/blobs");
    assert_eq!(jobs[1].remote_name, "clo_vendor");
    assert_eq!(jobs[1].remote_url, "https://clo.example/ven/vendor/blobs");
    assert_eq!(jobs[1].revision, "refs/tags/V1");
}

#[test]
fn path_in_both_upstreams_uses_the_system_remote() {
    let baseline = repo_table(&[("art", "flamingo/art")]);
    let jobs = resolve_jobs(
        "/src",
        &baseline,
        Some(&system_upstream()),
        Some(&vendor_upstream()),
        true,
    );
    assert_eq!(jobs.len(), 1);
    assert_eq!(jobs[0].remote_name, "clo_system");
    assert_eq!(jobs[0].remote_url, "https://clo.example/sys/platform/art");
    assert_eq!(jobs[0].revision, "refs/tags/S1");
    assert!(jobs[0].push);
}

#[test]
fn path_in_neither_upstream_gets_no_job() {
    let baseline = repo_table(&[("untracked", "flamingo/untracked")]);
    let jobs = resolve_jobs(
        "/src",
        &baseline,
        Some(&system_upstream()),
        Some(&vendor_upstream()),
        false,
    );
    assert_eq!(jobs.len(), 0);
}

#[test]
fn missing_upstreams_give_no_jobs() {
    let baseline = repo_table(&[("build/make", "flamingo/build")]);
    let jobs = resolve_jobs("/src", &baseline, None, None, false);
    assert_eq!(jobs.len(), 0);
}

#[test]
fn vendor_alone_is_consulted_when_system_is_absent() {
    let baseline = repo_table(&[("art", "flamingo/art")]);
    let jobs = resolve_jobs("/src", &baseline, None, Some(&vendor_upstream()), false);
    assert_eq!(jobs.len(), 1);
    assert_eq!(jobs[0].remote_name, "clo_vendor");
    assert_eq!(jobs[0].remote_url, "https://clo.example/ven/vendor/art");
}

#[test]
fn build_job_composes_urls_and_paths() {
    let remote = RemoteSpec {
        remote_name: "clo_system".to_owned(),
        remote_url: "https://clo.example/sys".to_owned(),
        revision: "refs/tags/S1".to_owned(),
    };
    let job = build_job("/rom", "device/common", "platform/device", &remote, true);
    assert_eq!(job.remote_name, "clo_system");
    assert_eq!(job.remote_url, "https://clo.example/sys/platform/device");
    assert_eq!(job.repo_path, "/rom/device/common");
    assert_eq!(job.repo_name, "device/common");
    assert_eq!(job.revision, "refs/tags/S1");
    assert!(job.push);
}
