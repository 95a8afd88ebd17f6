use manifest_merger::deps::DepRecord;
use manifest_merger::deps::Dependency;
use manifest_merger::deps::get_deps_url;
use manifest_merger::local_manifest::get_project_name;
use manifest_merger::remotes::Remote;
use manifest_merger::table::KeyTable;

fn record(
    repository: Option<&str>,
    target_path: Option<&str>,
    remote: Option<&str>,
    branch: Option<&str>,
    clone_depth: Option<&str>,
) -> DepRecord {
    DepRecord {
        repository: repository.map(|s| s.to_owned()),
        target_path: target_path.map(|s| s.to_owned()),
        remote: remote.map(|s| s.to_owned()),
        branch: branch.map(|s| s.to_owned()),
        clone_depth: clone_depth.map(|s| s.to_owned()),
    }
}

fn remotes() -> KeyTable<Remote> {
    let mut table = KeyTable::new();
    table.insert(
        "flamingo-devices".to_owned(),
        Remote {
            name: "flamingo-devices".to_owned(),
            fetch: "https://github.com/Flamingo-Devices/".to_owned(),
            revision: Some("A13".to_owned()),
        },
    );
    table.insert(
        "bare".to_owned(),
        Remote {
            name: "bare".to_owned(),
            fetch: "nohost".to_owned(),
            revision: None,
        },
    );
    table.insert(
        "norev".to_owned(),
        Remote {
            name: "norev".to_owned(),
            fetch: "https://example.com/Org".to_owned(),
            revision: None,
        },
    );
    table
}

#[test]
fn full_record_resolves_through_its_remote() {
    let rec = record(
        Some("device_brand_name"),
        Some("device/brand/name"),
        Some("flamingo-devices"),
        Some("A13"),
        Some("100"),
    );
    let dep = Dependency::get(&rec, &remotes()).unwrap();
    assert_eq!(dep.name, "Flamingo-Devices/device_brand_name");
    assert_eq!(dep.path, "device/brand/name");
    assert_eq!(dep.remote, "flamingo-devices");
    assert_eq!(dep.branch, "A13");
    assert_eq!(dep.clone_depth, Some("100".to_owned()));
}

#[test]
fn owned_repository_defaults_to_the_github_remote() {
    let rec = record(Some("owner/repo"), Some("x/y"), None, Some("main"), None);
    let dep = Dependency::get(&rec, &remotes()).unwrap();
    assert_eq!(dep.remote, "github");
    assert_eq!(dep.name, "owner/repo");
    assert_eq!(dep.branch, "main");
    assert_eq!(dep.clone_depth, None);
}

#[test]
fn bare_repository_defaults_to_the_device_remote() {
    let rec = record(Some("device_b_n"), Some("device/b/n"), None, None, None);
    let dep = Dependency::get(&rec, &remotes()).unwrap();
    assert_eq!(dep.remote, "flamingo-devices");
    assert_eq!(dep.name, "Flamingo-Devices/device_b_n");
    assert_eq!(dep.branch, "A13");
}

#[test]
fn missing_repository_is_reported() {
    let rec = record(None, Some("x"), None, None, None);
    assert_eq!(
        Dependency::get(&rec, &remotes()).unwrap_err(),
        "dependency object does not contain a string value for key repository"
    );
}

#[test]
fn missing_target_path_is_reported() {
    let rec = record(Some("a/b"), None, None, None, None);
    assert_eq!(
        Dependency::get(&rec, &remotes()).unwrap_err(),
        "dependency object does not contain a string value for key target_path"
    );
}

#[test]
fn unknown_remote_is_reported() {
    let rec = record(Some("x"), Some("y"), Some("nowhere"), None, None);
    assert_eq!(
        Dependency::get(&rec, &remotes()).unwrap_err(),
        "No such remote exists with the name nowhere"
    );
}

#[test]
fn remote_without_a_path_in_its_fetch_url_is_reported() {
    let rec = record(Some("x"), Some("y"), Some("bare"), Some("main"), None);
    assert_eq!(
        Dependency::get(&rec, &remotes()).unwrap_err(),
        "Remote bare is not well defined"
    );
}

#[test]
fn github_dependency_without_a_branch_is_reported() {
    let rec = record(Some("owner/repo"), Some("x"), None, None, None);
    assert_eq!(
        Dependency::get(&rec, &remotes()).unwrap_err(),
        "no branch given for a github dependency"
    );
}

#[test]
fn remote_without_a_default_revision_is_reported() {
    let rec = record(Some("x"), Some("y"), Some("norev"), None, None);
    assert_eq!(
        Dependency::get(&rec, &remotes()).unwrap_err(),
        "Remote norev does not have a default revision"
    );
}

#[test]
fn trailing_slashes_of_the_fetch_url_are_ignored() {
    let rec = record(Some("dev"), Some("p"), Some("flamingo-devices"), Some("A13"), None);
    let dep = Dependency::get(&rec, &remotes()).unwrap();
    assert_eq!(dep.name, "Flamingo-Devices/dev");
}

#[test]
fn deps_url_names_the_dependency_file() {
    assert_eq!(
        get_deps_url("Org/device_b_n", "A13"),
        "https://raw.githubusercontent.com/Org/device_b_n/A13/flamingo.dependencies"
    );
}

#[test]
fn project_name_is_the_part_after_the_owner() {
    let with_owner = Dependency {
        name: "Org/device_b_n".to_owned(),
        path: "p".to_owned(),
        remote: "github".to_owned(),
        branch: "main".to_owned(),
        clone_depth: None,
    };
    assert_eq!(get_project_name(&with_owner), "device_b_n");
    let bare = Dependency { name: "plain".to_owned(), ..with_owner };
    assert_eq!(get_project_name(&bare), "plain");
}
