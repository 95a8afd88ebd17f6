use manifest_merger::devices::PageStep;
use manifest_merger::devices::find_device_repo_in_page;
use manifest_merger::devices::page_decision;
use manifest_merger::deps::Dependency;
use manifest_merger::local_manifest::Manifest;
use manifest_merger::local_manifest::create_manifest;

fn names(list: &[&str]) -> Vec<String> {
    list.iter().map(|s| (*s).to_owned()).collect()
}

#[test]
fn first_matching_repository_wins() {
    let page = names(&["kernel_common", "device_google_flame", "device_other_flame"]);
    assert_eq!(
        find_device_repo_in_page(&page, "flame"),
        Some("device_google_flame".to_owned())
    );
}

#[test]
fn unrelated_names_do_not_match() {
    let page = names(&["device_google_coral", "flame", "device_flame_suffix"]);
    assert_eq!(find_device_repo_in_page(&page, "flame"), None);
}

#[test]
fn empty_page_ends_the_search() {
    assert_eq!(page_decision(0, &names(&[]), "flame"), PageStep::NoRepos);
}

#[test]
fn page_without_a_match_asks_for_the_next_one() {
    let page = names(&["kernel_common", "vendor_blobs"]);
    assert_eq!(page_decision(2, &page, "flame"), PageStep::NextPage);
}

#[test]
fn page_with_a_match_finishes_the_search() {
    let page = names(&["kernel_common", "device_google_flame"]);
    assert_eq!(
        page_decision(2, &page, "flame"),
        PageStep::Found("device_google_flame".to_owned())
    );
}

fn dependency(name: &str, path: &str) -> Dependency {
    Dependency {
        name: name.to_owned(),
        path: path.to_owned(),
        remote: "flamingo-devices".to_owned(),
        branch: "A13".to_owned(),
        clone_depth: None,
    }
}

#[test]
fn device_manifest_lists_the_device_first() {
    let device = dependency("Org/device_google_flame", "device/google/flame");
    let extra = vec![
        dependency("Org/kernel_google", "kernel/google"),
        dependency("plain", "vendor/plain"),
    ];
    let (manifest, all) = create_manifest(device, extra);
    assert_eq!(all.len(), 3);
    assert_eq!(all[0].path, "device/google/flame");
    assert_eq!(all[1].path, "kernel/google");
    assert_eq!(all[2].path, "vendor/plain");
    let projects = manifest.projects();
    assert_eq!(projects.len(), 3);
    assert_eq!(projects[0].name, "device_google_flame");
    assert_eq!(projects[0].path, "device/google/flame");
    assert_eq!(projects[0].remote, "flamingo-devices");
    assert_eq!(projects[0].revision, "A13");
    assert_eq!(projects[2].name, "plain");
}

#[test]
fn added_dependencies_become_project_entries_in_order() {
    let mut manifest = Manifest::new();
    let deps = vec![
        Dependency {
            name: "Org/dev_one".to_owned(),
            path: "d/one".to_owned(),
            remote: "flamingo-devices".to_owned(),
            branch: "A13".to_owned(),
            clone_depth: Some("1".to_owned()),
        },
    ];
    manifest.add_dependencies(&deps);
    let projects = manifest.projects();
    assert_eq!(projects.len(), 1);
    assert_eq!(projects[0].name, "dev_one");
    assert_eq!(projects[0].clone_depth, Some("1".to_owned()));
}
