use manifest_merger::manifest::Manifest;
use manifest_merger::manifest::update_default_commit_message;

#[test]
fn manifest_names_and_paths_follow_the_directory_and_name() {
    let manifest = Manifest::new("./.repo/manifests", "system", Some("S1".to_owned()));
    assert_eq!(manifest.get_name(), "system.xml");
    assert_eq!(manifest.get_path(), "./.repo/manifests/system.xml");
    assert_eq!(manifest.get_repo_path(), "./.repo/manifests");
}

#[test]
fn manifest_url_embeds_name_and_tag() {
    let manifest = Manifest::new("m", "system", Some("S1".to_owned()));
    assert_eq!(
        manifest.get_url(),
        Some(
            "https://git.codelinaro.org/clo/la/la/system/manifest/-/raw/S1/S1.xml".to_owned()
        )
    );
    let untagged = Manifest::new("m", "default", None);
    assert_eq!(untagged.get_url(), None);
}

#[test]
fn remote_name_and_urls_are_fixed_by_the_source_name() {
    let manifest = Manifest::new("m", "vendor", Some("V1".to_owned()));
    assert_eq!(manifest.get_remote_name(), "clo_vendor");
    assert_eq!(manifest.get_remote_url(), "https://git.codelinaro.org/clo/la");
    assert_eq!(
        manifest.get_aosp_remote_url(),
        "https://android.googlesource.com/platform"
    );
}

#[test]
fn revision_is_the_tag_ref() {
    let manifest = Manifest::new("m", "system", Some("S1".to_owned()));
    assert_eq!(manifest.get_revision(), Some("refs/tags/S1".to_owned()));
    let untagged = Manifest::new("m", "default", None);
    assert_eq!(untagged.get_revision(), None);
}

#[test]
fn default_manifest_commit_message_names_the_merged_source() {
    let system = Manifest::new("m", "system", Some("S1".to_owned()));
    let vendor = Manifest::new("m", "vendor", Some("V1".to_owned()));
    assert_eq!(
        update_default_commit_message(Some(&system), Some(&vendor)),
        "system: Update default manifest to refs/tags/S1"
    );
    assert_eq!(
        update_default_commit_message(Some(&system), None),
        "system: Update default manifest to refs/tags/S1"
    );
    assert_eq!(
        update_default_commit_message(None, Some(&vendor)),
        "vendor: Update default manifest to refs/tags/V1"
    );
}
