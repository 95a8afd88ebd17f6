use manifest_merger::manifest::Manifest;
use manifest_merger::remotes::Remote;
use manifest_merger::remotes::get_all_remotes;
use manifest_merger::remotes::get_remotes;
use manifest_merger::table::KeyTable;
use manifest_merger::xml::NodeDecision;
use manifest_merger::xml::XmlElem;
use manifest_merger::xml::XmlNode;
use manifest_merger::xml::get_repos;
use manifest_merger::xml::transform_children;
use manifest_merger::xml::transform_node;
use manifest_merger::xml::update_default_children;
use manifest_merger::xml::update_default_node;
use manifest_merger::xml::updated_revision;

fn elem(name: &str, attrs: &[(&str, &str)]) -> XmlNode {
    let mut attributes = KeyTable::new();
    for (key, value) in attrs {
        attributes.insert((*key).to_owned(), (*value).to_owned());
    }
    XmlNode::Elem(XmlElem { name: name.to_owned(), attributes })
}

fn attr(decision: &NodeDecision, key: &str) -> Option<String> {
    match decision {
        NodeDecision::Replace(out) => out.attributes.get(key).cloned(),
        _ => panic!("expected a replacement element"),
    }
}

#[test]
fn repos_map_paths_to_upstream_names() {
    let children = vec![
        elem("project", &[("path", "art"), ("name", "platform/art")]),
        XmlNode::Other,
        elem("project", &[("name", "nameless")]),
        elem("project", &[("path", "art"), ("name", "platform/art2")]),
        elem("project", &[("path", "build"), ("name", "platform/build")]),
    ];
    let repos = get_repos(&children);
    assert_eq!(repos.get("art"), Some(&"platform/art2".to_owned()));
    assert_eq!(repos.get("build"), Some(&"platform/build".to_owned()));
    assert_eq!(repos.get("nameless"), None);
    assert_eq!(repos.len(), 2);
}

#[test]
fn remotes_are_read_from_remote_elements() {
    let children = vec![
        elem("remote", &[("name", "github"), ("fetch", "https://github.com")]),
        elem("project", &[("path", "x"), ("name", "y")]),
        elem(
            "remote",
            &[("name", "flamingo"), ("fetch", "https://host/Org"), ("revision", "A13")],
        ),
    ];
    let remotes = get_remotes(&children);
    assert_eq!(remotes.len(), 2);
    assert_eq!(remotes[0].name, "github");
    assert_eq!(remotes[0].fetch, "https://github.com");
    assert_eq!(remotes[0].revision, None);
    assert_eq!(remotes[1].name, "flamingo");
    assert_eq!(remotes[1].revision, Some("A13".to_owned()));
}

#[test]
fn later_manifests_override_earlier_remotes() {
    let first = vec![
        Remote {
            name: "github".to_owned(),
            fetch: "https://old".to_owned(),
            revision: None,
        },
        Remote {
            name: "solo".to_owned(),
            fetch: "https://solo".to_owned(),
            revision: None,
        },
    ];
    let second = vec![Remote {
        name: "github".to_owned(),
        fetch: "https://new".to_owned(),
        revision: Some("A13".to_owned()),
    }];
    let all = get_all_remotes(&vec![first, second]);
    let github = all.get("github").unwrap();
    assert_eq!(github.fetch, "https://new");
    assert_eq!(github.revision, Some("A13".to_owned()));
    assert_eq!(all.get("solo").unwrap().fetch, "https://solo");
    assert_eq!(all.get("absent"), None);
}

#[test]
fn transform_keeps_only_wanted_project_attributes() {
    let node = elem(
        "project",
        &[
            ("path", "art"),
            ("name", "platform/art"),
            ("remote", "aosp"),
            ("groups", "pdk"),
            ("clone-depth", "2"),
        ],
    );
    let decision = transform_node(&node, "clo_system");
    assert_eq!(attr(&decision, "name"), Some("platform/art".to_owned()));
    assert_eq!(attr(&decision, "path"), Some("art".to_owned()));
    assert_eq!(attr(&decision, "remote"), Some("clo_system".to_owned()));
    assert_eq!(attr(&decision, "clone-depth"), Some("1".to_owned()));
    assert_eq!(attr(&decision, "groups"), None);
}

#[test]
fn transform_shallow_clones_big_trees_by_default() {
    let node = elem("project", &[("path", "e/z"), ("name", "platform/external/zlib")]);
    let decision = transform_node(&node, "clo_system");
    assert_eq!(attr(&decision, "clone-depth"), Some("1".to_owned()));

    let plain = elem("project", &[("path", "art"), ("name", "platform/art")]);
    let plain_decision = transform_node(&plain, "clo_system");
    assert_eq!(attr(&plain_decision, "clone-depth"), None);
}

#[test]
fn transform_drops_other_elements_and_keeps_other_nodes() {
    let children = vec![
        elem("remote", &[("name", "aosp"), ("fetch", "https://aosp")]),
        XmlNode::Other,
        elem("project", &[("path", "art"), ("name", "platform/art")]),
    ];
    let decisions = transform_children(&children, "clo_system");
    assert_eq!(decisions.len(), 3);
    assert!(matches!(decisions[0], NodeDecision::Drop));
    assert!(matches!(decisions[1], NodeDecision::Keep));
    assert!(matches!(decisions[2], NodeDecision::Replace(_)));
}

#[test]
fn default_manifest_revision_moves_to_the_system_tag() {
    let system = Manifest::new("m", "system", Some("S1".to_owned()));
    let vendor = Manifest::new("m", "vendor", Some("V1".to_owned()));
    assert_eq!(
        updated_revision("clo_system", Some(&system), Some(&vendor)),
        Some("refs/tags/S1".to_owned())
    );
    // The vendor source is only consulted when no system source was given.
    assert_eq!(updated_revision("clo_vendor", Some(&system), Some(&vendor)), None);
    assert_eq!(
        updated_revision("clo_vendor", None, Some(&vendor)),
        Some("refs/tags/V1".to_owned())
    );
    assert_eq!(updated_revision("other", Some(&system), Some(&vendor)), None);
}

#[test]
fn default_manifest_children_are_rewritten_in_place() {
    let system = Manifest::new("m", "system", Some("S1".to_owned()));
    let children = vec![
        XmlNode::Other,
        elem(
            "remote",
            &[("name", "clo_system"), ("fetch", "https://clo"), ("revision", "old")],
        ),
        elem("project", &[("path", "x"), ("name", "y")]),
    ];
    let decisions = update_default_children(&children, Some(&system), None);
    assert_eq!(decisions.len(), 3);
    assert!(matches!(decisions[0], NodeDecision::Keep));
    assert_eq!(attr(&decisions[1], "revision"), Some("refs/tags/S1".to_owned()));
    assert!(matches!(decisions[2], NodeDecision::Keep));
}

#[test]
fn no_manifests_give_no_remotes() {
    let all = get_all_remotes(&Vec::new());
    assert_eq!(all.get("github"), None);
}

#[test]
fn default_manifest_nodes_are_rewritten_only_when_a_rule_applies() {
    let system = Manifest::new("m", "system", Some("S1".to_owned()));
    let node = elem(
        "remote",
        &[("name", "clo_system"), ("fetch", "https://clo"), ("revision", "refs/tags/OLD")],
    );
    let decision = update_default_node(&node, Some(&system), None);
    assert_eq!(attr(&decision, "revision"), Some("refs/tags/S1".to_owned()));
    assert_eq!(attr(&decision, "fetch"), Some("https://clo".to_owned()));
    assert_eq!(attr(&decision, "name"), Some("clo_system".to_owned()));

    // A remote element without a revision attribute stays as it is.
    let bare = elem("remote", &[("name", "clo_system"), ("fetch", "https://clo")]);
    assert!(matches!(update_default_node(&bare, Some(&system), None), NodeDecision::Keep));

    // A remote element without a name stays as it is.
    let nameless = elem("remote", &[("fetch", "https://clo"), ("revision", "r")]);
    assert!(matches!(update_default_node(&nameless, Some(&system), None), NodeDecision::Keep));

    // Unrelated remotes and non-remote elements stay as they are.
    let other = elem(
        "remote",
        &[("name", "aosp"), ("fetch", "https://aosp"), ("revision", "r")],
    );
    assert!(matches!(update_default_node(&other, Some(&system), None), NodeDecision::Keep));
    let project = elem("project", &[("path", "x"), ("name", "y")]);
    assert!(matches!(update_default_node(&project, Some(&system), None), NodeDecision::Keep));
    assert!(matches!(update_default_node(&XmlNode::Other, Some(&system), None), NodeDecision::Keep));
}
