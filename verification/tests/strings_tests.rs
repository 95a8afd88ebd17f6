use manifest_merger::messages::merge_commit_message;
use manifest_merger::messages::outcome_line;
use manifest_merger::messages::pushed_line;
use manifest_merger::messages::start_line;
use manifest_merger::messages::update_manifest_message;
use manifest_merger::model::MergeOutcome;
use manifest_merger::model::Stage;
use manifest_merger::strings::concat2;
use manifest_merger::strings::concat3;
use manifest_merger::strings::last_segment_after;
use manifest_merger::strings::prefix_before_last;
use manifest_merger::strings::rfind_char;
use manifest_merger::strings::starts_with_str;
use manifest_merger::strings::str_contains_char;
use manifest_merger::strings::str_eq;
use manifest_merger::strings::trim_end_char;

#[test]
fn concatenation_joins_pieces() {
    assert_eq!(concat2("a", "b"), "ab");
    assert_eq!(concat3("a", "/", "b"), "a/b");
    assert_eq!(concat2("", ""), "");
}

#[test]
fn rfind_char_finds_the_last_occurrence() {
    assert_eq!(rfind_char("refs/tags/A13", '/'), Some(9));
    assert_eq!(rfind_char("abc", '/'), None);
    assert_eq!(rfind_char("", '/'), None);
}

#[test]
fn last_segment_is_the_piece_after_the_last_separator() {
    assert_eq!(last_segment_after("refs/tags/A13", '/'), Some("A13".to_owned()));
    assert_eq!(last_segment_after("a/b", '/'), Some("b".to_owned()));
    assert_eq!(last_segment_after("a/", '/'), Some("".to_owned()));
    assert_eq!(last_segment_after("plain", '/'), None);
}

#[test]
fn prefix_is_the_piece_before_the_last_separator() {
    assert_eq!(prefix_before_last("dir/sub/file.xml", '/'), Some("dir/sub".to_owned()));
    assert_eq!(prefix_before_last("/x", '/'), Some("".to_owned()));
    assert_eq!(prefix_before_last("plain", '/'), None);
}

#[test]
fn trim_end_removes_only_trailing_separators() {
    assert_eq!(trim_end_char("https://host/org/", '/'), "https://host/org");
    assert_eq!(trim_end_char("a///", '/'), "a");
    assert_eq!(trim_end_char("///", '/'), "");
    assert_eq!(trim_end_char("a/b", '/'), "a/b");
}

#[test]
fn prefix_and_equality_checks() {
    assert!(starts_with_str("platform/external/zlib", "platform/external/"));
    assert!(!starts_with_str("platform/art", "platform/external/"));
    assert!(!starts_with_str("pl", "platform/"));
    assert!(str_eq("github", "github"));
    assert!(!str_eq("github", "githuB"));
    assert!(!str_eq("github", "github "));
    assert!(str_contains_char("a/b", '/'));
    assert!(!str_contains_char("ab", '/'));
}

#[test]
fn merge_commit_message_names_the_tag_and_url() {
    assert_eq!(
        merge_commit_message("refs/tags/A13", "https://host/org/repo"),
        Some("Merge tag 'A13' of https://host/org/repo into HEAD".to_owned())
    );
    assert_eq!(merge_commit_message("A13", "https://host/org/repo"), None);
}

#[test]
fn manifest_update_message_lists_the_merged_tags() {
    let system = "S1".to_owned();
    let vendor = "V1".to_owned();
    assert_eq!(
        update_manifest_message(Some(&system), Some(&vendor)),
        "manifest: upstream with clo\n\n* system tag: S1\n* vendor tag: V1"
    );
    assert_eq!(
        update_manifest_message(Some(&system), None),
        "manifest: upstream with clo\n\n* system tag: S1"
    );
    assert_eq!(
        update_manifest_message(None, Some(&vendor)),
        "manifest: upstream with clo\n\n* vendor tag: V1"
    );
    assert_eq!(update_manifest_message(None, None), "manifest: upstream with clo\n");
}

#[test]
fn report_lines_label_each_outcome() {
    assert_eq!(start_line("art"), "Merging in art");
    assert_eq!(pushed_line("art"), "Successfully pushed art");
    assert_eq!(outcome_line("art", &MergeOutcome::UpToDate), "art is already up-to-date");
    assert_eq!(
        outcome_line("art", &MergeOutcome::Merged("abc".to_owned())),
        "Successfully merged in art"
    );
    assert_eq!(
        outcome_line("art", &MergeOutcome::Conflict("Repo art has conflicts".to_owned())),
        "Error: failed to merge in art: Repo art has conflicts"
    );
    assert_eq!(
        outcome_line("art", &MergeOutcome::Error(Stage::Fetch, "timed out".to_owned())),
        "Error: failed to merge in art: timed out"
    );
}
