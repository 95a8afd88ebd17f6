//! Verified construction of the engine's deterministic messages: the merge
//! commit message, the manifest-update commit message, and the per-repository
//! console report lines.

use vstd::prelude::*;

use crate::model::MergeOutcome;
use crate::strings::after_last;
use crate::strings::concat2;
use crate::strings::concat3;
use crate::strings::concat4;
use crate::strings::concat5;
use crate::strings::contains_char;
use crate::strings::last_segment_after;

verus! {

/// The commit message recorded for a successful merge: the tag is the part
/// of the revision after its last `/`.
pub open spec fn merge_message_view(revision: Seq<char>, remote_url: Seq<char>) -> Seq<char> {
    "Merge tag '"@ + after_last(revision, '/') + "' of "@ + remote_url + " into HEAD"@
}

/// The commit message for merging `revision` from `remote_url`, or `None`
/// when the revision holds no `/` and so no tag can be taken from it.
pub fn merge_commit_message(revision: &str, remote_url: &str) -> (r: Option<String>)
    ensures
        r is Some <==> contains_char(revision@, '/'),
        r matches Some(m) ==> m@ == merge_message_view(revision@, remote_url@),
{
    match last_segment_after(revision, '/') {
        Some(tag) => Some(concat5("Merge tag '", tag.as_str(), "' of ", remote_url, " into HEAD")),
        None => None,
    }
}

/// The commit message for the manifest repository after an upstream run,
/// naming whichever tags were merged.
pub open spec fn update_manifest_message_view(
    system_tag: Option<Seq<char>>,
    vendor_tag: Option<Seq<char>>,
) -> Seq<char> {
    let base = "manifest: upstream with clo\n"@;
    let with_system = match system_tag {
        Some(tag) => base + "\n* system tag: "@ + tag,
        None => base,
    };
    match vendor_tag {
        Some(tag) => with_system + "\n* vendor tag: "@ + tag,
        None => with_system,
    }
}

/// Builds the manifest-update commit message from the tags that were merged.
pub fn update_manifest_message(system_tag: Option<&String>, vendor_tag: Option<&String>) -> (r:
    String)
    ensures
        r@ == update_manifest_message_view(
            match system_tag {
                Some(t) => Some(t@),
                None => None,
            },
            match vendor_tag {
                Some(t) => Some(t@),
                None => None,
            },
        ),
{
    let mut message = match system_tag {
        Some(tag) => concat3("manifest: upstream with clo\n", "\n* system tag: ", tag.as_str()),
        None => "manifest: upstream with clo\n".to_owned(),
    };
    if let Some(tag) = vendor_tag {
        message = concat3(message.as_str(), "\n* vendor tag: ", tag.as_str());
    }
    message
}

/// The console line announcing that a repository's merge has started.
pub fn start_line(repo_name: &str) -> (r: String)
    ensures
        r@ == "Merging in "@ + repo_name@,
{
    concat2("Merging in ", repo_name)
}

/// The console line announcing that a repository was pushed.
pub fn pushed_line(repo_name: &str) -> (r: String)
    ensures
        r@ == "Successfully pushed "@ + repo_name@,
{
    concat2("Successfully pushed ", repo_name)
}

/// The console report line for one job's outcome.
pub open spec fn outcome_line_view(repo_name: Seq<char>, outcome: MergeOutcome) -> Seq<char> {
    match outcome@ {
        crate::model::MergeOutcomeView::UpToDate => repo_name + " is already up-to-date"@,
        crate::model::MergeOutcomeView::Merged(_) => "Successfully merged in "@ + repo_name,
        crate::model::MergeOutcomeView::Conflict(reason) => "Error: failed to merge in "@
            + repo_name + ": "@ + reason,
        crate::model::MergeOutcomeView::Error(_, reason) => "Error: failed to merge in "@
            + repo_name + ": "@ + reason,
    }
}

/// One human-readable line per finished job: a short label, the repository
/// name, and on failure the cause. No outcome is ever left without a line.
pub fn outcome_line(repo_name: &str, outcome: &MergeOutcome) -> (r: String)
    ensures
        r@ == outcome_line_view(repo_name@, *outcome),
{
    match outcome {
        MergeOutcome::UpToDate => concat2(repo_name, " is already up-to-date"),
        MergeOutcome::Merged(_) => concat2("Successfully merged in ", repo_name),
        MergeOutcome::Conflict(reason) => concat4(
            "Error: failed to merge in ",
            repo_name,
            ": ",
            reason.as_str(),
        ),
        MergeOutcome::Error(_, reason) => concat4(
            "Error: failed to merge in ",
            repo_name,
            ": ",
            reason.as_str(),
        ),
    }
}

} // verus!
