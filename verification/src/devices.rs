//! Picking a device repository out of one page of organization
//! repositories: a repository matches when its name matches the pattern
//! `device_.*_<device>`, and the first matching name of the page wins. The
//! pattern match itself is the regex crate's; what this module proves is
//! which name is picked and when the caller must turn the page.

use vstd::prelude::*;

verus! {

/// Whether a repository name matches the device pattern `device_.*_<device>`
/// for this device. The matching is the regex crate's; the same name and
/// device always give the same answer.
pub uninterp spec fn device_match(name: Seq<char>, device: Seq<char>) -> bool;

/// Relies on regex::Regex::new and regex::Regex::is_match: an unanchored
/// match of `device_.*_<device>` against the repository name. A device whose
/// characters do not form a valid pattern matches nothing.
#[verifier::external_body]
fn device_repo_matches(name: &str, device: &str) -> (r: bool)
    ensures
        r == device_match(name@, device@),
{
    let pattern = format!("device_.*_{}", device);
    match regex::Regex::new(&pattern) {
        Ok(re) => re.is_match(name),
        Err(_) => false,
    }
}

/// The first repository name of the page that matches the device pattern,
/// if any.
pub fn find_device_repo_in_page(names: &Vec<String>, device: &str) -> (r: Option<String>)
    ensures
        (match r {
            Some(name) => exists|i: int|
                {
                    &&& 0 <= i < names@.len()
                    &&& names@[i]@ == name@
                    &&& device_match(#[trigger] names@[i]@, device@)
                    &&& forall|j: int| 0 <= j < i ==> !device_match(#[trigger] names@[j]@, device@)
                },
            None => forall|i: int|
                0 <= i < names@.len() ==> !device_match(#[trigger] names@[i]@, device@),
        }),
{
    let n = names.len();
    let mut i: usize = 0;
    while i < n
        invariant
            i <= n,
            n == names@.len(),
            forall|j: int| 0 <= j < i ==> !device_match(#[trigger] names@[j]@, device@),
        decreases n - i,
    {
        let name = &names[i];
        if device_repo_matches(name.as_str(), device) {
            let found = name.clone();
            proof {
                let w = i as int;
                assert(names@[w]@ == found@ && device_match(names@[w]@, device@) && forall|j: int|
                    0 <= j < w ==> !device_match(#[trigger] names@[j]@, device@));
            }
            return Some(found);
        }
        i = i + 1;
    }
    None
}

/// What the caller must do with one page of the repository listing.
#[derive(Debug, PartialEq, Eq)]
pub enum PageStep {
    /// This repository is the device's; the search is over.
    Found(String),
    /// The page held repositories but none matched: ask for the next page.
    NextPage,
    /// The page was empty: there are no more repositories to search and the
    /// device has none.
    NoRepos,
}

/// Mathematical view of a [`PageStep`].
pub enum PageStepView {
    Found(Seq<char>),
    NextPage,
    NoRepos,
}

impl View for PageStep {
    type V = PageStepView;

    open spec fn view(&self) -> PageStepView {
        match self {
            PageStep::Found(name) => PageStepView::Found(name@),
            PageStep::NextPage => PageStepView::NextPage,
            PageStep::NoRepos => PageStepView::NoRepos,
        }
    }
}

/// Decides one page of the repository search: an empty page ends the search
/// with nothing, a page with a matching name ends it with the first such
/// name, and any other page sends the caller to the next one. `page_len` is
/// the number of repositories listed on the page, matching or not.
pub fn page_decision(page_len: usize, names: &Vec<String>, device: &str) -> (r: PageStep)
    ensures
        page_len == 0 ==> r is NoRepos,
        page_len > 0 ==> (match r {
            PageStep::Found(name) => exists|i: int|
                {
                    &&& 0 <= i < names@.len()
                    &&& names@[i]@ == name@
                    &&& device_match(#[trigger] names@[i]@, device@)
                },
            PageStep::NextPage => forall|i: int|
                0 <= i < names@.len() ==> !device_match(#[trigger] names@[i]@, device@),
            PageStep::NoRepos => false,
        }),
{
    if page_len == 0 {
        return PageStep::NoRepos;
    }
    match find_device_repo_in_page(names, device) {
        Some(name) => PageStep::Found(name),
        None => PageStep::NextPage,
    }
}

} // verus!
