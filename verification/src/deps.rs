//! The rules for turning one dependency record (as read from a device
//! repository's dependency file) into a concrete dependency: which remote
//! applies when none is named, how the full repository name is composed
//! from the remote's fetch URL, and where the branch comes from when none
//! is given.

use vstd::prelude::*;

use crate::remotes::Remote;
use crate::strings::after_last;
use crate::strings::concat2;
use crate::strings::concat3;
use crate::strings::concat5;
use crate::strings::contains_char;
use crate::strings::last_segment_after;
use crate::strings::str_contains_char;
use crate::strings::str_eq;
use crate::strings::trim_end_char;
use crate::strings::trim_end_spec;
use crate::table::KeyTable;
use crate::table::lookup;

verus! {

/// One resolved dependency: the full repository name, the local path to
/// check it out at, the remote it is fetched from, the branch to track, and
/// an optional clone depth.
#[derive(Debug, PartialEq, Eq)]
pub struct Dependency {
    pub name: String,
    pub path: String,
    pub remote: String,
    pub branch: String,
    pub clone_depth: Option<String>,
}

/// Mathematical view of a [`Dependency`].
pub struct DependencyView {
    pub name: Seq<char>,
    pub path: Seq<char>,
    pub remote: Seq<char>,
    pub branch: Seq<char>,
    pub clone_depth: Option<Seq<char>>,
}

impl View for Dependency {
    type V = DependencyView;

    open spec fn view(&self) -> DependencyView {
        DependencyView {
            name: self.name@,
            path: self.path@,
            remote: self.remote@,
            branch: self.branch@,
            clone_depth: match &self.clone_depth {
                Some(depth) => Some(depth@),
                None => None,
            },
        }
    }
}

impl Clone for Dependency {
    fn clone(&self) -> (r: Dependency)
        ensures
            r == *self,
    {
        Dependency {
            name: self.name.clone(),
            path: self.path.clone(),
            remote: self.remote.clone(),
            branch: self.branch.clone(),
            clone_depth: match &self.clone_depth {
                Some(depth) => Some(depth.clone()),
                None => None,
            },
        }
    }
}

/// One dependency record as it stands in the dependency file: the string
/// value under each known key, where the file holds one.
pub struct DepRecord {
    pub repository: Option<String>,
    pub target_path: Option<String>,
    pub remote: Option<String>,
    pub branch: Option<String>,
    pub clone_depth: Option<String>,
}

/// Mathematical view of a [`DepRecord`].
pub struct DepRecordView {
    pub repository: Option<Seq<char>>,
    pub target_path: Option<Seq<char>>,
    pub remote: Option<Seq<char>>,
    pub branch: Option<Seq<char>>,
    pub clone_depth: Option<Seq<char>>,
}

impl View for DepRecord {
    type V = DepRecordView;

    open spec fn view(&self) -> DepRecordView {
        DepRecordView {
            repository: match &self.repository {
                Some(v) => Some(v@),
                None => None,
            },
            target_path: match &self.target_path {
                Some(v) => Some(v@),
                None => None,
            },
            remote: match &self.remote {
                Some(v) => Some(v@),
                None => None,
            },
            branch: match &self.branch {
                Some(v) => Some(v@),
                None => None,
            },
            clone_depth: match &self.clone_depth {
                Some(v) => Some(v@),
                None => None,
            },
        }
    }
}

/// The remote assumed when the record names none: `github` when the
/// repository value already carries an owner (it holds a `/`), else the
/// device remote.
pub open spec fn default_remote(name: Seq<char>) -> Seq<char> {
    if contains_char(name, '/') {
        "github"@
    } else {
        "flamingo-devices"@
    }
}

/// The full repository name: the record's own value for the `github`
/// remote; otherwise the named remote's fetch URL must exist and its last
/// path segment becomes the owner prefix.
pub open spec fn spec_repo_name(
    name: Seq<char>,
    remote: Seq<char>,
    remotes: Seq<(Seq<char>, Remote)>,
) -> Result<Seq<char>, Seq<char>> {
    if remote == "github"@ {
        Ok(name)
    } else {
        match lookup(remotes, remote) {
            None => Err("No such remote exists with the name "@ + remote),
            Some(r) => {
                let trimmed = trim_end_spec(r.fetch@, '/');
                if contains_char(trimmed, '/') {
                    Ok(after_last(trimmed, '/') + "/"@ + name)
                } else {
                    Err("Remote "@ + remote + " is not well defined"@)
                }
            },
        }
    }
}

/// The branch to track: the record's own value when it names one; else the
/// named remote's default revision, which the `github` remote does not
/// have.
pub open spec fn spec_branch(
    branch: Option<Seq<char>>,
    remote: Seq<char>,
    remotes: Seq<(Seq<char>, Remote)>,
) -> Result<Seq<char>, Seq<char>> {
    match branch {
        Some(b) => Ok(b),
        None => {
            if remote == "github"@ {
                Err("no branch given for a github dependency"@)
            } else {
                match lookup(remotes, remote) {
                    Some(r) => match r.revision {
                        Some(rev) => Ok(rev@),
                        None => Err("Remote "@ + remote + " does not have a default revision"@),
                    },
                    None => Err("No such remote exists with the name "@ + remote),
                }
            }
        },
    }
}

/// The complete resolution of one record against the remote table, with the
/// first failing rule's message.
pub open spec fn spec_dependency_get(
    record: DepRecordView,
    remotes: Seq<(Seq<char>, Remote)>,
) -> Result<DependencyView, Seq<char>> {
    match record.repository {
        None => Err("dependency object does not contain a string value for key repository"@),
        Some(name) => match record.target_path {
            None => Err("dependency object does not contain a string value for key target_path"@),
            Some(path) => {
                let remote = match record.remote {
                    Some(r) => r,
                    None => default_remote(name),
                };
                match spec_repo_name(name, remote, remotes) {
                    Err(message) => Err(message),
                    Ok(repo_name) => match spec_branch(record.branch, remote, remotes) {
                        Err(message) => Err(message),
                        Ok(branch) => Ok(
                            DependencyView {
                                name: repo_name,
                                path,
                                remote,
                                branch,
                                clone_depth: record.clone_depth,
                            },
                        ),
                    },
                }
            },
        },
    }
}

impl Dependency {
    /// Resolves one dependency record against the remotes of the manifest
    /// tree: exactly [`spec_dependency_get`], including which rule fails
    /// first on a bad record.
    pub fn get(record: &DepRecord, remotes: &KeyTable<Remote>) -> (r: Result<Dependency, String>)
        requires
            remotes.wf(),
        ensures
            match r {
                Ok(dep) => spec_dependency_get(record@, remotes@) == Ok::<DependencyView, Seq<char>>(dep@),
                Err(message) => spec_dependency_get(record@, remotes@) == Err::<DependencyView, Seq<char>>(message@),
            },
    {
        let name = match &record.repository {
            Some(n) => n,
            None => {
                return Err(
                    "dependency object does not contain a string value for key repository".to_owned(),
                );
            },
        };
        let path = match &record.target_path {
            Some(p) => p.clone(),
            None => {
                return Err(
                    "dependency object does not contain a string value for key target_path".to_owned(),
                );
            },
        };
        let remote: String = match &record.remote {
            Some(r) => r.clone(),
            None => {
                if str_contains_char(name.as_str(), '/') {
                    "github".to_owned()
                } else {
                    "flamingo-devices".to_owned()
                }
            },
        };
        let repo_name: String = if str_eq(remote.as_str(), "github") {
            name.clone()
        } else {
            match remotes.get(remote.as_str()) {
                None => {
                    return Err(concat2("No such remote exists with the name ", remote.as_str()));
                },
                Some(found) => {
                    let trimmed = trim_end_char(found.fetch.as_str(), '/');
                    match last_segment_after(trimmed.as_str(), '/') {
                        Some(owner) => concat3(owner.as_str(), "/", name.as_str()),
                        None => {
                            return Err(
                                concat3("Remote ", remote.as_str(), " is not well defined"),
                            );
                        },
                    }
                },
            }
        };
        let branch: String = match &record.branch {
            Some(b) => b.clone(),
            None => {
                if str_eq(remote.as_str(), "github") {
                    return Err("no branch given for a github dependency".to_owned());
                }
                match remotes.get(remote.as_str()) {
                    Some(found) => match &found.revision {
                        Some(rev) => rev.clone(),
                        None => {
                            return Err(
                                concat3(
                                    "Remote ",
                                    remote.as_str(),
                                    " does not have a default revision",
                                ),
                            );
                        },
                    },
                    None => {
                        return Err(
                            concat2("No such remote exists with the name ", remote.as_str()),
                        );
                    },
                }
            },
        };
        Ok(
            Dependency {
                name: repo_name,
                path,
                remote,
                branch,
                clone_depth: match &record.clone_depth {
                    Some(depth) => Some(depth.clone()),
                    None => None,
                },
            },
        )
    }
}

/// The URL the dependency file of a repository is fetched from.
pub fn get_deps_url(repo_name: &str, branch: &str) -> (r: String)
    ensures
        r@ == "https://raw.githubusercontent.com/"@ + repo_name@ + "/"@ + branch@
            + "/flamingo.dependencies"@,
{
    concat5(
        "https://raw.githubusercontent.com/",
        repo_name,
        "/",
        branch,
        "/flamingo.dependencies",
    )
}

} // verus!
