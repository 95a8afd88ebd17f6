//! The manifest descriptors of the merge tool: which manifest file a source
//! is read from, and the upstream names, URLs and revision refs derived from
//! the source's name and tag. Reading and writing the file itself is I/O and
//! stays outside the library; everything derived here is exact string work.

use vstd::prelude::*;

use crate::strings::before_last;
use crate::strings::concat2;
use crate::strings::concat3;
use crate::strings::concat5;
use crate::strings::contains_char;
use crate::strings::prefix_before_last;

verus! {

/// One manifest source: its short name, the path of its XML file, and the
/// upstream tag to merge, when there is one.
pub struct Manifest {
    name: String,
    path: String,
    tag: Option<String>,
}

/// Mathematical view of a [`Manifest`].
pub struct ManifestView {
    pub name: Seq<char>,
    pub path: Seq<char>,
    pub tag: Option<Seq<char>>,
}

impl View for Manifest {
    type V = ManifestView;

    closed spec fn view(&self) -> ManifestView {
        ManifestView {
            name: self.name@,
            path: self.path@,
            tag: match &self.tag {
                Some(tag) => Some(tag@),
                None => None,
            },
        }
    }
}

/// The revision ref a tag stands for.
pub open spec fn revision_view(tag: Seq<char>) -> Seq<char> {
    "refs/tags/"@ + tag
}

impl Manifest {
    /// A manifest named `name` under the directory `dir`, with the given
    /// upstream tag, read from `dir/name.xml`.
    pub fn new(dir: &str, name: &str, tag: Option<String>) -> (m: Manifest)
        ensures
            m@.name == name@,
            m@.path == dir@ + "/"@ + name@ + ".xml"@,
            m@.tag == (match tag {
                Some(t) => Some(t@),
                None => None::<Seq<char>>,
            }),
    {
        Manifest {
            name: name.to_owned(),
            path: concat4_path(dir, name),
            tag,
        }
    }

    /// The manifest's file name.
    pub fn get_name(&self) -> (r: String)
        ensures
            r@ == self@.name + ".xml"@,
    {
        concat2(self.name.as_str(), ".xml")
    }

    /// The full path of the manifest's XML file.
    pub fn get_path(&self) -> (r: String)
        ensures
            r@ == self@.path,
    {
        self.path.clone()
    }

    /// The URL the manifest is downloaded from, when a tag is set.
    pub fn get_url(&self) -> (r: Option<String>)
        ensures
            r is Some <==> self@.tag is Some,
            r matches Some(url) ==> (self@.tag matches Some(tag) && url@
                == "https://git.codelinaro.org/clo/la/la/"@ + self@.name + "/manifest/-/raw/"@
                + tag + "/"@ + tag + ".xml"@),
    {
        match &self.tag {
            Some(tag) => {
                let head = concat5(
                    "https://git.codelinaro.org/clo/la/la/",
                    self.name.as_str(),
                    "/manifest/-/raw/",
                    tag.as_str(),
                    "/",
                );
                Some(concat3(head.as_str(), tag.as_str(), ".xml"))
            },
            None => None,
        }
    }

    /// The name under which this source's remote is registered.
    pub fn get_remote_name(&self) -> (r: String)
        ensures
            r@ == "clo_"@ + self@.name,
    {
        concat2("clo_", self.name.as_str())
    }

    /// The base URL under which this source's repositories live.
    pub fn get_remote_url(&self) -> (r: String)
        ensures
            r@ == "https://git.codelinaro.org/clo/la"@,
    {
        "https://git.codelinaro.org/clo/la".to_owned()
    }

    /// The base URL of the AOSP mirror.
    pub fn get_aosp_remote_url(&self) -> (r: String)
        ensures
            r@ == "https://android.googlesource.com/platform"@,
    {
        "https://android.googlesource.com/platform".to_owned()
    }

    /// The revision ref to merge, when a tag is set.
    pub fn get_revision(&self) -> (r: Option<String>)
        ensures
            r is Some <==> self@.tag is Some,
            r matches Some(rev) ==> (self@.tag matches Some(tag) && rev@ == revision_view(tag)),
    {
        match &self.tag {
            Some(tag) => Some(concat2("refs/tags/", tag.as_str())),
            None => None,
        }
    }

    /// The directory the manifest file sits in: everything before the last
    /// `/` of its path, or the empty string when the path has no `/`.
    pub fn get_repo_path(&self) -> (r: String)
        ensures
            contains_char(self@.path, '/') ==> r@ == before_last(self@.path, '/'),
            !contains_char(self@.path, '/') ==> r@.len() == 0,
    {
        match prefix_before_last(self.path.as_str(), '/') {
            Some(dir) => dir,
            None => String::new(),
        }
    }
}

/// Composes `dir/name.xml`.
fn concat4_path(dir: &str, name: &str) -> (r: String)
    ensures
        r@ == dir@ + "/"@ + name@ + ".xml"@,
{
    let mut s = dir.to_owned();
    s.append("/");
    s.append(name);
    s.append(".xml");
    s
}

/// The commit message recorded on the default manifest after its revisions
/// were moved to the merged tags: named for the system source when one was
/// merged, else for the vendor source.
pub fn update_default_commit_message(system: Option<&Manifest>, vendor: Option<&Manifest>) -> (r:
    String)
    requires
        (match system {
            Some(m) => m@.tag is Some,
            None => true,
        }),
        (match system {
            None => match vendor {
                Some(m) => m@.tag is Some,
                None => false,
            },
            Some(_) => true,
        }),
    ensures
        (match system {
            Some(m) => (m@.tag matches Some(tag) && r@ == "system: Update default manifest to "@
                + revision_view(tag)),
            None => match vendor {
                Some(m) => (m@.tag matches Some(tag) && r@
                    == "vendor: Update default manifest to "@ + revision_view(tag)),
                None => false,
            },
        }),
{
    match system {
        Some(manifest) => {
            let revision = manifest.get_revision().unwrap();
            concat2("system: Update default manifest to ", revision.as_str())
        },
        None => {
            let manifest = match vendor {
                Some(m) => m,
                None => unreached(),
            };
            let revision = manifest.get_revision().unwrap();
            concat2("vendor: Update default manifest to ", revision.as_str())
        },
    }
}

} // verus!
