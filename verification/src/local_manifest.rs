//! The local device manifest that the dependency resolver writes: one
//! `<project>` entry per resolved dependency. Building the entries is
//! verified here; serializing them to XML on disk is boundary work and
//! stays outside the library.

use vstd::prelude::*;

use crate::deps::Dependency;
use crate::strings::after_last;
use crate::strings::contains_char;
use crate::strings::last_segment_after;

verus! {

/// One `<project>` entry of the device manifest.
pub struct ProjectEntry {
    pub name: String,
    pub path: String,
    pub remote: String,
    pub revision: String,
    pub clone_depth: Option<String>,
}

/// Mathematical view of a [`ProjectEntry`].
pub struct ProjectEntryView {
    pub name: Seq<char>,
    pub path: Seq<char>,
    pub remote: Seq<char>,
    pub revision: Seq<char>,
    pub clone_depth: Option<Seq<char>>,
}

impl View for ProjectEntry {
    type V = ProjectEntryView;

    open spec fn view(&self) -> ProjectEntryView {
        ProjectEntryView {
            name: self.name@,
            path: self.path@,
            remote: self.remote@,
            revision: self.revision@,
            clone_depth: match &self.clone_depth {
                Some(depth) => Some(depth@),
                None => None,
            },
        }
    }
}

/// The project name a dependency is listed under: the part of its full
/// repository name after the owner, or the whole name when it has no owner.
pub open spec fn project_name_view(name: Seq<char>) -> Seq<char> {
    if contains_char(name, '/') {
        after_last(name, '/')
    } else {
        name
    }
}

/// The project name a dependency is listed under in the device manifest.
pub fn get_project_name(dependency: &Dependency) -> (r: String)
    ensures
        r@ == project_name_view(dependency@.name),
{
    match last_segment_after(dependency.name.as_str(), '/') {
        Some(segment) => segment,
        None => dependency.name.clone(),
    }
}

/// The manifest entry one dependency becomes.
pub open spec fn project_of(dependency: Dependency) -> ProjectEntryView {
    ProjectEntryView {
        name: project_name_view(dependency.name@),
        path: dependency.path@,
        remote: dependency.remote@,
        revision: dependency.branch@,
        clone_depth: match dependency.clone_depth {
            Some(depth) => Some(depth@),
            None => None,
        },
    }
}

/// The device manifest under construction: its project entries, in order.
pub struct Manifest {
    projects: Vec<ProjectEntry>,
}

impl View for Manifest {
    type V = Seq<ProjectEntryView>;

    closed spec fn view(&self) -> Seq<ProjectEntryView> {
        self.projects@.map_values(|p: ProjectEntry| p@)
    }
}

impl Manifest {
    /// An empty manifest.
    pub fn new() -> (m: Manifest)
        ensures
            m@ =~= Seq::<ProjectEntryView>::empty(),
    {
        Manifest { projects: Vec::new() }
    }

    /// Appends one project entry per dependency, in order.
    pub fn add_dependencies(&mut self, dependencies: &Vec<Dependency>)
        ensures
            final(self)@ == old(self)@ + dependencies@.map_values(
                |d: Dependency| project_of(d),
            ),
    {
        let ghost start = self@;
        let ghost target = dependencies@.map_values(|d: Dependency| project_of(d));
        proof {
            assert(start + target.take(0) =~= start);
        }
        let n = dependencies.len();
        let mut i: usize = 0;
        while i < n
            invariant
                i <= n,
                n == dependencies@.len(),
                target == dependencies@.map_values(|d: Dependency| project_of(d)),
                self@ == start + target.take(i as int),
            decreases n - i,
        {
            let dependency = &dependencies[i];
            let entry = ProjectEntry {
                name: get_project_name(dependency),
                path: dependency.path.clone(),
                remote: dependency.remote.clone(),
                revision: dependency.branch.clone(),
                clone_depth: match &dependency.clone_depth {
                    Some(depth) => Some(depth.clone()),
                    None => None,
                },
            };
            proof {
                assert(entry@ == project_of(dependencies@[i as int]));
            }
            let ghost prev = self@;
            self.projects.push(entry);
            proof {
                assert(self@ =~= prev.push(target[i as int]));
                assert(start + target.take(i as int + 1) =~= (start + target.take(i as int)).push(
                    target[i as int],
                ));
            }
            i = i + 1;
        }
        proof {
            assert(target.take(n as int) =~= target);
        }
    }

    /// The manifest's project entries, in order.
    pub fn projects(&self) -> (r: &Vec<ProjectEntry>)
        ensures
            r@.map_values(|p: ProjectEntry| p@) == self@,
    {
        &self.projects
    }
}

/// Puts the device's own dependency first, builds the device manifest over
/// the whole list, and hands both back. Writing the manifest file is the
/// caller's I/O.
pub fn create_manifest(device_dependency: Dependency, all_dependencies: Vec<Dependency>) -> (r: (
    Manifest,
    Vec<Dependency>,
))
    ensures
        r.1@ == seq![device_dependency] + all_dependencies@,
        r.0@ == (seq![device_dependency] + all_dependencies@).map_values(
            |d: Dependency| project_of(d),
        ),
{
    let ghost all_view = all_dependencies@;
    let ghost device_view = device_dependency;
    let mut dependencies = all_dependencies;
    dependencies.insert(0, device_dependency);
    proof {
        assert(dependencies@ =~= seq![device_view] + all_view);
    }
    let mut manifest = Manifest::new();
    manifest.add_dependencies(&dependencies);
    proof {
        assert(Seq::<ProjectEntryView>::empty() + dependencies@.map_values(
            |d: Dependency| project_of(d),
        ) =~= dependencies@.map_values(|d: Dependency| project_of(d)));
    }
    (manifest, dependencies)
}

} // verus!
