//! Where the runtime executable and the backend's entry script are looked
//! for.
//!
//! A search is an ordered list of candidate paths, most specific first. The
//! caller tests each candidate for existence and hands the answers back as a
//! list of flags in the same order; a candidate without a flag counts as
//! absent. The first candidate present wins.

use vstd::prelude::*;
use crate::error::{Failure, SupervisorError};
use crate::path::{join, joined, parent_or_same, parent_or_self, Platform};
use crate::text::texts;

verus! {

/// How the application was deployed. It is fixed for the life of the
/// process and decides which search applies.
#[derive(Clone, Copy, Debug, PartialEq, Eq, Structural)]
pub enum DeploymentMode {
    /// Run from a source tree; the runtime is the one on the search path.
    Development,
    /// Installed from a bundle that brings its own runtime.
    Packaged,
}

/// The first position below `limit`, from `from` on, whose flag is set.
pub open spec fn first_present_from(present: Seq<bool>, from: nat, limit: nat) -> Option<nat>
    decreases limit - from,
{
    if from >= limit {
        None
    } else if from < present.len() && present[from as int] {
        Some(from)
    } else {
        first_present_from(present, from + 1, limit)
    }
}

/// The first of `limit` candidates whose flag in `present` is set.
pub open spec fn first_present(present: Seq<bool>, limit: nat) -> Option<nat> {
    first_present_from(present, 0, limit)
}

/// The candidate that a search settles on, or the failure that lists every
/// candidate tried.
pub open spec fn discovered(candidates: Seq<Seq<char>>, present: Seq<bool>) -> Result<
    Seq<char>,
    Failure,
> {
    match first_present(present, candidates.len()) {
        Some(i) => Ok(candidates[i as int]),
        None => Err(Failure::DiscoveryFailed { searched: candidates }),
    }
}

/// The runtime that a search settles on: the first candidate present, or
/// `fallback` where none is.
pub open spec fn located_runtime(
    candidates: Seq<Seq<char>>,
    present: Seq<bool>,
    fallback: Seq<char>,
) -> Seq<char> {
    match first_present(present, candidates.len()) {
        Some(i) => candidates[i as int],
        None => fallback,
    }
}

/// The result of a search as plain text values.
pub open spec fn search_view(res: Result<String, SupervisorError>) -> Result<Seq<char>, Failure> {
    match res {
        Ok(path) => Ok(path@),
        Err(e) => Err(e@),
    }
}

/// The name under which the operating system finds the runtime on its
/// search path.
pub open spec fn system_runtime_of(platform: Platform) -> Seq<char> {
    match platform {
        Platform::Windows => "node.exe"@,
        Platform::Unix => "node"@,
    }
}

/// The name of the bundled runtime that carries the build target.
pub open spec fn sidecar_runtime() -> Seq<char> {
    "node-x86_64-pc-windows-msvc.exe"@
}

/// The plain name of the bundled runtime.
pub open spec fn bundled_runtime() -> Seq<char> {
    "node.exe"@
}

/// The entry script of the backend rooted at `root`.
pub open spec fn entry_script_of(platform: Platform, root: Seq<char>) -> Seq<char> {
    joined(platform, joined(platform, root, "src"@), "server.js"@)
}

/// The installation as plain text values.
pub struct Roots {
    pub mode: DeploymentMode,
    pub platform: Platform,
    pub exe_dir: Seq<char>,
    pub resource_dir: Seq<char>,
    pub data_dir: Seq<char>,
}

impl Roots {
    /// The two names of the bundled runtime directly below `dir`, the one
    /// that carries the build target first.
    pub open spec fn runtime_pair(self, dir: Seq<char>) -> Seq<Seq<char>> {
        seq![
            joined(self.platform, dir, sidecar_runtime()),
            joined(self.platform, dir, bundled_runtime()),
        ]
    }

    /// The places where the runtime is looked for, in order. A packaged
    /// application looks beside its own executable, then in `bin` below
    /// that, then in its data directory. In development nothing is looked
    /// for.
    pub open spec fn runtime_candidates(self) -> Seq<Seq<char>> {
        match self.mode {
            DeploymentMode::Development => Seq::empty(),
            DeploymentMode::Packaged => self.runtime_pair(self.exe_dir) + self.runtime_pair(
                joined(self.platform, self.exe_dir, "bin"@),
            ) + self.runtime_pair(self.data_dir),
        }
    }

    /// The directories in which the backend is looked for, in order: in the
    /// resource bundle, beside the executable, in the data directory, and
    /// beside the data directory.
    pub open spec fn backend_candidates(self) -> Seq<Seq<char>> {
        seq![
            joined(self.platform, self.resource_dir, "backend"@),
            joined(self.platform, self.exe_dir, "backend"@),
            joined(self.platform, self.data_dir, "backend"@),
            joined(self.platform, parent_or_self(self.platform, self.data_dir), "backend"@),
        ]
    }

    /// The entry script of each backend candidate, in the same order.
    pub open spec fn entry_script_candidates(self) -> Seq<Seq<char>> {
        Seq::new(
            self.backend_candidates().len(),
            |i: int| entry_script_of(self.platform, self.backend_candidates()[i]),
        )
    }

    /// The backend directory that a search settles on: the first whose
    /// entry script is present. Where none is, the failure lists the entry
    /// script of every candidate.
    pub open spec fn located_backend(self, present: Seq<bool>) -> Result<Seq<char>, Failure> {
        match first_present(present, self.backend_candidates().len()) {
            Some(i) => Ok(self.backend_candidates()[i as int]),
            None => Err(Failure::DiscoveryFailed { searched: self.entry_script_candidates() }),
        }
    }
}

/// Where the application is installed, and how.
pub struct Locator {
    pub mode: DeploymentMode,
    pub platform: Platform,
    /// The directory that holds the application's own executable.
    pub exe_dir: String,
    /// The directory that holds the bundled resources.
    pub resource_dir: String,
    /// The directory in which the application may write.
    pub data_dir: String,
}

impl View for Locator {
    type V = Roots;

    open spec fn view(&self) -> Roots {
        Roots {
            mode: self.mode,
            platform: self.platform,
            exe_dir: self.exe_dir@,
            resource_dir: self.resource_dir@,
            data_dir: self.data_dir@,
        }
    }
}

/// The first of `limit` candidates whose flag in `present` is set.
pub fn first_existing(present: &Vec<bool>, limit: usize) -> (res: Option<usize>)
    ensures
        match res {
            Some(i) => i < limit && first_present(present@, limit as nat) == Some(i as nat),
            None => first_present(present@, limit as nat) is None,
        },
{
    let mut i: usize = 0;
    while i < limit
        invariant
            i <= limit,
            first_present_from(present@, i as nat, limit as nat) == first_present(
                present@,
                limit as nat,
            ),
        decreases limit - i,
    {
        if i < present.len() && present[i] {
            return Some(i);
        }
        i = i + 1;
    }
    None
}

/// Searches `candidates` in order and returns the first that is present.
/// Where none is, the failure lists every candidate, in order.
pub fn discover(candidates: &Vec<String>, present: &Vec<bool>) -> (res: Result<
    String,
    SupervisorError,
>)
    ensures
        search_view(res) == discovered(texts(candidates@), present@),
{
    match first_existing(present, candidates.len()) {
        Some(i) => Ok(candidates[i].clone()),
        None => {
            let searched = candidates.clone();
            Err(SupervisorError::DiscoveryFailed { searched })
        },
    }
}

/// Searches `candidates` in order and returns the first that is present,
/// or `fallback` where none is. A missing runtime is no failure here: the
/// fallback is handed to the spawn, which reports it.
pub fn locate_runtime(candidates: &Vec<String>, present: &Vec<bool>, fallback: &str) -> (res:
    String)
    ensures
        res@ == located_runtime(texts(candidates@), present@, fallback@),
{
    match first_existing(present, candidates.len()) {
        Some(i) => candidates[i].clone(),
        None => String::from_str(fallback),
    }
}

/// The name under which the operating system finds the runtime on its
/// search path.
pub fn system_runtime(platform: Platform) -> (res: &'static str)
    ensures
        res@ == system_runtime_of(platform),
{
    match platform {
        Platform::Windows => "node.exe",
        Platform::Unix => "node",
    }
}

/// The entry script of the backend rooted at `root`.
pub fn entry_script(platform: Platform, root: &str) -> (res: String)
    ensures
        res@ == entry_script_of(platform, root@),
{
    let src = join(platform, root, "src");
    join(platform, src.as_str(), "server.js")
}

impl Locator {
    fn push_runtime_pair(&self, dir: &str, list: &mut Vec<String>)
        ensures
            texts(final(list)@) == texts(old(list)@) + self@.runtime_pair(dir@),
    {
        list.push(join(self.platform, dir, "node-x86_64-pc-windows-msvc.exe"));
        list.push(join(self.platform, dir, "node.exe"));
    }

    /// The places where the runtime is looked for, in order.
    pub fn runtime_candidates(&self) -> (res: Vec<String>)
        ensures
            texts(res@) == self@.runtime_candidates(),
    {
        let mut list: Vec<String> = Vec::new();
        match self.mode {
            DeploymentMode::Development => {},
            DeploymentMode::Packaged => {
                self.push_runtime_pair(self.exe_dir.as_str(), &mut list);
                let bin = join(self.platform, self.exe_dir.as_str(), "bin");
                self.push_runtime_pair(bin.as_str(), &mut list);
                self.push_runtime_pair(self.data_dir.as_str(), &mut list);
            },
        }
        list
    }

    /// The runtime to launch: the first candidate present, or the name that
    /// the operating system resolves on its search path.
    pub fn locate_runtime(&self, present: &Vec<bool>) -> (res: String)
        ensures
            res@ == located_runtime(
                self@.runtime_candidates(),
                present@,
                system_runtime_of(self.platform),
            ),
    {
        let candidates = self.runtime_candidates();
        locate_runtime(&candidates, present, system_runtime(self.platform))
    }

    /// The directories in which the backend is looked for, in order.
    pub fn backend_candidates(&self) -> (res: Vec<String>)
        ensures
            texts(res@) == self@.backend_candidates(),
    {
        let mut list: Vec<String> = Vec::new();
        list.push(join(self.platform, self.resource_dir.as_str(), "backend"));
        list.push(join(self.platform, self.exe_dir.as_str(), "backend"));
        list.push(join(self.platform, self.data_dir.as_str(), "backend"));
        let beside = parent_or_same(self.platform, self.data_dir.as_str());
        list.push(join(self.platform, beside.as_str(), "backend"));
        list
    }

    /// The entry script of each backend candidate, in the same order. These
    /// are the paths to test for existence.
    pub fn entry_script_candidates(&self) -> (res: Vec<String>)
        ensures
            texts(res@) == self@.entry_script_candidates(),
    {
        let dirs = self.backend_candidates();
        let mut list: Vec<String> = Vec::new();
        let mut i: usize = 0;
        while i < dirs.len()
            invariant
                i <= dirs.len(),
                texts(dirs@) == self@.backend_candidates(),
                list.len() == i,
                forall|j: int|
                    0 <= j < i ==> (#[trigger] list[j])@ == entry_script_of(
                        self.platform,
                        dirs[j]@,
                    ),
            decreases dirs.len() - i,
        {
            list.push(entry_script(self.platform, dirs[i].as_str()));
            i = i + 1;
        }
        assert(texts(list@) =~= self@.entry_script_candidates()) by {
            assert forall|j: int| 0 <= j < list.len() implies texts(list@)[j]
                == self@.entry_script_candidates()[j] by {
            }
        }
        list
    }

    /// The backend directory to run: the first candidate whose entry script
    /// is present. Where none is, the failure lists the entry script of
    /// every candidate, in the order tried.
    pub fn locate_backend(&self, present: &Vec<bool>) -> (res: Result<String, SupervisorError>)
        ensures
            search_view(res) == self@.located_backend(present@),
    {
        let dirs = self.backend_candidates();
        match first_existing(present, dirs.len()) {
            Some(i) => {
                Ok(dirs[i].clone())
            },
            None => Err(SupervisorError::DiscoveryFailed { searched: self.entry_script_candidates() }),
        }
    }
}

/// The first candidate present is within the list, is present, and no
/// candidate before it is; where there is none, no candidate is present.
pub proof fn lemma_first_present(present: Seq<bool>, limit: nat)
    ensures
        match first_present(present, limit) {
            Some(i) => {
                &&& i < limit
                &&& i < present.len()
                &&& present[i as int]
                &&& forall|j: int| 0 <= j < i ==> !present[j]
            },
            None => forall|j: int| 0 <= j < limit && j < present.len() ==> !present[j],
        },
{
    lemma_first_present_from(present, 0, limit);
}

proof fn lemma_first_present_from(present: Seq<bool>, from: nat, limit: nat)
    ensures
        match first_present_from(present, from, limit) {
            Some(i) => {
                &&& from <= i < limit
                &&& i < present.len()
                &&& present[i as int]
                &&& forall|j: int| from <= j < i ==> !present[j]
            },
            None => forall|j: int| from <= j < limit && j < present.len() ==> !present[j],
        },
    decreases limit - from,
{
    if from < limit && !(from < present.len() && present[from as int]) {
        lemma_first_present_from(present, from + 1, limit);
    }
}

} // verus!
