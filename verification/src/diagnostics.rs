//! A snapshot of the installation for troubleshooting.
//!
//! The snapshot says where the application and its backend are taken to
//! be, whether a runtime can be had, and whether the entry script is in
//! place. It is put together from the locator and from what the caller saw
//! of the machine; taking it changes nothing.

use vstd::prelude::*;
use crate::locator::{
    entry_script,
    entry_script_of,
    first_existing,
    first_present,
    DeploymentMode,
    Locator,
    Roots,
};
use crate::path::{join, joined};
use crate::text::{texts, trim, trimmed};

verus! {

/// How asking the system's runtime for its version ended.
#[derive(Clone, Debug, PartialEq, Eq)]
pub enum VersionCheck {
    /// The runtime ran. `success` says whether it ended well, `output` is
    /// what it printed.
    Answered { success: bool, output: String },
    /// The runtime could not be run.
    NotFound,
}

impl View for VersionCheck {
    type V = Option<(bool, Seq<char>)>;

    open spec fn view(&self) -> Option<(bool, Seq<char>)> {
        match *self {
            VersionCheck::Answered { success, output } => Some((success, output@)),
            VersionCheck::NotFound => None,
        }
    }
}

/// What the caller saw of the machine.
#[derive(Clone, Debug, PartialEq, Eq)]
pub struct Sightings {
    /// How asking the system's runtime for its version ended.
    pub version_check: VersionCheck,
    /// For each bundled runtime that the snapshot looks for, in order,
    /// whether it exists.
    pub bundled_present: Vec<bool>,
    /// Whether the backend directory exists.
    pub backend_present: bool,
    /// Whether its `src` directory exists.
    pub backend_src_present: bool,
    /// Whether the entry script exists.
    pub entry_script_present: bool,
    /// The operating system's name.
    pub os: String,
    /// The processor architecture's name.
    pub arch: String,
}

/// Whether a runtime can be had, and which.
#[derive(Clone, Debug, PartialEq, Eq)]
pub struct RuntimeVerdict {
    /// `available` or `unavailable`.
    pub status: String,
    /// A sentence that says which runtime was found, or why none was.
    pub details: String,
}

/// The snapshot.
#[derive(Clone, Debug, PartialEq, Eq)]
pub struct DebugInfo {
    pub app_data_dir: String,
    pub resource_dir: String,
    pub backend_path: String,
    pub server_js_exists: bool,
    pub server_js_path: String,
    pub node_status: String,
    pub node_details: String,
    pub system_node_version: String,
    pub environment: String,
    pub platform: String,
    pub architecture: String,
    pub backend_exists: bool,
    pub backend_src_exists: bool,
}

/// The backend that the application runs: in development the one of the
/// source tree, `workspace`; in a packaged application the one in the
/// resource bundle.
pub open spec fn backend_in_use_of(roots: Roots, workspace: Seq<char>) -> Seq<char> {
    match roots.mode {
        DeploymentMode::Development => workspace,
        DeploymentMode::Packaged => joined(roots.platform, roots.resource_dir, "backend"@),
    }
}

/// The bundled runtimes that the snapshot looks for, in order: two beside
/// the executable, one inside the backend, one in the resource bundle.
pub open spec fn bundled_runtimes_of(roots: Roots, backend: Seq<char>) -> Seq<Seq<char>> {
    seq![
        joined(roots.platform, roots.exe_dir, "node.exe"@),
        joined(roots.platform, roots.exe_dir, "node-x86_64-pc-windows-msvc.exe"@),
        joined(roots.platform, joined(roots.platform, backend, "node"@), "node.exe"@),
        joined(roots.platform, roots.resource_dir, "node.exe"@),
    ]
}

/// Whether a runtime can be had, and the sentence that says so.
///
/// A system runtime that answered well is the one. In development there is
/// no other. A packaged application falls back on the first bundled runtime
/// present, `bundled`; where there is none either, it is without a runtime
/// if the system's one ran and failed, and counts on the system's one if
/// that could not even be asked.
pub open spec fn runtime_verdict_of(
    mode: DeploymentMode,
    check: Option<(bool, Seq<char>)>,
    bundled: Option<Seq<char>>,
) -> (Seq<char>, Seq<char>) {
    match check {
        Some((true, output)) => ("available"@, "System Node.js: "@ + trimmed(output)),
        Some((false, _)) => match mode {
            DeploymentMode::Development => ("unavailable"@, "System Node.js command failed"@),
            DeploymentMode::Packaged => match bundled {
                Some(path) => ("available"@, "Bundled Node.js: "@ + path),
                None => ("unavailable"@, "No Node.js runtime found"@),
            },
        },
        None => match mode {
            DeploymentMode::Development => ("unavailable"@, "System Node.js not found in PATH"@),
            DeploymentMode::Packaged => match bundled {
                Some(path) => ("available"@, "Bundled Node.js: "@ + path),
                None => ("available"@, "Using system Node.js (runtime detection)"@),
            },
        },
    }
}

/// The version that the system's runtime reported, or `Not available`.
pub open spec fn system_version_of(check: Option<(bool, Seq<char>)>) -> Seq<char> {
    match check {
        Some((true, output)) => trimmed(output),
        _ => "Not available"@,
    }
}

/// Whether the entry script counts as in place. A packaged application
/// asks that the directories above it are there as well.
pub open spec fn entry_script_in_place(
    mode: DeploymentMode,
    backend_present: bool,
    backend_src_present: bool,
    entry_script_present: bool,
) -> bool {
    match mode {
        DeploymentMode::Development => entry_script_present,
        DeploymentMode::Packaged => backend_present && backend_src_present
            && entry_script_present,
    }
}

/// The name of the deployment mode.
pub open spec fn environment_of_mode(mode: DeploymentMode) -> Seq<char> {
    match mode {
        DeploymentMode::Development => "development"@,
        DeploymentMode::Packaged => "production"@,
    }
}

/// The first of `candidates` that is present, if any.
pub open spec fn first_bundled(candidates: Seq<Seq<char>>, present: Seq<bool>) -> Option<
    Seq<char>,
> {
    match first_present(present, candidates.len()) {
        Some(i) => Some(candidates[i as int]),
        None => None,
    }
}

/// The backend that the application runs.
pub fn backend_in_use(locator: &Locator, workspace: &str) -> (res: String)
    ensures
        res@ == backend_in_use_of(locator@, workspace@),
{
    match locator.mode {
        DeploymentMode::Development => String::from_str(workspace),
        DeploymentMode::Packaged => join(
            locator.platform,
            locator.resource_dir.as_str(),
            "backend",
        ),
    }
}

/// The bundled runtimes that the snapshot looks for, in order. These are
/// the paths to test for existence.
pub fn bundled_runtimes(locator: &Locator, backend: &str) -> (res: Vec<String>)
    ensures
        texts(res@) == bundled_runtimes_of(locator@, backend@),
{
    let mut list: Vec<String> = Vec::new();
    list.push(join(locator.platform, locator.exe_dir.as_str(), "node.exe"));
    list.push(join(locator.platform, locator.exe_dir.as_str(), "node-x86_64-pc-windows-msvc.exe"));
    let inside = join(locator.platform, backend, "node");
    list.push(join(locator.platform, inside.as_str(), "node.exe"));
    list.push(join(locator.platform, locator.resource_dir.as_str(), "node.exe"));
    list
}

fn labelled(label: &str, value: &str) -> (res: String)
    ensures
        res@ == label@ + value@,
{
    let mut res = String::from_str(label);
    res.append(value);
    res
}

/// Says whether a runtime can be had, given how the system's runtime
/// answered and which bundled candidates are present.
pub fn runtime_verdict(
    mode: DeploymentMode,
    check: &VersionCheck,
    candidates: &Vec<String>,
    present: &Vec<bool>,
) -> (res: RuntimeVerdict)
    ensures
        (res.status@, res.details@) == runtime_verdict_of(
            mode,
            check@,
            first_bundled(texts(candidates@), present@),
        ),
{
    match check {
        VersionCheck::Answered { success, output } => {
            if *success {
                let version = trim(output.as_str());
                return RuntimeVerdict {
                    status: String::from_str("available"),
                    details: labelled("System Node.js: ", version.as_str()),
                };
            }
        },
        VersionCheck::NotFound => {},
    }
    let ran = match check {
        VersionCheck::Answered { .. } => true,
        VersionCheck::NotFound => false,
    };
    match mode {
        DeploymentMode::Development => RuntimeVerdict {
            status: String::from_str("unavailable"),
            details: if ran {
                String::from_str("System Node.js command failed")
            } else {
                String::from_str("System Node.js not found in PATH")
            },
        },
        DeploymentMode::Packaged => match first_existing(present, candidates.len()) {
            Some(i) => RuntimeVerdict {
                status: String::from_str("available"),
                details: labelled("Bundled Node.js: ", candidates[i].as_str()),
            },
            None => if ran {
                RuntimeVerdict {
                    status: String::from_str("unavailable"),
                    details: String::from_str("No Node.js runtime found"),
                }
            } else {
                RuntimeVerdict {
                    status: String::from_str("available"),
                    details: String::from_str("Using system Node.js (runtime detection)"),
                }
            },
        },
    }
}

/// The version that the system's runtime reported, or `Not available`.
pub fn system_version(check: &VersionCheck) -> (res: String)
    ensures
        res@ == system_version_of(check@),
{
    match check {
        VersionCheck::Answered { success, output } => if *success {
            trim(output.as_str())
        } else {
            String::from_str("Not available")
        },
        VersionCheck::NotFound => String::from_str("Not available"),
    }
}

/// Takes the snapshot. `workspace` is the backend of the source tree, used
/// in development.
pub fn debug_info(locator: &Locator, workspace: &str, seen: &Sightings) -> (res: DebugInfo)
    ensures
        res.app_data_dir@ == locator.data_dir@,
        res.resource_dir@ == locator.resource_dir@,
        res.backend_path@ == backend_in_use_of(locator@, workspace@),
        res.server_js_path@ == entry_script_of(locator.platform, res.backend_path@),
        res.server_js_exists == entry_script_in_place(
            locator.mode,
            seen.backend_present,
            seen.backend_src_present,
            seen.entry_script_present,
        ),
        (res.node_status@, res.node_details@) == runtime_verdict_of(
            locator.mode,
            seen.version_check@,
            first_bundled(bundled_runtimes_of(locator@, res.backend_path@), seen.bundled_present@),
        ),
        res.system_node_version@ == system_version_of(seen.version_check@),
        res.environment@ == environment_of_mode(locator.mode),
        res.platform@ == seen.os@,
        res.architecture@ == seen.arch@,
        res.backend_exists == seen.backend_present,
        res.backend_src_exists == seen.backend_src_present,
{
    let backend_path = backend_in_use(locator, workspace);
    let server_js_path = entry_script(locator.platform, backend_path.as_str());
    let candidates = bundled_runtimes(locator, backend_path.as_str());
    let verdict = runtime_verdict(
        locator.mode,
        &seen.version_check,
        &candidates,
        &seen.bundled_present,
    );
    let server_js_exists = match locator.mode {
        DeploymentMode::Development => seen.entry_script_present,
        DeploymentMode::Packaged => seen.backend_present && seen.backend_src_present
            && seen.entry_script_present,
    };
    let environment = match locator.mode {
        DeploymentMode::Development => String::from_str("development"),
        DeploymentMode::Packaged => String::from_str("production"),
    };
    DebugInfo {
        app_data_dir: locator.data_dir.clone(),
        resource_dir: locator.resource_dir.clone(),
        backend_path,
        server_js_exists,
        server_js_path,
        node_status: verdict.status,
        node_details: verdict.details,
        system_node_version: system_version(&seen.version_check),
        environment,
        platform: seen.os.clone(),
        architecture: seen.arch.clone(),
        backend_exists: seen.backend_present,
        backend_src_exists: seen.backend_src_present,
    }
}

} // verus!
