//! The standard layout of a project folder.
//!
//! A project has six folders, most of them with a few folders of their
//! own. This module knows their names and what each is for, lists the
//! directories to make for a new project, and judges what was found in an
//! existing one. Making and reading directories is left to the caller.

use vstd::prelude::*;
use crate::path::{join, joined, Platform};
use crate::text::{option_text, texts};

verus! {

/// The number of folders directly below a project's root.
pub const FOLDER_COUNT: usize = 6;

/// The name of the folder at position `folder`. Positions count from 0; a
/// position behind the last stands for the last.
pub open spec fn folder_name_of(folder: int) -> Seq<char> {
    if folder == 0 {
        "request"@
    } else if folder == 1 {
        "sample_data"@
    } else if folder == 2 {
        "processed_data"@
    } else if folder == 3 {
        "references"@
    } else if folder == 4 {
        "scripts"@
    } else {
        "results"@
    }
}

/// What the folder at position `folder` is for.
pub open spec fn folder_note_of(folder: int) -> Seq<char> {
    if folder == 0 {
        "Contains the initial user request and supporting documentation"@
    } else if folder == 1 {
        "Contains the raw biological images provided for analysis"@
    } else if folder == 2 {
        "Contains intermediate processing results"@
    } else if folder == 3 {
        "Contains scientific and technical documentation"@
    } else if folder == 4 {
        "Contains all analysis code and automation scripts"@
    } else {
        "Contains final outputs and deliverables"@
    }
}

/// The names of the folders below the folder at position `folder`.
pub open spec fn subfolder_names_of(folder: int) -> Seq<Seq<char>> {
    if folder == 0 {
        seq!["documents"@, "images"@, "notes"@]
    } else if folder == 1 {
        seq!["original"@, "test_subset"@]
    } else if folder == 2 {
        seq!["converted"@, "preprocessed"@, "intermediate"@]
    } else if folder == 3 {
        seq!["articles"@, "protocols"@, "manuals"@]
    } else if folder == 4 {
        Seq::empty()
    } else {
        seq!["analysis_results"@, "tutorials"@, "protocols"@, "examples"@]
    }
}

/// What each folder below the folder at position `folder` is for.
pub open spec fn subfolder_notes_of(folder: int) -> Seq<Seq<char>> {
    if folder == 0 {
        seq![
            "documents/: Project specifications, requirements, and communication"@,
            "images/: Reference images from the initial request"@,
            "notes/: Project planning and meeting notes"@,
        ]
    } else if folder == 1 {
        seq![
            "original/: Original unmodified images from the biological sample"@,
            "test_subset/: Small subset of images for testing analysis pipelines"@,
        ]
    } else if folder == 2 {
        seq![
            "converted/: Format-converted images (e.g., TIFF to other formats)"@,
            "preprocessed/: Images after initial processing (denoising, calibration)"@,
            "intermediate/: Temporary analysis files and intermediate results"@,
        ]
    } else if folder == 3 {
        seq![
            "articles/: Relevant scientific papers and literature"@,
            "protocols/: Analysis protocols and methodology documentation"@,
            "manuals/: Software manuals and technical guides"@,
        ]
    } else if folder == 4 {
        Seq::empty()
    } else {
        seq![
            "analysis_results/: Final quantitative results, measurements, and statistics"@,
            "tutorials/: Step-by-step guides for reproducing the analysis"@,
            "protocols/: Finalized analysis protocols for future use"@,
            "examples/: Example outputs and sample results"@,
        ]
    }
}

fn push_text(list: &mut Vec<String>, item: &str)
    ensures
        texts(final(list)@) == texts(old(list)@).push(item@),
{
    list.push(String::from_str(item));
}

/// The name of the folder at position `folder`.
pub fn folder_name(folder: usize) -> (res: &'static str)
    ensures
        res@ == folder_name_of(folder as int),
{
    if folder == 0 {
        "request"
    } else if folder == 1 {
        "sample_data"
    } else if folder == 2 {
        "processed_data"
    } else if folder == 3 {
        "references"
    } else if folder == 4 {
        "scripts"
    } else {
        "results"
    }
}

/// What the folder at position `folder` is for.
pub fn folder_note(folder: usize) -> (res: &'static str)
    ensures
        res@ == folder_note_of(folder as int),
{
    if folder == 0 {
        "Contains the initial user request and supporting documentation"
    } else if folder == 1 {
        "Contains the raw biological images provided for analysis"
    } else if folder == 2 {
        "Contains intermediate processing results"
    } else if folder == 3 {
        "Contains scientific and technical documentation"
    } else if folder == 4 {
        "Contains all analysis code and automation scripts"
    } else {
        "Contains final outputs and deliverables"
    }
}

/// The names of the folders below the folder at position `folder`.
pub fn subfolder_names(folder: usize) -> (res: Vec<String>)
    ensures
        texts(res@) == subfolder_names_of(folder as int),
{
    let mut list: Vec<String> = Vec::new();
    if folder == 0 {
        push_text(&mut list, "documents");
        push_text(&mut list, "images");
        push_text(&mut list, "notes");
    } else if folder == 1 {
        push_text(&mut list, "original");
        push_text(&mut list, "test_subset");
    } else if folder == 2 {
        push_text(&mut list, "converted");
        push_text(&mut list, "preprocessed");
        push_text(&mut list, "intermediate");
    } else if folder == 3 {
        push_text(&mut list, "articles");
        push_text(&mut list, "protocols");
        push_text(&mut list, "manuals");
    } else if folder == 4 {
    } else {
        push_text(&mut list, "analysis_results");
        push_text(&mut list, "tutorials");
        push_text(&mut list, "protocols");
        push_text(&mut list, "examples");
    }
    list
}

/// What each folder below the folder at position `folder` is for.
pub fn subfolder_notes(folder: usize) -> (res: Vec<String>)
    ensures
        texts(res@) == subfolder_notes_of(folder as int),
{
    let mut list: Vec<String> = Vec::new();
    if folder == 0 {
        push_text(&mut list, "documents/: Project specifications, requirements, and communication");
        push_text(&mut list, "images/: Reference images from the initial request");
        push_text(&mut list, "notes/: Project planning and meeting notes");
    } else if folder == 1 {
        push_text(&mut list, "original/: Original unmodified images from the biological sample");
        push_text(&mut list, "test_subset/: Small subset of images for testing analysis pipelines");
    } else if folder == 2 {
        push_text(&mut list, "converted/: Format-converted images (e.g., TIFF to other formats)");
        push_text(
            &mut list,
            "preprocessed/: Images after initial processing (denoising, calibration)",
        );
        push_text(&mut list, "intermediate/: Temporary analysis files and intermediate results");
    } else if folder == 3 {
        push_text(&mut list, "articles/: Relevant scientific papers and literature");
        push_text(&mut list, "protocols/: Analysis protocols and methodology documentation");
        push_text(&mut list, "manuals/: Software manuals and technical guides");
    } else if folder == 4 {
    } else {
        push_text(
            &mut list,
            "analysis_results/: Final quantitative results, measurements, and statistics",
        );
        push_text(&mut list, "tutorials/: Step-by-step guides for reproducing the analysis");
        push_text(&mut list, "protocols/: Finalized analysis protocols for future use");
        push_text(&mut list, "examples/: Example outputs and sample results");
    }
    list
}

/// One directory of a new project.
#[derive(Clone, Debug, PartialEq, Eq)]
pub struct LayoutEntry {
    /// The directory's place below the project's root, written with `/`.
    pub label: String,
    /// The directory's path.
    pub path: String,
}

/// Label and path of each entry of `entries`, in order.
pub open spec fn entry_texts(entries: Seq<LayoutEntry>) -> Seq<(Seq<char>, Seq<char>)> {
    Seq::new(entries.len(), |i: int| (entries[i].label@, entries[i].path@))
}

/// The first `n` folders of a project rooted at `base`.
pub open spec fn folder_entries(platform: Platform, base: Seq<char>, n: nat) -> Seq<
    (Seq<char>, Seq<char>),
> {
    Seq::new(n, |i: int| (folder_name_of(i), joined(platform, base, folder_name_of(i))))
}

/// The folders below the folder at position `folder` of a project rooted
/// at `base`.
pub open spec fn subfolder_entries(platform: Platform, base: Seq<char>, folder: int) -> Seq<
    (Seq<char>, Seq<char>),
> {
    Seq::new(
        subfolder_names_of(folder).len(),
        |j: int|
            (
                folder_name_of(folder) + "/"@ + subfolder_names_of(folder)[j],
                joined(
                    platform,
                    joined(platform, base, folder_name_of(folder)),
                    subfolder_names_of(folder)[j],
                ),
            ),
    )
}

/// The folders below the first `n` folders of a project rooted at `base`,
/// folder by folder.
pub open spec fn all_subfolder_entries(platform: Platform, base: Seq<char>, n: nat) -> Seq<
    (Seq<char>, Seq<char>),
>
    decreases n,
{
    if n == 0 {
        Seq::empty()
    } else {
        all_subfolder_entries(platform, base, (n - 1) as nat) + subfolder_entries(
            platform,
            base,
            n - 1,
        )
    }
}

/// The directories of a new project rooted at `base`, in the order in
/// which they are made: the six folders first, then the folders below
/// each.
pub open spec fn layout_of(platform: Platform, base: Seq<char>) -> Seq<(Seq<char>, Seq<char>)> {
    folder_entries(platform, base, FOLDER_COUNT as nat) + all_subfolder_entries(
        platform,
        base,
        FOLDER_COUNT as nat,
    )
}

fn push_entry(list: &mut Vec<LayoutEntry>, label: String, path: String)
    ensures
        entry_texts(final(list)@) == entry_texts(old(list)@).push((label@, path@)),
{
    list.push(LayoutEntry { label, path });
}

/// The directories of a new project rooted at `base`, in the order in
/// which they are made.
pub fn layout(platform: Platform, base: &str) -> (res: Vec<LayoutEntry>)
    ensures
        entry_texts(res@) == layout_of(platform, base@),
{
    let mut list: Vec<LayoutEntry> = Vec::new();
    let mut i: usize = 0;
    while i < FOLDER_COUNT
        invariant
            i <= FOLDER_COUNT,
            entry_texts(list@) == folder_entries(platform, base@, i as nat),
        decreases FOLDER_COUNT - i,
    {
        let name = folder_name(i);
        push_entry(&mut list, String::from_str(name), join(platform, base, name));
        i = i + 1;
    }
    let mut i: usize = 0;
    while i < FOLDER_COUNT
        invariant
            i <= FOLDER_COUNT,
            entry_texts(list@) == folder_entries(platform, base@, FOLDER_COUNT as nat)
                + all_subfolder_entries(platform, base@, i as nat),
        decreases FOLDER_COUNT - i,
    {
        let folder = folder_name(i);
        let dir = join(platform, base, folder);
        let names = subfolder_names(i);
        let ghost before = entry_texts(list@);
        let mut j: usize = 0;
        while j < names.len()
            invariant
                j <= names.len(),
                i < FOLDER_COUNT,
                folder@ == folder_name_of(i as int),
                dir@ == joined(platform, base@, folder_name_of(i as int)),
                texts(names@) == subfolder_names_of(i as int),
                entry_texts(list@) == before + subfolder_entries(platform, base@, i as int).take(
                    j as int,
                ),
            decreases names.len() - j,
        {
            let mut label = String::from_str(folder);
            label.append("/");
            label.append(names[j].as_str());
            push_entry(&mut list, label, join(platform, dir.as_str(), names[j].as_str()));
            j = j + 1;
        }
        i = i + 1;
    }
    list
}

/// What marks a folder as a project: three directories and the readme.
pub open spec fn marker_paths_of(platform: Platform, folder: Seq<char>) -> Seq<Seq<char>> {
    seq![
        joined(platform, folder, "data"@),
        joined(platform, folder, "code"@),
        joined(platform, folder, "results"@),
        joined(platform, folder, "README.md"@),
    ]
}

/// What marks a folder as a project. These are the paths to test for
/// existence.
pub fn marker_paths(platform: Platform, folder: &str) -> (res: Vec<String>)
    ensures
        texts(res@) == marker_paths_of(platform, folder@),
{
    let mut list: Vec<String> = Vec::new();
    list.push(join(platform, folder, "data"));
    list.push(join(platform, folder, "code"));
    list.push(join(platform, folder, "results"));
    list.push(join(platform, folder, "README.md"));
    list
}

/// Whether each of the first `n` flags is there and set.
pub open spec fn all_present(present: Seq<bool>, n: nat) -> bool {
    forall|i: int| 0 <= i < n ==> #[trigger] is_set(present, i)
}

/// Whether the flag at position `i` is there and set.
pub open spec fn is_set(present: Seq<bool>, i: int) -> bool {
    0 <= i < present.len() && present[i]
}

/// Whether each of the first `n` flags is there and set.
pub fn all_set(present: &Vec<bool>, n: usize) -> (res: bool)
    ensures
        res == all_present(present@, n as nat),
{
    let mut i: usize = 0;
    while i < n
        invariant
            i <= n,
            all_present(present@, i as nat),
        decreases n - i,
    {
        if i >= present.len() || !present[i] {
            assert(!is_set(present@, i as int));
            return false;
        }
        i = i + 1;
    }
    true
}

/// What is known of a folder that may hold a project.
#[derive(Clone, Copy, Debug, PartialEq, Eq, Structural)]
pub struct Validation {
    pub is_valid_path: bool,
    pub is_empty: bool,
    pub has_valid_structure: bool,
}

/// The sentence for a folder that is not there.
pub open spec fn missing_directory_text(folder: Seq<char>) -> Seq<char> {
    "Directory does not exist: "@ + folder
}

/// The sentence for a path that is no directory.
pub open spec fn not_a_directory_text(folder: Seq<char>) -> Seq<char> {
    "Path is not a directory: "@ + folder
}

/// The text of a validation that failed.
pub open spec fn validation_view(res: Result<Validation, String>) -> Result<Validation, Seq<char>> {
    match res {
        Ok(v) => Ok(v),
        Err(e) => Err(e@),
    }
}

/// The judgement of a folder that may hold a project.
///
/// A folder that is not there, or is no directory, is refused with a
/// sentence that names it. Otherwise the folder is a valid path; it has the
/// structure of a project where all four markers are present.
pub open spec fn validated(
    folder: Seq<char>,
    found: bool,
    is_dir: bool,
    is_empty: bool,
    markers: Seq<bool>,
) -> Result<Validation, Seq<char>> {
    if !found {
        Err(missing_directory_text(folder))
    } else if !is_dir {
        Err(not_a_directory_text(folder))
    } else {
        Ok(
            Validation {
                is_valid_path: true,
                is_empty,
                has_valid_structure: all_present(markers, 4),
            },
        )
    }
}

/// Judges a folder that may hold a project, given whether it was found,
/// whether it is a directory, whether it is empty, and which of its
/// markers are present.
pub fn validate(
    folder: &str,
    found: bool,
    is_dir: bool,
    is_empty: bool,
    markers: &Vec<bool>,
) -> (res: Result<Validation, String>)
    ensures
        validation_view(res) == validated(folder@, found, is_dir, is_empty, markers@),
{
    if !found {
        let mut message = String::from_str("Directory does not exist: ");
        message.append(folder);
        return Err(message);
    }
    if !is_dir {
        let mut message = String::from_str("Path is not a directory: ");
        message.append(folder);
        return Err(message);
    }
    Ok(Validation { is_valid_path: true, is_empty, has_valid_structure: all_set(markers, 4) })
}

/// Whether `name` is the name of one of the six folders.
pub open spec fn is_expected(name: Seq<char>) -> bool {
    exists|i: int| 0 <= i < FOLDER_COUNT && name == folder_name_of(i)
}

/// Whether `name` is the name of one of the six folders.
pub fn is_expected_folder(name: &str) -> (res: bool)
    ensures
        res == is_expected(name@),
{
    let wanted = String::from_str(name);
    let mut i: usize = 0;
    while i < FOLDER_COUNT
        invariant
            i <= FOLDER_COUNT,
            wanted@ == name@,
            forall|k: int| 0 <= k < i ==> name@ != #[trigger] folder_name_of(k),
        decreases FOLDER_COUNT - i,
    {
        if wanted == String::from_str(folder_name(i)) {
            return true;
        }
        i = i + 1;
    }
    false
}

/// The names of those of the first `n` folders whose flag is missing or
/// not set, in order.
pub open spec fn missing_of(present: Seq<bool>, n: nat) -> Seq<Seq<char>>
    decreases n,
{
    if n == 0 {
        Seq::empty()
    } else if n - 1 < present.len() && present[n - 1] {
        missing_of(present, (n - 1) as nat)
    } else {
        missing_of(present, (n - 1) as nat).push(folder_name_of(n - 1))
    }
}

/// The names of the folders that a project lacks, in order. `present` says
/// of each of the six folders whether it exists.
pub fn missing_folders(present: &Vec<bool>) -> (res: Vec<String>)
    ensures
        texts(res@) == missing_of(present@, FOLDER_COUNT as nat),
{
    let mut list: Vec<String> = Vec::new();
    let mut i: usize = 0;
    while i < FOLDER_COUNT
        invariant
            i <= FOLDER_COUNT,
            texts(list@) == missing_of(present@, i as nat),
        decreases FOLDER_COUNT - i,
    {
        if !(i < present.len() && present[i]) {
            push_text(&mut list, folder_name(i));
        }
        i = i + 1;
    }
    list
}

/// A program that shows a folder to the user.
#[derive(Clone, Copy, Debug, PartialEq, Eq)]
pub struct FileManager {
    /// The command that starts it.
    pub program: &'static str,
    /// What it is called in messages.
    pub title: &'static str,
}

/// Command and title of the program that shows a folder to the user: the
/// file manager of the desktop named by `os`, or the generic opener of a
/// Unix system.
pub open spec fn file_manager_of(os: Seq<char>, family: Seq<char>) -> Option<
    (Seq<char>, Seq<char>),
> {
    if os == "windows"@ {
        Some(("explorer"@, "Explorer"@))
    } else if os == "macos"@ {
        Some(("open"@, "Finder"@))
    } else if family == "unix"@ {
        Some(("xdg-open"@, "file manager"@))
    } else {
        None
    }
}

/// The program that shows a folder to the user, if the system has one.
/// `os` and `family` are the operating system's name and family.
pub fn file_manager(os: &str, family: &str) -> (res: Option<FileManager>)
    ensures
        match res {
            Some(found) => file_manager_of(os@, family@) == Some(
                (found.program@, found.title@),
            ),
            None => file_manager_of(os@, family@) is None,
        },
{
    let os = String::from_str(os);
    let family = String::from_str(family);
    if os == String::from_str("windows") {
        Some(FileManager { program: "explorer", title: "Explorer" })
    } else if os == String::from_str("macos") {
        Some(FileManager { program: "open", title: "Finder" })
    } else if family == String::from_str("unix") {
        Some(FileManager { program: "xdg-open", title: "file manager" })
    } else {
        None
    }
}

/// The sentence for a program that could not be started to show a folder.
pub open spec fn open_failure_of(title: Seq<char>, reason: Seq<char>) -> Seq<char> {
    "Failed to open "@ + title + ": "@ + reason
}

/// The sentence for a directory that could not be made; `label` is its
/// place below the project's root.
pub open spec fn creation_failure_of(label: Seq<char>, reason: Seq<char>) -> Seq<char> {
    "Failed to create "@ + label + ": "@ + reason
}

/// The sentence for a program that could not be started to show a folder.
pub fn open_failure(manager: FileManager, reason: &str) -> (res: String)
    ensures
        res@ == open_failure_of(manager.title@, reason@),
{
    let mut res = String::from_str("Failed to open ");
    res.append(manager.title);
    res.append(": ");
    res.append(reason);
    res
}

/// The sentence for a directory that could not be made.
pub fn creation_failure(label: &str, reason: &str) -> (res: String)
    ensures
        res@ == creation_failure_of(label@, reason@),
{
    let mut res = String::from_str("Failed to create ");
    res.append(label);
    res.append(": ");
    res.append(reason);
    res
}

/// The sentence for a readme that could not be written anew.
pub open spec fn update_failure_of(reason: Seq<char>) -> Seq<char> {
    "Failed to update README: "@ + reason
}

/// The sentence for a readme that could not be written anew.
pub fn update_failure(reason: &str) -> (res: String)
    ensures
        res@ == update_failure_of(reason@),
{
    let mut res = String::from_str("Failed to update README: ");
    res.append(reason);
    res
}

/// Why a path is not read as a project: it was not found, or is no
/// directory. Nothing where it is a directory that was found.
pub open spec fn scan_refusal_of(path: Seq<char>, found: bool, is_dir: bool) -> Option<Seq<char>> {
    if !found || !is_dir {
        Some("Invalid project path: "@ + path)
    } else {
        None
    }
}

/// Why a path is not shown to the user: it was not found. Nothing where
/// it was.
pub open spec fn open_refusal_of(path: Seq<char>, found: bool) -> Option<Seq<char>> {
    if !found {
        Some("Path does not exist: "@ + path)
    } else {
        None
    }
}

/// Says why `path` is not read as a project, if it is not.
pub fn scan_refusal(path: &str, found: bool, is_dir: bool) -> (res: Option<String>)
    ensures
        option_text(res) == scan_refusal_of(path@, found, is_dir),
{
    if !found || !is_dir {
        let mut message = String::from_str("Invalid project path: ");
        message.append(path);
        Some(message)
    } else {
        None
    }
}

/// Says why `path` is not shown to the user, if it is not.
pub fn open_refusal(path: &str, found: bool) -> (res: Option<String>)
    ensures
        option_text(res) == open_refusal_of(path@, found),
{
    if !found {
        let mut message = String::from_str("Path does not exist: ");
        message.append(path);
        Some(message)
    } else {
        None
    }
}

} // verus!
