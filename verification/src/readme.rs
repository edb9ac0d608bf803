//! The readme of a project folder.
//!
//! A project's readme names the project, describes it, explains the
//! standard folders, and ends in a journal. It is written when the project
//! is made, and written anew, from what is then found in the folders,
//! whenever the project changes.

use vstd::prelude::*;
use crate::scaffold::{
    folder_name,
    folder_name_of,
    folder_note,
    folder_note_of,
    subfolder_notes,
    subfolder_notes_of,
    FOLDER_COUNT,
};
use crate::text::{decimal, option_text, texts, to_decimal};

verus! {

/// What follows the description: the heading of the part on the folders.
pub const STRUCTURE_HEADING: &'static str = "\n\
    \n\
    ## Project Structure\n\
    \n\
    This bioimage analysis project follows the BIOME standard organization:\n\
    \n";

/// The folders of a project and what they are for, as a new project's
/// readme lists them.
pub const STANDARD_FOLDERS: &'static str = "- **request/**: Contains the initial user request and supporting documentation\n\
    - documents/: Project specifications, requirements, and communication\n\
    - images/: Reference images from the initial request\n\
    - notes/: Project planning and meeting notes\n\
    \n\
    - **sample_data/**: Contains the raw biological images provided for analysis\n\
    - original/: Original unmodified images from the biological sample\n\
    - test_subset/: Small subset of images for testing analysis pipelines\n\
    \n\
    - **processed_data/**: Contains intermediate processing results\n\
    - converted/: Format-converted images (e.g., TIFF to other formats)\n\
    - preprocessed/: Images after initial processing (denoising, calibration)\n\
    - intermediate/: Temporary analysis files and intermediate results\n\
    \n\
    - **references/**: Contains scientific and technical documentation\n\
    - articles/: Relevant scientific papers and literature\n\
    - protocols/: Analysis protocols and methodology documentation\n\
    - manuals/: Software manuals and technical guides\n\
    \n\
    - **scripts/**: Contains all analysis code and automation scripts\n\
    - Analysis pipelines and image processing scripts\n\
    - Custom functions and utilities\n\
    - Batch processing and automation code\n\
    \n\
    - **results/**: Contains final outputs and deliverables\n\
    - analysis_results/: Final quantitative results, measurements, and statistics\n\
    - tutorials/: Step-by-step guides for reproducing the analysis\n\
    - protocols/: Finalized analysis protocols for future use\n\
    - examples/: Example outputs and sample results\n\
    \n";

/// How the folders are meant to be used, and the heading of the journal.
pub const USAGE_NOTES: &'static str = "## Usage Notes\n\
    \n\
    1. Place your raw images in `sample_data/original/`\n\
    2. Use `sample_data/test_subset/` for pipeline development\n\
    3. Save intermediate processing steps in `processed_data/`\n\
    4. Document your methodology in `references/protocols/`\n\
    5. Place final results and reports in `results/analysis_results/`\n\
    \n\
    ## Journal\n\
    \n";

/// The beginning of a readme: the project's name and description, and the
/// heading of the part on the folders.
pub open spec fn opening_of(name: Seq<char>, description: Seq<char>) -> Seq<char> {
    "# "@ + name + "\n\n## Description\n"@ + description + STRUCTURE_HEADING@
}

/// The readme of a project made at `created`, a time in seconds since
/// 1970. Its journal holds the one entry that the project was created.
pub open spec fn initial_readme_of(name: Seq<char>, description: Seq<char>, created: nat) -> Seq<
    char,
> {
    opening_of(name, description) + STANDARD_FOLDERS@ + USAGE_NOTES@ + "### "@ + decimal(created)
        + "\nProject created.\n"@
}

fn opening(name: &str, description: &str) -> (res: String)
    ensures
        res@ == opening_of(name@, description@),
{
    let mut res = String::from_str("# ");
    res.append(name);
    res.append("\n\n## Description\n");
    res.append(description);
    res.append(STRUCTURE_HEADING);
    res
}

/// The readme of a project made at `created`, a time in seconds since
/// 1970.
pub fn initial_readme(name: &str, description: &str, created: u64) -> (res: String)
    ensures
        res@ == initial_readme_of(name@, description@, created as nat),
{
    let mut res = opening(name, description);
    res.append(STANDARD_FOLDERS);
    res.append(USAGE_NOTES);
    res.append("### ");
    let stamp = to_decimal(created);
    res.append(stamp.as_str());
    res.append("\nProject created.\n");
    res
}

/// The unit in which a size is written.
#[derive(Clone, Copy, Debug, PartialEq, Eq, Structural)]
pub enum SizeUnit {
    Bytes,
    Kilobytes,
    Megabytes,
}

/// The unit in which `size`, a number of bytes, is written: megabytes
/// above 1024 * 1024, kilobytes above 1024, bytes otherwise.
pub open spec fn size_unit_of(size: u64) -> SizeUnit {
    if size > 1024 * 1024 {
        SizeUnit::Megabytes
    } else if size > 1024 {
        SizeUnit::Kilobytes
    } else {
        SizeUnit::Bytes
    }
}

/// How `size` is written, where `scaled` is the size in its unit as a
/// numeral with one decimal place.
pub open spec fn size_label_of(size: u64, scaled: Seq<char>) -> Seq<char> {
    match size_unit_of(size) {
        SizeUnit::Megabytes => scaled + " MB"@,
        SizeUnit::Kilobytes => scaled + " KB"@,
        SizeUnit::Bytes => decimal(size as nat) + " bytes"@,
    }
}

/// The unit in which `size`, a number of bytes, is written.
pub fn size_unit(size: u64) -> (res: SizeUnit)
    ensures
        res == size_unit_of(size),
{
    if size > 1024 * 1024 {
        SizeUnit::Megabytes
    } else if size > 1024 {
        SizeUnit::Kilobytes
    } else {
        SizeUnit::Bytes
    }
}

impl SizeUnit {
    /// The number of bytes in one unit.
    pub fn bytes(self) -> (res: u64)
        ensures
            res == match self {
                SizeUnit::Bytes => 1u64,
                SizeUnit::Kilobytes => 1024u64,
                SizeUnit::Megabytes => 1048576u64,
            },
    {
        match self {
            SizeUnit::Bytes => 1,
            SizeUnit::Kilobytes => 1024,
            SizeUnit::Megabytes => 1024 * 1024,
        }
    }
}

/// Writes `size`, a number of bytes. A size in bytes is written out in
/// full; for a size in a larger unit the caller hands in `scaled`, the size
/// divided by the unit's number of bytes and rounded to one decimal place.
pub fn size_label(size: u64, scaled: &str) -> (res: String)
    ensures
        res@ == size_label_of(size, scaled@),
{
    match size_unit(size) {
        SizeUnit::Megabytes => {
            let mut res = String::from_str(scaled);
            res.append(" MB");
            res
        },
        SizeUnit::Kilobytes => {
            let mut res = String::from_str(scaled);
            res.append(" KB");
            res
        },
        SizeUnit::Bytes => {
            let mut res = to_decimal(size);
            res.append(" bytes");
            res
        },
    }
}

/// What was found of a folder below one of the six.
#[derive(Clone, Debug, PartialEq, Eq)]
pub enum SubfolderState {
    /// The folder is not there.
    Missing,
    /// The folder holds no file.
    Empty,
    /// The folder holds `files` files; `size` is their size as written.
    Holding { files: u64, size: String },
}

/// The line that reports on the folder `name`.
pub open spec fn subfolder_line_of(name: Seq<char>, state: SubfolderState) -> Seq<char> {
    match state {
        SubfolderState::Missing => "    - "@ + name + "/: not created"@,
        SubfolderState::Empty => "    - "@ + name + "/: empty"@,
        SubfolderState::Holding { files, size } => "    - "@ + name + "/: "@ + decimal(
            files as nat,
        ) + " files ("@ + size@ + ")"@,
    }
}

/// The line that reports on the folder `name`.
pub fn subfolder_line(name: &str, state: &SubfolderState) -> (res: String)
    ensures
        res@ == subfolder_line_of(name@, *state),
{
    let mut res = String::from_str("    - ");
    res.append(name);
    match state {
        SubfolderState::Missing => {
            res.append("/: not created");
        },
        SubfolderState::Empty => {
            res.append("/: empty");
        },
        SubfolderState::Holding { files, size } => {
            res.append("/: ");
            let count = to_decimal(*files);
            res.append(count.as_str());
            res.append(" files (");
            res.append(size.as_str());
            res.append(")");
        },
    }
    res
}

/// What was found of a folder below one of the six, given whether it was
/// found, how many files it holds, and their size as written.
pub fn subfolder_state(found: bool, files: u64, size: String) -> (res: SubfolderState)
    ensures
        res == if !found {
            SubfolderState::Missing
        } else if files == 0 {
            SubfolderState::Empty
        } else {
            SubfolderState::Holding { files, size }
        },
{
    if !found {
        SubfolderState::Missing
    } else if files == 0 {
        SubfolderState::Empty
    } else {
        SubfolderState::Holding { files, size }
    }
}

/// The sizes of the first `n` files of `sizes`, added up.
pub open spec fn total_of(sizes: Seq<u64>, n: nat) -> int
    decreases n,
{
    if n == 0 {
        0
    } else {
        total_of(sizes, (n - 1) as nat) + sizes[n - 1]
    }
}

/// What the first `n` files of a folder below one of the six add to the
/// size of the folder above: each file adds the size of all files of its
/// folder up to and including itself. A file thus counts once for itself
/// and once more for every file that follows it in its folder.
pub open spec fn running_total_of(sizes: Seq<u64>, n: nat) -> int
    decreases n,
{
    if n == 0 {
        0
    } else {
        running_total_of(sizes, (n - 1) as nat) + total_of(sizes, n)
    }
}

/// `n`, or the largest number that fits where `n` is larger.
pub open spec fn capped(n: int) -> u64 {
    if n > u64::MAX {
        u64::MAX
    } else {
        n as u64
    }
}

/// The file sizes of each folder of `folders`, in order.
pub open spec fn size_lists(folders: Seq<Vec<u64>>) -> Seq<Seq<u64>> {
    Seq::new(folders.len(), |i: int| folders[i]@)
}

/// The number of files in the first `n` folders of `below`.
pub open spec fn files_below(below: Seq<Seq<u64>>, n: nat) -> int
    decreases n,
{
    if n == 0 {
        0
    } else {
        files_below(below, (n - 1) as nat) + below[n - 1].len()
    }
}

/// What the files in the first `n` folders of `below` add to the size of
/// the folder above.
pub open spec fn size_below(below: Seq<Seq<u64>>, n: nat) -> int
    decreases n,
{
    if n == 0 {
        0
    } else {
        size_below(below, (n - 1) as nat) + running_total_of(below[n - 1], below[n - 1].len())
    }
}

/// A number of files and their size in bytes, each up to the largest
/// number that fits.
#[derive(Clone, Copy, Debug, PartialEq, Eq, Structural)]
pub struct Tally {
    pub files: u64,
    pub size: u64,
}

proof fn lemma_totals_not_negative(sizes: Seq<u64>, n: nat)
    ensures
        total_of(sizes, n) >= 0,
        running_total_of(sizes, n) >= 0,
    decreases n,
{
    if n > 0 {
        lemma_totals_not_negative(sizes, (n - 1) as nat);
    }
}

proof fn lemma_below_not_negative(below: Seq<Seq<u64>>, n: nat)
    ensures
        files_below(below, n) >= 0,
        size_below(below, n) >= 0,
    decreases n,
{
    if n > 0 {
        lemma_below_not_negative(below, (n - 1) as nat);
        lemma_totals_not_negative(below[n - 1], below[n - 1].len());
    }
}

fn add_capped(a: u64, b: u64) -> (res: u64)
    ensures
        res == capped(a + b),
{
    if a > u64::MAX - b {
        u64::MAX
    } else {
        a + b
    }
}

/// Counts the files of one folder, given the size of each, and adds up
/// their sizes.
pub fn tally(sizes: &Vec<u64>) -> (res: Tally)
    ensures
        res.files == capped(sizes.len() as int),
        res.size == capped(total_of(sizes@, sizes.len() as nat)),
{
    let mut files: u64 = 0;
    let mut size: u64 = 0;
    let mut i: usize = 0;
    while i < sizes.len()
        invariant
            i <= sizes.len(),
            files == capped(i as int),
            size == capped(total_of(sizes@, i as nat)),
        decreases sizes.len() - i,
    {
        proof {
            lemma_totals_not_negative(sizes@, i as nat);
        }
        files = add_capped(files, 1);
        size = add_capped(size, sizes[i]);
        i = i + 1;
    }
    Tally { files, size }
}

fn running_tally(sizes: &Vec<u64>) -> (res: Tally)
    ensures
        res.files == capped(sizes.len() as int),
        res.size == capped(running_total_of(sizes@, sizes.len() as nat)),
{
    let mut files: u64 = 0;
    let mut so_far: u64 = 0;
    let mut size: u64 = 0;
    let mut i: usize = 0;
    while i < sizes.len()
        invariant
            i <= sizes.len(),
            files == capped(i as int),
            so_far == capped(total_of(sizes@, i as nat)),
            size == capped(running_total_of(sizes@, i as nat)),
        decreases sizes.len() - i,
    {
        proof {
            lemma_totals_not_negative(sizes@, i as nat);
            lemma_totals_not_negative(sizes@, (i + 1) as nat);
        }
        files = add_capped(files, 1);
        so_far = add_capped(so_far, sizes[i]);
        size = add_capped(size, so_far);
        i = i + 1;
    }
    Tally { files, size }
}

/// Counts the files of one of the six folders and works out the size that
/// the readme reports for it. `own` holds the size of each file directly
/// in the folder, `below` the sizes of the files in each folder below it.
/// Every file is counted once. The size is that of the files directly in
/// the folder, and for each file below it the size of all files of its
/// folder up to and including itself.
pub fn folder_tally(own: &Vec<u64>, below: &Vec<Vec<u64>>) -> (res: Tally)
    ensures
        res.files == capped(own.len() + files_below(size_lists(below@), below.len() as nat)),
        res.size == capped(
            total_of(own@, own.len() as nat) + size_below(size_lists(below@), below.len() as nat),
        ),
{
    let direct = tally(own);
    let mut files = direct.files;
    let mut size = direct.size;
    let mut i: usize = 0;
    while i < below.len()
        invariant
            i <= below.len(),
            files == capped(own.len() + files_below(size_lists(below@), i as nat)),
            size == capped(
                total_of(own@, own.len() as nat) + size_below(size_lists(below@), i as nat),
            ),
        decreases below.len() - i,
    {
        let part = running_tally(&below[i]);
        proof {
            lemma_totals_not_negative(own@, own.len() as nat);
            lemma_below_not_negative(size_lists(below@), i as nat);
            lemma_totals_not_negative(below[i as int]@, below[i as int].len() as nat);
            assert(size_lists(below@)[i as int] == below[i as int]@);
        }
        files = add_capped(files, part.files);
        size = add_capped(size, part.size);
        i = i + 1;
    }
    Tally { files, size }
}

/// What was found of one of the six folders.
#[derive(Clone, Debug, PartialEq, Eq)]
pub struct FolderReport {
    /// The number of files in the folder and in the folders below it.
    pub files: u64,
    /// Their size as written, or `not created`.
    pub size: String,
    /// The line of each folder below it, in order. A folder that is not
    /// there has none.
    pub subfolders: Vec<String>,
}

/// A folder report as plain text values.
pub struct FolderFacts {
    pub files: nat,
    pub size: Seq<char>,
    pub subfolders: Seq<Seq<char>>,
}

impl View for FolderReport {
    type V = FolderFacts;

    open spec fn view(&self) -> FolderFacts {
        FolderFacts {
            files: self.files as nat,
            size: self.size@,
            subfolders: texts(self.subfolders@),
        }
    }
}

/// The report on each folder of `reports`, in order.
pub open spec fn report_views(reports: Seq<FolderReport>) -> Seq<FolderFacts> {
    Seq::new(reports.len(), |i: int| reports[i]@)
}

/// The report on a folder that is not there.
pub fn missing_folder() -> (res: FolderReport)
    ensures
        res@ == (FolderFacts { files: 0, size: "not created"@, subfolders: Seq::empty() }),
{
    let res = FolderReport {
        files: 0,
        size: String::from_str("not created"),
        subfolders: Vec::new(),
    };
    assert(texts(res.subfolders@) =~= Seq::<Seq<char>>::empty());
    res
}

/// What the readme is told of one of the six folders.
pub open spec fn folder_facts_of(found: bool, files: u64, size: Seq<char>, lines: Seq<Seq<char>>)
    -> FolderFacts {
    if found {
        FolderFacts { files: files as nat, size, subfolders: lines }
    } else {
        FolderFacts { files: 0, size: "not created"@, subfolders: Seq::empty() }
    }
}

/// The report on one of the six folders: for a folder that was found, the
/// number of its files, their size as written, and the line of each folder
/// below it; for one that was not, the report on a folder that is not
/// there, whatever else is handed in.
pub fn folder_report(found: bool, files: u64, size: String, lines: Vec<String>) -> (res:
    FolderReport)
    ensures
        res@ == folder_facts_of(found, files, size@, texts(lines@)),
{
    if found {
        FolderReport { files, size, subfolders: lines }
    } else {
        missing_folder()
    }
}

/// The first `n` of `lines`, each behind `indent` and ended by a line
/// feed.
pub open spec fn indented(lines: Seq<Seq<char>>, indent: Seq<char>, n: nat) -> Seq<char>
    decreases n,
{
    if n == 0 {
        Seq::empty()
    } else {
        indented(lines, indent, (n - 1) as nat) + indent + lines[n - 1] + "\n"@
    }
}

/// The part of the readme on the folder at position `folder`: its name,
/// what it is for, how many files it holds and how large they are; below
/// that the lines on its folders as found, or, where none was looked at,
/// what each of them is for; and an empty line.
pub open spec fn folder_section_of(folder: int, report: FolderFacts) -> Seq<char> {
    "- **"@ + folder_name_of(folder) + "/**: "@ + folder_note_of(folder) + " ("@ + decimal(
        report.files,
    ) + " files, "@ + report.size + ")\n"@ + (if report.subfolders.len() > 0 {
        indented(report.subfolders, "  "@, report.subfolders.len())
    } else {
        indented(subfolder_notes_of(folder), "  - "@, subfolder_notes_of(folder).len())
    }) + "\n"@
}

fn indent_lines(lines: &Vec<String>, indent: &str) -> (res: String)
    ensures
        res@ == indented(texts(lines@), indent@, lines.len() as nat),
{
    let mut res = String::new();
    let mut i: usize = 0;
    while i < lines.len()
        invariant
            i <= lines.len(),
            res@ == indented(texts(lines@), indent@, i as nat),
        decreases lines.len() - i,
    {
        res.append(indent);
        res.append(lines[i].as_str());
        res.append("\n");
        i = i + 1;
    }
    res
}

/// The part of the readme on the folder at position `folder`.
pub fn folder_section(folder: usize, report: &FolderReport) -> (res: String)
    ensures
        res@ == folder_section_of(folder as int, report@),
{
    let mut res = String::from_str("- **");
    res.append(folder_name(folder));
    res.append("/**: ");
    res.append(folder_note(folder));
    res.append(" (");
    let count = to_decimal(report.files);
    res.append(count.as_str());
    res.append(" files, ");
    res.append(report.size.as_str());
    res.append(")\n");
    let lines = if report.subfolders.len() > 0 {
        indent_lines(&report.subfolders, "  ")
    } else {
        let notes = subfolder_notes(folder);
        indent_lines(&notes, "  - ")
    };
    res.append(lines.as_str());
    res.append("\n");
    res
}

/// One entry of a project's journal.
#[derive(Clone, Debug, PartialEq, Eq)]
pub struct JournalEntry {
    pub date: String,
    pub text: String,
}

/// Date and text of an entry; nothing where there is no entry.
pub open spec fn entry_view(entry: Option<JournalEntry>) -> Option<(Seq<char>, Seq<char>)> {
    match entry {
        Some(entry) => Some((entry.date@, entry.text@)),
        None => None,
    }
}

/// Date and text of each entry of `entries`, in order; nothing for an
/// entry that lacks either.
pub open spec fn journal_views(entries: Seq<Option<JournalEntry>>) -> Seq<
    Option<(Seq<char>, Seq<char>)>,
> {
    Seq::new(entries.len(), |i: int| entry_view(entries[i]))
}

/// A JSON value as `serde_json` holds it. Nothing inside it is visible
/// here; what is read of it is read through `text_members`.
#[verifier::external_type_specification]
#[verifier::external_body]
pub struct ExJsonValue(serde_json::Value);

/// The members of a JSON object that are strings: the text of each, by its
/// key. A value that is no object has none.
pub uninterp spec fn text_members(value: serde_json::Value) -> Map<Seq<char>, Seq<char>>;

/// The text of the member `key` of `value`, if `value` is an object that
/// has such a member and the member is a string.
pub open spec fn text_member(value: serde_json::Value, key: Seq<char>) -> Option<Seq<char>> {
    if text_members(value).contains_key(key) {
        Some(text_members(value)[key])
    } else {
        None
    }
}

/// The text of the member `key` of `value`.
///
/// This calls `serde_json::Value::get` with `key`, and
/// `serde_json::Value::as_str` on the member that it finds. The first
/// finds a member only in an object that has the key. The second gives the
/// text of a string, and nothing for a value of any other kind.
#[verifier::external_body]
fn member_text(value: &serde_json::Value, key: &str) -> (res: Option<String>)
    ensures
        text_members(*value).contains_key(key@) ==> option_text(res) == Some(
            text_members(*value)[key@],
        ),
        !text_members(*value).contains_key(key@) ==> res is None,
{
    match value.get(key) {
        Some(member) => match member.as_str() {
            Some(text) => Some(text.to_string()),
            None => None,
        },
        None => None,
    }
}

/// The journal entry that `value` holds: its members `date` and `text`,
/// where it has both and both are strings.
pub open spec fn entry_in(value: serde_json::Value) -> Option<(Seq<char>, Seq<char>)> {
    match (text_member(value, "date"@), text_member(value, "text"@)) {
        (Some(date), Some(text)) => Some((date, text)),
        _ => None,
    }
}

/// The journal entry that each of `values` holds, in order.
pub open spec fn entries_in(values: Seq<serde_json::Value>) -> Seq<
    Option<(Seq<char>, Seq<char>)>,
> {
    Seq::new(values.len(), |i: int| entry_in(values[i]))
}

/// Reads a journal entry from a JSON value. A value that is no object, or
/// lacks `date` or `text`, or holds something other than a string under
/// either, is no entry.
pub fn journal_entry(value: &serde_json::Value) -> (res: Option<JournalEntry>)
    ensures
        entry_view(res) == entry_in(*value),
{
    let date = member_text(value, "date");
    let text = member_text(value, "text");
    match (date, text) {
        (Some(date), Some(text)) => Some(JournalEntry { date, text }),
        _ => None,
    }
}

/// Reads a journal from JSON values: one entry, or none, for each value,
/// in order.
pub fn read_journal(values: &Vec<serde_json::Value>) -> (res: Vec<Option<JournalEntry>>)
    ensures
        journal_views(res@) == entries_in(values@),
{
    let mut entries: Vec<Option<JournalEntry>> = Vec::new();
    let mut i: usize = 0;
    while i < values.len()
        invariant
            i <= values.len(),
            entries.len() == i,
            forall|k: int| 0 <= k < i ==> entry_view(#[trigger] entries[k]) == entry_in(values[k]),
        decreases values.len() - i,
    {
        entries.push(journal_entry(&values[i]));
        i = i + 1;
    }
    entries
}

/// The first `n` of `entries` as the journal shows them: the date as a
/// heading, the text below it, and an empty line. An entry that lacks date
/// or text is left out.
pub open spec fn journal_entries_of(entries: Seq<Option<(Seq<char>, Seq<char>)>>, n: nat) -> Seq<
    char,
>
    decreases n,
{
    if n == 0 {
        Seq::empty()
    } else {
        journal_entries_of(entries, (n - 1) as nat) + match entries[n - 1] {
            Some((date, text)) => "### "@ + date + "\n"@ + text + "\n\n"@,
            None => Seq::empty(),
        }
    }
}

/// The journal of a readme written at `now`, a time in seconds since 1970:
/// the entries handed in, or, where none was handed in, the one entry that
/// the readme was updated.
pub open spec fn journal_of(entries: Seq<Option<(Seq<char>, Seq<char>)>>, now: nat) -> Seq<char> {
    if entries.len() > 0 {
        journal_entries_of(entries, entries.len())
    } else {
        "### "@ + decimal(now) + "\nREADME updated.\n\n"@
    }
}

/// The journal of a readme written at `now`.
pub fn journal(entries: &Vec<Option<JournalEntry>>, now: u64) -> (res: String)
    ensures
        res@ == journal_of(journal_views(entries@), now as nat),
{
    let mut res = String::new();
    if entries.len() == 0 {
        res.append("### ");
        let stamp = to_decimal(now);
        res.append(stamp.as_str());
        res.append("\nREADME updated.\n\n");
        return res;
    }
    let mut i: usize = 0;
    while i < entries.len()
        invariant
            i <= entries.len(),
            res@ == journal_entries_of(journal_views(entries@), i as nat),
        decreases entries.len() - i,
    {
        match &entries[i] {
            Some(entry) => {
                res.append("### ");
                res.append(entry.date.as_str());
                res.append("\n");
                res.append(entry.text.as_str());
                res.append("\n\n");
            },
            None => {},
        }
        i = i + 1;
    }
    res
}

/// The parts of the readme on the first `n` of the six folders. A folder
/// without a report has no part.
pub open spec fn folder_sections_of(reports: Seq<FolderFacts>, n: nat) -> Seq<char>
    decreases n,
{
    if n == 0 {
        Seq::empty()
    } else {
        folder_sections_of(reports, (n - 1) as nat) + if n - 1 < reports.len() {
            folder_section_of(n - 1, reports[n - 1])
        } else {
            Seq::empty()
        }
    }
}

/// The readme of a project as written anew at `now`: name and
/// description, the part on each of the six folders, the usage notes, and
/// the journal.
pub open spec fn updated_readme_of(
    name: Seq<char>,
    description: Seq<char>,
    reports: Seq<FolderFacts>,
    entries: Seq<Option<(Seq<char>, Seq<char>)>>,
    now: nat,
) -> Seq<char> {
    opening_of(name, description) + folder_sections_of(reports, FOLDER_COUNT as nat)
        + USAGE_NOTES@ + journal_of(entries, now)
}

/// Writes the readme of a project anew. `reports` holds what was found of
/// each of the six folders, in order; `entries` is the journal so far;
/// `now` is the time in seconds since 1970.
pub fn updated_readme(
    name: &str,
    description: &str,
    reports: &Vec<FolderReport>,
    entries: &Vec<Option<JournalEntry>>,
    now: u64,
) -> (res: String)
    ensures
        res@ == updated_readme_of(
            name@,
            description@,
            report_views(reports@),
            journal_views(entries@),
            now as nat,
        ),
{
    let mut res = opening(name, description);
    let ghost start = res@;
    let mut i: usize = 0;
    while i < FOLDER_COUNT
        invariant
            i <= FOLDER_COUNT,
            res@ == start + folder_sections_of(report_views(reports@), i as nat),
        decreases FOLDER_COUNT - i,
    {
        if i < reports.len() {
            let section = folder_section(i, &reports[i]);
            res.append(section.as_str());
        }
        i = i + 1;
    }
    res.append(USAGE_NOTES);
    let tail = journal(entries, now);
    res.append(tail.as_str());
    res
}

} // verus!
