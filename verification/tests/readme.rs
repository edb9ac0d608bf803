use backend_supervisor::readme::{
    folder_report, folder_section, folder_tally, initial_readme, journal, journal_entry,
    missing_folder, read_journal, size_label, size_unit, subfolder_line, subfolder_state, tally,
    updated_readme, FolderReport, JournalEntry, SizeUnit, SubfolderState, Tally,
    STANDARD_FOLDERS, STRUCTURE_HEADING, USAGE_NOTES,
};
use serde_json::{Number, Value};

fn object(members: Vec<(&str, Value)>) -> Value {
    let mut map = serde_json::Map::new();
    for (key, value) in members {
        map.insert(key.to_string(), value);
    }
    Value::Object(map)
}

fn text(value: &str) -> Value {
    Value::String(value.to_string())
}

fn report(files: u64, size: &str, subfolders: &[&str]) -> FolderReport {
    FolderReport {
        files,
        size: size.to_string(),
        subfolders: subfolders.iter().map(|s| s.to_string()).collect(),
    }
}

fn entry(date: &str, text: &str) -> Option<JournalEntry> {
    Some(JournalEntry { date: date.to_string(), text: text.to_string() })
}

#[test]
fn initial_readme_in_full() {
    let expected = format!(
        "# {}\n\n## Description\n{}\n\n## Project Structure\n\n\
        This bioimage analysis project follows the BIOME standard organization:\n\n\
        - **request/**: Contains the initial user request and supporting documentation\n\
          - documents/: Project specifications, requirements, and communication\n\
          - images/: Reference images from the initial request\n\
          - notes/: Project planning and meeting notes\n\n\
        - **sample_data/**: Contains the raw biological images provided for analysis\n\
          - original/: Original unmodified images from the biological sample\n\
          - test_subset/: Small subset of images for testing analysis pipelines\n\n\
        - **processed_data/**: Contains intermediate processing results\n\
          - converted/: Format-converted images (e.g., TIFF to other formats)\n\
          - preprocessed/: Images after initial processing (denoising, calibration)\n\
          - intermediate/: Temporary analysis files and intermediate results\n\n\
        - **references/**: Contains scientific and technical documentation\n\
          - articles/: Relevant scientific papers and literature\n\
          - protocols/: Analysis protocols and methodology documentation\n\
          - manuals/: Software manuals and technical guides\n\n\
        - **scripts/**: Contains all analysis code and automation scripts\n\
          - Analysis pipelines and image processing scripts\n\
          - Custom functions and utilities\n\
          - Batch processing and automation code\n\n\
        - **results/**: Contains final outputs and deliverables\n\
          - analysis_results/: Final quantitative results, measurements, and statistics\n\
          - tutorials/: Step-by-step guides for reproducing the analysis\n\
          - protocols/: Finalized analysis protocols for future use\n\
          - examples/: Example outputs and sample results\n\n\
        ## Usage Notes\n\n\
        1. Place your raw images in `sample_data/original/`\n\
        2. Use `sample_data/test_subset/` for pipeline development\n\
        3. Save intermediate processing steps in `processed_data/`\n\
        4. Document your methodology in `references/protocols/`\n\
        5. Place final results and reports in `results/analysis_results/`\n\n\
        ## Journal\n\n\
        ### {}\n\
        Project created.\n",
        "Cell counts", "Counting nuclei in DAPI stacks.", 1714564800u64
    );
    assert_eq!(initial_readme("Cell counts", "Counting nuclei in DAPI stacks.", 1714564800), expected);
}

#[test]
fn initial_readme_is_made_of_its_parts() {
    let text = initial_readme("N", "D", 0);
    assert_eq!(
        text,
        format!(
            "# N\n\n## Description\nD{}{}{}### 0\nProject created.\n",
            STRUCTURE_HEADING, STANDARD_FOLDERS, USAGE_NOTES
        )
    );
    assert!(STRUCTURE_HEADING.starts_with("\n\n## Project Structure\n\n"));
    assert!(STANDARD_FOLDERS.ends_with("- examples/: Example outputs and sample results\n\n"));
    assert!(USAGE_NOTES.ends_with("`results/analysis_results/`\n\n## Journal\n\n"));
}

#[test]
fn size_units_by_thresholds() {
    assert_eq!(size_unit(0), SizeUnit::Bytes);
    assert_eq!(size_unit(1024), SizeUnit::Bytes);
    assert_eq!(size_unit(1025), SizeUnit::Kilobytes);
    assert_eq!(size_unit(1024 * 1024), SizeUnit::Kilobytes);
    assert_eq!(size_unit(1024 * 1024 + 1), SizeUnit::Megabytes);
    assert_eq!(size_unit(u64::MAX), SizeUnit::Megabytes);
    assert_eq!(SizeUnit::Bytes.bytes(), 1);
    assert_eq!(SizeUnit::Kilobytes.bytes(), 1024);
    assert_eq!(SizeUnit::Megabytes.bytes(), 1024 * 1024);
}

#[test]
fn size_labels() {
    assert_eq!(size_label(0, ""), "0 bytes");
    assert_eq!(size_label(1024, "1.0"), "1024 bytes");
    let size: u64 = 1536;
    let scaled = format!("{:.1}", size as f64 / size_unit(size).bytes() as f64);
    assert_eq!(size_label(size, &scaled), "1.5 KB");
    let size: u64 = 5 * 1024 * 1024 + 300 * 1024;
    let scaled = format!("{:.1}", size as f64 / size_unit(size).bytes() as f64);
    assert_eq!(size_label(size, &scaled), "5.3 MB");
}

#[test]
fn subfolder_lines() {
    assert_eq!(subfolder_line("original", &SubfolderState::Missing), "    - original/: not created");
    assert_eq!(subfolder_line("original", &SubfolderState::Empty), "    - original/: empty");
    assert_eq!(
        subfolder_line(
            "original",
            &SubfolderState::Holding { files: 12, size: "3.4 MB".to_string() }
        ),
        "    - original/: 12 files (3.4 MB)"
    );
}

#[test]
fn missing_folder_report() {
    assert_eq!(missing_folder(), report(0, "not created", &[]));
}

#[test]
fn section_of_a_folder_that_was_looked_at() {
    let found = report(
        3,
        "2.0 KB",
        &["    - original/: 3 files (2.0 KB)", "    - test_subset/: empty"],
    );
    assert_eq!(
        folder_section(1, &found),
        "- **sample_data/**: Contains the raw biological images provided for analysis (3 files, 2.0 KB)\n\
         \x20     - original/: 3 files (2.0 KB)\n\
         \x20     - test_subset/: empty\n\
         \n"
    );
}

#[test]
fn section_of_a_folder_that_is_not_there() {
    assert_eq!(
        folder_section(3, &missing_folder()),
        "- **references/**: Contains scientific and technical documentation (0 files, not created)\n\
         \x20 - articles/: Relevant scientific papers and literature\n\
         \x20 - protocols/: Analysis protocols and methodology documentation\n\
         \x20 - manuals/: Software manuals and technical guides\n\
         \n"
    );
    assert_eq!(
        folder_section(4, &report(2, "10 bytes", &[])),
        "- **scripts/**: Contains all analysis code and automation scripts (2 files, 10 bytes)\n\n"
    );
}

#[test]
fn journal_of_entries() {
    assert_eq!(journal(&vec![], 1714564800), "### 1714564800\nREADME updated.\n\n");
    assert_eq!(
        journal(&vec![entry("2024-05-01", "Created."), None, entry("2024-05-02", "Imaged.")], 7),
        "### 2024-05-01\nCreated.\n\n### 2024-05-02\nImaged.\n\n"
    );
    assert_eq!(journal(&vec![None, None], 7), "");
}

#[test]
fn updated_readme_in_full() {
    let reports = vec![
        report(1, "12 bytes", &["    - documents/: 1 files (12 bytes)", "    - images/: empty", "    - notes/: not created"]),
        missing_folder(),
        report(0, "0 bytes", &["    - converted/: empty", "    - preprocessed/: empty", "    - intermediate/: empty"]),
        missing_folder(),
        report(4, "1.5 KB", &[]),
        missing_folder(),
    ];
    let text = updated_readme("P", "About P.", &reports, &vec![entry("d1", "t1")], 99);
    let expected = "# P\n\n## Description\nAbout P.\n\n## Project Structure\n\n\
This bioimage analysis project follows the BIOME standard organization:\n\n\
- **request/**: Contains the initial user request and supporting documentation (1 files, 12 bytes)\n\
\x20     - documents/: 1 files (12 bytes)\n\
\x20     - images/: empty\n\
\x20     - notes/: not created\n\
\n\
- **sample_data/**: Contains the raw biological images provided for analysis (0 files, not created)\n\
\x20 - original/: Original unmodified images from the biological sample\n\
\x20 - test_subset/: Small subset of images for testing analysis pipelines\n\
\n\
- **processed_data/**: Contains intermediate processing results (0 files, 0 bytes)\n\
\x20     - converted/: empty\n\
\x20     - preprocessed/: empty\n\
\x20     - intermediate/: empty\n\
\n\
- **references/**: Contains scientific and technical documentation (0 files, not created)\n\
\x20 - articles/: Relevant scientific papers and literature\n\
\x20 - protocols/: Analysis protocols and methodology documentation\n\
\x20 - manuals/: Software manuals and technical guides\n\
\n\
- **scripts/**: Contains all analysis code and automation scripts (4 files, 1.5 KB)\n\
\n\
- **results/**: Contains final outputs and deliverables (0 files, not created)\n\
\x20 - analysis_results/: Final quantitative results, measurements, and statistics\n\
\x20 - tutorials/: Step-by-step guides for reproducing the analysis\n\
\x20 - protocols/: Finalized analysis protocols for future use\n\
\x20 - examples/: Example outputs and sample results\n\
\n\
## Usage Notes\n\n\
1. Place your raw images in `sample_data/original/`\n\
2. Use `sample_data/test_subset/` for pipeline development\n\
3. Save intermediate processing steps in `processed_data/`\n\
4. Document your methodology in `references/protocols/`\n\
5. Place final results and reports in `results/analysis_results/`\n\n\
## Journal\n\n\
### d1\nt1\n\n";
    assert_eq!(text, expected);
}

#[test]
fn updated_readme_skips_folders_without_report() {
    let text = updated_readme("P", "D", &vec![missing_folder()], &vec![], 5);
    assert!(text.contains("- **request/**"));
    assert!(!text.contains("- **sample_data/**"));
    assert!(text.ends_with("## Journal\n\n### 5\nREADME updated.\n\n"));
}

#[test]
fn journal_entry_from_a_json_object() {
    let value = object(vec![("date", text("2024-05-01")), ("text", text("Imaged.")), ("by", text("me"))]);
    assert_eq!(
        journal_entry(&value),
        Some(JournalEntry { date: "2024-05-01".to_string(), text: "Imaged.".to_string() })
    );
    let swapped = object(vec![("text", text("2024-05-01")), ("date", text("Imaged."))]);
    assert_eq!(
        journal_entry(&swapped),
        Some(JournalEntry { date: "Imaged.".to_string(), text: "2024-05-01".to_string() })
    );
}

#[test]
fn values_that_hold_no_journal_entry() {
    assert_eq!(journal_entry(&object(vec![("date", text("2024-05-01"))])), None);
    assert_eq!(journal_entry(&object(vec![("text", text("Imaged."))])), None);
    assert_eq!(journal_entry(&object(vec![])), None);
    assert_eq!(
        journal_entry(&object(vec![("date", Value::Number(Number::from(20240501u64))), ("text", text("x"))])),
        None
    );
    assert_eq!(
        journal_entry(&object(vec![("date", text("d")), ("text", Value::Bool(true))])),
        None
    );
    assert_eq!(journal_entry(&object(vec![("date", text("d")), ("text", Value::Null)])), None);
    assert_eq!(journal_entry(&Value::Array(vec![text("date"), text("text")])), None);
    assert_eq!(journal_entry(&text("date")), None);
    assert_eq!(journal_entry(&Value::Null), None);
}

#[test]
fn journal_read_from_json_keeps_order_and_gaps() {
    let values = vec![
        object(vec![("date", text("d1")), ("text", text("t1"))]),
        Value::Null,
        object(vec![("date", text("d2")), ("text", text("t2"))]),
    ];
    let entries = read_journal(&values);
    assert_eq!(entries, vec![entry("d1", "t1"), None, entry("d2", "t2")]);
    assert_eq!(journal(&entries, 0), "### d1\nt1\n\n### d2\nt2\n\n");
    assert!(read_journal(&Vec::new()).is_empty());
}

#[test]
fn subfolder_states() {
    assert_eq!(subfolder_state(false, 0, "0 bytes".to_string()), SubfolderState::Missing);
    assert_eq!(subfolder_state(false, 3, "1.0 KB".to_string()), SubfolderState::Missing);
    assert_eq!(subfolder_state(true, 0, "0 bytes".to_string()), SubfolderState::Empty);
    assert_eq!(
        subfolder_state(true, 3, "1.0 KB".to_string()),
        SubfolderState::Holding { files: 3, size: "1.0 KB".to_string() }
    );
}

#[test]
fn tally_counts_files_and_adds_sizes() {
    assert_eq!(tally(&vec![]), Tally { files: 0, size: 0 });
    assert_eq!(tally(&vec![10, 20, 30]), Tally { files: 3, size: 60 });
    assert_eq!(tally(&vec![0]), Tally { files: 1, size: 0 });
    assert_eq!(tally(&vec![u64::MAX, 1]), Tally { files: 2, size: u64::MAX });
    assert_eq!(tally(&vec![u64::MAX - 1, 1]), Tally { files: 2, size: u64::MAX });
}

#[test]
fn folder_tally_counts_files_below_with_a_running_size() {
    assert_eq!(folder_tally(&vec![], &vec![]), Tally { files: 0, size: 0 });
    assert_eq!(folder_tally(&vec![5, 7], &vec![]), Tally { files: 2, size: 12 });
    assert_eq!(folder_tally(&vec![5, 7], &vec![vec![], vec![]]), Tally { files: 2, size: 12 });
    assert_eq!(folder_tally(&vec![], &vec![vec![10]]), Tally { files: 1, size: 10 });
    assert_eq!(folder_tally(&vec![], &vec![vec![10, 20]]), Tally { files: 2, size: 40 });
    assert_eq!(folder_tally(&vec![], &vec![vec![10, 20, 30]]), Tally { files: 3, size: 100 });
    assert_eq!(
        folder_tally(&vec![1], &vec![vec![10, 20], vec![], vec![100, 200]]),
        Tally { files: 5, size: 1 + 40 + 400 }
    );
    assert_eq!(
        folder_tally(&vec![1], &vec![vec![u64::MAX, 1]]),
        Tally { files: 3, size: u64::MAX }
    );
}

#[test]
fn folder_report_of_what_was_found() {
    let lines = vec!["    - documents/: empty".to_string()];
    assert_eq!(
        folder_report(true, 4, "1.5 KB".to_string(), lines.clone()),
        report(4, "1.5 KB", &["    - documents/: empty"])
    );
    assert_eq!(folder_report(true, 0, "0 bytes".to_string(), Vec::new()), report(0, "0 bytes", &[]));
    assert_eq!(folder_report(false, 4, "1.5 KB".to_string(), lines), missing_folder());
}
