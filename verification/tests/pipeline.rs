use dirclip::aggregate::{aggregate_parallel, aggregate_sequential, keep_readable, FileRecord, ReadOutcome};
use dirclip::config::{parse_output_format, OutputFormat};
use dirclip::format::{format_output, render_fragment};
use dirclip::walk::{plan_for_root, select_text_files, FileEntry, RootAction};

fn entry(path: &str, rel: &str) -> FileEntry {
    FileEntry {
        path: path.to_string(),
        rel_path: rel.to_string(),
    }
}

fn record(rel: &str, contents: &str) -> FileRecord {
    FileRecord {
        rel_path: rel.to_string(),
        contents: contents.to_string(),
    }
}

#[test]
fn parse_accepts_the_two_styles() {
    assert!(matches!(
        parse_output_format("markdown"),
        Ok(OutputFormat::Markdown)
    ));
    assert!(matches!(parse_output_format("plain"), Ok(OutputFormat::Plain)));
}

#[test]
fn parse_rejects_unknown_style_with_the_value() {
    let e = parse_output_format("xml").unwrap_err();
    assert_eq!(e.value, "xml");
}

#[test]
fn format_output_markdown_exact() {
    let s = format_output("a.txt", "hello", "markdown").unwrap();
    assert_eq!(s, "### a.txt\n```\nhello\n```\n");
}

#[test]
fn format_output_plain_exact() {
    let s = format_output("a.txt", "hello", "plain").unwrap();
    assert_eq!(s, "a.txt\nhello\n");
}

#[test]
fn format_output_unknown_style_is_config_error() {
    let e = format_output("a.txt", "hello", "xml").unwrap_err();
    assert_eq!(e.value, "xml");
}

#[test]
fn render_fragment_keeps_contents_untouched() {
    let contents = "  spaced \n\ttabbed\n";
    let s = render_fragment("dir/f.rs", contents, OutputFormat::Markdown);
    assert_eq!(s, "### dir/f.rs\n```\n  spaced \n\ttabbed\n\n```\n");
}

#[test]
fn selection_keeps_text_files_only() {
    let entries = vec![
        entry("/root/a.txt", "a.txt"),
        entry("/root/b.bin", "b.bin"),
        entry("/root/.git/config", ".git/config"),
    ];
    let kept = select_text_files(entries);
    let rels: Vec<&str> = kept.iter().map(|e| e.rel_path.as_str()).collect();
    assert_eq!(rels, vec!["a.txt"]);
}

#[test]
fn selection_recognizes_common_text_extensions() {
    let entries = vec![
        entry("/r/notes.md", "notes.md"),
        entry("/r/page.html", "page.html"),
        entry("/r/data.csv", "data.csv"),
        entry("/r/archive.tar.gz", "archive.tar.gz"),
        entry("/r/image.png", "image.png"),
    ];
    let kept = select_text_files(entries);
    let rels: Vec<&str> = kept.iter().map(|e| e.rel_path.as_str()).collect();
    assert_eq!(rels, vec!["notes.md", "page.html", "data.csv"]);
}

#[test]
fn scenario_only_the_text_file_reaches_the_output() {
    let entries = vec![
        entry("/root/a.txt", "a.txt"),
        entry("/root/b.bin", "b.bin"),
        entry("/root/.git/config", ".git/config"),
    ];
    let kept = select_text_files(entries);
    let records: Vec<FileRecord> = kept
        .iter()
        .map(|e| record(&e.rel_path, "hello"))
        .collect();
    let out = aggregate_sequential(&records, OutputFormat::Plain);
    assert_eq!(out, "a.txt\nhello\n");
}

#[test]
fn empty_record_set_aggregates_to_the_empty_string() {
    let records: Vec<FileRecord> = Vec::new();
    assert_eq!(aggregate_sequential(&records, OutputFormat::Markdown), "");
    assert_eq!(aggregate_parallel(&records, OutputFormat::Plain), "");
}

#[test]
fn sequential_aggregation_concatenates_in_order() {
    let records = vec![record("a.txt", "one"), record("b.txt", "two")];
    let out = aggregate_sequential(&records, OutputFormat::Plain);
    assert_eq!(out, "a.txt\none\nb.txt\ntwo\n");
}

#[test]
fn parallel_and_sequential_agree() {
    let records: Vec<FileRecord> = (0..64)
        .map(|i| record(&format!("f{i}.txt"), &format!("contents {i}\n")))
        .collect();
    let seq_out = aggregate_sequential(&records, OutputFormat::Markdown);
    let par_out = aggregate_parallel(&records, OutputFormat::Markdown);
    assert_eq!(seq_out, par_out);
}

#[test]
fn two_runs_on_the_same_records_are_byte_identical() {
    let records = vec![record("a.md", "alpha"), record("b.md", "beta")];
    let first = aggregate_sequential(&records, OutputFormat::Markdown);
    let second = aggregate_sequential(&records, OutputFormat::Markdown);
    assert_eq!(first, second);
}

#[test]
fn failed_reads_are_skipped_without_aborting() {
    let outcomes = vec![
        ReadOutcome {
            entry: entry("/r/a.txt", "a.txt"),
            contents: Some("alpha".to_string()),
        },
        ReadOutcome {
            entry: entry("/r/gone.txt", "gone.txt"),
            contents: None,
        },
        ReadOutcome {
            entry: entry("/r/b.txt", "b.txt"),
            contents: Some("beta".to_string()),
        },
    ];
    let records = keep_readable(outcomes);
    let out = aggregate_sequential(&records, OutputFormat::Plain);
    assert_eq!(out, "a.txt\nalpha\nb.txt\nbeta\n");
}

#[test]
fn root_plan_follows_the_error_taxonomy() {
    assert_eq!(plan_for_root(false, false), RootAction::FailWithPathError);
    assert_eq!(plan_for_root(true, false), RootAction::WarnNotDirectory);
    assert_eq!(plan_for_root(true, true), RootAction::Scan);
}
