//! Unit and property tests of the core: parsing formulas, the prepare /
//! tab-expansion transform, classification, buffering bounds, pairing, and
//! the passthrough behavior.

use delta::config::make_config;
use delta::config::Config;
use delta::delta::delta;
use delta::delta::detect_source;
use delta::delta::expand_tabs;
use delta::delta::handle_hunk_line;
use delta::delta::prepare;
use delta::delta::process_line;
use delta::delta::should_handle;
use delta::delta::Source;
use delta::delta::State;
use delta::options::default_options;
use delta::paint::Painter;
use delta::parse::get_file_change_description_from_file_paths;
use delta::parse::get_file_extension_from_file_meta_line_file_path;
use delta::parse::get_file_path_from_file_meta_line;
use delta::parse::parse_hunk_metadata;

fn default_config() -> Config {
    make_config(&default_options())
}

fn run(input: &str, config: &Config) -> String {
    let lines: Vec<String> = {
        let mut ls: Vec<String> = input.split('\n').map(|s| s.to_string()).collect();
        if ls.last().map(|l| l.is_empty()).unwrap_or(false) {
            ls.pop();
        }
        ls
    };
    delta(&lines, config)
}

#[test]
fn test_empty_input_renders_nothing() {
    let config = default_config();
    assert_eq!(delta(&Vec::new(), &config), "");
}

#[test]
fn test_passthrough_of_plain_line() {
    let config = default_config();
    assert_eq!(run("hello world\n", &config), "hello world\n");
}

#[test]
fn test_passthrough_keeps_line_order() {
    let config = default_config();
    assert_eq!(run("one\ntwo\nthree\n", &config), "one\ntwo\nthree\n");
}

#[test]
fn test_prepare_replaces_marker_and_expands_tabs() {
    let config = default_config();
    assert_eq!(prepare("-\tx", true, &config), "     x\n");
    assert_eq!(prepare("+abc", true, &config), " abc\n");
    assert_eq!(prepare(" abc", false, &config), " abc");
    assert_eq!(prepare("", true, &config), "\n");
    assert_eq!(prepare("", false, &config), "");
}

#[test]
fn test_expand_tabs_zero_width_keeps_tabs() {
    let graphemes = vec!["a".to_string(), "\t".to_string(), "b".to_string()];
    assert_eq!(expand_tabs(&graphemes, 0), "a\tb");
    assert_eq!(expand_tabs(&graphemes, 2), "a  b");
    assert_eq!(expand_tabs(&graphemes, 4), "a    b");
}

#[test]
fn test_parse_hunk_metadata_fragment_and_number() {
    let (fragment, number) = parse_hunk_metadata("@@ -71,11 +71,8 @@ impl<'a> Alignment<'a> {");
    assert_eq!(fragment, " impl<'a> Alignment<'a> {");
    assert_eq!(number, "71");
    let (fragment, number) = parse_hunk_metadata("@@ -5,3 +5,3 @@");
    assert_eq!(fragment, "");
    assert_eq!(number, "5");
    let (fragment, number) = parse_hunk_metadata("@@ -1,22 +0,0 @@");
    assert_eq!(fragment, "");
    assert_eq!(number, "0");
    let (fragment, number) = parse_hunk_metadata("@@@ -4,13 -4,16 +4,37 @@@ build");
    assert_eq!(fragment, "@ build");
    assert_eq!(number, "4");
}

#[test]
fn test_get_file_path_from_file_meta_line() {
    assert_eq!(get_file_path_from_file_meta_line("--- a/src/align.rs", true), "src/align.rs");
    assert_eq!(get_file_path_from_file_meta_line("+++ b/a.py", true), "a.py");
    assert_eq!(get_file_path_from_file_meta_line("--- /dev/null", true), "/dev/null");
    assert_eq!(
        get_file_path_from_file_meta_line("--- one.rs\t2019-11-20 06:16:08.000000000 +0100", false),
        "one.rs"
    );
    assert_eq!(get_file_path_from_file_meta_line("--- a/different\tstamp", false), "a/different");
    assert_eq!(get_file_path_from_file_meta_line("rename from a.py", true), "a.py");
    assert_eq!(get_file_path_from_file_meta_line("rename to b.py", true), "b.py");
}

#[test]
fn test_get_file_extension() {
    let ext = |p: &str| get_file_extension_from_file_meta_line_file_path(p);
    assert_eq!(ext("a.py"), Some("py".to_string()));
    assert_eq!(ext("src/align.rs"), Some("rs".to_string()));
    assert_eq!(ext("a"), None);
    assert_eq!(ext("a."), None);
    assert_eq!(ext("dir.d/file"), None);
}

#[test]
fn test_change_description() {
    let desc = get_file_change_description_from_file_paths;
    assert_eq!(desc("/dev/null", "a.py", false), "added: a.py");
    assert_eq!(desc("a.py", "/dev/null", false), "deleted: a.py");
    assert_eq!(desc("a.py", "b.py", true), "comparing: a.py \u{27f6}   b.py");
    assert_eq!(desc("a.py", "b.py", false), "renamed: a.py \u{27f6}   b.py");
    assert_eq!(desc("a.py", "a.py", false), "a.py");
}

#[test]
fn test_detect_source_cases() {
    assert_eq!(detect_source("commit 1281650789680f1009"), Source::GitDiff);
    assert_eq!(detect_source("diff --git a/a b/a"), Source::GitDiff);
    assert_eq!(detect_source("diff -u a b"), Source::DiffUnified);
    assert_eq!(detect_source("diff -U3 a b"), Source::DiffUnified);
    assert_eq!(detect_source("--- one.rs\tstamp"), Source::DiffUnified);
    assert_eq!(detect_source("diff --cc Makefile"), Source::Unknown);
    assert_eq!(detect_source("index 8e37a9e..6ce4863"), Source::Unknown);
}

#[test]
fn test_should_handle_raw_no_decoration_is_passthrough() {
    let mut options = default_options();
    options.commit_style = "raw".to_string();
    options.commit_decoration_style = "none".to_string();
    let config = make_config(&options);
    assert!(!should_handle(&State::CommitMeta, &config));
    // raw with a decoration is still handled
    let mut options = default_options();
    options.commit_style = "raw".to_string();
    options.commit_decoration_style = "box".to_string();
    let config = make_config(&options);
    assert!(should_handle(&State::CommitMeta, &config));
}

#[test]
fn test_state_is_in_hunk() {
    assert!(State::HunkHeader.is_in_hunk());
    assert!(State::HunkZero.is_in_hunk());
    assert!(State::HunkMinus.is_in_hunk());
    assert!(State::HunkPlus.is_in_hunk());
    assert!(!State::CommitMeta.is_in_hunk());
    assert!(!State::FileMeta.is_in_hunk());
    assert!(!State::Unknown.is_in_hunk());
}

#[test]
fn test_classification_is_deterministic() {
    // the same line fed twice from the same preceding state transitions the
    // same way, whatever the painters hold
    let config = default_config();
    let lines = ["commit abc", "diff --git a/x b/x", "@@ -1 +1 @@", "just text"];
    for line in lines.iter() {
        let mut p1 = Painter::new();
        let mut p2 = Painter::new();
        p2.output_buffer.push_str("pending");
        let r1 = process_line(&mut p1, State::Unknown, Source::Unknown, String::new(), line, &config);
        let r2 = process_line(&mut p2, State::Unknown, Source::Unknown, String::new(), line, &config);
        assert_eq!(r1.0, r2.0);
        assert_eq!(r1.1, r2.1);
    }
}

#[test]
fn test_buffers_stay_bounded() {
    let mut options = default_options();
    options.max_buffered_lines = 4;
    let config = make_config(&options);
    let mut painter = Painter::new();
    let mut state = State::HunkHeader;
    for _ in 0..40 {
        state = handle_hunk_line(&mut painter, "+added line", "+added line", state, &config);
        assert!(painter.plus_lines.len() <= config.max_buffered_lines + 1);
        assert!(painter.minus_lines.len() <= config.max_buffered_lines + 1);
    }
    for _ in 0..40 {
        state = handle_hunk_line(&mut painter, "-removed line", "-removed line", state, &config);
        assert!(painter.plus_lines.len() <= config.max_buffered_lines + 1);
        assert!(painter.minus_lines.len() <= config.max_buffered_lines + 1);
    }
}

const PAIRING_INPUT: &str = "\
--- a/f.txt
+++ b/f.txt
@@ -1,2 +1,1 @@
-abcdef
-second
+abXdef
";

#[test]
fn test_pairing_emphasis_on_paired_lines_only() {
    let config = default_config();
    let output = run(PAIRING_INPUT, &config);
    let lines: Vec<&str> = output.split('\n').collect();
    let minus_paired = lines
        .iter()
        .find(|l| console::strip_ansi_codes(l) == " abcdef")
        .expect("paired removed line");
    let minus_unpaired = lines
        .iter()
        .find(|l| console::strip_ansi_codes(l) == " second")
        .expect("unpaired removed line");
    let plus_paired = lines
        .iter()
        .find(|l| console::strip_ansi_codes(l) == " abXdef")
        .expect("paired added line");
    // the changed middle of a paired line carries the emphasis background
    assert!(minus_paired.contains("48;5;88"), "{:?}", minus_paired);
    assert!(plus_paired.contains("48;5;28"), "{:?}", plus_paired);
    // the unpaired line carries the base background alone
    assert!(minus_unpaired.contains("48;5;52"), "{:?}", minus_unpaired);
    assert!(!minus_unpaired.contains("48;5;88"), "{:?}", minus_unpaired);
}

#[test]
fn test_no_newline_marker_is_passed_through() {
    let config = default_config();
    let input = "\
--- a/f.txt
+++ b/f.txt
@@ -1 +1 @@
-x
+y
\\ No newline at end of file
";
    let output = run(input, &config);
    let stripped = console::strip_ansi_codes(&output);
    assert!(stripped.contains("\\ No newline at end of file\n"), "{:?}", stripped);
}

#[test]
fn test_fixed_decoration_width() {
    let mut options = default_options();
    options.commit_style = "blue".to_string();
    options.commit_decoration_style = "blue box".to_string();
    options.width = Some("20".to_string());
    let config = make_config(&options);
    let output = run("commit abc\n", &config);
    let stripped = console::strip_ansi_codes(&output);
    let hline: String = std::iter::repeat('\u{2500}').take(20).collect();
    assert!(stripped.contains(&format!("{}\u{2510}", hline)), "{:?}", stripped);
}

#[test]
fn test_tab_expansion_in_hunk_lines() {
    let config = default_config();
    let input = "\
--- a/f.txt
+++ b/f.txt
@@ -1 +1 @@
-\tindented
+\tindented more
";
    let output = run(input, &config);
    let stripped = console::strip_ansi_codes(&output);
    assert!(stripped.contains("     indented\n"), "{:?}", stripped);
    assert!(stripped.contains("     indented more\n"), "{:?}", stripped);
}

#[test]
fn test_flush_of_empty_buffers_is_a_noop() {
    let config = default_config();
    let mut painter = Painter::new();
    painter.output_buffer.push_str("pending");
    painter.paint_buffered_lines(&config);
    assert_eq!(painter.output_buffer, "pending");
    assert_eq!(painter.output, "");
    assert!(painter.minus_lines.is_empty());
    assert!(painter.plus_lines.is_empty());
}
