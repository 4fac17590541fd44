use eunomia::extract::maybe_code_line;
use eunomia::tools::clippy::ClippyOpt;
use eunomia::tools::lints::LintsOpt;
use eunomia::utils::regex_utils::{capture_last, get_named_match};

#[test]
fn clippy_test_extract_lint_name_from_note() {
    let note_regex = "clippy::(?P<name>(\\w+))";
    let note_str = "= note: `#[warn(clippy::bool_comparison)]` on by default";

    let name = get_named_match("name", note_regex, note_str);
    assert_eq!(name, Some("bool_comparison".to_string()));
}

#[test]
fn clippy_test_extract_lint_name_from_help() {
    let help_regex = "rust-clippy/master/index.html#(?P<name>(\\w+))";
    let help_str = "= help: for further information visit \
        https://rust-lang.github.io/rust-clippy/master/index.html#bool_comparison";

    let name = get_named_match("name", help_regex, help_str);
    assert_eq!(name, Some("bool_comparison".to_string()));
}

#[test]
fn clippy_test_extract_code() {
    let code_line_1 = "18 |     if flag == true {}";
    let code_line_2 = "   |        ^^^^^^^^^^^^ help: try simplifying it as shown: `flag`";
    let code_line_3 = "   |     ";

    assert_eq!(
        maybe_code_line(code_line_1, false),
        Some("     if flag == true {}")
    );
    assert_eq!(maybe_code_line(code_line_2, false), None);
    assert_eq!(maybe_code_line(code_line_3, false), None);
}

#[test]
fn lints_test_extract_lint_name_from_note() {
    let note_str = "= note: `#[warn(clippy::bool_comparison)]` on by default";
    let note_str_1 = "= note: requested on the command line with `-W non-ascii-idents`";

    let note_regex = "(`-(?:W|D) (.*?)`)|(\\((.*?)\\)\\])";

    let name = capture_last(note_regex, note_str);
    let name_1 = capture_last(note_regex, note_str_1);

    assert_eq!(name, Some("clippy::bool_comparison".to_string()));
    assert_eq!(name_1, Some("non-ascii-idents".to_string()));
}

#[test]
fn lints_test_extract_lint_name_from_help() {
    let help_regex = "rust-clippy/master/index.html#(?P<name>(\\w+))";
    let help_str = "= help: for further information visit \
        https://rust-lang.github.io/rust-clippy/master/index.html#bool_comparison";

    let name = get_named_match("name", help_regex, help_str);
    assert_eq!(name, Some("bool_comparison".to_string()));
}

#[test]
fn lints_test_extract_code() {
    let code_line_1 = "18 |     if flag == true {}";
    let code_line_2 = "   |        ^^^^^^^^^^^^ help: try simplifying it as shown: `flag`";
    let code_line_3 = "   |     ";

    assert_eq!(
        maybe_code_line(code_line_1, true),
        Some("    if flag == true {}")
    );
    assert_eq!(maybe_code_line(code_line_2, true), None);
    assert_eq!(maybe_code_line(code_line_3, true), None);
}

// The concrete extraction scenario: an out-of-bounds diagnostic with a
// documentation-link help line and an attribute note line.
#[test]
fn clippy_check_info_concrete_block() {
    let block = "error: range is out of bounds
 --> src/clippy.rs:12:19
  |
12 |     let _ = &x[2..9];
  |                   ^
  |
  = help: for further information visit https://rust-lang.github.io/rust-clippy/master/index.html#out_of_bounds_indexing
  = note: `#[deny(clippy::out_of_bounds_indexing)]` on by default";

    let info = ClippyOpt::check_info(block).unwrap();
    assert_eq!(info.help_info, "range is out of bounds");
    assert_eq!(info.file_path, Some("src/clippy.rs".to_string()));
    assert_eq!(info.begin_line, Some(12));
    assert_eq!(info.column, Some(19));
    assert!(info.code_string.contains("let _ = &x[2..9];"));
    // The note's attribute match overrides the help-derived candidate.
    assert_eq!(info.defect_name, "out_of_bounds_indexing");
    assert!(info
        .additional_help_info
        .contains("for further information visit"));
    assert!(info
        .additional_help_info
        .contains("`#[deny(clippy::out_of_bounds_indexing)]` on by default"));
}

// Once a help line is seen, a later line shaped like a code-snippet line is
// never taken as code.
#[test]
fn clippy_check_info_mode_flag_is_monotone() {
    let block = "error: something
 --> src/a.rs:1:2
3 |     real code;
  = help: a suggestion follows
4 |     suggested code;";

    let info = ClippyOpt::check_info(block).unwrap();
    assert_eq!(info.code_string, "     real code;");
    assert!(!info.code_string.contains("suggested code"));
}

// Two note lines that both match: the later, more specific one wins.
#[test]
fn clippy_check_info_last_match_wins() {
    let block = "error: something
 --> src/a.rs:1:2
  |
  = note: `#[warn(clippy::first_lint)]` on by default
  = note: `#[deny(clippy::second_lint)]` on by default";

    let info = ClippyOpt::check_info(block).unwrap();
    assert_eq!(info.defect_name, "second_lint");
}

// A block without a location line degrades: location fields stay absent,
// nothing fails.
#[test]
fn clippy_check_info_degrades_without_location() {
    let block = "warning: crate-level problem";
    let info = ClippyOpt::check_info(block).unwrap();
    assert_eq!(info.help_info, "crate-level problem");
    assert_eq!(info.file_path, None);
    assert_eq!(info.begin_line, None);
    assert_eq!(info.column, None);
    assert_eq!(info.defect_name, "");
}

#[test]
fn clippy_filter_output_drops_banner_and_summary() {
    let stderr = "Checking crate foo v0.1.0
error: first diagnostic
 --> a.rs:1:1

error: second diagnostic
 --> b.rs:2:2

warning: `foo` generated 2 errors";

    let filtered = ClippyOpt::filter_output(stderr);
    assert!(filtered.stdout.is_empty());
    assert_eq!(filtered.stderr.len(), 2);
    assert_eq!(filtered.stderr[0], "error: first diagnostic\n --> a.rs:1:1");
    assert_eq!(filtered.stderr[1], "error: second diagnostic\n --> b.rs:2:2");
}

#[test]
fn clippy_filter_output_single_section_is_kept() {
    let stderr = "Checking crate foo v0.1.0\nerror: only diagnostic";
    let filtered = ClippyOpt::filter_output(stderr);
    assert_eq!(filtered.stderr, vec!["error: only diagnostic".to_string()]);
}

// Segmenting an empty or whitespace-only buffer yields zero blocks.
#[test]
fn clippy_filter_output_empty_input() {
    assert!(ClippyOpt::filter_output("").stderr.is_empty());
    assert!(ClippyOpt::filter_output("  \n \n\t").stderr.is_empty());
}

#[test]
fn lints_filter_output_scans_for_severity() {
    let opt = LintsOpt::default();
    let stderr = "   Compiling foo v0.1.0
    Checking bar v0.1.0
warning: unused variable
 --> src/main.rs:4:9

warning: `foo` generated 1 warning";

    let filtered = opt.filter_output(stderr);
    assert_eq!(filtered.stderr.len(), 1);
    assert_eq!(
        filtered.stderr[0],
        "warning: unused variable\n --> src/main.rs:4:9"
    );
}

#[test]
fn lints_check_info_rustc_note() {
    let opt = LintsOpt::default();
    let block = "warning: unused variable
 --> src/main.rs:4:9
  |
4 |     let unused = 1;
  |         ^^^^^^
  |
  = note: requested on the command line with `-W unused-variables`";

    let info = opt.check_info(block).unwrap();
    assert_eq!(info.help_info, "unused variable");
    assert_eq!(info.file_path, Some("src/main.rs".to_string()));
    assert_eq!(info.begin_line, Some(4));
    assert_eq!(info.column, Some(9));
    assert_eq!(info.defect_name, "unused-variables");
    assert_eq!(info.code_string, "    let unused = 1;");
    assert_eq!(
        info.additional_help_info,
        "note: requested on the command line with `-W unused-variables`\n"
    );
}

// A location line whose line and column do not read as numbers still names
// the file; the numeric fields stay absent.
#[test]
fn clippy_check_info_location_with_bad_numbers() {
    let block = "error: odd location
 --> src/a.rs:twelve:nineteen";
    let info = ClippyOpt::check_info(block).unwrap();
    assert_eq!(info.file_path, Some("src/a.rs".to_string()));
    assert_eq!(info.begin_line, None);
    assert_eq!(info.column, None);
}

// A location line of the wrong arity leaves every location field absent.
#[test]
fn clippy_check_info_location_wrong_arity() {
    let block = "error: odd location
 --> src/a.rs:12";
    let info = ClippyOpt::check_info(block).unwrap();
    assert_eq!(info.file_path, None);
    assert_eq!(info.begin_line, None);
    assert_eq!(info.column, None);
}

// An interior whitespace-only section is discarded as a block.
#[test]
fn clippy_filter_output_discards_blank_sections() {
    let stderr = "Checking crate foo v0.1.0
error: first



error: second

warning: summary";
    let filtered = ClippyOpt::filter_output(stderr);
    assert_eq!(
        filtered.stderr,
        vec!["error: first".to_string(), "error: second".to_string()]
    );
}

#[test]
fn lints_check_info_clippy_help_link() {
    let opt = LintsOpt {
        is_clippy: true,
        ..LintsOpt::default()
    };
    let block = "warning: equality checks against true are unnecessary
 --> src/main.rs:2:8
  |
  = help: for further information visit https://rust-lang.github.io/rust-clippy/master/index.html#bool_comparison";

    let info = opt.check_info(block).unwrap();
    assert_eq!(info.defect_name, "bool_comparison");
}
