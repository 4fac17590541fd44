use eunomia::parser::output_file::CheckInfo;
use eunomia::tools::clippy::ClippyOpt;
use eunomia::tools::lints::LintsOpt;
use eunomia::tools::SupportedTool;

fn assert_eq_check_info(info: &CheckInfo, expected: &CheckInfo) {
    assert_eq!(info.file_path, expected.file_path);
    assert_eq!(info.defect_name, expected.defect_name);
    assert_eq!(info.tool, expected.tool);
    assert_eq!(info.begin_line, expected.begin_line);
    assert_eq!(info.end_line, expected.end_line);
    assert_eq!(info.column, expected.column);
    assert_eq!(info.code_string, expected.code_string);
    assert_eq!(info.help_info, expected.help_info);
    assert_eq!(info.additional_help_info, expected.additional_help_info);
    assert_eq!(info.guideline_list, expected.guideline_list);
}

#[test]
fn clippy_clippy_unified_output() {
    let output_1 = "error: range is out of bounds
  --> src/clippy.rs:12:19
   |
12 |     let _ = &x[2..9];
   |                   ^
   |
   = help: for further information visit https://rust-lang.github.io/rust-clippy/master/index.html#out_of_bounds_indexing
   = note: `#[deny(clippy::out_of_bounds_indexing)]` on by default";

    let info = ClippyOpt::check_info(output_1).unwrap();

    let expected = CheckInfo {
        file_path: Some("src/clippy.rs".to_string()),
        tool: SupportedTool::Clippy,
        begin_line: Some(12),
        column: Some(19),
        help_info: "range is out of bounds".to_string(),
        defect_name: "out_of_bounds_indexing".to_string(),
        code_string: "     let _ = &x[2..9];".to_string(),
        additional_help_info: "for further information visit https://rust-lang.github.io/rust-clippy/master/index.html#out_of_bounds_indexing
`#[deny(clippy::out_of_bounds_indexing)]` on by default\n".to_string(),
        ..Default::default()
    };

    assert_eq_check_info(&info, &expected);
}

#[test]
fn clippy_clippy_unified_output_short() {
    let output_1 = "warning: package `mock` is missing `package.categories` metadata
  |
  = help: for further information visit https://rust-lang.github.io/rust-clippy/master/index.html#cargo_common_metadata";

    let info = ClippyOpt::check_info(output_1).unwrap();

    let expected = CheckInfo {
        tool: SupportedTool::Clippy,
        help_info: "package `mock` is missing `package.categories` metadata".to_string(),
        defect_name: "cargo_common_metadata".to_string(),
        additional_help_info: "for further information visit https://rust-lang.github.io/rust-clippy/master/index.html#cargo_common_metadata\n".to_string(),
        ..Default::default()
    };
    assert_eq_check_info(&info, &expected);
}

#[test]
fn lints_clippy_unified_output() {
    let output_1 = "error: range is out of bounds
  --> src/lints.rs:12:19
   |
12 |     let _ = &x[2..9];
   |                   ^
   |
   = help: for further information visit https://rust-lang.github.io/rust-clippy/master/index.html#out_of_bounds_indexing
   = note: `#[deny(clippy::out_of_bounds_indexing)]` on by default";

    let info = LintsOpt {
        is_clippy: true,
        ..Default::default()
    }
    .check_info(output_1)
    .unwrap();

    let expected = CheckInfo {
        file_path: Some("src/lints.rs".to_string()),
        tool: SupportedTool::Clippy,
        begin_line: Some(12),
        column: Some(19),
        help_info: "range is out of bounds".to_string(),
        defect_name: "clippy::out_of_bounds_indexing".to_string(),
        code_string: "    let _ = &x[2..9];".to_string(),
        additional_help_info: "\
        help: for further information visit https://rust-lang.github.io/rust-clippy/master/index.html#out_of_bounds_indexing\n\
        note: `#[deny(clippy::out_of_bounds_indexing)]` on by default\n".to_string(),
        ..Default::default()
    };

    assert_eq_check_info(&info, &expected);
}

#[test]
fn lints_clippy_unified_output_short() {
    let output_1 = "warning: package `mock` is missing `package.categories` metadata
  |
  = help: for further information visit https://rust-lang.github.io/rust-clippy/master/index.html#cargo_common_metadata";

    let opt = LintsOpt {
        is_clippy: true,
        ..Default::default()
    };
    let info = opt.check_info(output_1).unwrap();

    let expected = CheckInfo {
        tool: SupportedTool::Clippy,
        help_info: "package `mock` is missing `package.categories` metadata".to_string(),
        defect_name: "cargo_common_metadata".to_string(),
        additional_help_info: "help: for further information visit https://rust-lang.github.io/rust-clippy/master/index.html#cargo_common_metadata\n".to_string(),
        ..Default::default()
    };
    assert_eq_check_info(&info, &expected);
}

#[test]
fn rustc_unified_output() {
    let output = "warning: denote infinite loops with `loop { ... }`
  --> src/lints.rs:43:5
   |
43 |     while true { }
   |     ^^^^^^^^^^ help: use `loop`
   |
   = note: `#[warn(while_true)]` on by default";

    let opt = LintsOpt {
        is_clippy: false,
        ..Default::default()
    };
    let info = opt.check_info(output).unwrap();

    let expected = CheckInfo {
        file_path: Some("src/lints.rs".to_string()),
        defect_name: "while_true".to_string(),
        tool: SupportedTool::Rustc,
        begin_line: Some(43),
        column: Some(5),
        code_string: "    while true { }".to_string(),
        help_info: "denote infinite loops with `loop { ... }`".to_string(),
        additional_help_info: "note: `#[warn(while_true)]` on by default\n".to_string(),
        ..Default::default()
    };
    assert_eq_check_info(&info, &expected);
}

#[test]
fn rustc_unified_output_custom() {
    let output = "warning: identifier contains non-ASCII characters
  --> src/lints.rs:53:9
   |
53 |     let _\u{53d8}\u{91cf} = 1;
   |         ^^^^^
   |
   = note: requested on the command line with `-W non-ascii-idents`";

    let info = LintsOpt {
        is_clippy: false,
        ..Default::default()
    }
    .check_info(output)
    .unwrap();

    let expected = CheckInfo {
        file_path: Some("src/lints.rs".to_string()),
        defect_name: "non-ascii-idents".to_string(),
        tool: SupportedTool::Rustc,
        begin_line: Some(53),
        column: Some(9),
        code_string: "    let _\u{53d8}\u{91cf} = 1;".to_string(),
        help_info: "identifier contains non-ASCII characters".to_string(),
        additional_help_info: "note: requested on the command line with `-W non-ascii-idents`\n"
            .to_string(),
        ..Default::default()
    };
    assert_eq_check_info(&info, &expected);
}
