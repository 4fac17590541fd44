use eunomia::tools::miri::MiriOpt;

#[test]
fn test_miri_check_info() {
    let input = "error: Undefined Behavior: Data race detected between (1) Write on thread `<unnamed>` and (2) Write on thread `<unnamed>` at alloc1. (2) just happened here
--> src/bin/data_race.rs:7:38
  |
7 |   let t2 = thread::spawn(|| unsafe { UNSAFE = 2 });
  |                                      ^^^^^^^^^^ Data race detected between (1) Write on thread `<unnamed>` and (2) Write on thread `<unnamed>` at alloc1. (2) just happened here
  |
help: and (1) occurred earlier here
--> src/bin/data_race.rs:6:38
  |
6 |   let t1 = thread::spawn(|| unsafe { UNSAFE = 1 });
  |                                      ^^^^^^^^^^
  = help: this indicates a bug in the program: it performed an invalid operation, and caused Undefined Behavior
  = help: see https://doc.rust-lang.org/nightly/reference/behavior-considered-undefined.html for further information
  = note: BACKTRACE (of the first span):
  = note: inside closure at src/bin/data_race.rs:7:38: 7:48";

    let miri_opt = MiriOpt::default();
    let check_info = miri_opt.check_info(input).unwrap();

    let expected_help_info = "Undefined Behavior: Data race detected between (1) Write on thread `<unnamed>` and (2) Write on thread `<unnamed>` at alloc1. (2) just happened here";
    assert_eq!(&check_info.help_info, expected_help_info);

    let expected_file_path = "src/bin/data_race.rs";
    assert_eq!(
        check_info.file_path,
        Some(expected_file_path.to_string())
    );
    assert_eq!(check_info.begin_line, Some(7));
    assert_eq!(check_info.column, Some(38));

    let expected_code_string = "let t2 = thread::spawn(|| unsafe { UNSAFE = 2 });
let t1 = thread::spawn(|| unsafe { UNSAFE = 1 });";
    assert_eq!(&check_info.code_string, expected_code_string);

    let expected_help_note = "and (1) occurred earlier here
this indicates a bug in the program: it performed an invalid operation, and caused Undefined Behavior
see https://doc.rust-lang.org/nightly/reference/behavior-considered-undefined.html for further information
BACKTRACE (of the first span):
inside closure at src/bin/data_race.rs:7:38: 7:48";
    assert_eq!(&check_info.additional_help_info, expected_help_note);
}

#[test]
fn miri_check_info_sets_end_line_and_tool_fields() {
    let input = "error: a problem
--> src/x.rs:3:5";
    let info = MiriOpt::default().check_info(input).unwrap();
    assert_eq!(info.begin_line, Some(3));
    assert_eq!(info.end_line, Some(3));
    assert_eq!(info.defect_name, "");
    assert!(info.guideline_list.is_empty());
}

#[test]
fn miri_filter_output_passes_stdout_through() {
    let opt = MiriOpt::default();
    let filtered = opt.filter_output("program says\nhello", "");
    assert_eq!(
        filtered.stdout,
        vec!["program says".to_string(), "hello".to_string()]
    );
    assert!(filtered.stderr.is_empty());
}

#[test]
fn miri_filter_output_keeps_only_gutter_blocks() {
    let opt = MiriOpt::default();
    let stderr = "Preparing a sysroot for Miri
error: Undefined Behavior: boom
  |
7 | code here

note: some isolated note without a gutter

error: another one
  |
9 | more code";

    let filtered = opt.filter_output("", stderr);
    assert_eq!(filtered.stderr.len(), 2);
    assert_eq!(
        filtered.stderr[0],
        "error: Undefined Behavior: boom\n  |\n7 | code here"
    );
    assert_eq!(filtered.stderr[1], "error: another one\n  |\n9 | more code");
}

#[test]
fn miri_check_info_degrades_on_unshaped_first_line() {
    let info = MiriOpt::default().check_info("not a diagnostic at all").unwrap();
    assert_eq!(info.help_info, "");
    assert_eq!(info.file_path, None);
}
