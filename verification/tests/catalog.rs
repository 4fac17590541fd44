use eunomia::cli::plan_checks;
use eunomia::parser::guideline::{CheckLevel, CheckTool, CodingGuidelines, Guideline, GuidelineID};
use eunomia::parser::output_file::{CheckInfo, DefectType, Output};
use eunomia::tools::clippy::ClippyOpt;
use eunomia::tools::SupportedTool;
use eunomia::Error;

fn one_guideline_catalog() -> CodingGuidelines {
    CodingGuidelines {
        coding_guidelines: vec![Guideline {
            id: "G.TYP.ARR.01".parse::<GuidelineID>().unwrap(),
            name: "no out of bounds access".to_string(),
            level: CheckLevel::default(),
            tool: vec![CheckTool {
                name: SupportedTool::Clippy,
                ident: "out_of_bounds_indexing".to_string(),
            }],
        }],
    }
}

// The guideline lookup scenario: the catalog's single guideline is returned
// for the diagnostic it is bound to, and for nothing else.
#[test]
fn guideline_lookup_scenario() {
    let catalog = one_guideline_catalog();

    let hits = catalog.lookup(SupportedTool::Clippy, "out_of_bounds_indexing");
    assert_eq!(hits.len(), 1);
    assert_eq!(hits[0].name, "no out of bounds access");
    assert_eq!(hits[0].id.to_string(), "g.typ.arr.01");

    assert!(catalog
        .lookup(SupportedTool::Clippy, "something_else")
        .is_empty());
    // The binding is per tool: the same ident under another tool matches
    // nothing.
    assert!(catalog
        .lookup(SupportedTool::Rustc, "out_of_bounds_indexing")
        .is_empty());
}

#[test]
fn annotate_fills_guideline_list_from_extraction() {
    let block = "error: range is out of bounds
 --> src/clippy.rs:12:19
  |
12 |     let _ = &x[2..9];
  |                   ^
  |
  = note: `#[deny(clippy::out_of_bounds_indexing)]` on by default";
    let mut info = ClippyOpt::check_info(block).unwrap();
    assert!(info.guideline_list.is_empty());

    let catalog = one_guideline_catalog();
    info.annotate(&catalog);
    assert_eq!(info.guideline_list.len(), 1);
    assert_eq!(info.guideline_list[0].id.to_string(), "g.typ.arr.01");
    // Every other field is untouched.
    assert_eq!(info.defect_name, "out_of_bounds_indexing");
    assert_eq!(info.begin_line, Some(12));
}

#[test]
fn lookup_preserves_catalog_order_and_duplicates() {
    let catalog = CodingGuidelines {
        coding_guidelines: vec![
            Guideline {
                id: "g.one.1".parse().unwrap(),
                name: "first".to_string(),
                level: CheckLevel::Warn,
                tool: vec![CheckTool {
                    name: SupportedTool::Rustc,
                    ident: "while_true".to_string(),
                }],
            },
            Guideline {
                id: "g.two.2".parse().unwrap(),
                name: "second".to_string(),
                level: CheckLevel::Severe,
                tool: vec![
                    CheckTool {
                        name: SupportedTool::Clippy,
                        ident: "while_true".to_string(),
                    },
                    CheckTool {
                        name: SupportedTool::Rustc,
                        ident: "while_true".to_string(),
                    },
                ],
            },
        ],
    };
    let hits = catalog.lookup(SupportedTool::Rustc, "while_true");
    assert_eq!(hits.len(), 2);
    assert_eq!(hits[0].name, "first");
    assert_eq!(hits[1].name, "second");
}

#[test]
fn plan_checks_collects_idents_per_tool() {
    let catalog = CodingGuidelines {
        coding_guidelines: vec![
            Guideline {
                id: "g.one.1".parse().unwrap(),
                name: "first".to_string(),
                level: CheckLevel::Warn,
                tool: vec![CheckTool {
                    name: SupportedTool::Clippy,
                    ident: "bool_comparison".to_string(),
                }],
            },
            Guideline {
                id: "g.two.2".parse().unwrap(),
                name: "second".to_string(),
                level: CheckLevel::Warn,
                tool: vec![
                    CheckTool {
                        name: SupportedTool::Rustc,
                        ident: "while_true".to_string(),
                    },
                    CheckTool {
                        name: SupportedTool::Clippy,
                        ident: "out_of_bounds_indexing".to_string(),
                    },
                ],
            },
        ],
    };
    let ids = vec![
        "g.one.1".parse::<GuidelineID>().unwrap(),
        "g.two.2".parse::<GuidelineID>().unwrap(),
        // Absent from the catalog: contributes nothing.
        "g.three.3".parse::<GuidelineID>().unwrap(),
    ];
    let (clippy_opt, rustc_opt) = plan_checks(&ids, &catalog, true, "src/lib.rs");

    let clippy_opt = clippy_opt.unwrap();
    assert!(clippy_opt.is_clippy);
    assert!(clippy_opt.use_cargo);
    assert_eq!(clippy_opt.path, "src/lib.rs");
    assert_eq!(
        clippy_opt.lint_names,
        vec![
            "bool_comparison".to_string(),
            "out_of_bounds_indexing".to_string()
        ]
    );

    let rustc_opt = rustc_opt.unwrap();
    assert!(!rustc_opt.is_clippy);
    assert_eq!(rustc_opt.lint_names, vec!["while_true".to_string()]);
}

#[test]
fn plan_checks_without_bindings_plans_nothing() {
    let catalog = one_guideline_catalog();
    let ids = vec!["g.absent.9".parse::<GuidelineID>().unwrap()];
    let (clippy_opt, rustc_opt) = plan_checks(&ids, &catalog, false, "x.rs");
    assert!(clippy_opt.is_none());
    assert!(rustc_opt.is_none());
}

#[test]
fn supported_tool_from_str_accepts_any_case() {
    assert_eq!(
        SupportedTool::from_str("Clippy"),
        Ok(SupportedTool::Clippy)
    );
    assert_eq!(SupportedTool::from_str("rustc"), Ok(SupportedTool::Rustc));
    assert_eq!(SupportedTool::from_str("MIRI"), Ok(SupportedTool::Miri));
    assert_eq!(
        SupportedTool::from_str("sanitizer"),
        Ok(SupportedTool::Sanitizer)
    );
}

#[test]
fn supported_tool_from_str_rejects_unknown() {
    let err = SupportedTool::from_str("gcc").unwrap_err();
    assert_eq!(
        err,
        Error::ParseUnsupportedEnumVariant(
            "tool name",
            "gcc".to_string(),
            vec![
                "clippy".to_string(),
                "rustc".to_string(),
                "miri".to_string(),
                "sanitizer".to_string()
            ]
        )
    );
}

#[test]
fn check_levels_are_ordered_most_severe_first() {
    assert!(CheckLevel::Fatal < CheckLevel::Severe);
    assert!(CheckLevel::Severe < CheckLevel::Warn);
    assert!(CheckLevel::Warn < CheckLevel::Prompt);
    assert!(CheckLevel::Prompt < CheckLevel::Info);
}

#[test]
fn supported_tool_names_and_defaults() {
    assert_eq!(SupportedTool::default(), SupportedTool::Rustc);
    assert_eq!(CheckLevel::default(), CheckLevel::Warn);
    assert_eq!(SupportedTool::Miri.to_string(), "miri");
    assert_eq!(
        SupportedTool::all(),
        vec![
            SupportedTool::Clippy,
            SupportedTool::Rustc,
            SupportedTool::Miri,
            SupportedTool::Sanitizer
        ]
    );
}

#[test]
fn defect_type_follows_tool() {
    let mut info = CheckInfo::default();
    info.defect_name = "while_true".to_string();
    assert!(matches!(
        info.defect_type(),
        DefectType::ToolLint {
            is_rustc_lint: true,
            name: "while_true"
        }
    ));
    info.tool = SupportedTool::Clippy;
    assert!(matches!(
        info.defect_type(),
        DefectType::ToolLint {
            is_rustc_lint: false,
            name: "while_true"
        }
    ));
    info.tool = SupportedTool::Miri;
    assert!(matches!(
        info.defect_type(),
        DefectType::KeyWord("while_true")
    ));
}

#[test]
fn output_preserves_insertion_order() {
    let mut a = CheckInfo::default();
    a.defect_name = "first".to_string();
    let mut b = CheckInfo::default();
    b.defect_name = "second".to_string();
    let mut c = CheckInfo::default();
    c.defect_name = "third".to_string();

    let mut out = Output::from_infos(vec![a, b]);
    out.append_infos(vec![c]);
    let names: Vec<&str> = out
        .check_info
        .iter()
        .map(|i| i.defect_name.as_str())
        .collect();
    assert_eq!(names, vec!["first", "second", "third"]);
}

#[test]
fn parse_usize_reads_decimal_numbers() {
    assert_eq!(eunomia::text::parse_usize("12"), Some(12));
    assert_eq!(eunomia::text::parse_usize("+5"), Some(5));
    assert_eq!(eunomia::text::parse_usize("0"), Some(0));
    assert_eq!(eunomia::text::parse_usize(""), None);
    assert_eq!(eunomia::text::parse_usize("abc"), None);
    assert_eq!(eunomia::text::parse_usize("1 2"), None);
    assert_eq!(eunomia::text::parse_usize("-3"), None);
    assert_eq!(
        eunomia::text::parse_usize("99999999999999999999999999"),
        None
    );
}
