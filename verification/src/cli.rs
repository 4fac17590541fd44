//! The command-line surface of a check pass: the resolved arguments, and the
//! planning step that turns requested guidelines into tool runs. Reading
//! files, spawning tools and writing the report belong to the binary around
//! this crate; the decisions live here.
use crate::parser::guideline::{find_guideline, CodingGuidelines, GuidelineID, GuidelineV};
use crate::tools::{LintsOpt, SupportedTool};
use vstd::prelude::*;
use vstd::string::StringExecFns;

verus! {

/// The resolved command-line arguments of one run: the rules configuration
/// file, an optional override for the source file to check, and an optional
/// output path.
#[derive(Debug)]
pub struct Args {
    pub rule_file: String,
    pub src_file: Option<String>,
    pub output: Option<String>,
}

/// The idents of a guideline's bindings for one tool, in binding order.
pub open spec fn idents_of(ts: Seq<crate::parser::guideline::CheckToolV>, tool: SupportedTool) -> Seq<
    Seq<char>,
>
    decreases ts.len(),
{
    if ts.len() == 0 {
        Seq::empty()
    } else {
        idents_of(ts.drop_last(), tool) + if ts.last().name == tool {
            seq![ts.last().ident]
        } else {
            Seq::empty()
        }
    }
}

/// The idents gathered for one tool over the requested guidelines, in
/// request order; identifiers absent from the catalog contribute nothing.
pub open spec fn collect_idents(
    ids: Seq<crate::parser::guideline::GuidelineIDV>,
    gs: Seq<GuidelineV>,
    tool: SupportedTool,
) -> Seq<Seq<char>>
    decreases ids.len(),
{
    if ids.len() == 0 {
        Seq::empty()
    } else {
        collect_idents(ids.drop_last(), gs, tool) + match find_guideline(gs, ids.last()) {
            Some(g) => idents_of(g.tool, tool),
            None => Seq::empty(),
        }
    }
}

/// Whether every binding of the requested guidelines names one of the two
/// lint tools; runs for the other tools are not planned here.
pub open spec fn only_lint_tools(
    ids: Seq<crate::parser::guideline::GuidelineIDV>,
    gs: Seq<GuidelineV>,
) -> bool {
    forall|q: int|
        0 <= q < ids.len() ==> (match find_guideline(gs, #[trigger] ids[q]) {
            Some(g) => forall|b: int|
                0 <= b < g.tool.len() ==> ((#[trigger] g.tool[b].name) == SupportedTool::Clippy
                    || g.tool[b].name == SupportedTool::Rustc),
            None => true,
        })
}

/// What one planned lints run must look like.
pub open spec fn planned_opt(
    opt: LintsOpt,
    is_clippy: bool,
    use_cargo: bool,
    path: Seq<char>,
    names: Seq<Seq<char>>,
) -> bool {
    &&& opt.is_clippy == is_clippy
    &&& opt.use_cargo == use_cargo
    &&& opt.path@ == path
    &&& opt.lint_names.deep_view() == names
}

/// Plans the lint runs for the requested guidelines: one clippy run and one
/// rustc run, each carrying, in request order, the idents of the bindings
/// that name it — and no run at all for a tool no binding names.
pub fn plan_checks(
    ids: &Vec<GuidelineID>,
    catalog: &CodingGuidelines,
    use_cargo: bool,
    path: &str,
) -> (r: (Option<LintsOpt>, Option<LintsOpt>))
    requires
        only_lint_tools(ids.deep_view(), catalog@),
    ensures
        ({
            let clippy_names = collect_idents(ids.deep_view(), catalog@, SupportedTool::Clippy);
            match r.0 {
                Some(opt) => clippy_names.len() > 0 && planned_opt(
                    opt,
                    true,
                    use_cargo,
                    path@,
                    clippy_names,
                ),
                None => clippy_names.len() == 0,
            }
        }),
        ({
            let rustc_names = collect_idents(ids.deep_view(), catalog@, SupportedTool::Rustc);
            match r.1 {
                Some(opt) => rustc_names.len() > 0 && planned_opt(
                    opt,
                    false,
                    use_cargo,
                    path@,
                    rustc_names,
                ),
                None => rustc_names.len() == 0,
            }
        }),
{
    let ghost idv = ids.deep_view();
    let mut clippy_names: Vec<String> = Vec::new();
    let mut rustc_names: Vec<String> = Vec::new();
    let n = ids.len();
    let mut i: usize = 0;
    while i < n
        invariant
            0 <= i <= n,
            n == ids@.len(),
            idv == ids.deep_view(),
            only_lint_tools(idv, catalog@),
            clippy_names.deep_view() == collect_idents(
                idv.take(i as int),
                catalog@,
                SupportedTool::Clippy,
            ),
            rustc_names.deep_view() == collect_idents(
                idv.take(i as int),
                catalog@,
                SupportedTool::Rustc,
            ),
        decreases n - i,
    {
        proof {
            assert(idv.take(i + 1).drop_last() =~= idv.take(i as int));
            assert(idv.take(i + 1).last() == idv[i as int]);
        }
        match catalog.find_by_id(&ids[i]) {
            Some(g) => {
                let ghost gv = g@;
                assert(find_guideline(catalog@, idv[i as int]) == Some(gv));
                let m = g.tool.len();
                let mut b: usize = 0;
                while b < m
                    invariant
                        0 <= b <= m,
                        m == g.tool@.len(),
                        gv == g@,
                        only_lint_tools(idv, catalog@),
                        0 <= i < idv.len(),
                        find_guideline(catalog@, idv[i as int]) == Some(gv),
                        clippy_names.deep_view() == collect_idents(
                            idv.take(i as int),
                            catalog@,
                            SupportedTool::Clippy,
                        ) + idents_of(gv.tool.take(b as int), SupportedTool::Clippy),
                        rustc_names.deep_view() == collect_idents(
                            idv.take(i as int),
                            catalog@,
                            SupportedTool::Rustc,
                        ) + idents_of(gv.tool.take(b as int), SupportedTool::Rustc),
                    decreases m - b,
                {
                    proof {
                        assert(gv.tool.take(b + 1).drop_last() =~= gv.tool.take(b as int));
                        assert(gv.tool.take(b + 1).last() == gv.tool[b as int]);
                    }
                    let binding = &g.tool[b];
                    match binding.name {
                        SupportedTool::Clippy => {
                            let ghost prev = clippy_names.deep_view();
                            clippy_names.push(binding.ident.clone());
                            assert(clippy_names.deep_view() =~= prev.push(gv.tool[b as int].ident));
                        },
                        SupportedTool::Rustc => {
                            let ghost prev = rustc_names.deep_view();
                            rustc_names.push(binding.ident.clone());
                            assert(rustc_names.deep_view() =~= prev.push(gv.tool[b as int].ident));
                        },
                        SupportedTool::Miri | SupportedTool::Sanitizer => {
                            proof {
                                assert(gv.tool[b as int].name == SupportedTool::Clippy
                                    || gv.tool[b as int].name == SupportedTool::Rustc);
                                assert(false);
                            }
                        },
                    }
                    b += 1;
                }
                proof {
                    assert(gv.tool.take(m as int) =~= gv.tool);
                }
            },
            None => {},
        }
        i += 1;
    }
    proof {
        assert(idv.take(n as int) =~= idv);
    }
    let clippy_opt = if clippy_names.len() > 0 {
        Some(
            LintsOpt {
                is_clippy: true,
                use_cargo,
                path: path.to_owned(),
                lint_names: clippy_names,
            },
        )
    } else {
        None
    };
    let rustc_opt = if rustc_names.len() > 0 {
        Some(
            LintsOpt {
                is_clippy: false,
                use_cargo,
                path: path.to_owned(),
                lint_names: rustc_names,
            },
        )
    } else {
        None
    };
    (clippy_opt, rustc_opt)
}

} // verus!
