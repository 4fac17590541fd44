//! Coding-guideline data: identifiers, guideline records, and the catalog
//! that binds tool lint identifiers to guidelines.
use crate::errors::{Error, ErrorV};
use crate::text::{
    eq_str, find_at, find_at_exec, lemma_find_at_intro, lemma_find_at_some, lemma_lower_char_idem,
    lemma_lower_seq_idem, lemma_rfind_char_intro, lemma_rfind_char_some, lower_char, lower_seq,
    lower_str, push_char, rfind_char, rfind_char_exec,
};
use crate::tools::SupportedTool;
use vstd::prelude::*;
use vstd::string::{StrSliceExecFns, StringExecFns};

verus! {

/// A unique identifier for a guideline item.
#[derive(Debug, PartialEq, Eq, Hash)]
pub struct GuidelineID {
    /// A character giving the type of this guideline, such as 'p' or 'g'.
    pub ty: char,
    /// The dot-separated group the guideline belongs to, such as "typ.int".
    pub group: String,
    /// The index of the guideline inside its group, such as "01" or "12".
    pub idx: String,
}

/// The mathematical value of a [`GuidelineID`].
pub struct GuidelineIDV {
    pub ty: char,
    pub group: Seq<char>,
    pub idx: Seq<char>,
}

impl View for GuidelineID {
    type V = GuidelineIDV;

    open spec fn view(&self) -> GuidelineIDV {
        GuidelineIDV { ty: self.ty, group: self.group@, idx: self.idx@ }
    }
}

impl Clone for GuidelineID {
    fn clone(&self) -> (r: Self)
        ensures
            r@ == self@,
    {
        GuidelineID { ty: self.ty, group: self.group.clone(), idx: self.idx.clone() }
    }
}

impl DeepView for GuidelineID {
    type V = GuidelineIDV;

    open spec fn deep_view(&self) -> GuidelineIDV {
        self@
    }
}

/// The identifier parsed from a string: the text before the first dot is the
/// type token and must be a single character; the text after the last dot is
/// the index; what lies between is the group. Type and group are lower-cased;
/// the index keeps its case.
pub open spec fn parse_id_spec(s: Seq<char>) -> Result<GuidelineIDV, ErrorV> {
    match find_at(s, seq!['.'], 0) {
        None => Err(ErrorV::InvalidGuidelineID(s)),
        Some(j) => {
            let ty_part = s.subrange(0, j);
            let rest = s.subrange(j + 1, s.len() as int);
            if ty_part.len() != 1 {
                Err(ErrorV::InvalidGuidelineType(ty_part))
            } else {
                match rfind_char(rest, '.', rest.len() - 1) {
                    None => Err(ErrorV::InvalidGuidelineID(s)),
                    Some(k) => {
                        let group = rest.subrange(0, k);
                        let idx = rest.subrange(k + 1, rest.len() as int);
                        if group.len() == 0 || idx.len() == 0 {
                            Err(ErrorV::InvalidGuidelineID(s))
                        } else {
                            Ok(
                                GuidelineIDV {
                                    ty: lower_char(ty_part[0]),
                                    group: lower_seq(group),
                                    idx: idx,
                                },
                            )
                        }
                    },
                }
            }
        },
    }
}

/// The canonical text of an identifier value: type, group and index joined
/// with dots.
pub open spec fn id_str_spec(v: GuidelineIDV) -> Seq<char> {
    seq![v.ty] + seq!['.'] + v.group + seq!['.'] + v.idx
}

impl GuidelineID {
    /// Reads an identifier of the form `<type>.<group...>.<index>`.
    pub fn parse(s: &str) -> (r: Result<GuidelineID, Error>)
        ensures
            r matches Ok(id) ==> parse_id_spec(s@) == Ok::<GuidelineIDV, ErrorV>(id@),
            r matches Err(e) ==> parse_id_spec(s@) == Err::<GuidelineIDV, ErrorV>(e@),
    {
        proof {
            reveal_strlit(".");
            assert("."@ =~= seq!['.']);
        }
        let n = s.unicode_len();
        let j = match find_at_exec(s, ".", 0) {
            None => {
                return Err(Error::InvalidGuidelineID(s.to_owned()));
            },
            Some(j) => j,
        };
        proof {
            lemma_find_at_some(s@, seq!['.'], 0, j as int);
        }
        let ty_part = s.substring_char(0, j);
        if j != 1 {
            return Err(Error::InvalidGuidelineType(ty_part.to_owned()));
        }
        let rest = s.substring_char(j + 1, n);
        let rest_len = n - (j + 1);
        let k = match rfind_char_exec(rest, '.') {
            None => {
                return Err(Error::InvalidGuidelineID(s.to_owned()));
            },
            Some(k) => k,
        };
        proof {
            lemma_rfind_char_some(rest@, '.', rest@.len() - 1, k as int);
        }
        let group = rest.substring_char(0, k);
        let idx = rest.substring_char(k + 1, rest_len);
        if group.unicode_len() == 0 || idx.unicode_len() == 0 {
            return Err(Error::InvalidGuidelineID(s.to_owned()));
        }
        Ok(GuidelineID { ty: crate::text::to_lower_char(ty_part.get_char(0)), group: lower_str(group), idx: idx.to_owned() })
    }

    /// The canonical text of this identifier.
    pub fn to_string(&self) -> (r: String)
        ensures
            r@ == id_str_spec(self@),
    {
        let mut out = String::new();
        push_char(&mut out, self.ty);
        out.append(".");
        out.append(self.group.as_str());
        out.append(".");
        out.append(self.idx.as_str());
        proof {
            reveal_strlit(".");
            assert(out@ =~= id_str_spec(self@));
        }
        out
    }

    /// Whether `s` parses to exactly this identifier; the comparison an
    /// equality test against a raw string makes.
    pub fn matches_str(&self, s: &str) -> (r: bool)
        ensures
            r == (parse_id_spec(s@) matches Ok(v) && v.ty == self@.ty && v.group == self@.group
                && v.idx == self@.idx),
    {
        match GuidelineID::parse(s) {
            Ok(id) => {
                self.ty == id.ty && self.group == id.group && self.idx == id.idx
            },
            Err(_) => false,
        }
    }
}

impl core::str::FromStr for GuidelineID {
    type Err = Error;

    fn from_str(s: &str) -> Result<Self, Error> {
        GuidelineID::parse(s)
    }
}

/// How severe a violated guideline is; the order of the variants runs from
/// the most severe to the least.
#[derive(Debug, PartialEq, Eq, Structural, Clone, Copy, PartialOrd, Ord)]
pub enum CheckLevel {
    Fatal,
    Severe,
    Warn,
    Prompt,
    Info,
}

impl Default for CheckLevel {
    /// The level assumed when a guideline names none.
    fn default() -> (r: Self)
        ensures
            r == CheckLevel::Warn,
    {
        CheckLevel::Warn
    }
}

/// One binding of a guideline to a tool: the tool, and the keyword by which
/// that tool's results are filtered to this guideline — a lint name, or a
/// keyword of the tool's output.
#[derive(Debug)]
pub struct CheckTool {
    pub name: SupportedTool,
    pub ident: String,
}

/// The mathematical value of a [`CheckTool`].
pub struct CheckToolV {
    pub name: SupportedTool,
    pub ident: Seq<char>,
}

impl View for CheckTool {
    type V = CheckToolV;

    open spec fn view(&self) -> CheckToolV {
        CheckToolV { name: self.name, ident: self.ident@ }
    }
}

/// Complete information about one coding guideline, including its relation
/// with tools.
#[derive(Debug)]
pub struct Guideline {
    pub id: GuidelineID,
    pub name: String,
    pub level: CheckLevel,
    pub tool: Vec<CheckTool>,
}

/// The mathematical value of a [`Guideline`].
pub struct GuidelineV {
    pub id: GuidelineIDV,
    pub name: Seq<char>,
    pub level: CheckLevel,
    pub tool: Seq<CheckToolV>,
}

impl View for Guideline {
    type V = GuidelineV;

    open spec fn view(&self) -> GuidelineV {
        GuidelineV {
            id: self.id@,
            name: self.name@,
            level: self.level,
            tool: Seq::new(self.tool.len() as nat, |i: int| self.tool[i]@),
        }
    }
}

/// Basic information about a guideline item: its identifier and its name.
#[derive(Debug, PartialEq, Eq)]
pub struct GuidelineSummary {
    pub id: GuidelineID,
    pub name: String,
}

/// The mathematical value of a [`GuidelineSummary`].
pub struct GuidelineSummaryV {
    pub id: GuidelineIDV,
    pub name: Seq<char>,
}

impl View for GuidelineSummary {
    type V = GuidelineSummaryV;

    open spec fn view(&self) -> GuidelineSummaryV {
        GuidelineSummaryV { id: self.id@, name: self.name@ }
    }
}

impl DeepView for GuidelineSummary {
    type V = GuidelineSummaryV;

    open spec fn deep_view(&self) -> GuidelineSummaryV {
        self@
    }
}

/// The catalog: every [`Guideline`] this process checks against, in the
/// order the catalog source lists them.
#[derive(Debug)]
pub struct CodingGuidelines {
    pub coding_guidelines: Vec<Guideline>,
}

impl View for CodingGuidelines {
    type V = Seq<GuidelineV>;

    open spec fn view(&self) -> Seq<GuidelineV> {
        Seq::new(self.coding_guidelines.len() as nat, |i: int| self.coding_guidelines[i]@)
    }
}

/// Whether a guideline carries a binding for `tool` whose identifier pattern
/// equals `lint` exactly.
pub open spec fn binding_matches(g: GuidelineV, tool: SupportedTool, lint: Seq<char>) -> bool {
    exists|k: int| 0 <= k < g.tool.len() && g.tool[k].name == tool && g.tool[k].ident == lint
}

/// The summaries of the guidelines bound to `(tool, lint)`, in catalog order,
/// each listed once however many of its bindings match.
pub open spec fn lookup_spec(gs: Seq<GuidelineV>, tool: SupportedTool, lint: Seq<char>) -> Seq<
    GuidelineSummaryV,
>
    decreases gs.len(),
{
    if gs.len() == 0 {
        Seq::empty()
    } else {
        lookup_spec(gs.drop_last(), tool, lint) + if binding_matches(gs.last(), tool, lint) {
            seq![GuidelineSummaryV { id: gs.last().id, name: gs.last().name }]
        } else {
            Seq::empty()
        }
    }
}

impl Guideline {
    /// Whether this guideline has a binding for `tool` whose identifier
    /// equals `lint_id` exactly (never a substring match).
    pub fn matches_lint(&self, tool: SupportedTool, lint_id: &str) -> (r: bool)
        ensures
            r == binding_matches(self@, tool, lint_id@),
    {
        let n = self.tool.len();
        let mut k: usize = 0;
        while k < n
            invariant
                0 <= k <= n,
                n == self.tool.len(),
                forall|q: int|
                    0 <= q < k ==> !(self@.tool[q].name == tool && self@.tool[q].ident == lint_id@),
            decreases n - k,
        {
            let b = &self.tool[k];
            if b.name == tool && eq_str(b.ident.as_str(), lint_id) {
                assert(self@.tool[k as int].name == tool && self@.tool[k as int].ident == lint_id@);
                return true;
            }
            k += 1;
        }
        false
    }
}

impl CodingGuidelines {
    /// The guidelines that a diagnostic with the given tool and lint
    /// identifier violates: exactly those with a matching binding, in
    /// catalog order.
    pub fn lookup(&self, tool: SupportedTool, lint_id: &str) -> (r: Vec<GuidelineSummary>)
        ensures
            r.deep_view() == lookup_spec(self@, tool, lint_id@),
    {
        let n = self.coding_guidelines.len();
        let mut out: Vec<GuidelineSummary> = Vec::new();
        let mut i: usize = 0;
        while i < n
            invariant
                0 <= i <= n,
                n == self.coding_guidelines.len(),
                out.deep_view() == lookup_spec(self@.take(i as int), tool, lint_id@),
            decreases n - i,
        {
            let g = &self.coding_guidelines[i];
            proof {
                assert(self@.take(i + 1).drop_last() =~= self@.take(i as int));
                assert(self@.take(i + 1).last() == g@);
            }
            if g.matches_lint(tool, lint_id) {
                out.push(GuidelineSummary { id: g.id.clone(), name: g.name.clone() });
                assert(out.deep_view() =~= lookup_spec(self@.take(i + 1), tool, lint_id@));
            } else {
                assert(out.deep_view() =~= lookup_spec(self@.take(i + 1), tool, lint_id@));
            }
            i += 1;
        }
        proof {
            assert(self@.take(n as int) =~= self@);
        }
        out
    }

    /// The first guideline of the catalog with the given identifier, if any.
    pub fn find_by_id(&self, id: &GuidelineID) -> (r: Option<&Guideline>)
        ensures
            match r {
                Some(g) => find_guideline(self@, id@) == Some(g@),
                None => find_guideline(self@, id@) is None,
            },
    {
        let n = self.coding_guidelines.len();
        let mut i: usize = 0;
        proof {
            assert(self@.skip(0) =~= self@);
        }
        while i < n
            invariant
                0 <= i <= n,
                n == self.coding_guidelines.len(),
                find_guideline(self@, id@) == find_guideline(self@.skip(i as int), id@),
            decreases n - i,
        {
            let g = &self.coding_guidelines[i];
            proof {
                assert(self@.skip(i as int)[0] == self@[i as int]);
                assert(self@.skip(i as int).drop_first() =~= self@.skip(i + 1));
            }
            if g.id.ty == id.ty && eq_str(g.id.group.as_str(), id.group.as_str()) && eq_str(
                g.id.idx.as_str(),
                id.idx.as_str(),
            ) {
                assert(id_eq(self@[i as int].id, id@));
                return Some(g);
            }
            assert(!id_eq(self@[i as int].id, id@));
            i += 1;
        }
        assert(self@.skip(n as int) =~= Seq::<GuidelineV>::empty());
        None
    }
}

/// The first guideline of a catalog whose identifier equals `id`.
pub open spec fn find_guideline(gs: Seq<GuidelineV>, id: GuidelineIDV) -> Option<GuidelineV>
    decreases gs.len(),
{
    if gs.len() == 0 {
        None
    } else if id_eq(gs[0].id, id) {
        Some(gs[0])
    } else {
        find_guideline(gs.drop_first(), id)
    }
}

/// Whether two identifier values are structurally equal.
pub open spec fn id_eq(a: GuidelineIDV, b: GuidelineIDV) -> bool {
    a.ty == b.ty && a.group == b.group && a.idx == b.idx
}

/// The canonical text of a parsed identifier is lower-case normalized in its
/// type and group, and parses back to the very same value.
pub proof fn lemma_guideline_id_round_trip(s: Seq<char>)
    requires
        parse_id_spec(s) is Ok,
    ensures
        ({
            let v = parse_id_spec(s)->Ok_0;
            &&& v.ty == lower_char(v.ty)
            &&& v.group == lower_seq(v.group)
            &&& parse_id_spec(id_str_spec(v)) == Ok::<GuidelineIDV, ErrorV>(v)
        }),
{
    let v = parse_id_spec(s)->Ok_0;
    let j = find_at(s, seq!['.'], 0)->Some_0;
    lemma_find_at_some(s, seq!['.'], 0, j);
    let ty_part = s.subrange(0, j);
    let rest = s.subrange(j + 1, s.len() as int);
    let k = rfind_char(rest, '.', rest.len() - 1)->Some_0;
    lemma_rfind_char_some(rest, '.', rest.len() - 1, k);
    let group = rest.subrange(0, k);
    let idx = rest.subrange(k + 1, rest.len() as int);
    assert(v.ty == lower_char(ty_part[0]) && v.group == lower_seq(group) && v.idx == idx);

    // The type character is never a dot, and stays so under lower-casing.
    assert(j == 1);
    assert(s.subrange(0, 1) != seq!['.']);
    assert(s.subrange(0, 1)[0] == s[0]);
    assert(ty_part[0] == s[0]);
    assert(s[0] != '.') by {
        if s[0] == '.' {
            assert(s.subrange(0, 1) =~= seq!['.']);
        }
    }
    assert(v.ty != '.');
    lemma_lower_char_idem(ty_part[0]);
    lemma_lower_seq_idem(group);

    let t = id_str_spec(v);
    assert(t.len() == 3 + v.group.len() + v.idx.len());

    // The first dot of the canonical text stands right after the type char.
    assert(t[0] == v.ty && t[1] == '.');
    assert(t.subrange(1, 2) =~= seq!['.']);
    assert(t.subrange(0, 1)[0] == t[0]);
    assert(t.subrange(0, 1) != seq!['.']) by {
        if t.subrange(0, 1) == seq!['.'] {
            assert(t[0] == '.');
        }
    }
    lemma_find_at_intro(t, seq!['.'], 0, 1);
    assert(find_at(t, seq!['.'], 0) == Some(1int));
    let ty_part2 = t.subrange(0, 1);
    assert(ty_part2.len() == 1);
    assert(ty_part2[0] == v.ty);

    // The rest of the canonical text is the group, a dot, and the index, and
    // its last dot stands right after the group.
    let rest2 = t.subrange(2, t.len() as int);
    assert(rest2 =~= v.group + seq!['.'] + v.idx);
    assert(rest2[v.group.len() as int] == '.');
    assert(forall|q: int|
        v.group.len() < q < rest2.len() ==> rest2[q] == idx[q - v.group.len() - 1]);
    assert(forall|m: int| k < m <= rest.len() - 1 ==> rest[m] != '.');
    assert(forall|q: int| 0 <= q < idx.len() ==> idx[q] == rest[k + 1 + q]);
    assert(forall|q: int| v.group.len() < q < rest2.len() ==> rest2[q] != '.');
    lemma_rfind_char_intro(rest2, '.', rest2.len() - 1, v.group.len() as int);
    assert(rfind_char(rest2, '.', rest2.len() - 1) == Some(v.group.len() as int));
    let group2 = rest2.subrange(0, v.group.len() as int);
    let idx2 = rest2.subrange(v.group.len() as int + 1, rest2.len() as int);
    assert(group2 =~= v.group);
    assert(idx2 =~= v.idx);
    assert(group2.len() > 0 && idx2.len() > 0);

    // Parsing the canonical text reproduces the value.
    let v2 = parse_id_spec(t)->Ok_0;
    assert(v2.ty == lower_char(v.ty) && v2.ty == v.ty);
    assert(v2.group == lower_seq(v.group) && v2.group == v.group);
    assert(v2.idx == v.idx);
    assert(parse_id_spec(t) is Ok);
}

} // verus!
