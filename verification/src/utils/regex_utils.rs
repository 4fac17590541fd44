//! Regular-expression matching, behind a small set of trusted wrappers
//! around the `regex` crate. The match results of a fixed pattern on a fixed
//! haystack are deterministic, so they are named by uninterpreted spec
//! functions that the wrappers' contracts apply; everything that interprets
//! a match result is verified code.
use crate::text::opt_str;
use vstd::prelude::*;

verus! {

/// Whether `pattern` is a regular expression that `regex::Regex::new`
/// accepts.
pub uninterp spec fn re_pattern_ok(pattern: Seq<char>) -> bool;

/// The text of the named group `group` in the first match of `pattern` on
/// `s`, if the pattern matches and the group participates.
pub uninterp spec fn re_named(pattern: Seq<char>, group: Seq<char>, s: Seq<char>) -> Option<
    Seq<char>,
>;

/// The groups of the first match of `pattern` on `s`: one entry per capture
/// group, group 0 (the whole match) first, each holding the captured text of
/// the groups that participate in the match.
pub uninterp spec fn re_caps(pattern: Seq<char>, s: Seq<char>) -> Option<Seq<Option<Seq<char>>>>;

/// The texts captured by group 1 over every non-overlapping match of
/// `pattern` on `s`, in match order; a match in which group 1 does not
/// participate contributes an empty entry.
pub uninterp spec fn re_iter_g1(pattern: Seq<char>, s: Seq<char>) -> Seq<Seq<char>>;

/// The view of the optional group vector that [`re_first_captures`] returns.
pub open spec fn caps_view(r: Option<Vec<Option<String>>>) -> Option<Seq<Option<Seq<char>>>> {
    match r {
        Some(groups) => Some(Seq::new(groups.len() as nat, |i: int| opt_str(groups[i]))),
        None => None,
    }
}

/// Relies on `regex::Regex::new`: whether a pattern compiles depends on the
/// pattern text alone.
#[verifier::external_body]
pub fn re_is_valid(pattern: &str) -> (r: bool)
    ensures
        r == re_pattern_ok(pattern@),
{
    regex::Regex::new(pattern).is_ok()
}

/// Returns the text of the named group `name` within the first match of the
/// pattern on `s`.
///
/// Relies on `regex::Regex::captures_iter` and `regex::Captures::name`: the
/// first match of a pattern, and a named group of it, are functions of the
/// pattern, the group name and the haystack alone.
#[verifier::external_body]
pub fn get_named_match(name: &str, pattern: &str, s: &str) -> (r: Option<String>)
    ensures
        re_pattern_ok(pattern@) ==> opt_str(r) == re_named(pattern@, name@, s@),
        !re_pattern_ok(pattern@) ==> r is None,
{
    let re = match regex::Regex::new(pattern) {
        Ok(re) => re,
        Err(_) => return None,
    };
    let cap = re.captures_iter(s).next()?;
    cap.name(name).map(|m| m.as_str().to_string())
}

/// The capture groups of the first match of the pattern on `s`, group 0
/// first, or `None` when the pattern does not match or does not compile.
///
/// Relies on `regex::Regex::captures` and `regex::Captures::iter`: the
/// groups of the first match are a function of the pattern and the haystack
/// alone.
#[verifier::external_body]
pub fn re_first_captures(pattern: &str, s: &str) -> (r: Option<Vec<Option<String>>>)
    ensures
        re_pattern_ok(pattern@) ==> caps_view(r) == re_caps(pattern@, s@),
        !re_pattern_ok(pattern@) ==> r is None,
{
    let re = match regex::Regex::new(pattern) {
        Ok(re) => re,
        Err(_) => return None,
    };
    let caps = re.captures(s)?;
    Some(caps.iter().map(|m| m.map(|mm| mm.as_str().to_string())).collect())
}

/// The text of group 1 for every non-overlapping match of the pattern on
/// `s`, in match order.
///
/// Relies on `regex::Regex::captures_iter`: the sequence of matches and
/// their groups are a function of the pattern and the haystack alone.
#[verifier::external_body]
pub fn re_all_group1(pattern: &str, s: &str) -> (r: Option<Vec<String>>)
    ensures
        re_pattern_ok(pattern@) ==> (match r {
            Some(v) => v.deep_view() == re_iter_g1(pattern@, s@),
            None => false,
        }),
        !re_pattern_ok(pattern@) ==> r is None,
{
    let re = match regex::Regex::new(pattern) {
        Ok(re) => re,
        Err(_) => return None,
    };
    Some(
        re.captures_iter(s).map(
            |cap| cap.get(1).map_or(String::new(), |m| m.as_str().to_string()),
        ).collect(),
    )
}

/// The most specific capture of the first match of the pattern on `s`: the
/// text of the last group that participates in the match.
pub open spec fn last_filled(caps: Option<Seq<Option<Seq<char>>>>) -> Option<Seq<char>> {
    match caps {
        None => None,
        Some(gs) => last_some(gs),
    }
}

/// The last entry of `gs` that holds a value.
pub open spec fn last_some(gs: Seq<Option<Seq<char>>>) -> Option<Seq<char>>
    decreases gs.len(),
{
    if gs.len() == 0 {
        None
    } else if gs.last() is Some {
        gs.last()
    } else {
        last_some(gs.drop_last())
    }
}

/// Returns the most specific (last participating) capture of the first match
/// of the pattern on `s`.
pub fn capture_last(pattern: &str, s: &str) -> (r: Option<String>)
    ensures
        re_pattern_ok(pattern@) ==> opt_str(r) == last_filled(re_caps(pattern@, s@)),
        !re_pattern_ok(pattern@) ==> r is None,
{
    let groups = match re_first_captures(pattern, s) {
        None => {
            return None;
        },
        Some(groups) => groups,
    };
    let ghost gs = Seq::new(groups.len() as nat, |i: int| opt_str(groups@[i]));
    proof {
        assert(gs.take(groups.len() as int) =~= gs);
    }
    let mut k = groups.len();
    while k > 0
        invariant
            0 <= k <= groups.len(),
            gs == Seq::new(groups.len() as nat, |i: int| opt_str(groups@[i])),
            last_some(gs) == last_some(gs.take(k as int)),
        decreases k,
    {
        proof {
            assert(gs.take(k as int).drop_last() =~= gs.take(k - 1));
            assert(gs.take(k as int).last() == gs[k - 1]);
        }
        match &groups[k - 1] {
            Some(g) => {
                assert(opt_str(groups@[k - 1]) == Some(g@));
                return Some(g.clone());
            },
            None => {
                assert(gs[k - 1] is None);
            },
        }
        k -= 1;
    }
    assert(gs.take(0) =~= Seq::empty());
    None
}

} // verus!
