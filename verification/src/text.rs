//! Verified text utilities: searching, splitting, trimming and joining of
//! character sequences, and decimal parsing. Every executable function here is
//! proved against a specification over `Seq<char>`.
use vstd::prelude::*;

verus! {

/// Whether `c` has the Unicode `White_Space` property, the set of characters
/// that `str::trim` removes.
pub open spec fn is_space(c: char) -> bool {
    ||| (0x9 <= c as u32 && c as u32 <= 0xd)
    ||| c == ' '
    ||| c as u32 == 0x85
    ||| c as u32 == 0xa0
    ||| c as u32 == 0x1680
    ||| (0x2000 <= c as u32 && c as u32 <= 0x200a)
    ||| c as u32 == 0x2028
    ||| c as u32 == 0x2029
    ||| c as u32 == 0x202f
    ||| c as u32 == 0x205f
    ||| c as u32 == 0x3000
}

/// Executable test for [`is_space`].
pub fn char_is_space(c: char) -> (r: bool)
    ensures
        r == is_space(c),
{
    let u = c as u32;
    (0x9 <= u && u <= 0xd) || c == ' ' || u == 0x85 || u == 0xa0 || u == 0x1680 || (0x2000 <= u
        && u <= 0x200a) || u == 0x2028 || u == 0x2029 || u == 0x202f || u == 0x205f || u == 0x3000
}

/// A sequence is blank when every character in it is white space.
pub open spec fn is_blank(s: Seq<char>) -> bool {
    forall|k: int| 0 <= k < s.len() ==> is_space(s[k])
}

/// The position of the first occurrence of `d` in `s` at or after `i`.
pub open spec fn find_at(s: Seq<char>, d: Seq<char>, i: int) -> Option<int>
    decreases s.len() - i,
{
    if d.len() == 0 {
        if 0 <= i <= s.len() {
            Some(i)
        } else {
            None
        }
    } else if i < 0 || i + d.len() > s.len() {
        None
    } else if s.subrange(i, i + d.len() as int) == d {
        Some(i)
    } else {
        find_at(s, d, i + 1)
    }
}

/// What a found position means: it carries the match, and nothing between the
/// starting point and the match does.
pub proof fn lemma_find_at_some(s: Seq<char>, d: Seq<char>, i: int, j: int)
    requires
        find_at(s, d, i) == Some(j),
    ensures
        i <= j,
        j + d.len() <= s.len(),
        s.subrange(j, j + d.len() as int) == d,
        forall|k: int| i <= k < j ==> #[trigger] s.subrange(k, k + d.len() as int) != d,
    decreases s.len() - i,
{
    if d.len() == 0 {
        assert(s.subrange(j, j) =~= d);
    } else if !(i < 0 || i + d.len() > s.len()) && s.subrange(i, i + d.len() as int) != d {
        lemma_find_at_some(s, d, i + 1, j);
    }
}

/// A position that carries the match, with none before it from the starting
/// point on, is the position found.
pub proof fn lemma_find_at_intro(s: Seq<char>, d: Seq<char>, i: int, j: int)
    requires
        d.len() > 0,
        0 <= i <= j,
        j + d.len() <= s.len(),
        s.subrange(j, j + d.len() as int) == d,
        forall|k: int| i <= k < j ==> #[trigger] s.subrange(k, k + d.len() as int) != d,
    ensures
        find_at(s, d, i) == Some(j),
    decreases j - i,
{
    if i < j {
        lemma_find_at_intro(s, d, i + 1, j);
    }
}

/// A position that holds the character, with none after it up to `i`, is the
/// position a backwards search finds.
pub proof fn lemma_rfind_char_intro(s: Seq<char>, c: char, i: int, j: int)
    requires
        0 <= j <= i < s.len(),
        s[j] == c,
        forall|k: int| j < k <= i ==> s[k] != c,
    ensures
        rfind_char(s, c, i) == Some(j),
    decreases i,
{
    if j < i {
        lemma_rfind_char_intro(s, c, i - 1, j);
    }
}

/// Whether `d` occurs anywhere in `s`.
pub open spec fn contains_sub(s: Seq<char>, d: Seq<char>) -> bool {
    find_at(s, d, 0) is Some
}

/// The view of an optional index.
pub open spec fn opt_idx(o: Option<usize>) -> Option<int> {
    match o {
        Some(i) => Some(i as int),
        None => None,
    }
}

/// The view of an optional owned string.
pub open spec fn opt_str(o: Option<String>) -> Option<Seq<char>> {
    match o {
        Some(s) => Some(s@),
        None => None,
    }
}

/// Whether `d` occurs in `s` starting exactly at `i`.
fn match_at(s: &str, d: &str, i: usize) -> (r: bool)
    requires
        i + d@.len() <= s@.len(),
    ensures
        r == (s@.subrange(i as int, i as int + d@.len() as int) == d@),
{
    let n = s.unicode_len();
    let m = d.unicode_len();
    let mut j: usize = 0;
    while j < m
        invariant
            j <= m,
            forall|k: int| 0 <= k < j ==> s@[i + k] == d@[k],
        decreases m - j,
    {
        if s.get_char(i + j) != d.get_char(j) {
            assert(s@.subrange(i as int, i as int + d@.len() as int)[j as int] != d@[j as int]);
            return false;
        }
        j += 1;
    }
    assert(s@.subrange(i as int, i as int + d@.len() as int) =~= d@);
    true
}

/// Finds the first occurrence of `d` in `s` at or after `from`.
pub fn find_at_exec(s: &str, d: &str, from: usize) -> (r: Option<usize>)
    requires
        from <= s@.len(),
    ensures
        opt_idx(r) == find_at(s@, d@, from as int),
{
    let n = s.unicode_len();
    let m = d.unicode_len();
    if m > n {
        return None;
    }
    let mut i: usize = from;
    while i <= n - m
        invariant
            from <= i <= n,
            m <= n,
            find_at(s@, d@, from as int) == find_at(s@, d@, i as int),
        decreases n - i,
    {
        if match_at(s, d, i) {
            return Some(i);
        }
        assert(d@.len() > 0) by {
            if d@.len() == 0 {
                assert(s@.subrange(i as int, i as int) =~= d@);
            }
        }
        i += 1;
    }
    None
}

/// Executable test for [`contains_sub`].
pub fn contains_str(s: &str, d: &str) -> (r: bool)
    ensures
        r == contains_sub(s@, d@),
{
    find_at_exec(s, d, 0).is_some()
}

/// The first position at or after `i` that holds a character which is not
/// white space, or the length of `s` when there is none.
pub open spec fn skip_spaces(s: Seq<char>, i: int) -> int
    decreases s.len() - i,
{
    if 0 <= i < s.len() {
        if is_space(s[i]) {
            skip_spaces(s, i + 1)
        } else {
            i
        }
    } else {
        s.len() as int
    }
}

/// The position one past the last character before `j` that is not white
/// space, or zero when there is none.
pub open spec fn rskip_spaces(s: Seq<char>, j: int) -> int
    decreases j,
{
    if 0 < j <= s.len() {
        if is_space(s[j - 1]) {
            rskip_spaces(s, j - 1)
        } else {
            j
        }
    } else {
        0
    }
}

proof fn lemma_skip_spaces_bounds(s: Seq<char>, i: int)
    requires
        0 <= i <= s.len(),
    ensures
        i <= skip_spaces(s, i) <= s.len(),
    decreases s.len() - i,
{
    if i < s.len() && is_space(s[i]) {
        lemma_skip_spaces_bounds(s, i + 1);
    }
}

proof fn lemma_rskip_spaces_bounds(s: Seq<char>, j: int)
    requires
        0 <= j <= s.len(),
    ensures
        0 <= rskip_spaces(s, j) <= j,
    decreases j,
{
    if 0 < j && is_space(s[j - 1]) {
        lemma_rskip_spaces_bounds(s, j - 1);
    }
}

/// `s` with white space removed from both ends, as `str::trim` does.
pub open spec fn trim_spec(s: Seq<char>) -> Seq<char> {
    let lo = skip_spaces(s, 0);
    let hi = rskip_spaces(s, s.len() as int);
    if lo <= hi {
        s.subrange(lo, hi)
    } else {
        Seq::empty()
    }
}

/// A blank sequence trims to nothing, and a trimmed blank sequence was blank.
pub proof fn lemma_trim_blank(s: Seq<char>)
    ensures
        is_blank(s) <==> trim_spec(s).len() == 0,
{
    if is_blank(s) {
        lemma_skip_spaces_all(s, 0);
        lemma_rskip_spaces_bounds(s, s.len() as int);
        assert(trim_spec(s).len() == 0);
    } else {
        assert(exists|k: int| 0 <= k < s.len() && !is_space(s[k]));
        let k = choose|k: int| 0 <= k < s.len() && !is_space(s[k]);
        lemma_skip_spaces_least(s, 0, k);
        lemma_rskip_spaces_greatest(s, s.len() as int, k);
        lemma_rskip_spaces_bounds(s, s.len() as int);
        lemma_skip_spaces_bounds(s, 0);
        assert(trim_spec(s).len() > 0);
    }
}

proof fn lemma_skip_spaces_all(s: Seq<char>, i: int)
    requires
        0 <= i <= s.len(),
        forall|k: int| i <= k < s.len() ==> is_space(s[k]),
    ensures
        skip_spaces(s, i) == s.len(),
    decreases s.len() - i,
{
    if i < s.len() {
        lemma_skip_spaces_all(s, i + 1);
    }
}

proof fn lemma_skip_spaces_least(s: Seq<char>, i: int, k: int)
    requires
        0 <= i <= k < s.len(),
        !is_space(s[k]),
    ensures
        skip_spaces(s, i) <= k,
    decreases s.len() - i,
{
    if i < k && is_space(s[i]) {
        lemma_skip_spaces_least(s, i + 1, k);
    }
}

proof fn lemma_rskip_spaces_greatest(s: Seq<char>, j: int, k: int)
    requires
        0 <= k < j <= s.len(),
        !is_space(s[k]),
    ensures
        rskip_spaces(s, j) > k,
    decreases j,
{
    if k < j - 1 && is_space(s[j - 1]) {
        lemma_rskip_spaces_greatest(s, j - 1, k);
    }
}

/// Removes leading and trailing white space, as `str::trim` does.
pub fn trim_str<'a>(s: &'a str) -> (r: &'a str)
    ensures
        r@ == trim_spec(s@),
{
    let n = s.unicode_len();
    let mut lo: usize = 0;
    while lo < n && char_is_space(s.get_char(lo))
        invariant
            0 <= lo <= n,
            skip_spaces(s@, 0) == skip_spaces(s@, lo as int),
        decreases n - lo,
    {
        lo += 1;
    }
    let mut hi: usize = n;
    while hi > 0 && char_is_space(s.get_char(hi - 1))
        invariant
            0 <= hi <= n,
            rskip_spaces(s@, n as int) == rskip_spaces(s@, hi as int),
        decreases hi,
    {
        hi -= 1;
    }
    if lo <= hi {
        s.substring_char(lo, hi)
    } else {
        let e = "";
        proof {
            reveal_strlit("");
            assert(e@ =~= trim_spec(s@));
        }
        e
    }
}

/// `s` with leading white space removed, as `str::trim_start` does.
pub open spec fn trim_start_spec(s: Seq<char>) -> Seq<char> {
    s.subrange(skip_spaces(s, 0), s.len() as int)
}

/// Removes leading white space, as `str::trim_start` does.
pub fn trim_start_str<'a>(s: &'a str) -> (r: &'a str)
    ensures
        r@ == trim_start_spec(s@),
{
    let n = s.unicode_len();
    let mut lo: usize = 0;
    while lo < n && char_is_space(s.get_char(lo))
        invariant
            0 <= lo <= n,
            skip_spaces(s@, 0) == skip_spaces(s@, lo as int),
        decreases n - lo,
    {
        lo += 1;
    }
    s.substring_char(lo, n)
}

/// Whether `s` holds only white space.
pub fn is_blank_str(s: &str) -> (r: bool)
    ensures
        r == is_blank(s@),
{
    proof {
        lemma_trim_blank(s@);
    }
    trim_str(s).unicode_len() == 0
}

/// Whether `s` begins with `p`.
pub open spec fn has_prefix(s: Seq<char>, p: Seq<char>) -> bool {
    p.len() <= s.len() && s.subrange(0, p.len() as int) == p
}

/// Executable test for [`has_prefix`].
pub fn starts_with(s: &str, p: &str) -> (r: bool)
    ensures
        r == has_prefix(s@, p@),
{
    let n = s.unicode_len();
    let m = p.unicode_len();
    if m > n {
        return false;
    }
    match_at(s, p, 0)
}

/// The start of the suffix that remains after every copy of the prefix `p` is
/// removed from the front of `s`, as `str::trim_start_matches` does.
pub open spec fn strip_rep_idx(s: Seq<char>, p: Seq<char>, i: int) -> int
    decreases s.len() - i,
{
    if p.len() > 0 && 0 <= i && i + p.len() <= s.len() && s.subrange(i, i + p.len() as int) == p {
        strip_rep_idx(s, p, i + p.len() as int)
    } else {
        i
    }
}

proof fn lemma_strip_rep_idx_bounds(s: Seq<char>, p: Seq<char>, i: int)
    requires
        0 <= i <= s.len(),
    ensures
        i <= strip_rep_idx(s, p, i) <= s.len(),
    decreases s.len() - i,
{
    if p.len() > 0 && i + p.len() <= s.len() && s.subrange(i, i + p.len() as int) == p {
        lemma_strip_rep_idx_bounds(s, p, i + p.len() as int);
    }
}

/// `s` with every leading copy of `p` removed.
pub open spec fn strip_rep(s: Seq<char>, p: Seq<char>) -> Seq<char> {
    s.subrange(strip_rep_idx(s, p, 0), s.len() as int)
}

/// Removes every leading copy of `p` from `s`, as `str::trim_start_matches`
/// does with a string pattern.
pub fn strip_prefix_rep<'a>(s: &'a str, p: &'a str) -> (r: &'a str)
    ensures
        r@ == strip_rep(s@, p@),
{
    let n = s.unicode_len();
    let m = p.unicode_len();
    let mut i: usize = 0;
    proof {
        lemma_strip_rep_idx_bounds(s@, p@, 0);
    }
    while m > 0 && i <= n && m <= n - i && match_at(s, p, i)
        invariant
            0 <= i <= n,
            strip_rep_idx(s@, p@, 0) == strip_rep_idx(s@, p@, i as int),
        decreases n - i,
    {
        i += m;
        proof {
            lemma_strip_rep_idx_bounds(s@, p@, i as int);
        }
    }
    s.substring_char(i, n)
}

/// The position of the last occurrence of the character `c` in `s` at or
/// before `i`.
pub open spec fn rfind_char(s: Seq<char>, c: char, i: int) -> Option<int>
    decreases i + 1,
{
    if i < 0 || i >= s.len() {
        None
    } else if s[i] == c {
        Some(i)
    } else {
        rfind_char(s, c, i - 1)
    }
}

/// What a found position means for a backwards character search.
pub proof fn lemma_rfind_char_some(s: Seq<char>, c: char, i: int, j: int)
    requires
        i < s.len(),
        rfind_char(s, c, i) == Some(j),
    ensures
        0 <= j <= i,
        s[j] == c,
        forall|k: int| j < k <= i ==> s[k] != c,
    decreases i + 1,
{
    if !(i < 0 || i >= s.len()) && s[i] != c {
        lemma_rfind_char_some(s, c, i - 1, j);
    }
}

/// Finds the last occurrence of `c` in `s`, as `str::rfind` does with a
/// character pattern.
pub fn rfind_char_exec(s: &str, c: char) -> (r: Option<usize>)
    ensures
        opt_idx(r) == rfind_char(s@, c, s@.len() - 1),
{
    let n = s.unicode_len();
    let mut i: usize = n;
    while i > 0
        invariant
            0 <= i <= n,
            rfind_char(s@, c, n as int - 1) == rfind_char(s@, c, i as int - 1),
        decreases i,
    {
        if s.get_char(i - 1) == c {
            return Some(i - 1);
        }
        i -= 1;
    }
    None
}

/// The lower-case form of an ASCII letter; any other character is unchanged,
/// as `char::to_ascii_lowercase` behaves.
pub open spec fn lower_char(c: char) -> char {
    if 'A' <= c <= 'Z' {
        ((c as u8) + 0x20) as char
    } else {
        c
    }
}

/// Executable ASCII lower-casing of one character.
pub fn to_lower_char(c: char) -> (r: char)
    ensures
        r == lower_char(c),
{
    if 'A' <= c && c <= 'Z' {
        ((c as u8) + 0x20) as char
    } else {
        c
    }
}

/// The ASCII lower-case form of a character sequence.
pub open spec fn lower_seq(s: Seq<char>) -> Seq<char> {
    Seq::new(s.len(), |i: int| lower_char(s[i]))
}

/// Lower-casing a character twice is the same as doing it once.
pub proof fn lemma_lower_char_idem(c: char)
    ensures
        lower_char(lower_char(c)) == lower_char(c),
{
}

/// Lower-casing a sequence twice is the same as doing it once.
pub proof fn lemma_lower_seq_idem(s: Seq<char>)
    ensures
        lower_seq(lower_seq(s)) == lower_seq(s),
{
    assert forall|i: int| 0 <= i < s.len() implies lower_seq(lower_seq(s))[i] == lower_seq(s)[i] by {
        lemma_lower_char_idem(s[i]);
    }
    assert(lower_seq(lower_seq(s)) =~= lower_seq(s));
}

/// Whether two string slices hold the same characters.
pub fn eq_str(a: &str, b: &str) -> (r: bool)
    ensures
        r == (a@ == b@),
{
    let n = a.unicode_len();
    if n != b.unicode_len() {
        return false;
    }
    let mut i: usize = 0;
    while i < n
        invariant
            0 <= i <= n,
            n == a@.len() == b@.len(),
            forall|k: int| 0 <= k < i ==> a@[k] == b@[k],
        decreases n - i,
    {
        if a.get_char(i) != b.get_char(i) {
            return false;
        }
        i += 1;
    }
    assert(a@ =~= b@);
    true
}

/// The chunks of `s` from position `i` on, delimited by non-overlapping
/// occurrences of `d`, as `str::split` yields them.
pub open spec fn split_from(s: Seq<char>, d: Seq<char>, i: int) -> Seq<Seq<char>>
    decreases s.len() - i,
    via split_from_decreases
{
    if d.len() == 0 || i < 0 || i > s.len() {
        Seq::empty()
    } else {
        match find_at(s, d, i) {
            Some(j) => seq![s.subrange(i, j)] + split_from(s, d, j + d.len() as int),
            None => seq![s.subrange(i, s.len() as int)],
        }
    }
}

#[via_fn]
proof fn split_from_decreases(s: Seq<char>, d: Seq<char>, i: int) {
    if !(d.len() == 0 || i < 0 || i > s.len()) {
        if let Some(j) = find_at(s, d, i) {
            lemma_find_at_some(s, d, i, j);
        }
    }
}

/// The chunks of `s` delimited by occurrences of `d`.
pub open spec fn split_spec(s: Seq<char>, d: Seq<char>) -> Seq<Seq<char>> {
    split_from(s, d, 0)
}

/// Splitting yields at least one chunk, and the first chunk starts the text.
pub proof fn lemma_split_len(s: Seq<char>, d: Seq<char>, i: int)
    requires
        d.len() > 0,
        0 <= i <= s.len(),
    ensures
        split_from(s, d, i).len() >= 1,
    decreases s.len() - i,
{
    if let Some(j) = find_at(s, d, i) {
        lemma_find_at_some(s, d, i, j);
    }
}

/// Splits `s` on every occurrence of the non-empty delimiter `d`.
pub fn split_str(s: &str, d: &str) -> (r: Vec<String>)
    requires
        d@.len() > 0,
    ensures
        r.deep_view() == split_spec(s@, d@),
{
    let n = s.unicode_len();
    let mut out: Vec<String> = Vec::new();
    let mut i: usize = 0;
    loop
        invariant
            0 <= i <= n,
            n == s@.len(),
            d@.len() > 0,
            split_spec(s@, d@) =~= out.deep_view() + split_from(s@, d@, i as int),
        decreases n - i,
    {
        match find_at_exec(s, d, i) {
            Some(j) => {
                proof {
                    lemma_find_at_some(s@, d@, i as int, j as int);
                }
                let ghost prev_views = out.deep_view();
                let ghost prev = i as int;
                out.push(s.substring_char(i, j).to_owned());
                i = j + d.unicode_len();
                assert(out.deep_view() + split_from(s@, d@, i as int) =~= prev_views + split_from(
                    s@,
                    d@,
                    prev,
                )) by {
                    assert(out.deep_view() =~= prev_views.push(s@.subrange(prev, j as int)));
                }
            },
            None => {
                out.push(s.substring_char(i, n).to_owned());
                assert(out.deep_view() =~= split_spec(s@, d@));
                return out;
            },
        }
    }
}

/// The parts joined with `sep` between them, as `[..].join` does.
pub open spec fn join_with(parts: Seq<Seq<char>>, sep: Seq<char>) -> Seq<char>
    decreases parts.len(),
{
    if parts.len() == 0 {
        Seq::empty()
    } else if parts.len() == 1 {
        parts[0]
    } else {
        parts[0] + sep + join_with(parts.drop_first(), sep)
    }
}

/// Appending one part extends a join by a separator and the part.
pub proof fn lemma_join_push(parts: Seq<Seq<char>>, sep: Seq<char>, x: Seq<char>)
    ensures
        parts.len() == 0 ==> join_with(parts.push(x), sep) == x,
        parts.len() > 0 ==> join_with(parts.push(x), sep) == join_with(parts, sep) + sep + x,
    decreases parts.len(),
{
    if parts.len() == 0 {
        assert(parts.push(x)[0] == x);
    } else if parts.len() == 1 {
        assert(parts.push(x).drop_first() =~= seq![x]);
        assert(parts.push(x)[0] == parts[0]);
        assert(join_with(seq![x], sep) == x);
    } else {
        lemma_join_push(parts.drop_first(), sep, x);
        assert(parts.push(x).drop_first() =~= parts.drop_first().push(x));
        assert(parts.push(x)[0] == parts[0]);
        assert(join_with(parts.push(x), sep) == parts[0] + sep + (join_with(
            parts.drop_first(),
            sep,
        ) + sep + x));
        assert(parts[0] + sep + (join_with(parts.drop_first(), sep) + sep + x) =~= (parts[0] + sep
            + join_with(parts.drop_first(), sep)) + sep + x);
    }
}

/// Joins the parts, starting at index `from`, with `sep` between them.
pub fn join_strs(parts: &Vec<String>, from: usize, sep: &str) -> (r: String)
    requires
        from <= parts@.len(),
    ensures
        r@ == join_with(parts.deep_view().skip(from as int), sep@),
{
    let ghost tail = parts.deep_view().skip(from as int);
    let n = parts.len();
    let mut out = String::new();
    let mut i: usize = from;
    while i < n
        invariant
            from <= i <= n,
            n == parts@.len(),
            tail == parts.deep_view().skip(from as int),
            out@ == join_with(tail.take(i - from), sep@),
        decreases n - i,
    {
        if i > from {
            out.append(sep);
        }
        out.append(parts[i].as_str());
        proof {
            lemma_join_push(tail.take(i - from), sep@, tail[i - from]);
            assert(tail.take(i + 1 - from) =~= tail.take(i - from).push(tail[i - from]));
            assert(tail[i - from] == parts.deep_view()[i as int]);
        }
        i += 1;
    }
    proof {
        assert(tail.take(n - from) =~= tail);
    }
    out
}

/// Whether `c` is an ASCII decimal digit.
pub open spec fn is_digit(c: char) -> bool {
    '0' <= c <= '9'
}

/// The numeric value of an ASCII decimal digit.
pub open spec fn digit_val(c: char) -> int {
    c as u32 - '0' as u32
}

/// Whether every character of `s` is an ASCII decimal digit.
pub open spec fn all_digits(s: Seq<char>) -> bool {
    forall|k: int| 0 <= k < s.len() ==> is_digit(s[k])
}

/// The value of a sequence of decimal digits, most significant first.
pub open spec fn dec_val(s: Seq<char>) -> int
    decreases s.len(),
{
    if s.len() == 0 {
        0
    } else {
        dec_val(s.drop_last()) * 10 + digit_val(s.last())
    }
}

proof fn lemma_dec_val_nonneg(s: Seq<char>)
    requires
        all_digits(s),
    ensures
        dec_val(s) >= 0,
    decreases s.len(),
{
    if s.len() > 0 {
        assert(all_digits(s.drop_last()));
        lemma_dec_val_nonneg(s.drop_last());
    }
}

proof fn lemma_dec_val_prefix(s: Seq<char>, i: int)
    requires
        all_digits(s),
        0 <= i <= s.len(),
    ensures
        dec_val(s) >= dec_val(s.take(i)),
    decreases s.len() - i,
{
    if i < s.len() {
        lemma_dec_val_prefix(s, i + 1);
        assert(s.take(i + 1).drop_last() =~= s.take(i));
        assert(all_digits(s.take(i)));
        lemma_dec_val_nonneg(s.take(i));
        assert(dec_val(s.take(i + 1)) == dec_val(s.take(i)) * 10 + digit_val(s.take(i + 1).last()));
        assert(dec_val(s.take(i)) * 10 >= dec_val(s.take(i))) by (nonlinear_arith)
            requires
                dec_val(s.take(i)) >= 0,
        ;
    } else {
        assert(s.take(i) =~= s);
    }
}

/// The value that `str::parse::<usize>` reads from `s`: an optional plus
/// sign, then at least one decimal digit, with a value that fits in `usize`.
pub open spec fn parse_usize_spec(s: Seq<char>) -> Option<usize> {
    let t = if s.len() > 0 && s[0] == '+' {
        s.drop_first()
    } else {
        s
    };
    if t.len() > 0 && all_digits(t) && dec_val(t) <= usize::MAX {
        Some(dec_val(t) as usize)
    } else {
        None
    }
}

/// Reads an unsigned decimal number, as `str::parse::<usize>` does.
pub fn parse_usize(s: &str) -> (r: Option<usize>)
    ensures
        r == parse_usize_spec(s@),
{
    let n = s.unicode_len();
    let start: usize = if n > 0 && s.get_char(0) == '+' {
        1
    } else {
        0
    };
    let ghost t = if s@.len() > 0 && s@[0] == '+' {
        s@.drop_first()
    } else {
        s@
    };
    assert(t =~= s@.subrange(start as int, n as int));
    if n == start {
        return None;
    }
    let mut acc: usize = 0;
    let mut i: usize = start;
    while i < n
        invariant
            start <= i <= n,
            n == s@.len(),
            t == s@.subrange(start as int, n as int),
            all_digits(t.take(i - start)),
            acc == dec_val(t.take(i - start)),
        decreases n - i,
    {
        let c = s.get_char(i);
        if !('0' <= c && c <= '9') {
            assert(!is_digit(t[i - start]));
            return None;
        }
        let d: usize = (c as u32 as usize) - 0x30;
        proof {
            assert(t.take(i + 1 - start).drop_last() =~= t.take(i - start));
            assert(t.take(i + 1 - start).last() == c);
            lemma_dec_val_nonneg(t.take(i - start));
        }
        if acc > (usize::MAX - d) / 10 {
            proof {
                assert(dec_val(t.take(i + 1 - start)) > usize::MAX) by (nonlinear_arith)
                    requires
                        dec_val(t.take(i + 1 - start)) == acc * 10 + d,
                        acc > (usize::MAX - d) / 10,
                        acc >= 0,
                        0 <= d <= 9,
                ;
                if all_digits(t) {
                    lemma_dec_val_prefix(t, i + 1 - start);
                }
            }
            return None;
        }
        assert(acc * 10 + d <= usize::MAX) by (nonlinear_arith)
            requires
                acc <= (usize::MAX - d) / 10,
                acc >= 0,
                0 <= d <= 9,
        ;
        acc = acc * 10 + d;
        i += 1;
    }
    proof {
        assert(t.take(n - start) =~= t);
    }
    Some(acc)
}

/// Relies on `String::push`: appends exactly one character to the string.
#[verifier::external_body]
pub fn push_char(s: &mut String, c: char)
    ensures
        final(s)@ == old(s)@ + seq![c],
{
    s.push(c);
}

/// Builds the ASCII lower-case form of a string slice.
pub fn lower_str(s: &str) -> (r: String)
    ensures
        r@ == lower_seq(s@),
{
    let n = s.unicode_len();
    let mut out = String::new();
    let mut i: usize = 0;
    while i < n
        invariant
            0 <= i <= n,
            n == s@.len(),
            out@ == lower_seq(s@).take(i as int),
        decreases n - i,
    {
        push_char(&mut out, to_lower_char(s.get_char(i)));
        i += 1;
        assert(out@ =~= lower_seq(s@).take(i as int));
    }
    assert(lower_seq(s@).take(n as int) =~= lower_seq(s@));
    out
}

} // verus!
