//! The diagnostic block segmenter: splits one raw output buffer into
//! independent diagnostic blocks, discarding tool banners and run summaries.
//! The per-tool variability is carried entirely by [`SegmentRules`], which a
//! tool adapter supplies.
use crate::text::{
    contains_str, contains_sub, has_prefix, is_blank, is_blank_str, join_strs, join_with,
    split_spec, split_str, starts_with, trim_spec, trim_start_spec, trim_start_str, trim_str,
};
use vstd::prelude::*;

verus! {

/// How the banner at the head of the first chunk is recognized.
#[derive(Debug, Clone, Copy, PartialEq, Eq, Structural)]
pub enum BannerStyle {
    /// The first line of the first chunk is a startup banner: drop exactly
    /// that line.
    FirstLine,
    /// Drop every line of the first chunk before the first line that begins,
    /// after leading white space, with a recognized severity token.
    SeverityScan,
}

/// The per-tool parameters of segmentation.
#[derive(Debug)]
pub struct SegmentRules {
    /// How the first chunk's banner is removed.
    pub banner: BannerStyle,
    /// The severity tokens that [`BannerStyle::SeverityScan`] recognizes.
    pub severity_tokens: Vec<String>,
    /// Whether the last chunk is a run summary to drop when more than one
    /// chunk remains.
    pub drop_last: bool,
    /// Whether only blocks holding a gutter pipe are diagnostics at all.
    pub require_gutter: bool,
}

/// The mathematical value of [`SegmentRules`].
pub struct SegmentRulesV {
    pub banner: BannerStyle,
    pub severity_tokens: Seq<Seq<char>>,
    pub drop_last: bool,
    pub require_gutter: bool,
}

impl View for SegmentRules {
    type V = SegmentRulesV;

    open spec fn view(&self) -> SegmentRulesV {
        SegmentRulesV {
            banner: self.banner,
            severity_tokens: self.severity_tokens.deep_view(),
            drop_last: self.drop_last,
            require_gutter: self.require_gutter,
        }
    }
}

/// Whether a line begins, after leading white space, with one of the
/// severity tokens.
pub open spec fn severity_line(line: Seq<char>, tokens: Seq<Seq<char>>) -> bool {
    exists|k: int| 0 <= k < tokens.len() && has_prefix(trim_start_spec(line), tokens[k])
}

/// The index of the first severity line at or after `i`.
pub open spec fn first_severity_line(ls: Seq<Seq<char>>, tokens: Seq<Seq<char>>, i: int) -> Option<
    int,
>
    decreases ls.len() - i,
{
    if i < 0 || i >= ls.len() {
        None
    } else if severity_line(ls[i], tokens) {
        Some(i)
    } else {
        first_severity_line(ls, tokens, i + 1)
    }
}

/// The first chunk with its banner removed: all but its first line, or its
/// lines from the first severity line on (and nothing when none is found).
pub open spec fn banner_clean(chunk: Seq<char>, rules: SegmentRulesV) -> Seq<char> {
    let ls = split_spec(chunk, seq!['\n']);
    match rules.banner {
        BannerStyle::FirstLine => if ls.len() <= 1 {
            Seq::empty()
        } else {
            join_with(ls.skip(1), seq!['\n'])
        },
        BannerStyle::SeverityScan => match first_severity_line(ls, rules.severity_tokens, 0) {
            Some(k) => join_with(ls.skip(k), seq!['\n']),
            None => Seq::empty(),
        },
    }
}

/// Whether a candidate block is kept: blank blocks are discarded, and where
/// the rules ask for a gutter, blocks without a pipe are discarded too.
pub open spec fn keep_block(b: Seq<char>, require_gutter: bool) -> bool {
    !is_blank(b) && (!require_gutter || contains_sub(b, seq!['|']))
}

/// The candidate blocks that are kept, in order.
pub open spec fn keep_blocks(bs: Seq<Seq<char>>, require_gutter: bool) -> Seq<Seq<char>>
    decreases bs.len(),
{
    if bs.len() == 0 {
        Seq::empty()
    } else {
        keep_blocks(bs.drop_last(), require_gutter) + if keep_block(bs.last(), require_gutter) {
            seq![bs.last()]
        } else {
            Seq::empty()
        }
    }
}

/// The blocks of one raw output buffer: the trimmed text is split on blank
/// lines; the first chunk loses its banner; when the rules say so and more
/// than one chunk remains, the last chunk is dropped as a run summary; blank
/// blocks, and blocks without a gutter where one is required, are discarded.
pub open spec fn segment_spec(raw: Seq<char>, rules: SegmentRulesV) -> Seq<Seq<char>> {
    let t = trim_spec(raw);
    let chunks = split_spec(t, seq!['\n', '\n']);
    if chunks.len() == 0 {
        Seq::empty()
    } else {
        let tail = if rules.drop_last {
            if chunks.len() >= 2 {
                chunks.subrange(1, chunks.len() - 1)
            } else {
                Seq::empty()
            }
        } else {
            chunks.drop_first()
        };
        keep_blocks(seq![banner_clean(chunks[0], rules)] + tail, rules.require_gutter)
    }
}

proof fn lemma_keep_blocks_all(bs: Seq<Seq<char>>, require_gutter: bool)
    requires
        forall|q: int| 0 <= q < bs.len() ==> keep_block(#[trigger] bs[q], require_gutter),
    ensures
        keep_blocks(bs, require_gutter) == bs,
    decreases bs.len(),
{
    if bs.len() > 0 {
        lemma_keep_blocks_all(bs.drop_last(), require_gutter);
        assert(keep_blocks(bs, require_gutter) =~= bs);
    }
}

/// Counting blocks: when the trimmed buffer holds `n >= 2`
/// blank-line-delimited sections, none of them blank, and the first section
/// still shows text once its banner is removed, segmentation yields exactly
/// `n - 1` blocks (the banner line is dropped from the first section and the
/// last section is dropped as a summary); with exactly one such section it
/// yields exactly one block.
pub proof fn lemma_segment_block_count(raw: Seq<char>, rules: SegmentRulesV)
    requires
        rules.drop_last,
        !rules.require_gutter,
        ({
            let chunks = split_spec(trim_spec(raw), seq!['\n', '\n']);
            &&& forall|q: int| 1 <= q < chunks.len() ==> !is_blank(#[trigger] chunks[q])
            &&& !is_blank(banner_clean(chunks[0], rules))
        }),
    ensures
        ({
            let chunks = split_spec(trim_spec(raw), seq!['\n', '\n']);
            &&& chunks.len() >= 2 ==> segment_spec(raw, rules).len() == chunks.len() - 1
            &&& chunks.len() == 1 ==> segment_spec(raw, rules).len() == 1
        }),
{
    let chunks = split_spec(trim_spec(raw), seq!['\n', '\n']);
    crate::text::lemma_split_len(trim_spec(raw), seq!['\n', '\n'], 0);
    let tail = if chunks.len() >= 2 {
        chunks.subrange(1, chunks.len() - 1)
    } else {
        Seq::<Seq<char>>::empty()
    };
    let kept = seq![banner_clean(chunks[0], rules)] + tail;
    assert(forall|q: int| 0 <= q < kept.len() ==> keep_block(#[trigger] kept[q], false));
    lemma_keep_blocks_all(kept, false);
}

/// A blank or empty buffer segments to no blocks at all, and never to an
/// error.
pub proof fn lemma_segment_blank(raw: Seq<char>, rules: SegmentRulesV)
    requires
        is_blank(raw),
    ensures
        segment_spec(raw, rules).len() == 0,
{
    crate::text::lemma_trim_blank(raw);
    let t = trim_spec(raw);
    assert(t =~= Seq::<char>::empty());
    let chunks = split_spec(t, seq!['\n', '\n']);
    assert(chunks =~~= seq![Seq::<char>::empty()]);
    let cleaned = banner_clean(chunks[0], rules);
    let ls = split_spec(chunks[0], seq!['\n']);
    assert(ls =~~= seq![Seq::<char>::empty()]);
    assert(cleaned.len() == 0) by {
        match rules.banner {
            BannerStyle::FirstLine => {},
            BannerStyle::SeverityScan => {
                if severity_line(ls[0], rules.severity_tokens) {
                    assert(first_severity_line(ls, rules.severity_tokens, 0) == Some(0int));
                    assert(ls.skip(0) =~= ls);
                    assert(join_with(ls, seq!['\n']) == ls[0]);
                } else {
                    assert(first_severity_line(ls, rules.severity_tokens, 1) is None);
                    assert(first_severity_line(ls, rules.severity_tokens, 0) is None);
                }
            },
        }
    }
    let tail = if rules.drop_last {
        Seq::<Seq<char>>::empty()
    } else {
        chunks.drop_first()
    };
    assert(tail =~= Seq::<Seq<char>>::empty());
    let kept = seq![cleaned] + tail;
    assert(kept =~= seq![cleaned]);
    assert(!keep_block(cleaned, rules.require_gutter));
    assert(keep_blocks(kept, rules.require_gutter) =~= keep_blocks(
        kept.drop_last(),
        rules.require_gutter,
    ));
    assert(kept.drop_last() =~= Seq::<Seq<char>>::empty());
}

/// Whether the line begins, after leading white space, with one of the
/// tokens.
fn severity_line_exec(line: &str, tokens: &Vec<String>) -> (r: bool)
    ensures
        r == severity_line(line@, tokens.deep_view()),
{
    let trimmed = trim_start_str(line);
    let n = tokens.len();
    let mut k: usize = 0;
    while k < n
        invariant
            0 <= k <= n,
            n == tokens@.len(),
            forall|q: int| 0 <= q < k ==> !has_prefix(trim_start_spec(line@), tokens.deep_view()[q]),
        decreases n - k,
    {
        if starts_with(trimmed, tokens[k].as_str()) {
            assert(has_prefix(trim_start_spec(line@), tokens.deep_view()[k as int]));
            return true;
        }
        k += 1;
    }
    false
}

/// Removes the banner of the first chunk, per the rules.
fn banner_clean_exec(chunk: &str, rules: &SegmentRules) -> (r: String)
    ensures
        r@ == banner_clean(chunk@, rules@),
{
    proof {
        reveal_strlit("\n");
        assert("\n"@ =~= seq!['\n']);
    }
    let lines = split_str(chunk, "\n");
    match rules.banner {
        BannerStyle::FirstLine => {
            if lines.len() <= 1 {
                let e = String::new();
                return e;
            }
            join_strs(&lines, 1, "\n")
        },
        BannerStyle::SeverityScan => {
            let n = lines.len();
            let mut k: usize = 0;
            while k < n
                invariant
                    0 <= k <= n,
                    n == lines@.len(),
                    first_severity_line(lines.deep_view(), rules@.severity_tokens, 0)
                        == first_severity_line(lines.deep_view(), rules@.severity_tokens, k as int),
                decreases n - k,
            {
                if severity_line_exec(lines[k].as_str(), &rules.severity_tokens) {
                    assert(lines.deep_view()[k as int] == lines@[k as int]@);
                    return join_strs(&lines, k, "\n");
                }
                k += 1;
            }
            String::new()
        },
    }
}

/// Whether the candidate block is kept.
fn keep_block_exec(b: &str, require_gutter: bool) -> (r: bool)
    ensures
        r == keep_block(b@, require_gutter),
{
    proof {
        reveal_strlit("|");
        assert("|"@ =~= seq!['|']);
    }
    !is_blank_str(b) && (!require_gutter || contains_str(b, "|"))
}

/// Splits one raw output buffer into its diagnostic blocks, per the rules.
pub fn segment(raw: &str, rules: &SegmentRules) -> (r: Vec<String>)
    ensures
        r.deep_view() == segment_spec(raw@, rules@),
{
    proof {
        reveal_strlit("\n\n");
        assert("\n\n"@ =~= seq!['\n', '\n']);
    }
    let t = trim_str(raw);
    let chunks = split_str(t, "\n\n");
    assert(chunks@.len() > 0) by {
        crate::text::lemma_split_len(t@, seq!['\n', '\n'], 0);
    }
    let ghost chunk_views = chunks.deep_view();
    let first = banner_clean_exec(chunks[0].as_str(), rules);
    let mut kept: Vec<String> = Vec::new();
    kept.push(first);
    let end: usize = if rules.drop_last {
        if chunks.len() >= 2 {
            chunks.len() - 1
        } else {
            1
        }
    } else {
        chunks.len()
    };
    let ghost tail = if rules@.drop_last {
        if chunk_views.len() >= 2 {
            chunk_views.subrange(1, chunk_views.len() - 1)
        } else {
            Seq::<Seq<char>>::empty()
        }
    } else {
        chunk_views.drop_first()
    };
    let mut i: usize = 1;
    while i < end
        invariant
            1 <= i <= end,
            end <= chunks@.len(),
            chunk_views == chunks.deep_view(),
            end as int - 1 == tail.len(),
            forall|q: int| 0 <= q < tail.len() ==> tail[q] == chunk_views[q + 1],
            kept.deep_view() =~= seq![banner_clean(chunk_views[0], rules@)] + tail.take(i - 1),
        decreases end - i,
    {
        let ghost prev = kept.deep_view();
        kept.push(chunks[i].clone());
        proof {
            assert(kept.deep_view() =~= prev.push(chunk_views[i as int]));
            assert(tail.take(i as int) =~= tail.take(i - 1).push(tail[i - 1]));
        }
        assert(kept.deep_view() =~= seq![banner_clean(chunk_views[0], rules@)] + tail.take(
            i as int,
        ));
        i += 1;
    }
    assert(tail.take(end - 1) =~= tail);
    let ghost all = kept.deep_view();
    let n = kept.len();
    let mut out: Vec<String> = Vec::new();
    let mut j: usize = 0;
    while j < n
        invariant
            0 <= j <= n,
            n == kept@.len(),
            all == kept.deep_view(),
            out.deep_view() == keep_blocks(all.take(j as int), rules@.require_gutter),
        decreases n - j,
    {
        proof {
            assert(all.take(j + 1).drop_last() =~= all.take(j as int));
            assert(all.take(j + 1).last() == all[j as int]);
        }
        if keep_block_exec(kept[j].as_str(), rules.require_gutter) {
            out.push(kept[j].clone());
            assert(out.deep_view() =~= keep_blocks(all.take(j + 1), rules@.require_gutter));
        } else {
            assert(out.deep_view() =~= keep_blocks(all.take(j + 1), rules@.require_gutter));
        }
        j += 1;
    }
    proof {
        assert(all.take(n as int) =~= all);
    }
    out
}

} // verus!
