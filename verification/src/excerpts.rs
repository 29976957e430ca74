//! The excerpt streamer: raw per-document match groups are expanded by
//! a number of context lines, overlapping or adjacent expansions are
//! merged so that no line is excerpted twice, and the resulting excerpt
//! ranges are handed out incrementally, one document at a time.

use vstd::prelude::*;
use crate::navigator::MatchRange;
use crate::navigator::Point;

verus! {

/// How many context rows a text search expands each match by.
pub const TEXT_CONTEXT_ROWS: u64 = 1;

/// How many context rows a semantic search expands each hit by.
pub const SEMANTIC_CONTEXT_ROWS: u64 = 3;

/// One semantic search hit: the document, the index of its last row,
/// and the span the engine matched.
#[derive(Clone, Copy, PartialEq, Eq, Structural, Debug)]
pub struct SemanticHit {
    pub doc: u64,
    pub last_row: u64,
    pub start: Point,
    pub end: Point,
}

/// Shapes semantic hits for excerpt streaming: each hit collapses to
/// a zero-width range at its start and becomes a group of its own, in
/// hit order, so that only the hit's own surroundings are excerpted.
pub fn semantic_match_groups(hits: &Vec<SemanticHit>) -> (r: Vec<DocumentMatches>)
    ensures
        r@.len() == hits@.len(),
        forall|k: int|
            0 <= k < hits@.len() ==> {
                let h = hits@[k];
                let g = #[trigger] r@[k];
                &&& g.doc == h.doc
                &&& g.last_row == h.last_row
                &&& g.ranges@.len() == 1
                &&& g.ranges@[0] == (MatchRange { doc: h.doc, start: h.start, end: h.start })
            },
        forall|k: int|
            0 <= k < hits@.len() && hits@[k].start.row <= hits@[k].last_row ==> (
            #[trigger] r@[k]).wf(),
{
    let mut out: Vec<DocumentMatches> = Vec::new();
    let mut k: usize = 0;
    while k < hits.len()
        invariant
            k <= hits@.len(),
            out@.len() == k,
            forall|j: int|
                0 <= j < k ==> {
                    let h = hits@[j];
                    let g = #[trigger] out@[j];
                    &&& g.doc == h.doc
                    &&& g.last_row == h.last_row
                    &&& g.ranges@.len() == 1
                    &&& g.ranges@[0] == (MatchRange { doc: h.doc, start: h.start, end: h.start })
                },
        decreases hits@.len() - k,
    {
        let hit = hits[k];
        let mut ranges: Vec<MatchRange> = Vec::new();
        ranges.push(MatchRange { doc: hit.doc, start: hit.start, end: hit.start });
        out.push(DocumentMatches { doc: hit.doc, last_row: hit.last_row, ranges });
        k += 1;
    }
    proof {
        assert forall|k: int|
            0 <= k < hits@.len() && hits@[k].start.row <= hits@[k].last_row implies (
        #[trigger] out@[k]).wf() by {
            assert(out@[k].ranges@[0].wf());
        }
    }
    out
}

/// The raw matches of one document, as the search engine reports them:
/// the document, the index of its last row, and the match ranges in
/// document order.
pub struct DocumentMatches {
    pub doc: u64,
    pub last_row: u64,
    pub ranges: Vec<MatchRange>,
}

impl DocumentMatches {
    /// Well-formed raw matches: every range belongs to this document,
    /// runs forward, stays within the document, and the ranges come
    /// sorted by start position.
    pub open spec fn wf(self) -> bool {
        &&& (forall|i: int| 0 <= i < self.ranges@.len() ==> (#[trigger] self.ranges@[i]).doc
            == self.doc)
        &&& (forall|i: int| 0 <= i < self.ranges@.len() ==> (#[trigger] self.ranges@[i]).wf())
        &&& (forall|i: int|
            0 <= i < self.ranges@.len() ==> (#[trigger] self.ranges@[i]).end.row <= self.last_row)
        &&& (forall|i: int, j: int|
            0 <= i < j < self.ranges@.len() ==> self.ranges@[i].start.spec_le(
                self.ranges@[j].start,
            ))
    }
}

/// A context-expanded span of rows of one document.
#[derive(Clone, Copy, PartialEq, Eq, Structural, Debug)]
pub struct Excerpt {
    pub doc: u64,
    pub first_row: u64,
    pub last_row: u64,
}

/// The rows a match occupies once expanded by `context` rows each way,
/// clipped to the document.
pub open spec fn expanded_rows(m: MatchRange, context: u64, last_row: u64) -> (int, int) {
    (
        if m.start.row >= context {
            m.start.row - context
        } else {
            0
        },
        if m.end.row + context <= last_row {
            m.end.row + context
        } else {
            last_row as int
        },
    )
}

/// Folds one expanded row span into an accumulated list: overlapping
/// or adjacent spans are merged into the last entry, anything else is
/// appended.
pub open spec fn merge_push(acc: Seq<(int, int)>, r: (int, int)) -> Seq<(int, int)> {
    if acc.len() == 0 {
        seq![r]
    } else if r.0 <= acc.last().1 + 1 {
        acc.update(
            acc.len() - 1,
            (
                acc.last().0,
                if r.1 > acc.last().1 {
                    r.1
                } else {
                    acc.last().1
                },
            ),
        )
    } else {
        acc.push(r)
    }
}

/// The merged, context-expanded row spans of a document's matches.
pub open spec fn doc_excerpt_rows(ranges: Seq<MatchRange>, context: u64, last_row: u64) -> Seq<
    (int, int),
>
    decreases ranges.len(),
{
    if ranges.len() == 0 {
        Seq::<(int, int)>::empty()
    } else {
        merge_push(
            doc_excerpt_rows(ranges.drop_last(), context, last_row),
            expanded_rows(ranges.last(), context, last_row),
        )
    }
}

/// What the streamer emits for one document: its excerpts and the
/// matches they came from, both in document order.
pub struct DocExcerpts {
    pub excerpts: Vec<Excerpt>,
    pub matches: Vec<MatchRange>,
}

/// The excerpts of one group, as the row spans of `doc_excerpt_rows`
/// tagged with the document.
pub open spec fn spec_doc_excerpts(g: DocumentMatches, context: u64) -> Seq<Excerpt> {
    Seq::new(
        doc_excerpt_rows(g.ranges@, context, g.last_row).len(),
        |k: int|
            Excerpt {
                doc: g.doc,
                first_row: doc_excerpt_rows(g.ranges@, context, g.last_row)[k].0 as u64,
                last_row: doc_excerpt_rows(g.ranges@, context, g.last_row)[k].1 as u64,
            },
    )
}

/// Streams the excerpts of a search, one document per call, so that a
/// consumer can show partial results while later documents are still
/// pending.  A stream is built once per search generation and is not
/// restartable.
pub struct ExcerptStream {
    groups: Vec<DocumentMatches>,
    context: u64,
    next_group: usize,
}

impl ExcerptStream {
    /// The document groups not yet streamed.
    pub closed spec fn remaining(self) -> Seq<DocumentMatches> {
        self.groups@.skip(self.next_group as int)
    }

    /// How many context rows each match is expanded by.
    pub closed spec fn spec_context(self) -> u64 {
        self.context
    }

    /// Every held group is well formed and the cursor is in range.
    pub closed spec fn wf(self) -> bool {
        &&& self.next_group <= self.groups@.len()
        &&& (forall|i: int| 0 <= i < self.groups@.len() ==> (#[trigger] self.groups@[i]).wf())
    }

    /// A fresh stream over `groups`, expanding by `context` rows.
    pub fn new(groups: Vec<DocumentMatches>, context: u64) -> (r: Self)
        requires
            forall|i: int| 0 <= i < groups@.len() ==> (#[trigger] groups@[i]).wf(),
        ensures
            r.wf(),
            r.remaining() == groups@,
            r.spec_context() == context,
    {
        let r = ExcerptStream { groups, context, next_group: 0 };
        proof {
            assert(r.remaining() =~= r.groups@);
        }
        r
    }

    /// Streams the next document: its merged excerpts and its matches,
    /// or `None` once every group has been handed out.
    pub fn next_group(&mut self) -> (r: Option<DocExcerpts>)
        requires
            old(self).wf(),
        ensures
            final(self).wf(),
            final(self).spec_context() == old(self).spec_context(),
            old(self).remaining().len() == 0 ==> r is None && final(self).remaining()
                == old(self).remaining(),
            old(self).remaining().len() > 0 ==> r is Some && final(self).remaining()
                == old(self).remaining().drop_first() && r->Some_0.excerpts@ == spec_doc_excerpts(
                old(self).remaining().first(),
                old(self).spec_context(),
            ) && r->Some_0.matches@ == old(self).remaining().first().ranges@,
    {
        if self.next_group >= self.groups.len() {
            return None;
        }
        let ng = self.next_group;
        let doc = self.groups[ng].doc;
        let last_row = self.groups[ng].last_row;
        let ctx = self.context;
        let ghost g = self.groups@[ng as int];
        let ghost all_rows = |i: int| doc_excerpt_rows(g.ranges@.take(i), ctx, last_row);
        let n = self.groups[ng].ranges.len();
        let mut excerpts: Vec<Excerpt> = Vec::new();
        let mut matches: Vec<MatchRange> = Vec::new();
        let mut i: usize = 0;
        proof {
            assert(g.ranges@.take(0) =~= Seq::<MatchRange>::empty());
            assert(matches@ =~= g.ranges@.take(0));
        }
        while i < n
            invariant
                *self == *old(self),
                old(self).wf(),
                ng == self.next_group < self.groups@.len(),
                g == self.groups@[ng as int],
                doc == g.doc,
                last_row == g.last_row,
                ctx == self.context,
                n == g.ranges@.len(),
                i <= n,
                all_rows == (|j: int| doc_excerpt_rows(g.ranges@.take(j), ctx, last_row)),
                matches@ == g.ranges@.take(i as int),
                excerpts@.len() == all_rows(i as int).len(),
                forall|k: int|
                    0 <= k < excerpts@.len() ==> (#[trigger] excerpts@[k]).doc == doc
                        && excerpts@[k].first_row == all_rows(i as int)[k].0
                        && excerpts@[k].last_row == all_rows(i as int)[k].1,
                forall|k: int|
                    0 <= k < all_rows(i as int).len() ==> 0 <= (#[trigger] all_rows(i as int)[k]).0
                        && all_rows(i as int)[k].1 <= last_row,
            decreases n - i,
        {
            let m = self.groups[ng].ranges[i];
            proof {
                assert(g.wf());
                assert(g.ranges@[i as int].wf());
                assert(g.ranges@[i as int].end.row <= last_row);
                assert(g.ranges@.take(i + 1).drop_last() =~= g.ranges@.take(i as int));
                assert(g.ranges@.take(i + 1).last() == g.ranges@[i as int]);
            }
            let first: u64 = if m.start.row >= ctx {
                m.start.row - ctx
            } else {
                0
            };
            let last: u64 = if last_row - m.end.row >= ctx {
                m.end.row + ctx
            } else {
                last_row
            };
            let ghost acc = all_rows(i as int);
            let ghost e = expanded_rows(g.ranges@[i as int], ctx, last_row);
            proof {
                assert(e == (first as int, last as int));
                assert(all_rows(i + 1) == merge_push(acc, e));
            }
            if excerpts.len() > 0 && (first == 0 || first - 1
                <= excerpts[excerpts.len() - 1].last_row) {
                let prev = excerpts[excerpts.len() - 1];
                let merged_last = if last > prev.last_row {
                    last
                } else {
                    prev.last_row
                };
                let _ = excerpts.pop();
                excerpts.push(
                    Excerpt { doc: prev.doc, first_row: prev.first_row, last_row: merged_last },
                );
                proof {
                    assert(e.0 <= acc.last().1 + 1);
                    assert(all_rows(i + 1) == acc.update(
                        acc.len() - 1,
                        (
                            acc.last().0,
                            if e.1 > acc.last().1 {
                                e.1
                            } else {
                                acc.last().1
                            },
                        ),
                    ));
                }
            } else {
                proof {
                    if acc.len() > 0 {
                        assert(e.0 > acc.last().1 + 1);
                        assert(all_rows(i + 1) == acc.push(e));
                    } else {
                        assert(all_rows(i + 1) == seq![e]);
                    }
                }
                excerpts.push(Excerpt { doc, first_row: first, last_row: last });
            }
            matches.push(m);
            proof {
                assert(matches@ =~= g.ranges@.take(i + 1));
            }
            i += 1;
        }
        proof {
            assert(g.ranges@.take(n as int) =~= g.ranges@);
            assert(excerpts@ =~= spec_doc_excerpts(g, ctx));
            assert(old(self).remaining().first() == g);
        }
        self.next_group = ng + 1;
        proof {
            assert(self.remaining() =~= old(self).remaining().drop_first());
        }
        Some(DocExcerpts { excerpts, matches })
    }
}

/// Law: for well-formed input the merged spans are valid, ordered and
/// pairwise separated by at least one unexcerpted row, the expansion
/// of every match lies inside one of them, and the last span reaches
/// at least as far as the last match's expansion.
pub proof fn lemma_doc_rows_separated(ranges: Seq<MatchRange>, context: u64, last_row: u64)
    requires
        forall|i: int| 0 <= i < ranges.len() ==> (#[trigger] ranges[i]).wf(),
        forall|i: int| 0 <= i < ranges.len() ==> (#[trigger] ranges[i]).end.row <= last_row,
        forall|i: int, j: int| 0 <= i < j < ranges.len() ==> ranges[i].start.spec_le(
            ranges[j].start,
        ),
    ensures
        ranges.len() > 0 ==> doc_excerpt_rows(ranges, context, last_row).len() > 0,
        forall|k: int|
            0 <= k < doc_excerpt_rows(ranges, context, last_row).len() ==> 0 <= (
            #[trigger] doc_excerpt_rows(ranges, context, last_row)[k]).0 && doc_excerpt_rows(
                ranges,
                context,
                last_row,
            )[k].0 <= doc_excerpt_rows(ranges, context, last_row)[k].1 && doc_excerpt_rows(
                ranges,
                context,
                last_row,
            )[k].1 <= last_row,
        forall|k: int, l: int|
            0 <= k < l < doc_excerpt_rows(ranges, context, last_row).len()
                ==> (#[trigger] doc_excerpt_rows(ranges, context, last_row)[k]).1 + 1 < (
            #[trigger] doc_excerpt_rows(ranges, context, last_row)[l]).0,
        forall|i: int|
            0 <= i < ranges.len() ==> exists|k: int|
                0 <= k < doc_excerpt_rows(ranges, context, last_row).len()
                    && (#[trigger] doc_excerpt_rows(ranges, context, last_row)[k]).0 <= (
                #[trigger] expanded_rows(ranges[i], context, last_row)).0 && expanded_rows(
                    ranges[i],
                    context,
                    last_row,
                ).1 <= doc_excerpt_rows(ranges, context, last_row)[k].1,
        ranges.len() > 0 ==> doc_excerpt_rows(ranges, context, last_row).last().0 <= expanded_rows(
            ranges.last(),
            context,
            last_row,
        ).0 && expanded_rows(ranges.last(), context, last_row).1 <= doc_excerpt_rows(
            ranges,
            context,
            last_row,
        ).last().1,
    decreases ranges.len(),
{
    if ranges.len() > 0 {
        let prefix = ranges.drop_last();
        let e = expanded_rows(ranges.last(), context, last_row);
        let acc = doc_excerpt_rows(prefix, context, last_row);
        let rows = doc_excerpt_rows(ranges, context, last_row);
        lemma_doc_rows_separated(prefix, context, last_row);
        assert(rows == merge_push(acc, e));
        if acc.len() == 0 {
            assert(ranges.len() == 1);
            assert(rows == seq![e]);
            assert forall|i: int| 0 <= i < ranges.len() implies exists|k: int|
                0 <= k < rows.len() && (#[trigger] rows[k]).0 <= (#[trigger] expanded_rows(
                    ranges[i],
                    context,
                    last_row,
                )).0 && expanded_rows(ranges[i], context, last_row).1 <= rows[k].1 by {
                assert(ranges[i] == ranges.last());
                assert(rows[0].0 <= expanded_rows(ranges[i], context, last_row).0);
            }
        } else {
            // The last processed match starts no later than this one,
            // so its expansion starts no later either.
            assert(prefix[prefix.len() - 1] == ranges[ranges.len() - 2]);
            assert(ranges[ranges.len() - 2].start.spec_le(ranges[ranges.len() - 1].start));
            assert(expanded_rows(prefix.last(), context, last_row).0 <= e.0);
            assert(acc.last().0 <= e.0);
            if e.0 <= acc.last().1 + 1 {
                let merged = (
                    acc.last().0,
                    if e.1 > acc.last().1 {
                        e.1
                    } else {
                        acc.last().1
                    },
                );
                assert(rows == acc.update(acc.len() - 1, merged));
                assert forall|i: int| 0 <= i < ranges.len() implies exists|k: int|
                    0 <= k < rows.len() && (#[trigger] rows[k]).0 <= (#[trigger] expanded_rows(
                        ranges[i],
                        context,
                        last_row,
                    )).0 && expanded_rows(ranges[i], context, last_row).1 <= rows[k].1 by {
                    let ei = expanded_rows(ranges[i], context, last_row);
                    if i < ranges.len() - 1 {
                        assert(prefix[i] == ranges[i]);
                        let k = choose|k: int|
                            0 <= k < acc.len() && (#[trigger] acc[k]).0 <= ei.0 && ei.1
                                <= acc[k].1;
                        assert(rows[k].0 <= ei.0 && ei.1 <= rows[k].1);
                    } else {
                        assert(rows[rows.len() - 1].0 <= ei.0 && ei.1 <= rows[rows.len() - 1].1);
                    }
                }
            } else {
                assert(rows == acc.push(e));
                assert forall|i: int| 0 <= i < ranges.len() implies exists|k: int|
                    0 <= k < rows.len() && (#[trigger] rows[k]).0 <= (#[trigger] expanded_rows(
                        ranges[i],
                        context,
                        last_row,
                    )).0 && expanded_rows(ranges[i], context, last_row).1 <= rows[k].1 by {
                    let ei = expanded_rows(ranges[i], context, last_row);
                    if i < ranges.len() - 1 {
                        assert(prefix[i] == ranges[i]);
                        let k = choose|k: int|
                            0 <= k < acc.len() && (#[trigger] acc[k]).0 <= ei.0 && ei.1
                                <= acc[k].1;
                        assert(rows[k].0 <= ei.0 && ei.1 <= rows[k].1);
                    } else {
                        assert(rows[rows.len() - 1].0 <= ei.0 && ei.1 <= rows[rows.len() - 1].1);
                    }
                }
            }
        }
    }
}

} // verus!
