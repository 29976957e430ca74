//! The search orchestrator: it owns the active query, the search
//! generation, and the accumulated match and excerpt state, and it
//! decides how each event of a search's lifecycle changes that state.
//! The surrounding application runs the engines and feeds the results
//! back in, tagged with the generation they were started under; results
//! of a superseded generation leave the state untouched.

use vstd::prelude::*;
use vstd::seq_lib::group_seq_properties;
use crate::excerpts::DocExcerpts;
use crate::excerpts::DocumentMatches;
use crate::excerpts::Excerpt;
use crate::excerpts::ExcerptStream;
use crate::navigator::MatchRange;
use crate::query::QueryView;
use crate::query::SearchQuery;

verus! {

/// The mathematical content of the orchestrator state.
#[verifier::ext_equal]
pub struct SearchModel {
    pub project: u64,
    pub active_query: Option<QueryView>,
    pub search_id: u64,
    pub match_ranges: Seq<MatchRange>,
    pub excerpts: Seq<Excerpt>,
    pub pending_search: bool,
}

/// One project-wide search: the active query, the current search
/// generation (`search_id`), the accumulated matches and excerpts, and
/// whether a search is still in flight.
pub struct ProjectSearch {
    project: u64,
    active_query: Option<SearchQuery>,
    search_id: u64,
    match_ranges: Vec<MatchRange>,
    excerpts: Vec<Excerpt>,
    pending_search: bool,
}

impl View for ProjectSearch {
    type V = SearchModel;

    closed spec fn view(&self) -> SearchModel {
        SearchModel {
            project: self.project,
            active_query: match self.active_query {
                Some(q) => Some(q@),
                None => None,
            },
            search_id: self.search_id,
            match_ranges: self.match_ranges@,
            excerpts: self.excerpts@,
            pending_search: self.pending_search,
        }
    }
}

/// Issuing a search: the generation grows, the result state is cleared
/// before any engine work starts, and the query becomes active.
pub open spec fn spec_issue(m: SearchModel, q: Option<QueryView>) -> SearchModel {
    SearchModel {
        active_query: if q is Some {
            q
        } else {
            m.active_query
        },
        search_id: (m.search_id + 1) as u64,
        match_ranges: Seq::<MatchRange>::empty(),
        excerpts: Seq::<Excerpt>::empty(),
        pending_search: true,
        ..m
    }
}

/// Receiving one streamed batch: results of a stale generation are
/// discarded; results of the current generation are appended.
pub open spec fn spec_on_batch(
    m: SearchModel,
    generation: u64,
    excerpts: Seq<Excerpt>,
    matches: Seq<MatchRange>,
) -> SearchModel {
    if generation != m.search_id {
        m
    } else {
        SearchModel {
            match_ranges: m.match_ranges + matches,
            excerpts: m.excerpts + excerpts,
            ..m
        }
    }
}

/// Law: results tagged with generation `g` that arrive after a newer
/// search was issued never reach the result state.  Issuing bumps the
/// generation past `g`, so the batch is discarded whole.
pub proof fn lemma_stale_results_discarded(
    m: SearchModel,
    q: Option<QueryView>,
    g: u64,
    excerpts: Seq<Excerpt>,
    matches: Seq<MatchRange>,
)
    requires
        g <= m.search_id,
        m.search_id < u64::MAX,
    ensures
        spec_on_batch(spec_issue(m, q), g, excerpts, matches) == spec_issue(m, q),
{
}

/// Groups ordered by their document rank.
pub open spec fn sorted_by_doc(groups: Seq<DocumentMatches>) -> bool {
    forall|i: int, j: int| 0 <= i < j < groups.len() ==> groups[i].doc <= groups[j].doc
}

/// The match ranges of a group sequence, concatenated in group order:
/// what the result list holds once every batch of these groups was
/// integrated.
pub open spec fn ranges_of(groups: Seq<DocumentMatches>) -> Seq<MatchRange>
    decreases groups.len(),
{
    if groups.len() == 0 {
        Seq::<MatchRange>::empty()
    } else {
        ranges_of(groups.drop_last()) + groups.last().ranges@
    }
}

/// Law: when the chunk's groups are well formed and their document
/// ranks strictly increase — as they do after sorting a one-group-per-
/// document chunk — the concatenated match list is globally ordered by
/// (document, position).  Appending the streamed batches in order
/// therefore keeps the result list in that order throughout the
/// generation.
pub proof fn lemma_integration_order(groups: Seq<DocumentMatches>)
    requires
        forall|i: int| 0 <= i < groups.len() ==> (#[trigger] groups[i]).wf(),
        forall|i: int, j: int| 0 <= i < j < groups.len() ==> groups[i].doc < groups[j].doc,
    ensures
        forall|k: int, l: int|
            0 <= k < l < ranges_of(groups).len() ==> (#[trigger] ranges_of(groups)[k]).spec_start(
            ).spec_le((#[trigger] ranges_of(groups)[l]).spec_start()),
        groups.len() > 0 ==> (forall|k: int|
            0 <= k < ranges_of(groups).len() ==> (#[trigger] ranges_of(groups)[k]).doc
                <= groups.last().doc),
    decreases groups.len(),
{
    if groups.len() > 0 {
        let prefix = groups.drop_last();
        let g = groups.last();
        let rp = ranges_of(prefix);
        let all = ranges_of(groups);
        lemma_integration_order(prefix);
        assert(all == rp + g.ranges@);
        assert(g.wf());
        if prefix.len() > 0 {
            assert(prefix.last() == groups[groups.len() - 2]);
            assert(prefix.last().doc < g.doc);
        }
        assert forall|k: int, l: int|
            0 <= k < l < all.len() implies (#[trigger] all[k]).spec_start().spec_le(
            (#[trigger] all[l]).spec_start()) by {
            if k < rp.len() && l >= rp.len() {
                assert(all[k] == rp[k]);
                assert(all[l] == g.ranges@[l - rp.len()]);
                assert(all[k].doc <= prefix.last().doc);
                assert(all[l].doc == g.doc);
            } else if l < rp.len() {
                assert(all[k] == rp[k] && all[l] == rp[l]);
            } else {
                assert(all[k] == g.ranges@[k - rp.len()]);
                assert(all[l] == g.ranges@[l - rp.len()]);
                assert(g.ranges@[k - rp.len()].start.spec_le(g.ranges@[l - rp.len()].start));
            }
        }
    }
}

/// Sorts a chunk of document groups by document rank, so that results
/// are integrated in a deterministic cross-document order.  The result
/// holds exactly the given groups.
pub fn sort_groups(input: Vec<DocumentMatches>) -> (r: Vec<DocumentMatches>)
    ensures
        r@.to_multiset() == input@.to_multiset(),
        r@.len() == input@.len(),
        sorted_by_doc(r@),
        forall|i: int| 0 <= i < r@.len() ==> input@.contains(#[trigger] r@[i]),
{
    broadcast use group_seq_properties;
    broadcast use vstd::seq_lib::group_to_multiset_ensures;

    let ghost original = input@;
    let mut rest = input;
    let mut out: Vec<DocumentMatches> = Vec::new();
    proof {
        assert(out@.to_multiset().add(rest@.to_multiset()) =~= original.to_multiset());
    }
    while rest.len() > 0
        invariant
            out@.to_multiset().add(rest@.to_multiset()) == original.to_multiset(),
            out@.len() + rest@.len() == original.len(),
            sorted_by_doc(out@),
            forall|k: int, l: int|
                0 <= k < out@.len() && 0 <= l < rest@.len() ==> (#[trigger] out@[k]).doc <= (
                #[trigger] rest@[l]).doc,
            forall|k: int| 0 <= k < out@.len() ==> original.contains(#[trigger] out@[k]),
            forall|l: int| 0 <= l < rest@.len() ==> original.contains(#[trigger] rest@[l]),
        decreases rest@.len(),
    {
        let mut mi: usize = 0;
        let mut j: usize = 1;
        while j < rest.len()
            invariant
                mi < j <= rest@.len(),
                forall|k: int| 0 <= k < j ==> (#[trigger] rest@[k]).doc >= rest@[mi as int].doc,
            decreases rest@.len() - j,
        {
            if rest[j].doc < rest[mi].doc {
                mi = j;
            }
            j += 1;
        }
        let ghost before = rest@;
        let ghost prev_out = out@;
        let g = rest.remove(mi);
        out.push(g);
        proof {
            broadcast use vstd::multiset::group_multiset_axioms;

            before.to_multiset_ensures();
            prev_out.to_multiset_ensures();
            assert(before.contains(g));
            assert(before.to_multiset().count(g) > 0);
            assert(rest@.to_multiset() == before.to_multiset().remove(g));
            assert(out@.to_multiset() == prev_out.to_multiset().insert(g));
            assert(out@.to_multiset().add(rest@.to_multiset()) =~= original.to_multiset());
            assert(forall|l: int|
                0 <= l < rest@.len() ==> #[trigger] rest@[l] == if l < mi {
                    before[l]
                } else {
                    before[l + 1]
                });
            assert(original.contains(g));
        }
    }
    out
}

impl ProjectSearch {
    /// A fresh search for one project: generation zero, nothing
    /// searched yet.
    pub fn new(project: u64) -> (r: Self)
        ensures
            r@ == (SearchModel {
                project,
                active_query: None,
                search_id: 0,
                match_ranges: Seq::<MatchRange>::empty(),
                excerpts: Seq::<Excerpt>::empty(),
                pending_search: false,
            }),
    {
        let r = ProjectSearch {
            project,
            active_query: None,
            search_id: 0,
            match_ranges: Vec::new(),
            excerpts: Vec::new(),
            pending_search: false,
        };
        proof {
            assert(r@ =~= (SearchModel {
                project,
                active_query: None,
                search_id: 0,
                match_ranges: Seq::<MatchRange>::empty(),
                excerpts: Seq::<Excerpt>::empty(),
                pending_search: false,
            }));
        }
        r
    }

    /// The project this search runs over.
    pub fn project(&self) -> (r: u64)
        ensures
            r == self@.project,
    {
        self.project
    }

    /// The current search generation.
    pub fn search_id(&self) -> (r: u64)
        ensures
            r == self@.search_id,
    {
        self.search_id
    }

    /// Whether a search is still in flight.
    pub fn is_searching(&self) -> (r: bool)
        ensures
            r == self@.pending_search,
    {
        self.pending_search
    }

    /// How many matches have arrived so far.
    pub fn match_count(&self) -> (r: usize)
        ensures
            r == self@.match_ranges.len(),
    {
        self.match_ranges.len()
    }

    /// The accumulated matches, in integration order.
    pub fn match_ranges(&self) -> (r: &Vec<MatchRange>)
        ensures
            r@ == self@.match_ranges,
    {
        &self.match_ranges
    }

    /// The accumulated excerpts, in integration order.
    pub fn excerpts(&self) -> (r: &Vec<Excerpt>)
        ensures
            r@ == self@.excerpts,
    {
        &self.excerpts
    }

    /// The active query, if a text or regex search was issued.
    pub fn active_query(&self) -> (r: Option<&SearchQuery>)
        ensures
            r is Some <==> self@.active_query is Some,
            r is Some ==> r->Some_0@ == self@.active_query->Some_0,
    {
        match &self.active_query {
            Some(q) => Some(q),
            None => None,
        }
    }

    /// Issues a text or regex search: supersedes any search in flight
    /// by bumping the generation, records the query as active, and
    /// clears the visible result state before the engine starts.
    pub fn search(&mut self, query: SearchQuery)
        requires
            old(self)@.search_id < u64::MAX,
        ensures
            final(self)@ == spec_issue(old(self)@, Some(query@)),
    {
        self.search_id = self.search_id + 1;
        self.active_query = Some(query);
        self.match_ranges = Vec::new();
        self.excerpts = Vec::new();
        self.pending_search = true;
        proof {
            assert(self@ =~= spec_issue(old(self)@, Some(self.active_query->Some_0@)));
        }
    }

    /// Issues a semantic search: supersedes any search in flight and
    /// clears the visible result state.  The natural-language text is
    /// handed to the engine by the caller and does not replace the
    /// active text query.
    pub fn semantic_search(&mut self)
        requires
            old(self)@.search_id < u64::MAX,
        ensures
            final(self)@ == spec_issue(old(self)@, None),
    {
        self.search_id = self.search_id + 1;
        self.match_ranges = Vec::new();
        self.excerpts = Vec::new();
        self.pending_search = true;
        proof {
            assert(self@ =~= spec_issue(old(self)@, None));
        }
    }

    /// Integrates the engine's raw result chunk for one generation: a
    /// stale chunk is discarded and the state stays as it was; a
    /// current chunk is sorted by document and turned into an excerpt
    /// stream that the caller drains back into `on_batch`.
    pub fn on_results(&mut self, generation: u64, groups: Vec<DocumentMatches>, context: u64) -> (r:
        Option<ExcerptStream>)
        requires
            forall|i: int| 0 <= i < groups@.len() ==> (#[trigger] groups@[i]).wf(),
        ensures
            generation != old(self)@.search_id ==> r is None && final(self)@ == old(self)@,
            generation == old(self)@.search_id ==> r is Some && final(self)@ == (SearchModel {
                match_ranges: Seq::<MatchRange>::empty(),
                excerpts: Seq::<Excerpt>::empty(),
                ..old(self)@
            }),
            generation == old(self)@.search_id ==> {
                let stream = r->Some_0;
                &&& stream.wf()
                &&& stream.spec_context() == context
                &&& stream.remaining().to_multiset() == groups@.to_multiset()
                &&& sorted_by_doc(stream.remaining())
            },
    {
        if generation != self.search_id {
            return None;
        }
        self.match_ranges = Vec::new();
        self.excerpts = Vec::new();
        let sorted = sort_groups(groups);
        proof {
            assert(self@ =~= (SearchModel {
                match_ranges: Seq::<MatchRange>::empty(),
                excerpts: Seq::<Excerpt>::empty(),
                ..old(self)@
            }));
        }
        Some(ExcerptStream::new(sorted, context))
    }

    /// Integrates one streamed batch: stale batches are discarded;
    /// current ones are appended to the excerpt set and match list.
    pub fn on_batch(&mut self, generation: u64, batch: &DocExcerpts)
        ensures
            final(self)@ == spec_on_batch(
                old(self)@,
                generation,
                batch.excerpts@,
                batch.matches@,
            ),
    {
        if generation != self.search_id {
            proof {
                assert(self@ =~= spec_on_batch(
                    old(self)@,
                    generation,
                    batch.excerpts@,
                    batch.matches@,
                ));
            }
            return ;
        }
        append_excerpts(&mut self.excerpts, &batch.excerpts);
        append_ranges(&mut self.match_ranges, &batch.matches);
        proof {
            assert(self@ =~= spec_on_batch(
                old(self)@,
                generation,
                batch.excerpts@,
                batch.matches@,
            ));
        }
    }

    /// The stream of one generation ran dry: that search leaves the
    /// in-flight state, unless it was already superseded.
    pub fn on_complete(&mut self, generation: u64)
        ensures
            generation != old(self)@.search_id ==> final(self)@ == old(self)@,
            generation == old(self)@.search_id ==> final(self)@ == (SearchModel {
                pending_search: false,
                ..old(self)@
            }),
    {
        if generation == self.search_id {
            self.pending_search = false;
            proof {
                assert(self@ =~= (SearchModel { pending_search: false, ..old(self)@ }));
            }
        } else {
            proof {
                assert(self@ =~= old(self)@);
            }
        }
    }

    /// The engine of one generation failed: the search degrades to an
    /// idle state with whatever results were already integrated.
    pub fn on_search_failed(&mut self, generation: u64)
        ensures
            generation != old(self)@.search_id ==> final(self)@ == old(self)@,
            generation == old(self)@.search_id ==> final(self)@ == (SearchModel {
                pending_search: false,
                ..old(self)@
            }),
    {
        self.on_complete(generation);
    }

    /// An independent copy for a new tab: same query and accumulated
    /// results in freshly allocated containers, no search in flight.
    pub fn duplicate(&self) -> (r: Self)
        ensures
            r@ == (SearchModel { pending_search: false, ..self@ }),
    {
        let r = ProjectSearch {
            project: self.project,
            active_query: match &self.active_query {
                Some(q) => Some(q.duplicate()),
                None => None,
            },
            search_id: self.search_id,
            match_ranges: copy_ranges(&self.match_ranges),
            excerpts: copy_excerpts(&self.excerpts),
            pending_search: false,
        };
        proof {
            assert(r@ =~= (SearchModel { pending_search: false, ..self@ }));
        }
        r
    }
}

/// Appends every element of `more` to `v`.
fn append_excerpts(v: &mut Vec<Excerpt>, more: &Vec<Excerpt>)
    ensures
        final(v)@ == old(v)@ + more@,
{
    let mut k: usize = 0;
    proof {
        assert(v@ =~= old(v)@ + more@.take(0));
    }
    while k < more.len()
        invariant
            k <= more@.len(),
            v@ == old(v)@ + more@.take(k as int),
        decreases more@.len() - k,
    {
        v.push(more[k]);
        proof {
            assert(old(v)@ + more@.take(k as int) + seq![more@[k as int]] =~= old(v)@ + more@.take(
                k + 1,
            ));
        }
        k += 1;
    }
    proof {
        assert(more@.take(more@.len() as int) =~= more@);
    }
}

/// Appends every element of `more` to `v`.
fn append_ranges(v: &mut Vec<MatchRange>, more: &Vec<MatchRange>)
    ensures
        final(v)@ == old(v)@ + more@,
{
    let mut k: usize = 0;
    proof {
        assert(v@ =~= old(v)@ + more@.take(0));
    }
    while k < more.len()
        invariant
            k <= more@.len(),
            v@ == old(v)@ + more@.take(k as int),
        decreases more@.len() - k,
    {
        v.push(more[k]);
        proof {
            assert(old(v)@ + more@.take(k as int) + seq![more@[k as int]] =~= old(v)@ + more@.take(
                k + 1,
            ));
        }
        k += 1;
    }
    proof {
        assert(more@.take(more@.len() as int) =~= more@);
    }
}

/// A fresh vector with the same match ranges.
fn copy_ranges(v: &Vec<MatchRange>) -> (r: Vec<MatchRange>)
    ensures
        r@ == v@,
{
    let mut out: Vec<MatchRange> = Vec::new();
    let mut k: usize = 0;
    while k < v.len()
        invariant
            k <= v@.len(),
            out@ == v@.take(k as int),
        decreases v@.len() - k,
    {
        out.push(v[k]);
        proof {
            assert(v@.take(k as int).push(v@[k as int]) =~= v@.take(k + 1));
        }
        k += 1;
    }
    proof {
        assert(v@.take(v@.len() as int) =~= v@);
    }
    out
}

/// A fresh vector with the same excerpts.
fn copy_excerpts(v: &Vec<Excerpt>) -> (r: Vec<Excerpt>)
    ensures
        r@ == v@,
{
    let mut out: Vec<Excerpt> = Vec::new();
    let mut k: usize = 0;
    while k < v.len()
        invariant
            k <= v@.len(),
            out@ == v@.take(k as int),
        decreases v@.len() - k,
    {
        out.push(v[k]);
        proof {
            assert(v@.take(k as int).push(v@[k as int]) =~= v@.take(k + 1));
        }
        k += 1;
    }
    proof {
        assert(v@.take(v@.len() as int) =~= v@);
    }
    out
}

} // verus!
