//! A verified core for project-wide search orchestration.
//!
//! The library validates and compiles search queries, tracks the active
//! search generation so that stale asynchronous results are discarded,
//! expands raw matches into deduplicated context excerpts, and maintains
//! the active-match cursor with wraparound navigation.  The surrounding
//! application owns the actual search engines, editors and rendering; it
//! feeds plain values in and reads plain values out.

use vstd::prelude::*;

mod excerpts;
mod globs;
mod navigator;
mod options;
mod orchestrator;
mod query;
mod registry;
mod svg;
mod view;

pub use excerpts::doc_excerpt_rows;
pub use excerpts::expanded_rows;
pub use excerpts::lemma_doc_rows_separated;
pub use excerpts::semantic_match_groups;
pub use excerpts::spec_doc_excerpts;
pub use excerpts::SemanticHit;
pub use excerpts::SEMANTIC_CONTEXT_ROWS;
pub use excerpts::TEXT_CONTEXT_ROWS;
pub use excerpts::DocExcerpts;
pub use excerpts::DocumentMatches;
pub use excerpts::Excerpt;
pub use excerpts::ExcerptStream;
pub use globs::glob_ok;
pub use globs::glob_pattern_ok;
pub use globs::GLOB_PATTERN_MAX;
pub use globs::glob_segments;
pub use globs::globs_ok;
pub use globs::load_glob_set;
pub use globs::segments;
pub use globs::GlobError;
pub use globs::PathMatcher;
pub use navigator::active_match_index;
pub use navigator::lemma_next_prev_inverse;
pub use navigator::match_index_for_direction;
pub use navigator::next_index;
pub use navigator::prev_index;
pub use navigator::starts_at_or_after;
pub use navigator::strictly_sorted;
pub use navigator::Location;
pub use navigator::MatchRange;
pub use navigator::Point;
pub use options::Direction;
pub use options::InputPanel;
pub use options::SearchMode;
pub use options::SearchOption;
pub use options::SearchOptions;
pub use orchestrator::lemma_integration_order;
pub use orchestrator::lemma_stale_results_discarded;
pub use orchestrator::ranges_of;
pub use orchestrator::sort_groups;
pub use orchestrator::sorted_by_doc;
pub use orchestrator::spec_issue;
pub use orchestrator::spec_on_batch;
pub use orchestrator::ProjectSearch;
pub use orchestrator::SearchModel;
pub use query::patterns_of;
pub use query::FieldError;
pub use query::regex_pattern_ok;
pub use query::QueryKind;
pub use query::QueryView;
pub use query::SearchQuery;
pub use registry::ActiveSearches;
pub use svg::AssetStore;
pub use svg::RenderError;
pub use svg::RenderSvgParams;
pub use svg::SvgRenderer;
pub use view::built_query_view;
pub use view::filters_valid;
pub use view::query_valid;
pub use view::FocusTarget;
pub use view::PanelErrors;
pub use view::ProjectSearchView;
pub use view::SearchDispatch;
pub use view::SEMANTIC_SEARCH_LIMIT;
pub use view::SemanticSearchState;

verus! {

/// Sets up the process-wide search state: one registry of active
/// searches, owned by the application shell and handed to whoever
/// needs it.
pub fn init() -> (r: ActiveSearches)
    ensures
        r@ == Map::<u64, u64>::empty(),
{
    ActiveSearches::new()
}

} // verus!
