//! Tests for the orchestrator lifecycle, the excerpt streamer and the
//! view state machine: generations, stale-result discarding, the
//! end-to-end flow, and the semantic gating.

use project_search::Direction;
use project_search::DocumentMatches;
use project_search::Location;
use project_search::MatchRange;
use project_search::Point;
use project_search::ProjectSearch;
use project_search::ProjectSearchView;
use project_search::SearchDispatch;
use project_search::SearchMode;
use project_search::SearchOption;

fn range(doc: u64, row: u64, start_col: u64, end_col: u64) -> MatchRange {
    MatchRange {
        doc,
        start: Point { row, column: start_col },
        end: Point { row, column: end_col },
    }
}

/// The two files of the scenario: `one.rs` is document 0 with
/// `const ONE = 1;`, `two.rs` is document 1 with
/// `const TWO = ONE + ONE;`.  The query `ONE` matches once in the
/// first and twice in the second.
fn one_two_groups() -> Vec<DocumentMatches> {
    vec![
        DocumentMatches { doc: 0, last_row: 0, ranges: vec![range(0, 0, 6, 9)] },
        DocumentMatches {
            doc: 1,
            last_row: 0,
            ranges: vec![range(1, 0, 12, 15), range(1, 0, 18, 21)],
        },
    ]
}

/// Drains a search's stream into the model, as the application's
/// driver does.
fn run_search(model: &mut ProjectSearch, generation: u64, groups: Vec<DocumentMatches>, context: u64) {
    let mut stream = match model.on_results(generation, groups, context) {
        Some(stream) => stream,
        None => return,
    };
    while let Some(batch) = stream.next_group() {
        model.on_batch(generation, &batch);
    }
    model.on_complete(generation);
}

#[test]
fn search_clears_state_and_bumps_generation() {
    let mut view = ProjectSearchView::new(ProjectSearch::new(7));
    view.query_text = "ONE".to_string();
    let dispatch = view.search().expect("a plain text query is always valid");
    match dispatch {
        SearchDispatch::Text { generation, query } => {
            assert_eq!(generation, 1);
            assert_eq!(query.as_str(), "ONE");
        },
        SearchDispatch::Semantic { .. } => panic!("expected a text dispatch"),
    }
    assert!(view.model.is_searching());
    assert_eq!(view.model.match_count(), 0);
    assert_eq!(view.model.active_query().expect("query recorded").as_str(), "ONE");
}

#[test]
fn end_to_end_three_matches_and_wraparound() {
    let mut view = ProjectSearchView::new(ProjectSearch::new(1));
    view.query_text = "ONE".to_string();
    view.search_options.case_sensitive = true;
    let generation = match view.search().expect("valid query") {
        SearchDispatch::Text { generation, .. } => generation,
        SearchDispatch::Semantic { .. } => panic!("expected a text dispatch"),
    };
    run_search(&mut view.model, generation, one_two_groups(), 1);
    view.model_changed();

    assert_eq!(view.model.match_count(), 3);
    assert!(!view.model.is_searching());
    assert_eq!(view.active_match_index, Some(0));
    assert_eq!(view.selected_range, Some(range(0, 0, 6, 9)));

    view.select_match(Direction::Next);
    assert_eq!(view.active_match_index, Some(1));
    view.select_match(Direction::Next);
    assert_eq!(view.active_match_index, Some(2));
    view.select_match(Direction::Next);
    assert_eq!(view.active_match_index, Some(0));
    assert_eq!(view.selected_range, Some(range(0, 0, 6, 9)));

    view.select_match(Direction::Prev);
    assert_eq!(view.active_match_index, Some(2));
}

#[test]
fn stale_results_never_reach_the_result_set() {
    let mut model = ProjectSearch::new(1);
    let query = project_search::SearchQuery::text(
        "ONE".to_string(),
        false,
        true,
        Vec::new(),
        Vec::new(),
    );
    model.search(query);
    let first_generation = model.search_id();
    assert_eq!(first_generation, 1);

    let query2 = project_search::SearchQuery::text(
        "TWO".to_string(),
        false,
        true,
        Vec::new(),
        Vec::new(),
    );
    model.search(query2);
    let second_generation = model.search_id();
    assert_eq!(second_generation, 2);

    // The first search's results arrive late: they must be discarded.
    assert!(model.on_results(first_generation, one_two_groups(), 1).is_none());
    assert_eq!(model.match_count(), 0);

    // A batch forged under the stale generation is discarded too.
    let mut stream = model
        .on_results(second_generation, one_two_groups(), 1)
        .expect("current generation is integrated");
    let batch = stream.next_group().expect("one group per document");
    model.on_batch(first_generation, &batch);
    assert_eq!(model.match_count(), 0);
    model.on_batch(second_generation, &batch);
    assert_eq!(model.match_count(), 1);
    assert!(model.is_searching());
    model.on_complete(first_generation);
    assert!(model.is_searching());
    model.on_complete(second_generation);
    assert!(!model.is_searching());
}

#[test]
fn chunks_are_integrated_in_document_order() {
    let mut model = ProjectSearch::new(1);
    model.search(project_search::SearchQuery::text(
        "ONE".to_string(),
        false,
        true,
        Vec::new(),
        Vec::new(),
    ));
    let generation = model.search_id();
    // Hand the groups over in reverse document order.
    let groups = vec![
        DocumentMatches {
            doc: 1,
            last_row: 0,
            ranges: vec![range(1, 0, 12, 15), range(1, 0, 18, 21)],
        },
        DocumentMatches { doc: 0, last_row: 0, ranges: vec![range(0, 0, 6, 9)] },
    ];
    run_search(&mut model, generation, groups, 1);
    let ranges = model.match_ranges();
    assert_eq!(ranges.len(), 3);
    assert_eq!(ranges[0], range(0, 0, 6, 9));
    assert_eq!(ranges[1], range(1, 0, 12, 15));
    assert_eq!(ranges[2], range(1, 0, 18, 21));
}

#[test]
fn overlapping_and_adjacent_excerpts_merge() {
    let mut model = ProjectSearch::new(1);
    model.search(project_search::SearchQuery::text(
        "x".to_string(),
        false,
        false,
        Vec::new(),
        Vec::new(),
    ));
    let generation = model.search_id();
    // Matches on rows 0, 2 and 9 of a ten-row document, one context
    // row each way: rows 0..=3 merge (0..=1 touches 1..=3), row 9
    // stays apart as 8..=9.
    let groups = vec![DocumentMatches {
        doc: 4,
        last_row: 9,
        ranges: vec![range(4, 0, 0, 1), range(4, 2, 0, 1), range(4, 9, 0, 1)],
    }];
    run_search(&mut model, generation, groups, 1);
    let excerpts = model.excerpts();
    assert_eq!(excerpts.len(), 2);
    assert_eq!((excerpts[0].doc, excerpts[0].first_row, excerpts[0].last_row), (4, 0, 3));
    assert_eq!((excerpts[1].doc, excerpts[1].first_row, excerpts[1].last_row), (4, 8, 9));
    assert_eq!(model.match_count(), 3);
}

#[test]
fn excerpt_context_is_clipped_to_the_document() {
    let mut model = ProjectSearch::new(1);
    model.search(project_search::SearchQuery::text(
        "x".to_string(),
        false,
        false,
        Vec::new(),
        Vec::new(),
    ));
    let generation = model.search_id();
    let groups = vec![DocumentMatches {
        doc: 0,
        last_row: 2,
        ranges: vec![range(0, 0, 0, 1)],
    }];
    run_search(&mut model, generation, groups, 5);
    let excerpts = model.excerpts();
    assert_eq!(excerpts.len(), 1);
    assert_eq!((excerpts[0].first_row, excerpts[0].last_row), (0, 2));
}

#[test]
fn duplicate_is_independent_of_the_original() {
    let mut model = ProjectSearch::new(3);
    model.search(project_search::SearchQuery::text(
        "ONE".to_string(),
        false,
        true,
        Vec::new(),
        Vec::new(),
    ));
    let generation = model.search_id();
    run_search(&mut model, generation, one_two_groups(), 1);
    let copy = model.duplicate();
    assert_eq!(copy.match_count(), 3);
    assert_eq!(copy.search_id(), model.search_id());
    assert!(!copy.is_searching());
    assert_eq!(copy.active_query().expect("kept").as_str(), "ONE");

    // Searching on the original does not disturb the copy.
    model.search(project_search::SearchQuery::text(
        "TWO".to_string(),
        false,
        true,
        Vec::new(),
        Vec::new(),
    ));
    assert_eq!(model.match_count(), 0);
    assert_eq!(copy.match_count(), 3);
    assert_eq!(copy.active_query().expect("kept").as_str(), "ONE");
}

#[test]
fn invalid_regex_leaves_active_query_untouched() {
    let mut view = ProjectSearchView::new(ProjectSearch::new(1));
    view.query_text = "TWO".to_string();
    view.search().expect("plain text query is valid");
    assert_eq!(view.model.active_query().expect("recorded").as_str(), "TWO");

    view.search_options.regex = true;
    view.query_text = "(unclosed".to_string();
    assert!(view.search().is_none());
    assert!(view.panels_with_errors.query);
    assert_eq!(view.model.active_query().expect("untouched").as_str(), "TWO");
    assert_eq!(view.model.search_id(), 1);

    // A valid regex afterwards clears the flag and replaces the query.
    view.query_text = "T.O".to_string();
    view.search().expect("valid regex");
    assert!(!view.panels_with_errors.query);
    assert_eq!(view.model.active_query().expect("replaced").as_str(), "T.O");
}

#[test]
fn bad_filter_lists_flag_their_own_panels() {
    let mut view = ProjectSearchView::new(ProjectSearch::new(1));
    view.query_text = "x".to_string();
    view.included_text = "[bad".to_string();
    view.excluded_text = "*.lock".to_string();
    assert!(view.search().is_none());
    assert!(view.panels_with_errors.included);
    assert!(!view.panels_with_errors.excluded);
    assert_eq!(view.model.search_id(), 0);

    view.included_text = "src/**".to_string();
    view.excluded_text = "[worse".to_string();
    assert!(view.search().is_none());
    assert!(!view.panels_with_errors.included);
    assert!(view.panels_with_errors.excluded);

    view.excluded_text = "*.lock".to_string();
    let dispatch = view.search().expect("both lists compile now");
    match dispatch {
        SearchDispatch::Text { query, .. } => {
            assert_eq!(query.files_to_include()[0].pattern(), "src/**");
            assert_eq!(query.files_to_exclude()[0].pattern(), "*.lock");
        },
        SearchDispatch::Semantic { .. } => panic!("expected a text dispatch"),
    }
    assert!(!view.panels_with_errors.included);
    assert!(!view.panels_with_errors.excluded);
}

#[test]
fn semantic_search_is_gated_on_indexing() {
    let mut view = ProjectSearchView::new(ProjectSearch::new(1));
    view.query_text = "list all languages".to_string();
    assert!(view.toggle_semantic_search(true), "indexing must be requested");
    assert_eq!(view.current_mode, SearchMode::Semantic);
    view.semantic_index_started(5);

    // While files are outstanding a search is a no-op.
    assert!(view.search().is_none());
    assert_eq!(view.model.search_id(), 0);
    assert_eq!(view.model.match_count(), 0);
    assert!(!view.model.is_searching());

    view.semantic_index_progress(2);
    assert!(view.search().is_none());
    assert_eq!(view.model.search_id(), 0);

    // Once indexing completes the search goes through.
    view.semantic_index_progress(0);
    let dispatch = view.search().expect("indexing is complete");
    match dispatch {
        SearchDispatch::Semantic { generation, query_text, limit, files_to_include, files_to_exclude } => {
            assert_eq!(generation, 1);
            assert_eq!(query_text.as_str(), "list all languages");
            assert_eq!(limit, project_search::SEMANTIC_SEARCH_LIMIT);
            assert_eq!(limit, 10);
            assert!(files_to_include.is_empty());
            assert!(files_to_exclude.is_empty());
        },
        SearchDispatch::Text { .. } => panic!("expected a semantic dispatch"),
    }
    assert!(view.model.is_searching());
}

#[test]
fn toggling_semantic_off_tears_the_tracker_down() {
    let mut view = ProjectSearchView::new(ProjectSearch::new(1));
    assert!(view.toggle_semantic_search(true));
    view.semantic_index_started(3);
    assert!(view.semantic.is_some());
    assert!(!view.toggle_semantic_search(true));
    assert!(view.semantic.is_none());
}

#[test]
fn toggling_an_option_reissues_the_search() {
    let mut view = ProjectSearchView::new(ProjectSearch::new(1));
    view.query_text = "two".to_string();
    view.search().expect("valid");
    assert_eq!(view.model.search_id(), 1);
    let dispatch = view
        .toggle_search_option(SearchOption::CaseSensitive)
        .expect("still valid");
    match dispatch {
        SearchDispatch::Text { generation, query } => {
            assert_eq!(generation, 2);
            assert!(query.is_case_sensitive());
        },
        SearchDispatch::Semantic { .. } => panic!("expected a text dispatch"),
    }
    assert!(view.search_options.case_sensitive);
    assert_eq!(view.model.search_id(), 2);
}

#[test]
fn toggling_regex_switches_to_regex_mode() {
    let mut view = ProjectSearchView::new(ProjectSearch::new(1));
    view.query_text = "a+".to_string();
    view.toggle_search_option(SearchOption::Regex).expect("valid regex");
    assert_eq!(view.current_mode, SearchMode::Regex);
    assert!(view.search_options.regex);
    assert!(view.model.active_query().expect("recorded").is_regex());
}

#[test]
fn cycle_mode_walks_text_semantic_regex() {
    let mut view = ProjectSearchView::new(ProjectSearch::new(1));
    assert_eq!(view.current_mode, SearchMode::Text);
    view.cycle_mode(true);
    assert_eq!(view.current_mode, SearchMode::Semantic);
    view.cycle_mode(true);
    assert_eq!(view.current_mode, SearchMode::Regex);
    view.cycle_mode(true);
    assert_eq!(view.current_mode, SearchMode::Text);
    view.cycle_mode(false);
    assert_eq!(view.current_mode, SearchMode::Regex);
}

#[test]
fn outstanding_follows_the_progress_stream() {
    let mut view = ProjectSearchView::new(ProjectSearch::new(1));
    assert_eq!(view.outstanding(), None);
    assert!(view.toggle_semantic_search(true));
    view.semantic_index_started(4);
    assert_eq!(view.outstanding(), Some(4));
    view.semantic_index_progress(1);
    assert_eq!(view.outstanding(), Some(1));
    view.semantic_index_progress(0);
    assert_eq!(view.outstanding(), Some(0));
    assert!(view.semantic.is_some(), "a completed tracker is kept until the mode changes");
}

#[test]
fn semantic_hits_collapse_to_their_starts() {
    let hits = vec![
        project_search::SemanticHit {
            doc: 2,
            last_row: 40,
            start: Point { row: 10, column: 4 },
            end: Point { row: 14, column: 0 },
        },
        project_search::SemanticHit {
            doc: 0,
            last_row: 7,
            start: Point { row: 3, column: 0 },
            end: Point { row: 3, column: 9 },
        },
    ];
    let groups = project_search::semantic_match_groups(&hits);
    assert_eq!(groups.len(), 2);
    assert_eq!(groups[0].doc, 2);
    assert_eq!(groups[0].last_row, 40);
    assert_eq!(groups[0].ranges, vec![range(2, 10, 4, 4)]);
    assert_eq!(groups[1].doc, 0);
    assert_eq!(groups[1].ranges, vec![range(0, 3, 0, 0)]);
}

#[test]
fn semantic_results_stream_with_three_context_rows() {
    assert_eq!(project_search::TEXT_CONTEXT_ROWS, 1);
    assert_eq!(project_search::SEMANTIC_CONTEXT_ROWS, 3);
    let mut view = ProjectSearchView::new(ProjectSearch::new(1));
    view.query_text = "natural language".to_string();
    assert!(view.toggle_semantic_search(true));
    view.semantic_index_started(0);
    let generation = match view.search().expect("index is ready") {
        SearchDispatch::Semantic { generation, .. } => generation,
        SearchDispatch::Text { .. } => panic!("expected a semantic dispatch"),
    };
    let hits = vec![project_search::SemanticHit {
        doc: 5,
        last_row: 30,
        start: Point { row: 10, column: 2 },
        end: Point { row: 12, column: 0 },
    }];
    let groups = project_search::semantic_match_groups(&hits);
    run_search(
        &mut view.model,
        generation,
        groups,
        project_search::SEMANTIC_CONTEXT_ROWS,
    );
    view.model_changed();
    // The hit collapsed to its start, so three context rows surround
    // row 10 alone, not the whole hit span.
    let excerpts = view.model.excerpts();
    assert_eq!(excerpts.len(), 1);
    assert_eq!((excerpts[0].first_row, excerpts[0].last_row), (7, 13));
    assert_eq!(view.model.match_ranges(), &vec![range(5, 10, 2, 2)]);
    assert_eq!(view.active_match_index, Some(0));
}
