//! Tests for the view's focus handling, the registry, forking a
//! search into a new tab, and the icon renderer.

use project_search::init;
use project_search::AssetStore;
use project_search::Direction;
use project_search::DocumentMatches;
use project_search::FocusTarget;
use project_search::InputPanel;
use project_search::MatchRange;
use project_search::Point;
use project_search::ProjectSearch;
use project_search::ProjectSearchView;
use project_search::RenderError;
use project_search::RenderSvgParams;
use project_search::SearchDispatch;
use project_search::SvgRenderer;

#[test]
fn registry_records_and_forgets_active_searches() {
    let mut registry = init();
    assert_eq!(registry.len(), 0);
    assert_eq!(registry.active_view(1), None);
    registry.record(1, 10);
    registry.record(2, 20);
    registry.record(1, 11);
    assert_eq!(registry.len(), 2);
    assert_eq!(registry.active_view(1), Some(11));
    assert_eq!(registry.active_view(2), Some(20));
    registry.forget(1);
    assert_eq!(registry.active_view(1), None);
    assert_eq!(registry.len(), 1);
}

#[test]
fn cycle_field_walks_the_input_panels() {
    let mut view = ProjectSearchView::new(ProjectSearch::new(1));
    assert_eq!(view.focus, FocusTarget::Panel(InputPanel::Query));
    assert!(view.cycle_field(Direction::Next));
    assert_eq!(view.focus, FocusTarget::Panel(InputPanel::Include));
    assert!(view.cycle_field(Direction::Next));
    assert_eq!(view.focus, FocusTarget::Panel(InputPanel::Exclude));
    assert!(view.cycle_field(Direction::Next));
    assert_eq!(view.focus, FocusTarget::Panel(InputPanel::Query));
    assert!(view.cycle_field(Direction::Prev));
    assert_eq!(view.focus, FocusTarget::Panel(InputPanel::Exclude));
    view.focus = FocusTarget::Results;
    assert!(!view.cycle_field(Direction::Next));
    assert_eq!(view.focus, FocusTarget::Results);
}

#[test]
fn focus_moves_to_results_only_with_matches() {
    let mut view = ProjectSearchView::new(ProjectSearch::new(1));
    assert!(!view.move_focus_to_results());
    assert_eq!(view.focus, FocusTarget::Panel(InputPanel::Query));

    view.query_text = "ONE".to_string();
    let generation = match view.search().expect("valid") {
        SearchDispatch::Text { generation, .. } => generation,
        SearchDispatch::Semantic { .. } => panic!("expected a text dispatch"),
    };
    let groups = vec![DocumentMatches {
        doc: 0,
        last_row: 0,
        ranges: vec![MatchRange {
            doc: 0,
            start: Point { row: 0, column: 6 },
            end: Point { row: 0, column: 9 },
        }],
    }];
    let mut stream = view.model.on_results(generation, groups, 1).expect("current");
    while let Some(batch) = stream.next_group() {
        view.model.on_batch(generation, &batch);
    }
    view.model.on_complete(generation);
    view.model_changed();
    // The new search moved focus off the query editor already.
    assert_eq!(view.focus, FocusTarget::Results);
    view.focus_query_editor();
    assert!(view.move_focus_to_results());
    assert_eq!(view.focus, FocusTarget::Results);
}

#[test]
fn search_in_new_forks_the_query_and_restores_the_old_one() {
    let mut view = ProjectSearchView::new(ProjectSearch::new(9));
    view.query_text = "first".to_string();
    view.search().expect("valid");
    view.query_text = "second".to_string();
    let forked = view.search_in_new().expect("valid query forks");
    assert_eq!(forked.active_query().expect("searching").as_str(), "second");
    assert_eq!(forked.search_id(), 1);
    assert_eq!(forked.project(), 9);
    assert!(forked.is_searching());
    // The current view goes back to the previously active query.
    assert_eq!(view.query_text.as_str(), "first");
    assert_eq!(view.model.active_query().expect("untouched").as_str(), "first");
}

#[test]
fn new_search_in_directory_seeds_the_include_filter() {
    assert!(ProjectSearchView::new_search_in_directory(1, "a/one.rs", false).is_none());
    let view = ProjectSearchView::new_search_in_directory(1, "a", true).expect("directories work");
    assert_eq!(view.included_text.as_str(), "a/**");
    assert_eq!(view.excluded_text.as_str(), "");
    assert_eq!(view.focus, FocusTarget::Panel(InputPanel::Query));
    assert!(view.query_editor_was_focused);
}

#[test]
fn view_seeds_query_from_the_active_query() {
    let mut model = ProjectSearch::new(1);
    model.search(project_search::SearchQuery::text(
        "seed".to_string(),
        true,
        false,
        Vec::new(),
        Vec::new(),
    ));
    let view = ProjectSearchView::new(model);
    assert_eq!(view.query_text.as_str(), "seed");
    assert!(view.search_options.whole_word);
    assert!(!view.search_options.case_sensitive);
    assert!(!view.search_options.regex);
    assert_eq!(view.search_id, 1);
    assert!(!view.has_matches());
    assert_eq!(view.row_count(), 1);
}

fn tiny_svg() -> Vec<u8> {
    b"<svg xmlns='http://www.w3.org/2000/svg' width='4' height='4'>\
      <rect x='0' y='0' width='4' height='4' fill='black'/></svg>"
        .to_vec()
}

#[test]
fn svg_render_reports_each_failure() {
    let mut assets = AssetStore::new();
    assets.add("icons/full.svg".to_string(), tiny_svg());
    assets.add("icons/broken.svg".to_string(), b"<svg".to_vec());
    let renderer = SvgRenderer::new(assets);

    let zero = RenderSvgParams { path: "icons/full.svg".to_string(), width: 0, height: 4 };
    assert_eq!(renderer.render(&zero), Err(RenderError::ZeroSize));

    let missing = RenderSvgParams { path: "icons/other.svg".to_string(), width: 4, height: 4 };
    assert_eq!(renderer.render(&missing), Err(RenderError::AssetNotFound));

    let broken = RenderSvgParams { path: "icons/broken.svg".to_string(), width: 4, height: 4 };
    assert_eq!(renderer.render(&broken), Err(RenderError::InvalidSvg));
}

#[test]
fn svg_render_fails_on_an_oversized_raster() {
    let mut assets = AssetStore::new();
    assets.add("icons/full.svg".to_string(), tiny_svg());
    let renderer = SvgRenderer::new(assets);
    // A row this wide is beyond the bitmap limit, so rasterization is
    // refused after the document parsed fine.
    let params = RenderSvgParams {
        path: "icons/full.svg".to_string(),
        width: 1_000_000_000,
        height: 1_000_000_000,
    };
    assert_eq!(renderer.render(&params), Err(RenderError::RasterizeFailed));
}

#[test]
fn svg_render_rasterizes_an_alpha_mask() {
    let mut assets = AssetStore::new();
    assets.add("icons/full.svg".to_string(), tiny_svg());
    let renderer = SvgRenderer::new(assets);
    let params = RenderSvgParams { path: "icons/full.svg".to_string(), width: 4, height: 4 };
    let mask = renderer.render(&params).expect("a filled square renders");
    assert_eq!(mask.len(), 16);
    assert!(mask.iter().all(|alpha| *alpha == 255), "a filled square is fully opaque");
}

#[test]
fn asset_store_later_entries_win() {
    let mut assets = AssetStore::new();
    assets.add("icon".to_string(), vec![1]);
    assets.add("icon".to_string(), vec![2, 3]);
    assert_eq!(assets.get(&"icon".to_string()), Some(&vec![2, 3]));
    assert_eq!(assets.get(&"other".to_string()), None);
}

#[test]
fn focus_in_restores_the_last_focused_editor() {
    let mut view = ProjectSearchView::new(ProjectSearch::new(1));
    view.focus_query_editor();
    view.focus = FocusTarget::Results;
    view.focus_in();
    assert_eq!(view.focus, FocusTarget::Panel(InputPanel::Query));

    view.focus_results_editor();
    view.focus = FocusTarget::Panel(InputPanel::Exclude);
    view.focus_in();
    assert_eq!(view.focus, FocusTarget::Results);
}
