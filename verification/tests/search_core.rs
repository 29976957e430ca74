//! Tests for the navigator, the glob compiler and the query builder.

use project_search::active_match_index;
use project_search::load_glob_set;
use project_search::match_index_for_direction;
use project_search::Direction;
use project_search::Location;
use project_search::MatchRange;
use project_search::InputPanel;
use project_search::Point;
use project_search::SearchOptions;
use project_search::SearchQuery;

fn range(doc: u64, row: u64, start_col: u64, end_col: u64) -> MatchRange {
    MatchRange {
        doc,
        start: Point { row, column: start_col },
        end: Point { row, column: end_col },
    }
}

fn loc(doc: u64, row: u64, column: u64) -> Location {
    Location { doc, pos: Point { row, column } }
}

#[test]
fn active_index_empty_set_has_no_active_match() {
    let matches: Vec<MatchRange> = Vec::new();
    assert_eq!(active_match_index(&matches, &loc(0, 0, 0)), None);
}

#[test]
fn active_index_picks_first_match_at_or_after_cursor() {
    let matches = vec![range(0, 0, 6, 9), range(1, 0, 12, 15), range(1, 0, 18, 21)];
    assert_eq!(active_match_index(&matches, &loc(0, 0, 0)), Some(0));
    assert_eq!(active_match_index(&matches, &loc(0, 0, 6)), Some(0));
    assert_eq!(active_match_index(&matches, &loc(0, 0, 7)), Some(1));
    assert_eq!(active_match_index(&matches, &loc(1, 0, 13)), Some(2));
}

#[test]
fn active_index_wraps_to_first_when_cursor_is_past_every_match() {
    let matches = vec![range(0, 0, 6, 9), range(1, 0, 12, 15)];
    assert_eq!(active_match_index(&matches, &loc(1, 5, 0)), Some(0));
    assert_eq!(active_match_index(&matches, &loc(7, 0, 0)), Some(0));
}

#[test]
fn next_and_prev_wrap_around() {
    assert_eq!(match_index_for_direction(3, 0, Direction::Next), 1);
    assert_eq!(match_index_for_direction(3, 2, Direction::Next), 0);
    assert_eq!(match_index_for_direction(3, 0, Direction::Prev), 2);
    assert_eq!(match_index_for_direction(3, 1, Direction::Prev), 0);
}

#[test]
fn next_then_prev_returns_to_every_index() {
    for i in 0..5 {
        let after_next = match_index_for_direction(5, i, Direction::Next);
        assert_eq!(match_index_for_direction(5, after_next, Direction::Prev), i);
        let after_prev = match_index_for_direction(5, i, Direction::Prev);
        assert_eq!(match_index_for_direction(5, after_prev, Direction::Next), i);
    }
}

#[test]
fn glob_list_compiles_each_trimmed_pattern() {
    let matchers = load_glob_set("*.rs, *.toml").expect("both patterns compile");
    assert_eq!(matchers.len(), 2);
    assert_eq!(matchers[0].pattern(), "*.rs");
    assert_eq!(matchers[1].pattern(), "*.toml");
}

#[test]
fn glob_list_skips_empty_segments_and_whitespace() {
    let matchers = load_glob_set("  a/**  ,, ,b ").expect("patterns compile");
    assert_eq!(matchers.len(), 2);
    assert_eq!(matchers[0].pattern(), "a/**");
    assert_eq!(matchers[1].pattern(), "b");
}

#[test]
fn glob_list_is_all_or_nothing() {
    let err = load_glob_set("*.rs, [invalid").expect_err("one bad pattern fails the list");
    assert_eq!(err.pattern.as_str(), "[invalid");
    assert!(!err.message.is_empty());
}

#[test]
fn empty_glob_text_yields_no_matchers() {
    let matchers = load_glob_set("").expect("empty text is fine");
    assert_eq!(matchers.len(), 0);
    let matchers = load_glob_set("   ").expect("blank text is fine");
    assert_eq!(matchers.len(), 0);
}

#[test]
fn regex_query_rejects_invalid_pattern() {
    let result = SearchQuery::regex("(unclosed".to_string(), false, true, Vec::new(), Vec::new());
    assert!(result.is_err());
    assert!(!result.unwrap_err().is_empty());
}

#[test]
fn regex_query_accepts_valid_pattern() {
    let query = SearchQuery::regex("fn \\w+".to_string(), false, true, Vec::new(), Vec::new())
        .expect("pattern compiles");
    assert_eq!(query.as_str(), "fn \\w+");
    assert!(query.is_regex());
    assert!(query.is_case_sensitive());
    assert!(!query.is_whole_word());
}

#[test]
fn text_query_keeps_its_fields() {
    let included = load_glob_set("src/**").expect("compiles");
    let query = SearchQuery::text("TWO".to_string(), true, false, included, Vec::new());
    assert_eq!(query.as_str(), "TWO");
    assert!(!query.is_regex());
    assert!(query.is_whole_word());
    assert!(!query.is_case_sensitive());
    assert_eq!(query.files_to_include().len(), 1);
    assert_eq!(query.files_to_exclude().len(), 0);
    let copy = query.duplicate();
    assert_eq!(copy.as_str(), "TWO");
    assert_eq!(copy.files_to_include()[0].pattern(), "src/**");
}

#[test]
fn build_validates_every_field() {
    let options = SearchOptions { case_sensitive: true, whole_word: false, regex: false };
    let query = SearchQuery::build(
        "TWO".to_string(),
        "src/**, *.rs",
        "target/**",
        options,
    )
    .expect("everything compiles");
    assert_eq!(query.as_str(), "TWO");
    assert!(!query.is_regex());
    assert_eq!(query.files_to_include().len(), 2);
    assert_eq!(query.files_to_exclude().len(), 1);

    let err = SearchQuery::build(
        "TWO".to_string(),
        "[bad",
        "[also bad",
        options,
    )
    .expect_err("the include list is at fault first");
    assert_eq!(err.panel, InputPanel::Include);

    let err = SearchQuery::build(
        "TWO".to_string(),
        "src/**",
        "[bad",
        options,
    )
    .expect_err("the exclude list is at fault");
    assert_eq!(err.panel, InputPanel::Exclude);

    let regex_options = SearchOptions { case_sensitive: false, whole_word: false, regex: true };
    let err = SearchQuery::build(
        "(unclosed".to_string(),
        "",
        "",
        regex_options,
    )
    .expect_err("the query text is at fault");
    assert_eq!(err.panel, InputPanel::Query);
    assert!(!err.message.is_empty());

    let query = SearchQuery::build(
        "T.O".to_string(),
        "",
        "",
        regex_options,
    )
    .expect("a valid regex builds");
    assert!(query.is_regex());
    assert_eq!(query.as_str(), "T.O");
}

#[test]
fn overlong_glob_pattern_is_rejected_up_front() {
    let long_pattern = "a".repeat(project_search::GLOB_PATTERN_MAX + 1);
    let err = load_glob_set(&long_pattern).expect_err("too long to compile safely");
    assert_eq!(err.pattern.as_str(), long_pattern.as_str());
    assert!(!err.message.is_empty());

    let just_fits = "a".repeat(project_search::GLOB_PATTERN_MAX);
    let matchers = load_glob_set(&just_fits).expect("at the bound it compiles");
    assert_eq!(matchers.len(), 1);
}
