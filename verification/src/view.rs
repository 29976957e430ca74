//! The search view state machine: the editor texts, the option and
//! error flags, the focus, the active match cursor, and the decisions
//! taken when a search is requested, an option is toggled, or the
//! result set changes.

use vstd::prelude::*;
use vstd::string::StringExecFns;
use crate::globs::load_glob_set;
use crate::globs::segments;
use crate::globs::PathMatcher;
use crate::navigator::active_match_index;
use crate::navigator::match_index_for_direction;
use crate::navigator::starts_at_or_after;
use crate::navigator::strictly_sorted;
use crate::navigator::Location;
use crate::navigator::MatchRange;
use crate::navigator::Point;
use crate::options::Direction;
use crate::options::InputPanel;
use crate::options::SearchMode;
use crate::options::SearchOption;
use crate::options::spec_toggle;
use crate::options::SearchOptions;
use crate::globs::globs_ok;
use crate::orchestrator::spec_issue;
use crate::orchestrator::ProjectSearch;
use crate::orchestrator::SearchModel;
use crate::query::patterns_of;
use crate::query::regex_pattern_ok;
use crate::query::QueryKind;
use crate::query::QueryView;
use crate::query::SearchQuery;

verus! {

/// Which error flags are raised, one per input panel.
#[derive(Clone, Copy, PartialEq, Eq, Structural, Debug)]
pub struct PanelErrors {
    pub query: bool,
    pub included: bool,
    pub excluded: bool,
}

impl PanelErrors {
    /// No panel flagged.
    pub fn none() -> (r: Self)
        ensures
            !r.query,
            !r.included,
            !r.excluded,
    {
        PanelErrors { query: false, included: false, excluded: false }
    }

    /// Whether `panel` is flagged.
    pub fn contains(&self, panel: InputPanel) -> (r: bool)
        ensures
            r == self.spec_contains(panel),
    {
        match panel {
            InputPanel::Query => self.query,
            InputPanel::Include => self.included,
            InputPanel::Exclude => self.excluded,
        }
    }

    /// Whether `panel` is flagged, as a spec-level predicate.
    pub open spec fn spec_contains(self, panel: InputPanel) -> bool {
        match panel {
            InputPanel::Query => self.query,
            InputPanel::Include => self.included,
            InputPanel::Exclude => self.excluded,
        }
    }
}

/// Where keyboard input goes.
#[derive(Clone, Copy, PartialEq, Eq, Structural, Debug)]
pub enum FocusTarget {
    Panel(InputPanel),
    Results,
}

/// The progress of building the semantic index: how many files the
/// index covers and how many are still outstanding.
#[derive(Clone, Copy, PartialEq, Eq, Structural, Debug)]
pub struct SemanticSearchState {
    pub file_count: u64,
    pub outstanding_file_count: u64,
}

/// At most this many results a semantic search asks the engine for.
pub const SEMANTIC_SEARCH_LIMIT: usize = 10;

/// What the caller must run after a search was issued: the engine
/// call, tagged with the generation it belongs to.
pub enum SearchDispatch {
    Text { generation: u64, query: SearchQuery },
    Semantic {
        generation: u64,
        query_text: String,
        limit: usize,
        files_to_include: Vec<PathMatcher>,
        files_to_exclude: Vec<PathMatcher>,
    },
}

/// Whether both filter lists of a view compile.
pub open spec fn filters_valid(v: ProjectSearchView) -> bool {
    globs_ok(v.included_text@) && globs_ok(v.excluded_text@)
}

/// Whether the view describes a valid query: both filter lists
/// compile, and with the regex option set the query text does too.
pub open spec fn query_valid(v: ProjectSearchView) -> bool {
    filters_valid(v) && (v.search_options.regex ==> regex_pattern_ok(v.query_text@))
}

/// The query a view's texts and options describe.
pub open spec fn built_query_view(v: ProjectSearchView) -> QueryView {
    QueryView {
        kind: if v.search_options.regex {
            QueryKind::Regex
        } else {
            QueryKind::Text
        },
        text: v.query_text@,
        whole_word: v.search_options.whole_word,
        case_sensitive: v.search_options.case_sensitive,
        included: segments(v.included_text@),
        excluded: segments(v.excluded_text@),
    }
}

/// The input panel the focus moves to from `panel`: query, include
/// and exclude inputs form a cycle.
pub open spec fn cycled_panel(panel: InputPanel, direction: Direction) -> InputPanel {
    match direction {
        Direction::Next => match panel {
            InputPanel::Query => InputPanel::Include,
            InputPanel::Include => InputPanel::Exclude,
            InputPanel::Exclude => InputPanel::Query,
        },
        Direction::Prev => match panel {
            InputPanel::Query => InputPanel::Exclude,
            InputPanel::Include => InputPanel::Query,
            InputPanel::Exclude => InputPanel::Include,
        },
    }
}

/// The state of one project search view.
pub struct ProjectSearchView {
    pub model: ProjectSearch,
    pub query_text: String,
    pub included_text: String,
    pub excluded_text: String,
    pub search_options: SearchOptions,
    pub panels_with_errors: PanelErrors,
    pub active_match_index: Option<usize>,
    pub search_id: u64,
    pub query_editor_was_focused: bool,
    pub focus: FocusTarget,
    pub filters_enabled: bool,
    pub current_mode: SearchMode,
    pub semantic: Option<SemanticSearchState>,
    pub cursor: Location,
    pub selected_range: Option<MatchRange>,
}

impl ProjectSearchView {
    /// A fresh view over a search model.  The query text and options
    /// are seeded from the model's active query, everything else
    /// starts clean, and the match state is brought in line with the
    /// model.
    pub fn new(model: ProjectSearch) -> (r: Self)
        ensures
            r.model == model,
            model@.active_query is Some ==> r.query_text@ == model@.active_query->Some_0.text
                && r.search_options == (SearchOptions {
                case_sensitive: model@.active_query->Some_0.case_sensitive,
                whole_word: model@.active_query->Some_0.whole_word,
                regex: model@.active_query->Some_0.kind == QueryKind::Regex,
            }),
            model@.active_query is None ==> r.query_text@ == Seq::<char>::empty()
                && r.search_options == (SearchOptions {
                case_sensitive: false,
                whole_word: false,
                regex: false,
            }),
            r.included_text@ == Seq::<char>::empty(),
            r.excluded_text@ == Seq::<char>::empty(),
            r.panels_with_errors == (PanelErrors { query: false, included: false, excluded: false }),
            r.search_id == model@.search_id,
            !r.query_editor_was_focused,
            r.focus == FocusTarget::Panel(InputPanel::Query),
            !r.filters_enabled,
            r.current_mode == SearchMode::Text,
            r.semantic is None,
            (r.active_match_index is None) <==> model@.match_ranges.len() == 0,
            r.active_match_index is Some ==> r.active_match_index->Some_0
                < model@.match_ranges.len(),
            r.selected_range is None,
    {
        let mut query_text = String::new();
        let mut options = SearchOptions::none();
        match model.active_query() {
            Some(active_query) => {
                query_text = active_query.as_str().to_owned();
                options = SearchOptions::from_query(active_query);
            },
            None => {},
        }
        let search_id = model.search_id();
        let mut this = ProjectSearchView {
            model,
            query_text,
            included_text: String::new(),
            excluded_text: String::new(),
            search_options: options,
            panels_with_errors: PanelErrors::none(),
            active_match_index: None,
            search_id,
            query_editor_was_focused: false,
            focus: FocusTarget::Panel(InputPanel::Query),
            filters_enabled: false,
            current_mode: SearchMode::Text,
            semantic: None,
            cursor: Location { doc: 0, pos: Point { row: 0, column: 0 } },
            selected_range: None,
        };
        this.model_changed();
        this
    }

    /// Builds the query the view describes and hands back a fresh
    /// search over the same project, already searching for it; the
    /// current view gets the previously active query text and options
    /// back, as when a search is forked into a new tab.  With an
    /// invalid query nothing is created and the faulty panels are
    /// flagged.
    pub fn search_in_new(&mut self) -> (r: Option<ProjectSearch>)
        ensures
            *final(self) == (ProjectSearchView {
                panels_with_errors: final(self).panels_with_errors,
                query_text: final(self).query_text,
                search_options: final(self).search_options,
                ..*old(self)
            }),
            final(self).model == old(self).model,
            !query_valid(*old(self)) ==> r is None && final(self).query_text == old(
                self,
            ).query_text && final(self).search_options == old(self).search_options,
            query_valid(*old(self)) ==> r is Some && r->Some_0@ == spec_issue(
                (SearchModel {
                    project: old(self).model@.project,
                    active_query: None,
                    search_id: 0,
                    match_ranges: Seq::<MatchRange>::empty(),
                    excerpts: Seq::<crate::excerpts::Excerpt>::empty(),
                    pending_search: false,
                }),
                Some(built_query_view(*old(self))),
            ),
            query_valid(*old(self)) && old(self).model@.active_query is Some ==> final(self).query_text@ == old(self).model@.active_query->Some_0.text && final(self).search_options == (SearchOptions {
                case_sensitive: old(self).model@.active_query->Some_0.case_sensitive,
                whole_word: old(self).model@.active_query->Some_0.whole_word,
                regex: old(self).model@.active_query->Some_0.kind == QueryKind::Regex,
            }),
            query_valid(*old(self)) && old(self).model@.active_query is None ==> final(self).query_text == old(self).query_text && final(self).search_options == old(
                self,
            ).search_options,
    {
        match self.build_search_query() {
            Some(new_query) => {
                match self.model.active_query() {
                    Some(old_query) => {
                        let restored_text = old_query.as_str().to_owned();
                        let restored_options = SearchOptions::from_query(old_query);
                        self.query_text = restored_text;
                        self.search_options = restored_options;
                    },
                    None => {},
                }
                let mut new_model = ProjectSearch::new(self.model.project());
                new_model.search(new_query);
                Some(new_model)
            },
            None => None,
        }
    }

    /// A fresh search view over one directory: its include filter is
    /// seeded with the directory path followed by a recursive glob,
    /// and the query editor has focus.  Anything but a directory
    /// yields nothing.
    pub fn new_search_in_directory(project: u64, dir_path: &str, is_dir: bool) -> (r: Option<Self>)
        ensures
            !is_dir ==> r is None,
            is_dir ==> r is Some && r->Some_0.included_text@ == dir_path@ + "/**"@
                && r->Some_0.model@ == (SearchModel {
                project,
                active_query: None,
                search_id: 0,
                match_ranges: Seq::<MatchRange>::empty(),
                excerpts: Seq::<crate::excerpts::Excerpt>::empty(),
                pending_search: false,
            }) && r->Some_0.focus == FocusTarget::Panel(InputPanel::Query)
                && r->Some_0.query_editor_was_focused && r->Some_0.excluded_text@
                == Seq::<char>::empty() && r->Some_0.query_text@ == Seq::<char>::empty()
                && r->Some_0.current_mode == SearchMode::Text && r->Some_0.semantic is None
                && r->Some_0.panels_with_errors == (PanelErrors {
                query: false,
                included: false,
                excluded: false,
            }) && r->Some_0.active_match_index is None && !r->Some_0.filters_enabled,
    {
        if !is_dir {
            return None;
        }
        let mut filter = dir_path.to_owned();
        filter.append("/**");
        let mut view = Self::new(ProjectSearch::new(project));
        view.included_text = filter;
        view.focus_query_editor();
        Some(view)
    }

    /// Whether any match is active.
    pub fn has_matches(&self) -> (r: bool)
        ensures
            r == (self.active_match_index is Some),
    {
        self.active_match_index.is_some()
    }

    /// How many toolbar rows the view needs: one, or two with the
    /// filter inputs shown.
    pub fn row_count(&self) -> (r: usize)
        ensures
            r == 1 + if self.filters_enabled {
                1int
            } else {
                0int
            },
    {
        if self.filters_enabled {
            2
        } else {
            1
        }
    }

    /// Whether `option` is enabled for this view.
    pub fn is_option_enabled(&self, option: SearchOption) -> (r: bool)
        ensures
            r == self.search_options.spec_contains(option),
    {
        self.search_options.contains(option)
    }

    /// Replaces the query text, as when a search is reopened with a
    /// suggested seed.
    pub fn set_query(&mut self, query: &str)
        ensures
            *final(self) == (ProjectSearchView { query_text: final(self).query_text, ..*old(self) }),
            final(self).query_text@ == query@,
    {
        self.query_text = query.to_owned();
    }

    /// Moves focus into the query editor.
    pub fn focus_query_editor(&mut self)
        ensures
            *final(self) == (ProjectSearchView {
                focus: FocusTarget::Panel(InputPanel::Query),
                query_editor_was_focused: true,
                ..*old(self)
            }),
    {
        self.query_editor_was_focused = true;
        self.focus = FocusTarget::Panel(InputPanel::Query);
    }

    /// Moves focus into the results editor.
    pub fn focus_results_editor(&mut self)
        ensures
            *final(self) == (ProjectSearchView {
                focus: FocusTarget::Results,
                query_editor_was_focused: false,
                ..*old(self)
            }),
    {
        self.query_editor_was_focused = false;
        self.focus = FocusTarget::Results;
    }

    /// Restores focus when the view regains it: the query editor if
    /// it held focus last, else the results.
    pub fn focus_in(&mut self)
        ensures
            old(self).query_editor_was_focused ==> *final(self) == (ProjectSearchView {
                focus: FocusTarget::Panel(InputPanel::Query),
                query_editor_was_focused: true,
                ..*old(self)
            }),
            !old(self).query_editor_was_focused ==> *final(self) == (ProjectSearchView {
                focus: FocusTarget::Results,
                query_editor_was_focused: false,
                ..*old(self)
            }),
    {
        if self.query_editor_was_focused {
            self.focus_query_editor();
        } else {
            self.focus_results_editor();
        }
    }

    /// Moves focus to the results if there are any and they are not
    /// focused yet; says whether it did.
    pub fn move_focus_to_results(&mut self) -> (r: bool)
        ensures
            r == (old(self).focus != FocusTarget::Results && old(
                self,
            ).model@.match_ranges.len() > 0),
            r ==> *final(self) == (ProjectSearchView {
                focus: FocusTarget::Results,
                query_editor_was_focused: false,
                ..*old(self)
            }),
            !r ==> *final(self) == *old(self),
    {
        if !matches!(self.focus, FocusTarget::Results) && self.model.match_count() > 0 {
            self.focus_results_editor();
            true
        } else {
            false
        }
    }

    /// Cycles focus through the query, include and exclude inputs.
    /// Does nothing when none of them is focused; says whether it
    /// moved.
    pub fn cycle_field(&mut self, direction: Direction) -> (r: bool)
        ensures
            r == (old(self).focus is Panel),
            !r ==> *final(self) == *old(self),
            r ==> *final(self) == (ProjectSearchView {
                focus: FocusTarget::Panel(
                    cycled_panel(old(self).focus->Panel_0, direction),
                ),
                ..*old(self)
            }),
    {
        let panel = match self.focus {
            FocusTarget::Panel(p) => p,
            FocusTarget::Results => {
                return false;
            },
        };
        let next = match direction {
            Direction::Next => match panel {
                InputPanel::Query => InputPanel::Include,
                InputPanel::Include => InputPanel::Exclude,
                InputPanel::Exclude => InputPanel::Query,
            },
            Direction::Prev => match panel {
                InputPanel::Query => InputPanel::Exclude,
                InputPanel::Include => InputPanel::Query,
                InputPanel::Exclude => InputPanel::Include,
            },
        };
        self.focus = FocusTarget::Panel(next);
        true
    }

    /// Recomputes the active match from the cursor: the first match at
    /// or after it, wrapping to the first match when the cursor is
    /// past every match, `None` without matches.
    pub fn update_match_index(&mut self)
        ensures
            *final(self) == (ProjectSearchView {
                active_match_index: final(self).active_match_index,
                ..*old(self)
            }),
            (final(self).active_match_index is None) <==> old(self).model@.match_ranges.len() == 0,
            final(self).active_match_index is Some ==> final(self).active_match_index->Some_0 < old(
                self,
            ).model@.match_ranges.len(),
            final(self).active_match_index is Some && starts_at_or_after(
                old(self).model@.match_ranges[final(self).active_match_index->Some_0 as int],
                old(self).cursor,
            ) ==> (forall|j: int|
                0 <= j < final(self).active_match_index->Some_0 ==> !starts_at_or_after(
                    old(self).model@.match_ranges[j],
                    old(self).cursor,
                )),
            final(self).active_match_index is Some && !starts_at_or_after(
                old(self).model@.match_ranges[final(self).active_match_index->Some_0 as int],
                old(self).cursor,
            ) ==> final(self).active_match_index->Some_0 == 0 && (forall|j: int|
                0 <= j < old(self).model@.match_ranges.len() ==> !starts_at_or_after(
                    old(self).model@.match_ranges[j],
                    old(self).cursor,
                )),
    {
        let new_index = active_match_index(self.model.match_ranges(), &self.cursor);
        self.active_match_index = new_index;
    }

    /// Recomputes the view state after the result set changed: the
    /// active match follows the cursor, and on the first change of a
    /// new search generation the first match is selected and focus
    /// moves from the query editor to the results.
    pub fn model_changed(&mut self)
        ensures
            *final(self) == (ProjectSearchView {
                active_match_index: final(self).active_match_index,
                search_id: final(self).search_id,
                cursor: final(self).cursor,
                selected_range: final(self).selected_range,
                focus: final(self).focus,
                query_editor_was_focused: final(self).query_editor_was_focused,
                ..*old(self)
            }),
            old(self).model@.match_ranges.len() == 0 ==> *final(self) == (ProjectSearchView {
                active_match_index: None,
                ..*old(self)
            }),
            old(self).model@.match_ranges.len() > 0 ==> final(self).search_id == old(
                self,
            ).model@.search_id && final(self).active_match_index is Some && final(self).active_match_index->Some_0 < old(self).model@.match_ranges.len(),
            old(self).model@.match_ranges.len() > 0 && old(self).search_id == old(
                self,
            ).model@.search_id ==> {
                let matches = old(self).model@.match_ranges;
                let idx = final(self).active_match_index->Some_0 as int;
                &&& final(self).cursor == old(self).cursor
                &&& final(self).selected_range == old(self).selected_range
                &&& final(self).focus == old(self).focus
                &&& final(self).query_editor_was_focused == old(self).query_editor_was_focused
                &&& (starts_at_or_after(matches[idx], old(self).cursor) ==> (forall|j: int|
                    0 <= j < idx ==> !starts_at_or_after(matches[j], old(self).cursor)))
                &&& (!starts_at_or_after(matches[idx], old(self).cursor) ==> idx == 0 && (
                forall|j: int|
                    0 <= j < matches.len() ==> !starts_at_or_after(matches[j], old(self).cursor)))
            },
            old(self).model@.match_ranges.len() > 0 && old(self).search_id != old(
                self,
            ).model@.search_id ==> {
                let first = old(self).model@.match_ranges[0];
                &&& final(self).cursor == (Location { doc: first.doc, pos: first.start })
                &&& final(self).selected_range == Some(first)
                &&& final(self).active_match_index == Some(0usize)
                &&& (old(self).focus == FocusTarget::Panel(InputPanel::Query) ==> final(self).focus == FocusTarget::Results)
                &&& (old(self).focus != FocusTarget::Panel(InputPanel::Query) ==> final(self).focus == old(self).focus)
            },
    {
        if self.model.match_count() == 0 {
            self.active_match_index = None;
        } else {
            self.active_match_index = Some(0);
            self.update_match_index();
            let prev_search_id = self.search_id;
            self.search_id = self.model.search_id();
            let is_new_search = self.search_id != prev_search_id;
            if is_new_search {
                let first = self.model.match_ranges()[0];
                self.cursor = Location { doc: first.doc, pos: first.start };
                self.selected_range = Some(first);
                self.update_match_index();
                proof {
                    // The cursor sits on match 0's start, which
                    // therefore starts at the cursor; the first such
                    // match is match 0 itself.
                    let matches = self.model@.match_ranges;
                    assert(self.cursor == matches[0].spec_start());
                    assert(starts_at_or_after(matches[0], self.cursor));
                    let idx = self.active_match_index->Some_0 as int;
                    if !starts_at_or_after(matches[idx], self.cursor) {
                        assert(!starts_at_or_after(matches[0], self.cursor));
                    }
                    if idx > 0 {
                        assert(!starts_at_or_after(matches[0], self.cursor));
                    }
                    assert(self.active_match_index == Some(0usize));
                }
                if matches!(self.focus, FocusTarget::Panel(InputPanel::Query)) {
                    self.focus_results_editor();
                }
            }
        }
    }

    /// Selects the next or previous match with wraparound: the cursor
    /// and selection move to it and the active match follows.  Without
    /// a valid active match nothing happens.
    pub fn select_match(&mut self, direction: Direction)
        ensures
            (old(self).active_match_index is None || old(self).active_match_index->Some_0 >= old(
                self,
            ).model@.match_ranges.len()) ==> *final(self) == *old(self),
            old(self).active_match_index is Some && old(self).active_match_index->Some_0 < old(
                self,
            ).model@.match_ranges.len() ==> {
                let matches = old(self).model@.match_ranges;
                let n = matches.len();
                let target_index = if direction == Direction::Next {
                    crate::navigator::next_index(n, old(self).active_match_index->Some_0 as nat) as int
                } else {
                    crate::navigator::prev_index(n, old(self).active_match_index->Some_0 as nat) as int
                };
                let target = matches[target_index];
                let new_cursor = Location { doc: target.doc, pos: target.start };
                let idx = final(self).active_match_index->Some_0 as int;
                &&& *final(self) == (ProjectSearchView {
                    active_match_index: final(self).active_match_index,
                    cursor: new_cursor,
                    selected_range: Some(target),
                    ..*old(self)
                })
                &&& final(self).active_match_index is Some
                &&& idx < n
                &&& (starts_at_or_after(matches[idx], new_cursor) ==> (forall|j: int|
                    0 <= j < idx ==> !starts_at_or_after(matches[j], new_cursor)))
                &&& (!starts_at_or_after(matches[idx], new_cursor) ==> idx == 0 && (forall|j: int|
                    0 <= j < n ==> !starts_at_or_after(matches[j], new_cursor)))
                &&& (strictly_sorted(matches) ==> final(self).active_match_index == Some(
                    target_index as usize,
                ))
            },
    {
        if let Some(index) = self.active_match_index {
            let n = self.model.match_count();
            if index < n {
                let new_index = match_index_for_direction(n, index, direction);
                let target = self.model.match_ranges()[new_index];
                self.cursor = Location { doc: target.doc, pos: target.start };
                self.selected_range = Some(target);
                self.update_match_index();
                proof {
                    let matches = self.model@.match_ranges;
                    let c = self.cursor;
                    assert(c == matches[new_index as int].spec_start());
                    assert(starts_at_or_after(matches[new_index as int], c));
                    if strictly_sorted(matches) {
                        let idx = self.active_match_index->Some_0 as int;
                        if !starts_at_or_after(matches[idx], c) {
                            // Then nothing starts at or after the
                            // cursor — but the target itself does.
                            assert(!starts_at_or_after(matches[new_index as int], c));
                        }
                        if idx < new_index {
                            // An earlier match starts strictly before
                            // the target, so not at or after the
                            // cursor; minimality is contradicted.
                            let a = matches[idx].spec_start();
                            assert(a.spec_le(c) && a != c);
                            if starts_at_or_after(matches[idx], c) {
                                assert(a.doc == c.doc);
                                assert(a.pos.row == c.pos.row);
                                assert(a.pos.column == c.pos.column);
                                assert(a == c);
                            }
                            assert(!starts_at_or_after(matches[idx], c));
                        }
                        if idx > new_index {
                            // Minimality of idx would exclude the
                            // target, which does start at the cursor.
                            assert(!starts_at_or_after(matches[new_index as int], c));
                        }
                        assert(self.active_match_index == Some(new_index));
                    }
                }
            }
        }
    }

    /// Compiles both filter lists and reports each against its own
    /// panel: a failure in one list does not block the other, and a
    /// previously raised flag is cleared once its list compiles again.
    /// The query panel is left alone.
    pub fn get_included_and_excluded_globsets(&mut self) -> (r: Option<
        (Vec<PathMatcher>, Vec<PathMatcher>),
    >)
        ensures
            *final(self) == (ProjectSearchView {
                panels_with_errors: final(self).panels_with_errors,
                ..*old(self)
            }),
            final(self).panels_with_errors == (PanelErrors {
                included: !globs_ok(old(self).included_text@),
                excluded: !globs_ok(old(self).excluded_text@),
                ..old(self).panels_with_errors
            }),
            r is Some <==> globs_ok(old(self).included_text@) && globs_ok(
                old(self).excluded_text@,
            ),
            r is Some ==> patterns_of(r->Some_0.0@) == segments(old(self).included_text@)
                && patterns_of(r->Some_0.1@) == segments(old(self).excluded_text@),
    {
        let included = load_glob_set(self.included_text.as_str());
        let excluded = load_glob_set(self.excluded_text.as_str());
        self.panels_with_errors.included = included.is_err();
        self.panels_with_errors.excluded = excluded.is_err();
        match (included, excluded) {
            (Ok(included_files), Ok(excluded_files)) => {
                proof {
                    assert(patterns_of(included_files@) =~= segments(old(self).included_text@));
                    assert(patterns_of(excluded_files@) =~= segments(old(self).excluded_text@));
                }
                Some((included_files, excluded_files))
            },
            _ => None,
        }
    }

    /// Builds the query the view describes: the query text under the
    /// current options, with both filter lists compiled.  Filter
    /// failures are flagged per panel; with the regex option set, a
    /// query text that does not compile flags the query panel and
    /// yields nothing, so no partial query ever leaves this function.
    pub fn build_search_query(&mut self) -> (r: Option<SearchQuery>)
        ensures
            *final(self) == (ProjectSearchView {
                panels_with_errors: final(self).panels_with_errors,
                ..*old(self)
            }),
            final(self).panels_with_errors.included == !globs_ok(old(self).included_text@),
            final(self).panels_with_errors.excluded == !globs_ok(old(self).excluded_text@),
            filters_valid(*old(self)) && old(self).search_options.regex ==> final(self).panels_with_errors.query == !regex_pattern_ok(old(self).query_text@),
            !(filters_valid(*old(self)) && old(self).search_options.regex) ==> final(self).panels_with_errors.query == old(self).panels_with_errors.query,
            r is Some <==> query_valid(*old(self)),
            r is Some ==> r->Some_0@ == built_query_view(*old(self)),
    {
        let query = self.query_text.clone();
        let whole_word = self.search_options.whole_word;
        let case_sensitive = self.search_options.case_sensitive;
        match self.get_included_and_excluded_globsets() {
            Some((included_files, excluded_files)) => {
                if self.search_options.regex {
                    match SearchQuery::regex(
                        query,
                        whole_word,
                        case_sensitive,
                        included_files,
                        excluded_files,
                    ) {
                        Ok(built) => {
                            self.panels_with_errors.query = false;
                            Some(built)
                        },
                        Err(_) => {
                            self.panels_with_errors.query = true;
                            None
                        },
                    }
                } else {
                    Some(
                        SearchQuery::text(
                            query,
                            whole_word,
                            case_sensitive,
                            included_files,
                            excluded_files,
                        ),
                    )
                }
            },
            None => None,
        }
    }

    /// Requests the search the view describes.  While semantic
    /// indexing is outstanding this is a no-op.  Otherwise the query
    /// is validated; when it is valid the orchestrator supersedes any
    /// search in flight and the returned dispatch tells the caller
    /// which engine to run under which generation.  When it is not,
    /// the faulty panels are flagged and the orchestrator state —
    /// the previously active query included — stays untouched.
    pub fn search(&mut self) -> (r: Option<SearchDispatch>)
        requires
            old(self).model@.search_id < u64::MAX,
        ensures
            old(self).semantic is Some && old(self).semantic->Some_0.outstanding_file_count > 0
                ==> r is None && *final(self) == *old(self),
            old(self).semantic is Some && old(self).semantic->Some_0.outstanding_file_count == 0
                ==> {
                &&& *final(self) == (ProjectSearchView {
                    panels_with_errors: final(self).panels_with_errors,
                    model: final(self).model,
                    ..*old(self)
                })
                &&& final(self).panels_with_errors == (PanelErrors {
                    included: !globs_ok(old(self).included_text@),
                    excluded: !globs_ok(old(self).excluded_text@),
                    ..old(self).panels_with_errors
                })
                &&& (filters_valid(*old(self)) ==> (r matches Some(
                    SearchDispatch::Semantic {
                        generation,
                        query_text,
                        limit,
                        files_to_include,
                        files_to_exclude,
                    },
                ) && generation == old(self).model@.search_id + 1 && query_text@ == old(
                    self,
                ).query_text@ && limit == SEMANTIC_SEARCH_LIMIT && patterns_of(
                    files_to_include@,
                ) == segments(old(self).included_text@) && patterns_of(files_to_exclude@)
                    == segments(old(self).excluded_text@)) && final(self).model@ == spec_issue(
                    old(self).model@,
                    None,
                ))
                &&& (!filters_valid(*old(self)) ==> r is None && final(self).model == old(
                    self,
                ).model)
            },
            old(self).semantic is None ==> {
                &&& *final(self) == (ProjectSearchView {
                    panels_with_errors: final(self).panels_with_errors,
                    model: final(self).model,
                    ..*old(self)
                })
                &&& (query_valid(*old(self)) ==> (r matches Some(
                    SearchDispatch::Text { generation, query },
                ) && generation == old(self).model@.search_id + 1 && query@ == built_query_view(
                    *old(self),
                )) && final(self).model@ == spec_issue(
                    old(self).model@,
                    Some(built_query_view(*old(self))),
                ))
                &&& (!query_valid(*old(self)) ==> r is None && final(self).model == old(
                    self,
                ).model)
                &&& final(self).panels_with_errors.included == !globs_ok(
                    old(self).included_text@,
                )
                &&& final(self).panels_with_errors.excluded == !globs_ok(
                    old(self).excluded_text@,
                )
                &&& (filters_valid(*old(self)) && old(self).search_options.regex ==> final(self).panels_with_errors.query == !regex_pattern_ok(old(self).query_text@))
                &&& (!(filters_valid(*old(self)) && old(self).search_options.regex) ==> final(self).panels_with_errors.query == old(self).panels_with_errors.query)
            },
    {
        if let Some(semantic) = self.semantic {
            if semantic.outstanding_file_count > 0 {
                return None;
            }
            let query_text = self.query_text.clone();
            match self.get_included_and_excluded_globsets() {
                Some((files_to_include, files_to_exclude)) => {
                    self.model.semantic_search();
                    Some(
                        SearchDispatch::Semantic {
                            generation: self.model.search_id(),
                            query_text,
                            limit: SEMANTIC_SEARCH_LIMIT,
                            files_to_include,
                            files_to_exclude,
                        },
                    )
                },
                None => None,
            }
        } else {
            match self.build_search_query() {
                Some(built) => {
                    let dispatched = built.duplicate();
                    self.model.search(built);
                    Some(
                        SearchDispatch::Text {
                            generation: self.model.search_id(),
                            query: dispatched,
                        },
                    )
                },
                None => None,
            }
        }
    }

    /// Toggles one search option and searches again under the new
    /// options.  Toggling the regex option switches the view to regex
    /// mode, and any semantic state is torn down.
    pub fn toggle_search_option(&mut self, option: SearchOption) -> (r: Option<SearchDispatch>)
        requires
            old(self).model@.search_id < u64::MAX,
        ensures
            *final(self) == (ProjectSearchView {
                search_options: spec_toggle(old(self).search_options, option),
                current_mode: if option == SearchOption::Regex {
                    SearchMode::Regex
                } else {
                    old(self).current_mode
                },
                semantic: None,
                panels_with_errors: final(self).panels_with_errors,
                model: final(self).model,
                ..*old(self)
            }),
            ({
                let mid = ProjectSearchView {
                    search_options: spec_toggle(old(self).search_options, option),
                    current_mode: if option == SearchOption::Regex {
                        SearchMode::Regex
                    } else {
                        old(self).current_mode
                    },
                    semantic: None,
                    ..*old(self)
                };
                &&& (query_valid(mid) ==> (r matches Some(SearchDispatch::Text { generation, query })
                    && generation == old(self).model@.search_id + 1 && query@ == built_query_view(
                    mid,
                )) && final(self).model@ == spec_issue(
                    old(self).model@,
                    Some(built_query_view(mid)),
                ))
                &&& (!query_valid(mid) ==> r is None && final(self).model == old(self).model)
            }),
    {
        self.search_options.toggle(option);
        if matches!(option, SearchOption::Regex) {
            self.current_mode = SearchMode::Regex;
        }
        self.semantic = None;
        self.search()
    }

    /// Shows or hides the filter inputs and searches again; any
    /// semantic state is torn down.
    pub fn toggle_filters(&mut self) -> (r: Option<SearchDispatch>)
        requires
            old(self).model@.search_id < u64::MAX,
        ensures
            *final(self) == (ProjectSearchView {
                filters_enabled: !old(self).filters_enabled,
                semantic: None,
                panels_with_errors: final(self).panels_with_errors,
                model: final(self).model,
                ..*old(self)
            }),
            query_valid(*old(self)) ==> (r matches Some(SearchDispatch::Text { generation, query })
                && generation == old(self).model@.search_id + 1 && query@ == built_query_view(
                *old(self),
            )) && final(self).model@ == spec_issue(
                old(self).model@,
                Some(built_query_view(*old(self))),
            ),
            !query_valid(*old(self)) ==> r is None && final(self).model == old(self).model,
    {
        self.filters_enabled = !self.filters_enabled;
        self.semantic = None;
        let r = self.search();
        proof {
            assert(built_query_view(*self) == built_query_view(*old(self)));
        }
        r
    }

    /// Turns semantic mode off when it is on; otherwise, where a
    /// semantic index is available, switches to semantic mode with a
    /// clean option set.  Says whether the caller must start indexing
    /// the project.
    pub fn toggle_semantic_search(&mut self, semantic_available: bool) -> (r: bool)
        ensures
            old(self).semantic is Some ==> !r && *final(self) == (ProjectSearchView {
                semantic: None,
                ..*old(self)
            }),
            old(self).semantic is None && semantic_available ==> r && *final(self) == (
            ProjectSearchView {
                current_mode: SearchMode::Semantic,
                search_options: (SearchOptions {
                    case_sensitive: false,
                    whole_word: false,
                    regex: false,
                }),
                ..*old(self)
            }),
            old(self).semantic is None && !semantic_available ==> !r && *final(self) == *old(
                self,
            ),
    {
        if self.semantic.is_some() {
            self.semantic = None;
            false
        } else if semantic_available {
            self.current_mode = SearchMode::Semantic;
            self.search_options = SearchOptions::none();
            true
        } else {
            false
        }
    }

    /// Records that indexing the project has started and how many
    /// files it covers; all of them are outstanding at first.
    pub fn semantic_index_started(&mut self, files_to_index: u64)
        ensures
            *final(self) == (ProjectSearchView {
                semantic: Some(
                    SemanticSearchState {
                        file_count: files_to_index,
                        outstanding_file_count: files_to_index,
                    },
                ),
                ..*old(self)
            }),
    {
        self.semantic = Some(
            SemanticSearchState {
                file_count: files_to_index,
                outstanding_file_count: files_to_index,
            },
        );
    }

    /// Records a progress report from the indexer: `remaining` files
    /// are still outstanding.  Ignored once semantic mode was torn
    /// down.
    pub fn semantic_index_progress(&mut self, remaining: u64)
        ensures
            old(self).semantic is None ==> *final(self) == *old(self),
            old(self).semantic is Some ==> *final(self) == (ProjectSearchView {
                semantic: Some(
                    SemanticSearchState {
                        file_count: old(self).semantic->Some_0.file_count,
                        outstanding_file_count: remaining,
                    },
                ),
                ..*old(self)
            }),
    {
        if let Some(semantic) = self.semantic {
            self.semantic = Some(
                SemanticSearchState {
                    file_count: semantic.file_count,
                    outstanding_file_count: remaining,
                },
            );
        }
    }

    /// The live count of files the indexer has yet to cover: zero
    /// once indexing is complete, nothing while no tracker exists.
    pub fn outstanding(&self) -> (r: Option<u64>)
        ensures
            (r is Some) <==> self.semantic is Some,
            r is Some ==> r->Some_0 == self.semantic->Some_0.outstanding_file_count,
    {
        match &self.semantic {
            Some(semantic) => Some(semantic.outstanding_file_count),
            None => None,
        }
    }

    /// Cycles the search mode: text to semantic where a semantic index
    /// is available (else to regex), semantic to regex, regex back to
    /// text.
    pub fn cycle_mode(&mut self, semantic_enabled: bool)
        ensures
            *final(self) == (ProjectSearchView { current_mode: final(self).current_mode, ..*old(
                self,
            ) }),
            final(self).current_mode == match old(self).current_mode {
                SearchMode::Text => if semantic_enabled {
                    SearchMode::Semantic
                } else {
                    SearchMode::Regex
                },
                SearchMode::Semantic => SearchMode::Regex,
                SearchMode::Regex => SearchMode::Text,
            },
    {
        self.current_mode = match self.current_mode {
            SearchMode::Text => if semantic_enabled {
                SearchMode::Semantic
            } else {
                SearchMode::Regex
            },
            SearchMode::Semantic => SearchMode::Regex,
            SearchMode::Regex => SearchMode::Text,
        };
    }
}

} // verus!
