//! Search options, modes and the input panels of the search bar.

use vstd::prelude::*;

verus! {

/// Which way to move through the match list or the input fields.
#[derive(Clone, Copy, PartialEq, Eq, Structural, Debug)]
pub enum Direction {
    Prev,
    Next,
}

/// The three text inputs of the search bar; validation errors are
/// reported against exactly one of them.
#[derive(Clone, Copy, PartialEq, Eq, Structural, Debug)]
pub enum InputPanel {
    Query,
    Exclude,
    Include,
}

/// How the query text is interpreted.
#[derive(Clone, Copy, PartialEq, Eq, Structural, Debug)]
pub enum SearchMode {
    Text,
    Semantic,
    Regex,
}

impl Default for SearchMode {
    fn default() -> (r: Self)
        ensures
            r == SearchMode::Text,
    {
        SearchMode::Text
    }
}

/// One togglable search option.
#[derive(Clone, Copy, PartialEq, Eq, Structural, Debug)]
pub enum SearchOption {
    CaseSensitive,
    WholeWord,
    Regex,
}

/// An option set with `option` flipped and the others kept.
pub open spec fn spec_toggle(opts: SearchOptions, option: SearchOption) -> SearchOptions {
    match option {
        SearchOption::CaseSensitive => SearchOptions {
            case_sensitive: !opts.case_sensitive,
            ..opts
        },
        SearchOption::WholeWord => SearchOptions { whole_word: !opts.whole_word, ..opts },
        SearchOption::Regex => SearchOptions { regex: !opts.regex, ..opts },
    }
}

/// The set of options currently enabled for the query.
#[derive(Clone, Copy, PartialEq, Eq, Structural, Debug)]
pub struct SearchOptions {
    pub case_sensitive: bool,
    pub whole_word: bool,
    pub regex: bool,
}

impl SearchOptions {
    /// The empty option set.
    pub fn none() -> (r: Self)
        ensures
            !r.case_sensitive,
            !r.whole_word,
            !r.regex,
    {
        SearchOptions { case_sensitive: false, whole_word: false, regex: false }
    }

    /// Whether `option` is enabled in this set.
    pub fn contains(&self, option: SearchOption) -> (r: bool)
        ensures
            r == self.spec_contains(option),
    {
        match option {
            SearchOption::CaseSensitive => self.case_sensitive,
            SearchOption::WholeWord => self.whole_word,
            SearchOption::Regex => self.regex,
        }
    }

    /// Whether `option` is enabled, as a spec-level predicate.
    pub open spec fn spec_contains(self, option: SearchOption) -> bool {
        match option {
            SearchOption::CaseSensitive => self.case_sensitive,
            SearchOption::WholeWord => self.whole_word,
            SearchOption::Regex => self.regex,
        }
    }

    /// Flips `option`, leaving the other options unchanged.
    pub fn toggle(&mut self, option: SearchOption)
        ensures
            *final(self) == spec_toggle(*old(self), option),
    {
        match option {
            SearchOption::CaseSensitive => self.case_sensitive = !self.case_sensitive,
            SearchOption::WholeWord => self.whole_word = !self.whole_word,
            SearchOption::Regex => self.regex = !self.regex,
        }
    }
}

} // verus!
