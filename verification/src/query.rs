//! Structured search queries: validated text or regex queries together
//! with their compiled include/exclude path filters.

use vstd::prelude::*;
use crate::globs::globs_ok;
use crate::globs::load_glob_set;
use crate::globs::segments;
use crate::globs::PathMatcher;
use crate::options::InputPanel;
use crate::options::SearchOptions;

verus! {

/// Whether `pattern` is a well-formed regular expression.  The regex
/// compiler decides this from the pattern text alone.
pub uninterp spec fn regex_pattern_ok(pattern: Seq<char>) -> bool;

/// Relies on regex::Regex::new, which compiles the pattern with default
/// options and fails exactly on malformed patterns.  The error is
/// handed back as its display text.
#[verifier::external_body]
fn check_regex(pattern: &str) -> (r: Result<(), String>)
    ensures
        r is Ok <==> regex_pattern_ok(pattern@),
{
    match regex::Regex::new(pattern) {
        Ok(_) => Ok(()),
        Err(e) => Err(e.to_string()),
    }
}

/// How the query text is matched: literally or as a regex.
#[derive(Clone, Copy, PartialEq, Eq, Structural, Debug)]
pub enum QueryKind {
    Text,
    Regex,
}

/// A validation failure, tagged with the input panel it belongs to.
#[derive(Debug)]
pub struct FieldError {
    pub panel: InputPanel,
    pub message: String,
}

/// The mathematical content of a query: every field as a plain value.
#[verifier::ext_equal]
pub struct QueryView {
    pub kind: QueryKind,
    pub text: Seq<char>,
    pub whole_word: bool,
    pub case_sensitive: bool,
    pub included: Seq<Seq<char>>,
    pub excluded: Seq<Seq<char>>,
}

/// A validated query: the raw text, the match options, and the
/// compiled path filters.  A regex query only exists with text that
/// compiled successfully.
#[derive(Debug)]
pub struct SearchQuery {
    kind: QueryKind,
    query: String,
    whole_word: bool,
    case_sensitive: bool,
    files_to_include: Vec<PathMatcher>,
    files_to_exclude: Vec<PathMatcher>,
}

/// The patterns of a compiled filter list, in order.
pub open spec fn patterns_of(matchers: Seq<PathMatcher>) -> Seq<Seq<char>> {
    Seq::new(matchers.len(), |i: int| matchers[i]@)
}

impl View for SearchQuery {
    type V = QueryView;

    closed spec fn view(&self) -> QueryView {
        QueryView {
            kind: self.kind,
            text: self.query@,
            whole_word: self.whole_word,
            case_sensitive: self.case_sensitive,
            included: patterns_of(self.files_to_include@),
            excluded: patterns_of(self.files_to_exclude@),
        }
    }
}

impl SearchQuery {
    /// Builds a fully validated query from raw inputs: the query text
    /// under the given options, with both pattern lists compiled.  On
    /// success every part of the query is in place; on failure nothing
    /// is, and the error names the input at fault — the include list,
    /// the exclude list, or, with the regex option set, the query text
    /// itself.  The include list is checked first, then the exclude
    /// list, then the query text.
    pub fn build(
        raw_text: String,
        included_patterns: &str,
        excluded_patterns: &str,
        options: SearchOptions,
    ) -> (r: Result<Self, FieldError>)
        ensures
            r is Ok <==> globs_ok(included_patterns@) && globs_ok(excluded_patterns@) && (
            options.regex ==> regex_pattern_ok(raw_text@)),
            r is Ok ==> r->Ok_0@ == (QueryView {
                kind: if options.regex {
                    QueryKind::Regex
                } else {
                    QueryKind::Text
                },
                text: raw_text@,
                whole_word: options.whole_word,
                case_sensitive: options.case_sensitive,
                included: segments(included_patterns@),
                excluded: segments(excluded_patterns@),
            }),
            r is Err ==> r->Err_0.panel == if !globs_ok(included_patterns@) {
                InputPanel::Include
            } else if !globs_ok(excluded_patterns@) {
                InputPanel::Exclude
            } else {
                InputPanel::Query
            },
    {
        let files_to_include = match load_glob_set(included_patterns) {
            Ok(matchers) => matchers,
            Err(e) => {
                return Err(FieldError { panel: InputPanel::Include, message: e.message });
            },
        };
        let files_to_exclude = match load_glob_set(excluded_patterns) {
            Ok(matchers) => matchers,
            Err(e) => {
                return Err(FieldError { panel: InputPanel::Exclude, message: e.message });
            },
        };
        proof {
            assert(patterns_of(files_to_include@) =~= segments(included_patterns@));
            assert(patterns_of(files_to_exclude@) =~= segments(excluded_patterns@));
        }
        if options.regex {
            match Self::regex(
                raw_text,
                options.whole_word,
                options.case_sensitive,
                files_to_include,
                files_to_exclude,
            ) {
                Ok(query) => Ok(query),
                Err(message) => Err(FieldError { panel: InputPanel::Query, message }),
            }
        } else {
            Ok(
                Self::text(
                    raw_text,
                    options.whole_word,
                    options.case_sensitive,
                    files_to_include,
                    files_to_exclude,
                ),
            )
        }
    }

    /// A plain-text query; always valid.
    pub fn text(
        query: String,
        whole_word: bool,
        case_sensitive: bool,
        files_to_include: Vec<PathMatcher>,
        files_to_exclude: Vec<PathMatcher>,
    ) -> (r: Self)
        ensures
            r@ == (QueryView {
                kind: QueryKind::Text,
                text: query@,
                whole_word,
                case_sensitive,
                included: patterns_of(files_to_include@),
                excluded: patterns_of(files_to_exclude@),
            }),
    {
        SearchQuery {
            kind: QueryKind::Text,
            query,
            whole_word,
            case_sensitive,
            files_to_include,
            files_to_exclude,
        }
    }

    /// A regex query; succeeds exactly when the query text compiles as
    /// a regular expression, and otherwise hands back the compiler's
    /// message.
    pub fn regex(
        query: String,
        whole_word: bool,
        case_sensitive: bool,
        files_to_include: Vec<PathMatcher>,
        files_to_exclude: Vec<PathMatcher>,
    ) -> (r: Result<Self, String>)
        ensures
            r is Ok <==> regex_pattern_ok(query@),
            r is Ok ==> r->Ok_0@ == (QueryView {
                kind: QueryKind::Regex,
                text: query@,
                whole_word,
                case_sensitive,
                included: patterns_of(files_to_include@),
                excluded: patterns_of(files_to_exclude@),
            }),
    {
        match check_regex(query.as_str()) {
            Ok(_) => Ok(
                SearchQuery {
                    kind: QueryKind::Regex,
                    query,
                    whole_word,
                    case_sensitive,
                    files_to_include,
                    files_to_exclude,
                },
            ),
            Err(message) => Err(message),
        }
    }

    /// The raw query text.
    pub fn as_str(&self) -> (r: &str)
        ensures
            r@ == self@.text,
    {
        self.query.as_str()
    }

    /// Whether this is a regex query.
    pub fn is_regex(&self) -> (r: bool)
        ensures
            r == (self@.kind == QueryKind::Regex),
    {
        match self.kind {
            QueryKind::Regex => true,
            QueryKind::Text => false,
        }
    }

    /// The compiled include filters.
    pub fn files_to_include(&self) -> (r: &Vec<PathMatcher>)
        ensures
            patterns_of(r@) == self@.included,
    {
        &self.files_to_include
    }

    /// The compiled exclude filters.
    pub fn files_to_exclude(&self) -> (r: &Vec<PathMatcher>)
        ensures
            patterns_of(r@) == self@.excluded,
    {
        &self.files_to_exclude
    }

    /// An independent copy with the same content.
    pub fn duplicate(&self) -> (r: Self)
        ensures
            r@ == self@,
    {
        let r = SearchQuery {
            kind: self.kind,
            query: self.query.clone(),
            whole_word: self.whole_word,
            case_sensitive: self.case_sensitive,
            files_to_include: duplicate_matchers(&self.files_to_include),
            files_to_exclude: duplicate_matchers(&self.files_to_exclude),
        };
        proof {
            assert(patterns_of(r.files_to_include@) =~= patterns_of(self.files_to_include@));
            assert(patterns_of(r.files_to_exclude@) =~= patterns_of(self.files_to_exclude@));
            assert(r@ =~= self@);
        }
        r
    }
}

/// An independent copy of a filter list, pattern for pattern.
pub fn duplicate_matchers(matchers: &Vec<PathMatcher>) -> (r: Vec<PathMatcher>)
    ensures
        r@.len() == matchers@.len(),
        forall|k: int| 0 <= k < r@.len() ==> r@[k]@ == #[trigger] matchers@[k]@,
{
    let mut out: Vec<PathMatcher> = Vec::new();
    let mut k: usize = 0;
    while k < matchers.len()
        invariant
            k <= matchers@.len(),
            out@.len() == k,
            forall|j: int| 0 <= j < k ==> out@[j]@ == #[trigger] matchers@[j]@,
        decreases matchers@.len() - k,
    {
        out.push(matchers[k].duplicate());
        k += 1;
    }
    out
}

impl SearchOptions {
    /// The options a query was built with, as the search bar shows
    /// them.
    pub fn from_query(query: &SearchQuery) -> (r: Self)
        ensures
            r.case_sensitive == query@.case_sensitive,
            r.whole_word == query@.whole_word,
            r.regex == (query@.kind == QueryKind::Regex),
    {
        SearchOptions {
            case_sensitive: query.is_case_sensitive(),
            whole_word: query.is_whole_word(),
            regex: query.is_regex(),
        }
    }
}

impl SearchQuery {
    /// Whether the query matches case-sensitively.
    pub fn is_case_sensitive(&self) -> (r: bool)
        ensures
            r == self@.case_sensitive,
    {
        self.case_sensitive
    }

    /// Whether the query matches whole words only.
    pub fn is_whole_word(&self) -> (r: bool)
        ensures
            r == self@.whole_word,
    {
        self.whole_word
    }
}

} // verus!
