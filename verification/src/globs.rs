//! The glob filter compiler: a comma-separated list of path patterns is
//! split, trimmed, and compiled into matchers.  Compilation is
//! all-or-nothing: one bad pattern fails the whole list.

use vstd::prelude::*;
use vstd::string::StrSliceExecFns;
use vstd::string::StringExecFns;

verus! {

#[verifier::external_type_specification]
#[verifier::external_body]
pub struct ExGlobMatcher(globset::GlobMatcher);

/// The longest pattern the compiler accepts, in characters.  A parsed
/// glob is compiled into a regex whose text grows by a bounded snippet
/// per pattern character, and globset unwraps that compilation, which
/// runs under a hard 10 MB automaton size limit: a huge pattern can
/// make it panic.  Patterns this short stay orders of magnitude below
/// the limit, so the compilation cannot fail; longer patterns are
/// rejected up front.
pub const GLOB_PATTERN_MAX: usize = 10000;

/// Whether `pattern` is a well-formed glob.  globset's parser decides
/// this from the pattern text alone.
pub uninterp spec fn glob_pattern_ok(pattern: Seq<char>) -> bool;

/// Whether the library accepts `pattern`: well formed, and short
/// enough that compiling it cannot hit the compiler's size limit.
pub open spec fn glob_ok(pattern: Seq<char>) -> bool {
    pattern.len() <= GLOB_PATTERN_MAX && glob_pattern_ok(pattern)
}

/// Relies on globset::Glob::new, which parses the pattern text with
/// default options and fails exactly on malformed globs, and on
/// Glob::compile_matcher, which turns a parsed glob into its matcher.
/// The length bound keeps the matcher's regex far below the size limit
/// under which globset compiles it (see `GLOB_PATTERN_MAX`), so the
/// compilation it unwraps cannot fail.  The error is handed back as
/// its display text.
#[verifier::external_body]
fn compile_glob(pattern: &str) -> (r: Result<globset::GlobMatcher, String>)
    requires
        pattern@.len() <= GLOB_PATTERN_MAX,
    ensures
        r is Ok <==> glob_pattern_ok(pattern@),
{
    match globset::Glob::new(pattern) {
        Ok(glob) => Ok(glob.compile_matcher()),
        Err(e) => Err(e.to_string()),
    }
}

/// Relies on the derived globset::GlobMatcher::clone only to produce
/// some matcher; nothing is assumed about the copy, and the pattern a
/// `PathMatcher` shows is carried beside the matcher instead.
pub assume_specification[ <globset::GlobMatcher as Clone>::clone ](
    m: &globset::GlobMatcher,
) -> globset::GlobMatcher;

/// A compiled path filter, carrying the matcher together with the
/// pattern text it was compiled from.  Its view is the pattern text.
#[derive(Debug)]
pub struct PathMatcher {
    matcher: globset::GlobMatcher,
    pattern: String,
}

impl View for PathMatcher {
    type V = Seq<char>;

    closed spec fn view(&self) -> Seq<char> {
        self.pattern@
    }
}

impl PathMatcher {
    /// The pattern text this matcher was compiled from.
    pub fn pattern(&self) -> (r: &str)
        ensures
            r@ == self@,
    {
        self.pattern.as_str()
    }

    /// The compiled matcher, for the engines that filter paths with it.
    pub fn matcher(&self) -> &globset::GlobMatcher {
        &self.matcher
    }

    /// An independent copy with the same pattern.
    pub fn duplicate(&self) -> (r: Self)
        ensures
            r@ == self@,
    {
        PathMatcher { matcher: self.matcher.clone(), pattern: self.pattern.clone() }
    }
}

/// Why a filter list was rejected: the pattern at fault and the
/// compiler's message.
#[derive(Debug)]
pub struct GlobError {
    pub pattern: String,
    pub message: String,
}

/// Whether the library accepts every pattern of a comma-separated
/// filter text.
pub open spec fn globs_ok(text: Seq<char>) -> bool {
    forall|k: int| 0 <= k < segments(text).len() ==> glob_ok(#[trigger] segments(text)[k])
}

/// Compiles a comma-separated filter text into matchers.  All or
/// nothing: the result is `Ok` exactly when every pattern in the text
/// is accepted — well formed and within the supported length — and
/// then holds one matcher per pattern, in order.
pub fn load_glob_set(text: &str) -> (r: Result<Vec<PathMatcher>, GlobError>)
    ensures
        r is Ok <==> globs_ok(text@),
        r is Ok ==> r->Ok_0@.len() == segments(text@).len(),
        r is Ok ==> (forall|k: int|
            0 <= k < segments(text@).len() ==> r->Ok_0@[k]@ == #[trigger] segments(text@)[k]),
{
    let segs = glob_segments(text);
    let mut out: Vec<PathMatcher> = Vec::new();
    let mut k: usize = 0;
    while k < segs.len()
        invariant
            segs@.len() == segments(text@).len(),
            forall|j: int| 0 <= j < segs@.len() ==> segs@[j]@ == #[trigger] segments(text@)[j],
            k <= segs@.len(),
            out@.len() == k,
            forall|j: int| 0 <= j < k ==> glob_ok(#[trigger] segments(text@)[j]),
            forall|j: int| 0 <= j < k ==> out@[j]@ == #[trigger] segments(text@)[j],
        decreases segs@.len() - k,
    {
        if segs[k].as_str().unicode_len() > GLOB_PATTERN_MAX {
            proof {
                assert(!glob_ok(segments(text@)[k as int]));
            }
            return Err(
                GlobError {
                    pattern: segs[k].clone(),
                    message: String::from_str("pattern is longer than the supported length"),
                },
            );
        }
        match compile_glob(segs[k].as_str()) {
            Ok(matcher) => {
                out.push(PathMatcher { matcher, pattern: segs[k].clone() });
            },
            Err(message) => {
                proof {
                    assert(!glob_ok(segments(text@)[k as int]));
                }
                return Err(GlobError { pattern: segs[k].clone(), message });
            },
        }
        k += 1;
    }
    Ok(out)
}

/// The whitespace trimmed from the ends of each pattern.
pub open spec fn is_space(c: char) -> bool {
    c == ' ' || c == '\t' || c == '\n' || c == '\r'
}

/// The raw pieces of `s` between commas, in order.  The result always
/// holds one piece more than `s` holds commas; pieces may be empty.
pub open spec fn split_commas(s: Seq<char>) -> Seq<Seq<char>>
    decreases s.len(),
{
    if s.len() == 0 {
        seq![Seq::<char>::empty()]
    } else if s.last() == ',' {
        split_commas(s.drop_last()).push(Seq::<char>::empty())
    } else {
        let rest = split_commas(s.drop_last());
        rest.update(rest.len() - 1, rest.last().push(s.last()))
    }
}

/// `s` without its leading whitespace.
pub open spec fn trim_start(s: Seq<char>) -> Seq<char>
    decreases s.len(),
{
    if s.len() > 0 && is_space(s.first()) {
        trim_start(s.drop_first())
    } else {
        s
    }
}

/// `s` without its trailing whitespace.
pub open spec fn trim_end(s: Seq<char>) -> Seq<char>
    decreases s.len(),
{
    if s.len() > 0 && is_space(s.last()) {
        trim_end(s.drop_last())
    } else {
        s
    }
}

/// `s` without leading and trailing whitespace.
pub open spec fn trimmed(s: Seq<char>) -> Seq<char> {
    trim_end(trim_start(s))
}

/// What one raw piece contributes to the pattern list: its trimmed
/// text, or nothing when only whitespace is left.
pub open spec fn kept(s: Seq<char>) -> Seq<Seq<char>> {
    if trimmed(s).len() > 0 {
        seq![trimmed(s)]
    } else {
        Seq::<Seq<char>>::empty()
    }
}

/// The trimmed, non-empty patterns contributed by the raw pieces.
pub open spec fn segments_of(raws: Seq<Seq<char>>) -> Seq<Seq<char>>
    decreases raws.len(),
{
    if raws.len() == 0 {
        Seq::<Seq<char>>::empty()
    } else {
        segments_of(raws.drop_last()) + kept(raws.last())
    }
}

/// The patterns of a comma-separated filter text: split on commas,
/// trimmed, empty entries dropped.
pub open spec fn segments(text: Seq<char>) -> Seq<Seq<char>> {
    segments_of(split_commas(text))
}

proof fn lemma_segments_of_push(raws: Seq<Seq<char>>, x: Seq<char>)
    ensures
        segments_of(raws.push(x)) == segments_of(raws) + kept(x),
{
    assert(raws.push(x).drop_last() =~= raws);
    assert(raws.push(x).last() == x);
}

proof fn lemma_trim_start_skip(s: Seq<char>, j: int)
    requires
        0 <= j <= s.len(),
        forall|k: int| 0 <= k < j ==> is_space(s[k]),
        j == s.len() || !is_space(s[j]),
    ensures
        trim_start(s) == s.skip(j),
    decreases j,
{
    if j == 0 {
        assert(s.skip(0) =~= s);
    } else {
        lemma_trim_start_skip(s.drop_first(), j - 1);
        assert(s.drop_first().skip(j - 1) =~= s.skip(j));
    }
}

proof fn lemma_trim_end_take(s: Seq<char>, j: int)
    requires
        0 <= j <= s.len(),
        forall|k: int| j <= k < s.len() ==> is_space(s[k]),
        j == 0 || !is_space(s[j - 1]),
    ensures
        trim_end(s) == s.take(j),
    decreases s.len(),
{
    if j == s.len() {
        if s.len() == 0 || !is_space(s.last()) {
            assert(s.take(j) =~= s);
        } else {
            assert(false);
        }
    } else {
        lemma_trim_end_take(s.drop_last(), j);
        assert(s.drop_last().take(j) =~= s.take(j));
    }
}

/// Whether `c` is trimmed from pattern ends.
fn is_space_char(c: char) -> (r: bool)
    ensures
        r == is_space(c),
{
    c == ' ' || c == '\t' || c == '\n' || c == '\r'
}

/// Trims the piece `text[start..end]` and appends it to `segs` when
/// anything is left of it.
fn push_trimmed(segs: &mut Vec<String>, text: &str, start: usize, end: usize)
    requires
        start <= end <= text@.len(),
    ensures
        final(segs)@.len() == old(segs)@.len() + kept(text@.subrange(start as int, end as int)).len(),
        forall|k: int| 0 <= k < old(segs)@.len() ==> final(segs)@[k] == old(segs)@[k],
        forall|k: int|
            old(segs)@.len() <= k < final(segs)@.len() ==> final(segs)@[k]@ == kept(
                text@.subrange(start as int, end as int),
            )[k - old(segs)@.len()],
{
    let ghost piece = text@.subrange(start as int, end as int);
    let mut a: usize = start;
    while a < end && is_space_char(text.get_char(a))
        invariant
            start <= a <= end <= text@.len(),
            forall|k: int| start <= k < a ==> is_space(text@[k]),
        decreases end - a,
    {
        a += 1;
    }
    let mut b: usize = end;
    while b > a && is_space_char(text.get_char(b - 1))
        invariant
            a <= b <= end <= text@.len(),
            forall|k: int| b <= k < end ==> is_space(text@[k]),
        decreases b,
    {
        b -= 1;
    }
    proof {
        lemma_trim_start_skip(piece, a - start);
        assert(piece.skip(a - start) =~= text@.subrange(a as int, end as int));
        lemma_trim_end_take(text@.subrange(a as int, end as int), b - a);
        assert(text@.subrange(a as int, end as int).take(b - a) =~= text@.subrange(
            a as int,
            b as int,
        ));
        assert(trimmed(piece) == text@.subrange(a as int, b as int));
    }
    if a < b {
        let part = text.substring_char(a, b);
        segs.push(part.to_owned());
    }
}

/// Splits a filter text into its trimmed, non-empty comma-separated
/// patterns.
pub fn glob_segments(text: &str) -> (segs: Vec<String>)
    ensures
        segs@.len() == segments(text@).len(),
        forall|k: int| 0 <= k < segs@.len() ==> segs@[k]@ == #[trigger] segments(text@)[k],
{
    let n = text.unicode_len();
    let mut segs: Vec<String> = Vec::new();
    let mut start: usize = 0;
    let ghost mut raw: Seq<Seq<char>> = Seq::empty();
    proof {
        assert(text@.take(0) =~= Seq::<char>::empty());
        assert(text@.subrange(0, 0) =~= Seq::<char>::empty());
        assert(split_commas(text@.take(0)) =~~= raw.push(text@.subrange(0, 0)));
    }
    let mut i: usize = 0;
    while i < n
        invariant
            n == text@.len(),
            start <= i <= n,
            split_commas(text@.take(i as int)) == raw.push(
                text@.subrange(start as int, i as int),
            ),
            segs@.len() == segments_of(raw).len(),
            forall|k: int| 0 <= k < segs@.len() ==> segs@[k]@ == #[trigger] segments_of(raw)[k],
        decreases n - i,
    {
        let c = text.get_char(i);
        proof {
            assert(text@.take(i + 1).drop_last() =~= text@.take(i as int));
            assert(text@.take(i + 1).last() == text@[i as int]);
        }
        if c == ',' {
            let ghost piece = text@.subrange(start as int, i as int);
            proof {
                assert(split_commas(text@.take(i + 1)) == raw.push(piece).push(
                    Seq::<char>::empty(),
                ));
                lemma_segments_of_push(raw, piece);
            }
            push_trimmed(&mut segs, text, start, i);
            proof {
                raw = raw.push(piece);
                assert(forall|k: int|
                    0 <= k < segs@.len() ==> segs@[k]@ == #[trigger] segments_of(raw)[k]);
                assert(text@.subrange(i + 1, i + 1) =~= Seq::<char>::empty());
            }
            start = i + 1;
        } else {
            proof {
                let rest = raw.push(text@.subrange(start as int, i as int));
                assert(split_commas(text@.take(i + 1)) == rest.update(
                    rest.len() - 1,
                    rest.last().push(text@[i as int]),
                ));
                assert(rest.update(rest.len() - 1, rest.last().push(text@[i as int])) =~= raw.push(
                    text@.subrange(start as int, i as int).push(text@[i as int]),
                ));
                assert(text@.subrange(start as int, i as int).push(text@[i as int])
                    =~= text@.subrange(start as int, i + 1));
            }
        }
        i += 1;
    }
    proof {
        assert(text@.take(n as int) =~= text@);
        lemma_segments_of_push(raw, text@.subrange(start as int, n as int));
    }
    push_trimmed(&mut segs, text, start, n);
    segs
}

} // verus!
