//! The match navigator: given the ordered match list and the cursor, it
//! computes the active match index and the next/previous targets with
//! wraparound.

use vstd::prelude::*;
use crate::options::Direction;

verus! {

/// A row/column position inside one document.
#[derive(Clone, Copy, PartialEq, Eq, Structural, Debug)]
pub struct Point {
    pub row: u64,
    pub column: u64,
}

impl Point {
    /// Lexicographic order on (row, column).
    pub open spec fn spec_le(self, other: Point) -> bool {
        self.row < other.row || (self.row == other.row && self.column <= other.column)
    }

    /// Executable lexicographic comparison.
    pub fn le(&self, other: &Point) -> (r: bool)
        ensures
            r == self.spec_le(*other),
    {
        self.row < other.row || (self.row == other.row && self.column <= other.column)
    }
}

/// A position in the result set: a document and a point inside it.
/// Documents are identified by a rank that orders them as their paths do.
#[derive(Clone, Copy, PartialEq, Eq, Structural, Debug)]
pub struct Location {
    pub doc: u64,
    pub pos: Point,
}

impl Location {
    /// Lexicographic order on (document, position).
    pub open spec fn spec_le(self, other: Location) -> bool {
        self.doc < other.doc || (self.doc == other.doc && self.pos.spec_le(other.pos))
    }

    /// Executable lexicographic comparison.
    pub fn le(&self, other: &Location) -> (r: bool)
        ensures
            r == self.spec_le(*other),
    {
        self.doc < other.doc || (self.doc == other.doc && self.pos.le(&other.pos))
    }
}

/// One match: a span of a document, stable under the edits this core
/// sees because positions are resolved by the document store.
#[derive(Clone, Copy, PartialEq, Eq, Structural, Debug)]
pub struct MatchRange {
    pub doc: u64,
    pub start: Point,
    pub end: Point,
}

impl MatchRange {
    /// Where this match begins, as a location in the result set.
    pub open spec fn spec_start(self) -> Location {
        Location { doc: self.doc, pos: self.start }
    }

    /// A match is well formed when it does not end before it starts.
    pub open spec fn wf(self) -> bool {
        self.start.spec_le(self.end)
    }
}

/// Whether `matches[i]` starts at or after `cursor`.
pub open spec fn starts_at_or_after(m: MatchRange, cursor: Location) -> bool {
    cursor.spec_le(m.spec_start())
}

/// Matches in strictly increasing start order: sorted, with no two
/// matches starting at the same place.  The orchestrator's sorted
/// integration yields such lists when every match is distinct.
pub open spec fn strictly_sorted(matches: Seq<MatchRange>) -> bool {
    forall|i: int, j: int|
        0 <= i < j < matches.len() ==> matches[i].spec_start().spec_le(matches[j].spec_start())
            && matches[i].spec_start() != matches[j].spec_start()
}

/// The index after `index` in a list of `len` matches, wrapping to 0.
pub open spec fn next_index(len: nat, index: nat) -> nat {
    if index + 1 == len {
        0
    } else {
        index + 1
    }
}

/// The index before `index` in a list of `len` matches, wrapping to the
/// last index.
pub open spec fn prev_index(len: nat, index: nat) -> nat {
    if index == 0 {
        (len - 1) as nat
    } else {
        (index - 1) as nat
    }
}

/// The active match for a cursor: the first match that starts at or
/// after the cursor, or match 0 when the cursor is past every match.
/// `None` exactly when there are no matches.
pub fn active_match_index(matches: &Vec<MatchRange>, cursor: &Location) -> (r: Option<usize>)
    ensures
        (r is None) <==> matches@.len() == 0,
        r is Some ==> r->Some_0 < matches@.len(),
        r is Some && starts_at_or_after(matches@[r->Some_0 as int], *cursor) ==> (forall|j: int|
            0 <= j < r->Some_0 ==> !starts_at_or_after(matches@[j], *cursor)),
        r is Some && !starts_at_or_after(matches@[r->Some_0 as int], *cursor) ==> r->Some_0 == 0
            && (forall|j: int|
            0 <= j < matches@.len() ==> !starts_at_or_after(matches@[j], *cursor)),
{
    let n = matches.len();
    let mut i: usize = 0;
    while i < n
        invariant
            n == matches@.len(),
            i <= n,
            forall|j: int| 0 <= j < i ==> !starts_at_or_after(matches@[j], *cursor),
        decreases n - i,
    {
        if cursor.le(&Location { doc: matches[i].doc, pos: matches[i].start }) {
            return Some(i);
        }
        i += 1;
    }
    if n == 0 {
        None
    } else {
        Some(0)
    }
}

/// The target of a next/previous command from `index`, wrapping around.
pub fn match_index_for_direction(count: usize, index: usize, direction: Direction) -> (r: usize)
    requires
        0 < count,
        index < count,
    ensures
        direction == Direction::Next ==> r == next_index(count as nat, index as nat),
        direction == Direction::Prev ==> r == prev_index(count as nat, index as nat),
        r < count,
{
    match direction {
        Direction::Next => {
            if index + 1 == count {
                0
            } else {
                index + 1
            }
        },
        Direction::Prev => {
            if index == 0 {
                count - 1
            } else {
                index - 1
            }
        },
    }
}

/// Law: next and prev are mutual inverses modulo the match count.  For
/// every index in range, going next then prev (or prev then next)
/// returns to the same index.
pub proof fn lemma_next_prev_inverse(len: nat, index: nat)
    requires
        0 < len,
        index < len,
    ensures
        prev_index(len, next_index(len, index)) == index,
        next_index(len, prev_index(len, index)) == index,
{
}

} // verus!
