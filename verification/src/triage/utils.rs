//! Helpers of the triage: bit distance between buffers and a line diff of
//! two rendered inputs.

use crate::buffer;
use vstd::prelude::*;
use vstd::string::StringExecFns;

verus! {

/// Number of one bits in a byte.
pub open spec fn bit_count(byte: u8) -> nat {
    ((byte & 1) + ((byte >> 1) & 1) + ((byte >> 2) & 1) + ((byte >> 3) & 1) + ((byte >> 4) & 1)
        + ((byte >> 5) & 1) + ((byte >> 6) & 1) + ((byte >> 7) & 1)) as nat
}

/// Number of bit positions in which two buffers differ, counted over the
/// bytes that both have.
pub open spec fn hamming(a: Seq<u8>, b: Seq<u8>) -> nat
    decreases a.len(),
{
    if a.len() == 0 || b.len() == 0 {
        0
    } else {
        hamming(a.drop_last(), b.drop_last()) + bit_count(a.last() ^ b.last())
    }
}

/// `u8::count_ones` returns the number of one bits of the byte.
pub assume_specification[ u8::count_ones ](byte: u8) -> (ones: u32)
    ensures
        ones == bit_count(byte),
;

/// A byte has at most eight one bits.
pub proof fn lemma_bit_count_bound(byte: u8)
    ensures
        bit_count(byte) <= 8,
{
    assert(((byte & 1) + ((byte >> 1) & 1) + ((byte >> 2) & 1) + ((byte >> 3) & 1) + ((byte >> 4)
        & 1) + ((byte >> 5) & 1) + ((byte >> 6) & 1) + ((byte >> 7) & 1)) <= 8) by (bit_vector);
}

/// The distance of two buffers of one length is at most eight times that length.
pub proof fn lemma_hamming_bound(a: Seq<u8>, b: Seq<u8>)
    requires
        a.len() == b.len(),
    ensures
        hamming(a, b) <= 8 * a.len(),
    decreases a.len(),
{
    if a.len() > 0 {
        lemma_hamming_bound(a.drop_last(), b.drop_last());
        lemma_bit_count_bound(a.last() ^ b.last());
    }
}

/// Bit distance of two buffers; `None` when their lengths differ.
pub fn hamming_distance(vec1: &[u8], vec2: &[u8]) -> (distance: Option<usize>)
    requires
        vec1@.len() * 8 <= usize::MAX,
    ensures
        vec1@.len() != vec2@.len() <==> distance.is_none(),
        distance matches Some(d) ==> d == hamming(vec1@, vec2@),
{
    if vec1.len() != vec2.len() {
        return None;
    }
    let mut distance: usize = 0;
    let mut i: usize = 0;
    while i < vec1.len()
        invariant
            i <= vec1@.len(),
            vec1@.len() == vec2@.len(),
            vec1@.len() * 8 <= usize::MAX,
            distance == hamming(vec1@.take(i as int), vec2@.take(i as int)),
            distance <= 8 * i,
        decreases vec1@.len() - i,
    {
        let ones = (vec1[i] ^ vec2[i]).count_ones();
        proof {
            lemma_bit_count_bound(vec1[i as int] ^ vec2[i as int]);
            assert(vec1@.take(i + 1).drop_last() == vec1@.take(i as int));
            assert(vec2@.take(i + 1).drop_last() == vec2@.take(i as int));
        }
        distance = distance + ones as usize;
        i = i + 1;
    }
    proof {
        assert(vec1@.take(i as int) == vec1@);
        assert(vec2@.take(i as int) == vec2@);
    }
    Some(distance)
}

/// A text in yellow: between the escape sequences that switch the colour on
/// and off.
pub open spec fn yellow_of(text: Seq<char>) -> Seq<char> {
    "\x1b[33;1m"@ + text + "\x1b[0m"@
}

/// Texts that can be shown in colour on a terminal.
pub trait Colored {
    /// The text itself.
    open spec fn plain(&self) -> Seq<char> {
        arbitrary()
    }

    /// The text in yellow.
    fn yellow(&self) -> (colored: String)
        ensures
            colored@ == yellow_of(self.plain()),
    ;
}

impl Colored for String {
    open spec fn plain(&self) -> Seq<char> {
        self@
    }

    fn yellow(&self) -> (colored: String) {
        String::from_str("\x1b[33;1m").concat(self.as_str()).concat("\x1b[0m")
    }
}

impl Colored for &str {
    open spec fn plain(&self) -> Seq<char> {
        self@
    }

    fn yellow(&self) -> (colored: String) {
        String::from_str("\x1b[33;1m").concat(*self).concat("\x1b[0m")
    }
}

/// The place of the first line feed of a text, or its length if it has
/// none.
pub open spec fn line_end(text: Seq<char>) -> nat
    decreases text.len(),
{
    if text.len() == 0 || text[0] == '\n' {
        0
    } else {
        1 + line_end(text.drop_first())
    }
}

/// A line without the carriage return that stood before its line feed.
pub open spec fn without_return(line: Seq<char>) -> Seq<char> {
    if line.len() > 0 && line.last() == '\r' {
        line.drop_last()
    } else {
        line
    }
}

/// The lines of a text. A line ends with a line feed, or with a carriage
/// return and a line feed, which are not part of it; the last line need
/// not end so.
pub open spec fn lines_of(text: Seq<char>) -> Seq<Seq<char>>
    decreases text.len(),
{
    if text.len() == 0 {
        Seq::empty()
    } else if line_end(text) >= text.len() {
        seq![text]
    } else {
        seq![without_return(text.take(line_end(text) as int))] + lines_of(
            text.skip(line_end(text) as int + 1),
        )
    }
}

/// The texts of a list of strings.
pub open spec fn texts_of(strings: Seq<String>) -> Seq<Seq<char>> {
    strings.map_values(|string: String| string@)
}

/// Calls `str::lines` of std, which splits a text at its line feeds and
/// leaves out the line endings, and collects the lines.
#[verifier::external_body]
fn split_lines(text: &str) -> (lines: Vec<String>)
    ensures
        texts_of(lines@) == lines_of(text@),
{
    text.lines().map(|line| line.to_owned()).collect()
}

/// Line `i` of a list of lines, or the empty text where the list is
/// shorter.
pub open spec fn line_at(lines: Seq<Seq<char>>, i: int) -> Seq<char> {
    if 0 <= i < lines.len() {
        lines[i]
    } else {
        Seq::empty()
    }
}

/// The first `count` lines of `shown`, each followed by a line feed; a
/// line that differs from the line of `other` at its place is yellow.
pub open spec fn marked_lines(
    shown: Seq<Seq<char>>,
    other: Seq<Seq<char>>,
    count: nat,
) -> Seq<char>
    decreases count,
{
    if count == 0 {
        Seq::empty()
    } else {
        let at = count - 1;
        let line = if line_at(shown, at) == line_at(other, at) {
            line_at(shown, at)
        } else {
            yellow_of(line_at(shown, at))
        };
        marked_lines(shown, other, at as nat) + line + "\n"@
    }
}

/// The text that shows where `shown` differs from `other`, line by
/// line, over as many lines as the longer of the two has.
pub open spec fn marked(shown: Seq<char>, other: Seq<char>) -> Seq<char> {
    let shown_lines = lines_of(shown);
    let other_lines = lines_of(other);
    let count = if shown_lines.len() >= other_lines.len() {
        shown_lines.len()
    } else {
        other_lines.len()
    };
    marked_lines(shown_lines, other_lines, count)
}

/// Returns the lines of `shown`, with those in yellow that differ from
/// the line of `other` at the same place.
pub fn mark_differences(shown: &str, other: &str) -> (result: String)
    ensures
        result@ == marked(shown@, other@),
{
    let shown_lines = split_lines(shown);
    let other_lines = split_lines(other);
    let max_lines = if shown_lines.len() >= other_lines.len() {
        shown_lines.len()
    } else {
        other_lines.len()
    };
    let empty = String::new();
    let mut result = String::new();
    let mut i: usize = 0;
    while i < max_lines
        invariant
            i <= max_lines,
            max_lines <= usize::MAX,
            empty@ == Seq::<char>::empty(),
            result@ == marked_lines(texts_of(shown_lines@), texts_of(other_lines@), i as nat),
        decreases max_lines - i,
    {
        let shown_line = if i < shown_lines.len() {
            &shown_lines[i]
        } else {
            &empty
        };
        let other_line = if i < other_lines.len() {
            &other_lines[i]
        } else {
            &empty
        };
        if *shown_line == *other_line {
            result.append(shown_line.as_str());
        } else {
            let colored = shown_line.yellow();
            result.append(colored.as_str());
        }
        result.append("\n");
        i = i + 1;
    }
    result
}

/// Whether a buffer can be the neighbour of a candidate: it has the length
/// of the candidate and differs from it.
pub open spec fn comparable(candidate: Seq<u8>, other: Seq<u8>) -> bool {
    other.len() == candidate.len() && hamming(other, candidate) > 0
}

/// Whether `at` is the place of the nearest neighbour of a candidate among
/// the buffers seen: the first of the comparable buffers with the smallest
/// distance to the candidate, or the first buffer where none is
/// comparable.
pub open spec fn is_nearest(candidate: Seq<u8>, seen: Seq<Seq<u8>>, at: int) -> bool {
    &&& 0 <= at < seen.len()
    &&& comparable(candidate, seen[at]) || (at == 0 && forall|j: int|
        0 <= j < seen.len() ==> !comparable(candidate, #[trigger] seen[j]))
    &&& forall|j: int|
        0 <= j < seen.len() && comparable(candidate, #[trigger] seen[j]) ==> hamming(
            seen[at],
            candidate,
        ) <= hamming(seen[j], candidate)
    &&& forall|j: int|
        0 <= j < at && comparable(candidate, #[trigger] seen[j]) ==> hamming(seen[at], candidate)
            < hamming(seen[j], candidate)
}

/// Finds the nearest neighbour of a candidate among the buffers seen, if
/// there are any.
pub fn nearest_neighbor(candidate: &[u8], seen: &Vec<Vec<u8>>) -> (nearest: Option<usize>)
    requires
        candidate@.len() * 8 <= usize::MAX,
    ensures
        nearest.is_none() == (seen@.len() == 0),
        nearest matches Some(at) ==> is_nearest(candidate@, buffer::buffers_view(seen@), at as int),
{
    if seen.len() == 0 {
        return None;
    }
    let mut min_hamming: usize = usize::MAX;
    let mut most_equal: usize = 0;
    let mut found = false;
    let mut i: usize = 0;
    while i < seen.len()
        invariant
            i <= seen@.len(),
            seen@.len() > 0,
            candidate@.len() * 8 <= usize::MAX,
            most_equal < seen@.len(),
            !found ==> most_equal == 0 && forall|j: int|
                0 <= j < i ==> !comparable(candidate@, #[trigger] buffer::buffers_view(seen@)[j]),
            found ==> {
                &&& most_equal < i
                &&& comparable(candidate@, buffer::buffers_view(seen@)[most_equal as int])
                &&& min_hamming == hamming(buffer::buffers_view(seen@)[most_equal as int], candidate@)
                &&& forall|j: int|
                    0 <= j < i && comparable(candidate@, #[trigger] buffer::buffers_view(seen@)[j])
                        ==> min_hamming <= hamming(buffer::buffers_view(seen@)[j], candidate@)
                &&& forall|j: int|
                    0 <= j < most_equal && comparable(candidate@, #[trigger] buffer::buffers_view(seen@)[j])
                        ==> min_hamming < hamming(buffer::buffers_view(seen@)[j], candidate@)
            },
        decreases seen@.len() - i,
    {
        let other = seen[i].as_slice();
        if other.len() == candidate.len() {
            match hamming_distance(other, candidate) {
                Some(hamming) => {
                    if hamming != 0 && (!found || hamming < min_hamming) {
                        most_equal = i;
                        min_hamming = hamming;
                        found = true;
                    }
                },
                None => {},
            }
        }
        i = i + 1;
    }
    Some(most_equal)
}

} // verus!
