//! The fan curve: a table of breakpoints and the search that places an
//! input on it.
//!
//! A breakpoint is known to this module by the order key of its abscissa, a
//! signed integer that sorts as the abscissa does. Ordinates never enter the
//! search, so they stay with the caller, who finds them again by index.

use vstd::prelude::*;

verus! {

/// The place of an input on a curve, as indices into its breakpoints.
#[derive(Debug, Clone, Copy, PartialEq, Eq, Structural)]
pub enum Segment {
    /// The curve has no breakpoints, so it has no value anywhere.
    Undefined,
    /// The input lies at or beyond an end of the curve; the curve takes the
    /// ordinate of this breakpoint unchanged.
    Flat(usize),
    /// The input lies between two neighbouring breakpoints, the lower one
    /// first; the curve runs straight from one to the other.
    Between(usize, usize),
}

/// No key is followed by a smaller one.
pub open spec fn ascending(keys: Seq<i64>) -> bool {
    forall|i: int, j: int| 0 <= i < j < keys.len() ==> keys[i] <= keys[j]
}

/// The number of keys that do not lie above `input`.
pub open spec fn rank(keys: Seq<i64>, input: i64) -> nat
    decreases keys.len(),
{
    if keys.len() == 0 {
        0
    } else {
        rank(keys.drop_last(), input) + if keys.last() <= input {
            1nat
        } else {
            0nat
        }
    }
}

/// The segment that belongs to the position `high` in a curve of `len`
/// breakpoints, where `high` is the index of the first breakpoint above the
/// input.
pub open spec fn segment_at(len: nat, high: nat) -> Segment {
    if len == 0 {
        Segment::Undefined
    } else if high == 0 {
        Segment::Flat(0)
    } else if high >= len {
        Segment::Flat((len - 1) as usize)
    } else {
        Segment::Between((high - 1) as usize, high as usize)
    }
}

/// The segment of `input` on a curve with the given keys.
///
/// A curve without keys is undefined. An input at or below the first key
/// takes the first breakpoint, and one at or above the last key takes the
/// last, both unchanged. Any other input lies between the last breakpoint
/// that is not above it and the next one; an input that equals a key is the
/// lower end of the segment above that key.
pub open spec fn locate(keys: Seq<i64>, input: i64) -> Segment {
    if keys.len() == 0 {
        Segment::Undefined
    } else if input <= keys.first() {
        Segment::Flat(0)
    } else if input >= keys.last() {
        Segment::Flat((keys.len() - 1) as usize)
    } else {
        Segment::Between((rank(keys, input) - 1) as usize, rank(keys, input) as usize)
    }
}

/// A curve is valid if it has as many temperatures as fan speeds, and at
/// least one of each.
pub open spec fn valid_curve(temperatures: nat, fan_speeds: nat) -> bool {
    temperatures == fan_speeds && temperatures > 0
}

/// A greater input never falls on an earlier part of the curve: the rank
/// grows with the input, whatever the keys are.
pub proof fn lemma_rank_is_monotonic(keys: Seq<i64>, lower: i64, upper: i64)
    requires
        lower <= upper,
    ensures
        rank(keys, lower) <= rank(keys, upper) <= keys.len(),
    decreases keys.len(),
{
    if keys.len() > 0 {
        lemma_rank_is_monotonic(keys.drop_last(), lower, upper);
    }
}

/// The rank of an input is the one position that has no key above the
/// input before it and only such keys from it on.
pub proof fn lemma_rank_is_upper_bound(keys: Seq<i64>, input: i64, pos: int)
    requires
        0 <= pos <= keys.len(),
        forall|i: int| 0 <= i < pos ==> keys[i] <= input,
        forall|i: int| pos <= i < keys.len() ==> keys[i] > input,
    ensures
        rank(keys, input) == pos,
    decreases keys.len(),
{
    if keys.len() > 0 {
        let front = keys.drop_last();
        if pos == keys.len() {
            lemma_rank_is_upper_bound(front, input, pos - 1);
        } else {
            lemma_rank_is_upper_bound(front, input, pos);
        }
    }
}

/// On an ascending curve an input strictly between the first and the last
/// key lies between two breakpoints of the curve: the lower one is not
/// above the input, the upper one is.
pub proof fn lemma_inner_input_has_neighbours(keys: Seq<i64>, input: i64)
    requires
        ascending(keys),
        keys.len() > 0,
        keys.first() < input < keys.last(),
    ensures
        0 < rank(keys, input) < keys.len(),
        keys[rank(keys, input) - 1] <= input < keys[rank(keys, input) as int],
    decreases keys.len(),
{
    let front = keys.drop_last();
    assert(front.len() > 0);
    assert(front.first() == keys.first());
    if input < front.last() {
        assert(ascending(front));
        lemma_inner_input_has_neighbours(front, input);
    } else {
        assert forall|i: int| 0 <= i < front.len() implies front[i] <= input by {
            assert(front[i] == keys[i]);
        }
        lemma_rank_is_upper_bound(front, input, front.len() as int);
    }
}

/// Whether a curve of this many temperatures and this many fan speeds is
/// valid.
pub fn curve_is_valid(temperatures: usize, fan_speeds: usize) -> (valid: bool)
    ensures
        valid == valid_curve(temperatures as nat, fan_speeds as nat),
{
    temperatures == fan_speeds && temperatures > 0
}

/// A fan curve, held by the order keys of its breakpoints.
pub struct ControlCurve {
    data_points: Vec<i64>,
}

impl View for ControlCurve {
    type V = Seq<i64>;

    closed spec fn view(&self) -> Seq<i64> {
        self.data_points@
    }
}

impl ControlCurve {
    /// Makes a curve of the given keys, in the order given.
    pub fn new(data_points: Vec<i64>) -> (curve: ControlCurve)
        ensures
            curve@ == data_points@,
    {
        ControlCurve { data_points }
    }

    /// Places `input` on the curve.
    ///
    /// An empty curve is undefined everywhere. On an ascending curve the
    /// answer is that of `locate`: an input at or below the first key, or at
    /// or above the last, gets the end's breakpoint unchanged; any other
    /// input lies between its two neighbours, and one that equals a key is
    /// the lower end of the segment above that key. On a curve that is out
    /// of order the answer is still one of the curve's segments.
    pub fn control(&self, input: i64) -> (segment: Segment)
        ensures
            self@.len() == 0 ==> segment == Segment::Undefined,
            exists|high: nat| high <= self@.len() && segment == segment_at(self@.len(), high),
            ascending(self@) ==> segment == locate(self@, input),
    {
        let len: usize = self.data_points.len();
        if len == 0 {
            assert(segment_at(0, 0) == Segment::Undefined);
            return Segment::Undefined;
        }
        if input <= self.data_points[0] {
            assert(segment_at(len as nat, 0) == Segment::Flat(0));
            return Segment::Flat(0);
        }
        if input >= self.data_points[len - 1] {
            assert(segment_at(len as nat, len as nat) == Segment::Flat((len - 1) as usize));
            return Segment::Flat(len - 1);
        }
        let mut low: usize = 0;
        let mut high: usize = len;
        while low < high
            invariant
                len == self.data_points@.len(),
                low <= high <= len,
                ascending(self@) ==> forall|i: int| 0 <= i < low ==> self@[i] <= input,
                ascending(self@) ==> forall|i: int| high <= i < len ==> self@[i] > input,
            decreases high - low,
        {
            let mid: usize = low + (high - low) / 2;
            if self.data_points[mid] <= input {
                low = mid + 1;
            } else {
                high = mid;
            }
        }
        proof {
            if ascending(self@) {
                lemma_rank_is_upper_bound(self@, input, high as int);
                lemma_inner_input_has_neighbours(self@, input);
            }
        }
        let segment = if high == 0 {
            Segment::Flat(0)
        } else if high == len {
            Segment::Flat(len - 1)
        } else {
            Segment::Between(high - 1, high)
        };
        assert(segment == segment_at(len as nat, high as nat));
        segment
    }
}

} // verus!
