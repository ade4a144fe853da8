//! Reduction of raw per-user ratings into fixed buckets.
use vstd::prelude::*;

verus! {

/// How many times `v` occurs in `s`.
pub open spec fn count_of(s: Seq<i64>, v: i64) -> nat
    decreases s.len(),
{
    if s.len() == 0 {
        0
    } else {
        count_of(s.drop_last(), v) + if s.last() == v {
            1nat
        } else {
            0nat
        }
    }
}

pub open spec fn is_rating(v: i64) -> bool {
    1 <= v <= 3
}

/// How many entries of `s` are not a rating of 1, 2 or 3.
pub open spec fn count_other(s: Seq<i64>) -> nat
    decreases s.len(),
{
    if s.len() == 0 {
        0
    } else {
        count_other(s.drop_last()) + if is_rating(s.last()) {
            0nat
        } else {
            1nat
        }
    }
}

/// Counts per rating value. A value outside 1 to 3 is a data anomaly and is
/// counted under `other` rather than dropped.
#[derive(Clone, Copy, Debug, PartialEq, Eq, Structural)]
pub struct VoteTally {
    pub ones: usize,
    pub twos: usize,
    pub threes: usize,
    pub other: usize,
}

pub open spec fn tally_spec(s: Seq<i64>) -> VoteTally {
    VoteTally {
        ones: count_of(s, 1) as usize,
        twos: count_of(s, 2) as usize,
        threes: count_of(s, 3) as usize,
        other: count_other(s) as usize,
    }
}

impl VoteTally {
    /// Tallies a sequence of ratings.
    pub fn from_ratings(ratings: &Vec<i64>) -> (r: VoteTally)
        ensures
            r.ones == count_of(ratings@, 1),
            r.twos == count_of(ratings@, 2),
            r.threes == count_of(ratings@, 3),
            r.other == count_other(ratings@),
            r.ones + r.twos + r.threes + r.other == ratings@.len(),
            r == tally_spec(ratings@),
    {
        let mut t = VoteTally { ones: 0, twos: 0, threes: 0, other: 0 };
        let n = ratings.len();
        let mut i: usize = 0;
        while i < n
            invariant
                n == ratings@.len(),
                i <= n,
                t.ones == count_of(ratings@.subrange(0, i as int), 1),
                t.twos == count_of(ratings@.subrange(0, i as int), 2),
                t.threes == count_of(ratings@.subrange(0, i as int), 3),
                t.other == count_other(ratings@.subrange(0, i as int)),
                t.ones + t.twos + t.threes + t.other == i,
            decreases n - i,
        {
            let v = ratings[i];
            assert(ratings@.subrange(0, i + 1).drop_last() =~= ratings@.subrange(0, i as int));
            if v == 1 {
                t.ones = t.ones + 1;
            } else if v == 2 {
                t.twos = t.twos + 1;
            } else if v == 3 {
                t.threes = t.threes + 1;
            } else {
                t.other = t.other + 1;
            }
            i += 1;
        }
        assert(ratings@.subrange(0, n as int) =~= ratings@);
        t
    }

    /// The count of one rating value; values outside 1 to 3 read the
    /// anomaly bucket.
    pub fn count(&self, rating: i64) -> (r: usize)
        ensures
            r == (if rating == 1 {
                self.ones
            } else if rating == 2 {
                self.twos
            } else if rating == 3 {
                self.threes
            } else {
                self.other
            }),
    {
        if rating == 1 {
            self.ones
        } else if rating == 2 {
            self.twos
        } else if rating == 3 {
            self.threes
        } else {
            self.other
        }
    }
}

} // verus!
