//! Levels from accumulated experience: a table of the experience each level above the first
//! needs, read from master data (`intimacy_exp` for character affinity).

use vstd::prelude::*;

verus! {

/// The experience needed for level 2, 3, ... in order.
#[derive(Debug, Clone)]
pub struct LevelCalculator {
    pub thresholds: Vec<i32>,
}

/// How many of the thresholds, from the first on, an amount of experience reaches.
pub open spec fn levels_reached(thresholds: Seq<i32>, exp: int) -> nat
    decreases thresholds.len(),
{
    if thresholds.len() == 0 {
        0
    } else if thresholds[0] <= exp {
        1 + levels_reached(thresholds.drop_first(), exp)
    } else {
        0
    }
}

proof fn lemma_levels_reached_bound(thresholds: Seq<i32>, exp: int)
    ensures
        levels_reached(thresholds, exp) <= thresholds.len(),
    decreases thresholds.len(),
{
    if thresholds.len() > 0 {
        lemma_levels_reached_bound(thresholds.drop_first(), exp);
    }
}

impl LevelCalculator {
    pub fn new(thresholds: Vec<i32>) -> (r: Self)
        ensures
            r.thresholds@ == thresholds@,
    {
        Self { thresholds }
    }

    /// The level of an amount of experience: 1, and one more for each threshold it reaches,
    /// counting from the first until one is not reached.
    pub open spec fn level_spec(&self, exp: int) -> int {
        1 + levels_reached(self.thresholds@, exp) as int
    }

    pub fn get_level(&self, exp: i32) -> (r: i32)
        requires
            self.thresholds@.len() < i32::MAX,
        ensures
            r == self.level_spec(exp as int),
    {
        let n = self.thresholds.len();
        let mut i: usize = 0;
        assert(self.thresholds@.skip(0) =~= self.thresholds@);
        while i < n && self.thresholds[i] <= exp
            invariant
                i <= n,
                n == self.thresholds@.len(),
                n < i32::MAX,
                levels_reached(self.thresholds@, exp as int) == i + levels_reached(self.thresholds@.skip(i as int), exp as int),
            decreases n - i,
        {
            assert(self.thresholds@.skip(i as int).drop_first() =~= self.thresholds@.skip(i + 1));
            assert(self.thresholds@.skip(i as int)[0] == self.thresholds@[i as int]);
            i = i + 1;
        }
        proof {
            lemma_levels_reached_bound(self.thresholds@.skip(i as int), exp as int);
            if i < n {
                assert(self.thresholds@.skip(i as int)[0] == self.thresholds@[i as int]);
            } else {
                assert(self.thresholds@.skip(i as int).len() == 0);
            }
        }
        (i + 1) as i32
    }
}

/// More experience never gives a lower level.
pub proof fn law_level_monotone(thresholds: Seq<i32>, a: int, b: int)
    requires
        a <= b,
    ensures
        levels_reached(thresholds, a) <= levels_reached(thresholds, b),
    decreases thresholds.len(),
{
    if thresholds.len() > 0 && thresholds[0] <= a {
        law_level_monotone(thresholds.drop_first(), a, b);
    }
}

} // verus!
