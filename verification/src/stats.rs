//! Typing statistics: letters typed per elapsed second, error tally, and the
//! words-per-minute and accuracy figures derived from them.

use vstd::prelude::*;

verus! {

/// Sum of a sequence of per-second letter counts, as an unbounded integer.
pub open spec fn lps_sum(s: Seq<u32>) -> int
    decreases s.len(),
{
    if s.len() == 0 {
        0
    } else {
        lps_sum(s.drop_last()) + s.last()
    }
}

/// The sum of per-second counts is never negative.
pub proof fn lemma_lps_sum_nonneg(s: Seq<u32>)
    ensures
        lps_sum(s) >= 0,
    decreases s.len(),
{
    if s.len() > 0 {
        lemma_lps_sum_nonneg(s.drop_last());
    }
}

/// A prefix of a sequence of counts sums to no more than the whole.
pub proof fn lemma_lps_sum_prefix(s: Seq<u32>, k: int)
    requires
        0 <= k <= s.len(),
    ensures
        lps_sum(s.subrange(0, k)) <= lps_sum(s),
    decreases s.len(),
{
    if s.len() > 0 {
        if k == s.len() {
            assert(s.subrange(0, k) == s);
        } else {
            lemma_lps_sum_prefix(s.drop_last(), k);
            assert(s.drop_last().subrange(0, k) == s.subrange(0, k));
        }
    }
}

/// Accumulates per-second letter counts and the number of incorrect letters.
pub struct Stats {
    /// Letters typed during each fully elapsed second.
    pub lps: Vec<u32>,
    /// Letters typed since the last elapsed second.
    pub letter_count: u32,
    /// Incorrectly typed letters over the whole session.
    pub incorrect_letters: u32,
}

impl Stats {
    /// Letters recorded so far, finished seconds and the current one together.
    pub open spec fn spec_total(self) -> int {
        lps_sum(self.lps@) + self.letter_count
    }

    /// The error tally never exceeds the letters typed, and the letter total
    /// stays within machine range.
    pub open spec fn wf(self) -> bool {
        &&& self.incorrect_letters <= self.spec_total()
        &&& self.spec_total() <= u32::MAX
    }

    pub fn new() -> (r: Stats)
        ensures
            r.lps@ == Seq::<u32>::empty(),
            r.letter_count == 0,
            r.incorrect_letters == 0,
            r.wf(),
    {
        Stats { lps: Vec::new(), letter_count: 0, incorrect_letters: 0 }
    }

    /// Closes the current second: the running letter count is appended to the
    /// per-second record and reset.
    pub fn add_letters(&mut self)
        requires
            old(self).wf(),
        ensures
            final(self).lps@ == old(self).lps@.push(old(self).letter_count),
            final(self).letter_count == 0,
            final(self).incorrect_letters == old(self).incorrect_letters,
            final(self).spec_total() == old(self).spec_total(),
            final(self).wf(),
    {
        proof {
            assert(self.lps@.push(self.letter_count).drop_last() == self.lps@);
        }
        self.lps.push(self.letter_count);
        self.letter_count = 0;
    }

    /// Records one judged keystroke.
    pub fn on_letter(&mut self, correct: bool)
        requires
            old(self).wf(),
            old(self).spec_total() < u32::MAX,
        ensures
            final(self).lps@ == old(self).lps@,
            final(self).letter_count == old(self).letter_count + 1,
            final(self).incorrect_letters == old(self).incorrect_letters + (
                if correct { 0int } else { 1int }),
            final(self).wf(),
    {
        proof {
            lemma_lps_sum_nonneg(self.lps@);
        }
        self.letter_count = self.letter_count + 1;
        if !correct {
            self.incorrect_letters = self.incorrect_letters + 1;
        }
    }

    /// Total letters over all finished seconds.
    pub fn total_letters(&self) -> (r: u32)
        requires
            self.wf(),
        ensures
            r == lps_sum(self.lps@),
    {
        let mut sum: u32 = 0;
        let mut i: usize = 0;
        while i < self.lps.len()
            invariant
                0 <= i <= self.lps@.len(),
                sum == lps_sum(self.lps@.subrange(0, i as int)),
                self.wf(),
            decreases self.lps@.len() - i,
        {
            proof {
                lemma_lps_sum_prefix(self.lps@, i + 1);
                assert(self.lps@.subrange(0, i + 1).drop_last() == self.lps@.subrange(
                    0,
                    i as int,
                ));
                assert(self.lps@.subrange(0, i + 1).last() == self.lps@[i as int]);
                assert(lps_sum(self.lps@.subrange(0, i + 1)) == sum + self.lps@[i as int]);
            }
            sum = sum + self.lps[i];
            i = i + 1;
        }
        proof {
            assert(self.lps@.subrange(0, self.lps@.len() as int) == self.lps@);
        }
        sum
    }

    /// Number of whole seconds that have elapsed.
    pub fn total_seconds(&self) -> (r: usize)
        ensures
            r == self.lps@.len(),
    {
        self.lps.len()
    }

    /// Words per minute counting every typed letter, a word being five
    /// letters; zero when no whole second has elapsed.
    pub fn raw_wpm(&self) -> (r: u64)
        requires
            self.wf(),
        ensures
            self.lps@.len() == 0 ==> r == 0,
            self.lps@.len() > 0 ==> r == (lps_sum(self.lps@) / 5) * 60 / (self.lps@.len() as int),
    {
        let seconds = self.lps.len();
        if seconds == 0 {
            return 0;
        }
        let total = self.total_letters();
        ((total as u64 / 5) * 60) / (seconds as u64)
    }

    /// Words per minute counting only net-correct letters; zero when no whole
    /// second has elapsed, and zero rather than negative when more letters
    /// were mistyped than whole seconds have recorded.
    pub fn wpm(&self) -> (r: u64)
        requires
            self.wf(),
        ensures
            self.lps@.len() == 0 ==> r == 0,
            self.lps@.len() > 0 && self.incorrect_letters <= lps_sum(self.lps@) ==> r == ((lps_sum(
                self.lps@,
            ) - self.incorrect_letters) / 5) * 60 / (self.lps@.len() as int),
            self.lps@.len() > 0 && self.incorrect_letters > lps_sum(self.lps@) ==> r == 0,
    {
        let seconds = self.lps.len();
        if seconds == 0 {
            return 0;
        }
        let total = self.total_letters();
        if self.incorrect_letters > total {
            return 0;
        }
        (((total - self.incorrect_letters) as u64 / 5) * 60) / (seconds as u64)
    }

    /// Share of correctly typed letters over the finished seconds, in whole
    /// percent: always within zero and one hundred, zero when nothing was
    /// recorded, one hundred exactly when nothing was mistyped.
    pub fn accuracy(&self) -> (r: u32)
        requires
            self.wf(),
        ensures
            lps_sum(self.lps@) == 0 ==> r == 0,
            lps_sum(self.lps@) > 0 && self.incorrect_letters <= lps_sum(self.lps@) ==> r == 100
                - self.incorrect_letters * 100 / lps_sum(self.lps@),
            lps_sum(self.lps@) > 0 && self.incorrect_letters > lps_sum(self.lps@) ==> r == 0,
            r <= 100,
            lps_sum(self.lps@) > 0 && self.incorrect_letters == 0 ==> r == 100,
    {
        let total = self.total_letters();
        if total == 0 {
            return 0;
        }
        if self.incorrect_letters > total {
            return 0;
        }
        let part = (self.incorrect_letters as u64) * 100 / (total as u64);
        proof {
            vstd::arithmetic::div_mod::lemma_div_is_ordered(
                self.incorrect_letters * 100,
                total * 100,
                total as int,
            );
            vstd::arithmetic::div_mod::lemma_div_multiples_vanish(100, total as int);
            assert(total * 100 == (total as int) * 100) by (nonlinear_arith);
        }
        assert(part <= 100);
        100 - (part as u32)
    }
}

} // verus!
