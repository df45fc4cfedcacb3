//! Score history: one record per finished session, kept sorted by time with
//! only the ten most recent retained, and running averages over all
//! sessions ever played.

use vstd::prelude::*;

use vstd::seq_lib::{
    group_to_multiset_ensures, lemma_multiset_commutative, to_multiset_update,
};

verus! {

/// How many score records the history keeps.
pub const HISTORY_CAP: usize = 10;

/// One finished session's score. The timestamp counts seconds; accuracy is
/// kept in hundredths of a percent.
#[derive(Clone, Copy, Debug, PartialEq, Eq, Structural)]
pub struct Score {
    pub timestamp: u64,
    pub wpm: u32,
    pub raw: u32,
    pub accuracy: u32,
}

/// Newest first: timestamps never increase along the sequence.
pub open spec fn sorted_desc(s: Seq<Score>) -> bool {
    forall|a: int, b: int| 0 <= a < b < s.len() ==> s[a].timestamp >= s[b].timestamp
}

/// Swapping two neighbours leaves the records of a sequence unchanged.
proof fn lemma_swap_multiset(s: Seq<Score>, j: int)
    requires
        0 < j < s.len(),
    ensures
        s.update(j - 1, s[j]).update(j, s[j - 1]).to_multiset() == s.to_multiset(),
{
    broadcast use to_multiset_update;
    broadcast use group_to_multiset_ensures;

    let s1 = s.update(j - 1, s[j]);
    assert(s1[j] == s[j]);
    assert(s.to_multiset().contains(s[j - 1]));
    assert(s1.to_multiset() == s.to_multiset().insert(s[j]).remove(s[j - 1]));
    assert(s1.update(j, s[j - 1]).to_multiset() =~= s.to_multiset());
}

impl Score {
    pub fn new(timestamp: u64, wpm: u32, raw: u32, accuracy: u32) -> (r: Score)
        ensures
            r == (Score { timestamp, wpm, raw, accuracy }),
    {
        Score { timestamp, wpm, raw, accuracy }
    }

    /// Sorts the records newest first, keeping exactly the same records.
    pub fn sort_scores(scores: &mut Vec<Score>)
        ensures
            sorted_desc(final(scores)@),
            final(scores)@.to_multiset() == old(scores)@.to_multiset(),
            final(scores)@.len() == old(scores)@.len(),
    {
        let ghost orig = scores@;
        let mut i: usize = 1;
        while i < scores.len()
            invariant
                1 <= i,
                scores@.len() == orig.len(),
                scores@.to_multiset() == orig.to_multiset(),
                i >= orig.len() ==> sorted_desc(scores@),
                i < orig.len() ==> sorted_desc(scores@.subrange(0, i as int)),
            decreases orig.len() - i,
        {
            let mut j: usize = i;
            proof {
                assert forall|a: int, b: int| 0 <= a < b <= i && b != i implies (
                #[trigger] scores@[a]).timestamp >= (#[trigger] scores@[b]).timestamp by {
                    assert(scores@.subrange(0, i as int)[a] == scores@[a]);
                    assert(scores@.subrange(0, i as int)[b] == scores@[b]);
                }
            }
            while j > 0 && scores[j - 1].timestamp < scores[j].timestamp
                invariant
                    0 <= j <= i < scores@.len(),
                    scores@.len() == orig.len(),
                    scores@.to_multiset() == orig.to_multiset(),
                    forall|a: int, b: int|
                        0 <= a < b <= i && b != j ==> (#[trigger] scores@[a]).timestamp
                            >= (#[trigger] scores@[b]).timestamp,
                decreases j,
            {
                let ghost before = scores@;
                let a = scores[j - 1];
                let b = scores[j];
                scores[j - 1] = b;
                scores[j] = a;
                proof {
                    lemma_swap_multiset(before, j as int);
                    assert(scores@ == before.update(j - 1, before[j as int]).update(
                        j as int,
                        before[j - 1],
                    ));
                }
                j = j - 1;
            }
            proof {
                let s = scores@;
                assert forall|a: int, b: int| 0 <= a < b <= i implies (#[trigger] s[a]).timestamp
                    >= (#[trigger] s[b]).timestamp by {
                    if b == j {
                        assert(j > 0);
                        assert(s[j - 1].timestamp >= s[j as int].timestamp);
                        if a < j - 1 {
                            assert(s[a].timestamp >= s[j - 1].timestamp);
                        }
                    }
                }
                assert(sorted_desc(s.subrange(0, i + 1)));
            }
            i = i + 1;
        }
    }

    /// The history after one more session: the new record is appended, and
    /// once the cap is passed only the newest records are kept — every
    /// record kept is at least as recent as every record dropped.
    pub fn update_scores(scores: Vec<Score>, score: Score) -> (r: Vec<Score>)
        ensures
            scores@.len() + 1 <= HISTORY_CAP ==> r@ == scores@.push(score),
            scores@.len() + 1 > HISTORY_CAP ==> {
                let full = scores@.push(score);
                &&& r@.len() == HISTORY_CAP
                &&& sorted_desc(r@)
                &&& r@.to_multiset().subset_of(full.to_multiset())
                &&& forall|x: Score|
                    full.to_multiset().count(x) > r@.to_multiset().count(x) ==> forall|i: int|
                        0 <= i < r@.len() ==> (#[trigger] r@[i]).timestamp >= x.timestamp
            },
    {
        broadcast use group_to_multiset_ensures;

        let mut scores = scores;
        scores.push(score);
        if scores.len() > HISTORY_CAP {
            Self::sort_scores(&mut scores);
            let ghost sorted = scores@;
            scores.truncate(HISTORY_CAP);
            proof {
                let kept = sorted.subrange(0, HISTORY_CAP as int);
                let rest = sorted.subrange(HISTORY_CAP as int, sorted.len() as int);
                assert(sorted == kept + rest);
                lemma_multiset_commutative(kept, rest);
                assert forall|x: Score|
                    sorted.to_multiset().count(x) > kept.to_multiset().count(x) implies forall|
                    i: int,
                |
                    0 <= i < kept.len() ==> (#[trigger] kept[i]).timestamp >= x.timestamp by {
                    assert(rest.to_multiset().count(x) > 0);
                    assert(rest.contains(x));
                    let jr = choose|jr: int| 0 <= jr < rest.len() && rest[jr] == x;
                    assert(sorted[HISTORY_CAP + jr] == x);
                    assert forall|i: int| 0 <= i < kept.len() implies (#[trigger] kept[i]).timestamp
                        >= x.timestamp by {
                        assert(sorted[i] == kept[i]);
                        assert(sorted[i].timestamp >= sorted[HISTORY_CAP + jr].timestamp);
                    }
                }
                assert forall|x: Score| true implies kept.to_multiset().count(x)
                    <= sorted.to_multiset().count(x) by {
                    assert(sorted.to_multiset().count(x) == kept.to_multiset().count(x)
                        + rest.to_multiset().count(x));
                }
            }
        }
        scores
    }
}

/// A running average: how many values went in, and their sum.
#[derive(Clone, Copy, Debug, PartialEq, Eq, Structural)]
pub struct WpmAvg {
    pub count: u32,
    pub sum_all: u32,
}

#[derive(Clone, Copy, Debug, PartialEq, Eq, Structural)]
pub struct RawAvg {
    pub count: u32,
    pub sum_all: u32,
}

/// The accuracy sum is kept in hundredths of a percent, like the scores.
#[derive(Clone, Copy, Debug, PartialEq, Eq, Structural)]
pub struct AccuracyAvg {
    pub count: u32,
    pub sum_all: u64,
}

/// The running averages over every session ever played.
#[derive(Clone, Copy, Debug, PartialEq, Eq, Structural)]
pub struct Averages {
    pub wpm_avg: WpmAvg,
    pub raw_avg: RawAvg,
    pub accuracy_avg: AccuracyAvg,
}

impl Averages {
    /// The averages after one more session: each sum grows by the score's
    /// value and each count by one.
    pub fn calculate_averages(&self, score: &Score) -> (r: Averages)
        requires
            self.wpm_avg.sum_all + score.wpm <= u32::MAX,
            self.raw_avg.sum_all + score.raw <= u32::MAX,
            self.accuracy_avg.sum_all + score.accuracy <= u64::MAX,
            self.wpm_avg.count < u32::MAX,
            self.raw_avg.count < u32::MAX,
            self.accuracy_avg.count < u32::MAX,
        ensures
            r.wpm_avg.sum_all == self.wpm_avg.sum_all + score.wpm,
            r.wpm_avg.count == self.wpm_avg.count + 1,
            r.raw_avg.sum_all == self.raw_avg.sum_all + score.raw,
            r.raw_avg.count == self.raw_avg.count + 1,
            r.accuracy_avg.sum_all == self.accuracy_avg.sum_all + score.accuracy,
            r.accuracy_avg.count == self.accuracy_avg.count + 1,
    {
        Averages {
            wpm_avg: WpmAvg {
                count: self.wpm_avg.count + 1,
                sum_all: self.wpm_avg.sum_all + score.wpm,
            },
            raw_avg: RawAvg {
                count: self.raw_avg.count + 1,
                sum_all: self.raw_avg.sum_all + score.raw,
            },
            accuracy_avg: AccuracyAvg {
                count: self.accuracy_avg.count + 1,
                sum_all: self.accuracy_avg.sum_all + (score.accuracy as u64),
            },
        }
    }

    /// The whole part of a running average, zero when nothing went in.
    pub fn average_of(sum: u64, count: u32) -> (r: u64)
        ensures
            count == 0 ==> r == 0,
            count > 0 ==> r == sum as int / count as int,
    {
        if count == 0 {
            0
        } else {
            sum / (count as u64)
        }
    }
}

/// The whole persisted state: the recent scores and the running averages.
#[derive(Debug)]
pub struct Data {
    pub scores: Vec<Score>,
    pub averages: Averages,
}

impl Data {
    pub fn new(scores: Vec<Score>, averages: Averages) -> (r: Data)
        ensures
            r.scores@ == scores@,
            r.averages == averages,
    {
        Data { scores, averages }
    }
}

impl Default for Data {
    /// An empty history: no scores, every average at zero.
    fn default() -> (r: Data)
        ensures
            r.scores@ == Seq::<Score>::empty(),
            r.averages == (Averages {
                wpm_avg: WpmAvg { count: 0, sum_all: 0 },
                raw_avg: RawAvg { count: 0, sum_all: 0 },
                accuracy_avg: AccuracyAvg { count: 0, sum_all: 0 },
            }),
    {
        Data {
            scores: Vec::new(),
            averages: Averages {
                wpm_avg: WpmAvg { count: 0, sum_all: 0 },
                raw_avg: RawAvg { count: 0, sum_all: 0 },
                accuracy_avg: AccuracyAvg { count: 0, sum_all: 0 },
            },
        }
    }
}

} // verus!
