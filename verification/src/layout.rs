//! Building rows of words for one session: random words are drawn from a
//! pool and packed into a row until the next word would overflow the line
//! budget, counting the single spaces that separate the words.

use vstd::prelude::*;

use rand::seq::IndexedRandom;

use crate::text::{row_text, wf_words};

verus! {

/// The line budget of one row, in characters.
pub const LENGTH: i32 = 70;

/// How many rows one session shows.
pub const ROWS_PER_SESSION: usize = 3;

/// Sum of the lengths of a sequence of words, with no separators counted.
pub open spec fn words_len_sum(ws: Seq<Seq<char>>) -> int
    decreases ws.len(),
{
    if ws.len() == 0 {
        0
    } else {
        words_len_sum(ws.drop_last()) + ws.last().len()
    }
}

/// Word lengths are never negative, so the sum dominates every prefix sum.
pub proof fn lemma_words_len_sum_prefix(ws: Seq<Seq<char>>, k: int)
    requires
        0 <= k <= ws.len(),
    ensures
        0 <= words_len_sum(ws.subrange(0, k)) <= words_len_sum(ws),
    decreases ws.len(),
{
    if ws.len() == 0 {
    } else if k == ws.len() {
        assert(ws.subrange(0, k) == ws);
        lemma_words_len_sum_prefix(ws.drop_last(), ws.len() - 1);
        assert(ws.drop_last() == ws.subrange(0, ws.len() - 1));
    } else {
        lemma_words_len_sum_prefix(ws.drop_last(), k);
        assert(ws.drop_last().subrange(0, k) == ws.subrange(0, k));
    }
}

/// A pool fit to draw words from: every word non-empty and free of spaces.
pub open spec fn pool_wf(ws: Seq<Seq<char>>) -> bool {
    forall|j: int|
        0 <= j < ws.len() ==> (#[trigger] ws[j]).len() > 0 && (forall|i: int|
            0 <= i < ws[j].len() ==> ws[j][i] != ' ')
}

/// Whether `w` is the text of one of the pool's words.
pub open spec fn in_pool(w: Seq<char>, pool: Seq<Seq<char>>) -> bool {
    exists|j: int| 0 <= j < pool.len() && w == pool[j]
}

/// Relies on rand's `IndexedRandom::choose`: it returns a uniformly sampled
/// element of the slice, and `None` only when the slice is empty.
#[verifier::external_body]
fn random_word(words: &Vec<String>) -> (r: String)
    requires
        words@.len() > 0,
    ensures
        in_pool(r@, words.deep_view()),
{
    let mut rng = rand::rng();
    words.as_slice().choose(&mut rng).unwrap().clone()
}

/// Whether `word` still fits a row already holding `fitted_words`, against a
/// budget counting word lengths alone.
pub fn check_if_fits(word: &str, fitted_words: &Vec<String>, length: i32) -> (r: bool)
    ensures
        r == (words_len_sum(fitted_words.deep_view()) + word@.len() <= length),
{
    let ghost dv = fitted_words.deep_view();
    if length < 0 {
        proof {
            lemma_words_len_sum_prefix(dv, dv.len() as int);
            assert(dv.subrange(0, dv.len() as int) == dv);
        }
        return false;
    }
    let budget = length as u64;
    let mut sum: u64 = 0;
    let mut i: usize = 0;
    while i < fitted_words.len()
        invariant
            0 <= i <= dv.len(),
            dv == fitted_words.deep_view(),
            dv.len() == fitted_words@.len(),
            budget == length,
            length >= 0,
            sum == words_len_sum(dv.subrange(0, i as int)),
            sum <= budget,
        decreases dv.len() - i,
    {
        let wl64 = fitted_words[i].as_str().unicode_len() as u64;
        proof {
            assert(dv.subrange(0, i + 1).drop_last() == dv.subrange(0, i as int));
            assert(dv.subrange(0, i + 1).last() == dv[i as int]);
        }
        if wl64 > budget - sum {
            proof {
                lemma_words_len_sum_prefix(dv, i + 1);
            }
            return false;
        }
        sum = sum + wl64;
        i = i + 1;
    }
    proof {
        assert(dv.subrange(0, dv.len() as int) == dv);
    }
    let wl64 = word.unicode_len() as u64;
    if wl64 > budget - sum {
        return false;
    }
    true
}

/// One row of randomly drawn words: as many as fit the budget, counting the
/// separating spaces. Drawing is random, so the row is pinned only up to the
/// pool: every word comes from the pool, the rendered row never exceeds the
/// budget, and the row ends only because some pool word would not have fit.
pub fn find(words: &Vec<String>, length: i32) -> (r: Vec<String>)
    requires
        words@.len() > 0,
        pool_wf(words.deep_view()),
    ensures
        wf_words(r.deep_view()),
        forall|i: int|
            0 <= i < r.deep_view().len() ==> in_pool(#[trigger] r.deep_view()[i], words.deep_view()),
        length >= 0 ==> row_text(r.deep_view()).len() <= length,
        length < 0 ==> r.deep_view().len() == 0,
        exists|j: int|
            0 <= j < words@.len() && (if r.deep_view().len() == 0 {
                (#[trigger] words@[j]@).len() > length
            } else {
                row_text(r.deep_view()).len() + 1 + words@[j]@.len() > length
            }),
        (forall|j: int| 0 <= j < words@.len() ==> (#[trigger] words@[j]@).len() <= length)
            ==> r.deep_view().len() > 0,
{
    let mut fitted: Vec<String> = Vec::new();
    let mut word = random_word(words);
    let mut wl = word.as_str().unicode_len();
    let budget: u64 = if length >= 0 {
        length as u64
    } else {
        0
    };
    let mut cur: u64 = 0;
    let mut fits: bool = length >= 0 && (wl as u64) <= budget;
    while fits
        invariant
            words@.len() > 0,
            pool_wf(words.deep_view()),
            wf_words(fitted.deep_view()),
            forall|i: int|
                0 <= i < fitted.deep_view().len() ==> in_pool(
                    #[trigger] fitted.deep_view()[i],
                    words.deep_view(),
                ),
            in_pool(word@, words.deep_view()),
            wl == word@.len(),
            cur == row_text(fitted.deep_view()).len(),
            fitted.deep_view().len() == 0 ==> cur == 0,
            length >= 0 ==> budget == length && cur <= budget,
            length < 0 ==> fitted.deep_view().len() == 0,
            fits ==> length >= 0,
            fits ==> (if fitted.deep_view().len() == 0 {
                wl <= budget
            } else {
                cur + 1 + wl <= budget
            }),
            !fits && length >= 0 ==> (if fitted.deep_view().len() == 0 {
                wl > budget
            } else {
                cur + 1 + wl > budget
            }),
        decreases budget + 1 - cur,
    {
        let ghost fdv0 = fitted.deep_view();
        let ghost w0 = word@;
        proof {
            let pushed = fdv0.push(w0);
            assert(pushed.drop_last() == fdv0);
            assert(pushed.last() == w0);
            if fdv0.len() > 0 {
                assert(row_text(pushed) == row_text(fdv0) + seq![' '] + w0);
            }
        }
        let was_empty = fitted.len() == 0;
        cur = if was_empty {
            wl as u64
        } else {
            cur + 1 + (wl as u64)
        };
        fitted.push(word);
        proof {
            let pool = words.deep_view();
            let jw = choose|j: int| 0 <= j < pool.len() && w0 == pool[j];
            assert(pool[jw].len() > 0);
            assert(forall|i2: int| 0 <= i2 < pool[jw].len() ==> pool[jw][i2] != ' ');
            let fdv = fitted.deep_view();
            assert(fdv =~= fdv0.push(w0));
            assert forall|i: int| 0 <= i < fdv.len() implies in_pool(
                #[trigger] fdv[i],
                pool,
            ) by {
                if i < fdv0.len() {
                    assert(fdv[i] == fdv0[i]);
                } else {
                    assert(fdv[i] == pool[jw]);
                }
            }
            assert forall|k: int| 0 <= k < fdv.len() implies (#[trigger] fdv[k]).len() > 0 by {
                if k == fdv0.len() {
                    assert(fdv[k] == pool[jw]);
                }
            }
            assert forall|k: int, i2: int|
                0 <= k < fdv.len() && 0 <= i2 < fdv[k].len() implies #[trigger] fdv[k][i2]
                != ' ' by {
                if k == fdv0.len() {
                    assert(fdv[k] == pool[jw]);
                }
            }
        }
        word = random_word(words);
        wl = word.as_str().unicode_len();
        fits = if fitted.len() == 0 {
            (wl as u64) <= budget
        } else {
            (wl as u64) <= budget && cur + 1 + (wl as u64) <= budget
        };
    }
    fitted
}

/// The rows of one session: three rows drawn against the line budget.
pub fn get_words(words: &Vec<String>) -> (r: Vec<Vec<String>>)
    requires
        words@.len() > 0,
        pool_wf(words.deep_view()),
    ensures
        r@.len() == ROWS_PER_SESSION,
        forall|i: int|
            0 <= i < r@.len() ==> wf_words(#[trigger] r@[i].deep_view()) && row_text(
                r@[i].deep_view(),
            ).len() <= LENGTH,
        forall|i: int, k: int|
            0 <= i < r@.len() && 0 <= k < r@[i].deep_view().len() ==> in_pool(
                #[trigger] r@[i].deep_view()[k],
                words.deep_view(),
            ),
        (forall|j: int| 0 <= j < words@.len() ==> (#[trigger] words@[j]@).len() <= LENGTH)
            ==> forall|i: int| 0 <= i < r@.len() ==> (#[trigger] r@[i].deep_view()).len() > 0,
{
    let mut rows: Vec<Vec<String>> = Vec::new();
    let mut i: usize = 0;
    while i < ROWS_PER_SESSION
        invariant
            0 <= i <= ROWS_PER_SESSION,
            words@.len() > 0,
            pool_wf(words.deep_view()),
            rows@.len() == i,
            forall|k: int|
                0 <= k < rows@.len() ==> wf_words(#[trigger] rows@[k].deep_view()) && row_text(
                    rows@[k].deep_view(),
                ).len() <= LENGTH,
            forall|k: int, k2: int|
                0 <= k < rows@.len() && 0 <= k2 < rows@[k].deep_view().len() ==> in_pool(
                    #[trigger] rows@[k].deep_view()[k2],
                    words.deep_view(),
                ),
            (forall|j: int| 0 <= j < words@.len() ==> (#[trigger] words@[j]@).len() <= LENGTH)
                ==> forall|k: int| 0 <= k < rows@.len() ==> (#[trigger] rows@[k].deep_view()).len()
                > 0,
        decreases ROWS_PER_SESSION - i,
    {
        let row = find(words, LENGTH);
        rows.push(row);
        i = i + 1;
    }
    rows
}

} // verus!
