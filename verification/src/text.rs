//! The text of a row of words: the words joined by single separating spaces,
//! together with the prefix widths that skip-ahead targets are computed from.

use vstd::prelude::*;

verus! {

/// Width of the first `k` words of a row when rendered, counting one
/// separating space after each word: the sum of `row[i].len() + 1` for
/// `i < k`.
pub open spec fn prefix_width(row: Seq<Seq<char>>, k: int) -> int
    decreases k,
{
    if k <= 0 {
        0
    } else {
        prefix_width(row, k - 1) + row[k - 1].len() + 1
    }
}

/// The text of a row: its words joined by single spaces.
pub open spec fn row_text(row: Seq<Seq<char>>) -> Seq<char>
    decreases row.len(),
{
    if row.len() == 0 {
        Seq::empty()
    } else if row.len() == 1 {
        row[0]
    } else {
        row_text(row.drop_last()) + seq![' '] + row.last()
    }
}

/// Every word of the row is non-empty and free of spaces.
pub open spec fn wf_words(row: Seq<Seq<char>>) -> bool {
    &&& forall|k: int| 0 <= k < row.len() ==> (#[trigger] row[k]).len() > 0
    &&& forall|k: int, j: int|
        0 <= k < row.len() && 0 <= j < row[k].len() ==> #[trigger] row[k][j] != ' '
}

/// Prefix widths agree between rows that agree on their first `k` words.
pub proof fn lemma_prefix_width_congruent(r1: Seq<Seq<char>>, r2: Seq<Seq<char>>, k: int)
    requires
        forall|i: int| 0 <= i < k ==> r1[i] == r2[i],
    ensures
        prefix_width(r1, k) == prefix_width(r2, k),
    decreases k,
{
    if k > 0 {
        lemma_prefix_width_congruent(r1, r2, k - 1);
    }
}

/// Each word contributes at least its separating space to the prefix width.
pub proof fn lemma_prefix_width_nonneg(row: Seq<Seq<char>>, k: int)
    ensures
        prefix_width(row, k) >= k,
    decreases k,
{
    if k > 0 {
        lemma_prefix_width_nonneg(row, k - 1);
    }
}

/// Prefix width grows by at least one per word: it is strictly monotone.
pub proof fn lemma_prefix_width_mono(row: Seq<Seq<char>>, k1: int, k2: int)
    requires
        0 <= k1 <= k2,
    ensures
        prefix_width(row, k1) + (k2 - k1) <= prefix_width(row, k2),
        prefix_width(row, k1) >= k1,
    decreases k2 - k1,
{
    lemma_prefix_width_nonneg(row, k1);
    if k2 > k1 {
        lemma_prefix_width_mono(row, k1, k2 - 1);
    }
}

/// The length of the row text: the full prefix width, less the one space
/// that does not follow the last word.
pub proof fn lemma_row_text_len(row: Seq<Seq<char>>)
    ensures
        row.len() == 0 ==> row_text(row).len() == 0,
        row.len() > 0 ==> row_text(row).len() == prefix_width(row, row.len() as int) - 1,
    decreases row.len(),
{
    if row.len() == 1 {
        assert(prefix_width(row, 0) == 0);
    } else if row.len() > 1 {
        lemma_row_text_len(row.drop_last());
        lemma_prefix_width_congruent(row.drop_last(), row, row.len() - 1);
    }
}

/// Within word `k`, the row text carries that word's characters.
pub proof fn lemma_row_text_word_char(row: Seq<Seq<char>>, k: int, j: int)
    requires
        0 <= k < row.len(),
        0 <= j < row[k].len(),
    ensures
        0 <= prefix_width(row, k) + j < row_text(row).len(),
        row_text(row)[prefix_width(row, k) + j] == row[k][j],
    decreases row.len(),
{
    lemma_row_text_len(row);
    lemma_prefix_width_mono(row, 0, k);
    lemma_prefix_width_mono(row, k + 1, row.len() as int);
    if k == row.len() - 1 {
        if row.len() > 1 {
            lemma_row_text_len(row.drop_last());
            lemma_prefix_width_congruent(row.drop_last(), row, k);
        }
    } else {
        lemma_row_text_word_char(row.drop_last(), k, j);
        lemma_prefix_width_congruent(row.drop_last(), row, k);
        lemma_row_text_len(row.drop_last());
        lemma_prefix_width_mono(row.drop_last(), k + 1, row.len() - 1);
    }
}

/// Right before word `k` the row text carries a separating space.
pub proof fn lemma_row_text_sep(row: Seq<Seq<char>>, k: int)
    requires
        1 <= k < row.len(),
    ensures
        0 <= prefix_width(row, k) - 1 < row_text(row).len(),
        row_text(row)[prefix_width(row, k) - 1] == ' ',
    decreases row.len(),
{
    lemma_row_text_len(row);
    lemma_prefix_width_mono(row, 0, k);
    lemma_prefix_width_mono(row, k, row.len() as int);
    lemma_row_text_len(row.drop_last());
    lemma_prefix_width_congruent(row.drop_last(), row, row.len() - 1);
    if k == row.len() - 1 {
        lemma_prefix_width_congruent(row.drop_last(), row, k);
    } else {
        lemma_row_text_sep(row.drop_last(), k);
        lemma_prefix_width_congruent(row.drop_last(), row, k);
        lemma_prefix_width_mono(row.drop_last(), k, row.len() - 1);
    }
}

/// In a row of non-empty, space-free words, every space in the row text is a
/// separator: it sits right before some word.
pub proof fn lemma_space_is_sep(row: Seq<Seq<char>>, i: int)
    requires
        wf_words(row),
        0 <= i < row_text(row).len(),
        row_text(row)[i] == ' ',
    ensures
        exists|k: int| 1 <= k < row.len() && i == prefix_width(row, k) - 1,
    decreases row.len(),
{
    if row.len() <= 1 {
        assert(row_text(row)[i] != ' ');
    } else {
        let prev = row.drop_last();
        lemma_row_text_len(prev);
        let a = row_text(prev).len();
        if i < a {
            assert(wf_words(prev)) by {
                assert(forall|k: int| 0 <= k < prev.len() ==> prev[k] == row[k]);
            }
            lemma_space_is_sep(prev, i);
            let k = choose|k: int| 1 <= k < prev.len() && i == prefix_width(prev, k) - 1;
            lemma_prefix_width_congruent(prev, row, k);
            assert(1 <= k < row.len() && i == prefix_width(row, k) - 1);
        } else if i == a {
            lemma_prefix_width_congruent(prev, row, row.len() - 1);
            assert(i == prefix_width(row, row.len() - 1) - 1);
        } else {
            assert(row_text(row)[i] == row.last()[i - a - 1]);
            assert(row[row.len() - 1][i - a - 1] != ' ');
        }
    }
}

/// Relies on `str`'s `PartialEq`: string slices are equal exactly when
/// their character sequences are.
#[verifier::external_body]
pub(crate) fn str_eq(a: &str, b: &str) -> (r: bool)
    ensures
        r == (a@ == b@),
{
    a == b
}

/// The words of a row joined by single spaces, as a string.
pub fn join_words(words: &Vec<String>) -> (r: String)
    ensures
        r@ == row_text(words.deep_view()),
{
    let ghost dv = words.deep_view();
    let mut r = String::new();
    let mut i: usize = 0;
    while i < words.len()
        invariant
            0 <= i <= words@.len(),
            dv == words.deep_view(),
            dv.len() == words@.len(),
            r@ == row_text(dv.subrange(0, i as int)),
        decreases words@.len() - i,
    {
        if i > 0 {
            r.append(" ");
        }
        r.append(words[i].as_str());
        proof {
            reveal_strlit(" ");
            assert(dv.subrange(0, i + 1).drop_last() == dv.subrange(0, i as int));
            assert(dv.subrange(0, i + 1).last() == dv[i as int]);
            assert(dv[i as int] == words@[i as int]@);
            if i == 0 {
                assert(r@ =~= row_text(dv.subrange(0, i + 1)));
            } else {
                assert(row_text(dv.subrange(0, i + 1)) == row_text(dv.subrange(0, i as int))
                    + seq![' '] + dv[i as int]);
                assert(r@ =~= row_text(dv.subrange(0, i + 1)));
            }
        }
        i = i + 1;
    }
    proof {
        assert(dv.subrange(0, dv.len() as int) == dv);
    }
    r
}

} // verus!
