//! Game modes: parsing the mode names given on the command line, and the
//! random text transformations — uppercasing letters and sprinkling
//! punctuation — applied to the word rows before play begins.

use vstd::prelude::*;

use rand::RngExt;

use crate::text::str_eq;

verus! {

/// A way the text is mutated before the session starts.
#[derive(Clone, Copy, Debug, PartialEq, Eq, Structural)]
pub enum ModeType {
    Normal,
    Uppercase,
    Punctuation,
}

/// The mode a session runs under: the transformations to apply and the
/// session length in seconds.
#[derive(Debug)]
pub struct Mode {
    pub modes: Vec<ModeType>,
    pub duration: u64,
}

/// The mode named by a string, if any.
pub open spec fn parse_mode(s: Seq<char>) -> Option<ModeType> {
    if s == "normal"@ {
        Option::Some(ModeType::Normal)
    } else if s == "uppercase"@ {
        Option::Some(ModeType::Uppercase)
    } else if s == "punctuation"@ {
        Option::Some(ModeType::Punctuation)
    } else {
        Option::None
    }
}

/// The uppercase form of a character, as `char::to_uppercase` yields it
/// (its first character, which keeps widths one-for-one).
pub uninterp spec fn upper_char(c: char) -> char;

/// Relies on `char::to_uppercase`: the mapping depends on the character
/// alone; the iterator always yields at least one character.
#[verifier::external_body]
fn to_upper(c: char) -> (r: char)
    ensures
        r == upper_char(c),
{
    c.to_uppercase().next().unwrap()
}

/// Relies on rand's `RngExt::random_range`: a value drawn uniformly below
/// the bound.
#[verifier::external_body]
fn random_below(n: u32) -> (r: u32)
    requires
        n > 0,
    ensures
        r < n,
{
    rand::rng().random_range(0..n)
}

/// Relies on `String::push`: it appends exactly one character.
#[verifier::external_body]
fn push_char(s: &mut String, c: char)
    ensures
        final(s)@ == old(s)@.push(c),
{
    s.push(c);
}

/// `b` is `a` with each character kept or replaced by its uppercase form.
pub open spec fn uppered(a: Seq<char>, b: Seq<char>) -> bool {
    &&& b.len() == a.len()
    &&& forall|k: int| 0 <= k < a.len() ==> #[trigger] b[k] == a[k] || b[k] == upper_char(a[k])
}

/// One of the punctuation marks the punctuation mode sprinkles.
pub open spec fn is_punct_char(c: char) -> bool {
    c == '.' || c == ',' || c == '!' || c == '?' || c == ';' || c == ':' || c == '-'
}

/// `b` is `a`, possibly with one punctuation mark appended.
pub open spec fn punct_appended(a: Seq<char>, b: Seq<char>) -> bool {
    ||| b == a
    ||| {
        &&& b.len() == a.len() + 1
        &&& (forall|k: int| 0 <= k < a.len() ==> #[trigger] b[k] == a[k])
        &&& is_punct_char(b[a.len() as int])
    }
}

/// Rows `b` have the same shape as rows `a`: as many rows, of as many words.
pub open spec fn rows_same_shape(a: Seq<Vec<String>>, b: Seq<Vec<String>>) -> bool {
    &&& b.len() == a.len()
    &&& forall|i: int| 0 <= i < a.len() ==> (#[trigger] b[i])@.len() == a[i]@.len()
}

/// Rows `b` are rows `a` with every word uppercased character by character.
pub open spec fn rows_uppered(a: Seq<Vec<String>>, b: Seq<Vec<String>>) -> bool {
    &&& rows_same_shape(a, b)
    &&& forall|i: int, j: int|
        0 <= i < a.len() && 0 <= j < a[i]@.len() ==> uppered(a[i]@[j]@, (#[trigger] b[i]@[j])@)
}

/// Rows `b` are rows `a` with punctuation possibly appended to every word
/// but the last of each row, which is untouched.
pub open spec fn rows_punctuated(a: Seq<Vec<String>>, b: Seq<Vec<String>>) -> bool {
    &&& rows_same_shape(a, b)
    &&& forall|i: int, j: int|
        0 <= i < a.len() && 0 <= j < a[i]@.len() ==> (if j + 1 == a[i]@.len() {
            (#[trigger] b[i]@[j])@ == a[i]@[j]@
        } else {
            punct_appended(a[i]@[j]@, b[i]@[j]@)
        })
}

/// One word with each character uppercased at random, one chance in five.
fn uppercase_word(word: &String) -> (r: String)
    ensures
        uppered(word@, r@),
{
    let mut out = String::new();
    let n = word.as_str().unicode_len();
    let mut i: usize = 0;
    while i < n
        invariant
            0 <= i <= n,
            n == word@.len(),
            out@.len() == i,
            forall|k: int| 0 <= k < i ==> #[trigger] out@[k] == word@[k] || out@[k] == upper_char(
                word@[k],
            ),
        decreases n - i,
    {
        let c = word.as_str().get_char(i);
        if random_below(5) == 0 {
            push_char(&mut out, to_upper(c));
        } else {
            push_char(&mut out, c);
        }
        i = i + 1;
    }
    out
}

/// One row with every word uppercased at random.
fn uppercase_row(row: &Vec<String>) -> (r: Vec<String>)
    ensures
        r@.len() == row@.len(),
        forall|j: int| 0 <= j < row@.len() ==> uppered(row@[j]@, (#[trigger] r@[j])@),
{
    let mut out: Vec<String> = Vec::new();
    let mut j: usize = 0;
    while j < row.len()
        invariant
            0 <= j <= row@.len(),
            out@.len() == j,
            forall|k: int| 0 <= k < j ==> uppered(row@[k]@, (#[trigger] out@[k])@),
        decreases row@.len() - j,
    {
        let w = uppercase_word(&row[j]);
        out.push(w);
        j = j + 1;
    }
    out
}

/// One row with a punctuation mark appended, one chance in five, to every
/// word but the last.
fn punctuate_row(row: &Vec<String>) -> (r: Vec<String>)
    ensures
        r@.len() == row@.len(),
        forall|j: int|
            0 <= j < row@.len() ==> (if j + 1 == row@.len() {
                (#[trigger] r@[j])@ == row@[j]@
            } else {
                punct_appended(row@[j]@, r@[j]@)
            }),
{
    let puncts: Vec<char> = vec!['.', ',', '!', '?', ';', ':', '-'];
    let mut out: Vec<String> = Vec::new();
    let mut j: usize = 0;
    while j < row.len()
        invariant
            0 <= j <= row@.len(),
            out@.len() == j,
            puncts@ =~= seq!['.', ',', '!', '?', ';', ':', '-'],
            forall|k: int|
                0 <= k < j ==> (if k + 1 == row@.len() {
                    (#[trigger] out@[k])@ == row@[k]@
                } else {
                    punct_appended(row@[k]@, out@[k]@)
                }),
        decreases row@.len() - j,
    {
        let mut w = row[j].clone();
        if j + 1 < row.len() && random_below(5) == 0 {
            let p = puncts[random_below(7) as usize];
            proof {
                assert(is_punct_char(p));
            }
            push_char(&mut w, p);
        }
        out.push(w);
        j = j + 1;
    }
    out
}

/// Every row uppercased at random.
fn uppercase_pass(list: &mut Vec<Vec<String>>)
    ensures
        rows_uppered(old(list)@, final(list)@),
{
    let ghost orig = list@;
    let mut i: usize = 0;
    while i < list.len()
        invariant
            0 <= i <= orig.len(),
            list@.len() == orig.len(),
            forall|k: int| i <= k < orig.len() ==> #[trigger] list@[k] == orig[k],
            forall|k: int| 0 <= k < i ==> (#[trigger] list@[k])@.len() == orig[k]@.len(),
            forall|k: int, j: int|
                0 <= k < i && 0 <= j < orig[k]@.len() ==> uppered(
                    orig[k]@[j]@,
                    (#[trigger] list@[k]@[j])@,
                ),
        decreases orig.len() - i,
    {
        let row = uppercase_row(&list[i]);
        list[i] = row;
        i = i + 1;
    }
}

/// Every row sprinkled with punctuation at random.
fn punctuate_pass(list: &mut Vec<Vec<String>>)
    ensures
        rows_punctuated(old(list)@, final(list)@),
{
    let ghost orig = list@;
    let mut i: usize = 0;
    while i < list.len()
        invariant
            0 <= i <= orig.len(),
            list@.len() == orig.len(),
            forall|k: int| i <= k < orig.len() ==> #[trigger] list@[k] == orig[k],
            forall|k: int| 0 <= k < i ==> (#[trigger] list@[k])@.len() == orig[k]@.len(),
            forall|k: int, j: int|
                0 <= k < i && 0 <= j < orig[k]@.len() ==> (if j + 1 == orig[k]@.len() {
                    (#[trigger] list@[k]@[j])@ == orig[k]@[j]@
                } else {
                    punct_appended(orig[k]@[j]@, list@[k]@[j]@)
                }),
        decreases orig.len() - i,
    {
        let row = punctuate_row(&list[i]);
        list[i] = row;
        i = i + 1;
    }
}

impl Mode {
    /// Parses the mode names. Any unknown name is an error naming it; no
    /// names default to normal; and normal, if present at all, wins alone.
    pub fn from_str(mode_strs: Vec<&str>) -> (r: Result<Mode, String>)
        ensures
            r is Ok <==> (forall|i: int|
                0 <= i < mode_strs@.len() ==> parse_mode((#[trigger] mode_strs@[i])@) is Some),
            r is Ok ==> ({
                let m = r->Ok_0;
                &&& m.duration == 0
                &&& (mode_strs@.len() == 0 ==> m.modes@ == seq![ModeType::Normal])
                &&& ((exists|i: int|
                    0 <= i < mode_strs@.len() && parse_mode((#[trigger] mode_strs@[i])@)
                        == Option::Some(ModeType::Normal)) ==> m.modes@ == seq![ModeType::Normal])
                &&& (mode_strs@.len() > 0 && (forall|i: int|
                    0 <= i < mode_strs@.len() ==> parse_mode((#[trigger] mode_strs@[i])@)
                        != Option::Some(ModeType::Normal)) ==> {
                    &&& m.modes@.len() == mode_strs@.len()
                    &&& forall|i: int|
                        0 <= i < mode_strs@.len() ==> Option::Some(#[trigger] m.modes@[i])
                            == parse_mode(mode_strs@[i]@)
                })
            }),
            r is Err ==> (exists|i: int|
                {
                    &&& 0 <= i < mode_strs@.len()
                    &&& parse_mode((#[trigger] mode_strs@[i])@) is None
                    &&& (forall|k: int| 0 <= k < i ==> parse_mode((#[trigger] mode_strs@[k])@) is Some)
                    &&& r->Err_0@ == "Invalid mode: "@ + mode_strs@[i]@
                }),
    {
        let mut modes: Vec<ModeType> = Vec::new();
        let mut saw_normal = false;
        let mut i: usize = 0;
        while i < mode_strs.len()
            invariant
                0 <= i <= mode_strs@.len(),
                modes@.len() == i,
                forall|k: int|
                    0 <= k < i ==> Option::Some(#[trigger] modes@[k]) == parse_mode(
                        mode_strs@[k]@,
                    ),
                saw_normal <==> (exists|k: int|
                    0 <= k < i && parse_mode((#[trigger] mode_strs@[k])@) == Option::Some(
                        ModeType::Normal,
                    )),
            decreases mode_strs@.len() - i,
        {
            let s = mode_strs[i];
            if str_eq(s, "normal") {
                modes.push(ModeType::Normal);
                saw_normal = true;
            } else if str_eq(s, "uppercase") {
                modes.push(ModeType::Uppercase);
            } else if str_eq(s, "punctuation") {
                modes.push(ModeType::Punctuation);
            } else {
                let msg = String::from_str("Invalid mode: ").concat(s);
                proof {
                    let ii = i as int;
                    assert forall|k: int| 0 <= k < ii implies parse_mode(
                        (#[trigger] mode_strs@[k])@,
                    ) is Some by {
                        assert(Option::Some(modes@[k]) == parse_mode(mode_strs@[k]@));
                    }
                    assert({
                        &&& 0 <= ii < mode_strs@.len()
                        &&& parse_mode((mode_strs@[ii])@) is None
                        &&& (forall|k: int|
                            0 <= k < ii ==> parse_mode((#[trigger] mode_strs@[k])@) is Some)
                        &&& msg@ == "Invalid mode: "@ + mode_strs@[ii]@
                    });
                }
                return Result::Err(msg);
            }
            i = i + 1;
        }
        proof {
            assert forall|k: int| 0 <= k < mode_strs@.len() implies parse_mode(
                (#[trigger] mode_strs@[k])@,
            ) is Some by {
                assert(Option::Some(modes@[k]) == parse_mode(mode_strs@[k]@));
            }
        }
        if modes.len() == 0 {
            modes.push(ModeType::Normal);
            proof {
                assert(modes@ =~= seq![ModeType::Normal]);
            }
        } else if saw_normal {
            modes = Vec::new();
            modes.push(ModeType::Normal);
            proof {
                assert(modes@ =~= seq![ModeType::Normal]);
            }
        }
        Result::Ok(Mode { modes, duration: 0 })
    }

    /// The same mode, with the session length set.
    pub fn add_duration(self, duration: u64) -> (r: Mode)
        ensures
            r.modes@ == self.modes@,
            r.duration == duration,
    {
        Mode { duration, ..self }
    }

    /// Applies the transformations in order. Every pass keeps the shape of
    /// the rows: as many rows, of as many words. A lone normal mode leaves
    /// the rows untouched; a lone uppercase or punctuation mode relates the
    /// rows to the original word for word, and the two together do so
    /// through an intermediate state, in the order they were named.
    pub fn transform(&self, list: &mut Vec<Vec<String>>)
        ensures
            rows_same_shape(old(list)@, final(list)@),
            self.modes@ == seq![ModeType::Normal] ==> final(list)@ == old(list)@,
            self.modes@ == seq![ModeType::Uppercase] ==> rows_uppered(old(list)@, final(list)@),
            self.modes@ == seq![ModeType::Punctuation] ==> rows_punctuated(
                old(list)@,
                final(list)@,
            ),
            self.modes@ == seq![ModeType::Uppercase, ModeType::Punctuation] ==> exists|
                mid: Seq<Vec<String>>,
            | rows_uppered(old(list)@, mid) && rows_punctuated(mid, final(list)@),
            self.modes@ == seq![ModeType::Punctuation, ModeType::Uppercase] ==> exists|
                mid: Seq<Vec<String>>,
            | rows_punctuated(old(list)@, mid) && rows_uppered(mid, final(list)@),
    {
        let ghost orig = list@;
        let mut m: usize = 0;
        while m < self.modes.len()
            invariant
                0 <= m <= self.modes@.len(),
                rows_same_shape(orig, list@),
                (forall|t: int| 0 <= t < m ==> #[trigger] self.modes@[t] == ModeType::Normal)
                    ==> list@ == orig,
                m as int == 1 && self.modes@[0] == ModeType::Uppercase ==> rows_uppered(
                    orig,
                    list@,
                ),
                m as int == 1 && self.modes@[0] == ModeType::Punctuation ==> rows_punctuated(
                    orig,
                    list@,
                ),
                m as int == 2 && self.modes@[0] == ModeType::Uppercase && self.modes@[1]
                    == ModeType::Punctuation ==> exists|mid: Seq<Vec<String>>|
                    rows_uppered(orig, mid) && rows_punctuated(mid, list@),
                m as int == 2 && self.modes@[0] == ModeType::Punctuation && self.modes@[1]
                    == ModeType::Uppercase ==> exists|mid: Seq<Vec<String>>|
                    rows_punctuated(orig, mid) && rows_uppered(mid, list@),
            decreases self.modes@.len() - m,
        {
            let ghost before = list@;
            match self.modes[m] {
                ModeType::Normal => {},
                ModeType::Uppercase => {
                    uppercase_pass(list);
                },
                ModeType::Punctuation => {
                    punctuate_pass(list);
                },
            }
            proof {
                if m == 1 && self.modes@[0] == ModeType::Uppercase && self.modes@[1]
                    == ModeType::Punctuation {
                    assert(rows_uppered(orig, before) && rows_punctuated(before, list@));
                }
                if m == 1 && self.modes@[0] == ModeType::Punctuation && self.modes@[1]
                    == ModeType::Uppercase {
                    assert(rows_punctuated(orig, before) && rows_uppered(before, list@));
                }
            }
            m = m + 1;
        }
    }
}

} // verus!
