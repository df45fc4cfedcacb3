use typy::stats::Stats;

#[test]
fn fresh_stats_are_empty() {
    let s = Stats::new();
    assert_eq!(s.lps.len(), 0);
    assert_eq!(s.letter_count, 0);
    assert_eq!(s.incorrect_letters, 0);
}

#[test]
fn add_letters_flushes_the_running_count() {
    let mut s = Stats::new();
    s.on_letter(true);
    s.on_letter(true);
    s.add_letters();
    s.on_letter(false);
    s.add_letters();
    assert_eq!(s.lps, vec![2, 1]);
    assert_eq!(s.letter_count, 0);
    assert_eq!(s.incorrect_letters, 1);
    assert_eq!(s.total_letters(), 3);
    assert_eq!(s.total_seconds(), 2);
}

#[test]
fn raw_wpm_formula() {
    // Ten letters over two seconds: (10 / 5) * 60 / 2 = 60 raw words a minute.
    let mut s = Stats::new();
    for _ in 0..5 {
        s.on_letter(true);
    }
    s.add_letters();
    for _ in 0..5 {
        s.on_letter(true);
    }
    s.add_letters();
    assert_eq!(s.raw_wpm(), 60);
    assert_eq!(s.wpm(), 60);
}

#[test]
fn wpm_discounts_errors() {
    // Ten letters, one wrong, over two seconds: ((10 - 1) / 5) * 60 / 2 = 30.
    let mut s = Stats::new();
    for _ in 0..4 {
        s.on_letter(true);
    }
    s.on_letter(false);
    s.add_letters();
    for _ in 0..5 {
        s.on_letter(true);
    }
    s.add_letters();
    assert_eq!(s.raw_wpm(), 60);
    assert_eq!(s.wpm(), 30);
}

#[test]
fn wpm_is_zero_before_a_second_elapses() {
    let mut s = Stats::new();
    s.on_letter(true);
    assert_eq!(s.wpm(), 0);
    assert_eq!(s.raw_wpm(), 0);
}

#[test]
fn accuracy_is_zero_with_no_letters() {
    let s = Stats::new();
    assert_eq!(s.accuracy(), 0);
}

#[test]
fn accuracy_is_hundred_without_errors() {
    let mut s = Stats::new();
    for _ in 0..7 {
        s.on_letter(true);
    }
    s.add_letters();
    assert_eq!(s.accuracy(), 100);
}

#[test]
fn accuracy_half_right() {
    let mut s = Stats::new();
    s.on_letter(true);
    s.on_letter(false);
    s.add_letters();
    assert_eq!(s.accuracy(), 50);
}

#[test]
fn accuracy_all_wrong_is_zero() {
    let mut s = Stats::new();
    s.on_letter(false);
    s.on_letter(false);
    s.add_letters();
    assert_eq!(s.accuracy(), 0);
}

#[test]
fn accuracy_stays_within_bounds() {
    // Errors typed in a second that never got flushed can outnumber the
    // flushed letters; accuracy still stays within zero and one hundred.
    let mut s = Stats::new();
    s.on_letter(true);
    s.add_letters();
    s.on_letter(false);
    s.on_letter(false);
    let a = s.accuracy();
    assert!(a <= 100);
    assert_eq!(a, 0);
}
