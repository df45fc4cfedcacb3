use typy::scores::{Averages, Data, Score};

fn score_at(ts: u64) -> Score {
    Score::new(ts, 40, 50, 9500)
}

#[test]
fn sort_scores_orders_newest_first() {
    let mut scores = vec![score_at(5), score_at(1), score_at(9), score_at(3)];
    Score::sort_scores(&mut scores);
    let stamps: Vec<u64> = scores.iter().map(|s| s.timestamp).collect();
    assert_eq!(stamps, vec![9, 5, 3, 1]);
}

#[test]
fn update_scores_appends_below_the_cap() {
    let scores: Vec<Score> = (0..5).map(|t| score_at(t)).collect();
    let updated = Score::update_scores(scores, score_at(100));
    assert_eq!(updated.len(), 6);
    assert_eq!(updated[5].timestamp, 100);
}

#[test]
fn update_scores_keeps_the_ten_most_recent() {
    let scores: Vec<Score> = (0..10).map(|t| score_at(t)).collect();
    let updated = Score::update_scores(scores, score_at(100));
    assert_eq!(updated.len(), 10);
    assert_eq!(updated[0].timestamp, 100);
    // The oldest record was evicted.
    assert!(updated.iter().all(|s| s.timestamp != 0));
    // Newest first.
    for w in updated.windows(2) {
        assert!(w[0].timestamp >= w[1].timestamp);
    }
}

#[test]
fn averages_accumulate_sums_and_counts() {
    let base = Data::default().averages;
    let first = base.calculate_averages(&Score::new(7, 40, 50, 9500));
    assert_eq!(first.wpm_avg.count, 1);
    assert_eq!(first.wpm_avg.sum_all, 40);
    assert_eq!(first.raw_avg.sum_all, 50);
    assert_eq!(first.accuracy_avg.sum_all, 9500);
    let second = first.calculate_averages(&Score::new(8, 60, 70, 8500));
    assert_eq!(second.wpm_avg.count, 2);
    assert_eq!(second.wpm_avg.sum_all, 100);
    assert_eq!(second.raw_avg.sum_all, 120);
    assert_eq!(second.accuracy_avg.sum_all, 18000);
    assert_eq!(Averages::average_of(second.wpm_avg.sum_all as u64, 2), 50);
    assert_eq!(Averages::average_of(0, 0), 0);
}

#[test]
fn default_data_is_empty() {
    let data = Data::default();
    assert!(data.scores.is_empty());
    assert_eq!(data.averages.wpm_avg.count, 0);
    assert_eq!(data.averages.raw_avg.sum_all, 0);
    assert_eq!(data.averages.accuracy_avg.count, 0);
}

#[test]
fn data_new_holds_what_it_was_given() {
    let scores = vec![score_at(1), score_at(2)];
    let data = Data::new(scores, Data::default().averages);
    assert_eq!(data.scores.len(), 2);
    assert_eq!(data.scores[1].timestamp, 2);
}
