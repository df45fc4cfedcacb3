use typy::clock::clock_step;
use typy::game::Game;
use typy::session::{calc_middle_for_text, session_step, KeyPress};
use typy::stats::Stats;

fn small_game() -> Game {
    Game::new(vec![vec!["cat".to_string(), "dog".to_string()]])
}

#[test]
fn expired_clock_exits_whatever_the_caret_state() {
    let mut game = small_game();
    let mut stats = Stats::new();
    let mut prev = 0u64;
    let outcome = session_step(&mut game, &mut stats, &mut prev, true, 17, KeyPress::NoKey);
    assert!(outcome.exit);
    assert!(!outcome.second_elapsed);
    assert_eq!(game.player.position_x, 0);
    // Finalizing with nothing accumulated clamps rather than erring.
    assert_eq!(stats.wpm(), 0);
    assert_eq!(stats.raw_wpm(), 0);
    assert_eq!(stats.accuracy(), 0);
}

#[test]
fn quit_key_marks_the_session_quit() {
    let mut game = small_game();
    let mut stats = Stats::new();
    let mut prev = 30u64;
    let outcome = session_step(&mut game, &mut stats, &mut prev, false, 30, KeyPress::QuitKey);
    assert!(outcome.exit);
    assert!(game.quit);
}

#[test]
fn changed_remaining_time_closes_a_second() {
    let mut game = small_game();
    let mut stats = Stats::new();
    let mut prev = 30u64;
    stats.on_letter(true);
    stats.on_letter(true);
    let outcome = session_step(&mut game, &mut stats, &mut prev, false, 29, KeyPress::NoKey);
    assert!(!outcome.exit);
    assert!(outcome.second_elapsed);
    assert_eq!(prev, 29);
    assert_eq!(stats.lps, vec![2]);
    assert_eq!(stats.letter_count, 0);

    let outcome = session_step(&mut game, &mut stats, &mut prev, false, 29, KeyPress::NoKey);
    assert!(!outcome.second_elapsed);
    assert_eq!(stats.lps, vec![2]);
}

#[test]
fn character_keys_run_through_the_matcher() {
    let mut game = small_game();
    let mut stats = Stats::new();
    let mut prev = 30u64;
    for c in "cat".chars() {
        let outcome = session_step(
            &mut game,
            &mut stats,
            &mut prev,
            false,
            30,
            KeyPress::Character(c),
        );
        assert!(!outcome.exit);
        let draw = outcome.draw.expect("judged keys draw");
        assert!(draw.correct);
    }
    assert_eq!(game.player.position_x, 3);
    assert_eq!(stats.letter_count, 3);
    assert_eq!(stats.incorrect_letters, 0);
}

#[test]
fn completed_rows_exit_the_loop() {
    let mut game = small_game();
    let mut stats = Stats::new();
    let mut prev = 30u64;
    for c in "cat dog ".chars() {
        session_step(
            &mut game,
            &mut stats,
            &mut prev,
            false,
            30,
            KeyPress::Character(c),
        );
    }
    assert_eq!(game.player.position_y, 1);
    let outcome = session_step(&mut game, &mut stats, &mut prev, false, 30, KeyPress::NoKey);
    assert!(outcome.exit);
}

#[test]
fn countdown_reaches_zero_and_expires_by_the_duration() {
    let duration = 30u64;
    let mut last = duration;
    for elapsed in 0..=duration {
        let tick = clock_step(duration, elapsed, false);
        // Monotonically non-increasing, down to zero at the duration.
        assert!(tick.remaining <= last);
        last = tick.remaining;
        if elapsed < duration {
            assert_eq!(tick.remaining, duration - elapsed);
            assert!(!tick.expired);
        } else {
            assert_eq!(tick.remaining, 0);
            assert!(tick.expired);
        }
    }
    let beyond = clock_step(duration, duration + 5, false);
    assert_eq!(beyond.remaining, 0);
    assert!(beyond.expired);
}

#[test]
fn requested_stop_expires_the_countdown_early() {
    let tick = clock_step(30, 3, true);
    assert!(tick.expired);
    assert_eq!(tick.remaining, 27);
}

#[test]
fn text_block_is_centered() {
    let (x, y) = calc_middle_for_text(120, 40);
    assert_eq!(x, 60 - 35);
    assert_eq!(y, 19);
}
