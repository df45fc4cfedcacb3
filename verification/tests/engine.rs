use typy::game::{handle_input, handle_space, handle_start_of_line, Game, InputAction};
use typy::stats::Stats;

fn make_game(rows: Vec<Vec<&str>>) -> Game {
    let list: Vec<Vec<String>> = rows
        .into_iter()
        .map(|row| row.into_iter().map(|w| w.to_string()).collect())
        .collect();
    Game::new(list)
}

fn type_chars(game: &mut Game, stats: &mut Stats, chars: &str) {
    for c in chars.chars() {
        handle_input(game, stats, c);
    }
}

#[test]
fn get_word_string_joins_with_spaces() {
    let game = make_game(vec![vec!["cat", "dog"], vec!["fish"]]);
    assert_eq!(game.get_word_string(0), "cat dog");
    assert_eq!(game.get_word_string(1), "fish");
}

#[test]
fn space_at_line_start_is_ignored() {
    let mut game = make_game(vec![vec!["cat", "dog"]]);
    let mut stats = Stats::new();
    assert!(matches!(
        handle_start_of_line(&game),
        InputAction::Continue
    ));
    let (action, draw) = handle_input(&mut game, &mut stats, ' ');
    assert!(matches!(action, InputAction::Continue));
    assert!(draw.is_none());
    assert_eq!(game.player.position_x, 0);
    assert_eq!(game.player.position_y, 0);
    assert_eq!(stats.letter_count, 0);
}

#[test]
fn typing_row_then_space_completes_session() {
    // Row "cat dog": typing the row through, the skip-ahead space included,
    // consumes seven positions; the final space finishes the only row.
    let mut game = make_game(vec![vec!["cat", "dog"]]);
    let mut stats = Stats::new();
    type_chars(&mut game, &mut stats, "cat dog");
    assert_eq!(game.player.position_x, 7);
    assert_eq!(game.player.position_y, 0);
    assert_eq!(stats.incorrect_letters, 0);
    assert_eq!(stats.letter_count, 7);
    let (action, _) = handle_input(&mut game, &mut stats, ' ');
    assert!(matches!(action, InputAction::Continue));
    assert_eq!(game.player.position_y, 1);
    assert_eq!(game.player.position_x, 0);
    assert_eq!(game.selected_word_index, 0);
    assert_eq!(game.jump_position, 1);
    // One row, and the caret has left it: the session is complete.
    assert_eq!(game.player.position_y, game.list.len());
}

#[test]
fn wrong_character_still_advances_and_counts() {
    let mut game = make_game(vec![vec!["cat", "dog"]]);
    let mut stats = Stats::new();
    let (action, draw) = handle_input(&mut game, &mut stats, 'x');
    assert!(matches!(action, InputAction::NoAction));
    assert_eq!(game.player.position_x, 1);
    assert_eq!(game.player.position_y, 0);
    assert_eq!(stats.incorrect_letters, 1);
    assert_eq!(stats.letter_count, 1);
    let draw = draw.expect("a judged key yields a render instruction");
    assert_eq!(draw.col, 0);
    assert_eq!(draw.row, 0);
    assert_eq!(draw.ch, 'c');
    assert!(!draw.correct);
}

#[test]
fn space_skips_to_next_word() {
    // Row "ab cd ef": after typing "ab", a space lands the caret at column 3,
    // the start of "cd".
    let mut game = make_game(vec![vec!["ab", "cd", "ef"]]);
    let mut stats = Stats::new();
    type_chars(&mut game, &mut stats, "ab");
    let (action, _) = handle_input(&mut game, &mut stats, ' ');
    assert!(matches!(action, InputAction::NoAction));
    assert_eq!(game.player.position_x, 3);
    assert_eq!(game.selected_word_index, 1);
    assert_eq!(game.jump_position, 2);
}

#[test]
fn second_space_is_a_no_op() {
    // Pressing space right after a skip-ahead moves nothing: the caret sits
    // just past the separating space and the press is consumed there.
    let mut game = make_game(vec![vec!["ab", "cd", "ef"]]);
    let mut stats = Stats::new();
    type_chars(&mut game, &mut stats, "ab ");
    assert_eq!(game.player.position_x, 3);
    let (action, draw) = handle_input(&mut game, &mut stats, ' ');
    assert!(matches!(action, InputAction::Continue));
    assert!(draw.is_none());
    assert_eq!(game.player.position_x, 3);
    assert_eq!(game.player.position_y, 0);
    assert_eq!(game.selected_word_index, 1);
    assert_eq!(game.jump_position, 2);
    assert_eq!(stats.letter_count, 3);
}

#[test]
fn typing_through_a_space_crosses_the_word_boundary() {
    // Row "ab cd": a wrong key over the separating space still advances and
    // silently selects the next word.
    let mut game = make_game(vec![vec!["ab", "cd"]]);
    let mut stats = Stats::new();
    type_chars(&mut game, &mut stats, "ab");
    let (_, draw) = handle_input(&mut game, &mut stats, 'x');
    let draw = draw.expect("the space position is judged");
    assert_eq!(draw.ch, ' ');
    assert!(!draw.correct);
    assert_eq!(game.player.position_x, 3);
    assert_eq!(game.selected_word_index, 1);
    assert_eq!(stats.incorrect_letters, 1);
}

#[test]
fn caret_stays_within_bounds_under_arbitrary_keys() {
    let mut game = make_game(vec![vec!["ab", "cd"], vec!["ef"]]);
    let mut stats = Stats::new();
    let keys = "x x yy   zz!ab cd  q";
    for c in keys.chars() {
        if game.player.position_y == game.list.len() {
            break;
        }
        handle_input(&mut game, &mut stats, c);
        let y = game.player.position_y;
        assert!(y <= game.list.len());
        if y < game.list.len() {
            let row_len = game.get_word_string(y).chars().count();
            assert!(game.player.position_x <= row_len);
        }
    }
}

#[test]
fn space_on_last_word_advances_the_row() {
    let mut game = make_game(vec![vec!["ab", "cd"], vec!["ef"]]);
    let mut stats = Stats::new();
    type_chars(&mut game, &mut stats, "ab cd");
    assert_eq!(game.player.position_x, 5);
    let (action, _) = handle_input(&mut game, &mut stats, ' ');
    assert!(matches!(action, InputAction::Continue));
    assert_eq!(game.player.position_y, 1);
    assert_eq!(game.player.position_x, 0);
    assert_eq!(game.jump_position, 1);
}

#[test]
fn handle_space_directly_reports_the_jump() {
    let mut game = make_game(vec![vec!["cat", "dog"]]);
    let mut stats = Stats::new();
    type_chars(&mut game, &mut stats, "cat");
    let action = handle_space(&mut game);
    assert!(matches!(action, InputAction::NoAction));
    assert_eq!(game.player.position_x, 3);
    assert_eq!(game.jump_position, 3);
    assert_eq!(game.selected_word_index, 1);
}
