//! The caret/word-matching state machine: a caret walks the joined text of
//! each row, one keystroke at a time; a space skips ahead to the next word,
//! and every other character is judged against the character under the caret.

use vstd::prelude::*;

use crate::stats::Stats;
use crate::text::{
    lemma_prefix_width_mono, lemma_prefix_width_nonneg, lemma_row_text_len, lemma_row_text_sep,
    lemma_space_is_sep, join_words, prefix_width, row_text, wf_words,
};

verus! {

/// The caret: a column within the current row's text, and the row itself.
pub struct Player {
    pub position_x: usize,
    pub position_y: usize,
}

impl Player {
    pub fn new() -> (r: Player)
        ensures
            r.position_x == 0,
            r.position_y == 0,
    {
        Player { position_x: 0, position_y: 0 }
    }
}

/// What the matcher asks of the caller after a keystroke: consume it and poll
/// again, stop the session, or carry on with the same keystroke.
#[derive(Clone, Copy, Debug, PartialEq, Eq)]
pub enum InputAction {
    Continue,
    Break,
    NoAction,
}

/// One render instruction: the character to draw at the caret cell, and
/// whether the keystroke that produced it was correct.
#[derive(Clone, Copy, Debug, PartialEq, Eq)]
pub struct DrawCmd {
    pub col: usize,
    pub row: usize,
    pub ch: char,
    pub correct: bool,
}

/// A playable word list: rows of non-empty, space-free words, none of the
/// rows empty, each row's text comfortably within machine range.
pub open spec fn list_wf(rows: Seq<Seq<Seq<char>>>) -> bool {
    forall|i: int|
        0 <= i < rows.len() ==> {
            &&& wf_words(#[trigger] rows[i])
            &&& rows[i].len() > 0
            &&& row_text(rows[i]).len() + 2 < usize::MAX
        }
}

/// The session state the matcher works on: the rows of words, the caret, the
/// column of the last skip-ahead jump, and the word the caret is inside of.
pub struct Game {
    pub list: Vec<Vec<String>>,
    pub player: Player,
    pub jump_position: usize,
    pub selected_word_index: usize,
    pub quit: bool,
}

impl Game {
    /// The rows as sequences of words, each word a sequence of characters.
    pub open spec fn rows(self) -> Seq<Seq<Seq<char>>> {
        self.list.deep_view()
    }

    pub open spec fn row_count(self) -> int {
        self.rows().len() as int
    }

    /// The words of the row the caret is on.
    pub open spec fn cur_words(self) -> Seq<Seq<char>> {
        self.rows()[self.player.position_y as int]
    }

    /// The joined text of the row the caret is on.
    pub open spec fn cur_text(self) -> Seq<char> {
        row_text(self.cur_words())
    }

    /// The session is complete once the caret has left the last row.
    pub open spec fn complete(self) -> bool {
        self.player.position_y == self.row_count()
    }

    /// Bounds that hold of every reachable state: the caret row never leaves
    /// the list, and on an unfinished row the column never leaves the text.
    pub open spec fn inv_core(self) -> bool {
        &&& list_wf(self.rows())
        &&& self.player.position_y <= self.row_count()
        &&& self.player.position_y < self.row_count() ==> {
            &&& self.player.position_x <= self.cur_text().len()
            &&& self.selected_word_index < self.cur_words().len()
        }
    }

    /// The state between keystrokes: core bounds, and the caret at or past
    /// the full width of the words already skipped or typed through.
    pub open spec fn inv(self) -> bool {
        &&& self.inv_core()
        &&& self.player.position_y < self.row_count() ==> prefix_width(
            self.cur_words(),
            self.selected_word_index as int,
        ) <= self.player.position_x
    }

    /// The state right after a skip-ahead jump, within one keystroke: the
    /// caret sits on the separating space before the newly selected word.
    pub open spec fn jumped(self) -> bool {
        &&& self.inv_core()
        &&& self.player.position_y < self.row_count()
        &&& self.player.position_x < self.cur_text().len()
        &&& self.cur_text()[self.player.position_x as int] == ' '
        &&& prefix_width(self.cur_words(), self.selected_word_index as int)
            == self.player.position_x + 1
    }

    pub fn new(list: Vec<Vec<String>>) -> (g: Game)
        requires
            list_wf(list.deep_view()),
        ensures
            g.list == list,
            g.player.position_x == 0,
            g.player.position_y == 0,
            g.jump_position == 0,
            g.selected_word_index == 0,
            g.quit == false,
            g.inv(),
    {
        let g = Game {
            list,
            player: Player::new(),
            jump_position: 0,
            selected_word_index: 0,
            quit: false,
        };
        proof {
            if g.row_count() > 0 {
                assert(prefix_width(g.cur_words(), 0) == 0);
            }
        }
        g
    }

    /// The text of row `index`: its words joined by single spaces.
    pub fn get_word_string(&self, index: usize) -> (r: String)
        requires
            index < self.rows().len(),
        ensures
            r@ == row_text(self.rows()[index as int]),
    {
        join_words(&self.list[index])
    }
}

/// The expected character: the one under the caret in the current row text.
pub open spec fn expected_char(g: Game) -> char {
    g.cur_text()[g.player.position_x as int]
}

/// The state after one space keystroke, with the action the matcher reports:
/// `Continue` consumes the keystroke; `NoAction` follows a skip-ahead jump
/// and lets the keystroke fall through to character matching.
pub open spec fn space_result(g: Game) -> (Game, InputAction) {
    let x = g.player.position_x as int;
    let words = g.cur_words();
    if x == 0 {
        (g, InputAction::Continue)
    } else if g.selected_word_index + 1 == words.len() {
        (
            Game {
                player: Player {
                    position_x: 0,
                    position_y: (g.player.position_y + 1) as usize,
                },
                jump_position: 1,
                selected_word_index: 0,
                ..g
            },
            InputAction::Continue,
        )
    } else if g.cur_text()[x - 1] == ' ' {
        (g, InputAction::Continue)
    } else if g.jump_position == x - 1 && g.jump_position != 0 {
        (g, InputAction::Continue)
    } else {
        let t = (prefix_width(words, g.selected_word_index + 1) - 1) as usize;
        (
            Game {
                player: Player { position_x: t, ..g.player },
                jump_position: t,
                selected_word_index: (g.selected_word_index + 1) as usize,
                ..g
            },
            InputAction::NoAction,
        )
    }
}

/// The state after judging one typed character against the expected one: the
/// caret advances one column, and typing a non-space over an expected space
/// silently crosses into the next word.
pub open spec fn update_result(g: Game, c: char) -> Game {
    Game {
        player: Player { position_x: (g.player.position_x + 1) as usize, ..g.player },
        selected_word_index: if expected_char(g) == ' ' && c != ' ' {
            (g.selected_word_index + 1) as usize
        } else {
            g.selected_word_index
        },
        ..g
    }
}

/// The render instruction for judging character `c` at the caret: the
/// expected character is drawn, as correct exactly when `c` matches it.
pub open spec fn draw_of(g: Game, c: char) -> DrawCmd {
    DrawCmd {
        col: g.player.position_x,
        row: g.player.position_y,
        ch: expected_char(g),
        correct: c == expected_char(g),
    }
}

/// The matcher state after one whole keystroke, as `handle_input` leaves
/// it: the space rules first, then character matching where it applies.
pub open spec fn keystroke_game(g: Game, c: char) -> Game {
    let (g1, a) = space_result(g);
    if c == ' ' {
        if a == InputAction::Continue {
            g1
        } else if g1.player.position_x < g1.cur_text().len() {
            update_result(g1, c)
        } else {
            g1
        }
    } else {
        if g.player.position_x < g.cur_text().len() {
            update_result(g, c)
        } else {
            g
        }
    }
}

/// Pressing space twice in immediate succession, with no keystroke in
/// between, moves the caret only once: the first press skips ahead and
/// leaves the caret right past a separating space, and the second press is
/// consumed there without moving anything — as long as the skip did not put
/// the caret on the row's last word, in which case a further space finishes
/// the row instead.
pub proof fn lemma_second_space_noop(g: Game)
    requires
        g.inv(),
        g.player.position_y < g.row_count(),
        space_result(g).1 == InputAction::NoAction,
    ensures
        ({
            let g1 = keystroke_game(g, ' ');
            g1.selected_word_index + 1 != g1.cur_words().len() ==> space_result(g1) == (
                g1,
                InputAction::Continue,
            ) && keystroke_game(g1, ' ') == g1
        }),
{
    let words = g.cur_words();
    let sel1 = g.selected_word_index + 1;
    lemma_row_text_sep(words, sel1);
    lemma_row_text_len(words);
    lemma_prefix_width_mono(words, sel1, words.len() as int);
    let t = prefix_width(words, sel1) - 1;
    let gj = space_result(g).0;
    assert(gj.player.position_x == t);
    let g1 = keystroke_game(g, ' ');
    assert(g1.player.position_x == t + 1);
    assert(g1.cur_text()[g1.player.position_x - 1] == ' ');
}

/// A space at the start of a line is ignored: no skipping before typing.
pub fn handle_start_of_line(game: &Game) -> (r: InputAction)
    ensures
        r == (if game.player.position_x == 0 {
            InputAction::Continue
        } else {
            InputAction::NoAction
        }),
{
    if game.player.position_x == 0 {
        return InputAction::Continue;
    }
    InputAction::NoAction
}

/// A space with the caret inside the last word of the row finishes the row:
/// the caret moves to the start of the next row and the skip state resets.
pub fn handle_end_of_line(game: &mut Game) -> (r: InputAction)
    requires
        old(game).inv(),
        old(game).player.position_y < old(game).row_count(),
    ensures
        r != InputAction::Break,
        old(game).selected_word_index + 1 == old(game).cur_words().len() ==> r
            == InputAction::Continue && *final(game) == (Game {
            player: Player {
                position_x: 0,
                position_y: (old(game).player.position_y + 1) as usize,
            },
            jump_position: 1,
            selected_word_index: 0,
            ..*old(game)
        }),
        old(game).selected_word_index + 1 != old(game).cur_words().len() ==> r
            == InputAction::NoAction && *final(game) == *old(game),
        final(game).inv(),
{
    let y = game.player.position_y;
    let row_len = game.list[y].len();
    proof {
        assert(row_len == game.cur_words().len());
    }
    if game.selected_word_index + 1 == row_len {
        if game.player.position_y == game.list.len() {
            return InputAction::Break;
        }
        game.player.position_x = 0;
        game.player.position_y = y + 1;
        game.jump_position = 1;
        game.selected_word_index = 0;
        proof {
            if game.player.position_y < game.row_count() {
                assert(prefix_width(game.cur_words(), 0) == 0);
            }
        }
        return InputAction::Continue;
    }
    InputAction::NoAction
}

/// A space right after a space is a no-op: the caret already sits at a word
/// boundary.
pub fn handle_space_in_word(game: &Game) -> (r: InputAction)
    requires
        game.inv(),
        game.player.position_y < game.row_count(),
        game.player.position_x >= 1,
    ensures
        r == (if game.cur_text()[game.player.position_x - 1] == ' ' {
            InputAction::Continue
        } else {
            InputAction::NoAction
        }),
{
    let y = game.player.position_y;
    let s = game.get_word_string(y);
    proof {
        lemma_row_text_len(game.cur_words());
    }
    let ch = s.as_str().get_char(game.player.position_x - 1);
    if ch == ' ' {
        return InputAction::Continue;
    }
    InputAction::NoAction
}

/// Skip ahead: the caret jumps to the separating space after the next word,
/// which becomes the new jump mark, and the word cursor advances.
pub fn handle_jump_position(game: &mut Game)
    requires
        old(game).inv(),
        old(game).player.position_y < old(game).row_count(),
        old(game).selected_word_index + 1 < old(game).cur_words().len(),
    ensures
        *final(game) == ({
            let t = (prefix_width(
                old(game).cur_words(),
                old(game).selected_word_index + 1,
            ) - 1) as usize;
            Game {
                player: Player { position_x: t, ..old(game).player },
                jump_position: t,
                selected_word_index: (old(game).selected_word_index + 1) as usize,
                ..*old(game)
            }
        }),
        final(game).jumped(),
{
    let ghost words = game.cur_words();
    let y = game.player.position_y;
    let row = &game.list[y];
    let s = join_words(row);
    let l = s.as_str().unicode_len();
    proof {
        lemma_row_text_len(words);
        assert(l + 1 == prefix_width(words, words.len() as int));
    }
    let row_len = row.len();
    proof {
        assert(row_len == words.len());
    }
    let take = game.selected_word_index + 1;
    let mut sum: usize = 0;
    let mut i: usize = 0;
    while i < take
        invariant
            0 <= i <= take,
            take < words.len(),
            words == game.rows()[y as int],
            y == game.player.position_y,
            y < game.row_count(),
            game.inv(),
            row@ == game.list@[y as int]@,
            l + 2 < usize::MAX,
            l + 1 == prefix_width(words, words.len() as int),
            sum == prefix_width(words, i as int),
        decreases take - i,
    {
        let wlen = game.list[y][i].as_str().unicode_len();
        proof {
            lemma_prefix_width_mono(words, i + 1, words.len() as int);
            assert(prefix_width(words, i + 1) == sum + wlen + 1);
        }
        sum = sum + wlen;
        sum = sum + 1;
        i = i + 1;
    }
    proof {
        lemma_prefix_width_nonneg(words, take as int);
    }
    let t = sum - 1;
    game.jump_position = t;
    game.player.position_x = t;
    game.selected_word_index = take;
    proof {
        lemma_row_text_sep(words, take as int);
        lemma_prefix_width_mono(words, take as int, words.len() as int);
    }
}

/// One space keystroke, in the order the matcher tries its rules: ignored at
/// the start of a line, finishing the row from its last word, a no-op right
/// after a space or right past the jump mark, and otherwise a skip-ahead.
pub fn handle_space(game: &mut Game) -> (r: InputAction)
    requires
        old(game).inv(),
        old(game).player.position_y < old(game).row_count(),
    ensures
        ({
            let (g1, a) = space_result(*old(game));
            *final(game) == g1 && r == a
        }),
        r != InputAction::Break,
        r == InputAction::NoAction ==> final(game).jumped(),
        r == InputAction::Continue ==> final(game).inv(),
{
    if let InputAction::Continue = handle_start_of_line(&*game) {
        return InputAction::Continue;
    }
    match handle_end_of_line(game) {
        InputAction::Continue => {
            return InputAction::Continue;
        },
        InputAction::Break => {
            return InputAction::Break;
        },
        InputAction::NoAction => {},
    }
    if let InputAction::Continue = handle_space_in_word(&*game) {
        return InputAction::Continue;
    }
    if game.jump_position == game.player.position_x - 1 && game.jump_position != 0 {
        return InputAction::Continue;
    }
    handle_jump_position(game);
    InputAction::NoAction
}

/// Judge one typed character: tally it (and its error, if any), advance the
/// caret, and cross the word boundary when a non-space was typed over an
/// expected space.
pub fn update_game_state(game: &mut Game, stats: &mut Stats, c: char)
    requires
        old(game).inv() || old(game).jumped(),
        old(game).jumped() ==> c == ' ',
        old(game).player.position_y < old(game).row_count(),
        old(game).player.position_x < old(game).cur_text().len(),
        old(stats).wf(),
        old(stats).spec_total() < u32::MAX,
    ensures
        *final(game) == update_result(*old(game), c),
        final(game).inv(),
        final(stats).lps@ == old(stats).lps@,
        final(stats).letter_count == old(stats).letter_count + 1,
        final(stats).incorrect_letters == old(stats).incorrect_letters + (
            if c == expected_char(*old(game)) { 0int } else { 1int }),
        final(stats).wf(),
{
    let ghost words = game.cur_words();
    let ghost x0 = game.player.position_x as int;
    let ghost sel0 = game.selected_word_index as int;
    let y = game.player.position_y;
    let s = game.get_word_string(y);
    let e = s.as_str().get_char(game.player.position_x);
    stats.on_letter(c == e);
    if e == ' ' && c != ' ' {
        proof {
            lemma_space_is_sep(words, x0);
            let k = choose|k: int| 1 <= k < words.len() && x0 == prefix_width(words, k) - 1;
            if sel0 >= k {
                lemma_prefix_width_mono(words, k, sel0);
            }
            lemma_prefix_width_mono(words, sel0 + 1, k);
        }
        game.selected_word_index = game.selected_word_index + 1;
    }
    game.player.position_x = game.player.position_x + 1;
}

/// One keystroke fed to the matcher: spaces go through the space rules and,
/// after a skip-ahead, fall through to character matching like every other
/// key; a judged character yields one render instruction.
pub fn handle_input(game: &mut Game, stats: &mut Stats, c: char) -> (r: (
    InputAction,
    Option<DrawCmd>,
))
    requires
        old(game).inv(),
        old(game).player.position_y < old(game).row_count(),
        old(stats).wf(),
        old(stats).spec_total() < u32::MAX,
    ensures
        final(game).inv(),
        r.0 != InputAction::Break,
        final(stats).wf(),
        ({
            let g0 = *old(game);
            let (g1, a) = space_result(g0);
            if c == ' ' {
                if a == InputAction::Continue {
                    &&& *final(game) == g1
                    &&& r == (InputAction::Continue, Option::<DrawCmd>::None)
                    &&& *final(stats) == *old(stats)
                } else if g1.player.position_x < g1.cur_text().len() {
                    &&& *final(game) == update_result(g1, c)
                    &&& r == (InputAction::NoAction, Option::Some(draw_of(g1, c)))
                    &&& final(stats).lps@ == old(stats).lps@
                    &&& final(stats).letter_count == old(stats).letter_count + 1
                    &&& final(stats).incorrect_letters == old(stats).incorrect_letters + (
                        if c == expected_char(g1) { 0int } else { 1int })
                } else {
                    &&& *final(game) == g1
                    &&& r == (InputAction::NoAction, Option::<DrawCmd>::None)
                    &&& *final(stats) == *old(stats)
                }
            } else {
                if g0.player.position_x < g0.cur_text().len() {
                    &&& *final(game) == update_result(g0, c)
                    &&& r == (InputAction::NoAction, Option::Some(draw_of(g0, c)))
                    &&& final(stats).lps@ == old(stats).lps@
                    &&& final(stats).letter_count == old(stats).letter_count + 1
                    &&& final(stats).incorrect_letters == old(stats).incorrect_letters + (
                        if c == expected_char(g0) { 0int } else { 1int })
                } else {
                    &&& *final(game) == g0
                    &&& r == (InputAction::NoAction, Option::<DrawCmd>::None)
                    &&& *final(stats) == *old(stats)
                }
            }
        }),
{
    if c == ' ' {
        match handle_space(game) {
            InputAction::Continue => {
                return (InputAction::Continue, Option::None);
            },
            InputAction::Break => {
                return (InputAction::Break, Option::None);
            },
            InputAction::NoAction => {},
        }
    }
    let y = game.player.position_y;
    let s = game.get_word_string(y);
    let l = s.as_str().unicode_len();
    if game.player.position_x < l {
        let e = s.as_str().get_char(game.player.position_x);
        let draw = DrawCmd {
            col: game.player.position_x,
            row: game.player.position_y,
            ch: e,
            correct: c == e,
        };
        update_game_state(game, stats, c);
        return (InputAction::NoAction, Option::Some(draw));
    }
    (InputAction::NoAction, Option::None)
}

} // verus!
