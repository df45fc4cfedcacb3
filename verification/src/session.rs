//! The session loop's decisions: each poll cycle observes the countdown and
//! at most one keystroke, and decides whether the session goes on, which
//! statistics to record, and what to draw.

use vstd::prelude::*;

use crate::game::{draw_of, handle_input, keystroke_game, space_result, DrawCmd, Game, InputAction};
use crate::stats::Stats;

verus! {

/// The width of one row on screen.
pub const LINE_LENGTH: i32 = 70;

/// The top-left cell the rows are drawn from: centered horizontally for the
/// line width, one cell above the vertical middle.
pub fn calc_middle_for_text(cols: u16, rows: u16) -> (r: (u16, u16))
    requires
        cols >= LINE_LENGTH,
        rows >= 2,
    ensures
        r.0 == cols / 2 - 35,
        r.1 == rows / 2 - 1,
{
    let x = cols / 2 - (LINE_LENGTH / 2) as u16;
    let y = rows / 2 - 1;
    (x, y)
}

/// One observed input event: nothing, the quit chord, or a character key.
#[derive(Clone, Copy, Debug, PartialEq, Eq)]
pub enum KeyPress {
    NoKey,
    QuitKey,
    Character(char),
}

/// What one poll cycle decided: whether the loop ends, whether a whole
/// second elapsed since the last cycle, and what to draw for a judged key.
#[derive(Clone, Copy, Debug, PartialEq, Eq)]
pub struct StepOutcome {
    pub exit: bool,
    pub second_elapsed: bool,
    pub draw: Option<DrawCmd>,
}

/// Whether one character keystroke gets judged (and so tallied and drawn).
pub open spec fn keystroke_judged(g: Game, c: char) -> bool {
    let (g1, a) = space_result(g);
    if c == ' ' {
        a != InputAction::Continue && g1.player.position_x < g1.cur_text().len()
    } else {
        g.player.position_x < g.cur_text().len()
    }
}

/// The state whose caret cell a judged keystroke is drawn at.
pub open spec fn keystroke_drawn_at(g: Game, c: char) -> Game {
    let (g1, a) = space_result(g);
    if c == ' ' {
        g1
    } else {
        g
    }
}

/// One cycle of the session loop. In order: a completed word list ends the
/// loop; an expired countdown ends the loop whatever the caret state; a
/// changed remaining time closes the current statistics second; then the
/// keystroke, if any, is handled — the quit chord marks the session quit and
/// ends the loop, a character key runs through the matcher.
pub fn session_step(
    game: &mut Game,
    stats: &mut Stats,
    remaining_prev: &mut u64,
    expired: bool,
    remaining: u64,
    key: KeyPress,
) -> (r: StepOutcome)
    requires
        old(game).inv(),
        old(stats).wf(),
        old(stats).spec_total() < u32::MAX,
    ensures
        final(game).inv(),
        final(stats).wf(),
        old(game).complete() || expired ==> r.exit && *final(game) == *old(game) && *final(stats)
            == *old(stats) && *final(remaining_prev) == *old(remaining_prev),
        expired ==> r.exit,
        ({
            let flushed = remaining != *old(remaining_prev);
            !old(game).complete() && !expired ==> {
                &&& r.second_elapsed == flushed
                &&& *final(remaining_prev) == remaining
                &&& (flushed ==> final(stats).lps@ == old(stats).lps@.push(
                    old(stats).letter_count))
                &&& (!flushed ==> final(stats).lps@ == old(stats).lps@)
                &&& (match key {
                    KeyPress::NoKey => {
                        &&& !r.exit
                        &&& r.draw is None
                        &&& *final(game) == *old(game)
                        &&& final(stats).incorrect_letters == old(stats).incorrect_letters
                    },
                    KeyPress::QuitKey => {
                        &&& r.exit
                        &&& r.draw is None
                        &&& *final(game) == (Game { quit: true, ..*old(game) })
                        &&& final(stats).incorrect_letters == old(stats).incorrect_letters
                    },
                    KeyPress::Character(c) => {
                        &&& !r.exit
                        &&& *final(game) == keystroke_game(*old(game), c)
                        &&& (keystroke_judged(*old(game), c) ==> r.draw == Option::Some(
                            draw_of(keystroke_drawn_at(*old(game), c), c)))
                        &&& (!keystroke_judged(*old(game), c) ==> r.draw is None)
                    },
                })
            }
        }),
{
    let y = game.player.position_y;
    if y == game.list.len() {
        return StepOutcome { exit: true, second_elapsed: false, draw: Option::None };
    }
    if expired {
        return StepOutcome { exit: true, second_elapsed: false, draw: Option::None };
    }
    let mut second_elapsed = false;
    if remaining != *remaining_prev {
        stats.add_letters();
        second_elapsed = true;
    }
    *remaining_prev = remaining;
    match key {
        KeyPress::NoKey => StepOutcome { exit: false, second_elapsed, draw: Option::None },
        KeyPress::QuitKey => {
            game.quit = true;
            StepOutcome { exit: true, second_elapsed, draw: Option::None }
        },
        KeyPress::Character(c) => {
            let (_, draw) = handle_input(game, stats, c);
            StepOutcome { exit: false, second_elapsed, draw }
        },
    }
}

} // verus!
