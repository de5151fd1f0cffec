//! Rendering: what one tick draws, described as plain plot commands.
//!
//! The core never touches a screen. Each drawing operation appends commands to
//! a list; the platform adapter performs one `plot` call per command, in order
//! (overwriting is always legal, last write wins).

use vstd::prelude::*;
use crate::game::SnakeGame;

verus! {

/// Foreground or background color of one plotted glyph.
#[derive(Copy, Clone, PartialEq, Eq, Structural, Debug)]
pub enum GlyphColor {
    Black,
    Green,
    Red,
    White,
}

/// One drawing instruction for the plot surface: put `ch` at grid cell
/// `(x, y)` in the given colors.
#[derive(Copy, Clone, PartialEq, Eq, Structural, Debug)]
pub struct PlotCmd {
    pub ch: char,
    pub x: usize,
    pub y: usize,
    pub fg: GlyphColor,
    pub bg: GlyphColor,
}

/// Glyph of one snake segment.
pub const SNAKE_CHAR: char = 'O';
/// Glyph of the food cell.
pub const FOOD_CHAR: char = 'X';
/// Glyph that erases a cell.
pub const EMPTY_CHAR: char = ' ';

/// The commands that erase the snake's current footprint: background over
/// every live body cell.
pub open spec fn clear_cmds(s: SnakeGame) -> Seq<PlotCmd> {
    Seq::new(
        s.length as nat,
        |i: int| PlotCmd {
            ch: EMPTY_CHAR,
            x: s.body_x@[i],
            y: s.body_y@[i],
            fg: GlyphColor::Black,
            bg: GlyphColor::Black,
        },
    )
}

/// The commands that draw every live body cell with the snake glyph.
pub open spec fn snake_cmds(s: SnakeGame) -> Seq<PlotCmd> {
    Seq::new(
        s.length as nat,
        |i: int| PlotCmd {
            ch: SNAKE_CHAR,
            x: s.body_x@[i],
            y: s.body_y@[i],
            fg: GlyphColor::Green,
            bg: GlyphColor::Black,
        },
    )
}

/// The command that draws the food cell.
pub open spec fn food_cmd(s: SnakeGame) -> PlotCmd {
    PlotCmd {
        ch: FOOD_CHAR,
        x: s.food_x,
        y: s.food_y,
        fg: GlyphColor::Red,
        bg: GlyphColor::Black,
    }
}

/// The character for a decimal digit value; values above 9 give the character
/// that far beyond `'0'`, exactly as the display rule computes it.
pub open spec fn digit_char(d: int) -> char {
    ((d + 48) as u8) as char
}

/// One cell of the score readout on the bottom row.
pub open spec fn score_cell(s: SnakeGame, ch: char, x: int) -> PlotCmd {
    PlotCmd {
        ch: ch,
        x: x as usize,
        y: (s.grid_height - 1) as usize,
        fg: GlyphColor::White,
        bg: GlyphColor::Black,
    }
}

/// The score readout: the literal characters of `"Score: NN"`, left-aligned on
/// the bottom row, where NN is the zero-padded two-digit decimal score
/// (`length - 3`). Scores of 100 or more overflow the two digits; that
/// limitation of the readout is preserved as it stands.
pub open spec fn score_cmds(s: SnakeGame) -> Seq<PlotCmd> {
    seq![
        score_cell(s, 'S', 0),
        score_cell(s, 'c', 1),
        score_cell(s, 'o', 2),
        score_cell(s, 'r', 3),
        score_cell(s, 'e', 4),
        score_cell(s, ':', 5),
        score_cell(s, ' ', 6),
        score_cell(s, digit_char((s.length - 3) / 10), 7),
        score_cell(s, digit_char((s.length - 3) % 10), 8),
    ]
}

/// One cell of the game-over banner: character number `i` of the message,
/// placed on the grid's middle row, centered horizontally.
pub open spec fn banner_cell(s: SnakeGame, ch: char, i: int) -> PlotCmd {
    PlotCmd {
        ch: ch,
        x: (s.grid_width / 2 - 15 + i) as usize,
        y: (s.grid_height / 2) as usize,
        fg: GlyphColor::Red,
        bg: GlyphColor::Black,
    }
}

/// The commands that paint the game-over banner, centered horizontally on the
/// grid's middle row.
pub open spec fn game_over_cmds(s: SnakeGame) -> Seq<PlotCmd> {
    seq![
        banner_cell(s, 'G', 0),
        banner_cell(s, 'A', 1),
        banner_cell(s, 'M', 2),
        banner_cell(s, 'E', 3),
        banner_cell(s, ' ', 4),
        banner_cell(s, 'O', 5),
        banner_cell(s, 'V', 6),
        banner_cell(s, 'E', 7),
        banner_cell(s, 'R', 8),
        banner_cell(s, '!', 9),
        banner_cell(s, ' ', 10),
        banner_cell(s, 'P', 11),
        banner_cell(s, 'r', 12),
        banner_cell(s, 'e', 13),
        banner_cell(s, 's', 14),
        banner_cell(s, 's', 15),
        banner_cell(s, ' ', 16),
        banner_cell(s, 'r', 17),
        banner_cell(s, ' ', 18),
        banner_cell(s, 't', 19),
        banner_cell(s, 'o', 20),
        banner_cell(s, ' ', 21),
        banner_cell(s, 'r', 22),
        banner_cell(s, 'e', 23),
        banner_cell(s, 's', 24),
        banner_cell(s, 't', 25),
        banner_cell(s, 'a', 26),
        banner_cell(s, 'r', 27),
        banner_cell(s, 't', 28),
        banner_cell(s, '.', 29),
    ]
}

/// The commands that blank the whole grid, row by row.
pub open spec fn clear_screen_cmds(s: SnakeGame) -> Seq<PlotCmd> {
    Seq::new(
        (s.grid_width * s.grid_height) as nat,
        |k: int| PlotCmd {
            ch: EMPTY_CHAR,
            x: (k % (s.grid_width as int)) as usize,
            y: (k / (s.grid_width as int)) as usize,
            fg: GlyphColor::Black,
            bg: GlyphColor::Black,
        },
    )
}

/// Everything one live tick plots, in order: erase the old footprint, draw the
/// moved body, the food, then the score readout.
pub open spec fn tick_cmds(pre: SnakeGame, post: SnakeGame) -> Seq<PlotCmd> {
    clear_cmds(pre) + snake_cmds(post) + seq![food_cmd(post)] + score_cmds(post)
}

impl SnakeGame {
    /// Appends the commands that erase the snake's current footprint.
    #[verifier::loop_isolation(false)]
    pub fn clear_snake(&self, cmds: &mut Vec<PlotCmd>)
        requires
            self.wf(),
        ensures
            final(cmds)@ == old(cmds)@ + clear_cmds(*self),
    {
        for i in 0..self.length
            invariant
                cmds@ == old(cmds)@ + clear_cmds(*self).take(i as int),
        {
            cmds.push(
                PlotCmd {
                    ch: EMPTY_CHAR,
                    x: self.body_x[i],
                    y: self.body_y[i],
                    fg: GlyphColor::Black,
                    bg: GlyphColor::Black,
                },
            );
            proof {
                assert(cmds@ =~= old(cmds)@ + clear_cmds(*self).take(i + 1));
            }
        }
        proof {
            assert(clear_cmds(*self).take(self.length as int) =~= clear_cmds(*self));
        }
    }

    /// Appends the commands that draw every live body cell.
    #[verifier::loop_isolation(false)]
    pub fn draw_snake(&self, cmds: &mut Vec<PlotCmd>)
        requires
            self.wf(),
        ensures
            final(cmds)@ == old(cmds)@ + snake_cmds(*self),
    {
        for i in 0..self.length
            invariant
                cmds@ == old(cmds)@ + snake_cmds(*self).take(i as int),
        {
            cmds.push(
                PlotCmd {
                    ch: SNAKE_CHAR,
                    x: self.body_x[i],
                    y: self.body_y[i],
                    fg: GlyphColor::Green,
                    bg: GlyphColor::Black,
                },
            );
            proof {
                assert(cmds@ =~= old(cmds)@ + snake_cmds(*self).take(i + 1));
            }
        }
        proof {
            assert(snake_cmds(*self).take(self.length as int) =~= snake_cmds(*self));
        }
    }

    /// Appends the command that draws the food cell.
    pub fn draw_food(&self, cmds: &mut Vec<PlotCmd>)
        requires
            self.wf(),
        ensures
            final(cmds)@ == old(cmds)@ + seq![food_cmd(*self)],
    {
        cmds.push(
            PlotCmd {
                ch: FOOD_CHAR,
                x: self.food_x,
                y: self.food_y,
                fg: GlyphColor::Red,
                bg: GlyphColor::Black,
            },
        );
        proof {
            assert(cmds@ =~= old(cmds)@ + seq![food_cmd(*self)]);
        }
    }

    /// Appends the score readout for the bottom row.
    pub fn display_score(&self, cmds: &mut Vec<PlotCmd>)
        requires
            self.wf(),
        ensures
            final(cmds)@ == old(cmds)@ + score_cmds(*self),
    {
        let score = self.length - 3;
        let row = self.grid_height - 1;
        let tens = ((score / 10) as u8 + 48) as char;
        let ones = ((score % 10) as u8 + 48) as char;
        cmds.push(PlotCmd { ch: 'S', x: 0, y: row, fg: GlyphColor::White, bg: GlyphColor::Black });
        cmds.push(PlotCmd { ch: 'c', x: 1, y: row, fg: GlyphColor::White, bg: GlyphColor::Black });
        cmds.push(PlotCmd { ch: 'o', x: 2, y: row, fg: GlyphColor::White, bg: GlyphColor::Black });
        cmds.push(PlotCmd { ch: 'r', x: 3, y: row, fg: GlyphColor::White, bg: GlyphColor::Black });
        cmds.push(PlotCmd { ch: 'e', x: 4, y: row, fg: GlyphColor::White, bg: GlyphColor::Black });
        cmds.push(PlotCmd { ch: ':', x: 5, y: row, fg: GlyphColor::White, bg: GlyphColor::Black });
        cmds.push(PlotCmd { ch: ' ', x: 6, y: row, fg: GlyphColor::White, bg: GlyphColor::Black });
        cmds.push(PlotCmd { ch: tens, x: 7, y: row, fg: GlyphColor::White, bg: GlyphColor::Black });
        cmds.push(PlotCmd { ch: ones, x: 8, y: row, fg: GlyphColor::White, bg: GlyphColor::Black });
        proof {
            assert(cmds@ =~= old(cmds)@ + score_cmds(*self));
        }
    }

    /// Appends the game-over banner for the grid's middle row, one command
    /// per character of the message.
    pub fn display_game_over(&self, cmds: &mut Vec<PlotCmd>)
        requires
            self.wf(),
        ensures
            final(cmds)@ == old(cmds)@ + game_over_cmds(*self),
    {
        let base = self.grid_width / 2 - 15;
        let mid = self.grid_height / 2;
        cmds.push(PlotCmd { ch: 'G', x: base + 0, y: mid, fg: GlyphColor::Red, bg: GlyphColor::Black });
        cmds.push(PlotCmd { ch: 'A', x: base + 1, y: mid, fg: GlyphColor::Red, bg: GlyphColor::Black });
        cmds.push(PlotCmd { ch: 'M', x: base + 2, y: mid, fg: GlyphColor::Red, bg: GlyphColor::Black });
        cmds.push(PlotCmd { ch: 'E', x: base + 3, y: mid, fg: GlyphColor::Red, bg: GlyphColor::Black });
        cmds.push(PlotCmd { ch: ' ', x: base + 4, y: mid, fg: GlyphColor::Red, bg: GlyphColor::Black });
        cmds.push(PlotCmd { ch: 'O', x: base + 5, y: mid, fg: GlyphColor::Red, bg: GlyphColor::Black });
        cmds.push(PlotCmd { ch: 'V', x: base + 6, y: mid, fg: GlyphColor::Red, bg: GlyphColor::Black });
        cmds.push(PlotCmd { ch: 'E', x: base + 7, y: mid, fg: GlyphColor::Red, bg: GlyphColor::Black });
        cmds.push(PlotCmd { ch: 'R', x: base + 8, y: mid, fg: GlyphColor::Red, bg: GlyphColor::Black });
        cmds.push(PlotCmd { ch: '!', x: base + 9, y: mid, fg: GlyphColor::Red, bg: GlyphColor::Black });
        cmds.push(PlotCmd { ch: ' ', x: base + 10, y: mid, fg: GlyphColor::Red, bg: GlyphColor::Black });
        cmds.push(PlotCmd { ch: 'P', x: base + 11, y: mid, fg: GlyphColor::Red, bg: GlyphColor::Black });
        cmds.push(PlotCmd { ch: 'r', x: base + 12, y: mid, fg: GlyphColor::Red, bg: GlyphColor::Black });
        cmds.push(PlotCmd { ch: 'e', x: base + 13, y: mid, fg: GlyphColor::Red, bg: GlyphColor::Black });
        cmds.push(PlotCmd { ch: 's', x: base + 14, y: mid, fg: GlyphColor::Red, bg: GlyphColor::Black });
        cmds.push(PlotCmd { ch: 's', x: base + 15, y: mid, fg: GlyphColor::Red, bg: GlyphColor::Black });
        cmds.push(PlotCmd { ch: ' ', x: base + 16, y: mid, fg: GlyphColor::Red, bg: GlyphColor::Black });
        cmds.push(PlotCmd { ch: 'r', x: base + 17, y: mid, fg: GlyphColor::Red, bg: GlyphColor::Black });
        cmds.push(PlotCmd { ch: ' ', x: base + 18, y: mid, fg: GlyphColor::Red, bg: GlyphColor::Black });
        cmds.push(PlotCmd { ch: 't', x: base + 19, y: mid, fg: GlyphColor::Red, bg: GlyphColor::Black });
        cmds.push(PlotCmd { ch: 'o', x: base + 20, y: mid, fg: GlyphColor::Red, bg: GlyphColor::Black });
        cmds.push(PlotCmd { ch: ' ', x: base + 21, y: mid, fg: GlyphColor::Red, bg: GlyphColor::Black });
        cmds.push(PlotCmd { ch: 'r', x: base + 22, y: mid, fg: GlyphColor::Red, bg: GlyphColor::Black });
        cmds.push(PlotCmd { ch: 'e', x: base + 23, y: mid, fg: GlyphColor::Red, bg: GlyphColor::Black });
        cmds.push(PlotCmd { ch: 's', x: base + 24, y: mid, fg: GlyphColor::Red, bg: GlyphColor::Black });
        cmds.push(PlotCmd { ch: 't', x: base + 25, y: mid, fg: GlyphColor::Red, bg: GlyphColor::Black });
        cmds.push(PlotCmd { ch: 'a', x: base + 26, y: mid, fg: GlyphColor::Red, bg: GlyphColor::Black });
        cmds.push(PlotCmd { ch: 'r', x: base + 27, y: mid, fg: GlyphColor::Red, bg: GlyphColor::Black });
        cmds.push(PlotCmd { ch: 't', x: base + 28, y: mid, fg: GlyphColor::Red, bg: GlyphColor::Black });
        cmds.push(PlotCmd { ch: '.', x: base + 29, y: mid, fg: GlyphColor::Red, bg: GlyphColor::Black });
        proof {
            assert(cmds@ =~= old(cmds)@ + game_over_cmds(*self));
        }
    }

    /// Appends the commands that blank the whole grid.
    #[verifier::loop_isolation(false)]
    pub fn clear_screen(&self, cmds: &mut Vec<PlotCmd>)
        requires
            self.wf(),
        ensures
            final(cmds)@ == old(cmds)@ + clear_screen_cmds(*self),
    {
        let total = self.grid_width * self.grid_height;
        for k in 0..total
            invariant
                cmds@ == old(cmds)@ + clear_screen_cmds(*self).take(k as int),
        {
            let x = k % self.grid_width;
            let y = k / self.grid_width;
            cmds.push(
                PlotCmd { ch: EMPTY_CHAR, x: x, y: y, fg: GlyphColor::Black, bg: GlyphColor::Black },
            );
            proof {
                assert(cmds@ =~= old(cmds)@ + clear_screen_cmds(*self).take(k + 1));
            }
        }
        proof {
            assert(clear_screen_cmds(*self).take(total as int) =~= clear_screen_cmds(*self));
        }
    }
}

} // verus!
