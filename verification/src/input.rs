//! Input handling: directional keys and single-character commands.
//!
//! The keyboard driver decodes scancodes outside the core; the core receives
//! one `KeyEvent` per decoded key. A turn request is honored only when it is
//! orthogonal to the current direction, which forbids 180-degree reversals.
//! After game over, directional input is ignored; only the restart character
//! `r` (and the then-idle quit character `q`) are meaningful.

use vstd::prelude::*;
use crate::game::SnakeGame;
use crate::render::PlotCmd;
use crate::render::clear_screen_cmds;

verus! {

/// A raw (non-character) key from the keyboard driver: one of the four arrow
/// keys, or any other raw key, which the game ignores.
#[derive(Copy, Clone, PartialEq, Eq, Structural, Debug)]
pub enum RawKey {
    ArrowLeft,
    ArrowRight,
    ArrowUp,
    ArrowDown,
    Other,
}

/// One decoded keyboard event: a raw key or a Unicode character.
#[derive(Copy, Clone, PartialEq, Eq, Structural, Debug)]
pub enum KeyEvent {
    Raw(RawKey),
    Unicode(char),
}

/// The direction after a raw key while the game runs: a left/right request is
/// honored only when `dx == 0` (moving vertically), an up/down request only
/// when `dy == 0` (moving horizontally); everything else leaves the direction
/// unchanged. In particular no key can reverse the direction outright.
pub open spec fn turned(dx: int, dy: int, key: RawKey) -> (int, int) {
    match key {
        RawKey::ArrowLeft => if dx == 0 { (-1int, 0int) } else { (dx, dy) },
        RawKey::ArrowRight => if dx == 0 { (1int, 0int) } else { (dx, dy) },
        RawKey::ArrowUp => if dy == 0 { (0int, -1int) } else { (dx, dy) },
        RawKey::ArrowDown => if dy == 0 { (0int, 1int) } else { (dx, dy) },
        RawKey::Other => (dx, dy),
    }
}

impl SnakeGame {
    /// Applies a raw key: while the game runs, an arrow key may turn the
    /// snake, per `turned`; after game over every raw key is ignored.
    pub fn handle_raw(&mut self, key: RawKey)
        requires
            old(self).wf(),
        ensures
            final(self).wf(),
            old(self).game_over ==> *final(self) == *old(self),
            !old(self).game_over ==> {
                &&& (final(self).dx as int, final(self).dy as int) == turned(
                    old(self).dx as int,
                    old(self).dy as int,
                    key,
                )
                &&& *final(self) == (SnakeGame {
                    dx: final(self).dx,
                    dy: final(self).dy,
                    ..*old(self)
                })
            },
    {
        if self.game_over {
            return;
        }

        match key {
            RawKey::ArrowLeft => {
                if self.dx == 0 {
                    self.dx = -1;
                    self.dy = 0;
                }
            },
            RawKey::ArrowRight => {
                if self.dx == 0 {
                    self.dx = 1;
                    self.dy = 0;
                }
            },
            RawKey::ArrowUp => {
                if self.dy == 0 {
                    self.dx = 0;
                    self.dy = -1;
                }
            },
            RawKey::ArrowDown => {
                if self.dy == 0 {
                    self.dx = 0;
                    self.dy = 1;
                }
            },
            RawKey::Other => {},
        }
    }

    /// Applies a character key: after game over, `r` blanks the grid and
    /// restarts from the start state; while the game runs, `q` ends the game.
    /// Every other character is ignored.
    pub fn handle_unicode(&mut self, key: char) -> (cmds: Vec<PlotCmd>)
        requires
            old(self).wf(),
        ensures
            final(self).wf(),
            old(self).game_over && key == 'r' ==> final(self).is_start_state() && cmds@
                == clear_screen_cmds(*old(self)),
            old(self).game_over && key != 'r' ==> *final(self) == *old(self) && cmds@.len() == 0,
            !old(self).game_over && key == 'q' ==> *final(self) == (SnakeGame {
                game_over: true,
                ..*old(self)
            }) && cmds@.len() == 0,
            !old(self).game_over && key != 'q' ==> *final(self) == *old(self) && cmds@.len() == 0,
    {
        let mut cmds: Vec<PlotCmd> = Vec::new();
        if self.game_over {
            if key == 'r' {
                self.clear_screen(&mut cmds);
                *self = SnakeGame::new();
            }
        } else if key == 'q' {
            self.game_over = true;
        }
        cmds
    }

    /// Dispatches one decoded keyboard event to the raw-key or character
    /// handler and hands back whatever must be drawn (commands that blank the
    /// grid on a restart; nothing otherwise).
    pub fn key(&mut self, key: KeyEvent) -> (cmds: Vec<PlotCmd>)
        requires
            old(self).wf(),
        ensures
            final(self).wf(),
            (match key {
                KeyEvent::Raw(code) => {
                    &&& cmds@.len() == 0
                    &&& (old(self).game_over ==> *final(self) == *old(self))
                    &&& (!old(self).game_over ==> {
                        &&& (final(self).dx as int, final(self).dy as int) == turned(
                            old(self).dx as int,
                            old(self).dy as int,
                            code,
                        )
                        &&& *final(self) == (SnakeGame {
                            dx: final(self).dx,
                            dy: final(self).dy,
                            ..*old(self)
                        })
                    })
                },
                KeyEvent::Unicode(c) => {
                    &&& (old(self).game_over && c == 'r' ==> final(self).is_start_state() && cmds@
                        == clear_screen_cmds(*old(self)))
                    &&& (old(self).game_over && c != 'r' ==> *final(self) == *old(self)
                        && cmds@.len() == 0)
                    &&& (!old(self).game_over && c == 'q' ==> *final(self) == (SnakeGame {
                        game_over: true,
                        ..*old(self)
                    }) && cmds@.len() == 0)
                    &&& (!old(self).game_over && c != 'q' ==> *final(self) == *old(self)
                        && cmds@.len() == 0)
                },
            }),
    {
        match key {
            KeyEvent::Raw(code) => {
                self.handle_raw(code);
                Vec::new()
            },
            KeyEvent::Unicode(c) => self.handle_unicode(c),
        }
    }
}

} // verus!
