//! The general properties of the game, stated and proved once for all states.
//!
//! Per-state invariants (well-formedness, bounds on the body and the food)
//! are carried by `SnakeGame::wf` in the contracts of every operation; the
//! lemmas here state the remaining laws that relate the specification
//! functions those contracts are written over.

use vstd::prelude::*;
use crate::game::SnakeGame;
use crate::game::moved;
use crate::game::wrap;
use crate::input::RawKey;
use crate::input::turned;
use crate::render::score_cmds;

verus! {

/// Law: movement wraps toroidally on every axis. One step forward from the
/// last cell of an axis lands on cell 0; one step backward from cell 0 lands
/// on the last cell.
pub proof fn lemma_wraparound(limit: int)
    requires
        1 <= limit,
    ensures
        wrap(limit - 1, 1, limit) == 0,
        wrap(0, -1, limit) == limit - 1,
{
}

/// Law: the same, said of a whole state: a snake moving right out of the last
/// column reappears in column 0, one moving left out of column 0 reappears in
/// the last column, and symmetrically for the rows.
pub proof fn lemma_wraparound_state(s: SnakeGame)
    requires
        s.wf(),
    ensures
        s.dx == 1 && s.body_x@[s.head_index as int] == s.grid_width - 1 ==> s.next_x() == 0,
        s.dx == -1 && s.body_x@[s.head_index as int] == 0 ==> s.next_x() == s.grid_width - 1,
        s.dy == 1 && s.body_y@[s.head_index as int] == s.grid_height - 1 ==> s.next_y() == 0,
        s.dy == -1 && s.body_y@[s.head_index as int] == 0 ==> s.next_y() == s.grid_height - 1,
{
    lemma_wraparound(s.grid_width as int);
    lemma_wraparound(s.grid_height as int);
}

/// Law: no single key reverses the direction. In particular, while moving
/// right a left-arrow changes nothing, and an up or down arrow turns the
/// snake upward or downward.
pub proof fn lemma_no_reversal(dx: int, dy: int, key: RawKey)
    requires
        (dx == 1 && dy == 0) || (dx == -1 && dy == 0) || (dx == 0 && dy == 1) || (dx == 0 && dy
            == -1),
    ensures
        turned(dx, dy, key) != ((-dx, -dy)),
        turned(1, 0, RawKey::ArrowLeft) == ((1int, 0int)),
        turned(1, 0, RawKey::ArrowUp) == ((0int, -1int)),
        turned(1, 0, RawKey::ArrowDown) == ((0int, 1int)),
{
}

/// Law: food placement is deterministic. Whenever a move eats the food, the
/// next food cell is exactly the old one shifted by `(7, 5)` and wrapped onto
/// the grid, and the snake grows by one slot up to the grid capacity.
pub proof fn lemma_growth_determinism(pre: SnakeGame, post: SnakeGame)
    requires
        pre.wf(),
        moved(pre, post),
        pre.eats(),
    ensures
        post.food_x == (pre.food_x + 7) % (pre.grid_width as int),
        post.food_y == (pre.food_y + 5) % (pre.grid_height as int),
        post.length == (if pre.length < pre.capacity() {
            pre.length + 1
        } else {
            pre.length as int
        }),
{
}

/// Law: after the first food is eaten (length 3 grown to 4), the score digits
/// of the readout spell `"01"`.
pub proof fn lemma_score_after_first_food(s: SnakeGame)
    requires
        s.wf(),
        s.length == 4,
    ensures
        score_cmds(s)[7].ch == '0',
        score_cmds(s)[8].ch == '1',
{
}

/// Law: restarting yields exactly a freshly constructed game. Any two start
/// states agree in every observable field, so the state `r` restores after
/// game over is the state `new` builds.
pub proof fn lemma_restart_matches_new(a: SnakeGame, b: SnakeGame)
    requires
        a.is_start_state(),
        b.is_start_state(),
    ensures
        a.grid_width == b.grid_width,
        a.grid_height == b.grid_height,
        a.body_x@ == b.body_x@,
        a.body_y@ == b.body_y@,
        a.length == b.length,
        a.head_index == b.head_index,
        a.food_x == b.food_x,
        a.food_y == b.food_y,
        a.dx == b.dx,
        a.dy == b.dy,
        a.game_over == b.game_over,
{
    assert(a.body_x@ =~= b.body_x@);
    assert(a.body_y@ =~= b.body_y@);
}

} // verus!
