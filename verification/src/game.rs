//! Game state, movement, growth and collision detection.

use vstd::prelude::*;
use crate::render::PlotCmd;
use crate::render::game_over_cmds;
use crate::render::tick_cmds;

verus! {

/// Width of the character grid of the target text display.
pub const BUFFER_WIDTH: usize = 80;
/// Height of the character grid of the target text display.
pub const BUFFER_HEIGHT: usize = 25;

/// Toroidal wraparound of a single coordinate: `a + d` brought back into
/// `[0, limit)` by adding `limit` once when the sum is negative and reducing
/// modulo `limit` otherwise.
pub open spec fn wrap(a: int, d: int, limit: int) -> int {
    if a + d < 0 {
        a + d + limit
    } else {
        (a + d) % limit
    }
}

/// The complete state of one game.
///
/// The snake's body is a ring buffer: the two coordinate vectors are sized to
/// the full grid capacity, only the first `length` slots are live, and
/// `head_index` (always below `length`) marks the newest segment. Growth just
/// widens the live window by one slot; no segment is physically inserted.
#[derive(Clone, PartialEq, Eq, Debug)]
pub struct SnakeGame {
    pub grid_width: usize,
    pub grid_height: usize,
    pub body_x: Vec<usize>,
    pub body_y: Vec<usize>,
    pub length: usize,
    pub head_index: usize,
    pub food_x: usize,
    pub food_y: usize,
    pub dx: isize,
    pub dy: isize,
    pub game_over: bool,
}

impl SnakeGame {
    /// Grid capacity: the number of cells, which is also the size of the body
    /// ring buffer and the largest length the snake can reach.
    pub open spec fn capacity(self) -> int {
        self.grid_width * self.grid_height
    }

    /// The direction is one of the four axis-aligned unit vectors.
    pub open spec fn dir_ok(self) -> bool {
        ||| (self.dx == 1 && self.dy == 0)
        ||| (self.dx == -1 && self.dy == 0)
        ||| (self.dx == 0 && self.dy == 1)
        ||| (self.dx == 0 && self.dy == -1)
    }

    /// Well-formedness of a game state: every reachable state satisfies this.
    ///
    /// The grid is wide enough for the 30-column game-over banner and no
    /// larger than the 80x25 text display this core targets; the body buffers
    /// span the whole grid; the live window holds between 3 and `capacity`
    /// slots with the head inside it; every stored coordinate, and the food,
    /// lies on the grid; and the direction is an axis-aligned unit step.
    pub open spec fn wf(self) -> bool {
        &&& 30 <= self.grid_width <= 2000
        &&& 1 <= self.grid_height <= 2000
        &&& self.capacity() <= 2000
        &&& self.body_x@.len() == self.capacity()
        &&& self.body_y@.len() == self.capacity()
        &&& 3 <= self.length <= self.capacity()
        &&& self.head_index < self.length
        &&& forall|i: int| 0 <= i < self.body_x@.len() ==> self.body_x@[i] < self.grid_width
        &&& forall|i: int| 0 <= i < self.body_y@.len() ==> self.body_y@[i] < self.grid_height
        &&& self.food_x < self.grid_width
        &&& self.food_y < self.grid_height
        &&& self.dir_ok()
    }

    /// The freshly constructed start state: a snake of length 3 with its head
    /// at the grid center, moving rightward, food at a fixed quarter-grid
    /// offset, all other body slots zeroed, and the game running.
    pub open spec fn is_start_state(self) -> bool {
        &&& self.grid_width == BUFFER_WIDTH
        &&& self.grid_height == BUFFER_HEIGHT
        &&& self.body_x@.len() == self.capacity()
        &&& self.body_y@.len() == self.capacity()
        &&& self.body_x@[0] == BUFFER_WIDTH / 2
        &&& self.body_y@[0] == BUFFER_HEIGHT / 2
        &&& forall|i: int| 1 <= i < self.body_x@.len() ==> self.body_x@[i] == 0
        &&& forall|i: int| 1 <= i < self.body_y@.len() ==> self.body_y@[i] == 0
        &&& self.length == 3
        &&& self.head_index == 0
        &&& self.food_x == BUFFER_WIDTH / 4
        &&& self.food_y == BUFFER_HEIGHT / 4
        &&& self.dx == 1
        &&& self.dy == 0
        &&& !self.game_over
    }

    /// Grid coordinate the head reaches on the next move, x axis.
    pub open spec fn next_x(self) -> int {
        wrap(self.body_x@[self.head_index as int] as int, self.dx as int, self.grid_width as int)
    }

    /// Grid coordinate the head reaches on the next move, y axis.
    pub open spec fn next_y(self) -> int {
        wrap(self.body_y@[self.head_index as int] as int, self.dy as int, self.grid_height as int)
    }

    /// Ring-buffer slot the next head is written to.
    pub open spec fn next_index(self) -> int {
        (self.head_index + 1) % (self.length as int)
    }

    /// The next move lands the head on the food cell.
    pub open spec fn eats(self) -> bool {
        self.next_x() == self.food_x && self.next_y() == self.food_y
    }

    /// Some live body slot other than the head slot holds the head's own
    /// coordinates: the snake has run into itself.
    pub open spec fn collides(self) -> bool {
        exists|i: int|
            0 <= i < self.length && i != self.head_index
                && #[trigger] self.body_x@[i] == self.body_x@[self.head_index as int]
                && #[trigger] self.body_y@[i] == self.body_y@[self.head_index as int]
    }

    /// Builds the start state: length 3, head at the grid center, moving
    /// rightward, food at `(width/4, height/4)`.
    pub fn new() -> (game: Self)
        ensures
            game.is_start_state(),
            game.wf(),
    {
        let start_x = BUFFER_WIDTH / 2;
        let start_y = BUFFER_HEIGHT / 2;
        let capacity = BUFFER_WIDTH * BUFFER_HEIGHT;
        let mut body_x: Vec<usize> = vec![0; capacity];
        let mut body_y: Vec<usize> = vec![0; capacity];

        body_x[0] = start_x;
        body_y[0] = start_y;

        Self {
            grid_width: BUFFER_WIDTH,
            grid_height: BUFFER_HEIGHT,
            body_x,
            body_y,
            length: 3,
            head_index: 0,
            food_x: BUFFER_WIDTH / 4,
            food_y: BUFFER_HEIGHT / 4,
            dx: 1,
            dy: 0,
            game_over: false,
        }
    }

    /// One wrapped step along one axis: `a + b` brought back onto the axis by
    /// toroidal wraparound.
    pub fn safe_add(&self, a: usize, b: isize, limit: usize) -> (r: usize)
        requires
            a < limit,
            limit <= 2000,
            -1 <= b <= 1,
        ensures
            r == wrap(a as int, b as int, limit as int),
    {
        let sum = a as isize + b;
        if sum < 0 {
            (sum + limit as isize) as usize
        } else {
            (sum % limit as isize) as usize
        }
    }

    /// Derives the next food cell from the old one: a fixed offset of `(7, 5)`,
    /// wrapped onto the grid. Deterministic by design; the new cell may land on
    /// the snake's own body, which is a known limitation of this rule.
    pub fn spawn_food(&mut self)
        requires
            old(self).wf(),
        ensures
            final(self).wf(),
            final(self).food_x == (old(self).food_x + 7) % (old(self).grid_width as int),
            final(self).food_y == (old(self).food_y + 5) % (old(self).grid_height as int),
            *final(self) == (SnakeGame {
                food_x: final(self).food_x,
                food_y: final(self).food_y,
                ..*old(self)
            }),
    {
        self.food_x = (self.food_x + 7) % self.grid_width;
        self.food_y = (self.food_y + 5) % self.grid_height;
    }

    /// Moves the head one cell in the current direction, advancing the ring
    /// buffer; on reaching the food, widens the live window by one slot (capped
    /// at the grid capacity) and respawns the food.
    pub fn update_snake(&mut self)
        requires
            old(self).wf(),
        ensures
            final(self).wf(),
            moved(*old(self), *final(self)),
            final(self).game_over == old(self).game_over,
    {
        let new_x = self.safe_add(self.body_x[self.head_index], self.dx, self.grid_width);
        let new_y = self.safe_add(self.body_y[self.head_index], self.dy, self.grid_height);

        self.head_index = (self.head_index + 1) % self.length;
        self.body_x[self.head_index] = new_x;
        self.body_y[self.head_index] = new_y;

        if new_x == self.food_x && new_y == self.food_y {
            let capacity = self.body_x.len();
            if self.length < capacity {
                self.length = self.length + 1;
            }
            self.spawn_food();
        }
    }

    /// One simulation tick. While the game runs: erase the previous footprint,
    /// move the head (eating food grows the snake and respawns the food),
    /// detect self-collision, then draw the new body, the food and the score
    /// readout. After game over: nothing changes; only the game-over banner is
    /// drawn, anew on every tick.
    pub fn tick(&mut self) -> (cmds: Vec<PlotCmd>)
        requires
            old(self).wf(),
        ensures
            final(self).wf(),
            old(self).game_over ==> *final(self) == *old(self) && cmds@ == game_over_cmds(
                *old(self),
            ),
            !old(self).game_over ==> moved(*old(self), *final(self)) && final(self).game_over
                == final(self).collides() && cmds@ == tick_cmds(*old(self), *final(self)),
    {
        let mut cmds: Vec<PlotCmd> = Vec::new();
        if self.game_over {
            self.display_game_over(&mut cmds);
            return cmds;
        }

        self.clear_snake(&mut cmds);
        self.update_snake();
        self.check_collisions();
        self.draw_snake(&mut cmds);
        self.draw_food(&mut cmds);
        self.display_score(&mut cmds);
        proof {
            assert(cmds@ =~= tick_cmds(*old(self), *self));
        }
        cmds
    }

    /// Scans every live slot other than the head slot; a slot holding the
    /// head's coordinates ends the game.
    #[verifier::loop_isolation(false)]
    pub fn check_collisions(&mut self)
        requires
            old(self).wf(),
        ensures
            final(self).wf(),
            final(self).game_over == (old(self).game_over || old(self).collides()),
            *final(self) == (SnakeGame { game_over: final(self).game_over, ..*old(self) }),
    {
        let head_x = self.body_x[self.head_index];
        let head_y = self.body_y[self.head_index];

        for i in 0..self.length
            invariant
                *self == (SnakeGame { game_over: self.game_over, ..*old(self) }),
                self.game_over == (old(self).game_over || exists|j: int|
                    0 <= j < i && j != self.head_index
                        && #[trigger] self.body_x@[j] == head_x
                        && #[trigger] self.body_y@[j] == head_y),
                head_x == self.body_x@[self.head_index as int],
                head_y == self.body_y@[self.head_index as int],
        {
            if i != self.head_index && self.body_x[i] == head_x && self.body_y[i] == head_y {
                self.game_over = true;
                assert(0 <= i < self.length && i != self.head_index
                    && self.body_x@[i as int] == head_x && self.body_y@[i as int] == head_y);
            }
        }
    }
}

/// How one move relates the pre- and post-state: everything `update_snake`
/// does, leaving the game-over flag untouched.
pub open spec fn moved(pre: SnakeGame, post: SnakeGame) -> bool {
    let h = pre.next_index();
    &&& post.head_index == h
    &&& post.body_x@ == pre.body_x@.update(h, pre.next_x() as usize)
    &&& post.body_y@ == pre.body_y@.update(h, pre.next_y() as usize)
    &&& post.length == (if pre.eats() {
        if pre.length < pre.capacity() {
            pre.length + 1
        } else {
            pre.length as int
        }
    } else {
        pre.length as int
    })
    &&& post.food_x == (if pre.eats() {
        (pre.food_x + 7) % (pre.grid_width as int)
    } else {
        pre.food_x as int
    })
    &&& post.food_y == (if pre.eats() {
        (pre.food_y + 5) % (pre.grid_height as int)
    } else {
        pre.food_y as int
    })
    &&& post.grid_width == pre.grid_width
    &&& post.grid_height == pre.grid_height
    &&& post.dx == pre.dx
    &&& post.dy == pre.dy
}

impl Default for SnakeGame {
    /// The start state, exactly as `new` builds it.
    fn default() -> (game: Self)
        ensures
            game.is_start_state(),
            game.wf(),
    {
        Self::new()
    }
}

} // verus!
