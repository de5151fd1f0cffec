//! Movement, growth and collision behavior of the game state.

use snake_core::KeyEvent;
use snake_core::RawKey;
use snake_core::SnakeGame;

#[test]
fn new_game_matches_start_state() {
    let g = SnakeGame::new();
    assert_eq!(g.grid_width, 80);
    assert_eq!(g.grid_height, 25);
    assert_eq!(g.body_x.len(), 2000);
    assert_eq!(g.body_y.len(), 2000);
    assert_eq!(g.length, 3);
    assert_eq!(g.head_index, 0);
    assert_eq!(g.body_x[0], 40);
    assert_eq!(g.body_y[0], 12);
    assert_eq!(g.food_x, 20);
    assert_eq!(g.food_y, 6);
    assert_eq!((g.dx, g.dy), (1, 0));
    assert!(!g.game_over);
    for i in 1..2000 {
        assert_eq!(g.body_x[i], 0);
        assert_eq!(g.body_y[i], 0);
    }
}

#[test]
fn default_matches_new() {
    assert_eq!(SnakeGame::default(), SnakeGame::new());
}

#[test]
fn tick_moves_head_one_cell_right() {
    let mut g = SnakeGame::new();
    let cmds = g.tick();
    assert_eq!(g.head_index, 1);
    assert_eq!(g.body_x[1], 41);
    assert_eq!(g.body_y[1], 12);
    assert_eq!(g.length, 3);
    assert!(!g.game_over);
    // erase 3 cells, draw 3 cells, the food, and 9 score characters
    assert_eq!(cmds.len(), 16);
}

#[test]
fn safe_add_wraps_both_ways() {
    let g = SnakeGame::new();
    assert_eq!(g.safe_add(79, 1, 80), 0);
    assert_eq!(g.safe_add(0, -1, 80), 79);
    assert_eq!(g.safe_add(24, 1, 25), 0);
    assert_eq!(g.safe_add(0, -1, 25), 24);
    assert_eq!(g.safe_add(40, 0, 80), 40);
    assert_eq!(g.safe_add(40, 1, 80), 41);
}

#[test]
fn wraparound_right_edge() {
    let mut g = SnakeGame::new();
    g.body_x[0] = 79;
    g.tick();
    assert_eq!(g.body_x[g.head_index], 0);
    assert_eq!(g.body_y[g.head_index], 12);
}

#[test]
fn wraparound_left_edge() {
    let mut g = SnakeGame::new();
    g.dx = -1;
    g.dy = 0;
    g.body_x[0] = 0;
    g.tick();
    assert_eq!(g.body_x[g.head_index], 79);
}

#[test]
fn wraparound_bottom_edge() {
    let mut g = SnakeGame::new();
    g.dx = 0;
    g.dy = 1;
    g.body_y[0] = 24;
    g.tick();
    assert_eq!(g.body_y[g.head_index], 0);
}

#[test]
fn wraparound_top_edge() {
    let mut g = SnakeGame::new();
    g.dx = 0;
    g.dy = -1;
    g.body_y[0] = 0;
    g.tick();
    assert_eq!(g.body_y[g.head_index], 24);
}

#[test]
fn eating_food_grows_and_respawns_deterministically() {
    let mut g = SnakeGame::new();
    // head one cell left of the food at (width/4, height/4) = (20, 6)
    g.body_x[0] = 19;
    g.body_y[0] = 6;
    g.tick();
    assert_eq!(g.length, 4);
    assert_eq!(g.food_x, (20 + 7) % 80);
    assert_eq!(g.food_y, (6 + 5) % 25);
    assert_eq!((g.food_x, g.food_y), (27, 11));
}

#[test]
fn missing_food_neither_grows_nor_respawns() {
    let mut g = SnakeGame::new();
    g.tick();
    assert_eq!(g.length, 3);
    assert_eq!((g.food_x, g.food_y), (20, 6));
}

#[test]
fn self_collision_sets_game_over() {
    let mut g = SnakeGame::new();
    g.length = 5;
    g.body_x[0] = 10;
    g.body_y[0] = 10;
    g.body_x[1] = 1;
    g.body_y[1] = 1;
    g.body_x[2] = 2;
    g.body_y[2] = 2;
    // the next head cell (11, 10) is already a live non-head cell
    g.body_x[3] = 11;
    g.body_y[3] = 10;
    g.body_x[4] = 3;
    g.body_y[4] = 3;
    g.tick();
    assert_eq!(g.head_index, 1);
    assert_eq!((g.body_x[1], g.body_y[1]), (11, 10));
    assert!(g.game_over);
}

#[test]
fn ticks_after_game_over_change_nothing() {
    let mut g = SnakeGame::new();
    g.game_over = true;
    let snapshot = g.clone();
    let cmds = g.tick();
    assert_eq!(g, snapshot);
    // only the 30 characters of the banner are drawn
    assert_eq!(cmds.len(), 30);
    let cmds2 = g.tick();
    assert_eq!(g, snapshot);
    assert_eq!(cmds2.len(), 30);
}

#[test]
fn driven_game_eats_twice_then_collides() {
    let mut g = SnakeGame::new();
    // steer up to the food row, then left onto the food at (20, 6)
    g.key(KeyEvent::Raw(RawKey::ArrowUp));
    for _ in 0..6 {
        g.tick();
    }
    assert_eq!((g.body_x[g.head_index], g.body_y[g.head_index]), (40, 6));
    g.key(KeyEvent::Raw(RawKey::ArrowLeft));
    for _ in 0..20 {
        g.tick();
    }
    assert_eq!((g.body_x[g.head_index], g.body_y[g.head_index]), (20, 6));
    assert_eq!(g.length, 4);
    assert_eq!((g.food_x, g.food_y), (27, 11));
    // approach the second food from above and eat it at (27, 11)
    g.key(KeyEvent::Raw(RawKey::ArrowDown));
    for _ in 0..4 {
        g.tick();
    }
    g.key(KeyEvent::Raw(RawKey::ArrowRight));
    for _ in 0..7 {
        g.tick();
    }
    g.key(KeyEvent::Raw(RawKey::ArrowDown));
    g.tick();
    assert_eq!(g.length, 5);
    assert_eq!((g.food_x, g.food_y), (34, 16));
    assert!(!g.game_over);
    // a tight loop now runs the head into its own trail
    g.key(KeyEvent::Raw(RawKey::ArrowRight));
    g.tick();
    g.key(KeyEvent::Raw(RawKey::ArrowUp));
    g.tick();
    assert!(!g.game_over);
    g.key(KeyEvent::Raw(RawKey::ArrowLeft));
    g.tick();
    assert!(g.game_over);
}
