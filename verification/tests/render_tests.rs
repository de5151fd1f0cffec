//! The plot commands a tick describes: snake, food, score, banner, clearing.

use snake_core::GlyphColor;
use snake_core::KeyEvent;
use snake_core::PlotCmd;
use snake_core::SnakeGame;

fn score_readout(cmds: &[PlotCmd]) -> String {
    // the score readout is the last 9 commands of a live tick
    cmds[cmds.len() - 9..].iter().map(|c| c.ch).collect()
}

#[test]
fn fresh_tick_reads_score_zero() {
    let mut g = SnakeGame::new();
    let cmds = g.tick();
    assert_eq!(score_readout(&cmds), "Score: 00");
    let tail = &cmds[cmds.len() - 9..];
    for (i, c) in tail.iter().enumerate() {
        assert_eq!(c.x, i);
        assert_eq!(c.y, 24);
        assert_eq!(c.fg, GlyphColor::White);
        assert_eq!(c.bg, GlyphColor::Black);
    }
}

#[test]
fn score_reads_01_after_first_food() {
    let mut g = SnakeGame::new();
    g.body_x[0] = 19;
    g.body_y[0] = 6;
    let cmds = g.tick();
    assert_eq!(g.length, 4);
    assert_eq!(score_readout(&cmds), "Score: 01");
}

#[test]
fn live_tick_erases_then_draws_everything() {
    let mut g = SnakeGame::new();
    let before = g.clone();
    let cmds = g.tick();
    assert_eq!(cmds.len(), 16);
    // first the old footprint is erased...
    for i in 0..3 {
        assert_eq!(cmds[i].ch, ' ');
        assert_eq!(cmds[i].x, before.body_x[i]);
        assert_eq!(cmds[i].y, before.body_y[i]);
        assert_eq!(cmds[i].fg, GlyphColor::Black);
    }
    // ...then the moved body is drawn...
    for i in 0..3 {
        assert_eq!(cmds[3 + i].ch, 'O');
        assert_eq!(cmds[3 + i].x, g.body_x[i]);
        assert_eq!(cmds[3 + i].y, g.body_y[i]);
        assert_eq!(cmds[3 + i].fg, GlyphColor::Green);
    }
    // ...then the food...
    assert_eq!(cmds[6].ch, 'X');
    assert_eq!((cmds[6].x, cmds[6].y), (20, 6));
    assert_eq!(cmds[6].fg, GlyphColor::Red);
    // ...then the score readout.
    assert_eq!(score_readout(&cmds), "Score: 00");
}

#[test]
fn game_over_tick_draws_the_banner_centered() {
    let mut g = SnakeGame::new();
    g.game_over = true;
    let cmds = g.tick();
    assert_eq!(cmds.len(), 30);
    let text: String = cmds.iter().map(|c| c.ch).collect();
    assert_eq!(text, "GAME OVER! Press r to restart.");
    for (i, c) in cmds.iter().enumerate() {
        assert_eq!(c.x, 80 / 2 - 15 + i);
        assert_eq!(c.y, 12);
        assert_eq!(c.fg, GlyphColor::Red);
        assert_eq!(c.bg, GlyphColor::Black);
    }
}

#[test]
fn restart_blanks_every_grid_cell() {
    let mut g = SnakeGame::new();
    g.key(KeyEvent::Unicode('q'));
    let cmds = g.key(KeyEvent::Unicode('r'));
    assert_eq!(cmds.len(), 80 * 25);
    for (k, c) in cmds.iter().enumerate() {
        assert_eq!(c.ch, ' ');
        assert_eq!(c.x, k % 80);
        assert_eq!(c.y, k / 80);
        assert_eq!(c.fg, GlyphColor::Black);
        assert_eq!(c.bg, GlyphColor::Black);
    }
}
