use coin_display::coin::{Coin, CoinType, Color, Position};
use coin_display::render::{fps_from_elapsed, DrawCommand, Renderer};
use coin_display::store::{Button, CoinStore};

fn fps_command(text: &str) -> DrawCommand {
    DrawCommand::Text {
        content: text.to_string(),
        anchor: Position { x: 160, y: 10 },
        color: Color::White,
    }
}

#[test]
fn fps_divides_a_second_by_the_frame_time() {
    assert_eq!(fps_from_elapsed(1), 1000);
    assert_eq!(fps_from_elapsed(16), 62);
    assert_eq!(fps_from_elapsed(250), 4);
    assert_eq!(fps_from_elapsed(1000), 1);
    assert_eq!(fps_from_elapsed(1001), 0);
}

#[test]
fn fps_of_zero_elapsed_is_clamped() {
    assert_eq!(fps_from_elapsed(0), 1000);
}

#[test]
fn fps_of_largest_elapsed_is_zero() {
    assert_eq!(fps_from_elapsed(u128::MAX), 0);
}

#[test]
fn renderer_starts_at_zero_fps() {
    assert_eq!(Renderer::new().last_fps, 0);
}

#[test]
fn empty_store_renders_clear_and_readout_only() {
    let s = CoinStore::new();
    let r = Renderer::new();
    for _ in 0..3 {
        let cmds = r.frame(&s);
        assert_eq!(
            cmds,
            vec![DrawCommand::Clear { color: Color::Black }, fps_command("FPS: 0")]
        );
    }
}

#[test]
fn finish_frame_updates_readout() {
    let s = CoinStore::new();
    let mut r = Renderer::new();
    r.finish_frame(16);
    assert_eq!(r.last_fps, 62);
    assert_eq!(r.frame(&s)[1], fps_command("FPS: 62"));
    r.finish_frame(0);
    assert_eq!(r.frame(&s)[1], fps_command("FPS: 1000"));
    r.finish_frame(3);
    assert_eq!(r.frame(&s)[1], fps_command("FPS: 333"));
}

#[test]
fn frame_draws_every_coin_in_list_order() {
    let mut s = CoinStore::new();
    for _ in 0..3 {
        s.on_edge(Button::Left);
    }
    for _ in 0..2 {
        s.on_edge(Button::Right);
    }
    let r = Renderer { last_fps: 7 };
    let cmds = r.frame(&s);
    assert_eq!(cmds.len(), 7);
    assert_eq!(cmds[0], DrawCommand::Clear { color: Color::Black });
    assert_eq!(cmds[1], fps_command("FPS: 7"));
    let colors: Vec<Color> = cmds[2..]
        .iter()
        .map(|c| match c {
            DrawCommand::Ellipse { stroke_color, .. } => *stroke_color,
            other => panic!("unexpected command {:?}", other),
        })
        .collect();
    assert_eq!(
        colors,
        vec![Color::Red, Color::Red, Color::Red, Color::Yellow, Color::Yellow]
    );
    assert_eq!(cmds[2], Coin::new(CoinType::BadCoin).draw_command());
}
