use bsp_renderer::boxy_world::BoxyWorld;
use bsp_renderer::line::Line;
use bsp_renderer::textures::{ColoredTexture, PixelPattern, Pixelized};
use bsp_renderer::color::Color;
use bsp_renderer::controls::{push_for_held_key, turn_for_pressed_key, Key, Push, Turn};

#[test]
fn boxy_world_starts_moving_down_right() {
    let w = BoxyWorld::new();
    assert_eq!((w.box_x, w.box_y, w.velocity_x, w.velocity_y), (24, 16, 1, 1));
}

#[test]
fn boxy_world_moves_and_bounces() {
    let mut w = BoxyWorld::new();
    w.update();
    assert_eq!((w.box_x, w.box_y), (25, 17));
    w.box_x = 417;
    w.update();
    assert_eq!((w.box_x, w.velocity_x), (416, -1));
    w.box_y = 0;
    w.velocity_y = -1;
    w.update();
    assert_eq!((w.box_y, w.velocity_y), (1, 1));
}

#[test]
fn boxy_world_mouse_moves_box() {
    let mut w = BoxyWorld::new();
    w.left_mouse_pressed(100, 80);
    assert_eq!((w.box_x, w.box_y), (36, 16));
    assert_eq!((w.velocity_x, w.velocity_y), (1, 1));
}

#[test]
fn boxy_world_draws_box_and_background() {
    let w = BoxyWorld::new();
    let mut frame = vec![0u8; 4 * 480 * 20 + 2];
    w.draw(&mut frame);
    let at = |x: usize, y: usize| frame[4 * (x + 480 * y)..4 * (x + 480 * y) + 4].to_vec();
    assert_eq!(at(0, 0), vec![0x48, 0xb2, 0xe8, 0xff]);
    assert_eq!(at(24, 16), vec![0x5e, 0x48, 0xe8, 0xff]);
    assert_eq!(at(87, 19), vec![0x5e, 0x48, 0xe8, 0xff]);
    assert_eq!(at(88, 19), vec![0x48, 0xb2, 0xe8, 0xff]);
    assert_eq!(&frame[4 * 480 * 20..], &[0, 0]);
}

#[test]
fn line_holds_its_points() {
    let l = Line::new((0, 1), (2, 3));
    assert_eq!((l.p1, l.p2), ((0, 1), (2, 3)));
}

#[test]
fn colored_texture_shows_its_color() {
    let t = ColoredTexture::new(Color::orange());
    assert_eq!(t.color(), Color::orange());
}

#[test]
fn pixelized_counts_lines() {
    assert_eq!(Pixelized::new(&String::new()).rows, 0);
    assert_eq!(Pixelized::new(&"ab".to_string()).rows, 1);
    assert_eq!(Pixelized::new(&"ab\ncd".to_string()).rows, 2);
    assert_eq!(Pixelized::new(&"ab\ncd\n".to_string()).rows, 2);
    assert_eq!(Pixelized::new(&"\n\n".to_string()).rows, 2);
    assert_eq!(Pixelized::new(&"ab\ncd".to_string()).cols, 0);
}

#[test]
fn pixel_pattern_looks_up_palette() {
    let p = PixelPattern::new(vec!["GgW".to_string(), "12z".to_string()]);
    assert_eq!((p.rows, p.cols), (2, 3));
    assert_eq!(p.cell_color(0, 0), Some(Color::dark_green()));
    assert_eq!(p.cell_color(0, 2), Some(Color::brown2()));
    assert_eq!(p.cell_color(1, 1), Some(Color::wood()));
    assert_eq!(p.cell_color(1, 2), None);
    assert_eq!(p.cell_color(2, 0), None);
    assert_eq!(p.cell_color(0, 3), None);
}

#[test]
fn keys_map_to_camera_commands() {
    assert_eq!(push_for_held_key(Key::Up), Some(Push::Forward));
    assert_eq!(push_for_held_key(Key::Down), Some(Push::Backward));
    assert_eq!(push_for_held_key(Key::Right), Some(Push::Rightward));
    assert_eq!(push_for_held_key(Key::Left), Some(Push::Leftward));
    assert_eq!(push_for_held_key(Key::J), Some(Push::Upward));
    assert_eq!(push_for_held_key(Key::K), Some(Push::Downward));
    assert_eq!(push_for_held_key(Key::R), None);
    assert_eq!(turn_for_pressed_key(Key::R), Some(Turn::Anticlockwise));
    assert_eq!(turn_for_pressed_key(Key::E), Some(Turn::Clockwise));
    assert_eq!(turn_for_pressed_key(Key::Up), None);
    assert_eq!(turn_for_pressed_key(Key::Other), None);
}
