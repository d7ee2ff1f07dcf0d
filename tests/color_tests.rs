use bsp_renderer::color::Color;

#[test]
fn named_colors_hold_their_channels() {
    assert_eq!(Color::purple().rgba(), [255, 0, 255, 255]);
    assert_eq!(Color::yellow().rgba(), [255, 255, 0, 255]);
    assert_eq!(Color::dark_blue().rgba(), [0, 0, 153, 255]);
    assert_eq!(Color::red().rgba(), [255, 51, 51, 255]);
    assert_eq!(Color::white().rgba(), [0, 0, 0, 255]);
    assert_eq!(Color::black().rgba(), [255, 255, 255, 255]);
    assert_eq!(Color::wood().rgba(), [155, 127, 75, 255]);
    assert_eq!(Color::stone_light().rgba(), [127, 127, 127, 255]);
}

#[test]
fn rgba_round_trip() {
    let c = Color::new(1, 2, 3, 4);
    assert_eq!(c.rgba(), [1, 2, 3, 4]);
    assert_eq!(Color::from_rgba([9, 8, 7, 6]), Color::new(9, 8, 7, 6));
    assert_eq!(Color::from_rgba(c.rgba()), c);
}

#[test]
fn with_channel_replaces_one_channel() {
    let c = Color::new(10, 20, 30, 40);
    assert_eq!(c.with_channel(0, 99), Color::new(99, 20, 30, 40));
    assert_eq!(c.with_channel(1, 99), Color::new(10, 99, 30, 40));
    assert_eq!(c.with_channel(2, 99), Color::new(10, 20, 99, 40));
    assert_eq!(c.with_channel(3, 99), Color::new(10, 20, 30, 99));
    assert_eq!(c.with_channel(4, 99), c);
}

#[test]
fn randomize_dimension_keeps_other_channels() {
    let c = Color::new(255, 255, 255, 255);
    for _ in 0..50 {
        let r = c.randomize_dimension(2);
        assert_eq!((r.r, r.g, r.a), (255, 255, 255));
        assert!(r.b < 255);
    }
    assert_eq!(c.randomize_dimension(9), c);
}

#[test]
fn palette_codes() {
    assert_eq!(Color::from_code('y'), Some(Color::yellow()));
    assert_eq!(Color::from_code('G'), Some(Color::dark_green()));
    assert_eq!(Color::from_code('6'), Some(Color::stone_light()));
    assert_eq!(Color::from_code('z'), None);
    let lib = Color::create_colors_library();
    assert_eq!(lib.len(), 16);
    assert_eq!(lib.get(&'w'), Some(&Color::brown1()));
    assert_eq!(lib.get(&'0'), Some(&Color::white()));
    assert_eq!(lib.get(&'r'), None);
}
