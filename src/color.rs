use std::collections::HashMap;

use vstd::prelude::*;

verus! {

/// An RGBA color, one byte per channel.
#[derive(Clone, Copy, Debug, PartialEq, Eq, Structural)]
pub struct Color {
    pub r: u8,
    pub g: u8,
    pub b: u8,
    pub a: u8,
}

/// The color with the given channels.
pub open spec fn rgba_color(r: u8, g: u8, b: u8, a: u8) -> Color {
    Color { r, g, b, a }
}

/// The channel of `c` with the given index: 0 is red, 1 green, 2 blue, 3 alpha.
pub open spec fn channel(c: Color, axis: int) -> u8
    recommends
        0 <= axis < 4,
{
    if axis == 0 {
        c.r
    } else if axis == 1 {
        c.g
    } else if axis == 2 {
        c.b
    } else {
        c.a
    }
}

/// The palette used by pixel-art textures: the color that stands for a pattern character.
pub open spec fn palette_color(code: char) -> Option<Color> {
    if code == 'y' {
        Some(rgba_color(255, 255, 0, 255))
    } else if code == 'b' {
        Some(rgba_color(0, 0, 153, 255))
    } else if code == 'k' {
        Some(rgba_color(255, 255, 255, 255))
    } else if code == '0' {
        Some(rgba_color(0, 0, 0, 255))
    } else if code == 't' {
        Some(rgba_color(102, 255, 255, 255))
    } else if code == 'o' {
        Some(rgba_color(255, 153, 51, 255))
    } else if code == 'g' {
        Some(rgba_color(90, 123, 57, 255))
    } else if code == 'G' {
        Some(rgba_color(67, 95, 42, 255))
    } else if code == 'w' {
        Some(rgba_color(106, 81, 47, 255))
    } else if code == 'W' {
        Some(rgba_color(100, 74, 44, 255))
    } else if code == '1' {
        Some(rgba_color(139, 111, 66, 255))
    } else if code == '2' {
        Some(rgba_color(155, 127, 75, 255))
    } else if code == '3' {
        Some(rgba_color(174, 142, 85, 255))
    } else if code == '4' {
        Some(rgba_color(101, 101, 101, 255))
    } else if code == '5' {
        Some(rgba_color(115, 115, 115, 255))
    } else if code == '6' {
        Some(rgba_color(127, 127, 127, 255))
    } else {
        None
    }
}

/// Relies on rand's `Uniform` over `0u8..255` sampled with the thread-local generator:
/// the value lies in the half-open range.
#[verifier::external_body]
fn random_channel() -> (v: u8)
    ensures
        v < 255,
{
    let between = rand::distributions::Uniform::from(0u8..255);
    rand::distributions::Distribution::sample(&between, &mut rand::thread_rng())
}

impl Color {
    pub fn new(r: u8, g: u8, b: u8, a: u8) -> (c: Self)
        ensures
            c == rgba_color(r, g, b, a),
    {
        Color { r, g, b, a }
    }

    /// This color with the channel of index `axis` set to `value`; any other axis
    /// leaves the color unchanged.
    pub fn with_channel(&self, axis: usize, value: u8) -> (c: Self)
        ensures
            axis < 4 ==> channel(c, axis as int) == value,
            forall|i: int| 0 <= i < 4 && i != axis ==> channel(c, i) == channel(*self, i),
    {
        match axis {
            0 => Color { r: value, ..*self },
            1 => Color { g: value, ..*self },
            2 => Color { b: value, ..*self },
            3 => Color { a: value, ..*self },
            _ => *self,
        }
    }

    /// Replaces the channel of index `axis` (0 red, 1 green, 2 blue, 3 alpha) by a
    /// random value below 255; any other axis gives the color back unchanged.
    pub fn randomize_dimension(&self, axis: usize) -> (c: Self)
        ensures
            axis < 4 ==> channel(c, axis as int) < 255,
            forall|i: int| 0 <= i < 4 && i != axis ==> channel(c, i) == channel(*self, i),
    {
        let x1 = random_channel();
        self.with_channel(axis, x1)
    }

    pub fn rgba(&self) -> (v: [u8; 4])
        ensures
            v@ == seq![self.r, self.g, self.b, self.a],
    {
        [self.r, self.g, self.b, self.a]
    }

    pub fn from_rgba(rgba: [u8; 4]) -> (c: Self)
        ensures
            c == rgba_color(rgba@[0], rgba@[1], rgba@[2], rgba@[3]),
    {
        Color { r: rgba[0], g: rgba[1], b: rgba[2], a: rgba[3] }
    }

    pub fn purple() -> (c: Self)
        ensures
            c == rgba_color(255, 0, 255, 255),
    {
        Color::new(255, 0, 255, 255)
    }

    pub fn yellow() -> (c: Self)
        ensures
            c == rgba_color(255, 255, 0, 255),
    {
        Color::new(255, 255, 0, 255)
    }

    pub fn dark_blue() -> (c: Self)
        ensures
            c == rgba_color(0, 0, 153, 255),
    {
        Color::new(0, 0, 153, 255)
    }

    pub fn red() -> (c: Self)
        ensures
            c == rgba_color(255, 51, 51, 255),
    {
        Color::new(255, 51, 51, 255)
    }

    pub fn orange() -> (c: Self)
        ensures
            c == rgba_color(255, 153, 51, 255),
    {
        Color::new(255, 153, 51, 255)
    }

    pub fn light_green() -> (c: Self)
        ensures
            c == rgba_color(153, 255, 51, 255),
    {
        Color::new(153, 255, 51, 255)
    }

    pub fn turquoise() -> (c: Self)
        ensures
            c == rgba_color(102, 255, 255, 255),
    {
        Color::new(102, 255, 255, 255)
    }

    pub fn white() -> (c: Self)
        ensures
            c == rgba_color(0, 0, 0, 255),
    {
        Color::new(0, 0, 0, 255)
    }

    pub fn black() -> (c: Self)
        ensures
            c == rgba_color(255, 255, 255, 255),
    {
        Color::new(255, 255, 255, 255)
    }

    pub fn brown1() -> (c: Self)
        ensures
            c == rgba_color(106, 81, 47, 255),
    {
        Color::new(106, 81, 47, 255)
    }

    pub fn brown2() -> (c: Self)
        ensures
            c == rgba_color(100, 74, 44, 255),
    {
        Color::new(100, 74, 44, 255)
    }

    pub fn brown3() -> (c: Self)
        ensures
            c == rgba_color(90, 62, 34, 255),
    {
        Color::new(90, 62, 34, 255)
    }

    pub fn dark_green() -> (c: Self)
        ensures
            c == rgba_color(67, 95, 42, 255),
    {
        Color::new(67, 95, 42, 255)
    }

    pub fn green() -> (c: Self)
        ensures
            c == rgba_color(90, 123, 57, 255),
    {
        Color::new(90, 123, 57, 255)
    }

    pub fn wood_dark() -> (c: Self)
        ensures
            c == rgba_color(139, 111, 66, 255),
    {
        Color::new(139, 111, 66, 255)
    }

    pub fn wood() -> (c: Self)
        ensures
            c == rgba_color(155, 127, 75, 255),
    {
        Color::new(155, 127, 75, 255)
    }

    pub fn wood_light() -> (c: Self)
        ensures
            c == rgba_color(174, 142, 85, 255),
    {
        Color::new(174, 142, 85, 255)
    }

    pub fn stone_dark() -> (c: Self)
        ensures
            c == rgba_color(101, 101, 101, 255),
    {
        Color::new(101, 101, 101, 255)
    }

    pub fn stone() -> (c: Self)
        ensures
            c == rgba_color(115, 115, 115, 255),
    {
        Color::new(115, 115, 115, 255)
    }

    pub fn stone_light() -> (c: Self)
        ensures
            c == rgba_color(127, 127, 127, 255),
    {
        Color::new(127, 127, 127, 255)
    }

    /// The palette color that stands for a pattern character, if any.
    pub fn from_code(code: char) -> (c: Option<Self>)
        ensures
            c == palette_color(code),
    {
        match code {
            'y' => Some(Color::yellow()),
            'b' => Some(Color::dark_blue()),
            'k' => Some(Color::black()),
            '0' => Some(Color::white()),
            't' => Some(Color::turquoise()),
            'o' => Some(Color::orange()),
            'g' => Some(Color::green()),
            'G' => Some(Color::dark_green()),
            'w' => Some(Color::brown1()),
            'W' => Some(Color::brown2()),
            '1' => Some(Color::wood_dark()),
            '2' => Some(Color::wood()),
            '3' => Some(Color::wood_light()),
            '4' => Some(Color::stone_dark()),
            '5' => Some(Color::stone()),
            '6' => Some(Color::stone_light()),
            _ => None,
        }
    }

    /// The palette as a map from pattern character to color.
    pub fn create_colors_library() -> (m: HashMap<char, Color>)
        ensures
            vstd::std_specs::hash::obeys_key_model::<char>() ==> forall|code: char|
                #![trigger m@.contains_key(code)]
                (m@.contains_key(code) <==> palette_color(code) is Some) && (m@.contains_key(
                    code,
                ) ==> Some(m@[code]) == palette_color(code)),
    {
        let mut colors: HashMap<char, Color> = HashMap::new();
        colors.insert('y', Color::yellow());
        colors.insert('b', Color::dark_blue());
        colors.insert('k', Color::black());
        colors.insert('0', Color::white());
        colors.insert('t', Color::turquoise());
        colors.insert('o', Color::orange());
        colors.insert('g', Color::green());
        colors.insert('G', Color::dark_green());
        colors.insert('w', Color::brown1());
        colors.insert('W', Color::brown2());
        colors.insert('1', Color::wood_dark());
        colors.insert('2', Color::wood());
        colors.insert('3', Color::wood_light());
        colors.insert('4', Color::stone_dark());
        colors.insert('5', Color::stone());
        colors.insert('6', Color::stone_light());
        colors
    }
}

} // verus!
