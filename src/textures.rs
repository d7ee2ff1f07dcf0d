use vstd::prelude::*;

use crate::color::{palette_color, Color};

verus! {

/// A texture that shows one color everywhere.
#[derive(Clone, Copy, Debug)]
pub struct ColoredTexture {
    pub color: Color,
}

impl ColoredTexture {
    pub fn new(color: Color) -> (t: Self)
        ensures
            t.color == color,
    {
        ColoredTexture { color }
    }

    /// The color shown at every point of the texture.
    pub fn color(&self) -> (c: Color)
        ensures
            c == self.color,
    {
        self.color
    }
}

/// Number of line feeds in `s`.
pub open spec fn newline_count(s: Seq<char>) -> nat
    decreases s.len(),
{
    if s.len() == 0 {
        0
    } else {
        newline_count(s.drop_last()) + if s.last() == '\n' {
            1nat
        } else {
            0nat
        }
    }
}

proof fn lemma_newline_count_bound(s: Seq<char>)
    ensures
        newline_count(s) <= s.len(),
    decreases s.len(),
{
    if s.len() > 0 {
        lemma_newline_count_bound(s.drop_last());
    }
}

/// Number of lines of a text: every line feed ends a line, and text after the last
/// line feed forms one more line.
pub open spec fn line_count(s: Seq<char>) -> nat {
    newline_count(s) + if s.len() > 0 && s.last() != '\n' {
        1nat
    } else {
        0nat
    }
}

/// A texture drawn from a text pattern, one line of text per row.
pub struct Pixelized {
    pub rows: usize,
    pub cols: usize,
}

impl Pixelized {
    pub fn new(content: &String) -> (t: Self)
        ensures
            t.rows == line_count(content@),
            t.cols == 0,
    {
        let s = content.as_str();
        let n = s.unicode_len();
        let mut count: usize = 0;
        let mut i: usize = 0;
        while i < n
            invariant
                n == s@.len(),
                s@ == content@,
                0 <= i <= n,
                count <= i,
                count == newline_count(s@.subrange(0, i as int)),
            decreases n - i,
        {
            assert(s@.subrange(0, i + 1).drop_last() == s@.subrange(0, i as int));
            if s.get_char(i) == '\n' {
                count = count + 1;
            }
            i = i + 1;
        }
        assert(s@.subrange(0, n as int) == s@);
        if n > 0 && s.get_char(n - 1) != '\n' {
            proof {
                lemma_newline_count_bound(s@.drop_last());
            }
            count = count + 1;
        }
        Pixelized { rows: count, cols: 0 }
    }
}

/// The characters of `s`, one per cell.
fn line_cells(s: &String) -> (r: Vec<char>)
    ensures
        r@ == s@,
{
    let t = s.as_str();
    let n = t.unicode_len();
    let mut cells: Vec<char> = Vec::new();
    let mut i: usize = 0;
    while i < n
        invariant
            n == t@.len(),
            t@ == s@,
            0 <= i <= n,
            cells@ == t@.subrange(0, i as int),
        decreases n - i,
    {
        cells.push(t.get_char(i));
        i = i + 1;
    }
    cells
}

/// A pixel-art pattern: a grid of palette characters, one text line per row.
pub struct PixelPattern {
    pub rows: usize,
    pub cols: usize,
    pub pixels: Vec<Vec<char>>,
}

impl PixelPattern {
    /// The pattern whose rows are `lines`; its width is that of the first line.
    pub fn new(lines: Vec<String>) -> (p: Self)
        requires
            lines@.len() > 0,
        ensures
            p.rows == lines@.len(),
            p.cols == lines@[0]@.len(),
            p.pixels@.len() == lines@.len(),
            forall|r: int| 0 <= r < lines@.len() ==> #[trigger] p.pixels@[r]@ == lines@[r]@,
    {
        let rows = lines.len();
        let cols = lines[0].as_str().unicode_len();
        let mut pixels: Vec<Vec<char>> = Vec::new();
        let mut i: usize = 0;
        while i < rows
            invariant
                rows == lines@.len(),
                0 <= i <= rows,
                pixels@.len() == i,
                forall|r: int| 0 <= r < i ==> #[trigger] pixels@[r]@ == lines@[r]@,
            decreases rows - i,
        {
            let row = line_cells(&lines[i]);
            pixels.push(row);
            i = i + 1;
        }
        PixelPattern { rows, cols, pixels }
    }

    /// The palette color of cell `(i, j)`: row `i`, column `j`. `None` when the cell
    /// lies outside the pattern or holds a character that the palette lacks.
    pub fn cell_color(&self, i: usize, j: usize) -> (c: Option<Color>)
        ensures
            c == if i < self.pixels@.len() && j < self.pixels@[i as int]@.len() {
                palette_color(self.pixels@[i as int]@[j as int])
            } else {
                None
            },
    {
        if i < self.pixels.len() && j < self.pixels[i].len() {
            Color::from_code(self.pixels[i][j])
        } else {
            None
        }
    }
}

} // verus!
