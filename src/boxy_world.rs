use vstd::prelude::*;

use crate::{HEIGHT, WIDTH};

verus! {

/// Side of the bouncing box, in pixels.
pub const BOX_SIZE: i16 = 64;

/// The pixel color inside the box.
pub open spec fn box_rgba() -> Seq<u8> {
    seq![0x5eu8, 0x48u8, 0xe8u8, 0xffu8]
}

/// The pixel color outside the box.
pub open spec fn background_rgba() -> Seq<u8> {
    seq![0x48u8, 0xb2u8, 0xe8u8, 0xffu8]
}

/// Whether a box at `pos` bounces on an axis of `limit` pixels: it has reached the
/// near edge or passed the far one.
pub open spec fn bounces(pos: int, limit: int) -> bool {
    pos <= 0 || pos + BOX_SIZE > limit
}

/// The velocity after a step from `pos` on an axis of `limit` pixels.
pub open spec fn next_velocity(pos: int, v: int, limit: int) -> int {
    if bounces(pos, limit) {
        -v
    } else {
        v
    }
}

/// A demo world: a box that bounces around the screen.
pub struct BoxyWorld {
    pub box_x: i16,
    pub box_y: i16,
    pub velocity_x: i16,
    pub velocity_y: i16,
}

/// A position and velocity on one axis that can step without leaving `i16`.
pub open spec fn axis_ok(pos: i16, v: i16) -> bool {
    &&& v == 1 || v == -1
    &&& pos - (if v == 1 {
        1int
    } else {
        0int
    }) >= i16::MIN
    &&& pos + (if v == -1 {
        1int
    } else {
        0int
    }) <= i16::MAX
}

impl BoxyWorld {
    pub open spec fn wf(&self) -> bool {
        axis_ok(self.box_x, self.velocity_x) && axis_ok(self.box_y, self.velocity_y)
    }

    /// Whether the screen pixel `(x, y)` lies inside the box.
    pub open spec fn covers(&self, x: int, y: int) -> bool {
        self.box_x <= x < self.box_x + BOX_SIZE && self.box_y <= y < self.box_y + BOX_SIZE
    }

    /// The color of pixel number `i`, counted row by row over the screen's width.
    pub open spec fn pixel_rgba(&self, i: int) -> Seq<u8> {
        if self.covers(i % (WIDTH as int), i / (WIDTH as int)) {
            box_rgba()
        } else {
            background_rgba()
        }
    }

    /// A world whose box starts near the top left corner and moves down and right.
    pub fn new() -> (w: Self)
        ensures
            w.wf(),
            w.box_x == 24 && w.box_y == 16,
            w.velocity_x == 1 && w.velocity_y == 1,
    {
        BoxyWorld { box_x: 24, box_y: 16, velocity_x: 1, velocity_y: 1 }
    }

    /// Moves the box one step, reversing the velocity on each axis where it
    /// reached an edge of the screen.
    pub fn update(&mut self)
        requires
            old(self).wf(),
        ensures
            final(self).wf(),
            final(self).velocity_x == next_velocity(
                old(self).box_x as int,
                old(self).velocity_x as int,
                WIDTH as int,
            ),
            final(self).velocity_y == next_velocity(
                old(self).box_y as int,
                old(self).velocity_y as int,
                HEIGHT as int,
            ),
            final(self).box_x == old(self).box_x + final(self).velocity_x,
            final(self).box_y == old(self).box_y + final(self).velocity_y,
    {
        if self.box_x <= 0 || self.box_x as i32 + BOX_SIZE as i32 > WIDTH as i32 {
            self.velocity_x = -self.velocity_x;
        }
        if self.box_y <= 0 || self.box_y as i32 + BOX_SIZE as i32 > HEIGHT as i32 {
            self.velocity_y = -self.velocity_y;
        }
        self.box_x = self.box_x + self.velocity_x;
        self.box_y = self.box_y + self.velocity_y;
    }

    /// Moves the box so that its far corner lies at the pressed point.
    pub fn left_mouse_pressed(&mut self, x: i16, y: i16)
        requires
            old(self).wf(),
            x >= i16::MIN + BOX_SIZE + 1,
            y >= i16::MIN + BOX_SIZE + 1,
        ensures
            final(self).wf(),
            final(self).box_x == x - BOX_SIZE,
            final(self).box_y == y - BOX_SIZE,
            final(self).velocity_x == old(self).velocity_x,
            final(self).velocity_y == old(self).velocity_y,
    {
        self.box_x = x - BOX_SIZE;
        self.box_y = y - BOX_SIZE;
    }

    /// Paints every whole RGBA pixel of `frame`: the box color inside the box, the
    /// background color elsewhere. Trailing bytes that make no whole pixel are left
    /// as they were.
    pub fn draw(&self, frame: &mut [u8])
        ensures
            final(frame)@.len() == old(frame)@.len(),
            forall|i: int, c: int|
                0 <= i < old(frame)@.len() / 4 && 0 <= c < 4 ==> #[trigger] final(frame)@[4 * i
                    + c] == #[trigger] self.pixel_rgba(i)[c],
            forall|k: int|
                4 * (old(frame)@.len() / 4) <= k < old(frame)@.len() ==> #[trigger] final(frame)@[k]
                    == old(frame)@[k],
    {
        let len: usize = frame.len();
        let n = len / 4;
        let mut i: usize = 0;
        while i < n
            invariant
                n == old(frame)@.len() / 4,
                len == frame@.len(),
                frame@.len() == old(frame)@.len(),
                0 <= i <= n,
                forall|j: int, c: int|
                    0 <= j < i && 0 <= c < 4 ==> #[trigger] frame@[4 * j + c]
                        == #[trigger] self.pixel_rgba(j)[c],
                forall|k: int| 4 * i <= k < frame@.len() ==> #[trigger] frame@[k] == old(frame)@[k],
            decreases n - i,
        {
            let x: usize = i % (WIDTH as usize);
            let y: usize = i / (WIDTH as usize);
            let inside = self.box_x as i64 <= x as i64 && (x as i64) < self.box_x as i64
                + BOX_SIZE as i64 && self.box_y as i64 <= y as i64 && (y as i64) < self.box_y as i64
                + BOX_SIZE as i64;
            let rgba: [u8; 4] = if inside {
                [0x5e, 0x48, 0xe8, 0xff]
            } else {
                [0x48, 0xb2, 0xe8, 0xff]
            };
            assert(rgba@ == self.pixel_rgba(i as int));
            proof {
                assert(4 * i + 3 < len) by (nonlinear_arith)
                    requires
                        i < n,
                        n == len / 4,
                ;
            }
            let base: usize = 4 * i;
            frame[base] = rgba[0];
            frame[base + 1] = rgba[1];
            frame[base + 2] = rgba[2];
            frame[base + 3] = rgba[3];
            i = i + 1;
        }
    }
}

} // verus!
