//! The frame: 256 by 240 pixels of three bytes, red, green and blue, row
//! after row.

use vstd::prelude::*;

verus! {

/// Pixels in a row.
pub const WIDTH: usize = 256;

/// Rows in a frame.
pub const HEIGHT: usize = 240;

/// Bytes in a frame.
pub const FRAME_BYTES: usize = 184320;

pub struct Frame {
    pub data: Vec<u8>,
}

impl View for Frame {
    type V = Seq<u8>;

    open spec fn view(&self) -> Seq<u8> {
        self.data@
    }
}

/// Where the three bytes of pixel `(x, y)` start.
pub open spec fn pixel_offset(x: int, y: int) -> int {
    (y * 256 + x) * 3
}

/// The red, green or blue byte of a colour, by the numbers 0, 1 and 2.
pub open spec fn channel(rgb: (u8, u8, u8), c: int) -> u8 {
    if c == 0 {
        rgb.0
    } else if c == 1 {
        rgb.1
    } else {
        rgb.2
    }
}

/// The bytes `data` with pixel `(x, y)` set to `rgb`. A pixel outside the
/// 256 by 240 pixels, or past the end of `data`, is dropped.
pub open spec fn with_pixel(data: Seq<u8>, x: int, y: int, rgb: (u8, u8, u8)) -> Seq<u8> {
    if 0 <= x < 256 && 0 <= y < 240 && pixel_offset(x, y) + 2 < data.len() {
        data.update(pixel_offset(x, y), rgb.0).update(pixel_offset(x, y) + 1, rgb.1).update(
            pixel_offset(x, y) + 2,
            rgb.2,
        )
    } else {
        data
    }
}

/// The bytes `data` painted over by `paint`: each pixel `(x, y)` for which
/// `paint` has a colour takes it, the others stay.
#[verifier::opaque]
pub open spec fn painted(
    data: Seq<u8>,
    paint: spec_fn(int, int) -> Option<(u8, u8, u8)>,
) -> Seq<u8> {
    Seq::new(
        data.len(),
        |k: int|
            if k < 184320 && paint((k / 3) % 256, k / 768) is Some {
                channel(paint((k / 3) % 256, k / 768)->Some_0, k % 3)
            } else {
                data[k]
            },
    )
}

impl Frame {
    /// The frame has its size.
    pub open spec fn wf(&self) -> bool {
        self.data@.len() == 184320
    }

    /// Whether the frame has its size.
    pub fn is_wf(&self) -> (ok: bool)
        ensures
            ok == self.wf(),
    {
        self.data.len() == FRAME_BYTES
    }

    /// A black frame.
    pub fn new() -> (frame: Frame)
        ensures
            frame.wf(),
            frame@ == Seq::new(184320, |k: int| 0u8),
    {
        let frame = Frame { data: vec![0u8; FRAME_BYTES] };
        assert(frame@ =~= Seq::new(184320, |k: int| 0u8));
        frame
    }

    pub fn set_pixel(&mut self, x: usize, y: usize, rgb: (u8, u8, u8))
        ensures
            final(self)@ == with_pixel(old(self)@, x as int, y as int, rgb),
    {
        if x < WIDTH && y < HEIGHT {
            let base: usize = y * 3 * WIDTH + x * 3;
            if base + 2 < self.data.len() {
                self.data.set(base, rgb.0);
                self.data.set(base + 1, rgb.1);
                self.data.set(base + 2, rgb.2);
            }
        }
    }
}

/// One step of painting a frame pixel by pixel, row after row: when the
/// pixels before `(x, y)` are painted and the others untouched, setting
/// `(x, y)` to its paint, if it has any, leaves the pixels up to and
/// including `(x, y)` painted and the others untouched.
pub proof fn lemma_paint_next(
    start: Seq<u8>,
    now: Seq<u8>,
    next: Seq<u8>,
    paint: spec_fn(int, int) -> Option<(u8, u8, u8)>,
    x: int,
    y: int,
)
    requires
        start.len() == 184320,
        now.len() == 184320,
        0 <= x < 256,
        0 <= y < 240,
        forall|k: int| 0 <= k < pixel_offset(x, y) ==> now[k] == painted(start, paint)[k],
        forall|k: int| pixel_offset(x, y) <= k < 184320 ==> now[k] == start[k],
        next == match paint(x, y) {
            Some(rgb) => with_pixel(now, x, y, rgb),
            None => now,
        },
    ensures
        next.len() == 184320,
        forall|k: int|
            0 <= k < pixel_offset(x, y) + 3 ==> #[trigger] next[k] == painted(start, paint)[k],
        forall|k: int| pixel_offset(x, y) + 3 <= k < 184320 ==> #[trigger] next[k] == start[k],
{
    reveal(painted);
    let o = pixel_offset(x, y);
    assert(o / 3 == y * 256 + x && (o + 1) / 3 == y * 256 + x && (o + 2) / 3 == y * 256 + x);
    assert((y * 256 + x) % 256 == x);
    assert(o / 768 == y && (o + 1) / 768 == y && (o + 2) / 768 == y);
    assert(o % 3 == 0 && (o + 1) % 3 == 1 && (o + 2) % 3 == 2);
    assert(next[o] == painted(start, paint)[o]);
    assert(next[o + 1] == painted(start, paint)[o + 1]);
    assert(next[o + 2] == painted(start, paint)[o + 2]);
}


/// What painting comes to, pixel by pixel: the frame keeps its length, and
/// the three bytes of each pixel `(x, y)` are the red, green and blue of the
/// pixel's paint, or stay if it has none.
pub proof fn lemma_painted_pixel(
    data: Seq<u8>,
    paint: spec_fn(int, int) -> Option<(u8, u8, u8)>,
    x: int,
    y: int,
    c: int,
)
    requires
        data.len() == 184320,
        0 <= x < 256,
        0 <= y < 240,
        0 <= c < 3,
    ensures
        painted(data, paint).len() == 184320,
        painted(data, paint)[pixel_offset(x, y) + c] == match paint(x, y) {
            Some(rgb) => channel(rgb, c),
            None => data[pixel_offset(x, y) + c],
        },
{
    reveal(painted);
    let k = pixel_offset(x, y) + c;
    assert(k / 3 == y * 256 + x);
    assert((y * 256 + x) % 256 == x);
    assert(k / 768 == y);
    assert(k % 3 == c);
}

/// Painting keeps the length, and a frame whose every byte is the painted
/// byte is the painted frame.
pub proof fn lemma_painted_all(
    start: Seq<u8>,
    now: Seq<u8>,
    paint: spec_fn(int, int) -> Option<(u8, u8, u8)>,
)
    requires
        now.len() == start.len(),
        forall|k: int| 0 <= k < start.len() ==> now[k] == painted(start, paint)[k],
    ensures
        now == painted(start, paint),
{
    reveal(painted);
    assert(now =~= painted(start, paint));
}

/// A paint leaves the bytes of a pixel for which it has no colour as they
/// are.
pub proof fn lemma_painted_without_colour(
    start: Seq<u8>,
    paint: spec_fn(int, int) -> Option<(u8, u8, u8)>,
    k: int,
)
    requires
        0 <= k < start.len(),
        paint((k / 3) % 256, k / 768) is None,
    ensures
        painted(start, paint)[k] == start[k],
{
    reveal(painted);
}

/// Byte `k` of a frame of which the first `count` pixels of the block at
/// `(left, top)` are painted and all others untouched.
pub open spec fn block_byte(
    start: Seq<u8>,
    paint: spec_fn(int, int) -> Option<(u8, u8, u8)>,
    left: int,
    top: int,
    count: int,
    k: int,
) -> u8 {
    if in_block_before((k / 3) % 256, k / 768, left, top, count) {
        painted(start, paint)[k]
    } else {
        start[k]
    }
}

/// Whether pixel `(x, y)` is among the first `count` pixels, row after
/// row, of the 8 by 8 block whose top left corner is `(left, top)`.
pub open spec fn in_block_before(x: int, y: int, left: int, top: int, count: int) -> bool {
    0 <= x - left < 8 && 0 <= y - top < 8 && (y - top) * 8 + (x - left) < count
}

/// One step of painting an 8 by 8 block pixel by pixel, row after row:
/// when the first `count` pixels of the block are painted and all others
/// untouched, setting the next pixel of the block to its paint, if it has
/// any, leaves the first `count + 1` painted and all others untouched.
pub proof fn lemma_paint_block_next(
    start: Seq<u8>,
    now: Seq<u8>,
    next: Seq<u8>,
    paint: spec_fn(int, int) -> Option<(u8, u8, u8)>,
    left: int,
    top: int,
    count: int,
)
    requires
        start.len() == 184320,
        now.len() == 184320,
        0 <= count < 64,
        forall|k: int|
            0 <= k < 184320 ==> #[trigger] now[k] == block_byte(start, paint, left, top, count, k),
        next == match paint(left + count % 8, top + count / 8) {
            Some(rgb) => with_pixel(now, left + count % 8, top + count / 8, rgb),
            None => now,
        },
    ensures
        next.len() == 184320,
        forall|k: int|
            0 <= k < 184320 ==> #[trigger] next[k] == block_byte(
                start,
                paint,
                left,
                top,
                count + 1,
                k,
            ),
{
    let x = left + count % 8;
    let y = top + count / 8;
    reveal(painted);
    assert forall|k: int| 0 <= k < 184320 implies #[trigger] next[k] == block_byte(
        start,
        paint,
        left,
        top,
        count + 1,
        k,
    ) by {
        let kx = (k / 3) % 256;
        let ky = k / 768;
        assert(k == pixel_offset(kx, ky) + k % 3);
        if kx == x && ky == y {
            assert(in_block_before(kx, ky, left, top, count + 1));
            assert(!in_block_before(kx, ky, left, top, count));
        } else {
            assert(in_block_before(kx, ky, left, top, count + 1) == in_block_before(
                kx,
                ky,
                left,
                top,
                count,
            ));
            if 0 <= x < 256 && 0 <= y < 240 {
                assert(pixel_offset(x, y) + 2 < k || k < pixel_offset(x, y));
            }
            assert(next[k] == now[k]);
        }
    }
}

} // verus!
