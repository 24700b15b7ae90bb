//! A CPU-resident RGBA pixel grid that is painted by pointer input and
//! composited onto a GPU-backed window through a textured quad.
//!
//! This crate holds the verified core: the pixel buffer itself, the
//! letterboxed pointer-to-pixel coordinate mapping, and the event-driven
//! frame-controller state machine. The graphics backend (surface, device,
//! queue, pipeline) and the OS event pump are external collaborators that a
//! thin unverified shell drives according to the actions this core returns.

use vstd::prelude::*;

pub mod app;

verus! {

/// Dimensions of a pixel buffer, in pixels.
#[derive(Clone, Copy, PartialEq, Eq, Structural, Debug)]
pub struct PixelBufferSize {
    pub width: u32,
    pub height: u32,
}

/// A coordinate inside (or, at the tolerated right/bottom edge, just at the
/// boundary of) a pixel buffer.
#[derive(Clone, Copy, PartialEq, Eq, Structural, Debug)]
pub struct PixelPosition {
    pub x: u32,
    pub y: u32,
}

/// An RGBA color with 8 bits per channel, the encoding the buffer stores.
#[derive(Clone, Copy, PartialEq, Eq, Structural, Debug)]
pub struct Rgba {
    pub r: u8,
    pub g: u8,
    pub b: u8,
    pub a: u8,
}

/// The physical size of the window the buffer is displayed in, in device
/// pixels.
#[derive(Clone, Copy, PartialEq, Eq, Structural, Debug)]
pub struct WindowSize {
    pub width: u32,
    pub height: u32,
}

/// A flat, row-major RGBA byte grid of fixed dimensions.
pub struct PixelBuffer {
    pub pixels: Vec<u8>,
    pub size: PixelBufferSize,
}

/// Byte offset of the first channel of the pixel at `pos`:
/// four contiguous bytes per pixel, row stride `4 * width`.
pub open spec fn spec_pixel_index(pos: PixelPosition, size: PixelBufferSize) -> int {
    (pos.x + pos.y * size.width) * 4
}

impl PixelBuffer {
    /// The buffer invariant: the byte grid covers exactly `width * height`
    /// pixels at four bytes each, and that byte count fits in a `u32` so
    /// offsets can be computed without overflow.
    pub open spec fn wf(&self) -> bool {
        &&& self.pixels@.len() == self.size.width * self.size.height * 4
        &&& self.size.width * self.size.height * 4 <= u32::MAX
    }

    /// The four bytes of the pixel at `pos` equal `color`.
    pub open spec fn spec_pixel_is(&self, pos: PixelPosition, color: Rgba) -> bool {
        let i = spec_pixel_index(pos, self.size);
        &&& self.pixels@[i] == color.r
        &&& self.pixels@[i + 1] == color.g
        &&& self.pixels@[i + 2] == color.b
        &&& self.pixels@[i + 3] == color.a
    }

    /// Allocates a `width x height` buffer with every pixel set to `fill`.
    pub fn new(width: u32, height: u32, fill: Rgba) -> (r: PixelBuffer)
        requires
            width * height * 4 <= u32::MAX,
        ensures
            r.wf(),
            r.size == (PixelBufferSize { width, height }),
            forall|p: PixelPosition|
                p.x < width && p.y < height ==> r.spec_pixel_is(p, fill),
    {
        let n: u32 = width * height;
        let mut pixels: Vec<u8> = Vec::new();
        let mut i: u32 = 0;
        while i < n
            invariant
                i <= n,
                n == width * height,
                n * 4 <= u32::MAX,
                pixels@.len() == i * 4,
                forall|k: int|
                    0 <= k < i ==> {
                        &&& #[trigger] pixels@[4 * k] == fill.r
                        &&& pixels@[4 * k + 1] == fill.g
                        &&& pixels@[4 * k + 2] == fill.b
                        &&& pixels@[4 * k + 3] == fill.a
                    },
            decreases n - i,
        {
            let ghost pre = pixels@;
            pixels.push(fill.r);
            pixels.push(fill.g);
            pixels.push(fill.b);
            pixels.push(fill.a);
            proof {
                assert(pixels@[4 * (i as int)] == fill.r);
                assert(pixels@[4 * (i as int) + 1] == fill.g);
                assert(pixels@[4 * (i as int) + 2] == fill.b);
                assert(pixels@[4 * (i as int) + 3] == fill.a);
                assert forall|k: int| 0 <= k < i implies #[trigger] pixels@[4 * k] == fill.r
                    && pixels@[4 * k + 1] == fill.g && pixels@[4 * k + 2] == fill.b && pixels@[4 * k
                    + 3] == fill.a by {
                    assert(pre[4 * k] == fill.r);
                    assert(4 * k + 3 < pre.len());
                    assert(pixels@[4 * k] == pre[4 * k]);
                    assert(pixels@[4 * k + 1] == pre[4 * k + 1]);
                    assert(pixels@[4 * k + 2] == pre[4 * k + 2]);
                    assert(pixels@[4 * k + 3] == pre[4 * k + 3]);
                }
            }
            i = i + 1;
        }
        let r = PixelBuffer { pixels, size: PixelBufferSize { width, height } };
        proof {
            assert forall|p: PixelPosition| p.x < width && p.y < height implies r.spec_pixel_is(
                p,
                fill,
            ) by {
                lemma_pixel_index_in_range(p, r.size);
                let k = p.x + p.y * width;
                assert(r.pixels@[4 * k] == fill.r);
                assert(spec_pixel_index(p, r.size) == 4 * k);
            }
        }
        r
    }

    /// Shared view of the raw bytes, as the per-frame texture upload reads
    /// them.
    pub fn read_all(&self) -> (r: &Vec<u8>)
        ensures
            r@ == self.pixels@,
    {
        &self.pixels
    }

    /// The texture upload's row stride in bytes: four bytes per pixel across
    /// one row.
    pub fn bytes_per_row(&self) -> (r: u32)
        requires
            self.wf(),
            self.size.height > 0,
        ensures
            r == self.size.width * 4,
    {
        proof {
            assert(self.size.width * 4 <= self.size.width * self.size.height * 4)
                by (nonlinear_arith)
                requires
                    self.size.height >= 1,
                    self.size.width >= 0,
            ;
        }
        self.size.width * 4
    }

    /// The texture upload's row count: the buffer's full height.
    pub fn rows(&self) -> (r: u32)
        ensures
            r == self.size.height,
    {
        self.size.height
    }

    /// Writes all four channels of the pixel at `pos`, rejecting
    /// out-of-range coordinates instead of touching memory past the grid.
    pub fn write_pixel(&mut self, pos: PixelPosition, color: Rgba) -> (r: Result<(), BufferError>)
        requires
            old(self).wf(),
        ensures
            final(self).wf(),
            final(self).size == old(self).size,
            r is Ok <==> pos.x < old(self).size.width && pos.y < old(self).size.height,
            r is Ok ==> final(self).pixels@ == spec_write_rgba(
                old(self).pixels@,
                old(self).size,
                pos,
                color,
            ),
            r is Err ==> *final(self) == *old(self) && r == Err::<(), BufferError>(
                BufferError::OutOfBounds,
            ),
    {
        if pos.x >= self.size.width || pos.y >= self.size.height {
            return Err(BufferError::OutOfBounds);
        }
        let i = pixel_pos_to_index(pos, self.size);
        self.pixels.set(i, color.r);
        self.pixels.set(i + 1, color.g);
        self.pixels.set(i + 2, color.b);
        self.pixels.set(i + 3, color.a);
        Ok(())
    }

    /// Writes the three color channels of the pixel at `pos`, leaving its
    /// alpha untouched, rejecting out-of-range coordinates. This is the write
    /// the pointer-driven highlight performs.
    pub fn write_rgb(&mut self, pos: PixelPosition, red: u8, green: u8, blue: u8) -> (r: Result<
        (),
        BufferError,
    >)
        requires
            old(self).wf(),
        ensures
            final(self).wf(),
            final(self).size == old(self).size,
            r is Ok <==> pos.x < old(self).size.width && pos.y < old(self).size.height,
            r is Ok ==> final(self).pixels@ == spec_write_rgb(
                old(self).pixels@,
                old(self).size,
                pos,
                red,
                green,
                blue,
            ),
            r is Err ==> *final(self) == *old(self) && r == Err::<(), BufferError>(
                BufferError::OutOfBounds,
            ),
    {
        if pos.x >= self.size.width || pos.y >= self.size.height {
            return Err(BufferError::OutOfBounds);
        }
        let i = pixel_pos_to_index(pos, self.size);
        self.pixels.set(i, red);
        self.pixels.set(i + 1, green);
        self.pixels.set(i + 2, blue);
        Ok(())
    }
}

/// A write that names a coordinate outside the buffer's grid.
#[derive(Clone, Copy, PartialEq, Eq, Structural, Debug)]
pub enum BufferError {
    OutOfBounds,
}

/// The byte grid after writing all four channels of the pixel at `pos`.
pub open spec fn spec_write_rgba(
    bytes: Seq<u8>,
    size: PixelBufferSize,
    pos: PixelPosition,
    color: Rgba,
) -> Seq<u8> {
    let i = spec_pixel_index(pos, size);
    bytes.update(i, color.r).update(i + 1, color.g).update(i + 2, color.b).update(i + 3, color.a)
}

/// The byte grid after writing the three color channels of the pixel at
/// `pos`, alpha kept.
pub open spec fn spec_write_rgb(
    bytes: Seq<u8>,
    size: PixelBufferSize,
    pos: PixelPosition,
    red: u8,
    green: u8,
    blue: u8,
) -> Seq<u8> {
    let i = spec_pixel_index(pos, size);
    bytes.update(i, red).update(i + 1, green).update(i + 2, blue)
}

/// Any in-bounds pixel's four bytes lie inside the buffer's byte range.
pub proof fn lemma_pixel_index_in_range(pos: PixelPosition, size: PixelBufferSize)
    requires
        pos.x < size.width,
        pos.y < size.height,
    ensures
        0 <= spec_pixel_index(pos, size),
        spec_pixel_index(pos, size) + 4 <= size.width * size.height * 4,
{
    assert((pos.x + pos.y * size.width) + 1 <= size.width * size.height) by (nonlinear_arith)
        requires
            pos.x < size.width,
            pos.y < size.height,
    ;
    assert(((pos.x + pos.y * size.width) + 1) * 4 <= size.width * size.height * 4)
        by (nonlinear_arith)
        requires
            (pos.x + pos.y * size.width) + 1 <= size.width * size.height,
    ;
}

/// Byte offset of the pixel at `pos` in a buffer of dimensions `size`.
pub fn pixel_pos_to_index(pos: PixelPosition, size: PixelBufferSize) -> (r: usize)
    requires
        pos.x < size.width,
        pos.y < size.height,
        size.width * size.height * 4 <= u32::MAX,
    ensures
        r == spec_pixel_index(pos, size),
        r + 4 <= size.width * size.height * 4,
{
    proof {
        lemma_pixel_index_in_range(pos, size);
    }
    ((pos.x + pos.y * size.width) * 4) as usize
}

/// The larger of two integers.
pub open spec fn max_int(a: int, b: int) -> int {
    if a >= b {
        a
    } else {
        b
    }
}

/// The integer upscale factor the letterbox policy selects: each axis's
/// floored window-to-buffer ratio, floored at 1, and the larger of the two.
pub open spec fn spec_scale(ws: WindowSize, bs: PixelBufferSize) -> int {
    max_int(
        max_int(ws.width as int / bs.width as int, 1),
        max_int(ws.height as int / bs.height as int, 1),
    )
}

/// How many buffer pixels fit across the window at the selected scale.
pub open spec fn spec_display_width(ws: WindowSize, bs: PixelBufferSize) -> int {
    ws.width as int / spec_scale(ws, bs)
}

/// How many buffer pixels fit down the window at the selected scale.
pub open spec fn spec_display_height(ws: WindowSize, bs: PixelBufferSize) -> int {
    ws.height as int / spec_scale(ws, bs)
}

/// The buffer x coordinate a pointer at device x `rx` lands on: the pointer
/// scaled down, shifted right by half the horizontal letterbox margin.
pub open spec fn spec_mapped_x(rx: u32, ws: WindowSize, bs: PixelBufferSize) -> int {
    rx as int / spec_scale(ws, bs) + (bs.width as int - spec_display_width(ws, bs)) / 2
}

/// The buffer y coordinate a pointer at device y `ry` lands on.
pub open spec fn spec_mapped_y(ry: u32, ws: WindowSize, bs: PixelBufferSize) -> int {
    ry as int / spec_scale(ws, bs) + (bs.height as int - spec_display_height(ws, bs)) / 2
}

/// The whole pointer mapping: `None` when the scaled display would overflow
/// the buffer (so the centering margins are undefined) or when the pointer
/// falls past the displayed region's edge; the mapped coordinate otherwise.
pub open spec fn spec_map(rx: u32, ry: u32, ws: WindowSize, bs: PixelBufferSize) -> Option<
    PixelPosition,
> {
    let dw = spec_display_width(ws, bs);
    let dh = spec_display_height(ws, bs);
    if dw > bs.width || dh > bs.height {
        None
    } else {
        let bx = spec_mapped_x(rx, ws, bs);
        let by = spec_mapped_y(ry, ws, bs);
        if bx > dw || by > dh {
            None
        } else {
            Some(PixelPosition { x: bx as u32, y: by as u32 })
        }
    }
}

/// Maps a pointer position (already floored to whole device pixels) to the
/// buffer coordinate it covers under the letterboxed integer-scale policy,
/// or `None` when it lies in the letterbox margin.
///
/// When `Some((x, y))` comes back, `x <= buffer.width` and
/// `y <= buffer.height`: the exact right and bottom display edges are
/// tolerated by design, so a caller that indexes the buffer must still
/// bounds-check.
pub fn physical_to_pixel_pos(
    rx: u32,
    ry: u32,
    physical_size: WindowSize,
    pixel_buffer_size: PixelBufferSize,
) -> (r: Option<PixelPosition>)
    requires
        pixel_buffer_size.width > 0,
        pixel_buffer_size.height > 0,
    ensures
        r == spec_map(rx, ry, physical_size, pixel_buffer_size),
        r is Some ==> r.unwrap().x <= pixel_buffer_size.width && r.unwrap().y
            <= pixel_buffer_size.height,
{
    let sx = physical_size.width / pixel_buffer_size.width;
    let scalex = if sx >= 1 {
        sx
    } else {
        1
    };
    let sy = physical_size.height / pixel_buffer_size.height;
    let scaley = if sy >= 1 {
        sy
    } else {
        1
    };
    let scale = if scalex >= scaley {
        scalex
    } else {
        scaley
    };

    let width = physical_size.width / scale;
    let height = physical_size.height / scale;
    if width > pixel_buffer_size.width || height > pixel_buffer_size.height {
        return None;
    }

    let x: u64 = rx as u64 / scale as u64 + ((pixel_buffer_size.width - width) / 2) as u64;
    let y: u64 = ry as u64 / scale as u64 + ((pixel_buffer_size.height - height) / 2) as u64;
    if x > width as u64 || y > height as u64 {
        return None;
    }

    Some(PixelPosition { x: x as u32, y: y as u32 })
}

/// One axis of the center-mapping argument, over plain integers: with scale
/// `s`, display extent `d == w / s`, and a buffer extent `b` between `d` and
/// `2 * d`, the window's center device coordinate `w / 2` maps to a buffer
/// coordinate within the display and within one unit below the buffer's
/// center `b / 2`.
proof fn lemma_center_axis(w: int, d: int, s: int, b: int)
    requires
        s >= 1,
        0 <= w,
        d == w / s,
        d <= b <= 2 * d,
    ensures
        0 <= (w / 2) / s + (b - d) / 2 <= d,
        ({
            let c = (w / 2) / s + (b - d) / 2;
            c <= b / 2 <= c + 1
        }),
{
    vstd::arithmetic::div_mod::lemma_div_denominator(w, 2, s);
    vstd::arithmetic::div_mod::lemma_div_denominator(w, s, 2);
    assert(2 * s == s * 2);
    assert((w / 2) / s == d / 2);
    let u = d;
    let v = b - d;
    vstd::arithmetic::div_mod::lemma_fundamental_div_mod(u, 2);
    vstd::arithmetic::div_mod::lemma_fundamental_div_mod(v, 2);
    vstd::arithmetic::div_mod::lemma_div_is_ordered(v, u, 2);
    let a = u / 2;
    let e = v / 2;
    let p = u % 2;
    let q = v % 2;
    if p + q < 2 {
        vstd::arithmetic::div_mod::lemma_fundamental_div_mod_converse_div(u + v, 2, a + e, p + q);
    } else {
        vstd::arithmetic::div_mod::lemma_fundamental_div_mod_converse_div(
            u + v,
            2,
            a + e + 1,
            p + q - 2,
        );
    }
}

/// When the window is at least as large as the buffer on both axes and the
/// letterboxed display spans between half the buffer and the whole buffer on
/// both axes, the pointer at the window's exact center maps to the buffer's
/// center coordinate, up to one unit of flooring on each axis.
pub proof fn lemma_center_maps_to_center(ws: WindowSize, bs: PixelBufferSize)
    requires
        bs.width > 0,
        bs.height > 0,
        ws.width >= bs.width,
        ws.height >= bs.height,
        spec_display_width(ws, bs) <= bs.width <= 2 * spec_display_width(ws, bs),
        spec_display_height(ws, bs) <= bs.height <= 2 * spec_display_height(ws, bs),
    ensures
        ({
            let m = spec_map((ws.width / 2) as u32, (ws.height / 2) as u32, ws, bs);
            &&& m is Some
            &&& m.unwrap().x <= bs.width / 2 <= m.unwrap().x + 1
            &&& m.unwrap().y <= bs.height / 2 <= m.unwrap().y + 1
        }),
{
    let s = spec_scale(ws, bs);
    assert(s >= 1);
    let dw = spec_display_width(ws, bs);
    let dh = spec_display_height(ws, bs);
    lemma_center_axis(ws.width as int, dw, s, bs.width as int);
    lemma_center_axis(ws.height as int, dh, s, bs.height as int);
    let cx = (ws.width / 2) as u32;
    let cy = (ws.height / 2) as u32;
    assert(cx as int == ws.width as int / 2);
    assert(cy as int == ws.height as int / 2);
    assert(spec_mapped_x(cx, ws, bs) == (ws.width as int / 2) / s + (bs.width as int - dw) / 2);
    assert(spec_mapped_y(cy, ws, bs) == (ws.height as int / 2) / s + (bs.height as int - dh) / 2);
}

/// Distinct in-bounds pixel coordinates have distinct byte offsets: the
/// row-major layout never aliases two pixels.
pub proof fn lemma_pixel_index_injective(
    p1: PixelPosition,
    p2: PixelPosition,
    size: PixelBufferSize,
)
    requires
        p1.x < size.width,
        p1.y < size.height,
        p2.x < size.width,
        p2.y < size.height,
        p1 != p2,
    ensures
        spec_pixel_index(p1, size) != spec_pixel_index(p2, size),
{
    assert(p1.x + p1.y * size.width != p2.x + p2.y * size.width) by (nonlinear_arith)
        requires
            p1.x < size.width,
            p1.y < size.height,
            p2.x < size.width,
            p2.y < size.height,
            p1.x != p2.x || p1.y != p2.y,
    ;
}

} // verus!
