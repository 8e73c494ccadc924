//! The packed framebuffer: one bit per pixel, eight rows to a byte.
//!
//! Bytes are laid out page-major and column-minor. A page is a band of
//! eight pixel rows; byte `x + (y / 8) * width` holds the eight pixels of
//! column `x` in page `y / 8`, the topmost row in bit 0.

use vstd::prelude::*;

verus! {

/// An index past the end of the packed buffer was asked for.
#[derive(Clone, Copy, Debug, PartialEq, Eq)]
pub struct OutOfRange;

/// Number of bytes that a `width` x `height` frame occupies.
pub open spec fn frame_len(width: int, height: int) -> int {
    width * height / 8
}

/// Whether `(x, y)` addresses a pixel of a `width` x `height` frame.
pub open spec fn in_bounds(width: int, height: int, x: int, y: int) -> bool {
    0 <= x < width && 0 <= y < height
}

/// Index of the byte that holds pixel `(x, y)`.
pub open spec fn byte_index(width: int, x: int, y: int) -> int {
    x + (y / 8) * width
}

/// Position of pixel row `y` inside its byte.
pub open spec fn bit_position(y: int) -> int {
    y % 8
}

/// Whether bit `bit` of `byte` is one.
pub open spec fn bit_is_set(byte: u8, bit: int) -> bool {
    byte & (1u8 << (bit as u8)) != 0
}

/// `byte` with bit `bit` forced to `on`.
pub open spec fn with_bit(byte: u8, bit: int, on: bool) -> u8 {
    if on {
        byte | (1u8 << (bit as u8))
    } else {
        byte & !(1u8 << (bit as u8))
    }
}

/// A buffer of `n` zero bytes: every pixel off.
pub open spec fn blank(n: int) -> Seq<u8> {
    Seq::new(n as nat, |i: int| 0u8)
}

/// State of pixel `(x, y)` in a packed buffer of the given width.
pub open spec fn pixel(bytes: Seq<u8>, width: int, x: int, y: int) -> bool {
    bit_is_set(bytes[byte_index(width, x, y)], bit_position(y))
}

/// The packed buffer after pixel `(x, y)` was set to `on`. Coordinates
/// outside the frame leave the buffer as it is.
pub open spec fn plot(bytes: Seq<u8>, width: int, height: int, x: int, y: int, on: bool) -> Seq<
    u8,
> {
    if in_bounds(width, height, x, y) {
        let index = byte_index(width, x, y);
        bytes.update(index, with_bit(bytes[index], bit_position(y), on))
    } else {
        bytes
    }
}

/// Mathematical model of a framebuffer: its geometry and its bytes.
pub struct FrameView {
    pub width: int,
    pub height: int,
    pub bytes: Seq<u8>,
}

impl FrameView {
    /// The height is a whole number of pages and the buffer has exactly one
    /// bit per pixel.
    pub open spec fn valid(self) -> bool {
        &&& 0 <= self.width <= u16::MAX
        &&& 0 <= self.height <= u16::MAX
        &&& self.height % 8 == 0
        &&& self.bytes.len() == frame_len(self.width, self.height)
    }
}

/// The byte of pixel `(x, y)` lies inside the buffer of any frame that
/// contains the pixel.
pub proof fn lemma_byte_index_in_range(width: int, height: int, x: int, y: int)
    requires
        height % 8 == 0,
        in_bounds(width, height, x, y),
    ensures
        0 <= byte_index(width, x, y) < frame_len(width, height),
        frame_len(width, height) == (height / 8) * width,
{
    let page = y / 8;
    let pages = height / 8;
    assert(0 <= page < pages);
    assert(height == 8 * pages);
    assert(width * height == 8 * (pages * width)) by (nonlinear_arith)
        requires
            height == 8 * pages,
    ;
    assert(0 <= page * width && (page + 1) * width <= pages * width) by (nonlinear_arith)
        requires
            0 <= page < pages,
            0 < width,
    ;
    assert((page + 1) * width == page * width + width) by (nonlinear_arith);
}

/// Forcing one bit of a byte gives that bit the new state and leaves the
/// other seven as they were.
pub proof fn lemma_with_bit(byte: u8, bit: int, on: bool, other: int)
    requires
        0 <= bit < 8,
        0 <= other < 8,
    ensures
        bit_is_set(with_bit(byte, bit, on), other) == (if other == bit {
            on
        } else {
            bit_is_set(byte, other)
        }),
{
    let k: u8 = bit as u8;
    let j: u8 = other as u8;
    assert((byte | (1u8 << k)) & (1u8 << j) != 0 <==> (j == k || byte & (1u8 << j) != 0))
        by (bit_vector)
        requires
            k < 8,
            j < 8,
    ;
    assert((byte & !(1u8 << k)) & (1u8 << j) != 0 <==> (j != k && byte & (1u8 << j) != 0))
        by (bit_vector)
        requires
            k < 8,
            j < 8,
    ;
}

/// Two pixels of a frame that share a byte and a bit position are the same
/// pixel: the layout gives every pixel a bit of its own.
pub proof fn lemma_layout_injective(
    width: int,
    height: int,
    x1: int,
    y1: int,
    x2: int,
    y2: int,
)
    requires
        in_bounds(width, height, x1, y1),
        in_bounds(width, height, x2, y2),
        byte_index(width, x1, y1) == byte_index(width, x2, y2),
        bit_position(y1) == bit_position(y2),
    ensures
        x1 == x2,
        y1 == y2,
{
    let first_page = y1 / 8;
    let second_page = y2 / 8;
    if first_page < second_page {
        assert((first_page + 1) * width <= second_page * width) by (nonlinear_arith)
            requires
                first_page + 1 <= second_page,
                0 < width,
        ;
        assert((first_page + 1) * width == first_page * width + width) by (nonlinear_arith);
        assert(false);
    }
    if second_page < first_page {
        assert((second_page + 1) * width <= first_page * width) by (nonlinear_arith)
            requires
                second_page + 1 <= first_page,
                0 < width,
        ;
        assert((second_page + 1) * width == second_page * width + width) by (nonlinear_arith);
        assert(false);
    }
}

/// Writing an in-bounds pixel and reading it back shows the new state, and
/// no other bit of the buffer, hence no other pixel, has changed.
pub proof fn lemma_plot_changes_one_bit(
    bytes: Seq<u8>,
    width: int,
    height: int,
    x: int,
    y: int,
    on: bool,
)
    requires
        height % 8 == 0,
        bytes.len() == frame_len(width, height),
        in_bounds(width, height, x, y),
    ensures
        ({
            let after = plot(bytes, width, height, x, y, on);
            &&& after.len() == bytes.len()
            &&& pixel(after, width, x, y) == on
            &&& forall|i: int, b: int|
                0 <= i < bytes.len() && 0 <= b < 8 && !(i == byte_index(width, x, y) && b
                    == bit_position(y)) ==> #[trigger] bit_is_set(after[i], b) == bit_is_set(
                    bytes[i],
                    b,
                )
            &&& forall|x2: int, y2: int|
                in_bounds(width, height, x2, y2) && !(x2 == x && y2 == y) ==> #[trigger] pixel(
                    after,
                    width,
                    x2,
                    y2,
                ) == pixel(bytes, width, x2, y2)
        }),
{
    let after = plot(bytes, width, height, x, y, on);
    let index = byte_index(width, x, y);
    let bit = bit_position(y);
    lemma_byte_index_in_range(width, height, x, y);
    lemma_with_bit(bytes[index], bit, on, bit);
    assert forall|i: int, b: int|
        0 <= i < bytes.len() && 0 <= b < 8 && !(i == index && b == bit) implies #[trigger] bit_is_set(
        after[i],
        b,
    ) == bit_is_set(bytes[i], b) by {
        if i == index {
            lemma_with_bit(bytes[index], bit, on, b);
        }
    }
    assert forall|x2: int, y2: int|
        in_bounds(width, height, x2, y2) && !(x2 == x && y2 == y) implies #[trigger] pixel(
        after,
        width,
        x2,
        y2,
    ) == pixel(bytes, width, x2, y2) by {
        lemma_byte_index_in_range(width, height, x2, y2);
        if byte_index(width, x2, y2) == index && bit_position(y2) == bit {
            lemma_layout_injective(width, height, x, y, x2, y2);
        }
    }
}

/// A packed monochrome framebuffer of fixed geometry.
pub struct Framebuffer {
    width: u16,
    height: u16,
    bits: Vec<u8>,
}

impl View for Framebuffer {
    type V = FrameView;

    closed spec fn view(&self) -> FrameView {
        FrameView { width: self.width as int, height: self.height as int, bytes: self.bits@ }
    }
}

impl Framebuffer {
    /// Well-formedness: the model is valid.
    pub open spec fn wf(&self) -> bool {
        self@.valid()
    }

    /// A frame of the given geometry with every pixel off.
    pub fn new(width: u16, height: u16) -> (fb: Framebuffer)
        requires
            height % 8 == 0,
        ensures
            fb.wf(),
            fb@.width == width,
            fb@.height == height,
            fb@.bytes == blank(frame_len(width as int, height as int)),
    {
        assert((width as int) * (height as int) <= 0xffff * 0xffff) by (nonlinear_arith)
            requires
                0 <= width <= 0xffff,
                0 <= height <= 0xffff,
        ;
        let len: u32 = (width as u32) * (height as u32) / 8;
        let bits: Vec<u8> = vec![0u8; len as usize];
        assert(bits@ =~= blank(frame_len(width as int, height as int)));
        Framebuffer { width, height, bits }
    }

    /// Width in pixels.
    pub fn width(&self) -> (w: u16)
        ensures
            w == self@.width,
    {
        self.width
    }

    /// Height in pixels.
    pub fn height(&self) -> (h: u16)
        ensures
            h == self@.height,
    {
        self.height
    }

    /// The packed bytes, page by page.
    pub fn as_bytes(&self) -> (bytes: &Vec<u8>)
        ensures
            bytes@ == self@.bytes,
    {
        &self.bits
    }

    /// Turns pixel `(x, y)` on or off. Coordinates outside the frame are
    /// ignored, so callers may draw past the edges without clipping.
    pub fn set_pixel(&mut self, x: i16, y: i16, on: bool)
        requires
            old(self).wf(),
        ensures
            final(self).wf(),
            final(self)@.width == old(self)@.width,
            final(self)@.height == old(self)@.height,
            final(self)@.bytes == plot(
                old(self)@.bytes,
                old(self)@.width,
                old(self)@.height,
                x as int,
                y as int,
                on,
            ),
            !in_bounds(old(self)@.width, old(self)@.height, x as int, y as int) ==> final(self)@
                == old(self)@,
    {
        if x < 0 || y < 0 || (x as u16) >= self.width || (y as u16) >= self.height {
            return ;
        }
        let column: usize = x as usize;
        let page: usize = (y as usize) / 8;
        let stride: usize = self.width as usize;
        let len: usize = self.bits.len();
        proof {
            lemma_byte_index_in_range(self.width as int, self.height as int, x as int, y as int);
            assert(page * stride == (y as int / 8) * (self.width as int)) by (nonlinear_arith)
                requires
                    page == y as int / 8,
                    stride == self.width as int,
            ;
            assert(0 <= page * stride) by (nonlinear_arith)
                requires
                    0 <= page,
                    0 <= stride,
            ;
            assert(column + page * stride < len);
        }
        let index: usize = column + page * stride;
        let bit: u8 = (y % 8) as u8;
        let mask: u8 = 1u8 << bit;
        let current: u8 = self.bits[index];
        let updated: u8 = if on {
            current | mask
        } else {
            current & !mask
        };
        self.bits.set(index, updated);
    }

    /// Turns every pixel off. Nothing is transmitted.
    pub fn clear(&mut self)
        requires
            old(self).wf(),
        ensures
            final(self).wf(),
            final(self)@.width == old(self)@.width,
            final(self)@.height == old(self)@.height,
            final(self)@.bytes == blank(old(self)@.bytes.len() as int),
    {
        let len: usize = self.bits.len();
        let mut i: usize = 0;
        while i < len
            invariant
                i <= len,
                self.bits@.len() == len,
                self.width == old(self).width,
                self.height == old(self).height,
                forall|j: int| 0 <= j < i ==> self.bits@[j] == 0u8,
            decreases len - i,
        {
            self.bits.set(i, 0u8);
            i = i + 1;
        }
        assert(self.bits@ =~= blank(len as int));
    }

    /// The byte at `index`, or `OutOfRange` when `index` is not below the
    /// buffer's length.
    pub fn byte_at(&self, index: usize) -> (r: Result<u8, OutOfRange>)
        ensures
            index < self@.bytes.len() ==> r == Ok::<u8, OutOfRange>(self@.bytes[index as int]),
            index >= self@.bytes.len() ==> r is Err,
    {
        if index < self.bits.len() {
            Ok(self.bits[index])
        } else {
            Err(OutOfRange)
        }
    }
}

} // verus!
