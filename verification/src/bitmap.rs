//! The raster on which the tool path is drawn.
//!
//! A bitmap is a grid of RGBA pixels, four bytes each, row after row from the
//! top. Machine coordinates are mapped onto it by a scale in pixels per unit
//! and an origin pixel; the machine's Y axis points up, the raster's rows run
//! down. Each plotted point is coloured by its depth.
use crate::fixed::{floor_div, UNIT_SQUARED};
use crate::image::{image_data_url, is_image_of, ImageError};
use vstd::prelude::*;

verus! {

/// The colour of one pixel.
#[derive(Debug, Clone, Copy, PartialEq, Eq, Structural)]
pub struct Rgba {
    pub r: u8,
    pub g: u8,
    pub b: u8,
    pub a: u8,
}

/// A fixed-size RGBA raster with a mapping from machine coordinates to pixels.
pub struct Bitmap {
    width: usize,
    height: usize,
    data: Vec<u8>,
    scale: i64,
    origin_x: usize,
    origin_y: usize,
}

/// The mathematical content of a [`Bitmap`].
pub struct Raster {
    pub width: nat,
    pub height: nat,
    /// Four bytes per pixel: red, green, blue, alpha.
    pub pixels: Seq<u8>,
    /// Pixels per machine unit, in millionths.
    pub scale: i64,
    pub origin_x: nat,
    pub origin_y: nat,
}

impl View for Bitmap {
    type V = Raster;

    closed spec fn view(&self) -> Raster {
        Raster {
            width: self.width as nat,
            height: self.height as nat,
            pixels: self.data@,
            scale: self.scale,
            origin_x: self.origin_x as nat,
            origin_y: self.origin_y as nat,
        }
    }
}

/// The depth at which the hue has gone once round, in millionths.
pub const FULL_DEPTH: i64 = 4_000_000;

/// How far below the surface a point lies, from nothing to [`FULL_DEPTH`].
pub open spec fn depth_of(z: i64) -> int {
    if z >= 0 {
        0
    } else if z <= -FULL_DEPTH {
        FULL_DEPTH as int
    } else {
        -z
    }
}

/// One colour channel out of its share of the chroma and the lightness
/// offset, both in millionths of full intensity.
pub open spec fn channel(share: int, offset: int) -> int {
    ((share + offset) * 255) / 1_000_000
}

/// The share of [`FULL_DEPTH`] at which a point lies, in millionths.
pub open spec fn depth_fraction(z: i64) -> int {
    depth_of(z) / 4
}

/// The hue of a point at height `z`, in millionths of a degree: once round
/// the colour circle from the surface to full depth, where it is back at the
/// start.
pub open spec fn depth_hue(z: i64) -> int {
    (depth_fraction(z) * 360) % 360_000_000
}

/// The saturation of every plotted point, in millionths: seven tenths. With
/// the lightness at one half this is the chroma too.
pub const SATURATION: u64 = 700_000;

/// The colour of a point at height `z`.
///
/// The hue comes from the depth; the saturation is [`SATURATION`] and the
/// lightness one half, whatever the depth. Points at or above the surface are
/// red, and so are points at full depth and below. Every plotted point is
/// opaque.
pub open spec fn depth_color(z: i64) -> Rgba {
    let hue = depth_hue(z);
    let chroma = SATURATION as int;
    let within = hue % 120_000_000;
    let ramp = if within >= 60_000_000 {
        120_000_000 - within
    } else {
        within
    };
    let second = (chroma * ramp) / 60_000_000;
    let offset = 500_000 - chroma / 2;
    let high = channel(chroma, offset) as u8;
    let mid = channel(second, offset) as u8;
    let low = channel(0, offset) as u8;
    let sector = hue / 60_000_000;
    if sector == 0 {
        Rgba { r: high, g: mid, b: low, a: 255 }
    } else if sector == 1 {
        Rgba { r: mid, g: high, b: low, a: 255 }
    } else if sector == 2 {
        Rgba { r: low, g: high, b: mid, a: 255 }
    } else if sector == 3 {
        Rgba { r: low, g: mid, b: high, a: 255 }
    } else if sector == 4 {
        Rgba { r: mid, g: low, b: high, a: 255 }
    } else {
        Rgba { r: high, g: low, b: mid, a: 255 }
    }
}

/// The deeper a point lies, the further round the colour circle its hue,
/// short of full depth.
pub proof fn lemma_deeper_is_further_round(shallow: i64, deep: i64)
    requires
        -FULL_DEPTH < deep <= shallow,
    ensures
        depth_hue(shallow) <= depth_hue(deep) < 360_000_000,
        shallow >= 0 ==> depth_hue(shallow) == 0,
{
}

/// Computes one colour channel.
fn channel_byte(share: u64, offset: u64) -> (byte: u8)
    requires
        share + offset <= 1_000_000,
    ensures
        byte == channel(share as int, offset as int),
{
    let value: u64 = ((share + offset) * 255) / 1_000_000;
    value as u8
}

/// Computes [`depth_color`].
pub fn color_for_depth(z: i64) -> (color: Rgba)
    ensures
        color == depth_color(z),
        color.a == 255,
{
    let depth: u64 = if z >= 0 {
        0
    } else if z <= -FULL_DEPTH {
        4_000_000
    } else {
        (-z) as u64
    };
    let fraction: u64 = depth / 4;
    let hue: u64 = (fraction * 360) % 360_000_000;
    let chroma: u64 = SATURATION;
    let within: u64 = hue % 120_000_000;
    let ramp: u64 = if within >= 60_000_000 {
        120_000_000 - within
    } else {
        within
    };
    assert(chroma * ramp <= 1_000_000 * 60_000_000) by (nonlinear_arith)
        requires
            chroma <= 1_000_000,
            ramp <= 60_000_000,
    ;
    let second: u64 = (chroma * ramp) / 60_000_000;
    assert(second <= chroma) by (nonlinear_arith)
        requires
            second == (chroma * ramp) / 60_000_000,
            ramp <= 60_000_000,
    ;
    let offset: u64 = 500_000 - chroma / 2;
    let high = channel_byte(chroma, offset);
    let mid = channel_byte(second, offset);
    let low = channel_byte(0, offset);
    let sector: u64 = hue / 60_000_000;
    if sector == 0 {
        Rgba { r: high, g: mid, b: low, a: 255 }
    } else if sector == 1 {
        Rgba { r: mid, g: high, b: low, a: 255 }
    } else if sector == 2 {
        Rgba { r: low, g: high, b: mid, a: 255 }
    } else if sector == 3 {
        Rgba { r: low, g: mid, b: high, a: 255 }
    } else if sector == 4 {
        Rgba { r: mid, g: low, b: high, a: 255 }
    } else {
        Rgba { r: high, g: low, b: mid, a: 255 }
    }
}

/// The pixels of a raster that was just made: the first pixel transparent
/// white, every other pixel transparent black.
pub open spec fn fresh_pixels(width: nat, height: nat) -> Seq<u8> {
    Seq::new(
        4 * width * height,
        |i: int|
            if i < 3 {
                255u8
            } else {
                0u8
            },
    )
}

/// The pixels of a cleared raster: every pixel transparent white.
pub open spec fn blank_pixels(width: nat, height: nat) -> Seq<u8> {
    Seq::new(
        4 * width * height,
        |i: int|
            if i % 4 == 3 {
                0u8
            } else {
                255u8
            },
    )
}

/// The pixels `under` with every pixel of `over` that is not fully
/// transparent laid on top.
pub open spec fn merged_pixels(under: Seq<u8>, over: Seq<u8>) -> Seq<u8> {
    Seq::new(
        under.len(),
        |i: int|
            if over[(i / 4) * 4 + 3] > 0 {
                over[i]
            } else {
                under[i]
            },
    )
}

/// The pixels with the four bytes from `at` on replaced by `color`.
pub open spec fn with_color(pixels: Seq<u8>, at: int, color: Rgba) -> Seq<u8> {
    pixels.update(at, color.r).update(at + 1, color.g).update(at + 2, color.b).update(
        at + 3,
        color.a,
    )
}

/// Where the origin goes when the view is shifted: the middle of the extent
/// plus the shift in pixels, rounded down and held to the range of an index.
pub open spec fn shifted_origin(extent: nat, shift: i64, scale: i64) -> nat {
    let half = (extent % 2) * (UNIT_SQUARED / 2);
    let exact = extent / 2 + (shift * scale + half) / (UNIT_SQUARED as int);
    if exact < 0 {
        0
    } else if exact > usize::MAX {
        usize::MAX as nat
    } else {
        exact as nat
    }
}

impl Raster {
    /// The size of the pixel data fits the dimensions.
    pub open spec fn wf(self) -> bool {
        self.pixels.len() == 4 * self.width * self.height
    }

    /// The column onto which the machine coordinate `x` falls.
    pub open spec fn column(self, x: i64) -> int {
        self.origin_x + (x * self.scale) / (UNIT_SQUARED as int)
    }

    /// The row onto which the machine coordinate `y` falls.
    pub open spec fn row(self, y: i64) -> int {
        self.origin_y + (-(y * self.scale)) / (UNIT_SQUARED as int)
    }

    /// Whether the machine point falls onto the raster.
    pub open spec fn covers(self, x: i64, y: i64) -> bool {
        0 <= self.column(x) < self.width && 0 <= self.row(y) < self.height
    }

    /// Where the bytes of a pixel start.
    pub open spec fn offset(self, column: int, row: int) -> int {
        (row * self.width + column) * 4
    }

    /// The raster with the machine point plotted: its pixel takes the colour
    /// of the depth if the point falls onto the raster, and nothing changes if
    /// it does not.
    pub open spec fn plot(self, x: i64, y: i64, z: i64) -> Raster {
        if self.covers(x, y) {
            Raster {
                pixels: with_color(
                    self.pixels,
                    self.offset(self.column(x), self.row(y)),
                    depth_color(z),
                ),
                ..self
            }
        } else {
            self
        }
    }

    /// Whether `url` can be what encoding the raster as an image gives: see
    /// [`is_image_of`].
    pub open spec fn image_is(self, url: Result<String, ImageError>) -> bool {
        is_image_of(url, self.width, self.height, self.pixels)
    }

    /// The colour of a pixel.
    pub open spec fn color_at(self, column: int, row: int) -> Rgba {
        let at = self.offset(column, row);
        Rgba {
            r: self.pixels[at],
            g: self.pixels[at + 1],
            b: self.pixels[at + 2],
            a: self.pixels[at + 3],
        }
    }
}

/// The bytes of a pixel inside the raster lie inside its data.
pub proof fn lemma_offset_in_range(width: nat, height: nat, column: int, row: int)
    requires
        0 <= column < width,
        0 <= row < height,
    ensures
        0 <= row * width <= row * width + column < width * height,
        (row * width + column) * 4 + 4 <= 4 * width * height,
        width * height <= 4 * width * height,
{
    assert(0 <= row * width <= row * width + column < width * height) by (nonlinear_arith)
        requires
            0 <= column < width,
            0 <= row < height,
    ;
    assert(width * height <= 4 * width * height) by (nonlinear_arith);
    assert((row * width + column) * 4 + 4 <= 4 * width * height) by (nonlinear_arith)
        requires
            0 <= column < width,
            0 <= row < height,
    ;
}

/// Two pixels of a raster that start at the same byte are one pixel.
pub proof fn lemma_offsets_differ(
    width: nat,
    column: int,
    row: int,
    other_column: int,
    other_row: int,
)
    requires
        0 <= column < width,
        0 <= other_column < width,
        0 <= row,
        0 <= other_row,
        row * width + column == other_row * width + other_column,
    ensures
        column == other_column,
        row == other_row,
{
    assert(row == other_row) by (nonlinear_arith)
        requires
            0 <= column < width,
            0 <= other_column < width,
            row * width + column == other_row * width + other_column,
    ;
    assert(row * width == other_row * width);
}

/// Plotting a point that falls onto the raster gives its pixel the colour of
/// the depth and leaves every other pixel as it was.
pub proof fn lemma_plot_changes_one_pixel(
    raster: Raster,
    x: i64,
    y: i64,
    z: i64,
    column: int,
    row: int,
)
    requires
        raster.wf(),
        raster.covers(x, y),
        0 <= column < raster.width,
        0 <= row < raster.height,
    ensures
        raster.plot(x, y, z).color_at(column, row) == if column == raster.column(x) && row
            == raster.row(y) {
            depth_color(z)
        } else {
            raster.color_at(column, row)
        },
        raster.plot(x, y, z).wf(),
{
    let c = raster.column(x);
    let r = raster.row(y);
    lemma_offset_in_range(raster.width, raster.height, c, r);
    lemma_offset_in_range(raster.width, raster.height, column, row);
    if !(column == c && row == r) {
        if row * raster.width + column == r * raster.width + c {
            lemma_offsets_differ(raster.width, column, row, c, r);
        }
    }
}

/// Every pixel of a cleared raster is transparent white.
pub proof fn lemma_blank_is_transparent(width: nat, height: nat, column: int, row: int)
    requires
        0 <= column < width,
        0 <= row < height,
    ensures
        (Raster {
            width,
            height,
            pixels: blank_pixels(width, height),
            scale: 0,
            origin_x: 0,
            origin_y: 0,
        }).color_at(column, row) == (Rgba { r: 255, g: 255, b: 255, a: 0 }),
{
    lemma_offset_in_range(width, height, column, row);
    let at = (row * width + column) * 4;
    assert(at % 4 == 0 && (at + 1) % 4 == 1 && (at + 2) % 4 == 2 && (at + 3) % 4 == 3)
        by (nonlinear_arith)
        requires
            at == (row * width + column) * 4,
    ;
}

/// The pixel offset of a coordinate under a scale, rounded down.
fn scaled(coordinate: i64, scale: i64) -> (pixels: i128)
    ensures
        pixels == (coordinate * scale) / (UNIT_SQUARED as int),
        -0x4000_0000_0000_0000_0000_0000 <= pixels <= 0x4000_0000_0000_0000_0000_0000,
{
    assert(-0x4000_0000_0000_0000_0000_0000_0000_0000 <= coordinate * scale
        <= 0x4000_0000_0000_0000_0000_0000_0000_0000) by (nonlinear_arith)
        requires
            -0x8000_0000_0000_0000 <= coordinate <= 0x7fff_ffff_ffff_ffff,
            -0x8000_0000_0000_0000 <= scale <= 0x7fff_ffff_ffff_ffff,
    ;
    let product: i128 = (coordinate as i128) * (scale as i128);
    let pixels = floor_div(product, UNIT_SQUARED);
    assert(-0x4000_0000_0000_0000_0000_0000 <= pixels <= 0x4000_0000_0000_0000_0000_0000)
        by (nonlinear_arith)
        requires
            pixels == product / 1_000_000_000_000,
            -0x4000_0000_0000_0000_0000_0000_0000_0000 <= product
                <= 0x4000_0000_0000_0000_0000_0000_0000_0000,
    ;
    pixels
}

/// The opposite pixel offset: that of the coordinate mirrored.
fn scaled_down(coordinate: i64, scale: i64) -> (pixels: i128)
    ensures
        pixels == (-(coordinate * scale)) / (UNIT_SQUARED as int),
        -0x4000_0000_0000_0000_0000_0000 <= pixels <= 0x4000_0000_0000_0000_0000_0000,
{
    assert(-0x4000_0000_0000_0000_0000_0000_0000_0000 <= coordinate * scale
        <= 0x4000_0000_0000_0000_0000_0000_0000_0000) by (nonlinear_arith)
        requires
            -0x8000_0000_0000_0000 <= coordinate <= 0x7fff_ffff_ffff_ffff,
            -0x8000_0000_0000_0000 <= scale <= 0x7fff_ffff_ffff_ffff,
    ;
    let product: i128 = -((coordinate as i128) * (scale as i128));
    let pixels = floor_div(product, UNIT_SQUARED);
    assert(-0x4000_0000_0000_0000_0000_0000 <= pixels <= 0x4000_0000_0000_0000_0000_0000)
        by (nonlinear_arith)
        requires
            pixels == product / 1_000_000_000_000,
            -0x4000_0000_0000_0000_0000_0000_0000_0000 <= product
                <= 0x4000_0000_0000_0000_0000_0000_0000_0000,
    ;
    pixels
}

/// Computes [`shifted_origin`].
fn origin_after_shift(extent: usize, shift: i64, scale: i64) -> (origin: usize)
    ensures
        origin == shifted_origin(extent as nat, shift, scale),
{
    assert(-0x4000_0000_0000_0000_0000_0000_0000_0000 <= shift * scale
        <= 0x4000_0000_0000_0000_0000_0000_0000_0000) by (nonlinear_arith)
        requires
            -0x8000_0000_0000_0000 <= shift <= 0x7fff_ffff_ffff_ffff,
            -0x8000_0000_0000_0000 <= scale <= 0x7fff_ffff_ffff_ffff,
    ;
    let half: i128 = if extent % 2 == 1 {
        UNIT_SQUARED / 2
    } else {
        0
    };
    let product: i128 = (shift as i128) * (scale as i128) + half;
    let moved = floor_div(product, UNIT_SQUARED);
    assert(-0x4000_0000_0000_0000_0000_0000 <= moved <= 0x4000_0000_0000_0000_0000_0000)
        by (nonlinear_arith)
        requires
            moved == product / 1_000_000_000_000,
            -0x4000_0000_0000_0000_0000_0000_0000_0000 <= product
                <= 0x4000_0000_0000_0000_0000_0000_0000_0100_0000_0000,
    ;
    let exact: i128 = (extent / 2) as i128 + moved;
    if exact < 0 {
        0
    } else if exact > usize::MAX as i128 {
        usize::MAX
    } else {
        exact as usize
    }
}

impl Bitmap {
    /// The size of the pixel data fits the dimensions.
    pub open spec fn wf(&self) -> bool {
        self@.wf()
    }

    /// A raster of the given size, with the origin at its middle.
    pub fn new(width: usize, height: usize, scale: i64) -> (bitmap: Self)
        requires
            4 * width * height <= usize::MAX,
        ensures
            bitmap.wf(),
            bitmap@ == (Raster {
                width: width as nat,
                height: height as nat,
                pixels: fresh_pixels(width as nat, height as nat),
                scale,
                origin_x: (width / 2) as nat,
                origin_y: (height / 2) as nat,
            }),
    {
        assert(width * height <= 4 * width * height && (width * height) * 4 == 4 * width * height)
            by (nonlinear_arith);
        let cells: usize = width * height;
        let len: usize = cells * 4;
        let mut data: Vec<u8> = Vec::new();
        let mut i: usize = 0;
        while i < len
            invariant
                i <= len,
                data@.len() == i,
                forall|k: int|
                    0 <= k < i ==> data@[k] == if k < 3 {
                        255u8
                    } else {
                        0u8
                    },
            decreases len - i,
        {
            data.push(if i < 3 {
                255
            } else {
                0
            });
            i += 1;
        }
        assert(data@ =~= fresh_pixels(width as nat, height as nat));
        Bitmap { width, height, data, scale, origin_x: width / 2, origin_y: height / 2 }
    }

    /// The number of columns.
    pub fn width(&self) -> (width: usize)
        ensures
            width == self@.width,
    {
        self.width
    }

    /// The number of rows.
    pub fn height(&self) -> (height: usize)
        ensures
            height == self@.height,
    {
        self.height
    }

    /// The scale, in millionths of a pixel per machine unit.
    pub fn scale(&self) -> (scale: i64)
        ensures
            scale == self@.scale,
    {
        self.scale
    }

    /// The pixel of the machine's origin: column, then row.
    pub fn origin(&self) -> (origin: (usize, usize))
        ensures
            origin.0 == self@.origin_x,
            origin.1 == self@.origin_y,
    {
        (self.origin_x, self.origin_y)
    }

    /// The colour of a pixel, or nothing outside the raster.
    pub fn pixel(&self, column: usize, row: usize) -> (color: Option<Rgba>)
        requires
            self.wf(),
        ensures
            color == if column < self@.width && row < self@.height {
                Some(self@.color_at(column as int, row as int))
            } else {
                None
            },
    {
        if column >= self.width || row >= self.height {
            return None;
        }
        let len = self.data.len();
        proof {
            lemma_offset_in_range(self@.width, self@.height, column as int, row as int);
        }
        let at: usize = (row * self.width + column) * 4;
        assert(at + 4 <= len);
        Some(
            Rgba {
                r: self.data[at],
                g: self.data[at + 1],
                b: self.data[at + 2],
                a: self.data[at + 3],
            },
        )
    }

    /// Moves the origin: to the middle of the raster, shifted by the machine
    /// point `(x, y)` in pixels.
    pub fn update_pos(&mut self, x: i64, y: i64)
        ensures
            final(self)@ == (Raster {
                origin_x: shifted_origin(old(self)@.width, x, old(self)@.scale),
                origin_y: shifted_origin(old(self)@.height, y, old(self)@.scale),
                ..old(self)@
            }),
    {
        self.origin_x = origin_after_shift(self.width, x, self.scale);
        self.origin_y = origin_after_shift(self.height, y, self.scale);
    }

    /// Plots the machine point `(x, y)` in the colour of the depth `z`.
    ///
    /// A point that falls outside the raster is dropped: the raster stays as
    /// it is.
    pub fn set_pixel(&mut self, x: i64, y: i64, z: i64)
        requires
            old(self).wf(),
        ensures
            final(self).wf(),
            final(self)@ == old(self)@.plot(x, y, z),
            !old(self)@.covers(x, y) ==> final(self)@ == old(self)@,
    {
        let column: i128 = self.origin_x as i128 + scaled(x, self.scale);
        let row: i128 = self.origin_y as i128 + scaled_down(y, self.scale);
        if column < 0 || column >= self.width as i128 || row < 0 || row >= self.height as i128 {
            return ;
        }
        let len = self.data.len();
        proof {
            lemma_offset_in_range(self@.width, self@.height, column as int, row as int);
        }
        let color = color_for_depth(z);
        let at: usize = ((row as usize) * self.width + (column as usize)) * 4;
        assert(at + 4 <= len);
        self.data.set(at, color.r);
        self.data.set(at + 1, color.g);
        self.data.set(at + 2, color.b);
        self.data.set(at + 3, color.a);
    }

    /// The raster as a PNG image, written as a data URI.
    ///
    /// A raster without columns or rows, or with more of them than an image
    /// header holds, gives no image. Otherwise the image is up to the encoder;
    /// what it returns is wrapped as it is.
    pub fn to_data_url(&self) -> (url: Result<String, ImageError>)
        requires
            self.wf(),
        ensures
            self@.image_is(url),
    {
        image_data_url(self.width, self.height, &self.data)
    }

    /// Makes every pixel transparent white.
    pub fn clear(&mut self)
        requires
            old(self).wf(),
        ensures
            final(self).wf(),
            final(self)@ == (Raster {
                pixels: blank_pixels(old(self)@.width, old(self)@.height),
                ..old(self)@
            }),
    {
        let len = self.data.len();
        let mut i: usize = 0;
        while i < len
            invariant
                i <= len,
                len == self.data@.len(),
                self.width == old(self).width,
                self.height == old(self).height,
                self.scale == old(self).scale,
                self.origin_x == old(self).origin_x,
                self.origin_y == old(self).origin_y,
                forall|k: int|
                    0 <= k < i ==> self.data@[k] == if k % 4 == 3 {
                        0u8
                    } else {
                        255u8
                    },
            decreases len - i,
        {
            self.data.set(
                i,
                if i % 4 == 3 {
                    0
                } else {
                    255
                },
            );
            i += 1;
        }
        assert(self.data@ =~= blank_pixels(old(self)@.width, old(self)@.height));
    }

    /// Lays the other raster over this one: every pixel of it that is not
    /// fully transparent replaces the pixel here. Rasters of different
    /// dimensions are not merged: this one stays as it is.
    pub fn merge(&mut self, other: &Bitmap)
        requires
            old(self).wf(),
            other.wf(),
        ensures
            final(self).wf(),
            final(self)@ == if old(self)@.width == other@.width && old(self)@.height
                == other@.height {
                Raster { pixels: merged_pixels(old(self)@.pixels, other@.pixels), ..old(self)@ }
            } else {
                old(self)@
            },
    {
        if self.width != other.width || self.height != other.height {
            return ;
        }
        let len = self.data.len();
        let mut i: usize = 0;
        while i < len
            invariant
                i <= len,
                len == self.data@.len(),
                len == other.data@.len(),
                len == old(self).data@.len(),
                len == 4 * self.width * self.height,
                self.width == old(self).width,
                self.height == old(self).height,
                self.scale == old(self).scale,
                self.origin_x == old(self).origin_x,
                self.origin_y == old(self).origin_y,
                forall|k: int|
                    0 <= k < i ==> self.data@[k] == merged_pixels(
                        old(self).data@,
                        other.data@,
                    )[k],
                forall|k: int| i <= k < len ==> self.data@[k] == old(self).data@[k],
            decreases len - i,
        {
            let alpha_at: usize = (i / 4) * 4 + 3;
            assert(alpha_at < len) by {
                assert(len == 4 * (self.width * self.height)) by (nonlinear_arith)
                    requires
                        len == 4 * self.width * self.height,
                ;
            }
            if other.data[alpha_at] > 0 {
                self.data.set(i, other.data[i]);
            }
            i += 1;
        }
        assert(self.data@ =~= merged_pixels(old(self).data@, other.data@));
    }
}

} // verus!
