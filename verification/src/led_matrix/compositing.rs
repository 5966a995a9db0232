//! RGB565 palette color storage, pixel compositing, and the fixed default palette.

use crate::display::compositing as cells;
use crate::display::compositing::Rgb24;
use vstd::prelude::*;

verus! {

/// A 16-bit RGB565 color: 5 bits red, 6 bits green, 5 bits blue.
#[derive(Debug, Clone, Copy, PartialEq, Eq, Structural)]
pub struct Rgb565 {
    pub r: u8,
    pub g: u8,
    pub b: u8,
}

impl Default for Rgb565 {
    /// Black.
    fn default() -> (c: Self)
        ensures
            c == (Rgb565 { r: 0, g: 0, b: 0 }),
    {
        Rgb565 { r: 0, g: 0, b: 0 }
    }
}

impl Rgb565 {
    /// Whether each component fits its width.
    pub open spec fn wf(self) -> bool {
        self.r < 32 && self.g < 64 && self.b < 32
    }

    /// The color of the given components, cut to their widths.
    pub open spec fn of(r5: u8, g6: u8, b5: u8) -> Self {
        Rgb565 { r: (r5 % 32) as u8, g: (g6 % 64) as u8, b: (b5 % 32) as u8 }
    }

    /// The color of 8-bit components, with their low-order bits discarded.
    pub open spec fn masked(r: u8, g: u8, b: u8) -> Self {
        Rgb565 { r: (r / 8) as u8, g: (g / 4) as u8, b: (b / 8) as u8 }
    }

    /// The components expanded to 8 bits by repeating their high-order bits, so that the top of
    /// the range stays the top of the range.
    pub open spec fn scaled(self) -> Rgb24 {
        Rgb24 {
            r: (self.r * 8 + self.r / 4) as u8,
            g: (self.g * 4 + self.g / 16) as u8,
            b: (self.b * 8 + self.b / 4) as u8,
        }
    }

    /// The components packed into 16 bits, red in the high-order ones.
    pub open spec fn packed(self) -> u16 {
        (self.r * 2048 + self.g * 32 + self.b) as u16
    }

    /// A color of the given components, cut to 5, 6 and 5 bits.
    pub fn new(r5: u8, g6: u8, b5: u8) -> (c: Self)
        ensures
            c == Self::of(r5, g6, b5),
            c.wf(),
    {
        Rgb565 { r: r5 % 32, g: g6 % 64, b: b5 % 32 }
    }

    /// Shifts each 8-bit component down to its native bit width, discarding low-order bits.
    pub fn from_rgb888(r: u8, g: u8, b: u8) -> (c: Self)
        ensures
            c == Self::masked(r, g, b),
            c.wf(),
    {
        Rgb565 { r: r / 8, g: g / 4, b: b / 8 }
    }

    /// Expands each stored component back to 8 bits by bit-replication.
    pub fn to_rgb888(self) -> (c: (u8, u8, u8))
        requires
            self.wf(),
        ensures
            c == (self.scaled().r, self.scaled().g, self.scaled().b),
    {
        (self.r * 8 + self.r / 4, self.g * 4 + self.g / 16, self.b * 8 + self.b / 4)
    }

    /// Packs the components into 16 bits.
    pub fn to_packed565(self) -> (packed: u16)
        requires
            self.wf(),
        ensures
            packed == self.packed(),
    {
        self.r as u16 * 2048 + self.g as u16 * 32 + self.b as u16
    }
}

/// Storing the expanded components of a color gives the color back.
pub proof fn rgb565_round_trips(c: Rgb565)
    requires
        c.wf(),
    ensures
        Rgb565::masked(c.scaled().r, c.scaled().g, c.scaled().b) == c,
{
}

/// Storing 8-bit components changes red and blue by less than 8 and green by less than 4, and keeps
/// both ends of the range.
pub proof fn rgb888_quantization_is_close(r: u8, g: u8, b: u8)
    ensures
        -8 < Rgb565::masked(r, g, b).scaled().r - r < 8,
        -4 < Rgb565::masked(r, g, b).scaled().g - g < 4,
        -8 < Rgb565::masked(r, g, b).scaled().b - b < 8,
        r == 0 ==> Rgb565::masked(r, g, b).scaled().r == 0,
        r == 0xFF ==> Rgb565::masked(r, g, b).scaled().r == 0xFF,
        g == 0 ==> Rgb565::masked(r, g, b).scaled().g == 0,
        g == 0xFF ==> Rgb565::masked(r, g, b).scaled().g == 0xFF,
        b == 0 ==> Rgb565::masked(r, g, b).scaled().b == 0,
        b == 0xFF ==> Rgb565::masked(r, g, b).scaled().b == 0xFF,
{
}

/// Whether every color of a palette fits.
pub open spec fn palette_wf(palette: Seq<Rgb565>) -> bool {
    forall|i: int| 0 <= i < palette.len() ==> (#[trigger] palette[i]).wf()
}

/// A channel at a brightness level: black at 0, unchanged at 255, linear in between.
pub open spec fn dimmed(channel: u8, brightness: u8) -> u8 {
    (channel * brightness / 255) as u8
}

/// The color of a pixel of a matrix.
pub open spec fn lit_color(
    index: u8,
    palette: Seq<Rgb565>,
    power_on: bool,
    brightness: u8,
) -> Rgb24 {
    let color = palette[cells::palette_slot(index, palette.len() as int)].scaled();
    if power_on {
        Rgb24 {
            r: dimmed(color.r, brightness),
            g: dimmed(color.g, brightness),
            b: dimmed(color.b, brightness),
        }
    } else {
        Rgb24 { r: 0, g: 0, b: 0 }
    }
}

/// The RGBA pixels of a matrix at a power state and brightness: black if it is off.
pub open spec fn lit_frame(
    pixels: Seq<u8>,
    palette: Seq<Rgb565>,
    power_on: bool,
    brightness: u8,
) -> Seq<u8> {
    Seq::new(
        4 * pixels.len(),
        |k: int| cells::channel_of(lit_color(pixels[k / 4], palette, power_on, brightness), k % 4),
    )
}

/// The RGBA pixels of a matrix at full brightness.
pub open spec fn matrix_frame(pixels: Seq<u8>, palette: Seq<Rgb565>) -> Seq<u8> {
    Seq::new(
        4 * pixels.len(),
        |k: int|
            cells::channel_of(
                palette[cells::palette_slot(pixels[k / 4], palette.len() as int)].scaled(),
                k % 4,
            ),
    )
}

/// At full brightness a powered matrix shows its plain colors.
pub proof fn full_brightness_is_plain(pixels: Seq<u8>, palette: Seq<Rgb565>)
    ensures
        lit_frame(pixels, palette, true, 255) == matrix_frame(pixels, palette),
{
    assert(forall|c: u8| #[trigger] dimmed(c, 255) == c);
    assert(lit_frame(pixels, palette, true, 255) =~= matrix_frame(pixels, palette));
}

fn dim(channel: u8, brightness: u8) -> (d: u8)
    ensures
        d == dimmed(channel, brightness),
{
    assert(channel * brightness <= 255 * 255) by (nonlinear_arith)
        requires
            channel <= 255,
            brightness <= 255,
    ;
    (channel as u16 * brightness as u16 / 255) as u8
}

/// Composites one matrix's palette-index bytes into RGBA bytes, fully opaque, at a power state and
/// brightness.
pub fn composite_lit_matrix(
    pixels: &[u8],
    palette: &[Rgb565],
    power_on: bool,
    brightness: u8,
) -> (rgba: Vec<u8>)
    requires
        palette@.len() > 0,
        palette_wf(palette@),
    ensures
        rgba@ == lit_frame(pixels@, palette@, power_on, brightness),
{
    let mut rgba: Vec<u8> = Vec::new();
    let ghost expected = lit_frame(pixels@, palette@, power_on, brightness);
    let mut i: usize = 0;
    while i < pixels.len()
        invariant
            i <= pixels@.len(),
            palette@.len() > 0,
            palette_wf(palette@),
            expected == lit_frame(pixels@, palette@, power_on, brightness),
            rgba@.len() == 4 * i,
            forall|k: int| 0 <= k < 4 * i ==> #[trigger] rgba@[k] == expected[k],
        decreases pixels@.len() - i,
    {
        let slot: usize = cells::resolve_palette_index(pixels[i], palette.len());
        let (r, g, b) = palette[slot].to_rgb888();
        let ghost before = rgba@;
        if power_on {
            rgba.push(dim(r, brightness));
            rgba.push(dim(g, brightness));
            rgba.push(dim(b, brightness));
        } else {
            rgba.push(0);
            rgba.push(0);
            rgba.push(0);
        }
        rgba.push(0xFF);
        proof {
            let color = lit_color(pixels@[i as int], palette@, power_on, brightness);
            assert forall|k: int| 0 <= k < 4 * i + 4 implies #[trigger] rgba@[k] == expected[k] by {
                if k < 4 * i {
                    assert(rgba@[k] == before[k]);
                } else {
                    assert(k / 4 == i);
                    assert(expected[k] == cells::channel_of(color, k % 4));
                }
            }
        }
        i += 1;
    }
    assert(rgba@ =~= expected);
    rgba
}

/// Composites one matrix's palette-index bytes (row-major) into RGBA bytes, fully opaque. An index
/// stands for the palette entry at the index modulo the palette's length.
pub fn composite_matrix(pixels: &[u8], palette: &[Rgb565]) -> (rgba: Vec<u8>)
    requires
        palette@.len() > 0,
        palette_wf(palette@),
    ensures
        rgba@ == matrix_frame(pixels@, palette@),
{
    proof {
        full_brightness_is_plain(pixels@, palette@);
    }
    composite_lit_matrix(pixels, palette, true, 255)
}

/// `level * target_max / source_max`, rounded to the nearest integer.
pub open spec fn rounded(level: int, target_max: int, source_max: int) -> int {
    (2 * level * target_max + source_max) / (2 * source_max)
}

fn round_scale(level: u8, target_max: u8, source_max: u8) -> (n: u8)
    requires
        0 < source_max,
        level <= source_max,
    ensures
        n == rounded(level as int, target_max as int, source_max as int),
        n <= target_max,
{
    let ghost l = level as int;
    let ghost t = target_max as int;
    let ghost s = source_max as int;
    assert(0 <= 2 * l * t <= 2 * 255 * 255) by (nonlinear_arith)
        requires
            0 <= l <= 255,
            0 <= t <= 255,
    ;
    assert(2 * l * t == l * t * 2) by (nonlinear_arith);
    assert((2 * l * t + s) / (2 * s) <= t) by (nonlinear_arith)
        requires
            0 <= l <= s,
            0 <= t,
            0 < s,
    ;
    assert(0 <= (2 * l * t + s) / (2 * s)) by (nonlinear_arith)
        requires
            0 <= l,
            0 <= t,
            0 < s,
    ;
    let doubled: u32 = level as u32 * target_max as u32 * 2;
    ((doubled + source_max as u32) / (2 * source_max as u32)) as u8
}

/// Entry `i` of the default palette: eight primary and secondary colors at half and at full
/// intensity, a 6x6x6 color cube with blue innermost, and a 24-step grayscale ramp.
pub open spec fn default_color(i: int) -> Rgb565 {
    if i < 16 {
        base_color(i)
    } else if i < 232 {
        let n = i - 16;
        Rgb565 {
            r: rounded(n / 36, 31, 5) as u8,
            g: rounded(n / 6 % 6, 63, 5) as u8,
            b: rounded(n % 6, 31, 5) as u8,
        }
    } else {
        let level = i - 232;
        Rgb565 {
            r: rounded(level, 31, 23) as u8,
            g: rounded(level, 63, 23) as u8,
            b: rounded(level, 31, 23) as u8,
        }
    }
}

/// The first sixteen entries of the default palette.
pub open spec fn base_color(i: int) -> Rgb565 {
    let bright = i >= 8;
    let level_rb = if bright {
        31u8
    } else {
        15u8
    };
    let level_g = if bright {
        63u8
    } else {
        31u8
    };
    if i == 7 {
        Rgb565 { r: 23, g: 47, b: 23 }
    } else if i == 8 {
        Rgb565 { r: 7, g: 15, b: 7 }
    } else {
        Rgb565 {
            r: if i % 2 == 1 { level_rb } else { 0 },
            g: if i / 2 % 2 == 1 { level_g } else { 0 },
            b: if i / 4 % 2 == 1 { level_rb } else { 0 },
        }
    }
}

/// The fixed 256-entry default palette.
pub open spec fn default_palette_colors() -> Seq<Rgb565> {
    Seq::new(256, |i: int| default_color(i))
}

fn base_palette() -> (palette: Vec<Rgb565>)
    ensures
        palette@.len() == 16,
        forall|i: int| 0 <= i < 16 ==> #[trigger] palette@[i] == base_color(i),
{
    let palette = vec![
        Rgb565::new(0, 0, 0),
        Rgb565::new(15, 0, 0),
        Rgb565::new(0, 31, 0),
        Rgb565::new(15, 31, 0),
        Rgb565::new(0, 0, 15),
        Rgb565::new(15, 0, 15),
        Rgb565::new(0, 31, 15),
        Rgb565::new(23, 47, 23),
        Rgb565::new(7, 15, 7),
        Rgb565::new(31, 0, 0),
        Rgb565::new(0, 63, 0),
        Rgb565::new(31, 63, 0),
        Rgb565::new(0, 0, 31),
        Rgb565::new(31, 0, 31),
        Rgb565::new(0, 63, 31),
        Rgb565::new(31, 63, 31),
    ];
    palette
}

/// Builds the device's fixed 256-entry default palette.
pub fn default_palette() -> (palette: Vec<Rgb565>)
    ensures
        palette@ == default_palette_colors(),
        palette_wf(palette@),
{
    let mut palette = base_palette();
    let mut n: usize = 0;
    while n < 216
        invariant
            n <= 216,
            palette@.len() == 16 + n,
            forall|i: int| 0 <= i < 16 + n ==> #[trigger] palette@[i] == default_color(i),
            palette_wf(palette@),
        decreases 216 - n,
    {
        let r: u8 = round_scale((n / 36) as u8, 31, 5);
        let g: u8 = round_scale((n / 6 % 6) as u8, 63, 5);
        let b: u8 = round_scale((n % 6) as u8, 31, 5);
        palette.push(Rgb565::new(r, g, b));
        n += 1;
    }
    let mut level: u8 = 0;
    while level < 24
        invariant
            level <= 24,
            palette@.len() == 232 + level,
            forall|i: int| 0 <= i < 232 + level ==> #[trigger] palette@[i] == default_color(i),
            palette_wf(palette@),
        decreases 24 - level,
    {
        let rb: u8 = round_scale(level, 31, 23);
        let g: u8 = round_scale(level, 63, 23);
        palette.push(Rgb565::new(rb, g, rb));
        level += 1;
    }
    assert(palette@ =~= default_palette_colors());
    palette
}

/// Rounding is to the nearest whole number.
pub proof fn rounded_is_nearest(level: int, target_max: int, source_max: int)
    requires
        0 <= level,
        0 <= target_max,
        0 < source_max,
    ensures
        -source_max <= 2 * (source_max * rounded(level, target_max, source_max) - level
            * target_max) <= source_max,
{
    let n = 2 * level * target_max + source_max;
    let d = 2 * source_max;
    vstd::arithmetic::div_mod::lemma_fundamental_div_mod(n, d);
    vstd::arithmetic::div_mod::lemma_mod_bound(n, d);
    let q = n / d;
    assert(d * q == 2 * (source_max * q)) by (nonlinear_arith)
        requires
            d == 2 * source_max,
    ;
    assert(2 * level * target_max == 2 * (level * target_max)) by (nonlinear_arith);
}

/// The default palette's color cube: red counts slowest and blue fastest, each in six even steps
/// from nothing to full, rounded to the nearest level. So each entry is as close to its exact level
/// as a whole number can be.
pub proof fn color_cube_steps_evenly(r: int, g: int, b: int)
    requires
        0 <= r < 6,
        0 <= g < 6,
        0 <= b < 6,
    ensures
        ({
            let color = default_palette_colors()[16 + 36 * r + 6 * g + b];
            &&& -5 <= 2 * (5 * color.r - 31 * r) <= 5
            &&& -5 <= 2 * (5 * color.g - 63 * g) <= 5
            &&& -5 <= 2 * (5 * color.b - 31 * b) <= 5
            &&& r == 5 <==> color.r == 31
            &&& g == 5 <==> color.g == 63
            &&& b == 5 <==> color.b == 31
            &&& r == 0 <==> color.r == 0
            &&& g == 0 <==> color.g == 0
            &&& b == 0 <==> color.b == 0
        }),
{
    let n = 36 * r + 6 * g + b;
    assert(n / 36 == r && n / 6 % 6 == g && n % 6 == b);
    rounded_is_nearest(r, 31, 5);
    rounded_is_nearest(g, 63, 5);
    rounded_is_nearest(b, 31, 5);
}

/// The last 24 entries of the default palette are an even ramp of grays from black to white.
pub proof fn gray_ramp_steps_evenly(level: int)
    requires
        0 <= level < 24,
    ensures
        ({
            let color = default_palette_colors()[232 + level];
            &&& -23 <= 2 * (23 * color.r - 31 * level) <= 23
            &&& -23 <= 2 * (23 * color.g - 63 * level) <= 23
            &&& color.b == color.r
            &&& level == 23 <==> color.r == 31
            &&& level == 0 <==> color.g == 0
        }),
{
    rounded_is_nearest(level, 31, 23);
    rounded_is_nearest(level, 63, 23);
}

/// The first sixteen entries of the default palette are the sums of red (1), green (2) and blue (4),
/// at half intensity and, from entry 8 on, at full intensity; only entries 7 and 8 are grays of
/// their own.
pub proof fn base_colors_are_sums(i: u8)
    requires
        i < 16,
    ensures
        default_palette_colors().len() == 256,
        ({
            let color = default_palette_colors()[i as int];
            let full = i & 8 != 0;
            if i == 7 {
                color == Rgb565 { r: 23, g: 47, b: 23 }
            } else if i == 8 {
                color == Rgb565 { r: 7, g: 15, b: 7 }
            } else {
                &&& color.r == if i & 1 == 0 { 0u8 } else if full { 31 } else { 15 }
                &&& color.g == if i & 2 == 0 { 0u8 } else if full { 63 } else { 31 }
                &&& color.b == if i & 4 == 0 { 0u8 } else if full { 31 } else { 15 }
            }
        }),
{
    crate::bytes::bits_by_division(i);
}

/// Expanding a color to 8 bits keeps each channel where it was: its bits come first, and as many of
/// them again as there is room for, so that the level stays the same to within one step.
pub proof fn expansion_keeps_channels(c: Rgb565)
    requires
        c.wf(),
    ensures
        c.scaled().r / 8 == c.r && c.scaled().r % 8 == c.r / 4,
        c.scaled().g / 4 == c.g && c.scaled().g % 4 == c.g / 16,
        c.scaled().b / 8 == c.b && c.scaled().b % 8 == c.b / 4,
        -31 < 31 * c.scaled().r - 255 * c.r < 31,
        -63 < 63 * c.scaled().g - 255 * c.g < 63,
        -31 < 31 * c.scaled().b - 255 * c.b < 31,
        c.r == 31 <==> c.scaled().r == 255,
        c.g == 63 <==> c.scaled().g == 255,
        c.b == 31 <==> c.scaled().b == 255,
{
}

/// Storing 8-bit components keeps the high-order bits of each: five of red and blue, six of green.
pub proof fn storing_keeps_high_bits(r: u8, g: u8, b: u8)
    ensures
        8 * Rgb565::masked(r, g, b).r <= r < 8 * Rgb565::masked(r, g, b).r + 8,
        4 * Rgb565::masked(r, g, b).g <= g < 4 * Rgb565::masked(r, g, b).g + 4,
        8 * Rgb565::masked(r, g, b).b <= b < 8 * Rgb565::masked(r, g, b).b + 8,
        Rgb565::of((r / 8) as u8, (g / 4) as u8, (b / 8) as u8) == Rgb565::masked(r, g, b),
        Rgb565::of(r, g, b).wf(),
        (r - Rgb565::of(r, g, b).r) % 32 == 0,
        (g - Rgb565::of(r, g, b).g) % 64 == 0,
        (b - Rgb565::of(r, g, b).b) % 32 == 0,
{
}

/// A packed color holds red in its five high-order bits, then green in six, then blue in five.
pub proof fn packing_orders_channels(c: Rgb565)
    requires
        c.wf(),
    ensures
        c.packed() / 2048 == c.r,
        c.packed() / 32 % 64 == c.g,
        c.packed() % 32 == c.b,
{
}

/// Pixel `i` of a matrix is four bytes of the frame. Off, it is black; on, each channel of its
/// palette entry is scaled by the brightness out of 255, rounded down.
pub proof fn pixel_shows_palette_entry(
    pixels: Seq<u8>,
    palette: Seq<Rgb565>,
    power_on: bool,
    brightness: u8,
    i: int,
)
    requires
        0 <= i < pixels.len(),
        palette.len() > 0,
        palette_wf(palette),
    ensures
        ({
            let frame = lit_frame(pixels, palette, power_on, brightness);
            let color = palette[pixels[i] as int % palette.len() as int].scaled();
            &&& frame.len() == 4 * pixels.len()
            &&& frame[4 * i + 3] == 255
            &&& !power_on ==> frame[4 * i] == 0 && frame[4 * i + 1] == 0 && frame[4 * i + 2] == 0
            &&& power_on ==> {
                &&& 0 <= color.r * brightness - 255 * frame[4 * i] < 255
                &&& 0 <= color.g * brightness - 255 * frame[4 * i + 1] < 255
                &&& 0 <= color.b * brightness - 255 * frame[4 * i + 2] < 255
            }
            &&& power_on && brightness == 255 ==> frame[4 * i] == color.r && frame[4 * i + 1]
                == color.g && frame[4 * i + 2] == color.b
        }),
{
    let color = palette[pixels[i] as int % palette.len() as int].scaled();
    lemma_dimmed(color.r, brightness);
    lemma_dimmed(color.g, brightness);
    lemma_dimmed(color.b, brightness);
    assert((4 * i) / 4 == i && (4 * i + 1) / 4 == i && (4 * i + 2) / 4 == i && (4 * i + 3) / 4 == i);
}

proof fn lemma_dimmed(channel: u8, brightness: u8)
    ensures
        0 <= channel * brightness - 255 * dimmed(channel, brightness) < 255,
{
    assert(0 <= channel * brightness <= 255 * 255) by (nonlinear_arith)
        requires
            0 <= channel <= 255,
            0 <= brightness <= 255,
    ;
}

} // verus!
