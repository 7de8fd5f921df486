//! Drawing into the scan-out buffer.

use vstd::prelude::*;
use vstd::string::*;
use crate::world::{Circle, Obstacle, HUE_STEP};

verus! {

/// Visible width of the panel in pixels.
pub const WIDTH: usize = 320;

/// Visible height of the panel in pixels.
pub const HEIGHT: usize = 240;

/// Width of one row of the scan-out buffer, wider than the panel.
pub const V_WIDTH: usize = 672;

/// Number of rows of the scan-out buffer.
pub const V_HEIGHT: usize = 240;

/// Number of pixels on the outline of a circle.
pub const CIRCLE_SAMPLES: usize = 136;

/// Number of pixels of the scan-out buffer: `V_WIDTH * V_HEIGHT`.
pub const FRAME_PIXELS: usize = 161280;

/// Scan-out offsets of the outline pixels of a circle, relative to the pixel
/// the circle is drawn around.
pub const CIRCLE_OFFSETS: [i32; CIRCLE_SAMPLES] = [
    -24, -696, -1368, -2040, -2712, -3383, -4055, -4727,
    -5399, -6070, -6742, -7413, -8085, -8756, -9428, -10099,
    -10770, -11441, -12112, -12783, -13454, -13453, -14124, -14123,
    -14794, -14793, -15464, -15463, -15462, -15461, -16132, -16131,
    -16130, -16129, -16128, -16127, -16126, -16125, -16124, -15451,
    -15450, -15449, -15448, -14775, -14774, -14101, -14100, -13427,
    -13426, -12753, -12080, -11407, -10734, -10061, -9388, -8716,
    -8043, -7371, -6698, -6026, -5353, -4681, -4009, -3337,
    -2664, -1992, -1320, -648, 24, 696, 1368, 2040,
    2712, 3383, 4055, 4727, 5399, 6070, 6742, 7413,
    8085, 8756, 9428, 10099, 10770, 11441, 12112, 12783,
    13454, 13453, 14124, 14123, 14794, 14793, 15464, 15463,
    15462, 15461, 16132, 16131, 16130, 16129, 16128, 16127,
    16126, 16125, 16124, 15451, 15450, 15449, 15448, 14775,
    14774, 14101, 14100, 13427, 13426, 12753, 12080, 11407,
    10734, 10061, 9388, 8716, 8043, 7371, 6698, 6026,
    5353, 4681, 4009, 3337, 2664, 1992, 1320, 648,
];

/// The scan-out buffer: one 16-bit colour per pixel, row after row, the
/// pixel `(x, y)` at index `y * V_WIDTH + x`.
#[derive(Debug)]
pub struct FrameBuffer {
    pixels: Vec<u16>,
}

impl View for FrameBuffer {
    type V = Seq<u16>;

    closed spec fn view(&self) -> Seq<u16> {
        self.pixels@
    }
}

impl FrameBuffer {
    /// The buffer holds exactly `FRAME_PIXELS` pixels.
    pub open spec fn wf(&self) -> bool {
        self@.len() == FRAME_PIXELS
    }

    /// A buffer with every pixel black.
    pub fn new() -> (fb: FrameBuffer)
        ensures
            fb.wf(),
            forall|i: int| 0 <= i < FRAME_PIXELS ==> fb@[i] == 0,
    {
        FrameBuffer { pixels: vec![0u16; FRAME_PIXELS] }
    }

    /// The colour at `index`, or `None` past the end of the buffer.
    pub fn pixel(&self, index: usize) -> (p: Option<u16>)
        ensures
            p == if index < self@.len() {
                Some(self@[index as int])
            } else {
                None
            },
    {
        if index < self.pixels.len() {
            Some(self.pixels[index])
        } else {
            None
        }
    }

    /// All pixels, in scan-out order.
    pub fn pixels(&self) -> (all: &Vec<u16>)
        ensures
            all@ == self@,
    {
        &self.pixels
    }

    /// Stores `color` at `index`.
    pub fn put(&mut self, index: usize, color: u16)
        requires
            index < old(self)@.len(),
        ensures
            final(self)@ == old(self)@.update(index as int, color),
    {
        self.pixels.set(index, color);
    }
}

/// Blackens the whole buffer.
pub fn clear(fb: &mut FrameBuffer)
    requires
        old(fb).wf(),
    ensures
        final(fb).wf(),
        forall|i: int| 0 <= i < FRAME_PIXELS ==> final(fb)@[i] == 0,
{
    let mut i: usize = 0;
    while i < FRAME_PIXELS
        invariant
            fb.wf(),
            i <= FRAME_PIXELS,
            forall|k: int| 0 <= k < i ==> fb@[k] == 0,
        decreases FRAME_PIXELS - i,
    {
        fb.put(i, 0);
        i += 1;
    }
}

/// The buffer after the first `n` outline pixels of a circle were stored, one
/// after the other, around the pixel at `center`: the `k`-th pixel gets the
/// colour `color + step * k`.
pub open spec fn outline_painted(buf: Seq<u16>, center: int, color: int, step: int, n: nat) -> Seq<
    u16,
>
    decreases n,
{
    if n == 0 {
        buf
    } else {
        outline_painted(buf, center, color, step, (n - 1) as nat).update(
            center + CIRCLE_OFFSETS[n - 1],
            (color + step * (n - 1)) as u16,
        )
    }
}

/// The buffer `buf` with the outline of `circle` drawn: the first outline
/// pixel in the circle's hue, each further one a step on.
pub open spec fn circle_painted(buf: Seq<u16>, circle: Circle) -> Seq<u16> {
    outline_painted(
        buf,
        circle.center as int,
        circle.color as int,
        HUE_STEP as int,
        CIRCLE_SAMPLES as nat,
    )
}

/// The buffer `buf` with the outline of `circle` blackened.
pub open spec fn circle_erased(buf: Seq<u16>, circle: Circle) -> Seq<u16> {
    outline_painted(buf, circle.center as int, 0, 0, CIRCLE_SAMPLES as nat)
}

/// Farthest an outline pixel lies from the pixel the circle is drawn
/// around: 24 rows and 4 columns.
pub const OUTLINE_REACH: i32 = 16132;

/// No outline pixel lies farther than `OUTLINE_REACH` from the pixel the
/// circle is drawn around.
proof fn lemma_outline_within_reach()
    ensures
        forall|k: int|
            0 <= k < CIRCLE_SAMPLES ==> -OUTLINE_REACH <= #[trigger] CIRCLE_OFFSETS[k]
                <= OUTLINE_REACH,
{
}

/// Stores the outline of `circle`, the first pixel with `color` and each
/// further one `step` hues on.
fn paint_outline(fb: &mut FrameBuffer, circle: &Circle, color: u16, step: u16)
    requires
        old(fb).wf(),
        circle.wf(),
        color + step * CIRCLE_SAMPLES <= u16::MAX,
    ensures
        final(fb).wf(),
        final(fb)@ == outline_painted(
            old(fb)@,
            circle.center as int,
            color as int,
            step as int,
            CIRCLE_SAMPLES as nat,
        ),
{
    proof {
        lemma_outline_within_reach();
    }
    let mut hue: u16 = color;
    let mut i: usize = 0;
    while i < CIRCLE_SAMPLES
        invariant
            fb.wf(),
            circle.wf(),
            forall|k: int|
                0 <= k < CIRCLE_SAMPLES ==> -OUTLINE_REACH <= #[trigger] CIRCLE_OFFSETS[k]
                    <= OUTLINE_REACH,
            i <= CIRCLE_SAMPLES,
            color + step * CIRCLE_SAMPLES <= u16::MAX,
            hue == color + step * i,
            fb@ == outline_painted(
                old(fb)@,
                circle.center as int,
                color as int,
                step as int,
                i as nat,
            ),
        decreases CIRCLE_SAMPLES - i,
    {
        assert(step * (i + 1) <= step * CIRCLE_SAMPLES) by (nonlinear_arith)
            requires
                i + 1 <= CIRCLE_SAMPLES,
                step >= 0,
        ;
        assert(step * (i + 1) == step * i + step) by (nonlinear_arith);
        let idx: usize = (circle.center + CIRCLE_OFFSETS[i]) as usize;
        fb.put(idx, hue);
        hue += step;
        i += 1;
    }
}

/// Blackens the outline of `circle`.
pub fn clear_circle(fb: &mut FrameBuffer, circle: &Circle)
    requires
        old(fb).wf(),
        circle.wf(),
    ensures
        final(fb).wf(),
        final(fb)@ == circle_erased(old(fb)@, *circle),
{
    paint_outline(fb, circle, 0, 0);
}

/// Draws the outline of `circle`: the first pixel in the circle's hue, each
/// further one a step on.
pub fn draw_circle(fb: &mut FrameBuffer, circle: &Circle)
    requires
        old(fb).wf(),
        circle.wf(),
    ensures
        final(fb).wf(),
        final(fb)@ == circle_painted(old(fb)@, *circle),
{
    paint_outline(fb, circle, circle.color, HUE_STEP);
}

/// Colour of the obstacle's bar.
pub const BAR_COLOR: u16 = 63488;

/// Colour of the row that trails the bar by one row.
pub const TRAIL_COLOR_1: u16 = 57344;

/// Colour of the row that trails the bar by two rows.
pub const TRAIL_COLOR_2: u16 = 64;

/// Whether the row `t` rows above the bar is drawn for a bar at `pos`:
/// the bar itself always, the trailing rows once the bar has come far enough
/// down.
pub open spec fn trail_drawn(pos: int, t: int) -> bool {
    ||| t == 0
    ||| t == 1 && pos >= 600
    ||| t == 2 && pos >= 1200
    ||| t == 3 && pos >= 2000
}

/// Drawing the first `cols` columns of `obstacle` stores a pixel at `j`, on
/// the row `t` rows above the bar.
pub open spec fn bar_row_hit(obstacle: Obstacle, j: int, t: int, cols: int) -> bool {
    let base = obstacle.pos - V_WIDTH * t;
    &&& trail_drawn(obstacle.pos as int, t)
    &&& base <= j < base + cols
    &&& obstacle.obstacle@[j - base]
}

/// The colour that drawing the first `cols` columns of `obstacle` stores at
/// `j`, if it stores one there: the bar's colour on the bar's row, the two
/// trail colours on the two rows above it, and black on the third row above,
/// which wipes what an earlier tick drew.
pub open spec fn bar_pixel(obstacle: Obstacle, j: int, cols: int) -> Option<u16> {
    if bar_row_hit(obstacle, j, 0, cols) {
        Some(BAR_COLOR)
    } else if bar_row_hit(obstacle, j, 1, cols) {
        Some(TRAIL_COLOR_1)
    } else if bar_row_hit(obstacle, j, 2, cols) {
        Some(TRAIL_COLOR_2)
    } else if bar_row_hit(obstacle, j, 3, cols) {
        Some(0u16)
    } else {
        None
    }
}

/// The buffer `buf` with the obstacle drawn over it.
pub open spec fn obstacle_painted(buf: Seq<u16>, obstacle: Obstacle) -> Seq<u16> {
    Seq::new(
        buf.len(),
        |j: int|
            match bar_pixel(obstacle, j, WIDTH as int) {
                Some(color) => color,
                None => buf[j],
            },
    )
}

/// Draws the opaque columns of `obstacle` on its row, with a fading trail on
/// the rows above.
pub fn draw_obstacle(fb: &mut FrameBuffer, obstacle: &Obstacle)
    requires
        old(fb).wf(),
        obstacle.row_aligned(),
    ensures
        final(fb).wf(),
        final(fb)@ == obstacle_painted(old(fb)@, *obstacle),
{
    let pos: usize = obstacle.pos;
    let mut i: usize = 0;
    while i < WIDTH
        invariant
            fb.wf(),
            obstacle.row_aligned(),
            pos == obstacle.pos,
            i <= WIDTH,
            forall|j: int|
                0 <= j < FRAME_PIXELS ==> fb@[j] == match bar_pixel(*obstacle, j, i as int) {
                    Some(color) => color,
                    None => old(fb)@[j],
                },
        decreases WIDTH - i,
    {
        if obstacle.obstacle[i] {
            fb.put(pos + i, BAR_COLOR);
            if pos >= 600 {
                fb.put(pos + i - V_WIDTH, TRAIL_COLOR_1);
            }
            if pos >= 1200 {
                fb.put(pos + i - 2 * V_WIDTH, TRAIL_COLOR_2);
            }
            if pos >= 2000 {
                fb.put(pos + i - 3 * V_WIDTH, 0);
            }
        }
        i += 1;
    }
}

/// The ten digits as glyphs of five rows of three cells; `true` marks a
/// cell that is drawn in colour.
pub const NUMBERS: [[[bool; 3]; 5]; 10] = [
    [
        [true, true, true],
        [true, false, true],
        [true, false, true],
        [true, false, true],
        [true, true, true],
    ],
    [
        [false, false, true],
        [false, false, true],
        [false, false, true],
        [false, false, true],
        [false, false, true],
    ],
    [
        [true, true, true],
        [false, false, true],
        [true, true, true],
        [true, false, false],
        [true, true, true],
    ],
    [
        [true, true, true],
        [false, false, true],
        [true, true, true],
        [false, false, true],
        [true, true, true],
    ],
    [
        [true, false, true],
        [true, false, true],
        [true, true, true],
        [false, false, true],
        [false, false, true],
    ],
    [
        [true, true, true],
        [true, false, false],
        [true, true, true],
        [false, false, true],
        [true, true, true],
    ],
    [
        [true, true, true],
        [true, false, false],
        [true, true, true],
        [true, false, true],
        [true, true, true],
    ],
    [
        [true, true, true],
        [false, false, true],
        [false, true, true],
        [false, true, false],
        [false, true, false],
    ],
    [
        [true, true, true],
        [true, false, true],
        [true, true, true],
        [true, false, true],
        [true, true, true],
    ],
    [
        [true, true, true],
        [true, false, true],
        [true, true, true],
        [false, false, true],
        [false, false, true],
    ],
];

/// Whether the cell `(x, y)` of the glyph of `digit` is drawn in colour.
pub open spec fn digit_cell(digit: int, x: int, y: int) -> bool {
    NUMBERS[digit][y][x]
}

/// The colour that drawing the first `rows` pixel rows of `digit` at
/// `origin` stores at `i`, if it stores one there. A glyph cell covers two
/// pixels on each of two rows; a cell that is not drawn in colour is drawn
/// black.
pub open spec fn glyph_pixel(origin: int, digit: int, color: u16, rows: int, i: int) -> Option<
    u16,
> {
    let rel = i - origin;
    let row = rel / (V_WIDTH as int);
    let col = rel % (V_WIDTH as int);
    if 0 <= rel && row < rows && col < 6 {
        Some(if digit_cell(digit, col / 2, row / 2) { color } else { 0u16 })
    } else {
        None
    }
}

/// The colour that drawing `digit` at `origin` stores at `i`, if it stores
/// one there: the glyph covers six columns of ten rows.
pub open spec fn digit_pixel(origin: int, digit: int, color: u16, i: int) -> Option<u16> {
    glyph_pixel(origin, digit, color, 10, i)
}

/// The buffer `buf` with `digit` drawn at `origin`.
pub open spec fn digit_painted(buf: Seq<u16>, origin: int, digit: int, color: u16) -> Seq<u16> {
    Seq::new(
        buf.len(),
        |i: int|
            match digit_pixel(origin, digit, color, i) {
                Some(c) => c,
                None => buf[i],
            },
    )
}

/// Stores one row of six pixels of the glyph row `y` of `digit` at `at`.
fn draw_glyph_row(fb: &mut FrameBuffer, at: usize, digit: usize, y: usize, color: u16)
    requires
        old(fb).wf(),
        at + 6 <= FRAME_PIXELS,
        digit < 10,
        y < 5,
    ensures
        final(fb).wf(),
        forall|i: int|
            0 <= i < FRAME_PIXELS ==> final(fb)@[i] == if at <= i < at + 6 {
                if digit_cell(digit as int, (i - at) / 2, y as int) {
                    color
                } else {
                    0u16
                }
            } else {
                old(fb)@[i]
            },
{
    let mut xx: usize = 0;
    let mut x: usize = 0;
    while x < 3
        invariant
            fb.wf(),
            at + 6 <= FRAME_PIXELS,
            digit < 10,
            y < 5,
            x <= 3,
            xx == 2 * x,
            forall|i: int|
                0 <= i < FRAME_PIXELS ==> fb@[i] == if at <= i < at + xx {
                    if digit_cell(digit as int, (i - at) / 2, y as int) {
                        color
                    } else {
                        0u16
                    }
                } else {
                    old(fb)@[i]
                },
        decreases 3 - x,
    {
        let c: u16 = if NUMBERS[digit][y][x] {
            color
        } else {
            0
        };
        fb.put(at + xx, c);
        xx += 1;
        fb.put(at + xx, c);
        xx += 1;
        x += 1;
    }
}

/// Draws the glyph of `digit` with its top left pixel at `origin`.
fn draw_digit(fb: &mut FrameBuffer, origin: usize, digit: usize, color: u16)
    requires
        old(fb).wf(),
        origin + 9 * V_WIDTH + 6 <= FRAME_PIXELS,
        digit < 10,
    ensures
        final(fb).wf(),
        final(fb)@ == digit_painted(old(fb)@, origin as int, digit as int, color),
{
    let mut yy: usize = 0;
    let mut y: usize = 0;
    while y < 5
        invariant
            fb.wf(),
            origin + 9 * V_WIDTH + 6 <= FRAME_PIXELS,
            digit < 10,
            y <= 5,
            yy == 2 * y * V_WIDTH,
            forall|i: int|
                0 <= i < FRAME_PIXELS ==> fb@[i] == match glyph_pixel(
                    origin as int,
                    digit as int,
                    color,
                    2 * y,
                    i,
                ) {
                    Some(c) => c,
                    None => old(fb)@[i],
                },
        decreases 5 - y,
    {
        draw_glyph_row(fb, origin + yy, digit, y, color);
        yy += V_WIDTH;
        draw_glyph_row(fb, origin + yy, digit, y, color);
        yy += V_WIDTH;
        y += 1;
    }
}

/// The buffer `buf` with the last three decimal digits of `number` drawn at
/// `pos`: the units sixteen pixels right of `pos`, the tens eight pixels
/// right of it, the hundreds at `pos` itself.
pub open spec fn number_painted(buf: Seq<u16>, number: int, pos: int, color: u16) -> Seq<u16> {
    let units = digit_painted(buf, pos + 16, number % 10, color);
    let tens = digit_painted(units, pos + 8, (number / 10) % 10, color);
    digit_painted(tens, pos, (number / 100) % 10, color)
}

/// Draws the last three decimal digits of `number` at `pos`.
pub fn draw_number(fb: &mut FrameBuffer, number: usize, pos: usize, color: u16)
    requires
        old(fb).wf(),
        pos + 16 + 9 * V_WIDTH + 6 <= FRAME_PIXELS,
    ensures
        final(fb).wf(),
        final(fb)@ == number_painted(old(fb)@, number as int, pos as int, color),
{
    draw_digit(fb, pos + 16, number % 10, color);
    draw_digit(fb, pos + 8, (number / 10) % 10, color);
    draw_digit(fb, pos, (number / 100) % 10, color);
}

/// Distance between the left edges of two characters of a drawn string.
pub const CHAR_PITCH: usize = 16;

/// Code of the first character of a font, the space.
pub const FIRST_GLYPH: usize = 0x20;

/// A bitmap font. The glyphs stand side by side in one bitmap that is
/// `width` pixels wide and `c_height` pixels high; each glyph is `c_width`
/// pixels wide, and the first one is the space. `data` holds the bitmap row
/// after row, one colour per pixel.
#[derive(Debug)]
pub struct Font {
    pub width: usize,
    pub c_width: usize,
    pub c_height: usize,
    pub data: Vec<u16>,
}

impl Font {
    /// The bitmap has as many pixels as its width and height say, and a
    /// glyph is no wider than a row of the scan-out buffer and no higher
    /// than the buffer.
    pub open spec fn wf(&self) -> bool {
        &&& self.data@.len() == self.width * self.c_height
        &&& 0 < self.c_width <= V_WIDTH
        &&& 0 < self.c_height <= V_HEIGHT
    }

    /// The font holds a glyph for `c`.
    pub open spec fn has_glyph(&self, c: char) -> bool {
        c as int >= FIRST_GLYPH && (c as int - FIRST_GLYPH + 1) * self.c_width <= self.width
    }

    /// The colour of the pixel `(col, row)` of the glyph of `c`.
    pub open spec fn texel(&self, c: char, col: int, row: int) -> u16 {
        self.data@[row * self.width + (c as int - FIRST_GLYPH) * self.c_width + col]
    }

    /// Tells whether the font is well formed.
    pub fn is_well_formed(&self) -> (b: bool)
        ensures
            b == self.wf(),
    {
        if !(0 < self.c_width && self.c_width <= V_WIDTH && 0 < self.c_height && self.c_height
            <= V_HEIGHT) {
            return false;
        }
        let len: usize = self.data.len();
        if self.width > usize::MAX / self.c_height {
            proof {
                assert(self.width * self.c_height > usize::MAX) by (nonlinear_arith)
                    requires
                        self.width > usize::MAX / self.c_height,
                        self.c_height > 0,
                ;
            }
            return false;
        }
        assert(self.width * self.c_height <= usize::MAX) by (nonlinear_arith)
            requires
                self.width <= usize::MAX / self.c_height,
                self.c_height > 0,
        ;
        len == self.width * self.c_height
    }

    /// Tells whether the font holds a glyph for `c`.
    pub fn holds_glyph(&self, c: char) -> (b: bool)
        requires
            self.wf(),
        ensures
            b == self.has_glyph(c),
    {
        let code: usize = c as usize;
        if code < FIRST_GLYPH {
            return false;
        }
        let index: usize = code - FIRST_GLYPH;
        // `index + 1` glyphs fit in the width exactly when `index` lies
        // below the number of whole glyphs in a row.
        assert((index + 1) * self.c_width <= self.width <==> index < self.width / self.c_width)
            by (nonlinear_arith)
            requires
                self.c_width > 0,
        ;
        index < self.width / self.c_width
    }
}

/// The colour that drawing the first `rows` rows of the glyph of `c` at
/// `origin` stores at `i`, if it stores one there.
pub open spec fn font_pixel(font: Font, origin: int, c: char, rows: int, i: int) -> Option<u16> {
    let rel = i - origin;
    let row = rel / (V_WIDTH as int);
    let col = rel % (V_WIDTH as int);
    if 0 <= rel && row < rows && col < font.c_width {
        Some(font.texel(c, col, row))
    } else {
        None
    }
}

/// The buffer `buf` with the glyph of `c` drawn at `origin`.
pub open spec fn glyph_painted(buf: Seq<u16>, font: Font, origin: int, c: char) -> Seq<u16> {
    Seq::new(
        buf.len(),
        |i: int|
            match font_pixel(font, origin, c, font.c_height as int, i) {
                Some(color) => color,
                None => buf[i],
            },
    )
}

/// A glyph drawn at `origin` lies wholly inside the buffer.
pub open spec fn glyph_lands(font: Font, origin: int) -> bool {
    origin + (font.c_height - 1) * V_WIDTH + font.c_width <= FRAME_PIXELS
}

/// The bitmap index of the pixel `(col, row)` of the glyph number `index`
/// lies inside the bitmap.
proof fn lemma_texel_in_bitmap(font: Font, index: int, col: int, row: int)
    requires
        font.wf(),
        0 <= index,
        (index + 1) * font.c_width <= font.width,
        0 <= col < font.c_width,
        0 <= row < font.c_height,
    ensures
        0 <= row * font.width,
        0 <= index * font.c_width,
        0 <= row * font.width + index * font.c_width + col < font.data@.len(),
{
    let w = font.width as int;
    let cw = font.c_width as int;
    let h = font.c_height as int;
    assert((index + 1) * cw == index * cw + cw) by (nonlinear_arith);
    assert(0 <= index * cw) by (nonlinear_arith)
        requires
            0 <= index,
            0 <= cw,
    ;
    assert(0 <= row * w && row * w + w <= h * w) by (nonlinear_arith)
        requires
            0 <= row < h,
            0 <= w,
    ;
    assert(h * w == w * h) by (nonlinear_arith);
}

/// Draws the glyph of `c` with its top left pixel at column `x` of row `y`.
pub fn draw_font(fb: &mut FrameBuffer, font: &Font, x: usize, y: usize, c: char)
    requires
        old(fb).wf(),
        font.wf(),
        font.has_glyph(c),
        glyph_lands(*font, x + y * V_WIDTH),
    ensures
        final(fb).wf(),
        final(fb)@ == glyph_painted(old(fb)@, *font, x + y * V_WIDTH, c),
{
    let font_offset: usize = c as usize - FIRST_GLYPH;
    let origin: usize = x + y * V_WIDTH;
    let bitmap_len: usize = font.data.len();
    let mut idx: usize = origin;
    let mut j: usize = 0;
    while j < font.c_height
        invariant
            fb.wf(),
            bitmap_len == font.data@.len(),
            font.wf(),
            font.has_glyph(c),
            glyph_lands(*font, origin as int),
            font_offset == c as int - FIRST_GLYPH,
            j <= font.c_height,
            idx == origin + j * V_WIDTH,
            forall|i: int|
                0 <= i < FRAME_PIXELS ==> fb@[i] == match font_pixel(
                    *font,
                    origin as int,
                    c,
                    j as int,
                    i,
                ) {
                    Some(color) => color,
                    None => old(fb)@[i],
                },
        decreases font.c_height - j,
    {
        let ghost row_start = idx;
        let ghost before = fb@;
        let mut i: usize = 0;
        while i < font.c_width
            invariant
                fb.wf(),
                bitmap_len == font.data@.len(),
                font.wf(),
                font.has_glyph(c),
                glyph_lands(*font, origin as int),
                font_offset == c as int - FIRST_GLYPH,
                j < font.c_height,
                i <= font.c_width,
                row_start == origin + j * V_WIDTH,
                idx == row_start + i,
                forall|k: int|
                    0 <= k < FRAME_PIXELS ==> fb@[k] == if row_start <= k < row_start + i {
                        font.texel(c, k - row_start, j as int)
                    } else {
                        before[k]
                    },
            decreases font.c_width - i,
        {
            proof {
                lemma_texel_in_bitmap(*font, font_offset as int, i as int, j as int);
            }
            let color: u16 = font.data[j * font.width + font_offset * font.c_width + i];
            fb.put(idx, color);
            idx += 1;
            i += 1;
        }
        idx += V_WIDTH - font.c_width;
        j += 1;
    }
}

/// The buffer `buf` with the first `n` characters of `text` drawn from
/// column `x` of row `y` on, one after the other, `CHAR_PITCH` pixels
/// apart.
pub open spec fn string_painted(
    buf: Seq<u16>,
    font: Font,
    x: int,
    y: int,
    text: Seq<char>,
    n: nat,
) -> Seq<u16>
    decreases n,
{
    if n == 0 {
        buf
    } else {
        glyph_painted(
            string_painted(buf, font, x, y, text, (n - 1) as nat),
            font,
            x + CHAR_PITCH * (n - 1) + y * V_WIDTH,
            text[n - 1],
        )
    }
}

/// The font holds a glyph for each character of `text`, and the text drawn
/// from column `x` of row `y` on lies wholly inside the buffer.
pub open spec fn text_fits(font: Font, x: int, y: int, text: Seq<char>) -> bool {
    &&& forall|k: int| 0 <= k < text.len() ==> font.has_glyph(#[trigger] text[k])
    &&& text.len() > 0 ==> glyph_lands(font, x + CHAR_PITCH * (text.len() - 1) + y * V_WIDTH)
}

/// Tells whether `text` can be drawn from column `x` of row `y` on.
pub fn string_fits(font: &Font, x: usize, y: usize, text: &str) -> (fits: bool)
    requires
        font.wf(),
    ensures
        fits == text_fits(*font, x as int, y as int, text@),
{
    let len: usize = text.unicode_len();
    if len == 0 {
        return true;
    }
    let height: usize = (font.c_height - 1) * V_WIDTH + font.c_width;
    // The last glyph must land inside the buffer.
    if y > V_HEIGHT || x > FRAME_PIXELS || len > FRAME_PIXELS {
        return false;
    }
    if x + CHAR_PITCH * (len - 1) + y * V_WIDTH + height > FRAME_PIXELS {
        return false;
    }
    let mut k: usize = 0;
    while k < len
        invariant
            font.wf(),
            len == text@.len(),
            k <= len,
            forall|m: int| 0 <= m < k ==> font.has_glyph(#[trigger] text@[m]),
        decreases len - k,
    {
        if !font.holds_glyph(text.get_char(k)) {
            return false;
        }
        k += 1;
    }
    true
}

/// Draws `text` from column `x` of row `y` on.
pub fn draw_string(fb: &mut FrameBuffer, font: &Font, x: usize, y: usize, text: &str)
    requires
        old(fb).wf(),
        font.wf(),
        text_fits(*font, x as int, y as int, text@),
    ensures
        final(fb).wf(),
        final(fb)@ == string_painted(old(fb)@, *font, x as int, y as int, text@, text@.len()),
{
    let len: usize = text.unicode_len();
    let mut at: usize = x;
    let mut k: usize = 0;
    while k < len
        invariant
            fb.wf(),
            font.wf(),
            text_fits(*font, x as int, y as int, text@),
            len == text@.len(),
            k <= len,
            at == x + CHAR_PITCH * k,
            fb@ == string_painted(old(fb)@, *font, x as int, y as int, text@, k as nat),
        decreases len - k,
    {
        let ch: char = text.get_char(k);
        draw_font(fb, font, at, y, ch);
        at += CHAR_PITCH;
        k += 1;
    }
}

/// The character that shows the decimal digit `d`.
pub open spec fn digit_char(d: int) -> char {
    ('0' as int + d) as char
}

/// The decimal digits of `n`, the most significant first; zero is one digit.
pub open spec fn decimal(n: nat) -> Seq<char>
    decreases n,
{
    if n < 10 {
        seq![digit_char(n as int)]
    } else {
        decimal(n / 10).push(digit_char((n % 10) as int))
    }
}

/// The text that shows a throughput of `fps`: the count in decimal, then
/// `" fps "`.
pub open spec fn fps_label(fps: u32) -> Seq<char> {
    decimal(fps as nat) + seq![' ', 'f', 'p', 's', ' ']
}

/// Formats a throughput with std's `format!` and the pattern `"{} fps "`.
///
/// For an unsigned integer `{}` gives the decimal digits, without sign or
/// padding; the rest of the pattern is copied as it stands.
#[verifier::external_body]
fn fps_text(fps: u32) -> (text: String)
    ensures
        text@ == fps_label(fps),
{
    format!("{} fps ", fps)
}

/// Column at which the throughput is drawn.
pub const FPS_X: usize = 0;

/// Row at which the throughput is drawn.
pub const FPS_Y: usize = 10;

/// Draws the throughput `fps` as text in the top left corner, if `font`
/// can show it there, and tells whether it did. Otherwise the buffer stays
/// as it is.
pub fn draw_fps(fb: &mut FrameBuffer, font: &Font, fps: u32) -> (drawn: bool)
    requires
        old(fb).wf(),
        font.wf(),
    ensures
        final(fb).wf(),
        drawn == text_fits(*font, FPS_X as int, FPS_Y as int, fps_label(fps)),
        drawn ==> final(fb)@ == string_painted(
            old(fb)@,
            *font,
            FPS_X as int,
            FPS_Y as int,
            fps_label(fps),
            fps_label(fps).len(),
        ),
        !drawn ==> final(fb)@ == old(fb)@,
{
    let text: String = fps_text(fps);
    if string_fits(font, FPS_X, FPS_Y, text.as_str()) {
        draw_string(fb, font, FPS_X, FPS_Y, text.as_str());
        true
    } else {
        false
    }
}

/// Scan-out offset at which the score is drawn.
pub const SCORE_POS: usize = 6970;

/// Scan-out offset at which the best score is drawn.
pub const MAX_SCORE_POS: usize = 6996;

/// Colour of the score.
pub const SCORE_COLOR: u16 = 0xffff;

/// Colour of the best score.
pub const MAX_SCORE_COLOR: u16 = 0x2ee0;

/// The count that follows `num` in the display's self test: one less, and
/// from zero back to 999.
pub open spec fn count_after(num: int) -> int {
    if num == 0 {
        999
    } else {
        num - 1
    }
}

/// One round of the display's self test, which counts down from 999 over
/// and over: draws `num` where the score goes and returns the count to show
/// next.
pub fn debug_count(fb: &mut FrameBuffer, num: usize) -> (next: usize)
    requires
        old(fb).wf(),
    ensures
        final(fb).wf(),
        final(fb)@ == number_painted(old(fb)@, num as int, SCORE_POS as int, SCORE_COLOR),
        next == count_after(num as int),
{
    draw_number(fb, num, SCORE_POS, SCORE_COLOR);
    if num == 0 {
        999
    } else {
        num - 1
    }
}

/// Number of elements of `bytes` bytes each that hold the whole scan-out
/// buffer, two bytes per pixel.
pub open spec fn elements_for(bytes: int) -> int {
    FRAME_PIXELS * 2 / bytes
}

/// An element type through which the scan-out buffer can be addressed.
pub trait BufferLen {
    /// Size of one element in bytes.
    spec fn element_bytes() -> int;

    /// Number of elements that hold the whole scan-out buffer.
    fn buffer_len() -> (len: usize)
        ensures
            len == elements_for(Self::element_bytes()),
    ;
}

impl BufferLen for u8 {
    open spec fn element_bytes() -> int {
        1
    }

    fn buffer_len() -> (len: usize) {
        V_WIDTH * V_HEIGHT * 2
    }
}

impl BufferLen for u16 {
    open spec fn element_bytes() -> int {
        2
    }

    fn buffer_len() -> (len: usize) {
        V_WIDTH * V_HEIGHT
    }
}

impl BufferLen for u32 {
    open spec fn element_bytes() -> int {
        4
    }

    fn buffer_len() -> (len: usize) {
        V_WIDTH * V_HEIGHT / 2
    }
}

impl BufferLen for u64 {
    open spec fn element_bytes() -> int {
        8
    }

    fn buffer_len() -> (len: usize) {
        V_WIDTH * V_HEIGHT / 4
    }
}

} // verus!
