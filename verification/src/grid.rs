//! The swatch grid: where each color of a palette goes, and the image that
//! shows it there.

use vstd::prelude::*;
use crate::canvas::{
    blank_canvas, canvas_height, canvas_is_complete, canvas_pixel, canvas_width, into_bytes,
    lemma_pixel_in_bytes, pixel_of, set_pixel, Canvas,
};
use crate::color::Color;
use crate::error::AppError;
use crate::palette::{Palette, MAX_PALETTE_LEN};

verus! {

/// The side of one cell, in pixels.
pub const CELL_SIZE: u32 = 50;

/// The number of cells in a row: half the palette's length, rounded down, and
/// never less than one. A palette of a single color still gets its column.
pub open spec fn grid_columns(len: nat) -> nat {
    if len < 2 {
        1
    } else {
        len / 2
    }
}

/// The number of rows: the palette's length over the columns, rounded up.
pub open spec fn grid_rows(len: nat) -> nat {
    ((len + grid_columns(len) - 1) / (grid_columns(len) as int)) as nat
}

/// The measures of a grid. They follow from the palette's length alone.
#[derive(Debug, Clone, Copy, PartialEq, Eq, Structural)]
pub struct GridLayout {
    pub cell_size: u32,
    pub columns: u32,
    pub rows: u32,
    pub width: u32,
    pub height: u32,
}

impl GridLayout {
    /// Whether these are the measures of the grid for `len` colors.
    pub open spec fn is_for(self, len: nat) -> bool {
        &&& self.cell_size == CELL_SIZE
        &&& self.columns == grid_columns(len)
        &&& self.rows == grid_rows(len)
        &&& self.width == grid_columns(len) * CELL_SIZE
        &&& self.height == grid_rows(len) * CELL_SIZE
    }

    /// The measures of the grid for a palette that is not empty.
    pub fn for_palette(palette: &Palette) -> (layout: GridLayout)
        requires
            palette@.len() >= 1,
        ensures
            layout.is_for(palette@.len()),
    {
        let len: u32 = palette.len() as u32;
        let half: u32 = len / 2;
        let columns: u32 = if half == 0 {
            1
        } else {
            half
        };
        proof {
            lemma_layout_bounds(len as nat);
        }
        let rows: u32 = (len + columns - 1) / columns;
        GridLayout {
            cell_size: CELL_SIZE,
            columns,
            rows,
            width: columns * CELL_SIZE,
            height: rows * CELL_SIZE,
        }
    }
}

/// The rows are the least number of them that holds every color: all the
/// colors fit, and the last row is not empty.
pub proof fn lemma_layout_bounds(len: nat)
    requires
        len >= 1,
    ensures
        grid_columns(len) >= 1,
        1 <= grid_rows(len) <= 3,
        grid_rows(len) * grid_columns(len) >= len,
        (grid_rows(len) - 1) * grid_columns(len) < len,
{
    let c = grid_columns(len) as int;
    let n = len as int;
    let r = (n + c - 1) / c;
    assert(r * c >= n && (r - 1) * c < n) by (nonlinear_arith)
        requires
            c >= 1,
            n >= 1,
            r == (n + c - 1) / c,
    ;
    assert(1 <= r <= 3) by (nonlinear_arith)
        requires
            c >= 1,
            n >= 1,
            n <= 3 * c,
            r * c >= n,
            (r - 1) * c < n,
    ;
}

/// The index of the cell that the pixel `(x, y)` lies in, in a grid for `len`
/// colors: cells are counted row by row, from the top left.
pub open spec fn cell_index(len: nat, x: int, y: int) -> int {
    (y / (CELL_SIZE as int)) * grid_columns(len) + x / (CELL_SIZE as int)
}

/// The color of the pixel `(x, y)` in the grid of `colors`: that of the cell it
/// lies in, and black where the cell is past the last color.
pub open spec fn grid_color(colors: Seq<Color>, x: int, y: int) -> Color {
    let cell = cell_index(colors.len(), x, y);
    if cell < colors.len() {
        colors[cell]
    } else {
        Color::black()
    }
}

/// A finished image: `height` rows of `width` pixels in `data`, row after row
/// from the top, three bytes a pixel.
#[derive(Debug, Clone, PartialEq, Eq)]
pub struct GridImage {
    pub width: u32,
    pub height: u32,
    pub data: Vec<u8>,
}

impl GridImage {
    /// Whether `data` holds exactly the pixels of the image.
    pub open spec fn is_complete(self) -> bool {
        self.data@.len() == 3 * self.width * self.height
    }

    pub open spec fn pixel(self, x: int, y: int) -> Color {
        pixel_of(self.data@, self.width as nat, x, y)
    }

    /// Whether this is the grid of `colors`: of the size that the layout
    /// gives, with every pixel in the color of its cell.
    pub open spec fn shows(self, colors: Seq<Color>) -> bool {
        &&& self.width == grid_columns(colors.len()) * CELL_SIZE
        &&& self.height == grid_rows(colors.len()) * CELL_SIZE
        &&& self.is_complete()
        &&& forall|x: int, y: int|
            0 <= x < self.width && 0 <= y < self.height ==> #[trigger] self.pixel(x, y)
                == grid_color(colors, x, y)
    }

    /// The color of the pixel in column `x` of row `y`.
    pub fn pixel_at(&self, x: u32, y: u32) -> (color: Color)
        requires
            self.is_complete(),
            x < self.width,
            y < self.height,
        ensures
            color == self.pixel(x as int, y as int),
    {
        let size: usize = self.data.len();
        proof {
            lemma_pixel_in_bytes(self.width as nat, self.height as nat, x as int, y as int);
            assert(3 * (y * self.width + x) + 3 <= size);
        }
        let at: usize = 3 * (y as usize * self.width as usize + x as usize);
        Color { r: self.data[at], g: self.data[at + 1], b: self.data[at + 2] }
    }
}

/// Whether the pixel `(px, py)` lies in the cell whose top left corner is
/// `(x0, y0)`.
pub open spec fn in_cell(x0: int, y0: int, px: int, py: int) -> bool {
    x0 <= px < x0 + CELL_SIZE && y0 <= py < y0 + CELL_SIZE
}

/// Paints the cell whose top left corner is `(x0, y0)` in one color; every
/// pixel outside the cell keeps its own.
fn paint_cell(canvas: &mut Canvas, x0: u32, y0: u32, color: Color)
    requires
        canvas_is_complete(*old(canvas)),
        x0 + CELL_SIZE <= canvas_width(*old(canvas)),
        y0 + CELL_SIZE <= canvas_height(*old(canvas)),
    ensures
        canvas_is_complete(*final(canvas)),
        canvas_width(*final(canvas)) == canvas_width(*old(canvas)),
        canvas_height(*final(canvas)) == canvas_height(*old(canvas)),
        forall|px: int, py: int|
            0 <= px < canvas_width(*old(canvas)) && 0 <= py < canvas_height(*old(canvas))
                ==> #[trigger] canvas_pixel(*final(canvas), px, py) == (if in_cell(
                x0 as int,
                y0 as int,
                px,
                py,
            ) {
                color
            } else {
                canvas_pixel(*old(canvas), px, py)
            }),
{
    let ghost before = *canvas;
    let ghost w = canvas_width(before);
    let ghost h = canvas_height(before);
    let mut dx: u32 = 0;
    while dx < CELL_SIZE
        invariant
            dx <= CELL_SIZE,
            canvas_is_complete(*canvas),
            canvas_width(*canvas) == w,
            canvas_height(*canvas) == h,
            x0 + CELL_SIZE <= w,
            y0 + CELL_SIZE <= h,
            forall|px: int, py: int|
                0 <= px < w && 0 <= py < h ==> #[trigger] canvas_pixel(*canvas, px, py) == (
                if in_cell(x0 as int, y0 as int, px, py) && px - x0 < dx {
                    color
                } else {
                    canvas_pixel(before, px, py)
                }),
        decreases CELL_SIZE - dx,
    {
        let mut dy: u32 = 0;
        while dy < CELL_SIZE
            invariant
                dx < CELL_SIZE,
                dy <= CELL_SIZE,
                canvas_is_complete(*canvas),
                canvas_width(*canvas) == w,
                canvas_height(*canvas) == h,
                x0 + CELL_SIZE <= w,
                y0 + CELL_SIZE <= h,
                forall|px: int, py: int|
                    0 <= px < w && 0 <= py < h ==> #[trigger] canvas_pixel(*canvas, px, py) == (
                    if in_cell(x0 as int, y0 as int, px, py) && (px - x0 < dx || (px - x0 == dx
                        && py - y0 < dy)) {
                        color
                    } else {
                        canvas_pixel(before, px, py)
                    }),
            decreases CELL_SIZE - dy,
        {
            set_pixel(canvas, x0 + dx, y0 + dy, color);
            dy += 1;
        }
        dx += 1;
    }
}

/// What the grid shows at `(x, y)` once the first `done` colors are painted.
spec fn painted(colors: Seq<Color>, done: nat, x: int, y: int) -> Color {
    let cell = cell_index(colors.len(), x, y);
    if cell < done && cell < colors.len() {
        colors[cell]
    } else {
        Color::black()
    }
}

/// The cell of color `i` lies inside the grid, and a pixel of the grid lies in
/// it exactly when `i` is the index of the pixel's cell.
pub proof fn lemma_cell_place(len: nat, i: nat, x: int, y: int)
    requires
        i < len,
        0 <= x < grid_columns(len) * CELL_SIZE,
        0 <= y,
    ensures
        (i % grid_columns(len)) * CELL_SIZE + CELL_SIZE <= grid_columns(len) * CELL_SIZE,
        (i / grid_columns(len)) * CELL_SIZE + CELL_SIZE <= grid_rows(len) * CELL_SIZE,
        in_cell(
            (i % grid_columns(len)) * CELL_SIZE,
            (i / grid_columns(len)) * CELL_SIZE,
            x,
            y,
        ) <==> cell_index(len, x, y) == i,
{
    let c = grid_columns(len) as int;
    let r = grid_rows(len) as int;
    let n = i as int;
    lemma_layout_bounds(len);
    vstd::arithmetic::div_mod::lemma_fundamental_div_mod(n, c);
    assert(0 <= n % c < c && 0 <= n / c < r) by (nonlinear_arith)
        requires
            0 <= n < r * c,
            0 < c,
            n == c * (n / c) + n % c,
    ;
    let qx = x / (CELL_SIZE as int);
    let qy = y / (CELL_SIZE as int);
    if qy * c + qx == n {
        vstd::arithmetic::div_mod::lemma_fundamental_div_mod_converse(n, c, qy, qx);
    }
    if qx == n % c && qy == n / c {
        assert(qy * c == c * (n / c)) by (nonlinear_arith)
            requires
                qy == n / c,
        ;
    }
}

/// Every color has its cell: the square of `CELL_SIZE` pixels whose top left
/// corner is at column `i mod columns` and row `i div columns`, counted in
/// cells, lies inside the grid and shows color `i` all over.
pub proof fn lemma_cell_shows_color(colors: Seq<Color>, i: nat, x: int, y: int)
    requires
        i < colors.len(),
        in_cell(
            (i % grid_columns(colors.len())) * CELL_SIZE,
            (i / grid_columns(colors.len())) * CELL_SIZE,
            x,
            y,
        ),
    ensures
        0 <= x < grid_columns(colors.len()) * CELL_SIZE,
        0 <= y < grid_rows(colors.len()) * CELL_SIZE,
        grid_color(colors, x, y) == colors[i as int],
{
    lemma_cell_place(colors.len(), i, 0, 0);
    lemma_cell_place(colors.len(), i, x, y);
}

/// The grid image of a palette that is not empty: one square cell for each
/// color, in the palette's order, row by row from the top left; the cells of
/// the last row that no color fills are black.
pub fn render_palette_grid(palette: &Palette) -> (img: GridImage)
    requires
        palette@.len() >= 1,
    ensures
        img.shows(palette@),
{
    let layout = GridLayout::for_palette(palette);
    let len: usize = palette.len();
    proof {
        lemma_layout_bounds(len as nat);
        assert(3 * layout.width * layout.height <= 0x7fff_ffff) by (nonlinear_arith)
            requires
                layout.width <= 255 * 50,
                layout.height <= 3 * 50,
        ;
    }
    let mut canvas = blank_canvas(layout.width, layout.height);
    proof {
        assert forall|x: int, y: int|
            0 <= x < layout.width && 0 <= y < layout.height implies #[trigger] canvas_pixel(
            canvas,
            x,
            y,
        ) == painted(palette@, 0, x, y) by {
            lemma_pixel_in_bytes(layout.width as nat, layout.height as nat, x, y);
        }
    }
    let mut i: usize = 0;
    while i < len
        invariant
            i <= len,
            len == palette@.len(),
            1 <= len <= MAX_PALETTE_LEN,
            layout.is_for(len as nat),
            canvas_is_complete(canvas),
            canvas_width(canvas) == layout.width,
            canvas_height(canvas) == layout.height,
            forall|x: int, y: int|
                0 <= x < layout.width && 0 <= y < layout.height ==> #[trigger] canvas_pixel(
                    canvas,
                    x,
                    y,
                ) == painted(palette@, i as nat, x, y),
        decreases len - i,
    {
        let color = palette.get(i);
        let column: u32 = i as u32 % layout.columns;
        let row: u32 = i as u32 / layout.columns;
        proof {
            lemma_cell_place(len as nat, i as nat, 0, 0);
        }
        let ghost before = canvas;
        paint_cell(&mut canvas, column * CELL_SIZE, row * CELL_SIZE, color);
        proof {
            assert forall|x: int, y: int|
                0 <= x < layout.width && 0 <= y < layout.height implies #[trigger] canvas_pixel(
                canvas,
                x,
                y,
            ) == painted(palette@, (i + 1) as nat, x, y) by {
                lemma_cell_place(len as nat, i as nat, x, y);
                assert(canvas_pixel(before, x, y) == painted(palette@, i as nat, x, y));
            }
        }
        i += 1;
    }
    let ghost full = canvas;
    let data = into_bytes(canvas);
    let img = GridImage { width: layout.width, height: layout.height, data };
    proof {
        assert forall|x: int, y: int|
            0 <= x < img.width && 0 <= y < img.height implies #[trigger] img.pixel(x, y)
            == grid_color(palette@, x, y) by {
            assert(canvas_pixel(full, x, y) == painted(palette@, len as nat, x, y));
        }
    }
    img
}

/// What becomes of a run once the encoder has tried to write the grid image:
/// a write that failed is an `ImageSaveError`, whatever made it fail.
pub fn save_outcome(written: bool) -> (outcome: Result<(), AppError>)
    ensures
        written ==> outcome == Ok::<(), AppError>(()),
        !written ==> outcome == Err::<(), AppError>(AppError::ImageSaveError),
{
    if written {
        Ok(())
    } else {
        Err(AppError::ImageSaveError)
    }
}

} // verus!
