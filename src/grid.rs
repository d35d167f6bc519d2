use vstd::prelude::*;

use crate::color::Rgba;

use image::Rgba as ImagePixel;
use image::RgbaImage;

verus! {

/// Whether `(col, row)` names a cell of a grid with `side` cells per side.
pub open spec fn in_grid(side: nat, col: int, row: int) -> bool {
    0 <= col < side && 0 <= row < side
}

/// Cells are stored row by row.
pub open spec fn cell_index(side: nat, col: int, row: int) -> int {
    row * side + col
}

/// The cells after painting `(col, row)` with `ink`: nothing changes for a
/// cell off the grid.
pub open spec fn painted(cells: Seq<Rgba>, side: nat, col: int, row: int, ink: Rgba) -> Seq<Rgba> {
    if in_grid(side, col, row) {
        cells.update(cell_index(side, col, row), ink)
    } else {
        cells
    }
}

/// The cells of a grid filled with `background`.
pub open spec fn cleared(side: nat, background: Rgba) -> Seq<Rgba> {
    Seq::new(side * side, |_i: int| background)
}

/// An RGBA image buffer of the `image` crate, held opaque.
#[verifier::external_body]
pub struct PixelImage {
    image: RgbaImage,
}

/// The pixels of an image, row by row.
pub uninterp spec fn image_pixels(img: PixelImage) -> Seq<Rgba>;

/// The width of an image in pixels.
pub uninterp spec fn image_width(img: PixelImage) -> nat;

/// The height of an image in pixels.
pub uninterp spec fn image_height(img: PixelImage) -> nat;

/// Relies on `ImageBuffer::from_pixel`: a `width` by `height` image with every
/// pixel set to `pixel`. Its buffer length must fit in `usize`, or it panics.
#[verifier::external_body]
fn image_from_pixel(width: u32, height: u32, pixel: Rgba) -> (img: PixelImage)
    requires
        4 * width * height <= usize::MAX,
    ensures
        image_width(img) == width,
        image_height(img) == height,
        image_pixels(img) == Seq::new((width * height) as nat, |_i: int| pixel),
{
    let pixel = ImagePixel([pixel.r, pixel.g, pixel.b, pixel.a]);
    PixelImage { image: RgbaImage::from_pixel(width, height, pixel) }
}

/// Relies on `ImageBuffer::put_pixel`: sets pixel `(x, y)`, stored at
/// `y * width + x`. It panics out of bounds.
#[verifier::external_body]
fn image_put(img: &mut PixelImage, x: u32, y: u32, pixel: Rgba)
    requires
        x < image_width(*old(img)),
        y < image_height(*old(img)),
    ensures
        image_width(*final(img)) == image_width(*old(img)),
        image_height(*final(img)) == image_height(*old(img)),
        image_pixels(*final(img)) == image_pixels(*old(img)).update(
            y * image_width(*old(img)) + x,
            pixel,
        ),
{
    img.image.put_pixel(x, y, ImagePixel([pixel.r, pixel.g, pixel.b, pixel.a]))
}

/// Relies on `ImageBuffer::get_pixel`: the pixel `(x, y)`, stored at
/// `y * width + x`. It panics out of bounds.
#[verifier::external_body]
fn image_get(img: &PixelImage, x: u32, y: u32) -> (pixel: Rgba)
    requires
        x < image_width(*img),
        y < image_height(*img),
    ensures
        pixel == image_pixels(*img)[y * image_width(*img) + x],
{
    let p = img.image.get_pixel(x, y);
    Rgba { r: p.0[0], g: p.0[1], b: p.0[2], a: p.0[3] }
}

/// A square grid of colored cells, painted with one ink on one background.
pub struct PixelGrid {
    side: u32,
    background: Rgba,
    ink: Rgba,
    image: PixelImage,
}

proof fn lemma_index_in_bounds(side: nat, col: int, row: int)
    requires
        in_grid(side, col, row),
    ensures
        0 <= cell_index(side, col, row) < side * side,
{
    assert(0 <= row * side + col < side * side) by (nonlinear_arith)
        requires
            0 <= col < side,
            0 <= row < side,
    ;
}

impl PixelGrid {
    pub closed spec fn spec_side(&self) -> nat {
        self.side as nat
    }

    pub closed spec fn spec_background(&self) -> Rgba {
        self.background
    }

    pub closed spec fn spec_ink(&self) -> Rgba {
        self.ink
    }

    /// The cells, row by row.
    pub closed spec fn cells(&self) -> Seq<Rgba> {
        image_pixels(self.image)
    }

    /// The image is `side` by `side` pixels.
    pub closed spec fn image_is_square(&self) -> bool {
        image_width(self.image) == self.side && image_height(self.image) == self.side
    }

    /// There is one cell for each `(col, row)` of the grid.
    pub open spec fn wf(&self) -> bool {
        &&& self.image_is_square()
        &&& self.cells().len() == self.spec_side() * self.spec_side()
        &&& 4 * self.spec_side() * self.spec_side() <= usize::MAX
    }

    /// A grid of `side` by `side` cells, all of them `background`.
    pub fn new(side: u32, background: Rgba, ink: Rgba) -> (g: PixelGrid)
        requires
            4 * side * side <= usize::MAX,
        ensures
            g.wf(),
            g.spec_side() == side,
            g.spec_background() == background,
            g.spec_ink() == ink,
            g.cells() == cleared(side as nat, background),
    {
        let image = image_from_pixel(side, side, background);
        PixelGrid { side, background, ink, image }
    }

    pub fn side(&self) -> (r: u32)
        ensures
            r == self.spec_side(),
    {
        self.side
    }

    pub fn background(&self) -> (r: Rgba)
        ensures
            r == self.spec_background(),
    {
        self.background
    }

    pub fn ink(&self) -> (r: Rgba)
        ensures
            r == self.spec_ink(),
    {
        self.ink
    }

    /// All cells, row by row.
    pub fn pixels(&self) -> (r: Vec<Rgba>)
        requires
            self.wf(),
        ensures
            r@ == self.cells(),
    {
        let mut r: Vec<Rgba> = Vec::new();
        let mut row: u32 = 0;
        while row < self.side
            invariant
                self.wf(),
                row <= self.side,
                r@.len() == row * self.side,
                forall|k: int| 0 <= k < r@.len() ==> r@[k] == self.cells()[k],
            decreases self.side - row,
        {
            let mut col: u32 = 0;
            while col < self.side
                invariant
                    self.wf(),
                    row < self.side,
                    col <= self.side,
                    r@.len() == row * self.side + col,
                    forall|k: int| 0 <= k < r@.len() ==> r@[k] == self.cells()[k],
                decreases self.side - col,
            {
                proof {
                    lemma_index_in_bounds(self.side as nat, col as int, row as int);
                }
                let c = image_get(&self.image, col, row);
                r.push(c);
                col = col + 1;
            }
            assert(row * self.side + self.side == (row + 1) * self.side) by (nonlinear_arith);
            row = row + 1;
        }
        assert(r@ =~= self.cells());
        r
    }

    /// The color of `(col, row)`, or `None` off the grid.
    pub fn get_pixel(&self, col: u32, row: u32) -> (r: Option<Rgba>)
        requires
            self.wf(),
        ensures
            in_grid(self.spec_side(), col as int, row as int) ==> r == Some(
                self.cells()[cell_index(self.spec_side(), col as int, row as int)],
            ),
            !in_grid(self.spec_side(), col as int, row as int) ==> r is None,
    {
        if col < self.side && row < self.side {
            Some(image_get(&self.image, col, row))
        } else {
            None
        }
    }

    /// Sets `(col, row)` to the ink color; a cell off the grid is ignored.
    pub fn paint_cell(&mut self, col: u64, row: u64)
        requires
            old(self).wf(),
        ensures
            final(self).wf(),
            final(self).spec_side() == old(self).spec_side(),
            final(self).spec_background() == old(self).spec_background(),
            final(self).spec_ink() == old(self).spec_ink(),
            final(self).cells() == painted(
                old(self).cells(),
                old(self).spec_side(),
                col as int,
                row as int,
                old(self).spec_ink(),
            ),
    {
        if col < self.side as u64 && row < self.side as u64 {
            proof {
                lemma_index_in_bounds(self.side as nat, col as int, row as int);
            }
            let ink = self.ink;
            image_put(&mut self.image, col as u32, row as u32, ink);
        }
    }

    /// Sets every cell to the background color.
    pub fn clear_grid(&mut self)
        requires
            old(self).wf(),
        ensures
            final(self).wf(),
            final(self).spec_side() == old(self).spec_side(),
            final(self).spec_background() == old(self).spec_background(),
            final(self).spec_ink() == old(self).spec_ink(),
            final(self).cells() == cleared(old(self).spec_side(), old(self).spec_background()),
    {
        let bg = self.background;
        self.image = image_from_pixel(self.side, self.side, bg);
    }
}

/// Painting sets the named cell to the ink and leaves every other cell as it
/// was, so a cell painted earlier stays painted.
pub proof fn lemma_painted_cells(cells: Seq<Rgba>, side: nat, col: int, row: int, ink: Rgba, k: int)
    requires
        cells.len() == side * side,
        0 <= k < cells.len(),
    ensures
        painted(cells, side, col, row, ink).len() == cells.len(),
        in_grid(side, col, row) && k == cell_index(side, col, row) ==> painted(
            cells,
            side,
            col,
            row,
            ink,
        )[k] == ink,
        k != cell_index(side, col, row) ==> painted(cells, side, col, row, ink)[k] == cells[k],
        cells[k] == ink ==> painted(cells, side, col, row, ink)[k] == ink,
{
    if in_grid(side, col, row) {
        lemma_index_in_bounds(side, col, row);
    }
}

/// The cells after painting each of `samples` in turn.
pub open spec fn painted_all(cells: Seq<Rgba>, side: nat, samples: Seq<(int, int)>, ink: Rgba) -> Seq<
    Rgba,
>
    decreases samples.len(),
{
    if samples.len() == 0 {
        cells
    } else {
        let prev = painted_all(cells, side, samples.drop_last(), ink);
        painted(prev, side, samples.last().0, samples.last().1, ink)
    }
}

/// Some sample names a cell of the grid stored at index `k`.
pub open spec fn sampled(side: nat, samples: Seq<(int, int)>, k: int) -> bool {
    exists|i: int|
        0 <= i < samples.len() && in_grid(side, (#[trigger] samples[i]).0, samples[i].1)
            && cell_index(side, samples[i].0, samples[i].1) == k
}

/// Painting a run of pointer samples inks exactly the sampled cells on the
/// grid: cells between samples keep their color, as nothing is interpolated.
pub proof fn lemma_painted_all(cells: Seq<Rgba>, side: nat, samples: Seq<(int, int)>, ink: Rgba, k: int)
    requires
        cells.len() == side * side,
        0 <= k < cells.len(),
    ensures
        painted_all(cells, side, samples, ink).len() == cells.len(),
        painted_all(cells, side, samples, ink)[k] == if sampled(side, samples, k) {
            ink
        } else {
            cells[k]
        },
    decreases samples.len(),
{
    if samples.len() > 0 {
        let init = samples.drop_last();
        let last = samples.last();
        lemma_painted_all(cells, side, init, ink, k);
        let prev = painted_all(cells, side, init, ink);
        lemma_painted_cells(prev, side, last.0, last.1, ink, k);
        if sampled(side, init, k) {
            let i = choose|i: int|
                0 <= i < init.len() && in_grid(side, (#[trigger] init[i]).0, init[i].1)
                    && cell_index(side, init[i].0, init[i].1) == k;
            assert(samples[i] == init[i]);
        }
        if sampled(side, samples, k) && !sampled(side, init, k) {
            let i = choose|i: int|
                0 <= i < samples.len() && in_grid(side, (#[trigger] samples[i]).0, samples[i].1)
                    && cell_index(side, samples[i].0, samples[i].1) == k;
            if i < init.len() {
                assert(init[i] == samples[i]);
            }
        }
        if in_grid(side, last.0, last.1) && cell_index(side, last.0, last.1) == k {
            assert(samples[samples.len() - 1] == last);
        }
    }
}

/// Clearing is idempotent: a grid cleared once and then again holds the
/// same cells as one cleared once. This covers `clear_grid` and a clearing
/// event of `Editor::handle_events` alike, as both leave
/// `cleared(side, background)` and neither changes the side or background.
pub proof fn lemma_clear_grid_idempotent(g: PixelGrid, once: PixelGrid, twice: PixelGrid)
    requires
        g.wf(),
        once.wf(),
        once.spec_side() == g.spec_side(),
        once.spec_background() == g.spec_background(),
        once.cells() == cleared(g.spec_side(), g.spec_background()),
        twice.cells() == cleared(once.spec_side(), once.spec_background()),
    ensures
        twice.cells() == once.cells(),
{
}

} // verus!
