//! The isometric projector: composites a block's three square faces
//! (top, left, right) into one isometric diamond tile.
//!
//! Each face has an affine inverse map from destination canvas
//! coordinates to a sample position on the 16-by-16 source face. All
//! three maps only ever produce coordinates that are whole multiples of
//! one half, so sample positions are carried exactly in half-pixel
//! units: a position `(x2, y2)` stands for the point `(x2/2, y2/2)`.
//! A destination pixel is copied from the source face when its sample
//! position lies inside the face, flooring both coordinates; the three
//! faces are composited in the order top, left, right, later passes
//! overwriting earlier ones where their sample tests overlap.

use vstd::arithmetic::div_mod::lemma_fundamental_div_mod;
use vstd::arithmetic::div_mod::lemma_fundamental_div_mod_converse_div;
use vstd::arithmetic::div_mod::lemma_fundamental_div_mod_converse_mod;
use vstd::prelude::*;

use crate::pixel::Pixel;
use crate::pixel::transparent_pixel;

verus! {

/// A sample position in half-pixel units: `(x2, y2)` stands for the
/// point `(x2/2, y2/2)` on a source face.
#[derive(Clone, Copy, PartialEq, Eq, Structural, Debug)]
pub struct SamplePos {
    pub x2: i32,
    pub y2: i32,
}

/// Sample position on the top face for destination `(x, y)`: the
/// inverse of the diamond map, applied after lifting the destination by
/// a quarter canvas height. In pixel units it is
/// `(x / 2 - (y - 8), x / 2 + (y - 8))`.
pub open spec fn top_sample(x: int, y: int) -> (int, int) {
    (x - 2 * y + 16, x + 2 * y - 16)
}

/// Sample position on the left face for destination `(x, y)`: a shear
/// applied to the lifted destination. In pixel units it is
/// `(x, (y - 8) - x / 2)`.
pub open spec fn left_sample(x: int, y: int) -> (int, int) {
    (2 * x, 2 * y - 16 - x)
}

/// Sample position on the right face for destination `(x, y)`: a shear
/// applied to the destination recentered by half the canvas size. In
/// pixel units it is `(x - 16, (x - 16) / 2 + (y - 16))`.
pub open spec fn right_sample(x: int, y: int) -> (int, int) {
    (2 * x - 32, x + 2 * y - 48)
}

/// Whether a half-unit sample position lies inside the half-open
/// 16-by-16 source face square.
pub open spec fn spec_fits(s: (int, int)) -> bool {
    0 <= s.0 < 32 && 0 <= s.1 < 32
}

/// Flat source-face index of a fitting sample position: both
/// coordinates are floored to whole pixels.
pub open spec fn sample_index(s: (int, int)) -> int {
    s.0 / 2 + (s.1 / 2) * 16
}

/// The canvas after the top pass: destination pixels whose top sample
/// fits show the sampled top pixel, all others are transparent black.
pub open spec fn top_pixel(top: Seq<Pixel>, x: int, y: int) -> Pixel {
    if spec_fits(top_sample(x, y)) {
        top[sample_index(top_sample(x, y))]
    } else {
        transparent_pixel()
    }
}

/// The canvas after the left pass: the left face overwrites wherever
/// its own sample fits.
pub open spec fn top_left_pixel(top: Seq<Pixel>, left: Seq<Pixel>, x: int, y: int) -> Pixel {
    if spec_fits(left_sample(x, y)) {
        left[sample_index(left_sample(x, y))]
    } else {
        top_pixel(top, x, y)
    }
}

/// The finished canvas pixel at destination `(x, y)`: the right face
/// overwrites wherever its own sample fits.
pub open spec fn projected_pixel(
    top: Seq<Pixel>,
    left: Seq<Pixel>,
    right: Seq<Pixel>,
    x: int,
    y: int,
) -> Pixel {
    if spec_fits(right_sample(x, y)) {
        right[sample_index(right_sample(x, y))]
    } else {
        top_left_pixel(top, left, x, y)
    }
}

/// One finished isometric tile, flattened row-major.
pub open spec fn tile_spec(top: Seq<Pixel>, left: Seq<Pixel>, right: Seq<Pixel>) -> Seq<Pixel> {
    Seq::new(1024, |i: int| projected_pixel(top, left, right, i % 32, i / 32))
}

/// A fitting sample reads a single in-range source pixel.
pub proof fn lemma_sample_index_in_range(s: (int, int))
    requires
        spec_fits(s),
    ensures
        0 <= sample_index(s) < 256,
{
}

/// Destination cells whose sample fits lie inside the nominal 32-by-32
/// canvas, even though the passes iterate one row and one column past
/// it: at `x == 32` or `y == 32` no sample test can succeed, so the
/// over-iteration never writes out of range.
pub proof fn lemma_fit_in_canvas(x: int, y: int)
    requires
        0 <= x <= 32,
        0 <= y <= 32,
    ensures
        spec_fits(top_sample(x, y)) ==> x < 32 && 1 <= y < 32,
        spec_fits(left_sample(x, y)) ==> x < 16 && y < 32,
        spec_fits(right_sample(x, y)) ==> 16 <= x < 32 && y < 32,
{
}

/// Law: a destination pixel of a tile is non-transparent only if the
/// computed sample position of at least one of the three faces lies
/// inside the source square; each fitting sample position floors to
/// exactly one source pixel index, so no blending across source pixels
/// can occur.
pub proof fn lemma_projection_no_interpolation(
    top: Seq<Pixel>,
    left: Seq<Pixel>,
    right: Seq<Pixel>,
    x: int,
    y: int,
)
    requires
        0 <= x < 32,
        0 <= y < 32,
    ensures
        !spec_fits(top_sample(x, y)) && !spec_fits(left_sample(x, y)) && !spec_fits(
            right_sample(x, y),
        ) ==> tile_spec(top, left, right)[y * 32 + x] == transparent_pixel(),
        spec_fits(top_sample(x, y)) ==> 0 <= sample_index(top_sample(x, y)) < 256,
        spec_fits(left_sample(x, y)) ==> 0 <= sample_index(left_sample(x, y)) < 256,
        spec_fits(right_sample(x, y)) ==> 0 <= sample_index(right_sample(x, y)) < 256,
{
    lemma_fundamental_div_mod_converse_mod(y * 32 + x, 32, y, x);
    lemma_fundamental_div_mod_converse_div(y * 32 + x, 32, y, x);
    assert(tile_spec(top, left, right)[y * 32 + x] == projected_pixel(top, left, right, x, y));
}

/// Whether a half-unit sample position lies inside the square of the
/// given side length with its corner at the origin.
pub fn fits_inside_rect(v: &SamplePos, rect_size: i32) -> (r: bool)
    requires
        0 <= rect_size < 0x4000_0000,
    ensures
        r == (0 <= v.x2 < 2 * rect_size && 0 <= v.y2 < 2 * rect_size),
{
    v.x2 < 2 * rect_size && v.y2 < 2 * rect_size && v.x2 >= 0 && v.y2 >= 0
}

/// Projects one block's three faces onto a fresh isometric canvas and
/// returns it flattened row-major. Faces are composited in the order
/// top, left, right; destination pixels that no sample test accepts
/// stay fully transparent black.
pub fn transform_isometric_texture(
    top: &Vec<Pixel>,
    left: &Vec<Pixel>,
    right: &Vec<Pixel>,
) -> (out: Vec<Pixel>)
    requires
        top@.len() == 256,
        left@.len() == 256,
        right@.len() == 256,
    ensures
        out@ == tile_spec(top@, left@, right@),
{
    let mut canvas: Vec<Pixel> = Vec::new();
    let mut i: usize = 0;
    while i < 1024
        invariant
            i <= 1024,
            canvas@.len() == i,
            forall|j: int| 0 <= j < i ==> canvas@[j] == transparent_pixel(),
        decreases 1024 - i,
    {
        canvas.push(Pixel::transparent());
        i = i + 1;
    }

    // Top pass: inverse diamond map over the lifted destination.
    let mut y: usize = 0;
    while y <= 32
        invariant
            y <= 33,
            canvas@.len() == 1024,
            top@.len() == 256,
            forall|px: int, py: int|
                0 <= px < 32 && 0 <= py < 32 ==> #[trigger] canvas@[py * 32 + px] == (if py < y {
                    top_pixel(top@, px, py)
                } else {
                    transparent_pixel()
                }),
        decreases 33 - y,
    {
        let mut x: usize = 0;
        while x <= 32
            invariant
                x <= 33,
                y <= 32,
                canvas@.len() == 1024,
                top@.len() == 256,
                forall|px: int, py: int|
                    0 <= px < 32 && 0 <= py < 32 ==> #[trigger] canvas@[py * 32 + px] == (if py < y
                        || (py == y && px < x) {
                        top_pixel(top@, px, py)
                    } else {
                        transparent_pixel()
                    }),
            decreases 33 - x,
        {
            let xi = x as i32;
            let yi = y as i32;
            let pos = SamplePos { x2: xi - 2 * yi + 16, y2: xi + 2 * yi - 16 };
            if fits_inside_rect(&pos, 16) {
                proof {
                    lemma_fit_in_canvas(x as int, y as int);
                    lemma_sample_index_in_range(top_sample(x as int, y as int));
                }
                let sx = (pos.x2 as usize) / 2;
                let sy = (pos.y2 as usize) / 2;
                let idx = sx + sy * 16;
                canvas[y * 32 + x] = top[idx];
            }
            x = x + 1;
        }
        y = y + 1;
    }

    // Left pass: shear over the lifted destination.
    let mut y: usize = 0;
    while y <= 32
        invariant
            y <= 33,
            canvas@.len() == 1024,
            top@.len() == 256,
            left@.len() == 256,
            forall|px: int, py: int|
                0 <= px < 32 && 0 <= py < 32 ==> #[trigger] canvas@[py * 32 + px] == (if py < y {
                    top_left_pixel(top@, left@, px, py)
                } else {
                    top_pixel(top@, px, py)
                }),
        decreases 33 - y,
    {
        let mut x: usize = 0;
        while x <= 32
            invariant
                x <= 33,
                y <= 32,
                canvas@.len() == 1024,
                top@.len() == 256,
                left@.len() == 256,
                forall|px: int, py: int|
                    0 <= px < 32 && 0 <= py < 32 ==> #[trigger] canvas@[py * 32 + px] == (if py < y
                        || (py == y && px < x) {
                        top_left_pixel(top@, left@, px, py)
                    } else {
                        top_pixel(top@, px, py)
                    }),
            decreases 33 - x,
        {
            let xi = x as i32;
            let yi = y as i32;
            let pos = SamplePos { x2: 2 * xi, y2: 2 * yi - 16 - xi };
            if fits_inside_rect(&pos, 16) {
                proof {
                    lemma_fit_in_canvas(x as int, y as int);
                    lemma_sample_index_in_range(left_sample(x as int, y as int));
                }
                let sx = (pos.x2 as usize) / 2;
                let sy = (pos.y2 as usize) / 2;
                let idx = sx + sy * 16;
                canvas[y * 32 + x] = left[idx];
            }
            x = x + 1;
        }
        y = y + 1;
    }

    // Right pass: shear over the recentered destination.
    let mut y: usize = 0;
    while y <= 32
        invariant
            y <= 33,
            canvas@.len() == 1024,
            top@.len() == 256,
            left@.len() == 256,
            right@.len() == 256,
            forall|px: int, py: int|
                0 <= px < 32 && 0 <= py < 32 ==> #[trigger] canvas@[py * 32 + px] == (if py < y {
                    projected_pixel(top@, left@, right@, px, py)
                } else {
                    top_left_pixel(top@, left@, px, py)
                }),
        decreases 33 - y,
    {
        let mut x: usize = 0;
        while x <= 32
            invariant
                x <= 33,
                y <= 32,
                canvas@.len() == 1024,
                top@.len() == 256,
                left@.len() == 256,
                right@.len() == 256,
                forall|px: int, py: int|
                    0 <= px < 32 && 0 <= py < 32 ==> #[trigger] canvas@[py * 32 + px] == (if py < y
                        || (py == y && px < x) {
                        projected_pixel(top@, left@, right@, px, py)
                    } else {
                        top_left_pixel(top@, left@, px, py)
                    }),
            decreases 33 - x,
        {
            let xi = x as i32;
            let yi = y as i32;
            let pos = SamplePos { x2: 2 * xi - 32, y2: xi + 2 * yi - 48 };
            if fits_inside_rect(&pos, 16) {
                proof {
                    lemma_fit_in_canvas(x as int, y as int);
                    lemma_sample_index_in_range(right_sample(x as int, y as int));
                }
                let sx = (pos.x2 as usize) / 2;
                let sy = (pos.y2 as usize) / 2;
                let idx = sx + sy * 16;
                canvas[y * 32 + x] = right[idx];
            }
            x = x + 1;
        }
        y = y + 1;
    }

    proof {
        assert forall|i: int| 0 <= i < 1024 implies canvas@[i] == tile_spec(top@, left@, right@)[i]
            by {
            lemma_fundamental_div_mod(i, 32);
            let px = i % 32;
            let py = i / 32;
            assert(0 <= px < 32 && 0 <= py < 32);
            assert(canvas@[py * 32 + px] == projected_pixel(top@, left@, right@, px, py));
        }
        assert(canvas@ =~= tile_spec(top@, left@, right@));
    }
    canvas
}

/// Projects every block of the face grid: tile `b` composites faces
/// `3b` (top), `3b + 1` (left) and `3b + 2` (right). The output always
/// has exactly 23 tiles.
pub fn project_all_blocks(faces: &Vec<Vec<Pixel>>) -> (tiles: Vec<Vec<Pixel>>)
    requires
        faces@.len() == 69,
        forall|f: int| 0 <= f < 69 ==> (#[trigger] faces@[f])@.len() == 256,
    ensures
        tiles@.len() == 23,
        forall|b: int|
            0 <= b < 23 ==> (#[trigger] tiles@[b])@ == tile_spec(
                faces@[3 * b]@,
                faces@[3 * b + 1]@,
                faces@[3 * b + 2]@,
            ),
{
    let mut tiles: Vec<Vec<Pixel>> = Vec::new();
    let mut b: usize = 0;
    while b < 23
        invariant
            b <= 23,
            faces@.len() == 69,
            forall|f: int| 0 <= f < 69 ==> (#[trigger] faces@[f])@.len() == 256,
            tiles@.len() == b,
            forall|j: int|
                0 <= j < b ==> (#[trigger] tiles@[j])@ == tile_spec(
                    faces@[3 * j]@,
                    faces@[3 * j + 1]@,
                    faces@[3 * j + 2]@,
                ),
        decreases 23 - b,
    {
        let tile = transform_isometric_texture(&faces[3 * b], &faces[3 * b + 1], &faces[3 * b + 2]);
        tiles.push(tile);
        b = b + 1;
    }
    tiles
}

} // verus!
