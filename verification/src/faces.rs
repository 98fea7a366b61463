//! Slicing the normalized texture map into per-face textures.
//!
//! The source image is a grid of 23 block columns by 3 side rows of
//! 16-by-16-pixel cells. Each cell becomes one face; its pixels are
//! stored palette-canonicalized: every face pixel is the exact palette
//! entry matching the source sample.

use vstd::arithmetic::div_mod::lemma_fundamental_div_mod;
use vstd::arithmetic::div_mod::lemma_fundamental_div_mod_converse_div;
use vstd::arithmetic::div_mod::lemma_fundamental_div_mod_converse_mod;
use vstd::prelude::*;

use crate::palette::palette_lookup;
use crate::pixel::Pixel;
use crate::TextureError;

verus! {

/// Raster index into the source image of the sample shown by face `fi`
/// at local offset `li`. The face index encodes the cell as
/// `side + 3 * block`; the local offset encodes the cell pixel as
/// `x + 16 * y`.
pub open spec fn face_source_index(fi: int, li: int) -> int {
    ((fi % 3) * 16 + li / 16) * 368 + (fi / 3) * 16 + li % 16
}

/// The face grid of an image: 69 faces of 256 pixels, each pixel taken
/// from its cell of the source image.
pub open spec fn faces_spec(img: Seq<Pixel>) -> Seq<Seq<Pixel>> {
    Seq::new(69, |fi: int| Seq::new(256, |li: int| img[face_source_index(fi, li)]))
}

/// Every raster index of the source image is shown by some face cell,
/// so a scan of all face cells covers the whole image.
proof fn lemma_face_cells_cover_image(idx: int) -> (cell: (int, int))
    requires
        0 <= idx < 17664,
    ensures
        0 <= cell.0 < 69,
        0 <= cell.1 < 256,
        face_source_index(cell.0, cell.1) == idx,
{
    let col = idx / 368;
    let row = idx % 368;
    lemma_fundamental_div_mod(idx, 368);
    assert(0 <= col < 48 && 0 <= row < 368) by {
        lemma_fundamental_div_mod_converse_div(idx, 368, idx / 368, idx % 368);
    }
    let side = col / 16;
    let ly = col % 16;
    lemma_fundamental_div_mod(col, 16);
    let block = row / 16;
    let lx = row % 16;
    lemma_fundamental_div_mod(row, 16);
    let fi = side + 3 * block;
    let li = lx + 16 * ly;
    assert(fi % 3 == side && fi / 3 == block) by {
        lemma_fundamental_div_mod_converse_mod(fi, 3, block, side);
        lemma_fundamental_div_mod_converse_div(fi, 3, block, side);
    }
    assert(li % 16 == lx && li / 16 == ly) by {
        lemma_fundamental_div_mod_converse_mod(li, 16, ly, lx);
        lemma_fundamental_div_mod_converse_div(li, 16, ly, lx);
    }
    (fi, li)
}

/// The source index of every face cell lies inside the image.
proof fn lemma_face_source_index_in_range(fi: int, li: int)
    requires
        0 <= fi < 69,
        0 <= li < 256,
    ensures
        0 <= face_source_index(fi, li) < 17664,
{
    lemma_fundamental_div_mod(fi, 3);
    lemma_fundamental_div_mod_converse_mod(fi, 3, fi / 3, fi % 3);
    lemma_fundamental_div_mod(li, 16);
    lemma_fundamental_div_mod_converse_mod(li, 16, li / 16, li % 16);
    assert(0 <= fi % 3 < 3 && 0 <= fi / 3 < 23);
    assert(0 <= li % 16 < 16 && 0 <= li / 16 < 16);
}

/// Law: the face grid always has exactly 69 entries of 256 pixels, and
/// when every image pixel resolves in the palette, every face pixel is
/// exactly some palette entry — faces are built from palette membership,
/// never interpolated.
pub proof fn lemma_faces_from_palette(img: Seq<Pixel>, palette: Seq<Pixel>, fi: int, li: int)
    requires
        img.len() == 17664,
        forall|i: int| 0 <= i < img.len() ==> palette.contains(#[trigger] img[i]),
        0 <= fi < 69,
        0 <= li < 256,
    ensures
        faces_spec(img).len() == 69,
        faces_spec(img)[fi].len() == 256,
        palette.contains(faces_spec(img)[fi][li]),
{
    lemma_face_source_index_in_range(fi, li);
}

/// Slices the image into the face grid, canonicalizing every pixel
/// through an exact palette lookup. Fails if and only if some image
/// pixel has no exact palette match; the palette is built from the same
/// image, so a failure indicates a violated layout precondition.
pub fn extract_faces(img: &Vec<Pixel>, palette: &Vec<Pixel>) -> (r: Result<
    Vec<Vec<Pixel>>,
    TextureError,
>)
    requires
        img@.len() == 17664,
    ensures
        (r is Ok) <==> (forall|i: int|
            0 <= i < img@.len() ==> palette@.contains(#[trigger] img@[i])),
        (r is Err) ==> r == Err::<Vec<Vec<Pixel>>, TextureError>(TextureError::PaletteMiss),
        r matches Ok(faces) ==> faces@.len() == 69 && (forall|f: int|
            0 <= f < 69 ==> (#[trigger] faces@[f])@.len() == 256) && (forall|f: int, l: int|
            0 <= f < 69 && 0 <= l < 256 ==> #[trigger] faces@[f]@[l] == img@[face_source_index(
                f,
                l,
            )]),
{
    let mut faces: Vec<Vec<Pixel>> = Vec::new();
    let mut fi: usize = 0;
    while fi < 69
        invariant
            fi <= 69,
            img@.len() == 17664,
            faces@.len() == fi,
            forall|f: int| 0 <= f < fi ==> (#[trigger] faces@[f])@.len() == 256,
            forall|f: int, l: int|
                0 <= f < fi && 0 <= l < 256 ==> #[trigger] faces@[f]@[l] == img@[
                    face_source_index(f, l)],
            forall|f: int, l: int|
                0 <= f < fi && 0 <= l < 256 ==> palette@.contains(
                    #[trigger] img@[face_source_index(f, l)],
                ),
        decreases 69 - fi,
    {
        let mut face: Vec<Pixel> = Vec::new();
        let mut li: usize = 0;
        while li < 256
            invariant
                fi < 69,
                li <= 256,
                img@.len() == 17664,
                face@.len() == li,
                forall|l: int|
                    0 <= l < li ==> #[trigger] face@[l] == img@[face_source_index(fi as int, l)],
                forall|l: int|
                    0 <= l < li ==> palette@.contains(
                        #[trigger] img@[face_source_index(fi as int, l)],
                    ),
            decreases 256 - li,
        {
            let block = fi / 3;
            let side = fi % 3;
            let lx = li % 16;
            let ly = li / 16;
            let row = block * 16 + lx;
            let col = side * 16 + ly;
            let idx = col * 368 + row;
            proof {
                lemma_face_source_index_in_range(fi as int, li as int);
                assert(idx == face_source_index(fi as int, li as int));
            }
            let sample = img[idx];
            match palette_lookup(palette, sample) {
                Some(entry) => {
                    face.push(entry);
                },
                None => {
                    proof {
                        assert(!palette@.contains(img@[face_source_index(fi as int, li as int)]));
                    }
                    return Err(TextureError::PaletteMiss);
                },
            }
            li = li + 1;
        }
        faces.push(face);
        fi = fi + 1;
    }
    proof {
        assert forall|i: int| 0 <= i < img@.len() implies palette@.contains(
            #[trigger] img@[i],
        ) by {
            let cell = lemma_face_cells_cover_image(i);
            assert(palette@.contains(img@[face_source_index(cell.0, cell.1)]));
        }
    }
    Ok(faces)
}

} // verus!
