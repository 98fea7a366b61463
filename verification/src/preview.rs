//! The debug visualizer's preview frame: an uncompressed 640-by-480
//! RGBA raster showing the face grid and the first fifteen isometric
//! tiles side by side. Building the frame is pure layout; writing it to
//! the shared memory region is the caller's concern and no part of the
//! transform's correctness.

use vstd::arithmetic::div_mod::lemma_fundamental_div_mod_converse_div;
use vstd::arithmetic::div_mod::lemma_fundamental_div_mod_converse_mod;
use vstd::prelude::*;

use crate::pixel::Pixel;
use crate::pixel::transparent_pixel;

verus! {

/// The preview pixel at column `col`, row `row`: the top band shows the
/// 23-by-3 face grid in 16-pixel cells, the band below it the first
/// fifteen tiles in 32-pixel cells, and everything else stays zeroed.
pub open spec fn frame_pixel(
    faces: Seq<Seq<Pixel>>,
    tiles: Seq<Seq<Pixel>>,
    col: int,
    row: int,
) -> Pixel {
    if 0 <= row < 48 && 0 <= col < 368 {
        faces[3 * (col / 16) + row / 16][(col % 16) + 16 * (row % 16)]
    } else if 48 <= row < 80 && 0 <= col < 480 {
        tiles[col / 32][(col % 32) + 32 * (row - 48)]
    } else {
        transparent_pixel()
    }
}

/// Channel `k` of a pixel, in R, G, B, A order.
pub open spec fn channel(p: Pixel, k: int) -> u8 {
    if k == 0 {
        p.r
    } else if k == 1 {
        p.g
    } else if k == 2 {
        p.b
    } else {
        p.a
    }
}

/// The whole preview frame as raw RGBA bytes, row-major.
pub open spec fn frame_spec(faces: Seq<Seq<Pixel>>, tiles: Seq<Seq<Pixel>>) -> Seq<u8> {
    Seq::new(
        1228800,
        |j: int| channel(frame_pixel(faces, tiles, (j / 4) % 640, (j / 4) / 640), j % 4),
    )
}

/// The preview pixel at one frame coordinate.
fn preview_pixel(faces: &Vec<Vec<Pixel>>, tiles: &Vec<Vec<Pixel>>, col: usize, row: usize) -> (p:
    Pixel)
    requires
        faces@.len() == 69,
        forall|f: int| 0 <= f < 69 ==> (#[trigger] faces@[f])@.len() == 256,
        tiles@.len() == 23,
        forall|t: int| 0 <= t < 23 ==> (#[trigger] tiles@[t])@.len() == 1024,
        col < 640,
        row < 480,
    ensures
        p == frame_pixel(
            faces@.map_values(|v: Vec<Pixel>| v@),
            tiles@.map_values(|v: Vec<Pixel>| v@),
            col as int,
            row as int,
        ),
{
    if row < 48 && col < 368 {
        let face = &faces[3 * (col / 16) + row / 16];
        face[(col % 16) + 16 * (row % 16)]
    } else if row >= 48 && row < 80 && col < 480 {
        let tile = &tiles[col / 32];
        tile[(col % 32) + 32 * (row - 48)]
    } else {
        Pixel::transparent()
    }
}

/// Builds the preview frame: the face grid band, the tile band below
/// it, and zeroed bytes everywhere else.
pub fn debug_frame(faces: &Vec<Vec<Pixel>>, tiles: &Vec<Vec<Pixel>>) -> (frame: Vec<u8>)
    requires
        faces@.len() == 69,
        forall|f: int| 0 <= f < 69 ==> (#[trigger] faces@[f])@.len() == 256,
        tiles@.len() == 23,
        forall|t: int| 0 <= t < 23 ==> (#[trigger] tiles@[t])@.len() == 1024,
    ensures
        frame@ == frame_spec(
            faces@.map_values(|v: Vec<Pixel>| v@),
            tiles@.map_values(|v: Vec<Pixel>| v@),
        ),
{
    let ghost face_views = faces@.map_values(|v: Vec<Pixel>| v@);
    let ghost tile_views = tiles@.map_values(|v: Vec<Pixel>| v@);
    let ghost spec = frame_spec(face_views, tile_views);
    let mut frame: Vec<u8> = Vec::new();
    let mut row: usize = 0;
    while row < 480
        invariant
            row <= 480,
            faces@.len() == 69,
            forall|f: int| 0 <= f < 69 ==> (#[trigger] faces@[f])@.len() == 256,
            tiles@.len() == 23,
            forall|t: int| 0 <= t < 23 ==> (#[trigger] tiles@[t])@.len() == 1024,
            face_views == faces@.map_values(|v: Vec<Pixel>| v@),
            tile_views == tiles@.map_values(|v: Vec<Pixel>| v@),
            spec == frame_spec(face_views, tile_views),
            frame@.len() == row * 2560,
            forall|j: int| 0 <= j < frame@.len() ==> frame@[j] == spec[j],
        decreases 480 - row,
    {
        let mut col: usize = 0;
        while col < 640
            invariant
                col <= 640,
                row < 480,
                faces@.len() == 69,
                forall|f: int| 0 <= f < 69 ==> (#[trigger] faces@[f])@.len() == 256,
                tiles@.len() == 23,
                forall|t: int| 0 <= t < 23 ==> (#[trigger] tiles@[t])@.len() == 1024,
                face_views == faces@.map_values(|v: Vec<Pixel>| v@),
                tile_views == tiles@.map_values(|v: Vec<Pixel>| v@),
                spec == frame_spec(face_views, tile_views),
                frame@.len() == row * 2560 + col * 4,
                forall|j: int| 0 <= j < frame@.len() ==> frame@[j] == spec[j],
            decreases 640 - col,
        {
            let p = preview_pixel(faces, tiles, col, row);
            let ghost base = row * 2560 + col * 4;
            proof {
                let cell = row * 640 + col;
                assert(base == cell * 4);
                assert forall|k: int| 0 <= k < 4 implies spec[base + k] == channel(
                    frame_pixel(face_views, tile_views, col as int, row as int),
                    k,
                ) by {
                    lemma_fundamental_div_mod_converse_div(cell * 4 + k, 4, cell, k);
                    lemma_fundamental_div_mod_converse_mod(cell * 4 + k, 4, cell, k);
                    lemma_fundamental_div_mod_converse_div(cell, 640, row as int, col as int);
                    lemma_fundamental_div_mod_converse_mod(cell, 640, row as int, col as int);
                }
            }
            frame.push(p.r);
            frame.push(p.g);
            frame.push(p.b);
            frame.push(p.a);
            col = col + 1;
        }
        row = row + 1;
    }
    proof {
        assert(frame@ =~= spec);
    }
    frame
}

} // verus!
