//! The artifact emitter: serializes the 23 isometric tiles as a
//! generated source constant.
//!
//! The output text is a single constant declaration: a fixed-size array
//! of 23 fixed-size arrays of four-element byte tuples, one tuple per
//! pixel, channel values written as decimal ASCII integers. The text is
//! produced as plain bytes; writing them to the destination file is the
//! caller's concern.

use vstd::prelude::*;

use crate::pixel::Pixel;

verus! {

/// The ASCII digit for a value in `[0, 10)`.
pub open spec fn digit(d: int) -> u8 {
    (48 + d) as u8
}

/// The decimal ASCII digits of a channel value, without leading zeros.
pub open spec fn decimal_bytes(n: int) -> Seq<u8> {
    if n < 10 {
        seq![digit(n)]
    } else if n < 100 {
        seq![digit(n / 10), digit(n % 10)]
    } else {
        seq![digit(n / 100), digit((n / 10) % 10), digit(n % 10)]
    }
}

/// The text of one pixel: its four channels in brackets, `[r, g, b, a],`.
pub open spec fn pixel_text(p: Pixel) -> Seq<u8> {
    seq![91u8] + decimal_bytes(p.r as int) + seq![44u8, 32u8] + decimal_bytes(p.g as int) + seq![
        44u8,
        32u8,
    ] + decimal_bytes(p.b as int) + seq![44u8, 32u8] + decimal_bytes(p.a as int) + seq![93u8, 44u8]
}

/// The concatenated text of a run of pixels.
pub open spec fn pixels_text(pixels: Seq<Pixel>) -> Seq<u8>
    decreases pixels.len(),
{
    if pixels.len() == 0 {
        Seq::empty()
    } else {
        pixels_text(pixels.drop_last()) + pixel_text(pixels.last())
    }
}

/// The text of one tile: its pixels bracketed as one inner array.
pub open spec fn tile_text(tile: Seq<Pixel>) -> Seq<u8> {
    seq![91u8, 10u8] + pixels_text(tile) + seq![93u8, 44u8, 10u8]
}

/// The concatenated text of a run of tiles.
pub open spec fn tiles_text(tiles: Seq<Seq<Pixel>>) -> Seq<u8>
    decreases tiles.len(),
{
    if tiles.len() == 0 {
        Seq::empty()
    } else {
        tiles_text(tiles.drop_last()) + tile_text(tiles.last())
    }
}

/// The opening of the constant declaration:
/// `pub const TEXTURES: [[[u8; 4]; 1024]; 23] = [` and a newline.
pub open spec fn header_text() -> Seq<u8> {
    seq![
        112u8, 117u8, 98u8, 32u8, 99u8, 111u8, 110u8, 115u8, 116u8, 32u8, 84u8, 69u8, 88u8, 84u8,
        85u8, 82u8, 69u8, 83u8, 58u8, 32u8, 91u8, 91u8, 91u8, 117u8, 56u8, 59u8, 32u8, 52u8, 93u8,
        59u8, 32u8, 49u8, 48u8, 50u8, 52u8, 93u8, 59u8, 32u8, 50u8, 51u8, 93u8, 32u8, 61u8, 32u8,
        91u8, 10u8,
    ]
}

/// The whole generated source text: header, the text of every tile in
/// order, and the closing `];`.
pub open spec fn artifact_text(tiles: Seq<Seq<Pixel>>) -> Seq<u8> {
    header_text() + tiles_text(tiles) + seq![93u8, 59u8]
}

/// Appends the bytes of `s` to `out`.
fn append_bytes(out: &mut Vec<u8>, s: &[u8])
    ensures
        final(out)@ == old(out)@ + s@,
{
    let mut i: usize = 0;
    while i < s.len()
        invariant
            i <= s@.len(),
            out@ == old(out)@ + s@.take(i as int),
        decreases s@.len() - i,
    {
        let b = s[i];
        out.push(b);
        proof {
            assert(old(out)@ + s@.take(i + 1) =~= (old(out)@ + s@.take(i as int)).push(s@[i as int]));
        }
        i = i + 1;
    }
    proof {
        assert(s@.take(s@.len() as int) =~= s@);
    }
}

/// Appends the decimal digits of one channel value.
fn append_decimal(out: &mut Vec<u8>, n: u8)
    ensures
        final(out)@ == old(out)@ + decimal_bytes(n as int),
{
    if n < 10 {
        out.push(48 + n);
        proof {
            assert(out@ =~= old(out)@ + decimal_bytes(n as int));
        }
    } else if n < 100 {
        out.push(48 + n / 10);
        out.push(48 + n % 10);
        proof {
            assert(out@ =~= old(out)@ + decimal_bytes(n as int));
        }
    } else {
        out.push(48 + n / 100);
        out.push(48 + (n / 10) % 10);
        out.push(48 + n % 10);
        proof {
            assert(out@ =~= old(out)@ + decimal_bytes(n as int));
        }
    }
}

/// Appends the text of one pixel.
fn append_pixel(out: &mut Vec<u8>, p: Pixel)
    ensures
        final(out)@ == old(out)@ + pixel_text(p),
{
    out.push(91);
    append_decimal(out, p.r);
    out.push(44);
    out.push(32);
    append_decimal(out, p.g);
    out.push(44);
    out.push(32);
    append_decimal(out, p.b);
    out.push(44);
    out.push(32);
    append_decimal(out, p.a);
    out.push(93);
    out.push(44);
    proof {
        assert(out@ =~= old(out)@ + pixel_text(p));
    }
}

/// Serializes the tiles as the full generated source text, byte for
/// byte the constant declaration described at the top of this module.
pub fn render_texture_source(tiles: &Vec<Vec<Pixel>>) -> (text: Vec<u8>)
    ensures
        text@ == artifact_text(tiles@.map_values(|t: Vec<Pixel>| t@)),
{
    let ghost views = tiles@.map_values(|t: Vec<Pixel>| t@);
    let mut out: Vec<u8> = Vec::new();
    let header: [u8; 46] = [
        112, 117, 98, 32, 99, 111, 110, 115, 116, 32, 84, 69, 88, 84, 85, 82, 69, 83, 58, 32, 91,
        91, 91, 117, 56, 59, 32, 52, 93, 59, 32, 49, 48, 50, 52, 93, 59, 32, 50, 51, 93, 32, 61,
        32, 91, 10,
    ];
    append_bytes(&mut out, &header);
    proof {
        assert(out@ =~= header_text());
    }
    let mut ti: usize = 0;
    while ti < tiles.len()
        invariant
            ti <= tiles@.len(),
            views == tiles@.map_values(|t: Vec<Pixel>| t@),
            out@ == header_text() + tiles_text(views.take(ti as int)),
        decreases tiles@.len() - ti,
    {
        let open_bracket: [u8; 2] = [91, 10];
        append_bytes(&mut out, &open_bracket);
        proof {
            assert(open_bracket@ =~= seq![91u8, 10u8]);
        }
        let ghost tile_view = views[ti as int];
        let tile = &tiles[ti];
        let mut pi: usize = 0;
        while pi < tile.len()
            invariant
                pi <= tile@.len(),
                tile@ == tile_view,
                out@ == header_text() + tiles_text(views.take(ti as int)) + seq![91u8, 10u8]
                    + pixels_text(tile_view.take(pi as int)),
            decreases tile@.len() - pi,
        {
            let p = tile[pi];
            append_pixel(&mut out, p);
            proof {
                assert(tile_view.take(pi + 1).drop_last() =~= tile_view.take(pi as int));
                assert(tile_view.take(pi + 1).last() == tile_view[pi as int]);
            }
            pi = pi + 1;
        }
        proof {
            assert(tile_view.take(tile_view.len() as int) =~= tile_view);
        }
        let close_bracket: [u8; 3] = [93, 44, 10];
        append_bytes(&mut out, &close_bracket);
        proof {
            assert(views.take(ti + 1).drop_last() =~= views.take(ti as int));
            assert(views.take(ti + 1).last() == views[ti as int]);
            assert(out@ =~= header_text() + tiles_text(views.take(ti + 1)));
        }
        ti = ti + 1;
    }
    out.push(93);
    out.push(59);
    proof {
        assert(views.take(views.len() as int) =~= views);
        assert(out@ =~= artifact_text(views));
    }
    out
}

} // verus!
