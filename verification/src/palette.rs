//! Transparent-pixel normalization and palette construction.
//!
//! The palette is the ordered sequence of distinct colors of the
//! normalized image, in first-seen raster order, doubled twice: first a
//! "water" variant of every collected color is appended, then a "shadow"
//! variant of every entry of that extended snapshot, yielding four times
//! the distinct color count.

use vstd::prelude::*;

use crate::pixel::Pixel;

verus! {

/// Half of a channel value, by truncating integer division.
pub open spec fn half(c: u8) -> u8 {
    ((c as int) / 2) as u8
}

/// What normalization does to one pixel: a fully transparent pixel
/// collapses to transparent black, every other pixel is kept.
pub open spec fn normalized_pixel(p: Pixel) -> Pixel {
    if p.a == 0 {
        Pixel { r: 0, g: 0, b: 0, a: p.a }
    } else {
        p
    }
}

/// The normalized image: every pixel normalized, positions unchanged.
pub open spec fn normalized_image(s: Seq<Pixel>) -> Seq<Pixel> {
    s.map(|i: int, p: Pixel| normalized_pixel(p))
}

/// The water variant of a color: red and green halved, blue forced to
/// 127, alpha unchanged.
pub open spec fn water_variant(p: Pixel) -> Pixel {
    Pixel { r: half(p.r), g: half(p.g), b: 127, a: p.a }
}

/// The shadow variant of a color: red, green and blue halved, alpha
/// unchanged.
pub open spec fn shadow_variant(p: Pixel) -> Pixel {
    Pixel { r: half(p.r), g: half(p.g), b: half(p.b), a: p.a }
}

/// The distinct colors of `s`, each kept once, in first-seen order.
pub open spec fn distinct_colors(s: Seq<Pixel>) -> Seq<Pixel>
    decreases s.len(),
{
    if s.len() == 0 {
        Seq::empty()
    } else {
        let prefix = distinct_colors(s.drop_last());
        if prefix.contains(s.last()) {
            prefix
        } else {
            prefix.push(s.last())
        }
    }
}

/// A snapshot followed by the water variant of each of its entries.
pub open spec fn water_extended(u: Seq<Pixel>) -> Seq<Pixel> {
    u + u.map(|i: int, p: Pixel| water_variant(p))
}

/// A snapshot followed by the shadow variant of each of its entries.
pub open spec fn shadow_extended(u: Seq<Pixel>) -> Seq<Pixel> {
    u + u.map(|i: int, p: Pixel| shadow_variant(p))
}

/// The full palette of an image: its distinct colors, doubled by the
/// water pass, then doubled again by the shadow pass.
pub open spec fn palette_spec(img: Seq<Pixel>) -> Seq<Pixel> {
    shadow_extended(water_extended(distinct_colors(img)))
}

/// A sequence of colors and its distinct subsequence hold the same colors.
pub proof fn lemma_distinct_colors_contains(s: Seq<Pixel>, p: Pixel)
    ensures
        distinct_colors(s).contains(p) <==> s.contains(p),
    decreases s.len(),
{
    if s.len() > 0 {
        lemma_distinct_colors_contains(s.drop_last(), p);
        assert(s.contains(p) <==> (s.drop_last().contains(p) || s.last() == p)) by {
            if s.contains(p) {
                let i = choose|i: int| 0 <= i < s.len() && s[i] == p;
                if i < s.len() - 1 {
                    assert(s.drop_last()[i] == p);
                }
            }
            if s.drop_last().contains(p) {
                let i = choose|i: int| 0 <= i < s.drop_last().len() && s.drop_last()[i] == p;
                assert(s[i] == p);
            }
            if s.last() == p {
                assert(s[s.len() - 1] == p);
            }
        }
        let prefix = distinct_colors(s.drop_last());
        if !prefix.contains(s.last()) {
            assert(prefix.push(s.last()).contains(p) <==> (prefix.contains(p) || s.last() == p))
                by {
                if prefix.contains(p) {
                    let i = choose|i: int| 0 <= i < prefix.len() && prefix[i] == p;
                    assert(prefix.push(s.last())[i] == p);
                }
                if s.last() == p {
                    assert(prefix.push(s.last())[prefix.len() as int] == p);
                }
                if prefix.push(s.last()).contains(p) {
                    let i = choose|i: int|
                        0 <= i < prefix.push(s.last()).len() && prefix.push(s.last())[i] == p;
                    if i < prefix.len() {
                        assert(prefix[i] == p);
                    }
                }
            }
        }
    }
}

/// The distinct subsequence holds no color twice.
pub proof fn lemma_distinct_colors_no_duplicates(s: Seq<Pixel>)
    ensures
        distinct_colors(s).no_duplicates(),
    decreases s.len(),
{
    if s.len() > 0 {
        lemma_distinct_colors_no_duplicates(s.drop_last());
        let prefix = distinct_colors(s.drop_last());
        if !prefix.contains(s.last()) {
            assert forall|i: int, j: int|
                0 <= i < prefix.push(s.last()).len() && 0 <= j < prefix.push(s.last()).len() && i
                    != j implies prefix.push(s.last())[i] != prefix.push(s.last())[j] by {
                if i < prefix.len() && j < prefix.len() {
                } else if i == prefix.len() {
                    assert(prefix.contains(prefix[j]));
                } else if j == prefix.len() {
                    assert(prefix.contains(prefix[i]));
                }
            }
        }
    }
}

/// Law: the palette holds exactly four entries for each distinct color
/// of the image: the color itself, its water variant, and the shadow
/// variants of both.
pub proof fn lemma_palette_size(img: Seq<Pixel>)
    ensures
        palette_spec(img).len() == 4 * img.to_set().len(),
{
    let u = distinct_colors(img);
    lemma_distinct_colors_no_duplicates(img);
    u.unique_seq_to_set();
    assert(u.to_set() =~= img.to_set()) by {
        assert forall|p: Pixel| u.to_set().contains(p) <==> img.to_set().contains(p) by {
            lemma_distinct_colors_contains(img, p);
        }
    }
}

/// Law: for every index `i` below the distinct color count `U`, the
/// palette entry at `U + i` is the water variant of the entry at `i`:
/// red and green halved, blue set to 127, alpha unchanged.
pub proof fn lemma_water_entries(img: Seq<Pixel>, i: int)
    requires
        0 <= i < distinct_colors(img).len(),
    ensures
        palette_spec(img)[distinct_colors(img).len() + i] == water_variant(palette_spec(img)[i]),
{
}

/// Law: for every index `j` below twice the distinct color count `U`
/// (covering both the original and the water group), the palette entry
/// at `2U + j` is the shadow variant of the entry at `j`: red, green and
/// blue halved, alpha unchanged.
pub proof fn lemma_shadow_entries(img: Seq<Pixel>, j: int)
    requires
        0 <= j < 2 * distinct_colors(img).len(),
    ensures
        palette_spec(img)[2 * distinct_colors(img).len() + j] == shadow_variant(
            palette_spec(img)[j],
        ),
{
}

/// Forces every fully transparent pixel of the image to transparent
/// black; alpha channels and all other pixels are unchanged.
pub fn normalize_transparent_pixels(img: &mut Vec<Pixel>)
    ensures
        final(img)@ == normalized_image(old(img)@),
{
    let mut i: usize = 0;
    while i < img.len()
        invariant
            i <= img@.len(),
            img@.len() == old(img)@.len(),
            forall|j: int| 0 <= j < i ==> img@[j] == normalized_pixel(old(img)@[j]),
            forall|j: int| i <= j < img@.len() ==> img@[j] == old(img)@[j],
        decreases img@.len() - i,
    {
        let p = img[i];
        if p.a == 0 {
            img[i] = Pixel { r: 0, g: 0, b: 0, a: p.a };
        }
        i = i + 1;
    }
    proof {
        assert(img@ =~= normalized_image(old(img)@));
    }
}

/// Whether the palette already holds the color `p`.
pub fn palette_contains(palette: &Vec<Pixel>, p: Pixel) -> (r: bool)
    ensures
        r == palette@.contains(p),
{
    let mut i: usize = 0;
    while i < palette.len()
        invariant
            i <= palette@.len(),
            forall|j: int| 0 <= j < i ==> palette@[j] != p,
        decreases palette@.len() - i,
    {
        if palette[i] == p {
            return true;
        }
        i = i + 1;
    }
    false
}

/// The first palette entry that matches `p` exactly, if any; an exact
/// match is channel-wise equal to `p`, so the looked-up entry is the
/// canonical value `p` itself.
pub fn palette_lookup(palette: &Vec<Pixel>, p: Pixel) -> (r: Option<Pixel>)
    ensures
        r == (if palette@.contains(p) {
            Some(p)
        } else {
            None::<Pixel>
        }),
{
    let mut i: usize = 0;
    while i < palette.len()
        invariant
            i <= palette@.len(),
            forall|j: int| 0 <= j < i ==> palette@[j] != p,
        decreases palette@.len() - i,
    {
        let entry = palette[i];
        if entry == p {
            return Some(entry);
        }
        i = i + 1;
    }
    None
}

/// Law: normalization leaves every alpha channel unchanged and forces
/// the color channels of every fully transparent pixel to zero.
pub proof fn lemma_normalization_clears_transparent(s: Seq<Pixel>, i: int)
    requires
        0 <= i < s.len(),
    ensures
        normalized_image(s)[i].a == s[i].a,
        s[i].a == 0 ==> normalized_image(s)[i] == (Pixel { r: 0, g: 0, b: 0, a: s[i].a }),
{
}

/// Builds the full palette of the image: distinct colors in first-seen
/// order, then the water variants of all of them, then the shadow
/// variants of that whole extended snapshot.
pub fn build_palette(img: &Vec<Pixel>) -> (palette: Vec<Pixel>)
    ensures
        palette@ == palette_spec(img@),
{
    let ghost s = img@;
    let mut palette: Vec<Pixel> = Vec::new();
    let mut i: usize = 0;
    while i < img.len()
        invariant
            i <= s.len(),
            img@ == s,
            palette@ == distinct_colors(s.take(i as int)),
        decreases s.len() - i,
    {
        let p = img[i];
        proof {
            assert(s.take(i + 1).drop_last() =~= s.take(i as int));
            assert(s.take(i + 1).last() == s[i as int]);
        }
        if !palette_contains(&palette, p) {
            palette.push(p);
        }
        i = i + 1;
    }
    proof {
        assert(s.take(s.len() as int) =~= s);
    }
    let ghost base = palette@;

    // Water pass: append a water variant of every color collected so far.
    let snapshot_len = palette.len();
    let mut i: usize = 0;
    while i < snapshot_len
        invariant
            i <= snapshot_len,
            snapshot_len == base.len(),
            palette@.len() == base.len() + i,
            forall|j: int| 0 <= j < base.len() ==> palette@[j] == base[j],
            forall|j: int| 0 <= j < i ==> palette@[base.len() + j] == water_variant(base[j]),
        decreases snapshot_len - i,
    {
        let c = palette[i];
        palette.push(Pixel { r: c.r / 2, g: c.g / 2, b: 255 / 2, a: c.a });
        i = i + 1;
    }
    proof {
        assert(palette@ =~= water_extended(base));
    }
    let ghost watered = palette@;

    // Shadow pass: append a shadow variant of every entry of the
    // post-water snapshot, water variants included.
    let snapshot_len = palette.len();
    let mut i: usize = 0;
    while i < snapshot_len
        invariant
            i <= snapshot_len,
            snapshot_len == watered.len(),
            palette@.len() == watered.len() + i,
            forall|j: int| 0 <= j < watered.len() ==> palette@[j] == watered[j],
            forall|j: int| 0 <= j < i ==> palette@[watered.len() + j] == shadow_variant(watered[j]),
        decreases snapshot_len - i,
    {
        let c = palette[i];
        palette.push(Pixel { r: c.r / 2, g: c.g / 2, b: c.b / 2, a: c.a });
        i = i + 1;
    }
    proof {
        assert(palette@ =~= shadow_extended(watered));
    }
    palette
}

} // verus!
