//! The conversion run: one value object owning the image, the palette,
//! the face grid and the finished tiles, with a construct, run-once,
//! discard lifecycle.

use vstd::prelude::*;

use crate::emit::artifact_text;
use crate::emit::render_texture_source;
use crate::faces::extract_faces;
use crate::faces::face_source_index;
use crate::faces::faces_spec;
use crate::iso::project_all_blocks;
use crate::iso::tile_spec;
use crate::palette::build_palette;
use crate::palette::distinct_colors;
use crate::palette::lemma_distinct_colors_contains;
use crate::palette::normalized_image;
use crate::palette::palette_spec;
use crate::pixel::Pixel;
use crate::pixel::placeholder_pixel;
use crate::preview::debug_frame;
use crate::preview::frame_spec;
use crate::TextureError;

verus! {

/// The face grid the pipeline derives from a raw image: the image is
/// normalized first, then sliced.
pub open spec fn pipeline_faces(raw: Seq<Pixel>) -> Seq<Seq<Pixel>> {
    faces_spec(normalized_image(raw))
}

/// The 23 isometric tiles the pipeline derives from a raw image.
pub open spec fn pipeline_tiles(raw: Seq<Pixel>) -> Seq<Seq<Pixel>> {
    Seq::new(
        23,
        |b: int|
            tile_spec(
                pipeline_faces(raw)[3 * b],
                pipeline_faces(raw)[3 * b + 1],
                pipeline_faces(raw)[3 * b + 2],
            ),
    )
}

/// The generated source text the pipeline derives from a raw image.
pub open spec fn pipeline_text(raw: Seq<Pixel>) -> Seq<u8> {
    artifact_text(pipeline_tiles(raw))
}

/// Law: the whole pipeline is a pure function of the raw image pixels,
/// so running it twice over byte-identical input yields byte-identical
/// output text.
pub proof fn lemma_pipeline_deterministic(raw1: Seq<Pixel>, raw2: Seq<Pixel>)
    requires
        raw1 == raw2,
    ensures
        pipeline_text(raw1) == pipeline_text(raw2),
{
}

/// One conversion run over one decoded texture-map image.
pub struct TextureConverter {
    /// The source image, 368 by 48 pixels in raster order.
    pub img: Vec<Pixel>,
    /// The palette, empty until `fill_palette` runs.
    pub palette: Vec<Pixel>,
    /// The 69 per-face textures of 256 pixels each.
    pub unmodified_texture: Vec<Vec<Pixel>>,
    /// The 23 isometric tiles of 1024 pixels each.
    pub isometric_texture: Vec<Vec<Pixel>>,
}

impl TextureConverter {
    /// The shape every converter keeps: a full-size image, 69 faces of
    /// 256 pixels, and 23 tiles of 1024 pixels.
    pub open spec fn wf(self) -> bool {
        &&& self.img@.len() == 17664
        &&& self.unmodified_texture@.len() == 69
        &&& (forall|f: int|
            0 <= f < 69 ==> (#[trigger] self.unmodified_texture@[f])@.len() == 256)
        &&& self.isometric_texture@.len() == 23
        &&& (forall|t: int|
            0 <= t < 23 ==> (#[trigger] self.isometric_texture@[t])@.len() == 1024)
    }

    /// A fresh converter over a decoded image of the fixed 368-by-48
    /// layout, with an empty palette and placeholder faces and tiles.
    /// Decoding the image file, and rejecting one of the wrong size,
    /// happen before this.
    pub fn new(img: Vec<Pixel>) -> (s: Self)
        requires
            img@.len() == 17664,
        ensures
            s.wf(),
            s.img == img,
            s.palette@ == Seq::<Pixel>::empty(),
            forall|f: int, l: int|
                0 <= f < 69 && 0 <= l < 256 ==> #[trigger] s.unmodified_texture@[f]@[l]
                    == placeholder_pixel(),
            forall|t: int, i: int|
                0 <= t < 23 && 0 <= i < 1024 ==> #[trigger] s.isometric_texture@[t]@[i]
                    == placeholder_pixel(),
    {
        let mut unmodified_texture: Vec<Vec<Pixel>> = Vec::new();
        let mut f: usize = 0;
        while f < 69
            invariant
                f <= 69,
                unmodified_texture@.len() == f,
                forall|j: int|
                    0 <= j < f ==> (#[trigger] unmodified_texture@[j])@.len() == 256,
                forall|j: int, l: int|
                    0 <= j < f && 0 <= l < 256 ==> #[trigger] unmodified_texture@[j]@[l]
                        == placeholder_pixel(),
            decreases 69 - f,
        {
            let mut face: Vec<Pixel> = Vec::new();
            let mut l: usize = 0;
            while l < 256
                invariant
                    l <= 256,
                    face@.len() == l,
                    forall|k: int| 0 <= k < l ==> #[trigger] face@[k] == placeholder_pixel(),
                decreases 256 - l,
            {
                face.push(Pixel::placeholder());
                l = l + 1;
            }
            unmodified_texture.push(face);
            f = f + 1;
        }
        let mut isometric_texture: Vec<Vec<Pixel>> = Vec::new();
        let mut t: usize = 0;
        while t < 23
            invariant
                t <= 23,
                isometric_texture@.len() == t,
                forall|j: int|
                    0 <= j < t ==> (#[trigger] isometric_texture@[j])@.len() == 1024,
                forall|j: int, i: int|
                    0 <= j < t && 0 <= i < 1024 ==> #[trigger] isometric_texture@[j]@[i]
                        == placeholder_pixel(),
            decreases 23 - t,
        {
            let mut tile: Vec<Pixel> = Vec::new();
            let mut i: usize = 0;
            while i < 1024
                invariant
                    i <= 1024,
                    tile@.len() == i,
                    forall|k: int| 0 <= k < i ==> #[trigger] tile@[k] == placeholder_pixel(),
                decreases 1024 - i,
            {
                tile.push(Pixel::placeholder());
                i = i + 1;
            }
            isometric_texture.push(tile);
            t = t + 1;
        }
        TextureConverter { img, palette: Vec::new(), unmodified_texture, isometric_texture }
    }

    /// Forces every fully transparent image pixel to transparent black,
    /// in place; everything else is untouched.
    pub fn normalize_transparent_pixels(&mut self)
        ensures
            final(self).img@ == normalized_image(old(self).img@),
            final(self).palette == old(self).palette,
            final(self).unmodified_texture == old(self).unmodified_texture,
            final(self).isometric_texture == old(self).isometric_texture,
    {
        crate::palette::normalize_transparent_pixels(&mut self.img);
    }

    /// Builds the palette from the held image: its distinct colors in
    /// first-seen raster order, doubled by the water pass, then doubled
    /// again by the shadow pass.
    pub fn fill_palette(&mut self)
        requires
            old(self).palette@.len() == 0,
        ensures
            final(self).palette@ == palette_spec(old(self).img@),
            final(self).img == old(self).img,
            final(self).unmodified_texture == old(self).unmodified_texture,
            final(self).isometric_texture == old(self).isometric_texture,
    {
        self.palette = build_palette(&self.img);
    }

    /// Slices the held image into the 69-face grid, canonicalizing
    /// every pixel through an exact palette lookup. Fails, leaving the
    /// converter untouched, if and only if some image pixel has no
    /// palette match.
    pub fn set_unmodified_texture_source(&mut self) -> (r: Result<(), TextureError>)
        requires
            old(self).wf(),
        ensures
            final(self).wf(),
            final(self).img == old(self).img,
            final(self).palette == old(self).palette,
            final(self).isometric_texture == old(self).isometric_texture,
            (r is Ok) <==> (forall|i: int|
                0 <= i < old(self).img@.len() ==> old(self).palette@.contains(
                    #[trigger] old(self).img@[i],
                )),
            r is Err ==> r == Err::<(), TextureError>(TextureError::PaletteMiss) && *final(self)
                == *old(self),
            r is Ok ==> forall|f: int, l: int|
                0 <= f < 69 && 0 <= l < 256 ==> #[trigger] final(self).unmodified_texture@[f]@[l]
                    == final(self).img@[face_source_index(f, l)],
    {
        match extract_faces(&self.img, &self.palette) {
            Ok(faces) => {
                self.unmodified_texture = faces;
                Ok(())
            },
            Err(e) => Err(e),
        }
    }

    /// Projects every block of the face grid into its isometric tile.
    pub fn set_isometric_texture_source(&mut self)
        requires
            old(self).wf(),
        ensures
            final(self).wf(),
            final(self).img == old(self).img,
            final(self).palette == old(self).palette,
            final(self).unmodified_texture == old(self).unmodified_texture,
            forall|b: int|
                0 <= b < 23 ==> (#[trigger] final(self).isometric_texture@[b])@ == tile_spec(
                    old(self).unmodified_texture@[3 * b]@,
                    old(self).unmodified_texture@[3 * b + 1]@,
                    old(self).unmodified_texture@[3 * b + 2]@,
                ),
    {
        self.isometric_texture = project_all_blocks(&self.unmodified_texture);
    }

    /// Serializes the held tiles as the generated source constant.
    pub fn render_textures(&self) -> (text: Vec<u8>)
        ensures
            text@ == artifact_text(self.isometric_texture@.map_values(|t: Vec<Pixel>| t@)),
    {
        render_texture_source(&self.isometric_texture)
    }

    /// Builds the debug preview frame over the held faces and tiles;
    /// writing it to the shared memory region is the caller's concern.
    pub fn debug_draw(&self) -> (frame: Vec<u8>)
        requires
            self.wf(),
        ensures
            frame@ == frame_spec(
                self.unmodified_texture@.map_values(|v: Vec<Pixel>| v@),
                self.isometric_texture@.map_values(|v: Vec<Pixel>| v@),
            ),
    {
        debug_frame(&self.unmodified_texture, &self.isometric_texture)
    }

    /// Runs the whole conversion in order — normalization, palette,
    /// face extraction, isometric projection — and returns the
    /// generated source text. The palette is built from the very image
    /// the faces are then looked up in, so the lookup that would
    /// otherwise fail the run provably succeeds.
    pub fn generate_rust_texture_source(&mut self) -> (text: Vec<u8>)
        requires
            old(self).wf(),
            old(self).palette@.len() == 0,
        ensures
            final(self).wf(),
            final(self).img@ == normalized_image(old(self).img@),
            final(self).palette@ == palette_spec(normalized_image(old(self).img@)),
            forall|f: int|
                0 <= f < 69 ==> (#[trigger] final(self).unmodified_texture@[f])@ == pipeline_faces(
                    old(self).img@,
                )[f],
            forall|b: int|
                0 <= b < 23 ==> (#[trigger] final(self).isometric_texture@[b])@ == pipeline_tiles(
                    old(self).img@,
                )[b],
            text@ == pipeline_text(old(self).img@),
    {
        let ghost raw = self.img@;
        self.normalize_transparent_pixels();
        self.fill_palette();
        proof {
            let norm = normalized_image(raw);
            let u = distinct_colors(norm);
            assert forall|i: int| 0 <= i < self.img@.len() implies self.palette@.contains(
                #[trigger] self.img@[i],
            ) by {
                lemma_distinct_colors_contains(norm, norm[i]);
                assert(norm.contains(norm[i]));
                let j = choose|j: int| 0 <= j < u.len() && u[j] == norm[i];
                assert(self.palette@[j] == u[j]);
            }
        }
        let r = self.set_unmodified_texture_source();
        match r {
            Ok(()) => {},
            Err(_) => {
                proof {
                    assert(false);
                }
            },
        }
        proof {
            assert forall|f: int| 0 <= f < 69 implies (#[trigger] self.unmodified_texture@[f])@
                == pipeline_faces(raw)[f] by {
                assert(self.unmodified_texture@[f]@ =~= pipeline_faces(raw)[f]);
            }
        }
        self.set_isometric_texture_source();
        proof {
            assert forall|b: int| 0 <= b < 23 implies (#[trigger] self.isometric_texture@[b])@
                == pipeline_tiles(raw)[b] by {
                assert(pipeline_faces(raw)[3 * b] == self.unmodified_texture@[3 * b]@);
                assert(pipeline_faces(raw)[3 * b + 1] == self.unmodified_texture@[3 * b + 1]@);
                assert(pipeline_faces(raw)[3 * b + 2] == self.unmodified_texture@[3 * b + 2]@);
            }
        }
        let text = self.render_textures();
        proof {
            assert(self.isometric_texture@.map_values(|t: Vec<Pixel>| t@) =~= pipeline_tiles(raw));
        }
        text
    }
}

} // verus!
