//! End-to-end and component tests for the texture conversion pipeline.

use texture_converter::converter::TextureConverter;
use texture_converter::emit::render_texture_source;
use texture_converter::faces::extract_faces;
use texture_converter::iso::fits_inside_rect;
use texture_converter::iso::transform_isometric_texture;
use texture_converter::iso::SamplePos;
use texture_converter::palette::build_palette;
use texture_converter::palette::normalize_transparent_pixels;
use texture_converter::pixel::Pixel;
use texture_converter::TextureError;

fn px(r: u8, g: u8, b: u8, a: u8) -> Pixel {
    Pixel { r, g, b, a }
}

/// A full-size 368-by-48 image whose pixel at raster index `i` is
/// chosen from a small fixed set of colors, with some fully transparent
/// pixels of varying colors mixed in.
fn sample_image() -> Vec<Pixel> {
    let mut img = Vec::new();
    for i in 0..(368 * 48usize) {
        let p = match i % 5 {
            0 => px(200, 10, 20, 255),
            1 => px(0, 120, 0, 255),
            2 => px(30, 40, 50, 128),
            3 => px(7, 8, 9, 0),
            _ => px(250, 250, 250, 0),
        };
        img.push(p);
    }
    img
}

#[test]
fn normalization_clears_transparent_pixels() {
    let mut img = vec![px(10, 20, 30, 0), px(10, 20, 30, 255), px(0, 0, 0, 0), px(1, 2, 3, 7)];
    normalize_transparent_pixels(&mut img);
    assert_eq!(img[0], px(0, 0, 0, 0));
    assert_eq!(img[1], px(10, 20, 30, 255));
    assert_eq!(img[2], px(0, 0, 0, 0));
    assert_eq!(img[3], px(1, 2, 3, 7));
}

#[test]
fn palette_of_empty_image_is_empty() {
    let palette = build_palette(&Vec::new());
    assert_eq!(palette.len(), 0);
}

#[test]
fn palette_size_is_four_times_distinct_count() {
    let img = vec![
        px(1, 2, 3, 4),
        px(5, 6, 7, 8),
        px(1, 2, 3, 4),
        px(5, 6, 7, 8),
        px(9, 9, 9, 9),
    ];
    let palette = build_palette(&img);
    assert_eq!(palette.len(), 12);
    // First-seen order of the three distinct colors.
    assert_eq!(palette[0], px(1, 2, 3, 4));
    assert_eq!(palette[1], px(5, 6, 7, 8));
    assert_eq!(palette[2], px(9, 9, 9, 9));
}

#[test]
fn water_entries_follow_the_originals() {
    let img = vec![px(200, 10, 20, 255), px(255, 255, 255, 3)];
    let palette = build_palette(&img);
    assert_eq!(palette.len(), 8);
    // Water variant: red and green halved, blue forced to 255 / 2 = 127,
    // alpha unchanged.
    assert_eq!(palette[2], px(100, 5, 127, 255));
    assert_eq!(palette[3], px(127, 127, 127, 3));
}

#[test]
fn shadow_entries_follow_both_earlier_groups() {
    let img = vec![px(200, 10, 20, 255), px(255, 255, 255, 3)];
    let palette = build_palette(&img);
    // Shadow variants of the originals.
    assert_eq!(palette[4], px(100, 5, 10, 255));
    assert_eq!(palette[5], px(127, 127, 127, 3));
    // Shadow variants of the water variants.
    assert_eq!(palette[6], px(50, 2, 63, 255));
    assert_eq!(palette[7], px(63, 63, 63, 3));
}

#[test]
fn face_extraction_yields_69_palette_entries_only() {
    let mut img = sample_image();
    normalize_transparent_pixels(&mut img);
    let palette = build_palette(&img);
    let faces = extract_faces(&img, &palette).expect("palette built from the same image");
    assert_eq!(faces.len(), 69);
    for face in &faces {
        assert_eq!(face.len(), 256);
        for p in face {
            assert!(palette.contains(p));
        }
    }
    // The face grid is indexed side + 3 * block: face 0 is block 0's top
    // cell, whose first pixel is the image's raster origin.
    assert_eq!(faces[0][0], img[0]);
    // Face 1 is block 0's left cell, 16 rows down.
    assert_eq!(faces[1][0], img[16 * 368]);
    // Face 3 is block 1's top cell, 16 columns across.
    assert_eq!(faces[3][0], img[16]);
}

#[test]
fn extraction_with_foreign_pixels_fails() {
    let img = sample_image();
    // A palette missing the image's colors: lookup of the very first
    // pixel already misses.
    let palette = vec![px(99, 99, 99, 99)];
    assert_eq!(extract_faces(&img, &palette), Err(TextureError::PaletteMiss));
    // Through the converter: slicing before the palette is filled.
    let mut converter = TextureConverter::new(img);
    assert_eq!(converter.set_unmodified_texture_source(), Err(TextureError::PaletteMiss));
}

#[test]
fn sample_fit_honors_the_half_open_bound() {
    // 15.5 is the largest representable sample coordinate below 16.
    assert!(fits_inside_rect(&SamplePos { x2: 31, y2: 31 }, 16));
    // 16.0 exactly is excluded by the strict bound.
    assert!(!fits_inside_rect(&SamplePos { x2: 32, y2: 31 }, 16));
    assert!(!fits_inside_rect(&SamplePos { x2: 31, y2: 32 }, 16));
    // Negative coordinates are outside.
    assert!(!fits_inside_rect(&SamplePos { x2: -1, y2: 0 }, 16));
    assert!(fits_inside_rect(&SamplePos { x2: 0, y2: 0 }, 16));
}

/// The three destination-to-sample maps of the projector, in floating
/// point, exactly as 2-by-2 column matrices over shifted destination
/// coordinates describe them. Serves as an independent oracle for the
/// projector's exact integer arithmetic.
fn float_samples(x: usize, y: usize) -> [(f32, f32); 3] {
    let (fx, fy) = (x as f32, y as f32);
    let top_offset = 8.0f32;
    // Top: inverse of the matrix with columns (1, -0.5) and (1, 0.5).
    let (px, py) = (fx, fy - top_offset);
    let top = (0.5 * px - py, 0.5 * px + py);
    // Left: the matrix with columns (1, -0.5) and (0, 1), applied directly.
    let left = (px, -0.5 * px + py);
    // Right: the matrix with columns (1, 0.5) and (0, 1), over the
    // destination recentered by half the canvas size.
    let (px, py) = (fx - 16.0, fy - 16.0);
    let right = (px, 0.5 * px + py);
    [top, left, right]
}

fn float_fits(s: (f32, f32)) -> bool {
    s.0 < 16.0 && s.1 < 16.0 && s.0 >= 0.0 && s.1 >= 0.0
}

#[test]
fn projection_matches_the_affine_maps_everywhere() {
    let top = vec![px(200, 0, 0, 255); 256];
    let left = vec![px(255, 0, 255, 255); 256];
    let right = vec![px(0, 0, 200, 255); 256];
    let tile = transform_isometric_texture(&top, &left, &right);
    assert_eq!(tile.len(), 1024);
    for y in 0..32usize {
        for x in 0..32usize {
            let samples = float_samples(x, y);
            let mut expected = px(0, 0, 0, 0);
            for (face, sample) in [&top, &left, &right].iter().zip(samples.iter()) {
                if float_fits(*sample) {
                    let idx = sample.0.floor() as usize + sample.1.floor() as usize * 16;
                    expected = face[idx];
                }
            }
            assert_eq!(tile[y * 32 + x], expected, "destination ({x}, {y})");
        }
    }
}

#[test]
fn red_top_face_scenario() {
    // One block: a solid opaque red top face, left and right faces
    // still the magenta placeholder.
    let red = px(200, 0, 0, 255);
    let magenta = px(255, 0, 255, 255);
    let top = vec![red; 256];
    let left = vec![magenta; 256];
    let right = vec![magenta; 256];
    let tile = transform_isometric_texture(&top, &left, &right);

    // Destination (31, 8) samples the top face at (15.5, 15.5): inside
    // the strict bound, so it shows red.
    assert_eq!(tile[8 * 32 + 31], red);
    // Destination (30, 7) samples the top face at exactly (16.0, 14.0):
    // excluded, and no other face accepts it either, so it stays fully
    // transparent black.
    assert_eq!(tile[7 * 32 + 30], px(0, 0, 0, 0));
    // The canvas's top row is never sampled and stays blank.
    for x in 0..32usize {
        assert_eq!(tile[x], px(0, 0, 0, 0));
    }
    // Every destination the top map accepts and no later face
    // overwrites is solid red; destinations no map accepts are fully
    // transparent black.
    for y in 0..32usize {
        for x in 0..32usize {
            let [t, l, r] = float_samples(x, y);
            let p = tile[y * 32 + x];
            if float_fits(l) || float_fits(r) {
                assert_eq!(p, magenta, "destination ({x}, {y})");
            } else if float_fits(t) {
                assert_eq!(p, red, "destination ({x}, {y})");
            } else {
                assert_eq!(p, px(0, 0, 0, 0), "destination ({x}, {y})");
            }
        }
    }
}

#[test]
fn rendered_text_has_the_documented_shape() {
    // The emitter always writes the fixed 23-tile header; feed it a
    // single short tile to pin the text down byte for byte.
    let tiles = vec![vec![px(1, 2, 3, 4), px(255, 0, 127, 9)]];
    let text = render_texture_source(&tiles);
    let expected = "pub const TEXTURES: [[[u8; 4]; 1024]; 23] = [\n[\n[1, 2, 3, 4],[255, 0, 127, 9],],\n];";
    assert_eq!(text, expected.as_bytes().to_vec());
}

#[test]
fn generated_source_matches_the_held_tiles() {
    let mut converter = TextureConverter::new(sample_image());
    let text = converter.generate_rust_texture_source();
    let mut expected = String::from("pub const TEXTURES: [[[u8; 4]; 1024]; 23] = [\n");
    for tile in &converter.isometric_texture {
        assert_eq!(tile.len(), 1024);
        expected.push_str("[\n");
        for p in tile {
            expected.push_str(&format!("[{}, {}, {}, {}],", p.r, p.g, p.b, p.a));
        }
        expected.push_str("],\n");
    }
    expected.push_str("];");
    assert_eq!(text, expected.into_bytes());
}

#[test]
fn pipeline_is_deterministic_over_identical_input() {
    let img = sample_image();
    let mut first = TextureConverter::new(img.clone());
    let mut second = TextureConverter::new(img);
    let text1 = first.generate_rust_texture_source();
    let text2 = second.generate_rust_texture_source();
    assert_eq!(text1, text2);
}

#[test]
fn debug_frame_places_faces_and_tiles() {
    let mut converter = TextureConverter::new(sample_image());
    converter.generate_rust_texture_source();
    let frame = converter.debug_draw();
    assert_eq!(frame.len(), 640 * 480 * 4);
    // The face band: frame pixel (0, 0) is face 0's first pixel.
    let p = &converter.unmodified_texture[0][0];
    assert_eq!(&frame[0..4], &[p.r, p.g, p.b, p.a]);
    // The tile band starts 48 rows down: frame pixel (0, 48) is tile
    // 0's first pixel.
    let q = &converter.isometric_texture[0][0];
    let off = 48 * 640 * 4;
    assert_eq!(&frame[off..off + 4], &[q.r, q.g, q.b, q.a]);
    // Second tile cell: frame pixel (32, 48) is tile 1's first pixel.
    let q = &converter.isometric_texture[1][0];
    let off = (48 * 640 + 32) * 4;
    assert_eq!(&frame[off..off + 4], &[q.r, q.g, q.b, q.a]);
    // Beyond both bands everything is zeroed.
    let off = (100 * 640) * 4;
    assert_eq!(&frame[off..off + 4], &[0, 0, 0, 0]);
}
