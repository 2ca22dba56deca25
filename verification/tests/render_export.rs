//! Renderer, exporter and distance-metric tests.

use mcpixel::colour::Colour;
use mcpixel::colour::metric_distance;
use mcpixel::config::ColourSpace;
use mcpixel::config::Config;
use mcpixel::config::DownsamplingMethod;
use mcpixel::design::Design;
use mcpixel::design::DesignError;
use mcpixel::design::match_image;
use mcpixel::palette::Blocks;
use mcpixel::palette::palette;
use mcpixel::raster::RgbaBuffer;
use mcpixel::render::SpriteStore;

fn empty_store() -> SpriteStore {
    let mut entries = Vec::new();
    for _ in 0..palette().len() {
        entries.push(None);
    }
    SpriteStore { entries }
}

/// Encodes a 16 x 16 solid-colour PNG with the image crate.
fn png_sprite(rgba: [u8; 4]) -> Vec<u8> {
    let img = image::RgbaImage::from_pixel(16, 16, image::Rgba(rgba));
    let mut bytes = std::io::Cursor::new(Vec::new());
    img.write_to(&mut bytes, image::ImageFormat::Png).unwrap();
    bytes.into_inner()
}

fn store_with(block: Blocks, bytes: Vec<u8>) -> SpriteStore {
    let mut store = empty_store();
    let idx = block.palette_index();
    store.entries[idx] = Some(bytes);
    store
}

#[test]
fn distance_of_a_colour_to_itself_is_zero() {
    let colours = [
        Colour { r: 0, g: 0, b: 0 },
        Colour { r: 255, g: 255, b: 255 },
        Colour { r: 160, g: 39, b: 34 },
        Colour { r: 58, g: 175, b: 217 },
    ];
    for m in [
        ColourSpace::Cie2000,
        ColourSpace::Cie1976,
        ColourSpace::Cmc,
        ColourSpace::Euclidean,
    ] {
        for c in colours {
            assert_eq!(metric_distance(&m, &c, &c), 0);
        }
    }
}

#[test]
fn euclidean_distance_has_exact_truncated_values() {
    // sqrt(3^2 + 4^2) = 5 and sqrt(2) truncates to 1.
    let a = Colour { r: 0, g: 0, b: 0 };
    let b = Colour { r: 3, g: 4, b: 0 };
    assert_eq!(metric_distance(&ColourSpace::Euclidean, &a, &b), 5);
    let c = Colour { r: 1, g: 1, b: 0 };
    assert_eq!(metric_distance(&ColourSpace::Euclidean, &a, &c), 1);
}

#[test]
fn fully_transparent_source_renders_blank() {
    // A fully transparent 4x4 source at any target height gives a grid of
    // nothing but the sentinel, and the rendered canvas composites no
    // sprite: every canvas byte stays at the transparent background.
    for th in [1u16, 2, 3, 4, 7] {
        let img = RgbaBuffer { width: 4, height: 4, data: vec![0u8; 64] };
        let d = Design::new(&img, th, None).unwrap();
        let counts = d.count_blocks();
        let (w, h) = d.dimensions();
        assert_eq!(counts, vec![(Blocks::Air, w * h)]);
        // Rendering needs no sprite at all for an all-sentinel grid.
        let canvas = d.draw_image(&empty_store()).unwrap();
        assert_eq!(canvas.width as usize, 16 * w);
        assert_eq!(canvas.height as usize, 16 * h);
        assert!(canvas.data.iter().all(|&b| b == 0));
    }
}

#[test]
fn missing_sprite_is_invalid_data() {
    // A grid that needs a sprite the store does not hold: the render
    // aborts with InvalidData and no canvas comes back.
    let img = RgbaBuffer { width: 1, height: 1, data: vec![160, 39, 34, 255] };
    let cfg = Config { colour_space: ColourSpace::Euclidean, downsampling: DownsamplingMethod::Nearest };
    let d = Design::new(&img, 1, Some(cfg)).unwrap();
    assert_eq!(d.cells, vec![Blocks::RedWool]);
    let r = d.draw_image(&empty_store());
    assert_eq!(r.unwrap_err(), DesignError::InvalidData);
}

#[test]
fn undecodable_sprite_is_invalid_data() {
    let img = RgbaBuffer { width: 1, height: 1, data: vec![160, 39, 34, 255] };
    let cfg = Config { colour_space: ColourSpace::Euclidean, downsampling: DownsamplingMethod::Nearest };
    let d = Design::new(&img, 1, Some(cfg)).unwrap();
    let store = store_with(Blocks::RedWool, vec![1, 2, 3, 4, 5]);
    let r = d.draw_image(&store);
    assert_eq!(r.unwrap_err(), DesignError::InvalidData);
}

#[test]
fn rendering_composites_the_sprite() {
    let img = RgbaBuffer { width: 1, height: 1, data: vec![160, 39, 34, 255] };
    let cfg = Config { colour_space: ColourSpace::Euclidean, downsampling: DownsamplingMethod::Nearest };
    let d = Design::new(&img, 1, Some(cfg)).unwrap();
    let store = store_with(Blocks::RedWool, png_sprite([200, 10, 20, 255]));
    let canvas = d.draw_image(&store).unwrap();
    assert_eq!((canvas.width, canvas.height), (16, 16));
    // The opaque sprite covers the whole 16x16 canvas.
    for px in canvas.data.chunks(4) {
        assert_eq!(px, &[200, 10, 20, 255]);
    }
}

#[test]
fn rendering_skips_sentinel_cells() {
    // One opaque and one transparent pixel: the sprite lands only on the
    // opaque cell's square, the sentinel cell stays transparent.
    let img = RgbaBuffer { width: 2, height: 1, data: vec![160, 39, 34, 255, 0, 0, 0, 0] };
    let d = match_image(&img, &ColourSpace::Euclidean);
    assert_eq!(d.cells, vec![Blocks::RedWool, Blocks::Air]);
    let store = store_with(Blocks::RedWool, png_sprite([200, 10, 20, 255]));
    let canvas = d.draw_image(&store).unwrap();
    assert_eq!((canvas.width, canvas.height), (32, 16));
    for y in 0..16usize {
        for x in 0..32usize {
            let base = 4 * (y * 32 + x);
            let px = &canvas.data[base..base + 4];
            if x < 16 {
                assert_eq!(px, &[200, 10, 20, 255]);
            } else {
                assert_eq!(px, &[0, 0, 0, 0]);
            }
        }
    }
}

#[test]
fn litematica_mirrors_the_grid() {
    let img = RgbaBuffer { width: 2, height: 1, data: vec![160, 39, 34, 255, 0, 0, 0, 0] };
    let d = match_image(&img, &ColourSpace::Euclidean);
    let s = d.litematica("house", Some("a red wall"), Some("someone"));
    assert_eq!(s.name, "house");
    assert_eq!(s.description, "a red wall");
    assert_eq!(s.author, "someone");
    assert_eq!(s.region.width, 2);
    assert_eq!(s.region.height, 1);
    assert_eq!(s.region.depth, 1);
    assert_eq!(s.region.blocks, d.cells);
}

#[test]
fn litematica_metadata_defaults() {
    let img = RgbaBuffer { width: 1, height: 1, data: vec![160, 39, 34, 255] };
    let d = match_image(&img, &ColourSpace::Euclidean);
    let s = d.litematica("house", None, None);
    assert_eq!(s.description, "");
    assert_eq!(s.author, "mcpixel");
}
