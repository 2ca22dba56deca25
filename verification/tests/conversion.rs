//! End-to-end conversion tests: downsampling dimensions, the build limit,
//! transparency handling and nearest-palette matching.

use mcpixel::colour::Colour;
use mcpixel::config::ColourSpace;
use mcpixel::config::Config;
use mcpixel::config::DownsamplingMethod;
use mcpixel::design::Design;
use mcpixel::design::DesignError;
use mcpixel::palette::Blocks;
use mcpixel::raster::RgbaBuffer;

fn solid(width: u32, height: u32, rgba: [u8; 4]) -> RgbaBuffer {
    let mut data = Vec::new();
    for _ in 0..(width * height) {
        data.extend_from_slice(&rgba);
    }
    RgbaBuffer { width, height, data }
}

fn euclidean_config() -> Config {
    Config { colour_space: ColourSpace::Euclidean, downsampling: DownsamplingMethod::Nearest }
}

#[test]
fn target_width_rounds_up() {
    // 3 wide, 2 high, target height 1: ceil(3 * 1 / 2) = 2.
    let img = solid(3, 2, [255, 0, 0, 255]);
    let d = Design::new(&img, 1, Some(euclidean_config())).unwrap();
    assert_eq!(d.dimensions(), (2, 1));
}

#[test]
fn target_width_exact_ratio() {
    // 4 wide, 2 high, target height 2: ceil(4 * 2 / 2) = 4.
    let img = solid(4, 2, [255, 0, 0, 255]);
    let d = Design::new(&img, 2, Some(euclidean_config())).unwrap();
    assert_eq!(d.dimensions(), (4, 2));
}

#[test]
fn upscaling_keeps_ratio() {
    // 1x1 source at height 2: ceil(1 * 2 / 1) = 2, so a 2x2 grid.
    let img = solid(1, 1, [160, 39, 34, 255]);
    let d = Design::new(&img, 2, Some(euclidean_config())).unwrap();
    assert_eq!(d.dimensions(), (2, 2));
    // Every working pixel is a copy of the single source pixel.
    let counts = d.count_blocks();
    assert_eq!(counts, vec![(Blocks::RedWool, 4)]);
}

#[test]
fn height_above_build_limit_is_invalid_input() {
    let img = solid(2, 2, [255, 0, 0, 255]);
    let r = Design::new(&img, 321, None);
    assert_eq!(r.unwrap_err(), DesignError::InvalidInput);
}

#[test]
fn height_at_build_limit_is_accepted() {
    let img = solid(1, 1, [255, 0, 0, 255]);
    let d = Design::new(&img, 320, Some(euclidean_config())).unwrap();
    assert_eq!(d.dimensions(), (320, 320));
}

#[test]
fn round_trip_primaries_pick_expected_winners() {
    // A 2x2 fully opaque source with four distinct saturated colours,
    // downsampled to height 2 (a no-op), under the Euclidean metric.
    let mut data = Vec::new();
    data.extend_from_slice(&[255, 0, 0, 255]); // red
    data.extend_from_slice(&[0, 255, 0, 255]); // green
    data.extend_from_slice(&[0, 0, 255, 255]); // blue
    data.extend_from_slice(&[255, 255, 255, 255]); // white
    let img = RgbaBuffer { width: 2, height: 2, data };
    let d = Design::new(&img, 2, Some(euclidean_config())).unwrap();
    assert_eq!(d.dimensions(), (2, 2));
    assert_eq!(d.cells, vec![
        Blocks::RedWool,
        Blocks::LimeWool,
        Blocks::BlueWool,
        Blocks::WhiteWool,
    ]);
}

#[test]
fn transparent_pixels_take_the_sentinel_exactly() {
    // Alternating transparent and opaque pixels: a cell is Air exactly
    // where its pixel's alpha is zero.
    let mut data = Vec::new();
    data.extend_from_slice(&[255, 0, 0, 0]); // transparent (red underneath)
    data.extend_from_slice(&[255, 0, 0, 255]); // opaque red
    data.extend_from_slice(&[0, 0, 0, 0]); // transparent
    data.extend_from_slice(&[255, 255, 255, 255]); // opaque white
    let img = RgbaBuffer { width: 2, height: 2, data };
    let d = mcpixel::design::match_image(&img, &ColourSpace::Euclidean);
    assert_eq!(d.cells, vec![
        Blocks::Air,
        Blocks::RedWool,
        Blocks::Air,
        Blocks::WhiteWool,
    ]);
}

#[test]
fn matching_is_deterministic_across_runs() {
    let mut data = Vec::new();
    for i in 0..16u8 {
        data.extend_from_slice(&[i * 16, 255 - i * 16, i * 7, 255]);
    }
    let img = RgbaBuffer { width: 4, height: 4, data };
    let a = mcpixel::design::match_image(&img, &ColourSpace::Cie2000);
    let b = mcpixel::design::match_image(&img, &ColourSpace::Cie2000);
    assert_eq!(a.cells, b.cells);
}

#[test]
fn matcher_agrees_with_direct_scoring() {
    // Cross-check the matcher against the color_space crate computed
    // directly: minimum truncated distance, lowest palette index on ties.
    let samples = [
        Colour { r: 10, g: 200, b: 30 },
        Colour { r: 130, g: 130, b: 130 },
        Colour { r: 250, g: 250, b: 5 },
        Colour { r: 1, g: 2, b: 3 },
    ];
    for m in [
        ColourSpace::Cie2000,
        ColourSpace::Cie1976,
        ColourSpace::Cmc,
        ColourSpace::Euclidean,
    ] {
        for c in samples {
            let mut data = Vec::new();
            data.extend_from_slice(&[c.r, c.g, c.b, 255]);
            let img = RgbaBuffer { width: 1, height: 1, data };
            let d = mcpixel::design::match_image(&img, &m);
            let got = d.cells[0];

            let pixel = color_space::Rgb::new(c.r as f64, c.g as f64, c.b as f64);
            let mut best: Option<(Blocks, usize)> = None;
            for b in mcpixel::palette::palette() {
                let rc = match b.colour() {
                    Some(rc) => rc,
                    None => continue,
                };
                let avg = color_space::Rgb::new(rc.r as f64, rc.g as f64, rc.b as f64);
                let diff = match m {
                    ColourSpace::Cie2000 => {
                        color_space::CompareCie2000::compare_cie2000(&avg, &pixel)
                    }
                    ColourSpace::Cie1976 => {
                        color_space::CompareCie1976::compare_cie1976(&avg, &pixel)
                    }
                    ColourSpace::Cmc => color_space::CompareCmc::compare_cmc(&avg, &pixel),
                    ColourSpace::Euclidean => {
                        color_space::CompareEuclidean::compare_euclidean(&avg, &pixel)
                    }
                };
                let score = diff.floor() as usize;
                match best {
                    Some((_, s)) if s <= score => {}
                    _ => best = Some((b, score)),
                }
            }
            assert_eq!(got, best.unwrap().0);
        }
    }
}

#[test]
fn count_blocks_sums_to_grid_area() {
    let mut data = Vec::new();
    data.extend_from_slice(&[255, 0, 0, 0]); // transparent
    data.extend_from_slice(&[255, 0, 0, 255]);
    data.extend_from_slice(&[250, 0, 0, 255]);
    data.extend_from_slice(&[255, 255, 255, 255]);
    data.extend_from_slice(&[0, 0, 255, 255]);
    data.extend_from_slice(&[0, 0, 0, 0]); // transparent
    let img = RgbaBuffer { width: 3, height: 2, data };
    let d = mcpixel::design::match_image(&img, &ColourSpace::Euclidean);
    let counts = d.count_blocks();
    let total: usize = counts.iter().map(|e| e.1).sum();
    assert_eq!(total, 6);
    assert!(counts.contains(&(Blocks::Air, 2)));
    assert!(counts.contains(&(Blocks::RedWool, 2)));
    assert!(counts.contains(&(Blocks::WhiteWool, 1)));
    assert!(counts.contains(&(Blocks::BlueWool, 1)));
    // Keys are unique.
    for i in 0..counts.len() {
        for j in (i + 1)..counts.len() {
            assert_ne!(counts[i].0, counts[j].0);
        }
    }
}

#[test]
fn builder_fills_unset_fields_with_defaults() {
    let c = mcpixel::ConfigBuilder::new()
        .colour_space(ColourSpace::Cmc)
        .build();
    assert_eq!(c.colour_space, ColourSpace::Cmc);
    assert_eq!(c.downsampling, DownsamplingMethod::Nearest);
    let d = mcpixel::ConfigBuilder::new()
        .downsampling(DownsamplingMethod::Lanczos3)
        .build();
    assert_eq!(d.colour_space, ColourSpace::Cie2000);
    assert_eq!(d.downsampling, DownsamplingMethod::Lanczos3);
}

#[test]
fn default_config_is_cie2000_nearest() {
    let c = Config::default();
    assert_eq!(c.colour_space, ColourSpace::Cie2000);
    assert_eq!(c.downsampling, DownsamplingMethod::Nearest);
}

#[test]
fn error_messages_name_the_failure() {
    assert_eq!(
        DesignError::InvalidInput.message(),
        "height is greater than the build limit"
    );
    assert_eq!(
        DesignError::InvalidData.message(),
        "a palette sprite is missing or undecodable"
    );
}
