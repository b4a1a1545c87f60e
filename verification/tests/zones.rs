use pseudo_hologram::{HologramConfig, Zone};

/// How many of the nine region predicates hold of `(x, y)`.
fn regions_matched(bw: u32, bl: u32, x: u32, y: u32) -> usize {
    let predicates = [
        x < bw && y < bw,
        x < bw && y >= bw + bl,
        x >= bl + bw && y < bw,
        x >= bl + bw && y >= bw + bl,
        bw <= x && x < bl + bw && bw <= y && y < bl + bw,
        bw <= x && x < bl + bw && y < bw,
        x < bw && bw <= y && y < bl + bw,
        bw <= x && x < bl + bw && y >= bl + bw,
        x >= bl + bw && bw <= y && y < bl + bw,
    ];
    predicates.iter().filter(|&&holds| holds).count()
}

/// The zone whose predicate holds of `(x, y)`, each zone tested by itself.
fn zones_matched(bw: u32, bl: u32, x: u32, y: u32) -> Vec<Zone> {
    let mut zones = Vec::new();
    if (x < bw && y < bw)
        || (x < bw && y >= bw + bl)
        || (x >= bl + bw && y < bw)
        || (x >= bl + bw && y >= bw + bl)
    {
        zones.push(Zone::Corner);
    }
    if bw <= x && x < bl + bw && bw <= y && y < bl + bw {
        zones.push(Zone::Center);
    }
    if bw <= x && x < bl + bw && y < bw {
        zones.push(Zone::Top);
    }
    if x < bw && bw <= y && y < bl + bw {
        zones.push(Zone::Left);
    }
    if bw <= x && x < bl + bw && y >= bl + bw {
        zones.push(Zone::Bottom);
    }
    if x >= bl + bw && bw <= y && y < bl + bw {
        zones.push(Zone::Right);
    }
    zones
}

fn geometries() -> Vec<HologramConfig> {
    let mut all = Vec::new();
    for size in 0..=12u32 {
        for bw in 0..=size / 2 {
            all.push(HologramConfig::new(size, 60, bw).unwrap());
        }
    }
    all.push(HologramConfig::new(64, 60, 5).unwrap());
    all.push(HologramConfig::new(65, 60, 32).unwrap());
    all
}

#[test]
fn every_pixel_matches_exactly_one_predicate() {
    for config in geometries() {
        let (bw, bl) = (config.band_width(), config.band_length());
        for y in 0..config.size() {
            for x in 0..config.size() {
                assert_eq!(regions_matched(bw, bl, x, y), 1, "bw {bw} bl {bl} at ({x}, {y})");
                assert_eq!(zones_matched(bw, bl, x, y), vec![config.zone(x, y)]);
            }
        }
    }
}

#[test]
fn every_pixel_of_the_full_size_square_matches_exactly_one_predicate() {
    let config = HologramConfig::new(512, 60, 40).unwrap();
    for y in 0..512 {
        for x in 0..512 {
            assert_eq!(regions_matched(40, 432, x, y), 1);
            assert_eq!(zones_matched(40, 432, x, y), vec![config.zone(x, y)]);
        }
    }
}

#[test]
fn points_beyond_the_square_still_lie_in_one_zone() {
    let config = HologramConfig::new(512, 60, 40).unwrap();
    assert_eq!(config.zone(512, 0), Zone::Corner);
    assert_eq!(config.zone(u32::MAX, 100), Zone::Right);
    assert_eq!(config.zone(100, u32::MAX), Zone::Bottom);
    assert_eq!(config.zone(u32::MAX, u32::MAX), Zone::Corner);
    assert_eq!(config.source_pixel(512, 100), None);
    assert_eq!(config.source_pixel(100, 512), None);
    assert_eq!(config.source_pixel(u32::MAX, u32::MAX), None);
}

#[test]
fn the_zones_meet_at_the_band_edges() {
    let config = HologramConfig::new(512, 60, 40).unwrap();
    assert_eq!(config.zone(0, 0), Zone::Corner);
    assert_eq!(config.zone(39, 39), Zone::Corner);
    assert_eq!(config.zone(40, 39), Zone::Top);
    assert_eq!(config.zone(39, 40), Zone::Left);
    assert_eq!(config.zone(40, 40), Zone::Center);
    assert_eq!(config.zone(471, 471), Zone::Center);
    assert_eq!(config.zone(472, 471), Zone::Right);
    assert_eq!(config.zone(471, 472), Zone::Bottom);
    assert_eq!(config.zone(472, 472), Zone::Corner);
    assert_eq!(config.zone(39, 472), Zone::Corner);
    assert_eq!(config.zone(472, 39), Zone::Corner);
    assert_eq!(config.zone(511, 511), Zone::Corner);
}

#[test]
fn without_bands_the_whole_square_is_centre() {
    let config = HologramConfig::new(8, 60, 0).unwrap();
    for y in 0..8 {
        for x in 0..8 {
            assert_eq!(config.zone(x, y), Zone::Center);
            assert_eq!(config.source_pixel(x, y), None);
        }
    }
}

#[test]
fn without_length_the_whole_square_is_corner() {
    let config = HologramConfig::new(8, 60, 4).unwrap();
    for y in 0..8 {
        for x in 0..8 {
            assert_eq!(config.zone(x, y), Zone::Corner);
            assert_eq!(config.source_pixel(x, y), None);
        }
    }
}

#[test]
fn each_band_applies_its_own_map() {
    let config = HologramConfig::new(512, 60, 40).unwrap();
    let (bw, bl) = (40u32, 432u32);
    for &(x, y) in &[(40u32, 0u32), (100, 7), (471, 39)] {
        assert_eq!(config.source_pixel(x, y), Some((x - bw, y)));
    }
    for &(x, y) in &[(0u32, 40u32), (7, 100), (39, 471)] {
        assert_eq!(config.source_pixel(x, y), Some((bl + bw - y - 1, x)));
    }
    for &(x, y) in &[(40u32, 472u32), (100, 500), (471, 511)] {
        assert_eq!(config.source_pixel(x, y), Some((bl + bw - x - 1, bl + 2 * bw - y - 1)));
    }
    for &(x, y) in &[(472u32, 40u32), (500, 100), (511, 471)] {
        assert_eq!(config.source_pixel(x, y), Some((y - bw, bl + 2 * bw - x - 1)));
    }
}

#[test]
fn black_zones_show_no_frame_pixel() {
    for config in geometries() {
        for y in 0..config.size() {
            for x in 0..config.size() {
                let black = matches!(config.zone(x, y), Zone::Corner | Zone::Center);
                assert_eq!(config.source_pixel(x, y).is_none(), black);
            }
        }
    }
}

#[test]
fn each_band_shows_every_frame_pixel_exactly_once() {
    for config in geometries() {
        let (bw, bl) = (config.band_width() as usize, config.band_length() as usize);
        for band in [Zone::Top, Zone::Left, Zone::Bottom, Zone::Right] {
            let mut shown = vec![0u32; bl * bw];
            for y in 0..config.size() {
                for x in 0..config.size() {
                    if config.zone(x, y) == band {
                        let (fx, fy) = config.source_pixel(x, y).unwrap();
                        assert!((fx as usize) < bl && (fy as usize) < bw);
                        shown[fx as usize + bl * fy as usize] += 1;
                    }
                }
            }
            assert!(shown.iter().all(|&times| times == 1), "{band:?} of bw {bw} bl {bl}");
        }
    }
}

#[test]
fn the_first_frame_pixel_is_shown_at_one_end_of_each_band() {
    let config = HologramConfig::new(512, 60, 40).unwrap();
    let mut places = Vec::new();
    for y in 0..512 {
        for x in 0..512 {
            if config.source_pixel(x, y) == Some((0, 0)) {
                places.push((config.zone(x, y), x, y));
            }
        }
    }
    places.sort_by_key(|&(_, x, y)| (y, x));
    assert_eq!(
        places,
        vec![(Zone::Top, 40, 0), (Zone::Right, 511, 40), (Zone::Left, 0, 471), (Zone::Bottom, 471, 511)]
    );
}

#[test]
fn the_last_frame_pixel_is_shown_at_the_other_end_of_each_band() {
    let config = HologramConfig::new(512, 60, 40).unwrap();
    assert_eq!(config.source_pixel(471, 39), Some((431, 39)));
    assert_eq!(config.source_pixel(39, 40), Some((431, 39)));
    assert_eq!(config.source_pixel(40, 472), Some((431, 39)));
    assert_eq!(config.source_pixel(472, 471), Some((431, 39)));
}
