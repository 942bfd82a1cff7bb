use colorhash::color::{ColorHash, ConfigError, Hsl, HUE_RESOLUTION};
use colorhash::digest::{digest_index, rgb_hash};

const STEPS: i64 = HUE_RESOLUTION as i64;

fn keys() -> Vec<String> {
    (0..100).map(|i| format!("key-{}-{}", i, i * 7919)).collect()
}

fn hsl(hue: i64, saturation: u32, lightness: u32) -> Hsl {
    Hsl { hue_steps: hue * STEPS, saturation, lightness }
}

#[test]
fn hashing() {
    assert_eq!(rgb_hash("hello world"), 3108841401);
    assert_eq!(rgb_hash("a"), 3398926610);
    assert_eq!(rgb_hash("b"), 1042540566);
    assert_eq!(rgb_hash("c"), 779955203);
}

#[test]
fn hsl_colors() {
    let ch = ColorHash::new();
    assert_eq!(ch.hsl("hello world"), Ok(hsl(126, 65, 65)));
    assert_eq!(ch.hsl("a"), Ok(hsl(52, 35, 50)));
    assert_eq!(ch.hsl("b"), Ok(hsl(258, 50, 65)));
    assert_eq!(ch.hsl("c"), Ok(hsl(60, 65, 65)));
}

#[test]
fn should_return_the_hash_color_based_on_default_hue() {
    let hash = ColorHash::default();
    for key in keys() {
        let hue = hash.hsl(&key).unwrap().hue_steps as f64 / STEPS as f64;
        assert!(hue >= 0.0 && hue < 359.0);
    }
}

#[test]
fn should_return_the_hash_color_based_on_given_hue_value() {
    let hash = ColorHash::new().hue_range(10..10);
    for key in keys() {
        let hue = hash.hsl(&key).unwrap().hue_steps as f64 / STEPS as f64;
        assert!((hue - 10.0).abs() <= 0.05);
    }
}

#[test]
fn should_return_the_hash_color_based_on_given_hue_range() {
    for min in (0..361).step_by(60) {
        for max in (min + 1..361).step_by(60) {
            let hash = ColorHash::new().hue_range(min..max);
            for key in keys() {
                let hue = hash.hsl(&key).unwrap().hue_steps as f64 / STEPS as f64;
                assert!(hue >= min as f64 && hue < max as f64);
            }
        }
    }
}

#[test]
fn should_work_for_multiple_hue_ranges() {
    let ranges = vec![30..90, 180..210, 270..285];
    let hash = ColorHash::new().hue_ranges(&ranges);
    for key in keys() {
        let hue = hash.hsl(&key).unwrap().hue_steps as f64 / STEPS as f64;
        assert!(ranges.iter().any(|r| hue >= r.start as f64 && hue < r.end as f64));
    }
}

#[test]
fn should_return_color_based_on_given_lightness_and_saturation() {
    let hash = ColorHash::new().lightness(50).saturation(50);
    for key in keys() {
        let color = hash.hsl(&key).unwrap();
        assert_eq!(color.saturation, 50);
        assert_eq!(color.lightness, 50);
    }
}

#[test]
fn should_return_the_hash_color_based_on_given_lightness_array_and_saturation_array() {
    let hash = ColorHash::new().lightness_vec(&vec![90, 100]).saturation_vec(&vec![90, 100]);
    for key in keys() {
        let color = hash.hsl(&key).unwrap();
        assert!([90, 100].contains(&color.saturation));
        assert!([90, 100].contains(&color.lightness));
    }
}

#[test]
fn same_key_gives_same_color() {
    let hash = ColorHash::new().hue_ranges(&vec![0..120, 200..260]);
    for key in keys() {
        assert_eq!(hash.hsl(&key), hash.hsl(&key));
        assert_eq!(hash.hsl(&key), hash.hsl_from_hash(rgb_hash(&key)));
    }
}

#[test]
fn digest_is_read_big_endian() {
    let mut digest = [0u8; 32];
    digest[0] = 0x12;
    digest[1] = 0x34;
    digest[2] = 0x56;
    digest[3] = 0x78;
    digest[4] = 0xff;
    assert_eq!(digest_index(&digest), 0x12345678);
}

#[test]
fn hue_steps_in_one_range() {
    // 1000 / 1 % 727 = 273 steps of (360 - 0) / 727 degrees
    let hash = ColorHash::new().hue_range(0..360);
    assert_eq!(hash.hsl_from_hash(1000).unwrap().hue_steps, 273 * 360);
}

#[test]
fn hue_steps_pick_a_range_by_remainder() {
    // 1001 % 2 = 1 picks 100..110; 1001 / 2 % 727 = 500
    let hash = ColorHash::new().hue_ranges(&vec![0..50, 100..110]);
    assert_eq!(hash.hsl_from_hash(1001).unwrap().hue_steps, 100 * STEPS + 500 * 10);
}

#[test]
fn downward_range_moves_below_start() {
    // 4 % 727 = 4 steps of (20 - 30) / 727 degrees from 30
    let hash = ColorHash::new().hue_range(30..20);
    assert_eq!(hash.hsl_from_hash(4).unwrap().hue_steps, 30 * STEPS - 40);
}

#[test]
fn hue_without_ranges_is_whole_degrees() {
    let hash = ColorHash::new();
    assert_eq!(hash.hsl_from_hash(358).unwrap().hue_steps, 358 * STEPS);
    assert_eq!(hash.hsl_from_hash(359).unwrap().hue_steps, 0);
    assert_eq!(hash.hsl_from_hash(u32::MAX).unwrap().hue_steps, (u32::MAX % 359) as i64 * STEPS);
}

#[test]
fn tones_follow_the_hash() {
    // 360 * 4 = 1440: saturation index 4 % 3 = 1, lightness index 4 / 3 % 3 = 1
    let hash = ColorHash::new().saturation_vec(&vec![10, 20, 30]).lightness_vec(&vec![40, 50, 60]);
    let color = hash.hsl_from_hash(1440).unwrap();
    assert_eq!(color.saturation, 20);
    assert_eq!(color.lightness, 50);
    let color = hash.hsl_from_hash(359).unwrap();
    assert_eq!(color.saturation, 10);
    assert_eq!(color.lightness, 40);
}

#[test]
fn empty_saturation_is_refused() {
    let hash = ColorHash::new().saturation_vec(&vec![]);
    assert_eq!(hash.hsl("a"), Err(ConfigError::EmptySaturation));
    let both = hash.lightness_vec(&vec![]);
    assert_eq!(both.hsl("a"), Err(ConfigError::EmptySaturation));
}

#[test]
fn empty_lightness_is_refused() {
    let hash = ColorHash::new().lightness_vec(&vec![]);
    assert_eq!(hash.hsl_from_hash(0), Err(ConfigError::EmptyLightness));
}

#[test]
fn later_setting_of_a_facet_wins() {
    let hash = ColorHash::new().saturation(10).lightness(20).saturation(30);
    let color = hash.hsl("b").unwrap();
    assert_eq!(color.saturation, 30);
    assert_eq!(color.lightness, 20);
}

#[test]
fn empty_key_has_a_color() {
    let color = ColorHash::new().hsl("").unwrap();
    assert!(color.hue_steps >= 0 && color.hue_steps < 359 * STEPS);
}
