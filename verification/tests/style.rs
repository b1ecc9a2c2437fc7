use osm_sound_demo::audio::BINS;
use osm_sound_demo::map::style::{
    building_layer_id, building_layer_json, color_property, hex_color, hue_sextant, safe_size, Band, Light,
    BUILDING_COLOR, BUILDING_OPACITY, HEIGHT_EPSILON, HUE_EPSILON, INTENSITY_EPSILON,
    MAX_BUILDING_HALF_METRES, SATURATION_EPSILON,
};
use osm_sound_demo::scalar::Scalar;

fn number(value: f64) -> Scalar {
    Scalar {
        bits: value.to_bits(),
    }
}

fn value(number: Scalar) -> f64 {
    f64::from_bits(number.bits)
}

/// `h` in degrees, `s` and `l` in percent.
fn hsl_to_hex(h: f64, s: f64, l: f64) -> String {
    let s = (s / 100.0).clamp(0.0, 1.0);
    let l = (l / 100.0).clamp(0.0, 1.0);
    let c = (1.0 - (2.0 * l - 1.0).abs()) * s;
    let hp = h.rem_euclid(360.0) / 60.0;
    let x = c * (1.0 - (hp % 2.0 - 1.0).abs());
    let (r, g, b) = hue_sextant(hp as u32, number(c), number(x));
    let m = l - c / 2.0;
    let byte = |v: Scalar| ((value(v) + m) * 255.0).round().clamp(0.0, 255.0) as u8;
    hex_color(byte(r), byte(g), byte(b))
}

#[test]
fn hsl_conversion_matches_known_colors() {
    assert_eq!(hsl_to_hex(0.0, 100.0, 50.0), "#ff0000");
    assert_eq!(hsl_to_hex(120.0, 100.0, 50.0), "#00ff00");
    assert_eq!(hsl_to_hex(240.0, 100.0, 50.0), "#0000ff");
    assert_eq!(hsl_to_hex(0.0, 0.0, 100.0), "#ffffff");
}

#[test]
fn every_sixth_of_the_wheel_has_its_colour() {
    assert_eq!(hsl_to_hex(60.0, 100.0, 50.0), "#ffff00");
    assert_eq!(hsl_to_hex(180.0, 100.0, 50.0), "#00ffff");
    assert_eq!(hsl_to_hex(300.0, 100.0, 50.0), "#ff00ff");
    assert_eq!(hsl_to_hex(330.0, 100.0, 50.0), "#ff0080");
    assert_eq!(hsl_to_hex(-30.0, 100.0, 50.0), "#ff0080");
}

#[test]
fn colours_are_written_in_two_digits_each() {
    assert_eq!(hex_color(0, 9, 10), "#00090a");
    assert_eq!(hex_color(255, 16, 171), "#ff10ab");
}

#[test]
fn a_property_takes_a_colour_as_json() {
    assert_eq!(color_property(255, 16, 171), "\"#ff10ab\"");
    let read: serde_json::Value =
        serde_json::from_str(&color_property(1, 2, 3)).expect("it is JSON");
    assert_eq!(read.as_str(), Some("#010203"));
}

#[test]
fn the_buildings_are_flat_grey() {
    // The style's light colours the scene, so the buildings themselves must not
    // be tinted per band.
    let layer = building_layer_json(3, "a");
    assert_eq!(layer.color, BUILDING_COLOR);
    assert_eq!(layer.color, "#aaa");
}

#[test]
fn building_layer_bins_cover_the_height_range() {
    let first = building_layer_json(0, "a");
    let last = building_layer_json(BINS - 1, "b");
    assert_eq!(first.above, 0);
    assert_eq!(last.up_to, u128::from(MAX_BUILDING_HALF_METRES));
    assert_eq!(last.up_to as f64 / 2.0, 200.0);
}

#[test]
fn the_building_layers_use_constant_paint() {
    let layer = building_layer_json(3, "a");
    assert_eq!(value(layer.height), 0.0);
    assert_eq!(value(layer.opacity), 0.6);
    assert_eq!(layer.opacity.bits, BUILDING_OPACITY);
}

#[test]
fn neighbouring_layers_meet() {
    for band in 1..BINS {
        let below = building_layer_json(band - 1, "below");
        let above = building_layer_json(band, "above");
        assert_eq!(below.up_to, above.above);
        assert_eq!(above.above as f64 / 2.0, band as f64 * (200.0 / 16.0));
    }
    let layer = building_layer_json(15, &building_layer_id(15));
    assert_eq!(layer.id, "3d-buildings-15");
    assert_eq!(layer.source, "openmaptiles");
    assert_eq!(layer.source_layer, "building");
    // A band past the last one follows the same rule.
    let past = building_layer_json(1000, "c");
    assert_eq!((past.above, past.up_to), (25_000, 25_025));
}

fn gap(a: f64, b: f64) -> Scalar {
    number(a - b)
}

#[test]
fn nearby_bands_do_not_trigger_a_layer_rebuild() {
    assert!(Band::close_to(gap(100.0, 101.0)));
    assert!(!Band::close_to(gap(100.0, 110.0)));
}

#[test]
fn the_epsilons_are_the_numbers_they_say() {
    assert_eq!(f64::from_bits(HEIGHT_EPSILON), 2.0);
    assert_eq!(f64::from_bits(HUE_EPSILON), 4.0);
    assert_eq!(f64::from_bits(SATURATION_EPSILON), 2.0);
    assert_eq!(f64::from_bits(INTENSITY_EPSILON), 0.02);
    // A whole epsilon counts, in either direction; a NaN always does.
    assert!(!Band::close_to(number(2.0)));
    assert!(!Band::close_to(number(-2.0)));
    assert!(Band::close_to(number(-1.999)));
    assert!(!Band::close_to(number(f64::NAN)));
}

#[test]
fn a_light_is_close_only_in_every_field() {
    let difference = |hue: f64, saturation: f64, intensity: f64| Light {
        hue: number(hue),
        saturation: number(saturation),
        intensity: number(intensity),
    };
    assert!(Light::close_to(difference(-3.9, 1.9, 0.019)));
    assert!(!Light::close_to(difference(4.0, 0.0, 0.0)));
    assert!(!Light::close_to(difference(0.0, -2.0, 0.0)));
    assert!(!Light::close_to(difference(0.0, 0.0, 0.02)));
}

#[test]
fn lights_and_bands_are_equal_as_numbers() {
    let zero = Light::default();
    let negative = Light {
        hue: number(-0.0),
        ..zero
    };
    assert!(zero.same(negative));
    assert!(!zero.same(Light {
        intensity: number(1.0),
        ..zero
    }));
    assert!(Band::default().same(Band {
        height: number(-0.0)
    }));
    let nan = Band {
        height: number(f64::NAN),
    };
    assert!(!nan.same(nan));
}

#[test]
fn a_map_is_never_empty() {
    assert_eq!(safe_size(0, 0), (1, 1));
    assert_eq!(safe_size(0, 7), (1, 7));
    assert_eq!(safe_size(640, 480), (640, 480));
}
