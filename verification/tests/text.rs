use osm_sound_demo::scalar::Scalar;
use osm_sound_demo::text::{
    characters, is_white_space, read_number, split_once, trim, trim_end, write_decimal,
    write_hexadecimal,
};

#[test]
fn white_space_is_what_the_standard_library_says() {
    for c in '\0'..=char::MAX {
        assert_eq!(is_white_space(c), c.is_whitespace(), "{c:?}");
    }
}

#[test]
fn trimming_agrees_with_the_standard_library() {
    for text in [
        "", " ", "a", " a", "a ", " a b ", "\u{3000}x\u{85}", "\t\n", "劇 ", "\u{200b}z",
    ] {
        assert_eq!(trim(text), text.trim());
        assert_eq!(trim_end(text), text.trim_end());
        assert_eq!(characters(text), text.chars().collect::<Vec<char>>());
    }
}

#[test]
fn numbers_are_written_as_they_are_read() {
    for number in [0, 7, 10, 99, 100, 12345, u64::MAX] {
        assert_eq!(write_decimal(number), format!("{number}"));
        assert_eq!(read_number(&write_decimal(number), u64::MAX), Some(number));
    }
    for number in [0, 15, 16, 255, 256, 0xdead_beef, u32::MAX] {
        assert_eq!(write_hexadecimal(number), format!("{number:x}"));
    }
}

#[test]
fn reading_agrees_with_the_standard_library() {
    for text in [
        "", "+", "-", "0", "+0", "-0", "007", "1_000", " 1", "1 ", "++1", "1+",
        "18446744073709551615", "18446744073709551616", "99999999999999999999999", "１",
    ] {
        assert_eq!(read_number(text, u64::MAX), text.parse::<u64>().ok(), "{text}");
    }
    assert_eq!(read_number("255", 255), Some(255));
    assert_eq!(read_number("256", 255), None);
}

#[test]
fn splitting_agrees_with_the_standard_library() {
    for text in ["", ",", "a,b", "a,b,c", "none", ",x", "x,"] {
        let owned = text
            .split_once(',')
            .map(|(left, right)| (left.to_owned(), right.to_owned()));
        assert_eq!(split_once(text, ','), owned, "{text}");
    }
}

fn samples() -> Vec<f64> {
    let mut samples = vec![0.0, 1.0, 0.5, 1e-310, 1e300, f64::INFINITY, f64::NAN, f64::MIN_POSITIVE];
    let negated: Vec<f64> = samples.iter().map(|sample| -sample).collect();
    samples.extend(negated);
    samples
}

fn number(value: f64) -> Scalar {
    Scalar {
        bits: value.to_bits(),
    }
}

#[test]
fn numbers_compare_as_doubles_do() {
    for a in samples() {
        assert_eq!(number(a).is_nan(), a.is_nan());
        assert_eq!(number(a).is_zero(), a == 0.0);
        assert_eq!(number(a).abs().bits, a.abs().to_bits());
        assert_eq!(number(a).negate().bits, (-a).to_bits());
        for b in samples() {
            assert_eq!(number(a).less(number(b)), a < b, "{a} < {b}");
            assert_eq!(number(a).same(number(b)), a == b, "{a} == {b}");
        }
        let held = number(a).clamp(number(-1.0), number(1.0));
        assert_eq!(held.bits, a.clamp(-1.0, 1.0).to_bits());
    }
}
