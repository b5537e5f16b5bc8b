use chrono::{DateTime, NaiveDateTime, SecondsFormat};
use search::timestamp::{decode_published_at, render_utc, MICROS_PER_SECOND};

const ISO: &str = "%Y-%m-%dT%H:%M:%S.%f";

fn reparsed_micros(text: &str) -> i64 {
    NaiveDateTime::parse_from_str(text, ISO).expect("a timestamp").and_utc().timestamp_micros()
}

#[test]
fn render_utc_of_the_epoch() {
    assert_eq!(render_utc(0, 0, "%Y-%m-%d"), "1970-01-01");
    assert_eq!(render_utc(0, 0, ISO), "1970-01-01T00:00:00.000000000");
}

#[test]
fn render_utc_follows_the_pattern() {
    assert_eq!(render_utc(1_672_531_200, 0, "%Y"), "2023");
    assert_eq!(render_utc(1_672_531_200, 0, "%d/%m/%Y %H:%M"), "01/01/2023 00:00");
    assert_eq!(render_utc(1_700_000_000, 5, "%Y-%m-%d %H:%M:%S"), "2023-11-14 22:13:20");
    assert_eq!(render_utc(1_700_000_000, 5, "plain"), "plain");
    assert_eq!(render_utc(1_700_000_000, 5, ""), "");
}

#[test]
fn render_utc_before_the_epoch() {
    assert_eq!(render_utc(-1, 0, ISO), "1969-12-31T23:59:59.000000000");
    assert_eq!(render_utc(-86_400, 250_000_000, ISO), "1969-12-31T00:00:00.250000000");
}

#[test]
fn render_utc_agrees_with_chrono() {
    for (secs, nanos) in [(0i64, 0u32), (1, 1), (951_782_400, 999_999_999), (4_102_444_800, 7)] {
        let instant = DateTime::from_timestamp(secs, nanos).unwrap();
        assert_eq!(render_utc(secs, nanos, ISO), instant.format(ISO).to_string());
        assert_eq!(
            render_utc(secs, nanos, "%Y-%m-%dT%H:%M:%S%.fZ"),
            instant.to_rfc3339_opts(SecondsFormat::AutoSi, true)
        );
    }
}

#[test]
fn render_utc_of_what_cannot_be_an_instant_is_the_epoch() {
    assert_eq!(render_utc(0, 2_000_000_000, ISO), "1970-01-01T00:00:00.000000000");
    assert_eq!(render_utc(5, u32::MAX, "%Y-%m-%d"), "1970-01-01");
    assert_eq!(render_utc(i64::MAX, 0, "%Y-%m-%d"), "1970-01-01");
    assert_eq!(render_utc(i64::MIN, 0, "%Y-%m-%d"), "1970-01-01");
    assert_eq!(render_utc(0, 1_500_000_000, "%H:%M:%S"), "00:00:00");
}

#[test]
fn render_utc_at_the_ends_of_the_calendar() {
    assert_eq!(render_utc(8_210_266_876_799, 999_999_999, "%Y-%m-%d"), "+262142-12-31");
    assert_eq!(render_utc(8_210_266_876_800, 0, "%Y-%m-%d"), "1970-01-01");
    assert_eq!(render_utc(-8_334_601_228_800, 0, "%Y-%m-%d"), "-262143-01-01");
    assert_eq!(render_utc(-8_334_601_228_801, 0, "%Y-%m-%d"), "1970-01-01");
}

#[test]
fn render_utc_of_a_leap_second() {
    assert_eq!(render_utc(59, 1_500_000_000, "%H:%M:%S.%f"), "00:00:60.500000000");
}

#[test]
fn render_utc_with_a_pattern_that_is_none_writes_nothing() {
    assert_eq!(render_utc(0, 0, "%Q"), "");
}

#[test]
fn decode_published_at_of_whole_seconds() {
    assert_eq!(decode_published_at(0), "1970-01-01T00:00:00.000000000");
    assert_eq!(decode_published_at(1_672_531_200_000_000), "2023-01-01T00:00:00.000000000");
}

#[test]
fn decode_published_at_keeps_the_microseconds() {
    assert_eq!(decode_published_at(1_672_531_200_123_456), "2023-01-01T00:00:00.123456000");
    assert_eq!(decode_published_at(1), "1970-01-01T00:00:00.000001000");
    assert_eq!(decode_published_at(999_999), "1970-01-01T00:00:00.999999000");
    assert_eq!(decode_published_at(1_000_000), "1970-01-01T00:00:01.000000000");
}

#[test]
fn decode_published_at_before_the_epoch() {
    assert_eq!(decode_published_at(-1_000_000), "1969-12-31T23:59:59.000000000");
    assert_eq!(decode_published_at(-86_400_000_000), "1969-12-31T00:00:00.000000000");
}

#[test]
fn decode_published_at_of_a_fraction_before_the_epoch() {
    assert_eq!(decode_published_at(-1), "1969-12-31T23:59:59.999999000");
    assert_eq!(decode_published_at(-1_500_000), "1969-12-31T23:59:58.500000000");
    assert_eq!(decode_published_at(-999_999), "1969-12-31T23:59:59.000001000");
    assert_eq!(decode_published_at(-1_000_001), "1969-12-31T23:59:58.999999000");
}

#[test]
fn decode_published_at_tells_neighbouring_counts_apart() {
    let texts = [
        decode_published_at(-1_500_000),
        decode_published_at(-1_000_000),
        decode_published_at(-1),
        decode_published_at(0),
        decode_published_at(1),
    ];
    for i in 0..texts.len() {
        for j in (i + 1)..texts.len() {
            assert_ne!(texts[i], texts[j]);
        }
    }
}

#[test]
fn decode_published_at_beyond_the_calendar_is_the_epoch() {
    assert_eq!(decode_published_at(i64::MAX), "1970-01-01T00:00:00.000000000");
    assert_eq!(decode_published_at(i64::MIN), "1970-01-01T00:00:00.000000000");
    assert_eq!(decode_published_at(-8_334_601_228_800_000_001), "1970-01-01T00:00:00.000000000");
    assert_eq!(decode_published_at(-8_334_601_228_800_000_000), "-262143-01-01T00:00:00.000000000");
    assert_eq!(decode_published_at(8_210_266_876_800_000_000), "1970-01-01T00:00:00.000000000");
    assert_eq!(
        decode_published_at(8_210_266_876_799_999_999),
        "+262142-12-31T23:59:59.999999000"
    );
}

#[test]
fn decoded_text_reparses_to_the_same_instant() {
    let samples = [
        0i64,
        1,
        999,
        1_000,
        999_999,
        1_000_000,
        1_234_567,
        951_782_400_000_001,
        1_672_531_200_123_456,
        1_700_000_000_999_999,
        253_402_300_799_999_999,
        -1_000_000,
        -62_135_596_800_000_000,
        -1,
        -999,
        -1_500_000,
        -999_999,
        -1_000_001,
        -62_135_596_799_999_999,
    ];
    for micros in samples {
        assert_eq!(reparsed_micros(&decode_published_at(micros)), micros, "{}", micros);
    }
}

#[test]
fn seconds_and_nanoseconds_make_the_count() {
    for micros in [0i64, 7, 1_000_000, 1_672_531_200_123_456, -3_000_000, -1, -1_500_000] {
        let secs = micros.div_euclid(MICROS_PER_SECOND);
        let nanos = (micros.rem_euclid(MICROS_PER_SECOND) * 1000) as u32;
        assert!(nanos < 1_000_000_000);
        assert_eq!(secs as i128 * 1_000_000_000 + nanos as i128, micros as i128 * 1000);
        assert_eq!(decode_published_at(micros), render_utc(secs, nanos, ISO));
    }
}
