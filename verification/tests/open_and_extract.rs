//! Opening byte sources and flattening decoder-supplied parts.

use grib2_stream::data::ParsedMessage;
use grib2_stream::reader::Grib2Reader;

#[test]
fn empty_bytes_rejected_before_any_decode() {
    let r = Grib2Reader::from_bytes(&[]);
    match r {
        Ok(_) => panic!("empty input must be rejected"),
        Err(e) => assert!(!e.is_empty()),
    }
}

/// A GRIB indicator section announcing an unsupported edition: the decoder
/// rejects the whole source outright.
fn wrong_edition_source() -> Vec<u8> {
    let mut b = Vec::new();
    b.extend_from_slice(b"GRIB");
    b.extend_from_slice(&[0, 0]); // reserved
    b.push(0); // discipline
    b.push(1); // edition: not 2
    b.extend_from_slice(&32u64.to_be_bytes()); // declared total length
    b
}

#[test]
fn undecodable_bytes_fail_the_open_with_a_diagnostic() {
    let r = Grib2Reader::from_bytes(&wrong_edition_source());
    match r {
        Ok(_) => panic!("a wrong-edition source must fail the open"),
        Err(e) => assert!(!e.is_empty()),
    }
}

#[test]
fn magicless_bytes_open_as_an_empty_source() {
    // The decoder scans for the GRIB magic and treats a source without one
    // as holding no submessages at all.
    let r = Grib2Reader::from_bytes(b"this is not a gridded weather file")
        .expect("a source without any GRIB message opens empty");
    assert_eq!(r.total_points(), 0);
}

#[test]
fn whole_file_read_reports_the_open_failure() {
    let r = Grib2Reader::read_entire(&wrong_edition_source());
    assert_eq!(r.count, 0);
    assert!(r.data.is_none());
    let e = r.error.expect("an undecodable source must yield an error");
    assert!(!e.is_empty());
}

#[test]
fn whole_file_read_of_empty_bytes_fails() {
    let r = Grib2Reader::read_entire(&[]);
    assert_eq!(r.count, 0);
    assert!(r.data.is_none());
    assert!(r.error.is_some());
}

#[test]
fn from_parts_applies_documented_defaults() {
    let m = ParsedMessage::from_parts(
        7,
        None,
        None,
        None,
        None,
        0,
        0,
        vec![(1.0f64.to_bits(), 2.0f64.to_bits())],
        vec![3.0f32.to_bits()],
    );
    assert_eq!(m.discipline, 7);
    assert_eq!(m.parameter_category, 0);
    assert_eq!(m.parameter_number, 0);
    assert_eq!(m.forecast_time, 0);
    assert_eq!(m.surface_type, 0);
    assert_eq!(f64::from_bits(m.surface_value), 0.0);
    assert_eq!(m.message_index, 0);
    assert_eq!(m.points.len(), 1);
}

#[test]
fn from_parts_keeps_supplied_metadata() {
    let m = ParsedMessage::from_parts(
        0,
        Some(3),
        Some(4),
        Some(12),
        Some((100, 850.0f64.to_bits())),
        2,
        7,
        Vec::new(),
        Vec::new(),
    );
    assert_eq!(m.parameter_category, 3);
    assert_eq!(m.parameter_number, 4);
    assert_eq!(m.forecast_time, 12);
    assert_eq!(m.surface_type, 100);
    assert_eq!(f64::from_bits(m.surface_value), 850.0);
    assert_eq!(m.message_index, 2007);
    assert!(m.points.is_empty());
}

#[test]
fn from_parts_truncates_to_the_shorter_sequence() {
    let ll = vec![
        (1.0f64.to_bits(), 10.0f64.to_bits()),
        (2.0f64.to_bits(), 20.0f64.to_bits()),
        (3.0f64.to_bits(), 30.0f64.to_bits()),
    ];
    let vv = vec![5.0f32.to_bits(), 6.0f32.to_bits()];
    let m = ParsedMessage::from_parts(0, None, None, None, None, 0, 1, ll, vv);
    assert_eq!(m.points.len(), 2);
    assert_eq!(f64::from_bits(m.points[1].0), 2.0);
    assert_eq!(f64::from_bits(m.points[1].1), 20.0);
    assert_eq!(f32::from_bits(m.points[1].2), 6.0);
    assert_eq!(m.message_index, 1);
}

#[test]
fn composite_index_truncates_to_32_bits() {
    let m = ParsedMessage::from_parts(
        0,
        None,
        None,
        None,
        None,
        5_000_000,
        3,
        Vec::new(),
        Vec::new(),
    );
    // 5_000_000 * 1000 + 3 reduced modulo 2^32.
    assert_eq!(m.message_index, ((5_000_000u64 * 1000 + 3) % (1u64 << 32)) as u32);
}
