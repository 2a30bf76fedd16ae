//! Batch streaming over synthetic message lists.

use grib2_stream::data::{Grib2Batch, Grib2DataPoint, ParsedMessage};
use grib2_stream::reader::Grib2Reader;

fn msg(index: u32, discipline: u8, pts: &[(f64, f64, f32)]) -> ParsedMessage {
    ParsedMessage {
        discipline,
        parameter_category: 10,
        parameter_number: 20,
        forecast_time: 6,
        surface_type: 1,
        surface_value: 2.5f64.to_bits(),
        message_index: index,
        points: pts
            .iter()
            .map(|&(la, lo, v)| (la.to_bits(), lo.to_bits(), v.to_bits()))
            .collect(),
    }
}

fn batch_pts(b: &Grib2Batch) -> Vec<Grib2DataPoint> {
    match &b.data {
        Some(v) => v.clone(),
        None => Vec::new(),
    }
}

fn two_message_reader() -> Grib2Reader {
    let m0 = msg(0, 1, &[(10.0, 20.0, 1.5), (11.0, 21.0, 2.5), (12.0, 22.0, 3.5)]);
    let m1 = msg(
        1000,
        2,
        &[
            (50.0, -120.0, 4.5),
            (51.0, -121.0, 5.5),
            (52.0, -122.0, 6.5),
            (53.0, -123.0, 7.5),
            (54.0, -124.0, 8.5),
        ],
    );
    Grib2Reader::from_messages(vec![m0, m1])
}

#[test]
fn two_submessages_batched_four_and_four() {
    let mut r = two_message_reader();
    assert_eq!(r.total_points(), 8);

    let b1 = r.read_batch(4);
    assert_eq!(b1.count, 4);
    assert!(b1.has_more);
    assert!(b1.error.is_none());

    let b2 = r.read_batch(4);
    assert_eq!(b2.count, 4);
    assert!(!b2.has_more);
    assert!(b2.error.is_none());

    let all: Vec<Grib2DataPoint> = batch_pts(&b1).into_iter().chain(batch_pts(&b2)).collect();
    let lats: Vec<f64> = all.iter().map(|p| f64::from_bits(p.latitude)).collect();
    assert_eq!(lats, vec![10.0, 11.0, 12.0, 50.0, 51.0, 52.0, 53.0, 54.0]);
    let vals: Vec<f32> = all.iter().map(|p| f32::from_bits(p.value)).collect();
    assert_eq!(vals, vec![1.5, 2.5, 3.5, 4.5, 5.5, 6.5, 7.5, 8.5]);

    // Each point carries its own message's metadata.
    assert_eq!(all[0].discipline, 1);
    assert_eq!(all[0].message_index, 0);
    assert_eq!(all[3].discipline, 2);
    assert_eq!(all[3].message_index, 1000);
    assert_eq!(all[7].forecast_time, 6);
    assert_eq!(f64::from_bits(all[7].surface_value), 2.5);
}

#[test]
fn size_invariance_across_batchings() {
    let mut a = two_message_reader();
    let mut b = two_message_reader();
    let mut c = two_message_reader();

    let mut pa: Vec<Grib2DataPoint> = Vec::new();
    for k in [3usize, 5] {
        pa.extend(batch_pts(&a.read_batch(k)));
    }
    let mut pb: Vec<Grib2DataPoint> = Vec::new();
    pb.extend(batch_pts(&b.read_batch(8)));
    let mut pc: Vec<Grib2DataPoint> = Vec::new();
    for k in [2usize, 2, 2, 2] {
        pc.extend(batch_pts(&c.read_batch(k)));
    }

    assert_eq!(pa, pb);
    assert_eq!(pb, pc);
    assert_eq!(pa.len(), 8);
}

#[test]
fn total_accounting_with_uneven_batches() {
    let mut r = two_message_reader();
    let total = r.total_points();
    let mut delivered = 0usize;
    loop {
        let b = r.read_batch(3);
        delivered += b.count;
        if !b.has_more {
            break;
        }
    }
    assert_eq!(delivered, total);
}

#[test]
fn exhaustion_is_monotonic() {
    let mut r = two_message_reader();
    let b = r.read_batch(100);
    assert_eq!(b.count, 8);
    assert!(!b.has_more);
    for _ in 0..3 {
        let again = r.read_batch(7);
        assert_eq!(again.count, 0);
        assert!(!again.has_more);
        assert!(again.data.is_none());
        assert!(again.error.is_none());
    }
}

#[test]
fn zero_max_count_does_not_advance_or_exhaust() {
    let mut r = two_message_reader();
    let b0 = r.read_batch(0);
    assert_eq!(b0.count, 0);
    assert!(b0.data.is_none());
    assert!(b0.has_more);
    let b1 = r.read_batch(8);
    assert_eq!(b1.count, 8);
}

#[test]
fn empty_reader_reads_empty_without_error() {
    let mut r = Grib2Reader::from_messages(Vec::new());
    assert_eq!(r.total_points(), 0);
    let b = r.read_batch(16);
    assert_eq!(b.count, 0);
    assert!(!b.has_more);
    assert!(b.data.is_none());
    assert!(b.error.is_none());
}

#[test]
fn messages_without_points_contribute_nothing() {
    let m0 = msg(0, 1, &[]);
    let m1 = msg(1, 1, &[(1.0, 2.0, 3.0)]);
    let m2 = msg(2, 1, &[]);
    let mut r = Grib2Reader::from_messages(vec![m0, m1, m2]);
    assert_eq!(r.total_points(), 1);
    let b = r.read_batch(5);
    assert_eq!(b.count, 1);
    assert!(!b.has_more);
}

#[test]
fn batch_is_independent_of_its_reader() {
    let mut r = two_message_reader();
    let b1 = r.read_batch(2);
    let kept = batch_pts(&b1);
    drop(b1);
    // Releasing a batch never affects the reader.
    let b2 = r.read_batch(100);
    assert_eq!(b2.count, 6);
    drop(r);
    // Closing the reader never affects points already handed out.
    assert_eq!(f64::from_bits(kept[0].latitude), 10.0);
    // Releasing a batch whose buffer and error are already absent is a no-op.
    let empty = Grib2Batch { data: None, count: 0, has_more: false, error: None };
    drop(empty);
}
