//! The data model: flattened points, per-submessage records, batches, and the
//! specification-level view of both.

use vstd::prelude::*;

verus! {

/// One flattened data point. `latitude`, `longitude` and `surface_value`
/// hold IEEE-754 double-precision bit patterns; `value` holds the decoder's
/// single-precision bit pattern; the remaining fields are copies of the
/// owning message's metadata.
#[derive(Clone, Copy, PartialEq, Eq, Structural, Debug)]
pub struct Grib2DataPoint {
    pub latitude: u64,
    pub longitude: u64,
    pub value: u32,
    pub discipline: u8,
    pub parameter_category: u8,
    pub parameter_number: u8,
    pub forecast_time: i64,
    pub surface_type: u8,
    pub surface_value: u64,
    pub message_index: u32,
}

/// One decoded submessage, fully flattened: metadata plus its ordered
/// `(latitude, longitude, value)` bit-pattern triples.
pub struct ParsedMessage {
    pub discipline: u8,
    pub parameter_category: u8,
    pub parameter_number: u8,
    pub forecast_time: i64,
    pub surface_type: u8,
    pub surface_value: u64,
    pub message_index: u32,
    pub points: Vec<(u64, u64, u32)>,
}

/// The mathematical value of a [`ParsedMessage`].
#[verifier::ext_equal]
pub ghost struct MessageRec {
    pub discipline: u8,
    pub parameter_category: u8,
    pub parameter_number: u8,
    pub forecast_time: i64,
    pub surface_type: u8,
    pub surface_value: u64,
    pub message_index: u32,
    pub points: Seq<(u64, u64, u32)>,
}

impl View for ParsedMessage {
    type V = MessageRec;

    open spec fn view(&self) -> MessageRec {
        MessageRec {
            discipline: self.discipline,
            parameter_category: self.parameter_category,
            parameter_number: self.parameter_number,
            forecast_time: self.forecast_time,
            surface_type: self.surface_type,
            surface_value: self.surface_value,
            message_index: self.message_index,
            points: self.points@,
        }
    }
}

/// The mathematical value of a list of messages.
pub open spec fn msgs_view(ms: Seq<ParsedMessage>) -> Seq<MessageRec> {
    ms.map_values(|m: ParsedMessage| m@)
}

/// The data point that message `m` contributes for its raw triple `p`.
pub open spec fn point_from(m: MessageRec, p: (u64, u64, u32)) -> Grib2DataPoint {
    Grib2DataPoint {
        latitude: p.0,
        longitude: p.1,
        value: p.2,
        discipline: m.discipline,
        parameter_category: m.parameter_category,
        parameter_number: m.parameter_number,
        forecast_time: m.forecast_time,
        surface_type: m.surface_type,
        surface_value: m.surface_value,
        message_index: m.message_index,
    }
}

/// All data points of one message, in the order its triples were decoded.
pub open spec fn message_points(m: MessageRec) -> Seq<Grib2DataPoint> {
    m.points.map_values(|p: (u64, u64, u32)| point_from(m, p))
}

/// The concatenation of all messages' points from position `i` on.
pub open spec fn flat_from(ms: Seq<MessageRec>, i: int) -> Seq<Grib2DataPoint>
    decreases ms.len() - i,
{
    if i < 0 || i >= ms.len() {
        Seq::empty()
    } else {
        message_points(ms[i]) + flat_from(ms, i + 1)
    }
}

/// The full flattened point stream of a message list.
pub open spec fn flat_points(ms: Seq<MessageRec>) -> Seq<Grib2DataPoint> {
    flat_from(ms, 0)
}

/// Appending a message extends the flattened stream by that message's points.
pub proof fn lemma_flat_from_push(ms: Seq<MessageRec>, m: MessageRec, i: int)
    requires
        0 <= i <= ms.len(),
    ensures
        flat_from(ms.push(m), i) == flat_from(ms, i) + message_points(m),
    decreases ms.len() - i,
{
    if i == ms.len() {
        assert(flat_from(ms.push(m), i + 1) =~= Seq::empty());
        assert(ms.push(m)[i] == m);
        assert(flat_from(ms.push(m), i) =~= flat_from(ms, i) + message_points(m));
    } else {
        lemma_flat_from_push(ms, m, i + 1);
        assert(ms.push(m)[i] == ms[i]);
        assert(flat_from(ms.push(m), i) =~= flat_from(ms, i) + message_points(m));
    }
}

/// A batch of points handed to the caller. An empty batch carries no buffer
/// at all (`data` is `None`), mirroring the absent-pointer convention of the
/// transfer boundary.
pub struct Grib2Batch {
    pub data: Option<Vec<Grib2DataPoint>>,
    pub count: usize,
    pub has_more: bool,
    pub error: Option<String>,
}

/// The point sequence a batch carries.
pub open spec fn batch_points(b: Grib2Batch) -> Seq<Grib2DataPoint> {
    match b.data {
        Some(v) => v@,
        None => Seq::empty(),
    }
}

/// A batch is well formed when its count matches its buffer and an empty
/// batch carries no buffer.
pub open spec fn batch_wf(b: Grib2Batch) -> bool {
    &&& b.count == batch_points(b).len()
    &&& (b.data is None <==> b.count == 0)
}

/// Result of the whole-file read: one maximal batch with no `has_more` flag.
pub struct Grib2ReadResult {
    pub data: Option<Vec<Grib2DataPoint>>,
    pub count: usize,
    pub error: Option<String>,
}

/// The point sequence a whole-file result carries.
pub open spec fn result_points(r: Grib2ReadResult) -> Seq<Grib2DataPoint> {
    match r.data {
        Some(v) => v@,
        None => Seq::empty(),
    }
}

} // verus!
