//! The trusted boundary to the `grib` decoder. Everything below either
//! declares an outside type, names what an outside call returns, or wraps a
//! call of the `grib` crate whose stated result this library's proofs then
//! rely on; nothing in this module is verified.

use grib::LatLons;
use vstd::prelude::*;

verus! {

#[verifier::external_type_specification]
#[verifier::external_body]
#[verifier::reject_recursive_types(R)]
pub struct ExGrib2<R>(grib::Grib2<R>);

#[verifier::external_type_specification]
#[verifier::external_body]
#[verifier::reject_recursive_types(R)]
pub struct ExSeekableGrib2Reader<R>(grib::SeekableGrib2Reader<R>);

#[verifier::external_type_specification]
#[verifier::external_body]
#[verifier::reject_recursive_types(T)]
pub struct ExCursor<T>(std::io::Cursor<T>);

/// An opened GRIB2 source: the decoder's parsed view over one owned copy of
/// the caller's bytes.
pub struct GribSource {
    inner: grib::Grib2<grib::SeekableGrib2Reader<std::io::Cursor<Vec<u8>>>>,
}

/// What this layer reads of one submessage of an opened source: its position
/// key, its metadata (each piece optional where the decoder may not supply
/// it), its lat/lon pairs as double-precision bit patterns and its decoded
/// values as single-precision ones, `None` where extraction fails for that
/// submessage alone.
pub ghost struct SubRecord {
    pub outer: usize,
    pub inner: usize,
    pub discipline: u8,
    pub category: Option<u8>,
    pub number: Option<u8>,
    pub forecast: Option<u32>,
    pub surface: Option<(u8, u64)>,
    pub latlons: Option<Seq<(u64, u64)>>,
    pub values: Option<Seq<u32>>,
}

pub uninterp spec fn grib_parses(bytes: Seq<u8>) -> bool;

pub uninterp spec fn grib_submessages(bytes: Seq<u8>) -> Seq<SubRecord>;

pub uninterp spec fn source_submessages(g: GribSource) -> Seq<SubRecord>;

/// Holds of a bit pattern whose double-precision value is a longitude within
/// the normalized range: `grib::LatLons::latlons` documents that every
/// longitude it returns is converted to fall within [-180, 180] degrees.
pub uninterp spec fn lon_normalized(bits: u64) -> bool;

/// Lifts an optional vector of pairs to its mathematical value.
pub open spec fn lift_pairs(r: Option<Vec<(u64, u64)>>) -> Option<Seq<(u64, u64)>> {
    match r {
        Some(v) => Some(v@),
        None => None,
    }
}

/// Lifts an optional vector of values to its mathematical value.
pub open spec fn lift_vals(r: Option<Vec<u32>>) -> Option<Seq<u32>> {
    match r {
        Some(v) => Some(v@),
        None => None,
    }
}

/// Relies on `grib::from_bytes`: parsing succeeds or fails on the bytes
/// alone, and an opened source holds the submessages of exactly those bytes.
/// On failure the decoder's diagnostic is wrapped into a nonempty message.
#[verifier::external_body]
pub(crate) fn parse_source(data: &[u8]) -> (r: Result<GribSource, String>)
    ensures
        r is Ok <==> grib_parses(data@),
        (r matches Ok(g) ==> source_submessages(g) == grib_submessages(data@)),
        (r matches Err(e) ==> e@.len() > 0),
{
    match grib::from_bytes(data.to_vec()) {
        Ok(inner) => Ok(GribSource { inner }),
        Err(e) => Err(format!("Failed to parse GRIB: {}", e)),
    }
}

/// Relies on `grib::Grib2::len`: the number of submessages in the source,
/// which is also the number its submessage iterator yields.
#[verifier::external_body]
pub(crate) fn source_len(g: &GribSource) -> (n: usize)
    ensures
        n == source_submessages(*g).len(),
{
    g.inner.len()
}

/// Relies on `grib::SubmessageIterator::nth`: submessage `i`'s
/// (outer, inner) position key.
#[verifier::external_body]
pub(crate) fn sub_position(g: &GribSource, i: usize) -> (r: (usize, usize))
    requires
        i < source_submessages(*g).len(),
    ensures
        r.0 == source_submessages(*g)[i as int].outer,
        r.1 == source_submessages(*g)[i as int].inner,
{
    let (idx, _) = g.inner.iter().nth(i).unwrap();
    idx
}

/// Relies on `grib::SubMessage::indicator`: the discipline code from
/// submessage `i`'s indicator section.
#[verifier::external_body]
pub(crate) fn sub_discipline(g: &GribSource, i: usize) -> (d: u8)
    requires
        i < source_submessages(*g).len(),
    ensures
        d == source_submessages(*g)[i as int].discipline,
{
    let (_, sub) = g.inner.iter().nth(i).unwrap();
    sub.indicator().discipline
}

/// Relies on `grib::ProdDefinition::parameter_category`: the parameter
/// category of submessage `i`, absent where its template is unsupported.
#[verifier::external_body]
pub(crate) fn sub_category(g: &GribSource, i: usize) -> (r: Option<u8>)
    requires
        i < source_submessages(*g).len(),
    ensures
        r == source_submessages(*g)[i as int].category,
{
    let (_, sub) = g.inner.iter().nth(i).unwrap();
    sub.prod_def().parameter_category()
}

/// Relies on `grib::ProdDefinition::parameter_number`: the parameter number
/// of submessage `i`, absent where its template is unsupported.
#[verifier::external_body]
pub(crate) fn sub_number(g: &GribSource, i: usize) -> (r: Option<u8>)
    requires
        i < source_submessages(*g).len(),
    ensures
        r == source_submessages(*g)[i as int].number,
{
    let (_, sub) = g.inner.iter().nth(i).unwrap();
    sub.prod_def().parameter_number()
}

/// Relies on `grib::ProdDefinition::forecast_time`: the forecast-time value
/// of submessage `i`, absent where the decoder cannot supply one.
#[verifier::external_body]
pub(crate) fn sub_forecast(g: &GribSource, i: usize) -> (r: Option<u32>)
    requires
        i < source_submessages(*g).len(),
    ensures
        r == source_submessages(*g)[i as int].forecast,
{
    let (_, sub) = g.inner.iter().nth(i).unwrap();
    sub.prod_def().forecast_time().map(|ft| ft.value)
}

/// Relies on `grib::ProdDefinition::fixed_surfaces` and
/// `grib::FixedSurface::value`: the first fixed surface of submessage `i` as
/// its type code and its value's f64 bit pattern, absent where the submessage
/// defines none.
#[verifier::external_body]
pub(crate) fn sub_surface(g: &GribSource, i: usize) -> (r: Option<(u8, u64)>)
    requires
        i < source_submessages(*g).len(),
    ensures
        r == source_submessages(*g)[i as int].surface,
{
    let (_, sub) = g.inner.iter().nth(i).unwrap();
    sub.prod_def()
        .fixed_surfaces()
        .map(|(first, _)| (first.surface_type, first.value().to_bits()))
}

/// Relies on `grib::LatLons::latlons` on `grib::SubMessage`: the grid's
/// (latitude, longitude) pairs in grid order as double-precision bit
/// patterns, with every longitude already reduced to [-180, 180] degrees by
/// the decoder; `None` where lat/lon extraction fails for this submessage.
#[verifier::external_body]
pub(crate) fn sub_latlons(g: &GribSource, i: usize) -> (r: Option<Vec<(u64, u64)>>)
    requires
        i < source_submessages(*g).len(),
    ensures
        lift_pairs(r) == source_submessages(*g)[i as int].latlons,
        (r matches Some(v) ==> forall|j: int|
            0 <= j < v@.len() ==> lon_normalized(#[trigger] v@[j].1)),
{
    let (_, sub) = g.inner.iter().nth(i).unwrap();
    match sub.latlons() {
        Ok(it) => Some(it.map(|(la, lo)| (la.to_bits(), lo.to_bits())).collect()),
        Err(_) => None,
    }
}

/// Relies on `grib::Grib2SubmessageDecoder::from` and its `dispatch`: the
/// decoded grid values of submessage `i` in grid order as the decoder's
/// single-precision bit patterns, `None` where either step fails for this
/// submessage.
#[verifier::external_body]
pub(crate) fn sub_values(g: &GribSource, i: usize) -> (r: Option<Vec<u32>>)
    requires
        i < source_submessages(*g).len(),
    ensures
        lift_vals(r) == source_submessages(*g)[i as int].values,
{
    let (_, sub) = g.inner.iter().nth(i).unwrap();
    let dec = match grib::Grib2SubmessageDecoder::from(sub) {
        Ok(d) => d,
        Err(_) => return None,
    };
    let r = match dec.dispatch() {
        Ok(vals) => Some(vals.map(|v| v.to_bits()).collect()),
        Err(_) => None,
    };
    r
}

} // verus!
