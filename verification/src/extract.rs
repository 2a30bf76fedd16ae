//! Message extraction: one pass over an opened source's submessages,
//! flattening each into a [`ParsedMessage`] and skipping the ones whose
//! point data cannot be extracted.

use vstd::math::min;
use vstd::prelude::*;

use crate::data::{
    flat_points, lemma_flat_from_push, msgs_view, MessageRec, ParsedMessage,
};
use crate::source::{
    lon_normalized, source_len, source_submessages, sub_category, sub_discipline, sub_forecast,
    sub_latlons, sub_number, sub_position, sub_surface, sub_values, GribSource, SubRecord,
};

verus! {

/// Positional pairing of lat/lon pairs with decoded values; the shorter of
/// the two sequences silently truncates the pairing.
pub open spec fn paired_points(ll: Seq<(u64, u64)>, vv: Seq<u32>) -> Seq<(u64, u64, u32)> {
    Seq::new(
        min(ll.len() as int, vv.len() as int) as nat,
        |i: int| (ll[i].0, ll[i].1, vv[i]),
    )
}

/// The composite message index `outer * 1000 + inner`, truncated to 32 bits.
/// Inner positions are assumed (not checked) to stay below 1000; beyond that
/// the composite keys may collide.
pub open spec fn composite_index(outer: usize, inner: usize) -> u32 {
    ((outer as int * 1000 + inner as int) % 0x1_0000_0000) as u32
}

/// The message one submessage record flattens to: absent metadata falls back
/// to the documented defaults, and a record whose lat/lon pairs or values
/// could not be extracted yields no message at all.
pub open spec fn sub_message(rec: SubRecord) -> Option<MessageRec> {
    match (rec.latlons, rec.values) {
        (Some(ll), Some(vv)) => Some(
            MessageRec {
                discipline: rec.discipline,
                parameter_category: match rec.category {
                    Some(c) => c,
                    None => 0,
                },
                parameter_number: match rec.number {
                    Some(n) => n,
                    None => 0,
                },
                forecast_time: match rec.forecast {
                    Some(t) => t as i64,
                    None => 0,
                },
                surface_type: match rec.surface {
                    Some(s) => s.0,
                    None => 0,
                },
                surface_value: match rec.surface {
                    Some(s) => s.1,
                    None => 0,
                },
                message_index: composite_index(rec.outer, rec.inner),
                points: paired_points(ll, vv),
            },
        ),
        _ => None,
    }
}

/// The message list that extraction yields from position `i` on, having
/// already accumulated `total` points: a record that flattens to no message
/// is skipped, as is one whose points could not be counted within `usize`
/// alongside the ones already taken.
pub open spec fn extract_from(subs: Seq<SubRecord>, i: int, total: nat) -> Seq<MessageRec>
    decreases subs.len() - i,
{
    if i < 0 || i >= subs.len() {
        Seq::empty()
    } else {
        match sub_message(subs[i]) {
            Some(m) => if total + m.points.len() <= usize::MAX as nat {
                seq![m] + extract_from(subs, i + 1, total + m.points.len())
            } else {
                extract_from(subs, i + 1, total)
            },
            None => extract_from(subs, i + 1, total),
        }
    }
}

/// The full message list extracted from a source's submessage records.
pub open spec fn extracted(subs: Seq<SubRecord>) -> Seq<MessageRec> {
    extract_from(subs, 0, 0)
}

/// Every longitude bit pattern in a point stream is decoder-normalized.
pub open spec fn all_lons_normalized(ps: Seq<crate::data::Grib2DataPoint>) -> bool {
    forall|i: int| 0 <= i < ps.len() ==> lon_normalized(#[trigger] ps[i].longitude)
}

/// Every longitude in one message's triples is decoder-normalized.
pub open spec fn msg_lons_normalized(m: MessageRec) -> bool {
    forall|j: int| 0 <= j < m.points.len() ==> lon_normalized(#[trigger] m.points[j].1)
}

/// Every longitude in a whole message list is decoder-normalized.
pub open spec fn msgs_lons_normalized(ms: Seq<MessageRec>) -> bool {
    forall|i: int| 0 <= i < ms.len() ==> msg_lons_normalized(#[trigger] ms[i])
}

/// Normalized longitudes in every message give normalized longitudes in the
/// flattened stream.
pub proof fn lemma_flat_lons_normalized(ms: Seq<MessageRec>, i: int)
    requires
        msgs_lons_normalized(ms),
    ensures
        all_lons_normalized(crate::data::flat_from(ms, i)),
    decreases ms.len() - i,
{
    if 0 <= i < ms.len() {
        lemma_flat_lons_normalized(ms, i + 1);
        let head = crate::data::message_points(ms[i]);
        let tail = crate::data::flat_from(ms, i + 1);
        assert forall|k: int| 0 <= k < (head + tail).len() implies lon_normalized(
            #[trigger] (head + tail)[k].longitude,
        ) by {
            if k < head.len() {
                assert((head + tail)[k] == head[k]);
                assert(head[k].longitude == ms[i].points[k].1);
            } else {
                assert((head + tail)[k] == tail[k - head.len()]);
            }
        }
    }
}

/// The composite position key, computed with wrapping arithmetic exactly as
/// [`composite_index`] states it.
fn compute_index(outer: usize, inner: usize) -> (r: u32)
    ensures
        r == composite_index(outer, inner),
{
    let modulus: u64 = 0x1_0000_0000;
    let o: u64 = (outer as u64) % modulus;
    let n: u64 = (inner as u64) % modulus;
    let wide: u64 = o * 1000 + n;
    let r: u32 = (wide % modulus) as u32;
    proof {
        let m: int = 0x1_0000_0000;
        let a = outer as int;
        let b = inner as int;
        vstd::arithmetic::div_mod::lemma_mul_mod_noop_left(a, 1000, m);
        vstd::arithmetic::div_mod::lemma_add_mod_noop(a % m * 1000, b % m, m);
        vstd::arithmetic::div_mod::lemma_add_mod_noop(a * 1000, b, m);
        vstd::arithmetic::div_mod::lemma_small_mod((b % m) as nat, m as nat);
        assert(r == (a * 1000 + b) % m);
    }
    r
}

impl ParsedMessage {
    /// Builds one message from the decoder-supplied parts of one submessage,
    /// substituting the documented defaults for absent metadata and pairing
    /// lat/lon entries positionally with values.
    pub fn from_parts(
        discipline: u8,
        category: Option<u8>,
        number: Option<u8>,
        forecast: Option<u32>,
        surface: Option<(u8, u64)>,
        outer: usize,
        inner: usize,
        latlons: Vec<(u64, u64)>,
        values: Vec<u32>,
    ) -> (m: ParsedMessage)
        ensures
            m.discipline == discipline,
            m.parameter_category == (match category {
                Some(c) => c,
                None => 0u8,
            }),
            m.parameter_number == (match number {
                Some(n) => n,
                None => 0u8,
            }),
            m.forecast_time == (match forecast {
                Some(t) => t as i64,
                None => 0i64,
            }),
            m.surface_type == (match surface {
                Some(s) => s.0,
                None => 0u8,
            }),
            m.surface_value == (match surface {
                Some(s) => s.1,
                None => 0u64,
            }),
            m.message_index == composite_index(outer, inner),
            m.points@ == paired_points(latlons@, values@),
    {
        let parameter_category = match category {
            Some(c) => c,
            None => 0,
        };
        let parameter_number = match number {
            Some(n) => n,
            None => 0,
        };
        let forecast_time: i64 = match forecast {
            Some(t) => t as i64,
            None => 0,
        };
        let (surface_type, surface_value) = match surface {
            Some(s) => s,
            None => (0, 0),
        };
        let message_index = compute_index(outer, inner);

        let n = if latlons.len() < values.len() {
            latlons.len()
        } else {
            values.len()
        };
        let mut points: Vec<(u64, u64, u32)> = Vec::new();
        let mut j: usize = 0;
        while j < n
            invariant
                n == min(latlons@.len() as int, values@.len() as int),
                j <= n,
                points@.len() == j,
                forall|k: int| 0 <= k < j ==> points@[k] == (
                    paired_points(latlons@, values@)
                )[k],
            decreases n - j,
        {
            let (la, lo) = latlons[j];
            points.push((la, lo, values[j]));
            j += 1;
        }
        proof {
            assert(points@ =~= paired_points(latlons@, values@));
        }
        ParsedMessage {
            discipline,
            parameter_category,
            parameter_number,
            forecast_time,
            surface_type,
            surface_value,
            message_index,
            points,
        }
    }
}

/// Drains an opened source once into the flattened in-memory message list.
/// A submessage whose lat/lon pairs or decoded values cannot be extracted is
/// skipped and never fails the whole pass.
pub(crate) fn extract_messages(g: &GribSource) -> (r: Vec<ParsedMessage>)
    ensures
        msgs_view(r@) == extracted(source_submessages(*g)),
        flat_points(msgs_view(r@)).len() <= usize::MAX as nat,
        msgs_lons_normalized(msgs_view(r@)),
{
    let ghost subs = source_submessages(*g);
    let n = source_len(g);
    let mut msgs: Vec<ParsedMessage> = Vec::new();
    let mut total: usize = 0;
    let mut i: usize = 0;
    while i < n
        invariant
            n == subs.len(),
            subs == source_submessages(*g),
            i <= n,
            total as nat == flat_points(msgs_view(msgs@)).len(),
            extracted(subs) == msgs_view(msgs@) + extract_from(subs, i as int, total as nat),
            msgs_lons_normalized(msgs_view(msgs@)),
        decreases n - i,
    {
        let ghost rec = subs[i as int];
        let pos = sub_position(g, i);
        let disc = sub_discipline(g, i);
        let cat = sub_category(g, i);
        let num = sub_number(g, i);
        let fct = sub_forecast(g, i);
        let surf = sub_surface(g, i);
        let lls = sub_latlons(g, i);
        let vals = sub_values(g, i);
        match (lls, vals) {
            (Some(ll), Some(vv)) => {
                let ghost lons = ll@;
                let m = ParsedMessage::from_parts(
                    disc,
                    cat,
                    num,
                    fct,
                    surf,
                    pos.0,
                    pos.1,
                    ll,
                    vv,
                );
                proof {
                    assert(sub_message(rec) =~= Some(m@));
                    assert forall|j: int| 0 <= j < m@.points.len() implies lon_normalized(
                        #[trigger] m@.points[j].1,
                    ) by {
                        assert(m@.points[j].1 == lons[j].1);
                    }
                }
                match total.checked_add(m.points.len()) {
                    Some(t) => {
                        proof {
                            lemma_flat_from_push(msgs_view(msgs@), m@, 0);
                            assert(msgs_view(msgs@.push(m)) =~= msgs_view(msgs@).push(m@));
                            assert(extracted(subs) =~= msgs_view(msgs@.push(m)) + extract_from(
                                subs,
                                i as int + 1,
                                t as nat,
                            ));
                        }
                        msgs.push(m);
                        total = t;
                    },
                    None => {
                        proof {
                            assert(extract_from(subs, i as int, total as nat)
                                == extract_from(subs, i as int + 1, total as nat));
                        }
                    },
                }
            },
            _ => {
                proof {
                    assert(sub_message(rec) is None);
                }
            },
        }
        i += 1;
    }
    proof {
        assert(extract_from(subs, n as int, total as nat) =~= Seq::empty());
        assert(msgs_view(msgs@) =~= extracted(subs));
    }
    msgs
}

} // verus!
