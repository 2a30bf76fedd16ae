//! The streaming reader: a closed message list produced once at open time,
//! and a forward-only cursor that serves the flattened point stream in
//! caller-sized batches.

use vstd::math::min;
use vstd::prelude::*;

use crate::data::{
    batch_points, batch_wf, flat_from, flat_points, message_points, msgs_view, result_points,
    Grib2Batch, Grib2DataPoint, Grib2ReadResult, MessageRec, ParsedMessage,
};
use crate::extract::{
    all_lons_normalized, extract_messages, extracted, lemma_flat_lons_normalized,
};
use crate::source::{grib_parses, grib_submessages, parse_source};

verus! {

broadcast use vstd::string::group_string_axioms;

/// Streaming reader over one decoded source: the full message list, owned and
/// immutable after construction, plus the cursor (message index,
/// point-within-message index), which only ever moves forward.
pub struct Grib2Reader {
    messages: Vec<ParsedMessage>,
    current_message: usize,
    current_point: usize,
}

impl Grib2Reader {
    /// The decoded message list.
    pub closed spec fn msgs(&self) -> Seq<MessageRec> {
        msgs_view(self.messages@)
    }

    /// A reader is exhausted when its cursor has passed the last message.
    pub closed spec fn exhausted(&self) -> bool {
        self.current_message == self.messages@.len()
    }

    /// The cursor sits inside the message list, inside the current message's
    /// points, at rest at the very end when exhausted; and the full stream is
    /// countable within `usize`.
    pub closed spec fn wf(&self) -> bool {
        &&& self.current_message <= self.messages@.len()
        &&& (self.current_message < self.messages@.len() ==> self.current_point
            <= self.msgs()[self.current_message as int].points.len())
        &&& (self.current_message == self.messages@.len() ==> self.current_point == 0)
        &&& flat_points(self.msgs()).len() <= usize::MAX as nat
    }

    /// The points not yet delivered, in delivery order.
    pub closed spec fn remaining(&self) -> Seq<Grib2DataPoint> {
        if self.current_message < self.messages@.len() {
            message_points(self.msgs()[self.current_message as int]).skip(
                self.current_point as int,
            ) + flat_from(self.msgs(), self.current_message as int + 1)
        } else {
            Seq::empty()
        }
    }

    /// An exhausted reader has nothing left to deliver.
    pub proof fn lemma_exhausted_no_points(&self)
        requires
            self.wf(),
            self.exhausted(),
        ensures
            self.remaining() == Seq::<Grib2DataPoint>::empty(),
    {
    }

    /// Wraps an already-extracted message list, with the cursor at the start
    /// so that everything is still to be delivered.
    pub fn from_messages(messages: Vec<ParsedMessage>) -> (r: Grib2Reader)
        requires
            flat_points(msgs_view(messages@)).len() <= usize::MAX as nat,
        ensures
            r.wf(),
            r.msgs() == msgs_view(messages@),
            r.remaining() == flat_points(msgs_view(messages@)),
            r.exhausted() <==> messages@.len() == 0,
    {
        let r = Grib2Reader { messages, current_message: 0, current_point: 0 };
        proof {
            if r.messages@.len() > 0 {
                assert(message_points(r.msgs()[0]).skip(0) =~= message_points(r.msgs()[0]));
                assert(r.remaining() =~= flat_points(r.msgs()));
            } else {
                assert(r.remaining() =~= flat_points(r.msgs()));
            }
        }
        r
    }

    /// Opens a reader over a byte source: parse, then extract every
    /// submessage eagerly. Construction is atomic; on any failure no reader
    /// exists at all.
    fn open_parsed(data: &[u8]) -> (r: Result<Grib2Reader, String>)
        ensures
            r is Ok <==> grib_parses(data@),
            (r matches Ok(rd) ==> {
                &&& rd.wf()
                &&& rd.msgs() == extracted(grib_submessages(data@))
                &&& rd.remaining() == flat_points(rd.msgs())
                &&& all_lons_normalized(rd.remaining())
            }),
            (r matches Err(e) ==> e@.len() > 0),
    {
        match parse_source(data) {
            Ok(src) => {
                let messages = extract_messages(&src);
                proof {
                    lemma_flat_lons_normalized(msgs_view(messages@), 0);
                }
                Ok(Self::from_messages(messages))
            },
            Err(e) => Err(e),
        }
    }

    /// Opens a reader over in-memory bytes; the bytes are copied, so the
    /// caller's buffer need not outlive the call. Empty input is rejected
    /// before any decode attempt; a source the decoder rejects outright fails
    /// the open with the decoder's diagnostic; a failure confined to a single
    /// submessage merely skips that submessage.
    pub fn from_bytes(data: &[u8]) -> (r: Result<Grib2Reader, String>)
        ensures
            r is Ok <==> (data@.len() > 0 && grib_parses(data@)),
            (r matches Ok(rd) ==> {
                &&& rd.wf()
                &&& rd.msgs() == extracted(grib_submessages(data@))
                &&& rd.remaining() == flat_points(rd.msgs())
                &&& all_lons_normalized(rd.remaining())
            }),
            (r matches Err(e) ==> e@.len() > 0),
            data@.len() == 0 ==> r is Err,
    {
        if data.len() == 0 {
            proof {
                reveal_strlit("Empty or null data");
            }
            return Err("Empty or null data".to_string());
        }
        Self::open_parsed(data)
    }

    /// Total number of data points over all messages, independent of how far
    /// the cursor has advanced.
    pub fn total_points(&self) -> (n: usize)
        requires
            self.wf(),
        ensures
            n as nat == flat_points(self.msgs()).len(),
    {
        let mut n: usize = 0;
        let mut i: usize = 0;
        while i < self.messages.len()
            invariant
                i <= self.messages@.len(),
                self.wf(),
                n as nat + flat_from(self.msgs(), i as int).len() == flat_points(
                    self.msgs(),
                ).len(),
            decreases self.messages@.len() - i,
        {
            n = n + self.messages[i].points.len();
            i = i + 1;
        }
        n
    }

    /// Copies up to `max_count` points starting at the cursor, advancing the
    /// cursor past them. The batch is exactly the next points of the stream;
    /// `has_more` reflects the cursor's position after the call, false
    /// exactly when the reader is exhausted; reading from an exhausted reader
    /// yields an empty batch, leaves the reader exhausted, and is no error.
    pub fn read_batch(&mut self, max_count: usize) -> (b: Grib2Batch)
        requires
            old(self).wf(),
        ensures
            final(self).wf(),
            final(self).msgs() == old(self).msgs(),
            batch_wf(b),
            b.error is None,
            b.count as int == min(max_count as int, old(self).remaining().len() as int),
            batch_points(b) == old(self).remaining().take(b.count as int),
            final(self).remaining() == old(self).remaining().skip(b.count as int),
            b.has_more == !final(self).exhausted(),
            b.count < max_count ==> !b.has_more,
            !b.has_more ==> final(self).remaining() == Seq::<Grib2DataPoint>::empty(),
            old(self).exhausted() ==> final(self).exhausted(),
    {
        let ghost r0 = old(self).remaining();
        let mut points: Vec<Grib2DataPoint> = Vec::new();

        while points.len() < max_count && self.current_message < self.messages.len()
            invariant
                self.wf(),
                self.msgs() == old(self).msgs(),
                points@.len() <= max_count,
                points@ + self.remaining() == r0,
                old(self).exhausted() ==> self.exhausted(),
            decreases
                    self.messages@.len() - self.current_message,
                    max_count - points@.len(),
        {
            let ghost cm = self.current_message as int;
            let msg_len = self.messages[self.current_message].points.len();

            while self.current_point < msg_len && points.len() < max_count
                invariant
                    self.wf(),
                    self.msgs() == old(self).msgs(),
                    self.current_message < self.messages@.len(),
                    self.current_message == cm,
                    msg_len == self.msgs()[cm].points.len(),
                    points@.len() <= max_count,
                    points@ + self.remaining() == r0,
                decreases msg_len - self.current_point,
            {
                let ghost pre_points = points@;
                let ghost pre_rem = self.remaining();
                let ghost cp = self.current_point as int;
                let msg = &self.messages[self.current_message];
                let (la, lo, v) = msg.points[self.current_point];
                points.push(
                    Grib2DataPoint {
                        latitude: la,
                        longitude: lo,
                        value: v,
                        discipline: msg.discipline,
                        parameter_category: msg.parameter_category,
                        parameter_number: msg.parameter_number,
                        forecast_time: msg.forecast_time,
                        surface_type: msg.surface_type,
                        surface_value: msg.surface_value,
                        message_index: msg.message_index,
                    },
                );
                self.current_point = self.current_point + 1;
                proof {
                    let mp = message_points(self.msgs()[cm]);
                    assert(mp.skip(cp) =~= seq![mp[cp]] + mp.skip(cp + 1));
                    assert(points@.last() == mp[cp]);
                    assert(points@ + self.remaining() =~= pre_points + pre_rem);
                }
            }

            if self.current_point >= msg_len {
                let ghost pre_rem = self.remaining();
                self.current_message = self.current_message + 1;
                self.current_point = 0;
                proof {
                    let mp = message_points(self.msgs()[cm]);
                    assert(mp.skip(mp.len() as int) =~= Seq::empty());
                    if self.current_message < self.messages@.len() {
                        assert(message_points(self.msgs()[cm + 1]).skip(0) =~= message_points(
                            self.msgs()[cm + 1],
                        ));
                    }
                    assert(self.remaining() =~= pre_rem);
                }
            }
        }

        let has_more = self.current_message < self.messages.len();
        let count = points.len();
        proof {
            if count < max_count {
                assert(self.exhausted());
                assert(points@ + self.remaining() =~= points@);
                assert(points@ =~= r0);
            }
            assert(points@ =~= r0.take(count as int));
            assert(self.remaining() =~= r0.skip(count as int));
        }
        if count == 0 {
            Grib2Batch { data: None, count: 0, has_more, error: None }
        } else {
            Grib2Batch { data: Some(points), count, has_more, error: None }
        }
    }

    /// Opens a source and drains it in a single maximal batch: the
    /// whole-file read, equivalent to an open followed by one batch read of
    /// the reader's total point count.
    pub fn read_entire(data: &[u8]) -> (r: Grib2ReadResult)
        ensures
            (r.error is None) <==> (data@.len() > 0 && grib_parses(data@)),
            r.error is None ==> {
                &&& result_points(r) == flat_points(extracted(grib_submessages(data@)))
                &&& r.count == result_points(r).len()
                &&& (r.data is None <==> r.count == 0)
                &&& all_lons_normalized(result_points(r))
            },
            (r.error matches Some(e) ==> e@.len() > 0 && r.data is None && r.count == 0),
    {
        match Self::from_bytes(data) {
            Ok(mut reader) => {
                let total = reader.total_points();
                let ghost r0 = reader.remaining();
                let batch = reader.read_batch(total);
                proof {
                    assert(r0.take(r0.len() as int) =~= r0);
                }
                Grib2ReadResult { data: batch.data, count: batch.count, error: None }
            },
            Err(e) => Grib2ReadResult { data: None, count: 0, error: Some(e) },
        }
    }
}

} // verus!
