//! Streaming reader for GRIB2 gridded-weather data.
//!
//! The GRIB2 binary decoding itself is delegated to the `grib` crate; this
//! library eagerly flattens the decoded submessages into a uniform stream of
//! data points and serves that stream in caller-sized batches through a
//! cursor that only moves forward.
//!
//! Latitudes, longitudes and surface values are carried as IEEE-754
//! double-precision bit patterns (`u64`), grid values as the decoder's
//! single-precision patterns (`u32`); this layer never interprets them.
//! Longitudes arrive from the decoder already reduced to [-180, 180]
//! degrees, and the library proves that batching preserves that.

pub mod data;
pub mod extract;
pub mod laws;
pub mod reader;
pub mod source;
