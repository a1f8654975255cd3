//! Verified core of a map-tile ingestion pipeline: coordinate generation,
//! batching, the tile protocol codec, retry bookkeeping, sink batching and
//! metrics accounting.

pub mod batch;
pub mod codec;
pub mod config;
pub mod numfmt;
pub mod places;
pub mod retry;
pub mod sink;
pub mod status;
pub mod tiles;
pub mod workers;
