//! Verified building blocks of an io_uring based caching server: fixed
//! capacity vectors, a slot map with stable slots, ring-buffer views, the
//! io_uring submission/completion records, the bookkeeping of an io_uring
//! executor, segment-cache chunk headers, simple metrics and identifier
//! replacement in token streams.

pub mod segcache;
pub mod slotmap;
pub mod fixedvec;
pub mod error;
pub mod util;
pub mod uring;
pub mod metrics;
pub mod executor;
pub mod tokenreplace;
