pub mod dedup;
pub mod chunks;
pub mod join;
