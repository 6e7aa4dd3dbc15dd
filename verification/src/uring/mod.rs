pub mod flags;
pub mod raw;
pub mod cqe;
pub mod sqe;
pub mod sqe_types;
pub mod ringbuf;
pub mod registrar;
pub mod setup;
