//! A block of device memory carved out of a larger native allocation,
//! with the alignment arithmetic and the host-mapping state machine that
//! coordinate access to it.
pub mod align;
pub mod state;
pub mod error;
pub mod block;
