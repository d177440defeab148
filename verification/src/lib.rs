//! Framing and connection-lifecycle logic for a two-channel named-pipe relay.
//!
//! One channel carries video frames out (an 8-byte little-endian header
//! followed by raw pixel bytes); the other carries 4x4 transform matrices in
//! (fixed 64-byte records). The crate holds the byte-level codec and the
//! decision logic of both channels as explicit state machines. Performing the
//! pipe operations themselves is left to the host, which feeds the outcome of
//! each operation back in as an event.
//!
//! The outbound channel follows the bounded-retry design: the sender itself
//! reconnects, and gives up after two failed attempts.
//!
//! Matrix elements are carried as the bit patterns of 32-bit IEEE-754 floats,
//! so that every record, including ones that hold NaNs, survives unchanged.

pub mod endpoint;
pub mod wire;
pub mod codec;
pub mod outbound;
pub mod inbound;
