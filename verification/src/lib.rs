//! Adapter library for a serial-attached IEEE 802.15.4 packet sniffer.
//!
//! The library covers the encoding pipeline of the adapter: a typed
//! tag-length-value metadata model with its exact binary serialization, the
//! metadata header builder, the parser that turns one line of device output
//! into a typed report, the assembler that combines a report with a built
//! header into a capture record, and the state machine that drives a capture
//! session. I/O (serial transport, capture-file framing, the front-end
//! protocol plumbing) lives outside the library.

pub mod bytes;
pub mod fbits;
pub mod hexstr;
pub mod json;
pub mod report;
pub mod session;
pub mod tap;
