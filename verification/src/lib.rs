//! A bridge between a legacy C messaging interface and an external mail client:
//! recipient records that arrive over the C interface become owned values, and a
//! send request becomes the launch of the mail client.
//!
//! The library reads no foreign memory and does no I/O. What was found behind
//! a pointer comes in as plain values, and what has to be done for a send goes
//! out as an action for the caller to perform.
//!
//! - [`structs::recipient_descriptor`]: the recipient record and its conversion
//! - [`conversion`]: the copying and decoding of the buffers of a record
//! - [`commands`]: the steps of a send, and the lines of the log
//! - [`decimal`]: numbers in decimal notation

pub mod commands;
pub mod conversion;
pub mod decimal;
pub mod structs;
