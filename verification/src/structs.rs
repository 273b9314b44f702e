//! The records that cross the C interface, and their owned counterparts.

pub mod recipient_descriptor;
