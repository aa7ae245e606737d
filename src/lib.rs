//! Driver logic for a three-axis tilt sensor on a 4-byte framed serial bus: frame
//! checksums, the fixed command set, angle decoding, the start-up and acquisition
//! state machine, and a latest-value sample slot.

pub mod angle;
pub mod checksum;
pub mod command;
pub mod publisher;
pub mod supervisor;
