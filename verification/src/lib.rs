//! A verified model of a GICv3-style interrupt controller bring-up path.
//!
//! The crate models each memory-mapped register bank as an owning handle over
//! an indexed memory port (`bank::RegBank`), programs interrupt configuration
//! through a generic bit-field accessor, and drives the whole bring-up
//! sequence (distributor, redistributor wake handshake, CPU interface, timer)
//! as an explicit state machine with proved ordering and framing guarantees.

pub mod bank;
pub mod bringup;
pub mod common;
pub mod exception;
pub mod frame;
pub mod gic;
pub mod gic_dist;
pub mod gic_redist;
pub mod ring_buffer;
pub mod sysreg;
pub mod timer;
