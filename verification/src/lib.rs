//! In-process state layer for a polling daemon: a fixed-capacity registry
//! with stable, recycled indices, a monotonic two-part version stamp, and
//! the conditional-read rule that lets pollers skip unchanged payloads.

pub mod conditional;
pub mod def_methods;
pub mod encoding;
pub mod managed_vec;
pub mod stamp;
