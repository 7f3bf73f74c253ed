//! SPI peripheral skeleton: the register block is claimed at boot and held
//! by the runtime layer; no control logic lives here yet.

use vstd::prelude::*;

verus! {

/// Periodic task hook; this subsystem has no periodic work.
pub fn task_handler() {
}

} // verus!
