//! Device selection: a marker for the active device so higher-level code
//! can refer to it by type.

use vstd::prelude::*;

verus! {

/// The currently selected device.
pub struct Device;

} // verus!