//! Platform pin facts for the supported controller modules.

use vstd::prelude::*;

verus! {

/// Classic ESP32 module (WROOM-32U) as mounted on the supported boards.
pub struct Esp32Wroom32U;

impl Esp32Wroom32U {
    /// Common safe GPIOs for classic ESP32 modules. Avoid 1/3 (UART0),
    /// 6-11 (flash), and 12 (strap) unless the wiring accounts for them.
    pub const SAFE_GPIO: [i32; 18] = [
        2, 4, 5, 13, 14, 15, 16, 17, 18, 19, 21, 22, 23, 25, 26, 27, 32, 33,
    ];
}

} // verus!