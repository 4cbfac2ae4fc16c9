//! Hardware interface layers the kernel defines for peripherals it
//! coordinates but does not drive itself.

pub mod comp;
