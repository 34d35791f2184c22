//! Frame mirroring: resolve one network interface, decode each received
//! link-layer frame into log records, and replay the frame unchanged.

pub mod decode;
pub mod interface;
pub mod report;
pub mod mirror;
