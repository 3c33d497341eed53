//! Probing the static capabilities of an input device: decoding of the
//! bitmask payloads that the device's control requests return, the retry
//! policy of a control request, and the assembly of a capability report.
pub mod bits;
pub mod event;
pub mod control;
pub mod probe;
pub mod device;
