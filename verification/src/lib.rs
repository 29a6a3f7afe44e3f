//! Host-side control and data-streaming layer over a handle-based native
//! software-defined-radio driver.
//!
//! The native driver is reached through opaque heap-allocated handles and
//! status-code returns. This crate holds the decision logic of that layer:
//! handle lifecycle accounting, status-code mapping, string marshalling,
//! device time representation and pulse synchronization, per-transfer
//! metadata, channel validation, and the streaming state machine. The raw
//! foreign calls themselves stay outside the library; every function here
//! works on plain values and carries a verified contract.

pub mod error;
pub mod handle;
pub mod marshal;
pub mod metadata;
pub mod pps;
pub mod stream;
pub mod time;

pub use error::UhdError;
pub use handle::NativeHandle;
pub use marshal::{FfiString, FfiStringVec};
pub use metadata::{RxErrorcode, RxMetadata, TxMetadata};
pub use stream::{Channel, Stream, StreamBuilder, StreamCommand};
pub use time::TimeSpec;
