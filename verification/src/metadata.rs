//! Per-transfer descriptors: burst framing, timestamps, fragmentation and
//! transfer-level error codes.
//!
//! Receive metadata is produced by the device with every transfer and
//! read-only to the caller; its raw native fields are mapped here into
//! plain values, with the native error-code space collapsed onto a closed
//! enumeration. Transmit metadata is caller-constructed and consumed by a
//! single send.

use vstd::prelude::*;
use crate::time::TimeSpec;

verus! {

/// A transfer-level receive condition. These are expected, recoverable
/// streaming-protocol events carried in metadata, not call failures: a
/// nonzero code never aborts the caller's control flow by itself.
#[derive(Clone, Copy, Debug, PartialEq, Eq, Structural)]
pub enum RxErrorcode {
    /// The transfer completed without incident.
    NoError,
    /// No sample arrived within the caller's bound.
    Timeout,
    /// A timed command was scheduled at a device time already past; the
    /// device dropped it.
    LateCommand,
    /// An expected burst continuation never arrived; the current burst's
    /// data is unreliable.
    BrokenChain,
    /// Samples were lost because the caller did not drain fast enough.
    Overflow,
    /// Multi-channel data lost alignment; the current burst's data is
    /// unreliable.
    Alignment,
    /// A damaged packet was received; the current burst's data is
    /// unreliable.
    BadPacket,
    /// A native code this crate does not recognize, kept for forward
    /// compatibility.
    Unknown,
}

/// The receive condition a native metadata error code stands for.
pub open spec fn spec_rx_error_for(code: u32) -> RxErrorcode {
    if code == 0x0 {
        RxErrorcode::NoError
    } else if code == 0x1 {
        RxErrorcode::Timeout
    } else if code == 0x2 {
        RxErrorcode::LateCommand
    } else if code == 0x4 {
        RxErrorcode::BrokenChain
    } else if code == 0x8 {
        RxErrorcode::Overflow
    } else if code == 0xC {
        RxErrorcode::Alignment
    } else if code == 0xF {
        RxErrorcode::BadPacket
    } else {
        RxErrorcode::Unknown
    }
}

/// Maps a native metadata error code onto the closed enumeration,
/// collapsing unrecognized codes to `Unknown` rather than failing.
pub fn rx_error_for_code(code: u32) -> (r: RxErrorcode)
    ensures
        r == spec_rx_error_for(code),
{
    if code == 0x0 {
        RxErrorcode::NoError
    } else if code == 0x1 {
        RxErrorcode::Timeout
    } else if code == 0x2 {
        RxErrorcode::LateCommand
    } else if code == 0x4 {
        RxErrorcode::BrokenChain
    } else if code == 0x8 {
        RxErrorcode::Overflow
    } else if code == 0xC {
        RxErrorcode::Alignment
    } else if code == 0xF {
        RxErrorcode::BadPacket
    } else {
        RxErrorcode::Unknown
    }
}

/// The raw receive-metadata fields as the native layer hands them over:
/// an unmapped error code, and a timestamp as whole seconds plus an
/// unnormalized nanosecond count.
#[derive(Clone, Copy, Debug)]
pub struct RawRxMetadata {
    pub has_time_spec: bool,
    pub full_secs: i64,
    pub frac_nanos: i64,
    pub start_of_burst: bool,
    pub end_of_burst: bool,
    pub fragment_offset: usize,
    pub more_fragments: bool,
    pub out_of_sequence: bool,
    pub error_code: u32,
}

/// The timestamp a raw boundary pair stands for: absent when the device
/// attached none, the normalized time when it is representable, `None`
/// otherwise (malformed native output is rejected, not clamped).
pub open spec fn spec_time_of(has_time_spec: bool, full_secs: i64, frac_nanos: i64) -> Option<
    TimeSpec,
> {
    let total = full_secs * 1_000_000_000 + frac_nanos;
    if has_time_spec && TimeSpec::representable(total) {
        Some(TimeSpec::spec_normalized(total))
    } else {
        None
    }
}

/// The per-transfer descriptor the device produces on receive.
#[derive(Clone, Copy, Debug)]
pub struct RxMetadata {
    pub start_of_burst: bool,
    pub end_of_burst: bool,
    pub time_spec: Option<TimeSpec>,
    pub fragment_offset: usize,
    pub more_fragments: bool,
    pub out_of_sequence: bool,
    pub error_code: RxErrorcode,
}

impl RxMetadata {
    /// An empty descriptor, ready to be overwritten by a transfer.
    pub fn new() -> (r: RxMetadata)
        ensures
            !r.start_of_burst,
            !r.end_of_burst,
            r.time_spec is None,
            r.fragment_offset == 0,
            !r.more_fragments,
            !r.out_of_sequence,
            r.error_code == RxErrorcode::NoError,
    {
        RxMetadata {
            start_of_burst: false,
            end_of_burst: false,
            time_spec: None,
            fragment_offset: 0,
            more_fragments: false,
            out_of_sequence: false,
            error_code: RxErrorcode::NoError,
        }
    }

    /// The canonical mapping of raw native fields: every field carried
    /// over, the error code collapsed onto the closed enumeration, and
    /// the timestamp normalized as [`spec_time_of`] says.
    pub open spec fn spec_of_raw(raw: RawRxMetadata) -> RxMetadata {
        RxMetadata {
            start_of_burst: raw.start_of_burst,
            end_of_burst: raw.end_of_burst,
            time_spec: spec_time_of(raw.has_time_spec, raw.full_secs, raw.frac_nanos),
            fragment_offset: raw.fragment_offset,
            more_fragments: raw.more_fragments,
            out_of_sequence: raw.out_of_sequence,
            error_code: spec_rx_error_for(raw.error_code),
        }
    }

    /// Maps raw native fields into the descriptor. The error code is
    /// collapsed onto the closed enumeration; a malformed or absent
    /// timestamp becomes `None` rather than a clamped value.
    pub fn from_raw(raw: RawRxMetadata) -> (r: RxMetadata)
        ensures
            r == Self::spec_of_raw(raw),
    {
        let time_spec = if raw.has_time_spec {
            TimeSpec::from_parts(raw.full_secs, raw.frac_nanos)
        } else {
            None
        };
        RxMetadata {
            start_of_burst: raw.start_of_burst,
            end_of_burst: raw.end_of_burst,
            time_spec,
            fragment_offset: raw.fragment_offset,
            more_fragments: raw.more_fragments,
            out_of_sequence: raw.out_of_sequence,
            error_code: rx_error_for_code(raw.error_code),
        }
    }

    /// Whether this transfer ends a burst.
    pub fn end_of_burst(&self) -> (r: bool)
        ensures
            r == self.end_of_burst,
    {
        self.end_of_burst
    }

    /// The transfer-level condition for this transfer.
    pub fn error_code(&self) -> (r: RxErrorcode)
        ensures
            r == self.error_code,
    {
        self.error_code
    }

    /// This transfer's offset into a fragmented burst.
    pub fn fragment_offset(&self) -> (r: usize)
        ensures
            r == self.fragment_offset,
    {
        self.fragment_offset
    }

    /// Whether more fragments of the current burst follow.
    pub fn more_fragments(&self) -> (r: bool)
        ensures
            r == self.more_fragments,
    {
        self.more_fragments
    }

    /// Whether packets arrived out of sequence.
    pub fn out_of_sequence(&self) -> (r: bool)
        ensures
            r == self.out_of_sequence,
    {
        self.out_of_sequence
    }

    /// Whether this transfer begins a burst.
    pub fn start_of_burst(&self) -> (r: bool)
        ensures
            r == self.start_of_burst,
    {
        self.start_of_burst
    }

    /// The device time of the first sample, when the device attached one
    /// and it was representable.
    pub fn time_spec(&self) -> (r: Option<TimeSpec>)
        ensures
            r == self.time_spec,
    {
        self.time_spec
    }
}

/// The raw transmit-metadata fields handed to the native layer.
#[derive(Clone, Copy, Debug)]
pub struct RawTxMetadata {
    pub has_time_spec: bool,
    pub full_secs: i64,
    pub frac_nanos: u32,
    pub start_of_burst: bool,
    pub end_of_burst: bool,
}

/// The caller-constructed descriptor consumed by a single send: an
/// optional scheduled time and the burst boundary marks.
#[derive(Clone, Copy, Debug)]
pub struct TxMetadata {
    pub offset: Option<TimeSpec>,
    pub start_of_burst: bool,
    pub end_of_burst: bool,
}

impl TxMetadata {
    /// An unscheduled descriptor marking no burst boundary.
    pub fn new() -> (r: TxMetadata)
        ensures
            r.offset is None,
            !r.start_of_burst,
            !r.end_of_burst,
    {
        TxMetadata { offset: None, start_of_burst: false, end_of_burst: false }
    }

    /// Sets the scheduled transmit time, or clears it.
    pub fn offset(self, offset: Option<TimeSpec>) -> (r: Self)
        ensures
            r.offset == offset,
            r.start_of_burst == self.start_of_burst,
            r.end_of_burst == self.end_of_burst,
    {
        TxMetadata { offset, ..self }
    }

    /// Sets whether this send ends a burst.
    pub fn end_of_burst(self, eob: bool) -> (r: Self)
        ensures
            r.offset == self.offset,
            r.start_of_burst == self.start_of_burst,
            r.end_of_burst == eob,
    {
        TxMetadata { end_of_burst: eob, ..self }
    }

    /// Sets whether this send begins a burst.
    pub fn start_of_burst(self, sob: bool) -> (r: Self)
        ensures
            r.offset == self.offset,
            r.start_of_burst == sob,
            r.end_of_burst == self.end_of_burst,
    {
        TxMetadata { start_of_burst: sob, ..self }
    }

    /// The raw fields for the native transmit call: a missing schedule
    /// is carried as time zero with the flag cleared.
    pub fn to_raw(&self) -> (r: RawTxMetadata)
        ensures
            r.start_of_burst == self.start_of_burst,
            r.end_of_burst == self.end_of_burst,
            r.has_time_spec == (self.offset is Some),
            self.offset matches Some(t) ==> r.full_secs == t.full_secs && r.frac_nanos
                == t.frac_nanos,
            self.offset is None ==> r.full_secs == 0 && r.frac_nanos == 0,
    {
        match self.offset {
            Some(t) => RawTxMetadata {
                has_time_spec: true,
                full_secs: t.full_secs,
                frac_nanos: t.frac_nanos,
                start_of_burst: self.start_of_burst,
                end_of_burst: self.end_of_burst,
            },
            None => RawTxMetadata {
                has_time_spec: false,
                full_secs: 0,
                frac_nanos: 0,
                start_of_burst: self.start_of_burst,
                end_of_burst: self.end_of_burst,
            },
        }
    }
}

impl Default for TxMetadata {
    /// Same as [`TxMetadata::new`].
    fn default() -> (r: Self)
        ensures
            r.offset is None,
            !r.start_of_burst,
            !r.end_of_burst,
    {
        TxMetadata::new()
    }
}

} // verus!
