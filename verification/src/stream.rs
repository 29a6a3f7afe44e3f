//! The streaming subsystem: channel identity and validation, stream
//! commands, the per-stream state machine, builder validation, and the
//! interpretation of blocking transfer outcomes.
//!
//! The actual blocking native calls happen at the boundary; everything
//! decided around them — which configurations may open a stream, how a
//! command moves the stream between states, and what a transfer outcome
//! means to the caller — is verified here over plain values.

use vstd::prelude::*;
use crate::error::{error_for_status, UhdError};
use crate::handle::NativeHandle;
use crate::metadata::{RawRxMetadata, RxMetadata};
use crate::time::TimeSpec;

verus! {

/// One independently configurable signal path: a direction and an index.
/// Validity of the index is re-checked against the live channel count on
/// every access, since counts can change across reconfiguration.
#[derive(Clone, Copy, Debug, PartialEq, Eq, Structural)]
pub enum Channel {
    Rx(usize),
    Tx(usize),
}

impl Channel {
    /// The index within the channel's direction.
    pub open spec fn spec_index(self) -> usize {
        match self {
            Channel::Rx(i) => i,
            Channel::Tx(i) => i,
        }
    }

    /// The index within the channel's direction.
    pub fn index(&self) -> (r: usize)
        ensures
            r == self.spec_index(),
    {
        match self {
            Channel::Rx(i) => *i,
            Channel::Tx(i) => *i,
        }
    }
}

/// A stream's direction.
#[derive(Clone, Copy, Debug, PartialEq, Eq, Structural)]
pub enum Direction {
    Rx,
    Tx,
}

/// The channel counts a device reports at one moment, per direction.
#[derive(Clone, Copy, Debug, PartialEq, Eq, Structural)]
pub struct ChannelCounts {
    pub rx: usize,
    pub tx: usize,
}

impl ChannelCounts {
    /// The live count for a direction.
    pub open spec fn spec_count_for(self, direction: Direction) -> usize {
        match direction {
            Direction::Rx => self.rx,
            Direction::Tx => self.tx,
        }
    }

    /// The live count for a channel's direction.
    pub open spec fn spec_count_for_channel(self, channel: Channel) -> usize {
        match channel {
            Channel::Rx(_) => self.rx,
            Channel::Tx(_) => self.tx,
        }
    }
}

/// Validates a channel against the live counts: the channel comes back
/// exactly when its index is below the current count for its direction,
/// and an out-of-range index is an `Index` error — a normal, recoverable
/// condition, never a panic and never a silently returned stale channel.
pub fn channel_lookup(counts: ChannelCounts, channel: Channel) -> (r: Result<Channel, UhdError>)
    ensures
        r is Ok <==> channel.spec_index() < counts.spec_count_for_channel(channel),
        r matches Ok(c) ==> c == channel,
        channel.spec_index() >= counts.spec_count_for_channel(channel) ==> r == Result::<
            Channel,
            UhdError,
        >::Err(UhdError::Index),
{
    let n = match channel {
        Channel::Rx(_) => counts.rx,
        Channel::Tx(_) => counts.tx,
    };
    if channel.index() < n {
        Ok(channel)
    } else {
        Err(UhdError::Index)
    }
}

/// When a stream command takes effect.
#[derive(Clone, Copy, Debug, PartialEq, Eq, Structural)]
pub enum StreamMode {
    /// Act now.
    Immediate,
    /// Start at the scheduled time; the time is required.
    TimedStart,
    /// Start and keep streaming until stopped.
    StartContinuous,
    /// Stop a continuous stream.
    StopContinuous,
    /// Deliver a bounded burst, then stop on its own.
    FixedCountThenStop,
}

/// A command issued to a stream: a mode and an optional scheduled time.
/// The time is required for `TimedStart` and ignored otherwise.
#[derive(Clone, Copy, Debug)]
pub struct StreamCommand {
    pub mode: StreamMode,
    pub time: Option<TimeSpec>,
}

impl StreamCommand {
    /// A required time is present and any time given is normalized.
    pub open spec fn wf(self) -> bool {
        &&& self.mode is TimedStart ==> self.time is Some
        &&& self.time matches Some(t) ==> t.wf()
    }

    /// Whether this command starts acquisition or transmission rather
    /// than stopping it.
    pub open spec fn spec_is_start(self) -> bool {
        !(self.mode is StopContinuous)
    }

    /// Checks the command's shape: a `TimedStart` without a time, or a
    /// denormalized time, is rejected.
    pub fn validate(&self) -> (r: Result<(), UhdError>)
        ensures
            r is Ok <==> self.wf(),
            r is Err ==> r == Result::<(), UhdError>::Err(UhdError::InvalidArgument),
    {
        match self.mode {
            StreamMode::TimedStart => {
                match self.time {
                    Some(t) => {
                        if t.frac_nanos() < 1_000_000_000 {
                            Ok(())
                        } else {
                            Err(UhdError::InvalidArgument)
                        }
                    },
                    None => Err(UhdError::InvalidArgument),
                }
            },
            _ => {
                match self.time {
                    Some(t) => {
                        if t.frac_nanos() < 1_000_000_000 {
                            Ok(())
                        } else {
                            Err(UhdError::InvalidArgument)
                        }
                    },
                    None => Ok(()),
                }
            },
        }
    }
}

/// Where an open stream stands.
#[derive(Clone, Copy, Debug, PartialEq, Eq, Structural)]
pub enum StreamState {
    /// Open but not acquiring or transmitting.
    Idle,
    /// A start command is in effect.
    Running,
    /// The stream was shut down; its native resource is released.
    Closed,
}

/// The state a well-formed command moves an open stream to: any start
/// mode enters `Running` — reissuing a start while already running
/// redefines the acquisition rather than failing — and a stop returns to
/// `Idle`.
pub open spec fn spec_next_state(state: StreamState, cmd: StreamCommand) -> StreamState
    recommends
        !(state is Closed),
{
    if cmd.spec_is_start() {
        StreamState::Running
    } else {
        StreamState::Idle
    }
}

/// The host-side numeric type samples are exchanged in.
#[derive(Clone, Copy, Debug, PartialEq, Eq, Structural)]
pub enum SampleFormat {
    ComplexFloat64,
    ComplexFloat32,
    ComplexInt16,
    ComplexInt8,
}

impl SampleFormat {
    /// Bits per scalar component.
    pub open spec fn spec_width(self) -> int {
        match self {
            SampleFormat::ComplexFloat64 => 64,
            SampleFormat::ComplexFloat32 => 32,
            SampleFormat::ComplexInt16 => 16,
            SampleFormat::ComplexInt8 => 8,
        }
    }
}

/// The on-wire sample representation.
#[derive(Clone, Copy, Debug, PartialEq, Eq, Structural)]
pub enum WireFormat {
    ComplexFloat32,
    ComplexInt16,
    ComplexInt8,
}

impl WireFormat {
    /// Bits per scalar component.
    pub open spec fn spec_width(self) -> int {
        match self {
            WireFormat::ComplexFloat32 => 32,
            WireFormat::ComplexInt16 => 16,
            WireFormat::ComplexInt8 => 8,
        }
    }
}

/// The supported pairings: the host type must be at least as wide as the
/// wire representation, so no precision the wire carries is dropped on
/// the host side.
pub open spec fn spec_pairing_supported(host: SampleFormat, wire: WireFormat) -> bool {
    host.spec_width() >= wire.spec_width()
}

/// Whether a host/wire pairing is supported.
pub fn pairing_supported(host: SampleFormat, wire: WireFormat) -> (r: bool)
    ensures
        r == spec_pairing_supported(host, wire),
{
    let h: u32 = match host {
        SampleFormat::ComplexFloat64 => 64,
        SampleFormat::ComplexFloat32 => 32,
        SampleFormat::ComplexInt16 => 16,
        SampleFormat::ComplexInt8 => 8,
    };
    let w: u32 = match wire {
        WireFormat::ComplexFloat32 => 32,
        WireFormat::ComplexInt16 => 16,
        WireFormat::ComplexInt8 => 8,
    };
    h >= w
}

/// A transient stream configuration: a direction, a channel list, and a
/// sample-representation pairing. `open` consumes it after validation.
#[derive(Clone, Debug)]
pub struct StreamBuilder {
    pub direction: Direction,
    pub channels: Vec<usize>,
    pub host_format: SampleFormat,
    pub wire_format: WireFormat,
}

/// A validated stream configuration, fixed for the stream's lifetime.
#[derive(Clone, Debug)]
pub struct StreamConfig {
    pub direction: Direction,
    pub channels: Vec<usize>,
    pub host_format: SampleFormat,
    pub wire_format: WireFormat,
}

impl StreamConfig {
    /// The configuration is non-empty, within the given counts, and uses
    /// a supported pairing.
    pub open spec fn valid_for(self, counts: ChannelCounts) -> bool {
        &&& self.channels@.len() > 0
        &&& forall|i: int|
            0 <= i < self.channels@.len() ==> self.channels@[i] < counts.spec_count_for(
                self.direction,
            )
        &&& spec_pairing_supported(self.host_format, self.wire_format)
    }
}

impl StreamBuilder {
    /// A builder for one direction with the given sample representation
    /// and no channels yet.
    pub fn new(direction: Direction, host_format: SampleFormat, wire_format: WireFormat) -> (r:
        StreamBuilder)
        ensures
            r.direction == direction,
            r.channels@.len() == 0,
            r.host_format == host_format,
            r.wire_format == wire_format,
    {
        StreamBuilder { direction, channels: Vec::new(), host_format, wire_format }
    }

    /// Adds a channel index to the set.
    pub fn with_channel(self, channel: usize) -> (r: StreamBuilder)
        ensures
            r.direction == self.direction,
            r.channels@ == self.channels@.push(channel),
            r.host_format == self.host_format,
            r.wire_format == self.wire_format,
    {
        let mut channels = self.channels;
        channels.push(channel);
        StreamBuilder {
            direction: self.direction,
            channels,
            host_format: self.host_format,
            wire_format: self.wire_format,
        }
    }

    /// Validates the configuration against the live channel counts and
    /// fixes it. The failure modes are distinct: an empty channel set is
    /// an `InvalidArgument`, an out-of-range channel an `Index`, and an
    /// unsupported pairing a `NotImplemented` — checked in that order;
    /// success comes exactly when none applies.
    pub fn open(self, counts: ChannelCounts) -> (r: Result<StreamConfig, UhdError>)
        ensures
            r is Ok <==> self.channels@.len() > 0 && (forall|i: int|
                0 <= i < self.channels@.len() ==> self.channels@[i] < counts.spec_count_for(
                    self.direction,
                )) && spec_pairing_supported(self.host_format, self.wire_format),
            r matches Ok(cfg) ==> cfg.valid_for(counts) && cfg.direction == self.direction
                && cfg.channels@ == self.channels@ && cfg.host_format == self.host_format
                && cfg.wire_format == self.wire_format,
            self.channels@.len() == 0 ==> r == Result::<StreamConfig, UhdError>::Err(
                UhdError::InvalidArgument,
            ),
            self.channels@.len() > 0 && (exists|i: int|
                0 <= i < self.channels@.len() && self.channels@[i] >= counts.spec_count_for(
                    self.direction,
                )) ==> r == Result::<StreamConfig, UhdError>::Err(UhdError::Index),
            self.channels@.len() > 0 && (forall|i: int|
                0 <= i < self.channels@.len() ==> self.channels@[i] < counts.spec_count_for(
                    self.direction,
                )) && !spec_pairing_supported(self.host_format, self.wire_format) ==> r
                == Result::<StreamConfig, UhdError>::Err(UhdError::NotImplemented),
    {
        if self.channels.len() == 0 {
            return Err(UhdError::InvalidArgument);
        }
        let n = match self.direction {
            Direction::Rx => counts.rx,
            Direction::Tx => counts.tx,
        };
        let mut i: usize = 0;
        while i < self.channels.len()
            invariant
                i <= self.channels@.len(),
                forall|j: int| 0 <= j < i ==> self.channels@[j] < n,
                n == counts.spec_count_for(self.direction),
            decreases self.channels@.len() - i,
        {
            if self.channels[i] >= n {
                return Err(UhdError::Index);
            }
            i = i + 1;
        }
        if !pairing_supported(self.host_format, self.wire_format) {
            return Err(UhdError::NotImplemented);
        }
        Ok(
            StreamConfig {
                direction: self.direction,
                channels: self.channels,
                host_format: self.host_format,
                wire_format: self.wire_format,
            },
        )
    }
}

/// An open stream: its own native handle (independent of the device's,
/// though the stream must not outlive the device), the fixed validated
/// configuration, the per-transfer bound, and the protocol state.
#[derive(Debug)]
pub struct Stream {
    pub handle: NativeHandle,
    pub config: StreamConfig,
    pub max_samples_per_channel: usize,
    pub state: StreamState,
}

impl Stream {
    /// Binds the outcome of the native stream allocation to a validated
    /// configuration. `status` and `addr` are what the allocate call
    /// returned; `max_samples_per_channel` is the transfer bound the
    /// native layer reports for the new stream. Failure surfaces the
    /// mapped native error and owns nothing.
    pub fn open(
        config: StreamConfig,
        status: u32,
        addr: usize,
        max_samples_per_channel: usize,
    ) -> (r: Result<Stream, UhdError>)
        ensures
            r is Ok <==> status == 0 && addr != 0,
            r matches Ok(s) ==> s.handle.wf() && s.handle.spec_addr() == addr && s.config
                == config && s.max_samples_per_channel == max_samples_per_channel && s.state
                is Idle,
            status != 0 ==> r == Result::<Stream, UhdError>::Err(error_for_status(status)),
            status == 0 && addr == 0 ==> r == Result::<Stream, UhdError>::Err(
                UhdError::AllocationFailed,
            ),
    {
        match NativeHandle::new(status, addr) {
            Ok(handle) => Ok(
                Stream { handle, config, max_samples_per_channel, state: StreamState::Idle },
            ),
            Err(e) => Err(e),
        }
    }

    /// The most samples per channel one transfer call may produce or
    /// consume; callers must size buffers at or below this bound.
    pub fn max_transfer_size(&self) -> (r: usize)
        ensures
            r == self.max_samples_per_channel,
    {
        self.max_samples_per_channel
    }

    /// Issues a stream command: a well-formed command moves the stream
    /// between `Idle` and `Running` as [`spec_next_state`] says, and a
    /// malformed one is rejected with the stream unchanged. A timed start
    /// whose time is already past is still accepted here — the device
    /// drops it and reports `LateCommand` on the next transfer's
    /// metadata, never as an immediate error.
    pub fn issue_command(&mut self, cmd: StreamCommand) -> (r: Result<(), UhdError>)
        requires
            !(old(self).state is Closed),
        ensures
            final(self).handle == old(self).handle,
            final(self).config == old(self).config,
            final(self).max_samples_per_channel == old(self).max_samples_per_channel,
            r is Ok <==> cmd.wf(),
            r is Ok ==> final(self).state == spec_next_state(old(self).state, cmd),
            r is Err ==> final(self).state == old(self).state && r == Result::<
                (),
                UhdError,
            >::Err(UhdError::InvalidArgument),
    {
        match cmd.validate() {
            Ok(()) => {
                let next = match cmd.mode {
                    StreamMode::StopContinuous => StreamState::Idle,
                    _ => StreamState::Running,
                };
                self.state = next;
                Ok(())
            },
            Err(e) => Err(e),
        }
    }

    /// A bounded burst requested by `FixedCountThenStop` has delivered
    /// its last sample: a running stream falls back to `Idle` on its own.
    pub fn complete_fixed_count(&mut self)
        ensures
            final(self).handle == old(self).handle,
            final(self).config == old(self).config,
            final(self).max_samples_per_channel == old(self).max_samples_per_channel,
            old(self).state is Running ==> final(self).state is Idle,
            !(old(self).state is Running) ==> final(self).state == old(self).state,
    {
        if let StreamState::Running = self.state {
            self.state = StreamState::Idle;
        }
    }

    /// Shutting the stream down: any state reaches `Closed`, after which
    /// the boundary forces a stop and releases the native resource.
    pub fn close(&mut self)
        ensures
            final(self).handle == old(self).handle,
            final(self).config == old(self).config,
            final(self).max_samples_per_channel == old(self).max_samples_per_channel,
            final(self).state is Closed,
    {
        self.state = StreamState::Closed;
    }

    /// Interprets the outcome of one blocking receive: `status` is the
    /// native call's return, `n_samples` the per-channel count the device
    /// wrote, `raw` the raw metadata. A nonzero status is the mapped
    /// error; a count within the caller's buffer comes back with the
    /// mapped metadata — a zero count on timeout and every transfer-level
    /// condition included, streaming continues; a count beyond the buffer
    /// is native misbehavior and is surfaced, never silently truncated.
    pub fn interpret_recv(
        &self,
        buf_len: usize,
        status: u32,
        n_samples: usize,
        raw: RawRxMetadata,
    ) -> (r: Result<(usize, RxMetadata), UhdError>)
        requires
            buf_len <= self.max_samples_per_channel,
        ensures
            status != 0 ==> r == Result::<(usize, RxMetadata), UhdError>::Err(
                error_for_status(status),
            ),
            status == 0 && n_samples <= buf_len ==> r == Result::<
                (usize, RxMetadata),
                UhdError,
            >::Ok((n_samples, RxMetadata::spec_of_raw(raw))),
            status == 0 && n_samples > buf_len ==> r == Result::<
                (usize, RxMetadata),
                UhdError,
            >::Err(UhdError::Unknown),
    {
        match crate::error::status_to_result(status) {
            Ok(()) => {
                if n_samples <= buf_len {
                    Ok((n_samples, RxMetadata::from_raw(raw)))
                } else {
                    Err(UhdError::Unknown)
                }
            },
            Err(e) => Err(e),
        }
    }

    /// Interprets the outcome of one blocking send: `status` is the
    /// native call's return and `n_sent` the per-channel count the device
    /// accepted — possibly short of the buffer when the caller's bound
    /// elapsed. A count beyond the buffer is native misbehavior and is
    /// surfaced.
    pub fn interpret_send(&self, buf_len: usize, status: u32, n_sent: usize) -> (r: Result<
        usize,
        UhdError,
    >)
        requires
            buf_len <= self.max_samples_per_channel,
        ensures
            status != 0 ==> r == Result::<usize, UhdError>::Err(error_for_status(status)),
            status == 0 && n_sent <= buf_len ==> r == Result::<usize, UhdError>::Ok(n_sent),
            status == 0 && n_sent > buf_len ==> r == Result::<usize, UhdError>::Err(
                UhdError::Unknown,
            ),
    {
        match crate::error::status_to_result(status) {
            Ok(()) => {
                if n_sent <= buf_len {
                    Ok(n_sent)
                } else {
                    Err(UhdError::Unknown)
                }
            },
            Err(e) => Err(e),
        }
    }
}

} // verus!
