use uhd_usrp::error::UhdError;
use uhd_usrp::metadata::{RawRxMetadata, RxErrorcode};
use uhd_usrp::stream::{
    channel_lookup, Channel, ChannelCounts, Direction, SampleFormat, Stream, StreamBuilder,
    StreamCommand, StreamMode, StreamState, WireFormat,
};
use uhd_usrp::time::TimeSpec;

fn counts(rx: usize, tx: usize) -> ChannelCounts {
    ChannelCounts { rx, tx }
}

fn raw_with_code(error_code: u32) -> RawRxMetadata {
    RawRxMetadata {
        has_time_spec: false,
        full_secs: 0,
        frac_nanos: 0,
        start_of_burst: false,
        end_of_burst: false,
        fragment_offset: 0,
        more_fragments: false,
        out_of_sequence: false,
        error_code,
    }
}

fn open_rx_stream() -> Stream {
    let cfg = StreamBuilder::new(
        Direction::Rx,
        SampleFormat::ComplexFloat32,
        WireFormat::ComplexInt16,
    )
    .with_channel(0)
    .open(counts(1, 0))
    .unwrap();
    Stream::open(cfg, 0, 0x4000, 1024).unwrap()
}

#[test]
fn out_of_range_channel_is_an_index_error() {
    assert_eq!(channel_lookup(counts(2, 1), Channel::Rx(2)), Err(UhdError::Index));
    assert_eq!(channel_lookup(counts(2, 1), Channel::Tx(1)), Err(UhdError::Index));
    assert_eq!(channel_lookup(counts(0, 0), Channel::Rx(0)), Err(UhdError::Index));
}

#[test]
fn in_range_channel_comes_back() {
    assert_eq!(channel_lookup(counts(2, 1), Channel::Rx(1)), Ok(Channel::Rx(1)));
    assert_eq!(channel_lookup(counts(2, 1), Channel::Tx(0)), Ok(Channel::Tx(0)));
}

#[test]
fn empty_channel_set_is_invalid_argument() {
    let b = StreamBuilder::new(
        Direction::Rx,
        SampleFormat::ComplexFloat32,
        WireFormat::ComplexInt16,
    );
    assert_eq!(b.open(counts(2, 0)).unwrap_err(), UhdError::InvalidArgument);
}

#[test]
fn bad_channel_in_set_is_index_error() {
    let b = StreamBuilder::new(
        Direction::Rx,
        SampleFormat::ComplexFloat32,
        WireFormat::ComplexInt16,
    )
    .with_channel(0)
    .with_channel(2);
    assert_eq!(b.open(counts(2, 0)).unwrap_err(), UhdError::Index);
}

#[test]
fn unsupported_pairing_is_not_implemented() {
    let b = StreamBuilder::new(
        Direction::Rx,
        SampleFormat::ComplexInt8,
        WireFormat::ComplexFloat32,
    )
    .with_channel(0);
    assert_eq!(b.open(counts(1, 0)).unwrap_err(), UhdError::NotImplemented);
}

#[test]
fn valid_configuration_opens() {
    let cfg = StreamBuilder::new(
        Direction::Tx,
        SampleFormat::ComplexInt16,
        WireFormat::ComplexInt16,
    )
    .with_channel(0)
    .with_channel(1)
    .open(counts(0, 2))
    .unwrap();
    assert_eq!(cfg.channels, vec![0, 1]);
    assert_eq!(cfg.direction, Direction::Tx);
}

#[test]
fn stream_open_failure_maps_native_outcome() {
    let cfg = StreamBuilder::new(
        Direction::Rx,
        SampleFormat::ComplexFloat32,
        WireFormat::ComplexInt16,
    )
    .with_channel(0)
    .open(counts(1, 0))
    .unwrap();
    assert_eq!(
        Stream::open(cfg.clone(), 30, 0x4000, 1024).unwrap_err(),
        UhdError::Io
    );
    assert_eq!(
        Stream::open(cfg, 0, 0, 1024).unwrap_err(),
        UhdError::AllocationFailed
    );
}

#[test]
fn continuous_receive_delivers_samples_cleanly() {
    let mut stream = open_rx_stream();
    assert_eq!(stream.state, StreamState::Idle);
    stream
        .issue_command(StreamCommand { mode: StreamMode::StartContinuous, time: None })
        .unwrap();
    assert_eq!(stream.state, StreamState::Running);

    let buf_len = stream.max_transfer_size() / 2;
    let (count, md) = stream.interpret_recv(buf_len, 0, 500, raw_with_code(0x0)).unwrap();
    assert!(count > 0);
    assert_eq!(count, 500);
    assert_eq!(md.error_code(), RxErrorcode::NoError);
}

#[test]
fn late_timed_start_surfaces_on_next_transfer_metadata() {
    let mut stream = open_rx_stream();
    let past = TimeSpec::new(0, 0);
    let issued = stream.issue_command(StreamCommand {
        mode: StreamMode::TimedStart,
        time: Some(past),
    });
    assert!(issued.is_ok());
    assert_eq!(stream.state, StreamState::Running);

    let (count, md) = stream
        .interpret_recv(512, 0, 0, raw_with_code(0x2))
        .unwrap();
    assert_eq!(count, 0);
    assert_eq!(md.error_code(), RxErrorcode::LateCommand);
}

#[test]
fn timed_start_without_time_is_rejected() {
    let mut stream = open_rx_stream();
    let r = stream.issue_command(StreamCommand { mode: StreamMode::TimedStart, time: None });
    assert_eq!(r.unwrap_err(), UhdError::InvalidArgument);
    assert_eq!(stream.state, StreamState::Idle);
}

#[test]
fn receive_timeout_returns_zero_count() {
    let stream = open_rx_stream();
    let (count, md) = stream
        .interpret_recv(256, 0, 0, raw_with_code(0x1))
        .unwrap();
    assert_eq!(count, 0);
    assert_eq!(md.error_code(), RxErrorcode::Timeout);
}

#[test]
fn soft_conditions_do_not_abort_the_stream() {
    let stream = open_rx_stream();
    let (count, md) = stream
        .interpret_recv(256, 0, 128, raw_with_code(0x8))
        .unwrap();
    assert_eq!(count, 128);
    assert_eq!(md.error_code(), RxErrorcode::Overflow);
}

#[test]
fn native_failure_on_receive_is_a_call_error() {
    let stream = open_rx_stream();
    assert_eq!(
        stream.interpret_recv(256, 30, 0, raw_with_code(0x0)).unwrap_err(),
        UhdError::Io
    );
}

#[test]
fn oversized_native_count_is_surfaced() {
    let stream = open_rx_stream();
    assert_eq!(
        stream.interpret_recv(256, 0, 257, raw_with_code(0x0)).unwrap_err(),
        UhdError::Unknown
    );
}

#[test]
fn stop_and_fixed_count_return_to_idle() {
    let mut stream = open_rx_stream();
    stream
        .issue_command(StreamCommand { mode: StreamMode::FixedCountThenStop, time: None })
        .unwrap();
    assert_eq!(stream.state, StreamState::Running);
    stream.complete_fixed_count();
    assert_eq!(stream.state, StreamState::Idle);

    stream
        .issue_command(StreamCommand { mode: StreamMode::StartContinuous, time: None })
        .unwrap();
    stream
        .issue_command(StreamCommand { mode: StreamMode::StopContinuous, time: None })
        .unwrap();
    assert_eq!(stream.state, StreamState::Idle);
}

#[test]
fn restart_while_running_stays_running() {
    let mut stream = open_rx_stream();
    stream
        .issue_command(StreamCommand { mode: StreamMode::StartContinuous, time: None })
        .unwrap();
    stream
        .issue_command(StreamCommand { mode: StreamMode::Immediate, time: None })
        .unwrap();
    assert_eq!(stream.state, StreamState::Running);
}

#[test]
fn close_is_terminal() {
    let mut stream = open_rx_stream();
    stream.close();
    assert_eq!(stream.state, StreamState::Closed);
}

#[test]
fn send_outcomes_are_interpreted() {
    let stream = open_rx_stream();
    assert_eq!(stream.interpret_send(256, 0, 256), Ok(256));
    assert_eq!(stream.interpret_send(256, 0, 100), Ok(100));
    assert_eq!(stream.interpret_send(256, 30, 0), Err(UhdError::Io));
    assert_eq!(stream.interpret_send(256, 0, 300), Err(UhdError::Unknown));
}
