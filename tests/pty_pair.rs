use std::io::{self, Read, Write};
use std::time::{Duration, Instant};

use tokio_serial::bridge::{Attempt, Bridge, Progress};
use tokio_serial::error::{BridgeError, Fault};
use tokio_serial::settings::{DataBits, FlowControl, Parity, PortSettings, StopBits};

fn settings() -> PortSettings {
    PortSettings {
        baud_rate: 9600,
        data_bits: DataBits::Eight,
        flow_control: FlowControl::Disabled,
        parity: Parity::Disabled,
        stop_bits: StopBits::One,
        timeout_ms: 0,
    }
}

fn attempt_of(r: io::Result<usize>) -> Attempt {
    match r {
        Ok(n) => Attempt::Done(n),
        Err(ref e) if e.kind() == io::ErrorKind::WouldBlock => Attempt::WouldBlock,
        Err(e) => Attempt::Failed(Fault::Os(e.raw_os_error())),
    }
}

// Polls a read until the bridge resolves it, retrying once per round.
fn read_through(
    bridge: &mut Bridge,
    port: &mut mio_serial::Serial,
    buf: &mut [u8],
) -> Result<usize, BridgeError> {
    let deadline = Instant::now() + Duration::from_secs(5);
    loop {
        bridge.transfer_gate()?;
        let len = buf.len();
        let attempt = attempt_of(port.read(buf));
        match bridge.poll_read(len, attempt)? {
            Progress::Ready(n) => return Ok(n),
            Progress::Pending => {
                assert!(Instant::now() < deadline, "read never became ready");
                assert!(bridge.wake_read());
            }
        }
    }
}

fn write_through(bridge: &mut Bridge, port: &mut mio_serial::Serial, data: &[u8]) -> usize {
    bridge.transfer_gate().unwrap();
    match bridge.poll_write(data.len(), attempt_of(port.write(data))) {
        Ok(Progress::Ready(n)) => n,
        other => panic!("write did not complete: {:?}", other),
    }
}

#[test]
fn pair_ping_reaches_other_side() {
    let (mut a, mut b) = mio_serial::Serial::pair().unwrap();
    let (mut side_a, mut side_b) = Bridge::pair(settings(), Ok(()), Ok(()), Ok(())).unwrap();
    assert_eq!(write_through(&mut side_a, &mut a, b"ping"), 4);
    let mut buf = [0u8; 8];
    let n = read_through(&mut side_b, &mut b, &mut buf).unwrap();
    assert_eq!(n, 4);
    assert_eq!(&buf[0..4], b"ping");
}

#[test]
fn pair_carries_bytes_both_ways_in_order() {
    let (mut a, mut b) = mio_serial::Serial::pair().unwrap();
    let (mut side_a, mut side_b) = Bridge::pair(settings(), Ok(()), Ok(()), Ok(())).unwrap();
    let sent: Vec<u8> = (b'a'..=b'z').collect();
    assert_eq!(write_through(&mut side_b, &mut b, &sent), sent.len());
    let mut got: Vec<u8> = Vec::new();
    while got.len() < sent.len() {
        let mut buf = [0u8; 64];
        let n = read_through(&mut side_a, &mut a, &mut buf).unwrap();
        got.extend_from_slice(&buf[..n]);
    }
    assert_eq!(got, sent);
    assert_eq!(write_through(&mut side_a, &mut a, b"pong"), 4);
    let mut back: Vec<u8> = Vec::new();
    while back.len() < 4 {
        let mut buf = [0u8; 8];
        let n = read_through(&mut side_b, &mut b, &mut buf).unwrap();
        back.extend_from_slice(&buf[..n]);
    }
    assert_eq!(back, b"pong".to_vec());
}

#[test]
fn closing_one_side_ends_reads_on_the_other() {
    let (a, mut b) = mio_serial::Serial::pair().unwrap();
    let (mut side_a, mut side_b) = Bridge::pair(settings(), Ok(()), Ok(()), Ok(())).unwrap();
    assert!(side_a.close().is_ok());
    drop(a);
    let mut buf = [0u8; 8];
    match read_through(&mut side_b, &mut b, &mut buf) {
        Ok(n) => assert_eq!(n, 0),
        Err(e) => assert!(matches!(e, BridgeError::Io(_))),
    }
}
