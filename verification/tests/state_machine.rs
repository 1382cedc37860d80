//! Tests that drive the completion state machine the way the worker
//! thread and a polling caller do, with the probe primitive's results
//! supplied as plain values.

use winping::buffer::ECHO_REPLY4_SIZE;
use winping::error::{ERROR_NETWORK_UNREACHABLE, IP_REQ_TIMED_OUT, IP_SUCCESS};
use winping::state::ERROR_IO_PENDING;
use winping::{
    finish_v4, AsyncResult, Buffer, Error, Ip4Addr, IpAddress, IpKind, PingFuture, PollOutcome,
    SendDisposition,
};

fn request_payload() -> Vec<u8> {
    (0u16..=255).map(|x| x as u8).collect()
}

fn submitted_future(payload: Vec<u8>) -> PingFuture {
    let mut buf = Buffer::with_data(payload);
    buf.init_for_send();
    PingFuture::new(buf, IpKind::V4)
}

/// The completion the probe primitive writes for a successful echo:
/// raw area bytes with the payload after the reply header, and the
/// parsed summary values.
fn complete_with_echo(buf: &mut Buffer, payload: &[u8]) {
    let area_len = buf.reply_data_len() as usize;
    let mut area = vec![0u8; area_len];
    area[ECHO_REPLY4_SIZE..ECHO_REPLY4_SIZE + payload.len()].copy_from_slice(payload);
    buf.set_reply_area(area);
}

#[test]
fn classify_send_return_cases() {
    assert_eq!(
        winping::state::classify_send_return(0, ERROR_IO_PENDING),
        SendDisposition::Pending
    );
    assert_eq!(
        winping::state::classify_send_return(0, 1231),
        SendDisposition::FailedSync(1231)
    );
    assert_eq!(
        winping::state::classify_send_return(1, ERROR_IO_PENDING),
        SendDisposition::Unexpected(1)
    );
}

#[test]
fn poll_before_completion_is_pending() {
    let mut fut = submitted_future(request_payload());
    assert!(matches!(fut.poll(1), PollOutcome::Pending));
    // a second poll just displaces the waiter and stays pending
    assert!(matches!(fut.poll(2), PollOutcome::Pending));
}

#[test]
fn callback_wakes_registered_waiter_once() {
    let mut fut = submitted_future(request_payload());
    let wake = fut.on_send_return(0, ERROR_IO_PENDING);
    assert!(!wake);
    assert!(matches!(fut.poll(1), PollOutcome::Pending));
    let wake = fut.on_callback();
    assert!(wake);
    // the wake consumed the registration; the next poll extracts
    assert!(matches!(fut.poll(2), PollOutcome::ReadyToParse(_)));
}

#[test]
fn callback_before_any_poll_is_silent() {
    let mut fut = submitted_future(request_payload());
    assert!(!fut.on_send_return(0, ERROR_IO_PENDING));
    assert!(!fut.on_callback());
    assert!(matches!(fut.poll(1), PollOutcome::ReadyToParse(_)));
}

#[test]
fn poll_after_extraction_is_fatal() {
    let mut fut = submitted_future(request_payload());
    assert!(!fut.on_send_return(0, ERROR_IO_PENDING));
    assert!(!fut.on_callback());
    let PollOutcome::ReadyToParse(_buf) = fut.poll(1) else {
        panic!("expected a completed probe");
    };
    assert!(matches!(fut.poll(2), PollOutcome::FatalInvalid));
}

#[test]
fn unexpected_send_return_is_fatal_at_poll() {
    let mut fut = submitted_future(request_payload());
    let wake = fut.on_send_return(3, ERROR_IO_PENDING);
    assert!(!wake);
    assert!(matches!(fut.poll(1), PollOutcome::FatalSend(3)));
}

#[test]
fn loopback_probe_succeeds_with_echoed_payload() {
    let payload = request_payload();
    assert_eq!(payload.len(), 256);
    let lo4 = Ip4Addr::new(127, 0, 0, 1);
    let mut fut = submitted_future(payload.clone());
    assert!(!fut.on_send_return(0, ERROR_IO_PENDING));
    assert!(!fut.on_callback());
    let PollOutcome::ReadyToParse(mut buf) = fut.poll(1) else {
        panic!("expected a completed probe");
    };
    complete_with_echo(&mut buf, &payload);
    let rtt: u32 = 0;
    let res = finish_v4(buf, 1, IP_SUCCESS, rtt, payload.len() as u16, lo4, 0);
    assert_eq!(res.result, Ok(rtt));
    assert_eq!(res.buffer.reply_data(), &payload[..]);
    assert_eq!(res.buffer.reply_data(), &res.buffer.request_data[..]);
    assert_eq!(res.buffer.responding_ip(), Some(IpAddress::V4(lo4)));
}

#[test]
fn bogon_probe_times_out_with_empty_reply() {
    let payload = request_payload();
    let mut fut = submitted_future(payload);
    assert!(!fut.on_send_return(0, ERROR_IO_PENDING));
    assert!(!fut.on_callback());
    let PollOutcome::ReadyToParse(buf) = fut.poll(1) else {
        panic!("expected a completed probe");
    };
    // the parsing step reports no replies; the last error says timeout
    let res = finish_v4(buf, 0, 0, 0, 0, Ip4Addr::new(198, 18, 0, 1), IP_REQ_TIMED_OUT);
    assert_eq!(res.result, Err(Error::Timeout));
    assert!(res.buffer.reply_data().is_empty());
    assert_eq!(res.buffer.responding_ip(), None);
}

#[test]
fn unroutable_pair_fails_synchronously_as_net_unreachable() {
    let mut fut = submitted_future(request_payload());
    // the submission call fails before accepting the request
    let wake = fut.on_send_return(0, ERROR_NETWORK_UNREACHABLE);
    assert!(!wake);
    let PollOutcome::Complete(AsyncResult { result, buffer }) = fut.poll(1) else {
        panic!("expected a synchronous failure outcome");
    };
    assert_eq!(result, Err(Error::NetUnreachable));
    assert!(buffer.reply_data().is_empty());
    assert_eq!(buffer.responding_ip(), None);
}

#[test]
fn completion_order_is_independent_of_submission_order() {
    let payload_a: Vec<u8> = vec![0xAA; 32];
    let payload_b: Vec<u8> = vec![0xBB; 48];
    let addr_a = Ip4Addr::new(192, 0, 2, 1);
    let addr_b = Ip4Addr::new(192, 0, 2, 2);

    // A is submitted first, B second
    let mut fut_a = submitted_future(payload_a.clone());
    let mut fut_b = submitted_future(payload_b.clone());
    assert!(!fut_a.on_send_return(0, ERROR_IO_PENDING));
    assert!(!fut_b.on_send_return(0, ERROR_IO_PENDING));
    assert!(matches!(fut_a.poll(1), PollOutcome::Pending));
    assert!(matches!(fut_b.poll(2), PollOutcome::Pending));

    // B completes first and resolves while A is still pending
    assert!(fut_b.on_callback());
    let PollOutcome::ReadyToParse(mut buf_b) = fut_b.poll(3) else {
        panic!("expected B to be completed");
    };
    assert!(matches!(fut_a.poll(4), PollOutcome::Pending));
    complete_with_echo(&mut buf_b, &payload_b);
    let res_b = finish_v4(buf_b, 1, IP_SUCCESS, 1, payload_b.len() as u16, addr_b, 0);

    // then A completes
    assert!(fut_a.on_callback());
    let PollOutcome::ReadyToParse(mut buf_a) = fut_a.poll(5) else {
        panic!("expected A to be completed");
    };
    complete_with_echo(&mut buf_a, &payload_a);
    let res_a = finish_v4(buf_a, 1, IP_SUCCESS, 2, payload_a.len() as u16, addr_a, 0);

    // each future resolved with its own payload, not the other's
    assert_eq!(res_a.result, Ok(2));
    assert_eq!(res_a.buffer.reply_data(), &payload_a[..]);
    assert_eq!(res_a.buffer.responding_ip(), Some(IpAddress::V4(addr_a)));
    assert_eq!(res_b.result, Ok(1));
    assert_eq!(res_b.buffer.reply_data(), &payload_b[..]);
    assert_eq!(res_b.buffer.responding_ip(), Some(IpAddress::V4(addr_b)));
}

#[test]
fn reply_status_maps_to_probe_error() {
    let payload = request_payload();
    let mut fut = submitted_future(payload);
    assert!(!fut.on_send_return(0, ERROR_IO_PENDING));
    assert!(!fut.on_callback());
    let PollOutcome::ReadyToParse(buf) = fut.poll(1) else {
        panic!("expected a completed probe");
    };
    // one reply parsed, but its status is a TTL expiry
    let res = finish_v4(buf, 1, 11013, 9, 0, Ip4Addr::new(203, 0, 113, 7), 0);
    assert_eq!(res.result, Err(Error::TtlExpired));
}
