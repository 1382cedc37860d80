//! Tests of the error categories, the raw-code mapping, and the
//! human-readable rendering.

use winping::error::{
    ERROR_HOST_UNREACHABLE, ERROR_NETWORK_UNREACHABLE, ERROR_PROTOCOL_UNREACHABLE,
    IP_BUF_TOO_SMALL, IP_DEST_HOST_UNREACHABLE, IP_DEST_NET_UNREACHABLE,
    IP_DEST_PROT_UNREACHABLE, IP_PACKET_TOO_BIG, IP_REQ_TIMED_OUT, IP_TTL_EXPIRED_REASSEM,
    IP_TTL_EXPIRED_TRANSIT,
};
use winping::Error;

#[test]
fn error_win_display() {
    let e = Error::Other(0);
    let s = e.message();
    assert!(s.ends_with("The operation completed successfully."));
}

#[test]
fn error_ip_display() {
    let e = Error::Other(11001);
    let s = e.message();
    assert!(s.ends_with("Buffer too small."));
}

#[test]
fn iperror_maps_each_reply_status() {
    assert_eq!(Error::from_iperror(IP_REQ_TIMED_OUT), Error::Timeout);
    assert_eq!(
        Error::from_iperror(IP_DEST_HOST_UNREACHABLE),
        Error::HostUnreachable
    );
    assert_eq!(
        Error::from_iperror(IP_DEST_NET_UNREACHABLE),
        Error::NetUnreachable
    );
    assert_eq!(Error::from_iperror(IP_TTL_EXPIRED_TRANSIT), Error::TtlExpired);
    assert_eq!(
        Error::from_iperror(IP_TTL_EXPIRED_REASSEM),
        Error::ReassemblyExpired
    );
    assert_eq!(
        Error::from_iperror(IP_DEST_PROT_UNREACHABLE),
        Error::ProtocolUnreachable
    );
    assert_eq!(Error::from_iperror(IP_PACKET_TOO_BIG), Error::NeedsFragmented);
    assert_eq!(Error::from_iperror(IP_BUF_TOO_SMALL), Error::Other(11001));
}

#[test]
fn winerror_maps_reply_range_and_system_codes() {
    // codes in the reply-specific range go through the reply mapping
    assert_eq!(Error::from_winerror(IP_REQ_TIMED_OUT), Error::Timeout);
    assert_eq!(
        Error::from_winerror(IP_DEST_NET_UNREACHABLE),
        Error::NetUnreachable
    );
    // system codes outside the range have their own mapping
    assert_eq!(
        Error::from_winerror(ERROR_HOST_UNREACHABLE),
        Error::HostUnreachable
    );
    assert_eq!(
        Error::from_winerror(ERROR_NETWORK_UNREACHABLE),
        Error::NetUnreachable
    );
    assert_eq!(
        Error::from_winerror(ERROR_PROTOCOL_UNREACHABLE),
        Error::ProtocolUnreachable
    );
    // anything else is carried raw
    assert_eq!(Error::from_winerror(0), Error::Other(0));
    assert_eq!(Error::from_winerror(5), Error::Other(5));
    assert_eq!(Error::from_winerror(11050), Error::Other(11050));
    assert_eq!(Error::from_winerror(11051), Error::Other(11051));
}

#[test]
fn message_names_each_category() {
    assert_eq!(Error::Timeout.message(), "Request timed out");
    assert_eq!(
        Error::NetUnreachable.message(),
        "Destination network unreachable"
    );
    assert_eq!(
        Error::HostUnreachable.message(),
        "Destination host unreachable"
    );
    assert_eq!(Error::TtlExpired.message(), "TTL expired in transit");
    assert_eq!(
        Error::ReassemblyExpired.message(),
        "Reassembly timed out waiting for fragments"
    );
    assert_eq!(Error::NeedsFragmented.message(), "Packet needs fragmented");
    assert_eq!(
        Error::ProtocolUnreachable.message(),
        "Destination protocol unreachable"
    );
    assert_eq!(Error::Other(11020).message(), "Unrecognized reply status");
    assert_eq!(Error::Other(42).message(), "Unrecognized system error");
}
