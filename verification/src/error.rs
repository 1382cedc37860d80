//! Probe outcome errors and the mapping from raw status codes.
//!
//! A probe that does not succeed reports one of a closed set of
//! categories, with an escape hatch carrying the raw code.  The raw codes
//! follow the platform conventions for echo requests: reply-specific
//! status values live in a dedicated range, while plain system error
//! codes arrive outside it.

use vstd::prelude::*;

verus! {

/// Status value reported for a successful echo reply.
pub const IP_SUCCESS: u32 = 0;

/// First value of the reply-specific status range.
pub const IP_STATUS_BASE: u32 = 11000;

/// Reply status: the reply area was too small.
pub const IP_BUF_TOO_SMALL: u32 = 11001;

/// Reply status: the destination network was unreachable.
pub const IP_DEST_NET_UNREACHABLE: u32 = 11002;

/// Reply status: the destination host was unreachable.
pub const IP_DEST_HOST_UNREACHABLE: u32 = 11003;

/// Reply status: the destination protocol was unreachable.
pub const IP_DEST_PROT_UNREACHABLE: u32 = 11004;

/// Reply status: the packet needed fragmentation but fragmentation was
/// forbidden.
pub const IP_PACKET_TOO_BIG: u32 = 11009;

/// Reply status: the request timed out.
pub const IP_REQ_TIMED_OUT: u32 = 11010;

/// Reply status: the time-to-live expired in transit.
pub const IP_TTL_EXPIRED_TRANSIT: u32 = 11013;

/// Reply status: the reassembly timer expired while waiting for fragments.
pub const IP_TTL_EXPIRED_REASSEM: u32 = 11014;

/// Last value of the reply-specific status range.
pub const MAX_IP_STATUS: u32 = 11050;

/// System error code: the destination network was unreachable.
pub const ERROR_NETWORK_UNREACHABLE: u32 = 1231;

/// System error code: the destination host was unreachable.
pub const ERROR_HOST_UNREACHABLE: u32 = 1232;

/// System error code: the destination protocol was unreachable.
pub const ERROR_PROTOCOL_UNREACHABLE: u32 = 1233;

/// An error when sending a ping request.
#[derive(Copy, Clone, Debug, PartialEq, Eq, Hash, Structural)]
pub enum Error {
    /// The ping request timed out.
    Timeout,
    /// The destination network is unreachable.
    NetUnreachable,
    /// The destination host is unreachable.
    HostUnreachable,
    /// The IP TTL expired during transit.
    TtlExpired,
    /// The IP reassembly timer expired.
    ReassemblyExpired,
    /// The packet needs fragmented, but the DF bit is set.
    NeedsFragmented,
    /// The destination protocol is unreachable.
    ProtocolUnreachable,
    /// Some other error occurred, carrying the raw code.
    Other(u32),
}

/// The category that a reply-specific status code maps to.
pub open spec fn spec_iperror(err: u32) -> Error {
    if err == IP_REQ_TIMED_OUT {
        Error::Timeout
    } else if err == IP_DEST_HOST_UNREACHABLE {
        Error::HostUnreachable
    } else if err == IP_DEST_NET_UNREACHABLE {
        Error::NetUnreachable
    } else if err == IP_TTL_EXPIRED_TRANSIT {
        Error::TtlExpired
    } else if err == IP_TTL_EXPIRED_REASSEM {
        Error::ReassemblyExpired
    } else if err == IP_DEST_PROT_UNREACHABLE {
        Error::ProtocolUnreachable
    } else if err == IP_PACKET_TOO_BIG {
        Error::NeedsFragmented
    } else {
        Error::Other(err)
    }
}

/// The category that a code maps to when it may be either a
/// reply-specific status or a plain system error code.
pub open spec fn spec_winerror(err: u32) -> Error {
    if IP_STATUS_BASE <= err <= MAX_IP_STATUS {
        spec_iperror(err)
    } else if err == ERROR_HOST_UNREACHABLE {
        Error::HostUnreachable
    } else if err == ERROR_NETWORK_UNREACHABLE {
        Error::NetUnreachable
    } else if err == ERROR_PROTOCOL_UNREACHABLE {
        Error::ProtocolUnreachable
    } else {
        Error::Other(err)
    }
}

/// The human-readable text for an error value.  Raw codes outside the
/// recognized set render as a generic text.
pub open spec fn spec_message(e: Error) -> Seq<char> {
    match e {
        Error::Timeout => "Request timed out"@,
        Error::NetUnreachable => "Destination network unreachable"@,
        Error::HostUnreachable => "Destination host unreachable"@,
        Error::TtlExpired => "TTL expired in transit"@,
        Error::ReassemblyExpired => "Reassembly timed out waiting for fragments"@,
        Error::NeedsFragmented => "Packet needs fragmented"@,
        Error::ProtocolUnreachable => "Destination protocol unreachable"@,
        Error::Other(code) => if code == IP_SUCCESS {
            "The operation completed successfully."@
        } else if code == IP_BUF_TOO_SMALL {
            "Buffer too small."@
        } else if IP_STATUS_BASE <= code <= MAX_IP_STATUS {
            "Unrecognized reply status"@
        } else {
            "Unrecognized system error"@
        },
    }
}

impl Error {
    /// Maps a reply-specific status code to its category.
    pub fn from_iperror(err: u32) -> (r: Error)
        ensures
            r == spec_iperror(err),
    {
        if err == IP_REQ_TIMED_OUT {
            Error::Timeout
        } else if err == IP_DEST_HOST_UNREACHABLE {
            Error::HostUnreachable
        } else if err == IP_DEST_NET_UNREACHABLE {
            Error::NetUnreachable
        } else if err == IP_TTL_EXPIRED_TRANSIT {
            Error::TtlExpired
        } else if err == IP_TTL_EXPIRED_REASSEM {
            Error::ReassemblyExpired
        } else if err == IP_DEST_PROT_UNREACHABLE {
            Error::ProtocolUnreachable
        } else if err == IP_PACKET_TOO_BIG {
            Error::NeedsFragmented
        } else {
            Error::Other(err)
        }
    }

    /// Maps a code that is either a reply-specific status or a plain
    /// system error code to its category.
    pub fn from_winerror(err: u32) -> (r: Error)
        ensures
            r == spec_winerror(err),
    {
        if IP_STATUS_BASE <= err && err <= MAX_IP_STATUS {
            Error::from_iperror(err)
        } else if err == ERROR_HOST_UNREACHABLE {
            Error::HostUnreachable
        } else if err == ERROR_NETWORK_UNREACHABLE {
            Error::NetUnreachable
        } else if err == ERROR_PROTOCOL_UNREACHABLE {
            Error::ProtocolUnreachable
        } else {
            Error::Other(err)
        }
    }

    /// A human-readable rendering of the error.
    pub fn message(&self) -> (r: &'static str)
        ensures
            r@ == spec_message(*self),
    {
        match self {
            Error::Timeout => "Request timed out",
            Error::NetUnreachable => "Destination network unreachable",
            Error::HostUnreachable => "Destination host unreachable",
            Error::TtlExpired => "TTL expired in transit",
            Error::ReassemblyExpired => "Reassembly timed out waiting for fragments",
            Error::NeedsFragmented => "Packet needs fragmented",
            Error::ProtocolUnreachable => "Destination protocol unreachable",
            Error::Other(code) => if *code == IP_SUCCESS {
                "The operation completed successfully."
            } else if *code == IP_BUF_TOO_SMALL {
                "Buffer too small."
            } else if IP_STATUS_BASE <= *code && *code <= MAX_IP_STATUS {
                "Unrecognized reply status"
            } else {
                "Unrecognized system error"
            },
        }
    }
}

} // verus!
