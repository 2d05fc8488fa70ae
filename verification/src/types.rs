//! The decoded data model: the header, its closed enumerations, the address
//! payload, and the decode outcome, together with the mathematical view of
//! each.

use vstd::prelude::*;

verus! {

/// Protocol version carried in the high nibble of the thirteenth byte.
/// Only version two has a binary header; version one (the text format) is
/// never produced by this decoder.
#[derive(Debug, Clone, Copy, PartialEq, Eq, Structural)]
pub enum Version {
    One,
    Two,
}

/// Whether the connection carries real client identity (`Proxy`) or is a
/// health-check made by the proxy itself (`Local`).
#[derive(Debug, Clone, Copy, PartialEq, Eq, Structural)]
pub enum Command {
    Local,
    Proxy,
}

/// Transport kind of the original connection, independent of the address
/// family.
#[derive(Debug, Clone, Copy, PartialEq, Eq, Structural)]
pub enum TransportProtocol {
    Unspec,
    Stream,
    Datagram,
}

/// Address family declared in the header; it selects the shape of the
/// address block.
#[derive(Debug, Clone, Copy, PartialEq, Eq, Structural)]
pub enum AddressFamily {
    Unspec,
    IPv4,
    IPv6,
    Unix,
}

/// Internet transport of an IPv4 or IPv6 address pair, derived from the
/// declared [`TransportProtocol`]: `Stream` means TCP, `Datagram` means UDP,
/// and an unspecified transport leaves it `None`.
#[derive(Debug, Clone, Copy, PartialEq, Eq, Structural)]
pub enum InternetProtocol {
    TCP,
    UDP,
}

/// Why a decode failed.  Every variant is a structural error: reading more
/// bytes from the same stream can never repair it.
#[derive(Debug, Clone, Copy, PartialEq, Eq, Structural)]
pub enum DecodeError {
    InvalidSignature,
    UnsupportedVersion,
    InvalidCommand,
    InvalidAddressFamily,
    InvalidTransportProtocol,
    MalformedAddressBlock,
}

/// The decoded address block.  Its shape agrees with the declared address
/// family: an unspecified family keeps the block's bytes verbatim, the other
/// families decode a fixed-size layout (12, 36 or 216 bytes).
#[derive(Debug, PartialEq, Eq)]
#[allow(inconsistent_fields)]
pub enum Address {
    Unspec(Vec<u8>),
    IPv4 {
        protocol: Option<InternetProtocol>,
        source: [u8; 4],
        destination: [u8; 4],
        source_port: u16,
        destination_port: u16,
    },
    IPv6 {
        protocol: Option<InternetProtocol>,
        source: [u8; 16],
        destination: [u8; 16],
        source_port: u16,
        destination_port: u16,
    },
    Unix {
        source: [u8; 108],
        destination: [u8; 108],
    },
}

/// A fully decoded header.  It is built atomically by one decode call and
/// never mutated; its `address` field's shape agrees with `address_family`.
#[derive(Debug, PartialEq, Eq)]
pub struct Header {
    pub version: Version,
    pub command: Command,
    pub protocol: TransportProtocol,
    pub address_family: AddressFamily,
    pub address: Address,
}

/// Result of one decode call over one byte slice.
#[derive(Debug, PartialEq, Eq)]
pub enum DecodeOutcome {
    /// A whole header was present; `consumed` bytes belong to it and the rest
    /// of the input is proxied payload.
    Decoded { header: Header, consumed: usize },
    /// The bytes seen so far are consistent with a valid header but too few;
    /// at least `need_at_least` more are required.
    Incomplete { need_at_least: usize },
    /// The bytes seen are inconsistent with any valid header.
    Failed { error: DecodeError },
}

/// Mathematical counterpart of [`Address`]: every byte buffer is a sequence.
pub enum AddressModel {
    Unspec {
        block: Seq<u8>,
    },
    IPv4 {
        protocol: Option<InternetProtocol>,
        source: Seq<u8>,
        destination: Seq<u8>,
        source_port: u16,
        destination_port: u16,
    },
    IPv6 {
        protocol: Option<InternetProtocol>,
        source: Seq<u8>,
        destination: Seq<u8>,
        source_port: u16,
        destination_port: u16,
    },
    Unix {
        source: Seq<u8>,
        destination: Seq<u8>,
    },
}

/// Mathematical counterpart of [`Header`].
pub struct HeaderModel {
    pub version: Version,
    pub command: Command,
    pub protocol: TransportProtocol,
    pub address_family: AddressFamily,
    pub address: AddressModel,
}

/// Mathematical counterpart of [`DecodeOutcome`], with unbounded counts.
pub enum OutcomeModel {
    Decoded { header: HeaderModel, consumed: int },
    Incomplete { need_at_least: int },
    Failed { error: DecodeError },
}

impl View for Address {
    type V = AddressModel;

    open spec fn view(&self) -> AddressModel {
        match self {
            Address::Unspec(block) => AddressModel::Unspec { block: block@ },
            Address::IPv4 { protocol, source, destination, source_port, destination_port } => {
                AddressModel::IPv4 {
                    protocol: *protocol,
                    source: source@,
                    destination: destination@,
                    source_port: *source_port,
                    destination_port: *destination_port,
                }
            },
            Address::IPv6 { protocol, source, destination, source_port, destination_port } => {
                AddressModel::IPv6 {
                    protocol: *protocol,
                    source: source@,
                    destination: destination@,
                    source_port: *source_port,
                    destination_port: *destination_port,
                }
            },
            Address::Unix { source, destination } => {
                AddressModel::Unix { source: source@, destination: destination@ }
            },
        }
    }
}

impl View for Header {
    type V = HeaderModel;

    open spec fn view(&self) -> HeaderModel {
        HeaderModel {
            version: self.version,
            command: self.command,
            protocol: self.protocol,
            address_family: self.address_family,
            address: self.address@,
        }
    }
}

impl View for DecodeOutcome {
    type V = OutcomeModel;

    open spec fn view(&self) -> OutcomeModel {
        match self {
            DecodeOutcome::Decoded { header, consumed } => {
                OutcomeModel::Decoded { header: header@, consumed: *consumed as int }
            },
            DecodeOutcome::Incomplete { need_at_least } => {
                OutcomeModel::Incomplete { need_at_least: *need_at_least as int }
            },
            DecodeOutcome::Failed { error } => OutcomeModel::Failed { error: *error },
        }
    }
}

} // verus!
