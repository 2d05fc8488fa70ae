//! The mathematical model of the wire format.
//!
//! All integers on the wire are big-endian; offsets count from the start of
//! the message:
//!
//! | offset | size | field                                           |
//! |--------|------|-------------------------------------------------|
//! | 0      | 12   | fixed signature                                 |
//! | 12     | 1    | version (high nibble), command (low nibble)     |
//! | 13     | 1    | address family (high), transport protocol (low) |
//! | 14     | 2    | length `L` of the address block                 |
//! | 16     | L    | address block, shape chosen by the family       |
//!
//! [`spec_decode`] says, for every byte sequence, whether it opens with a
//! whole header, is a proper prefix of one, or can never become one.

use vstd::prelude::*;

use crate::types::AddressFamily;
use crate::types::AddressModel;
use crate::types::Command;
use crate::types::DecodeError;
use crate::types::HeaderModel;
use crate::types::InternetProtocol;
use crate::types::OutcomeModel;
use crate::types::TransportProtocol;
use crate::types::Version;

verus! {

/// The fixed 12-byte signature that opens every version-2 header:
/// `\r\n\r\n\0\r\nQUIT\n`.
pub open spec fn signature() -> Seq<u8> {
    seq![0x0du8, 0x0au8, 0x0du8, 0x0au8, 0x00u8, 0x0du8, 0x0au8, 0x51u8, 0x55u8, 0x49u8, 0x54u8, 0x0au8]
}

/// An already-available byte contradicts the signature.  More bytes can never
/// repair this, while a short input whose bytes all match so far still may
/// grow into a header.
pub open spec fn signature_mismatch(s: Seq<u8>) -> bool {
    exists|i: int| 0 <= i < s.len() && i < 12 && s[i] != signature()[i]
}

/// The 16-bit big-endian integer written as the bytes `hi`, `lo`.
pub open spec fn be16(hi: u8, lo: u8) -> u16 {
    (hi * 256 + lo) as u16
}

/// Version encoded in the high nibble; only version two is supported.
pub open spec fn version_of_byte(b: u8) -> Option<Version> {
    if b / 16 == 2 {
        Some(Version::Two)
    } else {
        None
    }
}

/// Command encoded in the low nibble.
pub open spec fn command_of_byte(b: u8) -> Option<Command> {
    if b % 16 == 0 {
        Some(Command::Local)
    } else if b % 16 == 1 {
        Some(Command::Proxy)
    } else {
        None
    }
}

/// Address family encoded in the high nibble.
pub open spec fn family_of_byte(b: u8) -> Option<AddressFamily> {
    if b / 16 == 0 {
        Some(AddressFamily::Unspec)
    } else if b / 16 == 1 {
        Some(AddressFamily::IPv4)
    } else if b / 16 == 2 {
        Some(AddressFamily::IPv6)
    } else if b / 16 == 3 {
        Some(AddressFamily::Unix)
    } else {
        None
    }
}

/// Transport protocol encoded in the low nibble.
pub open spec fn transport_of_byte(b: u8) -> Option<TransportProtocol> {
    if b % 16 == 0 {
        Some(TransportProtocol::Unspec)
    } else if b % 16 == 1 {
        Some(TransportProtocol::Stream)
    } else if b % 16 == 2 {
        Some(TransportProtocol::Datagram)
    } else {
        None
    }
}

/// Internet transport of an address pair, taken from the declared transport
/// protocol rather than re-read from the wire.
pub open spec fn internet_protocol_of(transport: TransportProtocol) -> Option<InternetProtocol> {
    match transport {
        TransportProtocol::Unspec => None,
        TransportProtocol::Stream => Some(InternetProtocol::TCP),
        TransportProtocol::Datagram => Some(InternetProtocol::UDP),
    }
}

/// The address decoded from a whole `L`-byte block, or `None` when the
/// block's length contradicts the declared family.  An unspecified family
/// keeps every block verbatim; the others demand their exact fixed size.
pub open spec fn address_of_block(
    family: AddressFamily,
    transport: TransportProtocol,
    block: Seq<u8>,
) -> Option<AddressModel> {
    match family {
        AddressFamily::Unspec => Some(AddressModel::Unspec { block }),
        AddressFamily::IPv4 => {
            if block.len() == 12 {
                Some(AddressModel::IPv4 {
                    protocol: internet_protocol_of(transport),
                    source: block.subrange(0, 4),
                    destination: block.subrange(4, 8),
                    source_port: be16(block[8], block[9]),
                    destination_port: be16(block[10], block[11]),
                })
            } else {
                None
            }
        },
        AddressFamily::IPv6 => {
            if block.len() == 36 {
                Some(AddressModel::IPv6 {
                    protocol: internet_protocol_of(transport),
                    source: block.subrange(0, 16),
                    destination: block.subrange(16, 32),
                    source_port: be16(block[32], block[33]),
                    destination_port: be16(block[34], block[35]),
                })
            } else {
                None
            }
        },
        AddressFamily::Unix => {
            if block.len() == 216 {
                Some(AddressModel::Unix {
                    source: block.subrange(0, 108),
                    destination: block.subrange(108, 216),
                })
            } else {
                None
            }
        },
    }
}

/// The version/command byte of a version-two header carrying `command`.
pub open spec fn command_byte(command: Command) -> u8 {
    match command {
        Command::Local => 0x20,
        Command::Proxy => 0x21,
    }
}

/// The high nibble that encodes `family`.
pub open spec fn family_nibble(family: AddressFamily) -> u8 {
    match family {
        AddressFamily::Unspec => 0,
        AddressFamily::IPv4 => 1,
        AddressFamily::IPv6 => 2,
        AddressFamily::Unix => 3,
    }
}

/// The low nibble that encodes `transport`.
pub open spec fn transport_nibble(transport: TransportProtocol) -> u8 {
    match transport {
        TransportProtocol::Unspec => 0,
        TransportProtocol::Stream => 1,
        TransportProtocol::Datagram => 2,
    }
}

/// The family/transport byte of a header declaring `family` and `transport`.
pub open spec fn family_transport_byte(
    family: AddressFamily,
    transport: TransportProtocol,
) -> u8 {
    (family_nibble(family) * 16 + transport_nibble(transport)) as u8
}

/// The encoded header that declares the unspecified address family and
/// carries `block` as its address block: signature, fixed fields with the
/// block's length, then the block verbatim.
pub open spec fn encode_unspec_header(
    command: Command,
    transport: TransportProtocol,
    block: Seq<u8>,
) -> Seq<u8> {
    signature() + seq![
        command_byte(command),
        family_transport_byte(AddressFamily::Unspec, transport),
        (block.len() / 256) as u8,
        (block.len() % 256) as u8,
    ] + block
}

/// A decoded header is internally consistent: its version is the one
/// supported, its address's shape agrees with the declared address family,
/// each fixed buffer has its exact on-wire size, and an internet address
/// pair's transport is the one the fixed fields declared.
pub open spec fn header_wf(header: HeaderModel) -> bool {
    &&& header.version is Two
    &&& match header.address {
        AddressModel::Unspec { .. } => header.address_family is Unspec,
        AddressModel::IPv4 { protocol, source, destination, .. } => {
            &&& header.address_family is IPv4
            &&& protocol == internet_protocol_of(header.protocol)
            &&& source.len() == 4
            &&& destination.len() == 4
        },
        AddressModel::IPv6 { protocol, source, destination, .. } => {
            &&& header.address_family is IPv6
            &&& protocol == internet_protocol_of(header.protocol)
            &&& source.len() == 16
            &&& destination.len() == 16
        },
        AddressModel::Unix { source, destination } => {
            &&& header.address_family is Unix
            &&& source.len() == 108
            &&& destination.len() == 108
        },
    }
}

/// What decoding the byte sequence `s` yields.
///
/// The stages run in wire order and each one reports a contradiction as soon
/// as the bytes that show it are available: a wrong signature byte, then a
/// bad version or command nibble, then a bad family or transport nibble, each
/// without waiting for the rest of the header.  Starvation is reported only
/// when every available byte is still consistent with a valid header.  On
/// success exactly `16 + L` bytes are consumed, whatever follows them.
pub open spec fn spec_decode(s: Seq<u8>) -> OutcomeModel {
    if signature_mismatch(s) {
        OutcomeModel::Failed { error: DecodeError::InvalidSignature }
    } else if s.len() < 12 {
        OutcomeModel::Incomplete { need_at_least: 12 - s.len() }
    } else if s.len() > 12 && version_of_byte(s[12]) is None {
        OutcomeModel::Failed { error: DecodeError::UnsupportedVersion }
    } else if s.len() > 12 && command_of_byte(s[12]) is None {
        OutcomeModel::Failed { error: DecodeError::InvalidCommand }
    } else if s.len() > 13 && family_of_byte(s[13]) is None {
        OutcomeModel::Failed { error: DecodeError::InvalidAddressFamily }
    } else if s.len() > 13 && transport_of_byte(s[13]) is None {
        OutcomeModel::Failed { error: DecodeError::InvalidTransportProtocol }
    } else if s.len() < 16 {
        OutcomeModel::Incomplete { need_at_least: 16 - s.len() }
    } else if s.len() < 16 + be16(s[14], s[15]) {
        OutcomeModel::Incomplete { need_at_least: 16 + be16(s[14], s[15]) - s.len() }
    } else {
        let block_len = be16(s[14], s[15]) as int;
        let family = family_of_byte(s[13])->Some_0;
        let transport = transport_of_byte(s[13])->Some_0;
        match address_of_block(family, transport, s.subrange(16, 16 + block_len)) {
            Some(address) => OutcomeModel::Decoded {
                header: HeaderModel {
                    version: version_of_byte(s[12])->Some_0,
                    command: command_of_byte(s[12])->Some_0,
                    protocol: transport,
                    address_family: family,
                    address,
                },
                consumed: 16 + block_len,
            },
            None => OutcomeModel::Failed { error: DecodeError::MalformedAddressBlock },
        }
    }
}

} // verus!
