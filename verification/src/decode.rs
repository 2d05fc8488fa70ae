//! The executable decoder.  Each stage consumes exactly its own bytes, and
//! [`parse_v2_header`] composes them; its result equals
//! [`crate::wire::spec_decode`] of the input, byte for byte.

use vstd::prelude::*;

use crate::types::Address;
use crate::types::AddressFamily;
use crate::types::Command;
use crate::types::DecodeError;
use crate::types::DecodeOutcome;
use crate::types::Header;
use crate::types::InternetProtocol;
use crate::types::TransportProtocol;
use crate::types::Version;
use crate::wire::address_of_block;
use crate::wire::be16;
use crate::wire::command_of_byte;
use crate::wire::family_of_byte;
use crate::wire::internet_protocol_of;
use crate::wire::signature;
use crate::wire::signature_mismatch;
use crate::wire::spec_decode;
use crate::wire::transport_of_byte;
use crate::wire::version_of_byte;

verus! {

/// The byte at position `i` of the fixed signature.
fn signature_byte(i: usize) -> (b: u8)
    requires
        i < 12,
    ensures
        b == signature()[i as int],
{
    if i == 0 {
        0x0d
    } else if i == 1 {
        0x0a
    } else if i == 2 {
        0x0d
    } else if i == 3 {
        0x0a
    } else if i == 4 {
        0x00
    } else if i == 5 {
        0x0d
    } else if i == 6 {
        0x0a
    } else if i == 7 {
        0x51
    } else if i == 8 {
        0x55
    } else if i == 9 {
        0x49
    } else if i == 10 {
        0x54
    } else {
        0x0a
    }
}

/// The 16-bit big-endian integer written as the bytes `hi`, `lo`.
pub fn be_u16(hi: u8, lo: u8) -> (r: u16)
    ensures
        r == be16(hi, lo),
{
    (hi as u16) * 256 + (lo as u16)
}

/// Decode the version/command byte: high nibble version, low nibble command.
/// A version other than two is reported before the command nibble is looked
/// at.
pub fn parse_command(b: u8) -> (r: Result<(Version, Command), DecodeError>)
    ensures
        match r {
            Ok((version, command)) => {
                &&& version_of_byte(b) == Some(version)
                &&& command_of_byte(b) == Some(command)
            },
            Err(error) => {
                ||| (version_of_byte(b) is None && error == DecodeError::UnsupportedVersion)
                ||| (version_of_byte(b) is Some && command_of_byte(b) is None && error
                    == DecodeError::InvalidCommand)
            },
        },
{
    if b / 16 != 2 {
        Err(DecodeError::UnsupportedVersion)
    } else if b % 16 == 0 {
        Ok((Version::Two, Command::Local))
    } else if b % 16 == 1 {
        Ok((Version::Two, Command::Proxy))
    } else {
        Err(DecodeError::InvalidCommand)
    }
}

/// Decode the family/transport byte: high nibble address family, low nibble
/// transport protocol.  A bad family nibble is reported before the transport
/// nibble is looked at.
pub fn parse_protocol_family(b: u8) -> (r: Result<(AddressFamily, TransportProtocol), DecodeError>)
    ensures
        match r {
            Ok((family, transport)) => {
                &&& family_of_byte(b) == Some(family)
                &&& transport_of_byte(b) == Some(transport)
            },
            Err(error) => {
                ||| (family_of_byte(b) is None && error == DecodeError::InvalidAddressFamily)
                ||| (family_of_byte(b) is Some && transport_of_byte(b) is None && error
                    == DecodeError::InvalidTransportProtocol)
            },
        },
{
    let family = if b / 16 == 0 {
        AddressFamily::Unspec
    } else if b / 16 == 1 {
        AddressFamily::IPv4
    } else if b / 16 == 2 {
        AddressFamily::IPv6
    } else if b / 16 == 3 {
        AddressFamily::Unix
    } else {
        return Err(DecodeError::InvalidAddressFamily);
    };
    let transport = if b % 16 == 0 {
        TransportProtocol::Unspec
    } else if b % 16 == 1 {
        TransportProtocol::Stream
    } else if b % 16 == 2 {
        TransportProtocol::Datagram
    } else {
        return Err(DecodeError::InvalidTransportProtocol);
    };
    Ok((family, transport))
}

/// Internet transport of an address pair, taken from the declared transport
/// protocol.
pub fn internet_protocol_for(transport: TransportProtocol) -> (r: Option<InternetProtocol>)
    ensures
        r == internet_protocol_of(transport),
{
    match transport {
        TransportProtocol::Unspec => None,
        TransportProtocol::Stream => Some(InternetProtocol::TCP),
        TransportProtocol::Datagram => Some(InternetProtocol::UDP),
    }
}

/// Copy a whole slice into an owned vector.
fn copy_slice(input: &[u8]) -> (r: Vec<u8>)
    ensures
        r@ == input@,
{
    let mut copy: Vec<u8> = Vec::new();
    let mut i: usize = 0;
    while i < input.len()
        invariant
            i <= input@.len(),
            copy@ == input@.take(i as int),
        decreases input@.len() - i,
    {
        copy.push(input[i]);
        assert(copy@ =~= input@.take(i + 1));
        i = i + 1;
    }
    assert(copy@ =~= input@);
    copy
}

/// Copy the 4 bytes of `input` starting at `offset` into a fixed buffer.
fn copy_4(input: &[u8], offset: usize) -> (r: [u8; 4])
    requires
        offset + 4 <= input@.len(),
    ensures
        r@ == input@.subrange(offset as int, offset as int + 4),
{
    let r: [u8; 4] = [input[offset], input[offset + 1], input[offset + 2], input[offset + 3]];
    assert(r@ =~= input@.subrange(offset as int, offset as int + 4));
    r
}

/// Copy the 16 bytes of `input` starting at `offset` into a fixed buffer.
fn copy_16(input: &[u8], offset: usize) -> (r: [u8; 16])
    requires
        offset + 16 <= input@.len(),
    ensures
        r@ == input@.subrange(offset as int, offset as int + 16),
{
    let r: [u8; 16] = [
        input[offset],
        input[offset + 1],
        input[offset + 2],
        input[offset + 3],
        input[offset + 4],
        input[offset + 5],
        input[offset + 6],
        input[offset + 7],
        input[offset + 8],
        input[offset + 9],
        input[offset + 10],
        input[offset + 11],
        input[offset + 12],
        input[offset + 13],
        input[offset + 14],
        input[offset + 15],
    ];
    assert(r@ =~= input@.subrange(offset as int, offset as int + 16));
    r
}

/// Copy the 108 bytes of `input` starting at `offset` into a fixed buffer,
/// padding included: a Unix path half is kept verbatim, not truncated at its
/// first null.
fn copy_108(input: &[u8], offset: usize) -> (r: [u8; 108])
    requires
        offset + 108 <= input@.len(),
    ensures
        r@ == input@.subrange(offset as int, offset as int + 108),
{
    let n = input.len();
    let mut buf: [u8; 108] = [0u8; 108];
    let mut i: usize = 0;
    while i < 108
        invariant
            i <= 108,
            offset + 108 <= n,
            n == input@.len(),
            forall|j: int| 0 <= j < i ==> buf@[j] == input@[offset + j],
        decreases 108 - i,
    {
        buf[i] = input[offset + i];
        i = i + 1;
    }
    assert(buf@ =~= input@.subrange(offset as int, offset as int + 108));
    buf
}

/// Decode the whole `block` as the address payload of the declared family:
/// an unspecified family keeps the block verbatim, the other families demand
/// their exact fixed size (12, 36 or 216 bytes) and yield `None` — a
/// malformed block — on any other length.
pub fn parse_address(
    family: AddressFamily,
    transport: TransportProtocol,
    block: &[u8],
) -> (r: Option<Address>)
    ensures
        match r {
            Some(address) => address_of_block(family, transport, block@) == Some(address@),
            None => address_of_block(family, transport, block@) is None,
        },
{
    match family {
        AddressFamily::Unspec => Some(Address::Unspec(copy_slice(block))),
        AddressFamily::IPv4 => {
            if block.len() != 12 {
                return None;
            }
            Some(Address::IPv4 {
                protocol: internet_protocol_for(transport),
                source: copy_4(block, 0),
                destination: copy_4(block, 4),
                source_port: be_u16(block[8], block[9]),
                destination_port: be_u16(block[10], block[11]),
            })
        },
        AddressFamily::IPv6 => {
            if block.len() != 36 {
                return None;
            }
            Some(Address::IPv6 {
                protocol: internet_protocol_for(transport),
                source: copy_16(block, 0),
                destination: copy_16(block, 16),
                source_port: be_u16(block[32], block[33]),
                destination_port: be_u16(block[34], block[35]),
            })
        },
        AddressFamily::Unix => {
            if block.len() != 216 {
                return None;
            }
            Some(Address::Unix { source: copy_108(block, 0), destination: copy_108(block, 108) })
        },
    }
}

/// Decode one header from the front of `input`.
///
/// The result equals the wire model's verdict on exactly these bytes: a
/// decoded header together with the count of bytes it occupies, a demand for
/// at least so many more bytes, or a structural failure that more bytes can
/// never repair.
pub fn parse_v2_header(input: &[u8]) -> (r: DecodeOutcome)
    ensures
        r@ == spec_decode(input@),
{
    let n = input.len();
    let sig_avail: usize = if n < 12 {
        n
    } else {
        12
    };
    let mut i: usize = 0;
    while i < sig_avail
        invariant
            sig_avail == if input@.len() < 12 {
                input@.len()
            } else {
                12nat
            },
            i <= sig_avail,
            forall|j: int| 0 <= j < i ==> input@[j] == signature()[j],
        decreases sig_avail - i,
    {
        if input[i] != signature_byte(i) {
            assert(signature_mismatch(input@));
            return DecodeOutcome::Failed { error: DecodeError::InvalidSignature };
        }
        i = i + 1;
    }
    assert(!signature_mismatch(input@));
    if n < 12 {
        return DecodeOutcome::Incomplete { need_at_least: 12 - n };
    }
    if n == 12 {
        return DecodeOutcome::Incomplete { need_at_least: 4 };
    }
    let (version, command) = match parse_command(input[12]) {
        Ok(pair) => pair,
        Err(error) => {
            return DecodeOutcome::Failed { error };
        },
    };
    if n == 13 {
        return DecodeOutcome::Incomplete { need_at_least: 3 };
    }
    let (family, transport) = match parse_protocol_family(input[13]) {
        Ok(pair) => pair,
        Err(error) => {
            return DecodeOutcome::Failed { error };
        },
    };
    if n < 16 {
        return DecodeOutcome::Incomplete { need_at_least: 16 - n };
    }
    let block_len = be_u16(input[14], input[15]) as usize;
    if n < 16 + block_len {
        return DecodeOutcome::Incomplete { need_at_least: 16 + block_len - n };
    }
    let block: &[u8] = &input[16..16 + block_len];
    let address = match parse_address(family, transport, block) {
        Some(address) => address,
        None => {
            return DecodeOutcome::Failed { error: DecodeError::MalformedAddressBlock };
        },
    };
    let header = Header { version, command, protocol: transport, address_family: family, address };
    DecodeOutcome::Decoded { header, consumed: 16 + block_len }
}

} // verus!
