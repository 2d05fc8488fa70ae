//! General properties of the wire model, proved once for every input.
//!
//! [`crate::decode::parse_v2_header`] returns exactly
//! [`spec_decode`](crate::wire::spec_decode) of its input, so each law here
//! holds of the executable decoder as well.

use vstd::prelude::*;

use crate::types::AddressFamily;
use crate::types::AddressModel;
use crate::types::Command;
use crate::types::DecodeError;
use crate::types::HeaderModel;
use crate::types::OutcomeModel;
use crate::types::TransportProtocol;
use crate::types::Version;
use crate::wire::address_of_block;
use crate::wire::be16;
use crate::wire::command_byte;
use crate::wire::command_of_byte;
use crate::wire::encode_unspec_header;
use crate::wire::family_of_byte;
use crate::wire::family_transport_byte;
use crate::wire::header_wf;
use crate::wire::signature;
use crate::wire::signature_mismatch;
use crate::wire::spec_decode;
use crate::wire::transport_of_byte;
use crate::wire::version_of_byte;

verus! {

/// Decoding an encoded header that declares the unspecified address family —
/// any command, any transport, any block of up to 65535 bytes, any trailing
/// payload — yields that header back, with the block kept verbatim, and
/// consumes exactly the 16 fixed bytes plus the block.
pub proof fn lemma_unspec_encoding_decodes(
    command: Command,
    transport: TransportProtocol,
    block: Seq<u8>,
    rest: Seq<u8>,
)
    requires
        block.len() <= 0xffff,
    ensures
        spec_decode(encode_unspec_header(command, transport, block) + rest)
            == (OutcomeModel::Decoded {
            header: HeaderModel {
                version: Version::Two,
                command,
                protocol: transport,
                address_family: AddressFamily::Unspec,
                address: AddressModel::Unspec { block },
            },
            consumed: 16 + block.len() as int,
        }),
{
    let s = encode_unspec_header(command, transport, block) + rest;
    let len = block.len() as int;
    assert(s.len() == 16 + len + rest.len());
    assert forall|i: int| 0 <= i < 12 implies s[i] == signature()[i] by {
        assert(s[i] == signature()[i]);
    }
    assert(!signature_mismatch(s));
    assert(s[12] == command_byte(command));
    assert(version_of_byte(s[12]) == Some(Version::Two));
    assert(command_of_byte(s[12]) == Some(command));
    assert(s[13] == family_transport_byte(AddressFamily::Unspec, transport));
    assert(family_of_byte(s[13]) == Some(AddressFamily::Unspec));
    assert(transport_of_byte(s[13]) == Some(transport));
    assert(s[14] == (len / 256) as u8 && s[15] == (len % 256) as u8);
    assert(be16(s[14], s[15]) == len) by {
        assert((len / 256) * 256 + len % 256 == len);
    }
    assert(s.subrange(16, 16 + len) =~= block);
    assert(address_of_block(AddressFamily::Unspec, transport, block) == Some(
        AddressModel::Unspec { block },
    ));
}

/// Decoding any proper prefix of a whole encoded header reports starvation,
/// never failure: the bytes of such a prefix are all still consistent with
/// the header they were cut from.
pub proof fn lemma_prefix_incomplete(s: Seq<u8>, k: int)
    requires
        spec_decode(s) matches OutcomeModel::Decoded { consumed, .. } && 1 <= k < consumed,
    ensures
        spec_decode(s.take(k)) is Incomplete,
{
    let t = s.take(k);
    let consumed = spec_decode(s)->consumed;
    assert(!signature_mismatch(s));
    assert(s.len() >= 16);
    assert(consumed == 16 + be16(s[14], s[15]));
    assert(k < s.len());
    assert forall|i: int| 0 <= i < t.len() && i < 12 implies t[i] == signature()[i] by {
        assert(t[i] == s[i]);
        assert(!(s[i] != signature()[i]));
    }
    assert(!signature_mismatch(t));
    if k > 12 {
        assert(t[12] == s[12]);
        assert(version_of_byte(s[12]) is Some);
        assert(command_of_byte(s[12]) is Some);
    }
    if k > 13 {
        assert(t[13] == s[13]);
        assert(family_of_byte(s[13]) is Some);
        assert(transport_of_byte(s[13]) is Some);
    }
    if k >= 16 {
        assert(t[14] == s[14] && t[15] == s[15]);
        assert(t.len() == k < 16 + be16(t[14], t[15]));
    }
}

/// A byte that contradicts the signature within the first twelve positions
/// makes the decode fail with `InvalidSignature` as soon as that byte is
/// available, whatever stands anywhere else in the input.
pub proof fn lemma_signature_mismatch_fails(s: Seq<u8>, i: int)
    requires
        0 <= i < s.len(),
        i < 12,
        s[i] != signature()[i],
    ensures
        spec_decode(s) == (OutcomeModel::Failed { error: DecodeError::InvalidSignature }),
{
    assert(signature_mismatch(s));
}

/// A whole header that declares the IPv4 family with an address-block length
/// other than 12 fails with `MalformedAddressBlock`, whatever the block's
/// bytes hold.
pub proof fn lemma_ipv4_wrong_length_fails(s: Seq<u8>)
    requires
        !signature_mismatch(s),
        s.len() >= 16 + be16(s[14], s[15]),
        version_of_byte(s[12]) is Some,
        command_of_byte(s[12]) is Some,
        family_of_byte(s[13]) == Some(AddressFamily::IPv4),
        transport_of_byte(s[13]) is Some,
        be16(s[14], s[15]) != 12,
    ensures
        spec_decode(s) == (OutcomeModel::Failed { error: DecodeError::MalformedAddressBlock }),
{
    let len = be16(s[14], s[15]) as int;
    assert(s.subrange(16, 16 + len).len() == len);
    assert(address_of_block(AddressFamily::IPv4, transport_of_byte(s[13])->Some_0, s.subrange(16, 16 + len))
        is None);
}

/// Every header the model decodes is internally consistent — supported
/// version, address shape agreeing with the declared family, exact buffer
/// sizes — and occupies between 16 bytes and the whole input.
pub proof fn lemma_decoded_header_wf(s: Seq<u8>)
    requires
        spec_decode(s) is Decoded,
    ensures
        spec_decode(s) matches OutcomeModel::Decoded { header, consumed } && header_wf(header)
            && 16 <= consumed <= s.len(),
{
    let len = be16(s[14], s[15]) as int;
    let family = family_of_byte(s[13])->Some_0;
    let transport = transport_of_byte(s[13])->Some_0;
    let block = s.subrange(16, 16 + len);
    assert(block.len() == len);
    match family {
        AddressFamily::Unspec => {},
        AddressFamily::IPv4 => {
            assert(address_of_block(family, transport, block) is Some ==> block.len() == 12);
        },
        AddressFamily::IPv6 => {
            assert(address_of_block(family, transport, block) is Some ==> block.len() == 36);
        },
        AddressFamily::Unix => {
            assert(address_of_block(family, transport, block) is Some ==> block.len() == 216);
        },
    }
}

/// Malformation is permanent: once the bytes seen contradict every valid
/// header, more bytes from the same stream keep the decode failing, with the
/// same error.
pub proof fn lemma_failure_is_permanent(s: Seq<u8>, more: Seq<u8>)
    requires
        spec_decode(s) is Failed,
    ensures
        spec_decode(s + more) == spec_decode(s),
{
    let t = s + more;
    assert(forall|i: int| 0 <= i < s.len() ==> t[i] == s[i]);
    if signature_mismatch(s) {
        let i = choose|i: int| 0 <= i < s.len() && i < 12 && s[i] != signature()[i];
        assert(t[i] != signature()[i]);
        assert(signature_mismatch(t));
    } else {
        // a failure past the signature needs at least the thirteenth byte
        assert(s.len() > 12);
        assert forall|i: int| 0 <= i < t.len() && i < 12 implies t[i] == signature()[i] by {
            assert(s[i] == signature()[i]);
        }
        assert(!signature_mismatch(t));
        if version_of_byte(s[12]) is None {
        } else if command_of_byte(s[12]) is None {
        } else if s.len() > 13 && family_of_byte(s[13]) is None {
        } else if s.len() > 13 && transport_of_byte(s[13]) is None {
        } else {
            // only a malformed address block is left; the whole block was
            // already present and is unchanged in the extended input
            assert(s.len() >= 16);
            let len = be16(s[14], s[15]) as int;
            assert(s.len() >= 16 + len);
            assert(t.subrange(16, 16 + len) =~= s.subrange(16, 16 + len));
        }
    }
}

/// The starvation report is honest: extending the input by fewer bytes than
/// `need_at_least` can never complete a header.
pub proof fn lemma_need_at_least_is_honest(s: Seq<u8>, more: Seq<u8>)
    requires
        spec_decode(s) matches OutcomeModel::Incomplete { need_at_least } && more.len()
            < need_at_least,
    ensures
        !(spec_decode(s + more) is Decoded),
{
    let t = s + more;
    assert(forall|i: int| 0 <= i < s.len() ==> t[i] == s[i]);
    if s.len() < 16 {
        // the report asked for at least the 16 fixed bytes
        assert(t.len() < 16);
    } else {
        // the fixed fields were present, so the report asked for the rest of
        // the declared address block, whose length bytes are unchanged
        assert(t[14] == s[14] && t[15] == s[15]);
        assert(t.len() < 16 + be16(t[14], t[15]));
    }
}

} // verus!
