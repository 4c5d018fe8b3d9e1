//! The SCALE encodings that the executor core produces and reads: a state
//! root as a 32-byte hash, and the header that `initialize_block` is called
//! with.

use vstd::prelude::*;
use crate::error::{GossipMessageError, GossipMessageErrorView};
use crate::primitives::{BlockNumber, H256};

verus! {

/// The compact SCALE encoding of a 32-bit number.
pub open spec fn compact_u32_encoding(value: u32) -> Seq<u8> {
    if value < 0x40 {
        seq![(value * 4) as u8]
    } else if value < 0x4000 {
        let shifted = value * 4 + 1;
        seq![(shifted % 256) as u8, (shifted / 256) as u8]
    } else if value < 0x4000_0000 {
        let shifted = value * 4 + 2;
        seq![
            (shifted % 256) as u8,
            (shifted / 0x100 % 256) as u8,
            (shifted / 0x1_0000 % 256) as u8,
            (shifted / 0x100_0000) as u8,
        ]
    } else {
        seq![
            3u8,
            (value % 256) as u8,
            (value / 0x100 % 256) as u8,
            (value / 0x1_0000 % 256) as u8,
            (value / 0x100_0000) as u8,
        ]
    }
}

/// The SCALE encoding of a header without digest items: the parent hash, the
/// compact block number, the state root, the extrinsics root, and the empty
/// list of digest items.
pub open spec fn header_encoding(
    number: BlockNumber,
    extrinsics_root: Seq<u8>,
    state_root: Seq<u8>,
    parent_hash: Seq<u8>,
) -> Seq<u8> {
    parent_hash + compact_u32_encoding(number) + state_root + extrinsics_root + seq![0u8]
}

/// The SCALE encoding of a fresh header: one with the given number and
/// parent hash, all-zero roots and no digest items.
pub open spec fn new_header_encoding(number: BlockNumber, parent_hash: Seq<u8>) -> Seq<u8> {
    header_encoding(
        number,
        Seq::new(32, |i: int| 0u8),
        Seq::new(32, |i: int| 0u8),
        parent_hash,
    )
}

/// Hands the four values and an empty digest to `Header::new` of
/// `sp_runtime::generic::Header<u32, BlakeTwo256>` and encodes the header
/// with `parity_scale_codec::Encode::encode`. The contract claims the bytes
/// that the derived encoding of that struct gives: the fields in their
/// declared order, the number in compact form, the digest as an empty list.
#[verifier::external_body]
pub(crate) fn encode_header_without_digest(
    number: BlockNumber,
    extrinsics_root: &H256,
    state_root: &H256,
    parent_hash: &H256,
) -> (encoded: Vec<u8>)
    ensures
        encoded@ == header_encoding(number, extrinsics_root@, state_root@, parent_hash@),
{
    let header = <sp_runtime::generic::Header<u32, sp_runtime::traits::BlakeTwo256> as sp_runtime::traits::Header>::new(
        number,
        sp_core::H256(*extrinsics_root),
        sp_core::H256(*state_root),
        sp_core::H256(*parent_hash),
        sp_runtime::generic::Digest::default(),
    );
    parity_scale_codec::Encode::encode(&header)
}

/// Calls `parity_scale_codec::Decode::decode` for `sp_core::H256` on the given
/// bytes. The contract claims that decoding succeeds exactly when at least 32
/// bytes are there, and then yields the first 32 of them.
#[verifier::external_body]
pub(crate) fn decode_h256(encoded: &Vec<u8>) -> (decoded: Option<H256>)
    ensures
        decoded is Some <==> encoded@.len() >= 32,
        decoded matches Some(hash) ==> hash@ == encoded@.subrange(0, 32),
{
    let mut input = encoded.as_slice();
    match <sp_core::H256 as parity_scale_codec::Decode>::decode(&mut input) {
        Ok(hash) => Some(hash.0),
        Err(_) => None,
    }
}

/// Whether an encoded state root can be read as a 32-byte hash.
pub open spec fn is_h256(state_root: Seq<u8>) -> bool {
    state_root.len() >= 32
}

/// The 32-byte hash that an encoded state root stands for.
pub open spec fn h256_of(state_root: Seq<u8>) -> Seq<u8>
    recommends
        is_h256(state_root),
{
    state_root.subrange(0, 32)
}

/// Reads an encoded state root as a 32-byte hash.
pub fn as_h256(state_root: &Vec<u8>) -> (converted: Result<H256, GossipMessageError>)
    ensures
        converted is Ok <==> is_h256(state_root@),
        converted matches Ok(hash) ==> hash@ == h256_of(state_root@),
        converted matches Err(error) ==> error@ == GossipMessageErrorView::InvalidStateRootType,
{
    match decode_h256(state_root) {
        Some(hash) => Ok(hash),
        None => Err(GossipMessageError::InvalidStateRootType),
    }
}

/// Encodes the header of a block that has no digest items.
pub fn encode_header(
    number: BlockNumber,
    extrinsics_root: &H256,
    state_root: &H256,
    parent_hash: &H256,
) -> (encoded: Vec<u8>)
    ensures
        encoded@ == header_encoding(number, extrinsics_root@, state_root@, parent_hash@),
{
    encode_header_without_digest(number, extrinsics_root, state_root, parent_hash)
}

/// The call data of an `initialize_block` call: the encoded header of a block
/// with the given number on top of the given parent.
pub fn initialize_block_call_data(number: BlockNumber, parent_hash: &H256) -> (call_data: Vec<u8>)
    ensures
        call_data@ == new_header_encoding(number, parent_hash@),
{
    let no_root: H256 = [0u8; 32];
    assert(no_root@ =~= Seq::new(32, |i: int| 0u8));
    encode_header(number, &no_root, &no_root, parent_hash)
}

} // verus!
