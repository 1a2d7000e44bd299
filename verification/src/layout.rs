//! The stored form of an escrow record: the two parties, the amount as eight
//! little-endian bytes, the item name as a four-byte little-endian length
//! followed by its UTF-8 bytes, the settlement flag and the bump.

use crate::identity::Identity;
use crate::record::{name_length, Escrow, EscrowView, MAX_ITEM_NAME};
use std::string::FromUtf8Error;
use vstd::bytes::{
    lemma_auto_spec_u32_to_from_le_bytes, lemma_auto_spec_u64_to_from_le_bytes,
    spec_u32_from_le_bytes, spec_u32_to_le_bytes, spec_u64_from_le_bytes, spec_u64_to_le_bytes,
    u32_from_le_bytes, u32_to_le_bytes, u64_from_le_bytes, u64_to_le_bytes,
};
use vstd::prelude::*;
use vstd::slice::{slice_subrange, slice_to_vec};
use vstd::utf8::{
    decode_utf8, decode_utf8_encode_utf8, encode_utf8, encode_utf8_decode_utf8,
    encode_utf8_valid_utf8, valid_utf8,
};

verus! {

/// The error of `String::from_utf8`. Nothing is read from it.
#[verifier::external_type_specification]
#[verifier::external_body]
pub struct ExFromUtf8Error(FromUtf8Error);

/// Calls `String::from_utf8`.
///
/// Believed without proof: it accepts exactly the byte vectors that are
/// valid UTF-8, and the string it returns is made of the bytes it was given.
#[verifier::external_body]
fn string_from_utf8(bytes: Vec<u8>) -> (text: Result<String, FromUtf8Error>)
    ensures
        match text {
            Ok(string) => valid_utf8(bytes@) && encode_utf8(string@) == bytes@,
            Err(_) => !valid_utf8(bytes@),
        },
{
    String::from_utf8(bytes)
}

/// The bytes before the item name: the parties, the amount, the length.
pub const HEADER: usize = 76;

/// The bytes after the item name: the settlement flag and the bump.
pub const TRAILER: usize = 2;

/// The byte that stores a flag.
pub open spec fn flag_byte(flag: bool) -> u8 {
    if flag {
        1
    } else {
        0
    }
}

/// Whether a record can be stored: its parties are identities, its amount
/// fits in sixty-four bits, and its name is within the bound.
pub open spec fn storable(record: EscrowView) -> bool {
    &&& record.buyer.len() == 32
    &&& record.seller.len() == 32
    &&& record.amount <= u64::MAX
    &&& name_length(record.item_name) <= MAX_ITEM_NAME
}

/// The stored form of a record.
pub open spec fn layout(record: EscrowView) -> Seq<u8> {
    record.buyer + record.seller + spec_u64_to_le_bytes(record.amount as u64)
        + spec_u32_to_le_bytes(name_length(record.item_name) as u32) + encode_utf8(
        record.item_name,
    ) + seq![flag_byte(record.is_completed), record.bump]
}

/// The length that the bytes give for the item name.
pub open spec fn stored_name_length(bytes: Seq<u8>) -> int {
    spec_u32_from_le_bytes(bytes.subrange(72, 76)) as int
}

/// The record that the bytes begin with, or `None` where they begin with
/// none: where they are too few, the name is longer than the bound or is not
/// UTF-8, or the flag is neither zero nor one. Bytes after the record are
/// not read.
pub open spec fn parsed(bytes: Seq<u8>) -> Option<EscrowView> {
    if bytes.len() < HEADER {
        None
    } else {
        let length = stored_name_length(bytes);
        if length > MAX_ITEM_NAME || bytes.len() < HEADER + length + TRAILER {
            None
        } else if !valid_utf8(bytes.subrange(76, 76 + length)) {
            None
        } else if bytes[76 + length] > 1 {
            None
        } else {
            Some(
                EscrowView {
                    buyer: bytes.subrange(0, 32),
                    seller: bytes.subrange(32, 64),
                    amount: spec_u64_from_le_bytes(bytes.subrange(64, 72)) as nat,
                    item_name: decode_utf8(bytes.subrange(76, 76 + length)),
                    is_completed: bytes[76 + length] == 1,
                    bump: bytes[77 + length],
                },
            )
        }
    }
}

/// The stored form of a record takes seventy-eight bytes and those of the
/// name.
pub proof fn layout_length(record: EscrowView)
    requires
        storable(record),
    ensures
        layout(record).len() == HEADER + name_length(record.item_name) + TRAILER,
{
    lemma_auto_spec_u64_to_from_le_bytes();
    lemma_auto_spec_u32_to_from_le_bytes();
}

/// What was stored is read back: the stored form of a record, whatever
/// follows it, parses as that record.
pub proof fn stored_record_is_read_back(record: EscrowView, rest: Seq<u8>)
    requires
        storable(record),
    ensures
        parsed(layout(record) + rest) == Some(record),
{
    lemma_auto_spec_u64_to_from_le_bytes();
    lemma_auto_spec_u32_to_from_le_bytes();
    let bytes = layout(record) + rest;
    let length = name_length(record.item_name) as int;
    let amount = spec_u64_to_le_bytes(record.amount as u64);
    let prefix = spec_u32_to_le_bytes(length as u32);
    let name = encode_utf8(record.item_name);
    assert(bytes.subrange(0, 32) =~= record.buyer);
    assert(bytes.subrange(32, 64) =~= record.seller);
    assert(bytes.subrange(64, 72) =~= amount);
    assert(bytes.subrange(72, 76) =~= prefix);
    assert(stored_name_length(bytes) == length);
    assert(bytes.subrange(76, 76 + length) =~= name);
    encode_utf8_valid_utf8(record.item_name);
    encode_utf8_decode_utf8(record.item_name);
    assert(bytes[76 + length] == flag_byte(record.is_completed));
    assert(bytes[77 + length] == record.bump);
}

/// What is read was stored: bytes that parse as a record begin with the
/// stored form of that record, and the record can be stored.
pub proof fn read_record_was_stored(bytes: Seq<u8>)
    requires
        parsed(bytes) is Some,
    ensures
        storable(parsed(bytes)->Some_0),
        layout(parsed(bytes)->Some_0) == bytes.subrange(
            0,
            HEADER + stored_name_length(bytes) + TRAILER,
        ),
{
    lemma_auto_spec_u64_to_from_le_bytes();
    lemma_auto_spec_u32_to_from_le_bytes();
    let record = parsed(bytes)->Some_0;
    let length = stored_name_length(bytes);
    let name = bytes.subrange(76, 76 + length);
    decode_utf8_encode_utf8(name);
    assert(name_length(record.item_name) == length);
    assert(spec_u64_to_le_bytes(record.amount as u64) == bytes.subrange(64, 72));
    assert(spec_u32_to_le_bytes(length as u32) == bytes.subrange(72, 76));
    assert(layout(record) =~= bytes.subrange(0, 76 + length + 2));
}

/// The identity stored in thirty-two bytes from a place on.
fn identity_at(bytes: &[u8], at: usize) -> (id: Identity)
    requires
        at + 32 <= bytes@.len(),
    ensures
        id@ == bytes@.subrange(at as int, at + 32),
{
    let total = bytes.len();
    let mut held = [0u8; 32];
    let mut i: usize = 0;
    while i < 32
        invariant
            i <= 32,
            at + 32 <= total,
            total == bytes@.len(),
            forall|j: int| 0 <= j < i ==> held@[j] == bytes@[at + j],
        decreases 32 - i,
    {
        held[i] = bytes[at + i];
        i += 1;
    }
    assert(held@ =~= bytes@.subrange(at as int, at + 32));
    Identity { bytes: held }
}

impl Escrow {
    /// The stored form of the record.
    pub fn to_bytes(&self) -> (bytes: Vec<u8>)
        requires
            name_length(self.item_name@) <= MAX_ITEM_NAME,
        ensures
            bytes@ == layout(self@),
            bytes@.len() == HEADER + name_length(self.item_name@) + TRAILER,
    {
        let name = self.item_name.as_str().as_bytes();
        let length = u32_to_le_bytes(name.len() as u32);
        let amount = u64_to_le_bytes(self.amount);
        let mut bytes = self.buyer.to_vec();
        let mut seller = self.seller.to_vec();
        bytes.append(&mut seller);
        let ghost parties = bytes@;
        assert(parties =~= self.buyer@ + self.seller@);
        bytes.extend_from_slice(amount.as_slice());
        let ghost with_amount = bytes@;
        assert(with_amount =~= parties + amount@);
        bytes.extend_from_slice(length.as_slice());
        let ghost with_length = bytes@;
        assert(with_length =~= with_amount + length@);
        bytes.extend_from_slice(name);
        let ghost with_name = bytes@;
        assert(with_name =~= with_length + name@);
        bytes.push(if self.is_completed { 1 } else { 0 });
        bytes.push(self.bump);
        proof {
            assert(bytes@ =~= with_name + seq![flag_byte(self.is_completed), self.bump]);
            layout_length(self@);
        }
        bytes
    }

    /// Reads the record that the bytes begin with. `None` where they begin
    /// with none.
    pub fn from_bytes(bytes: &[u8]) -> (record: Option<Escrow>)
        ensures
            parsed(bytes@) == match record {
                Some(read) => Some(read@),
                None => None,
            },
    {
        if bytes.len() < HEADER {
            return None;
        }
        let length = u32_from_le_bytes(slice_subrange(bytes, 72, 76)) as usize;
        if length > MAX_ITEM_NAME || bytes.len() < HEADER + length + TRAILER {
            return None;
        }
        let name = match string_from_utf8(slice_to_vec(slice_subrange(bytes, 76, 76 + length))) {
            Ok(text) => text,
            Err(_) => {
                return None;
            },
        };
        proof {
            encode_utf8_decode_utf8(name@);
        }
        let flag = bytes[76 + length];
        if flag > 1 {
            return None;
        }
        Some(
            Escrow {
                buyer: identity_at(bytes, 0),
                seller: identity_at(bytes, 32),
                amount: u64_from_le_bytes(slice_subrange(bytes, 64, 72)),
                item_name: name,
                is_completed: flag == 1,
                bump: bytes[77 + length],
            },
        )
    }
}

} // verus!
