//! The persisted sale record and its fixed-width binary codec.
//!
//! The record occupies exactly 105 bytes: a 1-byte initialization flag
//! (`0x00` or `0x01`; anything else is corrupt), a little-endian unsigned
//! 64-bit price, and three 32-byte identifiers (inventory authority, shelf,
//! till), in that order.

use vstd::prelude::*;
use vstd::bytes::*;

use crate::error::SaleError;

verus! {

/// Size in bytes of the persisted sale record: 1 + 8 + 32 + 32 + 32.
pub const RECORD_LEN: usize = 105;

/// The sale record as persisted in the program's storage slot.
#[derive(Debug)]
pub struct Batch0SaleProgramData {
    /// Becomes true exactly once, when the sale is initialized; every
    /// mutating and purchasing operation requires it.
    pub is_initialized: bool,
    /// Strictly positive while the sale is active.
    pub current_price_per_token: u64,
    /// Principal allowed to initialize and terminate the sale.
    pub inventory_pubkey: [u8; 32],
    /// Account holding the sellable inventory.
    pub shelf_pubkey: [u8; 32],
    /// Account receiving payment proceeds.
    pub till_pubkey: [u8; 32],
}

/// Mathematical model of a sale record: the identifiers as byte sequences.
#[verifier::ext_equal]
pub ghost struct RecordModel {
    pub is_initialized: bool,
    pub current_price_per_token: u64,
    pub inventory_pubkey: Seq<u8>,
    pub shelf_pubkey: Seq<u8>,
    pub till_pubkey: Seq<u8>,
}

impl RecordModel {
    /// Each identifier is exactly 32 bytes.
    pub open spec fn wf(self) -> bool {
        &&& self.inventory_pubkey.len() == 32
        &&& self.shelf_pubkey.len() == 32
        &&& self.till_pubkey.len() == 32
    }
}

impl View for Batch0SaleProgramData {
    type V = RecordModel;

    open spec fn view(&self) -> RecordModel {
        RecordModel {
            is_initialized: self.is_initialized,
            current_price_per_token: self.current_price_per_token,
            inventory_pubkey: self.inventory_pubkey@,
            shelf_pubkey: self.shelf_pubkey@,
            till_pubkey: self.till_pubkey@,
        }
    }
}

/// The 105-byte encoding of a record: flag byte, little-endian price, then
/// the three identifiers verbatim.
pub open spec fn spec_encode_record(v: RecordModel) -> Seq<u8> {
    seq![if v.is_initialized { 1u8 } else { 0u8 }] + spec_u64_to_le_bytes(v.current_price_per_token)
        + v.inventory_pubkey + v.shelf_pubkey + v.till_pubkey
}

/// Decoding of a persisted buffer. Fails (`None`) unless the buffer is
/// exactly 105 bytes long and its first byte is `0x00` or `0x01`.
pub open spec fn spec_decode_record(b: Seq<u8>) -> Option<RecordModel> {
    if b.len() != 105 {
        None
    } else if b[0] != 0u8 && b[0] != 1u8 {
        None
    } else {
        Some(RecordModel {
            is_initialized: b[0] == 1u8,
            current_price_per_token: spec_u64_from_le_bytes(b.subrange(1, 9)),
            inventory_pubkey: b.subrange(9, 41),
            shelf_pubkey: b.subrange(41, 73),
            till_pubkey: b.subrange(73, 105),
        })
    }
}

/// Copies 32 bytes out of `src` starting at `start`.
fn copy_key(src: &[u8], start: usize) -> (k: [u8; 32])
    requires
        start + 32 <= src@.len(),
    ensures
        k@ == src@.subrange(start as int, start + 32),
{
    let n = src.len();
    let mut k: [u8; 32] = [0u8; 32];
    let mut i: usize = 0;
    while i < 32
        invariant
            0 <= i <= 32,
            start + 32 <= n == src@.len(),
            k@.len() == 32,
            forall|j: int| 0 <= j < i ==> k@[j] == src@[start + j],
        decreases 32 - i,
    {
        k[i] = *vstd::slice::slice_index_get(src, start + i);
        i = i + 1;
    }
    assert(k@ =~= src@.subrange(start as int, start + 32));
    k
}

impl Batch0SaleProgramData {
    /// Populates every field of the record in place.
    pub fn init(
        &mut self,
        is_initialized: bool,
        current_price_per_token: u64,
        inventory_pubkey: [u8; 32],
        shelf_pubkey: [u8; 32],
        till_pubkey: [u8; 32],
    )
        ensures
            final(self)@ == (RecordModel {
                is_initialized,
                current_price_per_token,
                inventory_pubkey: inventory_pubkey@,
                shelf_pubkey: shelf_pubkey@,
                till_pubkey: till_pubkey@,
            }),
    {
        self.is_initialized = is_initialized;
        self.current_price_per_token = current_price_per_token;
        self.inventory_pubkey = inventory_pubkey;
        self.shelf_pubkey = shelf_pubkey;
        self.till_pubkey = till_pubkey;
    }

    /// Whether the record has been initialized.
    pub fn is_initialized(&self) -> (r: bool)
        ensures
            r == self@.is_initialized,
    {
        self.is_initialized
    }

    /// Decodes a persisted buffer, rejecting any buffer that is not exactly
    /// 105 bytes or whose flag byte is neither `0x00` nor `0x01`.
    pub fn unpack_from_slice(src: &[u8]) -> (r: Result<Batch0SaleProgramData, SaleError>)
        ensures
            match r {
                Ok(d) => spec_decode_record(src@) == Some(d@),
                Err(e) => spec_decode_record(src@) is None && e == SaleError::InvalidData,
            },
    {
        if src.len() != RECORD_LEN {
            return Err(SaleError::InvalidData);
        }
        let flag = *vstd::slice::slice_index_get(src, 0);
        let is_initialized = if flag == 0 {
            false
        } else if flag == 1 {
            true
        } else {
            return Err(SaleError::InvalidData);
        };
        let current_price_per_token = u64_from_le_bytes(vstd::slice::slice_subrange(src, 1, 9));
        let d = Batch0SaleProgramData {
            is_initialized,
            current_price_per_token,
            inventory_pubkey: copy_key(src, 9),
            shelf_pubkey: copy_key(src, 41),
            till_pubkey: copy_key(src, 73),
        };
        Ok(d)
    }

    /// Encodes the record over a 105-byte buffer; the exact inverse of
    /// `unpack_from_slice`.
    pub fn pack_into_slice(&self, dst: &mut Vec<u8>)
        requires
            old(dst)@.len() == 105,
        ensures
            final(dst)@ == spec_encode_record(self@),
            final(dst)@.len() == 105,
    {
        let mut out: Vec<u8> = Vec::new();
        out.push(if self.is_initialized { 1 } else { 0 });
        let price_bytes = u64_to_le_bytes(self.current_price_per_token);
        out.extend_from_slice(price_bytes.as_slice());
        out.extend_from_slice(self.inventory_pubkey.as_slice());
        out.extend_from_slice(self.shelf_pubkey.as_slice());
        out.extend_from_slice(self.till_pubkey.as_slice());
        proof {
            lemma_auto_spec_u64_to_from_le_bytes();
            assert(out@ =~= spec_encode_record(self@));
        }
        *dst = out;
    }
}

/// Round-trip law, one direction: re-encoding any successfully decoded
/// 105-byte buffer reproduces the original bytes bit for bit.
pub proof fn lemma_encode_of_decode(b: Seq<u8>)
    requires
        spec_decode_record(b) is Some,
    ensures
        spec_encode_record(spec_decode_record(b)->Some_0) == b,
{
    lemma_auto_spec_u64_to_from_le_bytes();
    let v = spec_decode_record(b)->Some_0;
    assert(spec_u64_to_le_bytes(spec_u64_from_le_bytes(b.subrange(1, 9))) == b.subrange(1, 9));
    assert(spec_encode_record(v) =~= b);
}

/// Round-trip law, other direction: decoding the encoding of any
/// well-formed record yields that record again.
pub proof fn lemma_decode_of_encode(v: RecordModel)
    requires
        v.wf(),
    ensures
        spec_decode_record(spec_encode_record(v)) == Some(v),
{
    lemma_auto_spec_u64_to_from_le_bytes();
    let b = spec_encode_record(v);
    assert(b.len() == 105);
    assert(b[0] == if v.is_initialized { 1u8 } else { 0u8 });
    assert(b.subrange(1, 9) =~= spec_u64_to_le_bytes(v.current_price_per_token));
    assert(b.subrange(9, 41) =~= v.inventory_pubkey);
    assert(b.subrange(41, 73) =~= v.shelf_pubkey);
    assert(b.subrange(73, 105) =~= v.till_pubkey);
    assert(spec_decode_record(b)->Some_0 =~= v);
}

/// A zeroed (or reclaimed) storage slot never reads back as an active
/// record: a buffer of the wrong length does not decode at all, and an
/// all-zero 105-byte buffer decodes with the initialization flag off, so
/// every subsequent operation is rejected as uninitialized.
pub proof fn lemma_zeroed_storage_never_active(b: Seq<u8>)
    requires
        forall|i: int| 0 <= i < b.len() ==> b[i] == 0u8,
    ensures
        b.len() != 105 ==> spec_decode_record(b) is None,
        spec_decode_record(b) matches Some(v) ==> !v.is_initialized,
{
}

} // verus!
