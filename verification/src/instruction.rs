//! The instruction set of the sale vault and its byte-stream decoder.
//!
//! An instruction is one tag byte followed by fixed-width arguments: tag 0
//! initializes with a little-endian 64-bit price, tag 1 reprices likewise,
//! tag 2 terminates, and tags 3 through 8 purchase one of the six fixed
//! tiers. Any other tag, or an undersized argument buffer, is rejected.

use vstd::prelude::*;
use vstd::bytes::*;

use crate::error::SaleError;

verus! {

/// A decoded instruction for the sale vault.
#[derive(Clone, Copy, Debug, PartialEq, Eq, Structural)]
pub enum Batch0SaleInstruction {
    InitSale { new_price_per_token: u64 },
    UpdatePrice { new_price_per_token: u64 },
    EndTokenSale {},
    BuyShot {},
    BuyDouble {},
    BuyFlask {},
    BuyFifth {},
    BuyCase {},
    BuyBarrel {},
}

/// What decoding an instruction byte stream yields: `None` exactly on a
/// malformed stream (empty, unknown tag, or undersized argument buffer).
pub open spec fn spec_unpack_instruction(input: Seq<u8>) -> Option<Batch0SaleInstruction> {
    if input.len() == 0 {
        None
    } else {
        let rest = input.skip(1);
        if input[0] == 0u8 || input[0] == 1u8 {
            if rest.len() >= 8 {
                let price = spec_u64_from_le_bytes(rest.subrange(0, 8));
                if input[0] == 0u8 {
                    Some(Batch0SaleInstruction::InitSale { new_price_per_token: price })
                } else {
                    Some(Batch0SaleInstruction::UpdatePrice { new_price_per_token: price })
                }
            } else {
                None
            }
        } else if input[0] == 2u8 {
            Some(Batch0SaleInstruction::EndTokenSale {})
        } else if input[0] == 3u8 {
            Some(Batch0SaleInstruction::BuyShot {})
        } else if input[0] == 4u8 {
            Some(Batch0SaleInstruction::BuyDouble {})
        } else if input[0] == 5u8 {
            Some(Batch0SaleInstruction::BuyFlask {})
        } else if input[0] == 6u8 {
            Some(Batch0SaleInstruction::BuyFifth {})
        } else if input[0] == 7u8 {
            Some(Batch0SaleInstruction::BuyCase {})
        } else if input[0] == 8u8 {
            Some(Batch0SaleInstruction::BuyBarrel {})
        } else {
            None
        }
    }
}

impl Batch0SaleInstruction {
    /// Decodes one instruction from its byte stream: the tag byte selects
    /// the operation, and tags 0 and 1 read a little-endian 64-bit price
    /// from the bytes that follow.
    pub fn unpack(input: &[u8]) -> (r: Result<Self, SaleError>)
        ensures
            match r {
                Ok(ins) => spec_unpack_instruction(input@) == Some(ins),
                Err(e) => spec_unpack_instruction(input@) is None && e
                    == SaleError::InvalidInstruction,
            },
    {
        if input.len() == 0 {
            return Err(SaleError::InvalidInstruction);
        }
        let tag = *vstd::slice::slice_index_get(input, 0);
        let rest = vstd::slice::slice_subrange(input, 1, input.len());
        proof {
            assert(rest@ =~= input@.skip(1));
        }
        match tag {
            0 => match Self::unpack_byte(rest, 0) {
                Ok(p) => Ok(Self::InitSale { new_price_per_token: p }),
                Err(e) => Err(e),
            },
            1 => match Self::unpack_byte(rest, 0) {
                Ok(p) => Ok(Self::UpdatePrice { new_price_per_token: p }),
                Err(e) => Err(e),
            },
            2 => Ok(Self::EndTokenSale {}),
            3 => Ok(Self::BuyShot {}),
            4 => Ok(Self::BuyDouble {}),
            5 => Ok(Self::BuyFlask {}),
            6 => Ok(Self::BuyFifth {}),
            7 => Ok(Self::BuyCase {}),
            8 => Ok(Self::BuyBarrel {}),
            _ => Err(SaleError::InvalidInstruction),
        }
    }

    /// Reads the 64-bit little-endian argument that sits at the given
    /// 8-byte position of an argument buffer; rejects a buffer too short to
    /// hold it.
    pub fn unpack_byte(input: &[u8], byte_index: usize) -> (r: Result<u64, SaleError>)
        ensures
            byte_index * 8 + 8 <= input@.len() ==> r == Ok::<u64, SaleError>(
                spec_u64_from_le_bytes(input@.subrange(byte_index * 8, byte_index * 8 + 8)),
            ),
            byte_index * 8 + 8 > input@.len() ==> r == Err::<u64, SaleError>(
                SaleError::InvalidInstruction,
            ),
    {
        let n = input.len();
        if byte_index >= n / 8 {
            proof {
                assert(byte_index * 8 + 8 > n) by (nonlinear_arith)
                    requires
                        byte_index >= n / 8,
                        n / 8 == (n - n % 8) / 8,
                        0 <= n % 8 < 8,
                ;
            }
            return Err(SaleError::InvalidInstruction);
        }
        proof {
            assert(byte_index * 8 + 8 <= n) by (nonlinear_arith)
                requires
                    byte_index < n / 8,
                    n / 8 == (n - n % 8) / 8,
                    0 <= n % 8 < 8,
            ;
        }
        let start_bit = byte_index * 8;
        let end_bit = start_bit + 8;
        let data = u64_from_le_bytes(vstd::slice::slice_subrange(input, start_bit, end_bit));
        Ok(data)
    }
}

} // verus!
