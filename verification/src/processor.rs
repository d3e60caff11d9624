//! The instruction router and the four sale procedures.
//!
//! Each procedure validates its account references and the persisted record
//! and, on success, describes the writes and transfers the host must carry
//! out; on failure it describes nothing, so a rejected operation has no
//! effect. The spec functions beside each procedure state the whole
//! outcome: which error is returned on which inputs, and what a successful
//! outcome contains.

use vstd::prelude::*;

use crate::accounts::{
    AccountRef, BuyTokensEffects, BuyTokensEffectsModel, EndTokenSaleEffects,
    EndTokenSaleEffectsModel, InitSaleEffects, InitSaleEffectsModel, LamportTransfer,
    LamportTransferModel, SaleEffects, TokenTransfer, TokenTransferModel, UpdatePriceEffects,
    keys_equal,
};
use crate::error::SaleError;
use crate::external::{
    derive_sale_authority, mint_decimals_of, read_mint_decimals, read_token_amount,
    sale_authority_of, token_amount_of,
};
use crate::instruction::{spec_unpack_instruction, Batch0SaleInstruction};
use crate::state::{spec_decode_record, spec_encode_record, Batch0SaleProgramData, RecordModel,
    RECORD_LEN};

verus! {

/// Builds a zeroed byte buffer of the given length.
fn zero_bytes(n: usize) -> (v: Vec<u8>)
    ensures
        v@ == Seq::new(n as nat, |i: int| 0u8),
{
    let mut v: Vec<u8> = Vec::new();
    let mut i: usize = 0;
    while i < n
        invariant
            i <= n,
            v@.len() == i,
            forall|j: int| 0 <= j < i ==> v@[j] == 0u8,
        decreases n - i,
    {
        v.push(0);
        i = i + 1;
    }
    proof {
        assert(v@ =~= Seq::new(n as nat, |i: int| 0u8));
    }
    v
}

/// The outcome Initialize owes on every input: the checks in order (zero
/// price, authority signature, storage-cost exemption, record decoding,
/// initialize-once, authority derivation), then the populated record bytes
/// and the shelf's authority reassignment.
pub open spec fn spec_init_sale(
    new_price_per_token: u64,
    authority_is_signer: bool,
    authority_key: Seq<u8>,
    till_key: Seq<u8>,
    shelf_key: Seq<u8>,
    record_data: Seq<u8>,
    storage_exempt: bool,
    program_id: Seq<u8>,
) -> Result<InitSaleEffectsModel, SaleError> {
    if new_price_per_token == 0 {
        Err(SaleError::InvalidArgument)
    } else if !authority_is_signer {
        Err(SaleError::MissingSignature)
    } else if !storage_exempt {
        Err(SaleError::StorageNotExempt)
    } else {
        match spec_decode_record(record_data) {
            None => Err(SaleError::InvalidData),
            Some(d) => if d.is_initialized {
                Err(SaleError::AlreadyInitialized)
            } else {
                match sale_authority_of(program_id) {
                    None => Err(SaleError::InvalidArgument),
                    Some(authority) => Ok(
                        InitSaleEffectsModel {
                            record_data: spec_encode_record(
                                RecordModel {
                                    is_initialized: true,
                                    current_price_per_token: new_price_per_token,
                                    inventory_pubkey: authority_key,
                                    shelf_pubkey: shelf_key,
                                    till_pubkey: till_key,
                                },
                            ),
                            shelf: shelf_key,
                            new_shelf_authority: authority.0,
                        },
                    ),
                }
            },
        }
    }
}

/// The outcome Reprice owes on every input: the checks in order (zero
/// price, authority signature, record decoding, initialized check), then the
/// record bytes with only the price overwritten.
pub open spec fn spec_update_price(
    new_price_per_token: u64,
    authority_is_signer: bool,
    record_data: Seq<u8>,
) -> Result<Seq<u8>, SaleError> {
    if new_price_per_token == 0 {
        Err(SaleError::InvalidArgument)
    } else if !authority_is_signer {
        Err(SaleError::MissingSignature)
    } else {
        match spec_decode_record(record_data) {
            None => Err(SaleError::InvalidData),
            Some(d) => if !d.is_initialized {
                Err(SaleError::UninitializedState)
            } else {
                Ok(
                    spec_encode_record(
                        RecordModel { current_price_per_token: new_price_per_token, ..d },
                    ),
                )
            },
        }
    }
}

/// The outcome Purchase owes on every input: the checks in order (buyer
/// signature, record decoding, initialized check, till binding, shelf
/// binding, payment overflow, mint decoding, authority derivation, goods
/// overflow), then the payment transfer of exactly
/// `sold_tokens * price_per_unit` and the goods transfer of exactly
/// `sold_tokens + bonus_tokens` under the mint's declared decimals.
pub open spec fn spec_buy_tokens(
    buyer_is_signer: bool,
    buyer_key: Seq<u8>,
    record_data: Seq<u8>,
    till_key: Seq<u8>,
    shelf_key: Seq<u8>,
    buyer_token_key: Seq<u8>,
    mint_key: Seq<u8>,
    mint_data: Seq<u8>,
    program_id: Seq<u8>,
    sold_tokens: u64,
    bonus_tokens: u64,
) -> Result<BuyTokensEffectsModel, SaleError> {
    if !buyer_is_signer {
        Err(SaleError::MissingSignature)
    } else {
        match spec_decode_record(record_data) {
            None => Err(SaleError::InvalidData),
            Some(d) => if !d.is_initialized {
                Err(SaleError::UninitializedState)
            } else if till_key != d.till_pubkey {
                Err(SaleError::AccountMismatch)
            } else if shelf_key != d.shelf_pubkey {
                Err(SaleError::AccountMismatch)
            } else if sold_tokens * d.current_price_per_token > u64::MAX {
                Err(SaleError::ArithmeticOverflow)
            } else {
                match mint_decimals_of(mint_data) {
                    None => Err(SaleError::InvalidData),
                    Some(decimals) => match sale_authority_of(program_id) {
                        None => Err(SaleError::InvalidArgument),
                        Some(authority) => if sold_tokens + bonus_tokens > u64::MAX {
                            Err(SaleError::ArithmeticOverflow)
                        } else {
                            Ok(
                                BuyTokensEffectsModel {
                                    payment: LamportTransferModel {
                                        from: buyer_key,
                                        to: till_key,
                                        lamports: (sold_tokens * d.current_price_per_token) as u64,
                                    },
                                    goods: TokenTransferModel {
                                        source: shelf_key,
                                        mint: mint_key,
                                        destination: buyer_token_key,
                                        authority: authority.0,
                                        bump_seed: authority.1,
                                        amount: (sold_tokens + bonus_tokens) as u64,
                                        decimals,
                                    },
                                },
                            )
                        },
                    },
                }
            },
        }
    }
}

/// The outcome Terminate owes on every input: the checks in order (record
/// decoding, initialized check, inventory binding, shelf binding, authority
/// derivation, shelf decoding, mint decoding, balance reclamation
/// overflow), then the return of the shelf's whole balance, the reclaimed
/// storage balance, and the zeroed record storage.
pub open spec fn spec_end_token_sale(
    record_data: Seq<u8>,
    record_lamports: u64,
    inventory_key: Seq<u8>,
    inventory_lamports: u64,
    shelf_key: Seq<u8>,
    shelf_data: Seq<u8>,
    mint_key: Seq<u8>,
    mint_data: Seq<u8>,
    inventory_token_key: Seq<u8>,
    program_id: Seq<u8>,
) -> Result<EndTokenSaleEffectsModel, SaleError> {
    match spec_decode_record(record_data) {
        None => Err(SaleError::InvalidData),
        Some(d) => if !d.is_initialized {
            Err(SaleError::UninitializedState)
        } else if inventory_key != d.inventory_pubkey {
            Err(SaleError::AccountMismatch)
        } else if shelf_key != d.shelf_pubkey {
            Err(SaleError::AccountMismatch)
        } else {
            match sale_authority_of(program_id) {
                None => Err(SaleError::InvalidArgument),
                Some(authority) => match token_amount_of(shelf_data) {
                    None => Err(SaleError::InvalidData),
                    Some(amount) => match mint_decimals_of(mint_data) {
                        None => Err(SaleError::InvalidData),
                        Some(decimals) => if inventory_lamports + record_lamports > u64::MAX {
                            Err(SaleError::InsufficientFunds)
                        } else {
                            Ok(
                                EndTokenSaleEffectsModel {
                                    goods: TokenTransferModel {
                                        source: shelf_key,
                                        mint: mint_key,
                                        destination: inventory_token_key,
                                        authority: authority.0,
                                        bump_seed: authority.1,
                                        amount,
                                        decimals,
                                    },
                                    inventory_lamports: (inventory_lamports
                                        + record_lamports) as u64,
                                    record_lamports: 0,
                                    record_data: Seq::new(record_data.len(), |i: int| 0u8),
                                },
                            )
                        },
                    },
                },
            }
        },
    }
}

/// The units sold and the bonus units of each purchase tier; `None` for the
/// non-purchase instructions.
pub open spec fn spec_tier_amounts(ins: Batch0SaleInstruction) -> Option<(u64, u64)> {
    match ins {
        Batch0SaleInstruction::BuyShot {} => Some((1000u64, 0u64)),
        Batch0SaleInstruction::BuyDouble {} => Some((2000u64, 100u64)),
        Batch0SaleInstruction::BuyFlask {} => Some((5000u64, 500u64)),
        Batch0SaleInstruction::BuyFifth {} => Some((25000u64, 5000u64)),
        Batch0SaleInstruction::BuyCase {} => Some((300000u64, 70000u64)),
        Batch0SaleInstruction::BuyBarrel {} => Some((1500000u64, 375000u64)),
        _ => None,
    }
}

/// The instruction router and the four sale procedures.
pub struct Processor;

impl Processor {
    /// The units sold and the bonus units of each purchase tier.
    pub fn tier_amounts(ins: &Batch0SaleInstruction) -> (r: Option<(u64, u64)>)
        ensures
            r == spec_tier_amounts(*ins),
    {
        match ins {
            Batch0SaleInstruction::BuyShot {} => Some((1000, 0)),
            Batch0SaleInstruction::BuyDouble {} => Some((2000, 100)),
            Batch0SaleInstruction::BuyFlask {} => Some((5000, 500)),
            Batch0SaleInstruction::BuyFifth {} => Some((25000, 5000)),
            Batch0SaleInstruction::BuyCase {} => Some((300000, 70000)),
            Batch0SaleInstruction::BuyBarrel {} => Some((1500000, 375000)),
            _ => None,
        }
    }

    /// Initialize: populate the blank record once and hand the shelf to the
    /// delegated authority.
    pub fn init_sale(
        inventory_authority: &AccountRef,
        till: &AccountRef,
        shelf: &AccountRef,
        record: &AccountRef,
        new_price_per_token: u64,
        batch0_sale_program_id: &[u8; 32],
        storage_exempt: bool,
    ) -> (r: Result<InitSaleEffects, SaleError>)
        ensures
            (match r {
                Ok(e) => spec_init_sale(
                    new_price_per_token,
                    inventory_authority.is_signer,
                    inventory_authority.key@,
                    till.key@,
                    shelf.key@,
                    record.data@,
                    storage_exempt,
                    batch0_sale_program_id@,
                ) == Ok::<InitSaleEffectsModel, SaleError>(e@),
                Err(err) => spec_init_sale(
                    new_price_per_token,
                    inventory_authority.is_signer,
                    inventory_authority.key@,
                    till.key@,
                    shelf.key@,
                    record.data@,
                    storage_exempt,
                    batch0_sale_program_id@,
                ) == Err::<InitSaleEffectsModel, SaleError>(err),
            }),
    {
        if new_price_per_token == 0 {
            return Err(SaleError::InvalidArgument);
        }
        if !inventory_authority.is_signer {
            return Err(SaleError::MissingSignature);
        }
        if !storage_exempt {
            return Err(SaleError::StorageNotExempt);
        }
        let mut program_data = match Batch0SaleProgramData::unpack_from_slice(
            record.data.as_slice(),
        ) {
            Ok(d) => d,
            Err(e) => {
                return Err(e);
            },
        };
        if program_data.is_initialized() {
            return Err(SaleError::AlreadyInitialized);
        }
        let derived = match derive_sale_authority(batch0_sale_program_id) {
            Some(p) => p,
            None => {
                return Err(SaleError::InvalidArgument);
            },
        };
        program_data.init(
            true,
            new_price_per_token,
            inventory_authority.key,
            shelf.key,
            till.key,
        );
        let mut record_data = zero_bytes(RECORD_LEN);
        program_data.pack_into_slice(&mut record_data);
        let effects = InitSaleEffects {
            record_data,
            shelf: shelf.key,
            new_shelf_authority: derived.0,
        };
        proof {
            assert(effects@ =~= spec_init_sale(
                new_price_per_token,
                inventory_authority.is_signer,
                inventory_authority.key@,
                till.key@,
                shelf.key@,
                record.data@,
                storage_exempt,
                batch0_sale_program_id@,
            )->Ok_0);
        }
        Ok(effects)
    }

    /// Reprice: overwrite the price of an initialized record.
    pub fn update_price(
        inventory_authority: &AccountRef,
        record: &AccountRef,
        new_price_per_token: u64,
    ) -> (r: Result<UpdatePriceEffects, SaleError>)
        ensures
            (match r {
                Ok(e) => spec_update_price(
                    new_price_per_token,
                    inventory_authority.is_signer,
                    record.data@,
                ) == Ok::<Seq<u8>, SaleError>(e.record_data@),
                Err(err) => spec_update_price(
                    new_price_per_token,
                    inventory_authority.is_signer,
                    record.data@,
                ) == Err::<Seq<u8>, SaleError>(err),
            }),
    {
        if new_price_per_token == 0 {
            return Err(SaleError::InvalidArgument);
        }
        if !inventory_authority.is_signer {
            return Err(SaleError::MissingSignature);
        }
        let mut program_data = match Batch0SaleProgramData::unpack_from_slice(
            record.data.as_slice(),
        ) {
            Ok(d) => d,
            Err(e) => {
                return Err(e);
            },
        };
        if !program_data.is_initialized() {
            return Err(SaleError::UninitializedState);
        }
        program_data.current_price_per_token = new_price_per_token;
        let mut record_data = zero_bytes(RECORD_LEN);
        program_data.pack_into_slice(&mut record_data);
        proof {
            assert(program_data@ =~= (RecordModel {
                current_price_per_token: new_price_per_token,
                ..spec_decode_record(record.data@)->Some_0
            }));
        }
        Ok(UpdatePriceEffects { record_data })
    }

    /// Purchase: charge the buyer and release the tier's goods from the
    /// shelf under the delegated authority.
    pub fn buy_tokens(
        buyer: &AccountRef,
        record: &AccountRef,
        till: &AccountRef,
        shelf: &AccountRef,
        buyer_token: &AccountRef,
        mint: &AccountRef,
        token_sale_program_id: &[u8; 32],
        sold_tokens: u64,
        bonus_tokens: u64,
    ) -> (r: Result<BuyTokensEffects, SaleError>)
        ensures
            (match r {
                Ok(e) => spec_buy_tokens(
                    buyer.is_signer,
                    buyer.key@,
                    record.data@,
                    till.key@,
                    shelf.key@,
                    buyer_token.key@,
                    mint.key@,
                    mint.data@,
                    token_sale_program_id@,
                    sold_tokens,
                    bonus_tokens,
                ) == Ok::<BuyTokensEffectsModel, SaleError>(e@),
                Err(err) => spec_buy_tokens(
                    buyer.is_signer,
                    buyer.key@,
                    record.data@,
                    till.key@,
                    shelf.key@,
                    buyer_token.key@,
                    mint.key@,
                    mint.data@,
                    token_sale_program_id@,
                    sold_tokens,
                    bonus_tokens,
                ) == Err::<BuyTokensEffectsModel, SaleError>(err),
            }),
    {
        if !buyer.is_signer {
            return Err(SaleError::MissingSignature);
        }
        let program_data = match Batch0SaleProgramData::unpack_from_slice(
            record.data.as_slice(),
        ) {
            Ok(d) => d,
            Err(e) => {
                return Err(e);
            },
        };
        if !program_data.is_initialized() {
            return Err(SaleError::UninitializedState);
        }
        if !keys_equal(&till.key, &program_data.till_pubkey) {
            return Err(SaleError::AccountMismatch);
        }
        if !keys_equal(&shelf.key, &program_data.shelf_pubkey) {
            return Err(SaleError::AccountMismatch);
        }
        let purchase_lamports = match sold_tokens.checked_mul(
            program_data.current_price_per_token,
        ) {
            Some(v) => v,
            None => {
                return Err(SaleError::ArithmeticOverflow);
            },
        };
        let decimals = match read_mint_decimals(mint.data.as_slice()) {
            Some(d) => d,
            None => {
                return Err(SaleError::InvalidData);
            },
        };
        let derived = match derive_sale_authority(token_sale_program_id) {
            Some(p) => p,
            None => {
                return Err(SaleError::InvalidArgument);
            },
        };
        let goods_amount = match sold_tokens.checked_add(bonus_tokens) {
            Some(v) => v,
            None => {
                return Err(SaleError::ArithmeticOverflow);
            },
        };
        let effects = BuyTokensEffects {
            payment: LamportTransfer {
                from: buyer.key,
                to: till.key,
                lamports: purchase_lamports,
            },
            goods: TokenTransfer {
                source: shelf.key,
                mint: mint.key,
                destination: buyer_token.key,
                authority: derived.0,
                bump_seed: derived.1,
                amount: goods_amount,
                decimals,
            },
        };
        proof {
            assert(effects@ =~= spec_buy_tokens(
                buyer.is_signer,
                buyer.key@,
                record.data@,
                till.key@,
                shelf.key@,
                buyer_token.key@,
                mint.key@,
                mint.data@,
                token_sale_program_id@,
                sold_tokens,
                bonus_tokens,
            )->Ok_0);
        }
        Ok(effects)
    }

    /// Terminate: return the shelf's whole balance, reclaim the storage
    /// balance, and zero the record storage.
    pub fn end_token_sale(
        record: &AccountRef,
        inventory_authority: &AccountRef,
        shelf: &AccountRef,
        mint: &AccountRef,
        inventory_token: &AccountRef,
        batch0_sale_program_id: &[u8; 32],
    ) -> (r: Result<EndTokenSaleEffects, SaleError>)
        ensures
            (match r {
                Ok(e) => spec_end_token_sale(
                    record.data@,
                    record.lamports,
                    inventory_authority.key@,
                    inventory_authority.lamports,
                    shelf.key@,
                    shelf.data@,
                    mint.key@,
                    mint.data@,
                    inventory_token.key@,
                    batch0_sale_program_id@,
                ) == Ok::<EndTokenSaleEffectsModel, SaleError>(e@),
                Err(err) => spec_end_token_sale(
                    record.data@,
                    record.lamports,
                    inventory_authority.key@,
                    inventory_authority.lamports,
                    shelf.key@,
                    shelf.data@,
                    mint.key@,
                    mint.data@,
                    inventory_token.key@,
                    batch0_sale_program_id@,
                ) == Err::<EndTokenSaleEffectsModel, SaleError>(err),
            }),
    {
        let program_data = match Batch0SaleProgramData::unpack_from_slice(
            record.data.as_slice(),
        ) {
            Ok(d) => d,
            Err(e) => {
                return Err(e);
            },
        };
        if !program_data.is_initialized() {
            return Err(SaleError::UninitializedState);
        }
        if !keys_equal(&inventory_authority.key, &program_data.inventory_pubkey) {
            return Err(SaleError::AccountMismatch);
        }
        if !keys_equal(&shelf.key, &program_data.shelf_pubkey) {
            return Err(SaleError::AccountMismatch);
        }
        let derived = match derive_sale_authority(batch0_sale_program_id) {
            Some(p) => p,
            None => {
                return Err(SaleError::InvalidArgument);
            },
        };
        let amount = match read_token_amount(shelf.data.as_slice()) {
            Some(a) => a,
            None => {
                return Err(SaleError::InvalidData);
            },
        };
        let decimals = match read_mint_decimals(mint.data.as_slice()) {
            Some(d) => d,
            None => {
                return Err(SaleError::InvalidData);
            },
        };
        let inventory_lamports = match inventory_authority.lamports.checked_add(
            record.lamports,
        ) {
            Some(v) => v,
            None => {
                return Err(SaleError::InsufficientFunds);
            },
        };
        let effects = EndTokenSaleEffects {
            goods: TokenTransfer {
                source: shelf.key,
                mint: mint.key,
                destination: inventory_token.key,
                authority: derived.0,
                bump_seed: derived.1,
                amount,
                decimals,
            },
            inventory_lamports,
            record_lamports: 0,
            record_data: zero_bytes(record.data.len()),
        };
        proof {
            assert(effects@ =~= spec_end_token_sale(
                record.data@,
                record.lamports,
                inventory_authority.key@,
                inventory_authority.lamports,
                shelf.key@,
                shelf.data@,
                mint.key@,
                mint.data@,
                inventory_token.key@,
                batch0_sale_program_id@,
            )->Ok_0);
        }
        Ok(effects)
    }
    /// Routes one decoded instruction against the host's positional account
    /// list. The positions are fixed per operation: Initialize
    /// [authority, till, shelf, record, rent sysvar, token service];
    /// Reprice [authority, record]; Purchase [buyer, record, till, shelf,
    /// native transfer service, buyer receiving account, token service,
    /// mint, delegated authority]; Terminate [record, inventory recipient,
    /// shelf, mint, inventory receiving account, token service, delegated
    /// authority]. `storage_exempt` is the external storage-cost rule's
    /// verdict on the record storage slot.
    pub fn process(
        batch0_sale_program_id: &[u8; 32],
        accounts: &Vec<AccountRef>,
        instruction_data: &[u8],
        storage_exempt: bool,
    ) -> (r: Result<SaleEffects, SaleError>)
        ensures
            spec_unpack_instruction(instruction_data@) is None ==> r == Err::<
                SaleEffects,
                SaleError,
            >(SaleError::InvalidInstruction),
            (spec_unpack_instruction(instruction_data@) matches Some(ins)
                ==> spec_process_result(
                ins,
                accounts@,
                batch0_sale_program_id@,
                storage_exempt,
                r,
            )),
    {
        let instruction = match Batch0SaleInstruction::unpack(instruction_data) {
            Ok(i) => i,
            Err(e) => {
                return Err(e);
            },
        };
        match instruction {
            Batch0SaleInstruction::InitSale { new_price_per_token } => {
                if accounts.len() < 6 {
                    return Err(SaleError::MissingAccount);
                }
                match Self::init_sale(
                    &accounts[0],
                    &accounts[1],
                    &accounts[2],
                    &accounts[3],
                    new_price_per_token,
                    batch0_sale_program_id,
                    storage_exempt,
                ) {
                    Ok(e) => Ok(SaleEffects::InitSale(e)),
                    Err(e) => Err(e),
                }
            },
            Batch0SaleInstruction::UpdatePrice { new_price_per_token } => {
                if accounts.len() < 2 {
                    return Err(SaleError::MissingAccount);
                }
                match Self::update_price(&accounts[0], &accounts[1], new_price_per_token) {
                    Ok(e) => Ok(SaleEffects::UpdatePrice(e)),
                    Err(e) => Err(e),
                }
            },
            Batch0SaleInstruction::EndTokenSale {} => {
                if accounts.len() < 7 {
                    return Err(SaleError::MissingAccount);
                }
                match Self::end_token_sale(
                    &accounts[0],
                    &accounts[1],
                    &accounts[2],
                    &accounts[3],
                    &accounts[4],
                    batch0_sale_program_id,
                ) {
                    Ok(e) => Ok(SaleEffects::EndTokenSale(e)),
                    Err(e) => Err(e),
                }
            },
            _ => {
                if accounts.len() < 9 {
                    return Err(SaleError::MissingAccount);
                }
                let (sold_tokens, bonus_tokens) = match Self::tier_amounts(&instruction) {
                    Some(t) => t,
                    None => {
                        return Err(SaleError::InvalidInstruction);
                    },
                };
                match Self::buy_tokens(
                    &accounts[0],
                    &accounts[1],
                    &accounts[2],
                    &accounts[3],
                    &accounts[5],
                    &accounts[7],
                    batch0_sale_program_id,
                    sold_tokens,
                    bonus_tokens,
                ) {
                    Ok(e) => Ok(SaleEffects::BuyTokens(e)),
                    Err(e) => Err(e),
                }
            },
        }
    }
}

/// What the router owes for one decoded instruction: too few accounts are
/// rejected, and otherwise the result is exactly the outcome the selected
/// procedure owes on the accounts at that operation's fixed positions.
pub open spec fn spec_process_result(
    ins: Batch0SaleInstruction,
    accounts: Seq<AccountRef>,
    program_id: Seq<u8>,
    storage_exempt: bool,
    r: Result<SaleEffects, SaleError>,
) -> bool {
    match ins {
        Batch0SaleInstruction::InitSale { new_price_per_token } => if accounts.len() < 6 {
            r == Err::<SaleEffects, SaleError>(SaleError::MissingAccount)
        } else {
            let outcome = spec_init_sale(
                new_price_per_token,
                accounts[0].is_signer,
                accounts[0].key@,
                accounts[1].key@,
                accounts[2].key@,
                accounts[3].data@,
                storage_exempt,
                program_id,
            );
            match r {
                Ok(SaleEffects::InitSale(e)) => outcome == Ok::<InitSaleEffectsModel, SaleError>(
                    e@,
                ),
                Err(err) => outcome == Err::<InitSaleEffectsModel, SaleError>(err),
                _ => false,
            }
        },
        Batch0SaleInstruction::UpdatePrice { new_price_per_token } => if accounts.len() < 2 {
            r == Err::<SaleEffects, SaleError>(SaleError::MissingAccount)
        } else {
            let outcome = spec_update_price(
                new_price_per_token,
                accounts[0].is_signer,
                accounts[1].data@,
            );
            match r {
                Ok(SaleEffects::UpdatePrice(e)) => outcome == Ok::<Seq<u8>, SaleError>(
                    e.record_data@,
                ),
                Err(err) => outcome == Err::<Seq<u8>, SaleError>(err),
                _ => false,
            }
        },
        Batch0SaleInstruction::EndTokenSale {} => if accounts.len() < 7 {
            r == Err::<SaleEffects, SaleError>(SaleError::MissingAccount)
        } else {
            let outcome = spec_end_token_sale(
                accounts[0].data@,
                accounts[0].lamports,
                accounts[1].key@,
                accounts[1].lamports,
                accounts[2].key@,
                accounts[2].data@,
                accounts[3].key@,
                accounts[3].data@,
                accounts[4].key@,
                program_id,
            );
            match r {
                Ok(SaleEffects::EndTokenSale(e)) => outcome == Ok::<
                    EndTokenSaleEffectsModel,
                    SaleError,
                >(e@),
                Err(err) => outcome == Err::<EndTokenSaleEffectsModel, SaleError>(err),
                _ => false,
            }
        },
        _ => if accounts.len() < 9 {
            r == Err::<SaleEffects, SaleError>(SaleError::MissingAccount)
        } else {
            let tier = spec_tier_amounts(ins)->Some_0;
            let outcome = spec_buy_tokens(
                accounts[0].is_signer,
                accounts[0].key@,
                accounts[1].data@,
                accounts[2].key@,
                accounts[3].key@,
                accounts[5].key@,
                accounts[7].key@,
                accounts[7].data@,
                program_id,
                tier.0,
                tier.1,
            );
            match r {
                Ok(SaleEffects::BuyTokens(e)) => outcome == Ok::<BuyTokensEffectsModel, SaleError>(
                    e@,
                ),
                Err(err) => outcome == Err::<BuyTokensEffectsModel, SaleError>(err),
                _ => false,
            }
        },
    }
}

} // verus!
