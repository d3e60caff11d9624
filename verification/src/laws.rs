//! The laws the sale vault obeys, each proved against the operation
//! outcomes stated in `processor` and the codec stated in `state`.

use vstd::prelude::*;

use crate::error::SaleError;
use crate::external::{mint_decimals_of, sale_authority_of, token_amount_of};
use crate::processor::{
    spec_buy_tokens, spec_end_token_sale, spec_init_sale, spec_update_price,
};
use crate::state::spec_decode_record;

verus! {

/// Initialize rejects a zero price as an invalid argument whatever the
/// other inputs are, and describes no effect in that case.
pub proof fn lemma_init_rejects_zero_price(
    authority_is_signer: bool,
    authority_key: Seq<u8>,
    till_key: Seq<u8>,
    shelf_key: Seq<u8>,
    record_data: Seq<u8>,
    storage_exempt: bool,
    program_id: Seq<u8>,
)
    ensures
        spec_init_sale(
            0,
            authority_is_signer,
            authority_key,
            till_key,
            shelf_key,
            record_data,
            storage_exempt,
            program_id,
        ) == Err::<crate::accounts::InitSaleEffectsModel, SaleError>(SaleError::InvalidArgument),
{
}

/// Initialize never re-initializes: on a record whose flag already reads
/// true it fails as already initialized, however the remaining inputs look,
/// once the earlier checks (price, signature, exemption) pass.
pub proof fn lemma_init_rejects_initialized(
    new_price_per_token: u64,
    authority_key: Seq<u8>,
    till_key: Seq<u8>,
    shelf_key: Seq<u8>,
    record_data: Seq<u8>,
    program_id: Seq<u8>,
)
    requires
        new_price_per_token != 0,
        spec_decode_record(record_data) matches Some(d) && d.is_initialized,
    ensures
        spec_init_sale(
            new_price_per_token,
            true,
            authority_key,
            till_key,
            shelf_key,
            record_data,
            true,
            program_id,
        ) == Err::<crate::accounts::InitSaleEffectsModel, SaleError>(SaleError::AlreadyInitialized),
{
}

/// Reprice, Purchase and Terminate all require an initialized record: on a
/// record whose flag reads false, each fails as uninitialized once its
/// earlier checks pass.
pub proof fn lemma_ops_require_initialized(
    new_price_per_token: u64,
    buyer_key: Seq<u8>,
    record_data: Seq<u8>,
    record_lamports: u64,
    inventory_key: Seq<u8>,
    inventory_lamports: u64,
    till_key: Seq<u8>,
    shelf_key: Seq<u8>,
    shelf_data: Seq<u8>,
    buyer_token_key: Seq<u8>,
    mint_key: Seq<u8>,
    mint_data: Seq<u8>,
    inventory_token_key: Seq<u8>,
    program_id: Seq<u8>,
    sold_tokens: u64,
    bonus_tokens: u64,
)
    requires
        new_price_per_token != 0,
        spec_decode_record(record_data) matches Some(d) && !d.is_initialized,
    ensures
        spec_update_price(new_price_per_token, true, record_data) == Err::<Seq<u8>, SaleError>(
            SaleError::UninitializedState,
        ),
        spec_buy_tokens(
            true,
            buyer_key,
            record_data,
            till_key,
            shelf_key,
            buyer_token_key,
            mint_key,
            mint_data,
            program_id,
            sold_tokens,
            bonus_tokens,
        ) == Err::<crate::accounts::BuyTokensEffectsModel, SaleError>(
            SaleError::UninitializedState,
        ),
        spec_end_token_sale(
            record_data,
            record_lamports,
            inventory_key,
            inventory_lamports,
            shelf_key,
            shelf_data,
            mint_key,
            mint_data,
            inventory_token_key,
            program_id,
        ) == Err::<crate::accounts::EndTokenSaleEffectsModel, SaleError>(
            SaleError::UninitializedState,
        ),
{
}

/// Purchase binds the supplied till and shelf to the record: if either
/// differs from the stored field, the purchase fails as an account
/// mismatch and describes no transfer at all.
pub proof fn lemma_buy_requires_bound_accounts(
    buyer_key: Seq<u8>,
    record_data: Seq<u8>,
    till_key: Seq<u8>,
    shelf_key: Seq<u8>,
    buyer_token_key: Seq<u8>,
    mint_key: Seq<u8>,
    mint_data: Seq<u8>,
    program_id: Seq<u8>,
    sold_tokens: u64,
    bonus_tokens: u64,
)
    requires
        spec_decode_record(record_data) matches Some(d) && d.is_initialized,
        till_key != spec_decode_record(record_data)->Some_0.till_pubkey || shelf_key
            != spec_decode_record(record_data)->Some_0.shelf_pubkey,
    ensures
        spec_buy_tokens(
            true,
            buyer_key,
            record_data,
            till_key,
            shelf_key,
            buyer_token_key,
            mint_key,
            mint_data,
            program_id,
            sold_tokens,
            bonus_tokens,
        ) == Err::<crate::accounts::BuyTokensEffectsModel, SaleError>(SaleError::AccountMismatch),
{
}

/// A successful purchase of any tier charges exactly
/// `sold_tokens * price_per_unit` from the buyer to the stored till, and
/// releases exactly `sold_tokens + bonus_tokens` goods units from the
/// stored shelf to the buyer's receiving account, under the mint's declared
/// decimals and the delegated authority. Bonus units are never charged.
pub proof fn lemma_buy_charges_exactly(
    buyer_is_signer: bool,
    buyer_key: Seq<u8>,
    record_data: Seq<u8>,
    till_key: Seq<u8>,
    shelf_key: Seq<u8>,
    buyer_token_key: Seq<u8>,
    mint_key: Seq<u8>,
    mint_data: Seq<u8>,
    program_id: Seq<u8>,
    sold_tokens: u64,
    bonus_tokens: u64,
)
    requires
        spec_buy_tokens(
            buyer_is_signer,
            buyer_key,
            record_data,
            till_key,
            shelf_key,
            buyer_token_key,
            mint_key,
            mint_data,
            program_id,
            sold_tokens,
            bonus_tokens,
        ) is Ok,
    ensures
        ({
            let e = spec_buy_tokens(
                buyer_is_signer,
                buyer_key,
                record_data,
                till_key,
                shelf_key,
                buyer_token_key,
                mint_key,
                mint_data,
                program_id,
                sold_tokens,
                bonus_tokens,
            )->Ok_0;
            let d = spec_decode_record(record_data)->Some_0;
            &&& e.payment.lamports == sold_tokens * d.current_price_per_token
            &&& e.payment.from == buyer_key
            &&& e.payment.to == till_key && till_key == d.till_pubkey
            &&& e.goods.amount == sold_tokens + bonus_tokens
            &&& e.goods.source == shelf_key && shelf_key == d.shelf_pubkey
            &&& e.goods.destination == buyer_token_key
            &&& e.goods.decimals == mint_decimals_of(mint_data)->Some_0
            &&& e.goods.authority == sale_authority_of(program_id)->Some_0.0
        }),
{
}

/// A successful termination zeroes every byte of the record storage,
/// leaves the storage balance at zero, moves exactly that balance onto the
/// inventory recipient, and returns the shelf's whole recorded token
/// balance to the inventory's receiving account. Together with
/// `state::lemma_zeroed_storage_never_active`, the zeroed storage can
/// never again read back as an active record.
pub proof fn lemma_end_zeroes_and_reclaims(
    record_data: Seq<u8>,
    record_lamports: u64,
    inventory_key: Seq<u8>,
    inventory_lamports: u64,
    shelf_key: Seq<u8>,
    shelf_data: Seq<u8>,
    mint_key: Seq<u8>,
    mint_data: Seq<u8>,
    inventory_token_key: Seq<u8>,
    program_id: Seq<u8>,
)
    requires
        spec_end_token_sale(
            record_data,
            record_lamports,
            inventory_key,
            inventory_lamports,
            shelf_key,
            shelf_data,
            mint_key,
            mint_data,
            inventory_token_key,
            program_id,
        ) is Ok,
    ensures
        ({
            let e = spec_end_token_sale(
                record_data,
                record_lamports,
                inventory_key,
                inventory_lamports,
                shelf_key,
                shelf_data,
                mint_key,
                mint_data,
                inventory_token_key,
                program_id,
            )->Ok_0;
            &&& e.record_data.len() == record_data.len()
            &&& forall|i: int| 0 <= i < e.record_data.len() ==> e.record_data[i] == 0u8
            &&& e.record_lamports == 0
            &&& e.inventory_lamports == inventory_lamports + record_lamports
            &&& e.goods.amount == token_amount_of(shelf_data)->Some_0
            &&& e.goods.source == shelf_key
            &&& e.goods.destination == inventory_token_key
        }),
{
}

} // verus!
