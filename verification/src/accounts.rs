//! Plain-value pictures of the host's account references, and the effect
//! descriptions the operations hand back. The host performs the described
//! transfers and writes; an operation that fails describes no effect at
//! all, so a rejected operation changes nothing.

use vstd::prelude::*;

verus! {

/// One referenced account as an operation sees it: its identifier, whether
/// it signed the current operation, its native balance, and its stored
/// bytes.
pub struct AccountRef {
    pub key: [u8; 32],
    pub is_signer: bool,
    pub lamports: u64,
    pub data: Vec<u8>,
}

/// Compares two 32-byte identifiers byte for byte.
pub fn keys_equal(a: &[u8; 32], b: &[u8; 32]) -> (r: bool)
    ensures
        r == (a@ == b@),
{
    let mut i: usize = 0;
    while i < 32
        invariant
            0 <= i <= 32,
            forall|j: int| 0 <= j < i ==> a@[j] == b@[j],
        decreases 32 - i,
    {
        if a[i] != b[i] {
            return false;
        }
        i = i + 1;
    }
    proof {
        assert(a@ =~= b@);
    }
    true
}

/// A native-balance transfer the host must perform.
#[derive(Debug)]
pub struct LamportTransfer {
    pub from: [u8; 32],
    pub to: [u8; 32],
    pub lamports: u64,
}

/// Model of a native-balance transfer.
#[verifier::ext_equal]
pub ghost struct LamportTransferModel {
    pub from: Seq<u8>,
    pub to: Seq<u8>,
    pub lamports: u64,
}

impl View for LamportTransfer {
    type V = LamportTransferModel;

    open spec fn view(&self) -> LamportTransferModel {
        LamportTransferModel { from: self.from@, to: self.to@, lamports: self.lamports }
    }
}

/// A token transfer the host must perform with the mint's declared decimal
/// precision, signed by the delegated authority under its bump seed.
#[derive(Debug)]
pub struct TokenTransfer {
    pub source: [u8; 32],
    pub mint: [u8; 32],
    pub destination: [u8; 32],
    pub authority: [u8; 32],
    pub bump_seed: u8,
    pub amount: u64,
    pub decimals: u8,
}

/// Model of a token transfer.
#[verifier::ext_equal]
pub ghost struct TokenTransferModel {
    pub source: Seq<u8>,
    pub mint: Seq<u8>,
    pub destination: Seq<u8>,
    pub authority: Seq<u8>,
    pub bump_seed: u8,
    pub amount: u64,
    pub decimals: u8,
}

impl View for TokenTransfer {
    type V = TokenTransferModel;

    open spec fn view(&self) -> TokenTransferModel {
        TokenTransferModel {
            source: self.source@,
            mint: self.mint@,
            destination: self.destination@,
            authority: self.authority@,
            bump_seed: self.bump_seed,
            amount: self.amount,
            decimals: self.decimals,
        }
    }
}

/// What a successful Initialize asks of the host: persist the populated
/// record, and reassign the shelf's owner to the delegated authority.
#[derive(Debug)]
pub struct InitSaleEffects {
    pub record_data: Vec<u8>,
    pub shelf: [u8; 32],
    pub new_shelf_authority: [u8; 32],
}

/// Model of Initialize's effects.
#[verifier::ext_equal]
pub ghost struct InitSaleEffectsModel {
    pub record_data: Seq<u8>,
    pub shelf: Seq<u8>,
    pub new_shelf_authority: Seq<u8>,
}

impl View for InitSaleEffects {
    type V = InitSaleEffectsModel;

    open spec fn view(&self) -> InitSaleEffectsModel {
        InitSaleEffectsModel {
            record_data: self.record_data@,
            shelf: self.shelf@,
            new_shelf_authority: self.new_shelf_authority@,
        }
    }
}

/// What a successful Reprice asks of the host: persist the record with its
/// price overwritten.
#[derive(Debug)]
pub struct UpdatePriceEffects {
    pub record_data: Vec<u8>,
}

/// What a successful Purchase asks of the host: the payment transfer from
/// the buyer to the till, and the goods transfer from the shelf to the
/// buyer's receiving account. Both must succeed or the operation is void.
#[derive(Debug)]
pub struct BuyTokensEffects {
    pub payment: LamportTransfer,
    pub goods: TokenTransfer,
}

/// Model of Purchase's effects.
#[verifier::ext_equal]
pub ghost struct BuyTokensEffectsModel {
    pub payment: LamportTransferModel,
    pub goods: TokenTransferModel,
}

impl View for BuyTokensEffects {
    type V = BuyTokensEffectsModel;

    open spec fn view(&self) -> BuyTokensEffectsModel {
        BuyTokensEffectsModel { payment: self.payment@, goods: self.goods@ }
    }
}

/// What a successful Terminate asks of the host: return the shelf's whole
/// token balance to the inventory recipient, move the record storage's
/// native balance onto the inventory recipient, and zero every byte of the
/// record storage.
#[derive(Debug)]
pub struct EndTokenSaleEffects {
    pub goods: TokenTransfer,
    pub inventory_lamports: u64,
    pub record_lamports: u64,
    pub record_data: Vec<u8>,
}

/// Model of Terminate's effects.
#[verifier::ext_equal]
pub ghost struct EndTokenSaleEffectsModel {
    pub goods: TokenTransferModel,
    pub inventory_lamports: u64,
    pub record_lamports: u64,
    pub record_data: Seq<u8>,
}

impl View for EndTokenSaleEffects {
    type V = EndTokenSaleEffectsModel;

    open spec fn view(&self) -> EndTokenSaleEffectsModel {
        EndTokenSaleEffectsModel {
            goods: self.goods@,
            inventory_lamports: self.inventory_lamports,
            record_lamports: self.record_lamports,
            record_data: self.record_data@,
        }
    }
}

/// The effects of whichever operation the router dispatched.
#[derive(Debug)]
pub enum SaleEffects {
    InitSale(InitSaleEffects),
    UpdatePrice(UpdatePriceEffects),
    BuyTokens(BuyTokensEffects),
    EndTokenSale(EndTokenSaleEffects),
}

} // verus!
