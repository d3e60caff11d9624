use batch0_sale::error::SaleError;
use batch0_sale::instruction::Batch0SaleInstruction;
use batch0_sale::state::Batch0SaleProgramData;

fn sample_record_bytes() -> Vec<u8> {
    let mut b = vec![1u8];
    b.extend_from_slice(&5u64.to_le_bytes());
    b.extend_from_slice(&[0xAAu8; 32]);
    b.extend_from_slice(&[0xBBu8; 32]);
    b.extend_from_slice(&[0xCCu8; 32]);
    b
}

#[test]
fn decode_reads_every_field() {
    let b = sample_record_bytes();
    let d = Batch0SaleProgramData::unpack_from_slice(&b).unwrap();
    assert!(d.is_initialized);
    assert_eq!(d.current_price_per_token, 5);
    assert_eq!(d.inventory_pubkey, [0xAAu8; 32]);
    assert_eq!(d.shelf_pubkey, [0xBBu8; 32]);
    assert_eq!(d.till_pubkey, [0xCCu8; 32]);
}

#[test]
fn encode_of_decode_reproduces_bytes() {
    let b = sample_record_bytes();
    let d = Batch0SaleProgramData::unpack_from_slice(&b).unwrap();
    let mut out = vec![0u8; 105];
    d.pack_into_slice(&mut out);
    assert_eq!(out, b);
}

#[test]
fn decode_of_encode_reproduces_record() {
    let d = Batch0SaleProgramData {
        is_initialized: false,
        current_price_per_token: u64::MAX,
        inventory_pubkey: [9u8; 32],
        shelf_pubkey: [8u8; 32],
        till_pubkey: [7u8; 32],
    };
    let mut out = vec![0u8; 105];
    d.pack_into_slice(&mut out);
    let back = Batch0SaleProgramData::unpack_from_slice(&out).unwrap();
    assert!(!back.is_initialized);
    assert_eq!(back.current_price_per_token, u64::MAX);
    assert_eq!(back.inventory_pubkey, [9u8; 32]);
    assert_eq!(back.shelf_pubkey, [8u8; 32]);
    assert_eq!(back.till_pubkey, [7u8; 32]);
}

#[test]
fn decode_rejects_short_buffer() {
    assert_eq!(
        Batch0SaleProgramData::unpack_from_slice(&[]).unwrap_err(),
        SaleError::InvalidData
    );
    assert_eq!(
        Batch0SaleProgramData::unpack_from_slice(&[0u8; 104]).unwrap_err(),
        SaleError::InvalidData
    );
}

#[test]
fn decode_rejects_bad_flag_byte() {
    let mut b = sample_record_bytes();
    b[0] = 2;
    assert_eq!(
        Batch0SaleProgramData::unpack_from_slice(&b).unwrap_err(),
        SaleError::InvalidData
    );
    b[0] = 0xFF;
    assert_eq!(
        Batch0SaleProgramData::unpack_from_slice(&b).unwrap_err(),
        SaleError::InvalidData
    );
}

#[test]
fn zeroed_buffer_decodes_as_uninitialized() {
    let d = Batch0SaleProgramData::unpack_from_slice(&[0u8; 105]).unwrap();
    assert!(!d.is_initialized);
    assert_eq!(d.current_price_per_token, 0);
}

#[test]
fn unpack_decodes_every_tag() {
    let mut init = vec![0u8];
    init.extend_from_slice(&12u64.to_le_bytes());
    assert_eq!(
        Batch0SaleInstruction::unpack(&init).unwrap(),
        Batch0SaleInstruction::InitSale { new_price_per_token: 12 }
    );

    let mut reprice = vec![1u8];
    reprice.extend_from_slice(&34u64.to_le_bytes());
    assert_eq!(
        Batch0SaleInstruction::unpack(&reprice).unwrap(),
        Batch0SaleInstruction::UpdatePrice { new_price_per_token: 34 }
    );

    assert_eq!(
        Batch0SaleInstruction::unpack(&[2u8]).unwrap(),
        Batch0SaleInstruction::EndTokenSale {}
    );
    assert_eq!(
        Batch0SaleInstruction::unpack(&[3u8]).unwrap(),
        Batch0SaleInstruction::BuyShot {}
    );
    assert_eq!(
        Batch0SaleInstruction::unpack(&[4u8]).unwrap(),
        Batch0SaleInstruction::BuyDouble {}
    );
    assert_eq!(
        Batch0SaleInstruction::unpack(&[5u8]).unwrap(),
        Batch0SaleInstruction::BuyFlask {}
    );
    assert_eq!(
        Batch0SaleInstruction::unpack(&[6u8]).unwrap(),
        Batch0SaleInstruction::BuyFifth {}
    );
    assert_eq!(
        Batch0SaleInstruction::unpack(&[7u8]).unwrap(),
        Batch0SaleInstruction::BuyCase {}
    );
    assert_eq!(
        Batch0SaleInstruction::unpack(&[8u8]).unwrap(),
        Batch0SaleInstruction::BuyBarrel {}
    );
}

#[test]
fn unpack_rejects_malformed_streams() {
    assert_eq!(
        Batch0SaleInstruction::unpack(&[]).unwrap_err(),
        SaleError::InvalidInstruction
    );
    assert_eq!(
        Batch0SaleInstruction::unpack(&[9u8]).unwrap_err(),
        SaleError::InvalidInstruction
    );
    // Tag 0 and 1 need eight argument bytes.
    assert_eq!(
        Batch0SaleInstruction::unpack(&[0u8, 1, 2, 3]).unwrap_err(),
        SaleError::InvalidInstruction
    );
    assert_eq!(
        Batch0SaleInstruction::unpack(&[1u8]).unwrap_err(),
        SaleError::InvalidInstruction
    );
}

#[test]
fn unpack_byte_reads_little_endian_positions() {
    let mut buf = Vec::new();
    buf.extend_from_slice(&111u64.to_le_bytes());
    buf.extend_from_slice(&222u64.to_le_bytes());
    assert_eq!(Batch0SaleInstruction::unpack_byte(&buf, 0).unwrap(), 111);
    assert_eq!(Batch0SaleInstruction::unpack_byte(&buf, 1).unwrap(), 222);
    assert_eq!(
        Batch0SaleInstruction::unpack_byte(&buf, 2).unwrap_err(),
        SaleError::InvalidInstruction
    );
    assert_eq!(
        Batch0SaleInstruction::unpack_byte(&[1, 2, 3], 0).unwrap_err(),
        SaleError::InvalidInstruction
    );
}
