use plc_runtime::pls_std::to_reg_i128;
use plc_runtime::pls_std::to_reg_i32;
use plc_runtime::pls_std::to_reg_i64;
use plc_runtime::pls_std::to_reg_u128;
use plc_runtime::pls_std::to_reg_u32;
use plc_runtime::pls_std::to_reg_u64;
use plc_runtime::pls_std::BitWord;
use rmodbus::server::context::ModbusContext;

#[test]
fn test_get_bit() {
    let mut result: Vec<bool> = Vec::new();

    for i in 0..16 {
        result.push(34567.get_bit(i).unwrap())
    }

    let expect = vec![
        true, true, true, false, false, false, false, false, true, true, true, false, false,
        false, false, true,
    ];

    assert_eq!(result, expect);
}

#[test]
fn test_set_bit() {
    let mut result = 76543;

    for (i, &bit) in (vec![
        true, true, true, false, false, false, false, false, true, true, true, false, false,
        false, false, true,
    ])
        .iter()
        .enumerate()
    {
        result.set_bit(i as u8, bit).unwrap();
    }

    let expect = 100103;

    assert_eq!(result, expect);
}

#[test]
fn bit_access_past_width_fails() {
    let word: u8 = 0xFF;
    assert!(word.get_bit(7).unwrap());
    let err = word.get_bit(8).unwrap_err();
    assert_eq!(err.bits, 8);
    assert_eq!(err.pos, 8);

    let mut word: u16 = 0;
    assert!(word.set_bit(15, true).is_ok());
    assert_eq!(word, 0x8000);
    assert!(word.set_bit(16, true).is_err());
    assert_eq!(word, 0x8000);
}

#[test]
fn set_then_get_round_trip() {
    let mut word: u64 = 0;
    word.set_bit(63, true).unwrap();
    word.set_bit(0, true).unwrap();
    assert!(word.get_bit(63).unwrap());
    assert!(word.get_bit(0).unwrap());
    assert!(!word.get_bit(32).unwrap());
    word.set_bit(63, false).unwrap();
    assert!(!word.get_bit(63).unwrap());
    assert_eq!(word, 1);
}

#[test]
fn test_to_reg() {
    let mut context = ModbusContext::new();
    context.set_holdings_from_u32(33, 603159).unwrap();
    let value = context.get_holdings_as_u32(33).unwrap();

    let mut u32ex: Vec<u16> = vec![];
    context.get_holdings_bulk(33, 2, &mut u32ex).unwrap();

    assert_eq!(u32ex, to_reg_u32(value));
    assert_eq!(u32ex, to_reg_i32(value as i32));

    context.set_holdings_from_u64(66, 9875603159).unwrap();
    let value = context.get_holdings_as_u64(66).unwrap();

    let mut u64ex: Vec<u16> = vec![];
    context.get_holdings_bulk(66, 4, &mut u64ex).unwrap();

    assert_eq!(u64ex, to_reg_u64(value));
    assert_eq!(u64ex, to_reg_i64(value as i64));

    context.set_holdings_from_u64(99, 9544894561525603159).unwrap();
    context.set_holdings_from_u64(103, 5544894561525603159).unwrap();
    let value1 = context.get_holdings_as_u64(99).unwrap().to_be_bytes();
    let value2 = context.get_holdings_as_u64(103).unwrap().to_be_bytes();
    let value = i128::from_be_bytes([
        value1[0], value1[1], value1[2], value1[3], value1[4], value1[5], value1[6], value1[7],
        value2[0], value2[1], value2[2], value2[3], value2[4], value2[5], value2[6], value2[7],
    ]);

    let mut u128ex: Vec<u16> = vec![];
    context.get_holdings_bulk(99, 8, &mut u128ex).unwrap();

    assert_eq!(u128ex, to_reg_i128(value));
    assert_eq!(u128ex, to_reg_u128(value as u128));

    let value = context.get_holdings_as_f32(99).unwrap();
    let mut f32ex: Vec<u16> = vec![];
    context.get_holdings_bulk(99, 2, &mut f32ex).unwrap();
    assert_eq!(f32ex, to_reg_u32(value.to_bits()));
}
