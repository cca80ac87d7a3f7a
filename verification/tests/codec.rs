use rebalancer::flow::{Flow, PayloadType};
use rebalancer::hexcodec::{hex_decode, parse_eth_address};

#[test]
fn hex_decode_exact_bytes() {
    assert_eq!(hex_decode("0102030f10"), Some(vec![1u8, 2, 3, 15, 16]));
    assert_eq!(hex_decode("DEADbeef"), Some(vec![0xde, 0xad, 0xbe, 0xef]));
    assert_eq!(hex_decode(""), Some(vec![]));
}

#[test]
fn hex_decode_rejects_bad_input() {
    assert_eq!(hex_decode("123"), None);
    assert_eq!(hex_decode("zz"), None);
    assert_eq!(hex_decode("0x12"), None);
}

#[test]
fn parse_eth_address_happy_path() {
    let bytes = parse_eth_address("0xE168d95f8d1B8EC167A63c8E696076EC8EE95337").unwrap();
    assert_eq!(bytes.len(), 20);
    assert_eq!(bytes[0], 0xe1);
    assert_eq!(bytes[19], 0x37);
    let no_prefix = parse_eth_address("E168d95f8d1B8EC167A63c8E696076EC8EE95337").unwrap();
    assert_eq!(bytes, no_prefix);
}

#[test]
fn parse_eth_address_rejects_bad_input() {
    assert_eq!(parse_eth_address(""), None);
    assert_eq!(parse_eth_address("0x1234"), None);
    assert_eq!(
        parse_eth_address("0xZ168d95f8d1B8EC167A63c8E696076EC8EE95337"),
        None
    );
}

#[test]
fn step_codes_round_trip() {
    let steps = [
        PayloadType::AaveSupply,
        PayloadType::AaveWithdraw,
        PayloadType::CCTPBurn,
        PayloadType::CCTPMint,
        PayloadType::RebalancerWithdrawToAllocate,
        PayloadType::RebalancerUpdateCrossChainBalance,
        PayloadType::RebalancerDeposit,
        PayloadType::RebalancerSignCrossChainBalance,
        PayloadType::CompleteRebalance,
    ];
    for (i, step) in steps.iter().enumerate() {
        assert_eq!(step.code(), i as u8);
        assert_eq!(PayloadType::from_code(i as u8), Some(*step));
    }
    assert_eq!(PayloadType::from_code(9), None);
    assert_eq!(PayloadType::from_code(255), None);
}

#[test]
fn flow_sequences_are_the_canonical_tables() {
    assert_eq!(
        Flow::AaveToAave.sequence(),
        vec![
            PayloadType::AaveWithdraw,
            PayloadType::CCTPBurn,
            PayloadType::CCTPMint,
            PayloadType::AaveSupply,
            PayloadType::CompleteRebalance,
        ]
    );
    assert_eq!(
        Flow::RebalancerToAave.sequence(),
        vec![
            PayloadType::RebalancerWithdrawToAllocate,
            PayloadType::CCTPBurn,
            PayloadType::CCTPMint,
            PayloadType::AaveSupply,
            PayloadType::CompleteRebalance,
        ]
    );
    assert_eq!(
        Flow::AaveToRebalancer.sequence(),
        vec![
            PayloadType::AaveWithdraw,
            PayloadType::CCTPBurn,
            PayloadType::CCTPMint,
            PayloadType::RebalancerDeposit,
            PayloadType::CompleteRebalance,
        ]
    );
}
