//! Address string validation and the two parsing paths.

use uniswap_price::global::{
    dai_address, usdc_address, usdt_address, v2_factory_address, weth_address, DAI_ADDRESS,
    MAINNET_UNISWAP_V2_FACTORY_ADDRESS, USDC_ADDRESS, USDT_ADDRESS, WETH_ADDRESS,
};
use uniswap_price::tool::{str_to_h160_1, str_to_h160_2, verify_address_format};
use uniswap_price::types::Address;

#[test]
fn format_accepts_canonical_addresses() {
    assert!(verify_address_format(WETH_ADDRESS));
    assert!(verify_address_format(USDC_ADDRESS));
    assert!(verify_address_format("0xC02aaA39b223FE8D0A0e5C4F27eAD9083C756Cc2"));
}

#[test]
fn format_accepts_uppercase_prefix_and_whitespace() {
    assert!(verify_address_format("  0xC02aaA39b223FE8D0A0e5C4F27eAD9083C756Cc2  "));
    assert!(verify_address_format("0XC02aaA39b223FE8D0A0e5C4F27eAD9083C756Cc2"));
    assert!(verify_address_format("C02aaA39b223FE8D0A0e5C4F27eAD9083C756Cc2"));
}

#[test]
fn format_rejects_bad_inputs() {
    assert!(!verify_address_format(""));
    assert!(!verify_address_format("   "));
    assert!(!verify_address_format("0x12345"));
    assert!(!verify_address_format("0xC02aaA39b223FE8D0A0e5C4F27eAD9083C756Cc")); // 39 digits
    assert!(!verify_address_format("0xC02aaA39b223FE8D0A0e5C4F27eAD9083C756Cc2a")); // 41 digits
    assert!(!verify_address_format("0xG02aaA39b223FE8D0A0e5C4F27eAD9083C756Cc2")); // non-hex
}

#[test]
fn parse_path_one_yields_known_values() {
    assert_eq!(str_to_h160_1(WETH_ADDRESS).unwrap(), weth_address());
    assert_eq!(str_to_h160_1(USDC_ADDRESS).unwrap(), usdc_address());
    assert_eq!(str_to_h160_1(USDT_ADDRESS).unwrap(), usdt_address());
    assert_eq!(str_to_h160_1(DAI_ADDRESS).unwrap(), dai_address());
    assert_eq!(
        str_to_h160_1(MAINNET_UNISWAP_V2_FACTORY_ADDRESS).unwrap(),
        v2_factory_address()
    );
}

#[test]
fn parse_path_one_rejects_bad_inputs() {
    assert!(str_to_h160_1("").is_err());
    assert!(str_to_h160_1("0x123").is_err());
    assert!(str_to_h160_1("0xG02aaA39b223FE8D0A0e5C4F27eAD9083C756Cc2").is_err());
    // path one does not tolerate whitespace
    assert!(str_to_h160_1(" 0xC02aaA39b223FE8D0A0e5C4F27eAD9083C756Cc2").is_err());
}

#[test]
fn parse_path_two_yields_known_values() {
    assert_eq!(str_to_h160_2(WETH_ADDRESS).unwrap(), weth_address());
    assert_eq!(str_to_h160_2(USDC_ADDRESS).unwrap(), usdc_address());
    // path two trims whitespace first
    assert_eq!(
        str_to_h160_2("  0xC02aaA39b223FE8D0A0e5C4F27eAD9083C756Cc2 ").unwrap(),
        weth_address()
    );
}

#[test]
fn parse_path_two_rejects_bad_inputs() {
    assert!(str_to_h160_2("").is_err());
    assert!(str_to_h160_2("0x123").is_err());
    assert!(str_to_h160_2("0xC02aaA39b223FE8D0A0e5C4F27eAD9083C756Cc").is_err());
    assert!(str_to_h160_2("0xZZ2aaA39b223FE8D0A0e5C4F27eAD9083C756Cc2").is_err());
}

#[test]
fn parse_paths_agree_on_plain_addresses() {
    for s in [
        WETH_ADDRESS,
        USDC_ADDRESS,
        USDT_ADDRESS,
        DAI_ADDRESS,
        "0x0000000000000000000000000000000000000000",
        "0x00000000000000000000000000000000000000fF",
    ] {
        let a = str_to_h160_1(s).unwrap();
        let b = str_to_h160_2(s).unwrap();
        assert_eq!(a, b);
    }
}

#[test]
fn parse_small_value_lands_in_low_limb() {
    let a = str_to_h160_2("0x00000000000000000000000000000000000000fF").unwrap();
    assert_eq!(a, Address { hi: 0, lo: 0xff });
    let b = str_to_h160_2("0xfF00000000000000000000000000000000000000").unwrap();
    assert_eq!(b, Address { hi: 0xff000000, lo: 0 });
}
