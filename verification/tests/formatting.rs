use blockwatch::report::{render_reports, Report};
use blockwatch::text::{address_to_hex, str_contains, u128_to_dec};
use blockwatch::types::Address;

#[test]
fn decimal_rendering_matches_expected_digits() {
    assert_eq!(u128_to_dec(0), "0");
    assert_eq!(u128_to_dec(7), "7");
    assert_eq!(u128_to_dec(10), "10");
    assert_eq!(u128_to_dec(1_000_000_000_000_000_000), "1000000000000000000");
    assert_eq!(
        u128_to_dec(u128::MAX),
        "340282366920938463463374607431768211455"
    );
}

#[test]
fn address_rendering_is_0x_and_forty_hex_digits() {
    let bytes = [
        0xac, 0x04, 0x65, 0x63, 0xe7, 0x10, 0x42, 0x92, 0xfe, 0x91, 0x30, 0xb0, 0x83, 0x60, 0x04,
        0x9f, 0x79, 0xa3, 0xb5, 0xbf,
    ];
    let a = Address { bytes };
    assert_eq!(address_to_hex(&a), "0xac046563e7104292fe9130b08360049f79a3b5bf");
    let zero = Address { bytes: [0; 20] };
    assert_eq!(address_to_hex(&zero), "0x0000000000000000000000000000000000000000");
}

#[test]
fn substring_search_finds_patterns() {
    assert!(str_contains("function kill() { selfdestruct(x); }", "selfdestruct"));
    assert!(str_contains("selfdestruct", "selfdestruct"));
    assert!(!str_contains("selfdestruc", "selfdestruct"));
    assert!(!str_contains("", "a"));
    assert!(str_contains("abc", ""));
    assert!(str_contains("", ""));
    assert!(str_contains("xx tx.origin yy", "tx.origin"));
    assert!(!str_contains("txorigin", "tx.origin"));
}

#[test]
fn report_text_has_header_risk_and_marked_threats() {
    let r = Report {
        address: "0xabc".to_string(),
        balance: "10".to_string(),
        description: "source contains selfdestruct".to_string(),
        potential_threat: vec!["Vault.sol".to_string(), "Safe.sol".to_string()],
    };
    assert_eq!(
        r.to_text(),
        "0xabc with 10\nRisk: source contains selfdestruct\nThreats:\n====>Vault.sol\n====>Safe.sol\n\n\n\n"
    );
}

#[test]
fn report_text_without_threats_keeps_the_frame() {
    let r = Report {
        address: "0xabc".to_string(),
        balance: "0".to_string(),
        description: "source contains delegatecall".to_string(),
        potential_threat: vec![],
    };
    assert_eq!(
        r.to_text(),
        "0xabc with 0\nRisk: source contains delegatecall\nThreats:\n\n\n\n"
    );
}

#[test]
fn rendered_batch_is_the_reports_in_order_with_separators() {
    let a = Report {
        address: "0x01".to_string(),
        balance: "1".to_string(),
        description: "d1".to_string(),
        potential_threat: vec![],
    };
    let b = Report {
        address: "0x02".to_string(),
        balance: "2".to_string(),
        description: "d2".to_string(),
        potential_threat: vec!["t".to_string()],
    };
    let text = render_reports(&vec![a, b]);
    let expected = "0x01 with 1\nRisk: d1\nThreats:\n\n\n\n\n\
                    0x02 with 2\nRisk: d2\nThreats:\n====>t\n\n\n\n\n";
    assert_eq!(text, expected);
}
