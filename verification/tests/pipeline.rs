use blockwatch::block_scanner::{filter_contract_creation, is_creation, next_block};
use blockwatch::contract::{get_balances, get_contracts, get_verified_code, Contract};
use blockwatch::helper::{ether_to_wei, filter_contracts_on_balance, BALANCE_THRESHOLD};
use blockwatch::report::render_reports;
use blockwatch::types::{Address, Hash256, Receipt, Transaction};
use blockwatch::vulnerability::{all_vulnerabilities, run_detectors, Vulnerability};

fn addr(b: u8) -> Address {
    Address { bytes: [b; 20] }
}

fn hash(b: u8) -> Hash256 {
    Hash256 { bytes: [b; 32] }
}

fn tx(recipient: Option<Address>, h: u8) -> Transaction {
    Transaction { sender: addr(0x11), recipient, hash: hash(h), payload: vec![] }
}

fn receipt(contract_address: Option<Address>) -> Receipt {
    Receipt { contract_address, block_hash: hash(0xbb) }
}

#[test]
fn creation_iff_recipient_absent() {
    assert!(is_creation(&tx(None, 1)));
    assert!(!is_creation(&tx(Some(addr(0x22)), 2)));
}

#[test]
fn filter_keeps_only_creations_and_drops_unresolved() {
    let txs = vec![
        Some(tx(Some(addr(0x22)), 1)),
        None,
        Some(tx(None, 2)),
        Some(tx(None, 3)),
        Some(tx(Some(addr(0x33)), 4)),
    ];
    let creations = filter_contract_creation(txs);
    assert_eq!(creations.len(), 2);
    assert_eq!(creations[0].hash, hash(2));
    assert_eq!(creations[1].hash, hash(3));
}

#[test]
fn extraction_never_exceeds_creation_count() {
    let txs = vec![Some(tx(None, 1)), Some(tx(None, 2)), Some(tx(Some(addr(0x22)), 3))];
    let creations = filter_contract_creation(txs);
    let n_creations = creations.len();
    // one receipt lookup per creation transaction; one resolves to a
    // deployment, one receipt is missing
    let receipts = vec![Some(receipt(Some(addr(0xcc)))), None];
    assert_eq!(receipts.len(), n_creations);
    let contracts = get_contracts(receipts);
    assert!(contracts.len() <= n_creations);
    assert_eq!(contracts.len(), 1);
}

#[test]
fn receipts_without_contract_address_are_dropped() {
    let receipts = vec![
        Some(receipt(Some(addr(0x01)))),
        Some(receipt(None)),
        None,
        Some(receipt(Some(addr(0x02)))),
    ];
    let contracts = get_contracts(receipts);
    assert_eq!(contracts.len(), 2);
    assert_eq!(contracts[0].address, addr(0x01));
    assert_eq!(contracts[1].address, addr(0x02));
    assert_eq!(contracts[0].balance, 0);
    assert_eq!(contracts[0].block_hash, hash(0xbb));
    assert!(contracts[0].bytecode.is_none());
    assert!(contracts[0].verified_code.is_none());
}

#[test]
fn balances_are_written_back_positionally() {
    let mut contracts = get_contracts(vec![
        Some(receipt(Some(addr(0x01)))),
        Some(receipt(Some(addr(0x02)))),
    ]);
    let balances = vec![7u128, 9u128];
    get_balances(&mut contracts, &balances);
    assert_eq!(contracts[0].address, addr(0x01));
    assert_eq!(contracts[0].balance, 7);
    assert_eq!(contracts[1].address, addr(0x02));
    assert_eq!(contracts[1].balance, 9);
}

#[test]
fn threshold_filter_is_inclusive() {
    let threshold = ether_to_wei(BALANCE_THRESHOLD);
    let mut contracts = get_contracts(vec![
        Some(receipt(Some(addr(0x01)))),
        Some(receipt(Some(addr(0x02)))),
        Some(receipt(Some(addr(0x03)))),
    ]);
    get_balances(&mut contracts, &vec![threshold, threshold - 1, threshold + 1]);
    filter_contracts_on_balance(&mut contracts, threshold);
    assert_eq!(contracts.len(), 2);
    assert_eq!(contracts[0].address, addr(0x01));
    assert_eq!(contracts[0].balance, threshold);
    assert_eq!(contracts[1].address, addr(0x03));
}

#[test]
fn ether_to_wei_scales_by_ten_to_the_eighteenth() {
    assert_eq!(ether_to_wei(0), 0);
    assert_eq!(ether_to_wei(1), 1_000_000_000_000_000_000);
    assert_eq!(ether_to_wei(255), 255_000_000_000_000_000_000);
}

#[test]
fn empty_listing_means_absent_source() {
    let mut contracts = get_contracts(vec![Some(receipt(Some(addr(0x01))))]);
    let listings: Vec<Vec<(String, Vec<String>)>> = vec![vec![]];
    get_verified_code(&mut contracts, listings);
    assert!(contracts[0].verified_code.is_none());
}

#[test]
fn nonempty_listing_is_attached() {
    let mut contracts = get_contracts(vec![Some(receipt(Some(addr(0x01))))]);
    let listing = vec![("A.sol".to_string(), vec!["contract A {}".to_string()])];
    get_verified_code(&mut contracts, vec![listing.clone()]);
    assert_eq!(contracts[0].verified_code, Some(listing));
}

#[test]
fn set_verified_code_collapses_empty_to_absent() {
    let mut c = Contract::new_without_code(addr(0x01), 0, hash(0x02));
    c.set_verified_code(vec![]);
    assert!(c.verified_code.is_none());
    c.set_verified_code(vec![("A.sol".to_string(), vec![])]);
    assert!(c.verified_code.is_some());
}

#[test]
fn contract_constructors_fill_every_field() {
    let c = Contract::new(
        addr(0x01),
        5,
        hash(0x02),
        "6080".to_string(),
        vec![("A.sol".to_string(), vec!["x".to_string()])],
    );
    assert_eq!(c.address, addr(0x01));
    assert_eq!(c.balance, 5);
    assert_eq!(c.block_hash, hash(0x02));
    assert_eq!(c.bytecode, Some("6080".to_string()));
    assert!(c.verified_code.is_some());

    let mut d = Contract::new_without_code(addr(0x03), 1, hash(0x04));
    assert!(d.bytecode.is_none());
    assert!(d.verified_code.is_none());
    d.set_balance(42);
    assert_eq!(d.balance, 42);
    assert_eq!(d.address, addr(0x03));
}

#[test]
fn detector_registry_is_total_on_bare_contracts() {
    // absent bytecode and absent source: every variant still yields exactly
    // one report
    let c = Contract::new_without_code(addr(0x01), 3, hash(0x02));
    let vulns = all_vulnerabilities();
    assert_eq!(vulns.len(), 4);
    for v in &vulns {
        let r = v.detect(&c);
        assert_eq!(r.address, "0x0101010101010101010101010101010101010101");
        assert_eq!(r.balance, "3");
    }
    let reports = run_detectors(&vec![c]);
    assert_eq!(reports.len(), 4);
}

#[test]
fn scenario_one_creation_at_exact_threshold_survives() {
    let threshold = ether_to_wei(BALANCE_THRESHOLD);
    // a block with 3 transactions, one of them a creation
    let txs = vec![
        Some(tx(Some(addr(0x22)), 1)),
        Some(tx(None, 2)),
        Some(tx(Some(addr(0x33)), 3)),
    ];
    let creations = filter_contract_creation(txs);
    assert_eq!(creations.len(), 1);
    // its receipt yields address 0xaaa...
    let mut contracts = get_contracts(vec![Some(receipt(Some(addr(0xaa))))]);
    // its balance at the reference height is exactly the threshold
    get_balances(&mut contracts, &vec![threshold]);
    filter_contracts_on_balance(&mut contracts, threshold);
    assert_eq!(contracts.len(), 1);
    assert_eq!(contracts[0].address, addr(0xaa));
    assert_eq!(contracts[0].balance, threshold);
}

#[test]
fn scenario_block_without_creations_yields_nothing() {
    let txs = vec![Some(tx(Some(addr(0x22)), 1)), Some(tx(Some(addr(0x33)), 2)), None];
    let creations = filter_contract_creation(txs);
    assert_eq!(creations.len(), 0);
    let contracts = get_contracts(vec![]);
    assert_eq!(contracts.len(), 0);
    let reports = run_detectors(&contracts);
    assert_eq!(reports.len(), 0);
    assert_eq!(render_reports(&reports), "");
}

#[test]
fn scenario_backward_scan_descends_to_zero() {
    let mut order: Vec<u64> = Vec::new();
    let mut current: u64 = 5;
    loop {
        order.push(current);
        match next_block(current) {
            Some(n) => current = n,
            None => break,
        }
    }
    assert_eq!(order, vec![5, 4, 3, 2, 1, 0]);
}

#[test]
fn rescan_of_the_same_block_gives_identical_text() {
    let threshold = ether_to_wei(BALANCE_THRESHOLD);
    let run = || {
        let txs = vec![Some(tx(None, 2)), Some(tx(Some(addr(0x22)), 3))];
        let creations = filter_contract_creation(txs);
        assert_eq!(creations.len(), 1);
        let mut contracts = get_contracts(vec![Some(receipt(Some(addr(0xaa))))]);
        get_balances(&mut contracts, &vec![threshold + 5]);
        filter_contracts_on_balance(&mut contracts, threshold);
        let listings = vec![vec![(
            "Token.sol".to_string(),
            vec!["function kill() { selfdestruct(owner); }".to_string()],
        )]];
        get_verified_code(&mut contracts, listings);
        let reports = run_detectors(&contracts);
        render_reports(&reports)
    };
    let first = run();
    let second = run();
    assert_eq!(first, second);
    assert!(!first.is_empty());
}

#[test]
fn detectors_flag_files_whose_lines_match() {
    let listing = vec![
        (
            "Vault.sol".to_string(),
            vec![
                "contract Vault {".to_string(),
                "  function close() public { selfdestruct(payable(msg.sender)); }".to_string(),
                "}".to_string(),
            ],
        ),
        ("Lib.sol".to_string(), vec!["library Lib {}".to_string()]),
        (
            "Auth.sol".to_string(),
            vec!["require(tx.origin == owner);".to_string()],
        ),
    ];
    let mut c = Contract::new_without_code(addr(0x01), 9, hash(0x02));
    c.set_verified_code(listing);

    let self_destruct = Vulnerability::SelfDestruct.detect(&c);
    assert_eq!(self_destruct.description, "source contains selfdestruct");
    assert_eq!(self_destruct.potential_threat, vec!["Vault.sol".to_string()]);

    let tx_origin = Vulnerability::TxOrigin.detect(&c);
    assert_eq!(tx_origin.potential_threat, vec!["Auth.sol".to_string()]);

    let delegate = Vulnerability::DelegateCall.detect(&c);
    assert!(delegate.potential_threat.is_empty());

    let unverified = Vulnerability::UnverifiedSource.detect(&c);
    assert!(unverified.potential_threat.is_empty());
}

#[test]
fn unverified_source_detector_flags_absent_source() {
    let c = Contract::new_without_code(addr(0x01), 9, hash(0x02));
    let r = Vulnerability::UnverifiedSource.detect(&c);
    assert_eq!(r.description, "source code is not verified");
    assert_eq!(
        r.potential_threat,
        vec!["no verified source published for this address".to_string()]
    );
}

#[test]
fn reports_come_detector_major_within_contract_major() {
    let contracts = vec![
        Contract::new_without_code(addr(0x01), 1, hash(0x0a)),
        Contract::new_without_code(addr(0x02), 2, hash(0x0b)),
    ];
    let reports = run_detectors(&contracts);
    assert_eq!(reports.len(), 8);
    let expected_descriptions = [
        "source contains selfdestruct",
        "source authenticates with tx.origin",
        "source contains delegatecall",
        "source code is not verified",
    ];
    for (i, r) in reports.iter().enumerate() {
        assert_eq!(r.description, expected_descriptions[i % 4]);
        if i < 4 {
            assert_eq!(r.address, "0x0101010101010101010101010101010101010101");
            assert_eq!(r.balance, "1");
        } else {
            assert_eq!(r.address, "0x0202020202020202020202020202020202020202");
            assert_eq!(r.balance, "2");
        }
    }
}
