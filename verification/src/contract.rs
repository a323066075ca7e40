//! The contract entity and the stages that build and enrich it.

use vstd::prelude::*;

use crate::types::{Address, Hash256, Receipt};

verus! {

/// A newly created contract as carried through the pipeline.
///
/// `verified_code` absent means "no verified source was found", which the
/// pipeline keeps distinguishable from an empty listing by never storing one.
#[derive(Debug)]
pub struct Contract {
    pub address: Address,
    pub balance: u128,
    pub block_hash: Hash256,
    pub bytecode: Option<String>,
    pub verified_code: Option<Vec<(String, Vec<String>)>>,
}

/// `c` with its balance replaced by `balance`.
pub open spec fn with_balance(c: Contract, balance: u128) -> Contract {
    Contract { balance, ..c }
}

/// `c` with `code` attached as its verified source; an empty listing is
/// stored as absent source.
pub open spec fn with_source(c: Contract, code: Vec<(String, Vec<String>)>) -> Contract {
    Contract {
        verified_code: if code@.len() == 0 {
            None
        } else {
            Some(code)
        },
        ..c
    }
}

impl Contract {
    pub fn new(
        address: Address,
        balance: u128,
        block_hash: Hash256,
        bytecode: String,
        verified_code: Vec<(String, Vec<String>)>,
    ) -> (c: Contract)
        ensures
            c.address == address,
            c.balance == balance,
            c.block_hash == block_hash,
            c.bytecode == Some(bytecode),
            c.verified_code == Some(verified_code),
    {
        Contract {
            address,
            balance,
            block_hash,
            bytecode: Some(bytecode),
            verified_code: Some(verified_code),
        }
    }

    pub fn new_without_code(address: Address, balance: u128, block_hash: Hash256) -> (c: Contract)
        ensures
            c.address == address,
            c.balance == balance,
            c.block_hash == block_hash,
            c.bytecode is None,
            c.verified_code is None,
    {
        Contract { address, balance, block_hash, bytecode: None, verified_code: None }
    }

    pub fn set_balance(&mut self, balance: u128)
        ensures
            *final(self) == with_balance(*old(self), balance),
    {
        self.balance = balance;
    }

    /// Attaches a source listing; an empty listing is recorded as absent
    /// source, so that "no verified source" never looks like "empty source".
    pub fn set_verified_code(&mut self, code: Vec<(String, Vec<String>)>)
        ensures
            *final(self) == with_source(*old(self), code),
    {
        if code.len() == 0 {
            self.verified_code = None;
        } else {
            self.verified_code = Some(code);
        }
    }
}

/// The contract a receipt describes, before enrichment: zero balance, no
/// bytecode, no verified source.
pub open spec fn contract_of_receipt(r: Receipt) -> Contract {
    Contract {
        address: r.contract_address->0,
        balance: 0,
        block_hash: r.block_hash,
        bytecode: None,
        verified_code: None,
    }
}

/// The contracts extracted from a sequence of receipt lookups: one per
/// receipt that was found and carries a contract address; unresolved receipts
/// and receipts of non-deployments are dropped.
pub open spec fn contracts_of_receipts(rs: Seq<Option<Receipt>>) -> Seq<Contract>
    decreases rs.len(),
{
    if rs.len() == 0 {
        Seq::empty()
    } else {
        let rest = contracts_of_receipts(rs.drop_last());
        match rs.last() {
            Some(r) => if r.contract_address is Some {
                rest.push(contract_of_receipt(r))
            } else {
                rest
            },
            None => rest,
        }
    }
}

/// Extraction never yields more contracts than receipts it was given.
pub proof fn lemma_contracts_of_receipts_len(rs: Seq<Option<Receipt>>)
    ensures
        contracts_of_receipts(rs).len() <= rs.len(),
    decreases rs.len(),
{
    if rs.len() > 0 {
        lemma_contracts_of_receipts_len(rs.drop_last());
    }
}

/// Builds one contract per resolved receipt that carries a contract address.
///
/// A receipt that did not resolve, or that carries no contract address (a
/// reverted creation), is dropped. Every contract starts with balance zero
/// and neither bytecode nor verified source.
pub fn get_contracts(receipts: Vec<Option<Receipt>>) -> (contracts: Vec<Contract>)
    ensures
        contracts@ == contracts_of_receipts(receipts@),
        contracts@.len() <= receipts@.len(),
{
    let mut contracts: Vec<Contract> = Vec::new();
    let n = receipts.len();
    let mut i: usize = 0;
    while i < n
        invariant
            n == receipts@.len(),
            i <= n,
            contracts@ == contracts_of_receipts(receipts@.subrange(0, i as int)),
        decreases n - i,
    {
        let r = receipts[i];
        match r {
            Some(receipt) => {
                match receipt.contract_address {
                    Some(address) => {
                        let c = Contract::new_without_code(address, 0, receipt.block_hash);
                        assert(c == contract_of_receipt(receipt));
                        contracts.push(c);
                    },
                    None => {},
                }
            },
            None => {},
        }
        proof {
            assert(receipts@.subrange(0, i + 1).drop_last() =~= receipts@.subrange(0, i as int));
            assert(receipts@.subrange(0, i + 1).last() == receipts@[i as int]);
        }
        i += 1;
    }
    proof {
        assert(receipts@.subrange(0, n as int) =~= receipts@);
        lemma_contracts_of_receipts_len(receipts@);
    }
    contracts
}

/// `cs` with the balance of the contract at each position replaced by the
/// balance reported at the same position.
pub open spec fn with_balances(cs: Seq<Contract>, bs: Seq<u128>) -> Seq<Contract> {
    Seq::new(cs.len(), |i: int| with_balance(cs[i], bs[i]))
}

/// Writes the fetched balances back onto the contracts they were fetched
/// for, in correspondence with request order: balance `i` belongs to
/// contract `i`. No other field changes.
pub fn get_balances(contracts: &mut Vec<Contract>, balances: &Vec<u128>)
    requires
        old(contracts)@.len() == balances@.len(),
    ensures
        final(contracts)@ == with_balances(old(contracts)@, balances@),
{
    let n = contracts.len();
    let mut i: usize = 0;
    while i < n
        invariant
            n == old(contracts)@.len(),
            balances@.len() == n,
            contracts@.len() == n,
            i <= n,
            forall|j: int| 0 <= j < i ==> contracts@[j] == with_balance(old(contracts)@[j], balances@[j]),
            forall|j: int| i <= j < n ==> contracts@[j] == old(contracts)@[j],
        decreases n - i,
    {
        let b = balances[i];
        let c = &mut contracts[i];
        c.set_balance(b);
        i += 1;
    }
    proof {
        assert(contracts@ =~= with_balances(old(contracts)@, balances@));
    }
}

/// `cs` with the listing at each position attached to the contract at the
/// same position; empty listings become absent source.
pub open spec fn with_sources(
    cs: Seq<Contract>,
    listings: Seq<Vec<(String, Vec<String>)>>,
) -> Seq<Contract> {
    Seq::new(cs.len(), |i: int| with_source(cs[i], listings[i]))
}

/// Attaches the source listings fetched from the registry, in correspondence
/// with request order: listing `i` belongs to contract `i`. A contract whose
/// listing is empty ends with `verified_code` absent, not with an empty
/// sequence.
pub fn get_verified_code(contracts: &mut Vec<Contract>, listings: Vec<Vec<(String, Vec<String>)>>)
    requires
        old(contracts)@.len() == listings@.len(),
    ensures
        final(contracts)@ == with_sources(old(contracts)@, listings@),
{
    let n = contracts.len();
    let mut rest = listings;
    let mut i: usize = 0;
    while i < n
        invariant
            n == old(contracts)@.len(),
            listings@.len() == n,
            contracts@.len() == n,
            i <= n,
            rest@ =~= listings@.subrange(i as int, n as int),
            forall|j: int| 0 <= j < i ==> contracts@[j] == with_source(old(contracts)@[j], listings@[j]),
            forall|j: int| i <= j < n ==> contracts@[j] == old(contracts)@[j],
        decreases n - i,
    {
        proof {
            assert(rest@.len() == n - i);
        }
        let listing = rest.remove(0);
        proof {
            assert(listing == listings@[i as int]);
        }
        let c = &mut contracts[i];
        c.set_verified_code(listing);
        i += 1;
        proof {
            assert(rest@ =~= listings@.subrange(i as int, n as int));
        }
    }
    proof {
        assert(contracts@ =~= with_sources(old(contracts)@, listings@));
    }
}

} // verus!
