//! The per-block analysis, as the pure decisions a scan makes between its
//! chain lookups, and the order of a backward scan.
//!
//! A caller analyses one block by driving the stages in sequence: resolve the
//! block's transaction hashes, keep the creation transactions
//! ([`filter_contract_creation`]), resolve their receipts and build contracts
//! ([`crate::contract::get_contracts`]), fetch and write back balances at the
//! scan's reference height ([`crate::contract::get_balances`]), drop
//! contracts under the threshold
//! ([`crate::helper::filter_contracts_on_balance`]), attach source listings
//! ([`crate::contract::get_verified_code`]), evaluate the detector registry
//! ([`crate::vulnerability::run_detectors`]) and render the reports
//! ([`crate::report::render_reports`]).

use vstd::prelude::*;

use crate::contract::{contracts_of_receipts, lemma_contracts_of_receipts_len, with_balances, with_sources, Contract};
use crate::report::{rendered_reports, ReportView};
use crate::types::{Receipt, Transaction};
use crate::vulnerability::block_reports;

verus! {

/// A transaction creates a contract exactly when its recipient is absent.
pub open spec fn spec_is_creation(tx: Transaction) -> bool {
    tx.recipient is None
}

/// Decides whether `tx` is a contract-creation transaction: true if and only
/// if its recipient is absent.
pub fn is_creation(tx: &Transaction) -> (r: bool)
    ensures
        r == spec_is_creation(*tx),
{
    tx.recipient.is_none()
}

/// The creation transactions among a sequence of transaction lookups, in
/// order: a hash that did not resolve is dropped, and of the resolved
/// transactions exactly those without a recipient remain.
pub open spec fn creation_transactions(txs: Seq<Option<Transaction>>) -> Seq<Transaction>
    decreases txs.len(),
{
    if txs.len() == 0 {
        Seq::empty()
    } else {
        let rest = creation_transactions(txs.drop_last());
        match txs.last() {
            Some(t) => if spec_is_creation(t) {
                rest.push(t)
            } else {
                rest
            },
            None => rest,
        }
    }
}

/// Keeps exactly the resolved contract-creation transactions, in order.
pub fn filter_contract_creation(transactions: Vec<Option<Transaction>>) -> (r: Vec<Transaction>)
    ensures
        r@ == creation_transactions(transactions@),
{
    let ghost all = transactions@;
    let mut rest = transactions;
    let mut r: Vec<Transaction> = Vec::new();
    let ghost mut i: int = 0;
    while rest.len() > 0
        invariant
            0 <= i,
            i + rest@.len() == all.len(),
            rest@ == all.subrange(i, all.len() as int),
            r@ == creation_transactions(all.subrange(0, i)),
        decreases rest@.len(),
    {
        let t = rest.remove(0);
        proof {
            assert(t == all[i]);
        }
        match t {
            Some(tx) => {
                let create = is_creation(&tx);
                if create {
                    r.push(tx);
                }
            },
            None => {},
        }
        proof {
            let p = all.subrange(0, i + 1);
            assert(p.drop_last() =~= all.subrange(0, i));
            assert(p.last() == all[i]);
            assert(r@ =~= creation_transactions(p));
            i = i + 1;
            assert(rest@ =~= all.subrange(i, all.len() as int));
        }
    }
    proof {
        assert(all.subrange(0, i) =~= all);
    }
    r
}

/// Extraction never yields more contracts than the block has creation
/// transactions: one receipt is looked up per creation transaction, and each
/// receipt yields at most one contract.
pub proof fn lemma_extraction_bounded(
    txs: Seq<Option<Transaction>>,
    receipts: Seq<Option<Receipt>>,
)
    requires
        receipts.len() == creation_transactions(txs).len(),
    ensures
        contracts_of_receipts(receipts).len() <= creation_transactions(txs).len(),
{
    lemma_contracts_of_receipts_len(receipts);
}

/// The block a backward scan processes after `current`: the next lower
/// number, until block 0, which ends the scan.
pub fn next_block(current: u64) -> (r: Option<u64>)
    ensures
        current > 0 ==> r == Some((current - 1) as u64),
        current == 0 ==> r is None,
{
    if current == 0 {
        None
    } else {
        Some(current - 1)
    }
}

/// The reports a block analysis produces, given the chain's and the
/// registry's responses: the receipt of each creation transaction, the
/// balance of each extracted contract at the reference height, and the
/// source listing of each contract that reached the threshold.
pub open spec fn spec_block_reports(
    receipts: Seq<Option<Receipt>>,
    balances: Seq<u128>,
    listings: Seq<Vec<(String, Vec<String>)>>,
    threshold: u128,
) -> Seq<ReportView> {
    let extracted = contracts_of_receipts(receipts);
    let funded = with_balances(extracted, balances);
    let kept = funded.filter(|c: Contract| c.balance >= threshold);
    let sourced = with_sources(kept, listings);
    block_reports(sourced)
}

/// The text a block analysis appends to the report sink.
pub open spec fn spec_block_report_text(
    receipts: Seq<Option<Receipt>>,
    balances: Seq<u128>,
    listings: Seq<Vec<(String, Vec<String>)>>,
    threshold: u128,
) -> Seq<char> {
    rendered_reports(spec_block_reports(receipts, balances, listings, threshold))
}

/// Re-running the analysis of a block is idempotent: with the same chain
/// responses (receipts, balances at the same reference height, source
/// listings) and the same threshold, the rendered report text is identical
/// character for character. Each pipeline stage's contract pins its result
/// to a function of its inputs, so the whole block text is one.
pub proof fn lemma_rescan_identical(
    receipts1: Seq<Option<Receipt>>,
    balances1: Seq<u128>,
    listings1: Seq<Vec<(String, Vec<String>)>>,
    threshold1: u128,
    receipts2: Seq<Option<Receipt>>,
    balances2: Seq<u128>,
    listings2: Seq<Vec<(String, Vec<String>)>>,
    threshold2: u128,
)
    requires
        receipts1 == receipts2,
        balances1 == balances2,
        listings1 == listings2,
        threshold1 == threshold2,
    ensures
        spec_block_report_text(receipts1, balances1, listings1, threshold1)
            == spec_block_report_text(receipts2, balances2, listings2, threshold2),
{
}

} // verus!
