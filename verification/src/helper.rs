//! The balance threshold and the filter that applies it.

use vstd::prelude::*;

use crate::contract::Contract;

verus! {

/// Minimum balance, in whole ether, for a contract to be kept for analysis.
pub const BALANCE_THRESHOLD: u8 = 1;

/// Number of wei in one ether.
pub const WEI_PER_ETHER: u128 = 1_000_000_000_000_000_000;

/// Converts a whole-ether amount to wei.
pub fn ether_to_wei(ether: u8) -> (wei: u128)
    ensures
        wei == ether * WEI_PER_ETHER,
{
    assert((ether as u128) * WEI_PER_ETHER <= 255 * WEI_PER_ETHER) by (nonlinear_arith)
        requires
            ether as u128 <= 255,
    ;
    (ether as u128) * WEI_PER_ETHER
}

/// Keeps exactly the contracts whose balance reaches the threshold, in
/// order. The comparison is inclusive: a balance equal to the threshold is
/// retained, one wei less is removed.
pub fn filter_contracts_on_balance(contracts: &mut Vec<Contract>, balance_threshold: u128)
    ensures
        final(contracts)@ == old(contracts)@.filter(
            |c: Contract| c.balance >= balance_threshold,
        ),
{
    let ghost all = old(contracts)@;
    let ghost pred = |c: Contract| c.balance >= balance_threshold;
    let mut kept: Vec<Contract> = Vec::new();
    let ghost mut i: int = 0;
    proof {
        reveal(Seq::filter);
        assert(kept@ =~= all.subrange(0, 0).filter(pred));
    }
    while contracts.len() > 0
        invariant
            0 <= i,
            i + contracts@.len() == all.len(),
            contracts@ == all.subrange(i, all.len() as int),
            kept@ == all.subrange(0, i).filter(pred),
            pred == (|c: Contract| c.balance >= balance_threshold),
        decreases contracts@.len(),
    {
        let c = contracts.remove(0);
        proof {
            assert(c == all[i]);
        }
        let keep = c.balance >= balance_threshold;
        if keep {
            kept.push(c);
        }
        proof {
            reveal(Seq::filter);
            let p = all.subrange(0, i + 1);
            assert(p.drop_last() =~= all.subrange(0, i));
            assert(p.last() == all[i]);
            assert(kept@ =~= p.filter(pred));
            i = i + 1;
            assert(contracts@ =~= all.subrange(i, all.len() as int));
        }
    }
    proof {
        assert(all.subrange(0, i) =~= all);
    }
    *contracts = kept;
}

} // verus!
