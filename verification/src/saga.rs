//! The saga controller: the per-listing single-slot transaction record and
//! the wrapping id allocator.  A listing admits one multi-step operation at
//! a time; a request matching the recorded kind and parameters resumes it
//! under the same transaction ids, any other request is turned away.

use vstd::prelude::*;

use crate::types::ContractId;
use crate::types::MarketErr;
use crate::types::MarketTx;
use crate::types::TransactionId;

verus! {

/// Equality of two optional contract references, decided in executable code.
pub fn opt_id_eq(a: &Option<ContractId>, b: &Option<ContractId>) -> (r: bool)
    ensures
        r == (*a == *b),
{
    match (a, b) {
        (Some(x), Some(y)) => x == y,
        (None, None) => true,
        _ => false,
    }
}

/// Structural equality of two saga records, decided in executable code.
pub fn tx_eq(a: &MarketTx, b: &MarketTx) -> (r: bool)
    ensures
        r == (*a == *b),
{
    match (a, b) {
        (
            MarketTx::Sale { buyer: b1, price: p1 },
            MarketTx::Sale { buyer: b2, price: p2 },
        ) => b1 == b2 && p1 == p2,
        (
            MarketTx::CreateAuction {
                ft_contract_id: f1,
                min_price: m1,
                bid_period: bp1,
                duration: d1,
            },
            MarketTx::CreateAuction {
                ft_contract_id: f2,
                min_price: m2,
                bid_period: bp2,
                duration: d2,
            },
        ) => opt_id_eq(f1, f2) && m1 == m2 && bp1 == bp2 && d1 == d2,
        (
            MarketTx::Bid { account: a1, price: p1 },
            MarketTx::Bid { account: a2, price: p2 },
        ) => a1 == a2 && p1 == p2,
        (MarketTx::SettleAuction, MarketTx::SettleAuction) => true,
        (
            MarketTx::Offer { ft_id: f1, price: p1, account: a1 },
            MarketTx::Offer { ft_id: f2, price: p2, account: a2 },
        ) => f1 == f2 && p1 == p2 && a1 == a2,
        (
            MarketTx::AcceptOffer { ft_contract_id: f1, price: p1 },
            MarketTx::AcceptOffer { ft_contract_id: f2, price: p2 },
        ) => opt_id_eq(f1, f2) && p1 == p2,
        (
            MarketTx::Withdraw { ft_contract_id: f1, price: p1, account: a1 },
            MarketTx::Withdraw { ft_contract_id: f2, price: p2, account: a2 },
        ) => opt_id_eq(f1, f2) && p1 == p2 && a1 == a2,
        _ => false,
    }
}

/// Obtain the transaction id window for an operation, or resume the one
/// already in flight.
///
/// With an empty slot, a window of `reserve` fresh ids starting at the
/// current counter is handed out (the counter wraps) and the slot records
/// the operation.  With an occupied slot, an identical request gets the
/// recorded id back — allocating nothing, so a resumed operation reissues
/// its external calls under the very ids it used before — and any other
/// request is rejected without touching anything.
pub fn begin_or_resume(
    slot: &mut Option<(TransactionId, MarketTx)>,
    counter: &mut TransactionId,
    kind: MarketTx,
    reserve: u64,
) -> (r: Result<(TransactionId, bool), MarketErr>)
    ensures
        match *old(slot) {
            None => {
                &&& r == Ok::<(TransactionId, bool), MarketErr>((*old(counter), false))
                &&& *final(slot) == Some((*old(counter), kind))
                &&& *final(counter) == old(counter).wrapping_add(reserve)
            },
            Some((id, k)) => {
                &&& *final(slot) == *old(slot)
                &&& *final(counter) == *old(counter)
                &&& (k == kind ==> r == Ok::<(TransactionId, bool), MarketErr>((id, true)))
                &&& (k != kind ==> r == Err::<(TransactionId, bool), MarketErr>(
                    MarketErr::WrongTransaction,
                ))
            },
        },
{
    let s = *slot;
    match s {
        None => {
            let id = *counter;
            *counter = counter.wrapping_add(reserve);
            *slot = Some((id, kind));
            Ok((id, false))
        },
        Some((id, k)) => {
            if tx_eq(&k, &kind) {
                Ok((id, true))
            } else {
                Err(MarketErr::WrongTransaction)
            }
        },
    }
}

} // verus!
