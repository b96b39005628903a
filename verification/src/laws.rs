//! The guarantees the marketplace keeps across every operation, stated on
//! their own and proved from what the rest of the library establishes.

use vstd::prelude::*;

use crate::auction::bid_applied;
use crate::auction::refund_call;
use crate::auction::settle_phase_spec;
use crate::types::ActorId;
use crate::types::ContractId;
use crate::types::Ctx;
use crate::types::Market;
use crate::types::MarketTx;
use crate::types::Price;
use crate::types::Step;
use crate::types::TokenId;
use crate::types::TransactionId;
use crate::types::TransferCont;
use crate::types::NO_BIDDER;

verus! {

/// A consistent market never shows a listing with a fixed price and a
/// running auction at the same time: every operation keeps `Market::wf`,
/// and `wf` forbids the pair on every listing.
pub proof fn lemma_sale_auction_exclusive(m: Market, c: ContractId, t: TokenId)
    requires
        m.wf(),
        m.has_item(c, t),
    ensures
        !(m.spec_item(c, t).price is Some && m.spec_item(c, t).auction is Some),
{
    let i = choose|i: int|
        0 <= i < m.items@.len() && crate::types::entry_key_is(#[trigger] m.items@[i], c, t);
    assert(m.items@[i].item.wf());
}

/// An accepted bid strictly raises the standing price and never pulls the
/// close of the auction in.  Chained over any sequence of accepted bids
/// this makes the price strictly increasing and the close non-decreasing.
pub proof fn lemma_bid_monotone(
    m0: Market,
    m1: Market,
    c: ContractId,
    t: TokenId,
    bidder: ActorId,
    price: Price,
    now: u64,
)
    requires
        m0.wf(),
        m0.has_item(c, t),
        m0.spec_item(c, t).auction is Some,
        price > m0.spec_item(c, t).auction.unwrap().current_price,
        bid_applied(m0, m1, c, t, bidder, price, now),
    ensures
        m1.spec_item(c, t).auction.unwrap().current_price > m0.spec_item(
            c,
            t,
        ).auction.unwrap().current_price,
        m1.spec_item(c, t).auction.unwrap().ended_at >= m0.spec_item(
            c,
            t,
        ).auction.unwrap().ended_at,
{
}

/// One accepted bid stands between the two market states: some bidder
/// raised the standing price at some time.
pub open spec fn accepted_bid_step(m0: Market, m1: Market, c: ContractId, t: TokenId) -> bool {
    exists|b: (ActorId, Price, u64)|
        #[trigger] bid_applied(m0, m1, c, t, b.0, b.1, b.2) && b.1 > m0.spec_item(
            c,
            t,
        ).auction.unwrap().current_price
}

/// Across any sequence of accepted bids on one auction the standing price
/// is strictly increasing and the close never moves in.
pub proof fn lemma_bid_sequence_monotone(
    chain: Seq<Market>,
    c: ContractId,
    t: TokenId,
    i: int,
    j: int,
)
    requires
        0 <= i <= j < chain.len(),
        forall|k: int|
            0 <= k < chain.len() - 1 ==> #[trigger] accepted_bid_step(chain[k], chain[k + 1], c, t),
    ensures
        i < j ==> chain[j].spec_item(c, t).auction.unwrap().current_price > chain[i].spec_item(
            c,
            t,
        ).auction.unwrap().current_price,
        chain[j].spec_item(c, t).auction.unwrap().ended_at >= chain[i].spec_item(
            c,
            t,
        ).auction.unwrap().ended_at,
    decreases j - i,
{
    if i < j {
        lemma_bid_sequence_monotone(chain, c, t, i, j - 1);
        let k = j - 1;
        assert(accepted_bid_step(chain[k], chain[k + 1], c, t));
        assert(accepted_bid_step(chain[j - 1], chain[j], c, t));
        let b = choose|b: (ActorId, Price, u64)|
            #[trigger] bid_applied(chain[j - 1], chain[j], c, t, b.0, b.1, b.2) && b.1 > chain[
                j - 1
            ].spec_item(c, t).auction.unwrap().current_price;
        assert(chain[j].spec_item(c, t).auction.unwrap().current_price == b.1);
    }
}

/// A consistent auction record owes at most one refund — the field holds
/// one at most by its type — and owes it only while a real bidder leads:
/// the sentinel never has a stake in escrow.
pub proof fn lemma_refund_single(m: Market, c: ContractId, t: TokenId)
    requires
        m.wf(),
        m.has_item(c, t),
        m.spec_item(c, t).auction is Some,
        m.spec_item(c, t).auction.unwrap().pending_refund is Some,
    ensures
        m.spec_item(c, t).auction.unwrap().current_winner != NO_BIDDER,
{
    let i = choose|i: int|
        0 <= i < m.items@.len() && crate::types::entry_key_is(#[trigger] m.items@[i], c, t);
    assert(m.items@[i].item.wf());
}

/// Settlement never finalizes over an unpaid refund: while one is
/// recorded, the next settlement step changes nothing and is exactly the
/// recorded refund — same beneficiary, same amount, same transaction id —
/// so the refund is attempted again before the auction can close.
pub proof fn lemma_settle_pays_refund_first(
    m0: Market,
    m1: Market,
    c: ContractId,
    t: TokenId,
    ctx: Ctx,
    s: Step,
)
    requires
        m0.wf(),
        m0.has_item(c, t),
        m0.spec_item(c, t).auction is Some,
        m0.spec_item(c, t).auction.unwrap().pending_refund is Some,
        settle_phase_spec(m0, m1, c, t, ctx, s),
    ensures
        m1 == m0,
        s matches Step::AskTransfer(tr, TransferCont::Settle(c2)) && tr == refund_call(
            m0.spec_item(c, t).ft_contract_id,
            m0.spec_item(c, t).auction.unwrap().pending_refund.unwrap(),
            ctx.program_id,
        ),
{
}

/// Resubmitting a request whose kind and parameters match the in-flight
/// record never duplicates an external transfer: the controller hands the
/// recorded transaction id back and allocates nothing, so every call the
/// resumed operation reissues carries the very idempotency key it carried
/// the first time, and the custodial ledgers deduplicate it.
pub proof fn lemma_resume_allocates_nothing(
    m0: Market,
    m1: Market,
    c: ContractId,
    t: TokenId,
    kind: MarketTx,
    reserve: u64,
    txid: TransactionId,
)
    requires
        m0.spec_item(c, t).tx is Some,
        Market::saga_started(m0, m1, c, t, kind, reserve, txid),
    ensures
        txid == m0.spec_item(c, t).tx.unwrap().0,
        m1 == m0,
        m1.tx_id == m0.tx_id,
{
}

} // verus!
