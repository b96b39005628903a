//! The auction protocol: timed bidding with an escrow ladder and
//! settlement.
//!
//! A running auction holds the asset in custody.  On a currency ledger a
//! bid first pulls the new bidder's funds in; only then does the lead
//! change, and the displaced leader's stake becomes the single pending
//! refund, retried under its recorded transaction id at the start of the
//! next bid and again at settlement, so at most one refund is ever owed
//! and none is forgotten.  The close of the auction moves back when a bid
//! lands near it (anti-sniping), and never moves earlier.

use vstd::prelude::*;

use crate::market::lemma_set_item_effect;
use crate::market::lemma_spec_item_is;
use crate::market::spec_treasury_fee;
use crate::market::treasury_fee_of;
use crate::saga::begin_or_resume;
use crate::sale::upserted;
use crate::saga::opt_id_eq;
use crate::saga::tx_eq;
use crate::types::ActorId;
use crate::types::Auction;
use crate::types::AuctionCont;
use crate::types::BidCont;
use crate::types::BidStage;
use crate::types::ContractId;
use crate::types::Ctx;
use crate::types::Item;
use crate::types::Market;
use crate::types::MarketErr;
use crate::types::MarketEvent;
use crate::types::MarketTx;
use crate::types::Payout;
use crate::types::PayoutCont;
use crate::types::PayoutQuery;
use crate::types::Refund;
use crate::types::SettleCont;
use crate::types::SettlePayoutCont;
use crate::types::SettleStage;
use crate::types::Step;
use crate::types::TokenId;
use crate::types::TransactionId;
use crate::types::Transfer;
use crate::types::TransferCont;
use crate::types::Price;
use crate::types::MIN_BID_PERIOD;
use crate::types::NO_BIDDER;

verus! {

/// Addition on timestamps that pins to the end of time instead of
/// wrapping.
pub open spec fn sat_add(a: u64, b: u64) -> u64 {
    if a + b > u64::MAX {
        u64::MAX
    } else {
        (a + b) as u64
    }
}

/// The close of the auction after a bid at `now`: pushed out to give the
/// trailing bidders a full bid period, and never pulled in.
pub open spec fn ext_end(a: Auction, now: u64) -> u64 {
    if sat_add(now, a.bid_period) > a.ended_at {
        sat_add(now, a.bid_period)
    } else {
        a.ended_at
    }
}

/// What accepting a bid of `price` by `bidder` at `now` does to the
/// listing: the lead changes hands, the close only moves out, a displaced
/// leader's stake becomes the pending refund under a freshly allocated
/// transaction id, and the saga slot is left clear.
pub open spec fn bid_applied(
    m0: Market,
    m1: Market,
    c: ContractId,
    t: TokenId,
    bidder: ActorId,
    price: Price,
    now: u64,
) -> bool {
    &&& Market::same_but_item(m0, m1, c, t)
    &&& m1.has_item(c, t)
    &&& ({
        let it0 = m0.spec_item(c, t);
        let it1 = m1.spec_item(c, t);
        &&& it1.owner == it0.owner
        &&& it1.ft_contract_id == it0.ft_contract_id
        &&& it1.price == it0.price
        &&& it1.offers@ == it0.offers@
        &&& it1.tx is None
        &&& it0.auction matches Some(a0)
        &&& it1.auction matches Some(a1)
        &&& ({
            let a0 = it0.auction.unwrap();
            let a1 = it1.auction.unwrap();
            &&& a1.bid_period == a0.bid_period
            &&& a1.started_at == a0.started_at
            &&& a1.ended_at == ext_end(a0, now)
            &&& a1.current_price == price
            &&& a1.current_winner == bidder
            &&& a1.pending_refund == (if a0.current_winner != NO_BIDDER {
                Some(
                    Refund {
                        account: a0.current_winner,
                        amount: a0.current_price,
                        tx_id: m0.tx_id,
                    },
                )
            } else {
                None
            })
            &&& m1.tx_id == (if a0.current_winner != NO_BIDDER {
                m0.tx_id.wrapping_add(1)
            } else {
                m0.tx_id
            })
        })
    })
}

/// The pending refund is paid and struck off; everything else about the
/// listing — the saga slot included — stands as it was.
pub open spec fn refund_cleared(m0: Market, m1: Market, c: ContractId, t: TokenId) -> bool {
    &&& Market::same_but_item(m0, m1, c, t)
    &&& m1.tx_id == m0.tx_id
    &&& m1.has_item(c, t)
    &&& ({
        let it0 = m0.spec_item(c, t);
        let it1 = m1.spec_item(c, t);
        let a0 = it0.auction.unwrap();
        &&& it1.owner == it0.owner
        &&& it1.ft_contract_id == it0.ft_contract_id
        &&& it1.price == it0.price
        &&& it1.offers@ == it0.offers@
        &&& it1.tx == it0.tx
        &&& it0.auction is Some
        &&& it1.auction == Some(
            Auction {
                bid_period: a0.bid_period,
                started_at: a0.started_at,
                ended_at: a0.ended_at,
                current_price: a0.current_price,
                current_winner: a0.current_winner,
                pending_refund: None,
            },
        )
    })
}

/// The auction closed with no bid: the asset went back, the record is
/// gone, the slot is clear, and nothing else moved.
pub open spec fn auction_cancelled(m0: Market, m1: Market, c: ContractId, t: TokenId) -> bool {
    &&& Market::same_but_item(m0, m1, c, t)
    &&& m1.tx_id == m0.tx_id
    &&& m1.has_item(c, t)
    &&& ({
        let it0 = m0.spec_item(c, t);
        let it1 = m1.spec_item(c, t);
        &&& it1.owner == it0.owner
        &&& it1.ft_contract_id == it0.ft_contract_id
        &&& it1.price == it0.price
        &&& it1.auction is None
        &&& it1.offers@ == it0.offers@
        &&& it1.tx is None
    })
}

/// The auction settled: the winner owns the listing, the record is gone,
/// the slot is clear, and nothing else moved.
pub open spec fn auction_settled(
    m0: Market,
    m1: Market,
    c: ContractId,
    t: TokenId,
    winner: ActorId,
) -> bool {
    &&& Market::same_but_item(m0, m1, c, t)
    &&& m1.tx_id == m0.tx_id
    &&& m1.has_item(c, t)
    &&& ({
        let it0 = m0.spec_item(c, t);
        let it1 = m1.spec_item(c, t);
        &&& it1.owner == winner
        &&& it1.ft_contract_id == it0.ft_contract_id
        &&& it1.price == it0.price
        &&& it1.auction is None
        &&& it1.offers@ == it0.offers@
        &&& it1.tx is None
    })
}

/// The continuations agree everywhere but in their stage.
pub open spec fn same_settle_cont(a: SettleCont, b: SettleCont) -> bool {
    &&& a.nft_contract_id == b.nft_contract_id
    &&& a.token_id == b.token_id
    &&& a.winner == b.winner
    &&& a.price == b.price
    &&& a.payouts == b.payouts
    &&& a.tx_id == b.tx_id
}

/// The next call of the settlement's disbursement tail: the payee at
/// `from` (skipping, on the native path, the marketplace itself and
/// dust-sized totals), or the asset's release to the winner.
pub open spec fn settle_disburse_step(
    cont: SettleCont,
    ft: Option<ContractId>,
    program: ActorId,
    from: int,
    s: Step,
) -> bool {
    let n = cont.payouts@.len() as int;
    match ft {
        Some(f) => if from < n {
            &&& s matches Step::AskTransfer(tr, TransferCont::Settle(c2))
            &&& same_settle_cont(c2, cont)
            &&& c2.stage == SettleStage::Disburse(from as usize)
            &&& tr == (Transfer::Currency {
                tx_id: cont.tx_id.wrapping_add(from as u64),
                ft_contract_id: f,
                sender: program,
                recipient: cont.payouts@[from].account,
                amount: cont.payouts@[from].amount,
            })
        } else {
            &&& s matches Step::AskTransfer(tr, TransferCont::Settle(c2))
            &&& same_settle_cont(c2, cont)
            &&& c2.stage == SettleStage::AssetOut
            &&& tr == (Transfer::Asset {
                tx_id: cont.tx_id.wrapping_add(n as u64),
                nft_contract_id: cont.nft_contract_id,
                to: cont.winner,
                token_id: cont.token_id,
            })
        },
        None => exists|j: int|
            {
                &&& #[trigger] crate::sale::first_native_payee(
                    cont.payouts@,
                    program,
                    cont.price,
                    from,
                    j,
                )
                &&& if j < n {
                    &&& s matches Step::AskTransfer(tr, TransferCont::Settle(c2))
                    &&& same_settle_cont(c2, cont)
                    &&& c2.stage == SettleStage::Disburse(j as usize)
                    &&& tr == (Transfer::Native {
                        to: cont.payouts@[j].account,
                        amount: cont.payouts@[j].amount,
                    })
                } else {
                    &&& s matches Step::AskTransfer(tr, TransferCont::Settle(c2))
                    &&& same_settle_cont(c2, cont)
                    &&& c2.stage == SettleStage::AssetOut
                    &&& tr == (Transfer::Asset {
                        tx_id: cont.tx_id.wrapping_add(n as u64),
                        nft_contract_id: cont.nft_contract_id,
                        to: cont.winner,
                        token_id: cont.token_id,
                    })
                }
            },
    }
}

/// What settlement does next once no foreign saga stands in the way: pay
/// the recorded refund first; then, with no bid on the board, send the
/// asset home (under the settlement saga); otherwise ask for the royalty
/// split of the winning price.
pub open spec fn settle_phase_spec(
    m0: Market,
    m1: Market,
    c: ContractId,
    t: TokenId,
    ctx: Ctx,
    s: Step,
) -> bool {
    let it = m0.spec_item(c, t);
    let a = it.auction.unwrap();
    match a.pending_refund {
        Some(r) => {
            &&& m1 == m0
            &&& s matches Step::AskTransfer(tr, TransferCont::Settle(c2))
            &&& tr == refund_call(it.ft_contract_id, r, ctx.program_id)
            &&& c2.nft_contract_id == c
            &&& c2.token_id == t
            &&& c2.winner == a.current_winner
            &&& c2.price == a.current_price
            &&& c2.tx_id == r.tx_id
            &&& c2.stage == SettleStage::Refund
            &&& c2.payouts@.len() == 0
        },
        None => {
            if a.current_winner == NO_BIDDER {
                &&& s matches Step::AskTransfer(tr, TransferCont::Settle(c2))
                &&& c2.nft_contract_id == c
                &&& c2.token_id == t
                &&& c2.winner == NO_BIDDER
                &&& c2.price == a.current_price
                &&& c2.stage == SettleStage::CancelAsset
                &&& c2.payouts@.len() == 0
                &&& tr == (Transfer::Asset {
                    tx_id: c2.tx_id,
                    nft_contract_id: c,
                    to: it.owner,
                    token_id: t,
                })
                &&& Market::saga_started(m0, m1, c, t, MarketTx::SettleAuction, 1, c2.tx_id)
            } else {
                let fee = spec_treasury_fee(a.current_price, m0.treasury_fee);
                &&& m1 == m0
                &&& s matches Step::AskPayouts(q, PayoutCont::Settle(pc))
                &&& q == (PayoutQuery {
                    nft_contract_id: c,
                    seller: it.owner,
                    amount: (a.current_price - fee) as Price,
                })
                &&& pc == (SettlePayoutCont {
                    nft_contract_id: c,
                    token_id: t,
                    winner: a.current_winner,
                    price: a.current_price,
                    fee: fee as Price,
                })
            }
        },
    }
}

/// The external call that pays a recorded refund out: keyed on the
/// currency ledger, a plain value send on the native path.
pub open spec fn refund_call(ft: Option<ContractId>, r: Refund, program: ActorId) -> Transfer {
    match ft {
        Some(f) => Transfer::Currency {
            tx_id: r.tx_id,
            ft_contract_id: f,
            sender: program,
            recipient: r.account,
            amount: r.amount,
        },
        None => Transfer::Native { to: r.account, amount: r.amount },
    }
}

/// Build the next disbursement step of a settlement.
fn settle_next_step(cont: SettleCont, ft: Option<ContractId>, program: ActorId, from: usize) -> (s:
    Step)
    requires
        from <= cont.payouts@.len(),
    ensures
        settle_disburse_step(cont, ft, program, from as int, s),
{
    let n = cont.payouts.len();
    let c = cont.nft_contract_id;
    let t = cont.token_id;
    let winner = cont.winner;
    let price = cont.price;
    let tx_id = cont.tx_id;
    match ft {
        Some(f) => {
            if from < n {
                let p = cont.payouts[from];
                Step::AskTransfer(
                    Transfer::Currency {
                        tx_id: tx_id.wrapping_add(from as u64),
                        ft_contract_id: f,
                        sender: program,
                        recipient: p.account,
                        amount: p.amount,
                    },
                    TransferCont::Settle(
                        SettleCont {
                            nft_contract_id: c,
                            token_id: t,
                            winner,
                            price,
                            payouts: cont.payouts,
                            tx_id,
                            stage: SettleStage::Disburse(from),
                        },
                    ),
                )
            } else {
                Step::AskTransfer(
                    Transfer::Asset {
                        tx_id: tx_id.wrapping_add(n as u64),
                        nft_contract_id: c,
                        to: winner,
                        token_id: t,
                    },
                    TransferCont::Settle(
                        SettleCont {
                            nft_contract_id: c,
                            token_id: t,
                            winner,
                            price,
                            payouts: cont.payouts,
                            tx_id,
                            stage: SettleStage::AssetOut,
                        },
                    ),
                )
            }
        },
        None => {
            let j = crate::sale::native_next(&cont.payouts, program, price, from);
            if j < n {
                let p = cont.payouts[j];
                Step::AskTransfer(
                    Transfer::Native { to: p.account, amount: p.amount },
                    TransferCont::Settle(
                        SettleCont {
                            nft_contract_id: c,
                            token_id: t,
                            winner,
                            price,
                            payouts: cont.payouts,
                            tx_id,
                            stage: SettleStage::Disburse(j),
                        },
                    ),
                )
            } else {
                Step::AskTransfer(
                    Transfer::Asset {
                        tx_id: tx_id.wrapping_add(n as u64),
                        nft_contract_id: c,
                        to: winner,
                        token_id: t,
                    },
                    TransferCont::Settle(
                        SettleCont {
                            nft_contract_id: c,
                            token_id: t,
                            winner,
                            price,
                            payouts: cont.payouts,
                            tx_id,
                            stage: SettleStage::AssetOut,
                        },
                    ),
                )
            }
        },
    }
}

impl Market {
    /// Record an accepted bid on the listing at slot `i`.
    fn commit_bid(&mut self, i: usize, bidder: ActorId, price: Price, now: u64)
        requires
            old(self).wf(),
            i < old(self).items@.len(),
            old(self).items@[i as int].item.auction is Some,
            old(self).items@[i as int].item.auction.unwrap().pending_refund is None,
            price > old(self).items@[i as int].item.auction.unwrap().current_price,
            bidder != NO_BIDDER,
        ensures
            final(self).wf(),
            bid_applied(
                *old(self),
                *final(self),
                old(self).items@[i as int].nft_contract_id,
                old(self).items@[i as int].token_id,
                bidder,
                price,
                now,
            ),
    {
        proof {
            lemma_spec_item_is(
                *old(self),
                old(self).items@[i as int].nft_contract_id,
                old(self).items@[i as int].token_id,
                i as int,
            );
        }
        let e = &self.items[i];
        let owner0 = e.item.owner;
        let ft0 = e.item.ft_contract_id;
        let price0 = e.item.price;
        let a0 = match e.item.auction {
            Some(a) => a,
            None => {
                proof {
                    assert(false);
                }
                return ;
            },
        };
        let refund = if a0.current_winner != NO_BIDDER {
            let rid = self.tx_id;
            self.tx_id = self.tx_id.wrapping_add(1);
            Some(Refund { account: a0.current_winner, amount: a0.current_price, tx_id: rid })
        } else {
            None
        };
        let want = if a0.bid_period > u64::MAX - now {
            u64::MAX
        } else {
            now + a0.bid_period
        };
        let ended = if want > a0.ended_at {
            want
        } else {
            a0.ended_at
        };
        let a1 = Auction {
            bid_period: a0.bid_period,
            started_at: a0.started_at,
            ended_at: ended,
            current_price: price,
            current_winner: bidder,
            pending_refund: refund,
        };
        self.rewrite_item(i, owner0, ft0, price0, Some(a1), None);
        proof {
            let c = old(self).items@[i as int].nft_contract_id;
            let t = old(self).items@[i as int].token_id;
            let it1 = Item {
                owner: owner0,
                ft_contract_id: ft0,
                price: price0,
                auction: Some(a1),
                offers: old(self).items@[i as int].item.offers,
                tx: None,
            };
            assert(a1.wf());
            assert(it1.wf());
            lemma_set_item_effect(*old(self), *self, c, t, i as int, it1);
        }
    }

    /// Why an auction cannot be opened on this listing, if it cannot.
    pub open spec fn spec_create_auction_err(
        self,
        c: ContractId,
        ft: Option<ContractId>,
        t: TokenId,
        min_price: Price,
        bid_period: u64,
        duration: u64,
        source: ActorId,
        now: u64,
    ) -> Option<MarketErr> {
        if !self.approved_nft_contracts@.contains(c) {
            Some(MarketErr::ContractNotApproved)
        } else if ft matches Some(f) && !self.approved_ft_contracts@.contains(f) {
            Some(MarketErr::ContractNotApproved)
        } else if !self.has_item(c, t) {
            Some(MarketErr::ItemNotFound)
        } else if self.spec_item(c, t).owner != source {
            Some(MarketErr::NotOwner)
        } else if self.spec_item(c, t).auction is Some {
            Some(MarketErr::AuctionExists)
        } else if self.spec_item(c, t).price is Some {
            Some(MarketErr::AlreadyListed)
        } else if bid_period < MIN_BID_PERIOD || duration < MIN_BID_PERIOD || duration > u64::MAX
            - now {
            Some(MarketErr::InvalidPeriod)
        } else if min_price == 0 {
            Some(MarketErr::InvalidPrice)
        } else if self.spec_item(c, t).tx matches Some((id, k)) && k != (MarketTx::CreateAuction {
            ft_contract_id: ft,
            min_price,
            bid_period,
            duration,
        }) {
            Some(MarketErr::WrongTransaction)
        } else {
            None
        }
    }

    /// Open an auction: validate, record the saga, and ask for the asset
    /// to move into marketplace custody.  The auction itself starts when
    /// that escrow succeeds.
    pub fn create_auction(
        &mut self,
        ctx: &Ctx,
        nft_contract_id: ContractId,
        ft_contract_id: Option<ContractId>,
        token_id: TokenId,
        min_price: Price,
        bid_period: u64,
        duration: u64,
    ) -> (s: Step)
        requires
            old(self).wf(),
        ensures
            final(self).wf(),
            match old(self).spec_create_auction_err(
                nft_contract_id,
                ft_contract_id,
                token_id,
                min_price,
                bid_period,
                duration,
                ctx.source,
                ctx.block_timestamp,
            ) {
                Some(e) => s == Step::Failed(e) && *final(self) == *old(self),
                None => {
                    let c = nft_contract_id;
                    let t = token_id;
                    let it = old(self).spec_item(c, t);
                    let kind = (MarketTx::CreateAuction {
                        ft_contract_id,
                        min_price,
                        bid_period,
                        duration,
                    });
                    &&& s matches Step::AskTransfer(tr, TransferCont::CreateAuction(c2))
                    &&& c2 == (AuctionCont {
                        nft_contract_id: c,
                        token_id: t,
                        ft_contract_id,
                        min_price,
                        bid_period,
                        duration,
                        tx_id: c2.tx_id,
                    })
                    &&& tr == (Transfer::Asset {
                        tx_id: c2.tx_id,
                        nft_contract_id: c,
                        to: ctx.program_id,
                        token_id: t,
                    })
                    &&& match it.tx {
                        Some((id, k)) => c2.tx_id == id && *final(self) == *old(self),
                        None => {
                            &&& c2.tx_id == old(self).tx_id
                            &&& final(self).tx_id == old(self).tx_id.wrapping_add(1)
                            &&& Market::same_but_item(*old(self), *final(self), c, t)
                            &&& final(self).has_item(c, t)
                            &&& ({
                                let it1 = final(self).spec_item(c, t);
                                &&& it1.owner == it.owner
                                &&& it1.ft_contract_id == it.ft_contract_id
                                &&& it1.price == it.price
                                &&& it1.auction == it.auction
                                &&& it1.offers@ == it.offers@
                                &&& it1.tx == Some((c2.tx_id, kind))
                            })
                        },
                    }
                },
            },
    {
        if !self.check_approved_nft_contract(nft_contract_id) {
            return Step::Failed(MarketErr::ContractNotApproved);
        }
        if !self.check_approved_ft_contract(ft_contract_id) {
            return Step::Failed(MarketErr::ContractNotApproved);
        }
        let i = match self.find_item(nft_contract_id, token_id) {
            None => {
                return Step::Failed(MarketErr::ItemNotFound);
            },
            Some(i) => i,
        };
        proof {
            lemma_spec_item_is(*self, nft_contract_id, token_id, i as int);
        }
        let e = &self.items[i];
        if e.item.owner != ctx.source {
            return Step::Failed(MarketErr::NotOwner);
        }
        if e.item.auction.is_some() {
            return Step::Failed(MarketErr::AuctionExists);
        }
        if e.item.price.is_some() {
            return Step::Failed(MarketErr::AlreadyListed);
        }
        if bid_period < MIN_BID_PERIOD || duration < MIN_BID_PERIOD || duration > u64::MAX
            - ctx.block_timestamp {
            return Step::Failed(MarketErr::InvalidPeriod);
        }
        if min_price == 0 {
            return Step::Failed(MarketErr::InvalidPrice);
        }
        let owner0 = e.item.owner;
        let ft0 = e.item.ft_contract_id;
        let price0 = e.item.price;
        let auction0 = e.item.auction;
        let slot0 = e.item.tx;
        let kind = MarketTx::CreateAuction { ft_contract_id, min_price, bid_period, duration };
        let mut slot = slot0;
        let rb = begin_or_resume(&mut slot, &mut self.tx_id, kind, 1);
        let (txid, resumed) = match rb {
            Ok(v) => v,
            Err(er) => {
                return Step::Failed(er);
            },
        };
        if !resumed {
            self.rewrite_item(i, owner0, ft0, price0, auction0, slot);
            proof {
                let it1 = Item {
                    owner: owner0,
                    ft_contract_id: ft0,
                    price: price0,
                    auction: auction0,
                    offers: old(self).items@[i as int].item.offers,
                    tx: slot,
                };
                assert(it1.wf());
                lemma_set_item_effect(*old(self), *self, nft_contract_id, token_id, i as int, it1);
            }
        }
        Step::AskTransfer(
            Transfer::Asset {
                tx_id: txid,
                nft_contract_id,
                to: ctx.program_id,
                token_id,
            },
            TransferCont::CreateAuction(
                AuctionCont {
                    nft_contract_id,
                    token_id,
                    ft_contract_id,
                    min_price,
                    bid_period,
                    duration,
                    tx_id: txid,
                },
            ),
        )
    }

    /// Drive an auction creation by the escrow reply: on success the
    /// auction opens — lowest acceptable bid at the asked minimum, close a
    /// full duration away, no bidder yet; on failure the slot clears and
    /// the request may be retried from scratch.
    pub fn continue_create_auction(&mut self, cont: AuctionCont, ok: bool, ctx: &Ctx) -> (s: Step)
        requires
            old(self).wf(),
        ensures
            final(self).wf(),
            ({
                let c = cont.nft_contract_id;
                let t = cont.token_id;
                let kind = (MarketTx::CreateAuction {
                    ft_contract_id: cont.ft_contract_id,
                    min_price: cont.min_price,
                    bid_period: cont.bid_period,
                    duration: cont.duration,
                });
                if !old(self).has_item(c, t) {
                    s == Step::Failed(MarketErr::ItemNotFound) && *final(self) == *old(self)
                } else if old(self).spec_item(c, t).tx != Some((cont.tx_id, kind)) || cont.min_price
                    == 0 {
                    s == Step::Failed(MarketErr::WrongTransaction) && *final(self) == *old(self)
                } else if !ok {
                    crate::sale::slot_cleared(*old(self), *final(self), c, t) && s == Step::Failed(
                        MarketErr::TransferFailed,
                    )
                } else {
                    let it0 = old(self).spec_item(c, t);
                    let a1 = (Auction {
                        bid_period: cont.bid_period,
                        started_at: ctx.block_timestamp,
                        ended_at: sat_add(ctx.block_timestamp, cont.duration),
                        current_price: cont.min_price,
                        current_winner: NO_BIDDER,
                        pending_refund: None,
                    });
                    &&& s == Step::Done(
                        MarketEvent::AuctionCreated {
                            nft_contract_id: c,
                            token_id: t,
                            price: cont.min_price,
                        },
                    )
                    &&& Market::same_but_item(*old(self), *final(self), c, t)
                    &&& final(self).tx_id == old(self).tx_id
                    &&& final(self).has_item(c, t)
                    &&& ({
                        let it1 = final(self).spec_item(c, t);
                        &&& it1.owner == it0.owner
                        &&& it1.ft_contract_id == cont.ft_contract_id
                        &&& it1.price is None
                        &&& it1.auction == Some(a1)
                        &&& it1.offers@ == it0.offers@
                        &&& it1.tx is None
                    })
                }
            }),
    {
        let c = cont.nft_contract_id;
        let t = cont.token_id;
        let i = match self.find_item(c, t) {
            None => {
                return Step::Failed(MarketErr::ItemNotFound);
            },
            Some(i) => i,
        };
        proof {
            lemma_spec_item_is(*self, c, t, i as int);
        }
        let kind = MarketTx::CreateAuction {
            ft_contract_id: cont.ft_contract_id,
            min_price: cont.min_price,
            bid_period: cont.bid_period,
            duration: cont.duration,
        };
        let e = &self.items[i];
        let slot_ok = match &e.item.tx {
            Some((id, k)) => *id == cont.tx_id && tx_eq(k, &kind),
            None => false,
        };
        if !slot_ok || cont.min_price == 0 {
            return Step::Failed(MarketErr::WrongTransaction);
        }
        let owner0 = e.item.owner;
        let ft0 = e.item.ft_contract_id;
        let price0 = e.item.price;
        let auction0 = e.item.auction;
        if !ok {
            self.rewrite_item(i, owner0, ft0, price0, auction0, None);
            proof {
                let it1 = Item {
                    owner: owner0,
                    ft_contract_id: ft0,
                    price: price0,
                    auction: auction0,
                    offers: old(self).items@[i as int].item.offers,
                    tx: None,
                };
                assert(it1.wf());
                lemma_set_item_effect(*old(self), *self, c, t, i as int, it1);
            }
            return Step::Failed(MarketErr::TransferFailed);
        }
        let ended = if cont.duration > u64::MAX - ctx.block_timestamp {
            u64::MAX
        } else {
            ctx.block_timestamp + cont.duration
        };
        let a1 = Auction {
            bid_period: cont.bid_period,
            started_at: ctx.block_timestamp,
            ended_at: ended,
            current_price: cont.min_price,
            current_winner: NO_BIDDER,
            pending_refund: None,
        };
        self.rewrite_item(i, owner0, cont.ft_contract_id, None, Some(a1), None);
        proof {
            let it1 = Item {
                owner: owner0,
                ft_contract_id: cont.ft_contract_id,
                price: None,
                auction: Some(a1),
                offers: old(self).items@[i as int].item.offers,
                tx: None,
            };
            assert(a1.wf());
            assert(it1.wf());
            lemma_set_item_effect(*old(self), *self, c, t, i as int, it1);
        }
        Step::Done(
            MarketEvent::AuctionCreated { nft_contract_id: c, token_id: t, price: cont.min_price },
        )
    }

    /// Why a bid is turned away before any external step, if it is.
    pub open spec fn spec_bid_err(
        self,
        c: ContractId,
        t: TokenId,
        price: Price,
        source: ActorId,
        value: Price,
        now: u64,
    ) -> Option<MarketErr> {
        if !self.has_item(c, t) {
            Some(MarketErr::ItemNotFound)
        } else {
            let it = self.spec_item(c, t);
            if it.auction is None {
                Some(MarketErr::NoAuction)
            } else {
                let a = it.auction.unwrap();
                if now >= a.ended_at {
                    Some(MarketErr::AuctionEnded)
                } else if source == NO_BIDDER {
                    Some(MarketErr::InvalidBidder)
                } else if price <= a.current_price {
                    Some(MarketErr::PriceTooLow)
                } else if it.ft_contract_id is None && value != price {
                    Some(MarketErr::WrongAttachedValue)
                } else if it.tx matches Some((id, k)) && k != (MarketTx::Bid {
                    account: source,
                    price,
                }) {
                    Some(MarketErr::WrongTransaction)
                } else {
                    None
                }
            }
        }
    }

    /// Place a bid.
    ///
    /// A recorded refund from the previous displacement is paid first —
    /// the bid goes no further until it clears.  On a currency ledger the
    /// new bidder's funds are then pulled into custody before the lead
    /// changes; with native value the attached amount is the stake and the
    /// lead changes at once.
    pub fn add_bid(&mut self, ctx: &Ctx, nft_contract_id: ContractId, token_id: TokenId, price:
        Price) -> (s: Step)
        requires
            old(self).wf(),
        ensures
            final(self).wf(),
            match old(self).spec_bid_err(
                nft_contract_id,
                token_id,
                price,
                ctx.source,
                ctx.value,
                ctx.block_timestamp,
            ) {
                Some(e) => s == Step::Failed(e) && *final(self) == *old(self),
                None => {
                    let c = nft_contract_id;
                    let t = token_id;
                    let it = old(self).spec_item(c, t);
                    let a = it.auction.unwrap();
                    let kind = (MarketTx::Bid { account: ctx.source, price });
                    match a.pending_refund {
                        Some(r) => {
                            &&& s matches Step::AskTransfer(tr, TransferCont::Bid(c2))
                            &&& c2 == (BidCont {
                                nft_contract_id: c,
                                token_id: t,
                                bidder: ctx.source,
                                price,
                                tx_id: c2.tx_id,
                                stage: BidStage::Refund,
                            })
                            &&& tr == refund_call(it.ft_contract_id, r, ctx.program_id)
                            &&& Market::saga_started(
                                *old(self),
                                *final(self),
                                c,
                                t,
                                kind,
                                1,
                                c2.tx_id,
                            )
                        },
                        None => match it.ft_contract_id {
                            Some(f) => {
                                &&& s matches Step::AskTransfer(tr, TransferCont::Bid(c2))
                                &&& c2 == (BidCont {
                                    nft_contract_id: c,
                                    token_id: t,
                                    bidder: ctx.source,
                                    price,
                                    tx_id: c2.tx_id,
                                    stage: BidStage::Pull,
                                })
                                &&& tr == (Transfer::Currency {
                                    tx_id: c2.tx_id,
                                    ft_contract_id: f,
                                    sender: ctx.source,
                                    recipient: ctx.program_id,
                                    amount: price,
                                })
                                &&& Market::saga_started(
                                    *old(self),
                                    *final(self),
                                    c,
                                    t,
                                    kind,
                                    1,
                                    c2.tx_id,
                                )
                            },
                            None => {
                                &&& bid_applied(
                                    *old(self),
                                    *final(self),
                                    c,
                                    t,
                                    ctx.source,
                                    price,
                                    ctx.block_timestamp,
                                )
                                &&& s == Step::Done(
                                    MarketEvent::BidAdded {
                                        nft_contract_id: c,
                                        token_id: t,
                                        price,
                                    },
                                )
                            },
                        },
                    }
                },
            },
    {
        let c = nft_contract_id;
        let t = token_id;
        let i = match self.find_item(c, t) {
            None => {
                return Step::Failed(MarketErr::ItemNotFound);
            },
            Some(i) => i,
        };
        proof {
            lemma_spec_item_is(*self, c, t, i as int);
        }
        let e = &self.items[i];
        let a = match e.item.auction {
            Some(a) => a,
            None => {
                return Step::Failed(MarketErr::NoAuction);
            },
        };
        if ctx.block_timestamp >= a.ended_at {
            return Step::Failed(MarketErr::AuctionEnded);
        }
        if ctx.source == NO_BIDDER {
            return Step::Failed(MarketErr::InvalidBidder);
        }
        if price <= a.current_price {
            return Step::Failed(MarketErr::PriceTooLow);
        }
        let ft0 = e.item.ft_contract_id;
        if ft0.is_none() && ctx.value != price {
            return Step::Failed(MarketErr::WrongAttachedValue);
        }
        let owner0 = e.item.owner;
        let price0 = e.item.price;
        let auction0 = e.item.auction;
        let slot0 = e.item.tx;
        let kind = MarketTx::Bid { account: ctx.source, price };
        let slot_ok = match &e.item.tx {
            Some((_, k)) => tx_eq(k, &kind),
            None => true,
        };
        if !slot_ok {
            return Step::Failed(MarketErr::WrongTransaction);
        }
        match a.pending_refund {
            Some(r) => {
                let mut slot = slot0;
                let rb = begin_or_resume(&mut slot, &mut self.tx_id, kind, 1);
                let (txid, resumed) = match rb {
                    Ok(v) => v,
                    Err(er) => {
                        return Step::Failed(er);
                    },
                };
                if !resumed {
                    self.rewrite_item(i, owner0, ft0, price0, auction0, slot);
                    proof {
                        let it1 = Item {
                            owner: owner0,
                            ft_contract_id: ft0,
                            price: price0,
                            auction: auction0,
                            offers: old(self).items@[i as int].item.offers,
                            tx: slot,
                        };
                        assert(it1.wf());
                        lemma_set_item_effect(*old(self), *self, c, t, i as int, it1);
                    }
                }
                let tr = match ft0 {
                    Some(f) => Transfer::Currency {
                        tx_id: r.tx_id,
                        ft_contract_id: f,
                        sender: ctx.program_id,
                        recipient: r.account,
                        amount: r.amount,
                    },
                    None => Transfer::Native { to: r.account, amount: r.amount },
                };
                Step::AskTransfer(
                    tr,
                    TransferCont::Bid(
                        BidCont {
                            nft_contract_id: c,
                            token_id: t,
                            bidder: ctx.source,
                            price,
                            tx_id: txid,
                            stage: BidStage::Refund,
                        },
                    ),
                )
            },
            None => {
                match ft0 {
                    Some(f) => {
                        let mut slot = slot0;
                        let rb = begin_or_resume(&mut slot, &mut self.tx_id, kind, 1);
                        let (txid, resumed) = match rb {
                            Ok(v) => v,
                            Err(er) => {
                                return Step::Failed(er);
                            },
                        };
                        if !resumed {
                            self.rewrite_item(i, owner0, ft0, price0, auction0, slot);
                            proof {
                                let it1 = Item {
                                    owner: owner0,
                                    ft_contract_id: ft0,
                                    price: price0,
                                    auction: auction0,
                                    offers: old(self).items@[i as int].item.offers,
                                    tx: slot,
                                };
                                assert(it1.wf());
                                lemma_set_item_effect(*old(self), *self, c, t, i as int, it1);
                            }
                        }
                        Step::AskTransfer(
                            Transfer::Currency {
                                tx_id: txid,
                                ft_contract_id: f,
                                sender: ctx.source,
                                recipient: ctx.program_id,
                                amount: price,
                            },
                            TransferCont::Bid(
                                BidCont {
                                    nft_contract_id: c,
                                    token_id: t,
                                    bidder: ctx.source,
                                    price,
                                    tx_id: txid,
                                    stage: BidStage::Pull,
                                },
                            ),
                        )
                    },
                    None => {
                        self.commit_bid(i, ctx.source, price, ctx.block_timestamp);
                        Step::Done(
                            MarketEvent::BidAdded { nft_contract_id: c, token_id: t, price },
                        )
                    },
                }
            },
        }
    }

    /// Drive a bid one step further on the reply to its last external
    /// call: once the old refund has cleared the bid proceeds (pulling
    /// funds on a currency ledger, taking the lead at once with native
    /// value); once the pull lands the lead changes and the displaced
    /// stake becomes the new pending refund.  A failed call rolls the bid
    /// back — the refund, if any, stays recorded for the next attempt.
    pub fn continue_bid(&mut self, cont: BidCont, ok: bool, ctx: &Ctx) -> (s: Step)
        requires
            old(self).wf(),
        ensures
            final(self).wf(),
            ({
                let c = cont.nft_contract_id;
                let t = cont.token_id;
                let kind = (MarketTx::Bid { account: cont.bidder, price: cont.price });
                if !old(self).has_item(c, t) {
                    s == Step::Failed(MarketErr::ItemNotFound) && *final(self) == *old(self)
                } else {
                    let it = old(self).spec_item(c, t);
                    if it.tx != Some((cont.tx_id, kind)) || it.auction is None || cont.bidder
                        == NO_BIDDER {
                        s == Step::Failed(MarketErr::WrongTransaction) && *final(self) == *old(
                            self,
                        )
                    } else {
                        let a = it.auction.unwrap();
                        match cont.stage {
                            BidStage::Refund => {
                                if a.pending_refund is None || cont.price <= a.current_price {
                                    s == Step::Failed(MarketErr::WrongTransaction) && *final(self)
                                        == *old(self)
                                } else if !ok {
                                    crate::sale::slot_cleared(*old(self), *final(self), c, t) && s
                                        == Step::Failed(MarketErr::TransferFailed)
                                } else {
                                    match it.ft_contract_id {
                                        Some(f) => {
                                            &&& refund_cleared(*old(self), *final(self), c, t)
                                            &&& s matches Step::AskTransfer(
                                                tr,
                                                TransferCont::Bid(c2),
                                            )
                                            &&& c2 == (BidCont {
                                                nft_contract_id: c,
                                                token_id: t,
                                                bidder: cont.bidder,
                                                price: cont.price,
                                                tx_id: cont.tx_id,
                                                stage: BidStage::Pull,
                                            })
                                            &&& tr == (Transfer::Currency {
                                                tx_id: cont.tx_id,
                                                ft_contract_id: f,
                                                sender: cont.bidder,
                                                recipient: ctx.program_id,
                                                amount: cont.price,
                                            })
                                        },
                                        None => {
                                            &&& bid_applied(
                                                *old(self),
                                                *final(self),
                                                c,
                                                t,
                                                cont.bidder,
                                                cont.price,
                                                ctx.block_timestamp,
                                            )
                                            &&& s == Step::Done(
                                                MarketEvent::BidAdded {
                                                    nft_contract_id: c,
                                                    token_id: t,
                                                    price: cont.price,
                                                },
                                            )
                                        },
                                    }
                                }
                            },
                            BidStage::Pull => {
                                if it.ft_contract_id is None || a.pending_refund is Some
                                    || cont.price <= a.current_price {
                                    s == Step::Failed(MarketErr::WrongTransaction) && *final(self)
                                        == *old(self)
                                } else if !ok {
                                    crate::sale::slot_cleared(*old(self), *final(self), c, t) && s
                                        == Step::Failed(MarketErr::TransferFailed)
                                } else {
                                    &&& bid_applied(
                                        *old(self),
                                        *final(self),
                                        c,
                                        t,
                                        cont.bidder,
                                        cont.price,
                                        ctx.block_timestamp,
                                    )
                                    &&& s == Step::Done(
                                        MarketEvent::BidAdded {
                                            nft_contract_id: c,
                                            token_id: t,
                                            price: cont.price,
                                        },
                                    )
                                }
                            },
                        }
                    }
                }
            }),
    {
        let c = cont.nft_contract_id;
        let t = cont.token_id;
        let i = match self.find_item(c, t) {
            None => {
                return Step::Failed(MarketErr::ItemNotFound);
            },
            Some(i) => i,
        };
        proof {
            lemma_spec_item_is(*self, c, t, i as int);
        }
        let kind = MarketTx::Bid { account: cont.bidder, price: cont.price };
        let e = &self.items[i];
        let slot_ok = match &e.item.tx {
            Some((id, k)) => *id == cont.tx_id && tx_eq(k, &kind),
            None => false,
        };
        let a = match e.item.auction {
            Some(a) => a,
            None => {
                return Step::Failed(MarketErr::WrongTransaction);
            },
        };
        if !slot_ok || cont.bidder == NO_BIDDER {
            return Step::Failed(MarketErr::WrongTransaction);
        }
        let owner0 = e.item.owner;
        let ft0 = e.item.ft_contract_id;
        let price0 = e.item.price;
        let auction0 = e.item.auction;
        match cont.stage {
            BidStage::Refund => {
                if a.pending_refund.is_none() || cont.price <= a.current_price {
                    return Step::Failed(MarketErr::WrongTransaction);
                }
                if !ok {
                    self.rewrite_item(i, owner0, ft0, price0, auction0, None);
                    proof {
                        let it1 = Item {
                            owner: owner0,
                            ft_contract_id: ft0,
                            price: price0,
                            auction: auction0,
                            offers: old(self).items@[i as int].item.offers,
                            tx: None,
                        };
                        assert(it1.wf());
                        lemma_set_item_effect(*old(self), *self, c, t, i as int, it1);
                    }
                    return Step::Failed(MarketErr::TransferFailed);
                }
                let a1 = Auction {
                    bid_period: a.bid_period,
                    started_at: a.started_at,
                    ended_at: a.ended_at,
                    current_price: a.current_price,
                    current_winner: a.current_winner,
                    pending_refund: None,
                };
                match ft0 {
                    Some(f) => {
                        let slot0 = e.item.tx;
                        self.rewrite_item(i, owner0, ft0, price0, Some(a1), slot0);
                        proof {
                            let it1 = Item {
                                owner: owner0,
                                ft_contract_id: ft0,
                                price: price0,
                                auction: Some(a1),
                                offers: old(self).items@[i as int].item.offers,
                                tx: slot0,
                            };
                            assert(a1.wf());
                            assert(it1.wf());
                            lemma_set_item_effect(*old(self), *self, c, t, i as int, it1);
                        }
                        Step::AskTransfer(
                            Transfer::Currency {
                                tx_id: cont.tx_id,
                                ft_contract_id: f,
                                sender: cont.bidder,
                                recipient: ctx.program_id,
                                amount: cont.price,
                            },
                            TransferCont::Bid(
                                BidCont {
                                    nft_contract_id: c,
                                    token_id: t,
                                    bidder: cont.bidder,
                                    price: cont.price,
                                    tx_id: cont.tx_id,
                                    stage: BidStage::Pull,
                                },
                            ),
                        )
                    },
                    None => {
                        self.rewrite_item(i, owner0, ft0, price0, Some(a1), None);
                        proof {
                            let it1 = Item {
                                owner: owner0,
                                ft_contract_id: ft0,
                                price: price0,
                                auction: Some(a1),
                                offers: old(self).items@[i as int].item.offers,
                                tx: None,
                            };
                            assert(a1.wf());
                            assert(it1.wf());
                            lemma_set_item_effect(*old(self), *self, c, t, i as int, it1);
                        }
                        let ghost m_mid = *self;
                        self.commit_bid(i, cont.bidder, cont.price, ctx.block_timestamp);
                        proof {
                            assert(bid_applied(
                                m_mid,
                                *self,
                                c,
                                t,
                                cont.bidder,
                                cont.price,
                                ctx.block_timestamp,
                            ));
                            assert(bid_applied(
                                *old(self),
                                *self,
                                c,
                                t,
                                cont.bidder,
                                cont.price,
                                ctx.block_timestamp,
                            ));
                        }
                        Step::Done(
                            MarketEvent::BidAdded {
                                nft_contract_id: c,
                                token_id: t,
                                price: cont.price,
                            },
                        )
                    },
                }
            },
            BidStage::Pull => {
                if ft0.is_none() || a.pending_refund.is_some() || cont.price <= a.current_price {
                    return Step::Failed(MarketErr::WrongTransaction);
                }
                if !ok {
                    self.rewrite_item(i, owner0, ft0, price0, auction0, None);
                    proof {
                        let it1 = Item {
                            owner: owner0,
                            ft_contract_id: ft0,
                            price: price0,
                            auction: auction0,
                            offers: old(self).items@[i as int].item.offers,
                            tx: None,
                        };
                        assert(it1.wf());
                        lemma_set_item_effect(*old(self), *self, c, t, i as int, it1);
                    }
                    return Step::Failed(MarketErr::TransferFailed);
                }
                self.commit_bid(i, cont.bidder, cont.price, ctx.block_timestamp);
                Step::Done(
                    MarketEvent::BidAdded { nft_contract_id: c, token_id: t, price: cont.price },
                )
            },
        }
    }

    /// Enter the next settlement phase for the listing at slot `i`: pay
    /// the recorded refund, return the asset of a bidless auction, or ask
    /// for the winner's royalty split.
    fn settle_phase(&mut self, i: usize, ctx: &Ctx) -> (s: Step)
        requires
            old(self).wf(),
            i < old(self).items@.len(),
            old(self).items@[i as int].item.auction is Some,
            (old(self).items@[i as int].item.tx matches Some((id, k)) ==> k
                == MarketTx::SettleAuction),
        ensures
            final(self).wf(),
            settle_phase_spec(
                *old(self),
                *final(self),
                old(self).items@[i as int].nft_contract_id,
                old(self).items@[i as int].token_id,
                *ctx,
                s,
            ),
    {
        let e = &self.items[i];
        let c = e.nft_contract_id;
        let t = e.token_id;
        proof {
            lemma_spec_item_is(*self, c, t, i as int);
        }
        let a = match e.item.auction {
            Some(a) => a,
            None => {
                proof {
                    assert(false);
                }
                return Step::Failed(MarketErr::NoAuction);
            },
        };
        let owner0 = e.item.owner;
        let ft0 = e.item.ft_contract_id;
        let price0 = e.item.price;
        let auction0 = e.item.auction;
        let slot0 = e.item.tx;
        match a.pending_refund {
            Some(r) => {
                let tr = match ft0 {
                    Some(f) => Transfer::Currency {
                        tx_id: r.tx_id,
                        ft_contract_id: f,
                        sender: ctx.program_id,
                        recipient: r.account,
                        amount: r.amount,
                    },
                    None => Transfer::Native { to: r.account, amount: r.amount },
                };
                Step::AskTransfer(
                    tr,
                    TransferCont::Settle(
                        SettleCont {
                            nft_contract_id: c,
                            token_id: t,
                            winner: a.current_winner,
                            price: a.current_price,
                            payouts: Vec::new(),
                            tx_id: r.tx_id,
                            stage: SettleStage::Refund,
                        },
                    ),
                )
            },
            None => {
                if a.current_winner == NO_BIDDER {
                    let mut slot = slot0;
                    let rb = begin_or_resume(
                        &mut slot,
                        &mut self.tx_id,
                        MarketTx::SettleAuction,
                        1,
                    );
                    let (txid, resumed) = match rb {
                        Ok(v) => v,
                        Err(_) => {
                            proof {
                                assert(false);
                            }
                            return Step::Failed(MarketErr::WrongTransaction);
                        },
                    };
                    if !resumed {
                        self.rewrite_item(i, owner0, ft0, price0, auction0, slot);
                        proof {
                            let it1 = Item {
                                owner: owner0,
                                ft_contract_id: ft0,
                                price: price0,
                                auction: auction0,
                                offers: old(self).items@[i as int].item.offers,
                                tx: slot,
                            };
                            assert(it1.wf());
                            lemma_set_item_effect(*old(self), *self, c, t, i as int, it1);
                        }
                    }
                    Step::AskTransfer(
                        Transfer::Asset {
                            tx_id: txid,
                            nft_contract_id: c,
                            to: owner0,
                            token_id: t,
                        },
                        TransferCont::Settle(
                            SettleCont {
                                nft_contract_id: c,
                                token_id: t,
                                winner: NO_BIDDER,
                                price: a.current_price,
                                payouts: Vec::new(),
                                tx_id: txid,
                                stage: SettleStage::CancelAsset,
                            },
                        ),
                    )
                } else {
                    let fee = treasury_fee_of(a.current_price, self.treasury_fee);
                    Step::AskPayouts(
                        PayoutQuery {
                            nft_contract_id: c,
                            seller: owner0,
                            amount: a.current_price - fee,
                        },
                        PayoutCont::Settle(
                            SettlePayoutCont {
                                nft_contract_id: c,
                                token_id: t,
                                winner: a.current_winner,
                                price: a.current_price,
                                fee,
                            },
                        ),
                    )
                }
            },
        }
    }

    /// Why a settlement request is turned away at once, if it is.
    pub open spec fn spec_settle_err(self, c: ContractId, t: TokenId, now: u64) -> Option<
        MarketErr,
    > {
        if !self.has_item(c, t) {
            Some(MarketErr::ItemNotFound)
        } else {
            let it = self.spec_item(c, t);
            if it.auction is None {
                Some(MarketErr::NoAuction)
            } else if now < it.auction.unwrap().ended_at {
                Some(MarketErr::AuctionNotEnded)
            } else if it.tx matches Some((id, k)) && !(k is Bid) && !(k is SettleAuction) {
                Some(MarketErr::WrongTransaction)
            } else {
                None
            }
        }
    }

    /// Settle a closed auction.
    ///
    /// A bid saga left stuck on the listing is finished or abandoned
    /// first; any recorded refund is paid next; only then does the auction
    /// finalize — cancelled (asset home) with no bid on the board, or
    /// settled through payout disbursement and release to the winner.
    pub fn settle_auction(&mut self, ctx: &Ctx, nft_contract_id: ContractId, token_id: TokenId) -> (
        s: Step)
        requires
            old(self).wf(),
        ensures
            final(self).wf(),
            match old(self).spec_settle_err(nft_contract_id, token_id, ctx.block_timestamp) {
                Some(e) => s == Step::Failed(e) && *final(self) == *old(self),
                None => {
                    let c = nft_contract_id;
                    let t = token_id;
                    let it = old(self).spec_item(c, t);
                    let a = it.auction.unwrap();
                    match it.tx {
                        Some((id, k)) => match k {
                            MarketTx::Bid { account, price } => {
                                if account == NO_BIDDER {
                                    s == Step::Failed(MarketErr::WrongTransaction) && *final(self)
                                        == *old(self)
                                } else {
                                    match it.ft_contract_id {
                                        Some(f) => {
                                            &&& *final(self) == *old(self)
                                            &&& s matches Step::AskTransfer(
                                                tr,
                                                TransferCont::Settle(c2),
                                            )
                                            &&& c2.nft_contract_id == c
                                            &&& c2.token_id == t
                                            &&& c2.winner == a.current_winner
                                            &&& c2.price == a.current_price
                                            &&& c2.tx_id == id
                                            &&& c2.stage == (SettleStage::StuckBid {
                                                bidder: account,
                                                price,
                                            })
                                            &&& c2.payouts@.len() == 0
                                            &&& tr == (Transfer::Currency {
                                                tx_id: id,
                                                ft_contract_id: f,
                                                sender: account,
                                                recipient: ctx.program_id,
                                                amount: price,
                                            })
                                        },
                                        None => match a.pending_refund {
                                            Some(r) => {
                                                &&& *final(self) == *old(self)
                                                &&& s matches Step::AskTransfer(
                                                    tr,
                                                    TransferCont::Settle(c2),
                                                )
                                                &&& c2.nft_contract_id == c
                                                &&& c2.token_id == t
                                                &&& c2.winner == a.current_winner
                                                &&& c2.price == a.current_price
                                                &&& c2.tx_id == id
                                                &&& c2.stage == (SettleStage::StuckBid {
                                                    bidder: account,
                                                    price,
                                                })
                                                &&& c2.payouts@.len() == 0
                                                &&& tr == (Transfer::Native {
                                                    to: r.account,
                                                    amount: r.amount,
                                                })
                                            },
                                            None => exists|m_mid: Market|
                                                {
                                                    &&& #[trigger] crate::sale::slot_cleared(
                                                        *old(self),
                                                        m_mid,
                                                        c,
                                                        t,
                                                    )
                                                    &&& settle_phase_spec(
                                                        m_mid,
                                                        *final(self),
                                                        c,
                                                        t,
                                                        *ctx,
                                                        s,
                                                    )
                                                },
                                        },
                                    }
                                }
                            },
                            _ => settle_phase_spec(*old(self), *final(self), c, t, *ctx, s),
                        },
                        None => settle_phase_spec(*old(self), *final(self), c, t, *ctx, s),
                    }
                },
            },
    {
        let c = nft_contract_id;
        let t = token_id;
        let i = match self.find_item(c, t) {
            None => {
                return Step::Failed(MarketErr::ItemNotFound);
            },
            Some(i) => i,
        };
        proof {
            lemma_spec_item_is(*self, c, t, i as int);
        }
        let e = &self.items[i];
        let a = match e.item.auction {
            Some(a) => a,
            None => {
                return Step::Failed(MarketErr::NoAuction);
            },
        };
        if ctx.block_timestamp < a.ended_at {
            return Step::Failed(MarketErr::AuctionNotEnded);
        }
        let owner0 = e.item.owner;
        let ft0 = e.item.ft_contract_id;
        let price0 = e.item.price;
        let auction0 = e.item.auction;
        match e.item.tx {
            Some((id, MarketTx::Bid { account, price })) => {
                if account == NO_BIDDER {
                    return Step::Failed(MarketErr::WrongTransaction);
                }
                match ft0 {
                    Some(f) => Step::AskTransfer(
                        Transfer::Currency {
                            tx_id: id,
                            ft_contract_id: f,
                            sender: account,
                            recipient: ctx.program_id,
                            amount: price,
                        },
                        TransferCont::Settle(
                            SettleCont {
                                nft_contract_id: c,
                                token_id: t,
                                winner: a.current_winner,
                                price: a.current_price,
                                payouts: Vec::new(),
                                tx_id: id,
                                stage: SettleStage::StuckBid { bidder: account, price },
                            },
                        ),
                    ),
                    None => match a.pending_refund {
                        Some(r) => Step::AskTransfer(
                            Transfer::Native { to: r.account, amount: r.amount },
                            TransferCont::Settle(
                                SettleCont {
                                    nft_contract_id: c,
                                    token_id: t,
                                    winner: a.current_winner,
                                    price: a.current_price,
                                    payouts: Vec::new(),
                                    tx_id: id,
                                    stage: SettleStage::StuckBid { bidder: account, price },
                                },
                            ),
                        ),
                        None => {
                            self.rewrite_item(i, owner0, ft0, price0, auction0, None);
                            proof {
                                let it1 = Item {
                                    owner: owner0,
                                    ft_contract_id: ft0,
                                    price: price0,
                                    auction: auction0,
                                    offers: old(self).items@[i as int].item.offers,
                                    tx: None,
                                };
                                assert(it1.wf());
                                lemma_set_item_effect(*old(self), *self, c, t, i as int, it1);
                            }
                            let ghost m_mid = *self;
                            let s = self.settle_phase(i, ctx);
                            proof {
                                assert(crate::sale::slot_cleared(*old(self), m_mid, c, t));
                            }
                            s
                        },
                    },
                }
            },
            Some((id, MarketTx::SettleAuction)) => self.settle_phase(i, ctx),
            Some(_) => Step::Failed(MarketErr::WrongTransaction),
            None => self.settle_phase(i, ctx),
        }
    }

    /// Start (or resume) the disbursement tail of a settlement once the
    /// winner's royalty split is in hand: record the saga — one id per
    /// payee and one for the asset's release — and emit the first call.
    pub fn settle_with_payouts(
        &mut self,
        cont: SettlePayoutCont,
        payouts: Vec<Payout>,
        ctx: &Ctx,
    ) -> (s: Step)
        requires
            old(self).wf(),
        ensures
            final(self).wf(),
            ({
                let c = cont.nft_contract_id;
                let t = cont.token_id;
                if !old(self).has_item(c, t) {
                    s == Step::Failed(MarketErr::ItemNotFound) && *final(self) == *old(self)
                } else {
                    let it = old(self).spec_item(c, t);
                    let good = {
                        &&& it.auction is Some
                        &&& it.auction.unwrap().current_winner == cont.winner
                        &&& it.auction.unwrap().current_price == cont.price
                        &&& cont.winner != NO_BIDDER
                        &&& it.auction.unwrap().pending_refund is None
                        &&& (it.tx matches Some((id, k)) ==> k == MarketTx::SettleAuction)
                    };
                    if !good {
                        s == Step::Failed(MarketErr::WrongTransaction) && *final(self) == *old(
                            self,
                        )
                    } else {
                        &&& s matches Step::AskTransfer(tr, TransferCont::Settle(c2))
                        &&& c2.nft_contract_id == c
                        &&& c2.token_id == t
                        &&& c2.winner == cont.winner
                        &&& c2.price == cont.price
                        &&& upserted(payouts@, old(self).treasury_id, cont.fee, c2.payouts@)
                        &&& Market::saga_started(
                            *old(self),
                            *final(self),
                            c,
                            t,
                            MarketTx::SettleAuction,
                            (c2.payouts@.len() as u64).wrapping_add(1),
                            c2.tx_id,
                        )
                        &&& settle_disburse_step(c2, it.ft_contract_id, ctx.program_id, 0, s)
                    }
                }
            }),
    {
        let c = cont.nft_contract_id;
        let t = cont.token_id;
        let i = match self.find_item(c, t) {
            None => {
                return Step::Failed(MarketErr::ItemNotFound);
            },
            Some(i) => i,
        };
        proof {
            lemma_spec_item_is(*self, c, t, i as int);
        }
        let e = &self.items[i];
        let a = match e.item.auction {
            Some(a) => a,
            None => {
                return Step::Failed(MarketErr::WrongTransaction);
            },
        };
        let slot_fits = match &e.item.tx {
            Some((_, k)) => tx_eq(k, &MarketTx::SettleAuction),
            None => true,
        };
        if a.current_winner != cont.winner || a.current_price != cont.price || cont.winner
            == NO_BIDDER || a.pending_refund.is_some() || !slot_fits {
            return Step::Failed(MarketErr::WrongTransaction);
        }
        let owner0 = e.item.owner;
        let ft0 = e.item.ft_contract_id;
        let price0 = e.item.price;
        let auction0 = e.item.auction;
        let slot0 = e.item.tx;
        let mut payouts2 = payouts;
        crate::sale::add_treasury(&mut payouts2, self.treasury_id, cont.fee);
        let reserve = (payouts2.len() as u64).wrapping_add(1);
        let mut slot = slot0;
        let rb = begin_or_resume(&mut slot, &mut self.tx_id, MarketTx::SettleAuction, reserve);
        let (txid, resumed) = match rb {
            Ok(v) => v,
            Err(_) => {
                proof {
                    assert(false);
                }
                return Step::Failed(MarketErr::WrongTransaction);
            },
        };
        if !resumed {
            self.rewrite_item(i, owner0, ft0, price0, auction0, slot);
            proof {
                let it1 = Item {
                    owner: owner0,
                    ft_contract_id: ft0,
                    price: price0,
                    auction: auction0,
                    offers: old(self).items@[i as int].item.offers,
                    tx: slot,
                };
                assert(it1.wf());
                lemma_set_item_effect(*old(self), *self, c, t, i as int, it1);
            }
        }
        settle_next_step(
            SettleCont {
                nft_contract_id: c,
                token_id: t,
                winner: cont.winner,
                price: cont.price,
                payouts: payouts2,
                tx_id: txid,
                stage: SettleStage::AssetOut,
            },
            ft0,
            ctx.program_id,
            0,
        )
    }

    /// Drive a settlement one step further on the reply to its last
    /// external call.  A stuck bid is finished or abandoned and the
    /// settlement re-enters its phases; a paid refund is struck off; from
    /// the first disbursement on, failure keeps the slot and demands the
    /// identical request again.
    pub fn continue_settle(&mut self, cont: SettleCont, ok: bool, ctx: &Ctx) -> (s: Step)
        requires
            old(self).wf(),
        ensures
            final(self).wf(),
            ({
                let c = cont.nft_contract_id;
                let t = cont.token_id;
                let n = cont.payouts@.len() as int;
                if !old(self).has_item(c, t) {
                    s == Step::Failed(MarketErr::ItemNotFound) && *final(self) == *old(self)
                } else {
                    let it = old(self).spec_item(c, t);
                    if it.auction is None {
                        s == Step::Failed(MarketErr::WrongTransaction) && *final(self) == *old(
                            self,
                        )
                    } else {
                        let a = it.auction.unwrap();
                        match cont.stage {
                            SettleStage::StuckBid { bidder, price } => {
                                if it.tx != Some(
                                    (cont.tx_id, MarketTx::Bid { account: bidder, price }),
                                ) || bidder == NO_BIDDER {
                                    s == Step::Failed(MarketErr::WrongTransaction) && *final(self)
                                        == *old(self)
                                } else {
                                    match it.ft_contract_id {
                                        Some(f) => {
                                            if ok && price > a.current_price
                                                && a.pending_refund is None {
                                                exists|m_mid: Market|
                                                    {
                                                        &&& #[trigger] bid_applied(
                                                            *old(self),
                                                            m_mid,
                                                            c,
                                                            t,
                                                            bidder,
                                                            price,
                                                            ctx.block_timestamp,
                                                        )
                                                        &&& settle_phase_spec(
                                                            m_mid,
                                                            *final(self),
                                                            c,
                                                            t,
                                                            *ctx,
                                                            s,
                                                        )
                                                    }
                                            } else {
                                                exists|m_mid: Market|
                                                    {
                                                        &&& #[trigger] crate::sale::slot_cleared(
                                                            *old(self),
                                                            m_mid,
                                                            c,
                                                            t,
                                                        )
                                                        &&& settle_phase_spec(
                                                            m_mid,
                                                            *final(self),
                                                            c,
                                                            t,
                                                            *ctx,
                                                            s,
                                                        )
                                                    }
                                            }
                                        },
                                        None => match a.pending_refund {
                                            Some(r) => {
                                                if !ok {
                                                    s == Step::Failed(MarketErr::TransferFailed)
                                                        && *final(self) == *old(self)
                                                } else if price > a.current_price {
                                                    exists|m1: Market|
                                                        {
                                                            &&& #[trigger] refund_cleared(
                                                                *old(self),
                                                                m1,
                                                                c,
                                                                t,
                                                            )
                                                            &&& exists|m2: Market|
                                                                {
                                                                    &&& #[trigger] bid_applied(
                                                                        m1,
                                                                        m2,
                                                                        c,
                                                                        t,
                                                                        bidder,
                                                                        price,
                                                                        ctx.block_timestamp,
                                                                    )
                                                                    &&& settle_phase_spec(
                                                                        m2,
                                                                        *final(self),
                                                                        c,
                                                                        t,
                                                                        *ctx,
                                                                        s,
                                                                    )
                                                                }
                                                        }
                                                } else {
                                                    exists|m1: Market|
                                                        {
                                                            &&& #[trigger] refund_cleared(
                                                                *old(self),
                                                                m1,
                                                                c,
                                                                t,
                                                            )
                                                            &&& exists|m2: Market|
                                                                {
                                                                    &&& #[trigger] crate::sale::slot_cleared(
                                                                        m1,
                                                                        m2,
                                                                        c,
                                                                        t,
                                                                    )
                                                                    &&& settle_phase_spec(
                                                                        m2,
                                                                        *final(self),
                                                                        c,
                                                                        t,
                                                                        *ctx,
                                                                        s,
                                                                    )
                                                                }
                                                        }
                                                }
                                            },
                                            None => exists|m_mid: Market|
                                                {
                                                    &&& #[trigger] crate::sale::slot_cleared(
                                                        *old(self),
                                                        m_mid,
                                                        c,
                                                        t,
                                                    )
                                                    &&& settle_phase_spec(
                                                        m_mid,
                                                        *final(self),
                                                        c,
                                                        t,
                                                        *ctx,
                                                        s,
                                                    )
                                                },
                                        },
                                    }
                                }
                            },
                            SettleStage::Refund => {
                                let refund_fits = {
                                    &&& a.pending_refund matches Some(r)
                                    &&& a.pending_refund.unwrap().tx_id == cont.tx_id
                                    &&& (it.tx matches Some((id, k)) ==> k
                                        == MarketTx::SettleAuction)
                                };
                                if !refund_fits {
                                    s == Step::Failed(MarketErr::WrongTransaction) && *final(self)
                                        == *old(self)
                                } else if !ok {
                                    s == Step::Failed(MarketErr::TransferFailed) && *final(self)
                                        == *old(self)
                                } else {
                                    exists|m_mid: Market|
                                        {
                                            &&& #[trigger] refund_cleared(*old(self), m_mid, c, t)
                                            &&& settle_phase_spec(
                                                m_mid,
                                                *final(self),
                                                c,
                                                t,
                                                *ctx,
                                                s,
                                            )
                                        }
                                }
                            },
                            SettleStage::CancelAsset => {
                                let fits = {
                                    &&& it.tx == Some((cont.tx_id, MarketTx::SettleAuction))
                                    &&& a.current_winner == NO_BIDDER
                                    &&& a.pending_refund is None
                                };
                                if !fits {
                                    s == Step::Failed(MarketErr::WrongTransaction) && *final(self)
                                        == *old(self)
                                } else if ok {
                                    auction_cancelled(*old(self), *final(self), c, t) && s
                                        == Step::Done(
                                        MarketEvent::AuctionCancelled {
                                            nft_contract_id: c,
                                            token_id: t,
                                        },
                                    )
                                } else {
                                    s == Step::Failed(MarketErr::RerunTransaction) && *final(self)
                                        == *old(self)
                                }
                            },
                            SettleStage::Disburse(j0) => {
                                let j = j0 as int;
                                let fits = {
                                    &&& it.tx == Some((cont.tx_id, MarketTx::SettleAuction))
                                    &&& a.current_winner == cont.winner
                                    &&& cont.winner != NO_BIDDER
                                    &&& a.pending_refund is None
                                    &&& j < n
                                };
                                if !fits {
                                    s == Step::Failed(MarketErr::WrongTransaction) && *final(self)
                                        == *old(self)
                                } else if !ok {
                                    s == Step::Failed(MarketErr::RerunTransaction) && *final(self)
                                        == *old(self)
                                } else {
                                    *final(self) == *old(self) && settle_disburse_step(
                                        cont,
                                        it.ft_contract_id,
                                        ctx.program_id,
                                        j + 1,
                                        s,
                                    )
                                }
                            },
                            SettleStage::AssetOut => {
                                let fits = {
                                    &&& it.tx == Some((cont.tx_id, MarketTx::SettleAuction))
                                    &&& a.current_winner == cont.winner
                                    &&& cont.winner != NO_BIDDER
                                    &&& a.pending_refund is None
                                };
                                if !fits {
                                    s == Step::Failed(MarketErr::WrongTransaction) && *final(self)
                                        == *old(self)
                                } else if ok {
                                    auction_settled(*old(self), *final(self), c, t, cont.winner)
                                        && s == Step::Done(
                                        MarketEvent::AuctionSettled {
                                            nft_contract_id: c,
                                            token_id: t,
                                            price: cont.price,
                                        },
                                    )
                                } else {
                                    s == Step::Failed(MarketErr::RerunTransaction) && *final(self)
                                        == *old(self)
                                }
                            },
                        }
                    }
                }
            }),
    {
        let c = cont.nft_contract_id;
        let t = cont.token_id;
        let i = match self.find_item(c, t) {
            None => {
                return Step::Failed(MarketErr::ItemNotFound);
            },
            Some(i) => i,
        };
        proof {
            lemma_spec_item_is(*self, c, t, i as int);
        }
        let e = &self.items[i];
        let a = match e.item.auction {
            Some(a) => a,
            None => {
                return Step::Failed(MarketErr::WrongTransaction);
            },
        };
        let owner0 = e.item.owner;
        let ft0 = e.item.ft_contract_id;
        let price0 = e.item.price;
        let auction0 = e.item.auction;
        let n = cont.payouts.len();
        match cont.stage {
            SettleStage::StuckBid { bidder, price } => {
                let bid_kind = MarketTx::Bid { account: bidder, price };
                let slot_ok = match &e.item.tx {
                    Some((id, k)) => *id == cont.tx_id && tx_eq(k, &bid_kind),
                    None => false,
                };
                if !slot_ok || bidder == NO_BIDDER {
                    return Step::Failed(MarketErr::WrongTransaction);
                }
                match ft0 {
                    Some(_) => {
                        if ok && price > a.current_price && a.pending_refund.is_none() {
                            self.commit_bid(i, bidder, price, ctx.block_timestamp);
                            let ghost m_mid = *self;
                            let s = self.settle_phase(i, ctx);
                            proof {
                                assert(bid_applied(
                                    *old(self),
                                    m_mid,
                                    c,
                                    t,
                                    bidder,
                                    price,
                                    ctx.block_timestamp,
                                ));
                            }
                            s
                        } else {
                            self.rewrite_item(i, owner0, ft0, price0, auction0, None);
                            proof {
                                let it1 = Item {
                                    owner: owner0,
                                    ft_contract_id: ft0,
                                    price: price0,
                                    auction: auction0,
                                    offers: old(self).items@[i as int].item.offers,
                                    tx: None,
                                };
                                assert(it1.wf());
                                lemma_set_item_effect(*old(self), *self, c, t, i as int, it1);
                            }
                            let ghost m_mid = *self;
                            let s = self.settle_phase(i, ctx);
                            proof {
                                assert(crate::sale::slot_cleared(*old(self), m_mid, c, t));
                            }
                            s
                        }
                    },
                    None => {
                        match a.pending_refund {
                            Some(_) => {
                                if !ok {
                                    return Step::Failed(MarketErr::TransferFailed);
                                }
                                let a1 = Auction {
                                    bid_period: a.bid_period,
                                    started_at: a.started_at,
                                    ended_at: a.ended_at,
                                    current_price: a.current_price,
                                    current_winner: a.current_winner,
                                    pending_refund: None,
                                };
                                let slot0 = e.item.tx;
                                self.rewrite_item(i, owner0, ft0, price0, Some(a1), slot0);
                                proof {
                                    let it1 = Item {
                                        owner: owner0,
                                        ft_contract_id: ft0,
                                        price: price0,
                                        auction: Some(a1),
                                        offers: old(self).items@[i as int].item.offers,
                                        tx: slot0,
                                    };
                                    assert(a1.wf());
                                    assert(it1.wf());
                                    lemma_set_item_effect(*old(self), *self, c, t, i as int, it1);
                                }
                                let ghost m1 = *self;
                                if price > a.current_price {
                                    self.commit_bid(i, bidder, price, ctx.block_timestamp);
                                    let ghost m2 = *self;
                                    let s = self.settle_phase(i, ctx);
                                    proof {
                                        assert(refund_cleared(*old(self), m1, c, t));
                                        assert(bid_applied(
                                            m1,
                                            m2,
                                            c,
                                            t,
                                            bidder,
                                            price,
                                            ctx.block_timestamp,
                                        ));
                                    }
                                    s
                                } else {
                                    self.rewrite_item(i, owner0, ft0, price0, Some(a1), None);
                                    proof {
                                        let it2 = Item {
                                            owner: owner0,
                                            ft_contract_id: ft0,
                                            price: price0,
                                            auction: Some(a1),
                                            offers: old(self).items@[i as int].item.offers,
                                            tx: None,
                                        };
                                        assert(it2.wf());
                                        lemma_set_item_effect(m1, *self, c, t, i as int, it2);
                                    }
                                    let ghost m2 = *self;
                                    let s = self.settle_phase(i, ctx);
                                    proof {
                                        assert(refund_cleared(*old(self), m1, c, t));
                                        assert(crate::sale::slot_cleared(m1, m2, c, t));
                                    }
                                    s
                                }
                            },
                            None => {
                                self.rewrite_item(i, owner0, ft0, price0, auction0, None);
                                proof {
                                    let it1 = Item {
                                        owner: owner0,
                                        ft_contract_id: ft0,
                                        price: price0,
                                        auction: auction0,
                                        offers: old(self).items@[i as int].item.offers,
                                        tx: None,
                                    };
                                    assert(it1.wf());
                                    lemma_set_item_effect(*old(self), *self, c, t, i as int, it1);
                                }
                                let ghost m_mid = *self;
                                let s = self.settle_phase(i, ctx);
                                proof {
                                    assert(crate::sale::slot_cleared(*old(self), m_mid, c, t));
                                }
                                s
                            },
                        }
                    },
                }
            },
            SettleStage::Refund => {
                let refund_ok = match a.pending_refund {
                    Some(r) => r.tx_id == cont.tx_id,
                    None => false,
                };
                let slot_fits = match &e.item.tx {
                    Some((_, k)) => tx_eq(k, &MarketTx::SettleAuction),
                    None => true,
                };
                if !refund_ok || !slot_fits {
                    return Step::Failed(MarketErr::WrongTransaction);
                }
                if !ok {
                    return Step::Failed(MarketErr::TransferFailed);
                }
                let a1 = Auction {
                    bid_period: a.bid_period,
                    started_at: a.started_at,
                    ended_at: a.ended_at,
                    current_price: a.current_price,
                    current_winner: a.current_winner,
                    pending_refund: None,
                };
                let slot0 = e.item.tx;
                self.rewrite_item(i, owner0, ft0, price0, Some(a1), slot0);
                proof {
                    let it1 = Item {
                        owner: owner0,
                        ft_contract_id: ft0,
                        price: price0,
                        auction: Some(a1),
                        offers: old(self).items@[i as int].item.offers,
                        tx: slot0,
                    };
                    assert(a1.wf());
                    assert(it1.wf());
                    lemma_set_item_effect(*old(self), *self, c, t, i as int, it1);
                }
                let ghost m_mid = *self;
                let s = self.settle_phase(i, ctx);
                proof {
                    assert(refund_cleared(*old(self), m_mid, c, t));
                }
                s
            },
            SettleStage::CancelAsset => {
                let slot_ok = match &e.item.tx {
                    Some((id, k)) => *id == cont.tx_id && tx_eq(k, &MarketTx::SettleAuction),
                    None => false,
                };
                if !slot_ok || a.current_winner != NO_BIDDER || a.pending_refund.is_some() {
                    return Step::Failed(MarketErr::WrongTransaction);
                }
                if !ok {
                    return Step::Failed(MarketErr::RerunTransaction);
                }
                self.rewrite_item(i, owner0, ft0, price0, None, None);
                proof {
                    let it1 = Item {
                        owner: owner0,
                        ft_contract_id: ft0,
                        price: price0,
                        auction: None,
                        offers: old(self).items@[i as int].item.offers,
                        tx: None,
                    };
                    assert(it1.wf());
                    lemma_set_item_effect(*old(self), *self, c, t, i as int, it1);
                }
                Step::Done(MarketEvent::AuctionCancelled { nft_contract_id: c, token_id: t })
            },
            SettleStage::Disburse(j) => {
                let slot_ok = match &e.item.tx {
                    Some((id, k)) => *id == cont.tx_id && tx_eq(k, &MarketTx::SettleAuction),
                    None => false,
                };
                if !slot_ok || a.current_winner != cont.winner || cont.winner == NO_BIDDER
                    || a.pending_refund.is_some() || j >= n {
                    return Step::Failed(MarketErr::WrongTransaction);
                }
                if !ok {
                    return Step::Failed(MarketErr::RerunTransaction);
                }
                settle_next_step(cont, ft0, ctx.program_id, j + 1)
            },
            SettleStage::AssetOut => {
                let slot_ok = match &e.item.tx {
                    Some((id, k)) => *id == cont.tx_id && tx_eq(k, &MarketTx::SettleAuction),
                    None => false,
                };
                if !slot_ok || a.current_winner != cont.winner || cont.winner == NO_BIDDER
                    || a.pending_refund.is_some() {
                    return Step::Failed(MarketErr::WrongTransaction);
                }
                if !ok {
                    return Step::Failed(MarketErr::RerunTransaction);
                }
                self.rewrite_item(i, cont.winner, ft0, price0, None, None);
                proof {
                    let it1 = Item {
                        owner: cont.winner,
                        ft_contract_id: ft0,
                        price: price0,
                        auction: None,
                        offers: old(self).items@[i as int].item.offers,
                        tx: None,
                    };
                    assert(it1.wf());
                    lemma_set_item_effect(*old(self), *self, c, t, i as int, it1);
                }
                Step::Done(
                    MarketEvent::AuctionSettled {
                        nft_contract_id: c,
                        token_id: t,
                        price: cont.price,
                    },
                )
            },
        }
    }
}

} // verus!
