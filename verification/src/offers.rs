//! The standing-offer protocol: creation, acceptance, withdrawal.
//!
//! An offer escrows its money up front — attached native value sits with
//! the marketplace, a currency-ledger amount is pulled into custody by a
//! one-step saga — and is keyed by its (currency, price) pair, unique per
//! listing.  Acceptance reuses the sale's payout tail: asset in, proceeds
//! out to every payee, asset to the buyer, with the same point of no
//! return.  Withdrawal returns the escrow to the offerer and strikes the
//! entry.

use vstd::prelude::*;

use crate::market::find_offer;
use crate::market::lemma_set_item_effect;
use crate::market::lemma_spec_item_is;
use crate::market::price_ok;
use crate::market::spec_treasury_fee;
use crate::market::treasury_fee_of;
use crate::saga::begin_or_resume;
use crate::saga::tx_eq;
use crate::sale::add_treasury;
use crate::sale::first_native_payee;
use crate::sale::native_next;
use crate::sale::upserted;
use crate::types::AcceptCont;
use crate::types::AcceptPayoutCont;
use crate::types::AcceptStage;
use crate::types::ActorId;
use crate::types::ContractId;
use crate::types::Ctx;
use crate::types::Item;
use crate::types::Market;
use crate::types::MarketErr;
use crate::types::MarketEvent;
use crate::types::MarketTx;
use crate::types::Offer;
use crate::types::OfferCont;
use crate::types::Payout;
use crate::types::PayoutCont;
use crate::types::PayoutQuery;
use crate::types::Price;
use crate::types::Step;
use crate::types::TokenId;
use crate::types::Transfer;
use crate::types::TransferCont;
use crate::types::WithdrawCont;
use crate::types::valid_price;
use crate::types::NO_BIDDER;

verus! {

/// The offer list after striking the entry with this (currency, price)
/// key; a list without the key stands unchanged.
pub open spec fn offer_struck(
    v0: Seq<Offer>,
    ft: Option<ContractId>,
    price: Price,
    v1: Seq<Offer>,
) -> bool {
    if exists|j: int|
        0 <= j < v0.len() && (#[trigger] v0[j]).ft_contract_id == ft && v0[j].price == price {
        exists|j: int|
            {
                &&& 0 <= j < v0.len()
                &&& (#[trigger] v0[j]).ft_contract_id == ft
                &&& v0[j].price == price
                &&& v1 == v0.remove(j)
            }
    } else {
        v1 == v0
    }
}

/// A new offer stands recorded on the listing; the saga slot is left as
/// told; nothing else moved.
pub open spec fn offer_recorded(
    m0: Market,
    m1: Market,
    c: ContractId,
    t: TokenId,
    o: Offer,
    tx: Option<(crate::types::TransactionId, MarketTx)>,
) -> bool {
    &&& Market::same_but_item(m0, m1, c, t)
    &&& m1.tx_id == m0.tx_id
    &&& m1.has_item(c, t)
    &&& ({
        let it0 = m0.spec_item(c, t);
        let it1 = m1.spec_item(c, t);
        &&& it1.owner == it0.owner
        &&& it1.ft_contract_id == it0.ft_contract_id
        &&& it1.price == it0.price
        &&& it1.auction == it0.auction
        &&& it1.offers@ == it0.offers@.push(o)
        &&& it1.tx == tx
    })
}

/// The offer was honoured: the buyer owns the listing, the entry is
/// struck, the slot is clear, and nothing else moved.
pub open spec fn accept_committed(
    m0: Market,
    m1: Market,
    c: ContractId,
    t: TokenId,
    buyer: ActorId,
    ft: Option<ContractId>,
    price: Price,
) -> bool {
    &&& Market::same_but_item(m0, m1, c, t)
    &&& m1.tx_id == m0.tx_id
    &&& m1.has_item(c, t)
    &&& ({
        let it0 = m0.spec_item(c, t);
        let it1 = m1.spec_item(c, t);
        &&& it1.owner == buyer
        &&& it1.ft_contract_id == it0.ft_contract_id
        &&& it1.price is None
        &&& it1.auction == it0.auction
        &&& offer_struck(it0.offers@, ft, price, it1.offers@)
        &&& it1.tx is None
    })
}

/// The offer was taken back: the entry is struck, the slot is clear, and
/// nothing else — owner and sale state included — moved.
pub open spec fn withdraw_committed(
    m0: Market,
    m1: Market,
    c: ContractId,
    t: TokenId,
    ft: Option<ContractId>,
    price: Price,
) -> bool {
    &&& Market::same_but_item(m0, m1, c, t)
    &&& m1.tx_id == m0.tx_id
    &&& m1.has_item(c, t)
    &&& ({
        let it0 = m0.spec_item(c, t);
        let it1 = m1.spec_item(c, t);
        &&& it1.owner == it0.owner
        &&& it1.ft_contract_id == it0.ft_contract_id
        &&& it1.price == it0.price
        &&& it1.auction == it0.auction
        &&& offer_struck(it0.offers@, ft, price, it1.offers@)
        &&& it1.tx is None
    })
}

/// The continuations agree everywhere but in their stage.
pub open spec fn same_accept_cont(a: AcceptCont, b: AcceptCont) -> bool {
    &&& a.nft_contract_id == b.nft_contract_id
    &&& a.token_id == b.token_id
    &&& a.buyer == b.buyer
    &&& a.ft_contract_id == b.ft_contract_id
    &&& a.price == b.price
    &&& a.payouts == b.payouts
    &&& a.tx_id == b.tx_id
}

/// The next call of the token-path acceptance tail: the payee at `from`,
/// or the asset's release to the buyer.
pub open spec fn accept_token_step(cont: AcceptCont, program: ActorId, from: int, s: Step) -> bool {
    let n = cont.payouts@.len() as int;
    if from < n {
        &&& s matches Step::AskTransfer(tr, TransferCont::Accept(c2))
        &&& same_accept_cont(c2, cont)
        &&& c2.stage == AcceptStage::Disburse(from as usize)
        &&& tr == (Transfer::Currency {
            tx_id: cont.tx_id.wrapping_add((from as u64).wrapping_add(1)),
            ft_contract_id: cont.ft_contract_id.unwrap(),
            sender: program,
            recipient: cont.payouts@[from].account,
            amount: cont.payouts@[from].amount,
        })
    } else {
        &&& s matches Step::AskTransfer(tr, TransferCont::Accept(c2))
        &&& same_accept_cont(c2, cont)
        &&& c2.stage == AcceptStage::AssetOut
        &&& tr == (Transfer::Asset {
            tx_id: cont.tx_id.wrapping_add((n as u64).wrapping_add(1)),
            nft_contract_id: cont.nft_contract_id,
            to: cont.buyer,
            token_id: cont.token_id,
        })
    }
}

/// The native-path acceptance tail from position `from`: either one more
/// value send, or — with every payable payee done — the commit itself.
pub open spec fn accept_native_step(
    m0: Market,
    m1: Market,
    cont: AcceptCont,
    program: ActorId,
    from: int,
    s: Step,
) -> bool {
    let n = cont.payouts@.len() as int;
    let c = cont.nft_contract_id;
    let t = cont.token_id;
    exists|j: int|
        {
            &&& #[trigger] first_native_payee(cont.payouts@, program, cont.price, from, j)
            &&& if j < n {
                &&& m1 == m0
                &&& s matches Step::AskTransfer(tr, TransferCont::Accept(c2))
                &&& same_accept_cont(c2, cont)
                &&& c2.stage == AcceptStage::Disburse(j as usize)
                &&& tr == (Transfer::Native {
                    to: cont.payouts@[j].account,
                    amount: cont.payouts@[j].amount,
                })
            } else {
                &&& accept_committed(m0, m1, c, t, cont.buyer, cont.ft_contract_id, cont.price)
                &&& s == Step::Done(
                    MarketEvent::OfferAccepted {
                        nft_contract_id: c,
                        token_id: t,
                        new_owner: cont.buyer,
                        price: cont.price,
                    },
                )
            }
        }
}

/// Recording an offer under a fresh key keeps the keys unique and the
/// amounts valid.
pub proof fn lemma_offers_push_wf(v0: Seq<Offer>, o: Offer)
    requires
        forall|x: int, y: int|
            0 <= x < y < v0.len() ==> !crate::types::same_offer_key(
                #[trigger] v0[x],
                #[trigger] v0[y],
            ),
        forall|x: int|
            0 <= x < v0.len() ==> valid_price((#[trigger] v0[x]).ft_contract_id, v0[x].price),
        valid_price(o.ft_contract_id, o.price),
        forall|x: int|
            0 <= x < v0.len() ==> !((#[trigger] v0[x]).ft_contract_id == o.ft_contract_id
                && v0[x].price == o.price),
    ensures
        forall|x: int, y: int|
            0 <= x < y < v0.push(o).len() ==> !crate::types::same_offer_key(
                #[trigger] v0.push(o)[x],
                #[trigger] v0.push(o)[y],
            ),
        forall|x: int|
            0 <= x < v0.push(o).len() ==> valid_price(
                (#[trigger] v0.push(o)[x]).ft_contract_id,
                v0.push(o)[x].price,
            ),
{
    let v1 = v0.push(o);
    assert forall|x: int, y: int|
        0 <= x < y < v1.len() implies !crate::types::same_offer_key(v1[x], v1[y]) by {
        assert(v1[x] == v0[x]);
        if y < v0.len() {
            assert(v1[y] == v0[y]);
        } else {
            assert(v1[y] == o);
        }
    }
    assert forall|x: int|
        0 <= x < v1.len() implies valid_price(v1[x].ft_contract_id, v1[x].price) by {
        if x < v0.len() {
            assert(v1[x] == v0[x]);
        } else {
            assert(v1[x] == o);
        }
    }
}

/// Striking one offer keeps the remaining keys unique and their amounts
/// valid.
pub proof fn lemma_offers_remove_wf(v0: Seq<Offer>, j: int)
    requires
        0 <= j < v0.len(),
        forall|x: int, y: int|
            0 <= x < y < v0.len() ==> !crate::types::same_offer_key(
                #[trigger] v0[x],
                #[trigger] v0[y],
            ),
        forall|x: int|
            0 <= x < v0.len() ==> valid_price((#[trigger] v0[x]).ft_contract_id, v0[x].price),
    ensures
        forall|x: int, y: int|
            0 <= x < y < v0.remove(j).len() ==> !crate::types::same_offer_key(
                #[trigger] v0.remove(j)[x],
                #[trigger] v0.remove(j)[y],
            ),
        forall|x: int|
            0 <= x < v0.remove(j).len() ==> valid_price(
                (#[trigger] v0.remove(j)[x]).ft_contract_id,
                v0.remove(j)[x].price,
            ),
{
    v0.remove_ensures(j);
    let v1 = v0.remove(j);
    assert forall|x: int, y: int|
        0 <= x < y < v1.len() implies !crate::types::same_offer_key(v1[x], v1[y]) by {
        let x0: int = if x < j {
            x
        } else {
            x + 1
        };
        let y0: int = if y < j {
            y
        } else {
            y + 1
        };
        assert(v1[x] == v0[x0]);
        assert(v1[y] == v0[y0]);
        assert(!crate::types::same_offer_key(v0[x0], v0[y0]));
    }
    assert forall|x: int|
        0 <= x < v1.len() implies valid_price(v1[x].ft_contract_id, v1[x].price) by {
        let x0: int = if x < j {
            x
        } else {
            x + 1
        };
        assert(v1[x] == v0[x0]);
    }
}

impl Market {
    /// Finish or continue the native acceptance tail for the listing at
    /// slot `i`: send value to the next payable payee, or commit.
    fn accept_native_tail(&mut self, i: usize, cont: AcceptCont, from: usize, ctx: &Ctx) -> (s:
        Step)
        requires
            old(self).wf(),
            i < old(self).items@.len(),
            entry_key_is_cont(old(self).items@[i as int], cont),
            from <= cont.payouts@.len(),
            exists|j: int|
                0 <= j < old(self).items@[i as int].item.offers@.len()
                    && (#[trigger] old(self).items@[i as int].item.offers@[j]).ft_contract_id
                    == cont.ft_contract_id && old(self).items@[i as int].item.offers@[j].price
                    == cont.price,
        ensures
            final(self).wf(),
            accept_native_step(
                *old(self),
                *final(self),
                cont,
                ctx.program_id,
                from as int,
                s,
            ),
    {
        let c = cont.nft_contract_id;
        let t = cont.token_id;
        proof {
            lemma_spec_item_is(*self, c, t, i as int);
        }
        let n = cont.payouts.len();
        let j = native_next(&cont.payouts, ctx.program_id, cont.price, from);
        if j < n {
            let p = cont.payouts[j];
            let buyer = cont.buyer;
            let ftc = cont.ft_contract_id;
            let price = cont.price;
            let tx_id = cont.tx_id;
            Step::AskTransfer(
                Transfer::Native { to: p.account, amount: p.amount },
                TransferCont::Accept(
                    AcceptCont {
                        nft_contract_id: c,
                        token_id: t,
                        buyer,
                        ft_contract_id: ftc,
                        price,
                        payouts: cont.payouts,
                        tx_id,
                        stage: AcceptStage::Disburse(j),
                    },
                ),
            )
        } else {
            let oj = match find_offer(&self.items[i].item.offers, cont.ft_contract_id, cont.price) {
                Some(oj) => oj,
                None => {
                    proof {
                        assert(false);
                    }
                    return Step::Failed(MarketErr::NoSuchOffer);
                },
            };
            self.remove_offer_item(i, oj, cont.buyer, None, None);
            proof {
                let it0 = old(self).items@[i as int].item;
                let it1 = self.items@[i as int].item;
                lemma_offers_remove_wf(it0.offers@, oj as int);
                assert(it1.wf());
                assert(self.items@ == crate::market::items_with(*old(self), i as int, it1));
                lemma_set_item_effect(*old(self), *self, c, t, i as int, it1);
            }
            Step::Done(
                MarketEvent::OfferAccepted {
                    nft_contract_id: c,
                    token_id: t,
                    new_owner: cont.buyer,
                    price: cont.price,
                },
            )
        }
    }

    /// Why an offer is turned away, if it is.
    pub open spec fn spec_add_offer_err(
        self,
        c: ContractId,
        ft: Option<ContractId>,
        t: TokenId,
        price: Price,
        source: ActorId,
        value: Price,
    ) -> Option<MarketErr> {
        if ft matches Some(f) && !self.approved_ft_contracts@.contains(f) {
            Some(MarketErr::ContractNotApproved)
        } else if !valid_price(ft, price) {
            Some(MarketErr::InvalidPrice)
        } else if ft is None && value != price {
            Some(MarketErr::WrongAttachedValue)
        } else if !self.has_item(c, t) {
            Some(MarketErr::ItemNotFound)
        } else if self.spec_item(c, t).auction is Some {
            Some(MarketErr::AuctionActive)
        } else if self.spec_item(c, t).has_offer(ft, price) {
            Some(MarketErr::DuplicateOffer)
        } else if ft matches Some(f) && self.spec_item(c, t).tx matches Some((id, k)) && k
            != (MarketTx::Offer { ft_id: f, price, account: source }) {
            Some(MarketErr::WrongTransaction)
        } else {
            None
        }
    }

    /// Stand an offer on a listing.  Attached native value is the escrow
    /// itself and the offer is recorded at once; a currency-ledger offer
    /// first pulls its amount into custody under a one-step saga.
    pub fn add_offer(
        &mut self,
        ctx: &Ctx,
        nft_contract_id: ContractId,
        ft_contract_id: Option<ContractId>,
        token_id: TokenId,
        price: Price,
    ) -> (s: Step)
        requires
            old(self).wf(),
        ensures
            final(self).wf(),
            match old(self).spec_add_offer_err(
                nft_contract_id,
                ft_contract_id,
                token_id,
                price,
                ctx.source,
                ctx.value,
            ) {
                Some(e) => s == Step::Failed(e) && *final(self) == *old(self),
                None => {
                    let c = nft_contract_id;
                    let t = token_id;
                    let it = old(self).spec_item(c, t);
                    match ft_contract_id {
                        None => {
                            &&& offer_recorded(
                                *old(self),
                                *final(self),
                                c,
                                t,
                                (Offer { ft_contract_id: None, price, account: ctx.source }),
                                it.tx,
                            )
                            &&& s == Step::Done(
                                MarketEvent::OfferAdded {
                                    nft_contract_id: c,
                                    ft_contract_id: None,
                                    token_id: t,
                                    price,
                                },
                            )
                        },
                        Some(f) => {
                            let kind = (MarketTx::Offer { ft_id: f, price, account: ctx.source });
                            &&& s matches Step::AskTransfer(tr, TransferCont::Offer(c2))
                            &&& c2 == (OfferCont {
                                nft_contract_id: c,
                                token_id: t,
                                ft_id: f,
                                price,
                                account: ctx.source,
                                tx_id: c2.tx_id,
                            })
                            &&& tr == (Transfer::Currency {
                                tx_id: c2.tx_id,
                                ft_contract_id: f,
                                sender: ctx.source,
                                recipient: ctx.program_id,
                                amount: price,
                            })
                            &&& Market::saga_started(
                                *old(self),
                                *final(self),
                                c,
                                t,
                                kind,
                                1,
                                c2.tx_id,
                            )
                        },
                    }
                },
            },
    {
        let c = nft_contract_id;
        let t = token_id;
        if !self.check_approved_ft_contract(ft_contract_id) {
            return Step::Failed(MarketErr::ContractNotApproved);
        }
        if !price_ok(ft_contract_id, price) {
            return Step::Failed(MarketErr::InvalidPrice);
        }
        if ft_contract_id.is_none() && ctx.value != price {
            return Step::Failed(MarketErr::WrongAttachedValue);
        }
        let i = match self.find_item(c, t) {
            None => {
                return Step::Failed(MarketErr::ItemNotFound);
            },
            Some(i) => i,
        };
        proof {
            lemma_spec_item_is(*self, c, t, i as int);
        }
        let e = &self.items[i];
        if e.item.auction.is_some() {
            return Step::Failed(MarketErr::AuctionActive);
        }
        if find_offer(&e.item.offers, ft_contract_id, price).is_some() {
            return Step::Failed(MarketErr::DuplicateOffer);
        }
        let slot0 = e.item.tx;
        match ft_contract_id {
            None => {
                let o = Offer { ft_contract_id: None, price, account: ctx.source };
                self.push_offer_item(i, o, slot0);
                proof {
                    let it1 = self.items@[i as int].item;
                    lemma_offers_push_wf(old(self).items@[i as int].item.offers@, o);
                    assert(it1.wf());
                    assert(self.items@ == crate::market::items_with(*old(self), i as int, it1));
                    lemma_set_item_effect(*old(self), *self, c, t, i as int, it1);
                }
                Step::Done(
                    MarketEvent::OfferAdded {
                        nft_contract_id: c,
                        ft_contract_id: None,
                        token_id: t,
                        price,
                    },
                )
            },
            Some(f) => {
                let owner0 = e.item.owner;
                let ft0 = e.item.ft_contract_id;
                let price0 = e.item.price;
                let auction0 = e.item.auction;
                let kind = MarketTx::Offer { ft_id: f, price, account: ctx.source };
                let mut slot = slot0;
                let rb = begin_or_resume(&mut slot, &mut self.tx_id, kind, 1);
                let (txid, resumed) = match rb {
                    Ok(v) => v,
                    Err(er) => {
                        return Step::Failed(er);
                    },
                };
                if !resumed {
                    self.rewrite_item(i, owner0, ft0, price0, auction0, slot);
                    proof {
                        let it1 = Item {
                            owner: owner0,
                            ft_contract_id: ft0,
                            price: price0,
                            auction: auction0,
                            offers: old(self).items@[i as int].item.offers,
                            tx: slot,
                        };
                        assert(it1.wf());
                        lemma_set_item_effect(*old(self), *self, c, t, i as int, it1);
                    }
                }
                Step::AskTransfer(
                    Transfer::Currency {
                        tx_id: txid,
                        ft_contract_id: f,
                        sender: ctx.source,
                        recipient: ctx.program_id,
                        amount: price,
                    },
                    TransferCont::Offer(
                        OfferCont {
                            nft_contract_id: c,
                            token_id: t,
                            ft_id: f,
                            price,
                            account: ctx.source,
                            tx_id: txid,
                        },
                    ),
                )
            },
        }
    }
}

/// The listing entry is the one this continuation speaks of.
pub open spec fn entry_key_is_cont(e: crate::types::ItemEntry, cont: AcceptCont) -> bool {
    e.nft_contract_id == cont.nft_contract_id && e.token_id == cont.token_id
}

impl Market {
    /// Drive an offer creation by the escrow reply: on success the offer
    /// stands recorded (unless an identical one slipped in meanwhile — a
    /// duplicate key is never recorded twice); on failure the slot clears
    /// and the request may be retried from scratch.
    pub fn continue_add_offer(&mut self, cont: OfferCont, ok: bool, ctx: &Ctx) -> (s: Step)
        requires
            old(self).wf(),
        ensures
            final(self).wf(),
            ({
                let c = cont.nft_contract_id;
                let t = cont.token_id;
                let kind = (MarketTx::Offer {
                    ft_id: cont.ft_id,
                    price: cont.price,
                    account: cont.account,
                });
                if !old(self).has_item(c, t) {
                    s == Step::Failed(MarketErr::ItemNotFound) && *final(self) == *old(self)
                } else {
                    let it = old(self).spec_item(c, t);
                    if it.tx != Some((cont.tx_id, kind)) || cont.price == 0 {
                        s == Step::Failed(MarketErr::WrongTransaction) && *final(self) == *old(
                            self,
                        )
                    } else if !ok {
                        crate::sale::slot_cleared(*old(self), *final(self), c, t) && s
                            == Step::Failed(MarketErr::TransferFailed)
                    } else if it.has_offer(Some(cont.ft_id), cont.price) {
                        crate::sale::slot_cleared(*old(self), *final(self), c, t) && s
                            == Step::Failed(MarketErr::DuplicateOffer)
                    } else {
                        &&& offer_recorded(
                            *old(self),
                            *final(self),
                            c,
                            t,
                            (Offer {
                                ft_contract_id: Some(cont.ft_id),
                                price: cont.price,
                                account: cont.account,
                            }),
                            None,
                        )
                        &&& s == Step::Done(
                            MarketEvent::OfferAdded {
                                nft_contract_id: c,
                                ft_contract_id: Some(cont.ft_id),
                                token_id: t,
                                price: cont.price,
                            },
                        )
                    }
                }
            }),
    {
        let c = cont.nft_contract_id;
        let t = cont.token_id;
        let i = match self.find_item(c, t) {
            None => {
                return Step::Failed(MarketErr::ItemNotFound);
            },
            Some(i) => i,
        };
        proof {
            lemma_spec_item_is(*self, c, t, i as int);
        }
        let kind = MarketTx::Offer { ft_id: cont.ft_id, price: cont.price, account: cont.account };
        let e = &self.items[i];
        let slot_ok = match &e.item.tx {
            Some((id, k)) => *id == cont.tx_id && tx_eq(k, &kind),
            None => false,
        };
        if !slot_ok || cont.price == 0 {
            return Step::Failed(MarketErr::WrongTransaction);
        }
        let owner0 = e.item.owner;
        let ft0 = e.item.ft_contract_id;
        let price0 = e.item.price;
        let auction0 = e.item.auction;
        let duplicate = find_offer(&e.item.offers, Some(cont.ft_id), cont.price).is_some();
        if !ok || duplicate {
            self.rewrite_item(i, owner0, ft0, price0, auction0, None);
            proof {
                let it1 = Item {
                    owner: owner0,
                    ft_contract_id: ft0,
                    price: price0,
                    auction: auction0,
                    offers: old(self).items@[i as int].item.offers,
                    tx: None,
                };
                assert(it1.wf());
                lemma_set_item_effect(*old(self), *self, c, t, i as int, it1);
            }
            if !ok {
                return Step::Failed(MarketErr::TransferFailed);
            }
            return Step::Failed(MarketErr::DuplicateOffer);
        }
        let o = Offer {
            ft_contract_id: Some(cont.ft_id),
            price: cont.price,
            account: cont.account,
        };
        self.push_offer_item(i, o, None);
        proof {
            let it1 = self.items@[i as int].item;
            lemma_offers_push_wf(old(self).items@[i as int].item.offers@, o);
            assert(it1.wf());
            assert(self.items@ == crate::market::items_with(*old(self), i as int, it1));
            lemma_set_item_effect(*old(self), *self, c, t, i as int, it1);
        }
        Step::Done(
            MarketEvent::OfferAdded {
                nft_contract_id: c,
                ft_contract_id: Some(cont.ft_id),
                token_id: t,
                price: cont.price,
            },
        )
    }

    /// Why a withdrawal is turned away, if it is.
    pub open spec fn spec_withdraw_err(
        self,
        c: ContractId,
        t: TokenId,
        ft: Option<ContractId>,
        price: Price,
        source: ActorId,
    ) -> Option<MarketErr> {
        if !self.has_item(c, t) {
            Some(MarketErr::ItemNotFound)
        } else if !self.spec_item(c, t).has_offer(ft, price) {
            Some(MarketErr::NoSuchOffer)
        } else if self.spec_item(c, t).offer_account(ft, price) != source {
            Some(MarketErr::NotOfferer)
        } else if self.spec_item(c, t).tx matches Some((id, k)) && k != (MarketTx::Withdraw {
            ft_contract_id: ft,
            price,
            account: source,
        }) {
            Some(MarketErr::WrongTransaction)
        } else {
            None
        }
    }

    /// Take an offer back.  Only the account that made it may: its escrow
    /// returns — a value send on the native path, a keyed transfer from
    /// custody on a currency ledger — and the entry is struck when the
    /// return lands.
    pub fn withdraw(
        &mut self,
        ctx: &Ctx,
        nft_contract_id: ContractId,
        token_id: TokenId,
        ft_contract_id: Option<ContractId>,
        price: Price,
    ) -> (s: Step)
        requires
            old(self).wf(),
        ensures
            final(self).wf(),
            match old(self).spec_withdraw_err(
                nft_contract_id,
                token_id,
                ft_contract_id,
                price,
                ctx.source,
            ) {
                Some(e) => s == Step::Failed(e) && *final(self) == *old(self),
                None => {
                    let c = nft_contract_id;
                    let t = token_id;
                    let kind = (MarketTx::Withdraw {
                        ft_contract_id,
                        price,
                        account: ctx.source,
                    });
                    &&& s matches Step::AskTransfer(tr, TransferCont::Withdraw(c2))
                    &&& c2 == (WithdrawCont {
                        nft_contract_id: c,
                        token_id: t,
                        ft_contract_id,
                        price,
                        account: ctx.source,
                        tx_id: c2.tx_id,
                    })
                    &&& tr == (match ft_contract_id {
                        Some(f) => Transfer::Currency {
                            tx_id: c2.tx_id,
                            ft_contract_id: f,
                            sender: ctx.program_id,
                            recipient: ctx.source,
                            amount: price,
                        },
                        None => Transfer::Native { to: ctx.source, amount: price },
                    })
                    &&& Market::saga_started(*old(self), *final(self), c, t, kind, 1, c2.tx_id)
                },
            },
    {
        let c = nft_contract_id;
        let t = token_id;
        let i = match self.find_item(c, t) {
            None => {
                return Step::Failed(MarketErr::ItemNotFound);
            },
            Some(i) => i,
        };
        proof {
            lemma_spec_item_is(*self, c, t, i as int);
        }
        let e = &self.items[i];
        let oj = match find_offer(&e.item.offers, ft_contract_id, price) {
            Some(oj) => oj,
            None => {
                return Step::Failed(MarketErr::NoSuchOffer);
            },
        };
        proof {
            lemma_offer_account_is(e.item, ft_contract_id, price, oj as int);
        }
        if e.item.offers[oj].account != ctx.source {
            return Step::Failed(MarketErr::NotOfferer);
        }
        let owner0 = e.item.owner;
        let ft0 = e.item.ft_contract_id;
        let price0 = e.item.price;
        let auction0 = e.item.auction;
        let slot0 = e.item.tx;
        let kind = MarketTx::Withdraw { ft_contract_id, price, account: ctx.source };
        let mut slot = slot0;
        let rb = begin_or_resume(&mut slot, &mut self.tx_id, kind, 1);
        let (txid, resumed) = match rb {
            Ok(v) => v,
            Err(er) => {
                return Step::Failed(er);
            },
        };
        if !resumed {
            self.rewrite_item(i, owner0, ft0, price0, auction0, slot);
            proof {
                let it1 = Item {
                    owner: owner0,
                    ft_contract_id: ft0,
                    price: price0,
                    auction: auction0,
                    offers: old(self).items@[i as int].item.offers,
                    tx: slot,
                };
                assert(it1.wf());
                lemma_set_item_effect(*old(self), *self, c, t, i as int, it1);
            }
        }
        let tr = match ft_contract_id {
            Some(f) => Transfer::Currency {
                tx_id: txid,
                ft_contract_id: f,
                sender: ctx.program_id,
                recipient: ctx.source,
                amount: price,
            },
            None => Transfer::Native { to: ctx.source, amount: price },
        };
        Step::AskTransfer(
            tr,
            TransferCont::Withdraw(
                WithdrawCont {
                    nft_contract_id: c,
                    token_id: t,
                    ft_contract_id,
                    price,
                    account: ctx.source,
                    tx_id: txid,
                },
            ),
        )
    }

    /// Drive a withdrawal by the reply to the escrow's return: on success
    /// the entry is struck and the slot clears; on failure everything —
    /// the offer included — stands, and the request may be retried.
    pub fn continue_withdraw(&mut self, cont: WithdrawCont, ok: bool, ctx: &Ctx) -> (s: Step)
        requires
            old(self).wf(),
        ensures
            final(self).wf(),
            ({
                let c = cont.nft_contract_id;
                let t = cont.token_id;
                let kind = (MarketTx::Withdraw {
                    ft_contract_id: cont.ft_contract_id,
                    price: cont.price,
                    account: cont.account,
                });
                if !old(self).has_item(c, t) {
                    s == Step::Failed(MarketErr::ItemNotFound) && *final(self) == *old(self)
                } else {
                    let it = old(self).spec_item(c, t);
                    if it.tx != Some((cont.tx_id, kind)) || !it.has_offer(
                        cont.ft_contract_id,
                        cont.price,
                    ) || it.offer_account(cont.ft_contract_id, cont.price) != cont.account {
                        s == Step::Failed(MarketErr::WrongTransaction) && *final(self) == *old(
                            self,
                        )
                    } else if !ok {
                        crate::sale::slot_cleared(*old(self), *final(self), c, t) && s
                            == Step::Failed(MarketErr::TransferFailed)
                    } else {
                        &&& withdraw_committed(
                            *old(self),
                            *final(self),
                            c,
                            t,
                            cont.ft_contract_id,
                            cont.price,
                        )
                        &&& s == Step::Done(
                            MarketEvent::Withdraw {
                                nft_contract_id: c,
                                token_id: t,
                                price: cont.price,
                            },
                        )
                    }
                }
            }),
    {
        let c = cont.nft_contract_id;
        let t = cont.token_id;
        let i = match self.find_item(c, t) {
            None => {
                return Step::Failed(MarketErr::ItemNotFound);
            },
            Some(i) => i,
        };
        proof {
            lemma_spec_item_is(*self, c, t, i as int);
        }
        let kind = MarketTx::Withdraw {
            ft_contract_id: cont.ft_contract_id,
            price: cont.price,
            account: cont.account,
        };
        let e = &self.items[i];
        let slot_ok = match &e.item.tx {
            Some((id, k)) => *id == cont.tx_id && tx_eq(k, &kind),
            None => false,
        };
        let oj = match find_offer(&e.item.offers, cont.ft_contract_id, cont.price) {
            Some(oj) => oj,
            None => {
                return Step::Failed(MarketErr::WrongTransaction);
            },
        };
        proof {
            lemma_offer_account_is(e.item, cont.ft_contract_id, cont.price, oj as int);
        }
        if !slot_ok || e.item.offers[oj].account != cont.account {
            return Step::Failed(MarketErr::WrongTransaction);
        }
        let owner0 = e.item.owner;
        let ft0 = e.item.ft_contract_id;
        let price0 = e.item.price;
        let auction0 = e.item.auction;
        if !ok {
            self.rewrite_item(i, owner0, ft0, price0, auction0, None);
            proof {
                let it1 = Item {
                    owner: owner0,
                    ft_contract_id: ft0,
                    price: price0,
                    auction: auction0,
                    offers: old(self).items@[i as int].item.offers,
                    tx: None,
                };
                assert(it1.wf());
                lemma_set_item_effect(*old(self), *self, c, t, i as int, it1);
            }
            return Step::Failed(MarketErr::TransferFailed);
        }
        self.remove_offer_item(i, oj, owner0, price0, None);
        proof {
            let it1 = self.items@[i as int].item;
            lemma_offers_remove_wf(old(self).items@[i as int].item.offers@, oj as int);
            assert(it1.wf());
            assert(self.items@ == crate::market::items_with(*old(self), i as int, it1));
            lemma_set_item_effect(*old(self), *self, c, t, i as int, it1);
        }
        Step::Done(MarketEvent::Withdraw { nft_contract_id: c, token_id: t, price: cont.price })
    }
}

/// Build the next disbursement step of a token-path acceptance.
fn accept_token_next(cont: AcceptCont, program: ActorId, from: usize) -> (s: Step)
    requires
        cont.ft_contract_id is Some,
        from <= cont.payouts@.len(),
    ensures
        accept_token_step(cont, program, from as int, s),
{
    let n = cont.payouts.len();
    let ft = match cont.ft_contract_id {
        Some(f) => f,
        None => 0,
    };
    let c = cont.nft_contract_id;
    let t = cont.token_id;
    let buyer = cont.buyer;
    let ftc = cont.ft_contract_id;
    let price = cont.price;
    let tx_id = cont.tx_id;
    if from < n {
        let p = cont.payouts[from];
        Step::AskTransfer(
            Transfer::Currency {
                tx_id: tx_id.wrapping_add((from as u64).wrapping_add(1)),
                ft_contract_id: ft,
                sender: program,
                recipient: p.account,
                amount: p.amount,
            },
            TransferCont::Accept(
                AcceptCont {
                    nft_contract_id: c,
                    token_id: t,
                    buyer,
                    ft_contract_id: ftc,
                    price,
                    payouts: cont.payouts,
                    tx_id,
                    stage: AcceptStage::Disburse(from),
                },
            ),
        )
    } else {
        Step::AskTransfer(
            Transfer::Asset {
                tx_id: tx_id.wrapping_add((n as u64).wrapping_add(1)),
                nft_contract_id: c,
                to: buyer,
                token_id: t,
            },
            TransferCont::Accept(
                AcceptCont {
                    nft_contract_id: c,
                    token_id: t,
                    buyer,
                    ft_contract_id: ftc,
                    price,
                    payouts: cont.payouts,
                    tx_id,
                    stage: AcceptStage::AssetOut,
                },
            ),
        )
    }
}

impl Market {
    /// Why an acceptance is turned away before any external step, if it
    /// is.
    pub open spec fn spec_accept_err(
        self,
        c: ContractId,
        t: TokenId,
        ft: Option<ContractId>,
        price: Price,
        source: ActorId,
    ) -> Option<MarketErr> {
        if !self.has_item(c, t) {
            Some(MarketErr::ItemNotFound)
        } else {
            let it = self.spec_item(c, t);
            if it.auction is Some {
                Some(MarketErr::AuctionActive)
            } else if it.owner != source {
                Some(MarketErr::NotOwner)
            } else if it.price is Some {
                Some(MarketErr::AlreadyListed)
            } else if !it.has_offer(ft, price) {
                Some(MarketErr::NoSuchOffer)
            } else {
                None
            }
        }
    }

    /// Honour a standing offer: only the listing's owner may.  Validates
    /// the offer and asks the driver for the royalty split of its price;
    /// the saga starts when the split comes back.
    pub fn accept_offer(
        &mut self,
        ctx: &Ctx,
        nft_contract_id: ContractId,
        token_id: TokenId,
        ft_contract_id: Option<ContractId>,
        price: Price,
    ) -> (s: Step)
        requires
            old(self).wf(),
        ensures
            final(self).wf(),
            *final(self) == *old(self),
            match old(self).spec_accept_err(
                nft_contract_id,
                token_id,
                ft_contract_id,
                price,
                ctx.source,
            ) {
                Some(e) => s == Step::Failed(e),
                None => {
                    let it = old(self).spec_item(nft_contract_id, token_id);
                    let fee = spec_treasury_fee(price, old(self).treasury_fee);
                    &&& s matches Step::AskPayouts(q, PayoutCont::Accept(pc))
                    &&& q == (PayoutQuery {
                        nft_contract_id,
                        seller: it.owner,
                        amount: (price - fee) as Price,
                    })
                    &&& pc == (AcceptPayoutCont {
                        nft_contract_id,
                        token_id,
                        buyer: it.offer_account(ft_contract_id, price),
                        ft_contract_id,
                        price,
                        fee: fee as Price,
                    })
                },
            },
    {
        let i = match self.find_item(nft_contract_id, token_id) {
            None => {
                return Step::Failed(MarketErr::ItemNotFound);
            },
            Some(i) => i,
        };
        proof {
            lemma_spec_item_is(*self, nft_contract_id, token_id, i as int);
        }
        let e = &self.items[i];
        if e.item.auction.is_some() {
            return Step::Failed(MarketErr::AuctionActive);
        }
        if e.item.owner != ctx.source {
            return Step::Failed(MarketErr::NotOwner);
        }
        if e.item.price.is_some() {
            return Step::Failed(MarketErr::AlreadyListed);
        }
        let oj = match find_offer(&e.item.offers, ft_contract_id, price) {
            Some(oj) => oj,
            None => {
                return Step::Failed(MarketErr::NoSuchOffer);
            },
        };
        proof {
            lemma_offer_account_is(e.item, ft_contract_id, price, oj as int);
        }
        let buyer = e.item.offers[oj].account;
        let fee = treasury_fee_of(price, self.treasury_fee);
        let seller = e.item.owner;
        Step::AskPayouts(
            PayoutQuery { nft_contract_id, seller, amount: price - fee },
            PayoutCont::Accept(
                AcceptPayoutCont {
                    nft_contract_id,
                    token_id,
                    buyer,
                    ft_contract_id,
                    price,
                    fee,
                },
            ),
        )
    }

    /// Why an acceptance saga cannot start (or resume) on the listing as
    /// it now stands, if it cannot.
    pub open spec fn spec_accept_start_err(self, cont: AcceptPayoutCont) -> Option<MarketErr> {
        if !self.has_item(cont.nft_contract_id, cont.token_id) {
            Some(MarketErr::ItemNotFound)
        } else {
            let it = self.spec_item(cont.nft_contract_id, cont.token_id);
            if it.auction is Some {
                Some(MarketErr::AuctionActive)
            } else if !it.has_offer(cont.ft_contract_id, cont.price) || it.offer_account(
                cont.ft_contract_id,
                cont.price,
            ) != cont.buyer {
                Some(MarketErr::NoSuchOffer)
            } else if it.tx matches Some((id, k)) && k != (MarketTx::AcceptOffer {
                ft_contract_id: cont.ft_contract_id,
                price: cont.price,
            }) {
                Some(MarketErr::WrongTransaction)
            } else {
                None
            }
        }
    }

    /// Start (or resume) a token-path acceptance once the royalty split
    /// is in hand: record the saga — asset in, one id per payee, asset
    /// out — and ask for the asset to move into custody.  The price
    /// itself was escrowed when the offer was made.
    pub fn accept_offer_tx(&mut self, cont: AcceptPayoutCont, payouts: Vec<Payout>, ctx: &Ctx) -> (
        s: Step)
        requires
            old(self).wf(),
            cont.ft_contract_id is Some,
        ensures
            final(self).wf(),
            match old(self).spec_accept_start_err(cont) {
                Some(e) => s == Step::Failed(e) && *final(self) == *old(self),
                None => {
                    let c = cont.nft_contract_id;
                    let t = cont.token_id;
                    let kind = (MarketTx::AcceptOffer {
                        ft_contract_id: cont.ft_contract_id,
                        price: cont.price,
                    });
                    &&& s matches Step::AskTransfer(tr, TransferCont::Accept(c2))
                    &&& c2.nft_contract_id == c
                    &&& c2.token_id == t
                    &&& c2.buyer == cont.buyer
                    &&& c2.ft_contract_id == cont.ft_contract_id
                    &&& c2.price == cont.price
                    &&& c2.stage == AcceptStage::AssetIn
                    &&& upserted(payouts@, old(self).treasury_id, cont.fee, c2.payouts@)
                    &&& tr == (Transfer::Asset {
                        tx_id: c2.tx_id,
                        nft_contract_id: c,
                        to: ctx.program_id,
                        token_id: t,
                    })
                    &&& Market::saga_started(
                        *old(self),
                        *final(self),
                        c,
                        t,
                        kind,
                        (c2.payouts@.len() as u64).wrapping_add(2),
                        c2.tx_id,
                    )
                },
            },
    {
        let c = cont.nft_contract_id;
        let t = cont.token_id;
        let i = match self.find_item(c, t) {
            None => {
                return Step::Failed(MarketErr::ItemNotFound);
            },
            Some(i) => i,
        };
        proof {
            lemma_spec_item_is(*self, c, t, i as int);
        }
        let e = &self.items[i];
        if e.item.auction.is_some() {
            return Step::Failed(MarketErr::AuctionActive);
        }
        let oj = match find_offer(&e.item.offers, cont.ft_contract_id, cont.price) {
            Some(oj) => oj,
            None => {
                return Step::Failed(MarketErr::NoSuchOffer);
            },
        };
        proof {
            lemma_offer_account_is(e.item, cont.ft_contract_id, cont.price, oj as int);
        }
        if e.item.offers[oj].account != cont.buyer {
            return Step::Failed(MarketErr::NoSuchOffer);
        }
        let owner0 = e.item.owner;
        let ft0 = e.item.ft_contract_id;
        let price0 = e.item.price;
        let auction0 = e.item.auction;
        let slot0 = e.item.tx;
        let mut payouts2 = payouts;
        add_treasury(&mut payouts2, self.treasury_id, cont.fee);
        let kind = MarketTx::AcceptOffer {
            ft_contract_id: cont.ft_contract_id,
            price: cont.price,
        };
        let reserve = (payouts2.len() as u64).wrapping_add(2);
        let mut slot = slot0;
        let rb = begin_or_resume(&mut slot, &mut self.tx_id, kind, reserve);
        let (txid, resumed) = match rb {
            Ok(v) => v,
            Err(er) => {
                return Step::Failed(er);
            },
        };
        if !resumed {
            self.rewrite_item(i, owner0, ft0, price0, auction0, slot);
            proof {
                let it1 = Item {
                    owner: owner0,
                    ft_contract_id: ft0,
                    price: price0,
                    auction: auction0,
                    offers: old(self).items@[i as int].item.offers,
                    tx: slot,
                };
                assert(it1.wf());
                lemma_set_item_effect(*old(self), *self, c, t, i as int, it1);
            }
        }
        Step::AskTransfer(
            Transfer::Asset { tx_id: txid, nft_contract_id: c, to: ctx.program_id, token_id: t },
            TransferCont::Accept(
                AcceptCont {
                    nft_contract_id: c,
                    token_id: t,
                    buyer: cont.buyer,
                    ft_contract_id: cont.ft_contract_id,
                    price: cont.price,
                    payouts: payouts2,
                    tx_id: txid,
                    stage: AcceptStage::AssetIn,
                },
            ),
        )
    }

    /// Start (or resume) a native-path acceptance once the royalty split
    /// is in hand: the asset goes straight to the buyer, whose value has
    /// sat in escrow since the offer was made; value sends follow.
    pub fn accept_offer_tx_with_value(
        &mut self,
        cont: AcceptPayoutCont,
        payouts: Vec<Payout>,
        ctx: &Ctx,
    ) -> (s: Step)
        requires
            old(self).wf(),
            cont.ft_contract_id is None,
        ensures
            final(self).wf(),
            match old(self).spec_accept_start_err(cont) {
                Some(e) => s == Step::Failed(e) && *final(self) == *old(self),
                None => {
                    let c = cont.nft_contract_id;
                    let t = cont.token_id;
                    let kind = (MarketTx::AcceptOffer {
                        ft_contract_id: cont.ft_contract_id,
                        price: cont.price,
                    });
                    &&& s matches Step::AskTransfer(tr, TransferCont::Accept(c2))
                    &&& c2.nft_contract_id == c
                    &&& c2.token_id == t
                    &&& c2.buyer == cont.buyer
                    &&& c2.ft_contract_id == cont.ft_contract_id
                    &&& c2.price == cont.price
                    &&& c2.stage == AcceptStage::DirectAsset
                    &&& upserted(payouts@, old(self).treasury_id, cont.fee, c2.payouts@)
                    &&& tr == (Transfer::Asset {
                        tx_id: c2.tx_id,
                        nft_contract_id: c,
                        to: cont.buyer,
                        token_id: t,
                    })
                    &&& Market::saga_started(*old(self), *final(self), c, t, kind, 1, c2.tx_id)
                },
            },
    {
        let c = cont.nft_contract_id;
        let t = cont.token_id;
        let i = match self.find_item(c, t) {
            None => {
                return Step::Failed(MarketErr::ItemNotFound);
            },
            Some(i) => i,
        };
        proof {
            lemma_spec_item_is(*self, c, t, i as int);
        }
        let e = &self.items[i];
        if e.item.auction.is_some() {
            return Step::Failed(MarketErr::AuctionActive);
        }
        let oj = match find_offer(&e.item.offers, cont.ft_contract_id, cont.price) {
            Some(oj) => oj,
            None => {
                return Step::Failed(MarketErr::NoSuchOffer);
            },
        };
        proof {
            lemma_offer_account_is(e.item, cont.ft_contract_id, cont.price, oj as int);
        }
        if e.item.offers[oj].account != cont.buyer {
            return Step::Failed(MarketErr::NoSuchOffer);
        }
        let owner0 = e.item.owner;
        let ft0 = e.item.ft_contract_id;
        let price0 = e.item.price;
        let auction0 = e.item.auction;
        let slot0 = e.item.tx;
        let mut payouts2 = payouts;
        add_treasury(&mut payouts2, self.treasury_id, cont.fee);
        let kind = MarketTx::AcceptOffer {
            ft_contract_id: cont.ft_contract_id,
            price: cont.price,
        };
        let mut slot = slot0;
        let rb = begin_or_resume(&mut slot, &mut self.tx_id, kind, 1);
        let (txid, resumed) = match rb {
            Ok(v) => v,
            Err(er) => {
                return Step::Failed(er);
            },
        };
        if !resumed {
            self.rewrite_item(i, owner0, ft0, price0, auction0, slot);
            proof {
                let it1 = Item {
                    owner: owner0,
                    ft_contract_id: ft0,
                    price: price0,
                    auction: auction0,
                    offers: old(self).items@[i as int].item.offers,
                    tx: slot,
                };
                assert(it1.wf());
                lemma_set_item_effect(*old(self), *self, c, t, i as int, it1);
            }
        }
        Step::AskTransfer(
            Transfer::Asset { tx_id: txid, nft_contract_id: c, to: cont.buyer, token_id: t },
            TransferCont::Accept(
                AcceptCont {
                    nft_contract_id: c,
                    token_id: t,
                    buyer: cont.buyer,
                    ft_contract_id: cont.ft_contract_id,
                    price: cont.price,
                    payouts: payouts2,
                    tx_id: txid,
                    stage: AcceptStage::DirectAsset,
                },
            ),
        )
    }

    /// Drive an acceptance one step further on the reply to its last
    /// external call: the same point-of-no-return policy as a sale, with
    /// the offer's entry struck at the commit.
    pub fn continue_accept(&mut self, cont: AcceptCont, ok: bool, ctx: &Ctx) -> (s: Step)
        requires
            old(self).wf(),
        ensures
            final(self).wf(),
            ({
                let c = cont.nft_contract_id;
                let t = cont.token_id;
                let n = cont.payouts@.len() as int;
                let kind = (MarketTx::AcceptOffer {
                    ft_contract_id: cont.ft_contract_id,
                    price: cont.price,
                });
                if !old(self).has_item(c, t) {
                    s == Step::Failed(MarketErr::ItemNotFound) && *final(self) == *old(self)
                } else {
                    let it = old(self).spec_item(c, t);
                    if it.tx != Some((cont.tx_id, kind)) || !it.has_offer(
                        cont.ft_contract_id,
                        cont.price,
                    ) || it.offer_account(cont.ft_contract_id, cont.price) != cont.buyer {
                        s == Step::Failed(MarketErr::WrongTransaction) && *final(self) == *old(
                            self,
                        )
                    } else {
                        match cont.stage {
                            AcceptStage::AssetIn => {
                                if cont.ft_contract_id is None {
                                    s == Step::Failed(MarketErr::WrongTransaction) && *final(self)
                                        == *old(self)
                                } else if ok {
                                    *final(self) == *old(self) && accept_token_step(
                                        cont,
                                        ctx.program_id,
                                        0,
                                        s,
                                    )
                                } else {
                                    crate::sale::slot_cleared(*old(self), *final(self), c, t) && s
                                        == Step::Failed(MarketErr::TransferFailed)
                                }
                            },
                            AcceptStage::Disburse(j0) => {
                                let j = j0 as int;
                                if j >= n {
                                    s == Step::Failed(MarketErr::WrongTransaction) && *final(self)
                                        == *old(self)
                                } else if !ok {
                                    s == Step::Failed(MarketErr::RerunTransaction) && *final(self)
                                        == *old(self)
                                } else if cont.ft_contract_id is Some {
                                    *final(self) == *old(self) && accept_token_step(
                                        cont,
                                        ctx.program_id,
                                        j + 1,
                                        s,
                                    )
                                } else {
                                    accept_native_step(
                                        *old(self),
                                        *final(self),
                                        cont,
                                        ctx.program_id,
                                        j + 1,
                                        s,
                                    )
                                }
                            },
                            AcceptStage::AssetOut => {
                                if cont.ft_contract_id is None {
                                    s == Step::Failed(MarketErr::WrongTransaction) && *final(self)
                                        == *old(self)
                                } else if ok {
                                    accept_committed(
                                        *old(self),
                                        *final(self),
                                        c,
                                        t,
                                        cont.buyer,
                                        cont.ft_contract_id,
                                        cont.price,
                                    ) && s == Step::Done(
                                        MarketEvent::OfferAccepted {
                                            nft_contract_id: c,
                                            token_id: t,
                                            new_owner: cont.buyer,
                                            price: cont.price,
                                        },
                                    )
                                } else {
                                    s == Step::Failed(MarketErr::RerunTransaction) && *final(self)
                                        == *old(self)
                                }
                            },
                            AcceptStage::DirectAsset => {
                                if cont.ft_contract_id is Some {
                                    s == Step::Failed(MarketErr::WrongTransaction) && *final(self)
                                        == *old(self)
                                } else if ok {
                                    accept_native_step(
                                        *old(self),
                                        *final(self),
                                        cont,
                                        ctx.program_id,
                                        0,
                                        s,
                                    )
                                } else {
                                    crate::sale::slot_cleared(*old(self), *final(self), c, t) && s
                                        == Step::Failed(MarketErr::TransferFailed)
                                }
                            },
                        }
                    }
                }
            }),
    {
        let c = cont.nft_contract_id;
        let t = cont.token_id;
        let i = match self.find_item(c, t) {
            None => {
                return Step::Failed(MarketErr::ItemNotFound);
            },
            Some(i) => i,
        };
        proof {
            lemma_spec_item_is(*self, c, t, i as int);
        }
        let kind = MarketTx::AcceptOffer {
            ft_contract_id: cont.ft_contract_id,
            price: cont.price,
        };
        let e = &self.items[i];
        let slot_ok = match &e.item.tx {
            Some((id, k)) => *id == cont.tx_id && tx_eq(k, &kind),
            None => false,
        };
        let oj = match find_offer(&e.item.offers, cont.ft_contract_id, cont.price) {
            Some(oj) => oj,
            None => {
                return Step::Failed(MarketErr::WrongTransaction);
            },
        };
        proof {
            lemma_offer_account_is(e.item, cont.ft_contract_id, cont.price, oj as int);
        }
        if !slot_ok || e.item.offers[oj].account != cont.buyer {
            return Step::Failed(MarketErr::WrongTransaction);
        }
        let owner0 = e.item.owner;
        let ft0 = e.item.ft_contract_id;
        let price0 = e.item.price;
        let auction0 = e.item.auction;
        let n = cont.payouts.len();
        match cont.stage {
            AcceptStage::AssetIn => {
                if cont.ft_contract_id.is_none() {
                    return Step::Failed(MarketErr::WrongTransaction);
                }
                if ok {
                    accept_token_next(cont, ctx.program_id, 0)
                } else {
                    self.rewrite_item(i, owner0, ft0, price0, auction0, None);
                    proof {
                        let it1 = Item {
                            owner: owner0,
                            ft_contract_id: ft0,
                            price: price0,
                            auction: auction0,
                            offers: old(self).items@[i as int].item.offers,
                            tx: None,
                        };
                        assert(it1.wf());
                        lemma_set_item_effect(*old(self), *self, c, t, i as int, it1);
                    }
                    Step::Failed(MarketErr::TransferFailed)
                }
            },
            AcceptStage::Disburse(j) => {
                if j >= n {
                    return Step::Failed(MarketErr::WrongTransaction);
                }
                if !ok {
                    return Step::Failed(MarketErr::RerunTransaction);
                }
                if cont.ft_contract_id.is_some() {
                    accept_token_next(cont, ctx.program_id, j + 1)
                } else {
                    self.accept_native_tail(i, cont, j + 1, ctx)
                }
            },
            AcceptStage::AssetOut => {
                if cont.ft_contract_id.is_none() {
                    return Step::Failed(MarketErr::WrongTransaction);
                }
                if !ok {
                    return Step::Failed(MarketErr::RerunTransaction);
                }
                self.remove_offer_item(i, oj, cont.buyer, None, None);
                proof {
                    let it1 = self.items@[i as int].item;
                    lemma_offers_remove_wf(old(self).items@[i as int].item.offers@, oj as int);
                    assert(it1.wf());
                    assert(self.items@ == crate::market::items_with(*old(self), i as int, it1));
                    lemma_set_item_effect(*old(self), *self, c, t, i as int, it1);
                }
                Step::Done(
                    MarketEvent::OfferAccepted {
                        nft_contract_id: c,
                        token_id: t,
                        new_owner: cont.buyer,
                        price: cont.price,
                    },
                )
            },
            AcceptStage::DirectAsset => {
                if cont.ft_contract_id.is_some() {
                    return Step::Failed(MarketErr::WrongTransaction);
                }
                if ok {
                    self.accept_native_tail(i, cont, 0, ctx)
                } else {
                    self.rewrite_item(i, owner0, ft0, price0, auction0, None);
                    proof {
                        let it1 = Item {
                            owner: owner0,
                            ft_contract_id: ft0,
                            price: price0,
                            auction: auction0,
                            offers: old(self).items@[i as int].item.offers,
                            tx: None,
                        };
                        assert(it1.wf());
                        lemma_set_item_effect(*old(self), *self, c, t, i as int, it1);
                    }
                    Step::Failed(MarketErr::TransferFailed)
                }
            },
        }
    }
}

/// The account behind the offer found at position `j` is what
/// `offer_account` denotes.
pub proof fn lemma_offer_account_is(it: Item, ft: Option<ContractId>, price: Price, j: int)
    requires
        it.wf(),
        0 <= j < it.offers@.len(),
        it.offers@[j].ft_contract_id == ft,
        it.offers@[j].price == price,
    ensures
        it.has_offer(ft, price),
        it.offer_account(ft, price) == it.offers@[j].account,
{
    assert(it.has_offer(ft, price));
    let k = choose|k: int|
        0 <= k < it.offers@.len() && (#[trigger] it.offers@[k]).ft_contract_id == ft
            && it.offers@[k].price == price;
    if k != j {
        if k < j {
            assert(!crate::types::same_offer_key(it.offers@[k], it.offers@[j]));
        } else {
            assert(!crate::types::same_offer_key(it.offers@[j], it.offers@[k]));
        }
    }
}

} // verus!
