//! The fixed-price sale protocol.
//!
//! A purchase runs as a saga of idempotent external transfers: the asset
//! moves into marketplace custody, the price is collected from the buyer
//! (or arrives as attached native value), the proceeds go out to every
//! payee, and the asset is released to the buyer.  Failure before the
//! proceeds start moving is fully reversible: the saga slot is cleared, any
//! escrowed asset returns, and the caller may retry from scratch
//! (`TransferFailed`).  Failure after that point must be resumed, not
//! restarted: the slot stays populated and the caller resubmits the
//! identical request (`RerunTransaction`), which replays the saga under the
//! same transaction ids so the ledgers deduplicate the finished steps.

use vstd::prelude::*;

use crate::market::lemma_set_item_effect;
use crate::market::lemma_spec_item_is;
use crate::market::same_config;
use crate::market::spec_treasury_fee;
use crate::market::treasury_fee_of;
use crate::saga::begin_or_resume;
use crate::saga::opt_id_eq;
use crate::saga::tx_eq;
use crate::types::ActorId;
use crate::types::ContractId;
use crate::types::Ctx;
use crate::types::Item;
use crate::types::Market;
use crate::types::MarketErr;
use crate::types::MarketEvent;
use crate::types::MarketTx;
use crate::types::Payout;
use crate::types::PayoutCont;
use crate::types::PayoutQuery;
use crate::types::Price;
use crate::types::SaleCont;
use crate::types::SalePayoutCont;
use crate::types::SaleStage;
use crate::types::Step;
use crate::types::TokenId;
use crate::types::Transfer;
use crate::types::TransferCont;
use crate::types::MINIMUM_VALUE;

verus! {

/// The payout list after setting the treasury's entry: the first entry
/// already naming `account` is overwritten, otherwise one is appended.
pub open spec fn upserted(v0: Seq<Payout>, account: ActorId, amount: Price, v1: Seq<Payout>) -> bool {
    if exists|j: int| 0 <= j < v0.len() && (#[trigger] v0[j]).account == account {
        exists|j: int|
            {
                &&& 0 <= j < v0.len()
                &&& (#[trigger] v0[j]).account == account
                &&& (forall|k: int| 0 <= k < j ==> (#[trigger] v0[k]).account != account)
                &&& v1 == v0.update(j, Payout { account, amount })
            }
    } else {
        v1 == v0.push(Payout { account, amount })
    }
}

/// Set the treasury's entry in a payout list.
pub fn add_treasury(payouts: &mut Vec<Payout>, account: ActorId, amount: Price)
    ensures
        upserted(old(payouts)@, account, amount, final(payouts)@),
{
    let mut k: usize = 0;
    while k < payouts.len()
        invariant
            k <= payouts@.len(),
            payouts@ == old(payouts)@,
            forall|j: int| 0 <= j < k ==> (#[trigger] payouts@[j]).account != account,
        decreases payouts@.len() - k,
    {
        if payouts[k].account == account {
            let e = payouts.remove(k);
            payouts.insert(k, Payout { account, amount });
            proof {
                crate::market::lemma_remove_insert(
                    old(payouts)@,
                    k as int,
                    Payout { account, amount },
                );
            }
            return ;
        }
        k += 1;
    }
    payouts.push(Payout { account, amount });
}

/// A payee of a native-value sale that actually gets a send: the
/// marketplace itself is skipped, and dust-sized sales send nothing.
pub open spec fn native_payable(p: Payout, program: ActorId, price: Price) -> bool {
    p.account != program && price > MINIMUM_VALUE as Price
}

/// `j` is the first position at or after `from` whose payee gets a native
/// send (`j == len` when none is left).
pub open spec fn first_native_payee(
    v: Seq<Payout>,
    program: ActorId,
    price: Price,
    from: int,
    j: int,
) -> bool {
    &&& from <= j <= v.len()
    &&& (forall|k: int| from <= k < j ==> !native_payable(#[trigger] v[k], program, price))
    &&& (j < v.len() ==> native_payable(v[j], program, price))
}

/// Scan for the next payee of a native-value sale.
pub fn native_next(v: &Vec<Payout>, program: ActorId, price: Price, from: usize) -> (j: usize)
    requires
        from <= v@.len(),
    ensures
        j <= v@.len(),
        first_native_payee(v@, program, price, from as int, j as int),
{
    let mut k: usize = from;
    while k < v.len()
        invariant
            from <= k <= v@.len(),
            forall|x: int| from <= x < k ==> !native_payable(#[trigger] v@[x], program, price),
        decreases v@.len() - k,
    {
        if v[k].account != program && price > MINIMUM_VALUE as u128 {
            return k;
        }
        k += 1;
    }
    k
}

/// The continuations agree everywhere but in their stage.
pub open spec fn same_sale_cont(a: SaleCont, b: SaleCont) -> bool {
    &&& a.nft_contract_id == b.nft_contract_id
    &&& a.token_id == b.token_id
    &&& a.buyer == b.buyer
    &&& a.ft_contract_id == b.ft_contract_id
    &&& a.price == b.price
    &&& a.payouts == b.payouts
    &&& a.tx_id == b.tx_id
}

/// The operation rolled back: the listing is as it was, except that its
/// saga slot is clear; nothing else in the market moved.
pub open spec fn slot_cleared(m0: Market, m1: Market, c: ContractId, t: TokenId) -> bool {
    &&& Market::same_but_item(m0, m1, c, t)
    &&& m1.tx_id == m0.tx_id
    &&& m1.has_item(c, t)
    &&& ({
        let it0 = m0.spec_item(c, t);
        let it1 = m1.spec_item(c, t);
        &&& it1.owner == it0.owner
        &&& it1.ft_contract_id == it0.ft_contract_id
        &&& it1.price == it0.price
        &&& it1.auction == it0.auction
        &&& it1.offers@ == it0.offers@
        &&& it1.tx is None
    })
}

/// The sale committed: the buyer owns the listing, it is no longer on
/// sale, the saga slot is clear, and nothing else moved.
pub open spec fn sale_committed(
    m0: Market,
    m1: Market,
    c: ContractId,
    t: TokenId,
    buyer: ActorId,
) -> bool {
    &&& Market::same_but_item(m0, m1, c, t)
    &&& m1.tx_id == m0.tx_id
    &&& m1.has_item(c, t)
    &&& ({
        let it0 = m0.spec_item(c, t);
        let it1 = m1.spec_item(c, t);
        &&& it1.owner == buyer
        &&& it1.ft_contract_id == it0.ft_contract_id
        &&& it1.price is None
        &&& it1.auction == it0.auction
        &&& it1.offers@ == it0.offers@
        &&& it1.tx is None
    })
}

/// The next call of the token-path disbursement tail: the payee at `from`,
/// or the asset's release to the buyer once every payee is done.
pub open spec fn token_disburse_step(cont: SaleCont, program: ActorId, from: int, s: Step) -> bool {
    let n = cont.payouts@.len() as int;
    if from < n {
        &&& s matches Step::AskTransfer(tr, TransferCont::Sale(c2))
        &&& same_sale_cont(c2, cont)
        &&& c2.stage == SaleStage::Disburse(from as usize)
        &&& tr == (Transfer::Currency {
            tx_id: cont.tx_id.wrapping_add((from as u64).wrapping_add(3)),
            ft_contract_id: cont.ft_contract_id.unwrap(),
            sender: program,
            recipient: cont.payouts@[from].account,
            amount: cont.payouts@[from].amount,
        })
    } else {
        &&& s matches Step::AskTransfer(tr, TransferCont::Sale(c2))
        &&& same_sale_cont(c2, cont)
        &&& c2.stage == SaleStage::AssetOut
        &&& tr == (Transfer::Asset {
            tx_id: cont.tx_id.wrapping_add((n as u64).wrapping_add(3)),
            nft_contract_id: cont.nft_contract_id,
            to: cont.buyer,
            token_id: cont.token_id,
        })
    }
}

/// The next call of the native-path disbursement tail: the first payable
/// payee at or after `from`, or the asset's release to the buyer.
pub open spec fn native_disburse_step(cont: SaleCont, program: ActorId, from: int, s: Step) -> bool {
    let n = cont.payouts@.len() as int;
    exists|j: int|
        {
            &&& #[trigger] first_native_payee(cont.payouts@, program, cont.price, from, j)
            &&& if j < n {
                &&& s matches Step::AskTransfer(tr, TransferCont::Sale(c2))
                &&& same_sale_cont(c2, cont)
                &&& c2.stage == SaleStage::Disburse(j as usize)
                &&& tr == (Transfer::Native {
                    to: cont.payouts@[j].account,
                    amount: cont.payouts@[j].amount,
                })
            } else {
                &&& s matches Step::AskTransfer(tr, TransferCont::Sale(c2))
                &&& same_sale_cont(c2, cont)
                &&& c2.stage == SaleStage::AssetOut
                &&& tr == (Transfer::Asset {
                    tx_id: cont.tx_id.wrapping_add(1),
                    nft_contract_id: cont.nft_contract_id,
                    to: cont.buyer,
                    token_id: cont.token_id,
                })
            }
        }
}

/// Build the next disbursement step of a token-path sale.
fn token_next_step(cont: SaleCont, program: ActorId, from: usize) -> (s: Step)
    requires
        cont.ft_contract_id is Some,
        from <= cont.payouts@.len(),
    ensures
        token_disburse_step(cont, program, from as int, s),
{
    let n = cont.payouts.len();
    let ft = match cont.ft_contract_id {
        Some(f) => f,
        None => 0,
    };
    if from < n {
        let p = cont.payouts[from];
        let id = cont.tx_id.wrapping_add((from as u64).wrapping_add(3));
        let c = cont.nft_contract_id;
        let t = cont.token_id;
        let buyer = cont.buyer;
        let ftc = cont.ft_contract_id;
        let price = cont.price;
        let tx_id = cont.tx_id;
        Step::AskTransfer(
            Transfer::Currency {
                tx_id: id,
                ft_contract_id: ft,
                sender: program,
                recipient: p.account,
                amount: p.amount,
            },
            TransferCont::Sale(
                SaleCont {
                    nft_contract_id: c,
                    token_id: t,
                    buyer,
                    ft_contract_id: ftc,
                    price,
                    payouts: cont.payouts,
                    tx_id,
                    stage: SaleStage::Disburse(from),
                },
            ),
        )
    } else {
        let id = cont.tx_id.wrapping_add((n as u64).wrapping_add(3));
        let c = cont.nft_contract_id;
        let t = cont.token_id;
        let buyer = cont.buyer;
        let ftc = cont.ft_contract_id;
        let price = cont.price;
        let tx_id = cont.tx_id;
        Step::AskTransfer(
            Transfer::Asset { tx_id: id, nft_contract_id: c, to: buyer, token_id: t },
            TransferCont::Sale(
                SaleCont {
                    nft_contract_id: c,
                    token_id: t,
                    buyer,
                    ft_contract_id: ftc,
                    price,
                    payouts: cont.payouts,
                    tx_id,
                    stage: SaleStage::AssetOut,
                },
            ),
        )
    }
}

/// Build the next disbursement step of a native-path sale.
fn native_next_step(cont: SaleCont, program: ActorId, from: usize) -> (s: Step)
    requires
        from <= cont.payouts@.len(),
    ensures
        native_disburse_step(cont, program, from as int, s),
{
    let n = cont.payouts.len();
    let j = native_next(&cont.payouts, program, cont.price, from);
    let c = cont.nft_contract_id;
    let t = cont.token_id;
    let buyer = cont.buyer;
    let ftc = cont.ft_contract_id;
    let price = cont.price;
    let tx_id = cont.tx_id;
    if j < n {
        let p = cont.payouts[j];
        Step::AskTransfer(
            Transfer::Native { to: p.account, amount: p.amount },
            TransferCont::Sale(
                SaleCont {
                    nft_contract_id: c,
                    token_id: t,
                    buyer,
                    ft_contract_id: ftc,
                    price,
                    payouts: cont.payouts,
                    tx_id,
                    stage: SaleStage::Disburse(j),
                },
            ),
        )
    } else {
        Step::AskTransfer(
            Transfer::Asset {
                tx_id: cont.tx_id.wrapping_add(1),
                nft_contract_id: c,
                to: buyer,
                token_id: t,
            },
            TransferCont::Sale(
                SaleCont {
                    nft_contract_id: c,
                    token_id: t,
                    buyer,
                    ft_contract_id: ftc,
                    price,
                    payouts: cont.payouts,
                    tx_id,
                    stage: SaleStage::AssetOut,
                },
            ),
        )
    }
}

impl Market {
    /// Why a purchase request is turned away before any external step, if
    /// it is.
    pub open spec fn spec_buy_err(
        self,
        c: ContractId,
        t: TokenId,
        source: ActorId,
        value: Price,
    ) -> Option<MarketErr> {
        if !self.has_item(c, t) {
            Some(MarketErr::ItemNotFound)
        } else {
            let it = self.spec_item(c, t);
            if it.auction is Some {
                Some(MarketErr::AuctionActive)
            } else if it.price is None {
                Some(MarketErr::NotOnSale)
            } else if it.ft_contract_id is None && value != it.price.unwrap() {
                Some(MarketErr::WrongAttachedValue)
            } else {
                None
            }
        }
    }

    /// Open a purchase: validate the listing and ask the driver for the
    /// royalty split of the proceeds.  Nothing is recorded yet; the saga
    /// starts when the split comes back.
    pub fn buy_item(&mut self, ctx: &Ctx, nft_contract_id: ContractId, token_id: TokenId) -> (s:
        Step)
        requires
            old(self).wf(),
        ensures
            final(self).wf(),
            *final(self) == *old(self),
            match old(self).spec_buy_err(nft_contract_id, token_id, ctx.source, ctx.value) {
                Some(e) => s == Step::Failed(e),
                None => {
                    let it = old(self).spec_item(nft_contract_id, token_id);
                    let price = it.price.unwrap();
                    let fee = spec_treasury_fee(price, old(self).treasury_fee);
                    &&& s matches Step::AskPayouts(q, PayoutCont::Sale(pc))
                    &&& q == (PayoutQuery {
                        nft_contract_id,
                        seller: it.owner,
                        amount: (price - fee) as Price,
                    })
                    &&& pc == (SalePayoutCont {
                        nft_contract_id,
                        token_id,
                        buyer: ctx.source,
                        ft_contract_id: it.ft_contract_id,
                        price,
                        fee: fee as Price,
                    })
                },
            },
    {
        let i = match self.find_item(nft_contract_id, token_id) {
            None => {
                return Step::Failed(MarketErr::ItemNotFound);
            },
            Some(i) => i,
        };
        proof {
            lemma_spec_item_is(*self, nft_contract_id, token_id, i as int);
        }
        let e = &self.items[i];
        if e.item.auction.is_some() {
            return Step::Failed(MarketErr::AuctionActive);
        }
        let price = match e.item.price {
            Some(p) => p,
            None => {
                return Step::Failed(MarketErr::NotOnSale);
            },
        };
        if e.item.ft_contract_id.is_none() && ctx.value != price {
            return Step::Failed(MarketErr::WrongAttachedValue);
        }
        let fee = treasury_fee_of(price, self.treasury_fee);
        let seller = e.item.owner;
        let ft_contract_id = e.item.ft_contract_id;
        Step::AskPayouts(
            PayoutQuery { nft_contract_id, seller, amount: price - fee },
            PayoutCont::Sale(
                SalePayoutCont {
                    nft_contract_id,
                    token_id,
                    buyer: ctx.source,
                    ft_contract_id,
                    price,
                    fee,
                },
            ),
        )
    }

    /// Why a sale saga cannot start (or resume) on the listing as it now
    /// stands, if it cannot.
    pub open spec fn spec_sale_start_err(self, cont: SalePayoutCont) -> Option<MarketErr> {
        if !self.has_item(cont.nft_contract_id, cont.token_id) {
            Some(MarketErr::ItemNotFound)
        } else {
            let it = self.spec_item(cont.nft_contract_id, cont.token_id);
            if it.auction is Some {
                Some(MarketErr::AuctionActive)
            } else if it.price != Some(cont.price) || it.ft_contract_id != cont.ft_contract_id {
                Some(MarketErr::NotOnSale)
            } else if it.tx matches Some((id, k)) && k != (MarketTx::Sale {
                buyer: cont.buyer,
                price: cont.price,
            }) {
                Some(MarketErr::WrongTransaction)
            } else {
                None
            }
        }
    }

    /// Start (or resume) a token-path sale once the royalty split is in
    /// hand: record the saga, and ask for the asset to move into custody.
    ///
    /// A fresh saga reserves one id per step — asset in, collection,
    /// a rollback slot, one per payee, asset out; a resumed one reuses the
    /// recorded window, so every replayed call carries its original id.
    pub fn sale_with_tokens(&mut self, cont: SalePayoutCont, payouts: Vec<Payout>, ctx: &Ctx) -> (s:
        Step)
        requires
            old(self).wf(),
            cont.ft_contract_id is Some,
        ensures
            final(self).wf(),
            match old(self).spec_sale_start_err(cont) {
                Some(e) => s == Step::Failed(e) && *final(self) == *old(self),
                None => {
                    let c = cont.nft_contract_id;
                    let t = cont.token_id;
                    let it = old(self).spec_item(c, t);
                    let kind = (MarketTx::Sale { buyer: cont.buyer, price: cont.price });
                    &&& s matches Step::AskTransfer(tr, TransferCont::Sale(c2))
                    &&& c2.nft_contract_id == c
                    &&& c2.token_id == t
                    &&& c2.buyer == cont.buyer
                    &&& c2.ft_contract_id == cont.ft_contract_id
                    &&& c2.price == cont.price
                    &&& c2.stage == SaleStage::AssetIn
                    &&& upserted(payouts@, old(self).treasury_id, cont.fee, c2.payouts@)
                    &&& tr == (Transfer::Asset {
                        tx_id: c2.tx_id,
                        nft_contract_id: c,
                        to: ctx.program_id,
                        token_id: t,
                    })
                    &&& match it.tx {
                        Some((id, k)) => c2.tx_id == id && *final(self) == *old(self),
                        None => {
                            &&& c2.tx_id == old(self).tx_id
                            &&& final(self).tx_id == old(self).tx_id.wrapping_add(
                                (c2.payouts@.len() as u64).wrapping_add(4),
                            )
                            &&& Market::same_but_item(*old(self), *final(self), c, t)
                            &&& final(self).has_item(c, t)
                            &&& ({
                                let it1 = final(self).spec_item(c, t);
                                &&& it1.owner == it.owner
                                &&& it1.ft_contract_id == it.ft_contract_id
                                &&& it1.price == it.price
                                &&& it1.auction == it.auction
                                &&& it1.offers@ == it.offers@
                                &&& it1.tx == Some((c2.tx_id, kind))
                            })
                        },
                    }
                },
            },
    {
        let c = cont.nft_contract_id;
        let t = cont.token_id;
        let i = match self.find_item(c, t) {
            None => {
                return Step::Failed(MarketErr::ItemNotFound);
            },
            Some(i) => i,
        };
        proof {
            lemma_spec_item_is(*self, c, t, i as int);
        }
        let e = &self.items[i];
        if e.item.auction.is_some() {
            return Step::Failed(MarketErr::AuctionActive);
        }
        let price_match = match e.item.price {
            Some(p) => p == cont.price,
            None => false,
        };
        if !price_match || !opt_id_eq(&e.item.ft_contract_id, &cont.ft_contract_id) {
            return Step::Failed(MarketErr::NotOnSale);
        }
        let owner0 = e.item.owner;
        let ft0 = e.item.ft_contract_id;
        let price0 = e.item.price;
        let auction0 = e.item.auction;
        let slot0 = e.item.tx;
        let mut payouts2 = payouts;
        add_treasury(&mut payouts2, self.treasury_id, cont.fee);
        let kind = MarketTx::Sale { buyer: cont.buyer, price: cont.price };
        let reserve = (payouts2.len() as u64).wrapping_add(4);
        let mut slot = slot0;
        let rb = begin_or_resume(&mut slot, &mut self.tx_id, kind, reserve);
        let (txid, resumed) = match rb {
            Ok(v) => v,
            Err(er) => {
                return Step::Failed(er);
            },
        };
        if !resumed {
            self.rewrite_item(i, owner0, ft0, price0, auction0, slot);
            proof {
                let it1 = Item {
                    owner: owner0,
                    ft_contract_id: old(self).items@[i as int].item.ft_contract_id,
                    price: price0,
                    auction: auction0,
                    offers: old(self).items@[i as int].item.offers,
                    tx: slot,
                };
                assert(it1.wf());
                lemma_set_item_effect(*old(self), *self, c, t, i as int, it1);
            }
        }
        Step::AskTransfer(
            Transfer::Asset { tx_id: txid, nft_contract_id: c, to: ctx.program_id, token_id: t },
            TransferCont::Sale(
                SaleCont {
                    nft_contract_id: c,
                    token_id: t,
                    buyer: cont.buyer,
                    ft_contract_id: cont.ft_contract_id,
                    price: cont.price,
                    payouts: payouts2,
                    tx_id: txid,
                    stage: SaleStage::AssetIn,
                },
            ),
        )
    }

    /// Start (or resume) a native-value sale once the royalty split is in
    /// hand.  The price must arrive attached to this very request; a fresh
    /// saga reserves an id for the asset's way in and one for its way out
    /// (native sends carry no idempotency key).
    pub fn sale_with_value(&mut self, cont: SalePayoutCont, payouts: Vec<Payout>, ctx: &Ctx) -> (s:
        Step)
        requires
            old(self).wf(),
            cont.ft_contract_id is None,
        ensures
            final(self).wf(),
            ctx.value != cont.price ==> s == Step::Failed(MarketErr::WrongAttachedValue)
                && *final(self) == *old(self),
            ctx.value == cont.price ==> match old(self).spec_sale_start_err(cont) {
                Some(e) => s == Step::Failed(e) && *final(self) == *old(self),
                None => {
                    let c = cont.nft_contract_id;
                    let t = cont.token_id;
                    let it = old(self).spec_item(c, t);
                    let kind = (MarketTx::Sale { buyer: cont.buyer, price: cont.price });
                    &&& s matches Step::AskTransfer(tr, TransferCont::Sale(c2))
                    &&& c2.nft_contract_id == c
                    &&& c2.token_id == t
                    &&& c2.buyer == cont.buyer
                    &&& c2.ft_contract_id == cont.ft_contract_id
                    &&& c2.price == cont.price
                    &&& c2.stage == SaleStage::AssetIn
                    &&& upserted(payouts@, old(self).treasury_id, cont.fee, c2.payouts@)
                    &&& tr == (Transfer::Asset {
                        tx_id: c2.tx_id,
                        nft_contract_id: c,
                        to: ctx.program_id,
                        token_id: t,
                    })
                    &&& match it.tx {
                        Some((id, k)) => c2.tx_id == id && *final(self) == *old(self),
                        None => {
                            &&& c2.tx_id == old(self).tx_id
                            &&& final(self).tx_id == old(self).tx_id.wrapping_add(2)
                            &&& Market::same_but_item(*old(self), *final(self), c, t)
                            &&& final(self).has_item(c, t)
                            &&& ({
                                let it1 = final(self).spec_item(c, t);
                                &&& it1.owner == it.owner
                                &&& it1.ft_contract_id == it.ft_contract_id
                                &&& it1.price == it.price
                                &&& it1.auction == it.auction
                                &&& it1.offers@ == it.offers@
                                &&& it1.tx == Some((c2.tx_id, kind))
                            })
                        },
                    }
                },
            },
    {
        if ctx.value != cont.price {
            return Step::Failed(MarketErr::WrongAttachedValue);
        }
        let c = cont.nft_contract_id;
        let t = cont.token_id;
        let i = match self.find_item(c, t) {
            None => {
                return Step::Failed(MarketErr::ItemNotFound);
            },
            Some(i) => i,
        };
        proof {
            lemma_spec_item_is(*self, c, t, i as int);
        }
        let e = &self.items[i];
        if e.item.auction.is_some() {
            return Step::Failed(MarketErr::AuctionActive);
        }
        let price_match = match e.item.price {
            Some(p) => p == cont.price,
            None => false,
        };
        if !price_match || e.item.ft_contract_id.is_some() {
            return Step::Failed(MarketErr::NotOnSale);
        }
        let owner0 = e.item.owner;
        let ft0 = e.item.ft_contract_id;
        let price0 = e.item.price;
        let auction0 = e.item.auction;
        let slot0 = e.item.tx;
        let mut payouts2 = payouts;
        add_treasury(&mut payouts2, self.treasury_id, cont.fee);
        let kind = MarketTx::Sale { buyer: cont.buyer, price: cont.price };
        let mut slot = slot0;
        let rb = begin_or_resume(&mut slot, &mut self.tx_id, kind, 2);
        let (txid, resumed) = match rb {
            Ok(v) => v,
            Err(er) => {
                return Step::Failed(er);
            },
        };
        if !resumed {
            self.rewrite_item(i, owner0, ft0, price0, auction0, slot);
            proof {
                let it1 = Item {
                    owner: owner0,
                    ft_contract_id: old(self).items@[i as int].item.ft_contract_id,
                    price: price0,
                    auction: auction0,
                    offers: old(self).items@[i as int].item.offers,
                    tx: slot,
                };
                assert(it1.wf());
                lemma_set_item_effect(*old(self), *self, c, t, i as int, it1);
            }
        }
        Step::AskTransfer(
            Transfer::Asset { tx_id: txid, nft_contract_id: c, to: ctx.program_id, token_id: t },
            TransferCont::Sale(
                SaleCont {
                    nft_contract_id: c,
                    token_id: t,
                    buyer: cont.buyer,
                    ft_contract_id: cont.ft_contract_id,
                    price: cont.price,
                    payouts: payouts2,
                    tx_id: txid,
                    stage: SaleStage::AssetIn,
                },
            ),
        )
    }

    /// Drive a sale one step further on the reply to its last external
    /// call.
    ///
    /// Before the buyer's money moves, failure rolls back: the asset
    /// returns, the slot clears, the caller may retry from scratch.  From
    /// the first disbursement on, failure keeps the slot and demands the
    /// identical request again (`RerunTransaction`).  A continuation whose
    /// listing or recorded saga no longer matches is refused without any
    /// change.
    pub fn continue_sale(&mut self, cont: SaleCont, ok: bool, ctx: &Ctx) -> (s: Step)
        requires
            old(self).wf(),
        ensures
            final(self).wf(),
            ({
                let c = cont.nft_contract_id;
                let t = cont.token_id;
                let n = cont.payouts@.len() as int;
                if !old(self).has_item(c, t) {
                    s == Step::Failed(MarketErr::ItemNotFound) && *final(self) == *old(self)
                } else {
                    let it = old(self).spec_item(c, t);
                    if it.tx != Some(
                        (cont.tx_id, MarketTx::Sale { buyer: cont.buyer, price: cont.price }),
                    ) {
                        s == Step::Failed(MarketErr::WrongTransaction) && *final(self) == *old(self)
                    } else {
                        match cont.stage {
                            SaleStage::AssetIn => {
                                if ok {
                                    *final(self) == *old(self) && match cont.ft_contract_id {
                                        Some(f) => {
                                            &&& s matches Step::AskTransfer(
                                                tr,
                                                TransferCont::Sale(c2),
                                            )
                                            &&& same_sale_cont(c2, cont)
                                            &&& c2.stage == SaleStage::CurrencyIn
                                            &&& tr == (Transfer::Currency {
                                                tx_id: cont.tx_id.wrapping_add(1),
                                                ft_contract_id: f,
                                                sender: cont.buyer,
                                                recipient: ctx.program_id,
                                                amount: cont.price,
                                            })
                                        },
                                        None => native_disburse_step(cont, ctx.program_id, 0, s),
                                    }
                                } else {
                                    slot_cleared(*old(self), *final(self), c, t) && s
                                        == Step::Failed(MarketErr::TransferFailed)
                                }
                            },
                            SaleStage::CurrencyIn => {
                                if cont.ft_contract_id is None {
                                    s == Step::Failed(MarketErr::WrongTransaction) && *final(self)
                                        == *old(self)
                                } else if ok {
                                    *final(self) == *old(self) && token_disburse_step(
                                        cont,
                                        ctx.program_id,
                                        0,
                                        s,
                                    )
                                } else {
                                    &&& *final(self) == *old(self)
                                    &&& s matches Step::AskTransfer(tr, TransferCont::Sale(c2))
                                    &&& same_sale_cont(c2, cont)
                                    &&& c2.stage == SaleStage::ReturnAsset
                                    &&& tr == (Transfer::Asset {
                                        tx_id: cont.tx_id.wrapping_add(2),
                                        nft_contract_id: c,
                                        to: it.owner,
                                        token_id: t,
                                    })
                                }
                            },
                            SaleStage::ReturnAsset => {
                                if ok {
                                    slot_cleared(*old(self), *final(self), c, t) && s
                                        == Step::Failed(MarketErr::TransferFailed)
                                } else {
                                    *final(self) == *old(self) && s == Step::Failed(
                                        MarketErr::RerunTransaction,
                                    )
                                }
                            },
                            SaleStage::Disburse(j0) => {
                                let j = j0 as int;
                                if j >= n {
                                    s == Step::Failed(MarketErr::WrongTransaction) && *final(self)
                                        == *old(self)
                                } else if !ok {
                                    *final(self) == *old(self) && s == Step::Failed(
                                        MarketErr::RerunTransaction,
                                    )
                                } else {
                                    *final(self) == *old(self) && if cont.ft_contract_id is Some {
                                        token_disburse_step(cont, ctx.program_id, j + 1, s)
                                    } else {
                                        native_disburse_step(cont, ctx.program_id, j + 1, s)
                                    }
                                }
                            },
                            SaleStage::AssetOut => {
                                if ok {
                                    sale_committed(*old(self), *final(self), c, t, cont.buyer) && s
                                        == Step::Done(
                                        MarketEvent::ItemSold {
                                            owner: cont.buyer,
                                            nft_contract_id: c,
                                            token_id: t,
                                        },
                                    )
                                } else {
                                    *final(self) == *old(self) && s == Step::Failed(
                                        MarketErr::RerunTransaction,
                                    )
                                }
                            },
                        }
                    }
                }
            }),
    {
        let c = cont.nft_contract_id;
        let t = cont.token_id;
        let i = match self.find_item(c, t) {
            None => {
                return Step::Failed(MarketErr::ItemNotFound);
            },
            Some(i) => i,
        };
        proof {
            lemma_spec_item_is(*self, c, t, i as int);
        }
        let e = &self.items[i];
        let slot_ok = match &e.item.tx {
            Some((id, k)) => *id == cont.tx_id && tx_eq(
                k,
                &(MarketTx::Sale { buyer: cont.buyer, price: cont.price }),
            ),
            None => false,
        };
        if !slot_ok {
            return Step::Failed(MarketErr::WrongTransaction);
        }
        let owner0 = e.item.owner;
        let ft0 = e.item.ft_contract_id;
        let price0 = e.item.price;
        let auction0 = e.item.auction;
        let n = cont.payouts.len();
        match cont.stage {
            SaleStage::AssetIn => {
                if ok {
                    match cont.ft_contract_id {
                        Some(f) => {
                            let id = cont.tx_id.wrapping_add(1);
                            let buyer = cont.buyer;
                            let ftc = cont.ft_contract_id;
                            let price = cont.price;
                            let tx_id = cont.tx_id;
                            Step::AskTransfer(
                                Transfer::Currency {
                                    tx_id: id,
                                    ft_contract_id: f,
                                    sender: buyer,
                                    recipient: ctx.program_id,
                                    amount: price,
                                },
                                TransferCont::Sale(
                                    SaleCont {
                                        nft_contract_id: c,
                                        token_id: t,
                                        buyer,
                                        ft_contract_id: ftc,
                                        price,
                                        payouts: cont.payouts,
                                        tx_id,
                                        stage: SaleStage::CurrencyIn,
                                    },
                                ),
                            )
                        },
                        None => native_next_step(cont, ctx.program_id, 0),
                    }
                } else {
                    self.rewrite_item(i, owner0, ft0, price0, auction0, None);
                    proof {
                        let it1 = Item {
                            owner: owner0,
                            ft_contract_id: old(self).items@[i as int].item.ft_contract_id,
                            price: price0,
                            auction: auction0,
                            offers: old(self).items@[i as int].item.offers,
                            tx: None,
                        };
                        assert(it1.wf());
                        lemma_set_item_effect(*old(self), *self, c, t, i as int, it1);
                    }
                    Step::Failed(MarketErr::TransferFailed)
                }
            },
            SaleStage::CurrencyIn => {
                if cont.ft_contract_id.is_none() {
                    return Step::Failed(MarketErr::WrongTransaction);
                }
                if ok {
                    token_next_step(cont, ctx.program_id, 0)
                } else {
                    let buyer = cont.buyer;
                    let ftc = cont.ft_contract_id;
                    let price = cont.price;
                    let tx_id = cont.tx_id;
                    Step::AskTransfer(
                        Transfer::Asset {
                            tx_id: cont.tx_id.wrapping_add(2),
                            nft_contract_id: c,
                            to: owner0,
                            token_id: t,
                        },
                        TransferCont::Sale(
                            SaleCont {
                                nft_contract_id: c,
                                token_id: t,
                                buyer,
                                ft_contract_id: ftc,
                                price,
                                payouts: cont.payouts,
                                tx_id,
                                stage: SaleStage::ReturnAsset,
                            },
                        ),
                    )
                }
            },
            SaleStage::ReturnAsset => {
                if ok {
                    self.rewrite_item(i, owner0, ft0, price0, auction0, None);
                    proof {
                        let it1 = Item {
                            owner: owner0,
                            ft_contract_id: old(self).items@[i as int].item.ft_contract_id,
                            price: price0,
                            auction: auction0,
                            offers: old(self).items@[i as int].item.offers,
                            tx: None,
                        };
                        assert(it1.wf());
                        lemma_set_item_effect(*old(self), *self, c, t, i as int, it1);
                    }
                    Step::Failed(MarketErr::TransferFailed)
                } else {
                    Step::Failed(MarketErr::RerunTransaction)
                }
            },
            SaleStage::Disburse(j) => {
                if j >= n {
                    return Step::Failed(MarketErr::WrongTransaction);
                }
                if !ok {
                    return Step::Failed(MarketErr::RerunTransaction);
                }
                if cont.ft_contract_id.is_some() {
                    token_next_step(cont, ctx.program_id, j + 1)
                } else {
                    native_next_step(cont, ctx.program_id, j + 1)
                }
            },
            SaleStage::AssetOut => {
                if ok {
                    self.rewrite_item(i, cont.buyer, ft0, None, auction0, None);
                    proof {
                        let it1 = Item {
                            owner: cont.buyer,
                            ft_contract_id: old(self).items@[i as int].item.ft_contract_id,
                            price: None,
                            auction: auction0,
                            offers: old(self).items@[i as int].item.offers,
                            tx: None,
                        };
                        assert(it1.wf());
                        lemma_set_item_effect(*old(self), *self, c, t, i as int, it1);
                    }
                    Step::Done(
                        MarketEvent::ItemSold { owner: cont.buyer, nft_contract_id: c, token_id: t },
                    )
                } else {
                    Step::Failed(MarketErr::RerunTransaction)
                }
            },
        }
    }
}

} // verus!
