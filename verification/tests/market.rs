use nft_marketplace::types::ActorId;
use nft_marketplace::types::ContractId;
use nft_marketplace::types::Ctx;
use nft_marketplace::types::Market;
use nft_marketplace::types::MarketErr;
use nft_marketplace::types::MarketEvent;
use nft_marketplace::types::MarketTx;
use nft_marketplace::types::Payout;
use nft_marketplace::types::PayoutCont;
use nft_marketplace::types::PayoutQuery;
use nft_marketplace::types::Price;
use nft_marketplace::types::Step;
use nft_marketplace::types::TokenId;
use nft_marketplace::types::Transfer;
use nft_marketplace::types::TransferCont;

const ADMIN: ActorId = 10;
const TREASURY_ID: ActorId = 11;
const PROGRAM_ID: ActorId = 1;
const SELLER: ActorId = 20;
const BUYER: ActorId = 21;
const BIDDER1: ActorId = 22;
const BIDDER2: ActorId = 23;
const ROYALTY_ACCOUNT: ActorId = 24;
const NFT_CONTRACT: ContractId = 100;
const FT_CONTRACT: ContractId = 200;
const TOKEN_ID: TokenId = 7;
const NFT_PRICE: Price = 100_000;
const TREASURY_FEE: u16 = 3;
const BASE_PERCENT: u16 = 100;
const BID_PERIOD: u64 = 60_000;
const DURATION: u64 = 60_000;

/// An in-memory stand-in for the custodial ledgers and the royalty
/// calculator, with idempotency keys deduplicated the way the real
/// gateway promises.
struct World {
    asset_owner: Vec<((ContractId, TokenId), ActorId)>,
    balances: Vec<((Option<ContractId>, ActorId), Price)>,
    done_keys: Vec<u64>,
    royalty_bps: u32,
    fail_currency_to: Option<(ActorId, u32)>,
    fail_asset_to: Option<(ActorId, u32)>,
}

impl World {
    fn new() -> World {
        World {
            asset_owner: Vec::new(),
            balances: Vec::new(),
            done_keys: Vec::new(),
            royalty_bps: 0,
            fail_currency_to: None,
            fail_asset_to: None,
        }
    }

    fn set_owner(&mut self, c: ContractId, t: TokenId, who: ActorId) {
        for e in self.asset_owner.iter_mut() {
            if e.0 == (c, t) {
                e.1 = who;
                return;
            }
        }
        self.asset_owner.push(((c, t), who));
    }

    fn owner_of(&self, c: ContractId, t: TokenId) -> ActorId {
        for e in self.asset_owner.iter() {
            if e.0 == (c, t) {
                return e.1;
            }
        }
        0
    }

    fn balance_of(&self, cur: Option<ContractId>, who: ActorId) -> Price {
        for e in self.balances.iter() {
            if e.0 == (cur, who) {
                return e.1;
            }
        }
        0
    }

    fn credit(&mut self, cur: Option<ContractId>, who: ActorId, amount: Price) {
        for e in self.balances.iter_mut() {
            if e.0 == (cur, who) {
                e.1 += amount;
                return;
            }
        }
        self.balances.push(((cur, who), amount));
    }

    fn debit(&mut self, cur: Option<ContractId>, who: ActorId, amount: Price) -> bool {
        for e in self.balances.iter_mut() {
            if e.0 == (cur, who) {
                if e.1 < amount {
                    return false;
                }
                e.1 -= amount;
                return true;
            }
        }
        amount == 0
    }

    fn payouts_for(&self, q: &PayoutQuery) -> Vec<Payout> {
        let royalty = q.amount * (self.royalty_bps as Price) / 10_000;
        let mut v = Vec::new();
        if royalty > 0 {
            v.push(Payout { account: ROYALTY_ACCOUNT, amount: royalty });
        }
        v.push(Payout { account: q.seller, amount: q.amount - royalty });
        v
    }

    fn should_fail_currency(&mut self, to: ActorId) -> bool {
        if let Some((who, n)) = self.fail_currency_to {
            if who == to && n > 0 {
                self.fail_currency_to = Some((who, n - 1));
                return true;
            }
        }
        false
    }

    fn should_fail_asset(&mut self, to: ActorId) -> bool {
        if let Some((who, n)) = self.fail_asset_to {
            if who == to && n > 0 {
                self.fail_asset_to = Some((who, n - 1));
                return true;
            }
        }
        false
    }

    fn perform(&mut self, tr: &Transfer) -> bool {
        match *tr {
            Transfer::Asset { tx_id, nft_contract_id, to, token_id } => {
                if self.done_keys.contains(&tx_id) {
                    return true;
                }
                if self.should_fail_asset(to) {
                    return false;
                }
                self.set_owner(nft_contract_id, token_id, to);
                self.done_keys.push(tx_id);
                true
            }
            Transfer::Currency { tx_id, ft_contract_id, sender, recipient, amount } => {
                if self.done_keys.contains(&tx_id) {
                    return true;
                }
                if self.should_fail_currency(recipient) {
                    return false;
                }
                if !self.debit(Some(ft_contract_id), sender, amount) {
                    return false;
                }
                self.credit(Some(ft_contract_id), recipient, amount);
                self.done_keys.push(tx_id);
                true
            }
            Transfer::Native { to, amount } => {
                if !self.debit(None, PROGRAM_ID, amount) {
                    return false;
                }
                self.credit(None, to, amount);
                true
            }
        }
    }
}

fn ctx(source: ActorId, value: Price, now: u64) -> Ctx {
    Ctx { source, value, block_timestamp: now, program_id: PROGRAM_ID }
}

/// Run an operation's saga to its end against the simulated world.
fn drive(m: &mut Market, w: &mut World, c: &Ctx, first: Step) -> Result<MarketEvent, MarketErr> {
    let mut s = first;
    loop {
        match s {
            Step::Done(ev) => return Ok(ev),
            Step::Failed(e) => return Err(e),
            Step::AskPayouts(q, pc) => {
                let payouts = w.payouts_for(&q);
                s = match pc {
                    PayoutCont::Sale(k) => {
                        if k.ft_contract_id.is_some() {
                            m.sale_with_tokens(k, payouts, c)
                        } else {
                            m.sale_with_value(k, payouts, c)
                        }
                    }
                    PayoutCont::Settle(k) => m.settle_with_payouts(k, payouts, c),
                    PayoutCont::Accept(k) => {
                        if k.ft_contract_id.is_some() {
                            m.accept_offer_tx(k, payouts, c)
                        } else {
                            m.accept_offer_tx_with_value(k, payouts, c)
                        }
                    }
                };
            }
            Step::AskTransfer(tr, k) => {
                let ok = w.perform(&tr);
                s = match k {
                    TransferCont::Sale(kc) => m.continue_sale(kc, ok, c),
                    TransferCont::CreateAuction(kc) => m.continue_create_auction(kc, ok, c),
                    TransferCont::Bid(kc) => m.continue_bid(kc, ok, c),
                    TransferCont::Settle(kc) => m.continue_settle(kc, ok, c),
                    TransferCont::Offer(kc) => m.continue_add_offer(kc, ok, c),
                    TransferCont::Accept(kc) => m.continue_accept(kc, ok, c),
                    TransferCont::Withdraw(kc) => m.continue_withdraw(kc, ok, c),
                };
            }
        }
    }
}

fn setup() -> (Market, World) {
    let mut m = Market::new(ADMIN, TREASURY_ID, TREASURY_FEE);
    let w = World::new();
    let a = ctx(ADMIN, 0, 0);
    m.add_nft_contract(&a, NFT_CONTRACT).unwrap();
    m.add_ft_contract(&a, FT_CONTRACT).unwrap();
    (m, w)
}

fn list_item(m: &mut Market, w: &mut World, ft: Option<ContractId>, price: Option<Price>) {
    w.set_owner(NFT_CONTRACT, TOKEN_ID, SELLER);
    let c = ctx(SELLER, 0, 0);
    let owner = w.owner_of(NFT_CONTRACT, TOKEN_ID);
    let r = m.add_market_data(&c, NFT_CONTRACT, ft, TOKEN_ID, price, owner);
    assert_eq!(
        r,
        Ok(MarketEvent::MarketDataAdded {
            nft_contract_id: NFT_CONTRACT,
            token_id: TOKEN_ID,
            price,
        })
    );
}

#[test]
fn buy_with_fungible_tokens() {
    let (mut m, mut w) = setup();
    list_item(&mut m, &mut w, Some(FT_CONTRACT), Some(NFT_PRICE));
    w.credit(Some(FT_CONTRACT), BUYER, NFT_PRICE);

    let c = ctx(BUYER, 0, 0);
    let s = m.buy_item(&c, NFT_CONTRACT, TOKEN_ID);
    let r = drive(&mut m, &mut w, &c, s);
    assert_eq!(
        r,
        Ok(MarketEvent::ItemSold {
            owner: BUYER,
            nft_contract_id: NFT_CONTRACT,
            token_id: TOKEN_ID,
        })
    );
    assert_eq!(w.owner_of(NFT_CONTRACT, TOKEN_ID), BUYER);
    let info = m.item_info(NFT_CONTRACT, TOKEN_ID).unwrap();
    assert_eq!(info.owner, BUYER);
    assert_eq!(info.price, None);
    assert!(info.tx.is_none());
}

#[test]
fn buy_with_fungible_tokens_failures() {
    let (mut m, mut w) = setup();
    list_item(&mut m, &mut w, Some(FT_CONTRACT), None);

    let c = ctx(SELLER, 0, 0);
    let s = m.create_auction(&c, NFT_CONTRACT, None, TOKEN_ID, NFT_PRICE, BID_PERIOD, DURATION);
    let r = drive(&mut m, &mut w, &c, s);
    assert_eq!(
        r,
        Ok(MarketEvent::AuctionCreated {
            nft_contract_id: NFT_CONTRACT,
            token_id: TOKEN_ID,
            price: NFT_PRICE,
        })
    );
}

#[test]
fn buy_with_native_tokens() {
    let (mut m, mut w) = setup();
    list_item(&mut m, &mut w, None, Some(NFT_PRICE));
    w.credit(None, BUYER, NFT_PRICE);

    // the attached value moves into the marketplace's custody with the request
    assert!(w.debit(None, BUYER, NFT_PRICE));
    w.credit(None, PROGRAM_ID, NFT_PRICE);
    let c = ctx(BUYER, NFT_PRICE, 0);
    let s = m.buy_item(&c, NFT_CONTRACT, TOKEN_ID);
    let r = drive(&mut m, &mut w, &c, s);
    assert_eq!(
        r,
        Ok(MarketEvent::ItemSold {
            owner: BUYER,
            nft_contract_id: NFT_CONTRACT,
            token_id: TOKEN_ID,
        })
    );
    let treasury_fee = NFT_PRICE * ((TREASURY_FEE * BASE_PERCENT) as Price) / 10_000;
    assert_eq!(w.balance_of(None, TREASURY_ID), treasury_fee);
    assert_eq!(w.balance_of(None, SELLER), NFT_PRICE - treasury_fee);
}

#[test]
fn sale_pays_seller_and_treasury_in_full() {
    // list at 100 in a fungible currency; a buyer with exactly 100 buys:
    // the buyer ends at zero and seller plus treasury hold the full 100
    let (mut m, mut w) = setup();
    list_item(&mut m, &mut w, Some(FT_CONTRACT), Some(100));
    w.credit(Some(FT_CONTRACT), BUYER, 100);

    let c = ctx(BUYER, 0, 0);
    let s = m.buy_item(&c, NFT_CONTRACT, TOKEN_ID);
    let r = drive(&mut m, &mut w, &c, s);
    assert_eq!(
        r,
        Ok(MarketEvent::ItemSold {
            owner: BUYER,
            nft_contract_id: NFT_CONTRACT,
            token_id: TOKEN_ID,
        })
    );
    assert_eq!(m.item_info(NFT_CONTRACT, TOKEN_ID).unwrap().owner, BUYER);
    assert_eq!(w.balance_of(Some(FT_CONTRACT), BUYER), 0);
    let seller_part = w.balance_of(Some(FT_CONTRACT), SELLER);
    let treasury_part = w.balance_of(Some(FT_CONTRACT), TREASURY_ID);
    assert_eq!(seller_part + treasury_part, 100);
    assert_eq!(treasury_part, 100 * ((TREASURY_FEE * BASE_PERCENT) as Price) / 10_000);
}

#[test]
fn auction_bids_refund_and_settlement() {
    let (mut m, mut w) = setup();
    list_item(&mut m, &mut w, Some(FT_CONTRACT), None);
    let c = ctx(SELLER, 0, 0);
    let s = m.create_auction(&c, NFT_CONTRACT, Some(FT_CONTRACT), TOKEN_ID, 100, BID_PERIOD, DURATION);
    drive(&mut m, &mut w, &c, s).unwrap();
    assert_eq!(w.owner_of(NFT_CONTRACT, TOKEN_ID), PROGRAM_ID);

    w.credit(Some(FT_CONTRACT), BIDDER1, 150);
    w.credit(Some(FT_CONTRACT), BIDDER2, 200);

    let c1 = ctx(BIDDER1, 0, 0);
    let s = m.add_bid(&c1, NFT_CONTRACT, TOKEN_ID, 150);
    let r = drive(&mut m, &mut w, &c1, s);
    assert_eq!(
        r,
        Ok(MarketEvent::BidAdded { nft_contract_id: NFT_CONTRACT, token_id: TOKEN_ID, price: 150 })
    );
    let a = m.item_info(NFT_CONTRACT, TOKEN_ID).unwrap().auction.unwrap();
    assert_eq!(a.current_winner, BIDDER1);
    assert_eq!(a.current_price, 150);
    assert!(a.pending_refund.is_none());

    let c2 = ctx(BIDDER2, 0, 0);
    let s = m.add_bid(&c2, NFT_CONTRACT, TOKEN_ID, 200);
    let r = drive(&mut m, &mut w, &c2, s);
    assert_eq!(
        r,
        Ok(MarketEvent::BidAdded { nft_contract_id: NFT_CONTRACT, token_id: TOKEN_ID, price: 200 })
    );
    let a = m.item_info(NFT_CONTRACT, TOKEN_ID).unwrap().auction.unwrap();
    assert_eq!(a.current_winner, BIDDER2);
    assert_eq!(a.current_price, 200);
    let refund = a.pending_refund.unwrap();
    assert_eq!(refund.account, BIDDER1);
    assert_eq!(refund.amount, 150);

    // before the close, settlement is refused
    let cs = ctx(SELLER, 0, 30_000);
    let s = m.settle_auction(&cs, NFT_CONTRACT, TOKEN_ID);
    assert_eq!(drive(&mut m, &mut w, &cs, s), Err(MarketErr::AuctionNotEnded));

    // after the close: the refund resolves first, then payouts, then the asset
    let cs = ctx(SELLER, 0, DURATION);
    let s = m.settle_auction(&cs, NFT_CONTRACT, TOKEN_ID);
    let r = drive(&mut m, &mut w, &cs, s);
    assert_eq!(
        r,
        Ok(MarketEvent::AuctionSettled {
            nft_contract_id: NFT_CONTRACT,
            token_id: TOKEN_ID,
            price: 200,
        })
    );
    assert_eq!(w.balance_of(Some(FT_CONTRACT), BIDDER1), 150);
    assert_eq!(w.balance_of(Some(FT_CONTRACT), BIDDER2), 0);
    let seller_part = w.balance_of(Some(FT_CONTRACT), SELLER);
    let treasury_part = w.balance_of(Some(FT_CONTRACT), TREASURY_ID);
    assert_eq!(seller_part + treasury_part, 200);
    assert_eq!(w.owner_of(NFT_CONTRACT, TOKEN_ID), BIDDER2);
    let info = m.item_info(NFT_CONTRACT, TOKEN_ID).unwrap();
    assert_eq!(info.owner, BIDDER2);
    assert!(info.auction.is_none());
    assert!(info.tx.is_none());
}

#[test]
fn native_offer_requires_exact_attachment() {
    // a native offer must attach exactly its price: the exact amount
    // stands, a short one is rejected, a dust-sized price never gets in
    let (mut m, mut w) = setup();
    list_item(&mut m, &mut w, None, None);

    let c = ctx(BUYER, 5_000, 0);
    let s = m.add_offer(&c, NFT_CONTRACT, None, TOKEN_ID, 5_000);
    let r = drive(&mut m, &mut w, &c, s);
    assert_eq!(
        r,
        Ok(MarketEvent::OfferAdded {
            nft_contract_id: NFT_CONTRACT,
            ft_contract_id: None,
            token_id: TOKEN_ID,
            price: 5_000,
        })
    );

    let c = ctx(BUYER, 5_000, 0);
    let s = m.add_offer(&c, NFT_CONTRACT, None, TOKEN_ID, 5_000);
    assert_eq!(drive(&mut m, &mut w, &c, s), Err(MarketErr::DuplicateOffer));

    let c = ctx(BIDDER1, 4_999, 0);
    let s = m.add_offer(&c, NFT_CONTRACT, None, TOKEN_ID, 6_000);
    assert_eq!(drive(&mut m, &mut w, &c, s), Err(MarketErr::WrongAttachedValue));

    let c = ctx(BIDDER1, 50, 0);
    let s = m.add_offer(&c, NFT_CONTRACT, None, TOKEN_ID, 50);
    assert_eq!(drive(&mut m, &mut w, &c, s), Err(MarketErr::InvalidPrice));
}

#[test]
fn interrupted_sale_resumes_without_duplicates() {
    // the second of three payees fails once: the operation reports
    // RerunTransaction and keeps its sale record; resubmitting the same
    // purchase finishes the remaining payees and the release, and the
    // ledgers see each movement exactly once
    let (mut m, mut w) = setup();
    w.royalty_bps = 1_000;  // a royalty recipient makes it three payees with the treasury
    list_item(&mut m, &mut w, Some(FT_CONTRACT), Some(NFT_PRICE));
    w.credit(Some(FT_CONTRACT), BUYER, NFT_PRICE);
    w.fail_currency_to = Some((SELLER, 1));

    let c = ctx(BUYER, 0, 0);
    let s = m.buy_item(&c, NFT_CONTRACT, TOKEN_ID);
    let r = drive(&mut m, &mut w, &c, s);
    assert_eq!(r, Err(MarketErr::RerunTransaction));
    let info = m.item_info(NFT_CONTRACT, TOKEN_ID).unwrap();
    let (_, kind) = info.tx.unwrap();
    assert!(matches!(kind, MarketTx::Sale { buyer: BUYER, price: NFT_PRICE }));

    let s = m.buy_item(&c, NFT_CONTRACT, TOKEN_ID);
    let r = drive(&mut m, &mut w, &c, s);
    assert_eq!(
        r,
        Ok(MarketEvent::ItemSold {
            owner: BUYER,
            nft_contract_id: NFT_CONTRACT,
            token_id: TOKEN_ID,
        })
    );
    assert_eq!(w.owner_of(NFT_CONTRACT, TOKEN_ID), BUYER);
    assert_eq!(w.balance_of(Some(FT_CONTRACT), BUYER), 0);
    let fee = NFT_PRICE * ((TREASURY_FEE * BASE_PERCENT) as Price) / 10_000;
    let royalty = (NFT_PRICE - fee) * 1_000 / 10_000;
    assert_eq!(w.balance_of(Some(FT_CONTRACT), ROYALTY_ACCOUNT), royalty);
    assert_eq!(w.balance_of(Some(FT_CONTRACT), TREASURY_ID), fee);
    assert_eq!(w.balance_of(Some(FT_CONTRACT), SELLER), NFT_PRICE - fee - royalty);
    assert_eq!(w.balance_of(Some(FT_CONTRACT), PROGRAM_ID), 0);
    assert!(m.item_info(NFT_CONTRACT, TOKEN_ID).unwrap().tx.is_none());
}

#[test]
fn validation_errors_reject_without_effect() {
    let (mut m, mut w) = setup();

    let a = ctx(SELLER, 0, 0);
    assert_eq!(m.add_nft_contract(&a, 999), Err(MarketErr::NotAdmin));

    // an unapproved collection cannot be listed
    let c = ctx(SELLER, 0, 0);
    assert_eq!(
        m.add_market_data(&c, 999, None, TOKEN_ID, None, SELLER),
        Err(MarketErr::ContractNotApproved)
    );

    // only the reported holder may list
    assert_eq!(
        m.add_market_data(&c, NFT_CONTRACT, None, TOKEN_ID, None, BUYER),
        Err(MarketErr::NotOwner)
    );

    // a native price at the dust threshold is refused
    assert_eq!(
        m.add_market_data(&c, NFT_CONTRACT, None, TOKEN_ID, Some(500), SELLER),
        Err(MarketErr::InvalidPrice)
    );

    // buying what is not listed
    let cb = ctx(BUYER, 0, 0);
    let s = m.buy_item(&cb, NFT_CONTRACT, TOKEN_ID);
    assert_eq!(drive(&mut m, &mut w, &cb, s), Err(MarketErr::ItemNotFound));

    list_item(&mut m, &mut w, Some(FT_CONTRACT), None);
    let s = m.buy_item(&cb, NFT_CONTRACT, TOKEN_ID);
    assert_eq!(drive(&mut m, &mut w, &cb, s), Err(MarketErr::NotOnSale));

    // native purchases must attach the price
    let r = m.add_market_data(&c, NFT_CONTRACT, None, TOKEN_ID, Some(NFT_PRICE), SELLER);
    assert!(r.is_ok());
    let cb = ctx(BUYER, NFT_PRICE - 1, 0);
    let s = m.buy_item(&cb, NFT_CONTRACT, TOKEN_ID);
    assert_eq!(drive(&mut m, &mut w, &cb, s), Err(MarketErr::WrongAttachedValue));
}

#[test]
fn auction_validation_errors() {
    let (mut m, mut w) = setup();
    list_item(&mut m, &mut w, Some(FT_CONTRACT), None);
    let c = ctx(SELLER, 0, 0);

    // periods under a minute are refused
    let s = m.create_auction(&c, NFT_CONTRACT, None, TOKEN_ID, 100, 59_999, DURATION);
    assert_eq!(drive(&mut m, &mut w, &c, s), Err(MarketErr::InvalidPeriod));

    // a zero floor is refused
    let s = m.create_auction(&c, NFT_CONTRACT, None, TOKEN_ID, 0, BID_PERIOD, DURATION);
    assert_eq!(drive(&mut m, &mut w, &c, s), Err(MarketErr::InvalidPrice));

    // only the owner opens an auction
    let cb = ctx(BUYER, 0, 0);
    let s = m.create_auction(&cb, NFT_CONTRACT, None, TOKEN_ID, 100, BID_PERIOD, DURATION);
    assert_eq!(drive(&mut m, &mut w, &cb, s), Err(MarketErr::NotOwner));

    // bidding and settling need an auction
    let s = m.add_bid(&cb, NFT_CONTRACT, TOKEN_ID, 200);
    assert_eq!(drive(&mut m, &mut w, &cb, s), Err(MarketErr::NoAuction));
    let s = m.settle_auction(&c, NFT_CONTRACT, TOKEN_ID);
    assert_eq!(drive(&mut m, &mut w, &c, s), Err(MarketErr::NoAuction));

    let s = m.create_auction(&c, NFT_CONTRACT, Some(FT_CONTRACT), TOKEN_ID, 100, BID_PERIOD, DURATION);
    drive(&mut m, &mut w, &c, s).unwrap();

    // a second auction cannot be opened, nor the listing re-priced
    let s = m.create_auction(&c, NFT_CONTRACT, None, TOKEN_ID, 100, BID_PERIOD, DURATION);
    assert_eq!(drive(&mut m, &mut w, &c, s), Err(MarketErr::AuctionExists));
    assert_eq!(
        m.add_market_data(&c, NFT_CONTRACT, None, TOKEN_ID, Some(NFT_PRICE), SELLER),
        Err(MarketErr::AlreadyListed)
    );

    // a bid at or under the standing price is refused
    w.credit(Some(FT_CONTRACT), BIDDER1, 1_000);
    let c1 = ctx(BIDDER1, 0, 0);
    let s = m.add_bid(&c1, NFT_CONTRACT, TOKEN_ID, 100);
    assert_eq!(drive(&mut m, &mut w, &c1, s), Err(MarketErr::PriceTooLow));

    // bids after the close are refused
    let c1 = ctx(BIDDER1, 0, DURATION);
    let s = m.add_bid(&c1, NFT_CONTRACT, TOKEN_ID, 200);
    assert_eq!(drive(&mut m, &mut w, &c1, s), Err(MarketErr::AuctionEnded));
}

#[test]
fn escrow_ladder_keeps_one_refund() {
    // three rising bids: each displacement records exactly one refund and
    // pays the previous one before the next bid proceeds
    let (mut m, mut w) = setup();
    list_item(&mut m, &mut w, Some(FT_CONTRACT), None);
    let c = ctx(SELLER, 0, 0);
    let s = m.create_auction(&c, NFT_CONTRACT, Some(FT_CONTRACT), TOKEN_ID, 100, BID_PERIOD, DURATION);
    drive(&mut m, &mut w, &c, s).unwrap();

    w.credit(Some(FT_CONTRACT), BIDDER1, 150);
    w.credit(Some(FT_CONTRACT), BIDDER2, 700);

    let c1 = ctx(BIDDER1, 0, 0);
    let s = m.add_bid(&c1, NFT_CONTRACT, TOKEN_ID, 150);
    drive(&mut m, &mut w, &c1, s).unwrap();

    let c2 = ctx(BIDDER2, 0, 0);
    let s = m.add_bid(&c2, NFT_CONTRACT, TOKEN_ID, 200);
    drive(&mut m, &mut w, &c2, s).unwrap();
    let a = m.item_info(NFT_CONTRACT, TOKEN_ID).unwrap().auction.unwrap();
    assert_eq!(a.pending_refund.unwrap().account, BIDDER1);

    // the third bid resolves the first refund, then records one for the second
    let s = m.add_bid(&c2, NFT_CONTRACT, TOKEN_ID, 300);
    drive(&mut m, &mut w, &c2, s).unwrap();
    assert_eq!(w.balance_of(Some(FT_CONTRACT), BIDDER1), 150);
    let a = m.item_info(NFT_CONTRACT, TOKEN_ID).unwrap().auction.unwrap();
    assert_eq!(a.current_price, 300);
    let refund = a.pending_refund.unwrap();
    assert_eq!(refund.account, BIDDER2);
    assert_eq!(refund.amount, 200);
}

#[test]
fn anti_sniping_extends_the_close() {
    let (mut m, mut w) = setup();
    list_item(&mut m, &mut w, Some(FT_CONTRACT), None);
    let c = ctx(SELLER, 0, 0);
    let s = m.create_auction(&c, NFT_CONTRACT, Some(FT_CONTRACT), TOKEN_ID, 100, BID_PERIOD, DURATION);
    drive(&mut m, &mut w, &c, s).unwrap();

    w.credit(Some(FT_CONTRACT), BIDDER1, 150);
    let late = DURATION - 1;
    let c1 = ctx(BIDDER1, 0, late);
    let s = m.add_bid(&c1, NFT_CONTRACT, TOKEN_ID, 150);
    drive(&mut m, &mut w, &c1, s).unwrap();
    let a = m.item_info(NFT_CONTRACT, TOKEN_ID).unwrap().auction.unwrap();
    assert_eq!(a.ended_at, late + BID_PERIOD);
}

#[test]
fn auction_without_bids_cancels() {
    let (mut m, mut w) = setup();
    list_item(&mut m, &mut w, Some(FT_CONTRACT), None);
    let c = ctx(SELLER, 0, 0);
    let s = m.create_auction(&c, NFT_CONTRACT, Some(FT_CONTRACT), TOKEN_ID, 100, BID_PERIOD, DURATION);
    drive(&mut m, &mut w, &c, s).unwrap();

    let cs = ctx(SELLER, 0, DURATION);
    let s = m.settle_auction(&cs, NFT_CONTRACT, TOKEN_ID);
    let r = drive(&mut m, &mut w, &cs, s);
    assert_eq!(
        r,
        Ok(MarketEvent::AuctionCancelled { nft_contract_id: NFT_CONTRACT, token_id: TOKEN_ID })
    );
    assert_eq!(w.owner_of(NFT_CONTRACT, TOKEN_ID), SELLER);
    let info = m.item_info(NFT_CONTRACT, TOKEN_ID).unwrap();
    assert!(info.auction.is_none());
    assert_eq!(info.owner, SELLER);
}

#[test]
fn token_offer_accept_and_withdraw() {
    let (mut m, mut w) = setup();
    list_item(&mut m, &mut w, Some(FT_CONTRACT), None);
    w.credit(Some(FT_CONTRACT), BUYER, 700);

    // the offer escrows its amount
    let c = ctx(BUYER, 0, 0);
    let s = m.add_offer(&c, NFT_CONTRACT, Some(FT_CONTRACT), TOKEN_ID, 300);
    let r = drive(&mut m, &mut w, &c, s);
    assert_eq!(
        r,
        Ok(MarketEvent::OfferAdded {
            nft_contract_id: NFT_CONTRACT,
            ft_contract_id: Some(FT_CONTRACT),
            token_id: TOKEN_ID,
            price: 300,
        })
    );
    assert_eq!(w.balance_of(Some(FT_CONTRACT), BUYER), 400);
    assert_eq!(w.balance_of(Some(FT_CONTRACT), PROGRAM_ID), 300);

    // a second offer at the same key is refused
    let s = m.add_offer(&c, NFT_CONTRACT, Some(FT_CONTRACT), TOKEN_ID, 300);
    assert_eq!(drive(&mut m, &mut w, &c, s), Err(MarketErr::DuplicateOffer));

    // a second one at another price stands, then is withdrawn
    let s = m.add_offer(&c, NFT_CONTRACT, Some(FT_CONTRACT), TOKEN_ID, 400);
    drive(&mut m, &mut w, &c, s).unwrap();
    assert_eq!(w.balance_of(Some(FT_CONTRACT), BUYER), 0);

    // only the offerer may withdraw
    let cx = ctx(BIDDER1, 0, 0);
    let s = m.withdraw(&cx, NFT_CONTRACT, TOKEN_ID, Some(FT_CONTRACT), 400);
    assert_eq!(drive(&mut m, &mut w, &cx, s), Err(MarketErr::NotOfferer));
    let s = m.withdraw(&cx, NFT_CONTRACT, TOKEN_ID, Some(FT_CONTRACT), 999);
    assert_eq!(drive(&mut m, &mut w, &cx, s), Err(MarketErr::NoSuchOffer));

    let s = m.withdraw(&c, NFT_CONTRACT, TOKEN_ID, Some(FT_CONTRACT), 400);
    let r = drive(&mut m, &mut w, &c, s);
    assert_eq!(
        r,
        Ok(MarketEvent::Withdraw {
            nft_contract_id: NFT_CONTRACT,
            token_id: TOKEN_ID,
            price: 400,
        })
    );
    assert_eq!(w.balance_of(Some(FT_CONTRACT), BUYER), 400);

    // the seller accepts the remaining offer; only the owner may
    let s = m.accept_offer(&c, NFT_CONTRACT, TOKEN_ID, Some(FT_CONTRACT), 300);
    assert_eq!(drive(&mut m, &mut w, &c, s), Err(MarketErr::NotOwner));

    let cs = ctx(SELLER, 0, 0);
    let s = m.accept_offer(&cs, NFT_CONTRACT, TOKEN_ID, Some(FT_CONTRACT), 300);
    let r = drive(&mut m, &mut w, &cs, s);
    assert_eq!(
        r,
        Ok(MarketEvent::OfferAccepted {
            nft_contract_id: NFT_CONTRACT,
            token_id: TOKEN_ID,
            new_owner: BUYER,
            price: 300,
        })
    );
    assert_eq!(w.owner_of(NFT_CONTRACT, TOKEN_ID), BUYER);
    let seller_part = w.balance_of(Some(FT_CONTRACT), SELLER);
    let treasury_part = w.balance_of(Some(FT_CONTRACT), TREASURY_ID);
    assert_eq!(seller_part + treasury_part, 300);
    let info = m.item_info(NFT_CONTRACT, TOKEN_ID).unwrap();
    assert_eq!(info.owner, BUYER);
    assert!(info.offers.is_empty());
}

#[test]
fn failed_escrow_rolls_back_and_retries() {
    // the buyer cannot pay: the asset returns to the seller, the slot
    // clears, and the same purchase succeeds from scratch once funded
    let (mut m, mut w) = setup();
    list_item(&mut m, &mut w, Some(FT_CONTRACT), Some(NFT_PRICE));

    let c = ctx(BUYER, 0, 0);
    let s = m.buy_item(&c, NFT_CONTRACT, TOKEN_ID);
    assert_eq!(drive(&mut m, &mut w, &c, s), Err(MarketErr::TransferFailed));
    let info = m.item_info(NFT_CONTRACT, TOKEN_ID).unwrap();
    assert!(info.tx.is_none());
    assert_eq!(info.price, Some(NFT_PRICE));
    assert_eq!(w.owner_of(NFT_CONTRACT, TOKEN_ID), SELLER);

    w.credit(Some(FT_CONTRACT), BUYER, NFT_PRICE);
    let s = m.buy_item(&c, NFT_CONTRACT, TOKEN_ID);
    let r = drive(&mut m, &mut w, &c, s);
    assert_eq!(
        r,
        Ok(MarketEvent::ItemSold {
            owner: BUYER,
            nft_contract_id: NFT_CONTRACT,
            token_id: TOKEN_ID,
        })
    );
}

#[test]
fn conflicting_request_is_turned_away() {
    // while a sale saga is stuck mid-flight, a different operation on the
    // listing is refused rather than queued
    let (mut m, mut w) = setup();
    w.royalty_bps = 1_000;
    list_item(&mut m, &mut w, Some(FT_CONTRACT), Some(NFT_PRICE));
    w.credit(Some(FT_CONTRACT), BUYER, NFT_PRICE);
    w.fail_currency_to = Some((SELLER, 1));

    let c = ctx(BUYER, 0, 0);
    let s = m.buy_item(&c, NFT_CONTRACT, TOKEN_ID);
    assert_eq!(drive(&mut m, &mut w, &c, s), Err(MarketErr::RerunTransaction));

    // a different buyer's purchase conflicts with the stuck sale
    w.credit(Some(FT_CONTRACT), BIDDER1, NFT_PRICE);
    let cx = ctx(BIDDER1, 0, 0);
    let s = m.buy_item(&cx, NFT_CONTRACT, TOKEN_ID);
    assert_eq!(drive(&mut m, &mut w, &cx, s), Err(MarketErr::WrongTransaction));

    // the original buyer finishes
    let s = m.buy_item(&c, NFT_CONTRACT, TOKEN_ID);
    assert!(drive(&mut m, &mut w, &c, s).is_ok());
}

#[test]
fn auction_blocks_purchases_and_zero_bidders() {
    let (mut m, mut w) = setup();
    list_item(&mut m, &mut w, Some(FT_CONTRACT), None);
    let c = ctx(SELLER, 0, 0);
    let s = m.create_auction(&c, NFT_CONTRACT, Some(FT_CONTRACT), TOKEN_ID, 100, BID_PERIOD, DURATION);
    drive(&mut m, &mut w, &c, s).unwrap();

    // a running auction blocks fixed-price purchase and offers
    let cb = ctx(BUYER, 0, 0);
    let s = m.buy_item(&cb, NFT_CONTRACT, TOKEN_ID);
    assert_eq!(drive(&mut m, &mut w, &cb, s), Err(MarketErr::AuctionActive));
    let s = m.add_offer(&cb, NFT_CONTRACT, Some(FT_CONTRACT), TOKEN_ID, 300);
    assert_eq!(drive(&mut m, &mut w, &cb, s), Err(MarketErr::AuctionActive));

    // the sentinel account can never bid
    let cz = ctx(0, 0, 0);
    let s = m.add_bid(&cz, NFT_CONTRACT, TOKEN_ID, 200);
    assert_eq!(drive(&mut m, &mut w, &cz, s), Err(MarketErr::InvalidBidder));
}

#[test]
fn native_offer_accept_and_withdraw() {
    let (mut m, mut w) = setup();
    list_item(&mut m, &mut w, None, None);

    // two native offers: their value moves into custody with the request
    w.credit(None, BUYER, 10_000);
    assert!(w.debit(None, BUYER, 6_000));
    w.credit(None, PROGRAM_ID, 6_000);
    let c = ctx(BUYER, 6_000, 0);
    let s = m.add_offer(&c, NFT_CONTRACT, None, TOKEN_ID, 6_000);
    drive(&mut m, &mut w, &c, s).unwrap();

    assert!(w.debit(None, BUYER, 4_000));
    w.credit(None, PROGRAM_ID, 4_000);
    let c = ctx(BUYER, 4_000, 0);
    let s = m.add_offer(&c, NFT_CONTRACT, None, TOKEN_ID, 4_000);
    drive(&mut m, &mut w, &c, s).unwrap();

    // one is withdrawn: the escrow comes back as a value send
    let c = ctx(BUYER, 0, 0);
    let s = m.withdraw(&c, NFT_CONTRACT, TOKEN_ID, None, 4_000);
    let r = drive(&mut m, &mut w, &c, s);
    assert_eq!(
        r,
        Ok(MarketEvent::Withdraw {
            nft_contract_id: NFT_CONTRACT,
            token_id: TOKEN_ID,
            price: 4_000,
        })
    );
    assert_eq!(w.balance_of(None, BUYER), 4_000);

    // the other is accepted: asset to the buyer, value out to the payees
    let cs = ctx(SELLER, 0, 0);
    let s = m.accept_offer(&cs, NFT_CONTRACT, TOKEN_ID, None, 6_000);
    let r = drive(&mut m, &mut w, &cs, s);
    assert_eq!(
        r,
        Ok(MarketEvent::OfferAccepted {
            nft_contract_id: NFT_CONTRACT,
            token_id: TOKEN_ID,
            new_owner: BUYER,
            price: 6_000,
        })
    );
    assert_eq!(w.owner_of(NFT_CONTRACT, TOKEN_ID), BUYER);
    let fee = 6_000 * ((TREASURY_FEE * BASE_PERCENT) as Price) / 10_000;
    assert_eq!(w.balance_of(None, TREASURY_ID), fee);
    assert_eq!(w.balance_of(None, SELLER), 6_000 - fee);
    assert_eq!(w.balance_of(None, PROGRAM_ID), 0);
    assert!(m.item_info(NFT_CONTRACT, TOKEN_ID).unwrap().offers.is_empty());
}

#[test]
fn settlement_finishes_a_stuck_bid() {
    // a bid's pull succeeds on the ledger but its reply is never fed
    // back: the saga slot stays occupied with the bid.  Settling after
    // the close retries the pull under the same key (the ledger
    // deduplicates it), commits the bid, and settles to that bidder.
    let (mut m, mut w) = setup();
    list_item(&mut m, &mut w, Some(FT_CONTRACT), None);
    let c = ctx(SELLER, 0, 0);
    let s = m.create_auction(&c, NFT_CONTRACT, Some(FT_CONTRACT), TOKEN_ID, 100, BID_PERIOD, DURATION);
    drive(&mut m, &mut w, &c, s).unwrap();

    w.credit(Some(FT_CONTRACT), BIDDER1, 150);
    let c1 = ctx(BIDDER1, 0, 0);
    let s = m.add_bid(&c1, NFT_CONTRACT, TOKEN_ID, 150);
    match s {
        Step::AskTransfer(tr, _) => {
            assert!(w.perform(&tr));
            // the reply is lost: no continuation runs
        }
        _ => panic!("a token bid must ask for a transfer"),
    }
    let info = m.item_info(NFT_CONTRACT, TOKEN_ID).unwrap();
    assert!(matches!(info.tx, Some((_, MarketTx::Bid { account: BIDDER1, price: 150 }))));
    assert_eq!(info.auction.unwrap().current_winner, 0);

    let cs = ctx(SELLER, 0, DURATION);
    let s = m.settle_auction(&cs, NFT_CONTRACT, TOKEN_ID);
    let r = drive(&mut m, &mut w, &cs, s);
    assert_eq!(
        r,
        Ok(MarketEvent::AuctionSettled {
            nft_contract_id: NFT_CONTRACT,
            token_id: TOKEN_ID,
            price: 150,
        })
    );
    assert_eq!(w.owner_of(NFT_CONTRACT, TOKEN_ID), BIDDER1);
    assert_eq!(w.balance_of(Some(FT_CONTRACT), BIDDER1), 0);
    let seller_part = w.balance_of(Some(FT_CONTRACT), SELLER);
    let treasury_part = w.balance_of(Some(FT_CONTRACT), TREASURY_ID);
    assert_eq!(seller_part + treasury_part, 150);
    assert_eq!(w.balance_of(Some(FT_CONTRACT), PROGRAM_ID), 0);
}

#[test]
fn treasury_fee_formula() {
    assert_eq!(nft_marketplace::market::treasury_fee_of(100_000, 3), 3_000);
    assert_eq!(nft_marketplace::market::treasury_fee_of(100, 3), 3);
    assert_eq!(nft_marketplace::market::treasury_fee_of(9_999, 5), 499);
    assert_eq!(nft_marketplace::market::treasury_fee_of(0, 5), 0);
    assert_eq!(
        nft_marketplace::market::treasury_fee_of(u128::MAX, 5),
        u128::MAX / 10_000 * 500 + (u128::MAX % 10_000) * 500 / 10_000
    );
}

#[test]
fn listings_are_queryable() {
    let (mut m, mut w) = setup();
    assert!(m.item_info(NFT_CONTRACT, TOKEN_ID).is_none());
    assert!(m.all_items().is_empty());
    list_item(&mut m, &mut w, Some(FT_CONTRACT), Some(NFT_PRICE));
    let all = m.all_items();
    assert_eq!(all.len(), 1);
    assert_eq!(all[0].owner, SELLER);
    assert_eq!(all[0].price, Some(NFT_PRICE));
    let info = m.item_info(NFT_CONTRACT, TOKEN_ID).unwrap();
    assert_eq!(info.ft_contract_id, Some(FT_CONTRACT));
}
