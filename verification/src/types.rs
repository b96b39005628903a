//! Data model of the marketplace: listings, auctions, offers, the saga slot,
//! events and errors, and the vocabulary of external calls that operations
//! ask their driver to perform.

use vstd::prelude::*;

verus! {

/// An account on the host chain.  The zero account is never a real
/// participant; auctions use it as the "no bidder yet" sentinel.
pub type ActorId = u64;

/// An address of an external contract (an asset collection or a
/// fungible-currency ledger).
pub type ContractId = u64;

/// An asset number within its collection.
pub type TokenId = u128;

/// An amount of currency, fungible or native.
pub type Price = u128;

/// An idempotency key for one external transfer.
pub type TransactionId = u64;

/// Sentinel account: an auction with this winner has received no bid.
pub const NO_BIDDER: ActorId = 0;

/// Shortest bid period and auction duration accepted, in milliseconds.
pub const MIN_BID_PERIOD: u64 = 60000;

/// Dust threshold: amounts in native value must exceed this.
pub const MINIMUM_VALUE: u64 = 500;

/// Lowest (exclusive) and highest (inclusive) treasury fee, in percent.
pub const MIN_TREASURY_FEE: u16 = 0;

/// Highest treasury fee accepted at initialization, in percent.
pub const MAX_TREASURY_FEE: u16 = 5;

/// Scale from percent to basis points.
pub const BASE_PERCENT: u16 = 100;

/// A standing offer on a listing: `account` is ready to pay `price` in the
/// given currency (`None` means native value, already attached and held).
#[derive(Clone, Copy, PartialEq, Eq, Debug)]
pub struct Offer {
    pub ft_contract_id: Option<ContractId>,
    pub price: Price,
    pub account: ActorId,
}

/// A refund owed to a bidder displaced from the lead of an auction.  At most
/// one is ever recorded per auction; it is retried under its recorded
/// transaction id until it goes through.
#[derive(Clone, Copy, PartialEq, Eq, Debug)]
pub struct Refund {
    pub account: ActorId,
    pub amount: Price,
    pub tx_id: TransactionId,
}

/// A running or ended (but unsettled) auction on a listing.
#[derive(Clone, Copy, PartialEq, Eq, Debug)]
pub struct Auction {
    pub bid_period: u64,
    pub started_at: u64,
    pub ended_at: u64,
    pub current_price: Price,
    pub current_winner: ActorId,
    pub pending_refund: Option<Refund>,
}

/// The kind and parameters of the one operation allowed in flight on a
/// listing.  A request finding a matching record resumes it; one finding a
/// different record is rejected.
#[derive(Clone, Copy, PartialEq, Eq, Debug)]
pub enum MarketTx {
    Sale { buyer: ActorId, price: Price },
    CreateAuction {
        ft_contract_id: Option<ContractId>,
        min_price: Price,
        bid_period: u64,
        duration: u64,
    },
    Bid { account: ActorId, price: Price },
    SettleAuction,
    Offer { ft_id: ContractId, price: Price, account: ActorId },
    AcceptOffer { ft_contract_id: Option<ContractId>, price: Price },
    Withdraw {
        ft_contract_id: Option<ContractId>,
        price: Price,
        account: ActorId,
    },
}

/// One listing: the record for a single asset.
#[derive(Debug)]
pub struct Item {
    /// Current custodian account of the asset.
    pub owner: ActorId,
    /// Currency ledger used for this listing's trades; `None` means native
    /// value attached to requests.
    pub ft_contract_id: Option<ContractId>,
    /// Fixed sale price, if the asset is on sale.
    pub price: Option<Price>,
    /// Running auction, if one exists.  Never set together with `price`.
    pub auction: Option<Auction>,
    /// Standing offers, unique per (currency, price) pair.
    pub offers: Vec<Offer>,
    /// The single in-flight saga slot.
    pub tx: Option<(TransactionId, MarketTx)>,
}

/// A listing keyed by its asset: collection contract and asset number.
#[derive(Debug)]
pub struct ItemEntry {
    pub nft_contract_id: ContractId,
    pub token_id: TokenId,
    pub item: Item,
}

/// The whole marketplace state.
#[derive(Debug)]
pub struct Market {
    pub admin_id: ActorId,
    pub treasury_id: ActorId,
    /// Treasury fee in percent; fixed at creation, in `1..=MAX_TREASURY_FEE`.
    pub treasury_fee: u16,
    pub items: Vec<ItemEntry>,
    pub approved_nft_contracts: Vec<ContractId>,
    pub approved_ft_contracts: Vec<ContractId>,
    /// Monotonic (wrapping) allocator for transaction ids.
    pub tx_id: TransactionId,
}

/// Host facts about the request being handled: who sent it, how much native
/// value came attached, the block time, and the marketplace's own account.
#[derive(Clone, Copy, PartialEq, Eq, Debug)]
pub struct Ctx {
    pub source: ActorId,
    pub value: Price,
    pub block_timestamp: u64,
    pub program_id: ActorId,
}

/// A successful outcome, reported to the requester.
#[derive(Clone, Copy, PartialEq, Eq, Debug)]
pub enum MarketEvent {
    NftContractAdded(ContractId),
    FtContractAdded(ContractId),
    MarketDataAdded {
        nft_contract_id: ContractId,
        token_id: TokenId,
        price: Option<Price>,
    },
    ItemSold {
        owner: ActorId,
        nft_contract_id: ContractId,
        token_id: TokenId,
    },
    AuctionCreated {
        nft_contract_id: ContractId,
        token_id: TokenId,
        price: Price,
    },
    BidAdded {
        nft_contract_id: ContractId,
        token_id: TokenId,
        price: Price,
    },
    AuctionSettled {
        nft_contract_id: ContractId,
        token_id: TokenId,
        price: Price,
    },
    AuctionCancelled {
        nft_contract_id: ContractId,
        token_id: TokenId,
    },
    OfferAdded {
        nft_contract_id: ContractId,
        ft_contract_id: Option<ContractId>,
        token_id: TokenId,
        price: Price,
    },
    OfferAccepted {
        nft_contract_id: ContractId,
        token_id: TokenId,
        new_owner: ActorId,
        price: Price,
    },
    Withdraw {
        nft_contract_id: ContractId,
        token_id: TokenId,
        price: Price,
    },
}

/// A typed rejection.  Validation errors leave the state untouched;
/// `TransferFailed` rolls the operation back; `RerunTransaction` keeps the
/// saga slot populated and asks for the identical request again.
#[derive(Clone, Copy, PartialEq, Eq, Debug)]
pub enum MarketErr {
    ItemNotFound,
    NotAdmin,
    NotOwner,
    ContractNotApproved,
    AlreadyListed,
    NotOnSale,
    AuctionActive,
    AuctionExists,
    NoAuction,
    InvalidPeriod,
    InvalidPrice,
    WrongAttachedValue,
    AuctionEnded,
    PriceTooLow,
    InvalidBidder,
    AuctionNotEnded,
    DuplicateOffer,
    NoSuchOffer,
    NotOfferer,
    TransferFailed,
    RerunTransaction,
    WrongTransaction,
}

/// One external call the driver must perform against the custodial ledgers,
/// replying with success or failure.
#[derive(Clone, Copy, PartialEq, Eq, Debug)]
pub enum Transfer {
    /// Move the asset to `to` on its collection contract, keyed by `tx_id`.
    Asset {
        tx_id: TransactionId,
        nft_contract_id: ContractId,
        to: ActorId,
        token_id: TokenId,
    },
    /// Move `amount` between accounts on a currency ledger, keyed by `tx_id`.
    Currency {
        tx_id: TransactionId,
        ft_contract_id: ContractId,
        sender: ActorId,
        recipient: ActorId,
        amount: Price,
    },
    /// Send native value; the host gives such sends no idempotency key.
    Native { to: ActorId, amount: Price },
}

/// A royalty-split query the driver must answer: how `amount` from selling
/// this asset divides among recipients.  The external calculator is
/// deterministic in its arguments.
#[derive(Clone, Copy, PartialEq, Eq, Debug)]
pub struct PayoutQuery {
    pub nft_contract_id: ContractId,
    pub seller: ActorId,
    pub amount: Price,
}

/// One payee of a sale's proceeds.
#[derive(Clone, Copy, PartialEq, Eq, Debug)]
pub struct Payout {
    pub account: ActorId,
    pub amount: Price,
}

/// What a fixed-price sale waits for next.
#[derive(Clone, Copy, PartialEq, Eq, Debug)]
pub enum SaleStage {
    /// Asset moving from the seller into marketplace custody.
    AssetIn,
    /// Price moving from the buyer into marketplace custody.
    CurrencyIn,
    /// Rolling back: asset returning to the seller after the buyer's funds
    /// could not be collected.
    ReturnAsset,
    /// Proceeds going out to the payee at this index.
    Disburse(usize),
    /// Asset leaving custody towards the buyer.
    AssetOut,
}

/// Continuation of a fixed-price sale (or an offer acceptance, which shares
/// the disbursement tail).
#[derive(Debug)]
pub struct SaleCont {
    pub nft_contract_id: ContractId,
    pub token_id: TokenId,
    pub buyer: ActorId,
    pub ft_contract_id: Option<ContractId>,
    pub price: Price,
    pub payouts: Vec<Payout>,
    pub tx_id: TransactionId,
    pub stage: SaleStage,
}

/// Continuation of an auction creation: the asset is moving into custody.
#[derive(Clone, Copy, Debug)]
pub struct AuctionCont {
    pub nft_contract_id: ContractId,
    pub token_id: TokenId,
    pub ft_contract_id: Option<ContractId>,
    pub min_price: Price,
    pub bid_period: u64,
    pub duration: u64,
    pub tx_id: TransactionId,
}

/// What a bid waits for next.
#[derive(Clone, Copy, PartialEq, Eq, Debug)]
pub enum BidStage {
    /// The previously displaced bidder's refund going out.
    Refund,
    /// The new bidder's funds moving into custody.
    Pull,
}

/// Continuation of a bid.
#[derive(Clone, Copy, Debug)]
pub struct BidCont {
    pub nft_contract_id: ContractId,
    pub token_id: TokenId,
    pub bidder: ActorId,
    pub price: Price,
    pub tx_id: TransactionId,
    pub stage: BidStage,
}

/// What a settlement waits for next.
#[derive(Clone, Copy, PartialEq, Eq, Debug)]
pub enum SettleStage {
    /// A bid saga left stuck on this listing: its unfinished external call
    /// is being retried (or the bid abandoned) before settlement proper
    /// starts.
    StuckBid { bidder: ActorId, price: Price },
    /// The recorded refund going out.
    Refund,
    /// No bid was made: the asset returning to the original owner.
    CancelAsset,
    /// Proceeds going out to the payee at this index.
    Disburse(usize),
    /// The asset leaving custody towards the winner.
    AssetOut,
}

/// Continuation of an auction settlement.
#[derive(Debug)]
pub struct SettleCont {
    pub nft_contract_id: ContractId,
    pub token_id: TokenId,
    pub winner: ActorId,
    pub price: Price,
    pub payouts: Vec<Payout>,
    pub tx_id: TransactionId,
    pub stage: SettleStage,
}

/// Continuation of an offer creation: the offered funds moving into custody.
#[derive(Clone, Copy, Debug)]
pub struct OfferCont {
    pub nft_contract_id: ContractId,
    pub token_id: TokenId,
    pub ft_id: ContractId,
    pub price: Price,
    pub account: ActorId,
    pub tx_id: TransactionId,
}

/// What an offer acceptance waits for next.
#[derive(Clone, Copy, PartialEq, Eq, Debug)]
pub enum AcceptStage {
    /// Token path: the asset moving into marketplace custody.
    AssetIn,
    /// Proceeds going out to the payee at this index.
    Disburse(usize),
    /// Token path: the asset leaving custody towards the buyer.
    AssetOut,
    /// Native path: the asset moving straight to the buyer, whose value
    /// has sat in escrow since the offer was made.
    DirectAsset,
}

/// Continuation of an offer acceptance.
#[derive(Debug)]
pub struct AcceptCont {
    pub nft_contract_id: ContractId,
    pub token_id: TokenId,
    pub buyer: ActorId,
    pub ft_contract_id: Option<ContractId>,
    pub price: Price,
    pub payouts: Vec<Payout>,
    pub tx_id: TransactionId,
    pub stage: AcceptStage,
}

/// Continuation of an offer withdrawal: the escrowed funds returning.
#[derive(Clone, Copy, Debug)]
pub struct WithdrawCont {
    pub nft_contract_id: ContractId,
    pub token_id: TokenId,
    pub ft_contract_id: Option<ContractId>,
    pub price: Price,
    pub account: ActorId,
    pub tx_id: TransactionId,
}

/// A transfer reply is fed back to the operation it belongs to.
#[derive(Debug)]
pub enum TransferCont {
    Sale(SaleCont),
    CreateAuction(AuctionCont),
    Bid(BidCont),
    Settle(SettleCont),
    Offer(OfferCont),
    Accept(AcceptCont),
    Withdraw(WithdrawCont),
}

/// Waiting for the payout calculator before starting a sale saga.
#[derive(Clone, Copy, Debug)]
pub struct SalePayoutCont {
    pub nft_contract_id: ContractId,
    pub token_id: TokenId,
    pub buyer: ActorId,
    pub ft_contract_id: Option<ContractId>,
    pub price: Price,
    pub fee: Price,
}

/// Waiting for the payout calculator before disbursing a settlement.
#[derive(Clone, Copy, Debug)]
pub struct SettlePayoutCont {
    pub nft_contract_id: ContractId,
    pub token_id: TokenId,
    pub winner: ActorId,
    pub price: Price,
    pub fee: Price,
}

/// Waiting for the payout calculator before executing an accepted offer.
#[derive(Clone, Copy, Debug)]
pub struct AcceptPayoutCont {
    pub nft_contract_id: ContractId,
    pub token_id: TokenId,
    pub buyer: ActorId,
    pub ft_contract_id: Option<ContractId>,
    pub price: Price,
    pub fee: Price,
}

/// A payout reply is fed back to the operation it belongs to.
#[derive(Clone, Copy, Debug)]
pub enum PayoutCont {
    Sale(SalePayoutCont),
    Settle(SettlePayoutCont),
    Accept(AcceptPayoutCont),
}

/// What an operation hands back to its driver: a final outcome, or an
/// external request paired with the continuation that consumes its reply.
#[derive(Debug)]
pub enum Step {
    Done(MarketEvent),
    Failed(MarketErr),
    AskTransfer(Transfer, TransferCont),
    AskPayouts(PayoutQuery, PayoutCont),
}

/// An amount is accepted for a listing's currency: strictly positive on a
/// fungible ledger, above the dust threshold in native value.
pub open spec fn valid_price(ft_contract_id: Option<ContractId>, price: Price) -> bool {
    if ft_contract_id is Some {
        price > 0
    } else {
        price > MINIMUM_VALUE as Price
    }
}

/// Two offers collide when they name the same (currency, price) pair.
pub open spec fn same_offer_key(a: Offer, b: Offer) -> bool {
    a.ft_contract_id == b.ft_contract_id && a.price == b.price
}

impl Auction {
    /// Internal consistency of an auction record.
    pub open spec fn wf(self) -> bool {
        &&& self.started_at <= self.ended_at
        &&& self.current_price > 0
        &&& (self.pending_refund is Some ==> self.current_winner != NO_BIDDER)
    }
}

impl Item {
    /// Internal consistency of a listing: a fixed price and an auction never
    /// coexist, prices respect their currency's threshold, and offer keys
    /// are unique.
    pub open spec fn wf(self) -> bool {
        &&& !(self.price is Some && self.auction is Some)
        &&& (self.price matches Some(p) ==> valid_price(self.ft_contract_id, p))
        &&& (self.auction matches Some(a) ==> a.wf())
        &&& (forall|i: int, j: int|
            0 <= i < j < self.offers@.len()
                ==> !same_offer_key(self.offers@[i], self.offers@[j]))
        &&& (forall|i: int|
            0 <= i < self.offers@.len()
                ==> valid_price(
                    (#[trigger] self.offers@[i]).ft_contract_id,
                    self.offers@[i].price,
                ))
    }

    /// Some offer with this (currency, price) key is recorded.
    pub open spec fn has_offer(self, ft: Option<ContractId>, price: Price) -> bool {
        exists|i: int|
            0 <= i < self.offers@.len() && (#[trigger] self.offers@[i]).ft_contract_id == ft
                && self.offers@[i].price == price
    }

    /// The account behind the offer with this key.
    pub open spec fn offer_account(self, ft: Option<ContractId>, price: Price) -> ActorId {
        let i = choose|i: int|
            0 <= i < self.offers@.len() && (#[trigger] self.offers@[i]).ft_contract_id == ft
                && self.offers@[i].price == price;
        self.offers@[i].account
    }
}

/// The entry is the listing of this asset.
pub open spec fn entry_key_is(e: ItemEntry, c: ContractId, t: TokenId) -> bool {
    e.nft_contract_id == c && e.token_id == t
}

impl Market {
    /// Internal consistency of the whole marketplace.
    pub open spec fn wf(self) -> bool {
        &&& MIN_TREASURY_FEE < self.treasury_fee <= MAX_TREASURY_FEE
        &&& (forall|i: int, j: int|
            #![trigger self.items@[i], self.items@[j]]
            0 <= i < j < self.items@.len()
                ==> !entry_key_is(
                    self.items@[i],
                    self.items@[j].nft_contract_id,
                    self.items@[j].token_id,
                ))
        &&& (forall|i: int| 0 <= i < self.items@.len() ==> (#[trigger] self.items@[i]).item.wf())
    }

    /// The asset has a listing.
    pub open spec fn has_item(self, c: ContractId, t: TokenId) -> bool {
        exists|i: int| 0 <= i < self.items@.len() && entry_key_is(#[trigger] self.items@[i], c, t)
    }

    /// The listing of this asset (meaningful when `has_item` holds; unique
    /// under `wf`).
    pub open spec fn spec_item(self, c: ContractId, t: TokenId) -> Item {
        let i = choose|i: int|
            0 <= i < self.items@.len() && entry_key_is(#[trigger] self.items@[i], c, t);
        self.items@[i].item
    }

    /// Nothing changed outside the listing of asset (`c`, `t`) and the id
    /// allocator: configuration, allow-lists, the set of listed assets and
    /// every other listing are as before.
    pub open spec fn same_but_item(old: Market, new: Market, c: ContractId, t: TokenId) -> bool {
        &&& new.admin_id == old.admin_id
        &&& new.treasury_id == old.treasury_id
        &&& new.treasury_fee == old.treasury_fee
        &&& new.approved_nft_contracts@ == old.approved_nft_contracts@
        &&& new.approved_ft_contracts@ == old.approved_ft_contracts@
        &&& new.items@.len() == old.items@.len()
        &&& (forall|j: int|
            0 <= j < old.items@.len() && !entry_key_is(#[trigger] old.items@[j], c, t)
                ==> new.items@[j] == old.items@[j])
        &&& (forall|j: int|
            0 <= j < old.items@.len() && entry_key_is(#[trigger] old.items@[j], c, t)
                ==> entry_key_is(new.items@[j], c, t))
    }

    /// The listing of asset (`c`, `t`) — which must exist — is now exactly
    /// `it`, whatever entry holds it.
    pub open spec fn item_now(self, c: ContractId, t: TokenId, it: Item) -> bool {
        &&& self.has_item(c, t)
        &&& (forall|j: int|
            0 <= j < self.items@.len() && entry_key_is(#[trigger] self.items@[j], c, t)
                ==> self.items@[j].item == it)
    }
}

} // verus!
