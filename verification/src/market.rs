//! The listing registry and marketplace configuration: creation, allow-lists,
//! listing assets for sale, and read-only queries.  Also the small verified
//! arithmetic shared by every trade: the treasury's cut of a sale.

use vstd::arithmetic::div_mod::lemma_div_is_ordered;
use vstd::arithmetic::div_mod::lemma_div_multiples_vanish;
use vstd::arithmetic::div_mod::lemma_fundamental_div_mod;
use vstd::arithmetic::div_mod::lemma_fundamental_div_mod_converse;
use vstd::arithmetic::mul::lemma_mul_inequality;
use vstd::arithmetic::mul::lemma_mul_is_commutative;
use vstd::prelude::*;

use crate::types::ActorId;
use crate::types::ContractId;
use crate::types::Ctx;
use crate::types::Item;
use crate::types::ItemEntry;
use crate::types::Market;
use crate::types::MarketErr;
use crate::types::MarketEvent;
use crate::types::Offer;
use crate::types::Price;
use crate::types::TokenId;
use crate::types::entry_key_is;
use crate::types::valid_price;
use crate::types::BASE_PERCENT;
use crate::types::MAX_TREASURY_FEE;
use crate::types::MINIMUM_VALUE;
use crate::types::MIN_TREASURY_FEE;

verus! {

/// The treasury's cut of a sale at `price`: `fee` percent, in basis points,
/// rounded down.
pub open spec fn spec_treasury_fee(price: Price, fee: u16) -> int {
    (price * (fee * BASE_PERCENT)) / 10000
}

/// Splitting a product by the divisor: the quotient-and-remainder form of
/// `p` turns `(p * b) / 10000` into pieces small enough to compute without
/// overflow, and bounds the result by `p`.
proof fn lemma_fee_split(p: int, b: int)
    requires
        0 <= p,
        0 <= b <= 10000,
    ensures
        (p / 10000) * b + ((p % 10000) * b) / 10000 == (p * b) / 10000,
        (p * b) / 10000 <= p,
        10000 * (p / 10000) <= p,
{
    let q = p / 10000;
    let r = p % 10000;
    lemma_fundamental_div_mod(p, 10000);
    assert(p == 10000 * q + r);
    let rb = r * b;
    lemma_fundamental_div_mod(rb, 10000);
    let rq = rb / 10000;
    let rr = rb % 10000;
    assert(p * b == 10000 * (q * b + rq) + rr) by (nonlinear_arith)
        requires
            p == 10000 * q + r,
            rb == r * b,
            rb == 10000 * rq + rr,
    ;
    lemma_fundamental_div_mod_converse(p * b, 10000, q * b + rq, rr);
    assert((p * b) / 10000 == q * b + rq);
    // the bound: p * b <= p * 10000, so dividing keeps the order
    lemma_mul_inequality(b, 10000, p);
    lemma_mul_is_commutative(p, b);
    lemma_mul_is_commutative(p, 10000);
    assert(p * b <= 10000 * p);
    lemma_div_is_ordered(p * b, 10000 * p, 10000);
    lemma_div_multiples_vanish(p, 10000);
    assert((10000 * p) / 10000 == p);
}

/// Compute the treasury's cut without overflowing: by quotient and
/// remainder of the price, never forming the full product.
pub fn treasury_fee_of(price: Price, fee: u16) -> (r: Price)
    requires
        fee <= MAX_TREASURY_FEE,
    ensures
        r == spec_treasury_fee(price, fee),
        r <= price,
{
    let bps: u128 = (fee as u128) * 100;
    let q: u128 = price / 10000;
    let rem: u128 = price % 10000;
    proof {
        assert(bps <= 500);
        assert(rem * bps < 10000 * 501) by (nonlinear_arith)
            requires
                rem < 10000,
                bps <= 500,
        ;
        lemma_fee_split(price as int, bps as int);
        lemma_mul_inequality(bps as int, 10000, q as int);
        lemma_mul_is_commutative(q as int, bps as int);
        assert(q * bps <= 10000 * q <= price);
    }
    let hi: u128 = q * bps;
    let lo: u128 = (rem * bps) / 10000;
    hi + lo
}

/// Replacing an element by taking it out and putting its successor back in
/// the same place is a plain pointwise update.
pub proof fn lemma_remove_insert<A>(s: Seq<A>, i: int, x: A)
    requires
        0 <= i < s.len(),
    ensures
        s.remove(i).insert(i, x) == s.update(i, x),
{
    assert(s.remove(i).insert(i, x) =~= s.update(i, x));
}

/// The configuration and allow-lists agree: only listings or the id
/// allocator may differ.
pub open spec fn same_config(a: Market, b: Market) -> bool {
    &&& a.admin_id == b.admin_id
    &&& a.treasury_id == b.treasury_id
    &&& a.treasury_fee == b.treasury_fee
    &&& a.approved_nft_contracts@ == b.approved_nft_contracts@
    &&& a.approved_ft_contracts@ == b.approved_ft_contracts@
}

/// The listings after replacing the item in slot `i`, its key kept.
pub open spec fn items_with(m: Market, i: int, it: Item) -> Seq<ItemEntry> {
    m.items@.update(
        i,
        ItemEntry {
            nft_contract_id: m.items@[i].nft_contract_id,
            token_id: m.items@[i].token_id,
            item: it,
        },
    )
}

/// Two listings agree on every field (offers compared by contents).
pub open spec fn same_item(a: Item, b: Item) -> bool {
    &&& a.owner == b.owner
    &&& a.ft_contract_id == b.ft_contract_id
    &&& a.price == b.price
    &&& a.auction == b.auction
    &&& a.offers@ == b.offers@
    &&& a.tx == b.tx
}

/// Listing keys are unique: two slots with the same asset are the same slot.
pub proof fn lemma_item_unique(m: Market, c: ContractId, t: TokenId, i: int, j: int)
    requires
        m.wf(),
        0 <= i < m.items@.len(),
        0 <= j < m.items@.len(),
        entry_key_is(m.items@[i], c, t),
        entry_key_is(m.items@[j], c, t),
    ensures
        i == j,
{
    if i < j {
        assert(!entry_key_is(m.items@[i], m.items@[j].nft_contract_id, m.items@[j].token_id));
    } else if j < i {
        assert(!entry_key_is(m.items@[j], m.items@[i].nft_contract_id, m.items@[i].token_id));
    }
}

/// Under `wf`, the listing found at slot `i` is what `spec_item` denotes.
pub proof fn lemma_spec_item_is(m: Market, c: ContractId, t: TokenId, i: int)
    requires
        m.wf(),
        0 <= i < m.items@.len(),
        entry_key_is(m.items@[i], c, t),
    ensures
        m.has_item(c, t),
        m.spec_item(c, t) == m.items@[i].item,
{
    assert(m.has_item(c, t));
    let j = choose|j: int| 0 <= j < m.items@.len() && entry_key_is(#[trigger] m.items@[j], c, t);
    lemma_item_unique(m, c, t, i, j);
}

/// What replacing one listing's item does to the whole market: consistency
/// is preserved, nothing else moves, and the written item is what every
/// later lookup of that asset sees.
pub proof fn lemma_set_item_effect(
    m0: Market,
    m1: Market,
    c: ContractId,
    t: TokenId,
    i: int,
    it: Item,
)
    requires
        m0.wf(),
        it.wf(),
        0 <= i < m0.items@.len(),
        entry_key_is(m0.items@[i], c, t),
        same_config(m1, m0),
        m1.items@ == items_with(m0, i, it),
    ensures
        m1.wf(),
        Market::same_but_item(m0, m1, c, t),
        m1.item_now(c, t, it),
        m1.spec_item(c, t) == it,
        m1.has_item(c, t),
{
    assert forall|a: int, b: int|
        #![trigger m1.items@[a], m1.items@[b]]
        0 <= a < b < m1.items@.len() implies !entry_key_is(
        m1.items@[a],
        m1.items@[b].nft_contract_id,
        m1.items@[b].token_id,
    ) by {
        assert(!entry_key_is(m0.items@[a], m0.items@[b].nft_contract_id, m0.items@[b].token_id));
    }
    assert forall|j: int| 0 <= j < m1.items@.len() implies (#[trigger] m1.items@[j]).item.wf() by {
        if j != i {
            assert(m1.items@[j] == m0.items@[j]);
        }
    }
    assert(entry_key_is(m1.items@[i], c, t));
    lemma_spec_item_is(m1, c, t, i);
    assert forall|j: int|
        0 <= j < m1.items@.len() && entry_key_is(#[trigger] m1.items@[j], c, t) implies m1.items@[j].item
        == it by {
        lemma_item_unique(m1, c, t, i, j);
    }
    assert forall|j: int|
        0 <= j < m0.items@.len() && !entry_key_is(#[trigger] m0.items@[j], c, t) implies m1.items@[j]
        == m0.items@[j] by {
        assert(j != i);
    }
    assert forall|j: int|
        0 <= j < m0.items@.len() && entry_key_is(#[trigger] m0.items@[j], c, t) implies entry_key_is(
        m1.items@[j],
        c,
        t,
    ) by {
        lemma_item_unique(m0, c, t, i, j);
    }
}

/// What registering a fresh listing does: consistency is preserved, old
/// listings stay where they were, and the new item is what every later
/// lookup of its asset sees.
pub proof fn lemma_push_item_effect(m0: Market, m1: Market, c: ContractId, t: TokenId, it: Item)
    requires
        m0.wf(),
        it.wf(),
        !m0.has_item(c, t),
        same_config(m1, m0),
        m1.items@ == m0.items@.push(ItemEntry { nft_contract_id: c, token_id: t, item: it }),
    ensures
        m1.wf(),
        m1.has_item(c, t),
        m1.spec_item(c, t) == it,
        m1.item_now(c, t, it),
        forall|j: int| 0 <= j < m0.items@.len() ==> m1.items@[j] == m0.items@[j],
{
    let n = m0.items@.len() as int;
    assert(entry_key_is(m1.items@[n], c, t));
    assert forall|a: int, b: int|
        #![trigger m1.items@[a], m1.items@[b]]
        0 <= a < b < m1.items@.len() implies !entry_key_is(
        m1.items@[a],
        m1.items@[b].nft_contract_id,
        m1.items@[b].token_id,
    ) by {
        if b < n {
            assert(!entry_key_is(
                m0.items@[a],
                m0.items@[b].nft_contract_id,
                m0.items@[b].token_id,
            ));
        } else {
            assert(m1.items@[a] == m0.items@[a]);
            assert(!(exists|j: int|
                0 <= j < m0.items@.len() && entry_key_is(#[trigger] m0.items@[j], c, t)));
            assert(!entry_key_is(m0.items@[a], c, t));
        }
    }
    assert forall|j: int| 0 <= j < m1.items@.len() implies (#[trigger] m1.items@[j]).item.wf() by {
        if j < n {
            assert(m1.items@[j] == m0.items@[j]);
        }
    }
    lemma_spec_item_is(m1, c, t, n);
    assert forall|j: int|
        0 <= j < m1.items@.len() && entry_key_is(#[trigger] m1.items@[j], c, t) implies m1.items@[j].item
        == it by {
        lemma_item_unique(m1, c, t, n, j);
    }
}

/// An amount is accepted for a listing's currency, decided in executable
/// code.
pub fn price_ok(ft_contract_id: Option<ContractId>, price: Price) -> (r: bool)
    ensures
        r == valid_price(ft_contract_id, price),
{
    match ft_contract_id {
        Some(_) => price > 0,
        None => price > MINIMUM_VALUE as u128,
    }
}

/// Membership scan over an allow-list.
pub fn contains_id(v: &Vec<ContractId>, x: ContractId) -> (r: bool)
    ensures
        r == v@.contains(x),
{
    let mut k: usize = 0;
    while k < v.len()
        invariant
            k <= v@.len(),
            forall|j: int| 0 <= j < k ==> v@[j] != x,
        decreases v@.len() - k,
    {
        if v[k] == x {
            return true;
        }
        k += 1;
    }
    false
}

/// A duplicate of the offer list, element for element.
pub fn copy_offers(v: &Vec<Offer>) -> (r: Vec<Offer>)
    ensures
        r@ == v@,
{
    let mut r: Vec<Offer> = Vec::new();
    let mut k: usize = 0;
    while k < v.len()
        invariant
            k <= v@.len(),
            r@ == v@.subrange(0, k as int),
        decreases v@.len() - k,
    {
        r.push(v[k]);
        proof {
            assert(v@.subrange(0, k as int).push(v@[k as int]) =~= v@.subrange(0, k + 1 as int));
        }
        k += 1;
    }
    proof {
        assert(v@.subrange(0, v@.len() as int) =~= v@);
    }
    r
}

/// A duplicate of a listing, field for field.
pub fn clone_item(it: &Item) -> (r: Item)
    ensures
        same_item(r, *it),
{
    Item {
        owner: it.owner,
        ft_contract_id: it.ft_contract_id,
        price: it.price,
        auction: it.auction,
        offers: copy_offers(&it.offers),
        tx: it.tx,
    }
}

/// The index of the offer with this (currency, price) key, if recorded.
pub fn find_offer(v: &Vec<Offer>, ft: Option<ContractId>, price: Price) -> (r: Option<usize>)
    ensures
        match r {
            Some(j) => {
                &&& j < v@.len()
                &&& v@[j as int].ft_contract_id == ft
                &&& v@[j as int].price == price
                &&& (forall|k: int|
                    0 <= k < j
                        ==> !((#[trigger] v@[k]).ft_contract_id == ft && v@[k].price == price))
            },
            None => forall|j: int|
                0 <= j < v@.len()
                    ==> !((#[trigger] v@[j]).ft_contract_id == ft && v@[j].price == price),
        },
{
    let mut k: usize = 0;
    while k < v.len()
        invariant
            k <= v@.len(),
            forall|j: int|
                0 <= j < k ==> !((#[trigger] v@[j]).ft_contract_id == ft && v@[j].price == price),
        decreases v@.len() - k,
    {
        let same_ft = crate::saga::opt_id_eq(&v[k].ft_contract_id, &ft);
        if same_ft && v[k].price == price {
            return Some(k);
        }
        k += 1;
    }
    None
}

impl Market {
    /// A fresh marketplace.  The fee is configuration; a value outside the
    /// accepted band is a deployment error, not a request to serve.
    pub fn new(admin_id: ActorId, treasury_id: ActorId, treasury_fee: u16) -> (m: Market)
        requires
            MIN_TREASURY_FEE < treasury_fee <= MAX_TREASURY_FEE,
        ensures
            m.wf(),
            m.admin_id == admin_id,
            m.treasury_id == treasury_id,
            m.treasury_fee == treasury_fee,
            m.items@.len() == 0,
            m.approved_nft_contracts@.len() == 0,
            m.approved_ft_contracts@.len() == 0,
            m.tx_id == 0,
    {
        Market {
            admin_id,
            treasury_id,
            treasury_fee,
            items: Vec::new(),
            approved_nft_contracts: Vec::new(),
            approved_ft_contracts: Vec::new(),
            tx_id: 0,
        }
    }

    /// The slot holding the listing of this asset, if any; under `wf` it is
    /// the only one.
    pub fn find_item(&self, nft_contract_id: ContractId, token_id: TokenId) -> (r: Option<usize>)
        ensures
            match r {
                Some(i) => {
                    &&& i < self.items@.len()
                    &&& entry_key_is(self.items@[i as int], nft_contract_id, token_id)
                },
                None => !self.has_item(nft_contract_id, token_id),
            },
    {
        let mut k: usize = 0;
        while k < self.items.len()
            invariant
                k <= self.items@.len(),
                forall|j: int|
                    0 <= j < k
                        ==> !entry_key_is(#[trigger] self.items@[j], nft_contract_id, token_id),
            decreases self.items@.len() - k,
        {
            let e = &self.items[k];
            if e.nft_contract_id == nft_contract_id && e.token_id == token_id {
                return Some(k);
            }
            k += 1;
        }
        None
    }

    /// Replace the item of the listing at slot `i`, leaving its key and the
    /// rest of the market as they were.
    pub fn set_item(&mut self, i: usize, it: Item)
        requires
            i < old(self).items@.len(),
        ensures
            same_config(*final(self), *old(self)),
            final(self).tx_id == old(self).tx_id,
            final(self).items@ == items_with(*old(self), i as int, it),
    {
        let e = self.items.remove(i);
        let ItemEntry { nft_contract_id, token_id, item: _ } = e;
        self.items.insert(i, ItemEntry { nft_contract_id, token_id, item: it });
        proof {
            lemma_remove_insert(
                old(self).items@,
                i as int,
                ItemEntry {
                    nft_contract_id: old(self).items@[i as int].nft_contract_id,
                    token_id: old(self).items@[i as int].token_id,
                    item: it,
                },
            );
        }
    }

    /// Rewrite the scalar fields of the listing at slot `i`, keeping its
    /// key and its offers.
    pub fn rewrite_item(
        &mut self,
        i: usize,
        owner: ActorId,
        ft: Option<ContractId>,
        price: Option<Price>,
        auction: Option<crate::types::Auction>,
        tx: Option<(crate::types::TransactionId, crate::types::MarketTx)>,
    )
        requires
            i < old(self).items@.len(),
        ensures
            same_config(*final(self), *old(self)),
            final(self).tx_id == old(self).tx_id,
            final(self).items@ == items_with(
                *old(self),
                i as int,
                (Item {
                    owner,
                    ft_contract_id: ft,
                    price,
                    auction,
                    offers: old(self).items@[i as int].item.offers,
                    tx,
                }),
            ),
    {
        let e = self.items.remove(i);
        let ItemEntry { nft_contract_id, token_id, item } = e;
        let Item { owner: _, ft_contract_id: _, price: _, auction: _, offers, tx: _ } = item;
        self.items.insert(
            i,
            ItemEntry {
                nft_contract_id,
                token_id,
                item: Item { owner, ft_contract_id: ft, price, auction, offers, tx },
            },
        );
        proof {
            lemma_remove_insert(
                old(self).items@,
                i as int,
                ItemEntry {
                    nft_contract_id: old(self).items@[i as int].nft_contract_id,
                    token_id: old(self).items@[i as int].token_id,
                    item: Item {
                        owner,
                        ft_contract_id: ft,
                        price,
                        auction,
                        offers: old(self).items@[i as int].item.offers,
                        tx,
                    },
                },
            );
        }
    }

    /// Record one more offer on the listing at slot `i` and set its saga
    /// slot; everything else is kept.
    pub fn push_offer_item(
        &mut self,
        i: usize,
        o: Offer,
        tx: Option<(crate::types::TransactionId, crate::types::MarketTx)>,
    )
        requires
            i < old(self).items@.len(),
        ensures
            same_config(*final(self), *old(self)),
            final(self).tx_id == old(self).tx_id,
            ({
                let it0 = old(self).items@[i as int].item;
                let it1 = final(self).items@[i as int].item;
                &&& final(self).items@ == old(self).items@.update(
                    i as int,
                    final(self).items@[i as int],
                )
                &&& final(self).items@[i as int].nft_contract_id == old(self).items@[
                    i as int
                ].nft_contract_id
                &&& final(self).items@[i as int].token_id == old(self).items@[i as int].token_id
                &&& it1.owner == it0.owner
                &&& it1.ft_contract_id == it0.ft_contract_id
                &&& it1.price == it0.price
                &&& it1.auction == it0.auction
                &&& it1.offers@ == it0.offers@.push(o)
                &&& it1.tx == tx
            }),
    {
        let e = self.items.remove(i);
        let ItemEntry { nft_contract_id, token_id, item } = e;
        let Item { owner, ft_contract_id, price, auction, mut offers, tx: _ } = item;
        offers.push(o);
        self.items.insert(
            i,
            ItemEntry {
                nft_contract_id,
                token_id,
                item: Item { owner, ft_contract_id, price, auction, offers, tx },
            },
        );
        proof {
            let it1 = Item {
                owner: old(self).items@[i as int].item.owner,
                ft_contract_id: old(self).items@[i as int].item.ft_contract_id,
                price: old(self).items@[i as int].item.price,
                auction: old(self).items@[i as int].item.auction,
                offers: self.items@[i as int].item.offers,
                tx,
            };
            lemma_remove_insert(
                old(self).items@,
                i as int,
                ItemEntry {
                    nft_contract_id: old(self).items@[i as int].nft_contract_id,
                    token_id: old(self).items@[i as int].token_id,
                    item: it1,
                },
            );
        }
    }

    /// Drop the offer at position `j` of the listing at slot `i`, rewriting
    /// owner, price and saga slot in the same step; currency and the other
    /// offers are kept.
    pub fn remove_offer_item(
        &mut self,
        i: usize,
        j: usize,
        owner: ActorId,
        price: Option<Price>,
        tx: Option<(crate::types::TransactionId, crate::types::MarketTx)>,
    )
        requires
            i < old(self).items@.len(),
            j < old(self).items@[i as int].item.offers@.len(),
        ensures
            same_config(*final(self), *old(self)),
            final(self).tx_id == old(self).tx_id,
            ({
                let it0 = old(self).items@[i as int].item;
                let it1 = final(self).items@[i as int].item;
                &&& final(self).items@ == old(self).items@.update(
                    i as int,
                    final(self).items@[i as int],
                )
                &&& final(self).items@[i as int].nft_contract_id == old(self).items@[
                    i as int
                ].nft_contract_id
                &&& final(self).items@[i as int].token_id == old(self).items@[i as int].token_id
                &&& it1.owner == owner
                &&& it1.ft_contract_id == it0.ft_contract_id
                &&& it1.price == price
                &&& it1.auction == it0.auction
                &&& it1.offers@ == it0.offers@.remove(j as int)
                &&& it1.tx == tx
            }),
    {
        let e = self.items.remove(i);
        let ItemEntry { nft_contract_id, token_id, item } = e;
        let Item { owner: _, ft_contract_id, price: _, auction, mut offers, tx: _ } = item;
        offers.remove(j);
        self.items.insert(
            i,
            ItemEntry {
                nft_contract_id,
                token_id,
                item: Item { owner, ft_contract_id, price, auction, offers, tx },
            },
        );
        proof {
            let it1 = Item {
                owner,
                ft_contract_id: old(self).items@[i as int].item.ft_contract_id,
                price,
                auction: old(self).items@[i as int].item.auction,
                offers: self.items@[i as int].item.offers,
                tx,
            };
            lemma_remove_insert(
                old(self).items@,
                i as int,
                ItemEntry {
                    nft_contract_id: old(self).items@[i as int].nft_contract_id,
                    token_id: old(self).items@[i as int].token_id,
                    item: it1,
                },
            );
        }
    }

    /// The requester is the administrator.
    pub fn check_admin(&self, ctx: &Ctx) -> (r: bool)
        ensures
            r == (ctx.source == self.admin_id),
    {
        ctx.source == self.admin_id
    }

    /// The asset collection is on the allow-list.
    pub fn check_approved_nft_contract(&self, nft_contract_id: ContractId) -> (r: bool)
        ensures
            r == self.approved_nft_contracts@.contains(nft_contract_id),
    {
        contains_id(&self.approved_nft_contracts, nft_contract_id)
    }

    /// The currency ledger, if one is named, is on the allow-list.
    pub fn check_approved_ft_contract(&self, ft_contract_id: Option<ContractId>) -> (r: bool)
        ensures
            r == match ft_contract_id {
                Some(f) => self.approved_ft_contracts@.contains(f),
                None => true,
            },
    {
        match ft_contract_id {
            Some(f) => contains_id(&self.approved_ft_contracts, f),
            None => true,
        }
    }

    /// Allow-list an asset collection.  Administrator only; listing the same
    /// contract again changes nothing.
    pub fn add_nft_contract(&mut self, ctx: &Ctx, nft_contract_id: ContractId) -> (r: Result<
        MarketEvent,
        MarketErr,
    >)
        requires
            old(self).wf(),
        ensures
            final(self).wf(),
            ctx.source != old(self).admin_id ==> r == Err::<MarketEvent, MarketErr>(
                MarketErr::NotAdmin,
            ) && *final(self) == *old(self),
            ctx.source == old(self).admin_id ==> {
                &&& r == Ok::<MarketEvent, MarketErr>(
                    MarketEvent::NftContractAdded(nft_contract_id),
                )
                &&& final(self).approved_nft_contracts@.contains(nft_contract_id)
                &&& (forall|c: ContractId|
                    final(self).approved_nft_contracts@.contains(c)
                        == (old(self).approved_nft_contracts@.contains(c) || c
                        == nft_contract_id))
                &&& final(self).approved_ft_contracts@ == old(self).approved_ft_contracts@
                &&& final(self).items@ == old(self).items@
                &&& final(self).admin_id == old(self).admin_id
                &&& final(self).treasury_id == old(self).treasury_id
                &&& final(self).treasury_fee == old(self).treasury_fee
                &&& final(self).tx_id == old(self).tx_id
            },
    {
        if !self.check_admin(ctx) {
            return Err(MarketErr::NotAdmin);
        }
        if !contains_id(&self.approved_nft_contracts, nft_contract_id) {
            self.approved_nft_contracts.push(nft_contract_id);
            proof {
                broadcast use vstd::seq_lib::lemma_seq_contains_after_push;

            }
        }
        Ok(MarketEvent::NftContractAdded(nft_contract_id))
    }

    /// Allow-list a currency ledger.  Administrator only; listing the same
    /// contract again changes nothing.
    pub fn add_ft_contract(&mut self, ctx: &Ctx, ft_contract_id: ContractId) -> (r: Result<
        MarketEvent,
        MarketErr,
    >)
        requires
            old(self).wf(),
        ensures
            final(self).wf(),
            ctx.source != old(self).admin_id ==> r == Err::<MarketEvent, MarketErr>(
                MarketErr::NotAdmin,
            ) && *final(self) == *old(self),
            ctx.source == old(self).admin_id ==> {
                &&& r == Ok::<MarketEvent, MarketErr>(MarketEvent::FtContractAdded(ft_contract_id))
                &&& final(self).approved_ft_contracts@.contains(ft_contract_id)
                &&& (forall|c: ContractId|
                    final(self).approved_ft_contracts@.contains(c)
                        == (old(self).approved_ft_contracts@.contains(c) || c == ft_contract_id))
                &&& final(self).approved_nft_contracts@ == old(self).approved_nft_contracts@
                &&& final(self).items@ == old(self).items@
                &&& final(self).admin_id == old(self).admin_id
                &&& final(self).treasury_id == old(self).treasury_id
                &&& final(self).treasury_fee == old(self).treasury_fee
                &&& final(self).tx_id == old(self).tx_id
            },
    {
        if !self.check_admin(ctx) {
            return Err(MarketErr::NotAdmin);
        }
        if !contains_id(&self.approved_ft_contracts, ft_contract_id) {
            self.approved_ft_contracts.push(ft_contract_id);
            proof {
                broadcast use vstd::seq_lib::lemma_seq_contains_after_push;

            }
        }
        Ok(MarketEvent::FtContractAdded(ft_contract_id))
    }

    /// The saga slot of listing (`c`, `t`) after consulting the
    /// controller: an occupied slot hands its recorded id back untouched,
    /// an empty one records `kind` under a fresh window of `reserve` ids.
    pub open spec fn saga_started(
        m0: Market,
        m1: Market,
        c: ContractId,
        t: TokenId,
        kind: crate::types::MarketTx,
        reserve: u64,
        txid: crate::types::TransactionId,
    ) -> bool {
        match m0.spec_item(c, t).tx {
            Some((id, k)) => txid == id && m1 == m0,
            None => {
                &&& txid == m0.tx_id
                &&& m1.tx_id == m0.tx_id.wrapping_add(reserve)
                &&& Market::same_but_item(m0, m1, c, t)
                &&& m1.has_item(c, t)
                &&& ({
                    let it0 = m0.spec_item(c, t);
                    let it1 = m1.spec_item(c, t);
                    &&& it1.owner == it0.owner
                    &&& it1.ft_contract_id == it0.ft_contract_id
                    &&& it1.price == it0.price
                    &&& it1.auction == it0.auction
                    &&& it1.offers@ == it0.offers@
                    &&& it1.tx == Some((txid, kind))
                })
            },
        }
    }

    /// Why a listing request is turned away, if it is: unapproved contracts,
    /// a requester who is not the reported owner, a bad price, a running
    /// auction, or an operation still in flight on the listing.
    pub open spec fn spec_list_err(
        self,
        nft_contract_id: ContractId,
        ft_contract_id: Option<ContractId>,
        token_id: TokenId,
        price: Option<Price>,
        source: ActorId,
        owner: ActorId,
    ) -> Option<MarketErr> {
        if !self.approved_nft_contracts@.contains(nft_contract_id) {
            Some(MarketErr::ContractNotApproved)
        } else if ft_contract_id matches Some(f) && !self.approved_ft_contracts@.contains(f) {
            Some(MarketErr::ContractNotApproved)
        } else if owner != source {
            Some(MarketErr::NotOwner)
        } else if price matches Some(p) && !valid_price(ft_contract_id, p) {
            Some(MarketErr::InvalidPrice)
        } else if self.has_item(nft_contract_id, token_id) && self.spec_item(
            nft_contract_id,
            token_id,
        ).auction is Some {
            Some(MarketErr::AlreadyListed)
        } else if self.has_item(nft_contract_id, token_id) && self.spec_item(
            nft_contract_id,
            token_id,
        ).tx is Some {
            Some(MarketErr::WrongTransaction)
        } else {
            None
        }
    }

    /// Put an asset up for sale, or change the terms of its listing.
    ///
    /// `owner` is the asset's current holder as the collection contract
    /// reported it to the driver; only that account may list.  A first
    /// listing registers the asset; a later one rewrites the currency and
    /// price of the existing record, keeping its offers.  A listing whose
    /// auction is running, or whose saga slot is occupied, cannot be
    /// relisted until that operation is done.
    pub fn add_market_data(
        &mut self,
        ctx: &Ctx,
        nft_contract_id: ContractId,
        ft_contract_id: Option<ContractId>,
        token_id: TokenId,
        price: Option<Price>,
        owner: ActorId,
    ) -> (r: Result<MarketEvent, MarketErr>)
        requires
            old(self).wf(),
        ensures
            final(self).wf(),
            match r {
                Err(e) => {
                    &&& old(self).spec_list_err(
                        nft_contract_id,
                        ft_contract_id,
                        token_id,
                        price,
                        ctx.source,
                        owner,
                    ) == Some(e)
                    &&& *final(self) == *old(self)
                },
                Ok(ev) => {
                    &&& old(self).spec_list_err(
                        nft_contract_id,
                        ft_contract_id,
                        token_id,
                        price,
                        ctx.source,
                        owner,
                    ) is None
                    &&& ev == (MarketEvent::MarketDataAdded { nft_contract_id, token_id, price })
                    &&& same_config(*final(self), *old(self))
                    &&& final(self).tx_id == old(self).tx_id
                    &&& final(self).has_item(nft_contract_id, token_id)
                    &&& {
                        let it2 = final(self).spec_item(nft_contract_id, token_id);
                        &&& it2.ft_contract_id == ft_contract_id
                        &&& it2.price == price
                        &&& it2.auction is None
                        &&& it2.tx is None
                        &&& if old(self).has_item(nft_contract_id, token_id) {
                            let it0 = old(self).spec_item(nft_contract_id, token_id);
                            &&& it2.owner == it0.owner
                            &&& it2.offers@ == it0.offers@
                            &&& Market::same_but_item(
                                *old(self),
                                *final(self),
                                nft_contract_id,
                                token_id,
                            )
                        } else {
                            &&& it2.owner == owner
                            &&& it2.offers@.len() == 0
                            &&& final(self).items@.len() == old(self).items@.len() + 1
                            &&& (forall|j: int|
                                0 <= j < old(self).items@.len() ==> final(self).items@[j] == old(
                                    self,
                                ).items@[j])
                        }
                    }
                },
            },
    {
        if !self.check_approved_nft_contract(nft_contract_id) {
            return Err(MarketErr::ContractNotApproved);
        }
        if !self.check_approved_ft_contract(ft_contract_id) {
            return Err(MarketErr::ContractNotApproved);
        }
        if owner != ctx.source {
            return Err(MarketErr::NotOwner);
        }
        if let Some(p) = price {
            if !price_ok(ft_contract_id, p) {
                return Err(MarketErr::InvalidPrice);
            }
        }
        match self.find_item(nft_contract_id, token_id) {
            Some(i) => {
                proof {
                    lemma_spec_item_is(*self, nft_contract_id, token_id, i as int);
                }
                let e = &self.items[i];
                if e.item.auction.is_some() {
                    return Err(MarketErr::AlreadyListed);
                }
                if e.item.tx.is_some() {
                    return Err(MarketErr::WrongTransaction);
                }
                let it2 = Item {
                    owner: e.item.owner,
                    ft_contract_id,
                    price,
                    auction: None,
                    offers: copy_offers(&e.item.offers),
                    tx: None,
                };
                self.set_item(i, it2);
                proof {
                    lemma_set_item_effect(
                        *old(self),
                        *self,
                        nft_contract_id,
                        token_id,
                        i as int,
                        it2,
                    );
                }
                Ok(MarketEvent::MarketDataAdded { nft_contract_id, token_id, price })
            },
            None => {
                let it = Item {
                    owner,
                    ft_contract_id,
                    price,
                    auction: None,
                    offers: Vec::new(),
                    tx: None,
                };
                let ghost it0 = it;
                self.items.push(ItemEntry { nft_contract_id, token_id, item: it });
                proof {
                    lemma_push_item_effect(*old(self), *self, nft_contract_id, token_id, it0);
                }
                Ok(MarketEvent::MarketDataAdded { nft_contract_id, token_id, price })
            },
        }
    }

    /// A copy of the listing of this asset, if it exists.
    pub fn item_info(&self, nft_contract_id: ContractId, token_id: TokenId) -> (r: Option<Item>)
        requires
            self.wf(),
        ensures
            match r {
                Some(it) => {
                    &&& self.has_item(nft_contract_id, token_id)
                    &&& same_item(it, self.spec_item(nft_contract_id, token_id))
                },
                None => !self.has_item(nft_contract_id, token_id),
            },
    {
        match self.find_item(nft_contract_id, token_id) {
            Some(i) => {
                let it = clone_item(&self.items[i].item);
                proof {
                    lemma_spec_item_is(*self, nft_contract_id, token_id, i as int);
                }
                Some(it)
            },
            None => None,
        }
    }

    /// A copy of every listing, in registration order.
    pub fn all_items(&self) -> (r: Vec<Item>)
        ensures
            r@.len() == self.items@.len(),
            forall|i: int|
                0 <= i < r@.len() ==> same_item(#[trigger] r@[i], self.items@[i].item),
    {
        let mut r: Vec<Item> = Vec::new();
        let mut k: usize = 0;
        while k < self.items.len()
            invariant
                k <= self.items@.len(),
                r@.len() == k,
                forall|i: int|
                    0 <= i < k ==> same_item(#[trigger] r@[i], self.items@[i].item),
            decreases self.items@.len() - k,
        {
            let it = clone_item(&self.items[k].item);
            r.push(it);
            k += 1;
        }
        r
    }
}

} // verus!
