//! Properties of the market's transitions, stated and proved once over the
//! spec-level model.

use vstd::prelude::*;
use crate::model::{MarketModel, add_product_transition, buy_transition, handle_transition,
    history_at, patched, record_purchase, record_purchases, update_product_info_transition};
use crate::types::{ActorId, MarketActionView, MarketError, MarketEventView, PurchaseView};

verus! {

/// Authorization: every catalog- or config-mutating request from a caller
/// other than the admin fails `NotAdmin`, leaves the state identical, and
/// sends nothing back.
pub proof fn lemma_authorization(
    pre: MarketModel,
    caller: ActorId,
    value: u128,
    existential_deposit: u128,
    action: MarketActionView,
)
    requires
        caller != pre.admin,
        !(action is Buy),
    ensures
        handle_transition(pre, caller, value, existential_deposit, action).0 == pre,
        handle_transition(pre, caller, value, existential_deposit, action).1 == Err::<
            MarketEventView,
            MarketError,
        >(MarketError::NotAdmin),
        handle_transition(pre, caller, value, existential_deposit, action).2 == 0,
{
}

/// Uniqueness: adding a product under a name already present fails
/// `AlreadyExists` and leaves the whole state, the existing entry included,
/// unchanged.
pub proof fn lemma_add_duplicate_rejected(
    pre: MarketModel,
    caller: ActorId,
    existential_deposit: u128,
    name: Seq<char>,
    quantity: u128,
    price: u128,
)
    requires
        caller == pre.admin,
        pre.catalog.contains_key(name),
    ensures
        add_product_transition(pre, caller, existential_deposit, name, quantity, price).0 == pre,
        add_product_transition(pre, caller, existential_deposit, name, quantity, price).1 == Err::<
            MarketEventView,
            MarketError,
        >(MarketError::AlreadyExists),
{
}

/// Price floor: adding a product priced below the host's minimum
/// transferable value fails `PriceLessThanExistentialDeposit` and leaves
/// the state unchanged.
pub proof fn lemma_price_floor(
    pre: MarketModel,
    caller: ActorId,
    existential_deposit: u128,
    name: Seq<char>,
    quantity: u128,
    price: u128,
)
    requires
        caller == pre.admin,
        !pre.catalog.contains_key(name),
        price < existential_deposit,
    ensures
        add_product_transition(pre, caller, existential_deposit, name, quantity, price).0 == pre,
        add_product_transition(pre, caller, existential_deposit, name, quantity, price).1 == Err::<
            MarketEventView,
            MarketError,
        >(MarketError::PriceLessThanExistentialDeposit),
{
}

/// Partial update: each optional field is patched independently — a
/// supplied value overwrites the field, an omitted one leaves it exactly as
/// it was — and no other product, nor the history, is touched.
pub proof fn lemma_partial_update(
    pre: MarketModel,
    caller: ActorId,
    name: Seq<char>,
    quantity: Option<u128>,
    price: Option<u128>,
)
    requires
        caller == pre.admin,
        pre.catalog.contains_key(name),
    ensures
        ({
            let t = update_product_info_transition(pre, caller, name, quantity, price);
            &&& t.1 == Ok::<MarketEventView, MarketError>(
                MarketEventView::ProductInfoUpdated { name, quantity, price },
            )
            &&& t.0.catalog.contains_key(name)
            &&& t.0.catalog[name].quantity == patched(quantity, pre.catalog[name].quantity)
            &&& t.0.catalog[name].price == patched(price, pre.catalog[name].price)
            &&& quantity is None ==> t.0.catalog[name].quantity == pre.catalog[name].quantity
            &&& price is None ==> t.0.catalog[name].price == pre.catalog[name].price
            &&& forall|other: Seq<char>|
                other != name ==> (#[trigger] t.0.catalog.contains_key(other)
                    <==> pre.catalog.contains_key(other)) && (pre.catalog.contains_key(other)
                    ==> t.0.catalog[other] == pre.catalog[other])
            &&& t.0.history == pre.history
            &&& t.0.admin == pre.admin
            &&& t.0.public_key == pre.public_key
        }),
{
}

/// Conservation under purchase: a successful Buy decrements the product's
/// stock by exactly the purchased quantity, which is at least one and never
/// more than the stock on hand, and leaves the price alone.
pub proof fn lemma_purchase_conservation(
    pre: MarketModel,
    buyer: ActorId,
    value: u128,
    name: Seq<char>,
    quantity: u128,
    delivery_address: Seq<char>,
)
    requires
        buy_transition(pre, buyer, value, name, quantity, delivery_address).1 is Ok,
    ensures
        ({
            let t = buy_transition(pre, buyer, value, name, quantity, delivery_address);
            &&& pre.catalog.contains_key(name)
            &&& 1 <= quantity <= pre.catalog[name].quantity
            &&& t.0.catalog.contains_key(name)
            &&& t.0.catalog[name].quantity == pre.catalog[name].quantity - quantity
            &&& t.0.catalog[name].price == pre.catalog[name].price
        }),
{
}

/// Payment exactness: with price `P`, requested quantity `Q` and attached
/// value `V`: if `V < P*Q` the purchase fails `InsufficientValue` and the
/// state is unchanged; if `V == P*Q` it succeeds and no change is owed; if
/// `V > P*Q` it succeeds and exactly `V - P*Q` is owed back to the buyer.
pub proof fn lemma_payment_exactness(
    pre: MarketModel,
    buyer: ActorId,
    value: u128,
    name: Seq<char>,
    quantity: u128,
    delivery_address: Seq<char>,
)
    requires
        pre.catalog.contains_key(name),
        1 <= quantity <= pre.catalog[name].quantity,
    ensures
        ({
            let t = buy_transition(pre, buyer, value, name, quantity, delivery_address);
            let total = pre.catalog[name].price * quantity;
            &&& (value as int) < total ==> t.0 == pre && t.1 == Err::<
                MarketEventView,
                MarketError,
            >(MarketError::InsufficientValue) && t.2 == 0
            &&& (value as int) == total ==> t.1 is Ok && t.2 == 0
            &&& (value as int) > total ==> t.1 is Ok && (t.2 as int) == value - total
        }),
{
}

/// History append-only and ordered: recording a sequence of purchases by
/// one buyer appends exactly those records, in order, to that buyer's
/// history — after `N` purchases it has grown by `N` entries — and every
/// other buyer's history is untouched.
pub proof fn lemma_history_append_only(
    h: Map<ActorId, Seq<PurchaseView>>,
    buyer: ActorId,
    other: ActorId,
    ps: Seq<PurchaseView>,
)
    ensures
        history_at(record_purchases(h, buyer, ps), buyer) == history_at(h, buyer) + ps,
        history_at(record_purchases(h, buyer, ps), buyer).len() == history_at(h, buyer).len()
            + ps.len(),
        other != buyer ==> history_at(record_purchases(h, buyer, ps), other) == history_at(
            h,
            other,
        ),
    decreases ps.len(),
{
    if ps.len() == 0 {
        assert(history_at(h, buyer) + ps =~= history_at(h, buyer));
    } else {
        let h1 = record_purchase(h, buyer, ps[0]);
        assert(history_at(h1, buyer) == history_at(h, buyer).push(ps[0]));
        lemma_history_append_only(h1, buyer, other, ps.skip(1));
        assert(history_at(h, buyer) + ps =~= history_at(h, buyer).push(ps[0]) + ps.skip(1));
    }
}

/// One successful Buy appends exactly one record — the purchased name,
/// quantity and address, marked paid — to the buyer's history and no
/// other's.
pub proof fn lemma_buy_appends_record(
    pre: MarketModel,
    buyer: ActorId,
    value: u128,
    name: Seq<char>,
    quantity: u128,
    delivery_address: Seq<char>,
    other: ActorId,
)
    requires
        buy_transition(pre, buyer, value, name, quantity, delivery_address).1 is Ok,
    ensures
        ({
            let t = buy_transition(pre, buyer, value, name, quantity, delivery_address);
            &&& history_at(t.0.history, buyer) == history_at(pre.history, buyer).push(
                (PurchaseView {
                    name,
                    quantity,
                    status: crate::types::Status::PaidFor,
                    delivery_address,
                }),
            )
            &&& other != buyer ==> history_at(t.0.history, other) == history_at(pre.history, other)
        }),
{
}

} // verus!

