//! Spec-level model of the market: an abstract state and one transition
//! function per operation. The executable ledger's contracts say that each
//! call lands exactly on the corresponding transition.

use vstd::prelude::*;
use crate::types::{ActorId, MarketActionView, MarketError, MarketEventView, ProductData,
    PurchaseView, Status};

verus! {

/// Abstract state of the market. The catalog maps a product name to its
/// data (insertion order is irrelevant); the history maps a buyer to the
/// chronological sequence of their purchases.
pub struct MarketModel {
    pub catalog: Map<Seq<char>, ProductData>,
    pub history: Map<ActorId, Seq<PurchaseView>>,
    pub admin: ActorId,
    pub public_key: Seq<char>,
}

/// A buyer's purchase history: their recorded sequence, empty if the buyer
/// never purchased.
pub open spec fn history_at(h: Map<ActorId, Seq<PurchaseView>>, buyer: ActorId) -> Seq<
    PurchaseView,
> {
    if h.contains_key(buyer) {
        h[buyer]
    } else {
        Seq::empty()
    }
}

/// The histories after one purchase by `buyer` is recorded: the record is
/// appended to the buyer's history, all other buyers' histories unchanged.
pub open spec fn record_purchase(
    h: Map<ActorId, Seq<PurchaseView>>,
    buyer: ActorId,
    p: PurchaseView,
) -> Map<ActorId, Seq<PurchaseView>> {
    h.insert(buyer, history_at(h, buyer).push(p))
}

/// The histories after a whole sequence of purchases by `buyer` is
/// recorded, in order.
pub open spec fn record_purchases(
    h: Map<ActorId, Seq<PurchaseView>>,
    buyer: ActorId,
    ps: Seq<PurchaseView>,
) -> Map<ActorId, Seq<PurchaseView>>
    decreases ps.len(),
{
    if ps.len() == 0 {
        h
    } else {
        record_purchases(record_purchase(h, buyer, ps[0]), buyer, ps.skip(1))
    }
}

/// The value of an optional field update: the supplied value overwrites,
/// an omitted one leaves the current value in place.
pub open spec fn patched(field: Option<u128>, current: u128) -> u128 {
    match field {
        Some(v) => v,
        None => current,
    }
}

/// AddProduct: admin-only; the name must be fresh and the price at least
/// the host's minimum transferable value. On success the product is
/// inserted and the inputs are echoed back.
pub open spec fn add_product_transition(
    pre: MarketModel,
    caller: ActorId,
    existential_deposit: u128,
    name: Seq<char>,
    quantity: u128,
    price: u128,
) -> (MarketModel, Result<MarketEventView, MarketError>) {
    if caller != pre.admin {
        (pre, Err(MarketError::NotAdmin))
    } else if pre.catalog.contains_key(name) {
        (pre, Err(MarketError::AlreadyExists))
    } else if price < existential_deposit {
        (pre, Err(MarketError::PriceLessThanExistentialDeposit))
    } else {
        (
            (MarketModel {
                catalog: pre.catalog.insert(name, ProductData { quantity, price }),
                ..pre
            }),
            Ok(MarketEventView::ProductAdded { name, quantity, price }),
        )
    }
}

/// UpdateProductInfo: admin-only; the name must be present. Each of the two
/// optional fields is patched independently; the reply echoes the optional
/// inputs as given, not the resulting absolute values.
pub open spec fn update_product_info_transition(
    pre: MarketModel,
    caller: ActorId,
    name: Seq<char>,
    quantity: Option<u128>,
    price: Option<u128>,
) -> (MarketModel, Result<MarketEventView, MarketError>) {
    if caller != pre.admin {
        (pre, Err(MarketError::NotAdmin))
    } else if !pre.catalog.contains_key(name) {
        (pre, Err(MarketError::ThereIsNoSuchName))
    } else {
        (
            (MarketModel {
                catalog: pre.catalog.insert(
                    name,
                    ProductData {
                        quantity: patched(quantity, pre.catalog[name].quantity),
                        price: patched(price, pre.catalog[name].price),
                    },
                ),
                ..pre
            }),
            Ok(MarketEventView::ProductInfoUpdated { name, quantity, price }),
        )
    }
}

/// UpdateConfig: admin-only; replaces the stored config wholesale and
/// echoes it.
pub open spec fn update_config_transition(
    pre: MarketModel,
    caller: ActorId,
    public_key: Seq<char>,
) -> (MarketModel, Result<MarketEventView, MarketError>) {
    if caller != pre.admin {
        (pre, Err(MarketError::NotAdmin))
    } else {
        (
            (MarketModel { public_key, ..pre }),
            Ok(MarketEventView::ConfigUpdated { public_key }),
        )
    }
}

/// DeleteProduct: admin-only; the name must be present. Removal does not
/// touch purchase histories that mention the name.
pub open spec fn delete_product_transition(
    pre: MarketModel,
    caller: ActorId,
    name: Seq<char>,
) -> (MarketModel, Result<MarketEventView, MarketError>) {
    if caller != pre.admin {
        (pre, Err(MarketError::NotAdmin))
    } else if !pre.catalog.contains_key(name) {
        (pre, Err(MarketError::ThereIsNoSuchName))
    } else {
        (
            (MarketModel { catalog: pre.catalog.remove(name), ..pre }),
            Ok(MarketEventView::ProductDeleted { name }),
        )
    }
}

/// Buy: open to any caller. The checks short-circuit in order; on any
/// failure the state is unchanged and no value is kept. On success the
/// stock is decremented, the purchase is appended to the buyer's history,
/// and the third component is the exact change `value - price * quantity`
/// owed back to the buyer (zero on exact payment).
pub open spec fn buy_transition(
    pre: MarketModel,
    buyer: ActorId,
    value: u128,
    name: Seq<char>,
    quantity: u128,
    delivery_address: Seq<char>,
) -> (MarketModel, Result<MarketEventView, MarketError>, u128) {
    if !pre.catalog.contains_key(name) {
        (pre, Err(MarketError::ThereIsNoSuchName), 0)
    } else if quantity == 0 {
        (pre, Err(MarketError::ZeroQuantity), 0)
    } else if quantity > pre.catalog[name].quantity {
        (pre, Err(MarketError::QuantityExceeded), 0)
    } else if (value as int) < pre.catalog[name].price * quantity {
        (pre, Err(MarketError::InsufficientValue), 0)
    } else {
        (
            (MarketModel {
                catalog: pre.catalog.insert(
                    name,
                    ProductData {
                        quantity: (pre.catalog[name].quantity - quantity) as u128,
                        price: pre.catalog[name].price,
                    },
                ),
                history: record_purchase(
                    pre.history,
                    buyer,
                    PurchaseView { name, quantity, status: Status::PaidFor, delivery_address },
                ),
                ..pre
            }),
            Ok(MarketEventView::Bought { buyer, name, quantity }),
            (value - pre.catalog[name].price * quantity) as u128,
        )
    }
}

/// One full request: dispatch to the operation's transition. The third
/// component is the total value to send back to the caller: on a failed
/// Buy the whole attached value, on a successful Buy the exact change,
/// zero otherwise (only Buy carries value).
pub open spec fn handle_transition(
    pre: MarketModel,
    caller: ActorId,
    value: u128,
    existential_deposit: u128,
    action: MarketActionView,
) -> (MarketModel, Result<MarketEventView, MarketError>, u128) {
    match action {
        MarketActionView::AddProduct { name, quantity, price } => {
            let r = add_product_transition(pre, caller, existential_deposit, name, quantity, price);
            (r.0, r.1, 0)
        },
        MarketActionView::UpdateProductInfo { name, quantity, price } => {
            let r = update_product_info_transition(pre, caller, name, quantity, price);
            (r.0, r.1, 0)
        },
        MarketActionView::UpdateConfig { public_key } => {
            let r = update_config_transition(pre, caller, public_key);
            (r.0, r.1, 0)
        },
        MarketActionView::DeleteProduct { name } => {
            let r = delete_product_transition(pre, caller, name);
            (r.0, r.1, 0)
        },
        MarketActionView::Buy { name, quantity, delivery_address } => {
            let r = buy_transition(pre, caller, value, name, quantity, delivery_address);
            (r.0, r.1, if r.1 is Err { value } else { r.2 })
        },
    }
}

} // verus!
