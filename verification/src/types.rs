//! Wire-level data types of the market protocol, and their spec-level views.

use vstd::prelude::*;

verus! {

/// Identity of an actor (the admin or a buyer), supplied by the host with
/// each request.
pub type ActorId = u64;

/// Marker for the market's request/reply protocol; the host's metadata
/// registry ties the wire types together under this name.
pub struct MarketMetadata;

/// Configuration held by the market; its public key is opaque to the
/// ledger's logic and replaceable wholesale by the admin.
#[derive(Debug, Clone, PartialEq, Eq)]
pub struct Config {
    pub public_key: String,
}

/// A listed product: unit count in stock and price per unit, in native
/// value units.
#[derive(Debug, Clone, Copy, PartialEq, Eq, Structural)]
pub struct ProductData {
    pub quantity: u128,
    pub price: u128,
}

/// Delivery status of a purchase.
#[derive(Debug, Clone, Copy, PartialEq, Eq, Structural)]
pub enum Status {
    PaidFor,
}

/// One completed purchase, immutable once recorded in a buyer's history.
#[derive(Debug, Clone, PartialEq, Eq)]
pub struct PurchaseData {
    pub name: String,
    pub quantity: u128,
    pub status: Status,
    pub delivery_address: String,
}

/// Spec-level value of a [`PurchaseData`]: strings as character sequences.
pub struct PurchaseView {
    pub name: Seq<char>,
    pub quantity: u128,
    pub status: Status,
    pub delivery_address: Seq<char>,
}

impl View for PurchaseData {
    type V = PurchaseView;

    open spec fn view(&self) -> PurchaseView {
        PurchaseView {
            name: self.name@,
            quantity: self.quantity,
            status: self.status,
            delivery_address: self.delivery_address@,
        }
    }
}

/// A request to the market ledger.
#[derive(Debug, Clone, PartialEq, Eq)]
#[allow(inconsistent_fields)]
pub enum MarketAction {
    AddProduct { name: String, quantity: u128, price: u128 },
    UpdateProductInfo { name: String, quantity: Option<u128>, price: Option<u128> },
    UpdateConfig { config: Config },
    DeleteProduct { name: String },
    Buy { name: String, quantity: u128, delivery_address: String },
}

/// Spec-level value of a [`MarketAction`].
#[allow(inconsistent_fields)]
pub enum MarketActionView {
    AddProduct { name: Seq<char>, quantity: u128, price: u128 },
    UpdateProductInfo { name: Seq<char>, quantity: Option<u128>, price: Option<u128> },
    UpdateConfig { public_key: Seq<char> },
    DeleteProduct { name: Seq<char> },
    Buy { name: Seq<char>, quantity: u128, delivery_address: Seq<char> },
}

impl View for MarketAction {
    type V = MarketActionView;

    open spec fn view(&self) -> MarketActionView {
        match self {
            MarketAction::AddProduct { name, quantity, price } => (MarketActionView::AddProduct {
                name: name@,
                quantity: *quantity,
                price: *price,
            }),
            MarketAction::UpdateProductInfo { name, quantity, price } => (
            MarketActionView::UpdateProductInfo {
                name: name@,
                quantity: *quantity,
                price: *price,
            }),
            MarketAction::UpdateConfig { config } => (MarketActionView::UpdateConfig {
                public_key: config.public_key@,
            }),
            MarketAction::DeleteProduct { name } => (MarketActionView::DeleteProduct {
                name: name@,
            }),
            MarketAction::Buy { name, quantity, delivery_address } => (MarketActionView::Buy {
                name: name@,
                quantity: *quantity,
                delivery_address: delivery_address@,
            }),
        }
    }
}

/// A success reply; each variant mirrors the request that produced it.
#[derive(Debug, Clone, PartialEq, Eq)]
#[allow(inconsistent_fields)]
pub enum MarketEvent {
    ProductAdded { name: String, quantity: u128, price: u128 },
    ProductInfoUpdated { name: String, quantity: Option<u128>, price: Option<u128> },
    ConfigUpdated { config: Config },
    ProductDeleted { name: String },
    Bought { buyer: ActorId, name: String, quantity: u128 },
}

/// Spec-level value of a [`MarketEvent`].
#[allow(inconsistent_fields)]
pub enum MarketEventView {
    ProductAdded { name: Seq<char>, quantity: u128, price: u128 },
    ProductInfoUpdated { name: Seq<char>, quantity: Option<u128>, price: Option<u128> },
    ConfigUpdated { public_key: Seq<char> },
    ProductDeleted { name: Seq<char> },
    Bought { buyer: ActorId, name: Seq<char>, quantity: u128 },
}

impl View for MarketEvent {
    type V = MarketEventView;

    open spec fn view(&self) -> MarketEventView {
        match self {
            MarketEvent::ProductAdded { name, quantity, price } => (MarketEventView::ProductAdded {
                name: name@,
                quantity: *quantity,
                price: *price,
            }),
            MarketEvent::ProductInfoUpdated { name, quantity, price } => (
            MarketEventView::ProductInfoUpdated {
                name: name@,
                quantity: *quantity,
                price: *price,
            }),
            MarketEvent::ConfigUpdated { config } => (MarketEventView::ConfigUpdated {
                public_key: config.public_key@,
            }),
            MarketEvent::ProductDeleted { name } => (MarketEventView::ProductDeleted {
                name: name@,
            }),
            MarketEvent::Bought { buyer, name, quantity } => (MarketEventView::Bought {
                buyer: *buyer,
                name: name@,
                quantity: *quantity,
            }),
        }
    }
}

/// A failure reply: every operation returns a success event or exactly one
/// of these business outcomes, never a partial mutation.
#[derive(Debug, Clone, Copy, PartialEq, Eq, Structural)]
pub enum MarketError {
    NotAdmin,
    AlreadyExists,
    ThereIsNoSuchName,
    ZeroQuantity,
    PriceLessThanExistentialDeposit,
    InsufficientValue,
    QuantityExceeded,
}

/// The spec-level value of a reply: the event's view on success, the error
/// itself on failure.
pub open spec fn reply_view(r: Result<MarketEvent, MarketError>) -> Result<
    MarketEventView,
    MarketError,
> {
    match r {
        Ok(ev) => Ok(ev@),
        Err(e) => Err(e),
    }
}

/// A read-only query over the market's current state.
#[derive(Debug, Clone, Copy, PartialEq, Eq, Structural)]
pub enum StateQuery {
    All,
    GetProducts,
    GetPurchases,
    GetActorPurchases(ActorId),
}

/// The answer to a [`StateQuery`].
#[derive(Debug, Clone, PartialEq, Eq)]
pub enum StateReply {
    All(State),
    Products(Vec<(String, ProductData)>),
    Purchases(Vec<(ActorId, Vec<PurchaseData>)>),
    ActorPurchases(Option<Vec<PurchaseData>>),
}

/// A full snapshot of the market: catalog, purchase histories, admin and
/// config, as plain lists.
#[derive(Debug, Clone, PartialEq, Eq)]
pub struct State {
    pub products: Vec<(String, ProductData)>,
    pub purchases: Vec<(ActorId, Vec<PurchaseData>)>,
    pub admin: ActorId,
    pub config: Config,
}

} // verus!
