//! The market ledger: the verified aggregate holding the product catalog,
//! the purchase histories, the admin identity and the config.

use vstd::prelude::*;
use vstd::map::*;
use crate::types::{ActorId, Config, MarketAction, MarketError, MarketEvent, ProductData,
    PurchaseData, PurchaseView, State, StateQuery, StateReply, Status, reply_view};
use crate::model::{MarketModel, add_product_transition, buy_transition, delete_product_transition,
    handle_transition, record_purchase, update_config_transition,
    update_product_info_transition};

verus! {

/// The market aggregate. Constructed once at startup; the constructing
/// caller becomes the admin permanently. The catalog and the histories are
/// held as lists of pairs whose keys are unique.
pub struct Market {
    products: Vec<(String, ProductData)>,
    purchases: Vec<(ActorId, Vec<PurchaseData>)>,
    admin: ActorId,
    config: Config,
}

/// No product name occurs twice in the catalog list.
pub open spec fn product_names_unique(s: Seq<(String, ProductData)>) -> bool {
    forall|i: int, j: int|
        0 <= i < s.len() && 0 <= j < s.len() && i != j ==> s[i].0@ != s[j].0@
}

/// No buyer occurs twice in the history list.
pub open spec fn buyers_unique(s: Seq<(ActorId, Vec<PurchaseData>)>) -> bool {
    forall|i: int, j: int|
        0 <= i < s.len() && 0 <= j < s.len() && i != j ==> s[i].0 != s[j].0
}

/// The catalog map induced by a list of name/product pairs with unique
/// names.
pub open spec fn catalog_of(s: Seq<(String, ProductData)>) -> Map<Seq<char>, ProductData> {
    Map::new(
        |n: Seq<char>| exists|i: int| 0 <= i < s.len() && s[i].0@ == n,
        |n: Seq<char>| s[choose|i: int| 0 <= i < s.len() && s[i].0@ == n].1,
    )
}

/// The spec-level value of a list of purchase records.
pub open spec fn purchases_view(v: Seq<PurchaseData>) -> Seq<PurchaseView> {
    v.map(|j: int, p: PurchaseData| p@)
}

/// The history map induced by a list of buyer/purchases pairs with unique
/// buyers.
pub open spec fn history_of(s: Seq<(ActorId, Vec<PurchaseData>)>) -> Map<ActorId, Seq<PurchaseView>> {
    Map::new(
        |b: ActorId| exists|i: int| 0 <= i < s.len() && s[i].0 == b,
        |b: ActorId| purchases_view(s[choose|i: int| 0 <= i < s.len() && s[i].0 == b].1@),
    )
}

impl View for Market {
    type V = MarketModel;

    closed spec fn view(&self) -> MarketModel {
        MarketModel {
            catalog: catalog_of(self.products@),
            history: history_of(self.purchases@),
            admin: self.admin,
            public_key: self.config.public_key@,
        }
    }
}

impl Market {
    /// The internal lists are well-formed: keys unique on both.
    pub closed spec fn wf(self) -> bool {
        product_names_unique(self.products@) && buyers_unique(self.purchases@)
    }

    /// Constructs the market: the constructing caller becomes the admin,
    /// the catalog and the histories start empty.
    pub fn new(admin: ActorId, config: Config) -> (m: Market)
        ensures
            m.wf(),
            m@ == (MarketModel {
                catalog: Map::empty(),
                history: Map::empty(),
                admin,
                public_key: config.public_key@,
            }),
    {
        let m = Market { products: Vec::new(), purchases: Vec::new(), admin, config };
        proof {
            assert(m@.catalog =~= Map::empty());
            assert(m@.history =~= Map::empty());
        }
        m
    }

    /// Lists a new product. Admin-only; the name must be fresh and the
    /// price no less than the host's minimum transferable value
    /// (`existential_deposit`), read by the host at call time.
    pub fn add_product(
        &mut self,
        caller: ActorId,
        existential_deposit: u128,
        name: String,
        quantity: u128,
        price: u128,
    ) -> (r: Result<MarketEvent, MarketError>)
        requires
            old(self).wf(),
        ensures
            final(self).wf(),
            ({
                let t = add_product_transition(
                    old(self)@,
                    caller,
                    existential_deposit,
                    name@,
                    quantity,
                    price,
                );
                final(self)@ == t.0 && crate::types::reply_view(r) == t.1
            }),
    {
        if caller != self.admin {
            return Err(MarketError::NotAdmin);
        }
        if find_product(&self.products, &name).is_some() {
            proof {
                lemma_catalog_present(self.products@, name@);
            }
            return Err(MarketError::AlreadyExists);
        }
        if price < existential_deposit {
            return Err(MarketError::PriceLessThanExistentialDeposit);
        }
        let product_data = ProductData { quantity, price };
        proof {
            lemma_catalog_fresh_push(self.products@, (name, product_data));
        }
        let stored_name = name.clone();
        self.products.push((stored_name, product_data));
        Ok(MarketEvent::ProductAdded { name, quantity, price })
    }

    /// Updates a listed product. Admin-only; each of `quantity` and `price`
    /// is independently optional: a supplied value overwrites the field, an
    /// omitted one leaves it unchanged. The reply echoes the optional
    /// inputs as given.
    pub fn update_product_info(
        &mut self,
        caller: ActorId,
        name: String,
        quantity: Option<u128>,
        price: Option<u128>,
    ) -> (r: Result<MarketEvent, MarketError>)
        requires
            old(self).wf(),
        ensures
            final(self).wf(),
            ({
                let t = update_product_info_transition(old(self)@, caller, name@, quantity, price);
                final(self)@ == t.0 && reply_view(r) == t.1
            }),
    {
        if caller != self.admin {
            return Err(MarketError::NotAdmin);
        }
        let i = match find_product(&self.products, &name) {
            None => {
                return Err(MarketError::ThereIsNoSuchName);
            },
            Some(i) => i,
        };
        proof {
            lemma_catalog_present(self.products@, name@);
            lemma_catalog_lookup(self.products@, i as int);
        }
        let current = self.products[i].1;
        let updated = ProductData {
            quantity: match quantity {
                Some(q) => q,
                None => current.quantity,
            },
            price: match price {
                Some(p) => p,
                None => current.price,
            },
        };
        let stored_name = self.products[i].0.clone();
        proof {
            lemma_catalog_update(self.products@, i as int, (stored_name, updated));
        }
        self.products[i] = (stored_name, updated);
        Ok(MarketEvent::ProductInfoUpdated { name, quantity, price })
    }

    /// Replaces the stored config wholesale. Admin-only.
    pub fn update_config(&mut self, caller: ActorId, config: Config) -> (r: Result<
        MarketEvent,
        MarketError,
    >)
        requires
            old(self).wf(),
        ensures
            final(self).wf(),
            ({
                let t = update_config_transition(old(self)@, caller, config.public_key@);
                final(self)@ == t.0 && reply_view(r) == t.1
            }),
    {
        if caller != self.admin {
            return Err(MarketError::NotAdmin);
        }
        self.config = Config { public_key: config.public_key.clone() };
        Ok(MarketEvent::ConfigUpdated { config })
    }

    /// Removes a listed product. Admin-only; the name must be present.
    /// Purchase histories that mention the name are untouched.
    pub fn delete_product(&mut self, caller: ActorId, name: String) -> (r: Result<
        MarketEvent,
        MarketError,
    >)
        requires
            old(self).wf(),
        ensures
            final(self).wf(),
            ({
                let t = delete_product_transition(old(self)@, caller, name@);
                final(self)@ == t.0 && reply_view(r) == t.1
            }),
    {
        if caller != self.admin {
            return Err(MarketError::NotAdmin);
        }
        let i = match find_product(&self.products, &name) {
            None => {
                return Err(MarketError::ThereIsNoSuchName);
            },
            Some(i) => i,
        };
        proof {
            lemma_catalog_present(self.products@, name@);
            lemma_catalog_lookup(self.products@, i as int);
            lemma_catalog_remove(self.products@, i as int);
        }
        self.products.remove(i);
        Ok(MarketEvent::ProductDeleted { name })
    }

    /// Purchases against on-hand stock; open to any caller. The checks
    /// short-circuit in order and a failure leaves the state unchanged. On
    /// success the stock is decremented, the purchase is recorded in the
    /// buyer's history, and the second component of the result is the exact
    /// change `value - price * quantity` the host must transfer back to the
    /// buyer (zero on exact payment). On failure it is zero: the host
    /// returns the whole attached value itself.
    pub fn buy(
        &mut self,
        buyer: ActorId,
        value: u128,
        name: String,
        quantity: u128,
        delivery_address: String,
    ) -> (r: (Result<MarketEvent, MarketError>, u128))
        requires
            old(self).wf(),
        ensures
            final(self).wf(),
            ({
                let t = buy_transition(old(self)@, buyer, value, name@, quantity, delivery_address@);
                final(self)@ == t.0 && reply_view(r.0) == t.1 && r.1 == t.2
            }),
    {
        let i = match find_product(&self.products, &name) {
            None => {
                return (Err(MarketError::ThereIsNoSuchName), 0);
            },
            Some(i) => i,
        };
        proof {
            lemma_catalog_present(self.products@, name@);
            lemma_catalog_lookup(self.products@, i as int);
        }
        if quantity == 0 {
            return (Err(MarketError::ZeroQuantity), 0);
        }
        let product = self.products[i].1;
        if quantity > product.quantity {
            return (Err(MarketError::QuantityExceeded), 0);
        }
        let total = match product.price.checked_mul(quantity) {
            None => {
                // the exact total exceeds what a value transfer can carry,
                // so the attached value is below it in any case
                return (Err(MarketError::InsufficientValue), 0);
            },
            Some(t) => t,
        };
        if value < total {
            return (Err(MarketError::InsufficientValue), 0);
        }
        let refund = value - total;

        let stored_name = self.products[i].0.clone();
        let updated = ProductData { quantity: product.quantity - quantity, price: product.price };
        proof {
            lemma_catalog_update(self.products@, i as int, (stored_name, updated));
        }
        self.products[i] = (stored_name, updated);

        let purchase = PurchaseData {
            name: name.clone(),
            quantity,
            status: Status::PaidFor,
            delivery_address,
        };
        match find_buyer(&self.purchases, buyer) {
            Some(j) => {
                proof {
                    lemma_history_lookup(self.purchases@, j as int);
                }
                let ghost s0 = self.purchases@;
                let mut entry = self.purchases.remove(j);
                entry.1.push(purchase);
                proof {
                    lemma_history_remove_push(s0, j as int, (entry.0, entry.1), purchase);
                }
                self.purchases.push(entry);
            },
            None => {
                let mut records: Vec<PurchaseData> = Vec::new();
                records.push(purchase);
                proof {
                    lemma_history_fresh_push(self.purchases@, (buyer, records));
                }
                self.purchases.push((buyer, records));
            },
        }
        (Ok(MarketEvent::Bought { buyer, name, quantity }), refund)
    }

    /// Serves one full request: dispatches to the operation and applies the
    /// host's refund policy. The second component of the result is the
    /// total value the host must send back to the caller: the whole
    /// attached value on a failed Buy, the exact change on a successful
    /// one, zero otherwise.
    pub fn handle(
        &mut self,
        caller: ActorId,
        value: u128,
        existential_deposit: u128,
        action: MarketAction,
    ) -> (r: (Result<MarketEvent, MarketError>, u128))
        requires
            old(self).wf(),
        ensures
            final(self).wf(),
            ({
                let t = handle_transition(old(self)@, caller, value, existential_deposit, action@);
                final(self)@ == t.0 && reply_view(r.0) == t.1 && r.1 == t.2
            }),
    {
        match action {
            MarketAction::AddProduct { name, quantity, price } => {
                (self.add_product(caller, existential_deposit, name, quantity, price), 0)
            },
            MarketAction::UpdateProductInfo { name, quantity, price } => {
                (self.update_product_info(caller, name, quantity, price), 0)
            },
            MarketAction::UpdateConfig { config } => (self.update_config(caller, config), 0),
            MarketAction::DeleteProduct { name } => (self.delete_product(caller, name), 0),
            MarketAction::Buy { name, quantity, delivery_address } => {
                let (res, refund) = self.buy(caller, value, name, quantity, delivery_address);
                let send_back = if res.is_err() {
                    value
                } else {
                    refund
                };
                (res, send_back)
            },
        }
    }

    /// A full read-only snapshot: catalog, purchase histories, admin and
    /// config, as plain lists that enumerate the model's maps.
    pub fn snapshot(&self) -> (r: State)
        requires
            self.wf(),
        ensures
            lists_catalog(r.products@, self@.catalog),
            lists_history(r.purchases@, self@.history),
            r.admin == self@.admin,
            r.config.public_key@ == self@.public_key,
    {
        let products = clone_products(&self.products);
        let purchases = clone_purchases(&self.purchases);
        proof {
            lemma_lists_catalog(self.products@, products@);
            lemma_lists_history(self.purchases@, purchases@);
        }
        State {
            products,
            purchases,
            admin: self.admin,
            config: Config { public_key: self.config.public_key.clone() },
        }
    }

    /// Answers a read-only query over the current state; serving it never
    /// mutates anything. An absent buyer's history is `None`, not an error.
    pub fn state(&self, query: StateQuery) -> (r: StateReply)
        requires
            self.wf(),
        ensures
            match query {
                StateQuery::All => (r matches StateReply::All(st) && lists_catalog(
                    st.products@,
                    self@.catalog,
                ) && lists_history(st.purchases@, self@.history) && st.admin == self@.admin
                    && st.config.public_key@ == self@.public_key),
                StateQuery::GetProducts => (r matches StateReply::Products(v) && lists_catalog(
                    v@,
                    self@.catalog,
                )),
                StateQuery::GetPurchases => (r matches StateReply::Purchases(v) && lists_history(
                    v@,
                    self@.history,
                )),
                StateQuery::GetActorPurchases(id) => (r matches StateReply::ActorPurchases(o)
                    && match o {
                    Some(v) => self@.history.contains_key(id) && purchases_view(v@)
                        == self@.history[id],
                    None => !self@.history.contains_key(id),
                }),
            },
    {
        match query {
            StateQuery::All => StateReply::All(self.snapshot()),
            StateQuery::GetProducts => {
                let products = clone_products(&self.products);
                proof {
                    lemma_lists_catalog(self.products@, products@);
                }
                StateReply::Products(products)
            },
            StateQuery::GetPurchases => {
                let purchases = clone_purchases(&self.purchases);
                proof {
                    lemma_lists_history(self.purchases@, purchases@);
                }
                StateReply::Purchases(purchases)
            },
            StateQuery::GetActorPurchases(id) => {
                let records = match find_buyer(&self.purchases, id) {
                    Some(j) => {
                        proof {
                            lemma_history_lookup(self.purchases@, j as int);
                        }
                        Some(clone_purchase_list(&self.purchases[j].1))
                    },
                    None => None,
                };
                StateReply::ActorPurchases(records)
            },
        }
    }
}

/// The list enumerates the catalog map: no name twice, every listed pair in
/// the map, every key of the map listed.
pub open spec fn lists_catalog(
    v: Seq<(String, ProductData)>,
    catalog: Map<Seq<char>, ProductData>,
) -> bool {
    &&& product_names_unique(v)
    &&& forall|k: int|
        0 <= k < v.len() ==> catalog.contains_key(#[trigger] v[k].0@) && catalog[v[k].0@] == v[k].1
    &&& forall|n: Seq<char>|
        #[trigger] catalog.contains_key(n) ==> exists|k: int| 0 <= k < v.len() && v[k].0@ == n
}

/// The list enumerates the history map: no buyer twice, every listed entry
/// in the map, every buyer of the map listed.
pub open spec fn lists_history(
    v: Seq<(ActorId, Vec<PurchaseData>)>,
    history: Map<ActorId, Seq<PurchaseView>>,
) -> bool {
    &&& buyers_unique(v)
    &&& forall|k: int|
        0 <= k < v.len() ==> history.contains_key(#[trigger] v[k].0) && history[v[k].0]
            == purchases_view(v[k].1@)
    &&& forall|b: ActorId|
        #[trigger] history.contains_key(b) ==> exists|k: int| 0 <= k < v.len() && v[k].0 == b
}

/// The index of the product with the given name, if it is listed.
fn find_product(v: &Vec<(String, ProductData)>, name: &String) -> (r: Option<usize>)
    ensures
        match r {
            Some(i) => i < v@.len() && v@[i as int].0@ == name@,
            None => forall|k: int| 0 <= k < v@.len() ==> v@[k].0@ != name@,
        },
{
    let mut i: usize = 0;
    while i < v.len()
        invariant
            i <= v@.len(),
            forall|k: int| 0 <= k < i ==> v@[k].0@ != name@,
        decreases v@.len() - i,
    {
        if v[i].0 == *name {
            return Some(i);
        }
        i += 1;
    }
    None
}

/// The index of the given buyer's history entry, if the buyer has one.
fn find_buyer(v: &Vec<(ActorId, Vec<PurchaseData>)>, buyer: ActorId) -> (r: Option<usize>)
    ensures
        match r {
            Some(i) => i < v@.len() && v@[i as int].0 == buyer,
            None => forall|k: int| 0 <= k < v@.len() ==> v@[k].0 != buyer,
        },
{
    let mut i: usize = 0;
    while i < v.len()
        invariant
            i <= v@.len(),
            forall|k: int| 0 <= k < i ==> v@[k].0 != buyer,
        decreases v@.len() - i,
    {
        if v[i].0 == buyer {
            return Some(i);
        }
        i += 1;
    }
    None
}

/// An element-wise copy of the catalog list, for read-only projection.
fn clone_products(v: &Vec<(String, ProductData)>) -> (r: Vec<(String, ProductData)>)
    ensures
        r@.len() == v@.len(),
        forall|k: int| 0 <= k < v@.len() ==> (#[trigger] r@[k]).0@ == v@[k].0@ && r@[k].1 == v@[k].1,
{
    let mut r: Vec<(String, ProductData)> = Vec::new();
    let mut i: usize = 0;
    while i < v.len()
        invariant
            i <= v@.len(),
            r@.len() == i,
            forall|k: int| 0 <= k < i ==> (#[trigger] r@[k]).0@ == v@[k].0@ && r@[k].1 == v@[k].1,
        decreases v@.len() - i,
    {
        let name = v[i].0.clone();
        let data = v[i].1;
        r.push((name, data));
        i += 1;
    }
    r
}

/// A field-wise copy of one purchase record.
fn copy_purchase(p: &PurchaseData) -> (r: PurchaseData)
    ensures
        r@ == p@,
{
    PurchaseData {
        name: p.name.clone(),
        quantity: p.quantity,
        status: p.status,
        delivery_address: p.delivery_address.clone(),
    }
}

/// An element-wise copy of one buyer's purchase records.
fn clone_purchase_list(v: &Vec<PurchaseData>) -> (r: Vec<PurchaseData>)
    ensures
        purchases_view(r@) == purchases_view(v@),
{
    let mut r: Vec<PurchaseData> = Vec::new();
    let mut i: usize = 0;
    while i < v.len()
        invariant
            i <= v@.len(),
            r@.len() == i,
            forall|k: int| 0 <= k < i ==> (#[trigger] r@[k])@ == v@[k]@,
        decreases v@.len() - i,
    {
        let record = copy_purchase(&v[i]);
        r.push(record);
        i += 1;
    }
    proof {
        assert(purchases_view(r@) =~= purchases_view(v@));
    }
    r
}

/// An element-wise copy of the history list, for read-only projection.
fn clone_purchases(v: &Vec<(ActorId, Vec<PurchaseData>)>) -> (r: Vec<(ActorId, Vec<PurchaseData>)>)
    ensures
        r@.len() == v@.len(),
        forall|k: int|
            0 <= k < v@.len() ==> (#[trigger] r@[k]).0 == v@[k].0 && purchases_view(r@[k].1@)
                == purchases_view(v@[k].1@),
{
    let mut r: Vec<(ActorId, Vec<PurchaseData>)> = Vec::new();
    let mut i: usize = 0;
    while i < v.len()
        invariant
            i <= v@.len(),
            r@.len() == i,
            forall|k: int|
                0 <= k < i ==> (#[trigger] r@[k]).0 == v@[k].0 && purchases_view(r@[k].1@)
                    == purchases_view(v@[k].1@),
        decreases v@.len() - i,
    {
        let buyer = v[i].0;
        let records = clone_purchase_list(&v[i].1);
        r.push((buyer, records));
        i += 1;
    }
    r
}

/// An element-wise copy of the catalog list enumerates the induced catalog.
proof fn lemma_lists_catalog(orig: Seq<(String, ProductData)>, c: Seq<(String, ProductData)>)
    requires
        product_names_unique(orig),
        c.len() == orig.len(),
        forall|k: int| 0 <= k < orig.len() ==> (#[trigger] c[k]).0@ == orig[k].0@ && c[k].1 == orig[k].1,
    ensures
        lists_catalog(c, catalog_of(orig)),
{
    assert(product_names_unique(c));
    assert forall|k: int|
        0 <= k < c.len() implies catalog_of(orig).contains_key(#[trigger] c[k].0@) && catalog_of(
        orig,
    )[c[k].0@] == c[k].1 by {
        lemma_catalog_lookup(orig, k);
    }
    assert forall|n: Seq<char>| #[trigger]
        catalog_of(orig).contains_key(n) implies exists|k: int| 0 <= k < c.len() && c[k].0@
        == n by {
        let i = choose|i: int| 0 <= i < orig.len() && orig[i].0@ == n;
        assert(c[i].0@ == n);
    }
}

/// An element-wise copy of the history list enumerates the induced history.
proof fn lemma_lists_history(
    orig: Seq<(ActorId, Vec<PurchaseData>)>,
    c: Seq<(ActorId, Vec<PurchaseData>)>,
)
    requires
        buyers_unique(orig),
        c.len() == orig.len(),
        forall|k: int|
            0 <= k < orig.len() ==> (#[trigger] c[k]).0 == orig[k].0 && purchases_view(c[k].1@)
                == purchases_view(orig[k].1@),
    ensures
        lists_history(c, history_of(orig)),
{
    assert(buyers_unique(c));
    assert forall|k: int|
        0 <= k < c.len() implies history_of(orig).contains_key(#[trigger] c[k].0) && history_of(
        orig,
    )[c[k].0] == purchases_view(c[k].1@) by {
        lemma_history_lookup(orig, k);
    }
    assert forall|b: ActorId| #[trigger]
        history_of(orig).contains_key(b) implies exists|k: int| 0 <= k < c.len() && c[k].0 == b by {
        let i = choose|i: int| 0 <= i < orig.len() && orig[i].0 == b;
        assert(c[i].0 == b);
    }
}

/// A name at some index of the list is a key of the induced catalog.
proof fn lemma_catalog_present(s: Seq<(String, ProductData)>, n: Seq<char>)
    requires
        exists|i: int| 0 <= i < s.len() && s[i].0@ == n,
    ensures
        catalog_of(s).contains_key(n),
{
}

/// Under unique names, the catalog's value at a listed name is the listed
/// product.
proof fn lemma_catalog_lookup(s: Seq<(String, ProductData)>, i: int)
    requires
        product_names_unique(s),
        0 <= i < s.len(),
    ensures
        catalog_of(s).contains_key(s[i].0@),
        catalog_of(s)[s[i].0@] == s[i].1,
{
    let n = s[i].0@;
    let j = choose|k: int| 0 <= k < s.len() && s[k].0@ == n;
    assert(0 <= j < s.len() && s[j].0@ == n);
    assert(j == i);
}

/// Appending a pair with a fresh name keeps the names unique and inserts
/// exactly that entry into the induced catalog.
proof fn lemma_catalog_fresh_push(s: Seq<(String, ProductData)>, p: (String, ProductData))
    requires
        product_names_unique(s),
        forall|i: int| 0 <= i < s.len() ==> s[i].0@ != p.0@,
    ensures
        product_names_unique(s.push(p)),
        catalog_of(s.push(p)) == catalog_of(s).insert(p.0@, p.1),
{
    let s2 = s.push(p);
    assert(product_names_unique(s2)) by {
        assert forall|i: int, j: int|
            0 <= i < s2.len() && 0 <= j < s2.len() && i != j implies s2[i].0@ != s2[j].0@ by {
            if i < s.len() && j < s.len() {
                assert(s2[i] == s[i] && s2[j] == s[j]);
            } else if i < s.len() {
                assert(s2[i] == s[i] && s2[j] == p);
            } else {
                assert(s2[i] == p && s2[j] == s[j]);
            }
        }
    }
    assert_maps_equal!(catalog_of(s2), catalog_of(s).insert(p.0@, p.1), n => {
        if n == p.0@ {
            assert(s2[s.len() as int].0@ == n);
            let k = choose|i: int| 0 <= i < s2.len() && s2[i].0@ == n;
            if k < s.len() {
                assert(s[k].0@ != p.0@);
            }
            assert(k == s.len());
        } else {
            if catalog_of(s).contains_key(n) {
                let k0 = choose|i: int| 0 <= i < s.len() && s[i].0@ == n;
                assert(s2[k0].0@ == n);
                let k = choose|i: int| 0 <= i < s2.len() && s2[i].0@ == n;
                assert(k < s.len());
                assert(product_names_unique(s));
                assert(k == k0);
            } else {
                if catalog_of(s2).contains_key(n) {
                    let k = choose|i: int| 0 <= i < s2.len() && s2[i].0@ == n;
                    assert(k < s.len());
                    assert(s[k].0@ == n);
                }
            }
        }
    });
}

/// Overwriting the entry at an index with one of the same name keeps the
/// names unique and re-points the induced catalog at that name alone.
proof fn lemma_catalog_update(s: Seq<(String, ProductData)>, i: int, p: (String, ProductData))
    requires
        product_names_unique(s),
        0 <= i < s.len(),
        p.0@ == s[i].0@,
    ensures
        product_names_unique(s.update(i, p)),
        catalog_of(s.update(i, p)) == catalog_of(s).insert(p.0@, p.1),
{
    let s2 = s.update(i, p);
    assert(forall|k: int| 0 <= k < s2.len() ==> s2[k].0@ == s[k].0@);
    assert(product_names_unique(s2));
    assert_maps_equal!(catalog_of(s2), catalog_of(s).insert(p.0@, p.1), n => {
        if catalog_of(s2).contains_key(n) {
            let k = choose|m: int| 0 <= m < s2.len() && s2[m].0@ == n;
            assert(s[k].0@ == n);
        }
        if n == p.0@ {
            assert(s2[i].0@ == n);
            let k = choose|m: int| 0 <= m < s2.len() && s2[m].0@ == n;
            assert(s[k].0@ == s[i].0@);
            assert(k == i);
        } else {
            if catalog_of(s).contains_key(n) {
                let k0 = choose|m: int| 0 <= m < s.len() && s[m].0@ == n;
                assert(s2[k0].0@ == n);
                let k = choose|m: int| 0 <= m < s2.len() && s2[m].0@ == n;
                assert(s[k].0@ == n);
                assert(k == k0);
                assert(k != i);
                assert(s2[k].1 == s[k0].1);
            }
        }
    });
}

/// Removing the entry at an index keeps the names unique and removes
/// exactly its name from the induced catalog.
proof fn lemma_catalog_remove(s: Seq<(String, ProductData)>, i: int)
    requires
        product_names_unique(s),
        0 <= i < s.len(),
    ensures
        product_names_unique(s.remove(i)),
        catalog_of(s.remove(i)) == catalog_of(s).remove(s[i].0@),
{
    let s2 = s.remove(i);
    assert(forall|k: int|
        0 <= k < s2.len() ==> s2[k] == (if k < i {
            s[k]
        } else {
            s[k + 1]
        }));
    assert(product_names_unique(s2));
    assert_maps_equal!(catalog_of(s2), catalog_of(s).remove(s[i].0@), n => {
        if n == s[i].0@ {
            assert forall|k: int| 0 <= k < s2.len() implies s2[k].0@ != n by {
                if k < i {
                    assert(s2[k] == s[k]);
                } else {
                    assert(s2[k] == s[k + 1]);
                }
            }
        } else {
            if catalog_of(s).contains_key(n) {
                let k0 = choose|m: int| 0 <= m < s.len() && s[m].0@ == n;
                assert(k0 != i);
                if k0 < i {
                    assert(s2[k0].0@ == n);
                } else {
                    assert(s2[k0 - 1].0@ == n);
                }
                let k = choose|m: int| 0 <= m < s2.len() && s2[m].0@ == n;
                let korig = if k < i {
                    k
                } else {
                    k + 1
                };
                assert(s[korig].0@ == n);
                assert(korig == k0);
                assert(s2[k].1 == s[k0].1);
            } else {
                if catalog_of(s2).contains_key(n) {
                    let k = choose|m: int| 0 <= m < s2.len() && s2[m].0@ == n;
                    if k < i {
                        assert(s[k].0@ == n);
                    } else {
                        assert(s[k + 1].0@ == n);
                    }
                }
            }
        }
    });
}

/// Under unique buyers, the history's value at a listed buyer is the view
/// of their listed purchase records.
proof fn lemma_history_lookup(s: Seq<(ActorId, Vec<PurchaseData>)>, i: int)
    requires
        buyers_unique(s),
        0 <= i < s.len(),
    ensures
        history_of(s).contains_key(s[i].0),
        history_of(s)[s[i].0] == purchases_view(s[i].1@),
{
    let b = s[i].0;
    let j = choose|k: int| 0 <= k < s.len() && s[k].0 == b;
    assert(0 <= j < s.len() && s[j].0 == b);
    assert(j == i);
}

/// Taking a buyer's entry out, appending one record to it and putting it
/// back at the end keeps the buyers unique and appends exactly that record
/// to the buyer's induced history.
proof fn lemma_history_remove_push(
    s: Seq<(ActorId, Vec<PurchaseData>)>,
    j: int,
    e: (ActorId, Vec<PurchaseData>),
    p: PurchaseData,
)
    requires
        buyers_unique(s),
        0 <= j < s.len(),
        e.0 == s[j].0,
        e.1@ == s[j].1@.push(p),
    ensures
        buyers_unique(s.remove(j).push(e)),
        history_of(s.remove(j).push(e)) == record_purchase(history_of(s), e.0, p@),
{
    let s2 = s.remove(j).push(e);
    let removed = s.remove(j);
    assert(forall|k: int|
        0 <= k < removed.len() ==> removed[k] == (if k < j {
            s[k]
        } else {
            s[k + 1]
        }));
    assert(s2.len() == s.len());
    assert(forall|k: int|
        0 <= k < s2.len() ==> s2[k] == (if k < j {
            s[k]
        } else if k < s.len() - 1 {
            s[k + 1]
        } else {
            e
        }));
    assert(buyers_unique(s2)) by {
        assert forall|k: int, l: int|
            0 <= k < s2.len() && 0 <= l < s2.len() && k != l implies s2[k].0 != s2[l].0 by {
            let ko = if k < j {
                k
            } else if k < s.len() - 1 {
                k + 1
            } else {
                j
            };
            let lo = if l < j {
                l
            } else if l < s.len() - 1 {
                l + 1
            } else {
                j
            };
            assert(s2[k].0 == s[ko].0 && s2[l].0 == s[lo].0);
            assert(ko != lo);
        }
    }
    lemma_history_lookup(s, j);
    assert(purchases_view(e.1@) =~= purchases_view(s[j].1@).push(p@));
    assert_maps_equal!(history_of(s2), record_purchase(history_of(s), e.0, p@), b => {
        if b == e.0 {
            assert(s2[s.len() - 1].0 == b);
            let k = choose|m: int| 0 <= m < s2.len() && s2[m].0 == b;
            if k < s.len() - 1 {
                let ko = if k < j {
                    k
                } else {
                    k + 1
                };
                assert(s[ko].0 == b && ko != j);
                assert(false);
            }
            assert(k == s.len() - 1);
        } else {
            if history_of(s).contains_key(b) {
                let k0 = choose|m: int| 0 <= m < s.len() && s[m].0 == b;
                assert(k0 != j);
                if k0 < j {
                    assert(s2[k0].0 == b);
                } else {
                    assert(s2[k0 - 1].0 == b);
                }
                let k = choose|m: int| 0 <= m < s2.len() && s2[m].0 == b;
                assert(k < s.len() - 1);
                let ko = if k < j {
                    k
                } else {
                    k + 1
                };
                assert(s[ko].0 == b);
                assert(ko == k0);
                assert(s2[k].1 == s[k0].1);
            } else {
                if history_of(s2).contains_key(b) {
                    let k = choose|m: int| 0 <= m < s2.len() && s2[m].0 == b;
                    assert(k < s.len() - 1);
                    if k < j {
                        assert(s[k].0 == b);
                    } else {
                        assert(s[k + 1].0 == b);
                    }
                }
            }
        }
    });
}

/// Appending an entry for a buyer with no history yet, holding one record,
/// keeps the buyers unique and gives that buyer exactly that record.
proof fn lemma_history_fresh_push(
    s: Seq<(ActorId, Vec<PurchaseData>)>,
    e: (ActorId, Vec<PurchaseData>),
)
    requires
        buyers_unique(s),
        forall|i: int| 0 <= i < s.len() ==> s[i].0 != e.0,
        e.1@.len() == 1,
    ensures
        buyers_unique(s.push(e)),
        history_of(s.push(e)) == record_purchase(history_of(s), e.0, e.1@[0]@),
{
    let s2 = s.push(e);
    assert(buyers_unique(s2)) by {
        assert forall|i: int, k: int|
            0 <= i < s2.len() && 0 <= k < s2.len() && i != k implies s2[i].0 != s2[k].0 by {
            if i < s.len() && k < s.len() {
                assert(s2[i] == s[i] && s2[k] == s[k]);
            } else if i < s.len() {
                assert(s2[i] == s[i] && s2[k] == e);
            } else {
                assert(s2[i] == e && s2[k] == s[k]);
            }
        }
    }
    assert(purchases_view(e.1@) =~= Seq::empty().push(e.1@[0]@));
    assert_maps_equal!(history_of(s2), record_purchase(history_of(s), e.0, e.1@[0]@), b => {
        if b == e.0 {
            assert(s2[s.len() as int].0 == b);
            let k = choose|m: int| 0 <= m < s2.len() && s2[m].0 == b;
            if k < s.len() {
                assert(s[k].0 != e.0);
            }
            assert(k == s.len());
        } else {
            if history_of(s).contains_key(b) {
                let k0 = choose|m: int| 0 <= m < s.len() && s[m].0 == b;
                assert(s2[k0].0 == b);
                let k = choose|m: int| 0 <= m < s2.len() && s2[m].0 == b;
                assert(k < s.len());
                assert(s[k].0 == b);
                assert(k == k0);
            } else {
                if history_of(s2).contains_key(b) {
                    let k = choose|m: int| 0 <= m < s2.len() && s2[m].0 == b;
                    assert(k < s.len());
                    assert(s[k].0 == b);
                }
            }
        }
    });
}

} // verus!
