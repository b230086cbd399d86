use market::market::Market;
use market::types::{Config, MarketAction, MarketError, MarketEvent, Status, StateQuery,
    StateReply};

const ADMIN: u64 = 1;
const BUYER: u64 = 2;
const OTHER: u64 = 3;

fn market_with(threshold: u128, name: &str, quantity: u128, price: u128) -> Market {
    let mut market = Market::new(ADMIN, Config { public_key: "key".to_string() });
    let added = market.add_product(ADMIN, threshold, name.to_string(), quantity, price);
    assert!(added.is_ok());
    market
}

fn snapshot(market: &Market) -> market::types::State {
    match market.state(StateQuery::All) {
        StateReply::All(state) => state,
        _ => panic!("the All query must answer with a full snapshot"),
    }
}

#[test]
fn non_admin_mutations_leave_state_identical() {
    let mut market = market_with(10, "pen", 5, 40);
    let before = snapshot(&market);

    let r = market.add_product(BUYER, 10, "ink".to_string(), 1, 50);
    assert_eq!(r, Err(MarketError::NotAdmin));
    let r = market.update_product_info(BUYER, "pen".to_string(), Some(9), None);
    assert_eq!(r, Err(MarketError::NotAdmin));
    let r = market.update_config(BUYER, Config { public_key: "stolen".to_string() });
    assert_eq!(r, Err(MarketError::NotAdmin));
    let r = market.delete_product(BUYER, "pen".to_string());
    assert_eq!(r, Err(MarketError::NotAdmin));

    assert_eq!(snapshot(&market), before);
}

#[test]
fn duplicate_name_keeps_existing_entry() {
    let mut market = market_with(10, "pen", 5, 40);
    let r = market.add_product(ADMIN, 10, "pen".to_string(), 7, 99);
    assert_eq!(r, Err(MarketError::AlreadyExists));
    let state = snapshot(&market);
    assert_eq!(state.products.len(), 1);
    assert_eq!(state.products[0].0, "pen");
    assert_eq!(state.products[0].1.quantity, 5);
    assert_eq!(state.products[0].1.price, 40);
}

#[test]
fn price_below_threshold_rejected() {
    let mut market = Market::new(ADMIN, Config { public_key: "key".to_string() });
    let r = market.add_product(ADMIN, 100, "pen".to_string(), 5, 99);
    assert_eq!(r, Err(MarketError::PriceLessThanExistentialDeposit));
    assert_eq!(snapshot(&market).products.len(), 0);
    // the floor is inclusive: a price equal to the threshold passes
    let r = market.add_product(ADMIN, 100, "pen".to_string(), 5, 100);
    assert!(r.is_ok());
}

#[test]
fn partial_update_price_only() {
    let mut market = market_with(10, "pen", 5, 40);
    let r = market.update_product_info(ADMIN, "pen".to_string(), None, Some(70));
    assert_eq!(
        r,
        Ok(MarketEvent::ProductInfoUpdated {
            name: "pen".to_string(),
            quantity: None,
            price: Some(70),
        })
    );
    let state = snapshot(&market);
    assert_eq!(state.products[0].1.quantity, 5);
    assert_eq!(state.products[0].1.price, 70);
}

#[test]
fn partial_update_quantity_only() {
    let mut market = market_with(10, "pen", 5, 40);
    let r = market.update_product_info(ADMIN, "pen".to_string(), Some(12), None);
    assert!(r.is_ok());
    let state = snapshot(&market);
    assert_eq!(state.products[0].1.quantity, 12);
    assert_eq!(state.products[0].1.price, 40);
}

#[test]
fn update_unknown_name_fails() {
    let mut market = market_with(10, "pen", 5, 40);
    let r = market.update_product_info(ADMIN, "ink".to_string(), Some(1), Some(10));
    assert_eq!(r, Err(MarketError::ThereIsNoSuchName));
    let r = market.delete_product(ADMIN, "ink".to_string());
    assert_eq!(r, Err(MarketError::ThereIsNoSuchName));
}

#[test]
fn update_config_replaces_key() {
    let mut market = Market::new(ADMIN, Config { public_key: "first".to_string() });
    let r = market.update_config(ADMIN, Config { public_key: "second".to_string() });
    assert_eq!(
        r,
        Ok(MarketEvent::ConfigUpdated { config: Config { public_key: "second".to_string() } })
    );
    assert_eq!(snapshot(&market).config.public_key, "second");
}

#[test]
fn payment_exactness_three_ways() {
    // price 40, quantity 3: total 120
    let mut market = market_with(10, "pen", 9, 40);

    let (r, refund) = market.buy(BUYER, 119, "pen".to_string(), 3, "addr".to_string());
    assert_eq!(r, Err(MarketError::InsufficientValue));
    assert_eq!(refund, 0);
    assert_eq!(snapshot(&market).products[0].1.quantity, 9);

    let (r, refund) = market.buy(BUYER, 120, "pen".to_string(), 3, "addr".to_string());
    assert!(r.is_ok());
    assert_eq!(refund, 0);
    assert_eq!(snapshot(&market).products[0].1.quantity, 6);

    let (r, refund) = market.buy(BUYER, 200, "pen".to_string(), 3, "addr".to_string());
    assert!(r.is_ok());
    assert_eq!(refund, 80);
    assert_eq!(snapshot(&market).products[0].1.quantity, 3);
}

#[test]
fn overflowing_total_is_insufficient() {
    let mut market = market_with(10, "pen", 5, u128::MAX);
    // the exact total u128::MAX * 2 exceeds any attachable value
    let (r, refund) = market.buy(BUYER, u128::MAX, "pen".to_string(), 2, "addr".to_string());
    assert_eq!(r, Err(MarketError::InsufficientValue));
    assert_eq!(refund, 0);
    assert_eq!(snapshot(&market).products[0].1.quantity, 5);
}

#[test]
fn history_is_ordered_and_per_buyer() {
    let mut market = market_with(10, "pen", 10, 40);
    let added = market.add_product(ADMIN, 10, "ink".to_string(), 10, 10);
    assert!(added.is_ok());

    let (r, _) = market.buy(BUYER, 40, "pen".to_string(), 1, "a1".to_string());
    assert!(r.is_ok());
    let (r, _) = market.buy(OTHER, 10, "ink".to_string(), 1, "b1".to_string());
    assert!(r.is_ok());
    let (r, _) = market.buy(BUYER, 30, "ink".to_string(), 3, "a2".to_string());
    assert!(r.is_ok());

    let reply = market.state(StateQuery::GetActorPurchases(BUYER));
    let records = match reply {
        StateReply::ActorPurchases(Some(records)) => records,
        _ => panic!("the buyer has a history"),
    };
    assert_eq!(records.len(), 2);
    assert_eq!(records[0].name, "pen");
    assert_eq!(records[0].quantity, 1);
    assert_eq!(records[0].delivery_address, "a1");
    assert_eq!(records[1].name, "ink");
    assert_eq!(records[1].quantity, 3);
    assert_eq!(records[1].delivery_address, "a2");

    let reply = market.state(StateQuery::GetActorPurchases(OTHER));
    let records = match reply {
        StateReply::ActorPurchases(Some(records)) => records,
        _ => panic!("the other buyer has a history"),
    };
    assert_eq!(records.len(), 1);
    assert_eq!(records[0].name, "ink");
    assert_eq!(records[0].quantity, 1);

    let reply = market.state(StateQuery::GetActorPurchases(99));
    assert_eq!(reply, StateReply::ActorPurchases(None));
}

#[test]
fn catalog_and_purchases_queries() {
    let mut market = market_with(10, "pen", 10, 40);
    let (r, _) = market.buy(BUYER, 40, "pen".to_string(), 1, "a1".to_string());
    assert!(r.is_ok());

    let reply = market.state(StateQuery::GetProducts);
    let products = match reply {
        StateReply::Products(products) => products,
        _ => panic!("the catalog query answers with the product list"),
    };
    assert_eq!(products.len(), 1);
    assert_eq!(products[0].0, "pen");
    assert_eq!(products[0].1.quantity, 9);

    let reply = market.state(StateQuery::GetPurchases);
    let purchases = match reply {
        StateReply::Purchases(purchases) => purchases,
        _ => panic!("the purchases query answers with the history list"),
    };
    assert_eq!(purchases.len(), 1);
    assert_eq!(purchases[0].0, BUYER);
    assert_eq!(purchases[0].1.len(), 1);
}

#[test]
fn failed_buy_refunds_whole_value_through_handle() {
    let mut market = market_with(10, "pen", 5, 40);
    let (r, send_back) = market.handle(
        BUYER,
        1234,
        10,
        MarketAction::Buy {
            name: "ink".to_string(),
            quantity: 1,
            delivery_address: "addr".to_string(),
        },
    );
    assert_eq!(r, Err(MarketError::ThereIsNoSuchName));
    assert_eq!(send_back, 1234);
}

#[test]
fn widget_scenario() {
    let mut market = Market::new(ADMIN, Config { public_key: "key".to_string() });
    let added = market.add_product(ADMIN, 1000, "Widget".to_string(), 100, 1000);
    assert_eq!(
        added,
        Ok(MarketEvent::ProductAdded { name: "Widget".to_string(), quantity: 100, price: 1000 })
    );

    let (r, refund) = market.buy(BUYER, 2500, "Widget".to_string(), 2, "addr".to_string());
    assert_eq!(
        r,
        Ok(MarketEvent::Bought { buyer: BUYER, name: "Widget".to_string(), quantity: 2 })
    );
    assert_eq!(refund, 500);
    assert_eq!(snapshot(&market).products[0].1.quantity, 98);
    let records = match market.state(StateQuery::GetActorPurchases(BUYER)) {
        StateReply::ActorPurchases(Some(records)) => records,
        _ => panic!("the buyer has a history"),
    };
    assert_eq!(records.len(), 1);
    assert_eq!(records[0].status, Status::PaidFor);
    assert_eq!(records[0].quantity, 2);

    let (r, _) = market.buy(BUYER, 0, "Widget".to_string(), 0, "addr".to_string());
    assert_eq!(r, Err(MarketError::ZeroQuantity));
    assert_eq!(snapshot(&market).products[0].1.quantity, 98);

    let (r, _) = market.buy(OTHER, 200_000, "Widget".to_string(), 200, "addr".to_string());
    assert_eq!(r, Err(MarketError::QuantityExceeded));

    let r = market.delete_product(BUYER, "Widget".to_string());
    assert_eq!(r, Err(MarketError::NotAdmin));

    let r = market.delete_product(ADMIN, "Widget".to_string());
    assert_eq!(r, Ok(MarketEvent::ProductDeleted { name: "Widget".to_string() }));
    let state = snapshot(&market);
    assert_eq!(state.products.len(), 0);
    // the prior purchase record survives the deletion
    let records = match market.state(StateQuery::GetActorPurchases(BUYER)) {
        StateReply::ActorPurchases(Some(records)) => records,
        _ => panic!("the buyer still has a history"),
    };
    assert_eq!(records.len(), 1);
    assert_eq!(records[0].name, "Widget");
}
