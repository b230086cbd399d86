use market::market::Market;
use market::types::{ActorId, Config, MarketAction, MarketError, MarketEvent, State, StateQuery,
    StateReply};

pub const USERS: [ActorId; 3] = [10, 11, 12];
pub const ADMIN: ActorId = 100;
pub const EXISTENTIAL_DEPOSIT: u128 = 10_000_000_000_000;

fn new_market() -> Market {
    Market::new(ADMIN, Config { public_key: "public key".to_string() })
}

fn add_product(
    market: &mut Market,
    from: ActorId,
    name: String,
    quantity: u128,
    price: u128,
    error: Option<MarketError>,
) {
    let (result, send_back) = market.handle(
        from,
        0,
        EXISTENTIAL_DEPOSIT,
        MarketAction::AddProduct { name: name.clone(), quantity, price },
    );
    let reply = if let Some(error) = error {
        Err(error)
    } else {
        Ok(MarketEvent::ProductAdded { name, quantity, price })
    };
    assert_eq!(result, reply);
    assert_eq!(send_back, 0);
}

fn update_product_info(
    market: &mut Market,
    from: ActorId,
    name: String,
    quantity: Option<u128>,
    price: Option<u128>,
    error: Option<MarketError>,
) {
    let (result, _) = market.handle(
        from,
        0,
        EXISTENTIAL_DEPOSIT,
        MarketAction::UpdateProductInfo { name: name.clone(), quantity, price },
    );
    let reply = if let Some(error) = error {
        Err(error)
    } else {
        Ok(MarketEvent::ProductInfoUpdated { name, quantity, price })
    };
    assert_eq!(result, reply);
}

fn delete_product(market: &mut Market, from: ActorId, name: String, error: Option<MarketError>) {
    let (result, _) = market.handle(
        from,
        0,
        EXISTENTIAL_DEPOSIT,
        MarketAction::DeleteProduct { name: name.clone() },
    );
    let reply = if let Some(error) = error {
        Err(error)
    } else {
        Ok(MarketEvent::ProductDeleted { name })
    };
    assert_eq!(result, reply);
}

/// Returns the value the host sends back to the caller: the whole attached
/// value on failure, the exact change on success.
fn buy(
    market: &mut Market,
    from: ActorId,
    value: u128,
    name: String,
    quantity: u128,
    delivery_address: String,
    error: Option<MarketError>,
) -> u128 {
    let (result, send_back) = market.handle(
        from,
        value,
        EXISTENTIAL_DEPOSIT,
        MarketAction::Buy { name: name.clone(), quantity, delivery_address },
    );
    let reply = if let Some(error) = error {
        assert_eq!(send_back, value);
        Err(error)
    } else {
        Ok(MarketEvent::Bought { buyer: from, name: name.clone(), quantity })
    };
    assert_eq!(result, reply);
    send_back
}

fn get_all_state(market: &Market) -> Option<State> {
    let reply = market.state(StateQuery::All);
    if let StateReply::All(state) = reply {
        Some(state)
    } else {
        None
    }
}

#[test]
fn success_add_update_buy_delete_product() {
    let mut market = new_market();

    // Add Product
    let price = 10_000_000_000_000;
    let quantity = 100;
    add_product(&mut market, ADMIN, "Product_#1".to_string(), quantity, price, None);

    let state: State = get_all_state(&market).expect("Unexpected invalid game state.");
    assert_eq!(state.products.len(), 1);

    // Buy Product
    let change = buy(
        &mut market,
        USERS[0],
        2 * price,
        "Product_#1".to_string(),
        1,
        "delivery_address".to_string(),
        None,
    );
    // check to make sure the change is returned.
    assert_eq!(change, price);

    let state: State = get_all_state(&market).expect("Unexpected invalid game state.");
    assert_eq!(state.products[0].1.quantity, quantity - 1);
    assert_eq!(state.purchases.len(), 1);

    // Update Info Product
    update_product_info(
        &mut market,
        ADMIN,
        "Product_#1".to_string(),
        Some(quantity * 2),
        Some(price * 2),
        None,
    );
    let state: State = get_all_state(&market).expect("Unexpected invalid game state.");
    assert_eq!(state.products[0].1.quantity, quantity * 2);
    assert_eq!(state.products[0].1.price, price * 2);

    // Buy Product with new info of product
    let change = buy(
        &mut market,
        USERS[0],
        2 * price,
        "Product_#1".to_string(),
        1,
        "delivery_address".to_string(),
        None,
    );
    assert_eq!(change, 0);

    let state: State = get_all_state(&market).expect("Unexpected invalid game state.");
    assert_eq!(state.products[0].1.quantity, quantity * 2 - 1);
    assert_eq!(state.purchases[0].1.len(), 2);

    // Delete product
    delete_product(&mut market, ADMIN, "Product_#1".to_string(), None);
    let state: State = get_all_state(&market).expect("Unexpected invalid game state.");
    assert_eq!(state.products.len(), 0);
}

#[test]
fn failures_add_product() {
    let mut market = new_market();

    let price = 10_000_000_000_000;
    add_product(
        &mut market,
        USERS[0],
        "Product_#1".to_string(),
        100,
        price,
        Some(MarketError::NotAdmin),
    );
    add_product(
        &mut market,
        ADMIN,
        "Product_#1".to_string(),
        100,
        price - 1,
        Some(MarketError::PriceLessThanExistentialDeposit),
    );
    add_product(&mut market, ADMIN, "Product_#1".to_string(), 100, price, None);
    add_product(
        &mut market,
        ADMIN,
        "Product_#1".to_string(),
        100,
        price,
        Some(MarketError::AlreadyExists),
    );
}

#[test]
fn failures_bought() {
    let mut market = new_market();

    let price = 10_000_000_000_000;
    add_product(&mut market, ADMIN, "Product_#1".to_string(), 100, price, None);

    buy(
        &mut market,
        USERS[0],
        price,
        "Product_#2".to_string(),
        1,
        "delivery_address".to_string(),
        Some(MarketError::ThereIsNoSuchName),
    );
    buy(
        &mut market,
        USERS[0],
        price,
        "Product_#1".to_string(),
        0,
        "delivery_address".to_string(),
        Some(MarketError::ZeroQuantity),
    );
    buy(
        &mut market,
        USERS[0],
        price,
        "Product_#1".to_string(),
        101,
        "delivery_address".to_string(),
        Some(MarketError::QuantityExceeded),
    );
    buy(
        &mut market,
        USERS[0],
        price,
        "Product_#1".to_string(),
        2,
        "delivery_address".to_string(),
        Some(MarketError::InsufficientValue),
    );
}
