use sei_land::msg::{coins, denom, Coin, ExecuteMsg, InstantiateMsg, MessageInfo};
use sei_land::response::{Attribute, Response, Transfer};
use sei_land::state::{ParcelState, Plot, PlotRegistry, PointsLedger, Store};

fn plot(coordinates: (i32, i32), price: u128, owner: &str) -> Plot {
    Plot { coordinates, price, owner: owner.to_string() }
}

#[test]
fn new_store_is_uninitialised() {
    let store = Store::new();
    assert_eq!(store.initial_price, None);
    assert_eq!(store.royalty_address, None);
    assert_eq!(store.treasury, None);
    assert_eq!(store.total_points, None);
    assert_eq!(store.points.get(&"anyone".to_string()), None);
    assert_eq!(store.plots.get((0, 0)), ParcelState::Uninitialized);
}

#[test]
fn points_ledger_records_and_replaces() {
    let mut ledger = PointsLedger::new();
    assert_eq!(ledger.get(&"alice".to_string()), None);
    ledger.set("alice".to_string(), 100);
    ledger.set("bob".to_string(), 300);
    assert_eq!(ledger.get(&"alice".to_string()), Some(100));
    assert_eq!(ledger.get(&"bob".to_string()), Some(300));
    assert_eq!(ledger.get(&"carol".to_string()), None);
    ledger.set("alice".to_string(), 0);
    assert_eq!(ledger.get(&"alice".to_string()), Some(0));
    assert_eq!(ledger.get(&"bob".to_string()), Some(300));
    ledger.set("bob".to_string(), 7);
    ledger.set("".to_string(), 1);
    assert_eq!(ledger.get(&"bob".to_string()), Some(7));
    assert_eq!(ledger.get(&"".to_string()), Some(1));
    assert_eq!(ledger.get(&"alice".to_string()), Some(0));
}

#[test]
fn plot_registry_saves_and_replaces() {
    let mut registry = PlotRegistry::new();
    assert_eq!(registry.get((0, 0)), ParcelState::Uninitialized);
    registry.save(plot((0, 0), 100, "alice"));
    registry.save(plot((0, 1), 50, "bob"));
    registry.save(plot((-3, i32::MAX), 1, "carol"));
    assert_eq!(registry.get((0, 0)), ParcelState::Owned(plot((0, 0), 100, "alice")));
    assert_eq!(registry.get((0, 1)), ParcelState::Owned(plot((0, 1), 50, "bob")));
    assert_eq!(
        registry.get((-3, i32::MAX)),
        ParcelState::Owned(plot((-3, i32::MAX), 1, "carol"))
    );
    assert_eq!(registry.get((1, 0)), ParcelState::Uninitialized);
    registry.save(plot((0, 0), 200, "bob"));
    assert_eq!(registry.get((0, 0)), ParcelState::Owned(plot((0, 0), 200, "bob")));
    assert_eq!(registry.get((0, 1)), ParcelState::Owned(plot((0, 1), 50, "bob")));
}

#[test]
fn plot_clone_keeps_every_field() {
    let first = plot((4, -4), 77, "alice");
    let copy = first.clone();
    assert_eq!(copy, first);
    assert_eq!(copy.coordinates, (4, -4));
    assert_eq!(copy.price, 77);
    assert_eq!(copy.owner, "alice");
}

#[test]
fn coins_builds_one_coin() {
    assert_eq!(coins(200, "sei"), vec![Coin { denom: "sei".to_string(), amount: 200 }]);
    assert_eq!(coins(0, "earth"), vec![Coin { denom: "earth".to_string(), amount: 0 }]);
    let coin = Coin { denom: "sei".to_string(), amount: 9 };
    assert_eq!(coin.clone(), coin);
    assert_eq!(denom(), "sei");
}

#[test]
fn sei_amount_takes_the_first_coin_in_the_settlement_currency() {
    let info = MessageInfo { sender: "alice".to_string(), funds: Vec::new() };
    assert_eq!(info.sei_amount(), 0);
    let info = MessageInfo { sender: "alice".to_string(), funds: coins(12, "sei") };
    assert_eq!(info.sei_amount(), 12);
    let info = MessageInfo { sender: "alice".to_string(), funds: coins(12, "SEI") };
    assert_eq!(info.sei_amount(), 0);
    let info = MessageInfo {
        sender: "alice".to_string(),
        funds: vec![
            Coin { denom: "se".to_string(), amount: 1 },
            Coin { denom: "seii".to_string(), amount: 2 },
            Coin { denom: "sei".to_string(), amount: 3 },
            Coin { denom: "sei".to_string(), amount: 4 },
        ],
    };
    assert_eq!(info.sei_amount(), 3);
}

#[test]
fn messages_compare_and_clone() {
    let msg = InstantiateMsg { initial_price: 100, royalty_address: "royalty_addr".to_string() };
    assert_eq!(msg.clone(), msg);
    let buy = ExecuteMsg::Buy { coordinates: (1, 2) };
    assert_eq!(buy, ExecuteMsg::Buy { coordinates: (1, 2) });
    assert_ne!(buy, ExecuteMsg::Buy { coordinates: (2, 1) });
    assert_ne!(buy, ExecuteMsg::Claim {});
}

#[test]
fn response_builder_appends_in_order() {
    let response = Response::new();
    assert!(response.messages.is_empty());
    assert!(response.attributes.is_empty());
    let response = response
        .add_attribute("action", "buy".to_string())
        .add_message(Transfer { to_address: "a".to_string(), amount: 1, denom: "sei".to_string() })
        .add_attribute("buyer", "alice".to_string())
        .add_message(Transfer { to_address: "b".to_string(), amount: 2, denom: "sei".to_string() });
    assert_eq!(
        response.attributes,
        vec![
            Attribute { key: "action".to_string(), value: "buy".to_string() },
            Attribute { key: "buyer".to_string(), value: "alice".to_string() },
        ]
    );
    assert_eq!(
        response.messages,
        vec![
            Transfer { to_address: "a".to_string(), amount: 1, denom: "sei".to_string() },
            Transfer { to_address: "b".to_string(), amount: 2, denom: "sei".to_string() },
        ]
    );
}
