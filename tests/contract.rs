use cosmwasm_std::StdError;
use flowers::contract::{add_new, execute, instantiate, query, query_flower, sell, sell_transition};
use flowers::error::ContractError;
use flowers::msg::{ExecuteMsg, FlowerInfoResponse, InstantiateMsg, QueryMsg};
use flowers::state::{Flower, FlowerStore};

fn lily(name: &str, amount: i32) -> Flower {
    Flower {
        id: "lily_id".to_string(),
        name: name.to_string(),
        amount,
        price: 100,
    }
}

fn get(store: &FlowerStore, id: &str) -> FlowerInfoResponse {
    query(store, QueryMsg::GetFlower { id: id.to_string() }).unwrap()
}

#[test]
fn initialization() {
    let mut store = FlowerStore::new();
    let msg = InstantiateMsg {
        name: "rose".to_string(),
        amount: 10,
        price: 10,
    };
    let res = instantiate(&mut store, msg).unwrap();
    assert_eq!(0, res.attributes.len());
    let value = get(&store, "0");
    let flower = Flower {
        id: "0".to_string(),
        name: "rose".to_string(),
        amount: 10,
        price: 10,
    };
    let expected = FlowerInfoResponse {
        flower: Some(flower),
    };
    assert_eq!(expected, value);
}

#[test]
fn not_works_with_add_new_id_existed() {
    let mut store = FlowerStore::new();
    let lily_id = "lily_id";
    let msg_asiatic = ExecuteMsg::AddNew {
        id: lily_id.to_string(),
        name: "Asiatic lilies".to_string(),
        amount: 100,
        price: 100,
    };
    let res = execute(&mut store, msg_asiatic).unwrap();
    assert_eq!(2, res.attributes.len());

    let msg_oriental = ExecuteMsg::AddNew {
        id: lily_id.to_string(),
        name: "Oriental lilies".to_string(),
        amount: 100,
        price: 100,
    };
    let err = execute(&mut store, msg_oriental).unwrap_err();
    match err {
        ContractError::IdTaken { id } => {
            assert_eq!(lily_id.to_string(), id);
        }
        e => panic!("unexpected error: {:?}", e),
    }
    let expected = FlowerInfoResponse {
        flower: Some(lily("Asiatic lilies", 100)),
    };
    assert_eq!(expected, get(&store, lily_id));
}

#[test]
fn not_works_with_sell() {
    let mut store = FlowerStore::new();
    let lily_id = "lily_id";
    let msg_add_new = ExecuteMsg::AddNew {
        id: lily_id.to_string(),
        name: "Asiatic lilies".to_string(),
        amount: 100,
        price: 100,
    };
    let res = execute(&mut store, msg_add_new).unwrap();
    assert_eq!(2, res.attributes.len());

    let msg_sell = ExecuteMsg::Sell {
        id: "lily_id".to_string(),
        amount: 101,
    };
    let err = execute(&mut store, msg_sell).unwrap_err();
    match err {
        ContractError::NotEnoughAmount {} => {}
        e => panic!("unexpected error: {:?}", e),
    }
    let expected = FlowerInfoResponse {
        flower: Some(lily("Asiatic lilies", 100)),
    };
    assert_eq!(expected, get(&store, lily_id));
}

#[test]
fn not_works_with_query() {
    let store = FlowerStore::new();
    let err = query(
        &store,
        QueryMsg::GetFlower {
            id: "not_existed_id".to_string(),
        },
    );
    match err {
        Err(StdError::GenericErr { msg, .. }) => assert_eq!(msg, "Flower does not exist"),
        Err(e) => panic!("Unexpected error: {:?}", e),
        _ => panic!("Must return error"),
    }
}

#[test]
fn works_with_add_new_and_sell() {
    let mut store = FlowerStore::new();
    let msg = ExecuteMsg::AddNew {
        id: "lily_id".to_string(),
        name: "lily".to_string(),
        amount: 100,
        price: 100,
    };
    let res = execute(&mut store, msg).unwrap();
    assert_eq!(2, res.attributes.len());
    let expected = FlowerInfoResponse {
        flower: Some(lily("lily", 100)),
    };
    assert_eq!(expected, get(&store, "lily_id"));

    let msg = ExecuteMsg::Sell {
        id: "lily_id".to_string(),
        amount: 45,
    };
    let res = execute(&mut store, msg).unwrap();
    assert_eq!(1, res.attributes.len());
    let expected = FlowerInfoResponse {
        flower: Some(lily("lily", 55)),
    };
    assert_eq!(expected, get(&store, "lily_id"));
}

#[test]
fn add_new_reports_method_and_id() {
    let mut store = FlowerStore::new();
    let res = add_new(&mut store, "tulip".to_string(), "red".to_string(), 3, 7).unwrap();
    assert_eq!(res.attributes[0].key, "method");
    assert_eq!(res.attributes[0].value, "add_new");
    assert_eq!(res.attributes[1].key, "id");
    assert_eq!(res.attributes[1].value, "tulip");
    assert_eq!(store.len(), 1);
}

#[test]
fn sell_reports_method() {
    let mut store = FlowerStore::new();
    add_new(&mut store, "tulip".to_string(), "red".to_string(), 3, 7).unwrap();
    let res = sell(&mut store, "tulip".to_string(), 3).unwrap();
    assert_eq!(res.attributes.len(), 1);
    assert_eq!(res.attributes[0].key, "method");
    assert_eq!(res.attributes[0].value, "sell");
    let flower = query_flower(&store, "tulip".to_string()).unwrap().flower.unwrap();
    assert_eq!(flower.amount, 0);
    assert_eq!(flower.price, 7);
}

#[test]
fn second_create_with_other_fields_is_refused() {
    let mut store = FlowerStore::new();
    add_new(&mut store, "a".to_string(), "first".to_string(), 5, 1).unwrap();
    match add_new(&mut store, "a".to_string(), "second".to_string(), 9, 2) {
        Err(ContractError::IdTaken { id }) => assert_eq!(id, "a"),
        other => panic!("unexpected: {:?}", other),
    }
    let flower = query_flower(&store, "a".to_string()).unwrap().flower.unwrap();
    assert_eq!(flower.name, "first");
    assert_eq!(flower.amount, 5);
    assert_eq!(store.len(), 1);
}

#[test]
fn sell_whole_stock_and_one_more() {
    let mut store = FlowerStore::new();
    add_new(&mut store, "a".to_string(), "n".to_string(), 10, 1).unwrap();
    sell(&mut store, "a".to_string(), 10).unwrap();
    match sell(&mut store, "a".to_string(), 1) {
        Err(ContractError::NotEnoughAmount {}) => {}
        other => panic!("unexpected: {:?}", other),
    }
    let flower = query_flower(&store, "a".to_string()).unwrap().flower.unwrap();
    assert_eq!(flower.amount, 0);
}

#[test]
fn sell_zero_leaves_amount() {
    let mut store = FlowerStore::new();
    add_new(&mut store, "a".to_string(), "n".to_string(), 4, 1).unwrap();
    sell(&mut store, "a".to_string(), 0).unwrap();
    let flower = query_flower(&store, "a".to_string()).unwrap().flower.unwrap();
    assert_eq!(flower.amount, 4);
}

#[test]
fn sell_negative_is_refused() {
    let mut store = FlowerStore::new();
    add_new(&mut store, "a".to_string(), "n".to_string(), 4, 1).unwrap();
    match sell(&mut store, "a".to_string(), -3) {
        Err(ContractError::InvalidAmount {}) => {}
        other => panic!("unexpected: {:?}", other),
    }
    let flower = query_flower(&store, "a".to_string()).unwrap().flower.unwrap();
    assert_eq!(flower.amount, 4);
}

#[test]
fn sell_missing_id_is_refused() {
    let mut store = FlowerStore::new();
    match sell(&mut store, "ghost".to_string(), 1) {
        Err(ContractError::IdNotExists { id }) => assert_eq!(id, "ghost"),
        other => panic!("unexpected: {:?}", other),
    }
    assert_eq!(store.len(), 0);
    assert!(query_flower(&store, "ghost".to_string()).is_err());
}

#[test]
fn repeated_lookups_agree() {
    let mut store = FlowerStore::new();
    add_new(&mut store, "a".to_string(), "n".to_string(), 4, 2).unwrap();
    let first = get(&store, "a");
    let second = get(&store, "a");
    assert_eq!(first, second);
    add_new(&mut store, "b".to_string(), "m".to_string(), 1, 1).unwrap();
    sell(&mut store, "b".to_string(), 1).unwrap();
    assert_eq!(first, get(&store, "a"));
}

#[test]
fn instantiate_overwrites_bootstrap_record() {
    let mut store = FlowerStore::new();
    instantiate(&mut store, InstantiateMsg { name: "rose".to_string(), amount: 1, price: 2 }).unwrap();
    instantiate(&mut store, InstantiateMsg { name: "iris".to_string(), amount: 3, price: 4 }).unwrap();
    let flower = get(&store, "0").flower.unwrap();
    assert_eq!(flower.name, "iris");
    assert_eq!(store.len(), 1);
}

#[test]
fn transition_on_missing_and_present_records() {
    let id = "lily_id".to_string();
    match sell_transition(None, &id, 1) {
        Err(ContractError::IdNotExists { id: got }) => assert_eq!(got, "lily_id"),
        other => panic!("unexpected: {:?}", other),
    }
    let after = sell_transition(Some(lily("lily", 100)), &id, 45).unwrap();
    assert_eq!(after, lily("lily", 55));
}

#[test]
fn flowers_differing_in_one_field_are_unequal() {
    assert_ne!(lily("lily", 1), lily("lily", 2));
    assert_ne!(lily("lily", 1), lily("rose", 1));
    assert_eq!(lily("lily", 1), lily("lily", 1).copy_record());
}
