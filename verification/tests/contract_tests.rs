use hello_world::contract::{execute, instantiate, query, try_set_greeting};
use hello_world::error::ContractError;
use hello_world::msg::{ExecuteMsg, InstantiateMsg, MessageInfo, QueryMsg};
use hello_world::state::{Addr, StateStore};

fn info(sender: &str) -> MessageInfo {
    MessageInfo { sender: Addr::new(sender.to_string()) }
}

#[test]
fn proper_initialization() {
    let mut store = StateStore::new();

    let msg = InstantiateMsg { greeting: String::from("Ciao Mondo!") };
    let res = instantiate(&mut store, info("creator"), msg).unwrap();

    assert_eq!(3, res.attributes.len());
    assert_eq!("method", res.attributes[0].key);
    assert_eq!("instantiate", res.attributes[0].value);
    assert_eq!("owner", res.attributes[1].key);
    assert_eq!("creator", res.attributes[1].value);
    assert_eq!("greeting", res.attributes[2].key);
    assert_eq!("Ciao Mondo!", res.attributes[2].value);

    // it worked, let's query the state
    let value = query(&store, QueryMsg::Greet {}).unwrap();
    assert_eq!("Ciao Mondo!", value.greeting);
}

#[test]
fn change_greet() {
    let mut store = StateStore::new();

    let msg = InstantiateMsg { greeting: String::from("Ciao Mondo!") };
    let _res = instantiate(&mut store, info("creator"), msg).unwrap();

    let msg = ExecuteMsg::SetGreeting { greeting: String::from("Hello World!") };
    let _res = execute(&mut store, info("creator"), msg).unwrap();

    let value = query(&store, QueryMsg::Greet {}).unwrap();
    assert_eq!("Hello World!", value.greeting);
}

#[test]
fn not_change_greet() {
    let mut store = StateStore::new();

    let msg = InstantiateMsg { greeting: String::from("Ciao Mondo!") };
    let _res = instantiate(&mut store, info("creator"), msg).unwrap();

    // Only owner can change greet
    let msg = ExecuteMsg::SetGreeting { greeting: String::from("Hello World!") };
    let res = execute(&mut store, info("anyone"), msg);
    match res {
        Err(ContractError::Unauthorized) => {}
        _ => panic!("Must return unauthorized error"),
    }

    // greeting didn't change
    let value = query(&store, QueryMsg::Greet {}).unwrap();
    assert_eq!("Ciao Mondo!", value.greeting);
}

#[test]
fn query_uninitialized_fails_not_found() {
    let store = StateStore::new();
    let res = query(&store, QueryMsg::Greet {});
    assert!(matches!(res, Err(ContractError::NotFound)));
}

#[test]
fn execute_uninitialized_fails_not_found() {
    let mut store = StateStore::new();
    let msg = ExecuteMsg::SetGreeting { greeting: String::from("hello") };
    let res = execute(&mut store, info("creator"), msg);
    assert!(matches!(res, Err(ContractError::NotFound)));
}

#[test]
fn instantiate_twice_fails_already_initialized() {
    let mut store = StateStore::new();

    let msg = InstantiateMsg { greeting: String::from("first") };
    instantiate(&mut store, info("creator"), msg).unwrap();

    let msg = InstantiateMsg { greeting: String::from("second") };
    let res = instantiate(&mut store, info("intruder"), msg);
    assert!(matches!(res, Err(ContractError::AlreadyInitialized)));

    // the record is untouched: greeting unchanged and the intruder still
    // cannot write
    let value = query(&store, QueryMsg::Greet {}).unwrap();
    assert_eq!("first", value.greeting);
    let msg = ExecuteMsg::SetGreeting { greeting: String::from("second") };
    let res = execute(&mut store, info("intruder"), msg);
    assert!(matches!(res, Err(ContractError::Unauthorized)));
}

#[test]
fn owner_can_set_empty_greeting() {
    let mut store = StateStore::new();

    let msg = InstantiateMsg { greeting: String::from("something") };
    instantiate(&mut store, info("creator"), msg).unwrap();

    let msg = ExecuteMsg::SetGreeting { greeting: String::new() };
    let res = execute(&mut store, info("creator"), msg).unwrap();
    assert_eq!(1, res.attributes.len());
    assert_eq!("method", res.attributes[0].key);
    assert_eq!("reset", res.attributes[0].value);

    let value = query(&store, QueryMsg::Greet {}).unwrap();
    assert_eq!("", value.greeting);
}

#[test]
fn owner_survives_any_execute_sequence() {
    let mut store = StateStore::new();

    let msg = InstantiateMsg { greeting: String::from("start") };
    instantiate(&mut store, info("creator"), msg).unwrap();

    // a mix of failed and successful writes never changes the owner
    let calls = [
        ("anyone", "a"),
        ("creator", "b"),
        ("someone else", "c"),
        ("creator", "d"),
        ("anyone", "e"),
    ];
    for (caller, greeting) in calls {
        let _ = try_set_greeting(&mut store, info(caller), greeting.to_string());
    }

    // only the owner's writes landed: the last successful one was "d"
    let value = query(&store, QueryMsg::Greet {}).unwrap();
    assert_eq!("d", value.greeting);

    // the creator is still the owner ...
    let msg = ExecuteMsg::SetGreeting { greeting: String::from("final word") };
    execute(&mut store, info("creator"), msg).unwrap();
    // ... and nobody else became one
    let msg = ExecuteMsg::SetGreeting { greeting: String::from("hijack") };
    let res = execute(&mut store, info("anyone"), msg);
    assert!(matches!(res, Err(ContractError::Unauthorized)));
    let value = query(&store, QueryMsg::Greet {}).unwrap();
    assert_eq!("final word", value.greeting);
}

#[test]
fn errors_describe_themselves() {
    assert!(!ContractError::Unauthorized.describe().is_empty());
    assert!(!ContractError::NotFound.describe().is_empty());
    assert!(!ContractError::AlreadyInitialized.describe().is_empty());
}
