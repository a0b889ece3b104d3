use greeter_app::errors::AppError;
use greeter_app::gateway::Reply;
use greeter_app::gateway::Request;
use greeter_app::gateway::add_greeted_people;
use greeter_app::gateway::dispatch;
use greeter_app::gateway::get_greeted_people;
use greeter_app::gateway::say_hi;
use greeter_app::store::SqlValue;
use greeter_app::store::Store;
use greeter_app::store::conn;

#[test]
fn say_hi_formats_the_greeting() {
    let r = say_hi(String::from("Ada"));
    assert_eq!(r.unwrap(), "Hello Ada!");
}

#[test]
fn say_hi_reflects_only_its_own_argument() {
    let a = say_hi(String::from("Ada")).unwrap();
    let b = say_hi(String::from("Grace")).unwrap();
    assert_eq!(a, "Hello Ada!");
    assert_eq!(b, "Hello Grace!");
    assert_ne!(a, b);
}

#[test]
fn conn_fails_exactly_when_unreachable() {
    assert!(conn(true).is_ok());
    match conn(false) {
        Err(e) => assert_eq!(e, AppError::Connection),
        Ok(_) => panic!("connection must fail when the store is unreachable"),
    }
}

#[test]
fn record_then_list_includes_the_name() {
    let mut store = Store::new();
    assert!(add_greeted_people(&mut store, String::from("Ada"), true).is_ok());
    let names = get_greeted_people(&store, true).unwrap();
    assert!(names.iter().any(|n| n == "Ada"));
}

#[test]
fn duplicate_names_accumulate() {
    let mut store = Store::new();
    assert!(add_greeted_people(&mut store, String::from("Ada"), true).is_ok());
    assert!(add_greeted_people(&mut store, String::from("Ada"), true).is_ok());
    let names = get_greeted_people(&store, true).unwrap();
    assert_eq!(names, vec![String::from("Ada"), String::from("Ada")]);
}

#[test]
fn list_returns_names_in_insertion_order() {
    let mut store = Store::new();
    assert!(add_greeted_people(&mut store, String::from("Ada"), true).is_ok());
    assert!(add_greeted_people(&mut store, String::from("Grace"), true).is_ok());
    assert!(add_greeted_people(&mut store, String::from("Linus"), true).is_ok());
    let names = get_greeted_people(&store, true).unwrap();
    assert_eq!(
        names,
        vec![String::from("Ada"), String::from("Grace"), String::from("Linus")]
    );
}

#[test]
fn list_on_empty_store_is_empty() {
    let store = Store::new();
    let names = get_greeted_people(&store, true).unwrap();
    assert!(names.is_empty());
}

#[test]
fn procedures_surface_connection_errors() {
    let mut store = Store::new();
    assert_eq!(get_greeted_people(&store, false).unwrap_err(), AppError::Connection);
    assert_eq!(
        add_greeted_people(&mut store, String::from("Ada"), false).unwrap_err(),
        AppError::Connection
    );
    // The failed record left nothing behind.
    assert!(get_greeted_people(&store, true).unwrap().is_empty());
}

#[test]
fn insert_rejects_wrong_positional_binds() {
    let mut store = Store::new();
    let c = conn(true).unwrap();
    let wrong_type = vec![SqlValue::Integer(7)];
    assert_eq!(store.run_insert(&c, wrong_type), Err(AppError::Bind));
    let wrong_arity: Vec<SqlValue> = Vec::new();
    assert_eq!(store.run_insert(&c, wrong_arity), Err(AppError::Bind));
    let too_many = vec![
        SqlValue::Text(String::from("Ada")),
        SqlValue::Text(String::from("Grace")),
    ];
    assert_eq!(store.run_insert(&c, too_many), Err(AppError::Bind));
}

#[test]
fn insert_reports_storage_exhaustion() {
    let mut store = Store::new();
    for i in 0..u16::MAX {
        let r = add_greeted_people(&mut store, format!("n{}", i), true);
        assert!(r.is_ok());
    }
    assert_eq!(
        add_greeted_people(&mut store, String::from("overflow"), true).unwrap_err(),
        AppError::Storage
    );
}

#[test]
fn dispatch_routes_each_request_to_its_handler() {
    let mut store = Store::new();
    match dispatch(&mut store, Request::SayHi(String::from("Ada")), true) {
        Ok(Reply::Hi(s)) => assert_eq!(s, "Hello Ada!"),
        _ => panic!("greet must answer with a greeting"),
    }
    match dispatch(&mut store, Request::AddGreetedPeople(String::from("Ada")), true) {
        Ok(Reply::Recorded) => {}
        _ => panic!("record must answer Recorded"),
    }
    match dispatch(&mut store, Request::GetGreetedPeople, true) {
        Ok(Reply::People(v)) => assert_eq!(v, vec![String::from("Ada")]),
        _ => panic!("list must answer with the names"),
    }
}

#[test]
fn error_messages_name_the_failure() {
    assert_eq!(AppError::Connection.message(), "store unreachable");
    assert_eq!(AppError::Bind.message(), "bind type mismatch");
    assert_eq!(AppError::Storage.message(), "store refused the statement");
}
