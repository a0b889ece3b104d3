use greeter_app::errors::AppError;
use greeter_app::errors::CallError;
use greeter_app::gateway::Reply;
use greeter_app::gateway::add_greeted_people;
use greeter_app::gateway::get_greeted_people;
use greeter_app::page::Ui;
use greeter_app::page::run_click_routine;
use greeter_app::page::run_mount_routine;
use greeter_app::routine::Action;
use greeter_app::routine::ClickRoutine;
use greeter_app::routine::MountRoutine;
use greeter_app::routine::RpcOutcome;
use greeter_app::routine::classify_outcome;
use greeter_app::routine::click_start;
use greeter_app::routine::click_step;
use greeter_app::routine::join_names;
use greeter_app::routine::mount_start;
use greeter_app::routine::mount_step;
use greeter_app::store::Store;

#[test]
fn join_names_with_comma_separator() {
    let empty: Vec<String> = Vec::new();
    assert_eq!(join_names(&empty, ", "), "");
    let one = vec![String::from("Ada")];
    assert_eq!(join_names(&one, ", "), "Ada");
    let three = vec![String::from("Ada"), String::from("Grace"), String::from("Linus")];
    assert_eq!(join_names(&three, ", "), "Ada, Grace, Linus");
}

#[test]
fn outcomes_distinguish_application_from_transport_failure() {
    let ok = RpcOutcome::Reply(Ok(Reply::Recorded));
    assert_eq!(classify_outcome(&ok), None);
    let app = RpcOutcome::Reply(Err(AppError::Connection));
    assert_eq!(classify_outcome(&app), Some(CallError::Application(AppError::Connection)));
    let lost = RpcOutcome::TransportFailed;
    assert_eq!(classify_outcome(&lost), Some(CallError::Transport));
    assert_ne!(classify_outcome(&app), classify_outcome(&lost));
}

#[test]
fn call_error_messages_name_the_failure() {
    assert_eq!(CallError::Transport.message(), "transport failure");
    assert_eq!(CallError::Application(AppError::Connection).message(), "store unreachable");
    assert!(CallError::Application(AppError::Bind).is_application());
    assert!(!CallError::Transport.is_application());
}

#[test]
fn the_mount_routine_displays_the_fetched_list() {
    let (st, first) = mount_start();
    assert!(matches!(first, Action::CallGetGreetedPeople));
    let names = vec![String::from("Ada"), String::from("Grace")];
    let (done, acts) = mount_step(st, RpcOutcome::Reply(Ok(Reply::People(names))));
    assert!(matches!(done, MountRoutine::Done));
    assert_eq!(acts.len(), 1);
    match &acts[0] {
        Action::SetPeople(s) => assert_eq!(s, "Ada, Grace"),
        _ => panic!("the fetched list must be displayed"),
    }
}

#[test]
fn the_mount_routine_only_logs_a_failure() {
    let (st, _) = mount_start();
    let (_, acts) = mount_step(st, RpcOutcome::Reply(Err(AppError::Connection)));
    assert_eq!(acts.len(), 1);
    match &acts[0] {
        Action::LogError(m) => assert_eq!(m, "store unreachable"),
        _ => panic!("a failed fetch must only be reported"),
    }
}

#[test]
fn the_click_routine_orders_its_calls() {
    // The record call is issued only by the step that consumed the
    // greeting reply, and the refetch only by the step that consumed the
    // record reply.
    let (st, first) = click_start(String::from("Ada"));
    match &first {
        Action::CallSayHi(n) => assert_eq!(n, "Ada"),
        _ => panic!("the routine starts with the greet call"),
    }
    let hi = RpcOutcome::Reply(Ok(Reply::Hi(String::from("Hello Ada!"))));
    let (st, acts) = click_step(st, hi);
    assert!(matches!(st, ClickRoutine::AwaitRecord));
    assert_eq!(acts.len(), 2);
    match &acts[0] {
        Action::SetShout(s) => assert_eq!(s, "Hello Ada!"),
        _ => panic!("the greeting is displayed before the record call"),
    }
    match &acts[1] {
        Action::CallAddGreetedPeople(n) => assert_eq!(n, "Ada"),
        _ => panic!("the record call follows the greeting reply"),
    }
    let (st, acts) = click_step(st, RpcOutcome::Reply(Ok(Reply::Recorded)));
    assert!(matches!(st, ClickRoutine::AwaitList));
    assert_eq!(acts.len(), 1);
    assert!(matches!(acts[0], Action::CallGetGreetedPeople));
    let names = vec![String::from("Ada")];
    let (st, acts) = click_step(st, RpcOutcome::Reply(Ok(Reply::People(names))));
    assert!(matches!(st, ClickRoutine::Done));
    assert_eq!(acts.len(), 1);
    match &acts[0] {
        Action::SetPeople(s) => assert_eq!(s, "Ada"),
        _ => panic!("the refetched list is displayed"),
    }
}

#[test]
fn a_finished_routine_does_nothing_more() {
    let (_, acts) = click_step(ClickRoutine::Done, RpcOutcome::TransportFailed);
    assert!(acts.is_empty());
    let (_, acts) = mount_step(MountRoutine::Done, RpcOutcome::TransportFailed);
    assert!(acts.is_empty());
}

#[test]
fn mount_fetch_failure_leaves_the_display_intact() {
    let store = Store::new();
    let mut ui = Ui::mount(0);
    let diag = run_mount_routine(&mut ui, &store, false);
    assert_eq!(diag.unwrap(), "store unreachable");
    assert_eq!(ui.people.get().as_str(), "");
    assert_eq!(ui.shout.get().as_str(), "Click me");
}

#[test]
fn submitting_ada_greets_records_and_redisplays() {
    // End to end: the page mounts over a store already holding one name,
    // then the user submits "Ada".
    let mut store = Store::new();
    assert!(add_greeted_people(&mut store, String::from("Grace"), true).is_ok());
    let mut ui = Ui::mount(0);
    let diag = run_mount_routine(&mut ui, &store, true);
    assert!(diag.is_none());
    assert_eq!(ui.people.get().as_str(), "Grace");

    let reports = run_click_routine(&mut ui, &mut store, String::from("Ada"), true, true);
    assert!(reports.is_empty());
    assert_eq!(ui.shout.get().as_str(), "Hello Ada!");
    assert_eq!(ui.people.get().as_str(), "Grace, Ada");
    let names = get_greeted_people(&store, true).unwrap();
    assert_eq!(names, vec![String::from("Grace"), String::from("Ada")]);
    // The rendering scope is due to re-run exactly once this tick.
    assert_eq!(ui.sched.take_dirty(), vec![0]);
}

#[test]
fn a_store_failure_during_record_leaves_prior_state_unchanged() {
    let mut store = Store::new();
    assert!(add_greeted_people(&mut store, String::from("Grace"), true).is_ok());
    let mut ui = Ui::mount(0);
    assert!(run_mount_routine(&mut ui, &store, true).is_none());
    assert_eq!(ui.people.get().as_str(), "Grace");

    // The record call's connection fails; the refetch succeeds.
    let reports = run_click_routine(&mut ui, &mut store, String::from("Mallory"), false, true);
    // The failure was reported as the application error it was — not a
    // transport one — and the displayed list still shows the unchanged
    // store.
    assert_eq!(reports, vec![String::from("store unreachable")]);
    assert_ne!(reports[0], CallError::Transport.message());
    assert_eq!(ui.people.get().as_str(), "Grace");
    let names = get_greeted_people(&store, true).unwrap();
    assert_eq!(names, vec![String::from("Grace")]);
}

#[test]
fn a_failed_refetch_leaves_the_displayed_list_unchanged() {
    let mut store = Store::new();
    assert!(add_greeted_people(&mut store, String::from("Grace"), true).is_ok());
    let mut ui = Ui::mount(0);
    assert!(run_mount_routine(&mut ui, &store, true).is_none());
    assert_eq!(ui.people.get().as_str(), "Grace");

    // The record succeeds but the refetch's connection fails: the failure
    // is reported and the prior display stands — no error text replaces it.
    let reports = run_click_routine(&mut ui, &mut store, String::from("Ada"), true, false);
    assert_eq!(reports, vec![String::from("store unreachable")]);
    assert_eq!(ui.people.get().as_str(), "Grace");
    assert_eq!(ui.shout.get().as_str(), "Hello Ada!");
    // The store did record the name; only the display is stale.
    let names = get_greeted_people(&store, true).unwrap();
    assert_eq!(names, vec![String::from("Grace"), String::from("Ada")]);
}

#[test]
fn record_and_refetch_failures_are_both_reported() {
    let mut store = Store::new();
    assert!(add_greeted_people(&mut store, String::from("Grace"), true).is_ok());
    let mut ui = Ui::mount(0);
    assert!(run_mount_routine(&mut ui, &store, true).is_none());

    let reports = run_click_routine(&mut ui, &mut store, String::from("Ada"), false, false);
    assert_eq!(
        reports,
        vec![String::from("store unreachable"), String::from("store unreachable")]
    );
    assert_eq!(ui.people.get().as_str(), "Grace");
    let names = get_greeted_people(&store, true).unwrap();
    assert_eq!(names, vec![String::from("Grace")]);
}

#[test]
fn the_record_step_reports_a_failure_before_the_refetch() {
    let (st, acts) = click_step(
        ClickRoutine::AwaitRecord,
        RpcOutcome::Reply(Err(AppError::Connection)),
    );
    assert!(matches!(st, ClickRoutine::AwaitList));
    assert_eq!(acts.len(), 2);
    match &acts[0] {
        Action::LogError(m) => assert_eq!(m, "store unreachable"),
        _ => panic!("a failed record must be reported"),
    }
    assert!(matches!(acts[1], Action::CallGetGreetedPeople));
}

#[test]
fn the_list_step_only_reports_a_failure() {
    let (st, acts) = click_step(ClickRoutine::AwaitList, RpcOutcome::TransportFailed);
    assert!(matches!(st, ClickRoutine::Done));
    assert_eq!(acts.len(), 1);
    match &acts[0] {
        Action::LogError(m) => assert_eq!(m, "transport failure"),
        _ => panic!("a failed refetch must not write the list signal"),
    }
}

#[test]
fn effect_reruns_recompute_subscriptions() {
    let mut ui = greeter_app::page::Ui::mount(0);
    // Re-running the render effect re-subscribes through its reads; the
    // scope is still subscribed exactly once to each signal.
    let (shout, people) = greeter_app::page::rerun_render(&mut ui, 0);
    assert_eq!(shout, "Click me");
    assert_eq!(people, "");
    assert_eq!(ui.shout.subscribers(), &vec![0]);
    assert_eq!(ui.people.subscribers(), &vec![0]);
}
