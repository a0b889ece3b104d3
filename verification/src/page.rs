//! The page's reactive state and the end-to-end behaviour of its routines.
//!
//! The page holds two signals — the greeting shown on the button and the
//! joined list of greeted names — both read by the rendering scope.  One
//! routine runs at mount and fetches the list; one runs per click and
//! greets, records, then refetches.  The drivers here run a whole routine
//! against a local store, performing each step's actions in order, and
//! carry the end-to-end contract: what the store and both signals hold
//! when the routine completes, for every connection verdict.

use crate::errors::AppError;
use crate::gateway::Request;
use crate::gateway::dispatch;
use crate::gateway::get_greeted_people;
use crate::gateway::greeting_of;
use crate::routine::Action;
use crate::routine::ActionView;
use crate::routine::ClickView;
use crate::routine::RpcOutcome;
use crate::routine::action_views;
use crate::routine::click_actions;
use crate::routine::click_start;
use crate::routine::click_step;
use crate::routine::clone_string;
use crate::routine::joined;
use crate::routine::list_actions;
use crate::routine::mount_start;
use crate::routine::mount_step;
use crate::routine::record_actions;
use crate::signal::Scheduler;
use crate::signal::Signal;
use crate::store::Store;
use vstd::pervasive::unreached;
use vstd::prelude::*;

verus! {

/// The page's client-side state: the two signals and the tick's dirty
/// queue.  No two signals share subscriber state.
pub struct Ui {
    /// The greeting shown on the button.
    pub shout: Signal<String>,
    /// The joined names shown under the heading.
    pub people: Signal<String>,
    /// The per-tick dirty queue of the effect scheduler.
    pub sched: Scheduler,
}

impl Ui {
    /// Every part is well-formed.
    pub open spec fn wf(self) -> bool {
        &&& self.shout.wf()
        &&& self.people.wf()
        &&& self.sched.wf()
    }

    /// Component mount: creates both signals with their initial texts and
    /// subscribes the rendering scope to each — the first render reads
    /// both inside that tracked scope.
    pub fn mount(render_scope: u64) -> (ui: Ui)
        ensures
            ui.wf(),
            ui.shout.value_spec()@ == "Click me"@,
            ui.people.value_spec()@ == ""@,
            ui.shout.subs() == seq![render_scope],
            ui.people.subs() == seq![render_scope],
            ui.sched.dirty_spec() == Seq::<u64>::empty(),
    {
        let mut shout = Signal::new(String::from_str("Click me"));
        let mut people = Signal::new(String::from_str(""));
        shout.subscribe(render_scope);
        people.subscribe(render_scope);
        proof {
            assert(shout.subs() =~= seq![render_scope]);
            assert(people.subs() =~= seq![render_scope]);
        }
        Ui { shout, people, sched: Scheduler::new() }
    }
}

/// One run of the rendering effect for `scope`: dependencies are dynamic,
/// so the run first drops every subscription the scope holds and then
/// re-subscribes through the tracked reads it actually performs — here,
/// one read of each signal.  Returns the two texts read, in read order,
/// for the renderer to project; reading changes no value.
pub fn rerun_render(ui: &mut Ui, scope: u64) -> (r: (String, String))
    requires
        old(ui).wf(),
    ensures
        final(ui).wf(),
        r.0@ == old(ui).shout.value_spec()@,
        r.1@ == old(ui).people.value_spec()@,
        final(ui).shout.value_spec() == old(ui).shout.value_spec(),
        final(ui).people.value_spec() == old(ui).people.value_spec(),
        final(ui).shout.subs().to_set() == old(ui).shout.subs().to_set().insert(scope),
        final(ui).people.subs().to_set() == old(ui).people.subs().to_set().insert(scope),
        final(ui).sched == old(ui).sched,
{
    ui.shout.unsubscribe(scope);
    ui.people.unsubscribe(scope);
    ui.shout.subscribe(scope);
    ui.people.subscribe(scope);
    let shout_text = clone_string(ui.shout.get());
    let people_text = clone_string(ui.people.get());
    proof {
        assert(ui.shout.subs().to_set() =~= old(ui).shout.subs().to_set().insert(scope));
        assert(ui.people.subs().to_set() =~= old(ui).people.subs().to_set().insert(scope));
    }
    (shout_text, people_text)
}

/// Writes the greeting signal and schedules its subscribers, deduplicated
/// against the tick.
fn write_shout(ui: &mut Ui, v: String)
    requires
        old(ui).wf(),
    ensures
        final(ui).wf(),
        final(ui).shout.value_spec() == v,
        final(ui).shout.subs() == old(ui).shout.subs(),
        final(ui).people == old(ui).people,
        final(ui).sched.dirty_spec().to_set() == old(ui).sched.dirty_spec().to_set().union(
            old(ui).shout.subs().to_set(),
        ),
{
    ui.shout.set(v);
    let subs = ui.shout.subscribers();
    ui.sched.notify(subs);
}

/// Writes the greeted-list signal and schedules its subscribers,
/// deduplicated against the tick.
fn write_people(ui: &mut Ui, v: String)
    requires
        old(ui).wf(),
    ensures
        final(ui).wf(),
        final(ui).people.value_spec() == v,
        final(ui).people.subs() == old(ui).people.subs(),
        final(ui).shout == old(ui).shout,
        final(ui).sched.dirty_spec().to_set() == old(ui).sched.dirty_spec().to_set().union(
            old(ui).people.subs().to_set(),
        ),
{
    ui.people.set(v);
    let subs = ui.people.subscribers();
    ui.sched.notify(subs);
}

/// Runs the mount-time routine to completion: issue `listGreeted`, await
/// it, and display the joined names.  `list_reachable` is the verdict on
/// the one connection the call opens.  Returns the reported diagnostic, if
/// any.
///
/// On success the list signal shows exactly the store's names, joined; on
/// failure the routine reports the application error and every signal
/// keeps its prior state — a failed fetch never corrupts the display.
pub fn run_mount_routine(ui: &mut Ui, store: &Store, list_reachable: bool) -> (r: Option<String>)
    requires
        old(ui).wf(),
        store.wf(),
    ensures
        final(ui).wf(),
        final(ui).shout == old(ui).shout,
        final(ui).people.subs() == old(ui).people.subs(),
        list_reachable ==> {
            &&& r is None
            &&& final(ui).people.value_spec()@ == joined(store.names(), ", "@)
            &&& final(ui).sched.dirty_spec().to_set() == old(ui).sched.dirty_spec().to_set().union(
                old(ui).people.subs().to_set(),
            )
        },
        !list_reachable ==> {
            &&& r matches Some(m) && m@ == AppError::Connection.message_view()
            &&& final(ui).people == old(ui).people
            &&& final(ui).sched == old(ui).sched
        },
{
    let (st, act) = mount_start();
    match act {
        Action::CallGetGreetedPeople => {},
        _ => {
            return unreached();
        },
    }
    let outcome = match get_greeted_people(store, list_reachable) {
        Ok(v) => RpcOutcome::Reply(Ok(crate::gateway::Reply::People(v))),
        Err(e) => RpcOutcome::Reply(Err(e)),
    };
    let (done_state, acts) = mount_step(st, outcome);
    proof {
        assert(action_views(acts@) == list_actions(outcome@));
        assert(action_views(acts@).len() == acts@.len());
        assert(list_actions(outcome@).len() == 1);
        assert(acts@.len() == 1);
        assert(action_views(acts@)[0] == acts@[0]@);
        assert(acts@[0]@ == list_actions(outcome@)[0]);
    }
    proof {
        assert(done_state is Done);
    }
    let mut acts = acts;
    let a = match acts.pop() {
        Some(a) => a,
        None => {
            return unreached();
        },
    };
    proof {
        assert(a@ == list_actions(outcome@)[0]);
    }
    match a {
        Action::SetPeople(text) => {
            write_people(ui, text);
            None
        },
        Action::LogError(m) => Some(m),
        _ => unreached(),
    }
}

/// The diagnostic a failed record call reports: the store was unreachable
/// at call time, or it refused the insert (its row-id space is exhausted).
pub open spec fn record_failure_message(store_reachable: bool) -> Seq<char> {
    if store_reachable {
        AppError::Storage.message_view()
    } else {
        AppError::Connection.message_view()
    }
}

/// Runs one button-click routine to completion: greet the submitted name,
/// show the greeting, record the name, then refetch and show the list.
/// `add_reachable` and `list_reachable` are the verdicts on the two
/// connections the record and refetch calls open — every procedure call
/// opens its own.  Returns the diagnostics the routine reported, in order.
///
/// Whatever the verdicts, the greeting shown reflects exactly the
/// submitted name.  The record call grows the store by exactly that name
/// when it succeeds and leaves the store untouched when it fails; a
/// failure is reported as the application or transport error it was.  The
/// refetch observes the store only after the record outcome came back, so
/// on success the displayed list is exactly the store\'s names at that
/// point, joined; a failed refetch is only reported — the list signal
/// keeps its prior value rather than take an error-shaped one.
pub fn run_click_routine(
    ui: &mut Ui,
    store: &mut Store,
    name: String,
    add_reachable: bool,
    list_reachable: bool,
) -> (reports: Vec<String>)
    requires
        old(ui).wf(),
        old(store).wf(),
    ensures
        final(ui).wf(),
        final(store).wf(),
        final(ui).shout.value_spec()@ == greeting_of(name@),
        (add_reachable && old(store).can_insert()) ==> final(store).names() =~= old(
            store).names().push(name@),
        !(add_reachable && old(store).can_insert()) ==> *final(store) == *old(store),
        list_reachable ==> final(ui).people.value_spec()@ == joined(final(store).names(), ", "@),
        !list_reachable ==> final(ui).people == old(ui).people,
        final(ui).shout.subs() == old(ui).shout.subs(),
        final(ui).people.subs() == old(ui).people.subs(),
        list_reachable ==> final(ui).sched.dirty_spec().to_set() == old(
            ui).sched.dirty_spec().to_set().union(old(ui).shout.subs().to_set()).union(
            old(ui).people.subs().to_set()),
        !list_reachable ==> final(ui).sched.dirty_spec().to_set() == old(
            ui).sched.dirty_spec().to_set().union(old(ui).shout.subs().to_set()),
        reports@.len() == (if add_reachable && old(store).can_insert() {
            0int
        } else {
            1int
        }) + (if list_reachable {
            0int
        } else {
            1int
        }),
        !(add_reachable && old(store).can_insert()) ==> reports@[0]@ == record_failure_message(
            add_reachable),
        !list_reachable ==> reports@[reports@.len() - 1]@
            == AppError::Connection.message_view(),
{
    let mut reports: Vec<String> = Vec::new();
    let (st1, a1) = click_start(name);
    let submitted = match a1 {
        Action::CallSayHi(n) => n,
        _ => unreached(),
    };
    let outcome1 = RpcOutcome::Reply(dispatch(store, Request::SayHi(submitted), true));
    let (st2, acts2) = click_step(st1, outcome1);
    proof {
        assert(action_views(acts2@) == click_actions(st1@, outcome1@));
        assert(action_views(acts2@).len() == acts2@.len());
        assert(click_actions(st1@, outcome1@).len() == 2);
        assert(acts2@.len() == 2);
        assert(action_views(acts2@)[0] == acts2@[0]@);
        assert(action_views(acts2@)[1] == acts2@[1]@);
        assert(acts2@[0]@ == click_actions(st1@, outcome1@)[0]);
        assert(acts2@[1]@ == click_actions(st1@, outcome1@)[1]);
    }
    let mut acts2 = acts2;
    let a_record = match acts2.pop() {
        Some(a) => a,
        None => unreached(),
    };
    let a_greet = match acts2.pop() {
        Some(a) => a,
        None => unreached(),
    };
    proof {
        assert(a_greet@ == click_actions(st1@, outcome1@)[0]);
        assert(a_record@ == click_actions(st1@, outcome1@)[1]);
    }
    match a_greet {
        Action::SetShout(text) => {
            write_shout(ui, text);
        },
        _ => {
            return unreached();
        },
    }
    let to_record = match a_record {
        Action::CallAddGreetedPeople(n) => n,
        _ => unreached(),
    };
    let outcome2 = RpcOutcome::Reply(
        dispatch(store, Request::AddGreetedPeople(to_record), add_reachable),
    );
    let (st3, acts3) = click_step(st2, outcome2);
    proof {
        assert(action_views(acts3@) == click_actions(st2@, outcome2@));
        assert(click_actions(st2@, outcome2@) == record_actions(outcome2@));
        assert(action_views(acts3@).len() == acts3@.len());
        assert(1 <= record_actions(outcome2@).len() <= 2);
        assert(action_views(acts3@)[acts3@.len() - 1] == acts3@[acts3@.len() - 1]@);
        assert(acts3@[acts3@.len() - 1]@ == record_actions(outcome2@)[acts3@.len() - 1]);
        assert(record_actions(outcome2@)[record_actions(outcome2@).len() - 1]
            == ActionView::CallGetGreetedPeople);
        assert(acts3@.len() == 2 ==> {
            &&& action_views(acts3@)[0] == acts3@[0]@
            &&& acts3@[0]@ == record_actions(outcome2@)[0]
        });
    }
    let mut acts3 = acts3;
    let a_list = match acts3.pop() {
        Some(a) => a,
        None => unreached(),
    };
    match acts3.pop() {
        None => {},
        Some(a) => match a {
            Action::LogError(m) => {
                reports.push(m);
            },
            _ => {
                return unreached();
            },
        },
    }
    match a_list {
        Action::CallGetGreetedPeople => {},
        _ => {
            return unreached();
        },
    }
    let outcome3 = RpcOutcome::Reply(dispatch(store, Request::GetGreetedPeople, list_reachable));
    let (done_state, acts4) = click_step(st3, outcome3);
    proof {
        assert(action_views(acts4@) == click_actions(st3@, outcome3@));
        assert(click_actions(st3@, outcome3@) == list_actions(outcome3@));
        assert(action_views(acts4@).len() == acts4@.len());
        assert(list_actions(outcome3@).len() == 1);
        assert(acts4@.len() == 1);
        assert(action_views(acts4@)[0] == acts4@[0]@);
        assert(acts4@[0]@ == list_actions(outcome3@)[0]);
        assert(done_state@ is Done);
    }
    let mut acts4 = acts4;
    let a_people = match acts4.pop() {
        Some(a) => a,
        None => unreached(),
    };
    proof {
        assert(a_people@ == list_actions(outcome3@)[0]);
    }
    match a_people {
        Action::SetPeople(text) => {
            write_people(ui, text);
        },
        Action::LogError(m) => {
            reports.push(m);
        },
        _ => {
            return unreached();
        },
    }
    reports
}

} // verus!
