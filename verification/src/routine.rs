//! The client-side asynchronous routines.
//!
//! An effect may launch a detached asynchronous routine that performs
//! procedure calls and writes the results into signals.  A routine suspends
//! at each awaited call and resumes when the outcome arrives; between its
//! suspension points nothing else runs on the UI thread.  Each routine is
//! modelled as an explicit state machine: a step consumes the outcome of
//! the call the routine was awaiting and yields the next state together
//! with the actions to perform — signal writes, diagnostics, and at most
//! the next call to issue.  Within one routine the calls are therefore
//! strictly sequential: the record call is issued only by the step that
//! consumed the greeting reply, and the refetch only by the step that
//! consumed the record reply.  Across routines nothing is ordered.
//!
//! Once launched, a routine runs to completion or failure; there is no
//! cancellation.  A failed call never crashes the routine: the failure is
//! reported — an application error distinctly from a transport one — and
//! the list signal keeps its prior value rather than take a partial or
//! error-shaped one.

use crate::errors::AppError;
use crate::errors::CallError;
use crate::gateway::Reply;
use crate::gateway::ReplyView;
use vstd::prelude::*;

verus! {

/// How one awaited procedure call came back: the server's reply or
/// application error, or a transport failure — in which case the server
/// may never have run at all.
pub enum RpcOutcome {
    Reply(Result<Reply, AppError>),
    TransportFailed,
}

/// The abstract value of an [`RpcOutcome`].
pub enum OutcomeView {
    Reply(Result<ReplyView, AppError>),
    TransportFailed,
}

impl View for RpcOutcome {
    type V = OutcomeView;

    open spec fn view(&self) -> OutcomeView {
        match self {
            RpcOutcome::Reply(Ok(reply)) => OutcomeView::Reply(Ok(reply@)),
            RpcOutcome::Reply(Err(e)) => OutcomeView::Reply(Err(*e)),
            RpcOutcome::TransportFailed => OutcomeView::TransportFailed,
        }
    }
}

/// How the calling routine must report a failed outcome.  Application
/// errors (the server executed and reported failure) and transport
/// failures (the call never completed) are distinct cases: a caller
/// branches on them explicitly, never treats one as the other.
pub fn classify_outcome(outcome: &RpcOutcome) -> (r: Option<CallError>)
    ensures
        match outcome {
            RpcOutcome::Reply(Ok(_)) => r is None,
            RpcOutcome::Reply(Err(e)) => r == Some(CallError::Application(*e)),
            RpcOutcome::TransportFailed => r == Some(CallError::Transport),
        },
{
    match outcome {
        RpcOutcome::Reply(Ok(_)) => None,
        RpcOutcome::Reply(Err(e)) => Some(CallError::Application(*e)),
        RpcOutcome::TransportFailed => Some(CallError::Transport),
    }
}

/// One thing a routine step asks the scheduler to do, in order.
pub enum Action {
    /// Issue the `greet` call with this name.
    CallSayHi(String),
    /// Issue the `recordGreeted` call with this name.
    CallAddGreetedPeople(String),
    /// Issue the `listGreeted` call.
    CallGetGreetedPeople,
    /// Write the greeting signal.
    SetShout(String),
    /// Write the greeted-list signal.
    SetPeople(String),
    /// Report a failure on the console; no signal changes.
    LogError(String),
}

/// The abstract value of an [`Action`].
pub enum ActionView {
    CallSayHi(Seq<char>),
    CallAddGreetedPeople(Seq<char>),
    CallGetGreetedPeople,
    SetShout(Seq<char>),
    SetPeople(Seq<char>),
    LogError(Seq<char>),
}

impl View for Action {
    type V = ActionView;

    open spec fn view(&self) -> ActionView {
        match self {
            Action::CallSayHi(s) => ActionView::CallSayHi(s@),
            Action::CallAddGreetedPeople(s) => ActionView::CallAddGreetedPeople(s@),
            Action::CallGetGreetedPeople => ActionView::CallGetGreetedPeople,
            Action::SetShout(s) => ActionView::SetShout(s@),
            Action::SetPeople(s) => ActionView::SetPeople(s@),
            Action::LogError(s) => ActionView::LogError(s@),
        }
    }
}

/// The abstract values of a list of actions, in order.
pub open spec fn action_views(actions: Seq<Action>) -> Seq<ActionView> {
    actions.map_values(|a: Action| a@)
}

/// The names joined for display, separated by `sep`.
pub open spec fn joined(names: Seq<Seq<char>>, sep: Seq<char>) -> Seq<char>
    decreases names.len(),
{
    if names.len() == 0 {
        Seq::empty()
    } else if names.len() == 1 {
        names[0]
    } else {
        joined(names.drop_last(), sep) + sep + names.last()
    }
}

/// Joins the fetched names into the one display string, `sep` between
/// neighbours.
pub fn join_names(names: &Vec<String>, sep: &str) -> (r: String)
    ensures
        r@ == joined(names.deep_view(), sep@),
{
    let mut r = String::new();
    let mut i: usize = 0;
    while i < names.len()
        invariant
            i <= names@.len(),
            r@ =~= joined(names.deep_view().take(i as int), sep@),
        decreases names@.len() - i,
    {
        if i > 0 {
            r.append(sep);
        }
        r.append(names[i].as_str());
        proof {
            let dv = names.deep_view();
            assert(dv.take(i as int + 1).drop_last() =~= dv.take(i as int));
            assert(dv.take(i as int + 1).last() == names@[i as int]@);
        }
        i = i + 1;
    }
    proof {
        assert(names.deep_view().take(names@.len() as int) =~= names.deep_view());
    }
    r
}

/// The text a routine shows for a greeting call that came back as `o`.
pub open spec fn hi_text_of(o: OutcomeView) -> Seq<char> {
    match o {
        OutcomeView::Reply(Ok(ReplyView::Hi(s))) => s,
        OutcomeView::Reply(Ok(_)) => "unexpected reply shape"@,
        OutcomeView::Reply(Err(e)) => e.message_view(),
        OutcomeView::TransportFailed => CallError::Transport.message_view(),
    }
}

/// Renders the text for a greeting outcome.
fn hi_text(o: RpcOutcome) -> (r: String)
    ensures
        r@ == hi_text_of(o@),
{
    match o {
        RpcOutcome::Reply(Ok(Reply::Hi(s))) => s,
        RpcOutcome::Reply(Ok(_)) => String::from_str("unexpected reply shape"),
        RpcOutcome::Reply(Err(e)) => e.message(),
        RpcOutcome::TransportFailed => String::from_str("transport failure"),
    }
}

/// The mount-time routine: fetch the greeted list once and display it.
/// It runs when the component mounts and awaits exactly one call.
pub enum MountRoutine {
    /// Awaiting the reply to the `listGreeted` call issued at launch.
    AwaitList,
    /// Finished.
    Done,
}

/// The actions that consume a `listGreeted` outcome: display the fetched
/// names, joined — or, on any failure, only report it, so that the list
/// signal keeps its prior value.  Both routines that fetch the list end
/// with this step.
pub open spec fn list_actions(o: OutcomeView) -> Seq<ActionView> {
    match o {
        OutcomeView::Reply(Ok(ReplyView::People(names))) => seq![
            ActionView::SetPeople(joined(names, ", "@)),
        ],
        OutcomeView::Reply(Ok(_)) => seq![ActionView::LogError("unexpected reply shape"@)],
        OutcomeView::Reply(Err(e)) => seq![ActionView::LogError(e.message_view())],
        OutcomeView::TransportFailed => seq![
            ActionView::LogError(CallError::Transport.message_view()),
        ],
    }
}

/// The actions that consume a `recordGreeted` outcome: report a failure —
/// the client observes it as the application or transport error it was —
/// and only then, success or failure, issue the one refetch.
pub open spec fn record_actions(o: OutcomeView) -> Seq<ActionView> {
    match o {
        OutcomeView::Reply(Ok(_)) => seq![ActionView::CallGetGreetedPeople],
        OutcomeView::Reply(Err(e)) => seq![
            ActionView::LogError(e.message_view()),
            ActionView::CallGetGreetedPeople,
        ],
        OutcomeView::TransportFailed => seq![
            ActionView::LogError(CallError::Transport.message_view()),
            ActionView::CallGetGreetedPeople,
        ],
    }
}

/// Performs the list step: turns a `listGreeted` outcome into its actions.
fn list_step_actions(o: RpcOutcome) -> (acts: Vec<Action>)
    ensures
        action_views(acts@) == list_actions(o@),
{
    let mut acts: Vec<Action> = Vec::new();
    match o {
        RpcOutcome::Reply(Ok(Reply::People(v))) => {
            acts.push(Action::SetPeople(join_names(&v, ", ")));
        },
        RpcOutcome::Reply(Ok(_)) => {
            acts.push(Action::LogError(String::from_str("unexpected reply shape")));
        },
        RpcOutcome::Reply(Err(e)) => {
            acts.push(Action::LogError(e.message()));
        },
        RpcOutcome::TransportFailed => {
            acts.push(Action::LogError(String::from_str("transport failure")));
        },
    }
    proof {
        assert(action_views(acts@) =~= list_actions(o@));
    }
    acts
}

/// Launches the mount routine: it issues the `listGreeted` call and
/// suspends awaiting it.
pub fn mount_start() -> (r: (MountRoutine, Action))
    ensures
        r.0 is AwaitList,
        r.1@ == ActionView::CallGetGreetedPeople,
{
    (MountRoutine::AwaitList, Action::CallGetGreetedPeople)
}

/// Resumes the mount routine with the outcome of the call it awaited.
/// On success the fetched names, joined, are written to the greeted-list
/// signal; on any failure the routine only reports it — the signals keep
/// their prior state.
pub fn mount_step(s: MountRoutine, o: RpcOutcome) -> (r: (MountRoutine, Vec<Action>))
    ensures
        s is AwaitList ==> {
            &&& r.0 is Done
            &&& action_views(r.1@) == list_actions(o@)
        },
        s is Done ==> (r.0 is Done && r.1@.len() == 0),
{
    match s {
        MountRoutine::AwaitList => (MountRoutine::Done, list_step_actions(o)),
        MountRoutine::Done => (MountRoutine::Done, Vec::new()),
    }
}

/// The button-click routine: greet the submitted name, display the
/// greeting, record the name, then refetch and display the list.
pub enum ClickRoutine {
    /// Awaiting the greeting reply; the submitted name rides along for the
    /// record call to come.
    AwaitHi { name: String },
    /// Awaiting the record reply.
    AwaitRecord,
    /// Awaiting the refetched list.
    AwaitList,
    /// Finished.
    Done,
}

/// The abstract value of a [`ClickRoutine`] state.
pub enum ClickView {
    AwaitHi(Seq<char>),
    AwaitRecord,
    AwaitList,
    Done,
}

impl View for ClickRoutine {
    type V = ClickView;

    open spec fn view(&self) -> ClickView {
        match self {
            ClickRoutine::AwaitHi { name } => ClickView::AwaitHi(name@),
            ClickRoutine::AwaitRecord => ClickView::AwaitRecord,
            ClickRoutine::AwaitList => ClickView::AwaitList,
            ClickRoutine::Done => ClickView::Done,
        }
    }
}

/// The next state of the click routine after an outcome in state `s`: the
/// routine advances one await at a time and never goes back.
pub open spec fn click_next(s: ClickView) -> ClickView {
    match s {
        ClickView::AwaitHi(_) => ClickView::AwaitRecord,
        ClickView::AwaitRecord => ClickView::AwaitList,
        ClickView::AwaitList => ClickView::Done,
        ClickView::Done => ClickView::Done,
    }
}

/// The actions of one click-routine step.  Consuming the greeting outcome
/// writes the greeting signal — the button shows the call's result, error
/// text included — and only then issues the record call; the record
/// outcome is consumed, a failure reported, before the one refetch is
/// issued; the refetched list, and only a fetched one, is what the list
/// signal shows — a failed refetch is reported and the prior display
/// stands.
pub open spec fn click_actions(s: ClickView, o: OutcomeView) -> Seq<ActionView> {
    match s {
        ClickView::AwaitHi(name) => seq![
            ActionView::SetShout(hi_text_of(o)),
            ActionView::CallAddGreetedPeople(name),
        ],
        ClickView::AwaitRecord => record_actions(o),
        ClickView::AwaitList => list_actions(o),
        ClickView::Done => Seq::empty(),
    }
}

/// Launches the click routine for a submitted name: it issues the `greet`
/// call and suspends awaiting it.
pub fn click_start(name: String) -> (r: (ClickRoutine, Action))
    ensures
        r.0@ == ClickView::AwaitHi(name@),
        r.1@ == ActionView::CallSayHi(name@),
{
    let for_record = clone_string(&name);
    (ClickRoutine::AwaitHi { name: for_record }, Action::CallSayHi(name))
}

/// Resumes the click routine with the outcome of the call it awaited.
pub fn click_step(s: ClickRoutine, o: RpcOutcome) -> (r: (ClickRoutine, Vec<Action>))
    ensures
        r.0@ == click_next(s@),
        action_views(r.1@) == click_actions(s@, o@),
{
    match s {
        ClickRoutine::AwaitHi { name } => {
            let mut acts: Vec<Action> = Vec::new();
            acts.push(Action::SetShout(hi_text(o)));
            acts.push(Action::CallAddGreetedPeople(name));
            proof {
                assert(action_views(acts@) =~= click_actions(s@, o@));
            }
            (ClickRoutine::AwaitRecord, acts)
        },
        ClickRoutine::AwaitRecord => {
            let mut acts: Vec<Action> = Vec::new();
            match o {
                RpcOutcome::Reply(Ok(_)) => {},
                RpcOutcome::Reply(Err(e)) => {
                    acts.push(Action::LogError(e.message()));
                },
                RpcOutcome::TransportFailed => {
                    acts.push(Action::LogError(String::from_str("transport failure")));
                },
            }
            acts.push(Action::CallGetGreetedPeople);
            proof {
                assert(action_views(acts@) =~= click_actions(s@, o@));
            }
            (ClickRoutine::AwaitList, acts)
        },
        ClickRoutine::AwaitList => {
            let acts = list_step_actions(o);
            proof {
                assert(action_views(acts@) =~= click_actions(s@, o@));
            }
            (ClickRoutine::Done, acts)
        },
        ClickRoutine::Done => {
            let acts: Vec<Action> = Vec::new();
            proof {
                assert(action_views(acts@) =~= click_actions(s@, o@));
            }
            (ClickRoutine::Done, acts)
        },
    }
}

/// Clones a string; the copy reads the same.
pub(crate) fn clone_string(s: &String) -> (r: String)
    ensures
        r@ == s@,
{
    s.clone()
}

/// Sequential-within-routine ordering, stated over every state and
/// outcome.  The click routine issues the record call only from the step
/// that consumed the greeting outcome, and issues the refetch only from
/// the step that consumed the record outcome: a later call is never issued
/// until the earlier call's outcome was observed.
pub proof fn lemma_sequential_within_routine(s: ClickView, o: OutcomeView)
    ensures
        forall|i: int|
            0 <= i < click_actions(s, o).len() && (#[trigger] click_actions(s, o)[i] matches
                ActionView::CallAddGreetedPeople(_)) ==> s is AwaitHi,
        forall|i: int|
            0 <= i < click_actions(s, o).len() && (#[trigger] click_actions(s, o)[i] matches
                ActionView::CallGetGreetedPeople) ==> s is AwaitRecord,
{
}

} // verus!
