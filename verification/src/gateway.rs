//! The remote procedure gateway.
//!
//! Each procedure is a named, independently invocable unit with a fixed
//! input and output shape.  The client invokes it like a local asynchronous
//! function; the transport carries the serialized request and reply.  This
//! module holds the server-side handlers and the named dispatch over plain
//! values; the transport itself lives outside the crate.
//!
//! Procedures are independent: each opens its own connection, none takes a
//! lock across calls, and a handler failure surfaces as an application
//! error — distinct from a transport failure, which means the server may
//! never have run at all.

use crate::errors::AppError;
use crate::store::Connection;
use crate::store::SqlValue;
use crate::store::Store;
use crate::store::User;
use crate::store::conn;
use vstd::prelude::*;

verus! {

/// A request crossing the boundary: which procedure, with which arguments.
pub enum Request {
    SayHi(String),
    GetGreetedPeople,
    AddGreetedPeople(String),
}

/// A successful reply, one shape per procedure.
pub enum Reply {
    Hi(String),
    People(Vec<String>),
    Recorded,
}

/// The abstract value of a [`Reply`]: the same shape over character
/// sequences.
pub enum ReplyView {
    Hi(Seq<char>),
    People(Seq<Seq<char>>),
    Recorded,
}

impl View for Reply {
    type V = ReplyView;

    open spec fn view(&self) -> ReplyView {
        match self {
            Reply::Hi(s) => ReplyView::Hi(s@),
            Reply::People(v) => ReplyView::People(v.deep_view()),
            Reply::Recorded => ReplyView::Recorded,
        }
    }
}

/// The greeting the server owes for a submitted name.
pub open spec fn greeting_of(name: Seq<char>) -> Seq<char> {
    "Hello "@ + name + "!"@
}

/// The `greet` procedure: pure computation, no store access.  Returns the
/// formatted greeting for exactly the submitted name.  (The deliberate
/// latency the page uses to exercise the asynchronous path is the caller's
/// business, not part of the computation.)
pub fn say_hi(name: String) -> (r: Result<String, AppError>)
    ensures
        r matches Ok(s) && s@ == greeting_of(name@),
{
    let mut s = String::from_str("Hello ");
    s.append(name.as_str());
    s.append("!");
    proof {
        assert(s@ =~= greeting_of(name@));
    }
    Ok(s)
}

/// The `listGreeted` procedure: opens its own connection, selects every
/// recorded row and returns the names in store-return order.  `reachable`
/// is the environment's verdict on this call's connection attempt.
pub fn get_greeted_people(store: &Store, reachable: bool) -> (r: Result<Vec<String>, AppError>)
    ensures
        reachable ==> (r matches Ok(v) && v.deep_view() == store.names()),
        !reachable ==> (r matches Err(e) && e == AppError::Connection),
{
    let c: Connection = match conn(reachable) {
        Ok(c) => c,
        Err(e) => {
            return Err(e);
        },
    };
    Ok(store.select_names(&c))
}

/// The `recordGreeted` procedure: opens its own connection and inserts one
/// row with the given name through the positional write statement.  No
/// uniqueness is enforced — duplicate names accumulate.
///
/// Succeeds exactly when the store is reachable and can assign one more
/// row id; on success the table grows by exactly one row, at the end,
/// carrying the fresh store-assigned id and the given name — every prior
/// row, id included, still present and unchanged, the id counter advanced
/// by one.  On failure the store is untouched.  No row is ever updated or
/// deleted: the table is insert-only.
pub fn add_greeted_people(store: &mut Store, name: String, reachable: bool) -> (r: Result<
    (),
    AppError,
>)
    requires
        old(store).wf(),
    ensures
        final(store).wf(),
        r is Ok <==> (reachable && old(store).can_insert()),
        r is Ok ==> final(store).rows() =~= old(store).rows().push(
            User { id: old(store).next_id_spec(), name: name },
        ),
        r is Ok ==> final(store).names() =~= old(store).names().push(name@),
        r is Ok ==> final(store).next_id_spec() == old(store).next_id_spec() + 1,
        r is Err ==> *final(store) == *old(store),
        !reachable ==> (r matches Err(e) && e == AppError::Connection),
        (reachable && !old(store).can_insert()) ==> (r matches Err(e) && e == AppError::Storage),
{
    let c: Connection = match conn(reachable) {
        Ok(c) => c,
        Err(e) => {
            return Err(e);
        },
    };
    let mut params: Vec<SqlValue> = Vec::new();
    params.push(SqlValue::Text(name));
    match store.run_insert(&c, params) {
        Ok(_) => Ok(()),
        Err(e) => Err(e),
    }
}

/// Dispatches one deserialized request to its named handler and returns
/// the handler's reply or application error.  `reachable` is the verdict
/// on the connection this one invocation opens (the `greet` handler opens
/// none).  Transport failures never reach this function: they happen
/// before or after the server runs.
pub fn dispatch(store: &mut Store, req: Request, reachable: bool) -> (r: Result<Reply, AppError>)
    requires
        old(store).wf(),
    ensures
        final(store).wf(),
        match req {
            Request::SayHi(name) => {
                &&& r matches Ok(reply) && reply@ == ReplyView::Hi(greeting_of(name@))
                &&& *final(store) == *old(store)
            },
            Request::GetGreetedPeople => {
                &&& reachable ==> (r matches Ok(reply) && reply@ == ReplyView::People(
                    old(store).names(),
                ))
                &&& !reachable ==> (r matches Err(e) && e == AppError::Connection)
                &&& *final(store) == *old(store)
            },
            Request::AddGreetedPeople(name) => {
                &&& r is Ok <==> (reachable && old(store).can_insert())
                &&& r is Ok ==> (r matches Ok(reply) && reply@ == ReplyView::Recorded
                    && final(store).rows() =~= old(store).rows().push(
                    User { id: old(store).next_id_spec(), name: name },
                ) && final(store).names() =~= old(store).names().push(name@) && final(
                    store).next_id_spec() == old(store).next_id_spec() + 1)
                &&& r is Err ==> *final(store) == *old(store)
                &&& !reachable ==> (r matches Err(e) && e == AppError::Connection)
                &&& (reachable && !old(store).can_insert()) ==> (r matches Err(e) && e
                    == AppError::Storage)
            },
        },
{
    match req {
        Request::SayHi(name) => match say_hi(name) {
            Ok(s) => Ok(Reply::Hi(s)),
            Err(e) => Err(e),
        },
        Request::GetGreetedPeople => match get_greeted_people(store, reachable) {
            Ok(v) => Ok(Reply::People(v)),
            Err(e) => Err(e),
        },
        Request::AddGreetedPeople(name) => match add_greeted_people(store, name, reachable) {
            Ok(_) => Ok(Reply::Recorded),
            Err(e) => Err(e),
        },
    }
}

/// Insert-then-list consistency.  Whatever table a successful
/// `recordGreeted(name)` call leaves behind — its contract says the names
/// become the old names plus `name` at the end — a subsequent
/// `listGreeted` call, which returns exactly those names, includes `name`
/// at least once.
pub proof fn lemma_record_then_list(before: Store, after: Store, name: Seq<char>)
    requires
        after.names() == before.names().push(name),
    ensures
        after.names().contains(name),
{
    assert(after.names()[after.names().len() - 1] == name);
}

/// Call isolation.  The reply to a `greet` call is a function of that
/// call's own argument alone — `say_hi` reads and writes no shared state —
/// and two calls' replies coincide exactly when their arguments do, so a
/// reply can never reflect the other call's argument when the arguments
/// differ.
pub proof fn lemma_call_isolation(a: Seq<char>, b: Seq<char>)
    ensures
        greeting_of(a) == greeting_of(b) <==> a == b,
{
    reveal_strlit("Hello ");
    reveal_strlit("!");
    if greeting_of(a) == greeting_of(b) {
        assert(greeting_of(a).len() == 7 + a.len());
        assert(greeting_of(b).len() == 7 + b.len());
        assert(a.len() == b.len());
        assert forall|i: int| 0 <= i < a.len() implies a[i] == b[i] by {
            assert(greeting_of(a)[6 + i] == a[i]);
            assert(greeting_of(b)[6 + i] == b[i]);
        }
        assert(a =~= b);
    }
}

} // verus!
