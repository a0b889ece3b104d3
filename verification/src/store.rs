//! The store access layer.
//!
//! The persistent store holds one table of greeted people.  Every procedure
//! invocation opens its own connection — nothing is cached across calls —
//! and talks to the table through two statement shapes: a parameterized
//! read returning the rows, and a parameterized write inserting one row.
//! Binds are positional and reject on a shape or type mismatch.

use crate::errors::AppError;
use vstd::prelude::*;

verus! {

/// One recorded greeting: a store-assigned row id and the greeted name.
/// Rows are only ever inserted; never updated or deleted.
pub struct User {
    pub id: u16,
    pub name: String,
}

/// A positional statement parameter.
pub enum SqlValue {
    Integer(i64),
    Text(String),
}

/// A live connection to the store, one per procedure invocation.  Holding a
/// value of this type is the proof that the connection was opened.
pub struct Connection {
    opened: bool,
}

/// Opens a fresh connection to the store.  `reachable` is the environment's
/// verdict for this one attempt: whether the store can be reached right now.
///
/// Returns `Ok` exactly when the store is reachable, and the connection
/// error otherwise.
pub fn conn(reachable: bool) -> (r: Result<Connection, AppError>)
    ensures
        reachable <==> r is Ok,
        !reachable ==> (r matches Err(e) && e == AppError::Connection),
{
    if reachable {
        Ok(Connection { opened: true })
    } else {
        Err(AppError::Connection)
    }
}

/// The table of greeted people, with the store's row-id counter.
pub struct Store {
    users: Vec<User>,
    next_id: u16,
}

/// The names of `rows`, in row order.
pub open spec fn names_of(rows: Seq<User>) -> Seq<Seq<char>> {
    rows.map_values(|u: User| u.name@)
}

impl Store {
    /// The rows of the table, in store-return order.
    pub closed spec fn rows(self) -> Seq<User> {
        self.users@
    }

    /// The names on record, in store-return order: what `listGreeted`
    /// observes.
    pub open spec fn names(self) -> Seq<Seq<char>> {
        names_of(self.rows())
    }

    /// The id the store will assign to the next inserted row.
    pub closed spec fn next_id_spec(self) -> u16 {
        self.next_id
    }

    /// Well-formedness: row ids are strictly increasing in row order (the
    /// store assigns them monotonically), and all are below the counter.
    pub open spec fn wf(self) -> bool {
        &&& forall|i: int, j: int|
            0 <= i < j < self.rows().len() ==> self.rows()[i].id < self.rows()[j].id
        &&& forall|i: int| 0 <= i < self.rows().len() ==> self.rows()[i].id < self.next_id_spec()
    }

    /// True while the store can assign one more row id.
    pub open spec fn can_insert(self) -> bool {
        self.next_id_spec() < u16::MAX
    }

    /// An empty table, as schema bootstrap leaves it.
    pub fn new() -> (s: Store)
        ensures
            s.wf(),
            s.names() == Seq::<Seq<char>>::empty(),
            s.rows().len() == 0,
            s.can_insert(),
    {
        let s = Store { users: Vec::new(), next_id: 0 };
        proof {
            assert(s.names() =~= Seq::<Seq<char>>::empty());
        }
        s
    }

    /// The parameterized read: selects every row and maps it to its name.
    ///
    /// Requires a live connection; returns the names in store-return order.
    pub fn select_names(&self, c: &Connection) -> (r: Vec<String>)
        ensures
            r.deep_view() == self.names(),
    {
        let mut out: Vec<String> = Vec::new();
        let mut i: usize = 0;
        while i < self.users.len()
            invariant
                i <= self.users.len(),
                out@.len() == i,
                forall|k: int| 0 <= k < i ==> out@[k]@ == self.names()[k],
            decreases self.users.len() - i,
        {
            out.push(self.users[i].name.clone());
            i = i + 1;
        }
        proof {
            assert(out.deep_view() =~= self.names());
        }
        out
    }

    /// The parameterized write: inserts one row whose name is the single
    /// positional text parameter.
    ///
    /// Rejects with `Bind` unless `params` is exactly one `Text` value;
    /// rejects with `Storage` when the row-id space is exhausted.  On
    /// success the new row carries the old counter as its id and the table
    /// grows by exactly that row at the end.
    pub fn run_insert(&mut self, c: &Connection, params: Vec<SqlValue>) -> (r: Result<
        u16,
        AppError,
    >)
        requires
            old(self).wf(),
        ensures
            final(self).wf(),
            match r {
                Ok(id) => {
                    &&& old(self).can_insert()
                    &&& params@.len() == 1
                    &&& params@[0] matches SqlValue::Text(name) && final(self).rows()
                        =~= old(self).rows().push(User { id, name: name }) && final(self).names()
                        =~= old(self).names().push(name@)
                    &&& id == old(self).next_id_spec()
                    &&& final(self).next_id_spec() == old(self).next_id_spec() + 1
                },
                Err(e) => {
                    &&& *final(self) == *old(self)
                    &&& (e == AppError::Bind <==> !(params@.len() == 1 && (params@[0] matches
                        SqlValue::Text(_))))
                    &&& (e == AppError::Storage <==> (params@.len() == 1 && (params@[0] matches
                        SqlValue::Text(_)) && !old(self).can_insert()))
                    &&& (e == AppError::Bind || e == AppError::Storage)
                },
            },
            r is Ok <==> (old(self).can_insert() && params@.len() == 1 && (params@[0] matches
                SqlValue::Text(_))),
    {
        if params.len() != 1 {
            return Err(AppError::Bind);
        }
        let mut params = params;
        let p = params.pop().unwrap();
        match p {
            SqlValue::Text(name) => {
                if self.next_id == u16::MAX {
                    return Err(AppError::Storage);
                }
                let id = self.next_id;
                let ghost old_names = self.names();
                self.users.push(User { id, name });
                self.next_id = self.next_id + 1;
                proof {
                    assert(self.names() =~= old_names.push(self.users@.last().name@));
                }
                Ok(id)
            },
            SqlValue::Integer(_) => Err(AppError::Bind),
        }
    }
}

} // verus!
