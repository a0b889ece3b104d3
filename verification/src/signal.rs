//! The reactive state store.
//!
//! A signal is a named mutable cell holding a value plus the set of
//! subscriber scopes currently depending on it.  Reading a signal inside a
//! tracked scope subscribes that scope; writing replaces the value and
//! schedules every current subscriber for re-evaluation.  Scheduling goes
//! through a per-tick dirty queue that deduplicates: however many writes
//! happen within one tick, a subscribed scope re-runs exactly once before
//! the next idle point, so a write that changes nothing can never feed an
//! endless re-run loop.
//!
//! No hidden global registry: the current tracking scope is passed
//! explicitly, and no two signals share subscriber state.

use vstd::prelude::*;
use vstd::seq_lib::group_seq_properties;

verus! {

/// A reactive cell: the current value and the scopes subscribed to it.
pub struct Signal<T> {
    value: T,
    subscribers: Vec<u64>,
}

impl<T> Signal<T> {
    /// The value the cell currently holds.
    pub closed spec fn value_spec(self) -> T {
        self.value
    }

    /// The subscribed scopes, in subscription order.
    pub closed spec fn subs(self) -> Seq<u64> {
        self.subscribers@
    }

    /// Well-formedness: no scope is subscribed twice.
    pub open spec fn wf(self) -> bool {
        self.subs().no_duplicates()
    }

    /// Creates the cell at component mount, holding `initial` and with no
    /// subscriber yet.
    pub fn new(initial: T) -> (s: Self)
        ensures
            s.wf(),
            s.value_spec() == initial,
            s.subs() == Seq::<u64>::empty(),
    {
        let s = Signal { value: initial, subscribers: Vec::new() };
        proof {
            assert(s.subs() =~= Seq::<u64>::empty());
        }
        s
    }

    /// An untracked read: returns the current value with no subscription
    /// side effect.
    pub fn get(&self) -> (v: &T)
        ensures
            *v == self.value_spec(),
    {
        &self.value
    }

    /// A tracked read's side effect: registers `scope` as a subscriber.
    /// Subscribing an already subscribed scope changes nothing — a scope
    /// re-runs at most once per write however often it read the cell.
    pub fn subscribe(&mut self, scope: u64)
        requires
            old(self).wf(),
        ensures
            final(self).wf(),
            final(self).value_spec() == old(self).value_spec(),
            old(self).subs().contains(scope) ==> final(self).subs() == old(self).subs(),
            !old(self).subs().contains(scope) ==> final(self).subs() == old(self).subs().push(
                scope,
            ),
            final(self).subs().to_set() == old(self).subs().to_set().insert(scope),
    {
        broadcast use group_seq_properties;
        broadcast use vstd::seq::Seq::lemma_push_to_set_commute;

        if !contains_scope(&self.subscribers, scope) {
            self.subscribers.push(scope);
        } else {
            proof {
                assert(self.subscribers@.to_set() =~= old(self).subs().to_set().insert(scope));
            }
        }
    }

    /// Drops every subscription `scope` holds on this cell.  An effect's
    /// dependencies are dynamic: before each re-run the scope is
    /// unsubscribed everywhere and re-subscribes through the reads the run
    /// actually performs.
    pub fn unsubscribe(&mut self, scope: u64)
        requires
            old(self).wf(),
        ensures
            final(self).wf(),
            final(self).value_spec() == old(self).value_spec(),
            final(self).subs().to_set() == old(self).subs().to_set().remove(scope),
            !final(self).subs().contains(scope),
    {
        let mut kept: Vec<u64> = Vec::new();
        let mut i: usize = 0;
        while i < self.subscribers.len()
            invariant
                i <= self.subscribers@.len(),
                self.subscribers@.no_duplicates(),
                kept@.no_duplicates(),
                forall|x: u64|
                    kept@.contains(x) <==> (self.subscribers@.take(i as int).contains(x) && x
                        != scope),
            decreases self.subscribers@.len() - i,
        {
            let ghost prev = kept@;
            let ghost t0 = self.subscribers@.take(i as int);
            let x = self.subscribers[i];
            proof {
                assert(t0.push(x) =~= self.subscribers@.take(i as int + 1));
                assert(!t0.contains(x)) by {
                    if t0.contains(x) {
                        let k = choose|k: int| 0 <= k < t0.len() && t0[k] == x;
                        assert(self.subscribers@[k] == self.subscribers@[i as int]);
                    }
                }
            }
            if x != scope {
                kept.push(x);
                proof {
                    assert(!prev.contains(x));
                    assert forall|k: int, l: int|
                        0 <= k < l < kept@.len() implies kept@[k] != kept@[l] by {
                        if l == kept@.len() - 1 {
                            assert(prev.contains(prev[k]));
                        }
                    }
                    assert forall|y: u64|
                        kept@.contains(y) <==> (t0.push(x).contains(y) && y != scope) by {
                        vstd::seq_lib::lemma_seq_contains_after_push(prev, x, y);
                        vstd::seq_lib::lemma_seq_contains_after_push(t0, x, y);
                    }
                }
            } else {
                proof {
                    assert forall|y: u64|
                        kept@.contains(y) <==> (t0.push(x).contains(y) && y != scope) by {
                        vstd::seq_lib::lemma_seq_contains_after_push(t0, x, y);
                    }
                }
            }
            i = i + 1;
        }
        proof {
            assert(self.subscribers@.take(self.subscribers@.len() as int) =~= self.subscribers@);
            assert(kept@.to_set() =~= self.subscribers@.to_set().remove(scope));
        }
        self.subscribers = kept;
    }

    /// The setter: replaces the value (last write wins) and leaves the
    /// subscriber set as it is.  The caller hands the subscriber list to
    /// the tick's dirty queue, which deduplicates the re-runs.
    pub fn set(&mut self, v: T)
        requires
            old(self).wf(),
        ensures
            final(self).wf(),
            final(self).value_spec() == v,
            final(self).subs() == old(self).subs(),
    {
        self.value = v;
    }

    /// The scopes to schedule after a write.
    pub fn subscribers(&self) -> (r: &Vec<u64>)
        ensures
            r@ == self.subs(),
    {
        &self.subscribers
    }
}

/// True exactly when `v` holds `x`.
fn contains_scope(v: &Vec<u64>, x: u64) -> (r: bool)
    ensures
        r == v@.contains(x),
{
    let mut i: usize = 0;
    while i < v.len()
        invariant
            i <= v@.len(),
            forall|k: int| 0 <= k < i ==> v@[k] != x,
        decreases v@.len() - i,
    {
        if v[i] == x {
            return true;
        }
        i = i + 1;
    }
    false
}

/// The per-tick dirty queue: the scopes scheduled to re-run before the
/// next idle point, each at most once.
pub struct Scheduler {
    dirty: Vec<u64>,
}

impl Scheduler {
    /// The scopes scheduled so far this tick, in scheduling order.
    pub closed spec fn dirty_spec(self) -> Seq<u64> {
        self.dirty@
    }

    /// Well-formedness: no scope is scheduled twice within a tick.
    pub open spec fn wf(self) -> bool {
        self.dirty_spec().no_duplicates()
    }

    /// An idle scheduler: nothing is scheduled.
    pub fn new() -> (s: Scheduler)
        ensures
            s.wf(),
            s.dirty_spec() == Seq::<u64>::empty(),
    {
        let s = Scheduler { dirty: Vec::new() };
        proof {
            assert(s.dirty_spec() =~= Seq::<u64>::empty());
        }
        s
    }

    /// Schedules one scope, deduplicated: scheduling a scope already due
    /// this tick changes nothing.
    pub fn mark_dirty(&mut self, scope: u64)
        requires
            old(self).wf(),
        ensures
            final(self).wf(),
            final(self).dirty_spec().to_set() == old(self).dirty_spec().to_set().insert(scope),
    {
        broadcast use group_seq_properties;
        broadcast use vstd::seq::Seq::lemma_push_to_set_commute;

        if !contains_scope(&self.dirty, scope) {
            self.dirty.push(scope);
        } else {
            proof {
                assert(self.dirty_spec().to_set() =~= old(self).dirty_spec().to_set().insert(
                    scope,
                ));
            }
        }
    }

    /// One write's notification: schedules every subscriber of the written
    /// signal, deduplicated against whatever this tick already scheduled.
    pub fn notify(&mut self, subs: &Vec<u64>)
        requires
            old(self).wf(),
        ensures
            final(self).wf(),
            final(self).dirty_spec().to_set() == old(self).dirty_spec().to_set().union(
                subs@.to_set(),
            ),
    {
        broadcast use vstd::seq::Seq::lemma_push_to_set_commute;

        proof {
            assert(old(self).dirty_spec().to_set().union(subs@.take(0).to_set()) =~= old(
                self).dirty_spec().to_set());
        }
        let mut i: usize = 0;
        while i < subs.len()
            invariant
                i <= subs@.len(),
                self.wf(),
                self.dirty_spec().to_set() == old(self).dirty_spec().to_set().union(
                    subs@.take(i as int).to_set(),
                ),
            decreases subs@.len() - i,
        {
            let ghost t0 = subs@.take(i as int);
            let ghost base = old(self).dirty_spec().to_set();
            let s = subs[i];
            self.mark_dirty(s);
            proof {
                assert(t0.push(s) =~= subs@.take(i as int + 1));
                t0.lemma_push_to_set_commute(s);
                assert(t0.push(s).to_set() =~= t0.to_set().insert(s));
                assert(subs@.take(i as int + 1).to_set() == t0.to_set().insert(s));
                assert(base.union(t0.to_set()).insert(s) =~= base.union(t0.to_set().insert(s)));
            }
            i = i + 1;
        }
        proof {
            assert(subs@.take(subs@.len() as int) =~= subs@);
        }
    }

    /// Drains the tick: hands back every scope due to re-run, in order and
    /// each exactly once, and leaves the queue idle for the next tick.
    pub fn take_dirty(&mut self) -> (r: Vec<u64>)
        requires
            old(self).wf(),
        ensures
            final(self).wf(),
            r@ == old(self).dirty_spec(),
            r@.no_duplicates(),
            final(self).dirty_spec() == Seq::<u64>::empty(),
    {
        let r = self.dirty.split_off(0);
        proof {
            assert(r@ =~= old(self).dirty_spec());
            assert(self.dirty_spec() =~= Seq::<u64>::empty());
        }
        r
    }
}

/// Signal notification, first half.  After a write to a signal is
/// notified, every scope that read the signal — every subscriber — stands
/// in the tick's dirty queue exactly once: it re-runs exactly once before
/// the next idle point.
pub proof fn lemma_subscriber_reruns_exactly_once(dirty: Seq<u64>, scope: u64)
    requires
        dirty.no_duplicates(),
        dirty.contains(scope),
    ensures
        dirty.to_multiset().count(scope) == 1,
{
    broadcast use vstd::seq_lib::to_multiset_contains;

    dirty.lemma_multiset_has_no_duplicates();
}

/// Signal notification, second half.  Notifying the same subscribers again
/// within one tick — a second write to the signal, changed value or not —
/// schedules nothing new: the set of scopes due to re-run is unchanged,
/// and each subscriber is still due exactly once.  A value-preserving
/// write therefore cannot feed an endless re-run loop.
pub proof fn lemma_repeated_write_schedules_nothing_new(
    once: Seq<u64>,
    twice: Seq<u64>,
    subs: Seq<u64>,
)
    requires
        once.no_duplicates(),
        twice.no_duplicates(),
        subs.to_set().subset_of(once.to_set()),
        twice.to_set() == once.to_set().union(subs.to_set()),
    ensures
        twice.to_set() == once.to_set(),
        forall|x: u64| subs.contains(x) ==> twice.to_multiset().count(x) == 1,
{
    broadcast use vstd::seq_lib::to_multiset_contains;

    assert(twice.to_set() =~= once.to_set());
    assert forall|x: u64| subs.contains(x) implies twice.to_multiset().count(x) == 1 by {
        assert(subs.to_set().contains(x));
        assert(twice.to_set().contains(x));
        twice.lemma_multiset_has_no_duplicates();
    }
}

} // verus!

