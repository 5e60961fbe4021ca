//! The event handler: a callback table keyed by (window handle, item index),
//! and the notification queue through which a window procedure defers
//! registry changes to the owning pump.
//!
//! The table's callbacks take no arguments and report their own failure; the
//! trampoline that the operating system calls resolves this handler through
//! thread-scoped storage, dispatches into the table, and enqueues handles
//! whose windows were destroyed. The pump drains the whole queue on each
//! iteration, so membership of the window registry changes only there.

use vstd::prelude::*;

use crate::error::Error;
use crate::table::Table;
use crate::window::Window;

verus! {

/// The key of the callback table: a window handle and an item index within
/// that window.
#[derive(Debug, Clone, Copy, PartialEq, Eq, Structural)]
pub struct EventKey {
    pub hwnd: u64,
    pub index: u32,
}

impl crate::table::TableKey for EventKey {
    fn key_eq(&self, other: &Self) -> (r: bool)
        ensures
            r == (*self == *other),
    {
        *self == *other
    }
}

/// The registry and the result after registering `w` at `k`: an occupied key
/// is reported and left alone, a free one is filled.
pub open spec fn insert_outcome<C>(
    m: Map<EventKey, Window<C>>,
    k: EventKey,
    w: Window<C>,
) -> (Map<EventKey, Window<C>>, Result<(), Error>) {
    if m.contains_key(k) {
        (m, Err(Error::WindowFound((k.hwnd, k.index))))
    } else {
        (m.insert(k, w), Ok(()))
    }
}

/// The registry and the result after removing the entry at `k`: an absent
/// key is reported, a present one leaves.
pub open spec fn remove_outcome<C>(m: Map<EventKey, Window<C>>, k: EventKey) -> (
    Map<EventKey, Window<C>>,
    Result<(), Error>,
) {
    if m.contains_key(k) {
        (m.remove(k), Ok(()))
    } else {
        (m, Err(Error::NoWindowFound((k.hwnd, k.index))))
    }
}

/// Whether dispatch at `k` misses: no entry occupies the key.
pub open spec fn dispatch_misses<C>(m: Map<EventKey, Window<C>>, k: EventKey) -> bool {
    !m.contains_key(k)
}

/// The callback table and the notification queue of one message-pump thread.
pub struct Handler<C> {
    pub events: Table<EventKey, Window<C>>,
    pub pending: Vec<u64>,
}

impl<C: Fn() -> Result<(), Error>> Handler<C> {
    /// The handler's invariant: the table is one entry per key, and every
    /// registered callback may be called.
    pub open spec fn wf(&self) -> bool {
        &&& self.events.wf()
        &&& forall|k: EventKey|
            #[trigger] self.events@.contains_key(k) ==> (self.events@[k].callback matches Some(f)
                ==> call_requires(f, ()))
    }

    pub fn new() -> (r: Handler<C>)
        ensures
            r.wf(),
            r.events@ == Map::<EventKey, Window<C>>::empty(),
            r.pending@ == Seq::<u64>::empty(),
    {
        Handler { events: Table::new(), pending: Vec::new() }
    }

    /// Registers `window` under `(hwnd, index)`. An occupied key is an
    /// error, surfaced rather than silently overwritten.
    pub fn insert(&mut self, hwnd: u64, index: u32, window: Window<C>) -> (r: Result<(), Error>)
        requires
            old(self).wf(),
            window.callback matches Some(f) ==> call_requires(f, ()),
        ensures
            final(self).wf(),
            final(self).pending == old(self).pending,
            (final(self).events@, r) == insert_outcome(
                old(self).events@,
                (EventKey { hwnd, index }),
                window,
            ),
    {
        let key = EventKey { hwnd, index };
        if self.events.insert(key, window) {
            Ok(())
        } else {
            Err(Error::WindowFound((hwnd, index)))
        }
    }

    /// Removes the entry under `(hwnd, index)`. An absent key is an error.
    pub fn remove(&mut self, hwnd: u64, index: u32) -> (r: Result<(), Error>)
        requires
            old(self).wf(),
        ensures
            final(self).wf(),
            final(self).pending == old(self).pending,
            (final(self).events@, r) == remove_outcome(
                old(self).events@,
                (EventKey { hwnd, index }),
            ),
    {
        let key = EventKey { hwnd, index };
        match self.events.remove(&key) {
            Some(_) => Ok(()),
            None => Err(Error::NoWindowFound((hwnd, index))),
        }
    }

    /// Dispatches to the callback registered under `(hwnd, index)`: an
    /// absent key is an error, an entry without a callback succeeds, and a
    /// registered callback's own result is handed through unchanged. The
    /// table is not changed; a callback that wants to change it enqueues its
    /// intent instead.
    pub fn run(&mut self, hwnd: u64, index: u32) -> (r: Result<(), Error>)
        requires
            old(self).wf(),
        ensures
            *final(self) == *old(self),
            ({
                let k = (EventKey { hwnd, index });
                if dispatch_misses(old(self).events@, k) {
                    r == Err::<(), Error>(Error::NoWindowFound((hwnd, index)))
                } else {
                    match old(self).events@[k].callback {
                        Some(f) => call_ensures(f, (), r),
                        None => r == Ok::<(), Error>(()),
                    }
                }
            }),
    {
        let key = EventKey { hwnd, index };
        match self.events.get(&key) {
            Some(w) => match &w.callback {
                Some(f) => f(),
                None => Ok(()),
            },
            None => Err(Error::NoWindowFound((hwnd, index))),
        }
    }

    /// Enqueues a destroyed window's handle for the pump to reconcile.
    pub fn notify(&mut self, hwnd: u64)
        requires
            old(self).wf(),
        ensures
            final(self).wf(),
            final(self).events == old(self).events,
            final(self).pending@ == old(self).pending@.push(hwnd),
    {
        self.pending.push(hwnd);
    }

    /// Drains the notification queue without blocking: every enqueued
    /// handle leaves, in send order, and an empty queue is not an error.
    pub fn drain(&mut self) -> (r: Vec<u64>)
        requires
            old(self).wf(),
        ensures
            final(self).wf(),
            final(self).events == old(self).events,
            r@ == old(self).pending@,
            final(self).pending@ == Seq::<u64>::empty(),
    {
        let mut out: Vec<u64> = Vec::new();
        while self.pending.len() > 0
            invariant
                self.wf(),
                self.events == old(self).events,
                out@ + self.pending@ == old(self).pending@,
            decreases self.pending@.len(),
        {
            let h = self.pending.remove(0);
            out.push(h);
            proof {
                assert(out@ + self.pending@ =~= old(self).pending@);
            }
        }
        proof {
            assert(out@ =~= old(self).pending@);
        }
        out
    }
}

/// Law: registering at an occupied key fails with the duplicate error and
/// leaves the first registration in place, where dispatch still finds it.
pub proof fn lemma_duplicate_registration<C>(
    m: Map<EventKey, Window<C>>,
    k: EventKey,
    w1: Window<C>,
    w2: Window<C>,
)
    requires
        !m.contains_key(k),
    ensures
        ({
            let (m1, r1) = insert_outcome(m, k, w1);
            let (m2, r2) = insert_outcome(m1, k, w2);
            &&& r1 == Ok::<(), Error>(())
            &&& r2 == Err::<(), Error>(Error::WindowFound((k.hwnd, k.index)))
            &&& m2 == m1
            &&& m1[k] == w1
            &&& !dispatch_misses(m2, k)
        }),
{
}

/// Law: at a key never registered, removal and dispatch both fail, each with
/// the not-found error.
pub proof fn lemma_absent_key<C>(m: Map<EventKey, Window<C>>, k: EventKey)
    requires
        !m.contains_key(k),
    ensures
        remove_outcome(m, k) == (m, Err::<(), Error>(Error::NoWindowFound((k.hwnd, k.index)))),
        dispatch_misses(m, k),
{
}

/// Law: registering a key and then removing it leaves no residual state; the
/// registry is what it was, and dispatch at that key misses again.
pub proof fn lemma_round_trip<C>(m: Map<EventKey, Window<C>>, k: EventKey, w: Window<C>)
    requires
        !m.contains_key(k),
    ensures
        ({
            let (m1, r1) = insert_outcome(m, k, w);
            let (m2, r2) = remove_outcome(m1, k);
            &&& r1 == Ok::<(), Error>(())
            &&& r2 == Ok::<(), Error>(())
            &&& m2 == m
            &&& dispatch_misses(m2, k)
        }),
{
    assert(m.insert(k, w).remove(k) =~= m);
}

} // verus!
