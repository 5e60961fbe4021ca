//! The main loop's state: the handle-keyed window registry and the decision
//! taken on each pump iteration.
//!
//! The surrounding program runs the blocking retrieve-translate-dispatch
//! cycle and hands each iteration's outcome in as plain values: what the
//! message retrieval returned, and the batch of handles drained from the
//! notification queue. [`App::pump_step`] removes every drained handle and
//! decides how the loop goes on. Registry membership changes only here,
//! never inside a window procedure: a procedure only enqueues the handle of
//! a destroyed window, and the pump removes it on the next iteration that
//! retrieves an ordinary message.

use vstd::prelude::*;

use crate::error::Error;
use crate::table::Table;
use crate::window::Window;

verus! {

/// What the blocking message retrieval came back with: the quit sentinel,
/// a failure (with the operating system's report of it), or an ordinary
/// message to translate and dispatch.
#[derive(Debug, PartialEq, Eq)]
pub enum PumpMessage {
    Quit,
    Failure(String),
    Message,
}

/// What the loop does after a pump step.
#[derive(Debug, Clone, Copy, PartialEq, Eq, Structural)]
pub enum StepAction {
    /// The operating system signalled quit: leave the loop.
    Exit,
    /// The registry became empty: request quit, stop the tray, leave.
    CloseAll,
    /// Translate and dispatch the retrieved message, then go around again.
    Dispatch,
}

/// No handle is registered.
pub open spec fn registry_empty<C>(m: Map<u64, Window<C>>) -> bool {
    forall|h: u64| !m.contains_key(h)
}

/// The registry with every handle of `hs` removed, first to last.
pub open spec fn remove_all<C>(m: Map<u64, Window<C>>, hs: Seq<u64>) -> Map<u64, Window<C>>
    decreases hs.len(),
{
    if hs.len() == 0 {
        m
    } else {
        remove_all(m.remove(hs[0]), hs.drop_first())
    }
}

/// The registry after one pump step: every drained handle is gone; a step
/// that retrieves no ordinary message, or whose channel ended, removes
/// nothing.
pub open spec fn pump_windows<C>(
    m: Map<u64, Window<C>>,
    msg: PumpMessage,
    hs: Seq<u64>,
    closed: bool,
) -> Map<u64, Window<C>> {
    if msg is Message && !closed {
        remove_all(m, hs)
    } else {
        m
    }
}

/// The decision of one pump step over the registry it leaves behind.
pub open spec fn pump_decision<C>(
    m: Map<u64, Window<C>>,
    msg: PumpMessage,
    hs: Seq<u64>,
    closed: bool,
) -> Result<StepAction, Error> {
    match msg {
        PumpMessage::Quit => Ok(StepAction::Exit),
        PumpMessage::Failure(s) => Err(Error::SysError(s)),
        PumpMessage::Message => {
            if closed {
                Err(Error::ChannelClosed)
            } else if registry_empty(remove_all(m, hs)) {
                Ok(StepAction::CloseAll)
            } else {
                Ok(StepAction::Dispatch)
            }
        },
    }
}

/// The owner of the window registry.
pub struct App<C> {
    pub windows: Table<u64, Window<C>>,
}

impl<C> App<C> {
    pub open spec fn wf(&self) -> bool {
        self.windows.wf()
    }

    pub fn new() -> (r: App<C>)
        ensures
            r.wf(),
            r.windows@ == Map::<u64, Window<C>>::empty(),
    {
        App { windows: Table::new() }
    }

    /// Registers a window under its own handle. The operating system never
    /// reuses a handle while its window lives, so the handle is fresh.
    pub fn add_window(&mut self, window: Window<C>) -> (r: u64)
        requires
            old(self).wf(),
            !old(self).windows@.contains_key(window.hwnd),
        ensures
            final(self).wf(),
            r == window.hwnd,
            final(self).windows@ == old(self).windows@.insert(window.hwnd, window),
    {
        let hwnd = window.hwnd;
        let _fresh = self.windows.insert(hwnd, window);
        hwnd
    }

    /// One iteration's decision. `msg` is what the blocking message
    /// retrieval returned. `handles` is the whole batch the non-blocking
    /// drain of the notification queue yielded, in send order, and `closed`
    /// reports that the drain found the channel ended; both are gathered
    /// only when an ordinary message arrived.
    ///
    /// A quit sentinel leaves the loop; a retrieval failure is fatal, as is
    /// a closed notification channel. Every drained handle leaves the
    /// registry here and nowhere else. A registry that became empty closes
    /// the program without waiting for the operating system's quit.
    pub fn pump_step(&mut self, msg: PumpMessage, handles: &Vec<u64>, closed: bool) -> (r: Result<
        StepAction,
        Error,
    >)
        requires
            old(self).wf(),
            msg is Message && !closed ==> forall|i: int|
                0 <= i < handles@.len() ==> old(self).windows@.contains_key(
                    #[trigger] handles@[i],
                ),
            msg is Message && !closed ==> forall|i: int, j: int|
                0 <= i < j < handles@.len() ==> handles@[i] != handles@[j],
        ensures
            final(self).wf(),
            final(self).windows@ == pump_windows(old(self).windows@, msg, handles@, closed),
            r == pump_decision(old(self).windows@, msg, handles@, closed),
    {
        match msg {
            PumpMessage::Quit => Ok(StepAction::Exit),
            PumpMessage::Failure(s) => Err(Error::SysError(s)),
            PumpMessage::Message => {
                if closed {
                    return Err(Error::ChannelClosed);
                }
                let ghost m0 = self.windows@;
                let mut i: usize = 0;
                while i < handles.len()
                    invariant
                        i <= handles@.len(),
                        self.windows.wf(),
                        self.windows@ == remove_all(m0, handles@.take(i as int)),
                        forall|j: int|
                            0 <= j < handles@.len() ==> m0.contains_key(#[trigger] handles@[j]),
                        forall|j: int, k: int|
                            0 <= j < k < handles@.len() ==> handles@[j] != handles@[k],
                    decreases handles@.len() - i,
                {
                    let h = handles[i];
                    proof {
                        lemma_remove_all_contains::<C>(m0, handles@.take(i as int), h);
                        assert(!handles@.take(i as int).contains(h)) by {
                            if handles@.take(i as int).contains(h) {
                                let j = choose|j: int|
                                    0 <= j < i && handles@.take(i as int)[j] == h;
                                assert(handles@[j] == handles@[i as int]);
                            }
                        }
                    }
                    let _removed = self.windows.remove(&h);
                    proof {
                        lemma_remove_all_snoc::<C>(m0, handles@.take(i as int), h);
                        assert(handles@.take(i as int).push(h) =~= handles@.take(i as int + 1));
                    }
                    i += 1;
                }
                proof {
                    assert(handles@.take(handles@.len() as int) =~= handles@);
                }
                if self.windows.is_empty() {
                    Ok(StepAction::CloseAll)
                } else {
                    Ok(StepAction::Dispatch)
                }
            },
        }
    }
}

/// Removing a batch removes exactly its handles: a key survives the drain
/// when and only when it was registered and not drained.
pub proof fn lemma_remove_all_contains<C>(m: Map<u64, Window<C>>, hs: Seq<u64>, k: u64)
    ensures
        remove_all(m, hs).contains_key(k) <==> m.contains_key(k) && !hs.contains(k),
    decreases hs.len(),
{
    if hs.len() > 0 {
        lemma_remove_all_contains::<C>(m.remove(hs[0]), hs.drop_first(), k);
        assert(hs.contains(k) <==> (hs[0] == k || hs.drop_first().contains(k))) by {
            if hs.contains(k) {
                let i = choose|i: int| 0 <= i < hs.len() && hs[i] == k;
                if i > 0 {
                    assert(hs.drop_first()[i - 1] == k);
                }
            }
            if hs.drop_first().contains(k) {
                let i = choose|i: int| 0 <= i < hs.drop_first().len() && hs.drop_first()[i] == k;
                assert(hs[i + 1] == k);
            }
        }
    }
}

/// Draining one more handle at the end removes it last.
proof fn lemma_remove_all_snoc<C>(m: Map<u64, Window<C>>, hs: Seq<u64>, h: u64)
    ensures
        remove_all(m, hs.push(h)) == remove_all(m, hs).remove(h),
    decreases hs.len(),
{
    if hs.len() == 0 {
        assert(hs.push(h)[0] == h);
        assert(hs.push(h).drop_first() =~= Seq::<u64>::empty());
        assert(remove_all(m, hs.push(h)) == remove_all(m.remove(h), hs.push(h).drop_first()));
        assert(remove_all(m.remove(h), hs.push(h).drop_first()) == m.remove(h));
        assert(remove_all(m, hs) == m);
    } else {
        assert(hs.push(h)[0] == hs[0]);
        assert(hs.push(h).drop_first() =~= hs.drop_first().push(h));
        assert(remove_all(m, hs.push(h)) == remove_all(
            m.remove(hs[0]),
            hs.drop_first().push(h),
        ));
        lemma_remove_all_snoc::<C>(m.remove(hs[0]), hs.drop_first(), h);
        assert(remove_all(m, hs) == remove_all(m.remove(hs[0]), hs.drop_first()));
    }
}

/// Law: once the notification queue carries a handle, the pump iteration
/// that drains the queue has removed that handle from the registry,
/// whatever unrelated notices accompany it — and it stays removed through
/// any later iteration, so in particular within the next two.
pub proof fn lemma_reconciliation<C>(m: Map<u64, Window<C>>, q: Seq<u64>, q2: Seq<u64>, h: u64)
    requires
        q.contains(h),
    ensures
        !remove_all(m, q).contains_key(h),
        !remove_all(remove_all(m, q), q2).contains_key(h),
{
    lemma_remove_all_contains::<C>(m, q, h);
    lemma_remove_all_contains::<C>(remove_all(m, q), q2, h);
}

} // verus!
