//! The tray application: a popup menu, a callback table keyed by menu-item
//! index, and the lifecycle of the dedicated thread that runs the tray's
//! own message loop.
//!
//! The operating-system half — the hidden window, the shell icon, the
//! thread and its channels — lives outside the library. The surrounding
//! program hands in the rendezvous result at construction and one poll of
//! the event channel per `update`; every decision in between is made and
//! proved here: index assignment, the menu model, tooltip bounds, the
//! remove-then-reinsert dispatch that lets a callback mutate the very
//! application that is invoking it, and the idempotent quit.

use vstd::prelude::*;
use vstd::string::StringSliceAdditionalSpecFns;

use crate::table::Table;

verus! {

/// What the tray can fail with.
#[derive(Debug, PartialEq, Eq)]
pub enum Error {
    /// An operating-system call failed; the payload describes it.
    OsError(String),
    /// The operation is not available.
    NotImplementedError,
    /// A failure nothing more precise describes: here, removing the
    /// notification icon when it is already gone.
    UnknownError,
    /// A menu callback failed; its own report is handed through unchanged.
    CallbackFailure(String),
    /// A tooltip longer than the shell's bound of 128 bytes.
    TooltipTooLong,
}

/// A menu selection, carrying the index of the selected item. The only
/// payload that crosses from the tray thread back to the owning thread.
#[derive(Debug, Clone, Copy, PartialEq, Eq, Structural)]
pub struct TrayEvent {
    id: u32,
}

impl TrayEvent {
    /// The index of the selected menu item.
    pub closed spec fn spec_id(&self) -> u32 {
        self.id
    }

    pub fn new(id: u32) -> (e: TrayEvent)
        ensures
            e.spec_id() == id,
    {
        TrayEvent { id }
    }
}

impl From<i32> for TrayEvent {
    fn from(v: i32) -> (e: TrayEvent)
        ensures
            e.spec_id() == v as u32,
    {
        TrayEvent { id: #[verifier::truncate] (v as u32) }
    }
}

impl vstd::std_specs::convert::FromSpecImpl<i32> for TrayEvent {
    open spec fn obeys_from_spec() -> bool {
        true
    }

    closed spec fn from_spec(v: i32) -> TrayEvent {
        TrayEvent { id: v as u32 }
    }
}

/// The handles of the tray thread's hidden window: the window itself, the
/// owning module instance, and the popup menu. Opaque identities, created
/// by the tray thread and handed over at the rendezvous.
#[derive(Debug, Clone, Copy, PartialEq, Eq, Structural)]
pub struct WindowInfo {
    pub hwnd: u64,
    pub hinstance: u64,
    pub hmenu: u64,
}

/// One entry of the popup menu, at the position equal to its index.
#[derive(Debug)]
pub enum MenuEntry {
    Item(String),
    Separator,
}

/// A menu entry as the contracts see it.
pub enum MenuEntryView {
    Item(Seq<char>),
    Separator,
}

impl View for MenuEntry {
    type V = MenuEntryView;

    open spec fn view(&self) -> MenuEntryView {
        match self {
            MenuEntry::Item(s) => MenuEntryView::Item(s@),
            MenuEntry::Separator => MenuEntryView::Separator,
        }
    }
}

/// One non-blocking poll of the tray's event channel: a selection event,
/// nothing pending, or a channel whose sending side — the tray thread — is
/// gone.
#[derive(Debug, Clone, Copy, PartialEq, Eq, Structural)]
pub enum PollOutcome {
    Event(TrayEvent),
    Empty,
    Disconnected,
}

/// The 128 tooltip cells the shell takes: the text's bytes, one per cell,
/// the rest nul.
pub open spec fn tooltip_cells(bytes: Seq<u8>) -> Seq<u16> {
    Seq::new(
        128,
        |i: int|
            if i < bytes.len() {
                bytes[i] as u16
            } else {
                0u16
            },
    )
}

/// The owning thread's half of the tray: the menu model, the callback
/// table, and the lifecycle state of the tray thread.
pub struct Application<C> {
    window: WindowInfo,
    menu_idx: u32,
    callback: Table<u32, C>,
    menu: Vec<MenuEntry>,
    tooltip: Option<Vec<u16>>,
    icon: Option<String>,
    icon_present: bool,
    joined: bool,
}

impl<C> Application<C> {
    /// The handles received at the rendezvous.
    pub closed spec fn spec_window(&self) -> WindowInfo {
        self.window
    }

    /// The next index to assign; indices grow from zero and are never
    /// handed out twice while assigned.
    pub closed spec fn spec_menu_idx(&self) -> u32 {
        self.menu_idx
    }

    /// The callback table, keyed by menu-item index.
    pub closed spec fn spec_callbacks(&self) -> Map<u32, C> {
        self.callback@
    }

    /// The menu, in display order; the entry at position `i` consumed
    /// index `i`.
    pub closed spec fn spec_menu(&self) -> Seq<MenuEntryView> {
        self.menu@.map_values(|e: MenuEntry| e@)
    }

    /// The tooltip cells last accepted, if any.
    pub closed spec fn spec_tooltip(&self) -> Option<Seq<u16>> {
        match self.tooltip {
            Some(v) => Some(v@),
            None => None,
        }
    }

    /// The icon file last requested, if any.
    pub closed spec fn spec_icon(&self) -> Option<Seq<char>> {
        match self.icon {
            Some(s) => Some(s@),
            None => None,
        }
    }

    /// Whether the notification icon still stands in the shell.
    pub closed spec fn spec_icon_present(&self) -> bool {
        self.icon_present
    }

    /// Whether the tray thread was quit and joined.
    pub closed spec fn spec_joined(&self) -> bool {
        self.joined
    }

    /// The application's invariant: the table is one entry per key, every
    /// assigned index is below the next one, and the menu holds exactly the
    /// positions already consumed.
    pub closed spec fn wf(&self) -> bool {
        &&& self.callback.wf()
        &&& forall|k: u32| #[trigger] self.callback@.contains_key(k) ==> k < self.menu_idx
        &&& self.menu@.len() == self.menu_idx
    }

    /// The state after a quit, whatever the state before: the thread is
    /// joined, and nothing else moves.
    pub closed spec fn quit_spec(a: Self) -> Self {
        Application { joined: true, ..a }
    }

    /// `post` is `pre` with the tray thread joined.
    pub open spec fn same_but_joined(pre: Self, post: Self) -> bool {
        &&& post.spec_window() == pre.spec_window()
        &&& post.spec_menu_idx() == pre.spec_menu_idx()
        &&& post.spec_callbacks() == pre.spec_callbacks()
        &&& post.spec_menu() == pre.spec_menu()
        &&& post.spec_tooltip() == pre.spec_tooltip()
        &&& post.spec_icon() == pre.spec_icon()
        &&& post.spec_icon_present() == pre.spec_icon_present()
        &&& post.spec_joined()
    }

    /// `d` is `pre` with the callback at `k` detached for dispatch.
    pub open spec fn is_detached(pre: Self, k: u32, d: Self) -> bool {
        &&& d.spec_window() == pre.spec_window()
        &&& d.spec_menu_idx() == pre.spec_menu_idx()
        &&& d.spec_callbacks() == pre.spec_callbacks().remove(k)
        &&& d.spec_menu() == pre.spec_menu()
        &&& d.spec_tooltip() == pre.spec_tooltip()
        &&& d.spec_icon() == pre.spec_icon()
        &&& d.spec_icon_present() == pre.spec_icon_present()
        &&& d.spec_joined() == pre.spec_joined()
    }

    /// `post` is `mid` with the callback `c` reinserted at `k`.
    pub open spec fn is_reattached(mid: Self, k: u32, c: C, post: Self) -> bool {
        &&& post.spec_window() == mid.spec_window()
        &&& post.spec_menu_idx() == mid.spec_menu_idx()
        &&& post.spec_callbacks() == mid.spec_callbacks().insert(k, c)
        &&& post.spec_menu() == mid.spec_menu()
        &&& post.spec_tooltip() == mid.spec_tooltip()
        &&& post.spec_icon() == mid.spec_icon()
        &&& post.spec_icon_present() == mid.spec_icon_present()
        &&& post.spec_joined() == mid.spec_joined()
    }

    /// Hands back the handles received at the rendezvous.
    pub fn window(&self) -> (r: WindowInfo)
        ensures
            r == self.spec_window(),
    {
        self.window
    }

    /// Hands back the tooltip cells last accepted, for the shell call that
    /// displays them.
    pub fn tooltip(&self) -> (r: Option<&Vec<u16>>)
        ensures
            match r {
                Some(v) => self.spec_tooltip() == Some(v@),
                None => self.spec_tooltip() is None,
            },
    {
        match &self.tooltip {
            Some(v) => Some(v),
            None => None,
        }
    }

    /// Builds the owning half from the rendezvous result the spawned tray
    /// thread sent first of all: its handles on success, its failure
    /// otherwise. A failed rendezvous constructs nothing.
    pub fn new(startup: Result<WindowInfo, Error>) -> (r: Result<Application<C>, Error>)
        ensures
            match startup {
                Ok(info) => r matches Ok(a) && a.wf() && a.spec_window() == info
                    && a.spec_menu_idx() == 0 && a.spec_callbacks() == Map::<u32, C>::empty()
                    && a.spec_menu() == Seq::<MenuEntryView>::empty() && a.spec_tooltip() is None
                    && a.spec_icon() is None && a.spec_icon_present() && !a.spec_joined(),
                Err(e) => r matches Err(e2) && e2 == e,
            },
    {
        match startup {
            Ok(info) => {
                let a = Application {
                    window: info,
                    menu_idx: 0,
                    callback: Table::new(),
                    menu: Vec::new(),
                    tooltip: None,
                    icon: None,
                    icon_present: true,
                    joined: false,
                };
                proof {
                    assert(a.spec_menu() =~= Seq::<MenuEntryView>::empty());
                }
                Ok(a)
            },
            Err(e) => Err(e),
        }
    }

    /// The index the next menu entry will consume. The surrounding program
    /// inserts the operating system's menu entry at this position first and
    /// hands the outcome to [`Self::add_menu_item`] or
    /// [`Self::add_menu_separator`], which commit only on success.
    pub fn next_index(&self) -> (r: u32)
        ensures
            r == self.spec_menu_idx(),
    {
        self.menu_idx
    }

    /// Appends a string item to the menu, stores its callback, and hands
    /// back the index it consumed: the next free one. `entry` is the
    /// outcome of the menu service's per-position insert at that index; a
    /// failure there is handed through and commits nothing — no callback
    /// stored, no index consumed.
    pub fn add_menu_item(&mut self, item_name: &str, f: C, entry: Result<(), Error>) -> (r: Result<
        u32,
        Error,
    >)
        requires
            old(self).wf(),
            old(self).spec_menu_idx() < u32::MAX,
        ensures
            final(self).wf(),
            entry matches Err(e) ==> (r == Err::<u32, Error>(e) && *final(self) == *old(self)),
            entry is Ok ==> {
                &&& r == Ok::<u32, Error>(old(self).spec_menu_idx())
                &&& final(self).spec_menu_idx() == old(self).spec_menu_idx() + 1
                &&& final(self).spec_callbacks() == old(self).spec_callbacks().insert(
                    old(self).spec_menu_idx(),
                    f,
                )
                &&& final(self).spec_menu() == old(self).spec_menu().push(
                    MenuEntryView::Item(item_name@),
                )
                &&& final(self).spec_window() == old(self).spec_window()
                &&& final(self).spec_tooltip() == old(self).spec_tooltip()
                &&& final(self).spec_icon() == old(self).spec_icon()
                &&& final(self).spec_icon_present() == old(self).spec_icon_present()
                &&& final(self).spec_joined() == old(self).spec_joined()
            },
    {
        if let Err(e) = entry {
            return Err(e);
        }
        let idx = self.menu_idx;
        self.menu.push(MenuEntry::Item(item_name.to_owned()));
        proof {
            if self.callback@.contains_key(idx) {
                assert(idx < idx);
            }
        }
        let _fresh = self.callback.insert(idx, f);
        self.menu_idx = idx + 1;
        proof {
            assert(final(self).spec_menu() =~= old(self).spec_menu().push(
                MenuEntryView::Item(item_name@),
            ));
        }
        Ok(idx)
    }

    /// Appends a separator, which consumes an index like any entry — so
    /// menu positions and assigned indices stay aligned — but carries no
    /// callback. `entry` is the outcome of the menu service's insert, as
    /// for [`Self::add_menu_item`]; a failure commits nothing.
    pub fn add_menu_separator(&mut self, entry: Result<(), Error>) -> (r: Result<u32, Error>)
        requires
            old(self).wf(),
            old(self).spec_menu_idx() < u32::MAX,
        ensures
            final(self).wf(),
            entry matches Err(e) ==> (r == Err::<u32, Error>(e) && *final(self) == *old(self)),
            entry is Ok ==> {
                &&& r == Ok::<u32, Error>(old(self).spec_menu_idx())
                &&& final(self).spec_menu_idx() == old(self).spec_menu_idx() + 1
                &&& final(self).spec_callbacks() == old(self).spec_callbacks()
                &&& final(self).spec_menu() == old(self).spec_menu().push(MenuEntryView::Separator)
                &&& final(self).spec_window() == old(self).spec_window()
                &&& final(self).spec_tooltip() == old(self).spec_tooltip()
                &&& final(self).spec_icon() == old(self).spec_icon()
                &&& final(self).spec_icon_present() == old(self).spec_icon_present()
                &&& final(self).spec_joined() == old(self).spec_joined()
            },
    {
        if let Err(e) = entry {
            return Err(e);
        }
        let idx = self.menu_idx;
        self.menu.push(MenuEntry::Separator);
        self.menu_idx = idx + 1;
        proof {
            assert(final(self).spec_menu() =~= old(self).spec_menu().push(
                MenuEntryView::Separator,
            ));
        }
        Ok(idx)
    }

    /// Records the icon file to show; the shell call that loads it is the
    /// surrounding program's to make.
    pub fn set_icon(&mut self, file: &str) -> (r: Result<(), Error>)
        requires
            old(self).wf(),
        ensures
            final(self).wf(),
            r == Ok::<(), Error>(()),
            final(self).spec_icon() == Some(file@),
            final(self).spec_window() == old(self).spec_window(),
            final(self).spec_menu_idx() == old(self).spec_menu_idx(),
            final(self).spec_callbacks() == old(self).spec_callbacks(),
            final(self).spec_menu() == old(self).spec_menu(),
            final(self).spec_tooltip() == old(self).spec_tooltip(),
            final(self).spec_icon_present() == old(self).spec_icon_present(),
            final(self).spec_joined() == old(self).spec_joined(),
    {
        self.icon = Some(file.to_owned());
        Ok(())
    }

    /// Takes the notification icon out of the shell. Removing an icon that
    /// is already gone fails, as the shell's delete does.
    pub fn shutdown(&mut self) -> (r: Result<(), Error>)
        requires
            old(self).wf(),
        ensures
            final(self).wf(),
            !final(self).spec_icon_present(),
            old(self).spec_icon_present() ==> r == Ok::<(), Error>(()),
            !old(self).spec_icon_present() ==> r == Err::<(), Error>(Error::UnknownError),
            final(self).spec_window() == old(self).spec_window(),
            final(self).spec_menu_idx() == old(self).spec_menu_idx(),
            final(self).spec_callbacks() == old(self).spec_callbacks(),
            final(self).spec_menu() == old(self).spec_menu(),
            final(self).spec_tooltip() == old(self).spec_tooltip(),
            final(self).spec_icon() == old(self).spec_icon(),
            final(self).spec_joined() == old(self).spec_joined(),
    {
        let was = self.icon_present;
        self.icon_present = false;
        if was {
            Ok(())
        } else {
            Err(Error::UnknownError)
        }
    }

    /// Bounds-checks the tooltip text against the shell's 128-byte field
    /// and records its cells. Text of up to 128 bytes fits exactly; longer
    /// text is refused and nothing changes.
    pub fn set_tooltip(&mut self, tooltip: &str) -> (r: Result<(), Error>)
        requires
            old(self).wf(),
        ensures
            final(self).wf(),
            tooltip.spec_bytes().len() > 128 ==> r == Err::<(), Error>(Error::TooltipTooLong)
                && *final(self) == *old(self),
            tooltip.spec_bytes().len() <= 128 ==> r == Ok::<(), Error>(())
                && final(self).spec_tooltip() == Some(tooltip_cells(tooltip.spec_bytes())),
            final(self).spec_window() == old(self).spec_window(),
            final(self).spec_menu_idx() == old(self).spec_menu_idx(),
            final(self).spec_callbacks() == old(self).spec_callbacks(),
            final(self).spec_menu() == old(self).spec_menu(),
            final(self).spec_icon() == old(self).spec_icon(),
            final(self).spec_icon_present() == old(self).spec_icon_present(),
            final(self).spec_joined() == old(self).spec_joined(),
    {
        if tooltip.len() > 128 {
            return Err(Error::TooltipTooLong);
        }
        let bytes = tooltip.as_bytes();
        let mut cells: Vec<u16> = Vec::new();
        let n = bytes.len();
        let mut i: usize = 0;
        while i < 128
            invariant
                i <= 128,
                bytes@ == tooltip.spec_bytes(),
                n == bytes@.len() <= 128,
                cells@.len() == i,
                forall|j: int|
                    0 <= j < i ==> cells@[j] == (if j < n {
                        bytes@[j] as u16
                    } else {
                        0u16
                    }),
            decreases 128 - i,
        {
            if i < n {
                cells.push(bytes[i] as u16);
            } else {
                cells.push(0);
            }
            i += 1;
        }
        proof {
            assert(cells@ =~= tooltip_cells(tooltip.spec_bytes()));
        }
        self.tooltip = Some(cells);
        Ok(())
    }

    /// Quits the tray thread: the post-and-join happens only on the first
    /// call — the result says whether this call was it — and afterwards the
    /// state is terminal.
    pub fn quit(&mut self) -> (r: bool)
        requires
            old(self).wf(),
        ensures
            final(self).wf(),
            r == !old(self).spec_joined(),
            *final(self) == Self::quit_spec(*old(self)),
            Self::same_but_joined(*old(self), *final(self)),
    {
        let was = self.joined;
        self.joined = true;
        !was
    }

    /// Applies one poll of the tray's event channel.
    ///
    /// Nothing pending is a no-op. A disconnected channel — the tray
    /// thread is gone — is an implicit quit, not an error. A selection
    /// event at an index without a callback is a no-op. A selection event
    /// at a registered index detaches the callback from the table, hands
    /// it together with the detached application to `invoke` — which owns
    /// both for the duration of the call, so the callback may mutate the
    /// application freely, re-entering `add_menu_item` or `quit` — and
    /// reinserts the callback it gets back before any failure propagates.
    ///
    /// `invoke` must leave the application well-formed and must not lower
    /// the next index; an invoker that only calls this library's methods
    /// does both.
    pub fn update<F: FnOnce(Application<C>, C) -> (Application<C>, C, Result<(), String>)>(
        self,
        poll: PollOutcome,
        invoke: F,
    ) -> (r: (Application<C>, Result<(), Error>))
        requires
            self.wf(),
            forall|a: Application<C>, c: C| #[trigger] call_requires(invoke, (a, c)),
            forall|a: Application<C>, c: C, out: (Application<C>, C, Result<(), String>)|
                #[trigger] call_ensures(invoke, (a, c), out) ==> (a.wf() ==> out.0.wf()
                    && a.spec_menu_idx() <= out.0.spec_menu_idx()),
        ensures
            r.0.wf(),
            match poll {
                PollOutcome::Empty => r.0 == self && r.1 == Ok::<(), Error>(()),
                PollOutcome::Disconnected => Self::same_but_joined(self, r.0) && r.1 == Ok::<
                    (),
                    Error,
                >(()),
                PollOutcome::Event(ev) => {
                    if !self.spec_callbacks().contains_key(ev.spec_id()) {
                        r.0 == self && r.1 == Ok::<(), Error>(())
                    } else {
                        // The dispatched index is back in the table before
                        // any failure propagates.
                        r.0.spec_callbacks().contains_key(ev.spec_id()) && exists|
                            d: Application<C>,
                            mid: Application<C>,
                            c1: C,
                            rr: Result<(), String>,
                        |
                            {
                                &&& Self::is_detached(self, ev.spec_id(), d)
                                &&& #[trigger] call_ensures(
                                    invoke,
                                    (d, self.spec_callbacks()[ev.spec_id()]),
                                    (mid, c1, rr),
                                )
                                &&& Self::is_reattached(mid, ev.spec_id(), c1, r.0)
                                &&& r.1 == (match rr {
                                    Ok(()) => Ok::<(), Error>(()),
                                    Err(s) => Err::<(), Error>(Error::CallbackFailure(s)),
                                })
                            }
                    }
                },
            },
    {
        match poll {
            PollOutcome::Empty => (self, Ok(())),
            PollOutcome::Disconnected => {
                let mut s = self;
                let _first = s.quit();
                (s, Ok(()))
            },
            PollOutcome::Event(ev) => {
                let id = ev.id;
                let mut s = self;
                match s.callback.remove(&id) {
                    None => (s, Ok(())),
                    Some(f) => {
                        let (mid, f_back, rr) = invoke(s, f);
                        let mut out = mid;
                        out.callback.put(id, f_back);
                        let res = match rr {
                            Ok(()) => Ok(()),
                            Err(s2) => Err(Error::CallbackFailure(s2)),
                        };
                        (out, res)
                    },
                }
            },
        }
    }
}

/// What the tray thread's window procedure does with one message. The
/// procedure runs on the tray thread; it reaches the popup menu and the
/// event channel through that thread's stash and never touches the owning
/// thread's state.
#[derive(Debug, Clone, Copy, PartialEq, Eq, Structural)]
pub enum TrayProcAction {
    /// A menu reported a selection by position: resolve which item sits
    /// there, then send its event (see [`menu_selection`]).
    ResolveSelection { position: u32 },
    /// The icon was clicked: bring the hidden window to the foreground and
    /// show the popup menu at the cursor.
    ShowMenu,
    /// The hidden window is going away: post the quit request to the tray
    /// thread's own loop.
    Quit,
    /// Hand the message to the operating system's default handling.
    Default,
}

/// The action for one message of the tray thread's loop: selections arrive
/// by position, either mouse button on the icon opens the menu, and the
/// hidden window's destruction ends the loop.
pub open spec fn tray_message_action(msg: u32, w_param: u32, l_param: u32) -> TrayProcAction {
    if msg == crate::window::WM_MENUCOMMAND {
        TrayProcAction::ResolveSelection { position: w_param }
    } else if msg == crate::window::WM_USER && (l_param == crate::window::WM_LBUTTONUP || l_param
        == crate::window::WM_RBUTTONUP) {
        TrayProcAction::ShowMenu
    } else if msg == crate::window::WM_DESTROY {
        TrayProcAction::Quit
    } else {
        TrayProcAction::Default
    }
}

/// Decides what the tray thread's window procedure does with the message
/// it was called for.
pub fn classify_tray_message(msg: u32, w_param: u32, l_param: u32) -> (r: TrayProcAction)
    ensures
        r == tray_message_action(msg, w_param, l_param),
{
    if msg == crate::window::WM_MENUCOMMAND {
        TrayProcAction::ResolveSelection { position: w_param }
    } else if msg == crate::window::WM_USER && (l_param == crate::window::WM_LBUTTONUP || l_param
        == crate::window::WM_RBUTTONUP) {
        TrayProcAction::ShowMenu
    } else if msg == crate::window::WM_DESTROY {
        TrayProcAction::Quit
    } else {
        TrayProcAction::Default
    }
}

/// The event sent for a resolved menu position: none when the resolver
/// reported that no item sits there.
pub fn menu_selection(resolved_id: i32) -> (r: Option<TrayEvent>)
    ensures
        resolved_id == -1 ==> r is None,
        resolved_id != -1 ==> (r matches Some(e) && e.spec_id() == resolved_id as u32),
{
    if resolved_id == -1 {
        None
    } else {
        Some(TrayEvent::from(resolved_id))
    }
}

/// Law: every index the table holds is below the next index to assign.
/// With the contract of `add_menu_item`, which hands out exactly that next
/// index, an item added during a callback's own invocation — when its index
/// is detached but every other assignment is still in the table — receives
/// an index greater than every index assigned before.
pub proof fn lemma_assigned_below_next<C>(a: Application<C>, k: u32)
    requires
        a.wf(),
        a.spec_callbacks().contains_key(k),
    ensures
        k < a.spec_menu_idx(),
{
}

/// Law: the menu has consumed exactly the indices assigned so far, one
/// position each.
pub proof fn lemma_menu_tracks_indices<C>(a: Application<C>)
    requires
        a.wf(),
    ensures
        a.spec_menu().len() == a.spec_menu_idx(),
{
}

/// Law: quitting is idempotent. A second quit leaves the state exactly
/// where the first left it — one join, one terminal state — and by the
/// contract of `quit` the second call reports that it performed no join.
pub proof fn lemma_quit_idempotent<C>(a: Application<C>)
    ensures
        Application::<C>::quit_spec(Application::<C>::quit_spec(a)) == Application::<C>::quit_spec(
            a,
        ),
        Application::<C>::quit_spec(a).spec_joined(),
        Application::<C>::same_but_joined(a, Application::<C>::quit_spec(a)),
{
}

} // verus!
