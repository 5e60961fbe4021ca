//! The tray application: menu building, dispatch through `update`,
//! re-entrant callbacks, the tooltip bound, and the idempotent quit.

use std::cell::Cell;
use std::rc::Rc;

use luna::tray::{
    classify_tray_message, menu_selection, Application, Error, PollOutcome, TrayEvent,
    TrayProcAction, WindowInfo,
};

/// The callback type of these tests: a boxed closure receiving the
/// application it is registered in, as the dispatch hand-off allows.
struct Cb(Box<dyn Fn(&mut Application<Cb>) -> Result<(), String>>);

/// Runs the detached callback on the detached application and hands both
/// back, exactly as `update`'s contract asks of an invoker.
fn invoker(mut a: Application<Cb>, cb: Cb) -> (Application<Cb>, Cb, Result<(), String>) {
    let r = (cb.0)(&mut a);
    (a, cb, r)
}

fn fresh() -> Application<Cb> {
    Application::new(Ok(WindowInfo { hwnd: 100, hinstance: 200, hmenu: 300 })).unwrap()
}

fn noop() -> Cb {
    Cb(Box::new(|_| Ok(())))
}

#[test]
fn construction_fails_when_the_rendezvous_does() {
    let r: Result<Application<Cb>, Error> =
        Application::new(Err(Error::OsError("Error creating window class: 87".to_string())));
    match r {
        Err(Error::OsError(msg)) => assert_eq!(msg, "Error creating window class: 87"),
        _ => panic!("a failed rendezvous must construct nothing"),
    }
}

#[test]
fn menu_scenario_dispatches_to_the_selected_item() {
    let mut a = fresh();
    assert_eq!(a.add_menu_item("A", noop(), Ok(())).unwrap(), 0);
    assert_eq!(a.add_menu_separator(Ok(())).unwrap(), 1);

    let hits = Rc::new(Cell::new(0u32));
    let hits_inner = hits.clone();
    let flagger = Cb(Box::new(move |_| {
        hits_inner.set(hits_inner.get() + 1);
        Ok(())
    }));
    assert_eq!(a.add_menu_item("B", flagger, Ok(())).unwrap(), 2);

    let (a, r) = a.update(PollOutcome::Event(TrayEvent::new(2)), invoker);
    assert_eq!(r, Ok(()));
    assert_eq!(hits.get(), 1);

    // No event pending: a no-op, and nothing runs.
    let (a, r) = a.update(PollOutcome::Empty, invoker);
    assert_eq!(r, Ok(()));
    assert_eq!(hits.get(), 1);

    // A selection at the separator's index carries no callback: a no-op.
    let (_a, r) = a.update(PollOutcome::Event(TrayEvent::new(1)), invoker);
    assert_eq!(r, Ok(()));
    assert_eq!(hits.get(), 1);
}

#[test]
fn reentrant_callback_gets_a_fresh_index() {
    let mut a = fresh();
    let assigned = Rc::new(Cell::new(0u32));
    let assigned_inner = assigned.clone();
    let self_extending = Cb(Box::new(move |app: &mut Application<Cb>| {
        let idx = app.add_menu_item("added from within", Cb(Box::new(|_| Ok(()))), Ok(())).unwrap();
        assigned_inner.set(idx);
        Ok(())
    }));
    assert_eq!(a.add_menu_item("self-extending", self_extending, Ok(())).unwrap(), 0);
    assert_eq!(a.add_menu_separator(Ok(())).unwrap(), 1);

    let (a, r) = a.update(PollOutcome::Event(TrayEvent::new(0)), invoker);
    assert_eq!(r, Ok(()));
    // The item added mid-dispatch received an index above every one
    // assigned before, including the one being dispatched.
    assert_eq!(assigned.get(), 2);

    // No corruption: the item added from within dispatches...
    let (a, r) = a.update(PollOutcome::Event(TrayEvent::new(2)), invoker);
    assert_eq!(r, Ok(()));
    // ...and the next assignment continues above it.
    let mut a = a;
    assert_eq!(a.add_menu_separator(Ok(())).unwrap(), 3);
}

#[test]
fn failed_menu_insert_commits_nothing() {
    let mut a = fresh();
    assert_eq!(a.next_index(), 0);
    let r = a.add_menu_item(
        "half",
        noop(),
        Err(Error::OsError("Error inserting menu item: 8".to_string())),
    );
    assert_eq!(r, Err(Error::OsError("Error inserting menu item: 8".to_string())));
    // Nothing was stored and no index was consumed.
    assert_eq!(a.next_index(), 0);
    // The next successful entry takes the very index the failed one did not.
    assert_eq!(a.add_menu_item("whole", noop(), Ok(())).unwrap(), 0);
    assert_eq!(a.next_index(), 1);
    let r = a.add_menu_separator(Err(Error::OsError(
        "Error inserting separator: 8".to_string(),
    )));
    assert_eq!(r, Err(Error::OsError("Error inserting separator: 8".to_string())));
    assert_eq!(a.next_index(), 1);
}

#[test]
fn callback_failure_propagates_and_keeps_the_entry() {
    let mut a = fresh();
    assert_eq!(a.add_menu_item("failing", Cb(Box::new(|_| Err("boom".to_string()))), Ok(())).unwrap(), 0);

    let (a, r) = a.update(PollOutcome::Event(TrayEvent::new(0)), invoker);
    assert_eq!(r, Err(Error::CallbackFailure("boom".to_string())));

    // The entry was reinserted before the failure propagated.
    let (_a, r) = a.update(PollOutcome::Event(TrayEvent::new(0)), invoker);
    assert_eq!(r, Err(Error::CallbackFailure("boom".to_string())));
}

#[test]
fn disconnected_channel_quits_implicitly() {
    let a = fresh();
    let (mut a, r) = a.update(PollOutcome::Disconnected, invoker);
    assert_eq!(r, Ok(()));
    // The quit already happened: another quit has nothing left to join.
    assert!(!a.quit());
}

#[test]
fn quit_twice_joins_once() {
    let mut a = fresh();
    assert!(a.quit());
    assert!(!a.quit());
}

#[test]
fn tooltip_of_129_bytes_fails_and_128_fits() {
    let mut a = fresh();
    let long = "x".repeat(129);
    assert_eq!(a.set_tooltip(&long), Err(Error::TooltipTooLong));
    let exact = "y".repeat(128);
    assert_eq!(a.set_tooltip(&exact), Ok(()));
    assert_eq!(a.set_tooltip("luna"), Ok(()));
}

#[test]
fn tooltip_cells_hold_the_text_padded_with_nuls() {
    let mut a = fresh();
    assert!(a.tooltip().is_none());
    a.set_tooltip("luna").unwrap();
    let cells = a.tooltip().unwrap();
    assert_eq!(cells.len(), 128);
    assert_eq!(&cells[..4], &[108u16, 117, 110, 97]);
    assert!(cells[4..].iter().all(|c| *c == 0));
}

#[test]
fn window_handles_survive_construction() {
    let a = fresh();
    let info = a.window();
    assert_eq!(info.hwnd, 100);
    assert_eq!(info.hinstance, 200);
    assert_eq!(info.hmenu, 300);
}

#[test]
fn icon_set_and_single_removal() {
    let mut a = fresh();
    assert_eq!(a.set_icon("./src/rust.ico"), Ok(()));
    assert_eq!(a.shutdown(), Ok(()));
    // The icon is already gone: the shell's delete fails.
    assert_eq!(a.shutdown(), Err(Error::UnknownError));
}

#[test]
fn selection_events_resolve_by_identifier() {
    assert_eq!(menu_selection(-1), None);
    assert_eq!(menu_selection(5), Some(TrayEvent::new(5)));
    assert_eq!(TrayEvent::from(7), TrayEvent::new(7));
    assert_eq!(TrayEvent::from(-2), TrayEvent::new(0xFFFF_FFFE));
}

#[test]
fn tray_messages_classify() {
    // A selection reported by position.
    assert_eq!(
        classify_tray_message(0x0126, 4, 0),
        TrayProcAction::ResolveSelection { position: 4 }
    );
    // Either mouse button on the icon opens the menu.
    assert_eq!(classify_tray_message(0x0400, 0, 0x0202), TrayProcAction::ShowMenu);
    assert_eq!(classify_tray_message(0x0400, 0, 0x0205), TrayProcAction::ShowMenu);
    // Other icon notifications are left to default handling.
    assert_eq!(classify_tray_message(0x0400, 0, 0x0200), TrayProcAction::Default);
    // The hidden window's destruction ends the tray thread's loop.
    assert_eq!(classify_tray_message(0x0002, 0, 0), TrayProcAction::Quit);
    assert_eq!(classify_tray_message(0x0111, 0, 0), TrayProcAction::Default);
}
