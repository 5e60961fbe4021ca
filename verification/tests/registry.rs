//! The callback registry: registration, removal, dispatch, and the
//! notification queue.

use std::cell::Cell;
use std::rc::Rc;

use luna::error::Error;
use luna::event::Handler;
use luna::window::Window;

type Cb = Box<dyn Fn() -> Result<(), Error>>;

fn plain_window(hwnd: u64) -> Window<Cb> {
    Window::new(hwnd, None, None).unwrap()
}

#[test]
fn it_works() {
    assert_eq!(2 + 2, 4);
}

#[test]
fn a_null_handle_is_the_creation_error() {
    let r: Result<Window<Cb>, Error> = Window::new(0, None, None);
    assert_eq!(
        r.err().unwrap(),
        Error::SysError("Error creating window".to_string())
    );
    let w: Window<Cb> = Window::new(77, Some(5), None).unwrap();
    assert_eq!(w.hwnd, 77);
    assert_eq!(w.hmenu, Some(5));
    assert!(w.callback.is_none());
}

#[test]
fn insert_then_insert_fails_and_keeps_first() {
    let mut h: Handler<Cb> = Handler::new();
    let hits = Rc::new(Cell::new(0u32));
    let hits2 = hits.clone();
    let first: Cb = Box::new(move || {
        hits2.set(hits2.get() + 1);
        Ok(())
    });
    let second: Cb = Box::new(|| panic!("the overwritten callback must never run"));

    assert_eq!(h.insert(10, 1, Window::new(10, None, Some(first)).unwrap()), Ok(()));
    let r = h.insert(10, 1, Window::new(10, None, Some(second)).unwrap());
    assert_eq!(r, Err(Error::WindowFound((10, 1))));

    // The first registration is still the one dispatch reaches.
    assert_eq!(h.run(10, 1), Ok(()));
    assert_eq!(hits.get(), 1);
}

#[test]
fn remove_and_dispatch_fail_when_absent() {
    let mut h: Handler<Cb> = Handler::new();
    assert_eq!(h.remove(3, 4), Err(Error::NoWindowFound((3, 4))));
    assert_eq!(h.run(3, 4), Err(Error::NoWindowFound((3, 4))));
}

#[test]
fn insert_remove_round_trip_leaves_nothing() {
    let mut h: Handler<Cb> = Handler::new();
    let cb: Cb = Box::new(|| Ok(()));
    assert_eq!(h.insert(5, 0, Window::new(5, None, Some(cb)).unwrap()), Ok(()));
    assert_eq!(h.remove(5, 0), Ok(()));
    assert_eq!(h.run(5, 0), Err(Error::NoWindowFound((5, 0))));
    assert_eq!(h.remove(5, 0), Err(Error::NoWindowFound((5, 0))));
}

#[test]
fn dispatch_without_callback_succeeds() {
    let mut h: Handler<Cb> = Handler::new();
    assert_eq!(h.insert(8, 2, plain_window(8)), Ok(()));
    assert_eq!(h.run(8, 2), Ok(()));
}

#[test]
fn dispatch_propagates_callback_failure() {
    let mut h: Handler<Cb> = Handler::new();
    let cb: Cb = Box::new(|| Err(Error::Unimplemented));
    assert_eq!(h.insert(9, 0, Window::new(9, None, Some(cb)).unwrap()), Ok(()));
    assert_eq!(h.run(9, 0), Err(Error::Unimplemented));
    // The entry survives its own failure.
    assert_eq!(h.remove(9, 0), Ok(()));
}

#[test]
fn notices_drain_in_send_order() {
    let mut h: Handler<Cb> = Handler::new();
    assert_eq!(h.drain(), Vec::<u64>::new());
    h.notify(41);
    h.notify(42);
    assert_eq!(h.drain(), vec![41, 42]);
    // Draining empties the queue; nothing is delivered twice.
    assert_eq!(h.drain(), Vec::<u64>::new());
}

#[test]
fn a_message_converts_into_a_system_error() {
    let e = Error::from("something failed".to_string());
    assert_eq!(e, Error::SysError("something failed".to_string()));
}

#[test]
fn keys_are_handle_and_index_together() {
    let mut h: Handler<Cb> = Handler::new();
    assert_eq!(h.insert(1, 0, plain_window(1)), Ok(()));
    // Same handle, other index: a different key.
    assert_eq!(h.insert(1, 1, plain_window(1)), Ok(()));
    // Same index, other handle: a different key.
    assert_eq!(h.insert(2, 0, plain_window(2)), Ok(()));
    assert_eq!(h.remove(1, 1), Ok(()));
    assert_eq!(h.run(1, 0), Ok(()));
    assert_eq!(h.run(2, 0), Ok(()));
}
