//! The message pump's per-iteration decisions and the reconciliation of
//! deferred window removals.

use luna::app::{App, PumpMessage, StepAction};
use luna::error::Error;
use luna::event::Handler;
use luna::window::Window;

type Cb = Box<dyn Fn() -> Result<(), Error>>;

fn window(hwnd: u64) -> Window<u32> {
    Window::new(hwnd, None, None).unwrap()
}

fn no_handles() -> Vec<u64> {
    Vec::new()
}

#[test]
fn quit_sentinel_exits() {
    let mut app: App<u32> = App::new();
    app.add_window(window(1));
    assert_eq!(app.pump_step(PumpMessage::Quit, &no_handles(), false), Ok(StepAction::Exit));
}

#[test]
fn retrieval_failure_is_fatal() {
    let mut app: App<u32> = App::new();
    app.add_window(window(1));
    let r = app.pump_step(
        PumpMessage::Failure("error on GetMessage: 5".to_string()),
        &no_handles(),
        false,
    );
    assert_eq!(r, Err(Error::SysError("error on GetMessage: 5".to_string())));
}

#[test]
fn closed_channel_is_fatal() {
    let mut app: App<u32> = App::new();
    app.add_window(window(1));
    let r = app.pump_step(PumpMessage::Message, &no_handles(), true);
    assert_eq!(r, Err(Error::ChannelClosed));
}

#[test]
fn empty_drain_dispatches() {
    let mut app: App<u32> = App::new();
    app.add_window(window(1));
    assert_eq!(app.pump_step(PumpMessage::Message, &no_handles(), false), Ok(StepAction::Dispatch));
}

#[test]
fn two_closed_windows_close_the_program() {
    // Two windows stand; both get close notifications; once the pump has
    // observed both, the registry is empty and the loop issues its own
    // quit instead of waiting for the operating system's.
    let mut app: App<u32> = App::new();
    app.add_window(window(11));
    app.add_window(window(22));

    let mut h: Handler<Cb> = Handler::new();
    h.notify(11);
    h.notify(22);

    let batch = h.drain();
    assert_eq!(batch, vec![11, 22]);
    assert_eq!(app.pump_step(PumpMessage::Message, &batch, false), Ok(StepAction::CloseAll));
}

#[test]
fn queued_handle_is_gone_after_one_drain() {
    // The queue carries handle 7 behind two unrelated close notices; the
    // iteration that drains the queue removes all three handles at once,
    // so 7 never outlives the iteration after its notification.
    let mut app: App<u32> = App::new();
    app.add_window(window(3));
    app.add_window(window(5));
    app.add_window(window(7));
    app.add_window(window(9));

    let mut h: Handler<Cb> = Handler::new();
    h.notify(3);
    h.notify(5);
    h.notify(7);

    let batch = h.drain();
    assert_eq!(batch, vec![3, 5, 7]);
    assert_eq!(app.pump_step(PumpMessage::Message, &batch, false), Ok(StepAction::Dispatch));

    // Only window 9 is left: closing it empties the registry, and the pump
    // decides the program's own quit.
    h.notify(9);
    let batch = h.drain();
    assert_eq!(app.pump_step(PumpMessage::Message, &batch, false), Ok(StepAction::CloseAll));
}
