//! Errors of the window registry and of the message pump.

use vstd::prelude::*;

verus! {

/// What the registry and the pump can fail with.
///
/// The two lookup errors carry the `(handle, index)` key they were asked
/// about. `SysError` carries the report of a failed operating-system call.
/// `ChannelClosed` reports that the notification channel's sending side was
/// dropped while the pump still ran.
#[derive(Debug, PartialEq, Eq)]
pub enum Error {
    /// An entry already occupies the key that `insert` was given.
    WindowFound((u64, u32)),
    /// No entry occupies the key that `remove` or dispatch was given.
    NoWindowFound((u64, u32)),
    /// The operation is not available.
    Unimplemented,
    /// An operating-system call failed; the payload describes it.
    SysError(String),
    /// The notification channel ended while the pump still ran.
    ChannelClosed,
}

impl From<String> for Error {
    fn from(err: String) -> (r: Error)
        ensures
            r == Error::SysError(err),
    {
        Error::SysError(err)
    }
}

impl vstd::std_specs::convert::FromSpecImpl<String> for Error {
    open spec fn obeys_from_spec() -> bool {
        true
    }

    open spec fn from_spec(err: String) -> Error {
        Error::SysError(err)
    }
}

} // verus!
