//! The errors that the hotkey manager reports.

use vstd::prelude::*;
use crate::hotkey::HotKey;

verus! {

/// What can go wrong when hotkeys are registered or unregistered.
#[derive(Debug, PartialEq, Eq)]
pub enum Error {
    /// The system refused to install the hotkey event handler; the system's error code.
    OsError(i32),
    /// The hotkey is already registered.
    AlreadyRegistered(HotKey),
    /// The system refused to unregister the hotkey.
    FailedToUnRegister(HotKey),
    /// The hotkey could not be registered, and why.
    FailedToRegister(String),
    /// The event tap that watches media and modifier keys could not be set up.
    FailedToWatchMediaKeyEvent,
}

/// An `Error` as a plain value, its message as a sequence of characters.
pub enum ErrorView {
    /// See `Error::OsError`.
    OsError(i32),
    /// See `Error::AlreadyRegistered`.
    AlreadyRegistered(HotKey),
    /// See `Error::FailedToUnRegister`.
    FailedToUnRegister(HotKey),
    /// See `Error::FailedToRegister`.
    FailedToRegister(Seq<char>),
    /// See `Error::FailedToWatchMediaKeyEvent`.
    FailedToWatchMediaKeyEvent,
}

impl View for Error {
    type V = ErrorView;

    open spec fn view(&self) -> ErrorView {
        match self {
            Error::OsError(code) => ErrorView::OsError(*code),
            Error::AlreadyRegistered(h) => ErrorView::AlreadyRegistered(*h),
            Error::FailedToUnRegister(h) => ErrorView::FailedToUnRegister(*h),
            Error::FailedToRegister(msg) => ErrorView::FailedToRegister(msg@),
            Error::FailedToWatchMediaKeyEvent => ErrorView::FailedToWatchMediaKeyEvent,
        }
    }
}

/// A result as a plain value.
pub open spec fn result_view(r: Result<(), Error>) -> Result<(), ErrorView> {
    match r {
        Ok(()) => Ok(()),
        Err(e) => Err(e@),
    }
}

} // verus!
