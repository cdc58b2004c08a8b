//! The bridge's error taxonomy.
//!
//! Every failure an operation can meet is surfaced to the caller as a value
//! of [`FcmError`]; nothing aborts the process. Callers get exactly one
//! error type to handle: a native-reported failure and a transport failure
//! differ only in which variant carries the message.

use vstd::prelude::*;

verus! {

/// One error channel for every operation of the bridge.
#[derive(Debug, PartialEq, Eq)]
pub enum FcmError {
    /// The build targets a desktop platform, where no operation is supported.
    UnsupportedPlatform,
    /// The build targets mobile, but the native bridge is not wired yet.
    NativeImplementationUnavailable,
    /// The native layer answered with an error; its message is kept verbatim.
    NativeCallFailed(String),
    /// The channel to the native layer itself failed (serialization mismatch,
    /// dead channel, or an answer of a shape the operation has no use for).
    TransportFailed(String),
}

/// Mathematical image of an [`FcmError`]: messages as character sequences.
pub enum ErrorView {
    /// Image of [`FcmError::UnsupportedPlatform`].
    UnsupportedPlatform,
    /// Image of [`FcmError::NativeImplementationUnavailable`].
    NativeImplementationUnavailable,
    /// Image of [`FcmError::NativeCallFailed`].
    NativeCallFailed(Seq<char>),
    /// Image of [`FcmError::TransportFailed`].
    TransportFailed(Seq<char>),
}

impl View for FcmError {
    type V = ErrorView;

    open spec fn view(&self) -> ErrorView {
        match self {
            FcmError::UnsupportedPlatform => ErrorView::UnsupportedPlatform,
            FcmError::NativeImplementationUnavailable => ErrorView::NativeImplementationUnavailable,
            FcmError::NativeCallFailed(m) => ErrorView::NativeCallFailed(m@),
            FcmError::TransportFailed(m) => ErrorView::TransportFailed(m@),
        }
    }
}

/// The human-readable text that each error carries to the host.
pub open spec fn error_text(e: ErrorView) -> Seq<char> {
    match e {
        ErrorView::UnsupportedPlatform => "FCM is not supported on desktop"@,
        ErrorView::NativeImplementationUnavailable => "FCM mobile implementation not available"@,
        ErrorView::NativeCallFailed(m) => m,
        ErrorView::TransportFailed(m) => m,
    }
}

impl FcmError {
    /// The message shown to the host caller for this error.
    pub fn message(&self) -> (r: String)
        ensures
            r@ == error_text(self@),
    {
        match self {
            FcmError::UnsupportedPlatform => "FCM is not supported on desktop".to_owned(),
            FcmError::NativeImplementationUnavailable => {
                "FCM mobile implementation not available".to_owned()
            },
            FcmError::NativeCallFailed(m) => m.clone(),
            FcmError::TransportFailed(m) => m.clone(),
        }
    }
}

} // verus!
