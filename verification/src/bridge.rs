//! The capability bridge.
//!
//! Exactly one platform capability is active per build. A desktop build
//! rejects every operation at once; a mobile build whose native bridge is
//! not wired yet does the same with its own error; a build with native
//! support forwards the operation verbatim to the native collaborator and
//! normalizes whatever comes back into the bridge's one error taxonomy.
//! Every invocation resolves to exactly one of success value or error;
//! nothing is retried and nothing aborts the process.

use vstd::prelude::*;

use crate::error::{ErrorView, FcmError};
use crate::native::{native_reply, native_step, token_issued, NativeModel, NativeView};
use crate::ops::{message_opt_view, ChannelOutcome, ChannelValue, Message, OpOutput, Operation,
    OperationView, OutcomeView, OutputView, ValueView};

verus! {

/// Which dispatch path this build of the bridge takes. Exactly one
/// capability is active per build; the bridge never mixes paths.
#[derive(Clone, Copy, Debug, PartialEq, Eq, Structural)]
pub enum PlatformCapability {
    /// A desktop build: no operation is supported.
    Desktop,
    /// A mobile build whose native FCM bridge is wired and answers calls.
    MobileWithNativeSupport,
    /// A mobile build whose native FCM bridge is not wired yet.
    MobileStub,
}

/// The message a transport failure carries when the native layer's answer
/// has a shape the operation has no use for.
pub open spec fn unexpected_shape_text() -> Seq<char> {
    "unexpected response shape from native layer"@
}

/// How the bridge reads one channel outcome for one operation: an error
/// reported by the native layer and a failure of the channel itself keep
/// their messages, each under its own variant of the one error taxonomy;
/// a delivered value succeeds exactly when its shape is the one the
/// operation calls for, and any other shape is a transport failure.
pub open spec fn normalize_spec(op: OperationView, outcome: OutcomeView) -> Result<
    OutputView,
    ErrorView,
> {
    match outcome {
        OutcomeView::NativeError(m) => Err(ErrorView::NativeCallFailed(m)),
        OutcomeView::ChannelFailure(m) => Err(ErrorView::TransportFailed(m)),
        OutcomeView::Delivered(value) => match op {
            OperationView::GetToken => match value {
                ValueView::Text(t) => Ok(OutputView::Token(t)),
                _ => Err(ErrorView::TransportFailed(unexpected_shape_text())),
            },
            OperationView::SubscribeToTopic(_) => match value {
                ValueView::Null => Ok(OutputView::Done),
                _ => Err(ErrorView::TransportFailed(unexpected_shape_text())),
            },
            OperationView::UnsubscribeFromTopic(_) => match value {
                ValueView::Null => Ok(OutputView::Done),
                _ => Err(ErrorView::TransportFailed(unexpected_shape_text())),
            },
            OperationView::AreNotificationsEnabled => match value {
                ValueView::Flag(b) => Ok(OutputView::Flag(b)),
                _ => Err(ErrorView::TransportFailed(unexpected_shape_text())),
            },
            OperationView::RequestNotificationPermission => match value {
                ValueView::Flag(b) => Ok(OutputView::Flag(b)),
                _ => Err(ErrorView::TransportFailed(unexpected_shape_text())),
            },
            OperationView::DeleteToken => match value {
                ValueView::Null => Ok(OutputView::Done),
                _ => Err(ErrorView::TransportFailed(unexpected_shape_text())),
            },
            OperationView::GetLastMessage => match value {
                ValueView::Document(m) => Ok(OutputView::LastMessage(Some(m))),
                ValueView::Null => Ok(OutputView::LastMessage(None)),
                _ => Err(ErrorView::TransportFailed(unexpected_shape_text())),
            },
        },
    }
}

/// Mathematical image of an invocation's result.
pub open spec fn result_view(r: Result<OpOutput, FcmError>) -> Result<OutputView, ErrorView> {
    match r {
        Ok(o) => Ok(o@),
        Err(e) => Err(e@),
    }
}

fn unexpected_shape_error() -> (r: FcmError)
    ensures
        r@ == ErrorView::TransportFailed(unexpected_shape_text()),
{
    FcmError::TransportFailed("unexpected response shape from native layer".to_owned())
}

/// Normalize what came back over the channel for `op`, exactly as
/// [`normalize_spec`] describes.
pub fn normalize(op: &Operation, outcome: ChannelOutcome) -> (r: Result<OpOutput, FcmError>)
    ensures
        result_view(r) == normalize_spec(op@, outcome@),
{
    match outcome {
        ChannelOutcome::NativeError(m) => Err(FcmError::NativeCallFailed(m)),
        ChannelOutcome::ChannelFailure(m) => Err(FcmError::TransportFailed(m)),
        ChannelOutcome::Delivered(value) => match (op, value) {
            (Operation::GetToken, ChannelValue::Text(t)) => Ok(OpOutput::Token(t)),
            (Operation::SubscribeToTopic(_), ChannelValue::Null) => Ok(OpOutput::Done),
            (Operation::UnsubscribeFromTopic(_), ChannelValue::Null) => Ok(OpOutput::Done),
            (Operation::AreNotificationsEnabled, ChannelValue::Flag(b)) => Ok(OpOutput::Flag(b)),
            (Operation::RequestNotificationPermission, ChannelValue::Flag(b)) => Ok(
                OpOutput::Flag(b),
            ),
            (Operation::DeleteToken, ChannelValue::Null) => Ok(OpOutput::Done),
            (Operation::GetLastMessage, ChannelValue::Document(m)) => Ok(
                OpOutput::LastMessage(Some(m)),
            ),
            (Operation::GetLastMessage, ChannelValue::Null) => Ok(OpOutput::LastMessage(None)),
            _ => Err(unexpected_shape_error()),
        },
    }
}

/// Mathematical state of the bridge: the active capability and the native
/// collaborator's state.
#[verifier::ext_equal]
pub struct BridgeView {
    /// The capability this build was made with; it never changes.
    pub capability: PlatformCapability,
    /// The native collaborator's state.
    pub native: NativeView,
}

/// The capability bridge over the scripted native collaborator: the seven
/// FCM operations, dispatched by the active platform capability.
pub struct Fcm {
    capability: PlatformCapability,
    native: NativeModel,
}

impl View for Fcm {
    type V = BridgeView;

    closed spec fn view(&self) -> BridgeView {
        BridgeView { capability: self.capability, native: self.native@ }
    }
}

impl Fcm {
    /// The bridge's internal invariant.
    pub closed spec fn wf(&self) -> bool {
        self.native.wf()
    }

    /// Initialize the bridge for one platform capability, over the given
    /// native collaborator.
    pub fn new(capability: PlatformCapability, native: NativeModel) -> (r: Fcm)
        requires
            native.wf(),
        ensures
            r.wf(),
            r@.capability == capability,
            r@.native == native@,
    {
        Fcm { capability, native }
    }

    /// The capability this build of the bridge was made with.
    pub fn capability(&self) -> (r: PlatformCapability)
        ensures
            r == self@.capability,
    {
        self.capability
    }

    /// Whether the installation is subscribed to `topic`.
    pub fn is_subscribed(&self, topic: &String) -> (r: bool)
        ensures
            r == self@.native.topics.contains(topic@),
    {
        self.native.is_subscribed(topic)
    }

    /// How many topics the installation is subscribed to.
    pub fn topic_count(&self) -> (r: usize)
        requires
            self.wf(),
        ensures
            r == self@.native.topics.len(),
    {
        self.native.topic_count()
    }

    /// The uniform invocation surface: dispatch one operation by the active
    /// capability. A desktop build and a stub build reject at once, without
    /// touching the native layer; a build with native support forwards the
    /// operation and normalizes the outcome.
    pub fn invoke(&mut self, op: Operation) -> (r: Result<OpOutput, FcmError>)
        requires
            old(self).wf(),
        ensures
            final(self).wf(),
            final(self)@.capability == old(self)@.capability,
            (match old(self)@.capability {
                PlatformCapability::Desktop => final(self)@.native == old(self)@.native && r
                    == Err::<OpOutput, FcmError>(FcmError::UnsupportedPlatform),
                PlatformCapability::MobileStub => final(self)@.native == old(self)@.native && r
                    == Err::<OpOutput, FcmError>(FcmError::NativeImplementationUnavailable),
                PlatformCapability::MobileWithNativeSupport => final(self)@.native == native_step(
                    old(self)@.native,
                    op@,
                ) && result_view(r) == normalize_spec(
                    op@,
                    native_reply(old(self)@.native, op@),
                ),
            }),
    {
        match self.capability {
            PlatformCapability::Desktop => Err(FcmError::UnsupportedPlatform),
            PlatformCapability::MobileStub => Err(FcmError::NativeImplementationUnavailable),
            PlatformCapability::MobileWithNativeSupport => {
                let outcome = self.native.perform(&op);
                normalize(&op, outcome)
            },
        }
    }

    /// Get the FCM registration token. On the native path this always
    /// succeeds; an empty token is a valid success, not an error.
    pub fn get_token(&mut self) -> (r: Result<String, FcmError>)
        requires
            old(self).wf(),
        ensures
            final(self).wf(),
            final(self)@.capability == old(self)@.capability,
            (match old(self)@.capability {
                PlatformCapability::Desktop => final(self)@.native == old(self)@.native && r
                    == Err::<String, FcmError>(FcmError::UnsupportedPlatform),
                PlatformCapability::MobileStub => final(self)@.native == old(self)@.native && r
                    == Err::<String, FcmError>(FcmError::NativeImplementationUnavailable),
                PlatformCapability::MobileWithNativeSupport => final(self)@.native == native_step(
                    old(self)@.native,
                    OperationView::GetToken,
                ) && (match r {
                    Ok(t) => t@ == token_issued(old(self)@.native),
                    Err(_) => false,
                }),
            }),
    {
        match self.invoke(Operation::GetToken) {
            Ok(out) => match out {
                OpOutput::Token(t) => Ok(t),
                _ => {
                    proof {
                        assert(false);
                    }
                    Err(FcmError::UnsupportedPlatform)
                },
            },
            Err(e) => Err(e),
        }
    }

    /// Subscribe to a topic. Subscribing is idempotent: a second
    /// subscription to the same topic succeeds and changes nothing.
    pub fn subscribe_to_topic(&mut self, topic: String) -> (r: Result<(), FcmError>)
        requires
            old(self).wf(),
        ensures
            final(self).wf(),
            final(self)@.capability == old(self)@.capability,
            (match old(self)@.capability {
                PlatformCapability::Desktop => final(self)@.native == old(self)@.native && r
                    == Err::<(), FcmError>(FcmError::UnsupportedPlatform),
                PlatformCapability::MobileStub => final(self)@.native == old(self)@.native && r
                    == Err::<(), FcmError>(FcmError::NativeImplementationUnavailable),
                PlatformCapability::MobileWithNativeSupport => final(self)@.native == native_step(
                    old(self)@.native,
                    OperationView::SubscribeToTopic(topic@),
                ) && r == Ok::<(), FcmError>(()),
            }),
    {
        match self.invoke(Operation::SubscribeToTopic(topic)) {
            Ok(out) => match out {
                OpOutput::Done => Ok(()),
                _ => {
                    proof {
                        assert(false);
                    }
                    Err(FcmError::UnsupportedPlatform)
                },
            },
            Err(e) => Err(e),
        }
    }

    /// Unsubscribe from a topic. Unsubscribing when not subscribed
    /// succeeds and changes nothing.
    pub fn unsubscribe_from_topic(&mut self, topic: String) -> (r: Result<(), FcmError>)
        requires
            old(self).wf(),
        ensures
            final(self).wf(),
            final(self)@.capability == old(self)@.capability,
            (match old(self)@.capability {
                PlatformCapability::Desktop => final(self)@.native == old(self)@.native && r
                    == Err::<(), FcmError>(FcmError::UnsupportedPlatform),
                PlatformCapability::MobileStub => final(self)@.native == old(self)@.native && r
                    == Err::<(), FcmError>(FcmError::NativeImplementationUnavailable),
                PlatformCapability::MobileWithNativeSupport => final(self)@.native == native_step(
                    old(self)@.native,
                    OperationView::UnsubscribeFromTopic(topic@),
                ) && r == Ok::<(), FcmError>(()),
            }),
    {
        match self.invoke(Operation::UnsubscribeFromTopic(topic)) {
            Ok(out) => match out {
                OpOutput::Done => Ok(()),
                _ => {
                    proof {
                        assert(false);
                    }
                    Err(FcmError::UnsupportedPlatform)
                },
            },
            Err(e) => Err(e),
        }
    }

    /// Check whether OS-level notifications are enabled. Reads the native
    /// layer's permission state and changes nothing.
    pub fn are_notifications_enabled(&mut self) -> (r: Result<bool, FcmError>)
        requires
            old(self).wf(),
        ensures
            final(self).wf(),
            final(self)@.capability == old(self)@.capability,
            (match old(self)@.capability {
                PlatformCapability::Desktop => final(self)@.native == old(self)@.native && r
                    == Err::<bool, FcmError>(FcmError::UnsupportedPlatform),
                PlatformCapability::MobileStub => final(self)@.native == old(self)@.native && r
                    == Err::<bool, FcmError>(FcmError::NativeImplementationUnavailable),
                PlatformCapability::MobileWithNativeSupport => final(self)@.native == old(
                    self,
                )@.native && r == Ok::<bool, FcmError>(old(self)@.native.enabled),
            }),
    {
        match self.invoke(Operation::AreNotificationsEnabled) {
            Ok(out) => match out {
                OpOutput::Flag(b) => Ok(b),
                _ => {
                    proof {
                        assert(false);
                    }
                    Err(FcmError::UnsupportedPlatform)
                },
            },
            Err(e) => Err(e),
        }
    }

    /// Request notification permission from the OS. On the native path the
    /// answer is whatever the OS grants, and the permission state reflects
    /// that answer afterwards.
    pub fn request_notification_permission(&mut self) -> (r: Result<bool, FcmError>)
        requires
            old(self).wf(),
        ensures
            final(self).wf(),
            final(self)@.capability == old(self)@.capability,
            (match old(self)@.capability {
                PlatformCapability::Desktop => final(self)@.native == old(self)@.native && r
                    == Err::<bool, FcmError>(FcmError::UnsupportedPlatform),
                PlatformCapability::MobileStub => final(self)@.native == old(self)@.native && r
                    == Err::<bool, FcmError>(FcmError::NativeImplementationUnavailable),
                PlatformCapability::MobileWithNativeSupport => final(self)@.native == native_step(
                    old(self)@.native,
                    OperationView::RequestNotificationPermission,
                ) && r == Ok::<bool, FcmError>(old(self)@.native.grant),
            }),
    {
        match self.invoke(Operation::RequestNotificationPermission) {
            Ok(out) => match out {
                OpOutput::Flag(b) => Ok(b),
                _ => {
                    proof {
                        assert(false);
                    }
                    Err(FcmError::UnsupportedPlatform)
                },
            },
            Err(e) => Err(e),
        }
    }

    /// Delete the FCM registration token. A later `get_token` issues a
    /// fresh token, which may or may not equal the deleted one.
    pub fn delete_token(&mut self) -> (r: Result<(), FcmError>)
        requires
            old(self).wf(),
        ensures
            final(self).wf(),
            final(self)@.capability == old(self)@.capability,
            (match old(self)@.capability {
                PlatformCapability::Desktop => final(self)@.native == old(self)@.native && r
                    == Err::<(), FcmError>(FcmError::UnsupportedPlatform),
                PlatformCapability::MobileStub => final(self)@.native == old(self)@.native && r
                    == Err::<(), FcmError>(FcmError::NativeImplementationUnavailable),
                PlatformCapability::MobileWithNativeSupport => final(self)@.native == native_step(
                    old(self)@.native,
                    OperationView::DeleteToken,
                ) && r == Ok::<(), FcmError>(()),
            }),
    {
        match self.invoke(Operation::DeleteToken) {
            Ok(out) => match out {
                OpOutput::Done => Ok(()),
                _ => {
                    proof {
                        assert(false);
                    }
                    Err(FcmError::UnsupportedPlatform)
                },
            },
            Err(e) => Err(e),
        }
    }

    /// Get the last received push message. Absent is a valid success, not
    /// an error: the native path answers `None` when no message has been
    /// recorded, and changes nothing either way.
    pub fn get_last_message(&mut self) -> (r: Result<Option<Message>, FcmError>)
        requires
            old(self).wf(),
        ensures
            final(self).wf(),
            final(self)@.capability == old(self)@.capability,
            (match old(self)@.capability {
                PlatformCapability::Desktop => final(self)@.native == old(self)@.native && r
                    == Err::<Option<Message>, FcmError>(FcmError::UnsupportedPlatform),
                PlatformCapability::MobileStub => final(self)@.native == old(self)@.native && r
                    == Err::<Option<Message>, FcmError>(FcmError::NativeImplementationUnavailable),
                PlatformCapability::MobileWithNativeSupport => final(self)@.native == old(
                    self,
                )@.native && (match r {
                    Ok(m) => message_opt_view(m) == old(self)@.native.last,
                    Err(_) => false,
                }),
            }),
    {
        match self.invoke(Operation::GetLastMessage) {
            Ok(out) => match out {
                OpOutput::LastMessage(m) => Ok(m),
                _ => {
                    proof {
                        assert(false);
                    }
                    Err(FcmError::UnsupportedPlatform)
                },
            },
            Err(e) => Err(e),
        }
    }
}

} // verus!
