//! The laws the bridge's native path obeys, stated over the model's
//! transition and reply functions and proved once for all states.
//!
//! Rejection on the desktop and mobile-stub paths is stated, for every
//! operation, directly in the contracts of [`crate::bridge::Fcm::invoke`]
//! and of the seven operation methods: those paths return their one fixed
//! error and leave the native layer untouched.

use vstd::prelude::*;

use crate::bridge::normalize_spec;
use crate::error::ErrorView;
use crate::native::{native_reply, native_step, token_issued, NativeView};
use crate::ops::{OperationView, OutputView};

verus! {

/// Subscribing to a topic is idempotent: a second subscription to the same
/// topic succeeds just like the first and leaves the native layer exactly
/// as the first left it.
pub proof fn lemma_subscribe_idempotent(v: NativeView, t: Seq<char>)
    ensures
        native_step(
            native_step(v, OperationView::SubscribeToTopic(t)),
            OperationView::SubscribeToTopic(t),
        ) == native_step(v, OperationView::SubscribeToTopic(t)),
        normalize_spec(
            OperationView::SubscribeToTopic(t),
            native_reply(v, OperationView::SubscribeToTopic(t)),
        ) == Ok::<OutputView, ErrorView>(OutputView::Done),
        normalize_spec(
            OperationView::SubscribeToTopic(t),
            native_reply(
                native_step(v, OperationView::SubscribeToTopic(t)),
                OperationView::SubscribeToTopic(t),
            ),
        ) == Ok::<OutputView, ErrorView>(OutputView::Done),
{
    let once = native_step(v, OperationView::SubscribeToTopic(t));
    assert(once.topics.insert(t) =~= v.topics.insert(t));
    assert(native_step(once, OperationView::SubscribeToTopic(t)) =~= once);
}

/// Unsubscribing from a topic the installation is not subscribed to
/// succeeds and changes nothing.
pub proof fn lemma_unsubscribe_not_subscribed(v: NativeView, t: Seq<char>)
    requires
        !v.topics.contains(t),
    ensures
        native_step(v, OperationView::UnsubscribeFromTopic(t)) == v,
        normalize_spec(
            OperationView::UnsubscribeFromTopic(t),
            native_reply(v, OperationView::UnsubscribeFromTopic(t)),
        ) == Ok::<OutputView, ErrorView>(OutputView::Done),
{
    assert(v.topics.remove(t) =~= v.topics);
    assert(native_step(v, OperationView::UnsubscribeFromTopic(t)) =~= v);
}

/// When no message has been recorded, reading the last message succeeds
/// with the answer "absent" — it is not an error — and changes nothing.
pub proof fn lemma_last_message_absent(v: NativeView)
    requires
        v.last is None,
    ensures
        native_step(v, OperationView::GetLastMessage) == v,
        normalize_spec(
            OperationView::GetLastMessage,
            native_reply(v, OperationView::GetLastMessage),
        ) == Ok::<OutputView, ErrorView>(OutputView::LastMessage(None)),
{
}

/// Deleting the token and then asking for a token both succeed, from any
/// state. The token the second call returns is whatever the native layer
/// issues next, which may or may not equal the token issued before the
/// deletion.
pub proof fn lemma_delete_then_get_token(v: NativeView)
    ensures
        normalize_spec(
            OperationView::DeleteToken,
            native_reply(v, OperationView::DeleteToken),
        ) == Ok::<OutputView, ErrorView>(OutputView::Done),
        normalize_spec(
            OperationView::GetToken,
            native_reply(native_step(v, OperationView::DeleteToken), OperationView::GetToken),
        ) == Ok::<OutputView, ErrorView>(
            OutputView::Token(token_issued(native_step(v, OperationView::DeleteToken))),
        ),
{
}

} // verus!
