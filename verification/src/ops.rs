//! The bridge's data model: the seven operations, the values that travel
//! over the channel to the native layer, and the typed outputs an operation
//! can produce.

use vstd::prelude::*;

verus! {

/// One invocation of the bridge, as the host hands it in: an operation name
/// together with its argument, if the operation takes one.
#[derive(Debug)]
pub enum Operation {
    /// Ask the native layer for the current registration token.
    GetToken,
    /// Subscribe the installation to a topic.
    SubscribeToTopic(String),
    /// Unsubscribe the installation from a topic.
    UnsubscribeFromTopic(String),
    /// Ask whether OS-level notifications are enabled.
    AreNotificationsEnabled,
    /// Ask the OS to grant notification permission, possibly via a prompt.
    RequestNotificationPermission,
    /// Invalidate the current registration token.
    DeleteToken,
    /// Read the last push message the native layer recorded, if any.
    GetLastMessage,
}

/// Mathematical image of an [`Operation`]: topics as character sequences.
pub enum OperationView {
    /// Image of [`Operation::GetToken`].
    GetToken,
    /// Image of [`Operation::SubscribeToTopic`].
    SubscribeToTopic(Seq<char>),
    /// Image of [`Operation::UnsubscribeFromTopic`].
    UnsubscribeFromTopic(Seq<char>),
    /// Image of [`Operation::AreNotificationsEnabled`].
    AreNotificationsEnabled,
    /// Image of [`Operation::RequestNotificationPermission`].
    RequestNotificationPermission,
    /// Image of [`Operation::DeleteToken`].
    DeleteToken,
    /// Image of [`Operation::GetLastMessage`].
    GetLastMessage,
}

impl View for Operation {
    type V = OperationView;

    open spec fn view(&self) -> OperationView {
        match self {
            Operation::GetToken => OperationView::GetToken,
            Operation::SubscribeToTopic(t) => OperationView::SubscribeToTopic(t@),
            Operation::UnsubscribeFromTopic(t) => OperationView::UnsubscribeFromTopic(t@),
            Operation::AreNotificationsEnabled => OperationView::AreNotificationsEnabled,
            Operation::RequestNotificationPermission => {
                OperationView::RequestNotificationPermission
            },
            Operation::DeleteToken => OperationView::DeleteToken,
            Operation::GetLastMessage => OperationView::GetLastMessage,
        }
    }
}

/// The last push message the native layer recorded: an opaque structured
/// document. The bridge never looks inside; it holds the document's
/// serialized text and passes it through unchanged.
#[derive(Debug, PartialEq, Eq)]
pub struct Message {
    /// The serialized text of the document.
    pub body: String,
}

impl View for Message {
    type V = Seq<char>;

    open spec fn view(&self) -> Seq<char> {
        self.body@
    }
}

impl Clone for Message {
    fn clone(&self) -> (r: Self)
        ensures
            r == *self,
    {
        Message { body: self.body.clone() }
    }
}

impl Message {
    /// Wrap the serialized text of a document.
    pub fn new(body: String) -> (r: Message)
        ensures
            r@ == body@,
    {
        Message { body }
    }
}

/// A value delivered over the channel from the native layer, classified by
/// the shapes the bridge has a use for. Anything else is [`ChannelValue::Other`].
#[derive(Debug, PartialEq, Eq)]
pub enum ChannelValue {
    /// The unit answer: the operation succeeded and carries no value.
    Null,
    /// A text answer, as a token-returning operation produces.
    Text(String),
    /// A boolean answer, as a permission query produces.
    Flag(bool),
    /// A structured document, as a message query produces.
    Document(Message),
    /// A value of any other shape; no operation of the bridge expects one.
    Other,
}

/// Mathematical image of a [`ChannelValue`].
pub enum ValueView {
    /// Image of [`ChannelValue::Null`].
    Null,
    /// Image of [`ChannelValue::Text`].
    Text(Seq<char>),
    /// Image of [`ChannelValue::Flag`].
    Flag(bool),
    /// Image of [`ChannelValue::Document`].
    Document(Seq<char>),
    /// Image of [`ChannelValue::Other`].
    Other,
}

impl View for ChannelValue {
    type V = ValueView;

    open spec fn view(&self) -> ValueView {
        match self {
            ChannelValue::Null => ValueView::Null,
            ChannelValue::Text(t) => ValueView::Text(t@),
            ChannelValue::Flag(b) => ValueView::Flag(*b),
            ChannelValue::Document(m) => ValueView::Document(m@),
            ChannelValue::Other => ValueView::Other,
        }
    }
}

/// How one forwarded call over the channel ended: a delivered value, an
/// error the native layer reported, or a failure of the channel itself.
#[derive(Debug, PartialEq, Eq)]
pub enum ChannelOutcome {
    /// The native layer answered with a value.
    Delivered(ChannelValue),
    /// The native layer reported an error with this message.
    NativeError(String),
    /// The channel itself failed with this message.
    ChannelFailure(String),
}

/// Mathematical image of a [`ChannelOutcome`].
pub enum OutcomeView {
    /// Image of [`ChannelOutcome::Delivered`].
    Delivered(ValueView),
    /// Image of [`ChannelOutcome::NativeError`].
    NativeError(Seq<char>),
    /// Image of [`ChannelOutcome::ChannelFailure`].
    ChannelFailure(Seq<char>),
}

impl View for ChannelOutcome {
    type V = OutcomeView;

    open spec fn view(&self) -> OutcomeView {
        match self {
            ChannelOutcome::Delivered(v) => OutcomeView::Delivered(v@),
            ChannelOutcome::NativeError(m) => OutcomeView::NativeError(m@),
            ChannelOutcome::ChannelFailure(m) => OutcomeView::ChannelFailure(m@),
        }
    }
}

/// The typed success value of one operation, over the uniform invocation
/// surface of the bridge.
#[derive(Debug, PartialEq, Eq)]
pub enum OpOutput {
    /// A registration token; an empty token is a valid success.
    Token(String),
    /// The operation succeeded and carries no value.
    Done,
    /// A boolean answer to a permission query.
    Flag(bool),
    /// The last recorded message, or absent if none was recorded.
    LastMessage(Option<Message>),
}

/// Mathematical image of an [`OpOutput`].
pub enum OutputView {
    /// Image of [`OpOutput::Token`].
    Token(Seq<char>),
    /// Image of [`OpOutput::Done`].
    Done,
    /// Image of [`OpOutput::Flag`].
    Flag(bool),
    /// Image of [`OpOutput::LastMessage`].
    LastMessage(Option<Seq<char>>),
}

/// Mathematical image of an optional message: its serialized text, if any.
pub open spec fn message_opt_view(m: Option<Message>) -> Option<Seq<char>> {
    match m {
        Some(msg) => Some(msg@),
        None => None,
    }
}

impl View for OpOutput {
    type V = OutputView;

    open spec fn view(&self) -> OutputView {
        match self {
            OpOutput::Token(t) => OutputView::Token(t@),
            OpOutput::Done => OutputView::Done,
            OpOutput::Flag(b) => OutputView::Flag(*b),
            OpOutput::LastMessage(m) => OutputView::LastMessage(message_opt_view(*m)),
        }
    }
}

} // verus!
