use fcm_bridge::bridge::{normalize, Fcm, PlatformCapability};
use fcm_bridge::error::FcmError;
use fcm_bridge::native::NativeModel;
use fcm_bridge::ops::{ChannelOutcome, ChannelValue, Message, OpOutput, Operation};

#[test]
fn native_error_message_passes_through_verbatim() {
    let r = normalize(
        &Operation::GetToken,
        ChannelOutcome::NativeError("fis authentication failed".to_string()),
    );
    match r {
        Err(FcmError::NativeCallFailed(m)) => assert_eq!(m, "fis authentication failed"),
        other => panic!("expected a native-call failure, got {:?}", other),
    }
}

#[test]
fn channel_failure_message_passes_through_verbatim() {
    let r = normalize(
        &Operation::SubscribeToTopic("news".to_string()),
        ChannelOutcome::ChannelFailure("plugin channel closed".to_string()),
    );
    match r {
        Err(FcmError::TransportFailed(m)) => assert_eq!(m, "plugin channel closed"),
        other => panic!("expected a transport failure, got {:?}", other),
    }
}

#[test]
fn unexpected_shape_is_a_transport_failure() {
    let r = normalize(&Operation::GetToken, ChannelOutcome::Delivered(ChannelValue::Null));
    match r {
        Err(FcmError::TransportFailed(m)) => {
            assert_eq!(m, "unexpected response shape from native layer")
        },
        other => panic!("expected a transport failure, got {:?}", other),
    }
    let r = normalize(
        &Operation::GetLastMessage,
        ChannelOutcome::Delivered(ChannelValue::Other),
    );
    assert!(matches!(r, Err(FcmError::TransportFailed(_))));
    let r = normalize(
        &Operation::DeleteToken,
        ChannelOutcome::Delivered(ChannelValue::Flag(true)),
    );
    assert!(matches!(r, Err(FcmError::TransportFailed(_))));
}

#[test]
fn expected_shapes_succeed() {
    let r = normalize(
        &Operation::GetToken,
        ChannelOutcome::Delivered(ChannelValue::Text("tok".to_string())),
    );
    assert_eq!(r, Ok(OpOutput::Token("tok".to_string())));
    let r = normalize(
        &Operation::UnsubscribeFromTopic("news".to_string()),
        ChannelOutcome::Delivered(ChannelValue::Null),
    );
    assert_eq!(r, Ok(OpOutput::Done));
    let r = normalize(
        &Operation::AreNotificationsEnabled,
        ChannelOutcome::Delivered(ChannelValue::Flag(true)),
    );
    assert_eq!(r, Ok(OpOutput::Flag(true)));
    let r = normalize(
        &Operation::GetLastMessage,
        ChannelOutcome::Delivered(ChannelValue::Document(Message::new("{}".to_string()))),
    );
    assert_eq!(r, Ok(OpOutput::LastMessage(Some(Message::new("{}".to_string())))));
    let r = normalize(&Operation::GetLastMessage, ChannelOutcome::Delivered(ChannelValue::Null));
    assert_eq!(r, Ok(OpOutput::LastMessage(None)));
}

#[test]
fn error_messages_are_fixed_for_platform_rejections() {
    assert_eq!(FcmError::UnsupportedPlatform.message(), "FCM is not supported on desktop");
    assert_eq!(
        FcmError::NativeImplementationUnavailable.message(),
        "FCM mobile implementation not available"
    );
    assert_eq!(FcmError::NativeCallFailed("boom".to_string()).message(), "boom");
    assert_eq!(FcmError::TransportFailed("lost".to_string()).message(), "lost");
}

#[test]
fn invoke_surface_matches_named_operations() {
    let mut bridge = Fcm::new(PlatformCapability::MobileWithNativeSupport, NativeModel::new());
    let r = bridge.invoke(Operation::SubscribeToTopic("news".to_string()));
    assert_eq!(r, Ok(OpOutput::Done));
    let r = bridge.invoke(Operation::AreNotificationsEnabled);
    assert_eq!(r, Ok(OpOutput::Flag(false)));
    let r = bridge.invoke(Operation::GetToken);
    assert_eq!(r, Ok(OpOutput::Token(String::new())));
    let mut desktop = fcm_bridge::desktop::init();
    let r = desktop.invoke(Operation::GetLastMessage);
    assert_eq!(r, Err(FcmError::UnsupportedPlatform));
}
