use fcm_bridge::bridge::{Fcm, PlatformCapability};
use fcm_bridge::error::FcmError;
use fcm_bridge::native::NativeModel;
use fcm_bridge::ops::Message;

fn native_bridge() -> Fcm {
    Fcm::new(PlatformCapability::MobileWithNativeSupport, NativeModel::new())
}

#[test]
fn desktop_rejects_every_operation() {
    let mut bridge = fcm_bridge::desktop::init();
    assert!(matches!(bridge.get_token(), Err(FcmError::UnsupportedPlatform)));
    assert!(matches!(
        bridge.subscribe_to_topic("news".to_string()),
        Err(FcmError::UnsupportedPlatform)
    ));
    assert!(matches!(
        bridge.unsubscribe_from_topic("news".to_string()),
        Err(FcmError::UnsupportedPlatform)
    ));
    assert!(matches!(bridge.are_notifications_enabled(), Err(FcmError::UnsupportedPlatform)));
    assert!(matches!(
        bridge.request_notification_permission(),
        Err(FcmError::UnsupportedPlatform)
    ));
    assert!(matches!(bridge.delete_token(), Err(FcmError::UnsupportedPlatform)));
    assert!(matches!(bridge.get_last_message(), Err(FcmError::UnsupportedPlatform)));
}

#[test]
fn mobile_stub_rejects_every_operation() {
    let mut bridge = fcm_bridge::mobile::init();
    assert!(matches!(bridge.get_token(), Err(FcmError::NativeImplementationUnavailable)));
    assert!(matches!(
        bridge.subscribe_to_topic("news".to_string()),
        Err(FcmError::NativeImplementationUnavailable)
    ));
    assert!(matches!(
        bridge.unsubscribe_from_topic("news".to_string()),
        Err(FcmError::NativeImplementationUnavailable)
    ));
    assert!(matches!(
        bridge.are_notifications_enabled(),
        Err(FcmError::NativeImplementationUnavailable)
    ));
    assert!(matches!(
        bridge.request_notification_permission(),
        Err(FcmError::NativeImplementationUnavailable)
    ));
    assert!(matches!(bridge.delete_token(), Err(FcmError::NativeImplementationUnavailable)));
    assert!(matches!(bridge.get_last_message(), Err(FcmError::NativeImplementationUnavailable)));
}

#[test]
fn desktop_subscribe_news_scenario() {
    let mut bridge = fcm_bridge::desktop::init();
    let r = bridge.subscribe_to_topic("news".to_string());
    match r {
        Err(e) => {
            assert!(matches!(e, FcmError::UnsupportedPlatform));
            assert_eq!(e.message(), "FCM is not supported on desktop");
        },
        Ok(_) => panic!("desktop build must reject"),
    }
    assert!(!bridge.is_subscribed(&"news".to_string()));
    assert_eq!(bridge.topic_count(), 0);
}

#[test]
fn mobile_stub_get_token_scenario() {
    let mut bridge = fcm_bridge::mobile::init();
    let r = bridge.get_token();
    match r {
        Err(e) => {
            assert!(matches!(e, FcmError::NativeImplementationUnavailable));
            assert_eq!(e.message(), "FCM mobile implementation not available");
        },
        Ok(_) => panic!("stub build must reject"),
    }
}

#[test]
fn subscribe_twice_is_idempotent() {
    let mut bridge = native_bridge();
    assert!(bridge.subscribe_to_topic("news".to_string()).is_ok());
    assert!(bridge.subscribe_to_topic("news".to_string()).is_ok());
    assert!(bridge.is_subscribed(&"news".to_string()));
    assert_eq!(bridge.topic_count(), 1);
}

#[test]
fn unsubscribe_when_not_subscribed_succeeds() {
    let mut bridge = native_bridge();
    assert!(bridge.unsubscribe_from_topic("news".to_string()).is_ok());
    assert_eq!(bridge.topic_count(), 0);
}

#[test]
fn subscribe_then_unsubscribe_removes_only_that_topic() {
    let mut bridge = native_bridge();
    assert!(bridge.subscribe_to_topic("news".to_string()).is_ok());
    assert!(bridge.subscribe_to_topic("sport".to_string()).is_ok());
    assert_eq!(bridge.topic_count(), 2);
    assert!(bridge.unsubscribe_from_topic("news".to_string()).is_ok());
    assert!(!bridge.is_subscribed(&"news".to_string()));
    assert!(bridge.is_subscribed(&"sport".to_string()));
    assert_eq!(bridge.topic_count(), 1);
}

#[test]
fn last_message_absent_when_none_recorded() {
    let mut bridge = native_bridge();
    let r = bridge.get_last_message();
    assert_eq!(r, Ok(None));
}

#[test]
fn last_message_returned_and_kept() {
    let mut model = NativeModel::new();
    model.record_message(Message::new("{\"title\":\"hi\"}".to_string()));
    let mut bridge = Fcm::new(PlatformCapability::MobileWithNativeSupport, model);
    let first = bridge.get_last_message();
    assert_eq!(first, Ok(Some(Message::new("{\"title\":\"hi\"}".to_string()))));
    let second = bridge.get_last_message();
    assert_eq!(second, Ok(Some(Message::new("{\"title\":\"hi\"}".to_string()))));
}

#[test]
fn delete_token_then_get_token_both_succeed() {
    let mut model = NativeModel::new();
    model.stage_token("token-alpha".to_string());
    model.stage_token("token-beta".to_string());
    let mut bridge = Fcm::new(PlatformCapability::MobileWithNativeSupport, model);
    assert_eq!(bridge.get_token(), Ok("token-beta".to_string()));
    assert_eq!(bridge.get_token(), Ok("token-beta".to_string()));
    assert!(bridge.delete_token().is_ok());
    assert_eq!(bridge.get_token(), Ok("token-alpha".to_string()));
}

#[test]
fn get_token_without_staged_tokens_issues_empty_token() {
    let mut bridge = native_bridge();
    assert_eq!(bridge.get_token(), Ok(String::new()));
}

#[test]
fn permission_flow_reflects_scripted_grant() {
    let mut model = NativeModel::new();
    model.set_permission_grant(true);
    let mut bridge = Fcm::new(PlatformCapability::MobileWithNativeSupport, model);
    assert_eq!(bridge.are_notifications_enabled(), Ok(false));
    assert_eq!(bridge.request_notification_permission(), Ok(true));
    assert_eq!(bridge.are_notifications_enabled(), Ok(true));
}

#[test]
fn permission_flow_reflects_scripted_denial() {
    let mut model = NativeModel::new();
    model.set_notifications_enabled(true);
    model.set_permission_grant(false);
    let mut bridge = Fcm::new(PlatformCapability::MobileWithNativeSupport, model);
    assert_eq!(bridge.are_notifications_enabled(), Ok(true));
    assert_eq!(bridge.request_notification_permission(), Ok(false));
    assert_eq!(bridge.are_notifications_enabled(), Ok(false));
}

#[test]
fn capability_is_fixed_per_build() {
    let bridge = fcm_bridge::desktop::init();
    assert_eq!(bridge.capability(), PlatformCapability::Desktop);
    let bridge = fcm_bridge::mobile::init();
    assert_eq!(bridge.capability(), PlatformCapability::MobileStub);
    let bridge = native_bridge();
    assert_eq!(bridge.capability(), PlatformCapability::MobileWithNativeSupport);
}
