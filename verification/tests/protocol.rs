use maa_sys::AsstMsg;
use maa_sys::Connection;
use maa_sys::Error;
use maa_sys::InstanceOptionKey;
use maa_sys::Message;
use maa_sys::StaticOptionKey;

#[test]
fn test_covert() {
    let input = AsstMsg::try_from(0).unwrap();
    assert_eq!(input, AsstMsg::InternalError)
}

#[test]
fn strict_decoding_rejects_unknown_codes() {
    assert_eq!(AsstMsg::try_from(10001), Ok(AsstMsg::TaskChainStart));
    assert_eq!(AsstMsg::try_from(20003), Ok(AsstMsg::SubTaskExtraInfo));
    assert_eq!(AsstMsg::try_from(6), Err(()));
    assert_eq!(AsstMsg::try_from(10004), Err(()));
}

#[test]
fn message_decoding_is_total() {
    assert_eq!(Message::from(10001), Message::TaskChainStart);
    assert_eq!(Message::from(999999), Message::InternalError);
}

#[test]
fn message_codes_round_trip() {
    let all = [
        Message::InternalError,
        Message::InitFailed,
        Message::ConnectionInfo,
        Message::AllTasksCompleted,
        Message::AsyncCallInfo,
        Message::Destroyed,
        Message::TaskChainError,
        Message::TaskChainStart,
        Message::TaskChainCompleted,
        Message::TaskChainExtraInfo,
        Message::TaskChainStopped,
        Message::SubTaskError,
        Message::SubTaskStart,
        Message::SubTaskCompleted,
        Message::SubTaskExtraInfo,
        Message::SubTaskStopped,
    ];
    for m in all {
        assert_eq!(Message::from(m.code()), m);
    }
    assert_eq!(Message::TaskChainStart.code(), 10001);
    assert_eq!(Message::SubTaskStopped.code(), 20004);
}

#[test]
fn connection_accessors() {
    let adb = Connection::adb("adb", "1.2.3.4:5555");
    assert_eq!(adb.adb_path(), Some("adb".to_string()));
    assert_eq!(adb.address(), Some("1.2.3.4:5555".to_string()));

    let native = Connection::playcover("1.2.3.4:5555");
    assert_eq!(native.adb_path(), None);
    assert_eq!(native.address(), Some("1.2.3.4:5555".to_string()));
}

#[test]
fn option_keys_carry_their_codes() {
    assert_eq!(InstanceOptionKey::Invalid.code(), 0);
    assert_eq!(InstanceOptionKey::MinitouchEnabled.code(), 1);
    assert_eq!(InstanceOptionKey::TouchMode.code(), 2);
    assert_eq!(InstanceOptionKey::DeploymentWithPause.code(), 3);
    assert_eq!(InstanceOptionKey::AdbLiteEnabled.code(), 4);
    assert_eq!(InstanceOptionKey::KillAdbOnExit.code(), 5);
    assert_eq!(StaticOptionKey::Invalid.code(), 0);
    assert_eq!(StaticOptionKey::CpuOCR.code(), 1);
    assert_eq!(StaticOptionKey::GpuOCR.code(), 2);
}

#[test]
fn error_messages_name_the_failure() {
    assert_eq!(Error::ConnectFailed.message(), "connect failed");
    assert_eq!(Error::ContentTooLarge(32 * 1024 * 1024).message(), "content too large");
    assert_eq!(Error::Unknown.message(), "unknown error");
}
