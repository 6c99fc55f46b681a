use maa_sys::Assistant;
use maa_sys::AssistantBuilder;
use maa_sys::Connection;
use maa_sys::Error;
use maa_sys::Lifecycle;
use maa_sys::Message;
use maa_sys::TaskItem;
use maa_sys::assistant::create_outcome;
use maa_sys::assistant::library_file_name;
use maa_sys::assistant::load_resource_outcome;
use maa_sys::assistant::version_from_bytes;
use maa_sys::task::FightTask;
use maa_sys::task::StartUpTask;

fn start_up_item() -> TaskItem {
    TaskItem::StartUp(
        StartUpTask::builder()
            .enable(true)
            .client_type("Official")
            .start_game_enabled(true)
            .account_name("123****4567")
            .build(),
    )
}

#[test]
fn append_registers_only_positive_ids() {
    let mut a = Assistant::new();
    assert_eq!(a.append_task(start_up_item(), 7), Ok(7));
    let held = a.get_task(7).unwrap();
    assert_eq!(held.task_type(), "StartUp");

    let before = a.get_task(9).is_some();
    assert!(!before);
    assert_eq!(a.append_task(start_up_item(), 0), Err(Error::TaskAppendFailed));
    assert!(a.get_task(0).is_none());
    assert_eq!(a.append_task(start_up_item(), -3), Err(Error::TaskAppendFailed));
    assert!(a.get_task(-3).is_none());
}

#[test]
fn append_replaces_an_existing_id() {
    let mut a = Assistant::new();
    assert_eq!(a.append_task(start_up_item(), 1), Ok(1));
    let fight = TaskItem::Fight(FightTask::builder().stage("1-7").build());
    assert_eq!(a.append_task(fight, 1), Ok(1));
    assert_eq!(a.get_task(1).unwrap().task_type(), "Fight");
}

#[test]
fn set_task_params_with_unknown_id_inserts_nothing() {
    let mut a = Assistant::new();
    assert_eq!(a.append_task(start_up_item(), 2), Ok(2));
    let fight = TaskItem::Fight(FightTask::builder().stage("CE-5").build());
    // The native call was still attempted and accepted; only the local
    // registry entry is skipped.
    assert_eq!(a.set_task_params(99, fight, true), Ok(()));
    assert!(a.get_task(99).is_none());
    assert_eq!(a.get_task(2).unwrap().task_type(), "StartUp");
}

#[test]
fn set_task_params_replaces_a_known_id() {
    let mut a = Assistant::new();
    assert_eq!(a.append_task(start_up_item(), 2), Ok(2));
    let fight = TaskItem::Fight(FightTask::builder().stage("CE-5").build());
    assert_eq!(a.set_task_params(2, fight, true), Ok(()));
    assert_eq!(a.get_task(2).unwrap().task_type(), "Fight");

    let depot = TaskItem::Fight(FightTask::builder().build());
    assert_eq!(a.set_task_params(2, depot, false), Err(Error::TaskParamsSetFailed));
    assert_eq!(a.get_task(2).unwrap().task_type(), "Fight");
}

#[test]
fn tasks_list_keeps_engine_order_and_drops_strangers() {
    let mut a = Assistant::new();
    assert_eq!(a.append_task(start_up_item(), 5), Ok(5));
    assert_eq!(a.append_task(start_up_item(), 3), Ok(3));
    let engine_ids = vec![3, 42, 5, 3];
    assert_eq!(a.get_tasks_list(&engine_ids), vec![3, 5, 3]);
}

#[test]
fn lifecycle_follows_the_engine() {
    let mut a = Assistant::new();
    assert_eq!(a.state, Lifecycle::Created);

    assert_eq!(
        a.connect(&Connection::adb("adb", "192.168.20.29:44847"), false),
        Err(Error::ConnectFailed)
    );
    assert_eq!(a.state, Lifecycle::Created);
    assert_eq!(a.target, None);

    assert_eq!(a.connect(&Connection::adb("adb", "192.168.20.29:44847"), true), Ok(()));
    assert_eq!(a.state, Lifecycle::Connected);
    assert_eq!(a.target, Some("192.168.20.29:44847".to_string()));

    assert_eq!(a.start(false), Err(Error::StartFailed));
    assert_eq!(a.start(true), Ok(()));
    assert_eq!(a.state, Lifecycle::Running);

    a.on_message(Message::TaskChainCompleted);
    assert_eq!(a.state, Lifecycle::Running);
    a.on_message(Message::AllTasksCompleted);
    assert_eq!(a.state, Lifecycle::Connected);

    assert_eq!(a.start(true), Ok(()));
    assert_eq!(a.stop(true), Ok(()));
    assert_eq!(a.state, Lifecycle::Stopped);
}

#[test]
fn thin_calls_map_their_errors() {
    let mut a = Assistant::new();
    assert_eq!(a.click(10, 20, true), Ok(()));
    assert_eq!(a.click(10, 20, false), Err(Error::ClickFailed));
    assert_eq!(a.capture_screenshot(true), Ok(()));
    assert_eq!(a.capture_screenshot(false), Err(Error::CaptureFailed));
    assert_eq!(a.back_to_home(false), Err(Error::BackToHomeFailed));
    assert_eq!(
        a.set_instance_option(maa_sys::InstanceOptionKey::TouchMode, "adb", false),
        Err(Error::SetInstanceOptionFailed)
    );
    assert_eq!(
        a.set_static_option(maa_sys::StaticOptionKey::CpuOCR, "1", false),
        Err(Error::SetStaticOptionFailed)
    );
}

#[test]
fn queries_normalise_failure_to_false() {
    let a = Assistant::new();
    assert!(a.is_running(Some(1)));
    assert!(!a.is_running(Some(0)));
    assert!(!a.is_running(None));
    assert!(a.is_connected(Some(-1)));
    assert!(!a.is_connected(None));
}

#[test]
fn destruction_is_exactly_once() {
    // An assistant that was never connected still owes exactly one native
    // destroy call, even on an early error path.
    let mut native_destroy_calls = 0;
    let mut a = Assistant::new();
    let _ = a.connect(&Connection::adb("adb", "1.2.3.4:5555"), false);
    if a.destroy() {
        native_destroy_calls += 1;
    }
    if a.destroy() {
        native_destroy_calls += 1;
    }
    assert_eq!(native_destroy_calls, 1);
    assert_eq!(a.state, Lifecycle::Destroyed);
}

#[test]
fn builder_gathers_paths_in_order() {
    let both = AssistantBuilder::new()
        .with_library("/opt/engine")
        .with_resource("/opt/engine/resource")
        .init_paths();
    assert_eq!(
        both,
        Ok(("/opt/engine".to_string(), "/opt/engine/resource".to_string()))
    );

    assert_eq!(
        Assistant::registry().with_resource("/r").init_paths(),
        Err(Error::LibraryLoadFailed)
    );
    assert_eq!(
        Assistant::registry().with_library("/l").init_paths(),
        Err(Error::ResourceLoadFailed)
    );
}

#[test]
fn library_names_follow_the_platform() {
    assert_eq!(library_file_name("macos"), Ok("libMaaCore.dylib"));
    assert_eq!(library_file_name("windows"), Ok("MaaCore.dll"));
    assert_eq!(library_file_name("linux"), Ok("libMaaCore.so"));
    assert_eq!(library_file_name("redox"), Err(Error::LibraryLoadFailed));
}

#[test]
fn resource_outcome_interprets_the_return_code() {
    assert_eq!(load_resource_outcome(1), Ok(()));
    assert_eq!(load_resource_outcome(-7), Ok(()));
    assert_eq!(load_resource_outcome(0), Err(Error::ResourceLoadFailed));
}

#[test]
fn version_decoding_is_strict() {
    let good: Vec<u8> = b"v4.28.0".to_vec();
    assert_eq!(version_from_bytes(&good), Ok("v4.28.0".to_string()));
    let bad: Vec<u8> = vec![0xff, 0xfe];
    assert_eq!(version_from_bytes(&bad), Err(Error::Unknown));
}

#[test]
fn task_item_serialises_like_its_task() {
    let item = start_up_item();
    assert_eq!(item.task_type(), "StartUp");
    assert_eq!(item.task_name(), "开始唤醒");
    assert_eq!(
        item.to_json(),
        r#"{"enable":true,"client_type":"Official","start_game_enabled":true,"account_name":"123****4567"}"#
    );
}

#[test]
fn a_null_handle_is_a_creation_failure() {
    assert_eq!(create_outcome(true), Ok(()));
    assert_eq!(create_outcome(false), Err(Error::CreateFailed));
}
