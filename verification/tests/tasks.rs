use maa_sys::task::AwardTask;
use maa_sys::task::CloseDownTask;
use maa_sys::task::CopilotTask;
use maa_sys::task::CustomTask;
use maa_sys::task::DepotTask;
use maa_sys::task::FightTask;
use maa_sys::task::InfrastTask;
use maa_sys::task::MallTask;
use maa_sys::task::OperBoxTask;
use maa_sys::task::RecruitTask;
use maa_sys::task::ReclamationTask;
use maa_sys::task::RoguelikeTask;
use maa_sys::task::SSSCopilotTask;
use maa_sys::task::SingleStepTask;
use maa_sys::task::StartUpTask;
use maa_sys::task::TaskError;
use maa_sys::task::VideoRecognitionTask;
use maa_sys::json::Scalar;

#[test]
fn test_start_up_task_builder() {
    let task = StartUpTask::builder()
        .enable(true)
        .client_type("Official")
        .start_game_enabled(true)
        .account_name("123****4567")
        .build();

    assert_eq!(Some(true), task.enable, "task.enable");
    assert_eq!(Some("Official".to_string()), task.client_type, "task.client_type");
    assert_eq!(Some(true), task.start_game_enabled, "task.start_game_enabled");
    assert_eq!(
        Some("123****4567".to_string()),
        task.account_name,
        "task.account_name"
    );

    assert_eq!(
        r#"{"enable":true,"client_type":"Official","start_game_enabled":true,"account_name":"123****4567"}"#,
        task.to_json(),
        "task.to_json"
    );

    let default_task = StartUpTask::builder().build();
    assert_eq!(None, default_task.enable, "default_task.enable");
    assert_eq!(None, default_task.client_type, "default_task.client_type");
    assert_eq!(
        None, default_task.start_game_enabled,
        "default_task.start_game_enabled"
    );
    assert_eq!(None, default_task.account_name, "default_task.account_name");

    assert_eq!(r#"{}"#, default_task.to_json(), "default_task.to_json");
}

#[test]
fn task_test_start_up_task_builder() {
    let task = StartUpTask::builder()
        .enable(true)
        .client_type("Official")
        .start_game_enabled(true)
        .account_name("123****4567")
        .build();

    assert_eq!(Some(true), task.enable, "task.enable");
    assert_eq!(Some("Official".to_string()), task.client_type, "task.client_type");
    assert_eq!(Some(true), task.start_game_enabled, "task.start_game_enabled");
    assert_eq!(
        Some("123****4567".to_string()),
        task.account_name,
        "task.account_name"
    );

    assert_eq!(
        r#"{"enable":true,"client_type":"Official","start_game_enabled":true,"account_name":"123****4567"}"#,
        task.to_json(),
        "task.to_json"
    );

    let default_task = StartUpTask::builder().build();
    assert_eq!(None, default_task.enable, "default_task.enable");
    assert_eq!(None, default_task.client_type, "default_task.client_type");
    assert_eq!(
        None, default_task.start_game_enabled,
        "default_task.start_game_enabled"
    );
    assert_eq!(None, default_task.account_name, "default_task.account_name");

    assert_eq!(r#"{}"#, default_task.to_json(), "default_task.to_json");
}

#[test]
fn test_recruit_task_builder() {
    let task = RecruitTask::builder()
        .enable(true)
        .select(vec![1, 2, 3])
        .confirm(vec![4, 5, 6])
        .build()
        .unwrap();

    assert_eq!(Some(true), task.enable, "task.enable");

    assert_eq!(
        r#"{"enable":true,"select":[1,2,3],"confirm":[4,5,6]}"#,
        task.to_json(),
        "task.to_json"
    );

    // A required field left unset refuses to build.
    let result = RecruitTask::builder().enable(true).build();
    assert!(result.is_err(), "a missing required field must refuse to build");
    assert_eq!(result.unwrap_err(), TaskError::MissingField);
}

#[test]
fn task_test_recruit_task_builder() {
    let task = RecruitTask::builder()
        .enable(true)
        .select(vec![1, 2, 3])
        .confirm(vec![4, 5, 6])
        .build()
        .unwrap();

    assert_eq!(Some(true), task.enable, "task.enable");

    assert_eq!(
        r#"{"enable":true,"select":[1,2,3],"confirm":[4,5,6]}"#,
        task.to_json(),
        "task.to_json"
    );

    let result = RecruitTask::builder().enable(true).build();
    assert!(result.is_err(), "a missing required field must refuse to build");
}

#[test]
fn test_from_json() {
    let json = r#"{"enable":true,"select":[1,2,3],"confirm":[4,5,6]}"#;
    let task = RecruitTask::from_json(json).unwrap();
    assert_eq!(Some(true), task.enable, "task.enable");
    assert_eq!(vec![1, 2, 3], task.select, "task.select");
    assert_eq!(vec![4, 5, 6], task.confirm, "task.confirm");
}

#[test]
fn test_task_name() {
    assert_eq!("开始唤醒", StartUpTask::builder().build().task_name());
}

#[test]
fn test() {}

#[test]
fn task_types_are_stable() {
    assert_eq!("StartUp", StartUpTask::new().task_type());
    assert_eq!("CloseDown", CloseDownTask::new().task_type());
    assert_eq!("Fight", FightTask::new().task_type());
    assert_eq!("Mall", MallTask::new().task_type());
    assert_eq!("Award", AwardTask::new().task_type());
    assert_eq!("Roguelike", RoguelikeTask::new().task_type());
    assert_eq!("Copilot", CopilotTask::new().task_type());
    assert_eq!("SSSCopilot", SSSCopilotTask::new().task_type());
    assert_eq!("Depot", DepotTask::new().task_type());
    assert_eq!("OperBox", OperBoxTask::new().task_type());
    assert_eq!("Reclamation", ReclamationTask::new().task_type());
}

#[test]
fn round_trip_start_up() {
    let t = StartUpTask::builder()
        .enable(true)
        .client_type("Official")
        .start_game_enabled(false)
        .account_name("123****4567")
        .build();
    let back = StartUpTask::from_json(&t.to_json()).unwrap();
    assert_eq!(t, back);
}

#[test]
fn round_trip_close_down() {
    let t = CloseDownTask::builder().enable(false).client_type("Bilibili").build();
    assert_eq!(t, CloseDownTask::from_json(&t.to_json()).unwrap());
}

#[test]
fn round_trip_fight() {
    let t = FightTask::builder()
        .enable(true)
        .stage("1-7")
        .medicine(5)
        .times(10)
        .series(-1)
        .drops(vec![("30012".to_string(), 100)])
        .report_to_penguin(true)
        .build();
    assert_eq!(t, FightTask::from_json(&t.to_json()).unwrap());
}

#[test]
fn round_trip_recruit() {
    let t = RecruitTask::builder()
        .enable(true)
        .refresh(false)
        .select(vec![3, 4])
        .confirm(vec![3, 4, 5])
        .first_tags(vec!["新手".to_string()])
        .times(4)
        .recruitment_time(vec![("3".to_string(), 540)])
        .build()
        .unwrap();
    assert_eq!(t, RecruitTask::from_json(&t.to_json()).unwrap());
}

#[test]
fn round_trip_infrast() {
    let t = InfrastTask::builder()
        .enable(true)
        .mode(0)
        .facility(vec!["Mfg".to_string(), "Trade".to_string()])
        .drones("Money")
        .threshold(300)
        .dorm_trust_enabled(true)
        .build()
        .unwrap();
    let text = t.to_json();
    assert!(text.contains("\"threshold\":0.300"), "threshold written as a decimal: {}", text);
    assert_eq!(t, InfrastTask::from_json(&text).unwrap());
}

#[test]
fn round_trip_mall() {
    let t = MallTask::builder()
        .enable(true)
        .shopping(true)
        .buy_first(vec!["龙门币".to_string()])
        .blacklist(vec!["家具".to_string()])
        .build();
    assert_eq!(t, MallTask::from_json(&t.to_json()).unwrap());
}

#[test]
fn round_trip_award() {
    let t = AwardTask::builder().enable(true).award(true).mail(false).build();
    assert_eq!(t, AwardTask::from_json(&t.to_json()).unwrap());
}

#[test]
fn round_trip_roguelike() {
    let t = RoguelikeTask::builder()
        .enable(true)
        .theme("Phantom")
        .mode(0)
        .squad("指挥分队")
        .starts_count(100)
        .investment_enabled(true)
        .start_foldartal_list(vec!["A".to_string(), "B".to_string()])
        .collectible_mode_start_list(vec![("hot_water".to_string(), true)])
        .build();
    assert_eq!(t, RoguelikeTask::from_json(&t.to_json()).unwrap());
}

#[test]
fn round_trip_copilot_kinds() {
    let c = CopilotTask::builder().enable(true).filename("ops/plan.json").formation(true).build();
    assert_eq!(c, CopilotTask::from_json(&c.to_json()).unwrap());
    let s = SSSCopilotTask::builder().enable(true).filename("sss.json").loop_times(3).build();
    assert_eq!(s, SSSCopilotTask::from_json(&s.to_json()).unwrap());
}

#[test]
fn round_trip_scan_kinds() {
    let d = DepotTask::builder().enable(true).build();
    assert_eq!(d, DepotTask::from_json(&d.to_json()).unwrap());
    let o = OperBoxTask::builder().enable(false).build();
    assert_eq!(o, OperBoxTask::from_json(&o.to_json()).unwrap());
}

#[test]
fn round_trip_reclamation() {
    let t = ReclamationTask::builder()
        .enable(true)
        .theme("Fire")
        .mode(1)
        .tools_to_craft(vec!["荧光棒".to_string()])
        .num_craft_batches(16)
        .build();
    assert_eq!(t, ReclamationTask::from_json(&t.to_json()).unwrap());
}

#[test]
fn round_trip_custom() {
    let t = CustomTask::builder()
        .enable(true)
        .task_names(vec!["StartUp".to_string(), "Fight".to_string()])
        .build()
        .unwrap();
    assert_eq!(
        r#"{"enable":true,"task_names":["StartUp","Fight"]}"#,
        t.to_json()
    );
    assert_eq!(t, CustomTask::from_json(&t.to_json()).unwrap());
}

#[test]
fn round_trip_single_step() {
    let t = SingleStepTask::builder()
        .enable(true)
        .task_type("copilot")
        .subtask("stage")
        .details(vec![("stage".to_string(), Scalar::Str("1-7".to_string()))])
        .build()
        .unwrap();
    assert_eq!(t, SingleStepTask::from_json(&t.to_json()).unwrap());
}

#[test]
fn round_trip_video_recognition() {
    let t = VideoRecognitionTask::builder()
        .enable(true)
        .filename("path/to/video.mp4")
        .build()
        .unwrap();
    assert_eq!(
        r#"{"enable":true,"filename":"path/to/video.mp4"}"#,
        t.to_json()
    );
    assert_eq!(t, VideoRecognitionTask::from_json(&t.to_json()).unwrap());
}

#[test]
fn unset_fields_never_appear() {
    let t = FightTask::builder().medicine(2).build();
    let text = t.to_json();
    assert_eq!(r#"{"medicine":2}"#, text);
    assert!(!text.contains("enable"));
    assert!(!text.contains("stage"));
}

#[test]
fn round_trip_with_escapes() {
    let t = StartUpTask::builder().account_name("a\"b\\c\nd").build();
    let text = t.to_json();
    assert_eq!(r#"{"account_name":"a\"b\\c\u000ad"}"#, text);
    assert_eq!(t, StartUpTask::from_json(&text).unwrap());
}

#[test]
fn from_json_rejects_malformed_text() {
    assert_eq!(
        StartUpTask::from_json("not json"),
        Err(TaskError::NotCanonical)
    );
    assert_eq!(
        StartUpTask::from_json(r#"{"enable":true"#),
        Err(TaskError::NotCanonical)
    );
}

#[test]
fn from_json_rejects_wrong_shapes() {
    assert_eq!(
        StartUpTask::from_json(r#"{"enable":1}"#),
        Err(TaskError::WrongType)
    );
    assert_eq!(
        RecruitTask::from_json(r#"{"enable":true,"select":"no","confirm":[4]}"#),
        Err(TaskError::WrongType)
    );
}

#[test]
fn from_json_requires_required_fields() {
    assert_eq!(CustomTask::from_json(r#"{}"#), Err(TaskError::MissingField));
    assert_eq!(
        VideoRecognitionTask::from_json(r#"{"enable":true}"#),
        Err(TaskError::MissingField)
    );
}

#[test]
fn from_json_ignores_unknown_keys() {
    let t = StartUpTask::from_json(r#"{"enable":true,"unrelated":42}"#).unwrap();
    assert_eq!(Some(true), t.enable);
    assert_eq!(None, t.client_type);
}

#[test]
fn emitted_text_is_json_for_other_readers() {
    let t = RecruitTask::builder()
        .enable(true)
        .select(vec![1, 2, 3])
        .confirm(vec![4, 5, 6])
        .penguin_id("p-1")
        .build()
        .unwrap();
    let value: serde_json::Value = serde_json::from_str(&t.to_json()).unwrap();
    assert_eq!(value["enable"], serde_json::Value::Bool(true));
    assert_eq!(value["select"][2], serde_json::Value::from(3));
    assert_eq!(value["penguin_id"], serde_json::Value::from("p-1"));
}

#[test]
fn extreme_integers_survive() {
    let t = SingleStepTask::builder()
        .enable(true)
        .task_type("copilot")
        .subtask("action")
        .details(vec![
            ("lo".to_string(), Scalar::Int(i64::MIN)),
            ("hi".to_string(), Scalar::Int(i64::MAX)),
        ])
        .build()
        .unwrap();
    let text = t.to_json();
    assert!(text.contains("-9223372036854775808"));
    assert!(text.contains("9223372036854775807"));
    let value: serde_json::Value = serde_json::from_str(&text).unwrap();
    assert_eq!(value["details"]["lo"], serde_json::Value::from(i64::MIN));
    assert_eq!(value["details"]["hi"], serde_json::Value::from(i64::MAX));
}
