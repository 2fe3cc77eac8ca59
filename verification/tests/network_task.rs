use vehicle_node::display::{DisplayOp, Position, TextElement};
use vehicle_node::network::{
    is_parameters_topic, startup_step, NetworkTask, Publication, StartupAction, StartupPhase,
    Topic, BROKER_PORT, KEEPALIVE_INTERVAL_SECS, LOOP_PERIOD_MS, SETTLE_DELAY_MS,
};

fn version_line() -> DisplayOp<'static> {
    DisplayOp::Draw(TextElement { text: "FW: WOF V2.0", position: Position { x: 0, y: 50 } })
}

fn message(text: &'static str) -> DisplayOp<'static> {
    DisplayOp::Draw(TextElement { text, position: Position { x: 32, y: 16 } })
}

#[test]
fn topic_names() {
    assert_eq!(Topic::Parameters.name(), "vehicle/parameters");
    assert_eq!(Topic::CruiseControl.name(), "vehicle/cruisecontrol");
}

#[test]
fn periods() {
    assert_eq!(LOOP_PERIOD_MS, 100);
    assert_eq!(SETTLE_DELAY_MS, 2000);
    assert_eq!(BROKER_PORT, 1883);
    assert_eq!(KEEPALIVE_INTERVAL_SECS, 60);
}

#[test]
fn parameters_topic_is_matched_exactly() {
    assert!(is_parameters_topic("vehicle/parameters"));
    assert!(!is_parameters_topic("vehicle/parameter"));
    assert!(!is_parameters_topic("vehicle/parameters/"));
    assert!(!is_parameters_topic("vehicle/cruisecontrol"));
    assert!(!is_parameters_topic("Vehicle/parameters"));
    assert!(!is_parameters_topic(""));
}

#[test]
fn task_starts_blank() {
    let task = NetworkTask::new();
    assert!(!task.subscribed);
    assert!(task.params.is_empty());
    assert!(!task.cruise_control_active);
    assert!(task.button_a.last_level);
    assert!(task.button_b.last_level);
    assert_eq!(task.display.text, "");
    assert_eq!(task.messages_received, 0);
    assert_eq!(task.messages_sent, 0);
}

#[test]
fn subscription_is_asked_until_accepted() {
    let mut task = NetworkTask::new();
    assert!(!task.wants_subscription(false));
    assert!(task.wants_subscription(true));
    task.subscription_result(false);
    assert!(task.wants_subscription(true));
    task.subscription_result(true);
    assert!(task.subscribed);
    assert!(!task.wants_subscription(true));
    task.subscription_result(false);
    assert!(task.subscribed);
}

#[test]
fn received_parameters_set_the_cruise_flag() {
    let mut task = NetworkTask::new();
    assert!(task.on_message("vehicle/parameters", b"{\"Speed\":80,\"CruiseControl\":true}"));
    assert!(task.cruise_control_active);
    assert_eq!(task.params.as_bytes(), b"{\"Speed\":80,\"CruiseControl\":true}");
    assert_eq!(task.messages_received, 1);
    assert!(task.on_message("vehicle/parameters", b"{\"Speed\":81}"));
    assert!(!task.cruise_control_active);
    assert_eq!(task.params.as_bytes(), b"{\"Speed\":81}");
    assert_eq!(task.messages_received, 2);
}

#[test]
fn messages_on_other_topics_are_passed_over() {
    let mut task = NetworkTask::new();
    task.on_message("vehicle/parameters", b"{\"CruiseControl\":true}");
    assert!(!task.on_message("vehicle/cruisecontrol", b"false"));
    assert!(task.cruise_control_active);
    assert_eq!(task.params.as_bytes(), b"{\"CruiseControl\":true}");
    assert_eq!(task.messages_received, 1);
}

#[test]
fn received_counter_stops_at_its_largest_value() {
    let mut task = NetworkTask::new();
    task.messages_received = u64::MAX;
    task.on_message("vehicle/parameters", b"{}");
    assert_eq!(task.messages_received, u64::MAX);
}

#[test]
fn button_a_publishes_the_brake_override() {
    let mut task = NetworkTask::new();
    task.on_message("vehicle/parameters", b"{\"Speed\":80,\"CruiseControl\":true}");
    assert_eq!(task.on_button_a(true), None);
    let publication = task.on_button_a(false);
    assert_eq!(
        publication,
        Some(Publication {
            topic: Topic::Parameters,
            payload: b"{\"Speed\":80,\"CruiseControl\":false}".to_vec(),
        })
    );
    assert_eq!(publication.unwrap().topic.name(), "vehicle/parameters");
    assert_eq!(task.messages_sent, 1);
    assert_eq!(task.params.as_bytes(), b"{\"Speed\":80,\"CruiseControl\":true}");
    assert!(task.cruise_control_active);
    assert_eq!(task.on_button_a(false), None);
    assert_eq!(task.messages_sent, 1);
}

#[test]
fn button_a_without_cruise_control_publishes_nothing() {
    let mut task = NetworkTask::new();
    task.on_message("vehicle/parameters", b"{\"Speed\":80,\"CruiseControl\":false}");
    assert_eq!(task.on_button_a(false), None);
    assert_eq!(task.messages_sent, 0);
    assert!(!task.button_a.last_level);
}

#[test]
fn button_a_without_parameters_publishes_nothing() {
    let mut task = NetworkTask::new();
    task.on_button_b(false);
    assert!(task.cruise_control_active);
    assert_eq!(task.on_button_a(false), None);
    assert_eq!(task.messages_sent, 1);
}

#[test]
fn button_a_after_local_toggle_publishes_parameters_unchanged() {
    let mut task = NetworkTask::new();
    task.on_message("vehicle/parameters", b"{\"Speed\":80}");
    task.on_button_b(false);
    assert_eq!(
        task.on_button_a(false),
        Some(Publication { topic: Topic::Parameters, payload: b"{\"Speed\":80}".to_vec() })
    );
}

#[test]
fn button_b_enables_cruise_control() {
    let mut task = NetworkTask::new();
    let publication = task.on_button_b(false);
    assert_eq!(
        publication,
        Some(Publication { topic: Topic::CruiseControl, payload: b"true".to_vec() })
    );
    assert_eq!(publication.unwrap().topic.name(), "vehicle/cruisecontrol");
    assert!(task.cruise_control_active);
    assert_eq!(task.messages_sent, 1);
    for _ in 0..50 {
        assert_eq!(
            task.refresh_display(),
            vec![
                DisplayOp::Clear,
                message("CruiseControl\nEnabled"),
                version_line(),
                DisplayOp::Flush
            ]
        );
    }
    assert_eq!(
        task.refresh_display(),
        vec![DisplayOp::Clear, version_line(), DisplayOp::Flush]
    );
}

#[test]
fn button_b_twice_restores_the_flag() {
    let mut task = NetworkTask::new();
    let first = task.on_button_b(false).unwrap();
    assert_eq!(task.on_button_b(true), None);
    let second = task.on_button_b(false).unwrap();
    assert!(!task.cruise_control_active);
    assert_eq!(first.payload, b"true".to_vec());
    assert_eq!(second.payload, b"false".to_vec());
    assert_eq!(second.topic, Topic::CruiseControl);
    assert_eq!(task.messages_sent, 2);
    assert_eq!(
        task.refresh_display(),
        vec![
            DisplayOp::Clear,
            message("CruiseControl\nDisabled"),
            version_line(),
            DisplayOp::Flush
        ]
    );
}

#[test]
fn button_b_twice_from_active_cruise_control() {
    let mut task = NetworkTask::new();
    task.on_message("vehicle/parameters", b"{\"CruiseControl\":true}");
    let first = task.on_button_b(false).unwrap();
    task.on_button_b(true);
    let second = task.on_button_b(false).unwrap();
    assert!(task.cruise_control_active);
    assert_eq!(first.payload, b"false".to_vec());
    assert_eq!(second.payload, b"true".to_vec());
}

#[test]
fn held_button_b_toggles_once() {
    let mut task = NetworkTask::new();
    assert!(task.on_button_b(false).is_some());
    assert_eq!(task.on_button_b(false), None);
    assert_eq!(task.on_button_b(false), None);
    assert!(task.cruise_control_active);
}

#[test]
fn idle_refresh_shows_the_version_line() {
    let mut task = NetworkTask::new();
    assert_eq!(
        task.refresh_display(),
        vec![DisplayOp::Clear, version_line(), DisplayOp::Flush]
    );
}

#[test]
fn startup_runs_through_in_order() {
    let step = startup_step(StartupPhase::Boot, true);
    assert_eq!(step.phase, StartupPhase::ConnectingNetwork);
    assert_eq!(step.banner, Some("Connecting \nto network..."));
    assert_eq!(step.action, StartupAction::ConnectNetwork);
    let step = startup_step(step.phase, true);
    assert_eq!(step.phase, StartupPhase::ConfiguringBroker);
    assert_eq!(step.banner, Some("Connecting \nto MQTT broker..."));
    assert_eq!(step.action, StartupAction::ConfigureBroker);
    let step = startup_step(step.phase, true);
    assert_eq!(step.phase, StartupPhase::OpeningTransport);
    assert_eq!(step.banner, None);
    assert_eq!(step.action, StartupAction::OpenTransport);
    let step = startup_step(step.phase, true);
    assert_eq!(step.phase, StartupPhase::Announcing);
    assert_eq!(step.banner, None);
    assert_eq!(step.action, StartupAction::AnnounceNetworkUp);
    let step = startup_step(step.phase, true);
    assert_eq!(step.phase, StartupPhase::Settling);
    assert_eq!(step.banner, Some("Connected"));
    assert_eq!(step.action, StartupAction::Settle(2000));
    let step = startup_step(step.phase, true);
    assert_eq!(step.phase, StartupPhase::Running);
    assert_eq!(step.banner, None);
    assert_eq!(step.action, StartupAction::RunLoop);
    let step = startup_step(step.phase, false);
    assert_eq!(step.phase, StartupPhase::Running);
    assert_eq!(step.action, StartupAction::RunLoop);
}

#[test]
fn startup_failures_halt_with_a_banner() {
    let cases = [
        (StartupPhase::ConnectingNetwork, Some("TCP connect failed!")),
        (StartupPhase::ConfiguringBroker, Some("MQTT config failed!")),
        (StartupPhase::OpeningTransport, Some("MQTT transport failed!")),
        (StartupPhase::Announcing, None),
        (StartupPhase::Settling, None),
        (StartupPhase::Halted, None),
    ];
    for (phase, banner) in cases {
        let step = startup_step(phase, false);
        assert_eq!(step.phase, StartupPhase::Halted);
        assert_eq!(step.banner, banner);
        assert_eq!(step.action, StartupAction::Halt);
    }
    let step = startup_step(StartupPhase::Halted, true);
    assert_eq!(step.phase, StartupPhase::Halted);
    assert_eq!(step.action, StartupAction::Halt);
}
