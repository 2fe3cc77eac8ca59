use vehicle_node::provider::{
    ComponentAction, ComponentPlan, MyProvider, ProvisionStage, StageOutcome,
};

#[test]
fn test_get() {
    let provider = MyProvider {};

    let result = provider.get();
    assert!(result.is_ok(), "Expected Ok result, but got {:?}", result);
}

#[test]
fn get_describes_the_control_unit() {
    let components = MyProvider.get().unwrap();
    assert_eq!(components.len(), 1);
    let ecu = &components[0];
    assert_eq!(ecu.name, "ecu");
    assert_eq!(ecu.component_type.as_deref(), Some("my_ecu_type"));
    let properties: Vec<(&str, &str)> =
        ecu.properties.iter().map(|p| (p.key.as_str(), p.value.as_str())).collect();
    assert_eq!(
        properties,
        vec![("package", "my_ecu_package"), ("break", "0"), ("url", "localhost")]
    );
}

#[test]
fn plan_by_action_and_type() {
    let provider = MyProvider;
    assert_eq!(provider.plan(ComponentAction::Update, Some("my_ecu_type")), ComponentPlan::Provision);
    assert_eq!(provider.plan(ComponentAction::Update, Some("my_ecu")), ComponentPlan::ReportOnly);
    assert_eq!(provider.plan(ComponentAction::Update, None), ComponentPlan::ReportOnly);
    assert_eq!(provider.plan(ComponentAction::Delete, Some("my_ecu_type")), ComponentPlan::Skip);
    assert_eq!(provider.plan(ComponentAction::Other, Some("my_ecu_type")), ComponentPlan::Skip);
}

#[test]
fn provisioning_runs_through_all_stages() {
    let provider = MyProvider;
    let mut stage = ProvisionStage::CheckFirmware;
    let outcomes = [
        StageOutcome::Present,
        StageOutcome::Ran(true),
        StageOutcome::Present,
        StageOutcome::Ran(false),
        StageOutcome::Ran(true),
    ];
    let expected = [
        ProvisionStage::Flash,
        ProvisionStage::CheckApp,
        ProvisionStage::Install,
        ProvisionStage::Launch,
        ProvisionStage::Done,
    ];
    for (outcome, next) in outcomes.iter().zip(expected.iter()) {
        stage = provider.provision_step(stage, *outcome);
        assert_eq!(stage, *next);
    }
    assert_eq!(provider.provision_step(stage, StageOutcome::Ran(true)), ProvisionStage::Done);
}

#[test]
fn missing_files_skip_their_stages() {
    let provider = MyProvider;
    assert_eq!(
        provider.provision_step(ProvisionStage::CheckFirmware, StageOutcome::Absent),
        ProvisionStage::CheckApp
    );
    assert_eq!(
        provider.provision_step(ProvisionStage::CheckApp, StageOutcome::Absent),
        ProvisionStage::Done
    );
}

#[test]
fn a_tool_that_does_not_start_fails_the_step() {
    let provider = MyProvider;
    for stage in [ProvisionStage::Flash, ProvisionStage::Install, ProvisionStage::Launch] {
        assert_eq!(provider.provision_step(stage, StageOutcome::SpawnFailed), ProvisionStage::Failed);
    }
    assert_eq!(
        provider.provision_step(ProvisionStage::Failed, StageOutcome::Ran(true)),
        ProvisionStage::Failed
    );
}
