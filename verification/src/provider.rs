//! The deployment provider for the node: the component it offers, and the
//! order of the steps that bring a component onto the device.

use vstd::prelude::*;
use crate::text::same_text;

verus! {

/// The provider that deploys the node's firmware and its companion app.
#[derive(Clone, Copy, Debug, Default)]
pub struct MyProvider;

/// One named property of a component.
#[derive(Clone, Debug, PartialEq, Eq)]
pub struct Property {
    pub key: String,
    pub value: String,
}

/// A component as the provider describes it.
#[derive(Clone, Debug, PartialEq, Eq)]
pub struct ComponentSpec {
    pub name: String,
    pub component_type: Option<String>,
    pub properties: Vec<Property>,
}

/// What a deployment step asks for a component.
#[derive(Clone, Copy, Debug, PartialEq, Eq, Structural)]
pub enum ComponentAction {
    Update,
    Delete,
    Other,
}

/// How the provider treats one component of a deployment step.
#[derive(Clone, Copy, Debug, PartialEq, Eq, Structural)]
pub enum ComponentPlan {
    /// Bring the component onto the device, then report it as applied.
    Provision,
    /// Nothing to do on the device; report the component as applied.
    ReportOnly,
    /// Neither touch nor report the component.
    Skip,
}

/// Where the provisioning of one component stands.
#[derive(Clone, Copy, Debug, PartialEq, Eq, Structural)]
pub enum ProvisionStage {
    /// Look for the firmware image.
    CheckFirmware,
    /// Flash the firmware image.
    Flash,
    /// Look for the app package.
    CheckApp,
    /// Install the app package.
    Install,
    /// Launch the app.
    Launch,
    /// All steps are through.
    Done,
    /// A tool could not be started: the whole deployment step fails.
    Failed,
}

/// How a provisioning stage came out.
#[derive(Clone, Copy, Debug, PartialEq, Eq, Structural)]
pub enum StageOutcome {
    /// The file that was looked for is there.
    Present,
    /// The file that was looked for is missing.
    Absent,
    /// The tool ran; its exit status says whether it succeeded.
    Ran(bool),
    /// The tool could not be started.
    SpawnFailed,
}

/// The plan for a component: an update of a component of the node's own type
/// is provisioned, an update of any other is only reported, and nothing is
/// done for any other action.
pub open spec fn plan_for(action: ComponentAction, component_type: Option<Seq<char>>) -> ComponentPlan {
    if action == ComponentAction::Update {
        if component_type == Some("my_ecu_type"@) {
            ComponentPlan::Provision
        } else {
            ComponentPlan::ReportOnly
        }
    } else {
        ComponentPlan::Skip
    }
}

/// The stage that follows `stage`. A missing firmware image skips the flash,
/// a missing app package ends the provisioning. A tool that ran is followed
/// by the next stage whatever its exit status; one that could not be started
/// fails the provisioning.
pub open spec fn provision_next(stage: ProvisionStage, outcome: StageOutcome) -> ProvisionStage {
    match stage {
        ProvisionStage::CheckFirmware => if outcome == StageOutcome::Present {
            ProvisionStage::Flash
        } else {
            ProvisionStage::CheckApp
        },
        ProvisionStage::Flash => if outcome == StageOutcome::SpawnFailed {
            ProvisionStage::Failed
        } else {
            ProvisionStage::CheckApp
        },
        ProvisionStage::CheckApp => if outcome == StageOutcome::Present {
            ProvisionStage::Install
        } else {
            ProvisionStage::Done
        },
        ProvisionStage::Install => if outcome == StageOutcome::SpawnFailed {
            ProvisionStage::Failed
        } else {
            ProvisionStage::Launch
        },
        ProvisionStage::Launch => if outcome == StageOutcome::SpawnFailed {
            ProvisionStage::Failed
        } else {
            ProvisionStage::Done
        },
        ProvisionStage::Done => ProvisionStage::Done,
        ProvisionStage::Failed => ProvisionStage::Failed,
    }
}

/// The view of an optional text.
pub open spec fn text_view(text: Option<&str>) -> Option<Seq<char>> {
    match text {
        Some(s) => Some(s@),
        None => None,
    }
}

/// `property` gives `key` the value `value`.
pub open spec fn is_property(property: Property, key: Seq<char>, value: Seq<char>) -> bool {
    property.key@ == key && property.value@ == value
}

/// `components` is what the provider offers: the control unit alone, named
/// `ecu`, of the node's own type, with its package, brake and address
/// properties.
pub open spec fn is_offer(components: Seq<ComponentSpec>) -> bool {
    &&& components.len() == 1
    &&& components[0].name@ == "ecu"@
    &&& components[0].component_type matches Some(t) && t@ == "my_ecu_type"@
    &&& components[0].properties@.len() == 3
    &&& is_property(components[0].properties@[0], "package"@, "my_ecu_package"@)
    &&& is_property(components[0].properties@[1], "break"@, "0"@)
    &&& is_property(components[0].properties@[2], "url"@, "localhost"@)
}

impl MyProvider {
    /// The components that the provider offers: the one control unit, with
    /// its type and its three properties.
    pub fn get(&self) -> (components: Result<Vec<ComponentSpec>, String>)
        ensures
            components matches Ok(list) && is_offer(list@),
    {
        let properties = vec![
            Property { key: "package".to_owned(), value: "my_ecu_package".to_owned() },
            Property { key: "break".to_owned(), value: "0".to_owned() },
            Property { key: "url".to_owned(), value: "localhost".to_owned() },
        ];
        let component = ComponentSpec {
            name: "ecu".to_owned(),
            component_type: Some("my_ecu_type".to_owned()),
            properties,
        };
        Ok(vec![component])
    }

    /// Decides how one component of a deployment step is treated.
    pub fn plan(&self, action: ComponentAction, component_type: Option<&str>) -> (plan:
        ComponentPlan)
        ensures
            plan == plan_for(action, text_view(component_type)),
    {
        match action {
            ComponentAction::Update => match component_type {
                Some(t) => if same_text(t, "my_ecu_type") {
                    ComponentPlan::Provision
                } else {
                    ComponentPlan::ReportOnly
                },
                None => ComponentPlan::ReportOnly,
            },
            _ => ComponentPlan::Skip,
        }
    }

    /// The stage that follows `stage`, given how `stage` came out.
    pub fn provision_step(&self, stage: ProvisionStage, outcome: StageOutcome) -> (next:
        ProvisionStage)
        ensures
            next == provision_next(stage, outcome),
    {
        match stage {
            ProvisionStage::CheckFirmware => match outcome {
                StageOutcome::Present => ProvisionStage::Flash,
                _ => ProvisionStage::CheckApp,
            },
            ProvisionStage::Flash => match outcome {
                StageOutcome::SpawnFailed => ProvisionStage::Failed,
                _ => ProvisionStage::CheckApp,
            },
            ProvisionStage::CheckApp => match outcome {
                StageOutcome::Present => ProvisionStage::Install,
                _ => ProvisionStage::Done,
            },
            ProvisionStage::Install => match outcome {
                StageOutcome::SpawnFailed => ProvisionStage::Failed,
                _ => ProvisionStage::Launch,
            },
            ProvisionStage::Launch => match outcome {
                StageOutcome::SpawnFailed => ProvisionStage::Failed,
                _ => ProvisionStage::Done,
            },
            ProvisionStage::Done => ProvisionStage::Done,
            ProvisionStage::Failed => ProvisionStage::Failed,
        }
    }
}

} // verus!
