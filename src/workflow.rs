//! The workflow table: for each kind of item and command, the ordered steps
//! that carry out a request and the parameters of each remote call.

use vstd::prelude::*;
use vstd::string::*;
use crate::request::{Command, ItemKind};

verus! {

/// Characters of an item identifier that name its frame in the scene:
/// `silver_gun_instance` or `silver_box_instance` and a three-character number.
pub const CHILD_FRAME_LEN: usize = 22;

/// Characters in front of the target location in a placement's instance field.
pub const LOCATION_OFFSET: usize = 6;

/// Speed and acceleration of the generated motion, in thousandths.
pub const MOTION_MILLI: u32 = 100;

/// The request sent to the script generator.
#[derive(Clone, Debug, PartialEq, Eq)]
pub struct ScriptGenerationParams {
    pub command: String,
    pub robot_id: String,
    pub move_type: String,
    pub payload_mass: String,
    pub payload_cog: String,
    pub velocity_milli: u32,
    pub acceleration_milli: u32,
    pub target_feature: String,
    pub tcp_name: String,
}

pub struct ParamsView {
    pub command: Seq<char>,
    pub robot_id: Seq<char>,
    pub move_type: Seq<char>,
    pub payload_mass: Seq<char>,
    pub payload_cog: Seq<char>,
    pub velocity_milli: u32,
    pub acceleration_milli: u32,
    pub target_feature: Seq<char>,
    pub tcp_name: Seq<char>,
}

impl View for ScriptGenerationParams {
    type V = ParamsView;

    open spec fn view(&self) -> ParamsView {
        ParamsView {
            command: self.command@,
            robot_id: self.robot_id@,
            move_type: self.move_type@,
            payload_mass: self.payload_mass@,
            payload_cog: self.payload_cog@,
            velocity_milli: self.velocity_milli,
            acceleration_milli: self.acceleration_milli,
            target_feature: self.target_feature@,
            tcp_name: self.tcp_name@,
        }
    }
}

impl ScriptGenerationParams {
    pub fn duplicate(&self) -> (r: Self)
        ensures
            r@ == self@,
    {
        ScriptGenerationParams {
            command: self.command.clone(),
            robot_id: self.robot_id.clone(),
            move_type: self.move_type.clone(),
            payload_mass: self.payload_mass.clone(),
            payload_cog: self.payload_cog.clone(),
            velocity_milli: self.velocity_milli,
            acceleration_milli: self.acceleration_milli,
            target_feature: self.target_feature.clone(),
            tcp_name: self.tcp_name.clone(),
        }
    }
}

/// The request sent to the scene mutator: re-parent `child_frame` under
/// `parent_frame`, with an identity transform.
#[derive(Clone, Debug, PartialEq, Eq)]
pub struct SceneMutation {
    pub remove: bool,
    pub child_frame: String,
    pub parent_frame: String,
    pub same_position_in_world: bool,
}

pub struct MutationView {
    pub remove: bool,
    pub child_frame: Seq<char>,
    pub parent_frame: Seq<char>,
    pub same_position_in_world: bool,
}

impl View for SceneMutation {
    type V = MutationView;

    open spec fn view(&self) -> MutationView {
        MutationView {
            remove: self.remove,
            child_frame: self.child_frame@,
            parent_frame: self.parent_frame@,
            same_position_in_world: self.same_position_in_world,
        }
    }
}

impl SceneMutation {
    pub fn duplicate(&self) -> (r: Self)
        ensures
            r@ == self@,
    {
        SceneMutation {
            remove: self.remove,
            child_frame: self.child_frame.clone(),
            parent_frame: self.parent_frame.clone(),
            same_position_in_world: self.same_position_in_world,
        }
    }
}

/// One step of a workflow.
#[derive(Clone, Debug, PartialEq, Eq)]
pub enum WorkflowStep {
    /// Ask the script generator for a motion script.
    GenerateScript(ScriptGenerationParams),
    /// Run the script last generated, as a long-running operation.
    ExecuteScript,
    /// Compare the sensor's latest reading with the expected value.
    VerifySensor(bool),
    /// Ask the scene mutator to move a frame.
    MutateScene(SceneMutation),
}

pub enum StepView {
    GenerateScript(ParamsView),
    ExecuteScript,
    VerifySensor(bool),
    MutateScene(MutationView),
}

impl View for WorkflowStep {
    type V = StepView;

    open spec fn view(&self) -> StepView {
        match self {
            WorkflowStep::GenerateScript(p) => StepView::GenerateScript(p@),
            WorkflowStep::ExecuteScript => StepView::ExecuteScript,
            WorkflowStep::VerifySensor(e) => StepView::VerifySensor(*e),
            WorkflowStep::MutateScene(m) => StepView::MutateScene(m@),
        }
    }
}

pub open spec fn steps_view(s: Seq<WorkflowStep>) -> Seq<StepView> {
    s.map_values(|x: WorkflowStep| x@)
}

/// The tool frame that holds an item of this kind once picked.
pub open spec fn tool_frame(kind: ItemKind) -> Seq<char> {
    if kind is Gun {
        "svt_tcp"@
    } else {
        "sponge_tcp"@
    }
}

/// The scene frame of an item: its identifier cut to `CHILD_FRAME_LEN` characters.
pub open spec fn child_frame_of(item: Seq<char>) -> Seq<char> {
    if item.len() <= CHILD_FRAME_LEN {
        item
    } else {
        item.subrange(0, CHILD_FRAME_LEN as int)
    }
}

/// The target location of a placement: the instance field without its first
/// `LOCATION_OFFSET` characters (none is left of a shorter one).
pub open spec fn location_of(instance: Seq<char>) -> Seq<char> {
    if instance.len() <= LOCATION_OFFSET {
        Seq::empty()
    } else {
        instance.subrange(LOCATION_OFFSET as int, instance.len() as int)
    }
}

pub open spec fn script_params(kind: ItemKind, cmd: Command, item: Seq<char>) -> ParamsView {
    ParamsView {
        command: match cmd {
            Command::Pick => if kind is Gun {
                "pick_svt"@
            } else {
                "pick_sponge"@
            },
            Command::Place => "drop_vacuum"@,
        },
        robot_id: "lage"@,
        move_type: "move_j"@,
        payload_mass: if kind is Gun {
            "1.37"@
        } else {
            "1.83"@
        },
        payload_cog: if kind is Gun {
            "[0.001, 0.001, 0.047]"@
        } else {
            "[0.0, 0.003, 0.069]"@
        },
        velocity_milli: MOTION_MILLI,
        acceleration_milli: MOTION_MILLI,
        target_feature: item,
        tcp_name: tool_frame(kind),
    }
}

pub open spec fn reparent(parent: Seq<char>, child: Seq<char>) -> MutationView {
    MutationView { remove: false, child_frame: child, parent_frame: parent, same_position_in_world: false }
}

/// The parent frame an item moves under: the tool after a pick, the target
/// location after a placement.
pub open spec fn new_parent(kind: ItemKind, cmd: Command, instance: Seq<char>) -> Seq<char> {
    match cmd {
        Command::Pick => tool_frame(kind),
        Command::Place => location_of(instance),
    }
}

/// The table's entry for a known kind of item; only a picked gun is checked
/// with the sensor.
pub open spec fn workflow(kind: ItemKind, cmd: Command, item: Seq<char>, instance: Seq<char>) -> Seq<StepView> {
    let generate = StepView::GenerateScript(script_params(kind, cmd, item));
    let mutate = StepView::MutateScene(reparent(new_parent(kind, cmd, instance), child_frame_of(item)));
    if kind is Gun && cmd is Pick {
        seq![generate, StepView::ExecuteScript, StepView::VerifySensor(true), mutate]
    } else {
        seq![generate, StepView::ExecuteScript, mutate]
    }
}

/// A box is never checked with the sensor: its workflows hold no
/// verification step.
pub proof fn box_workflow_skips_sensor(cmd: Command, item: Seq<char>, instance: Seq<char>)
    ensures
        forall|i: int|
            0 <= i < workflow(ItemKind::Box, cmd, item, instance).len() ==> !(workflow(
                ItemKind::Box,
                cmd,
                item,
                instance,
            )[i] is VerifySensor),
{
}

fn child_frame(item: &str) -> (r: String)
    ensures
        r@ == child_frame_of(item@),
{
    let n = item.unicode_len();
    if n <= CHILD_FRAME_LEN {
        String::from_str(item)
    } else {
        String::from_str(item.substring_char(0, CHILD_FRAME_LEN))
    }
}

fn location(instance: &str) -> (r: String)
    ensures
        r@ == location_of(instance@),
{
    let n = instance.unicode_len();
    if n <= LOCATION_OFFSET {
        String::new()
    } else {
        String::from_str(instance.substring_char(LOCATION_OFFSET, n))
    }
}

/// The steps for an item of `kind` under `cmd`; an unknown kind has none.
pub fn workflow_for(kind: ItemKind, cmd: Command, item: &str, instance: &str) -> (r: Option<
    Vec<WorkflowStep>,
>)
    ensures
        r is None <==> kind is Unknown,
        r is Some ==> steps_view(r->0@) == workflow(kind, cmd, item@, instance@),
{
    let gun = match kind {
        ItemKind::Gun => true,
        ItemKind::Box => false,
        ItemKind::Unknown => {
            return None;
        },
    };
    let params = ScriptGenerationParams {
        command: match cmd {
            Command::Pick => if gun {
                String::from_str("pick_svt")
            } else {
                String::from_str("pick_sponge")
            },
            Command::Place => String::from_str("drop_vacuum"),
        },
        robot_id: String::from_str("lage"),
        move_type: String::from_str("move_j"),
        payload_mass: if gun {
            String::from_str("1.37")
        } else {
            String::from_str("1.83")
        },
        payload_cog: if gun {
            String::from_str("[0.001, 0.001, 0.047]")
        } else {
            String::from_str("[0.0, 0.003, 0.069]")
        },
        velocity_milli: MOTION_MILLI,
        acceleration_milli: MOTION_MILLI,
        target_feature: String::from_str(item),
        tcp_name: if gun {
            String::from_str("svt_tcp")
        } else {
            String::from_str("sponge_tcp")
        },
    };
    let parent = match cmd {
        Command::Pick => if gun {
            String::from_str("svt_tcp")
        } else {
            String::from_str("sponge_tcp")
        },
        Command::Place => location(instance),
    };
    let mutation = SceneMutation {
        remove: false,
        child_frame: child_frame(item),
        parent_frame: parent,
        same_position_in_world: false,
    };
    let mut steps: Vec<WorkflowStep> = Vec::new();
    steps.push(WorkflowStep::GenerateScript(params));
    steps.push(WorkflowStep::ExecuteScript);
    if gun && cmd == Command::Pick {
        steps.push(WorkflowStep::VerifySensor(true));
    }
    steps.push(WorkflowStep::MutateScene(mutation));
    assert(steps_view(steps@) =~= workflow(kind, cmd, item@, instance@));
    Some(steps)
}

} // verus!
