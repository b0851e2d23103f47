use cube_handler::dispatcher::{judge, Action, CallError, Dispatcher, Outcome, StepResult, Verdict};
use cube_handler::request::WorkRequest;
use cube_handler::workflow::{SceneMutation, WorkflowStep};

fn req(command: &str, item: &str, instance: &str) -> WorkRequest {
    WorkRequest { command: command.to_string(), item: item.to_string(), instance: instance.to_string() }
}

fn mutation(parent: &str, child: &str) -> Action {
    Action::MutateScene(SceneMutation {
        remove: false,
        child_frame: child.to_string(),
        parent_frame: parent.to_string(),
        same_position_in_world: false,
    })
}

#[test]
fn gun_pick_succeeds_with_canned_replies() {
    let mut d = Dispatcher::new();
    let a = d.start(&req("pick", "silver_gun_instance_03", ""));
    match a {
        Action::GenerateScript(p) => {
            assert_eq!(p.command, "pick_svt");
            assert_eq!(p.tcp_name, "svt_tcp");
            assert_eq!(p.target_feature, "silver_gun_instance_03");
        },
        other => panic!("unexpected {:?}", other),
    }
    assert!(!d.is_idle());
    assert_eq!(d.resume(StepResult::Generated(Ok("movej(p)".to_string()))), Action::ExecuteScript("movej(p)".to_string()));
    assert_eq!(d.resume(StepResult::Executed(Ok(()))), Action::ReadSensor);
    assert_eq!(d.resume(StepResult::Sensed(true)), mutation("svt_tcp", "silver_gun_instance_03"));
    assert_eq!(d.resume(StepResult::Mutated(Ok(true))), Action::Finish(Outcome::Succeeded(true)));
    assert!(d.is_idle());
}

#[test]
fn gun_place_succeeds_with_canned_replies() {
    let mut d = Dispatcher::new();
    assert!(matches!(d.start(&req("place", "silver_gun_instance_03_above", "place_agv_1")), Action::GenerateScript(_)));
    assert_eq!(d.resume(StepResult::Generated(Ok("s".to_string()))), Action::ExecuteScript("s".to_string()));
    assert_eq!(d.resume(StepResult::Executed(Ok(()))), mutation("agv_1", "silver_gun_instance_03"));
    assert_eq!(d.resume(StepResult::Mutated(Ok(true))), Action::Finish(Outcome::Succeeded(true)));
    assert!(d.is_idle());
}

#[test]
fn box_pick_succeeds_without_sensor() {
    let mut d = Dispatcher::new();
    assert!(matches!(d.start(&req("pick", "silver_box_instance_02", "")), Action::GenerateScript(_)));
    assert_eq!(d.resume(StepResult::Generated(Ok("s".to_string()))), Action::ExecuteScript("s".to_string()));
    let a = d.resume(StepResult::Executed(Ok(())));
    assert_ne!(a, Action::ReadSensor);
    assert_eq!(a, mutation("sponge_tcp", "silver_box_instance_02"));
    assert_eq!(d.resume(StepResult::Mutated(Ok(true))), Action::Finish(Outcome::Succeeded(true)));
}

#[test]
fn box_place_succeeds_with_canned_replies() {
    let mut d = Dispatcher::new();
    assert!(matches!(d.start(&req("place", "silver_box_instance_02", "place_shelf")), Action::GenerateScript(_)));
    assert_eq!(d.resume(StepResult::Generated(Ok("s".to_string()))), Action::ExecuteScript("s".to_string()));
    assert_eq!(d.resume(StepResult::Executed(Ok(()))), mutation("shelf", "silver_box_instance_02"));
    assert_eq!(d.resume(StepResult::Mutated(Ok(true))), Action::Finish(Outcome::Succeeded(true)));
}

#[test]
fn unheld_gun_reports_false_without_mutation() {
    let mut d = Dispatcher::new();
    d.start(&req("pick", "silver_gun_instance_03", ""));
    d.resume(StepResult::Generated(Ok("s".to_string())));
    assert_eq!(d.resume(StepResult::Executed(Ok(()))), Action::ReadSensor);
    assert_eq!(d.resume(StepResult::Sensed(false)), Action::Finish(Outcome::Succeeded(false)));
    assert!(d.is_idle());
    assert_eq!(d.resume(StepResult::Mutated(Ok(true))), Action::Ignored);
}

#[test]
fn generator_failure_aborts() {
    let mut d = Dispatcher::new();
    d.start(&req("pick", "silver_box_instance_01", ""));
    assert_eq!(d.resume(StepResult::Generated(Err(CallError::Transport))), Action::Finish(Outcome::Aborted));
    assert!(d.is_idle());
    assert_eq!(d.resume(StepResult::Executed(Ok(()))), Action::Ignored);
}

#[test]
fn execution_failure_aborts() {
    let mut d = Dispatcher::new();
    d.start(&req("pick", "silver_gun_instance_01", ""));
    d.resume(StepResult::Generated(Ok("s".to_string())));
    assert_eq!(d.resume(StepResult::Executed(Err(CallError::Remote))), Action::Finish(Outcome::Aborted));
    assert!(d.is_idle());
    assert_eq!(d.resume(StepResult::Sensed(true)), Action::Ignored);
}

#[test]
fn declined_mutation_aborts() {
    let mut d = Dispatcher::new();
    d.start(&req("place", "silver_gun_instance_01", "place_a"));
    d.resume(StepResult::Generated(Ok("s".to_string())));
    d.resume(StepResult::Executed(Ok(())));
    assert_eq!(d.resume(StepResult::Mutated(Ok(false))), Action::Finish(Outcome::Aborted));
    assert!(d.is_idle());
}

#[test]
fn mutation_transport_failure_aborts() {
    let mut d = Dispatcher::new();
    d.start(&req("pick", "silver_box_instance_01", ""));
    d.resume(StepResult::Generated(Ok("s".to_string())));
    d.resume(StepResult::Executed(Ok(())));
    assert_eq!(d.resume(StepResult::Mutated(Err(CallError::Transport))), Action::Finish(Outcome::Aborted));
}

#[test]
fn unknown_command_is_abandoned() {
    let mut d = Dispatcher::new();
    assert_eq!(d.start(&req("rotate", "silver_gun_instance_03", "")), Action::Abandon);
    assert!(d.is_idle());
    assert!(matches!(d.start(&req("pick", "silver_gun_instance_03", "")), Action::GenerateScript(_)));
}

#[test]
fn unknown_item_is_abandoned() {
    let mut d = Dispatcher::new();
    assert_eq!(d.start(&req("pick", "copper_gun_instance_03", "")), Action::Abandon);
    assert_eq!(d.start(&req("place", "", "place_a")), Action::Abandon);
    assert!(d.is_idle());
}

#[test]
fn second_request_waits_for_first() {
    let mut d = Dispatcher::new();
    d.start(&req("pick", "silver_gun_instance_03", ""));
    assert_eq!(d.start(&req("pick", "silver_box_instance_01", "")), Action::Busy);
    assert_eq!(d.resume(StepResult::Generated(Ok("a".to_string()))), Action::ExecuteScript("a".to_string()));
    assert_eq!(d.start(&req("place", "silver_box_instance_01", "place_b")), Action::Busy);
    d.resume(StepResult::Executed(Ok(())));
    assert_eq!(d.resume(StepResult::Sensed(true)), mutation("svt_tcp", "silver_gun_instance_03"));
    assert_eq!(d.resume(StepResult::Mutated(Ok(true))), Action::Finish(Outcome::Succeeded(true)));
    let a = d.start(&req("pick", "silver_box_instance_01", ""));
    match a {
        Action::GenerateScript(p) => assert_eq!(p.command, "pick_sponge"),
        other => panic!("unexpected {:?}", other),
    }
}

#[test]
fn mismatched_result_is_ignored() {
    let mut d = Dispatcher::new();
    assert_eq!(d.resume(StepResult::Sensed(true)), Action::Ignored);
    d.start(&req("pick", "silver_gun_instance_03", ""));
    assert_eq!(d.resume(StepResult::Executed(Ok(()))), Action::Ignored);
    assert_eq!(d.resume(StepResult::Generated(Ok("s".to_string()))), Action::ExecuteScript("s".to_string()));
}

#[test]
fn judge_verdicts() {
    assert_eq!(judge(&WorkflowStep::VerifySensor(true), &StepResult::Sensed(true)), Verdict::Proceed);
    assert_eq!(
        judge(&WorkflowStep::VerifySensor(true), &StepResult::Sensed(false)),
        Verdict::Stop(Outcome::Succeeded(false))
    );
    assert_eq!(judge(&WorkflowStep::ExecuteScript, &StepResult::Sensed(false)), Verdict::Mismatch);
    assert_eq!(
        judge(&WorkflowStep::ExecuteScript, &StepResult::Executed(Err(CallError::Transport))),
        Verdict::Stop(Outcome::Aborted)
    );
}

#[test]
fn action_labels() {
    assert_eq!(Action::ReadSensor.label(), "checking that the item is held");
    assert_eq!(Action::ExecuteScript(String::new()).label(), "executing the ur script");
    assert_eq!(Action::Finish(Outcome::Aborted).label(), "");
}
