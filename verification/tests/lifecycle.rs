use trusc::catalogue::Phase;
use trusc::lifecycle::{plan, Lifecycle, Script, Status, Step};

#[test]
fn the_build_plan() {
    assert_eq!(
        plan(Phase::Build),
        vec![
            Step::CreateEngine,
            Step::RegisterOps,
            Step::Execute(Script::Primary),
            Step::Execute(Script::Adapter),
            Step::TakeSnapshot,
            Step::WriteSnapshot,
        ]
    );
}

#[test]
fn the_run_plan() {
    assert_eq!(
        plan(Phase::Run),
        vec![Step::RestoreEngine, Step::RegisterOps, Step::Execute(Script::Startup)]
    );
}

#[test]
fn a_build_without_failure_does_every_step_in_order() {
    let mut life = Lifecycle::start(Phase::Build);
    let mut steps = Vec::new();
    while let Some(step) = life.next_step() {
        assert_eq!(life.status(), Status::Underway);
        steps.push(step);
        life.report(true);
    }
    assert_eq!(steps, plan(Phase::Build));
    assert_eq!(life.status(), Status::Complete);
    assert_eq!(life.next_step(), None);
}

#[test]
fn a_run_without_failure_does_every_step_in_order() {
    let mut life = Lifecycle::start(Phase::Run);
    let mut steps = Vec::new();
    while let Some(step) = life.next_step() {
        steps.push(step);
        life.report(true);
    }
    assert_eq!(steps, plan(Phase::Run));
    assert_eq!(life.status(), Status::Complete);
}

#[test]
fn a_failing_guest_script_aborts_the_build_before_any_snapshot() {
    let mut life = Lifecycle::start(Phase::Build);
    assert_eq!(life.next_step(), Some(Step::CreateEngine));
    life.report(true);
    assert_eq!(life.next_step(), Some(Step::RegisterOps));
    life.report(true);
    assert_eq!(life.next_step(), Some(Step::Execute(Script::Primary)));
    life.report(false);
    assert_eq!(life.status(), Status::Failed);
    assert_eq!(life.next_step(), None);
    life.report(true);
    assert_eq!(life.status(), Status::Failed);
    assert_eq!(life.next_step(), None);
}

#[test]
fn a_failing_adapter_script_aborts_the_build_too() {
    let mut life = Lifecycle::start(Phase::Build);
    life.report(true);
    life.report(true);
    life.report(true);
    assert_eq!(life.next_step(), Some(Step::Execute(Script::Adapter)));
    life.report(false);
    assert_eq!(life.status(), Status::Failed);
    assert_eq!(life.next_step(), None);
}

#[test]
fn a_failing_startup_script_is_fatal() {
    let mut life = Lifecycle::start(Phase::Run);
    life.report(true);
    life.report(true);
    assert_eq!(life.next_step(), Some(Step::Execute(Script::Startup)));
    life.report(false);
    assert_eq!(life.status(), Status::Failed);
    assert_eq!(life.next_step(), None);
}

#[test]
fn a_report_after_the_end_changes_nothing() {
    let mut life = Lifecycle::start(Phase::Run);
    life.report(true);
    life.report(true);
    life.report(true);
    assert_eq!(life.status(), Status::Complete);
    life.report(false);
    assert_eq!(life.status(), Status::Complete);
    life.report(true);
    assert_eq!(life.status(), Status::Complete);
    assert_eq!(life.next_step(), None);
}
