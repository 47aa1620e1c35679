use trusc::catalogue::{catalogue, ArgumentSchema, Op, OpRegistry, Phase, ResultSchema};

fn run_names() -> Vec<&'static str> {
    vec![
        "op_create_directory",
        "op_create_hash",
        "op_delete_file",
        "op_directory_exists",
        "op_file_exists",
        "op_get_current_directory",
        "op_get_directories",
        "op_get_env",
        "op_get_file_size",
        "op_get_memory_usage",
        "op_get_modified_time",
        "op_read_directory",
        "op_read_file",
        "op_set_modified_time",
        "op_watch_directory",
        "op_watch_file",
        "op_write_file",
    ]
}

#[test]
fn run_catalogue_has_the_seventeen_operations_in_order() {
    let names: Vec<&str> = catalogue(Phase::Run).iter().map(|op| op.name()).collect();
    assert_eq!(names, run_names());
}

#[test]
fn build_catalogue_discovers_and_loads_only() {
    assert_eq!(catalogue(Phase::Build), vec![Op::BuildInfo, Op::Load]);
    assert_eq!(Op::BuildInfo.name(), "op_build_info");
    assert_eq!(Op::Load.name(), "op_load");
}

#[test]
fn every_operation_is_found_by_its_name() {
    for phase in [Phase::Build, Phase::Run] {
        for op in catalogue(phase) {
            assert_eq!(Op::from_name(op.name()), Some(op));
            assert_eq!(op.phase(), phase);
        }
    }
}

#[test]
fn names_are_distinct() {
    let mut names: Vec<&str> = Vec::new();
    for phase in [Phase::Build, Phase::Run] {
        for op in catalogue(phase) {
            names.push(op.name());
        }
    }
    assert_eq!(names.len(), 19);
    for i in 0..names.len() {
        for j in 0..names.len() {
            if i != j {
                assert_ne!(names[i], names[j]);
            }
        }
    }
}

#[test]
fn unknown_names_are_no_operation() {
    assert_eq!(Op::from_name(""), None);
    assert_eq!(Op::from_name("op_read"), None);
    assert_eq!(Op::from_name("op_read_file "), None);
    assert_eq!(Op::from_name("OP_READ_FILE"), None);
    assert_eq!(Op::from_name("op_stop_watch"), None);
}

#[test]
fn schemas_follow_the_table() {
    assert_eq!(Op::BuildInfo.arguments(), ArgumentSchema::Unit);
    assert_eq!(Op::BuildInfo.result(), ResultSchema::TextList);
    assert_eq!(Op::Load.arguments(), ArgumentSchema::Load);
    assert_eq!(Op::Load.result(), ResultSchema::Text);
    assert_eq!(Op::ReadFile.arguments(), ArgumentSchema::ReadFile);
    assert_eq!(Op::ReadFile.result(), ResultSchema::Text);
    assert_eq!(Op::WriteFile.arguments(), ArgumentSchema::WriteFile);
    assert_eq!(Op::WriteFile.result(), ResultSchema::Unit);
    assert_eq!(Op::FileExists.arguments(), ArgumentSchema::Path);
    assert_eq!(Op::FileExists.result(), ResultSchema::Flag);
    assert_eq!(Op::DirectoryExists.result(), ResultSchema::Flag);
    assert_eq!(Op::CreateDirectory.result(), ResultSchema::Unit);
    assert_eq!(Op::DeleteFile.result(), ResultSchema::Unit);
    assert_eq!(Op::GetDirectories.result(), ResultSchema::TextList);
    assert_eq!(Op::ReadDirectory.arguments(), ArgumentSchema::ReadDirectory);
    assert_eq!(Op::ReadDirectory.result(), ResultSchema::TextList);
    assert_eq!(Op::GetCurrentDirectory.arguments(), ArgumentSchema::Unit);
    assert_eq!(Op::GetCurrentDirectory.result(), ResultSchema::Text);
    assert_eq!(Op::GetEnv.arguments(), ArgumentSchema::GetEnv);
    assert_eq!(Op::GetEnv.result(), ResultSchema::OptionalText);
    assert_eq!(Op::GetFileSize.result(), ResultSchema::Number);
    assert_eq!(Op::GetModifiedTime.result(), ResultSchema::Number);
    assert_eq!(Op::SetModifiedTime.arguments(), ArgumentSchema::SetModifiedTime);
    assert_eq!(Op::SetModifiedTime.result(), ResultSchema::Unit);
    assert_eq!(Op::GetMemoryUsage.arguments(), ArgumentSchema::Unit);
    assert_eq!(Op::GetMemoryUsage.result(), ResultSchema::Number);
    assert_eq!(Op::CreateHash.arguments(), ArgumentSchema::CreateHash);
    assert_eq!(Op::CreateHash.result(), ResultSchema::Text);
    assert_eq!(Op::WatchFile.arguments(), ArgumentSchema::WatchFile);
    assert_eq!(Op::WatchFile.result(), ResultSchema::Number);
    assert_eq!(Op::WatchDirectory.arguments(), ArgumentSchema::WatchDirectory);
    assert_eq!(Op::WatchDirectory.result(), ResultSchema::Number);
}

#[test]
fn registry_of_a_phase_holds_its_catalogue() {
    let build = OpRegistry::for_phase(Phase::Build);
    assert_eq!(build.len(), 2);
    assert_eq!(build.ops(), &catalogue(Phase::Build));
    let run = OpRegistry::for_phase(Phase::Run);
    assert_eq!(run.len(), 17);
    assert_eq!(run.ops(), &catalogue(Phase::Run));
}

#[test]
fn registry_is_append_only_and_registers_once() {
    let mut registry = OpRegistry::new();
    assert_eq!(registry.len(), 0);
    assert_eq!(registry.register(Op::ReadFile), Some(0));
    assert_eq!(registry.register(Op::WriteFile), Some(1));
    assert_eq!(registry.register(Op::ReadFile), None);
    assert_eq!(registry.len(), 2);
    assert_eq!(registry.ops(), &vec![Op::ReadFile, Op::WriteFile]);
    assert_eq!(registry.position(Op::ReadFile), Some(0));
    assert_eq!(registry.position(Op::WriteFile), Some(1));
    assert_eq!(registry.position(Op::DeleteFile), None);
}

#[test]
fn registry_dispatches_registered_names_only() {
    let build = OpRegistry::for_phase(Phase::Build);
    assert_eq!(build.dispatch("op_load"), Some(Op::Load));
    assert_eq!(build.dispatch("op_build_info"), Some(Op::BuildInfo));
    assert_eq!(build.dispatch("op_read_file"), None);
    let run = OpRegistry::for_phase(Phase::Run);
    assert_eq!(run.dispatch("op_read_file"), Some(Op::ReadFile));
    assert_eq!(run.dispatch("op_load"), None);
    assert_eq!(run.dispatch("nothing"), None);
    for op in catalogue(Phase::Run) {
        assert_eq!(run.dispatch(op.name()), Some(op));
    }
}
