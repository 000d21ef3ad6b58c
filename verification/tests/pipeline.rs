use rainbow::pipeline::stage_plan;
use rainbow::program::ModuleType;

#[test]
fn a_run_from_bytes_begins_and_ends() {
    assert_eq!(stage_plan(2, true), vec![ModuleType::BEGINNING, ModuleType::END]);
    assert_eq!(
        stage_plan(4, true),
        vec![ModuleType::BEGINNING, ModuleType::MIDDLE, ModuleType::MIDDLE, ModuleType::END]
    );
}

#[test]
fn a_run_from_a_program_has_no_beginning() {
    assert_eq!(stage_plan(1, false), vec![ModuleType::END]);
    assert_eq!(stage_plan(3, false), vec![ModuleType::MIDDLE, ModuleType::MIDDLE, ModuleType::END]);
}
