use loco_gen::migration::{
    first_migration_step, next_migration_action, step_command, MigrationOutcome, MigrationStep,
};

#[test]
fn skip_signal_plans_no_step() {
    assert_eq!(first_migration_step(true), None);
}

#[test]
fn migration_runs_first_when_not_skipped() {
    assert_eq!(first_migration_step(false), Some(MigrationStep::DbMigrate));
}

#[test]
fn step_command_lines() {
    assert_eq!(
        step_command(MigrationStep::DbMigrate),
        vec!["cargo", "loco-tool", "db", "migrate"]
    );
    assert_eq!(
        step_command(MigrationStep::DbEntities),
        vec!["cargo", "loco-tool", "db", "entities"]
    );
}

#[test]
fn successful_migration_proceeds_to_entities() {
    match next_migration_action(MigrationStep::DbMigrate, None) {
        MigrationOutcome::Proceed(next) => assert_eq!(next, MigrationStep::DbEntities),
        MigrationOutcome::Done => panic!("expected to proceed to entities, got Done"),
        MigrationOutcome::Failed(e) => panic!("expected to proceed, got failure: {}", e.message()),
    }
}

#[test]
fn successful_entities_finishes() {
    match next_migration_action(MigrationStep::DbEntities, None) {
        MigrationOutcome::Done => {}
        MigrationOutcome::Proceed(_) => panic!("expected Done, got a further step"),
        MigrationOutcome::Failed(e) => panic!("expected Done, got failure: {}", e.message()),
    }
}

#[test]
fn failed_migration_never_proceeds() {
    match next_migration_action(MigrationStep::DbMigrate, Some("boom".to_string())) {
        MigrationOutcome::Failed(e) => assert_eq!(
            e.message(),
            "failed to run loco db migration. error details: `boom`"
        ),
        MigrationOutcome::Proceed(_) => panic!("a failed migration must not proceed"),
        MigrationOutcome::Done => panic!("a failed migration must not finish the plan"),
    }
}

#[test]
fn failed_entities_reports_entities_step() {
    match next_migration_action(MigrationStep::DbEntities, Some("exit status 1".to_string())) {
        MigrationOutcome::Failed(e) => assert_eq!(
            e.message(),
            "failed to run loco db entities. error details: `exit status 1`"
        ),
        MigrationOutcome::Proceed(_) => panic!("a failed step must not proceed"),
        MigrationOutcome::Done => panic!("a failed step must not finish the plan"),
    }
}
