//! The migration plan that follows a successful render: which build-tool
//! steps to run, in which order, what each one's command line is, and
//! how a step's failure is reported. The external processes themselves
//! run outside this library; the decisions are all made here.

use vstd::prelude::*;

use crate::Error;

verus! {

/// One external build-tool step of the post-render phase.
#[derive(Clone, Copy, PartialEq, Eq, Structural, Debug)]
pub enum MigrationStep {
    /// Applies the database migration.
    DbMigrate,
    /// Regenerates the entity bindings from the migrated schema.
    DbEntities,
}

/// What to do after one step has been attempted.
pub enum MigrationOutcome {
    /// Run this step next.
    Proceed(MigrationStep),
    /// Every step has succeeded.
    Done,
    /// The named step failed; no further step is attempted.
    Failed(Error),
}

/// Law: when the skip signal is set, no build-tool step is planned at
/// all; otherwise the plan starts with the database migration.
pub fn first_migration_step(skip_migration: bool) -> (r: Option<MigrationStep>)
    ensures
        skip_migration ==> r is None,
        !skip_migration ==> r == Some(MigrationStep::DbMigrate),
{
    if skip_migration {
        None
    } else {
        Some(MigrationStep::DbMigrate)
    }
}

/// The last word of a step's build-tool subcommand.
pub open spec fn step_subcommand_spec(step: MigrationStep) -> Seq<char> {
    match step {
        MigrationStep::DbMigrate => "migrate"@,
        MigrationStep::DbEntities => "entities"@,
    }
}

/// The full command line of a step, to run in the current working
/// directory with the inherited environment, standard error merged into
/// standard output.
pub fn step_command(step: MigrationStep) -> (r: Vec<&'static str>)
    ensures
        r@.len() == 4,
        r@[0]@ == "cargo"@,
        r@[1]@ == "loco-tool"@,
        r@[2]@ == "db"@,
        r@[3]@ == step_subcommand_spec(step),
{
    let mut v: Vec<&'static str> = Vec::new();
    v.push("cargo");
    v.push("loco-tool");
    v.push("db");
    match step {
        MigrationStep::DbMigrate => v.push("migrate"),
        MigrationStep::DbEntities => v.push("entities"),
    }
    v
}

/// The message reported when a step fails, embedding the underlying
/// error detail and naming the step that failed.
pub open spec fn failure_message_spec(step: MigrationStep, detail: Seq<char>) -> Seq<char> {
    match step {
        MigrationStep::DbMigrate => {
            "failed to run loco db migration. error details: `"@ + detail + "`"@
        },
        MigrationStep::DbEntities => {
            "failed to run loco db entities. error details: `"@ + detail + "`"@
        },
    }
}

/// Law: the steps are strictly sequential and fail fast. A failed step
/// yields the error naming that step and never proceeds, so entity
/// regeneration is attempted only after the migration has succeeded;
/// a successful migration proceeds to entity regeneration, and a
/// successful entity regeneration finishes the plan.
pub fn next_migration_action(step: MigrationStep, run_error: Option<String>) -> (r:
    MigrationOutcome)
    ensures
        run_error matches Some(detail) ==> r matches MigrationOutcome::Failed(e) && e@
            == failure_message_spec(step, detail@),
        run_error is None && step is DbMigrate ==> r == MigrationOutcome::Proceed(
            MigrationStep::DbEntities,
        ),
        run_error is None && step is DbEntities ==> r == MigrationOutcome::Done,
{
    match run_error {
        Some(detail) => {
            let mut m = String::new();
            proof {
                reveal_strlit("failed to run loco db migration. error details: `");
                reveal_strlit("failed to run loco db entities. error details: `");
                reveal_strlit("`");
            }
            match step {
                MigrationStep::DbMigrate => {
                    m.append("failed to run loco db migration. error details: `");
                },
                MigrationStep::DbEntities => {
                    m.append("failed to run loco db entities. error details: `");
                },
            }
            m.append(detail.as_str());
            m.append("`");
            proof {
                assert(m@ =~= failure_message_spec(step, detail@));
            }
            MigrationOutcome::Failed(Error::Message(m))
        },
        None => match step {
            MigrationStep::DbMigrate => MigrationOutcome::Proceed(MigrationStep::DbEntities),
            MigrationStep::DbEntities => MigrationOutcome::Done,
        },
    }
}

} // verus!
