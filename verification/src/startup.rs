//! The order in which the service readies its database, and what it does
//! when a stage fails.

use vstd::prelude::*;
use vstd::string::*;

verus! {

/// The number of connections the pool hands out at most.
pub const MAX_CONNECTIONS: u32 = 10;

/// The status the process exits with when a stage fails.
pub const FAILURE_EXIT_CODE: i32 = 1;

/// The stages of readying the database, in their order.
#[derive(Debug, Clone, Copy, PartialEq, Eq, Structural)]
pub enum Stage {
    /// Open the connection pool.
    Connect,
    /// Apply the schema migrations.
    Migrate,
    /// Run one query to see that the database answers.
    Probe,
}

/// What to do after a stage.
#[derive(Debug, Clone, PartialEq, Eq)]
pub enum StartupAction {
    /// Print the notice and go on with `next`; with `None` the database is
    /// ready.
    Proceed { notice: String, next: Option<Stage> },
    /// Print the notice and end the process with `code`.
    Exit { notice: String, code: i32 },
}

/// Mathematical value of a [`StartupAction`].
pub enum StartupActionView {
    Proceed { notice: Seq<char>, next: Option<Stage> },
    Exit { notice: Seq<char>, code: int },
}

impl View for StartupAction {
    type V = StartupActionView;

    open spec fn view(&self) -> StartupActionView {
        match *self {
            StartupAction::Proceed { notice, next } => StartupActionView::Proceed {
                notice: notice@,
                next,
            },
            StartupAction::Exit { notice, code } => StartupActionView::Exit {
                notice: notice@,
                code: code as int,
            },
        }
    }
}

impl Stage {
    /// The stage that follows, if any.
    pub open spec fn following(self) -> Option<Stage> {
        match self {
            Stage::Connect => Some(Stage::Migrate),
            Stage::Migrate => Some(Stage::Probe),
            Stage::Probe => None,
        }
    }

    /// The notice for a stage that succeeded.
    pub open spec fn success_notice(self) -> Seq<char> {
        match self {
            Stage::Connect => "✅ PostgreSQL connection successful"@,
            Stage::Migrate => "✅ Migrations applied successfully"@,
            Stage::Probe => "✅ Database connection verified"@,
        }
    }

    /// The words that stand before the diagnostic text of a failed stage.
    pub open spec fn failure_prefix(self) -> Seq<char> {
        match self {
            Stage::Connect => "🔥 Failed to connect to database: "@,
            Stage::Migrate => "🔥 Failed to apply migrations: "@,
            Stage::Probe => "🔥 Database connection test failed: "@,
        }
    }
}

/// What follows a stage: after a success the next stage, after a failure
/// the end of the process.
pub open spec fn after_stage_spec(stage: Stage, outcome: Result<(), Seq<char>>) -> StartupActionView {
    match outcome {
        Ok(_) => StartupActionView::Proceed {
            notice: stage.success_notice(),
            next: stage.following(),
        },
        Err(detail) => StartupActionView::Exit {
            notice: stage.failure_prefix() + detail,
            code: FAILURE_EXIT_CODE as int,
        },
    }
}

/// The view of the outcome of a stage: success, or the diagnostic text of
/// the failure.
pub open spec fn stage_outcome_view(outcome: Result<(), String>) -> Result<(), Seq<char>> {
    match outcome {
        Ok(_) => Ok(()),
        Err(detail) => Err(detail@),
    }
}

/// Decides what follows a stage from its outcome. A failure at any stage
/// ends the process with a non-zero status; the database is ready only
/// after the last stage succeeded.
pub fn after_stage(stage: Stage, outcome: Result<(), String>) -> (action: StartupAction)
    ensures
        action@ == after_stage_spec(stage, stage_outcome_view(outcome)),
        outcome is Err ==> action@ is Exit && action@->code != 0,
        action@ matches StartupActionView::Proceed { next: None, .. } ==> stage == Stage::Probe
            && outcome is Ok,
{
    match outcome {
        Ok(_) => {
            let (notice, next) = match stage {
                Stage::Connect => ("✅ PostgreSQL connection successful", Some(Stage::Migrate)),
                Stage::Migrate => ("✅ Migrations applied successfully", Some(Stage::Probe)),
                Stage::Probe => ("✅ Database connection verified", None),
            };
            StartupAction::Proceed { notice: String::from_str(notice), next }
        },
        Err(detail) => {
            let prefix = match stage {
                Stage::Connect => "🔥 Failed to connect to database: ",
                Stage::Migrate => "🔥 Failed to apply migrations: ",
                Stage::Probe => "🔥 Database connection test failed: ",
            };
            StartupAction::Exit {
                notice: String::from_str(prefix).concat(detail.as_str()),
                code: FAILURE_EXIT_CODE,
            }
        },
    }
}

} // verus!
