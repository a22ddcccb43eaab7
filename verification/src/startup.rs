//! The order of the steps of startup, and what the failure of each means.
//!
//! Every step of startup is fatal when it fails: nothing after it is
//! attempted. Supervision, and with it the first start of a child, begins
//! only when all steps have succeeded.

use vstd::prelude::*;

verus! {

/// A step of startup. The variants stand in the order in which the steps
/// are taken.
#[derive(Clone, Copy, Debug, PartialEq, Eq, Structural)]
pub enum StartupStep {
    /// Find the supervisor's configuration file.
    LocateConfig,
    /// Read and parse the configuration file.
    LoadConfig,
    /// Set up logging at the configured level.
    InitLogger,
    /// Connect to the power-status service.
    ConnectService,
    /// Read the current value of the "on battery" property.
    ReadPowerSource,
}

/// Why startup was given up.
#[derive(Clone, Copy, Debug, PartialEq, Eq, Structural)]
pub enum StartupError {
    /// The configuration file is in none of the places searched.
    ConfigNotFound,
    /// The configuration file cannot be read or is malformed.
    ConfigUnreadable,
    /// Logging cannot be set up.
    LoggerFailed,
    /// The power-status service cannot be reached or does not answer.
    ServiceUnreachable,
}

/// What follows a step of startup.
#[derive(Clone, Copy, Debug, PartialEq, Eq, Structural)]
pub enum Next {
    /// Take this step.
    Take(StartupStep),
    /// Startup is complete: begin supervision.
    Supervise,
    /// Give up with this error.
    GiveUp(StartupError),
}

impl StartupStep {
    /// The step's place in the order, counted from zero.
    pub open spec fn position(self) -> int {
        match self {
            StartupStep::LocateConfig => 0,
            StartupStep::LoadConfig => 1,
            StartupStep::InitLogger => 2,
            StartupStep::ConnectService => 3,
            StartupStep::ReadPowerSource => 4,
        }
    }

    /// The error with which startup is given up when this step fails.
    pub open spec fn failure(self) -> StartupError {
        match self {
            StartupStep::LocateConfig => StartupError::ConfigNotFound,
            StartupStep::LoadConfig => StartupError::ConfigUnreadable,
            StartupStep::InitLogger => StartupError::LoggerFailed,
            StartupStep::ConnectService => StartupError::ServiceUnreachable,
            StartupStep::ReadPowerSource => StartupError::ServiceUnreachable,
        }
    }

    /// What follows this step: its error where it failed, else the next
    /// step in the order, and supervision after the last.
    pub open spec fn followed_by(self, succeeded: bool) -> Next {
        if !succeeded {
            Next::GiveUp(self.failure())
        } else {
            match self {
                StartupStep::LocateConfig => Next::Take(StartupStep::LoadConfig),
                StartupStep::LoadConfig => Next::Take(StartupStep::InitLogger),
                StartupStep::InitLogger => Next::Take(StartupStep::ConnectService),
                StartupStep::ConnectService => Next::Take(StartupStep::ReadPowerSource),
                StartupStep::ReadPowerSource => Next::Supervise,
            }
        }
    }

    /// The step with which startup begins.
    pub fn first() -> (step: StartupStep)
        ensures
            step == StartupStep::LocateConfig,
    {
        StartupStep::LocateConfig
    }

    /// Decides what follows this step, given whether it succeeded.
    pub fn after(self, succeeded: bool) -> (next: Next)
        ensures
            next == self.followed_by(succeeded),
    {
        if !succeeded {
            let error = match self {
                StartupStep::LocateConfig => StartupError::ConfigNotFound,
                StartupStep::LoadConfig => StartupError::ConfigUnreadable,
                StartupStep::InitLogger => StartupError::LoggerFailed,
                StartupStep::ConnectService => StartupError::ServiceUnreachable,
                StartupStep::ReadPowerSource => StartupError::ServiceUnreachable,
            };
            Next::GiveUp(error)
        } else {
            match self {
                StartupStep::LocateConfig => Next::Take(StartupStep::LoadConfig),
                StartupStep::LoadConfig => Next::Take(StartupStep::InitLogger),
                StartupStep::InitLogger => Next::Take(StartupStep::ConnectService),
                StartupStep::ConnectService => Next::Take(StartupStep::ReadPowerSource),
                StartupStep::ReadPowerSource => Next::Supervise,
            }
        }
    }
}

/// A whole startup: the steps that were taken, in order, and how it ended.
pub struct Startup {
    pub taken: Seq<StartupStep>,
    pub end: Next,
}

/// The startup that begins with `step`, where `failing` holds the steps
/// that fail when taken.
pub open spec fn startup_from(step: StartupStep, failing: Set<StartupStep>) -> Startup
    decreases 5 - step.position(),
{
    match step.followed_by(!failing.contains(step)) {
        Next::Take(next) => {
            let rest = startup_from(next, failing);
            Startup { taken: seq![step] + rest.taken, end: rest.end }
        },
        end => Startup { taken: seq![step], end },
    }
}

/// The whole startup, from its first step.
pub open spec fn startup(failing: Set<StartupStep>) -> Startup {
    startup_from(StartupStep::LocateConfig, failing)
}

/// All steps of startup, in order.
pub open spec fn all_steps() -> Seq<StartupStep> {
    seq![
        StartupStep::LocateConfig,
        StartupStep::LoadConfig,
        StartupStep::InitLogger,
        StartupStep::ConnectService,
        StartupStep::ReadPowerSource,
    ]
}

/// Startup takes its steps in order and stops at the first that fails: it
/// is given up with that step's error, and no later step is taken.
pub proof fn theorem_startup_stops_at_first_failure(failing: Set<StartupStep>, first: StartupStep)
    requires
        failing.contains(first),
        forall|earlier: StartupStep|
            earlier.position() < first.position() ==> !failing.contains(earlier),
    ensures
        startup(failing).taken == all_steps().take(first.position() + 1),
        startup(failing).end == Next::GiveUp(first.failure()),
{
    reveal_with_fuel(startup_from, 6);
}

/// Startup ends in supervision exactly when no step fails, and then every
/// step was taken, in order. It never ends with a step left to take.
pub proof fn theorem_startup_completes(failing: Set<StartupStep>)
    ensures
        startup(failing).end is Supervise <==> forall|step: StartupStep| !failing.contains(step),
        startup(failing).end is Supervise ==> startup(failing).taken == all_steps(),
        !(startup(failing).end is Take),
{
    reveal_with_fuel(startup_from, 6);
}

/// Where the configuration file is not found, startup is given up at once:
/// locating it is the only step taken, so the power-status service is never
/// contacted, and supervision never begins, so no child is ever started.
pub proof fn theorem_missing_config_stops_startup(failing: Set<StartupStep>)
    requires
        failing.contains(StartupStep::LocateConfig),
    ensures
        startup(failing).taken == seq![StartupStep::LocateConfig],
        startup(failing).end == Next::GiveUp(StartupError::ConfigNotFound),
        !startup(failing).taken.contains(StartupStep::ConnectService),
        !startup(failing).taken.contains(StartupStep::ReadPowerSource),
{
}

} // verus!
