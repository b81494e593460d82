//! The decisions of the database-container launcher: which port it uses,
//! how the container is configured, and what it does after each answer of
//! the container engine.  Talking to the engine, sleeping and printing are
//! left to the caller, which hands each answer back as an event.

use vstd::prelude::*;
use vstd::utf8::encode_utf8;
use crate::decimal::{decimal, parse_unsigned, parse_unsigned_spec, to_decimal, IntErrorKind};

verus! {

/// The port used when no port is configured.
pub const DEFAULT_PORT: u16 = 4725;

/// How many times the launcher inspects the container's health.
pub const HEALTH_CHECKS: u32 = 5;

/// How long the launcher waits between two health inspections.
pub const HEALTH_WAIT_SECONDS: u64 = 5;

/// The port that a setting gives: the default port when nothing is set,
/// otherwise the setting's text parsed as a `u16`.
pub open spec fn port_setting_spec(setting: Option<Seq<char>>) -> Result<int, IntErrorKind> {
    match setting {
        None => Ok(DEFAULT_PORT as int),
        Some(text) => parse_unsigned_spec(encode_utf8(text), 65535),
    }
}

/// The database port, from the text of its setting (the environment
/// variable `WORKSHOP_DB_PORT`, when it is set to valid Unicode).
pub fn port_from_setting(setting: Option<&str>) -> (r: Result<u16, IntErrorKind>)
    ensures
        match port_setting_spec(
            match setting {
                Some(s) => Some(s@),
                None => None,
            },
        ) {
            Ok(v) => r matches Ok(p) && p == v,
            Err(e) => r == Err::<u16, IntErrorKind>(e),
        },
{
    match setting {
        None => Ok(DEFAULT_PORT),
        Some(text) => {
            match parse_unsigned(text.as_bytes(), 65535) {
                Ok(v) => Ok(v as u16),
                Err(e) => Err(e),
            }
        },
    }
}

/// The image the launcher pulls and runs.
pub open spec fn postgres_image() -> Seq<char> {
    "postgres:14"@
}

/// How the database container is created: plain values that the caller
/// turns into the container engine's own configuration.
pub struct ContainerSpec {
    /// The image to run.
    pub image: String,
    /// The container's name.
    pub name: String,
    /// The exposed container port, as `<port>/tcp`.
    pub exposed_port: String,
    /// The host port bound to the exposed port.
    pub host_port: String,
    /// The health-check command.
    pub healthcheck_test: Vec<String>,
    /// Time between two health checks, in nanoseconds.
    pub healthcheck_interval_ns: i64,
    /// Time a health check may take, in nanoseconds.
    pub healthcheck_timeout_ns: i64,
    /// Failed checks before the container counts as unhealthy.
    pub healthcheck_retries: i64,
    /// Start-up time before failed checks count, in nanoseconds.
    pub healthcheck_start_period_ns: i64,
    /// The container's environment, as `NAME=value` entries.
    pub env: Vec<String>,
}

/// The container specification for the database named `name` on `port`.
pub fn container_spec(name: &str, port: u16) -> (spec: ContainerSpec)
    ensures
        spec.image@ == postgres_image(),
        spec.name@ == name@,
        spec.exposed_port@ == decimal(port as nat) + "/tcp"@,
        spec.host_port@ == decimal(port as nat),
        spec.healthcheck_test@.len() == 2,
        spec.healthcheck_test@[0]@ == "CMD"@,
        spec.healthcheck_test@[1]@ == "pg_isready"@,
        spec.healthcheck_interval_ns == 10_000_000_000,
        spec.healthcheck_timeout_ns == 5_000_000_000,
        spec.healthcheck_retries == 5,
        spec.healthcheck_start_period_ns == 1_000_000_000,
        spec.env@.len() == 3,
        spec.env@[0]@ == "POSTGRES_PASSWORD=password"@,
        spec.env@[1]@ == "POSTGRES_USER=postgres"@,
        spec.env@[2]@ == "POSTGRES_DB=postgres"@,
{
    let host_port = to_decimal(port as u64);
    let mut exposed_port = to_decimal(port as u64);
    exposed_port.append("/tcp");
    let mut healthcheck_test: Vec<String> = Vec::new();
    healthcheck_test.push("CMD".to_owned());
    healthcheck_test.push("pg_isready".to_owned());
    let mut env: Vec<String> = Vec::new();
    env.push("POSTGRES_PASSWORD=password".to_owned());
    env.push("POSTGRES_USER=postgres".to_owned());
    env.push("POSTGRES_DB=postgres".to_owned());
    ContainerSpec {
        image: "postgres:14".to_owned(),
        name: name.to_owned(),
        exposed_port,
        host_port,
        healthcheck_test,
        healthcheck_interval_ns: 10_000_000_000,
        healthcheck_timeout_ns: 5_000_000_000,
        healthcheck_retries: 5,
        healthcheck_start_period_ns: 1_000_000_000,
        env,
    }
}

/// The health status that the container engine reports.
#[derive(Debug, Clone, Copy, PartialEq, Eq)]
pub enum HealthStatus {
    /// The engine left the status empty.
    Unset,
    /// The container has no health check.
    NoCheck,
    /// The container is healthy.
    Healthy,
    /// The container is unhealthy.
    Unhealthy,
    /// The health check has not settled yet.
    Starting,
}

/// What an inspection of the container tells of its health.
#[derive(Debug, Clone, Copy, PartialEq, Eq)]
pub enum HealthReport {
    /// The inspection has no state field.
    MissingState,
    /// The state has no health field.
    MissingHealth,
    /// The health has no status field.
    MissingStatus,
    /// The reported status.
    Status(HealthStatus),
}

/// The answer of the container engine to the last action.
#[derive(Debug, Clone, Copy, PartialEq, Eq)]
pub enum LaunchEvent {
    /// The image was downloaded.
    ImagePulled,
    /// Downloading the image failed.
    ImagePullFailed,
    /// The container was created.
    ContainerCreated,
    /// Creating the container failed; the engine's HTTP status, when it
    /// answered with one.
    CreateFailed { status_code: Option<u16> },
    /// The container was started.
    ContainerStarted,
    /// Starting the container failed.
    StartFailed,
    /// The container was inspected.
    Inspected { report: HealthReport },
    /// Inspecting the container failed.
    InspectFailed,
    /// The wait between two inspections is over.
    Slept,
}

/// Where the launcher stands.
#[derive(Debug, Clone, Copy, PartialEq, Eq)]
pub enum LaunchState {
    /// Waiting for the image download.
    PullingImage,
    /// Waiting for the container to be created.
    CreatingContainer,
    /// Waiting for the container to start.
    StartingContainer,
    /// Waiting for an inspection, after `checks_done` earlier ones.
    Inspecting { checks_done: u32 },
    /// Waiting between inspections, after `checks_done` of them.
    Waiting { checks_done: u32 },
    /// The launch is over.
    Finished,
}

/// Why a launch failed.
#[derive(Debug, Clone, Copy, PartialEq, Eq)]
pub enum LaunchError {
    /// The image download failed.
    ImagePull,
    /// Creating the container failed, and not because it exists already.
    CreateContainer,
    /// Starting the container failed.
    StartContainer,
    /// Inspecting the container failed.
    InspectContainer,
    /// An inspection had no state.
    MissingState,
    /// An inspection had no health.
    MissingHealth,
    /// An inspection had no health status.
    MissingHealthStatus,
    /// The container was not healthy at any inspection.
    NeverHealthy,
}

/// What the caller does next.
#[derive(Debug, Clone, Copy, PartialEq, Eq)]
pub enum Action {
    /// Download the image.
    PullImage,
    /// Create the container from `container_spec`.
    CreateContainer,
    /// Start the container.
    StartContainer,
    /// Inspect the container.
    InspectContainer,
    /// Wait that many seconds.
    Sleep { seconds: u64 },
    /// Return the outcome of the launch.
    Finish { outcome: Result<(), LaunchError> },
}

/// A line that the launcher reports to its user.
#[derive(Debug, Clone, Copy, PartialEq, Eq)]
pub enum Notice {
    /// The image download begins.
    Downloading,
    /// A container of that name exists already.
    AlreadyExists,
    /// The container was created.
    Created,
    /// The container was started.
    Started,
    /// An inspection found the container not healthy.
    NotHealthy,
    /// An inspection found the container healthy.
    Healthy,
}

/// One decision: the next state, the action to perform and the notice to
/// report, if any.
#[derive(Debug, Clone, Copy, PartialEq, Eq)]
pub struct Step {
    pub state: LaunchState,
    pub action: Action,
    pub notice: Option<Notice>,
}

/// The states that a launch can be in.
pub open spec fn launch_state_wf(state: LaunchState) -> bool {
    match state {
        LaunchState::Inspecting { checks_done } => checks_done < HEALTH_CHECKS,
        LaunchState::Waiting { checks_done } => 1 <= checks_done <= HEALTH_CHECKS,
        _ => true,
    }
}

/// The events that can answer the action that led to `state`.
pub open spec fn event_expected(state: LaunchState, event: LaunchEvent) -> bool {
    match state {
        LaunchState::PullingImage => event is ImagePulled || event is ImagePullFailed,
        LaunchState::CreatingContainer => event is ContainerCreated || event is CreateFailed,
        LaunchState::StartingContainer => event is ContainerStarted || event is StartFailed,
        LaunchState::Inspecting { .. } => event is Inspected || event is InspectFailed,
        LaunchState::Waiting { .. } => event is Slept,
        LaunchState::Finished => false,
    }
}

/// The action is the one that the state waits on.
pub open spec fn action_fits_state(step: Step) -> bool {
    match step.state {
        LaunchState::PullingImage => step.action is PullImage,
        LaunchState::CreatingContainer => step.action is CreateContainer,
        LaunchState::StartingContainer => step.action is StartContainer,
        LaunchState::Inspecting { .. } => step.action is InspectContainer,
        LaunchState::Waiting { .. } => step.action is Sleep,
        LaunchState::Finished => step.action is Finish,
    }
}

/// The first decision of a launch: download the image.
pub open spec fn launch_initial() -> Step {
    Step {
        state: LaunchState::PullingImage,
        action: Action::PullImage,
        notice: Some(Notice::Downloading),
    }
}

/// The end of a launch with `outcome`.
pub open spec fn finish(outcome: Result<(), LaunchError>, notice: Option<Notice>) -> Step {
    Step { state: LaunchState::Finished, action: Action::Finish { outcome }, notice }
}

/// The decision taken in `state` on `event`.
pub open spec fn launch_transition(state: LaunchState, event: LaunchEvent) -> Step {
    match (state, event) {
        (LaunchState::PullingImage, LaunchEvent::ImagePulled) => Step {
            state: LaunchState::CreatingContainer,
            action: Action::CreateContainer,
            notice: None,
        },
        (LaunchState::PullingImage, LaunchEvent::ImagePullFailed) =>
            finish(Err(LaunchError::ImagePull), None),
        (LaunchState::CreatingContainer, LaunchEvent::ContainerCreated) => Step {
            state: LaunchState::StartingContainer,
            action: Action::StartContainer,
            notice: Some(Notice::Created),
        },
        (LaunchState::CreatingContainer, LaunchEvent::CreateFailed { status_code }) =>
            if status_code == Some(409u16) {
                Step {
                    state: LaunchState::Inspecting { checks_done: 0 },
                    action: Action::InspectContainer,
                    notice: Some(Notice::AlreadyExists),
                }
            } else {
                finish(Err(LaunchError::CreateContainer), None)
            },
        (LaunchState::StartingContainer, LaunchEvent::ContainerStarted) => Step {
            state: LaunchState::Inspecting { checks_done: 0 },
            action: Action::InspectContainer,
            notice: Some(Notice::Started),
        },
        (LaunchState::StartingContainer, LaunchEvent::StartFailed) =>
            finish(Err(LaunchError::StartContainer), None),
        (LaunchState::Inspecting { checks_done }, LaunchEvent::Inspected { report }) =>
            match report {
                HealthReport::MissingState => finish(Err(LaunchError::MissingState), None),
                HealthReport::MissingHealth => finish(Err(LaunchError::MissingHealth), None),
                HealthReport::MissingStatus => finish(Err(LaunchError::MissingHealthStatus), None),
                HealthReport::Status(HealthStatus::Healthy) => finish(Ok(()), Some(Notice::Healthy)),
                HealthReport::Status(_) => Step {
                    state: LaunchState::Waiting { checks_done: (checks_done + 1) as u32 },
                    action: Action::Sleep { seconds: HEALTH_WAIT_SECONDS },
                    notice: Some(Notice::NotHealthy),
                },
            },
        (LaunchState::Inspecting { .. }, LaunchEvent::InspectFailed) =>
            finish(Err(LaunchError::InspectContainer), None),
        (LaunchState::Waiting { checks_done }, LaunchEvent::Slept) =>
            if checks_done < HEALTH_CHECKS {
                Step {
                    state: LaunchState::Inspecting { checks_done },
                    action: Action::InspectContainer,
                    notice: None,
                }
            } else {
                finish(Err(LaunchError::NeverHealthy), None)
            },
        // Answers that `event_expected` rules out: no launch reaches this arm.
        _ => Step { state, action: Action::Finish { outcome: Err(LaunchError::ImagePull) }, notice: None },
    }
}

/// Begins a launch.
pub fn launch_start() -> (step: Step)
    ensures
        step == launch_initial(),
        launch_state_wf(step.state),
{
    Step {
        state: LaunchState::PullingImage,
        action: Action::PullImage,
        notice: Some(Notice::Downloading),
    }
}

/// Decides what follows `event` in `state`.
pub fn launch_step(state: LaunchState, event: LaunchEvent) -> (step: Step)
    requires
        launch_state_wf(state),
        event_expected(state, event),
    ensures
        step == launch_transition(state, event),
        launch_state_wf(step.state),
{
    match (state, event) {
        (LaunchState::PullingImage, LaunchEvent::ImagePulled) => Step {
            state: LaunchState::CreatingContainer,
            action: Action::CreateContainer,
            notice: None,
        },
        (LaunchState::CreatingContainer, LaunchEvent::ContainerCreated) => Step {
            state: LaunchState::StartingContainer,
            action: Action::StartContainer,
            notice: Some(Notice::Created),
        },
        (LaunchState::CreatingContainer, LaunchEvent::CreateFailed { status_code }) => {
            let conflict = match status_code {
                Some(code) => code == 409,
                None => false,
            };
            if conflict {
                Step {
                    state: LaunchState::Inspecting { checks_done: 0 },
                    action: Action::InspectContainer,
                    notice: Some(Notice::AlreadyExists),
                }
            } else {
                Step {
                    state: LaunchState::Finished,
                    action: Action::Finish { outcome: Err(LaunchError::CreateContainer) },
                    notice: None,
                }
            }
        },
        (LaunchState::StartingContainer, LaunchEvent::ContainerStarted) => Step {
            state: LaunchState::Inspecting { checks_done: 0 },
            action: Action::InspectContainer,
            notice: Some(Notice::Started),
        },
        (LaunchState::Inspecting { checks_done }, LaunchEvent::Inspected { report }) => {
            let failure = match report {
                HealthReport::MissingState => Some(LaunchError::MissingState),
                HealthReport::MissingHealth => Some(LaunchError::MissingHealth),
                HealthReport::MissingStatus => Some(LaunchError::MissingHealthStatus),
                HealthReport::Status(_) => None,
            };
            match failure {
                Some(e) => Step {
                    state: LaunchState::Finished,
                    action: Action::Finish { outcome: Err(e) },
                    notice: None,
                },
                None => {
                    let healthy = match report {
                        HealthReport::Status(HealthStatus::Healthy) => true,
                        _ => false,
                    };
                    if healthy {
                        Step {
                            state: LaunchState::Finished,
                            action: Action::Finish { outcome: Ok(()) },
                            notice: Some(Notice::Healthy),
                        }
                    } else {
                        Step {
                            state: LaunchState::Waiting { checks_done: checks_done + 1 },
                            action: Action::Sleep { seconds: HEALTH_WAIT_SECONDS },
                            notice: Some(Notice::NotHealthy),
                        }
                    }
                },
            }
        },
        (LaunchState::Waiting { checks_done }, LaunchEvent::Slept) => {
            if checks_done < HEALTH_CHECKS {
                Step {
                    state: LaunchState::Inspecting { checks_done },
                    action: Action::InspectContainer,
                    notice: None,
                }
            } else {
                Step {
                    state: LaunchState::Finished,
                    action: Action::Finish { outcome: Err(LaunchError::NeverHealthy) },
                    notice: None,
                }
            }
        },
        (LaunchState::Inspecting { .. }, LaunchEvent::InspectFailed) => Step {
            state: LaunchState::Finished,
            action: Action::Finish { outcome: Err(LaunchError::InspectContainer) },
            notice: None,
        },
        (LaunchState::StartingContainer, _) => Step {
            state: LaunchState::Finished,
            action: Action::Finish { outcome: Err(LaunchError::StartContainer) },
            notice: None,
        },
        _ => Step {
            state: LaunchState::Finished,
            action: Action::Finish { outcome: Err(LaunchError::ImagePull) },
            notice: None,
        },
    }
}

/// The line reported for `notice` about the container named `name`.
pub open spec fn notice_line(notice: Notice, name: Seq<char>) -> Seq<char> {
    match notice {
        Notice::Downloading => "Downloading Postgres image."@,
        Notice::AlreadyExists => "Container named "@ + name + " already exists, nothing to do."@,
        Notice::Created => "Container created."@,
        Notice::Started => "Container started."@,
        Notice::NotHealthy => "Container is not healthy, waiting..."@,
        Notice::Healthy => "Container is healthy, ready to use"@,
    }
}

/// The line to report for `notice` about the container named `name`.
pub fn notice_text(notice: Notice, name: &str) -> (line: String)
    ensures
        line@ == notice_line(notice, name@),
{
    match notice {
        Notice::Downloading => "Downloading Postgres image.".to_owned(),
        Notice::AlreadyExists => {
            let mut line = "Container named ".to_owned();
            line.append(name);
            line.append(" already exists, nothing to do.");
            line
        },
        Notice::Created => "Container created.".to_owned(),
        Notice::Started => "Container started.".to_owned(),
        Notice::NotHealthy => "Container is not healthy, waiting...".to_owned(),
        Notice::Healthy => "Container is healthy, ready to use".to_owned(),
    }
}

/// The message that a failed launch adds to the engine's error, or that
/// stands alone when there is no engine error; none when the engine's own
/// error is passed on unchanged.
pub open spec fn launch_error_context(error: LaunchError) -> Option<Seq<char>> {
    match error {
        LaunchError::ImagePull => None,
        LaunchError::CreateContainer => None,
        LaunchError::StartContainer => Some("Failed to start container"@),
        LaunchError::InspectContainer => None,
        LaunchError::MissingState => Some("Missing container state field"@),
        LaunchError::MissingHealth => Some("Missing container health field"@),
        LaunchError::MissingHealthStatus => Some("Missing health status field"@),
        LaunchError::NeverHealthy => Some("Container failed to become healthy"@),
    }
}

impl LaunchError {
    /// The message of this failure; see `launch_error_context`.
    pub fn context(&self) -> (message: Option<String>)
        ensures
            match launch_error_context(*self) {
                Some(m) => message matches Some(s) && s@ == m,
                None => message is None,
            },
    {
        match self {
            LaunchError::ImagePull => None,
            LaunchError::CreateContainer => None,
            LaunchError::StartContainer => Some("Failed to start container".to_owned()),
            LaunchError::InspectContainer => None,
            LaunchError::MissingState => Some("Missing container state field".to_owned()),
            LaunchError::MissingHealth => Some("Missing container health field".to_owned()),
            LaunchError::MissingHealthStatus => Some("Missing health status field".to_owned()),
            LaunchError::NeverHealthy => Some("Container failed to become healthy".to_owned()),
        }
    }
}

/// A bound on the number of decisions left before the launch is over.
pub open spec fn launch_measure(state: LaunchState) -> nat {
    match state {
        LaunchState::PullingImage => 14,
        LaunchState::CreatingContainer => 13,
        LaunchState::StartingContainer => 12,
        LaunchState::Inspecting { checks_done } => (2 * (HEALTH_CHECKS - checks_done)) as nat,
        LaunchState::Waiting { checks_done } => (2 * (HEALTH_CHECKS - checks_done) + 1) as nat,
        LaunchState::Finished => 0,
    }
}

/// How many inspections the launcher may still ask for.
pub open spec fn inspections_left(state: LaunchState) -> nat {
    match state {
        LaunchState::Inspecting { checks_done } => (HEALTH_CHECKS - checks_done) as nat,
        LaunchState::Waiting { checks_done } => (HEALTH_CHECKS - checks_done) as nat,
        LaunchState::Finished => 0,
        _ => HEALTH_CHECKS as nat,
    }
}

/// Every launch ends: each decision keeps the state well formed and brings
/// it strictly closer to `Finished`, which admits no further event; and
/// each decision asks for the action whose answers its state expects, the
/// end of the launch exactly in `Finished`.
pub proof fn lemma_launch_progress(state: LaunchState, event: LaunchEvent)
    requires
        launch_state_wf(state),
        event_expected(state, event),
    ensures
        launch_state_wf(launch_transition(state, event).state),
        launch_measure(launch_transition(state, event).state) < launch_measure(state),
        action_fits_state(launch_transition(state, event)),
        action_fits_state(launch_initial()),
        forall|e: LaunchEvent| !event_expected(LaunchState::Finished, e),
{
}

/// The launcher inspects the container at most `HEALTH_CHECKS` times: a
/// launch starts with that many inspections allowed, no decision adds one,
/// and each inspection answered uses one up.
pub proof fn lemma_inspections_bounded(state: LaunchState, event: LaunchEvent)
    requires
        launch_state_wf(state),
        event_expected(state, event),
    ensures
        inspections_left(launch_initial().state) == HEALTH_CHECKS,
        inspections_left(launch_transition(state, event).state)
            + (if event is Inspected || event is InspectFailed { 1int } else { 0int }) <= inspections_left(state),
        launch_transition(state, event).action is InspectContainer ==> inspections_left(
            launch_transition(state, event).state,
        ) >= 1,
{
}

/// A launch succeeds only on an inspection that reports the container
/// healthy, it gives up as never healthy only after `HEALTH_CHECKS`
/// inspections that were not, and a failed inspection ends it with an
/// error.
pub proof fn lemma_launch_outcomes(state: LaunchState, event: LaunchEvent)
    requires
        launch_state_wf(state),
        event_expected(state, event),
    ensures
        launch_transition(state, event).action == (Action::Finish { outcome: Ok(()) }) <==> (
        event == LaunchEvent::Inspected { report: HealthReport::Status(HealthStatus::Healthy) }),
        launch_transition(state, event).action == (Action::Finish {
            outcome: Err(LaunchError::NeverHealthy),
        }) <==> state == (LaunchState::Waiting { checks_done: HEALTH_CHECKS }),
        event is InspectFailed ==> launch_transition(state, event).action == (Action::Finish {
            outcome: Err(LaunchError::InspectContainer),
        }),
{
}

/// Each inspection that finds the container not healthy, whatever the
/// status, uses up exactly one health check and leads to a wait; after the
/// wait the launcher inspects again while fewer than `HEALTH_CHECKS` checks
/// are used, and gives up as never healthy once all of them are.  So a
/// launch that never sees a healthy container inspects it exactly
/// `HEALTH_CHECKS` times before it fails.
pub proof fn lemma_health_checks_counted(checks_done: u32, status: HealthStatus)
    requires
        checks_done < HEALTH_CHECKS,
        status != HealthStatus::Healthy,
    ensures
        launch_transition(
            LaunchState::Inspecting { checks_done },
            LaunchEvent::Inspected { report: HealthReport::Status(status) },
        ) == (Step {
            state: LaunchState::Waiting { checks_done: (checks_done + 1) as u32 },
            action: Action::Sleep { seconds: 5 },
            notice: Some(Notice::NotHealthy),
        }),
        checks_done + 1 < 5 ==> launch_transition(
            LaunchState::Waiting { checks_done: (checks_done + 1) as u32 },
            LaunchEvent::Slept,
        ) == (Step {
            state: LaunchState::Inspecting { checks_done: (checks_done + 1) as u32 },
            action: Action::InspectContainer,
            notice: None,
        }),
        checks_done + 1 == 5 ==> launch_transition(
            LaunchState::Waiting { checks_done: (checks_done + 1) as u32 },
            LaunchEvent::Slept,
        ).action == (Action::Finish { outcome: Err(LaunchError::NeverHealthy) }),
        launch_transition(
            LaunchState::Inspecting { checks_done },
            LaunchEvent::Inspected { report: HealthReport::Status(HealthStatus::Healthy) },
        ).action == (Action::Finish { outcome: Ok(()) }),
        HEALTH_CHECKS == 5,
{
}

/// The port setting: the default 4725 when nothing is set, and any port
/// written in decimal gives that port back.
pub proof fn lemma_port_setting_reads_decimal(port: nat)
    requires
        port <= 65535,
    ensures
        port_setting_spec(None) == Ok::<int, IntErrorKind>(4725),
        port_setting_spec(Some(decimal(port))) == Ok::<int, IntErrorKind>(port as int),
{
    crate::decimal::lemma_parse_decimal_roundtrip(port, 65535);
}

/// A container that exists already (the engine answers the creation with
/// status 409) is neither created nor started again: the launcher goes on
/// to wait for it to become healthy.
pub proof fn lemma_existing_container_reused(status_code: Option<u16>)
    ensures
        launch_transition(LaunchState::CreatingContainer, LaunchEvent::CreateFailed { status_code })
            == (if status_code == Some(409u16) {
            Step {
                state: LaunchState::Inspecting { checks_done: 0 },
                action: Action::InspectContainer,
                notice: Some(Notice::AlreadyExists),
            }
        } else {
            finish(Err(LaunchError::CreateContainer), None)
        }),
{
}

} // verus!
