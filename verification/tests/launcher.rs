use workshop::launcher::{
    container_spec, launch_start, launch_step, notice_text, port_from_setting, Action, HealthReport,
    HealthStatus, LaunchError, LaunchEvent, LaunchState, Notice, Step, DEFAULT_PORT,
};
use workshop::decimal::IntErrorKind;

#[test]
fn port_setting() {
    assert_eq!(port_from_setting(None), Ok(DEFAULT_PORT));
    assert_eq!(DEFAULT_PORT, 4725);
    assert_eq!(port_from_setting(Some("5432")), Ok(5432));
    assert_eq!(port_from_setting(Some("65535")), Ok(65535));
    assert_eq!(port_from_setting(Some("65536")), Err(IntErrorKind::PosOverflow));
    assert_eq!(port_from_setting(Some("")), Err(IntErrorKind::Empty));
    assert_eq!(port_from_setting(Some("54x")), Err(IntErrorKind::InvalidDigit));
}

#[test]
fn container_configuration() {
    let spec = container_spec("workshop-db", 4725);
    assert_eq!(spec.image, "postgres:14");
    assert_eq!(spec.name, "workshop-db");
    assert_eq!(spec.exposed_port, "4725/tcp");
    assert_eq!(spec.host_port, "4725");
    assert_eq!(spec.healthcheck_test, vec!["CMD".to_string(), "pg_isready".to_string()]);
    assert_eq!(spec.healthcheck_interval_ns, 10_000_000_000);
    assert_eq!(spec.healthcheck_timeout_ns, 5_000_000_000);
    assert_eq!(spec.healthcheck_retries, 5);
    assert_eq!(spec.healthcheck_start_period_ns, 1_000_000_000);
    assert_eq!(
        spec.env,
        vec![
            "POSTGRES_PASSWORD=password".to_string(),
            "POSTGRES_USER=postgres".to_string(),
            "POSTGRES_DB=postgres".to_string()
        ]
    );
    assert_eq!(container_spec("x", 0).exposed_port, "0/tcp");
}

/// Runs the launcher on a list of engine answers and gathers its actions.
fn run(events: &[LaunchEvent]) -> Vec<Step> {
    let mut steps = vec![launch_start()];
    for event in events {
        let last = *steps.last().unwrap();
        steps.push(launch_step(last.state, *event));
    }
    steps
}

fn healthy() -> LaunchEvent {
    LaunchEvent::Inspected { report: HealthReport::Status(HealthStatus::Healthy) }
}

fn starting() -> LaunchEvent {
    LaunchEvent::Inspected { report: HealthReport::Status(HealthStatus::Starting) }
}

#[test]
fn fresh_container_becomes_healthy() {
    let steps = run(&[
        LaunchEvent::ImagePulled,
        LaunchEvent::ContainerCreated,
        LaunchEvent::ContainerStarted,
        starting(),
        LaunchEvent::Slept,
        healthy(),
    ]);
    let actions: Vec<Action> = steps.iter().map(|s| s.action).collect();
    assert_eq!(
        actions,
        vec![
            Action::PullImage,
            Action::CreateContainer,
            Action::StartContainer,
            Action::InspectContainer,
            Action::Sleep { seconds: 5 },
            Action::InspectContainer,
            Action::Finish { outcome: Ok(()) },
        ]
    );
    let notices: Vec<Option<Notice>> = steps.iter().map(|s| s.notice).collect();
    assert_eq!(
        notices,
        vec![
            Some(Notice::Downloading),
            None,
            Some(Notice::Created),
            Some(Notice::Started),
            Some(Notice::NotHealthy),
            None,
            Some(Notice::Healthy),
        ]
    );
}

#[test]
fn existing_container_is_not_created_again() {
    let steps = run(&[
        LaunchEvent::ImagePulled,
        LaunchEvent::CreateFailed { status_code: Some(409) },
        healthy(),
    ]);
    assert_eq!(steps[2].action, Action::InspectContainer);
    assert_eq!(steps[2].notice, Some(Notice::AlreadyExists));
    assert_eq!(steps[3].action, Action::Finish { outcome: Ok(()) });
}

#[test]
fn other_creation_failures_end_the_launch() {
    for status_code in [None, Some(500), Some(404)] {
        let steps = run(&[LaunchEvent::ImagePulled, LaunchEvent::CreateFailed { status_code }]);
        assert_eq!(steps[2].action, Action::Finish { outcome: Err(LaunchError::CreateContainer) });
        assert_eq!(steps[2].state, LaunchState::Finished);
    }
}

#[test]
fn download_and_start_failures() {
    let steps = run(&[LaunchEvent::ImagePullFailed]);
    assert_eq!(steps[1].action, Action::Finish { outcome: Err(LaunchError::ImagePull) });
    let steps = run(&[LaunchEvent::ImagePulled, LaunchEvent::ContainerCreated, LaunchEvent::StartFailed]);
    assert_eq!(steps[3].action, Action::Finish { outcome: Err(LaunchError::StartContainer) });
}

#[test]
fn never_healthy_after_five_inspections() {
    let mut events = vec![LaunchEvent::ImagePulled, LaunchEvent::ContainerCreated, LaunchEvent::ContainerStarted];
    for status in [HealthStatus::Starting, HealthStatus::Unhealthy, HealthStatus::Unset, HealthStatus::NoCheck, HealthStatus::Starting] {
        events.push(LaunchEvent::Inspected { report: HealthReport::Status(status) });
        events.push(LaunchEvent::Slept);
    }
    let steps = run(&events);
    let inspections = steps.iter().filter(|s| s.action == Action::InspectContainer).count();
    assert_eq!(inspections, 5);
    assert_eq!(steps.last().unwrap().action, Action::Finish { outcome: Err(LaunchError::NeverHealthy) });
}

#[test]
fn missing_fields_end_the_launch() {
    let base = [LaunchEvent::ImagePulled, LaunchEvent::ContainerCreated, LaunchEvent::ContainerStarted];
    for (report, error) in [
        (HealthReport::MissingState, LaunchError::MissingState),
        (HealthReport::MissingHealth, LaunchError::MissingHealth),
        (HealthReport::MissingStatus, LaunchError::MissingHealthStatus),
    ] {
        let mut events = base.to_vec();
        events.push(LaunchEvent::Inspected { report });
        let steps = run(&events);
        assert_eq!(steps.last().unwrap().action, Action::Finish { outcome: Err(error) });
    }
}

#[test]
fn failed_inspection_ends_the_launch() {
    let steps = run(&[
        LaunchEvent::ImagePulled,
        LaunchEvent::ContainerCreated,
        LaunchEvent::ContainerStarted,
        LaunchEvent::InspectFailed,
    ]);
    assert_eq!(steps[4].action, Action::Finish { outcome: Err(LaunchError::InspectContainer) });
    assert_eq!(steps[4].state, LaunchState::Finished);
    assert_eq!(LaunchError::InspectContainer.context(), None);
}

#[test]
fn notices_and_messages() {
    assert_eq!(notice_text(Notice::Downloading, "db"), "Downloading Postgres image.");
    assert_eq!(notice_text(Notice::AlreadyExists, "db"), "Container named db already exists, nothing to do.");
    assert_eq!(notice_text(Notice::Created, "db"), "Container created.");
    assert_eq!(notice_text(Notice::Started, "db"), "Container started.");
    assert_eq!(notice_text(Notice::NotHealthy, "db"), "Container is not healthy, waiting...");
    assert_eq!(notice_text(Notice::Healthy, "db"), "Container is healthy, ready to use");
    assert_eq!(LaunchError::StartContainer.context(), Some("Failed to start container".to_string()));
    assert_eq!(LaunchError::MissingState.context(), Some("Missing container state field".to_string()));
    assert_eq!(LaunchError::MissingHealth.context(), Some("Missing container health field".to_string()));
    assert_eq!(LaunchError::MissingHealthStatus.context(), Some("Missing health status field".to_string()));
    assert_eq!(LaunchError::NeverHealthy.context(), Some("Container failed to become healthy".to_string()));
    assert_eq!(LaunchError::ImagePull.context(), None);
    assert_eq!(LaunchError::CreateContainer.context(), None);
}
