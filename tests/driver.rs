use orchestrator::driver::{
    Config, DockerClient, DockerResult, DriverError, Progress, Reply, RuntimeCall, DEFAULT_IMAGE,
    STOP_GRACE_SECONDS,
};

fn failure(message: &str) -> DriverError {
    DriverError { message: message.to_string() }
}

fn next(p: Progress) -> RuntimeCall {
    match p {
        Progress::Next(call) => call,
        Progress::Finished(outcome) => panic!("finished early: {:?}", outcome),
    }
}

fn finished(p: Progress) -> Result<DockerResult, DriverError> {
    match p {
        Progress::Finished(outcome) => outcome,
        Progress::Next(call) => panic!("expected the end, got {:?}", call),
    }
}

#[test]
fn config_new_sets_name_image_and_env() {
    let c = Config::new("test-container-1", "alpine:3", Some(vec!["A=1".to_string()]));
    assert_eq!(c.name, "test-container-1");
    assert_eq!(c.image, "alpine:3");
    assert_eq!(c.env, Some(vec!["A=1".to_string()]));
    assert_eq!(c.cmd, None);
    assert_eq!(c.memory, None);
    assert_eq!(c.restart_policy, None);
}

#[test]
fn run_pulls_the_configured_image() {
    let dc = DockerClient::new(Config::new("web", "strm/helloworld-http", None));
    assert_eq!(dc.container_id, None);
    assert_eq!(
        dc.run(),
        RuntimeCall::CreateImage { from_image: "strm/helloworld-http".to_string() }
    );
}

#[test]
fn run_without_image_pulls_the_default() {
    let dc = DockerClient::new(Config::new("web", "", None));
    assert_eq!(dc.run(), RuntimeCall::CreateImage { from_image: "alpine:3".to_string() });
    assert_eq!(DEFAULT_IMAGE, "alpine:3");
}

#[test]
fn launch_goes_pull_create_start() {
    let dc = DockerClient::new(Config::new("web", "nginx", None));
    let call = next(dc.run().advance(Reply::Done));
    assert_eq!(call, RuntimeCall::CreateContainer { image: "nginx".to_string(), tty: true });
    let call = next(call.advance(Reply::Created { id: "abc123".to_string() }));
    assert_eq!(call, RuntimeCall::StartContainer { container_id: "abc123".to_string() });
    let outcome = finished(call.advance(Reply::Done));
    assert_eq!(
        outcome,
        Ok(DockerResult {
            error: None,
            action: "start".to_string(),
            container_id: Some("abc123".to_string()),
            result: Some("success".to_string()),
        })
    );
}

#[test]
fn failed_pull_ends_the_launch() {
    let dc = DockerClient::new(Config::new("web", "nginx", None));
    let outcome = finished(dc.run().advance(Reply::Failed { error: failure("pull refused") }));
    assert_eq!(outcome, Err(failure("pull refused")));
}

#[test]
fn failed_create_ends_the_launch() {
    let call = RuntimeCall::CreateContainer { image: "nginx".to_string(), tty: true };
    assert_eq!(
        finished(call.advance(Reply::Failed { error: failure("no such image") })),
        Err(failure("no such image"))
    );
}

#[test]
fn failed_start_ends_the_launch() {
    let call = RuntimeCall::StartContainer { container_id: "abc".to_string() };
    assert_eq!(
        finished(call.advance(Reply::Failed { error: failure("start failed") })),
        Err(failure("start failed"))
    );
}

#[test]
fn create_without_an_id_is_an_error() {
    let call = RuntimeCall::CreateContainer { image: "nginx".to_string(), tty: true };
    assert_eq!(
        finished(call.clone().advance(Reply::Done)),
        Err(failure("runtime returned no container id"))
    );
    assert_eq!(
        finished(call.advance(Reply::Created { id: String::new() })),
        Err(failure("runtime returned no container id"))
    );
}

#[test]
fn stop_goes_stop_then_forced_remove() {
    let dc = DockerClient::new(Config::new("web", "nginx", None));
    let call = dc.stop("abc123");
    assert_eq!(
        call,
        RuntimeCall::StopContainer { container_id: "abc123".to_string(), t: 15 }
    );
    assert_eq!(STOP_GRACE_SECONDS, 15);
    let call = next(call.advance(Reply::Done));
    assert_eq!(
        call,
        RuntimeCall::RemoveContainer { container_id: "abc123".to_string(), force: true }
    );
    assert_eq!(
        finished(call.advance(Reply::Done)),
        Ok(DockerResult {
            error: None,
            action: "stop".to_string(),
            container_id: Some("abc123".to_string()),
            result: Some("success".to_string()),
        })
    );
}

#[test]
fn failed_stop_or_remove_is_reported() {
    let stop = RuntimeCall::StopContainer { container_id: "abc".to_string(), t: 15 };
    assert_eq!(
        finished(stop.advance(Reply::Failed { error: failure("unreachable") })),
        Err(failure("unreachable"))
    );
    let remove = RuntimeCall::RemoveContainer { container_id: "abc".to_string(), force: true };
    assert_eq!(
        finished(remove.advance(Reply::Failed { error: failure("busy") })),
        Err(failure("busy"))
    );
}

#[test]
fn docker_result_new_keeps_its_fields() {
    let dr = DockerResult::new(None, "run".to_string(), Some("x".to_string()), None);
    assert_eq!(dr.error, None);
    assert_eq!(dr.action, "run");
    assert_eq!(dr.container_id, Some("x".to_string()));
    assert_eq!(dr.result, None);
}
