use vstd::prelude::*;

verus! {

/// Image launched when a task names none.
pub const DEFAULT_IMAGE: &'static str = "alpine:3";

/// Seconds the runtime waits for a container to stop before killing it.
pub const STOP_GRACE_SECONDS: i64 = 15;

/// Status code carried by every domain error.
pub const UNPROCESSABLE: u16 = 422;

/// What kind of expected, reportable condition a domain error is.
#[derive(Clone, Copy, Debug, PartialEq, Eq, Structural)]
pub enum ErrorKind {
    /// The request cannot be carried out as given (no container to stop).
    InvalidRequest,
    /// The requested transition is not in the transition table.
    InvalidState,
}

/// A domain error: an ordinary result value that callers branch on.
#[derive(Clone, Debug, PartialEq, Eq)]
pub struct DomainError {
    pub kind: ErrorKind,
    pub code: u16,
    pub message: String,
}

/// A failure of the container runtime (unreachable, pull failed, protocol
/// error), as reported by the call that failed.
#[derive(Clone, Debug, PartialEq, Eq)]
pub struct DriverError {
    pub message: String,
}

/// The outcome of one driver action.
#[derive(Clone, Debug, PartialEq, Eq)]
pub struct DockerResult {
    pub error: Option<DomainError>,
    pub action: String,
    pub container_id: Option<String>,
    pub result: Option<String>,
}

/// `dr` reports that `action` succeeded on container `id`.
pub open spec fn is_success(dr: DockerResult, action: Seq<char>, id: String) -> bool {
    &&& dr.error is None
    &&& dr.action@ == action
    &&& dr.container_id == Some(id)
    &&& dr.result is Some
    &&& dr.result->0@ == "success"@
}

/// `dr` reports a successful launch of a container with a non-empty id.
pub open spec fn is_start_success(dr: DockerResult) -> bool {
    &&& dr.container_id is Some
    &&& dr.container_id->0@.len() > 0
    &&& is_success(dr, "start"@, dr.container_id->0)
}

impl DockerResult {
    pub fn new(
        error: Option<DomainError>,
        action: String,
        container_id: Option<String>,
        result: Option<String>,
    ) -> (r: Self)
        ensures
            r == (DockerResult { error, action, container_id, result }),
    {
        DockerResult { error, action, container_id, result }
    }
}

/// Launch settings handed to the runtime.
#[derive(Clone, Debug, Default, PartialEq, Eq)]
pub struct Config {
    pub name: String,
    pub attach_stdin: Option<bool>,
    pub attach_stdout: Option<bool>,
    pub attach_stderr: Option<bool>,
    pub exposed_ports: Option<Vec<String>>,
    pub cmd: Option<Vec<String>>,
    pub image: String,
    pub memory: Option<u64>,
    pub disk: Option<u64>,
    pub env: Option<Vec<String>>,
    pub restart_policy: Option<String>,
}

impl Config {
    /// Settings for a container with the given name, image and environment;
    /// everything else is left unset.
    pub fn new(name: &str, image: &str, env: Option<Vec<String>>) -> (r: Self)
        ensures
            r.name@ == name@,
            r.image@ == image@,
            r.env == env,
            r.attach_stdin is None,
            r.attach_stdout is None,
            r.attach_stderr is None,
            r.exposed_ports is None,
            r.cmd is None,
            r.memory is None,
            r.disk is None,
            r.restart_policy is None,
    {
        Config {
            name: name.to_string(),
            attach_stdin: None,
            attach_stdout: None,
            attach_stderr: None,
            exposed_ports: None,
            cmd: None,
            image: image.to_string(),
            memory: None,
            disk: None,
            env,
            restart_policy: None,
        }
    }
}

/// The image actually launched for a configured image name.
pub open spec fn launch_image(image: Seq<char>) -> Seq<char> {
    if image.len() == 0 {
        DEFAULT_IMAGE@
    } else {
        image
    }
}

/// One call to the container runtime that the driver needs performed.
#[derive(Clone, Debug, PartialEq, Eq)]
pub enum RuntimeCall {
    /// Pull (or create) the image so that it is available locally.
    CreateImage { from_image: String },
    /// Create a container from the image.
    CreateContainer { image: String, tty: bool },
    /// Start a created container.
    StartContainer { container_id: String },
    /// Stop a container, killing it after `t` seconds.
    StopContainer { container_id: String, t: i64 },
    /// Remove a container.
    RemoveContainer { container_id: String, force: bool },
}

/// How the runtime answered the last call.
#[derive(Clone, Debug, PartialEq, Eq)]
pub enum Reply {
    /// The call succeeded.
    Done,
    /// A container was created, with this id.
    Created { id: String },
    /// The call failed.
    Failed { error: DriverError },
}

/// Where a driver action stands after a reply.
#[derive(Debug, PartialEq, Eq)]
pub enum Progress {
    /// Another runtime call is needed.
    Next(RuntimeCall),
    /// The action is over, with this outcome.
    Finished(Result<DockerResult, DriverError>),
}

/// A driver action bound to one set of launch settings. The driver itself
/// performs no I/O: it says which runtime call comes next and how each
/// reply moves the action on.
#[derive(Clone, Debug)]
pub struct DockerClient {
    pub config: Config,
    pub container_id: Option<String>,
}

impl DockerClient {
    pub fn new(config: Config) -> (r: Self)
        ensures
            r.config == config,
            r.container_id is None,
    {
        DockerClient { config, container_id: None }
    }

    /// The first call of a launch: make the image available. An empty image
    /// name stands for the default image.
    pub fn run(&self) -> (r: RuntimeCall)
        ensures
            r is CreateImage,
            r->from_image@ == launch_image(self.config.image@),
    {
        let image = if self.config.image.as_str().is_empty() {
            DEFAULT_IMAGE.to_string()
        } else {
            self.config.image.clone()
        };
        RuntimeCall::CreateImage { from_image: image }
    }

    /// The first call of a stop: stop the container with a bounded grace
    /// period.
    pub fn stop(&self, container_id: &str) -> (r: RuntimeCall)
        ensures
            r is StopContainer,
            r->StopContainer_container_id@ == container_id@,
            r->t == STOP_GRACE_SECONDS,
    {
        RuntimeCall::StopContainer { container_id: container_id.to_string(), t: STOP_GRACE_SECONDS }
    }
}

/// Message of the error raised when a created container comes without an id.
pub open spec fn is_missing_id_error(e: DriverError) -> bool {
    e.message@ == "runtime returned no container id"@
}

/// `r` is where `call` leads when the runtime answers it with `reply`.
pub open spec fn advances(call: RuntimeCall, reply: Reply, r: Progress) -> bool {
    match reply {
        Reply::Failed { error } => r == Progress::Finished(Err(error)),
        _ => match call {
            RuntimeCall::CreateImage { from_image } => r == Progress::Next(
                RuntimeCall::CreateContainer { image: from_image, tty: true },
            ),
            RuntimeCall::CreateContainer { .. } => match reply {
                Reply::Created { id } => if id@.len() > 0 {
                    r == Progress::Next(RuntimeCall::StartContainer { container_id: id })
                } else {
                    r is Finished && r->Finished_0 is Err && is_missing_id_error(
                        r->Finished_0->Err_0,
                    )
                },
                _ => r is Finished && r->Finished_0 is Err && is_missing_id_error(
                    r->Finished_0->Err_0,
                ),
            },
            RuntimeCall::StartContainer { container_id } => {
                &&& r is Finished
                &&& r->Finished_0 is Ok
                &&& is_success(r->Finished_0->Ok_0, "start"@, container_id)
            },
            RuntimeCall::StopContainer { container_id, .. } => r == Progress::Next(
                RuntimeCall::RemoveContainer { container_id, force: true },
            ),
            RuntimeCall::RemoveContainer { container_id, .. } => {
                &&& r is Finished
                &&& r->Finished_0 is Ok
                &&& is_success(r->Finished_0->Ok_0, "stop"@, container_id)
            },
        },
    }
}

impl RuntimeCall {
    /// Moves a driver action on by the runtime's reply to this call. A
    /// failed call ends the action with that error. A launch goes image,
    /// create (with a terminal attached), start, and ends with the new
    /// container's id; a stop goes stop, forced removal, and ends with the
    /// stopped container's id.
    pub fn advance(self, reply: Reply) -> (r: Progress)
        ensures
            advances(self, reply, r),
    {
        if let Reply::Failed { error } = reply {
            return Progress::Finished(Err(error));
        }
        match self {
            RuntimeCall::CreateImage { from_image } => Progress::Next(
                RuntimeCall::CreateContainer { image: from_image, tty: true },
            ),
            RuntimeCall::CreateContainer { .. } => {
                if let Reply::Created { id } = reply {
                    if !id.as_str().is_empty() {
                        return Progress::Next(RuntimeCall::StartContainer { container_id: id });
                    }
                }
                Progress::Finished(
                    Err(DriverError { message: "runtime returned no container id".to_string() }),
                )
            },
            RuntimeCall::StartContainer { container_id } => Progress::Finished(
                Ok(
                    DockerResult::new(
                        None,
                        "start".to_string(),
                        Some(container_id),
                        Some("success".to_string()),
                    ),
                ),
            ),
            RuntimeCall::StopContainer { container_id, .. } => Progress::Next(
                RuntimeCall::RemoveContainer { container_id, force: true },
            ),
            RuntimeCall::RemoveContainer { container_id, .. } => Progress::Finished(
                Ok(
                    DockerResult::new(
                        None,
                        "stop".to_string(),
                        Some(container_id),
                        Some("success".to_string()),
                    ),
                ),
            ),
        }
    }
}

/// A launch whose calls all succeed, with the runtime naming the new
/// container `id`, takes exactly three calls and ends in a successful start
/// of container `id`.
pub proof fn lemma_healthy_launch_starts(
    image: String,
    id: String,
    first: Progress,
    second: Progress,
    third: Progress,
)
    requires
        id@.len() > 0,
        advances(RuntimeCall::CreateImage { from_image: image }, Reply::Done, first),
        advances(first->Next_0, Reply::Created { id }, second),
        advances(second->Next_0, Reply::Done, third),
    ensures
        first == Progress::Next(RuntimeCall::CreateContainer { image, tty: true }),
        second == Progress::Next(RuntimeCall::StartContainer { container_id: id }),
        third is Finished,
        third->Finished_0 is Ok,
        is_start_success(third->Finished_0->Ok_0),
        third->Finished_0->Ok_0.container_id == Some(id),
{
}

} // verus!
