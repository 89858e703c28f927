use std::collections::VecDeque;
use vstd::prelude::*;

use crate::driver::{
    is_start_success, launch_image, Config, DockerClient, DockerResult, DomainError, DriverError,
    ErrorKind, RuntimeCall, STOP_GRACE_SECONDS, UNPROCESSABLE,
};
use crate::store::Store;
use crate::task::{contains, is_legal, State, Task};

verus! {

/// What one processing cycle asks of its caller.
#[derive(Debug)]
pub enum Dispatch {
    /// The cycle is over; this is its result.
    Done(DockerResult),
    /// Launch `task`: carry out `call` and the calls the driver asks for
    /// after it, then hand the outcome to `finish_start`.
    Start { task: Task, call: RuntimeCall },
    /// Stop a container: carry out `call` and the calls the driver asks for
    /// after it; the driver's outcome is the cycle's result, unchanged.
    Stop { call: RuntimeCall },
}

/// What the worker does with a task, given the state it is checked against.
#[derive(Debug, Clone, Copy, PartialEq, Eq, Structural)]
pub enum Decision {
    NoOp,
    Invalid,
    Start,
    Stop,
}

/// The state a task is checked against: its stored snapshot's, or, on the
/// first sighting of its id, its own.
pub open spec fn prior_state(store: Map<u128, Task>, t: Task) -> State {
    if store.contains_key(t.id) {
        store[t.id].state
    } else {
        t.state
    }
}

/// The container id a stop uses: the stored snapshot's, or, on the first
/// sighting of the task's id, its own.
pub open spec fn stored_container(store: Map<u128, Task>, t: Task) -> Option<String> {
    if store.contains_key(t.id) {
        store[t.id].container_id
    } else {
        t.container_id
    }
}

/// Illegal transitions are refused; legal ones to `Scheduled` launch, to
/// `Completed` stop, and to any other state do nothing.
pub open spec fn decide(prior: State, incoming: State) -> Decision {
    if !is_legal(prior, incoming) {
        Decision::Invalid
    } else if incoming == State::Scheduled {
        Decision::Start
    } else if incoming == State::Completed {
        Decision::Stop
    } else {
        Decision::NoOp
    }
}

/// The result of a cycle that did nothing.
pub open spec fn is_noop(dr: DockerResult) -> bool {
    &&& dr.error is None
    &&& dr.action@ == "run"@
    &&& dr.container_id is None
    &&& dr.result is None
}

/// The result of a cycle that refused an illegal transition.
pub open spec fn is_invalid_state(dr: DockerResult) -> bool {
    &&& dr.error is Some
    &&& dr.error->0.kind == ErrorKind::InvalidState
    &&& dr.error->0.code == UNPROCESSABLE
    &&& dr.action@ == "run"@
    &&& dr.container_id is None
    &&& dr.result is None
}

/// The result of a stop that had no container to stop.
pub open spec fn is_missing_container(dr: DockerResult) -> bool {
    &&& dr.error is Some
    &&& dr.error->0.kind == ErrorKind::InvalidRequest
    &&& dr.error->0.code == UNPROCESSABLE
    &&& dr.error->0.message@ == "missing container id"@
    &&& dr.action@ == "stop"@
    &&& dr.container_id is None
    &&& dr.result is Some
    &&& dr.result->0@ == "failed"@
}

/// `r` launches `t`, starting with the image its name and image call for.
pub open spec fn starts(r: Dispatch, t: Task) -> bool {
    &&& r is Start
    &&& r->task == t
    &&& r->Start_call is CreateImage
    &&& r->Start_call->from_image@ == launch_image(t.image@)
}

/// `r` stops the container `cid`, or reports that there is none.
pub open spec fn stops(r: Dispatch, cid: Option<String>) -> bool {
    match cid {
        Some(c) => {
            &&& r is Stop
            &&& r->Stop_call is StopContainer
            &&& r->Stop_call->StopContainer_container_id@ == c@
            &&& r->Stop_call->t == STOP_GRACE_SECONDS
        },
        None => r is Done && is_missing_container(r->Done_0),
    }
}

/// `r` is what a cycle owes for task `t` against `store`.
pub open spec fn dispatches(r: Dispatch, store: Map<u128, Task>, t: Task) -> bool {
    match decide(prior_state(store, t), t.state) {
        Decision::Invalid => r is Done && is_invalid_state(r->Done_0),
        Decision::NoOp => r is Done && is_noop(r->Done_0),
        Decision::Start => starts(r, t),
        Decision::Stop => stops(r, stored_container(store, t)),
    }
}

/// The snapshot stored for `t` once its launch has come back with
/// `outcome`: running in the new container from `now` on, or failed.
pub open spec fn started(t: Task, outcome: Result<DockerResult, DriverError>, now: i64) -> Task {
    match outcome {
        Ok(dr) => if dr.error is None {
            Task { state: State::Running, container_id: dr.container_id, start_time: Some(now), ..t }
        } else {
            Task { state: State::Failed, ..t }
        },
        Err(_) => Task { state: State::Failed, ..t },
    }
}

fn decision(prior: State, incoming: State) -> (r: Decision)
    ensures
        r == decide(prior, incoming),
{
    if !contains(&prior, &incoming) {
        Decision::Invalid
    } else {
        match incoming {
            State::Scheduled => Decision::Start,
            State::Completed => Decision::Stop,
            _ => Decision::NoOp,
        }
    }
}

fn noop_result() -> (r: DockerResult)
    ensures
        is_noop(r),
{
    DockerResult::new(None, "run".to_string(), None, None)
}

fn copy_id(id: &Option<String>) -> (r: Option<String>)
    ensures
        r == *id,
{
    match id {
        Some(c) => Some(c.clone()),
        None => None,
    }
}

/// A worker: a FIFO queue of tasks awaiting action. The task store is
/// handed to each call, not owned.
#[derive(Debug)]
pub struct Worker {
    pub name: Option<String>,
    pub queue: VecDeque<Task>,
    pub task_count: usize,
}

impl Worker {
    pub fn new(name: String) -> (r: Self)
        ensures
            r.name == Some(name),
            r.queue@ == Seq::<Task>::empty(),
            r.task_count == 0,
    {
        Worker { name: Some(name), queue: VecDeque::new(), task_count: 0 }
    }

    pub fn collect_stats(&self) {
    }

    /// Appends `t` to the back of the queue.
    pub fn add_task(&mut self, t: Task)
        ensures
            final(self).queue@ == old(self).queue@.push(t),
            final(self).name == old(self).name,
            final(self).task_count == old(self).task_count,
    {
        self.queue.push_back(t)
    }

    /// Begins one processing cycle: takes the task at the front of the
    /// queue, checks its transition against the state it is stored in, and
    /// says what comes next. An empty queue ends the cycle at once.
    pub fn run_task(&mut self, store: &Store) -> (r: Dispatch)
        ensures
            final(self).name == old(self).name,
            final(self).task_count == old(self).task_count,
            old(self).queue@.len() == 0 ==> {
                &&& final(self).queue@ == old(self).queue@
                &&& r is Done
                &&& is_noop(r->Done_0)
            },
            old(self).queue@.len() > 0 ==> {
                &&& final(self).queue@ == old(self).queue@.drop_first()
                &&& dispatches(r, store@, old(self).queue@[0])
            },
    {
        match self.queue.pop_front() {
            None => Dispatch::Done(noop_result()),
            Some(t) => {
                let prior = match store.get(t.id) {
                    Some(p) => p.state,
                    None => t.state,
                };
                match decision(prior, t.state) {
                    Decision::Invalid => {
                        let error = DomainError {
                            kind: ErrorKind::InvalidState,
                            code: UNPROCESSABLE,
                            message: "invalid task state".to_string(),
                        };
                        Dispatch::Done(DockerResult::new(Some(error), "run".to_string(), None, None))
                    },
                    Decision::Start => self.start_task(t),
                    Decision::Stop => {
                        let container_id = match store.get(t.id) {
                            Some(p) => copy_id(&p.container_id),
                            None => copy_id(&t.container_id),
                        };
                        self.stop_task(Task { container_id, ..t })
                    },
                    Decision::NoOp => Dispatch::Done(noop_result()),
                }
            },
        }
    }

    /// Begins the launch of `t`, from launch settings built from its name
    /// and image.
    pub fn start_task(&self, t: Task) -> (r: Dispatch)
        ensures
            starts(r, t),
    {
        let config = Config::new(t.name.as_str(), t.image.as_str(), None);
        let dc = DockerClient::new(config);
        let call = dc.run();
        Dispatch::Start { task: t, call }
    }

    /// Records how the launch of `t` ended and passes the outcome on: on
    /// success the task is stored running in its new container, on any
    /// failure it is stored failed.
    pub fn finish_start(
        &self,
        store: &mut Store,
        t: Task,
        outcome: Result<DockerResult, DriverError>,
        now: i64,
    ) -> (r: Result<DockerResult, DriverError>)
        ensures
            final(store)@ == old(store)@.insert(t.id, started(t, outcome, now)),
            r == outcome,
    {
        let mut t = t;
        match &outcome {
            Ok(dr) => {
                if dr.error.is_none() {
                    t.state = State::Running;
                    t.container_id = copy_id(&dr.container_id);
                    t.start_time = Some(now);
                } else {
                    t.state = State::Failed;
                }
            },
            Err(_) => {
                t.state = State::Failed;
            },
        }
        let id = t.id;
        store.put(id, t);
        outcome
    }

    /// Begins the stop of the container `t` runs in. A task without a
    /// container id needs no runtime call: the cycle ends with a domain
    /// error.
    pub fn stop_task(&self, t: Task) -> (r: Dispatch)
        ensures
            stops(r, t.container_id),
    {
        let config = Config::new(t.name.as_str(), t.image.as_str(), None);
        let dc = DockerClient::new(config);
        match &t.container_id {
            Some(container_id) => Dispatch::Stop { call: dc.stop(container_id.as_str()) },
            None => {
                let error = DomainError {
                    kind: ErrorKind::InvalidRequest,
                    code: UNPROCESSABLE,
                    message: "missing container id".to_string(),
                };
                Dispatch::Done(
                    DockerResult::new(Some(error), "stop".to_string(), None, Some("failed".to_string())),
                )
            },
        }
    }
}

/// A scheduled task whose launch succeeds is stored running, in the
/// non-empty container id that the launch reported. This holds wherever the
/// transition to `Scheduled` is legal: the task is new to the store, or
/// stored pending or scheduled.
pub proof fn lemma_successful_launch_runs(
    store: Map<u128, Task>,
    t: Task,
    dr: DockerResult,
    now: i64,
)
    requires
        t.state == State::Scheduled,
        is_legal(prior_state(store, t), t.state),
        is_start_success(dr),
    ensures
        decide(prior_state(store, t), t.state) == Decision::Start,
        store.insert(t.id, started(t, Ok(dr), now))[t.id].state == State::Running,
        store.insert(t.id, started(t, Ok(dr), now))[t.id].container_id == dr.container_id,
        store.insert(t.id, started(t, Ok(dr), now))[t.id].container_id->0@.len() > 0,
{
}

/// A scheduled task whose launch fails is stored failed, and the failure is
/// what the cycle returns. This holds wherever the transition to
/// `Scheduled` is legal.
pub proof fn lemma_failed_launch_fails(
    store: Map<u128, Task>,
    t: Task,
    error: DriverError,
    now: i64,
)
    requires
        t.state == State::Scheduled,
        is_legal(prior_state(store, t), t.state),
    ensures
        decide(prior_state(store, t), t.state) == Decision::Start,
        store.insert(t.id, started(t, Err(error), now))[t.id].state == State::Failed,
{
}

/// The queue is first in, first out: after `a` and then `b` are added to an
/// empty queue, the first cycle takes `a`, the second `b`, and the queue is
/// then empty.
pub proof fn lemma_queue_is_fifo(a: Task, b: Task)
    ensures
        Seq::<Task>::empty().push(a).push(b)[0] == a,
        Seq::<Task>::empty().push(a).push(b).drop_first()[0] == b,
        Seq::<Task>::empty().push(a).push(b).drop_first().drop_first().len() == 0,
{
}

} // verus!
