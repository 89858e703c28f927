use vstd::prelude::*;

verus! {

/// Lifecycle state of a task. `Completed` and `Failed` are terminal.
#[derive(Clone, Copy, Debug, PartialEq, Eq, Structural, Hash, Default)]
pub enum State {
    #[default]
    Pending,
    Scheduled,
    Completed,
    Running,
    Failed,
}

/// The row of the transition table for `from`: every state a task in
/// `from` may move to.
pub open spec fn targets(from: State) -> Seq<State> {
    match from {
        State::Pending => seq![State::Scheduled],
        State::Scheduled => seq![State::Scheduled, State::Failed, State::Running],
        State::Running => seq![State::Running, State::Completed, State::Failed],
        State::Completed => Seq::empty(),
        State::Failed => Seq::empty(),
    }
}

/// A transition is legal exactly when the table lists it.
pub open spec fn is_legal(from: State, to: State) -> bool {
    targets(from).contains(to)
}

/// The legal transitions, pair by pair: the seven listed ones are legal,
/// every other pair is not, and the terminal states lead nowhere.
pub proof fn lemma_legal_pairs(from: State, to: State)
    ensures
        is_legal(from, to) <==> {
            ||| from == State::Pending && to == State::Scheduled
            ||| from == State::Scheduled && to == State::Scheduled
            ||| from == State::Scheduled && to == State::Failed
            ||| from == State::Scheduled && to == State::Running
            ||| from == State::Running && to == State::Running
            ||| from == State::Running && to == State::Completed
            ||| from == State::Running && to == State::Failed
        },
        !is_legal(State::Completed, to),
        !is_legal(State::Failed, to),
{
    assert(targets(State::Completed).len() == 0);
    assert(targets(State::Failed).len() == 0);
    match from {
        State::Pending => assert(targets(from)[0] == State::Scheduled),
        State::Scheduled => {
            assert(targets(from)[0] == State::Scheduled);
            assert(targets(from)[1] == State::Failed);
            assert(targets(from)[2] == State::Running);
        },
        State::Running => {
            assert(targets(from)[0] == State::Running);
            assert(targets(from)[1] == State::Completed);
            assert(targets(from)[2] == State::Failed);
        },
        _ => {},
    }
}

/// The table row for `from`, as a vector.
fn allowed_targets(from: State) -> (r: Vec<State>)
    ensures
        r@ == targets(from),
{
    let r = match from {
        State::Pending => vec![State::Scheduled],
        State::Scheduled => vec![State::Scheduled, State::Failed, State::Running],
        State::Running => vec![State::Running, State::Completed, State::Failed],
        State::Completed => Vec::new(),
        State::Failed => Vec::new(),
    };
    assert(r@ =~= targets(from));
    r
}

/// Whether the transition table allows a task in `src` to move to `dst`.
pub fn contains(src: &State, dst: &State) -> (r: bool)
    ensures
        r == is_legal(*src, *dst),
{
    let row = allowed_targets(*src);
    let mut i: usize = 0;
    while i < row.len()
        invariant
            i <= row.len(),
            row@ == targets(*src),
            forall|j: int| 0 <= j < i ==> row@[j] != *dst,
        decreases row.len() - i,
    {
        if row[i] == *dst {
            return true;
        }
        i += 1;
    }
    false
}

/// One unit of work: a container to launch, stop and track. The id is the
/// 128-bit value of the task's UUID; times are seconds since the Unix epoch.
#[derive(Clone, Debug, Default, PartialEq, Eq)]
pub struct Task {
    pub id: u128,
    pub container_id: Option<String>,
    pub name: String,
    pub state: State,
    pub image: String,
    pub memory: Option<u64>,
    pub disk: Option<u64>,
    pub exposed_ports: Option<Vec<String>>,
    pub port_bindings: Option<Vec<(String, String)>>,
    pub restart_policy: Option<String>,
    pub start_time: Option<i64>,
    pub finish_time: Option<i64>,
}

/// A record of an attempted transition, for audit and history.
#[derive(Clone, Debug, Default, PartialEq)]
pub struct TaskEvent {
    pub id: u128,
    pub state: State,
    pub timestamp: i64,
    pub task: Task,
}

} // verus!
