//! The task dispatcher: a manager hands numbered messages to a server and
//! tasks to every executor, round after round, and the server and the
//! executors log what they receive. The decisions live here as state
//! machines; the caller performs each action (log, send, sleep) and
//! reports how a send went.

use vstd::prelude::*;

use crate::text::{decimal, decimal_text};

verus! {

/// Rounds the manager runs before it stops.
pub const ROUNDS: usize = 5;

/// Executors the dispatcher starts.
pub const EXECUTOR_COUNT: usize = 2;

/// Capacity of each channel between the manager and a worker.
pub const CHANNEL_CAPACITY: usize = 32;

/// Seconds the manager waits between rounds.
pub const MANAGER_PAUSE_SECS: u64 = 2;

/// Seconds a worker spends on each message.
pub const WORKER_PAUSE_SECS: u64 = 1;

/// Where the manager stands within a round.
#[derive(Clone, Copy, Debug, PartialEq, Eq, Structural)]
pub enum Stage {
    AnnounceServer,
    SendServer,
    ReportServer,
    AnnounceExecutors,
    SendExecutor(usize),
    ReportExecutor(usize),
    Pause,
    Finished,
}

/// The manager's state: the round, the stage within it, and how many
/// executors it feeds.
#[derive(Clone, Copy, Debug, PartialEq, Eq, Structural)]
pub struct Manager {
    pub round: usize,
    pub stage: Stage,
    pub executors: usize,
}

/// How the last action went: a send is `Failed` when its channel is
/// closed; every other action is `Done`.
#[derive(Clone, Copy, Debug, PartialEq, Eq, Structural)]
pub enum Outcome {
    Done,
    Failed,
}

/// What a dispatcher component asks to be done next.
#[derive(Clone, Debug, PartialEq, Eq)]
pub enum Action {
    Log(String),
    SendToServer(String),
    SendToExecutor(usize, String),
    Sleep(u64),
    Stop,
}

/// An action with its texts taken as characters.
pub enum ActionView {
    Log(Seq<char>),
    SendToServer(Seq<char>),
    SendToExecutor(nat, Seq<char>),
    Sleep(nat),
    Stop,
}

/// The characters of an action.
pub open spec fn action_view(a: Action) -> ActionView {
    match a {
        Action::Log(t) => ActionView::Log(t@),
        Action::SendToServer(t) => ActionView::SendToServer(t@),
        Action::SendToExecutor(k, t) => ActionView::SendToExecutor(k as nat, t@),
        Action::Sleep(s) => ActionView::Sleep(s as nat),
        Action::Stop => ActionView::Stop,
    }
}

/// The message the server gets in round `i`.
pub open spec fn server_message(i: nat) -> Seq<char> {
    "Message "@ + decimal_text(i)
}

/// The task every executor gets in round `i`.
pub open spec fn executor_message(i: nat) -> Seq<char> {
    "Executor Task "@ + decimal_text(i)
}

/// The line logged before a send to the server.
pub open spec fn server_announcement(i: nat) -> Seq<char> {
    "Manager sending to server: "@ + server_message(i)
}

/// The line logged when the server's channel is closed.
pub open spec fn server_failure_report() -> Seq<char> {
    "Manager failed to send message to server"@
}

/// The line logged before the sends to the executors.
pub open spec fn executors_announcement(i: nat) -> Seq<char> {
    "Manager sending to executors: "@ + executor_message(i)
}

/// The line logged when executor `k`'s channel is closed.
pub open spec fn executor_failure_report(k: nat) -> Seq<char> {
    "Manager failed to send message to executor "@ + decimal_text(k)
}

impl Manager {
    /// The states the manager can be in.
    pub open spec fn wf(self) -> bool {
        &&& self.round < ROUNDS || (self.round == ROUNDS && self.stage == Stage::Finished)
        &&& self.stage == Stage::Finished ==> self.round == ROUNDS
        &&& self.stage matches Stage::SendExecutor(k) ==> k < self.executors
        &&& self.stage matches Stage::ReportExecutor(k) ==> k < self.executors
    }

    /// The action of the current stage.
    pub open spec fn spec_action(self) -> ActionView {
        let i = self.round as nat;
        match self.stage {
            Stage::AnnounceServer => ActionView::Log(server_announcement(i)),
            Stage::SendServer => ActionView::SendToServer(server_message(i)),
            Stage::ReportServer => ActionView::Log(server_failure_report()),
            Stage::AnnounceExecutors => ActionView::Log(executors_announcement(i)),
            Stage::SendExecutor(k) => ActionView::SendToExecutor(k as nat, executor_message(i)),
            Stage::ReportExecutor(k) => ActionView::Log(executor_failure_report(k as nat)),
            Stage::Pause => ActionView::Sleep(MANAGER_PAUSE_SECS as nat),
            Stage::Finished => ActionView::Stop,
        }
    }

    /// The stage after the sends to executor `k`.
    pub open spec fn after_executor(self, k: nat) -> Stage {
        if k + 1 < self.executors {
            Stage::SendExecutor((k + 1) as usize)
        } else {
            Stage::Pause
        }
    }

    /// The state after the current action went as `outcome` says.
    pub open spec fn spec_advance(self, outcome: Outcome) -> Manager {
        match self.stage {
            Stage::AnnounceServer => Manager { stage: Stage::SendServer, ..self },
            Stage::SendServer => if outcome == Outcome::Failed {
                Manager { stage: Stage::ReportServer, ..self }
            } else {
                Manager { stage: Stage::AnnounceExecutors, ..self }
            },
            Stage::ReportServer => Manager { stage: Stage::AnnounceExecutors, ..self },
            Stage::AnnounceExecutors => if 0 < self.executors {
                Manager { stage: Stage::SendExecutor(0), ..self }
            } else {
                Manager { stage: Stage::Pause, ..self }
            },
            Stage::SendExecutor(k) => if outcome == Outcome::Failed {
                Manager { stage: Stage::ReportExecutor(k), ..self }
            } else {
                Manager { stage: self.after_executor(k as nat), ..self }
            },
            Stage::ReportExecutor(k) => Manager { stage: self.after_executor(k as nat), ..self },
            Stage::Pause => if self.round + 1 < ROUNDS {
                Manager { round: (self.round + 1) as usize, stage: Stage::AnnounceServer, ..self }
            } else {
                Manager { round: ROUNDS, stage: Stage::Finished, ..self }
            },
            Stage::Finished => self,
        }
    }

    /// A manager that feeds `executors` executors, before its first round.
    pub fn new(executors: usize) -> (m: Manager)
        ensures
            m.wf(),
            m.round == 0,
            m.stage == Stage::AnnounceServer,
            m.executors == executors,
    {
        Manager { round: 0, stage: Stage::AnnounceServer, executors }
    }

    /// What the manager asks to be done now.
    pub fn action(&self) -> (a: Action)
        requires
            self.wf(),
        ensures
            action_view(a) == self.spec_action(),
    {
        let i = self.round;
        match self.stage {
            Stage::AnnounceServer => {
                let text = String::from_str("Manager sending to server: ").concat(
                    round_message("Message ", i).as_str(),
                );
                Action::Log(text)
            },
            Stage::SendServer => Action::SendToServer(round_message("Message ", i)),
            Stage::ReportServer => Action::Log(
                String::from_str("Manager failed to send message to server"),
            ),
            Stage::AnnounceExecutors => {
                let text = String::from_str("Manager sending to executors: ").concat(
                    round_message("Executor Task ", i).as_str(),
                );
                Action::Log(text)
            },
            Stage::SendExecutor(k) => Action::SendToExecutor(
                k,
                round_message("Executor Task ", i),
            ),
            Stage::ReportExecutor(k) => Action::Log(
                String::from_str("Manager failed to send message to executor ").concat(
                    decimal(k).as_str(),
                ),
            ),
            Stage::Pause => Action::Sleep(MANAGER_PAUSE_SECS),
            Stage::Finished => Action::Stop,
        }
    }

    /// Moves past the current action, which went as `outcome` says.
    pub fn advance(&mut self, outcome: Outcome)
        requires
            old(self).wf(),
        ensures
            final(self).wf(),
            *final(self) == old(self).spec_advance(outcome),
    {
        let failed = match outcome {
            Outcome::Failed => true,
            Outcome::Done => false,
        };
        match self.stage {
            Stage::AnnounceServer => self.stage = Stage::SendServer,
            Stage::SendServer => {
                self.stage = if failed {
                    Stage::ReportServer
                } else {
                    Stage::AnnounceExecutors
                };
            },
            Stage::ReportServer => self.stage = Stage::AnnounceExecutors,
            Stage::AnnounceExecutors => {
                self.stage = if 0 < self.executors {
                    Stage::SendExecutor(0)
                } else {
                    Stage::Pause
                };
            },
            Stage::SendExecutor(k) => {
                self.stage = if failed {
                    Stage::ReportExecutor(k)
                } else {
                    self.next_executor(k)
                };
            },
            Stage::ReportExecutor(k) => self.stage = self.next_executor(k),
            Stage::Pause => {
                if self.round + 1 < ROUNDS {
                    self.round = self.round + 1;
                    self.stage = Stage::AnnounceServer;
                } else {
                    self.round = ROUNDS;
                    self.stage = Stage::Finished;
                }
            },
            Stage::Finished => {},
        }
    }

    fn next_executor(&self, k: usize) -> (s: Stage)
        requires
            k < self.executors,
        ensures
            s == self.after_executor(k as nat),
    {
        if k + 1 < self.executors {
            Stage::SendExecutor(k + 1)
        } else {
            Stage::Pause
        }
    }
}

/// `prefix` followed by the round number.
fn round_message(prefix: &str, round: usize) -> (text: String)
    ensures
        text@ == prefix@ + decimal_text(round as nat),
{
    String::from_str(prefix).concat(decimal(round).as_str())
}

/// A component that receives messages.
#[derive(Clone, Copy, Debug, PartialEq, Eq, Structural)]
pub enum Worker {
    Server,
    Executor(usize),
}

/// How a worker names itself in its log lines.
pub open spec fn worker_name(w: Worker) -> Seq<char> {
    match w {
        Worker::Server => "Server"@,
        Worker::Executor(id) => "Executor "@ + decimal_text(id as nat),
    }
}

/// What a worker does with what its channel yields: a message is logged
/// as received, worked on for a second, and logged as processed; a closed
/// channel stops the worker.
pub open spec fn spec_worker_actions(w: Worker, message: Option<Seq<char>>) -> Seq<ActionView> {
    match message {
        Some(m) => seq![
            ActionView::Log(worker_name(w) + " received: "@ + m),
            ActionView::Sleep(WORKER_PAUSE_SECS as nat),
            ActionView::Log(worker_name(w) + " processed message: "@ + m),
        ],
        None => seq![ActionView::Stop],
    }
}

/// The characters of what a channel yielded.
pub open spec fn received_view(message: Option<&str>) -> Option<Seq<char>> {
    match message {
        Some(m) => Some(m@),
        None => None,
    }
}

/// The characters of a list of actions.
pub open spec fn actions_view(actions: Seq<Action>) -> Seq<ActionView> {
    actions.map_values(|a: Action| action_view(a))
}

fn worker_label(w: Worker) -> (label: String)
    ensures
        label@ == worker_name(w),
{
    match w {
        Worker::Server => String::from_str("Server"),
        Worker::Executor(id) => String::from_str("Executor ").concat(decimal(id).as_str()),
    }
}

/// The actions of a worker for what its channel yielded.
pub fn worker_actions(w: Worker, message: Option<&str>) -> (actions: Vec<Action>)
    ensures
        actions_view(actions@) == spec_worker_actions(w, received_view(message)),
{
    let mut actions = Vec::new();
    match message {
        Some(m) => {
            let received = worker_label(w).concat(" received: ").concat(m);
            let processed = worker_label(w).concat(" processed message: ").concat(m);
            actions.push(Action::Log(received));
            actions.push(Action::Sleep(WORKER_PAUSE_SECS));
            actions.push(Action::Log(processed));
        },
        None => {
            actions.push(Action::Stop);
        },
    }
    assert(actions_view(actions@) =~= spec_worker_actions(w, received_view(message)));
    actions
}

/// The actions of `steps` steps from `m` when every send is delivered.
pub open spec fn delivered_run(m: Manager, steps: nat) -> Seq<ActionView>
    decreases steps,
{
    if steps == 0 {
        Seq::empty()
    } else {
        seq![m.spec_action()] + delivered_run(m.spec_advance(Outcome::Done), (steps - 1) as nat)
    }
}

/// The state after `steps` steps from `m` when every send is delivered.
pub open spec fn delivered_state(m: Manager, steps: nat) -> Manager
    decreases steps,
{
    if steps == 0 {
        m
    } else {
        delivered_state(m.spec_advance(Outcome::Done), (steps - 1) as nat)
    }
}

/// The sends of round `i` to executors `from`, `from + 1`, ... up to `n`.
pub open spec fn executor_sends(i: nat, from: nat, n: nat) -> Seq<ActionView> {
    Seq::new(
        (n - from) as nat,
        |j: int| ActionView::SendToExecutor((from + j) as nat, executor_message(i)),
    )
}

/// Round `i` with `n` executors: announce and send the server's message,
/// announce the task, send it to each executor in turn, pause.
pub open spec fn round_plan(i: nat, n: nat) -> Seq<ActionView> {
    seq![
        ActionView::Log(server_announcement(i)),
        ActionView::SendToServer(server_message(i)),
        ActionView::Log(executors_announcement(i)),
    ] + executor_sends(i, 0, n) + seq![ActionView::Sleep(MANAGER_PAUSE_SECS as nat)]
}

/// Rounds `i`, `i + 1`, ... up to the last one.
pub open spec fn rounds_plan(i: nat, n: nat) -> Seq<ActionView>
    decreases ROUNDS - i,
{
    if i >= ROUNDS {
        Seq::empty()
    } else {
        round_plan(i, n) + rounds_plan(i + 1, n)
    }
}

/// Steps of one round with `n` executors when every send is delivered.
pub open spec fn round_steps(n: nat) -> nat {
    n + 4
}

proof fn lemma_run_split(m: Manager, a: nat, b: nat)
    ensures
        delivered_run(m, a + b) == delivered_run(m, a) + delivered_run(delivered_state(m, a), b),
    decreases a,
{
    if a == 0 {
        assert(delivered_run(m, 0) =~= Seq::<ActionView>::empty());
        assert(delivered_run(m, a + b) =~= delivered_run(m, a) + delivered_run(
            delivered_state(m, a),
            b,
        ));
    } else {
        let next = m.spec_advance(Outcome::Done);
        lemma_run_split(next, (a - 1) as nat, b);
        assert((a + b - 1) as nat == ((a - 1) as nat + b) as nat);
        assert(delivered_run(m, a + b) =~= delivered_run(m, a) + delivered_run(
            delivered_state(m, a),
            b,
        ));
    }
}

proof fn lemma_executor_sends(m: Manager, k: nat)
    requires
        m.wf(),
        m.stage == Stage::SendExecutor(k as usize),
        k < m.executors,
    ensures
        delivered_run(m, (m.executors - k) as nat) == executor_sends(
            m.round as nat,
            k,
            m.executors as nat,
        ),
        delivered_state(m, (m.executors - k) as nat) == (Manager { stage: Stage::Pause, ..m }),
    decreases m.executors - k,
{
    let n = m.executors as nat;
    let i = m.round as nat;
    let next = m.spec_advance(Outcome::Done);
    if k + 1 < n {
        lemma_executor_sends(next, k + 1);
        assert(delivered_run(m, (n - k) as nat) =~= executor_sends(i, k, n));
        assert(delivered_state(m, (n - k) as nat) == delivered_state(next, (n - (k + 1)) as nat));
    } else {
        assert(delivered_run(next, 0) =~= Seq::<ActionView>::empty());
        assert(delivered_run(m, (n - k) as nat) =~= executor_sends(i, k, n));
    }
}

proof fn lemma_one_round(m: Manager)
    requires
        m.wf(),
        m.stage == Stage::AnnounceServer,
    ensures
        delivered_run(m, round_steps(m.executors as nat)) == round_plan(
            m.round as nat,
            m.executors as nat,
        ),
        delivered_state(m, round_steps(m.executors as nat)) == (if m.round + 1 < ROUNDS {
            Manager { round: (m.round + 1) as usize, stage: Stage::AnnounceServer, ..m }
        } else {
            Manager { round: ROUNDS, stage: Stage::Finished, ..m }
        }),
{
    let n = m.executors as nat;
    let i = m.round as nat;
    let m1 = m.spec_advance(Outcome::Done);
    let m2 = m1.spec_advance(Outcome::Done);
    let m3 = m2.spec_advance(Outcome::Done);
    let pause = Manager { stage: Stage::Pause, ..m };
    assert(delivered_state(m, 3) == m3) by {
        reveal_with_fuel(delivered_state, 4);
    }
    assert(delivered_run(m, 3) =~= seq![
        ActionView::Log(server_announcement(i)),
        ActionView::SendToServer(server_message(i)),
        ActionView::Log(executors_announcement(i)),
    ]) by {
        reveal_with_fuel(delivered_run, 4);
    }
    if n > 0 {
        lemma_executor_sends(m3, 0);
        lemma_run_split(m3, n, 1);
        lemma_state_split(m3, n, 1);
        assert(delivered_state(m3, n + 1) == delivered_state(pause, 1));
        assert(delivered_run(pause, 1) =~= seq![ActionView::Sleep(MANAGER_PAUSE_SECS as nat)]) by {
            reveal_with_fuel(delivered_run, 2);
        }
        assert(delivered_run(m3, n + 1) =~= executor_sends(i, 0, n) + seq![
            ActionView::Sleep(MANAGER_PAUSE_SECS as nat),
        ]);
    } else {
        assert(m3 == pause);
        assert(delivered_run(m3, 1) =~= seq![ActionView::Sleep(MANAGER_PAUSE_SECS as nat)]) by {
            reveal_with_fuel(delivered_run, 2);
        }
        assert(executor_sends(i, 0, n) =~= Seq::<ActionView>::empty());
        assert(delivered_run(m3, n + 1) =~= executor_sends(i, 0, n) + seq![
            ActionView::Sleep(MANAGER_PAUSE_SECS as nat),
        ]);
    }
    lemma_run_split(m, 3, n + 1);
    assert(3 + (n + 1) == round_steps(n));
    assert(delivered_state(m, 3 + (n + 1)) == delivered_state(m3, n + 1)) by {
        lemma_state_split(m, 3, n + 1);
    }
    assert(delivered_run(m, round_steps(n)) =~= round_plan(i, n));
    assert(delivered_state(pause, 1) == pause.spec_advance(Outcome::Done)) by {
        reveal_with_fuel(delivered_state, 2);
    }
}

proof fn lemma_state_split(m: Manager, a: nat, b: nat)
    ensures
        delivered_state(m, a + b) == delivered_state(delivered_state(m, a), b),
    decreases a,
{
    if a > 0 {
        lemma_state_split(m.spec_advance(Outcome::Done), (a - 1) as nat, b);
        assert((a + b - 1) as nat == ((a - 1) as nat + b) as nat);
    }
}

proof fn lemma_rounds_from(m: Manager)
    requires
        m.wf(),
        m.stage == Stage::AnnounceServer,
    ensures
        delivered_run(m, ((ROUNDS - m.round) * round_steps(m.executors as nat) + 1) as nat)
            == rounds_plan(m.round as nat, m.executors as nat) + seq![ActionView::Stop],
    decreases ROUNDS - m.round,
{
    let n = m.executors as nat;
    let i = m.round as nat;
    let r = round_steps(n);
    let rest = ((ROUNDS - m.round - 1) * r + 1) as nat;
    assert((ROUNDS - m.round) * r + 1 == r + rest) by (nonlinear_arith)
        requires
            rest == (ROUNDS - m.round - 1) * r + 1,
    ;
    lemma_one_round(m);
    lemma_run_split(m, r, rest);
    let next = delivered_state(m, r);
    if m.round + 1 < ROUNDS {
        lemma_rounds_from(next);
        assert(delivered_run(m, ((ROUNDS - m.round) * r + 1) as nat) =~= rounds_plan(i, n) + seq![
            ActionView::Stop,
        ]);
    } else {
        assert(rest == 1) by (nonlinear_arith)
            requires
                rest == (ROUNDS - m.round - 1) * r + 1,
                ROUNDS - m.round - 1 == 0,
        ;
        assert(next.stage == Stage::Finished);
        assert(delivered_run(next.spec_advance(Outcome::Done), 0) =~= Seq::<ActionView>::empty());
        assert(delivered_run(next, 1) =~= seq![ActionView::Stop]);
        assert(rounds_plan(i + 1, n) =~= Seq::<ActionView>::empty());
        assert(delivered_run(m, ((ROUNDS - m.round) * r + 1) as nat) =~= rounds_plan(i, n) + seq![
            ActionView::Stop,
        ]);
    }
}

/// When every send is delivered, a manager feeding `n` executors runs
/// exactly its plan: in each of the rounds it announces and sends the
/// round's message to the server, announces the round's task, sends it to
/// executors `0`, ..., `n - 1` in turn and pauses; then it stops.
pub proof fn lemma_delivered_run_follows_plan(n: usize)
    ensures
        delivered_run(
            Manager { round: 0, stage: Stage::AnnounceServer, executors: n },
            (ROUNDS * round_steps(n as nat) + 1) as nat,
        ) == rounds_plan(0, n as nat) + seq![ActionView::Stop],
{
    lemma_rounds_from(Manager { round: 0, stage: Stage::AnnounceServer, executors: n });
}

/// A failed send never skips, repeats or reorders what follows: the
/// manager first logs the failure and then goes on exactly as it would
/// have after a delivery. Every other action goes on the same way
/// whatever is reported of it.
pub proof fn lemma_failure_only_adds_report(m: Manager)
    requires
        m.wf(),
    ensures
        m.spec_advance(Outcome::Failed).wf(),
        match m.stage {
            Stage::SendServer => {
                &&& m.spec_advance(Outcome::Failed).spec_action() == ActionView::Log(
                    server_failure_report(),
                )
                &&& m.spec_advance(Outcome::Failed).spec_advance(Outcome::Done) == m.spec_advance(
                    Outcome::Done,
                )
            },
            Stage::SendExecutor(k) => {
                &&& m.spec_advance(Outcome::Failed).spec_action() == ActionView::Log(
                    executor_failure_report(k as nat),
                )
                &&& m.spec_advance(Outcome::Failed).spec_advance(Outcome::Done) == m.spec_advance(
                    Outcome::Done,
                )
            },
            _ => m.spec_advance(Outcome::Failed) == m.spec_advance(Outcome::Done),
        },
{
}

/// Every state the manager reaches is one it can be in, and once finished
/// it asks only to stop.
pub proof fn lemma_advance_keeps_wf(m: Manager, outcome: Outcome)
    requires
        m.wf(),
    ensures
        m.spec_advance(outcome).wf(),
        m.stage == Stage::Finished ==> m.spec_advance(outcome) == m && m.spec_action()
            == ActionView::Stop,
{
}

} // verus!
