use agent_server::dispatch::{
    worker_actions, Action, Manager, Outcome, Stage, Worker, EXECUTOR_COUNT, ROUNDS,
};

fn drive(executors: usize, fail: impl Fn(&Action) -> bool) -> Vec<Action> {
    let mut manager = Manager::new(executors);
    let mut actions = Vec::new();
    loop {
        let action = manager.action();
        let outcome = if fail(&action) { Outcome::Failed } else { Outcome::Done };
        let stop = action == Action::Stop;
        actions.push(action);
        if stop {
            return actions;
        }
        manager.advance(outcome);
    }
}

fn log(t: &str) -> Action {
    Action::Log(t.to_string())
}

#[test]
fn delivered_run_follows_the_plan() {
    let actions = drive(EXECUTOR_COUNT, |_| false);
    let mut expected = Vec::new();
    for i in 0..ROUNDS {
        expected.push(log(&format!("Manager sending to server: Message {}", i)));
        expected.push(Action::SendToServer(format!("Message {}", i)));
        expected.push(log(&format!("Manager sending to executors: Executor Task {}", i)));
        for k in 0..EXECUTOR_COUNT {
            expected.push(Action::SendToExecutor(k, format!("Executor Task {}", i)));
        }
        expected.push(Action::Sleep(2));
    }
    expected.push(Action::Stop);
    assert_eq!(actions, expected);
}

#[test]
fn failed_sends_are_reported_and_skipped_over() {
    let actions = drive(3, |a| matches!(a, Action::SendToServer(_) | Action::SendToExecutor(1, _)));
    let delivered = drive(3, |_| false);
    let without_reports: Vec<Action> = actions
        .iter()
        .filter(|a| {
            **a != log("Manager failed to send message to server")
                && **a != log("Manager failed to send message to executor 1")
        })
        .cloned()
        .collect();
    assert_eq!(without_reports, delivered);
    assert_eq!(actions[2], log("Manager failed to send message to server"));
    assert_eq!(actions[6], log("Manager failed to send message to executor 1"));
    assert_eq!(actions.len(), delivered.len() + 2 * ROUNDS);
}

#[test]
fn no_executors_means_announce_then_pause() {
    let actions = drive(0, |_| false);
    assert_eq!(actions.len(), ROUNDS * 4 + 1);
    assert_eq!(actions[2], log("Manager sending to executors: Executor Task 0"));
    assert_eq!(actions[3], Action::Sleep(2));
}

#[test]
fn finished_manager_keeps_stopping() {
    let mut manager = Manager { round: ROUNDS, stage: Stage::Finished, executors: 2 };
    assert_eq!(manager.action(), Action::Stop);
    manager.advance(Outcome::Failed);
    assert_eq!(manager, Manager { round: ROUNDS, stage: Stage::Finished, executors: 2 });
}

#[test]
fn workers_log_what_they_receive() {
    assert_eq!(
        worker_actions(Worker::Server, Some("Message 3")),
        vec![
            log("Server received: Message 3"),
            Action::Sleep(1),
            log("Server processed message: Message 3"),
        ]
    );
    assert_eq!(
        worker_actions(Worker::Executor(12), Some("Executor Task 0")),
        vec![
            log("Executor 12 received: Executor Task 0"),
            Action::Sleep(1),
            log("Executor 12 processed message: Executor Task 0"),
        ]
    );
    assert_eq!(worker_actions(Worker::Executor(0), None), vec![Action::Stop]);
}
