use agent_server::values::{
    AgentExecutionStatus, ExecutionTriggerType, HttpMethod, SubmissionStatus, UserBlockCreditType,
    UserGroupRole,
};

#[test]
fn wire_names() {
    assert_eq!(UserGroupRole::Member.wire_name(), "MEMBER");
    assert_eq!(UserGroupRole::Owner.wire_name(), "OWNER");
    assert_eq!(AgentExecutionStatus::Incomplete.wire_name(), "INCOMPLETE");
    assert_eq!(AgentExecutionStatus::Completed.wire_name(), "COMPLETED");
    assert_eq!(ExecutionTriggerType::Schedule.wire_name(), "SCHEDULE");
    assert_eq!(HttpMethod::Patch.wire_name(), "PATCH");
    assert_eq!(UserBlockCreditType::TopUp.wire_name(), "TOP_UP");
    assert_eq!(SubmissionStatus::Rejected.wire_name(), "REJECTED");
}

#[test]
fn wire_names_read_back() {
    for v in [
        AgentExecutionStatus::Incomplete,
        AgentExecutionStatus::Queued,
        AgentExecutionStatus::Running,
        AgentExecutionStatus::Completed,
        AgentExecutionStatus::Failed,
    ] {
        assert_eq!(AgentExecutionStatus::from_wire_name(v.wire_name()), Some(v));
    }
    for v in [
        UserBlockCreditType::TopUp,
        UserBlockCreditType::Usage,
        UserBlockCreditType::Commission,
        UserBlockCreditType::Purchase,
        UserBlockCreditType::Sale,
    ] {
        assert_eq!(UserBlockCreditType::from_wire_name(v.wire_name()), Some(v));
    }
    for v in [HttpMethod::Get, HttpMethod::Post, HttpMethod::Put, HttpMethod::Delete, HttpMethod::Patch] {
        assert_eq!(HttpMethod::from_wire_name(v.wire_name()), Some(v));
    }
}

#[test]
fn unknown_wire_names_are_refused() {
    assert_eq!(UserGroupRole::from_wire_name("Member"), None);
    assert_eq!(SubmissionStatus::from_wire_name("pending"), None);
    assert_eq!(ExecutionTriggerType::from_wire_name(""), None);
    assert_eq!(HttpMethod::from_wire_name("GET "), None);
}
