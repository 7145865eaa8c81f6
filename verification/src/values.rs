//! The named values of the data model (roles, statuses, trigger kinds,
//! HTTP methods, credit kinds) and the upper-case names by which they are
//! written in stored and exchanged records.

use vstd::prelude::*;

use crate::text::same_text;

verus! {

/// A member's role in a user group.
#[derive(Clone, Copy, Debug, PartialEq, Eq, Structural)]
pub enum UserGroupRole {
    Member,
    Owner,
}

impl UserGroupRole {
    /// The name under which this value is written.
    pub open spec fn spec_wire_name(self) -> Seq<char> {
        match self {
            UserGroupRole::Member => "MEMBER"@,
            UserGroupRole::Owner => "OWNER"@,
        }
    }

    /// The value written under `name`, if any.
    pub open spec fn spec_from_wire_name(name: Seq<char>) -> Option<UserGroupRole> {
        if name == "MEMBER"@ {
            Some(UserGroupRole::Member)
        } else if name == "OWNER"@ {
            Some(UserGroupRole::Owner)
        } else {
            None
        }
    }

    /// The name under which this value is written.
    pub fn wire_name(&self) -> (name: &'static str)
        ensures
            name@ == self.spec_wire_name(),
    {
        match self {
            UserGroupRole::Member => "MEMBER",
            UserGroupRole::Owner => "OWNER",
        }
    }

    /// Reads a value back from its name; unknown names give `None`.
    pub fn from_wire_name(name: &str) -> (v: Option<UserGroupRole>)
        ensures
            v == UserGroupRole::spec_from_wire_name(name@),
    {
        if same_text(name, "MEMBER") {
            Some(UserGroupRole::Member)
        } else if same_text(name, "OWNER") {
            Some(UserGroupRole::Owner)
        } else {
            None
        }
    }

    /// Writing a value and reading it back gives the value, and a name
    /// is read only as the value that is written under it.
    pub proof fn lemma_wire_name_round_trip(v: UserGroupRole, name: Seq<char>)
        ensures
            UserGroupRole::spec_from_wire_name(v.spec_wire_name()) == Some(v),
            UserGroupRole::spec_from_wire_name(name) == Some(v) ==> v.spec_wire_name() == name,
    {
        reveal_strlit("MEMBER");
        reveal_strlit("OWNER");
        assert("MEMBER"@.len() != "OWNER"@.len());
    }

    /// The stored names, value by value.
    pub proof fn lemma_wire_name_table()
        ensures
            UserGroupRole::Member.spec_wire_name() == "MEMBER"@,
            UserGroupRole::spec_from_wire_name("MEMBER"@) == Some(UserGroupRole::Member),
            UserGroupRole::Owner.spec_wire_name() == "OWNER"@,
            UserGroupRole::spec_from_wire_name("OWNER"@) == Some(UserGroupRole::Owner),
    {
        UserGroupRole::lemma_wire_name_round_trip(UserGroupRole::Member, Seq::empty());
        UserGroupRole::lemma_wire_name_round_trip(UserGroupRole::Owner, Seq::empty());
    }
}

/// Where an execution of an agent graph or node stands.
#[derive(Clone, Copy, Debug, PartialEq, Eq, Structural)]
pub enum AgentExecutionStatus {
    Incomplete,
    Queued,
    Running,
    Completed,
    Failed,
}

impl AgentExecutionStatus {
    /// The name under which this value is written.
    pub open spec fn spec_wire_name(self) -> Seq<char> {
        match self {
            AgentExecutionStatus::Incomplete => "INCOMPLETE"@,
            AgentExecutionStatus::Queued => "QUEUED"@,
            AgentExecutionStatus::Running => "RUNNING"@,
            AgentExecutionStatus::Completed => "COMPLETED"@,
            AgentExecutionStatus::Failed => "FAILED"@,
        }
    }

    /// The value written under `name`, if any.
    pub open spec fn spec_from_wire_name(name: Seq<char>) -> Option<AgentExecutionStatus> {
        if name == "INCOMPLETE"@ {
            Some(AgentExecutionStatus::Incomplete)
        } else if name == "QUEUED"@ {
            Some(AgentExecutionStatus::Queued)
        } else if name == "RUNNING"@ {
            Some(AgentExecutionStatus::Running)
        } else if name == "COMPLETED"@ {
            Some(AgentExecutionStatus::Completed)
        } else if name == "FAILED"@ {
            Some(AgentExecutionStatus::Failed)
        } else {
            None
        }
    }

    /// The name under which this value is written.
    pub fn wire_name(&self) -> (name: &'static str)
        ensures
            name@ == self.spec_wire_name(),
    {
        match self {
            AgentExecutionStatus::Incomplete => "INCOMPLETE",
            AgentExecutionStatus::Queued => "QUEUED",
            AgentExecutionStatus::Running => "RUNNING",
            AgentExecutionStatus::Completed => "COMPLETED",
            AgentExecutionStatus::Failed => "FAILED",
        }
    }

    /// Reads a value back from its name; unknown names give `None`.
    pub fn from_wire_name(name: &str) -> (v: Option<AgentExecutionStatus>)
        ensures
            v == AgentExecutionStatus::spec_from_wire_name(name@),
    {
        if same_text(name, "INCOMPLETE") {
            Some(AgentExecutionStatus::Incomplete)
        } else if same_text(name, "QUEUED") {
            Some(AgentExecutionStatus::Queued)
        } else if same_text(name, "RUNNING") {
            Some(AgentExecutionStatus::Running)
        } else if same_text(name, "COMPLETED") {
            Some(AgentExecutionStatus::Completed)
        } else if same_text(name, "FAILED") {
            Some(AgentExecutionStatus::Failed)
        } else {
            None
        }
    }

    /// Writing a value and reading it back gives the value, and a name
    /// is read only as the value that is written under it.
    pub proof fn lemma_wire_name_round_trip(v: AgentExecutionStatus, name: Seq<char>)
        ensures
            AgentExecutionStatus::spec_from_wire_name(v.spec_wire_name()) == Some(v),
            AgentExecutionStatus::spec_from_wire_name(name) == Some(v) ==> v.spec_wire_name() == name,
    {
        reveal_strlit("INCOMPLETE");
        reveal_strlit("QUEUED");
        reveal_strlit("RUNNING");
        reveal_strlit("COMPLETED");
        reveal_strlit("FAILED");
        assert("INCOMPLETE"@.len() != "QUEUED"@.len());
        assert("INCOMPLETE"@.len() != "RUNNING"@.len());
        assert("INCOMPLETE"@.len() != "COMPLETED"@.len());
        assert("INCOMPLETE"@.len() != "FAILED"@.len());
        assert("QUEUED"@.len() != "RUNNING"@.len());
        assert("QUEUED"@.len() != "COMPLETED"@.len());
        assert("QUEUED"@[0] != "FAILED"@[0]);
        assert("RUNNING"@.len() != "COMPLETED"@.len());
        assert("RUNNING"@.len() != "FAILED"@.len());
        assert("COMPLETED"@.len() != "FAILED"@.len());
    }

    /// The stored names, value by value.
    pub proof fn lemma_wire_name_table()
        ensures
            AgentExecutionStatus::Incomplete.spec_wire_name() == "INCOMPLETE"@,
            AgentExecutionStatus::spec_from_wire_name("INCOMPLETE"@) == Some(AgentExecutionStatus::Incomplete),
            AgentExecutionStatus::Queued.spec_wire_name() == "QUEUED"@,
            AgentExecutionStatus::spec_from_wire_name("QUEUED"@) == Some(AgentExecutionStatus::Queued),
            AgentExecutionStatus::Running.spec_wire_name() == "RUNNING"@,
            AgentExecutionStatus::spec_from_wire_name("RUNNING"@) == Some(AgentExecutionStatus::Running),
            AgentExecutionStatus::Completed.spec_wire_name() == "COMPLETED"@,
            AgentExecutionStatus::spec_from_wire_name("COMPLETED"@) == Some(AgentExecutionStatus::Completed),
            AgentExecutionStatus::Failed.spec_wire_name() == "FAILED"@,
            AgentExecutionStatus::spec_from_wire_name("FAILED"@) == Some(AgentExecutionStatus::Failed),
    {
        AgentExecutionStatus::lemma_wire_name_round_trip(AgentExecutionStatus::Incomplete, Seq::empty());
        AgentExecutionStatus::lemma_wire_name_round_trip(AgentExecutionStatus::Queued, Seq::empty());
        AgentExecutionStatus::lemma_wire_name_round_trip(AgentExecutionStatus::Running, Seq::empty());
        AgentExecutionStatus::lemma_wire_name_round_trip(AgentExecutionStatus::Completed, Seq::empty());
        AgentExecutionStatus::lemma_wire_name_round_trip(AgentExecutionStatus::Failed, Seq::empty());
    }
}

/// What started a graph execution.
#[derive(Clone, Copy, Debug, PartialEq, Eq, Structural)]
pub enum ExecutionTriggerType {
    Manual,
    Schedule,
    Webhook,
}

impl ExecutionTriggerType {
    /// The name under which this value is written.
    pub open spec fn spec_wire_name(self) -> Seq<char> {
        match self {
            ExecutionTriggerType::Manual => "MANUAL"@,
            ExecutionTriggerType::Schedule => "SCHEDULE"@,
            ExecutionTriggerType::Webhook => "WEBHOOK"@,
        }
    }

    /// The value written under `name`, if any.
    pub open spec fn spec_from_wire_name(name: Seq<char>) -> Option<ExecutionTriggerType> {
        if name == "MANUAL"@ {
            Some(ExecutionTriggerType::Manual)
        } else if name == "SCHEDULE"@ {
            Some(ExecutionTriggerType::Schedule)
        } else if name == "WEBHOOK"@ {
            Some(ExecutionTriggerType::Webhook)
        } else {
            None
        }
    }

    /// The name under which this value is written.
    pub fn wire_name(&self) -> (name: &'static str)
        ensures
            name@ == self.spec_wire_name(),
    {
        match self {
            ExecutionTriggerType::Manual => "MANUAL",
            ExecutionTriggerType::Schedule => "SCHEDULE",
            ExecutionTriggerType::Webhook => "WEBHOOK",
        }
    }

    /// Reads a value back from its name; unknown names give `None`.
    pub fn from_wire_name(name: &str) -> (v: Option<ExecutionTriggerType>)
        ensures
            v == ExecutionTriggerType::spec_from_wire_name(name@),
    {
        if same_text(name, "MANUAL") {
            Some(ExecutionTriggerType::Manual)
        } else if same_text(name, "SCHEDULE") {
            Some(ExecutionTriggerType::Schedule)
        } else if same_text(name, "WEBHOOK") {
            Some(ExecutionTriggerType::Webhook)
        } else {
            None
        }
    }

    /// Writing a value and reading it back gives the value, and a name
    /// is read only as the value that is written under it.
    pub proof fn lemma_wire_name_round_trip(v: ExecutionTriggerType, name: Seq<char>)
        ensures
            ExecutionTriggerType::spec_from_wire_name(v.spec_wire_name()) == Some(v),
            ExecutionTriggerType::spec_from_wire_name(name) == Some(v) ==> v.spec_wire_name() == name,
    {
        reveal_strlit("MANUAL");
        reveal_strlit("SCHEDULE");
        reveal_strlit("WEBHOOK");
        assert("MANUAL"@.len() != "SCHEDULE"@.len());
        assert("MANUAL"@.len() != "WEBHOOK"@.len());
        assert("SCHEDULE"@.len() != "WEBHOOK"@.len());
    }

    /// The stored names, value by value.
    pub proof fn lemma_wire_name_table()
        ensures
            ExecutionTriggerType::Manual.spec_wire_name() == "MANUAL"@,
            ExecutionTriggerType::spec_from_wire_name("MANUAL"@) == Some(ExecutionTriggerType::Manual),
            ExecutionTriggerType::Schedule.spec_wire_name() == "SCHEDULE"@,
            ExecutionTriggerType::spec_from_wire_name("SCHEDULE"@) == Some(ExecutionTriggerType::Schedule),
            ExecutionTriggerType::Webhook.spec_wire_name() == "WEBHOOK"@,
            ExecutionTriggerType::spec_from_wire_name("WEBHOOK"@) == Some(ExecutionTriggerType::Webhook),
    {
        ExecutionTriggerType::lemma_wire_name_round_trip(ExecutionTriggerType::Manual, Seq::empty());
        ExecutionTriggerType::lemma_wire_name_round_trip(ExecutionTriggerType::Schedule, Seq::empty());
        ExecutionTriggerType::lemma_wire_name_round_trip(ExecutionTriggerType::Webhook, Seq::empty());
    }
}

/// The HTTP method a webhook trigger listens for.
#[derive(Clone, Copy, Debug, PartialEq, Eq, Structural)]
pub enum HttpMethod {
    Get,
    Post,
    Put,
    Delete,
    Patch,
}

impl HttpMethod {
    /// The name under which this value is written.
    pub open spec fn spec_wire_name(self) -> Seq<char> {
        match self {
            HttpMethod::Get => "GET"@,
            HttpMethod::Post => "POST"@,
            HttpMethod::Put => "PUT"@,
            HttpMethod::Delete => "DELETE"@,
            HttpMethod::Patch => "PATCH"@,
        }
    }

    /// The value written under `name`, if any.
    pub open spec fn spec_from_wire_name(name: Seq<char>) -> Option<HttpMethod> {
        if name == "GET"@ {
            Some(HttpMethod::Get)
        } else if name == "POST"@ {
            Some(HttpMethod::Post)
        } else if name == "PUT"@ {
            Some(HttpMethod::Put)
        } else if name == "DELETE"@ {
            Some(HttpMethod::Delete)
        } else if name == "PATCH"@ {
            Some(HttpMethod::Patch)
        } else {
            None
        }
    }

    /// The name under which this value is written.
    pub fn wire_name(&self) -> (name: &'static str)
        ensures
            name@ == self.spec_wire_name(),
    {
        match self {
            HttpMethod::Get => "GET",
            HttpMethod::Post => "POST",
            HttpMethod::Put => "PUT",
            HttpMethod::Delete => "DELETE",
            HttpMethod::Patch => "PATCH",
        }
    }

    /// Reads a value back from its name; unknown names give `None`.
    pub fn from_wire_name(name: &str) -> (v: Option<HttpMethod>)
        ensures
            v == HttpMethod::spec_from_wire_name(name@),
    {
        if same_text(name, "GET") {
            Some(HttpMethod::Get)
        } else if same_text(name, "POST") {
            Some(HttpMethod::Post)
        } else if same_text(name, "PUT") {
            Some(HttpMethod::Put)
        } else if same_text(name, "DELETE") {
            Some(HttpMethod::Delete)
        } else if same_text(name, "PATCH") {
            Some(HttpMethod::Patch)
        } else {
            None
        }
    }

    /// Writing a value and reading it back gives the value, and a name
    /// is read only as the value that is written under it.
    pub proof fn lemma_wire_name_round_trip(v: HttpMethod, name: Seq<char>)
        ensures
            HttpMethod::spec_from_wire_name(v.spec_wire_name()) == Some(v),
            HttpMethod::spec_from_wire_name(name) == Some(v) ==> v.spec_wire_name() == name,
    {
        reveal_strlit("GET");
        reveal_strlit("POST");
        reveal_strlit("PUT");
        reveal_strlit("DELETE");
        reveal_strlit("PATCH");
        assert("GET"@.len() != "POST"@.len());
        assert("GET"@[0] != "PUT"@[0]);
        assert("GET"@.len() != "DELETE"@.len());
        assert("GET"@.len() != "PATCH"@.len());
        assert("POST"@.len() != "PUT"@.len());
        assert("POST"@.len() != "DELETE"@.len());
        assert("POST"@.len() != "PATCH"@.len());
        assert("PUT"@.len() != "DELETE"@.len());
        assert("PUT"@.len() != "PATCH"@.len());
        assert("DELETE"@.len() != "PATCH"@.len());
    }

    /// The stored names, value by value.
    pub proof fn lemma_wire_name_table()
        ensures
            HttpMethod::Get.spec_wire_name() == "GET"@,
            HttpMethod::spec_from_wire_name("GET"@) == Some(HttpMethod::Get),
            HttpMethod::Post.spec_wire_name() == "POST"@,
            HttpMethod::spec_from_wire_name("POST"@) == Some(HttpMethod::Post),
            HttpMethod::Put.spec_wire_name() == "PUT"@,
            HttpMethod::spec_from_wire_name("PUT"@) == Some(HttpMethod::Put),
            HttpMethod::Delete.spec_wire_name() == "DELETE"@,
            HttpMethod::spec_from_wire_name("DELETE"@) == Some(HttpMethod::Delete),
            HttpMethod::Patch.spec_wire_name() == "PATCH"@,
            HttpMethod::spec_from_wire_name("PATCH"@) == Some(HttpMethod::Patch),
    {
        HttpMethod::lemma_wire_name_round_trip(HttpMethod::Get, Seq::empty());
        HttpMethod::lemma_wire_name_round_trip(HttpMethod::Post, Seq::empty());
        HttpMethod::lemma_wire_name_round_trip(HttpMethod::Put, Seq::empty());
        HttpMethod::lemma_wire_name_round_trip(HttpMethod::Delete, Seq::empty());
        HttpMethod::lemma_wire_name_round_trip(HttpMethod::Patch, Seq::empty());
    }
}

/// Why a user's block credit changed.
#[derive(Clone, Copy, Debug, PartialEq, Eq, Structural)]
pub enum UserBlockCreditType {
    TopUp,
    Usage,
    Commission,
    Purchase,
    Sale,
}

impl UserBlockCreditType {
    /// The name under which this value is written.
    pub open spec fn spec_wire_name(self) -> Seq<char> {
        match self {
            UserBlockCreditType::TopUp => "TOP_UP"@,
            UserBlockCreditType::Usage => "USAGE"@,
            UserBlockCreditType::Commission => "COMMISSION"@,
            UserBlockCreditType::Purchase => "PURCHASE"@,
            UserBlockCreditType::Sale => "SALE"@,
        }
    }

    /// The value written under `name`, if any.
    pub open spec fn spec_from_wire_name(name: Seq<char>) -> Option<UserBlockCreditType> {
        if name == "TOP_UP"@ {
            Some(UserBlockCreditType::TopUp)
        } else if name == "USAGE"@ {
            Some(UserBlockCreditType::Usage)
        } else if name == "COMMISSION"@ {
            Some(UserBlockCreditType::Commission)
        } else if name == "PURCHASE"@ {
            Some(UserBlockCreditType::Purchase)
        } else if name == "SALE"@ {
            Some(UserBlockCreditType::Sale)
        } else {
            None
        }
    }

    /// The name under which this value is written.
    pub fn wire_name(&self) -> (name: &'static str)
        ensures
            name@ == self.spec_wire_name(),
    {
        match self {
            UserBlockCreditType::TopUp => "TOP_UP",
            UserBlockCreditType::Usage => "USAGE",
            UserBlockCreditType::Commission => "COMMISSION",
            UserBlockCreditType::Purchase => "PURCHASE",
            UserBlockCreditType::Sale => "SALE",
        }
    }

    /// Reads a value back from its name; unknown names give `None`.
    pub fn from_wire_name(name: &str) -> (v: Option<UserBlockCreditType>)
        ensures
            v == UserBlockCreditType::spec_from_wire_name(name@),
    {
        if same_text(name, "TOP_UP") {
            Some(UserBlockCreditType::TopUp)
        } else if same_text(name, "USAGE") {
            Some(UserBlockCreditType::Usage)
        } else if same_text(name, "COMMISSION") {
            Some(UserBlockCreditType::Commission)
        } else if same_text(name, "PURCHASE") {
            Some(UserBlockCreditType::Purchase)
        } else if same_text(name, "SALE") {
            Some(UserBlockCreditType::Sale)
        } else {
            None
        }
    }

    /// Writing a value and reading it back gives the value, and a name
    /// is read only as the value that is written under it.
    pub proof fn lemma_wire_name_round_trip(v: UserBlockCreditType, name: Seq<char>)
        ensures
            UserBlockCreditType::spec_from_wire_name(v.spec_wire_name()) == Some(v),
            UserBlockCreditType::spec_from_wire_name(name) == Some(v) ==> v.spec_wire_name() == name,
    {
        reveal_strlit("TOP_UP");
        reveal_strlit("USAGE");
        reveal_strlit("COMMISSION");
        reveal_strlit("PURCHASE");
        reveal_strlit("SALE");
        assert("TOP_UP"@.len() != "USAGE"@.len());
        assert("TOP_UP"@.len() != "COMMISSION"@.len());
        assert("TOP_UP"@.len() != "PURCHASE"@.len());
        assert("TOP_UP"@.len() != "SALE"@.len());
        assert("USAGE"@.len() != "COMMISSION"@.len());
        assert("USAGE"@.len() != "PURCHASE"@.len());
        assert("USAGE"@.len() != "SALE"@.len());
        assert("COMMISSION"@.len() != "PURCHASE"@.len());
        assert("COMMISSION"@.len() != "SALE"@.len());
        assert("PURCHASE"@.len() != "SALE"@.len());
    }

    /// The stored names, value by value.
    pub proof fn lemma_wire_name_table()
        ensures
            UserBlockCreditType::TopUp.spec_wire_name() == "TOP_UP"@,
            UserBlockCreditType::spec_from_wire_name("TOP_UP"@) == Some(UserBlockCreditType::TopUp),
            UserBlockCreditType::Usage.spec_wire_name() == "USAGE"@,
            UserBlockCreditType::spec_from_wire_name("USAGE"@) == Some(UserBlockCreditType::Usage),
            UserBlockCreditType::Commission.spec_wire_name() == "COMMISSION"@,
            UserBlockCreditType::spec_from_wire_name("COMMISSION"@) == Some(UserBlockCreditType::Commission),
            UserBlockCreditType::Purchase.spec_wire_name() == "PURCHASE"@,
            UserBlockCreditType::spec_from_wire_name("PURCHASE"@) == Some(UserBlockCreditType::Purchase),
            UserBlockCreditType::Sale.spec_wire_name() == "SALE"@,
            UserBlockCreditType::spec_from_wire_name("SALE"@) == Some(UserBlockCreditType::Sale),
    {
        UserBlockCreditType::lemma_wire_name_round_trip(UserBlockCreditType::TopUp, Seq::empty());
        UserBlockCreditType::lemma_wire_name_round_trip(UserBlockCreditType::Usage, Seq::empty());
        UserBlockCreditType::lemma_wire_name_round_trip(UserBlockCreditType::Commission, Seq::empty());
        UserBlockCreditType::lemma_wire_name_round_trip(UserBlockCreditType::Purchase, Seq::empty());
        UserBlockCreditType::lemma_wire_name_round_trip(UserBlockCreditType::Sale, Seq::empty());
    }
}

/// Where a store listing submission stands in review.
#[derive(Clone, Copy, Debug, PartialEq, Eq, Structural)]
pub enum SubmissionStatus {
    Pending,
    Approved,
    Rejected,
}

impl SubmissionStatus {
    /// The name under which this value is written.
    pub open spec fn spec_wire_name(self) -> Seq<char> {
        match self {
            SubmissionStatus::Pending => "PENDING"@,
            SubmissionStatus::Approved => "APPROVED"@,
            SubmissionStatus::Rejected => "REJECTED"@,
        }
    }

    /// The value written under `name`, if any.
    pub open spec fn spec_from_wire_name(name: Seq<char>) -> Option<SubmissionStatus> {
        if name == "PENDING"@ {
            Some(SubmissionStatus::Pending)
        } else if name == "APPROVED"@ {
            Some(SubmissionStatus::Approved)
        } else if name == "REJECTED"@ {
            Some(SubmissionStatus::Rejected)
        } else {
            None
        }
    }

    /// The name under which this value is written.
    pub fn wire_name(&self) -> (name: &'static str)
        ensures
            name@ == self.spec_wire_name(),
    {
        match self {
            SubmissionStatus::Pending => "PENDING",
            SubmissionStatus::Approved => "APPROVED",
            SubmissionStatus::Rejected => "REJECTED",
        }
    }

    /// Reads a value back from its name; unknown names give `None`.
    pub fn from_wire_name(name: &str) -> (v: Option<SubmissionStatus>)
        ensures
            v == SubmissionStatus::spec_from_wire_name(name@),
    {
        if same_text(name, "PENDING") {
            Some(SubmissionStatus::Pending)
        } else if same_text(name, "APPROVED") {
            Some(SubmissionStatus::Approved)
        } else if same_text(name, "REJECTED") {
            Some(SubmissionStatus::Rejected)
        } else {
            None
        }
    }

    /// Writing a value and reading it back gives the value, and a name
    /// is read only as the value that is written under it.
    pub proof fn lemma_wire_name_round_trip(v: SubmissionStatus, name: Seq<char>)
        ensures
            SubmissionStatus::spec_from_wire_name(v.spec_wire_name()) == Some(v),
            SubmissionStatus::spec_from_wire_name(name) == Some(v) ==> v.spec_wire_name() == name,
    {
        reveal_strlit("PENDING");
        reveal_strlit("APPROVED");
        reveal_strlit("REJECTED");
        assert("PENDING"@.len() != "APPROVED"@.len());
        assert("PENDING"@.len() != "REJECTED"@.len());
        assert("APPROVED"@[0] != "REJECTED"@[0]);
    }

    /// The stored names, value by value.
    pub proof fn lemma_wire_name_table()
        ensures
            SubmissionStatus::Pending.spec_wire_name() == "PENDING"@,
            SubmissionStatus::spec_from_wire_name("PENDING"@) == Some(SubmissionStatus::Pending),
            SubmissionStatus::Approved.spec_wire_name() == "APPROVED"@,
            SubmissionStatus::spec_from_wire_name("APPROVED"@) == Some(SubmissionStatus::Approved),
            SubmissionStatus::Rejected.spec_wire_name() == "REJECTED"@,
            SubmissionStatus::spec_from_wire_name("REJECTED"@) == Some(SubmissionStatus::Rejected),
    {
        SubmissionStatus::lemma_wire_name_round_trip(SubmissionStatus::Pending, Seq::empty());
        SubmissionStatus::lemma_wire_name_round_trip(SubmissionStatus::Approved, Seq::empty());
        SubmissionStatus::lemma_wire_name_round_trip(SubmissionStatus::Rejected, Seq::empty());
    }
}

} // verus!
