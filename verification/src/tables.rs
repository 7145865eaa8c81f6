//! The records of the data model, one per table. Time stamps are held as
//! `Timestamp`s and free-form JSON documents as `serde_json::Value`s,
//! which the library carries without looking inside.

use vstd::prelude::*;

use crate::clock::Timestamp;
use crate::values::{
    AgentExecutionStatus, ExecutionTriggerType, HttpMethod, SubmissionStatus, UserBlockCreditType,
    UserGroupRole,
};

verus! {

/// A JSON document as `serde_json` represents it.
#[verifier::external_type_specification]
#[verifier::external_body]
pub struct ExJsonValue(serde_json::Value);

/// A free-form JSON document.
pub type JsonValue = serde_json::Value;

/// A user row.
#[derive(Debug)]
pub struct User {
    pub id: String,
    pub email: String,
    pub name: Option<String>,
    pub created_at: Timestamp,
    pub updated_at: Timestamp,
}

/// A group of users.
#[derive(Debug)]
pub struct UserGroup {
    pub id: String,
    pub created_at: Timestamp,
    pub updated_at: Timestamp,
    pub name: String,
    pub description: String,
    pub group_icon_url: Option<String>,
}

/// A user's membership of a group.
#[derive(Debug)]
pub struct UserGroupMembership {
    pub id: String,
    pub created_at: Timestamp,
    pub updated_at: Timestamp,
    pub user_id: String,
    pub user_group_id: String,
    pub role: UserGroupRole,
}

/// A version of an agent graph.
#[derive(Debug)]
pub struct AgentGraph {
    pub id: String,
    pub version: i32,
    pub created_at: Timestamp,
    pub updated_at: Option<Timestamp>,
    pub name: Option<String>,
    pub description: Option<String>,
    pub created_by_user_id: String,
    pub group_id: Option<String>,
    pub agent_graph_parent_id: Option<String>,
    pub agent_graph_parent_version: Option<i32>,
}

/// Saved inputs for an agent.
#[derive(Debug)]
pub struct AgentPreset {
    pub id: String,
    pub created_at: Timestamp,
    pub updated_at: Timestamp,
    pub name: String,
    pub description: String,
    pub is_active: bool,
    pub user_id: String,
    pub agent_id: String,
    pub agent_version: i32,
}

/// An agent in a user's library.
#[derive(Debug)]
pub struct UserAgents {
    pub id: String,
    pub created_at: Timestamp,
    pub updated_at: Timestamp,
    pub user_id: String,
    pub agent_id: String,
    pub agent_version: i32,
    pub configured_agent_id: Option<String>,
    pub is_favorite: bool,
    pub is_created_by_user: bool,
    pub is_published: bool,
    pub is_public: bool,
    pub is_archived: bool,
    pub is_deleted: bool,
}

/// A node of an agent graph.
#[derive(Debug)]
pub struct AgentNode {
    pub id: String,
    pub agent_block_id: String,
    pub agent_graph_id: String,
    pub agent_graph_version: i32,
    pub constant_input: JsonValue,
    pub metadata: JsonValue,
}

/// A link from an output of one node to an input of another.
#[derive(Debug)]
pub struct AgentNodeLink {
    pub id: String,
    pub agent_node_source_id: String,
    pub source_name: String,
    pub agent_node_sink_id: String,
    pub sink_name: String,
    pub is_static: bool,
}

/// A block that nodes run.
#[derive(Debug)]
pub struct AgentBlock {
    pub id: String,
    pub name: String,
    pub input_schema: JsonValue,
    pub output_schema: JsonValue,
}

/// A run of an agent graph.
#[derive(Debug)]
pub struct AgentGraphExecution {
    pub id: String,
    pub created_at: Timestamp,
    pub updated_at: Option<Timestamp>,
    pub started_at: Option<Timestamp>,
    pub execution_trigger_type: ExecutionTriggerType,
    pub execution_status: AgentExecutionStatus,
    pub agent_graph_id: String,
    pub agent_graph_version: i32,
    pub executed_by_user_id: String,
    pub stats: Option<JsonValue>,
}

/// A run of one node within a graph run.
#[derive(Debug)]
pub struct AgentNodeExecution {
    pub id: String,
    pub agent_graph_execution_id: String,
    pub agent_node_id: String,
    pub execution_status: AgentExecutionStatus,
    pub execution_data: Option<String>,
    pub added_time: Timestamp,
    pub queued_time: Option<Timestamp>,
    pub started_time: Option<Timestamp>,
    pub ended_time: Option<Timestamp>,
    pub stats: Option<JsonValue>,
}

/// A value passed into or out of a node run.
#[derive(Debug)]
pub struct AgentNodeExecutionInputOutput {
    pub id: String,
    pub name: String,
    pub data: String,
    pub time: Timestamp,
    pub referenced_by_input_exec_id: Option<String>,
    pub referenced_by_output_exec_id: Option<String>,
    pub configured_agent_id: Option<String>,
}

/// A schedule that starts graph runs.
#[derive(Debug)]
pub struct AgentGraphExecutionSchedule {
    pub id: String,
    pub created_at: Timestamp,
    pub updated_at: Option<Timestamp>,
    pub configured_agent_id: String,
    pub schedule: String,
    pub is_enabled: bool,
    pub trigger_identifier: String,
    pub last_updated: Timestamp,
    pub user_id: String,
    pub agent_id: Option<String>,
    pub agent_version: Option<i32>,
}

/// A webhook that starts graph runs.
#[derive(Debug)]
pub struct WebhookTrigger {
    pub id: String,
    pub created_at: Timestamp,
    pub updated_at: Timestamp,
    pub configured_agent_id: String,
    pub method: HttpMethod,
    pub url_slug: String,
    pub trigger_identifier: String,
    pub is_active: bool,
    pub last_received_data_at: Option<Timestamp>,
    pub is_deleted: bool,
    pub agent_id: Option<String>,
    pub agent_version: Option<i32>,
}

/// A recorded analytics detail.
#[derive(Debug)]
pub struct AnalyticsDetails {
    pub id: String,
    pub created_at: Timestamp,
    pub updated_at: Timestamp,
    pub user_id: String,
    pub detail_type: String,
    pub data: Option<JsonValue>,
    pub data_index: Option<String>,
}

/// A change of a user's block credit.
#[derive(Debug)]
pub struct UserBlockCredit {
    pub transaction_key: String,
    pub created_at: Timestamp,
    pub user_id: String,
    pub block_id: Option<String>,
    pub executed_agent_id: Option<String>,
    pub executed_agent_version: Option<i32>,
    pub store_listing_id: Option<String>,
    pub amount: i32,
    pub credit_type: UserBlockCreditType,
    pub is_active: bool,
    pub metadata: Option<JsonValue>,
    pub user_accounting_id: Option<String>,
}

/// A user's subscription.
#[derive(Debug)]
pub struct UserSubscription {
    pub id: String,
    pub created_at: Timestamp,
    pub updated_at: Timestamp,
    pub user_id: String,
    pub is_subscribed: bool,
    pub subscription_start_date: Option<Timestamp>,
    pub subscription_end_date: Option<Timestamp>,
    pub is_cancelling: bool,
    pub subscription_plan_id: String,
    pub stripe_customer_id: Option<String>,
    pub stripe_subscription_id: Option<String>,
    pub stripe_payment_method_id: Option<String>,
    pub stripe_subscription_status: Option<String>,
    pub current_period_end: Option<Timestamp>,
    pub has_initiated_charge_back_process: bool,
    pub charge_back_process_initiated_at: Option<Timestamp>,
}

/// A payment event received from Stripe.
#[derive(Debug)]
pub struct StripeEvent {
    pub id: String,
    pub event_id: String,
    pub event_type: String,
    pub created_at: Timestamp,
    pub processed_at: Option<Timestamp>,
}

/// A public profile of a user or group.
#[derive(Debug)]
pub struct Profile {
    pub id: String,
    pub created_at: Timestamp,
    pub updated_at: Timestamp,
    pub user_id: Option<String>,
    pub is_group_profile: bool,
    pub group_id: Option<String>,
    pub username: String,
    pub description: String,
    pub links: Option<Vec<String>>,
    pub avatar_url: Option<String>,
}

/// A listing of an agent in the store.
#[derive(Debug)]
pub struct StoreListing {
    pub id: String,
    pub created_at: Timestamp,
    pub updated_at: Timestamp,
    pub is_deleted: bool,
    pub is_approved: bool,
    pub slug: String,
    pub name: String,
    pub description: String,
    pub agent_id: String,
    pub agent_version: i32,
    pub owning_user_id: String,
    pub is_group_listing: bool,
    pub owning_group_id: Option<String>,
}

/// A version of a store listing.
#[derive(Debug)]
pub struct StoreListingVersion {
    pub id: String,
    pub created_at: Timestamp,
    pub updated_at: Timestamp,
    pub agent_id: String,
    pub agent_version: i32,
    pub is_featured: bool,
    pub categories: Option<Vec<String>>,
    pub is_deleted: bool,
    pub is_available: bool,
    pub is_approved: bool,
    pub store_listing_id: Option<String>,
}

/// A submission of a listing for review.
#[derive(Debug)]
pub struct StoreListingSubmission {
    pub id: String,
    pub created_at: Timestamp,
    pub updated_at: Timestamp,
    pub store_listing_id: String,
    pub store_listing_version_id: String,
    pub review_by_user_id: String,
    pub status: SubmissionStatus,
    pub is_denied: bool,
    pub review_comments: Option<String>,
}

} // verus!
