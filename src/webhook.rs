//! The fundraising webhook payload, as the bot receives it.

use vstd::prelude::*;

verus! {

/// serde_json::Value, for the payload fields that the bot only carries
/// along: nothing is assumed of it, and no logic looks inside one.
#[verifier::external_type_specification]
#[verifier::external_body]
pub struct ExJsonValue(serde_json::Value);

/// A monetary amount as the webhook states it.
#[derive(Debug, Clone, PartialEq, Eq)]
pub struct Amount {
    pub currency: String,
    pub value: String,
}

/// The delivery metadata of a webhook call.
#[derive(Debug, Clone, PartialEq)]
pub struct Meta {
    pub id: String,
    pub event_type: String,
    pub attempted_at: String,
    pub generated_at: String,
    pub subscription_source_id: String,
    pub subscription_source_type: String,
}

/// The donation record of a webhook call.
#[derive(Debug, Clone, PartialEq)]
pub struct Data {
    pub amount: Amount,
    pub campaign_id: String,
    pub cause_id: String,
    pub completed_at: String,
    pub created_at: String,
    pub donation_matches: Vec<Option<serde_json::Value>>,
    pub donor_comment: Option<String>,
    pub donor_name: Option<String>,
    pub fundraising_event_id: Option<serde_json::Value>,
    pub id: String,
    pub legacy_id: i64,
    pub poll_id: Option<serde_json::Value>,
    pub poll_option_id: Option<serde_json::Value>,
    pub reward_claims: Option<serde_json::Value>,
    pub reward_id: Option<serde_json::Value>,
    pub sustained: bool,
    pub target_id: Option<serde_json::Value>,
    pub team_event_id: String,
}

/// A whole webhook call: the donation and its metadata.
#[derive(Debug, Clone, PartialEq)]
pub struct TiltifyWebhookRequest {
    pub data: Data,
    pub meta: Meta,
}

} // verus!
