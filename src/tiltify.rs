//! Normalised donations derived from fundraising webhook payloads.

use vstd::prelude::*;
use crate::text::same_text;
use crate::webhook::{Amount, TiltifyWebhookRequest};

verus! {

/// The closed set of donation event kinds the bot distinguishes.
#[derive(Clone, Copy, Debug, PartialEq, Eq, Structural)]
pub enum TiltifyEventType {
    DonationUpdated,
    Other,
}

/// The four spellings of a donation update event.
pub open spec fn is_donation_update_name(s: Seq<char>) -> bool {
    ||| s == "public:direct:donation_updated"@
    ||| s == "private:direct:donation_updated"@
    ||| s == "public:indirect:donation_updated"@
    ||| s == "private:indirect:donation_updated"@
}

/// The event kind that a free-form event type string is coerced to.
pub open spec fn event_type_of(s: Seq<char>) -> TiltifyEventType {
    if is_donation_update_name(s) {
        TiltifyEventType::DonationUpdated
    } else {
        TiltifyEventType::Other
    }
}

impl TiltifyEventType {
    /// Coerces an event type string by exact match.
    pub fn from_name(value: &str) -> (r: TiltifyEventType)
        ensures
            r == event_type_of(value@),
    {
        if same_text(value, "public:direct:donation_updated")
            || same_text(value, "private:direct:donation_updated")
            || same_text(value, "public:indirect:donation_updated")
            || same_text(value, "private:indirect:donation_updated")
        {
            TiltifyEventType::DonationUpdated
        } else {
            TiltifyEventType::Other
        }
    }
}

impl From<String> for TiltifyEventType {
    fn from(value: String) -> Self {
        TiltifyEventType::from_name(value.as_str())
    }
}

impl vstd::std_specs::convert::FromSpecImpl<String> for TiltifyEventType {
    open spec fn obeys_from_spec() -> bool {
        true
    }

    open spec fn from_spec(v: String) -> Self {
        event_type_of(v@)
    }
}

/// A donation as the bot handles it, derived from a webhook call.
#[derive(Clone, Debug, PartialEq)]
pub struct TiltifyDonation {
    pub event_type: TiltifyEventType,
    pub amount: Amount,
    pub name: Option<String>,
    pub message: Option<String>,
}

/// The donation that a webhook call describes.
pub open spec fn donation_of(v: TiltifyWebhookRequest) -> TiltifyDonation {
    TiltifyDonation {
        event_type: event_type_of(v.meta.event_type@),
        amount: v.data.amount,
        name: v.data.donor_name,
        message: v.data.donor_comment,
    }
}

impl From<TiltifyWebhookRequest> for TiltifyDonation {
    fn from(value: TiltifyWebhookRequest) -> Self {
        TiltifyDonation {
            event_type: TiltifyEventType::from_name(value.meta.event_type.as_str()),
            amount: value.data.amount,
            name: value.data.donor_name,
            message: value.data.donor_comment,
        }
    }
}

impl vstd::std_specs::convert::FromSpecImpl<TiltifyWebhookRequest> for TiltifyDonation {
    open spec fn obeys_from_spec() -> bool {
        true
    }

    open spec fn from_spec(v: TiltifyWebhookRequest) -> Self {
        donation_of(v)
    }
}

} // verus!
