use tiltify_bot::tiltify::{TiltifyDonation, TiltifyEventType};
use tiltify_bot::webhook::{Amount, Data, Meta, TiltifyWebhookRequest};

fn request(event_type: &str, donor_name: Option<&str>, comment: Option<&str>) -> TiltifyWebhookRequest {
    TiltifyWebhookRequest {
        data: Data {
            amount: Amount { currency: "USD".to_string(), value: "12.50".to_string() },
            campaign_id: "c1".to_string(),
            cause_id: "cause".to_string(),
            completed_at: "2024-01-01T00:00:00Z".to_string(),
            created_at: "2024-01-01T00:00:00Z".to_string(),
            donation_matches: vec![None, Some(serde_json::Value::Null)],
            donor_comment: comment.map(|s| s.to_string()),
            donor_name: donor_name.map(|s| s.to_string()),
            fundraising_event_id: None,
            id: "d1".to_string(),
            legacy_id: 42,
            poll_id: None,
            poll_option_id: None,
            reward_claims: None,
            reward_id: None,
            sustained: false,
            target_id: Some(serde_json::Value::Bool(true)),
            team_event_id: "t".to_string(),
        },
        meta: Meta {
            id: "m1".to_string(),
            event_type: event_type.to_string(),
            attempted_at: "a".to_string(),
            generated_at: "g".to_string(),
            subscription_source_id: "s".to_string(),
            subscription_source_type: "test".to_string(),
        },
    }
}

#[test]
fn all_four_donation_update_spellings_map_to_donation_updated() {
    for s in [
        "public:direct:donation_updated",
        "private:direct:donation_updated",
        "public:indirect:donation_updated",
        "private:indirect:donation_updated",
    ] {
        assert_eq!(TiltifyEventType::from(s.to_string()), TiltifyEventType::DonationUpdated);
        assert_eq!(TiltifyEventType::from_name(s), TiltifyEventType::DonationUpdated);
    }
}

#[test]
fn other_event_type_strings_map_to_other() {
    for s in [
        "",
        "public:direct:donation_created",
        "Public:direct:donation_updated",
        "public:direct:donation_updated ",
        "public:direct:donation_update",
        "xpublic:direct:donation_updated",
    ] {
        assert_eq!(TiltifyEventType::from(s.to_string()), TiltifyEventType::Other);
    }
}

#[test]
fn donation_from_webhook_request_takes_the_named_fields() {
    let d = TiltifyDonation::from(request("public:direct:donation_updated", Some("Alex"), Some("hi")));
    assert_eq!(d.event_type, TiltifyEventType::DonationUpdated);
    assert_eq!(d.amount, Amount { currency: "USD".to_string(), value: "12.50".to_string() });
    assert_eq!(d.name, Some("Alex".to_string()));
    assert_eq!(d.message, Some("hi".to_string()));
}

#[test]
fn donation_from_anonymous_request_of_other_kind() {
    let d = TiltifyDonation::from(request("something:else", None, None));
    assert_eq!(d.event_type, TiltifyEventType::Other);
    assert_eq!(d.name, None);
    assert_eq!(d.message, None);
}
