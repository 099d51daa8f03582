use tiltify_bot::channels::Channel;
use tiltify_bot::dispatch::{
    donation_announcement, donation_message, DispatchBatch, SendKind, SendRecord,
};
use tiltify_bot::tiltify::{TiltifyDonation, TiltifyEventType};
use tiltify_bot::webhook::Amount;

fn donation(value: &str, name: Option<&str>) -> TiltifyDonation {
    TiltifyDonation {
        event_type: TiltifyEventType::DonationUpdated,
        amount: Amount { currency: "USD".to_string(), value: value.to_string() },
        name: name.map(|s| s.to_string()),
        message: None,
    }
}

fn ch(id: &str, name: &str) -> Channel {
    Channel { user_id: id.to_string(), name: name.to_string() }
}

#[test]
fn message_is_the_command_with_the_amount() {
    assert_eq!(donation_message(&donation("5.00", None)), "!donation_received 5.00");
}

#[test]
fn anonymous_donation_is_announced_as_an_anonymous_user() {
    let a = donation_announcement(&donation("5.00", None));
    assert!(a.contains("an anonymous user"));
    assert_eq!(a, "A donation of $5.00 has been made by an anonymous user!");
}

#[test]
fn named_donation_is_announced_with_the_donor() {
    let a = donation_announcement(&donation("20", Some("Alex")));
    assert!(a.contains("Alex"));
    assert_eq!(a, "A donation of $20 has been made by Alex!");
}

#[test]
fn batch_plans_message_then_announcement_per_target() {
    let b = DispatchBatch::new(&donation("1", Some("Bo")), vec![ch("1", "x"), ch("2", "y")]);
    assert_eq!(b.sends.len(), 4);
    assert_eq!(b.sends[0].channel, ch("1", "x"));
    assert_eq!(b.sends[0].kind, SendKind::Message);
    assert_eq!(b.sends[0].text, "!donation_received 1");
    assert_eq!(b.sends[1].channel, ch("1", "x"));
    assert_eq!(b.sends[1].kind, SendKind::Announcement);
    assert_eq!(b.sends[1].text, "A donation of $1 has been made by Bo!");
    assert_eq!(b.sends[2].channel, ch("2", "y"));
    assert_eq!(b.sends[3].kind, SendKind::Announcement);
    assert!(b.log.is_empty());
    assert_eq!(b.next_index(), Some(0));
}

#[test]
fn failure_on_one_channel_does_not_stop_the_next() {
    let mut b = DispatchBatch::new(&donation("3", None), vec![ch("x", "x"), ch("y", "y")]);
    let mut attempted = Vec::new();
    while let Some(k) = b.next_index() {
        attempted.push((b.sends[k].channel.user_id.clone(), b.sends[k].kind));
        let delivered = b.sends[k].channel.user_id != "x";
        b.record(delivered);
    }
    assert!(b.is_complete());
    assert_eq!(
        attempted,
        vec![
            ("x".to_string(), SendKind::Message),
            ("x".to_string(), SendKind::Announcement),
            ("y".to_string(), SendKind::Message),
            ("y".to_string(), SendKind::Announcement),
        ]
    );
    let rec = |id: &str, kind, delivered| SendRecord { channel_id: id.to_string(), kind, delivered };
    assert_eq!(
        b.log,
        vec![
            rec("x", SendKind::Message, false),
            rec("x", SendKind::Announcement, false),
            rec("y", SendKind::Message, true),
            rec("y", SendKind::Announcement, true),
        ]
    );
}

#[test]
fn empty_target_set_gives_a_complete_empty_batch() {
    let b = DispatchBatch::new(&donation("3", None), vec![]);
    assert!(b.sends.is_empty());
    assert!(b.is_complete());
    assert_eq!(b.next_index(), None);
}
