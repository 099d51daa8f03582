use tiltify_bot::channels::{
    contains_identity, moderated_live_channels, Channel, Channels, StreamStatus,
};

fn ch(id: &str, name: &str) -> Channel {
    Channel { user_id: id.to_string(), name: name.to_string() }
}

fn status(id: &str, login: &str, live: bool) -> StreamStatus {
    StreamStatus { user_id: id.to_string(), user_login: login.to_string(), live }
}

#[test]
fn live_and_moderated_resolve_to_their_intersection() {
    let configured = Channels(vec![ch("1", "a"), ch("2", "b"), ch("3", "c")]);
    let statuses = vec![status("1", "a", true), status("2", "b", false), status("3", "c", true)];
    let moderated = vec![ch("2", "b"), ch("3", "c")];
    let targets = configured.get_moderated_live_channels(&statuses, &moderated);
    assert_eq!(targets, vec![ch("3", "c")]);
}

#[test]
fn live_channels_keep_live_configured_streams_in_order() {
    let configured = Channels(vec![ch("1", "a"), ch("2", "b"), ch("3", "c")]);
    let statuses = vec![
        status("3", "c", true),
        status("9", "stranger", true),
        status("2", "b", false),
        status("1", "a", true),
    ];
    assert_eq!(configured.get_live_channels(&statuses), vec![ch("3", "c"), ch("1", "a")]);
}

#[test]
fn intersection_is_by_identity_not_by_record() {
    let live = vec![ch("7", "old_login")];
    let moderated = vec![ch("7", "new_login"), ch("8", "x")];
    assert_eq!(moderated_live_channels(&live, &moderated), vec![ch("7", "new_login")]);
}

#[test]
fn intersection_keeps_moderated_order_and_duplicates() {
    let live = vec![ch("2", "b"), ch("1", "a")];
    let moderated = vec![ch("1", "a"), ch("3", "c"), ch("2", "b"), ch("1", "a")];
    assert_eq!(
        moderated_live_channels(&live, &moderated),
        vec![ch("1", "a"), ch("2", "b"), ch("1", "a")]
    );
}

#[test]
fn empty_inputs_resolve_to_no_targets() {
    let configured = Channels(vec![]);
    assert!(configured.get_moderated_live_channels(&vec![], &vec![ch("1", "a")]).is_empty());
    assert!(moderated_live_channels(&vec![ch("1", "a")], &vec![]).is_empty());
}

#[test]
fn contains_identity_compares_whole_identities() {
    let live = vec![ch("12", "a")];
    assert!(contains_identity(&live, "12"));
    assert!(!contains_identity(&live, "1"));
    assert!(!contains_identity(&live, "123"));
    assert!(!contains_identity(&vec![], "12"));
}

#[test]
fn user_ids_lists_identities_in_order() {
    let configured = Channels(vec![ch("3", "c"), ch("1", "a"), ch("3", "c")]);
    assert_eq!(configured.user_ids(), vec!["3".to_string(), "1".to_string(), "3".to_string()]);
}
