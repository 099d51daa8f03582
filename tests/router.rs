use std::time::{Duration, Instant};
use tiltify_bot::commands::{route, Commands, ReceiveOutcome, RouterAction, RouterExit, POLL_INTERVAL_MS};
use tiltify_bot::tiltify::{TiltifyDonation, TiltifyEventType};
use tiltify_bot::webhook::Amount;

fn donation() -> TiltifyDonation {
    TiltifyDonation {
        event_type: TiltifyEventType::DonationUpdated,
        amount: Amount { currency: "EUR".to_string(), value: "7".to_string() },
        name: None,
        message: Some("go".to_string()),
    }
}

#[test]
fn shutdown_ends_the_router_loop_within_one_poll() {
    let mut queue = vec![
        ReceiveOutcome::Empty,
        ReceiveOutcome::Command(Commands::Shutdown),
        ReceiveOutcome::Command(Commands::DonationReceived(donation())),
    ]
    .into_iter();
    let start = Instant::now();
    let mut polls = 0;
    let exit = loop {
        polls += 1;
        match route(queue.next().unwrap()) {
            RouterAction::Exit(e) => break e,
            RouterAction::Sleep(ms) => assert_eq!(ms, POLL_INTERVAL_MS),
            other => panic!("unexpected {:?}", other),
        }
    };
    assert_eq!(exit, RouterExit::Shutdown);
    assert_eq!(polls, 2);
    assert!(start.elapsed() < Duration::from_secs(1));
}

#[test]
fn donation_is_announced() {
    assert_eq!(
        route(ReceiveOutcome::Command(Commands::DonationReceived(donation()))),
        RouterAction::Announce(donation())
    );
}

#[test]
fn lifecycle_commands_are_accepted_as_no_ops() {
    for c in [
        Commands::RaidInitiated("r".to_string()),
        Commands::StreamStarted("s".to_string()),
        Commands::StreamEnded("e".to_string()),
    ] {
        assert_eq!(route(ReceiveOutcome::Command(c)), RouterAction::Continue);
    }
}

#[test]
fn empty_poll_backs_off_closed_and_lagged_end_the_loop() {
    assert_eq!(route(ReceiveOutcome::Empty), RouterAction::Sleep(100));
    assert_eq!(route(ReceiveOutcome::Closed), RouterAction::Exit(RouterExit::ChannelClosed));
    assert_eq!(route(ReceiveOutcome::Lagged(4)), RouterAction::Exit(RouterExit::Lagged(4)));
}
