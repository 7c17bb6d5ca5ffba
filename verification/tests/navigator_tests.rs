use bluebottle::navigator::{active, screen_from_state, screen_to_bytes, ActiveScreen};
use bluebottle::state::{StateMailbox, SubmitOutcome};

#[test]
fn screen_ids_round_trip() {
    let screens = [
        ActiveScreen::LibraryView,
        ActiveScreen::Loading,
        ActiveScreen::Setup,
        ActiveScreen::LibrarySelect,
        ActiveScreen::Settings,
    ];
    for screen in screens {
        let id = screen.screen_id();
        assert_eq!(ActiveScreen::from_id(id), Some(screen));
    }
    assert_eq!(ActiveScreen::from_id(5), None);
    assert_eq!(ActiveScreen::from_id(u32::MAX), None);
}

#[test]
fn active_falls_back_to_default() {
    assert_eq!(active(4), ActiveScreen::Settings);
    assert_eq!(active(99), ActiveScreen::LibraryView);
    assert_eq!(ActiveScreen::default(), ActiveScreen::LibraryView);
}

#[test]
fn persisted_screen_round_trips() {
    let screens = [
        ActiveScreen::LibraryView,
        ActiveScreen::Loading,
        ActiveScreen::Setup,
        ActiveScreen::LibrarySelect,
        ActiveScreen::Settings,
    ];
    for screen in screens {
        let bytes = screen_to_bytes(screen);
        assert_eq!(bytes.len(), 4);
        assert_eq!(screen_from_state(Some(bytes)), screen);
    }
}

#[test]
fn malformed_screen_state_falls_back() {
    assert_eq!(screen_from_state(None), ActiveScreen::LibraryView);
    assert_eq!(screen_from_state(Some(vec![])), ActiveScreen::LibraryView);
    assert_eq!(screen_from_state(Some(vec![1, 2])), ActiveScreen::LibraryView);
    // four bytes naming no known screen
    assert_eq!(screen_from_state(Some(vec![9, 0, 0, 0])), ActiveScreen::LibraryView);
    assert_eq!(screen_from_state(Some(vec![0, 1, 0, 0])), ActiveScreen::LibraryView);
}

#[test]
fn mailbox_lifecycle_and_backpressure() {
    let mut mailbox: StateMailbox<u64> = StateMailbox::new(2);

    // submitting before the worker runs is a lifecycle error
    assert_eq!(mailbox.submit(1), SubmitOutcome::Rejected);

    mailbox.start();
    assert_eq!(mailbox.submit(10), SubmitOutcome::Enqueued);
    assert_eq!(mailbox.submit(20), SubmitOutcome::Enqueued);
    // the queue is at capacity: the caller must wait, not fail
    assert_eq!(mailbox.submit(30), SubmitOutcome::MustWait);

    // the worker drains strictly in submission order
    assert_eq!(mailbox.take_next(), Some(10));
    assert_eq!(mailbox.submit(30), SubmitOutcome::Enqueued);
    assert_eq!(mailbox.take_next(), Some(20));
    assert_eq!(mailbox.take_next(), Some(30));
    assert_eq!(mailbox.take_next(), None);

    // shut down is terminal: no further requests are accepted
    mailbox.shutdown();
    assert_eq!(mailbox.submit(40), SubmitOutcome::Rejected);
}
