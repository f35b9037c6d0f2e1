use youwee::registry::{ActiveRecordings, TIKTOK_LIVE_ALREADY_ACTIVE_MESSAGE, TIKTOK_LIVE_ONE_ROOM_MESSAGE};

#[test]
fn reservations_respect_the_room_limit_until_released() {
    let mut active = ActiveRecordings::new();
    assert!(active.reserve("first", 1).is_ok());
    let error = active.reserve("second", 1).unwrap_err();
    assert!(error.contains("configured room limit"));
    assert_eq!(error, TIKTOK_LIVE_ONE_ROOM_MESSAGE);
    assert_eq!(active.reserve("first", 4).unwrap_err(), TIKTOK_LIVE_ALREADY_ACTIVE_MESSAGE);
    assert!(active.at_limit(1));
    active.release("first");
    assert!(!active.contains("first"));
    assert!(active.reserve("second", 1).is_ok());
    active.release("second");
    assert_eq!(active.len(), 0);
}

#[test]
fn reservations_allow_the_configured_number_of_rooms() {
    let mut active = ActiveRecordings::new();
    assert!(active.reserve("first", 2).is_ok());
    assert!(active.reserve("second", 2).is_ok());
    assert!(active.reserve("third", 2).unwrap_err().contains("configured room limit"));
    active.release("unknown");
    assert_eq!(active.len(), 2);
    active.release("first");
    assert!(active.contains("second"));
    assert_eq!(active.len(), 1);
}
