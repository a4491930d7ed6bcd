use lanchat_ui::state::{ApplicationState, Timestamp, UserColorTable};

#[test]
fn timestamp_keeps_a_time_of_day() {
    let time = Timestamp::new(23, 59, 58).unwrap();
    assert_eq!(time.hour(), 23);
    assert_eq!(time.minute(), 59);
    assert_eq!(time.second(), 58);
    let midnight = Timestamp::new(0, 0, 0).unwrap();
    assert_eq!((midnight.hour(), midnight.minute(), midnight.second()), (0, 0, 0));
}

#[test]
fn timestamp_refuses_what_is_no_time_of_day() {
    assert_eq!(Timestamp::new(24, 0, 0), None);
    assert_eq!(Timestamp::new(0, 60, 0), None);
    assert_eq!(Timestamp::new(0, 0, 60), None);
    assert_eq!(Timestamp::new(255, 255, 255), None);
}

#[test]
fn new_table_knows_nobody() {
    let table = UserColorTable::new();
    assert_eq!(table.get("ann"), None);
    assert_eq!(table.get(""), None);
}

#[test]
fn users_get_indices_in_order_of_first_sight() {
    let mut table = UserColorTable::new();
    assert_eq!(table.register("ann"), Some(0));
    assert_eq!(table.register("bob"), Some(1));
    assert_eq!(table.register("cyd"), Some(2));
    assert_eq!(table.get("ann"), Some(0));
    assert_eq!(table.get("bob"), Some(1));
    assert_eq!(table.get("cyd"), Some(2));
    assert_eq!(table.get("dan"), None);
}

#[test]
fn a_known_user_keeps_its_index() {
    let mut table = UserColorTable::new();
    assert_eq!(table.register("ann"), Some(0));
    assert_eq!(table.register("bob"), Some(1));
    assert_eq!(table.register("ann"), Some(0));
    assert_eq!(table.register("cyd"), Some(2));
    assert_eq!(table.get("ann"), Some(0));
}

#[test]
fn the_same_history_gives_the_same_indices() {
    let history = ["ann", "bob", "ann", "cyd", "bob", "dan"];
    let mut first = UserColorTable::new();
    let mut second = UserColorTable::new();
    for user in history {
        first.register(user);
    }
    for user in history {
        second.register(user);
    }
    for user in ["ann", "bob", "cyd", "dan", "eve"] {
        assert_eq!(first.get(user), second.get(user));
        assert_eq!(first.get(user), first.get(user));
    }
    assert_eq!(first.get("dan"), Some(3));
    assert_eq!(first.get("eve"), None);
}

#[test]
fn new_state_is_empty() {
    let state = ApplicationState::new();
    assert!(state.messages.is_empty());
    assert_eq!(state.users_id.get("ann"), None);
    assert_eq!(state.progress, None);
    assert!(state.input.is_empty());
    assert_eq!(state.input_cursor, 0);
    assert_eq!(state.scroll_messages_view, 0);
}
