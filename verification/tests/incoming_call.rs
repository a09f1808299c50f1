use collab_ui::incoming_call::{
    button_accepts, caller_display, notification_buttons, project_after_join, respond_to_call,
    CallResponse, IncomingCall, NotificationButton, NotificationWindow,
};

fn ring(initial_project_id: Option<u64>) -> IncomingCall {
    IncomingCall {
        room_id: 3,
        caller_login: String::from("ada"),
        caller_has_avatar: true,
        initial_project_id,
    }
}

#[test]
fn caller_shown_with_avatar_and_login() {
    let d = caller_display(&ring(None));
    assert!(d.show_avatar);
    assert_eq!(d.label, "ada");
}

#[test]
fn caller_shown_without_avatar() {
    let mut call = ring(None);
    call.caller_has_avatar = false;
    let d = caller_display(&call);
    assert!(!d.show_avatar);
}

#[test]
fn buttons_offer_accept_then_decline() {
    let row = notification_buttons();
    assert_eq!(row, vec![NotificationButton::Accept, NotificationButton::Decline]);
    assert!(button_accepts(NotificationButton::Accept));
    assert!(!button_accepts(NotificationButton::Decline));
}

#[test]
fn accepting_joins_room_and_remembers_project() {
    let response = respond_to_call(&ring(Some(11)), true);
    assert_eq!(
        response,
        CallResponse::Accept { room_id: 3, open_project: Some(11) }
    );
}

#[test]
fn declining_only_informs_server() {
    let response = respond_to_call(&ring(Some(11)), false);
    assert_eq!(response, CallResponse::Decline);
}

#[test]
fn offered_project_opens_only_after_join() {
    assert_eq!(project_after_join(Some(11), true), Some(11));
    assert_eq!(project_after_join(Some(11), false), None);
    assert_eq!(project_after_join(None, true), None);
}

#[test]
fn new_call_replaces_the_notification_window() {
    let mut windows = NotificationWindow::new();
    assert_eq!(windows.window, None);

    let up = windows.on_call_changed(true, 1);
    assert_eq!(up.close, None);
    assert_eq!(up.open, Some(1));
    assert_eq!(windows.window, Some(1));

    let up = windows.on_call_changed(true, 2);
    assert_eq!(up.close, Some(1));
    assert_eq!(up.open, Some(2));
    assert_eq!(windows.window, Some(2));
}

#[test]
fn cancelled_call_closes_the_notification_window() {
    let mut windows = NotificationWindow::new();
    windows.on_call_changed(true, 1);
    let up = windows.on_call_changed(false, 2);
    assert_eq!(up.close, Some(1));
    assert_eq!(up.open, None);
    assert_eq!(windows.window, None);
}

#[test]
fn answering_closes_the_notification_window() {
    let mut windows = NotificationWindow::new();
    windows.on_call_changed(true, 1);
    assert_eq!(windows.on_answered(), Some(1));
    assert_eq!(windows.window, None);
}
