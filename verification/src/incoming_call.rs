//! Rules for the incoming-call notification: the window that pops up when a
//! call arrives, and what accepting or declining it commits the app to do.

use vstd::prelude::*;

verus! {

/// An incoming call, reduced to what the notification decides on:
/// who is calling and which project, if any, the caller is offering.
#[derive(PartialEq, Eq, Debug)]
pub struct IncomingCall {
    /// Identifier of the call's room.
    pub room_id: u64,
    /// The caller's login, shown next to the caller's avatar.
    pub caller_login: String,
    /// Whether an avatar image is available for the caller.
    pub caller_has_avatar: bool,
    /// The project the caller shared when calling, if any.
    pub initial_project_id: Option<u64>,
}

/// What the notification shows of the caller: the avatar when one is
/// available, beside the caller's login.
pub struct CallerDisplay {
    pub show_avatar: bool,
    pub label: String,
}

/// Presents the caller: the avatar image exactly when one is available,
/// labelled with the caller's login.
pub fn caller_display(call: &IncomingCall) -> (r: CallerDisplay)
    ensures
        r.show_avatar == call.caller_has_avatar,
        r.label@ == call.caller_login@,
{
    CallerDisplay { show_avatar: call.caller_has_avatar, label: call.caller_login.clone() }
}

/// The notification's two buttons, in the order the row shows them.
#[derive(Clone, Copy, PartialEq, Eq, Structural, Debug)]
pub enum NotificationButton {
    Accept,
    Decline,
}

/// The button row of the notification: accept first, decline second.
pub fn notification_buttons() -> (r: Vec<NotificationButton>)
    ensures
        r@ =~= seq![NotificationButton::Accept, NotificationButton::Decline],
{
    let mut r: Vec<NotificationButton> = Vec::new();
    r.push(NotificationButton::Accept);
    r.push(NotificationButton::Decline);
    r
}

/// The answer a button dispatches: true for accepting the call.
pub fn button_accepts(button: NotificationButton) -> (r: bool)
    ensures
        r == (button is Accept),
{
    matches!(button, NotificationButton::Accept)
}

/// What answering the notification commits the app to do.
#[derive(Clone, Copy, PartialEq, Eq, Debug)]
pub enum CallResponse {
    /// Join the call's room; once joined, open the offered project if any.
    Accept { room_id: u64, open_project: Option<u64> },
    /// Tell the server the call is declined.
    Decline,
}

/// The commitment owed to the user's answer: accepting means joining the
/// call's room and remembering the project the caller offered; declining
/// only informs the server. Either way the notification window closes, which
/// the window state records separately.
pub fn respond_to_call(call: &IncomingCall, accept: bool) -> (r: CallResponse)
    ensures
        accept ==> r == (CallResponse::Accept {
            room_id: call.room_id,
            open_project: call.initial_project_id,
        }),
        !accept ==> r is Decline,
{
    if accept {
        CallResponse::Accept { room_id: call.room_id, open_project: call.initial_project_id }
    } else {
        CallResponse::Decline
    }
}

/// The project to open after an accepted call's join attempt: exactly the
/// one the caller offered, and only once the join has succeeded.
pub fn project_after_join(initial_project_id: Option<u64>, join_succeeded: bool) -> (r: Option<
    u64,
>)
    ensures
        r == (if join_succeeded {
            initial_project_id
        } else {
            Option::<u64>::None
        }),
{
    if join_succeeded {
        initial_project_id
    } else {
        Option::None
    }
}

/// What the incoming-call watcher must do for one change of the call.
#[derive(Clone, Copy, PartialEq, Eq, Debug)]
pub struct WindowUpdate {
    /// The notification window to take down, if one was up.
    pub close: Option<u64>,
    /// The notification window to put up, if a call is ringing.
    pub open: Option<u64>,
}

/// The single notification window the incoming-call watcher keeps, the
/// toolkit's window id reduced to a number.
pub struct NotificationWindow {
    pub window: Option<u64>,
}

impl NotificationWindow {
    /// Before the first call, no window is up.
    pub fn new() -> (r: Self)
        ensures
            r.window is None,
    {
        NotificationWindow { window: Option::None }
    }

    /// One change of the incoming call: whatever window was up closes, and
    /// a fresh one opens exactly when a call is ringing. The state then
    /// tracks the window that is up.
    pub fn on_call_changed(&mut self, ringing: bool, fresh_id: u64) -> (r: WindowUpdate)
        ensures
            r.close == old(self).window,
            r.open == (if ringing {
                Option::Some(fresh_id)
            } else {
                Option::<u64>::None
            }),
            final(self).window == r.open,
    {
        let close = self.window;
        let open = if ringing {
            Option::Some(fresh_id)
        } else {
            Option::None
        };
        self.window = open;
        WindowUpdate { close, open }
    }

    /// Answering the notification closes its window.
    pub fn on_answered(&mut self) -> (r: Option<u64>)
        ensures
            r == old(self).window,
            final(self).window is None,
    {
        let close = self.window;
        self.window = Option::None;
        close
    }
}

} // verus!
