//! Rules for the collaboration titlebar: which button it offers, which
//! collaborators it shows and in what order, how each avatar is styled,
//! and when a connection warning appears.

use vstd::prelude::*;

verus! {

/// Connection state of the client, as far as the titlebar distinguishes it.
#[derive(Clone, Copy, PartialEq, Eq, Structural, Debug)]
pub enum ConnectionStatus {
    SignedOut,
    Authenticating,
    Connecting,
    ConnectionError,
    Connected,
    ConnectionLost,
    Reauthenticating,
    Reconnecting,
    ReconnectionError,
    UpgradeRequired,
}

impl ConnectionStatus {
    /// Whether the client currently holds a live connection.
    pub open spec fn spec_is_connected(self) -> bool {
        self is Connected
    }

    pub fn is_connected(&self) -> (r: bool)
        ensures
            r == self.spec_is_connected(),
    {
        matches!(self, ConnectionStatus::Connected)
    }
}

/// The one action button the titlebar offers, when it offers any.
#[derive(Clone, Copy, PartialEq, Eq, Structural, Debug)]
pub enum TitlebarButton {
    /// Opens or closes the contacts popover.
    ToggleContacts,
    /// Shares the open project with the participants of the current call.
    Share,
}

/// The button shown for a given client and project state: none while the
/// client is offline; the share button only when the project is a local,
/// unshared one and a call is in progress; the contacts button otherwise.
pub open spec fn spec_titlebar_button(
    connected: bool,
    is_shared: bool,
    is_remote: bool,
    in_room: bool,
) -> Option<TitlebarButton> {
    if !connected {
        None
    } else if is_shared || is_remote || !in_room {
        Some(TitlebarButton::ToggleContacts)
    } else {
        Some(TitlebarButton::Share)
    }
}

/// Picks the titlebar's action button from the client's connection status,
/// whether the open project is shared or remote, and whether a call room
/// is currently joined.
pub fn titlebar_button(
    status: &ConnectionStatus,
    is_shared: bool,
    is_remote: bool,
    in_room: bool,
) -> (r: Option<TitlebarButton>)
    ensures
        r == spec_titlebar_button(status.spec_is_connected(), is_shared, is_remote, in_room),
{
    if status.is_connected() {
        if is_shared || is_remote || !in_room {
            Some(TitlebarButton::ToggleContacts)
        } else {
            Some(TitlebarButton::Share)
        }
    } else {
        None
    }
}

/// The indicator the titlebar appends when the connection is in trouble.
#[derive(Clone, Copy, PartialEq, Eq, Structural, Debug)]
pub enum StatusIndicator {
    /// A crossed-out cloud icon: the connection dropped or is being retried.
    Offline,
    /// A warning label: the client is too old to collaborate.
    UpgradeWarning,
}

/// The indicator owed to each connection status: the offline icon while the
/// connection failed, dropped or is being re-established; the upgrade
/// warning when the server refuses the client's version; nothing while
/// signed out, signing in for the first time, or connected.
pub open spec fn spec_status_indicator(status: ConnectionStatus) -> Option<StatusIndicator> {
    match status {
        ConnectionStatus::ConnectionError
        | ConnectionStatus::ConnectionLost
        | ConnectionStatus::Reauthenticating
        | ConnectionStatus::Reconnecting
        | ConnectionStatus::ReconnectionError => Some(StatusIndicator::Offline),
        ConnectionStatus::UpgradeRequired => Some(StatusIndicator::UpgradeWarning),
        _ => None,
    }
}

/// Picks the connection-trouble indicator for the given status.
pub fn status_indicator(status: &ConnectionStatus) -> (r: Option<StatusIndicator>)
    ensures
        r == spec_status_indicator(*status),
{
    match status {
        ConnectionStatus::ConnectionError
        | ConnectionStatus::ConnectionLost
        | ConnectionStatus::Reauthenticating
        | ConnectionStatus::Reconnecting
        | ConnectionStatus::ReconnectionError => Some(StatusIndicator::Offline),
        ConnectionStatus::UpgradeRequired => Some(StatusIndicator::UpgradeWarning),
        _ => None,
    }
}

/// How the titlebar presents the user running this client.
#[derive(Clone, Copy, PartialEq, Eq, Structural, Debug)]
pub enum CurrentUserView {
    /// The user's own avatar, always drawn in the active style.
    Avatar,
    /// Nothing: without an avatar there is no point inviting a sign-in
    /// that the outdated client could not use.
    Hidden,
    /// A prompt to sign in.
    SignInPrompt,
}

/// The presentation owed to the current user: the avatar when one is
/// available, nothing when signed-out but the client must upgrade first,
/// and a sign-in prompt otherwise.
pub open spec fn spec_current_user_view(
    has_avatar: bool,
    status: ConnectionStatus,
) -> CurrentUserView {
    if has_avatar {
        CurrentUserView::Avatar
    } else if status is UpgradeRequired {
        CurrentUserView::Hidden
    } else {
        CurrentUserView::SignInPrompt
    }
}

/// Picks how the titlebar presents the current user.
pub fn current_user_view(has_avatar: bool, status: &ConnectionStatus) -> (r: CurrentUserView)
    ensures
        r == spec_current_user_view(has_avatar, *status),
{
    if has_avatar {
        CurrentUserView::Avatar
    } else if matches!(status, ConnectionStatus::UpgradeRequired) {
        CurrentUserView::Hidden
    } else {
        CurrentUserView::SignInPrompt
    }
}

/// How a collaborator's avatar is drawn.
#[derive(Clone, Copy, PartialEq, Eq, Structural, Debug)]
pub struct AvatarAppearance {
    /// Drawn in the full style when the collaborator is in the shown
    /// project, in the faded style otherwise.
    pub active_style: bool,
    /// A border in the collaborator's replica colour marks the one the
    /// user is following.
    pub follow_border: bool,
}

/// Styles an avatar: the active style when the peer is in this project,
/// and a replica-coloured border when the user follows that peer.
pub fn avatar_appearance(is_active: bool, is_followed: bool) -> (r: AvatarAppearance)
    ensures
        r.active_style == is_active,
        r.follow_border == is_followed,
{
    AvatarAppearance { active_style: is_active, follow_border: is_followed }
}

/// A collaborator on the open project, reduced to what the titlebar reads:
/// the peer it connects through and the replica it edits as.
#[derive(Clone, Copy, PartialEq, Eq, Structural, Debug)]
pub struct Collaborator {
    pub peer_id: u64,
    pub replica_id: u16,
}

/// Where a remote participant of the call currently is.
#[derive(Clone, Copy, PartialEq, Eq, Structural, Debug)]
pub enum ParticipantLocation {
    /// Inside the project the id names.
    Project { project_id: u64 },
    /// Anywhere else.
    External,
}

/// A remote participant of the current call.
#[derive(Clone, Copy, PartialEq, Eq, Structural, Debug)]
pub struct Participant {
    pub peer_id: u64,
    pub location: ParticipantLocation,
    /// Whether an avatar image is available for this participant.
    pub has_avatar: bool,
}

/// One avatar of the titlebar's collaborator row.
#[derive(Clone, Copy, PartialEq, Eq, Structural, Debug)]
pub struct CollaboratorAvatar {
    pub peer_id: u64,
    pub replica_id: u16,
    /// Whether the collaborator is inside the shown project.
    pub is_active: bool,
}

/// Whether a participant at `location` counts as active in the project
/// `project_id` identifies remotely; a project without a remote id has no
/// active participants.
pub open spec fn spec_location_active(
    location: ParticipantLocation,
    project_id: Option<u64>,
) -> bool {
    match project_id {
        Option::Some(pid) => location == (ParticipantLocation::Project { project_id: pid }),
        Option::None => false,
    }
}

/// Decides whether a participant at `location` is active in the project.
pub fn location_active(location: ParticipantLocation, project_id: Option<u64>) -> (r: bool)
    ensures
        r == spec_location_active(location, project_id),
{
    match (location, project_id) {
        (ParticipantLocation::Project { project_id: at }, Option::Some(pid)) => at == pid,
        _ => false,
    }
}

/// No two collaborators edit as the same replica.
pub open spec fn distinct_replica_ids(cs: Seq<Collaborator>) -> bool {
    forall|i: int, j: int|
        0 <= i < j < cs.len() ==> cs[i].replica_id != cs[j].replica_id
}

/// No two collaborators connect through the same peer.
pub open spec fn distinct_collaborator_peers(cs: Seq<Collaborator>) -> bool {
    forall|i: int, j: int| 0 <= i < j < cs.len() ==> cs[i].peer_id != cs[j].peer_id
}

/// No two participants connect through the same peer.
pub open spec fn distinct_participant_peers(ps: Seq<Participant>) -> bool {
    forall|i: int, j: int| 0 <= i < j < ps.len() ==> ps[i].peer_id != ps[j].peer_id
}

/// An avatar entry is justified when some collaborator and some participant
/// share its peer, the participant brings an avatar, and the active flag
/// reflects that participant's location.
pub open spec fn spec_avatar_justified(
    cs: Seq<Collaborator>,
    ps: Seq<Participant>,
    project_id: Option<u64>,
    e: CollaboratorAvatar,
) -> bool {
    exists|j: int, k: int|
        0 <= j < cs.len() && 0 <= k < ps.len()
            && cs[j].peer_id == e.peer_id
            && cs[j].replica_id == e.replica_id
            && ps[k].peer_id == e.peer_id
            && ps[k].has_avatar
            && e.is_active == spec_location_active(ps[k].location, project_id)
}

/// The avatar entry owed to collaborator `c` when participant `p` answers
/// for its peer.
pub open spec fn spec_avatar_of(
    c: Collaborator,
    p: Participant,
    project_id: Option<u64>,
) -> CollaboratorAvatar {
    CollaboratorAvatar {
        peer_id: c.peer_id,
        replica_id: c.replica_id,
        is_active: spec_location_active(p.location, project_id),
    }
}

/// Sorts the collaborators by replica id, keeping exactly the given entries.
#[verifier::loop_isolation(false)]
fn sorted_by_replica_id(input: &Vec<Collaborator>) -> (r: Vec<Collaborator>)
    ensures
        r@.to_multiset() == input@.to_multiset(),
        r@.len() == input@.len(),
        forall|a: int, b: int| 0 <= a < b < r@.len() ==> r@[a].replica_id <= r@[b].replica_id,
        forall|x: Collaborator| r@.contains(x) <==> input@.contains(x),
{
    broadcast use vstd::seq_lib::group_to_multiset_ensures;

    let mut v: Vec<Collaborator> = Vec::new();
    let mut idx: usize = 0;
    while idx < input.len()
        invariant
            idx <= input@.len(),
            v@.len() == idx,
            forall|i: int| 0 <= i < idx ==> v@[i] == input@[i],
        decreases input@.len() - idx,
    {
        v.push(input[idx]);
        idx += 1;
    }
    proof {
        assert(v@ =~= input@);
    }
    let n: usize = v.len();
    let mut i: usize = 1;
    while i < n
        invariant
            n == v@.len(),
            v@.to_multiset() == input@.to_multiset(),
            forall|a: int, b: int| 0 <= a < b < i ==> v@[a].replica_id <= v@[b].replica_id,
        decreases n - i,
    {
        let mut j: usize = i;
        while j > 0 && v[j - 1].replica_id > v[j].replica_id
            invariant
                j <= i < n == v@.len(),
                v@.to_multiset() == input@.to_multiset(),
                forall|a: int, b: int|
                    0 <= a < b <= i && b != j ==> v@[a].replica_id <= v@[b].replica_id,
            decreases j,
        {
            let ghost s0 = v@;
            let lower = v[j - 1];
            let upper = v[j];
            v.set(j - 1, upper);
            v.set(j, lower);
            proof {
                assert(v@ =~= s0.update(j - 1, upper).update(j as int, lower));
                assert(v@.to_multiset() =~= s0.to_multiset());
            }
            j -= 1;
        }
        i += 1;
    }
    proof {
        assert forall|x: Collaborator| v@.contains(x) <==> input@.contains(x) by {
            if v@.contains(x) {
                assert(v@.to_multiset().count(x) > 0);
            }
            if input@.contains(x) {
                assert(input@.to_multiset().count(x) > 0);
            }
        }
    }
    v
}

/// What the titlebar's avatar row must be, given the collaborators, the
/// call's participants and the shown project: ordered by replica id, every
/// entry justified by a collaborator and a participant with an avatar, and
/// no such pair left out.
pub open spec fn spec_avatar_row_ok(
    cs: Seq<Collaborator>,
    ps: Seq<Participant>,
    project_id: Option<u64>,
    row: Seq<CollaboratorAvatar>,
) -> bool {
    &&& forall|a: int, b: int| 0 <= a < b < row.len() ==> row[a].replica_id <= row[b].replica_id
    &&& forall|i: int|
        0 <= i < row.len() ==> spec_avatar_justified(cs, ps, project_id, #[trigger] row[i])
    &&& forall|j: int, k: int|
        0 <= j < cs.len() && 0 <= k < ps.len() && #[trigger] ps[k].peer_id
            == #[trigger] cs[j].peer_id && ps[k].has_avatar ==> row.contains(
            spec_avatar_of(cs[j], ps[k], project_id),
        )
}

/// The avatar row of the titlebar: one entry per collaborator whose peer is
/// a participant of the call with an avatar, ordered by replica id, each
/// marked active exactly when its participant is inside the shown project.
///
/// The callers' data structures key collaborators by replica and peer and
/// participants by peer, which is what the distinctness preconditions
/// restate.
#[verifier::loop_isolation(false)]
pub fn collaborator_avatars(
    collaborators: &Vec<Collaborator>,
    participants: &Vec<Participant>,
    project_id: Option<u64>,
) -> (r: Vec<CollaboratorAvatar>)
    requires
        distinct_replica_ids(collaborators@),
        distinct_collaborator_peers(collaborators@),
        distinct_participant_peers(participants@),
    ensures
        spec_avatar_row_ok(collaborators@, participants@, project_id, r@),
{
    broadcast use vstd::seq_lib::lemma_seq_contains_after_push;

    let sorted = sorted_by_replica_id(collaborators);
    let mut r: Vec<CollaboratorAvatar> = Vec::new();
    let mut idx: usize = 0;
    while idx < sorted.len()
        invariant
            idx <= sorted@.len(),
            forall|i1: int, i2: int|
                0 <= i1 < i2 < r@.len() ==> r@[i1].replica_id <= r@[i2].replica_id,
            forall|i: int|
                0 <= i < r@.len() ==> exists|j: int|
                    0 <= j < idx && sorted@[j].replica_id == #[trigger] r@[i].replica_id,
            forall|i: int|
                0 <= i < r@.len() ==> spec_avatar_justified(
                    collaborators@,
                    participants@,
                    project_id,
                    #[trigger] r@[i],
                ),
            forall|j: int, k: int|
                0 <= j < idx && 0 <= k < participants@.len()
                    && #[trigger] participants@[k].peer_id == #[trigger] sorted@[j].peer_id
                    && participants@[k].has_avatar ==> r@.contains(
                    spec_avatar_of(sorted@[j], participants@[k], project_id),
                ),
        decreases sorted@.len() - idx,
    {
        let c = sorted[idx];
        let mut k: usize = 0;
        let mut found: Option<Participant> = Option::None;
        while k < participants.len() && found.is_none()
            invariant
                k <= participants@.len(),
                found is Some ==> exists|k2: int|
                    0 <= k2 < participants@.len() && participants@[k2] == found->Some_0
                        && found->Some_0.peer_id == c.peer_id,
                found is None ==> forall|k2: int|
                    0 <= k2 < k ==> participants@[k2].peer_id != c.peer_id,
            decreases participants@.len() - k,
        {
            if participants[k].peer_id == c.peer_id {
                found = Option::Some(participants[k]);
            }
            k += 1;
        }
        match found {
            Option::Some(p) => {
                if p.has_avatar {
                    let entry = CollaboratorAvatar {
                        peer_id: c.peer_id,
                        replica_id: c.replica_id,
                        is_active: location_active(p.location, project_id),
                    };
                    proof {
                        assert(sorted@.contains(c)) by {
                            assert(sorted@[idx as int] == c);
                        }
                        assert(collaborators@.contains(c));
                        let jw = choose|jw: int|
                            0 <= jw < collaborators@.len() && collaborators@[jw] == c;
                        let kw = choose|kw: int|
                            0 <= kw < participants@.len() && participants@[kw] == p
                                && p.peer_id == c.peer_id;
                        assert(spec_avatar_justified(
                            collaborators@,
                            participants@,
                            project_id,
                            entry,
                        )) by {
                            assert(0 <= jw < collaborators@.len() && 0 <= kw
                                < participants@.len() && collaborators@[jw].peer_id
                                == entry.peer_id && collaborators@[jw].replica_id
                                == entry.replica_id && participants@[kw].peer_id == entry.peer_id
                                && participants@[kw].has_avatar && entry.is_active
                                == spec_location_active(
                                participants@[kw].location,
                                project_id,
                            ));
                        }
                    }
                    r.push(entry);
                }
            },
            Option::None => {},
        }
        idx += 1;
    }
    proof {
        assert forall|j: int, k: int|
            0 <= j < collaborators@.len() && 0 <= k < participants@.len()
                && #[trigger] participants@[k].peer_id == #[trigger] collaborators@[j].peer_id
                && participants@[k].has_avatar implies r@.contains(
            spec_avatar_of(collaborators@[j], participants@[k], project_id),
        ) by {
            assert(collaborators@.contains(collaborators@[j]));
            assert(sorted@.contains(collaborators@[j]));
            let j2 = choose|j2: int|
                0 <= j2 < sorted@.len() && sorted@[j2] == collaborators@[j];
            assert(participants@[k].peer_id == sorted@[j2].peer_id);
            assert(r@.contains(spec_avatar_of(sorted@[j2], participants@[k], project_id)));
        }
    }
    r
}

/// Builds the tooltip for a collaborator's avatar: "Follow " or
/// "Unfollow " ahead of the collaborator's login, after whether the user
/// already follows that collaborator.
pub fn follow_tooltip(is_followed: bool, login: &str) -> (r: String)
    ensures
        is_followed ==> r@ == "Unfollow "@ + login@,
        !is_followed ==> r@ == "Follow "@ + login@,
{
    let prefix = if is_followed {
        "Unfollow "
    } else {
        "Follow "
    };
    String::from_str(prefix).concat(login)
}

/// Everything decided about one avatar of the titlebar.
pub struct AvatarView {
    pub appearance: AvatarAppearance,
    /// The peer a click toggles following. A collaborator's avatar carries
    /// its peer; the current user's avatar carries none and is inert.
    pub follow_target: Option<u64>,
    pub tooltip: Option<String>,
}

/// Decides one avatar in full: the style after the participant's activity,
/// the follow border and the follow target and tooltip — the last three
/// only for a collaborator's avatar, which carries a peer; the current
/// user's own avatar carries none.
pub fn avatar_view(peer: Option<u64>, login: &str, is_active: bool, is_followed: bool) -> (r:
    AvatarView)
    ensures
        r.appearance.active_style == is_active,
        r.appearance.follow_border == (peer is Some && is_followed),
        r.follow_target == peer,
        r.tooltip is Some <==> peer is Some,
        peer is Some && is_followed ==> r.tooltip->Some_0@ == "Unfollow "@ + login@,
        peer is Some && !is_followed ==> r.tooltip->Some_0@ == "Follow "@ + login@,
{
    match peer {
        Option::Some(peer_id) => AvatarView {
            appearance: avatar_appearance(is_active, is_followed),
            follow_target: Option::Some(peer_id),
            tooltip: Option::Some(follow_tooltip(is_followed, login)),
        },
        Option::None => AvatarView {
            appearance: avatar_appearance(is_active, false),
            follow_target: Option::None,
            tooltip: Option::None,
        },
    }
}

/// The titlebar's record of its contacts popover, the toolkit's view
/// handle reduced to an identifier.
pub struct ContactsPopoverState {
    pub popover: Option<u64>,
}

impl ContactsPopoverState {
    /// The titlebar starts with no popover open.
    pub fn new() -> (r: Self)
        ensures
            r.popover is None,
    {
        ContactsPopoverState { popover: Option::None }
    }

    /// The toggle action: an open popover closes; with none open, a fresh
    /// one opens, provided the workspace is still alive. Returns the
    /// popover to create and focus, when one must be.
    pub fn toggle(&mut self, workspace_alive: bool, fresh_id: u64) -> (r: Option<u64>)
        ensures
            final(self).popover == (if old(self).popover is None && workspace_alive {
                Option::Some(fresh_id)
            } else {
                Option::<u64>::None
            }),
            r == final(self).popover,
    {
        match self.popover {
            Option::Some(_) => {
                self.popover = Option::None;
                Option::None
            },
            Option::None => {
                if workspace_alive {
                    self.popover = Option::Some(fresh_id);
                    Option::Some(fresh_id)
                } else {
                    Option::None
                }
            },
        }
    }

    /// Whether a popover is open: the contacts button draws its toggled
    /// style, and the popover overlay hangs below it, exactly then.
    pub fn is_open(&self) -> (r: bool)
        ensures
            r == (self.popover is Some),
    {
        matches!(self.popover, Option::Some(_))
    }

    /// The popover reported itself dismissed: the titlebar forgets it.
    pub fn dismiss(&mut self)
        ensures
            final(self).popover is None,
    {
        self.popover = Option::None;
    }
}

/// The room the share action shares the open project into: the current
/// call's room, and only while the workspace is alive and a call is in
/// progress.
pub fn share_project_room(workspace_alive: bool, room_id: Option<u64>) -> (r: Option<u64>)
    ensures
        r == (if workspace_alive {
            room_id
        } else {
            Option::<u64>::None
        }),
{
    if workspace_alive {
        room_id
    } else {
        Option::None
    }
}

/// Everything the titlebar reads when it renders, as plain values.
pub struct TitlebarState {
    /// Whether the workspace the titlebar belongs to is still alive.
    pub workspace_alive: bool,
    /// The client's connection status.
    pub status: ConnectionStatus,
    /// Whether the open project is shared into a call.
    pub project_is_shared: bool,
    /// Whether the open project is somebody else's, joined remotely.
    pub project_is_remote: bool,
    /// Whether a call room is currently joined.
    pub in_room: bool,
    /// The open project's id on the server, once it has one.
    pub project_remote_id: Option<u64>,
    /// The open project's collaborators.
    pub collaborators: Vec<Collaborator>,
    /// The joined room's remote participants; read only while `in_room`.
    pub participants: Vec<Participant>,
    /// Whether the signed-in user has an avatar image.
    pub current_user_has_avatar: bool,
}

/// What the titlebar shows, apart from styling.
pub struct TitlebarContent {
    pub button: Option<TitlebarButton>,
    pub avatar_row: Vec<CollaboratorAvatar>,
    pub current_user: CurrentUserView,
    pub indicator: Option<StatusIndicator>,
}

/// Composes the titlebar: nothing while the workspace is gone; otherwise
/// the action button, the collaborator avatar row (empty outside a call),
/// the current user's presentation and the connection indicator, each as
/// its own rule states.
pub fn titlebar_content(state: &TitlebarState) -> (r: Option<TitlebarContent>)
    requires
        distinct_replica_ids(state.collaborators@),
        distinct_collaborator_peers(state.collaborators@),
        distinct_participant_peers(state.participants@),
    ensures
        r is Some <==> state.workspace_alive,
        state.workspace_alive ==> r->Some_0.button == spec_titlebar_button(
            state.status.spec_is_connected(),
            state.project_is_shared,
            state.project_is_remote,
            state.in_room,
        ),
        state.workspace_alive && state.in_room ==> spec_avatar_row_ok(
            state.collaborators@,
            state.participants@,
            state.project_remote_id,
            r->Some_0.avatar_row@,
        ),
        state.workspace_alive && !state.in_room ==> r->Some_0.avatar_row@.len() == 0,
        state.workspace_alive ==> r->Some_0.current_user == spec_current_user_view(
            state.current_user_has_avatar,
            state.status,
        ),
        state.workspace_alive ==> r->Some_0.indicator == spec_status_indicator(state.status),
{
    if !state.workspace_alive {
        return Option::None;
    }
    let button = titlebar_button(
        &state.status,
        state.project_is_shared,
        state.project_is_remote,
        state.in_room,
    );
    let avatar_row = if state.in_room {
        collaborator_avatars(&state.collaborators, &state.participants, state.project_remote_id)
    } else {
        Vec::new()
    };
    let current_user = current_user_view(state.current_user_has_avatar, &state.status);
    let indicator = status_indicator(&state.status);
    Option::Some(TitlebarContent { button, avatar_row, current_user, indicator })
}

} // verus!
