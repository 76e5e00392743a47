//! The room actor: authoritative state and message handling.
//!
//! A room owns the shared figures, the registry of connected users, each
//! user's selection and each user's drag anchor. The actor owns this state
//! exclusively and applies one inbound message at a time; `handle_message`
//! is that step, and `room_step` is its full specification. Outbound
//! traffic is returned as `Delivery` values — unicast, broadcast, or
//! broadcast-except — which the transport layer performs; a delivery
//! failure there is the transport's to ignore and never reaches this state.

use std::collections::BTreeMap;
use std::collections::BTreeSet;
use vstd::prelude::*;

use crate::deletion;
use crate::deletion::spec_cascade;
use crate::figure::FigureData;
use crate::figure::FigureIdAllocator;
use crate::message::AcceptedType;
use crate::message::NotifyType;
use crate::message::RequestType;
use crate::message::ResponseType;
use crate::message::ServerMessage;
use crate::message::UserId;
use crate::registry::UserRegistry;
use crate::selection;
use crate::selection::accepted_of;
use crate::selection::spec_select;
use crate::selection::spec_unselect;
use crate::user_map::UserMap;

verus! {

/// An inbound event for one room, as the transport hands it over: the
/// originating user and the kind-specific payload.
#[derive(Debug, Clone, PartialEq, Eq)]
pub enum RoomMessage {
    LeaveUser(UserId),
    AddFigure(FigureData),
    RequestInfo(UserId, RequestType),
    NotifyMousePositionChanged(UserId, Vec<(u64, u64)>),
    SelectFigure(UserId, BTreeSet<usize>),
    UnselectFigureAll(UserId),
    NotifySelectDragStart(UserId, u64, u64),
    NotifySelectDragFinish(UserId),
    UpdateSelectedFigures(UserId, Option<BTreeSet<usize>>, Option<BTreeSet<usize>>),
    DeleteFigures(UserId, BTreeSet<usize>),
}

/// One outbound send: to one user, to every user, or to every user but one.
#[derive(Debug, Clone, PartialEq, Eq)]
pub enum Delivery {
    Unicast(UserId, ServerMessage),
    Broadcast(ServerMessage),
    BroadcastExcept(UserId, ServerMessage),
}

/// What one step of the actor asks of its surroundings: the sends to relay,
/// and whether the now-empty room is to be torn down. Tearing down is the
/// actor's only terminal transition; after it no further message is
/// processed.
#[derive(Debug, PartialEq, Eq)]
pub struct RoomOutput {
    pub deliveries: Vec<Delivery>,
    pub delete_room: bool,
}

/// The in-memory data of one room, owned exclusively by its actor.
pub struct RoomInner {
    pub users: UserRegistry,
    pub figures: BTreeMap<usize, FigureData>,
    pub selected_figures: UserMap<BTreeSet<usize>>,
    pub select_drag_positions: UserMap<(u64, u64)>,
}

impl RoomInner {
    /// Room-state invariant: the tables are well formed, no user is bound to
    /// an empty selection, and every selected id denotes an existing figure.
    pub open spec fn wf(self) -> bool {
        &&& self.users.wf()
        &&& self.selected_figures.wf()
        &&& self.selected_figures.no_empty_values()
        &&& self.select_drag_positions.wf()
        &&& forall|u: Seq<char>| #[trigger]
            self.selected_figures@.contains_key(u) ==> self.selected_figures@[u].subset_of(
                self.figures@.dom(),
            )
    }

    pub fn new() -> (r: RoomInner)
        ensures
            r.wf(),
            r.users.spec_ids() == Seq::<Seq<char>>::empty(),
            r.figures@ == Map::<usize, FigureData>::empty(),
            r.selected_figures@ == Map::<Seq<char>, Set<usize>>::empty(),
            r.select_drag_positions@ == Map::<Seq<char>, (u64, u64)>::empty(),
    {
        RoomInner {
            users: UserRegistry::new(),
            figures: BTreeMap::new(),
            selected_figures: UserMap::new(),
            select_drag_positions: UserMap::new(),
        }
    }
}

/// Every live figure id was allocated before `bound`: ids at or above it
/// are still fresh.
pub open spec fn figure_ids_below(state: RoomInner, bound: int) -> bool {
    forall|id: usize| #[trigger] state.figures@.dom().contains(id) ==> (id as int) < bound
}

/// Whether a reported accepted set is the existence-accepted part of the
/// corresponding requested set, for the optional sets of a combined
/// select/unselect request.
pub open spec fn accepted_opt_matches(
    reported: Option<BTreeSet<usize>>,
    requested: Option<BTreeSet<usize>>,
    figure_ids: Set<usize>,
) -> bool {
    match (reported, requested) {
        (Option::None, Option::None) => true,
        (Option::Some(rep), Option::Some(req)) => rep@ == accepted_of(figure_ids, req@),
        _ => false,
    }
}

/// The figure id announced by the step of an `AddFigure` message.
pub open spec fn added_figure_id(out: RoomOutput) -> int {
    match out.deliveries@[0] {
        Delivery::Broadcast(ServerMessage::Notify(NotifyType::FigureAdded(id, _))) => id as int,
        _ => -1,
    }
}

/// The transition relation of the room actor: how one inbound message takes
/// the state `pre` with id counter `pre_next` to `post` with `post_next`,
/// and exactly which deliveries leave. This is the protocol table;
/// `handle_message` is proved against it.
pub open spec fn room_step(
    pre: RoomInner,
    pre_next: int,
    msg: RoomMessage,
    post: RoomInner,
    post_next: int,
    out: RoomOutput,
) -> bool {
    match msg {
        RoomMessage::LeaveUser(user_id) => {
            let u = user_id@;
            &&& post.users.id_set() == pre.users.id_set().remove(u)
            &&& post.figures@ == pre.figures@
            &&& post.select_drag_positions@ == pre.select_drag_positions@
            &&& post_next == pre_next
            &&& if pre.users.id_set().remove(u).is_empty() {
                // The last user left: the room signals its own deletion and
                // falls silent, broadcasting nothing.
                &&& out.delete_room
                &&& out.deliveries@.len() == 0
                &&& post.selected_figures@ == pre.selected_figures@
            } else {
                &&& !out.delete_room
                &&& post.selected_figures@ == pre.selected_figures@.remove(u)
                &&& out.deliveries@.len() == 3
                &&& (out.deliveries@[0] matches Delivery::Broadcast(
                    ServerMessage::Notify(NotifyType::UserLeft(n)),
                ) && n@ == u)
                &&& (out.deliveries@[1] matches Delivery::BroadcastExcept(
                    e,
                    ServerMessage::Notify(NotifyType::FigureUnselectedAll(n)),
                ) && e@ == u && n@ == u)
                &&& (out.deliveries@[2] matches Delivery::Unicast(
                    t,
                    ServerMessage::Accepted(AcceptedType::FigureUnselectedAll),
                ) && t@ == u)
            }
        },
        RoomMessage::AddFigure(data) => {
            &&& post_next == pre_next + 1
            &&& post.users == pre.users
            &&& post.selected_figures@ == pre.selected_figures@
            &&& post.select_drag_positions@ == pre.select_drag_positions@
            &&& !out.delete_room
            &&& out.deliveries@.len() == 1
            &&& (out.deliveries@[0] matches Delivery::Broadcast(
                ServerMessage::Notify(NotifyType::FigureAdded(fid, fdata)),
            ) && fid as int == pre_next && fdata@ == data@ && post.figures@ == pre.figures@.insert(
                fid,
                data,
            ))
        },
        RoomMessage::RequestInfo(user_id, kind) => {
            let u = user_id@;
            &&& post.users == pre.users
            &&& post.figures@ == pre.figures@
            &&& post.selected_figures@ == pre.selected_figures@
            &&& post.select_drag_positions@ == pre.select_drag_positions@
            &&& post_next == pre_next
            &&& !out.delete_room
            &&& out.deliveries@.len() == 1
            &&& match kind {
                RequestType::CurrentFigures => (out.deliveries@[0] matches Delivery::Unicast(
                    t,
                    ServerMessage::Response(ResponseType::CurrentFigures(m)),
                ) && t@ == u && m@ == pre.figures@),
                RequestType::CurrentSharedUsers => (out.deliveries@[0] matches Delivery::Unicast(
                    t,
                    ServerMessage::Response(ResponseType::CurrentSharedUsers(v)),
                ) && t@ == u && v@.len() == pre.users.spec_ids().len() && (forall|i: int|
                    0 <= i < v@.len() ==> v@[i]@ == pre.users.spec_ids()[i])),
                RequestType::CurrentSelectedFigures => (out.deliveries@[0] matches Delivery::Unicast(
                    t,
                    ServerMessage::Response(ResponseType::CurrentSelectedFigures(m)),
                ) && t@ == u && m@ == pre.selected_figures@),
                RequestType::CurrentSelectDragPositions => (out.deliveries@[0] matches Delivery::Unicast(
                    t,
                    ServerMessage::Response(ResponseType::CurrentSelectDragPositions(m)),
                ) && t@ == u && m@ == pre.select_drag_positions@),
                RequestType::CheckRoomExist(room_id) => (out.deliveries@[0] matches Delivery::Unicast(
                    t,
                    ServerMessage::Response(
                        ResponseType::InvalidRequest(RequestType::CheckRoomExist(r)),
                    ),
                ) && t@ == u && r@ == room_id@),
                RequestType::CheckUserExist(room_id, asked_id) => (out.deliveries@[0] matches Delivery::Unicast(
                    t,
                    ServerMessage::Response(
                        ResponseType::InvalidRequest(RequestType::CheckUserExist(r, a)),
                    ),
                ) && t@ == u && r@ == room_id@ && a@ == asked_id@),
            }
        },
        RoomMessage::NotifyMousePositionChanged(user_id, queue) => {
            let u = user_id@;
            &&& post.users == pre.users
            &&& post.figures@ == pre.figures@
            &&& post.selected_figures@ == pre.selected_figures@
            &&& post.select_drag_positions@ == pre.select_drag_positions@
            &&& post_next == pre_next
            &&& !out.delete_room
            &&& out.deliveries@.len() == 1
            &&& (out.deliveries@[0] matches Delivery::BroadcastExcept(
                e,
                ServerMessage::Notify(NotifyType::UserMousePositionChanged(n, q)),
            ) && e@ == u && n@ == u && q@ == queue@)
        },
        RoomMessage::SelectFigure(user_id, ids) => {
            let u = user_id@;
            let acc = accepted_of(pre.figures@.dom(), ids@);
            &&& post.users == pre.users
            &&& post.figures@ == pre.figures@
            &&& post.selected_figures@ == spec_select(pre.selected_figures@, u, acc)
            &&& post.select_drag_positions@ == pre.select_drag_positions@
            &&& post_next == pre_next
            &&& !out.delete_room
            &&& out.deliveries@.len() == 2
            &&& (out.deliveries@[0] matches Delivery::BroadcastExcept(
                e,
                ServerMessage::Notify(NotifyType::FigureSelected(n, s)),
            ) && e@ == u && n@ == u && s@ == acc)
            &&& (out.deliveries@[1] matches Delivery::Unicast(
                t,
                ServerMessage::Accepted(AcceptedType::FigureSelected(s)),
            ) && t@ == u && s@ == acc)
        },
        RoomMessage::UnselectFigureAll(user_id) => {
            let u = user_id@;
            &&& post.users == pre.users
            &&& post.figures@ == pre.figures@
            &&& post.selected_figures@ == pre.selected_figures@.remove(u)
            &&& post.select_drag_positions@ == pre.select_drag_positions@
            &&& post_next == pre_next
            &&& !out.delete_room
            &&& out.deliveries@.len() == 2
            &&& (out.deliveries@[0] matches Delivery::BroadcastExcept(
                e,
                ServerMessage::Notify(NotifyType::FigureUnselectedAll(n)),
            ) && e@ == u && n@ == u)
            &&& (out.deliveries@[1] matches Delivery::Unicast(
                t,
                ServerMessage::Accepted(AcceptedType::FigureUnselectedAll),
            ) && t@ == u)
        },
        RoomMessage::NotifySelectDragStart(user_id, x, y) => {
            let u = user_id@;
            &&& post.users == pre.users
            &&& post.figures@ == pre.figures@
            &&& post.selected_figures@ == pre.selected_figures@
            &&& post.select_drag_positions@ == pre.select_drag_positions@.insert(u, (x, y))
            &&& post_next == pre_next
            &&& !out.delete_room
            &&& out.deliveries@.len() == 1
            &&& (out.deliveries@[0] matches Delivery::BroadcastExcept(
                e,
                ServerMessage::Notify(NotifyType::SelectDragStarted(n, x2, y2)),
            ) && e@ == u && n@ == u && x2 == x && y2 == y)
        },
        RoomMessage::NotifySelectDragFinish(user_id) => {
            let u = user_id@;
            &&& post.users == pre.users
            &&& post.figures@ == pre.figures@
            &&& post.selected_figures@ == pre.selected_figures@
            &&& post.select_drag_positions@ == pre.select_drag_positions@.remove(u)
            &&& post_next == pre_next
            &&& !out.delete_room
            &&& out.deliveries@.len() == 1
            &&& (out.deliveries@[0] matches Delivery::BroadcastExcept(
                e,
                ServerMessage::Notify(NotifyType::SelectDragFinished(n)),
            ) && e@ == u && n@ == u)
        },
        RoomMessage::UpdateSelectedFigures(user_id, about_to_select, about_to_unselect) => {
            let u = user_id@;
            let figure_ids = pre.figures@.dom();
            let mid = match about_to_select {
                Option::Some(s) => spec_select(
                    pre.selected_figures@,
                    u,
                    accepted_of(figure_ids, s@),
                ),
                Option::None => pre.selected_figures@,
            };
            let end = match about_to_unselect {
                Option::Some(s) => spec_unselect(mid, u, accepted_of(figure_ids, s@)),
                Option::None => mid,
            };
            &&& post.users == pre.users
            &&& post.figures@ == pre.figures@
            &&& post.selected_figures@ == end
            &&& post.select_drag_positions@ == pre.select_drag_positions@
            &&& post_next == pre_next
            &&& !out.delete_room
            &&& out.deliveries@.len() == 2
            &&& (out.deliveries@[0] matches Delivery::BroadcastExcept(
                e,
                ServerMessage::Notify(NotifyType::SelectedFiguresUpdated(n, os, ou)),
            ) && e@ == u && n@ == u && accepted_opt_matches(os, about_to_select, figure_ids)
                && accepted_opt_matches(ou, about_to_unselect, figure_ids))
            &&& (out.deliveries@[1] matches Delivery::Unicast(
                t,
                ServerMessage::Accepted(AcceptedType::SelectedFiguresUpdated(os, ou)),
            ) && t@ == u && accepted_opt_matches(os, about_to_select, figure_ids)
                && accepted_opt_matches(ou, about_to_unselect, figure_ids))
        },
        RoomMessage::DeleteFigures(user_id, ids) => {
            let u = user_id@;
            let acc = accepted_of(pre.figures@.dom(), ids@);
            &&& post.users == pre.users
            &&& post.figures@ == pre.figures@.remove_keys(ids@)
            &&& post.figures@.dom() == pre.figures@.dom().difference(ids@)
            &&& post.selected_figures@ == spec_cascade(pre.selected_figures@, ids@)
            &&& post.select_drag_positions@ == pre.select_drag_positions@
            &&& post_next == pre_next
            &&& !out.delete_room
            &&& out.deliveries@.len() == 2
            &&& (out.deliveries@[0] matches Delivery::BroadcastExcept(
                e,
                ServerMessage::Notify(NotifyType::FigureDeleted(s)),
            ) && e@ == u && s@ == acc)
            &&& (out.deliveries@[1] matches Delivery::Unicast(
                t,
                ServerMessage::Accepted(AcceptedType::FigureDeleted(s)),
            ) && t@ == u && s@ == acc)
        },
    }
}

/// Stamps a client's message with the sending user's id, yielding the
/// room's inbound message. `Leave` and `Join` manage the session itself and
/// produce no room message; the session layer handles them before this
/// point.
pub fn room_message_from_client(user_id: UserId, msg: crate::message::ClientMessage) -> (r: Option<
    RoomMessage,
>)
    ensures
        match msg {
            crate::message::ClientMessage::Leave => r is None,
            crate::message::ClientMessage::Join(_, _) => r is None,
            crate::message::ClientMessage::AddFigure(data) => r == Option::Some(
                RoomMessage::AddFigure(data),
            ),
            crate::message::ClientMessage::RequestInfo(kind) => r == Option::Some(
                RoomMessage::RequestInfo(user_id, kind),
            ),
            crate::message::ClientMessage::NotifyMousePositionChanged(queue) => r == Option::Some(
                RoomMessage::NotifyMousePositionChanged(user_id, queue),
            ),
            crate::message::ClientMessage::SelectFigure(ids) => r == Option::Some(
                RoomMessage::SelectFigure(user_id, ids),
            ),
            crate::message::ClientMessage::UnselectFigureAll => r == Option::Some(
                RoomMessage::UnselectFigureAll(user_id),
            ),
            crate::message::ClientMessage::NotifySelectDragStart(x, y) => r == Option::Some(
                RoomMessage::NotifySelectDragStart(user_id, x, y),
            ),
            crate::message::ClientMessage::NotifySelectDragFinish => r == Option::Some(
                RoomMessage::NotifySelectDragFinish(user_id),
            ),
            crate::message::ClientMessage::UpdateSelectedFigures(s, u) => r == Option::Some(
                RoomMessage::UpdateSelectedFigures(user_id, s, u),
            ),
            crate::message::ClientMessage::DeleteFigures(ids) => r == Option::Some(
                RoomMessage::DeleteFigures(user_id, ids),
            ),
        },
{
    match msg {
        crate::message::ClientMessage::Leave => Option::None,
        crate::message::ClientMessage::Join(_, _) => Option::None,
        crate::message::ClientMessage::AddFigure(data) => Option::Some(
            RoomMessage::AddFigure(data),
        ),
        crate::message::ClientMessage::RequestInfo(kind) => Option::Some(
            RoomMessage::RequestInfo(user_id, kind),
        ),
        crate::message::ClientMessage::NotifyMousePositionChanged(queue) => Option::Some(
            RoomMessage::NotifyMousePositionChanged(user_id, queue),
        ),
        crate::message::ClientMessage::SelectFigure(ids) => Option::Some(
            RoomMessage::SelectFigure(user_id, ids),
        ),
        crate::message::ClientMessage::UnselectFigureAll => Option::Some(
            RoomMessage::UnselectFigureAll(user_id),
        ),
        crate::message::ClientMessage::NotifySelectDragStart(x, y) => Option::Some(
            RoomMessage::NotifySelectDragStart(user_id, x, y),
        ),
        crate::message::ClientMessage::NotifySelectDragFinish => Option::Some(
            RoomMessage::NotifySelectDragFinish(user_id),
        ),
        crate::message::ClientMessage::UpdateSelectedFigures(s, u) => Option::Some(
            RoomMessage::UpdateSelectedFigures(user_id, s, u),
        ),
        crate::message::ClientMessage::DeleteFigures(ids) => Option::Some(
            RoomMessage::DeleteFigures(user_id, ids),
        ),
    }
}

/// Clears the user's whole selection and appends the two resulting sends:
/// the notification to everyone else and the acknowledgment to the user.
fn unselect_all(state: &mut RoomInner, user_id: &String, deliveries: &mut Vec<Delivery>)
    requires
        old(state).wf(),
    ensures
        final(state).wf(),
        final(state).selected_figures@ == old(state).selected_figures@.remove(user_id@),
        final(state).figures == old(state).figures,
        final(state).users == old(state).users,
        final(state).select_drag_positions == old(state).select_drag_positions,
        final(deliveries)@.len() == old(deliveries)@.len() + 2,
        forall|i: int|
            0 <= i < old(deliveries)@.len() ==> final(deliveries)@[i] == old(deliveries)@[i],
        (final(deliveries)@[old(deliveries)@.len() as int] matches Delivery::BroadcastExcept(
            e,
            ServerMessage::Notify(NotifyType::FigureUnselectedAll(n)),
        ) && e@ == user_id@ && n@ == user_id@),
        (final(deliveries)@[old(deliveries)@.len() as int + 1] matches Delivery::Unicast(
            t,
            ServerMessage::Accepted(AcceptedType::FigureUnselectedAll),
        ) && t@ == user_id@),
{
    state.selected_figures.remove(user_id);
    deliveries.push(
        Delivery::BroadcastExcept(
            user_id.clone(),
            ServerMessage::Notify(NotifyType::FigureUnselectedAll(user_id.clone())),
        ),
    );
    deliveries.push(
        Delivery::Unicast(
            user_id.clone(),
            ServerMessage::Accepted(AcceptedType::FigureUnselectedAll),
        ),
    );
    proof {
        assert forall|u: Seq<char>| #[trigger]
            state.selected_figures@.contains_key(u) implies !state.selected_figures@[u].is_empty()
            && state.selected_figures@[u].subset_of(state.figures@.dom()) by {
            assert(old(state).selected_figures@.contains_key(u));
        }
    }
}

/// An owned copy of an optional id set, preserving presence and contents.
fn clone_opt_set(source: &Option<BTreeSet<usize>>) -> (r: Option<BTreeSet<usize>>)
    ensures
        r is None <==> (*source) is None,
        ((*source) matches Option::Some(s) ==> (r matches Option::Some(t) && t@ == s@)),
{
    match source {
        Option::Some(s) => Option::Some(s.clone()),
        Option::None => Option::None,
    }
}

/// Registers a user that is not yet in the room and returns the two sends
/// announcing the join: the notification to everyone else and the
/// acknowledgment to the joiner.
pub fn join_user(state: &mut RoomInner, new_user_id: String) -> (deliveries: Vec<Delivery>)
    requires
        old(state).wf(),
        !old(state).users.id_set().contains(new_user_id@),
    ensures
        final(state).wf(),
        final(state).users.id_set() == old(state).users.id_set().insert(new_user_id@),
        final(state).users.spec_ids() == old(state).users.spec_ids().push(new_user_id@),
        final(state).figures == old(state).figures,
        final(state).selected_figures == old(state).selected_figures,
        final(state).select_drag_positions == old(state).select_drag_positions,
        deliveries@.len() == 2,
        (deliveries@[0] matches Delivery::BroadcastExcept(
            e,
            ServerMessage::Notify(NotifyType::UserJoined(n)),
        ) && e@ == new_user_id@ && n@ == new_user_id@),
        (deliveries@[1] matches Delivery::Unicast(
            t,
            ServerMessage::Accepted(AcceptedType::UserJoined),
        ) && t@ == new_user_id@),
{
    let mut deliveries: Vec<Delivery> = Vec::new();
    deliveries.push(
        Delivery::BroadcastExcept(
            new_user_id.clone(),
            ServerMessage::Notify(NotifyType::UserJoined(new_user_id.clone())),
        ),
    );
    deliveries.push(
        Delivery::Unicast(new_user_id.clone(), ServerMessage::Accepted(AcceptedType::UserJoined)),
    );
    state.users.insert(new_user_id);
    deliveries
}

/// Whether `user_id` is currently registered in the room.
pub fn check_exist_user(state: &RoomInner, user_id: &String) -> (r: bool)
    requires
        state.wf(),
    ensures
        r == state.users.id_set().contains(user_id@),
{
    state.users.contains(user_id)
}

/// Applies one inbound message to the room, as `room_step` specifies, and
/// returns the deliveries to relay. The state invariant is preserved, every
/// live figure id stays below the allocator's next id, and the allocator
/// never moves backwards.
pub fn handle_message(
    state: &mut RoomInner,
    id_allocator: &mut FigureIdAllocator,
    msg: RoomMessage,
) -> (out: RoomOutput)
    requires
        old(state).wf(),
        figure_ids_below(*old(state), old(id_allocator).next()),
        old(id_allocator).next() < usize::MAX,
    ensures
        final(state).wf(),
        figure_ids_below(*final(state), final(id_allocator).next()),
        final(id_allocator).next() >= old(id_allocator).next(),
        room_step(
            *old(state),
            old(id_allocator).next(),
            msg,
            *final(state),
            final(id_allocator).next(),
            out,
        ),
{
    let mut deliveries: Vec<Delivery> = Vec::new();
    match msg {
        RoomMessage::LeaveUser(user_id) => {
            state.users.remove(&user_id);
            if state.users.is_empty() {
                RoomOutput { deliveries, delete_room: true }
            } else {
                deliveries.push(
                    Delivery::Broadcast(
                        ServerMessage::Notify(NotifyType::UserLeft(user_id.clone())),
                    ),
                );
                unselect_all(state, &user_id, &mut deliveries);
                RoomOutput { deliveries, delete_room: false }
            }
        },
        RoomMessage::AddFigure(data) => {
            let new_id = id_allocator.allocate();
            let payload_copy = data.duplicate();
            state.figures.insert(new_id, data);
            deliveries.push(
                Delivery::Broadcast(
                    ServerMessage::Notify(NotifyType::FigureAdded(new_id, payload_copy)),
                ),
            );
            RoomOutput { deliveries, delete_room: false }
        },
        RoomMessage::RequestInfo(user_id, kind) => {
            let response = match kind {
                RequestType::CurrentFigures => ResponseType::CurrentFigures(state.figures.clone()),
                RequestType::CurrentSharedUsers => ResponseType::CurrentSharedUsers(
                    state.users.to_vec(),
                ),
                RequestType::CurrentSelectedFigures => ResponseType::CurrentSelectedFigures(
                    state.selected_figures.snapshot(),
                ),
                RequestType::CurrentSelectDragPositions => ResponseType::CurrentSelectDragPositions(
                    state.select_drag_positions.snapshot(),
                ),
                RequestType::CheckRoomExist(room_id) => ResponseType::InvalidRequest(
                    RequestType::CheckRoomExist(room_id),
                ),
                RequestType::CheckUserExist(room_id, asked_id) => ResponseType::InvalidRequest(
                    RequestType::CheckUserExist(room_id, asked_id),
                ),
            };
            deliveries.push(Delivery::Unicast(user_id, ServerMessage::Response(response)));
            RoomOutput { deliveries, delete_room: false }
        },
        RoomMessage::NotifyMousePositionChanged(user_id, queue) => {
            deliveries.push(
                Delivery::BroadcastExcept(
                    user_id.clone(),
                    ServerMessage::Notify(
                        NotifyType::UserMousePositionChanged(user_id, queue),
                    ),
                ),
            );
            RoomOutput { deliveries, delete_room: false }
        },
        RoomMessage::SelectFigure(user_id, ids) => {
            let (accepted, _rejected) = selection::select(state, &user_id, ids);
            let accepted_copy = accepted.clone();
            deliveries.push(
                Delivery::BroadcastExcept(
                    user_id.clone(),
                    ServerMessage::Notify(
                        NotifyType::FigureSelected(user_id.clone(), accepted_copy),
                    ),
                ),
            );
            deliveries.push(
                Delivery::Unicast(
                    user_id,
                    ServerMessage::Accepted(AcceptedType::FigureSelected(accepted)),
                ),
            );
            RoomOutput { deliveries, delete_room: false }
        },
        RoomMessage::UnselectFigureAll(user_id) => {
            unselect_all(state, &user_id, &mut deliveries);
            RoomOutput { deliveries, delete_room: false }
        },
        RoomMessage::NotifySelectDragStart(user_id, x, y) => {
            state.select_drag_positions.insert(&user_id, (x, y));
            deliveries.push(
                Delivery::BroadcastExcept(
                    user_id.clone(),
                    ServerMessage::Notify(NotifyType::SelectDragStarted(user_id, x, y)),
                ),
            );
            RoomOutput { deliveries, delete_room: false }
        },
        RoomMessage::NotifySelectDragFinish(user_id) => {
            state.select_drag_positions.remove(&user_id);
            deliveries.push(
                Delivery::BroadcastExcept(
                    user_id.clone(),
                    ServerMessage::Notify(NotifyType::SelectDragFinished(user_id)),
                ),
            );
            RoomOutput { deliveries, delete_room: false }
        },
        RoomMessage::UpdateSelectedFigures(user_id, about_to_select, about_to_unselect) => {
            let accepted_select = match about_to_select {
                Option::Some(s) => {
                    let (a, _r) = selection::select(state, &user_id, s);
                    Option::Some(a)
                },
                Option::None => Option::None,
            };
            let accepted_unselect = match about_to_unselect {
                Option::Some(s) => {
                    let (a, _r) = selection::unselect(state, &user_id, s);
                    Option::Some(a)
                },
                Option::None => Option::None,
            };
            let select_copy = clone_opt_set(&accepted_select);
            let unselect_copy = clone_opt_set(&accepted_unselect);
            deliveries.push(
                Delivery::BroadcastExcept(
                    user_id.clone(),
                    ServerMessage::Notify(
                        NotifyType::SelectedFiguresUpdated(
                            user_id.clone(),
                            select_copy,
                            unselect_copy,
                        ),
                    ),
                ),
            );
            deliveries.push(
                Delivery::Unicast(
                    user_id,
                    ServerMessage::Accepted(
                        AcceptedType::SelectedFiguresUpdated(accepted_select, accepted_unselect),
                    ),
                ),
            );
            RoomOutput { deliveries, delete_room: false }
        },
        RoomMessage::DeleteFigures(user_id, ids) => {
            let ghost ids0 = ids;
            let (accepted, _rejected) = deletion::delete(state, ids);
            proof {
                assert(state.figures@.dom() =~= old(state).figures@.dom().difference(ids0@));
            }
            let accepted_copy = accepted.clone();
            deliveries.push(
                Delivery::BroadcastExcept(
                    user_id.clone(),
                    ServerMessage::Notify(NotifyType::FigureDeleted(accepted_copy)),
                ),
            );
            deliveries.push(
                Delivery::Unicast(
                    user_id,
                    ServerMessage::Accepted(AcceptedType::FigureDeleted(accepted)),
                ),
            );
            RoomOutput { deliveries, delete_room: false }
        },
    }
}

/// Law: no step moves the figure-id counter backwards, so ids handed out
/// later are never smaller.
pub proof fn lemma_counter_monotonic(
    pre: RoomInner,
    pre_next: int,
    msg: RoomMessage,
    post: RoomInner,
    post_next: int,
    out: RoomOutput,
)
    requires
        room_step(pre, pre_next, msg, post, post_next, out),
    ensures
        post_next >= pre_next,
{
}

/// Law: every step keeps all live figure ids below the id counter, so a
/// deleted id — being below the counter for good — can never come back.
pub proof fn lemma_figure_ids_stay_bounded(
    pre: RoomInner,
    pre_next: int,
    msg: RoomMessage,
    post: RoomInner,
    post_next: int,
    out: RoomOutput,
)
    requires
        room_step(pre, pre_next, msg, post, post_next, out),
        figure_ids_below(pre, pre_next),
    ensures
        figure_ids_below(post, post_next),
{
    match msg {
        RoomMessage::AddFigure(data) => {
            assert forall|id: usize| #[trigger] post.figures@.dom().contains(id) implies (
            id as int) < post_next by {
                if id as int != pre_next {
                    assert(pre.figures@.dom().contains(id));
                }
            }
        },
        RoomMessage::DeleteFigures(user_id, ids) => {
            assert forall|id: usize| #[trigger] post.figures@.dom().contains(id) implies (
            id as int) < post_next by {
                assert(pre.figures@.dom().contains(id));
            }
        },
        _ => {},
    }
}

/// Law: the id announced for an added figure is the counter's value, and no
/// live figure already carries it — a fresh id, even after deletions.
pub proof fn lemma_added_id_fresh(
    pre: RoomInner,
    pre_next: int,
    data: FigureData,
    post: RoomInner,
    post_next: int,
    out: RoomOutput,
)
    requires
        room_step(pre, pre_next, RoomMessage::AddFigure(data), post, post_next, out),
        figure_ids_below(pre, pre_next),
    ensures
        added_figure_id(out) == pre_next,
        !pre.figures@.dom().contains(added_figure_id(out) as usize),
{
}

/// Law: two added figures never share an id, however many steps — deletions
/// included — lie between the two additions, as long as the counter the
/// second addition starts from is not below the counter the first one ended
/// with (which every step guarantees, by `lemma_counter_monotonic`).
pub proof fn lemma_added_ids_distinct(
    pre1: RoomInner,
    next1: int,
    data1: FigureData,
    post1: RoomInner,
    end1: int,
    out1: RoomOutput,
    pre2: RoomInner,
    next2: int,
    data2: FigureData,
    post2: RoomInner,
    end2: int,
    out2: RoomOutput,
)
    requires
        room_step(pre1, next1, RoomMessage::AddFigure(data1), post1, end1, out1),
        room_step(pre2, next2, RoomMessage::AddFigure(data2), post2, end2, out2),
        end1 <= next2,
    ensures
        added_figure_id(out1) < added_figure_id(out2),
{
}

} // verus!
