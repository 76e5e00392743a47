//! The workspace's reaction to a server message.
//!
//! Every message from the room drives the same mirror updates on every
//! client: figures appear and disappear, selections merge and prune, and
//! the canvas learns whether it must redraw. `handle_server_message` is
//! that reaction, specified by `workspace_step`; what it cannot decide —
//! cursor rendering, user colours, the sends themselves — stays with the
//! caller, which receives the follow-up requests to send as plain values.

use std::collections::BTreeSet;
use vstd::prelude::*;

use crate::deletion::spec_cascade;
use crate::message::AcceptedType;
use crate::message::NotifyType;
use crate::message::RequestType;
use crate::message::ResponseType;
use crate::message::ServerMessage;
use crate::selection::spec_select;
use crate::selection::spec_unselect;
use crate::user_map::UserMap;
use crate::workspace_data::FigureMaintainer;

verus! {

broadcast use vstd::prelude::Seq::lemma_push_to_set_commute;

/// Why the canvas must be redrawn after a message, if it must at all.
#[derive(Debug, Clone, Copy, PartialEq, Eq, Structural)]
pub enum UpdateReason {
    Init,
    ShowChat,
    ChangeMode,
    FigureAdded,
    UserJoined,
    UserLeft,
    MousePositionChanged,
    FigureUnselectedAll,
    SelectDragFinished,
    FigureDeleted,
    FigureSelected,
    SelectedFiguresUpdated,
    GetCurrentFigures,
    GetCurrentSharedUsers,
    GetCurrentSelectedFigures,
    GetCurrentSelectDragPositions,
}

/// What a child component of the workspace asks of it: a local toggle, or
/// something to tell the server.
#[derive(Debug, Clone, PartialEq, Eq)]
pub enum ChildRequestType {
    Leave,
    ShowChat(bool),
    ChangeMode(crate::base::DrawModeType),
    AddFigure(crate::figure::FigureData),
    NotifyMousePositionChanged(Vec<(u64, u64)>),
    SelectFigure(BTreeSet<usize>),
    UnselectFigureAll,
    NotifySelectDragStart(u64, u64),
    NotifySelectDragFinish,
    UpdateSelectedFigures(Option<BTreeSet<usize>>, Option<BTreeSet<usize>>),
    DeleteFigures(BTreeSet<usize>),
}

/// Decides how the workspace reacts to a child component's request: how its
/// local mode and chat toggle change, whether to redraw, and which message
/// to send to the server. Leaving the room is the caller's navigation
/// concern and needs nothing from here.
pub fn handle_child_request(
    current_mode: &mut crate::base::DrawModeType,
    show_chat: &mut bool,
    request: ChildRequestType,
) -> (r: (Option<UpdateReason>, Option<crate::message::ClientMessage>))
    ensures
        match request {
            ChildRequestType::Leave => *final(current_mode) == *old(current_mode) && *final(show_chat) == *old(show_chat) && r.0 is None && r.1 is None,
            ChildRequestType::ShowChat(show) => *final(current_mode) == *old(current_mode)
                && *final(show_chat) == show && r.0 == Option::Some(UpdateReason::ShowChat)
                && r.1 is None,
            ChildRequestType::ChangeMode(mode) => *final(show_chat) == *old(show_chat) && (if mode
                != *old(current_mode) {
                // A mode change drops the whole selection on the server.
                &&& *final(current_mode) == mode
                &&& r.0 == Option::Some(UpdateReason::ChangeMode)
                &&& r.1 == Option::Some(crate::message::ClientMessage::UnselectFigureAll)
            } else {
                &&& *final(current_mode) == *old(current_mode)
                &&& r.0 is None
                &&& r.1 is None
            }),
            ChildRequestType::AddFigure(data) => *final(current_mode) == *old(current_mode)
                && *final(show_chat) == *old(show_chat) && r.0 is None && r.1 == Option::Some(
                crate::message::ClientMessage::AddFigure(data),
            ),
            ChildRequestType::NotifyMousePositionChanged(queue) => *final(current_mode) == *old(
                current_mode,
            ) && *final(show_chat) == *old(show_chat) && r.0 is None && r.1 == Option::Some(
                crate::message::ClientMessage::NotifyMousePositionChanged(queue),
            ),
            ChildRequestType::SelectFigure(ids) => *final(current_mode) == *old(current_mode)
                && *final(show_chat) == *old(show_chat) && r.0 is None && r.1 == Option::Some(
                crate::message::ClientMessage::SelectFigure(ids),
            ),
            ChildRequestType::UnselectFigureAll => *final(current_mode) == *old(current_mode)
                && *final(show_chat) == *old(show_chat) && r.0 is None && r.1 == Option::Some(
                crate::message::ClientMessage::UnselectFigureAll,
            ),
            ChildRequestType::NotifySelectDragStart(x, y) => *final(current_mode) == *old(
                current_mode,
            ) && *final(show_chat) == *old(show_chat) && r.0 is None && r.1 == Option::Some(
                crate::message::ClientMessage::NotifySelectDragStart(x, y),
            ),
            ChildRequestType::NotifySelectDragFinish => *final(current_mode) == *old(current_mode)
                && *final(show_chat) == *old(show_chat) && r.0 is None && r.1 == Option::Some(
                crate::message::ClientMessage::NotifySelectDragFinish,
            ),
            ChildRequestType::UpdateSelectedFigures(s, u) => *final(current_mode) == *old(
                current_mode,
            ) && *final(show_chat) == *old(show_chat) && r.0 is None && r.1 == Option::Some(
                crate::message::ClientMessage::UpdateSelectedFigures(s, u),
            ),
            ChildRequestType::DeleteFigures(ids) => *final(current_mode) == *old(current_mode)
                && *final(show_chat) == *old(show_chat) && r.0 is None && r.1 == Option::Some(
                crate::message::ClientMessage::DeleteFigures(ids),
            ),
        },
{
    match request {
        ChildRequestType::Leave => (Option::None, Option::None),
        ChildRequestType::ShowChat(show) => {
            *show_chat = show;
            (Option::Some(UpdateReason::ShowChat), Option::None)
        },
        ChildRequestType::ChangeMode(mode) => {
            if mode != *current_mode {
                *current_mode = mode;
                (
                    Option::Some(UpdateReason::ChangeMode),
                    Option::Some(crate::message::ClientMessage::UnselectFigureAll),
                )
            } else {
                (Option::None, Option::None)
            }
        },
        ChildRequestType::AddFigure(data) => (
            Option::None,
            Option::Some(crate::message::ClientMessage::AddFigure(data)),
        ),
        ChildRequestType::NotifyMousePositionChanged(queue) => (
            Option::None,
            Option::Some(crate::message::ClientMessage::NotifyMousePositionChanged(queue)),
        ),
        ChildRequestType::SelectFigure(ids) => (
            Option::None,
            Option::Some(crate::message::ClientMessage::SelectFigure(ids)),
        ),
        ChildRequestType::UnselectFigureAll => (
            Option::None,
            Option::Some(crate::message::ClientMessage::UnselectFigureAll),
        ),
        ChildRequestType::NotifySelectDragStart(x, y) => (
            Option::None,
            Option::Some(crate::message::ClientMessage::NotifySelectDragStart(x, y)),
        ),
        ChildRequestType::NotifySelectDragFinish => (
            Option::None,
            Option::Some(crate::message::ClientMessage::NotifySelectDragFinish),
        ),
        ChildRequestType::UpdateSelectedFigures(s, u) => (
            Option::None,
            Option::Some(crate::message::ClientMessage::UpdateSelectedFigures(s, u)),
        ),
        ChildRequestType::DeleteFigures(ids) => (
            Option::None,
            Option::Some(crate::message::ClientMessage::DeleteFigures(ids)),
        ),
    }
}

/// The canvas gained a figure under `id` whose payload reads `payload`;
/// everything else is as before.
pub open spec fn figures_updated_with(
    pre: Map<usize, crate::figure::FigureData>,
    post: Map<usize, crate::figure::FigureData>,
    id: usize,
    payload: Seq<u8>,
) -> bool {
    &&& post.dom() == pre.dom().insert(id)
    &&& post[id]@ == payload
    &&& forall|k: usize| #[trigger] post.contains_key(k) && k != id ==> post[k] == pre[k]
}

/// How merging a selection snapshot changes the peer table, once the users
/// in `done` have been folded in: each of them, except the client itself,
/// has the snapshot's ids merged into their entry.
pub open spec fn spec_merge_peers_upto(
    pre: Map<Seq<char>, Set<usize>>,
    snapshot: Map<Seq<char>, Set<usize>>,
    me: Seq<char>,
    done: Set<Seq<char>>,
) -> Map<Seq<char>, Set<usize>> {
    Map::new(
        |u: Seq<char>|
            pre.contains_key(u) || (done.contains(u) && u != me && snapshot.contains_key(u)
                && !snapshot[u].is_empty()),
        |u: Seq<char>|
            if done.contains(u) && u != me && snapshot.contains_key(u) {
                if pre.contains_key(u) {
                    pre[u].union(snapshot[u])
                } else {
                    snapshot[u]
                }
            } else {
                pre[u]
            },
    )
}

/// How merging a whole selection snapshot changes the peer table.
pub open spec fn spec_merge_peers(
    pre: Map<Seq<char>, Set<usize>>,
    snapshot: Map<Seq<char>, Set<usize>>,
    me: Seq<char>,
) -> Map<Seq<char>, Set<usize>> {
    spec_merge_peers_upto(pre, snapshot, me, snapshot.dom())
}

/// The follow-up requests a freshly joined client sends: the full state of
/// the room, snapshot by snapshot.
pub open spec fn join_follow_up_requests(requests: Seq<RequestType>) -> bool {
    &&& requests.len() == 4
    &&& requests[0] == RequestType::CurrentSharedUsers
    &&& requests[1] == RequestType::CurrentFigures
    &&& requests[2] == RequestType::CurrentSelectedFigures
    &&& requests[3] == RequestType::CurrentSelectDragPositions
}

/// How one server message changes the workspace mirror of the client whose
/// id is `me`: the state after, the redraw reason, and the follow-up
/// requests to send. This is the client half of the protocol table.
pub open spec fn workspace_step(
    pre: FigureMaintainer,
    me: Seq<char>,
    msg: ServerMessage,
    post: FigureMaintainer,
    reason: Option<UpdateReason>,
    requests: Seq<RequestType>,
) -> bool {
    match msg {
        ServerMessage::Notify(notify) => {
            &&& requests.len() == 0
            &&& match notify {
                NotifyType::FigureAdded(id, data) => {
                    &&& figures_updated_with(pre.figures(), post.figures(), id, data@)
                    &&& post.selected() == pre.selected()
                    &&& post.peer_selected() == pre.peer_selected()
                    &&& post.spec_preview() == pre.spec_preview()
                    &&& reason == Option::Some(UpdateReason::FigureAdded)
                },
                NotifyType::UserJoined(_) => post == pre && reason == Option::Some(
                    UpdateReason::UserJoined,
                ),
                NotifyType::UserLeft(_) => post == pre && reason == Option::Some(
                    UpdateReason::UserLeft,
                ),
                NotifyType::UserMousePositionChanged(_, _) => post == pre && reason
                    == Option::Some(UpdateReason::MousePositionChanged),
                NotifyType::FigureUnselectedAll(user_id) => {
                    &&& post.peer_selected() == pre.peer_selected().remove(user_id@)
                    &&& post.figures() == pre.figures()
                    &&& post.selected() == pre.selected()
                    &&& post.spec_preview() == pre.spec_preview()
                    &&& reason == Option::Some(UpdateReason::FigureUnselectedAll)
                },
                NotifyType::SelectDragStarted(_, _, _) => post == pre && reason is None,
                NotifyType::SelectDragFinished(user_id) => post == pre && reason == (if user_id@
                    != me {
                    Option::Some(UpdateReason::SelectDragFinished)
                } else {
                    Option::None
                }),
                NotifyType::FigureDeleted(ids) => {
                    &&& post.figures() == pre.figures().remove_keys(ids@)
                    &&& post.selected() == pre.selected().difference(ids@)
                    &&& post.peer_selected() == spec_cascade(pre.peer_selected(), ids@)
                    &&& post.spec_preview() == pre.spec_preview()
                    &&& reason == Option::Some(UpdateReason::FigureDeleted)
                },
                NotifyType::FigureSelected(user_id, ids) => {
                    &&& post.peer_selected() == spec_select(pre.peer_selected(), user_id@, ids@)
                    &&& post.figures() == pre.figures()
                    &&& post.selected() == pre.selected()
                    &&& post.spec_preview() == pre.spec_preview()
                    &&& reason == Option::Some(UpdateReason::FigureSelected)
                },
                NotifyType::SelectedFiguresUpdated(user_id, to_select, to_unselect) => {
                    if user_id@ == me {
                        post == pre && reason is None
                    } else {
                        let mid = match to_select {
                            Option::Some(s) => spec_select(pre.peer_selected(), user_id@, s@),
                            Option::None => pre.peer_selected(),
                        };
                        let end = match to_unselect {
                            Option::Some(s) => spec_unselect(mid, user_id@, s@),
                            Option::None => mid,
                        };
                        &&& post.peer_selected() == end
                        &&& post.figures() == pre.figures()
                        &&& post.selected() == pre.selected()
                        &&& post.spec_preview() == pre.spec_preview()
                        &&& reason == Option::Some(UpdateReason::SelectedFiguresUpdated)
                    }
                },
            }
        },
        ServerMessage::Response(response) => {
            &&& requests.len() == 0
            &&& match response {
                ResponseType::CurrentFigures(datas) => {
                    if datas@.is_empty() {
                        post == pre && reason is None
                    } else {
                        &&& post.figures() == pre.figures().union_prefer_right(datas@)
                        &&& post.selected() == pre.selected()
                        &&& post.peer_selected() == pre.peer_selected()
                        &&& post.spec_preview() == pre.spec_preview()
                        &&& reason == Option::Some(UpdateReason::GetCurrentFigures)
                    }
                },
                ResponseType::CurrentSharedUsers(users) => post == pre && reason == (if (exists|
                    i: int,
                |
                    0 <= i < users@.len() && users@[i]@ == me) && users@.len() >= 2 {
                    Option::Some(UpdateReason::GetCurrentSharedUsers)
                } else {
                    Option::None
                }),
                ResponseType::CurrentSelectedFigures(snapshot) => {
                    if snapshot@.dom().is_empty() {
                        post == pre && reason is None
                    } else {
                        &&& post.peer_selected() == spec_merge_peers(
                            pre.peer_selected(),
                            snapshot@,
                            me,
                        )
                        &&& post.figures() == pre.figures()
                        &&& post.selected() == pre.selected()
                        &&& post.spec_preview() == pre.spec_preview()
                        &&& reason == Option::Some(UpdateReason::GetCurrentSelectedFigures)
                    }
                },
                ResponseType::CurrentSelectDragPositions(snapshot) => post == pre && reason == (
                if snapshot@.dom().is_empty() {
                    Option::None
                } else {
                    Option::Some(UpdateReason::GetCurrentSelectDragPositions)
                }),
                _ => post == pre && reason is None,
            }
        },
        ServerMessage::Accepted(accepted) => match accepted {
            AcceptedType::UserJoined => {
                &&& post == pre
                &&& reason is None
                &&& join_follow_up_requests(requests)
            },
            AcceptedType::FigureUnselectedAll => {
                &&& requests.len() == 0
                &&& post.selected() == Set::<usize>::empty()
                &&& post.figures() == pre.figures()
                &&& post.peer_selected() == pre.peer_selected()
                &&& post.spec_preview() == pre.spec_preview()
                &&& reason == Option::Some(UpdateReason::FigureUnselectedAll)
            },
            AcceptedType::FigureSelected(ids) => {
                &&& requests.len() == 0
                &&& post.selected() == pre.selected().union(ids@)
                &&& post.figures() == pre.figures()
                &&& post.peer_selected() == pre.peer_selected()
                &&& post.spec_preview() == pre.spec_preview()
                &&& reason == Option::Some(UpdateReason::FigureSelected)
            },
            AcceptedType::SelectedFiguresUpdated(to_select, to_unselect) => {
                let mid = match to_select {
                    Option::Some(s) => pre.selected().union(s@),
                    Option::None => pre.selected(),
                };
                let end = match to_unselect {
                    Option::Some(s) => mid.difference(s@),
                    Option::None => mid,
                };
                &&& requests.len() == 0
                &&& post.selected() == end
                &&& post.figures() == pre.figures()
                &&& post.peer_selected() == pre.peer_selected()
                &&& post.spec_preview() == pre.spec_preview()
                &&& reason == Option::Some(UpdateReason::SelectedFiguresUpdated)
            },
            AcceptedType::FigureDeleted(ids) => {
                &&& requests.len() == 0
                &&& post.figures() == pre.figures().remove_keys(ids@)
                &&& post.selected() == pre.selected().difference(ids@)
                &&& post.peer_selected() == spec_cascade(pre.peer_selected(), ids@)
                &&& post.spec_preview() == pre.spec_preview()
                &&& reason == Option::Some(UpdateReason::FigureDeleted)
            },
        },
        ServerMessage::PartialAccepted(_, _) => post == pre && reason is None && requests.len()
            == 0,
        ServerMessage::Rejected(_) => post == pre && reason is None && requests.len() == 0,
    }
}

/// The key views of the first `i` users of the list, as a set.
spec fn prefix_key_set(users: Seq<String>, i: int) -> Set<Seq<char>> {
    users.take(i).map_values(|s: String| s@).to_set()
}

/// Folds a whole selection snapshot into the peer table, skipping the
/// client's own entry.
#[verifier::loop_isolation(false)]
fn merge_peer_selections(
    maintainer: &mut FigureMaintainer,
    me: &String,
    snapshot: &UserMap<BTreeSet<usize>>,
)
    requires
        old(maintainer).wf(),
        snapshot.wf(),
    ensures
        final(maintainer).wf(),
        final(maintainer).peer_selected() == spec_merge_peers(
            old(maintainer).peer_selected(),
            snapshot@,
            me@,
        ),
        final(maintainer).figures() == old(maintainer).figures(),
        final(maintainer).selected() == old(maintainer).selected(),
        final(maintainer).spec_preview() == old(maintainer).spec_preview(),
{
    let users = snapshot.user_ids();
    let ghost pre = maintainer.peer_selected();
    proof {
        assert(users@.take(0).map_values(|s: String| s@).to_set() =~= Set::<Seq<char>>::empty());
        assert(maintainer.peer_selected() =~= spec_merge_peers_upto(
            pre,
            snapshot@,
            me@,
            prefix_key_set(users@, 0),
        ));
    }
    let n = users.len();
    let mut i: usize = 0;
    while i < n
        invariant
            i <= n,
            n == users@.len(),
            maintainer.wf(),
            maintainer.figures() == old(maintainer).figures(),
            maintainer.selected() == old(maintainer).selected(),
            maintainer.spec_preview() == old(maintainer).spec_preview(),
            maintainer.peer_selected() == spec_merge_peers_upto(
                pre,
                snapshot@,
                me@,
                prefix_key_set(users@, i as int),
            ),
        decreases n - i,
    {
        let ghost done = prefix_key_set(users@, i as int);
        proof {
            let s = users@.map_values(|s: String| s@);
            assert(users@.take(i + 1) =~= users@.take(i as int).push(users@[i as int]));
            assert(users@.take(i + 1).map_values(|s: String| s@) =~= users@.take(
                i as int,
            ).map_values(|s: String| s@).push(users@[i as int]@));
            assert(prefix_key_set(users@, i + 1) =~= done.insert(users@[i as int]@));
        }
        if users[i] != *me {
            match snapshot.get(&users[i]) {
                Option::Some(ids) => {
                    let merge = ids.clone();
                    maintainer.select_by_another_user(users[i].clone(), merge);
                    proof {
                        assert(maintainer.peer_selected() =~= spec_merge_peers_upto(
                            pre,
                            snapshot@,
                            me@,
                            done.insert(users@[i as int]@),
                        ));
                    }
                },
                Option::None => {
                    proof {
                        assert(false);
                    }
                },
            }
        } else {
            proof {
                assert(maintainer.peer_selected() =~= spec_merge_peers_upto(
                    pre,
                    snapshot@,
                    me@,
                    done.insert(me@),
                ));
            }
        }
        i = i + 1;
    }
    proof {
        assert(users@.take(n as int) =~= users@);
        assert forall|k: Seq<char>| #[trigger]
            prefix_key_set(users@, n as int).contains(k) implies snapshot@.dom().contains(k) by {
            let s = users@.map_values(|s: String| s@);
            let j = choose|j: int| 0 <= j < s.len() && s[j] == k;
            assert(users@[j]@ == k);
        }
        assert forall|k: Seq<char>| #[trigger] snapshot@.dom().contains(k) implies prefix_key_set(
            users@,
            n as int,
        ).contains(k) by {
            let j = choose|j: int| 0 <= j < users@.len() && users@[j]@ == k;
            let s = users@.map_values(|s: String| s@);
            assert(s[j] == k);
            assert(s.to_set().contains(k));
        }
        assert(prefix_key_set(users@, n as int) =~= snapshot@.dom());
        assert(maintainer.peer_selected() =~= spec_merge_peers(pre, snapshot@, me@));
    }
}

/// Applies one server message to the workspace mirror of the client `me`,
/// as `workspace_step` specifies, and returns the redraw reason and the
/// follow-up requests to send.
pub fn handle_server_message(
    maintainer: &mut FigureMaintainer,
    me: &String,
    msg: &ServerMessage,
) -> (r: (Option<UpdateReason>, Vec<RequestType>))
    requires
        old(maintainer).wf(),
        (*msg) matches ServerMessage::Response(ResponseType::CurrentSelectedFigures(snapshot))
            ==> snapshot.wf(),
    ensures
        final(maintainer).wf(),
        workspace_step(*old(maintainer), me@, *msg, *final(maintainer), r.0, r.1@),
{
    let no_requests: Vec<RequestType> = Vec::new();
    match msg {
        ServerMessage::Notify(notify) => {
            let reason = match notify {
                NotifyType::FigureAdded(id, data) => {
                    maintainer.insert_to_default(*id, data.duplicate());
                    proof {
                        assert(maintainer.figures().dom() =~= old(
                            maintainer,
                        ).figures().dom().insert(*id));
                    }
                    Option::Some(UpdateReason::FigureAdded)
                },
                NotifyType::UserJoined(_) => Option::Some(UpdateReason::UserJoined),
                NotifyType::UserLeft(_) => Option::Some(UpdateReason::UserLeft),
                NotifyType::UserMousePositionChanged(_, _) => Option::Some(
                    UpdateReason::MousePositionChanged,
                ),
                NotifyType::FigureUnselectedAll(user_id) => {
                    maintainer.unselect_all_by_another_user(user_id.clone());
                    Option::Some(UpdateReason::FigureUnselectedAll)
                },
                NotifyType::SelectDragStarted(_, _, _) => Option::None,
                NotifyType::SelectDragFinished(user_id) => {
                    if *user_id != *me {
                        Option::Some(UpdateReason::SelectDragFinished)
                    } else {
                        Option::None
                    }
                },
                NotifyType::FigureDeleted(ids) => {
                    maintainer.delete_to_default(ids);
                    maintainer.unselect(ids);
                    maintainer.try_unselect_by_all_users(ids);
                    Option::Some(UpdateReason::FigureDeleted)
                },
                NotifyType::FigureSelected(user_id, ids) => {
                    maintainer.select_by_another_user(user_id.clone(), ids.clone());
                    Option::Some(UpdateReason::FigureSelected)
                },
                NotifyType::SelectedFiguresUpdated(user_id, to_select, to_unselect) => {
                    if *user_id != *me {
                        match to_select {
                            Option::Some(ids) => {
                                maintainer.select_by_another_user(user_id.clone(), ids.clone());
                            },
                            Option::None => {},
                        }
                        match to_unselect {
                            Option::Some(ids) => {
                                maintainer.unselect_by_another_user(user_id.clone(), ids.clone());
                            },
                            Option::None => {},
                        }
                        Option::Some(UpdateReason::SelectedFiguresUpdated)
                    } else {
                        Option::None
                    }
                },
            };
            (reason, no_requests)
        },
        ServerMessage::Response(response) => {
            let reason = match response {
                ResponseType::CurrentFigures(datas) => {
                    if datas.is_empty() {
                        Option::None
                    } else {
                        maintainer.append_to_default(datas.clone());
                        Option::Some(UpdateReason::GetCurrentFigures)
                    }
                },
                ResponseType::CurrentSharedUsers(users) => {
                    let mut found: bool = false;
                    let count = users.len();
                    let mut i: usize = 0;
                    while i < count
                        invariant
                            i <= count,
                            count == users@.len(),
                            found == (exists|j: int| 0 <= j < i && users@[j]@ == me@),
                        decreases count - i,
                    {
                        if users[i] == *me {
                            found = true;
                        }
                        i = i + 1;
                    }
                    if found && count >= 2 {
                        Option::Some(UpdateReason::GetCurrentSharedUsers)
                    } else {
                        Option::None
                    }
                },
                ResponseType::CurrentSelectedFigures(snapshot) => {
                    if snapshot.is_empty() {
                        Option::None
                    } else {
                        merge_peer_selections(maintainer, me, snapshot);
                        Option::Some(UpdateReason::GetCurrentSelectedFigures)
                    }
                },
                ResponseType::CurrentSelectDragPositions(snapshot) => {
                    if snapshot.is_empty() {
                        Option::None
                    } else {
                        Option::Some(UpdateReason::GetCurrentSelectDragPositions)
                    }
                },
                ResponseType::ResponseRoomExist(_) => Option::None,
                ResponseType::ResponseUserExist(_) => Option::None,
                ResponseType::InvalidRequest(_) => Option::None,
            };
            (reason, no_requests)
        },
        ServerMessage::Accepted(accepted) => {
            match accepted {
                AcceptedType::UserJoined => {
                    let mut requests: Vec<RequestType> = Vec::new();
                    requests.push(RequestType::CurrentSharedUsers);
                    requests.push(RequestType::CurrentFigures);
                    requests.push(RequestType::CurrentSelectedFigures);
                    requests.push(RequestType::CurrentSelectDragPositions);
                    (Option::None, requests)
                },
                AcceptedType::FigureUnselectedAll => {
                    maintainer.unselect_all();
                    (Option::Some(UpdateReason::FigureUnselectedAll), no_requests)
                },
                AcceptedType::FigureSelected(ids) => {
                    maintainer.select(ids.clone());
                    (Option::Some(UpdateReason::FigureSelected), no_requests)
                },
                AcceptedType::SelectedFiguresUpdated(to_select, to_unselect) => {
                    match to_select {
                        Option::Some(ids) => {
                            maintainer.select(ids.clone());
                        },
                        Option::None => {},
                    }
                    match to_unselect {
                        Option::Some(ids) => {
                            maintainer.unselect(ids);
                        },
                        Option::None => {},
                    }
                    (Option::Some(UpdateReason::SelectedFiguresUpdated), no_requests)
                },
                AcceptedType::FigureDeleted(ids) => {
                    maintainer.delete_to_default(ids);
                    maintainer.unselect(ids);
                    maintainer.try_unselect_by_all_users(ids);
                    (Option::Some(UpdateReason::FigureDeleted), no_requests)
                },
            }
        },
        ServerMessage::PartialAccepted(_, _) => (Option::None, no_requests),
        ServerMessage::Rejected(_) => (Option::None, no_requests),
    }
}

} // verus!
