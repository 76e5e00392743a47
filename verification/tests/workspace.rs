//! The client-side mirror: figure tables, selection bookkeeping, selection
//! comparison and the figure list.

use std::collections::BTreeMap;
use std::collections::BTreeSet;

use room_sync::base::DrawModeType;
use room_sync::base::DrawOption;
use room_sync::figure::FigureData;
use room_sync::user::User;
use room_sync::message::AcceptedType;
use room_sync::message::ClientMessage;
use room_sync::message::NotifyType;
use room_sync::message::RequestType;
use room_sync::message::ResponseType;
use room_sync::message::ServerMessage;
use room_sync::user_map::UserMap;
use room_sync::workspace::handle_child_request;
use room_sync::workspace::handle_server_message;
use room_sync::workspace::ChildRequestType;
use room_sync::workspace::UpdateReason;
use room_sync::workspace_data::FigureList;
use room_sync::workspace_data::FigureMaintainer;

fn ids(list: &[usize]) -> BTreeSet<usize> {
    let mut s = BTreeSet::new();
    for id in list {
        s.insert(*id);
    }
    s
}

#[test]
fn default_list_insert_append_delete() {
    let mut m = FigureMaintainer::new();
    m.insert_to_default(1, FigureData::new(vec![1]));
    let mut batch = BTreeMap::new();
    batch.insert(2, FigureData::new(vec![2]));
    batch.insert(3, FigureData::new(vec![3]));
    batch.insert(1, FigureData::new(vec![9]));
    m.append_to_default(batch);
    m.delete_to_default(&ids(&[3, 4]));
    let snapshot = m.clone_selected_list();
    assert!(snapshot.is_empty());
    // The batch won the id collision, the deletion removed id 3.
    m.select(ids(&[1, 2, 3]));
    assert!(m.check_selected(3));
    m.unselect(&ids(&[3]));
    assert!(!m.check_selected(3));
}

#[test]
fn preview_set_take_clone() {
    let mut m = FigureMaintainer::new();
    assert!(m.clone_preview().is_none());
    m.set_preview(Some(FigureData::new(vec![5, 6])));
    let copy = m.clone_preview().unwrap();
    assert_eq!(copy.payload, vec![5, 6]);
    let taken = m.take_preview().unwrap();
    assert_eq!(taken.payload, vec![5, 6]);
    assert!(m.take_preview().is_none());
}

#[test]
fn own_selection_is_a_set() {
    let mut m = FigureMaintainer::new();
    m.select(ids(&[1, 2]));
    m.select(ids(&[2, 3]));
    assert_eq!(m.selected_list_len(), 3);
    assert!(m.check_selected(1));
    assert!(m.check_selected(2));
    assert!(m.check_selected(3));
    m.unselect(&ids(&[1, 3]));
    assert_eq!(m.clone_selected_list(), ids(&[2]));
    m.unselect_all();
    assert_eq!(m.selected_list_len(), 0);
}

#[test]
fn compare_selected_list_reports_both_directions() {
    let mut m = FigureMaintainer::new();
    m.select(ids(&[1, 2]));
    let (to_select, to_unselect) = m.compare_selected_list(ids(&[2, 3]));
    assert_eq!(to_select.unwrap(), ids(&[3]));
    assert_eq!(to_unselect.unwrap(), ids(&[1]));
}

#[test]
fn compare_selected_list_signals_no_op_with_none() {
    let mut m = FigureMaintainer::new();
    m.select(ids(&[1, 2]));
    let (to_select, to_unselect) = m.compare_selected_list(ids(&[1, 2]));
    assert!(to_select.is_none());
    assert!(to_unselect.is_none());
}

#[test]
fn peer_selection_merges_and_prunes() {
    let mut m = FigureMaintainer::new();
    m.select_by_another_user(String::from("B"), ids(&[1]));
    m.select_by_another_user(String::from("B"), ids(&[2]));
    m.select_by_another_user(String::from("C"), ids(&[1]));
    // Unselect everything B had: the entry is pruned, C's stays.
    m.unselect_by_another_user(String::from("B"), ids(&[1, 2]));
    m.unselect_by_another_user(String::from("D"), ids(&[1]));
    m.try_unselect_by_all_users(&ids(&[1]));
    m.unselect_all_by_another_user(String::from("C"));
    let (to_select, _) = m.compare_selected_list(ids(&[]));
    assert!(to_select.is_none());
}

#[test]
fn cascade_prunes_all_emptied_peers() {
    let mut m = FigureMaintainer::new();
    m.select_by_another_user(String::from("B"), ids(&[1]));
    m.select_by_another_user(String::from("C"), ids(&[1, 2]));
    m.try_unselect_by_all_users(&ids(&[1]));
    // B had only figure 1 and is pruned; C keeps figure 2. A later select
    // for B starts from a fresh entry.
    m.select_by_another_user(String::from("B"), ids(&[2]));
    m.unselect_by_another_user(String::from("C"), ids(&[2]));
    m.unselect_by_another_user(String::from("B"), ids(&[2]));
}

#[test]
fn figure_list_tracks_modification() {
    let mut l = FigureList::new();
    assert!(!l.is_modified());
    assert!(l.list().is_empty());
    l.push(FigureData::new(vec![1]));
    assert!(l.is_modified());
    l.reset_modified();
    assert!(!l.is_modified());
    l.append(vec![FigureData::new(vec![2]), FigureData::new(vec![3])]);
    assert!(l.is_modified());
    let copies = l.list();
    assert_eq!(copies.len(), 3);
    assert_eq!(copies[0].payload, vec![1]);
    assert_eq!(copies[2].payload, vec![3]);
}

#[test]
fn user_and_editor_enums() {
    let u = User::new(String::from("ada"));
    let v = User::new(String::from("ada"));
    assert_eq!(u, v);
    assert_ne!(DrawModeType::SelectMode, DrawModeType::LineMode);
    assert_eq!(DrawOption::DrawAll, DrawOption::DrawAll);
}

#[test]
fn server_figure_added_reaches_the_canvas() {
    let mut m = FigureMaintainer::new();
    let me = String::from("A");
    let msg = ServerMessage::Notify(NotifyType::FigureAdded(3, FigureData::new(vec![7])));
    let (reason, requests) = handle_server_message(&mut m, &me, &msg);
    assert_eq!(reason, Some(UpdateReason::FigureAdded));
    assert!(requests.is_empty());
    m.select(ids(&[3]));
    assert!(m.check_selected(3));
}

#[test]
fn join_acknowledgment_asks_for_the_room_state() {
    let mut m = FigureMaintainer::new();
    let me = String::from("A");
    let msg = ServerMessage::Accepted(AcceptedType::UserJoined);
    let (reason, requests) = handle_server_message(&mut m, &me, &msg);
    assert!(reason.is_none());
    assert_eq!(
        requests,
        vec![
            RequestType::CurrentSharedUsers,
            RequestType::CurrentFigures,
            RequestType::CurrentSelectedFigures,
            RequestType::CurrentSelectDragPositions,
        ]
    );
}

#[test]
fn accepted_selection_updates_own_mirror() {
    let mut m = FigureMaintainer::new();
    let me = String::from("A");
    let msg = ServerMessage::Accepted(AcceptedType::FigureSelected(ids(&[1, 2])));
    let (reason, _) = handle_server_message(&mut m, &me, &msg);
    assert_eq!(reason, Some(UpdateReason::FigureSelected));
    assert_eq!(m.clone_selected_list(), ids(&[1, 2]));
    let msg = ServerMessage::Accepted(AcceptedType::SelectedFiguresUpdated(
        Some(ids(&[3])),
        Some(ids(&[1])),
    ));
    let (reason, _) = handle_server_message(&mut m, &me, &msg);
    assert_eq!(reason, Some(UpdateReason::SelectedFiguresUpdated));
    assert_eq!(m.clone_selected_list(), ids(&[2, 3]));
}

#[test]
fn deletion_notification_cascades_through_the_mirror() {
    let mut m = FigureMaintainer::new();
    let me = String::from("A");
    m.insert_to_default(1, FigureData::new(vec![1]));
    m.insert_to_default(2, FigureData::new(vec![2]));
    m.select(ids(&[1, 2]));
    m.select_by_another_user(String::from("B"), ids(&[1]));
    let msg = ServerMessage::Notify(NotifyType::FigureDeleted(ids(&[1])));
    let (reason, _) = handle_server_message(&mut m, &me, &msg);
    assert_eq!(reason, Some(UpdateReason::FigureDeleted));
    assert_eq!(m.clone_selected_list(), ids(&[2]));
    m.select_by_another_user(String::from("B"), ids(&[2]));
    let (to_select, _) = m.compare_selected_list(ids(&[2]));
    assert!(to_select.is_none());
}

#[test]
fn selection_snapshot_merges_peers_but_not_me() {
    let mut m = FigureMaintainer::new();
    let me = String::from("A");
    let mut snapshot: UserMap<BTreeSet<usize>> = UserMap::new();
    snapshot.insert(&String::from("A"), ids(&[9]));
    snapshot.insert(&String::from("B"), ids(&[1, 2]));
    let msg = ServerMessage::Response(ResponseType::CurrentSelectedFigures(snapshot));
    let (reason, _) = handle_server_message(&mut m, &me, &msg);
    assert_eq!(reason, Some(UpdateReason::GetCurrentSelectedFigures));
    // B's selection arrived; A's own entry in the snapshot was skipped, so
    // unselecting 9 from B's mirror must not find anything of A's.
    m.unselect_by_another_user(String::from("B"), ids(&[1, 2]));
    m.unselect_by_another_user(String::from("A"), ids(&[9]));
}

#[test]
fn shared_users_snapshot_reason_depends_on_membership() {
    let mut m = FigureMaintainer::new();
    let me = String::from("A");
    let msg = ServerMessage::Response(ResponseType::CurrentSharedUsers(vec![
        String::from("A"),
        String::from("B"),
    ]));
    let (reason, _) = handle_server_message(&mut m, &me, &msg);
    assert_eq!(reason, Some(UpdateReason::GetCurrentSharedUsers));
    let msg = ServerMessage::Response(ResponseType::CurrentSharedUsers(vec![String::from("A")]));
    let (reason, _) = handle_server_message(&mut m, &me, &msg);
    assert!(reason.is_none());
    let msg = ServerMessage::Response(ResponseType::CurrentSharedUsers(vec![String::from("B")]));
    let (reason, _) = handle_server_message(&mut m, &me, &msg);
    assert!(reason.is_none());
}

#[test]
fn child_requests_forward_to_the_server() {
    let mut mode = DrawModeType::SelectMode;
    let mut show_chat = false;
    let (reason, message) = handle_child_request(
        &mut mode,
        &mut show_chat,
        ChildRequestType::SelectFigure(ids(&[1, 2])),
    );
    assert!(reason.is_none());
    assert_eq!(message, Some(ClientMessage::SelectFigure(ids(&[1, 2]))));
    let (reason, message) =
        handle_child_request(&mut mode, &mut show_chat, ChildRequestType::Leave);
    assert!(reason.is_none());
    assert!(message.is_none());
}

#[test]
fn mode_change_unselects_everything_once() {
    let mut mode = DrawModeType::SelectMode;
    let mut show_chat = false;
    let (reason, message) = handle_child_request(
        &mut mode,
        &mut show_chat,
        ChildRequestType::ChangeMode(DrawModeType::LineMode),
    );
    assert_eq!(reason, Some(UpdateReason::ChangeMode));
    assert_eq!(message, Some(ClientMessage::UnselectFigureAll));
    assert_eq!(mode, DrawModeType::LineMode);
    // Asking for the mode already active changes nothing and sends nothing.
    let (reason, message) = handle_child_request(
        &mut mode,
        &mut show_chat,
        ChildRequestType::ChangeMode(DrawModeType::LineMode),
    );
    assert!(reason.is_none());
    assert!(message.is_none());
    let (reason, _) = handle_child_request(
        &mut mode,
        &mut show_chat,
        ChildRequestType::ShowChat(true),
    );
    assert_eq!(reason, Some(UpdateReason::ShowChat));
    assert!(show_chat);
}
