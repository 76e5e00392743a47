//! The room actor applied message by message: joins, leaves, figure
//! lifecycle, snapshots and the deliveries each step emits.

use std::collections::BTreeSet;

use room_sync::figure::FigureData;
use room_sync::figure::FigureIdAllocator;
use room_sync::message::AcceptedType;
use room_sync::message::NotifyType;
use room_sync::message::RequestType;
use room_sync::message::ResponseType;
use room_sync::message::ServerMessage;
use room_sync::room::check_exist_user;
use room_sync::room::handle_message;
use room_sync::room::join_user;
use room_sync::room::Delivery;
use room_sync::room::RoomInner;
use room_sync::room::RoomMessage;

fn ids(list: &[usize]) -> BTreeSet<usize> {
    let mut s = BTreeSet::new();
    for id in list {
        s.insert(*id);
    }
    s
}

fn room_with_users(users: &[&str]) -> RoomInner {
    let mut state = RoomInner::new();
    for u in users {
        let _ = join_user(&mut state, String::from(*u));
    }
    state
}

#[test]
fn join_emits_notify_and_acknowledgment() {
    let mut state = RoomInner::new();
    let deliveries = join_user(&mut state, String::from("A"));
    assert_eq!(deliveries.len(), 2);
    match &deliveries[0] {
        Delivery::BroadcastExcept(except, ServerMessage::Notify(NotifyType::UserJoined(who))) => {
            assert_eq!(except.as_str(), "A");
            assert_eq!(who.as_str(), "A");
        }
        other => panic!("unexpected delivery {other:?}"),
    }
    match &deliveries[1] {
        Delivery::Unicast(to, ServerMessage::Accepted(AcceptedType::UserJoined)) => {
            assert_eq!(to.as_str(), "A");
        }
        other => panic!("unexpected delivery {other:?}"),
    }
    assert!(check_exist_user(&state, &String::from("A")));
    assert!(!check_exist_user(&state, &String::from("B")));
}

#[test]
fn added_figures_get_increasing_fresh_ids() {
    let mut state = room_with_users(&["A"]);
    let mut alloc = FigureIdAllocator::new();
    let mut seen: Vec<usize> = Vec::new();
    for round in 0..3u8 {
        let out = handle_message(
            &mut state,
            &mut alloc,
            RoomMessage::AddFigure(FigureData::new(vec![round])),
        );
        assert!(!out.delete_room);
        assert_eq!(out.deliveries.len(), 1);
        match &out.deliveries[0] {
            Delivery::Broadcast(ServerMessage::Notify(NotifyType::FigureAdded(id, data))) => {
                assert_eq!(data.payload, vec![round]);
                seen.push(*id);
            }
            other => panic!("unexpected delivery {other:?}"),
        }
    }
    assert_eq!(seen, vec![1, 2, 3]);
    // Deleting a figure must not let its id come back.
    let _ = handle_message(
        &mut state,
        &mut alloc,
        RoomMessage::DeleteFigures(String::from("A"), ids(&[2])),
    );
    let out = handle_message(
        &mut state,
        &mut alloc,
        RoomMessage::AddFigure(FigureData::new(vec![9])),
    );
    match &out.deliveries[0] {
        Delivery::Broadcast(ServerMessage::Notify(NotifyType::FigureAdded(id, _))) => {
            assert_eq!(*id, 4);
        }
        other => panic!("unexpected delivery {other:?}"),
    }
}

#[test]
fn select_step_broadcasts_accepted_set() {
    let mut state = room_with_users(&["A", "B"]);
    let mut alloc = FigureIdAllocator::new();
    for round in 0..3u8 {
        let _ = handle_message(
            &mut state,
            &mut alloc,
            RoomMessage::AddFigure(FigureData::new(vec![round])),
        );
    }
    let out = handle_message(
        &mut state,
        &mut alloc,
        RoomMessage::SelectFigure(String::from("A"), ids(&[1, 2, 4])),
    );
    assert_eq!(out.deliveries.len(), 2);
    match &out.deliveries[0] {
        Delivery::BroadcastExcept(except, ServerMessage::Notify(NotifyType::FigureSelected(who, set))) => {
            assert_eq!(except.as_str(), "A");
            assert_eq!(who.as_str(), "A");
            assert_eq!(*set, ids(&[1, 2]));
        }
        other => panic!("unexpected delivery {other:?}"),
    }
    match &out.deliveries[1] {
        Delivery::Unicast(to, ServerMessage::Accepted(AcceptedType::FigureSelected(set))) => {
            assert_eq!(to.as_str(), "A");
            assert_eq!(*set, ids(&[1, 2]));
        }
        other => panic!("unexpected delivery {other:?}"),
    }
}

#[test]
fn update_selected_figures_runs_select_then_unselect() {
    let mut state = room_with_users(&["A"]);
    let mut alloc = FigureIdAllocator::new();
    for round in 0..2u8 {
        let _ = handle_message(
            &mut state,
            &mut alloc,
            RoomMessage::AddFigure(FigureData::new(vec![round])),
        );
    }
    let _ = handle_message(
        &mut state,
        &mut alloc,
        RoomMessage::SelectFigure(String::from("A"), ids(&[1])),
    );
    let out = handle_message(
        &mut state,
        &mut alloc,
        RoomMessage::UpdateSelectedFigures(
            String::from("A"),
            Some(ids(&[2])),
            Some(ids(&[1])),
        ),
    );
    assert_eq!(out.deliveries.len(), 2);
    match &out.deliveries[1] {
        Delivery::Unicast(
            to,
            ServerMessage::Accepted(AcceptedType::SelectedFiguresUpdated(sel, unsel)),
        ) => {
            assert_eq!(to.as_str(), "A");
            assert_eq!(sel.clone().unwrap(), ids(&[2]));
            assert_eq!(unsel.clone().unwrap(), ids(&[1]));
        }
        other => panic!("unexpected delivery {other:?}"),
    }
    assert_eq!(
        *state.selected_figures.get(&String::from("A")).unwrap(),
        ids(&[2])
    );
}

#[test]
fn unselect_figure_all_clears_entry_and_acknowledges() {
    let mut state = room_with_users(&["A", "B"]);
    let mut alloc = FigureIdAllocator::new();
    let _ = handle_message(
        &mut state,
        &mut alloc,
        RoomMessage::AddFigure(FigureData::new(vec![1])),
    );
    let _ = handle_message(
        &mut state,
        &mut alloc,
        RoomMessage::SelectFigure(String::from("A"), ids(&[1])),
    );
    let out = handle_message(
        &mut state,
        &mut alloc,
        RoomMessage::UnselectFigureAll(String::from("A")),
    );
    assert!(!state.selected_figures.contains_key(&String::from("A")));
    assert_eq!(out.deliveries.len(), 2);
    match &out.deliveries[0] {
        Delivery::BroadcastExcept(
            except,
            ServerMessage::Notify(NotifyType::FigureUnselectedAll(who)),
        ) => {
            assert_eq!(except.as_str(), "A");
            assert_eq!(who.as_str(), "A");
        }
        other => panic!("unexpected delivery {other:?}"),
    }
}

#[test]
fn leave_of_last_user_signals_deletion_without_broadcast() {
    // The only user leaves: the room signals deletion exactly once and
    // broadcasts neither UserLeft nor FigureUnselectedAll.
    let mut state = room_with_users(&["A"]);
    let mut alloc = FigureIdAllocator::new();
    let out = handle_message(
        &mut state,
        &mut alloc,
        RoomMessage::LeaveUser(String::from("A")),
    );
    assert!(out.delete_room);
    assert!(out.deliveries.is_empty());
    assert!(!check_exist_user(&state, &String::from("A")));
}

#[test]
fn leave_with_users_remaining_announces_and_unselects() {
    let mut state = room_with_users(&["A", "B"]);
    let mut alloc = FigureIdAllocator::new();
    let _ = handle_message(
        &mut state,
        &mut alloc,
        RoomMessage::AddFigure(FigureData::new(vec![1])),
    );
    let _ = handle_message(
        &mut state,
        &mut alloc,
        RoomMessage::SelectFigure(String::from("A"), ids(&[1])),
    );
    let out = handle_message(
        &mut state,
        &mut alloc,
        RoomMessage::LeaveUser(String::from("A")),
    );
    assert!(!out.delete_room);
    assert_eq!(out.deliveries.len(), 3);
    match &out.deliveries[0] {
        Delivery::Broadcast(ServerMessage::Notify(NotifyType::UserLeft(who))) => {
            assert_eq!(who.as_str(), "A");
        }
        other => panic!("unexpected delivery {other:?}"),
    }
    assert!(state.selected_figures.get(&String::from("A")).is_none());
    assert!(check_exist_user(&state, &String::from("B")));
}

#[test]
fn request_info_answers_only_the_requester() {
    let mut state = room_with_users(&["A", "B"]);
    let mut alloc = FigureIdAllocator::new();
    let _ = handle_message(
        &mut state,
        &mut alloc,
        RoomMessage::AddFigure(FigureData::new(vec![7])),
    );
    let _ = handle_message(
        &mut state,
        &mut alloc,
        RoomMessage::SelectFigure(String::from("B"), ids(&[1])),
    );
    let out = handle_message(
        &mut state,
        &mut alloc,
        RoomMessage::RequestInfo(String::from("A"), RequestType::CurrentFigures),
    );
    assert_eq!(out.deliveries.len(), 1);
    match &out.deliveries[0] {
        Delivery::Unicast(to, ServerMessage::Response(ResponseType::CurrentFigures(figures))) => {
            assert_eq!(to.as_str(), "A");
            assert_eq!(figures.len(), 1);
            assert_eq!(figures.get(&1).unwrap().payload, vec![7]);
        }
        other => panic!("unexpected delivery {other:?}"),
    }
    let out = handle_message(
        &mut state,
        &mut alloc,
        RoomMessage::RequestInfo(String::from("A"), RequestType::CurrentSharedUsers),
    );
    match &out.deliveries[0] {
        Delivery::Unicast(to, ServerMessage::Response(ResponseType::CurrentSharedUsers(users))) => {
            assert_eq!(to.as_str(), "A");
            assert_eq!(*users, vec![String::from("A"), String::from("B")]);
        }
        other => panic!("unexpected delivery {other:?}"),
    }
    let out = handle_message(
        &mut state,
        &mut alloc,
        RoomMessage::RequestInfo(String::from("A"), RequestType::CurrentSelectedFigures),
    );
    match &out.deliveries[0] {
        Delivery::Unicast(
            to,
            ServerMessage::Response(ResponseType::CurrentSelectedFigures(selected)),
        ) => {
            assert_eq!(to.as_str(), "A");
            assert_eq!(*selected.get(&String::from("B")).unwrap(), ids(&[1]));
            assert!(selected.get(&String::from("A")).is_none());
        }
        other => panic!("unexpected delivery {other:?}"),
    }
}

#[test]
fn room_level_requests_are_answered_as_invalid() {
    let mut state = room_with_users(&["A"]);
    let mut alloc = FigureIdAllocator::new();
    let out = handle_message(
        &mut state,
        &mut alloc,
        RoomMessage::RequestInfo(
            String::from("A"),
            RequestType::CheckRoomExist(String::from("lobby")),
        ),
    );
    assert_eq!(out.deliveries.len(), 1);
    match &out.deliveries[0] {
        Delivery::Unicast(
            to,
            ServerMessage::Response(ResponseType::InvalidRequest(RequestType::CheckRoomExist(room))),
        ) => {
            assert_eq!(to.as_str(), "A");
            assert_eq!(room.as_str(), "lobby");
        }
        other => panic!("unexpected delivery {other:?}"),
    }
}

#[test]
fn drag_anchor_is_tracked_per_user() {
    let mut state = room_with_users(&["A", "B"]);
    let mut alloc = FigureIdAllocator::new();
    let x = 12.5f64.to_bits();
    let y = 99.25f64.to_bits();
    let out = handle_message(
        &mut state,
        &mut alloc,
        RoomMessage::NotifySelectDragStart(String::from("A"), x, y),
    );
    assert_eq!(out.deliveries.len(), 1);
    match &out.deliveries[0] {
        Delivery::BroadcastExcept(
            except,
            ServerMessage::Notify(NotifyType::SelectDragStarted(who, x2, y2)),
        ) => {
            assert_eq!(except.as_str(), "A");
            assert_eq!(who.as_str(), "A");
            assert_eq!(f64::from_bits(*x2), 12.5);
            assert_eq!(f64::from_bits(*y2), 99.25);
        }
        other => panic!("unexpected delivery {other:?}"),
    }
    assert_eq!(
        *state.select_drag_positions.get(&String::from("A")).unwrap(),
        (x, y)
    );
    let _ = handle_message(
        &mut state,
        &mut alloc,
        RoomMessage::NotifySelectDragFinish(String::from("A")),
    );
    assert!(state.select_drag_positions.get(&String::from("A")).is_none());
}

#[test]
fn mouse_positions_are_relayed_untouched() {
    let mut state = room_with_users(&["A", "B"]);
    let mut alloc = FigureIdAllocator::new();
    let queue = vec![(1.0f64.to_bits(), 2.0f64.to_bits()), (3.0f64.to_bits(), 4.0f64.to_bits())];
    let out = handle_message(
        &mut state,
        &mut alloc,
        RoomMessage::NotifyMousePositionChanged(String::from("B"), queue.clone()),
    );
    assert_eq!(out.deliveries.len(), 1);
    match &out.deliveries[0] {
        Delivery::BroadcastExcept(
            except,
            ServerMessage::Notify(NotifyType::UserMousePositionChanged(who, relayed)),
        ) => {
            assert_eq!(except.as_str(), "B");
            assert_eq!(who.as_str(), "B");
            assert_eq!(*relayed, queue);
        }
        other => panic!("unexpected delivery {other:?}"),
    }
}
