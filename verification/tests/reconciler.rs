//! Reconciler behaviour on concrete rooms: existence partitions, selection
//! merges, unselect pruning and deletion cascades.

use std::collections::BTreeSet;

use room_sync::figure::FigureData;
use room_sync::room::RoomInner;
use room_sync::selection;
use room_sync::deletion;

fn ids(list: &[usize]) -> BTreeSet<usize> {
    let mut s = BTreeSet::new();
    for id in list {
        s.insert(*id);
    }
    s
}

fn room_with_figures(figure_ids: &[usize]) -> RoomInner {
    let mut state = RoomInner::new();
    for id in figure_ids {
        state.figures.insert(*id, FigureData::new(vec![*id as u8]));
    }
    state
}

#[test]
fn select_partitions_by_existence() {
    // A room with figures {1,2,3}; user A selects {1,2,4}.
    let mut state = room_with_figures(&[1, 2, 3]);
    let user = String::from("A");
    let (accepted, rejected) = selection::select(&mut state, &user, ids(&[1, 2, 4]));
    assert_eq!(accepted, ids(&[1, 2]));
    assert_eq!(rejected, ids(&[4]));
    let selected = state.selected_figures.get(&user).unwrap();
    assert_eq!(*selected, ids(&[1, 2]));
}

#[test]
fn reselecting_is_idempotent_but_still_accepted() {
    let mut state = room_with_figures(&[1, 2]);
    let user = String::from("A");
    let (first, _) = selection::select(&mut state, &user, ids(&[1]));
    assert_eq!(first, ids(&[1]));
    let (again, rejected) = selection::select(&mut state, &user, ids(&[1]));
    assert_eq!(again, ids(&[1]));
    assert_eq!(rejected, ids(&[]));
    assert_eq!(*state.selected_figures.get(&user).unwrap(), ids(&[1]));
}

#[test]
fn select_nothing_existing_creates_no_entry() {
    // Accepting nothing must not leave an empty selection entry behind.
    let mut state = room_with_figures(&[1]);
    let user = String::from("A");
    let (accepted, rejected) = selection::select(&mut state, &user, ids(&[7, 8]));
    assert_eq!(accepted, ids(&[]));
    assert_eq!(rejected, ids(&[7, 8]));
    assert!(state.selected_figures.get(&user).is_none());
}

#[test]
fn delete_updates_selections_and_figures() {
    // Continuing the first scenario: delete {2}.
    let mut state = room_with_figures(&[1, 2, 3]);
    let user = String::from("A");
    let _ = selection::select(&mut state, &user, ids(&[1, 2, 4]));
    let (accepted, rejected) = deletion::delete(&mut state, ids(&[2]));
    assert_eq!(accepted, ids(&[2]));
    assert_eq!(rejected, ids(&[]));
    assert_eq!(*state.selected_figures.get(&user).unwrap(), ids(&[1]));
    assert!(!state.figures.contains_key(&2));
    assert!(state.figures.contains_key(&1));
    assert!(state.figures.contains_key(&3));
}

#[test]
fn unselect_prunes_empty_entry() {
    // Select {1} then unselect {1}: no entry for the user remains.
    let mut state = room_with_figures(&[1, 2]);
    let user = String::from("A");
    let _ = selection::select(&mut state, &user, ids(&[1]));
    let (accepted, rejected) = selection::unselect(&mut state, &user, ids(&[1]));
    assert_eq!(accepted, ids(&[1]));
    assert_eq!(rejected, ids(&[]));
    assert!(state.selected_figures.get(&user).is_none());
}

#[test]
fn unselect_without_entry_is_a_no_op() {
    // A user with no selection entry: nothing to unselect, no crash.
    let mut state = room_with_figures(&[1]);
    let user = String::from("A");
    let (accepted, rejected) = selection::unselect(&mut state, &user, ids(&[1, 9]));
    assert_eq!(accepted, ids(&[1]));
    assert_eq!(rejected, ids(&[9]));
    assert!(state.selected_figures.get(&user).is_none());
}

#[test]
fn unselect_keeps_remaining_selection() {
    let mut state = room_with_figures(&[1, 2, 3]);
    let user = String::from("A");
    let _ = selection::select(&mut state, &user, ids(&[1, 2, 3]));
    let (accepted, _) = selection::unselect(&mut state, &user, ids(&[2]));
    assert_eq!(accepted, ids(&[2]));
    assert_eq!(*state.selected_figures.get(&user).unwrap(), ids(&[1, 3]));
}

#[test]
fn delete_cascades_to_every_user() {
    // Users A and B both select {1}; deleting {1} prunes both entries.
    let mut state = room_with_figures(&[1, 2]);
    let a = String::from("A");
    let b = String::from("B");
    let _ = selection::select(&mut state, &a, ids(&[1]));
    let _ = selection::select(&mut state, &b, ids(&[1, 2]));
    let (accepted, rejected) = deletion::delete(&mut state, ids(&[1]));
    assert_eq!(accepted, ids(&[1]));
    assert_eq!(rejected, ids(&[]));
    assert!(state.selected_figures.get(&a).is_none());
    assert_eq!(*state.selected_figures.get(&b).unwrap(), ids(&[2]));
    let (accepted2, _) = deletion::delete(&mut state, ids(&[2]));
    assert_eq!(accepted2, ids(&[2]));
    assert!(state.selected_figures.get(&b).is_none());
}

#[test]
fn delete_of_unknown_ids_rejects_them() {
    let mut state = room_with_figures(&[1]);
    let (accepted, rejected) = deletion::delete(&mut state, ids(&[5, 6]));
    assert_eq!(accepted, ids(&[]));
    assert_eq!(rejected, ids(&[5, 6]));
    assert!(state.figures.contains_key(&1));
}

#[test]
fn empty_request_is_fully_handled() {
    let mut state = room_with_figures(&[1]);
    let user = String::from("A");
    let (acc_s, rej_s) = selection::select(&mut state, &user, ids(&[]));
    assert_eq!(acc_s, ids(&[]));
    assert_eq!(rej_s, ids(&[]));
    let (acc_d, rej_d) = deletion::delete(&mut state, ids(&[]));
    assert_eq!(acc_d, ids(&[]));
    assert_eq!(rej_d, ids(&[]));
}
