//! The wire protocol between clients and the room core.
//!
//! Coordinates travel as `f64` on the wire; inside the core they are carried
//! untouched as their bit patterns (`u64`, via `f64::to_bits`), since the
//! room only stores and relays them.

use std::collections::BTreeMap;
use std::collections::BTreeSet;
use vstd::prelude::*;

use crate::figure::FigureData;
use crate::user_map::UserMap;

verus! {

pub type RoomId = String;

pub type UserId = String;

/// What the room answers to the request's originator alone.
#[derive(Debug, Clone, PartialEq, Eq)]
pub enum AcceptedType {
    UserJoined,
    FigureUnselectedAll,
    FigureSelected(BTreeSet<usize>),
    SelectedFiguresUpdated(Option<BTreeSet<usize>>, Option<BTreeSet<usize>>),
    FigureDeleted(BTreeSet<usize>),
}

/// Outright rejections. The protocol never issues one: this type has no
/// public constructor, so no `PartialAccepted` or `Rejected` message can be
/// built.
#[derive(Debug, Clone, PartialEq, Eq)]
pub struct RejectedType {
    no_such_rejection: bool,
}

/// What the room announces to users other than the originator.
#[derive(Debug, Clone, PartialEq, Eq)]
pub enum NotifyType {
    UserJoined(UserId),
    FigureAdded(usize, FigureData),
    UserLeft(UserId),
    UserMousePositionChanged(UserId, Vec<(u64, u64)>),
    FigureUnselectedAll(UserId),
    SelectDragStarted(UserId, u64, u64),
    SelectDragFinished(UserId),
    FigureDeleted(BTreeSet<usize>),
    FigureSelected(UserId, BTreeSet<usize>),
    SelectedFiguresUpdated(UserId, Option<BTreeSet<usize>>, Option<BTreeSet<usize>>),
}

/// A message the server sends to a client.
#[derive(Debug, Clone, PartialEq, Eq)]
pub enum ServerMessage {
    Accepted(AcceptedType),
    PartialAccepted(AcceptedType, RejectedType),
    Rejected(RejectedType),
    Notify(NotifyType),
    Response(ResponseType),
}

/// A message a client sends to the server.
#[derive(Debug, Clone, PartialEq, Eq)]
pub enum ClientMessage {
    Leave,
    Join(RoomId, UserId),
    AddFigure(FigureData),
    RequestInfo(RequestType),
    NotifyMousePositionChanged(Vec<(u64, u64)>),
    SelectFigure(BTreeSet<usize>),
    UnselectFigureAll,
    NotifySelectDragStart(u64, u64),
    NotifySelectDragFinish,
    UpdateSelectedFigures(Option<BTreeSet<usize>>, Option<BTreeSet<usize>>),
    DeleteFigures(BTreeSet<usize>),
}

/// Which snapshot of room state a client asks for.
#[derive(Debug, Clone, PartialEq, Eq)]
pub enum RequestType {
    CurrentFigures,
    CheckRoomExist(RoomId),
    CheckUserExist(RoomId, UserId),
    CurrentSharedUsers,
    CurrentSelectedFigures,
    CurrentSelectDragPositions,
}

/// The snapshot sent back for a request, to the requester alone.
#[derive(Debug, Clone, PartialEq, Eq)]
pub enum ResponseType {
    CurrentFigures(BTreeMap<usize, FigureData>),
    CurrentSharedUsers(Vec<String>),
    ResponseRoomExist(bool),
    ResponseUserExist(Option<bool>),
    InvalidRequest(RequestType),
    CurrentSelectedFigures(UserMap<BTreeSet<usize>>),
    CurrentSelectDragPositions(UserMap<(u64, u64)>),
}

} // verus!
