//! The three messages that travel between the two peers.

use vstd::prelude::*;

verus! {

/// The piece a pawn turns into on the last rank.
#[derive(Clone, Copy, Debug, PartialEq, Eq, Structural)]
pub enum PromotionPiece {
    Queen,
    Rook,
    Bishop,
    Knight,
}

/// How a game ended, as an acknowledgment reports it.
#[derive(Clone, Copy, Debug, PartialEq, Eq, Structural)]
pub enum GameState {
    CheckMate,
    Draw,
}

/// Opens the handshake: the sender's name and whether the sender plays white.
#[derive(Clone, Debug, PartialEq, Eq)]
pub struct Start {
    pub name: Option<String>,
    pub is_white: bool,
}

/// A completed move. Squares are `(file, rank)`, each counted from 0.
#[derive(Clone, Copy, Debug, PartialEq, Eq)]
pub struct Move {
    pub from: (u8, u8),
    pub to: (u8, u8),
    pub promotion: Option<PromotionPiece>,
    pub forfeit: bool,
    pub offer_draw: bool,
}

/// The receiver's answer to a move: whether it was applied, and whether it
/// ended the game.
#[derive(Clone, Copy, Debug, PartialEq, Eq)]
pub struct Ack {
    pub ok: bool,
    pub end_state: Option<GameState>,
}

/// Any message of the protocol.
#[derive(Clone, Debug, PartialEq, Eq)]
pub enum PacketType {
    Start(Start),
    Move(Move),
    Ack(Ack),
}

/// A name as contracts see it.
pub open spec fn name_view(name: Option<String>) -> Option<Seq<char>> {
    match name {
        Some(s) => Some(s@),
        None => None,
    }
}

/// A `Start` as contracts see it.
pub struct StartView {
    pub name: Option<Seq<char>>,
    pub is_white: bool,
}

/// A packet as contracts see it.
pub enum PacketView {
    Start(StartView),
    Move(Move),
    Ack(Ack),
}

impl View for Start {
    type V = StartView;

    open spec fn view(&self) -> StartView {
        StartView { name: name_view(self.name), is_white: self.is_white }
    }
}

impl View for PacketType {
    type V = PacketView;

    open spec fn view(&self) -> PacketView {
        match *self {
            PacketType::Start(s) => PacketView::Start(s@),
            PacketType::Move(m) => PacketView::Move(m),
            PacketType::Ack(a) => PacketView::Ack(a),
        }
    }
}

/// Copies a name.
pub fn clone_name(name: &Option<String>) -> (copy: Option<String>)
    ensures
        name_view(copy) == name_view(*name),
{
    match name {
        Some(s) => Some(s.clone()),
        None => None,
    }
}

} // verus!
