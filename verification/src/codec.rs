//! Packets to bytes and back, in MessagePack through `rmp_serde`.
//!
//! On the wire a packet is the tuple of its fields: a `Start` is its name and
//! its flag, a `Move` its two squares, the number of its promotion piece and
//! its two flags, an `Ack` its flag and the number of its end of game. No
//! tag tells the three apart: the decoder tries them in that order and takes
//! the first that fits.

use vstd::prelude::*;
use crate::packet::{Ack, GameState, Move, PacketType, PacketView, PromotionPiece, Start, StartView, name_view};

verus! {

/// The error of `rmp_serde`'s serializer.
#[verifier::external_type_specification]
#[verifier::external_body]
pub struct ExEncodeError(rmp_serde::encode::Error);

/// The fields of a `Move` as they go on the wire: the two squares, the
/// promotion piece by its number, and the two flags.
pub type MoveFields = ((u8, u8), (u8, u8), Option<u8>, bool, bool);

/// The MessagePack form of the pair of a name and a flag.
pub uninterp spec fn start_bytes(name: Option<Seq<char>>, is_white: bool) -> Seq<u8>;

/// The MessagePack form of the fields of a move.
pub uninterp spec fn move_bytes(fields: MoveFields) -> Seq<u8>;

/// The MessagePack form of a flag and an optional number.
pub uninterp spec fn ack_bytes(ok: bool, end_state: Option<u8>) -> Seq<u8>;

/// The name and flag that `bytes` hold in MessagePack, if they hold such a pair.
pub uninterp spec fn bytes_start(bytes: Seq<u8>) -> Option<(Option<Seq<char>>, bool)>;

/// The fields of a move that `bytes` hold in MessagePack, if they hold such.
pub uninterp spec fn bytes_move(bytes: Seq<u8>) -> Option<MoveFields>;

/// The flag and optional number that `bytes` hold in MessagePack, if they
/// hold such a pair.
pub uninterp spec fn bytes_ack(bytes: Seq<u8>) -> Option<(bool, Option<u8>)>;

/// `rmp_serde::encode::write` of the pair of `name` and `is_white` into an
/// empty `Vec<u8>`. The serializer fails only where its writer does, and a
/// `Vec<u8>` takes every write: the call gives bytes for every pair. They
/// begin with the mark of the pair, so there is at least one, and they
/// depend on the pair alone.
#[verifier::external_body]
fn pack_start(name: &Option<String>, is_white: bool) -> (packed: Result<Vec<u8>, rmp_serde::encode::Error>)
    ensures
        packed is Ok,
        packed matches Ok(bytes) ==> bytes@ == start_bytes(name_view(*name), is_white),
        packed matches Ok(bytes) ==> bytes@.len() > 0,
{
    let mut bytes = Vec::new();
    rmp_serde::encode::write(&mut bytes, &(name, is_white))?;
    Ok(bytes)
}

/// `rmp_serde::encode::write` of the fields of a move into an empty
/// `Vec<u8>`. The serializer fails only where its writer does, and a
/// `Vec<u8>` takes every write: the call gives bytes for all fields. They
/// begin with the mark of the tuple, so there is at least one, and they
/// depend on the fields alone.
#[verifier::external_body]
fn pack_move(fields: MoveFields) -> (packed: Result<Vec<u8>, rmp_serde::encode::Error>)
    ensures
        packed is Ok,
        packed matches Ok(bytes) ==> bytes@ == move_bytes(fields),
        packed matches Ok(bytes) ==> bytes@.len() > 0,
{
    let mut bytes = Vec::new();
    rmp_serde::encode::write(&mut bytes, &fields)?;
    Ok(bytes)
}

/// `rmp_serde::encode::write` of the pair of `ok` and `end_state` into an
/// empty `Vec<u8>`. The serializer fails only where its writer does, and a
/// `Vec<u8>` takes every write: the call gives bytes for every pair. They
/// begin with the mark of the pair, so there is at least one, and they
/// depend on the pair alone.
#[verifier::external_body]
fn pack_ack(ok: bool, end_state: Option<u8>) -> (packed: Result<Vec<u8>, rmp_serde::encode::Error>)
    ensures
        packed is Ok,
        packed matches Ok(bytes) ==> bytes@ == ack_bytes(ok, end_state),
        packed matches Ok(bytes) ==> bytes@.len() > 0,
{
    let mut bytes = Vec::new();
    rmp_serde::encode::write(&mut bytes, &(ok, end_state))?;
    Ok(bytes)
}

/// `rmp_serde::from_slice` for a pair of a name and a flag, its error
/// dropped. What it reads, and whether it reads anything, depends on the
/// bytes alone.
#[verifier::external_body]
fn unpack_start(bytes: &[u8]) -> (unpacked: Option<(Option<String>, bool)>)
    ensures
        match unpacked {
            Some(pair) => bytes_start(bytes@) == Some((name_view(pair.0), pair.1)),
            None => bytes_start(bytes@) is None,
        },
{
    rmp_serde::from_slice::<(Option<String>, bool)>(bytes).ok()
}

/// `rmp_serde::from_slice` for the fields of a move, its error dropped.
/// What it reads, and whether it reads anything, depends on the bytes alone.
#[verifier::external_body]
fn unpack_move(bytes: &[u8]) -> (unpacked: Option<MoveFields>)
    ensures
        unpacked == bytes_move(bytes@),
{
    rmp_serde::from_slice::<MoveFields>(bytes).ok()
}

/// `rmp_serde::from_slice` for a pair of a flag and an optional number, its
/// error dropped. What it reads, and whether it reads anything, depends on
/// the bytes alone.
#[verifier::external_body]
fn unpack_ack(bytes: &[u8]) -> (unpacked: Option<(bool, Option<u8>)>)
    ensures
        unpacked == bytes_ack(bytes@),
{
    rmp_serde::from_slice::<(bool, Option<u8>)>(bytes).ok()
}

/// The serializer refused a packet. No packet that the types of this
/// library can hold is refused.
#[derive(Clone, Copy, Debug, PartialEq, Eq, Structural)]
pub struct EncodingError;

/// The bytes hold none of the three packets.
#[derive(Clone, Copy, Debug, PartialEq, Eq, Structural)]
pub struct UnknownPacketError;

/// The number that stands for a promotion piece on the wire.
pub open spec fn spec_promotion_code(piece: PromotionPiece) -> u8 {
    match piece {
        PromotionPiece::Queen => 0,
        PromotionPiece::Rook => 1,
        PromotionPiece::Bishop => 2,
        PromotionPiece::Knight => 3,
    }
}

/// The promotion piece that a number stands for, if any.
pub open spec fn spec_promotion_of(code: u8) -> Option<PromotionPiece> {
    if code == 0 {
        Some(PromotionPiece::Queen)
    } else if code == 1 {
        Some(PromotionPiece::Rook)
    } else if code == 2 {
        Some(PromotionPiece::Bishop)
    } else if code == 3 {
        Some(PromotionPiece::Knight)
    } else {
        None
    }
}

/// The number that stands for an end of game on the wire.
pub open spec fn spec_state_code(state: GameState) -> u8 {
    match state {
        GameState::CheckMate => 0,
        GameState::Draw => 1,
    }
}

/// The end of game that a number stands for, if any.
pub open spec fn spec_state_of(code: u8) -> Option<GameState> {
    if code == 0 {
        Some(GameState::CheckMate)
    } else if code == 1 {
        Some(GameState::Draw)
    } else {
        None
    }
}

/// The fields of `mv` as they go on the wire.
pub open spec fn spec_move_fields(mv: Move) -> MoveFields {
    (
        mv.from,
        mv.to,
        match mv.promotion {
            Some(piece) => Some(spec_promotion_code(piece)),
            None => None,
        },
        mv.forfeit,
        mv.offer_draw,
    )
}

/// The move that wire fields stand for; none where the promotion piece's
/// number is unknown.
pub open spec fn spec_fields_move(fields: MoveFields) -> Option<Move> {
    match fields.2 {
        None => Some(
            Move { from: fields.0, to: fields.1, promotion: None, forfeit: fields.3, offer_draw: fields.4 },
        ),
        Some(code) => match spec_promotion_of(code) {
            Some(piece) => Some(
                Move {
                    from: fields.0,
                    to: fields.1,
                    promotion: Some(piece),
                    forfeit: fields.3,
                    offer_draw: fields.4,
                },
            ),
            None => None,
        },
    }
}

/// The fields of `ack` as they go on the wire.
pub open spec fn spec_ack_fields(ack: Ack) -> (bool, Option<u8>) {
    (
        ack.ok,
        match ack.end_state {
            Some(state) => Some(spec_state_code(state)),
            None => None,
        },
    )
}

/// The acknowledgment that wire fields stand for; none where the end of
/// game's number is unknown.
pub open spec fn spec_fields_ack(fields: (bool, Option<u8>)) -> Option<Ack> {
    match fields.1 {
        None => Some(Ack { ok: fields.0, end_state: None }),
        Some(code) => match spec_state_of(code) {
            Some(state) => Some(Ack { ok: fields.0, end_state: Some(state) }),
            None => None,
        },
    }
}

/// The bytes that stand for `packet` on the wire.
pub open spec fn packet_bytes(packet: PacketView) -> Seq<u8> {
    match packet {
        PacketView::Start(start) => start_bytes(start.name, start.is_white),
        PacketView::Move(mv) => move_bytes(spec_move_fields(mv)),
        PacketView::Ack(ack) => ack_bytes(spec_ack_fields(ack).0, spec_ack_fields(ack).1),
    }
}

/// The packet among three readings of the same bytes: the `Start` if there
/// is one, else the `Move` if its fields stand for one, else the `Ack` if
/// its fields stand for one.
pub open spec fn spec_first_match(
    start: Option<(Option<Seq<char>>, bool)>,
    mv: Option<MoveFields>,
    ack: Option<(bool, Option<u8>)>,
) -> Option<PacketView> {
    if let Some(pair) = start {
        Some(PacketView::Start(StartView { name: pair.0, is_white: pair.1 }))
    } else if mv is Some && spec_fields_move(mv->0) is Some {
        Some(PacketView::Move(spec_fields_move(mv->0)->0))
    } else if ack is Some && spec_fields_ack(ack->0) is Some {
        Some(PacketView::Ack(spec_fields_ack(ack->0)->0))
    } else {
        None
    }
}

/// The packet that `bytes` stand for, if any.
pub open spec fn bytes_packet(bytes: Seq<u8>) -> Option<PacketView> {
    spec_first_match(bytes_start(bytes), bytes_move(bytes), bytes_ack(bytes))
}

/// A `Start`'s reading as contracts see it.
pub open spec fn start_reading_view(start: Option<(Option<String>, bool)>) -> Option<(Option<Seq<char>>, bool)> {
    match start {
        Some(pair) => Some((name_view(pair.0), pair.1)),
        None => None,
    }
}

/// The number that stands for a promotion piece on the wire.
pub fn promotion_code(piece: PromotionPiece) -> (code: u8)
    ensures
        code == spec_promotion_code(piece),
{
    match piece {
        PromotionPiece::Queen => 0,
        PromotionPiece::Rook => 1,
        PromotionPiece::Bishop => 2,
        PromotionPiece::Knight => 3,
    }
}

/// The promotion piece that a number stands for, if any.
pub fn promotion_of(code: u8) -> (piece: Option<PromotionPiece>)
    ensures
        piece == spec_promotion_of(code),
{
    if code == 0 {
        Some(PromotionPiece::Queen)
    } else if code == 1 {
        Some(PromotionPiece::Rook)
    } else if code == 2 {
        Some(PromotionPiece::Bishop)
    } else if code == 3 {
        Some(PromotionPiece::Knight)
    } else {
        None
    }
}

/// The number that stands for an end of game on the wire.
pub fn state_code(state: GameState) -> (code: u8)
    ensures
        code == spec_state_code(state),
{
    match state {
        GameState::CheckMate => 0,
        GameState::Draw => 1,
    }
}

/// The end of game that a number stands for, if any.
pub fn state_of(code: u8) -> (state: Option<GameState>)
    ensures
        state == spec_state_of(code),
{
    if code == 0 {
        Some(GameState::CheckMate)
    } else if code == 1 {
        Some(GameState::Draw)
    } else {
        None
    }
}

/// The fields of `mv` as they go on the wire.
pub fn move_fields(mv: &Move) -> (fields: MoveFields)
    ensures
        fields == spec_move_fields(*mv),
{
    let promotion = match mv.promotion {
        Some(piece) => Some(promotion_code(piece)),
        None => None,
    };
    (mv.from, mv.to, promotion, mv.forfeit, mv.offer_draw)
}

/// The move that wire fields stand for; none where the promotion piece's
/// number is unknown.
pub fn fields_move(fields: MoveFields) -> (mv: Option<Move>)
    ensures
        mv == spec_fields_move(fields),
{
    let promotion = match fields.2 {
        None => None,
        Some(code) => match promotion_of(code) {
            Some(piece) => Some(piece),
            None => {
                return None;
            },
        },
    };
    Some(Move { from: fields.0, to: fields.1, promotion, forfeit: fields.3, offer_draw: fields.4 })
}

/// The fields of `ack` as they go on the wire.
pub fn ack_fields(ack: &Ack) -> (fields: (bool, Option<u8>))
    ensures
        fields == spec_ack_fields(*ack),
{
    let end_state = match ack.end_state {
        Some(state) => Some(state_code(state)),
        None => None,
    };
    (ack.ok, end_state)
}

/// The acknowledgment that wire fields stand for; none where the end of
/// game's number is unknown.
pub fn fields_ack(fields: (bool, Option<u8>)) -> (ack: Option<Ack>)
    ensures
        ack == spec_fields_ack(fields),
{
    let end_state = match fields.1 {
        None => None,
        Some(code) => match state_of(code) {
            Some(state) => Some(state),
            None => {
                return None;
            },
        },
    };
    Some(Ack { ok: fields.0, end_state })
}

/// Turns the serializer's outcome into the library's: the bytes as they
/// are, any failure as an `EncodingError`.
pub fn encoded(packed: Result<Vec<u8>, rmp_serde::encode::Error>) -> (bytes: Result<Vec<u8>, EncodingError>)
    ensures
        match packed {
            Ok(raw) => bytes == Ok::<Vec<u8>, EncodingError>(raw),
            Err(_) => bytes == Err::<Vec<u8>, EncodingError>(EncodingError),
        },
{
    match packed {
        Ok(raw) => Ok(raw),
        Err(_) => Err(EncodingError),
    }
}

/// Puts `packet` into bytes. Every packet has a wire form: the result is
/// never an error, and the bytes, of which there is at least one, are those
/// that stand for the packet.
pub fn encode(packet: &PacketType) -> (bytes: Result<Vec<u8>, EncodingError>)
    ensures
        bytes is Ok,
        bytes matches Ok(raw) ==> raw@ == packet_bytes(packet@),
        bytes matches Ok(raw) ==> raw@.len() > 0,
{
    match packet {
        PacketType::Start(start) => encoded(pack_start(&start.name, start.is_white)),
        PacketType::Move(mv) => encoded(pack_move(move_fields(mv))),
        PacketType::Ack(ack) => {
            let fields = ack_fields(ack);
            encoded(pack_ack(fields.0, fields.1))
        },
    }
}

/// Picks the packet among three readings of the same bytes: the `Start` if
/// there is one, else the `Move` if its fields stand for one, else the `Ack`
/// if its fields stand for one.
pub fn first_match(
    start: Option<(Option<String>, bool)>,
    mv: Option<MoveFields>,
    ack: Option<(bool, Option<u8>)>,
) -> (packet: Result<PacketType, UnknownPacketError>)
    ensures
        match spec_first_match(start_reading_view(start), mv, ack) {
            Some(view) => packet matches Ok(found) && found@ == view,
            None => packet == Err::<PacketType, UnknownPacketError>(UnknownPacketError),
        },
{
    if let Some(pair) = start {
        return Ok(PacketType::Start(Start { name: pair.0, is_white: pair.1 }));
    }
    if let Some(fields) = mv {
        if let Some(found) = fields_move(fields) {
            return Ok(PacketType::Move(found));
        }
    }
    if let Some(fields) = ack {
        if let Some(found) = fields_ack(fields) {
            return Ok(PacketType::Ack(found));
        }
    }
    Err(UnknownPacketError)
}

/// Reads a packet from `bytes`: as a `Start`, else as a `Move`, else as an
/// `Ack`. Fails where the bytes are none of them.
pub fn decode(bytes: &[u8]) -> (packet: Result<PacketType, UnknownPacketError>)
    ensures
        match bytes_packet(bytes@) {
            Some(view) => packet matches Ok(found) && found@ == view,
            None => packet == Err::<PacketType, UnknownPacketError>(UnknownPacketError),
        },
{
    let start = unpack_start(bytes);
    let mv = unpack_move(bytes);
    let ack = unpack_ack(bytes);
    first_match(start, mv, ack)
}

/// Wire fields made from a move stand for that move again.
pub proof fn move_fields_round_trip(mv: Move)
    ensures
        spec_fields_move(spec_move_fields(mv)) == Some(mv),
{
}

/// Wire fields made from an acknowledgment stand for that acknowledgment
/// again.
pub proof fn ack_fields_round_trip(ack: Ack)
    ensures
        spec_fields_ack(spec_ack_fields(ack)) == Some(ack),
{
}

/// Whether the MessagePack layer hands back, from the bytes it made of
/// `packet`'s fields, those fields under `packet`'s own kind and nothing
/// that stands for a packet under a kind that is tried earlier.
pub open spec fn wire_keeps(packet: PacketView) -> bool {
    let bytes = packet_bytes(packet);
    match packet {
        PacketView::Start(start) => bytes_start(bytes) == Some((start.name, start.is_white)),
        PacketView::Move(mv) => {
            &&& bytes_start(bytes) is None
            &&& bytes_move(bytes) == Some(spec_move_fields(mv))
        },
        PacketView::Ack(ack) => {
            &&& bytes_start(bytes) is None
            &&& bytes_move(bytes) is Some ==> spec_fields_move(bytes_move(bytes)->0) is None
            &&& bytes_ack(bytes) == Some(spec_ack_fields(ack))
        },
    }
}

/// Decoding the bytes of an encoded packet gives the packet back, for every
/// packet whose fields the MessagePack layer keeps.
pub proof fn decode_inverts_encode(packet: PacketView)
    ensures
        wire_keeps(packet) ==> bytes_packet(packet_bytes(packet)) == Some(packet),
{
    match packet {
        PacketView::Start(start) => {},
        PacketView::Move(mv) => {
            move_fields_round_trip(mv);
        },
        PacketView::Ack(ack) => {
            ack_fields_round_trip(ack);
        },
    }
}

/// Packets that differ have bytes that differ, for every two packets whose
/// fields the MessagePack layer keeps: were the bytes the same, decoding
/// them would give both packets back.
pub proof fn kept_packets_differ(one: PacketView, other: PacketView)
    ensures
        wire_keeps(one) && wire_keeps(other) && one != other ==> packet_bytes(one) != packet_bytes(
            other,
        ),
{
    decode_inverts_encode(one);
    decode_inverts_encode(other);
}

} // verus!
