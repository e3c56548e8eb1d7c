//! The handshake that assigns the colours.
//!
//! The dialing side greets first and then waits; the listening side waits
//! and then answers. The listening side always plays white.

use vstd::prelude::*;
use crate::packet::{PacketType, PacketView, Start, StartView, clone_name};
use crate::players::{Color, GameType, Player, PlayerView, Players, PlayersView};

verus! {

/// The part a process plays in the handshake.
#[derive(Clone, Copy, Debug, PartialEq, Eq, Structural)]
pub enum Role {
    /// Listened for the connection.
    Host,
    /// Dialed out.
    Client,
}

/// Why a handshake failed.
#[derive(Clone, Copy, Debug, PartialEq, Eq, Structural)]
pub enum NegotiationError {
    /// The first packet from the peer was no `Start`.
    NotStart,
    /// The wait for the peer ended without a packet.
    Timeout,
}

/// The `Start` that either side sends: unnamed, and claiming white.
pub open spec fn spec_announcement() -> PacketView {
    PacketView::Start(StartView { name: None, is_white: true })
}

/// What `role` sends before it waits for the peer.
pub open spec fn spec_greeting(role: Role) -> Option<PacketView> {
    match role {
        Role::Host => None,
        Role::Client => Some(spec_announcement()),
    }
}

/// The participants as the listening side sees them after the peer's
/// `Start`: itself white, the peer black under the name it gave.
pub open spec fn host_players(peer: StartView) -> PlayersView {
    PlayersView {
        white: PlayerView { color: Color::White, name: None, local: true },
        black: PlayerView { color: Color::Black, name: peer.name, local: false },
    }
}

/// The participants as the dialing side sees them after the listener's
/// `Start`: itself the colour that the listener did not claim, under the
/// name that came with the answer.
pub open spec fn client_players(peer: StartView) -> PlayersView {
    if peer.is_white {
        PlayersView {
            white: PlayerView { color: Color::White, name: None, local: false },
            black: PlayerView { color: Color::Black, name: peer.name, local: true },
        }
    } else {
        PlayersView {
            white: PlayerView { color: Color::White, name: peer.name, local: true },
            black: PlayerView { color: Color::Black, name: None, local: false },
        }
    }
}

/// The participants that `role` settles on after `peer`'s `Start`.
pub open spec fn spec_players(role: Role, peer: StartView) -> PlayersView {
    match role {
        Role::Host => host_players(peer),
        Role::Client => client_players(peer),
    }
}

/// What `role` sends once the peer's `Start` has come.
pub open spec fn spec_answer(role: Role) -> Option<PacketView> {
    match role {
        Role::Host => Some(spec_announcement()),
        Role::Client => None,
    }
}

/// How a handshake ends: the participants, and the packet still owed to the
/// peer.
#[derive(Clone, Debug, PartialEq, Eq)]
pub struct Negotiated {
    pub players: Players,
    pub answer: Option<PacketType>,
}

/// The packet still owed, as contracts see it.
pub open spec fn answer_view(answer: Option<PacketType>) -> Option<PacketView> {
    match answer {
        Some(p) => Some(p@),
        None => None,
    }
}

impl GameType {
    /// The part this process plays in the handshake; none where both players
    /// sit at this machine.
    pub open spec fn spec_role(&self) -> Option<Role> {
        match *self {
            GameType::Local => None,
            GameType::Host(_) => Some(Role::Host),
            GameType::Client(_) => Some(Role::Client),
        }
    }

    /// The part this process plays in the handshake; none where both players
    /// sit at this machine.
    pub fn role(&self) -> (role: Option<Role>)
        ensures
            role == self.spec_role(),
    {
        match self {
            GameType::Local => None,
            GameType::Host(_) => Some(Role::Host),
            GameType::Client(_) => Some(Role::Client),
        }
    }
}

fn announcement() -> (packet: PacketType)
    ensures
        packet@ == spec_announcement(),
{
    PacketType::Start(Start { name: None, is_white: true })
}

/// What `role` sends before it waits for the peer.
pub fn greeting(role: Role) -> (packet: Option<PacketType>)
    ensures
        answer_view(packet) == spec_greeting(role),
{
    match role {
        Role::Host => None,
        Role::Client => Some(announcement()),
    }
}

/// Settles the participants once the wait for the peer's first packet is
/// over.
///
/// A `Start` ends the handshake: the listening side becomes white and owes
/// the peer its own `Start`; the dialing side takes the colour that the
/// listener left. Any other packet fails the handshake, and so does a wait
/// that brought none.
pub fn init(role: Role, first: Option<&PacketType>) -> (outcome: Result<Negotiated, NegotiationError>)
    ensures
        match first {
            Some(packet) => match packet@ {
                PacketView::Start(peer) => {
                    &&& outcome matches Ok(done)
                    &&& done.players@ == spec_players(role, peer)
                    &&& answer_view(done.answer) == spec_answer(role)
                },
                _ => outcome == Err::<Negotiated, NegotiationError>(NegotiationError::NotStart),
            },
            None => outcome == Err::<Negotiated, NegotiationError>(NegotiationError::Timeout),
        },
{
    let packet = match first {
        Some(packet) => packet,
        None => {
            return Err(NegotiationError::Timeout);
        },
    };
    match packet {
        PacketType::Start(start) => {
            let name = clone_name(&start.name);
            match role {
                Role::Host => {
                    let main = Player { color: Color::White, name: None, local: true };
                    let opp = Player { color: Color::Black, name, local: false };
                    Ok(Negotiated { players: Players { white: main, black: opp }, answer: Some(announcement()) })
                },
                Role::Client => {
                    if start.is_white {
                        let main = Player { color: Color::Black, name, local: true };
                        let opp = Player { color: Color::White, name: None, local: false };
                        Ok(Negotiated { players: Players { white: opp, black: main }, answer: None })
                    } else {
                        let main = Player { color: Color::White, name, local: true };
                        let opp = Player { color: Color::Black, name: None, local: false };
                        Ok(Negotiated { players: Players { white: main, black: opp }, answer: None })
                    }
                },
            }
        },
        _ => Err(NegotiationError::NotStart),
    }
}

/// Whatever the peer's `Start` holds, the participants that a handshake
/// settles on hold their own colours, and exactly one of them sits at this
/// machine.
pub proof fn negotiated_players_are_paired(role: Role, peer: StartView)
    ensures
        spec_players(role, peer).wf(),
        spec_players(role, peer).one_remote(),
{
}

/// The listening side is white and local on its own process, whatever name
/// the dialing side gave; the dialing side, on the listener's answer, sees
/// white as remote and itself as black. The two processes so agree on who
/// plays which colour.
pub proof fn host_is_white_on_both_sides(greeter: StartView)
    ensures
        spec_answer(Role::Host) matches Some(PacketView::Start(answer)) && {
            let host = spec_players(Role::Host, greeter);
            let client = spec_players(Role::Client, answer);
            &&& host.white.local && !host.black.local
            &&& !client.white.local && client.black.local
            &&& host.one_local() == Some(Color::White)
            &&& client.one_local() == Some(Color::Black)
        },
{
}

} // verus!
