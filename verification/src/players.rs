//! Who plays which colour, and from where.

use vstd::prelude::*;
use crate::packet::name_view;

verus! {

/// The two sides of a game. White moves first.
#[derive(Clone, Copy, Debug, PartialEq, Eq, Structural)]
pub enum Color {
    White,
    Black,
}

impl Color {
    /// The other side.
    pub open spec fn spec_opponent(self) -> Color {
        match self {
            Color::White => Color::Black,
            Color::Black => Color::White,
        }
    }

    /// The other side.
    pub fn opponent(self) -> (other: Color)
        ensures
            other == self.spec_opponent(),
    {
        match self {
            Color::White => Color::Black,
            Color::Black => Color::White,
        }
    }
}

/// How this process takes part in a game.
#[derive(Clone, Debug, PartialEq, Eq)]
pub enum GameType {
    /// Both players sit at this machine.
    Local,
    /// This process listens at the address for the other player.
    Host(String),
    /// This process dials the other player at the address.
    Client(String),
}

/// A `GameType` as contracts see it.
pub enum GameTypeView {
    Local,
    Host(Seq<char>),
    Client(Seq<char>),
}

impl View for GameType {
    type V = GameTypeView;

    open spec fn view(&self) -> GameTypeView {
        match *self {
            GameType::Local => GameTypeView::Local,
            GameType::Host(address) => GameTypeView::Host(address@),
            GameType::Client(address) => GameTypeView::Client(address@),
        }
    }
}

impl GameType {
    /// Whether both players sit at this machine.
    pub open spec fn is_local(&self) -> bool {
        *self is Local
    }
}

/// One of the two participants.
#[derive(Clone, Debug, PartialEq, Eq)]
pub struct Player {
    pub color: Color,
    pub name: Option<String>,
    pub local: bool,
}

/// A participant as contracts see it.
pub struct PlayerView {
    pub color: Color,
    pub name: Option<Seq<char>>,
    pub local: bool,
}

impl View for Player {
    type V = PlayerView;

    open spec fn view(&self) -> PlayerView {
        PlayerView { color: self.color, name: name_view(self.name), local: self.local }
    }
}

/// The two participants of a session, one for each colour.
#[derive(Clone, Debug, PartialEq, Eq)]
pub struct Players {
    pub black: Player,
    pub white: Player,
}

/// The participants as contracts see them.
pub struct PlayersView {
    pub black: PlayerView,
    pub white: PlayerView,
}

impl PlayersView {
    /// Each participant holds the colour of its slot.
    pub open spec fn wf(self) -> bool {
        self.white.color == Color::White && self.black.color == Color::Black
    }

    /// The participant that plays `color`.
    pub open spec fn get_player(self, color: Color) -> PlayerView {
        if color == Color::White {
            self.white
        } else {
            self.black
        }
    }

    pub open spec fn both_local(self) -> bool {
        self.black.local && self.white.local
    }

    /// The colour played at this machine; black where both are.
    pub open spec fn one_local(self) -> Option<Color> {
        if self.black.local {
            Some(Color::Black)
        } else if self.white.local {
            Some(Color::White)
        } else {
            None
        }
    }

    /// Exactly one of the two participants sits at this machine.
    pub open spec fn one_remote(self) -> bool {
        self.black.local != self.white.local
    }
}

impl View for Players {
    type V = PlayersView;

    open spec fn view(&self) -> PlayersView {
        PlayersView { black: self.black@, white: self.white@ }
    }
}

impl Players {
    /// Two unnamed players at this machine.
    pub open spec fn spec_local() -> PlayersView {
        PlayersView {
            white: PlayerView { color: Color::White, name: None, local: true },
            black: PlayerView { color: Color::Black, name: None, local: true },
        }
    }

    /// Two unnamed players at this machine.
    pub fn local() -> (players: Players)
        ensures
            players@ == Players::spec_local(),
    {
        Players {
            white: Player { color: Color::White, name: None, local: true },
            black: Player { color: Color::Black, name: None, local: true },
        }
    }

    /// The participant that plays `color`.
    pub fn get_player(&self, color: Color) -> (player: &Player)
        ensures
            player@ == self@.get_player(color),
    {
        if color == Color::White {
            &self.white
        } else {
            &self.black
        }
    }
}

/// Participants, if there are any, as contracts see them.
pub open spec fn players_view(players: Option<Players>) -> Option<PlayersView> {
    match players {
        Some(p) => Some(p@),
        None => None,
    }
}

/// The participants of a session cannot be what was handed over.
#[derive(Clone, Copy, Debug, PartialEq, Eq, Structural)]
pub enum SetupError {
    /// A session over the network was asked for without the participants
    /// that the handshake settled on.
    NotNegotiated,
    /// The participants do not hold their own colours, or it is not exactly
    /// one of them that sits at this machine.
    NotPaired,
}

/// The participants of a session together with the way it is played.
pub struct PlayerHandler {
    game_type: GameType,
    players: Players,
}

/// A `PlayerHandler` as contracts see it.
pub struct PlayerHandlerView {
    /// Whether the session runs over the network.
    pub networked: bool,
    pub players: PlayersView,
}

impl PlayerHandlerView {
    /// Each participant holds its own colour; over the network exactly one
    /// sits at this machine, otherwise both do.
    pub open spec fn wf(self) -> bool {
        &&& self.players.wf()
        &&& self.networked ==> self.players.one_remote()
        &&& !self.networked ==> self.players.both_local()
    }

    /// Whether moves of `color` are made at this machine.
    pub open spec fn can_move(self, color: Color) -> bool {
        !self.networked || self.players.get_player(color).local
    }
}

impl View for PlayerHandler {
    type V = PlayerHandlerView;

    closed spec fn view(&self) -> PlayerHandlerView {
        PlayerHandlerView { networked: !self.game_type.is_local(), players: self.players@ }
    }
}

impl PlayerHandler {
    /// The participants of a session played as `local` says, given what a
    /// handshake settled on, if any took place.
    pub open spec fn spec_new(local: bool, negotiated: Option<PlayersView>) -> Result<PlayersView, SetupError> {
        if local {
            Ok(Players::spec_local())
        } else {
            match negotiated {
                None => Err(SetupError::NotNegotiated),
                Some(players) => if players.wf() && players.one_remote() {
                    Ok(players)
                } else {
                    Err(SetupError::NotPaired)
                },
            }
        }
    }

    /// Sets up the participants of a session.
    ///
    /// A local session has two unnamed local players, whatever is handed
    /// over. A session over the network takes the participants that the
    /// handshake settled on: they must hold their own colours, and exactly
    /// one of them must sit at this machine.
    pub fn new(game_type: GameType, negotiated: Option<Players>) -> (handler: Result<PlayerHandler, SetupError>)
        ensures
            match PlayerHandler::spec_new(game_type.is_local(), players_view(negotiated)) {
                Ok(players) => {
                    &&& handler matches Ok(h)
                    &&& h@ == (PlayerHandlerView { networked: !game_type.is_local(), players })
                    &&& h@.wf()
                    &&& h.spec_game_type() == game_type
                },
                Err(e) => handler matches Err(x) && x == e,
            },
    {
        match game_type {
            GameType::Local => Ok(PlayerHandler { game_type, players: Players::local() }),
            _ => match negotiated {
                None => Err(SetupError::NotNegotiated),
                Some(players) => {
                    if players.white.color == Color::White && players.black.color == Color::Black
                        && players.white.local != players.black.local {
                        Ok(PlayerHandler { game_type, players })
                    } else {
                        Err(SetupError::NotPaired)
                    }
                },
            },
        }
    }

    /// Takes the participants that a handshake run again settled on. They
    /// replace the present ones where the session runs over the network,
    /// they hold their own colours and exactly one of them sits at this
    /// machine; otherwise nothing changes.
    pub fn replace_players(&mut self, players: Players) -> (replaced: bool)
        requires
            old(self)@.wf(),
        ensures
            final(self)@.wf(),
            final(self).spec_game_type() == old(self).spec_game_type(),
            replaced == (old(self)@.networked && players@.wf() && players@.one_remote()),
            final(self)@ == if replaced {
                PlayerHandlerView { networked: true, players: players@ }
            } else {
                old(self)@
            },
    {
        if self.is_networked() && players.white.color == Color::White && players.black.color
            == Color::Black && players.white.local != players.black.local {
            self.players = players;
            true
        } else {
            false
        }
    }

    /// The way the session is played.
    pub closed spec fn spec_game_type(&self) -> GameType {
        self.game_type
    }

    /// The way the session is played.
    pub fn game_type(&self) -> (game_type: &GameType)
        ensures
            *game_type == self.spec_game_type(),
            !game_type.is_local() == self@.networked,
    {
        &self.game_type
    }

    /// The two participants.
    pub fn players(&self) -> (players: &Players)
        ensures
            players@ == self@.players,
    {
        &self.players
    }

    /// Whether the session runs over the network.
    pub fn is_networked(&self) -> (networked: bool)
        ensures
            networked == self@.networked,
    {
        match self.game_type {
            GameType::Local => false,
            _ => true,
        }
    }

    /// Whether moves of `color` are made at this machine: always in a local
    /// session, else where the participant of that colour is local.
    pub fn can_move(&self, color: Color) -> (allowed: bool)
        ensures
            allowed == self@.can_move(color),
    {
        if let GameType::Local = self.game_type {
            return true;
        }
        let player = self.players.get_player(color);
        player.local
    }

    /// Whether both participants sit at this machine.
    pub fn both_local(&self) -> (both: bool)
        ensures
            both == self@.players.both_local(),
    {
        self.players.black.local && self.players.white.local
    }

    /// The colour played at this machine; black where both are.
    pub fn one_local(&self) -> (color: Option<Color>)
        ensures
            color == self@.players.one_local(),
    {
        if self.players.black.local {
            Some(Color::Black)
        } else if self.players.white.local {
            Some(Color::White)
        } else {
            None
        }
    }
}

/// Where exactly one participant sits at this machine, the local colour is
/// `color` if and only if the participant of that colour is local: asking
/// for the one local colour and asking whether a colour may move here
/// come to the same.
pub proof fn one_local_owns(handler: PlayerHandlerView, color: Color)
    requires
        handler.wf(),
        handler.networked,
    ensures
        handler.players.one_local() == Some(color) <==> handler.can_move(color),
        handler.players.one_local() is Some,
        !handler.players.both_local(),
{
}

/// In a local session every colour moves at this machine.
pub proof fn local_session_owns_every_turn(handler: PlayerHandlerView, color: Color)
    requires
        handler.wf(),
        !handler.networked,
    ensures
        handler.can_move(color),
        handler.players.both_local(),
{
}


} // verus!
