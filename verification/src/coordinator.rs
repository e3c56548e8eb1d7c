//! The turn coordinator: on every tick it accepts a move from the side whose
//! turn it is, puts it to the rules engine, and tells the peer.

use vstd::prelude::*;
use crate::board::{
    Board, BoardView, DrawType, PieceType, Ply, Status, ValidationResult, listed, moves_in, on_board,
    spec_promotion_piece,
};
use crate::packet::{Ack, GameState, Move, PacketType, PacketView, PromotionPiece};
use crate::players::{Color, GameType, PlayerHandler, PlayerHandlerView, Players, PlayersView};
use crate::queue::InboundQueue;

verus! {

/// A move that waits to be put to the rules engine, with its origin.
#[derive(Clone, Copy, Debug, PartialEq, Eq)]
pub enum MoveKind {
    /// Chosen at this machine among the legal moves: its source and its
    /// destination.
    Builtin((u8, u8), (u8, u8)),
    /// Sent by the peer.
    Network(Move),
}

impl MoveKind {
    /// The square the piece leaves.
    pub open spec fn spec_from(self) -> (u8, u8) {
        match self {
            MoveKind::Builtin(from, _) => from,
            MoveKind::Network(mv) => mv.from,
        }
    }

    /// The square the piece goes to.
    pub open spec fn spec_to(self) -> (u8, u8) {
        match self {
            MoveKind::Builtin(_, to) => to,
            MoveKind::Network(mv) => mv.to,
        }
    }

    /// The piece a pawn turns into if this move takes it to the last rank:
    /// the one the peer named, and a queen where it named none or where the
    /// move was chosen at this machine.
    pub open spec fn spec_promotion(self) -> PieceType {
        match self {
            MoveKind::Builtin(_, _) => PieceType::Queen,
            MoveKind::Network(mv) => match mv.promotion {
                Some(PromotionPiece::Queen) => PieceType::Queen,
                Some(PromotionPiece::Rook) => PieceType::Rook,
                Some(PromotionPiece::Bishop) => PieceType::Bishop,
                Some(PromotionPiece::Knight) => PieceType::Knight,
                None => PieceType::Queen,
            },
        }
    }

    /// The square the piece leaves.
    pub fn from(&self) -> (square: (u8, u8))
        ensures
            square == self.spec_from(),
    {
        match self {
            MoveKind::Builtin(from, _) => *from,
            MoveKind::Network(mv) => mv.from,
        }
    }

    /// The square the piece goes to.
    pub fn to(&self) -> (square: (u8, u8))
        ensures
            square == self.spec_to(),
    {
        match self {
            MoveKind::Builtin(_, to) => *to,
            MoveKind::Network(mv) => mv.to,
        }
    }

    /// The piece a pawn turns into if this move takes it to the last rank:
    /// the one the peer named, and a queen where it named none or where the
    /// move was chosen at this machine.
    pub fn promotion(&self) -> (piece: PieceType)
        ensures
            piece == self.spec_promotion(),
    {
        match self {
            MoveKind::Builtin(_, _) => PieceType::Queen,
            MoveKind::Network(mv) => {
                if let Some(promotion) = &mv.promotion {
                    match promotion {
                        PromotionPiece::Queen => PieceType::Queen,
                        PromotionPiece::Rook => PieceType::Rook,
                        PromotionPiece::Bishop => PieceType::Bishop,
                        PromotionPiece::Knight => PieceType::Knight,
                    }
                } else {
                    PieceType::Queen
                }
            },
        }
    }
}

/// What the coordinator is doing.
#[derive(Clone, Copy, Debug, PartialEq, Eq)]
pub enum Phase {
    /// Waiting for a move of the side whose turn it is.
    Move,
    /// A move has been chosen and goes to the rules engine on the next tick.
    Validate(MoveKind),
    /// The game is over.
    End(Status),
    /// The link to the peer has failed. Nothing follows.
    LinkBroken,
}

/// What a tick asks of the caller.
#[derive(Clone, Debug, PartialEq, Eq)]
pub struct Output {
    /// A packet to send to the peer.
    pub send: Option<PacketType>,
    /// Whether the handshake is to be run again.
    pub renegotiate: bool,
}

/// How an acknowledgment reports `status`: mate and draw end the game,
/// nothing else does.
pub open spec fn spec_end_state(status: Status) -> Option<GameState> {
    match status {
        Status::Checkmate(_) => Some(GameState::CheckMate),
        Status::Draw(_) => Some(GameState::Draw),
        _ => None,
    }
}

/// How an acknowledgment reports `status`: mate and draw end the game,
/// nothing else does.
pub fn end_state(status: Status) -> (state: Option<GameState>)
    ensures
        state == spec_end_state(status),
{
    match status {
        Status::Checkmate(_) => Some(GameState::CheckMate),
        Status::Draw(_) => Some(GameState::Draw),
        _ => None,
    }
}

/// The packet that tells the peer of a move made at this machine. The
/// promotion piece is always given as a queen.
pub open spec fn spec_move_packet(mv: MoveKind) -> PacketView {
    PacketView::Move(
        Move {
            from: mv.spec_from(),
            to: mv.spec_to(),
            promotion: Some(PromotionPiece::Queen),
            forfeit: false,
            offer_draw: false,
        },
    )
}

/// A packet, if there is one, as contracts see it.
pub open spec fn send_view(packet: Option<PacketType>) -> Option<PacketView> {
    match packet {
        Some(p) => Some(p@),
        None => None,
    }
}

/// Those of `moves` that start from `square`, in their order.
pub open spec fn moves_from(moves: Seq<((u8, u8), (u8, u8))>, square: (u8, u8)) -> Seq<((u8, u8), (u8, u8))> {
    moves.filter(|mv: ((u8, u8), (u8, u8))| mv.0 == square)
}

/// Those of `moves` that start from `square`, in their order.
pub fn select_from(moves: &Vec<((u8, u8), (u8, u8))>, square: (u8, u8)) -> (found: Vec<((u8, u8), (u8, u8))>)
    ensures
        found@ == moves_from(moves@, square),
{
    let mut found: Vec<((u8, u8), (u8, u8))> = Vec::new();
    let mut i: usize = 0;
    proof {
        reveal(Seq::filter);
    }
    while i < moves.len()
        invariant
            i <= moves.len(),
            found@ == moves_from(moves@.take(i as int), square),
        decreases moves.len() - i,
    {
        let mv = moves[i];
        proof {
            reveal(Seq::filter);
            assert(moves@.take(i + 1).drop_last() == moves@.take(i as int));
        }
        if mv.0.0 == square.0 && mv.0.1 == square.1 {
            found.push(mv);
        }
        i += 1;
    }
    proof {
        assert(moves@.take(i as int) == moves@);
    }
    found
}

/// A coordinator as contracts see it.
pub struct CoordinatorView {
    pub board: BoardView,
    pub selected_square: Option<(u8, u8)>,
    pub handler: PlayerHandlerView,
    pub phase: Phase,
}

impl CoordinatorView {
    /// The participants are paired as the kind of session asks, no promotion
    /// waits between ticks, and a move that waits for the rules engine came
    /// from the side whose turn it is: a move chosen here waits only while
    /// the turn is played here, a move of the peer only while it is not.
    pub open spec fn wf(self) -> bool {
        &&& self.handler.wf()
        &&& self.board.promoting is None
        &&& match self.phase {
            Phase::Validate(MoveKind::Builtin(_, _)) => self.owns_turn(),
            Phase::Validate(MoveKind::Network(_)) => !self.owns_turn(),
            _ => true,
        }
    }

    /// The state in which a session starts.
    pub open spec fn initial(handler: PlayerHandlerView) -> CoordinatorView {
        CoordinatorView { board: BoardView::initial(), selected_square: None, handler, phase: Phase::Move }
    }

    /// Whether the side to move plays at this machine.
    pub open spec fn owns_turn(self) -> bool {
        self.handler.can_move(self.board.turn())
    }

    /// Whether the board is shown with white at the bottom: in a local
    /// session while white is to move, over the network where white plays
    /// here.
    pub open spec fn should_reverse(self) -> bool {
        (self.board.turn() == Color::White && self.handler.players.both_local())
            || self.handler.players.one_local() == Some(Color::White)
    }

    /// The square of the board that is shown at `clicked`.
    pub open spec fn square_at(self, clicked: (u8, u8)) -> (u8, u8) {
        if self.should_reverse() {
            (clicked.0, (7 - clicked.1) as u8)
        } else {
            clicked
        }
    }

    /// The state after a click on the board at `clicked`.
    ///
    /// Nothing happens unless a move is awaited, the side to move plays here
    /// and the click lies on the board. A click on the selected square
    /// unselects it. A click on a square to which the selected piece can
    /// legally go chooses that move. Any other click selects its square.
    pub open spec fn client_move(self, clicked: (u8, u8)) -> CoordinatorView {
        if !(self.phase is Move) || !self.owns_turn() || !on_board(clicked) {
            self
        } else {
            let square = self.square_at(clicked);
            match self.selected_square {
                Some(current) => if current == square {
                    CoordinatorView { selected_square: None, ..self }
                } else if moves_in(self.board.plies).contains((current, square)) {
                    CoordinatorView { phase: Phase::Validate(MoveKind::Builtin(current, square)), ..self }
                } else {
                    CoordinatorView { selected_square: Some(square), ..self }
                },
                None => CoordinatorView { selected_square: Some(square), ..self },
            }
        }
    }

    /// Whether the coordinator looks at the queue: a move is awaited and the
    /// side to move plays at the other end.
    pub open spec fn polls(self) -> bool {
        self.phase is Move && !self.owns_turn()
    }

    /// The state after one look at the packets that wait: the oldest is
    /// taken, and if it is a move it waits for the rules engine from now on.
    pub open spec fn network_move(self, waiting: Seq<PacketView>) -> CoordinatorView {
        if self.polls() && waiting.len() > 0 {
            match waiting[0] {
                PacketView::Move(mv) => CoordinatorView { phase: Phase::Validate(MoveKind::Network(mv)), ..self },
                _ => self,
            }
        } else {
            self
        }
    }

    /// The packets that still wait after one look at them: all but the
    /// oldest where the coordinator looked, all of them where it did not.
    pub open spec fn left_waiting(self, waiting: Seq<PacketView>) -> Seq<PacketView> {
        if self.polls() && waiting.len() > 0 {
            waiting.drop_first()
        } else {
            waiting
        }
    }

    /// Whether the rules engine takes `mv`: as it is, or as a pawn's move to
    /// the last rank completed by the piece that `mv` names.
    pub open spec fn accepts(self, mv: MoveKind) -> bool {
        let from = mv.spec_from();
        let to = mv.spec_to();
        ||| self.board.plain_move(from, to)
        ||| (self.board.pawn_arrives(from, to) && self.board.move_piece(from, to).promotion_ply(
            mv.spec_promotion(),
        ) is Some)
    }

    /// The board after `mv` has been put to the rules engine, and its
    /// promotion, where one came to wait, has been answered.
    pub open spec fn board_after(self, mv: MoveKind) -> BoardView {
        let proposed = self.board.move_piece(mv.spec_from(), mv.spec_to());
        if proposed.promoting is Some {
            proposed.promote_piece(mv.spec_promotion())
        } else {
            proposed
        }
    }

    /// The state after the waiting move has been put to the rules engine.
    ///
    /// A move that is taken ends the game if it mates or draws, and else
    /// gives the turn to the other side. A move that is refused is dropped.
    /// Either way a move is awaited next unless the game is over, and no
    /// square is selected.
    pub open spec fn client_validate(self) -> CoordinatorView {
        match self.phase {
            Phase::Validate(mv) => {
                let board = self.board_after(mv);
                let phase = if self.accepts(mv) && spec_end_state(board.status()) is Some {
                    Phase::End(board.status())
                } else {
                    Phase::Move
                };
                CoordinatorView { board, selected_square: None, handler: self.handler, phase }
            },
            _ => self,
        }
    }

    /// The packet owed to the peer once the waiting move has been put to
    /// the rules engine.
    ///
    /// None in a local session. Over the network, a move that was taken is
    /// passed on if it was made by the side that plays here, and
    /// acknowledged with the end of the game, if it ended it, otherwise; a
    /// move that was refused is acknowledged as refused.
    pub open spec fn reply(self) -> Option<PacketView> {
        match self.phase {
            Phase::Validate(mv) => if !self.handler.networked {
                None
            } else if self.accepts(mv) {
                if self.handler.players.one_local() == Some(self.board.turn()) {
                    Some(spec_move_packet(mv))
                } else {
                    Some(
                        PacketView::Ack(
                            Ack { ok: true, end_state: spec_end_state(self.board_after(mv).status()) },
                        ),
                    )
                }
            } else {
                Some(PacketView::Ack(Ack { ok: false, end_state: None }))
            },
            _ => None,
        }
    }

    /// The legal moves of the piece on the selected square, in the order the
    /// rules engine generates them; none where no square is selected.
    pub open spec fn get_moves(self) -> Option<Seq<((u8, u8), (u8, u8))>> {
        match self.selected_square {
            Some(square) => Some(moves_from(moves_in(self.board.plies), square)),
            None => None,
        }
    }

    /// What to tell the players once nothing more can be played: who won,
    /// the side to move being the one that is mated, why the game is drawn,
    /// or that the link has failed.
    pub open spec fn prompt(self) -> Option<Seq<char>> {
        match self.phase {
            Phase::End(Status::Checkmate(_)) => if self.board.turn() == Color::White {
                Some("Black wins"@)
            } else {
                Some("White wins"@)
            },
            Phase::End(Status::Draw(DrawType::Stalemate)) => Some("Stalemate"@),
            Phase::End(Status::Draw(DrawType::Repetition)) => Some("Draw"@),
            Phase::LinkBroken => Some("Connection lost"@),
            _ => None,
        }
    }

    /// The state after the game has been set up anew.
    pub open spec fn rematch(self) -> CoordinatorView {
        CoordinatorView { board: BoardView::initial(), phase: Phase::Move, ..self }
    }

    /// The state after one tick, given the click of this tick, if there was
    /// one, whether a new game was asked for, and the packets that wait.
    ///
    /// While a move is awaited, the side to move decides where it comes
    /// from: a click where it plays here, the queue where it does not. A
    /// move that waits goes to the rules engine. A game that is over stays
    /// so until a new one is asked for.
    pub open spec fn update(self, click: Option<(u8, u8)>, rematch: bool, waiting: Seq<PacketView>) -> CoordinatorView {
        match self.phase {
            Phase::Move => if self.owns_turn() {
                match click {
                    Some(clicked) => self.client_move(clicked),
                    None => self,
                }
            } else {
                self.network_move(waiting)
            },
            Phase::Validate(_) => self.client_validate(),
            Phase::End(_) => if rematch {
                self.rematch()
            } else {
                self
            },
            Phase::LinkBroken => self,
        }
    }

    /// The state once the link to the peer has failed.
    pub open spec fn link_failed(self) -> CoordinatorView {
        CoordinatorView { phase: Phase::LinkBroken, ..self }
    }

    /// The state after a handshake run again has settled on `players`: they
    /// replace the present participants where the session runs over the
    /// network, a move is awaited, they hold their own colours and exactly
    /// one of them sits at this machine. Otherwise nothing changes.
    pub open spec fn replace_players(self, players: PlayersView) -> CoordinatorView {
        if self.handler.networked && self.phase is Move && players.wf() && players.one_remote() {
            CoordinatorView { handler: PlayerHandlerView { networked: true, players }, ..self }
        } else {
            self
        }
    }

    /// The packets that still wait after one tick.
    pub open spec fn update_waiting(self, waiting: Seq<PacketView>) -> Seq<PacketView> {
        self.left_waiting(waiting)
    }

    /// The packet that one tick owes to the peer.
    pub open spec fn update_send(self) -> Option<PacketView> {
        self.reply()
    }

    /// Whether one tick asks for the handshake to be run again: a new game
    /// was asked for after the end of one that ran over the network.
    pub open spec fn update_renegotiate(self, rematch: bool) -> bool {
        self.phase is End && rematch && self.handler.networked
    }
}

/// The state of one side of a session.
pub struct Coordinator {
    board: Board,
    current_moves: Vec<((u8, u8), (u8, u8))>,
    selected_square: Option<(u8, u8)>,
    player_handler: PlayerHandler,
    phase: Phase,
}

impl View for Coordinator {
    type V = CoordinatorView;

    closed spec fn view(&self) -> CoordinatorView {
        CoordinatorView {
            board: self.board@,
            selected_square: self.selected_square,
            handler: self.player_handler@,
            phase: self.phase,
        }
    }
}

impl Coordinator {
    /// The board is sound, the legal moves kept here are those of its
    /// position, and the state is well-formed.
    pub closed spec fn wf(&self) -> bool {
        &&& self.board.wf()
        &&& self.current_moves@ == moves_in(self.board@.plies)
        &&& self@.wf()
    }

    /// The way the session is played. It is chosen when the coordinator is
    /// made and never changes.
    pub closed spec fn spec_game_type(&self) -> GameType {
        self.player_handler.spec_game_type()
    }

    /// What `wf` says of the state as contracts see it.
    pub proof fn wf_view(&self)
        requires
            self.wf(),
        ensures
            self@.wf(),
    {
    }

    /// The coordinator at the start of a session: the initial position, a
    /// move of white awaited.
    pub fn new(player_handler: PlayerHandler) -> (state: Coordinator)
        requires
            player_handler@.wf(),
        ensures
            state.wf(),
            state@ == CoordinatorView::initial(player_handler@),
            state.spec_game_type() == player_handler.spec_game_type(),
    {
        let board = Board::new();
        let current_moves = board.generate_valid_moves();
        Coordinator { board, current_moves, selected_square: None, player_handler, phase: Phase::Move }
    }

    /// What the coordinator is doing.
    pub fn phase(&self) -> (phase: Phase)
        ensures
            phase == self@.phase,
    {
        self.phase
    }

    /// The square that is selected, if one is.
    pub fn selected_square(&self) -> (square: Option<(u8, u8)>)
        ensures
            square == self@.selected_square,
    {
        self.selected_square
    }

    /// The board.
    pub fn board(&self) -> (board: &Board)
        ensures
            board@ == self@.board,
            self.wf() ==> board.wf(),
    {
        &self.board
    }

    /// The participants and the kind of session.
    pub fn player_handler(&self) -> (handler: &PlayerHandler)
        ensures
            handler@ == self@.handler,
            handler.spec_game_type() == self.spec_game_type(),
    {
        &self.player_handler
    }

    /// The legal moves of the piece on the selected square, in the order the
    /// rules engine generates them; none where no square is selected.
    pub fn get_moves(&self) -> (moves: Option<Vec<((u8, u8), (u8, u8))>>)
        requires
            self.wf(),
        ensures
            match moves {
                Some(found) => self@.get_moves() == Some(found@),
                None => self@.get_moves() is None,
            },
    {
        match self.selected_square {
            Some(square) => Some(select_from(&self.current_moves, square)),
            None => None,
        }
    }

    /// What to tell the players once nothing more can be played: who won,
    /// the side to move being the one that is mated, why the game is drawn,
    /// or that the link has failed.
    pub fn prompt(&self) -> (text: Option<&'static str>)
        requires
            self.wf(),
        ensures
            match text {
                Some(words) => self@.prompt() == Some(words@),
                None => self@.prompt() is None,
            },
    {
        match self.phase {
            Phase::End(Status::Checkmate(_)) => {
                if self.board.turn() == Color::White {
                    Some("Black wins")
                } else {
                    Some("White wins")
                }
            },
            Phase::End(Status::Draw(DrawType::Stalemate)) => Some("Stalemate"),
            Phase::End(Status::Draw(DrawType::Repetition)) => Some("Draw"),
            Phase::LinkBroken => Some("Connection lost"),
            _ => None,
        }
    }

    /// Whether the board is shown with white at the bottom: in a local
    /// session while white is to move, over the network where white plays
    /// here.
    pub fn should_reverse(&self) -> (reverse: bool)
        requires
            self.wf(),
        ensures
            reverse == self@.should_reverse(),
    {
        let white_here = match self.player_handler.one_local() {
            Some(Color::White) => true,
            _ => false,
        };
        (self.board.turn() == Color::White && self.player_handler.both_local()) || white_here
    }

    /// Takes a click on the board at `clicked`, counted in squares from the
    /// left and from the top of what is shown.
    ///
    /// Nothing happens unless a move is awaited, the side to move plays here
    /// and the click lies on the board. A click on the selected square
    /// unselects it. A click on a square to which the selected piece can
    /// legally go chooses that move. Any other click selects its square.
    pub fn client_move(&mut self, clicked: (u8, u8))
        requires
            old(self).wf(),
        ensures
            final(self).wf(),
            final(self)@ == old(self)@.client_move(clicked),
            final(self).spec_game_type() == old(self).spec_game_type(),
    {
        match self.phase {
            Phase::Move => {},
            _ => {
                return ;
            },
        }
        if !self.player_handler.can_move(self.board.turn()) {
            return ;
        }
        if clicked.0 >= 8 || clicked.1 >= 8 {
            return ;
        }
        let reverse = self.should_reverse();
        let mut clicked = clicked;
        if reverse {
            clicked.1 = 7 - clicked.1;
        }
        if let Some(current) = self.selected_square {
            if current.0 == clicked.0 && current.1 == clicked.1 {
                self.selected_square = None;
                return ;
            }
            if listed(&self.current_moves, current, clicked) {
                self.phase = Phase::Validate(MoveKind::Builtin(current, clicked));
            } else {
                self.selected_square = Some(clicked);
            }
        } else {
            self.selected_square = Some(clicked);
        }
    }

    /// Looks once at the packets that wait.
    ///
    /// Nothing happens unless a move is awaited and the side to move plays
    /// at the other end. Then the oldest packet is taken: a move waits for
    /// the rules engine from now on, anything else is dropped.
    pub fn network_move(&mut self, queue: &mut InboundQueue)
        requires
            old(self).wf(),
        ensures
            final(self).wf(),
            final(self)@ == old(self)@.network_move(old(queue)@),
            final(self).spec_game_type() == old(self).spec_game_type(),
            final(queue)@ == old(self)@.left_waiting(old(queue)@),
    {
        match self.phase {
            Phase::Move => {},
            _ => {
                return ;
            },
        }
        if self.player_handler.can_move(self.board.turn()) {
            return ;
        }
        if let Some(packet) = queue.get_packet() {
            match packet {
                PacketType::Move(mv) => {
                    self.phase = Phase::Validate(MoveKind::Network(mv));
                },
                _ => {},
            }
        }
    }

    /// Puts the move that waits to the rules engine and returns the packet
    /// owed to the peer.
    ///
    /// A pawn that reaches the last rank turns into the piece that the
    /// move names. A move that is taken ends the game if it mates or draws;
    /// over the network it is passed on to the peer if it was made here and
    /// acknowledged otherwise. A move that is refused is dropped and, over
    /// the network, acknowledged as refused. Nothing happens while no move
    /// waits.
    pub fn client_validate(&mut self) -> (send: Option<PacketType>)
        requires
            old(self).wf(),
        ensures
            final(self).wf(),
            final(self)@ == old(self)@.client_validate(),
            final(self).spec_game_type() == old(self).spec_game_type(),
            send_view(send) == old(self)@.reply(),
    {
        let mv = match self.phase {
            Phase::Validate(mv) => mv,
            _ => {
                return None;
            },
        };
        let current_turn = self.board.turn();
        let networked = self.player_handler.is_networked();
        let result = self.board.move_piece(mv.from(), mv.to());
        let applied = match result {
            ValidationResult::Valid(status) => {
                match status {
                    Status::AwaitingPromotion => self.board.promote_piece(mv.promotion()),
                    _ => Some(status),
                }
            },
            ValidationResult::Invalid => None,
        };
        self.selected_square = None;
        match applied {
            Some(status) => {
                let ended = end_state(status);
                if ended.is_some() {
                    self.phase = Phase::End(status);
                } else {
                    self.phase = Phase::Move;
                }
                self.current_moves = self.board.generate_valid_moves();
                if !networked {
                    return None;
                }
                let authored = match self.player_handler.one_local() {
                    Some(color) => color == current_turn,
                    None => false,
                };
                if authored {
                    Some(
                        PacketType::Move(
                            Move {
                                from: mv.from(),
                                to: mv.to(),
                                promotion: Some(PromotionPiece::Queen),
                                forfeit: false,
                                offer_draw: false,
                            },
                        ),
                    )
                } else {
                    Some(PacketType::Ack(Ack { ok: true, end_state: ended }))
                }
            },
            None => {
                self.phase = Phase::Move;
                if networked {
                    Some(PacketType::Ack(Ack { ok: false, end_state: None }))
                } else {
                    None
                }
            },
        }
    }

    /// Sets the game up anew: the initial position, a move of white awaited.
    /// The participants stay.
    fn reset(&mut self)
        requires
            old(self).wf(),
        ensures
            final(self).wf(),
            final(self)@ == old(self)@.rematch(),
            final(self).spec_game_type() == old(self).spec_game_type(),
    {
        self.board = Board::new();
        self.current_moves = self.board.generate_valid_moves();
        self.phase = Phase::Move;
    }

    /// Runs one tick, given the click of this tick, if there was one, and
    /// whether a new game was asked for.
    ///
    /// While a move is awaited, the side to move decides where it comes
    /// from: a click where it plays here, the oldest packet of `queue` where
    /// it does not. A move that waits goes to the rules engine, and the
    /// packet owed to the peer is returned. A game that is over stays so
    /// until a new one is asked for; over the network the handshake is then
    /// to be run again.
    pub fn update(&mut self, click: Option<(u8, u8)>, rematch: bool, queue: &mut InboundQueue) -> (output: Output)
        requires
            old(self).wf(),
        ensures
            final(self).wf(),
            final(self)@ == old(self)@.update(click, rematch, old(queue)@),
            final(self).spec_game_type() == old(self).spec_game_type(),
            final(queue)@ == old(self)@.update_waiting(old(queue)@),
            send_view(output.send) == old(self)@.update_send(),
            output.renegotiate == old(self)@.update_renegotiate(rematch),
    {
        match self.phase {
            Phase::Move => {
                let turn = self.board.turn();
                let mine = match self.player_handler.one_local() {
                    Some(color) => color == turn,
                    None => false,
                };
                if self.player_handler.both_local() || mine {
                    if let Some(clicked) = click {
                        self.client_move(clicked);
                    }
                } else {
                    self.network_move(queue);
                }
                Output { send: None, renegotiate: false }
            },
            Phase::Validate(_) => {
                let send = self.client_validate();
                Output { send, renegotiate: false }
            },
            Phase::End(_) => {
                if rematch {
                    self.reset();
                    Output { send: None, renegotiate: self.player_handler.is_networked() }
                } else {
                    Output { send: None, renegotiate: false }
                }
            },
            Phase::LinkBroken => Output { send: None, renegotiate: false },
        }
    }

    /// Records that the link to the peer has failed. No tick changes
    /// anything from now on.
    pub fn link_failed(&mut self)
        requires
            old(self).wf(),
        ensures
            final(self).wf(),
            final(self)@ == old(self)@.link_failed(),
            final(self).spec_game_type() == old(self).spec_game_type(),
    {
        self.phase = Phase::LinkBroken;
    }

    /// Takes the participants that a handshake run again settled on. They
    /// replace the present ones where the session runs over the network, a
    /// move is awaited, they hold their own colours and exactly one of them
    /// sits at this machine; otherwise nothing changes.
    pub fn replace_players(&mut self, players: Players) -> (replaced: bool)
        requires
            old(self).wf(),
        ensures
            final(self).wf(),
            final(self)@ == old(self)@.replace_players(players@),
            final(self).spec_game_type() == old(self).spec_game_type(),
            replaced == (old(self)@.handler.networked && old(self)@.phase is Move && players@.wf()
                && players@.one_remote()),
    {
        match self.phase {
            Phase::Move => self.player_handler.replace_players(players),
            _ => false,
        }
    }
}

impl CoordinatorView {
    /// The move that `mv` adds to the board where the rules engine takes
    /// it: the move as it is, or with the piece that `mv` names for a pawn
    /// that reaches the last rank.
    pub open spec fn ply_of(self, mv: MoveKind) -> Ply {
        let from = mv.spec_from();
        let to = mv.spec_to();
        if self.board.plain_move(from, to) {
            Ply { from, to, promotion: None }
        } else {
            Ply { from, to, promotion: spec_promotion_piece(mv.spec_promotion()) }
        }
    }
}

/// A move that the rules engine takes is added to the board as the last
/// move and gives the turn to the other side; a move that it refuses
/// leaves the board as it was.
pub proof fn validation_adds_one_move(state: CoordinatorView, mv: MoveKind)
    requires
        state.board.promoting is None,
    ensures
        state.accepts(mv) ==> state.board_after(mv) == state.board.with(state.ply_of(mv)),
        state.accepts(mv) ==> state.board_after(mv).turn() == state.board.turn().spec_opponent(),
        !state.accepts(mv) ==> state.board_after(mv) == state.board,
{
}

/// Every tick keeps the state well-formed, and none changes the
/// participants.
pub proof fn update_keeps_wf(state: CoordinatorView, click: Option<(u8, u8)>, rematch: bool, waiting: Seq<PacketView>)
    requires
        state.wf(),
    ensures
        state.update(click, rematch, waiting).wf(),
        state.update(click, rematch, waiting).handler == state.handler,
{
    match state.phase {
        Phase::Validate(mv) => {
            validation_adds_one_move(state, mv);
        },
        _ => {},
    }
}

/// A move chosen at this machine reaches the rules engine only on a turn
/// that is played here.
///
/// In a well-formed state, a move chosen here waits for the rules engine
/// only while the participant whose turn it is sits at this machine. While
/// the side to move plays at the other end, no click chooses a move, and
/// the board changes on no tick but the one that puts a waiting move to the
/// rules engine or sets up a new game.
pub proof fn local_moves_wait_for_own_turn(
    state: CoordinatorView,
    click: Option<(u8, u8)>,
    rematch: bool,
    waiting: Seq<PacketView>,
)
    requires
        state.wf(),
    ensures
        state.phase matches Phase::Validate(MoveKind::Builtin(_, _)) ==> state.handler.players.get_player(
            state.board.turn(),
        ).local,
        state.phase is Move && !state.owns_turn() ==> !(state.update(click, rematch, waiting).phase matches Phase::Validate(
            MoveKind::Builtin(_, _),
        )),
        state.phase is Move ==> state.update(click, rematch, waiting).board == state.board,
        state.phase is End && !rematch ==> state.update(click, rematch, waiting) == state,
{
}

/// One tick takes at most one packet and makes at most one move.
///
/// The queue is looked at only while a move is awaited from the other end,
/// and then loses its oldest packet alone: while a move waits for the rules
/// engine, or the turn is played here, or the game is over, every packet
/// stays where it is. A packet that is no move changes nothing when it is
/// taken: an acknowledgment is not waited for and decides nothing. A tick
/// sends a packet only when it puts a move to the rules engine, and then
/// adds that move to the board or leaves the board as it was.
pub proof fn one_move_per_tick(
    state: CoordinatorView,
    click: Option<(u8, u8)>,
    rematch: bool,
    waiting: Seq<PacketView>,
)
    requires
        state.wf(),
    ensures
        !state.polls() ==> state.update_waiting(waiting) == waiting,
        state.polls() && waiting.len() > 0 ==> state.update_waiting(waiting) == waiting.drop_first(),
        !(state.phase is Validate) ==> state.update_send() is None,
        waiting.len() > 0 && !(waiting[0] is Move) ==> state.network_move(waiting) == state,
        state.phase matches Phase::Validate(mv) ==> {
            let next = state.update(click, rematch, waiting);
            if state.accepts(mv) {
                next.board.plies == state.board.plies.push(state.ply_of(mv))
            } else {
                next.board.plies == state.board.plies
            }
        },
{
    match state.phase {
        Phase::Validate(mv) => {
            validation_adds_one_move(state, mv);
        },
        _ => {},
    }
}

/// Over the network the turn changes hands with every move that is taken.
///
/// Once a move of the peer has been taken and the game goes on, the turn is
/// played here, so no further packet is taken from the queue until a move
/// has been made here: a second move that the peer sent behind the first
/// waits. Once a move made here has been taken, the turn is played at the
/// other end, so no further move can be chosen here until the peer's move
/// has come.
pub proof fn turn_changes_hands(state: CoordinatorView, mv: MoveKind)
    requires
        state.wf(),
        state.handler.networked,
        state.phase == Phase::Validate(mv),
        state.accepts(mv),
    ensures
        mv is Network ==> state.client_validate().owns_turn() && !state.client_validate().polls(),
        mv is Builtin ==> !state.client_validate().owns_turn(),
        mv is Builtin ==> state.reply() == Some(spec_move_packet(mv)),
        mv is Network ==> (state.reply() matches Some(PacketView::Ack(ack)) && ack.ok),
{
    validation_adds_one_move(state, mv);
}

} // verus!
