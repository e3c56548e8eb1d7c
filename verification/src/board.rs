//! The position of a game, kept by the `chess` crate's rules engine.
//!
//! The engine's record of the game is carried along as it is. What the
//! library reads of it are the moves made so far; whatever else the engine
//! says (which move is legal, where the game stands, what stands where)
//! depends on those moves alone and is named after them.

use vstd::prelude::*;
use chess::{ChessMove, File, Game, MoveGen, Piece, Rank, Square};
use crate::packet::PromotionPiece;
use crate::players::Color;

verus! {

/// The `chess` crate's record of one game.
#[verifier::external_type_specification]
#[verifier::external_body]
pub struct ExGame(chess::Game);

/// One move of one side, as the rules engine takes it.
#[derive(Clone, Copy, Debug, PartialEq, Eq)]
pub struct Ply {
    pub from: (u8, u8),
    pub to: (u8, u8),
    pub promotion: Option<PromotionPiece>,
}

/// Whether `square` lies on the board.
pub open spec fn on_board(square: (u8, u8)) -> bool {
    square.0 < 8 && square.1 < 8
}

impl Ply {
    /// Both squares lie on the board.
    pub open spec fn wf(self) -> bool {
        on_board(self.from) && on_board(self.to)
    }
}

/// What the rules engine says of a position.
#[derive(Clone, Copy, Debug, PartialEq, Eq, Structural)]
pub enum PositionStatus {
    Ongoing,
    Stalemate,
    Checkmate,
}

/// Whether `game` began from the initial position of chess.
pub uninterp spec fn from_initial_position(game: Game) -> bool;

/// The moves made in `game`, first to last.
pub uninterp spec fn game_plies(game: Game) -> Seq<Ply>;

/// Whether the rules engine takes `ply` as the next move after the moves of
/// `history`.
pub uninterp spec fn legal_in(history: Seq<Ply>, ply: Ply) -> bool;

/// The rules engine's verdict on the position after the moves of `history`.
pub uninterp spec fn status_in(history: Seq<Ply>) -> PositionStatus;

/// Whether a player may declare a draw after the moves of `history`.
pub uninterp spec fn drawable_in(history: Seq<Ply>) -> bool;

/// The source and destination of each legal move after the moves of
/// `history`, in the order the rules engine generates them.
pub uninterp spec fn moves_in(history: Seq<Ply>) -> Seq<((u8, u8), (u8, u8))>;

/// The kind of the piece that stands on `square` after the moves of
/// `history`, if one stands there.
pub uninterp spec fn piece_in(history: Seq<Ply>, square: (u8, u8)) -> Option<PieceType>;

/// The colour of the piece that stands on `square` after the moves of
/// `history`, if one stands there.
pub uninterp spec fn color_in(history: Seq<Ply>, square: (u8, u8)) -> Option<Color>;

/// `chess::Game::new`: a game that begins at the initial position, with no
/// move made.
#[verifier::external_body]
fn new_game() -> (game: Game)
    ensures
        from_initial_position(game),
        game_plies(game) == Seq::<Ply>::empty(),
{
    Game::new()
}

/// `chess::Game::make_move`: records `ply` as the last move if the game has
/// not ended and the move is legal in the current position, and says
/// whether it did.
#[verifier::external_body]
fn make_move(game: &mut Game, ply: Ply) -> (made: bool)
    requires
        from_initial_position(*old(game)),
        ply.wf(),
    ensures
        from_initial_position(*final(game)),
        made == legal_in(game_plies(*old(game)), ply),
        game_plies(*final(game)) == if made {
            game_plies(*old(game)).push(ply)
        } else {
            game_plies(*old(game))
        },
{
    let from = Square::make_square(Rank::from_index(ply.from.1 as usize), File::from_index(ply.from.0 as usize));
    let to = Square::make_square(Rank::from_index(ply.to.1 as usize), File::from_index(ply.to.0 as usize));
    let promotion = match ply.promotion {
        None => None,
        Some(PromotionPiece::Queen) => Some(Piece::Queen),
        Some(PromotionPiece::Rook) => Some(Piece::Rook),
        Some(PromotionPiece::Bishop) => Some(Piece::Bishop),
        Some(PromotionPiece::Knight) => Some(Piece::Knight),
    };
    game.make_move(ChessMove::new(from, to, promotion))
}

/// `chess::Board::status` of `chess::Game::current_position`: whether the
/// side to move has a legal move, and whether it is in check if not. The
/// verdict depends on the moves made alone.
#[verifier::external_body]
fn position_status(game: &Game) -> (status: PositionStatus)
    requires
        from_initial_position(*game),
    ensures
        status == status_in(game_plies(*game)),
{
    match game.current_position().status() {
        chess::BoardStatus::Ongoing => PositionStatus::Ongoing,
        chess::BoardStatus::Stalemate => PositionStatus::Stalemate,
        chess::BoardStatus::Checkmate => PositionStatus::Checkmate,
    }
}

/// `chess::Game::can_declare_draw`: whether the position has occurred three
/// times or fifty moves have passed without a capture or a pawn move. The
/// answer depends on the moves made alone.
#[verifier::external_body]
fn can_declare_draw(game: &Game) -> (drawable: bool)
    requires
        from_initial_position(*game),
    ensures
        drawable == drawable_in(game_plies(*game)),
{
    game.can_declare_draw()
}

/// `chess::MoveGen::new_legal` on `chess::Game::current_position`: the legal
/// moves, each as the file and rank of its source and of its destination.
/// The list and its order depend on the moves made alone.
#[verifier::external_body]
fn legal_moves(game: &Game) -> (moves: Vec<((u8, u8), (u8, u8))>)
    requires
        from_initial_position(*game),
    ensures
        moves@ == moves_in(game_plies(*game)),
{
    MoveGen::new_legal(&game.current_position()).map(|m| (
        (m.get_source().get_file().to_index() as u8, m.get_source().get_rank().to_index() as u8),
        (m.get_dest().get_file().to_index() as u8, m.get_dest().get_rank().to_index() as u8),
    )).collect()
}

/// `chess::Board::piece_on` of `chess::Game::current_position`: the kind of
/// the piece on `square`, if there is one.
#[verifier::external_body]
fn piece_on(game: &Game, square: (u8, u8)) -> (piece: Option<PieceType>)
    requires
        from_initial_position(*game),
        on_board(square),
    ensures
        piece == piece_in(game_plies(*game), square),
{
    let at = Square::make_square(Rank::from_index(square.1 as usize), File::from_index(square.0 as usize));
    match game.current_position().piece_on(at) {
        None => None,
        Some(Piece::King) => Some(PieceType::King),
        Some(Piece::Queen) => Some(PieceType::Queen),
        Some(Piece::Rook) => Some(PieceType::Rook),
        Some(Piece::Bishop) => Some(PieceType::Bishop),
        Some(Piece::Knight) => Some(PieceType::Knight),
        Some(Piece::Pawn) => Some(PieceType::Pawn),
    }
}

/// `chess::Board::color_on` of `chess::Game::current_position`: the colour
/// of the piece on `square`, if there is one.
#[verifier::external_body]
fn color_on(game: &Game, square: (u8, u8)) -> (color: Option<Color>)
    requires
        from_initial_position(*game),
        on_board(square),
    ensures
        color == color_in(game_plies(*game), square),
{
    let at = Square::make_square(Rank::from_index(square.1 as usize), File::from_index(square.0 as usize));
    match game.current_position().color_on(at) {
        None => None,
        Some(chess::Color::White) => Some(Color::White),
        Some(chess::Color::Black) => Some(Color::Black),
    }
}

/// `chess::Game::side_to_move`: white when an even number of moves has been
/// made since the initial position, black otherwise.
#[verifier::external_body]
fn side_to_move(game: &Game) -> (color: Color)
    requires
        from_initial_position(*game),
    ensures
        color == turn_after(game_plies(*game)),
{
    match game.side_to_move() {
        chess::Color::White => Color::White,
        chess::Color::Black => Color::Black,
    }
}

/// The side to move after the moves of `history`.
pub open spec fn turn_after(history: Seq<Ply>) -> Color {
    if history.len() % 2 == 0 {
        Color::White
    } else {
        Color::Black
    }
}

/// The kinds of chess pieces.
#[derive(Clone, Copy, Debug, PartialEq, Eq, Structural)]
pub enum PieceType {
    King,
    Queen,
    Rook,
    Bishop,
    Knight,
    Pawn,
}

/// Why a game is drawn.
#[derive(Clone, Copy, Debug, PartialEq, Eq, Structural)]
pub enum DrawType {
    /// The side to move has no legal move and is not in check.
    Stalemate,
    /// The position has occurred three times, or fifty moves have passed
    /// without a capture or a pawn move.
    Repetition,
}

/// Where a game stands.
#[derive(Clone, Copy, Debug, PartialEq, Eq, Structural)]
pub enum Status {
    InProgress,
    /// A pawn has reached the last rank and waits for its new kind.
    AwaitingPromotion,
    /// The side named has given mate.
    Checkmate(Color),
    Draw(DrawType),
}

/// What the board says of a proposed move.
#[derive(Clone, Copy, Debug, PartialEq, Eq, Structural)]
pub enum ValidationResult {
    /// The move stands; the status is that of the game after it.
    Valid(Status),
    /// The move is none of the legal moves; the board is as it was.
    Invalid,
}

/// The piece that `piece` stands for when a pawn is promoted; none for a
/// king or a pawn.
pub open spec fn spec_promotion_piece(piece: PieceType) -> Option<PromotionPiece> {
    match piece {
        PieceType::Queen => Some(PromotionPiece::Queen),
        PieceType::Rook => Some(PromotionPiece::Rook),
        PieceType::Bishop => Some(PromotionPiece::Bishop),
        PieceType::Knight => Some(PromotionPiece::Knight),
        PieceType::King => None,
        PieceType::Pawn => None,
    }
}

/// The piece that `piece` stands for when a pawn is promoted; none for a
/// king or a pawn.
pub fn promotion_piece(piece: PieceType) -> (promotion: Option<PromotionPiece>)
    ensures
        promotion == spec_promotion_piece(piece),
{
    match piece {
        PieceType::Queen => Some(PromotionPiece::Queen),
        PieceType::Rook => Some(PromotionPiece::Rook),
        PieceType::Bishop => Some(PromotionPiece::Bishop),
        PieceType::Knight => Some(PromotionPiece::Knight),
        PieceType::King => None,
        PieceType::Pawn => None,
    }
}

/// Where a game stands after the moves of `history`, none of them waiting
/// for a promotion: mate is credited to the side that moved last, and a
/// position in which a draw may be declared counts as drawn.
pub open spec fn status_after(history: Seq<Ply>) -> Status {
    match status_in(history) {
        PositionStatus::Checkmate => Status::Checkmate(turn_after(history).spec_opponent()),
        PositionStatus::Stalemate => Status::Draw(DrawType::Stalemate),
        PositionStatus::Ongoing => if drawable_in(history) {
            Status::Draw(DrawType::Repetition)
        } else {
            Status::InProgress
        },
    }
}

/// A board as contracts see it.
pub struct BoardView {
    /// The moves made, first to last.
    pub plies: Seq<Ply>,
    /// The source and destination of a pawn move that waits for the piece
    /// the pawn turns into.
    pub promoting: Option<((u8, u8), (u8, u8))>,
}

impl BoardView {
    /// The board before the first move.
    pub open spec fn initial() -> BoardView {
        BoardView { plies: Seq::empty(), promoting: None }
    }

    /// The side to move.
    pub open spec fn turn(self) -> Color {
        turn_after(self.plies)
    }

    /// Where the game stands.
    pub open spec fn status(self) -> Status {
        if self.promoting is Some {
            Status::AwaitingPromotion
        } else {
            status_after(self.plies)
        }
    }

    /// The piece that stands on `square`, by colour and kind; none where
    /// the square is empty or lies off the board.
    pub open spec fn piece_at(self, square: (u8, u8)) -> Option<(Color, PieceType)> {
        if on_board(square) {
            match (color_in(self.plies, square), piece_in(self.plies, square)) {
                (Some(color), Some(piece)) => Some((color, piece)),
                _ => None,
            }
        } else {
            None
        }
    }

    /// The board with `ply` made.
    pub open spec fn with(self, ply: Ply) -> BoardView {
        BoardView { plies: self.plies.push(ply), promoting: None }
    }

    /// Whether the move from `from` to `to` is made as it is: no promotion
    /// waits, both squares lie on the board, and the rules engine accepts the
    /// move without a promotion piece.
    pub open spec fn plain_move(self, from: (u8, u8), to: (u8, u8)) -> bool {
        &&& self.promoting is None
        &&& on_board(from)
        &&& on_board(to)
        &&& legal_in(self.plies, Ply { from, to, promotion: None })
    }

    /// Whether the move from `from` to `to` takes a pawn to the last rank: it
    /// is not made as it is, yet the rules engine lists it among the legal
    /// moves.
    pub open spec fn pawn_arrives(self, from: (u8, u8), to: (u8, u8)) -> bool {
        &&& self.promoting is None
        &&& on_board(from)
        &&& on_board(to)
        &&& !legal_in(self.plies, Ply { from, to, promotion: None })
        &&& moves_in(self.plies).contains((from, to))
    }

    /// The board after the move from `from` to `to` has been proposed.
    pub open spec fn move_piece(self, from: (u8, u8), to: (u8, u8)) -> BoardView {
        if self.plain_move(from, to) {
            self.with(Ply { from, to, promotion: None })
        } else if self.pawn_arrives(from, to) {
            BoardView { plies: self.plies, promoting: Some((from, to)) }
        } else {
            self
        }
    }

    /// What the board says of the move from `from` to `to`.
    pub open spec fn validate(self, from: (u8, u8), to: (u8, u8)) -> ValidationResult {
        if self.plain_move(from, to) || self.pawn_arrives(from, to) {
            ValidationResult::Valid(self.move_piece(from, to).status())
        } else {
            ValidationResult::Invalid
        }
    }

    /// The move that completes the waiting promotion with `piece`, if a
    /// promotion waits, `piece` is one a pawn can turn into, and the rules
    /// engine accepts the move.
    pub open spec fn promotion_ply(self, piece: PieceType) -> Option<Ply> {
        match (self.promoting, spec_promotion_piece(piece)) {
            (Some(squares), Some(promotion)) => {
                let ply = Ply { from: squares.0, to: squares.1, promotion: Some(promotion) };
                if legal_in(self.plies, ply) {
                    Some(ply)
                } else {
                    None
                }
            },
            _ => None,
        }
    }

    /// The board after `piece` has been named for the waiting promotion: the
    /// move is made if it can be, and no promotion waits either way.
    pub open spec fn promote_piece(self, piece: PieceType) -> BoardView {
        match self.promotion_ply(piece) {
            Some(ply) => self.with(ply),
            None => BoardView { plies: self.plies, promoting: None },
        }
    }
}

/// The position of a game and the moves that led to it.
pub struct Board {
    game: Game,
    plies: Vec<Ply>,
    promoting: Option<((u8, u8), (u8, u8))>,
}

impl View for Board {
    type V = BoardView;

    closed spec fn view(&self) -> BoardView {
        BoardView { plies: self.plies@, promoting: self.promoting }
    }
}

impl Board {
    /// The record of the rules engine agrees with the moves kept here, and a
    /// waiting promotion names squares on the board.
    pub closed spec fn wf(&self) -> bool {
        &&& from_initial_position(self.game)
        &&& game_plies(self.game) == self.plies@
        &&& self.promoting matches Some(squares) ==> on_board(squares.0) && on_board(squares.1)
    }

    /// A board before the first move.
    pub fn new() -> (board: Board)
        ensures
            board.wf(),
            board@ == BoardView::initial(),
    {
        Board { game: new_game(), plies: Vec::new(), promoting: None }
    }

    /// The side to move.
    pub fn turn(&self) -> (color: Color)
        requires
            self.wf(),
        ensures
            color == self@.turn(),
    {
        side_to_move(&self.game)
    }

    /// Where the game stands.
    pub fn status(&self) -> (status: Status)
        requires
            self.wf(),
        ensures
            status == self@.status(),
    {
        if self.promoting.is_some() {
            return Status::AwaitingPromotion;
        }
        match position_status(&self.game) {
            PositionStatus::Checkmate => Status::Checkmate(side_to_move(&self.game).opponent()),
            PositionStatus::Stalemate => Status::Draw(DrawType::Stalemate),
            PositionStatus::Ongoing => if can_declare_draw(&self.game) {
                Status::Draw(DrawType::Repetition)
            } else {
                Status::InProgress
            },
        }
    }

    /// The moves made so far, first to last.
    pub fn history(&self) -> (plies: Vec<Ply>)
        ensures
            plies@ == self@.plies,
    {
        self.plies.clone()
    }

    /// The number of moves made so far.
    pub fn ply_count(&self) -> (count: usize)
        ensures
            count == self@.plies.len(),
    {
        self.plies.len()
    }

    /// The source and destination of each legal move in the position, in the
    /// order the rules engine generates them.
    pub fn generate_valid_moves(&self) -> (moves: Vec<((u8, u8), (u8, u8))>)
        requires
            self.wf(),
        ensures
            moves@ == moves_in(self@.plies),
    {
        legal_moves(&self.game)
    }

    /// The piece that stands on `square`, by colour and kind; none where
    /// the square is empty or lies off the board.
    pub fn piece_at(&self, square: (u8, u8)) -> (piece: Option<(Color, PieceType)>)
        requires
            self.wf(),
        ensures
            piece == self@.piece_at(square),
    {
        if square.0 >= 8 || square.1 >= 8 {
            return None;
        }
        match (color_on(&self.game, square), piece_on(&self.game, square)) {
            (Some(color), Some(piece)) => Some((color, piece)),
            _ => None,
        }
    }

    /// Proposes the move from `from` to `to`.
    ///
    /// A move that the rules engine accepts as it is gets made. A move that
    /// it lists as legal but does not accept without a promotion piece is
    /// kept waiting for `promote_piece`. Any other move, and any move while a
    /// promotion waits, leaves the board as it was.
    pub fn move_piece(&mut self, from: (u8, u8), to: (u8, u8)) -> (result: ValidationResult)
        requires
            old(self).wf(),
        ensures
            final(self).wf(),
            final(self)@ == old(self)@.move_piece(from, to),
            result == old(self)@.validate(from, to),
    {
        if self.promoting.is_some() || from.0 >= 8 || from.1 >= 8 || to.0 >= 8 || to.1 >= 8 {
            return ValidationResult::Invalid;
        }
        let ply = Ply { from, to, promotion: None };
        if make_move(&mut self.game, ply) {
            self.plies.push(ply);
            return ValidationResult::Valid(self.status());
        }
        let moves = legal_moves(&self.game);
        if listed(&moves, from, to) {
            self.promoting = Some((from, to));
            ValidationResult::Valid(Status::AwaitingPromotion)
        } else {
            ValidationResult::Invalid
        }
    }

    /// Names the piece for the waiting promotion.
    ///
    /// Returns the status of the game after the move where the move is made:
    /// a promotion waits, `piece` is one a pawn can turn into, and the rules
    /// engine accepts the move. Otherwise returns nothing and makes no move.
    /// No promotion waits afterwards either way.
    pub fn promote_piece(&mut self, piece: PieceType) -> (status: Option<Status>)
        requires
            old(self).wf(),
        ensures
            final(self).wf(),
            final(self)@ == old(self)@.promote_piece(piece),
            status == match old(self)@.promotion_ply(piece) {
                Some(ply) => Some(old(self)@.with(ply).status()),
                None => None,
            },
    {
        let waiting = self.promoting;
        self.promoting = None;
        match (waiting, promotion_piece(piece)) {
            (Some(squares), Some(promotion)) => {
                let ply = Ply { from: squares.0, to: squares.1, promotion: Some(promotion) };
                if make_move(&mut self.game, ply) {
                    self.plies.push(ply);
                    Some(self.status())
                } else {
                    None
                }
            },
            _ => None,
        }
    }
}

/// Whether the move from `from` to `to` is among `moves`.
pub fn listed(moves: &Vec<((u8, u8), (u8, u8))>, from: (u8, u8), to: (u8, u8)) -> (found: bool)
    ensures
        found == moves@.contains((from, to)),
{
    let mut i: usize = 0;
    while i < moves.len()
        invariant
            i <= moves.len(),
            forall|j: int| 0 <= j < i ==> moves@[j] != (from, to),
        decreases moves.len() - i,
    {
        let mv = moves[i];
        if mv.0.0 == from.0 && mv.0.1 == from.1 && mv.1.0 == to.0 && mv.1.1 == to.1 {
            return true;
        }
        i += 1;
    }
    false
}


} // verus!
