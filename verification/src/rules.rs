//! The chess rules engine, as far as this library relies on it.
//!
//! Positions, moves and games are values of the `chess` crate. Verus sees
//! none of their insides: what the library reads from them goes through the
//! trusted functions of this module, and the spec functions without a body
//! name what those calls return.
use vstd::prelude::*;

verus! {

/// `chess::Board`, a position: carried through as it is.
#[verifier::external_type_specification]
#[verifier::external_body]
pub struct ExBoard(chess::Board);

/// `chess::ChessMove`, a move: carried through as it is.
#[verifier::external_type_specification]
#[verifier::external_body]
pub struct ExChessMove(chess::ChessMove);

/// `chess::Game`, a game with the moves that were played in it: carried
/// through as it is.
#[verifier::external_type_specification]
#[verifier::external_body]
pub struct ExGame(chess::Game);

/// The six piece kinds, in the order of the encoder's channels.
#[derive(Clone, Copy, Debug, PartialEq, Eq, Structural)]
pub enum PieceKind {
    Pawn,
    Rook,
    Knight,
    Bishop,
    King,
    Queen,
}

/// How a game ended.
#[derive(Clone, Copy, Debug, PartialEq, Eq, Structural)]
pub enum GameResult {
    WhiteCheckmates,
    WhiteResigns,
    BlackCheckmates,
    BlackResigns,
    Stalemate,
    DrawAccepted,
    DrawDeclared,
}

/// A square of the score grid: file and rank, each in `0..8`.
#[derive(Clone, Copy, Debug, PartialEq, Eq, Structural)]
pub struct Cell {
    pub file: usize,
    pub rank: usize,
}

/// The occupancy mask that `board` keeps for one piece kind, both colours
/// together: bit `x` stands for square `x`, rank by rank from a1.
pub uninterp spec fn piece_mask(board: chess::Board, piece: PieceKind) -> u64;

/// The occupancy mask of White's pieces on `board`.
pub uninterp spec fn white_mask(board: chess::Board) -> u64;

/// The legal moves of `board`, in the order in which the generator yields them.
pub uninterp spec fn legal_moves_of(board: chess::Board) -> Seq<chess::ChessMove>;

/// File and rank of the square that `mv` leaves.
pub uninterp spec fn move_source(mv: chess::ChessMove) -> Cell;

/// File and rank of the square that `mv` arrives at.
pub uninterp spec fn move_dest(mv: chess::ChessMove) -> Cell;

/// The position that `game` has reached.
pub uninterp spec fn position_of(game: chess::Game) -> chess::Board;

/// What `game` is once `mv` is handed to it: the game with the move played
/// where the rules take it, and the game as it was where they refuse it.
pub uninterp spec fn game_after(game: chess::Game, mv: chess::ChessMove) -> chess::Game;

/// What `game` is once a draw is declared in it.
pub uninterp spec fn draw_declared(game: chess::Game) -> chess::Game;

/// The initial position in Forsyth-Edwards notation.
pub open spec fn start_fen() -> Seq<char> {
    "rnbqkbnr/pppppppp/8/8/8/8/PPPPPPPP/RNBQKBNR w KQkq - 0 1"@
}

/// The result of `game`, `None` while it is in progress.
pub uninterp spec fn game_result(game: chess::Game) -> Option<GameResult>;

/// Whether the side to move may declare a draw in `game`.
pub uninterp spec fn draw_claimable(game: chess::Game) -> bool;

/// The position `board` in Forsyth-Edwards notation.
pub uninterp spec fn fen_of(board: chess::Board) -> Seq<char>;

/// The move that `text` writes for `board` in algebraic notation, `None`
/// where it writes none.
pub uninterp spec fn san_move(board: chess::Board, text: Seq<char>) -> Option<chess::ChessMove>;

/// Formats `board` with its `Display`, which writes Forsyth-Edwards notation.
#[verifier::external_body]
pub(crate) fn board_fen(board: &chess::Board) -> (fen: String)
    ensures
        fen@ == fen_of(*board),
{
    format!("{}", board)
}

/// Calls `chess::ChessMove::from_san`, which answers with a legal move of
/// `board` or with an error.
#[verifier::external_body]
pub(crate) fn parse_san(board: &chess::Board, text: &str) -> (parsed: Option<chess::ChessMove>)
    ensures
        parsed == san_move(*board, text@),
        parsed matches Some(mv) ==> legal_moves_of(*board).contains(mv),
{
    chess::ChessMove::from_san(board, text).ok()
}

/// Calls `chess::Board::pieces` and hands out the mask's 64 bits.
#[verifier::external_body]
pub(crate) fn pieces(board: &chess::Board, piece: PieceKind) -> (mask: u64)
    ensures
        mask == piece_mask(*board, piece),
{
    let kind = match piece {
        PieceKind::Pawn => chess::Piece::Pawn,
        PieceKind::Rook => chess::Piece::Rook,
        PieceKind::Knight => chess::Piece::Knight,
        PieceKind::Bishop => chess::Piece::Bishop,
        PieceKind::King => chess::Piece::King,
        PieceKind::Queen => chess::Piece::Queen,
    };
    board.pieces(kind).0
}

/// Calls `chess::Board::color_combined` for White and hands out the mask's
/// 64 bits.
#[verifier::external_body]
pub(crate) fn white_pieces(board: &chess::Board) -> (mask: u64)
    ensures
        mask == white_mask(*board),
{
    board.color_combined(chess::Color::White).0
}

/// Collects what `chess::MoveGen::new_legal` yields for `board`, in its order.
#[verifier::external_body]
pub(crate) fn legal_moves(board: &chess::Board) -> (moves: Vec<chess::ChessMove>)
    ensures
        moves@ == legal_moves_of(*board),
{
    chess::MoveGen::new_legal(board).collect()
}

/// Calls `chess::ChessMove::get_source` and reads the square's file and rank
/// as indices, which the crate keeps in `0..8`.
#[verifier::external_body]
pub(crate) fn source_cell(mv: &chess::ChessMove) -> (cell: Cell)
    ensures
        cell == move_source(*mv),
        cell.file < 8,
        cell.rank < 8,
{
    let square = mv.get_source();
    Cell { file: square.get_file().to_index(), rank: square.get_rank().to_index() }
}

/// Calls `chess::ChessMove::get_dest` and reads the square's file and rank as
/// indices, which the crate keeps in `0..8`.
#[verifier::external_body]
pub(crate) fn dest_cell(mv: &chess::ChessMove) -> (cell: Cell)
    ensures
        cell == move_dest(*mv),
        cell.file < 8,
        cell.rank < 8,
{
    let square = mv.get_dest();
    Cell { file: square.get_file().to_index(), rank: square.get_rank().to_index() }
}

/// Calls `chess::Game::new`: a game at the initial position, with no move
/// played, so without a result and without a draw to declare.
#[verifier::external_body]
pub(crate) fn new_game() -> (game: chess::Game)
    ensures
        game_result(game) is None,
        !draw_claimable(game),
        fen_of(position_of(game)) == start_fen(),
{
    chess::Game::new()
}

/// Calls `chess::Game::current_position`: the position after the moves that
/// were played.
#[verifier::external_body]
pub(crate) fn current_position(game: &chess::Game) -> (board: chess::Board)
    ensures
        board == position_of(*game),
{
    game.current_position()
}

/// Calls `chess::Game::make_move`, which plays the move if it is legal and
/// the game is in progress, and says whether it did. What the game becomes
/// depends on the game and the move alone.
#[verifier::external_body]
pub(crate) fn play_move(game: &mut chess::Game, mv: chess::ChessMove) -> (played: bool)
    ensures
        *final(game) == game_after(*old(game), mv),
{
    game.make_move(mv)
}

/// Calls `chess::Game::can_declare_draw`.
#[verifier::external_body]
pub(crate) fn can_declare_draw(game: &chess::Game) -> (claimable: bool)
    ensures
        claimable == draw_claimable(*game),
{
    game.can_declare_draw()
}

/// Calls `chess::Game::declare_draw`. Where a draw can be declared the game
/// ends as a declared draw; elsewhere the game is left as it was.
#[verifier::external_body]
pub(crate) fn declare_draw(game: &mut chess::Game) -> (declared: bool)
    ensures
        declared == draw_claimable(*old(game)),
        declared ==> *final(game) == draw_declared(*old(game)),
        declared ==> game_result(*final(game)) == Some(GameResult::DrawDeclared),
        !declared ==> *final(game) == *old(game),
{
    game.declare_draw()
}

/// Calls `chess::Game::result` and renames the variant.
#[verifier::external_body]
pub(crate) fn result_of(game: &chess::Game) -> (result: Option<GameResult>)
    ensures
        result == game_result(*game),
{
    match game.result() {
        None => None,
        Some(chess::GameResult::WhiteCheckmates) => Some(GameResult::WhiteCheckmates),
        Some(chess::GameResult::WhiteResigns) => Some(GameResult::WhiteResigns),
        Some(chess::GameResult::BlackCheckmates) => Some(GameResult::BlackCheckmates),
        Some(chess::GameResult::BlackResigns) => Some(GameResult::BlackResigns),
        Some(chess::GameResult::Stalemate) => Some(GameResult::Stalemate),
        Some(chess::GameResult::DrawAccepted) => Some(GameResult::DrawAccepted),
        Some(chess::GameResult::DrawDeclared) => Some(GameResult::DrawDeclared),
    }
}

} // verus!
