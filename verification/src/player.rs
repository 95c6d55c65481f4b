//! Players: who proposes a move for a position, and how a policy's scores
//! pick one.
use vstd::prelude::*;
use chess::{Board, ChessMove};
use crate::nn::{board_to_tensor, is_encoding, EncodedInput};
use crate::random::choose_move;
use crate::rules::{
    dest_cell, legal_moves, legal_moves_of, move_dest, move_source, parse_san, san_move, source_cell,
    Cell,
};
use crate::text::{contains, has_substring};

verus! {

/// One side of a game. A player is asked only for positions that have a
/// legal move.
pub trait Player {
    fn make_move(&self, board: &Board) -> (mv: ChessMove)
        requires
            legal_moves_of(*board).len() > 0,
    ;
}

/// A policy network as the move selector sees it: a forward pass that
/// yields a score grid of two 8x8 channels, and a way to read a move's score
/// off that grid. A score is handed over as an integer that orders as the
/// grid's own numbers do.
pub trait Policy {
    type Scores;

    /// The score grid for an encoded position.
    fn forward(&self, input: &EncodedInput) -> Self::Scores;

    /// The score of a move that leaves `leave` and arrives at `arrive`: the
    /// grid's channel 0 at `[leave.file][leave.rank]` plus its channel 1 at
    /// `[arrive.file][arrive.rank]`.
    fn move_score(scores: &Self::Scores, leave: Cell, arrive: Cell) -> i64
        requires
            leave.file < 8,
            leave.rank < 8,
            arrive.file < 8,
            arrive.rank < 8,
    ;
}

/// A player that picks uniformly among the legal moves.
pub struct RandomPlayer {}

/// A person at the console, who types a move or asks for the list of moves.
pub struct HumanPlayer {}

/// What a line typed by a person amounts to.
pub enum Reply {
    /// The line asks for the legal moves, which are these.
    List(Vec<ChessMove>),
    /// The line writes this move.
    Move(ChessMove),
    /// The line writes no move of the position.
    Invalid,
}

/// What a line amounts to for a position: a line that holds `list` asks for
/// the legal moves; any other line is read as a move in algebraic notation.
pub open spec fn reply_of(board: Board, line: Seq<char>, reply: Reply) -> bool {
    if has_substring(line, "list"@) {
        reply matches Reply::List(moves) && moves@ == legal_moves_of(board)
    } else {
        match san_move(board, line) {
            Some(mv) => reply == Reply::Move(mv),
            None => reply is Invalid,
        }
    }
}

/// Whether `k` is the place of the last greatest score.
pub open spec fn is_last_max(scores: Seq<i64>, k: int) -> bool {
    &&& 0 <= k < scores.len()
    &&& forall|i: int| 0 <= i < scores.len() ==> scores[i] <= scores[k]
    &&& forall|i: int| k < i < scores.len() ==> scores[i] < scores[k]
}

/// The place of the greatest score; of several equal ones, the last.
pub open spec fn best_index(scores: Seq<i64>) -> int
    decreases scores.len(),
{
    if scores.len() <= 1 {
        0
    } else {
        let before = best_index(scores.drop_last());
        if scores.last() >= scores[before] {
            scores.len() - 1
        } else {
            before
        }
    }
}

/// `best_index` is the place of the last greatest score, and the only such
/// place.
pub proof fn best_index_is_last_max(scores: Seq<i64>)
    requires
        scores.len() > 0,
    ensures
        is_last_max(scores, best_index(scores)),
        forall|k: int| is_last_max(scores, k) ==> k == best_index(scores),
    decreases scores.len(),
{
    if scores.len() > 1 {
        let init = scores.drop_last();
        best_index_is_last_max(init);
        let before = best_index(init);
        assert(forall|i: int| 0 <= i < init.len() ==> init[i] == scores[i]);
        let best = best_index(scores);
        assert(is_last_max(scores, best));
        assert forall|k: int| is_last_max(scores, k) implies k == best by {
            if k < scores.len() - 1 {
                assert(is_last_max(init, k));
            }
        }
    }
}

/// A move whose score is above every other move's score is the one selected.
pub proof fn unique_maximum_is_selected(scores: Seq<i64>, m: int)
    requires
        0 <= m < scores.len(),
        forall|i: int| 0 <= i < scores.len() && i != m ==> scores[i] < scores[m],
    ensures
        best_index(scores) == m,
{
    best_index_is_last_max(scores);
    assert(is_last_max(scores, m));
}

/// Picks the move with the greatest score; of several with that score, the
/// one that the enumeration yields last. `None` without moves, or where the
/// two lists differ in length.
pub fn select(moves: &Vec<ChessMove>, scores: &Vec<i64>) -> (best: Option<ChessMove>)
    ensures
        best is Some <==> moves@.len() > 0 && moves@.len() == scores@.len(),
        best matches Some(mv) ==> mv == moves@[best_index(scores@)] && is_last_max(
            scores@,
            best_index(scores@),
        ),
{
    if moves.len() == 0 || moves.len() != scores.len() {
        return None;
    }
    let mut k: usize = 0;
    let mut i: usize = 1;
    assert(scores@.subrange(0, 1).len() == 1);
    while i < scores.len()
        invariant
            1 <= i <= scores.len(),
            k == best_index(scores@.subrange(0, i as int)),
            0 <= k < i,
        decreases scores.len() - i,
    {
        proof {
            let next = scores@.subrange(0, i + 1);
            assert(next.drop_last() =~= scores@.subrange(0, i as int));
            assert(next.last() == scores@[i as int]);
            assert(next[k as int] == scores@[k as int]);
        }
        if scores[i] >= scores[k] {
            k = i;
        }
        i += 1;
    }
    proof {
        assert(scores@.subrange(0, i as int) =~= scores@);
        best_index_is_last_max(scores@);
    }
    Some(moves[k])
}

/// The two cells of the score grid that the score of `mv` is read from:
/// channel 0 at the square it leaves, channel 1 at the square it arrives at.
pub fn move_to_score(mv: &ChessMove) -> (cells: (Cell, Cell))
    ensures
        cells.0 == move_source(*mv),
        cells.1 == move_dest(*mv),
        cells.0.file < 8 && cells.0.rank < 8,
        cells.1.file < 8 && cells.1.rank < 8,
{
    (source_cell(mv), dest_cell(mv))
}

/// Whether `scores` are the scores that a policy read off `grid` for
/// `moves`, move by move: each for the cell that the move leaves and the
/// cell that it arrives at.
pub open spec fn scored_by<P: Policy>(grid: P::Scores, moves: Seq<ChessMove>, scores: Seq<i64>) -> bool {
    &&& scores.len() == moves.len()
    &&& forall|i: int|
        0 <= i < moves.len() ==> call_ensures(
            P::move_score,
            (&grid, move_source(moves[i]), move_dest(moves[i])),
            #[trigger] scores[i],
        )
}

/// Whether `mv` is the move that `policy` decides on for `board`: `grid` is
/// what its forward pass made of the encoding `input` of the position,
/// `scores` are the scores that it read off the grid for the legal moves in
/// the generator's order, and `mv` is the legal move with the greatest
/// score, of several the last.
pub open spec fn decided_by<P: Policy>(
    policy: &P,
    board: Board,
    input: EncodedInput,
    grid: P::Scores,
    scores: Seq<i64>,
    mv: ChessMove,
) -> bool {
    &&& is_encoding(board, input)
    &&& call_ensures(P::forward, (policy, &input), grid)
    &&& scored_by::<P>(grid, legal_moves_of(board), scores)
    &&& is_last_max(scores, best_index(scores))
    &&& mv == legal_moves_of(board)[best_index(scores)]
}

/// Where one legal move has a score above every other's, that move is the
/// one that the policy decides on.
pub proof fn policy_takes_the_unique_maximum<P: Policy>(
    policy: &P,
    board: Board,
    input: EncodedInput,
    grid: P::Scores,
    scores: Seq<i64>,
    mv: ChessMove,
    m: int,
)
    requires
        decided_by(policy, board, input, grid, scores, mv),
        0 <= m < scores.len(),
        forall|i: int| 0 <= i < scores.len() && i != m ==> scores[i] < scores[m],
    ensures
        mv == legal_moves_of(board)[m],
{
    unique_maximum_is_selected(scores, m);
}

/// The move of a policy for `board`: encodes the position, runs the forward
/// pass once, scores every legal move in the generator's order and selects.
/// Whatever the policy answers, the move is a legal one; there is none only
/// where the position has no legal move.
pub fn policy_move<P: Policy>(policy: &P, board: &Board) -> (best: Option<ChessMove>)
    ensures
        best is Some <==> legal_moves_of(*board).len() > 0,
        best matches Some(mv) ==> legal_moves_of(*board).contains(mv),
        best matches Some(mv) ==> exists|input: EncodedInput, grid: P::Scores, scores: Seq<i64>| #[trigger]
            decided_by(policy, *board, input, grid, scores, mv),
{
    let input = board_to_tensor(board);
    let grid = policy.forward(&input);
    let moves = legal_moves(board);
    let mut scores: Vec<i64> = Vec::new();
    let mut i: usize = 0;
    while i < moves.len()
        invariant
            i <= moves.len(),
            scores@.len() == i,
            forall|k: int|
                0 <= k < i ==> call_ensures(
                    P::move_score,
                    (&grid, move_source(moves@[k]), move_dest(moves@[k])),
                    #[trigger] scores@[k],
                ),
        decreases moves.len() - i,
    {
        let cells = move_to_score(&moves[i]);
        scores.push(P::move_score(&grid, cells.0, cells.1));
        i += 1;
    }
    let best = select(&moves, &scores);
    proof {
        if let Some(mv) = best {
            assert(decided_by(policy, *board, input, grid, scores@, mv));
        }
    }
    best
}

impl HumanPlayer {
    /// Reads one line of input against the position. A move that comes back
    /// is a legal one.
    pub fn get_input(&self, board: &Board, line: &str) -> (reply: Reply)
        ensures
            reply_of(*board, line@, reply),
            reply matches Reply::Move(mv) ==> legal_moves_of(*board).contains(mv),
    {
        if contains(line, "list") {
            Reply::List(legal_moves(board))
        } else {
            match parse_san(board, line) {
                Some(mv) => Reply::Move(mv),
                None => Reply::Invalid,
            }
        }
    }
}

impl Player for RandomPlayer {
    /// One of the legal moves, each as likely as the others.
    fn make_move(&self, board: &Board) -> (mv: ChessMove)
        ensures
            legal_moves_of(*board).contains(mv),
    {
        let moves = legal_moves(board);
        choose_move(&moves).unwrap()
    }
}

} // verus!
