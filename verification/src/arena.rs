//! The tournament engine: game simulation, the round robin, fitness-weighted
//! pairing and breeding, the evaluation of a champion, and the order in which
//! a run goes through its generations.
use vstd::prelude::*;
use chess::{ChessMove, Game};
use crate::genome::{crossover, genome_follows, CrossoverError, LayerPlan, LayerShape};
use crate::ledger::{champs_file, checkpoint_name_spec, checkpoint_path, ChampionRecord};
use crate::player::Player;
use crate::random::{distribution, index_weights, sample_index};
use crate::scores::{
    black_win, champion, counted, is_black_win, is_first_max, is_square, is_white_win,
    seeded_matrix_gives_distributions, white_win, ResultTable, WinMatrix, MAX_POPULATION,
};
use crate::rules::{
    can_declare_draw, current_position, declare_draw, draw_claimable, draw_declared, fen_of,
    game_after, game_result, legal_moves, legal_moves_of, new_game, play_move, position_of, result_of,
    start_fen, GameResult,
};

verus! {

/// The most rounds of one game: a round is a move of White and a move of
/// Black.
pub const MOVE_CAP: u32 = 1000;

/// What the check after a half-move makes of `game`: the game with a draw
/// declared where one can be declared, the game itself elsewhere.
pub open spec fn checked(game: Game) -> Game {
    if draw_claimable(game) {
        draw_declared(game)
    } else {
        game
    }
}

/// Whether the position that `game` has reached has a legal move.
pub open spec fn has_move(game: Game) -> bool {
    legal_moves_of(position_of(game)).len() > 0
}

/// Whether `answer` is what `player` adds to a half-move of `game`: a move
/// that it returned when it was asked for the position of the game, where
/// that position has a legal move; nothing, unasked, where it has none.
pub open spec fn answers<P: Player>(player: &P, game: Game, answer: Option<ChessMove>) -> bool {
    match answer {
        Some(mv) => has_move(game) && call_ensures(P::make_move, (player, &position_of(game)), mv),
        None => !has_move(game),
    }
}

/// The game after a half-move: the answer, if there is one, is handed to
/// the game, and then the game is checked.
pub open spec fn half_moved(game: Game, answer: Option<ChessMove>) -> Game {
    match answer {
        Some(mv) => checked(game_after(game, mv)),
        None => checked(game),
    }
}

/// Declares a draw where one can be declared, and says whether the game is
/// over.
pub fn check_game(game: &mut Game) -> (over: bool)
    ensures
        over == (game_result(*final(game)) is Some),
        *final(game) == checked(*old(game)),
        draw_claimable(*old(game)) ==> game_result(*final(game)) == Some(GameResult::DrawDeclared),
        !draw_claimable(*old(game)) ==> *final(game) == *old(game),
{
    if can_declare_draw(game) {
        declare_draw(game);
    }
    result_of(game).is_some()
}

/// Lets `player` move in the position that the game has reached, then
/// checks the game. The player is asked only where a legal move exists, and
/// a move that the rules refuse is not played.
pub fn half_move<P: Player>(game: &mut Game, player: &P) -> (over: bool)
    ensures
        over == (game_result(*final(game)) is Some),
        exists|answer: Option<ChessMove>| #[trigger]
            answers(player, *old(game), answer) && *final(game) == half_moved(*old(game), answer),
{
    let board = current_position(game);
    let ghost answer: Option<ChessMove>;
    if legal_moves(&board).len() > 0 {
        let mv = player.make_move(&board);
        play_move(game, mv);
        proof {
            answer = Some(mv);
        }
    } else {
        proof {
            answer = None;
        }
    }
    let over = check_game(game);
    assert(answers(player, *old(game), answer) && *game == half_moved(*old(game), answer));
    over
}

/// The game after the first `k` half-moves of `trace`, played from `start`.
pub open spec fn game_at(start: Game, trace: Seq<Option<ChessMove>>, k: int) -> Game
    decreases k,
{
    if k <= 0 {
        start
    } else {
        half_moved(game_at(start, trace, k - 1), trace[k - 1])
    }
}

/// Whether `trace` holds the players' answers in turn, from `start`: White
/// answers the first half-move and every second one after it, Black the
/// others; each answers for the game as the half-moves before have left it;
/// and no half-move is played in a game that has a result.
pub open spec fn in_turn<W: Player, B: Player>(
    white: &W,
    black: &B,
    start: Game,
    trace: Seq<Option<ChessMove>>,
) -> bool {
    forall|k: int|
        0 <= k < trace.len() ==> {
            &&& game_result(#[trigger] game_at(start, trace, k)) is None
            &&& k % 2 == 0 ==> answers(white, game_at(start, trace, k), trace[k])
            &&& k % 2 == 1 ==> answers(black, game_at(start, trace, k), trace[k])
        }
}

/// Whether `end` is what playing makes of `start`, with `trace` as the
/// answers of the half-moves and `rounds` as their count in rounds: the
/// players answer in turn, every answer is handed to the game and the game
/// is checked, play stops at the first result, and a game that is left
/// without a result was played for `MOVE_CAP` full rounds. A round that the
/// end of the game cuts short after White's half-move counts as a round.
pub open spec fn plays<W: Player, B: Player>(
    white: &W,
    black: &B,
    start: Game,
    trace: Seq<Option<ChessMove>>,
    end: Game,
    rounds: int,
) -> bool {
    &&& in_turn(white, black, start, trace)
    &&& end == game_at(start, trace, trace.len() as int)
    &&& rounds == (trace.len() + 1) / 2
    &&& rounds <= MOVE_CAP
    &&& game_result(end) is None ==> trace.len() == 2 * MOVE_CAP
}

/// The games along a trace are those along any longer trace.
proof fn game_at_longer(start: Game, trace: Seq<Option<ChessMove>>, answer: Option<ChessMove>, k: int)
    requires
        k <= trace.len(),
    ensures
        game_at(start, trace.push(answer), k) == game_at(start, trace, k),
    decreases k,
{
    if k > 0 {
        game_at_longer(start, trace, answer, k - 1);
    }
}

/// A trace of answers in turn stays one when the next player answers for
/// the game that it has led to.
proof fn in_turn_goes_on<W: Player, B: Player>(
    white: &W,
    black: &B,
    start: Game,
    trace: Seq<Option<ChessMove>>,
    answer: Option<ChessMove>,
)
    requires
        in_turn(white, black, start, trace),
        game_result(game_at(start, trace, trace.len() as int)) is None,
        trace.len() % 2 == 0 ==> answers(white, game_at(start, trace, trace.len() as int), answer),
        trace.len() % 2 == 1 ==> answers(black, game_at(start, trace, trace.len() as int), answer),
    ensures
        in_turn(white, black, start, trace.push(answer)),
        game_at(start, trace.push(answer), trace.len() as int + 1) == half_moved(
            game_at(start, trace, trace.len() as int),
            answer,
        ),
{
    let longer = trace.push(answer);
    assert forall|k: int| 0 <= k < longer.len() implies {
        &&& game_result(#[trigger] game_at(start, longer, k)) is None
        &&& k % 2 == 0 ==> answers(white, game_at(start, longer, k), longer[k])
        &&& k % 2 == 1 ==> answers(black, game_at(start, longer, k), longer[k])
    } by {
        game_at_longer(start, trace, answer, k);
        if k < trace.len() {
            assert(game_result(game_at(start, trace, k)) is None);
        }
    }
    game_at_longer(start, trace, answer, trace.len() as int);
}

/// Plays the rounds of a game from where it stands: White and Black move in
/// turn, the game is checked after every move, and play stops when the game
/// is over or after `MOVE_CAP` rounds. The answer is the number of rounds
/// that were played; a game that is left without a result ran into the cap,
/// and a game that was over is left as it was.
pub fn play_rounds<W: Player, B: Player>(game: &mut Game, white: &W, black: &B) -> (rounds: u32)
    ensures
        exists|trace: Seq<Option<ChessMove>>| #[trigger]
            plays(white, black, *old(game), trace, *final(game), rounds as int),
        rounds <= MOVE_CAP,
        game_result(*final(game)) is None ==> rounds == MOVE_CAP,
        game_result(*old(game)) is None ==> rounds >= 1,
        game_result(*old(game)) is Some ==> rounds == 0 && *final(game) == *old(game),
{
    let mut over = result_of(game).is_some();
    let mut round: u32 = 0;
    let ghost mut trace: Seq<Option<ChessMove>> = Seq::empty();
    while !over && round < MOVE_CAP
        invariant
            round <= MOVE_CAP,
            over == (game_result(*game) is Some),
            game_result(*old(game)) is Some ==> round == 0 && *game == *old(game),
            game_result(*old(game)) is None && over ==> round >= 1,
            in_turn(white, black, *old(game), trace),
            *game == game_at(*old(game), trace, trace.len() as int),
            trace.len() == 2 * round || (over && trace.len() == 2 * round - 1),
        decreases MOVE_CAP - round,
    {
        let ghost before = *game;
        over = half_move(game, white);
        proof {
            let answer = choose|answer: Option<ChessMove>| #[trigger]
                answers(white, before, answer) && *game == half_moved(before, answer);
            in_turn_goes_on(white, black, *old(game), trace, answer);
            trace = trace.push(answer);
        }
        if !over {
            let ghost before = *game;
            over = half_move(game, black);
            proof {
                let answer = choose|answer: Option<ChessMove>| #[trigger]
                    answers(black, before, answer) && *game == half_moved(before, answer);
                in_turn_goes_on(white, black, *old(game), trace, answer);
                trace = trace.push(answer);
            }
        }
        round += 1;
    }
    assert(plays(white, black, *old(game), trace, *game, round as int));
    round
}

/// Plays `game` on from where it stands, as `play_rounds` does. The answer
/// is the game's own result, `None` for a game that the cap cut short.
pub fn play_out<W: Player, B: Player>(game: &mut Game, white: &W, black: &B) -> (result: Option<GameResult>)
    ensures
        result == game_result(*final(game)),
        exists|trace: Seq<Option<ChessMove>>, rounds: int| #[trigger]
            plays(white, black, *old(game), trace, *final(game), rounds),
        game_result(*old(game)) is Some ==> *final(game) == *old(game),
{
    let rounds = play_rounds(game, white, black);
    proof {
        let trace = choose|trace: Seq<Option<ChessMove>>| #[trigger]
            plays(white, black, *old(game), trace, *game, rounds as int);
        assert(plays(white, black, *old(game), trace, *game, rounds as int));
    }
    result_of(game)
}

/// A game that was played from the initial position.
pub struct Played {
    /// The game as it was left.
    pub game: Game,
    /// The result of the game, `None` where the cap cut it short.
    pub result: Option<GameResult>,
    /// The rounds that were played, the one in which the game ended included.
    pub rounds: u32,
}

/// Whether `game` is a game before its first move: at the initial position,
/// without a result and without a draw to declare.
pub open spec fn is_start(game: Game) -> bool {
    &&& fen_of(position_of(game)) == start_fen()
    &&& game_result(game) is None
    &&& !draw_claimable(game)
}

/// Whether `played` is a game of `white` against `black`: played from the
/// initial position as `plays` says, with White to answer first, and with
/// the result of the game as it was left.
pub open spec fn game_between<W: Player, B: Player>(white: &W, black: &B, played: Played) -> bool {
    &&& played.result == game_result(played.game)
    &&& exists|start: Game, trace: Seq<Option<ChessMove>>|
        is_start(start) && #[trigger] plays(white, black, start, trace, played.game, played.rounds as int)
}

/// Simulates one full game from the initial position: the players move in
/// turn until the game is over, for `MOVE_CAP` rounds at most. The result is
/// that of the game as it is left, and a game without one ran into the cap.
pub fn play_game<W: Player, B: Player>(white: &W, black: &B) -> (played: Played)
    ensures
        game_between(white, black, played),
        played.result == game_result(played.game),
        1 <= played.rounds <= MOVE_CAP,
        played.result is None ==> played.rounds == MOVE_CAP,
{
    let mut game = new_game();
    let ghost start = game;
    let rounds = play_rounds(&mut game, white, black);
    let result = result_of(&game);
    let ghost trace = choose|trace: Seq<Option<ChessMove>>| #[trigger]
        plays(white, black, start, trace, game, rounds as int);
    let played = Played { game, result, rounds };
    assert(is_start(start) && plays(white, black, start, trace, played.game, played.rounds as int));
    played
}

/// The breeding partner of one member, with the fitness pair of the two:
/// the member's wins over the partner, then the partner's over the member.
#[derive(Clone, Copy, Debug, PartialEq, Eq)]
pub struct Pairing {
    pub partner: usize,
    pub fitness: (u64, u64),
}

/// Whether `pairing` is the pairing of member `i` with its partner under
/// `matrix`.
pub open spec fn pairs_with(matrix: WinMatrix, i: int, pairing: Pairing) -> bool {
    &&& pairing.partner < matrix.size()
    &&& pairing.fitness.0 == matrix@[i][pairing.partner as int]
    &&& pairing.fitness.1 == matrix@[pairing.partner as int][i]
}

/// The pairing of member `i` with the partner `j` that was drawn for it.
pub fn pairing(scores: &WinMatrix, i: usize, j: usize) -> (pairing: Pairing)
    requires
        scores.wf(),
        i < scores.size(),
        j < scores.size(),
    ensures
        pairing.partner == j,
        pairs_with(*scores, i as int, pairing),
{
    Pairing { partner: j, fitness: (scores.get(i, j), scores.get(j, i)) }
}

/// The selection phase: for every member, in population order, draws a
/// partner from the whole population with the members' totals as weights.
/// Draws are independent, so one member may be the partner of many.
pub fn pair_up(scores: &WinMatrix) -> (pairs: Vec<Pairing>)
    requires
        scores.wf(),
    ensures
        pairs@.len() == scores.size(),
        forall|i: int| 0 <= i < scores.size() ==> pairs_with(*scores, i, #[trigger] pairs@[i]),
{
    let n = scores.len();
    let totals = scores.totals();
    let mut pairs: Vec<Pairing> = Vec::new();
    proof {
        if n > 0 {
            seeded_matrix_gives_distributions(*scores);
        }
    }
    // Only an empty population has no distribution, and it needs no pairs.
    let dist = match distribution(&totals) {
        Some(dist) => dist,
        None => {
            return pairs;
        },
    };
    let mut i: usize = 0;
    while i < n
        invariant
            i <= n,
            n == scores.size(),
            scores.wf(),
            index_weights(dist).len() == n,
            pairs@.len() == i,
            forall|a: int| 0 <= a < i ==> pairs_with(*scores, a, #[trigger] pairs@[a]),
        decreases n - i,
    {
        let j = sample_index(&dist);
        pairs.push(pairing(scores, i, j));
        i += 1;
    }
    pairs
}

/// Whether `result` is the result of a game of `white` against `black`.
pub open spec fn result_between<W: Player, B: Player>(white: &W, black: &B, result: Option<GameResult>) -> bool {
    exists|played: Played| #[trigger] game_between(white, black, played) && played.result == result
}

/// Whether `results` is the table of a round robin of `members`: entry
/// `[i][j]` is the result of a game of member `i` as White against member
/// `j` as Black, for every ordered pair, a member against itself included.
pub open spec fn tabled<P: Player>(members: Seq<P>, results: Seq<Vec<Option<GameResult>>>) -> bool {
    &&& is_square(results, members.len() as int)
    &&& forall|i: int, j: int|
        0 <= i < members.len() && 0 <= j < members.len() ==> result_between(
            &members[i],
            &members[j],
            #[trigger] results[i]@[j],
        )
}

/// Plays one game for every ordered pair of members, a member against
/// itself included: entry `[i][j]` of the table is the game of `i` as White
/// against `j` as Black.
pub fn play_all<P: Player>(members: &Vec<P>) -> (results: ResultTable)
    ensures
        tabled(members@, results@),
{
    let n = members.len();
    let mut results: ResultTable = Vec::new();
    let mut i: usize = 0;
    while i < n
        invariant
            i <= n,
            n == members@.len(),
            results@.len() == i,
            forall|a: int| 0 <= a < i ==> (#[trigger] results@[a])@.len() == n,
            forall|a: int, b: int|
                0 <= a < i && 0 <= b < n ==> result_between(
                    &members@[a],
                    &members@[b],
                    #[trigger] results@[a]@[b],
                ),
        decreases n - i,
    {
        let mut row: Vec<Option<GameResult>> = Vec::new();
        let mut j: usize = 0;
        while j < n
            invariant
                i < n,
                j <= n,
                n == members@.len(),
                row@.len() == j,
                forall|b: int|
                    0 <= b < j ==> result_between(&members@[i as int], &members@[b], #[trigger] row@[b]),
            decreases n - j,
        {
            let played = play_game(&members[i], &members[j]);
            assert(result_between(&members@[i as int], &members@[j as int], played.result));
            row.push(played.result);
            j += 1;
        }
        results.push(row);
        i += 1;
    }
    results
}

/// A round robin that was played: the result of every game, and the win
/// matrix that counts them.
pub struct RoundRobin {
    pub results: ResultTable,
    pub scores: WinMatrix,
}

/// The round-robin phase: plays one game for every ordered pair of members
/// and counts the win matrix, which is complete only when every game is
/// over. `None`, before any game, for a population larger than
/// `MAX_POPULATION`.
pub fn round_robin<P: Player>(members: &Vec<P>) -> (played: Option<RoundRobin>)
    ensures
        played is Some <==> members@.len() <= MAX_POPULATION,
        played matches Some(r) ==> tabled(members@, r.results@) && counted(r.results@, r.scores),
{
    if members.len() > MAX_POPULATION {
        return None;
    }
    let results = play_all(members);
    let scores = WinMatrix::tally(&results).unwrap();
    Some(RoundRobin { results, scores })
}

/// The wins of a champion in its two games against one earlier champion:
/// one for a checkmate as White in the first, one for a checkmate as Black
/// in the second.
pub fn pair_wins(as_white: &Option<GameResult>, as_black: &Option<GameResult>) -> (won: i32)
    ensures
        won == white_win(*as_white) + black_win(*as_black),
{
    let mut won: i32 = 0;
    if is_white_win(as_white) {
        won += 1;
    }
    if is_black_win(as_black) {
        won += 1;
    }
    won
}

/// The most earlier champions that one evaluation takes: twice as many
/// wins fit an `i32`.
pub const MAX_OPPONENTS: usize = 0x3fff_ffff;

/// What an evaluation found: the two games against every opponent, the
/// champion's game as White first, and the champion's wins in them.
pub struct Evaluation {
    pub games: Vec<(Option<GameResult>, Option<GameResult>)>,
    pub wins: i32,
}

/// The wins of a champion in the games of an evaluation: for every pair,
/// one for a checkmate as White in the first game and one for a checkmate as
/// Black in the second.
pub open spec fn evaluation_wins(games: Seq<(Option<GameResult>, Option<GameResult>)>) -> int
    decreases games.len(),
{
    if games.len() == 0 {
        0
    } else {
        evaluation_wins(games.drop_last()) + white_win(games.last().0) + black_win(games.last().1)
    }
}

/// Whether `evaluation` is an evaluation of `champion` against `opponents`:
/// for every opponent, in their order, the result of a game of the champion
/// as White against it and the result of a game of it as White against the
/// champion; and as wins the champion's wins in those games.
pub open spec fn evaluation_of<P: Player>(champion: &P, opponents: Seq<P>, evaluation: Evaluation) -> bool {
    &&& evaluation.games@.len() == opponents.len()
    &&& forall|i: int|
        0 <= i < opponents.len() ==> {
            &&& result_between(champion, &opponents[i], (#[trigger] evaluation.games@[i]).0)
            &&& result_between(&opponents[i], champion, evaluation.games@[i].1)
        }
    &&& evaluation.wins == evaluation_wins(evaluation.games@)
}

/// Evaluates a champion: against every earlier champion it plays one game
/// as White and one as Black, and its wins are counted. The games are handed
/// back with the count, one pair for each opponent in their order.
pub fn evaluate<P: Player>(champion: &P, opponents: &Vec<P>) -> (evaluation: Evaluation)
    requires
        opponents@.len() <= MAX_OPPONENTS,
    ensures
        evaluation_of(champion, opponents@, evaluation),
        0 <= evaluation.wins <= 2 * opponents@.len(),
{
    let mut games: Vec<(Option<GameResult>, Option<GameResult>)> = Vec::new();
    let mut wins: i32 = 0;
    let mut i: usize = 0;
    while i < opponents.len()
        invariant
            i <= opponents@.len() <= MAX_OPPONENTS,
            games@.len() == i,
            wins == evaluation_wins(games@),
            0 <= wins <= 2 * i,
            forall|k: int|
                0 <= k < i ==> {
                    &&& result_between(champion, &opponents@[k], (#[trigger] games@[k]).0)
                    &&& result_between(&opponents@[k], champion, games@[k].1)
                },
        decreases opponents.len() - i,
    {
        let first = play_game(champion, &opponents[i]);
        let second = play_game(&opponents[i], champion);
        let as_white = first.result;
        let as_black = second.result;
        wins += pair_wins(&as_white, &as_black);
        proof {
            assert(games@.push((as_white, as_black)).drop_last() =~= games@);
            assert(result_between(champion, &opponents@[i as int], first.result));
            assert(result_between(&opponents@[i as int], champion, second.result));
        }
        games.push((as_white, as_black));
        i += 1;
    }
    Evaluation { games, wins }
}

/// The child that is bred for one slot of the population: the partner that
/// was drawn for the slot's member, and the plan of the child's scalars.
pub struct Offspring {
    pub pairing: Pairing,
    pub plan: Vec<LayerPlan>,
}

/// Whether `child` is a child for slot `i`: its partner is paired under
/// `scores`, and its plan follows the member's shape and the pair's fitness.
pub open spec fn bred_for(scores: WinMatrix, shapes: Seq<Vec<LayerShape>>, i: int, child: Offspring) -> bool {
    &&& pairs_with(scores, i, child.pairing)
    &&& genome_follows(child.plan@, shapes[i]@, child.pairing.fitness)
}

/// Whether all members of a population have the same layers.
pub open spec fn uniform_shapes(shapes: Seq<Vec<LayerShape>>) -> bool {
    forall|i: int, j: int| 0 <= i < shapes.len() && 0 <= j < shapes.len() ==> shapes[i]@ == shapes[j]@
}

/// The selection phase and the breeding: pairs every member with a partner
/// drawn by fitness and plans their child, slot by slot in population order.
/// `shapes` holds the members' layer shapes.
///
/// Fails only where `shapes` is not one entry per member, or a member and
/// its partner differ in shape.
pub fn breed(shapes: &Vec<Vec<LayerShape>>, scores: &WinMatrix) -> (children: Result<Vec<Offspring>, CrossoverError>)
    requires
        scores.wf(),
    ensures
        shapes@.len() == scores.size() && uniform_shapes(shapes@) ==> children is Ok,
        shapes@.len() != scores.size() ==> children is Err,
        children matches Ok(bred) ==> {
            &&& bred@.len() == scores.size()
            &&& forall|i: int| 0 <= i < scores.size() ==> bred_for(*scores, shapes@, i, #[trigger] bred@[i])
        },
        children matches Err(e) ==> e == CrossoverError::ShapeMismatch,
{
    let n = scores.len();
    if shapes.len() != n {
        return Err(CrossoverError::ShapeMismatch);
    }
    let pairs = pair_up(scores);
    let mut bred: Vec<Offspring> = Vec::new();
    let mut i: usize = 0;
    while i < n
        invariant
            i <= n,
            n == scores.size(),
            n == shapes@.len(),
            scores.wf(),
            pairs@.len() == n,
            forall|a: int| 0 <= a < n ==> pairs_with(*scores, a, #[trigger] pairs@[a]),
            bred@.len() == i,
            forall|a: int| 0 <= a < i ==> bred_for(*scores, shapes@, a, #[trigger] bred@[a]),
        decreases n - i,
    {
        let pairing = pairs[i];
        proof {
            assert(pairs_with(*scores, i as int, pairing));
            seeded_matrix_gives_distributions(*scores);
            assert(0 < scores@[i as int][pairing.partner as int] + scores@[pairing.partner as int][i as int]
                <= u64::MAX);
        }
        match crossover(&shapes[i], &shapes[pairing.partner], pairing.fitness) {
            Ok(plan) => {
                bred.push(Offspring { pairing, plan });
            },
            Err(e) => {
                return Err(e);
            },
        }
        i += 1;
    }
    Ok(bred)
}

/// What one generation decides before anything is written: the games of
/// its round robin and their win matrix, the child planned for every slot,
/// and the champion.
pub struct Generation {
    pub results: ResultTable,
    pub scores: WinMatrix,
    pub children: Vec<Offspring>,
    pub champion: usize,
}

/// Whether `generation` is a generation of a population with the given
/// shapes: one game for every ordered pair of members, the win matrix that
/// counts them, one child bred for every slot, and as champion the first
/// member with the greatest total.
pub open spec fn generation_of(shapes: Seq<Vec<LayerShape>>, generation: Generation) -> bool {
    &&& generation.results@.len() == shapes.len()
    &&& counted(generation.results@, generation.scores)
    &&& generation.children@.len() == shapes.len()
    &&& forall|i: int|
        0 <= i < shapes.len() ==> bred_for(generation.scores, shapes, i, #[trigger] generation.children@[i])
    &&& is_first_max(generation.scores.totals_spec(), generation.champion as int)
}

/// Why an arena cannot be set up or go on.
#[derive(Clone, Copy, Debug, PartialEq, Eq, Structural)]
pub enum ArenaError {
    /// A population needs at least one member.
    EmptyPopulation,
    /// The population is larger than `MAX_POPULATION`, the most that a
    /// round robin takes.
    PopulationTooLarge,
    /// The next generation does not have the population's size.
    SizeChanged,
    /// The shapes are not one per member, or a member and its partner
    /// differ in shape.
    ShapeMismatch,
    /// More earlier champions than `MAX_OPPONENTS`.
    TooManyOpponents,
    /// The event does not belong to the stage that the run is in.
    OutOfTurn,
}

/// Where a run stands within a generation.
#[derive(Clone, Copy, Debug, PartialEq, Eq, Structural)]
pub enum Stage {
    /// Between generations: the next one can begin.
    Ready,
    /// The round robin is played and the children are planned; they are
    /// being built.
    Breeding,
    /// The population is replaced; its checkpoints are being written and
    /// the earlier champions read back.
    Saving,
    /// The champion is evaluated; its record is being appended to the
    /// ledger.
    Logging,
}

/// What has happened outside the arena.
pub enum Event<P> {
    /// The next generation may begin. These are the members' layer shapes,
    /// in population order.
    Start(Vec<Vec<LayerShape>>),
    /// The children are built. This is the next generation, slot by slot.
    Bred(Vec<P>),
    /// Every checkpoint is written, and these are the champions that the
    /// ledger records, read back from their checkpoints.
    Saved(Vec<P>),
    /// The record is appended to the ledger and flushed.
    Logged,
}

/// What is to happen outside the arena next.
pub enum Action {
    /// Hand in the members' shapes to begin the next generation.
    Begin,
    /// Build the child of every slot from its member, its partner and its
    /// plan.
    Breed(Generation),
    /// Write the checkpoint of every member to these paths, in population
    /// order, then read back the champions of the ledger.
    Save(Vec<String>),
    /// Append this record to the ledger and flush it.
    Log(ChampionRecord),
    /// Every generation is run.
    Done,
    /// The event is refused and nothing has changed.
    Refused(ArenaError),
}

/// The tournament engine's state: the population, the number of
/// generations to run, the directory of the run's files, and how far the
/// run has come.
pub struct Arena<P> {
    num_members: usize,
    num_epochs: i32,
    members: Vec<P>,
    log_dir: String,
    epoch: i32,
    stage: Stage,
    champion: usize,
    veteran: Option<P>,
}

impl<P> Arena<P> {
    /// The population, in order.
    pub closed spec fn population(&self) -> Seq<P> {
        self.members@
    }

    /// The number of generations of the run.
    pub closed spec fn epochs(&self) -> i32 {
        self.num_epochs
    }

    /// The directory of the run's files.
    pub closed spec fn directory(&self) -> Seq<char> {
        self.log_dir@
    }

    /// The population size that the arena was set up with.
    pub closed spec fn size(&self) -> int {
        self.num_members as int
    }

    /// The number of generations that are complete, which is the index of
    /// the generation in hand.
    pub closed spec fn generations_done(&self) -> i32 {
        self.epoch
    }

    /// The stage of the generation in hand.
    pub closed spec fn stage_spec(&self) -> Stage {
        self.stage
    }

    /// The index of the champion of the generation in hand, once its round
    /// robin is played.
    pub closed spec fn champion_index(&self) -> usize {
        self.champion
    }

    /// The champion of the generation in hand, kept from the population
    /// that played while the next one is saved.
    pub closed spec fn kept_champion(&self) -> Option<P> {
        self.veteran
    }

    /// The population has the size that the arena was set up with, which is
    /// at least one; a generation is in hand
    /// only while generations are left; and while the new population is
    /// saved the champion of the old one is kept.
    #[verifier::type_invariant]
    pub closed spec fn wf(&self) -> bool {
        &&& self.num_members == self.members@.len()
        &&& 1 <= self.num_members
        &&& 0 <= self.epoch
        &&& self.champion < self.num_members
        &&& self.stage != Stage::Ready ==> self.epoch < self.num_epochs
        &&& self.stage == Stage::Saving ==> self.veteran is Some
    }

    /// Whether everything but the stage's own data is the same in `self`
    /// and `other`: size, number of generations and directory.
    pub open spec fn same_run(&self, other: &Self) -> bool {
        &&& self.size() == other.size()
        &&& self.epochs() == other.epochs()
        &&& self.directory() == other.directory()
    }

    /// Whether `self` stands exactly where `other` stands.
    pub open spec fn unchanged(&self, other: &Self) -> bool {
        &&& self.same_run(other)
        &&& self.population() == other.population()
        &&& self.generations_done() == other.generations_done()
        &&& self.stage_spec() == other.stage_spec()
        &&& self.champion_index() == other.champion_index()
        &&& self.kept_champion() == other.kept_champion()
    }
}

/// Whether `paths` are the checkpoints of generation `epoch` in `directory`,
/// one for each of `size` members.
pub open spec fn checkpoints_of(directory: Seq<char>, epoch: i32, size: int, paths: Seq<String>) -> bool {
    &&& paths.len() == size
    &&& forall|i: int|
        0 <= i < size ==> (#[trigger] paths[i])@ == directory + "/"@ + checkpoint_name_spec(epoch, i as usize)
}

/// Whether the arena may go from `before` to `after` on `event`, answering
/// with `action`. A generation runs through its stages in order:
///
/// - `Ready`, on `Start`: with no generation left the answer is `Done`.
///   Otherwise the round robin is played, the children are planned and the
///   champion is found, and the answer is `Breed`; a population that is too
///   large for a round robin, or shapes that do not fit, are refused.
/// - `Breeding`, on `Bred`: the whole population is replaced by the
///   children, the champion of the old population is kept, and the answer
///   is `Save` with the checkpoints of the generation.
/// - `Saving`, on `Saved`: the kept champion plays the earlier champions,
///   and the answer is `Log` with its record.
/// - `Logging`, on `Logged`: the generation is complete, and the answer is
///   `Begin` while generations are left and `Done` after the last.
///
/// Any other event is refused as out of turn, and a refusal changes
/// nothing.
pub open spec fn steps<P: Player>(before: Arena<P>, event: Event<P>, after: Arena<P>, action: Action) -> bool {
    match (before.stage_spec(), event) {
        (Stage::Ready, Event::Start(shapes)) => {
            if before.generations_done() >= before.epochs() {
                action is Done && after.unchanged(&before)
            } else {
                match action {
                    Action::Breed(generation) => {
                        &&& generation_of(shapes@, generation)
                        &&& tabled(before.population(), generation.results@)
                        &&& shapes@.len() == before.size()
                        &&& after.stage_spec() == Stage::Breeding
                        &&& after.champion_index() == generation.champion
                        &&& after.population() == before.population()
                        &&& after.generations_done() == before.generations_done()
                    },
                    Action::Refused(e) => {
                        &&& e == (if before.size() > MAX_POPULATION {
                            ArenaError::PopulationTooLarge
                        } else {
                            ArenaError::ShapeMismatch
                        })
                        &&& before.size() <= MAX_POPULATION ==> !(shapes@.len() == before.size()
                            && uniform_shapes(shapes@))
                        &&& after.unchanged(&before)
                    },
                    _ => false,
                }
            }
        },
        (Stage::Breeding, Event::Bred(offspring)) => {
            if offspring@.len() == before.size() {
                &&& action matches Action::Save(paths)
                &&& checkpoints_of(before.directory(), before.generations_done(), before.size(), paths@)
                &&& after.stage_spec() == Stage::Saving
                &&& after.population() == offspring@
                &&& after.kept_champion() == Some(before.population()[before.champion_index() as int])
                &&& after.champion_index() == before.champion_index()
                &&& after.generations_done() == before.generations_done()
            } else {
                action == Action::Refused(ArenaError::SizeChanged) && after.unchanged(&before)
            }
        },
        (Stage::Saving, Event::Saved(opponents)) => {
            if opponents@.len() <= MAX_OPPONENTS {
                &&& action matches Action::Log(record)
                &&& record.epoch == before.generations_done()
                &&& record.index == before.champion_index()
                &&& 0 <= record.wins <= 2 * opponents@.len()
                &&& before.kept_champion() matches Some(champion) && exists|evaluation: Evaluation| #[trigger]
                    evaluation_of(&champion, opponents@, evaluation) && record.wins == evaluation.wins
                &&& after.stage_spec() == Stage::Logging
                &&& after.population() == before.population()
                &&& after.generations_done() == before.generations_done()
            } else {
                action == Action::Refused(ArenaError::TooManyOpponents) && after.unchanged(&before)
            }
        },
        (Stage::Logging, Event::Logged) => {
            &&& after.generations_done() == before.generations_done() + 1
            &&& after.stage_spec() == Stage::Ready
            &&& after.population() == before.population()
            &&& action == (if after.generations_done() < after.epochs() {
                Action::Begin
            } else {
                Action::Done
            })
        },
        _ => action == Action::Refused(ArenaError::OutOfTurn) && after.unchanged(&before),
    }
}

impl<P: Player> Arena<P> {
    /// Sets up a run over the given population, before its first
    /// generation.
    pub fn new(members: Vec<P>, num_epochs: i32, log_dir: String) -> (arena: Result<Arena<P>, ArenaError>)
        ensures
            arena is Ok <==> 1 <= members@.len(),
            arena matches Ok(a) ==> {
                &&& a.population() == members@
                &&& a.size() == members@.len()
                &&& a.epochs() == num_epochs
                &&& a.directory() == log_dir@
                &&& a.generations_done() == 0
                &&& a.stage_spec() == Stage::Ready
            },
            arena matches Err(e) ==> e == ArenaError::EmptyPopulation,
    {
        let num_members = members.len();
        if num_members == 0 {
            Err(ArenaError::EmptyPopulation)
        } else {
            Ok(
                Arena {
                    num_members,
                    num_epochs,
                    members,
                    log_dir,
                    epoch: 0,
                    stage: Stage::Ready,
                    champion: 0,
                    veteran: None,
                },
            )
        }
    }

    /// The population size, which never changes.
    pub fn num_members(&self) -> (n: usize)
        ensures
            n == self.size(),
            n == self.population().len(),
            1 <= n,
    {
        proof {
            use_type_invariant(self);
        }
        self.num_members
    }

    /// The number of generations of the run.
    pub fn num_epochs(&self) -> (n: i32)
        ensures
            n == self.epochs(),
    {
        self.num_epochs
    }

    /// The number of generations that are complete.
    pub fn epoch(&self) -> (n: i32)
        ensures
            n == self.generations_done(),
            0 <= n,
    {
        proof {
            use_type_invariant(self);
        }
        self.epoch
    }

    /// The stage of the generation in hand.
    pub fn stage(&self) -> (stage: Stage)
        ensures
            stage == self.stage_spec(),
    {
        self.stage
    }

    /// The directory of the run's files.
    pub fn log_dir(&self) -> (dir: &str)
        ensures
            dir@ == self.directory(),
    {
        self.log_dir.as_str()
    }

    /// The members, in population order.
    pub fn members(&self) -> (members: &Vec<P>)
        ensures
            members@ == self.population(),
    {
        &self.members
    }

    /// Runs the round-robin phase over the population. `None`, before any
    /// game, for a population larger than `MAX_POPULATION`.
    pub fn round_robin(&self) -> (played: Option<RoundRobin>)
        ensures
            played is Some <==> self.size() <= MAX_POPULATION,
            played matches Some(r) ==> tabled(self.population(), r.results@) && counted(r.results@, r.scores),
    {
        proof {
            use_type_invariant(self);
        }
        round_robin(&self.members)
    }

    /// Plays one generation as far as its decisions go: the round robin
    /// first, and only when every game is over the selection and breeding,
    /// then the champion of the population that played. `shapes` holds the
    /// members' layer shapes, in population order.
    ///
    /// Fails, before any game, for a population larger than
    /// `MAX_POPULATION`; and else only where `shapes` is not one entry per
    /// member, or a member and its partner differ in shape.
    pub fn generation(&self, shapes: &Vec<Vec<LayerShape>>) -> (outcome: Result<Generation, ArenaError>)
        ensures
            self.size() <= MAX_POPULATION && shapes@.len() == self.size() && uniform_shapes(shapes@)
                ==> outcome is Ok,
            self.size() > MAX_POPULATION || shapes@.len() != self.size() ==> outcome is Err,
            outcome matches Ok(g) ==> generation_of(shapes@, g) && tabled(self.population(), g.results@),
            outcome matches Err(e) ==> e == (if self.size() > MAX_POPULATION {
                ArenaError::PopulationTooLarge
            } else {
                ArenaError::ShapeMismatch
            }),
    {
        proof {
            use_type_invariant(self);
        }
        if self.num_members > MAX_POPULATION {
            return Err(ArenaError::PopulationTooLarge);
        }
        if shapes.len() != self.num_members {
            return Err(ArenaError::ShapeMismatch);
        }
        let played = self.round_robin().unwrap();
        let children = match breed(shapes, &played.scores) {
            Ok(children) => children,
            Err(_) => {
                return Err(ArenaError::ShapeMismatch);
            },
        };
        let totals = played.scores.totals();
        let champion = champion(&totals).unwrap();
        Ok(Generation { results: played.results, scores: played.scores, children, champion })
    }

    /// The checkpoint files of generation `epoch`, one for every member in
    /// population order.
    pub fn checkpoint_paths(&self, epoch: i32) -> (paths: Vec<String>)
        ensures
            checkpoints_of(self.directory(), epoch, self.size(), paths@),
    {
        let mut paths: Vec<String> = Vec::new();
        let mut i: usize = 0;
        while i < self.num_members
            invariant
                i <= self.num_members,
                paths@.len() == i,
                forall|k: int|
                    0 <= k < i ==> (#[trigger] paths@[k])@ == self.log_dir@ + "/"@ + checkpoint_name_spec(
                        epoch,
                        k as usize,
                    ),
            decreases self.num_members - i,
        {
            paths.push(checkpoint_path(self.log_dir.as_str(), epoch, i));
            i += 1;
        }
        paths
    }

    /// The ledger file of the run.
    pub fn champs_file(&self) -> (path: String)
        ensures
            path@ == self.directory() + "/champs.csv"@,
    {
        champs_file(self.log_dir.as_str())
    }

    /// Takes the run one stage further. The caller does what the answer
    /// asks for and comes back with the event that says so; `steps` lays
    /// down the order.
    pub fn step(&mut self, event: Event<P>) -> (action: Action)
        ensures
            final(self).same_run(old(self)),
            steps(*old(self), event, *final(self), action),
    {
        proof {
            use_type_invariant(&*self);
        }
        match event {
            Event::Start(shapes) => {
                if !matches!(self.stage, Stage::Ready) {
                    return Action::Refused(ArenaError::OutOfTurn);
                }
                if self.epoch >= self.num_epochs {
                    return Action::Done;
                }
                match self.generation(&shapes) {
                    Ok(generation) => {
                        self.champion = generation.champion;
                        self.stage = Stage::Breeding;
                        Action::Breed(generation)
                    },
                    Err(e) => Action::Refused(e),
                }
            },
            Event::Bred(offspring) => {
                if !matches!(self.stage, Stage::Breeding) {
                    return Action::Refused(ArenaError::OutOfTurn);
                }
                if offspring.len() != self.num_members {
                    return Action::Refused(ArenaError::SizeChanged);
                }
                let mut played = offspring;
                std::mem::swap(&mut self.members, &mut played);
                self.veteran = Some(played.swap_remove(self.champion));
                self.stage = Stage::Saving;
                Action::Save(self.checkpoint_paths(self.epoch))
            },
            Event::Saved(opponents) => {
                if !matches!(self.stage, Stage::Saving) {
                    return Action::Refused(ArenaError::OutOfTurn);
                }
                if opponents.len() > MAX_OPPONENTS {
                    return Action::Refused(ArenaError::TooManyOpponents);
                }
                self.stage = Stage::Logging;
                let mut kept: Option<P> = None;
                std::mem::swap(&mut self.veteran, &mut kept);
                let champion = kept.unwrap();
                let evaluation = evaluate(&champion, &opponents);
                let wins = evaluation.wins;
                assert(evaluation_of(&champion, opponents@, evaluation) && wins == evaluation.wins);
                Action::Log(ChampionRecord { epoch: self.epoch, index: self.champion, wins })
            },
            Event::Logged => {
                if !matches!(self.stage, Stage::Logging) {
                    return Action::Refused(ArenaError::OutOfTurn);
                }
                self.stage = Stage::Ready;
                self.epoch = self.epoch + 1;
                if self.epoch < self.num_epochs {
                    Action::Begin
                } else {
                    Action::Done
                }
            },
        }
    }
}

} // verus!
