use chess::{Board, ChessMove, Color, Piece, Square};
use chessers::nn::{bitboard_to_array, board_to_tensor};

#[test]
fn pawns_array() {
    let board = Board::default();
    let pawns = bitboard_to_array(board.pieces(Piece::Pawn).0, board.color_combined(Color::White).0);
    let expected = [
        [0, 0, 0, 0, 0, 0, 0, 0],
        [1, 1, 1, 1, 1, 1, 1, 1],
        [0, 0, 0, 0, 0, 0, 0, 0],
        [0, 0, 0, 0, 0, 0, 0, 0],
        [0, 0, 0, 0, 0, 0, 0, 0],
        [0, 0, 0, 0, 0, 0, 0, 0],
        [-1, -1, -1, -1, -1, -1, -1, -1],
        [0, 0, 0, 0, 0, 0, 0, 0],
    ];
    assert_eq!(pawns, expected);
}

#[test]
fn empty_bitboard_is_all_zero() {
    assert_eq!(bitboard_to_array(0, u64::MAX), [[0i8; 8]; 8]);
}

#[test]
fn single_squares_land_row_major() {
    // Square 0 is a1: row 0, column 0. Square 63 is h8: row 7, column 7.
    let white_corner = bitboard_to_array(1, 1);
    assert_eq!(white_corner[0][0], 1);
    let black_corner = bitboard_to_array(1u64 << 63, 0);
    assert_eq!(black_corner[7][7], -1);
    // Square 10 is c2: row 1, column 2.
    let c2 = bitboard_to_array(1u64 << 10, 1u64 << 10);
    let mut expected = [[0i8; 8]; 8];
    expected[1][2] = 1;
    assert_eq!(c2, expected);
}

#[test]
fn white_mask_outside_the_bitboard_is_ignored() {
    assert_eq!(bitboard_to_array(0b10, 0b01)[0], [0, -1, 0, 0, 0, 0, 0, 0]);
}

#[test]
fn start_position_channels() {
    let input = board_to_tensor(&Board::default());
    assert_eq!(input.len(), 6);
    // Pawns.
    assert_eq!(input[0][1], [1; 8]);
    assert_eq!(input[0][6], [-1; 8]);
    for row in [0, 2, 3, 4, 5, 7] {
        assert_eq!(input[0][row], [0; 8]);
    }
    // Rooks, knights, bishops, kings, queens on the back ranks.
    assert_eq!(input[1][0], [1, 0, 0, 0, 0, 0, 0, 1]);
    assert_eq!(input[1][7], [-1, 0, 0, 0, 0, 0, 0, -1]);
    assert_eq!(input[2][0], [0, 1, 0, 0, 0, 0, 1, 0]);
    assert_eq!(input[2][7], [0, -1, 0, 0, 0, 0, -1, 0]);
    assert_eq!(input[3][0], [0, 0, 1, 0, 0, 1, 0, 0]);
    assert_eq!(input[3][7], [0, 0, -1, 0, 0, -1, 0, 0]);
    assert_eq!(input[4][0], [0, 0, 0, 0, 1, 0, 0, 0]);
    assert_eq!(input[4][7], [0, 0, 0, 0, -1, 0, 0, 0]);
    assert_eq!(input[5][0], [0, 0, 0, 1, 0, 0, 0, 0]);
    assert_eq!(input[5][7], [0, 0, 0, -1, 0, 0, 0, 0]);
    for channel in 1..6 {
        for row in 1..7 {
            assert_eq!(input[channel][row], [0; 8]);
        }
    }
}

#[test]
fn white_stays_positive_when_black_is_to_move() {
    let board = Board::default().make_move_new(ChessMove::new(Square::D2, Square::D4, None));
    assert_eq!(board.side_to_move(), Color::Black);
    let input = board_to_tensor(&board);
    assert_eq!(input[0][1], [1, 1, 1, 0, 1, 1, 1, 1]);
    assert_eq!(input[0][3], [0, 0, 0, 1, 0, 0, 0, 0]);
    assert_eq!(input[0][6], [-1; 8]);
}

#[test]
fn shape_is_fixed_with_few_pieces() {
    let board: Board = "8/8/8/4k3/8/8/8/4K2R w - - 0 1".parse().unwrap();
    let input = board_to_tensor(&board);
    assert_eq!(input.len(), 6);
    for plane in input.iter() {
        assert_eq!(plane.len(), 8);
        for row in plane.iter() {
            assert_eq!(row.len(), 8);
        }
    }
    let set: usize = input.iter().flatten().flatten().filter(|&&v| v != 0).count();
    assert_eq!(set, 3);
    assert_eq!(input[4][0][4], 1);
    assert_eq!(input[4][4][4], -1);
    assert_eq!(input[1][0][7], 1);
}
