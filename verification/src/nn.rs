//! The board encoder: a position as six 8x8 planes of `+1`, `-1` and `0`.
use vstd::prelude::*;
use crate::rules::{pieces, white_pieces, piece_mask, white_mask, PieceKind};

verus! {

/// One 8x8 plane of the encoded input, indexed `[row][column]`.
pub type Plane = [[i8; 8]; 8];

/// The encoded input: six planes, one per piece kind.
pub type EncodedInput = [[[i8; 8]; 8]; 6];

/// Whether square `x` is set in the bitboard `bits`.
pub open spec fn bit_set(bits: u64, x: int) -> bool {
    0 <= x < 64 && (bits >> (x as u64)) & 1 == 1
}

/// What the encoder writes for square `x`: `+1` for a white piece of the
/// plane's kind, `-1` for a black one, `0` for none.
pub open spec fn cell_value(bitboard: u64, white: u64, x: int) -> i8 {
    if !bit_set(bitboard, x) {
        0
    } else if bit_set(white, x) {
        1i8
    } else {
        -1i8
    }
}

/// The piece kind of channel `c` of the encoded input.
pub open spec fn channel_piece(c: int) -> PieceKind {
    if c == 0 {
        PieceKind::Pawn
    } else if c == 1 {
        PieceKind::Rook
    } else if c == 2 {
        PieceKind::Knight
    } else if c == 3 {
        PieceKind::Bishop
    } else if c == 4 {
        PieceKind::King
    } else {
        PieceKind::Queen
    }
}

/// Whether `plane` encodes the bitboard `bitboard` against White's mask:
/// square `x` stands in row `x / 8`, column `x % 8`.
pub open spec fn encodes(plane: Plane, bitboard: u64, white: u64) -> bool {
    forall|i: int, j: int|
        0 <= i < 8 && 0 <= j < 8 ==> (#[trigger] plane[i][j]) == cell_value(bitboard, white, 8 * i + j)
}

fn test_bit(bits: u64, x: usize) -> (r: bool)
    requires
        x < 64,
    ensures
        r == bit_set(bits, x as int),
{
    (bits >> (x as u64)) & 1 == 1
}

/// Encodes one bitboard as a plane.
pub fn bitboard_to_array(bitboard: u64, white: u64) -> (plane: Plane)
    ensures
        encodes(plane, bitboard, white),
{
    let mut array: Plane = [[0i8; 8]; 8];
    let mut i: usize = 0;
    while i < 8
        invariant
            i <= 8,
            forall|a: int, b: int|
                0 <= a < i && 0 <= b < 8 ==> (#[trigger] array[a][b]) == cell_value(bitboard, white, 8 * a + b),
        decreases 8 - i,
    {
        let mut row: [i8; 8] = [0i8; 8];
        let mut j: usize = 0;
        while j < 8
            invariant
                i < 8,
                j <= 8,
                forall|b: int| 0 <= b < j ==> (#[trigger] row[b]) == cell_value(bitboard, white, 8 * i + b),
            decreases 8 - j,
        {
            let x: usize = 8 * i + j;
            let value: i8 = if !test_bit(bitboard, x) {
                0
            } else if test_bit(white, x) {
                1
            } else {
                -1
            };
            row[j] = value;
            j += 1;
        }
        array[i] = row;
        i += 1;
    }
    array
}

/// Whether `input` is the encoding of `board`: channel `c` encodes the
/// bitboard of `channel_piece(c)` against White's mask.
pub open spec fn is_encoding(board: chess::Board, input: EncodedInput) -> bool {
    forall|c: int|
        0 <= c < 6 ==> encodes(#[trigger] input[c], piece_mask(board, channel_piece(c)), white_mask(board))
}

/// Encodes a position: channel `c` is the plane of `channel_piece(c)`, with
/// White's pieces as `+1` whichever side is to move.
pub fn board_to_tensor(board: &chess::Board) -> (input: EncodedInput)
    ensures
        input@.len() == 6,
        forall|c: int| 0 <= c < 6 ==> (#[trigger] input[c])@.len() == 8,
        forall|c: int, r: int| 0 <= c < 6 && 0 <= r < 8 ==> (#[trigger] input[c][r])@.len() == 8,
        is_encoding(*board, input),
{
    let white = white_pieces(board);
    [
        bitboard_to_array(pieces(board, PieceKind::Pawn), white),
        bitboard_to_array(pieces(board, PieceKind::Rook), white),
        bitboard_to_array(pieces(board, PieceKind::Knight), white),
        bitboard_to_array(pieces(board, PieceKind::Bishop), white),
        bitboard_to_array(pieces(board, PieceKind::King), white),
        bitboard_to_array(pieces(board, PieceKind::Queen), white),
    ]
}

} // verus!
