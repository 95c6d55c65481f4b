use chess::{Board, ChessMove, Square};
use chessers::ui::ConsoleUI;

#[test]
fn print_default() {
    let ui = ConsoleUI {};
    let lines = ui.update(&Board::default());
    for line in lines.iter() {
        println!("{}", line);
    }
    assert_eq!(
        lines,
        vec![
            "r n b q k b n r ",
            "p p p p p p p p ",
            ". . . . . . . . ",
            ". . . . . . . . ",
            ". . . . . . . . ",
            ". . . . . . . . ",
            "P P P P P P P P ",
            "R N B Q K B N R ",
            "",
            "",
        ]
    );
}

#[test]
fn update_after_a_move() {
    let ui = ConsoleUI {};
    let board = Board::default().make_move_new(ChessMove::new(Square::D2, Square::D4, None));
    let lines = ui.update(&board);
    assert_eq!(lines.len(), 10);
    assert_eq!(lines[4], ". . . P . . . . ");
    assert_eq!(lines[6], "P P P . P P P P ");
}

#[test]
fn render_stops_after_64_squares() {
    let lines = ConsoleUI::render("rnbqkbnr/pppppppp/8/8/8/8/PPPPPPPP/RNBQKBNR w KQkq - 0 1");
    assert_eq!(lines.len(), 10);
    assert_eq!(lines[7], "R N B Q K B N R ");
    // A slash after the board still starts a line, which stays empty.
    let lines = ConsoleUI::render("8/8/8/8/8/8/8/8 w - - 0 1/xyz");
    assert_eq!(lines.len(), 11);
    assert_eq!(lines[7], ". . . . . . . . ");
    assert_eq!(lines[8], "");
}

#[test]
fn render_of_odd_input() {
    assert_eq!(ConsoleUI::render(""), vec!["", "", ""]);
    assert_eq!(ConsoleUI::render("/"), vec!["", "", "", ""]);
    assert_eq!(ConsoleUI::render("k0K"), vec!["k K ", "", ""]);
    assert_eq!(ConsoleUI::render("3p/9"), vec![". . . p ", ". . . . . . . . . ", "", ""]);
    // Counting past 64 without meeting it never stops the drawing.
    let lines = ConsoleUI::render("9999999/9k");
    assert_eq!(lines[0].len(), 2 * 63);
    assert_eq!(lines[1], ". . . . . . . . . k ");
}
