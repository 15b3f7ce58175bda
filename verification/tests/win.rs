use tictactoe::win::{tic_tac_toe, CELLS};

fn tracker(cells: &[usize]) -> Vec<bool> {
    let mut marks = vec![false; CELLS];
    for &cell in cells {
        marks[cell] = true;
    }
    marks
}

const LINES: [[usize; 3]; 8] =
    [[0, 1, 2], [3, 4, 5], [6, 7, 8], [0, 3, 6], [1, 4, 7], [2, 5, 8], [0, 4, 8], [2, 4, 6]];

#[test]
fn top_row_wins() {
    assert!(tic_tac_toe(&vec![true, true, true, false, false, false, false, false, false]));
}

#[test]
fn diagonal_wins() {
    assert!(tic_tac_toe(&vec![true, false, false, false, true, false, false, false, true]));
}

#[test]
fn empty_tracker_does_not_win() {
    assert!(!tic_tac_toe(&vec![false; 9]));
}

#[test]
fn each_of_the_eight_lines_wins() {
    for line in LINES {
        assert!(tic_tac_toe(&tracker(&line)), "{:?}", line);
    }
}

#[test]
fn two_of_three_never_win() {
    for line in LINES {
        for left_out in 0..3 {
            let pair: Vec<usize> =
                (0..3).filter(|&i| i != left_out).map(|i| line[i]).collect();
            assert!(!tic_tac_toe(&tracker(&pair)), "{:?}", pair);
        }
    }
}

#[test]
fn any_two_cells_never_win() {
    for first in 0..9 {
        for second in 0..9 {
            assert!(!tic_tac_toe(&tracker(&[first, second])));
        }
    }
}

#[test]
fn three_cells_off_a_line_do_not_win() {
    assert!(!tic_tac_toe(&tracker(&[0, 1, 5])));
    assert!(!tic_tac_toe(&tracker(&[0, 4, 7])));
    assert!(!tic_tac_toe(&tracker(&[1, 3, 5, 7])));
    assert!(!tic_tac_toe(&tracker(&[0, 1, 5, 6, 7])));
}

#[test]
fn extra_marks_do_not_spoil_a_line() {
    assert!(tic_tac_toe(&tracker(&[0, 1, 2, 4, 8])));
    assert!(tic_tac_toe(&tracker(&[0, 1, 2, 3, 4, 5, 6, 7, 8])));
}
