use tictactoe::moves::{MoveError, PlayerMove};

fn cell_of(line: &str) -> usize {
    match PlayerMove::new(line) {
        Ok(point) => point.square_val,
        Err(error) => panic!("{:?} is no move: {:?}", line, error),
    }
}

#[test]
fn corner_and_centre_moves_map_to_their_cells() {
    assert_eq!(cell_of("a1"), 0);
    assert_eq!(cell_of("c3"), 8);
    assert_eq!(cell_of("b2"), 4);
}

#[test]
fn the_nine_moves_cover_the_nine_cells_once_each() {
    let lines = ["a1", "a2", "a3", "b1", "b2", "b3", "c1", "c2", "c3"];
    let mut seen = vec![false; 9];
    for (expected, line) in lines.iter().enumerate() {
        let cell = cell_of(line);
        assert_eq!(cell, expected);
        assert!(!seen[cell]);
        seen[cell] = true;
    }
    assert!(seen.iter().all(|&hit| hit));
}

#[test]
fn a_parsed_move_keeps_its_coordinates() {
    assert_eq!(
        PlayerMove::new("b3"),
        Ok(PlayerMove { coord_letter: 'b', coord_digit: 3, square_val: 5 })
    );
    assert_eq!(
        PlayerMove::new("a3"),
        Ok(PlayerMove { coord_letter: 'a', coord_digit: 3, square_val: 2 })
    );
    assert_eq!(
        PlayerMove::new("b1"),
        Ok(PlayerMove { coord_letter: 'b', coord_digit: 1, square_val: 3 })
    );
}

#[test]
fn digit_may_come_before_letter() {
    assert_eq!(cell_of("2b"), 4);
    assert_eq!(cell_of("3a"), 2);
}

#[test]
fn blanks_are_skipped() {
    assert_eq!(cell_of("b 2"), 4);
    assert_eq!(cell_of("  c   1"), 6);
}

#[test]
fn punctuation_is_skipped() {
    assert_eq!(cell_of("a-1"), 0);
    assert_eq!(cell_of("(c,2)"), 7);
    assert_eq!(cell_of("\ta\n3"), 2);
}

#[test]
fn scanning_stops_once_both_coordinates_are_known() {
    assert_eq!(cell_of("a1z9"), 0);
    assert_eq!(cell_of("a14"), 0);
    assert_eq!(cell_of("1ad"), 0);
}

#[test]
fn later_letters_and_digits_are_ignored_while_the_other_is_awaited() {
    assert_eq!(cell_of("ad1"), 0);
    assert_eq!(cell_of("cb2"), 7);
    assert_eq!(cell_of("19b"), 3);
}

#[test]
fn zero_leaves_the_column_open() {
    assert_eq!(cell_of("a01"), 0);
    assert_eq!(PlayerMove::new("a0"), Err(MoveError::InvalidInput));
    assert_eq!(PlayerMove::new("0a"), Err(MoveError::InvalidInput));
}

#[test]
fn column_above_three_is_out_of_bounds() {
    assert_eq!(PlayerMove::new("a4"), Err(MoveError::ColumnOutOfBounds('4')));
    assert_eq!(PlayerMove::new("9c"), Err(MoveError::ColumnOutOfBounds('9')));
    assert_eq!(PlayerMove::new("b04"), Err(MoveError::ColumnOutOfBounds('4')));
}

#[test]
fn out_of_bounds_message_mentions_the_digit() {
    let error = PlayerMove::new("a4").unwrap_err();
    assert!(matches!(error, MoveError::ColumnOutOfBounds(_)));
    assert!(error.message().contains('4'));
    assert_eq!(
        error.message(),
        "Invalid column: 4 is out of bounds.\nShould be between 1 and 3."
    );
}

#[test]
fn other_letters_are_invalid_rows() {
    assert_eq!(PlayerMove::new("d1"), Err(MoveError::InvalidRow('d')));
    assert_eq!(PlayerMove::new("1z"), Err(MoveError::InvalidRow('z')));
    assert_eq!(PlayerMove::new("xa1"), Err(MoveError::InvalidRow('x')));
}

#[test]
fn invalid_row_message_mentions_the_letter() {
    let error = PlayerMove::new("d1").unwrap_err();
    assert!(matches!(error, MoveError::InvalidRow(_)));
    assert!(error.message().contains('d'));
    assert_eq!(error.message(), "Invalid row: 'd' - Should be a, b or c.");
}

#[test]
fn upper_case_rows_are_rejected() {
    assert_eq!(PlayerMove::new("B2"), Err(MoveError::InvalidRow('B')));
    assert_eq!(PlayerMove::new("A1"), Err(MoveError::InvalidRow('A')));
}

#[test]
fn letters_outside_ascii_are_invalid_rows() {
    assert_eq!(PlayerMove::new("\u{e9}1"), Err(MoveError::InvalidRow('\u{e9}')));
    assert_eq!(PlayerMove::new("2\u{4eac}"), Err(MoveError::InvalidRow('\u{4eac}')));
}

#[test]
fn symbols_outside_ascii_are_skipped() {
    assert_eq!(cell_of("\u{1f49d}a\u{2192}2"), 1);
    assert_eq!(cell_of("\u{a0}c\u{3000}3"), 8);
}

#[test]
fn the_first_error_on_the_way_is_reported() {
    assert_eq!(PlayerMove::new("d4"), Err(MoveError::InvalidRow('d')));
    assert_eq!(PlayerMove::new("4d"), Err(MoveError::ColumnOutOfBounds('4')));
}

#[test]
fn a_missing_coordinate_is_invalid_input() {
    assert_eq!(PlayerMove::new(""), Err(MoveError::InvalidInput));
    assert_eq!(PlayerMove::new("a"), Err(MoveError::InvalidInput));
    assert_eq!(PlayerMove::new("ab"), Err(MoveError::InvalidInput));
    assert_eq!(PlayerMove::new("2"), Err(MoveError::InvalidInput));
    assert_eq!(PlayerMove::new("12"), Err(MoveError::InvalidInput));
    assert_eq!(PlayerMove::new("   "), Err(MoveError::InvalidInput));
    assert_eq!(PlayerMove::new("?!"), Err(MoveError::InvalidInput));
}

#[test]
fn invalid_input_has_its_message() {
    assert_eq!(MoveError::InvalidInput.message(), "Invalid letter.");
}

#[test]
fn a_record_without_a_row_letter_reports_an_invalid_letter() {
    for letter in [' ', 'd', 'A'] {
        let mut point = PlayerMove { coord_letter: letter, coord_digit: 2, square_val: 3 };
        let error = point.compute_square_val().unwrap_err();
        assert_eq!(error, MoveError::InvalidInput);
        assert_eq!(error.message(), "Invalid letter.");
        assert_eq!(point, PlayerMove { coord_letter: letter, coord_digit: 2, square_val: 3 });
    }
    assert_eq!(PlayerMove::new("12").unwrap_err().message(), "Invalid letter.");
}

#[test]
fn parsing_is_repeatable() {
    for line in ["a1", "c 3", "d1", "a4", "", "b"] {
        assert_eq!(PlayerMove::new(line), PlayerMove::new(line));
    }
}

#[test]
fn blank_record_has_nothing_read() {
    let point = PlayerMove::blank();
    assert_eq!(point, PlayerMove { coord_letter: ' ', coord_digit: 0, square_val: 0 });
    assert!(!point.is_complete());
}

#[test]
fn record_is_complete_with_both_coordinates() {
    assert!(!PlayerMove { coord_letter: 'a', coord_digit: 0, square_val: 0 }.is_complete());
    assert!(!PlayerMove { coord_letter: ' ', coord_digit: 2, square_val: 0 }.is_complete());
    assert!(PlayerMove { coord_letter: 'a', coord_digit: 2, square_val: 0 }.is_complete());
}

#[test]
fn read_char_takes_the_first_digit_only() {
    let mut point = PlayerMove::blank();
    assert_eq!(point.read_char('2', false), Ok(()));
    assert_eq!(point.coord_digit, 2);
    assert_eq!(point.read_char('3', false), Ok(()));
    assert_eq!(point.coord_digit, 2);
    assert_eq!(point.read_char('7', false), Ok(()));
    assert_eq!(point, PlayerMove { coord_letter: ' ', coord_digit: 2, square_val: 0 });
}

#[test]
fn read_char_takes_the_first_row_letter_only() {
    let mut point = PlayerMove::blank();
    assert_eq!(point.read_char('c', true), Ok(()));
    assert_eq!(point.coord_letter, 'c');
    assert_eq!(point.read_char('a', true), Ok(()));
    assert_eq!(point.read_char('q', true), Ok(()));
    assert_eq!(point, PlayerMove { coord_letter: 'c', coord_digit: 0, square_val: 0 });
}

#[test]
fn read_char_rejects_and_leaves_the_record_alone() {
    let mut point = PlayerMove { coord_letter: ' ', coord_digit: 0, square_val: 0 };
    assert_eq!(point.read_char('5', false), Err(MoveError::ColumnOutOfBounds('5')));
    assert_eq!(point, PlayerMove::blank());
    assert_eq!(point.read_char('k', true), Err(MoveError::InvalidRow('k')));
    assert_eq!(point, PlayerMove::blank());
}

#[test]
fn read_char_skips_what_is_no_letter() {
    let mut point = PlayerMove::blank();
    assert_eq!(point.read_char('k', false), Ok(()));
    assert_eq!(point.read_char(' ', true), Ok(()));
    assert_eq!(point.read_char('0', false), Ok(()));
    assert_eq!(point, PlayerMove::blank());
}

#[test]
fn compute_square_val_follows_the_row_offsets() {
    let expected = [('a', 1, 0), ('a', 2, 1), ('a', 3, 2), ('b', 1, 3), ('b', 2, 4), ('b', 3, 5),
        ('c', 1, 6), ('c', 2, 7), ('c', 3, 8)];
    for (letter, digit, cell) in expected {
        let mut point = PlayerMove { coord_letter: letter, coord_digit: digit, square_val: 99 };
        assert_eq!(point.compute_square_val(), Ok(cell));
        assert_eq!(point, PlayerMove { coord_letter: letter, coord_digit: digit, square_val: cell });
    }
}

#[test]
fn compute_square_val_refuses_what_names_no_cell() {
    for (letter, digit) in [(' ', 1), ('d', 2), ('A', 3), ('a', 0), ('b', 4), ('c', -1)] {
        let mut point = PlayerMove { coord_letter: letter, coord_digit: digit, square_val: 7 };
        assert_eq!(point.compute_square_val(), Err(MoveError::InvalidInput));
        assert_eq!(point, PlayerMove { coord_letter: letter, coord_digit: digit, square_val: 7 });
    }
}
