use tictactoe::field::{create_field, FieldError, BLANK, PLACEHOLDER};

const TEMPLATE: &str = "     1   2   3\n   +---+---+---+\n a | r | r | r |\n   +---+---+---+\n b | r | r | r |\n   +---+---+---+\n c | r | r | r |\n   +---+---+---+\n";

#[test]
fn placeholder_and_blank_are_r_and_space() {
    assert_eq!(PLACEHOLDER, 'r');
    assert_eq!(BLANK, ' ');
}

#[test]
fn eight_placeholders_are_refused() {
    assert_eq!(create_field("rrrr-rrrr").unwrap_err(), FieldError::WrongCellCount(8));
}

#[test]
fn ten_placeholders_are_refused() {
    assert_eq!(create_field("rrrrr rrrrr").unwrap_err(), FieldError::WrongCellCount(10));
}

#[test]
fn empty_template_is_refused() {
    assert_eq!(create_field("").unwrap_err(), FieldError::WrongCellCount(0));
    assert_eq!(create_field("no cells he\u{280}e").unwrap_err(), FieldError::WrongCellCount(0));
}

#[test]
fn nine_bare_placeholders_load() {
    let field = create_field("rrrrrrrrr").unwrap();
    assert_eq!(field.cells(), &vec![' '; 9]);
    assert_eq!(field.indices(), &vec![0, 1, 2, 3, 4, 5, 6, 7, 8]);
}

#[test]
fn decorations_are_kept_and_placeholders_blanked() {
    let field = create_field("r1r2r3|r4r5r6|r7r8r9").unwrap();
    let picture: String = field.cells().iter().collect();
    assert_eq!(picture, " 1 2 3| 4 5 6| 7 8 9");
    assert_eq!(field.indices(), &vec![0, 2, 4, 7, 9, 11, 14, 16, 18]);
}

#[test]
fn board_template_loads() {
    let field = create_field(TEMPLATE).unwrap();
    let expected: Vec<char> =
        TEMPLATE.chars().map(|c| if c == 'r' { ' ' } else { c }).collect();
    assert_eq!(field.cells(), &expected);
    let places: Vec<usize> =
        TEMPLATE.chars().enumerate().filter(|(_, c)| *c == 'r').map(|(i, _)| i).collect();
    assert_eq!(places.len(), 9);
    assert_eq!(field.indices(), &places);
    for &place in field.indices() {
        assert_eq!(field.cells()[place], ' ');
    }
}

#[test]
fn places_count_characters_not_bytes() {
    let field = create_field("\u{250c}r\u{2500}r\u{2510}rrrrrrr").unwrap();
    assert_eq!(field.cells().len(), 12);
    assert_eq!(field.indices(), &vec![1, 3, 5, 6, 7, 8, 9, 10, 11]);
    assert_eq!(field.cells()[0], '\u{250c}');
    assert_eq!(field.cells()[2], '\u{2500}');
    assert_eq!(field.cells()[4], '\u{2510}');
}

#[test]
fn upper_case_r_is_decoration() {
    let field = create_field("RrRrRrrrrrrr").unwrap();
    assert_eq!(field.indices(), &vec![1, 3, 5, 6, 7, 8, 9, 10, 11]);
    assert_eq!(field.cells()[0], 'R');
    assert_eq!(create_field("RRRRRRRRR").unwrap_err(), FieldError::WrongCellCount(0));
}

#[test]
fn field_comes_apart_into_picture_and_places() {
    let (cells, indices) = create_field("r.r.r.r.r.r.r.r.r").unwrap().into_parts();
    let picture: String = cells.iter().collect();
    assert_eq!(picture, " . . . . . . . . ");
    assert_eq!(indices, vec![0, 2, 4, 6, 8, 10, 12, 14, 16]);
}
