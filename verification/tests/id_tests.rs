use pff::id::{format_id_path, message_id, parse_id_path, ParseError};

#[test]
fn parses_three_numbers() {
    assert_eq!(parse_id_path("8354_8514_7029316"), Ok(vec![8354, 8514, 7029316]));
}

#[test]
fn rejects_an_empty_piece() {
    assert_eq!(parse_id_path("8354__12"), Err(ParseError {}));
}

#[test]
fn rejects_letters() {
    assert_eq!(parse_id_path("abc_12"), Err(ParseError {}));
}

#[test]
fn rejects_the_empty_string() {
    assert_eq!(parse_id_path(""), Err(ParseError {}));
}

#[test]
fn rejects_separators_at_either_end() {
    assert_eq!(parse_id_path("_12"), Err(ParseError {}));
    assert_eq!(parse_id_path("12_"), Err(ParseError {}));
}

#[test]
fn rejects_signs_and_blanks() {
    assert_eq!(parse_id_path("+12"), Err(ParseError {}));
    assert_eq!(parse_id_path("-12"), Err(ParseError {}));
    assert_eq!(parse_id_path(" 12"), Err(ParseError {}));
    assert_eq!(parse_id_path("12 "), Err(ParseError {}));
}

#[test]
fn rejects_digits_of_other_scripts() {
    assert_eq!(parse_id_path("١٢"), Err(ParseError {}));
}

#[test]
fn largest_number_is_read_and_the_next_is_not() {
    assert_eq!(parse_id_path("4294967295"), Ok(vec![u32::MAX]));
    assert_eq!(parse_id_path("4294967296"), Err(ParseError {}));
    assert_eq!(parse_id_path("99999999999999999999"), Err(ParseError {}));
}

#[test]
fn leading_zeros_do_not_count() {
    assert_eq!(parse_id_path("007_0"), Ok(vec![7, 0]));
}

#[test]
fn writes_numbers_joined_by_underscores() {
    assert_eq!(format_id_path(&[8354, 8514, 7029316]), "8354_8514_7029316");
    assert_eq!(format_id_path(&[0]), "0");
    assert_eq!(format_id_path(&[u32::MAX, 10, 9]), "4294967295_10_9");
    assert_eq!(format_id_path(&[]), "");
}

#[test]
fn message_id_ends_with_the_message() {
    assert_eq!(message_id(&[8354, 8514], 7029316), "8354_8514_7029316");
    assert_eq!(message_id(&[], 42), "42");
}

#[test]
fn written_ids_read_back() {
    let paths: Vec<Vec<u32>> = vec![vec![0], vec![1, 2, 3], vec![u32::MAX, 0, 100, 1000]];
    for path in paths {
        assert_eq!(parse_id_path(&format_id_path(&path)), Ok(path));
    }
}
