use auto_fishing::coords::{parse_coordinates, CoordError};
use auto_fishing::keywords::{first_keyword, split_keywords};
use auto_fishing::text::{chars_of, contains_chars, split_chars};

fn chars(s: &str) -> Vec<char> {
    s.chars().collect()
}

#[test]
fn coordinates_read_four_values() {
    assert_eq!(parse_coordinates("100,200 300x400"), Ok((100, 200, 300, 400)));
}

#[test]
fn coordinates_accept_signs_and_surrounding_space() {
    assert_eq!(parse_coordinates("  -5,+6\t7x8\n"), Ok((-5, 6, 7, 8)));
}

#[test]
fn coordinates_accept_the_i32_extremes() {
    assert_eq!(
        parse_coordinates("-2147483648,2147483647 0x0"),
        Ok((i32::MIN, i32::MAX, 0, 0))
    );
}

#[test]
fn coordinates_reject_wrong_word_count() {
    assert_eq!(parse_coordinates("100,200"), Err(CoordError::WordCount));
    assert_eq!(parse_coordinates("1,2 3x4 5"), Err(CoordError::WordCount));
    assert_eq!(parse_coordinates(""), Err(CoordError::WordCount));
}

#[test]
fn coordinates_reject_bad_offset() {
    assert_eq!(parse_coordinates("100 300x400"), Err(CoordError::OffsetCount));
    assert_eq!(parse_coordinates("1,2,3 300x400"), Err(CoordError::OffsetCount));
}

#[test]
fn coordinates_reject_bad_size() {
    assert_eq!(parse_coordinates("1,2 300"), Err(CoordError::SizeCount));
    assert_eq!(parse_coordinates("1,2 3x4x5"), Err(CoordError::SizeCount));
}

#[test]
fn coordinates_reject_bad_numbers() {
    assert_eq!(parse_coordinates("a,2 3x4"), Err(CoordError::BadNumber));
    assert_eq!(parse_coordinates(",2 3x4"), Err(CoordError::BadNumber));
    assert_eq!(parse_coordinates("-,2 3x4"), Err(CoordError::BadNumber));
    assert_eq!(parse_coordinates("2147483648,2 3x4"), Err(CoordError::BadNumber));
    assert_eq!(parse_coordinates("-2147483649,2 3x4"), Err(CoordError::BadNumber));
    assert_eq!(parse_coordinates("1,2 3x99999999999999999999"), Err(CoordError::BadNumber));
}

#[test]
fn chars_of_keeps_every_character() {
    assert_eq!(chars_of("añb"), vec!['a', 'ñ', 'b']);
}

#[test]
fn split_keeps_empty_pieces() {
    assert_eq!(split_chars(&chars(",a,,b,"), ','), vec![vec![], vec!['a'], vec![], vec!['b'], vec![]]);
    assert_eq!(split_chars(&chars(""), ','), vec![Vec::<char>::new()]);
}

#[test]
fn substring_search() {
    assert!(contains_chars(&chars("a Ebonkoi b"), &chars("Ebonkoi")));
    assert!(!contains_chars(&chars("a ebonkoi b"), &chars("Ebonkoi")));
    assert!(contains_chars(&chars("xyz"), &chars("")));
    assert!(!contains_chars(&chars("ab"), &chars("abc")));
}

#[test]
fn keywords_split_on_commas() {
    assert_eq!(split_keywords("Foo,Bar"), vec![chars("Foo"), chars("Bar")]);
    assert_eq!(split_keywords("Ebonkoi"), vec![chars("Ebonkoi")]);
}

#[test]
fn empty_keyword_pieces_are_dropped() {
    assert!(split_keywords("").is_empty());
    assert!(split_keywords(",,").is_empty());
    assert_eq!(split_keywords("Foo,,Bar,"), vec![chars("Foo"), chars("Bar")]);
}

#[test]
fn empty_keyword_field_never_matches() {
    let kws = split_keywords("");
    assert_eq!(first_keyword(&kws, &chars("any text")), None);
    assert_eq!(first_keyword(&kws, &chars("")), None);
}

#[test]
fn coordinate_error_messages() {
    assert_eq!(CoordError::WordCount.message(), "Input should have two parts separated by space");
    assert_eq!(
        CoordError::OffsetCount.message(),
        "First part should contain two numbers separated by comma"
    );
    assert_eq!(
        CoordError::SizeCount.message(),
        "Second part should contain two numbers separated by 'x'"
    );
    assert_eq!(
        CoordError::BadNumber.message(),
        "Each value should be a whole number that fits in 32 bits"
    );
}

#[test]
fn single_keyword_matches_only_literal_text() {
    let kws = split_keywords("Ebonkoi");
    assert_eq!(first_keyword(&kws, &chars("You caught an Ebonkoi!")), Some(0));
    assert_eq!(first_keyword(&kws, &chars("You caught a Bass")), None);
    assert_eq!(first_keyword(&kws, &chars("Ebonko")), None);
}

#[test]
fn empty_keyword_list_never_matches() {
    let kws: Vec<Vec<char>> = Vec::new();
    assert_eq!(first_keyword(&kws, &chars("anything at all")), None);
}

#[test]
fn later_keyword_still_matches() {
    let kws = split_keywords("Foo,Bar");
    assert_eq!(first_keyword(&kws, &chars("...Bar...")), Some(1));
    let kws = split_keywords("Bar,Foo");
    assert_eq!(first_keyword(&kws, &chars("...Bar...")), Some(0));
}

#[test]
fn first_satisfied_keyword_wins() {
    let kws = split_keywords("Foo,Bar");
    assert_eq!(first_keyword(&kws, &chars("Bar and Foo")), Some(0));
}

#[test]
fn keyword_matching_is_case_sensitive() {
    let kws = split_keywords("Foo,Bar");
    assert_eq!(first_keyword(&kws, &chars("...bar...FOO")), None);
}
