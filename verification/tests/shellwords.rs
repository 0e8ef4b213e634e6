use beamup::error::Error;
use beamup::shellwords::split;

#[test]
fn quoted_group_stays_one_token() {
    let words = split("CFLAGS=\"-g -O2 -march=native\" --enable-x").expect("valid input");
    assert_eq!(
        words,
        vec!["CFLAGS=-g -O2 -march=native".to_string(), "--enable-x".to_string()]
    );
    assert_eq!(words.len(), 2);
}

#[test]
fn plain_words_split_on_whitespace() {
    let words = split("--without-wx  --without-odbc\t--enable-builtin-zlib").expect("valid input");
    assert_eq!(
        words,
        vec![
            "--without-wx".to_string(),
            "--without-odbc".to_string(),
            "--enable-builtin-zlib".to_string(),
        ]
    );
}

#[test]
fn empty_input_has_no_words() {
    assert_eq!(split("").expect("valid input"), Vec::<String>::new());
    assert_eq!(split("   \t ").expect("valid input"), Vec::<String>::new());
}

#[test]
fn single_quotes_keep_everything_literal() {
    let words = split("a 'b \"c\" d' e").expect("valid input");
    assert_eq!(
        words,
        vec!["a".to_string(), "b \"c\" d".to_string(), "e".to_string()]
    );
}

#[test]
fn empty_quotes_make_an_empty_word() {
    assert_eq!(split("''").expect("valid input"), vec!["".to_string()]);
    assert_eq!(split("a '' b").expect("valid input"), vec![
        "a".to_string(),
        "".to_string(),
        "b".to_string(),
    ]);
}

#[test]
fn backslash_escapes_a_space() {
    assert_eq!(split("one\\ word").expect("valid input"), vec!["one word".to_string()]);
}

#[test]
fn backslash_in_double_quotes_escapes_only_special_characters() {
    assert_eq!(split("\"\\$HOME\"").expect("valid input"), vec!["$HOME".to_string()]);
    assert_eq!(split("\"a\\b\"").expect("valid input"), vec!["a\\b".to_string()]);
    assert_eq!(split("\"\\\"\"").expect("valid input"), vec!["\"".to_string()]);
}

#[test]
fn comment_runs_to_end_of_line() {
    assert_eq!(split("a # rest ignored").expect("valid input"), vec!["a".to_string()]);
    assert_eq!(
        split("a # comment\nb").expect("valid input"),
        vec!["a".to_string(), "b".to_string()]
    );
}

#[test]
fn trailing_backslash_is_kept() {
    assert_eq!(split("ab\\").expect("valid input"), vec!["ab\\".to_string()]);
    assert_eq!(split("\\").expect("valid input"), vec!["\\".to_string()]);
}

#[test]
fn line_continuation_joins_nothing() {
    assert_eq!(
        split("a\\\nb").expect("valid input"),
        vec!["ab".to_string()]
    );
}

#[test]
fn unmatched_quotes_are_refused() {
    assert_eq!(split("'open"), Err(Error::InvalidBuildOptions));
    assert_eq!(split("\"open"), Err(Error::InvalidBuildOptions));
    assert_eq!(split("\"open\\"), Err(Error::InvalidBuildOptions));
}

#[test]
fn adjacent_quoted_pieces_join_into_one_word() {
    assert_eq!(
        split("pre'mid'post").expect("valid input"),
        vec!["premidpost".to_string()]
    );
    assert_eq!(
        split("a\"b c\"d").expect("valid input"),
        vec!["ab cd".to_string()]
    );
}
