//! The token layer under the command grammar.

use nucleo_f767zi::cmd::str_to_command;
use nucleo_f767zi::cmd::Commands;
use nucleo_f767zi::led::LedState;
use nucleo_f767zi::parse::{bytes_eq, find_tok_end, tokenize};

#[test]
fn tokenize_splits_on_single_spaces() {
    assert_eq!(
        tokenize(b"led r on"),
        vec![b"led".to_vec(), b"r".to_vec(), b"on".to_vec()]
    );
}

#[test]
fn tokenize_keeps_empty_tokens() {
    assert_eq!(tokenize(b""), vec![b"".to_vec()]);
    assert_eq!(
        tokenize(b"a  b"),
        vec![b"a".to_vec(), b"".to_vec(), b"b".to_vec()]
    );
    assert_eq!(tokenize(b" a"), vec![b"".to_vec(), b"a".to_vec()]);
    assert_eq!(tokenize(b"a "), vec![b"a".to_vec(), b"".to_vec()]);
}

#[test]
fn token_end_finds_first_space() {
    assert_eq!(find_tok_end(b"led r", 0), 3);
    assert_eq!(find_tok_end(b"led r", 4), 5);
    assert_eq!(find_tok_end(b"nospace", 0), 7);
    assert_eq!(find_tok_end(b" x", 0), 0);
}

#[test]
fn byte_equality() {
    assert!(bytes_eq(b"led", b"led"));
    assert!(!bytes_eq(b"led", b"leds"));
    assert!(!bytes_eq(b"led", b"lee"));
    assert!(bytes_eq(b"", b""));
}

#[test]
fn numeric_bounds_through_the_grammar() {
    assert_eq!(
        str_to_command("led r 4294967295"),
        Some(Commands::Led(1, LedState::Toggle(u32::MAX)))
    );
    assert_eq!(str_to_command("led r 4294967296"), None);
    assert_eq!(str_to_command("status 4294967296"), None);
    assert_eq!(
        str_to_command("led b 0"),
        Some(Commands::Led(3, LedState::Toggle(0)))
    );
}
