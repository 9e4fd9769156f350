use pest::Input;
use pest::StringInput;

#[test]
fn empty() {
    let mut input = StringInput::new("");

    assert!(input.matches(""));
    assert!(!input.matches("a"));
}

#[test]
fn parts() {
    let mut input = StringInput::new("asdasdf");

    assert!(input.matches("asd"));
    assert!(input.matches("asdf"));
}

#[test]
fn len() {
    assert_eq!(StringInput::new("asdasdf").len(), 7);
}

#[test]
fn pos() {
    let mut input = StringInput::new("asdasdf");

    assert_eq!(input.pos(), 0);
    assert!(input.matches("asd"));
    assert_eq!(input.pos(), 3);
    assert!(input.matches("asdf"));
    assert_eq!(input.pos(), 7);

    input.set_pos(3);

    assert_eq!(input.pos(), 3);
    assert!(input.matches("asdf"));
    assert_eq!(input.pos(), 7);
}

#[test]
fn mismatch_leaves_pos() {
    let mut input = StringInput::new("asdasdf");

    assert!(!input.matches("nope"));
    assert_eq!(input.pos(), 0);
    assert!(input.matches("asd"));
    assert!(!input.matches("asdx"));
    assert_eq!(input.pos(), 3);
}

#[test]
fn past_end_fails() {
    let mut input = StringInput::new("ab");

    assert!(!input.matches("abc"));
    assert_eq!(input.pos(), 0);
    assert!(input.matches("ab"));
    assert!(!input.matches("a"));
    assert_eq!(input.pos(), 2);
}

#[test]
fn empty_literal_at_end() {
    let mut input = StringInput::new("ab");

    input.set_pos(2);
    assert!(input.matches(""));
    assert_eq!(input.pos(), 2);
}

#[test]
fn set_pos_acts_like_suffix() {
    let mut input = StringInput::new("asdasdf");
    input.set_pos(3);
    let mut suffix = StringInput::new("asdf");

    assert!(input.matches("asdf"));
    assert!(suffix.matches("asdf"));
    assert_eq!(input.pos(), 7);
    assert_eq!(suffix.pos(), 4);

    input.set_pos(3);
    suffix.set_pos(0);
    assert!(!input.matches("asx"));
    assert!(!suffix.matches("asx"));
    assert_eq!(input.pos(), 3);
    assert_eq!(suffix.pos(), 0);
}

#[test]
fn positions_count_characters() {
    // "h\u{e9}llo" holds five characters; length and position are counted
    // in characters, not in encoded bytes.
    let mut input = StringInput::new("h\u{e9}llo");

    assert_eq!(input.len(), 5);
    assert!(input.matches("h\u{e9}l"));
    assert_eq!(input.pos(), 3);
    assert!(input.matches("lo"));
    assert_eq!(input.pos(), 5);
}

#[test]
fn prefix_of_text_matches() {
    let mut input = StringInput::new("grammar");

    assert!(input.matches("gram"));
    assert_eq!(input.pos(), 4);

    input.set_pos(0);
    assert!(input.matches("grammar"));
    assert_eq!(input.pos(), 7);

    input.set_pos(0);
    assert!(input.matches(""));
    assert_eq!(input.pos(), 0);
}
