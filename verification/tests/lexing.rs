use minicc::lexer::dfa;
use minicc::lexer::file::Source;
use minicc::lexer::helper::{
    is_bool_identifier, is_comment, is_invisible_char, is_operator, is_reserved_word,
    is_separator, is_valid_char, state_init, transition, BinaryType, LiteralType, State, WordType,
};
use minicc::lexer::lexer::{is_hex_format, run, Token};
use minicc::utils::types::PhraseType;

fn tok(pos: usize, types: PhraseType, value: &str) -> Token {
    Token { pos, types, value: value.to_string() }
}

fn lex(text: &str) -> (Vec<Token>, Vec<String>) {
    run(text.as_bytes().to_vec())
}

#[test]
fn character_classes() {
    for c in [b' ', b'\n', b'\r', b'\t', 11u8] {
        assert!(is_invisible_char(c));
    }
    assert!(!is_invisible_char(b'a'));
    for c in "(){}[];,:".chars() {
        assert!(is_separator(c));
        assert!(!is_operator(c));
    }
    for c in "+-*/%=!><&|^~".chars() {
        assert!(is_operator(c));
        assert!(!is_separator(c));
    }
    assert!(is_valid_char('a') && is_valid_char('Z') && is_valid_char('7'));
    assert!(is_valid_char('_') && is_valid_char('$'));
    assert!(!is_valid_char('-') && !is_valid_char('é'));
    assert!(is_comment('/', '/') && is_comment('/', '*'));
    assert!(!is_comment('*', '/') && !is_comment('/', 'a'));
}

#[test]
fn reserved_words() {
    for w in ["if", "else", "while", "for", "return", "break", "continue", "int", "float", "double", "char"] {
        assert!(is_reserved_word(w.to_string()));
    }
    assert!(!is_reserved_word("main".to_string()));
    assert!(!is_reserved_word("struct".to_string()));
    assert!(is_bool_identifier("true".to_string()));
    assert!(is_bool_identifier("false".to_string()));
    assert!(!is_bool_identifier("True".to_string()));
}

#[test]
fn number_notations() {
    assert_eq!(BinaryType::cal_binary_type('0', 'x', BinaryType::Unknown), Some(BinaryType::Hex));
    assert_eq!(BinaryType::cal_binary_type('0', 'X', BinaryType::Unknown), Some(BinaryType::Hex));
    assert_eq!(BinaryType::cal_binary_type('0', '6', BinaryType::Unknown), Some(BinaryType::Oct));
    assert_eq!(BinaryType::cal_binary_type('0', '7', BinaryType::Unknown), None);
    assert_eq!(BinaryType::cal_binary_type('0', ';', BinaryType::Unknown), Some(BinaryType::Dec));
    assert_eq!(BinaryType::cal_binary_type('5', '1', BinaryType::Unknown), Some(BinaryType::Dec));
    assert_eq!(BinaryType::cal_binary_type('5', '.', BinaryType::Unknown), Some(BinaryType::Unknown));
    assert_eq!(BinaryType::cal_binary_type('5', ' ', BinaryType::Unknown), None);
    assert_eq!(BinaryType::cal_binary_type('a', ' ', BinaryType::Hex), Some(BinaryType::Hex));
    assert_eq!(BinaryType::cal_binary_type('g', ' ', BinaryType::Hex), None);
    assert_eq!(BinaryType::cal_binary_type('8', ' ', BinaryType::Oct), None);
    assert_eq!(BinaryType::cal_binary_type('٣', ' ', BinaryType::Dec), Some(BinaryType::Dec));
    assert_eq!(
        LiteralType::cal_literal_type('.', '5', LiteralType::Integer(BinaryType::Dec)),
        Some(LiteralType::Float)
    );
    assert_eq!(LiteralType::cal_literal_type('x', ' ', LiteralType::Float), None);
    assert_eq!(LiteralType::cal_literal_type('\'', ' ', LiteralType::Char), Some(LiteralType::Unknown));
    assert_eq!(
        WordType::cal_word_type('/', '*', WordType::Operator),
        Some(WordType::Comment)
    );
    assert_eq!(WordType::cal_word_type('=', ' ', WordType::Operator), Some(WordType::Unknown));
    assert_eq!(WordType::cal_word_type('=', '=', WordType::Operator), Some(WordType::Operator));
    assert_eq!(WordType::cal_word_type('1', 'a', WordType::Unknown), None);
}

#[test]
fn machine_steps() {
    assert_eq!(state_init(), State::Init);
    assert_eq!(transition(' ', Some('a'), State::Init), Some(State::Init));
    assert_eq!(transition(';', None, State::Init), Some(State::Accepted(WordType::Separator)));
    assert_eq!(transition('+', Some('1'), State::Init), Some(State::Accepted(WordType::Operator)));
    assert_eq!(transition('=', Some('='), State::Init), Some(State::Handling(WordType::Operator)));
    assert_eq!(transition('a', Some('b'), State::Init), Some(State::Handling(WordType::Identifier)));
    assert_eq!(transition('a', None, State::Init), Some(State::Accepted(WordType::Identifier)));
    assert_eq!(transition('"', Some('a'), State::Init), Some(State::Handling(WordType::String)));
    assert_eq!(transition('#', Some('a'), State::Init), Some(State::Unaccepted));
    assert_eq!(
        transition('=', Some('1'), State::Handling(WordType::Operator)),
        Some(State::Accepted(WordType::Operator))
    );
    assert_eq!(transition('x', Some('y'), State::Unaccepted), Some(State::Init));
    assert_eq!(transition('x', Some('y'), State::Accepted(WordType::Unknown)), Some(State::Init));
}

#[test]
fn hex_prefix_is_recognised_only_while_a_hex_literal_begins() {
    let hex = State::Handling(WordType::Literal(LiteralType::Integer(BinaryType::Hex)));
    assert!(is_hex_format('0', Some('x'), hex));
    assert!(!is_hex_format('0', Some('X'), hex));
    assert!(!is_hex_format('1', Some('x'), hex));
    assert!(!is_hex_format('0', None, hex));
    assert!(!is_hex_format('0', Some('x'), State::Init));
}

#[test]
fn source_positions() {
    let mut f = Source::from_bytes(b"a\nb".to_vec());
    assert_eq!(f.position(), (1, 1));
    assert_eq!(f.get_char(), Some('a'));
    assert_eq!(f.look_forward(), Some('\n'));
    f.update_pointer(1);
    f.update_position('a');
    assert_eq!(f.position(), (1, 2));
    assert_eq!(f.get_char(), Some('\n'));
    f.update_pointer(1);
    f.update_position('\n');
    assert_eq!(f.position(), (2, 1));
    assert_eq!(f.look_forward(), None);
    f.update_pointer(1);
    assert_eq!(f.get_char(), None);
    f.update_position('x');
    f.init_col();
    assert_eq!(f.position(), (2, 1));
    let mut g = Source::from_bytes(vec![0xc3, 0xa9]);
    assert_eq!(g.get_char(), None);
}

#[test]
fn tokens_of_a_declaration() {
    let (tokens, errors) = lex("int x;\n");
    assert_eq!(
        tokens,
        vec![
            tok(1, PhraseType::Keyword, "int"),
            tok(1, PhraseType::Identifier, "x"),
            tok(1, PhraseType::Separator, ";"),
        ]
    );
    assert!(errors.is_empty());
}

#[test]
fn tokens_of_an_assignment() {
    let (tokens, errors) = lex("x = 10;");
    assert_eq!(
        tokens,
        vec![
            tok(1, PhraseType::Identifier, "x"),
            tok(1, PhraseType::Operator, "="),
            tok(1, PhraseType::Dec, "10"),
            tok(1, PhraseType::Separator, ";"),
        ]
    );
    assert!(errors.is_empty());
}

#[test]
fn hexadecimal_and_boolean_words() {
    let (tokens, _) = lex("0x1F; true;");
    assert_eq!(
        tokens,
        vec![
            tok(1, PhraseType::Hex, "0x1F"),
            tok(1, PhraseType::Separator, ";"),
            tok(1, PhraseType::Bool, "true"),
            tok(1, PhraseType::Separator, ";"),
        ]
    );
}

#[test]
fn line_comment_is_skipped_to_the_line_feed() {
    let (tokens, errors) = lex("// c \nx;");
    assert_eq!(tokens, vec![tok(2, PhraseType::Identifier, "x"), tok(2, PhraseType::Separator, ";")]);
    assert!(errors.is_empty());
}

#[test]
fn block_comment_is_skipped_to_its_end() {
    let (tokens, errors) = lex("/* a\n b */x;");
    assert_eq!(tokens, vec![tok(2, PhraseType::Identifier, "x"), tok(2, PhraseType::Separator, ";")]);
    assert!(errors.is_empty());
}

#[test]
fn refused_word_becomes_a_message() {
    let (tokens, errors) = lex("1 ");
    assert!(tokens.is_empty());
    assert_eq!(errors, vec![format!("Error->position ({}, {})! {:?}", 1, 1, "1")]);
    let (tokens, errors) = lex("x;\n #ab\"c;y;");
    assert_eq!(
        tokens,
        vec![
            tok(1, PhraseType::Identifier, "x"),
            tok(1, PhraseType::Separator, ";"),
            tok(2, PhraseType::Identifier, "y"),
            tok(2, PhraseType::Separator, ";"),
        ]
    );
    assert_eq!(errors, vec![format!("Error->position ({}, {})! {:?}", 2, 2, "#ab\"c")]);
}

#[test]
fn reading_stops_at_a_byte_that_is_not_ascii() {
    let (tokens, errors) = run(vec![b'x', b';', 0xc3, 0xa9, b'y', b';']);
    assert_eq!(tokens, vec![tok(1, PhraseType::Identifier, "x"), tok(1, PhraseType::Separator, ";")]);
    assert!(errors.is_empty());
}

#[test]
fn small_automata() {
    assert_eq!(dfa::choose_dfa('a', ' '), Some(dfa::DFA::Id));
    assert_eq!(dfa::choose_dfa(' ', ' '), Some(dfa::DFA::Whitespace));
    assert_eq!(dfa::choose_dfa('7', ' '), Some(dfa::DFA::Num));
    assert_eq!(dfa::choose_dfa('\'', ' '), Some(dfa::DFA::Char));
    assert_eq!(dfa::choose_dfa('"', ' '), Some(dfa::DFA::Str));
    assert_eq!(dfa::choose_dfa('/', '*'), Some(dfa::DFA::Comments));
    assert_eq!(dfa::choose_dfa('/', '1'), Some(dfa::DFA::Operator));
    assert_eq!(dfa::choose_dfa('{', ' '), Some(dfa::DFA::Separator));
    assert_eq!(dfa::choose_dfa('é', ' '), Some(dfa::DFA::Id));
    assert_eq!(dfa::dfa_id(dfa::INIT, '_'), dfa::State::MoveTo(dfa::DONE));
    assert_eq!(dfa::dfa_id(dfa::DONE, '1'), dfa::State::MoveTo(dfa::INIT));
    assert_eq!(dfa::dfa_id(dfa::DONE, ' '), dfa::State::Accepted(dfa::WordType::Id));
    assert_eq!(dfa::dfa_id(dfa::HANDLE, 'a'), dfa::State::Unaccepted);
    assert_eq!(dfa::dfa_whitespace(0, ' '), dfa::State::MoveTo(1));
    assert_eq!(dfa::dfa_whitespace(1, 'a'), dfa::State::Accepted(dfa::WordType::Other));
    assert_eq!(dfa::dfa_num(1, '.'), dfa::State::MoveTo(2));
    assert_eq!(dfa::dfa_num(2, 'a'), dfa::State::Unaccepted);
    assert_eq!(dfa::dfa_num(3, ';'), dfa::State::Accepted(dfa::WordType::Value));
    assert_eq!(dfa::dfa_operator(1, '='), dfa::State::MoveTo(2));
    assert_eq!(dfa::dfa_operator(0, '%'), dfa::State::Unaccepted);
    assert_eq!(dfa::dfa_char(1, 'a'), dfa::State::MoveTo(2));
    assert_eq!(dfa::dfa_char(1, '\n'), dfa::State::Unaccepted);
    assert_eq!(dfa::dfa_separator(0, ')'), dfa::State::MoveTo(1));
    assert_eq!(dfa::dfa_separator(0, '['), dfa::State::Unaccepted);
    assert_eq!(dfa::dfa_string(1, '"'), dfa::State::MoveTo(2));
    assert_eq!(dfa::dfa_comments(2, '*'), dfa::State::MoveTo(4));
    assert_eq!(dfa::dfa_comments(3, '\n'), dfa::State::MoveTo(7));
    assert_eq!(dfa::dfa_comments(7, 'x'), dfa::State::Accepted(dfa::WordType::Other));
    assert_eq!(dfa::DFA::Comments.step(4, '/'), dfa::State::MoveTo(7));
}
