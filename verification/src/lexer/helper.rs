//! The character classes and the state machine of the tokenizer.
//!
//! The machine reads one character at a time, with the next one in view.
//! Each function here is one table of it, stated as a spec function and
//! computed by an executable function of the same shape.

use vstd::prelude::*;

verus! {

/// The notation of an integer literal.
#[derive(Debug, Clone, Copy, PartialEq, Eq, Structural)]
pub enum BinaryType {
    Hex,
    Oct,
    Dec,
    Unknown,
}

/// The kind of a literal.
#[derive(Debug, Clone, Copy, PartialEq, Eq, Structural)]
pub enum LiteralType {
    Integer(BinaryType),
    Float,
    Char,
    Unknown,
}

/// The kind of a word.
#[derive(Debug, Clone, Copy, PartialEq, Eq, Structural)]
pub enum WordType {
    Identifier,
    Operator,
    Separator,
    Literal(LiteralType),
    String,
    Comment,
    Unknown,
}

/// The state of the machine.
#[derive(Debug, Clone, Copy, PartialEq, Eq, Structural)]
pub enum State {
    Accepted(WordType),
    Unaccepted,
    Handling(WordType),
    Init,
}

/// Whether Unicode classes `c` as a number, as `char::is_numeric` of the
/// standard library tells.
pub uninterp spec fn unicode_numeric(c: char) -> bool;

/// `char::is_numeric` of the standard library. Among the ASCII characters
/// exactly the digits `0` to `9` are numeric.
#[verifier::external_body]
pub(crate) fn is_numeric(c: char) -> (r: bool)
    ensures
        r == unicode_numeric(c),
        (c as u32) < 0x80 ==> r == ('0' <= c && c <= '9'),
{
    c.is_numeric()
}

/// Whether Unicode classes `c` as alphabetic, as `char::is_alphabetic` of
/// the standard library tells.
pub uninterp spec fn unicode_alphabetic(c: char) -> bool;

/// `char::is_alphabetic` of the standard library. Among the ASCII
/// characters exactly the letters `a` to `z` and `A` to `Z` are
/// alphabetic.
#[verifier::external_body]
pub(crate) fn is_alphabetic(c: char) -> (r: bool)
    ensures
        r == unicode_alphabetic(c),
        (c as u32) < 0x80 ==> r == (('a' <= c && c <= 'z') || ('A' <= c && c <= 'Z')),
{
    c.is_alphabetic()
}

/// The state in which the machine starts.
pub fn state_init() -> (r: State)
    ensures
        r == State::Init,
{
    State::Init
}

/// `c` is a space, a line feed, a carriage return, a tab or a vertical
/// tab.
pub open spec fn invisible(c: u8) -> bool {
    c == 32 || c == 10 || c == 13 || c == 9 || c == 11
}

/// Whether the byte `c` is white space.
pub fn is_invisible_char(c: u8) -> (r: bool)
    ensures
        r == invisible(c),
{
    c == 32 || c == 10 || c == 13 || c == 9 || c == 11
}

/// `c` is one of `( ) { } [ ] ; , :`.
pub open spec fn separator(c: char) -> bool {
    c == '(' || c == ')' || c == '{' || c == '}' || c == '[' || c == ']' || c == ';' || c == ','
        || c == ':'
}

/// Whether `c` is a separator.
pub fn is_separator(c: char) -> (r: bool)
    ensures
        r == separator(c),
{
    c == '(' || c == ')' || c == '{' || c == '}' || c == '[' || c == ']' || c == ';' || c == ','
        || c == ':'
}

/// `c` is one of `+ - * / % = ! > < & | ^ ~`.
pub open spec fn operator(c: char) -> bool {
    c == '+' || c == '-' || c == '*' || c == '/' || c == '%' || c == '=' || c == '!' || c == '>'
        || c == '<' || c == '&' || c == '|' || c == '^' || c == '~'
}

/// Whether `c` is an operator character.
pub fn is_operator(c: char) -> (r: bool)
    ensures
        r == operator(c),
{
    c == '+' || c == '-' || c == '*' || c == '/' || c == '%' || c == '=' || c == '!' || c == '>'
        || c == '<' || c == '&' || c == '|' || c == '^' || c == '~'
}

/// `c` is an ASCII letter.
pub open spec fn ascii_letter(c: char) -> bool {
    ('a' <= c && c <= 'z') || ('A' <= c && c <= 'Z')
}

/// `c` is an ASCII digit.
pub open spec fn ascii_digit(c: char) -> bool {
    '0' <= c && c <= '9'
}

/// `c` may stand in a word: an ASCII letter or digit, `_` or `$`.
pub open spec fn valid_char(c: char) -> bool {
    ascii_letter(c) || ascii_digit(c) || c == '_' || c == '$'
}

/// Whether `c` may stand in a word.
pub fn is_valid_char(c: char) -> (r: bool)
    ensures
        r == valid_char(c),
{
    let is_alpha = ('a' <= c && c <= 'z') || ('A' <= c && c <= 'Z');
    let is_digit = '0' <= c && c <= '9';
    let is_special = c == '_' || c == '$';
    is_alpha || is_digit || is_special
}

/// `c` and `nc` open a comment: `//` or `/*`.
pub open spec fn comment_start(c: char, nc: char) -> bool {
    c == '/' && (nc == '/' || nc == '*')
}

/// Whether `c` and `nc` open a comment.
pub fn is_comment(c: char, nc: char) -> (r: bool)
    ensures
        r == comment_start(c, nc),
{
    let is_single_line_comment: bool = c == '/' && nc == '/';
    let is_multi_line_comment: bool = c == '/' && nc == '*';
    is_multi_line_comment || is_single_line_comment
}

/// `word` is a reserved word of the language.
pub open spec fn reserved_word(word: Seq<char>) -> bool {
    word == "if"@ || word == "else"@ || word == "while"@ || word == "for"@ || word == "return"@
        || word == "break"@ || word == "continue"@ || word == "int"@ || word == "float"@ || word
        == "double"@ || word == "char"@
}

/// Whether `word` is a reserved word.
pub fn is_reserved_word(word: String) -> (r: bool)
    ensures
        r == reserved_word(word@),
{
    let w = word.as_str();
    *w == *"if" || *w == *"else" || *w == *"while" || *w == *"for" || *w == *"return" || *w
        == *"break" || *w == *"continue" || *w == *"int" || *w == *"float" || *w == *"double" || *w
        == *"char"
}

/// Whether `word` is `true` or `false`.
pub fn is_bool_identifier(word: String) -> (r: bool)
    ensures
        r == (word@ == "true"@ || word@ == "false"@),
{
    let w = word.as_str();
    *w == *"true" || *w == *"false"
}

/// The notation that an integer literal in notation `state` has after the
/// character `c`, with `nc` next; `None` where `c` cannot stand there.
pub open spec fn binary_next(c: char, nc: char, state: BinaryType) -> Option<BinaryType> {
    match state {
        BinaryType::Hex => if ascii_digit(c) || ('a' <= c && c <= 'f') || ('A' <= c && c <= 'F') {
            Some(BinaryType::Hex)
        } else {
            None
        },
        BinaryType::Oct => if '0' <= c && c <= '7' {
            Some(BinaryType::Oct)
        } else {
            None
        },
        BinaryType::Dec => if unicode_numeric(c) {
            Some(BinaryType::Dec)
        } else {
            None
        },
        BinaryType::Unknown => if '1' <= c && c <= '9' {
            if unicode_numeric(nc) || separator(nc) {
                Some(BinaryType::Dec)
            } else if nc == '.' {
                Some(BinaryType::Unknown)
            } else {
                None
            }
        } else if c == '0' {
            if nc == 'X' || nc == 'x' {
                Some(BinaryType::Hex)
            } else if '0' <= nc && nc <= '6' {
                Some(BinaryType::Oct)
            } else if separator(nc) {
                Some(BinaryType::Dec)
            } else {
                None
            }
        } else {
            None
        },
    }
}

/// The kind that a literal of kind `state` has after the character `c`,
/// with `nc` next; `None` where `c` cannot stand there.
pub open spec fn literal_next(c: char, nc: char, state: LiteralType) -> Option<LiteralType> {
    match state {
        LiteralType::Integer(t) => match binary_next(c, nc, t) {
            Some(next) => Some(LiteralType::Integer(next)),
            None => if c == '.' {
                Some(LiteralType::Float)
            } else {
                None
            },
        },
        LiteralType::Float => if ascii_digit(c) {
            Some(LiteralType::Float)
        } else {
            None
        },
        LiteralType::Char => if (c as u32) < 0x80 && c != '\'' {
            Some(LiteralType::Char)
        } else if c == '\'' {
            Some(LiteralType::Unknown)
        } else {
            None
        },
        LiteralType::Unknown => if ascii_digit(c) {
            match binary_next(c, nc, BinaryType::Unknown) {
                Some(t) => Some(LiteralType::Integer(t)),
                None => None,
            }
        } else if c == '\'' {
            Some(LiteralType::Char)
        } else {
            None
        },
    }
}

/// The kind that a word of kind `state` has after the character `c`, with
/// `nc` next; `None` where `c` cannot stand there. For an operator,
/// `Unknown` says that it ends with `c`.
pub open spec fn word_next(c: char, nc: char, state: WordType) -> Option<WordType> {
    match state {
        WordType::Unknown => if ascii_letter(c) || c == '_' {
            Some(WordType::Identifier)
        } else if ascii_digit(c) {
            match literal_next(c, nc, LiteralType::Unknown) {
                Some(t) => Some(WordType::Literal(t)),
                None => None,
            }
        } else {
            None
        },
        WordType::Identifier => if ascii_letter(c) || c == '_' || ascii_digit(c) {
            Some(WordType::Identifier)
        } else {
            None
        },
        WordType::Literal(t) => match literal_next(c, nc, t) {
            Some(next) => Some(WordType::Literal(next)),
            None => None,
        },
        WordType::String => Some(WordType::String),
        WordType::Comment => Some(WordType::Comment),
        WordType::Operator => if comment_start(c, nc) {
            Some(WordType::Comment)
        } else if operator(c) {
            if !operator(nc) {
                Some(WordType::Unknown)
            } else {
                Some(WordType::Operator)
            }
        } else {
            None
        },
        WordType::Separator => Some(WordType::Separator),
    }
}

impl BinaryType {
    /// The next notation of an integer literal: see `binary_next`.
    pub fn cal_binary_type(c: char, nc: char, state: BinaryType) -> (r: Option<BinaryType>)
        ensures
            r == binary_next(c, nc, state),
    {
        match state {
            BinaryType::Hex => {
                if ('0' <= c && c <= '9') || ('a' <= c && c <= 'f') || ('A' <= c && c <= 'F') {
                    Some(BinaryType::Hex)
                } else {
                    None
                }
            },
            BinaryType::Oct => {
                if '0' <= c && c <= '7' {
                    Some(BinaryType::Oct)
                } else {
                    None
                }
            },
            BinaryType::Dec => {
                if is_numeric(c) {
                    Some(BinaryType::Dec)
                } else {
                    None
                }
            },
            BinaryType::Unknown => {
                if '1' <= c && c <= '9' {
                    if is_numeric(nc) || is_separator(nc) {
                        Some(BinaryType::Dec)
                    } else if nc == '.' {
                        Some(BinaryType::Unknown)
                    } else {
                        None
                    }
                } else if c == '0' {
                    if nc == 'X' || nc == 'x' {
                        Some(BinaryType::Hex)
                    } else if '0' <= nc && nc <= '6' {
                        Some(BinaryType::Oct)
                    } else if is_separator(nc) {
                        Some(BinaryType::Dec)
                    } else {
                        None
                    }
                } else {
                    None
                }
            },
        }
    }
}

impl LiteralType {
    /// The next kind of a literal: see `literal_next`.
    pub fn cal_literal_type(c: char, nc: char, state: LiteralType) -> (r: Option<LiteralType>)
        ensures
            r == literal_next(c, nc, state),
    {
        match state {
            LiteralType::Integer(t) => {
                match BinaryType::cal_binary_type(c, nc, t) {
                    Some(next) => Some(LiteralType::Integer(next)),
                    None => {
                        if c == '.' {
                            Some(LiteralType::Float)
                        } else {
                            None
                        }
                    },
                }
            },
            LiteralType::Float => {
                if '0' <= c && c <= '9' {
                    Some(LiteralType::Float)
                } else {
                    None
                }
            },
            LiteralType::Char => {
                if (c as u32) < 0x80 && c != '\'' {
                    Some(LiteralType::Char)
                } else if c == '\'' {
                    Some(LiteralType::Unknown)
                } else {
                    None
                }
            },
            LiteralType::Unknown => {
                if '0' <= c && c <= '9' {
                    match BinaryType::cal_binary_type(c, nc, BinaryType::Unknown) {
                        Some(t) => Some(LiteralType::Integer(t)),
                        None => None,
                    }
                } else if c == '\'' {
                    Some(LiteralType::Char)
                } else {
                    None
                }
            },
        }
    }
}

impl WordType {
    /// The next kind of a word: see `word_next`.
    pub fn cal_word_type(c: char, nc: char, state: WordType) -> (r: Option<WordType>)
        ensures
            r == word_next(c, nc, state),
    {
        match state {
            WordType::Unknown => {
                if ('a' <= c && c <= 'z') || ('A' <= c && c <= 'Z') || c == '_' {
                    Some(WordType::Identifier)
                } else if '0' <= c && c <= '9' {
                    match LiteralType::cal_literal_type(c, nc, LiteralType::Unknown) {
                        Some(t) => Some(WordType::Literal(t)),
                        None => None,
                    }
                } else {
                    None
                }
            },
            WordType::Identifier => {
                if ('a' <= c && c <= 'z') || ('A' <= c && c <= 'Z') || c == '_' || ('0' <= c && c
                    <= '9') {
                    Some(WordType::Identifier)
                } else {
                    None
                }
            },
            WordType::Literal(t) => {
                match LiteralType::cal_literal_type(c, nc, t) {
                    Some(next) => Some(WordType::Literal(next)),
                    None => None,
                }
            },
            WordType::String => Some(WordType::String),
            WordType::Comment => Some(WordType::Comment),
            WordType::Operator => {
                if is_comment(c, nc) {
                    Some(WordType::Comment)
                } else if is_operator(c) {
                    if !is_operator(nc) {
                        Some(WordType::Unknown)
                    } else {
                        Some(WordType::Operator)
                    }
                } else {
                    None
                }
            },
            WordType::Separator => Some(WordType::Separator),
        }
    }
}

/// The byte that `c` is cut down to: its code modulo 256.
pub open spec fn low_byte(c: char) -> u8 {
    ((c as u32) % 256) as u8
}

/// The state after the character `c`, with `nc` next (a space stands for
/// the end of the input).
///
/// From `Init`: white space stays; a separator is a word at once; an
/// operator is one unless the next character is an operator too; a word
/// character starts a word, which is accepted at once where a space, a
/// separator or an operator follows; `"` starts a string and `'` a
/// character literal. While a word is handled, a separator or a space
/// behind `c` accepts it; an operator that ends with `c` is accepted.
/// After a word was accepted or refused the machine starts again.
pub open spec fn next_state(c: char, nc: Option<char>, state: State) -> State {
    let next_c = match nc {
        Some(n) => n,
        None => ' ',
    };
    match state {
        State::Init => if invisible(low_byte(c)) {
            State::Init
        } else if separator(c) {
            State::Accepted(WordType::Separator)
        } else if operator(c) {
            if !operator(next_c) {
                State::Accepted(WordType::Operator)
            } else {
                match word_next(c, next_c, WordType::Operator) {
                    Some(t) => State::Handling(t),
                    None => State::Unaccepted,
                }
            }
        } else if valid_char(c) {
            match word_next(c, next_c, WordType::Unknown) {
                Some(t) => if low_byte(next_c) == 0x20 || separator(next_c) || operator(next_c) {
                    State::Accepted(t)
                } else {
                    State::Handling(t)
                },
                None => State::Unaccepted,
            }
        } else if low_byte(c) == 0x22 {
            State::Handling(WordType::String)
        } else if low_byte(c) == 0x27 {
            State::Handling(WordType::Literal(LiteralType::Char))
        } else {
            State::Unaccepted
        },
        State::Handling(current) => match word_next(c, next_c, current) {
            Some(t) => if separator(next_c) || low_byte(next_c) == 0x20 {
                State::Accepted(t)
            } else if t == WordType::Unknown {
                State::Accepted(current)
            } else {
                State::Handling(t)
            },
            None => State::Unaccepted,
        },
        State::Accepted(_) => State::Init,
        State::Unaccepted => State::Init,
    }
}

pub(crate) fn byte_of(c: char) -> (r: u8)
    ensures
        r == low_byte(c),
{
    ((c as u32) % 256) as u8
}

/// One step of the machine: always `Some` of `next_state`.
pub fn transition(c: char, nc: Option<char>, state: State) -> (r: Option<State>)
    ensures
        r == Some(next_state(c, nc, state)),
{
    let next_c = match nc {
        Some(n) => n,
        None => ' ',
    };
    match state {
        State::Init => {
            if is_invisible_char(byte_of(c)) {
                Some(State::Init)
            } else if is_separator(c) {
                Some(State::Accepted(WordType::Separator))
            } else if is_operator(c) {
                if !is_operator(next_c) {
                    Some(State::Accepted(WordType::Operator))
                } else {
                    match WordType::cal_word_type(c, next_c, WordType::Operator) {
                        Some(t) => Some(State::Handling(t)),
                        None => Some(State::Unaccepted),
                    }
                }
            } else if is_valid_char(c) {
                match WordType::cal_word_type(c, next_c, WordType::Unknown) {
                    Some(t) => {
                        if byte_of(next_c) == 0x20 || is_separator(next_c) || is_operator(next_c) {
                            Some(State::Accepted(t))
                        } else {
                            Some(State::Handling(t))
                        }
                    },
                    None => Some(State::Unaccepted),
                }
            } else if byte_of(c) == 0x22 {
                Some(State::Handling(WordType::String))
            } else if byte_of(c) == 0x27 {
                Some(State::Handling(WordType::Literal(LiteralType::Char)))
            } else {
                Some(State::Unaccepted)
            }
        },
        State::Handling(current) => {
            match WordType::cal_word_type(c, next_c, current) {
                Some(t) => {
                    if is_separator(next_c) || byte_of(next_c) == 0x20 {
                        Some(State::Accepted(t))
                    } else if t == WordType::Unknown {
                        Some(State::Accepted(current))
                    } else {
                        Some(State::Handling(t))
                    }
                },
                None => Some(State::Unaccepted),
            }
        },
        State::Accepted(_) => Some(State::Init),
        State::Unaccepted => Some(State::Init),
    }
}

} // verus!
