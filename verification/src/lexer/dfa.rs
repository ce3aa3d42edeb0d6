//! One small automaton for each kind of word: identifiers, white space,
//! numbers, operators, character and string values, separators and
//! comments. An automaton is a function from its state and the next
//! character to what it does.

use crate::lexer::file::NEWLINE;
use crate::lexer::helper::{
    byte_of, invisible, is_alphabetic, is_invisible_char, is_numeric, low_byte, unicode_alphabetic,
    unicode_numeric,
};
use vstd::prelude::*;

verus! {

/// The kind of word that an automaton accepts.
#[derive(Debug, Clone, Copy, PartialEq, Eq, Structural)]
pub enum WordType {
    Id,
    Value,
    Operator,
    Separator,
    Other,
}

/// The state in which every automaton starts.
pub const INIT: u8 = 0;

/// The second state of an automaton.
pub const HANDLE: u8 = 1;

/// The third state of an automaton.
pub const DONE: u8 = 2;

/// What an automaton does at a character.
#[derive(Debug, Clone, Copy, PartialEq, Eq, Structural)]
pub enum State {
    /// It moves to the state of this number.
    MoveTo(u8),
    /// It refuses the word.
    Unaccepted,
    /// It accepts the word that ended before the character.
    Accepted(WordType),
}

/// The automata.
#[derive(Debug, Clone, Copy, PartialEq, Eq, Structural)]
pub enum DFA {
    Id,
    Whitespace,
    Num,
    Char,
    Str,
    Comments,
    Separator,
    Operator,
}

/// `c` is one of `{ } ( ) ; ,`.
pub open spec fn dfa_separator_char(c: char) -> bool {
    c == '{' || c == '}' || c == '(' || c == ')' || c == ';' || c == ','
}

/// The automaton for a word that starts with `c` and goes on with `nc`.
pub open spec fn chosen_dfa(c: char, nc: char) -> DFA {
    if unicode_alphabetic(c) {
        DFA::Id
    } else if invisible(low_byte(c)) {
        DFA::Whitespace
    } else if unicode_numeric(c) {
        DFA::Num
    } else if c == '\'' {
        DFA::Char
    } else if c == '"' {
        DFA::Str
    } else if c == '/' && (nc == '*' || nc == '/') {
        DFA::Comments
    } else if dfa_separator_char(c) {
        DFA::Separator
    } else {
        DFA::Operator
    }
}

/// The automaton for a word that starts with `c` and goes on with `nc`;
/// there always is one.
pub fn choose_dfa(c: char, nc: char) -> (r: Option<DFA>)
    ensures
        r == Some(chosen_dfa(c, nc)),
{
    if is_alphabetic(c) {
        Some(DFA::Id)
    } else if is_invisible_char(byte_of(c)) {
        Some(DFA::Whitespace)
    } else if is_numeric(c) {
        Some(DFA::Num)
    } else if c == '\'' {
        Some(DFA::Char)
    } else if c == '"' {
        Some(DFA::Str)
    } else if c == '/' && (nc == '*' || nc == '/') {
        Some(DFA::Comments)
    } else if c == '{' || c == '}' || c == '(' || c == ')' || c == ';' || c == ',' {
        Some(DFA::Separator)
    } else {
        Some(DFA::Operator)
    }
}

/// Identifiers: a letter or `_`, then letters, digits and `_`.
pub open spec fn id_step(s: u8, c: char) -> State {
    if s == 0 {
        if c == '_' || unicode_alphabetic(c) {
            State::MoveTo(2)
        } else {
            State::Unaccepted
        }
    } else if s == 2 {
        if c == '_' || unicode_alphabetic(c) || unicode_numeric(c) {
            State::MoveTo(0)
        } else {
            State::Accepted(WordType::Id)
        }
    } else {
        State::Unaccepted
    }
}

/// The automaton for identifiers.
pub fn dfa_id(s: u8, c: char) -> (r: State)
    ensures
        r == id_step(s, c),
{
    if s == INIT {
        if c == '_' || is_alphabetic(c) {
            State::MoveTo(DONE)
        } else {
            State::Unaccepted
        }
    } else if s == DONE {
        if c == '_' || is_alphabetic(c) || is_numeric(c) {
            State::MoveTo(INIT)
        } else {
            State::Accepted(WordType::Id)
        }
    } else {
        State::Unaccepted
    }
}

/// White space: one or more white-space characters.
pub open spec fn whitespace_step(s: u8, c: char) -> State {
    if s == 0 {
        if invisible(low_byte(c)) {
            State::MoveTo(1)
        } else {
            State::Unaccepted
        }
    } else if s == 1 {
        if invisible(low_byte(c)) {
            State::MoveTo(1)
        } else {
            State::Accepted(WordType::Other)
        }
    } else {
        State::Unaccepted
    }
}

/// The automaton for white space.
pub fn dfa_whitespace(s: u8, c: char) -> (r: State)
    ensures
        r == whitespace_step(s, c),
{
    if s == 0 {
        if is_invisible_char(byte_of(c)) {
            State::MoveTo(1)
        } else {
            State::Unaccepted
        }
    } else if s == 1 {
        if is_invisible_char(byte_of(c)) {
            State::MoveTo(1)
        } else {
            State::Accepted(WordType::Other)
        }
    } else {
        State::Unaccepted
    }
}

/// Numbers: digits, and optionally a point and more digits.
pub open spec fn num_step(s: u8, c: char) -> State {
    if s == 0 {
        if unicode_numeric(c) {
            State::MoveTo(1)
        } else {
            State::Unaccepted
        }
    } else if s == 1 {
        if unicode_numeric(c) {
            State::MoveTo(1)
        } else if c == '.' {
            State::MoveTo(2)
        } else {
            State::Accepted(WordType::Value)
        }
    } else if s == 2 {
        if unicode_numeric(c) {
            State::MoveTo(3)
        } else {
            State::Unaccepted
        }
    } else if s == 3 {
        if unicode_numeric(c) {
            State::MoveTo(3)
        } else {
            State::Accepted(WordType::Value)
        }
    } else {
        State::Unaccepted
    }
}

/// The automaton for numbers.
pub fn dfa_num(s: u8, c: char) -> (r: State)
    ensures
        r == num_step(s, c),
{
    if s == 0 {
        if is_numeric(c) {
            State::MoveTo(1)
        } else {
            State::Unaccepted
        }
    } else if s == 1 {
        if is_numeric(c) {
            State::MoveTo(1)
        } else if c == '.' {
            State::MoveTo(2)
        } else {
            State::Accepted(WordType::Value)
        }
    } else if s == 2 {
        if is_numeric(c) {
            State::MoveTo(3)
        } else {
            State::Unaccepted
        }
    } else if s == 3 {
        if is_numeric(c) {
            State::MoveTo(3)
        } else {
            State::Accepted(WordType::Value)
        }
    } else {
        State::Unaccepted
    }
}

/// Operators: one of `< > = ! + - * /`, optionally followed by `=`.
pub open spec fn operator_step(s: u8, c: char) -> State {
    if s == 0 {
        if c == '<' || c == '>' || c == '=' || c == '!' || c == '+' || c == '-' || c == '*' || c
            == '/' {
            State::MoveTo(1)
        } else {
            State::Unaccepted
        }
    } else if s == 1 {
        if c == '=' {
            State::MoveTo(2)
        } else {
            State::Accepted(WordType::Operator)
        }
    } else if s == 2 {
        State::Accepted(WordType::Operator)
    } else {
        State::Unaccepted
    }
}

/// The automaton for operators.
pub fn dfa_operator(s: u8, c: char) -> (r: State)
    ensures
        r == operator_step(s, c),
{
    if s == 0 {
        if c == '<' || c == '>' || c == '=' || c == '!' || c == '+' || c == '-' || c == '*' || c
            == '/' {
            State::MoveTo(1)
        } else {
            State::Unaccepted
        }
    } else if s == 1 {
        if c == '=' {
            State::MoveTo(2)
        } else {
            State::Accepted(WordType::Operator)
        }
    } else if s == 2 {
        State::Accepted(WordType::Operator)
    } else {
        State::Unaccepted
    }
}

/// Character values: a quote, one printable character, a quote.
pub open spec fn char_step(s: u8, c: char) -> State {
    if s == 0 {
        if c == '\'' {
            State::MoveTo(1)
        } else {
            State::Unaccepted
        }
    } else if s == 1 {
        if 32 <= low_byte(c) && low_byte(c) <= 126 {
            State::MoveTo(2)
        } else {
            State::Unaccepted
        }
    } else if s == 2 {
        if c == '\'' {
            State::MoveTo(3)
        } else {
            State::Unaccepted
        }
    } else if s == 3 {
        State::Accepted(WordType::Value)
    } else {
        State::Unaccepted
    }
}

/// The automaton for character values.
pub fn dfa_char(s: u8, c: char) -> (r: State)
    ensures
        r == char_step(s, c),
{
    if s == 0 {
        if c == '\'' {
            State::MoveTo(1)
        } else {
            State::Unaccepted
        }
    } else if s == 1 {
        if byte_of(c) >= 32 && byte_of(c) <= 126 {
            State::MoveTo(2)
        } else {
            State::Unaccepted
        }
    } else if s == 2 {
        if c == '\'' {
            State::MoveTo(3)
        } else {
            State::Unaccepted
        }
    } else if s == 3 {
        State::Accepted(WordType::Value)
    } else {
        State::Unaccepted
    }
}

/// Separators: one of `{ } ( ) , ;`.
pub open spec fn separator_step(s: u8, c: char) -> State {
    if s == 0 {
        if dfa_separator_char(c) {
            State::MoveTo(1)
        } else {
            State::Unaccepted
        }
    } else if s == 1 {
        State::Accepted(WordType::Separator)
    } else {
        State::Unaccepted
    }
}

/// The automaton for separators.
pub fn dfa_separator(s: u8, c: char) -> (r: State)
    ensures
        r == separator_step(s, c),
{
    if s == 0 {
        if c == '{' || c == '}' || c == '(' || c == ')' || c == ',' || c == ';' {
            State::MoveTo(1)
        } else {
            State::Unaccepted
        }
    } else if s == 1 {
        State::Accepted(WordType::Separator)
    } else {
        State::Unaccepted
    }
}

/// String values: a double quote, anything up to the next double quote.
pub open spec fn string_step(s: u8, c: char) -> State {
    if s == 0 {
        if c == '"' {
            State::MoveTo(1)
        } else {
            State::Unaccepted
        }
    } else if s == 1 {
        if c != '"' {
            State::MoveTo(1)
        } else {
            State::MoveTo(2)
        }
    } else if s == 2 {
        State::Accepted(WordType::Value)
    } else {
        State::Unaccepted
    }
}

/// The automaton for string values.
pub fn dfa_string(s: u8, c: char) -> (r: State)
    ensures
        r == string_step(s, c),
{
    if s == 0 {
        if c == '"' {
            State::MoveTo(1)
        } else {
            State::Unaccepted
        }
    } else if s == 1 {
        if c != '"' {
            State::MoveTo(1)
        } else {
            State::MoveTo(2)
        }
    } else if s == 2 {
        State::Accepted(WordType::Value)
    } else {
        State::Unaccepted
    }
}

/// Comments: `/*` up to `*/`, or `//` up to the end of the line.
pub open spec fn comments_step(s: u8, c: char) -> State {
    if s == 0 {
        if c == '/' {
            State::MoveTo(1)
        } else {
            State::Unaccepted
        }
    } else if s == 1 {
        if c == '*' {
            State::MoveTo(2)
        } else if c == '/' {
            State::MoveTo(3)
        } else {
            State::Unaccepted
        }
    } else if s == 2 || s == 5 {
        if c == '*' {
            State::MoveTo(4)
        } else {
            State::MoveTo(5)
        }
    } else if s == 3 || s == 6 {
        if low_byte(c) == 10 {
            State::MoveTo(7)
        } else {
            State::MoveTo(6)
        }
    } else if s == 4 {
        if c == '/' {
            State::MoveTo(7)
        } else {
            State::Unaccepted
        }
    } else if s == 7 {
        State::Accepted(WordType::Other)
    } else {
        State::Unaccepted
    }
}

/// The automaton for comments.
pub fn dfa_comments(s: u8, c: char) -> (r: State)
    ensures
        r == comments_step(s, c),
{
    if s == 0 {
        if c == '/' {
            State::MoveTo(1)
        } else {
            State::Unaccepted
        }
    } else if s == 1 {
        if c == '*' {
            State::MoveTo(2)
        } else if c == '/' {
            State::MoveTo(3)
        } else {
            State::Unaccepted
        }
    } else if s == 2 || s == 5 {
        if c == '*' {
            State::MoveTo(4)
        } else {
            State::MoveTo(5)
        }
    } else if s == 3 || s == 6 {
        if byte_of(c) == NEWLINE {
            State::MoveTo(7)
        } else {
            State::MoveTo(6)
        }
    } else if s == 4 {
        if c == '/' {
            State::MoveTo(7)
        } else {
            State::Unaccepted
        }
    } else if s == 7 {
        State::Accepted(WordType::Other)
    } else {
        State::Unaccepted
    }
}

/// What the automaton `dfa` does in state `s` at the character `c`.
pub open spec fn dfa_step(dfa: DFA, s: u8, c: char) -> State {
    match dfa {
        DFA::Id => id_step(s, c),
        DFA::Whitespace => whitespace_step(s, c),
        DFA::Num => num_step(s, c),
        DFA::Char => char_step(s, c),
        DFA::Str => string_step(s, c),
        DFA::Comments => comments_step(s, c),
        DFA::Separator => separator_step(s, c),
        DFA::Operator => operator_step(s, c),
    }
}

impl DFA {
    /// Runs the automaton for one character.
    pub fn step(&self, s: u8, c: char) -> (r: State)
        ensures
            r == dfa_step(*self, s, c),
    {
        match self {
            DFA::Id => dfa_id(s, c),
            DFA::Whitespace => dfa_whitespace(s, c),
            DFA::Num => dfa_num(s, c),
            DFA::Char => dfa_char(s, c),
            DFA::Str => dfa_string(s, c),
            DFA::Comments => dfa_comments(s, c),
            DFA::Separator => dfa_separator(s, c),
            DFA::Operator => dfa_operator(s, c),
        }
    }
}

} // verus!
