//! Tokens, and the tokenizer: the loop that feeds the characters of a
//! source text to the state machine and turns the words that it accepts
//! into tokens.

use crate::lexer::file::{char_at, Source};
use crate::lexer::helper::{
    byte_of, invisible, is_bool_identifier, is_invisible_char, is_reserved_word, is_separator,
    low_byte, next_state, reserved_word, separator, transition, BinaryType, LiteralType, State,
    WordType,
};
use crate::text::{nat_text, push_nat, push_text, texts};
use crate::utils::types::PhraseType;
use vstd::prelude::*;

verus! {

/// A token: the line it ends on, its kind and its text.
#[derive(Debug, PartialEq, Eq)]
pub struct Token {
    pub pos: usize,
    pub types: PhraseType,
    pub value: String,
}

/// The mathematical value of a token.
pub ghost struct TokenV {
    pub pos: nat,
    pub types: PhraseType,
    pub value: Seq<char>,
}

impl View for Token {
    type V = TokenV;

    open spec fn view(&self) -> TokenV {
        TokenV { pos: self.pos as nat, types: self.types, value: self.value@ }
    }
}

/// The values of a list of tokens.
pub open spec fn token_views(tokens: Seq<Token>) -> Seq<TokenV> {
    tokens.map_values(|t: Token| t@)
}

impl Clone for Token {
    fn clone(&self) -> (r: Self)
        ensures
            r == *self,
    {
        Token { pos: self.pos, types: self.types, value: self.value.clone() }
    }
}

/// Appends the token with the given line, kind and text to `array`.
pub fn push(pos_cow: usize, types: PhraseType, token_value: String, array: &mut Vec<Token>)
    ensures
        final(array)@ == old(array)@.push(
            (Token { pos: pos_cow, types: types, value: token_value }),
        ),
{
    array.push(Token { pos: pos_cow, types, value: token_value });
}

/// Whether `c` and the character behind it are the `0x` that opens a
/// hexadecimal literal which the machine has just begun to handle.
pub fn is_hex_format(c: char, nc: Option<char>, state: State) -> (r: bool)
    ensures
        r == (state == State::Handling(WordType::Literal(LiteralType::Integer(BinaryType::Hex)))
            && c == '0' && nc == Some('x')),
{
    match state {
        State::Handling(WordType::Literal(LiteralType::Integer(BinaryType::Hex))) => {
            let next_c = match nc {
                Some(n) => n,
                None => ' ',
            };
            c == '0' && next_c == 'x'
        },
        _ => false,
    }
}

// ---------------------------------------------------------------------
// What the tokenizer produces
// ---------------------------------------------------------------------

/// A place in the source text: the read position, and the line and the
/// column that are counted for it.
pub ghost struct Cursor {
    pub p: nat,
    pub row: nat,
    pub col: nat,
}

/// `cur` one character further.
pub open spec fn stepped(cur: Cursor) -> Cursor {
    Cursor { p: cur.p + 1, row: cur.row, col: cur.col }
}

/// `cur` with line and column moved past `c`: a line feed starts the next
/// line at column 1, any other character is one more column.
pub open spec fn advanced(cur: Cursor, c: char) -> Cursor {
    if low_byte(c) == 10 {
        Cursor { p: cur.p, row: cur.row + 1, col: 1 }
    } else {
        Cursor { p: cur.p, row: cur.row, col: cur.col + 1 }
    }
}

/// The place behind a comment that runs to the end of the line: behind
/// the next line feed, which alone is counted, or at the end of the text.
pub open spec fn skip_line(bytes: Seq<u8>, cur: Cursor) -> Cursor
    decreases bytes.len() - cur.p,
{
    match char_at(bytes, cur.p as int) {
        None => cur,
        Some(c) => if low_byte(c) == 10 {
            advanced(stepped(cur), c)
        } else {
            skip_line(bytes, stepped(cur))
        },
    }
}

/// The place behind a comment that runs to the next `*/`, or to the end
/// of the text. `star` says that a `*` was just read. The stars and the
/// closing `/` are not counted.
pub open spec fn skip_block(bytes: Seq<u8>, cur: Cursor, star: bool) -> Cursor
    decreases bytes.len() - cur.p,
{
    match char_at(bytes, cur.p as int) {
        None => cur,
        Some(c) => if c == '*' {
            skip_block(bytes, stepped(cur), true)
        } else if star && c == '/' {
            stepped(cur)
        } else {
            skip_block(bytes, advanced(stepped(cur), c), false)
        },
    }
}

/// A refused word read to its end: the place behind the next separator
/// or white space, and the word with the characters before it.
pub ghost struct Refused {
    pub cur: Cursor,
    pub word: Seq<char>,
}

/// Reads on in a refused word from `cur`.
pub open spec fn skip_refused(bytes: Seq<u8>, cur: Cursor, word: Seq<char>) -> Refused
    decreases bytes.len() - cur.p,
{
    match char_at(bytes, cur.p as int) {
        None => Refused { cur, word },
        Some(c) => if separator(c) || invisible(low_byte(c)) {
            Refused { cur: advanced(stepped(cur), c), word }
        } else {
            skip_refused(bytes, advanced(stepped(cur), c), word.push(c))
        },
    }
}

/// The kind of token that an accepted word of kind `t` and text `word`
/// makes; a comment makes none.
pub open spec fn phrase_of(t: WordType, word: Seq<char>) -> Option<PhraseType> {
    match t {
        WordType::Identifier => if reserved_word(word) {
            Some(PhraseType::Keyword)
        } else if word == "true"@ || word == "false"@ {
            Some(PhraseType::Bool)
        } else {
            Some(PhraseType::Identifier)
        },
        WordType::Operator => Some(PhraseType::Operator),
        WordType::Separator => Some(PhraseType::Separator),
        WordType::Literal(LiteralType::Integer(BinaryType::Hex)) => Some(PhraseType::Hex),
        WordType::Literal(LiteralType::Integer(BinaryType::Oct)) => Some(PhraseType::Oct),
        WordType::Literal(LiteralType::Integer(BinaryType::Dec)) => Some(PhraseType::Dec),
        WordType::Literal(LiteralType::Integer(BinaryType::Unknown)) => Some(PhraseType::Unknown),
        WordType::Literal(LiteralType::Float) => Some(PhraseType::Float),
        WordType::Literal(LiteralType::Char) => Some(PhraseType::Char),
        WordType::Literal(LiteralType::Unknown) => Some(PhraseType::Unknown),
        WordType::String => Some(PhraseType::String),
        WordType::Comment => None,
        WordType::Unknown => Some(PhraseType::Unknown),
    }
}

/// The text of a string between double quotes, as the standard library
/// writes it for debugging, with its escapes.
pub uninterp spec fn quoted(s: Seq<char>) -> Seq<char>;

/// The message for a refused word `word` that began at line `row` and
/// column `col`.
pub open spec fn error_message(row: nat, col: nat, word: Seq<char>) -> Seq<char> {
    "Error->position ("@ + nat_text(row) + ", "@ + nat_text(col) + ")! "@ + quoted(word)
}

/// The tokenizer between two characters.
pub ghost struct Lexing {
    pub cur: Cursor,
    pub state: State,
    pub word: Seq<char>,
    pub tokens: Seq<TokenV>,
    pub errors: Seq<Seq<char>>,
}

/// The tokenizer after the character `c` at its place, with `nc` behind
/// it.
///
/// The machine takes its step. In `Init` the character is only counted.
/// While a word is handled the character is counted and joins the word;
/// the `x` of a hexadecimal literal joins together with its `0`. An
/// accepted word takes the character in, unless it is a line feed or a
/// space, and becomes a token of the line counted after it; an accepted
/// comment is skipped to its end instead. A refused word is read to the
/// next separator or white space and becomes a message with the place
/// where its first character stood.
pub open spec fn lex_step(bytes: Seq<u8>, s: Lexing, c: char, nc: Option<char>) -> Lexing {
    let state = next_state(c, nc, s.state);
    let cur = stepped(s.cur);
    match state {
        State::Accepted(t) => {
            let word = if low_byte(c) != 10 && low_byte(c) != 0x20 {
                s.word.push(c)
            } else {
                s.word
            };
            let counted = advanced(cur, c);
            match phrase_of(t, word) {
                Some(kind) => Lexing {
                    cur: counted,
                    state: State::Init,
                    word: Seq::empty(),
                    tokens: s.tokens.push(TokenV { pos: counted.row, types: kind, value: word }),
                    errors: s.errors,
                },
                None => Lexing {
                    cur: if word.len() >= 2 && word[1] == '/' {
                        skip_line(bytes, counted)
                    } else {
                        skip_block(bytes, counted, false)
                    },
                    state: State::Init,
                    word: Seq::empty(),
                    tokens: s.tokens,
                    errors: s.errors,
                },
            }
        },
        State::Unaccepted => {
            let refused = skip_refused(bytes, cur, s.word.push(c));
            Lexing {
                cur: refused.cur,
                state: State::Init,
                word: Seq::empty(),
                tokens: s.tokens,
                errors: s.errors.push(error_message(s.cur.row, s.cur.col, refused.word)),
            }
        },
        State::Handling(_) => if state == State::Handling(
            WordType::Literal(LiteralType::Integer(BinaryType::Hex)),
        ) && c == '0' && nc == Some('x') {
            Lexing {
                cur: stepped(advanced(cur, c)),
                state,
                word: s.word.push(c).push('x'),
                tokens: s.tokens,
                errors: s.errors,
            }
        } else {
            Lexing {
                cur: advanced(cur, c),
                state,
                word: s.word.push(c),
                tokens: s.tokens,
                errors: s.errors,
            }
        },
        State::Init => Lexing {
            cur: advanced(cur, c),
            state,
            word: s.word,
            tokens: s.tokens,
            errors: s.errors,
        },
    }
}

/// A skipped line comment ends no earlier than it began.
pub proof fn lemma_skip_line_advances(bytes: Seq<u8>, cur: Cursor)
    requires
        cur.p <= bytes.len(),
    ensures
        cur.p <= skip_line(bytes, cur).p <= bytes.len(),
    decreases bytes.len() - cur.p,
{
    if char_at(bytes, cur.p as int) is Some && low_byte(char_at(bytes, cur.p as int)->0) != 10 {
        lemma_skip_line_advances(bytes, stepped(cur));
    }
}

/// A skipped block comment ends no earlier than it began.
pub proof fn lemma_skip_block_advances(bytes: Seq<u8>, cur: Cursor, star: bool)
    requires
        cur.p <= bytes.len(),
    ensures
        cur.p <= skip_block(bytes, cur, star).p <= bytes.len(),
    decreases bytes.len() - cur.p,
{
    match char_at(bytes, cur.p as int) {
        None => {},
        Some(c) => {
            if c == '*' {
                lemma_skip_block_advances(bytes, stepped(cur), true);
            } else if star && c == '/' {
            } else {
                lemma_skip_block_advances(bytes, advanced(stepped(cur), c), false);
            }
        },
    }
}

/// A refused word ends no earlier than it began.
pub proof fn lemma_skip_refused_advances(bytes: Seq<u8>, cur: Cursor, word: Seq<char>)
    requires
        cur.p <= bytes.len(),
    ensures
        cur.p <= skip_refused(bytes, cur, word).cur.p <= bytes.len(),
    decreases bytes.len() - cur.p,
{
    match char_at(bytes, cur.p as int) {
        None => {},
        Some(c) => {
            if !(separator(c) || invisible(low_byte(c))) {
                lemma_skip_refused_advances(bytes, advanced(stepped(cur), c), word.push(c));
            }
        },
    }
}

/// Every step of the tokenizer moves on in the text.
pub proof fn lemma_step_advances(bytes: Seq<u8>, s: Lexing, c: char, nc: Option<char>)
    requires
        char_at(bytes, s.cur.p as int) == Some(c),
        nc == char_at(bytes, s.cur.p as int + 1),
    ensures
        s.cur.p < lex_step(bytes, s, c, nc).cur.p <= bytes.len(),
{
    let cur = stepped(s.cur);
    lemma_skip_line_advances(bytes, advanced(cur, c));
    lemma_skip_block_advances(bytes, advanced(cur, c), false);
    lemma_skip_refused_advances(bytes, cur, s.word.push(c));
}

/// The tokenizer at the end of the text, run on from `s`: it stops at
/// the end of the text and at the first byte that is not ASCII.
pub open spec fn lex_from(bytes: Seq<u8>, s: Lexing) -> Lexing
    decreases bytes.len() - s.cur.p,
{
    match char_at(bytes, s.cur.p as int) {
        None => s,
        Some(c) => {
            proof {
                lemma_step_advances(bytes, s, c, char_at(bytes, s.cur.p as int + 1));
            }
            lex_from(bytes, lex_step(bytes, s, c, char_at(bytes, s.cur.p as int + 1)))
        },
    }
}

/// The state in which the tokenizer starts: at the first byte, in line 1
/// and column 1, with nothing read.
pub open spec fn lex_start() -> Lexing {
    Lexing {
        cur: Cursor { p: 0, row: 1, col: 1 },
        state: State::Init,
        word: Seq::empty(),
        tokens: Seq::empty(),
        errors: Seq::empty(),
    }
}

/// The tokens of the text `bytes`.
pub open spec fn tokens_of(bytes: Seq<u8>) -> Seq<TokenV> {
    lex_from(bytes, lex_start()).tokens
}

/// The messages for the refused words of the text `bytes`.
pub open spec fn errors_of(bytes: Seq<u8>) -> Seq<Seq<char>> {
    lex_from(bytes, lex_start()).errors
}

// ---------------------------------------------------------------------
// The tokenizer
// ---------------------------------------------------------------------

/// `format!` of the standard library with `{:?}` on a string slice: the
/// text between double quotes, with its escapes.
#[verifier::external_body]
pub(crate) fn debug_quoted(s: &str) -> (r: String)
    ensures
        r@ == quoted(s@),
{
    format!("{:?}", s)
}

fn string_of(chars: &Vec<char>) -> (r: String)
    ensures
        r@ == chars@,
{
    let mut out = String::new();
    let mut i: usize = 0;
    while i < chars.len()
        invariant
            i <= chars.len(),
            out@ == chars@.take(i as int),
        decreases chars.len() - i,
    {
        out.push(chars[i]);
        i += 1;
        assert(chars@.take(i as int) == chars@.take(i - 1).push(chars@[i - 1]));
    }
    assert(chars@.take(chars.len() as int) == chars@);
    out
}

/// The place that a source text is read at.
pub open spec fn cursor_of(f: Source) -> Cursor {
    Cursor { p: f.pointer() as nat, row: f.row() as nat, col: f.col() as nat }
}

/// The source text `f` is in a state that the tokenizer keeps: the read
/// position is inside the text or at its end, and line and column have
/// been counted for no more characters than were read, so that they fit
/// 32 bits.
pub open spec fn within(f: Source) -> bool {
    &&& f.wf()
    &&& 0 <= f.pointer() <= f.bytes().len()
    &&& 1 <= f.col()
    &&& 0 <= f.row()
    &&& f.row() + f.col() <= f.pointer() + 2
    &&& f.bytes().len() + 2 <= u32::MAX
}

fn skip_line_comment(f: &mut Source)
    requires
        within(*old(f)),
    ensures
        within(*final(f)),
        final(f).bytes() == old(f).bytes(),
        cursor_of(*final(f)) == skip_line(old(f).bytes(), cursor_of(*old(f))),
{
    let ghost bytes = f.bytes();
    let ghost start = cursor_of(*f);
    loop
        invariant
            within(*f),
            f.bytes() == bytes,
            bytes == old(f).bytes(),
            start == cursor_of(*old(f)),
            skip_line(bytes, cursor_of(*f)) == skip_line(bytes, start),
        decreases f.bytes().len() - f.pointer(),
    {
        match f.get_char() {
            Some(c) => {
                f.update_pointer(1);
                if byte_of(c) == 10 {
                    f.update_position(c);
                    return ;
                }
            },
            None => {
                return ;
            },
        }
    }
}

fn skip_block_comment(f: &mut Source)
    requires
        within(*old(f)),
    ensures
        within(*final(f)),
        final(f).bytes() == old(f).bytes(),
        cursor_of(*final(f)) == skip_block(old(f).bytes(), cursor_of(*old(f)), false),
{
    let ghost bytes = f.bytes();
    let ghost start = cursor_of(*f);
    let mut comment_end = false;
    loop
        invariant
            within(*f),
            f.bytes() == bytes,
            bytes == old(f).bytes(),
            start == cursor_of(*old(f)),
            skip_block(bytes, cursor_of(*f), comment_end) == skip_block(bytes, start, false),
        decreases f.bytes().len() - f.pointer(),
    {
        match f.get_char() {
            Some(c) => {
                f.update_pointer(1);
                if c == '*' {
                    comment_end = true;
                } else if comment_end && c == '/' {
                    return ;
                } else {
                    f.update_position(c);
                    comment_end = false;
                }
            },
            None => {
                return ;
            },
        }
    }
}

fn skip_refused_word(f: &mut Source, token: &mut Vec<char>)
    requires
        within(*old(f)),
    ensures
        within(*final(f)),
        final(f).bytes() == old(f).bytes(),
        cursor_of(*final(f)) == skip_refused(old(f).bytes(), cursor_of(*old(f)), old(token)@).cur,
        final(token)@ == skip_refused(old(f).bytes(), cursor_of(*old(f)), old(token)@).word,
{
    let ghost bytes = f.bytes();
    let ghost start = cursor_of(*f);
    let ghost word0 = token@;
    loop
        invariant
            within(*f),
            f.bytes() == bytes,
            bytes == old(f).bytes(),
            start == cursor_of(*old(f)),
            word0 == old(token)@,
            skip_refused(bytes, cursor_of(*f), token@) == skip_refused(bytes, start, word0),
        decreases f.bytes().len() - f.pointer(),
    {
        match f.get_char() {
            Some(c) => {
                f.update_pointer(1);
                f.update_position(c);
                if is_separator(c) || is_invisible_char(byte_of(c)) {
                    return ;
                }
                token.push(c);
            },
            None => {
                return ;
            },
        }
    }
}

fn phrase(t: WordType, word: &Vec<char>) -> (r: Option<PhraseType>)
    ensures
        r == phrase_of(t, word@),
{
    match t {
        WordType::Identifier => {
            if is_reserved_word(string_of(word)) {
                Some(PhraseType::Keyword)
            } else if is_bool_identifier(string_of(word)) {
                Some(PhraseType::Bool)
            } else {
                Some(PhraseType::Identifier)
            }
        },
        WordType::Operator => Some(PhraseType::Operator),
        WordType::Separator => Some(PhraseType::Separator),
        WordType::Literal(l) => match l {
            LiteralType::Integer(b) => match b {
                BinaryType::Hex => Some(PhraseType::Hex),
                BinaryType::Oct => Some(PhraseType::Oct),
                BinaryType::Dec => Some(PhraseType::Dec),
                BinaryType::Unknown => Some(PhraseType::Unknown),
            },
            LiteralType::Float => Some(PhraseType::Float),
            LiteralType::Char => Some(PhraseType::Char),
            LiteralType::Unknown => Some(PhraseType::Unknown),
        },
        WordType::String => Some(PhraseType::String),
        WordType::Comment => None,
        WordType::Unknown => Some(PhraseType::Unknown),
    }
}

fn message(row: u32, col: u32, word: &Vec<char>) -> (r: String)
    ensures
        r@ == error_message(row as nat, col as nat, word@),
{
    let mut out = String::new();
    push_text(&mut out, "Error->position (");
    push_nat(&mut out, row as u128);
    push_text(&mut out, ", ");
    push_nat(&mut out, col as u128);
    push_text(&mut out, ")! ");
    let text = string_of(word);
    let shown = debug_quoted(text.as_str());
    push_text(&mut out, shown.as_str());
    assert(out@ =~= error_message(row as nat, col as nat, word@));
    out
}

/// The tokens of the source text `buffer`, and the messages for the
/// words that were refused. The text is read to its end, or to its first
/// byte that is not ASCII.
pub fn run(buffer: Vec<u8>) -> (r: (Vec<Token>, Vec<String>))
    requires
        buffer.len() + 2 <= u32::MAX,
    ensures
        token_views(r.0@) == tokens_of(buffer@),
        texts(r.1@) == errors_of(buffer@),
{
    let ghost bytes = buffer@;
    let mut f = Source::from_bytes(buffer);
    let mut tokens: Vec<Token> = Vec::new();
    let mut state = State::Init;
    let mut token: Vec<char> = Vec::new();
    let mut err_info: Vec<String> = Vec::new();
    assert(token_views(tokens@) =~= Seq::<TokenV>::empty());
    assert(texts(err_info@) =~= Seq::<Seq<char>>::empty());
    loop
        invariant
            within(f),
            f.bytes() == bytes,
            lex_from(bytes, lex_start()) == lex_from(
                bytes,
                (Lexing {
                    cur: cursor_of(f),
                    state: state,
                    word: token@,
                    tokens: token_views(tokens@),
                    errors: texts(err_info@),
                }),
            ),
        ensures
            token_views(tokens@) == lex_from(bytes, lex_start()).tokens,
            texts(err_info@) == lex_from(bytes, lex_start()).errors,
        decreases f.bytes().len() - f.pointer(),
    {
        let ghost before = Lexing {
            cur: cursor_of(f),
            state: state,
            word: token@,
            tokens: token_views(tokens@),
            errors: texts(err_info@),
        };
        let c = match f.get_char() {
            Some(c) => c,
            None => {
                break ;
            },
        };
        let nc = f.look_forward();
        let ghost after = lex_step(bytes, before, c, nc);
        proof {
            lemma_step_advances(bytes, before, c, nc);
        }
        let start = f.position();
        state = match transition(c, nc, state) {
            Some(next) => next,
            None => State::Init,
        };
        f.update_pointer(1);
        match state {
            State::Accepted(t) => {
                if byte_of(c) != 10 && byte_of(c) != 0x20 {
                    token.push(c);
                }
                f.update_position(c);
                let pos_cow = f.position().0 as usize;
                match phrase(t, &token) {
                    Some(kind) => {
                        let ghost seen = token_views(tokens@);
                        let value = string_of(&token);
                        push(pos_cow, kind, value, &mut tokens);
                        assert(token_views(tokens@) =~= seen.push(
                            (TokenV { pos: pos_cow as nat, types: kind, value: token@ }),
                        ));
                    },
                    None => {
                        if token.len() >= 2 && token[1] == '/' {
                            skip_line_comment(&mut f);
                        } else {
                            skip_block_comment(&mut f);
                        }
                    },
                }
                token.clear();
                state = State::Init;
            },
            State::Unaccepted => {
                token.push(c);
                skip_refused_word(&mut f, &mut token);
                let ghost seen = texts(err_info@);
                let info = message(start.0, start.1, &token);
                err_info.push(info);
                assert(texts(err_info@) =~= seen.push(info@));
                token.clear();
                state = State::Init;
            },
            State::Handling(_) => {
                f.update_position(c);
                token.push(c);
                if is_hex_format(c, nc, state) {
                    token.push('x');
                    f.update_pointer(1);
                }
            },
            State::Init => {
                f.update_position(c);
            },
        }
        assert(after == (Lexing {
            cur: cursor_of(f),
            state: state,
            word: token@,
            tokens: token_views(tokens@),
            errors: texts(err_info@),
        }));
    }
    (tokens, err_info)
}

} // verus!
