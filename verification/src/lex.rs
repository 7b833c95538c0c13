//! Lexing of package script text into positioned tokens.
//!
//! The lexer works in a single forward pass over the characters of the text.
//! Every token is the longest run of characters that its kind admits, and is
//! recorded with the position of the character that ended it.

use vstd::prelude::*;
use crate::text::{
    char_is_alphanumeric, char_is_numeric, char_is_whitespace, int_text, parse_i64, parse_number,
    prepend, push_int, push_text, str_chars, string_from_chars,
};

verus! {

/// Generic side for something like a bracket.
#[derive(Debug, PartialEq, Eq, Copy, Clone, Structural)]
pub enum Side {
    /// Something on the left side, such as `[`.
    Left,
    /// Something on the right side, such as `]`.
    Right,
}

/// A token that we derive from text.
#[derive(Debug, PartialEq)]
pub enum Token {
    /// An empty token with no meaning. These never appear in the output of
    /// the lexer; consumers just skip over them.
    Empty,
    /// Any whitespace, such as tabs and newlines.
    Whitespace,
    /// A semicolon (`;`).
    Semicolon,
    /// A colon (`:`).
    Colon,
    /// A comma (`,`).
    Comma,
    /// A pipe / bar (`|`).
    Pipe,
    /// An at symbol (`@`).
    At,
    /// An exclamation point (`!`).
    Bang,
    /// A variable (`$var_name`).
    Variable(String),
    /// A curly brace (`{` / `}`).
    Curly(Side),
    /// A square bracket (`[` / `]`).
    Square(Side),
    /// A parenthesis (`(` / `)`).
    Paren(Side),
    /// An angle bracket (`<` / `>`).
    Angle(Side),
    /// A comment.
    Comment(String),
    /// An identifier (`foo`).
    Ident(String),
    /// An integer number (`-12`, `6`, `128`, etc.).
    Num(i64),
    /// A string literal (`"'hello' there"`).
    Str(String),
}

/// The mathematical value of a [`Token`]: the same variants over sequences
/// of characters.
pub enum TokenView {
    Empty,
    Whitespace,
    Semicolon,
    Colon,
    Comma,
    Pipe,
    At,
    Bang,
    Variable(Seq<char>),
    Curly(Side),
    Square(Side),
    Paren(Side),
    Angle(Side),
    Comment(Seq<char>),
    Ident(Seq<char>),
    Num(i64),
    Str(Seq<char>),
}

impl View for Token {
    type V = TokenView;

    open spec fn view(&self) -> TokenView {
        match *self {
            Token::Empty => TokenView::Empty,
            Token::Whitespace => TokenView::Whitespace,
            Token::Semicolon => TokenView::Semicolon,
            Token::Colon => TokenView::Colon,
            Token::Comma => TokenView::Comma,
            Token::Pipe => TokenView::Pipe,
            Token::At => TokenView::At,
            Token::Bang => TokenView::Bang,
            Token::Variable(name) => TokenView::Variable(name@),
            Token::Curly(side) => TokenView::Curly(side),
            Token::Square(side) => TokenView::Square(side),
            Token::Paren(side) => TokenView::Paren(side),
            Token::Angle(side) => TokenView::Angle(side),
            Token::Comment(text) => TokenView::Comment(text@),
            Token::Ident(name) => TokenView::Ident(name@),
            Token::Num(num) => TokenView::Num(num),
            Token::Str(text) => TokenView::Str(text@),
        }
    }
}

impl DeepView for Token {
    type V = TokenView;

    open spec fn deep_view(&self) -> TokenView {
        self@
    }
}

impl Clone for Token {
    fn clone(&self) -> (r: Self)
        ensures
            r == *self,
    {
        match self {
            Token::Empty => Token::Empty,
            Token::Whitespace => Token::Whitespace,
            Token::Semicolon => Token::Semicolon,
            Token::Colon => Token::Colon,
            Token::Comma => Token::Comma,
            Token::Pipe => Token::Pipe,
            Token::At => Token::At,
            Token::Bang => Token::Bang,
            Token::Variable(name) => Token::Variable(name.clone()),
            Token::Curly(side) => Token::Curly(*side),
            Token::Square(side) => Token::Square(*side),
            Token::Paren(side) => Token::Paren(*side),
            Token::Angle(side) => Token::Angle(*side),
            Token::Comment(text) => Token::Comment(text.clone()),
            Token::Ident(name) => Token::Ident(name.clone()),
            Token::Num(num) => Token::Num(*num),
            Token::Str(text) => Token::Str(text.clone()),
        }
    }
}

impl TokenView {
    /// The text that prints this token.
    pub open spec fn text(self) -> Seq<char> {
        match self {
            TokenView::Empty => "none"@,
            TokenView::Whitespace => " "@,
            TokenView::Semicolon => ";"@,
            TokenView::Colon => ":"@,
            TokenView::Comma => ","@,
            TokenView::Pipe => "|"@,
            TokenView::At => "@"@,
            TokenView::Bang => "!"@,
            TokenView::Variable(name) => "$"@ + name,
            TokenView::Curly(Side::Left) => "{"@,
            TokenView::Curly(Side::Right) => "}"@,
            TokenView::Square(Side::Left) => "["@,
            TokenView::Square(Side::Right) => "]"@,
            TokenView::Paren(Side::Left) => "("@,
            TokenView::Paren(Side::Right) => ")"@,
            TokenView::Angle(Side::Left) => "<"@,
            TokenView::Angle(Side::Right) => ">"@,
            TokenView::Comment(text) => "# "@ + text,
            TokenView::Ident(name) => name,
            TokenView::Num(num) => int_text(num as int),
            TokenView::Str(text) => "\""@ + text + "\""@,
        }
    }

    /// Whether structural consumers read this token: everything but
    /// whitespace, comments and the empty token.
    pub open spec fn is_significant(self) -> bool {
        !(self is Whitespace || self is Comment || self is Empty)
    }
}

impl Token {
    /// Print this token as a string.
    pub fn as_string(&self) -> (r: String)
        ensures
            r@ == self@.text(),
    {
        let mut out = String::new();
        proof {
            assert(out@ + self@.text() =~= self@.text());
        }
        match self {
            Token::Empty => push_text(&mut out, "none"),
            Token::Whitespace => push_text(&mut out, " "),
            Token::Semicolon => push_text(&mut out, ";"),
            Token::Colon => push_text(&mut out, ":"),
            Token::Comma => push_text(&mut out, ","),
            Token::Pipe => push_text(&mut out, "|"),
            Token::At => push_text(&mut out, "@"),
            Token::Bang => push_text(&mut out, "!"),
            Token::Variable(name) => {
                push_text(&mut out, "$");
                push_text(&mut out, name.as_str());
                assert(out@ =~= self@.text());
            },
            Token::Curly(Side::Left) => push_text(&mut out, "{"),
            Token::Curly(Side::Right) => push_text(&mut out, "}"),
            Token::Square(Side::Left) => push_text(&mut out, "["),
            Token::Square(Side::Right) => push_text(&mut out, "]"),
            Token::Paren(Side::Left) => push_text(&mut out, "("),
            Token::Paren(Side::Right) => push_text(&mut out, ")"),
            Token::Angle(Side::Left) => push_text(&mut out, "<"),
            Token::Angle(Side::Right) => push_text(&mut out, ">"),
            Token::Comment(text) => {
                push_text(&mut out, "# ");
                push_text(&mut out, text.as_str());
                assert(out@ =~= self@.text());
            },
            Token::Ident(name) => push_text(&mut out, name.as_str()),
            Token::Num(num) => push_int(&mut out, *num),
            Token::Str(text) => {
                push_text(&mut out, "\"");
                push_text(&mut out, text.as_str());
                push_text(&mut out, "\"");
                assert(out@ =~= self@.text());
            },
        }
        out
    }

    /// Whether structural consumers read this token.
    pub fn is_significant(&self) -> (r: bool)
        ensures
            r == self@.is_significant(),
    {
        match self {
            Token::Whitespace | Token::Comment(_) | Token::Empty => false,
            _ => true,
        }
    }
}

/// Text positional information with row and column.
#[derive(Debug, Clone, Copy, PartialEq, Eq, Structural)]
pub struct TextPos(pub usize, pub usize);

impl TextPos {
    /// The row, counted from one.
    pub fn line(&self) -> (r: usize)
        ensures
            r == self.0,
    {
        self.0
    }

    /// The column within the row.
    pub fn column(&self) -> (r: usize)
        ensures
            r == self.1,
    {
        self.1
    }

    /// The text `(row:column)` that prints this position.
    pub open spec fn text(self) -> Seq<char> {
        "("@ + crate::text::nat_text(self.0 as nat) + ":"@ + crate::text::nat_text(self.1 as nat)
            + ")"@
    }

    /// Print this position as `(row:column)`.
    pub fn to_string(&self) -> (r: String)
        ensures
            r@ == self.text(),
    {
        let mut out = String::new();
        push_text(&mut out, "(");
        crate::text::push_nat(&mut out, self.0 as u64);
        push_text(&mut out, ":");
        crate::text::push_nat(&mut out, self.1 as u64);
        push_text(&mut out, ")");
        assert(out@ =~= self.text());
        out
    }
}

impl DeepView for TextPos {
    type V = TextPos;

    open spec fn deep_view(&self) -> TextPos {
        *self
    }
}

/// Token and TextPos.
pub type TokenAndPos = (Token, TextPos);

/// Why a text could not be lexed.
#[derive(Debug, PartialEq)]
pub enum LexError {
    /// A character that starts no token.
    UnexpectedChar(char, TextPos),
    /// A run of number characters that does not write a 64-bit integer,
    /// such as a lone `-`.
    InvalidNumber(String, TextPos),
}

/// The mathematical value of a [`LexError`].
pub enum LexErrorView {
    UnexpectedChar(char, TextPos),
    InvalidNumber(Seq<char>, TextPos),
}

impl View for LexError {
    type V = LexErrorView;

    open spec fn view(&self) -> LexErrorView {
        match *self {
            LexError::UnexpectedChar(c, pos) => LexErrorView::UnexpectedChar(c, pos),
            LexError::InvalidNumber(text, pos) => LexErrorView::InvalidNumber(text@, pos),
        }
    }
}

impl LexError {
    /// Where in the text the error was found.
    pub fn pos(&self) -> (r: TextPos)
        ensures
            r == match self@ {
                LexErrorView::UnexpectedChar(_, pos) => pos,
                LexErrorView::InvalidNumber(_, pos) => pos,
            },
    {
        match self {
            LexError::UnexpectedChar(_, pos) => *pos,
            LexError::InvalidNumber(_, pos) => *pos,
        }
    }
}

/// What action to perform after lexing a string character.
#[derive(Debug, PartialEq, Eq, Clone, Copy, Structural)]
pub enum StrLexResult {
    /// The character is part of the string.
    Append,
    /// The character escapes the one after it.
    Escape,
    /// The character closes the string.
    End,
}

/// Figure out what to do with a character of a string when lexing.
pub fn lex_string_char(c: char, escape: bool) -> (r: StrLexResult)
    ensures
        r == string_char_action(c, escape),
{
    if escape {
        StrLexResult::Append
    } else if c == '"' {
        StrLexResult::End
    } else if c == '\\' {
        StrLexResult::Escape
    } else {
        StrLexResult::Append
    }
}

/// What a character does inside a string literal: after a backslash every
/// character is taken verbatim; otherwise a quote closes the string and a
/// backslash escapes the next character.
pub open spec fn string_char_action(c: char, escape: bool) -> StrLexResult {
    if escape {
        StrLexResult::Append
    } else if c == '"' {
        StrLexResult::End
    } else if c == '\\' {
        StrLexResult::Escape
    } else {
        StrLexResult::Append
    }
}

/// Whether `c` may stand in an identifier, as its first character or later.
pub open spec fn is_ident_char(c: char, first: bool) -> bool {
    if first && char_is_numeric(c) {
        false
    } else {
        char_is_alphanumeric(c) || c == '_'
    }
}

/// Whether `c` may stand in an integer, as its first character or later.
pub open spec fn is_num_char(c: char, first: bool) -> bool {
    if first {
        char_is_numeric(c) || c == '-'
    } else {
        char_is_numeric(c)
    }
}

/// Checks if a character is whitespace.
pub fn is_whitespace(c: char) -> (r: bool)
    ensures
        r == char_is_whitespace(c),
{
    c.is_whitespace()
}

/// Checks if a character is part of a valid identifier.
pub fn is_ident(c: char, first: bool) -> (r: bool)
    ensures
        r == is_ident_char(c, first),
{
    if first && c.is_numeric() {
        return false;
    }
    c.is_alphanumeric() || c == '_'
}

/// Checks if a character is part of an integer.
pub fn is_num(c: char, first: bool) -> (r: bool)
    ensures
        r == is_num_char(c, first),
{
    if first {
        c.is_numeric() || c == '-'
    } else {
        c.is_numeric()
    }
}

/// Whether `s` is an identifier: a first character that may start one and
/// then characters that may continue one.
pub open spec fn is_identifier(s: Seq<char>) -> bool {
    &&& s.len() > 0
    &&& is_ident_char(s[0], true)
    &&& forall|i: int| 1 <= i < s.len() ==> is_ident_char(#[trigger] s[i], false)
}

/// Checks if a string is an identifier.
pub fn is_valid_identifier(string: &str) -> (r: bool)
    ensures
        r == is_identifier(string@),
{
    let chars = str_chars(string);
    if chars.len() == 0 || !is_ident(chars[0], true) {
        return false;
    }
    let mut i: usize = 1;
    while i < chars.len()
        invariant
            1 <= i <= chars.len(),
            chars@ == string@,
            forall|j: int| 1 <= j < i ==> is_ident_char(#[trigger] chars@[j], false),
        decreases chars.len() - i,
    {
        if !is_ident(chars[i], false) {
            return false;
        }
        i += 1;
    }
    true
}

/// The token that a punctuation character makes on its own.
pub open spec fn single_char_token(c: char) -> Option<TokenView> {
    if c == ';' {
        Some(TokenView::Semicolon)
    } else if c == ':' {
        Some(TokenView::Colon)
    } else if c == ',' {
        Some(TokenView::Comma)
    } else if c == '|' {
        Some(TokenView::Pipe)
    } else if c == '{' {
        Some(TokenView::Curly(Side::Left))
    } else if c == '}' {
        Some(TokenView::Curly(Side::Right))
    } else if c == '[' {
        Some(TokenView::Square(Side::Left))
    } else if c == ']' {
        Some(TokenView::Square(Side::Right))
    } else if c == '(' {
        Some(TokenView::Paren(Side::Left))
    } else if c == ')' {
        Some(TokenView::Paren(Side::Right))
    } else if c == '<' {
        Some(TokenView::Angle(Side::Left))
    } else if c == '>' {
        Some(TokenView::Angle(Side::Right))
    } else if c == '@' {
        Some(TokenView::At)
    } else if c == '!' {
        Some(TokenView::Bang)
    } else {
        None
    }
}

fn punctuation(c: char) -> (r: Option<Token>)
    ensures
        r.deep_view() == single_char_token(c),
{
    if c == ';' {
        Some(Token::Semicolon)
    } else if c == ':' {
        Some(Token::Colon)
    } else if c == ',' {
        Some(Token::Comma)
    } else if c == '|' {
        Some(Token::Pipe)
    } else if c == '{' {
        Some(Token::Curly(Side::Left))
    } else if c == '}' {
        Some(Token::Curly(Side::Right))
    } else if c == '[' {
        Some(Token::Square(Side::Left))
    } else if c == ']' {
        Some(Token::Square(Side::Right))
    } else if c == '(' {
        Some(Token::Paren(Side::Left))
    } else if c == ')' {
        Some(Token::Paren(Side::Right))
    } else if c == '<' {
        Some(Token::Angle(Side::Left))
    } else if c == '>' {
        Some(Token::Angle(Side::Right))
    } else if c == '@' {
        Some(Token::At)
    } else if c == '!' {
        Some(Token::Bang)
    } else {
        None
    }
}

/// The kinds of token that extend over a run of like characters.
#[derive(Debug, PartialEq, Eq, Clone, Copy, Structural)]
pub enum RunKind {
    /// Contiguous whitespace.
    Whitespace,
    /// The characters of an identifier after its first.
    Ident,
    /// The digits of a number after its first character.
    Num,
    /// The text of a comment, up to the end of the line.
    Comment,
}

/// Whether `c` extends a run of the given kind.
pub open spec fn continues_run(kind: RunKind, c: char) -> bool {
    match kind {
        RunKind::Whitespace => char_is_whitespace(c),
        RunKind::Ident => is_ident_char(c, false),
        RunKind::Num => is_num_char(c, false),
        RunKind::Comment => c != '\n',
    }
}

/// Where a run that has reached index `i` ends: the first index at or after
/// `i` whose character does not extend the run, or the end of the text.
pub open spec fn run_end(s: Seq<char>, kind: RunKind, i: int) -> int
    decreases s.len() - i,
{
    if 0 <= i < s.len() && continues_run(kind, s[i]) {
        run_end(s, kind, i + 1)
    } else {
        i
    }
}

/// What scanning a string literal gives.
pub struct StringScan {
    /// The contents of the literal, escapes resolved.
    pub text: Seq<char>,
    /// The index of the closing quote, or the length of the text where the
    /// literal is not closed.
    pub end: int,
    /// Whether a closing quote was found.
    pub closed: bool,
}

/// Scans the inside of a string literal from index `i`, where `escape` says
/// whether the previous character was an escaping backslash and `text` holds
/// the contents read so far.
pub open spec fn scan_string(s: Seq<char>, i: int, escape: bool, text: Seq<char>) -> StringScan
    decreases s.len() - i,
{
    if 0 <= i < s.len() {
        match string_char_action(s[i], escape) {
            StrLexResult::Append => scan_string(s, i + 1, false, text.push(s[i])),
            StrLexResult::Escape => scan_string(s, i + 1, true, text),
            StrLexResult::End => StringScan { text, end: i, closed: true },
        }
    } else {
        StringScan { text, end: i, closed: false }
    }
}

/// The line, counted from one, of the character at index `i`: one more than
/// the number of newlines before it.
pub open spec fn line_of(s: Seq<char>, i: int) -> int
    decreases i,
{
    if i <= 0 || i > s.len() {
        1
    } else if s[i - 1] == '\n' {
        line_of(s, i - 1) + 1
    } else {
        line_of(s, i - 1)
    }
}

/// The index that columns at index `i` are counted from: that of the last
/// newline before `i`, or zero on the first line.
pub open spec fn line_start(s: Seq<char>, i: int) -> int
    decreases i,
{
    if i <= 0 || i > s.len() {
        0
    } else if s[i - 1] == '\n' {
        i - 1
    } else {
        line_start(s, i - 1)
    }
}

/// The position of the character at index `i`.
pub open spec fn pos_at(s: Seq<char>, i: int) -> TextPos {
    TextPos(line_of(s, i) as usize, (i - line_start(s, i)) as usize)
}

/// The position recorded for a token that the end of the text cuts off. Its
/// column is counted in bytes of the text.
pub open spec fn end_pos(s: Seq<char>, byte_len: usize) -> TextPos {
    let start = line_start(s, s.len() as int);
    TextPos(
        line_of(s, s.len() as int) as usize,
        if byte_len >= start {
            (byte_len - start) as usize
        } else {
            0
        },
    )
}

/// The position recorded for a token that ends before index `i`.
pub open spec fn pos_or_end(s: Seq<char>, byte_len: usize, i: int) -> TextPos {
    if i < s.len() {
        pos_at(s, i)
    } else {
        end_pos(s, byte_len)
    }
}

/// One lexed token with the position recorded for it and the index at which
/// the next token starts.
pub struct Lexeme {
    pub token: TokenView,
    pub pos: TextPos,
    pub next: int,
}

/// The token that starts at index `i` of `s`.
///
/// Punctuation is one character long and is recorded at its own position.
/// A string runs to its closing quote, a comment to the end of its line; a
/// variable, whitespace, an identifier and a number extend as far as their
/// characters go. These are recorded at the position of the character that
/// ended them.
pub open spec fn next_token(s: Seq<char>, byte_len: usize, i: int) -> Result<Lexeme, LexErrorView>
    recommends
        0 <= i < s.len(),
{
    let c = s[i];
    if single_char_token(c) is Some {
        Ok(Lexeme { token: single_char_token(c)->0, pos: pos_at(s, i), next: i + 1 })
    } else if c == '"' {
        let scan = scan_string(s, i + 1, false, Seq::empty());
        Ok(
            Lexeme {
                token: TokenView::Str(scan.text),
                pos: pos_or_end(s, byte_len, scan.end),
                next: if scan.closed {
                    scan.end + 1
                } else {
                    scan.end
                },
            },
        )
    } else if c == '#' {
        let end = run_end(s, RunKind::Comment, i + 1);
        Ok(
            Lexeme {
                token: TokenView::Comment(s.subrange(i + 1, end)),
                pos: pos_or_end(s, byte_len, end),
                next: if end < s.len() {
                    end + 1
                } else {
                    end
                },
            },
        )
    } else if c == '$' {
        let end = if i + 1 < s.len() && is_ident_char(s[i + 1], true) {
            run_end(s, RunKind::Ident, i + 2)
        } else {
            i + 1
        };
        Ok(
            Lexeme {
                token: TokenView::Variable(s.subrange(i + 1, end)),
                pos: pos_or_end(s, byte_len, end),
                next: end,
            },
        )
    } else if char_is_whitespace(c) {
        let end = run_end(s, RunKind::Whitespace, i + 1);
        Ok(Lexeme { token: TokenView::Whitespace, pos: pos_or_end(s, byte_len, end), next: end })
    } else if is_num_char(c, true) {
        let end = run_end(s, RunKind::Num, i + 1);
        match parse_number(s.subrange(i, end)) {
            Some(num) => Ok(
                Lexeme { token: TokenView::Num(num), pos: pos_or_end(s, byte_len, end), next: end },
            ),
            None => Err(
                LexErrorView::InvalidNumber(s.subrange(i, end), pos_or_end(s, byte_len, end)),
            ),
        }
    } else if is_ident_char(c, true) {
        let end = run_end(s, RunKind::Ident, i + 1);
        Ok(
            Lexeme {
                token: TokenView::Ident(s.subrange(i, end)),
                pos: pos_or_end(s, byte_len, end),
                next: end,
            },
        )
    } else {
        Err(LexErrorView::UnexpectedChar(c, pos_at(s, i)))
    }
}

/// A run ends at or after the index it has reached, within the text.
pub proof fn lemma_run_end_bounds(s: Seq<char>, kind: RunKind, i: int)
    requires
        0 <= i <= s.len(),
    ensures
        i <= run_end(s, kind, i) <= s.len(),
        run_end(s, kind, i) < s.len() ==> !continues_run(kind, s[run_end(s, kind, i)]),
        forall|k: int| i <= k < run_end(s, kind, i) ==> continues_run(kind, #[trigger] s[k]),
    decreases s.len() - i,
{
    if i < s.len() && continues_run(kind, s[i]) {
        lemma_run_end_bounds(s, kind, i + 1);
    }
}

/// A string scan ends at or after the index it has reached, within the text,
/// and is closed exactly where it stops before the end.
pub proof fn lemma_scan_string_bounds(s: Seq<char>, i: int, escape: bool, text: Seq<char>)
    requires
        0 <= i <= s.len(),
    ensures
        i <= scan_string(s, i, escape, text).end <= s.len(),
        scan_string(s, i, escape, text).closed <==> scan_string(s, i, escape, text).end < s.len(),
    decreases s.len() - i,
{
    if i < s.len() {
        match string_char_action(s[i], escape) {
            StrLexResult::Append => lemma_scan_string_bounds(s, i + 1, false, text.push(s[i])),
            StrLexResult::Escape => lemma_scan_string_bounds(s, i + 1, true, text),
            StrLexResult::End => {},
        }
    }
}

/// Every token takes at least one character and stays within the text.
pub proof fn lemma_next_token_advances(s: Seq<char>, byte_len: usize, i: int)
    requires
        0 <= i < s.len(),
    ensures
        next_token(s, byte_len, i) matches Ok(lexeme) ==> i < lexeme.next <= s.len(),
{
    lemma_scan_string_bounds(s, i + 1, false, Seq::empty());
    lemma_run_end_bounds(s, RunKind::Comment, i + 1);
    lemma_run_end_bounds(s, RunKind::Whitespace, i + 1);
    lemma_run_end_bounds(s, RunKind::Num, i + 1);
    lemma_run_end_bounds(s, RunKind::Ident, i + 1);
    if i + 1 < s.len() {
        lemma_run_end_bounds(s, RunKind::Ident, i + 2);
    }
}

/// The tokens of `s` from index `i` on, or the first error met.
pub open spec fn lex_from(s: Seq<char>, byte_len: usize, i: int) -> Result<
    Seq<(TokenView, TextPos)>,
    LexErrorView,
>
    decreases s.len() - i,
{
    if 0 <= i < s.len() {
        match next_token(s, byte_len, i) {
            Err(e) => Err(e),
            Ok(lexeme) => {
                proof {
                    lemma_next_token_advances(s, byte_len, i);
                }
                match lex_from(s, byte_len, lexeme.next) {
                    Err(e) => Err(e),
                    Ok(rest) => Ok(seq![(lexeme.token, lexeme.pos)] + rest),
                }
            },
        }
    } else {
        Ok(Seq::empty())
    }
}

/// The tokens of the text `s`, which takes `byte_len` bytes.
pub open spec fn lex_text(s: Seq<char>, byte_len: usize) -> Result<
    Seq<(TokenView, TextPos)>,
    LexErrorView,
> {
    lex_from(s, byte_len, 0)
}

/// Lines are counted from one and grow by at most one per character; the
/// start of a line lies at or before every index of that line.
pub proof fn lemma_line_bounds(s: Seq<char>, i: int)
    requires
        0 <= i <= s.len(),
    ensures
        1 <= line_of(s, i) <= i + 1,
        0 <= line_start(s, i) <= i,
    decreases i,
{
    if i > 0 {
        lemma_line_bounds(s, i - 1);
    }
}

/// Where the lexer stands in the text, with the line bookkeeping for it.
#[derive(Clone, Copy)]
struct Cursor {
    index: usize,
    line: usize,
    line_start: usize,
}

impl Cursor {
    spec fn tracks(self, s: Seq<char>) -> bool {
        &&& self.index <= s.len()
        &&& self.line == line_of(s, self.index as int)
        &&& self.line_start == line_start(s, self.index as int)
    }

    /// The position of the character under the cursor.
    fn pos(&self, chars: &Vec<char>) -> (r: TextPos)
        requires
            self.tracks(chars@),
        ensures
            r == pos_at(chars@, self.index as int),
    {
        proof {
            lemma_line_bounds(chars@, self.index as int);
        }
        TextPos(self.line, self.index - self.line_start)
    }

    /// The position recorded for a token that ends before the cursor.
    fn pos_or_end(&self, chars: &Vec<char>, byte_len: usize) -> (r: TextPos)
        requires
            self.tracks(chars@),
        ensures
            r == pos_or_end(chars@, byte_len, self.index as int),
    {
        if self.index < chars.len() {
            self.pos(chars)
        } else {
            TextPos(
                self.line,
                if byte_len >= self.line_start {
                    byte_len - self.line_start
                } else {
                    0
                },
            )
        }
    }

    /// Moves the cursor forward to index `to`.
    fn advance(self, chars: &Vec<char>, to: usize) -> (r: Cursor)
        requires
            self.tracks(chars@),
            self.index <= to <= chars.len(),
            chars.len() < usize::MAX,
        ensures
            r.tracks(chars@),
            r.index == to,
    {
        let mut cur = self;
        while cur.index < to
            invariant
                cur.tracks(chars@),
                cur.index <= to <= chars.len(),
                chars.len() < usize::MAX,
            decreases to - cur.index,
        {
            proof {
                lemma_line_bounds(chars@, cur.index as int);
            }
            if chars[cur.index] == '\n' {
                cur.line = cur.line + 1;
                cur.line_start = cur.index;
            }
            cur.index = cur.index + 1;
        }
        cur
    }
}

fn continues(kind: RunKind, c: char) -> (r: bool)
    ensures
        r == continues_run(kind, c),
{
    match kind {
        RunKind::Whitespace => is_whitespace(c),
        RunKind::Ident => is_ident(c, false),
        RunKind::Num => is_num(c, false),
        RunKind::Comment => c != '\n',
    }
}

/// Finds where the run that has reached index `i` ends.
fn find_run_end(chars: &Vec<char>, kind: RunKind, i: usize) -> (end: usize)
    requires
        i <= chars.len(),
    ensures
        end == run_end(chars@, kind, i as int),
        i <= end <= chars.len(),
{
    let mut end = i;
    while end < chars.len() && continues(kind, chars[end])
        invariant
            i <= end <= chars.len(),
            run_end(chars@, kind, i as int) == run_end(chars@, kind, end as int),
        decreases chars.len() - end,
    {
        end += 1;
    }
    end
}

/// Reads the inside of a string literal that opens before index `i`.
fn read_string(chars: &Vec<char>, i: usize) -> (r: (String, usize, bool))
    requires
        i <= chars.len(),
    ensures
        r.0@ == scan_string(chars@, i as int, false, Seq::empty()).text,
        r.1 == scan_string(chars@, i as int, false, Seq::empty()).end,
        r.2 == scan_string(chars@, i as int, false, Seq::empty()).closed,
        i <= r.1 <= chars.len(),
{
    let mut text = String::new();
    let mut escape = false;
    let mut end = i;
    let mut closed = false;
    while end < chars.len() && !closed
        invariant
            i <= end <= chars.len(),
            closed ==> end < chars.len(),
            !closed ==> scan_string(chars@, i as int, false, Seq::empty()) == scan_string(
                chars@,
                end as int,
                escape,
                text@,
            ),
            closed ==> scan_string(chars@, i as int, false, Seq::empty()) == (StringScan {
                text: text@,
                end: end as int,
                closed: true,
            }),
        decreases chars.len() - end + if closed { 0int } else { 1int },
    {
        let c = chars[end];
        match lex_string_char(c, escape) {
            StrLexResult::Append => {
                text.push(c);
                escape = false;
                end += 1;
            },
            StrLexResult::Escape => {
                escape = true;
                end += 1;
            },
            StrLexResult::End => {
                closed = true;
            },
        }
    }
    (text, end, closed)
}

/// Lexes the token under the cursor and moves the cursor behind it.
fn lex_one(chars: &Vec<char>, byte_len: usize, cur: Cursor) -> (r: Result<
    (Token, TextPos, Cursor),
    LexError,
>)
    requires
        cur.tracks(chars@),
        cur.index < chars.len(),
        chars.len() < usize::MAX,
    ensures
        match next_token(chars@, byte_len, cur.index as int) {
            Ok(lexeme) => r matches Ok((token, pos, next)) && token@ == lexeme.token && pos
                == lexeme.pos && next.index == lexeme.next && next.tracks(chars@),
            Err(e) => r matches Err(err) && err@ == e,
        },
{
    let i = cur.index;
    let c = chars[i];
    proof {
        lemma_next_token_advances(chars@, byte_len, i as int);
    }
    match punctuation(c) {
        Some(token) => {
            let pos = cur.pos(chars);
            return Ok((token, pos, cur.advance(chars, i + 1)));
        },
        None => {},
    }
    if c == '"' {
        let (text, end, closed) = read_string(chars, i + 1);
        let at_end = cur.advance(chars, end);
        let pos = at_end.pos_or_end(chars, byte_len);
        let next = if closed {
            proof {
                lemma_scan_string_bounds(chars@, i + 1, false, Seq::empty());
            }
            at_end.advance(chars, end + 1)
        } else {
            at_end
        };
        Ok((Token::Str(text), pos, next))
    } else if c == '#' {
        let end = find_run_end(chars, RunKind::Comment, i + 1);
        let at_end = cur.advance(chars, end);
        let pos = at_end.pos_or_end(chars, byte_len);
        let next = if end < chars.len() {
            at_end.advance(chars, end + 1)
        } else {
            at_end
        };
        Ok((Token::Comment(string_from_chars(chars, i + 1, end)), pos, next))
    } else if c == '$' {
        let end = if i + 1 < chars.len() && is_ident(chars[i + 1], true) {
            find_run_end(chars, RunKind::Ident, i + 2)
        } else {
            i + 1
        };
        let at_end = cur.advance(chars, end);
        let pos = at_end.pos_or_end(chars, byte_len);
        Ok((Token::Variable(string_from_chars(chars, i + 1, end)), pos, at_end))
    } else if is_whitespace(c) {
        let end = find_run_end(chars, RunKind::Whitespace, i + 1);
        let at_end = cur.advance(chars, end);
        let pos = at_end.pos_or_end(chars, byte_len);
        Ok((Token::Whitespace, pos, at_end))
    } else if is_num(c, true) {
        let end = find_run_end(chars, RunKind::Num, i + 1);
        let at_end = cur.advance(chars, end);
        let pos = at_end.pos_or_end(chars, byte_len);
        match parse_i64(chars, i, end) {
            Some(num) => Ok((Token::Num(num), pos, at_end)),
            None => Err(LexError::InvalidNumber(string_from_chars(chars, i, end), pos)),
        }
    } else if is_ident(c, true) {
        let end = find_run_end(chars, RunKind::Ident, i + 1);
        let at_end = cur.advance(chars, end);
        let pos = at_end.pos_or_end(chars, byte_len);
        Ok((Token::Ident(string_from_chars(chars, i, end)), pos, at_end))
    } else {
        Err(LexError::UnexpectedChar(c, cur.pos(chars)))
    }
}

/// Create a list of tokens from package text contents that we will then use
/// for parsing.
///
/// The whole output is kept, whitespace and comments included; see
/// [`reduce_tokens`] for the tokens that structure is read from.
pub fn lex(text: &str) -> (r: Result<Vec<(Token, TextPos)>, LexError>)
    requires
        text@.len() < usize::MAX,
    ensures
        match lex_text(text@, text.len()) {
            Ok(tokens) => r matches Ok(lexed) && lexed.deep_view() == tokens,
            Err(e) => r matches Err(err) && err@ == e,
        },
{
    let chars = str_chars(text);
    let byte_len = text.len();
    let mut tokens: Vec<(Token, TextPos)> = Vec::new();
    let mut cur = Cursor { index: 0, line: 1, line_start: 0 };
    assert(tokens.deep_view() =~= Seq::empty());
    assert(prepend(Seq::empty(), lex_from(chars@, byte_len, 0)) == lex_from(
        chars@,
        byte_len,
        0,
    )) by {
        if let Ok(rest) = lex_from(chars@, byte_len, 0) {
            assert(Seq::<(TokenView, TextPos)>::empty() + rest =~= rest);
        }
    }
    while cur.index < chars.len()
        invariant
            chars@ == text@,
            byte_len == text.len(),
            chars.len() < usize::MAX,
            cur.tracks(chars@),
            lex_text(chars@, byte_len) == prepend(
                tokens.deep_view(),
                lex_from(chars@, byte_len, cur.index as int),
            ),
        decreases chars.len() - cur.index,
    {
        let ghost before = tokens.deep_view();
        let ghost i = cur.index as int;
        proof {
            lemma_next_token_advances(chars@, byte_len, i);
        }
        match lex_one(&chars, byte_len, cur) {
            Err(e) => {
                return Err(e);
            },
            Ok((token, pos, next)) => {
                let ghost lexeme = next_token(chars@, byte_len, i)->Ok_0;
                tokens.push((token, pos));
                cur = next;
                proof {
                    let item = (lexeme.token, lexeme.pos);
                    assert(tokens.deep_view() =~= before.push(item));
                    if let Ok(rest) = lex_from(chars@, byte_len, lexeme.next) {
                        assert(before + (seq![item] + rest) =~= before.push(item) + rest);
                    }
                }
            },
        }
    }
    proof {
        assert(tokens.deep_view() + Seq::<(TokenView, TextPos)>::empty() =~= tokens.deep_view());
    }
    Ok(tokens)
}

/// The tokens that structure is read from: `tokens` without whitespace,
/// comments and empty tokens, in their order.
pub open spec fn significant_tokens(tokens: Seq<(TokenView, TextPos)>) -> Seq<
    (TokenView, TextPos),
> {
    tokens.filter(|t: (TokenView, TextPos)| t.0.is_significant())
}

/// Removes whitespace characters and comments from a list of tokens.
pub fn reduce_tokens<'a>(tokens: &'a Vec<(Token, TextPos)>) -> (r: Vec<&'a (Token, TextPos)>)
    ensures
        r.deep_view() == significant_tokens(tokens.deep_view()),
{
    let mut out: Vec<&'a (Token, TextPos)> = Vec::new();
    let ghost pred = |t: (TokenView, TextPos)| t.0.is_significant();
    let mut i: usize = 0;
    assert(out.deep_view() =~= Seq::empty());
    assert(tokens.deep_view().take(0) =~= Seq::empty());
    while i < tokens.len()
        invariant
            i <= tokens.len(),
            pred == |t: (TokenView, TextPos)| t.0.is_significant(),
            out.deep_view() == tokens.deep_view().take(i as int).filter(pred),
        decreases tokens.len() - i,
    {
        let ghost before = out.deep_view();
        let ghost prefix = tokens.deep_view().take(i as int);
        let item = &tokens[i];
        proof {
            let view = (item.0@, item.1);
            assert(tokens.deep_view().take(i + 1) =~= prefix.push(view));
            lemma_filter_push(prefix, pred, view);
        }
        if item.0.is_significant() {
            out.push(item);
            assert(out.deep_view() =~= before.push((item.0@, item.1)));
        }
        i += 1;
    }
    assert(tokens.deep_view().take(tokens.len() as int) =~= tokens.deep_view());
    out
}

/// Filtering a sequence that was extended by one item.
pub proof fn lemma_filter_push<A>(s: Seq<A>, pred: spec_fn(A) -> bool, item: A)
    ensures
        s.push(item).filter(pred) == if pred(item) {
            s.filter(pred).push(item)
        } else {
            s.filter(pred)
        },
{
    reveal(Seq::filter);
    assert(s.push(item).drop_last() =~= s);
}

/// The indices of the significant tokens, in their order.
pub open spec fn significant_indices(tokens: Seq<(TokenView, TextPos)>) -> Seq<int>
    decreases tokens.len(),
{
    if tokens.len() == 0 {
        Seq::empty()
    } else {
        let front = significant_indices(tokens.drop_last());
        if tokens.last().0.is_significant() {
            front.push(tokens.len() - 1)
        } else {
            front
        }
    }
}

/// Reducing a token stream removes every whitespace, comment and empty
/// token, and keeps all other tokens in their order: the reduced stream
/// holds exactly the tokens at the indices of the significant tokens, which
/// ascend.
pub proof fn lemma_reduce_keeps_significant_in_order(tokens: Seq<(TokenView, TextPos)>)
    ensures
        forall|k: int|
            0 <= k < significant_tokens(tokens).len() ==> (#[trigger] significant_tokens(
                tokens,
            )[k]).0.is_significant(),
        significant_indices(tokens).len() == significant_tokens(tokens).len(),
        forall|k: int|
            0 <= k < significant_indices(tokens).len() ==> 0 <= #[trigger] significant_indices(
                tokens,
            )[k] < tokens.len() && significant_tokens(tokens)[k] == tokens[significant_indices(
                tokens,
            )[k]],
        forall|j: int, k: int|
            0 <= j < k < significant_indices(tokens).len() ==> significant_indices(tokens)[j]
                < significant_indices(tokens)[k],
        forall|i: int|
            0 <= i < tokens.len() && (#[trigger] tokens[i]).0.is_significant()
                ==> significant_indices(tokens).contains(i),
    decreases tokens.len(),
{
    let pred = |t: (TokenView, TextPos)| t.0.is_significant();
    if tokens.len() == 0 {
        assert(significant_tokens(tokens) =~= Seq::empty()) by {
            reveal(Seq::filter);
        }
    } else {
        let front = tokens.drop_last();
        lemma_reduce_keeps_significant_in_order(front);
        assert(front.push(tokens.last()) =~= tokens);
        lemma_filter_push(front, pred, tokens.last());
        let indices = significant_indices(tokens);
        let reduced = significant_tokens(tokens);
        assert forall|k: int| 0 <= k < indices.len() implies 0 <= #[trigger] indices[k]
            < tokens.len() && reduced[k] == tokens[indices[k]] by {
            if k < significant_indices(front).len() {
                assert(indices[k] == significant_indices(front)[k]);
                assert(tokens[indices[k]] == front[indices[k]]);
            }
        }
        assert forall|i: int|
            0 <= i < tokens.len() && (#[trigger] tokens[i]).0.is_significant() implies indices.contains(
            i,
        ) by {
            if i < front.len() {
                assert(front[i] == tokens[i]);
                let k = choose|k: int|
                    0 <= k < significant_indices(front).len() && significant_indices(front)[k] == i;
                assert(indices[k] == i);
            } else {
                assert(indices[indices.len() - 1] == i);
            }
        }
    }
}

/// The token that starts at an index is never empty, and it is whitespace
/// only where the character at the index is whitespace.
pub proof fn lemma_next_token_kind(s: Seq<char>, byte_len: usize, i: int)
    requires
        0 <= i < s.len(),
    ensures
        next_token(s, byte_len, i) matches Ok(lexeme) ==> !(lexeme.token is Empty) && (
        lexeme.token is Whitespace ==> char_is_whitespace(s[i]) && lexeme.next == run_end(
            s,
            RunKind::Whitespace,
            i + 1,
        )),
{
}

/// No lexed token is empty, and contiguous whitespace makes one token: no
/// whitespace token follows another.
pub proof fn lemma_lexed_tokens(s: Seq<char>, byte_len: usize, i: int)
    requires
        0 <= i,
    ensures
        lex_from(s, byte_len, i) matches Ok(tokens) ==> {
            &&& forall|k: int| 0 <= k < tokens.len() ==> !((#[trigger] tokens[k]).0 is Empty)
            &&& forall|k: int|
                0 <= k < tokens.len() - 1 && (#[trigger] tokens[k]).0 is Whitespace ==> !(tokens[k
                    + 1].0 is Whitespace)
            &&& tokens.len() > 0 && tokens[0].0 is Whitespace ==> i < s.len() && char_is_whitespace(
                s[i],
            )
        },
    decreases s.len() - i,
{
    if i < s.len() {
        lemma_next_token_advances(s, byte_len, i);
        lemma_next_token_kind(s, byte_len, i);
        if let Ok(lexeme) = next_token(s, byte_len, i) {
            lemma_lexed_tokens(s, byte_len, lexeme.next);
            if let Ok(rest) = lex_from(s, byte_len, lexeme.next) {
                let tokens = seq![(lexeme.token, lexeme.pos)] + rest;
                assert(lex_from(s, byte_len, i) == Ok::<Seq<(TokenView, TextPos)>, LexErrorView>(
                    tokens,
                ));
                if lexeme.token is Whitespace {
                    lemma_run_end_bounds(s, RunKind::Whitespace, i + 1);
                }
                assert forall|k: int| 0 <= k < tokens.len() implies !((#[trigger] tokens[k]).0
                    is Empty) by {
                    if k > 0 {
                        assert(tokens[k] == rest[k - 1]);
                    }
                }
                assert forall|k: int|
                    0 <= k < tokens.len() - 1 && (#[trigger] tokens[k]).0 is Whitespace implies !(
                tokens[k + 1].0 is Whitespace) by {
                    assert(tokens[k + 1] == rest[k]);
                    if k > 0 {
                        assert(tokens[k] == rest[k - 1]);
                    }
                }
            }
        }
    }
}

/// No token of a lexed text is empty, and no whitespace token follows
/// another.
pub proof fn lemma_lex_text_tokens(s: Seq<char>, byte_len: usize)
    ensures
        lex_text(s, byte_len) matches Ok(tokens) ==> {
            &&& forall|k: int| 0 <= k < tokens.len() ==> !((#[trigger] tokens[k]).0 is Empty)
            &&& forall|k: int|
                0 <= k < tokens.len() - 1 && (#[trigger] tokens[k]).0 is Whitespace ==> !(tokens[k
                    + 1].0 is Whitespace)
        },
{
    lemma_lexed_tokens(s, byte_len, 0);
}

} // verus!
