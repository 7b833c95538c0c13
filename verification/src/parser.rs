//! Parsing of package scripts from their tokens.
//!
//! A script is a sequence of routines. A routine is written as `@name`
//! followed by a block in curly braces. A block holds statements: an
//! instruction with its arguments and a semicolon, or `if` with a condition
//! and a block of its own. The condition may stand in parentheses.

use vstd::prelude::*;
use crate::conditions::{ConditionKind, ConditionView};
use crate::instr_parse::{feed, first_stage, instr_from_name, Stage, Statement};
use crate::instruction::{
    unexpected, unexpected_token, BlockId, InstrKind, InstrKindView, Instruction,
    InstructionView, ParseError, ParseErrorKind, ParseErrorKindView, ParseErrorView,
};
use crate::lex::{
    lex, lex_text, reduce_tokens, significant_tokens, LexError, LexErrorView, Side, TextPos,
    Token, TokenView,
};
use crate::metadata::{eval_metadata, metadata_of, MetadataError};
use crate::parse::{
    block_nests, blocks_nest, lemma_routine_block_none, routine_block, Block, Parsed, ParsedView,
};
use crate::text::{lemma_push_deep_view, str_eq};

verus! {

/// Whether the condition of an `if` stands in parentheses, and how far they
/// have been read.
#[derive(Debug, Clone, Copy, PartialEq, Eq, Structural)]
pub enum Bracket {
    /// The condition stands without parentheses.
    Absent,
    /// The opening parenthesis was read.
    Open,
    /// Both parentheses were read.
    Closed,
}

/// What the parser is reading.
#[derive(Debug)]
pub enum ParseMode {
    /// Between routines.
    Root,
    /// After `@`, before the name of a routine.
    RoutineName,
    /// After the name of a routine, before its block.
    RoutineOpen(String),
    /// In a block, between statements.
    Body,
    /// In the statement of an instruction.
    Instr(Statement),
    /// In the condition of an `if` that is written at `pos`.
    Cond { pos: TextPos, condition: Option<ConditionKind>, bracket: Bracket },
}

/// The mathematical value of a [`ParseMode`].
pub enum ParseModeView {
    Root,
    RoutineName,
    RoutineOpen(Seq<char>),
    Body,
    Instr(InstructionView, Stage),
    Cond { pos: TextPos, condition: Option<ConditionView>, bracket: Bracket },
}

impl View for ParseMode {
    type V = ParseModeView;

    open spec fn view(&self) -> ParseModeView {
        match *self {
            ParseMode::Root => ParseModeView::Root,
            ParseMode::RoutineName => ParseModeView::RoutineName,
            ParseMode::RoutineOpen(name) => ParseModeView::RoutineOpen(name@),
            ParseMode::Body => ParseModeView::Body,
            ParseMode::Instr(statement) => ParseModeView::Instr(statement.instr@, statement.stage),
            ParseMode::Cond { pos, condition, bracket } => ParseModeView::Cond {
                pos,
                condition: match condition {
                    Some(condition) => Some(condition@),
                    None => None,
                },
                bracket,
            },
        }
    }
}

/// A parser of package scripts, which is fed one token at a time.
#[derive(Debug)]
pub struct Parser {
    /// What was parsed so far.
    pub parsed: Parsed,
    /// The blocks that are open, the innermost last.
    pub open: Vec<BlockId>,
    pub mode: ParseMode,
}

/// The mathematical value of a [`Parser`].
pub struct ParserView {
    pub parsed: ParsedView,
    pub open: Seq<BlockId>,
    pub mode: ParseModeView,
}

impl View for Parser {
    type V = ParserView;

    open spec fn view(&self) -> ParserView {
        ParserView { parsed: self.parsed@, open: self.open@, mode: self.mode@ }
    }
}

/// The blocks after an instruction was added at the end of block `block`.
pub open spec fn add_instr(
    blocks: Seq<Seq<InstructionView>>,
    block: BlockId,
    instr: InstructionView,
) -> Seq<Seq<InstructionView>> {
    if block < blocks.len() {
        blocks.update(block as int, blocks[block as int].push(instr))
    } else {
        blocks
    }
}

impl ParserView {
    /// The parser before the first token.
    pub open spec fn start() -> ParserView {
        ParserView {
            parsed: ParsedView { blocks: Seq::empty(), routines: Seq::empty() },
            open: Seq::empty(),
            mode: ParseModeView::Root,
        }
    }

    /// The block that statements are added to.
    pub open spec fn current(self) -> BlockId {
        if self.open.len() > 0 {
            self.open.last()
        } else {
            0
        }
    }

    /// The parser after the condition of an `if` that is written at `pos`:
    /// the `if` is added to the current block, and its own block is opened.
    pub open spec fn open_if(self, pos: TextPos, condition: ConditionView) -> ParserView {
        let id = self.parsed.blocks.len() as BlockId;
        let instr = InstructionView { kind: InstrKindView::If(condition, id), pos };
        ParserView {
            parsed: ParsedView {
                blocks: add_instr(self.parsed.blocks, self.current(), instr).push(Seq::empty()),
                ..self.parsed
            },
            open: self.open.push(id),
            mode: ParseModeView::Body,
        }
    }

    /// The parser after one more token.
    pub open spec fn step(self, tok: TokenView, pos: TextPos) -> Result<ParserView, ParseErrorView> {
        match self.mode {
            ParseModeView::Root => if tok is At {
                Ok(ParserView { mode: ParseModeView::RoutineName, ..self })
            } else {
                Err(unexpected(tok, pos))
            },
            ParseModeView::RoutineName => match tok {
                TokenView::Ident(name) => if routine_block(self.parsed.routines, name) is Some {
                    Err(ParseErrorView { kind: ParseErrorKindView::DuplicateRoutine(name), pos })
                } else {
                    Ok(ParserView { mode: ParseModeView::RoutineOpen(name), ..self })
                },
                _ => Err(unexpected(tok, pos)),
            },
            ParseModeView::RoutineOpen(name) => if tok == TokenView::Curly(Side::Left) {
                let id = self.parsed.blocks.len() as BlockId;
                Ok(
                    ParserView {
                        parsed: ParsedView {
                            blocks: self.parsed.blocks.push(Seq::empty()),
                            routines: self.parsed.routines.push((name, id)),
                        },
                        open: seq![id],
                        mode: ParseModeView::Body,
                    },
                )
            } else {
                Err(unexpected(tok, pos))
            },
            ParseModeView::Body => match tok {
                TokenView::Curly(Side::Right) => Ok(
                    ParserView {
                        open: if self.open.len() > 0 {
                            self.open.drop_last()
                        } else {
                            self.open
                        },
                        mode: if self.open.len() <= 1 {
                            ParseModeView::Root
                        } else {
                            ParseModeView::Body
                        },
                        ..self
                    },
                ),
                TokenView::Ident(name) => if name == "if"@ {
                    Ok(
                        ParserView {
                            mode: ParseModeView::Cond {
                                pos,
                                condition: None,
                                bracket: Bracket::Absent,
                            },
                            ..self
                        },
                    )
                } else {
                    match instr_from_name(name) {
                        Some(kind) => Ok(
                            ParserView {
                                mode: ParseModeView::Instr(
                                    InstructionView { kind, pos },
                                    first_stage(kind),
                                ),
                                ..self
                            },
                        ),
                        None => Err(
                            ParseErrorView {
                                kind: ParseErrorKindView::UnknownInstruction(name),
                                pos,
                            },
                        ),
                    }
                },
                _ => Err(unexpected(tok, pos)),
            },
            ParseModeView::Instr(instr, stage) => match feed(instr.kind, stage, tok, pos) {
                Err(e) => Err(e),
                Ok(fed) => {
                    let instr = InstructionView { kind: fed.kind, pos: instr.pos };
                    if fed.done {
                        Ok(
                            ParserView {
                                parsed: ParsedView {
                                    blocks: add_instr(self.parsed.blocks, self.current(), instr),
                                    ..self.parsed
                                },
                                mode: ParseModeView::Body,
                                ..self
                            },
                        )
                    } else {
                        Ok(ParserView { mode: ParseModeView::Instr(instr, fed.stage), ..self })
                    }
                },
            },
            ParseModeView::Cond { pos: at, condition, bracket } => match condition {
                None => match tok {
                    TokenView::Ident(_) => match ConditionView::start_operand(tok, pos) {
                        Ok(started) => Ok(
                            ParserView {
                                mode: ParseModeView::Cond {
                                    pos: at,
                                    condition: Some(started),
                                    bracket,
                                },
                                ..self
                            },
                        ),
                        Err(e) => Err(e),
                    },
                    TokenView::Paren(Side::Left) => if bracket == Bracket::Absent {
                        Ok(
                            ParserView {
                                mode: ParseModeView::Cond {
                                    pos: at,
                                    condition,
                                    bracket: Bracket::Open,
                                },
                                ..self
                            },
                        )
                    } else {
                        Err(unexpected(tok, pos))
                    },
                    _ => Err(unexpected(tok, pos)),
                },
                Some(reading) => if bracket == Bracket::Closed {
                    if tok == TokenView::Curly(Side::Left) {
                        Ok(self.open_if(at, reading))
                    } else {
                        Err(unexpected(tok, pos))
                    }
                } else if bracket == Bracket::Absent && reading.finished() && tok
                    == TokenView::Curly(Side::Left) {
                    Ok(self.open_if(at, reading))
                } else if bracket == Bracket::Open && reading.finished() && tok
                    == TokenView::Paren(Side::Right) {
                    Ok(
                        ParserView {
                            mode: ParseModeView::Cond {
                                pos: at,
                                condition,
                                bracket: Bracket::Closed,
                            },
                            ..self
                        },
                    )
                } else {
                    match reading.parse_token(tok, pos) {
                        Ok(parsed) => Ok(
                            ParserView {
                                mode: ParseModeView::Cond {
                                    pos: at,
                                    condition: Some(parsed),
                                    bracket,
                                },
                                ..self
                            },
                        ),
                        Err(e) => Err(e),
                    }
                },
            },
        }
    }

    /// What the parser has parsed when the tokens end: the text has to end
    /// between routines. `last` is the position of the last token.
    pub open spec fn finish(self, last: TextPos) -> Result<ParsedView, ParseErrorView> {
        if self.mode is Root {
            Ok(self.parsed)
        } else {
            Err(ParseErrorView { kind: ParseErrorKindView::UnexpectedEnd, pos: last })
        }
    }

    /// What the parser has parsed after the tokens from index `from` on.
    pub open spec fn run(self, tokens: Seq<(TokenView, TextPos)>, from: int) -> Result<
        ParsedView,
        ParseErrorView,
    >
        decreases tokens.len() - from,
    {
        if 0 <= from < tokens.len() {
            match self.step(tokens[from].0, tokens[from].1) {
                Ok(next) => next.run(tokens, from + 1),
                Err(e) => Err(e),
            }
        } else {
            self.finish(
                if tokens.len() > 0 {
                    tokens.last().1
                } else {
                    TextPos(1, 0)
                },
            )
        }
    }
}

/// The script that a stream of tokens writes. Whitespace and comments are
/// skipped.
pub open spec fn parse_tokens(tokens: Seq<(TokenView, TextPos)>) -> Result<
    ParsedView,
    ParseErrorView,
> {
    ParserView::start().run(significant_tokens(tokens), 0)
}

impl Parser {
    /// A parser that has read nothing.
    pub fn new() -> (r: Self)
        ensures
            r@ == ParserView::start(),
    {
        Parser { parsed: Parsed::new(), open: Vec::new(), mode: ParseMode::Root }
    }

    /// The block that statements are added to.
    fn current(&self) -> (r: BlockId)
        ensures
            r == self@.current(),
    {
        if self.open.len() > 0 {
            self.open[self.open.len() - 1]
        } else {
            0
        }
    }

    /// Adds an instruction at the end of the current block.
    fn add_instr(&mut self, instr: Instruction)
        ensures
            final(self)@ == (ParserView {
                parsed: ParsedView {
                    blocks: add_instr(old(self)@.parsed.blocks, old(self)@.current(), instr@),
                    ..old(self)@.parsed
                },
                ..old(self)@
            }),
            final(self).mode == old(self).mode,
    {
        let block = self.current();
        if block < self.parsed.blocks.len() {
            let ghost before = self.parsed.blocks;
            let ghost contents = self.parsed.blocks[block as int].contents;
            self.parsed.blocks[block].push(instr);
            proof {
                assert(self.parsed.blocks.deep_view() =~= add_instr(
                    before.deep_view(),
                    block,
                    instr@,
                ));
            }
        }
    }

    /// Opens a new block and returns its identifier.
    fn open_block(&mut self) -> (id: BlockId)
        ensures
            id == old(self)@.parsed.blocks.len(),
            final(self)@ == (ParserView {
                parsed: ParsedView {
                    blocks: old(self)@.parsed.blocks.push(Seq::empty()),
                    ..old(self)@.parsed
                },
                ..old(self)@
            }),
            final(self).mode == old(self).mode,
    {
        let id = self.parsed.blocks.len();
        let ghost before = self.parsed.blocks;
        let block = Block::new();
        self.parsed.blocks.push(block);
        proof {
            lemma_push_deep_view(before, self.parsed.blocks, block);
        }
        id
    }

    /// Adds the `if` whose condition was read and opens its block.
    fn open_if(&mut self, pos: TextPos, condition: ConditionKind)
        ensures
            final(self)@ == old(self)@.open_if(pos, condition@),
    {
        let id = self.parsed.blocks.len();
        self.add_instr(Instruction::new(InstrKind::If(crate::conditions::Condition::new(condition), id), pos));
        let opened = self.open_block();
        self.open.push(id);
        self.mode = ParseMode::Body;
    }

    /// Parses one token.
    pub fn parse(&mut self, tok: &Token, pos: &TextPos) -> (r: Result<(), ParseError>)
        ensures
            match old(self)@.step(tok@, *pos) {
                Ok(next) => r is Ok && final(self)@ == next,
                Err(e) => r matches Err(err) && err@ == e,
            },
    {
        let mut mode = ParseMode::Root;
        std::mem::swap(&mut self.mode, &mut mode);
        match mode {
            ParseMode::Root => {
                if let Token::At = tok {
                    self.mode = ParseMode::RoutineName;
                    Ok(())
                } else {
                    Err(unexpected_token(tok, pos))
                }
            },
            ParseMode::RoutineName => match tok {
                Token::Ident(name) => {
                    if self.parsed.get_routine(name.as_str()).is_some() {
                        Err(
                            ParseError {
                                kind: ParseErrorKind::DuplicateRoutine(name.clone()),
                                pos: *pos,
                            },
                        )
                    } else {
                        self.mode = ParseMode::RoutineOpen(name.clone());
                        Ok(())
                    }
                },
                _ => Err(unexpected_token(tok, pos)),
            },
            ParseMode::RoutineOpen(name) => {
                if let Token::Curly(Side::Left) = tok {
                    let id = self.open_block();
                    let ghost before = self.parsed.routines;
                    self.parsed.routines.push((name, id));
                    proof {
                        lemma_push_deep_view(before, self.parsed.routines, (name, id));
                    }
                    let mut open: Vec<BlockId> = Vec::new();
                    open.push(id);
                    self.open = open;
                    self.mode = ParseMode::Body;
                    assert(self.open@ =~= seq![id]);
                    Ok(())
                } else {
                    Err(unexpected_token(tok, pos))
                }
            },
            ParseMode::Body => match tok {
                Token::Curly(Side::Right) => {
                    let ghost before = self.open@;
                    let last = self.open.len() <= 1;
                    self.open.pop();
                    assert(before.len() > 0 ==> self.open@ =~= before.drop_last());
                    self.mode = if last {
                        ParseMode::Root
                    } else {
                        ParseMode::Body
                    };
                    Ok(())
                },
                Token::Ident(name) => {
                    if str_eq(name.as_str(), "if") {
                        self.mode = ParseMode::Cond {
                            pos: *pos,
                            condition: None,
                            bracket: Bracket::Absent,
                        };
                        Ok(())
                    } else {
                        let statement = Statement::start(name.as_str(), pos)?;
                        self.mode = ParseMode::Instr(statement);
                        Ok(())
                    }
                },
                _ => Err(unexpected_token(tok, pos)),
            },
            ParseMode::Instr(mut statement) => {
                let done = statement.parse(tok, pos)?;
                if done {
                    self.add_instr(statement.instr);
                    self.mode = ParseMode::Body;
                } else {
                    self.mode = ParseMode::Instr(statement);
                }
                Ok(())
            },
            ParseMode::Cond { pos: at, condition, bracket } => match condition {
                None => match tok {
                    Token::Ident(name) => match ConditionKind::from_str(name.as_str()) {
                        Some(started) => {
                            self.mode = ParseMode::Cond { pos: at, condition: Some(started), bracket };
                            Ok(())
                        },
                        None => Err(
                            ParseError {
                                kind: ParseErrorKind::UnknownCondition(name.clone()),
                                pos: *pos,
                            },
                        ),
                    },
                    Token::Paren(Side::Left) => {
                        if bracket == Bracket::Absent {
                            self.mode = ParseMode::Cond {
                                pos: at,
                                condition: None,
                                bracket: Bracket::Open,
                            };
                            Ok(())
                        } else {
                            Err(unexpected_token(tok, pos))
                        }
                    },
                    _ => Err(unexpected_token(tok, pos)),
                },
                Some(mut reading) => {
                    let opens = matches!(tok, Token::Curly(Side::Left));
                    let closes = matches!(tok, Token::Paren(Side::Right));
                    if bracket == Bracket::Closed {
                        if opens {
                            self.open_if(at, reading);
                            Ok(())
                        } else {
                            Err(unexpected_token(tok, pos))
                        }
                    } else if bracket == Bracket::Absent && opens && reading.is_finished_parsing() {
                        self.open_if(at, reading);
                        Ok(())
                    } else if bracket == Bracket::Open && closes && reading.is_finished_parsing() {
                        self.mode = ParseMode::Cond {
                            pos: at,
                            condition: Some(reading),
                            bracket: Bracket::Closed,
                        };
                        Ok(())
                    } else {
                        reading.parse(tok, pos)?;
                        self.mode = ParseMode::Cond { pos: at, condition: Some(reading), bracket };
                        Ok(())
                    }
                },
            },
        }
    }

    /// Ends the parsing; `last` is the position of the last token.
    pub fn finish(self, last: TextPos) -> (r: Result<Parsed, ParseError>)
        ensures
            match self@.finish(last) {
                Ok(parsed) => r matches Ok(got) && got@ == parsed,
                Err(e) => r matches Err(err) && err@ == e,
            },
    {
        match self.mode {
            ParseMode::Root => Ok(self.parsed),
            _ => Err(ParseError { kind: ParseErrorKind::UnexpectedEnd, pos: last }),
        }
    }
}

/// Parse a list of tokens into a script.
pub fn parse(tokens: &Vec<(Token, TextPos)>) -> (r: Result<Parsed, ParseError>)
    ensures
        match parse_tokens(tokens.deep_view()) {
            Ok(parsed) => r matches Ok(got) && got@ == parsed && parsed.well_formed()
                && parsed.routines_valid(),
            Err(e) => r matches Err(err) && err@ == e,
        },
{
    proof {
        assert(tokens.deep_view().len() == tokens.len());
        lemma_parsed_is_well_formed(tokens.deep_view());
    }
    let reduced = reduce_tokens(tokens);
    let ghost all = reduced.deep_view();
    let mut parser = Parser::new();
    let mut i: usize = 0;
    while i < reduced.len()
        invariant
            i <= reduced.len(),
            all == reduced.deep_view(),
            all == significant_tokens(tokens.deep_view()),
            parse_tokens(tokens.deep_view()) == parser@.run(all, i as int),
        decreases reduced.len() - i,
    {
        let item = reduced[i];
        assert(all[i as int] == (item.0@, item.1));
        parser.parse(&item.0, &item.1)?;
        i += 1;
    }
    let last = if reduced.len() > 0 {
        let item = reduced[reduced.len() - 1];
        assert(all.last() == (item.0@, item.1));
        item.1
    } else {
        TextPos(1, 0)
    };
    parser.finish(last)
}

/// Why a text is no package script.
#[derive(Debug, PartialEq)]
pub enum ScriptError {
    /// The text could not be lexed.
    Lex(LexError),
    /// The tokens could not be parsed.
    Parse(ParseError),
    /// The `meta` routine holds an instruction that declares no metadata.
    Metadata(MetadataError),
}

/// The mathematical value of a [`ScriptError`].
pub enum ScriptErrorView {
    Lex(LexErrorView),
    Parse(ParseErrorView),
    Metadata(MetadataError),
}

impl View for ScriptError {
    type V = ScriptErrorView;

    open spec fn view(&self) -> ScriptErrorView {
        match *self {
            ScriptError::Lex(e) => ScriptErrorView::Lex(e@),
            ScriptError::Parse(e) => ScriptErrorView::Parse(e@),
            ScriptError::Metadata(e) => ScriptErrorView::Metadata(e),
        }
    }
}

/// The script that a text writes.
pub open spec fn parse_text(text: Seq<char>, byte_len: usize) -> Result<
    ParsedView,
    ScriptErrorView,
> {
    match lex_text(text, byte_len) {
        Ok(tokens) => match parse_tokens(tokens) {
            Ok(parsed) => Ok(parsed),
            Err(e) => Err(ScriptErrorView::Parse(e)),
        },
        Err(e) => Err(ScriptErrorView::Lex(e)),
    }
}

/// The valid script that a text writes: a script whose `meta` routine
/// holds nothing but declarations of metadata.
pub open spec fn parse_valid_text(text: Seq<char>, byte_len: usize) -> Result<
    ParsedView,
    ScriptErrorView,
> {
    match parse_text(text, byte_len) {
        Ok(parsed) => match metadata_of(parsed) {
            Ok(_) => Ok(parsed),
            Err(e) => Err(ScriptErrorView::Metadata(e)),
        },
        Err(e) => Err(e),
    }
}

/// Lex and parse the text of a script.
pub fn lex_and_parse(text: &str) -> (r: Result<Parsed, ScriptError>)
    requires
        text@.len() < usize::MAX,
    ensures
        match parse_text(text@, text.len()) {
            Ok(parsed) => r matches Ok(got) && got@ == parsed && parsed.well_formed()
                && parsed.routines_valid(),
            Err(e) => r matches Err(err) && err@ == e,
        },
{
    let tokens = match lex(text) {
        Ok(tokens) => tokens,
        Err(e) => {
            return Err(ScriptError::Lex(e));
        },
    };
    match parse(&tokens) {
        Ok(parsed) => Ok(parsed),
        Err(e) => Err(ScriptError::Parse(e)),
    }
}

/// Parse the text of a script and check that it is valid.
pub fn parse_and_validate(text: &str) -> (r: Result<Parsed, ScriptError>)
    requires
        text@.len() < usize::MAX,
    ensures
        match parse_valid_text(text@, text.len()) {
            Ok(parsed) => r matches Ok(got) && got@ == parsed && parsed.well_formed()
                && parsed.routines_valid(),
            Err(e) => r matches Err(err) && err@ == e,
        },
{
    let parsed = lex_and_parse(text)?;
    match eval_metadata(&parsed) {
        Ok(_) => Ok(parsed),
        Err(e) => Err(ScriptError::Metadata(e)),
    }
}

impl ParserView {
    /// What holds of a parser at every step: the blocks that it has parsed
    /// form a forest, its routines are in order, the open blocks exist, no
    /// statement of an instruction is read as an `if`, and the name of a
    /// routine that is about to open is new.
    pub open spec fn consistent(self) -> bool {
        &&& blocks_nest(self.parsed.blocks)
        &&& self.parsed.routines_valid()
        &&& forall|k: int| 0 <= k < self.open.len() ==> #[trigger] self.open[k] < self.parsed.blocks.len()
        &&& (self.mode matches ParseModeView::Instr(instr, _) ==> !(instr.kind is If))
        &&& (self.mode matches ParseModeView::RoutineOpen(name) ==> routine_block(
            self.parsed.routines,
            name,
        ) is None)
    }
}

/// The statement of an instruction never turns into an `if`.
pub proof fn lemma_feed_keeps_instruction(
    kind: InstrKindView,
    stage: Stage,
    tok: TokenView,
    pos: TextPos,
)
    requires
        !(kind is If),
    ensures
        feed(kind, stage, tok, pos) matches Ok(fed) ==> !(fed.kind is If),
{
}

/// No keyword of an instruction starts an `if`.
pub proof fn lemma_no_keyword_starts_if(name: Seq<char>)
    ensures
        instr_from_name(name) matches Some(kind) ==> !(kind is If),
{
}

/// Adding an instruction that is no `if` keeps the blocks a forest.
pub proof fn lemma_add_instr_nests(
    blocks: Seq<Seq<InstructionView>>,
    block: BlockId,
    instr: InstructionView,
)
    requires
        blocks_nest(blocks),
        instr.kind matches InstrKindView::If(_, target) ==> block < target < blocks.len(),
    ensures
        blocks_nest(add_instr(blocks, block, instr)),
        add_instr(blocks, block, instr).len() == blocks.len(),
{
    let added = add_instr(blocks, block, instr);
    assert forall|b: int| 0 <= b < added.len() implies #[trigger] block_nests(added, b) by {
        assert(block_nests(blocks, b));
        if b == block {
            assert forall|k: int| 0 <= k < added[b].len() implies (
            #[trigger] added[b][k].kind matches InstrKindView::If(_, target) ==> b < target
                < added.len()) by {
                if k < blocks[b].len() {
                    assert(added[b][k] == blocks[b][k]);
                }
            }
        } else {
            assert(added[b] == blocks[b]);
        }
    }
}

/// Opening a block keeps the blocks a forest.
pub proof fn lemma_open_block_nests(blocks: Seq<Seq<InstructionView>>)
    requires
        blocks_nest(blocks),
    ensures
        blocks_nest(blocks.push(Seq::empty())),
{
    let opened = blocks.push(Seq::empty());
    assert forall|b: int| 0 <= b < opened.len() implies #[trigger] block_nests(opened, b) by {
        if b < blocks.len() {
            assert(block_nests(blocks, b));
            assert(opened[b] == blocks[b]);
        }
    }
}

/// An `if` whose block is the next block to be opened keeps the blocks a
/// forest once that block is opened.
pub proof fn lemma_open_if_nests(
    blocks: Seq<Seq<InstructionView>>,
    block: BlockId,
    instr: InstructionView,
)
    requires
        blocks_nest(blocks),
        instr.kind matches InstrKindView::If(_, target) && target == blocks.len(),
        block < blocks.len() || blocks.len() == 0,
    ensures
        blocks_nest(add_instr(blocks, block, instr).push(Seq::empty())),
{
    let added = add_instr(blocks, block, instr);
    let opened = added.push(Seq::empty());
    assert forall|b: int| 0 <= b < opened.len() implies #[trigger] block_nests(opened, b) by {
        if b < blocks.len() {
            assert(block_nests(blocks, b));
            if b == block {
                assert forall|k: int| 0 <= k < opened[b].len() implies (
                #[trigger] opened[b][k].kind matches InstrKindView::If(_, target) ==> b < target
                    < opened.len()) by {
                    if k < blocks[b].len() {
                        assert(opened[b][k] == blocks[b][k]);
                    }
                }
            } else {
                assert(opened[b] == blocks[b]);
            }
        }
    }
}

impl ParserView {
    /// Every token keeps the parser consistent, and opens one block at
    /// most.
    pub proof fn lemma_step_consistent(self, tok: TokenView, pos: TextPos)
        requires
            self.consistent(),
            self.parsed.blocks.len() < usize::MAX,
        ensures
            self.step(tok, pos) matches Ok(next) ==> next.consistent()
                && next.parsed.blocks.len() <= self.parsed.blocks.len() + 1,
    {
        if let Ok(next) = self.step(tok, pos) {
            let blocks = self.parsed.blocks;
            match self.mode {
                ParseModeView::RoutineOpen(name) => {
                    lemma_open_block_nests(blocks);
                    lemma_routine_block_none(self.parsed.routines, name);
                    let before = self.parsed.routines;
                    let after = next.parsed.routines;
                    assert forall|i: int, j: int| 0 <= i < j < after.len() implies (
                    #[trigger] after[i]).0 != (#[trigger] after[j]).0 by {
                        assert(after[i] == before[i]);
                        if j < before.len() {
                            assert(after[j] == before[j]);
                        }
                    }
                    assert forall|i: int| 0 <= i < after.len() implies (#[trigger] after[i]).1
                        < next.parsed.blocks.len() by {
                        if i < before.len() {
                            assert(after[i] == before[i]);
                        }
                    }
                },
                ParseModeView::Body => {
                    if let TokenView::Ident(name) = tok {
                        lemma_no_keyword_starts_if(name);
                    }
                    if self.open.len() > 0 {
                        assert forall|k: int| 0 <= k < next.open.len() implies #[trigger] next.open[k]
                            < next.parsed.blocks.len() by {
                            assert(next.open[k] == self.open[k]);
                        }
                    }
                },
                ParseModeView::Instr(instr, stage) => {
                    lemma_feed_keeps_instruction(instr.kind, stage, tok, pos);
                    let fed = feed(instr.kind, stage, tok, pos)->Ok_0;
                    if fed.done {
                        lemma_add_instr_nests(
                            blocks,
                            self.current(),
                            InstructionView { kind: fed.kind, pos: instr.pos },
                        );
                    }
                },
                ParseModeView::Cond { pos: at, condition, bracket } => {
                    if next.mode is Body {
                        let id = blocks.len() as BlockId;
                        let reading = condition->0;
                        let instr = InstructionView {
                            kind: InstrKindView::If(reading, id),
                            pos: at,
                        };
                        if self.open.len() > 0 {
                            assert(self.open[self.open.len() - 1] < blocks.len());
                        }
                        lemma_open_if_nests(blocks, self.current(), instr);
                        assert(add_instr(blocks, self.current(), instr).len() == blocks.len());
                        assert forall|k: int| 0 <= k < next.open.len() implies #[trigger] next.open[k]
                            < next.parsed.blocks.len() by {
                            if k < self.open.len() {
                                assert(next.open[k] == self.open[k]);
                            }
                        }
                    }
                },
                _ => {},
            }
        }
    }

    /// A consistent parser ends with a script whose blocks form a forest
    /// and whose routines are in order.
    pub proof fn lemma_run_well_formed(self, tokens: Seq<(TokenView, TextPos)>, from: int)
        requires
            self.consistent(),
            0 <= from,
            self.parsed.blocks.len() <= from,
            tokens.len() <= usize::MAX,
        ensures
            self.run(tokens, from) matches Ok(parsed) ==> parsed.well_formed()
                && parsed.routines_valid(),
        decreases tokens.len() - from,
    {
        if 0 <= from < tokens.len() {
            self.lemma_step_consistent(tokens[from].0, tokens[from].1);
            if let Ok(next) = self.step(tokens[from].0, tokens[from].1) {
                next.lemma_run_well_formed(tokens, from + 1);
            }
        }
    }
}

/// The blocks of every script that is parsed form a forest: each `if` runs
/// a block that exists and comes after its own. No two of its routines have
/// one name, and each routine runs a block that exists.
pub proof fn lemma_parsed_is_well_formed(tokens: Seq<(TokenView, TextPos)>)
    requires
        tokens.len() <= usize::MAX,
    ensures
        parse_tokens(tokens) matches Ok(parsed) ==> parsed.well_formed()
            && parsed.routines_valid(),
{
    let start = ParserView::start();
    assert(blocks_nest(start.parsed.blocks));
    let pred = |t: (TokenView, TextPos)| t.0.is_significant();
    tokens.lemma_filter_len(pred);
    start.lemma_run_well_formed(significant_tokens(tokens), 0);
}

} // verus!
