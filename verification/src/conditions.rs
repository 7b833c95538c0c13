//! Conditions of `if` instructions: trees of predicates that are built up
//! one token at a time.

use vstd::prelude::*;
use crate::asset::{ModloaderMatch, PluginLoaderMatch};
use crate::instance::Side;
use crate::instruction::{
    arg_of, parse_arg, unexpected, unexpected_token, ParseError, ParseErrorKind,
    ParseErrorKindView, ParseErrorView,
};
use crate::lang::Language;
use crate::lex::{TextPos, Token, TokenView};
use crate::pkg::PackageStability;
use crate::text::str_eq;
use crate::value::{Value, ValueView};

verus! {

/// Value for the OS condition.
#[derive(Debug, Clone, Copy, PartialEq, Eq, Structural)]
pub enum OSCondition {
    Windows,
    Linux,
    MacOS,
    Other,
}

impl OSCondition {
    /// The operating system that `s` names.
    pub open spec fn parse(s: Seq<char>) -> Option<OSCondition> {
        if s == "windows"@ {
            Some(OSCondition::Windows)
        } else if s == "linux"@ {
            Some(OSCondition::Linux)
        } else if s == "macos"@ {
            Some(OSCondition::MacOS)
        } else if s == "other"@ {
            Some(OSCondition::Other)
        } else {
            None
        }
    }

    /// Parse an operating system from its name.
    pub fn parse_from_str(string: &str) -> (r: Option<Self>)
        ensures
            r == Self::parse(string@),
    {
        if str_eq(string, "windows") {
            Some(Self::Windows)
        } else if str_eq(string, "linux") {
            Some(Self::Linux)
        } else if str_eq(string, "macos") {
            Some(Self::MacOS)
        } else if str_eq(string, "other") {
            Some(Self::Other)
        } else {
            None
        }
    }
}

/// A condition, possibly still being parsed.
///
/// The operand of `Not` and the right operand of `And` and `Or` are empty
/// until the tokens that make them have been parsed; so is the argument of a
/// predicate.
#[derive(Debug, PartialEq, Eq)]
pub enum ConditionKind {
    Not(Option<Box<ConditionKind>>),
    And(Box<ConditionKind>, Option<Box<ConditionKind>>),
    Or(Box<ConditionKind>, Option<Box<ConditionKind>>),
    Version(Value),
    Side(Option<Side>),
    Modloader(Option<ModloaderMatch>),
    PluginLoader(Option<PluginLoaderMatch>),
    Feature(Value),
    Value(Value, Value),
    Defined(Option<String>),
    OS(Option<OSCondition>),
    Stability(Option<PackageStability>),
    Language(Option<Language>),
}

/// The mathematical value of a [`ConditionKind`].
pub enum ConditionView {
    Not(Option<Box<ConditionView>>),
    And(Box<ConditionView>, Option<Box<ConditionView>>),
    Or(Box<ConditionView>, Option<Box<ConditionView>>),
    Version(ValueView),
    Side(Option<Side>),
    Modloader(Option<ModloaderMatch>),
    PluginLoader(Option<PluginLoaderMatch>),
    Feature(ValueView),
    Value(ValueView, ValueView),
    Defined(Option<Seq<char>>),
    OS(Option<OSCondition>),
    Stability(Option<PackageStability>),
    Language(Option<Language>),
}

/// The mathematical value of a condition.
pub open spec fn condition_view(condition: ConditionKind) -> ConditionView
    decreases condition,
{
    match condition {
        ConditionKind::Not(inner) => ConditionView::Not(
            match inner {
                Some(inner) => Some(Box::new(condition_view(*inner))),
                None => None,
            },
        ),
        ConditionKind::And(left, right) => ConditionView::And(
            Box::new(condition_view(*left)),
            match right {
                Some(inner) => Some(Box::new(condition_view(*inner))),
                None => None,
            },
        ),
        ConditionKind::Or(left, right) => ConditionView::Or(
            Box::new(condition_view(*left)),
            match right {
                Some(inner) => Some(Box::new(condition_view(*inner))),
                None => None,
            },
        ),
        ConditionKind::Version(value) => ConditionView::Version(value@),
        ConditionKind::Side(side) => ConditionView::Side(side),
        ConditionKind::Modloader(loader) => ConditionView::Modloader(loader),
        ConditionKind::PluginLoader(loader) => ConditionView::PluginLoader(loader),
        ConditionKind::Feature(value) => ConditionView::Feature(value@),
        ConditionKind::Value(left, right) => ConditionView::Value(left@, right@),
        ConditionKind::Defined(name) => ConditionView::Defined(
            match name {
                Some(name) => Some(name@),
                None => None,
            },
        ),
        ConditionKind::OS(os) => ConditionView::OS(os),
        ConditionKind::Stability(stability) => ConditionView::Stability(stability),
        ConditionKind::Language(lang) => ConditionView::Language(lang),
    }
}

/// The mathematical value of an operand that may still be empty.
pub open spec fn operand_view(operand: Option<Box<ConditionKind>>) -> Option<Box<ConditionView>> {
    match operand {
        Some(inner) => Some(Box::new(condition_view(*inner))),
        None => None,
    }
}

impl View for ConditionKind {
    type V = ConditionView;

    open spec fn view(&self) -> ConditionView {
        condition_view(*self)
    }
}

impl DeepView for ConditionKind {
    type V = ConditionView;

    open spec fn deep_view(&self) -> ConditionView {
        self@
    }
}

impl ConditionView {
    /// The empty condition that a keyword starts.
    pub open spec fn from_name(s: Seq<char>) -> Option<ConditionView> {
        if s == "not"@ {
            Some(ConditionView::Not(None))
        } else if s == "version"@ {
            Some(ConditionView::Version(ValueView::Empty))
        } else if s == "side"@ {
            Some(ConditionView::Side(None))
        } else if s == "modloader"@ {
            Some(ConditionView::Modloader(None))
        } else if s == "plugin_loader"@ {
            Some(ConditionView::PluginLoader(None))
        } else if s == "feature"@ {
            Some(ConditionView::Feature(ValueView::Empty))
        } else if s == "value"@ {
            Some(ConditionView::Value(ValueView::Empty, ValueView::Empty))
        } else if s == "defined"@ {
            Some(ConditionView::Defined(None))
        } else if s == "os"@ {
            Some(ConditionView::OS(None))
        } else if s == "stability"@ {
            Some(ConditionView::Stability(None))
        } else if s == "language"@ {
            Some(ConditionView::Language(None))
        } else {
            None
        }
    }

    /// Whether the condition is finished: every operand is there and
    /// finished, and every predicate has its arguments.
    pub open spec fn finished(self) -> bool
        decreases self,
    {
        match self {
            ConditionView::Not(inner) => match inner {
                Some(inner) => inner.finished(),
                None => false,
            },
            ConditionView::And(left, right) | ConditionView::Or(left, right) => left.finished()
                && match right {
                Some(inner) => inner.finished(),
                None => false,
            },
            ConditionView::Version(value) | ConditionView::Feature(value) => value.is_some(),
            ConditionView::Side(side) => side is Some,
            ConditionView::Modloader(loader) => loader is Some,
            ConditionView::PluginLoader(loader) => loader is Some,
            ConditionView::Defined(name) => name is Some,
            ConditionView::OS(os) => os is Some,
            ConditionView::Stability(stability) => stability is Some,
            ConditionView::Language(lang) => lang is Some,
            ConditionView::Value(left, right) => left.is_some() && right.is_some(),
        }
    }

    /// What a token starts in an empty operand: the condition that the
    /// identifier names.
    pub open spec fn start_operand(tok: TokenView, pos: TextPos) -> Result<
        ConditionView,
        ParseErrorView,
    > {
        match tok {
            TokenView::Ident(name) => match ConditionView::from_name(name) {
                Some(nested) => Ok(nested),
                None => Err(
                    ParseErrorView { kind: ParseErrorKindView::UnknownCondition(name), pos },
                ),
            },
            _ => Err(unexpected(tok, pos)),
        }
    }

    /// The operand in a pending slot after one more token: an empty slot
    /// starts the condition that the token names, a filled one hands the
    /// token on.
    pub open spec fn parse_operand(
        operand: Option<Box<ConditionView>>,
        tok: TokenView,
        pos: TextPos,
    ) -> Result<ConditionView, ParseErrorView>
        decreases operand,
    {
        match operand {
            Some(inner) => inner.parse_token(tok, pos),
            None => Self::start_operand(tok, pos),
        }
    }

    /// The condition after one more token.
    ///
    /// A finished condition is wrapped by `and` or `or` as the left operand
    /// of a new node whose right operand is empty; any other token is an
    /// error. An unfinished condition hands the token to its pending
    /// operand, or takes it as the argument of its predicate.
    pub open spec fn parse_token(self, tok: TokenView, pos: TextPos) -> Result<
        ConditionView,
        ParseErrorView,
    >
        decreases self,
    {
        if self.finished() {
            match tok {
                TokenView::Ident(name) => if name == "and"@ {
                    Ok(ConditionView::And(Box::new(self), None))
                } else if name == "or"@ {
                    Ok(ConditionView::Or(Box::new(self), None))
                } else {
                    Err(ParseErrorView { kind: ParseErrorKindView::UnknownCombinator(name), pos })
                },
                _ => Err(unexpected(tok, pos)),
            }
        } else {
            match self {
                ConditionView::Not(inner) => match Self::parse_operand(inner, tok, pos) {
                    Ok(parsed) => Ok(ConditionView::Not(Some(Box::new(parsed)))),
                    Err(e) => Err(e),
                },
                ConditionView::And(left, right) => match Self::parse_operand(right, tok, pos) {
                    Ok(parsed) => Ok(ConditionView::And(left, Some(Box::new(parsed)))),
                    Err(e) => Err(e),
                },
                ConditionView::Or(left, right) => match Self::parse_operand(right, tok, pos) {
                    Ok(parsed) => Ok(ConditionView::Or(left, Some(Box::new(parsed)))),
                    Err(e) => Err(e),
                },
                ConditionView::Version(_) => match arg_of(tok, pos) {
                    Ok(value) => Ok(ConditionView::Version(value)),
                    Err(e) => Err(e),
                },
                ConditionView::Feature(_) => match arg_of(tok, pos) {
                    Ok(value) => Ok(ConditionView::Feature(value)),
                    Err(e) => Err(e),
                },
                ConditionView::Defined(_) => match tok {
                    TokenView::Ident(name) => Ok(ConditionView::Defined(Some(name))),
                    _ => Err(unexpected(tok, pos)),
                },
                ConditionView::Side(_) => match tok {
                    TokenView::Ident(name) => match Side::parse(name) {
                        Some(side) => Ok(ConditionView::Side(Some(side))),
                        None => Err(unknown_argument(name, pos)),
                    },
                    _ => Err(unexpected(tok, pos)),
                },
                ConditionView::Modloader(_) => match tok {
                    TokenView::Ident(name) => match ModloaderMatch::parse(name) {
                        Some(loader) => Ok(ConditionView::Modloader(Some(loader))),
                        None => Err(unknown_argument(name, pos)),
                    },
                    _ => Err(unexpected(tok, pos)),
                },
                ConditionView::PluginLoader(_) => match tok {
                    TokenView::Ident(name) => match PluginLoaderMatch::parse(name) {
                        Some(loader) => Ok(ConditionView::PluginLoader(Some(loader))),
                        None => Err(unknown_argument(name, pos)),
                    },
                    _ => Err(unexpected(tok, pos)),
                },
                ConditionView::OS(_) => match tok {
                    TokenView::Ident(name) => match OSCondition::parse(name) {
                        Some(os) => Ok(ConditionView::OS(Some(os))),
                        None => Err(unknown_argument(name, pos)),
                    },
                    _ => Err(unexpected(tok, pos)),
                },
                ConditionView::Stability(_) => match tok {
                    TokenView::Ident(name) => match PackageStability::parse(name) {
                        Some(stability) => Ok(ConditionView::Stability(Some(stability))),
                        None => Err(unknown_argument(name, pos)),
                    },
                    _ => Err(unexpected(tok, pos)),
                },
                ConditionView::Language(_) => match tok {
                    TokenView::Ident(name) => match Language::parse(name) {
                        Some(lang) => Ok(ConditionView::Language(Some(lang))),
                        None => Err(unknown_argument(name, pos)),
                    },
                    _ => Err(unexpected(tok, pos)),
                },
                ConditionView::Value(left, right) => match arg_of(tok, pos) {
                    Ok(value) => if left is Empty {
                        Ok(ConditionView::Value(value, right))
                    } else {
                        Ok(ConditionView::Value(left, value))
                    },
                    Err(e) => Err(e),
                },
            }
        }
    }
}

impl Clone for ConditionKind {
    fn clone(&self) -> (r: Self)
        ensures
            r@ == self@,
        decreases self,
    {
        match self {
            ConditionKind::Not(inner) => ConditionKind::Not(
                match inner {
                    Some(inner) => Some(Box::new((&**inner).clone())),
                    None => None,
                },
            ),
            ConditionKind::And(left, right) => ConditionKind::And(
                Box::new((&**left).clone()),
                match right {
                    Some(inner) => Some(Box::new((&**inner).clone())),
                    None => None,
                },
            ),
            ConditionKind::Or(left, right) => ConditionKind::Or(
                Box::new((&**left).clone()),
                match right {
                    Some(inner) => Some(Box::new((&**inner).clone())),
                    None => None,
                },
            ),
            ConditionKind::Version(value) => ConditionKind::Version(value.clone()),
            ConditionKind::Side(side) => ConditionKind::Side(*side),
            ConditionKind::Modloader(loader) => ConditionKind::Modloader(*loader),
            ConditionKind::PluginLoader(loader) => ConditionKind::PluginLoader(*loader),
            ConditionKind::Feature(value) => ConditionKind::Feature(value.clone()),
            ConditionKind::Value(left, right) => ConditionKind::Value(left.clone(), right.clone()),
            ConditionKind::Defined(name) => ConditionKind::Defined(
                match name {
                    Some(name) => Some(name.clone()),
                    None => None,
                },
            ),
            ConditionKind::OS(os) => ConditionKind::OS(*os),
            ConditionKind::Stability(stability) => ConditionKind::Stability(*stability),
            ConditionKind::Language(lang) => ConditionKind::Language(*lang),
        }
    }
}

impl ConditionKind {
    /// The condition that a keyword starts, without its arguments.
    pub fn from_str(string: &str) -> (r: Option<Self>)
        ensures
            r.deep_view() == ConditionView::from_name(string@),
    {
        if str_eq(string, "not") {
            Some(Self::Not(None))
        } else if str_eq(string, "version") {
            Some(Self::Version(Value::Empty))
        } else if str_eq(string, "side") {
            Some(Self::Side(None))
        } else if str_eq(string, "modloader") {
            Some(Self::Modloader(None))
        } else if str_eq(string, "plugin_loader") {
            Some(Self::PluginLoader(None))
        } else if str_eq(string, "feature") {
            Some(Self::Feature(Value::Empty))
        } else if str_eq(string, "value") {
            Some(Self::Value(Value::Empty, Value::Empty))
        } else if str_eq(string, "defined") {
            Some(Self::Defined(None))
        } else if str_eq(string, "os") {
            Some(Self::OS(None))
        } else if str_eq(string, "stability") {
            Some(Self::Stability(None))
        } else if str_eq(string, "language") {
            Some(Self::Language(None))
        } else {
            None
        }
    }

    /// Checks whether this condition is finished parsing.
    pub fn is_finished_parsing(&self) -> (r: bool)
        ensures
            r == self@.finished(),
        decreases self,
    {
        match self {
            Self::Not(condition) => match condition {
                Some(condition) => condition.is_finished_parsing(),
                None => false,
            },
            Self::And(left, right) | Self::Or(left, right) => {
                left.is_finished_parsing() && match right {
                    Some(condition) => condition.is_finished_parsing(),
                    None => false,
                }
            },
            Self::Version(val) | Self::Feature(val) => val.is_some(),
            Self::Side(val) => val.is_some(),
            Self::Modloader(val) => val.is_some(),
            Self::PluginLoader(val) => val.is_some(),
            Self::Defined(val) => val.is_some(),
            Self::OS(val) => val.is_some(),
            Self::Stability(val) => val.is_some(),
            Self::Language(val) => val.is_some(),
            Self::Value(left, right) => left.is_some() && right.is_some(),
        }
    }

    /// Hands a token to a pending operand slot.
    fn parse_operand(slot: &mut Option<Box<ConditionKind>>, tok: &Token, pos: &TextPos) -> (r:
        Result<(), ParseError>)
        ensures
            match ConditionView::parse_operand(operand_view(*old(slot)), tok@, *pos) {
                Ok(parsed) => r is Ok && operand_view(*final(slot)) == Some(Box::new(parsed)),
                Err(e) => r matches Err(err) && err@ == e && operand_view(*final(slot))
                    == operand_view(*old(slot)),
            },
        decreases *old(slot),
    {
        match slot {
            Some(condition) => condition.parse(tok, pos),
            None => match tok {
                Token::Ident(name) => match Self::from_str(name.as_str()) {
                    Some(nested) => {
                        *slot = Some(Box::new(nested));
                        Ok(())
                    },
                    None => Err(
                        ParseError {
                            kind: ParseErrorKind::UnknownCondition(name.clone()),
                            pos: *pos,
                        },
                    ),
                },
                _ => Err(unexpected_token(tok, pos)),
            },
        }
    }

    /// Add arguments to the condition from tokens.
    pub fn parse(&mut self, tok: &Token, pos: &TextPos) -> (r: Result<(), ParseError>)
        ensures
            match old(self)@.parse_token(tok@, *pos) {
                Ok(parsed) => r is Ok && final(self)@ == parsed,
                Err(e) => r matches Err(err) && err@ == e && final(self)@ == old(self)@,
            },
        decreases *old(self),
    {
        if self.is_finished_parsing() {
            match tok {
                Token::Ident(name) => {
                    let current = Box::new(self.clone());
                    if str_eq(name.as_str(), "and") {
                        *self = ConditionKind::And(current, None);
                    } else if str_eq(name.as_str(), "or") {
                        *self = ConditionKind::Or(current, None);
                    } else {
                        return Err(
                            ParseError {
                                kind: ParseErrorKind::UnknownCombinator(name.clone()),
                                pos: *pos,
                            },
                        );
                    }
                    return Ok(());
                },
                _ => {
                    return Err(unexpected_token(tok, pos));
                },
            }
        }
        match self {
            Self::Not(condition) => Self::parse_operand(condition, tok, pos),
            Self::And(_, condition) => Self::parse_operand(condition, tok, pos),
            Self::Or(_, condition) => Self::parse_operand(condition, tok, pos),
            Self::Version(val) => {
                *val = parse_arg(tok, pos)?;
                Ok(())
            },
            Self::Feature(val) => {
                *val = parse_arg(tok, pos)?;
                Ok(())
            },
            Self::Defined(var) => match tok {
                Token::Ident(name) => {
                    *var = Some(name.clone());
                    Ok(())
                },
                _ => Err(unexpected_token(tok, pos)),
            },
            Self::Side(side) => match tok {
                Token::Ident(name) => {
                    *side = check_enum_condition_argument(
                        Side::parse_from_str(name.as_str()),
                        name.as_str(),
                        pos,
                    )?;
                    Ok(())
                },
                _ => Err(unexpected_token(tok, pos)),
            },
            Self::Modloader(loader) => match tok {
                Token::Ident(name) => {
                    *loader = check_enum_condition_argument(
                        ModloaderMatch::from_str(name.as_str()),
                        name.as_str(),
                        pos,
                    )?;
                    Ok(())
                },
                _ => Err(unexpected_token(tok, pos)),
            },
            Self::PluginLoader(loader) => match tok {
                Token::Ident(name) => {
                    *loader = check_enum_condition_argument(
                        PluginLoaderMatch::from_str(name.as_str()),
                        name.as_str(),
                        pos,
                    )?;
                    Ok(())
                },
                _ => Err(unexpected_token(tok, pos)),
            },
            Self::OS(os) => match tok {
                Token::Ident(name) => {
                    *os = check_enum_condition_argument(
                        OSCondition::parse_from_str(name.as_str()),
                        name.as_str(),
                        pos,
                    )?;
                    Ok(())
                },
                _ => Err(unexpected_token(tok, pos)),
            },
            Self::Stability(stability) => match tok {
                Token::Ident(name) => {
                    *stability = check_enum_condition_argument(
                        PackageStability::parse_from_str(name.as_str()),
                        name.as_str(),
                        pos,
                    )?;
                    Ok(())
                },
                _ => Err(unexpected_token(tok, pos)),
            },
            Self::Language(lang) => match tok {
                Token::Ident(name) => {
                    *lang = check_enum_condition_argument(
                        Language::parse_from_str(name.as_str()),
                        name.as_str(),
                        pos,
                    )?;
                    Ok(())
                },
                _ => Err(unexpected_token(tok, pos)),
            },
            Self::Value(left, right) => {
                let value = parse_arg(tok, pos)?;
                match left {
                    Value::Empty => *left = value,
                    _ => *right = value,
                }
                Ok(())
            },
        }
    }
}

/// A condition of an `if` instruction.
#[derive(Debug, PartialEq)]
pub struct Condition {
    pub kind: ConditionKind,
}

impl View for Condition {
    type V = ConditionView;

    open spec fn view(&self) -> ConditionView {
        self.kind@
    }
}

impl Clone for Condition {
    fn clone(&self) -> (r: Self)
        ensures
            r@ == self@,
    {
        Condition { kind: self.kind.clone() }
    }
}

impl Condition {
    /// A condition of the given kind.
    pub fn new(kind: ConditionKind) -> (r: Self)
        ensures
            r.kind == kind,
    {
        Self { kind }
    }

    /// Add arguments to the condition from tokens.
    pub fn parse(&mut self, tok: &Token, pos: &TextPos) -> (r: Result<(), ParseError>)
        ensures
            match old(self)@.parse_token(tok@, *pos) {
                Ok(parsed) => r is Ok && final(self)@ == parsed,
                Err(e) => r matches Err(err) && err@ == e && final(self)@ == old(self)@,
            },
    {
        self.kind.parse(tok, pos)
    }
}

/// The error for an identifier that is no argument of its condition.
pub open spec fn unknown_argument(name: Seq<char>, pos: TextPos) -> ParseErrorView {
    ParseErrorView { kind: ParseErrorKindView::UnknownConditionArgument(name), pos }
}

/// Check the parsing of a condition argument.
pub fn check_enum_condition_argument<T>(arg: Option<T>, ident: &str, pos: &TextPos) -> (r: Result<
    Option<T>,
    ParseError,
>)
    ensures
        match arg {
            Some(value) => r == Ok::<Option<T>, ParseError>(Some(value)),
            None => r matches Err(err) && err@ == unknown_argument(ident@, *pos),
        },
{
    match arg {
        Some(value) => Ok(Some(value)),
        None => Err(
            ParseError {
                kind: ParseErrorKind::UnknownConditionArgument(ident.to_owned()),
                pos: *pos,
            },
        ),
    }
}

/// A side condition without its argument is unfinished; one identifier
/// that names a side finishes it.
pub proof fn lemma_side_condition_takes_one_identifier(name: Seq<char>, pos: TextPos)
    ensures
        !ConditionView::Side(None).finished(),
        Side::parse(name) matches Some(side) ==> ConditionView::Side(None).parse_token(
            TokenView::Ident(name),
            pos,
        ) == Ok::<ConditionView, ParseErrorView>(ConditionView::Side(Some(side)))
            && ConditionView::Side(Some(side)).finished(),
{
}

/// After a finished condition, `and` and `or` wrap the condition as the
/// left operand of a new node. The node is unfinished, and is finished
/// exactly when its right operand is there and finished.
pub proof fn lemma_combinator_wraps_finished_condition(
    condition: ConditionView,
    right: ConditionView,
    pos: TextPos,
)
    requires
        condition.finished(),
    ensures
        condition.parse_token(TokenView::Ident("and"@), pos) == Ok::<
            ConditionView,
            ParseErrorView,
        >(ConditionView::And(Box::new(condition), None)),
        condition.parse_token(TokenView::Ident("or"@), pos) == Ok::<ConditionView, ParseErrorView>(
            ConditionView::Or(Box::new(condition), None),
        ),
        !ConditionView::And(Box::new(condition), None).finished(),
        !ConditionView::Or(Box::new(condition), None).finished(),
        ConditionView::And(Box::new(condition), Some(Box::new(right))).finished()
            == right.finished(),
        ConditionView::Or(Box::new(condition), Some(Box::new(right))).finished()
            == right.finished(),
{
    reveal_strlit("and");
    reveal_strlit("or");
    assert("and"@.len() != "or"@.len());
}

/// A token that an unfinished wrapping node takes goes to its right
/// operand: the node after the token is the node with the operand after the
/// token.
pub proof fn lemma_wrapped_condition_fills_right_operand(
    left: ConditionView,
    right: ConditionView,
    tok: TokenView,
    pos: TextPos,
)
    requires
        !right.finished(),
    ensures
        ConditionView::And(Box::new(left), Some(Box::new(right))).parse_token(tok, pos)
            == match right.parse_token(tok, pos) {
            Ok(parsed) => Ok::<ConditionView, ParseErrorView>(
                ConditionView::And(Box::new(left), Some(Box::new(parsed))),
            ),
            Err(e) => Err(e),
        },
        ConditionView::Or(Box::new(left), Some(Box::new(right))).parse_token(tok, pos)
            == match right.parse_token(tok, pos) {
            Ok(parsed) => Ok::<ConditionView, ParseErrorView>(
                ConditionView::Or(Box::new(left), Some(Box::new(parsed))),
            ),
            Err(e) => Err(e),
        },
{
}

} // verus!
