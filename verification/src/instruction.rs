//! Instructions of package scripts and how their arguments are parsed.

use vstd::prelude::*;
use crate::asset::AssetKind;
use crate::conditions::{Condition, ConditionView};
use crate::lex::{TextPos, Token, TokenView};
use crate::text::{int_text, push_int, str_eq};
use crate::value::{Value, ValueView};

verus! {

/// What was wrong with a token that a parser was given.
#[derive(Debug, PartialEq)]
pub enum ParseErrorKind {
    /// The token cannot stand where it was found.
    UnexpectedToken(Token),
    /// A finished condition was followed by an identifier other than `and`
    /// and `or`.
    UnknownCombinator(String),
    /// The identifier names no condition.
    UnknownCondition(String),
    /// The identifier is no argument of the condition it was given to.
    UnknownConditionArgument(String),
    /// The identifier names no instruction.
    UnknownInstruction(String),
    /// The identifier names no reason for a failure.
    UnknownFailReason(String),
    /// The identifier names no property of an addon.
    UnknownAddonKey(String),
    /// The identifier names no kind of addon.
    UnknownAddonKind(String),
    /// An instruction ended before it had all its arguments.
    IncompleteInstruction,
    /// A routine of this name was declared before.
    DuplicateRoutine(String),
    /// The text ended inside a routine, a block or an instruction.
    UnexpectedEnd,
}

/// The mathematical value of a [`ParseErrorKind`].
pub enum ParseErrorKindView {
    UnexpectedToken(TokenView),
    UnknownCombinator(Seq<char>),
    UnknownCondition(Seq<char>),
    UnknownConditionArgument(Seq<char>),
    UnknownInstruction(Seq<char>),
    UnknownFailReason(Seq<char>),
    UnknownAddonKey(Seq<char>),
    UnknownAddonKind(Seq<char>),
    IncompleteInstruction,
    DuplicateRoutine(Seq<char>),
    UnexpectedEnd,
}

impl View for ParseErrorKind {
    type V = ParseErrorKindView;

    open spec fn view(&self) -> ParseErrorKindView {
        match *self {
            ParseErrorKind::UnexpectedToken(tok) => ParseErrorKindView::UnexpectedToken(tok@),
            ParseErrorKind::UnknownCombinator(name) => ParseErrorKindView::UnknownCombinator(name@),
            ParseErrorKind::UnknownCondition(name) => ParseErrorKindView::UnknownCondition(name@),
            ParseErrorKind::UnknownConditionArgument(name) => {
                ParseErrorKindView::UnknownConditionArgument(name@)
            },
            ParseErrorKind::UnknownInstruction(name) => ParseErrorKindView::UnknownInstruction(
                name@,
            ),
            ParseErrorKind::UnknownFailReason(name) => ParseErrorKindView::UnknownFailReason(name@),
            ParseErrorKind::UnknownAddonKey(name) => ParseErrorKindView::UnknownAddonKey(name@),
            ParseErrorKind::UnknownAddonKind(name) => ParseErrorKindView::UnknownAddonKind(name@),
            ParseErrorKind::IncompleteInstruction => ParseErrorKindView::IncompleteInstruction,
            ParseErrorKind::DuplicateRoutine(name) => ParseErrorKindView::DuplicateRoutine(name@),
            ParseErrorKind::UnexpectedEnd => ParseErrorKindView::UnexpectedEnd,
        }
    }
}

/// An error of parsing, with the position of the token that caused it.
#[derive(Debug, PartialEq)]
pub struct ParseError {
    pub kind: ParseErrorKind,
    pub pos: TextPos,
}

/// The mathematical value of a [`ParseError`].
pub struct ParseErrorView {
    pub kind: ParseErrorKindView,
    pub pos: TextPos,
}

impl View for ParseError {
    type V = ParseErrorView;

    open spec fn view(&self) -> ParseErrorView {
        ParseErrorView { kind: self.kind@, pos: self.pos }
    }
}

/// The error for a token that cannot stand where it was found.
pub open spec fn unexpected(tok: TokenView, pos: TextPos) -> ParseErrorView {
    ParseErrorView { kind: ParseErrorKindView::UnexpectedToken(tok), pos }
}

/// The error for a token that cannot stand where it was found.
pub fn unexpected_token(tok: &Token, pos: &TextPos) -> (r: ParseError)
    ensures
        r@ == unexpected(tok@, *pos),
{
    ParseError { kind: ParseErrorKind::UnexpectedToken(tok.clone()), pos: *pos }
}

/// The value that a token gives as an argument: a variable reference, or a
/// constant that is written as a string literal, as a bare identifier, or as
/// a number, which is read as its decimal text.
pub open spec fn arg_of(tok: TokenView, pos: TextPos) -> Result<ValueView, ParseErrorView> {
    match tok {
        TokenView::Variable(name) => Ok(ValueView::Var(name)),
        TokenView::Str(text) => Ok(ValueView::Constant(text)),
        TokenView::Ident(name) => Ok(ValueView::Constant(name)),
        TokenView::Num(num) => Ok(ValueView::Constant(int_text(num as int))),
        _ => Err(unexpected(tok, pos)),
    }
}

/// Parses a generic argument of an instruction or a condition.
pub fn parse_arg(tok: &Token, pos: &TextPos) -> (r: Result<Value, ParseError>)
    ensures
        match arg_of(tok@, *pos) {
            Ok(value) => r matches Ok(got) && got@ == value,
            Err(e) => r matches Err(err) && err@ == e,
        },
{
    match tok {
        Token::Variable(name) => Ok(Value::Var(name.clone())),
        Token::Str(text) => Ok(Value::Constant(text.clone())),
        Token::Ident(name) => Ok(Value::Constant(name.clone())),
        Token::Num(num) => {
            let mut text = String::new();
            push_int(&mut text, *num);
            assert(text@ =~= int_text(*num as int));
            Ok(Value::Constant(text))
        },
        _ => Err(unexpected_token(tok, pos)),
    }
}

/// The text that a token gives as a string argument: the contents of a
/// string literal.
pub open spec fn string_of(tok: TokenView, pos: TextPos) -> Result<Seq<char>, ParseErrorView> {
    match tok {
        TokenView::Str(text) => Ok(text),
        _ => Err(unexpected(tok, pos)),
    }
}

/// Parses a string literal argument.
pub fn parse_string(tok: &Token, pos: &TextPos) -> (r: Result<String, ParseError>)
    ensures
        match string_of(tok@, *pos) {
            Ok(text) => r matches Ok(got) && got@ == text,
            Err(e) => r matches Err(err) && err@ == e,
        },
{
    match tok {
        Token::Str(text) => Ok(text.clone()),
        _ => Err(unexpected_token(tok, pos)),
    }
}

/// Why a package declares that it cannot be installed.
#[derive(Debug, Clone, Copy, PartialEq, Eq, Structural)]
pub enum FailReason {
    /// No reason was given.
    Unspecified,
    UnsupportedVersion,
    UnsupportedModloader,
    UnsupportedPluginLoader,
    UnsupportedFeatures,
    UnsupportedOperatingSystem,
}

impl FailReason {
    /// The reason that `s` names.
    pub open spec fn parse(s: Seq<char>) -> Option<FailReason> {
        if s == "unsupported_version"@ {
            Some(FailReason::UnsupportedVersion)
        } else if s == "unsupported_modloader"@ {
            Some(FailReason::UnsupportedModloader)
        } else if s == "unsupported_plugin_loader"@ {
            Some(FailReason::UnsupportedPluginLoader)
        } else if s == "unsupported_features"@ {
            Some(FailReason::UnsupportedFeatures)
        } else if s == "unsupported_operating_system"@ {
            Some(FailReason::UnsupportedOperatingSystem)
        } else {
            None
        }
    }

    /// The message that explains this reason.
    pub open spec fn message(self) -> Seq<char> {
        match self {
            FailReason::Unspecified => "None"@,
            FailReason::UnsupportedVersion => "Unsupported Minecraft version"@,
            FailReason::UnsupportedModloader => "Unsupported modloader"@,
            FailReason::UnsupportedPluginLoader => "Unsupported plugin loader"@,
            FailReason::UnsupportedFeatures => "Unsupported feature set"@,
            FailReason::UnsupportedOperatingSystem => "Unsupported operating system"@,
        }
    }

    /// Parse a reason from its name.
    pub fn from_string(string: &str) -> (r: Option<Self>)
        ensures
            r == Self::parse(string@),
    {
        if str_eq(string, "unsupported_version") {
            Some(Self::UnsupportedVersion)
        } else if str_eq(string, "unsupported_modloader") {
            Some(Self::UnsupportedModloader)
        } else if str_eq(string, "unsupported_plugin_loader") {
            Some(Self::UnsupportedPluginLoader)
        } else if str_eq(string, "unsupported_features") {
            Some(Self::UnsupportedFeatures)
        } else if str_eq(string, "unsupported_operating_system") {
            Some(Self::UnsupportedOperatingSystem)
        } else {
            None
        }
    }

    /// The message that explains this reason.
    pub fn to_string(&self) -> (r: String)
        ensures
            r@ == self.message(),
    {
        match self {
            Self::Unspecified => "None".to_owned(),
            Self::UnsupportedVersion => "Unsupported Minecraft version".to_owned(),
            Self::UnsupportedModloader => "Unsupported modloader".to_owned(),
            Self::UnsupportedPluginLoader => "Unsupported plugin loader".to_owned(),
            Self::UnsupportedFeatures => "Unsupported feature set".to_owned(),
            Self::UnsupportedOperatingSystem => "Unsupported operating system".to_owned(),
        }
    }
}

/// One alternative of a dependency group, as a script writes it.
#[derive(Debug, PartialEq)]
pub struct RequirePackage {
    /// The package that is asked for.
    pub value: Value,
    /// Whether the package must be asked for by the user as well.
    pub explicit: bool,
}

/// The mathematical value of a [`RequirePackage`].
pub struct RequirePackageView {
    pub value: ValueView,
    pub explicit: bool,
}

impl View for RequirePackage {
    type V = RequirePackageView;

    open spec fn view(&self) -> RequirePackageView {
        RequirePackageView { value: self.value@, explicit: self.explicit }
    }
}

impl DeepView for RequirePackage {
    type V = RequirePackageView;

    open spec fn deep_view(&self) -> RequirePackageView {
        self@
    }
}

/// An opaque identifier of a block of instructions: its index among the
/// blocks of a parsed script.
pub type BlockId = usize;

/// What an instruction does.
#[derive(Debug, PartialEq)]
pub enum InstrKind {
    If(Condition, BlockId),
    Name(Option<String>),
    Description(Option<String>),
    LongDescription(Option<String>),
    Version(Option<String>),
    Authors(Vec<String>),
    PackageMaintainers(Vec<String>),
    Website(Option<String>),
    SupportLink(Option<String>),
    Documentation(Option<String>),
    Source(Option<String>),
    Issues(Option<String>),
    Community(Option<String>),
    Icon(Option<String>),
    Banner(Option<String>),
    License(Option<String>),
    Addon {
        id: Value,
        file_name: Value,
        kind: Option<AssetKind>,
        url: Value,
        path: Value,
        version: Value,
    },
    SetVar(Option<String>, Value),
    /// A conjunction of groups of alternatives: `a and (b or c)`.
    Require(Vec<Vec<RequirePackage>>),
    Refuse(Value),
    Recommend(Value),
    Bundle(Value),
    Compat(Value, Value),
    Extend(Value),
    Finish(),
    Fail(Option<FailReason>),
    Notice(Value),
    Cmd(Vec<Value>),
}

/// The mathematical value of an [`InstrKind`].
pub enum InstrKindView {
    If(ConditionView, BlockId),
    Name(Option<Seq<char>>),
    Description(Option<Seq<char>>),
    LongDescription(Option<Seq<char>>),
    Version(Option<Seq<char>>),
    Authors(Seq<Seq<char>>),
    PackageMaintainers(Seq<Seq<char>>),
    Website(Option<Seq<char>>),
    SupportLink(Option<Seq<char>>),
    Documentation(Option<Seq<char>>),
    Source(Option<Seq<char>>),
    Issues(Option<Seq<char>>),
    Community(Option<Seq<char>>),
    Icon(Option<Seq<char>>),
    Banner(Option<Seq<char>>),
    License(Option<Seq<char>>),
    Addon {
        id: ValueView,
        file_name: ValueView,
        kind: Option<AssetKind>,
        url: ValueView,
        path: ValueView,
        version: ValueView,
    },
    SetVar(Option<Seq<char>>, ValueView),
    Require(Seq<Seq<RequirePackageView>>),
    Refuse(ValueView),
    Recommend(ValueView),
    Bundle(ValueView),
    Compat(ValueView, ValueView),
    Extend(ValueView),
    Finish(),
    Fail(Option<FailReason>),
    Notice(ValueView),
    Cmd(Seq<ValueView>),
}

impl View for InstrKind {
    type V = InstrKindView;

    open spec fn view(&self) -> InstrKindView {
        match *self {
            InstrKind::If(condition, block) => InstrKindView::If(condition@, block),
            InstrKind::Name(text) => InstrKindView::Name(text.deep_view()),
            InstrKind::Description(text) => InstrKindView::Description(text.deep_view()),
            InstrKind::LongDescription(text) => InstrKindView::LongDescription(text.deep_view()),
            InstrKind::Version(text) => InstrKindView::Version(text.deep_view()),
            InstrKind::Authors(list) => InstrKindView::Authors(list.deep_view()),
            InstrKind::PackageMaintainers(list) => InstrKindView::PackageMaintainers(
                list.deep_view(),
            ),
            InstrKind::Website(text) => InstrKindView::Website(text.deep_view()),
            InstrKind::SupportLink(text) => InstrKindView::SupportLink(text.deep_view()),
            InstrKind::Documentation(text) => InstrKindView::Documentation(text.deep_view()),
            InstrKind::Source(text) => InstrKindView::Source(text.deep_view()),
            InstrKind::Issues(text) => InstrKindView::Issues(text.deep_view()),
            InstrKind::Community(text) => InstrKindView::Community(text.deep_view()),
            InstrKind::Icon(text) => InstrKindView::Icon(text.deep_view()),
            InstrKind::Banner(text) => InstrKindView::Banner(text.deep_view()),
            InstrKind::License(text) => InstrKindView::License(text.deep_view()),
            InstrKind::Addon { id, file_name, kind, url, path, version } => InstrKindView::Addon {
                id: id@,
                file_name: file_name@,
                kind,
                url: url@,
                path: path@,
                version: version@,
            },
            InstrKind::SetVar(var, value) => InstrKindView::SetVar(var.deep_view(), value@),
            InstrKind::Require(groups) => InstrKindView::Require(groups.deep_view()),
            InstrKind::Refuse(package) => InstrKindView::Refuse(package@),
            InstrKind::Recommend(package) => InstrKindView::Recommend(package@),
            InstrKind::Bundle(package) => InstrKindView::Bundle(package@),
            InstrKind::Compat(package, compat) => InstrKindView::Compat(package@, compat@),
            InstrKind::Extend(package) => InstrKindView::Extend(package@),
            InstrKind::Finish() => InstrKindView::Finish(),
            InstrKind::Fail(reason) => InstrKindView::Fail(reason),
            InstrKind::Notice(text) => InstrKindView::Notice(text@),
            InstrKind::Cmd(args) => InstrKindView::Cmd(args.deep_view()),
        }
    }
}

/// An instruction of a package script, with where it was written.
#[derive(Debug, PartialEq)]
pub struct Instruction {
    pub kind: InstrKind,
    pub pos: TextPos,
}

/// The mathematical value of an [`Instruction`].
pub struct InstructionView {
    pub kind: InstrKindView,
    pub pos: TextPos,
}

impl View for Instruction {
    type V = InstructionView;

    open spec fn view(&self) -> InstructionView {
        InstructionView { kind: self.kind@, pos: self.pos }
    }
}

impl DeepView for Instruction {
    type V = InstructionView;

    open spec fn deep_view(&self) -> InstructionView {
        self@
    }
}

impl Instruction {
    /// An instruction written at `pos`.
    pub fn new(kind: InstrKind, pos: TextPos) -> (r: Self)
        ensures
            r.kind == kind,
            r.pos == pos,
    {
        Self { kind, pos }
    }
}

} // verus!
