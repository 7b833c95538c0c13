//! Parsing of instructions from the tokens of a statement.
//!
//! A statement starts with the keyword of its instruction and ends with a
//! semicolon. What stands between them depends on the instruction:
//!
//! - most instructions take one or more values: string literals, bare
//!   identifiers, numbers, or variables, which are written with a `$`;
//! - the instructions that declare metadata take string literals;
//! - `require` takes a list of dependency groups in square brackets, where
//!   `,` separates the groups and `|` the alternatives of a group, as in
//!   `require [a | b, c];`, and angle brackets mark an alternative that the
//!   user has to ask for as well;
//! - `addon` takes an identifier and then its properties in parentheses, as
//!   in `addon thing (kind: mod, url: "https://example.com/thing.jar");`.

use vstd::prelude::*;
use crate::asset::AssetKind;
use crate::instruction::{
    arg_of, parse_arg, parse_string, string_of, unexpected, unexpected_token, FailReason,
    InstrKind, InstrKindView, Instruction, InstructionView, ParseError, ParseErrorKind,
    ParseErrorKindView, ParseErrorView, RequirePackage, RequirePackageView,
};
use crate::lex::{Side, TextPos, Token, TokenView};
use crate::text::{lemma_push_deep_view, str_eq};
use crate::value::{Value, ValueView};

verus! {

/// A property of an addon.
#[derive(Debug, Clone, Copy, PartialEq, Eq, Structural)]
pub enum AddonKey {
    Kind,
    Url,
    Path,
    FileName,
    Version,
}

impl AddonKey {
    /// The property that `s` names.
    pub open spec fn parse(s: Seq<char>) -> Option<AddonKey> {
        if s == "kind"@ {
            Some(AddonKey::Kind)
        } else if s == "url"@ {
            Some(AddonKey::Url)
        } else if s == "path"@ {
            Some(AddonKey::Path)
        } else if s == "file_name"@ {
            Some(AddonKey::FileName)
        } else if s == "version"@ {
            Some(AddonKey::Version)
        } else {
            None
        }
    }

    /// Parse a property from its name.
    pub fn from_str(string: &str) -> (r: Option<Self>)
        ensures
            r == Self::parse(string@),
    {
        if str_eq(string, "kind") {
            Some(Self::Kind)
        } else if str_eq(string, "url") {
            Some(Self::Url)
        } else if str_eq(string, "path") {
            Some(Self::Path)
        } else if str_eq(string, "file_name") {
            Some(Self::FileName)
        } else if str_eq(string, "version") {
            Some(Self::Version)
        } else {
            None
        }
    }
}

/// How far the statement of an instruction has been read.
#[derive(Debug, Clone, Copy, PartialEq, Eq, Structural)]
pub enum Stage {
    /// The plain arguments of an instruction, up to the semicolon.
    Args,
    /// `require`: before the opening square bracket.
    RequireOpen,
    /// `require`: before an alternative.
    RequireAlternative,
    /// `require`: before the alternative inside angle brackets.
    RequireExplicit,
    /// `require`: before the closing angle bracket.
    RequireExplicitClose,
    /// `require`: after an alternative.
    RequireSeparator,
    /// `addon`: before the identifier.
    AddonId,
    /// `addon`: before the opening parenthesis.
    AddonOpen,
    /// `addon`: before the name of a property, or the closing parenthesis.
    AddonKey,
    /// `addon`: before the colon that follows the name of a property.
    AddonColon(AddonKey),
    /// `addon`: before the value of a property.
    AddonValue(AddonKey),
    /// `addon`: after the value of a property.
    AddonSeparator,
    /// After everything but the semicolon.
    End,
}

/// The instruction that a keyword starts, without its arguments.
pub open spec fn instr_from_name(s: Seq<char>) -> Option<InstrKindView> {
    if s == "name"@ {
        Some(InstrKindView::Name(None))
    } else if s == "description"@ {
        Some(InstrKindView::Description(None))
    } else if s == "long_description"@ {
        Some(InstrKindView::LongDescription(None))
    } else if s == "version"@ {
        Some(InstrKindView::Version(None))
    } else if s == "authors"@ {
        Some(InstrKindView::Authors(Seq::empty()))
    } else if s == "package_maintainers"@ {
        Some(InstrKindView::PackageMaintainers(Seq::empty()))
    } else if s == "website"@ {
        Some(InstrKindView::Website(None))
    } else if s == "support_link"@ {
        Some(InstrKindView::SupportLink(None))
    } else if s == "documentation"@ {
        Some(InstrKindView::Documentation(None))
    } else if s == "source"@ {
        Some(InstrKindView::Source(None))
    } else if s == "issues"@ {
        Some(InstrKindView::Issues(None))
    } else if s == "community"@ {
        Some(InstrKindView::Community(None))
    } else if s == "icon"@ {
        Some(InstrKindView::Icon(None))
    } else if s == "banner"@ {
        Some(InstrKindView::Banner(None))
    } else if s == "license"@ {
        Some(InstrKindView::License(None))
    } else if s == "set"@ {
        Some(InstrKindView::SetVar(None, ValueView::Empty))
    } else if s == "finish"@ {
        Some(InstrKindView::Finish())
    } else if s == "fail"@ {
        Some(InstrKindView::Fail(None))
    } else if s == "require"@ {
        Some(InstrKindView::Require(Seq::empty()))
    } else if s == "refuse"@ {
        Some(InstrKindView::Refuse(ValueView::Empty))
    } else if s == "recommend"@ {
        Some(InstrKindView::Recommend(ValueView::Empty))
    } else if s == "bundle"@ {
        Some(InstrKindView::Bundle(ValueView::Empty))
    } else if s == "compat"@ {
        Some(InstrKindView::Compat(ValueView::Empty, ValueView::Empty))
    } else if s == "extend"@ {
        Some(InstrKindView::Extend(ValueView::Empty))
    } else if s == "notice"@ {
        Some(InstrKindView::Notice(ValueView::Empty))
    } else if s == "cmd"@ {
        Some(InstrKindView::Cmd(Seq::empty()))
    } else if s == "addon"@ {
        Some(
            InstrKindView::Addon {
                id: ValueView::Empty,
                file_name: ValueView::Empty,
                kind: None,
                url: ValueView::Empty,
                path: ValueView::Empty,
                version: ValueView::Empty,
            },
        )
    } else {
        None
    }
}

/// The stage at which the statement of an instruction starts.
pub open spec fn first_stage(kind: InstrKindView) -> Stage {
    match kind {
        InstrKindView::Require(_) => Stage::RequireOpen,
        InstrKindView::Addon { .. } => Stage::AddonId,
        _ => Stage::Args,
    }
}

/// Whether an instruction has the arguments that it needs.
pub open spec fn is_complete(kind: InstrKindView) -> bool {
    match kind {
        InstrKindView::Name(text)
        | InstrKindView::Description(text)
        | InstrKindView::LongDescription(text)
        | InstrKindView::Version(text)
        | InstrKindView::Website(text)
        | InstrKindView::SupportLink(text)
        | InstrKindView::Documentation(text)
        | InstrKindView::Source(text)
        | InstrKindView::Issues(text)
        | InstrKindView::Community(text)
        | InstrKindView::Icon(text)
        | InstrKindView::Banner(text)
        | InstrKindView::License(text) => text is Some,
        InstrKindView::SetVar(var, value) => var is Some && value.is_some(),
        InstrKindView::Refuse(value)
        | InstrKindView::Recommend(value)
        | InstrKindView::Bundle(value)
        | InstrKindView::Extend(value)
        | InstrKindView::Notice(value) => value.is_some(),
        InstrKindView::Compat(package, compat) => package.is_some() && compat.is_some(),
        _ => true,
    }
}

/// The kind of addon that a token names.
pub open spec fn kind_of(tok: TokenView, pos: TextPos) -> Result<AssetKind, ParseErrorView> {
    match tok {
        TokenView::Ident(name) | TokenView::Str(name) => match AssetKind::parse(name) {
            Some(kind) => Ok(kind),
            None => Err(ParseErrorView { kind: ParseErrorKindView::UnknownAddonKind(name), pos }),
        },
        _ => Err(unexpected(tok, pos)),
    }
}

/// The text that fills an empty text argument.
pub open spec fn fill_text(text: Option<Seq<char>>, tok: TokenView, pos: TextPos) -> Result<
    Option<Seq<char>>,
    ParseErrorView,
> {
    if text is Some {
        Err(unexpected(tok, pos))
    } else {
        match string_of(tok, pos) {
            Ok(text) => Ok(Some(text)),
            Err(e) => Err(e),
        }
    }
}

/// The value that fills an empty value argument.
pub open spec fn fill_value(value: ValueView, tok: TokenView, pos: TextPos) -> Result<
    ValueView,
    ParseErrorView,
> {
    if value.is_some() {
        Err(unexpected(tok, pos))
    } else {
        arg_of(tok, pos)
    }
}

/// A plain instruction after one more argument.
pub open spec fn take_arg(kind: InstrKindView, tok: TokenView, pos: TextPos) -> Result<
    InstrKindView,
    ParseErrorView,
> {
    match kind {
        InstrKindView::Name(text) => match fill_text(text, tok, pos) {
            Ok(text) => Ok(InstrKindView::Name(text)),
            Err(e) => Err(e),
        },
        InstrKindView::Description(text) => match fill_text(text, tok, pos) {
            Ok(text) => Ok(InstrKindView::Description(text)),
            Err(e) => Err(e),
        },
        InstrKindView::LongDescription(text) => match fill_text(text, tok, pos) {
            Ok(text) => Ok(InstrKindView::LongDescription(text)),
            Err(e) => Err(e),
        },
        InstrKindView::Version(text) => match fill_text(text, tok, pos) {
            Ok(text) => Ok(InstrKindView::Version(text)),
            Err(e) => Err(e),
        },
        InstrKindView::Website(text) => match fill_text(text, tok, pos) {
            Ok(text) => Ok(InstrKindView::Website(text)),
            Err(e) => Err(e),
        },
        InstrKindView::SupportLink(text) => match fill_text(text, tok, pos) {
            Ok(text) => Ok(InstrKindView::SupportLink(text)),
            Err(e) => Err(e),
        },
        InstrKindView::Documentation(text) => match fill_text(text, tok, pos) {
            Ok(text) => Ok(InstrKindView::Documentation(text)),
            Err(e) => Err(e),
        },
        InstrKindView::Source(text) => match fill_text(text, tok, pos) {
            Ok(text) => Ok(InstrKindView::Source(text)),
            Err(e) => Err(e),
        },
        InstrKindView::Issues(text) => match fill_text(text, tok, pos) {
            Ok(text) => Ok(InstrKindView::Issues(text)),
            Err(e) => Err(e),
        },
        InstrKindView::Community(text) => match fill_text(text, tok, pos) {
            Ok(text) => Ok(InstrKindView::Community(text)),
            Err(e) => Err(e),
        },
        InstrKindView::Icon(text) => match fill_text(text, tok, pos) {
            Ok(text) => Ok(InstrKindView::Icon(text)),
            Err(e) => Err(e),
        },
        InstrKindView::Banner(text) => match fill_text(text, tok, pos) {
            Ok(text) => Ok(InstrKindView::Banner(text)),
            Err(e) => Err(e),
        },
        InstrKindView::License(text) => match fill_text(text, tok, pos) {
            Ok(text) => Ok(InstrKindView::License(text)),
            Err(e) => Err(e),
        },
        InstrKindView::Authors(list) => match string_of(tok, pos) {
            Ok(text) => Ok(InstrKindView::Authors(list.push(text))),
            Err(e) => Err(e),
        },
        InstrKindView::PackageMaintainers(list) => match string_of(tok, pos) {
            Ok(text) => Ok(InstrKindView::PackageMaintainers(list.push(text))),
            Err(e) => Err(e),
        },
        InstrKindView::Refuse(value) => match fill_value(value, tok, pos) {
            Ok(value) => Ok(InstrKindView::Refuse(value)),
            Err(e) => Err(e),
        },
        InstrKindView::Recommend(value) => match fill_value(value, tok, pos) {
            Ok(value) => Ok(InstrKindView::Recommend(value)),
            Err(e) => Err(e),
        },
        InstrKindView::Bundle(value) => match fill_value(value, tok, pos) {
            Ok(value) => Ok(InstrKindView::Bundle(value)),
            Err(e) => Err(e),
        },
        InstrKindView::Extend(value) => match fill_value(value, tok, pos) {
            Ok(value) => Ok(InstrKindView::Extend(value)),
            Err(e) => Err(e),
        },
        InstrKindView::Notice(value) => match fill_value(value, tok, pos) {
            Ok(value) => Ok(InstrKindView::Notice(value)),
            Err(e) => Err(e),
        },
        InstrKindView::Compat(package, compat) => if package.is_some() {
            match fill_value(compat, tok, pos) {
                Ok(value) => Ok(InstrKindView::Compat(package, value)),
                Err(e) => Err(e),
            }
        } else {
            match arg_of(tok, pos) {
                Ok(value) => Ok(InstrKindView::Compat(value, compat)),
                Err(e) => Err(e),
            }
        },
        InstrKindView::SetVar(var, value) => if var is Some {
            match fill_value(value, tok, pos) {
                Ok(value) => Ok(InstrKindView::SetVar(var, value)),
                Err(e) => Err(e),
            }
        } else {
            match tok {
                TokenView::Ident(name) => Ok(InstrKindView::SetVar(Some(name), value)),
                _ => Err(unexpected(tok, pos)),
            }
        },
        InstrKindView::Cmd(list) => match arg_of(tok, pos) {
            Ok(value) => Ok(InstrKindView::Cmd(list.push(value))),
            Err(e) => Err(e),
        },
        InstrKindView::Fail(reason) => match tok {
            TokenView::Ident(name) => if reason is Some {
                Err(unexpected(tok, pos))
            } else {
                match FailReason::parse(name) {
                    Some(reason) => Ok(InstrKindView::Fail(Some(reason))),
                    None => Err(
                        ParseErrorView { kind: ParseErrorKindView::UnknownFailReason(name), pos },
                    ),
                }
            },
            _ => Err(unexpected(tok, pos)),
        },
        _ => Err(unexpected(tok, pos)),
    }
}

/// The dependency groups after one more alternative in the last group.
pub open spec fn add_alternative(
    groups: Seq<Seq<RequirePackageView>>,
    alternative: RequirePackageView,
) -> Seq<Seq<RequirePackageView>> {
    if groups.len() == 0 {
        seq![seq![alternative]]
    } else {
        groups.drop_last().push(groups.last().push(alternative))
    }
}

/// An addon after one more property.
pub open spec fn set_addon_property(
    kind: InstrKindView,
    key: AddonKey,
    tok: TokenView,
    pos: TextPos,
) -> Result<InstrKindView, ParseErrorView> {
    match kind {
        InstrKindView::Addon { id, file_name, kind, url, path, version } => match key {
            AddonKey::Kind => match kind_of(tok, pos) {
                Ok(parsed) => Ok(
                    InstrKindView::Addon { id, file_name, kind: Some(parsed), url, path, version },
                ),
                Err(e) => Err(e),
            },
            AddonKey::Url => match arg_of(tok, pos) {
                Ok(value) => Ok(
                    InstrKindView::Addon { id, file_name, kind, url: value, path, version },
                ),
                Err(e) => Err(e),
            },
            AddonKey::Path => match arg_of(tok, pos) {
                Ok(value) => Ok(
                    InstrKindView::Addon { id, file_name, kind, url, path: value, version },
                ),
                Err(e) => Err(e),
            },
            AddonKey::FileName => match arg_of(tok, pos) {
                Ok(value) => Ok(
                    InstrKindView::Addon { id, file_name: value, kind, url, path, version },
                ),
                Err(e) => Err(e),
            },
            AddonKey::Version => match arg_of(tok, pos) {
                Ok(value) => Ok(
                    InstrKindView::Addon { id, file_name, kind, url, path, version: value },
                ),
                Err(e) => Err(e),
            },
        },
        _ => Err(unexpected(tok, pos)),
    }
}

/// What one token does to the statement of an instruction.
pub struct Fed {
    /// The instruction with what the token added.
    pub kind: InstrKindView,
    /// The stage after the token.
    pub stage: Stage,
    /// Whether the token ended the statement.
    pub done: bool,
}

/// The statement of an instruction after one more token.
pub open spec fn feed(kind: InstrKindView, stage: Stage, tok: TokenView, pos: TextPos) -> Result<
    Fed,
    ParseErrorView,
> {
    match stage {
        Stage::Args => if tok is Semicolon {
            if is_complete(kind) {
                Ok(Fed { kind, stage, done: true })
            } else {
                Err(ParseErrorView { kind: ParseErrorKindView::IncompleteInstruction, pos })
            }
        } else {
            match take_arg(kind, tok, pos) {
                Ok(kind) => Ok(Fed { kind, stage, done: false }),
                Err(e) => Err(e),
            }
        },
        Stage::End => if tok is Semicolon {
            Ok(Fed { kind, stage, done: true })
        } else {
            Err(unexpected(tok, pos))
        },
        Stage::RequireOpen => if tok == TokenView::Square(Side::Left) {
            Ok(Fed { kind, stage: Stage::RequireAlternative, done: false })
        } else {
            Err(unexpected(tok, pos))
        },
        Stage::RequireAlternative => match kind {
            InstrKindView::Require(groups) => if tok == TokenView::Angle(Side::Left) {
                Ok(Fed { kind, stage: Stage::RequireExplicit, done: false })
            } else {
                match arg_of(tok, pos) {
                    Ok(value) => Ok(
                        Fed {
                            kind: InstrKindView::Require(
                                add_alternative(
                                    groups,
                                    RequirePackageView { value, explicit: false },
                                ),
                            ),
                            stage: Stage::RequireSeparator,
                            done: false,
                        },
                    ),
                    Err(e) => Err(e),
                }
            },
            _ => Err(unexpected(tok, pos)),
        },
        Stage::RequireExplicit => match kind {
            InstrKindView::Require(groups) => match arg_of(tok, pos) {
                Ok(value) => Ok(
                    Fed {
                        kind: InstrKindView::Require(
                            add_alternative(groups, RequirePackageView { value, explicit: true }),
                        ),
                        stage: Stage::RequireExplicitClose,
                        done: false,
                    },
                ),
                Err(e) => Err(e),
            },
            _ => Err(unexpected(tok, pos)),
        },
        Stage::RequireExplicitClose => if tok == TokenView::Angle(Side::Right) {
            Ok(Fed { kind, stage: Stage::RequireSeparator, done: false })
        } else {
            Err(unexpected(tok, pos))
        },
        Stage::RequireSeparator => match kind {
            InstrKindView::Require(groups) => if tok is Pipe {
                Ok(Fed { kind, stage: Stage::RequireAlternative, done: false })
            } else if tok is Comma {
                Ok(
                    Fed {
                        kind: InstrKindView::Require(groups.push(Seq::empty())),
                        stage: Stage::RequireAlternative,
                        done: false,
                    },
                )
            } else if tok == TokenView::Square(Side::Right) {
                Ok(Fed { kind, stage: Stage::End, done: false })
            } else {
                Err(unexpected(tok, pos))
            },
            _ => Err(unexpected(tok, pos)),
        },
        Stage::AddonId => match kind {
            InstrKindView::Addon { id, file_name, kind, url, path, version } => match arg_of(
                tok,
                pos,
            ) {
                Ok(value) => Ok(
                    Fed {
                        kind: InstrKindView::Addon { id: value, file_name, kind, url, path, version },
                        stage: Stage::AddonOpen,
                        done: false,
                    },
                ),
                Err(e) => Err(e),
            },
            _ => Err(unexpected(tok, pos)),
        },
        Stage::AddonOpen => if tok == TokenView::Paren(Side::Left) {
            Ok(Fed { kind, stage: Stage::AddonKey, done: false })
        } else {
            Err(unexpected(tok, pos))
        },
        Stage::AddonKey => match tok {
            TokenView::Ident(name) => match AddonKey::parse(name) {
                Some(key) => Ok(Fed { kind, stage: Stage::AddonColon(key), done: false }),
                None => Err(
                    ParseErrorView { kind: ParseErrorKindView::UnknownAddonKey(name), pos },
                ),
            },
            TokenView::Paren(Side::Right) => Ok(Fed { kind, stage: Stage::End, done: false }),
            _ => Err(unexpected(tok, pos)),
        },
        Stage::AddonColon(key) => if tok is Colon {
            Ok(Fed { kind, stage: Stage::AddonValue(key), done: false })
        } else {
            Err(unexpected(tok, pos))
        },
        Stage::AddonValue(key) => match set_addon_property(kind, key, tok, pos) {
            Ok(kind) => Ok(Fed { kind, stage: Stage::AddonSeparator, done: false }),
            Err(e) => Err(e),
        },
        Stage::AddonSeparator => if tok is Comma {
            Ok(Fed { kind, stage: Stage::AddonKey, done: false })
        } else if tok == TokenView::Paren(Side::Right) {
            Ok(Fed { kind, stage: Stage::End, done: false })
        } else {
            Err(unexpected(tok, pos))
        },
    }
}

fn addon_kind(tok: &Token, pos: &TextPos) -> (r: Result<AssetKind, ParseError>)
    ensures
        match kind_of(tok@, *pos) {
            Ok(kind) => r == Ok::<AssetKind, ParseError>(kind),
            Err(e) => r matches Err(err) && err@ == e,
        },
{
    match tok {
        Token::Ident(name) | Token::Str(name) => match AssetKind::from_str(name.as_str()) {
            Some(kind) => Ok(kind),
            None => Err(
                ParseError { kind: ParseErrorKind::UnknownAddonKind(name.clone()), pos: *pos },
            ),
        },
        _ => Err(unexpected_token(tok, pos)),
    }
}

fn fill_text_arg(text: &mut Option<String>, tok: &Token, pos: &TextPos) -> (r: Result<
    (),
    ParseError,
>)
    ensures
        match fill_text(old(text).deep_view(), tok@, *pos) {
            Ok(filled) => r is Ok && final(text).deep_view() == filled,
            Err(e) => r matches Err(err) && err@ == e && *final(text) == *old(text),
        },
{
    if text.is_some() {
        return Err(unexpected_token(tok, pos));
    }
    let parsed = parse_string(tok, pos)?;
    *text = Some(parsed);
    Ok(())
}

fn fill_value_arg(value: &mut Value, tok: &Token, pos: &TextPos) -> (r: Result<(), ParseError>)
    ensures
        match fill_value(old(value)@, tok@, *pos) {
            Ok(filled) => r is Ok && final(value)@ == filled,
            Err(e) => r matches Err(err) && err@ == e && *final(value) == *old(value),
        },
{
    if value.is_some() {
        return Err(unexpected_token(tok, pos));
    }
    let parsed = parse_arg(tok, pos)?;
    *value = parsed;
    Ok(())
}

fn push_text_arg(list: &mut Vec<String>, tok: &Token, pos: &TextPos) -> (r: Result<
    (),
    ParseError,
>)
    ensures
        match string_of(tok@, *pos) {
            Ok(text) => r is Ok && final(list).deep_view() == old(list).deep_view().push(text),
            Err(e) => r matches Err(err) && err@ == e && *final(list) == *old(list),
        },
{
    let parsed = parse_string(tok, pos)?;
    let ghost before = *list;
    list.push(parsed);
    proof {
        lemma_push_deep_view(before, *list, parsed);
    }
    Ok(())
}

fn push_alternative(groups: &mut Vec<Vec<RequirePackage>>, alternative: RequirePackage)
    ensures
        final(groups).deep_view() == add_alternative(old(groups).deep_view(), alternative@),
{
    let ghost before = *groups;
    match groups.pop() {
        Some(mut last) => {
            let ghost front = *groups;
            let ghost last_before = last;
            last.push(alternative);
            groups.push(last);
            proof {
                lemma_push_deep_view(last_before, last, alternative);
                lemma_push_deep_view(front, *groups, last);
                assert(front.deep_view() =~= before.deep_view().drop_last());
                assert(before.deep_view().last() == last_before.deep_view());
            }
        },
        None => {
            let mut group: Vec<RequirePackage> = Vec::new();
            let ghost empty = group;
            group.push(alternative);
            let ghost front = *groups;
            groups.push(group);
            proof {
                lemma_push_deep_view(empty, group, alternative);
                lemma_push_deep_view(front, *groups, group);
                assert(empty.deep_view() =~= Seq::empty());
                assert(group.deep_view() =~= seq![alternative@]);
                assert(groups.deep_view() =~= seq![seq![alternative@]]);
            }
        },
    }
}

impl InstrKind {
    /// The instruction that a keyword starts, without its arguments.
    pub fn from_str(string: &str) -> (r: Option<Self>)
        ensures
            match instr_from_name(string@) {
                Some(kind) => r matches Some(got) && got@ == kind,
                None => r is None,
            },
    {
        let r = if str_eq(string, "name") {
            Some(Self::Name(None))
        } else if str_eq(string, "description") {
            Some(Self::Description(None))
        } else if str_eq(string, "long_description") {
            Some(Self::LongDescription(None))
        } else if str_eq(string, "version") {
            Some(Self::Version(None))
        } else if str_eq(string, "authors") {
            Some(Self::Authors(Vec::new()))
        } else if str_eq(string, "package_maintainers") {
            Some(Self::PackageMaintainers(Vec::new()))
        } else if str_eq(string, "website") {
            Some(Self::Website(None))
        } else if str_eq(string, "support_link") {
            Some(Self::SupportLink(None))
        } else if str_eq(string, "documentation") {
            Some(Self::Documentation(None))
        } else if str_eq(string, "source") {
            Some(Self::Source(None))
        } else if str_eq(string, "issues") {
            Some(Self::Issues(None))
        } else if str_eq(string, "community") {
            Some(Self::Community(None))
        } else if str_eq(string, "icon") {
            Some(Self::Icon(None))
        } else if str_eq(string, "banner") {
            Some(Self::Banner(None))
        } else if str_eq(string, "license") {
            Some(Self::License(None))
        } else if str_eq(string, "set") {
            Some(Self::SetVar(None, Value::Empty))
        } else if str_eq(string, "finish") {
            Some(Self::Finish())
        } else if str_eq(string, "fail") {
            Some(Self::Fail(None))
        } else if str_eq(string, "require") {
            Some(Self::Require(Vec::new()))
        } else if str_eq(string, "refuse") {
            Some(Self::Refuse(Value::Empty))
        } else if str_eq(string, "recommend") {
            Some(Self::Recommend(Value::Empty))
        } else if str_eq(string, "bundle") {
            Some(Self::Bundle(Value::Empty))
        } else if str_eq(string, "compat") {
            Some(Self::Compat(Value::Empty, Value::Empty))
        } else if str_eq(string, "extend") {
            Some(Self::Extend(Value::Empty))
        } else if str_eq(string, "notice") {
            Some(Self::Notice(Value::Empty))
        } else if str_eq(string, "cmd") {
            Some(Self::Cmd(Vec::new()))
        } else if str_eq(string, "addon") {
            Some(
                Self::Addon {
                    id: Value::Empty,
                    file_name: Value::Empty,
                    kind: None,
                    url: Value::Empty,
                    path: Value::Empty,
                    version: Value::Empty,
                },
            )
        } else {
            None
        };
        proof {
            match &r {
                Some(InstrKind::Authors(list)) => {
                    assert(list.deep_view() =~= Seq::empty());
                },
                Some(InstrKind::PackageMaintainers(list)) => {
                    assert(list.deep_view() =~= Seq::empty());
                },
                Some(InstrKind::Require(list)) => {
                    assert(list.deep_view() =~= Seq::empty());
                },
                Some(InstrKind::Cmd(list)) => {
                    assert(list.deep_view() =~= Seq::empty());
                },
                _ => {},
            }
        }
        r
    }

    /// The stage at which the statement of the instruction starts.
    pub fn first_stage(&self) -> (r: Stage)
        ensures
            r == first_stage(self@),
    {
        match self {
            InstrKind::Require(_) => Stage::RequireOpen,
            InstrKind::Addon { .. } => Stage::AddonId,
            _ => Stage::Args,
        }
    }

    /// Checks if this instruction has the arguments that it needs.
    pub fn is_finished_parsing(&self) -> (r: bool)
        ensures
            r == is_complete(self@),
    {
        match self {
            InstrKind::Name(text)
            | InstrKind::Description(text)
            | InstrKind::LongDescription(text)
            | InstrKind::Version(text)
            | InstrKind::Website(text)
            | InstrKind::SupportLink(text)
            | InstrKind::Documentation(text)
            | InstrKind::Source(text)
            | InstrKind::Issues(text)
            | InstrKind::Community(text)
            | InstrKind::Icon(text)
            | InstrKind::Banner(text)
            | InstrKind::License(text) => text.is_some(),
            InstrKind::SetVar(var, value) => var.is_some() && value.is_some(),
            InstrKind::Refuse(value)
            | InstrKind::Recommend(value)
            | InstrKind::Bundle(value)
            | InstrKind::Extend(value)
            | InstrKind::Notice(value) => value.is_some(),
            InstrKind::Compat(package, compat) => package.is_some() && compat.is_some(),
            _ => true,
        }
    }

    /// Takes one more argument of a plain instruction.
    fn take_arg(&mut self, tok: &Token, pos: &TextPos) -> (r: Result<(), ParseError>)
        ensures
            match take_arg(old(self)@, tok@, *pos) {
                Ok(kind) => r is Ok && final(self)@ == kind,
                Err(e) => r matches Err(err) && err@ == e && final(self)@ == old(self)@,
            },
    {
        match self {
            InstrKind::Name(text) => fill_text_arg(text, tok, pos),
            InstrKind::Description(text) => fill_text_arg(text, tok, pos),
            InstrKind::LongDescription(text) => fill_text_arg(text, tok, pos),
            InstrKind::Version(text) => fill_text_arg(text, tok, pos),
            InstrKind::Website(text) => fill_text_arg(text, tok, pos),
            InstrKind::SupportLink(text) => fill_text_arg(text, tok, pos),
            InstrKind::Documentation(text) => fill_text_arg(text, tok, pos),
            InstrKind::Source(text) => fill_text_arg(text, tok, pos),
            InstrKind::Issues(text) => fill_text_arg(text, tok, pos),
            InstrKind::Community(text) => fill_text_arg(text, tok, pos),
            InstrKind::Icon(text) => fill_text_arg(text, tok, pos),
            InstrKind::Banner(text) => fill_text_arg(text, tok, pos),
            InstrKind::License(text) => fill_text_arg(text, tok, pos),
            InstrKind::Authors(list) => push_text_arg(list, tok, pos),
            InstrKind::PackageMaintainers(list) => push_text_arg(list, tok, pos),
            InstrKind::Refuse(value) => fill_value_arg(value, tok, pos),
            InstrKind::Recommend(value) => fill_value_arg(value, tok, pos),
            InstrKind::Bundle(value) => fill_value_arg(value, tok, pos),
            InstrKind::Extend(value) => fill_value_arg(value, tok, pos),
            InstrKind::Notice(value) => fill_value_arg(value, tok, pos),
            InstrKind::Compat(package, compat) => {
                if package.is_some() {
                    fill_value_arg(compat, tok, pos)
                } else {
                    let parsed = parse_arg(tok, pos)?;
                    *package = parsed;
                    Ok(())
                }
            },
            InstrKind::SetVar(var, value) => {
                if var.is_some() {
                    fill_value_arg(value, tok, pos)
                } else {
                    match tok {
                        Token::Ident(name) => {
                            *var = Some(name.clone());
                            Ok(())
                        },
                        _ => Err(unexpected_token(tok, pos)),
                    }
                }
            },
            InstrKind::Cmd(list) => {
                let parsed = parse_arg(tok, pos)?;
                let ghost before = *list;
                list.push(parsed);
                proof {
                    lemma_push_deep_view(before, *list, parsed);
                }
                Ok(())
            },
            InstrKind::Fail(reason) => match tok {
                Token::Ident(name) => {
                    if reason.is_some() {
                        return Err(unexpected_token(tok, pos));
                    }
                    match FailReason::from_string(name.as_str()) {
                        Some(parsed) => {
                            *reason = Some(parsed);
                            Ok(())
                        },
                        None => Err(
                            ParseError {
                                kind: ParseErrorKind::UnknownFailReason(name.clone()),
                                pos: *pos,
                            },
                        ),
                    }
                },
                _ => Err(unexpected_token(tok, pos)),
            },
            _ => Err(unexpected_token(tok, pos)),
        }
    }

    /// Sets one more property of an addon.
    fn set_addon_property(&mut self, key: AddonKey, tok: &Token, pos: &TextPos) -> (r: Result<
        (),
        ParseError,
    >)
        ensures
            match set_addon_property(old(self)@, key, tok@, *pos) {
                Ok(kind) => r is Ok && final(self)@ == kind,
                Err(e) => r matches Err(err) && err@ == e && final(self)@ == old(self)@,
            },
    {
        match self {
            InstrKind::Addon { id, file_name, kind, url, path, version } => match key {
                AddonKey::Kind => {
                    let parsed = addon_kind(tok, pos)?;
                    *kind = Some(parsed);
                    Ok(())
                },
                AddonKey::Url => {
                    let parsed = parse_arg(tok, pos)?;
                    *url = parsed;
                    Ok(())
                },
                AddonKey::Path => {
                    let parsed = parse_arg(tok, pos)?;
                    *path = parsed;
                    Ok(())
                },
                AddonKey::FileName => {
                    let parsed = parse_arg(tok, pos)?;
                    *file_name = parsed;
                    Ok(())
                },
                AddonKey::Version => {
                    let parsed = parse_arg(tok, pos)?;
                    *version = parsed;
                    Ok(())
                },
            },
            _ => Err(unexpected_token(tok, pos)),
        }
    }
}

/// An instruction whose statement is being read.
#[derive(Debug)]
pub struct Statement {
    pub instr: Instruction,
    pub stage: Stage,
}

impl Statement {
    /// Starts the statement of the instruction that the keyword `name`
    /// names, which is written at `pos`.
    pub fn start(name: &str, pos: &TextPos) -> (r: Result<Statement, ParseError>)
        ensures
            match instr_from_name(name@) {
                Some(kind) => r matches Ok(statement) && statement.instr@ == (InstructionView {
                    kind,
                    pos: *pos,
                }) && statement.stage == first_stage(kind),
                None => r matches Err(err) && err@ == (ParseErrorView {
                    kind: ParseErrorKindView::UnknownInstruction(name@),
                    pos: *pos,
                }),
            },
    {
        match InstrKind::from_str(name) {
            Some(kind) => {
                let stage = kind.first_stage();
                Ok(Statement { instr: Instruction::new(kind, *pos), stage })
            },
            None => Err(
                ParseError { kind: ParseErrorKind::UnknownInstruction(name.to_owned()), pos: *pos },
            ),
        }
    }

    /// Parses a token and returns true if the statement is finished.
    pub fn parse(&mut self, tok: &Token, pos: &TextPos) -> (r: Result<bool, ParseError>)
        ensures
            final(self).instr.pos == old(self).instr.pos,
            match feed(old(self).instr.kind@, old(self).stage, tok@, *pos) {
                Ok(fed) => r == Ok::<bool, ParseError>(fed.done) && final(self).instr.kind@
                    == fed.kind && final(self).stage == fed.stage,
                Err(e) => r matches Err(err) && err@ == e && final(self).instr.kind@ == old(
                    self,
                ).instr.kind@ && final(self).stage == old(self).stage,
            },
    {
        match self.stage {
            Stage::Args => {
                if let Token::Semicolon = tok {
                    if self.instr.kind.is_finished_parsing() {
                        Ok(true)
                    } else {
                        Err(ParseError { kind: ParseErrorKind::IncompleteInstruction, pos: *pos })
                    }
                } else {
                    self.instr.kind.take_arg(tok, pos)?;
                    Ok(false)
                }
            },
            Stage::End => {
                if let Token::Semicolon = tok {
                    Ok(true)
                } else {
                    Err(unexpected_token(tok, pos))
                }
            },
            Stage::RequireOpen => {
                if let Token::Square(Side::Left) = tok {
                    self.stage = Stage::RequireAlternative;
                    Ok(false)
                } else {
                    Err(unexpected_token(tok, pos))
                }
            },
            Stage::RequireAlternative => match &mut self.instr.kind {
                InstrKind::Require(groups) => {
                    if let Token::Angle(Side::Left) = tok {
                        self.stage = Stage::RequireExplicit;
                        Ok(false)
                    } else {
                        let value = parse_arg(tok, pos)?;
                        push_alternative(groups, RequirePackage { value, explicit: false });
                        self.stage = Stage::RequireSeparator;
                        Ok(false)
                    }
                },
                _ => Err(unexpected_token(tok, pos)),
            },
            Stage::RequireExplicit => match &mut self.instr.kind {
                InstrKind::Require(groups) => {
                    let value = parse_arg(tok, pos)?;
                    push_alternative(groups, RequirePackage { value, explicit: true });
                    self.stage = Stage::RequireExplicitClose;
                    Ok(false)
                },
                _ => Err(unexpected_token(tok, pos)),
            },
            Stage::RequireExplicitClose => {
                if let Token::Angle(Side::Right) = tok {
                    self.stage = Stage::RequireSeparator;
                    Ok(false)
                } else {
                    Err(unexpected_token(tok, pos))
                }
            },
            Stage::RequireSeparator => match &mut self.instr.kind {
                InstrKind::Require(groups) => match tok {
                    Token::Pipe => {
                        self.stage = Stage::RequireAlternative;
                        Ok(false)
                    },
                    Token::Comma => {
                        let ghost before = *groups;
                        let group: Vec<RequirePackage> = Vec::new();
                        groups.push(group);
                        proof {
                            lemma_push_deep_view(before, *groups, group);
                            assert(group.deep_view() =~= Seq::empty());
                        }
                        self.stage = Stage::RequireAlternative;
                        Ok(false)
                    },
                    Token::Square(Side::Right) => {
                        self.stage = Stage::End;
                        Ok(false)
                    },
                    _ => Err(unexpected_token(tok, pos)),
                },
                _ => Err(unexpected_token(tok, pos)),
            },
            Stage::AddonId => match &mut self.instr.kind {
                InstrKind::Addon { id, .. } => {
                    let value = parse_arg(tok, pos)?;
                    *id = value;
                    self.stage = Stage::AddonOpen;
                    Ok(false)
                },
                _ => Err(unexpected_token(tok, pos)),
            },
            Stage::AddonOpen => {
                if let Token::Paren(Side::Left) = tok {
                    self.stage = Stage::AddonKey;
                    Ok(false)
                } else {
                    Err(unexpected_token(tok, pos))
                }
            },
            Stage::AddonKey => match tok {
                Token::Ident(name) => match AddonKey::from_str(name.as_str()) {
                    Some(key) => {
                        self.stage = Stage::AddonColon(key);
                        Ok(false)
                    },
                    None => Err(
                        ParseError {
                            kind: ParseErrorKind::UnknownAddonKey(name.clone()),
                            pos: *pos,
                        },
                    ),
                },
                Token::Paren(Side::Right) => {
                    self.stage = Stage::End;
                    Ok(false)
                },
                _ => Err(unexpected_token(tok, pos)),
            },
            Stage::AddonColon(key) => {
                if let Token::Colon = tok {
                    self.stage = Stage::AddonValue(key);
                    Ok(false)
                } else {
                    Err(unexpected_token(tok, pos))
                }
            },
            Stage::AddonValue(key) => {
                self.instr.kind.set_addon_property(key, tok, pos)?;
                self.stage = Stage::AddonSeparator;
                Ok(false)
            },
            Stage::AddonSeparator => match tok {
                Token::Comma => {
                    self.stage = Stage::AddonKey;
                    Ok(false)
                },
                Token::Paren(Side::Right) => {
                    self.stage = Stage::End;
                    Ok(false)
                },
                _ => Err(unexpected_token(tok, pos)),
            },
        }
    }
}

} // verus!
