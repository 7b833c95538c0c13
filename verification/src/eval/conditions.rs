//! Evaluation of conditions.

use vstd::prelude::*;
use crate::asset::{ModloaderMatch, PluginLoaderMatch};
use crate::conditions::{ConditionKind, ConditionView, OSCondition};
use crate::instance::Side;
use crate::instruction::ParseErrorView;
use crate::lang::Language;
use crate::lex::{TextPos, TokenView};
use crate::pkg::PackageStability;
use crate::eval::{EvalData, EvalErrorKind, EvalErrorKindView, EvalInputView};
use crate::text::str_eq;
use crate::value::{Value, ValueView, Vars};
use crate::versions::{contains, VersionPattern, VersionPatternView};

verus! {

/// The text of a value, or the evaluation error for a value that cannot be
/// resolved.
pub open spec fn value_text(value: ValueView, vars: Map<Seq<char>, Seq<char>>) -> Result<
    Seq<char>,
    EvalErrorKindView,
> {
    match value.resolve(vars) {
        Ok(text) => Ok(text),
        Err(e) => Err(EvalErrorKindView::Value(e)),
    }
}

/// The text of a value that may be left out.
pub open spec fn optional_value_text(value: ValueView, vars: Map<Seq<char>, Seq<char>>) -> Result<
    Option<Seq<char>>,
    EvalErrorKindView,
> {
    match value.resolve_optional(vars) {
        Ok(text) => Ok(text),
        Err(e) => Err(EvalErrorKindView::Value(e)),
    }
}

/// Resolves a value for an evaluation.
pub fn get_value(value: &Value, vars: &Vars) -> (r: Result<String, EvalErrorKind>)
    ensures
        match value_text(value@, vars@) {
            Ok(text) => r matches Ok(got) && got@ == text,
            Err(e) => r matches Err(err) && err@ == e,
        },
{
    match value.get(vars) {
        Ok(text) => Ok(text),
        Err(e) => Err(EvalErrorKind::Value(e)),
    }
}

/// Resolves a value that may be left out for an evaluation.
pub fn get_optional_value(value: &Value, vars: &Vars) -> (r: Result<Option<String>, EvalErrorKind>)
    ensures
        match optional_value_text(value@, vars@) {
            Ok(text) => r matches Ok(got) && got.deep_view() == text,
            Err(e) => r matches Err(err) && err@ == e,
        },
{
    match value.get_as_option(vars) {
        Ok(text) => Ok(text),
        Err(e) => Err(EvalErrorKind::Value(e)),
    }
}

impl ConditionView {
    /// The truth of a condition in an installation context.
    ///
    /// `Not` negates; `And` and `Or` read their right operand only where the
    /// left one does not decide. A predicate holds where the context matches
    /// its argument: by equality, but for patterns of versions and of
    /// loaders, which admit all that they stand for.
    pub open spec fn truth(self, input: EvalInputView, vars: Map<Seq<char>, Seq<char>>) -> Result<
        bool,
        EvalErrorKindView,
    >
        decreases self,
    {
        match self {
            ConditionView::Not(Some(inner)) => match inner.truth(input, vars) {
                Ok(b) => Ok(!b),
                Err(e) => Err(e),
            },
            ConditionView::And(left, Some(right)) => match left.truth(input, vars) {
                Ok(true) => right.truth(input, vars),
                other => other,
            },
            ConditionView::Or(left, Some(right)) => match left.truth(input, vars) {
                Ok(false) => right.truth(input, vars),
                other => other,
            },
            ConditionView::Version(value) => match value_text(value, vars) {
                Ok(text) => Ok(
                    VersionPatternView::from_text(text).admits(
                        input.constants.version,
                        input.constants.version_list,
                    ),
                ),
                Err(e) => Err(e),
            },
            ConditionView::Side(Some(side)) => Ok(input.params.side == side),
            ConditionView::Modloader(Some(loader)) => Ok(
                loader.admits(input.constants.modifications.modloader_of(input.params.side)),
            ),
            ConditionView::PluginLoader(Some(loader)) => Ok(
                loader.admits(input.constants.modifications.plugin_loader()),
            ),
            ConditionView::Feature(value) => match value_text(value, vars) {
                Ok(text) => Ok(input.params.features.contains(text)),
                Err(e) => Err(e),
            },
            ConditionView::Value(left, right) => match value_text(left, vars) {
                Ok(left_text) => match value_text(right, vars) {
                    Ok(right_text) => Ok(left_text == right_text),
                    Err(e) => Err(e),
                },
                Err(e) => Err(e),
            },
            ConditionView::Defined(Some(name)) => Ok(vars.contains_key(name)),
            ConditionView::OS(Some(os)) => Ok(input.constants.os == os),
            ConditionView::Stability(Some(stability)) => Ok(input.params.stability == stability),
            ConditionView::Language(Some(lang)) => Ok(input.constants.language == lang),
            _ => Err(EvalErrorKindView::UnfinishedCondition),
        }
    }

    /// What evaluating a condition gives: only a finished condition is
    /// evaluated.
    pub open spec fn holds(self, input: EvalInputView, vars: Map<Seq<char>, Seq<char>>) -> Result<
        bool,
        EvalErrorKindView,
    > {
        if self.finished() {
            self.truth(input, vars)
        } else {
            Err(EvalErrorKindView::UnfinishedCondition)
        }
    }
}

fn condition_truth(condition: &ConditionKind, eval: &EvalData) -> (r: Result<bool, EvalErrorKind>)
    ensures
        match condition@.truth(eval.context().input, eval.state().vars) {
            Ok(b) => r == Ok::<bool, EvalErrorKind>(b),
            Err(e) => r matches Err(err) && err@ == e,
        },
    decreases condition,
{
    match condition {
        ConditionKind::Not(Some(inner)) => match condition_truth(inner, eval) {
            Ok(b) => Ok(!b),
            Err(e) => Err(e),
        },
        ConditionKind::And(left, Some(right)) => match condition_truth(left, eval) {
            Ok(true) => condition_truth(right, eval),
            other => other,
        },
        ConditionKind::Or(left, Some(right)) => match condition_truth(left, eval) {
            Ok(false) => condition_truth(right, eval),
            other => other,
        },
        ConditionKind::Version(value) => {
            let text = get_value(value, &eval.vars)?;
            let pattern = VersionPattern::from(text.as_str());
            Ok(
                pattern.matches_single(
                    eval.input.constants.version.as_str(),
                    &eval.input.constants.version_list,
                ),
            )
        },
        ConditionKind::Side(Some(side)) => Ok(eval.input.params.side == *side),
        ConditionKind::Modloader(Some(loader)) => Ok(
            loader.matches(&eval.input.constants.modifications.get_modloader(eval.input.params.side)),
        ),
        ConditionKind::PluginLoader(Some(loader)) => Ok(
            loader.matches(&eval.input.constants.modifications.get_plugin_loader()),
        ),
        ConditionKind::Feature(value) => {
            let text = get_value(value, &eval.vars)?;
            Ok(contains(&eval.input.params.features, text.as_str()))
        },
        ConditionKind::Value(left, right) => {
            let left_text = get_value(left, &eval.vars)?;
            let right_text = get_value(right, &eval.vars)?;
            Ok(str_eq(left_text.as_str(), right_text.as_str()))
        },
        ConditionKind::Defined(Some(name)) => Ok(eval.vars.contains_key(name.as_str())),
        ConditionKind::OS(Some(os)) => Ok(eval.input.constants.os == *os),
        ConditionKind::Stability(Some(stability)) => Ok(eval.input.params.stability == *stability),
        ConditionKind::Language(Some(lang)) => Ok(eval.input.constants.language == *lang),
        _ => Err(EvalErrorKind::UnfinishedCondition),
    }
}

/// Evaluates a condition.
pub fn eval_condition(condition: &ConditionKind, eval: &EvalData) -> (r: Result<
    bool,
    EvalErrorKind,
>)
    ensures
        match condition@.holds(eval.context().input, eval.state().vars) {
            Ok(b) => r == Ok::<bool, EvalErrorKind>(b),
            Err(e) => r matches Err(err) && err@ == e,
        },
{
    if condition.is_finished_parsing() {
        condition_truth(condition, eval)
    } else {
        Err(EvalErrorKind::UnfinishedCondition)
    }
}

/// Each keyword of a predicate starts the predicate without its argument.
pub proof fn lemma_condition_keywords()
    ensures
        ConditionView::from_name("version"@) == Some(ConditionView::Version(ValueView::Empty)),
        ConditionView::from_name("side"@) == Some(ConditionView::Side(None)),
        ConditionView::from_name("modloader"@) == Some(ConditionView::Modloader(None)),
        ConditionView::from_name("plugin_loader"@) == Some(ConditionView::PluginLoader(None)),
        ConditionView::from_name("feature"@) == Some(ConditionView::Feature(ValueView::Empty)),
        ConditionView::from_name("value"@) == Some(
            ConditionView::Value(ValueView::Empty, ValueView::Empty),
        ),
        ConditionView::from_name("defined"@) == Some(ConditionView::Defined(None)),
        ConditionView::from_name("os"@) == Some(ConditionView::OS(None)),
        ConditionView::from_name("stability"@) == Some(ConditionView::Stability(None)),
        ConditionView::from_name("language"@) == Some(ConditionView::Language(None)),
{
    reveal_strlit("not");
    reveal_strlit("version");
    reveal_strlit("side");
    reveal_strlit("modloader");
    reveal_strlit("plugin_loader");
    reveal_strlit("feature");
    reveal_strlit("value");
    reveal_strlit("defined");
    reveal_strlit("os");
    reveal_strlit("stability");
    reveal_strlit("language");
    assert("not"@.len() == 3);
    assert("version"@.len() == 7);
    assert("side"@.len() == 4);
    assert("modloader"@.len() == 9);
    assert("plugin_loader"@.len() == 13);
    assert("feature"@.len() == 7);
    assert("value"@.len() == 5);
    assert("defined"@.len() == 7);
    assert("os"@.len() == 2);
    assert("stability"@.len() == 9);
    assert("language"@.len() == 8);
    assert("feature"@[0] != "version"@[0]);
    assert("defined"@[0] != "version"@[0]);
    assert("defined"@[0] != "feature"@[0]);
    assert("stability"@[0] != "modloader"@[0]);
    assert("language"@[0] != "modloader"@[0]);
    assert("language"@[0] != "stability"@[0]);
}

/// A version predicate takes a text and holds where the pattern that the
/// text writes admits the version of the context.
pub proof fn lemma_version_leaf(
    text: Seq<char>,
    pos: TextPos,
    input: EvalInputView,
    vars: Map<Seq<char>, Seq<char>>,
)
    ensures
        ConditionView::Version(ValueView::Empty).parse_token(TokenView::Str(text), pos) == Ok::<
            ConditionView,
            ParseErrorView,
        >(ConditionView::Version(ValueView::Constant(text))),
        ConditionView::Version(ValueView::Constant(text)).finished(),
        ConditionView::Version(ValueView::Constant(text)).holds(input, vars) == Ok::<
            bool,
            EvalErrorKindView,
        >(
            VersionPatternView::from_text(text).admits(
                input.constants.version,
                input.constants.version_list,
            ),
        ),
{
}

/// A side predicate takes the name of a side and holds where the context
/// is evaluated for that side.
pub proof fn lemma_side_leaf(
    name: Seq<char>,
    side: Side,
    pos: TextPos,
    input: EvalInputView,
    vars: Map<Seq<char>, Seq<char>>,
)
    requires
        Side::parse(name) == Some(side),
    ensures
        ConditionView::Side(None).parse_token(TokenView::Ident(name), pos) == Ok::<
            ConditionView,
            ParseErrorView,
        >(ConditionView::Side(Some(side))),
        ConditionView::Side(Some(side)).finished(),
        ConditionView::Side(Some(side)).holds(input, vars) == Ok::<bool, EvalErrorKindView>(
            input.params.side == side,
        ),
{
}

/// A modloader predicate takes the name of a pattern and holds where the
/// pattern admits the modloader of the side of the context.
pub proof fn lemma_modloader_leaf(
    name: Seq<char>,
    loader: ModloaderMatch,
    pos: TextPos,
    input: EvalInputView,
    vars: Map<Seq<char>, Seq<char>>,
)
    requires
        ModloaderMatch::parse(name) == Some(loader),
    ensures
        ConditionView::Modloader(None).parse_token(TokenView::Ident(name), pos) == Ok::<
            ConditionView,
            ParseErrorView,
        >(ConditionView::Modloader(Some(loader))),
        ConditionView::Modloader(Some(loader)).finished(),
        ConditionView::Modloader(Some(loader)).holds(input, vars) == Ok::<bool, EvalErrorKindView>(
            loader.admits(input.constants.modifications.modloader_of(input.params.side)),
        ),
{
}

/// A plugin loader predicate takes the name of a pattern and holds where
/// the pattern admits the plugin loader of the context.
pub proof fn lemma_plugin_loader_leaf(
    name: Seq<char>,
    loader: PluginLoaderMatch,
    pos: TextPos,
    input: EvalInputView,
    vars: Map<Seq<char>, Seq<char>>,
)
    requires
        PluginLoaderMatch::parse(name) == Some(loader),
    ensures
        ConditionView::PluginLoader(None).parse_token(TokenView::Ident(name), pos) == Ok::<
            ConditionView,
            ParseErrorView,
        >(ConditionView::PluginLoader(Some(loader))),
        ConditionView::PluginLoader(Some(loader)).finished(),
        ConditionView::PluginLoader(Some(loader)).holds(input, vars) == Ok::<
            bool,
            EvalErrorKindView,
        >(loader.admits(input.constants.modifications.plugin_loader())),
{
}

/// A feature predicate takes a text and holds where the feature of that
/// name is enabled in the context.
pub proof fn lemma_feature_leaf(
    text: Seq<char>,
    pos: TextPos,
    input: EvalInputView,
    vars: Map<Seq<char>, Seq<char>>,
)
    ensures
        ConditionView::Feature(ValueView::Empty).parse_token(TokenView::Str(text), pos) == Ok::<
            ConditionView,
            ParseErrorView,
        >(ConditionView::Feature(ValueView::Constant(text))),
        ConditionView::Feature(ValueView::Constant(text)).finished(),
        ConditionView::Feature(ValueView::Constant(text)).holds(input, vars) == Ok::<
            bool,
            EvalErrorKindView,
        >(input.params.features.contains(text)),
{
}

/// A value predicate takes two texts, the left one first, and holds where
/// they are equal.
pub proof fn lemma_value_leaf(
    left: Seq<char>,
    right: Seq<char>,
    pos: TextPos,
    input: EvalInputView,
    vars: Map<Seq<char>, Seq<char>>,
)
    ensures
        ConditionView::Value(ValueView::Empty, ValueView::Empty).parse_token(
            TokenView::Str(left),
            pos,
        ) == Ok::<ConditionView, ParseErrorView>(
            ConditionView::Value(ValueView::Constant(left), ValueView::Empty),
        ),
        !ConditionView::Value(ValueView::Constant(left), ValueView::Empty).finished(),
        ConditionView::Value(ValueView::Constant(left), ValueView::Empty).parse_token(
            TokenView::Str(right),
            pos,
        ) == Ok::<ConditionView, ParseErrorView>(
            ConditionView::Value(ValueView::Constant(left), ValueView::Constant(right)),
        ),
        ConditionView::Value(ValueView::Constant(left), ValueView::Constant(right)).finished(),
        ConditionView::Value(ValueView::Constant(left), ValueView::Constant(right)).holds(
            input,
            vars,
        ) == Ok::<bool, EvalErrorKindView>(left == right),
{
}

/// A defined predicate takes the name of a variable and holds where the
/// variable is bound.
pub proof fn lemma_defined_leaf(
    name: Seq<char>,
    pos: TextPos,
    input: EvalInputView,
    vars: Map<Seq<char>, Seq<char>>,
)
    ensures
        ConditionView::Defined(None).parse_token(TokenView::Ident(name), pos) == Ok::<
            ConditionView,
            ParseErrorView,
        >(ConditionView::Defined(Some(name))),
        ConditionView::Defined(Some(name)).finished(),
        ConditionView::Defined(Some(name)).holds(input, vars) == Ok::<bool, EvalErrorKindView>(
            vars.contains_key(name),
        ),
{
}

/// An operating system predicate takes the name of a system and holds
/// where the context is that system.
pub proof fn lemma_os_leaf(
    name: Seq<char>,
    os: OSCondition,
    pos: TextPos,
    input: EvalInputView,
    vars: Map<Seq<char>, Seq<char>>,
)
    requires
        OSCondition::parse(name) == Some(os),
    ensures
        ConditionView::OS(None).parse_token(TokenView::Ident(name), pos) == Ok::<
            ConditionView,
            ParseErrorView,
        >(ConditionView::OS(Some(os))),
        ConditionView::OS(Some(os)).finished(),
        ConditionView::OS(Some(os)).holds(input, vars) == Ok::<bool, EvalErrorKindView>(
            input.constants.os == os,
        ),
{
}

/// A stability predicate takes the name of a tier and holds where the
/// context selects that tier.
pub proof fn lemma_stability_leaf(
    name: Seq<char>,
    stability: PackageStability,
    pos: TextPos,
    input: EvalInputView,
    vars: Map<Seq<char>, Seq<char>>,
)
    requires
        PackageStability::parse(name) == Some(stability),
    ensures
        ConditionView::Stability(None).parse_token(TokenView::Ident(name), pos) == Ok::<
            ConditionView,
            ParseErrorView,
        >(ConditionView::Stability(Some(stability))),
        ConditionView::Stability(Some(stability)).finished(),
        ConditionView::Stability(Some(stability)).holds(input, vars) == Ok::<
            bool,
            EvalErrorKindView,
        >(input.params.stability == stability),
{
}

/// A language predicate takes the name of a language and holds where the
/// context is in that language.
pub proof fn lemma_language_leaf(
    name: Seq<char>,
    lang: Language,
    pos: TextPos,
    input: EvalInputView,
    vars: Map<Seq<char>, Seq<char>>,
)
    requires
        Language::parse(name) == Some(lang),
    ensures
        ConditionView::Language(None).parse_token(TokenView::Ident(name), pos) == Ok::<
            ConditionView,
            ParseErrorView,
        >(ConditionView::Language(Some(lang))),
        ConditionView::Language(Some(lang)).finished(),
        ConditionView::Language(Some(lang)).holds(input, vars) == Ok::<bool, EvalErrorKindView>(
            input.constants.language == lang,
        ),
{
}

/// Negation and the two combinators have the usual truth: `not` negates,
/// `and` holds where both operands hold, `or` where one of them does, as
/// far as the operands can be evaluated.
pub proof fn lemma_combinators_truth(
    left: ConditionView,
    right: ConditionView,
    input: EvalInputView,
    vars: Map<Seq<char>, Seq<char>>,
)
    requires
        left.truth(input, vars) is Ok,
        right.truth(input, vars) is Ok,
    ensures
        ConditionView::Not(Some(Box::new(left))).truth(input, vars) == Ok::<
            bool,
            EvalErrorKindView,
        >(!left.truth(input, vars)->Ok_0),
        ConditionView::And(Box::new(left), Some(Box::new(right))).truth(input, vars) == Ok::<
            bool,
            EvalErrorKindView,
        >(left.truth(input, vars)->Ok_0 && right.truth(input, vars)->Ok_0),
        ConditionView::Or(Box::new(left), Some(Box::new(right))).truth(input, vars) == Ok::<
            bool,
            EvalErrorKindView,
        >(left.truth(input, vars)->Ok_0 || right.truth(input, vars)->Ok_0),
{
}

} // verus!
