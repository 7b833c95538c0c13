//! Packages with their contents, and how users configure them.

use vstd::prelude::*;
use crate::asset::{PkgIdentifier, PkgIdentifierView};
use crate::eval::declarative::{
    eval_declarative_package, lemma_declarative_keeps_notice_limits, run_declarative,
    DeclarativePackage, DeclarativePackageView,
};
use crate::eval::script::{
    eval_script_package, is_expanded_state, lemma_script_keeps_notice_limits,
    notices_within_limits, run_script,
};
use crate::eval::{
    eval_check_properties, EvalContext, EvalData, EvalError, EvalErrorKind, EvalErrorKindView,
    EvalErrorView, EvalInput, EvalInputView, EvalLevel, EvalParameters, EvalParametersView,
    EvalPermissions, EvalState, PackageProperties, PackagePropertiesView, RequiredPackage,
    RequiredPackageView, Routine,
};
use crate::parse::{Parsed, ParsedView};
use crate::pkg::PackageStability;
use crate::text::{append_strings, str_chars, str_eq, string_from_chars};
use crate::versions::{contains, VersionPattern, VersionPatternView};

verus! {

/// What a package consists of.
#[derive(Debug)]
pub enum PackageContents {
    /// A script that is evaluated instruction by instruction.
    Script(Parsed),
    /// A document that states relations and addons as data.
    Declarative(DeclarativePackage),
}

/// The mathematical value of [`PackageContents`].
pub enum PackageContentsView {
    Script(ParsedView),
    Declarative(DeclarativePackageView),
}

impl View for PackageContents {
    type V = PackageContentsView;

    open spec fn view(&self) -> PackageContentsView {
        match *self {
            PackageContents::Script(parsed) => PackageContentsView::Script(parsed@),
            PackageContents::Declarative(package) => PackageContentsView::Declarative(package@),
        }
    }
}

/// A package whose contents were fetched and parsed.
#[derive(Debug)]
pub struct Package {
    pub id: PkgIdentifier,
    pub contents: PackageContents,
    pub properties: PackageProperties,
}

/// The mathematical value of a [`Package`].
pub struct PackageView {
    pub id: PkgIdentifierView,
    pub contents: PackageContentsView,
    pub properties: PackagePropertiesView,
}

impl View for Package {
    type V = PackageView;

    open spec fn view(&self) -> PackageView {
        PackageView { id: self.id@, contents: self.contents@, properties: self.properties@ }
    }
}

impl DeepView for Package {
    type V = PackageView;

    open spec fn deep_view(&self) -> PackageView {
        self@
    }
}

impl PackageView {
    /// What evaluating the package at a level gives.
    ///
    /// The properties of the package are checked first. A package that does
    /// not support the side that is evaluated for gathers nothing.
    pub open spec fn eval(self, level: EvalLevel, input: EvalInputView) -> Result<
        EvalState,
        EvalErrorView,
    > {
        let ctx = EvalContext { input, package: self.id, level };
        match self.properties.check(input) {
            Err(e) => Err(ctx.error(e, None)),
            Ok(true) => Ok(EvalState::empty()),
            Ok(false) => match self.contents {
                PackageContentsView::Script(parsed) => run_script(parsed, ctx),
                PackageContentsView::Declarative(package) => run_declarative(package, ctx),
            },
        }
    }
}

impl Package {
    /// Evaluate a routine on a package.
    pub fn eval<'a>(&self, routine: Routine, input: EvalInput<'a>) -> (r: Result<
        EvalData<'a>,
        EvalError,
    >)
        ensures
            match self@.eval(routine.level(), input@) {
                Ok(state) => r matches Ok(eval) && eval.context() == (EvalContext {
                    input: input@,
                    package: self.id@,
                    level: routine.level(),
                }) && is_expanded_state(state, eval.state()),
                Err(e) => r matches Err(err) && err@ == e,
            },
    {
        match eval_check_properties(&input, &self.properties) {
            Err(e) => Err(EvalError { kind: e, package: self.id.clone(), pos: None }),
            Ok(true) => {
                let eval = EvalData::new(input, self.id.clone(), &routine);
                proof {
                    assert(eval.state().addon_reqs =~= EvalState::empty().addon_reqs);
                }
                Ok(eval)
            },
            Ok(false) => match &self.contents {
                PackageContents::Script(parsed) => eval_script_package(
                    self.id.clone(),
                    parsed,
                    routine,
                    input,
                ),
                PackageContents::Declarative(package) => eval_declarative_package(
                    self.id.clone(),
                    package,
                    input,
                    routine,
                ),
            },
        }
    }
}

/// A request for a package: its name and a pattern that selects among its
/// versions.
#[derive(Debug, PartialEq, Eq)]
pub struct PkgRequest {
    pub name: String,
    pub version: VersionPattern,
}

/// The mathematical value of a [`PkgRequest`].
pub struct PkgRequestView {
    pub name: Seq<char>,
    pub version: VersionPatternView,
}

impl View for PkgRequest {
    type V = PkgRequestView;

    open spec fn view(&self) -> PkgRequestView {
        PkgRequestView { name: self.name@, version: self.version@ }
    }
}

/// The index of the first `@` of a text from index `from` on.
pub open spec fn first_at(text: Seq<char>, from: int) -> Option<int>
    decreases text.len() - from,
{
    if 0 <= from < text.len() {
        if text[from] == '@' {
            Some(from)
        } else {
            first_at(text, from + 1)
        }
    } else {
        None
    }
}

impl PkgRequestView {
    /// The request that a text writes: a name, which asks for any version,
    /// or a name and behind an `@` the pattern of its versions.
    pub open spec fn parse(text: Seq<char>) -> PkgRequestView {
        match first_at(text, 0) {
            Some(at) => PkgRequestView {
                name: text.subrange(0, at),
                version: VersionPatternView::from_text(text.subrange(at + 1, text.len() as int)),
            },
            None => PkgRequestView { name: text, version: VersionPatternView::Any },
        }
    }

    /// Whether the request admits a package, given the versions of the
    /// packages of its name, oldest first.
    pub open spec fn admits(self, package: PkgIdentifierView, versions: Seq<Seq<char>>) -> bool {
        package.name == self.name && self.version.admits(package.version, versions)
    }
}

impl PkgRequest {
    /// A request for any version of the package called `name`.
    pub fn new(name: &str) -> (r: Self)
        ensures
            r@ == (PkgRequestView { name: name@, version: VersionPatternView::Any }),
    {
        PkgRequest { name: name.to_owned(), version: VersionPattern::Any }
    }

    /// Reads a request from the text that writes it.
    pub fn parse(text: &str) -> (r: Self)
        ensures
            r@ == PkgRequestView::parse(text@),
    {
        let chars = str_chars(text);
        let mut i: usize = 0;
        while i < chars.len()
            invariant
                i <= chars.len(),
                chars@ == text@,
                first_at(chars@, 0) == first_at(chars@, i as int),
            decreases chars.len() - i,
        {
            if chars[i] == '@' {
                let name = string_from_chars(&chars, 0, i);
                let pattern = string_from_chars(&chars, i + 1, chars.len());
                return PkgRequest { name, version: VersionPattern::from(pattern.as_str()) };
            }
            i += 1;
        }
        PkgRequest { name: text.to_owned(), version: VersionPattern::Any }
    }

    /// Checks whether the request admits a package, given the versions of
    /// the packages of its name, oldest first.
    pub fn matches(&self, package: &PkgIdentifier, versions: &Vec<String>) -> (r: bool)
        ensures
            r == self@.admits(package@, versions.deep_view()),
    {
        str_eq(package.name.as_str(), self.name.as_str()) && self.version.matches_single(
            package.version.as_str(),
            versions,
        )
    }
}

/// A package as a user configures it for a profile.
#[derive(Debug)]
pub struct PkgProfileConfig {
    /// The package that is asked for.
    pub req: PkgRequest,
    /// The features that the user enables.
    pub features: Vec<String>,
    /// Whether the default features of the package are enabled as well.
    pub use_default_features: bool,
    pub permissions: EvalPermissions,
    pub stability: PackageStability,
}

/// The mathematical value of a [`PkgProfileConfig`].
pub struct PkgProfileConfigView {
    pub name: Seq<char>,
    pub version: VersionPatternView,
    pub features: Seq<Seq<char>>,
    pub use_default_features: bool,
    pub permissions: EvalPermissions,
    pub stability: PackageStability,
}

impl View for PkgProfileConfig {
    type V = PkgProfileConfigView;

    open spec fn view(&self) -> PkgProfileConfigView {
        PkgProfileConfigView {
            name: self.req.name@,
            version: self.req.version@,
            features: self.features.deep_view(),
            use_default_features: self.use_default_features,
            permissions: self.permissions,
            stability: self.stability,
        }
    }
}

impl DeepView for PkgProfileConfig {
    type V = PkgProfileConfigView;

    open spec fn deep_view(&self) -> PkgProfileConfigView {
        self@
    }
}

/// The items of an optional list, none where there is no list.
pub open spec fn list_or_empty(list: Option<Seq<Seq<char>>>) -> Seq<Seq<char>> {
    match list {
        Some(list) => list,
        None => Seq::empty(),
    }
}

/// The first of the configured features that the package does not have.
pub open spec fn unknown_feature(configured: Seq<Seq<char>>, allowed: Seq<Seq<char>>) -> Option<
    Seq<char>,
>
    decreases configured.len(),
{
    if configured.len() == 0 {
        None
    } else if !allowed.contains(configured[0]) {
        Some(configured[0])
    } else {
        unknown_feature(configured.drop_first(), allowed)
    }
}

impl PkgProfileConfigView {
    /// The features that the package is evaluated with: its default
    /// features, where they are asked for, and then the configured ones,
    /// which the package has to have.
    pub open spec fn features_for(self, properties: PackagePropertiesView) -> Result<
        Seq<Seq<char>>,
        EvalErrorKindView,
    > {
        match unknown_feature(self.features, list_or_empty(properties.features)) {
            Some(feature) => Err(EvalErrorKindView::UnknownFeature(feature)),
            None => Ok(
                if self.use_default_features {
                    list_or_empty(properties.default_features) + self.features
                } else {
                    self.features
                },
            ),
        }
    }

    /// The parameters that the package is evaluated with: the defaults of
    /// the profile with the features, the permissions and the stability of
    /// this configuration.
    pub open spec fn params_for(
        self,
        properties: PackagePropertiesView,
        defaults: EvalParametersView,
    ) -> Result<EvalParametersView, EvalErrorKindView> {
        match self.features_for(properties) {
            Ok(features) => Ok(
                EvalParametersView {
                    side: defaults.side,
                    features,
                    perms: self.permissions,
                    stability: self.stability,
                },
            ),
            Err(e) => Err(e),
        }
    }
}

impl PkgProfileConfig {
    /// A configuration that asks for a package with the default features,
    /// standard permissions and stable releases.
    pub fn new(name: &str) -> (r: Self)
        ensures
            r@ == (PkgProfileConfigView {
                name: name@,
                version: VersionPatternView::Any,
                features: Seq::empty(),
                use_default_features: true,
                permissions: EvalPermissions::Standard,
                stability: PackageStability::Stable,
            }),
    {
        let r = PkgProfileConfig {
            req: PkgRequest::new(name),
            features: Vec::new(),
            use_default_features: true,
            permissions: EvalPermissions::Standard,
            stability: PackageStability::Stable,
        };
        assert(r.features.deep_view() =~= Seq::empty());
        r
    }

    /// Calculates the features that the package is evaluated with.
    pub fn calculate_features(&self, properties: &PackageProperties) -> (r: Result<
        Vec<String>,
        EvalErrorKind,
    >)
        ensures
            match self@.features_for(properties@) {
                Ok(features) => r matches Ok(got) && got.deep_view() == features,
                Err(e) => r matches Err(err) && err@ == e,
            },
    {
        let empty: Vec<String> = Vec::new();
        assert(empty.deep_view() =~= Seq::empty());
        let allowed = match &properties.features {
            Some(list) => list,
            None => &empty,
        };
        let ghost configured = self.features.deep_view();
        let mut i: usize = 0;
        assert(configured.skip(0) =~= configured);
        while i < self.features.len()
            invariant
                i <= self.features.len(),
                configured == self.features.deep_view(),
                allowed.deep_view() == list_or_empty(properties@.features),
                unknown_feature(configured, allowed.deep_view()) == unknown_feature(
                    configured.skip(i as int),
                    allowed.deep_view(),
                ),
            decreases self.features.len() - i,
        {
            proof {
                assert(configured.skip(i as int).drop_first() =~= configured.skip(i + 1));
                assert(configured.skip(i as int)[0] == self.features[i as int]@);
            }
            if !contains(allowed, self.features[i].as_str()) {
                return Err(EvalErrorKind::UnknownFeature(self.features[i].clone()));
            }
            i += 1;
        }
        let mut out: Vec<String> = Vec::new();
        assert(out.deep_view() =~= Seq::empty());
        if self.use_default_features {
            if let Some(defaults) = &properties.default_features {
                append_strings(&mut out, defaults);
            }
        }
        append_strings(&mut out, &self.features);
        proof {
            assert(Seq::<Seq<char>>::empty() + configured =~= configured);
            assert(Seq::<Seq<char>>::empty() + list_or_empty(properties@.default_features)
                =~= list_or_empty(properties@.default_features));
        }
        Ok(out)
    }

    /// Overrides the parameters of an evaluation with this configuration.
    pub fn override_configured_package_input(
        &self,
        properties: &PackageProperties,
        params: &mut EvalParameters,
    ) -> (r: Result<(), EvalErrorKind>)
        ensures
            match self@.params_for(properties@, old(params)@) {
                Ok(overridden) => r is Ok && final(params)@ == overridden,
                Err(e) => r matches Err(err) && err@ == e,
            },
    {
        let features = self.calculate_features(properties)?;
        params.features = features;
        params.perms = self.permissions;
        params.stability = self.stability;
        Ok(())
    }
}

/// The relations of a package to other packages.
#[derive(Debug)]
pub struct EvalRelationsResult {
    pub deps: Vec<Vec<RequiredPackage>>,
    pub conflicts: Vec<String>,
    pub recommendations: Vec<String>,
    pub bundled: Vec<String>,
    pub compats: Vec<(String, String)>,
    pub extensions: Vec<String>,
}

/// The mathematical value of an [`EvalRelationsResult`].
pub struct RelationsView {
    pub deps: Seq<Seq<RequiredPackageView>>,
    pub conflicts: Seq<Seq<char>>,
    pub recommendations: Seq<Seq<char>>,
    pub bundled: Seq<Seq<char>>,
    pub compats: Seq<(Seq<char>, Seq<char>)>,
    pub extensions: Seq<Seq<char>>,
}

impl View for EvalRelationsResult {
    type V = RelationsView;

    open spec fn view(&self) -> RelationsView {
        RelationsView {
            deps: self.deps.deep_view(),
            conflicts: self.conflicts.deep_view(),
            recommendations: self.recommendations.deep_view(),
            bundled: self.bundled.deep_view(),
            compats: self.compats.deep_view(),
            extensions: self.extensions.deep_view(),
        }
    }
}

/// The relations that an evaluation has gathered.
pub open spec fn relations_in(state: EvalState) -> RelationsView {
    RelationsView {
        deps: state.deps,
        conflicts: state.conflicts,
        recommendations: state.recommendations,
        bundled: state.bundled,
        compats: state.compats,
        extensions: state.extensions,
    }
}

impl PackageView {
    /// The relations of the package, which evaluating it for resolution
    /// gives.
    pub open spec fn relations(self, input: EvalInputView) -> Result<RelationsView, EvalErrorView> {
        match self.eval(EvalLevel::Resolve, input) {
            Ok(state) => Ok(relations_in(state)),
            Err(e) => Err(e),
        }
    }
}

impl Package {
    /// Evaluates the relations of the package.
    pub fn eval_package_relations(&self, input: EvalInput) -> (r: Result<
        EvalRelationsResult,
        EvalError,
    >)
        ensures
            match self@.relations(input@) {
                Ok(relations) => r matches Ok(got) && got@ == relations,
                Err(e) => r matches Err(err) && err@ == e,
            },
    {
        let eval = self.eval(Routine::InstallResolve, input)?;
        Ok(
            EvalRelationsResult {
                deps: eval.deps,
                conflicts: eval.conflicts,
                recommendations: eval.recommendations,
                bundled: eval.bundled,
                compats: eval.compats,
                extensions: eval.extensions,
            },
        )
    }
}

/// Every evaluation of a package that succeeds has gathered no more
/// notices than are allowed, none of them longer than is allowed: one notice
/// too many, or one that is too long, fails the evaluation.
pub proof fn lemma_eval_keeps_notice_limits(package: PackageView, level: EvalLevel, input: EvalInputView)
    ensures
        package.eval(level, input) matches Ok(state) ==> notices_within_limits(state.notices),
{
    let ctx = EvalContext { input, package: package.id, level };
    match package.contents {
        PackageContentsView::Script(parsed) => lemma_script_keeps_notice_limits(parsed, ctx),
        PackageContentsView::Declarative(declared) => lemma_declarative_keeps_notice_limits(
            declared,
            ctx,
        ),
    }
}

} // verus!
